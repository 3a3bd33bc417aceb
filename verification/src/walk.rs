//! Calling back into the host for each child of a node.
use vstd::prelude::*;
use crate::engine::engine_child_count;
use crate::error::BridgeError;
use crate::node::NodeHandle;

verus! {

/// Why a walk over the children of a node stopped early.
#[derive(Debug)]
pub enum WalkError<E> {
    /// The bridge could not hand out a child.
    Bridge(BridgeError),
    /// The callback failed; this is its failure, as it gave it.
    Callback(E),
}

/// The child of `node` at `index` exists, and the callback may have accepted it.
pub open spec fn child_accepted<'t, E, F: Fn(NodeHandle<'t>) -> Result<(), E>>(
    function: F,
    node: NodeHandle<'t>,
    index: int,
) -> bool {
    node.spec_child(index as usize) matches Ok(Some(child)) && function.ensures(
        (child,),
        Ok::<(), E>(()),
    )
}

/// The callback may have accepted every child of `node` before `index`.
pub open spec fn children_accepted_before<'t, E, F: Fn(NodeHandle<'t>) -> Result<(), E>>(
    function: F,
    node: NodeHandle<'t>,
    index: int,
) -> bool {
    forall|j: int| 0 <= j < index ==> #[trigger] child_accepted(function, node, j)
}

/// Calls `function` on each child of `node`, the anonymous ones too, from the
/// first to the last, for what the calls do.
///
/// The walk ends at the first child that the bridge cannot hand out or that
/// the callback fails on: the children after it are not called on, and the
/// failure is handed back as it is.
pub fn mapc_children<'t, E, F: Fn(NodeHandle<'t>) -> Result<(), E>>(
    function: F,
    node: &NodeHandle<'t>,
) -> (r: Result<(), WalkError<E>>)
    requires
        forall|child: NodeHandle<'t>|
            child.wf() && child.storage() == node.storage() ==> #[trigger] function.requires(
                (child,),
            ),
    ensures
        match r {
            Ok(()) => children_accepted_before(
                function,
                *node,
                engine_child_count(node.native()) as int,
            ),
            Err(WalkError::Callback(e)) => exists|k: int|
                0 <= k < engine_child_count(node.native()) && children_accepted_before(
                    function,
                    *node,
                    k,
                ) && (#[trigger] node.spec_child(k as usize) matches Ok(Some(child))
                    && function.ensures((child,), Err::<(), E>(e))),
            Err(WalkError::Bridge(e)) => exists|k: int|
                0 <= k < engine_child_count(node.native()) && children_accepted_before(
                    function,
                    *node,
                    k,
                ) && #[trigger] node.spec_child(k as usize) == Err::<Option<NodeHandle<'t>>, _>(e),
        },
{
    let count = node.child_count();
    let mut index: usize = 0;
    while index < count
        invariant
            index <= count,
            count == engine_child_count(node.native()),
            children_accepted_before(function, *node, index as int),
            forall|child: NodeHandle<'t>|
                child.wf() && child.storage() == node.storage() ==> #[trigger] function.requires(
                    (child,),
                ),
        decreases count - index,
    {
        match node.child(index) {
            Err(e) => {
                return Err(WalkError::Bridge(e));
            },
            Ok(None) => {
                return Err(WalkError::Bridge(BridgeError::MissingChild));
            },
            Ok(Some(child)) => {
                match function(child) {
                    Ok(done) => {
                        assert(done == ());
                        assert(child_accepted(function, *node, index as int));
                    },
                    Err(e) => {
                        return Err(WalkError::Callback(e));
                    },
                }
            },
        }
        index += 1;
    }
    Ok(())
}

} // verus!
