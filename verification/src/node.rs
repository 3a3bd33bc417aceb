//! Node handles: a node of the engine together with the tree it lies in.
use vstd::prelude::*;
use tree_sitter::{Node, Tree};
use crate::engine::{
    engine_child_count, engine_end_byte, engine_end_position, engine_has_changes,
    engine_has_error, engine_is_error, engine_is_extra, engine_is_missing, engine_is_named,
    engine_kind, engine_kind_id, engine_named_child_count, engine_owner, engine_root,
    engine_sexp, engine_start_byte, engine_start_position, read_child_count, read_end_byte,
    read_end_position, read_has_changes, read_has_error, read_is_error, read_is_extra,
    read_is_missing, read_is_named, read_kind, read_kind_id, read_named_child_count, read_sexp,
    read_start_byte, read_start_position, root_node, stays_in_tree,
};
use crate::error::BridgeError;
use crate::layout::{check_layout, layout_verdict, require_named};
use crate::position::{Point, Range, ENGINE_MAX};

verus! {

/// What a navigation answers: a handle, absence, or a failure of the bridge.
pub type Found<'t> = Result<Option<NodeHandle<'t>>, BridgeError>;

/// A node, a reference to the tree whose storage it points into, and the
/// position at which the node ends.
///
/// A handle is made for the root of a tree or from another handle, and in the
/// second case it takes over that handle's tree: no function pairs a node
/// with a tree that is handed in beside it.
///
/// The engine keeps where a node starts and how long it is, and an edit of a
/// node moves its start only. An edit of the text can move the two ends of a
/// node apart, so the handle keeps the end itself: what the engine said when
/// the handle was made, moved by every edit of the handle since.
#[derive(Clone, Copy, Debug)]
pub struct NodeHandle<'t> {
    tree: &'t Tree,
    inner: Node<'t>,
    end_byte: usize,
    end_point: Point,
}

impl<'t> NodeHandle<'t> {
    /// The tree that the handle refers to.
    pub closed spec fn storage(self) -> Tree {
        *self.tree
    }

    /// The engine's node.
    pub closed spec fn native(self) -> Node<'t> {
        self.inner
    }

    /// The byte at which the node ends.
    pub closed spec fn spec_end_byte(self) -> usize {
        self.end_byte
    }

    /// The point at which the node ends.
    pub closed spec fn spec_end_position(self) -> Point {
        self.end_point
    }

    /// The handle for `node` that refers to the same tree as this one and
    /// ends where the engine says that `node` ends.
    pub closed spec fn beside(self, node: Node<'t>) -> NodeHandle<'t> {
        NodeHandle {
            tree: self.tree,
            inner: node,
            end_byte: engine_end_byte(node),
            end_point: engine_end_position(node),
        }
    }

    /// The handle for the root of `tree`, which ends where the engine says
    /// that the root ends.
    pub closed spec fn at_root(tree: &'t Tree) -> NodeHandle<'t> {
        NodeHandle {
            tree,
            inner: engine_root(tree),
            end_byte: engine_end_byte(engine_root(tree)),
            end_point: engine_end_position(engine_root(tree)),
        }
    }

    /// The handle for `node` that refers to the same tree as this one and
    /// ends at the given position.
    pub closed spec fn moved_to(self, node: Node<'t>, end_byte: usize, end_point: Point) -> NodeHandle<
        't,
    > {
        NodeHandle { tree: self.tree, inner: node, end_byte, end_point }
    }

    /// Where the node lies: from where the engine says that it starts to the
    /// end that the handle keeps.
    pub open spec fn spec_range(self) -> Range {
        Range {
            start_byte: engine_start_byte(self.native()),
            end_byte: self.spec_end_byte(),
            start_point: engine_start_position(self.native()),
            end_point: self.spec_end_position(),
        }
    }

    /// What holds of every handle: its node lies in its tree, it starts at
    /// or before its end, in bytes and in points, its start and its end lie
    /// within the engine's 32 bits, and it has no more named children than
    /// children.
    #[verifier::type_invariant]
    pub open spec fn wf(self) -> bool {
        &&& engine_owner(self.native()) == self.storage()
        &&& self.spec_range().wf()
        &&& self.spec_range().start_byte <= ENGINE_MAX
        &&& self.spec_range().end_byte <= ENGINE_MAX
        &&& self.spec_range().start_point.fits_engine()
        &&& self.spec_range().end_point.fits_engine()
        &&& engine_named_child_count(self.native()) <= engine_child_count(self.native())
    }

    /// What the handles that the spec functions above make hold.
    pub proof fn lemma_parts(self)
        ensures
            forall|node: Node<'t>|
                {
                    let handle = #[trigger] self.beside(node);
                    &&& handle.storage() == self.storage()
                    &&& handle.native() == node
                    &&& handle.spec_end_byte() == engine_end_byte(node)
                    &&& handle.spec_end_position() == engine_end_position(node)
                },
            forall|node: Node<'t>, end_byte: usize, end_point: Point|
                {
                    let handle = #[trigger] self.moved_to(node, end_byte, end_point);
                    &&& handle.storage() == self.storage()
                    &&& handle.native() == node
                    &&& handle.spec_end_byte() == end_byte
                    &&& handle.spec_end_position() == end_point
                },
    {
    }

    /// What the root handle of a tree holds.
    pub proof fn lemma_root_parts(tree: &'t Tree)
        ensures
            ({
                let handle = NodeHandle::at_root(tree);
                &&& handle.storage() == *tree
                &&& handle.native() == engine_root(tree)
                &&& handle.spec_end_byte() == engine_end_byte(engine_root(tree))
                &&& handle.spec_end_position() == engine_end_position(engine_root(tree))
            }),
    {
    }

    /// What becomes of a node that the engine found from this one: nothing
    /// found is absence, a node whose layout passes becomes a handle beside
    /// this one, and any other is the failure that `check_layout` names.
    pub open spec fn lift(self, found: Option<Node<'t>>) -> Found<'t> {
        match found {
            None => Ok(None),
            Some(node) => match layout_verdict(node) {
                Ok(()) => Ok(Some(self.beside(node))),
                Err(e) => Err(e),
            },
        }
    }

    /// As `lift`, for a question about named nodes: an anonymous answer is a
    /// failure.
    pub open spec fn lift_named(self, found: Option<Node<'t>>) -> Found<'t> {
        match self.lift(found) {
            Ok(Some(handle)) => if engine_is_named(handle.native()) {
                Ok(Some(handle))
            } else {
                Err(BridgeError::AnonymousResult)
            },
            other => other,
        }
    }

    /// The end of `node`, read from the engine with the rest of its layout;
    /// a failure where the layout does not pass.
    fn checked_end(node: &Node<'t>) -> (r: Result<(usize, Point), BridgeError>)
        ensures
            r == match layout_verdict(*node) {
                Ok(()) => Ok::<(usize, Point), BridgeError>(
                    (engine_end_byte(*node), engine_end_position(*node)),
                ),
                Err(e) => Err::<(usize, Point), BridgeError>(e),
            },
    {
        let end_byte = read_end_byte(node);
        let end_point = read_end_position(node);
        match check_layout(
            read_start_byte(node),
            end_byte,
            read_start_position(node),
            end_point,
            read_child_count(node),
            read_named_child_count(node),
        ) {
            Ok(()) => Ok((end_byte, end_point)),
            Err(e) => Err(e),
        }
    }

    /// Where a node that the engine found becomes a handle: beside the handle
    /// it was found from, and only with a layout that passes.
    pub(crate) fn wrap(&self, found: Option<Node<'t>>) -> (r: Found<'t>)
        requires
            stays_in_tree(found, self.native()),
        ensures
            r == self.lift(found),
            r matches Ok(Some(handle)) ==> handle.wf() && handle.storage()
                == self.storage(),
    {
        proof {
            use_type_invariant(self);
        }
        match found {
            None => Ok(None),
            Some(node) => match Self::checked_end(&node) {
                Ok((end_byte, end_point)) => Ok(
                    Some(NodeHandle { tree: self.tree, inner: node, end_byte, end_point }),
                ),
                Err(e) => Err(e),
            },
        }
    }

    /// As `wrap`, for a question about named nodes.
    pub(crate) fn wrap_named(&self, found: Option<Node<'t>>) -> (r: Found<'t>)
        requires
            stays_in_tree(found, self.native()),
        ensures
            r == self.lift_named(found),
            r matches Ok(Some(handle)) ==> handle.wf() && handle.storage()
                == self.storage() && engine_is_named(handle.native()),
    {
        match self.wrap(found) {
            Ok(Some(handle)) => match require_named(handle, read_is_named(&handle.inner)) {
                Ok(handle) => Ok(Some(handle)),
                Err(e) => Err(e),
            },
            other => other,
        }
    }

    /// What `root` answers.
    pub open spec fn spec_root(tree: &'t Tree) -> Result<NodeHandle<'t>, BridgeError> {
        match layout_verdict(engine_root(tree)) {
            Ok(()) => Ok(NodeHandle::at_root(tree)),
            Err(e) => Err(e),
        }
    }

    /// The handle for the root of `tree`.
    pub fn root(tree: &'t Tree) -> (r: Result<NodeHandle<'t>, BridgeError>)
        ensures
            r == NodeHandle::spec_root(tree),
            r matches Ok(handle) ==> handle.wf() && handle.storage() == *tree
                && handle.native() == engine_root(tree),
    {
        let node = root_node(tree);
        match Self::checked_end(&node) {
            Ok((end_byte, end_point)) => Ok(NodeHandle { tree, inner: node, end_byte, end_point }),
            Err(e) => Err(e),
        }
    }

    /// The tree that the handle refers to.
    pub fn tree(&self) -> (tree: &'t Tree)
        ensures
            *tree == self.storage(),
    {
        self.tree
    }

    /// The engine's node.
    pub fn inner(&self) -> (node: &Node<'t>)
        ensures
            *node == self.native(),
    {
        &self.inner
    }

    /// The node's type, as the number that the grammar gives it.
    pub fn kind_id(&self) -> (id: u16)
        ensures
            id == engine_kind_id(self.native()),
    {
        read_kind_id(&self.inner)
    }

    /// The node's type, by name.
    pub fn kind(&self) -> (kind: &'t str)
        ensures
            kind@ == engine_kind(self.native()),
    {
        read_kind(&self.inner)
    }

    /// Does the node stand for a named rule of the grammar, rather than for a
    /// string literal in it?
    pub fn is_named(&self) -> (b: bool)
        ensures
            b == engine_is_named(self.native()),
    {
        read_is_named(&self.inner)
    }

    /// Is the node one that may appear anywhere, such as a comment?
    pub fn is_extra(&self) -> (b: bool)
        ensures
            b == engine_is_extra(self.native()),
    {
        read_is_extra(&self.inner)
    }

    /// Is the node a syntax error?
    pub fn is_error(&self) -> (b: bool)
        ensures
            b == engine_is_error(self.native()),
    {
        read_is_error(&self.inner)
    }

    /// Did the parser put the node in to recover from an error?
    pub fn is_missing(&self) -> (b: bool)
        ensures
            b == engine_is_missing(self.native()),
    {
        read_is_missing(&self.inner)
    }

    /// Has the node been edited?
    pub fn has_changes(&self) -> (b: bool)
        ensures
            b == engine_has_changes(self.native()),
    {
        read_has_changes(&self.inner)
    }

    /// Is the node a syntax error, or does it hold one?
    pub fn has_error(&self) -> (b: bool)
        ensures
            b == engine_has_error(self.native()),
    {
        read_has_error(&self.inner)
    }

    /// The byte at which the node starts, which is at or before its end.
    pub fn start_byte(&self) -> (byte: usize)
        ensures
            byte == self.spec_range().start_byte,
            byte <= self.spec_range().end_byte,
    {
        proof {
            use_type_invariant(self);
        }
        read_start_byte(&self.inner)
    }

    /// The point at which the node starts, which is at or before its end.
    pub fn start_position(&self) -> (point: Point)
        ensures
            point == self.spec_range().start_point,
            point.le(self.spec_range().end_point),
    {
        proof {
            use_type_invariant(self);
        }
        read_start_position(&self.inner)
    }

    /// The byte at which the node ends, which is at or after its start.
    pub fn end_byte(&self) -> (byte: usize)
        ensures
            byte == self.spec_range().end_byte,
            self.spec_range().start_byte <= byte,
    {
        proof {
            use_type_invariant(self);
        }
        self.end_byte
    }

    /// The point at which the node ends, which is at or after its start.
    pub fn end_position(&self) -> (point: Point)
        ensures
            point == self.spec_range().end_point,
            self.spec_range().start_point.le(point),
    {
        proof {
            use_type_invariant(self);
        }
        self.end_point
    }

    /// Where the node lies, start before end.
    pub fn range(&self) -> (range: Range)
        ensures
            range == self.spec_range(),
            range.wf(),
    {
        proof {
            use_type_invariant(self);
        }
        Range {
            start_byte: read_start_byte(&self.inner),
            end_byte: self.end_byte,
            start_point: read_start_position(&self.inner),
            end_point: self.end_point,
        }
    }

    /// The number of the node's children.
    pub fn child_count(&self) -> (count: usize)
        ensures
            count == engine_child_count(self.native()),
            engine_named_child_count(self.native()) <= count,
    {
        proof {
            use_type_invariant(self);
        }
        read_child_count(&self.inner) as usize
    }

    /// The number of the node's named children, which is at most the number
    /// of its children.
    pub fn named_child_count(&self) -> (count: usize)
        ensures
            count == engine_named_child_count(self.native()),
            count <= engine_child_count(self.native()),
    {
        proof {
            use_type_invariant(self);
        }
        read_named_child_count(&self.inner)
    }

    /// The node as an S-expression.
    pub fn to_sexp(&self) -> (sexp: String)
        ensures
            sexp@ == engine_sexp(self.native()),
    {
        read_sexp(&self.inner)
    }

    /// Puts the node that an edit left behind in the place of the handle's
    /// node, and the end that the edit left in the place of the handle's end.
    pub(crate) fn move_to(&mut self, node: Node<'t>, end_byte: usize, end_point: Point)
        requires
            engine_owner(node) == old(self).storage(),
            engine_start_byte(node) <= end_byte,
            engine_start_position(node).le(end_point),
            engine_start_position(node).fits_engine(),
            end_byte <= ENGINE_MAX,
            end_point.fits_engine(),
            engine_named_child_count(node) <= engine_child_count(node),
        ensures
            *final(self) == old(self).moved_to(node, end_byte, end_point),
            final(self).wf(),
    {
        *self = NodeHandle { tree: self.tree, inner: node, end_byte, end_point };
    }
}

} // verus!
