//! Edits: one contiguous replacement of text, and what it does to positions
//! that were computed before it.
use vstd::prelude::*;
use tree_sitter::Tree;
use crate::engine::{
    apply_node_edit, apply_tree_edit, engine_edited_node, engine_edited_tree, move_position,
    read_start_byte, read_start_position, same_but_for_start,
};
use crate::error::BridgeError;
use crate::laws::law_edit_keeps_order;
use crate::node::NodeHandle;
use crate::position::{Point, Range, ENGINE_MAX};

verus! {

/// One replacement of text: what lay between `start` and `old_end` now lies
/// between `start` and `new_end`, in bytes and in points.
#[derive(Clone, Copy, Debug, PartialEq, Eq, Structural)]
pub struct EditDescription {
    pub start_byte: usize,
    pub old_end_byte: usize,
    pub new_end_byte: usize,
    pub start_point: Point,
    pub old_end_point: Point,
    pub new_end_point: Point,
}

/// A sum as the engine computes it, in 32 bits: what goes beyond them is
/// lost.
pub open spec fn wrap32(sum: int) -> int {
    sum % 0x1_0000_0000
}

/// The sum of two lengths, as the engine adds points: a length of one row or
/// more starts a new column count.
pub open spec fn point_sum(a: Point, b: Point) -> Point {
    if b.row > 0 {
        Point { row: wrap32(a.row + b.row) as usize, column: b.column }
    } else {
        Point { row: a.row, column: wrap32(a.column + b.column) as usize }
    }
}

/// The length from `b` to `a`, as the engine subtracts points; zero where `a`
/// is not after `b`.
pub open spec fn point_gap(a: Point, b: Point) -> Point {
    if a.row > b.row {
        Point { row: (a.row - b.row) as usize, column: a.column }
    } else if a.column >= b.column {
        Point { row: 0, column: (a.column - b.column) as usize }
    } else {
        Point { row: 0, column: 0 }
    }
}

impl EditDescription {
    /// Both ends lie at or after the start, in bytes and in points. An edit
    /// of which this does not hold is an edit all the same; the laws on what
    /// an edit keeps ask for it.
    pub open spec fn wf(self) -> bool {
        &&& self.start_byte <= self.old_end_byte
        &&& self.start_byte <= self.new_end_byte
        &&& self.start_point.le(self.old_end_point)
        &&& self.start_point.le(self.new_end_point)
    }

    /// Every position of the edit fits the engine's 32 bits.
    pub open spec fn fits_engine(self) -> bool {
        &&& self.start_byte <= ENGINE_MAX
        &&& self.old_end_byte <= ENGINE_MAX
        &&& self.new_end_byte <= ENGINE_MAX
        &&& self.start_point.fits_engine()
        &&& self.old_end_point.fits_engine()
        &&& self.new_end_point.fits_engine()
    }

    /// What `new` answers.
    pub open spec fn spec_new(
        start_byte: usize,
        old_end_byte: usize,
        new_end_byte: usize,
        start_point: Point,
        old_end_point: Point,
        new_end_point: Point,
    ) -> Result<EditDescription, BridgeError> {
        let edit = EditDescription {
            start_byte,
            old_end_byte,
            new_end_byte,
            start_point,
            old_end_point,
            new_end_point,
        };
        if edit.fits_engine() {
            Ok(edit)
        } else {
            Err(BridgeError::OutOfEngineRange)
        }
    }

    /// The edit with these six positions. Refused where a position does not
    /// fit the engine, and nowhere else.
    pub fn new(
        start_byte: usize,
        old_end_byte: usize,
        new_end_byte: usize,
        start_point: Point,
        old_end_point: Point,
        new_end_point: Point,
    ) -> (r: Result<EditDescription, BridgeError>)
        ensures
            r == EditDescription::spec_new(
                start_byte,
                old_end_byte,
                new_end_byte,
                start_point,
                old_end_point,
                new_end_point,
            ),
    {
        let fits = start_byte <= ENGINE_MAX && old_end_byte <= ENGINE_MAX && new_end_byte
            <= ENGINE_MAX && start_point.within_engine() && old_end_point.within_engine()
            && new_end_point.within_engine();
        if fits {
            Ok(
                EditDescription {
                    start_byte,
                    old_end_byte,
                    new_end_byte,
                    start_point,
                    old_end_point,
                    new_end_point,
                },
            )
        } else {
            Err(BridgeError::OutOfEngineRange)
        }
    }

    /// Where the edit leaves a byte offset: one at or after the old end moves
    /// with the text behind the edit, one inside the replaced text lands on
    /// the new end, one at or before the start stays.
    pub open spec fn moved_byte(self, byte: usize) -> usize {
        if byte >= self.old_end_byte {
            wrap32(self.new_end_byte + (byte - self.old_end_byte)) as usize
        } else if byte > self.start_byte {
            self.new_end_byte
        } else {
            byte
        }
    }

    /// Where the edit leaves the point that belongs to `byte`. Which of the
    /// three ways it goes is told by the byte, not by the point.
    pub open spec fn moved_point(self, byte: usize, point: Point) -> Point {
        if byte >= self.old_end_byte {
            point_sum(self.new_end_point, point_gap(point, self.old_end_point))
        } else if byte > self.start_byte {
            self.new_end_point
        } else {
            point
        }
    }

    /// The byte and the point speak of one place, as far as the edit can
    /// tell: a byte at or after the old end has a point at or after it, and
    /// a byte at or before the start has a point at or before it.
    pub open spec fn agrees_with(self, byte: usize, point: Point) -> bool {
        &&& byte >= self.old_end_byte ==> self.old_end_point.le(point)
        &&& byte <= self.start_byte ==> point.le(self.start_point)
    }

    /// The position that the edit moves `byte` and `point` to is reached
    /// without a sum that goes beyond 32 bits.
    pub open spec fn moves_within_engine(self, byte: usize, point: Point) -> bool {
        byte >= self.old_end_byte ==> {
            let gap = point_gap(point, self.old_end_point);
            &&& self.new_end_byte + (byte - self.old_end_byte) <= ENGINE_MAX
            &&& self.new_end_point.row + gap.row <= ENGINE_MAX
            &&& gap.row == 0 ==> self.new_end_point.column + gap.column <= ENGINE_MAX
        }
    }

    /// The edit ends at or after its start, it and the two ends of `range`
    /// speak of the same places in bytes and in points, and it moves both
    /// ends without a sum that goes beyond 32 bits.
    pub open spec fn suits(self, range: Range) -> bool {
        &&& self.wf()
        &&& self.agrees_with(range.start_byte, range.start_point)
        &&& self.agrees_with(range.end_byte, range.end_point)
        &&& self.moves_within_engine(range.start_byte, range.start_point)
        &&& self.moves_within_engine(range.end_byte, range.end_point)
    }

    /// What `relocate` answers.
    pub open spec fn spec_relocate(self, byte: usize, point: Point) -> Option<(usize, Point)> {
        if self.fits_engine() && byte <= ENGINE_MAX && point.fits_engine() {
            Some((self.moved_byte(byte), self.moved_point(byte, point)))
        } else {
            None
        }
    }

    pub fn within_engine(&self) -> (b: bool)
        ensures
            b == self.fits_engine(),
    {
        self.start_byte <= ENGINE_MAX && self.old_end_byte <= ENGINE_MAX && self.new_end_byte
            <= ENGINE_MAX && self.start_point.within_engine() && self.old_end_point.within_engine()
            && self.new_end_point.within_engine()
    }

    /// Where the edit leaves a position that was computed before it, as the
    /// engine moves it; `None` where the edit or the position does not fit
    /// the engine.
    pub fn relocate(&self, byte: usize, point: Point) -> (r: Option<(usize, Point)>)
        ensures
            r == self.spec_relocate(byte, point),
    {
        if self.within_engine() && byte <= ENGINE_MAX && point.within_engine() {
            Some(move_position(self, byte, point))
        } else {
            None
        }
    }

    /// A position that fits the engine is moved to one that fits it.
    pub proof fn lemma_moved_fits(self, byte: usize, point: Point)
        requires
            self.fits_engine(),
            byte <= ENGINE_MAX,
            point.fits_engine(),
        ensures
            self.moved_byte(byte) <= ENGINE_MAX,
            self.moved_point(byte, point).fits_engine(),
    {
    }

    /// Where the edit leaves a range: each end where the edit leaves that
    /// position, but the end never before the start. The edit leaves the end
    /// before the start only where it does not suit the range.
    pub open spec fn moved_range(self, range: Range) -> Range {
        let start_byte = self.moved_byte(range.start_byte);
        let start_point = self.moved_point(range.start_byte, range.start_point);
        let end_byte = self.moved_byte(range.end_byte);
        let end_point = self.moved_point(range.end_byte, range.end_point);
        Range {
            start_byte,
            end_byte: if start_byte <= end_byte { end_byte } else { start_byte },
            start_point,
            end_point: if start_point.le(end_point) { end_point } else { start_point },
        }
    }

    /// What becomes of a handle by this edit: its node is the one that the
    /// engine leaves, and its end is where `moved_range` leaves the end.
    pub open spec fn edited<'t>(self, node: NodeHandle<'t>) -> NodeHandle<'t> {
        let after = self.moved_range(node.spec_range());
        node.moved_to(engine_edited_node(node.native(), self), after.end_byte, after.end_point)
    }

    /// Tells the engine of this edit for the node of `node`, and moves the
    /// end that the handle keeps as the engine moves a position, but not to
    /// before the start.
    fn apply_to_node<'t>(&self, node: &mut NodeHandle<'t>)
        requires
            self.fits_engine(),
        ensures
            *final(node) == self.edited(*old(node)),
            final(node).wf(),
            same_but_for_start(old(node).native(), final(node).native()),
            final(node).spec_range().start_byte == self.moved_byte(
                old(node).spec_range().start_byte,
            ),
            final(node).spec_range().start_point == self.moved_point(
                old(node).spec_range().start_byte,
                old(node).spec_range().start_point,
            ),
    {
        proof {
            use_type_invariant(&*node);
            node.lemma_parts();
            self.lemma_moved_fits(node.spec_range().start_byte, node.spec_range().start_point);
            self.lemma_moved_fits(node.spec_range().end_byte, node.spec_range().end_point);
        }
        let (end_byte, end_point) = move_position(self, node.end_byte(), node.end_position());
        let mut after = *node.inner();
        apply_node_edit(&mut after, self);
        let start_byte = read_start_byte(&after);
        let start_point = read_start_position(&after);
        node.move_to(
            after,
            if start_byte <= end_byte { end_byte } else { start_byte },
            if start_point.at_or_before(&end_point) { end_point } else { start_point },
        );
    }
}

/// What `edit_node` makes of a handle.
pub open spec fn spec_edit_node<'t>(
    node: NodeHandle<'t>,
    start_byte: usize,
    old_end_byte: usize,
    new_end_byte: usize,
    start_point: Point,
    old_end_point: Point,
    new_end_point: Point,
) -> Result<NodeHandle<'t>, BridgeError> {
    match EditDescription::spec_new(
        start_byte,
        old_end_byte,
        new_end_byte,
        start_point,
        old_end_point,
        new_end_point,
    ) {
        Err(e) => Err(e),
        Ok(edit) => Ok(edit.edited(node)),
    }
}

/// Keeps a handle that was made before an edit of the text in step with it:
/// the start and the end of the node each move to where the edit leaves
/// them. Nothing is parsed, no other node is touched, and the kind, the flags
/// and the numbers of children of the node stay.
///
/// Every edit whose six positions fit the engine's 32 bits is taken, also one
/// that ends before it starts, and whether the bytes and the points describe
/// one and the same edit is not looked at: what comes of such an edit are
/// positions that need not lie in the text. Where it would leave the end of
/// the node before its start, the node ends at its start. On a failure the
/// handle is left as it was.
pub fn edit_node(
    node: &mut NodeHandle<'_>,
    start_byte: usize,
    old_end_byte: usize,
    new_end_byte: usize,
    start_point: Point,
    old_end_point: Point,
    new_end_point: Point,
) -> (r: Result<(), BridgeError>)
    ensures
        match spec_edit_node(
            *old(node),
            start_byte,
            old_end_byte,
            new_end_byte,
            start_point,
            old_end_point,
            new_end_point,
        ) {
            Ok(after) => r is Ok && *final(node) == after,
            Err(e) => r == Err::<(), BridgeError>(e) && *final(node) == *old(node),
        },
        final(node).wf(),
        final(node).storage() == old(node).storage(),
        r is Ok <==> (EditDescription {
            start_byte,
            old_end_byte,
            new_end_byte,
            start_point,
            old_end_point,
            new_end_point,
        }).fits_engine(),
        r is Ok ==> ({
            let edit = EditDescription {
                start_byte,
                old_end_byte,
                new_end_byte,
                start_point,
                old_end_point,
                new_end_point,
            };
            let before = old(node).spec_range();
            let after = final(node).spec_range();
            &&& edit.fits_engine()
            &&& after == edit.moved_range(before)
            &&& after.start_byte == edit.moved_byte(before.start_byte)
            &&& after.start_point == edit.moved_point(before.start_byte, before.start_point)
            &&& edit.suits(before) ==> after.end_byte == edit.moved_byte(before.end_byte)
                && after.end_point == edit.moved_point(before.end_byte, before.end_point)
            &&& same_but_for_start(old(node).native(), final(node).native())
        }),
{
    proof {
        use_type_invariant(&*node);
        node.lemma_parts();
        let edit = EditDescription {
            start_byte,
            old_end_byte,
            new_end_byte,
            start_point,
            old_end_point,
            new_end_point,
        };
        let before = node.spec_range();
        if edit.fits_engine() && edit.suits(before) {
            law_edit_keeps_order(
                edit,
                before.start_byte,
                before.start_point,
                before.end_byte,
                before.end_point,
            );
        }
    }
    match EditDescription::new(
        start_byte,
        old_end_byte,
        new_end_byte,
        start_point,
        old_end_point,
        new_end_point,
    ) {
        Err(e) => Err(e),
        Ok(edit) => {
            edit.apply_to_node(node);
            Ok(())
        },
    }
}

/// What `edit_tree` makes of a tree: the tree that the engine leaves, or the
/// reason why the engine was not told of the edit.
pub open spec fn spec_edit_tree(
    tree: Tree,
    start_byte: usize,
    old_end_byte: usize,
    new_end_byte: usize,
    start_point: Point,
    old_end_point: Point,
    new_end_point: Point,
) -> Result<Tree, BridgeError> {
    match EditDescription::spec_new(
        start_byte,
        old_end_byte,
        new_end_byte,
        start_point,
        old_end_point,
        new_end_point,
    ) {
        Err(e) => Err(e),
        Ok(edit) => Ok(engine_edited_tree(tree, edit)),
    }
}

/// Tells the engine that the text of a tree was edited, so that the nodes
/// fetched from the tree afterwards lie where the text now is. Every edit
/// whose six positions fit the engine's 32 bits is taken. On a failure the
/// tree is left as it was.
pub fn edit_tree(
    tree: &mut Tree,
    start_byte: usize,
    old_end_byte: usize,
    new_end_byte: usize,
    start_point: Point,
    old_end_point: Point,
    new_end_point: Point,
) -> (r: Result<(), BridgeError>)
    ensures
        match spec_edit_tree(
            *old(tree),
            start_byte,
            old_end_byte,
            new_end_byte,
            start_point,
            old_end_point,
            new_end_point,
        ) {
            Ok(after) => r is Ok && *final(tree) == after,
            Err(e) => r == Err::<(), BridgeError>(e) && *final(tree) == *old(tree),
        },
{
    match EditDescription::new(
        start_byte,
        old_end_byte,
        new_end_byte,
        start_point,
        old_end_point,
        new_end_point,
    ) {
        Err(e) => Err(e),
        Ok(edit) => {
            apply_tree_edit(tree, &edit);
            Ok(())
        },
    }
}

} // verus!
