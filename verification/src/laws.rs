//! What holds of every handle, of the answers to every navigation, and of
//! the positions that an edit leaves.
//!
//! Each statement here is proved from what the bridge does. Of the engine it
//! uses what the bridge has checked of its answers, and the rule by which an
//! edit moves a position.
use vstd::prelude::*;
use tree_sitter::{Node, Tree};
use crate::edit::{point_gap, EditDescription};
use crate::engine::{engine_child_count, engine_is_named, engine_named_child_count};
use crate::layout::engine_range;
use crate::node::NodeHandle;
use crate::position::{Point, Range, ENGINE_MAX};

verus! {

/// Below the number of children an index never finds absence; at or beyond
/// it an index always does. The same holds of the named children and their
/// number.
pub proof fn law_child_present_below_count(node: NodeHandle, index: usize)
    ensures
        index < engine_child_count(node.native()) ==> !(node.spec_child(index) matches Ok(None)),
        index >= engine_child_count(node.native()) ==> node.spec_child(index) matches Ok(None),
        index < engine_named_child_count(node.native()) ==> !(node.spec_named_child(
            index,
        ) matches Ok(None)),
        index >= engine_named_child_count(node.native()) ==> node.spec_named_child(
            index,
        ) matches Ok(None),
{
}

/// A node has at most as many named children as children.
pub proof fn law_named_children_among_children(node: NodeHandle)
    requires
        node.wf(),
    ensures
        engine_named_child_count(node.native()) <= engine_child_count(node.native()),
{
}

/// A node starts at or before its end, in bytes and in points.
pub proof fn law_start_at_or_before_end(node: NodeHandle)
    requires
        node.wf(),
    ensures
        node.spec_range().start_byte <= node.spec_range().end_byte,
        node.spec_range().start_point.le(node.spec_range().end_point),
        node.spec_range().wf(),
{
}

/// A handle that the bridge makes for the root of a tree or for the answer to
/// a navigation lies where the engine says that its node lies.
pub proof fn law_new_handle_lies_where_the_engine_says<'t>(
    node: NodeHandle<'t>,
    found: Option<Node<'t>>,
    tree: &'t Tree,
)
    ensures
        NodeHandle::spec_root(tree) matches Ok(root) ==> root.spec_range() == engine_range(
            root.native(),
        ),
        node.lift(found) matches Ok(Some(answer)) ==> answer.spec_range() == engine_range(
            answer.native(),
        ),
        node.lift_named(found) matches Ok(Some(answer)) ==> answer.spec_range() == engine_range(
            answer.native(),
        ),
{
    node.lemma_parts();
    NodeHandle::lemma_root_parts(tree);
}

/// Whatever the edit, the range that it leaves starts at or before its end.
pub proof fn law_edit_leaves_a_range(edit: EditDescription, range: Range)
    ensures
        edit.moved_range(range).wf(),
{
}

/// An edit keeps the order of two positions, where the edit ends at or after
/// its start, the bytes and the points of the edit and of the two positions
/// speak of the same places, and no sum goes beyond 32 bits. So such an edit
/// leaves both ends of a range where it leaves those positions.
pub proof fn law_edit_keeps_order(
    edit: EditDescription,
    start_byte: usize,
    start_point: Point,
    end_byte: usize,
    end_point: Point,
)
    requires
        edit.fits_engine(),
        edit.wf(),
        start_byte <= end_byte <= ENGINE_MAX,
        start_point.le(end_point),
        end_point.fits_engine(),
        edit.agrees_with(start_byte, start_point),
        edit.agrees_with(end_byte, end_point),
        edit.moves_within_engine(start_byte, start_point),
        edit.moves_within_engine(end_byte, end_point),
    ensures
        edit.moved_byte(start_byte) <= edit.moved_byte(end_byte),
        edit.moved_point(start_byte, start_point).le(edit.moved_point(end_byte, end_point)),
{
    if end_byte >= edit.old_end_byte {
        lemma_moved_without_loss(edit, end_byte, end_point);
        if start_byte >= edit.old_end_byte {
            lemma_moved_without_loss(edit, start_byte, start_point);
            assert(point_gap(start_point, edit.old_end_point).le(
                point_gap(end_point, edit.old_end_point),
            ));
        }
    }
}

/// Where no sum goes beyond 32 bits, a position behind the edit moves by the
/// plain sums.
proof fn lemma_moved_without_loss(edit: EditDescription, byte: usize, point: Point)
    requires
        edit.fits_engine(),
        byte >= edit.old_end_byte,
        edit.moves_within_engine(byte, point),
    ensures
        edit.moved_byte(byte) == edit.new_end_byte + (byte - edit.old_end_byte),
        ({
            let gap = point_gap(point, edit.old_end_point);
            let moved = edit.moved_point(byte, point);
            if gap.row > 0 {
                moved.row == edit.new_end_point.row + gap.row && moved.column == gap.column
            } else {
                moved.row == edit.new_end_point.row && moved.column == edit.new_end_point.column
                    + gap.column
            }
        }),
{
}

/// An edit leaves a position that lies before its start where it is.
pub proof fn law_edit_leaves_what_lies_before(edit: EditDescription, byte: usize, point: Point)
    requires
        byte < edit.start_byte <= edit.old_end_byte,
    ensures
        edit.moved_byte(byte) == byte,
        edit.moved_point(byte, point) == point,
{
}

/// An edit that replaces nothing by nothing leaves every position where it
/// is, where the byte and the point of the position speak of the same place.
pub proof fn law_empty_edit_leaves_all(edit: EditDescription, byte: usize, point: Point)
    requires
        edit.old_end_byte == edit.start_byte,
        edit.new_end_byte == edit.start_byte,
        edit.old_end_point == edit.start_point,
        edit.new_end_point == edit.start_point,
        edit.fits_engine(),
        byte <= ENGINE_MAX,
        point.fits_engine(),
        edit.agrees_with(byte, point),
    ensures
        edit.moved_byte(byte) == byte,
        edit.moved_point(byte, point) == point,
{
}

/// Putting text in on one row and taking the same text out again brings
/// every position back, where the byte and the point of the position speak
/// of the same place and the text put in does not push it beyond 32 bits.
pub proof fn law_insert_then_delete_restores(
    at_byte: usize,
    at_point: Point,
    bytes: usize,
    columns: usize,
    byte: usize,
    point: Point,
)
    requires
        byte <= ENGINE_MAX,
        point.fits_engine(),
        byte + bytes <= ENGINE_MAX,
        point.column + columns <= ENGINE_MAX,
        at_byte + bytes <= ENGINE_MAX,
        at_point.fits_engine(),
        at_point.column + columns <= ENGINE_MAX,
        byte >= at_byte ==> at_point.le(point),
    ensures
        ({
            let to_byte = (at_byte + bytes) as usize;
            let to_point = Point { row: at_point.row, column: (at_point.column + columns) as usize };
            let insert = EditDescription {
                start_byte: at_byte,
                old_end_byte: at_byte,
                new_end_byte: to_byte,
                start_point: at_point,
                old_end_point: at_point,
                new_end_point: to_point,
            };
            let delete = EditDescription {
                start_byte: at_byte,
                old_end_byte: to_byte,
                new_end_byte: at_byte,
                start_point: at_point,
                old_end_point: to_point,
                new_end_point: at_point,
            };
            &&& delete.moved_byte(insert.moved_byte(byte)) == byte
            &&& delete.moved_point(insert.moved_byte(byte), insert.moved_point(byte, point))
                == point
        }),
{
}

/// The node that a search by bytes answers spans the bytes that were asked
/// for, and the named search answers a named node.
pub proof fn law_descendant_spans_bytes(node: NodeHandle, start: usize, end: usize)
    ensures
        node.spec_descendant_for_byte_range(start, end) matches Ok(Some(found))
            ==> found.spec_range().spans_bytes(start, end),
        node.spec_named_descendant_for_byte_range(start, end) matches Ok(Some(found))
            ==> found.spec_range().spans_bytes(start, end) && engine_is_named(found.native()),
{
}

/// The node that a search by points answers spans the points that were asked
/// for, and the named search answers a named node.
pub proof fn law_descendant_spans_points(node: NodeHandle, start: Point, end: Point)
    ensures
        node.spec_descendant_for_point_range(start, end) matches Ok(Some(found))
            ==> found.spec_range().spans_points(start, end),
        node.spec_named_descendant_for_point_range(start, end) matches Ok(Some(found))
            ==> found.spec_range().spans_points(start, end) && engine_is_named(found.native()),
{
}

/// The parent of a child of a node refers to the tree that the node refers
/// to, and so does the child.
pub proof fn law_parent_of_child_in_same_tree(node: NodeHandle, index: usize)
    ensures
        node.spec_child(index) matches Ok(Some(child)) ==> child.storage() == node.storage() && (
        child.spec_parent() matches Ok(Some(parent)) ==> parent.storage() == node.storage()),
{
    if let Ok(Some(child)) = node.spec_child(index) {
        node.lemma_parts();
        if let Ok(Some(parent)) = child.spec_parent() {
            child.lemma_parts();
        }
    }
}

/// The sibling before the sibling after a node refers to the tree that the
/// node refers to, and so does the sibling after it; the same the other way
/// round.
pub proof fn law_siblings_in_same_tree(node: NodeHandle)
    ensures
        node.spec_next_sibling() matches Ok(Some(next)) ==> next.storage() == node.storage() && (
        next.spec_prev_sibling() matches Ok(Some(back)) ==> back.storage() == node.storage()),
        node.spec_prev_sibling() matches Ok(Some(prev)) ==> prev.storage() == node.storage() && (
        prev.spec_next_sibling() matches Ok(Some(back)) ==> back.storage() == node.storage()),
{
    if let Ok(Some(next)) = node.spec_next_sibling() {
        node.lemma_parts();
        if let Ok(Some(back)) = next.spec_prev_sibling() {
            next.lemma_parts();
        }
    }
    if let Ok(Some(prev)) = node.spec_prev_sibling() {
        node.lemma_parts();
        if let Ok(Some(back)) = prev.spec_next_sibling() {
            prev.lemma_parts();
        }
    }
}

/// The named siblings of a node, and its named children, are named nodes in
/// the tree that the node refers to.
pub proof fn law_named_answers_are_named(node: NodeHandle, index: usize)
    ensures
        node.spec_next_named_sibling() matches Ok(Some(found)) ==> engine_is_named(found.native())
            && found.storage() == node.storage(),
        node.spec_prev_named_sibling() matches Ok(Some(found)) ==> engine_is_named(found.native())
            && found.storage() == node.storage(),
        node.spec_named_child(index) matches Ok(Some(found)) ==> engine_is_named(found.native())
            && found.storage() == node.storage(),
{
    if let Ok(Some(found)) = node.spec_next_named_sibling() {
        node.lemma_parts();
    }
    if let Ok(Some(found)) = node.spec_prev_named_sibling() {
        node.lemma_parts();
    }
    if let Ok(Some(found)) = node.spec_named_child(index) {
        node.lemma_parts();
    }
}

} // verus!
