//! The parsing engine, as far as the bridge relies on it.
//!
//! Nothing in this file is proved. Each function below makes one call into
//! tree-sitter, and its contract gives the answer a name: the same node asked
//! the same question gives the same answer. Beyond that the contracts claim
//! two things of the engine: that a node reached from another node lies in
//! the same tree, and that an edit moves a position by the rule that
//! `EditDescription::moved_byte` and `moved_point` state and leaves the rest
//! of a node alone. Whatever else the bridge promises it checks for itself.
use vstd::prelude::*;
use tree_sitter::{Node, Tree};
use crate::position::{Point, ENGINE_MAX};
use crate::edit::EditDescription;

verus! {

/// A parsed syntax tree. The bridge never looks inside one.
#[verifier::external_type_specification]
#[verifier::external_body]
pub struct ExTree(tree_sitter::Tree);

/// A node of a syntax tree: the engine's own small value that says where in
/// the tree's storage the node lies.
#[verifier::external_type_specification]
#[verifier::external_body]
pub struct ExNode<'tree>(tree_sitter::Node<'tree>);

/// The tree whose storage a node points into.
pub uninterp spec fn engine_owner(node: Node) -> Tree;

/// The answer of `Tree::root_node`.
pub uninterp spec fn engine_root(tree: &Tree) -> Node;

/// The answer of `Node::kind_id`.
pub uninterp spec fn engine_kind_id(node: Node) -> u16;

/// The answer of `Node::kind`.
pub uninterp spec fn engine_kind(node: Node) -> Seq<char>;

/// The answer of `Node::is_named`.
pub uninterp spec fn engine_is_named(node: Node) -> bool;

/// The answer of `Node::is_extra`.
pub uninterp spec fn engine_is_extra(node: Node) -> bool;

/// The answer of `Node::is_error`.
pub uninterp spec fn engine_is_error(node: Node) -> bool;

/// The answer of `Node::is_missing`.
pub uninterp spec fn engine_is_missing(node: Node) -> bool;

/// The answer of `Node::has_changes`.
pub uninterp spec fn engine_has_changes(node: Node) -> bool;

/// The answer of `Node::has_error`.
pub uninterp spec fn engine_has_error(node: Node) -> bool;

/// The answer of `Node::start_byte`.
pub uninterp spec fn engine_start_byte(node: Node) -> usize;

/// The answer of `Node::end_byte`.
pub uninterp spec fn engine_end_byte(node: Node) -> usize;

/// The answer of `Node::start_position`.
pub uninterp spec fn engine_start_position(node: Node) -> Point;

/// The answer of `Node::end_position`.
pub uninterp spec fn engine_end_position(node: Node) -> Point;

/// The answer of `Node::child_count`.
pub uninterp spec fn engine_child_count(node: Node) -> u32;

/// The answer of `Node::named_child_count`.
pub uninterp spec fn engine_named_child_count(node: Node) -> usize;

/// The answer of `Node::child`.
pub uninterp spec fn engine_child(node: Node, index: u32) -> Option<Node>;

/// The answer of `Node::named_child`.
pub uninterp spec fn engine_named_child(node: Node, index: u32) -> Option<Node>;

/// The answer of `Node::child_by_field_name`.
pub uninterp spec fn engine_child_by_field_name(node: Node, field_name: Seq<char>) -> Option<Node>;

/// The answer of `Node::child_by_field_id`.
pub uninterp spec fn engine_child_by_field_id(node: Node, field_id: u16) -> Option<Node>;

/// The answer of `Node::parent`.
pub uninterp spec fn engine_parent(node: Node) -> Option<Node>;

/// The answer of `Node::next_sibling`.
pub uninterp spec fn engine_next_sibling(node: Node) -> Option<Node>;

/// The answer of `Node::prev_sibling`.
pub uninterp spec fn engine_prev_sibling(node: Node) -> Option<Node>;

/// The answer of `Node::next_named_sibling`.
pub uninterp spec fn engine_next_named_sibling(node: Node) -> Option<Node>;

/// The answer of `Node::prev_named_sibling`.
pub uninterp spec fn engine_prev_named_sibling(node: Node) -> Option<Node>;

/// The answer of `Node::descendant_for_byte_range`.
pub uninterp spec fn engine_descendant_for_byte_range(node: Node, start: usize, end: usize) -> Option<Node>;

/// The answer of `Node::named_descendant_for_byte_range`.
pub uninterp spec fn engine_named_descendant_for_byte_range(node: Node, start: usize, end: usize) -> Option<Node>;

/// The answer of `Node::descendant_for_point_range`.
pub uninterp spec fn engine_descendant_for_point_range(node: Node, start: Point, end: Point) -> Option<Node>;

/// The answer of `Node::named_descendant_for_point_range`.
pub uninterp spec fn engine_named_descendant_for_point_range(node: Node, start: Point, end: Point) -> Option<Node>;

/// The answer of `Node::to_sexp`.
pub uninterp spec fn engine_sexp(node: Node) -> Seq<char>;

/// The node that `Node::edit` leaves behind.
pub uninterp spec fn engine_edited_node(node: Node, edit: EditDescription) -> Node;

/// The tree that `Tree::edit` leaves behind.
pub uninterp spec fn engine_edited_tree(tree: Tree, edit: EditDescription) -> Tree;

/// A node found from `from`, if any, lies in the tree that `from` lies in.
pub open spec fn stays_in_tree(found: Option<Node>, from: Node) -> bool {
    found matches Some(node) ==> engine_owner(node) == engine_owner(from)
}

/// Two nodes of which the engine says the same, where they start aside: the
/// same tree, kind, flags, numbers of children and S-expression.
pub open spec fn same_but_for_start(before: Node, after: Node) -> bool {
    &&& engine_owner(after) == engine_owner(before)
    &&& engine_kind_id(after) == engine_kind_id(before)
    &&& engine_kind(after) == engine_kind(before)
    &&& engine_is_named(after) == engine_is_named(before)
    &&& engine_is_extra(after) == engine_is_extra(before)
    &&& engine_is_error(after) == engine_is_error(before)
    &&& engine_is_missing(after) == engine_is_missing(before)
    &&& engine_has_changes(after) == engine_has_changes(before)
    &&& engine_has_error(after) == engine_has_error(before)
    &&& engine_child_count(after) == engine_child_count(before)
    &&& engine_named_child_count(after) == engine_named_child_count(before)
    &&& engine_sexp(after) == engine_sexp(before)
}

/// `Tree::root_node`. Claimed: the answer is `engine_root` of the tree, and it
/// lies in that tree.
///
/// The binding unwraps what the engine answers; for a tree the engine answers
/// with the address of the tree's own root, which is never null.
#[verifier::external_body]
pub(crate) fn root_node<'t>(tree: &'t Tree) -> (root: Node<'t>)
    ensures
        root == engine_root(tree),
        engine_owner(root) == *tree,
{
    tree.root_node()
}

/// `Node::kind_id`. Claimed: the answer is `engine_kind_id` of the node.
#[verifier::external_body]
pub(crate) fn read_kind_id(node: &Node) -> (id: u16)
    ensures
        id == engine_kind_id(*node),
{
    node.kind_id()
}

/// `Node::kind`. Claimed: the answer is `engine_kind` of the node.
///
/// The call stops the program where the grammar spells the kind in bytes
/// that are no UTF-8 text. The tables that the grammar generator writes hold
/// none such.
#[verifier::external_body]
pub(crate) fn read_kind<'t>(node: &Node<'t>) -> (kind: &'t str)
    ensures
        kind@ == engine_kind(*node),
{
    node.kind()
}

/// `Node::is_named`. Claimed: the answer is `engine_is_named` of the node.
#[verifier::external_body]
pub(crate) fn read_is_named(node: &Node) -> (b: bool)
    ensures
        b == engine_is_named(*node),
{
    node.is_named()
}

/// `Node::is_extra`. Claimed: the answer is `engine_is_extra` of the node.
#[verifier::external_body]
pub(crate) fn read_is_extra(node: &Node) -> (b: bool)
    ensures
        b == engine_is_extra(*node),
{
    node.is_extra()
}

/// `Node::is_error`. Claimed: the answer is `engine_is_error` of the node.
#[verifier::external_body]
pub(crate) fn read_is_error(node: &Node) -> (b: bool)
    ensures
        b == engine_is_error(*node),
{
    node.is_error()
}

/// `Node::is_missing`. Claimed: the answer is `engine_is_missing` of the node.
#[verifier::external_body]
pub(crate) fn read_is_missing(node: &Node) -> (b: bool)
    ensures
        b == engine_is_missing(*node),
{
    node.is_missing()
}

/// `Node::has_changes`. Claimed: the answer is `engine_has_changes` of the
/// node.
#[verifier::external_body]
pub(crate) fn read_has_changes(node: &Node) -> (b: bool)
    ensures
        b == engine_has_changes(*node),
{
    node.has_changes()
}

/// `Node::has_error`. Claimed: the answer is `engine_has_error` of the node.
#[verifier::external_body]
pub(crate) fn read_has_error(node: &Node) -> (b: bool)
    ensures
        b == engine_has_error(*node),
{
    node.has_error()
}

/// `Node::start_byte`. Claimed: the answer is `engine_start_byte` of the node.
#[verifier::external_body]
pub(crate) fn read_start_byte(node: &Node) -> (byte: usize)
    ensures
        byte == engine_start_byte(*node),
{
    node.start_byte()
}

/// `Node::end_byte`. Claimed: the answer is `engine_end_byte` of the node.
#[verifier::external_body]
pub(crate) fn read_end_byte(node: &Node) -> (byte: usize)
    ensures
        byte == engine_end_byte(*node),
{
    node.end_byte()
}

/// `Node::start_position`. Claimed: the answer is `engine_start_position` of
/// the node, row for row and column for column.
#[verifier::external_body]
pub(crate) fn read_start_position(node: &Node) -> (point: Point)
    ensures
        point == engine_start_position(*node),
{
    let at = node.start_position();
    Point { row: at.row, column: at.column }
}

/// `Node::end_position`. Claimed: the answer is `engine_end_position` of the
/// node, row for row and column for column.
#[verifier::external_body]
pub(crate) fn read_end_position(node: &Node) -> (point: Point)
    ensures
        point == engine_end_position(*node),
{
    let at = node.end_position();
    Point { row: at.row, column: at.column }
}

/// `Node::child_count`. Claimed: the answer is `engine_child_count` of the
/// node.
#[verifier::external_body]
pub(crate) fn read_child_count(node: &Node) -> (count: u32)
    ensures
        count == engine_child_count(*node),
{
    node.child_count()
}

/// `Node::named_child_count`. Claimed: the answer is `engine_named_child_count`
/// of the node.
#[verifier::external_body]
pub(crate) fn read_named_child_count(node: &Node) -> (count: usize)
    ensures
        count == engine_named_child_count(*node),
{
    node.named_child_count()
}

/// `Node::child`. Claimed: the answer is `engine_child` of the node and the
/// index, and a child lies in the tree of its parent.
#[verifier::external_body]
pub(crate) fn find_child<'t>(node: &Node<'t>, index: u32) -> (found: Option<Node<'t>>)
    ensures
        found == engine_child(*node, index),
        stays_in_tree(found, *node),
{
    node.child(index)
}

/// `Node::named_child`. Claimed: the answer is `engine_named_child` of the node
/// and the index, and a child lies in the tree of its parent.
#[verifier::external_body]
pub(crate) fn find_named_child<'t>(node: &Node<'t>, index: u32) -> (found: Option<Node<'t>>)
    ensures
        found == engine_named_child(*node, index),
        stays_in_tree(found, *node),
{
    node.named_child(index)
}

/// `Node::child_by_field_name`. Claimed: the answer is
/// `engine_child_by_field_name` of the node and the text of the name, and a
/// child lies in the tree of its parent.
#[verifier::external_body]
pub(crate) fn find_child_by_field_name<'t>(
    node: &Node<'t>,
    field_name: &str,
) -> (found: Option<Node<'t>>)
    ensures
        found == engine_child_by_field_name(*node, field_name@),
        stays_in_tree(found, *node),
{
    node.child_by_field_name(field_name)
}

/// `Node::child_by_field_id`. Claimed: the answer is `engine_child_by_field_id`
/// of the node and the number, and a child lies in the tree of its parent.
#[verifier::external_body]
pub(crate) fn find_child_by_field_id<'t>(
    node: &Node<'t>,
    field_id: u16,
) -> (found: Option<Node<'t>>)
    ensures
        found == engine_child_by_field_id(*node, field_id),
        stays_in_tree(found, *node),
{
    node.child_by_field_id(field_id)
}

/// `Node::parent`. Claimed: the answer is `engine_parent` of the node, and a
/// parent lies in the tree of its child.
#[verifier::external_body]
pub(crate) fn find_parent<'t>(node: &Node<'t>) -> (found: Option<Node<'t>>)
    ensures
        found == engine_parent(*node),
        stays_in_tree(found, *node),
{
    node.parent()
}

/// `Node::next_sibling`. Claimed: the answer is `engine_next_sibling` of the
/// node, and siblings lie in one tree.
#[verifier::external_body]
pub(crate) fn find_next_sibling<'t>(node: &Node<'t>) -> (found: Option<Node<'t>>)
    ensures
        found == engine_next_sibling(*node),
        stays_in_tree(found, *node),
{
    node.next_sibling()
}

/// `Node::prev_sibling`. Claimed: the answer is `engine_prev_sibling` of the
/// node, and siblings lie in one tree.
#[verifier::external_body]
pub(crate) fn find_prev_sibling<'t>(node: &Node<'t>) -> (found: Option<Node<'t>>)
    ensures
        found == engine_prev_sibling(*node),
        stays_in_tree(found, *node),
{
    node.prev_sibling()
}

/// `Node::next_named_sibling`. Claimed: the answer is
/// `engine_next_named_sibling` of the node, and siblings lie in one tree.
#[verifier::external_body]
pub(crate) fn find_next_named_sibling<'t>(node: &Node<'t>) -> (found: Option<Node<'t>>)
    ensures
        found == engine_next_named_sibling(*node),
        stays_in_tree(found, *node),
{
    node.next_named_sibling()
}

/// `Node::prev_named_sibling`. Claimed: the answer is
/// `engine_prev_named_sibling` of the node, and siblings lie in one tree.
#[verifier::external_body]
pub(crate) fn find_prev_named_sibling<'t>(node: &Node<'t>) -> (found: Option<Node<'t>>)
    ensures
        found == engine_prev_named_sibling(*node),
        stays_in_tree(found, *node),
{
    node.prev_named_sibling()
}

/// `Node::descendant_for_byte_range`, for offsets that the engine can hold.
/// Claimed: the answer is `engine_descendant_for_byte_range` of the node and
/// the two ends, and a descendant lies in the tree of its ancestor.
#[verifier::external_body]
pub(crate) fn find_descendant_for_byte_range<'t>(
    node: &Node<'t>,
    start: usize,
    end: usize,
) -> (found: Option<Node<'t>>)
    requires
        start <= ENGINE_MAX,
        end <= ENGINE_MAX,
    ensures
        found == engine_descendant_for_byte_range(*node, start, end),
        stays_in_tree(found, *node),
{
    node.descendant_for_byte_range(start, end)
}

/// `Node::named_descendant_for_byte_range`, for offsets that the engine can
/// hold. Claimed: the answer is `engine_named_descendant_for_byte_range` of the
/// node and the two ends, and a descendant lies in the tree of its ancestor.
#[verifier::external_body]
pub(crate) fn find_named_descendant_for_byte_range<'t>(
    node: &Node<'t>,
    start: usize,
    end: usize,
) -> (found: Option<Node<'t>>)
    requires
        start <= ENGINE_MAX,
        end <= ENGINE_MAX,
    ensures
        found == engine_named_descendant_for_byte_range(*node, start, end),
        stays_in_tree(found, *node),
{
    node.named_descendant_for_byte_range(start, end)
}

/// `Node::descendant_for_point_range`, for points that the engine can hold.
/// Claimed: the answer is `engine_descendant_for_point_range` of the node and
/// the two ends, and a descendant lies in the tree of its ancestor.
#[verifier::external_body]
pub(crate) fn find_descendant_for_point_range<'t>(
    node: &Node<'t>,
    start: Point,
    end: Point,
) -> (found: Option<Node<'t>>)
    requires
        start.fits_engine(),
        end.fits_engine(),
    ensures
        found == engine_descendant_for_point_range(*node, start, end),
        stays_in_tree(found, *node),
{
    node.descendant_for_point_range(
        tree_sitter::Point::new(start.row, start.column),
        tree_sitter::Point::new(end.row, end.column),
    )
}

/// `Node::named_descendant_for_point_range`, for points that the engine can
/// hold. Claimed: the answer is `engine_named_descendant_for_point_range` of
/// the node and the two ends, and a descendant lies in the tree of its
/// ancestor.
#[verifier::external_body]
pub(crate) fn find_named_descendant_for_point_range<'t>(
    node: &Node<'t>,
    start: Point,
    end: Point,
) -> (found: Option<Node<'t>>)
    requires
        start.fits_engine(),
        end.fits_engine(),
    ensures
        found == engine_named_descendant_for_point_range(*node, start, end),
        stays_in_tree(found, *node),
{
    node.named_descendant_for_point_range(
        tree_sitter::Point::new(start.row, start.column),
        tree_sitter::Point::new(end.row, end.column),
    )
}

/// `Node::to_sexp`. Claimed: the answer is `engine_sexp` of the node.
///
/// The call stops the program where the grammar spells a kind or a field in
/// bytes that are no UTF-8 text. The tables that the grammar generator writes
/// hold none such.
#[verifier::external_body]
pub(crate) fn read_sexp(node: &Node) -> (sexp: String)
    ensures
        sexp@ == engine_sexp(*node),
{
    node.to_sexp()
}

/// `Node::edit`, for an edit that the engine can hold. Claimed: the node left
/// behind is `engine_edited_node` of the node and the edit; it starts where
/// `moved_byte` and `moved_point` say that the edit leaves the old start; and
/// in all that `same_but_for_start` lists it is as the node was. The engine
/// writes the start byte, row and column of the node and nothing else.
#[verifier::external_body]
pub(crate) fn apply_node_edit(node: &mut Node, edit: &EditDescription)
    requires
        edit.fits_engine(),
    ensures
        *final(node) == engine_edited_node(*old(node), *edit),
        engine_start_byte(*final(node)) == edit.moved_byte(engine_start_byte(*old(node))),
        engine_start_position(*final(node)) == edit.moved_point(
            engine_start_byte(*old(node)),
            engine_start_position(*old(node)),
        ),
        same_but_for_start(*old(node), *final(node)),
{
    node.edit(&tree_sitter::InputEdit {
        start_byte: edit.start_byte,
        old_end_byte: edit.old_end_byte,
        new_end_byte: edit.new_end_byte,
        start_position: tree_sitter::Point::new(edit.start_point.row, edit.start_point.column),
        old_end_position: tree_sitter::Point::new(edit.old_end_point.row, edit.old_end_point.column),
        new_end_position: tree_sitter::Point::new(edit.new_end_point.row, edit.new_end_point.column),
    })
}

/// `InputEdit::edit_point`, for an edit and a position that the engine can
/// hold. Claimed: the answer is the byte that `moved_byte` and the point that
/// `moved_point` state for the position.
#[verifier::external_body]
pub(crate) fn move_position(edit: &EditDescription, byte: usize, point: Point) -> (moved: (
    usize,
    Point,
))
    requires
        edit.fits_engine(),
        byte <= ENGINE_MAX,
        point.fits_engine(),
    ensures
        moved.0 == edit.moved_byte(byte),
        moved.1 == edit.moved_point(byte, point),
{
    let mut at = tree_sitter::Point::new(point.row, point.column);
    let mut to = byte;
    tree_sitter::InputEdit {
        start_byte: edit.start_byte,
        old_end_byte: edit.old_end_byte,
        new_end_byte: edit.new_end_byte,
        start_position: tree_sitter::Point::new(edit.start_point.row, edit.start_point.column),
        old_end_position: tree_sitter::Point::new(edit.old_end_point.row, edit.old_end_point.column),
        new_end_position: tree_sitter::Point::new(edit.new_end_point.row, edit.new_end_point.column),
    }.edit_point(&mut at, &mut to);
    (to, Point { row: at.row, column: at.column })
}

/// `Tree::edit`, for an edit that the engine can hold. Claimed: the tree left
/// behind is `engine_edited_tree` of the tree and the edit.
#[verifier::external_body]
pub(crate) fn apply_tree_edit(tree: &mut Tree, edit: &EditDescription)
    requires
        edit.fits_engine(),
    ensures
        *final(tree) == engine_edited_tree(*old(tree), *edit),
{
    tree.edit(&tree_sitter::InputEdit {
        start_byte: edit.start_byte,
        old_end_byte: edit.old_end_byte,
        new_end_byte: edit.new_end_byte,
        start_position: tree_sitter::Point::new(edit.start_point.row, edit.start_point.column),
        old_end_position: tree_sitter::Point::new(edit.old_end_point.row, edit.old_end_point.column),
        new_end_position: tree_sitter::Point::new(edit.new_end_point.row, edit.new_end_point.column),
    })
}

} // verus!
