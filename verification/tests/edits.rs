use tree_bridge::{edit_node, edit_tree, BridgeError, NodeHandle, Point, Range};

fn parse_text(src: &str) -> tree_sitter::Tree {
    let mut parser = tree_sitter::Parser::new();
    let language = tree_sitter::Language::new(tree_sitter_javascript::LANGUAGE);
    parser.set_language(&language).unwrap();
    parser.parse(src, None).unwrap()
}

fn operands<'t>(tree: &'t tree_sitter::Tree) -> [NodeHandle<'t>; 3] {
    let root = NodeHandle::root(tree).unwrap();
    let expr = root.child(0).unwrap().unwrap().child(0).unwrap().unwrap();
    [
        expr.child(0).unwrap().unwrap(),
        expr.child(1).unwrap().unwrap(),
        expr.child(2).unwrap().unwrap(),
    ]
}

fn span(start: usize, end: usize) -> Range {
    Range {
        start_byte: start,
        end_byte: end,
        start_point: Point::new(0, start),
        end_point: Point::new(0, end),
    }
}

fn whole<'t>(tree: &'t tree_sitter::Tree) -> NodeHandle<'t> {
    let root = NodeHandle::root(tree).unwrap();
    root.child(0).unwrap().unwrap().child(0).unwrap().unwrap()
}

#[test]
fn edit_moves_the_end_of_a_kept_node_from_three_to_four() {
    // One byte is put in at offset 1: "a+b" becomes "ax+b". Nothing is parsed.
    let tree = parse_text("a+b");
    let mut node = whole(&tree);
    assert_eq!(node.kind(), "binary_expression");
    assert_eq!(node.range(), span(0, 3));
    let at = Point::new(0, 1);
    assert_eq!(edit_node(&mut node, 1, 1, 2, at, at, Point::new(0, 2)), Ok(()));
    assert_eq!(node.start_byte(), 0);
    assert_eq!(node.end_byte(), 4);
    assert_eq!(node.range(), span(0, 4));
    let mut root = NodeHandle::root(&tree).unwrap();
    assert_eq!(edit_node(&mut root, 1, 1, 2, at, at, Point::new(0, 2)), Ok(()));
    assert_eq!(root.range(), span(0, 4));
}

#[test]
fn edit_shifts_a_kept_node_behind_the_edit() {
    let tree = parse_text("a+b");
    let [mut a, mut plus, mut b] = operands(&tree);
    let at = Point::new(0, 1);
    let to = Point::new(0, 2);
    assert_eq!(b.range(), span(2, 3));
    assert_eq!(edit_node(&mut b, 1, 1, 2, at, at, to), Ok(()));
    assert_eq!(b.range(), span(3, 4));
    assert_eq!(edit_node(&mut plus, 1, 1, 2, at, at, to), Ok(()));
    assert_eq!(plus.range(), span(2, 3));
    // A node that ends where the text comes in grows by it.
    assert_eq!(edit_node(&mut a, 1, 1, 2, at, at, to), Ok(()));
    assert_eq!(a.range(), span(0, 2));
    // The edit changed the handles and nothing else.
    let [a2, plus2, b2] = operands(&tree);
    assert_eq!(a2.range(), span(0, 1));
    assert_eq!(plus2.range(), span(1, 2));
    assert_eq!(b2.range(), span(2, 3));
    assert!(std::ptr::eq(b.tree(), &tree));
}

#[test]
fn edit_of_kept_nodes_agrees_with_an_edit_of_the_tree() {
    let mut tree = parse_text("a+b");
    let at = Point::new(0, 1);
    let to = Point::new(0, 2);
    let kept: Vec<Range> = {
        let mut nodes = operands(&tree).to_vec();
        nodes.push(whole(&tree));
        nodes.push(NodeHandle::root(&tree).unwrap());
        for node in nodes.iter_mut() {
            assert_eq!(edit_node(node, 1, 1, 2, at, at, to), Ok(()));
        }
        nodes.iter().map(|node| node.range()).collect()
    };
    assert_eq!(edit_tree(&mut tree, 1, 1, 2, at, at, to), Ok(()));
    let root = NodeHandle::root(&tree).unwrap();
    assert!(root.has_changes());
    let [a, plus, b] = operands(&tree);
    assert!(a.has_changes());
    assert!(!b.has_changes());
    let fresh = vec![a.range(), plus.range(), b.range(), whole(&tree).range(), root.range()];
    assert_eq!(kept, fresh);
    assert_eq!(fresh, vec![span(0, 2), span(2, 3), span(3, 4), span(0, 4), span(0, 4)]);
}

#[test]
fn edit_leaves_a_node_before_it_alone() {
    let tree = parse_text("a+b");
    let [mut a, _, _] = operands(&tree);
    let at = Point::new(0, 2);
    assert_eq!(edit_node(&mut a, 2, 3, 7, at, Point::new(0, 3), Point::new(0, 7)), Ok(()));
    assert_eq!(a.range(), span(0, 1));
}

#[test]
fn an_empty_edit_changes_nothing() {
    let tree = parse_text("a+b");
    for at in 0..=4 {
        let point = Point::new(0, at);
        let mut nodes = operands(&tree).to_vec();
        nodes.push(whole(&tree));
        for node in nodes.iter_mut() {
            let before = node.range();
            assert_eq!(edit_node(node, at, at, at, point, point, point), Ok(()));
            assert_eq!(node.range(), before);
        }
    }
}

#[test]
fn insert_then_delete_brings_a_node_back() {
    let tree = parse_text("a+b");
    let at = Point::new(0, 1);
    let to = Point::new(0, 6);
    let mut nodes = operands(&tree).to_vec();
    nodes.push(whole(&tree));
    for node in nodes.iter_mut() {
        let before = node.range();
        assert_eq!(edit_node(node, 1, 1, 6, at, at, to), Ok(()));
        assert_eq!(edit_node(node, 1, 6, 1, at, to, at), Ok(()));
        assert_eq!(node.range(), before);
    }
    let [_, _, mut b] = operands(&tree);
    assert_eq!(edit_node(&mut b, 1, 1, 6, at, at, to), Ok(()));
    assert_eq!(b.range(), span(7, 8));
}

#[test]
fn edit_keeps_what_the_node_is() {
    let tree = parse_text("// c\n{ a");
    let root = NodeHandle::root(&tree).unwrap();
    let block = root.child(1).unwrap().unwrap();
    let mut nodes = vec![root, root.child(0).unwrap().unwrap(), block];
    for i in 0..block.child_count() {
        nodes.push(block.child(i).unwrap().unwrap());
    }
    let at = Point::new(0, 1);
    for node in nodes.iter_mut() {
        let before = (
            node.kind_id(),
            node.kind(),
            node.is_named(),
            node.is_extra(),
            node.is_error(),
            node.is_missing(),
            node.has_changes(),
            node.has_error(),
            node.child_count(),
            node.named_child_count(),
            node.to_sexp(),
        );
        assert_eq!(edit_node(node, 1, 1, 3, at, at, Point::new(0, 3)), Ok(()));
        let after = (
            node.kind_id(),
            node.kind(),
            node.is_named(),
            node.is_extra(),
            node.is_error(),
            node.is_missing(),
            node.has_changes(),
            node.has_error(),
            node.child_count(),
            node.named_child_count(),
            node.to_sexp(),
        );
        assert_eq!(before, after);
        assert!(std::ptr::eq(node.tree(), &tree));
    }
}

#[test]
fn edit_lands_a_node_inside_the_replaced_text_on_the_new_end() {
    let tree = parse_text("a+b");
    let [_, mut plus, mut b] = operands(&tree);
    let (from, old, new) = (Point::new(0, 1), Point::new(0, 3), Point::new(0, 5));
    // The node starts inside what was replaced and ends at its end.
    assert_eq!(edit_node(&mut b, 1, 3, 5, from, old, new), Ok(()));
    assert_eq!(b.range(), span(5, 5));
    // The node starts at the start of what was replaced and ends inside it.
    assert_eq!(edit_node(&mut plus, 1, 3, 5, from, old, new), Ok(()));
    assert_eq!(plus.range(), span(1, 5));
}

#[test]
fn edit_moves_points_by_rows() {
    let tree = parse_text("a+b");
    let [_, _, mut b] = operands(&tree);
    assert_eq!(
        edit_node(&mut b, 0, 1, 1, Point::new(0, 0), Point::new(0, 1), Point::new(3, 0)),
        Ok(())
    );
    assert_eq!(
        b.range(),
        Range {
            start_byte: 2,
            end_byte: 3,
            start_point: Point::new(3, 1),
            end_point: Point::new(3, 2),
        }
    );
}

#[test]
fn edit_does_not_ask_whether_bytes_and_points_agree() {
    let tree = parse_text("a+b");
    let [_, _, mut b] = operands(&tree);
    // Bytes say one byte came in, points say five columns did.
    assert_eq!(
        edit_node(&mut b, 1, 1, 2, Point::new(0, 1), Point::new(0, 1), Point::new(0, 6)),
        Ok(())
    );
    assert_eq!(b.start_byte(), 3);
    assert_eq!(b.start_position(), Point::new(0, 7));
    assert_eq!(b.end_byte(), 4);
    assert_eq!(b.end_position(), Point::new(0, 8));
}

#[test]
fn edit_with_an_end_before_the_start_is_taken() {
    let tree = parse_text("a+b");
    let [_, _, mut b] = operands(&tree);
    let p = Point::new(0, 0);
    // Old end before start: the node lies behind the old end and moves by it.
    assert_eq!(edit_node(&mut b, 2, 1, 2, p, p, p), Ok(()));
    assert_eq!((b.start_byte(), b.end_byte()), (3, 4));
    // New end before start.
    let [_, _, mut b] = operands(&tree);
    assert_eq!(
        edit_node(&mut b, 1, 1, 0, Point::new(0, 1), Point::new(0, 1), Point::new(0, 0)),
        Ok(())
    );
    assert_eq!(b.range(), span(1, 2));
    // Where such an edit would leave the end before the start, the node
    // ends at its start.
    let [_, _, mut b] = operands(&tree);
    assert_eq!(edit_node(&mut b, 5, 3, 0, Point::new(0, 5), Point::new(0, 3), p), Ok(()));
    assert_eq!((b.start_byte(), b.end_byte()), (2, 2));
    assert_eq!((b.start_position(), b.end_position()), (Point::new(0, 2), Point::new(0, 2)));
}

#[test]
fn edit_beyond_the_engine_is_refused() {
    let tree = parse_text("a+b");
    let [_, _, mut b] = operands(&tree);
    let at = Point::new(0, 1);
    if usize::BITS > 32 {
        let beyond = (0xffff_ffff_u64 + 1) as usize;
        assert_eq!(
            edit_node(&mut b, 1, 1, beyond, at, at, at),
            Err(BridgeError::OutOfEngineRange)
        );
        assert_eq!(b.range(), span(2, 3));
        assert_eq!(
            edit_node(&mut b, 1, 1, 2, at, at, Point::new(0, beyond)),
            Err(BridgeError::OutOfEngineRange)
        );
        assert_eq!(b.range(), span(2, 3));
    }
    // The largest positions that fit are taken.
    let last = Point::new(0xffff_ffff, 0xffff_ffff);
    assert_eq!(edit_node(&mut b, 5, 0xffff_ffff, 0xffff_ffff, last, last, last), Ok(()));
    assert_eq!(b.range(), span(2, 3));
    assert_eq!(edit_node(&mut b, 0, 0xffff_ffff, 0xffff_ffff, at, at, last), Ok(()));
    assert_eq!(
        b.range(),
        Range { start_byte: 0xffff_ffff, end_byte: 0xffff_ffff, start_point: last, end_point: last }
    );
}

#[test]
fn edit_loses_what_goes_beyond_32_bits() {
    let tree = parse_text("a+b");
    let [_, _, mut b] = operands(&tree);
    let at = Point::new(0, 1);
    // The start lands on the last offset. The end, one byte on, would come
    // round to zero, and stays at the start.
    assert_eq!(edit_node(&mut b, 1, 1, 0xffff_fffe, at, at, at), Ok(()));
    assert_eq!((b.start_byte(), b.end_byte()), (0xffff_ffff, 0xffff_ffff));
    assert_eq!(b.kind(), "identifier");
    // Both ends come round.
    let [_, _, mut b] = operands(&tree);
    assert_eq!(edit_node(&mut b, 1, 1, 0xffff_ffff, at, at, at), Ok(()));
    assert_eq!((b.start_byte(), b.end_byte()), (0, 1));
}

#[test]
fn every_edit_leaves_start_at_or_before_end() {
    let tree = parse_text("a+b");
    let values = [0, 1, 2, 3, 4, 0xffff_fffe, 0xffff_ffff];
    for start in values {
        for old_end in values {
            for new_end in values {
                let mut nodes = operands(&tree).to_vec();
                nodes.push(whole(&tree));
                for node in nodes.iter_mut() {
                    let r = edit_node(
                        node,
                        start,
                        old_end,
                        new_end,
                        Point::new(0, new_end),
                        Point::new(old_end, 1),
                        Point::new(start, 0),
                    );
                    assert_eq!(r, Ok(()));
                    assert!(node.start_byte() <= node.end_byte());
                    assert!(node.start_position().at_or_before(&node.end_position()));
                }
            }
        }
    }
}

#[test]
fn tree_edit_is_refused_beyond_the_engine_only() {
    let mut tree = parse_text("a+b");
    let p = Point::new(0, 0);
    if usize::BITS > 32 {
        let beyond = (0xffff_ffff_u64 + 1) as usize;
        assert_eq!(
            edit_tree(&mut tree, 0, beyond, 0, p, p, p),
            Err(BridgeError::OutOfEngineRange)
        );
        let root = NodeHandle::root(&tree).unwrap();
        assert_eq!(root.range(), span(0, 3));
        assert!(!root.has_changes());
    }
    assert_eq!(edit_tree(&mut tree, 1, 1, 2, Point::new(0, 1), Point::new(0, 1), Point::new(0, 2)), Ok(()));
    let root = NodeHandle::root(&tree).unwrap();
    assert_eq!(root.range(), span(0, 4));
    assert!(root.has_changes());
}
