use tree_bridge::{NodeHandle, Point, Range};

fn parse_js(src: &str) -> tree_sitter::Tree {
    let mut parser = tree_sitter::Parser::new();
    let language = tree_sitter::Language::new(tree_sitter_javascript::LANGUAGE);
    parser.set_language(&language).unwrap();
    parser.parse(src, None).unwrap()
}

fn expression<'t>(tree: &'t tree_sitter::Tree) -> NodeHandle<'t> {
    let root = NodeHandle::root(tree).unwrap();
    let statement = root.child(0).unwrap().unwrap();
    statement.child(0).unwrap().unwrap()
}

#[test]
fn a_plus_b_has_two_named_children_of_three() {
    let tree = parse_js("a+b");
    let root = NodeHandle::root(&tree).unwrap();
    assert_eq!(
        root.to_sexp(),
        "(program (expression_statement (binary_expression left: (identifier) right: (identifier))))"
    );
    let expr = expression(&tree);
    assert_eq!(expr.kind(), "binary_expression");
    assert_eq!(expr.child_count(), 3);
    assert_eq!(expr.named_child_count(), 2);
    let a = expr.child(0).unwrap().unwrap();
    let plus = expr.child(1).unwrap().unwrap();
    let b = expr.child(2).unwrap().unwrap();
    assert_eq!((a.kind(), a.is_named()), ("identifier", true));
    assert_eq!((plus.kind(), plus.is_named()), ("+", false));
    assert_eq!((b.kind(), b.is_named()), ("identifier", true));
    assert_eq!(expr.to_sexp(), "(binary_expression left: (identifier) right: (identifier))");
    assert_eq!(plus.to_sexp(), "(\"+\")");
}

#[test]
fn root_refers_to_its_tree() {
    let tree = parse_js("a+b");
    let root = NodeHandle::root(&tree).unwrap();
    assert!(std::ptr::eq(root.tree(), &tree));
    assert_eq!(*root.inner(), tree.root_node());
    assert_eq!(root.kind(), "program");
}

#[test]
fn kind_and_kind_id_follow_the_grammar() {
    let tree = parse_js("a+b");
    let language = tree_sitter::Language::new(tree_sitter_javascript::LANGUAGE);
    let expr = expression(&tree);
    assert_eq!(expr.kind_id(), language.id_for_node_kind("binary_expression", true));
    let a = expr.child(0).unwrap().unwrap();
    let plus = expr.child(1).unwrap().unwrap();
    assert_eq!(a.kind_id(), language.id_for_node_kind("identifier", true));
    assert_eq!(plus.kind_id(), language.id_for_node_kind("+", false));
    assert_ne!(a.kind_id(), plus.kind_id());
    assert_eq!(language.node_kind_for_id(plus.kind_id()), Some("+"));
}

#[test]
fn positions_of_a_plus_b() {
    let tree = parse_js("a+b");
    let expr = expression(&tree);
    assert_eq!(expr.start_byte(), 0);
    assert_eq!(expr.end_byte(), 3);
    assert_eq!(expr.start_position(), Point::new(0, 0));
    assert_eq!(expr.end_position(), Point::new(0, 3));
    let b = expr.child(2).unwrap().unwrap();
    assert_eq!(
        b.range(),
        Range {
            start_byte: 2,
            end_byte: 3,
            start_point: Point { row: 0, column: 2 },
            end_point: Point { row: 0, column: 3 },
        }
    );
}

#[test]
fn positions_count_rows_from_zero() {
    let tree = parse_js("// c\na+b");
    let root = NodeHandle::root(&tree).unwrap();
    assert_eq!(root.start_byte(), 0);
    assert_eq!(root.end_byte(), 8);
    assert_eq!(root.end_position(), Point::new(1, 3));
    let statement = root.child(1).unwrap().unwrap();
    assert_eq!(statement.start_byte(), 5);
    assert_eq!(statement.start_position(), Point::new(1, 0));
    assert_eq!(statement.end_position(), Point::new(1, 3));
}

#[test]
fn a_comment_is_extra() {
    let tree = parse_js("// c\na+b");
    let root = NodeHandle::root(&tree).unwrap();
    let comment = root.child(0).unwrap().unwrap();
    assert_eq!(comment.kind(), "comment");
    assert!(comment.is_extra());
    assert!(comment.is_named());
    let statement = root.child(1).unwrap().unwrap();
    assert!(!statement.is_extra());
}

#[test]
fn a_syntax_error_is_told() {
    let tree = parse_js("(a");
    let root = NodeHandle::root(&tree).unwrap();
    assert!(root.has_error());
    assert!(!root.is_error());
    let error = root.child(0).unwrap().unwrap();
    assert_eq!(error.kind(), "ERROR");
    assert!(error.is_error());
    assert!(error.has_error());
    let a = error.child(1).unwrap().unwrap();
    assert!(!a.is_error());
    assert!(!a.has_error());
    let good = parse_js("a+b");
    assert!(!NodeHandle::root(&good).unwrap().has_error());
}

#[test]
fn a_missing_node_is_told() {
    let tree = parse_js("{ a");
    let root = NodeHandle::root(&tree).unwrap();
    assert_eq!(
        root.to_sexp(),
        "(program (statement_block (expression_statement (identifier)) (MISSING \"}\")))"
    );
    let block = root.child(0).unwrap().unwrap();
    assert_eq!(block.child_count(), 3);
    let open = block.child(0).unwrap().unwrap();
    let close = block.child(2).unwrap().unwrap();
    assert!(!open.is_missing());
    assert!(close.is_missing());
    assert_eq!(close.kind(), "}");
    assert_eq!(close.start_byte(), close.end_byte());
    assert!(root.has_error());
}

#[test]
fn a_fresh_tree_has_no_changes() {
    let tree = parse_js("a+b");
    let root = NodeHandle::root(&tree).unwrap();
    assert!(!root.has_changes());
    assert!(!expression(&tree).has_changes());
}

#[test]
fn an_empty_text_has_an_empty_root() {
    let tree = parse_js("");
    let root = NodeHandle::root(&tree).unwrap();
    assert_eq!(root.to_sexp(), "(program)");
    assert_eq!(root.child_count(), 0);
    assert_eq!(root.named_child_count(), 0);
    assert_eq!(root.start_byte(), 0);
    assert_eq!(root.end_byte(), 0);
    assert!(root.child(0).unwrap().is_none());
    assert!(root.parent().unwrap().is_none());
}

fn every_node<'t>(root: NodeHandle<'t>) -> Vec<NodeHandle<'t>> {
    let mut all = Vec::new();
    let mut stack = vec![root];
    while let Some(node) = stack.pop() {
        for i in 0..node.child_count() {
            stack.push(node.child(i).unwrap().unwrap());
        }
        all.push(node);
    }
    all
}

#[test]
fn every_node_starts_at_or_before_its_end() {
    for src in ["a+b", "// c\na+b", "{ a", "(a", "", "f(x, y)\n\ng(`a\nb`)\n"] {
        let tree = parse_js(src);
        for node in every_node(NodeHandle::root(&tree).unwrap()) {
            assert!(node.start_byte() <= node.end_byte());
            assert!(node.start_position().at_or_before(&node.end_position()));
            let r = node.range();
            assert_eq!(
                Range::new(r.start_byte, r.end_byte, r.start_point, r.end_point),
                Some(r)
            );
        }
    }
}

#[test]
fn named_children_never_exceed_children() {
    for src in ["a+b", "// c\na+b", "{ a", "(a", "", "f(x, y)\n\ng(`a\nb`)\n"] {
        let tree = parse_js(src);
        let nodes = every_node(NodeHandle::root(&tree).unwrap());
        assert!(!nodes.is_empty());
        for node in nodes {
            assert!(node.named_child_count() <= node.child_count());
        }
    }
}
