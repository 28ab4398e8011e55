use air_graph::document::document_node_count;
use air_graph::expr::node_count;
use air_graph::{
    build_constraints_graph, build_dotviz_graph, render_node, traverse_constraints_tree,
    BinaryOpKind, Entry, Expr, FibonacciAir, RowSelector, UnaryOpKind, Variable,
};

fn constant(text: &str) -> Expr {
    Expr::Constant(text.to_string())
}

fn var(entry: Entry, index: usize) -> Expr {
    Expr::Variable(Variable { entry, index })
}

fn bin(op: BinaryOpKind, l: Expr, r: Expr) -> Expr {
    Expr::BinaryOp(op, Box::new(l), Box::new(r))
}

fn neg(x: Expr) -> Expr {
    Expr::UnaryOp(UnaryOpKind::Neg, Box::new(x))
}

fn first_row_zero() -> Expr {
    bin(
        BinaryOpKind::Mul,
        Expr::RowSelector(RowSelector::IsFirstRow),
        bin(BinaryOpKind::Sub, var(Entry::Main { offset: 0 }, 0), constant("0")),
    )
}

fn node_ids_in_order(doc: &str) -> Vec<usize> {
    doc.lines()
        .filter(|l| l.starts_with("node_") && l.contains(" [label="))
        .map(|l| l["node_".len()..l.find(' ').unwrap()].parse().unwrap())
        .collect()
}

fn edges(doc: &str) -> Vec<(usize, usize)> {
    doc.lines()
        .filter(|l| l.contains(" -> "))
        .map(|l| {
            let (a, b) = l.trim_end_matches(';').split_once(" -> ").unwrap();
            (a["node_".len()..].parse().unwrap(), b["node_".len()..].parse().unwrap())
        })
        .collect()
}

#[test]
fn first_row_constraint_document() {
    let doc = build_constraints_graph(&vec![first_row_zero()]);
    let expected = "digraph {\n\
subgraph cluster_c1 {\n\
node_0 [label=\"Constraint 1\"];\n\
node_1 [label=\"Mul\"];\n\
node_0 -> node_1;\n\
node_2 [label=\"IsFirstRow\",shape=\"box\",style=\"filled\",fillcolor=\"pink\"];\n\
node_1 -> node_2;\n\
node_3 [label=\"Sub\"];\n\
node_1 -> node_3;\n\
node_4 [label=\"Main(idx: 0 off: 0)\",shape=\"box\",style=\"filled\",fillcolor=\"lightgreen\"];\n\
node_3 -> node_4;\n\
node_5 [label=\"Const(0)\",shape=\"box\",style=\"filled\",fillcolor=\"lightblue\"];\n\
node_3 -> node_5;\n\
}\n\
}";
    assert_eq!(doc, expected);
}

#[test]
fn empty_constraint_set() {
    assert_eq!(build_constraints_graph(&vec![]), "digraph {\n}");
}

#[test]
fn two_constraints_share_one_id_space() {
    let c1 = bin(BinaryOpKind::Add, var(Entry::Main { offset: 1 }, 1), constant("7"));
    let c2 = neg(Expr::RowSelector(RowSelector::IsLastRow));
    let doc = build_constraints_graph(&vec![c1, c2]);
    assert!(doc.starts_with("digraph {\nsubgraph cluster_c1 {\n"));
    assert!(doc.ends_with("}\n}"));
    assert_eq!(doc.matches("digraph {").count(), 1);
    let second = doc.find("subgraph cluster_c2 {\n").unwrap();
    let (first_part, second_part) = doc.split_at(second);
    assert_eq!(node_ids_in_order(first_part), vec![0, 1, 2, 3]);
    assert_eq!(node_ids_in_order(second_part), vec![4, 5, 6]);
    assert!(first_part.ends_with("}\n"));
    assert!(second_part.contains("node_4 [label=\"Constraint 2\"];\n"));
    assert!(second_part.contains("node_5 [label=\"Neg\"];\nnode_4 -> node_5;\n"));
}

#[test]
fn node_lines_count_every_reference() {
    let shared = || bin(BinaryOpKind::Sub, var(Entry::Main { offset: 0 }, 0), constant("1"));
    let e = bin(BinaryOpKind::Mul, shared(), shared());
    let mut out = String::new();
    let mut counter: usize = 0;
    build_dotviz_graph(&e, None, &mut out, &mut counter);
    assert_eq!(counter, 7);
    assert_eq!(node_ids_in_order(&out).len(), 7);
    assert_eq!(node_count(&e), Some(7));
}

#[test]
fn ids_are_contiguous_across_document() {
    let cs = vec![first_row_zero(), neg(constant("5")), first_row_zero()];
    let doc = build_constraints_graph(&cs);
    let ids = node_ids_in_order(&doc);
    assert_eq!(ids, (0..ids.len()).collect::<Vec<_>>());
    assert_eq!(ids.len(), 6 + 3 + 6);
    assert_eq!(document_node_count(&cs), Some(15));
}

#[test]
fn one_incoming_edge_per_non_label_node() {
    let cs = vec![first_row_zero(), neg(constant("5"))];
    let doc = build_constraints_graph(&cs);
    let e = edges(&doc);
    let labels = [0usize, 6];
    for id in 0..9usize {
        let n = e.iter().filter(|(_, to)| *to == id).count();
        assert_eq!(n, if labels.contains(&id) { 0 } else { 1 }, "node {id}");
    }
    assert_eq!(e, vec![(0, 1), (1, 2), (1, 3), (3, 4), (3, 5), (6, 7), (7, 8)]);
}

#[test]
fn build_is_deterministic() {
    let cs = vec![first_row_zero(), neg(var(Entry::Public, 2))];
    assert_eq!(build_constraints_graph(&cs), build_constraints_graph(&cs));
}

#[test]
fn left_operand_lines_come_first() {
    let left = bin(BinaryOpKind::Add, constant("1"), constant("2"));
    let right = Expr::RowSelector(RowSelector::IsTransition);
    let mut out = String::new();
    let mut counter: usize = 10;
    let id = build_dotviz_graph(&bin(BinaryOpKind::Sub, left, right), Some(3), &mut out, &mut counter);
    assert_eq!(id, 10);
    assert_eq!(counter, 15);
    let expected = "node_10 [label=\"Sub\"];\n\
node_3 -> node_10;\n\
node_11 [label=\"Add\"];\n\
node_10 -> node_11;\n\
node_12 [label=\"Const(1)\",shape=\"box\",style=\"filled\",fillcolor=\"lightblue\"];\n\
node_11 -> node_12;\n\
node_13 [label=\"Const(2)\",shape=\"box\",style=\"filled\",fillcolor=\"lightblue\"];\n\
node_11 -> node_13;\n\
node_14 [label=\"IsTransition\",shape=\"box\",style=\"filled\",fillcolor=\"pink\"];\n\
node_10 -> node_14;\n";
    assert_eq!(out, expected);
}

#[test]
fn emit_without_parent_has_no_edge() {
    let mut out = String::from("x\n");
    let mut counter: usize = 0;
    build_dotviz_graph(&constant("42"), None, &mut out, &mut counter);
    assert_eq!(
        out,
        "x\nnode_0 [label=\"Const(42)\",shape=\"box\",style=\"filled\",fillcolor=\"lightblue\"];\n"
    );
    assert_eq!(counter, 1);
}

#[test]
fn render_every_variant() {
    let green = ",shape=\"box\",style=\"filled\",fillcolor=\"lightgreen\"";
    let cases: Vec<(Expr, &str, &str)> = vec![
        (constant("9"), "Const(9)", ",shape=\"box\",style=\"filled\",fillcolor=\"lightblue\""),
        (var(Entry::Preprocessed { offset: 1 }, 12), "Preprocessed(idx: 12 off: 1)", green),
        (var(Entry::Main { offset: 0 }, 3), "Main(idx: 3 off: 0)", green),
        (var(Entry::Permutation { offset: 1 }, 0), "Permutation(idx: 0 off: 1)", green),
        (var(Entry::Public, 4), "Public(idx: 4)", green),
        (var(Entry::Challenge, 7), "Entry(idx: 7)", green),
        (Expr::RowSelector(RowSelector::IsFirstRow), "IsFirstRow", ",shape=\"box\",style=\"filled\",fillcolor=\"pink\""),
        (Expr::RowSelector(RowSelector::IsLastRow), "IsLastRow", ",shape=\"box\",style=\"filled\",fillcolor=\"pink\""),
        (Expr::RowSelector(RowSelector::IsTransition), "IsTransition", ",shape=\"box\",style=\"filled\",fillcolor=\"pink\""),
        (bin(BinaryOpKind::Add, constant("0"), constant("0")), "Add", ""),
        (bin(BinaryOpKind::Sub, constant("0"), constant("0")), "Sub", ""),
        (bin(BinaryOpKind::Mul, constant("0"), constant("0")), "Mul", ""),
        (neg(constant("0")), "Neg", ""),
    ];
    for (e, label, style) in cases {
        let (l, s) = render_node(&e);
        assert_eq!(l, label);
        assert_eq!(s, style);
    }
}

#[test]
fn multi_digit_ids_and_indices() {
    let mut out = String::new();
    let mut counter: usize = 1234567;
    build_dotviz_graph(&var(Entry::Main { offset: 10 }, 907), Some(100), &mut out, &mut counter);
    assert_eq!(
        out,
        "node_1234567 [label=\"Main(idx: 907 off: 10)\",shape=\"box\",style=\"filled\",fillcolor=\"lightgreen\"];\n\
node_100 -> node_1234567;\n"
    );
}

#[test]
fn cluster_numbers_run_past_nine() {
    let cs: Vec<Expr> = (0..11).map(|k| constant(&k.to_string())).collect();
    let doc = build_constraints_graph(&cs);
    assert!(doc.contains("subgraph cluster_c10 {\nnode_18 [label=\"Constraint 10\"];\n"));
    assert!(doc.contains("subgraph cluster_c11 {\nnode_20 [label=\"Constraint 11\"];\nnode_21 [label=\"Const(10)\""));
}

#[test]
fn named_edges_of_first_row_constraint() {
    let mut out = String::new();
    traverse_constraints_tree(&first_row_zero(), None, &mut out);
    assert_eq!(
        out,
        "\"\" -> \"Mul\"\n\
\"Mul\" -> \"IsFirstRow\"\n\
\"Mul\" -> \"Sub\"\n\
\"Sub\" -> \"Preprocessed(offset:0, index:0)\"\n\
\"Sub\" -> \"Const(0)\"\n"
    );
}

#[test]
fn named_edges_of_each_kind() {
    let e = bin(
        BinaryOpKind::Add,
        neg(var(Entry::Challenge, 1)),
        bin(BinaryOpKind::Mul, var(Entry::Public, 2), var(Entry::Permutation { offset: 1 }, 3)),
    );
    let parent = String::from("root");
    let mut out = String::new();
    traverse_constraints_tree(&e, Some(&parent), &mut out);
    assert_eq!(
        out,
        "\"root\" -> \"Add\"\n\
\"Sub\" -> \"Neg\"\n\
\"Neg\" -> \"Entry\"\n\
\"Sub\" -> \"Mul\"\n\
\"Mul\" -> \"Public\"\n\
\"Mul\" -> \"Preprocessed(offset:1, index:3)\"\n"
    );
}

#[test]
fn counts_of_nodes() {
    assert_eq!(node_count(&first_row_zero()), Some(5));
    assert_eq!(document_node_count(&vec![]), Some(0));
    assert_eq!(document_node_count(&vec![first_row_zero(), constant("1")]), Some(8));
}

#[test]
fn fibonacci_air_width() {
    let air = FibonacciAir { num_steps: 8, final_value: 21 };
    assert_eq!(air.width(), 2);
}
