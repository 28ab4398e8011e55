use vstd::prelude::*;
use crate::decimal::{decimal, push_decimal};
use crate::expr::{node_count, size, Expr};
use crate::graph::{
    build_dotviz_graph, emit_lines, lemma_lines_text_concat, lemma_lines_text_single, line_text,
    lines_text, push_node_line, GraphLine,
};

verus! {

/// The number of node declarations in the document for `cs`: one label node
/// per constraint, plus each constraint's nodes.
pub open spec fn total_nodes(cs: Seq<Expr>) -> nat
    decreases cs.len(),
{
    if cs.len() == 0 {
        0
    } else {
        total_nodes(cs.drop_last()) + 1 + size(cs.last())
    }
}

/// The label of the synthetic node that stands for the `index`-th constraint.
pub open spec fn constraint_label(index: nat) -> Seq<char> {
    "Constraint "@ + decimal(index)
}

/// The cluster of one constraint: its label node numbered `id`, then the
/// constraint's own lines hanging under it.
pub open spec fn cluster_lines(e: Expr, index: nat, id: nat) -> Seq<GraphLine> {
    seq![
        GraphLine::ClusterOpen { index },
        GraphLine::Node { id, label: constraint_label(index), style: Seq::empty() },
    ] + emit_lines(e, Some(id), id + 1) + seq![GraphLine::ClusterClose]
}

/// The lines between the document's opening and closing: one cluster per
/// constraint, numbered from 1, with one id space for the whole document.
pub open spec fn document_lines(cs: Seq<Expr>) -> Seq<GraphLine>
    decreases cs.len(),
{
    if cs.len() == 0 {
        Seq::empty()
    } else {
        document_lines(cs.drop_last()) + cluster_lines(
            cs.last(),
            cs.len(),
            total_nodes(cs.drop_last()),
        )
    }
}

/// The whole document for `cs`.
pub open spec fn document(cs: Seq<Expr>) -> Seq<char> {
    "digraph {\n"@ + lines_text(document_lines(cs)) + "}"@
}

proof fn lemma_total_nodes_prefix(cs: Seq<Expr>, k: int)
    requires
        0 <= k <= cs.len(),
    ensures
        total_nodes(cs.take(k)) <= total_nodes(cs),
    decreases cs.len(),
{
    if k < cs.len() {
        assert(cs.drop_last().take(k) =~= cs.take(k));
        lemma_total_nodes_prefix(cs.drop_last(), k);
    } else {
        assert(cs.take(k) =~= cs);
    }
}

/// The number of node declarations in the document for `constraints`,
/// where it fits in a `usize`.
pub fn document_node_count(constraints: &Vec<Expr>) -> (r: Option<usize>)
    ensures
        r == (if total_nodes(constraints@) <= usize::MAX {
            Some(total_nodes(constraints@) as usize)
        } else {
            None::<usize>
        }),
{
    let mut total: usize = 0;
    let mut i: usize = 0;
    while i < constraints.len()
        invariant
            0 <= i <= constraints.len(),
            total == total_nodes(constraints@.take(i as int)),
        decreases constraints.len() - i,
    {
        proof {
            assert(constraints@.take(i as int + 1).drop_last() =~= constraints@.take(i as int));
            lemma_total_nodes_prefix(constraints@, i as int + 1);
        }
        match node_count(&constraints[i]) {
            Some(n) => {
                if n < usize::MAX - total {
                    total = total + n + 1;
                } else {
                    return None;
                }
            },
            None => {
                return None;
            },
        }
        i = i + 1;
    }
    proof {
        assert(constraints@.take(i as int) =~= constraints@);
    }
    Some(total)
}

/// The graph document of an ordered list of constraints.
pub fn build_constraints_graph(constraints: &Vec<Expr>) -> (r: String)
    requires
        total_nodes(constraints@) <= usize::MAX,
    ensures
        r@ == document(constraints@),
{
    let mut counter: usize = 0;
    let mut output = String::new();
    output.append("digraph {\n");
    let mut i: usize = 0;
    while i < constraints.len()
        invariant
            0 <= i <= constraints.len(),
            total_nodes(constraints@) <= usize::MAX,
            counter == total_nodes(constraints@.take(i as int)),
            output@ == "digraph {\n"@ + lines_text(document_lines(constraints@.take(i as int))),
        decreases constraints.len() - i,
    {
        let ghost prev = constraints@.take(i as int);
        let ghost next = constraints@.take(i as int + 1);
        proof {
            assert(next.drop_last() =~= prev);
            assert(next.last() == constraints@[i as int]);
            lemma_total_nodes_prefix(constraints@, i as int + 1);
        }
        let ghost before = output@;
        let index = i + 1;
        output.append("subgraph cluster_c");
        push_decimal(&mut output, index);
        output.append(" {\n");
        let ghost open = GraphLine::ClusterOpen { index: index as nat };
        assert(output@ =~= before + line_text(open));
        let label_id = counter;
        let mut label = String::new();
        label.append("Constraint ");
        push_decimal(&mut label, index);
        push_node_line(&mut output, label_id, label.as_str(), "");
        counter = counter + 1;
        build_dotviz_graph(&constraints[i], Some(label_id), &mut output, &mut counter);
        output.append("}\n");
        proof {
            reveal_strlit("");
            let node = GraphLine::Node {
                id: label_id as nat,
                label: constraint_label(index as nat),
                style: Seq::empty(),
            };
            let body = emit_lines(constraints@[i as int], Some(label_id as nat), label_id as nat + 1);
            assert(label@ =~= constraint_label(index as nat));
            assert(""@ =~= Seq::<char>::empty());
            lemma_lines_text_single(open);
            lemma_lines_text_single(node);
            lemma_lines_text_single(GraphLine::ClusterClose);
            lemma_lines_text_concat(seq![open], seq![node]);
            assert(seq![open] + seq![node] =~= seq![open, node]);
            lemma_lines_text_concat(seq![open, node], body);
            lemma_lines_text_concat(seq![open, node] + body, seq![GraphLine::ClusterClose]);
            let cl = cluster_lines(constraints@[i as int], index as nat, label_id as nat);
            assert(lines_text(cl) == line_text(open) + line_text(node) + lines_text(body)
                + line_text(GraphLine::ClusterClose));
            lemma_lines_text_concat(document_lines(prev), cl);
            assert(document_lines(next) == document_lines(prev) + cl);
            assert(output@ =~= "digraph {\n"@ + lines_text(document_lines(next)));
        }
        i = i + 1;
    }
    output.append("}");
    proof {
        assert(constraints@.take(i as int) =~= constraints@);
    }
    output
}

} // verus!
