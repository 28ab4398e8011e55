use vstd::prelude::*;
use crate::document::{cluster_lines, constraint_label, document, document_lines, total_nodes};
use crate::render::{label_of, style_of};
use crate::expr::{size, BinaryOpKind, Expr};
use crate::graph::{emit_lines, head_lines, lemma_lines_text_concat, lines_text, GraphLine};

verus! {

/// The ids of the node declarations among `lines`, in order.
pub open spec fn node_ids(lines: Seq<GraphLine>) -> Seq<nat>
    decreases lines.len(),
{
    if lines.len() == 0 {
        Seq::empty()
    } else {
        node_ids(lines.drop_last()) + match lines.last() {
            GraphLine::Node { id, .. } => seq![id],
            _ => Seq::empty(),
        }
    }
}

/// The number of edge lines among `lines` that end at node `n`.
pub open spec fn incoming(lines: Seq<GraphLine>, n: nat) -> nat
    decreases lines.len(),
{
    if lines.len() == 0 {
        0
    } else {
        incoming(lines.drop_last(), n) + match lines.last() {
            GraphLine::Edge { to, .. } => if to == n {
                1nat
            } else {
                0nat
            },
            _ => 0nat,
        }
    }
}

/// The id of the immediate parent of node `n` in `e`, where `e`'s nodes are
/// numbered in pre-order from `id` on and `e` itself hangs under `parent`.
pub open spec fn parent_of(e: Expr, parent: nat, id: nat, n: nat) -> nat
    decreases e,
{
    if n == id {
        parent
    } else {
        match e {
            Expr::BinaryOp(_, l, r) => if n < id + 1 + size(*l) {
                parent_of(*l, id, id + 1, n)
            } else {
                parent_of(*r, id, id + 1 + size(*l), n)
            },
            Expr::UnaryOp(_, x) => parent_of(*x, id, id + 1, n),
            _ => parent,
        }
    }
}

/// An edge line of `e`'s lines ends at one of `e`'s nodes and starts at its
/// immediate parent.
pub open spec fn edge_from_parent(line: GraphLine, e: Expr, parent: nat, id: nat) -> bool {
    match line {
        GraphLine::Edge { from, to } => id <= to < id + size(e) && from == parent_of(
            e,
            parent,
            id,
            to,
        ),
        _ => true,
    }
}

/// Whether `n` is the id of one of the synthetic constraint label nodes.
pub open spec fn is_constraint_label_id(cs: Seq<Expr>, n: nat) -> bool
    decreases cs.len(),
{
    cs.len() > 0 && (n == total_nodes(cs.drop_last()) || is_constraint_label_id(
        cs.drop_last(),
        n,
    ))
}

proof fn lemma_node_ids_concat(a: Seq<GraphLine>, b: Seq<GraphLine>)
    ensures
        node_ids(a + b) == node_ids(a) + node_ids(b),
    decreases b.len(),
{
    if b.len() == 0 {
        assert(a + b =~= a);
        assert(node_ids(a) + node_ids(b) =~= node_ids(a));
    } else {
        lemma_node_ids_concat(a, b.drop_last());
        assert((a + b).drop_last() =~= a + b.drop_last());
        assert(node_ids(a + b) =~= node_ids(a) + node_ids(b));
    }
}

proof fn lemma_incoming_concat(a: Seq<GraphLine>, b: Seq<GraphLine>, n: nat)
    ensures
        incoming(a + b, n) == incoming(a, n) + incoming(b, n),
    decreases b.len(),
{
    if b.len() == 0 {
        assert(a + b =~= a);
    } else {
        lemma_incoming_concat(a, b.drop_last(), n);
        assert((a + b).drop_last() =~= a + b.drop_last());
    }
}

proof fn lemma_single(line: GraphLine, n: nat)
    ensures
        node_ids(seq![line]) == match line {
            GraphLine::Node { id, .. } => seq![id],
            _ => Seq::empty(),
        },
        incoming(seq![line], n) == match line {
            GraphLine::Edge { to, .. } => if to == n {
                1nat
            } else {
                0nat
            },
            _ => 0nat,
        },
{
    assert(seq![line].drop_last() =~= Seq::<GraphLine>::empty());
    assert(node_ids(seq![line].drop_last()) =~= Seq::<nat>::empty());
    assert(incoming(seq![line].drop_last(), n) == 0);
    assert(seq![line].last() == line);
    assert(node_ids(seq![line]) =~= node_ids(seq![line].drop_last()) + match line {
        GraphLine::Node { id, .. } => seq![id],
        _ => Seq::empty(),
    });
}

proof fn lemma_head(e: Expr, parent: Option<nat>, id: nat, n: nat)
    ensures
        node_ids(head_lines(e, parent, id)) == seq![id],
        incoming(head_lines(e, parent, id), n) == if parent is Some && n == id {
            1nat
        } else {
            0nat
        },
        forall|k: int|
            0 <= k < head_lines(e, parent, id).len() ==> match #[trigger] head_lines(
                e,
                parent,
                id,
            )[k] {
                GraphLine::Edge { from, to } => parent == Some(from) && to == id,
                _ => true,
            },
{
    let node = GraphLine::Node { id, label: label_of(e), style: style_of(e) };
    lemma_single(node, n);
    match parent {
        Some(p) => {
            let edge = GraphLine::Edge { from: p, to: id };
            lemma_single(edge, n);
            lemma_node_ids_concat(seq![node], seq![edge]);
            lemma_incoming_concat(seq![node], seq![edge], n);
            assert(node_ids(head_lines(e, parent, id)) =~= seq![id]);
        },
        None => {
            assert(head_lines(e, parent, id) =~= seq![node]);
        },
    }
}

/// The node declarations emitted for an expression carry the ids from `id`
/// on, one per node of the expression, consecutive and in pre-order.
pub proof fn lemma_emit_node_ids(e: Expr, parent: Option<nat>, id: nat)
    ensures
        node_ids(emit_lines(e, parent, id)) =~= Seq::new(size(e), |k: int| id + k as nat),
    decreases e,
{
    lemma_head(e, parent, id, 0);
    let head = head_lines(e, parent, id);
    match e {
        Expr::BinaryOp(_, l, r) => {
            let ll = emit_lines(*l, Some(id), id + 1);
            let rl = emit_lines(*r, Some(id), id + 1 + size(*l));
            lemma_emit_node_ids(*l, Some(id), id + 1);
            lemma_emit_node_ids(*r, Some(id), id + 1 + size(*l));
            lemma_node_ids_concat(head, ll);
            lemma_node_ids_concat(head + ll, rl);
        },
        Expr::UnaryOp(_, x) => {
            lemma_emit_node_ids(*x, Some(id), id + 1);
            lemma_node_ids_concat(head, emit_lines(*x, Some(id), id + 1));
        },
        _ => {},
    }
}

/// An expression's emitted text holds one node declaration per node visit:
/// a sub-expression reached through several references counts once per reference.
pub proof fn lemma_node_lines_match_visits(e: Expr, parent: Option<nat>, id: nat)
    ensures
        node_ids(emit_lines(e, parent, id)).len() == size(e),
{
    lemma_emit_node_ids(e, parent, id);
}

/// Across a whole document the node ids are 0, 1, 2, ... in the order in
/// which the nodes are declared, with no gap and no repeat; there is one
/// declaration per constraint label and per node visit.
pub proof fn lemma_document_node_ids(cs: Seq<Expr>)
    ensures
        node_ids(document_lines(cs)) =~= Seq::new(total_nodes(cs), |k: int| k as nat),
    decreases cs.len(),
{
    if cs.len() > 0 {
        let prev = cs.drop_last();
        let t = total_nodes(prev);
        let index = cs.len() as nat;
        lemma_document_node_ids(prev);
        let open = GraphLine::ClusterOpen { index };
        let label = GraphLine::Node {
            id: t,
            label: constraint_label(index),
            style: Seq::empty(),
        };
        let body = emit_lines(cs.last(), Some(t), t + 1);
        lemma_emit_node_ids(cs.last(), Some(t), t + 1);
        lemma_single(open, 0);
        lemma_single(label, 0);
        lemma_single(GraphLine::ClusterClose, 0);
        lemma_node_ids_concat(seq![open], seq![label]);
        assert(seq![open] + seq![label] =~= seq![open, label]);
        lemma_node_ids_concat(seq![open, label], body);
        lemma_node_ids_concat(seq![open, label] + body, seq![GraphLine::ClusterClose]);
        lemma_node_ids_concat(document_lines(prev), cluster_lines(cs.last(), index, t));
    }
}

/// Each node of an expression hanging under `parent` has exactly one incoming
/// edge line, and nothing else has one.
pub proof fn lemma_emit_incoming(e: Expr, parent: nat, id: nat, n: nat)
    ensures
        incoming(emit_lines(e, Some(parent), id), n) == if id <= n < id + size(e) {
            1nat
        } else {
            0nat
        },
    decreases e,
{
    lemma_head(e, Some(parent), id, n);
    let head = head_lines(e, Some(parent), id);
    match e {
        Expr::BinaryOp(_, l, r) => {
            let ll = emit_lines(*l, Some(id), id + 1);
            let rl = emit_lines(*r, Some(id), id + 1 + size(*l));
            lemma_emit_incoming(*l, id, id + 1, n);
            lemma_emit_incoming(*r, id, id + 1 + size(*l), n);
            lemma_incoming_concat(head, ll, n);
            lemma_incoming_concat(head + ll, rl, n);
        },
        Expr::UnaryOp(_, x) => {
            lemma_emit_incoming(*x, id, id + 1, n);
            lemma_incoming_concat(head, emit_lines(*x, Some(id), id + 1), n);
        },
        _ => {},
    }
}

/// Every edge line emitted for an expression starts at the immediate parent
/// of the node it ends at.
pub proof fn lemma_edges_from_parents(e: Expr, parent: nat, id: nat)
    ensures
        forall|k: int|
            0 <= k < emit_lines(e, Some(parent), id).len() ==> edge_from_parent(
                #[trigger] emit_lines(e, Some(parent), id)[k],
                e,
                parent,
                id,
            ),
    decreases e,
{
    lemma_head(e, Some(parent), id, 0);
    let head = head_lines(e, Some(parent), id);
    match e {
        Expr::BinaryOp(_, l, r) => {
            let ll = emit_lines(*l, Some(id), id + 1);
            let rl = emit_lines(*r, Some(id), id + 1 + size(*l));
            lemma_edges_from_parents(*l, id, id + 1);
            lemma_edges_from_parents(*r, id, id + 1 + size(*l));
            let all = head + ll + rl;
            assert forall|k: int| 0 <= k < all.len() implies edge_from_parent(
                #[trigger] all[k],
                e,
                parent,
                id,
            ) by {
                if k < head.len() {
                    assert(all[k] == head[k]);
                } else if k < head.len() + ll.len() {
                    assert(all[k] == ll[k - head.len()]);
                    assert(edge_from_parent(ll[k - head.len()], *l, id, id + 1));
                } else {
                    assert(all[k] == rl[k - head.len() - ll.len()]);
                    assert(edge_from_parent(rl[k - head.len() - ll.len()], *r, id, id + 1 + size(*l)));
                }
            }
        },
        Expr::UnaryOp(_, x) => {
            let xl = emit_lines(*x, Some(id), id + 1);
            lemma_edges_from_parents(*x, id, id + 1);
            let all = head + xl;
            assert forall|k: int| 0 <= k < all.len() implies edge_from_parent(
                #[trigger] all[k],
                e,
                parent,
                id,
            ) by {
                if k < head.len() {
                    assert(all[k] == head[k]);
                } else {
                    assert(all[k] == xl[k - head.len()]);
                    assert(edge_from_parent(xl[k - head.len()], *x, id, id + 1));
                }
            }
        },
        _ => {
            assert forall|k: int| 0 <= k < head.len() implies edge_from_parent(
                #[trigger] head[k],
                e,
                parent,
                id,
            ) by {}
        },
    }
}

proof fn lemma_label_ids_below_total(cs: Seq<Expr>, n: nat)
    requires
        is_constraint_label_id(cs, n),
    ensures
        n < total_nodes(cs),
    decreases cs.len(),
{
    if n != total_nodes(cs.drop_last()) {
        lemma_label_ids_below_total(cs.drop_last(), n);
    }
}

/// In a whole document every declared node but the constraint labels has
/// exactly one incoming edge line; a constraint label has none.
pub proof fn lemma_document_incoming(cs: Seq<Expr>, n: nat)
    ensures
        incoming(document_lines(cs), n) == if n < total_nodes(cs) && !is_constraint_label_id(
            cs,
            n,
        ) {
            1nat
        } else {
            0nat
        },
    decreases cs.len(),
{
    if cs.len() > 0 {
        let prev = cs.drop_last();
        let t = total_nodes(prev);
        let index = cs.len() as nat;
        lemma_document_incoming(prev, n);
        if is_constraint_label_id(prev, n) {
            lemma_label_ids_below_total(prev, n);
        }
        let open = GraphLine::ClusterOpen { index };
        let label = GraphLine::Node {
            id: t,
            label: constraint_label(index),
            style: Seq::empty(),
        };
        let body = emit_lines(cs.last(), Some(t), t + 1);
        lemma_emit_incoming(cs.last(), t, t + 1, n);
        lemma_single(open, n);
        lemma_single(label, n);
        lemma_single(GraphLine::ClusterClose, n);
        lemma_incoming_concat(seq![open], seq![label], n);
        assert(seq![open] + seq![label] =~= seq![open, label]);
        lemma_incoming_concat(seq![open, label], body, n);
        lemma_incoming_concat(seq![open, label] + body, seq![GraphLine::ClusterClose], n);
        lemma_incoming_concat(document_lines(prev), cluster_lines(cs.last(), index, t), n);
    }
}

/// Building the document twice from the same constraints gives the same text.
pub proof fn lemma_document_deterministic(a: Seq<Expr>, b: Seq<Expr>)
    requires
        a == b,
    ensures
        document(a) == document(b),
{
}

/// A binary operation's lines are its own, then all of its left operand's,
/// then all of its right operand's; so is its text.
pub proof fn lemma_left_before_right(
    op: BinaryOpKind,
    l: Expr,
    r: Expr,
    parent: Option<nat>,
    id: nat,
)
    ensures
        ({
            let e = Expr::BinaryOp(op, Box::new(l), Box::new(r));
            let head = head_lines(e, parent, id);
            let left = emit_lines(l, Some(id), id + 1);
            let right = emit_lines(r, Some(id), id + 1 + size(l));
            &&& emit_lines(e, parent, id) == head + left + right
            &&& lines_text(emit_lines(e, parent, id)) == lines_text(head) + lines_text(left)
                + lines_text(right)
        }),
{
    let e = Expr::BinaryOp(op, Box::new(l), Box::new(r));
    let head = head_lines(e, parent, id);
    let left = emit_lines(l, Some(id), id + 1);
    let right = emit_lines(r, Some(id), id + 1 + size(l));
    lemma_lines_text_concat(head, left);
    lemma_lines_text_concat(head + left, right);
}

} // verus!
