use vstd::prelude::*;
use crate::decimal::{decimal, push_decimal};
use crate::expr::{size, Expr};
use crate::render::{label_of, render_node, style_of};

verus! {

/// One line of a graph document, as a value.
pub enum GraphLine {
    /// `node_<id> [label="<label>"<style>];`
    Node { id: nat, label: Seq<char>, style: Seq<char> },
    /// `node_<from> -> node_<to>;`
    Edge { from: nat, to: nat },
    /// `subgraph cluster_c<index> {`
    ClusterOpen { index: nat },
    /// The `}` that closes a cluster.
    ClusterClose,
}

pub open spec fn node_name(id: nat) -> Seq<char> {
    "node_"@ + decimal(id)
}

/// The text of one line, newline included.
pub open spec fn line_text(line: GraphLine) -> Seq<char> {
    match line {
        GraphLine::Node { id, label, style } => node_name(id) + " [label=\""@ + label + "\""@ + style
            + "];\n"@,
        GraphLine::Edge { from, to } => node_name(from) + " -> "@ + node_name(to) + ";\n"@,
        GraphLine::ClusterOpen { index } => "subgraph cluster_c"@ + decimal(index) + " {\n"@,
        GraphLine::ClusterClose => "}\n"@,
    }
}

/// The text of a sequence of lines, one after the other.
pub open spec fn lines_text(lines: Seq<GraphLine>) -> Seq<char>
    decreases lines.len(),
{
    if lines.len() == 0 {
        Seq::empty()
    } else {
        lines_text(lines.drop_last()) + line_text(lines.last())
    }
}

pub open spec fn nat_id(id: Option<usize>) -> Option<nat> {
    match id {
        Some(p) => Some(p as nat),
        None => None,
    }
}

/// The declaration of the node numbered `id` for `e`, followed by the edge from
/// its parent where it has one.
pub open spec fn head_lines(e: Expr, parent: Option<nat>, id: nat) -> Seq<GraphLine> {
    seq![GraphLine::Node { id, label: label_of(e), style: style_of(e) }] + match parent {
        Some(p) => seq![GraphLine::Edge { from: p, to: id }],
        None => Seq::empty(),
    }
}

/// The lines emitted for `e`, walked in pre-order with ids handed out from
/// `id` on: the node itself, the edge from `parent`, then each child's lines
/// from left to right.
pub open spec fn emit_lines(e: Expr, parent: Option<nat>, id: nat) -> Seq<GraphLine>
    decreases e,
{
    match e {
        Expr::BinaryOp(_, l, r) => head_lines(e, parent, id) + emit_lines(*l, Some(id), id + 1)
            + emit_lines(*r, Some(id), id + 1 + size(*l)),
        Expr::UnaryOp(_, x) => head_lines(e, parent, id) + emit_lines(*x, Some(id), id + 1),
        _ => head_lines(e, parent, id),
    }
}

/// The text of two sequences of lines is the text of the first, then that of the second.
pub proof fn lemma_lines_text_concat(a: Seq<GraphLine>, b: Seq<GraphLine>)
    ensures
        lines_text(a + b) == lines_text(a) + lines_text(b),
    decreases b.len(),
{
    if b.len() == 0 {
        assert(a + b =~= a);
        assert(lines_text(b) =~= Seq::<char>::empty());
        assert(lines_text(a) + lines_text(b) =~= lines_text(a));
    } else {
        lemma_lines_text_concat(a, b.drop_last());
        assert((a + b).drop_last() =~= a + b.drop_last());
        assert((a + b).last() == b.last());
        assert(lines_text(a + b) =~= lines_text(a) + lines_text(b));
    }
}

pub proof fn lemma_lines_text_single(line: GraphLine)
    ensures
        lines_text(seq![line]) == line_text(line),
{
    assert(seq![line].drop_last() =~= Seq::<GraphLine>::empty());
    assert(lines_text(seq![line].drop_last()) =~= Seq::<char>::empty());
    assert(seq![line].last() == line);
    assert(lines_text(seq![line]) =~= line_text(line));
}

/// Appends `node_<id>`.
fn push_node_name(out: &mut String, id: usize)
    ensures
        final(out)@ == old(out)@ + node_name(id as nat),
{
    let ghost start = out@;
    out.append("node_");
    push_decimal(out, id);
    assert(out@ =~= start + node_name(id as nat));
}

/// Appends the text of an edge line.
pub fn push_edge_line(out: &mut String, from: usize, to: usize)
    ensures
        final(out)@ == old(out)@ + line_text(GraphLine::Edge { from: from as nat, to: to as nat }),
{
    let ghost start = out@;
    push_node_name(out, from);
    out.append(" -> ");
    push_node_name(out, to);
    out.append(";\n");
    assert(out@ =~= start + line_text(GraphLine::Edge { from: from as nat, to: to as nat }));
}

/// Appends the text of a node declaration.
pub fn push_node_line(out: &mut String, id: usize, label: &str, style: &str)
    ensures
        final(out)@ == old(out)@ + line_text(
            GraphLine::Node { id: id as nat, label: label@, style: style@ },
        ),
{
    let ghost start = out@;
    push_node_name(out, id);
    out.append(" [label=\"");
    out.append(label);
    out.append("\"");
    out.append(style);
    out.append("];\n");
    assert(out@ =~= start + line_text(
        GraphLine::Node { id: id as nat, label: label@, style: style@ },
    ));
}

/// Writes the lines of `node` to `output`, numbering its nodes in pre-order
/// from `*counter` on, and returns the id given to `node` itself.
pub fn build_dotviz_graph(
    node: &Expr,
    parent_id: Option<usize>,
    output: &mut String,
    counter: &mut usize,
) -> (r: usize)
    requires
        *old(counter) + size(*node) <= usize::MAX,
    ensures
        r == *old(counter),
        *final(counter) == *old(counter) + size(*node),
        final(output)@ == old(output)@ + lines_text(
            emit_lines(*node, nat_id(parent_id), *old(counter) as nat),
        ),
    decreases node,
{
    let ghost start = output@;
    let current_id = *counter;
    *counter = *counter + 1;
    let (label, style) = render_node(node);
    push_node_line(output, current_id, label.as_str(), style);
    match parent_id {
        Some(pid) => push_edge_line(output, pid, current_id),
        None => {},
    }
    let ghost head = head_lines(*node, nat_id(parent_id), current_id as nat);
    proof {
        let n = GraphLine::Node {
            id: current_id as nat,
            label: label_of(*node),
            style: style_of(*node),
        };
        lemma_lines_text_single(n);
        match parent_id {
            Some(pid) => {
                let e = GraphLine::Edge { from: pid as nat, to: current_id as nat };
                lemma_lines_text_concat(seq![n], seq![e]);
                lemma_lines_text_single(e);
                assert(head =~= seq![n] + seq![e]);
            },
            None => {
                assert(head =~= seq![n]);
            },
        }
        assert(output@ =~= start + lines_text(head));
    }
    match node {
        Expr::BinaryOp(_, x, y) => {
            build_dotviz_graph(x, Some(current_id), output, counter);
            build_dotviz_graph(y, Some(current_id), output, counter);
            proof {
                let lx = emit_lines(**x, Some(current_id as nat), current_id as nat + 1);
                let ly = emit_lines(
                    **y,
                    Some(current_id as nat),
                    current_id as nat + 1 + size(**x),
                );
                lemma_lines_text_concat(head, lx);
                lemma_lines_text_concat(head + lx, ly);
                assert(output@ =~= start + lines_text(head + lx + ly));
            }
        },
        Expr::UnaryOp(_, x) => {
            build_dotviz_graph(x, Some(current_id), output, counter);
            proof {
                let lx = emit_lines(**x, Some(current_id as nat), current_id as nat + 1);
                lemma_lines_text_concat(head, lx);
                assert(output@ =~= start + lines_text(head + lx));
            }
        },
        _ => {},
    }
    current_id
}

} // verus!
