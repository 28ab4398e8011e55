use vstd::prelude::*;
use crate::decimal::{decimal, push_decimal};
use crate::expr::{BinaryOpKind, Entry, Expr, RowSelector, UnaryOpKind, Variable};

verus! {

/// The name that a variable's label starts with. A challenge is named `Entry`.
pub open spec fn entry_name(entry: Entry) -> Seq<char> {
    match entry {
        Entry::Preprocessed { .. } => "Preprocessed"@,
        Entry::Main { .. } => "Main"@,
        Entry::Permutation { .. } => "Permutation"@,
        Entry::Public => "Public"@,
        Entry::Challenge => "Entry"@,
    }
}

/// The row offset of a trace-column entry; none for public values and challenges.
pub open spec fn entry_offset(entry: Entry) -> Option<usize> {
    match entry {
        Entry::Preprocessed { offset } => Some(offset),
        Entry::Main { offset } => Some(offset),
        Entry::Permutation { offset } => Some(offset),
        Entry::Public => None,
        Entry::Challenge => None,
    }
}

/// `<Name>(idx: i off: o)`, or `<Name>(idx: i)` where the entry has no offset.
pub open spec fn variable_label(v: Variable) -> Seq<char> {
    entry_name(v.entry) + "(idx: "@ + decimal(v.index as nat) + match entry_offset(v.entry) {
        Some(o) => " off: "@ + decimal(o as nat),
        None => Seq::empty(),
    } + ")"@
}

pub open spec fn selector_name(s: RowSelector) -> Seq<char> {
    match s {
        RowSelector::IsFirstRow => "IsFirstRow"@,
        RowSelector::IsLastRow => "IsLastRow"@,
        RowSelector::IsTransition => "IsTransition"@,
    }
}

pub open spec fn binary_op_name(op: BinaryOpKind) -> Seq<char> {
    match op {
        BinaryOpKind::Add => "Add"@,
        BinaryOpKind::Sub => "Sub"@,
        BinaryOpKind::Mul => "Mul"@,
    }
}

pub open spec fn unary_op_name(op: UnaryOpKind) -> Seq<char> {
    match op {
        UnaryOpKind::Neg => "Neg"@,
    }
}

/// The text shown inside a node of the graph.
pub open spec fn label_of(e: Expr) -> Seq<char> {
    match e {
        Expr::Constant(c) => "Const("@ + c@ + ")"@,
        Expr::Variable(v) => variable_label(v),
        Expr::RowSelector(s) => selector_name(s),
        Expr::BinaryOp(op, _, _) => binary_op_name(op),
        Expr::UnaryOp(op, _) => unary_op_name(op),
    }
}

/// The attributes that follow a node's label: filled boxes for leaves, none
/// for operators.
pub open spec fn style_of(e: Expr) -> Seq<char> {
    match e {
        Expr::Constant(_) => ",shape=\"box\",style=\"filled\",fillcolor=\"lightblue\""@,
        Expr::Variable(_) => ",shape=\"box\",style=\"filled\",fillcolor=\"lightgreen\""@,
        Expr::RowSelector(_) => ",shape=\"box\",style=\"filled\",fillcolor=\"pink\""@,
        Expr::BinaryOp(..) => ""@,
        Expr::UnaryOp(..) => ""@,
    }
}

fn entry_name_str(entry: &Entry) -> (r: &'static str)
    ensures
        r@ == entry_name(*entry),
{
    match entry {
        Entry::Preprocessed { .. } => "Preprocessed",
        Entry::Main { .. } => "Main",
        Entry::Permutation { .. } => "Permutation",
        Entry::Public => "Public",
        Entry::Challenge => "Entry",
    }
}

fn entry_offset_exec(entry: &Entry) -> (r: Option<usize>)
    ensures
        r == entry_offset(*entry),
{
    match entry {
        Entry::Preprocessed { offset } => Some(*offset),
        Entry::Main { offset } => Some(*offset),
        Entry::Permutation { offset } => Some(*offset),
        Entry::Public => None,
        Entry::Challenge => None,
    }
}

fn push_variable_label(out: &mut String, v: &Variable)
    ensures
        final(out)@ == old(out)@ + variable_label(*v),
{
    let ghost start = out@;
    out.append(entry_name_str(&v.entry));
    out.append("(idx: ");
    push_decimal(out, v.index);
    match entry_offset_exec(&v.entry) {
        Some(o) => {
            out.append(" off: ");
            push_decimal(out, o);
        },
        None => {},
    }
    out.append(")");
    assert(out@ =~= start + variable_label(*v));
}

/// The label and the style attributes of one node.
pub fn render_node(node: &Expr) -> (r: (String, &'static str))
    ensures
        r.0@ == label_of(*node),
        r.1@ == style_of(*node),
{
    let mut label = String::new();
    let style = match node {
        Expr::Constant(c) => {
            label.append("Const(");
            label.append(c.as_str());
            label.append(")");
            ",shape=\"box\",style=\"filled\",fillcolor=\"lightblue\""
        },
        Expr::Variable(v) => {
            push_variable_label(&mut label, v);
            ",shape=\"box\",style=\"filled\",fillcolor=\"lightgreen\""
        },
        Expr::RowSelector(s) => {
            label.append(
                match s {
                    RowSelector::IsFirstRow => "IsFirstRow",
                    RowSelector::IsLastRow => "IsLastRow",
                    RowSelector::IsTransition => "IsTransition",
                },
            );
            ",shape=\"box\",style=\"filled\",fillcolor=\"pink\""
        },
        Expr::BinaryOp(op, _, _) => {
            label.append(
                match op {
                    BinaryOpKind::Add => "Add",
                    BinaryOpKind::Sub => "Sub",
                    BinaryOpKind::Mul => "Mul",
                },
            );
            ""
        },
        Expr::UnaryOp(UnaryOpKind::Neg, _) => {
            label.append("Neg");
            ""
        },
    };
    assert(label@ =~= label_of(*node));
    (label, style)
}

} // verus!
