use vstd::prelude::*;
use crate::decimal::{decimal, push_decimal};
use crate::expr::{BinaryOpKind, Entry, Expr, RowSelector, UnaryOpKind, Variable};
use crate::render::selector_name;

verus! {

/// `"<parent>" -> "<child>"` on a line of its own.
pub open spec fn named_edge(parent: Seq<char>, child: Seq<char>) -> Seq<char> {
    "\""@ + parent + "\" -> \""@ + child + "\"\n"@
}

/// The name of a variable in this rendering. Every trace-column entry is
/// written as `Preprocessed(offset:o, index:i)`; a challenge is named `Entry`.
pub open spec fn variable_name(v: Variable) -> Seq<char> {
    match v.entry {
        Entry::Preprocessed { offset } => "Preprocessed(offset:"@ + decimal(offset as nat)
            + ", index:"@ + decimal(v.index as nat) + ")"@,
        Entry::Main { offset } => "Preprocessed(offset:"@ + decimal(offset as nat) + ", index:"@
            + decimal(v.index as nat) + ")"@,
        Entry::Permutation { offset } => "Preprocessed(offset:"@ + decimal(offset as nat)
            + ", index:"@ + decimal(v.index as nat) + ")"@,
        Entry::Public => "Public"@,
        Entry::Challenge => "Entry"@,
    }
}

/// The edges of `e` between node names, each node named by its label alone,
/// the root hanging under `parent`. The children of an `Add` name `Sub` as
/// their parent.
pub open spec fn named_edges(e: Expr, parent: Seq<char>) -> Seq<char>
    decreases e,
{
    match e {
        Expr::Variable(v) => named_edge(parent, variable_name(v)),
        Expr::RowSelector(s) => named_edge(parent, selector_name(s)),
        Expr::Constant(c) => named_edge(parent, "Const("@ + c@ + ")"@),
        Expr::BinaryOp(BinaryOpKind::Mul, x, y) => named_edge(parent, "Mul"@) + named_edges(
            *x,
            "Mul"@,
        ) + named_edges(*y, "Mul"@),
        Expr::BinaryOp(BinaryOpKind::Sub, x, y) => named_edge(parent, "Sub"@) + named_edges(
            *x,
            "Sub"@,
        ) + named_edges(*y, "Sub"@),
        Expr::BinaryOp(BinaryOpKind::Add, x, y) => named_edge(parent, "Add"@) + named_edges(
            *x,
            "Sub"@,
        ) + named_edges(*y, "Sub"@),
        Expr::UnaryOp(UnaryOpKind::Neg, x) => named_edge(parent, "Neg"@) + named_edges(
            *x,
            "Neg"@,
        ),
    }
}

/// The parent's name, empty where there is none.
pub open spec fn parent_name(parent: Option<&String>) -> Seq<char> {
    match parent {
        Some(p) => p@,
        None => Seq::empty(),
    }
}

fn push_named_edge(output: &mut String, parent: &str, child: &str)
    ensures
        final(output)@ == old(output)@ + named_edge(parent@, child@),
{
    let ghost start = output@;
    output.append("\"");
    output.append(parent);
    output.append("\" -> \"");
    output.append(child);
    output.append("\"\n");
    assert(output@ =~= start + named_edge(parent@, child@));
}

fn variable_name_exec(v: &Variable) -> (r: String)
    ensures
        r@ == variable_name(*v),
{
    let mut text = String::new();
    match v.entry {
        Entry::Preprocessed { offset } | Entry::Main { offset } | Entry::Permutation { offset } => {
            text.append("Preprocessed(offset:");
            push_decimal(&mut text, offset);
            text.append(", index:");
            push_decimal(&mut text, v.index);
            text.append(")");
        },
        Entry::Public => text.append("Public"),
        Entry::Challenge => text.append("Entry"),
    }
    assert(text@ =~= variable_name(*v));
    text
}

/// Appends one edge line per node of `root_constraint`, from its parent's
/// label to its own.
pub fn traverse_constraints_tree(
    root_constraint: &Expr,
    parent_string: Option<&String>,
    output: &mut String,
)
    ensures
        final(output)@ == old(output)@ + named_edges(*root_constraint, parent_name(parent_string)),
    decreases root_constraint,
{
    let empty = String::new();
    let parent = match parent_string {
        Some(p) => p.as_str(),
        None => empty.as_str(),
    };
    let ghost start = output@;
    match root_constraint {
        Expr::Variable(v) => {
            let text = variable_name_exec(v);
            push_named_edge(output, parent, text.as_str());
        },
        Expr::RowSelector(s) => {
            let name = match s {
                RowSelector::IsFirstRow => "IsFirstRow",
                RowSelector::IsLastRow => "IsLastRow",
                RowSelector::IsTransition => "IsTransition",
            };
            push_named_edge(output, parent, name);
        },
        Expr::Constant(c) => {
            let mut text = String::new();
            text.append("Const(");
            text.append(c.as_str());
            text.append(")");
            push_named_edge(output, parent, text.as_str());
        },
        Expr::BinaryOp(op, x, y) => {
            let (name, child_parent) = match op {
                BinaryOpKind::Mul => ("Mul", "Mul"),
                BinaryOpKind::Sub => ("Sub", "Sub"),
                BinaryOpKind::Add => ("Add", "Sub"),
            };
            push_named_edge(output, parent, name);
            let child_parent = String::from_str(child_parent);
            traverse_constraints_tree(x, Some(&child_parent), output);
            traverse_constraints_tree(y, Some(&child_parent), output);
            assert(output@ =~= start + named_edges(*root_constraint, parent_name(parent_string)));
        },
        Expr::UnaryOp(UnaryOpKind::Neg, x) => {
            push_named_edge(output, parent, "Neg");
            let child_parent = String::from_str("Neg");
            traverse_constraints_tree(x, Some(&child_parent), output);
            assert(output@ =~= start + named_edges(*root_constraint, parent_name(parent_string)));
        },
    }
}

} // verus!
