use vstd::prelude::*;

verus! {

/// Where a variable's value comes from.
#[derive(Clone, Copy, Debug)]
pub enum Entry {
    Preprocessed { offset: usize },
    Main { offset: usize },
    Permutation { offset: usize },
    Public,
    Challenge,
}

/// A column (or public value, or challenge) read by a constraint.
#[derive(Clone, Copy, Debug)]
pub struct Variable {
    pub entry: Entry,
    pub index: usize,
}

/// Boolean row predicates that scope a constraint to some rows.
#[derive(Clone, Copy, Debug)]
pub enum RowSelector {
    IsFirstRow,
    IsLastRow,
    IsTransition,
}

#[derive(Clone, Copy, Debug)]
pub enum BinaryOpKind {
    Add,
    Sub,
    Mul,
}

#[derive(Clone, Copy, Debug)]
pub enum UnaryOpKind {
    Neg,
}

/// One constraint expression. A sub-expression that the producer shared
/// between several parents appears here once per reference.
#[derive(Debug)]
pub enum Expr {
    /// A field element, held as its printed form.
    Constant(String),
    Variable(Variable),
    RowSelector(RowSelector),
    BinaryOp(BinaryOpKind, Box<Expr>, Box<Expr>),
    UnaryOp(UnaryOpKind, Box<Expr>),
}

/// The number of node occurrences in `e`: one visit each when the tree is walked.
pub open spec fn size(e: Expr) -> nat
    decreases e,
{
    match e {
        Expr::BinaryOp(_, l, r) => 1 + size(*l) + size(*r),
        Expr::UnaryOp(_, x) => 1 + size(*x),
        _ => 1,
    }
}

} // verus!

verus! {

/// The number of nodes of `e`, where it fits in a `usize`.
pub fn node_count(e: &Expr) -> (r: Option<usize>)
    ensures
        r == (if size(*e) <= usize::MAX {
            Some(size(*e) as usize)
        } else {
            None::<usize>
        }),
    decreases e,
{
    match e {
        Expr::BinaryOp(_, l, r) => match (node_count(l), node_count(r)) {
            (Some(a), Some(b)) => {
                if a < usize::MAX - b {
                    Some(a + b + 1)
                } else {
                    None
                }
            },
            _ => None,
        },
        Expr::UnaryOp(_, x) => match node_count(x) {
            Some(a) => {
                if a < usize::MAX {
                    Some(a + 1)
                } else {
                    None
                }
            },
            None => None,
        },
        _ => Some(1),
    }
}

} // verus!
