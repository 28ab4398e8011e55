//! Renders algebraic constraint expression trees as Graphviz `digraph`
//! documents, with every emitted line described by a spec-level model.

pub mod decimal;
pub mod document;
pub mod edges;
pub mod expr;
pub mod fibonacci;
pub mod graph;
pub mod render;
pub mod structure;

pub use document::build_constraints_graph;
pub use edges::traverse_constraints_tree;
pub use expr::{BinaryOpKind, Entry, Expr, RowSelector, UnaryOpKind, Variable};
pub use fibonacci::FibonacciAir;
pub use graph::build_dotviz_graph;
pub use render::render_node;
