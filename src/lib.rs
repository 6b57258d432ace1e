//! A type-safe evaluator for relational algebra.
//!
//! Expressions are trees of operator nodes (terminal, selection, projection,
//! join, cartesian product, union, intersection) over finite, ordered
//! relations of rows. Each node states, as `spec_eval`, the sequence of rows
//! that it denotes, and its executable `eval` is proved to return exactly that
//! sequence.
use vstd::prelude::*;

mod cartesian_product;
mod expression;
mod expression_builder;
mod intersection;
mod join;
pub mod laws;
mod projection;
mod selection;
mod terminal;
mod union;

pub use cartesian_product::{CartesianProduct, unconditional};
pub use expression::{
    Expression, accepts, accepts_pair, image, image_pair, pure_mapper, pure_pair_mapper,
    pure_pair_predicate, pure_predicate,
};
pub use expression_builder::ExpressionBuilder;
pub use intersection::{Intersection, present_in};
pub use join::{Join, join_rows, matches_of, pair_filter_of, pair_map_of};
pub use projection::{Projection, row_map_of};
pub use selection::{Selection, row_filter_of};
pub use terminal::Terminal;
pub use union::Union;

verus! {

/// Any type that can be duplicated and compared by equality can be the row
/// type of a relation.
pub trait Relation: Clone + Eq + PartialEq {

}

impl<T: Clone + Eq + PartialEq> Relation for T {

}

/// A clone of a row is that same row.
pub open spec fn clones_exactly<S: Clone>() -> bool {
    forall|a: S, b: S| #[trigger] vstd::pervasive::strictly_cloned(a, b) ==> a == b
}

/// Rows have value semantics: `==` on two rows is equality of the rows, and a
/// clone of a row is that same row.
pub open spec fn value_semantics<S: Relation>() -> bool {
    &&& vstd::laws_eq::obeys_concrete_eq::<S>()
    &&& clones_exactly::<S>()
}

} // verus!
