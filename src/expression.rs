use vstd::prelude::*;

verus! {

/// A relational algebra expression whose evaluation yields rows of type
/// `Output`.
///
/// Expressions are recursive: a node evaluates its sub-expressions before it
/// applies its own transformation.
pub trait Expression<Output> {
    /// The sequence of rows that this expression denotes.
    spec fn spec_eval(&self) -> Seq<Output>;

    /// Every predicate and mapper in the tree is pure, and every row type
    /// that the tree copies or compares has value semantics.
    spec fn well_formed(&self) -> bool;

    /// Evaluates the sub-expressions, then this node's own transformation,
    /// and returns the materialized rows.
    fn eval(&self) -> (rows: Vec<Output>)
        requires
            self.well_formed(),
        ensures
            rows@ == self.spec_eval(),
    ;
}

/// Whether the row predicate `p` holds of `s`.
pub open spec fn accepts<S, P: Fn(&S) -> bool>(p: P, s: S) -> bool {
    call_ensures(p, (&s,), true)
}

/// A row predicate is pure when it is defined on every row and gives each
/// row a single answer.
pub open spec fn pure_predicate<S, P: Fn(&S) -> bool>(p: P) -> bool {
    &&& forall|s: S| #[trigger] call_requires(p, (&s,))
    &&& forall|s: S, b: bool| #[trigger] call_ensures(p, (&s,), b) ==> b == accepts(p, s)
}

/// Whether the pair predicate `p` holds of `(l, r)`.
pub open spec fn accepts_pair<L, R, P: Fn(&L, &R) -> bool>(p: P, l: L, r: R) -> bool {
    call_ensures(p, (&l, &r), true)
}

/// A pair predicate is pure when it is defined on every pair and gives each
/// pair a single answer.
pub open spec fn pure_pair_predicate<L, R, P: Fn(&L, &R) -> bool>(p: P) -> bool {
    &&& forall|l: L, r: R| #[trigger] call_requires(p, (&l, &r))
    &&& forall|l: L, r: R, b: bool| #[trigger]
        call_ensures(p, (&l, &r), b) ==> b == accepts_pair(p, l, r)
}

/// The row that the mapper `m` makes of `s`.
pub open spec fn image<S, T, M: Fn(&S) -> T>(m: M, s: S) -> T {
    choose|t: T| call_ensures(m, (&s,), t)
}

/// A mapper is pure when it is defined on every row and maps each row to a
/// single result.
pub open spec fn pure_mapper<S, T, M: Fn(&S) -> T>(m: M) -> bool {
    &&& forall|s: S| #[trigger] call_requires(m, (&s,))
    &&& forall|s: S, t: T| #[trigger] call_ensures(m, (&s,), t) ==> t == image(m, s)
}

/// The row that the mapper `m` makes of the pair `(l, r)`.
pub open spec fn image_pair<L, R, T, M: Fn(&L, &R) -> T>(m: M, l: L, r: R) -> T {
    choose|t: T| call_ensures(m, (&l, &r), t)
}

/// A pair mapper is pure when it is defined on every pair and maps each pair
/// to a single result.
pub open spec fn pure_pair_mapper<L, R, T, M: Fn(&L, &R) -> T>(m: M) -> bool {
    &&& forall|l: L, r: R| #[trigger] call_requires(m, (&l, &r))
    &&& forall|l: L, r: R, t: T| #[trigger]
        call_ensures(m, (&l, &r), t) ==> t == image_pair(m, l, r)
}

} // verus!
