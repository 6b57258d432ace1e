use crate::{
    CartesianProduct, Expression, Intersection, Join, Projection, Relation, Selection, Terminal,
    Union, join_rows, pair_filter_of, pair_map_of, present_in, pure_mapper, pure_pair_mapper,
    pure_pair_predicate, pure_predicate, row_filter_of, row_map_of, unconditional,
    clones_exactly, value_semantics,
};
use core::marker::PhantomData;
use vstd::prelude::*;

verus! {

/// Builds an expression by chaining operations onto a current expression.
///
/// Each operation consumes the builder and returns a new one that wraps the
/// current expression in a new operator node; `eval` then evaluates the whole
/// chain.
pub struct ExpressionBuilder<S, E> {
    expression: E,
    phantom: PhantomData<S>,
}

impl<S: Relation, E: Expression<S>> ExpressionBuilder<S, E> {
    /// The expression built so far.
    pub closed spec fn current(&self) -> E {
        self.expression
    }

    /// The rows that the expression built so far denotes.
    pub open spec fn spec_eval(&self) -> Seq<S> {
        self.current().spec_eval()
    }

    /// The expression built so far can be evaluated.
    pub open spec fn well_formed(&self) -> bool {
        self.current().well_formed()
    }

    /// Starts a chain from `expression`.
    pub fn new(expression: E) -> (b: Self)
        ensures
            b.current() == expression,
    {
        ExpressionBuilder { expression, phantom: PhantomData }
    }

    /// Maps every row with `mapper`.
    pub fn project<T, M>(self, mapper: M) -> (b: ExpressionBuilder<T, Projection<S, T, E, M>>) where
        T: Relation,
        M: Fn(&S) -> T,
        ensures
            b.current().expression == self.current(),
            b.current().mapper == mapper,
            b.spec_eval() == self.spec_eval().map_values(row_map_of(mapper)),
            b.well_formed() == (self.well_formed() && pure_mapper(mapper)),
    {
        ExpressionBuilder { expression: Projection::new(self.expression, mapper), phantom: PhantomData }
    }

    /// Keeps the rows that satisfy `predicate`.
    pub fn select<P>(self, predicate: P) -> (b: ExpressionBuilder<S, Selection<S, E, P>>) where
        P: Fn(&S) -> bool,
        ensures
            b.current().expression == self.current(),
            b.current().predicate == predicate,
            b.spec_eval() == self.spec_eval().filter(row_filter_of(predicate)),
            b.well_formed() == (self.well_formed() && pure_predicate(predicate)),
    {
        ExpressionBuilder {
            expression: Selection::new(self.expression, predicate),
            phantom: PhantomData,
        }
    }

    /// Joins with the rows `right_relation`: the pairs that satisfy
    /// `predicate`, each combined with `mapper`.
    pub fn join<R, Res, P, M>(self, right_relation: &[R], predicate: P, mapper: M) -> (b:
        ExpressionBuilder<Res, Join<S, R, Res, E, Terminal<R>, P, M>>) where
        R: Relation,
        Res: Relation,
        P: Fn(&S, &R) -> bool,
        M: Fn(&S, &R) -> Res,
        requires
            clones_exactly::<R>(),
        ensures
            b.current().left_expression == self.current(),
            b.current().right_expression@ == right_relation@,
            b.current().predicate == predicate,
            b.current().mapper == mapper,
            b.spec_eval() == join_rows(
                self.spec_eval(),
                right_relation@,
                pair_filter_of(predicate),
                pair_map_of(mapper),
            ),
            b.well_formed() == (self.well_formed() && pure_pair_predicate(predicate)
                && pure_pair_mapper(mapper)),
    {
        ExpressionBuilder {
            expression: Join::new(self.expression, Terminal::new(right_relation), predicate, mapper),
            phantom: PhantomData,
        }
    }

    /// Appends the rows `right_relation`.
    pub fn union(self, right_relation: &[S]) -> (b: ExpressionBuilder<S, Union<S, E, Terminal<S>>>)
        requires
            clones_exactly::<S>(),
        ensures
            b.current().left_expression == self.current(),
            b.current().right_expression@ == right_relation@,
            b.spec_eval() == self.spec_eval() + right_relation@,
            b.well_formed() == self.well_formed(),
    {
        ExpressionBuilder {
            expression: Union::new(self.expression, Terminal::new(right_relation)),
            phantom: PhantomData,
        }
    }

    /// Keeps the rows that also occur in `right_relation`.
    pub fn intersect(self, right_relation: &[S]) -> (b: ExpressionBuilder<
        S,
        Intersection<S, E, Terminal<S>>,
    >)
        requires
            value_semantics::<S>(),
        ensures
            b.current().left_expression == self.current(),
            b.current().right_expression@ == right_relation@,
            b.spec_eval() == self.spec_eval().filter(present_in(right_relation@)),
            b.well_formed() == self.well_formed(),
    {
        ExpressionBuilder {
            expression: Intersection::new(self.expression, Terminal::new(right_relation)),
            phantom: PhantomData,
        }
    }

    /// Pairs every row with every row of `right_relation`, each pair combined
    /// with `mapper`.
    pub fn cartesian_product<R, Res, M>(self, right_relation: &[R], mapper: M) -> (b:
        ExpressionBuilder<Res, CartesianProduct<S, R, Res, E, Terminal<R>, M>>) where
        R: Relation,
        Res: Relation,
        M: Fn(&S, &R) -> Res,
        requires
            clones_exactly::<R>(),
        ensures
            b.current().left_expression == self.current(),
            b.current().right_expression@ == right_relation@,
            b.current().mapper == mapper,
            b.spec_eval() == join_rows(
                self.spec_eval(),
                right_relation@,
                unconditional(),
                pair_map_of(mapper),
            ),
            b.well_formed() == (self.well_formed() && pure_pair_mapper(mapper)),
    {
        ExpressionBuilder {
            expression: CartesianProduct::new(self.expression, Terminal::new(right_relation), mapper),
            phantom: PhantomData,
        }
    }

    /// Evaluates the chain built so far.
    pub fn eval(&self) -> (rows: Vec<S>)
        requires
            self.well_formed(),
        ensures
            rows@ == self.spec_eval(),
    {
        self.expression.eval()
    }
}

} // verus!
