use crate::join::{join_rows, nested_loop_join, pair_map_of};
use crate::{Expression, Relation, pure_pair_mapper};
use core::marker::PhantomData;
use vstd::prelude::*;

verus! {

/// The pair predicate that holds of every pair.
pub open spec fn unconditional<L, R>() -> spec_fn(L, R) -> bool {
    |l: L, r: R| true
}

/// The cartesian product of two relations: every `(left, right)` pair of
/// rows, combined into one row with `mapper`.
///
/// This is the join whose predicate always holds, and it is evaluated by the
/// same nested loop as `Join`.
pub struct CartesianProduct<L, R, Res, EL, ER, M> {
    pub left_expression: EL,
    pub right_expression: ER,
    pub mapper: M,
    pub phantom: PhantomData<(L, R, Res)>,
}

impl<L, R, Res, EL, ER, M> CartesianProduct<L, R, Res, EL, ER, M> where
    L: Relation,
    R: Relation,
    Res: Relation,
    EL: Expression<L>,
    ER: Expression<R>,
    M: Fn(&L, &R) -> Res,
 {
    pub fn new(left_expression: EL, right_expression: ER, mapper: M) -> (c: Self)
        ensures
            c.left_expression == left_expression,
            c.right_expression == right_expression,
            c.mapper == mapper,
            c.spec_eval() == join_rows(
                left_expression.spec_eval(),
                right_expression.spec_eval(),
                unconditional(),
                pair_map_of(mapper),
            ),
            c.well_formed() == (left_expression.well_formed() && right_expression.well_formed()
                && pure_pair_mapper(mapper)),
    {
        CartesianProduct { left_expression, right_expression, mapper, phantom: PhantomData }
    }
}

impl<L, R, Res, EL, ER, M> Expression<Res> for CartesianProduct<L, R, Res, EL, ER, M> where
    L: Relation,
    R: Relation,
    Res: Relation,
    EL: Expression<L>,
    ER: Expression<R>,
    M: Fn(&L, &R) -> Res,
 {
    open spec fn spec_eval(&self) -> Seq<Res> {
        join_rows(
            self.left_expression.spec_eval(),
            self.right_expression.spec_eval(),
            unconditional(),
            pair_map_of(self.mapper),
        )
    }

    open spec fn well_formed(&self) -> bool {
        &&& self.left_expression.well_formed()
        &&& self.right_expression.well_formed()
        &&& pure_pair_mapper(self.mapper)
    }

    fn eval(&self) -> (rows: Vec<Res>) {
        let always = |_l: &L, _r: &R| -> (b: bool)
            ensures
                b,
            { true };
        let left_rows = self.left_expression.eval();
        let right_rows = self.right_expression.eval();
        nested_loop_join(&left_rows, &right_rows, &always, Ghost(unconditional()), &self.mapper)
    }
}

} // verus!
