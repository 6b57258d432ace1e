use crate::{Expression, Relation};
use core::marker::PhantomData;
use vstd::prelude::*;

verus! {

/// The union of two relations of one row type: the rows of
/// `left_expression` followed by those of `right_expression`.
///
/// Bag semantics: duplicates, within one side or across the two, are kept.
pub struct Union<S, E1, E2> {
    pub left_expression: E1,
    pub right_expression: E2,
    pub phantom: PhantomData<S>,
}

impl<S, E1, E2> Union<S, E1, E2> where S: Relation, E1: Expression<S>, E2: Expression<S> {
    pub fn new(left_expression: E1, right_expression: E2) -> (u: Self)
        ensures
            u.left_expression == left_expression,
            u.right_expression == right_expression,
            u.spec_eval() == left_expression.spec_eval() + right_expression.spec_eval(),
            u.well_formed() == (left_expression.well_formed() && right_expression.well_formed()),
    {
        Union { left_expression, right_expression, phantom: PhantomData }
    }
}

impl<S, E1, E2> Expression<S> for Union<S, E1, E2> where
    S: Relation,
    E1: Expression<S>,
    E2: Expression<S>,
 {
    open spec fn spec_eval(&self) -> Seq<S> {
        self.left_expression.spec_eval() + self.right_expression.spec_eval()
    }

    open spec fn well_formed(&self) -> bool {
        &&& self.left_expression.well_formed()
        &&& self.right_expression.well_formed()
    }

    fn eval(&self) -> (rows: Vec<S>) {
        let mut left_rows = self.left_expression.eval();
        let mut right_rows = self.right_expression.eval();
        left_rows.append(&mut right_rows);
        left_rows
    }
}

} // verus!
