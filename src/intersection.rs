use crate::{Expression, Relation, value_semantics};
use core::marker::PhantomData;
use vstd::prelude::*;
use vstd::std_specs::cmp::PartialEqSpec;

verus! {

/// Membership in `rs`, as a row predicate.
pub open spec fn present_in<S>(rs: Seq<S>) -> spec_fn(S) -> bool {
    |s: S| rs.contains(s)
}

proof fn lemma_row_equality<S: Relation>()
    requires
        value_semantics::<S>(),
    ensures
        S::obeys_eq_spec(),
        forall|a: S, b: S| #[trigger] a.eq_spec(&b) <==> a == b,
{
    reveal(vstd::laws_eq::obeys_concrete_eq);
}

/// Whether some row of `rows` equals `row`.
fn contains_row<S: Relation>(rows: &Vec<S>, row: &S) -> (found: bool)
    requires
        value_semantics::<S>(),
    ensures
        found == rows@.contains(*row),
{
    let mut j: usize = 0;
    while j < rows.len()
        invariant
            value_semantics::<S>(),
            j <= rows@.len(),
            forall|k: int| 0 <= k < j ==> rows@[k] != *row,
        decreases rows@.len() - j,
    {
        proof {
            lemma_row_equality::<S>();
        }
        if rows[j] == *row {
            assert(rows@[j as int] == *row);
            return true;
        }
        j += 1;
    }
    false
}

/// The rows of `left_rows`, in order and with their multiplicity, that also
/// occur somewhere in `right_rows`.
fn semi_join<S: Relation>(left_rows: &Vec<S>, right_rows: &Vec<S>) -> (rows: Vec<S>)
    requires
        value_semantics::<S>(),
    ensures
        rows@ == left_rows@.filter(present_in(right_rows@)),
{
    let ghost ls = left_rows@;
    let ghost keep = present_in(right_rows@);
    let mut rows: Vec<S> = Vec::new();
    let mut i: usize = 0;
    while i < left_rows.len()
        invariant
            value_semantics::<S>(),
            ls == left_rows@,
            keep == present_in(right_rows@),
            i <= ls.len(),
            rows@ == ls.subrange(0, i as int).filter(keep),
        decreases ls.len() - i,
    {
        proof {
            assert(ls.subrange(0, i + 1) =~= ls.subrange(0, i as int).push(ls[i as int]));
            ls.subrange(0, i as int).lemma_filter_push(ls[i as int], keep);
        }
        if contains_row(right_rows, &left_rows[i]) {
            let row = left_rows[i].clone();
            assert(vstd::pervasive::strictly_cloned(ls[i as int], row));
            rows.push(row);
        }
        i += 1;
    }
    assert(ls.subrange(0, ls.len() as int) =~= ls);
    rows
}

/// Keeps the rows of `left_expression` that also occur in
/// `right_expression`.
///
/// Each left row is tested for membership on the right and kept as it is:
/// duplicates on the left stay, and duplicates on the right add nothing.
pub struct Intersection<S, E1, E2> {
    pub left_expression: E1,
    pub right_expression: E2,
    pub phantom: PhantomData<S>,
}

impl<S, E1, E2> Intersection<S, E1, E2> where S: Relation, E1: Expression<S>, E2: Expression<S> {
    pub fn new(left_expression: E1, right_expression: E2) -> (i: Self)
        ensures
            i.left_expression == left_expression,
            i.right_expression == right_expression,
            i.spec_eval() == left_expression.spec_eval().filter(
                present_in(right_expression.spec_eval()),
            ),
            i.well_formed() == (left_expression.well_formed() && right_expression.well_formed()
                && value_semantics::<S>()),
    {
        Intersection { left_expression, right_expression, phantom: PhantomData }
    }
}

impl<S, E1, E2> Expression<S> for Intersection<S, E1, E2> where
    S: Relation,
    E1: Expression<S>,
    E2: Expression<S>,
 {
    open spec fn spec_eval(&self) -> Seq<S> {
        self.left_expression.spec_eval().filter(present_in(self.right_expression.spec_eval()))
    }

    open spec fn well_formed(&self) -> bool {
        &&& self.left_expression.well_formed()
        &&& self.right_expression.well_formed()
        &&& value_semantics::<S>()
    }

    fn eval(&self) -> (rows: Vec<S>) {
        let left_rows = self.left_expression.eval();
        let right_rows = self.right_expression.eval();
        semi_join(&left_rows, &right_rows)
    }
}

} // verus!
