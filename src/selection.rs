use crate::{Expression, Relation, accepts, pure_predicate};
use core::marker::PhantomData;
use vstd::prelude::*;

verus! {

/// The row predicate `p` seen as a spec function.
pub open spec fn row_filter_of<S, P: Fn(&S) -> bool>(p: P) -> spec_fn(S) -> bool {
    |s: S| accepts(p, s)
}

/// Keeps the rows of `expression` that satisfy `predicate`, in order.
pub struct Selection<S, E, P> {
    pub expression: E,
    pub predicate: P,
    pub phantom: PhantomData<S>,
}

impl<S, E, P> Selection<S, E, P> where S: Relation, E: Expression<S>, P: Fn(&S) -> bool {
    pub fn new(expression: E, predicate: P) -> (s: Self)
        ensures
            s.expression == expression,
            s.predicate == predicate,
            s.spec_eval() == expression.spec_eval().filter(row_filter_of(predicate)),
            s.well_formed() == (expression.well_formed() && pure_predicate(predicate)),
    {
        Selection { expression, predicate, phantom: PhantomData }
    }
}

impl<S, E, P> Expression<S> for Selection<S, E, P> where
    S: Relation,
    E: Expression<S>,
    P: Fn(&S) -> bool,
 {
    open spec fn spec_eval(&self) -> Seq<S> {
        self.expression.spec_eval().filter(row_filter_of(self.predicate))
    }

    open spec fn well_formed(&self) -> bool {
        &&& self.expression.well_formed()
        &&& pure_predicate(self.predicate)
    }

    fn eval(&self) -> (rows: Vec<S>) {
        let source = self.expression.eval();
        let ghost all = source@;
        let ghost keep = row_filter_of(self.predicate);
        let mut rows: Vec<S> = Vec::new();
        for row in it: source.into_iter()
            invariant
                pure_predicate(self.predicate),
                keep == row_filter_of(self.predicate),
                it.seq() == all,
                rows@ == all.subrange(0, it.index() as int).filter(keep),
        {
            proof {
                let k = it.index() as int;
                assert(all.subrange(0, k + 1) =~= all.subrange(0, k).push(all[k]));
                all.subrange(0, k).lemma_filter_push(all[k], keep);
            }
            if (self.predicate)(&row) {
                rows.push(row);
            }
        }
        assert(all.subrange(0, all.len() as int) =~= all);
        rows
    }
}

} // verus!
