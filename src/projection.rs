use crate::{Expression, Relation, image, pure_mapper};
use core::marker::PhantomData;
use vstd::prelude::*;

verus! {

/// The mapper `m` seen as a spec function.
pub open spec fn row_map_of<S, T, M: Fn(&S) -> T>(m: M) -> spec_fn(S) -> T {
    |s: S| image(m, s)
}

/// Maps every row of `expression` to a new row with `mapper`, in order.
///
/// This is a generalized projection: besides picking columns, the mapper may
/// build rows of any other type, which is how a chain changes its row type.
pub struct Projection<S, T, E, M> {
    pub expression: E,
    pub mapper: M,
    pub phantom: PhantomData<(S, T)>,
}

impl<S, T, E, M> Projection<S, T, E, M> where
    S: Relation,
    T: Relation,
    E: Expression<S>,
    M: Fn(&S) -> T,
 {
    pub fn new(expression: E, mapper: M) -> (p: Self)
        ensures
            p.expression == expression,
            p.mapper == mapper,
            p.spec_eval() == expression.spec_eval().map_values(row_map_of(mapper)),
            p.well_formed() == (expression.well_formed() && pure_mapper(mapper)),
    {
        Projection { expression, mapper, phantom: PhantomData }
    }
}

impl<S, T, E, M> Expression<T> for Projection<S, T, E, M> where
    S: Relation,
    T: Relation,
    E: Expression<S>,
    M: Fn(&S) -> T,
 {
    open spec fn spec_eval(&self) -> Seq<T> {
        self.expression.spec_eval().map_values(row_map_of(self.mapper))
    }

    open spec fn well_formed(&self) -> bool {
        &&& self.expression.well_formed()
        &&& pure_mapper(self.mapper)
    }

    fn eval(&self) -> (rows: Vec<T>) {
        let source = self.expression.eval();
        let mut rows: Vec<T> = Vec::new();
        let mut i: usize = 0;
        while i < source.len()
            invariant
                pure_mapper(self.mapper),
                i <= source@.len(),
                rows@ == source@.subrange(0, i as int).map_values(row_map_of(self.mapper)),
            decreases source@.len() - i,
        {
            let row = (self.mapper)(&source[i]);
            rows.push(row);
            i += 1;
            assert(rows@ =~= source@.subrange(0, i as int).map_values(row_map_of(self.mapper)));
        }
        assert(source@.subrange(0, source@.len() as int) =~= source@);
        rows
    }
}

} // verus!
