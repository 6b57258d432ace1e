use crate::{Expression, clones_exactly};
use vstd::prelude::*;

verus! {

/// The leaf of an expression tree: a fixed relation, returned as it is.
pub struct Terminal<S> {
    rows: Vec<S>,
}

impl<S> View for Terminal<S> {
    type V = Seq<S>;

    /// The rows that this terminal holds.
    closed spec fn view(&self) -> Seq<S> {
        self.rows@
    }
}

/// A fresh vector holding a copy of each row, in order.
fn copy_rows<S: Clone>(rows: &[S]) -> (copy: Vec<S>)
    requires
        clones_exactly::<S>(),
    ensures
        copy@ == rows@,
{
    let mut copy: Vec<S> = Vec::new();
    let mut i: usize = 0;
    while i < rows.len()
        invariant
            clones_exactly::<S>(),
            i <= rows@.len(),
            copy@ == rows@.subrange(0, i as int),
        decreases rows@.len() - i,
    {
        let row = rows[i].clone();
        assert(vstd::pervasive::strictly_cloned(rows@[i as int], row));
        copy.push(row);
        i += 1;
        assert(copy@ =~= rows@.subrange(0, i as int));
    }
    assert(copy@ =~= rows@);
    copy
}

impl<S: Clone> Terminal<S> {
    /// Wraps a private copy of `rows`.
    pub fn new(rows: &[S]) -> (t: Self)
        requires
            clones_exactly::<S>(),
        ensures
            t@ == rows@,
    {
        Terminal { rows: copy_rows(rows) }
    }
}

impl<S: Clone> Expression<S> for Terminal<S> {
    open spec fn spec_eval(&self) -> Seq<S> {
        self@
    }

    open spec fn well_formed(&self) -> bool {
        clones_exactly::<S>()
    }

    fn eval(&self) -> (rows: Vec<S>) {
        copy_rows(self.rows.as_slice())
    }
}

} // verus!
