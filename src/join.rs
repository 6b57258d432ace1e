use crate::{Expression, Relation, accepts_pair, image_pair, pure_pair_mapper, pure_pair_predicate};
use core::marker::PhantomData;
use vstd::prelude::*;

verus! {

/// The pair predicate `p` seen as a spec function.
pub open spec fn pair_filter_of<L, R, P: Fn(&L, &R) -> bool>(p: P) -> spec_fn(L, R) -> bool {
    |l: L, r: R| accepts_pair(p, l, r)
}

/// The pair mapper `m` seen as a spec function.
pub open spec fn pair_map_of<L, R, Res, M: Fn(&L, &R) -> Res>(m: M) -> spec_fn(L, R) -> Res {
    |l: L, r: R| image_pair(m, l, r)
}

/// The rows that the left row `l` contributes to a join: for each row `r` of
/// `rs` in order with `keep(l, r)`, the row `combine(l, r)`.
pub open spec fn matches_of<L, R, Res>(
    l: L,
    rs: Seq<R>,
    keep: spec_fn(L, R) -> bool,
    combine: spec_fn(L, R) -> Res,
) -> Seq<Res> {
    rs.filter(|r: R| keep(l, r)).map_values(|r: R| combine(l, r))
}

/// The rows of a join, left-major: the contributions of the rows of `ls`,
/// one after the other in the order of `ls`.
pub open spec fn join_rows<L, R, Res>(
    ls: Seq<L>,
    rs: Seq<R>,
    keep: spec_fn(L, R) -> bool,
    combine: spec_fn(L, R) -> Res,
) -> Seq<Res>
    decreases ls.len(),
{
    if ls.len() == 0 {
        Seq::empty()
    } else {
        join_rows(ls.drop_last(), rs, keep, combine) + matches_of(ls.last(), rs, keep, combine)
    }
}

/// The pair predicate `p` is defined on every pair and answers `keep(l, r)`
/// on the pair `(l, r)`.
pub open spec fn answers_as<L, R, P: Fn(&L, &R) -> bool>(p: P, keep: spec_fn(L, R) -> bool) -> bool {
    &&& forall|l: L, r: R| #[trigger] call_requires(p, (&l, &r))
    &&& forall|l: L, r: R, b: bool| #[trigger] call_ensures(p, (&l, &r), b) ==> b == keep(l, r)
}

proof fn lemma_matches_of_push<L, R, Res>(
    l: L,
    rs: Seq<R>,
    x: R,
    keep: spec_fn(L, R) -> bool,
    combine: spec_fn(L, R) -> Res,
)
    ensures
        matches_of(l, rs.push(x), keep, combine) == if keep(l, x) {
            matches_of(l, rs, keep, combine).push(combine(l, x))
        } else {
            matches_of(l, rs, keep, combine)
        },
{
    rs.lemma_filter_push(x, |r: R| keep(l, r));
    assert(matches_of(l, rs.push(x), keep, combine) =~= if keep(l, x) {
        matches_of(l, rs, keep, combine).push(combine(l, x))
    } else {
        matches_of(l, rs, keep, combine)
    });
}

/// Nested-loop join of two materialized relations: for every left row in
/// order, for every right row in order, where `predicate` holds, `mapper` of
/// the pair. `keep` is what `predicate` answers on each pair.
pub(crate) fn nested_loop_join<L, R, Res, P, M>(
    left_rows: &Vec<L>,
    right_rows: &Vec<R>,
    predicate: &P,
    keep: Ghost<spec_fn(L, R) -> bool>,
    mapper: &M,
) -> (rows: Vec<Res>) where P: Fn(&L, &R) -> bool, M: Fn(&L, &R) -> Res
    requires
        answers_as(*predicate, keep@),
        pure_pair_mapper(*mapper),
    ensures
        rows@ == join_rows(left_rows@, right_rows@, keep@, pair_map_of(*mapper)),
{
    let ghost ls = left_rows@;
    let ghost rs = right_rows@;
    let ghost keep = keep@;
    let ghost combine = pair_map_of(*mapper);
    let mut rows: Vec<Res> = Vec::new();
    let mut i: usize = 0;
    while i < left_rows.len()
        invariant
            answers_as(*predicate, keep),
            pure_pair_mapper(*mapper),
            ls == left_rows@,
            rs == right_rows@,
            combine == pair_map_of(*mapper),
            i <= ls.len(),
            rows@ == join_rows(ls.subrange(0, i as int), rs, keep, combine),
        decreases ls.len() - i,
    {
        let ghost before = rows@;
        let left = &left_rows[i];
        let mut j: usize = 0;
        while j < right_rows.len()
            invariant
                answers_as(*predicate, keep),
                pure_pair_mapper(*mapper),
                ls == left_rows@,
                rs == right_rows@,
                combine == pair_map_of(*mapper),
                i < ls.len(),
                *left == ls[i as int],
                j <= rs.len(),
                rows@ == before + matches_of(ls[i as int], rs.subrange(0, j as int), keep, combine),
            decreases rs.len() - j,
        {
            let right = &right_rows[j];
            proof {
                assert(rs.subrange(0, j + 1) =~= rs.subrange(0, j as int).push(rs[j as int]));
                lemma_matches_of_push(ls[i as int], rs.subrange(0, j as int), rs[j as int], keep, combine);
            }
            if predicate(left, right) {
                let row = mapper(left, right);
                rows.push(row);
            }
            j += 1;
        }
        proof {
            assert(rs.subrange(0, rs.len() as int) =~= rs);
            assert(ls.subrange(0, i + 1).drop_last() =~= ls.subrange(0, i as int));
        }
        i += 1;
    }
    assert(ls.subrange(0, ls.len() as int) =~= ls);
    rows
}

/// Keeps the `(left, right)` pairs of rows that satisfy `predicate`, and
/// combines each into one row with `mapper`.
pub struct Join<L, R, Res, EL, ER, P, M> {
    pub left_expression: EL,
    pub right_expression: ER,
    pub predicate: P,
    pub mapper: M,
    pub phantom: PhantomData<(L, R, Res)>,
}

impl<L, R, Res, EL, ER, P, M> Join<L, R, Res, EL, ER, P, M> where
    L: Relation,
    R: Relation,
    Res: Relation,
    EL: Expression<L>,
    ER: Expression<R>,
    P: Fn(&L, &R) -> bool,
    M: Fn(&L, &R) -> Res,
 {
    pub fn new(left_expression: EL, right_expression: ER, predicate: P, mapper: M) -> (j: Self)
        ensures
            j.left_expression == left_expression,
            j.right_expression == right_expression,
            j.predicate == predicate,
            j.mapper == mapper,
            j.spec_eval() == join_rows(
                left_expression.spec_eval(),
                right_expression.spec_eval(),
                pair_filter_of(predicate),
                pair_map_of(mapper),
            ),
            j.well_formed() == (left_expression.well_formed() && right_expression.well_formed()
                && pure_pair_predicate(predicate) && pure_pair_mapper(mapper)),
    {
        Join { left_expression, right_expression, predicate, mapper, phantom: PhantomData }
    }
}

impl<L, R, Res, EL, ER, P, M> Expression<Res> for Join<L, R, Res, EL, ER, P, M> where
    L: Relation,
    R: Relation,
    Res: Relation,
    EL: Expression<L>,
    ER: Expression<R>,
    P: Fn(&L, &R) -> bool,
    M: Fn(&L, &R) -> Res,
 {
    open spec fn spec_eval(&self) -> Seq<Res> {
        join_rows(
            self.left_expression.spec_eval(),
            self.right_expression.spec_eval(),
            pair_filter_of(self.predicate),
            pair_map_of(self.mapper),
        )
    }

    open spec fn well_formed(&self) -> bool {
        &&& self.left_expression.well_formed()
        &&& self.right_expression.well_formed()
        &&& pure_pair_predicate(self.predicate)
        &&& pure_pair_mapper(self.mapper)
    }

    fn eval(&self) -> (rows: Vec<Res>) {
        let left_rows = self.left_expression.eval();
        let right_rows = self.right_expression.eval();
        nested_loop_join(
            &left_rows,
            &right_rows,
            &self.predicate,
            Ghost(pair_filter_of(self.predicate)),
            &self.mapper,
        )
    }
}

} // verus!
