//! Algebraic laws of the operators, stated over the rows that each
//! expression denotes.
use crate::{
    CartesianProduct, Expression, Intersection, Join, Projection, Relation, Selection, Terminal,
    Union, accepts, accepts_pair, image, join_rows, matches_of, pair_filter_of, present_in,
    row_filter_of, row_map_of, unconditional,
};
use vstd::prelude::*;

verus! {

/// How many rows of `rs` the row `l` forms a kept pair with.
pub open spec fn count_matches<L, R>(l: L, rs: Seq<R>, keep: spec_fn(L, R) -> bool) -> nat
    decreases rs.len(),
{
    if rs.len() == 0 {
        0
    } else {
        count_matches(l, rs.drop_last(), keep) + if keep(l, rs.last()) {
            1nat
        } else {
            0nat
        }
    }
}

/// How many pairs `(l, r)`, with `l` from `ls` and `r` from `rs`, are kept.
pub open spec fn count_pairs<L, R>(ls: Seq<L>, rs: Seq<R>, keep: spec_fn(L, R) -> bool) -> nat
    decreases ls.len(),
{
    if ls.len() == 0 {
        0
    } else {
        count_pairs(ls.drop_last(), rs, keep) + count_matches(ls.last(), rs, keep)
    }
}

proof fn lemma_filter_all<A>(s: Seq<A>, pred: spec_fn(A) -> bool)
    requires
        forall|i: int| 0 <= i < s.len() ==> pred(#[trigger] s[i]),
    ensures
        s.filter(pred) == s,
    decreases s.len(),
{
    reveal(Seq::filter);
    if s.len() > 0 {
        lemma_filter_all(s.drop_last(), pred);
        assert(s.drop_last().push(s.last()) =~= s);
    }
}

proof fn lemma_filter_none<A>(s: Seq<A>, pred: spec_fn(A) -> bool)
    requires
        forall|i: int| 0 <= i < s.len() ==> !pred(#[trigger] s[i]),
    ensures
        s.filter(pred) == Seq::<A>::empty(),
    decreases s.len(),
{
    reveal(Seq::filter);
    if s.len() > 0 {
        lemma_filter_none(s.drop_last(), pred);
    }
}

proof fn lemma_matches_len<L, R, Res>(
    l: L,
    rs: Seq<R>,
    keep: spec_fn(L, R) -> bool,
    combine: spec_fn(L, R) -> Res,
)
    ensures
        matches_of(l, rs, keep, combine).len() == count_matches(l, rs, keep),
    decreases rs.len(),
{
    if rs.len() > 0 {
        lemma_matches_len(l, rs.drop_last(), keep, combine);
        assert(rs.drop_last().push(rs.last()) =~= rs);
        rs.drop_last().lemma_filter_push(rs.last(), |r: R| keep(l, r));
    }
}

proof fn lemma_join_rows_len<L, R, Res>(
    ls: Seq<L>,
    rs: Seq<R>,
    keep: spec_fn(L, R) -> bool,
    combine: spec_fn(L, R) -> Res,
)
    ensures
        join_rows(ls, rs, keep, combine).len() == count_pairs(ls, rs, keep),
    decreases ls.len(),
{
    if ls.len() > 0 {
        lemma_join_rows_len(ls.drop_last(), rs, keep, combine);
        lemma_matches_len(ls.last(), rs, keep, combine);
    }
}

proof fn lemma_join_rows_none<L, R, Res>(
    ls: Seq<L>,
    rs: Seq<R>,
    keep: spec_fn(L, R) -> bool,
    combine: spec_fn(L, R) -> Res,
)
    requires
        forall|l: L, r: R| !#[trigger] keep(l, r),
    ensures
        join_rows(ls, rs, keep, combine) == Seq::<Res>::empty(),
    decreases ls.len(),
{
    if ls.len() > 0 {
        lemma_join_rows_none(ls.drop_last(), rs, keep, combine);
        lemma_filter_none(rs, |r: R| keep(ls.last(), r));
        assert(join_rows(ls, rs, keep, combine) =~= Seq::<Res>::empty());
    }
}

/// A terminal evaluates to exactly the rows it holds.
pub proof fn terminal_yields_its_rows<S: Clone>(t: Terminal<S>)
    ensures
        t.spec_eval() == t@,
{
}

/// A selection yields, in their order, exactly the rows of its
/// sub-expression that satisfy the predicate.
pub proof fn selection_keeps_satisfying_rows<S, E, P>(s: Selection<S, E, P>) where
    S: Relation,
    E: Expression<S>,
    P: Fn(&S) -> bool,

    ensures
        s.spec_eval() == s.expression.spec_eval().filter(row_filter_of(s.predicate)),
        forall|r: S| #[trigger]
            s.spec_eval().contains(r) <==> s.expression.spec_eval().contains(r) && accepts(
                s.predicate,
                r,
            ),
{
    let rows = s.expression.spec_eval();
    let pred = row_filter_of(s.predicate);
    assert forall|r: S| #[trigger]
        s.spec_eval().contains(r) <==> rows.contains(r) && accepts(s.predicate, r) by {
        if s.spec_eval().contains(r) {
            let i = choose|i: int| 0 <= i < s.spec_eval().len() && s.spec_eval()[i] == r;
            rows.lemma_filter_pred(pred, i);
            rows.lemma_filter_contains_rev(pred, r);
        }
        if rows.contains(r) && accepts(s.predicate, r) {
            let i = choose|i: int| 0 <= i < rows.len() && rows[i] == r;
            rows.lemma_filter_contains(pred, i);
        }
    }
}

/// A selection whose predicate holds of every row yields its sub-expression's
/// rows unchanged.
pub proof fn selection_of_always_true<S, E, P>(s: Selection<S, E, P>) where
    S: Relation,
    E: Expression<S>,
    P: Fn(&S) -> bool,

    requires
        forall|r: S| #[trigger] accepts(s.predicate, r),
    ensures
        s.spec_eval() == s.expression.spec_eval(),
{
    lemma_filter_all(s.expression.spec_eval(), row_filter_of(s.predicate));
}

/// A selection whose predicate holds of no row yields no rows.
pub proof fn selection_of_always_false<S, E, P>(s: Selection<S, E, P>) where
    S: Relation,
    E: Expression<S>,
    P: Fn(&S) -> bool,

    requires
        forall|r: S| !#[trigger] accepts(s.predicate, r),
    ensures
        s.spec_eval() == Seq::<S>::empty(),
{
    lemma_filter_none(s.expression.spec_eval(), row_filter_of(s.predicate));
}

/// A projection yields one row for each row of its sub-expression.
pub proof fn projection_keeps_length<S, T, E, M>(p: Projection<S, T, E, M>) where
    S: Relation,
    T: Relation,
    E: Expression<S>,
    M: Fn(&S) -> T,

    ensures
        p.spec_eval().len() == p.expression.spec_eval().len(),
        forall|i: int|
            0 <= i < p.spec_eval().len() ==> #[trigger] p.spec_eval()[i] == image(
                p.mapper,
                p.expression.spec_eval()[i],
            ),
{
}

/// A projection whose mapper maps every row to itself yields its
/// sub-expression's rows unchanged.
pub proof fn projection_of_identity<S, E, M>(p: Projection<S, S, E, M>) where
    S: Relation,
    E: Expression<S>,
    M: Fn(&S) -> S,

    requires
        forall|r: S| #[trigger] image(p.mapper, r) == r,
    ensures
        p.spec_eval() == p.expression.spec_eval(),
{
    assert(p.spec_eval() =~= p.expression.spec_eval());
}

/// A join yields one row for each pair of a left row and a right row that
/// satisfies the predicate.
pub proof fn join_counts_matching_pairs<L, R, Res, EL, ER, P, M>(j: Join<L, R, Res, EL, ER, P, M>) where
    L: Relation,
    R: Relation,
    Res: Relation,
    EL: Expression<L>,
    ER: Expression<R>,
    P: Fn(&L, &R) -> bool,
    M: Fn(&L, &R) -> Res,

    ensures
        j.spec_eval().len() == count_pairs(
            j.left_expression.spec_eval(),
            j.right_expression.spec_eval(),
            pair_filter_of(j.predicate),
        ),
{
    lemma_join_rows_len(
        j.left_expression.spec_eval(),
        j.right_expression.spec_eval(),
        pair_filter_of(j.predicate),
        crate::pair_map_of(j.mapper),
    );
}

/// A join whose predicate holds of no pair yields no rows.
pub proof fn join_of_always_false<L, R, Res, EL, ER, P, M>(j: Join<L, R, Res, EL, ER, P, M>) where
    L: Relation,
    R: Relation,
    Res: Relation,
    EL: Expression<L>,
    ER: Expression<R>,
    P: Fn(&L, &R) -> bool,
    M: Fn(&L, &R) -> Res,

    requires
        forall|l: L, r: R| !#[trigger] accepts_pair(j.predicate, l, r),
    ensures
        j.spec_eval() == Seq::<Res>::empty(),
{
    lemma_join_rows_none(
        j.left_expression.spec_eval(),
        j.right_expression.spec_eval(),
        pair_filter_of(j.predicate),
        crate::pair_map_of(j.mapper),
    );
}

/// The cartesian product of two expressions equals their join, with the same
/// mapper, under a predicate that holds of every pair.
pub proof fn cartesian_product_is_unconditional_join<L, R, Res, EL, ER, P, M>(
    c: CartesianProduct<L, R, Res, EL, ER, M>,
    j: Join<L, R, Res, EL, ER, P, M>,
) where
    L: Relation,
    R: Relation,
    Res: Relation,
    EL: Expression<L>,
    ER: Expression<R>,
    P: Fn(&L, &R) -> bool,
    M: Fn(&L, &R) -> Res,

    requires
        j.left_expression == c.left_expression,
        j.right_expression == c.right_expression,
        j.mapper == c.mapper,
        forall|l: L, r: R| #[trigger] accepts_pair(j.predicate, l, r),
    ensures
        c.spec_eval() == j.spec_eval(),
{
    assert(pair_filter_of(j.predicate) =~= unconditional::<L, R>());
}

/// A union yields the rows of its left side followed by those of its right
/// side, so its length is the sum of theirs.
pub proof fn union_concatenates<S, E1, E2>(u: Union<S, E1, E2>) where
    S: Relation,
    E1: Expression<S>,
    E2: Expression<S>,

    ensures
        u.spec_eval() == u.left_expression.spec_eval() + u.right_expression.spec_eval(),
        u.spec_eval().len() == u.left_expression.spec_eval().len()
            + u.right_expression.spec_eval().len(),
{
}

/// A union with an empty side yields the rows of the other side.
pub proof fn union_with_empty<S, E1, E2>(u: Union<S, E1, E2>) where
    S: Relation,
    E1: Expression<S>,
    E2: Expression<S>,

    ensures
        u.right_expression.spec_eval().len() == 0 ==> u.spec_eval()
            == u.left_expression.spec_eval(),
        u.left_expression.spec_eval().len() == 0 ==> u.spec_eval()
            == u.right_expression.spec_eval(),
{
    assert(u.right_expression.spec_eval().len() == 0 ==> u.spec_eval()
        =~= u.left_expression.spec_eval());
    assert(u.left_expression.spec_eval().len() == 0 ==> u.spec_eval()
        =~= u.right_expression.spec_eval());
}

/// Every row that an intersection yields is a row of its left side that also
/// occurs on its right side.
pub proof fn intersection_within_left<S, E1, E2>(x: Intersection<S, E1, E2>) where
    S: Relation,
    E1: Expression<S>,
    E2: Expression<S>,

    ensures
        forall|i: int|
            0 <= i < x.spec_eval().len() ==> x.left_expression.spec_eval().contains(
                #[trigger] x.spec_eval()[i],
            ) && x.right_expression.spec_eval().contains(x.spec_eval()[i]),
{
    let rows = x.left_expression.spec_eval();
    let pred = present_in(x.right_expression.spec_eval());
    assert forall|i: int| 0 <= i < x.spec_eval().len() implies rows.contains(
        #[trigger] x.spec_eval()[i],
    ) && x.right_expression.spec_eval().contains(x.spec_eval()[i]) by {
        rows.lemma_filter_pred(pred, i);
        assert(rows.filter(pred).contains(rows.filter(pred)[i]));
        rows.lemma_filter_contains_rev(pred, rows.filter(pred)[i]);
    }
}

/// An intersection with an empty right side yields no rows.
pub proof fn intersection_with_empty<S, E1, E2>(x: Intersection<S, E1, E2>) where
    S: Relation,
    E1: Expression<S>,
    E2: Expression<S>,

    requires
        x.right_expression.spec_eval().len() == 0,
    ensures
        x.spec_eval() == Seq::<S>::empty(),
{
    lemma_filter_none(x.left_expression.spec_eval(), present_in(x.right_expression.spec_eval()));
}

/// When every row of the left side occurs on the right side, an intersection
/// yields the left side's rows exactly, in order and with their multiplicity.
pub proof fn intersection_of_contained<S, E1, E2>(x: Intersection<S, E1, E2>) where
    S: Relation,
    E1: Expression<S>,
    E2: Expression<S>,

    requires
        forall|i: int|
            0 <= i < x.left_expression.spec_eval().len()
                ==> x.right_expression.spec_eval().contains(
                #[trigger] x.left_expression.spec_eval()[i],
            ),
    ensures
        x.spec_eval() == x.left_expression.spec_eval(),
{
    lemma_filter_all(x.left_expression.spec_eval(), present_in(x.right_expression.spec_eval()));
}

} // verus!
