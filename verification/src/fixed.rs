//! Fixed-point arithmetic for the recommender.
//!
//! Factors, observed signals and scores are integers over the common
//! denominator [`FACTOR_SCALE`]: the integer `x` stands for the real number
//! `x / FACTOR_SCALE`.  Products round toward zero.  All magnitudes are kept
//! below fixed limits so that every exec computation provably fits its
//! machine integer; a training step that would leave the limit reports a
//! numeric-range failure instead of wrapping.

use vstd::prelude::*;

verus! {

/// Common denominator of all fixed-point values.
pub const FACTOR_SCALE: i64 = 10_000;

/// Largest magnitude a factor or tensor entry may take.
pub const FACTOR_LIMIT: i64 = 1_000_000_000;

/// Largest embedding dimension the arithmetic bounds support.
pub const MAX_FACTOR_DIM: usize = 8192;

/// Bound on a dot-product score: `MAX_FACTOR_DIM * FACTOR_LIMIT^2 / FACTOR_SCALE`
/// rounded up to a round number.
pub const SCORE_LIMIT: i64 = 900_000_000_000_000_000;

/// Bound on a per-channel error term (observed entry minus score).
pub const ERR_LIMIT: i64 = 1_000_000_000_000_000_000;

/// Division by the scale, rounding toward zero.
pub open spec fn tdiv_scale(x: int) -> int {
    if x >= 0 {
        x / (FACTOR_SCALE as int)
    } else {
        -((-x) / (FACTOR_SCALE as int))
    }
}

/// Scaled division shrinks magnitudes: a bound on `x` gives a bound on
/// `tdiv_scale(x)`.
pub proof fn lemma_tdiv_scale_bound(x: int, m: int)
    requires
        -m <= x <= m,
        0 <= m,
    ensures
        -(m / (FACTOR_SCALE as int)) <= tdiv_scale(x) <= m / (FACTOR_SCALE as int),
{
    let s = FACTOR_SCALE as int;
    if x >= 0 {
        vstd::arithmetic::div_mod::lemma_div_is_ordered(x, m, s);
        vstd::arithmetic::div_mod::lemma_div_pos_is_pos(x, s);
    } else {
        vstd::arithmetic::div_mod::lemma_div_is_ordered(-x, m, s);
        vstd::arithmetic::div_mod::lemma_div_pos_is_pos(-x, s);
    }
}

/// Exec division by the scale on wide integers, rounding toward zero.
pub fn tdiv_scale_i128(x: i128) -> (r: i128)
    ensures
        r as int == tdiv_scale(x as int),
{
    proof {
        if x < 0 {
            vstd::arithmetic::div_mod::lemma_div_pos_is_pos(-(x as int), FACTOR_SCALE as int);
            vstd::arithmetic::div_mod::lemma_div_is_ordered(
                -(x as int),
                -(i128::MIN as int),
                FACTOR_SCALE as int,
            );
        } else {
            vstd::arithmetic::div_mod::lemma_div_pos_is_pos(x as int, FACTOR_SCALE as int);
            vstd::arithmetic::div_mod::lemma_div_is_ordered(
                x as int,
                i128::MAX as int,
                FACTOR_SCALE as int,
            );
        }
    }
    match x.checked_div(FACTOR_SCALE as i128) {
        Some(q) => q,
        None => {
            proof {
                assert(false);
            }
            0
        },
    }
}

/// All entries of a row lie within the factor limit.
pub open spec fn row_bounded(r: Seq<i64>) -> bool {
    forall|i: int|
        0 <= i < r.len() ==> -FACTOR_LIMIT <= #[trigger] r[i] <= FACTOR_LIMIT
}

/// Sum of the first `n` pairwise products of two rows.
pub open spec fn sum_prod(x: Seq<i64>, y: Seq<i64>, n: int) -> int
    decreases n,
{
    if n <= 0 {
        0
    } else {
        sum_prod(x, y, n - 1) + x[n - 1] * y[n - 1]
    }
}

/// The fixed-point dot product of two rows of equal length.
pub open spec fn dot_s(x: Seq<i64>, y: Seq<i64>) -> int {
    tdiv_scale(sum_prod(x, y, x.len() as int))
}

/// The dot product of two bounded rows, exactly as `dot_s` states it.
pub fn dot(x: &Vec<i64>, y: &Vec<i64>) -> (r: i64)
    requires
        x@.len() == y@.len(),
        x@.len() <= MAX_FACTOR_DIM,
        row_bounded(x@),
        row_bounded(y@),
    ensures
        r == dot_s(x@, y@),
        -SCORE_LIMIT <= r <= SCORE_LIMIT,
{
    let n = x.len();
    let mut acc: i128 = 0;
    let mut i: usize = 0;
    while i < n
        invariant
            0 <= i <= n,
            n == x@.len() == y@.len(),
            n <= MAX_FACTOR_DIM,
            row_bounded(x@),
            row_bounded(y@),
            acc as int == sum_prod(x@, y@, i as int),
            -(i as int) * 1_000_000_000_000_000_000 <= acc as int <= (i as int)
                * 1_000_000_000_000_000_000,
        decreases n - i,
    {
        proof {
            assert(-1_000_000_000_000_000_000 <= (x@[i as int] as int) * (y@[i as int] as int)
                <= 1_000_000_000_000_000_000) by (nonlinear_arith)
                requires
                    -FACTOR_LIMIT <= x@[i as int] <= FACTOR_LIMIT,
                    -FACTOR_LIMIT <= y@[i as int] <= FACTOR_LIMIT,
            ;
            assert((i as int) * 1_000_000_000_000_000_000 <= 8192
                * 1_000_000_000_000_000_000int) by (nonlinear_arith)
                requires
                    0 <= i <= 8192,
            ;
            assert(((i + 1) as int) * 1_000_000_000_000_000_000 == (i as int)
                * 1_000_000_000_000_000_000 + 1_000_000_000_000_000_000) by (nonlinear_arith);
        }
        let p: i128 = (x[i] as i128) * (y[i] as i128);
        acc = acc + p;
        i = i + 1;
    }
    proof {
        assert((n as int) * 1_000_000_000_000_000_000 <= 8192 * 1_000_000_000_000_000_000int)
            by (nonlinear_arith)
            requires
                0 <= n <= 8192,
        ;
        lemma_tdiv_scale_bound(acc as int, 8192 * 1_000_000_000_000_000_000int);
    }
    let q = tdiv_scale_i128(acc);
    q as i64
}

/// The gradient-descent update of one factor: the old value plus
/// `alpha * (err * other - lambda * cur)`, every product taken at fixed
/// point.
pub open spec fn upd_val(cur: int, other: int, err: int, alpha: int, lambda: int) -> int {
    cur + tdiv_scale(alpha * (tdiv_scale(err * other) - tdiv_scale(lambda * cur)))
}

/// Whether a candidate factor value is within the representable band.
pub open spec fn in_limit(v: int) -> bool {
    -(FACTOR_LIMIT as int) <= v <= FACTOR_LIMIT as int
}

/// One factor update; `None` reports a value that left the factor band,
/// the recommender's analogue of numeric blow-up.
pub fn update_value(cur: i64, other: i64, err: i64, alpha: i64, lambda: i64) -> (r: Option<i64>)
    requires
        -FACTOR_LIMIT <= cur <= FACTOR_LIMIT,
        -FACTOR_LIMIT <= other <= FACTOR_LIMIT,
        -ERR_LIMIT <= err <= ERR_LIMIT,
        0 <= alpha <= FACTOR_SCALE,
        0 <= lambda <= FACTOR_SCALE,
    ensures
        ({
            let nv = upd_val(cur as int, other as int, err as int, alpha as int, lambda as int);
            if in_limit(nv) {
                r == Some(nv as i64)
            } else {
                r == None::<i64>
            }
        }),
{
    proof {
        assert(-1_000_000_000_000_000_000_000_000_000 <= (err as int) * (other as int)
            <= 1_000_000_000_000_000_000_000_000_000) by (nonlinear_arith)
            requires
                -ERR_LIMIT <= err <= ERR_LIMIT,
                -FACTOR_LIMIT <= other <= FACTOR_LIMIT,
        ;
    }
    let t1: i128 = (err as i128) * (other as i128);
    let d1: i128 = tdiv_scale_i128(t1);
    proof {
        lemma_tdiv_scale_bound(t1 as int, 1_000_000_000_000_000_000_000_000_000int);
    }
    proof {
        assert(-10_000_000_000_000 <= (lambda as int) * (cur as int) <= 10_000_000_000_000)
            by (nonlinear_arith)
            requires
                0 <= lambda <= FACTOR_SCALE,
                -FACTOR_LIMIT <= cur <= FACTOR_LIMIT,
        ;
    }
    let t2: i128 = (lambda as i128) * (cur as i128);
    let d2: i128 = tdiv_scale_i128(t2);
    proof {
        lemma_tdiv_scale_bound(t2 as int, 10_000_000_000_000int);
    }
    let g: i128 = d1 - d2;
    proof {
        assert(-2_000_000_000_000_000_000_000_000_000 <= (alpha as int) * (g as int)
            <= 2_000_000_000_000_000_000_000_000_000) by (nonlinear_arith)
            requires
                0 <= alpha <= 10_000,
                -200_000_000_000_000_000_000_000 <= g as int <= 200_000_000_000_000_000_000_000,
        ;
    }
    let t3: i128 = (alpha as i128) * g;
    let d3: i128 = tdiv_scale_i128(t3);
    proof {
        lemma_tdiv_scale_bound(t3 as int, 2_000_000_000_000_000_000_000_000_000int);
    }
    let nv: i128 = (cur as i128) + d3;
    if -FACTOR_LIMIT as i128 <= nv && nv <= FACTOR_LIMIT as i128 {
        Some(nv as i64)
    } else {
        None
    }
}

} // verus!
