//! The matrix-factorization recommender.
//!
//! The model holds a user factor matrix `U` of shape `(n_users, k)`, a post
//! factor matrix `V` of shape `(n_posts, k)` and an observed-interaction
//! tensor `A` of shape `(n_users, n_posts, observations)`, all over dense
//! indices handed out by two [`IdIndexer`]s.  Entries are fixed-point
//! numbers (see [`crate::fixed`]).  Hyperparameters are set once at
//! construction and never change.

use vstd::prelude::*;

use crate::errors::RecError;
use crate::fixed::dot;
use crate::fixed::dot_s;
use crate::fixed::in_limit;
use crate::fixed::row_bounded;
use crate::fixed::upd_val;
use crate::fixed::update_value;
use crate::fixed::ERR_LIMIT;
use crate::fixed::FACTOR_LIMIT;
use crate::fixed::FACTOR_SCALE;
use crate::fixed::MAX_FACTOR_DIM;
use crate::indexer::seq_contains;
use crate::indexer::seq_distinct;
use crate::indexer::seq_index_of;
use crate::indexer::IdIndexer;
use crate::models::interactions_matrix_model::InteractionsMatrixModel;

verus! {

/// The view of a factor matrix: its rows as sequences.
pub open spec fn rows_view(m: Seq<Vec<i64>>) -> Seq<Seq<i64>> {
    m.map_values(|r: Vec<i64>| r@)
}

/// The view of the interaction tensor: rows of rows of channel cells.
pub open spec fn tensor_view(a: Seq<Vec<Vec<i64>>>) -> Seq<Seq<Seq<i64>>> {
    a.map_values(|p: Vec<Vec<i64>>| rows_view(p@))
}

/// Every row of the matrix has length `k` and entries within the factor
/// band.
pub open spec fn matrix_wf(m: Seq<Seq<i64>>, k: nat) -> bool {
    forall|i: int|
        0 <= i < m.len() ==> (#[trigger] m[i]).len() == k && row_bounded(m[i])
}

/// The tensor has `np` posts per user, `s` channels per cell, and bounded
/// entries.
pub open spec fn tensor_wf(a: Seq<Seq<Seq<i64>>>, np: nat, s: nat) -> bool {
    forall|i: int|
        0 <= i < a.len() ==> matrix_wf(#[trigger] a[i], s) && a[i].len() == np
}

/// Every entry of a freshly drawn row lies in `[0, FACTOR_SCALE)`: the
/// fixed-point image of the unit interval.
pub open spec fn unit_row(r: Seq<i64>) -> bool {
    forall|i: int| 0 <= i < r.len() ==> 0 <= #[trigger] r[i] < FACTOR_SCALE
}

/// A row of zeroes.
pub open spec fn zero_seq(n: nat) -> Seq<i64> {
    Seq::new(n, |i: int| 0i64)
}

/// A zero plane: `np` rows of `s` zeroes, one fresh slice of the tensor.
pub open spec fn zero_plane_seq(np: nat, s: nat) -> Seq<Seq<i64>> {
    Seq::new(np, |i: int| zero_seq(s))
}

/// Relies on rand's `thread_rng` and `Rng::gen_range`: a fresh uniform
/// draw from `[0, FACTOR_SCALE)`.  Nothing is promised beyond the range;
/// two calls may differ.
#[verifier::external_body]
fn random_factor() -> (r: i64)
    ensures
        0 <= r < FACTOR_SCALE,
{
    rand::Rng::gen_range(&mut rand::thread_rng(), 0i64..FACTOR_SCALE)
}

/// A freshly initialized factor row: `k` uniform draws from the unit
/// interval, breaking symmetry for gradient descent.
fn random_row(k: usize) -> (r: Vec<i64>)
    ensures
        r@.len() == k,
        unit_row(r@),
        row_bounded(r@),
{
    let mut row: Vec<i64> = Vec::new();
    let mut i: usize = 0;
    while i < k
        invariant
            0 <= i <= k,
            row@.len() == i,
            unit_row(row@),
        decreases k - i,
    {
        row.push(random_factor());
        i = i + 1;
    }
    row
}

/// A row of `n` zeroes.
fn zero_row(n: usize) -> (r: Vec<i64>)
    ensures
        r@ == zero_seq(n as nat),
{
    let mut row: Vec<i64> = Vec::new();
    let mut i: usize = 0;
    while i < n
        invariant
            0 <= i <= n,
            row@.len() == i,
            forall|j: int| 0 <= j < i ==> row@[j] == 0i64,
        decreases n - i,
    {
        row.push(0i64);
        i = i + 1;
    }
    proof {
        assert(row@ =~= zero_seq(n as nat));
    }
    row
}

/// A fresh all-zero tensor slice: `np` cells of `s` channels.
fn zero_plane(np: usize, s: usize) -> (r: Vec<Vec<i64>>)
    ensures
        rows_view(r@) == zero_plane_seq(np as nat, s as nat),
{
    let mut plane: Vec<Vec<i64>> = Vec::new();
    let mut i: usize = 0;
    while i < np
        invariant
            0 <= i <= np,
            plane@.len() == i,
            forall|j: int| 0 <= j < i ==> #[trigger] plane@[j]@ == zero_seq(s as nat),
        decreases np - i,
    {
        plane.push(zero_row(s));
        i = i + 1;
    }
    proof {
        assert(rows_view(plane@) =~= zero_plane_seq(np as nat, s as nat));
    }
    plane
}

/// A zero tensor: `nu` slices of `np` cells of `s` channels.
pub open spec fn zero_tensor_seq(nu: nat, np: nat, s: nat) -> Seq<Seq<Seq<i64>>> {
    Seq::new(nu, |i: int| zero_plane_seq(np, s))
}

/// A freshly initialized factor matrix: `n` rows of `k` uniform draws.
fn random_matrix(n: usize, k: usize) -> (r: Vec<Vec<i64>>)
    ensures
        r@.len() == n,
        forall|i: int|
            0 <= i < n ==> (#[trigger] r@[i])@.len() == k && unit_row(r@[i]@) && row_bounded(
                r@[i]@,
            ),
{
    let mut out: Vec<Vec<i64>> = Vec::new();
    let mut i: usize = 0;
    while i < n
        invariant
            0 <= i <= n,
            out@.len() == i,
            forall|j: int|
                0 <= j < i ==> (#[trigger] out@[j])@.len() == k && unit_row(out@[j]@)
                    && row_bounded(out@[j]@),
        decreases n - i,
    {
        out.push(random_row(k));
        i = i + 1;
    }
    out
}

/// A zero tensor of the given shape.
fn zero_tensor(nu: usize, np: usize, s: usize) -> (r: Vec<Vec<Vec<i64>>>)
    ensures
        tensor_view(r@) == zero_tensor_seq(nu as nat, np as nat, s as nat),
{
    let mut out: Vec<Vec<Vec<i64>>> = Vec::new();
    let mut i: usize = 0;
    while i < nu
        invariant
            0 <= i <= nu,
            out@.len() == i,
            forall|j: int|
                0 <= j < i ==> #[trigger] rows_view(out@[j]@) == zero_plane_seq(
                    np as nat,
                    s as nat,
                ),
        decreases nu - i,
    {
        out.push(zero_plane(np, s));
        i = i + 1;
    }
    proof {
        assert(tensor_view(out@) =~= zero_tensor_seq(nu as nat, np as nat, s as nat));
    }
    out
}

/// Builds an indexer over the given ids; `None` reports a duplicate.
fn indexer_from_ids(ids: &Vec<i64>) -> (r: Option<IdIndexer>)
    ensures
        r is Some <==> seq_distinct(ids@),
        r matches Some(ix) ==> ix@ == ids@ && ix.wf(),
{
    let n = ids.len();
    let mut ix = IdIndexer::new();
    let mut i: usize = 0;
    while i < n
        invariant
            0 <= i <= n,
            n == ids@.len(),
            ix.wf(),
            ix@ == ids@.take(i as int),
        decreases n - i,
    {
        if ix.contains(ids[i]) {
            proof {
                let w = choose|t: int| 0 <= t < ix@.len() && ix@[t] == ids@[i as int];
                assert(ids@[w] == ids@[i as int]);
                assert(!seq_distinct(ids@));
            }
            return None;
        }
        ix.insert(ids[i]);
        proof {
            assert(ix@ =~= ids@.take(i + 1));
        }
        i = i + 1;
    }
    proof {
        assert(ix@ =~= ids@);
    }
    Some(ix)
}

/// Whether one factor row has length `k` and entries within the factor
/// band.
fn check_row(r: &Vec<i64>, k: usize) -> (ok: bool)
    ensures
        ok == (r@.len() == k && row_bounded(r@)),
{
    if r.len() != k {
        return false;
    }
    let n = r.len();
    let mut i: usize = 0;
    while i < n
        invariant
            0 <= i <= n,
            n == r@.len(),
            forall|j: int| 0 <= j < i ==> -FACTOR_LIMIT <= #[trigger] r@[j] <= FACTOR_LIMIT,
        decreases n - i,
    {
        let e = r[i];
        if e < -FACTOR_LIMIT || e > FACTOR_LIMIT {
            return false;
        }
        i = i + 1;
    }
    true
}

/// Whether every row of the matrix has length `k` and bounded entries.
fn check_matrix(m: &Vec<Vec<i64>>, k: usize) -> (ok: bool)
    ensures
        ok == matrix_wf(rows_view(m@), k as nat),
{
    let n = m.len();
    let mut i: usize = 0;
    while i < n
        invariant
            0 <= i <= n,
            n == m@.len(),
            forall|j: int|
                0 <= j < i ==> (#[trigger] rows_view(m@)[j]).len() == k && row_bounded(
                    rows_view(m@)[j],
                ),
        decreases n - i,
    {
        if !check_row(&m[i], k) {
            proof {
                assert(rows_view(m@)[i as int] == m@[i as int]@);
            }
            return false;
        }
        proof {
            assert(rows_view(m@)[i as int] == m@[i as int]@);
        }
        i = i + 1;
    }
    true
}

/// Whether the tensor has `np` cells per slice and `s` bounded channel
/// values per cell.
fn check_tensor(a: &Vec<Vec<Vec<i64>>>, np: usize, s: usize) -> (ok: bool)
    ensures
        ok == tensor_wf(tensor_view(a@), np as nat, s as nat),
{
    let n = a.len();
    let mut i: usize = 0;
    while i < n
        invariant
            0 <= i <= n,
            n == a@.len(),
            forall|j: int|
                0 <= j < i ==> matrix_wf(#[trigger] tensor_view(a@)[j], s as nat)
                    && tensor_view(a@)[j].len() == np,
        decreases n - i,
    {
        let plane = &a[i];
        if plane.len() != np {
            proof {
                assert(tensor_view(a@)[i as int] == rows_view(a@[i as int]@));
            }
            return false;
        }
        if !check_matrix(plane, s) {
            proof {
                assert(tensor_view(a@)[i as int] == rows_view(a@[i as int]@));
            }
            return false;
        }
        proof {
            assert(tensor_view(a@)[i as int] == rows_view(a@[i as int]@));
        }
        i = i + 1;
    }
    true
}

/// One gradient step over the first `j` factors of a (user, post) row
/// pair, with the error snapshot `err`.  The user factor is updated first;
/// the post factor update reads the already-updated user factor, exactly
/// as the training loop performs it.  `None` reports a factor leaving the
/// representable band.
pub open spec fn row_step(
    ur: Seq<i64>,
    vr: Seq<i64>,
    err: int,
    alpha: int,
    lambda: int,
    j: nat,
) -> Option<(Seq<i64>, Seq<i64>)>
    decreases j,
{
    if j == 0 {
        Some((ur, vr))
    } else {
        match row_step(ur, vr, err, alpha, lambda, (j - 1) as nat) {
            Option::None => None,
            Option::Some(p) => {
                let f = j - 1;
                let nu = upd_val(p.0[f] as int, p.1[f] as int, err, alpha, lambda);
                if !in_limit(nu) {
                    None
                } else {
                    let nv = upd_val(p.1[f] as int, nu, err, alpha, lambda);
                    if !in_limit(nv) {
                        None
                    } else {
                        Some((p.0.update(f, nu as i64), p.1.update(f, nv as i64)))
                    }
                }
            },
        }
    }
}

/// One full gradient step of a (user, post) pair against one observed
/// value: the error is snapshotted from the current rows, then every
/// factor is updated.
pub open spec fn channel_step(ur: Seq<i64>, vr: Seq<i64>, a_val: i64, alpha: int, lambda: int) -> Option<
    (Seq<i64>, Seq<i64>),
> {
    row_step(ur, vr, a_val - dot_s(ur, vr), alpha, lambda, ur.len())
}

/// Gradient steps of a (user, post) pair over its first `c` observed
/// channels, in channel order.
pub open spec fn cell_step(ur: Seq<i64>, vr: Seq<i64>, cell: Seq<i64>, alpha: int, lambda: int, c: nat) -> Option<
    (Seq<i64>, Seq<i64>),
>
    decreases c,
{
    if c == 0 {
        Some((ur, vr))
    } else {
        match cell_step(ur, vr, cell, alpha, lambda, (c - 1) as nat) {
            Option::None => None,
            Option::Some(p) => channel_step(p.0, p.1, cell[c - 1], alpha, lambda),
        }
    }
}

/// Gradient steps of one user against the first `p` posts, in post order:
/// the user row is threaded through, each post row is updated in place.
pub open spec fn post_step(
    ur: Seq<i64>,
    v: Seq<Seq<i64>>,
    a_row: Seq<Seq<i64>>,
    alpha: int,
    lambda: int,
    p: nat,
) -> Option<(Seq<i64>, Seq<Seq<i64>>)>
    decreases p,
{
    if p == 0 {
        Some((ur, v))
    } else {
        match post_step(ur, v, a_row, alpha, lambda, (p - 1) as nat) {
            Option::None => None,
            Option::Some(st) => {
                let pi = p - 1;
                match cell_step(st.0, st.1[pi], a_row[pi], alpha, lambda, a_row[pi].len()) {
                    Option::None => None,
                    Option::Some(q) => Some((q.0, st.1.update(pi, q.1))),
                }
            },
        }
    }
}

/// Gradient steps of the first `uc` users, in user order.
pub open spec fn user_step(
    u: Seq<Seq<i64>>,
    v: Seq<Seq<i64>>,
    a: Seq<Seq<Seq<i64>>>,
    alpha: int,
    lambda: int,
    uc: nat,
) -> Option<(Seq<Seq<i64>>, Seq<Seq<i64>>)>
    decreases uc,
{
    if uc == 0 {
        Some((u, v))
    } else {
        match user_step(u, v, a, alpha, lambda, (uc - 1) as nat) {
            Option::None => None,
            Option::Some(st) => {
                let ui = uc - 1;
                match post_step(st.0[ui], st.1, a[ui], alpha, lambda, st.1.len()) {
                    Option::None => None,
                    Option::Some(q) => Some((st.0.update(ui, q.0), q.1)),
                }
            },
        }
    }
}

/// One epoch: a full pass over every user.
pub open spec fn epoch_step(
    u: Seq<Seq<i64>>,
    v: Seq<Seq<i64>>,
    a: Seq<Seq<Seq<i64>>>,
    alpha: int,
    lambda: int,
) -> Option<(Seq<Seq<i64>>, Seq<Seq<i64>>)> {
    user_step(u, v, a, alpha, lambda, u.len())
}

/// `e` epochs of training, epoch after epoch.
pub open spec fn train_steps(
    u: Seq<Seq<i64>>,
    v: Seq<Seq<i64>>,
    a: Seq<Seq<Seq<i64>>>,
    alpha: int,
    lambda: int,
    e: nat,
) -> Option<(Seq<Seq<i64>>, Seq<Seq<i64>>)>
    decreases e,
{
    if e == 0 {
        Some((u, v))
    } else {
        match train_steps(u, v, a, alpha, lambda, (e - 1) as nat) {
            Option::None => None,
            Option::Some(st) => epoch_step(st.0, st.1, a, alpha, lambda),
        }
    }
}

/// A verbatim copy of one factor row.
fn copy_row(m: &Vec<i64>) -> (r: Vec<i64>)
    ensures
        r@ == m@,
{
    let n = m.len();
    let mut row: Vec<i64> = Vec::new();
    let mut i: usize = 0;
    while i < n
        invariant
            0 <= i <= n,
            n == m@.len(),
            row@.len() == i,
            forall|j: int| 0 <= j < i ==> row@[j] == m@[j],
        decreases n - i,
    {
        row.push(m[i]);
        i = i + 1;
    }
    proof {
        assert(row@ =~= m@);
    }
    row
}

/// A verbatim copy of a factor matrix.
fn copy_matrix(m: &Vec<Vec<i64>>) -> (r: Vec<Vec<i64>>)
    ensures
        rows_view(r@) == rows_view(m@),
{
    let n = m.len();
    let mut out: Vec<Vec<i64>> = Vec::new();
    let mut i: usize = 0;
    while i < n
        invariant
            0 <= i <= n,
            n == m@.len(),
            out@.len() == i,
            forall|j: int| 0 <= j < i ==> #[trigger] out@[j]@ == m@[j]@,
        decreases n - i,
    {
        out.push(copy_row(&m[i]));
        i = i + 1;
    }
    proof {
        assert(rows_view(out@) =~= rows_view(m@));
    }
    out
}

/// Updates the first `j` factors of one row pair, mirroring `row_step`.
fn train_rows(ur: Vec<i64>, vr: Vec<i64>, err: i64, alpha: i64, lambda: i64, j: usize) -> (r:
    Result<(Vec<i64>, Vec<i64>), RecError>)
    requires
        j <= ur@.len(),
        ur@.len() == vr@.len(),
        row_bounded(ur@),
        row_bounded(vr@),
        -ERR_LIMIT <= err <= ERR_LIMIT,
        0 <= alpha <= FACTOR_SCALE,
        0 <= lambda <= FACTOR_SCALE,
    ensures
        ({
            let step = row_step(ur@, vr@, err as int, alpha as int, lambda as int, j as nat);
            match step {
                Option::Some(p) => r matches Ok(q) && q.0@ == p.0 && q.1@ == p.1 && q.0@.len()
                    == ur@.len() && q.1@.len() == vr@.len() && row_bounded(q.0@) && row_bounded(
                    q.1@,
                ),
                Option::None => r == Err::<(Vec<i64>, Vec<i64>), RecError>(
                    RecError::NumericOverflow,
                ),
            }
        }),
    decreases j,
{
    if j == 0 {
        Ok((ur, vr))
    } else {
        let (mut ur2, mut vr2) = match train_rows(ur, vr, err, alpha, lambda, j - 1) {
            Ok(p) => p,
            Err(e) => {
                return Err(e);
            },
        };
        let f = j - 1;
        let nu = match update_value(ur2[f], vr2[f], err, alpha, lambda) {
            Option::Some(nu) => nu,
            Option::None => {
                return Err(RecError::NumericOverflow);
            },
        };
        ur2.set(f, nu);
        let nv = match update_value(vr2[f], nu, err, alpha, lambda) {
            Option::Some(nv) => nv,
            Option::None => {
                return Err(RecError::NumericOverflow);
            },
        };
        vr2.set(f, nv);
        Ok((ur2, vr2))
    }
}

/// Updates one row pair against the first `c` channels of one observed
/// cell, mirroring `cell_step`.
fn train_cell(ur: Vec<i64>, vr: Vec<i64>, cell: &Vec<i64>, alpha: i64, lambda: i64, c: usize) -> (r:
    Result<(Vec<i64>, Vec<i64>), RecError>)
    requires
        c <= cell@.len(),
        ur@.len() == vr@.len() <= MAX_FACTOR_DIM,
        row_bounded(ur@),
        row_bounded(vr@),
        row_bounded(cell@),
        0 <= alpha <= FACTOR_SCALE,
        0 <= lambda <= FACTOR_SCALE,
    ensures
        ({
            let step = cell_step(ur@, vr@, cell@, alpha as int, lambda as int, c as nat);
            match step {
                Option::Some(p) => r matches Ok(q) && q.0@ == p.0 && q.1@ == p.1 && q.0@.len()
                    == ur@.len() && q.1@.len() == vr@.len() && row_bounded(q.0@) && row_bounded(
                    q.1@,
                ),
                Option::None => r == Err::<(Vec<i64>, Vec<i64>), RecError>(
                    RecError::NumericOverflow,
                ),
            }
        }),
    decreases c,
{
    if c == 0 {
        Ok((ur, vr))
    } else {
        let (ur2, vr2) = match train_cell(ur, vr, cell, alpha, lambda, c - 1) {
            Ok(p) => p,
            Err(e) => {
                return Err(e);
            },
        };
        let a_val = cell[c - 1];
        let pred = dot(&ur2, &vr2);
        let err = a_val - pred;
        let k = ur2.len();
        train_rows(ur2, vr2, err, alpha, lambda, k)
    }
}

/// Trains one user row against the first `p` posts, mirroring `post_step`.
fn train_post(
    ur: Vec<i64>,
    v: Vec<Vec<i64>>,
    a_row: &Vec<Vec<i64>>,
    alpha: i64,
    lambda: i64,
    p: usize,
) -> (r: Result<(Vec<i64>, Vec<Vec<i64>>), RecError>)
    requires
        p <= v@.len(),
        a_row@.len() == v@.len(),
        ur@.len() <= MAX_FACTOR_DIM,
        row_bounded(ur@),
        forall|i: int|
            0 <= i < v@.len() ==> (#[trigger] v@[i])@.len() == ur@.len() && row_bounded(v@[i]@),
        forall|i: int, j: int|
            0 <= i < a_row@.len() && 0 <= j < a_row@[i]@.len() ==> -FACTOR_LIMIT
                <= #[trigger] a_row@[i]@[j] <= FACTOR_LIMIT,
        0 <= alpha <= FACTOR_SCALE,
        0 <= lambda <= FACTOR_SCALE,
    ensures
        ({
            let step = post_step(
                ur@,
                rows_view(v@),
                rows_view(a_row@),
                alpha as int,
                lambda as int,
                p as nat,
            );
            match step {
                Option::Some(st) => r matches Ok(q) && q.0@ == st.0 && rows_view(q.1@) == st.1
                    && q.0@.len() == ur@.len() && q.1@.len() == v@.len() && row_bounded(q.0@) && (
                forall|i: int|
                    0 <= i < v@.len() ==> (#[trigger] q.1@[i])@.len() == ur@.len() && row_bounded(
                        q.1@[i]@,
                    )),
                Option::None => r == Err::<(Vec<i64>, Vec<Vec<i64>>), RecError>(
                    RecError::NumericOverflow,
                ),
            }
        }),
    decreases p,
{
    if p == 0 {
        Ok((ur, v))
    } else {
        let (ur2, mut v2) = match train_post(ur, v, a_row, alpha, lambda, p - 1) {
            Ok(st) => st,
            Err(e) => {
                return Err(e);
            },
        };
        let pi = p - 1;
        let vr = copy_row(&v2[pi]);
        let cell = &a_row[pi];
        let (ur3, vr3) = match train_cell(ur2, vr, cell, alpha, lambda, cell.len()) {
            Ok(q) => q,
            Err(e) => {
                return Err(e);
            },
        };
        v2.set(pi, vr3);
        proof {
            let st = post_step(
                ur@,
                rows_view(v@),
                rows_view(a_row@),
                alpha as int,
                lambda as int,
                (p - 1) as nat,
            ).unwrap();
            assert(rows_view(v2@) =~= st.1.update(pi as int, v2@[pi as int]@));
        }
        Ok((ur3, v2))
    }
}

/// Trains the first `uc` users, mirroring `user_step`.  The ghost `k` is
/// the common factor dimension of both matrices.
fn train_user(
    u: Vec<Vec<i64>>,
    v: Vec<Vec<i64>>,
    a: &Vec<Vec<Vec<i64>>>,
    alpha: i64,
    lambda: i64,
    uc: usize,
    Ghost(k): Ghost<nat>,
) -> (r: Result<(Vec<Vec<i64>>, Vec<Vec<i64>>), RecError>)
    requires
        uc <= u@.len(),
        a@.len() == u@.len(),
        k <= MAX_FACTOR_DIM,
        matrix_wf(rows_view(u@), k),
        matrix_wf(rows_view(v@), k),
        forall|i: int| 0 <= i < a@.len() ==> (#[trigger] a@[i])@.len() == v@.len(),
        forall|i: int, j: int, c: int|
            0 <= i < a@.len() && 0 <= j < a@[i]@.len() && 0 <= c < a@[i]@[j]@.len()
                ==> -FACTOR_LIMIT <= #[trigger] a@[i]@[j]@[c] <= FACTOR_LIMIT,
        0 <= alpha <= FACTOR_SCALE,
        0 <= lambda <= FACTOR_SCALE,
    ensures
        ({
            let step = user_step(
                rows_view(u@),
                rows_view(v@),
                tensor_view(a@),
                alpha as int,
                lambda as int,
                uc as nat,
            );
            match step {
                Option::Some(st) => r matches Ok(q) && rows_view(q.0@) == st.0 && rows_view(q.1@)
                    == st.1 && q.0@.len() == u@.len() && q.1@.len() == v@.len() && matrix_wf(
                    rows_view(q.0@),
                    k,
                ) && matrix_wf(rows_view(q.1@), k),
                Option::None => r == Err::<(Vec<Vec<i64>>, Vec<Vec<i64>>), RecError>(
                    RecError::NumericOverflow,
                ),
            }
        }),
    decreases uc,
{
    if uc == 0 {
        Ok((u, v))
    } else {
        let (mut u2, v2) = match train_user(u, v, a, alpha, lambda, uc - 1, Ghost(k)) {
            Ok(st) => st,
            Err(e) => {
                return Err(e);
            },
        };
        let ui = uc - 1;
        let ur = copy_row(&u2[ui]);
        let a_row = &a[ui];
        proof {
            assert(rows_view(u2@)[ui as int] == u2@[ui as int]@);
            assert(ur@.len() == k && row_bounded(ur@));
            assert forall|i: int| 0 <= i < v2@.len() implies (#[trigger] v2@[i])@.len() == ur@.len()
                && row_bounded(v2@[i]@) by {
                assert(rows_view(v2@)[i] == v2@[i]@);
            }
            assert forall|j: int, c: int|
                0 <= j < a_row@.len() && 0 <= c < a_row@[j]@.len() implies -FACTOR_LIMIT
                <= #[trigger] a_row@[j]@[c] <= FACTOR_LIMIT by {
                assert(a@[ui as int]@[j]@[c] == a_row@[j]@[c]);
            }
        }
        let (ur2, v3) = match train_post(ur, v2, a_row, alpha, lambda, a_row.len()) {
            Ok(q) => q,
            Err(e) => {
                return Err(e);
            },
        };
        u2.set(ui, ur2);
        proof {
            let st = user_step(
                rows_view(u@),
                rows_view(v@),
                tensor_view(a@),
                alpha as int,
                lambda as int,
                (uc - 1) as nat,
            ).unwrap();
            assert(rows_view(a_row@) == tensor_view(a@)[ui as int]);
            assert(rows_view(u2@) =~= st.0.update(ui as int, u2@[ui as int]@));
        }
        Ok((u2, v3))
    }
}

/// Runs `e` training epochs, mirroring `train_steps`.
fn train_epochs(
    u: Vec<Vec<i64>>,
    v: Vec<Vec<i64>>,
    a: &Vec<Vec<Vec<i64>>>,
    alpha: i64,
    lambda: i64,
    e: usize,
    Ghost(k): Ghost<nat>,
) -> (r: Result<(Vec<Vec<i64>>, Vec<Vec<i64>>), RecError>)
    requires
        a@.len() == u@.len(),
        k <= MAX_FACTOR_DIM,
        matrix_wf(rows_view(u@), k),
        matrix_wf(rows_view(v@), k),
        forall|i: int| 0 <= i < a@.len() ==> (#[trigger] a@[i])@.len() == v@.len(),
        forall|i: int, j: int, c: int|
            0 <= i < a@.len() && 0 <= j < a@[i]@.len() && 0 <= c < a@[i]@[j]@.len()
                ==> -FACTOR_LIMIT <= #[trigger] a@[i]@[j]@[c] <= FACTOR_LIMIT,
        0 <= alpha <= FACTOR_SCALE,
        0 <= lambda <= FACTOR_SCALE,
    ensures
        ({
            let step = train_steps(
                rows_view(u@),
                rows_view(v@),
                tensor_view(a@),
                alpha as int,
                lambda as int,
                e as nat,
            );
            match step {
                Option::Some(st) => r matches Ok(q) && rows_view(q.0@) == st.0 && rows_view(q.1@)
                    == st.1 && q.0@.len() == u@.len() && q.1@.len() == v@.len() && matrix_wf(
                    rows_view(q.0@),
                    k,
                ) && matrix_wf(rows_view(q.1@), k),
                Option::None => r == Err::<(Vec<Vec<i64>>, Vec<Vec<i64>>), RecError>(
                    RecError::NumericOverflow,
                ),
            }
        }),
    decreases e,
{
    if e == 0 {
        Ok((u, v))
    } else {
        let (u2, v2) = match train_epochs(u, v, a, alpha, lambda, e - 1, Ghost(k)) {
            Ok(st) => st,
            Err(err) => {
                return Err(err);
            },
        };
        let nu = u2.len();
        train_user(u2, v2, a, alpha, lambda, nu, Ghost(k))
    }
}

/// The distinct values of `s` in first-occurrence order: the dense-index
/// assignment the loader produces.
pub open spec fn firsts(s: Seq<i64>) -> Seq<i64>
    decreases s.len(),
{
    if s.len() == 0 {
        Seq::<i64>::empty()
    } else {
        let pre = firsts(s.drop_last());
        if seq_contains(pre, s.last()) {
            pre
        } else {
            pre.push(s.last())
        }
    }
}

/// The fixed-point value of one binary signal column.
pub open spec fn sig_val(x: i32) -> i64 {
    if x == 1 {
        FACTOR_SCALE
    } else {
        0i64
    }
}

/// The tensor after scattering the first `n` snapshot rows into `t`:
/// each row writes its two signals into channels 0 and 1 of its
/// (user, post) cell, resolved through the given id orders.
pub open spec fn scatter(
    t: Seq<Seq<Seq<i64>>>,
    rows: Seq<InteractionsMatrixModel>,
    n: int,
    users: Seq<i64>,
    posts: Seq<i64>,
) -> Seq<Seq<Seq<i64>>>
    decreases n,
{
    if n <= 0 {
        t
    } else {
        let t1 = scatter(t, rows, n - 1, users, posts);
        let r = rows[n - 1];
        let u = seq_index_of(users, r.user_id).unwrap();
        let p = seq_index_of(posts, r.post_id).unwrap();
        t1.update(
            u,
            t1[u].update(
                p,
                t1[u][p].update(0, sig_val(r.is_liked)).update(1, sig_val(r.is_following)),
            ),
        )
    }
}

/// Writes the two signal values of one row into its tensor cell.
fn set_signals(a: &mut Vec<Vec<Vec<i64>>>, u: usize, p: usize, liked: i64, following: i64)
    requires
        u < old(a)@.len(),
        p < tensor_view(old(a)@)[u as int].len(),
        tensor_view(old(a)@)[u as int][p as int].len() >= 2,
    ensures
        tensor_view(final(a)@) == tensor_view(old(a)@).update(
            u as int,
            tensor_view(old(a)@)[u as int].update(
                p as int,
                tensor_view(old(a)@)[u as int][p as int].update(0, liked).update(1, following),
            ),
        ),
{
    proof {
        assert(tensor_view(a@)[u as int] == rows_view(a@[u as int]@));
        assert(tensor_view(a@)[u as int][p as int] == a@[u as int]@[p as int]@);
    }
    let mut plane = copy_matrix(&a[u]);
    proof {
        assert(rows_view(plane@).len() == tensor_view(a@)[u as int].len());
        assert(rows_view(plane@)[p as int] == plane@[p as int]@);
    }
    let mut cell = copy_row(&plane[p]);
    cell.set(0, liked);
    cell.set(1, following);
    plane.set(p, cell);
    a.set(u, plane);
    proof {
        assert(tensor_view(a@)[u as int] == rows_view(plane@));
        assert(tensor_view(a@)[u as int] =~= tensor_view(old(a)@)[u as int].update(
            p as int,
            tensor_view(old(a)@)[u as int][p as int].update(0, liked).update(1, following),
        ));
        assert(tensor_view(a@) =~= tensor_view(old(a)@).update(
            u as int,
            tensor_view(old(a)@)[u as int].update(
                p as int,
                tensor_view(old(a)@)[u as int][p as int].update(0, liked).update(1, following),
            ),
        ));
    }
}

/// The shared recommender state: factor matrices, observed tensor, the two
/// id indexers and the fixed hyperparameters.
pub struct NDArrayAppState {
    pub user_embeddings: Vec<Vec<i64>>,
    pub post_embeddings: Vec<Vec<i64>>,
    pub interactions_actual: Vec<Vec<Vec<i64>>>,
    pub alpha: i64,
    pub lambda: i64,
    pub epochs: usize,
    pub k: usize,
    pub observations: usize,
    pub user_index: IdIndexer,
    pub post_index: IdIndexer,
}

impl NDArrayAppState {
    /// The user factor matrix as a mathematical value.
    pub open spec fn u_mat(&self) -> Seq<Seq<i64>> {
        rows_view(self.user_embeddings@)
    }

    /// The post factor matrix as a mathematical value.
    pub open spec fn v_mat(&self) -> Seq<Seq<i64>> {
        rows_view(self.post_embeddings@)
    }

    /// The observed tensor as a mathematical value.
    pub open spec fn a_tensor(&self) -> Seq<Seq<Seq<i64>>> {
        tensor_view(self.interactions_actual@)
    }

    /// The external user ids in dense-index order.
    pub open spec fn user_ids(&self) -> Seq<i64> {
        self.user_index@
    }

    /// The external post ids in dense-index order.
    pub open spec fn post_ids(&self) -> Seq<i64> {
        self.post_index@
    }

    pub open spec fn spec_alpha(&self) -> i64 {
        self.alpha
    }

    pub open spec fn spec_lambda(&self) -> i64 {
        self.lambda
    }

    pub open spec fn spec_epochs(&self) -> usize {
        self.epochs
    }

    pub open spec fn spec_k(&self) -> usize {
        self.k
    }

    pub open spec fn spec_observations(&self) -> usize {
        self.observations
    }

    /// Well-formedness: consistent shapes, bounded entries, distinct ids,
    /// hyperparameters in range.
    pub open spec fn wf(&self) -> bool {
        &&& self.k <= MAX_FACTOR_DIM
        &&& 0 <= self.alpha <= FACTOR_SCALE
        &&& 0 <= self.lambda <= FACTOR_SCALE
        &&& self.user_index.wf()
        &&& self.post_index.wf()
        &&& self.u_mat().len() == self.user_ids().len()
        &&& self.v_mat().len() == self.post_ids().len()
        &&& matrix_wf(self.u_mat(), self.k as nat)
        &&& matrix_wf(self.v_mat(), self.k as nat)
        &&& self.a_tensor().len() == self.u_mat().len()
        &&& tensor_wf(self.a_tensor(), self.v_mat().len(), self.observations as nat)
    }

    /// The dense index of an external user id.
    pub open spec fn spec_user_index_of(&self, user_id: i64) -> Option<int> {
        self.user_index.spec_index_of(user_id)
    }

    /// The dense index of an external post id.
    pub open spec fn spec_post_index_of(&self, post_id: i64) -> Option<int> {
        self.post_index.spec_index_of(post_id)
    }

    /// The score of a (user, post) pair of dense indices: the fixed-point
    /// dot product of the two factor rows.
    pub open spec fn spec_score(&self, u: int, p: int) -> int {
        dot_s(self.u_mat()[u], self.v_mat()[p])
    }

    /// What `predict` returns, as a function of the model state.
    pub open spec fn spec_predict(&self, user_id: i64, post_id: i64) -> Result<i64, RecError> {
        match self.spec_user_index_of(user_id) {
            Option::None => Err(RecError::UnknownUser),
            Option::Some(u) => match self.spec_post_index_of(post_id) {
                Option::None => Err(RecError::UnknownPost),
                Option::Some(p) => Ok(self.spec_score(u, p) as i64),
            },
        }
    }

    /// How many users the model knows.
    pub fn n_users(&self) -> (n: usize)
        ensures
            n == self.user_ids().len(),
    {
        self.user_index.len()
    }

    /// How many posts the model knows.
    pub fn n_posts(&self) -> (n: usize)
        ensures
            n == self.post_ids().len(),
    {
        self.post_index.len()
    }

    /// Whether explicitly supplied structures have mutually consistent
    /// shapes and bounded entries.
    pub open spec fn parts_valid(
        user_ids: Seq<i64>,
        post_ids: Seq<i64>,
        u: Seq<Seq<i64>>,
        v: Seq<Seq<i64>>,
        a: Seq<Seq<Seq<i64>>>,
        k: nat,
        s: nat,
    ) -> bool {
        &&& u.len() == user_ids.len()
        &&& v.len() == post_ids.len()
        &&& matrix_wf(u, k)
        &&& matrix_wf(v, k)
        &&& a.len() == u.len()
        &&& tensor_wf(a, v.len(), s)
    }

    /// Builds a model from explicitly supplied factors and observations,
    /// validating ids, shapes and entry bounds.  Succeeds exactly on valid
    /// parts; the model then holds the parts verbatim.
    pub fn new_with_factors(
        user_ids: Vec<i64>,
        post_ids: Vec<i64>,
        u: Vec<Vec<i64>>,
        v: Vec<Vec<i64>>,
        a: Vec<Vec<Vec<i64>>>,
        alpha: i64,
        lambda: i64,
        epochs: usize,
        k: usize,
        observations: usize,
    ) -> (r: Result<NDArrayAppState, RecError>)
        requires
            k <= MAX_FACTOR_DIM,
            0 <= alpha <= FACTOR_SCALE,
            0 <= lambda <= FACTOR_SCALE,
        ensures
            r is Ok <==> seq_distinct(user_ids@) && seq_distinct(post_ids@) && Self::parts_valid(
                user_ids@,
                post_ids@,
                rows_view(u@),
                rows_view(v@),
                tensor_view(a@),
                k as nat,
                observations as nat,
            ),
            !seq_distinct(user_ids@) ==> (r matches Err(e) && e == RecError::DuplicateUser),
            seq_distinct(user_ids@) && !seq_distinct(post_ids@) ==> (r matches Err(e) && e
                == RecError::DuplicatePost),
            seq_distinct(user_ids@) && seq_distinct(post_ids@) && !Self::parts_valid(
                user_ids@,
                post_ids@,
                rows_view(u@),
                rows_view(v@),
                tensor_view(a@),
                k as nat,
                observations as nat,
            ) ==> (r matches Err(e) && e == RecError::ShapeMismatch),
            r matches Ok(m) ==> m.wf() && m.user_ids() == user_ids@ && m.post_ids() == post_ids@
                && m.u_mat() == rows_view(u@) && m.v_mat() == rows_view(v@) && m.a_tensor()
                == tensor_view(a@) && m.alpha == alpha && m.lambda == lambda && m.epochs == epochs
                && m.k == k && m.observations == observations,
    {
        let user_index = match indexer_from_ids(&user_ids) {
            Option::Some(ix) => ix,
            Option::None => {
                return Err(RecError::DuplicateUser);
            },
        };
        let post_index = match indexer_from_ids(&post_ids) {
            Option::Some(ix) => ix,
            Option::None => {
                return Err(RecError::DuplicatePost);
            },
        };
        if u.len() != user_ids.len() || v.len() != post_ids.len() || a.len() != u.len() {
            return Err(RecError::ShapeMismatch);
        }
        if !check_matrix(&u, k) || !check_matrix(&v, k) {
            return Err(RecError::ShapeMismatch);
        }
        let np = v.len();
        if !check_tensor(&a, np, observations) {
            return Err(RecError::ShapeMismatch);
        }
        Ok(
            NDArrayAppState {
                user_embeddings: u,
                post_embeddings: v,
                interactions_actual: a,
                alpha,
                lambda,
                epochs,
                k,
                observations,
                user_index,
                post_index,
            },
        )
    }

    /// What training computes from the current state: the factor matrices
    /// after `epochs` full passes, or `None` on numeric blow-up.
    pub open spec fn spec_train(&self) -> Option<(Seq<Seq<i64>>, Seq<Seq<i64>>)> {
        train_steps(
            self.u_mat(),
            self.v_mat(),
            self.a_tensor(),
            self.alpha as int,
            self.lambda as int,
            self.epochs as nat,
        )
    }

    /// Fits the factors to the observed tensor by `epochs` passes of
    /// regularized gradient descent over every (user, post, channel)
    /// triple.  On numeric blow-up the model is left unchanged and the
    /// failure is reported, to be treated as fatal at startup.
    pub fn train(&mut self) -> (r: Result<(), RecError>)
        requires
            old(self).wf(),
        ensures
            final(self).wf(),
            old(self).spec_train() matches Some(st) ==> r is Ok && final(self).u_mat() == st.0
                && final(self).v_mat() == st.1,
            old(self).spec_train() is None ==> r == Err::<(), RecError>(RecError::NumericOverflow)
                && *final(self) == *old(self),
            final(self).a_tensor() == old(self).a_tensor(),
            final(self).user_ids() == old(self).user_ids(),
            final(self).post_ids() == old(self).post_ids(),
            final(self).alpha == old(self).alpha,
            final(self).lambda == old(self).lambda,
            final(self).epochs == old(self).epochs,
            final(self).k == old(self).k,
            final(self).observations == old(self).observations,
    {
        let u0 = copy_matrix(&self.user_embeddings);
        let v0 = copy_matrix(&self.post_embeddings);
        proof {
            assert forall|i: int| 0 <= i < self.interactions_actual@.len() implies (
            #[trigger] self.interactions_actual@[i])@.len()
                == self.post_embeddings@.len() by {
                assert(self.a_tensor()[i] == rows_view(self.interactions_actual@[i]@));
            }
            assert forall|i: int, j: int, c: int|
                0 <= i < self.interactions_actual@.len() && 0 <= j
                    < self.interactions_actual@[i]@.len() && 0 <= c
                    < self.interactions_actual@[i]@[j]@.len() implies -FACTOR_LIMIT
                <= #[trigger] self.interactions_actual@[i]@[j]@[c] <= FACTOR_LIMIT by {
                assert(self.a_tensor()[i] == rows_view(self.interactions_actual@[i]@));
                assert(self.a_tensor()[i][j] == self.interactions_actual@[i]@[j]@);
            }
        }
        match train_epochs(
            u0,
            v0,
            &self.interactions_actual,
            self.alpha,
            self.lambda,
            self.epochs,
            Ghost(self.k as nat),
        ) {
            Ok((u1, v1)) => {
                self.user_embeddings = u1;
                self.post_embeddings = v1;
                Ok(())
            },
            Err(e) => Err(e),
        }
    }

    /// Scores one (user, post) pair: the dot product of the current `U`
    /// row and `V` row, or an unknown-entity error.
    pub fn predict(&self, user_id: i64, post_id: i64) -> (r: Result<i64, RecError>)
        requires
            self.wf(),
        ensures
            r == self.spec_predict(user_id, post_id),
    {
        let u = match self.user_index.index_of(user_id) {
            Option::Some(u) => u,
            Option::None => {
                return Err(RecError::UnknownUser);
            },
        };
        let p = match self.post_index.index_of(post_id) {
            Option::Some(p) => p,
            Option::None => {
                return Err(RecError::UnknownPost);
            },
        };
        proof {
            self.user_index.lemma_index_of_valid(user_id);
            self.post_index.lemma_index_of_valid(post_id);
        }
        Ok(dot(&self.user_embeddings[u], &self.post_embeddings[p]))
    }

    /// How one `add_user` call relates the state before to the state
    /// after: the id gets the next dense index, `U` gains one fresh
    /// unit-interval row, `A` gains one zero-filled slice along the user
    /// axis, and everything else is untouched.
    pub open spec fn adds_user(pre: Self, post: Self, user_id: i64) -> bool {
        &&& post.user_ids() == pre.user_ids().push(user_id)
        &&& post.post_ids() == pre.post_ids()
        &&& post.u_mat().len() == pre.u_mat().len() + 1
        &&& post.u_mat().take(pre.u_mat().len() as int) == pre.u_mat()
        &&& post.u_mat().last().len() == pre.k
        &&& unit_row(post.u_mat().last())
        &&& post.v_mat() == pre.v_mat()
        &&& post.a_tensor() == pre.a_tensor().push(
            zero_plane_seq(pre.v_mat().len(), pre.observations as nat),
        )
        &&& post.alpha == pre.alpha
        &&& post.lambda == pre.lambda
        &&& post.epochs == pre.epochs
        &&& post.k == pre.k
        &&& post.observations == pre.observations
    }

    /// How one `add_post` call relates the state before to the state
    /// after: the id gets the next dense index, `V` gains one fresh
    /// unit-interval row, every user's slice of `A` gains one zero-filled
    /// cell along the post axis, and everything else is untouched.
    pub open spec fn adds_post(pre: Self, post: Self, post_id: i64) -> bool {
        &&& post.post_ids() == pre.post_ids().push(post_id)
        &&& post.user_ids() == pre.user_ids()
        &&& post.v_mat().len() == pre.v_mat().len() + 1
        &&& post.v_mat().take(pre.v_mat().len() as int) == pre.v_mat()
        &&& post.v_mat().last().len() == pre.k
        &&& unit_row(post.v_mat().last())
        &&& post.u_mat() == pre.u_mat()
        &&& post.a_tensor().len() == pre.a_tensor().len()
        &&& (forall|i: int|
            0 <= i < pre.a_tensor().len() ==> #[trigger] post.a_tensor()[i]
                == pre.a_tensor()[i].push(zero_seq(pre.observations as nat)))
        &&& post.alpha == pre.alpha
        &&& post.lambda == pre.lambda
        &&& post.epochs == pre.epochs
        &&& post.k == pre.k
        &&& post.observations == pre.observations
    }

    /// Appends a zero-filled slice to `A` along the user axis.
    fn add_user_interaction(&mut self)
        ensures
            final(self).a_tensor() == old(self).a_tensor().push(
                zero_plane_seq(old(self).post_ids().len(), old(self).observations as nat),
            ),
            final(self).user_embeddings == old(self).user_embeddings,
            final(self).post_embeddings == old(self).post_embeddings,
            final(self).user_index == old(self).user_index,
            final(self).post_index == old(self).post_index,
            final(self).alpha == old(self).alpha,
            final(self).lambda == old(self).lambda,
            final(self).epochs == old(self).epochs,
            final(self).k == old(self).k,
            final(self).observations == old(self).observations,
    {
        let np = self.post_index.len();
        let plane = zero_plane(np, self.observations);
        self.interactions_actual.push(plane);
        proof {
            assert(self.a_tensor() =~= old(self).a_tensor().push(
                zero_plane_seq(old(self).post_ids().len(), old(self).observations as nat),
            ));
        }
    }

    /// Appends a zero-filled cell to every user's slice of `A` along the
    /// post axis.
    fn add_post_interaction(&mut self)
        ensures
            final(self).a_tensor().len() == old(self).a_tensor().len(),
            forall|i: int|
                0 <= i < old(self).a_tensor().len() ==> #[trigger] final(self).a_tensor()[i]
                    == old(self).a_tensor()[i].push(zero_seq(old(self).observations as nat)),
            final(self).user_embeddings == old(self).user_embeddings,
            final(self).post_embeddings == old(self).post_embeddings,
            final(self).user_index == old(self).user_index,
            final(self).post_index == old(self).post_index,
            final(self).alpha == old(self).alpha,
            final(self).lambda == old(self).lambda,
            final(self).epochs == old(self).epochs,
            final(self).k == old(self).k,
            final(self).observations == old(self).observations,
    {
        let n = self.interactions_actual.len();
        let mut i: usize = 0;
        while i < n
            invariant
                0 <= i <= n,
                n == self.interactions_actual@.len(),
                n == old(self).interactions_actual@.len(),
                self.observations == old(self).observations,
                forall|t: int|
                    0 <= t < i ==> #[trigger] self.a_tensor()[t] == old(self).a_tensor()[
                        t
                    ].push(zero_seq(old(self).observations as nat)),
                forall|t: int|
                    i <= t < n ==> #[trigger] self.interactions_actual@[t]
                        == old(self).interactions_actual@[t],
                self.user_embeddings == old(self).user_embeddings,
                self.post_embeddings == old(self).post_embeddings,
                self.user_index == old(self).user_index,
                self.post_index == old(self).post_index,
                self.alpha == old(self).alpha,
                self.lambda == old(self).lambda,
                self.epochs == old(self).epochs,
                self.k == old(self).k,
            decreases n - i,
        {
            let ghost pre = *self;
            let mut plane = copy_matrix(&self.interactions_actual[i]);
            plane.push(zero_row(self.observations));
            self.interactions_actual.set(i, plane);
            proof {
                assert(rows_view(plane@) =~= pre.a_tensor()[i as int].push(
                    zero_seq(old(self).observations as nat),
                ));
                assert(pre.a_tensor()[i as int] == old(self).a_tensor()[i as int]);
                assert forall|t: int| 0 <= t < i + 1 implies #[trigger] self.a_tensor()[t]
                    == old(self).a_tensor()[t].push(zero_seq(old(self).observations as nat)) by {
                    if t < i {
                        assert(self.interactions_actual@[t] == pre.interactions_actual@[t]);
                        assert(pre.a_tensor()[t] == rows_view(pre.interactions_actual@[t]@));
                        assert(self.a_tensor()[t] == rows_view(self.interactions_actual@[t]@));
                    } else {
                        assert(self.a_tensor()[t] == rows_view(plane@));
                    }
                }
            }
            i = i + 1;
        }
    }

    /// Registers a new user: assigns the next dense index, appends one
    /// randomly initialized row to `U` and one zero slice to `A`.  An id
    /// already registered is refused and the model is left unchanged.
    pub fn add_user(&mut self, user_id: i64) -> (r: Result<(), RecError>)
        requires
            old(self).wf(),
        ensures
            final(self).wf(),
            old(self).user_index.spec_contains(user_id) ==> r == Err::<(), RecError>(
                RecError::DuplicateUser,
            ) && *final(self) == *old(self),
            !old(self).user_index.spec_contains(user_id) ==> r is Ok && Self::adds_user(
                *old(self),
                *final(self),
                user_id,
            ),
    {
        if self.user_index.contains(user_id) {
            return Err(RecError::DuplicateUser);
        }
        let _idx = self.user_index.insert(user_id);
        let row = random_row(self.k);
        self.user_embeddings.push(row);
        self.add_user_interaction();
        proof {
            assert(self.u_mat() =~= old(self).u_mat().push(self.user_embeddings@.last()@));
            assert(self.u_mat().take(old(self).u_mat().len() as int) =~= old(self).u_mat());
        }
        Ok(())
    }

    /// Registers a new post: assigns the next dense index, appends one
    /// randomly initialized row to `V` and one zero cell per user to `A`.
    /// An id already registered is refused and the model is left
    /// unchanged.
    pub fn add_post(&mut self, post_id: i64) -> (r: Result<(), RecError>)
        requires
            old(self).wf(),
        ensures
            final(self).wf(),
            old(self).post_index.spec_contains(post_id) ==> r == Err::<(), RecError>(
                RecError::DuplicatePost,
            ) && *final(self) == *old(self),
            !old(self).post_index.spec_contains(post_id) ==> r is Ok && Self::adds_post(
                *old(self),
                *final(self),
                post_id,
            ),
    {
        if self.post_index.contains(post_id) {
            return Err(RecError::DuplicatePost);
        }
        let _idx = self.post_index.insert(post_id);
        let row = random_row(self.k);
        self.post_embeddings.push(row);
        self.add_post_interaction();
        proof {
            assert(self.v_mat() =~= old(self).v_mat().push(self.post_embeddings@.last()@));
            assert(self.v_mat().take(old(self).v_mat().len() as int) =~= old(self).v_mat());
        }
        Ok(())
    }

    /// Everything except the observed tensor is identical in the two
    /// states.
    pub open spec fn same_but_tensor(pre: Self, post: Self) -> bool {
        &&& post.user_embeddings == pre.user_embeddings
        &&& post.post_embeddings == pre.post_embeddings
        &&& post.user_index == pre.user_index
        &&& post.post_index == pre.post_index
        &&& post.alpha == pre.alpha
        &&& post.lambda == pre.lambda
        &&& post.epochs == pre.epochs
        &&& post.k == pre.k
        &&& post.observations == pre.observations
    }

    /// Records one observed signal: sets `A[user][post][channel]` to the
    /// binary observation, scaled to fixed point.  A policy hook: the
    /// tensor is updated, but no retraining is triggered.
    pub fn record_interaction(&mut self, user_id: i64, post_id: i64, channel: usize, value: bool) -> (r:
        Result<(), RecError>)
        requires
            old(self).wf(),
        ensures
            final(self).wf(),
            old(self).spec_user_index_of(user_id) is None ==> r == Err::<(), RecError>(
                RecError::UnknownUser,
            ) && *final(self) == *old(self),
            old(self).spec_user_index_of(user_id) is Some && old(self).spec_post_index_of(post_id)
                is None ==> r == Err::<(), RecError>(RecError::UnknownPost) && *final(self)
                == *old(self),
            old(self).spec_user_index_of(user_id) is Some && old(self).spec_post_index_of(post_id)
                is Some && channel >= old(self).observations ==> r == Err::<(), RecError>(
                RecError::UnknownChannel,
            ) && *final(self) == *old(self),
            old(self).spec_user_index_of(user_id) is Some && old(self).spec_post_index_of(post_id)
                is Some && channel < old(self).observations ==> r is Ok && final(self).a_tensor()
                == ({
                let u = old(self).spec_user_index_of(user_id).unwrap();
                let p = old(self).spec_post_index_of(post_id).unwrap();
                old(self).a_tensor().update(
                    u,
                    old(self).a_tensor()[u].update(
                        p,
                        old(self).a_tensor()[u][p].update(
                            channel as int,
                            (if value {
                                FACTOR_SCALE
                            } else {
                                0i64
                            }),
                        ),
                    ),
                )
            }),
            r is Ok ==> Self::same_but_tensor(*old(self), *final(self)),
    {
        let u = match self.user_index.index_of(user_id) {
            Option::Some(u) => u,
            Option::None => {
                return Err(RecError::UnknownUser);
            },
        };
        let p = match self.post_index.index_of(post_id) {
            Option::Some(p) => p,
            Option::None => {
                return Err(RecError::UnknownPost);
            },
        };
        if channel >= self.observations {
            return Err(RecError::UnknownChannel);
        }
        proof {
            self.user_index.lemma_index_of_valid(user_id);
            self.post_index.lemma_index_of_valid(post_id);
        }
        let obs: i64 = if value {
            FACTOR_SCALE
        } else {
            0
        };
        proof {
            assert(self.a_tensor()[u as int] == rows_view(self.interactions_actual@[u as int]@));
            assert(self.a_tensor()[u as int].len() == self.v_mat().len());
            assert(self.a_tensor()[u as int][p as int] == self.interactions_actual@[u as int]@[
                p as int
            ]@);
            assert(self.a_tensor()[u as int][p as int].len() == self.observations);
        }
        let mut plane = copy_matrix(&self.interactions_actual[u]);
        proof {
            assert(rows_view(plane@).len() == self.a_tensor()[u as int].len());
            assert(rows_view(plane@)[p as int] == plane@[p as int]@);
        }
        let mut cell = copy_row(&plane[p]);
        cell.set(channel, obs);
        plane.set(p, cell);
        self.interactions_actual.set(u, plane);
        proof {
            assert(self.a_tensor()[u as int] == rows_view(plane@));
            assert(self.a_tensor()[u as int] =~= old(self).a_tensor()[u as int].update(
                p as int,
                old(self).a_tensor()[u as int][p as int].update(channel as int, obs),
            ));
            assert(self.a_tensor() =~= old(self).a_tensor().update(
                u as int,
                old(self).a_tensor()[u as int].update(
                    p as int,
                    old(self).a_tensor()[u as int][p as int].update(channel as int, obs),
                ),
            ));
        }
        Ok(())
    }

    /// Scores a batch of posts for one user.  Results come back in input
    /// order, one per requested post, each equal to what `predict` returns
    /// for that pair.
    pub fn predict_all(&self, user_id: i64, post_ids: &Vec<i64>) -> (r: Result<
        Vec<(i64, i64)>,
        RecError,
    >)
        requires
            self.wf(),
        ensures
            self.spec_user_index_of(user_id) is None ==> r == Err::<Vec<(i64, i64)>, RecError>(
                RecError::UnknownUser,
            ),
            r matches Err(e) ==> (e == RecError::UnknownUser || e == RecError::UnknownPost),
            (r matches Err(e) && e == RecError::UnknownPost) ==> exists|j: int|
                0 <= j < post_ids@.len() && self.spec_post_index_of(#[trigger] post_ids@[j])
                    is None,
            (self.spec_user_index_of(user_id) is Some && (forall|j: int|
                0 <= j < post_ids@.len() ==> self.spec_post_index_of(#[trigger] post_ids@[j])
                    is Some)) ==> r is Ok,
            r matches Ok(v) ==> v@.len() == post_ids@.len() && (forall|j: int|
                0 <= j < post_ids@.len() ==> #[trigger] v@[j] == (
                    post_ids@[j],
                    self.spec_predict(user_id, post_ids@[j]).unwrap(),
                )),
    {
        if self.user_index.index_of(user_id).is_none() {
            return Err(RecError::UnknownUser);
        }
        let n = post_ids.len();
        let mut out: Vec<(i64, i64)> = Vec::new();
        let mut j: usize = 0;
        while j < n
            invariant
                0 <= j <= n,
                n == post_ids@.len(),
                self.wf(),
                self.spec_user_index_of(user_id) is Some,
                out@.len() == j,
                forall|t: int|
                    0 <= t < j ==> #[trigger] out@[t] == (
                        post_ids@[t],
                        self.spec_predict(user_id, post_ids@[t]).unwrap(),
                    ),
                forall|t: int|
                    0 <= t < j ==> self.spec_post_index_of(#[trigger] post_ids@[t]) is Some,
            decreases n - j,
        {
            let pid = post_ids[j];
            match self.predict(user_id, pid) {
                Ok(score) => {
                    out.push((pid, score));
                },
                Err(_) => {
                    return Err(RecError::UnknownPost);
                },
            }
            j = j + 1;
        }
        Ok(out)
    }
}

/// Growing by one user and then one post leaves the observed tensor with
/// shape `(n_users + 1, n_posts + 1, observations)`: the two fresh slices
/// are all zero, and every prior entry is unchanged.
pub proof fn lemma_growth_keeps_shapes(
    m0: NDArrayAppState,
    m1: NDArrayAppState,
    m2: NDArrayAppState,
    user_id: i64,
    post_id: i64,
)
    requires
        m0.wf(),
        NDArrayAppState::adds_user(m0, m1, user_id),
        NDArrayAppState::adds_post(m1, m2, post_id),
    ensures
        m2.u_mat().len() == m0.u_mat().len() + 1,
        m2.v_mat().len() == m0.v_mat().len() + 1,
        m2.a_tensor().len() == m2.u_mat().len(),
        forall|i: int|
            0 <= i < m2.a_tensor().len() ==> (#[trigger] m2.a_tensor()[i]).len() == m2.v_mat().len(),
        forall|i: int, j: int, c: int|
            0 <= i < m0.u_mat().len() && 0 <= j < m0.v_mat().len() && 0 <= c < m0.observations
                ==> #[trigger] m2.a_tensor()[i][j][c] == m0.a_tensor()[i][j][c],
        forall|j: int, c: int|
            0 <= j < m2.v_mat().len() && 0 <= c < m0.observations
                ==> #[trigger] m2.a_tensor()[m0.u_mat().len() as int][j][c] == 0i64,
        forall|i: int, c: int|
            0 <= i < m2.u_mat().len() && 0 <= c < m0.observations
                ==> #[trigger] m2.a_tensor()[i][m0.v_mat().len() as int][c] == 0i64,
{
    let nu = m0.u_mat().len() as int;
    let np = m0.v_mat().len() as int;
    let s = m0.observations as nat;
    assert(m1.a_tensor() == m0.a_tensor().push(zero_plane_seq(np as nat, s)));
    assert(m1.a_tensor().len() == nu + 1);
    assert forall|i: int| 0 <= i < m2.a_tensor().len() implies (#[trigger] m2.a_tensor()[i]).len()
        == np + 1 by {
        assert(m2.a_tensor()[i] == m1.a_tensor()[i].push(zero_seq(s)));
        if i < nu {
            assert(m1.a_tensor()[i] == m0.a_tensor()[i]);
            assert(m0.a_tensor()[i].len() == np);
        } else {
            assert(m1.a_tensor()[i] == zero_plane_seq(np as nat, s));
        }
    }
    assert forall|i: int, j: int, c: int|
        0 <= i < nu && 0 <= j < np && 0 <= c < s implies #[trigger] m2.a_tensor()[i][j][c]
        == m0.a_tensor()[i][j][c] by {
        assert(m2.a_tensor()[i] == m1.a_tensor()[i].push(zero_seq(s)));
        assert(m1.a_tensor()[i] == m0.a_tensor()[i]);
        assert(m0.a_tensor()[i].len() == np);
        assert(m2.a_tensor()[i][j] == m0.a_tensor()[i][j]);
    }
    assert forall|j: int, c: int| 0 <= j < np + 1 && 0 <= c < s implies #[trigger] m2.a_tensor()[
        nu
    ][j][c] == 0i64 by {
        assert(m2.a_tensor()[nu] == m1.a_tensor()[nu].push(zero_seq(s)));
        assert(m1.a_tensor()[nu] == zero_plane_seq(np as nat, s));
        if j < np {
            assert(m2.a_tensor()[nu][j] == zero_seq(s));
        } else {
            assert(m2.a_tensor()[nu][j] == zero_seq(s));
        }
    }
    assert forall|i: int, c: int| 0 <= i < nu + 1 && 0 <= c < s implies #[trigger] m2.a_tensor()[
        i
    ][np][c] == 0i64 by {
        assert(m2.a_tensor()[i] == m1.a_tensor()[i].push(zero_seq(s)));
        if i < nu {
            assert(m1.a_tensor()[i] == m0.a_tensor()[i]);
            assert(m0.a_tensor()[i].len() == np);
            assert(m2.a_tensor()[i][np] == zero_seq(s));
        } else {
            assert(m1.a_tensor()[i] == zero_plane_seq(np as nat, s));
            assert(m2.a_tensor()[i][np] == zero_seq(s));
        }
    }
}

/// Prediction is pure: it neither takes nor hides mutable state, so two
/// results computed from one model state are identical.
pub proof fn lemma_predict_idempotent(
    m: &NDArrayAppState,
    user_id: i64,
    post_id: i64,
    r1: Result<i64, RecError>,
    r2: Result<i64, RecError>,
)
    requires
        r1 == m.spec_predict(user_id, post_id),
        r2 == m.spec_predict(user_id, post_id),
    ensures
        r1 == r2,
{
}

/// Every element of `s` occurs in `firsts(s)`.
proof fn lemma_firsts_contains(s: Seq<i64>, i: int)
    requires
        0 <= i < s.len(),
    ensures
        seq_contains(firsts(s), s[i]),
    decreases s.len(),
{
    let pre = firsts(s.drop_last());
    if i == s.len() - 1 {
        if seq_contains(pre, s.last()) {
            assert(firsts(s) == pre);
        } else {
            let w = pre.len() as int;
            assert(firsts(s)[w] == s.last());
        }
    } else {
        lemma_firsts_contains(s.drop_last(), i);
        assert(s.drop_last()[i] == s[i]);
        let w = choose|t: int| 0 <= t < pre.len() && pre[t] == s[i];
        if seq_contains(pre, s.last()) {
            assert(firsts(s)[w] == s[i]);
        } else {
            assert(firsts(s)[w] == s[i]);
        }
    }
}

/// The external user ids of the snapshot rows, in row order.
pub open spec fn row_user_ids(rows: Seq<InteractionsMatrixModel>) -> Seq<i64> {
    rows.map_values(|r: InteractionsMatrixModel| r.user_id)
}

/// The external post ids of the snapshot rows, in row order.
pub open spec fn row_post_ids(rows: Seq<InteractionsMatrixModel>) -> Seq<i64> {
    rows.map_values(|r: InteractionsMatrixModel| r.post_id)
}

/// Builds the model from the boot-time interaction snapshot: dense
/// indices are assigned in first-occurrence order, the factor matrices
/// are randomly initialized over the unit interval, and the two binary
/// signals of every row are scattered into the zero-filled tensor.
pub fn load_models(
    rows: &Vec<InteractionsMatrixModel>,
    alpha: i64,
    lambda: i64,
    epochs: usize,
    k: usize,
    observations: usize,
) -> (m: NDArrayAppState)
    requires
        k <= MAX_FACTOR_DIM,
        0 <= alpha <= FACTOR_SCALE,
        0 <= lambda <= FACTOR_SCALE,
        observations >= 2,
        forall|i: int| 0 <= i < rows@.len() ==> (#[trigger] rows@[i]).binary_signals(),
    ensures
        m.wf(),
        m.user_ids() == firsts(row_user_ids(rows@)),
        m.post_ids() == firsts(row_post_ids(rows@)),
        m.u_mat().len() == m.user_ids().len(),
        m.v_mat().len() == m.post_ids().len(),
        forall|i: int| 0 <= i < m.u_mat().len() ==> unit_row(#[trigger] m.u_mat()[i]),
        forall|i: int| 0 <= i < m.v_mat().len() ==> unit_row(#[trigger] m.v_mat()[i]),
        m.a_tensor() == scatter(
            zero_tensor_seq(
                m.user_ids().len(),
                m.post_ids().len(),
                observations as nat,
            ),
            rows@,
            rows@.len() as int,
            m.user_ids(),
            m.post_ids(),
        ),
        m.alpha == alpha && m.lambda == lambda && m.epochs == epochs && m.k == k
            && m.observations == observations,
{
    let n = rows.len();
    let mut user_index = IdIndexer::new();
    let mut post_index = IdIndexer::new();
    let mut i: usize = 0;
    while i < n
        invariant
            0 <= i <= n,
            n == rows@.len(),
            user_index.wf(),
            post_index.wf(),
            user_index@ == firsts(row_user_ids(rows@).take(i as int)),
            post_index@ == firsts(row_post_ids(rows@).take(i as int)),
        decreases n - i,
    {
        proof {
            assert(row_user_ids(rows@).take(i + 1).drop_last() =~= row_user_ids(rows@).take(
                i as int,
            ));
            assert(row_user_ids(rows@).take(i + 1).last() == rows@[i as int].user_id);
            assert(row_post_ids(rows@).take(i + 1).drop_last() =~= row_post_ids(rows@).take(
                i as int,
            ));
            assert(row_post_ids(rows@).take(i + 1).last() == rows@[i as int].post_id);
        }
        if !user_index.contains(rows[i].user_id) {
            user_index.insert(rows[i].user_id);
        }
        if !post_index.contains(rows[i].post_id) {
            post_index.insert(rows[i].post_id);
        }
        i = i + 1;
    }
    proof {
        assert(row_user_ids(rows@).take(n as int) =~= row_user_ids(rows@));
        assert(row_post_ids(rows@).take(n as int) =~= row_post_ids(rows@));
    }
    let nu = user_index.len();
    let np = post_index.len();
    let u = random_matrix(nu, k);
    let v = random_matrix(np, k);
    let mut a = zero_tensor(nu, np, observations);
    let ghost t0 = zero_tensor_seq(nu as nat, np as nat, observations as nat);
    proof {
        assert(tensor_view(a@).len() == a@.len());
        assert(tensor_view(a@).len() == t0.len());
    }
    let mut j: usize = 0;
    while j < n
        invariant
            0 <= j <= n,
            n == rows@.len(),
            observations >= 2,
            forall|t: int| 0 <= t < rows@.len() ==> (#[trigger] rows@[t]).binary_signals(),
            user_index.wf(),
            post_index.wf(),
            user_index@ == firsts(row_user_ids(rows@)),
            post_index@ == firsts(row_post_ids(rows@)),
            nu == user_index@.len(),
            np == post_index@.len(),
            a@.len() == nu,
            tensor_wf(tensor_view(a@), np as nat, observations as nat),
            t0 == zero_tensor_seq(nu as nat, np as nat, observations as nat),
            tensor_view(a@) == scatter(t0, rows@, j as int, user_index@, post_index@),
        decreases n - j,
    {
        proof {
            assert(row_user_ids(rows@)[j as int] == rows@[j as int].user_id);
            lemma_firsts_contains(row_user_ids(rows@), j as int);
            assert(row_post_ids(rows@)[j as int] == rows@[j as int].post_id);
            lemma_firsts_contains(row_post_ids(rows@), j as int);
        }
        let uu = match user_index.index_of(rows[j].user_id) {
            Option::Some(x) => x,
            Option::None => {
                proof {
                    assert(false);
                }
                0
            },
        };
        let pp = match post_index.index_of(rows[j].post_id) {
            Option::Some(x) => x,
            Option::None => {
                proof {
                    assert(false);
                }
                0
            },
        };
        proof {
            user_index.lemma_index_of_valid(rows@[j as int].user_id);
            post_index.lemma_index_of_valid(rows@[j as int].post_id);
        }
        let liked: i64 = if rows[j].is_liked == 1 {
            FACTOR_SCALE
        } else {
            0
        };
        let following: i64 = if rows[j].is_following == 1 {
            FACTOR_SCALE
        } else {
            0
        };
        let ghost before = tensor_view(a@);
        set_signals(&mut a, uu, pp, liked, following);
        proof {
            assert(liked == sig_val(rows@[j as int].is_liked));
            assert(following == sig_val(rows@[j as int].is_following));
            assert(tensor_view(a@) == scatter(t0, rows@, j + 1, user_index@, post_index@));
            assert forall|x: int| 0 <= x < tensor_view(a@).len() implies matrix_wf(
                #[trigger] tensor_view(a@)[x],
                observations as nat,
            ) && tensor_view(a@)[x].len() == np by {
                if x == uu as int {
                    let oldplane = before[x];
                    let newplane = tensor_view(a@)[x];
                    assert(newplane == oldplane.update(
                        pp as int,
                        oldplane[pp as int].update(0, liked).update(1, following),
                    ));
                    assert forall|y: int| 0 <= y < newplane.len() implies (
                    #[trigger] newplane[y]).len() == observations && row_bounded(newplane[y]) by {
                        if y == pp as int {
                            let oldcell = oldplane[y];
                            let newcell = newplane[y];
                            assert(newcell == oldcell.update(0, liked).update(1, following));
                            assert forall|c: int| 0 <= c < newcell.len() implies -FACTOR_LIMIT
                                <= #[trigger] newcell[c] <= FACTOR_LIMIT by {
                                if c != 0 && c != 1 {
                                    assert(newcell[c] == oldcell[c]);
                                }
                            }
                        } else {
                            assert(newplane[y] == oldplane[y]);
                        }
                    }
                } else {
                    assert(tensor_view(a@)[x] == before[x]);
                }
            }
        }
        j = j + 1;
    }
    NDArrayAppState {
        user_embeddings: u,
        post_embeddings: v,
        interactions_actual: a,
        alpha,
        lambda,
        epochs,
        k,
        observations,
        user_index,
        post_index,
    }
}

} // verus!
