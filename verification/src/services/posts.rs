//! Feed ranking: ordering candidate posts by their predicted score.

use vstd::prelude::*;

use crate::errors::RecError;
use crate::models::content_model::ContentModel;
use crate::services::ndarray::NDArrayAppState;

verus! {

/// The score the model assigns a post for this user; meaningful only when
/// both ids are registered.
pub open spec fn post_score(m: &NDArrayAppState, user_id: i64, post: ContentModel) -> int {
    match m.spec_predict(user_id, post.id) {
        Ok(v) => v as int,
        Err(_) => 0,
    }
}

/// The sequence is ordered by non-increasing predicted score.
pub open spec fn sorted_by_score_desc(m: &NDArrayAppState, user_id: i64, s: Seq<ContentModel>) -> bool {
    forall|i: int, j: int|
        0 <= i < j < s.len() ==> post_score(m, user_id, #[trigger] s[i]) >= post_score(
            m,
            user_id,
            #[trigger] s[j],
        )
}

/// The models carried by a scored sequence, in order.
pub open spec fn models_of(s: Seq<(ContentModel, i64)>) -> Seq<ContentModel> {
    s.map_values(|p: (ContentModel, i64)| p.0)
}

/// Every pair's score is the model's prediction for its post.
pub open spec fn scores_ok(m: &NDArrayAppState, user_id: i64, s: Seq<(ContentModel, i64)>) -> bool {
    forall|t: int|
        0 <= t < s.len() ==> (#[trigger] s[t]).1 as int == post_score(m, user_id, s[t].0)
}

/// Reorders `posts` by non-increasing predicted score for `user_id` and
/// keeps the first `num_taken`.  Ties may come out in any order, so the
/// contract promises a score-sorted rearrangement of the input, cut to
/// length.  On an unknown user or post the input is left untouched.
pub fn sort_by_predicted(
    posts: &mut Vec<ContentModel>,
    m: &NDArrayAppState,
    num_taken: usize,
    user_id: i64,
) -> (r: Result<(), RecError>)
    requires
        m.wf(),
    ensures
        m.spec_user_index_of(user_id) is None ==> r == Err::<(), RecError>(RecError::UnknownUser)
            && final(posts)@ == old(posts)@,
        m.spec_user_index_of(user_id) is Some && (exists|j: int|
            0 <= j < old(posts)@.len() && m.spec_post_index_of(
                (#[trigger] old(posts)@[j]).id,
            ) is None) ==> r == Err::<(), RecError>(RecError::UnknownPost) && final(posts)@ == old(
            posts,
        )@,
        m.spec_user_index_of(user_id) is Some && (forall|j: int|
            0 <= j < old(posts)@.len() ==> m.spec_post_index_of(
                (#[trigger] old(posts)@[j]).id,
            ) is Some) ==> r is Ok,
        r is Ok ==> exists|sorted: Seq<ContentModel>|
            (#[trigger] sorted.to_multiset()) == old(posts)@.to_multiset() && sorted_by_score_desc(
                m,
                user_id,
                sorted,
            ) && final(posts)@ == sorted.take(
                if num_taken <= sorted.len() {
                    num_taken as int
                } else {
                    sorted.len() as int
                },
            ),
{
    broadcast use vstd::seq_lib::group_to_multiset_ensures;
    broadcast use vstd::multiset::group_multiset_axioms;

    if m.user_index.index_of(user_id).is_none() {
        return Err(RecError::UnknownUser);
    }
    let n = posts.len();
    let mut i: usize = 0;
    while i < n
        invariant
            0 <= i <= n,
            n == posts@.len(),
            m.wf(),
            m.spec_user_index_of(user_id) is Some,
            forall|t: int|
                0 <= t < i ==> m.spec_post_index_of((#[trigger] posts@[t]).id) is Some,
        decreases n - i,
    {
        match m.predict(user_id, posts[i].id) {
            Ok(_) => {},
            Err(_) => {
                return Err(RecError::UnknownPost);
            },
        }
        i = i + 1;
    }
    // Move the posts out and attach each one's score.
    let ghost orig = posts@;
    let mut input: Vec<ContentModel> = Vec::new();
    core::mem::swap(posts, &mut input);
    let mut scored: Vec<(ContentModel, i64)> = Vec::new();
    while input.len() > 0
        invariant
            m.wf(),
            m.spec_user_index_of(user_id) is Some,
            forall|t: int| 0 <= t < orig.len() ==> m.spec_post_index_of((#[trigger] orig[t]).id) is Some,
            models_of(scored@) + input@ =~= orig,
            scores_ok(m, user_id, scored@),
        decreases input.len(),
    {
        let post = input.remove(0);
        proof {
            assert(orig[models_of(scored@).len() as int] == post);
        }
        let s = match m.predict(user_id, post.id) {
            Ok(s) => s,
            Err(_) => {
                proof {
                    assert(false);
                }
                0
            },
        };
        scored.push((post, s));
        proof {
            assert(models_of(scored@) + input@ =~= orig);
        }
    }
    proof {
        assert(models_of(scored@) =~= orig);
    }
    // Selection sort: repeatedly move the best remaining pair out.
    let mut out: Vec<(ContentModel, i64)> = Vec::new();
    while scored.len() > 0
        invariant
            m.wf(),
            scores_ok(m, user_id, scored@),
            scores_ok(m, user_id, out@),
            models_of(out@).to_multiset().add(models_of(scored@).to_multiset())
                =~= orig.to_multiset(),
            forall|x: int, y: int|
                0 <= x < out@.len() && 0 <= y < scored@.len() ==> (#[trigger] out@[x]).1 >= (
                #[trigger] scored@[y]).1,
            forall|x: int, y: int|
                0 <= x < y < out@.len() ==> (#[trigger] out@[x]).1 >= (#[trigger] out@[y]).1,
        decreases scored.len(),
    {
        let mut best: usize = 0;
        let mut t: usize = 1;
        while t < scored.len()
            invariant
                scored@.len() > 0,
                best < scored@.len(),
                1 <= t <= scored@.len(),
                forall|y: int| 0 <= y < t ==> (#[trigger] scored@[y]).1 <= scored@[best as int].1,
            decreases scored@.len() - t,
        {
            if scored[t].1 > scored[best].1 {
                best = t;
            }
            t = t + 1;
        }
        let ghost pre = scored@;
        let ghost out_pre = out@;
        let x = scored.remove(best);
        out.push(x);
        proof {
            models_of(pre).to_multiset_ensures();
            models_of(out_pre).to_multiset_ensures();
            assert(models_of(scored@) =~= models_of(pre).remove(best as int));
            assert(models_of(pre).remove(best as int).to_multiset() =~= models_of(
                pre,
            ).to_multiset().remove(models_of(pre)[best as int]));
            assert(models_of(out@) =~= models_of(out_pre).push(x.0));
            assert(models_of(out@).to_multiset() =~= models_of(out_pre).to_multiset().insert(x.0));
            assert(x.0 == models_of(pre)[best as int]);
            assert(models_of(pre).to_multiset().count(models_of(pre)[best as int]) > 0);
            assert(models_of(scored@).to_multiset() =~= models_of(pre).to_multiset().remove(x.0));
            assert forall|e: ContentModel|
                models_of(out@).to_multiset().add(models_of(scored@).to_multiset()).count(e)
                    == orig.to_multiset().count(e) by {
                assert(models_of(out@).to_multiset().count(e) == models_of(
                    out_pre,
                ).to_multiset().count(e) + (if e == x.0 {
                    1int
                } else {
                    0int
                }));
                assert(models_of(scored@).to_multiset().count(e) == models_of(
                    pre,
                ).to_multiset().count(e) - (if e == x.0 {
                    1int
                } else {
                    0int
                }));
                assert(models_of(out_pre).to_multiset().add(models_of(pre).to_multiset()).count(e)
                    == orig.to_multiset().count(e));
            }
            assert(models_of(out@).to_multiset().add(models_of(scored@).to_multiset())
                =~= orig.to_multiset());
        }
    }
    // Keep the best `num_taken`.
    let ghost sorted_all = models_of(out@);
    proof {
        assert(sorted_all.to_multiset() == orig.to_multiset());
        assert(sorted_by_score_desc(m, user_id, sorted_all)) by {
            assert forall|x: int, y: int| 0 <= x < y < sorted_all.len() implies post_score(
                m,
                user_id,
                sorted_all[x],
            ) >= post_score(m, user_id, sorted_all[y]) by {
                assert(out@[x].1 >= out@[y].1);
                assert(sorted_all[x] == out@[x].0);
                assert(sorted_all[y] == out@[y].0);
            }
        }
    }
    let mut result: Vec<ContentModel> = Vec::new();
    let limit: usize = if num_taken <= out.len() {
        num_taken
    } else {
        out.len()
    };
    proof {
        assert(limit as int == (if num_taken <= sorted_all.len() {
            num_taken as int
        } else {
            sorted_all.len() as int
        }));
    }
    let mut c: usize = 0;
    while c < limit
        invariant
            0 <= c <= limit,
            limit <= sorted_all.len(),
            result@.len() == c,
            result@ == sorted_all.take(c as int),
            models_of(out@) == sorted_all.skip(c as int),
        decreases limit - c,
    {
        proof {
            assert(models_of(out@).len() == sorted_all.len() - c);
            assert(models_of(out@)[0] == sorted_all[c as int]);
        }
        let ghost pre = out@;
        let x = out.remove(0);
        result.push(x.0);
        proof {
            assert(x.0 == models_of(pre)[0]);
            assert(models_of(out@) =~= models_of(pre).remove(0));
            assert(models_of(pre).remove(0) =~= sorted_all.skip(c + 1));
            assert(result@ =~= sorted_all.take(c + 1));
        }
        c = c + 1;
    }
    *posts = result;
    proof {
        assert(posts@ == sorted_all.take(limit as int));
        assert(sorted_all.to_multiset() == old(posts)@.to_multiset() && sorted_by_score_desc(
            m,
            user_id,
            sorted_all,
        ) && posts@ == sorted_all.take(
            if num_taken <= sorted_all.len() {
                num_taken as int
            } else {
                sorted_all.len() as int
            },
        ));
    }
    Ok(())
}

} // verus!
