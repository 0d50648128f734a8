use vstd::prelude::*;

verus! {

/// Direction of a user's vote on a post. `Neutral` records an explicit absence
/// of a vote.
#[derive(Debug, Clone, Copy, PartialEq, Eq, Structural)]
pub enum Rating {
    Up,
    Down,
    Neutral,
}

/// One entry of a user's voting history.
#[derive(Debug, Clone, Copy, PartialEq, Eq, Structural)]
pub struct RatedPost {
    pub post: i64,
    pub rating: Rating,
}

/// Signed contribution of a vote to a post's score.
pub open spec fn weight(r: Rating) -> int {
    match r {
        Rating::Up => 1,
        Rating::Down => -1,
        Rating::Neutral => 0,
    }
}

/// Score change when a user's vote on a post goes from `prev` (if any) to `next`.
pub open spec fn vote_delta(prev: Option<Rating>, next: Rating) -> int {
    weight(next) - match prev {
        Some(p) => weight(p),
        None => 0,
    }
}

/// The first vote on `post` in a voting history, scanning from the front.
pub open spec fn vote_on(s: Seq<RatedPost>, post: i64) -> Option<Rating>
    decreases s.len(),
{
    if s.len() == 0 {
        None
    } else {
        match vote_on(s.drop_last(), post) {
            Some(r) => Some(r),
            None => if s.last().post == post {
                Some(s.last().rating)
            } else {
                None
            },
        }
    }
}

/// The history with every entry on `post` taken out, order kept.
pub open spec fn without_post(s: Seq<RatedPost>, post: i64) -> Seq<RatedPost>
    decreases s.len(),
{
    if s.len() == 0 {
        Seq::empty()
    } else {
        let rest = without_post(s.drop_last(), post);
        if s.last().post == post {
            rest
        } else {
            rest.push(s.last())
        }
    }
}

/// The history after recording `v`: older entries on the same post are
/// replaced, and `v` goes last.
pub open spec fn revote(s: Seq<RatedPost>, v: RatedPost) -> Seq<RatedPost> {
    without_post(s, v.post).push(v)
}

/// At most one entry per post.
pub open spec fn unique_posts(s: Seq<RatedPost>) -> bool {
    forall|i: int, j: int|
        0 <= i < s.len() && 0 <= j < s.len() && #[trigger] s[i].post == #[trigger] s[j].post
            ==> i == j
}

pub proof fn lemma_without_post(s: Seq<RatedPost>, post: i64)
    ensures
        forall|x: RatedPost| #[trigger]
            without_post(s, post).contains(x) ==> s.contains(x) && x.post != post,
        vote_on(without_post(s, post), post) is None,
        unique_posts(s) ==> unique_posts(without_post(s, post)),
    decreases s.len(),
{
    if s.len() > 0 {
        let init = s.drop_last();
        lemma_without_post(init, post);
        let rest = without_post(init, post);
        assert forall|x: RatedPost| #[trigger] init.contains(x) implies s.contains(x) by {
            let k = choose|k: int| 0 <= k < init.len() && init[k] == x;
            assert(s[k] == x);
        }
        if s.last().post != post {
            let w = rest.push(s.last());
            assert(w.drop_last() =~= rest);
            assert forall|x: RatedPost| #[trigger] w.contains(x) implies s.contains(x)
                && x.post != post by {
                let k = choose|k: int| 0 <= k < w.len() && w[k] == x;
                if k < rest.len() {
                    assert(rest[k] == x);
                    assert(rest.contains(x));
                } else {
                    assert(s[s.len() - 1] == x);
                }
            }
            if unique_posts(s) {
                assert(unique_posts(init)) by {
                    assert forall|i: int, j: int|
                        0 <= i < init.len() && 0 <= j < init.len() && #[trigger] init[i].post
                            == #[trigger] init[j].post implies i == j by {
                        assert(s[i] == init[i] && s[j] == init[j]);
                    }
                }
                assert forall|i: int, j: int|
                    0 <= i < w.len() && 0 <= j < w.len() && #[trigger] w[i].post
                        == #[trigger] w[j].post implies i == j by {
                    if i < rest.len() && j == rest.len() {
                        assert(rest[i] == w[i]);
                        assert(rest.contains(w[i]));
                        let k = choose|k: int| 0 <= k < init.len() && init[k] == w[i];
                        assert(s[k] == init[k]);
                    } else if j < rest.len() && i == rest.len() {
                        assert(rest[j] == w[j]);
                        assert(rest.contains(w[j]));
                        let k = choose|k: int| 0 <= k < init.len() && init[k] == w[j];
                        assert(s[k] == init[k]);
                    } else if i < rest.len() && j < rest.len() {
                        assert(rest[i] == w[i] && rest[j] == w[j]);
                    }
                }
            }
        } else {
            if unique_posts(s) {
                assert forall|i: int, j: int|
                    0 <= i < init.len() && 0 <= j < init.len() && #[trigger] init[i].post
                        == #[trigger] init[j].post implies i == j by {
                    assert(s[i] == init[i] && s[j] == init[j]);
                }
            }
        }
    }
}

/// After a vote is recorded, the history holds exactly that vote for its post,
/// and a history with one entry per post keeps that shape.
pub proof fn lemma_revote(s: Seq<RatedPost>, v: RatedPost)
    ensures
        vote_on(revote(s, v), v.post) == Some(v.rating),
        unique_posts(s) ==> unique_posts(revote(s, v)),
{
    lemma_without_post(s, v.post);
    let rest = without_post(s, v.post);
    let w = revote(s, v);
    assert(w.drop_last() =~= rest);
    if unique_posts(s) {
        assert forall|i: int, j: int|
            0 <= i < w.len() && 0 <= j < w.len() && #[trigger] w[i].post == #[trigger] w[j].post
                implies i == j by {
            if i < rest.len() && j == rest.len() {
                assert(rest[i] == w[i]);
                assert(rest.contains(w[i]));
            } else if j < rest.len() && i == rest.len() {
                assert(rest[j] == w[j]);
                assert(rest.contains(w[j]));
            } else if i < rest.len() && j < rest.len() {
                assert(rest[i] == w[i] && rest[j] == w[j]);
            }
        }
    }
}

/// Two successive votes by one user on one post move the post's score, in
/// total, by exactly what the second vote alone would have moved it from the
/// starting history, and leave the second vote as the user's only entry for
/// that post. Repeating a vote changes the score by nothing; from a history
/// without a vote on the post, the total is the second vote's weight.
pub proof fn lemma_successive_votes(s: Seq<RatedPost>, post: i64, first: Rating, second: Rating)
    requires
        unique_posts(s),
    ensures
        ({
            let after_first = revote(s, (RatedPost { post, rating: first }));
            let after_second = revote(after_first, (RatedPost { post, rating: second }));
            let total = vote_delta(vote_on(s, post), first) + vote_delta(
                vote_on(after_first, post),
                second,
            );
            &&& total == vote_delta(vote_on(s, post), second)
            &&& vote_on(after_second, post) == Some(second)
            &&& unique_posts(after_second)
            &&& (first == second ==> vote_delta(vote_on(after_first, post), second) == 0)
            &&& (vote_on(s, post) is None ==> total == weight(second))
        }),
{
    let a = RatedPost { post, rating: first };
    let b = RatedPost { post, rating: second };
    lemma_revote(s, a);
    lemma_revote(revote(s, a), b);
}

} // verus!
