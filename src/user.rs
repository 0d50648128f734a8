use vstd::prelude::*;
use crate::rating::{RatedPost, Rating, vote_on, without_post, revote, vote_delta, unique_posts, lemma_revote};

verus! {

/// An account. `id` is the e-mail address it was registered under and the
/// subject of its credentials; `rated` is its voting history, the only record
/// of how it has voted. Times are Unix seconds.
#[derive(Debug, Clone)]
pub struct User {
    pub id: String,
    pub username: String,
    pub password_hash: String,
    pub summary: Vec<i64>,
    pub rated: Vec<RatedPost>,
    pub last_upload: i64,
    pub register_date: i64,
}

impl User {
    /// A fresh account with no posts and no votes, registered at `now`.
    pub fn new(id: String, username: String, password_hash: String, now: i64) -> (r: User)
        ensures
            r.id@ == id@,
            r.username@ == username@,
            r.password_hash@ == password_hash@,
            r.summary@.len() == 0,
            r.rated@.len() == 0,
            unique_posts(r.rated@),
            r.last_upload == now,
            r.register_date == now,
    {
        User {
            id,
            username,
            password_hash,
            summary: Vec::new(),
            rated: Vec::new(),
            last_upload: now,
            register_date: now,
        }
    }

    /// The vote this user has on record for `post`, if any.
    pub fn vote_for(&self, post: i64) -> (r: Option<Rating>)
        ensures
            r == vote_on(self.rated@, post),
    {
        let mut found: Option<Rating> = None;
        let mut i: usize = 0;
        while i < self.rated.len()
            invariant
                i <= self.rated@.len(),
                found == vote_on(self.rated@.subrange(0, i as int), post),
            decreases self.rated@.len() - i,
        {
            let e = self.rated[i];
            assert(self.rated@.subrange(0, i + 1).drop_last() =~= self.rated@.subrange(0, i as int));
            if found.is_none() && e.post == post {
                found = Some(e.rating);
            }
            i = i + 1;
        }
        assert(self.rated@.subrange(0, self.rated@.len() as int) =~= self.rated@);
        found
    }

    /// Score change that recording `vote` would cause: the previous vote on
    /// the same post, if any, is withdrawn and the new one counted.
    pub fn vote_change(&self, vote: &RatedPost) -> (r: i32)
        ensures
            r == vote_delta(vote_on(self.rated@, vote.post), vote.rating),
            -2 <= r <= 2,
    {
        let mut change: i32 = 0;
        match self.vote_for(vote.post) {
            Some(Rating::Up) => change = change - 1,
            Some(Rating::Down) => change = change + 1,
            _ => {},
        }
        match vote.rating {
            Rating::Up => change = change + 1,
            Rating::Down => change = change - 1,
            Rating::Neutral => {},
        }
        change
    }

    /// Records `rated_post` as this user's vote on its post, replacing any
    /// earlier vote there, and returns the change to apply to the post's score.
    pub fn add_rated(&mut self, rated_post: RatedPost) -> (r: i32)
        ensures
            r == vote_delta(vote_on(old(self).rated@, rated_post.post), rated_post.rating),
            final(self).rated@ == revote(old(self).rated@, rated_post),
            vote_on(final(self).rated@, rated_post.post) == Some(rated_post.rating),
            unique_posts(old(self).rated@) ==> unique_posts(final(self).rated@),
            final(self).id == old(self).id,
            final(self).username == old(self).username,
            final(self).password_hash == old(self).password_hash,
            final(self).summary == old(self).summary,
            final(self).last_upload == old(self).last_upload,
            final(self).register_date == old(self).register_date,
    {
        let change = self.vote_change(&rated_post);
        let mut kept: Vec<RatedPost> = Vec::new();
        let mut i: usize = 0;
        while i < self.rated.len()
            invariant
                i <= self.rated@.len(),
                kept@ == without_post(self.rated@.subrange(0, i as int), rated_post.post),
            decreases self.rated@.len() - i,
        {
            let e = self.rated[i];
            assert(self.rated@.subrange(0, i + 1).drop_last() =~= self.rated@.subrange(0, i as int));
            if e.post != rated_post.post {
                kept.push(e);
            }
            i = i + 1;
        }
        assert(self.rated@.subrange(0, self.rated@.len() as int) =~= self.rated@);
        proof {
            lemma_revote(self.rated@, rated_post);
        }
        kept.push(rated_post);
        self.rated = kept;
        change
    }
}

} // verus!
