use vstd::prelude::*;
use crate::error::AppError;
use crate::rating::{RatedPost, Rating, vote_on, revote, vote_delta};
use crate::user::User;

verus! {

/// A file attached to a post.
#[derive(Debug, Clone)]
pub struct File {
    pub filename: String,
    pub size: i64,
}

/// A post. `rating` is the sum of the current votes of all users on it;
/// `upload_time` is in Unix seconds.
#[derive(Debug, Clone)]
pub struct Resource {
    pub id: i64,
    pub title: String,
    pub description: String,
    pub author: String,
    pub author_name: String,
    pub keywords: Vec<String>,
    pub files: Vec<File>,
    pub rating: i32,
    pub upload_time: i64,
}

/// A post as shown to one user, with that user's own vote on it.
#[derive(Debug, Clone)]
pub struct SendResource {
    pub id: i64,
    pub title: String,
    pub description: String,
    pub author: String,
    pub author_name: String,
    pub keywords: Vec<String>,
    pub files: Vec<File>,
    pub rating: i32,
    pub upload_time: i64,
    pub rate: Rating,
}

/// What a client sends to create a post.
#[derive(Debug, Clone)]
pub struct CreateResource {
    pub title: String,
    pub description: String,
    pub keywords: Vec<String>,
}

/// The query of a post listing: the posts wanted, by identifier, where a
/// trailing `0` asks for the newest posts instead.
#[derive(Debug, Clone)]
pub struct GetParams {
    pub posts: Vec<i64>,
    pub keywords: Vec<String>,
}

/// Which posts a listing fetches.
#[derive(Debug, Clone)]
pub enum PostSelection {
    /// The newest posts, at most `LATEST_PAGE_SIZE` of them.
    Latest,
    /// These posts, in this order.
    Listed(Vec<i64>),
}

/// How many posts a listing of the newest posts holds at most.
pub const LATEST_PAGE_SIZE: usize = 10;

/// What the answer to an upload reports.
#[derive(Debug, Clone)]
pub struct UploadResponse {
    pub success: bool,
    pub message: String,
    pub file_paths: Vec<String>,
}

/// The vote a user is shown for a post: their own, or `Neutral` when they have none.
pub open spec fn shown_rating(rated: Seq<RatedPost>, post: i64) -> Rating {
    match vote_on(rated, post) {
        Some(r) => r,
        None => Rating::Neutral,
    }
}

/// `s` as shown to a user whose vote on it is `rate`.
pub open spec fn sent_as(p: Resource, s: SendResource, rate: Rating) -> bool {
    &&& s.id == p.id
    &&& s.title == p.title
    &&& s.description == p.description
    &&& s.author == p.author
    &&& s.author_name == p.author_name
    &&& s.keywords == p.keywords
    &&& s.files == p.files
    &&& s.rating == p.rating
    &&& s.upload_time == p.upload_time
    &&& s.rate == rate
}

/// `b` is `a` with its score set to `rating` and nothing else changed.
pub open spec fn rescored(a: Resource, b: Resource, rating: int) -> bool {
    &&& b.id == a.id
    &&& b.title == a.title
    &&& b.description == a.description
    &&& b.author == a.author
    &&& b.author_name == a.author_name
    &&& b.keywords == a.keywords
    &&& b.files == a.files
    &&& b.upload_time == a.upload_time
    &&& b.rating == rating
}

/// `b` is `a` with, at most, other files.
pub open spec fn same_but_files(a: Resource, b: Resource) -> bool {
    &&& b.id == a.id
    &&& b.title == a.title
    &&& b.description == a.description
    &&& b.author == a.author
    &&& b.author_name == a.author_name
    &&& b.keywords == a.keywords
    &&& b.rating == a.rating
    &&& b.upload_time == a.upload_time
}

impl CreateResource {
    /// The new post `id`, written by `author` at `now`, with no files and no votes.
    pub fn into_resource(self, author: String, author_name: String, id: i64, now: i64) -> (r:
        Resource)
        ensures
            r.id == id,
            r.title == self.title,
            r.description == self.description,
            r.keywords == self.keywords,
            r.author == author,
            r.author_name == author_name,
            r.files@.len() == 0,
            r.rating == 0,
            r.upload_time == now,
    {
        Resource {
            id,
            title: self.title,
            description: self.description,
            author,
            author_name,
            keywords: self.keywords,
            files: Vec::new(),
            rating: 0,
            upload_time: now,
        }
    }
}

impl Resource {
    /// This post as shown to a user whose vote on it is `rating`.
    pub fn into_send_resource(self, rating: Rating) -> (r: SendResource)
        ensures
            sent_as(self, r, rating),
    {
        SendResource {
            id: self.id,
            title: self.title,
            description: self.description,
            author: self.author,
            author_name: self.author_name,
            keywords: self.keywords,
            files: self.files,
            rating: self.rating,
            upload_time: self.upload_time,
            rate: rating,
        }
    }
}

impl GetParams {
    /// Which posts this query fetches. Its last identifier is taken off: when
    /// that is `0` the newest posts are fetched, else the remaining identifiers.
    pub fn selection(self) -> (r: PostSelection)
        ensures
            self.posts@.len() > 0 && self.posts@.last() == 0 ==> r is Latest,
            !(self.posts@.len() > 0 && self.posts@.last() == 0) ==> r is Listed
                && r->Listed_0@ == if self.posts@.len() > 0 {
                self.posts@.drop_last()
            } else {
                self.posts@
            },
    {
        let mut posts = self.posts;
        match posts.pop() {
            Some(last) => if last == 0 {
                PostSelection::Latest
            } else {
                PostSelection::Listed(posts)
            },
            None => PostSelection::Listed(posts),
        }
    }
}

/// The fetched posts as shown to `user`, each with the user's own vote on it.
pub fn get_posts(posts: Vec<Resource>, user: &User) -> (r: Vec<SendResource>)
    ensures
        r@.len() == posts@.len(),
        forall|i: int|
            0 <= i < posts@.len() ==> sent_as(
                #[trigger] posts@[i],
                r@[i],
                shown_rating(user.rated@, posts@[i].id),
            ),
{
    let ghost original = posts@;
    let n = posts.len();
    let mut rest = posts;
    let mut shown: Vec<SendResource> = Vec::new();
    let mut i: usize = 0;
    while rest.len() > 0
        invariant
            i + rest@.len() == original.len(),
            original.len() == n,
            rest@ == original.subrange(i as int, original.len() as int),
            shown@.len() == i,
            forall|k: int|
                0 <= k < i ==> sent_as(
                    #[trigger] original[k],
                    shown@[k],
                    shown_rating(user.rated@, original[k].id),
                ),
        decreases rest@.len(),
    {
        let post = rest.remove(0);
        assert(post == original[i as int]);
        let rate = match user.vote_for(post.id) {
            Some(r) => r,
            None => Rating::Neutral,
        };
        shown.push(post.into_send_resource(rate));
        assert(rest@ =~= original.subrange(i + 1, original.len() as int));
        i = i + 1;
    }
    shown
}

/// Applies `user`'s vote to `post`: the vote replaces the user's earlier one on
/// this post and the post's score moves by the difference. A vote on another
/// post is a bad request; a score that would leave the `i32` range is an
/// internal error. On error nothing changes.
pub fn rate_post(post: &mut Resource, user: &mut User, vote: RatedPost) -> (r: Result<(), AppError>)
    ensures
        ({
            let d = vote_delta(vote_on(old(user).rated@, vote.post), vote.rating);
            let total = old(post).rating + d;
            &&& vote.post != old(post).id ==> r == Err::<(), AppError>(AppError::BadRequest)
            &&& vote.post == old(post).id && !(i32::MIN <= total <= i32::MAX) ==> r == Err::<
                (),
                AppError,
            >(AppError::InternalServerError)
            &&& r is Ok <==> vote.post == old(post).id && i32::MIN <= total <= i32::MAX
            &&& r is Ok ==> rescored(*old(post), *final(post), total) && final(user).rated@
                == revote(old(user).rated@, vote) && final(user).id == old(user).id
                && final(user).username == old(user).username && final(user).password_hash
                == old(user).password_hash && final(user).summary == old(user).summary
                && final(user).last_upload == old(user).last_upload && final(user).register_date
                == old(user).register_date
            &&& r is Err ==> *final(post) == *old(post) && *final(user) == *old(user)
        }),
{
    if vote.post != post.id {
        return Err(AppError::BadRequest);
    }
    let change = user.vote_change(&vote);
    let total: i64 = post.rating as i64 + change as i64;
    if total < i32::MIN as i64 || total > i32::MAX as i64 {
        return Err(AppError::InternalServerError);
    }
    let applied = user.add_rated(vote);
    post.rating = total as i32;
    assert(applied == change);
    Ok(())
}

/// The name under which sanitize_filename stores a file a client called
/// `name`, on the target this library was built for.
pub uninterp spec fn sanitized(name: Seq<char>) -> Seq<char>;

/// Relies on sanitize_filename::sanitize (default options) to turn a client's
/// file name into one that is safe to store; for a given build target the
/// result depends on the name alone.
#[verifier::external_body]
fn sanitize_name(name: &str) -> (r: String)
    ensures
        r@ == sanitized(name@),
{
    sanitize_filename::sanitize(name)
}

pub open spec fn upload_message(had_errors: bool, stored: nat) -> Seq<char> {
    if had_errors {
        "Some files failed to upload"@
    } else if stored == 0 {
        "No files were uploaded"@
    } else {
        "Files uploaded successfully"@
    }
}

/// Bookkeeping of one upload request, which receives files one at a time.
#[derive(Debug)]
pub struct UploadProgress {
    pub file_paths: Vec<String>,
    pub had_errors: bool,
}

impl UploadProgress {
    /// Nothing received yet.
    pub fn new() -> (r: UploadProgress)
        ensures
            r.file_paths@.len() == 0,
            !r.had_errors,
    {
        UploadProgress { file_paths: Vec::new(), had_errors: false }
    }

    /// The name to store a received part under: parts without a file name
    /// are skipped, others get their name sanitised.
    pub fn target_name(client_name: Option<&str>) -> (r: Option<String>)
        ensures
            match client_name {
                None => r is None,
                Some(n) => r is Some && r->Some_0@ == sanitized(n@),
            },
    {
        match client_name {
            None => None,
            Some(n) => Some(sanitize_name(n)),
        }
    }

    /// A part could not be read or stored; the upload goes on with the others.
    pub fn failed(&mut self)
        ensures
            final(self).had_errors,
            final(self).file_paths == old(self).file_paths,
    {
        self.had_errors = true;
    }

    /// A file of `size` bytes was stored under `name`: the post lists it and
    /// the answer reports it.
    pub fn stored(&mut self, post: &mut Resource, name: String, size: usize)
        requires
            size <= i64::MAX,
        ensures
            final(self).had_errors == old(self).had_errors,
            final(self).file_paths@ == old(self).file_paths@.push(name),
            final(post).files@.len() == old(post).files@.len() + 1,
            final(post).files@.drop_last() == old(post).files@,
            final(post).files@.last().filename == name,
            final(post).files@.last().size == size as i64,
            same_but_files(*old(post), *final(post)),
    {
        post.files.push(File { filename: name.clone(), size: size as i64 });
        self.file_paths.push(name);
    }

    /// The answer to the upload: a success when every part was stored and at
    /// least one was.
    pub fn finish(self) -> (r: UploadResponse)
        ensures
            r.success == (!self.had_errors && self.file_paths@.len() > 0),
            r.message@ == upload_message(self.had_errors, self.file_paths@.len()),
            r.file_paths == self.file_paths,
    {
        let success = !self.had_errors && self.file_paths.len() > 0;
        let message = if self.had_errors {
            "Some files failed to upload"
        } else if self.file_paths.len() == 0 {
            "No files were uploaded"
        } else {
            "Files uploaded successfully"
        };
        UploadResponse { success, message: message.to_owned(), file_paths: self.file_paths }
    }
}

} // verus!
