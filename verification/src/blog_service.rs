//! The post use-cases: create, read, update, delete and list, with the rule
//! that only a post's author may change or remove it.

use vstd::prelude::*;
use crate::error::{AppError, AppErrorView};
use crate::post::{views_of, Post, PostView};
use crate::post_repository::{
    deleted_as,
    has_post,
    has_post_by,
    ids_distinct,
    ids_exhausted_message,
    newest_first,
    page_of,
    placed_at,
    refusal,
    updated_as,
    PostRepository,
};

verus! {

/// What stands between a caller and a change to the post `found`: nothing
/// when the caller wrote it, `Forbidden` when somebody else did, and
/// `PostNotFound` when there is no such post.
pub open spec fn mutation_guard(found: Option<PostView>, user_id: i64) -> Option<AppErrorView> {
    match found {
        None => Some(AppErrorView::PostNotFound),
        Some(post) => if post.author_id != user_id {
            Some(AppErrorView::Forbidden)
        } else {
            None
        },
    }
}

/// Decides whether `user_id` may change or remove the post that a lookup
/// returned, and hands the post on when it may.
pub fn authorize(found: Option<Post>, user_id: i64) -> (allowed: Result<Post, AppError>)
    ensures
        match allowed {
            Ok(post) => found == Some(post) && mutation_guard(Some(post@), user_id).is_none(),
            Err(e) => mutation_guard(
                match found {
                    Some(post) => Some(post@),
                    None => None,
                },
                user_id,
            ) == Some(e@),
        },
{
    match found {
        None => Err(AppError::PostNotFound),
        Some(post) => {
            if post.author_id != user_id {
                Err(AppError::Forbidden)
            } else {
                Ok(post)
            }
        },
    }
}

/// Whether `created` and the posts `after` are what creating a post written
/// by `author_id` at instant `now` yields on a store that held `before` and
/// would hand out `next_id`: the new post, placed in front of every post that
/// is not newer; or a storage error and no change when no id is left.
pub open spec fn created_as(
    before: Seq<PostView>,
    next_id: i64,
    after: Seq<PostView>,
    created: Result<Post, AppError>,
    title: Seq<char>,
    content: Seq<char>,
    author_id: i64,
    now: i64,
) -> bool {
    match created {
        Ok(post) => {
            &&& next_id < i64::MAX
            &&& post@ == (PostView {
                id: next_id,
                title,
                content,
                author_id,
                created_at: now,
                updated_at: now,
            })
            &&& exists|k: int| placed_at(before, after, post@, k)
        },
        Err(e) => {
            &&& next_id == i64::MAX
            &&& e@ == AppErrorView::SqlxError(ids_exhausted_message())
            &&& after == before
        },
    }
}

/// Whether `found` is what fetching the post `post_id` yields on `posts`:
/// the post, or `PostNotFound` when there is none.
pub open spec fn fetched_as(posts: Seq<PostView>, found: Result<Post, AppError>, post_id: i64) -> bool {
    match found {
        Ok(post) => posts.contains(post@) && post.id == post_id,
        Err(e) => !has_post(posts, post_id) && e@ == AppErrorView::PostNotFound,
    }
}

/// Whether `listed` is what listing `posts` through the window yields: the
/// page and the number of all posts. Listing never fails.
pub open spec fn listed_as(
    posts: Seq<PostView>,
    listed: Result<(Vec<Post>, u64), AppError>,
    limit: i64,
    offset: i64,
) -> bool {
    match listed {
        Ok((page, total)) => {
            &&& views_of(page@) == page_of(posts, limit, offset)
            &&& total == posts.len()
        },
        Err(_) => false,
    }
}

/// The post use-cases over one post store.
pub struct BlogService {
    post_repo: PostRepository,
}

impl View for BlogService {
    type V = Seq<PostView>;

    closed spec fn view(&self) -> Seq<PostView> {
        self.post_repo@
    }
}

impl BlogService {
    /// The id that the next post will receive.
    pub closed spec fn next_id(&self) -> i64 {
        self.post_repo.next_id()
    }

    /// The invariant of the underlying store.
    pub closed spec fn wf(&self) -> bool {
        self.post_repo.wf()
    }

    /// What the invariant says of the posts: they are ordered newest first,
    /// their ids are unique, positive and below the next id, and there are
    /// fewer of them than ids were handed out.
    pub proof fn lemma_wf(&self)
        requires
            self.wf(),
        ensures
            newest_first(self@),
            ids_distinct(self@),
            self.next_id() >= 1,
            self@.len() < self.next_id(),
            forall|i: int| 0 <= i < self@.len() ==> 1 <= (#[trigger] self@[i]).id < self.next_id(),
    {
    }

    /// Builds the use-cases around a store.
    pub fn new(post_repo: PostRepository) -> (service: BlogService)
        ensures
            service@ == post_repo@,
            service.next_id() == post_repo.next_id(),
            service.wf() == post_repo.wf(),
    {
        BlogService { post_repo }
    }

    /// Stores a new post written by `author_id` at instant `now`
    /// (milliseconds since the Unix epoch). No ownership check is needed: the
    /// caller is the author.
    pub fn create_post(&mut self, title: String, content: String, author_id: i64, now: i64) -> (created:
        Result<Post, AppError>)
        requires
            old(self).wf(),
        ensures
            final(self).wf(),
            final(self).next_id() == (if created is Ok {
                (old(self).next_id() + 1) as i64
            } else {
                old(self).next_id()
            }),
            created_as(
                old(self)@,
                old(self).next_id(),
                final(self)@,
                created,
                title@,
                content@,
                author_id,
                now,
            ),
    {
        let created = self.post_repo.create_post(title, content, author_id, now);
        proof {
            if let Ok(post) = &created {
                let k = choose|k: int| placed_at(old(self).post_repo@, self.post_repo@, post@, k);
                assert(placed_at(old(self)@, self@, post@, k));
            }
        }
        created
    }

    /// Fetches the post with this id; `PostNotFound` when there is none.
    pub fn get_post(&self, post_id: i64) -> (found: Result<Post, AppError>)
        ensures
            fetched_as(self@, found, post_id),
    {
        match self.post_repo.get_post(post_id) {
            Ok(Some(post)) => Ok(post),
            Ok(None) => Err(AppError::PostNotFound),
            Err(e) => Err(e),
        }
    }

    /// Fetches the post and checks that `user_id` wrote it.
    fn owned_post(&self, post_id: i64, user_id: i64) -> (owned: Result<Post, AppError>)
        requires
            self.wf(),
        ensures
            match owned {
                Ok(post) => has_post_by(self@, post_id, user_id),
                Err(e) => {
                    &&& !has_post_by(self@, post_id, user_id)
                    &&& e@ == refusal(self@, post_id)
                },
            },
    {
        let found = match self.post_repo.get_post(post_id) {
            Ok(found) => found,
            Err(e) => { return Err(e); },
        };
        proof {
            if let Some(post) = &found {
                let i = choose|i: int| 0 <= i < self@.len() && self@[i] == post@;
                assert(self@[i].id == post_id);
                if post.author_id != user_id {
                    assert forall|k: int| 0 <= k < self@.len() && (#[trigger] self@[k]).id
                        == post_id implies self@[k].author_id != user_id by {
                        assert(k == i);
                    }
                }
            }
        }
        authorize(found, user_id)
    }

    /// Rewrites title and content of the post on behalf of `user_id` and
    /// refreshes its update instant to `now`. The post is looked up first:
    /// `PostNotFound` when it does not exist, `Forbidden` when somebody else
    /// wrote it; in both cases nothing changes. The write itself is guarded by
    /// the author once more.
    pub fn update_post(
        &mut self,
        post_id: i64,
        title: String,
        content: String,
        user_id: i64,
        now: i64,
    ) -> (updated: Result<Post, AppError>)
        requires
            old(self).wf(),
        ensures
            final(self).wf(),
            final(self).next_id() == old(self).next_id(),
            updated_as(old(self)@, final(self)@, updated, post_id, title@, content@, user_id, now),
    {
        match self.owned_post(post_id, user_id) {
            Ok(_) => {},
            Err(e) => { return Err(e); },
        }
        self.post_repo.update_post(post_id, title, content, user_id, now)
    }

    /// Removes the post on behalf of `user_id`, under the same check as an
    /// update: `PostNotFound` when it does not exist, `Forbidden` when
    /// somebody else wrote it, and nothing changes in either case.
    pub fn delete_post(&mut self, post_id: i64, user_id: i64) -> (deleted: Result<(), AppError>)
        requires
            old(self).wf(),
        ensures
            final(self).wf(),
            final(self).next_id() == old(self).next_id(),
            deleted_as(old(self)@, final(self)@, deleted, post_id, user_id),
    {
        match self.owned_post(post_id, user_id) {
            Ok(_) => {},
            Err(e) => { return Err(e); },
        }
        self.post_repo.delete_post(post_id, user_id)
    }

    /// One page of posts, newest first, together with the number of posts
    /// in the store. The page holds at most `limit` posts and starts `offset`
    /// posts after the newest; a negative `limit` or `offset` counts as 0.
    pub fn get_posts(&self, limit: i64, offset: i64) -> (listed: Result<(Vec<Post>, u64), AppError>)
        ensures
            listed_as(self@, listed, limit, offset),
    {
        let posts = match self.post_repo.get_posts(limit, offset) {
            Ok(posts) => posts,
            Err(e) => { return Err(e); },
        };
        let total = match self.post_repo.get_total_posts_count() {
            Ok(total) => total,
            Err(e) => { return Err(e); },
        };
        Ok((posts, total))
    }
}

/// A page never holds more posts than the limit allows (none for a limit
/// below 1), holds only posts of the store, in the store's order, which is
/// newest first, and is the same whatever the total.
pub proof fn lemma_page_is_bounded_and_newest_first(posts: Seq<PostView>, limit: i64, offset: i64)
    requires
        newest_first(posts),
    ensures
        page_of(posts, limit, offset).len() <= posts.len(),
        limit <= 0 ==> page_of(posts, limit, offset).len() == 0,
        limit > 0 ==> page_of(posts, limit, offset).len() <= limit,
        newest_first(page_of(posts, limit, offset)),
        forall|k: int|
            0 <= k < page_of(posts, limit, offset).len() ==> posts.contains(
                #[trigger] page_of(posts, limit, offset)[k],
            ),
{
    let page = page_of(posts, limit, offset);
    let start: int = if offset <= 0 {
        0
    } else if offset >= posts.len() {
        posts.len() as int
    } else {
        offset as int
    };
    assert forall|k: int| 0 <= k < page.len() implies posts.contains(#[trigger] page[k]) by {
        assert(page[k] == posts[start + k]);
    }
    assert forall|i: int, j: int| 0 <= i < j < page.len() implies (#[trigger] page[i]).created_at
        >= (#[trigger] page[j]).created_at by {
        assert(page[i] == posts[start + i]);
        assert(page[j] == posts[start + j]);
    }
}

/// A listing that names neither limit nor offset starts at the newest post
/// and holds the ten newest posts, or all of them when there are fewer.
pub proof fn lemma_default_page(posts: Seq<PostView>)
    ensures
        page_of(posts, crate::post::default_limit(), crate::post::default_offset())
            == posts.subrange(
            0,
            if posts.len() < 10 {
                posts.len() as int
            } else {
                10
            },
        ),
        page_of(posts, crate::post::default_limit(), crate::post::default_offset()).len() <= 10,
{
}

} // verus!
