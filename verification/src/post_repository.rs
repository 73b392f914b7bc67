//! The post store: create, read, owner-guarded update and delete, paged
//! listing and total count. Posts are kept newest first.

use vstd::prelude::*;
use vstd::string::*;
use crate::error::{AppError, AppErrorView};
use crate::post::{views_of, Post, PostView};

verus! {

/// Whether `posts` is ordered by creation time, newest first.
pub open spec fn newest_first(posts: Seq<PostView>) -> bool {
    forall|i: int, j: int|
        0 <= i < j < posts.len() ==> (#[trigger] posts[i]).created_at >= (
        #[trigger] posts[j]).created_at
}

/// Whether no two posts in `posts` share an id.
pub open spec fn ids_distinct(posts: Seq<PostView>) -> bool {
    forall|i: int, j: int|
        0 <= i < j < posts.len() ==> (#[trigger] posts[i]).id != (#[trigger] posts[j]).id
}

/// Whether some post in `posts` carries `id`.
pub open spec fn has_post(posts: Seq<PostView>, id: i64) -> bool {
    exists|i: int| 0 <= i < posts.len() && (#[trigger] posts[i]).id == id
}

/// Whether some post in `posts` carries `id` and was written by `author_id`.
pub open spec fn has_post_by(posts: Seq<PostView>, id: i64, author_id: i64) -> bool {
    exists|i: int|
        0 <= i < posts.len() && (#[trigger] posts[i]).id == id && posts[i].author_id == author_id
}

/// The window `[offset, offset + limit)` of `posts`, cut to what exists.
/// A negative `offset` counts as 0 and a negative `limit` as 0, so the page
/// is then empty or starts at the newest post.
pub open spec fn page_of(posts: Seq<PostView>, limit: i64, offset: i64) -> Seq<PostView> {
    let start = if offset <= 0 {
        0
    } else if offset >= posts.len() {
        posts.len() as int
    } else {
        offset as int
    };
    let count = if limit <= 0 {
        0
    } else if limit >= posts.len() - start {
        posts.len() - start
    } else {
        limit as int
    };
    posts.subrange(start, start + count)
}

/// Whether `after` is `before` with `post` placed at position `k`, in front
/// of every post that is not newer than `post` and behind all newer ones.
pub open spec fn placed_at(before: Seq<PostView>, after: Seq<PostView>, post: PostView, k: int) -> bool {
    &&& 0 <= k <= before.len()
    &&& after == before.insert(k, post)
    &&& forall|i: int| 0 <= i < k ==> (#[trigger] before[i]).created_at > post.created_at
    &&& forall|i: int| k <= i < before.len() ==> (#[trigger] before[i]).created_at <= post.created_at
}

/// The error that refuses a change to the post `post_id` on behalf of a
/// caller who did not write a post of that id: `Forbidden` when the post
/// exists, `PostNotFound` when it does not.
pub open spec fn refusal(posts: Seq<PostView>, post_id: i64) -> AppErrorView {
    if has_post(posts, post_id) {
        AppErrorView::Forbidden
    } else {
        AppErrorView::PostNotFound
    }
}

/// Whether `updated` and the posts `after` are what an update of the post
/// `post_id` on behalf of `user_id` at instant `now` yields on `before`: the
/// rewritten post in place of the old one when `user_id` wrote it, and
/// otherwise the refusal and no change.
pub open spec fn updated_as(
    before: Seq<PostView>,
    after: Seq<PostView>,
    updated: Result<Post, AppError>,
    post_id: i64,
    title: Seq<char>,
    content: Seq<char>,
    user_id: i64,
    now: i64,
) -> bool {
    match updated {
        Ok(post) => {
            &&& has_post_by(before, post_id, user_id)
            &&& exists|i: int|
                {
                    &&& 0 <= i < before.len()
                    &&& (#[trigger] before[i]).id == post_id
                    &&& post@ == (PostView { title, content, updated_at: now, ..before[i] })
                    &&& post.author_id == user_id
                    &&& after == before.update(i, post@)
                }
        },
        Err(e) => {
            &&& !has_post_by(before, post_id, user_id)
            &&& after == before
            &&& e@ == refusal(before, post_id)
        },
    }
}

/// Whether `deleted` and the posts `after` are what deleting the post
/// `post_id` on behalf of `user_id` yields on `before`: the post is gone when
/// `user_id` wrote it, and otherwise the refusal and no change.
pub open spec fn deleted_as(
    before: Seq<PostView>,
    after: Seq<PostView>,
    deleted: Result<(), AppError>,
    post_id: i64,
    user_id: i64,
) -> bool {
    match deleted {
        Ok(_) => {
            &&& has_post_by(before, post_id, user_id)
            &&& !has_post(after, post_id)
            &&& exists|i: int|
                {
                    &&& 0 <= i < before.len()
                    &&& (#[trigger] before[i]).id == post_id
                    &&& after == before.remove(i)
                }
        },
        Err(e) => {
            &&& !has_post_by(before, post_id, user_id)
            &&& after == before
            &&& e@ == refusal(before, post_id)
        },
    }
}

/// Message of the storage error raised when the store has run out of ids.
pub open spec fn ids_exhausted_message() -> Seq<char> {
    "post identifiers are exhausted"@
}

/// The refusal of a guarded write that matched no post, given whether a
/// post of that id exists at all.
pub fn refusal_for(post_exists: bool) -> (error: AppError)
    ensures
        error@ == (if post_exists {
            AppErrorView::Forbidden
        } else {
            AppErrorView::PostNotFound
        }),
{
    if post_exists {
        AppError::Forbidden
    } else {
        AppError::PostNotFound
    }
}

/// The posts, newest first.
pub struct PostRepository {
    posts: Vec<Post>,
    next_id: i64,
}

impl View for PostRepository {
    type V = Seq<PostView>;

    closed spec fn view(&self) -> Seq<PostView> {
        views_of(self.posts@)
    }
}

impl PostRepository {
    /// The id that the next post will receive.
    pub closed spec fn next_id(&self) -> i64 {
        self.next_id
    }

    /// The store's invariant: posts are ordered newest first, ids are
    /// unique, every id handed out so far is positive and below the next
    /// one, and there are fewer posts than ids were handed out.
    pub open spec fn wf(&self) -> bool {
        &&& newest_first(self@)
        &&& ids_distinct(self@)
        &&& self.next_id() >= 1
        &&& self@.len() < self.next_id()
        &&& forall|i: int| 0 <= i < self@.len() ==> 1 <= (#[trigger] self@[i]).id < self.next_id()
    }

    /// An empty store whose first post will get id 1.
    pub fn new() -> (repo: PostRepository)
        ensures
            repo.wf(),
            repo@ == Seq::<PostView>::empty(),
            repo.next_id() == 1,
    {
        let repo = PostRepository { posts: Vec::new(), next_id: 1 };
        assert(repo@ =~= Seq::<PostView>::empty());
        repo
    }

    /// Stores a new post written by `author_id` at instant `now`
    /// (milliseconds since the Unix epoch) and returns it with its fresh id.
    /// The post is placed in front of every post that is not newer than it.
    pub fn create_post(&mut self, title: String, content: String, author_id: i64, now: i64) -> (created:
        Result<Post, AppError>)
        requires
            old(self).wf(),
        ensures
            final(self).wf(),
            old(self).next_id() == i64::MAX <==> created is Err,
            match created {
                Ok(post) => {
                    &&& post@ == (PostView {
                        id: old(self).next_id(),
                        title: title@,
                        content: content@,
                        author_id,
                        created_at: now,
                        updated_at: now,
                    })
                    &&& final(self).next_id() == old(self).next_id() + 1
                    &&& exists|k: int| placed_at(old(self)@, final(self)@, post@, k)
                },
                Err(e) => {
                    &&& e@ == AppErrorView::SqlxError(ids_exhausted_message())
                    &&& final(self)@ == old(self)@
                    &&& final(self).next_id() == old(self).next_id()
                },
            },
    {
        if self.next_id == i64::MAX {
            return Err(AppError::SqlxError(String::from_str("post identifiers are exhausted")));
        }
        let post = Post {
            id: self.next_id,
            title,
            content,
            author_id,
            created_at: now,
            updated_at: now,
        };
        let created = post.clone();
        let mut k: usize = 0;
        while k < self.posts.len() && self.posts[k].created_at > now
            invariant
                0 <= k <= self.posts.len(),
                forall|i: int| 0 <= i < k ==> (#[trigger] self@[i]).created_at > now,
            decreases self.posts.len() - k,
        {
            k += 1;
        }
        assert(forall|i: int| k <= i < self@.len() ==> (#[trigger] self@[i]).created_at <= now) by {
            assert forall|i: int| k <= i < self@.len() implies (#[trigger] self@[i]).created_at
                <= now by {
                if i > k {
                    assert(self@[k as int].created_at >= self@[i].created_at);
                }
            }
        }
        self.posts.insert(k, post);
        self.next_id = self.next_id + 1;
        assert(self@ =~= old(self)@.insert(k as int, created@));
        assert(placed_at(old(self)@, self@, created@, k as int));
        Ok(created)
    }

    /// Fetches the post with this id, if there is one. The in-memory store
    /// never fails.
    pub fn get_post(&self, post_id: i64) -> (found: Result<Option<Post>, AppError>)
        ensures
            match found {
                Ok(Some(post)) => self@.contains(post@) && post.id == post_id,
                Ok(None) => !has_post(self@, post_id),
                Err(_) => false,
            },
    {
        let mut i: usize = 0;
        while i < self.posts.len()
            invariant
                0 <= i <= self.posts.len(),
                forall|k: int| 0 <= k < i ==> (#[trigger] self@[k]).id != post_id,
            decreases self.posts.len() - i,
        {
            if self.posts[i].id == post_id {
                let post = self.posts[i].clone();
                assert(self@[i as int] == post@);
                return Ok(Some(post));
            }
            i += 1;
        }
        Ok(None)
    }

    /// The position of the post with this id written by this author.
    fn position_by(&self, post_id: i64, author_id: i64) -> (position: Option<usize>)
        ensures
            match position {
                Some(i) => i < self@.len() && self@[i as int].id == post_id && self@[i as int].author_id
                    == author_id,
                None => !has_post_by(self@, post_id, author_id),
            },
    {
        let mut i: usize = 0;
        while i < self.posts.len()
            invariant
                0 <= i <= self.posts.len(),
                forall|k: int|
                    0 <= k < i ==> !((#[trigger] self@[k]).id == post_id && self@[k].author_id
                        == author_id),
            decreases self.posts.len() - i,
        {
            if self.posts[i].id == post_id && self.posts[i].author_id == author_id {
                return Some(i);
            }
            i += 1;
        }
        None
    }

    /// Whether some post carries this id.
    fn has_id(&self, post_id: i64) -> (found: bool)
        ensures
            found == has_post(self@, post_id),
    {
        let mut i: usize = 0;
        while i < self.posts.len()
            invariant
                0 <= i <= self.posts.len(),
                forall|k: int| 0 <= k < i ==> (#[trigger] self@[k]).id != post_id,
            decreases self.posts.len() - i,
        {
            if self.posts[i].id == post_id {
                assert(self@[i as int].id == post_id);
                return true;
            }
            i += 1;
        }
        false
    }

    /// Overwrites title and content of the post with this id and refreshes
    /// its update instant to `now`, provided that `author_id` wrote it. The
    /// author is part of the write itself: when no post matches both the id
    /// and the author nothing changes, and the store reports `Forbidden` if
    /// somebody else wrote the post and `PostNotFound` if there is none.
    pub fn update_post(
        &mut self,
        post_id: i64,
        title: String,
        content: String,
        author_id: i64,
        now: i64,
    ) -> (updated: Result<Post, AppError>)
        requires
            old(self).wf(),
        ensures
            final(self).wf(),
            final(self).next_id() == old(self).next_id(),
            updated_as(old(self)@, final(self)@, updated, post_id, title@, content@, author_id, now),
    {
        match self.position_by(post_id, author_id) {
            Some(i) => {
                let post = Post {
                    id: post_id,
                    title,
                    content,
                    author_id,
                    created_at: self.posts[i].created_at,
                    updated_at: now,
                };
                let updated = post.clone();
                self.posts[i] = post;
                assert(self@ =~= old(self)@.update(i as int, updated@));
                assert(old(self)@[i as int].id == post_id);
                Ok(updated)
            },
            None => Err(refusal_for(self.has_id(post_id))),
        }
    }

    /// Removes the post with this id, provided that `author_id` wrote it.
    /// The author is part of the write itself: when no post matches both the
    /// id and the author nothing changes, and the store reports `Forbidden` if
    /// somebody else wrote the post and `PostNotFound` if there is none.
    pub fn delete_post(&mut self, post_id: i64, author_id: i64) -> (deleted: Result<(), AppError>)
        requires
            old(self).wf(),
        ensures
            final(self).wf(),
            final(self).next_id() == old(self).next_id(),
            deleted_as(old(self)@, final(self)@, deleted, post_id, author_id),
    {
        match self.position_by(post_id, author_id) {
            Some(i) => {
                self.posts.remove(i);
                assert(self@ =~= old(self)@.remove(i as int));
                assert(old(self)@[i as int].id == post_id);
                assert(!has_post(self@, post_id)) by {
                    assert forall|k: int| 0 <= k < self@.len() implies (#[trigger] self@[k]).id
                        != post_id by {
                        if k < i {
                            assert(self@[k] == old(self)@[k]);
                        } else {
                            assert(self@[k] == old(self)@[k + 1]);
                        }
                    }
                }
                Ok(())
            },
            None => Err(refusal_for(self.has_id(post_id))),
        }
    }

    /// One page of posts, newest first: at most `limit` of them, starting
    /// `offset` posts after the newest. A negative `limit` or `offset` counts
    /// as 0. The in-memory store never fails.
    pub fn get_posts(&self, limit: i64, offset: i64) -> (page: Result<Vec<Post>, AppError>)
        ensures
            match page {
                Ok(posts) => views_of(posts@) == page_of(self@, limit, offset),
                Err(_) => false,
            },
    {
        let len = self.posts.len();
        let start: usize = if offset <= 0 {
            0
        } else if offset as u64 >= len as u64 {
            len
        } else {
            offset as usize
        };
        let count: usize = if limit <= 0 {
            0
        } else if limit as u64 >= (len - start) as u64 {
            len - start
        } else {
            limit as usize
        };
        let mut page: Vec<Post> = Vec::new();
        let mut i: usize = 0;
        while i < count
            invariant
                0 <= i <= count,
                start + count <= len,
                len == self.posts.len(),
                page@.len() == i,
                forall|k: int| 0 <= k < i ==> (#[trigger] page@[k])@ == self@[start + k],
            decreases count - i,
        {
            let post = self.posts[start + i].clone();
            page.push(post);
            i += 1;
        }
        assert(views_of(page@) =~= page_of(self@, limit, offset));
        Ok(page)
    }

    /// The number of posts in the store, whatever any window. The in-memory
    /// store never fails.
    pub fn get_total_posts_count(&self) -> (total: Result<u64, AppError>)
        ensures
            match total {
                Ok(n) => n == self@.len(),
                Err(_) => false,
            },
    {
        Ok(self.posts.len() as u64)
    }
}

} // verus!
