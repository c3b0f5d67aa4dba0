//! A model of the post table: rows in insertion order, a generated-id
//! counter, and the storage clock that stamps rows. Each operation mirrors
//! one SQL statement: it acquires nothing, touches one table, and states
//! exactly which rows it returns or changes.

use vstd::prelude::*;
use crate::error::AppError;

verus! {

/// One persisted post row. Timestamps are storage clock ticks: the clock
/// advances with every statement that stamps a row, so a later write
/// always bears a strictly later stamp.
#[derive(Debug)]
pub struct Post {
    /// Primary key, generated by storage; positive.
    pub id: i32,
    /// Non-empty after trimming; enforced at the API boundary.
    pub title: String,
    /// Non-empty after trimming; enforced at the API boundary.
    pub body: String,
    /// Set by storage at insert.
    pub created_at: i64,
    /// Set by storage at insert and on every update.
    pub modified_at: i64,
}

impl Clone for Post {
    fn clone(&self) -> (r: Self)
        ensures
            r == *self,
    {
        Post {
            id: self.id,
            title: self.title.clone(),
            body: self.body.clone(),
            created_at: self.created_at,
            modified_at: self.modified_at,
        }
    }
}

/// The first row bearing `id`, if any. Under `Store::wf` ids are unique,
/// so the first match is the only one.
pub open spec fn find_post(posts: Seq<Post>, id: i32) -> Option<Post>
    decreases posts.len(),
{
    if posts.len() <= 0 {
        None
    } else if posts[0].id == id {
        Some(posts[0])
    } else {
        find_post(posts.drop_first(), id)
    }
}

/// Whether some row bears `id`.
pub open spec fn has_post(posts: Seq<Post>, id: i32) -> bool {
    find_post(posts, id) is Some
}

/// The post table.
pub struct Store {
    /// Rows in insertion order.
    pub posts: Vec<Post>,
    /// The next id storage will generate.
    pub next_id: i32,
    /// The storage clock; every stamped row holds a tick of it.
    pub clock: i64,
}

impl Store {
    /// Every id is positive and below the generator's next value.
    pub open spec fn ids_in_range(self) -> bool {
        forall|i: int|
            0 <= i < self.posts@.len() ==> 0 < (#[trigger] self.posts@[i]).id < self.next_id
    }

    /// Ids grow with insertion order; in particular they are unique.
    pub open spec fn ids_increasing(self) -> bool {
        forall|i: int, j: int|
            0 <= i < j < self.posts@.len() ==> (#[trigger] self.posts@[i]).id < (
            #[trigger] self.posts@[j]).id
    }

    /// No stamp lies ahead of the storage clock.
    pub open spec fn stamps_bounded(self) -> bool {
        forall|i: int|
            0 <= i < self.posts@.len() ==> (#[trigger] self.posts@[i]).created_at <= self.clock
                && self.posts@[i].modified_at <= self.clock
    }

    /// Creation stamps grow with insertion order: a later row was created
    /// strictly later.
    pub open spec fn created_increasing(self) -> bool {
        forall|i: int, j: int|
            0 <= i < j < self.posts@.len() ==> (#[trigger] self.posts@[i]).created_at < (
            #[trigger] self.posts@[j]).created_at
    }

    /// Well-formedness of the table; established by `new` and preserved
    /// by every operation.
    pub open spec fn wf(self) -> bool {
        &&& 1 <= self.next_id
        &&& self.ids_in_range()
        &&& self.ids_increasing()
        &&& self.stamps_bounded()
        &&& self.created_increasing()
    }

    /// An empty table.
    pub fn new() -> (r: Store)
        ensures
            r.wf(),
            r.posts@ == Seq::<Post>::empty(),
            r.next_id == 1,
            r.clock == 0,
    {
        Store { posts: Vec::new(), next_id: 1, clock: 0 }
    }

    /// Inserts a row. Storage stamps it with the advanced clock, so the
    /// new row's creation and modification stamps are equal, and returns
    /// the generated positive id. Rows bearing any other id are
    /// untouched.
    pub fn create(&mut self, title: String, body: String) -> (id: i32)
        requires
            old(self).wf(),
            old(self).next_id < i32::MAX,
            old(self).clock < i64::MAX,
        ensures
            final(self).wf(),
            id == old(self).next_id && id > 0,
            final(self).next_id == old(self).next_id + 1,
            final(self).clock == old(self).clock + 1,
            final(self).posts@ == old(self).posts@.push(
                (Post {
                    id: id,
                    title: title,
                    body: body,
                    created_at: (old(self).clock + 1) as i64,
                    modified_at: (old(self).clock + 1) as i64,
                }),
            ),
            find_post(final(self).posts@, id) == Some(
                (Post {
                    id: id,
                    title: title,
                    body: body,
                    created_at: (old(self).clock + 1) as i64,
                    modified_at: (old(self).clock + 1) as i64,
                }),
            ),
            forall|other: i32|
                other != id ==> find_post(final(self).posts@, other) == find_post(
                    old(self).posts@,
                    other,
                ),
    {
        self.clock = self.clock + 1;
        let id = self.next_id;
        self.next_id = self.next_id + 1;
        let ghost newp = (Post {
            id: id,
            title: title,
            body: body,
            created_at: self.clock,
            modified_at: self.clock,
        });
        self.posts.push(
            Post { id, title, body, created_at: self.clock, modified_at: self.clock },
        );
        proof {
            let pre = old(self).posts@;
            assert(self.posts@ == pre.push(newp));
            assert forall|i: int| 0 <= i < pre.len() implies (#[trigger] pre[i]).id != id by {}
            lemma_find_push_fresh(pre, newp);
            assert forall|other: i32| other != id implies find_post(self.posts@, other) == find_post(
                pre,
                other,
            ) by {
                lemma_find_push_other(pre, newp, other);
            }
        }
        id
    }

    /// Fetches the row bearing `id`, or fails with `NotFound` when no row
    /// matches.
    pub fn get(&self, id: i32) -> (r: Result<Post, AppError>)
        requires
            self.wf(),
        ensures
            find_post(self.posts@, id) matches Some(p) ==> r == Ok::<Post, AppError>(p),
            find_post(self.posts@, id) is None ==> r == Err::<Post, AppError>(AppError::NotFound),
    {
        let n = self.posts.len();
        let mut i: usize = 0;
        while i < n
            invariant
                n == self.posts@.len(),
                i <= n,
                forall|j: int| 0 <= j < i ==> (#[trigger] self.posts@[j]).id != id,
            decreases n - i,
        {
            if self.posts[i].id == id {
                proof {
                    lemma_find_at(self.posts@, id, i as int);
                }
                return Ok(self.posts[i].clone());
            }
            i += 1;
        }
        proof {
            lemma_find_none(self.posts@, id);
        }
        Err(AppError::NotFound)
    }

    /// Updates title and body of the row bearing `id` and stamps it with
    /// the advanced clock; returns whether any row matched. A later
    /// update always bears a strictly later modification stamp than the
    /// row held before. When no row matches, no row changes. Rows bearing
    /// any other id are untouched either way.
    pub fn update(&mut self, id: i32, title: String, body: String) -> (r: bool)
        requires
            old(self).wf(),
            old(self).clock < i64::MAX,
        ensures
            final(self).wf(),
            final(self).clock == old(self).clock + 1,
            final(self).next_id == old(self).next_id,
            r == has_post(old(self).posts@, id),
            final(self).posts@ == update_post(
                old(self).posts@,
                id,
                title,
                body,
                (old(self).clock + 1) as i64,
            ),
            !r ==> final(self).posts@ == old(self).posts@,
            r ==> ({
                let pre = find_post(old(self).posts@, id)->Some_0;
                &&& find_post(final(self).posts@, id) == Some(
                    edited(pre, title, body, (old(self).clock + 1) as i64),
                )
                &&& edited(pre, title, body, (old(self).clock + 1) as i64).modified_at
                    > pre.modified_at
                &&& edited(pre, title, body, (old(self).clock + 1) as i64).created_at
                    == pre.created_at
            }),
            forall|other: i32|
                other != id ==> find_post(final(self).posts@, other) == find_post(
                    old(self).posts@,
                    other,
                ),
    {
        self.clock = self.clock + 1;
        let now = self.clock;
        let n = self.posts.len();
        let mut i: usize = 0;
        while i < n
            invariant
                old(self).wf(),
                n == self.posts@.len(),
                i <= n,
                self.posts@ == old(self).posts@,
                self.next_id == old(self).next_id,
                self.clock == old(self).clock + 1,
                now == self.clock,
                forall|j: int| 0 <= j < i ==> (#[trigger] self.posts@[j]).id != id,
            decreases n - i,
        {
            if self.posts[i].id == id {
                let created = self.posts[i].created_at;
                let newp = Post { id, title, body, created_at: created, modified_at: now };
                let ghost gnew = (Post {
                    id: id,
                    title: title,
                    body: body,
                    created_at: created,
                    modified_at: now,
                });
                let ghost pre = old(self).posts@;
                let ghost k = i as int;
                self.posts.remove(i);
                self.posts.insert(i, newp);
                proof {
                    assert(pre.remove(k).insert(k, gnew) =~= pre.update(k, gnew));
                    assert(self.posts@ == pre.update(k, gnew));
                    lemma_find_at(pre, id, k);
                    assert(gnew == edited(pre[k], title, body, now));
                    lemma_update_at(pre, id, title, body, now, k);
                    lemma_find_update_same(pre, k, gnew);
                    assert forall|other: i32| other != id implies find_post(self.posts@, other)
                        == find_post(pre, other) by {
                        lemma_find_update_other(pre, k, gnew, other);
                    }
                    assert forall|a: int, b: int|
                        0 <= a < b < self.posts@.len() implies (#[trigger] self.posts@[a]).id < (
                    #[trigger] self.posts@[b]).id && (self.posts@[a]).created_at < (
                    self.posts@[b]).created_at by {
                        assert(pre[a].id < pre[b].id && pre[a].created_at < pre[b].created_at);
                    }
                    assert forall|a: int| 0 <= a < self.posts@.len() implies 0 < (
                    #[trigger] self.posts@[a]).id < self.next_id && (self.posts@[a]).created_at
                        <= self.clock && (self.posts@[a]).modified_at <= self.clock by {
                        assert(0 < pre[a].id < self.next_id);
                    }
                }
                return true;
            }
            i += 1;
        }
        proof {
            lemma_find_none(self.posts@, id);
            lemma_update_none(self.posts@, id, title, body, now);
        }
        false
    }

    /// Deletes the row bearing `id`; returns whether any row matched. A
    /// search for that id afterwards finds nothing; rows bearing any
    /// other id are untouched.
    pub fn delete(&mut self, id: i32) -> (r: bool)
        requires
            old(self).wf(),
        ensures
            final(self).wf(),
            final(self).clock == old(self).clock,
            final(self).next_id == old(self).next_id,
            r == has_post(old(self).posts@, id),
            final(self).posts@ == remove_post(old(self).posts@, id),
            !r ==> final(self).posts@ == old(self).posts@,
            find_post(final(self).posts@, id) is None,
            forall|other: i32|
                other != id ==> find_post(final(self).posts@, other) == find_post(
                    old(self).posts@,
                    other,
                ),
    {
        let n = self.posts.len();
        let mut i: usize = 0;
        while i < n
            invariant
                old(self).wf(),
                n == self.posts@.len(),
                i <= n,
                self.posts@ == old(self).posts@,
                self.next_id == old(self).next_id,
                self.clock == old(self).clock,
                forall|j: int| 0 <= j < i ==> (#[trigger] self.posts@[j]).id != id,
            decreases n - i,
        {
            if self.posts[i].id == id {
                let ghost pre = old(self).posts@;
                let ghost k = i as int;
                self.posts.remove(i);
                proof {
                    assert(self.posts@ == pre.remove(k));
                    lemma_find_at(pre, id, k);
                    lemma_remove_at(pre, id, k);
                    lemma_find_remove_same(pre, k, id);
                    assert forall|other: i32| other != id implies find_post(self.posts@, other)
                        == find_post(pre, other) by {
                        lemma_find_remove_other(pre, k, other);
                    }
                    assert forall|a: int, b: int|
                        0 <= a < b < self.posts@.len() implies (#[trigger] self.posts@[a]).id < (
                    #[trigger] self.posts@[b]).id && (self.posts@[a]).created_at < (
                    self.posts@[b]).created_at by {
                        if b < k {
                            assert(self.posts@[a] == pre[a] && self.posts@[b] == pre[b]);
                        } else if a < k <= b {
                            assert(self.posts@[a] == pre[a] && self.posts@[b] == pre[b + 1]);
                        } else {
                            assert(self.posts@[a] == pre[a + 1] && self.posts@[b] == pre[b + 1]);
                        }
                    }
                    assert forall|a: int| 0 <= a < self.posts@.len() implies 0 < (
                    #[trigger] self.posts@[a]).id < self.next_id && (self.posts@[a]).created_at
                        <= self.clock && (self.posts@[a]).modified_at <= self.clock by {
                        if a < k {
                            assert(self.posts@[a] == pre[a]);
                        } else {
                            assert(self.posts@[a] == pre[a + 1]);
                        }
                    }
                }
                return true;
            }
            i += 1;
        }
        proof {
            lemma_find_none(self.posts@, id);
            lemma_remove_none(self.posts@, id);
        }
        false
    }

    /// Fetches rows ordered by creation time, newest first, skipping
    /// `offset` rows and returning at most `limit`. An empty page is no
    /// error; a negative limit or offset is a statement the storage
    /// backend refuses.
    pub fn list(&self, limit: i32, offset: i32) -> (r: Result<Vec<Post>, AppError>)
        requires
            self.wf(),
        ensures
            r is Err <==> limit < 0 || offset < 0,
            r is Err ==> r->Err_0 is Storage,
            r matches Ok(v) ==> v@ == listing(self.posts@, limit as int, offset as int),
    {
        if limit < 0 || offset < 0 {
            return Err(
                AppError::Storage(String::from_str("LIMIT/OFFSET must not be negative")),
            );
        }
        let n = self.posts.len();
        let lim = limit as usize;
        let off = offset as usize;
        let avail = if off >= n {
            0
        } else {
            n - off
        };
        let count = if lim < avail {
            lim
        } else {
            avail
        };
        let mut out: Vec<Post> = Vec::new();
        let mut i: usize = 0;
        while i < count
            invariant
                n == self.posts@.len(),
                off + count <= n || count == 0,
                count <= lim,
                i <= count,
                out@.len() == i,
                forall|j: int|
                    0 <= j < i ==> out@[j] == self.posts@[n - 1 - off - j],
            decreases count - i,
        {
            out.push(self.posts[n - 1 - off - i].clone());
            i += 1;
        }
        proof {
            lemma_listing_len(self.posts@, limit as int, offset as int);
            let l = listing(self.posts@, limit as int, offset as int);
            assert(l.len() == count);
            assert forall|j: int| 0 <= j < count implies l[j] == out@[j] by {
                lemma_listing_index(self.posts@, limit as int, offset as int, j);
            }
            assert(out@ =~= l);
        }
        Ok(out)
    }
}

/// The row `p` after an edit: same id and creation stamp, new title and
/// body, modification stamp set to `now`.
pub open spec fn edited(p: Post, title: String, body: String, now: i64) -> Post {
    Post { id: p.id, title: title, body: body, created_at: p.created_at, modified_at: now }
}

/// The table after an update of the row bearing `id`: that row edited in
/// place, every other row untouched. The table itself when no row
/// matches.
pub open spec fn update_post(
    posts: Seq<Post>,
    id: i32,
    title: String,
    body: String,
    now: i64,
) -> Seq<Post>
    decreases posts.len(),
{
    if posts.len() <= 0 {
        posts
    } else if posts[0].id == id {
        seq![edited(posts[0], title, body, now)] + posts.drop_first()
    } else {
        seq![posts[0]] + update_post(posts.drop_first(), id, title, body, now)
    }
}

/// The table after a delete of the row bearing `id`; the table itself
/// when no row matches.
pub open spec fn remove_post(posts: Seq<Post>, id: i32) -> Seq<Post>
    decreases posts.len(),
{
    if posts.len() <= 0 {
        posts
    } else if posts[0].id == id {
        posts.drop_first()
    } else {
        seq![posts[0]] + remove_post(posts.drop_first(), id)
    }
}

/// The rows a list query returns: the table newest-row first, skipping
/// `offset` rows, then at most `limit` of what remains.
pub open spec fn listing(posts: Seq<Post>, limit: int, offset: int) -> Seq<Post>
    recommends
        0 <= limit,
        0 <= offset,
{
    let rev = posts.reverse();
    let off = if offset > rev.len() {
        rev.len() as int
    } else {
        offset
    };
    let rest = rev.skip(off);
    let lim = if limit > rest.len() {
        rest.len() as int
    } else {
        limit
    };
    rest.take(lim)
}

/// In a table where no row bears `id`, a search finds nothing.
proof fn lemma_find_none(posts: Seq<Post>, id: i32)
    requires
        forall|i: int| 0 <= i < posts.len() ==> (#[trigger] posts[i]).id != id,
    ensures
        find_post(posts, id) is None,
    decreases posts.len(),
{
    if posts.len() > 0 {
        lemma_find_none(posts.drop_first(), id);
    }
}

/// A search finds the first row bearing `id`.
proof fn lemma_find_at(posts: Seq<Post>, id: i32, k: int)
    requires
        0 <= k < posts.len(),
        posts[k].id == id,
        forall|j: int| 0 <= j < k ==> (#[trigger] posts[j]).id != id,
    ensures
        find_post(posts, id) == Some(posts[k]),
    decreases k,
{
    if k > 0 {
        lemma_find_at(posts.drop_first(), id, k - 1);
    }
}

/// Appending a row with a fresh id: a search for that id finds the row.
proof fn lemma_find_push_fresh(posts: Seq<Post>, p: Post)
    requires
        forall|i: int| 0 <= i < posts.len() ==> (#[trigger] posts[i]).id != p.id,
    ensures
        find_post(posts.push(p), p.id) == Some(p),
{
    lemma_find_at(posts.push(p), p.id, posts.len() as int);
}

/// Appending a row leaves searches for every other id unchanged.
proof fn lemma_find_push_other(posts: Seq<Post>, p: Post, id: i32)
    requires
        id != p.id,
    ensures
        find_post(posts.push(p), id) == find_post(posts, id),
    decreases posts.len(),
{
    if posts.len() == 0 {
        assert(posts.push(p)[0] == p);
        assert(posts.push(p).drop_first() =~= Seq::<Post>::empty());
        assert(find_post(Seq::<Post>::empty(), id) is None);
        assert(find_post(posts.push(p), id) is None);
    } else {
        assert(posts.push(p)[0] == posts[0]);
        assert(posts.push(p).drop_first() =~= posts.drop_first().push(p));
        lemma_find_push_other(posts.drop_first(), p, id);
    }
}

/// An update whose first match stands at `k` is the table with the row at
/// `k` edited in place.
proof fn lemma_update_at(posts: Seq<Post>, id: i32, title: String, body: String, now: i64, k: int)
    requires
        0 <= k < posts.len(),
        posts[k].id == id,
        forall|j: int| 0 <= j < k ==> (#[trigger] posts[j]).id != id,
    ensures
        update_post(posts, id, title, body, now) =~= posts.update(
            k,
            edited(posts[k], title, body, now),
        ),
    decreases k,
{
    if k == 0 {
        assert(seq![edited(posts[0], title, body, now)] + posts.drop_first() =~= posts.update(
            0,
            edited(posts[0], title, body, now),
        ));
    } else {
        lemma_update_at(posts.drop_first(), id, title, body, now, k - 1);
        assert(posts.drop_first()[k - 1] == posts[k]);
        assert(seq![posts[0]] + posts.drop_first().update(
            k - 1,
            edited(posts[k], title, body, now),
        ) =~= posts.update(k, edited(posts[k], title, body, now)));
    }
}

/// An update that matches no row changes no row.
proof fn lemma_update_none(posts: Seq<Post>, id: i32, title: String, body: String, now: i64)
    requires
        forall|j: int| 0 <= j < posts.len() ==> (#[trigger] posts[j]).id != id,
    ensures
        update_post(posts, id, title, body, now) == posts,
    decreases posts.len(),
{
    if posts.len() > 0 {
        lemma_update_none(posts.drop_first(), id, title, body, now);
        assert(seq![posts[0]] + posts.drop_first() =~= posts);
    }
}

/// A delete whose first match stands at `k` is the table with the row at
/// `k` taken out.
proof fn lemma_remove_at(posts: Seq<Post>, id: i32, k: int)
    requires
        0 <= k < posts.len(),
        posts[k].id == id,
        forall|j: int| 0 <= j < k ==> (#[trigger] posts[j]).id != id,
    ensures
        remove_post(posts, id) =~= posts.remove(k),
    decreases k,
{
    if k == 0 {
        assert(posts.drop_first() =~= posts.remove(0));
    } else {
        lemma_remove_at(posts.drop_first(), id, k - 1);
        assert(seq![posts[0]] + posts.drop_first().remove(k - 1) =~= posts.remove(k));
    }
}

/// A delete that matches no row changes no row.
proof fn lemma_remove_none(posts: Seq<Post>, id: i32)
    requires
        forall|j: int| 0 <= j < posts.len() ==> (#[trigger] posts[j]).id != id,
    ensures
        remove_post(posts, id) == posts,
    decreases posts.len(),
{
    if posts.len() > 0 {
        lemma_remove_none(posts.drop_first(), id);
        assert(seq![posts[0]] + posts.drop_first() =~= posts);
    }
}

/// After editing the row at `k` in place, a search for its id finds the
/// edited row.
proof fn lemma_find_update_same(posts: Seq<Post>, k: int, p: Post)
    requires
        0 <= k < posts.len(),
        posts[k].id == p.id,
        forall|j: int| 0 <= j < k ==> (#[trigger] posts[j]).id != p.id,
    ensures
        find_post(posts.update(k, p), p.id) == Some(p),
{
    lemma_find_at(posts.update(k, p), p.id, k);
}

/// Editing a row in place without changing its id leaves searches for
/// every other id unchanged.
proof fn lemma_find_update_other(posts: Seq<Post>, k: int, p: Post, id: i32)
    requires
        0 <= k < posts.len(),
        posts[k].id == p.id,
        id != p.id,
    ensures
        find_post(posts.update(k, p), id) == find_post(posts, id),
    decreases k,
{
    if k == 0 {
        assert(posts.update(0, p)[0] == p);
        assert(posts.update(0, p).drop_first() =~= posts.drop_first());
    } else {
        assert(posts.update(k, p)[0] == posts[0]);
        assert(posts.update(k, p).drop_first() =~= posts.drop_first().update(k - 1, p));
        lemma_find_update_other(posts.drop_first(), k - 1, p, id);
    }
}

/// Taking out a row that does not bear `id` leaves a search for `id`
/// unchanged.
proof fn lemma_find_remove_other(posts: Seq<Post>, k: int, id: i32)
    requires
        0 <= k < posts.len(),
        posts[k].id != id,
    ensures
        find_post(posts.remove(k), id) == find_post(posts, id),
    decreases k,
{
    if k == 0 {
        assert(posts.remove(0) =~= posts.drop_first());
    } else {
        assert(posts.remove(k)[0] == posts[0]);
        assert(posts.remove(k).drop_first() =~= posts.drop_first().remove(k - 1));
        lemma_find_remove_other(posts.drop_first(), k - 1, id);
    }
}

/// With ids unique, taking out the one row bearing `id` leaves a table
/// where a search for `id` finds nothing.
proof fn lemma_find_remove_same(posts: Seq<Post>, k: int, id: i32)
    requires
        0 <= k < posts.len(),
        posts[k].id == id,
        forall|i: int, j: int|
            0 <= i < j < posts.len() ==> (#[trigger] posts[i]).id < (#[trigger] posts[j]).id,
    ensures
        find_post(posts.remove(k), id) is None,
{
    assert forall|j: int|
        0 <= j < posts.remove(k).len() implies (#[trigger] posts.remove(k)[j]).id != id by {
        if j < k {
            assert(posts.remove(k)[j] == posts[j]);
            assert(posts[j].id < posts[k].id);
        } else {
            assert(posts.remove(k)[j] == posts[j + 1]);
            assert(posts[k].id < posts[j + 1].id);
        }
    }
    lemma_find_none(posts.remove(k), id);
}

/// How many rows a listing holds: all of `limit` when that many remain
/// past `offset`, the remainder when fewer do, none when the offset runs
/// past the table.
pub proof fn lemma_listing_len(posts: Seq<Post>, limit: int, offset: int)
    requires
        0 <= limit,
        0 <= offset,
    ensures
        listing(posts, limit, offset).len() == if offset >= posts.len() {
            0int
        } else if limit <= posts.len() - offset {
            limit
        } else {
            posts.len() - offset
        },
{
    assert(posts.reverse().len() == posts.len());
}

/// The row a listing holds at position `j`: counting from the newest row,
/// the one `offset + j` rows in.
pub proof fn lemma_listing_index(posts: Seq<Post>, limit: int, offset: int, j: int)
    requires
        0 <= limit,
        0 <= offset,
        0 <= j < listing(posts, limit, offset).len(),
    ensures
        offset + j < posts.len(),
        listing(posts, limit, offset)[j] == posts[posts.len() - 1 - offset - j],
{
    let rev = posts.reverse();
    assert(rev.len() == posts.len());
    lemma_listing_len(posts, limit, offset);
    assert(rev[offset + j] == posts[posts.len() - 1 - offset - j]);
}

/// Listed rows come newest first: under `Store::wf`, creation stamps fall
/// strictly as the listing is walked.
pub proof fn lemma_listing_ordered(posts: Seq<Post>, limit: int, offset: int)
    requires
        0 <= limit,
        0 <= offset,
        forall|i: int, j: int|
            0 <= i < j < posts.len() ==> (#[trigger] posts[i]).created_at < (
            #[trigger] posts[j]).created_at,
    ensures
        forall|i: int, j: int|
            0 <= i < j < listing(posts, limit, offset).len() ==> (#[trigger] listing(
                posts,
                limit,
                offset,
            )[i]).created_at > (#[trigger] listing(posts, limit, offset)[j]).created_at,
{
    let l = listing(posts, limit, offset);
    assert forall|i: int, j: int| 0 <= i < j < l.len() implies (#[trigger] l[i]).created_at > (
    #[trigger] l[j]).created_at by {
        lemma_listing_index(posts, limit, offset, i);
        lemma_listing_index(posts, limit, offset, j);
    }
}

/// Two pages of the same size at different offsets share no row: every id
/// on the later page differs from every id on the earlier one.
pub proof fn lemma_pages_disjoint(
    posts: Seq<Post>,
    page_size: int,
    o1: int,
    o2: int,
    i: int,
    j: int,
)
    requires
        forall|a: int, b: int|
            0 <= a < b < posts.len() ==> (#[trigger] posts[a]).id < (#[trigger] posts[b]).id,
        0 < page_size,
        0 <= o1,
        o1 + page_size <= o2,
        0 <= i < listing(posts, page_size, o1).len(),
        0 <= j < listing(posts, page_size, o2).len(),
    ensures
        listing(posts, page_size, o1)[i].id != listing(posts, page_size, o2)[j].id,
{
    lemma_listing_len(posts, page_size, o1);
    lemma_listing_len(posts, page_size, o2);
    lemma_listing_index(posts, page_size, o1, i);
    lemma_listing_index(posts, page_size, o2, j);
}

} // verus!
