//! The post store: sole owner of the database connection. All reads and
//! writes of the feed pass through it, and exclusive access (`&mut self`)
//! serializes them — at most one operation touches the connection at a time.

use vstd::prelude::*;
use crate::db;
use crate::post::{Post, RowModel, rows_ascending, rows_text_clean};

verus! {

/// The store rejected a read or write: the underlying engine refused the
/// operation. Surfaced to the caller, never silently dropped.
pub struct PersistenceError;

/// Owns the single database connection. Constructed once at startup; the
/// surrounding program is expected to guard it with a lock so that handlers
/// running concurrently take turns, which `&mut self` already forces on
/// every verified caller.
pub struct Store {
    conn: sqlite::Connection,
}

impl Store {
    /// The persisted rows of the feed, in insertion order.
    pub closed spec fn rows(&self) -> Seq<RowModel> {
        db::db_rows(self.conn)
    }

    /// Well-formedness: ids strictly increase in insertion order — so ids
    /// are unique and listing in id order is listing in insertion order —
    /// and no persisted text holds a NUL character, so every row reads back
    /// exactly as stored. Every constructor establishes this and every
    /// operation preserves it.
    pub open spec fn wf(&self) -> bool {
        rows_ascending(self.rows()) && rows_text_clean(self.rows())
    }

    /// Opens a fresh in-memory store holding exactly the seed row:
    /// `user = "Bob"`, `content = "First twit"`, id 1.
    pub fn open_seeded() -> (r: Result<Store, PersistenceError>)
        ensures
            r matches Ok(s) ==> {
                &&& s.wf()
                &&& s.rows().len() == 1
                &&& s.rows()[0].id == 1
                &&& s.rows()[0].user == "Bob"@
                &&& s.rows()[0].content == "First twit"@
            },
    {
        match db::open_seeded() {
            Ok(conn) => Ok(Store { conn }),
            Err(_) => Err(PersistenceError),
        }
    }

    /// Inserts a new post. On success the feed is exactly the old feed plus
    /// one row at the end holding the given author and content, whose
    /// store-assigned id is strictly greater than every existing id, and the
    /// returned post is that row, fully populated. On failure the feed is
    /// unchanged and the error is surfaced. The text must be NUL-free, as
    /// only such text round-trips exactly through the engine; `create_twit`
    /// checks this and rejects other input before calling here.
    pub fn insert_post(&mut self, user: &str, content: &str) -> (r: Result<Post, PersistenceError>)
        requires
            old(self).wf(),
            !user@.contains('\0'),
            !content@.contains('\0'),
        ensures
            final(self).wf(),
            r matches Ok(p) ==> {
                &&& final(self).rows().len() == old(self).rows().len() + 1
                &&& final(self).rows().drop_last() == old(self).rows()
                &&& p.matches_row(final(self).rows().last())
                &&& final(self).rows().last().user == user@
                &&& final(self).rows().last().content == content@
                &&& forall|i: int|
                    0 <= i < old(self).rows().len() ==> old(self).rows()[i].id < final(self).rows().last().id
            },
            r is Err ==> final(self).rows() == old(self).rows(),
    {
        match db::insert_row(&mut self.conn, user, content) {
            Ok((id, created_at)) => {
                let p = Post {
                    id: Some(id),
                    user: user.to_owned(),
                    content: content.to_owned(),
                    created_at: Some(created_at),
                };
                proof {
                    let oldr = old(self).rows();
                    let newr = self.rows();
                    let row = (RowModel {
                        id: id,
                        user: user@,
                        content: content@,
                        created_at: created_at,
                    });
                    assert(newr == oldr.push(row));
                    assert(newr.len() == oldr.len() + 1);
                    assert(newr.last() == row);
                    assert(newr.drop_last() =~= oldr);
                    assert forall|i: int, j: int| 0 <= i < j < newr.len() implies newr[i].id
                        < newr[j].id by {
                        if j < oldr.len() {
                            assert(newr[i] == oldr[i] && newr[j] == oldr[j]);
                        } else {
                            assert(newr[j] == row);
                            assert(newr[i] == oldr[i]);
                        }
                    }
                    assert forall|i: int| 0 <= i < newr.len() implies (!newr[i].user.contains('\0')
                        && !newr[i].content.contains('\0')) by {
                        if i < oldr.len() {
                            assert(newr[i] == oldr[i]);
                        } else {
                            assert(newr[i] == row);
                        }
                    }
                }
                Ok(p)
            },
            Err(_) => Err(PersistenceError),
        }
    }

    /// Lists the whole feed: on success the returned posts are exactly the
    /// persisted rows, one per row, in insertion (ascending id) order, each
    /// fully populated. The feed itself is never changed by a read.
    pub fn list_posts(&mut self) -> (r: Result<Vec<Post>, PersistenceError>)
        requires
            old(self).wf(),
        ensures
            final(self).wf(),
            final(self).rows() == old(self).rows(),
            r matches Ok(v) ==> {
                &&& v@.len() == old(self).rows().len()
                &&& forall|i: int|
                    0 <= i < v@.len() ==> v@[i].matches_row(old(self).rows()[i])
            },
    {
        let mut out: Vec<Post> = Vec::new();
        loop
            invariant
                self.wf(),
                self.rows() == old(self).rows(),
                out@.len() <= self.rows().len(),
                forall|j: int| 0 <= j < out@.len() ==> out@[j].matches_row(self.rows()[j]),
            decreases self.rows().len() - out@.len(),
        {
            let k = out.len();
            match db::select_row_at(&mut self.conn, k) {
                Err(_) => {
                    return Err(PersistenceError);
                },
                Ok(None) => {
                    return Ok(out);
                },
                Ok(Some(p)) => {
                    out.push(p);
                },
            }
        }
    }
}

/// Serialized inserts lose nothing: the store's exclusive access admits one
/// operation at a time, so two concurrently submitted inserts run in some
/// total order, and whichever order is chosen — the hypotheses below are
/// exactly what `insert_post`'s contract gives each of the two steps — both
/// rows are present afterwards and their ids differ.
pub proof fn lemma_serialized_inserts_keep_both(
    r0: Seq<RowModel>,
    r1: Seq<RowModel>,
    r2: Seq<RowModel>,
)
    requires
        r1.len() == r0.len() + 1,
        r1.drop_last() == r0,
        forall|i: int| 0 <= i < r0.len() ==> r0[i].id < r1.last().id,
        r2.len() == r1.len() + 1,
        r2.drop_last() == r1,
        forall|i: int| 0 <= i < r1.len() ==> r1[i].id < r2.last().id,
    ensures
        r2.len() == r0.len() + 2,
        r2[r0.len() as int] == r1.last(),
        r2.last().id > r1.last().id,
        r2.last().id != r2[r0.len() as int].id,
{
    assert(r2[r0.len() as int] == r2.drop_last()[r0.len() as int]);
    assert(r1[r0.len() as int] == r1.last());
    assert(r1.last().id < r2.last().id);
}

/// The feed invariant stated as a law: after any sequence of inserts into a
/// well-formed store — each of which, by `insert_post`'s contract, appends
/// exactly one row and loses none — the feed holds pairwise distinct ids in
/// strictly ascending order, so a listing returns every inserted post
/// exactly once, in insertion order.
pub proof fn lemma_feed_order(s: &Store)
    requires
        s.wf(),
    ensures
        forall|i: int, j: int| 0 <= i < j < s.rows().len() ==> s.rows()[i].id < s.rows()[j].id,
        forall|i: int, j: int|
            0 <= i < s.rows().len() && 0 <= j < s.rows().len() && i != j ==> s.rows()[i].id
                != s.rows()[j].id,
{
    assert forall|i: int, j: int|
        0 <= i < s.rows().len() && 0 <= j < s.rows().len() && i != j implies s.rows()[i].id != s
        .rows()[j].id by {
        if i < j {
            assert(s.rows()[i].id < s.rows()[j].id);
        } else {
            assert(s.rows()[j].id < s.rows()[i].id);
        }
    }
}

} // verus!
