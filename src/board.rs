use vstd::prelude::*;

use crate::message::{Message, NewMessage, Timestamp};
use crate::query::{
    drawable, drawn, lemma_listing_facts, listing, matching, select_listed, select_random, ListQuery,
};

verus! {

/// The message table: rows in insertion order, with the id that the next
/// stored message receives. Rows are never removed; a delete only sets
/// their expiration.
pub struct Board {
    rows: Vec<Message>,
    next_id: i64,
}

/// Ids strictly increase along the rows, so no two rows share one.
pub open spec fn ids_ascending(rows: Seq<Message>) -> bool {
    forall|i: int, j: int| 0 <= i < j < rows.len() ==> rows[i].id < rows[j].id
}

/// Whether some row carries `id`.
pub open spec fn has_id(rows: Seq<Message>, id: i64) -> bool {
    exists|i: int| 0 <= i < rows.len() && rows[i].id == id
}

/// The rows after a soft delete of `id` at `now`.
pub open spec fn expire_id(rows: Seq<Message>, id: i64, now: Timestamp) -> Seq<Message> {
    Seq::new(rows.len(), |i: int| if rows[i].id == id { rows[i].expired_at(now) } else { rows[i] })
}

/// The message that creating `payload` at `now` stores under `id`.
pub open spec fn stored(payload: NewMessage, id: i64, now: Timestamp) -> Message {
    Message { id, text: payload.text, created_at: now, expires_at: payload.expires_at }
}

impl View for Board {
    type V = Seq<Message>;

    closed spec fn view(&self) -> Seq<Message> {
        self.rows@
    }
}

impl Board {
    /// The id that the next stored message receives.
    pub closed spec fn next_id(&self) -> i64 {
        self.next_id
    }

    pub open spec fn wf(&self) -> bool {
        &&& ids_ascending(self@)
        &&& 1 <= self.next_id()
        &&& forall|i: int| 0 <= i < self@.len() ==> 1 <= #[trigger] self@[i].id < self.next_id()
    }

    /// An empty board; its first message gets id 1.
    pub fn new() -> (r: Board)
        ensures
            r.wf(),
            r@ == Seq::<Message>::empty(),
            r.next_id() == 1,
    {
        Board { rows: Vec::new(), next_id: 1 }
    }

    /// Stores `payload` at `now` under a fresh id and returns the stored
    /// message. Fails, changing nothing, only once every id is taken.
    pub fn create(&mut self, payload: NewMessage, now: Timestamp) -> (r: Option<Message>)
        requires
            old(self).wf(),
        ensures
            final(self).wf(),
            r is None <==> old(self).next_id() == i64::MAX,
            r is None ==> *final(self) == *old(self),
            r matches Some(m) ==> {
                &&& m == stored(payload, old(self).next_id(), now)
                &&& final(self)@ == old(self)@.push(m)
                &&& final(self).next_id() == m.id + 1
                &&& forall|i: int| 0 <= i < old(self)@.len() ==> #[trigger] old(self)@[i].id < m.id
            },
    {
        if self.next_id == i64::MAX {
            return None;
        }
        let m = Message {
            id: self.next_id,
            text: payload.text,
            created_at: now,
            expires_at: payload.expires_at,
        };
        self.rows.push(m.clone());
        self.next_id = self.next_id + 1;
        Some(m)
    }

    /// The page that `q` selects at `now`.
    pub fn list(&self, q: &ListQuery, now: Timestamp) -> (r: Vec<Message>)
        ensures
            r@ == listing(self@, *q, now),
            r@.len() <= q.count,
            forall|i: int| 0 <= i < r@.len() ==> q.since_id < #[trigger] r@[i].id,
    {
        select_listed(&self.rows, q, now)
    }

    /// The message with `id`, if one is stored.
    pub fn read(&self, id: i64) -> (r: Option<Message>)
        requires
            self.wf(),
        ensures
            r is None <==> !has_id(self@, id),
            r matches Some(m) ==> m.id == id && self@.contains(m),
    {
        let mut i: usize = 0;
        while i < self.rows.len()
            invariant
                i <= self@.len(),
                self@ == self.rows@,
                forall|j: int| 0 <= j < i ==> #[trigger] self@[j].id != id,
            decreases self@.len() - i,
        {
            if self.rows[i].id == id {
                let m = self.rows[i].clone();
                proof {
                    assert(self@[i as int] == m);
                }
                return Some(m);
            }
            i = i + 1;
        }
        None
    }

    /// A message drawn among those whose expiration lies after `now`: the
    /// caller supplies the random number `pick`.
    pub fn random(&self, now: Timestamp, pick: u64) -> (r: Option<Message>)
        ensures
            r == drawn(self@, now, pick),
            r matches Some(m) ==> self@.contains(m) && m.drawable_at(now),
    {
        select_random(&self.rows, now, pick)
    }

    /// Soft delete: the message with `id`, if any, expires at `now`. Always
    /// succeeds; with no such message nothing changes.
    pub fn delete(&mut self, id: i64, now: Timestamp)
        requires
            old(self).wf(),
        ensures
            final(self).wf(),
            final(self)@ == expire_id(old(self)@, id, now),
            final(self).next_id() == old(self).next_id(),
            !has_id(old(self)@, id) ==> final(self)@ == old(self)@,
    {
        let ghost start = self@;
        let mut i: usize = 0;
        while i < self.rows.len()
            invariant
                i <= self.rows@.len(),
                self.rows@.len() == start.len(),
                self.next_id == old(self).next_id,
                start == old(self)@,
                forall|j: int|
                    0 <= j < start.len() ==> #[trigger] self.rows@[j] == if j < i && start[j].id
                        == id {
                        start[j].expired_at(now)
                    } else {
                        start[j]
                    },
            decreases start.len() - i,
        {
            if self.rows[i].id == id {
                let mut m = self.rows[i].clone();
                m.expire(now);
                self.rows.set(i, m);
            }
            i = i + 1;
        }
        proof {
            assert(self@ =~= expire_id(start, id, now));
            if !has_id(start, id) {
                assert(self@ =~= start);
            }
        }
    }
}

/// When all the rows that `q` selects at `now` fit in one page, the page
/// holds each of them.
pub proof fn lemma_admitted_row_listed(rows: Seq<Message>, m: Message, q: ListQuery, now: Timestamp)
    requires
        rows.contains(m),
        q.admits(m, now),
        matching(rows, q, now).len() <= q.count,
    ensures
        listing(rows, q, now).contains(m),
{
    broadcast use vstd::seq_lib::group_filter_ensures;

    let i = choose|i: int| 0 <= i < rows.len() && rows[i] == m;
    assert(rows.filter(|m: Message| q.admits(m, now)).contains(rows[i]));
}

/// A message without expiration stays listed at every instant, by every query
/// whose cursor lies below its id, as long as the selection fits in one page.
pub proof fn law_unexpiring_message_listed(
    rows: Seq<Message>,
    m: Message,
    q: ListQuery,
    now: Timestamp,
)
    requires
        rows.contains(m),
        m.expires_at is None,
        q.since_id < m.id,
        matching(rows, q, now).len() <= q.count,
    ensures
        listing(rows, q, now).contains(m),
{
    lemma_admitted_row_listed(rows, m, q, now);
}

/// A message whose expiration is not after `now` is listed at `now` only by a
/// query that includes expired messages, and is never drawn at `now`.
pub proof fn law_expired_message_hidden(rows: Seq<Message>, m: Message, q: ListQuery, now: Timestamp)
    requires
        m.expires_at matches Some(t) && t <= now,
    ensures
        !q.include_expired ==> !listing(rows, q, now).contains(m),
        !drawable(rows, now).contains(m),
        q.include_expired && rows.contains(m) && q.since_id < m.id && matching(rows, q, now).len()
            <= q.count ==> listing(rows, q, now).contains(m),
{
    broadcast use vstd::seq_lib::group_filter_ensures;

    lemma_listing_facts(rows, q, now);
    if q.include_expired && rows.contains(m) && q.since_id < m.id && matching(rows, q, now).len()
        <= q.count {
        lemma_admitted_row_listed(rows, m, q, now);
    }
}

/// After a soft delete of `id` at `now`, neither a listing that excludes
/// expired messages nor a draw, at `now` or later, returns a message with
/// that id.
pub proof fn law_deleted_message_hidden(
    rows: Seq<Message>,
    id: i64,
    now: Timestamp,
    later: Timestamp,
    q: ListQuery,
)
    requires
        now <= later,
        !q.include_expired,
    ensures
        forall|i: int|
            0 <= i < listing(expire_id(rows, id, now), q, later).len() ==> (#[trigger] listing(
                expire_id(rows, id, now),
                q,
                later,
            )[i]).id != id,
        forall|i: int|
            0 <= i < drawable(expire_id(rows, id, now), later).len() ==> (#[trigger] drawable(
                expire_id(rows, id, now),
                later,
            )[i]).id != id,
{
    broadcast use vstd::seq_lib::group_filter_ensures;

    let after = expire_id(rows, id, now);
    lemma_listing_facts(after, q, later);
    assert forall|i: int| 0 <= i < listing(after, q, later).len() implies (#[trigger] listing(
        after,
        q,
        later,
    )[i]).id != id by {
        let m = listing(after, q, later)[i];
        let j = choose|j: int| 0 <= j < after.len() && after[j] == m;
        assert(after[j] == if rows[j].id == id { rows[j].expired_at(now) } else { rows[j] });
    }
    assert forall|i: int| 0 <= i < drawable(after, later).len() implies (#[trigger] drawable(
        after,
        later,
    )[i]).id != id by {
        let m = drawable(after, later)[i];
        assert(drawable(after, later).contains(m));
        after.lemma_filter_contains_rev(|m: Message| m.drawable_at(later), m);
        let j = choose|j: int| 0 <= j < after.len() && after[j] == m;
        assert(after[j] == if rows[j].id == id { rows[j].expired_at(now) } else { rows[j] });
    }
}

} // verus!
