use vstd::prelude::*;

use crate::message::{Message, Timestamp};

verus! {

/// Page size of a listing when the client gives none.
pub const DEFAULT_LIST_COUNT: u32 = 20;

/// Id cursor of a listing when the client gives none.
pub const DEFAULT_LIST_SINCE_ID: u32 = 0;

/// The filters of one listing request, defaults filled in.
#[derive(Clone, Copy, Debug, PartialEq, Eq, Structural)]
pub struct ListQuery {
    /// At most this many messages are returned.
    pub count: u32,
    /// Only messages with an id strictly greater than this are returned.
    pub since_id: u32,
    /// Whether expired messages are returned too.
    pub include_expired: bool,
}

impl ListQuery {
    /// Builds the query from the request's optional parameters. The
    /// include-expired flag is set only by the value 1.
    pub fn from_params(count: Option<u32>, since_id: Option<u32>, include_expired: Option<u32>) -> (r:
        ListQuery)
        ensures
            r.count == match count {
                Some(c) => c,
                None => DEFAULT_LIST_COUNT,
            },
            r.since_id == match since_id {
                Some(s) => s,
                None => DEFAULT_LIST_SINCE_ID,
            },
            r.include_expired == (include_expired == Some(1u32)),
    {
        let count = match count {
            Some(c) => c,
            None => DEFAULT_LIST_COUNT,
        };
        let since_id = match since_id {
            Some(s) => s,
            None => DEFAULT_LIST_SINCE_ID,
        };
        let flag: u32 = match include_expired {
            Some(f) => f,
            None => 0,
        };
        ListQuery { count, since_id, include_expired: flag == 1 }
    }

    /// The query of a request that gives no parameter.
    pub fn default_filters() -> (r: ListQuery)
        ensures
            r.count == DEFAULT_LIST_COUNT,
            r.since_id == DEFAULT_LIST_SINCE_ID,
            !r.include_expired,
    {
        ListQuery::from_params(None, None, None)
    }

    /// Whether the query selects `m` at `now`, before the page size applies.
    pub open spec fn admits(self, m: Message, now: Timestamp) -> bool {
        &&& self.since_id < m.id
        &&& (self.include_expired || m.unexpired_at(now))
    }

    pub fn is_admitted(&self, m: &Message, now: Timestamp) -> (r: bool)
        ensures
            r == self.admits(*m, now),
    {
        (self.since_id as i64) < m.id && (self.include_expired || m.is_unexpired_at(now))
    }
}

/// The rows, in table order, that the query selects at `now`.
pub open spec fn matching(rows: Seq<Message>, q: ListQuery, now: Timestamp) -> Seq<Message> {
    rows.filter(|m: Message| q.admits(m, now))
}

/// The page that a listing returns: the first `q.count` of the matching rows.
pub open spec fn listing(rows: Seq<Message>, q: ListQuery, now: Timestamp) -> Seq<Message> {
    let s = matching(rows, q, now);
    if s.len() <= q.count {
        s
    } else {
        s.take(q.count as int)
    }
}

/// The rows, in table order, among which a random draw at `now` picks.
pub open spec fn drawable(rows: Seq<Message>, now: Timestamp) -> Seq<Message> {
    rows.filter(|m: Message| m.drawable_at(now))
}

/// The row that a draw with the number `pick` returns, if any row is drawable.
pub open spec fn drawn(rows: Seq<Message>, now: Timestamp, pick: u64) -> Option<Message> {
    let pool = drawable(rows, now);
    if pool.len() == 0 {
        None
    } else {
        Some(pool[pick as int % (pool.len() as int)])
    }
}

/// Selects the page of `rows` (given in table order) that the query returns at `now`.
pub fn select_listed(rows: &Vec<Message>, q: &ListQuery, now: Timestamp) -> (r: Vec<Message>)
    ensures
        r@ == listing(rows@, *q, now),
        r@.len() <= q.count,
        forall|i: int| 0 <= i < r@.len() ==> q.since_id < #[trigger] r@[i].id,
        forall|i: int| 0 <= i < r@.len() ==> rows@.contains(#[trigger] r@[i]),
{
    let ghost pred = |m: Message| q.admits(m, now);
    let mut out: Vec<Message> = Vec::new();
    let mut i: usize = 0;
    while i < rows.len()
        invariant
            i <= rows@.len(),
            pred == (|m: Message| q.admits(m, now)),
            out@ == listing(rows@.take(i as int), *q, now),
        decreases rows@.len() - i,
    {
        let ghost before = rows@.take(i as int);
        let ghost after = rows@.take(i as int + 1);
        proof {
            assert(after.drop_last() =~= before);
            reveal(Seq::filter);
            assert(after.filter(pred) == if pred(rows@[i as int]) {
                before.filter(pred).push(rows@[i as int])
            } else {
                before.filter(pred)
            });
        }
        if out.len() < q.count as usize && q.is_admitted(&rows[i], now) {
            out.push(rows[i].clone());
            proof {
                assert(before.filter(pred).len() <= q.count);
                assert(out@ =~= listing(after, *q, now));
            }
        } else {
            proof {
                if pred(rows@[i as int]) {
                    assert(listing(after, *q, now) =~= out@);
                }
            }
        }
        i = i + 1;
    }
    proof {
        assert(rows@.take(rows@.len() as int) =~= rows@);
        lemma_listing_facts(rows@, *q, now);
    }
    out
}

/// What every page holds: rows of the table that the query admits, at most
/// `q.count` of them.
pub proof fn lemma_listing_facts(rows: Seq<Message>, q: ListQuery, now: Timestamp)
    ensures
        listing(rows, q, now).len() <= q.count,
        forall|i: int|
            0 <= i < listing(rows, q, now).len() ==> {
                let m = #[trigger] listing(rows, q, now)[i];
                rows.contains(m) && q.admits(m, now)
            },
{
    broadcast use vstd::seq_lib::group_filter_ensures;

    let pred = |m: Message| q.admits(m, now);
    let s = matching(rows, q, now);
    assert forall|i: int| 0 <= i < listing(rows, q, now).len() implies {
        let m = #[trigger] listing(rows, q, now)[i];
        rows.contains(m) && q.admits(m, now)
    } by {
        assert(listing(rows, q, now)[i] == s[i]);
        assert(s.contains(s[i]));
        rows.lemma_filter_contains_rev(pred, s[i]);
    }
}

/// Draws one row of `rows` (given in table order) that is drawable at `now`:
/// the row at position `pick` modulo the number of drawable rows.
pub fn select_random(rows: &Vec<Message>, now: Timestamp, pick: u64) -> (r: Option<Message>)
    ensures
        r == drawn(rows@, now, pick),
        r is None <==> drawable(rows@, now).len() == 0,
        r matches Some(m) ==> rows@.contains(m) && m.drawable_at(now),
{
    let ghost pred = |m: Message| m.drawable_at(now);
    let mut pool: Vec<Message> = Vec::new();
    let mut i: usize = 0;
    while i < rows.len()
        invariant
            i <= rows@.len(),
            pred == (|m: Message| m.drawable_at(now)),
            pool@ == drawable(rows@.take(i as int), now),
        decreases rows@.len() - i,
    {
        let ghost before = rows@.take(i as int);
        let ghost after = rows@.take(i as int + 1);
        proof {
            assert(after.drop_last() =~= before);
            reveal(Seq::filter);
        }
        if rows[i].is_drawable_at(now) {
            pool.push(rows[i].clone());
        }
        i = i + 1;
    }
    proof {
        assert(rows@.take(rows@.len() as int) =~= rows@);
    }
    if pool.len() == 0 {
        None
    } else {
        let k: usize = (pick % (pool.len() as u64)) as usize;
        let m = pool[k].clone();
        proof {
            broadcast use vstd::seq_lib::group_filter_ensures;

            assert(pool@.contains(pool@[k as int]));
            rows@.lemma_filter_contains_rev(pred, m);
        }
        Some(m)
    }
}

} // verus!
