//! Keyset pagination of the ticket list: how many tickets a page holds,
//! which rows the store returns for a cursor, and where the next page starts.
use vstd::prelude::*;
use crate::data::{Ticket, TicketId};

verus! {

/// The page size used when the client asks for none.
pub const DEFAULT_LIMIT: u32 = 20;

/// The largest page size; larger requests are clamped to it.
pub const MAX_LIMIT: u32 = 100;

/// The page size for a request: the requested size (20 when absent) clamped
/// into `1..=100`. Clamped, not rejected: a caller asking for a million rows
/// gets the cap.
pub open spec fn limit_for(requested: Option<u32>) -> u32 {
    let wanted = match requested {
        Some(n) => n,
        None => DEFAULT_LIMIT,
    };
    if wanted < 1 {
        1
    } else if wanted > MAX_LIMIT {
        MAX_LIMIT
    } else {
        wanted
    }
}

/// Law: the page size is what the client asked for whenever that is
/// between 1 and 100; a missing size means 20, a size of 0 means 1, and any
/// size above 100 means 100. Every page size lies in `1..=100`.
pub proof fn lemma_page_size(requested: Option<u32>)
    ensures
        1 <= limit_for(requested) <= 100,
        requested is None ==> limit_for(requested) == 20,
        forall|n: u32| 1 <= n <= 100 ==> #[trigger] limit_for(Some(n)) == n,
        limit_for(Some(0)) == 1,
        forall|n: u32| n > 100 ==> #[trigger] limit_for(Some(n)) == 100,
{
}

/// The page size for a request.
pub fn list_limit(requested: Option<u32>) -> (r: u32)
    ensures
        r == limit_for(requested),
        1 <= r <= MAX_LIMIT,
        match requested {
            None => r == 20,
            Some(n) => if n == 0 {
                r == 1
            } else if n <= 100 {
                r == n
            } else {
                r == 100
            },
        },
{
    let wanted = match requested {
        Some(n) => n,
        None => DEFAULT_LIMIT,
    };
    if wanted < 1 {
        1
    } else if wanted > MAX_LIMIT {
        MAX_LIMIT
    } else {
        wanted
    }
}

/// The identifiers of the table in increasing order, each once: the order in
/// which `ORDER BY id` returns the rows.
pub open spec fn strictly_sorted(ids: Seq<u128>) -> bool {
    forall|i: int, j: int| 0 <= i < j < ids.len() ==> ids[i] < ids[j]
}

/// The rows of `ids` (in order) that come after the cursor `a`.
pub open spec fn drop_through(ids: Seq<u128>, a: u128) -> Seq<u128>
    decreases ids.len(),
{
    if ids.len() == 0 {
        ids
    } else if ids[0] > a {
        ids
    } else {
        drop_through(ids.drop_first(), a)
    }
}

/// The rows that `WHERE $1 IS NULL OR id > $1 ORDER BY id` selects.
pub open spec fn after_cursor(ids: Seq<u128>, after: Option<u128>) -> Seq<u128> {
    match after {
        None => ids,
        Some(a) => drop_through(ids, a),
    }
}

/// The identifiers of the page the store returns for cursor `after` and
/// page size `limit`: the selected rows, at most `limit` of them.
pub open spec fn page_ids(ids: Seq<u128>, after: Option<u128>, limit: nat) -> Seq<u128> {
    let rest = after_cursor(ids, after);
    if rest.len() <= limit {
        rest
    } else {
        rest.take(limit as int)
    }
}

/// Where the next page starts: after the last row of a full page. A short
/// page means the end of the table.
pub open spec fn next_cursor_of(page: Seq<u128>, limit: nat) -> Option<u128> {
    if limit > 0 && page.len() == limit {
        Some(page.last())
    } else {
        None
    }
}

/// Every ticket a client sees when it starts with no cursor and follows
/// `next_cursor` until there is none.
pub open spec fn listed_from(ids: Seq<u128>, after: Option<u128>, limit: nat) -> Seq<u128>
    decreases after_cursor(ids, after).len(),
    when strictly_sorted(ids) && limit > 0
    via listed_from_decreases
{
    let page = page_ids(ids, after, limit);
    match next_cursor_of(page, limit) {
        Some(c) => page + listed_from(ids, Some(c), limit),
        None => page,
    }
}

/// The rows after a cursor are always a suffix of the table; in a sorted
/// table the rows before that suffix are at most the cursor, and the suffix
/// starts above it.
proof fn lemma_drop_through(ids: Seq<u128>, a: u128)
    ensures
        drop_through(ids, a).len() <= ids.len(),
        drop_through(ids, a) == ids.subrange(ids.len() - drop_through(ids, a).len(), ids.len() as int),
        drop_through(ids, a).len() > 0 ==> drop_through(ids, a)[0] > a,
        forall|i: int| 0 <= i < ids.len() - drop_through(ids, a).len() ==> ids[i] <= a,
    decreases ids.len(),
{
    if ids.len() == 0 {
        assert(ids == ids.subrange(0, 0));
    } else if ids[0] > a {
        assert(ids == ids.subrange(0, ids.len() as int));
    } else {
        let tail = ids.drop_first();
        lemma_drop_through(tail, a);
        let r = drop_through(tail, a);
        assert(r == ids.subrange(ids.len() - r.len(), ids.len() as int));
        assert forall|i: int| 0 <= i < ids.len() - r.len() implies ids[i] <= a by {
            if i > 0 {
                assert(ids[i] == tail[i - 1]);
            }
        }
    }
}

/// In a sorted table the rows after the row at `j` are exactly those at
/// positions `j + 1..`.
proof fn lemma_after_row(ids: Seq<u128>, j: int)
    requires
        strictly_sorted(ids),
        0 <= j < ids.len(),
    ensures
        drop_through(ids, ids[j]) == ids.subrange(j + 1, ids.len() as int),
{
    lemma_drop_through(ids, ids[j]);
    let r = drop_through(ids, ids[j]);
    let k = ids.len() - r.len();
    if k <= j {
        assert(r[j - k] == ids[j]);
        assert(r[0] > ids[j]);
        if j - k > 0 {
            assert(ids[k] < ids[j]);
        }
    }
    if k > j + 1 {
        assert(ids[j + 1] <= ids[j]);
    }
}

/// The page for the cursor at position `k` (no cursor when `k` is 0, else
/// the row at `k - 1`) holds the rows at `k..k + limit`, cut at the end.
proof fn lemma_page_at(ids: Seq<u128>, k: int, limit: nat)
    requires
        strictly_sorted(ids),
        0 <= k <= ids.len(),
    ensures
        after_cursor(ids, cursor_at(ids, k)) == ids.subrange(k, ids.len() as int),
        page_ids(ids, cursor_at(ids, k), limit) == ids.subrange(
            k,
            if k + limit <= ids.len() { k + limit } else { ids.len() as int },
        ),
{
    if k > 0 {
        lemma_after_row(ids, k - 1);
    } else {
        assert(ids == ids.subrange(0, ids.len() as int));
    }
}

/// The cursor that stands before position `k`.
pub open spec fn cursor_at(ids: Seq<u128>, k: int) -> Option<u128> {
    if k <= 0 {
        None
    } else {
        Some(ids[k - 1])
    }
}

#[via_fn]
proof fn listed_from_decreases(ids: Seq<u128>, after: Option<u128>, limit: nat) {
    let rest = after_cursor(ids, after);
    let page = page_ids(ids, after, limit);
    if let Some(c) = next_cursor_of(page, limit) {
        let k = match after {
            None => 0,
            Some(a) => {
                lemma_drop_through(ids, a);
                ids.len() - rest.len()
            },
        };
        if after is None {
            assert(rest == ids.subrange(0, ids.len() as int));
        }
        assert(rest == ids.subrange(k, ids.len() as int));
        assert(page.len() == limit);
        assert(c == ids[k + limit - 1]);
        lemma_after_row(ids, k + limit - 1);
    }
}

/// Paging through the table from position `k` lists the rows at `k..`.
proof fn lemma_listed_from_position(ids: Seq<u128>, k: int, limit: nat)
    requires
        strictly_sorted(ids),
        limit > 0,
        0 <= k <= ids.len(),
    ensures
        listed_from(ids, cursor_at(ids, k), limit) == ids.subrange(k, ids.len() as int),
    decreases ids.len() - k,
{
    lemma_page_at(ids, k, limit);
    let page = page_ids(ids, cursor_at(ids, k), limit);
    if k + limit <= ids.len() {
        assert(page.len() == limit);
        assert(next_cursor_of(page, limit) == Some(ids[k + limit - 1]));
        assert(cursor_at(ids, k + limit) == Some(ids[k + limit - 1]));
        lemma_listed_from_position(ids, k + limit, limit);
        assert(page + ids.subrange(k + limit, ids.len() as int) == ids.subrange(k, ids.len() as int));
    } else {
        assert(next_cursor_of(page, limit) is None);
    }
}

/// Paging law: a client that starts without a cursor and follows
/// `next_cursor` until it is absent sees every ticket exactly once, in the
/// order of the identifiers (which is creation order), for any page size.
pub proof fn lemma_paging_lists_every_ticket(ids: Seq<u128>, limit: nat)
    requires
        strictly_sorted(ids),
        limit > 0,
    ensures
        listed_from(ids, None, limit) == ids,
{
    lemma_listed_from_position(ids, 0, limit);
    assert(ids.subrange(0, ids.len() as int) == ids);
}

/// The identifiers of a sequence of tickets, in order.
pub open spec fn ids_of(ts: Seq<Ticket>) -> Seq<u128> {
    ts.map_values(|t: Ticket| t.id@)
}

/// One page of the ticket list, and the cursor of the page after it.
#[derive(Debug, PartialEq, Eq)]
pub struct TicketPage {
    pub items: Vec<Ticket>,
    pub next_cursor: Option<TicketId>,
}

impl TicketPage {
    /// The page made of the rows the store returned for a request of
    /// `limit` rows: only a full page can have more after it, and the next
    /// one starts after its last ticket.
    pub fn new(items: Vec<Ticket>, limit: u32) -> (r: TicketPage)
        ensures
            r.items@ == items@,
            r.next_cursor == match next_cursor_of(ids_of(items@), limit as nat) {
                Some(c) => Some(TicketId(c)),
                None => None,
            },
    {
        let n = items.len();
        let next_cursor = if n > 0 && n == limit as usize {
            Some(items[n - 1].id)
        } else {
            None
        };
        TicketPage { items, next_cursor }
    }
}

} // verus!
