//! The ticket service: what each store call's reply means, what the cache
//! must do after it, and what the HTTP interface answers.
//!
//! The statements themselves run in the database and the cache lives beside
//! them; each function here takes the database's reply and decides. The
//! `db_*` spec functions state what each statement does to the table, so that
//! the laws at the end can follow the table and the cache together.
use vstd::prelude::*;
use crate::data::{patched, Status, Ticket, TicketDraft, TicketId, TicketPatch, Timestamp};
use crate::error::{classifies, reports, ApiError, DbFailure, StoreError};
use crate::paging::{ids_of, limit_for, next_cursor_of, TicketPage};

verus! {

/// `200 OK`.
pub const STATUS_OK: u16 = 200;

/// `201 Created`.
pub const STATUS_CREATED: u16 = 201;

/// `204 No Content`.
pub const STATUS_NO_CONTENT: u16 = 204;

/// `503 Service Unavailable`.
pub const STATUS_SERVICE_UNAVAILABLE: u16 = 503;

/// Law: the answers carry the HTTP codes their names say: 200 OK, 201
/// Created, 204 No Content, 503 Service Unavailable; a health probe answers
/// 200 exactly when the database answered.
pub proof fn lemma_status_codes()
    ensures
        STATUS_OK == 200,
        STATUS_CREATED == 201,
        STATUS_NO_CONTENT == 204,
        STATUS_SERVICE_UNAVAILABLE == 503,
{
}

/// What the ticket cache must do after a store operation.
#[derive(Debug, PartialEq, Eq)]
pub enum CacheAction {
    /// Leave the cache as it is.
    Keep,
    /// Cache the ticket under the identifier.
    Store(TicketId, Ticket),
    /// Drop whatever the cache holds under the identifier.
    Evict(TicketId),
}

/// The cache after an action.
pub open spec fn apply_action(cache: Map<u128, Ticket>, a: CacheAction) -> Map<u128, Ticket> {
    match a {
        CacheAction::Keep => cache,
        CacheAction::Store(id, t) => cache.insert(id@, t),
        CacheAction::Evict(id) => cache.remove(id@),
    }
}

/// The cache holds no ticket the table does not hold as it is.
pub open spec fn coherent(db: Map<u128, Ticket>, cache: Map<u128, Ticket>) -> bool {
    forall|k: u128| #[trigger] cache.dom().contains(k) ==> db.dom().contains(k) && cache[k] == db[k]
}

/// The row of the table under `id`, if any.
pub open spec fn db_row(db: Map<u128, Ticket>, id: TicketId) -> Option<Ticket> {
    if db.dom().contains(id@) {
        Some(db[id@])
    } else {
        None
    }
}

/// The row `INSERT ... RETURNING id` stores for a draft under the fresh `id`
/// at time `now` (both times default to `now()`).
pub open spec fn inserted_row(id: TicketId, draft: TicketDraft, now: Timestamp) -> Ticket {
    Ticket {
        id: id,
        title: draft.spec_title(),
        description: draft.spec_description(),
        status: Status::ToDo,
        created_at: now,
        updated_at: now,
    }
}

/// The row `UPDATE ... SET x = COALESCE($n, x), updated_at = now() ...
/// RETURNING ...` returns when run at time `now`: the patched row, or none
/// when no row has the identifier.
pub open spec fn db_patch_row(db: Map<u128, Ticket>, id: TicketId, p: TicketPatch, now: Timestamp) -> Option<Ticket> {
    match db_row(db, id) {
        Some(t) => Some(patched(t, p, now)),
        None => None,
    }
}

/// The table after the update.
pub open spec fn db_after_patch(db: Map<u128, Ticket>, id: TicketId, p: TicketPatch, now: Timestamp) -> Map<u128, Ticket> {
    match db_patch_row(db, id, p, now) {
        Some(t) => db.insert(id@, t),
        None => db,
    }
}

/// The number of rows `DELETE ... WHERE id = $1` affects.
pub open spec fn db_delete_count(db: Map<u128, Ticket>, id: TicketId) -> u64 {
    if db.dom().contains(id@) {
        1
    } else {
        0
    }
}

/// The cache action after an update that returned `row`.
pub open spec fn patch_action(id: TicketId, row: Option<Ticket>) -> CacheAction {
    match row {
        Some(t) => CacheAction::Store(id, t),
        None => CacheAction::Keep,
    }
}

/// The cache action after a delete that affected `rows` rows.
pub open spec fn delete_action(id: TicketId, rows: u64) -> CacheAction {
    if rows == 0 {
        CacheAction::Keep
    } else {
        CacheAction::Evict(id)
    }
}

/// What a read of `id` gives: the cached ticket when there is one, otherwise
/// the row loaded from the table.
pub open spec fn read_outcome(db: Map<u128, Ticket>, cache: Map<u128, Ticket>, id: TicketId) -> Option<Ticket> {
    if cache.dom().contains(id@) {
        Some(cache[id@])
    } else {
        db_row(db, id)
    }
}

/// The cache after a read of `id`: a miss that found the row caches it.
pub open spec fn cache_after_read(db: Map<u128, Ticket>, cache: Map<u128, Ticket>, id: TicketId) -> Map<u128, Ticket> {
    if cache.dom().contains(id@) {
        cache
    } else {
        match db_row(db, id) {
            Some(t) => cache.insert(id@, t),
            None => cache,
        }
    }
}

/// The outcome of `INSERT INTO tickets ... RETURNING id`: the new ticket's
/// identifier. The cache is left alone.
pub fn add_reply(reply: Result<u128, DbFailure>) -> (r: Result<TicketId, StoreError>)
    ensures
        match reply {
            Ok(id) => r == Ok::<TicketId, StoreError>(TicketId(id)),
            Err(f) => r matches Err(e) && classifies(f, e),
        },
{
    match reply {
        Ok(id) => Ok(TicketId::from(id)),
        Err(f) => Err(StoreError::from_db(f)),
    }
}

/// The outcome of the update of ticket `id`: done when a row came back, which
/// the cache then holds; `NotFound` when none did.
pub fn patch_reply(id: TicketId, reply: Result<Option<Ticket>, DbFailure>) -> (r: (
    Result<(), StoreError>,
    CacheAction,
))
    ensures
        match reply {
            Ok(Some(t)) => r.0 is Ok && r.1 == patch_action(id, Some(t)),
            Ok(None) => r.0 == Err::<(), StoreError>(StoreError::NotFound(id)) && r.1 == CacheAction::Keep,
            Err(f) => r.0 matches Err(e) && classifies(f, e) && r.1 == CacheAction::Keep,
        },
{
    match reply {
        Ok(Some(t)) => (Ok(()), CacheAction::Store(id, t)),
        Ok(None) => (Err(StoreError::NotFound(id)), CacheAction::Keep),
        Err(f) => (Err(StoreError::from_db(f)), CacheAction::Keep),
    }
}

/// The outcome of the delete of ticket `id`: done when a row went, which the
/// cache then forgets; `NotFound` when none did.
pub fn delete_reply(id: TicketId, reply: Result<u64, DbFailure>) -> (r: (
    Result<(), StoreError>,
    CacheAction,
))
    ensures
        match reply {
            Ok(rows) => r.1 == delete_action(id, rows) && if rows == 0 {
                r.0 == Err::<(), StoreError>(StoreError::NotFound(id))
            } else {
                r.0 is Ok
            },
            Err(f) => r.0 matches Err(e) && classifies(f, e) && r.1 == CacheAction::Keep,
        },
{
    match reply {
        Ok(rows) => {
            if rows == 0 {
                (Err(StoreError::NotFound(id)), CacheAction::Keep)
            } else {
                (Ok(()), CacheAction::Evict(id))
            }
        },
        Err(f) => (Err(StoreError::from_db(f)), CacheAction::Keep),
    }
}

/// The outcome of loading ticket `id` on a cache miss: the row, which the
/// cache then holds, or `NotFound`.
pub fn load_reply(id: TicketId, reply: Result<Option<Ticket>, DbFailure>) -> (r: Result<
    Ticket,
    StoreError,
>)
    ensures
        match reply {
            Ok(Some(t)) => r == Ok::<Ticket, StoreError>(t),
            Ok(None) => r == Err::<Ticket, StoreError>(StoreError::NotFound(id)),
            Err(f) => r matches Err(e) && classifies(f, e),
        },
{
    match reply {
        Ok(Some(t)) => Ok(t),
        Ok(None) => Err(StoreError::NotFound(id)),
        Err(f) => Err(StoreError::from_db(f)),
    }
}

/// The outcome of the keyset query for a page of `limit` rows.
pub fn list_reply(reply: Result<Vec<Ticket>, DbFailure>, limit: u32) -> (r: Result<
    TicketPage,
    StoreError,
>)
    ensures
        match reply {
            Ok(rows) => r matches Ok(page) && page.items@ == rows@
                && page.next_cursor == match next_cursor_of(ids_of(rows@), limit as nat) {
                    Some(c) => Some(TicketId(c)),
                    None => None,
                },
            Err(f) => r matches Err(e) && classifies(f, e),
        },
{
    match reply {
        Ok(rows) => Ok(TicketPage::new(rows, limit)),
        Err(f) => Err(StoreError::from_db(f)),
    }
}

/// The outcome of the `SELECT 1` health probe.
pub fn ping_reply(reply: Result<(), DbFailure>) -> (r: Result<(), StoreError>)
    ensures
        match reply {
            Ok(()) => r is Ok,
            Err(f) => r matches Err(e) && classifies(f, e),
        },
{
    match reply {
        Ok(()) => Ok(()),
        Err(f) => Err(StoreError::from_db(f)),
    }
}

/// The answer to `POST /ticket`: `201` with the new identifier.
pub fn create_response(r: Result<TicketId, StoreError>) -> (a: Result<(u16, TicketId), ApiError>)
    ensures
        match r {
            Ok(id) => a == Ok::<(u16, TicketId), ApiError>((STATUS_CREATED, id)),
            Err(e) => a matches Err(x) && reports(e, x),
        },
{
    match r {
        Ok(id) => Ok((STATUS_CREATED, id)),
        Err(e) => Err(ApiError::from_store_ref(&e)),
    }
}

/// The answer to `PATCH` and `DELETE /ticket/{id}`: `204` when done.
pub fn no_content_response(r: Result<(), StoreError>) -> (a: Result<u16, ApiError>)
    ensures
        match r {
            Ok(()) => a == Ok::<u16, ApiError>(STATUS_NO_CONTENT),
            Err(e) => a matches Err(x) && reports(e, x),
        },
{
    match r {
        Ok(()) => Ok(STATUS_NO_CONTENT),
        Err(e) => Err(ApiError::from_store_ref(&e)),
    }
}

/// The answer to `GET /health`: `200` when the database answers the probe,
/// `503` otherwise.
pub fn health_status(r: Result<(), StoreError>) -> (s: u16)
    ensures
        s == if r is Ok { STATUS_OK } else { STATUS_SERVICE_UNAVAILABLE },
{
    match r {
        Ok(()) => STATUS_OK,
        Err(_) => STATUS_SERVICE_UNAVAILABLE,
    }
}

/// Law: opening a ticket under a fresh identifier keeps the cache coherent,
/// and a read of that identifier then gives the new ticket, `ToDo`.
pub proof fn lemma_add_then_read(
    db: Map<u128, Ticket>,
    cache: Map<u128, Ticket>,
    id: TicketId,
    draft: TicketDraft,
    now: Timestamp,
)
    requires
        coherent(db, cache),
        !db.dom().contains(id@),
    ensures
        coherent(db.insert(id@, inserted_row(id, draft, now)), cache),
        read_outcome(db.insert(id@, inserted_row(id, draft, now)), cache, id) == Some(inserted_row(id, draft, now)),
        read_outcome(db.insert(id@, inserted_row(id, draft, now)), cache, id).unwrap().status == Status::ToDo,
{
    assert(!cache.dom().contains(id@));
}

/// Law: an update keeps the cache coherent with the table, and answers
/// `NotFound` exactly when the table has no such ticket.
pub proof fn lemma_patch_keeps_coherence(
    db: Map<u128, Ticket>,
    cache: Map<u128, Ticket>,
    id: TicketId,
    p: TicketPatch,
    now: Timestamp,
)
    requires
        coherent(db, cache),
    ensures
        coherent(db_after_patch(db, id, p, now), apply_action(cache, patch_action(id, db_patch_row(db, id, p, now)))),
        db_patch_row(db, id, p, now) is None <==> !db.dom().contains(id@),
{
}

/// Law: a delete keeps the cache coherent with the table, and answers
/// `NotFound` exactly when the table has no such ticket.
pub proof fn lemma_delete_keeps_coherence(db: Map<u128, Ticket>, cache: Map<u128, Ticket>, id: TicketId)
    requires
        coherent(db, cache),
    ensures
        coherent(db.remove(id@), apply_action(cache, delete_action(id, db_delete_count(db, id)))),
        db_delete_count(db, id) == 0 <==> !db.dom().contains(id@),
{
}

/// Law: a read gives exactly the table's row (or nothing when there is
/// none), whether the cache held the ticket or not, and keeps the cache
/// coherent.
pub proof fn lemma_read_is_the_table(db: Map<u128, Ticket>, cache: Map<u128, Ticket>, id: TicketId)
    requires
        coherent(db, cache),
    ensures
        read_outcome(db, cache, id) == db_row(db, id),
        coherent(db, cache_after_read(db, cache, id)),
{
}

/// Law: the cache dropping entries on its own (expiry, capacity) keeps it
/// coherent.
pub proof fn lemma_eviction_keeps_coherence(
    db: Map<u128, Ticket>,
    cache: Map<u128, Ticket>,
    smaller: Map<u128, Ticket>,
)
    requires
        coherent(db, cache),
        smaller.submap_of(cache),
    ensures
        coherent(db, smaller),
{
    assert forall|k: u128| #[trigger] smaller.dom().contains(k) implies db.dom().contains(k)
        && smaller[k] == db[k] by {
        assert(cache.dom().contains(k));
    }
}

/// Law (read your write): after an update of an existing ticket at time
/// `now`, a read gives the patched ticket: the fields the patch carried, the
/// others as they were, the creation time kept and the update time `now`.
pub proof fn lemma_read_after_patch(
    db: Map<u128, Ticket>,
    cache: Map<u128, Ticket>,
    id: TicketId,
    p: TicketPatch,
    now: Timestamp,
)
    requires
        coherent(db, cache),
        db.dom().contains(id@),
    ensures
        read_outcome(
            db_after_patch(db, id, p, now),
            apply_action(cache, patch_action(id, db_patch_row(db, id, p, now))),
            id,
        ) == Some(patched(db[id@], p, now)),
        patched(db[id@], p, now).created_at == db[id@].created_at,
        patched(db[id@], p, now).updated_at == now,
{
}

/// Law: after a delete, a read finds nothing.
pub proof fn lemma_read_after_delete(db: Map<u128, Ticket>, cache: Map<u128, Ticket>, id: TicketId)
    requires
        coherent(db, cache),
    ensures
        read_outcome(db.remove(id@), apply_action(cache, delete_action(id, db_delete_count(db, id))), id)
            is None,
{
    lemma_delete_keeps_coherence(db, cache, id);
}

} // verus!
