//! Laws on the local cache.

use crate::cache::{
    cache_row, call_failed, last_step, list_cached, row_of, row_views, CacheRow, CacheSync,
    CachedService, FailedCall, SyncAction, SyncProgress,
};
use crate::client::CallFailure;
use crate::json::{is_exact, json_text, nesting_limit, parsed_json, value_model};
use crate::service::ForgeGraphService;
use vstd::prelude::*;

verus! {

/// A row says of a service what the service says.
pub open spec fn is_row_of(row: CacheRow, service: ForgeGraphService) -> bool {
    &&& row.app_slug@ == service.app_slug@
    &&& row.app_name@ == service.app_name@
    &&& row.stage@ == service.stage@
    &&& row.kind@ == service.kind@
    &&& row.node_name@ == service.node_name@
    &&& row.node_status@ == service.node_status@
}

/// The row of a service holds every text of the service as it is, and the JSON texts
/// that it is given, each in its place.
pub proof fn law_row_of(
    service: &ForgeGraphService,
    config: String,
    transports: String,
    r: CacheRow,
)
    requires
        call_ensures(row_of, (service, config, transports), r),
    ensures
        is_row_of(r, *service),
        r.config@ == config@,
        r.transports@ == transports@,
{
    assert(r@.app_slug == r.app_slug@);
}

/// What is cached of a service is what the service says, its configuration as JSON, and
/// its transports as they were written, or nothing where they could not be.
pub proof fn law_cache_row(service: &ForgeGraphService, transports: Option<String>, r: CacheRow)
    requires
        call_ensures(cache_row, (service, transports), r),
    ensures
        is_row_of(r, *service),
        r.config@ == json_text(value_model(service.config)),
        match transports {
            Some(text) => r.transports@ == text@,
            None => r.transports@.len() == 0,
        },
        is_exact(value_model(service.config), nesting_limit()) ==> parsed_json(r.config@) == Some(
            value_model(service.config),
        ),
{
    assert(r@.app_slug == r.app_slug@);
}

/// Cached services are listed as they were read; an error says what failed.
pub proof fn law_list_cached(
    rows: Result<Vec<CachedService>, String>,
    r: Result<Vec<CachedService>, String>,
)
    requires
        call_ensures(list_cached, (rows,), r),
    ensures
        match rows {
            Ok(rows) => r is Ok && r->Ok_0 == rows,
            Err(error) => r is Err && r->Err_0@ == "Failed to list cached services: "@ + error@,
        },
{
}

/// `next` is where a sync stands after the next step of `sync` has succeeded.
pub open spec fn follows(sync: CacheSync, next: CacheSync) -> bool {
    call_ensures(CacheSync::record, (sync, Ok::<(), String>(())), SyncProgress::Next(next))
}

/// `end` is where a sync stands after `steps` of its steps have succeeded.
pub open spec fn sync_after(start: CacheSync, steps: nat, end: CacheSync) -> bool
    decreases steps,
{
    if steps == 0 {
        end == start
    } else {
        exists|before: CacheSync| #[trigger]
            follows(before, end) && sync_after(start, (steps - 1) as nat, before)
    }
}

/// Two rows are alike in every field.
pub open spec fn same_row(a: CacheRow, b: CacheRow) -> bool {
    &&& a.app_slug@ == b.app_slug@
    &&& a.app_name@ == b.app_name@
    &&& a.stage@ == b.stage@
    &&& a.kind@ == b.kind@
    &&& a.node_name@ == b.node_name@
    &&& a.node_status@ == b.node_status@
    &&& a.config@ == b.config@
    &&& a.transports@ == b.transports@
}

proof fn lemma_sync_after(start: CacheSync, steps: nat, end: CacheSync)
    requires
        sync_after(start, steps, end),
        start.position() == 0,
    ensures
        end.rows() == start.rows(),
        end.position() == steps,
        steps <= last_step(start.rows()),
    decreases steps,
{
    if steps > 0 {
        let before = choose|before: CacheSync| #[trigger]
            follows(before, end) && sync_after(start, (steps - 1) as nat, before);
        lemma_sync_after(start, (steps - 1) as nat, before);
    }
}

/// `action` is the step of a sync at a place: first a transaction begins, then the cache
/// is cleared, then each row is inserted in its turn, and then the transaction commits.
pub open spec fn is_step(action: SyncAction, rows: Seq<CacheRow>, place: nat) -> bool {
    match action {
        SyncAction::Begin => place == 0,
        SyncAction::Clear => place == 1,
        SyncAction::Insert(row) => 2 <= place < rows.len() + 2 && same_row(*row, rows[place - 2]),
        SyncAction::Commit => place == rows.len() + 2,
    }
}

/// A sync begins a transaction, clears the cache, inserts the rows that it was given in
/// their order, each of them once, and commits.
pub proof fn law_sync_steps(
    rows: Vec<CacheRow>,
    start: CacheSync,
    place: nat,
    sync: CacheSync,
    action: SyncAction,
)
    requires
        call_ensures(CacheSync::new, (rows,), start),
        sync_after(start, place, sync),
        call_ensures(CacheSync::action, (&sync,), action),
    ensures
        is_step(action, rows@, place),
{
    lemma_sync_after(start, place, sync);
    let views = row_views(rows@);
    assert(views.len() == rows@.len());
    if let SyncAction::Insert(row) = action {
        assert(2 <= place < rows@.len() + 2);
        assert(views[place - 2] == rows@[place - 2]@);
        assert(row@ == rows@[place - 2]@);
    }
}

/// A sync goes on after a step that succeeds, and is done after the commit and not
/// before.
pub proof fn law_sync_goes_on(
    rows: Vec<CacheRow>,
    start: CacheSync,
    place: nat,
    sync: CacheSync,
    r: SyncProgress,
)
    requires
        call_ensures(CacheSync::new, (rows,), start),
        sync_after(start, place, sync),
        call_ensures(CacheSync::record, (sync, Ok::<(), String>(())), r),
    ensures
        r is Done <==> place == rows@.len() + 2,
        r is Next <==> place < rows@.len() + 2,
        place <= rows@.len() + 2,
{
    lemma_sync_after(start, place, sync);
    assert(row_views(rows@).len() == rows@.len());
}

/// A step that fails ends the sync, and the error says which step it was.
pub proof fn law_sync_fails(
    rows: Vec<CacheRow>,
    start: CacheSync,
    place: nat,
    sync: CacheSync,
    error: String,
    r: SyncProgress,
)
    requires
        call_ensures(CacheSync::new, (rows,), start),
        sync_after(start, place, sync),
        call_ensures(CacheSync::record, (sync, Err::<(), String>(error)), r),
    ensures
        r is Failed,
        place == 0 ==> r->Failed_0@ == "Failed to begin transaction: "@ + error@,
        place == 1 ==> r->Failed_0@ == "Failed to clear forgegraph_services: "@ + error@,
        2 <= place < rows@.len() + 2 ==> r->Failed_0@ == "Failed to insert service "@
            + rows@[place - 2].app_slug@ + ": "@ + error@,
        place == rows@.len() + 2 ==> r->Failed_0@ == "Failed to commit sync transaction: "@
            + error@,
{
    lemma_sync_after(start, place, sync);
    let views = row_views(rows@);
    assert(views.len() == rows@.len());
    if 2 <= place < rows@.len() + 2 {
        assert(views[place - 2] == rows@[place - 2]@);
    }
}

/// A failed call is reported by its error. A rejected token empties the cache, by a
/// sync that inserts nothing; no other failure touches the cache.
pub proof fn law_call_failed(failure: CallFailure, r: FailedCall)
    requires
        call_ensures(call_failed, (failure,), r),
    ensures
        match failure {
            CallFailure::Rejected(error) => r.error@ == error@ && r.clearing is Some,
            CallFailure::Other(error) => r.error@ == error@ && r.clearing is None,
        },
{
}

/// The sync that empties the cache begins, clears and commits, and nothing else.
pub proof fn law_clearing_steps(
    failure: CallFailure,
    failed: FailedCall,
    place: nat,
    sync: CacheSync,
    action: SyncAction,
    r: SyncProgress,
)
    requires
        call_ensures(call_failed, (failure,), failed),
        failed.clearing is Some,
        sync_after(failed.clearing->Some_0, place, sync),
        call_ensures(CacheSync::action, (&sync,), action),
        call_ensures(CacheSync::record, (sync, Ok::<(), String>(())), r),
    ensures
        is_step(action, seq![], place),
        r is Done <==> place == 2,
        r is Next <==> place < 2,
        place <= 2,
{
    lemma_sync_after(failed.clearing->Some_0, place, sync);
}

} // verus!
