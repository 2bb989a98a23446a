//! The local cache of services: what is written for each service, in which steps the
//! cache is replaced, and after which failure it is emptied.

use crate::client::{is_reading, unauthorized_text, CallFailure, Reading};
use crate::json::{is_exact, json_text, nesting_limit, parsed_json, to_text};
use crate::service::{ForgeGraphService, ServiceView};
use crate::status::UNAUTHORIZED;
use vstd::prelude::*;
use vstd::string::*;

verus! {

/// Cached ForgeGraph service row from the local SQLite table.
#[derive(Debug, Clone)]
pub struct CachedService {
    pub id: i64,
    pub app_slug: String,
    pub app_name: String,
    pub stage: String,
    pub kind: String,
    pub node_name: String,
    pub node_status: String,
    pub config: Option<String>,
    pub transports: Option<String>,
    pub synced_at: String,
}

/// What is written to the cache for a service.
#[derive(Debug)]
pub struct CacheRow {
    pub app_slug: String,
    pub app_name: String,
    pub stage: String,
    pub kind: String,
    pub node_name: String,
    pub node_status: String,
    /// The service's configuration as JSON.
    pub config: String,
    /// The service's transports as JSON.
    pub transports: String,
}

/// What a [`CacheRow`] says.
pub struct RowView {
    pub app_slug: Seq<char>,
    pub app_name: Seq<char>,
    pub stage: Seq<char>,
    pub kind: Seq<char>,
    pub node_name: Seq<char>,
    pub node_status: Seq<char>,
    pub config: Seq<char>,
    pub transports: Seq<char>,
}

impl View for CacheRow {
    type V = RowView;

    open spec fn view(&self) -> RowView {
        RowView {
            app_slug: self.app_slug@,
            app_name: self.app_name@,
            stage: self.stage@,
            kind: self.kind@,
            node_name: self.node_name@,
            node_status: self.node_status@,
            config: self.config@,
            transports: self.transports@,
        }
    }
}

/// The row for a service, given its configuration and its transports as JSON.
pub open spec fn service_row(
    service: ServiceView,
    config: Seq<char>,
    transports: Seq<char>,
) -> RowView {
    RowView {
        app_slug: service.app_slug,
        app_name: service.app_name,
        stage: service.stage,
        kind: service.kind,
        node_name: service.node_name,
        node_status: service.node_status,
        config,
        transports,
    }
}

/// The row for a service, given its configuration and its transports as JSON.
pub fn row_of(service: &ForgeGraphService, config: String, transports: String) -> (r: CacheRow)
    ensures
        r@ == service_row(service@, config@, transports@),
{
    CacheRow {
        app_slug: service.app_slug.clone(),
        app_name: service.app_name.clone(),
        stage: service.stage.clone(),
        kind: service.kind.clone(),
        node_name: service.node_name.clone(),
        node_status: service.node_status.clone(),
        config,
        transports,
    }
}

/// The row for a service. `transports` are its transports as JSON, and count as empty
/// where they could not be written. A configuration without floating-point numbers
/// that is not nested too deep reads back from its row.
pub fn cache_row(service: &ForgeGraphService, transports: Option<String>) -> (r: CacheRow)
    ensures
        r@ == service_row(
            service@,
            json_text(service@.config),
            match transports {
                Some(text) => text@,
                None => seq![],
            },
        ),
        is_exact(service@.config, nesting_limit()) ==> parsed_json(r@.config) == Some(
            service@.config,
        ),
{
    let config = match to_text(&service.config) {
        Ok(text) => text,
        Err(_) => String::new(),
    };
    let transports = match transports {
        Some(text) => text,
        None => String::new(),
    };
    row_of(service, config, transports)
}

/// The cached services, or the error when they cannot be listed.
pub fn list_cached(rows: Result<Vec<CachedService>, String>) -> (r: Result<
    Vec<CachedService>,
    String,
>)
    ensures
        match rows {
            Ok(rows) => r == Ok::<Vec<CachedService>, String>(rows),
            Err(error) => r is Err && r->Err_0@ == "Failed to list cached services: "@ + error@,
        },
{
    match rows {
        Ok(rows) => Ok(rows),
        Err(error) => Err("Failed to list cached services: ".to_owned().concat(&error)),
    }
}

/// A step in replacing the cache.
#[derive(Debug)]
pub enum SyncAction<'a> {
    /// Begin a transaction.
    Begin,
    /// Delete all rows.
    Clear,
    /// Insert this row.
    Insert(&'a CacheRow),
    /// Commit the transaction.
    Commit,
}

/// What a [`SyncAction`] does.
pub enum ActionView {
    Begin,
    Clear,
    Insert(RowView),
    Commit,
}

impl<'a> View for SyncAction<'a> {
    type V = ActionView;

    open spec fn view(&self) -> ActionView {
        match self {
            SyncAction::Begin => ActionView::Begin,
            SyncAction::Clear => ActionView::Clear,
            SyncAction::Insert(row) => ActionView::Insert(row@),
            SyncAction::Commit => ActionView::Commit,
        }
    }
}

/// What each of several rows says.
pub open spec fn row_views(rows: Seq<CacheRow>) -> Seq<RowView> {
    rows.map_values(|row: CacheRow| row@)
}

/// The position of the last step: after the transaction has begun, the cache was
/// cleared and all rows were inserted.
pub open spec fn last_step(rows: Seq<RowView>) -> nat {
    rows.len() + 2
}

/// The step at a position.
pub open spec fn sync_action(rows: Seq<RowView>, position: nat) -> ActionView {
    if position == 0 {
        ActionView::Begin
    } else if position == 1 {
        ActionView::Clear
    } else if position < last_step(rows) {
        ActionView::Insert(rows[position - 2])
    } else {
        ActionView::Commit
    }
}

/// The error when a step fails.
pub open spec fn sync_error_text(action: ActionView, error: Seq<char>) -> Seq<char> {
    match action {
        ActionView::Begin => "Failed to begin transaction: "@ + error,
        ActionView::Clear => "Failed to clear forgegraph_services: "@ + error,
        ActionView::Insert(row) => "Failed to insert service "@ + row.app_slug + ": "@ + error,
        ActionView::Commit => "Failed to commit sync transaction: "@ + error,
    }
}

enum Stage {
    Begin,
    Clear,
    Insert(usize),
    Commit,
}

/// A replacement of the cache that is under way.
pub struct CacheSync {
    rows: Vec<CacheRow>,
    stage: Stage,
}

/// How far the replacement of the cache has come.
pub enum SyncProgress {
    /// The next step is to be taken.
    Next(CacheSync),
    /// The cache has been replaced.
    Done,
    /// A step has failed with this error, and no further step is to be taken.
    Failed(String),
}

impl CacheSync {
    #[verifier::type_invariant]
    spec fn well_formed(self) -> bool {
        self.stage matches Stage::Insert(i) ==> i < self.rows@.len()
    }

    /// The rows that the cache is to hold.
    pub closed spec fn rows(self) -> Seq<RowView> {
        row_views(self.rows@)
    }

    /// The position of the next step.
    pub closed spec fn position(self) -> nat {
        match self.stage {
            Stage::Begin => 0,
            Stage::Clear => 1,
            Stage::Insert(i) => 2 + i as nat,
            Stage::Commit => last_step(self.rows()),
        }
    }

    /// Starts to replace the cache by the given rows.
    pub fn new(rows: Vec<CacheRow>) -> (r: CacheSync)
        ensures
            r.rows() == row_views(rows@),
            r.position() == 0,
    {
        CacheSync { rows, stage: Stage::Begin }
    }

    /// The next step.
    pub fn action<'a>(&'a self) -> (r: SyncAction<'a>)
        ensures
            r@ == sync_action(self.rows(), self.position()),
    {
        proof {
            use_type_invariant(self);
        }
        match &self.stage {
            Stage::Begin => SyncAction::Begin,
            Stage::Clear => SyncAction::Clear,
            Stage::Insert(i) => {
                assert(self.rows()[*i as int] == self.rows@[*i as int]@);
                SyncAction::Insert(&self.rows[*i])
            },
            Stage::Commit => SyncAction::Commit,
        }
    }

    /// Goes on by how the next step went.
    pub fn record(self, outcome: Result<(), String>) -> (r: SyncProgress)
        ensures
            match (outcome, r) {
                (Ok(_), SyncProgress::Next(next)) => {
                    &&& self.position() < last_step(self.rows())
                    &&& next.rows() == self.rows()
                    &&& next.position() == self.position() + 1
                },
                (Ok(_), SyncProgress::Done) => self.position() == last_step(self.rows()),
                (Ok(_), SyncProgress::Failed(_)) => false,
                (Err(error), SyncProgress::Failed(message)) => message@ == sync_error_text(
                    sync_action(self.rows(), self.position()),
                    error@,
                ),
                (Err(_), _) => false,
            },
    {
        proof {
            use_type_invariant(&self);
        }
        match outcome {
            Ok(_) => {
                let count = self.rows.len();
                let stage = match self.stage {
                    Stage::Begin => Stage::Clear,
                    Stage::Clear => if count == 0 {
                        Stage::Commit
                    } else {
                        Stage::Insert(0)
                    },
                    Stage::Insert(i) => if i + 1 == count {
                        Stage::Commit
                    } else {
                        Stage::Insert(i + 1)
                    },
                    Stage::Commit => return SyncProgress::Done,
                };
                SyncProgress::Next(CacheSync { rows: self.rows, stage })
            },
            Err(error) => {
                let message = match self.action() {
                    SyncAction::Begin => "Failed to begin transaction: ".to_owned().concat(&error),
                    SyncAction::Clear => "Failed to clear forgegraph_services: ".to_owned().concat(
                        &error,
                    ),
                    SyncAction::Insert(row) => "Failed to insert service ".to_owned().concat(
                        &row.app_slug,
                    ).concat(": ").concat(&error),
                    SyncAction::Commit => "Failed to commit sync transaction: ".to_owned().concat(
                        &error,
                    ),
                };
                SyncProgress::Failed(message)
            },
        }
    }
}

/// What is left to do after a call has failed.
pub struct FailedCall {
    /// The error to report, whatever becomes of the cache.
    pub error: String,
    /// The sync that empties the cache, where that is to be done.
    pub clearing: Option<CacheSync>,
}

/// Decides what is left to do after a call has failed. Services that were cached for a
/// token that is no longer accepted are cleared; any other failure leaves them.
pub fn call_failed(failure: CallFailure) -> (r: FailedCall)
    ensures
        r.error@ == failure.error(),
        match (failure, r.clearing) {
            (CallFailure::Rejected(_), Some(sync)) => {
                &&& sync.rows() == Seq::<RowView>::empty()
                &&& sync.position() == 0
            },
            (CallFailure::Rejected(_), None) => false,
            (CallFailure::Other(_), clearing) => clearing is None,
        },
{
    match failure {
        CallFailure::Rejected(error) => {
            let rows: Vec<CacheRow> = Vec::new();
            assert(row_views(rows@) =~= Seq::<RowView>::empty());
            FailedCall { error, clearing: Some(CacheSync::new(rows)) }
        },
        CallFailure::Other(error) => FailedCall { error, clearing: None },
    }
}

/// A table with transactions: what is committed, and what the open transaction, if
/// there is one, would commit.
pub struct TableView {
    pub committed: Seq<RowView>,
    pub open: Option<Seq<RowView>>,
}

/// The table after a step has succeeded.
pub open spec fn after_action(table: TableView, action: ActionView) -> TableView {
    match (action, table.open) {
        (ActionView::Begin, _) => TableView { open: Some(table.committed), ..table },
        (ActionView::Clear, Some(_)) => TableView { open: Some(seq![]), ..table },
        (ActionView::Insert(row), Some(rows)) => TableView { open: Some(rows.push(row)), ..table },
        (ActionView::Commit, Some(rows)) => TableView { committed: rows, open: None },
        (_, None) => table,
    }
}

/// The table after the steps from `position` on, where `succeeds` says of each step
/// whether it succeeds. After a step that fails no further one is taken, and what is
/// not committed is lost.
pub open spec fn after_sync(
    rows: Seq<RowView>,
    position: nat,
    table: TableView,
    succeeds: Seq<bool>,
) -> TableView
    decreases last_step(rows) + 1 - position,
{
    if position > last_step(rows) {
        table
    } else if succeeds[position as int] {
        after_sync(
            rows,
            position + 1,
            after_action(table, sync_action(rows, position)),
            succeeds,
        )
    } else {
        TableView { open: None, ..table }
    }
}

proof fn lemma_inserts(
    rows: Seq<RowView>,
    position: nat,
    table: TableView,
    succeeds: Seq<bool>,
)
    requires
        2 <= position <= last_step(rows),
        table.open == Some(rows.take(position - 2)),
    ensures
        (forall|i: int| position <= i <= last_step(rows) ==> succeeds[i]) ==> after_sync(
            rows,
            position,
            table,
            succeeds,
        ) == (TableView { committed: rows, open: None }),
        (exists|i: int| position <= i <= last_step(rows) && !succeeds[i]) ==> after_sync(
            rows,
            position,
            table,
            succeeds,
        ) == (TableView { open: None, ..table }),
    decreases last_step(rows) - position,
{
    if position == last_step(rows) {
        assert(rows.take(position - 2) =~= rows);
        let after = after_action(table, sync_action(rows, position));
        assert(after_sync(rows, position + 1, after, succeeds) == after);
    } else if succeeds[position as int] {
        let after = after_action(table, sync_action(rows, position));
        assert(rows.take(position - 2).push(rows[position - 2]) =~= rows.take(position - 1));
        lemma_inserts(rows, position + 1, after, succeeds);
    }
}

/// A sync whose steps all succeed leaves in the cache the new rows, in their order,
/// and nothing else.
pub proof fn law_sync_replaces_the_cache(
    rows: Seq<RowView>,
    before: Seq<RowView>,
    succeeds: Seq<bool>,
)
    requires
        succeeds.len() == last_step(rows) + 1,
        forall|i: int| 0 <= i < succeeds.len() ==> succeeds[i],
    ensures
        after_sync(rows, 0, TableView { committed: before, open: None }, succeeds) == (TableView {
            committed: rows,
            open: None,
        }),
{
    let t0 = TableView { committed: before, open: None };
    let t1 = after_action(t0, sync_action(rows, 0));
    let t2 = after_action(t1, sync_action(rows, 1));
    assert(after_sync(rows, 0, t0, succeeds) == after_sync(rows, 1, t1, succeeds));
    assert(after_sync(rows, 1, t1, succeeds) == after_sync(rows, 2, t2, succeeds));
    assert(rows.take(0) =~= seq![]);
    lemma_inserts(rows, 2, t2, succeeds);
}

/// The cache after a failed call, where `succeeds` says of each step of the sync that
/// [`call_failed`] gives for a rejected token whether it succeeds.
pub open spec fn after_failure(
    failure: CallFailure,
    before: Seq<RowView>,
    succeeds: Seq<bool>,
) -> TableView {
    let table = TableView { committed: before, open: None };
    if failure is Rejected {
        after_sync(seq![], 0, table, succeeds)
    } else {
        table
    }
}

/// A reply that does not accept the token is answered by the error that says so, and
/// the cache is then empty, whatever it held, where the steps that empty it succeed.
pub proof fn law_rejected_token_clears_the_cache(
    reading: Reading,
    before: Seq<RowView>,
    succeeds: Seq<bool>,
)
    requires
        is_reading(UNAUTHORIZED, reading),
        succeeds.len() == last_step(seq![]) + 1,
        forall|i: int| 0 <= i < succeeds.len() ==> succeeds[i],
    ensures
        reading matches Reading::Rejected(failure) && failure.error() == unauthorized_text()
            && after_failure(failure, before, succeeds) == (TableView {
            committed: seq![],
            open: None,
        }),
{
    law_sync_replaces_the_cache(seq![], before, succeeds);
}

/// A sync of which a step fails leaves the cache as it was.
pub proof fn law_failed_sync_changes_nothing(
    rows: Seq<RowView>,
    before: Seq<RowView>,
    succeeds: Seq<bool>,
)
    requires
        succeeds.len() == last_step(rows) + 1,
        exists|i: int| 0 <= i < succeeds.len() && !succeeds[i],
    ensures
        after_sync(rows, 0, TableView { committed: before, open: None }, succeeds) == (TableView {
            committed: before,
            open: None,
        }),
{
    let t0 = TableView { committed: before, open: None };
    let t1 = after_action(t0, sync_action(rows, 0));
    let t2 = after_action(t1, sync_action(rows, 1));
    if succeeds[0] {
        assert(after_sync(rows, 0, t0, succeeds) == after_sync(rows, 1, t1, succeeds));
        if succeeds[1] {
            assert(after_sync(rows, 1, t1, succeeds) == after_sync(rows, 2, t2, succeeds));
            assert(rows.take(0) =~= seq![]);
            lemma_inserts(rows, 2, t2, succeeds);
        }
    }
}

} // verus!
