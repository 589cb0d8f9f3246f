//! The persistence worker: its connection parameters, its loop, and the
//! sequence of statements that stores one record.
//!
//! The loop and the insert sequence are state machines. A state awaits the
//! outcome of one operation, which the caller carries out; the outcome is
//! handed back as an event. An event that does not answer the awaited
//! operation counts as that operation's failure.

use vstd::prelude::*;
use vstd::string::*;

use crate::record::{EnvironmentalRecord, RecordView};
use crate::text::{decimal, decimal_text};

verus! {

/// How long the worker waits for a record at one time, in milliseconds.
pub const RECEIVE_TIMEOUT_MS: u64 = 100;

/// The parameters of the database connection, TLS files included.
#[derive(Clone, Debug)]
pub struct DatabaseParameters {
    /// The hostname of the database server.
    pub hostname: String,
    /// The port of the database server.
    pub port: u32,
    /// The user to connect as.
    pub username: String,
    /// The password to connect with.
    pub password: String,
    /// The database to open on the server.
    pub database: String,
    /// Whether to connect over TLS, with the three files below.
    pub tls_enable: bool,
    /// Path of the certificate authority that signed the server's certificate.
    pub server_ca_path: String,
    /// Path of the client certificate.
    pub client_cert_path: String,
    /// Path of the client key.
    pub client_key_path: String,
}

impl DatabaseParameters {
    /// The connection string: user, password, host, port and database name
    /// as `key=value` pairs separated by one space, then the application name.
    pub open spec fn connection_text(&self) -> Seq<char> {
        "user="@ + self.username@ + " password="@ + self.password@ + " host="@ + self.hostname@
            + " port="@ + decimal(self.port as nat) + " dbname="@ + self.database@
            + " application_name=dblogd"@
    }

    /// Builds the connection string.
    pub fn connection_string(&self) -> (r: String)
        ensures
            r@ == self.connection_text(),
    {
        let mut r = String::from_str("user=");
        r.append(self.username.as_str());
        r.append(" password=");
        r.append(self.password.as_str());
        r.append(" host=");
        r.append(self.hostname.as_str());
        r.append(" port=");
        let port = decimal_text(self.port as u64);
        r.append(port.as_str());
        r.append(" dbname=");
        r.append(self.database.as_str());
        r.append(" application_name=dblogd");
        r
    }
}

/// How one statement of the insert sequence ended.
#[derive(Clone, Copy, Debug, PartialEq, Eq)]
pub enum StatementResult {
    /// A query gave `count` rows; `first` is the identifier in the first of
    /// them and means nothing where there is none.
    Rows { count: usize, first: i64 },
    /// A statement without rows was carried out.
    Executed,
    /// The statement failed.
    Failed,
}

/// How the insert sequence of one record ended.
#[derive(Clone, Copy, Debug, PartialEq, Eq)]
pub enum InsertOutcome {
    /// The parent row and a row for every quantity were written.
    Stored,
    /// The parent row was written, and at least one quantity was not.
    PartlyStored,
    /// The sensor lookup failed.
    LookupFailed,
    /// No sensor has the record's sensor name.
    UnknownSensor,
    /// More than one sensor has the record's sensor name.
    AmbiguousSensor,
    /// The insert of the parent row failed.
    ParentFailed,
    /// The insert of the parent row did not give exactly one identifier.
    ParentNotUnique,
}

/// One statement of the insert sequence, or its end.
#[derive(Clone, Copy, Debug, PartialEq, Eq)]
pub enum InsertAction {
    /// Look up the sensors that have the record's sensor name.
    LookupSensor,
    /// Insert the parent row and ask for its identifier.
    InsertParent { sensor_id: i64, timestamp: u64 },
    /// Insert the value of the quantity at `index` of the schema into its
    /// child table, under the parent's identifier.
    InsertQuantity { parent_id: i64, index: usize, value: u64 },
    /// Nothing more is done for this record.
    Finish(InsertOutcome),
}

/// Where the insert sequence of one record stands: which statement is
/// awaited, and what the earlier ones gave.
#[derive(Clone, Copy, Debug, PartialEq, Eq)]
pub enum InsertState {
    LookingUp,
    InsertingParent { sensor_id: i64 },
    /// `complete` says that no earlier quantity failed.
    InsertingQuantity { parent_id: i64, index: usize, complete: bool },
    Finished(InsertOutcome),
}

/// The outcome of a sequence that has written the parent row.
pub open spec fn stored(complete: bool) -> InsertOutcome {
    if complete {
        InsertOutcome::Stored
    } else {
        InsertOutcome::PartlyStored
    }
}

/// The state in which the quantity at `index` is next, or the end if the
/// record has no such quantity.
pub open spec fn quantity_state(
    record: RecordView,
    parent_id: i64,
    index: int,
    complete: bool,
) -> InsertState {
    if 0 <= index < record.quantities.len() {
        InsertState::InsertingQuantity { parent_id, index: index as usize, complete }
    } else {
        InsertState::Finished(stored(complete))
    }
}

/// The state after the awaited statement of `state` ended with `result`.
///
/// A lookup or a parent insert goes on only with exactly one row. A
/// quantity insert goes on to the next quantity whether it failed or not.
/// A result of the wrong kind counts as a failed query and as a carried
/// out insert.
pub open spec fn insert_next(
    record: RecordView,
    state: InsertState,
    result: StatementResult,
) -> InsertState {
    match state {
        InsertState::LookingUp => match result {
            StatementResult::Rows { count, first } => if count == 1 {
                InsertState::InsertingParent { sensor_id: first }
            } else if count == 0 {
                InsertState::Finished(InsertOutcome::UnknownSensor)
            } else {
                InsertState::Finished(InsertOutcome::AmbiguousSensor)
            },
            _ => InsertState::Finished(InsertOutcome::LookupFailed),
        },
        InsertState::InsertingParent { sensor_id } => match result {
            StatementResult::Rows { count, first } => if count == 1 {
                quantity_state(record, first, 0, true)
            } else {
                InsertState::Finished(InsertOutcome::ParentNotUnique)
            },
            _ => InsertState::Finished(InsertOutcome::ParentFailed),
        },
        InsertState::InsertingQuantity { parent_id, index, complete } => quantity_state(
            record,
            parent_id,
            index + 1,
            complete && !(result is Failed),
        ),
        InsertState::Finished(outcome) => state,
    }
}

/// The statement that a state awaits.
pub open spec fn insert_action(record: RecordView, state: InsertState) -> InsertAction {
    match state {
        InsertState::LookingUp => InsertAction::LookupSensor,
        InsertState::InsertingParent { sensor_id } => InsertAction::InsertParent {
            sensor_id,
            timestamp: record.timestamp,
        },
        InsertState::InsertingQuantity { parent_id, index, complete } => if index
            < record.quantities.len() {
            InsertAction::InsertQuantity { parent_id, index, value: record.quantities[index as int] }
        } else {
            InsertAction::Finish(stored(complete))
        },
        InsertState::Finished(outcome) => InsertAction::Finish(outcome),
    }
}

/// The state in which the insert sequence of a record begins.
pub fn insert_start() -> (state: InsertState)
    ensures
        state == InsertState::LookingUp,
{
    InsertState::LookingUp
}

/// The statement to carry out in a state.
pub fn pending_statement(record: &EnvironmentalRecord, state: InsertState) -> (action: InsertAction)
    ensures
        action == insert_action(record@, state),
{
    match state {
        InsertState::LookingUp => InsertAction::LookupSensor,
        InsertState::InsertingParent { sensor_id } => InsertAction::InsertParent {
            sensor_id,
            timestamp: record.timestamp,
        },
        InsertState::InsertingQuantity { parent_id, index, complete } => {
            if index < record.quantities.len() {
                InsertAction::InsertQuantity { parent_id, index, value: record.quantities[index] }
            } else if complete {
                InsertAction::Finish(InsertOutcome::Stored)
            } else {
                InsertAction::Finish(InsertOutcome::PartlyStored)
            }
        },
        InsertState::Finished(outcome) => InsertAction::Finish(outcome),
    }
}

fn quantity_or_end(
    record: &EnvironmentalRecord,
    parent_id: i64,
    index: usize,
    complete: bool,
) -> (state: InsertState)
    ensures
        state == quantity_state(record@, parent_id, index as int, complete),
{
    if index < record.quantities.len() {
        InsertState::InsertingQuantity { parent_id, index, complete }
    } else if complete {
        InsertState::Finished(InsertOutcome::Stored)
    } else {
        InsertState::Finished(InsertOutcome::PartlyStored)
    }
}

/// Takes the result of the awaited statement and moves on.
pub fn insert_step(
    record: &EnvironmentalRecord,
    state: InsertState,
    result: StatementResult,
) -> (next: InsertState)
    ensures
        next == insert_next(record@, state, result),
{
    match state {
        InsertState::LookingUp => match result {
            StatementResult::Rows { count, first } => {
                if count == 1 {
                    InsertState::InsertingParent { sensor_id: first }
                } else if count == 0 {
                    InsertState::Finished(InsertOutcome::UnknownSensor)
                } else {
                    InsertState::Finished(InsertOutcome::AmbiguousSensor)
                }
            },
            _ => InsertState::Finished(InsertOutcome::LookupFailed),
        },
        InsertState::InsertingParent { sensor_id } => match result {
            StatementResult::Rows { count, first } => {
                if count == 1 {
                    quantity_or_end(record, first, 0, true)
                } else {
                    InsertState::Finished(InsertOutcome::ParentNotUnique)
                }
            },
            _ => InsertState::Finished(InsertOutcome::ParentFailed),
        },
        InsertState::InsertingQuantity { parent_id, index, complete } => {
            let still = complete && !matches!(result, StatementResult::Failed);
            if index < record.quantities.len() {
                quantity_or_end(record, parent_id, index + 1, still)
            } else if still {
                InsertState::Finished(InsertOutcome::Stored)
            } else {
                InsertState::Finished(InsertOutcome::PartlyStored)
            }
        },
        InsertState::Finished(outcome) => state,
    }
}

/// The state after the statements of a record ended with `results`, one
/// after the other, from the start of the sequence.
pub open spec fn insert_run(record: RecordView, results: Seq<StatementResult>) -> InsertState
    decreases results.len(),
{
    if results.len() == 0 {
        InsertState::LookingUp
    } else {
        insert_next(record, insert_run(record, results.drop_last()), results.last())
    }
}

/// The statement that is carried out after the first `k` results came in.
pub open spec fn statement_after(
    record: RecordView,
    results: Seq<StatementResult>,
    k: int,
) -> InsertAction {
    insert_action(record, insert_run(record, results.take(k)))
}

/// The run over the first `k` results is one step from the run over the
/// first `k - 1`.
proof fn lemma_run_unfolds(record: RecordView, results: Seq<StatementResult>, k: int)
    requires
        0 <= k <= results.len(),
    ensures
        k == 0 ==> insert_run(record, results.take(k)) == InsertState::LookingUp,
        k > 0 ==> insert_run(record, results.take(k)) == insert_next(
            record,
            insert_run(record, results.take(k - 1)),
            results[k - 1],
        ),
{
    if k > 0 {
        assert(results.take(k).drop_last() =~= results.take(k - 1));
        assert(results.take(k).last() == results[k - 1]);
    }
}

/// A finished sequence stays finished whatever comes in.
pub proof fn lemma_finished_stays(
    record: RecordView,
    results: Seq<StatementResult>,
    j: int,
    k: int,
)
    requires
        0 <= j <= k <= results.len(),
        insert_run(record, results.take(j)) is Finished,
    ensures
        insert_run(record, results.take(k)) == insert_run(record, results.take(j)),
    decreases k - j,
{
    if j < k {
        lemma_finished_stays(record, results, j, k - 1);
        lemma_run_unfolds(record, results, k);
    }
}

/// Unless the sensor lookup gives exactly one row, the sequence ends with
/// it: neither the parent row nor any quantity is ever inserted for that
/// record, whatever further results come in.
pub proof fn lemma_no_parent_without_sensor(
    record: RecordView,
    results: Seq<StatementResult>,
    k: int,
)
    requires
        1 <= k <= results.len(),
        !(results[0] matches StatementResult::Rows { count, .. } && count == 1),
    ensures
        statement_after(record, results, 0) == InsertAction::LookupSensor,
        statement_after(record, results, k) is Finish,
        statement_after(record, results, k) == statement_after(record, results, 1),
{
    lemma_run_unfolds(record, results, 0);
    lemma_run_unfolds(record, results, 1);
    lemma_finished_stays(record, results, 1, k);
}

/// The state after the parent row was written and the first `i` quantity
/// inserts ended.
proof fn lemma_quantity_progress(record: RecordView, results: Seq<StatementResult>, i: int)
    requires
        record.representable(),
        results.len() >= 2,
        results[0] matches StatementResult::Rows { count, .. } && count == 1,
        results[1] matches StatementResult::Rows { count, .. } && count == 1,
        0 <= i <= record.quantities.len(),
        2 + i <= results.len(),
    ensures
        insert_run(record, results.take(2 + i)) == quantity_state(
            record,
            results[1]->Rows_first,
            i,
            no_failure(results, 2, 2 + i),
        ),
    decreases i,
{
    if i == 0 {
        lemma_run_unfolds(record, results, 0);
        lemma_run_unfolds(record, results, 1);
        lemma_run_unfolds(record, results, 2);
    } else {
        lemma_quantity_progress(record, results, i - 1);
        lemma_run_unfolds(record, results, 2 + i);
    }
}

/// None of the results from `from` up to `to` is a failure.
pub open spec fn no_failure(results: Seq<StatementResult>, from: int, to: int) -> bool
    decreases to - from,
{
    if to <= from {
        true
    } else {
        no_failure(results, from, to - 1) && !(results[to - 1] is Failed)
    }
}

/// Once the lookup gave one sensor and the parent insert gave one
/// identifier, every quantity of the record is inserted in turn under that
/// identifier, whether or not the inserts before it failed. Nothing that was
/// written is taken back: the sequence holds no such statement.
pub proof fn lemma_every_quantity_attempted(
    record: RecordView,
    results: Seq<StatementResult>,
    i: int,
)
    requires
        record.representable(),
        results.len() >= 2,
        results[0] matches StatementResult::Rows { count, .. } && count == 1,
        results[1] matches StatementResult::Rows { count, .. } && count == 1,
        0 <= i < record.quantities.len(),
        2 + i <= results.len(),
    ensures
        statement_after(record, results, 1) == (InsertAction::InsertParent {
            sensor_id: results[0]->Rows_first,
            timestamp: record.timestamp,
        }),
        statement_after(record, results, 2 + i) == (InsertAction::InsertQuantity {
            parent_id: results[1]->Rows_first,
            index: i as usize,
            value: record.quantities[i],
        }),
{
    lemma_quantity_progress(record, results, i);
    lemma_run_unfolds(record, results, 0);
    lemma_run_unfolds(record, results, 1);
}

/// After the last quantity the sequence is finished: the record is stored
/// if no quantity insert failed and partly stored if one did. The parent
/// row stays in either case.
pub proof fn lemma_outcome_after_quantities(record: RecordView, results: Seq<StatementResult>)
    requires
        record.representable(),
        results.len() >= 2 + record.quantities.len(),
        results[0] matches StatementResult::Rows { count, .. } && count == 1,
        results[1] matches StatementResult::Rows { count, .. } && count == 1,
    ensures
        statement_after(record, results, 2 + record.quantities.len() as int)
            == InsertAction::Finish(
            stored(no_failure(results, 2, 2 + record.quantities.len() as int)),
        ),
{
    lemma_quantity_progress(record, results, record.quantities.len() as int);
}

/// The steps that set the worker up, in their order. The four TLS steps
/// are left out where TLS is not enabled.
#[derive(Clone, Copy, Debug, PartialEq, Eq)]
pub enum WorkerSetup {
    /// Make the builder of the TLS connector; the server's certificate is
    /// not verified against its name.
    TlsBuilder,
    /// Load the certificate authority file.
    Authority,
    /// Load the client certificate.
    Certificate,
    /// Load the client key.
    PrivateKey,
    /// Connect to the database with the connection string, over TLS where
    /// the steps before made a connector.
    Connect,
}

/// What the worker has to do next.
#[derive(Clone, Copy, Debug, PartialEq, Eq)]
pub enum WorkerAction {
    Setup(WorkerSetup),
    /// Look at the shutdown flag.
    ObserveShutdown,
    /// Wait for a record on the handoff queue, for `RECEIVE_TIMEOUT_MS` at most.
    Receive,
    /// Carry out the insert sequence of the record that was received.
    Store,
    /// Set the shutdown flag.
    RaiseShutdown,
    /// Return.
    Stop,
}

/// What the worker reports back.
#[derive(Clone, Copy, Debug, PartialEq, Eq)]
pub enum WorkerEvent {
    /// The operation was carried out.
    Succeeded,
    /// The operation failed.
    Failed,
    /// The shutdown flag was looked at and was set, or not.
    Shutdown(bool),
    /// A record was taken from the handoff queue.
    Received,
    /// No record came in time.
    Nothing,
    /// The insert sequence of a record is over.
    Stored(InsertOutcome),
}

/// The state of the worker.
#[derive(Clone, Copy, Debug, PartialEq, Eq)]
pub enum WorkerState {
    Setup(WorkerSetup),
    /// The shutdown flag is looked at before each wait for a record.
    Checking,
    Receiving,
    Storing,
    /// A step of the setup failed.
    Failing,
    Stopped,
}

/// The state that follows a step of the setup that was carried out.
pub open spec fn worker_after_setup(step: WorkerSetup) -> WorkerState {
    match step {
        WorkerSetup::TlsBuilder => WorkerState::Setup(WorkerSetup::Authority),
        WorkerSetup::Authority => WorkerState::Setup(WorkerSetup::Certificate),
        WorkerSetup::Certificate => WorkerState::Setup(WorkerSetup::PrivateKey),
        WorkerSetup::PrivateKey => WorkerState::Setup(WorkerSetup::Connect),
        WorkerSetup::Connect => WorkerState::Checking,
    }
}

/// The state of the worker after an event.
///
/// A step of the setup that fails is fatal: the shutdown flag is set and the
/// worker returns without having taken a record. Before each wait for a
/// record the shutdown flag is looked at, and the worker returns if it is
/// set. A record that came is stored; however that ends, the record is done
/// with and the flag is looked at again.
pub open spec fn worker_next(state: WorkerState, event: WorkerEvent) -> WorkerState {
    match state {
        WorkerState::Setup(step) => match event {
            WorkerEvent::Succeeded => worker_after_setup(step),
            _ => WorkerState::Failing,
        },
        WorkerState::Checking => match event {
            WorkerEvent::Shutdown(false) => WorkerState::Receiving,
            _ => WorkerState::Stopped,
        },
        WorkerState::Receiving => match event {
            WorkerEvent::Received => WorkerState::Storing,
            _ => WorkerState::Checking,
        },
        WorkerState::Storing => WorkerState::Checking,
        WorkerState::Failing => WorkerState::Stopped,
        WorkerState::Stopped => WorkerState::Stopped,
    }
}

/// The operation that a state of the worker awaits.
pub open spec fn worker_action(state: WorkerState) -> WorkerAction {
    match state {
        WorkerState::Setup(step) => WorkerAction::Setup(step),
        WorkerState::Checking => WorkerAction::ObserveShutdown,
        WorkerState::Receiving => WorkerAction::Receive,
        WorkerState::Storing => WorkerAction::Store,
        WorkerState::Failing => WorkerAction::RaiseShutdown,
        WorkerState::Stopped => WorkerAction::Stop,
    }
}

/// The state in which the worker begins: with the TLS connector where TLS
/// is enabled, and with the connection itself where it is not.
pub fn worker_start(parameters: &DatabaseParameters) -> (state: WorkerState)
    ensures
        state == WorkerState::Setup(
            if parameters.tls_enable {
                WorkerSetup::TlsBuilder
            } else {
                WorkerSetup::Connect
            },
        ),
{
    if parameters.tls_enable {
        WorkerState::Setup(WorkerSetup::TlsBuilder)
    } else {
        WorkerState::Setup(WorkerSetup::Connect)
    }
}

/// The operation to carry out in a state of the worker.
pub fn worker_pending(state: WorkerState) -> (action: WorkerAction)
    ensures
        action == worker_action(state),
{
    match state {
        WorkerState::Setup(step) => WorkerAction::Setup(step),
        WorkerState::Checking => WorkerAction::ObserveShutdown,
        WorkerState::Receiving => WorkerAction::Receive,
        WorkerState::Storing => WorkerAction::Store,
        WorkerState::Failing => WorkerAction::RaiseShutdown,
        WorkerState::Stopped => WorkerAction::Stop,
    }
}

/// Takes the outcome of the worker's awaited operation and moves on.
pub fn database_thread(state: WorkerState, event: WorkerEvent) -> (next: WorkerState)
    ensures
        next == worker_next(state, event),
{
    match state {
        WorkerState::Setup(step) => match event {
            WorkerEvent::Succeeded => match step {
                WorkerSetup::TlsBuilder => WorkerState::Setup(WorkerSetup::Authority),
                WorkerSetup::Authority => WorkerState::Setup(WorkerSetup::Certificate),
                WorkerSetup::Certificate => WorkerState::Setup(WorkerSetup::PrivateKey),
                WorkerSetup::PrivateKey => WorkerState::Setup(WorkerSetup::Connect),
                WorkerSetup::Connect => WorkerState::Checking,
            },
            _ => WorkerState::Failing,
        },
        WorkerState::Checking => match event {
            WorkerEvent::Shutdown(false) => WorkerState::Receiving,
            _ => WorkerState::Stopped,
        },
        WorkerState::Receiving => match event {
            WorkerEvent::Received => WorkerState::Storing,
            _ => WorkerState::Checking,
        },
        WorkerState::Storing => WorkerState::Checking,
        WorkerState::Failing => WorkerState::Stopped,
        WorkerState::Stopped => WorkerState::Stopped,
    }
}

/// How many operations the worker carries out at most before it looks at
/// the shutdown flag again or returns.
pub open spec fn worker_until_check(state: WorkerState) -> nat {
    match state {
        WorkerState::Receiving => 2,
        WorkerState::Storing => 1,
        WorkerState::Failing => 1,
        _ => 0,
    }
}

/// A failed step of the setup is fatal: the shutdown flag is set next, then
/// the worker returns; it never waits for a record.
pub proof fn lemma_worker_setup_failure_is_fatal(
    step: WorkerSetup,
    event: WorkerEvent,
    later: WorkerEvent,
)
    requires
        !(event is Succeeded),
    ensures
        worker_next(WorkerState::Setup(step), event) == WorkerState::Failing,
        worker_action(WorkerState::Failing) == WorkerAction::RaiseShutdown,
        worker_next(WorkerState::Failing, later) == WorkerState::Stopped,
{
}

/// The worker looks at the shutdown flag before every wait for a record, so
/// at most the wait and one insert sequence lie between two looks. Once it
/// sees the flag set it returns at once. A record whose insert sequence
/// failed is not taken up again: the worker goes on to the next.
pub proof fn lemma_worker_heeds_shutdown(state: WorkerState, event: WorkerEvent)
    ensures
        worker_until_check(state) > 0 ==> worker_until_check(worker_next(state, event))
            < worker_until_check(state),
        worker_next(WorkerState::Checking, WorkerEvent::Shutdown(true)) == WorkerState::Stopped,
        worker_next(WorkerState::Storing, event) == WorkerState::Checking,
{
}

} // verus!
