//! The table of request mappings.
//!
//! ```sql
//! CREATE TABLE request_mappings (
//!   request_id STRING(36) NOT NULL,
//!   timestamp TIMESTAMP NOT NULL OPTIONS (allow_commit_timestamp=true),
//!   response_timestamp TIMESTAMP OPTIONS (allow_commit_timestamp=true),
//! ) PRIMARY KEY (request_id);
//! ```

use crate::error::{storage_result_view, StorageError, StorageErrorView, StorageResult};
use crate::request_id::{hyphenated, RequestId};
use crate::text::join;
use vstd::prelude::*;

verus! {

/// Whether a mutation makes a row or changes one.
#[derive(Clone, Copy, Debug, PartialEq, Eq, Structural)]
pub enum MutationKind {
    Insert,
    Update,
}

/// A value to write: text, or the time at which the server commits.
#[derive(Debug, PartialEq, Eq)]
pub enum ColumnValue {
    Text(String),
    CommitTimestamp,
}

/// A write to one row.
#[derive(Debug, PartialEq, Eq)]
pub struct Mutation {
    pub kind: MutationKind,
    pub table: String,
    pub columns: Vec<String>,
    pub values: Vec<ColumnValue>,
}

/// The model of a `ColumnValue`.
pub enum ColumnValueView {
    Text(Seq<char>),
    CommitTimestamp,
}

/// The model of a `Mutation`.
pub struct MutationView {
    pub kind: MutationKind,
    pub table: Seq<char>,
    pub columns: Seq<Seq<char>>,
    pub values: Seq<ColumnValueView>,
}

impl View for ColumnValue {
    type V = ColumnValueView;

    open spec fn view(&self) -> ColumnValueView {
        match self {
            ColumnValue::Text(text) => ColumnValueView::Text(text@),
            ColumnValue::CommitTimestamp => ColumnValueView::CommitTimestamp,
        }
    }
}

impl View for Mutation {
    type V = MutationView;

    open spec fn view(&self) -> MutationView {
        MutationView {
            kind: self.kind,
            table: self.table@,
            columns: self.columns@.map_values(|column: String| column@),
            values: self.values@.map_values(|value: ColumnValue| value@),
        }
    }
}

/// A write of the server's commit time to a column of the row of a request.
pub open spec fn timestamp_mutation(
    kind: MutationKind,
    column: Seq<char>,
    request_id: RequestId,
) -> MutationView {
    MutationView {
        kind,
        table: "request_mappings"@,
        columns: seq!["request_id"@, column],
        values: seq![
            ColumnValueView::Text(hyphenated(request_id.bits as int)),
            ColumnValueView::CommitTimestamp,
        ],
    }
}

/// The write that makes the row of a request.
pub open spec fn request_mutation(request_id: RequestId) -> MutationView {
    timestamp_mutation(MutationKind::Insert, "timestamp"@, request_id)
}

/// The write that adds the time of the response to the row of a request.
pub open spec fn response_mutation(request_id: RequestId) -> MutationView {
    timestamp_mutation(MutationKind::Update, "response_timestamp"@, request_id)
}

/// The resource name of a database.
pub open spec fn database_name(
    project_id: Seq<char>,
    instance_id: Seq<char>,
    database_id: Seq<char>,
) -> Seq<char> {
    "projects/"@ + project_id + "/instances/"@ + instance_id + "/databases/"@ + database_id
}

/// The database to write to.
#[derive(Debug, PartialEq, Eq)]
pub struct SpannerClient {
    pub database: String,
}

/// Writes the server's commit time to a column of the row of a request.
fn write_timestamp(kind: MutationKind, column: &str, request_id: RequestId) -> (mutation: Mutation)
    ensures
        mutation@ == timestamp_mutation(kind, column@, request_id),
{
    let mut columns: Vec<String> = Vec::new();
    columns.push("request_id".to_owned());
    columns.push(column.to_owned());
    let mut values: Vec<ColumnValue> = Vec::new();
    values.push(ColumnValue::Text(request_id.to_string()));
    values.push(ColumnValue::CommitTimestamp);
    let mutation = Mutation { kind, table: "request_mappings".to_owned(), columns, values };
    assert(mutation@.columns =~= timestamp_mutation(kind, column@, request_id).columns);
    assert(mutation@.values =~= timestamp_mutation(kind, column@, request_id).values);
    mutation
}

impl SpannerClient {
    /// A client of the database with this name.
    pub fn new(project_id: String, instance_id: String, database_id: String) -> (client:
        SpannerClient)
        ensures
            client.database@ == database_name(project_id@, instance_id@, database_id@),
    {
        let project = join("projects/", project_id.as_str());
        let instances = join(project.as_str(), "/instances/");
        let instance = join(instances.as_str(), instance_id.as_str());
        let databases = join(instance.as_str(), "/databases/");
        SpannerClient { database: join(databases.as_str(), database_id.as_str()) }
    }

    /// The write that makes the row of a request, with the server's commit time.
    pub fn insert_request_mapping(&self, request_id: RequestId) -> (mutation: Mutation)
        ensures
            mutation@ == request_mutation(request_id),
    {
        write_timestamp(MutationKind::Insert, "timestamp", request_id)
    }

    /// The write that adds the time of the response, the server's commit time, to the row of a
    /// request.
    pub fn update_response_timestamp(&self, request_id: RequestId) -> (mutation: Mutation)
        ensures
            mutation@ == response_mutation(request_id),
    {
        write_timestamp(MutationKind::Update, "response_timestamp", request_id)
    }
}

/// What happened in the course of connecting to a database.
pub enum ConnectEvent {
    Begin,
    /// Application-default credentials were looked up; a failure comes with its reason.
    Credentials(Result<(), String>),
    /// A client was opened; a failure comes with its reason.
    Opened(Result<(), String>),
}

/// What to do next in the course of connecting.
#[derive(Debug, PartialEq, Eq)]
pub enum ConnectStep {
    FindCredentials,
    /// Open a client of this database with the credentials found.
    Open { database: String },
    Connected,
}

/// The model of a `ConnectEvent`.
pub enum ConnectEventView {
    Begin,
    Credentials(Result<(), Seq<char>>),
    Opened(Result<(), Seq<char>>),
}

/// The model of a `ConnectStep`.
pub enum ConnectStepView {
    FindCredentials,
    Open { database: Seq<char> },
    Connected,
}

/// The model of an attempt that may fail for a reason.
pub open spec fn attempt_view(attempt: Result<(), String>) -> Result<(), Seq<char>> {
    match attempt {
        Ok(()) => Ok(()),
        Err(reason) => Err(reason@),
    }
}

impl View for ConnectEvent {
    type V = ConnectEventView;

    open spec fn view(&self) -> ConnectEventView {
        match self {
            ConnectEvent::Begin => ConnectEventView::Begin,
            ConnectEvent::Credentials(found) => ConnectEventView::Credentials(
                attempt_view(*found),
            ),
            ConnectEvent::Opened(opened) => ConnectEventView::Opened(attempt_view(*opened)),
        }
    }
}

impl View for ConnectStep {
    type V = ConnectStepView;

    open spec fn view(&self) -> ConnectStepView {
        match self {
            ConnectStep::FindCredentials => ConnectStepView::FindCredentials,
            ConnectStep::Open { database } => ConnectStepView::Open { database: database@ },
            ConnectStep::Connected => ConnectStepView::Connected,
        }
    }
}

/// What connecting to a database goes on with after an event, or the error that ends it.
pub open spec fn connect_step(database: Seq<char>, event: ConnectEventView) -> Result<
    ConnectStepView,
    StorageErrorView,
> {
    match event {
        ConnectEventView::Begin => Ok(ConnectStepView::FindCredentials),
        ConnectEventView::Credentials(Ok(())) => Ok(ConnectStepView::Open { database }),
        ConnectEventView::Credentials(Err(reason)) => Err(StorageErrorView::Configuration(reason)),
        ConnectEventView::Opened(Ok(())) => Ok(ConnectStepView::Connected),
        ConnectEventView::Opened(Err(reason)) => Err(StorageErrorView::Spanner(reason)),
    }
}

/// What the reply to a write amounts to.
pub open spec fn write_outcome(reply: Result<(), Seq<char>>) -> Result<(), StorageErrorView> {
    match reply {
        Ok(()) => Ok(()),
        Err(reason) => Err(StorageErrorView::Spanner(reason)),
    }
}

impl SpannerClient {
    /// What connecting to the database goes on with after an event, or the error that ends it.
    pub fn on_connect_event(&self, event: ConnectEvent) -> (next: StorageResult<ConnectStep>)
        ensures
            match next {
                Ok(step) => connect_step(self.database@, event@) == Ok::<
                    ConnectStepView,
                    StorageErrorView,
                >(step@),
                Err(error) => connect_step(self.database@, event@) == Err::<
                    ConnectStepView,
                    StorageErrorView,
                >(error@),
            },
    {
        match event {
            ConnectEvent::Begin => Ok(ConnectStep::FindCredentials),
            ConnectEvent::Credentials(Ok(())) => Ok(
                ConnectStep::Open { database: self.database.clone() },
            ),
            ConnectEvent::Credentials(Err(reason)) => Err(StorageError::Configuration(reason)),
            ConnectEvent::Opened(Ok(())) => Ok(ConnectStep::Connected),
            ConnectEvent::Opened(Err(reason)) => Err(StorageError::Spanner(reason)),
        }
    }

    /// The result of a write, given what came of applying it.
    pub fn on_applied(&self, reply: Result<(), String>) -> (result: StorageResult<()>)
        ensures
            storage_result_view(result) == write_outcome(attempt_view(reply)),
    {
        match reply {
            Ok(()) => Ok(()),
            Err(reason) => Err(StorageError::Spanner(reason)),
        }
    }
}

/// A client is opened only once credentials were found, and nothing but an opened client makes a
/// connection. A failure ends the attempt, with an error that tells at which step it failed and
/// gives the reason.
pub proof fn law_client_needs_credentials(database: Seq<char>, event: ConnectEventView)
    ensures
        (connect_step(database, event) matches Ok(step) && step is Open) <==> (
        event matches ConnectEventView::Credentials(found) && found is Ok),
        (connect_step(database, event) matches Ok(step) && step is Connected) <==> (
        event matches ConnectEventView::Opened(opened) && opened is Ok),
        connect_step(database, event) matches Err(StorageErrorView::Configuration(reason)) ==> event
            == ConnectEventView::Credentials(Err(reason)),
        connect_step(database, event) matches Err(StorageErrorView::Spanner(reason)) ==> event
            == ConnectEventView::Opened(Err(reason)),
{
}

/// Both writes of a request go to the same row, and those of different requests to different rows.
pub proof fn law_rows_belong_to_requests(a: RequestId, b: RequestId)
    ensures
        request_mutation(a).values[0] == response_mutation(b).values[0] <==> a == b,
        request_mutation(a).values[0] == request_mutation(b).values[0] <==> a == b,
        request_mutation(a).table == response_mutation(b).table,
        request_mutation(a).columns[0] == response_mutation(b).columns[0],
{
    if request_mutation(a).values[0] == response_mutation(b).values[0] {
        crate::request_id::law_text_identifies_request(a, b);
    }
}

} // verus!
