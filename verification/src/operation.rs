//! Storage operations that hold up an HTTP stream, and the table in which their results travel
//! back from the task that ran them to the stream that waits.

use crate::error::{storage_result_view, StorageError, StorageErrorView, StorageResult};
use crate::request_id::RequestId;
use crate::telemetry::{finish_span, span_error, SpanEnd};
use std::collections::HashMap;
use vstd::prelude::*;

verus! {

/// The path on which an operation holds up its HTTP stream.
#[derive(Clone, Copy, Debug, PartialEq, Eq, Structural)]
pub enum OperationType {
    Request,
    Response,
}

impl OperationType {
    /// The bit that tags event ids of this type.
    pub open spec fn bit(self) -> u64 {
        match self {
            OperationType::Request => 0,
            OperationType::Response => 1,
        }
    }

    /// The type that an event id is tagged with: even ids belong to the request path.
    pub open spec fn of_event(event_id: u64) -> OperationType {
        if event_id % 2 == 0 {
            OperationType::Request
        } else {
            OperationType::Response
        }
    }

    /// The bit that tags event ids of this type.
    pub fn event_bit(self) -> (bit: u64)
        ensures
            bit == self.bit(),
    {
        match self {
            OperationType::Request => 0,
            OperationType::Response => 1,
        }
    }

    /// The type that an event id is tagged with.
    pub fn from_event_id(event_id: u64) -> (operation_type: OperationType)
        ensures
            operation_type == OperationType::of_event(event_id),
    {
        assert(event_id & 1 == event_id % 2) by (bit_vector);
        if event_id & 1 == 0 {
            OperationType::Request
        } else {
            OperationType::Response
        }
    }
}

/// The event id of the operation with this sequence number: the number shifted left by one bit,
/// dropping what does not fit, and the tag in the low bit.
pub open spec fn event_id_of(sequence: u64, operation_type: OperationType) -> u64 {
    (2 * (sequence % 0x8000_0000_0000_0000) + operation_type.bit()) as u64
}

/// How far an operation has come.
#[derive(Debug, PartialEq, Eq)]
pub enum OperationOutcome {
    Pending,
    Succeeded,
    Failed(String),
}

/// The model of an `OperationOutcome`.
pub enum OutcomeView {
    Pending,
    Succeeded,
    Failed(Seq<char>),
}

impl View for OperationOutcome {
    type V = OutcomeView;

    open spec fn view(&self) -> OutcomeView {
        match self {
            OperationOutcome::Pending => OutcomeView::Pending,
            OperationOutcome::Succeeded => OutcomeView::Succeeded,
            OperationOutcome::Failed(error) => OutcomeView::Failed(error@),
        }
    }
}

/// One storage operation of a request.
#[derive(Debug, PartialEq, Eq)]
pub struct PendingOperation {
    pub uuid: RequestId,
    pub operation_type: OperationType,
    pub outcome: OperationOutcome,
}

/// The model of a `PendingOperation`.
pub struct OperationView {
    pub uuid: RequestId,
    pub operation_type: OperationType,
    pub outcome: OutcomeView,
}

impl View for PendingOperation {
    type V = OperationView;

    open spec fn view(&self) -> OperationView {
        OperationView {
            uuid: self.uuid,
            operation_type: self.operation_type,
            outcome: self.outcome@,
        }
    }
}

/// The outcome that the result of a storage call amounts to.
pub open spec fn outcome_of(result: Result<(), StorageErrorView>) -> OutcomeView {
    match result {
        Ok(()) => OutcomeView::Succeeded,
        Err(error) => OutcomeView::Failed(error.message()),
    }
}

/// The result of a storage call that was given `timeout_ms` to reply.
pub fn operation_result(reply: Option<StorageResult<()>>, timeout_ms: u64) -> (result:
    StorageResult<()>)
    ensures
        match reply {
            Some(reply) => result == reply,
            None => result == Err::<(), StorageError>(StorageError::Timeout(timeout_ms)),
        },
{
    match reply {
        Some(reply) => reply,
        None => Err(StorageError::Timeout(timeout_ms)),
    }
}

/// The operations that were started and not yet collected, by event id.
pub struct PendingRequests {
    map: HashMap<u64, PendingOperation>,
    next_sequence: u64,
}

/// The model of a `PendingRequests`.
#[verifier::ext_equal]
pub struct PendingView {
    pub operations: Map<u64, OperationView>,
    pub next_sequence: u64,
}

impl View for PendingRequests {
    type V = PendingView;

    closed spec fn view(&self) -> PendingView {
        PendingView {
            operations: self.map@.map_values(|operation: PendingOperation| operation@),
            next_sequence: self.next_sequence,
        }
    }
}

impl PendingView {
    /// The table after an operation was started.
    pub open spec fn inserted(
        self,
        uuid: RequestId,
        operation_type: OperationType,
    ) -> PendingView {
        PendingView {
            operations: self.operations.insert(
                event_id_of(self.next_sequence, operation_type),
                OperationView { uuid, operation_type, outcome: OutcomeView::Pending },
            ),
            next_sequence: if self.next_sequence == u64::MAX {
                0
            } else {
                (self.next_sequence + 1) as u64
            },
        }
    }

    /// The table after the result of an operation came in.
    pub open spec fn completed(
        self,
        event_id: u64,
        result: Result<(), StorageErrorView>,
    ) -> PendingView {
        if self.operations.contains_key(event_id) {
            PendingView {
                operations: self.operations.insert(
                    event_id,
                    OperationView { outcome: outcome_of(result), ..self.operations[event_id] },
                ),
                ..self
            }
        } else {
            self
        }
    }

    /// The table after an operation was collected.
    pub open spec fn removed(self, event_id: u64) -> PendingView {
        PendingView { operations: self.operations.remove(event_id), ..self }
    }

    /// The operation that an event id stands for.
    pub open spec fn lookup(self, event_id: u64) -> Option<OperationView> {
        if self.operations.contains_key(event_id) {
            Some(self.operations[event_id])
        } else {
            None
        }
    }

    /// Whether every event id in the table was given out for an earlier sequence number and is
    /// tagged with the type of its operation, while sequence numbers are still new.
    pub open spec fn issued_in_order(self) -> bool {
        &&& self.next_sequence <= 0x8000_0000_0000_0000
        &&& forall|event_id: u64| #[trigger]
            self.operations.contains_key(event_id) ==> {
                &&& event_id / 2 < self.next_sequence
                &&& OperationType::of_event(event_id) == self.operations[event_id].operation_type
            }
    }
}

/// The model of an optional operation.
pub open spec fn optional_operation_view(operation: Option<PendingOperation>) -> Option<
    OperationView,
> {
    match operation {
        Some(operation) => Some(operation@),
        None => None,
    }
}

impl PendingRequests {
    /// An empty table; the first operation has sequence number one.
    pub fn new() -> (pending: PendingRequests)
        ensures
            pending@ == (PendingView { operations: Map::empty(), next_sequence: 1 }),
            pending@.issued_in_order(),
    {
        let pending = PendingRequests { map: HashMap::new(), next_sequence: 1 };
        assert(pending@.operations =~= Map::empty());
        pending
    }

    /// Starts an operation and returns the event id under which its result is collected.
    pub fn insert(&mut self, uuid: RequestId, operation_type: OperationType) -> (event_id: u64)
        ensures
            event_id == event_id_of(old(self)@.next_sequence, operation_type),
            final(self)@ == old(self)@.inserted(uuid, operation_type),
    {
        let sequence = self.next_sequence;
        self.next_sequence = sequence.wrapping_add(1);
        let bit = operation_type.event_bit();
        let event_id: u64 = (sequence << 1) | bit;
        assert((sequence << 1) | bit == 2 * (sequence % 0x8000_0000_0000_0000) + bit)
            by (bit_vector)
            requires
                bit == 0 || bit == 1,
        ;
        self.map.insert(
            event_id,
            PendingOperation { uuid, operation_type, outcome: OperationOutcome::Pending },
        );
        assert(self@ =~= old(self)@.inserted(uuid, operation_type));
        event_id
    }

    /// Records the result of an operation. A result for an operation that is not in the table is
    /// dropped.
    pub fn complete(&mut self, event_id: u64, result: StorageResult<()>)
        ensures
            final(self)@ == old(self)@.completed(event_id, storage_result_view(result)),
    {
        if let Some(operation) = self.map.remove(&event_id) {
            let outcome = match &result {
                Ok(()) => OperationOutcome::Succeeded,
                Err(error) => OperationOutcome::Failed(error.to_string()),
            };
            self.map.insert(
                event_id,
                PendingOperation {
                    uuid: operation.uuid,
                    operation_type: operation.operation_type,
                    outcome,
                },
            );
        }
        assert(self@ =~= old(self)@.completed(event_id, storage_result_view(result)));
    }

    /// Collects an operation, taking it out of the table.
    pub fn remove(&mut self, event_id: u64) -> (operation: Option<PendingOperation>)
        ensures
            optional_operation_view(operation) == old(self)@.lookup(event_id),
            final(self)@ == old(self)@.removed(event_id),
    {
        let operation = self.map.remove(&event_id);
        assert(self@ =~= old(self)@.removed(event_id));
        operation
    }
}

/// The result of a storage call that was given `timeout_ms` to reply.
pub open spec fn reply_result(
    reply: Option<StorageResult<()>>,
    timeout_ms: u64,
) -> Result<(), StorageErrorView> {
    match reply {
        Some(reply) => storage_result_view(reply),
        None => Err(StorageErrorView::Timeout(timeout_ms)),
    }
}

/// A storage operation whose result is known and not yet recorded.
pub struct RepliedOperation {
    pub event_id: u64,
    pub result: StorageResult<()>,
}

impl RepliedOperation {
    /// Takes in the reply to a storage call, nothing if it did not come in time, and ends the span
    /// around it. The span is to be ended before the result is recorded: then it is queued by the
    /// time that the stream goes on.
    pub fn on_reply<S>(
        event_id: u64,
        reply: Option<StorageResult<()>>,
        timeout_ms: u64,
        span: Option<S>,
    ) -> (replied: (RepliedOperation, Option<(S, SpanEnd)>))
        ensures
            replied.0.event_id == event_id,
            storage_result_view(replied.0.result) == reply_result(reply, timeout_ms),
            match reply {
                Some(reply) => replied.0.result == reply,
                None => replied.0.result == Err::<(), StorageError>(
                    StorageError::Timeout(timeout_ms),
                ),
            },
            match span {
                None => replied.1 is None,
                Some(span) => replied.1 matches Some((ended_span, end)) && ended_span == span
                    && match end.error {
                    Some(error) => Some(error@) == span_error(reply_result(reply, timeout_ms)),
                    None => span_error(reply_result(reply, timeout_ms)) is None,
                },
            },
    {
        let result = operation_result(reply, timeout_ms);
        let ended = finish_span(span, &result);
        (RepliedOperation { event_id, result }, ended)
    }

    /// Records the result, and only then gives out the event id to commit.
    pub fn record(self, pending: &mut PendingRequests) -> (event_id: u64)
        ensures
            event_id == self.event_id,
            final(pending)@ == old(pending)@.completed(
                self.event_id,
                storage_result_view(self.result),
            ),
    {
        pending.complete(self.event_id, self.result);
        self.event_id
    }
}

/// An event that is committed finds its operation with the outcome of the call, never pending, and
/// the span around the call ended with that same failure or with none.
pub proof fn law_committed_event_finds_the_result(
    pending: PendingView,
    event_id: u64,
    result: Result<(), StorageErrorView>,
)
    requires
        pending.lookup(event_id) is Some,
    ensures
        ({
            let found = pending.completed(event_id, result).lookup(event_id);
            &&& found matches Some(operation)
            &&& operation.uuid == pending.operations[event_id].uuid
            &&& operation.operation_type == pending.operations[event_id].operation_type
            &&& operation.outcome == match span_error(result) {
                Some(error) => OutcomeView::Failed(error),
                None => OutcomeView::Succeeded,
            }
        }),
{
}

/// An event id tells the path of its operation, whatever the sequence number.
pub proof fn law_event_id_tells_path(sequence: u64, operation_type: OperationType)
    ensures
        OperationType::of_event(event_id_of(sequence, operation_type)) == operation_type,
{
}

/// Operations with different sequence numbers below `2^63` have different event ids.
pub proof fn law_event_ids_differ(
    first: u64,
    second: u64,
    first_type: OperationType,
    second_type: OperationType,
)
    requires
        first < 0x8000_0000_0000_0000,
        second < 0x8000_0000_0000_0000,
        first != second,
    ensures
        event_id_of(first, first_type) != event_id_of(second, second_type),
{
}

/// Starting, completing and collecting operations keep the order in which ids were issued; an
/// operation that is started never displaces one that still waits.
pub proof fn law_table_stays_in_order(
    pending: PendingView,
    uuid: RequestId,
    operation_type: OperationType,
    event_id: u64,
    result: Result<(), StorageErrorView>,
)
    requires
        pending.issued_in_order(),
    ensures
        pending.next_sequence < 0x8000_0000_0000_0000 ==> {
            &&& !pending.operations.contains_key(
                event_id_of(pending.next_sequence, operation_type),
            )
            &&& pending.inserted(uuid, operation_type).issued_in_order()
        },
        pending.completed(event_id, result).issued_in_order(),
        pending.removed(event_id).issued_in_order(),
{
}

/// An operation that was started and completed is collected with its own identifier, path and
/// result, and only once; every other operation stays as it was.
pub proof fn law_result_is_carried_back(
    pending: PendingView,
    uuid: RequestId,
    operation_type: OperationType,
    result: Result<(), StorageErrorView>,
    other: u64,
)
    ensures
        ({
            let event_id = event_id_of(pending.next_sequence, operation_type);
            let done = pending.inserted(uuid, operation_type).completed(event_id, result);
            &&& done.lookup(event_id) == Some(
                OperationView { uuid, operation_type, outcome: outcome_of(result) },
            )
            &&& done.removed(event_id).lookup(event_id) is None
            &&& other != event_id ==> done.removed(event_id).lookup(other) == pending.lookup(other)
        }),
{
}

} // verus!
