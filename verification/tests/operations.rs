use envoy_spanner_extension::error::{timeout_message, StorageError};
use envoy_spanner_extension::operation::{
    operation_result, OperationOutcome, OperationType, PendingOperation, PendingRequests,
    RepliedOperation,
};
use envoy_spanner_extension::request_id::RequestId;
use envoy_spanner_extension::spanner::{
    ColumnValue, ConnectEvent, ConnectStep, MutationKind, SpannerClient,
};

#[test]
fn pending_requests_carry_results_back_to_the_correct_path() {
    let mut pending = PendingRequests::new();
    let request_uuid = RequestId::new_v4();
    let request_event = pending.insert(request_uuid, OperationType::Request);
    let response_uuid = RequestId::new_v4();
    let response_event = pending.insert(response_uuid, OperationType::Response);

    pending.complete(request_event, Ok(()));

    assert_eq!(
        pending.remove(request_event),
        Some(PendingOperation {
            uuid: request_uuid,
            operation_type: OperationType::Request,
            outcome: OperationOutcome::Succeeded,
        })
    );
    assert_eq!(
        OperationType::from_event_id(request_event),
        OperationType::Request
    );
    assert_eq!(
        OperationType::from_event_id(response_event),
        OperationType::Response
    );
}

#[test]
fn event_ids_count_up_and_carry_the_type() {
    let mut pending = PendingRequests::new();
    let uuid = RequestId { bits: 1 };
    assert_eq!(pending.insert(uuid, OperationType::Request), 2);
    assert_eq!(pending.insert(uuid, OperationType::Response), 5);
    assert_eq!(pending.insert(uuid, OperationType::Request), 6);
    assert_eq!(OperationType::Request.event_bit(), 0);
    assert_eq!(OperationType::Response.event_bit(), 1);
    assert_eq!(OperationType::from_event_id(u64::MAX), OperationType::Response);
    assert_eq!(OperationType::from_event_id(0), OperationType::Request);
}

#[test]
fn operations_are_collected_once() {
    let mut pending = PendingRequests::new();
    let uuid = RequestId { bits: 9 };
    let event = pending.insert(uuid, OperationType::Response);
    assert_eq!(
        pending.remove(event),
        Some(PendingOperation {
            uuid,
            operation_type: OperationType::Response,
            outcome: OperationOutcome::Pending,
        })
    );
    assert_eq!(pending.remove(event), None);
}

#[test]
fn failures_are_recorded_with_their_message() {
    let mut pending = PendingRequests::new();
    let uuid = RequestId { bits: 9 };
    let event = pending.insert(uuid, OperationType::Request);
    pending.complete(
        event,
        Err(StorageError::Configuration("no credentials".to_string())),
    );
    assert_eq!(
        pending.remove(event).unwrap().outcome,
        OperationOutcome::Failed("Configuration error: no credentials".to_string())
    );
}

#[test]
fn results_of_unknown_operations_are_dropped() {
    let mut pending = PendingRequests::new();
    let event = pending.insert(RequestId { bits: 9 }, OperationType::Request);
    pending.complete(event + 2, Ok(()));
    assert_eq!(pending.remove(event + 2), None);
    assert_eq!(
        pending.remove(event).unwrap().outcome,
        OperationOutcome::Pending
    );
}

#[test]
fn storage_errors_are_worded() {
    assert_eq!(
        StorageError::Spanner("gone".to_string()).to_string(),
        "Spanner client error: gone"
    );
    assert_eq!(
        StorageError::Timeout(10_000).to_string(),
        "Spanner operation timed out after 10s"
    );
    assert_eq!(
        StorageError::Timeout(1_500).to_string(),
        "Spanner operation timed out after 1.5s"
    );
    assert_eq!(
        StorageError::Timeout(250).to_string(),
        "Spanner operation timed out after 250ms"
    );
    assert_eq!(timeout_message("1s"), "Spanner operation timed out after 1s");
}

#[test]
fn missing_reply_is_a_timeout() {
    assert_eq!(operation_result(Some(Ok(())), 5), Ok(()));
    assert_eq!(operation_result(None, 5), Err(StorageError::Timeout(5)));
    assert_eq!(
        operation_result(Some(Err(StorageError::Spanner("x".to_string()))), 5),
        Err(StorageError::Spanner("x".to_string()))
    );
}

#[test]
fn request_ids_are_random_version_4_uuids() {
    let first = RequestId::new_v4();
    let second = RequestId::new_v4();
    assert_ne!(first, second);
    assert_ne!(first.to_string(), second.to_string());
    for id in [first, second] {
        let text = id.to_string();
        assert_eq!(text.len(), 36);
        assert_eq!(text.as_bytes()[14], b'4');
        assert!(b"89ab".contains(&text.as_bytes()[19]));
        assert_eq!(uuid::Uuid::parse_str(&text).unwrap().as_u128(), id.bits);
    }
}

#[test]
fn request_ids_are_written_with_hyphens_in_lower_case() {
    let id = RequestId {
        bits: 0xa1a2a3a4b1b2c1c2d1d2d3d4d5d6d7d8,
    };
    assert_eq!(id.to_string(), "a1a2a3a4-b1b2-c1c2-d1d2-d3d4d5d6d7d8");
    assert_eq!(
        RequestId { bits: 0xf }.to_string(),
        "00000000-0000-0000-0000-00000000000f"
    );
}

#[test]
fn spanner_writes_go_to_the_row_of_the_request() {
    let client = SpannerClient::new("p".to_string(), "i".to_string(), "d".to_string());
    assert_eq!(client.database, "projects/p/instances/i/databases/d");
    let id = RequestId { bits: 1 };
    let insert = client.insert_request_mapping(id);
    assert_eq!(insert.kind, MutationKind::Insert);
    assert_eq!(insert.table, "request_mappings");
    assert_eq!(insert.columns, vec!["request_id", "timestamp"]);
    assert_eq!(
        insert.values,
        vec![
            ColumnValue::Text("00000000-0000-0000-0000-000000000001".to_string()),
            ColumnValue::CommitTimestamp,
        ]
    );
    let update = client.update_response_timestamp(id);
    assert_eq!(update.kind, MutationKind::Update);
    assert_eq!(update.table, "request_mappings");
    assert_eq!(update.columns, vec!["request_id", "response_timestamp"]);
    assert_eq!(update.values, insert.values);
}

#[test]
fn reply_ends_the_span_and_is_recorded_before_the_commit() {
    let mut pending = PendingRequests::new();
    let event_id = pending.insert(RequestId { bits: 1 }, OperationType::Request);
    let (replied, ended) = RepliedOperation::on_reply(event_id, None, 250, Some("span"));
    let (span, end) = ended.unwrap();
    assert_eq!(span, "span");
    let message = "Spanner operation timed out after 250ms".to_string();
    assert_eq!(end.error, Some(message.clone()));
    assert_eq!(replied.record(&mut pending), event_id);
    assert_eq!(
        pending.remove(event_id).unwrap().outcome,
        OperationOutcome::Failed(message)
    );

    let event_id = pending.insert(RequestId { bits: 2 }, OperationType::Response);
    let (replied, ended) =
        RepliedOperation::on_reply(event_id, Some(Ok(())), 250, None::<&str>);
    assert!(ended.is_none());
    assert_eq!(replied.record(&mut pending), event_id);
    assert_eq!(
        pending.remove(event_id).unwrap().outcome,
        OperationOutcome::Succeeded
    );
}

#[test]
fn connecting_stops_at_the_first_failure() {
    let client = SpannerClient::new("p".to_string(), "i".to_string(), "d".to_string());
    assert_eq!(
        client.on_connect_event(ConnectEvent::Begin),
        Ok(ConnectStep::FindCredentials)
    );
    assert_eq!(
        client.on_connect_event(ConnectEvent::Credentials(Ok(()))),
        Ok(ConnectStep::Open {
            database: "projects/p/instances/i/databases/d".to_string()
        })
    );
    assert_eq!(
        client.on_connect_event(ConnectEvent::Opened(Ok(()))),
        Ok(ConnectStep::Connected)
    );
    assert_eq!(
        client.on_connect_event(ConnectEvent::Credentials(Err("none".to_string()))),
        Err(StorageError::Configuration("none".to_string()))
    );
    assert_eq!(
        client.on_connect_event(ConnectEvent::Opened(Err("down".to_string()))),
        Err(StorageError::Spanner("down".to_string()))
    );
    assert_eq!(client.on_applied(Ok(())), Ok(()));
    assert_eq!(
        client.on_applied(Err("aborted".to_string())),
        Err(StorageError::Spanner("aborted".to_string()))
    );
}
