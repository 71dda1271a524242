use fms_forwarder::errors::{PublishOutcome, TransportError};
use fms_forwarder::recording::{RecordingEndpoint, RecordingSession, SampleStatus};
use fms_forwarder::status_publishing::{
    vehicle_status_topic_name, StatusPublisher, TopicPublisher,
};

#[test]
fn topic_is_fixed() {
    assert_eq!(vehicle_status_topic_name(), "fms/vehicleStatus");
}

#[test]
fn recording_endpoint_starts_empty() {
    let ep = RecordingEndpoint::new(String::from("fms/vehicleStatus"), true);
    assert!(ep.sent_payloads().is_empty());
}

#[test]
fn successful_publish_sends_exact_bytes_once() {
    let session = RecordingSession { declare_ok: true, accept_sends: true };
    let mut publisher = TopicPublisher::new(&session).expect("declare succeeds");
    let status = SampleStatus { payload: vec![0x10, 0x22, 0x33], encodable: true };
    let outcome = publisher.publish_vehicle_status(&status);
    assert_eq!(outcome, PublishOutcome::Published);
    assert_eq!(*publisher.transport().sent_payloads(), vec![vec![0x10, 0x22, 0x33]]);
}

#[test]
fn failing_send_reports_transport_error_and_returns() {
    let session = RecordingSession { declare_ok: true, accept_sends: false };
    let mut publisher = TopicPublisher::new(&session).expect("declare succeeds");
    let status = SampleStatus { payload: vec![1, 2, 3], encodable: true };
    let outcome = publisher.publish_vehicle_status(&status);
    assert!(matches!(
        outcome,
        PublishOutcome::TransportFailed(TransportError::SendFailed { .. })
    ));
    assert!(publisher.transport().sent_payloads().is_empty());
    // No retry, no carried state: the next call reports the failure afresh.
    let again = publisher.publish_vehicle_status(&status);
    assert!(matches!(
        again,
        PublishOutcome::TransportFailed(TransportError::SendFailed { .. })
    ));
    assert!(publisher.transport().sent_payloads().is_empty());
}

#[test]
fn encode_failure_short_circuits_before_send() {
    let session = RecordingSession { declare_ok: true, accept_sends: true };
    let mut publisher = TopicPublisher::new(&session).expect("declare succeeds");
    let status = SampleStatus { payload: vec![7, 7, 7], encodable: false };
    let outcome = publisher.publish_vehicle_status(&status);
    assert!(matches!(outcome, PublishOutcome::EncodeFailed(_)));
    assert!(publisher.transport().sent_payloads().is_empty());
}

#[test]
fn failed_declare_yields_no_publisher() {
    let session = RecordingSession { declare_ok: false, accept_sends: true };
    let result = TopicPublisher::<RecordingEndpoint>::new(&session);
    assert!(matches!(result, Err(TransportError::DeclareFailed { .. })));
}

#[test]
fn consecutive_publishes_are_independent_and_ordered() {
    let session = RecordingSession { declare_ok: true, accept_sends: true };
    let mut publisher = TopicPublisher::new(&session).expect("declare succeeds");
    let first = SampleStatus { payload: vec![0xAA], encodable: true };
    let second = SampleStatus { payload: vec![0xBB, 0xCC], encodable: true };
    assert_eq!(publisher.publish_vehicle_status(&first), PublishOutcome::Published);
    assert_eq!(publisher.publish_vehicle_status(&second), PublishOutcome::Published);
    assert_eq!(
        *publisher.transport().sent_payloads(),
        vec![vec![0xAA], vec![0xBB, 0xCC]]
    );
}
