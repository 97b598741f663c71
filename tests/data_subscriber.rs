use sttp::transport::data_subscriber::{frame_command, parse_response, subscription_parameters};
use sttp::transport::{
    ConnectionState, DataSubscriber, DecodeError, ServerCommand, ServerResponse, SubscriberError,
    SubscriptionInfo,
};
use sttp::Version;

const DEFAULT_PARAMETERS: &str = "throttled=false;publishInterval=1.000000;includeTime=true;\
enableTimeReasonabilityCheck=false;lagTime=10.000000;leadTime=5.000000;\
useLocalClockAsRealTime=false;processingInterval=-1;useMillisecondResolution=false;\
requestNaNValueFilter=false;assemblyInfo={source=STTP Rust Library;version=0.1.0;\
updatedOn=2023-04-01}";

fn validated() -> DataSubscriber {
    let mut ds = DataSubscriber::new();
    ds.connect("localhost", 7165).unwrap();
    ds.establish_connection();
    ds.handle_command_response(ServerResponse::Succeeded, ServerCommand::DefineOperationalModes);
    ds
}

#[test]
fn new_subscriber_is_disconnected() {
    let ds = DataSubscriber::new();
    assert!(!ds.is_connected());
    assert!(!ds.is_validated());
    assert!(!ds.is_listening());
    assert!(!ds.is_subscribed());
    assert_eq!(ds.get_connection_id(), "");
}

#[test]
fn connect_then_establish() {
    let mut ds = DataSubscriber::new();
    ds.connector.connect_attempt = 4;
    assert_eq!(ds.connect("localhost", 7165), Ok(()));
    assert_eq!(ds.connector.connect_attempt, 0);
    let frame = ds.establish_connection();
    assert!(ds.is_connected());
    assert!(!ds.is_validated());
    assert_eq!(ds.get_connection_id(), "localhost:7165");
    assert_eq!(frame, vec![0, 0, 0, 5, 0x06, 0xE0, 0x00, 0x02, 0x02]);
    assert_eq!(ds.connect("localhost", 7165), Err(SubscriberError::AlreadyConnected));
}

#[test]
fn listening_refuses_connect() {
    let mut ds = DataSubscriber::new();
    ds.listening = true;
    assert_eq!(ds.connect("localhost", 1), Err(SubscriberError::Listening));
    assert_eq!(SubscriberError::Listening.message(), "subscriber is listening for connections; direct connections disallowed");
}

#[test]
fn reconnect_keeps_backoff() {
    let mut ds = DataSubscriber::new();
    ds.connector.connect_attempt = 4;
    ds.connector.connection_refused = true;
    assert_eq!(ds.reconnect(), Ok(()));
    assert_eq!(ds.connector.connect_attempt, 4);
    assert!(!ds.connector.connection_refused);
    ds.connection_failed();
    assert!(ds.connector.connection_refused);
}

#[test]
fn subscribe_requires_connection_and_validation() {
    let mut ds = DataSubscriber::new();
    assert_eq!(ds.subscribe(), Err(SubscriberError::NotConnected));
    ds.connect("localhost", 7165).unwrap();
    ds.establish_connection();
    assert_eq!(ds.subscribe(), Err(SubscriberError::NotValidated));
    assert_eq!(ds.state, ConnectionState::Connected);
}

#[test]
fn subscribe_builds_frame() {
    let mut ds = validated();
    assert!(ds.is_validated());
    let frames = ds.subscribe().unwrap();
    assert_eq!(frames.len(), 1);
    let params = DEFAULT_PARAMETERS.as_bytes();
    let mut expected = Vec::new();
    expected.extend_from_slice(&((params.len() + 6) as u32).to_be_bytes());
    expected.push(0x02);
    expected.push(0x02);
    expected.extend_from_slice(&(params.len() as u32).to_be_bytes());
    expected.extend_from_slice(params);
    assert_eq!(frames[0], expected);
    assert!(ds.is_subscribed());
    assert!(ds.tssc_reset_requested);
}

#[test]
fn resubscribe_unsubscribes_first() {
    let mut ds = validated();
    ds.subscribe().unwrap();
    let frames = ds.subscribe().unwrap();
    assert_eq!(frames.len(), 2);
    assert_eq!(frames[0], vec![0, 0, 0, 1, 0x03]);
    assert_eq!(frames[1][4], 0x02);
}

#[test]
fn unsubscribe_only_when_subscribed() {
    let mut ds = validated();
    assert_eq!(ds.unsubscribe(), None);
    ds.subscribe().unwrap();
    assert_eq!(ds.unsubscribe(), Some(vec![0, 0, 0, 1, 0x03]));
    assert!(!ds.is_subscribed());
    assert!(ds.is_validated());
}

#[test]
fn disconnect_is_guarded() {
    let mut ds = validated();
    ds.listening = true;
    assert!(ds.disconnect());
    assert!(!ds.is_connected());
    assert!(!ds.is_listening());
    assert!(!ds.disconnect());
    ds.disconnect_completed();
    assert!(ds.disconnected);
    assert!(!ds.disconnecting);
}

#[test]
fn terminated_connection_asks_for_reconnect() {
    let mut ds = validated();
    assert!(ds.connection_terminated());
    assert!(!ds.is_connected());
    assert!(!ds.connection_terminated());
    let mut other = validated();
    other.connector.auto_reconnect = false;
    assert!(!other.connection_terminated());
}

#[test]
fn dispose_cancels_connector() {
    let mut ds = validated();
    assert!(ds.dispose());
    assert!(ds.connector.is_canceled());
    assert!(!ds.is_connected());
}

#[test]
fn string_codec_is_utf8() {
    let ds = DataSubscriber::new();
    assert_eq!(ds.encode_string("héllo"), "héllo".as_bytes().to_vec());
    assert_eq!(ds.decode_string("héllo".as_bytes()), Ok("héllo".to_string()));
    assert_eq!(ds.decode_string(&[0xC3]), Err(DecodeError::InvalidUtf8));
}

#[test]
fn parameters_with_optional_fields() {
    let mut info = SubscriptionInfo::default();
    info.filter_expression = "FILTER ActiveMeasurements WHERE True".to_string();
    info.publish_interval = 2_500_000;
    info.lag_time = -1_500_000;
    info.start_time = "*-5M".to_string();
    info.extra_connection_string_parameters = "x=1".to_string();
    info.processing_interval = 33;
    let p = subscription_parameters(&info, Version::STTP_SOURCE, Version::STTP_VERSION, Version::STTP_UPDATED_ON);
    assert_eq!(
        p,
        "throttled=false;publishInterval=2.500000;includeTime=true;\
enableTimeReasonabilityCheck=false;lagTime=-1.500000;leadTime=5.000000;\
useLocalClockAsRealTime=false;processingInterval=33;useMillisecondResolution=false;\
requestNaNValueFilter=false;assemblyInfo={source=STTP Rust Library;version=0.1.0;\
updatedOn=2023-04-01};filterExpression={FILTER ActiveMeasurements WHERE True};\
startTimeConstraint=*-5M;x=1"
    );
    let d = subscription_parameters(&SubscriptionInfo::default(), Version::STTP_SOURCE, Version::STTP_VERSION, Version::STTP_UPDATED_ON);
    assert_eq!(d, DEFAULT_PARAMETERS);
}

#[test]
fn command_frame_layout() {
    assert_eq!(
        frame_command(ServerCommand::MetadataRefresh, &[9, 8]),
        Some(vec![0, 0, 0, 3, 0x01, 9, 8])
    );
    assert_eq!(ServerCommand::UserCommand15.code(), 0xDF);
    assert_eq!(ServerCommand::from_code(0x0A), Some(ServerCommand::ConfirmUpdateSignalIndexCache));
    assert_eq!(ServerCommand::from_code(0x50), None);
    assert_eq!(ServerResponse::from_code(0xFF), Some(ServerResponse::NoOP));
    assert_eq!(ServerResponse::DataPacket.code(), 0x82);
}

#[test]
fn text_formatting_values() {
    let mut s = String::new();
    sttp::text::push_fixed6(&mut s, 0);
    s.push(' ');
    sttp::text::push_fixed6(&mut s, -1);
    s.push(' ');
    sttp::text::push_signed_decimal(&mut s, i64::MIN);
    s.push(' ');
    sttp::text::push_decimal(&mut s, 1234567890);
    assert_eq!(s, "0.000000 -0.000001 -9223372036854775808 1234567890");
}

#[test]
fn cache_update_switches_slot_only_after_decoding() {
    let mut b = Vec::new();
    b.extend_from_slice(&0u32.to_be_bytes());
    b.extend_from_slice(&[0xAB; 16]);
    b.extend_from_slice(&1u32.to_be_bytes());
    b.extend_from_slice(&7i32.to_be_bytes());
    b.extend_from_slice(&[0x11; 16]);
    b.extend_from_slice(&1u32.to_be_bytes());
    b.extend_from_slice(b"X");
    b.extend_from_slice(&42u64.to_be_bytes());
    let mut ds = DataSubscriber::new();
    assert_eq!(ds.update_signal_index_cache(true, &b[..b.len() - 1]), Err(DecodeError::Truncated));
    assert!(!ds.cache_index);
    assert!(!ds.second_signal_index_cache.contains(7));
    let id = ds.update_signal_index_cache(true, &b).unwrap();
    assert_eq!(id.as_u128(), u128::from_be_bytes([0xAB; 16]));
    assert!(ds.cache_index);
    assert_eq!(ds.subscriber_id, id);
    assert!(ds.second_signal_index_cache.contains(7));
    assert!(!ds.first_signal_index_cache.contains(7));
}

#[test]
fn response_envelope_needs_whole_frame() {
    let frame = [0x80, 0x06, 0, 0, 0, 2, 7, 7, 9];
    let e = parse_response(&frame).unwrap();
    assert_eq!((e.response, e.command, e.payload_start, e.payload_length), (0x80, 0x06, 6, 2));
    assert_eq!(parse_response(&frame[..7]), None);
    assert_eq!(parse_response(&frame[..5]), None);
}

#[test]
fn new_subscriber_initial_state() {
    let ds = DataSubscriber::new();
    assert_eq!(ds.state, ConnectionState::Disconnected);
    assert_eq!(ds.connection_id, "");
    assert_eq!(ds.first_signal_index_cache.count(), 0);
    assert_eq!(ds.second_signal_index_cache.count(), 0);
    assert!(!ds.cache_index);
    assert!(!ds.time_index);
    assert_eq!(ds.base_time_offsets, [0, 0]);
    assert_eq!(ds.total_measurements_received, 0);
    assert!(ds.key_ivs.is_none());
    assert!(!ds.tssc_reset_requested);
    assert_eq!(ds.sttp_source_info, Version::STTP_SOURCE);
    assert_eq!(ds.connector.hostname, "localhost");
}

#[test]
fn connect_waits_for_pending_disconnect() {
    let mut ds = validated();
    assert!(ds.disconnect());
    assert_eq!(ds.connect("localhost", 7165), Err(SubscriberError::DisconnectPending));
    assert_eq!(ds.reconnect(), Err(SubscriberError::DisconnectPending));
    ds.disconnect_completed();
    assert_eq!(ds.connect("localhost", 7165), Ok(()));
}

#[test]
fn dispose_tears_down_like_disconnect() {
    let mut ds = validated();
    ds.listening = true;
    assert!(ds.dispose());
    assert!(ds.disposing);
    assert!(ds.disconnecting);
    assert!(!ds.is_listening());
    let mut again = ds.clone();
    assert!(!again.dispose());
    assert!(again.disconnecting);
}

#[test]
fn error_messages() {
    assert_eq!(SubscriberError::AlreadyConnected.message(), "subscriber is already connected; disconnect first");
    assert_eq!(SubscriberError::NotConnected.message(), "subscriber is not connected; cannot subscribe");
    assert_eq!(SubscriberError::NotValidated.message(), "subscriber is not validated; cannot subscribe");
}
