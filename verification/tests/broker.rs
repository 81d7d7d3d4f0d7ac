use pico_range::broker::{
    control_decision, parse_broker_message, pico_status_topic, pico_time_topic, pico_topic,
    status_offline_payload, status_online_payload, status_sleep_payload, str_eq, BrokerMessage,
    BrokerMessageError, ControlAction,
};
use rust_mqtt::packet::v5::reason_codes::ReasonCode;

#[test]
fn topics_match_the_wire_protocol() {
    assert_eq!(pico_time_topic(), "pico-time");
    assert_eq!(pico_status_topic(), "pico-status");
    assert_eq!(pico_topic(), "pico");
}

#[test]
fn wait_message_parses() {
    let message = parse_broker_message("pico-time", b"120");
    assert!(matches!(message, Ok(BrokerMessage::WaitFor(120))));
}

#[test]
fn empty_payload_means_no_wait() {
    let message = parse_broker_message("pico-time", b"");
    assert!(matches!(message, Ok(BrokerMessage::WaitFor(0))));
}

#[test]
fn non_utf8_payload_is_a_utf8_error() {
    let message = parse_broker_message("pico-time", &[0xff, 0xfe]);
    assert!(matches!(message, Err(BrokerMessageError::Utf8Error)));
}

#[test]
fn non_numeric_payload_is_a_parse_error() {
    let message = parse_broker_message("pico-time", b"soon");
    assert!(matches!(message, Err(BrokerMessageError::Parse)));
    let message = parse_broker_message("pico-time", b"18446744073709551616");
    assert!(matches!(message, Err(BrokerMessageError::Parse)));
}

#[test]
fn multibyte_text_payload_is_a_parse_error() {
    // Valid UTF-8, but not a number: the error must name parsing, not
    // the encoding.
    let message = parse_broker_message("pico-time", "\u{e9}42".as_bytes());
    assert!(matches!(message, Err(BrokerMessageError::Parse)));
}

#[test]
fn foreign_topic_is_invalid() {
    let message = parse_broker_message("pico-weather", b"120");
    assert!(matches!(message, Err(BrokerMessageError::InvalidTopic)));
    let message = parse_broker_message("", b"");
    assert!(matches!(message, Err(BrokerMessageError::InvalidTopic)));
}

#[test]
fn reason_codes_convert_into_broker_errors() {
    let err = BrokerMessageError::from(ReasonCode::ServerBusy);
    assert!(matches!(err, BrokerMessageError::Mqtt(ReasonCode::ServerBusy)));
}

#[test]
fn string_equality_agrees_with_std() {
    assert!(str_eq("pico-time", "pico-time"));
    assert!(!str_eq("pico-time", "pico-tim"));
    assert!(!str_eq("pico-time", "pico-timer"));
    assert!(!str_eq("a", "b"));
    assert!(str_eq("", ""));
    assert!(str_eq("\u{e9}t\u{e9}", "\u{e9}t\u{e9}"));
}

#[test]
fn zero_wait_proceeds() {
    let action = control_decision(&Ok(BrokerMessage::WaitFor(0)));
    assert!(matches!(action, ControlAction::Proceed));
}

#[test]
fn positive_wait_sleeps_then_resets() {
    let action = control_decision(&Ok(BrokerMessage::WaitFor(3600)));
    assert!(matches!(action, ControlAction::SleepThenReset { seconds: 3600 }));
}

#[test]
fn reset_message_resets() {
    let action = control_decision(&Ok(BrokerMessage::Reset(true)));
    assert!(matches!(action, ControlAction::ResetNow));
}

#[test]
fn foreign_traffic_is_ignored() {
    let action = control_decision(&Ok(BrokerMessage::TopicPayload("pico-status", b"online")));
    assert!(matches!(action, ControlAction::Ignore));
}

#[test]
fn receive_failure_resets() {
    let action = control_decision(&Err(BrokerMessageError::Mqtt(ReasonCode::NetworkError)));
    assert!(matches!(action, ControlAction::ResetNow));
    let action = control_decision(&Err(BrokerMessageError::Parse));
    assert!(matches!(action, ControlAction::ResetNow));
}

#[test]
fn error_messages_describe_each_variant() {
    assert_eq!(
        BrokerMessageError::Parse.message(),
        "the provided string could not be parsed as int"
    );
    assert_eq!(
        BrokerMessageError::Utf8Error.message(),
        "the provided string is not a valid utf-8 string"
    );
    assert_eq!(BrokerMessageError::InvalidTopic.message(), "invalid topic");
    assert_eq!(
        BrokerMessageError::Mqtt(ReasonCode::ServerBusy).message(),
        "mqtt request failed"
    );
}

#[test]
fn status_payloads_match_the_wire_protocol() {
    assert_eq!(status_online_payload(), "online");
    assert_eq!(status_sleep_payload(), "sleep");
    assert_eq!(status_offline_payload(), "offline");
}
