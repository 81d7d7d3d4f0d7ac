//! Broker control messages.
//!
//! The device listens on a fixed control topic for a "wait" instruction:
//! the decimal number of seconds to stay offline before resetting.  This
//! module classifies an incoming (topic, payload) pair into a control
//! message or a precise error, and turns a received control message into
//! the action the device must take.  Receiving itself — sockets, the
//! broker protocol — is the caller's business; everything here works on
//! plain values.

use crate::payload::{digits_part, decimal_value, parses_as_u64};
use vstd::prelude::*;
use vstd::string::StringSliceAdditionalSpecFns;
use vstd::utf8::valid_utf8;

verus! {

/// The control topic the broker sends wait instructions on.
pub fn pico_time_topic() -> (topic: &'static str)
    ensures
        topic@ == "pico-time"@,
{
    "pico-time"
}

/// The status topic liveness messages go out on.
pub fn pico_status_topic() -> (topic: &'static str)
    ensures
        topic@ == "pico-status"@,
{
    "pico-status"
}

/// The data topic reported distances go out on.
pub fn pico_topic() -> (topic: &'static str)
    ensures
        topic@ == "pico"@,
{
    "pico"
}

/// The payload announcing the device is up, sent on the status topic
/// right after connecting.
pub fn status_online_payload() -> (payload: &'static str)
    ensures
        payload@ == "online"@,
{
    "online"
}

/// The payload announcing a controlled shutdown, sent on the status
/// topic before the device sleeps and resets.
pub fn status_sleep_payload() -> (payload: &'static str)
    ensures
        payload@ == "sleep"@,
{
    "sleep"
}

/// The payload the broker publishes for us if the connection dies
/// unannounced: registered as the session's last will on the status
/// topic.
pub fn status_offline_payload() -> (payload: &'static str)
    ensures
        payload@ == "offline"@,
{
    "offline"
}

/// A message received from the broker.
pub enum BrokerMessage<'b> {
    /// Stay offline for this many seconds, then reset; zero means
    /// proceed at once.
    WaitFor(u64),
    /// Reset the device now.
    Reset(bool),
    /// A message on some other topic, passed through uninterpreted.
    TopicPayload(&'b str, &'b [u8]),
}

/// Why an incoming message could not be understood.
#[derive(Debug)]
pub enum BrokerMessageError {
    /// The payload was text but not a decimal number in range.
    Parse,
    /// The payload was not valid UTF-8 text.
    Utf8Error,
    /// The message arrived on a topic the device does not understand.
    InvalidTopic,
    /// The broker protocol itself failed with the given reason.
    Mqtt(rust_mqtt::packet::v5::reason_codes::ReasonCode),
}

#[verifier::external_type_specification]
#[verifier::external_body]
pub struct ExReasonCode(rust_mqtt::packet::v5::reason_codes::ReasonCode);

impl BrokerMessageError {
    /// A fixed description of the error, for logs.
    pub fn message(&self) -> (text: &'static str)
        ensures
            self is Parse ==> text@ == "the provided string could not be parsed as int"@,
            self is Utf8Error ==> text@ == "the provided string is not a valid utf-8 string"@,
            self is InvalidTopic ==> text@ == "invalid topic"@,
            self is Mqtt ==> text@ == "mqtt request failed"@,
    {
        match self {
            BrokerMessageError::Parse => "the provided string could not be parsed as int",
            BrokerMessageError::Utf8Error => "the provided string is not a valid utf-8 string",
            BrokerMessageError::InvalidTopic => "invalid topic",
            BrokerMessageError::Mqtt(_) => "mqtt request failed",
        }
    }
}

impl From<rust_mqtt::packet::v5::reason_codes::ReasonCode> for BrokerMessageError {
    /// A protocol failure reported by the broker client becomes the
    /// corresponding broker-message error.
    fn from(code: rust_mqtt::packet::v5::reason_codes::ReasonCode) -> (err: BrokerMessageError)
        ensures
            err == BrokerMessageError::Mqtt(code),
    {
        BrokerMessageError::Mqtt(code)
    }
}

impl vstd::std_specs::convert::FromSpecImpl<rust_mqtt::packet::v5::reason_codes::ReasonCode> for BrokerMessageError {
    open spec fn obeys_from_spec() -> bool {
        true
    }

    open spec fn from_spec(code: rust_mqtt::packet::v5::reason_codes::ReasonCode) -> BrokerMessageError {
        BrokerMessageError::Mqtt(code)
    }
}

/// Relies on core::str::from_utf8: it accepts exactly the byte
/// sequences that are valid UTF-8.
#[verifier::external_body]
fn bytes_are_utf8(bytes: &[u8]) -> (valid: bool)
    ensures
        valid == valid_utf8(bytes@),
{
    core::str::from_utf8(bytes).is_ok()
}

/// Byte-slice equality, proved element by element.
fn bytes_eq(a: &[u8], b: &[u8]) -> (eq: bool)
    ensures
        eq == (a@ == b@),
{
    if a.len() != b.len() {
        proof {
            assert(a@.len() != b@.len());
        }
        return false;
    }
    let mut i: usize = 0;
    while i < a.len()
        invariant
            i <= a.len(),
            a@.len() == b@.len(),
            forall|j: int| 0 <= j < i ==> a@[j] == b@[j],
        decreases a.len() - i,
    {
        if a[i] != b[i] {
            return false;
        }
        i = i + 1;
    }
    proof {
        assert(a@ =~= b@);
    }
    true
}

/// String equality through the byte representation: UTF-8 encoding is
/// injective, so equal bytes mean equal character sequences.
pub fn str_eq(a: &str, b: &str) -> (eq: bool)
    ensures
        eq == (a@ == b@),
{
    let eq = bytes_eq(a.as_bytes(), b.as_bytes());
    proof {
        if a.spec_bytes() == b.spec_bytes() {
            vstd::utf8::encode_utf8_decode_utf8(a@);
            vstd::utf8::encode_utf8_decode_utf8(b@);
        }
    }
    eq
}

/// Classifies one received (topic, payload) pair.  Only the control
/// topic is understood: an empty payload there means no wait, a decimal
/// payload the number of seconds to wait; text that is not a number in
/// range is a parse error, bytes that are not text a UTF-8 error, and
/// any other topic an invalid-topic error.
pub fn parse_broker_message<'b>(topic: &'b str, payload: &'b [u8]) -> (message: Result<
    BrokerMessage<'b>,
    BrokerMessageError,
>)
    ensures
        topic@ != "pico-time"@ ==> message matches Err(BrokerMessageError::InvalidTopic),
        topic@ == "pico-time"@ && payload@.len() == 0 ==> (message matches Ok(
            BrokerMessage::WaitFor(n),
        ) && n == 0),
        topic@ == "pico-time"@ && payload@.len() > 0 && !valid_utf8(payload@) ==> message matches
            Err(BrokerMessageError::Utf8Error),
        topic@ == "pico-time"@ && payload@.len() > 0 && valid_utf8(payload@) && !parses_as_u64(
            payload@,
        ) ==> message matches Err(BrokerMessageError::Parse),
        topic@ == "pico-time"@ && payload@.len() > 0 && valid_utf8(payload@) && parses_as_u64(
            payload@,
        ) ==> (message matches Ok(BrokerMessage::WaitFor(n)) && n == decimal_value(
            digits_part(payload@),
        )),
{
    if !str_eq(topic, pico_time_topic()) {
        return Err(BrokerMessageError::InvalidTopic);
    }
    if payload.len() == 0 {
        return Ok(BrokerMessage::WaitFor(0));
    }
    if !bytes_are_utf8(payload) {
        return Err(BrokerMessageError::Utf8Error);
    }
    match crate::payload::parse_u64_decimal(payload) {
        Some(wait_for) => Ok(BrokerMessage::WaitFor(wait_for)),
        None => Err(BrokerMessageError::Parse),
    }
}

/// What the device does with one received control message.
#[derive(Debug)]
pub enum ControlAction {
    /// Start (or go on with) the sensing loop.
    Proceed,
    /// Announce sleep, close the connection, wait this many seconds,
    /// then reset.
    SleepThenReset { seconds: u64 },
    /// Reset immediately.
    ResetNow,
    /// Not addressed to us; keep listening.
    Ignore,
}

/// The device's response to the outcome of one receive: a failed
/// receive resets (the connection can no longer be trusted), a zero
/// wait proceeds, a positive wait sleeps and resets, an explicit reset
/// message resets, and foreign traffic is ignored.
pub fn control_decision(outcome: &Result<BrokerMessage, BrokerMessageError>) -> (action:
    ControlAction)
    ensures
        outcome matches Ok(BrokerMessage::WaitFor(n)) ==> {
            &&& n == 0 ==> action is Proceed
            &&& n > 0 ==> (action matches ControlAction::SleepThenReset { seconds } && seconds
                == n)
        },
        outcome matches Ok(BrokerMessage::Reset(_)) ==> action is ResetNow,
        outcome matches Ok(BrokerMessage::TopicPayload(_, _)) ==> action is Ignore,
        outcome is Err ==> action is ResetNow,
{
    match outcome {
        Ok(BrokerMessage::WaitFor(n)) => {
            if *n == 0 {
                ControlAction::Proceed
            } else {
                ControlAction::SleepThenReset { seconds: *n }
            }
        },
        Ok(BrokerMessage::Reset(_)) => ControlAction::ResetNow,
        Ok(BrokerMessage::TopicPayload(_, _)) => ControlAction::Ignore,
        Err(_) => ControlAction::ResetNow,
    }
}

} // verus!
