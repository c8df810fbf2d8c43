//! The payloads of the events about the bot itself.

use vstd::prelude::*;
use vstd::std_specs::convert::FromSpec;

use crate::error::Error;
use crate::json::{
    decode_field, field_from_json, FromJson, is_parsed, Json, parse_text, text_from_json,
};
use crate::payloads::types::{Channel, ChannelView, TimeStamp};

verus! {

/// The payload of `PING`: the connection to the bot is checked.
#[derive(Debug, Clone, Copy, PartialEq, Eq, Hash)]
pub struct PingPayload {
    /// When the event happened.
    pub event_time: TimeStamp,
}

impl View for PingPayload {
    type V = PingPayload;

    open spec fn view(&self) -> PingPayload {
        *self
    }
}

impl FromJson for PingPayload {
    /// An object with the field `eventTime`.
    open spec fn from_json(json: Json) -> Option<PingPayload> {
        let event_time = field_from_json::<TimeStamp>(json, "eventTime"@);
        if event_time is Some {
            Some(PingPayload { event_time: event_time->0 })
        } else {
            None
        }
    }

    fn decode(value: &serde_json::Value) -> (decoded: Option<PingPayload>) {
        let event_time = decode_field::<TimeStamp>(value, "eventTime")?;
        Some(PingPayload { event_time })
    }
}

impl core::str::FromStr for PingPayload {
    type Err = Error;

    /// Reads a `PingPayload` from its JSON text; the error is of the kind
    /// `ParseBodyFailed`.
    fn from_str(text: &str) -> (payload: Result<PingPayload, Error>)
        ensures
            is_parsed(payload, text_from_json::<PingPayload>(text@)),
    {
        parse_text::<PingPayload>(text)
    }
}

/// The payload of `JOINED`: the bot joined a channel.
#[derive(Debug, Clone, PartialEq, Eq)]
pub struct JoinedPayload {
    /// When the event happened.
    pub event_time: TimeStamp,
    /// The channel that the bot joined.
    pub channel: Channel,
}

/// What a [`JoinedPayload`] holds.
pub struct JoinedPayloadView {
    pub event_time: TimeStamp,
    pub channel: ChannelView,
}

impl View for JoinedPayload {
    type V = JoinedPayloadView;

    open spec fn view(&self) -> JoinedPayloadView {
        JoinedPayloadView { event_time: self.event_time, channel: self.channel@ }
    }
}

impl FromJson for JoinedPayload {
    /// An object with the fields `eventTime` and `channel`.
    open spec fn from_json(json: Json) -> Option<JoinedPayloadView> {
        let event_time = field_from_json::<TimeStamp>(json, "eventTime"@);
        let channel = field_from_json::<Channel>(json, "channel"@);
        if event_time is Some && channel is Some {
            Some(JoinedPayloadView { event_time: event_time->0, channel: channel->0 })
        } else {
            None
        }
    }

    fn decode(value: &serde_json::Value) -> (decoded: Option<JoinedPayload>) {
        let event_time = decode_field::<TimeStamp>(value, "eventTime")?;
        let channel = decode_field::<Channel>(value, "channel")?;
        Some(JoinedPayload { event_time, channel })
    }
}

impl core::str::FromStr for JoinedPayload {
    type Err = Error;

    /// Reads a `JoinedPayload` from its JSON text; the error is of the kind
    /// `ParseBodyFailed`.
    fn from_str(text: &str) -> (payload: Result<JoinedPayload, Error>)
        ensures
            is_parsed(payload, text_from_json::<JoinedPayload>(text@)),
    {
        parse_text::<JoinedPayload>(text)
    }
}

/// The payload of `LEFT`: the bot left a channel.
#[derive(Debug, Clone, PartialEq, Eq)]
pub struct LeftPayload {
    /// When the event happened.
    pub event_time: TimeStamp,
    /// The channel that the bot left.
    pub channel: Channel,
}

/// What a [`LeftPayload`] holds.
pub struct LeftPayloadView {
    pub event_time: TimeStamp,
    pub channel: ChannelView,
}

impl View for LeftPayload {
    type V = LeftPayloadView;

    open spec fn view(&self) -> LeftPayloadView {
        LeftPayloadView { event_time: self.event_time, channel: self.channel@ }
    }
}

impl FromJson for LeftPayload {
    /// An object with the fields `eventTime` and `channel`.
    open spec fn from_json(json: Json) -> Option<LeftPayloadView> {
        let event_time = field_from_json::<TimeStamp>(json, "eventTime"@);
        let channel = field_from_json::<Channel>(json, "channel"@);
        if event_time is Some && channel is Some {
            Some(LeftPayloadView { event_time: event_time->0, channel: channel->0 })
        } else {
            None
        }
    }

    fn decode(value: &serde_json::Value) -> (decoded: Option<LeftPayload>) {
        let event_time = decode_field::<TimeStamp>(value, "eventTime")?;
        let channel = decode_field::<Channel>(value, "channel")?;
        Some(LeftPayload { event_time, channel })
    }
}

impl core::str::FromStr for LeftPayload {
    type Err = Error;

    /// Reads a `LeftPayload` from its JSON text; the error is of the kind
    /// `ParseBodyFailed`.
    fn from_str(text: &str) -> (payload: Result<LeftPayload, Error>)
        ensures
            is_parsed(payload, text_from_json::<LeftPayload>(text@)),
    {
        parse_text::<LeftPayload>(text)
    }
}

impl From<LeftPayload> for JoinedPayload {
    fn from(payload: LeftPayload) -> (converted: JoinedPayload) {
        JoinedPayload { event_time: payload.event_time, channel: payload.channel }
    }
}

impl vstd::std_specs::convert::FromSpecImpl<LeftPayload> for JoinedPayload {
    open spec fn obeys_from_spec() -> bool {
        true
    }

    /// The same fields, under the other name.
    open spec fn from_spec(payload: LeftPayload) -> JoinedPayload {
        JoinedPayload { event_time: payload.event_time, channel: payload.channel }
    }
}

impl From<JoinedPayload> for LeftPayload {
    fn from(payload: JoinedPayload) -> (converted: LeftPayload) {
        LeftPayload { event_time: payload.event_time, channel: payload.channel }
    }
}

impl vstd::std_specs::convert::FromSpecImpl<JoinedPayload> for LeftPayload {
    open spec fn obeys_from_spec() -> bool {
        true
    }

    /// The same fields, under the other name.
    open spec fn from_spec(payload: JoinedPayload) -> LeftPayload {
        LeftPayload { event_time: payload.event_time, channel: payload.channel }
    }
}

/// Converting a `JoinedPayload` into a `LeftPayload` and back gives the value
/// itself, and so does the way from the other side. Each conversion keeps every
/// field.
pub proof fn lemma_joined_left_round_trip(a: JoinedPayload, b: LeftPayload)
    ensures
        JoinedPayload::from_spec(LeftPayload::from_spec(a)) == a,
        LeftPayload::from_spec(JoinedPayload::from_spec(b)) == b,
        LeftPayload::from_spec(a).event_time == a.event_time,
        LeftPayload::from_spec(a).channel == a.channel,
        JoinedPayload::from_spec(b).event_time == b.event_time,
        JoinedPayload::from_spec(b).channel == b.channel,
{
}

} // verus!
