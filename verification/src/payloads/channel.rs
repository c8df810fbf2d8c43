//! The payloads of the events about channels.

use vstd::prelude::*;

use crate::error::Error;
use crate::json::{
    decode_field, field_from_json, FromJson, is_parsed, Json, parse_text, text_from_json,
};
use crate::payloads::types::{Channel, ChannelView, TimeStamp, User, UserView};

verus! {

/// The payload of `CHANNEL_CREATED`: a channel was created.
#[derive(Debug, Clone, PartialEq, Eq)]
pub struct ChannelCreatedPayload {
    /// When the event happened.
    pub event_time: TimeStamp,
    /// The channel that was created.
    pub channel: Channel,
}

/// What a [`ChannelCreatedPayload`] holds.
pub struct ChannelCreatedPayloadView {
    pub event_time: TimeStamp,
    pub channel: ChannelView,
}

impl View for ChannelCreatedPayload {
    type V = ChannelCreatedPayloadView;

    open spec fn view(&self) -> ChannelCreatedPayloadView {
        ChannelCreatedPayloadView { event_time: self.event_time, channel: self.channel@ }
    }
}

impl FromJson for ChannelCreatedPayload {
    /// An object with the fields `eventTime` and `channel`.
    open spec fn from_json(json: Json) -> Option<ChannelCreatedPayloadView> {
        let event_time = field_from_json::<TimeStamp>(json, "eventTime"@);
        let channel = field_from_json::<Channel>(json, "channel"@);
        if event_time is Some && channel is Some {
            Some(ChannelCreatedPayloadView { event_time: event_time->0, channel: channel->0 })
        } else {
            None
        }
    }

    fn decode(value: &serde_json::Value) -> (decoded: Option<ChannelCreatedPayload>) {
        let event_time = decode_field::<TimeStamp>(value, "eventTime")?;
        let channel = decode_field::<Channel>(value, "channel")?;
        Some(ChannelCreatedPayload { event_time, channel })
    }
}

impl core::str::FromStr for ChannelCreatedPayload {
    type Err = Error;

    /// Reads a `ChannelCreatedPayload` from its JSON text; the error is of the kind
    /// `ParseBodyFailed`.
    fn from_str(text: &str) -> (payload: Result<ChannelCreatedPayload, Error>)
        ensures
            is_parsed(payload, text_from_json::<ChannelCreatedPayload>(text@)),
    {
        parse_text::<ChannelCreatedPayload>(text)
    }
}

/// The payload of `CHANNEL_TOPIC_CHANGED`: the topic of a channel changed.
#[derive(Debug, Clone, PartialEq, Eq)]
pub struct ChannelTopicChangedPayload {
    /// When the event happened.
    pub event_time: TimeStamp,
    /// The channel whose topic changed.
    pub channel: Channel,
    /// The new topic.
    pub topic: String,
    /// The user who changed the topic.
    pub updater: User,
}

/// What a [`ChannelTopicChangedPayload`] holds.
pub struct ChannelTopicChangedPayloadView {
    pub event_time: TimeStamp,
    pub channel: ChannelView,
    pub topic: Seq<char>,
    pub updater: UserView,
}

impl View for ChannelTopicChangedPayload {
    type V = ChannelTopicChangedPayloadView;

    open spec fn view(&self) -> ChannelTopicChangedPayloadView {
        ChannelTopicChangedPayloadView {
            event_time: self.event_time,
            channel: self.channel@,
            topic: self.topic@,
            updater: self.updater@,
        }
    }
}

impl FromJson for ChannelTopicChangedPayload {
    /// An object with the fields `eventTime`, `channel`, `topic` and `updater`.
    open spec fn from_json(json: Json) -> Option<ChannelTopicChangedPayloadView> {
        let event_time = field_from_json::<TimeStamp>(json, "eventTime"@);
        let channel = field_from_json::<Channel>(json, "channel"@);
        let topic = field_from_json::<String>(json, "topic"@);
        let updater = field_from_json::<User>(json, "updater"@);
        if event_time is Some && channel is Some && topic is Some && updater is Some {
            Some(
                ChannelTopicChangedPayloadView {
                    event_time: event_time->0,
                    channel: channel->0,
                    topic: topic->0,
                    updater: updater->0,
                },
            )
        } else {
            None
        }
    }

    fn decode(value: &serde_json::Value) -> (decoded: Option<ChannelTopicChangedPayload>) {
        let event_time = decode_field::<TimeStamp>(value, "eventTime")?;
        let channel = decode_field::<Channel>(value, "channel")?;
        let topic = decode_field::<String>(value, "topic")?;
        let updater = decode_field::<User>(value, "updater")?;
        Some(ChannelTopicChangedPayload { event_time, channel, topic, updater })
    }
}

impl core::str::FromStr for ChannelTopicChangedPayload {
    type Err = Error;

    /// Reads a `ChannelTopicChangedPayload` from its JSON text; the error is of the kind
    /// `ParseBodyFailed`.
    fn from_str(text: &str) -> (payload: Result<ChannelTopicChangedPayload, Error>)
        ensures
            is_parsed(payload, text_from_json::<ChannelTopicChangedPayload>(text@)),
    {
        parse_text::<ChannelTopicChangedPayload>(text)
    }
}

} // verus!
