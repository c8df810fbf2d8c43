//! The payloads of the events about messages.

use vstd::prelude::*;
use vstd::std_specs::convert::FromSpec;

use crate::error::Error;
use crate::json::{
    array_field_from_json, decode_array_field, decode_field, field_from_json, FromJson, is_parsed,
    Json, parse_text, text_from_json, views,
};
use crate::payloads::types::{
    DeletedDirectMessage, DeletedMessage, Message, MessageStamp, MessageView, TimeStamp, Uuid,
};

verus! {

/// The payload of `MESSAGE_CREATED`: a message was posted.
#[derive(Debug, Clone, PartialEq, Eq)]
pub struct MessageCreatedPayload {
    /// When the event happened.
    pub event_time: TimeStamp,
    /// The message that was posted.
    pub message: Message,
}

/// What a [`MessageCreatedPayload`] holds.
pub struct MessageCreatedPayloadView {
    pub event_time: TimeStamp,
    pub message: MessageView,
}

impl View for MessageCreatedPayload {
    type V = MessageCreatedPayloadView;

    open spec fn view(&self) -> MessageCreatedPayloadView {
        MessageCreatedPayloadView { event_time: self.event_time, message: self.message@ }
    }
}

impl FromJson for MessageCreatedPayload {
    /// An object with the fields `eventTime` and `message`.
    open spec fn from_json(json: Json) -> Option<MessageCreatedPayloadView> {
        let event_time = field_from_json::<TimeStamp>(json, "eventTime"@);
        let message = field_from_json::<Message>(json, "message"@);
        if event_time is Some && message is Some {
            Some(MessageCreatedPayloadView { event_time: event_time->0, message: message->0 })
        } else {
            None
        }
    }

    fn decode(value: &serde_json::Value) -> (decoded: Option<MessageCreatedPayload>) {
        let event_time = decode_field::<TimeStamp>(value, "eventTime")?;
        let message = decode_field::<Message>(value, "message")?;
        Some(MessageCreatedPayload { event_time, message })
    }
}

impl core::str::FromStr for MessageCreatedPayload {
    type Err = Error;

    /// Reads a `MessageCreatedPayload` from its JSON text; the error is of the kind
    /// `ParseBodyFailed`.
    fn from_str(text: &str) -> (payload: Result<MessageCreatedPayload, Error>)
        ensures
            is_parsed(payload, text_from_json::<MessageCreatedPayload>(text@)),
    {
        parse_text::<MessageCreatedPayload>(text)
    }
}

/// The payload of `MESSAGE_DELETED`: a message was deleted.
#[derive(Debug, Clone, Copy, PartialEq, Eq, Hash)]
pub struct MessageDeletedPayload {
    /// When the event happened.
    pub event_time: TimeStamp,
    /// The message that was deleted.
    pub message: DeletedMessage,
}

impl View for MessageDeletedPayload {
    type V = MessageDeletedPayload;

    open spec fn view(&self) -> MessageDeletedPayload {
        *self
    }
}

impl FromJson for MessageDeletedPayload {
    /// An object with the fields `eventTime` and `message`.
    open spec fn from_json(json: Json) -> Option<MessageDeletedPayload> {
        let event_time = field_from_json::<TimeStamp>(json, "eventTime"@);
        let message = field_from_json::<DeletedMessage>(json, "message"@);
        if event_time is Some && message is Some {
            Some(MessageDeletedPayload { event_time: event_time->0, message: message->0 })
        } else {
            None
        }
    }

    fn decode(value: &serde_json::Value) -> (decoded: Option<MessageDeletedPayload>) {
        let event_time = decode_field::<TimeStamp>(value, "eventTime")?;
        let message = decode_field::<DeletedMessage>(value, "message")?;
        Some(MessageDeletedPayload { event_time, message })
    }
}

impl core::str::FromStr for MessageDeletedPayload {
    type Err = Error;

    /// Reads a `MessageDeletedPayload` from its JSON text; the error is of the kind
    /// `ParseBodyFailed`.
    fn from_str(text: &str) -> (payload: Result<MessageDeletedPayload, Error>)
        ensures
            is_parsed(payload, text_from_json::<MessageDeletedPayload>(text@)),
    {
        parse_text::<MessageDeletedPayload>(text)
    }
}

/// The payload of `MESSAGE_UPDATED`: a message was edited.
#[derive(Debug, Clone, PartialEq, Eq)]
pub struct MessageUpdatedPayload {
    /// When the event happened.
    pub event_time: TimeStamp,
    /// The message after the edit.
    pub message: Message,
}

/// What a [`MessageUpdatedPayload`] holds.
pub struct MessageUpdatedPayloadView {
    pub event_time: TimeStamp,
    pub message: MessageView,
}

impl View for MessageUpdatedPayload {
    type V = MessageUpdatedPayloadView;

    open spec fn view(&self) -> MessageUpdatedPayloadView {
        MessageUpdatedPayloadView { event_time: self.event_time, message: self.message@ }
    }
}

impl FromJson for MessageUpdatedPayload {
    /// An object with the fields `eventTime` and `message`.
    open spec fn from_json(json: Json) -> Option<MessageUpdatedPayloadView> {
        let event_time = field_from_json::<TimeStamp>(json, "eventTime"@);
        let message = field_from_json::<Message>(json, "message"@);
        if event_time is Some && message is Some {
            Some(MessageUpdatedPayloadView { event_time: event_time->0, message: message->0 })
        } else {
            None
        }
    }

    fn decode(value: &serde_json::Value) -> (decoded: Option<MessageUpdatedPayload>) {
        let event_time = decode_field::<TimeStamp>(value, "eventTime")?;
        let message = decode_field::<Message>(value, "message")?;
        Some(MessageUpdatedPayload { event_time, message })
    }
}

impl core::str::FromStr for MessageUpdatedPayload {
    type Err = Error;

    /// Reads a `MessageUpdatedPayload` from its JSON text; the error is of the kind
    /// `ParseBodyFailed`.
    fn from_str(text: &str) -> (payload: Result<MessageUpdatedPayload, Error>)
        ensures
            is_parsed(payload, text_from_json::<MessageUpdatedPayload>(text@)),
    {
        parse_text::<MessageUpdatedPayload>(text)
    }
}

/// The payload of `DIRECT_MESSAGE_CREATED`: a direct message was posted.
#[derive(Debug, Clone, PartialEq, Eq)]
pub struct DirectMessageCreatedPayload {
    /// When the event happened.
    pub event_time: TimeStamp,
    /// The message that was posted.
    pub message: Message,
}

/// What a [`DirectMessageCreatedPayload`] holds.
pub struct DirectMessageCreatedPayloadView {
    pub event_time: TimeStamp,
    pub message: MessageView,
}

impl View for DirectMessageCreatedPayload {
    type V = DirectMessageCreatedPayloadView;

    open spec fn view(&self) -> DirectMessageCreatedPayloadView {
        DirectMessageCreatedPayloadView { event_time: self.event_time, message: self.message@ }
    }
}

impl FromJson for DirectMessageCreatedPayload {
    /// An object with the fields `eventTime` and `message`.
    open spec fn from_json(json: Json) -> Option<DirectMessageCreatedPayloadView> {
        let event_time = field_from_json::<TimeStamp>(json, "eventTime"@);
        let message = field_from_json::<Message>(json, "message"@);
        if event_time is Some && message is Some {
            Some(
                DirectMessageCreatedPayloadView {
                    event_time: event_time->0,
                    message: message->0,
                },
            )
        } else {
            None
        }
    }

    fn decode(value: &serde_json::Value) -> (decoded: Option<DirectMessageCreatedPayload>) {
        let event_time = decode_field::<TimeStamp>(value, "eventTime")?;
        let message = decode_field::<Message>(value, "message")?;
        Some(DirectMessageCreatedPayload { event_time, message })
    }
}

impl core::str::FromStr for DirectMessageCreatedPayload {
    type Err = Error;

    /// Reads a `DirectMessageCreatedPayload` from its JSON text; the error is of the kind
    /// `ParseBodyFailed`.
    fn from_str(text: &str) -> (payload: Result<DirectMessageCreatedPayload, Error>)
        ensures
            is_parsed(payload, text_from_json::<DirectMessageCreatedPayload>(text@)),
    {
        parse_text::<DirectMessageCreatedPayload>(text)
    }
}

/// The payload of `DIRECT_MESSAGE_DELETED`: a direct message was deleted.
#[derive(Debug, Clone, Copy, PartialEq, Eq, Hash)]
pub struct DirectMessageDeletedPayload {
    /// When the event happened.
    pub event_time: TimeStamp,
    /// The message that was deleted.
    pub message: DeletedDirectMessage,
}

impl View for DirectMessageDeletedPayload {
    type V = DirectMessageDeletedPayload;

    open spec fn view(&self) -> DirectMessageDeletedPayload {
        *self
    }
}

impl FromJson for DirectMessageDeletedPayload {
    /// An object with the fields `eventTime` and `message`.
    open spec fn from_json(json: Json) -> Option<DirectMessageDeletedPayload> {
        let event_time = field_from_json::<TimeStamp>(json, "eventTime"@);
        let message = field_from_json::<DeletedDirectMessage>(json, "message"@);
        if event_time is Some && message is Some {
            Some(DirectMessageDeletedPayload { event_time: event_time->0, message: message->0 })
        } else {
            None
        }
    }

    fn decode(value: &serde_json::Value) -> (decoded: Option<DirectMessageDeletedPayload>) {
        let event_time = decode_field::<TimeStamp>(value, "eventTime")?;
        let message = decode_field::<DeletedDirectMessage>(value, "message")?;
        Some(DirectMessageDeletedPayload { event_time, message })
    }
}

impl core::str::FromStr for DirectMessageDeletedPayload {
    type Err = Error;

    /// Reads a `DirectMessageDeletedPayload` from its JSON text; the error is of the kind
    /// `ParseBodyFailed`.
    fn from_str(text: &str) -> (payload: Result<DirectMessageDeletedPayload, Error>)
        ensures
            is_parsed(payload, text_from_json::<DirectMessageDeletedPayload>(text@)),
    {
        parse_text::<DirectMessageDeletedPayload>(text)
    }
}

/// The payload of `DIRECT_MESSAGE_UPDATED`: a direct message was edited.
#[derive(Debug, Clone, PartialEq, Eq)]
pub struct DirectMessageUpdatedPayload {
    /// When the event happened.
    pub event_time: TimeStamp,
    /// The message after the edit.
    pub message: Message,
}

/// What a [`DirectMessageUpdatedPayload`] holds.
pub struct DirectMessageUpdatedPayloadView {
    pub event_time: TimeStamp,
    pub message: MessageView,
}

impl View for DirectMessageUpdatedPayload {
    type V = DirectMessageUpdatedPayloadView;

    open spec fn view(&self) -> DirectMessageUpdatedPayloadView {
        DirectMessageUpdatedPayloadView { event_time: self.event_time, message: self.message@ }
    }
}

impl FromJson for DirectMessageUpdatedPayload {
    /// An object with the fields `eventTime` and `message`.
    open spec fn from_json(json: Json) -> Option<DirectMessageUpdatedPayloadView> {
        let event_time = field_from_json::<TimeStamp>(json, "eventTime"@);
        let message = field_from_json::<Message>(json, "message"@);
        if event_time is Some && message is Some {
            Some(
                DirectMessageUpdatedPayloadView {
                    event_time: event_time->0,
                    message: message->0,
                },
            )
        } else {
            None
        }
    }

    fn decode(value: &serde_json::Value) -> (decoded: Option<DirectMessageUpdatedPayload>) {
        let event_time = decode_field::<TimeStamp>(value, "eventTime")?;
        let message = decode_field::<Message>(value, "message")?;
        Some(DirectMessageUpdatedPayload { event_time, message })
    }
}

impl core::str::FromStr for DirectMessageUpdatedPayload {
    type Err = Error;

    /// Reads a `DirectMessageUpdatedPayload` from its JSON text; the error is of the kind
    /// `ParseBodyFailed`.
    fn from_str(text: &str) -> (payload: Result<DirectMessageUpdatedPayload, Error>)
        ensures
            is_parsed(payload, text_from_json::<DirectMessageUpdatedPayload>(text@)),
    {
        parse_text::<DirectMessageUpdatedPayload>(text)
    }
}

/// The payload of `BOT_MESSAGE_STAMPS_UPDATED`: the stamps on a message of the bot changed.
#[derive(Debug, Clone, PartialEq, Eq)]
pub struct BotMessageStampsUpdatedPayload {
    /// When the event happened.
    pub event_time: TimeStamp,
    /// The id of the message.
    pub message_id: Uuid,
    /// The stamps that are now on the message.
    pub stamps: Vec<MessageStamp>,
}

/// What a [`BotMessageStampsUpdatedPayload`] holds.
pub struct BotMessageStampsUpdatedPayloadView {
    pub event_time: TimeStamp,
    pub message_id: Uuid,
    pub stamps: Seq<MessageStamp>,
}

impl View for BotMessageStampsUpdatedPayload {
    type V = BotMessageStampsUpdatedPayloadView;

    open spec fn view(&self) -> BotMessageStampsUpdatedPayloadView {
        BotMessageStampsUpdatedPayloadView {
            event_time: self.event_time,
            message_id: self.message_id,
            stamps: views(self.stamps@),
        }
    }
}

impl FromJson for BotMessageStampsUpdatedPayload {
    /// An object with the fields `eventTime`, `messageId` and `stamps`.
    open spec fn from_json(json: Json) -> Option<BotMessageStampsUpdatedPayloadView> {
        let event_time = field_from_json::<TimeStamp>(json, "eventTime"@);
        let message_id = field_from_json::<Uuid>(json, "messageId"@);
        let stamps = array_field_from_json::<MessageStamp>(json, "stamps"@);
        if event_time is Some && message_id is Some && stamps is Some {
            Some(
                BotMessageStampsUpdatedPayloadView {
                    event_time: event_time->0,
                    message_id: message_id->0,
                    stamps: stamps->0,
                },
            )
        } else {
            None
        }
    }

    fn decode(value: &serde_json::Value) -> (decoded: Option<BotMessageStampsUpdatedPayload>) {
        let event_time = decode_field::<TimeStamp>(value, "eventTime")?;
        let message_id = decode_field::<Uuid>(value, "messageId")?;
        let stamps = decode_array_field::<MessageStamp>(value, "stamps")?;
        Some(BotMessageStampsUpdatedPayload { event_time, message_id, stamps })
    }
}

impl core::str::FromStr for BotMessageStampsUpdatedPayload {
    type Err = Error;

    /// Reads a `BotMessageStampsUpdatedPayload` from its JSON text; the error is of the kind
    /// `ParseBodyFailed`.
    fn from_str(text: &str) -> (payload: Result<BotMessageStampsUpdatedPayload, Error>)
        ensures
            is_parsed(payload, text_from_json::<BotMessageStampsUpdatedPayload>(text@)),
    {
        parse_text::<BotMessageStampsUpdatedPayload>(text)
    }
}

impl From<DirectMessageCreatedPayload> for MessageCreatedPayload {
    fn from(payload: DirectMessageCreatedPayload) -> (converted: MessageCreatedPayload) {
        MessageCreatedPayload { event_time: payload.event_time, message: payload.message }
    }
}

impl vstd::std_specs::convert::FromSpecImpl<DirectMessageCreatedPayload> for MessageCreatedPayload {
    open spec fn obeys_from_spec() -> bool {
        true
    }

    /// The same fields, under the other name.
    open spec fn from_spec(payload: DirectMessageCreatedPayload) -> MessageCreatedPayload {
        MessageCreatedPayload { event_time: payload.event_time, message: payload.message }
    }
}

impl From<DirectMessageUpdatedPayload> for MessageUpdatedPayload {
    fn from(payload: DirectMessageUpdatedPayload) -> (converted: MessageUpdatedPayload) {
        MessageUpdatedPayload { event_time: payload.event_time, message: payload.message }
    }
}

impl vstd::std_specs::convert::FromSpecImpl<DirectMessageUpdatedPayload> for MessageUpdatedPayload {
    open spec fn obeys_from_spec() -> bool {
        true
    }

    /// The same fields, under the other name.
    open spec fn from_spec(payload: DirectMessageUpdatedPayload) -> MessageUpdatedPayload {
        MessageUpdatedPayload { event_time: payload.event_time, message: payload.message }
    }
}

impl From<MessageCreatedPayload> for DirectMessageCreatedPayload {
    fn from(payload: MessageCreatedPayload) -> (converted: DirectMessageCreatedPayload) {
        DirectMessageCreatedPayload { event_time: payload.event_time, message: payload.message }
    }
}

impl vstd::std_specs::convert::FromSpecImpl<MessageCreatedPayload> for DirectMessageCreatedPayload {
    open spec fn obeys_from_spec() -> bool {
        true
    }

    /// The same fields, under the other name.
    open spec fn from_spec(payload: MessageCreatedPayload) -> DirectMessageCreatedPayload {
        DirectMessageCreatedPayload { event_time: payload.event_time, message: payload.message }
    }
}

impl From<MessageUpdatedPayload> for DirectMessageUpdatedPayload {
    fn from(payload: MessageUpdatedPayload) -> (converted: DirectMessageUpdatedPayload) {
        DirectMessageUpdatedPayload { event_time: payload.event_time, message: payload.message }
    }
}

impl vstd::std_specs::convert::FromSpecImpl<MessageUpdatedPayload> for DirectMessageUpdatedPayload {
    open spec fn obeys_from_spec() -> bool {
        true
    }

    /// The same fields, under the other name.
    open spec fn from_spec(payload: MessageUpdatedPayload) -> DirectMessageUpdatedPayload {
        DirectMessageUpdatedPayload { event_time: payload.event_time, message: payload.message }
    }
}

/// Converting a `MessageCreatedPayload` into a `DirectMessageCreatedPayload`
/// and back gives the value itself, and so does the way from the other side.
/// Each conversion keeps every field.
pub proof fn lemma_message_created_direct_message_created_round_trip(
    a: MessageCreatedPayload,
    b: DirectMessageCreatedPayload,
)
    ensures
        MessageCreatedPayload::from_spec(DirectMessageCreatedPayload::from_spec(a)) == a,
        DirectMessageCreatedPayload::from_spec(MessageCreatedPayload::from_spec(b)) == b,
        DirectMessageCreatedPayload::from_spec(a).event_time == a.event_time,
        DirectMessageCreatedPayload::from_spec(a).message == a.message,
        MessageCreatedPayload::from_spec(b).event_time == b.event_time,
        MessageCreatedPayload::from_spec(b).message == b.message,
{
}

/// Converting a `MessageUpdatedPayload` into a `DirectMessageUpdatedPayload`
/// and back gives the value itself, and so does the way from the other side.
/// Each conversion keeps every field.
pub proof fn lemma_message_updated_direct_message_updated_round_trip(
    a: MessageUpdatedPayload,
    b: DirectMessageUpdatedPayload,
)
    ensures
        MessageUpdatedPayload::from_spec(DirectMessageUpdatedPayload::from_spec(a)) == a,
        DirectMessageUpdatedPayload::from_spec(MessageUpdatedPayload::from_spec(b)) == b,
        DirectMessageUpdatedPayload::from_spec(a).event_time == a.event_time,
        DirectMessageUpdatedPayload::from_spec(a).message == a.message,
        MessageUpdatedPayload::from_spec(b).event_time == b.event_time,
        MessageUpdatedPayload::from_spec(b).message == b.message,
{
}

} // verus!
