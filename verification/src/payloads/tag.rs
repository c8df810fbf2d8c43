//! The payloads of the events about tags.

use vstd::prelude::*;
use vstd::std_specs::convert::FromSpec;

use crate::error::Error;
use crate::json::{
    decode_field, field_from_json, FromJson, is_parsed, Json, parse_text, text_from_json,
};
use crate::payloads::types::{TimeStamp, Uuid};

verus! {

/// The payload of `TAG_ADDED`: a tag was added to the bot.
#[derive(Debug, Clone, PartialEq, Eq)]
pub struct TagAddedPayload {
    /// When the event happened.
    pub event_time: TimeStamp,
    /// The id of the tag.
    pub tag_id: Uuid,
    /// The name of the tag.
    pub tag: String,
}

/// What a [`TagAddedPayload`] holds.
pub struct TagAddedPayloadView {
    pub event_time: TimeStamp,
    pub tag_id: Uuid,
    pub tag: Seq<char>,
}

impl View for TagAddedPayload {
    type V = TagAddedPayloadView;

    open spec fn view(&self) -> TagAddedPayloadView {
        TagAddedPayloadView { event_time: self.event_time, tag_id: self.tag_id, tag: self.tag@ }
    }
}

impl FromJson for TagAddedPayload {
    /// An object with the fields `eventTime`, `tagId` and `tag`.
    open spec fn from_json(json: Json) -> Option<TagAddedPayloadView> {
        let event_time = field_from_json::<TimeStamp>(json, "eventTime"@);
        let tag_id = field_from_json::<Uuid>(json, "tagId"@);
        let tag = field_from_json::<String>(json, "tag"@);
        if event_time is Some && tag_id is Some && tag is Some {
            Some(TagAddedPayloadView { event_time: event_time->0, tag_id: tag_id->0, tag: tag->0 })
        } else {
            None
        }
    }

    fn decode(value: &serde_json::Value) -> (decoded: Option<TagAddedPayload>) {
        let event_time = decode_field::<TimeStamp>(value, "eventTime")?;
        let tag_id = decode_field::<Uuid>(value, "tagId")?;
        let tag = decode_field::<String>(value, "tag")?;
        Some(TagAddedPayload { event_time, tag_id, tag })
    }
}

impl core::str::FromStr for TagAddedPayload {
    type Err = Error;

    /// Reads a `TagAddedPayload` from its JSON text; the error is of the kind
    /// `ParseBodyFailed`.
    fn from_str(text: &str) -> (payload: Result<TagAddedPayload, Error>)
        ensures
            is_parsed(payload, text_from_json::<TagAddedPayload>(text@)),
    {
        parse_text::<TagAddedPayload>(text)
    }
}

/// The payload of `TAG_REMOVED`: a tag was removed from the bot.
#[derive(Debug, Clone, PartialEq, Eq)]
pub struct TagRemovedPayload {
    /// When the event happened.
    pub event_time: TimeStamp,
    /// The id of the tag.
    pub tag_id: Uuid,
    /// The name of the tag.
    pub tag: String,
}

/// What a [`TagRemovedPayload`] holds.
pub struct TagRemovedPayloadView {
    pub event_time: TimeStamp,
    pub tag_id: Uuid,
    pub tag: Seq<char>,
}

impl View for TagRemovedPayload {
    type V = TagRemovedPayloadView;

    open spec fn view(&self) -> TagRemovedPayloadView {
        TagRemovedPayloadView { event_time: self.event_time, tag_id: self.tag_id, tag: self.tag@ }
    }
}

impl FromJson for TagRemovedPayload {
    /// An object with the fields `eventTime`, `tagId` and `tag`.
    open spec fn from_json(json: Json) -> Option<TagRemovedPayloadView> {
        let event_time = field_from_json::<TimeStamp>(json, "eventTime"@);
        let tag_id = field_from_json::<Uuid>(json, "tagId"@);
        let tag = field_from_json::<String>(json, "tag"@);
        if event_time is Some && tag_id is Some && tag is Some {
            Some(
                TagRemovedPayloadView {
                    event_time: event_time->0,
                    tag_id: tag_id->0,
                    tag: tag->0,
                },
            )
        } else {
            None
        }
    }

    fn decode(value: &serde_json::Value) -> (decoded: Option<TagRemovedPayload>) {
        let event_time = decode_field::<TimeStamp>(value, "eventTime")?;
        let tag_id = decode_field::<Uuid>(value, "tagId")?;
        let tag = decode_field::<String>(value, "tag")?;
        Some(TagRemovedPayload { event_time, tag_id, tag })
    }
}

impl core::str::FromStr for TagRemovedPayload {
    type Err = Error;

    /// Reads a `TagRemovedPayload` from its JSON text; the error is of the kind
    /// `ParseBodyFailed`.
    fn from_str(text: &str) -> (payload: Result<TagRemovedPayload, Error>)
        ensures
            is_parsed(payload, text_from_json::<TagRemovedPayload>(text@)),
    {
        parse_text::<TagRemovedPayload>(text)
    }
}

impl From<TagRemovedPayload> for TagAddedPayload {
    fn from(payload: TagRemovedPayload) -> (converted: TagAddedPayload) {
        TagAddedPayload {
            event_time: payload.event_time,
            tag_id: payload.tag_id,
            tag: payload.tag,
        }
    }
}

impl vstd::std_specs::convert::FromSpecImpl<TagRemovedPayload> for TagAddedPayload {
    open spec fn obeys_from_spec() -> bool {
        true
    }

    /// The same fields, under the other name.
    open spec fn from_spec(payload: TagRemovedPayload) -> TagAddedPayload {
        TagAddedPayload {
            event_time: payload.event_time,
            tag_id: payload.tag_id,
            tag: payload.tag,
        }
    }
}

impl From<TagAddedPayload> for TagRemovedPayload {
    fn from(payload: TagAddedPayload) -> (converted: TagRemovedPayload) {
        TagRemovedPayload {
            event_time: payload.event_time,
            tag_id: payload.tag_id,
            tag: payload.tag,
        }
    }
}

impl vstd::std_specs::convert::FromSpecImpl<TagAddedPayload> for TagRemovedPayload {
    open spec fn obeys_from_spec() -> bool {
        true
    }

    /// The same fields, under the other name.
    open spec fn from_spec(payload: TagAddedPayload) -> TagRemovedPayload {
        TagRemovedPayload {
            event_time: payload.event_time,
            tag_id: payload.tag_id,
            tag: payload.tag,
        }
    }
}

/// Converting a `TagAddedPayload` into a `TagRemovedPayload` and back gives the
/// value itself, and so does the way from the other side. Each conversion keeps
/// every field.
pub proof fn lemma_tag_added_tag_removed_round_trip(a: TagAddedPayload, b: TagRemovedPayload)
    ensures
        TagAddedPayload::from_spec(TagRemovedPayload::from_spec(a)) == a,
        TagRemovedPayload::from_spec(TagAddedPayload::from_spec(b)) == b,
        TagRemovedPayload::from_spec(a).event_time == a.event_time,
        TagRemovedPayload::from_spec(a).tag_id == a.tag_id,
        TagRemovedPayload::from_spec(a).tag == a.tag,
        TagAddedPayload::from_spec(b).event_time == b.event_time,
        TagAddedPayload::from_spec(b).tag_id == b.tag_id,
        TagAddedPayload::from_spec(b).tag == b.tag,
{
}

} // verus!
