//! The payloads of the events about stamps.

use vstd::prelude::*;

use crate::error::Error;
use crate::json::{
    decode_field, field_from_json, FromJson, is_parsed, Json, parse_text, text_from_json,
};
use crate::payloads::types::{TimeStamp, User, UserView, Uuid};

verus! {

/// The payload of `STAMP_CREATED`: a stamp was created.
#[derive(Debug, Clone, PartialEq, Eq)]
pub struct StampCreatedPayload {
    /// When the event happened.
    pub event_time: TimeStamp,
    /// The id of the stamp.
    pub id: Uuid,
    /// The name of the stamp.
    pub name: String,
    /// The id of the file that holds the image of the stamp.
    pub file_id: Uuid,
    /// The user who created the stamp.
    pub creator: User,
}

/// What a [`StampCreatedPayload`] holds.
pub struct StampCreatedPayloadView {
    pub event_time: TimeStamp,
    pub id: Uuid,
    pub name: Seq<char>,
    pub file_id: Uuid,
    pub creator: UserView,
}

impl View for StampCreatedPayload {
    type V = StampCreatedPayloadView;

    open spec fn view(&self) -> StampCreatedPayloadView {
        StampCreatedPayloadView {
            event_time: self.event_time,
            id: self.id,
            name: self.name@,
            file_id: self.file_id,
            creator: self.creator@,
        }
    }
}

impl FromJson for StampCreatedPayload {
    /// An object with the fields `eventTime`, `id`, `name`, `fileId` and `creator`.
    open spec fn from_json(json: Json) -> Option<StampCreatedPayloadView> {
        let event_time = field_from_json::<TimeStamp>(json, "eventTime"@);
        let id = field_from_json::<Uuid>(json, "id"@);
        let name = field_from_json::<String>(json, "name"@);
        let file_id = field_from_json::<Uuid>(json, "fileId"@);
        let creator = field_from_json::<User>(json, "creator"@);
        if event_time is Some && id is Some && name is Some && file_id is Some && creator is Some {
            Some(
                StampCreatedPayloadView {
                    event_time: event_time->0,
                    id: id->0,
                    name: name->0,
                    file_id: file_id->0,
                    creator: creator->0,
                },
            )
        } else {
            None
        }
    }

    fn decode(value: &serde_json::Value) -> (decoded: Option<StampCreatedPayload>) {
        let event_time = decode_field::<TimeStamp>(value, "eventTime")?;
        let id = decode_field::<Uuid>(value, "id")?;
        let name = decode_field::<String>(value, "name")?;
        let file_id = decode_field::<Uuid>(value, "fileId")?;
        let creator = decode_field::<User>(value, "creator")?;
        Some(StampCreatedPayload { event_time, id, name, file_id, creator })
    }
}

impl core::str::FromStr for StampCreatedPayload {
    type Err = Error;

    /// Reads a `StampCreatedPayload` from its JSON text; the error is of the kind
    /// `ParseBodyFailed`.
    fn from_str(text: &str) -> (payload: Result<StampCreatedPayload, Error>)
        ensures
            is_parsed(payload, text_from_json::<StampCreatedPayload>(text@)),
    {
        parse_text::<StampCreatedPayload>(text)
    }
}

} // verus!
