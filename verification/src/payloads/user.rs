//! The payloads of the events about users.

use vstd::prelude::*;

use crate::error::Error;
use crate::json::{
    decode_field, field_from_json, FromJson, is_parsed, Json, parse_text, text_from_json,
};
use crate::payloads::types::{TimeStamp, User, UserView};

verus! {

/// The payload of `USER_CREATED`: a user was created.
#[derive(Debug, Clone, PartialEq, Eq)]
pub struct UserCreatedPayload {
    /// When the event happened.
    pub event_time: TimeStamp,
    /// The user that was created.
    pub user: User,
}

/// What a [`UserCreatedPayload`] holds.
pub struct UserCreatedPayloadView {
    pub event_time: TimeStamp,
    pub user: UserView,
}

impl View for UserCreatedPayload {
    type V = UserCreatedPayloadView;

    open spec fn view(&self) -> UserCreatedPayloadView {
        UserCreatedPayloadView { event_time: self.event_time, user: self.user@ }
    }
}

impl FromJson for UserCreatedPayload {
    /// An object with the fields `eventTime` and `user`.
    open spec fn from_json(json: Json) -> Option<UserCreatedPayloadView> {
        let event_time = field_from_json::<TimeStamp>(json, "eventTime"@);
        let user = field_from_json::<User>(json, "user"@);
        if event_time is Some && user is Some {
            Some(UserCreatedPayloadView { event_time: event_time->0, user: user->0 })
        } else {
            None
        }
    }

    fn decode(value: &serde_json::Value) -> (decoded: Option<UserCreatedPayload>) {
        let event_time = decode_field::<TimeStamp>(value, "eventTime")?;
        let user = decode_field::<User>(value, "user")?;
        Some(UserCreatedPayload { event_time, user })
    }
}

impl core::str::FromStr for UserCreatedPayload {
    type Err = Error;

    /// Reads a `UserCreatedPayload` from its JSON text; the error is of the kind
    /// `ParseBodyFailed`.
    fn from_str(text: &str) -> (payload: Result<UserCreatedPayload, Error>)
        ensures
            is_parsed(payload, text_from_json::<UserCreatedPayload>(text@)),
    {
        parse_text::<UserCreatedPayload>(text)
    }
}

} // verus!
