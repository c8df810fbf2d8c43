//! The payloads of the events about user groups.

use vstd::prelude::*;
use vstd::std_specs::convert::FromSpec;

use crate::error::Error;
use crate::json::{
    decode_field, field_from_json, FromJson, is_parsed, Json, parse_text, text_from_json,
};
use crate::payloads::types::{GroupMember, TimeStamp, UserGroup, UserGroupView, Uuid};

verus! {

/// The payload of `USER_GROUP_CREATED`: a user group was created.
#[derive(Debug, Clone, PartialEq, Eq)]
pub struct UserGroupCreatedPayload {
    /// When the event happened.
    pub event_time: TimeStamp,
    /// The group that was created.
    pub group: UserGroup,
}

/// What a [`UserGroupCreatedPayload`] holds.
pub struct UserGroupCreatedPayloadView {
    pub event_time: TimeStamp,
    pub group: UserGroupView,
}

impl View for UserGroupCreatedPayload {
    type V = UserGroupCreatedPayloadView;

    open spec fn view(&self) -> UserGroupCreatedPayloadView {
        UserGroupCreatedPayloadView { event_time: self.event_time, group: self.group@ }
    }
}

impl FromJson for UserGroupCreatedPayload {
    /// An object with the fields `eventTime` and `group`.
    open spec fn from_json(json: Json) -> Option<UserGroupCreatedPayloadView> {
        let event_time = field_from_json::<TimeStamp>(json, "eventTime"@);
        let group = field_from_json::<UserGroup>(json, "group"@);
        if event_time is Some && group is Some {
            Some(UserGroupCreatedPayloadView { event_time: event_time->0, group: group->0 })
        } else {
            None
        }
    }

    fn decode(value: &serde_json::Value) -> (decoded: Option<UserGroupCreatedPayload>) {
        let event_time = decode_field::<TimeStamp>(value, "eventTime")?;
        let group = decode_field::<UserGroup>(value, "group")?;
        Some(UserGroupCreatedPayload { event_time, group })
    }
}

impl core::str::FromStr for UserGroupCreatedPayload {
    type Err = Error;

    /// Reads a `UserGroupCreatedPayload` from its JSON text; the error is of the kind
    /// `ParseBodyFailed`.
    fn from_str(text: &str) -> (payload: Result<UserGroupCreatedPayload, Error>)
        ensures
            is_parsed(payload, text_from_json::<UserGroupCreatedPayload>(text@)),
    {
        parse_text::<UserGroupCreatedPayload>(text)
    }
}

/// The payload of `USER_GROUP_UPDATED`: a user group was updated.
#[derive(Debug, Clone, Copy, PartialEq, Eq, Hash)]
pub struct UserGroupUpdatedPayload {
    /// When the event happened.
    pub event_time: TimeStamp,
    /// The id of the group.
    pub group_id: Uuid,
}

impl View for UserGroupUpdatedPayload {
    type V = UserGroupUpdatedPayload;

    open spec fn view(&self) -> UserGroupUpdatedPayload {
        *self
    }
}

impl FromJson for UserGroupUpdatedPayload {
    /// An object with the fields `eventTime` and `groupId`.
    open spec fn from_json(json: Json) -> Option<UserGroupUpdatedPayload> {
        let event_time = field_from_json::<TimeStamp>(json, "eventTime"@);
        let group_id = field_from_json::<Uuid>(json, "groupId"@);
        if event_time is Some && group_id is Some {
            Some(UserGroupUpdatedPayload { event_time: event_time->0, group_id: group_id->0 })
        } else {
            None
        }
    }

    fn decode(value: &serde_json::Value) -> (decoded: Option<UserGroupUpdatedPayload>) {
        let event_time = decode_field::<TimeStamp>(value, "eventTime")?;
        let group_id = decode_field::<Uuid>(value, "groupId")?;
        Some(UserGroupUpdatedPayload { event_time, group_id })
    }
}

impl core::str::FromStr for UserGroupUpdatedPayload {
    type Err = Error;

    /// Reads a `UserGroupUpdatedPayload` from its JSON text; the error is of the kind
    /// `ParseBodyFailed`.
    fn from_str(text: &str) -> (payload: Result<UserGroupUpdatedPayload, Error>)
        ensures
            is_parsed(payload, text_from_json::<UserGroupUpdatedPayload>(text@)),
    {
        parse_text::<UserGroupUpdatedPayload>(text)
    }
}

/// The payload of `USER_GROUP_DELETED`: a user group was deleted.
#[derive(Debug, Clone, Copy, PartialEq, Eq, Hash)]
pub struct UserGroupDeletedPayload {
    /// When the event happened.
    pub event_time: TimeStamp,
    /// The id of the group.
    pub group_id: Uuid,
}

impl View for UserGroupDeletedPayload {
    type V = UserGroupDeletedPayload;

    open spec fn view(&self) -> UserGroupDeletedPayload {
        *self
    }
}

impl FromJson for UserGroupDeletedPayload {
    /// An object with the fields `eventTime` and `groupId`.
    open spec fn from_json(json: Json) -> Option<UserGroupDeletedPayload> {
        let event_time = field_from_json::<TimeStamp>(json, "eventTime"@);
        let group_id = field_from_json::<Uuid>(json, "groupId"@);
        if event_time is Some && group_id is Some {
            Some(UserGroupDeletedPayload { event_time: event_time->0, group_id: group_id->0 })
        } else {
            None
        }
    }

    fn decode(value: &serde_json::Value) -> (decoded: Option<UserGroupDeletedPayload>) {
        let event_time = decode_field::<TimeStamp>(value, "eventTime")?;
        let group_id = decode_field::<Uuid>(value, "groupId")?;
        Some(UserGroupDeletedPayload { event_time, group_id })
    }
}

impl core::str::FromStr for UserGroupDeletedPayload {
    type Err = Error;

    /// Reads a `UserGroupDeletedPayload` from its JSON text; the error is of the kind
    /// `ParseBodyFailed`.
    fn from_str(text: &str) -> (payload: Result<UserGroupDeletedPayload, Error>)
        ensures
            is_parsed(payload, text_from_json::<UserGroupDeletedPayload>(text@)),
    {
        parse_text::<UserGroupDeletedPayload>(text)
    }
}

/// The payload of `USER_GROUP_MEMBER_ADDED`: a member was added to a user group.
#[derive(Debug, Clone, Copy, PartialEq, Eq, Hash)]
pub struct UserGroupMemberAddedPayload {
    /// When the event happened.
    pub event_time: TimeStamp,
    /// The group and the user concerned.
    pub group_member: GroupMember,
}

impl View for UserGroupMemberAddedPayload {
    type V = UserGroupMemberAddedPayload;

    open spec fn view(&self) -> UserGroupMemberAddedPayload {
        *self
    }
}

impl FromJson for UserGroupMemberAddedPayload {
    /// An object with the fields `eventTime` and `groupMember`.
    open spec fn from_json(json: Json) -> Option<UserGroupMemberAddedPayload> {
        let event_time = field_from_json::<TimeStamp>(json, "eventTime"@);
        let group_member = field_from_json::<GroupMember>(json, "groupMember"@);
        if event_time is Some && group_member is Some {
            Some(
                UserGroupMemberAddedPayload {
                    event_time: event_time->0,
                    group_member: group_member->0,
                },
            )
        } else {
            None
        }
    }

    fn decode(value: &serde_json::Value) -> (decoded: Option<UserGroupMemberAddedPayload>) {
        let event_time = decode_field::<TimeStamp>(value, "eventTime")?;
        let group_member = decode_field::<GroupMember>(value, "groupMember")?;
        Some(UserGroupMemberAddedPayload { event_time, group_member })
    }
}

impl core::str::FromStr for UserGroupMemberAddedPayload {
    type Err = Error;

    /// Reads a `UserGroupMemberAddedPayload` from its JSON text; the error is of the kind
    /// `ParseBodyFailed`.
    fn from_str(text: &str) -> (payload: Result<UserGroupMemberAddedPayload, Error>)
        ensures
            is_parsed(payload, text_from_json::<UserGroupMemberAddedPayload>(text@)),
    {
        parse_text::<UserGroupMemberAddedPayload>(text)
    }
}

/// The payload of `USER_GROUP_MEMBER_UPDATED`: a member of a user group was updated.
#[derive(Debug, Clone, Copy, PartialEq, Eq, Hash)]
pub struct UserGroupMemberUpdatedPayload {
    /// When the event happened.
    pub event_time: TimeStamp,
    /// The group and the user concerned.
    pub group_member: GroupMember,
}

impl View for UserGroupMemberUpdatedPayload {
    type V = UserGroupMemberUpdatedPayload;

    open spec fn view(&self) -> UserGroupMemberUpdatedPayload {
        *self
    }
}

impl FromJson for UserGroupMemberUpdatedPayload {
    /// An object with the fields `eventTime` and `groupMember`.
    open spec fn from_json(json: Json) -> Option<UserGroupMemberUpdatedPayload> {
        let event_time = field_from_json::<TimeStamp>(json, "eventTime"@);
        let group_member = field_from_json::<GroupMember>(json, "groupMember"@);
        if event_time is Some && group_member is Some {
            Some(
                UserGroupMemberUpdatedPayload {
                    event_time: event_time->0,
                    group_member: group_member->0,
                },
            )
        } else {
            None
        }
    }

    fn decode(value: &serde_json::Value) -> (decoded: Option<UserGroupMemberUpdatedPayload>) {
        let event_time = decode_field::<TimeStamp>(value, "eventTime")?;
        let group_member = decode_field::<GroupMember>(value, "groupMember")?;
        Some(UserGroupMemberUpdatedPayload { event_time, group_member })
    }
}

impl core::str::FromStr for UserGroupMemberUpdatedPayload {
    type Err = Error;

    /// Reads a `UserGroupMemberUpdatedPayload` from its JSON text; the error is of the kind
    /// `ParseBodyFailed`.
    fn from_str(text: &str) -> (payload: Result<UserGroupMemberUpdatedPayload, Error>)
        ensures
            is_parsed(payload, text_from_json::<UserGroupMemberUpdatedPayload>(text@)),
    {
        parse_text::<UserGroupMemberUpdatedPayload>(text)
    }
}

/// The payload of `USER_GROUP_MEMBER_REMOVED`: a member was removed from a user group.
#[derive(Debug, Clone, Copy, PartialEq, Eq, Hash)]
pub struct UserGroupMemberRemovedPayload {
    /// When the event happened.
    pub event_time: TimeStamp,
    /// The group and the user concerned.
    pub group_member: GroupMember,
}

impl View for UserGroupMemberRemovedPayload {
    type V = UserGroupMemberRemovedPayload;

    open spec fn view(&self) -> UserGroupMemberRemovedPayload {
        *self
    }
}

impl FromJson for UserGroupMemberRemovedPayload {
    /// An object with the fields `eventTime` and `groupMember`.
    open spec fn from_json(json: Json) -> Option<UserGroupMemberRemovedPayload> {
        let event_time = field_from_json::<TimeStamp>(json, "eventTime"@);
        let group_member = field_from_json::<GroupMember>(json, "groupMember"@);
        if event_time is Some && group_member is Some {
            Some(
                UserGroupMemberRemovedPayload {
                    event_time: event_time->0,
                    group_member: group_member->0,
                },
            )
        } else {
            None
        }
    }

    fn decode(value: &serde_json::Value) -> (decoded: Option<UserGroupMemberRemovedPayload>) {
        let event_time = decode_field::<TimeStamp>(value, "eventTime")?;
        let group_member = decode_field::<GroupMember>(value, "groupMember")?;
        Some(UserGroupMemberRemovedPayload { event_time, group_member })
    }
}

impl core::str::FromStr for UserGroupMemberRemovedPayload {
    type Err = Error;

    /// Reads a `UserGroupMemberRemovedPayload` from its JSON text; the error is of the kind
    /// `ParseBodyFailed`.
    fn from_str(text: &str) -> (payload: Result<UserGroupMemberRemovedPayload, Error>)
        ensures
            is_parsed(payload, text_from_json::<UserGroupMemberRemovedPayload>(text@)),
    {
        parse_text::<UserGroupMemberRemovedPayload>(text)
    }
}

/// The payload of `USER_GROUP_ADMIN_ADDED`: an administrator was added to a user group.
#[derive(Debug, Clone, Copy, PartialEq, Eq, Hash)]
pub struct UserGroupAdminAddedPayload {
    /// When the event happened.
    pub event_time: TimeStamp,
    /// The group and the user concerned.
    pub group_member: GroupMember,
}

impl View for UserGroupAdminAddedPayload {
    type V = UserGroupAdminAddedPayload;

    open spec fn view(&self) -> UserGroupAdminAddedPayload {
        *self
    }
}

impl FromJson for UserGroupAdminAddedPayload {
    /// An object with the fields `eventTime` and `groupMember`.
    open spec fn from_json(json: Json) -> Option<UserGroupAdminAddedPayload> {
        let event_time = field_from_json::<TimeStamp>(json, "eventTime"@);
        let group_member = field_from_json::<GroupMember>(json, "groupMember"@);
        if event_time is Some && group_member is Some {
            Some(
                UserGroupAdminAddedPayload {
                    event_time: event_time->0,
                    group_member: group_member->0,
                },
            )
        } else {
            None
        }
    }

    fn decode(value: &serde_json::Value) -> (decoded: Option<UserGroupAdminAddedPayload>) {
        let event_time = decode_field::<TimeStamp>(value, "eventTime")?;
        let group_member = decode_field::<GroupMember>(value, "groupMember")?;
        Some(UserGroupAdminAddedPayload { event_time, group_member })
    }
}

impl core::str::FromStr for UserGroupAdminAddedPayload {
    type Err = Error;

    /// Reads a `UserGroupAdminAddedPayload` from its JSON text; the error is of the kind
    /// `ParseBodyFailed`.
    fn from_str(text: &str) -> (payload: Result<UserGroupAdminAddedPayload, Error>)
        ensures
            is_parsed(payload, text_from_json::<UserGroupAdminAddedPayload>(text@)),
    {
        parse_text::<UserGroupAdminAddedPayload>(text)
    }
}

/// The payload of `USER_GROUP_ADMIN_REMOVED`: an administrator was removed from a user group.
#[derive(Debug, Clone, Copy, PartialEq, Eq, Hash)]
pub struct UserGroupAdminRemovedPayload {
    /// When the event happened.
    pub event_time: TimeStamp,
    /// The group and the user concerned.
    pub group_member: GroupMember,
}

impl View for UserGroupAdminRemovedPayload {
    type V = UserGroupAdminRemovedPayload;

    open spec fn view(&self) -> UserGroupAdminRemovedPayload {
        *self
    }
}

impl FromJson for UserGroupAdminRemovedPayload {
    /// An object with the fields `eventTime` and `groupMember`.
    open spec fn from_json(json: Json) -> Option<UserGroupAdminRemovedPayload> {
        let event_time = field_from_json::<TimeStamp>(json, "eventTime"@);
        let group_member = field_from_json::<GroupMember>(json, "groupMember"@);
        if event_time is Some && group_member is Some {
            Some(
                UserGroupAdminRemovedPayload {
                    event_time: event_time->0,
                    group_member: group_member->0,
                },
            )
        } else {
            None
        }
    }

    fn decode(value: &serde_json::Value) -> (decoded: Option<UserGroupAdminRemovedPayload>) {
        let event_time = decode_field::<TimeStamp>(value, "eventTime")?;
        let group_member = decode_field::<GroupMember>(value, "groupMember")?;
        Some(UserGroupAdminRemovedPayload { event_time, group_member })
    }
}

impl core::str::FromStr for UserGroupAdminRemovedPayload {
    type Err = Error;

    /// Reads a `UserGroupAdminRemovedPayload` from its JSON text; the error is of the kind
    /// `ParseBodyFailed`.
    fn from_str(text: &str) -> (payload: Result<UserGroupAdminRemovedPayload, Error>)
        ensures
            is_parsed(payload, text_from_json::<UserGroupAdminRemovedPayload>(text@)),
    {
        parse_text::<UserGroupAdminRemovedPayload>(text)
    }
}

impl From<UserGroupDeletedPayload> for UserGroupUpdatedPayload {
    fn from(payload: UserGroupDeletedPayload) -> (converted: UserGroupUpdatedPayload) {
        UserGroupUpdatedPayload { event_time: payload.event_time, group_id: payload.group_id }
    }
}

impl vstd::std_specs::convert::FromSpecImpl<UserGroupDeletedPayload> for UserGroupUpdatedPayload {
    open spec fn obeys_from_spec() -> bool {
        true
    }

    /// The same fields, under the other name.
    open spec fn from_spec(payload: UserGroupDeletedPayload) -> UserGroupUpdatedPayload {
        UserGroupUpdatedPayload { event_time: payload.event_time, group_id: payload.group_id }
    }
}

impl From<UserGroupUpdatedPayload> for UserGroupDeletedPayload {
    fn from(payload: UserGroupUpdatedPayload) -> (converted: UserGroupDeletedPayload) {
        UserGroupDeletedPayload { event_time: payload.event_time, group_id: payload.group_id }
    }
}

impl vstd::std_specs::convert::FromSpecImpl<UserGroupUpdatedPayload> for UserGroupDeletedPayload {
    open spec fn obeys_from_spec() -> bool {
        true
    }

    /// The same fields, under the other name.
    open spec fn from_spec(payload: UserGroupUpdatedPayload) -> UserGroupDeletedPayload {
        UserGroupDeletedPayload { event_time: payload.event_time, group_id: payload.group_id }
    }
}

impl From<UserGroupMemberUpdatedPayload> for UserGroupMemberAddedPayload {
    fn from(payload: UserGroupMemberUpdatedPayload) -> (converted: UserGroupMemberAddedPayload) {
        UserGroupMemberAddedPayload {
            event_time: payload.event_time,
            group_member: payload.group_member,
        }
    }
}

impl vstd::std_specs::convert::FromSpecImpl<UserGroupMemberUpdatedPayload> for UserGroupMemberAddedPayload {
    open spec fn obeys_from_spec() -> bool {
        true
    }

    /// The same fields, under the other name.
    open spec fn from_spec(payload: UserGroupMemberUpdatedPayload) -> UserGroupMemberAddedPayload {
        UserGroupMemberAddedPayload {
            event_time: payload.event_time,
            group_member: payload.group_member,
        }
    }
}

impl From<UserGroupMemberRemovedPayload> for UserGroupMemberAddedPayload {
    fn from(payload: UserGroupMemberRemovedPayload) -> (converted: UserGroupMemberAddedPayload) {
        UserGroupMemberAddedPayload {
            event_time: payload.event_time,
            group_member: payload.group_member,
        }
    }
}

impl vstd::std_specs::convert::FromSpecImpl<UserGroupMemberRemovedPayload> for UserGroupMemberAddedPayload {
    open spec fn obeys_from_spec() -> bool {
        true
    }

    /// The same fields, under the other name.
    open spec fn from_spec(payload: UserGroupMemberRemovedPayload) -> UserGroupMemberAddedPayload {
        UserGroupMemberAddedPayload {
            event_time: payload.event_time,
            group_member: payload.group_member,
        }
    }
}

impl From<UserGroupAdminAddedPayload> for UserGroupMemberAddedPayload {
    fn from(payload: UserGroupAdminAddedPayload) -> (converted: UserGroupMemberAddedPayload) {
        UserGroupMemberAddedPayload {
            event_time: payload.event_time,
            group_member: payload.group_member,
        }
    }
}

impl vstd::std_specs::convert::FromSpecImpl<UserGroupAdminAddedPayload> for UserGroupMemberAddedPayload {
    open spec fn obeys_from_spec() -> bool {
        true
    }

    /// The same fields, under the other name.
    open spec fn from_spec(payload: UserGroupAdminAddedPayload) -> UserGroupMemberAddedPayload {
        UserGroupMemberAddedPayload {
            event_time: payload.event_time,
            group_member: payload.group_member,
        }
    }
}

impl From<UserGroupMemberAddedPayload> for UserGroupMemberUpdatedPayload {
    fn from(payload: UserGroupMemberAddedPayload) -> (converted: UserGroupMemberUpdatedPayload) {
        UserGroupMemberUpdatedPayload {
            event_time: payload.event_time,
            group_member: payload.group_member,
        }
    }
}

impl vstd::std_specs::convert::FromSpecImpl<UserGroupMemberAddedPayload> for UserGroupMemberUpdatedPayload {
    open spec fn obeys_from_spec() -> bool {
        true
    }

    /// The same fields, under the other name.
    open spec fn from_spec(payload: UserGroupMemberAddedPayload) -> UserGroupMemberUpdatedPayload {
        UserGroupMemberUpdatedPayload {
            event_time: payload.event_time,
            group_member: payload.group_member,
        }
    }
}

impl From<UserGroupMemberRemovedPayload> for UserGroupMemberUpdatedPayload {
    fn from(payload: UserGroupMemberRemovedPayload) -> (converted: UserGroupMemberUpdatedPayload) {
        UserGroupMemberUpdatedPayload {
            event_time: payload.event_time,
            group_member: payload.group_member,
        }
    }
}

impl vstd::std_specs::convert::FromSpecImpl<UserGroupMemberRemovedPayload> for UserGroupMemberUpdatedPayload {
    open spec fn obeys_from_spec() -> bool {
        true
    }

    /// The same fields, under the other name.
    open spec fn from_spec(
        payload: UserGroupMemberRemovedPayload,
    ) -> UserGroupMemberUpdatedPayload {
        UserGroupMemberUpdatedPayload {
            event_time: payload.event_time,
            group_member: payload.group_member,
        }
    }
}

impl From<UserGroupMemberAddedPayload> for UserGroupMemberRemovedPayload {
    fn from(payload: UserGroupMemberAddedPayload) -> (converted: UserGroupMemberRemovedPayload) {
        UserGroupMemberRemovedPayload {
            event_time: payload.event_time,
            group_member: payload.group_member,
        }
    }
}

impl vstd::std_specs::convert::FromSpecImpl<UserGroupMemberAddedPayload> for UserGroupMemberRemovedPayload {
    open spec fn obeys_from_spec() -> bool {
        true
    }

    /// The same fields, under the other name.
    open spec fn from_spec(payload: UserGroupMemberAddedPayload) -> UserGroupMemberRemovedPayload {
        UserGroupMemberRemovedPayload {
            event_time: payload.event_time,
            group_member: payload.group_member,
        }
    }
}

impl From<UserGroupMemberUpdatedPayload> for UserGroupMemberRemovedPayload {
    fn from(payload: UserGroupMemberUpdatedPayload) -> (converted: UserGroupMemberRemovedPayload) {
        UserGroupMemberRemovedPayload {
            event_time: payload.event_time,
            group_member: payload.group_member,
        }
    }
}

impl vstd::std_specs::convert::FromSpecImpl<UserGroupMemberUpdatedPayload> for UserGroupMemberRemovedPayload {
    open spec fn obeys_from_spec() -> bool {
        true
    }

    /// The same fields, under the other name.
    open spec fn from_spec(
        payload: UserGroupMemberUpdatedPayload,
    ) -> UserGroupMemberRemovedPayload {
        UserGroupMemberRemovedPayload {
            event_time: payload.event_time,
            group_member: payload.group_member,
        }
    }
}

impl From<UserGroupAdminRemovedPayload> for UserGroupMemberRemovedPayload {
    fn from(payload: UserGroupAdminRemovedPayload) -> (converted: UserGroupMemberRemovedPayload) {
        UserGroupMemberRemovedPayload {
            event_time: payload.event_time,
            group_member: payload.group_member,
        }
    }
}

impl vstd::std_specs::convert::FromSpecImpl<UserGroupAdminRemovedPayload> for UserGroupMemberRemovedPayload {
    open spec fn obeys_from_spec() -> bool {
        true
    }

    /// The same fields, under the other name.
    open spec fn from_spec(payload: UserGroupAdminRemovedPayload) -> UserGroupMemberRemovedPayload {
        UserGroupMemberRemovedPayload {
            event_time: payload.event_time,
            group_member: payload.group_member,
        }
    }
}

impl From<UserGroupMemberAddedPayload> for UserGroupAdminAddedPayload {
    fn from(payload: UserGroupMemberAddedPayload) -> (converted: UserGroupAdminAddedPayload) {
        UserGroupAdminAddedPayload {
            event_time: payload.event_time,
            group_member: payload.group_member,
        }
    }
}

impl vstd::std_specs::convert::FromSpecImpl<UserGroupMemberAddedPayload> for UserGroupAdminAddedPayload {
    open spec fn obeys_from_spec() -> bool {
        true
    }

    /// The same fields, under the other name.
    open spec fn from_spec(payload: UserGroupMemberAddedPayload) -> UserGroupAdminAddedPayload {
        UserGroupAdminAddedPayload {
            event_time: payload.event_time,
            group_member: payload.group_member,
        }
    }
}

impl From<UserGroupAdminRemovedPayload> for UserGroupAdminAddedPayload {
    fn from(payload: UserGroupAdminRemovedPayload) -> (converted: UserGroupAdminAddedPayload) {
        UserGroupAdminAddedPayload {
            event_time: payload.event_time,
            group_member: payload.group_member,
        }
    }
}

impl vstd::std_specs::convert::FromSpecImpl<UserGroupAdminRemovedPayload> for UserGroupAdminAddedPayload {
    open spec fn obeys_from_spec() -> bool {
        true
    }

    /// The same fields, under the other name.
    open spec fn from_spec(payload: UserGroupAdminRemovedPayload) -> UserGroupAdminAddedPayload {
        UserGroupAdminAddedPayload {
            event_time: payload.event_time,
            group_member: payload.group_member,
        }
    }
}

impl From<UserGroupMemberRemovedPayload> for UserGroupAdminRemovedPayload {
    fn from(payload: UserGroupMemberRemovedPayload) -> (converted: UserGroupAdminRemovedPayload) {
        UserGroupAdminRemovedPayload {
            event_time: payload.event_time,
            group_member: payload.group_member,
        }
    }
}

impl vstd::std_specs::convert::FromSpecImpl<UserGroupMemberRemovedPayload> for UserGroupAdminRemovedPayload {
    open spec fn obeys_from_spec() -> bool {
        true
    }

    /// The same fields, under the other name.
    open spec fn from_spec(payload: UserGroupMemberRemovedPayload) -> UserGroupAdminRemovedPayload {
        UserGroupAdminRemovedPayload {
            event_time: payload.event_time,
            group_member: payload.group_member,
        }
    }
}

impl From<UserGroupAdminAddedPayload> for UserGroupAdminRemovedPayload {
    fn from(payload: UserGroupAdminAddedPayload) -> (converted: UserGroupAdminRemovedPayload) {
        UserGroupAdminRemovedPayload {
            event_time: payload.event_time,
            group_member: payload.group_member,
        }
    }
}

impl vstd::std_specs::convert::FromSpecImpl<UserGroupAdminAddedPayload> for UserGroupAdminRemovedPayload {
    open spec fn obeys_from_spec() -> bool {
        true
    }

    /// The same fields, under the other name.
    open spec fn from_spec(payload: UserGroupAdminAddedPayload) -> UserGroupAdminRemovedPayload {
        UserGroupAdminRemovedPayload {
            event_time: payload.event_time,
            group_member: payload.group_member,
        }
    }
}

/// Converting a `UserGroupUpdatedPayload` into a `UserGroupDeletedPayload` and
/// back gives the value itself, and so does the way from the other side. Each
/// conversion keeps every field.
pub proof fn lemma_user_group_updated_user_group_deleted_round_trip(
    a: UserGroupUpdatedPayload,
    b: UserGroupDeletedPayload,
)
    ensures
        UserGroupUpdatedPayload::from_spec(UserGroupDeletedPayload::from_spec(a)) == a,
        UserGroupDeletedPayload::from_spec(UserGroupUpdatedPayload::from_spec(b)) == b,
        UserGroupDeletedPayload::from_spec(a).event_time == a.event_time,
        UserGroupDeletedPayload::from_spec(a).group_id == a.group_id,
        UserGroupUpdatedPayload::from_spec(b).event_time == b.event_time,
        UserGroupUpdatedPayload::from_spec(b).group_id == b.group_id,
{
}

/// Converting a `UserGroupMemberAddedPayload` into a
/// `UserGroupMemberUpdatedPayload` and back gives the value itself, and so does
/// the way from the other side. Each conversion keeps every field.
pub proof fn lemma_user_group_member_added_user_group_member_updated_round_trip(
    a: UserGroupMemberAddedPayload,
    b: UserGroupMemberUpdatedPayload,
)
    ensures
        UserGroupMemberAddedPayload::from_spec(UserGroupMemberUpdatedPayload::from_spec(a)) == a,
        UserGroupMemberUpdatedPayload::from_spec(UserGroupMemberAddedPayload::from_spec(b)) == b,
        UserGroupMemberUpdatedPayload::from_spec(a).event_time == a.event_time,
        UserGroupMemberUpdatedPayload::from_spec(a).group_member == a.group_member,
        UserGroupMemberAddedPayload::from_spec(b).event_time == b.event_time,
        UserGroupMemberAddedPayload::from_spec(b).group_member == b.group_member,
{
}

/// Converting a `UserGroupMemberAddedPayload` into a
/// `UserGroupMemberRemovedPayload` and back gives the value itself, and so does
/// the way from the other side. Each conversion keeps every field.
pub proof fn lemma_user_group_member_added_user_group_member_removed_round_trip(
    a: UserGroupMemberAddedPayload,
    b: UserGroupMemberRemovedPayload,
)
    ensures
        UserGroupMemberAddedPayload::from_spec(UserGroupMemberRemovedPayload::from_spec(a)) == a,
        UserGroupMemberRemovedPayload::from_spec(UserGroupMemberAddedPayload::from_spec(b)) == b,
        UserGroupMemberRemovedPayload::from_spec(a).event_time == a.event_time,
        UserGroupMemberRemovedPayload::from_spec(a).group_member == a.group_member,
        UserGroupMemberAddedPayload::from_spec(b).event_time == b.event_time,
        UserGroupMemberAddedPayload::from_spec(b).group_member == b.group_member,
{
}

/// Converting a `UserGroupMemberAddedPayload` into a
/// `UserGroupAdminAddedPayload` and back gives the value itself, and so does
/// the way from the other side. Each conversion keeps every field.
pub proof fn lemma_user_group_member_added_user_group_admin_added_round_trip(
    a: UserGroupMemberAddedPayload,
    b: UserGroupAdminAddedPayload,
)
    ensures
        UserGroupMemberAddedPayload::from_spec(UserGroupAdminAddedPayload::from_spec(a)) == a,
        UserGroupAdminAddedPayload::from_spec(UserGroupMemberAddedPayload::from_spec(b)) == b,
        UserGroupAdminAddedPayload::from_spec(a).event_time == a.event_time,
        UserGroupAdminAddedPayload::from_spec(a).group_member == a.group_member,
        UserGroupMemberAddedPayload::from_spec(b).event_time == b.event_time,
        UserGroupMemberAddedPayload::from_spec(b).group_member == b.group_member,
{
}

/// Converting a `UserGroupMemberUpdatedPayload` into a
/// `UserGroupMemberRemovedPayload` and back gives the value itself, and so does
/// the way from the other side. Each conversion keeps every field.
pub proof fn lemma_user_group_member_updated_user_group_member_removed_round_trip(
    a: UserGroupMemberUpdatedPayload,
    b: UserGroupMemberRemovedPayload,
)
    ensures
        UserGroupMemberUpdatedPayload::from_spec(UserGroupMemberRemovedPayload::from_spec(a)) == a,
        UserGroupMemberRemovedPayload::from_spec(UserGroupMemberUpdatedPayload::from_spec(b)) == b,
        UserGroupMemberRemovedPayload::from_spec(a).event_time == a.event_time,
        UserGroupMemberRemovedPayload::from_spec(a).group_member == a.group_member,
        UserGroupMemberUpdatedPayload::from_spec(b).event_time == b.event_time,
        UserGroupMemberUpdatedPayload::from_spec(b).group_member == b.group_member,
{
}

/// Converting a `UserGroupMemberRemovedPayload` into a
/// `UserGroupAdminRemovedPayload` and back gives the value itself, and so does
/// the way from the other side. Each conversion keeps every field.
pub proof fn lemma_user_group_member_removed_user_group_admin_removed_round_trip(
    a: UserGroupMemberRemovedPayload,
    b: UserGroupAdminRemovedPayload,
)
    ensures
        UserGroupMemberRemovedPayload::from_spec(UserGroupAdminRemovedPayload::from_spec(a)) == a,
        UserGroupAdminRemovedPayload::from_spec(UserGroupMemberRemovedPayload::from_spec(b)) == b,
        UserGroupAdminRemovedPayload::from_spec(a).event_time == a.event_time,
        UserGroupAdminRemovedPayload::from_spec(a).group_member == a.group_member,
        UserGroupMemberRemovedPayload::from_spec(b).event_time == b.event_time,
        UserGroupMemberRemovedPayload::from_spec(b).group_member == b.group_member,
{
}

/// Converting a `UserGroupAdminAddedPayload` into a
/// `UserGroupAdminRemovedPayload` and back gives the value itself, and so does
/// the way from the other side. Each conversion keeps every field.
pub proof fn lemma_user_group_admin_added_user_group_admin_removed_round_trip(
    a: UserGroupAdminAddedPayload,
    b: UserGroupAdminRemovedPayload,
)
    ensures
        UserGroupAdminAddedPayload::from_spec(UserGroupAdminRemovedPayload::from_spec(a)) == a,
        UserGroupAdminRemovedPayload::from_spec(UserGroupAdminAddedPayload::from_spec(b)) == b,
        UserGroupAdminRemovedPayload::from_spec(a).event_time == a.event_time,
        UserGroupAdminRemovedPayload::from_spec(a).group_member == a.group_member,
        UserGroupAdminAddedPayload::from_spec(b).event_time == b.event_time,
        UserGroupAdminAddedPayload::from_spec(b).group_member == b.group_member,
{
}

} // verus!
