//! The records that the payloads are made of.

use vstd::prelude::*;
use vstd::std_specs::convert::FromSpec;

use crate::error::Error;
use crate::json::{
    array_field_from_json, decode_array_field, decode_field, field_from_json, FromJson, is_parsed,
    Json, json_of, parse_text, text_from_json, value_as_str, views,
};

verus! {

/// The instant that `time` reads from a text in the format of RFC 3339, in
/// nanoseconds since 1970-01-01T00:00:00Z, or nothing where `time` does not
/// accept the text.
pub uninterp spec fn rfc3339_unix_nanos(text: Seq<char>) -> Option<i128>;

/// The number that `uuid` reads from a text, or nothing where `uuid` does not
/// accept the text.
pub uninterp spec fn uuid_from_text(text: Seq<char>) -> Option<u128>;

/// `time::OffsetDateTime::parse` with the format `Rfc3339`, followed by
/// `unix_timestamp_nanos`. The result depends on the text alone and goes by
/// the name [`rfc3339_unix_nanos`].
#[verifier::external_body]
fn parse_rfc3339(text: &str) -> (unix_nanos: Option<i128>)
    ensures
        unix_nanos == rfc3339_unix_nanos(text@),
{
    match time::OffsetDateTime::parse(text, &time::format_description::well_known::Rfc3339) {
        Ok(instant) => Some(instant.unix_timestamp_nanos()),
        Err(_) => None,
    }
}

/// `uuid::Uuid::parse_str`, followed by `as_u128`. The result depends on the
/// text alone and goes by the name [`uuid_from_text`].
#[verifier::external_body]
fn parse_uuid(text: &str) -> (value: Option<u128>)
    ensures
        value == uuid_from_text(text@),
{
    match uuid::Uuid::parse_str(text) {
        Ok(id) => Some(id.as_u128()),
        Err(_) => None,
    }
}

/// A point in time. In JSON it is a string in the format of RFC 3339.
#[derive(Debug, Clone, Copy, PartialEq, Eq, Hash, Structural)]
pub struct TimeStamp {
    /// The nanoseconds since 1970-01-01T00:00:00Z.
    pub unix_nanos: i128,
}

impl View for TimeStamp {
    type V = TimeStamp;

    open spec fn view(&self) -> TimeStamp {
        *self
    }
}

impl TimeStamp {
    /// The point in time that a text in the format of RFC 3339 stands for.
    pub open spec fn spec_parse(text: Seq<char>) -> Option<TimeStamp> {
        match rfc3339_unix_nanos(text) {
            Some(unix_nanos) => Some(TimeStamp { unix_nanos }),
            None => None,
        }
    }

    /// Reads a point in time from a text in the format of RFC 3339, such as
    /// `2019-05-07T04:50:48.582586882Z`.
    pub fn parse(text: &str) -> (time: Option<TimeStamp>)
        ensures
            time == TimeStamp::spec_parse(text@),
    {
        let unix_nanos = parse_rfc3339(text)?;
        Some(TimeStamp { unix_nanos })
    }
}

impl FromJson for TimeStamp {
    /// A string in the format of RFC 3339.
    open spec fn from_json(json: Json) -> Option<TimeStamp> {
        match json.as_text() {
            Some(text) => TimeStamp::spec_parse(text),
            None => None,
        }
    }

    fn decode(value: &serde_json::Value) -> (decoded: Option<TimeStamp>) {
        let text = value_as_str(value)?;
        TimeStamp::parse(text)
    }
}

/// A UUID. In JSON it is a string such as
/// `dfdff0c9-5de0-46ee-9721-2525e8bb3d45`.
#[derive(Debug, Clone, Copy, PartialEq, Eq, Hash, Structural)]
pub struct Uuid {
    /// The 128 bits of the UUID, the first byte highest.
    pub value: u128,
}

impl View for Uuid {
    type V = Uuid;

    open spec fn view(&self) -> Uuid {
        *self
    }
}

impl Uuid {
    /// The UUID that a text stands for.
    pub open spec fn spec_parse(text: Seq<char>) -> Option<Uuid> {
        match uuid_from_text(text) {
            Some(value) => Some(Uuid { value }),
            None => None,
        }
    }

    /// Reads a UUID from a text.
    pub fn parse(text: &str) -> (id: Option<Uuid>)
        ensures
            id == Uuid::spec_parse(text@),
    {
        let value = parse_uuid(text)?;
        Some(Uuid { value })
    }
}

impl FromJson for Uuid {
    /// A string that holds a UUID.
    open spec fn from_json(json: Json) -> Option<Uuid> {
        match json.as_text() {
            Some(text) => Uuid::spec_parse(text),
            None => None,
        }
    }

    fn decode(value: &serde_json::Value) -> (decoded: Option<Uuid>) {
        let text = value_as_str(value)?;
        Uuid::parse(text)
    }
}

/// A user.
#[derive(Debug, Clone, PartialEq, Eq)]
pub struct User {
    /// The id of the user.
    pub id: Uuid,
    /// The name of the user.
    pub name: String,
    /// The name that is shown for the user.
    pub display_name: String,
    /// The id of the file that holds the icon of the user.
    pub icon_id: Uuid,
    /// Whether the user is a bot.
    pub bot: bool,
}

/// What a [`User`] holds.
pub struct UserView {
    pub id: Uuid,
    pub name: Seq<char>,
    pub display_name: Seq<char>,
    pub icon_id: Uuid,
    pub bot: bool,
}

impl View for User {
    type V = UserView;

    open spec fn view(&self) -> UserView {
        UserView {
            id: self.id,
            name: self.name@,
            display_name: self.display_name@,
            icon_id: self.icon_id,
            bot: self.bot,
        }
    }
}

impl FromJson for User {
    /// An object with the fields `id`, `name`, `displayName`, `iconId` and `bot`.
    open spec fn from_json(json: Json) -> Option<UserView> {
        let id = field_from_json::<Uuid>(json, "id"@);
        let name = field_from_json::<String>(json, "name"@);
        let display_name = field_from_json::<String>(json, "displayName"@);
        let icon_id = field_from_json::<Uuid>(json, "iconId"@);
        let bot = field_from_json::<bool>(json, "bot"@);
        if id is Some && name is Some && display_name is Some && icon_id is Some && bot is Some {
            Some(
                UserView {
                    id: id->0,
                    name: name->0,
                    display_name: display_name->0,
                    icon_id: icon_id->0,
                    bot: bot->0,
                },
            )
        } else {
            None
        }
    }

    fn decode(value: &serde_json::Value) -> (decoded: Option<User>) {
        let id = decode_field::<Uuid>(value, "id")?;
        let name = decode_field::<String>(value, "name")?;
        let display_name = decode_field::<String>(value, "displayName")?;
        let icon_id = decode_field::<Uuid>(value, "iconId")?;
        let bot = decode_field::<bool>(value, "bot")?;
        Some(User { id, name, display_name, icon_id, bot })
    }
}

impl core::str::FromStr for User {
    type Err = Error;

    /// Reads a `User` from its JSON text; the error is of the kind
    /// `ParseBodyFailed`.
    fn from_str(text: &str) -> (user: Result<User, Error>)
        ensures
            is_parsed(user, text_from_json::<User>(text@)),
    {
        parse_text::<User>(text)
    }
}

/// A channel.
#[derive(Debug, Clone, PartialEq, Eq)]
pub struct Channel {
    /// The id of the channel.
    pub id: Uuid,
    /// The name of the channel.
    pub name: String,
    /// The path of the channel, from the root.
    pub path: String,
    /// The id of the channel above this one.
    pub parent_id: Uuid,
    /// The user who created the channel.
    pub creator: User,
    /// When the channel was created.
    pub created_at: TimeStamp,
    /// When the channel was last changed.
    pub updated_at: TimeStamp,
}

/// What a [`Channel`] holds.
pub struct ChannelView {
    pub id: Uuid,
    pub name: Seq<char>,
    pub path: Seq<char>,
    pub parent_id: Uuid,
    pub creator: UserView,
    pub created_at: TimeStamp,
    pub updated_at: TimeStamp,
}

impl View for Channel {
    type V = ChannelView;

    open spec fn view(&self) -> ChannelView {
        ChannelView {
            id: self.id,
            name: self.name@,
            path: self.path@,
            parent_id: self.parent_id,
            creator: self.creator@,
            created_at: self.created_at,
            updated_at: self.updated_at,
        }
    }
}

impl FromJson for Channel {
    /// An object with the fields `id`, `name`, `path`, `parentId`, `creator`,
    /// `createdAt` and `updatedAt`.
    open spec fn from_json(json: Json) -> Option<ChannelView> {
        let id = field_from_json::<Uuid>(json, "id"@);
        let name = field_from_json::<String>(json, "name"@);
        let path = field_from_json::<String>(json, "path"@);
        let parent_id = field_from_json::<Uuid>(json, "parentId"@);
        let creator = field_from_json::<User>(json, "creator"@);
        let created_at = field_from_json::<TimeStamp>(json, "createdAt"@);
        let updated_at = field_from_json::<TimeStamp>(json, "updatedAt"@);
        if id is Some && name is Some && path is Some && parent_id is Some && creator is Some
            && created_at is Some && updated_at is Some {
            Some(
                ChannelView {
                    id: id->0,
                    name: name->0,
                    path: path->0,
                    parent_id: parent_id->0,
                    creator: creator->0,
                    created_at: created_at->0,
                    updated_at: updated_at->0,
                },
            )
        } else {
            None
        }
    }

    fn decode(value: &serde_json::Value) -> (decoded: Option<Channel>) {
        let id = decode_field::<Uuid>(value, "id")?;
        let name = decode_field::<String>(value, "name")?;
        let path = decode_field::<String>(value, "path")?;
        let parent_id = decode_field::<Uuid>(value, "parentId")?;
        let creator = decode_field::<User>(value, "creator")?;
        let created_at = decode_field::<TimeStamp>(value, "createdAt")?;
        let updated_at = decode_field::<TimeStamp>(value, "updatedAt")?;
        Some(Channel { id, name, path, parent_id, creator, created_at, updated_at })
    }
}

impl core::str::FromStr for Channel {
    type Err = Error;

    /// Reads a `Channel` from its JSON text; the error is of the kind
    /// `ParseBodyFailed`.
    fn from_str(text: &str) -> (channel: Result<Channel, Error>)
        ensures
            is_parsed(channel, text_from_json::<Channel>(text@)),
    {
        parse_text::<Channel>(text)
    }
}

/// Something embedded in the text of a message, such as a mention.
#[derive(Debug, Clone, PartialEq, Eq)]
pub struct EmbeddedInfo {
    /// The text as it is shown.
    pub raw: String,
    /// What is embedded; `type` in JSON.
    pub type_: String,
    /// The id of what is embedded.
    pub id: Uuid,
}

/// What an [`EmbeddedInfo`] holds.
pub struct EmbeddedInfoView {
    pub raw: Seq<char>,
    pub type_: Seq<char>,
    pub id: Uuid,
}

impl View for EmbeddedInfo {
    type V = EmbeddedInfoView;

    open spec fn view(&self) -> EmbeddedInfoView {
        EmbeddedInfoView { raw: self.raw@, type_: self.type_@, id: self.id }
    }
}

impl FromJson for EmbeddedInfo {
    /// An object with the fields `raw`, `type` and `id`.
    open spec fn from_json(json: Json) -> Option<EmbeddedInfoView> {
        let raw = field_from_json::<String>(json, "raw"@);
        let type_ = field_from_json::<String>(json, "type"@);
        let id = field_from_json::<Uuid>(json, "id"@);
        if raw is Some && type_ is Some && id is Some {
            Some(EmbeddedInfoView { raw: raw->0, type_: type_->0, id: id->0 })
        } else {
            None
        }
    }

    fn decode(value: &serde_json::Value) -> (decoded: Option<EmbeddedInfo>) {
        let raw = decode_field::<String>(value, "raw")?;
        let type_ = decode_field::<String>(value, "type")?;
        let id = decode_field::<Uuid>(value, "id")?;
        Some(EmbeddedInfo { raw, type_, id })
    }
}

impl core::str::FromStr for EmbeddedInfo {
    type Err = Error;

    /// Reads an `EmbeddedInfo` from its JSON text; the error is of the kind
    /// `ParseBodyFailed`.
    fn from_str(text: &str) -> (info: Result<EmbeddedInfo, Error>)
        ensures
            is_parsed(info, text_from_json::<EmbeddedInfo>(text@)),
    {
        parse_text::<EmbeddedInfo>(text)
    }
}

/// A message.
#[derive(Debug, Clone, PartialEq, Eq)]
pub struct Message {
    /// The id of the message.
    pub id: Uuid,
    /// The user who posted the message.
    pub user: User,
    /// The id of the channel that the message was posted to.
    pub channel_id: Uuid,
    /// The text of the message, with what is embedded written out.
    pub text: String,
    /// The text of the message as it is shown.
    pub plain_text: String,
    /// What is embedded in the text.
    pub embedded: Vec<EmbeddedInfo>,
    /// When the message was posted.
    pub created_at: TimeStamp,
    /// When the message was last edited.
    pub updated_at: TimeStamp,
}

/// What a [`Message`] holds.
pub struct MessageView {
    pub id: Uuid,
    pub user: UserView,
    pub channel_id: Uuid,
    pub text: Seq<char>,
    pub plain_text: Seq<char>,
    pub embedded: Seq<EmbeddedInfoView>,
    pub created_at: TimeStamp,
    pub updated_at: TimeStamp,
}

impl View for Message {
    type V = MessageView;

    open spec fn view(&self) -> MessageView {
        MessageView {
            id: self.id,
            user: self.user@,
            channel_id: self.channel_id,
            text: self.text@,
            plain_text: self.plain_text@,
            embedded: views(self.embedded@),
            created_at: self.created_at,
            updated_at: self.updated_at,
        }
    }
}

impl FromJson for Message {
    /// An object with the fields `id`, `user`, `channelId`, `text`, `plainText`,
    /// `embedded`, `createdAt` and `updatedAt`.
    open spec fn from_json(json: Json) -> Option<MessageView> {
        let id = field_from_json::<Uuid>(json, "id"@);
        let user = field_from_json::<User>(json, "user"@);
        let channel_id = field_from_json::<Uuid>(json, "channelId"@);
        let text = field_from_json::<String>(json, "text"@);
        let plain_text = field_from_json::<String>(json, "plainText"@);
        let embedded = array_field_from_json::<EmbeddedInfo>(json, "embedded"@);
        let created_at = field_from_json::<TimeStamp>(json, "createdAt"@);
        let updated_at = field_from_json::<TimeStamp>(json, "updatedAt"@);
        if id is Some && user is Some && channel_id is Some && text is Some && plain_text is Some
            && embedded is Some && created_at is Some && updated_at is Some {
            Some(
                MessageView {
                    id: id->0,
                    user: user->0,
                    channel_id: channel_id->0,
                    text: text->0,
                    plain_text: plain_text->0,
                    embedded: embedded->0,
                    created_at: created_at->0,
                    updated_at: updated_at->0,
                },
            )
        } else {
            None
        }
    }

    fn decode(value: &serde_json::Value) -> (decoded: Option<Message>) {
        let id = decode_field::<Uuid>(value, "id")?;
        let user = decode_field::<User>(value, "user")?;
        let channel_id = decode_field::<Uuid>(value, "channelId")?;
        let text = decode_field::<String>(value, "text")?;
        let plain_text = decode_field::<String>(value, "plainText")?;
        let embedded = decode_array_field::<EmbeddedInfo>(value, "embedded")?;
        let created_at = decode_field::<TimeStamp>(value, "createdAt")?;
        let updated_at = decode_field::<TimeStamp>(value, "updatedAt")?;
        Some(Message { id, user, channel_id, text, plain_text, embedded, created_at, updated_at })
    }
}

impl core::str::FromStr for Message {
    type Err = Error;

    /// Reads a `Message` from its JSON text; the error is of the kind
    /// `ParseBodyFailed`.
    fn from_str(text: &str) -> (message: Result<Message, Error>)
        ensures
            is_parsed(message, text_from_json::<Message>(text@)),
    {
        parse_text::<Message>(text)
    }
}

/// A message that was deleted.
#[derive(Debug, Clone, Copy, PartialEq, Eq, Hash)]
pub struct DeletedMessage {
    /// The id of the message.
    pub id: Uuid,
    /// The id of the channel that the message was in.
    pub channel_id: Uuid,
}

impl View for DeletedMessage {
    type V = DeletedMessage;

    open spec fn view(&self) -> DeletedMessage {
        *self
    }
}

impl FromJson for DeletedMessage {
    /// An object with the fields `id` and `channelId`.
    open spec fn from_json(json: Json) -> Option<DeletedMessage> {
        let id = field_from_json::<Uuid>(json, "id"@);
        let channel_id = field_from_json::<Uuid>(json, "channelId"@);
        if id is Some && channel_id is Some {
            Some(DeletedMessage { id: id->0, channel_id: channel_id->0 })
        } else {
            None
        }
    }

    fn decode(value: &serde_json::Value) -> (decoded: Option<DeletedMessage>) {
        let id = decode_field::<Uuid>(value, "id")?;
        let channel_id = decode_field::<Uuid>(value, "channelId")?;
        Some(DeletedMessage { id, channel_id })
    }
}

impl core::str::FromStr for DeletedMessage {
    type Err = Error;

    /// Reads a `DeletedMessage` from its JSON text; the error is of the kind
    /// `ParseBodyFailed`.
    fn from_str(text: &str) -> (message: Result<DeletedMessage, Error>)
        ensures
            is_parsed(message, text_from_json::<DeletedMessage>(text@)),
    {
        parse_text::<DeletedMessage>(text)
    }
}

/// A direct message that was deleted.
#[derive(Debug, Clone, Copy, PartialEq, Eq, Hash)]
pub struct DeletedDirectMessage {
    /// The id of the message.
    pub id: Uuid,
    /// The id of the user who had posted the message.
    pub user_id: Uuid,
    /// The id of the channel that the message was in.
    pub channel_id: Uuid,
}

impl View for DeletedDirectMessage {
    type V = DeletedDirectMessage;

    open spec fn view(&self) -> DeletedDirectMessage {
        *self
    }
}

impl FromJson for DeletedDirectMessage {
    /// An object with the fields `id`, `userId` and `channelId`.
    open spec fn from_json(json: Json) -> Option<DeletedDirectMessage> {
        let id = field_from_json::<Uuid>(json, "id"@);
        let user_id = field_from_json::<Uuid>(json, "userId"@);
        let channel_id = field_from_json::<Uuid>(json, "channelId"@);
        if id is Some && user_id is Some && channel_id is Some {
            Some(
                DeletedDirectMessage {
                    id: id->0,
                    user_id: user_id->0,
                    channel_id: channel_id->0,
                },
            )
        } else {
            None
        }
    }

    fn decode(value: &serde_json::Value) -> (decoded: Option<DeletedDirectMessage>) {
        let id = decode_field::<Uuid>(value, "id")?;
        let user_id = decode_field::<Uuid>(value, "userId")?;
        let channel_id = decode_field::<Uuid>(value, "channelId")?;
        Some(DeletedDirectMessage { id, user_id, channel_id })
    }
}

impl core::str::FromStr for DeletedDirectMessage {
    type Err = Error;

    /// Reads a `DeletedDirectMessage` from its JSON text; the error is of the kind
    /// `ParseBodyFailed`.
    fn from_str(text: &str) -> (message: Result<DeletedDirectMessage, Error>)
        ensures
            is_parsed(message, text_from_json::<DeletedDirectMessage>(text@)),
    {
        parse_text::<DeletedDirectMessage>(text)
    }
}

/// A stamp put on a message.
#[derive(Debug, Clone, Copy, PartialEq, Eq, Hash)]
pub struct MessageStamp {
    /// The id of the stamp.
    pub stamp_id: Uuid,
    /// The id of the user who put the stamp.
    pub user_id: Uuid,
    /// How often the user put the stamp.
    pub count: i32,
    /// When the stamp was first put.
    pub created_at: TimeStamp,
    /// When the stamp was last put.
    pub updated_at: TimeStamp,
}

impl View for MessageStamp {
    type V = MessageStamp;

    open spec fn view(&self) -> MessageStamp {
        *self
    }
}

impl FromJson for MessageStamp {
    /// An object with the fields `stampId`, `userId`, `count`, `createdAt` and
    /// `updatedAt`.
    open spec fn from_json(json: Json) -> Option<MessageStamp> {
        let stamp_id = field_from_json::<Uuid>(json, "stampId"@);
        let user_id = field_from_json::<Uuid>(json, "userId"@);
        let count = field_from_json::<i32>(json, "count"@);
        let created_at = field_from_json::<TimeStamp>(json, "createdAt"@);
        let updated_at = field_from_json::<TimeStamp>(json, "updatedAt"@);
        if stamp_id is Some && user_id is Some && count is Some && created_at is Some
            && updated_at is Some {
            Some(
                MessageStamp {
                    stamp_id: stamp_id->0,
                    user_id: user_id->0,
                    count: count->0,
                    created_at: created_at->0,
                    updated_at: updated_at->0,
                },
            )
        } else {
            None
        }
    }

    fn decode(value: &serde_json::Value) -> (decoded: Option<MessageStamp>) {
        let stamp_id = decode_field::<Uuid>(value, "stampId")?;
        let user_id = decode_field::<Uuid>(value, "userId")?;
        let count = decode_field::<i32>(value, "count")?;
        let created_at = decode_field::<TimeStamp>(value, "createdAt")?;
        let updated_at = decode_field::<TimeStamp>(value, "updatedAt")?;
        Some(MessageStamp { stamp_id, user_id, count, created_at, updated_at })
    }
}

impl core::str::FromStr for MessageStamp {
    type Err = Error;

    /// Reads a `MessageStamp` from its JSON text; the error is of the kind
    /// `ParseBodyFailed`.
    fn from_str(text: &str) -> (stamp: Result<MessageStamp, Error>)
        ensures
            is_parsed(stamp, text_from_json::<MessageStamp>(text@)),
    {
        parse_text::<MessageStamp>(text)
    }
}

/// A member of a user group.
#[derive(Debug, Clone, Copy, PartialEq, Eq, Hash)]
pub struct GroupMember {
    /// The id of the group.
    pub group_id: Uuid,
    /// The id of the user.
    pub user_id: Uuid,
}

impl View for GroupMember {
    type V = GroupMember;

    open spec fn view(&self) -> GroupMember {
        *self
    }
}

impl FromJson for GroupMember {
    /// An object with the fields `groupId` and `userId`.
    open spec fn from_json(json: Json) -> Option<GroupMember> {
        let group_id = field_from_json::<Uuid>(json, "groupId"@);
        let user_id = field_from_json::<Uuid>(json, "userId"@);
        if group_id is Some && user_id is Some {
            Some(GroupMember { group_id: group_id->0, user_id: user_id->0 })
        } else {
            None
        }
    }

    fn decode(value: &serde_json::Value) -> (decoded: Option<GroupMember>) {
        let group_id = decode_field::<Uuid>(value, "groupId")?;
        let user_id = decode_field::<Uuid>(value, "userId")?;
        Some(GroupMember { group_id, user_id })
    }
}

impl core::str::FromStr for GroupMember {
    type Err = Error;

    /// Reads a `GroupMember` from its JSON text; the error is of the kind
    /// `ParseBodyFailed`.
    fn from_str(text: &str) -> (member: Result<GroupMember, Error>)
        ensures
            is_parsed(member, text_from_json::<GroupMember>(text@)),
    {
        parse_text::<GroupMember>(text)
    }
}

/// An administrator of a user group.
#[derive(Debug, Clone, Copy, PartialEq, Eq, Hash)]
pub struct UserGroupAdmin {
    /// The id of the group.
    pub group_id: Uuid,
    /// The id of the user.
    pub user_id: Uuid,
}

impl View for UserGroupAdmin {
    type V = UserGroupAdmin;

    open spec fn view(&self) -> UserGroupAdmin {
        *self
    }
}

impl FromJson for UserGroupAdmin {
    /// An object with the fields `groupId` and `userId`.
    open spec fn from_json(json: Json) -> Option<UserGroupAdmin> {
        let group_id = field_from_json::<Uuid>(json, "groupId"@);
        let user_id = field_from_json::<Uuid>(json, "userId"@);
        if group_id is Some && user_id is Some {
            Some(UserGroupAdmin { group_id: group_id->0, user_id: user_id->0 })
        } else {
            None
        }
    }

    fn decode(value: &serde_json::Value) -> (decoded: Option<UserGroupAdmin>) {
        let group_id = decode_field::<Uuid>(value, "groupId")?;
        let user_id = decode_field::<Uuid>(value, "userId")?;
        Some(UserGroupAdmin { group_id, user_id })
    }
}

impl core::str::FromStr for UserGroupAdmin {
    type Err = Error;

    /// Reads a `UserGroupAdmin` from its JSON text; the error is of the kind
    /// `ParseBodyFailed`.
    fn from_str(text: &str) -> (admin: Result<UserGroupAdmin, Error>)
        ensures
            is_parsed(admin, text_from_json::<UserGroupAdmin>(text@)),
    {
        parse_text::<UserGroupAdmin>(text)
    }
}

/// A member of a user group, with the role held in it.
#[derive(Debug, Clone, PartialEq, Eq)]
pub struct UserGroupMember {
    /// The id of the group.
    pub group_id: Uuid,
    /// The id of the user.
    pub user_id: Uuid,
    /// The role of the user in the group.
    pub role: String,
}

/// What a [`UserGroupMember`] holds.
pub struct UserGroupMemberView {
    pub group_id: Uuid,
    pub user_id: Uuid,
    pub role: Seq<char>,
}

impl View for UserGroupMember {
    type V = UserGroupMemberView;

    open spec fn view(&self) -> UserGroupMemberView {
        UserGroupMemberView { group_id: self.group_id, user_id: self.user_id, role: self.role@ }
    }
}

impl FromJson for UserGroupMember {
    /// An object with the fields `groupId`, `userId` and `role`.
    open spec fn from_json(json: Json) -> Option<UserGroupMemberView> {
        let group_id = field_from_json::<Uuid>(json, "groupId"@);
        let user_id = field_from_json::<Uuid>(json, "userId"@);
        let role = field_from_json::<String>(json, "role"@);
        if group_id is Some && user_id is Some && role is Some {
            Some(UserGroupMemberView { group_id: group_id->0, user_id: user_id->0, role: role->0 })
        } else {
            None
        }
    }

    fn decode(value: &serde_json::Value) -> (decoded: Option<UserGroupMember>) {
        let group_id = decode_field::<Uuid>(value, "groupId")?;
        let user_id = decode_field::<Uuid>(value, "userId")?;
        let role = decode_field::<String>(value, "role")?;
        Some(UserGroupMember { group_id, user_id, role })
    }
}

impl core::str::FromStr for UserGroupMember {
    type Err = Error;

    /// Reads a `UserGroupMember` from its JSON text; the error is of the kind
    /// `ParseBodyFailed`.
    fn from_str(text: &str) -> (member: Result<UserGroupMember, Error>)
        ensures
            is_parsed(member, text_from_json::<UserGroupMember>(text@)),
    {
        parse_text::<UserGroupMember>(text)
    }
}

/// A user group.
#[derive(Debug, Clone, PartialEq, Eq)]
pub struct UserGroup {
    /// The id of the group.
    pub id: Uuid,
    /// The name of the group.
    pub name: String,
    /// What the group is for.
    pub description: String,
    /// The type of the group; `type` in JSON.
    pub type_: String,
    /// The id of the file that holds the icon of the group.
    pub icon: Uuid,
    /// The administrators of the group.
    pub admins: Vec<UserGroupAdmin>,
    /// The members of the group.
    pub members: Vec<UserGroupMember>,
    /// When the group was created.
    pub created_at: TimeStamp,
    /// When the group was last changed.
    pub updated_at: TimeStamp,
}

/// What a [`UserGroup`] holds.
pub struct UserGroupView {
    pub id: Uuid,
    pub name: Seq<char>,
    pub description: Seq<char>,
    pub type_: Seq<char>,
    pub icon: Uuid,
    pub admins: Seq<UserGroupAdmin>,
    pub members: Seq<UserGroupMemberView>,
    pub created_at: TimeStamp,
    pub updated_at: TimeStamp,
}

impl View for UserGroup {
    type V = UserGroupView;

    open spec fn view(&self) -> UserGroupView {
        UserGroupView {
            id: self.id,
            name: self.name@,
            description: self.description@,
            type_: self.type_@,
            icon: self.icon,
            admins: views(self.admins@),
            members: views(self.members@),
            created_at: self.created_at,
            updated_at: self.updated_at,
        }
    }
}

impl FromJson for UserGroup {
    /// An object with the fields `id`, `name`, `description`, `type`, `icon`,
    /// `admins`, `members`, `createdAt` and `updatedAt`.
    open spec fn from_json(json: Json) -> Option<UserGroupView> {
        let id = field_from_json::<Uuid>(json, "id"@);
        let name = field_from_json::<String>(json, "name"@);
        let description = field_from_json::<String>(json, "description"@);
        let type_ = field_from_json::<String>(json, "type"@);
        let icon = field_from_json::<Uuid>(json, "icon"@);
        let admins = array_field_from_json::<UserGroupAdmin>(json, "admins"@);
        let members = array_field_from_json::<UserGroupMember>(json, "members"@);
        let created_at = field_from_json::<TimeStamp>(json, "createdAt"@);
        let updated_at = field_from_json::<TimeStamp>(json, "updatedAt"@);
        if id is Some && name is Some && description is Some && type_ is Some && icon is Some
            && admins is Some && members is Some && created_at is Some && updated_at is Some {
            Some(
                UserGroupView {
                    id: id->0,
                    name: name->0,
                    description: description->0,
                    type_: type_->0,
                    icon: icon->0,
                    admins: admins->0,
                    members: members->0,
                    created_at: created_at->0,
                    updated_at: updated_at->0,
                },
            )
        } else {
            None
        }
    }

    fn decode(value: &serde_json::Value) -> (decoded: Option<UserGroup>) {
        let id = decode_field::<Uuid>(value, "id")?;
        let name = decode_field::<String>(value, "name")?;
        let description = decode_field::<String>(value, "description")?;
        let type_ = decode_field::<String>(value, "type")?;
        let icon = decode_field::<Uuid>(value, "icon")?;
        let admins = decode_array_field::<UserGroupAdmin>(value, "admins")?;
        let members = decode_array_field::<UserGroupMember>(value, "members")?;
        let created_at = decode_field::<TimeStamp>(value, "createdAt")?;
        let updated_at = decode_field::<TimeStamp>(value, "updatedAt")?;
        Some(
            UserGroup {
                id,
                name,
                description,
                type_,
                icon,
                admins,
                members,
                created_at,
                updated_at,
            },
        )
    }
}

impl core::str::FromStr for UserGroup {
    type Err = Error;

    /// Reads a `UserGroup` from its JSON text; the error is of the kind
    /// `ParseBodyFailed`.
    fn from_str(text: &str) -> (group: Result<UserGroup, Error>)
        ensures
            is_parsed(group, text_from_json::<UserGroup>(text@)),
    {
        parse_text::<UserGroup>(text)
    }
}

impl From<UserGroupAdmin> for GroupMember {
    fn from(admin: UserGroupAdmin) -> (converted: GroupMember) {
        GroupMember { group_id: admin.group_id, user_id: admin.user_id }
    }
}

impl vstd::std_specs::convert::FromSpecImpl<UserGroupAdmin> for GroupMember {
    open spec fn obeys_from_spec() -> bool {
        true
    }

    /// The same fields, under the other name.
    open spec fn from_spec(admin: UserGroupAdmin) -> GroupMember {
        GroupMember { group_id: admin.group_id, user_id: admin.user_id }
    }
}

impl From<GroupMember> for UserGroupAdmin {
    fn from(member: GroupMember) -> (converted: UserGroupAdmin) {
        UserGroupAdmin { group_id: member.group_id, user_id: member.user_id }
    }
}

impl vstd::std_specs::convert::FromSpecImpl<GroupMember> for UserGroupAdmin {
    open spec fn obeys_from_spec() -> bool {
        true
    }

    /// The same fields, under the other name.
    open spec fn from_spec(member: GroupMember) -> UserGroupAdmin {
        UserGroupAdmin { group_id: member.group_id, user_id: member.user_id }
    }
}

/// Converting a `GroupMember` into a `UserGroupAdmin` and back gives the value
/// itself, and so does the way from the other side. Each conversion keeps every
/// field.
pub proof fn lemma_group_member_user_group_admin_round_trip(a: GroupMember, b: UserGroupAdmin)
    ensures
        GroupMember::from_spec(UserGroupAdmin::from_spec(a)) == a,
        UserGroupAdmin::from_spec(GroupMember::from_spec(b)) == b,
        UserGroupAdmin::from_spec(a).group_id == a.group_id,
        UserGroupAdmin::from_spec(a).user_id == a.user_id,
        GroupMember::from_spec(b).group_id == b.group_id,
        GroupMember::from_spec(b).user_id == b.user_id,
{
}

} // verus!
