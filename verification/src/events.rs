//! The events, their kinds, and the names of the kinds on the wire.

use vstd::prelude::*;

use crate::error::{Error, ErrorKind};
use crate::json::{is_decoded, json_of, FromJson, Json};
use crate::payloads::{
    BotMessageStampsUpdatedPayload, BotMessageStampsUpdatedPayloadView, ChannelCreatedPayload,
    ChannelCreatedPayloadView, ChannelTopicChangedPayload, ChannelTopicChangedPayloadView,
    DirectMessageCreatedPayload, DirectMessageCreatedPayloadView, DirectMessageDeletedPayload,
    DirectMessageUpdatedPayload, DirectMessageUpdatedPayloadView, JoinedPayload, JoinedPayloadView,
    LeftPayload, LeftPayloadView, MessageCreatedPayload, MessageCreatedPayloadView,
    MessageDeletedPayload, MessageUpdatedPayload, MessageUpdatedPayloadView, PingPayload,
    StampCreatedPayload, StampCreatedPayloadView, TagAddedPayload, TagAddedPayloadView,
    TagRemovedPayload, TagRemovedPayloadView, UserCreatedPayload, UserCreatedPayloadView,
    UserGroupAdminAddedPayload, UserGroupAdminRemovedPayload, UserGroupCreatedPayload,
    UserGroupCreatedPayloadView, UserGroupDeletedPayload, UserGroupMemberAddedPayload,
    UserGroupMemberRemovedPayload, UserGroupMemberUpdatedPayload, UserGroupUpdatedPayload,
};
use crate::text::str_eq;

verus! {

/// The kind of an event: a closed set, each kind with one name on the wire.
#[derive(Debug, Clone, Copy, PartialEq, Eq, Hash, Structural)]
#[non_exhaustive]
pub enum EventKind {
    /// The connection to the bot is checked.
    Ping,
    /// The bot joined a channel.
    Joined,
    /// The bot left a channel.
    Left,
    /// A message was posted.
    MessageCreated,
    /// A message was deleted.
    MessageDeleted,
    /// A message was edited.
    MessageUpdated,
    /// A direct message was posted.
    DirectMessageCreated,
    /// A direct message was deleted.
    DirectMessageDeleted,
    /// A direct message was edited.
    DirectMessageUpdated,
    /// The stamps on a message of the bot changed.
    BotMessageStampsUpdated,
    /// A channel was created.
    ChannelCreated,
    /// The topic of a channel changed.
    ChannelTopicChanged,
    /// A user was created.
    UserCreated,
    /// A stamp was created.
    StampCreated,
    /// A tag was added to the bot.
    TagAdded,
    /// A tag was removed from the bot.
    TagRemoved,
    /// A user group was created.
    UserGroupCreated,
    /// A user group was updated.
    UserGroupUpdated,
    /// A user group was deleted.
    UserGroupDeleted,
    /// A member was added to a user group.
    UserGroupMemberAdded,
    /// A member of a user group was updated.
    UserGroupMemberUpdated,
    /// A member was removed from a user group.
    UserGroupMemberRemoved,
    /// An administrator was added to a user group.
    UserGroupAdminAdded,
    /// An administrator was removed from a user group.
    UserGroupAdminRemoved,
}

impl EventKind {
    /// The name of this kind on the wire: upper case, words joined by `_`.
    pub open spec fn spec_wire_name(self) -> &'static str {
        match self {
            EventKind::Ping => "PING",
            EventKind::Joined => "JOINED",
            EventKind::Left => "LEFT",
            EventKind::MessageCreated => "MESSAGE_CREATED",
            EventKind::MessageDeleted => "MESSAGE_DELETED",
            EventKind::MessageUpdated => "MESSAGE_UPDATED",
            EventKind::DirectMessageCreated => "DIRECT_MESSAGE_CREATED",
            EventKind::DirectMessageDeleted => "DIRECT_MESSAGE_DELETED",
            EventKind::DirectMessageUpdated => "DIRECT_MESSAGE_UPDATED",
            EventKind::BotMessageStampsUpdated => "BOT_MESSAGE_STAMPS_UPDATED",
            EventKind::ChannelCreated => "CHANNEL_CREATED",
            EventKind::ChannelTopicChanged => "CHANNEL_TOPIC_CHANGED",
            EventKind::UserCreated => "USER_CREATED",
            EventKind::StampCreated => "STAMP_CREATED",
            EventKind::TagAdded => "TAG_ADDED",
            EventKind::TagRemoved => "TAG_REMOVED",
            EventKind::UserGroupCreated => "USER_GROUP_CREATED",
            EventKind::UserGroupUpdated => "USER_GROUP_UPDATED",
            EventKind::UserGroupDeleted => "USER_GROUP_DELETED",
            EventKind::UserGroupMemberAdded => "USER_GROUP_MEMBER_ADDED",
            EventKind::UserGroupMemberUpdated => "USER_GROUP_MEMBER_UPDATED",
            EventKind::UserGroupMemberRemoved => "USER_GROUP_MEMBER_REMOVED",
            EventKind::UserGroupAdminAdded => "USER_GROUP_ADMIN_ADDED",
            EventKind::UserGroupAdminRemoved => "USER_GROUP_ADMIN_REMOVED",
        }
    }

    /// The kind that `name` is the wire name of, if there is one. The
    /// comparison is exact: case matters.
    pub open spec fn spec_from_wire_name(name: Seq<char>) -> Option<EventKind> {
        if exists|kind: EventKind| #[trigger] kind.spec_wire_name()@ == name {
            Some(choose|kind: EventKind| #[trigger] kind.spec_wire_name()@ == name)
        } else {
            None
        }
    }

    /// The name of this kind on the wire.
    #[verifier::when_used_as_spec(spec_wire_name)]
    pub fn wire_name(self) -> (name: &'static str)
        ensures
            name == self.spec_wire_name(),
    {
        match self {
            EventKind::Ping => "PING",
            EventKind::Joined => "JOINED",
            EventKind::Left => "LEFT",
            EventKind::MessageCreated => "MESSAGE_CREATED",
            EventKind::MessageDeleted => "MESSAGE_DELETED",
            EventKind::MessageUpdated => "MESSAGE_UPDATED",
            EventKind::DirectMessageCreated => "DIRECT_MESSAGE_CREATED",
            EventKind::DirectMessageDeleted => "DIRECT_MESSAGE_DELETED",
            EventKind::DirectMessageUpdated => "DIRECT_MESSAGE_UPDATED",
            EventKind::BotMessageStampsUpdated => "BOT_MESSAGE_STAMPS_UPDATED",
            EventKind::ChannelCreated => "CHANNEL_CREATED",
            EventKind::ChannelTopicChanged => "CHANNEL_TOPIC_CHANGED",
            EventKind::UserCreated => "USER_CREATED",
            EventKind::StampCreated => "STAMP_CREATED",
            EventKind::TagAdded => "TAG_ADDED",
            EventKind::TagRemoved => "TAG_REMOVED",
            EventKind::UserGroupCreated => "USER_GROUP_CREATED",
            EventKind::UserGroupUpdated => "USER_GROUP_UPDATED",
            EventKind::UserGroupDeleted => "USER_GROUP_DELETED",
            EventKind::UserGroupMemberAdded => "USER_GROUP_MEMBER_ADDED",
            EventKind::UserGroupMemberUpdated => "USER_GROUP_MEMBER_UPDATED",
            EventKind::UserGroupMemberRemoved => "USER_GROUP_MEMBER_REMOVED",
            EventKind::UserGroupAdminAdded => "USER_GROUP_ADMIN_ADDED",
            EventKind::UserGroupAdminRemoved => "USER_GROUP_ADMIN_REMOVED",
        }
    }

    /// The name of this kind on the wire, as an owned string.
    pub fn to_string(&self) -> (name: String)
        ensures
            name@ == self.wire_name()@,
    {
        self.wire_name().to_owned()
    }

    /// The kind with the wire name `name`; `BotEventMismatch` where no kind
    /// has that name.
    pub fn from_wire_name(name: &str) -> (kind: Result<EventKind, Error>)
        ensures
            match EventKind::spec_from_wire_name(name@) {
                Some(k) => kind == Ok::<EventKind, Error>(k),
                None => kind matches Err(e) && e@ == ErrorKind::BotEventMismatch,
            },
    {
        proof {
            lemma_wire_names_distinct();
        }
        if str_eq(name, "PING") {
            assert(EventKind::Ping.spec_wire_name()@ == name@);
            Ok(EventKind::Ping)
        } else if str_eq(name, "JOINED") {
            assert(EventKind::Joined.spec_wire_name()@ == name@);
            Ok(EventKind::Joined)
        } else if str_eq(name, "LEFT") {
            assert(EventKind::Left.spec_wire_name()@ == name@);
            Ok(EventKind::Left)
        } else if str_eq(name, "MESSAGE_CREATED") {
            assert(EventKind::MessageCreated.spec_wire_name()@ == name@);
            Ok(EventKind::MessageCreated)
        } else if str_eq(name, "MESSAGE_DELETED") {
            assert(EventKind::MessageDeleted.spec_wire_name()@ == name@);
            Ok(EventKind::MessageDeleted)
        } else if str_eq(name, "MESSAGE_UPDATED") {
            assert(EventKind::MessageUpdated.spec_wire_name()@ == name@);
            Ok(EventKind::MessageUpdated)
        } else if str_eq(name, "DIRECT_MESSAGE_CREATED") {
            assert(EventKind::DirectMessageCreated.spec_wire_name()@ == name@);
            Ok(EventKind::DirectMessageCreated)
        } else if str_eq(name, "DIRECT_MESSAGE_DELETED") {
            assert(EventKind::DirectMessageDeleted.spec_wire_name()@ == name@);
            Ok(EventKind::DirectMessageDeleted)
        } else if str_eq(name, "DIRECT_MESSAGE_UPDATED") {
            assert(EventKind::DirectMessageUpdated.spec_wire_name()@ == name@);
            Ok(EventKind::DirectMessageUpdated)
        } else if str_eq(name, "BOT_MESSAGE_STAMPS_UPDATED") {
            assert(EventKind::BotMessageStampsUpdated.spec_wire_name()@ == name@);
            Ok(EventKind::BotMessageStampsUpdated)
        } else if str_eq(name, "CHANNEL_CREATED") {
            assert(EventKind::ChannelCreated.spec_wire_name()@ == name@);
            Ok(EventKind::ChannelCreated)
        } else if str_eq(name, "CHANNEL_TOPIC_CHANGED") {
            assert(EventKind::ChannelTopicChanged.spec_wire_name()@ == name@);
            Ok(EventKind::ChannelTopicChanged)
        } else if str_eq(name, "USER_CREATED") {
            assert(EventKind::UserCreated.spec_wire_name()@ == name@);
            Ok(EventKind::UserCreated)
        } else if str_eq(name, "STAMP_CREATED") {
            assert(EventKind::StampCreated.spec_wire_name()@ == name@);
            Ok(EventKind::StampCreated)
        } else if str_eq(name, "TAG_ADDED") {
            assert(EventKind::TagAdded.spec_wire_name()@ == name@);
            Ok(EventKind::TagAdded)
        } else if str_eq(name, "TAG_REMOVED") {
            assert(EventKind::TagRemoved.spec_wire_name()@ == name@);
            Ok(EventKind::TagRemoved)
        } else if str_eq(name, "USER_GROUP_CREATED") {
            assert(EventKind::UserGroupCreated.spec_wire_name()@ == name@);
            Ok(EventKind::UserGroupCreated)
        } else if str_eq(name, "USER_GROUP_UPDATED") {
            assert(EventKind::UserGroupUpdated.spec_wire_name()@ == name@);
            Ok(EventKind::UserGroupUpdated)
        } else if str_eq(name, "USER_GROUP_DELETED") {
            assert(EventKind::UserGroupDeleted.spec_wire_name()@ == name@);
            Ok(EventKind::UserGroupDeleted)
        } else if str_eq(name, "USER_GROUP_MEMBER_ADDED") {
            assert(EventKind::UserGroupMemberAdded.spec_wire_name()@ == name@);
            Ok(EventKind::UserGroupMemberAdded)
        } else if str_eq(name, "USER_GROUP_MEMBER_UPDATED") {
            assert(EventKind::UserGroupMemberUpdated.spec_wire_name()@ == name@);
            Ok(EventKind::UserGroupMemberUpdated)
        } else if str_eq(name, "USER_GROUP_MEMBER_REMOVED") {
            assert(EventKind::UserGroupMemberRemoved.spec_wire_name()@ == name@);
            Ok(EventKind::UserGroupMemberRemoved)
        } else if str_eq(name, "USER_GROUP_ADMIN_ADDED") {
            assert(EventKind::UserGroupAdminAdded.spec_wire_name()@ == name@);
            Ok(EventKind::UserGroupAdminAdded)
        } else if str_eq(name, "USER_GROUP_ADMIN_REMOVED") {
            assert(EventKind::UserGroupAdminRemoved.spec_wire_name()@ == name@);
            Ok(EventKind::UserGroupAdminRemoved)
        } else {
            assert forall|kind: EventKind| #[trigger] kind.spec_wire_name()@ != name@ by {}
            Err(Error::new(ErrorKind::BotEventMismatch))
        }
    }
}

impl core::str::FromStr for EventKind {
    type Err = Error;

    /// Reads a kind from its wire name, as [`EventKind::from_wire_name`]
    /// does.
    fn from_str(name: &str) -> (kind: Result<EventKind, Error>)
        ensures
            match EventKind::spec_from_wire_name(name@) {
                Some(k) => kind == Ok::<EventKind, Error>(k),
                None => kind matches Err(e) && e@ == ErrorKind::BotEventMismatch,
            },
    {
        EventKind::from_wire_name(name)
    }
}

/// No two kinds share a wire name.
pub proof fn lemma_wire_names_distinct()
    ensures
        forall|a: EventKind, b: EventKind|
            #[trigger] a.spec_wire_name()@ == #[trigger] b.spec_wire_name()@ ==> a == b,
{
    reveal_strlit("PING");
    reveal_strlit("JOINED");
    reveal_strlit("LEFT");
    reveal_strlit("MESSAGE_CREATED");
    reveal_strlit("MESSAGE_DELETED");
    reveal_strlit("MESSAGE_UPDATED");
    reveal_strlit("DIRECT_MESSAGE_CREATED");
    reveal_strlit("DIRECT_MESSAGE_DELETED");
    reveal_strlit("DIRECT_MESSAGE_UPDATED");
    reveal_strlit("BOT_MESSAGE_STAMPS_UPDATED");
    reveal_strlit("CHANNEL_CREATED");
    reveal_strlit("CHANNEL_TOPIC_CHANGED");
    reveal_strlit("USER_CREATED");
    reveal_strlit("STAMP_CREATED");
    reveal_strlit("TAG_ADDED");
    reveal_strlit("TAG_REMOVED");
    reveal_strlit("USER_GROUP_CREATED");
    reveal_strlit("USER_GROUP_UPDATED");
    reveal_strlit("USER_GROUP_DELETED");
    reveal_strlit("USER_GROUP_MEMBER_ADDED");
    reveal_strlit("USER_GROUP_MEMBER_UPDATED");
    reveal_strlit("USER_GROUP_MEMBER_REMOVED");
    reveal_strlit("USER_GROUP_ADMIN_ADDED");
    reveal_strlit("USER_GROUP_ADMIN_REMOVED");
    assert forall|a: EventKind, b: EventKind|
        #[trigger] a.spec_wire_name()@ == #[trigger] b.spec_wire_name()@ implies a == b by {
        // Two names of the same length differ in one of these places.
        let s = a.spec_wire_name()@;
        let t = b.spec_wire_name()@;
        assert(s.len() == t.len());
        assert(s[0] == t[0]);
        assert(s[8] == t[8]);
        assert(s[11] == t[11]);
        assert(s[15] == t[15]);
        assert(s[18] == t[18]);
    }
}

/// Reading the wire name of a kind gives that kind back.
pub proof fn lemma_wire_name_round_trip(kind: EventKind)
    ensures
        EventKind::spec_from_wire_name(kind.spec_wire_name()@) == Some(kind),
{
    lemma_wire_names_distinct();
}

/// A text that is the wire name of no kind is read as no kind.
pub proof fn lemma_unknown_wire_name(name: Seq<char>)
    requires
        forall|kind: EventKind| #[trigger] kind.spec_wire_name()@ != name,
    ensures
        EventKind::spec_from_wire_name(name) is None,
{
}

/// An event: the payload of a request, under the kind of the event.
#[derive(Debug, Clone, PartialEq, Eq)]
#[non_exhaustive]
pub enum Event {
    /// The connection to the bot is checked.
    Ping(PingPayload),
    /// The bot joined a channel.
    Joined(JoinedPayload),
    /// The bot left a channel.
    Left(LeftPayload),
    /// A message was posted.
    MessageCreated(MessageCreatedPayload),
    /// A message was deleted.
    MessageDeleted(MessageDeletedPayload),
    /// A message was edited.
    MessageUpdated(MessageUpdatedPayload),
    /// A direct message was posted.
    DirectMessageCreated(DirectMessageCreatedPayload),
    /// A direct message was deleted.
    DirectMessageDeleted(DirectMessageDeletedPayload),
    /// A direct message was edited.
    DirectMessageUpdated(DirectMessageUpdatedPayload),
    /// The stamps on a message of the bot changed.
    BotMessageStampsUpdated(BotMessageStampsUpdatedPayload),
    /// A channel was created.
    ChannelCreated(ChannelCreatedPayload),
    /// The topic of a channel changed.
    ChannelTopicChanged(ChannelTopicChangedPayload),
    /// A user was created.
    UserCreated(UserCreatedPayload),
    /// A stamp was created.
    StampCreated(StampCreatedPayload),
    /// A tag was added to the bot.
    TagAdded(TagAddedPayload),
    /// A tag was removed from the bot.
    TagRemoved(TagRemovedPayload),
    /// A user group was created.
    UserGroupCreated(UserGroupCreatedPayload),
    /// A user group was updated.
    UserGroupUpdated(UserGroupUpdatedPayload),
    /// A user group was deleted.
    UserGroupDeleted(UserGroupDeletedPayload),
    /// A member was added to a user group.
    UserGroupMemberAdded(UserGroupMemberAddedPayload),
    /// A member of a user group was updated.
    UserGroupMemberUpdated(UserGroupMemberUpdatedPayload),
    /// A member was removed from a user group.
    UserGroupMemberRemoved(UserGroupMemberRemovedPayload),
    /// An administrator was added to a user group.
    UserGroupAdminAdded(UserGroupAdminAddedPayload),
    /// An administrator was removed from a user group.
    UserGroupAdminRemoved(UserGroupAdminRemovedPayload),
}

/// What an [`Event`] holds.
pub enum EventView {
    Ping(PingPayload),
    Joined(JoinedPayloadView),
    Left(LeftPayloadView),
    MessageCreated(MessageCreatedPayloadView),
    MessageDeleted(MessageDeletedPayload),
    MessageUpdated(MessageUpdatedPayloadView),
    DirectMessageCreated(DirectMessageCreatedPayloadView),
    DirectMessageDeleted(DirectMessageDeletedPayload),
    DirectMessageUpdated(DirectMessageUpdatedPayloadView),
    BotMessageStampsUpdated(BotMessageStampsUpdatedPayloadView),
    ChannelCreated(ChannelCreatedPayloadView),
    ChannelTopicChanged(ChannelTopicChangedPayloadView),
    UserCreated(UserCreatedPayloadView),
    StampCreated(StampCreatedPayloadView),
    TagAdded(TagAddedPayloadView),
    TagRemoved(TagRemovedPayloadView),
    UserGroupCreated(UserGroupCreatedPayloadView),
    UserGroupUpdated(UserGroupUpdatedPayload),
    UserGroupDeleted(UserGroupDeletedPayload),
    UserGroupMemberAdded(UserGroupMemberAddedPayload),
    UserGroupMemberUpdated(UserGroupMemberUpdatedPayload),
    UserGroupMemberRemoved(UserGroupMemberRemovedPayload),
    UserGroupAdminAdded(UserGroupAdminAddedPayload),
    UserGroupAdminRemoved(UserGroupAdminRemovedPayload),
}

impl EventView {
    /// The kind of the event: the one that its variant is named after.
    pub open spec fn kind(self) -> EventKind {
        match self {
            EventView::Ping(_) => EventKind::Ping,
            EventView::Joined(_) => EventKind::Joined,
            EventView::Left(_) => EventKind::Left,
            EventView::MessageCreated(_) => EventKind::MessageCreated,
            EventView::MessageDeleted(_) => EventKind::MessageDeleted,
            EventView::MessageUpdated(_) => EventKind::MessageUpdated,
            EventView::DirectMessageCreated(_) => EventKind::DirectMessageCreated,
            EventView::DirectMessageDeleted(_) => EventKind::DirectMessageDeleted,
            EventView::DirectMessageUpdated(_) => EventKind::DirectMessageUpdated,
            EventView::BotMessageStampsUpdated(_) => EventKind::BotMessageStampsUpdated,
            EventView::ChannelCreated(_) => EventKind::ChannelCreated,
            EventView::ChannelTopicChanged(_) => EventKind::ChannelTopicChanged,
            EventView::UserCreated(_) => EventKind::UserCreated,
            EventView::StampCreated(_) => EventKind::StampCreated,
            EventView::TagAdded(_) => EventKind::TagAdded,
            EventView::TagRemoved(_) => EventKind::TagRemoved,
            EventView::UserGroupCreated(_) => EventKind::UserGroupCreated,
            EventView::UserGroupUpdated(_) => EventKind::UserGroupUpdated,
            EventView::UserGroupDeleted(_) => EventKind::UserGroupDeleted,
            EventView::UserGroupMemberAdded(_) => EventKind::UserGroupMemberAdded,
            EventView::UserGroupMemberUpdated(_) => EventKind::UserGroupMemberUpdated,
            EventView::UserGroupMemberRemoved(_) => EventKind::UserGroupMemberRemoved,
            EventView::UserGroupAdminAdded(_) => EventKind::UserGroupAdminAdded,
            EventView::UserGroupAdminRemoved(_) => EventKind::UserGroupAdminRemoved,
        }
    }
}

impl View for Event {
    type V = EventView;

    open spec fn view(&self) -> EventView {
        match self {
            Event::Ping(payload) => EventView::Ping(payload@),
            Event::Joined(payload) => EventView::Joined(payload@),
            Event::Left(payload) => EventView::Left(payload@),
            Event::MessageCreated(payload) => EventView::MessageCreated(payload@),
            Event::MessageDeleted(payload) => EventView::MessageDeleted(payload@),
            Event::MessageUpdated(payload) => EventView::MessageUpdated(payload@),
            Event::DirectMessageCreated(payload) => EventView::DirectMessageCreated(payload@),
            Event::DirectMessageDeleted(payload) => EventView::DirectMessageDeleted(payload@),
            Event::DirectMessageUpdated(payload) => EventView::DirectMessageUpdated(payload@),
            Event::BotMessageStampsUpdated(payload) => EventView::BotMessageStampsUpdated(payload@),
            Event::ChannelCreated(payload) => EventView::ChannelCreated(payload@),
            Event::ChannelTopicChanged(payload) => EventView::ChannelTopicChanged(payload@),
            Event::UserCreated(payload) => EventView::UserCreated(payload@),
            Event::StampCreated(payload) => EventView::StampCreated(payload@),
            Event::TagAdded(payload) => EventView::TagAdded(payload@),
            Event::TagRemoved(payload) => EventView::TagRemoved(payload@),
            Event::UserGroupCreated(payload) => EventView::UserGroupCreated(payload@),
            Event::UserGroupUpdated(payload) => EventView::UserGroupUpdated(payload@),
            Event::UserGroupDeleted(payload) => EventView::UserGroupDeleted(payload@),
            Event::UserGroupMemberAdded(payload) => EventView::UserGroupMemberAdded(payload@),
            Event::UserGroupMemberUpdated(payload) => EventView::UserGroupMemberUpdated(payload@),
            Event::UserGroupMemberRemoved(payload) => EventView::UserGroupMemberRemoved(payload@),
            Event::UserGroupAdminAdded(payload) => EventView::UserGroupAdminAdded(payload@),
            Event::UserGroupAdminRemoved(payload) => EventView::UserGroupAdminRemoved(payload@),
        }
    }
}

impl Event {
    /// The kind of this event: the one that its variant is named after.
    pub open spec fn spec_kind(&self) -> EventKind {
        self@.kind()
    }

    /// The event of the given kind that a JSON value describes: the payload
    /// of that kind, where the value describes one.
    pub open spec fn from_json(kind: EventKind, json: Json) -> Option<EventView> {
        match kind {
            EventKind::Ping => {
                match PingPayload::from_json(json) {
                    Some(payload) => Some(EventView::Ping(payload)),
                    None => None,
                }
            },
            EventKind::Joined => {
                match JoinedPayload::from_json(json) {
                    Some(payload) => Some(EventView::Joined(payload)),
                    None => None,
                }
            },
            EventKind::Left => {
                match LeftPayload::from_json(json) {
                    Some(payload) => Some(EventView::Left(payload)),
                    None => None,
                }
            },
            EventKind::MessageCreated => {
                match MessageCreatedPayload::from_json(json) {
                    Some(payload) => Some(EventView::MessageCreated(payload)),
                    None => None,
                }
            },
            EventKind::MessageDeleted => {
                match MessageDeletedPayload::from_json(json) {
                    Some(payload) => Some(EventView::MessageDeleted(payload)),
                    None => None,
                }
            },
            EventKind::MessageUpdated => {
                match MessageUpdatedPayload::from_json(json) {
                    Some(payload) => Some(EventView::MessageUpdated(payload)),
                    None => None,
                }
            },
            EventKind::DirectMessageCreated => {
                match DirectMessageCreatedPayload::from_json(json) {
                    Some(payload) => Some(EventView::DirectMessageCreated(payload)),
                    None => None,
                }
            },
            EventKind::DirectMessageDeleted => {
                match DirectMessageDeletedPayload::from_json(json) {
                    Some(payload) => Some(EventView::DirectMessageDeleted(payload)),
                    None => None,
                }
            },
            EventKind::DirectMessageUpdated => {
                match DirectMessageUpdatedPayload::from_json(json) {
                    Some(payload) => Some(EventView::DirectMessageUpdated(payload)),
                    None => None,
                }
            },
            EventKind::BotMessageStampsUpdated => {
                match BotMessageStampsUpdatedPayload::from_json(json) {
                    Some(payload) => Some(EventView::BotMessageStampsUpdated(payload)),
                    None => None,
                }
            },
            EventKind::ChannelCreated => {
                match ChannelCreatedPayload::from_json(json) {
                    Some(payload) => Some(EventView::ChannelCreated(payload)),
                    None => None,
                }
            },
            EventKind::ChannelTopicChanged => {
                match ChannelTopicChangedPayload::from_json(json) {
                    Some(payload) => Some(EventView::ChannelTopicChanged(payload)),
                    None => None,
                }
            },
            EventKind::UserCreated => {
                match UserCreatedPayload::from_json(json) {
                    Some(payload) => Some(EventView::UserCreated(payload)),
                    None => None,
                }
            },
            EventKind::StampCreated => {
                match StampCreatedPayload::from_json(json) {
                    Some(payload) => Some(EventView::StampCreated(payload)),
                    None => None,
                }
            },
            EventKind::TagAdded => {
                match TagAddedPayload::from_json(json) {
                    Some(payload) => Some(EventView::TagAdded(payload)),
                    None => None,
                }
            },
            EventKind::TagRemoved => {
                match TagRemovedPayload::from_json(json) {
                    Some(payload) => Some(EventView::TagRemoved(payload)),
                    None => None,
                }
            },
            EventKind::UserGroupCreated => {
                match UserGroupCreatedPayload::from_json(json) {
                    Some(payload) => Some(EventView::UserGroupCreated(payload)),
                    None => None,
                }
            },
            EventKind::UserGroupUpdated => {
                match UserGroupUpdatedPayload::from_json(json) {
                    Some(payload) => Some(EventView::UserGroupUpdated(payload)),
                    None => None,
                }
            },
            EventKind::UserGroupDeleted => {
                match UserGroupDeletedPayload::from_json(json) {
                    Some(payload) => Some(EventView::UserGroupDeleted(payload)),
                    None => None,
                }
            },
            EventKind::UserGroupMemberAdded => {
                match UserGroupMemberAddedPayload::from_json(json) {
                    Some(payload) => Some(EventView::UserGroupMemberAdded(payload)),
                    None => None,
                }
            },
            EventKind::UserGroupMemberUpdated => {
                match UserGroupMemberUpdatedPayload::from_json(json) {
                    Some(payload) => Some(EventView::UserGroupMemberUpdated(payload)),
                    None => None,
                }
            },
            EventKind::UserGroupMemberRemoved => {
                match UserGroupMemberRemovedPayload::from_json(json) {
                    Some(payload) => Some(EventView::UserGroupMemberRemoved(payload)),
                    None => None,
                }
            },
            EventKind::UserGroupAdminAdded => {
                match UserGroupAdminAddedPayload::from_json(json) {
                    Some(payload) => Some(EventView::UserGroupAdminAdded(payload)),
                    None => None,
                }
            },
            EventKind::UserGroupAdminRemoved => {
                match UserGroupAdminRemovedPayload::from_json(json) {
                    Some(payload) => Some(EventView::UserGroupAdminRemoved(payload)),
                    None => None,
                }
            },
        }
    }

    /// The kind of this event.
    #[verifier::when_used_as_spec(spec_kind)]
    pub fn kind(&self) -> (kind: EventKind)
        ensures
            kind == self.spec_kind(),
    {
        match self {
            Event::Ping(_) => EventKind::Ping,
            Event::Joined(_) => EventKind::Joined,
            Event::Left(_) => EventKind::Left,
            Event::MessageCreated(_) => EventKind::MessageCreated,
            Event::MessageDeleted(_) => EventKind::MessageDeleted,
            Event::MessageUpdated(_) => EventKind::MessageUpdated,
            Event::DirectMessageCreated(_) => EventKind::DirectMessageCreated,
            Event::DirectMessageDeleted(_) => EventKind::DirectMessageDeleted,
            Event::DirectMessageUpdated(_) => EventKind::DirectMessageUpdated,
            Event::BotMessageStampsUpdated(_) => EventKind::BotMessageStampsUpdated,
            Event::ChannelCreated(_) => EventKind::ChannelCreated,
            Event::ChannelTopicChanged(_) => EventKind::ChannelTopicChanged,
            Event::UserCreated(_) => EventKind::UserCreated,
            Event::StampCreated(_) => EventKind::StampCreated,
            Event::TagAdded(_) => EventKind::TagAdded,
            Event::TagRemoved(_) => EventKind::TagRemoved,
            Event::UserGroupCreated(_) => EventKind::UserGroupCreated,
            Event::UserGroupUpdated(_) => EventKind::UserGroupUpdated,
            Event::UserGroupDeleted(_) => EventKind::UserGroupDeleted,
            Event::UserGroupMemberAdded(_) => EventKind::UserGroupMemberAdded,
            Event::UserGroupMemberUpdated(_) => EventKind::UserGroupMemberUpdated,
            Event::UserGroupMemberRemoved(_) => EventKind::UserGroupMemberRemoved,
            Event::UserGroupAdminAdded(_) => EventKind::UserGroupAdminAdded,
            Event::UserGroupAdminRemoved(_) => EventKind::UserGroupAdminRemoved,
        }
    }

    /// Decodes the event of the given kind from a JSON value. Nothing is
    /// returned exactly where the value does not describe a payload of that
    /// kind.
    pub fn decode(kind: EventKind, value: &serde_json::Value) -> (event: Option<Event>)
        ensures
            is_decoded(event, Event::from_json(kind, json_of(*value))),
            event matches Some(e) ==> e.kind() == kind,
    {
        match kind {
            EventKind::Ping => {
                let payload = PingPayload::decode(value)?;
                Some(Event::Ping(payload))
            },
            EventKind::Joined => {
                let payload = JoinedPayload::decode(value)?;
                Some(Event::Joined(payload))
            },
            EventKind::Left => {
                let payload = LeftPayload::decode(value)?;
                Some(Event::Left(payload))
            },
            EventKind::MessageCreated => {
                let payload = MessageCreatedPayload::decode(value)?;
                Some(Event::MessageCreated(payload))
            },
            EventKind::MessageDeleted => {
                let payload = MessageDeletedPayload::decode(value)?;
                Some(Event::MessageDeleted(payload))
            },
            EventKind::MessageUpdated => {
                let payload = MessageUpdatedPayload::decode(value)?;
                Some(Event::MessageUpdated(payload))
            },
            EventKind::DirectMessageCreated => {
                let payload = DirectMessageCreatedPayload::decode(value)?;
                Some(Event::DirectMessageCreated(payload))
            },
            EventKind::DirectMessageDeleted => {
                let payload = DirectMessageDeletedPayload::decode(value)?;
                Some(Event::DirectMessageDeleted(payload))
            },
            EventKind::DirectMessageUpdated => {
                let payload = DirectMessageUpdatedPayload::decode(value)?;
                Some(Event::DirectMessageUpdated(payload))
            },
            EventKind::BotMessageStampsUpdated => {
                let payload = BotMessageStampsUpdatedPayload::decode(value)?;
                Some(Event::BotMessageStampsUpdated(payload))
            },
            EventKind::ChannelCreated => {
                let payload = ChannelCreatedPayload::decode(value)?;
                Some(Event::ChannelCreated(payload))
            },
            EventKind::ChannelTopicChanged => {
                let payload = ChannelTopicChangedPayload::decode(value)?;
                Some(Event::ChannelTopicChanged(payload))
            },
            EventKind::UserCreated => {
                let payload = UserCreatedPayload::decode(value)?;
                Some(Event::UserCreated(payload))
            },
            EventKind::StampCreated => {
                let payload = StampCreatedPayload::decode(value)?;
                Some(Event::StampCreated(payload))
            },
            EventKind::TagAdded => {
                let payload = TagAddedPayload::decode(value)?;
                Some(Event::TagAdded(payload))
            },
            EventKind::TagRemoved => {
                let payload = TagRemovedPayload::decode(value)?;
                Some(Event::TagRemoved(payload))
            },
            EventKind::UserGroupCreated => {
                let payload = UserGroupCreatedPayload::decode(value)?;
                Some(Event::UserGroupCreated(payload))
            },
            EventKind::UserGroupUpdated => {
                let payload = UserGroupUpdatedPayload::decode(value)?;
                Some(Event::UserGroupUpdated(payload))
            },
            EventKind::UserGroupDeleted => {
                let payload = UserGroupDeletedPayload::decode(value)?;
                Some(Event::UserGroupDeleted(payload))
            },
            EventKind::UserGroupMemberAdded => {
                let payload = UserGroupMemberAddedPayload::decode(value)?;
                Some(Event::UserGroupMemberAdded(payload))
            },
            EventKind::UserGroupMemberUpdated => {
                let payload = UserGroupMemberUpdatedPayload::decode(value)?;
                Some(Event::UserGroupMemberUpdated(payload))
            },
            EventKind::UserGroupMemberRemoved => {
                let payload = UserGroupMemberRemovedPayload::decode(value)?;
                Some(Event::UserGroupMemberRemoved(payload))
            },
            EventKind::UserGroupAdminAdded => {
                let payload = UserGroupAdminAddedPayload::decode(value)?;
                Some(Event::UserGroupAdminAdded(payload))
            },
            EventKind::UserGroupAdminRemoved => {
                let payload = UserGroupAdminRemovedPayload::decode(value)?;
                Some(Event::UserGroupAdminRemoved(payload))
            },
        }
    }
}

impl From<PingPayload> for Event {
    fn from(payload: PingPayload) -> (event: Event)
        ensures
            event.kind() == EventKind::Ping,
    {
        Event::Ping(payload)
    }
}

impl vstd::std_specs::convert::FromSpecImpl<PingPayload> for Event {
    open spec fn obeys_from_spec() -> bool {
        true
    }

    open spec fn from_spec(payload: PingPayload) -> Event {
        Event::Ping(payload)
    }
}

impl From<JoinedPayload> for Event {
    fn from(payload: JoinedPayload) -> (event: Event)
        ensures
            event.kind() == EventKind::Joined,
    {
        Event::Joined(payload)
    }
}

impl vstd::std_specs::convert::FromSpecImpl<JoinedPayload> for Event {
    open spec fn obeys_from_spec() -> bool {
        true
    }

    open spec fn from_spec(payload: JoinedPayload) -> Event {
        Event::Joined(payload)
    }
}

impl From<LeftPayload> for Event {
    fn from(payload: LeftPayload) -> (event: Event)
        ensures
            event.kind() == EventKind::Left,
    {
        Event::Left(payload)
    }
}

impl vstd::std_specs::convert::FromSpecImpl<LeftPayload> for Event {
    open spec fn obeys_from_spec() -> bool {
        true
    }

    open spec fn from_spec(payload: LeftPayload) -> Event {
        Event::Left(payload)
    }
}

impl From<MessageCreatedPayload> for Event {
    fn from(payload: MessageCreatedPayload) -> (event: Event)
        ensures
            event.kind() == EventKind::MessageCreated,
    {
        Event::MessageCreated(payload)
    }
}

impl vstd::std_specs::convert::FromSpecImpl<MessageCreatedPayload> for Event {
    open spec fn obeys_from_spec() -> bool {
        true
    }

    open spec fn from_spec(payload: MessageCreatedPayload) -> Event {
        Event::MessageCreated(payload)
    }
}

impl From<MessageDeletedPayload> for Event {
    fn from(payload: MessageDeletedPayload) -> (event: Event)
        ensures
            event.kind() == EventKind::MessageDeleted,
    {
        Event::MessageDeleted(payload)
    }
}

impl vstd::std_specs::convert::FromSpecImpl<MessageDeletedPayload> for Event {
    open spec fn obeys_from_spec() -> bool {
        true
    }

    open spec fn from_spec(payload: MessageDeletedPayload) -> Event {
        Event::MessageDeleted(payload)
    }
}

impl From<MessageUpdatedPayload> for Event {
    fn from(payload: MessageUpdatedPayload) -> (event: Event)
        ensures
            event.kind() == EventKind::MessageUpdated,
    {
        Event::MessageUpdated(payload)
    }
}

impl vstd::std_specs::convert::FromSpecImpl<MessageUpdatedPayload> for Event {
    open spec fn obeys_from_spec() -> bool {
        true
    }

    open spec fn from_spec(payload: MessageUpdatedPayload) -> Event {
        Event::MessageUpdated(payload)
    }
}

impl From<DirectMessageCreatedPayload> for Event {
    fn from(payload: DirectMessageCreatedPayload) -> (event: Event)
        ensures
            event.kind() == EventKind::DirectMessageCreated,
    {
        Event::DirectMessageCreated(payload)
    }
}

impl vstd::std_specs::convert::FromSpecImpl<DirectMessageCreatedPayload> for Event {
    open spec fn obeys_from_spec() -> bool {
        true
    }

    open spec fn from_spec(payload: DirectMessageCreatedPayload) -> Event {
        Event::DirectMessageCreated(payload)
    }
}

impl From<DirectMessageDeletedPayload> for Event {
    fn from(payload: DirectMessageDeletedPayload) -> (event: Event)
        ensures
            event.kind() == EventKind::DirectMessageDeleted,
    {
        Event::DirectMessageDeleted(payload)
    }
}

impl vstd::std_specs::convert::FromSpecImpl<DirectMessageDeletedPayload> for Event {
    open spec fn obeys_from_spec() -> bool {
        true
    }

    open spec fn from_spec(payload: DirectMessageDeletedPayload) -> Event {
        Event::DirectMessageDeleted(payload)
    }
}

impl From<DirectMessageUpdatedPayload> for Event {
    fn from(payload: DirectMessageUpdatedPayload) -> (event: Event)
        ensures
            event.kind() == EventKind::DirectMessageUpdated,
    {
        Event::DirectMessageUpdated(payload)
    }
}

impl vstd::std_specs::convert::FromSpecImpl<DirectMessageUpdatedPayload> for Event {
    open spec fn obeys_from_spec() -> bool {
        true
    }

    open spec fn from_spec(payload: DirectMessageUpdatedPayload) -> Event {
        Event::DirectMessageUpdated(payload)
    }
}

impl From<BotMessageStampsUpdatedPayload> for Event {
    fn from(payload: BotMessageStampsUpdatedPayload) -> (event: Event)
        ensures
            event.kind() == EventKind::BotMessageStampsUpdated,
    {
        Event::BotMessageStampsUpdated(payload)
    }
}

impl vstd::std_specs::convert::FromSpecImpl<BotMessageStampsUpdatedPayload> for Event {
    open spec fn obeys_from_spec() -> bool {
        true
    }

    open spec fn from_spec(payload: BotMessageStampsUpdatedPayload) -> Event {
        Event::BotMessageStampsUpdated(payload)
    }
}

impl From<ChannelCreatedPayload> for Event {
    fn from(payload: ChannelCreatedPayload) -> (event: Event)
        ensures
            event.kind() == EventKind::ChannelCreated,
    {
        Event::ChannelCreated(payload)
    }
}

impl vstd::std_specs::convert::FromSpecImpl<ChannelCreatedPayload> for Event {
    open spec fn obeys_from_spec() -> bool {
        true
    }

    open spec fn from_spec(payload: ChannelCreatedPayload) -> Event {
        Event::ChannelCreated(payload)
    }
}

impl From<ChannelTopicChangedPayload> for Event {
    fn from(payload: ChannelTopicChangedPayload) -> (event: Event)
        ensures
            event.kind() == EventKind::ChannelTopicChanged,
    {
        Event::ChannelTopicChanged(payload)
    }
}

impl vstd::std_specs::convert::FromSpecImpl<ChannelTopicChangedPayload> for Event {
    open spec fn obeys_from_spec() -> bool {
        true
    }

    open spec fn from_spec(payload: ChannelTopicChangedPayload) -> Event {
        Event::ChannelTopicChanged(payload)
    }
}

impl From<UserCreatedPayload> for Event {
    fn from(payload: UserCreatedPayload) -> (event: Event)
        ensures
            event.kind() == EventKind::UserCreated,
    {
        Event::UserCreated(payload)
    }
}

impl vstd::std_specs::convert::FromSpecImpl<UserCreatedPayload> for Event {
    open spec fn obeys_from_spec() -> bool {
        true
    }

    open spec fn from_spec(payload: UserCreatedPayload) -> Event {
        Event::UserCreated(payload)
    }
}

impl From<StampCreatedPayload> for Event {
    fn from(payload: StampCreatedPayload) -> (event: Event)
        ensures
            event.kind() == EventKind::StampCreated,
    {
        Event::StampCreated(payload)
    }
}

impl vstd::std_specs::convert::FromSpecImpl<StampCreatedPayload> for Event {
    open spec fn obeys_from_spec() -> bool {
        true
    }

    open spec fn from_spec(payload: StampCreatedPayload) -> Event {
        Event::StampCreated(payload)
    }
}

impl From<TagAddedPayload> for Event {
    fn from(payload: TagAddedPayload) -> (event: Event)
        ensures
            event.kind() == EventKind::TagAdded,
    {
        Event::TagAdded(payload)
    }
}

impl vstd::std_specs::convert::FromSpecImpl<TagAddedPayload> for Event {
    open spec fn obeys_from_spec() -> bool {
        true
    }

    open spec fn from_spec(payload: TagAddedPayload) -> Event {
        Event::TagAdded(payload)
    }
}

impl From<TagRemovedPayload> for Event {
    fn from(payload: TagRemovedPayload) -> (event: Event)
        ensures
            event.kind() == EventKind::TagRemoved,
    {
        Event::TagRemoved(payload)
    }
}

impl vstd::std_specs::convert::FromSpecImpl<TagRemovedPayload> for Event {
    open spec fn obeys_from_spec() -> bool {
        true
    }

    open spec fn from_spec(payload: TagRemovedPayload) -> Event {
        Event::TagRemoved(payload)
    }
}

impl From<UserGroupCreatedPayload> for Event {
    fn from(payload: UserGroupCreatedPayload) -> (event: Event)
        ensures
            event.kind() == EventKind::UserGroupCreated,
    {
        Event::UserGroupCreated(payload)
    }
}

impl vstd::std_specs::convert::FromSpecImpl<UserGroupCreatedPayload> for Event {
    open spec fn obeys_from_spec() -> bool {
        true
    }

    open spec fn from_spec(payload: UserGroupCreatedPayload) -> Event {
        Event::UserGroupCreated(payload)
    }
}

impl From<UserGroupUpdatedPayload> for Event {
    fn from(payload: UserGroupUpdatedPayload) -> (event: Event)
        ensures
            event.kind() == EventKind::UserGroupUpdated,
    {
        Event::UserGroupUpdated(payload)
    }
}

impl vstd::std_specs::convert::FromSpecImpl<UserGroupUpdatedPayload> for Event {
    open spec fn obeys_from_spec() -> bool {
        true
    }

    open spec fn from_spec(payload: UserGroupUpdatedPayload) -> Event {
        Event::UserGroupUpdated(payload)
    }
}

impl From<UserGroupDeletedPayload> for Event {
    fn from(payload: UserGroupDeletedPayload) -> (event: Event)
        ensures
            event.kind() == EventKind::UserGroupDeleted,
    {
        Event::UserGroupDeleted(payload)
    }
}

impl vstd::std_specs::convert::FromSpecImpl<UserGroupDeletedPayload> for Event {
    open spec fn obeys_from_spec() -> bool {
        true
    }

    open spec fn from_spec(payload: UserGroupDeletedPayload) -> Event {
        Event::UserGroupDeleted(payload)
    }
}

impl From<UserGroupMemberAddedPayload> for Event {
    fn from(payload: UserGroupMemberAddedPayload) -> (event: Event)
        ensures
            event.kind() == EventKind::UserGroupMemberAdded,
    {
        Event::UserGroupMemberAdded(payload)
    }
}

impl vstd::std_specs::convert::FromSpecImpl<UserGroupMemberAddedPayload> for Event {
    open spec fn obeys_from_spec() -> bool {
        true
    }

    open spec fn from_spec(payload: UserGroupMemberAddedPayload) -> Event {
        Event::UserGroupMemberAdded(payload)
    }
}

impl From<UserGroupMemberUpdatedPayload> for Event {
    fn from(payload: UserGroupMemberUpdatedPayload) -> (event: Event)
        ensures
            event.kind() == EventKind::UserGroupMemberUpdated,
    {
        Event::UserGroupMemberUpdated(payload)
    }
}

impl vstd::std_specs::convert::FromSpecImpl<UserGroupMemberUpdatedPayload> for Event {
    open spec fn obeys_from_spec() -> bool {
        true
    }

    open spec fn from_spec(payload: UserGroupMemberUpdatedPayload) -> Event {
        Event::UserGroupMemberUpdated(payload)
    }
}

impl From<UserGroupMemberRemovedPayload> for Event {
    fn from(payload: UserGroupMemberRemovedPayload) -> (event: Event)
        ensures
            event.kind() == EventKind::UserGroupMemberRemoved,
    {
        Event::UserGroupMemberRemoved(payload)
    }
}

impl vstd::std_specs::convert::FromSpecImpl<UserGroupMemberRemovedPayload> for Event {
    open spec fn obeys_from_spec() -> bool {
        true
    }

    open spec fn from_spec(payload: UserGroupMemberRemovedPayload) -> Event {
        Event::UserGroupMemberRemoved(payload)
    }
}

impl From<UserGroupAdminAddedPayload> for Event {
    fn from(payload: UserGroupAdminAddedPayload) -> (event: Event)
        ensures
            event.kind() == EventKind::UserGroupAdminAdded,
    {
        Event::UserGroupAdminAdded(payload)
    }
}

impl vstd::std_specs::convert::FromSpecImpl<UserGroupAdminAddedPayload> for Event {
    open spec fn obeys_from_spec() -> bool {
        true
    }

    open spec fn from_spec(payload: UserGroupAdminAddedPayload) -> Event {
        Event::UserGroupAdminAdded(payload)
    }
}

impl From<UserGroupAdminRemovedPayload> for Event {
    fn from(payload: UserGroupAdminRemovedPayload) -> (event: Event)
        ensures
            event.kind() == EventKind::UserGroupAdminRemoved,
    {
        Event::UserGroupAdminRemoved(payload)
    }
}

impl vstd::std_specs::convert::FromSpecImpl<UserGroupAdminRemovedPayload> for Event {
    open spec fn obeys_from_spec() -> bool {
        true
    }

    open spec fn from_spec(payload: UserGroupAdminRemovedPayload) -> Event {
        Event::UserGroupAdminRemoved(payload)
    }
}

} // verus!
