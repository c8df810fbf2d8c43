//! The payloads of the events, one type for each kind of event.

mod channel;
mod message;
mod stamp;
mod system;
mod tag;
pub mod types;
mod user;
mod user_group;

pub use self::channel::{
    ChannelCreatedPayload, ChannelCreatedPayloadView, ChannelTopicChangedPayload,
    ChannelTopicChangedPayloadView,
};
pub use self::message::{
    BotMessageStampsUpdatedPayload, BotMessageStampsUpdatedPayloadView, DirectMessageCreatedPayload,
    DirectMessageCreatedPayloadView, DirectMessageDeletedPayload, DirectMessageUpdatedPayload,
    DirectMessageUpdatedPayloadView, MessageCreatedPayload, MessageCreatedPayloadView,
    MessageDeletedPayload, MessageUpdatedPayload, MessageUpdatedPayloadView,
    lemma_message_created_direct_message_created_round_trip,
    lemma_message_updated_direct_message_updated_round_trip,
};
pub use self::stamp::{StampCreatedPayload, StampCreatedPayloadView};
pub use self::system::{
    JoinedPayload, JoinedPayloadView, LeftPayload, LeftPayloadView, PingPayload,
    lemma_joined_left_round_trip,
};
pub use self::tag::{
    TagAddedPayload, TagAddedPayloadView, TagRemovedPayload, TagRemovedPayloadView,
    lemma_tag_added_tag_removed_round_trip,
};
pub use self::user::{UserCreatedPayload, UserCreatedPayloadView};
pub use self::user_group::{
    UserGroupAdminAddedPayload, UserGroupAdminRemovedPayload, UserGroupCreatedPayload,
    UserGroupCreatedPayloadView, UserGroupDeletedPayload, UserGroupMemberAddedPayload,
    UserGroupMemberRemovedPayload, UserGroupMemberUpdatedPayload, UserGroupUpdatedPayload,
    lemma_user_group_admin_added_user_group_admin_removed_round_trip,
    lemma_user_group_member_added_user_group_admin_added_round_trip,
    lemma_user_group_member_added_user_group_member_removed_round_trip,
    lemma_user_group_member_added_user_group_member_updated_round_trip,
    lemma_user_group_member_removed_user_group_admin_removed_round_trip,
    lemma_user_group_member_updated_user_group_member_removed_round_trip,
    lemma_user_group_updated_user_group_deleted_round_trip,
};
