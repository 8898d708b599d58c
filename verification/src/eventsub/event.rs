//! EventSub events, their type catalog, and message parsing.

use vstd::prelude::*;

verus! {

use crate::eventsub::ConditionParseError;
use crate::eventsub::EventSubSubscription;
use crate::eventsub::Message;
use crate::eventsub::MessageKind;
use crate::eventsub::Payload;
use crate::eventsub::PayloadParseError;
use crate::eventsub::VerificationRequest;
use crate::eventsub::spec_field_is_str;
use crate::eventsub::spec_payload_err;
use crate::eventsub::spec_payload_value;
use crate::hex::spec_hex_decode;
use crate::hex::spec_hex_encode;
use crate::hex::spec_is_hex;
use crate::json::Json;
use crate::json::json_equiv;
use crate::json::obj_get;
use crate::json::parse_json_bytes;
use crate::json::push_bytes;
use crate::json::spec_json_of;
use crate::json::spec_obj_get;
use crate::json::spec_obj_populated;
use crate::json::str_eq;
use crate::httpreq::spec_body_of;
use crate::httpreq::spec_header_of;
use vstd::utf8::decode_utf8;
use vstd::utf8::encode_utf8;
use vstd::utf8::valid_utf8;

/// One distinguishable notification family; exactly one variant per
/// wire-level type string.
#[derive(Clone, Copy, Debug, PartialEq, Eq, Structural)]
pub enum EventType {
    /// `channel.update`: a broadcaster updates category, title, mature flag,
    /// or broadcast language for their channel.
    ChannelUpdate,
    /// `channel.follow`: a specified channel receives a follow.
    ChannelFollow,
    /// `channel.subscribe`: a specified channel receives a subscriber.
    ChannelSubscribe,
    /// `channel.cheer`: a user cheers on the specified channel.
    ChannelCheer,
    /// `channel.ban`: a viewer is banned from the specified channel.
    ChannelBan,
    /// `channel.unban`: a viewer is unbanned from the specified channel.
    ChannelUnban,
    /// `channel.channel_points_custom_reward.add`: a custom channel points
    /// reward has been created for the specified channel.
    ChannelPointsCustomRewardAdd,
    /// `channel.channel_points_custom_reward.update`: a custom channel points
    /// reward has been updated for the specified channel.
    ChannelPointsCustomRewardUpdate,
    /// `channel.channel_points_custom_reward.remove`: a custom channel points
    /// reward has been removed from the specified channel.
    ChannelPointsCustomRewardRemove,
    /// `channel.channel_points_custom_reward_redemption.add`: a viewer has
    /// redeemed a custom channel points reward on the specified channel.
    ChannelPointsCustomRewardRedemptionAdd,
    /// `channel.channel_points_custom_reward_redemption.update`: a redemption
    /// of a channel points custom reward has been updated.
    ChannelPointsCustomRewardRedemptionUpdate,
    /// `channel.poll.begin`: a poll begins on the specified channel.
    ChannelPollBegin,
    /// `channel.poll.progress`: a user responds to a poll on the specified
    /// channel.
    ChannelPollProgress,
    /// `channel.poll.end`: a poll ends on the specified channel.
    ChannelPollEnd,
    /// `channel.prediction.begin`: a prediction begins on the specified
    /// channel.
    ChannelPredictionBegin,
    /// `channel.prediction.progress`: a user participates in a prediction on
    /// the specified channel.
    ChannelPredictionProgress,
    /// `channel.prediction.lock`: a prediction is locked on the specified
    /// channel.
    ChannelPredictionLock,
    /// `channel.prediction.end`: a prediction ends on the specified channel.
    ChannelPredictionEnd,
    /// `channel.raid`: a broadcaster raids another broadcaster's channel.
    ChannelRaid,
    /// `channel.subscription.end`: a subscription to the specified channel
    /// expires.
    ChannelSubscriptionEnd,
    /// `channel.subscription.gift`: a user gives one or more gifted
    /// subscriptions in a channel.
    ChannelSubscriptionGift,
    /// `channel.subscription.message`: a user sends a resubscription chat
    /// message in a specific channel.
    ChannelSubscriptionMessage,
    /// `channel.goal.begin`: a goal begins on the specified channel.
    ChannelGoalBegin,
    /// `channel.goal.progress`: a goal makes progress on the specified
    /// channel.
    ChannelGoalProgress,
    /// `channel.goal.end`: a goal ends on the specified channel.
    ChannelGoalEnd,
    /// `channel.hype_train.begin`: a hype train begins on the specified
    /// channel.
    ChannelHypeTrainBegin,
    /// `channel.hype_train.progress`: a hype train makes progress on the
    /// specified channel.
    ChannelHypeTrainProgress,
    /// `channel.hype_train.end`: a hype train ends on the specified channel.
    ChannelHypeTrainEnd,
    /// `stream.online`: the specified broadcaster starts a stream.
    StreamOnline,
    /// `stream.offline`: the specified broadcaster stops a stream.
    StreamOffline,
    /// `user.update`: a user updates their account.
    UserUpdate,
    /// `user.authorization.revoke`: a user has revoked authorization for the
    /// client id.
    UserAuthorizationRevoke,
    /// `user.authorization.grant`: a user's authorization has been granted to
    /// the client id.
    UserAuthorizationGrant,
}

/// The wire-level type string of each event family: the other direction of
/// the bijection decided by [`spec_tag_of_wire`].
pub open spec fn spec_wire_of_tag(t: EventType) -> Seq<char> {
    match t {
        EventType::ChannelUpdate => "channel.update"@,
        EventType::ChannelFollow => "channel.follow"@,
        EventType::ChannelSubscribe => "channel.subscribe"@,
        EventType::ChannelCheer => "channel.cheer"@,
        EventType::ChannelBan => "channel.ban"@,
        EventType::ChannelUnban => "channel.unban"@,
        EventType::ChannelPointsCustomRewardAdd => "channel.channel_points_custom_reward.add"@,
        EventType::ChannelPointsCustomRewardUpdate => "channel.channel_points_custom_reward.update"@,
        EventType::ChannelPointsCustomRewardRemove => "channel.channel_points_custom_reward.remove"@,
        EventType::ChannelPointsCustomRewardRedemptionAdd => "channel.channel_points_custom_reward_redemption.add"@,
        EventType::ChannelPointsCustomRewardRedemptionUpdate => "channel.channel_points_custom_reward_redemption.update"@,
        EventType::ChannelPollBegin => "channel.poll.begin"@,
        EventType::ChannelPollProgress => "channel.poll.progress"@,
        EventType::ChannelPollEnd => "channel.poll.end"@,
        EventType::ChannelPredictionBegin => "channel.prediction.begin"@,
        EventType::ChannelPredictionProgress => "channel.prediction.progress"@,
        EventType::ChannelPredictionLock => "channel.prediction.lock"@,
        EventType::ChannelPredictionEnd => "channel.prediction.end"@,
        EventType::ChannelRaid => "channel.raid"@,
        EventType::ChannelSubscriptionEnd => "channel.subscription.end"@,
        EventType::ChannelSubscriptionGift => "channel.subscription.gift"@,
        EventType::ChannelSubscriptionMessage => "channel.subscription.message"@,
        EventType::ChannelGoalBegin => "channel.goal.begin"@,
        EventType::ChannelGoalProgress => "channel.goal.progress"@,
        EventType::ChannelGoalEnd => "channel.goal.end"@,
        EventType::ChannelHypeTrainBegin => "channel.hype_train.begin"@,
        EventType::ChannelHypeTrainProgress => "channel.hype_train.progress"@,
        EventType::ChannelHypeTrainEnd => "channel.hype_train.end"@,
        EventType::StreamOnline => "stream.online"@,
        EventType::StreamOffline => "stream.offline"@,
        EventType::UserUpdate => "user.update"@,
        EventType::UserAuthorizationRevoke => "user.authorization.revoke"@,
        EventType::UserAuthorizationGrant => "user.authorization.grant"@,
    }
}

/// The event family a wire-level type string names, if any: the catalog's
/// string-to-tag mapping, the single source of truth for routing.
pub open spec fn spec_tag_of_wire(s: Seq<char>) -> Option<EventType> {
    if s == "channel.update"@ {
        Some(EventType::ChannelUpdate)
    } else if s == "channel.follow"@ {
        Some(EventType::ChannelFollow)
    } else if s == "channel.subscribe"@ {
        Some(EventType::ChannelSubscribe)
    } else if s == "channel.cheer"@ {
        Some(EventType::ChannelCheer)
    } else if s == "channel.ban"@ {
        Some(EventType::ChannelBan)
    } else if s == "channel.unban"@ {
        Some(EventType::ChannelUnban)
    } else if s == "channel.channel_points_custom_reward.add"@ {
        Some(EventType::ChannelPointsCustomRewardAdd)
    } else if s == "channel.channel_points_custom_reward.update"@ {
        Some(EventType::ChannelPointsCustomRewardUpdate)
    } else if s == "channel.channel_points_custom_reward.remove"@ {
        Some(EventType::ChannelPointsCustomRewardRemove)
    } else if s == "channel.channel_points_custom_reward_redemption.add"@ {
        Some(EventType::ChannelPointsCustomRewardRedemptionAdd)
    } else if s == "channel.channel_points_custom_reward_redemption.update"@ {
        Some(EventType::ChannelPointsCustomRewardRedemptionUpdate)
    } else if s == "channel.poll.begin"@ {
        Some(EventType::ChannelPollBegin)
    } else if s == "channel.poll.progress"@ {
        Some(EventType::ChannelPollProgress)
    } else if s == "channel.poll.end"@ {
        Some(EventType::ChannelPollEnd)
    } else if s == "channel.prediction.begin"@ {
        Some(EventType::ChannelPredictionBegin)
    } else if s == "channel.prediction.progress"@ {
        Some(EventType::ChannelPredictionProgress)
    } else if s == "channel.prediction.lock"@ {
        Some(EventType::ChannelPredictionLock)
    } else if s == "channel.prediction.end"@ {
        Some(EventType::ChannelPredictionEnd)
    } else if s == "channel.raid"@ {
        Some(EventType::ChannelRaid)
    } else if s == "channel.subscription.end"@ {
        Some(EventType::ChannelSubscriptionEnd)
    } else if s == "channel.subscription.gift"@ {
        Some(EventType::ChannelSubscriptionGift)
    } else if s == "channel.subscription.message"@ {
        Some(EventType::ChannelSubscriptionMessage)
    } else if s == "channel.goal.begin"@ {
        Some(EventType::ChannelGoalBegin)
    } else if s == "channel.goal.progress"@ {
        Some(EventType::ChannelGoalProgress)
    } else if s == "channel.goal.end"@ {
        Some(EventType::ChannelGoalEnd)
    } else if s == "channel.hype_train.begin"@ {
        Some(EventType::ChannelHypeTrainBegin)
    } else if s == "channel.hype_train.progress"@ {
        Some(EventType::ChannelHypeTrainProgress)
    } else if s == "channel.hype_train.end"@ {
        Some(EventType::ChannelHypeTrainEnd)
    } else if s == "stream.online"@ {
        Some(EventType::StreamOnline)
    } else if s == "stream.offline"@ {
        Some(EventType::StreamOffline)
    } else if s == "user.update"@ {
        Some(EventType::UserUpdate)
    } else if s == "user.authorization.revoke"@ {
        Some(EventType::UserAuthorizationRevoke)
    } else if s == "user.authorization.grant"@ {
        Some(EventType::UserAuthorizationGrant)
    } else {
        None
    }
}

impl EventType {
    /// Resolves a wire-level type string against the catalog.
    pub fn from_wire(s: &str) -> (r: Option<EventType>)
        ensures
            r == spec_tag_of_wire(s@),
    {
        if crate::json::str_eq(s, "channel.update") {
            Some(EventType::ChannelUpdate)
        } else if crate::json::str_eq(s, "channel.follow") {
            Some(EventType::ChannelFollow)
        } else if crate::json::str_eq(s, "channel.subscribe") {
            Some(EventType::ChannelSubscribe)
        } else if crate::json::str_eq(s, "channel.cheer") {
            Some(EventType::ChannelCheer)
        } else if crate::json::str_eq(s, "channel.ban") {
            Some(EventType::ChannelBan)
        } else if crate::json::str_eq(s, "channel.unban") {
            Some(EventType::ChannelUnban)
        } else if crate::json::str_eq(s, "channel.channel_points_custom_reward.add") {
            Some(EventType::ChannelPointsCustomRewardAdd)
        } else if crate::json::str_eq(s, "channel.channel_points_custom_reward.update") {
            Some(EventType::ChannelPointsCustomRewardUpdate)
        } else if crate::json::str_eq(s, "channel.channel_points_custom_reward.remove") {
            Some(EventType::ChannelPointsCustomRewardRemove)
        } else if crate::json::str_eq(s, "channel.channel_points_custom_reward_redemption.add") {
            Some(EventType::ChannelPointsCustomRewardRedemptionAdd)
        } else if crate::json::str_eq(s, "channel.channel_points_custom_reward_redemption.update") {
            Some(EventType::ChannelPointsCustomRewardRedemptionUpdate)
        } else if crate::json::str_eq(s, "channel.poll.begin") {
            Some(EventType::ChannelPollBegin)
        } else if crate::json::str_eq(s, "channel.poll.progress") {
            Some(EventType::ChannelPollProgress)
        } else if crate::json::str_eq(s, "channel.poll.end") {
            Some(EventType::ChannelPollEnd)
        } else if crate::json::str_eq(s, "channel.prediction.begin") {
            Some(EventType::ChannelPredictionBegin)
        } else if crate::json::str_eq(s, "channel.prediction.progress") {
            Some(EventType::ChannelPredictionProgress)
        } else if crate::json::str_eq(s, "channel.prediction.lock") {
            Some(EventType::ChannelPredictionLock)
        } else if crate::json::str_eq(s, "channel.prediction.end") {
            Some(EventType::ChannelPredictionEnd)
        } else if crate::json::str_eq(s, "channel.raid") {
            Some(EventType::ChannelRaid)
        } else if crate::json::str_eq(s, "channel.subscription.end") {
            Some(EventType::ChannelSubscriptionEnd)
        } else if crate::json::str_eq(s, "channel.subscription.gift") {
            Some(EventType::ChannelSubscriptionGift)
        } else if crate::json::str_eq(s, "channel.subscription.message") {
            Some(EventType::ChannelSubscriptionMessage)
        } else if crate::json::str_eq(s, "channel.goal.begin") {
            Some(EventType::ChannelGoalBegin)
        } else if crate::json::str_eq(s, "channel.goal.progress") {
            Some(EventType::ChannelGoalProgress)
        } else if crate::json::str_eq(s, "channel.goal.end") {
            Some(EventType::ChannelGoalEnd)
        } else if crate::json::str_eq(s, "channel.hype_train.begin") {
            Some(EventType::ChannelHypeTrainBegin)
        } else if crate::json::str_eq(s, "channel.hype_train.progress") {
            Some(EventType::ChannelHypeTrainProgress)
        } else if crate::json::str_eq(s, "channel.hype_train.end") {
            Some(EventType::ChannelHypeTrainEnd)
        } else if crate::json::str_eq(s, "stream.online") {
            Some(EventType::StreamOnline)
        } else if crate::json::str_eq(s, "stream.offline") {
            Some(EventType::StreamOffline)
        } else if crate::json::str_eq(s, "user.update") {
            Some(EventType::UserUpdate)
        } else if crate::json::str_eq(s, "user.authorization.revoke") {
            Some(EventType::UserAuthorizationRevoke)
        } else if crate::json::str_eq(s, "user.authorization.grant") {
            Some(EventType::UserAuthorizationGrant)
        } else {
            None
        }
    }

    /// The wire-level type string of this event family.
    pub fn to_wire(&self) -> (r: &'static str)
        ensures
            r@ == spec_wire_of_tag(*self),
    {
        match self {
            EventType::ChannelUpdate => "channel.update",
            EventType::ChannelFollow => "channel.follow",
            EventType::ChannelSubscribe => "channel.subscribe",
            EventType::ChannelCheer => "channel.cheer",
            EventType::ChannelBan => "channel.ban",
            EventType::ChannelUnban => "channel.unban",
            EventType::ChannelPointsCustomRewardAdd => "channel.channel_points_custom_reward.add",
            EventType::ChannelPointsCustomRewardUpdate => "channel.channel_points_custom_reward.update",
            EventType::ChannelPointsCustomRewardRemove => "channel.channel_points_custom_reward.remove",
            EventType::ChannelPointsCustomRewardRedemptionAdd => "channel.channel_points_custom_reward_redemption.add",
            EventType::ChannelPointsCustomRewardRedemptionUpdate => "channel.channel_points_custom_reward_redemption.update",
            EventType::ChannelPollBegin => "channel.poll.begin",
            EventType::ChannelPollProgress => "channel.poll.progress",
            EventType::ChannelPollEnd => "channel.poll.end",
            EventType::ChannelPredictionBegin => "channel.prediction.begin",
            EventType::ChannelPredictionProgress => "channel.prediction.progress",
            EventType::ChannelPredictionLock => "channel.prediction.lock",
            EventType::ChannelPredictionEnd => "channel.prediction.end",
            EventType::ChannelRaid => "channel.raid",
            EventType::ChannelSubscriptionEnd => "channel.subscription.end",
            EventType::ChannelSubscriptionGift => "channel.subscription.gift",
            EventType::ChannelSubscriptionMessage => "channel.subscription.message",
            EventType::ChannelGoalBegin => "channel.goal.begin",
            EventType::ChannelGoalProgress => "channel.goal.progress",
            EventType::ChannelGoalEnd => "channel.goal.end",
            EventType::ChannelHypeTrainBegin => "channel.hype_train.begin",
            EventType::ChannelHypeTrainProgress => "channel.hype_train.progress",
            EventType::ChannelHypeTrainEnd => "channel.hype_train.end",
            EventType::StreamOnline => "stream.online",
            EventType::StreamOffline => "stream.offline",
            EventType::UserUpdate => "user.update",
            EventType::UserAuthorizationRevoke => "user.authorization.revoke",
            EventType::UserAuthorizationGrant => "user.authorization.grant",
        }
    }
}

/// A parsed message with its payload: the closed sum over every supported
/// (event family, schema version) pair in the catalog.
#[derive(Debug, PartialEq)]
pub enum Event {
    /// Channel Update V1 event.
    ChannelUpdateV1(Payload),
    /// Channel Follow V1 event.
    ChannelFollowV1(Payload),
    /// Channel Subscribe V1 event.
    ChannelSubscribeV1(Payload),
    /// Channel Cheer V1 event.
    ChannelCheerV1(Payload),
    /// Channel Ban V1 event.
    ChannelBanV1(Payload),
    /// Channel Unban V1 event.
    ChannelUnbanV1(Payload),
    /// Channel Points Custom Reward Add V1 event.
    ChannelPointsCustomRewardAddV1(Payload),
    /// Channel Points Custom Reward Update V1 event.
    ChannelPointsCustomRewardUpdateV1(Payload),
    /// Channel Points Custom Reward Remove V1 event.
    ChannelPointsCustomRewardRemoveV1(Payload),
    /// Channel Points Custom Reward Redemption Add V1 event.
    ChannelPointsCustomRewardRedemptionAddV1(Payload),
    /// Channel Points Custom Reward Redemption Update V1 event.
    ChannelPointsCustomRewardRedemptionUpdateV1(Payload),
    /// Channel Poll Begin V1 event.
    ChannelPollBeginV1(Payload),
    /// Channel Poll Progress V1 event.
    ChannelPollProgressV1(Payload),
    /// Channel Poll End V1 event.
    ChannelPollEndV1(Payload),
    /// Channel Prediction Begin V1 event.
    ChannelPredictionBeginV1(Payload),
    /// Channel Prediction Progress V1 event.
    ChannelPredictionProgressV1(Payload),
    /// Channel Prediction Lock V1 event.
    ChannelPredictionLockV1(Payload),
    /// Channel Prediction End V1 event.
    ChannelPredictionEndV1(Payload),
    /// Channel Raid V1 event.
    ChannelRaidV1(Payload),
    /// Channel Subscription End V1 event.
    ChannelSubscriptionEndV1(Payload),
    /// Channel Subscription Gift V1 event.
    ChannelSubscriptionGiftV1(Payload),
    /// Channel Subscription Message V1 event.
    ChannelSubscriptionMessageV1(Payload),
    /// Channel Goal Begin V1 event.
    ChannelGoalBeginV1(Payload),
    /// Channel Goal Progress V1 event.
    ChannelGoalProgressV1(Payload),
    /// Channel Goal End V1 event.
    ChannelGoalEndV1(Payload),
    /// Channel Hype Train Begin V1 event.
    ChannelHypeTrainBeginV1(Payload),
    /// Channel Hype Train Progress V1 event.
    ChannelHypeTrainProgressV1(Payload),
    /// Channel Hype Train End V1 event.
    ChannelHypeTrainEndV1(Payload),
    /// Stream Online V1 event.
    StreamOnlineV1(Payload),
    /// Stream Offline V1 event.
    StreamOfflineV1(Payload),
    /// User Update V1 event.
    UserUpdateV1(Payload),
    /// User Authorization Grant V1 event.
    UserAuthorizationGrantV1(Payload),
    /// User Authorization Revoke V1 event.
    UserAuthorizationRevokeV1(Payload),
}

/// Whether the catalog has an entry for this (event family, schema version)
/// pair. Every family currently has exactly one schema version, "1".
pub open spec fn spec_version_supported(t: EventType, v: Seq<char>) -> bool {
    v == "1"@
}

/// The payload wrapped by any variant.
pub open spec fn spec_payload_of_event(e: Event) -> Payload {
    match e {
        Event::ChannelUpdateV1(p) => p,
        Event::ChannelFollowV1(p) => p,
        Event::ChannelSubscribeV1(p) => p,
        Event::ChannelCheerV1(p) => p,
        Event::ChannelBanV1(p) => p,
        Event::ChannelUnbanV1(p) => p,
        Event::ChannelPointsCustomRewardAddV1(p) => p,
        Event::ChannelPointsCustomRewardUpdateV1(p) => p,
        Event::ChannelPointsCustomRewardRemoveV1(p) => p,
        Event::ChannelPointsCustomRewardRedemptionAddV1(p) => p,
        Event::ChannelPointsCustomRewardRedemptionUpdateV1(p) => p,
        Event::ChannelPollBeginV1(p) => p,
        Event::ChannelPollProgressV1(p) => p,
        Event::ChannelPollEndV1(p) => p,
        Event::ChannelPredictionBeginV1(p) => p,
        Event::ChannelPredictionProgressV1(p) => p,
        Event::ChannelPredictionLockV1(p) => p,
        Event::ChannelPredictionEndV1(p) => p,
        Event::ChannelRaidV1(p) => p,
        Event::ChannelSubscriptionEndV1(p) => p,
        Event::ChannelSubscriptionGiftV1(p) => p,
        Event::ChannelSubscriptionMessageV1(p) => p,
        Event::ChannelGoalBeginV1(p) => p,
        Event::ChannelGoalProgressV1(p) => p,
        Event::ChannelGoalEndV1(p) => p,
        Event::ChannelHypeTrainBeginV1(p) => p,
        Event::ChannelHypeTrainProgressV1(p) => p,
        Event::ChannelHypeTrainEndV1(p) => p,
        Event::StreamOnlineV1(p) => p,
        Event::StreamOfflineV1(p) => p,
        Event::UserUpdateV1(p) => p,
        Event::UserAuthorizationGrantV1(p) => p,
        Event::UserAuthorizationRevokeV1(p) => p,
    }
}

/// The event family a variant belongs to.
pub open spec fn spec_event_type(e: Event) -> EventType {
    match e {
        Event::ChannelUpdateV1(_) => EventType::ChannelUpdate,
        Event::ChannelFollowV1(_) => EventType::ChannelFollow,
        Event::ChannelSubscribeV1(_) => EventType::ChannelSubscribe,
        Event::ChannelCheerV1(_) => EventType::ChannelCheer,
        Event::ChannelBanV1(_) => EventType::ChannelBan,
        Event::ChannelUnbanV1(_) => EventType::ChannelUnban,
        Event::ChannelPointsCustomRewardAddV1(_) => EventType::ChannelPointsCustomRewardAdd,
        Event::ChannelPointsCustomRewardUpdateV1(_) => EventType::ChannelPointsCustomRewardUpdate,
        Event::ChannelPointsCustomRewardRemoveV1(_) => EventType::ChannelPointsCustomRewardRemove,
        Event::ChannelPointsCustomRewardRedemptionAddV1(_) => EventType::ChannelPointsCustomRewardRedemptionAdd,
        Event::ChannelPointsCustomRewardRedemptionUpdateV1(_) => EventType::ChannelPointsCustomRewardRedemptionUpdate,
        Event::ChannelPollBeginV1(_) => EventType::ChannelPollBegin,
        Event::ChannelPollProgressV1(_) => EventType::ChannelPollProgress,
        Event::ChannelPollEndV1(_) => EventType::ChannelPollEnd,
        Event::ChannelPredictionBeginV1(_) => EventType::ChannelPredictionBegin,
        Event::ChannelPredictionProgressV1(_) => EventType::ChannelPredictionProgress,
        Event::ChannelPredictionLockV1(_) => EventType::ChannelPredictionLock,
        Event::ChannelPredictionEndV1(_) => EventType::ChannelPredictionEnd,
        Event::ChannelRaidV1(_) => EventType::ChannelRaid,
        Event::ChannelSubscriptionEndV1(_) => EventType::ChannelSubscriptionEnd,
        Event::ChannelSubscriptionGiftV1(_) => EventType::ChannelSubscriptionGift,
        Event::ChannelSubscriptionMessageV1(_) => EventType::ChannelSubscriptionMessage,
        Event::ChannelGoalBeginV1(_) => EventType::ChannelGoalBegin,
        Event::ChannelGoalProgressV1(_) => EventType::ChannelGoalProgress,
        Event::ChannelGoalEndV1(_) => EventType::ChannelGoalEnd,
        Event::ChannelHypeTrainBeginV1(_) => EventType::ChannelHypeTrainBegin,
        Event::ChannelHypeTrainProgressV1(_) => EventType::ChannelHypeTrainProgress,
        Event::ChannelHypeTrainEndV1(_) => EventType::ChannelHypeTrainEnd,
        Event::StreamOnlineV1(_) => EventType::StreamOnline,
        Event::StreamOfflineV1(_) => EventType::StreamOffline,
        Event::UserUpdateV1(_) => EventType::UserUpdate,
        Event::UserAuthorizationGrantV1(_) => EventType::UserAuthorizationGrant,
        Event::UserAuthorizationRevokeV1(_) => EventType::UserAuthorizationRevoke,
    }
}

/// The variant of the catalog entry (tag, "1") holding `p`.
pub open spec fn spec_make_event(t: EventType, p: Payload) -> Event {
    match t {
        EventType::ChannelUpdate => Event::ChannelUpdateV1(p),
        EventType::ChannelFollow => Event::ChannelFollowV1(p),
        EventType::ChannelSubscribe => Event::ChannelSubscribeV1(p),
        EventType::ChannelCheer => Event::ChannelCheerV1(p),
        EventType::ChannelBan => Event::ChannelBanV1(p),
        EventType::ChannelUnban => Event::ChannelUnbanV1(p),
        EventType::ChannelPointsCustomRewardAdd => Event::ChannelPointsCustomRewardAddV1(p),
        EventType::ChannelPointsCustomRewardUpdate => Event::ChannelPointsCustomRewardUpdateV1(p),
        EventType::ChannelPointsCustomRewardRemove => Event::ChannelPointsCustomRewardRemoveV1(p),
        EventType::ChannelPointsCustomRewardRedemptionAdd => Event::ChannelPointsCustomRewardRedemptionAddV1(p),
        EventType::ChannelPointsCustomRewardRedemptionUpdate => Event::ChannelPointsCustomRewardRedemptionUpdateV1(p),
        EventType::ChannelPollBegin => Event::ChannelPollBeginV1(p),
        EventType::ChannelPollProgress => Event::ChannelPollProgressV1(p),
        EventType::ChannelPollEnd => Event::ChannelPollEndV1(p),
        EventType::ChannelPredictionBegin => Event::ChannelPredictionBeginV1(p),
        EventType::ChannelPredictionProgress => Event::ChannelPredictionProgressV1(p),
        EventType::ChannelPredictionLock => Event::ChannelPredictionLockV1(p),
        EventType::ChannelPredictionEnd => Event::ChannelPredictionEndV1(p),
        EventType::ChannelRaid => Event::ChannelRaidV1(p),
        EventType::ChannelSubscriptionEnd => Event::ChannelSubscriptionEndV1(p),
        EventType::ChannelSubscriptionGift => Event::ChannelSubscriptionGiftV1(p),
        EventType::ChannelSubscriptionMessage => Event::ChannelSubscriptionMessageV1(p),
        EventType::ChannelGoalBegin => Event::ChannelGoalBeginV1(p),
        EventType::ChannelGoalProgress => Event::ChannelGoalProgressV1(p),
        EventType::ChannelGoalEnd => Event::ChannelGoalEndV1(p),
        EventType::ChannelHypeTrainBegin => Event::ChannelHypeTrainBeginV1(p),
        EventType::ChannelHypeTrainProgress => Event::ChannelHypeTrainProgressV1(p),
        EventType::ChannelHypeTrainEnd => Event::ChannelHypeTrainEndV1(p),
        EventType::StreamOnline => Event::StreamOnlineV1(p),
        EventType::StreamOffline => Event::StreamOfflineV1(p),
        EventType::UserUpdate => Event::UserUpdateV1(p),
        EventType::UserAuthorizationGrant => Event::UserAuthorizationGrantV1(p),
        EventType::UserAuthorizationRevoke => Event::UserAuthorizationRevokeV1(p),
    }
}

/// Wraps a payload in the variant of the catalog entry (`event_type`, "1").
fn make_event(event_type: EventType, payload: Payload) -> (r: Event)
    ensures
        r == spec_make_event(event_type, payload),
{
    match event_type {
        EventType::ChannelUpdate => Event::ChannelUpdateV1(payload),
        EventType::ChannelFollow => Event::ChannelFollowV1(payload),
        EventType::ChannelSubscribe => Event::ChannelSubscribeV1(payload),
        EventType::ChannelCheer => Event::ChannelCheerV1(payload),
        EventType::ChannelBan => Event::ChannelBanV1(payload),
        EventType::ChannelUnban => Event::ChannelUnbanV1(payload),
        EventType::ChannelPointsCustomRewardAdd => Event::ChannelPointsCustomRewardAddV1(payload),
        EventType::ChannelPointsCustomRewardUpdate => Event::ChannelPointsCustomRewardUpdateV1(payload),
        EventType::ChannelPointsCustomRewardRemove => Event::ChannelPointsCustomRewardRemoveV1(payload),
        EventType::ChannelPointsCustomRewardRedemptionAdd => Event::ChannelPointsCustomRewardRedemptionAddV1(payload),
        EventType::ChannelPointsCustomRewardRedemptionUpdate => Event::ChannelPointsCustomRewardRedemptionUpdateV1(payload),
        EventType::ChannelPollBegin => Event::ChannelPollBeginV1(payload),
        EventType::ChannelPollProgress => Event::ChannelPollProgressV1(payload),
        EventType::ChannelPollEnd => Event::ChannelPollEndV1(payload),
        EventType::ChannelPredictionBegin => Event::ChannelPredictionBeginV1(payload),
        EventType::ChannelPredictionProgress => Event::ChannelPredictionProgressV1(payload),
        EventType::ChannelPredictionLock => Event::ChannelPredictionLockV1(payload),
        EventType::ChannelPredictionEnd => Event::ChannelPredictionEndV1(payload),
        EventType::ChannelRaid => Event::ChannelRaidV1(payload),
        EventType::ChannelSubscriptionEnd => Event::ChannelSubscriptionEndV1(payload),
        EventType::ChannelSubscriptionGift => Event::ChannelSubscriptionGiftV1(payload),
        EventType::ChannelSubscriptionMessage => Event::ChannelSubscriptionMessageV1(payload),
        EventType::ChannelGoalBegin => Event::ChannelGoalBeginV1(payload),
        EventType::ChannelGoalProgress => Event::ChannelGoalProgressV1(payload),
        EventType::ChannelGoalEnd => Event::ChannelGoalEndV1(payload),
        EventType::ChannelHypeTrainBegin => Event::ChannelHypeTrainBeginV1(payload),
        EventType::ChannelHypeTrainProgress => Event::ChannelHypeTrainProgressV1(payload),
        EventType::ChannelHypeTrainEnd => Event::ChannelHypeTrainEndV1(payload),
        EventType::StreamOnline => Event::StreamOnlineV1(payload),
        EventType::StreamOffline => Event::StreamOfflineV1(payload),
        EventType::UserUpdate => Event::UserUpdateV1(payload),
        EventType::UserAuthorizationGrant => Event::UserAuthorizationGrantV1(payload),
        EventType::UserAuthorizationRevoke => Event::UserAuthorizationRevokeV1(payload),
    }
}

impl Event {
    /// The payload wrapped by this event, whichever variant holds it.
    pub fn payload(&self) -> (r: &Payload)
        ensures
            *r == spec_payload_of_event(*self),
    {
        match self {
            Event::ChannelUpdateV1(p) => p,
            Event::ChannelFollowV1(p) => p,
            Event::ChannelSubscribeV1(p) => p,
            Event::ChannelCheerV1(p) => p,
            Event::ChannelBanV1(p) => p,
            Event::ChannelUnbanV1(p) => p,
            Event::ChannelPointsCustomRewardAddV1(p) => p,
            Event::ChannelPointsCustomRewardUpdateV1(p) => p,
            Event::ChannelPointsCustomRewardRemoveV1(p) => p,
            Event::ChannelPointsCustomRewardRedemptionAddV1(p) => p,
            Event::ChannelPointsCustomRewardRedemptionUpdateV1(p) => p,
            Event::ChannelPollBeginV1(p) => p,
            Event::ChannelPollProgressV1(p) => p,
            Event::ChannelPollEndV1(p) => p,
            Event::ChannelPredictionBeginV1(p) => p,
            Event::ChannelPredictionProgressV1(p) => p,
            Event::ChannelPredictionLockV1(p) => p,
            Event::ChannelPredictionEndV1(p) => p,
            Event::ChannelRaidV1(p) => p,
            Event::ChannelSubscriptionEndV1(p) => p,
            Event::ChannelSubscriptionGiftV1(p) => p,
            Event::ChannelSubscriptionMessageV1(p) => p,
            Event::ChannelGoalBeginV1(p) => p,
            Event::ChannelGoalProgressV1(p) => p,
            Event::ChannelGoalEndV1(p) => p,
            Event::ChannelHypeTrainBeginV1(p) => p,
            Event::ChannelHypeTrainProgressV1(p) => p,
            Event::ChannelHypeTrainEndV1(p) => p,
            Event::StreamOnlineV1(p) => p,
            Event::StreamOfflineV1(p) => p,
            Event::UserUpdateV1(p) => p,
            Event::UserAuthorizationGrantV1(p) => p,
            Event::UserAuthorizationRevokeV1(p) => p,
        }
    }

    /// The event family this event belongs to.
    pub fn event_type(&self) -> (r: EventType)
        ensures
            r == spec_event_type(*self),
    {
        match self {
            Event::ChannelUpdateV1(_) => EventType::ChannelUpdate,
            Event::ChannelFollowV1(_) => EventType::ChannelFollow,
            Event::ChannelSubscribeV1(_) => EventType::ChannelSubscribe,
            Event::ChannelCheerV1(_) => EventType::ChannelCheer,
            Event::ChannelBanV1(_) => EventType::ChannelBan,
            Event::ChannelUnbanV1(_) => EventType::ChannelUnban,
            Event::ChannelPointsCustomRewardAddV1(_) => EventType::ChannelPointsCustomRewardAdd,
            Event::ChannelPointsCustomRewardUpdateV1(_) => EventType::ChannelPointsCustomRewardUpdate,
            Event::ChannelPointsCustomRewardRemoveV1(_) => EventType::ChannelPointsCustomRewardRemove,
            Event::ChannelPointsCustomRewardRedemptionAddV1(_) => EventType::ChannelPointsCustomRewardRedemptionAdd,
            Event::ChannelPointsCustomRewardRedemptionUpdateV1(_) => EventType::ChannelPointsCustomRewardRedemptionUpdate,
            Event::ChannelPollBeginV1(_) => EventType::ChannelPollBegin,
            Event::ChannelPollProgressV1(_) => EventType::ChannelPollProgress,
            Event::ChannelPollEndV1(_) => EventType::ChannelPollEnd,
            Event::ChannelPredictionBeginV1(_) => EventType::ChannelPredictionBegin,
            Event::ChannelPredictionProgressV1(_) => EventType::ChannelPredictionProgress,
            Event::ChannelPredictionLockV1(_) => EventType::ChannelPredictionLock,
            Event::ChannelPredictionEndV1(_) => EventType::ChannelPredictionEnd,
            Event::ChannelRaidV1(_) => EventType::ChannelRaid,
            Event::ChannelSubscriptionEndV1(_) => EventType::ChannelSubscriptionEnd,
            Event::ChannelSubscriptionGiftV1(_) => EventType::ChannelSubscriptionGift,
            Event::ChannelSubscriptionMessageV1(_) => EventType::ChannelSubscriptionMessage,
            Event::ChannelGoalBeginV1(_) => EventType::ChannelGoalBegin,
            Event::ChannelGoalProgressV1(_) => EventType::ChannelGoalProgress,
            Event::ChannelGoalEndV1(_) => EventType::ChannelGoalEnd,
            Event::ChannelHypeTrainBeginV1(_) => EventType::ChannelHypeTrainBegin,
            Event::ChannelHypeTrainProgressV1(_) => EventType::ChannelHypeTrainProgress,
            Event::ChannelHypeTrainEndV1(_) => EventType::ChannelHypeTrainEnd,
            Event::StreamOnlineV1(_) => EventType::StreamOnline,
            Event::StreamOfflineV1(_) => EventType::StreamOffline,
            Event::UserUpdateV1(_) => EventType::UserUpdate,
            Event::UserAuthorizationGrantV1(_) => EventType::UserAuthorizationGrant,
            Event::UserAuthorizationRevokeV1(_) => EventType::UserAuthorizationRevoke,
        }
    }

    /// The schema version this event was dispatched under; every catalog
    /// entry currently has schema version "1".
    pub fn event_version(&self) -> (r: &'static str)
        ensures
            spec_version_supported(spec_event_type(*self), r@),
    {
        "1"
    }
}

/// Law: the wire-string/tag mapping of the catalog is a bijection: each
/// family's wire string resolves back to that family, so no two families
/// share a wire string.
#[verifier::rlimit(100)]
pub proof fn lemma_wire_round_trip(t: EventType)
    ensures
        spec_tag_of_wire(spec_wire_of_tag(t)) == Some(t),
{
    reveal_strlit("channel.update");
    reveal_strlit("channel.follow");
    reveal_strlit("channel.subscribe");
    reveal_strlit("channel.cheer");
    reveal_strlit("channel.ban");
    reveal_strlit("channel.unban");
    reveal_strlit("channel.channel_points_custom_reward.add");
    reveal_strlit("channel.channel_points_custom_reward.update");
    reveal_strlit("channel.channel_points_custom_reward.remove");
    reveal_strlit("channel.channel_points_custom_reward_redemption.add");
    reveal_strlit("channel.channel_points_custom_reward_redemption.update");
    reveal_strlit("channel.poll.begin");
    reveal_strlit("channel.poll.progress");
    reveal_strlit("channel.poll.end");
    reveal_strlit("channel.prediction.begin");
    reveal_strlit("channel.prediction.progress");
    reveal_strlit("channel.prediction.lock");
    reveal_strlit("channel.prediction.end");
    reveal_strlit("channel.raid");
    reveal_strlit("channel.subscription.end");
    reveal_strlit("channel.subscription.gift");
    reveal_strlit("channel.subscription.message");
    reveal_strlit("channel.goal.begin");
    reveal_strlit("channel.goal.progress");
    reveal_strlit("channel.goal.end");
    reveal_strlit("channel.hype_train.begin");
    reveal_strlit("channel.hype_train.progress");
    reveal_strlit("channel.hype_train.end");
    reveal_strlit("stream.online");
    reveal_strlit("stream.offline");
    reveal_strlit("user.update");
    reveal_strlit("user.authorization.revoke");
    reveal_strlit("user.authorization.grant");
    assert("channel.update"@.len() == 14);
    assert("channel.follow"@.len() == 14);
    assert("channel.subscribe"@.len() == 17);
    assert("channel.cheer"@.len() == 13);
    assert("channel.ban"@.len() == 11);
    assert("channel.unban"@.len() == 13);
    assert("channel.channel_points_custom_reward.add"@.len() == 40);
    assert("channel.channel_points_custom_reward.update"@.len() == 43);
    assert("channel.channel_points_custom_reward.remove"@.len() == 43);
    assert("channel.channel_points_custom_reward_redemption.add"@.len() == 51);
    assert("channel.channel_points_custom_reward_redemption.update"@.len() == 54);
    assert("channel.poll.begin"@.len() == 18);
    assert("channel.poll.progress"@.len() == 21);
    assert("channel.poll.end"@.len() == 16);
    assert("channel.prediction.begin"@.len() == 24);
    assert("channel.prediction.progress"@.len() == 27);
    assert("channel.prediction.lock"@.len() == 23);
    assert("channel.prediction.end"@.len() == 22);
    assert("channel.raid"@.len() == 12);
    assert("channel.subscription.end"@.len() == 24);
    assert("channel.subscription.gift"@.len() == 25);
    assert("channel.subscription.message"@.len() == 28);
    assert("channel.goal.begin"@.len() == 18);
    assert("channel.goal.progress"@.len() == 21);
    assert("channel.goal.end"@.len() == 16);
    assert("channel.hype_train.begin"@.len() == 24);
    assert("channel.hype_train.progress"@.len() == 27);
    assert("channel.hype_train.end"@.len() == 22);
    assert("stream.online"@.len() == 13);
    assert("stream.offline"@.len() == 14);
    assert("user.update"@.len() == 11);
    assert("user.authorization.revoke"@.len() == 25);
    assert("user.authorization.grant"@.len() == 24);
    assert("channel.ban"@[0] == 'c');
    assert("channel.channel_points_custom_reward.remove"@[37] == 'r');
    assert("channel.channel_points_custom_reward.update"@[37] == 'u');
    assert("channel.cheer"@[0] == 'c');
    assert("channel.cheer"@[8] == 'c');
    assert("channel.follow"@[0] == 'c');
    assert("channel.follow"@[8] == 'f');
    assert("channel.goal.begin"@[8] == 'g');
    assert("channel.goal.end"@[8] == 'g');
    assert("channel.goal.progress"@[8] == 'g');
    assert("channel.hype_train.begin"@[0] == 'c');
    assert("channel.hype_train.begin"@[8] == 'h');
    assert("channel.hype_train.end"@[8] == 'h');
    assert("channel.hype_train.progress"@[8] == 'h');
    assert("channel.poll.begin"@[8] == 'p');
    assert("channel.poll.end"@[8] == 'p');
    assert("channel.poll.progress"@[8] == 'p');
    assert("channel.prediction.begin"@[0] == 'c');
    assert("channel.prediction.begin"@[8] == 'p');
    assert("channel.prediction.end"@[8] == 'p');
    assert("channel.prediction.progress"@[8] == 'p');
    assert("channel.subscription.end"@[0] == 'c');
    assert("channel.subscription.end"@[8] == 's');
    assert("channel.subscription.gift"@[0] == 'c');
    assert("channel.unban"@[0] == 'c');
    assert("channel.unban"@[8] == 'u');
    assert("channel.update"@[0] == 'c');
    assert("channel.update"@[8] == 'u');
    assert("stream.offline"@[0] == 's');
    assert("stream.online"@[0] == 's');
    assert("user.authorization.grant"@[0] == 'u');
    assert("user.authorization.revoke"@[0] == 'u');
    assert("user.update"@[0] == 'u');
}

/// What the text path parses a source string into: the body, as a JSON
/// document, or nothing when the source is not one.
pub open spec fn spec_parse_text_json(s: Seq<char>) -> Option<Json> {
    spec_json_of(encode_utf8(s))
}

/// True when the routing metadata can be extracted from a message body: a
/// JSON object whose `subscription` block is an object carrying `type` and
/// `version` strings.
pub open spec fn spec_envelope_fields_ok(j: Json) -> bool {
    &&& j is Obj
    &&& spec_obj_get(j->Obj_0@, "subscription"@) matches Some(Json::Obj(_))
    &&& spec_field_is_str(spec_envelope_sub(j), "type"@)
    &&& spec_field_is_str(spec_envelope_sub(j), "version"@)
}

/// The fields of the `subscription` block.
pub open spec fn spec_envelope_sub(j: Json) -> Seq<(String, Json)> {
    spec_obj_get(j->Obj_0@, "subscription"@)->Some_0->Obj_0@
}

/// The declared wire-level type string.
pub open spec fn spec_envelope_type_str(j: Json) -> Seq<char> {
    spec_obj_get(spec_envelope_sub(j), "type"@)->Some_0->Str_0@
}

/// The declared schema version string.
pub open spec fn spec_envelope_version(j: Json) -> Seq<char> {
    spec_obj_get(spec_envelope_sub(j), "version"@)->Some_0->Str_0@
}

/// The message kind a bare body declares: a populated `event` field makes a
/// notification, else a populated `challenge` field makes a verification
/// request, else the message is a revocation.
pub open spec fn spec_envelope_kind(j: Json) -> MessageKind {
    if spec_obj_populated(j->Obj_0@, "event"@) {
        MessageKind::Notification
    } else if spec_obj_populated(j->Obj_0@, "challenge"@) {
        MessageKind::VerificationRequest
    } else {
        MessageKind::Revocation
    }
}

/// How a routing-metadata result must relate to the body it was read from.
pub open spec fn spec_envelope_matches(
    r: Result<(String, EventType, MessageKind), PayloadParseError>,
    j: Json,
) -> bool {
    if !spec_envelope_fields_ok(j) {
        r matches Err(PayloadParseError::MalformedEvent)
    } else {
        match spec_tag_of_wire(spec_envelope_type_str(j)) {
            None => r matches Err(PayloadParseError::UnknownEventType(s)) && s@
                == spec_envelope_type_str(j),
            Some(t) => r matches Ok((v, ty, k)) && v@ == spec_envelope_version(j) && ty == t && k
                == spec_envelope_kind(j),
        }
    }
}

/// Extracts the routing metadata from a parsed message body.
fn envelope_from_json(j: &Json) -> (r: Result<
    (String, EventType, MessageKind),
    PayloadParseError,
>)
    ensures
        spec_envelope_matches(r, *j),
{
    let fields = match j {
        Json::Obj(f) => f,
        _ => {
            return Err(PayloadParseError::MalformedEvent);
        },
    };
    let sub_fields = match obj_get(fields, "subscription") {
        Some(Json::Obj(sf)) => sf,
        _ => {
            return Err(PayloadParseError::MalformedEvent);
        },
    };
    let ty_str = match obj_get(sub_fields, "type") {
        Some(Json::Str(s)) => s,
        _ => {
            return Err(PayloadParseError::MalformedEvent);
        },
    };
    let version = match obj_get(sub_fields, "version") {
        Some(Json::Str(s)) => s,
        _ => {
            return Err(PayloadParseError::MalformedEvent);
        },
    };
    let tag = match EventType::from_wire(ty_str.as_str()) {
        Some(t) => t,
        None => {
            return Err(PayloadParseError::UnknownEventType(ty_str.clone()));
        },
    };
    let kind = match obj_get(fields, "event") {
        Some(Json::Null) | None => {
            match obj_get(fields, "challenge") {
                Some(Json::Null) | None => MessageKind::Revocation,
                Some(_) => MessageKind::VerificationRequest,
            }
        },
        Some(_) => MessageKind::Notification,
    };
    Ok((version.clone(), tag, kind))
}

/// Helper function to get version, type and kind of event from a text body.
///
/// The body itself decides the message kind here: see
/// [`spec_envelope_kind`].
pub fn get_version_event_type_and_message_type_from_text(source: &str) -> (r: Result<
    (String, EventType, MessageKind),
    PayloadParseError,
>)
    ensures
        match spec_parse_text_json(source@) {
            None => r matches Err(PayloadParseError::MalformedEvent),
            Some(j) => spec_envelope_matches(r, j),
        },
{
    match parse_json_bytes(source.as_bytes()) {
        Some(j) => envelope_from_json(&j),
        None => Err(PayloadParseError::MalformedEvent),
    }
}

/// How a dispatch result must relate to the routing metadata and the body.
pub open spec fn spec_dispatch_matches(
    r: Result<Event, PayloadParseError>,
    version: Seq<char>,
    tag: EventType,
    kind: MessageKind,
    j: Json,
    strict: bool,
) -> bool {
    if !spec_version_supported(tag, version) {
        r matches Err(PayloadParseError::UnimplementedEvent { version: v, event_type: t }) && v@
            == version && t == tag
    } else {
        match spec_payload_err(j, kind, strict) {
            Some(path) => r matches Err(PayloadParseError::DeserializeError(p)) && p@ == path,
            None => r == Ok::<Event, PayloadParseError>(
                spec_make_event(tag, spec_payload_value(j, kind)),
            ),
        }
    }
}

/// Looks up the catalog entry for (`tag`, `version`) and checks `body`
/// against its payload schema.
fn dispatch(version: &str, tag: EventType, kind: MessageKind, body: Json, strict: bool) -> (r:
    Result<Event, PayloadParseError>)
    ensures
        spec_dispatch_matches(r, version@, tag, kind, body, strict),
{
    if !str_eq(version, "1") {
        return Err(
            PayloadParseError::UnimplementedEvent { version: version.to_owned(), event_type: tag },
        );
    }
    match Payload::from_json(body, kind, strict) {
        Ok(p) => Ok(make_event(tag, p)),
        Err(e) => Err(e),
    }
}

/// How a full parse result must relate to a message body.
pub open spec fn spec_parse_json_matches(
    r: Result<Event, PayloadParseError>,
    j: Json,
    strict: bool,
) -> bool {
    if !spec_envelope_fields_ok(j) {
        r matches Err(PayloadParseError::MalformedEvent)
    } else {
        match spec_tag_of_wire(spec_envelope_type_str(j)) {
            None => r matches Err(PayloadParseError::UnknownEventType(s)) && s@
                == spec_envelope_type_str(j),
            Some(t) => spec_dispatch_matches(
                r,
                spec_envelope_version(j),
                t,
                spec_envelope_kind(j),
                j,
                strict,
            ),
        }
    }
}

/// How a full parse result must relate to a text body.
pub open spec fn spec_parse_matches(
    r: Result<Event, PayloadParseError>,
    s: Seq<char>,
    strict: bool,
) -> bool {
    match spec_parse_text_json(s) {
        None => r matches Err(PayloadParseError::MalformedEvent),
        Some(j) => spec_parse_json_matches(r, j, strict),
    }
}

impl Event {
    /// Parse a string slice as an [`Event`]. Consider using
    /// [`Event::parse_http`] instead when a full request is at hand.
    ///
    /// Unknown fields are ignored; [`Event::parse_json`] offers the strict
    /// mode.
    pub fn parse(source: &str) -> (r: Result<Event, PayloadParseError>)
        ensures
            spec_parse_matches(r, source@, false),
    {
        let j = match parse_json_bytes(source.as_bytes()) {
            Some(j) => j,
            None => {
                return Err(PayloadParseError::MalformedEvent);
            },
        };
        Self::parse_json(j, false)
    }

    /// Parse an already-decoded JSON body as an [`Event`], reading the
    /// routing metadata from the body itself.
    ///
    /// In strict mode, fields outside the payload schema at the top level or
    /// in the `subscription` block are rejected.
    pub fn parse_json(body: Json, strict: bool) -> (r: Result<Event, PayloadParseError>)
        ensures
            spec_parse_json_matches(r, body, strict),
    {
        let (version, tag, kind) = match envelope_from_json(&body) {
            Ok(triple) => triple,
            Err(e) => {
                return Err(e);
            },
        };
        dispatch(version.as_str(), tag, kind, body, strict)
    }

    /// Parse a message whose routing metadata arrived separately, as from
    /// HTTP headers, with the raw body bytes.
    ///
    /// The given metadata is authoritative: the body's own `subscription`
    /// block is checked against the payload schema but does not re-route the
    /// message. The catalog is consulted before the body is read, so an
    /// unsupported version is reported whatever the body holds.
    pub fn parse_request(
        version: &str,
        event_type: &EventType,
        message_type: MessageKind,
        source: &[u8],
    ) -> (r: Result<Event, PayloadParseError>)
        ensures
            spec_parse_request_matches(r, version@, *event_type, message_type, source@),
    {
        if !str_eq(version, "1") {
            return Err(
                PayloadParseError::UnimplementedEvent {
                    version: version.to_owned(),
                    event_type: *event_type,
                },
            );
        }
        let j = match parse_json_bytes(source) {
            Some(j) => j,
            None => {
                return Err(PayloadParseError::DeserializeError("body".to_owned()));
            },
        };
        dispatch(version, *event_type, message_type, j, false)
    }
}

/// How a result of the raw-metadata parse path must relate to its inputs:
/// the catalog entry is looked up first, then the body bytes are read.
pub open spec fn spec_parse_request_matches(
    r: Result<Event, PayloadParseError>,
    version: Seq<char>,
    tag: EventType,
    kind: MessageKind,
    body: Seq<u8>,
) -> bool {
    if !spec_version_supported(tag, version) {
        r matches Err(PayloadParseError::UnimplementedEvent { version: v, event_type: t }) && v@
            == version && t == tag
    } else {
        match spec_json_of(body) {
            None => r matches Err(PayloadParseError::DeserializeError(p)) && p@ == "body"@,
            Some(j) => spec_dispatch_matches(r, version, tag, kind, j, false),
        }
    }
}

/// The kind of message a parsed event holds, read off the payload in one
/// place for every variant.
pub open spec fn spec_message_kind(e: Event) -> MessageKind {
    match spec_payload_of_event(e).message {
        Message::Notification(_) => MessageKind::Notification,
        Message::VerificationRequest(_) => MessageKind::VerificationRequest,
        Message::Revocation => MessageKind::Revocation,
    }
}

impl Event {
    /// Returns `true` if the message in the payload is a notification.
    pub fn is_notification(&self) -> (r: bool)
        ensures
            r == (spec_message_kind(*self) == MessageKind::Notification),
    {
        match &self.payload().message {
            Message::Notification(_) => true,
            _ => false,
        }
    }

    /// Returns `true` if the message in the payload is a revocation.
    pub fn is_revocation(&self) -> (r: bool)
        ensures
            r == (spec_message_kind(*self) == MessageKind::Revocation),
    {
        match &self.payload().message {
            Message::Revocation => true,
            _ => false,
        }
    }

    /// Returns `true` if the message in the payload is a verification
    /// request.
    pub fn is_verification_request(&self) -> (r: bool)
        ensures
            r == (spec_message_kind(*self) == MessageKind::VerificationRequest),
    {
        match &self.payload().message {
            Message::VerificationRequest(_) => true,
            _ => false,
        }
    }

    /// If this event is a verification request, returns its message,
    /// challenge included, whichever variant holds it.
    pub fn get_verification_request(&self) -> (r: Option<&VerificationRequest>)
        ensures
            match r {
                Some(v) => spec_payload_of_event(*self).message == Message::VerificationRequest(
                    *v,
                ),
                None => spec_message_kind(*self) != MessageKind::VerificationRequest,
            },
    {
        match &self.payload().message {
            Message::VerificationRequest(v) => Some(v),
            _ => None,
        }
    }

    /// Make an [`EventSubSubscription`] from this message's subscription
    /// block. The resolved type and version are those of the variant, not of
    /// the body's own text.
    ///
    /// Fails when the condition held by the payload is not a JSON object;
    /// a payload produced by parsing always carries one.
    pub fn subscription(&self) -> (r: Result<EventSubSubscription, ConditionParseError>)
        ensures
            ({
                let p = spec_payload_of_event(*self);
                match r {
                    Ok(rec) => {
                        &&& p.subscription.condition is Obj
                        &&& rec.cost == p.subscription.cost
                        &&& json_equiv(p.subscription.condition, rec.condition)
                        &&& rec.created_at@ == p.subscription.created_at@
                        &&& rec.id@ == p.subscription.id@
                        &&& rec.status@ == p.subscription.status@
                        &&& json_equiv(p.subscription.transport, rec.transport)
                        &&& rec.type_ == spec_event_type(*self)
                        &&& spec_version_supported(spec_event_type(*self), rec.version@)
                    },
                    Err(e) => !(p.subscription.condition is Obj) && e
                        == ConditionParseError::NotAnObject,
                }
            }),
    {
        let payload = self.payload();
        match &payload.subscription.condition {
            Json::Obj(_) => {},
            _ => {
                return Err(ConditionParseError::NotAnObject);
            },
        }
        Ok(
            EventSubSubscription {
                cost: payload.subscription.cost,
                condition: payload.subscription.condition.duplicate(),
                created_at: payload.subscription.created_at.clone(),
                id: payload.subscription.id.clone(),
                status: payload.subscription.status.clone(),
                transport: payload.subscription.transport.duplicate(),
                type_: self.event_type(),
                version: self.event_version().to_owned(),
            },
        )
    }
}

/// The HMAC-SHA256 tag of `message` under key `secret`.
///
/// The tag is a function of key and message alone; its value is stated
/// nowhere, so nothing can be concluded about it on given inputs.
pub uninterp spec fn spec_hmac_sha256(secret: Seq<u8>, message: Seq<u8>) -> Seq<u8>;

/// The signature header's required prefix, the ASCII bytes of `sha256=`.
pub open spec fn spec_sig_prefix() -> Seq<u8> {
    seq![115u8, 104u8, 97u8, 50u8, 53u8, 54u8, 61u8]
}

/// True when the signature header starts with `sha256=`.
pub open spec fn spec_sig_prefix_ok(sig: Seq<u8>) -> bool {
    sig.len() >= 7 && sig.subrange(0, 7) == spec_sig_prefix()
}

/// True when the signature header authenticates the message formed of the id
/// header, the timestamp header and the body, in that order, under `secret`:
/// the header is `sha256=` followed by the hex text of the message's
/// HMAC-SHA256 tag.
pub open spec fn spec_signature_accepted(
    secret: Seq<u8>,
    id: Seq<u8>,
    timestamp: Seq<u8>,
    body: Seq<u8>,
    sig: Seq<u8>,
) -> bool {
    &&& spec_sig_prefix_ok(sig)
    &&& spec_is_hex(sig.skip(7))
    &&& spec_hex_decode(sig.skip(7)) == spec_hmac_sha256(secret, id + timestamp + body)
}

/// Relies on `hmac`'s `Hmac<sha2::Sha256>`: `new_from_slice` accepts keys of
/// any length, and `verify_slice` accepts exactly the 32-byte HMAC-SHA256 tag
/// of the processed input, compared in constant time.
#[verifier::external_body]
fn hmac_sha256_verify(secret: &[u8], message: &[u8], signature: &[u8]) -> (r: bool)
    ensures
        r == (signature@ == spec_hmac_sha256(secret@, message@)),
{
    let mut mac = match <hmac::Hmac<sha2::Sha256> as hmac::KeyInit>::new_from_slice(secret) {
        Ok(m) => m,
        Err(_) => {
            return false;
        },
    };
    hmac::Mac::update(&mut mac, message);
    hmac::Mac::verify_slice(mac, signature).is_ok()
}

/// Decides whether a signature header authenticates a message, from the raw
/// values of the id, timestamp and signature headers, the body bytes, and
/// the shared secret.
pub fn verify_eventsub_message(
    secret: &[u8],
    id: &[u8],
    timestamp: &[u8],
    body: &[u8],
    signature_header: &[u8],
) -> (r: bool)
    ensures
        r == spec_signature_accepted(secret@, id@, timestamp@, body@, signature_header@),
{
    if signature_header.len() < 7 {
        proof {
            assert(!spec_sig_prefix_ok(signature_header@));
        }
        return false;
    }
    let prefix_ok = signature_header[0] == 115 && signature_header[1] == 104
        && signature_header[2] == 97 && signature_header[3] == 50 && signature_header[4] == 53
        && signature_header[5] == 54 && signature_header[6] == 61;
    if !prefix_ok {
        proof {
            assert(signature_header@.subrange(0, 7) != spec_sig_prefix()) by {
                if signature_header@.subrange(0, 7) == spec_sig_prefix() {
                    assert(signature_header@[0] == spec_sig_prefix()[0]);
                    assert(signature_header@[1] == spec_sig_prefix()[1]);
                    assert(signature_header@[2] == spec_sig_prefix()[2]);
                    assert(signature_header@[3] == spec_sig_prefix()[3]);
                    assert(signature_header@[4] == spec_sig_prefix()[4]);
                    assert(signature_header@[5] == spec_sig_prefix()[5]);
                    assert(signature_header@[6] == spec_sig_prefix()[6]);
                }
            }
        }
        return false;
    }
    proof {
        assert(signature_header@.subrange(0, 7) =~= spec_sig_prefix());
    }
    let hexpart = vstd::slice::slice_subrange(signature_header, 7, signature_header.len());
    proof {
        assert(hexpart@ =~= signature_header@.skip(7));
    }
    let digest = match crate::hex::hex_decode(hexpart) {
        Some(d) => d,
        None => {
            return false;
        },
    };
    let mut message: Vec<u8> = Vec::new();
    push_bytes(&mut message, id);
    push_bytes(&mut message, timestamp);
    push_bytes(&mut message, body);
    proof {
        assert(message@ =~= id@ + timestamp@ + body@);
    }
    hmac_sha256_verify(secret, message.as_slice(), digest.as_slice())
}

/// The message kind a `Twitch-Eventsub-Message-Type` header value names.
pub open spec fn spec_message_kind_of_header(s: Seq<char>) -> Option<MessageKind> {
    if s == "notification"@ {
        Some(MessageKind::Notification)
    } else if s == "webhook_callback_verification"@ {
        Some(MessageKind::VerificationRequest)
    } else if s == "revocation"@ {
        Some(MessageKind::Revocation)
    } else {
        None
    }
}

/// How routing metadata read from headers must relate to the header values:
/// each is `None` when its header was absent, `Some(None)` when it was not
/// valid text.
pub open spec fn spec_header_envelope_matches(
    r: Result<(String, EventType, MessageKind), PayloadParseError>,
    subscription_type: Option<Option<String>>,
    subscription_version: Option<Option<String>>,
    message_type: Option<Option<String>>,
) -> bool {
    match (subscription_type, subscription_version, message_type) {
        (Some(Some(t)), Some(Some(v)), Some(Some(m))) => match spec_tag_of_wire(t@) {
            None => r matches Err(PayloadParseError::UnknownEventType(s)) && s@ == t@,
            Some(tag) => match spec_message_kind_of_header(m@) {
                None => r matches Err(PayloadParseError::MalformedEvent),
                Some(k) => r matches Ok((v2, ty2, k2)) && v2@ == v@ && ty2 == tag && k2 == k,
            },
        },
        _ => r matches Err(PayloadParseError::MalformedEvent),
    }
}

/// Helper function to get version, type and kind of event from the values of
/// the three dedicated headers.
///
/// For each header, pass `None` when it was absent and `Some(None)` when its
/// value was not valid text; either way the envelope is malformed.
pub fn get_version_event_type_and_message_type_from_http(
    subscription_type: Option<Option<String>>,
    subscription_version: Option<Option<String>>,
    message_type: Option<Option<String>>,
) -> (r: Result<(String, EventType, MessageKind), PayloadParseError>)
    ensures
        spec_header_envelope_matches(
            r,
            subscription_type,
            subscription_version,
            message_type,
        ),
{
    let (ty, version, mt) = match (subscription_type, subscription_version, message_type) {
        (Some(Some(t)), Some(Some(v)), Some(Some(m))) => (t, v, m),
        _ => {
            return Err(PayloadParseError::MalformedEvent);
        },
    };
    let tag = match EventType::from_wire(ty.as_str()) {
        Some(t) => t,
        None => {
            return Err(PayloadParseError::UnknownEventType(ty));
        },
    };
    let kind = if str_eq(mt.as_str(), "notification") {
        MessageKind::Notification
    } else if str_eq(mt.as_str(), "webhook_callback_verification") {
        MessageKind::VerificationRequest
    } else if str_eq(mt.as_str(), "revocation") {
        MessageKind::Revocation
    } else {
        return Err(PayloadParseError::MalformedEvent);
    };
    Ok((version, tag, kind))
}

/// How a result of the http parse path must relate to the request's named
/// header and body contents: the three dedicated headers must be present and
/// valid text, the type string must be in the catalog, the kind header must
/// name a message kind, the catalog entry must support the version, and the
/// body must pass the entry's payload schema.
pub open spec fn spec_parse_http_matches(
    r: Result<Event, PayloadParseError>,
    request: http::Request<Vec<u8>>,
) -> bool {
    match (
        spec_header_of(request, "Twitch-Eventsub-Subscription-Type"@),
        spec_header_of(request, "Twitch-Eventsub-Subscription-Version"@),
        spec_header_of(request, "Twitch-Eventsub-Message-Type"@),
    ) {
        (Some(t), Some(v), Some(m)) => {
            if !(valid_utf8(t) && valid_utf8(v) && valid_utf8(m)) {
                r matches Err(PayloadParseError::MalformedEvent)
            } else {
                match spec_tag_of_wire(decode_utf8(t)) {
                    None => r matches Err(PayloadParseError::UnknownEventType(s)) && encode_utf8(
                        s@,
                    ) == t,
                    Some(tag) => match spec_message_kind_of_header(decode_utf8(m)) {
                        None => r matches Err(PayloadParseError::MalformedEvent),
                        Some(k) => spec_parse_request_matches(
                            r,
                            decode_utf8(v),
                            tag,
                            k,
                            spec_body_of(request),
                        ),
                    },
                }
            }
        },
        _ => r matches Err(PayloadParseError::MalformedEvent),
    }
}

/// True when the request carries the three authenticity headers and its
/// signature header authenticates its id header, timestamp header and body
/// under `secret`.
pub open spec fn spec_request_authentic(request: http::Request<Vec<u8>>, secret: Seq<u8>) -> bool {
    match (
        spec_header_of(request, "Twitch-Eventsub-Message-Id"@),
        spec_header_of(request, "Twitch-Eventsub-Message-Timestamp"@),
        spec_header_of(request, "Twitch-Eventsub-Message-Signature"@),
    ) {
        (Some(id), Some(timestamp), Some(sig)) => spec_signature_accepted(
            secret,
            id,
            timestamp,
            spec_body_of(request),
            sig,
        ),
        _ => false,
    }
}

impl Event {
    /// Parse a http payload as an [`Event`].
    ///
    /// The dedicated headers are authoritative for the routing metadata; the
    /// body is handed to [`Event::parse_request`].
    pub fn parse_http(request: &http::Request<Vec<u8>>) -> (r: Result<Event, PayloadParseError>)
        ensures
            spec_parse_http_matches(r, *request),
    {
        let ty = crate::httpreq::header_text(request, "Twitch-Eventsub-Subscription-Type");
        let version = crate::httpreq::header_text(request, "Twitch-Eventsub-Subscription-Version");
        let mt = crate::httpreq::header_text(request, "Twitch-Eventsub-Message-Type");
        proof {
            match &ty {
                Some(Some(s)) => vstd::utf8::encode_utf8_decode_utf8(s@),
                _ => (),
            }
            match &version {
                Some(Some(s)) => vstd::utf8::encode_utf8_decode_utf8(s@),
                _ => (),
            }
            match &mt {
                Some(Some(s)) => vstd::utf8::encode_utf8_decode_utf8(s@),
                _ => (),
            }
        }
        let (version, tag, kind) = match get_version_event_type_and_message_type_from_http(
            ty,
            version,
            mt,
        ) {
            Ok(triple) => triple,
            Err(e) => {
                return Err(e);
            },
        };
        let body = crate::httpreq::body_bytes(request);
        Self::parse_request(version.as_str(), &tag, kind, body.as_slice())
    }

    /// Verify that an inbound request is authentic using HMAC-SHA256.
    ///
    /// The HMAC key is `secret`; the HMAC message is the concatenation of the
    /// `Twitch-Eventsub-Message-Id` header, the `Twitch-Eventsub-Message-Timestamp`
    /// header and the request body; the `Twitch-Eventsub-Message-Signature`
    /// header carries `sha256=` followed by the expected tag in hex. A
    /// request with any of the three headers missing is rejected. The
    /// decision on the extracted values is [`verify_eventsub_message`].
    #[must_use]
    pub fn verify_payload(request: &http::Request<Vec<u8>>, secret: &[u8]) -> (r: bool)
        ensures
            r == spec_request_authentic(*request, secret@),
    {
        let id = crate::httpreq::header_bytes(request, "Twitch-Eventsub-Message-Id");
        let timestamp = crate::httpreq::header_bytes(request, "Twitch-Eventsub-Message-Timestamp");
        let signature = crate::httpreq::header_bytes(request, "Twitch-Eventsub-Message-Signature");
        match (id, timestamp, signature) {
            (Some(id), Some(timestamp), Some(signature)) => {
                let body = crate::httpreq::body_bytes(request);
                verify_eventsub_message(
                    secret,
                    id.as_slice(),
                    timestamp.as_slice(),
                    body.as_slice(),
                    signature.as_slice(),
                )
            },
            _ => false,
        }
    }
}

/// Law: distinct event families have distinct wire strings.
pub proof fn lemma_wire_injective(t1: EventType, t2: EventType)
    requires
        spec_wire_of_tag(t1) == spec_wire_of_tag(t2),
    ensures
        t1 == t2,
{
    lemma_wire_round_trip(t1);
    lemma_wire_round_trip(t2);
}

/// Law: every event family has at least one schema version in the catalog.
pub proof fn lemma_every_tag_has_a_version(t: EventType)
    ensures
        spec_version_supported(t, "1"@),
{
}

/// Wrapping a payload and reading it back are inverse, and the variant names
/// the family it was made for.
pub proof fn lemma_make_event_round_trip(t: EventType, p: Payload)
    ensures
        spec_event_type(spec_make_event(t, p)) == t,
        spec_payload_of_event(spec_make_event(t, p)) == p,
{
}

/// Law: a well-formed notification body for a catalog entry routes to that
/// entry's variant, and the result classifies as a notification.
pub proof fn lemma_notification_parse(r: Result<Event, PayloadParseError>, j: Json, strict: bool)
    requires
        spec_parse_json_matches(r, j, strict),
        spec_envelope_fields_ok(j),
        spec_tag_of_wire(spec_envelope_type_str(j)) is Some,
        spec_envelope_kind(j) == MessageKind::Notification,
        spec_version_supported(
            spec_tag_of_wire(spec_envelope_type_str(j))->Some_0,
            spec_envelope_version(j),
        ),
        spec_payload_err(j, MessageKind::Notification, strict) is None,
    ensures
        r matches Ok(e) && {
            &&& spec_event_type(e) == spec_tag_of_wire(spec_envelope_type_str(j))->Some_0
            &&& spec_message_kind(e) == MessageKind::Notification
            &&& spec_payload_of_event(e) == spec_payload_value(j, MessageKind::Notification)
        },
{
    let tag = spec_tag_of_wire(spec_envelope_type_str(j))->Some_0;
    lemma_make_event_round_trip(tag, spec_payload_value(j, MessageKind::Notification));
}

/// Law: a well-formed verification-request body round-trips: the parsed
/// event classifies as a verification request and carries the body's own
/// challenge string.
pub proof fn lemma_verification_round_trip(
    r: Result<Event, PayloadParseError>,
    j: Json,
    strict: bool,
)
    requires
        spec_parse_json_matches(r, j, strict),
        spec_envelope_fields_ok(j),
        spec_tag_of_wire(spec_envelope_type_str(j)) is Some,
        spec_envelope_kind(j) == MessageKind::VerificationRequest,
        spec_version_supported(
            spec_tag_of_wire(spec_envelope_type_str(j))->Some_0,
            spec_envelope_version(j),
        ),
        spec_payload_err(j, MessageKind::VerificationRequest, strict) is None,
    ensures
        r matches Ok(e) && {
            &&& spec_message_kind(e) == MessageKind::VerificationRequest
            &&& spec_payload_of_event(e).message matches Message::VerificationRequest(v)
                && v.challenge@ == spec_obj_get(j->Obj_0@, "challenge"@)->Some_0->Str_0@
        },
{
    let tag = spec_tag_of_wire(spec_envelope_type_str(j))->Some_0;
    lemma_make_event_round_trip(tag, spec_payload_value(j, MessageKind::VerificationRequest));
}

/// Law: a body with neither `event` nor `challenge` populated parses, when
/// it parses at all, to an event that classifies as a revocation.
pub proof fn lemma_revocation_kind(r: Result<Event, PayloadParseError>, j: Json, strict: bool)
    requires
        spec_parse_json_matches(r, j, strict),
        r is Ok,
        !spec_obj_populated(j->Obj_0@, "event"@),
        !spec_obj_populated(j->Obj_0@, "challenge"@),
    ensures
        spec_message_kind(r->Ok_0) == MessageKind::Revocation,
{
    let tag = spec_tag_of_wire(spec_envelope_type_str(j))->Some_0;
    lemma_make_event_round_trip(tag, spec_payload_value(j, MessageKind::Revocation));
}

/// Law: a declared type string outside the catalog yields
/// [`PayloadParseError::UnknownEventType`] carrying that string, however the
/// rest of the body looks.
pub proof fn lemma_unknown_event_type(r: Result<Event, PayloadParseError>, j: Json, strict: bool)
    requires
        spec_parse_json_matches(r, j, strict),
        spec_envelope_fields_ok(j),
        spec_tag_of_wire(spec_envelope_type_str(j)) is None,
    ensures
        r matches Err(PayloadParseError::UnknownEventType(s)) && s@ == spec_envelope_type_str(j),
{
}

/// Law: a recognized type string with an unsupported version string yields
/// [`PayloadParseError::UnimplementedEvent`] with both fields echoing the
/// input exactly.
pub proof fn lemma_unimplemented_version(
    r: Result<Event, PayloadParseError>,
    j: Json,
    strict: bool,
)
    requires
        spec_parse_json_matches(r, j, strict),
        spec_envelope_fields_ok(j),
        spec_tag_of_wire(spec_envelope_type_str(j)) is Some,
        !spec_version_supported(
            spec_tag_of_wire(spec_envelope_type_str(j))->Some_0,
            spec_envelope_version(j),
        ),
    ensures
        r matches Err(PayloadParseError::UnimplementedEvent { version: v, event_type: t }) && v@
            == spec_envelope_version(j) && t == spec_tag_of_wire(spec_envelope_type_str(j))->Some_0,
{
}

/// Law: dispatch-to-metadata consistency: an event parsed from a body
/// belongs to the family the body's type string routed to, and the body's
/// version string is the one its catalog entry supports. With the contract
/// of [`Event::subscription`], the record's resolved type and version equal
/// the pair used for the dispatch match.
pub proof fn lemma_subscription_metadata(r: Result<Event, PayloadParseError>, j: Json, strict: bool)
    requires
        spec_parse_json_matches(r, j, strict),
        r is Ok,
    ensures
        spec_event_type(r->Ok_0) == spec_tag_of_wire(spec_envelope_type_str(j))->Some_0,
        spec_envelope_version(j) == "1"@,
{
    let tag = spec_tag_of_wire(spec_envelope_type_str(j))->Some_0;
    let kind = spec_envelope_kind(j);
    lemma_make_event_round_trip(tag, spec_payload_value(j, kind));
}

/// Law: a signature header formed as `sha256=` followed by the lowercase hex
/// text of the message's HMAC-SHA256 tag is accepted.
pub proof fn lemma_signature_accepts_exact(
    secret: Seq<u8>,
    id: Seq<u8>,
    timestamp: Seq<u8>,
    body: Seq<u8>,
)
    ensures
        spec_signature_accepted(
            secret,
            id,
            timestamp,
            body,
            spec_sig_prefix() + spec_hex_encode(spec_hmac_sha256(secret, id + timestamp + body)),
        ),
{
    let tag = spec_hmac_sha256(secret, id + timestamp + body);
    let sig = spec_sig_prefix() + spec_hex_encode(tag);
    crate::hex::lemma_hex_decode_encode(tag);
    assert(sig.subrange(0, 7) =~= spec_sig_prefix());
    assert(sig.skip(7) =~= spec_hex_encode(tag));
}

/// Law: an accepted signature header carries exactly the HMAC-SHA256 tag of
/// the message under the secret; altering the secret, id, timestamp or body
/// is rejected whenever it changes the tag.
pub proof fn lemma_signature_accepted_only_matching(
    secret: Seq<u8>,
    id: Seq<u8>,
    timestamp: Seq<u8>,
    body: Seq<u8>,
    sig: Seq<u8>,
)
    requires
        spec_signature_accepted(secret, id, timestamp, body, sig),
    ensures
        spec_hex_decode(sig.skip(7)) == spec_hmac_sha256(secret, id + timestamp + body),
{
}

/// Law: a signature header accepted for one message is rejected for any
/// inputs whose HMAC-SHA256 tag differs: altering the secret, the id or
/// timestamp header, or the body is detected whenever it changes the tag.
pub proof fn lemma_signature_rejects_altered(
    secret: Seq<u8>,
    id: Seq<u8>,
    timestamp: Seq<u8>,
    body: Seq<u8>,
    sig: Seq<u8>,
    secret2: Seq<u8>,
    id2: Seq<u8>,
    timestamp2: Seq<u8>,
    body2: Seq<u8>,
)
    requires
        spec_signature_accepted(secret, id, timestamp, body, sig),
        spec_hmac_sha256(secret2, id2 + timestamp2 + body2) != spec_hmac_sha256(
            secret,
            id + timestamp + body,
        ),
    ensures
        !spec_signature_accepted(secret2, id2, timestamp2, body2, sig),
{
}

} // verus!
