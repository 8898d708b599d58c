//! Parsing and classification of EventSub message bodies.

use twitch_api2::eventsub::event::{Event, EventType};
use twitch_api2::eventsub::event::{
    get_version_event_type_and_message_type_from_http,
    get_version_event_type_and_message_type_from_text,
};
use twitch_api2::eventsub::{
    ConditionParseError, EventSubscriptionInformation, Message, MessageKind, Payload,
    PayloadParseError,
};
use twitch_api2::json::Json;

/// Every catalog entry, with its wire-level type string.
fn catalog() -> Vec<(&'static str, EventType)> {
    vec![
        ("channel.update", EventType::ChannelUpdate),
        ("channel.follow", EventType::ChannelFollow),
        ("channel.subscribe", EventType::ChannelSubscribe),
        ("channel.cheer", EventType::ChannelCheer),
        ("channel.ban", EventType::ChannelBan),
        ("channel.unban", EventType::ChannelUnban),
        (
            "channel.channel_points_custom_reward.add",
            EventType::ChannelPointsCustomRewardAdd,
        ),
        (
            "channel.channel_points_custom_reward.update",
            EventType::ChannelPointsCustomRewardUpdate,
        ),
        (
            "channel.channel_points_custom_reward.remove",
            EventType::ChannelPointsCustomRewardRemove,
        ),
        (
            "channel.channel_points_custom_reward_redemption.add",
            EventType::ChannelPointsCustomRewardRedemptionAdd,
        ),
        (
            "channel.channel_points_custom_reward_redemption.update",
            EventType::ChannelPointsCustomRewardRedemptionUpdate,
        ),
        ("channel.poll.begin", EventType::ChannelPollBegin),
        ("channel.poll.progress", EventType::ChannelPollProgress),
        ("channel.poll.end", EventType::ChannelPollEnd),
        ("channel.prediction.begin", EventType::ChannelPredictionBegin),
        (
            "channel.prediction.progress",
            EventType::ChannelPredictionProgress,
        ),
        ("channel.prediction.lock", EventType::ChannelPredictionLock),
        ("channel.prediction.end", EventType::ChannelPredictionEnd),
        ("channel.raid", EventType::ChannelRaid),
        ("channel.subscription.end", EventType::ChannelSubscriptionEnd),
        ("channel.subscription.gift", EventType::ChannelSubscriptionGift),
        (
            "channel.subscription.message",
            EventType::ChannelSubscriptionMessage,
        ),
        ("channel.goal.begin", EventType::ChannelGoalBegin),
        ("channel.goal.progress", EventType::ChannelGoalProgress),
        ("channel.goal.end", EventType::ChannelGoalEnd),
        ("channel.hype_train.begin", EventType::ChannelHypeTrainBegin),
        (
            "channel.hype_train.progress",
            EventType::ChannelHypeTrainProgress,
        ),
        ("channel.hype_train.end", EventType::ChannelHypeTrainEnd),
        ("stream.online", EventType::StreamOnline),
        ("stream.offline", EventType::StreamOffline),
        ("user.update", EventType::UserUpdate),
        ("user.authorization.revoke", EventType::UserAuthorizationRevoke),
        ("user.authorization.grant", EventType::UserAuthorizationGrant),
    ]
}

fn notification_body(ty: &str, version: &str) -> String {
    format!(
        "{{\"subscription\":{{\"type\":\"{}\",\"version\":\"{}\",\"id\":\"x\",\"status\":\"enabled\",\"cost\":0,\"created_at\":\"2020-01-01T00:00:00Z\",\"transport\":{{}},\"condition\":{{}}}},\"event\":{{\"some_field\":1}}}}",
        ty, version
    )
}

fn verification_body(ty: &str, challenge: &str) -> String {
    format!(
        "{{\"subscription\":{{\"type\":\"{}\",\"version\":\"1\",\"id\":\"x\",\"status\":\"webhook_callback_verification_pending\",\"cost\":1,\"created_at\":\"2020-01-01T00:00:00Z\",\"transport\":{{}},\"condition\":{{}}}},\"challenge\":\"{}\"}}",
        ty, challenge
    )
}

fn revocation_body(ty: &str) -> String {
    format!(
        "{{\"subscription\":{{\"type\":\"{}\",\"version\":\"1\",\"id\":\"x\",\"status\":\"authorization_revoked\",\"cost\":1,\"created_at\":\"2020-01-01T00:00:00Z\",\"transport\":{{}},\"condition\":{{}}}}}}",
        ty
    )
}

#[test]
fn stream_online_example_parses() {
    // The documented example: a full stream.online notification.
    let body = "{\"subscription\":{\"type\":\"stream.online\",\"version\":\"1\",\"id\":\"x\",\"status\":\"enabled\",\"cost\":0,\"created_at\":\"2020-01-01T00:00:00Z\",\"transport\":{},\"condition\":{}},\"event\":{\"id\":\"1\",\"broadcaster_user_id\":\"1\",\"broadcaster_user_login\":\"a\",\"broadcaster_user_name\":\"A\",\"type\":\"live\",\"started_at\":\"2020-01-01T00:00:00Z\"}}";
    let event = Event::parse(body).unwrap();
    assert!(matches!(event, Event::StreamOnlineV1(_)));
    assert!(event.is_notification());
    assert!(!event.is_revocation());
    assert!(!event.is_verification_request());
    assert_eq!(event.event_type(), EventType::StreamOnline);
    assert_eq!(event.event_version(), "1");
}

#[test]
fn every_catalog_entry_parses_notifications() {
    for (wire, tag) in catalog() {
        let body = notification_body(wire, "1");
        let event = Event::parse(&body).unwrap();
        assert_eq!(event.event_type(), tag, "wire string {}", wire);
        assert!(event.is_notification());
        assert!(event.get_verification_request().is_none());
    }
}

#[test]
fn every_catalog_entry_round_trips_verification_requests() {
    for (wire, tag) in catalog() {
        let challenge = format!("challenge-for-{}", wire);
        let body = verification_body(wire, &challenge);
        let event = Event::parse(&body).unwrap();
        assert_eq!(event.event_type(), tag);
        assert!(event.is_verification_request());
        let v = event.get_verification_request().unwrap();
        assert_eq!(v.challenge, challenge);
    }
}

#[test]
fn body_without_event_or_challenge_is_revocation() {
    for (wire, _) in catalog() {
        let event = Event::parse(&revocation_body(wire)).unwrap();
        assert!(event.is_revocation());
        assert!(!event.is_notification());
        assert!(!event.is_verification_request());
    }
}

#[test]
fn null_event_and_challenge_read_as_unpopulated() {
    let body = "{\"subscription\":{\"type\":\"channel.ban\",\"version\":\"1\",\"id\":\"x\",\"status\":\"s\",\"cost\":0,\"created_at\":\"c\",\"transport\":{},\"condition\":{}},\"event\":null,\"challenge\":null}";
    let event = Event::parse(body).unwrap();
    assert!(event.is_revocation());
}

#[test]
fn unknown_event_type_is_reported_with_the_string() {
    let body = notification_body("nonexistent.event", "1");
    match Event::parse(&body) {
        Err(PayloadParseError::UnknownEventType(s)) => {
            assert_eq!(s, "nonexistent.event");
        }
        other => panic!("expected UnknownEventType, got {:?}", other),
    }
    // The type string decides alone: even a body that is otherwise broken
    // reports the unknown type.
    let broken = "{\"subscription\":{\"type\":\"nonexistent.event\",\"version\":\"1\"},\"event\":42}";
    match Event::parse(broken) {
        Err(PayloadParseError::UnknownEventType(s)) => {
            assert_eq!(s, "nonexistent.event");
        }
        other => panic!("expected UnknownEventType, got {:?}", other),
    }
}

#[test]
fn unsupported_version_is_reported_with_both_fields() {
    let body = notification_body("channel.update", "2");
    match Event::parse(&body) {
        Err(PayloadParseError::UnimplementedEvent {
            version,
            event_type,
        }) => {
            assert_eq!(version, "2");
            assert_eq!(event_type, EventType::ChannelUpdate);
        }
        other => panic!("expected UnimplementedEvent, got {:?}", other),
    }
}

#[test]
fn malformed_bodies_are_rejected() {
    assert!(matches!(
        Event::parse("this is not json"),
        Err(PayloadParseError::MalformedEvent)
    ));
    assert!(matches!(
        Event::parse("{}"),
        Err(PayloadParseError::MalformedEvent)
    ));
    assert!(matches!(
        Event::parse("{\"subscription\":{\"version\":\"1\"}}"),
        Err(PayloadParseError::MalformedEvent)
    ));
    assert!(matches!(
        Event::parse("{\"subscription\":{\"type\":7,\"version\":\"1\"}}"),
        Err(PayloadParseError::MalformedEvent)
    ));
    assert!(matches!(
        Event::parse("[1,2,3]"),
        Err(PayloadParseError::MalformedEvent)
    ));
}

#[test]
fn schema_violations_name_the_field() {
    let cases = vec![
        (
            "{\"subscription\":{\"type\":\"channel.ban\",\"version\":\"1\",\"status\":\"s\",\"cost\":0,\"created_at\":\"c\",\"transport\":{},\"condition\":{}},\"event\":{}}"
            .to_string(),
            "subscription.id",
        ),
        (
            "{\"subscription\":{\"type\":\"channel.ban\",\"version\":\"1\",\"id\":\"x\",\"status\":\"s\",\"cost\":\"free\",\"created_at\":\"c\",\"transport\":{},\"condition\":{}},\"event\":{}}"
            .to_string(),
            "subscription.cost",
        ),
        (
            "{\"subscription\":{\"type\":\"channel.ban\",\"version\":\"1\",\"id\":\"x\",\"status\":\"s\",\"cost\":-1,\"created_at\":\"c\",\"transport\":{},\"condition\":{}},\"event\":{}}"
            .to_string(),
            "subscription.cost",
        ),
        (
            "{\"subscription\":{\"type\":\"channel.ban\",\"version\":\"1\",\"id\":\"x\",\"status\":\"s\",\"cost\":0,\"created_at\":\"c\",\"transport\":\"webhook\",\"condition\":{}},\"event\":{}}"
            .to_string(),
            "subscription.transport",
        ),
        (
            "{\"subscription\":{\"type\":\"channel.ban\",\"version\":\"1\",\"id\":\"x\",\"status\":\"s\",\"cost\":0,\"created_at\":\"c\",\"transport\":{},\"condition\":{}},\"event\":5}"
            .to_string(),
            "event",
        ),
    ];
    for (body, path) in cases {
        match Event::parse(&body) {
            Err(PayloadParseError::DeserializeError(p)) => assert_eq!(p, path),
            other => panic!("expected DeserializeError({}), got {:?}", path, other),
        }
    }
}

fn minimal_subscription_fields(ty: &str) -> Vec<(String, Json)> {
    vec![
        ("type".to_string(), Json::Str(ty.to_string())),
        ("version".to_string(), Json::Str("1".to_string())),
        ("id".to_string(), Json::Str("x".to_string())),
        ("status".to_string(), Json::Str("enabled".to_string())),
        ("cost".to_string(), Json::Int(0)),
        ("created_at".to_string(), Json::Str("c".to_string())),
        ("transport".to_string(), Json::Obj(vec![])),
        ("condition".to_string(), Json::Obj(vec![])),
    ]
}

#[test]
fn strict_mode_rejects_unknown_fields() {
    let body = Json::Obj(vec![
        (
            "subscription".to_string(),
            Json::Obj(minimal_subscription_fields("channel.cheer")),
        ),
        ("event".to_string(), Json::Obj(vec![])),
        ("surprise".to_string(), Json::Bool(true)),
    ]);
    match Event::parse_json(body, true) {
        Err(PayloadParseError::DeserializeError(p)) => assert_eq!(p, "surprise"),
        other => panic!("expected DeserializeError(surprise), got {:?}", other),
    }

    let mut sub = minimal_subscription_fields("channel.cheer");
    sub.push(("extra".to_string(), Json::Null));
    let body = Json::Obj(vec![
        ("subscription".to_string(), Json::Obj(sub)),
        ("event".to_string(), Json::Obj(vec![])),
    ]);
    match Event::parse_json(body, true) {
        Err(PayloadParseError::DeserializeError(p)) => assert_eq!(p, "extra"),
        other => panic!("expected DeserializeError(extra), got {:?}", other),
    }
}

#[test]
fn permissive_mode_ignores_unknown_fields() {
    let mut sub = minimal_subscription_fields("channel.cheer");
    sub.push(("extra".to_string(), Json::Null));
    let body = Json::Obj(vec![
        ("subscription".to_string(), Json::Obj(sub)),
        ("event".to_string(), Json::Obj(vec![])),
        ("surprise".to_string(), Json::Bool(true)),
    ]);
    let event = Event::parse_json(body, false).unwrap();
    assert!(event.is_notification());
    assert_eq!(event.event_type(), EventType::ChannelCheer);
}

#[test]
fn duplicate_keys_keep_the_parsers_first_match() {
    // Through the text path serde_json keeps one binding per key; through
    // parse_json the first binding wins.
    let body = Json::Obj(vec![
        (
            "subscription".to_string(),
            Json::Obj(minimal_subscription_fields("channel.raid")),
        ),
        ("event".to_string(), Json::Obj(vec![])),
        ("event".to_string(), Json::Str("later".to_string())),
    ]);
    let event = Event::parse_json(body, false).unwrap();
    assert!(event.is_notification());
}

#[test]
fn subscription_record_echoes_dispatch_metadata() {
    let body = notification_body("channel.follow", "1");
    let event = Event::parse(&body).unwrap();
    let record = event.subscription().unwrap();
    assert_eq!(record.type_, EventType::ChannelFollow);
    assert_eq!(record.version, "1");
    assert_eq!(record.id, "x");
    assert_eq!(record.status, "enabled");
    assert_eq!(record.cost, 0);
    assert_eq!(record.created_at, "2020-01-01T00:00:00Z");
    assert_eq!(record.transport, Json::Obj(vec![]));
    assert_eq!(record.condition, Json::Obj(vec![]));
}

#[test]
fn subscription_record_matches_for_every_entry() {
    for (wire, tag) in catalog() {
        let event = Event::parse(&notification_body(wire, "1")).unwrap();
        let record = event.subscription().unwrap();
        assert_eq!(record.type_, tag);
        assert_eq!(record.version, "1");
    }
}

#[test]
fn parse_request_uses_the_given_metadata() {
    let body = revocation_body("channel.ban");
    let event = Event::parse_request(
        "1",
        &EventType::ChannelBan,
        MessageKind::Revocation,
        body.as_bytes(),
    )
    .unwrap();
    assert!(event.is_revocation());
    assert_eq!(event.event_type(), EventType::ChannelBan);

    // The given metadata is authoritative even when the body text says
    // something else.
    let event = Event::parse_request(
        "1",
        &EventType::ChannelCheer,
        MessageKind::Revocation,
        body.as_bytes(),
    )
    .unwrap();
    assert_eq!(event.event_type(), EventType::ChannelCheer);

    match Event::parse_request(
        "3",
        &EventType::ChannelBan,
        MessageKind::Revocation,
        body.as_bytes(),
    ) {
        Err(PayloadParseError::UnimplementedEvent {
            version,
            event_type,
        }) => {
            assert_eq!(version, "3");
            assert_eq!(event_type, EventType::ChannelBan);
        }
        other => panic!("expected UnimplementedEvent, got {:?}", other),
    }

    match Event::parse_request(
        "1",
        &EventType::ChannelBan,
        MessageKind::Notification,
        body.as_bytes(),
    ) {
        Err(PayloadParseError::DeserializeError(p)) => assert_eq!(p, "event"),
        other => panic!("expected DeserializeError(event), got {:?}", other),
    }

    match Event::parse_request(
        "1",
        &EventType::ChannelBan,
        MessageKind::Revocation,
        b"no json here",
    ) {
        Err(PayloadParseError::DeserializeError(p)) => assert_eq!(p, "body"),
        other => panic!("expected DeserializeError(body), got {:?}", other),
    }

    // The catalog is consulted before the body is read: an unsupported
    // version wins even over bytes that are no JSON at all.
    match Event::parse_request(
        "3",
        &EventType::ChannelBan,
        MessageKind::Revocation,
        b"no json here",
    ) {
        Err(PayloadParseError::UnimplementedEvent {
            version,
            event_type,
        }) => {
            assert_eq!(version, "3");
            assert_eq!(event_type, EventType::ChannelBan);
        }
        other => panic!("expected UnimplementedEvent, got {:?}", other),
    }
}

#[test]
fn parse_http_reads_the_headers() {
    let body = notification_body("stream.offline", "1");
    let request = http::Request::builder()
        .header("Twitch-Eventsub-Subscription-Type", "stream.offline")
        .header("Twitch-Eventsub-Subscription-Version", "1")
        .header("Twitch-Eventsub-Message-Type", "notification")
        .body(body.clone().into_bytes())
        .unwrap();
    let event = Event::parse_http(&request).unwrap();
    assert!(event.is_notification());
    assert_eq!(event.event_type(), EventType::StreamOffline);

    let missing = http::Request::builder()
        .header("Twitch-Eventsub-Subscription-Type", "stream.offline")
        .header("Twitch-Eventsub-Subscription-Version", "1")
        .body(body.clone().into_bytes())
        .unwrap();
    assert!(matches!(
        Event::parse_http(&missing),
        Err(PayloadParseError::MalformedEvent)
    ));

    let unknown = http::Request::builder()
        .header("Twitch-Eventsub-Subscription-Type", "stream.sideways")
        .header("Twitch-Eventsub-Subscription-Version", "1")
        .header("Twitch-Eventsub-Message-Type", "notification")
        .body(body.clone().into_bytes())
        .unwrap();
    match Event::parse_http(&unknown) {
        Err(PayloadParseError::UnknownEventType(s)) => assert_eq!(s, "stream.sideways"),
        other => panic!("expected UnknownEventType, got {:?}", other),
    }

    let bad_kind = http::Request::builder()
        .header("Twitch-Eventsub-Subscription-Type", "stream.offline")
        .header("Twitch-Eventsub-Subscription-Version", "1")
        .header("Twitch-Eventsub-Message-Type", "greeting")
        .body(body.into_bytes())
        .unwrap();
    assert!(matches!(
        Event::parse_http(&bad_kind),
        Err(PayloadParseError::MalformedEvent)
    ));
}

#[test]
fn verification_challenge_survives_the_http_path() {
    let body = verification_body("channel.raid", "the-challenge");
    let request = http::Request::builder()
        .header("Twitch-Eventsub-Subscription-Type", "channel.raid")
        .header("Twitch-Eventsub-Subscription-Version", "1")
        .header(
            "Twitch-Eventsub-Message-Type",
            "webhook_callback_verification",
        )
        .body(body.into_bytes())
        .unwrap();
    let event = Event::parse_http(&request).unwrap();
    assert!(event.is_verification_request());
    assert_eq!(
        event.get_verification_request().unwrap().challenge,
        "the-challenge"
    );
    match &event {
        Event::ChannelRaidV1(payload) => match &payload.message {
            Message::VerificationRequest(v) => assert_eq!(v.challenge, "the-challenge"),
            other => panic!("expected a verification request, got {:?}", other),
        },
        other => panic!("expected ChannelRaidV1, got {:?}", other),
    }
}

#[test]
fn hand_built_condition_must_be_an_object() {
    let event = Event::ChannelBanV1(Payload {
        subscription: EventSubscriptionInformation {
            id: "x".to_string(),
            status: "enabled".to_string(),
            cost: 0,
            created_at: "c".to_string(),
            transport: Json::Obj(vec![]),
            condition: Json::Null,
        },
        message: Message::Revocation,
    });
    assert_eq!(
        event.subscription(),
        Err(ConditionParseError::NotAnObject)
    );
}

#[test]
fn text_envelope_helper_reports_the_routing_triple() {
    let body = notification_body("channel.cheer", "1");
    let (version, tag, kind) =
        get_version_event_type_and_message_type_from_text(&body).unwrap();
    assert_eq!(version, "1");
    assert_eq!(tag, EventType::ChannelCheer);
    assert_eq!(kind, MessageKind::Notification);

    let (_, _, kind) =
        get_version_event_type_and_message_type_from_text(&revocation_body("channel.cheer"))
            .unwrap();
    assert_eq!(kind, MessageKind::Revocation);

    assert!(get_version_event_type_and_message_type_from_text("{}").is_err());
}

#[test]
fn header_envelope_helper_reports_the_routing_triple() {
    let triple = get_version_event_type_and_message_type_from_http(
        Some(Some("channel.cheer".to_string())),
        Some(Some("1".to_string())),
        Some(Some("revocation".to_string())),
    )
    .unwrap();
    assert_eq!(triple.0, "1");
    assert_eq!(triple.1, EventType::ChannelCheer);
    assert_eq!(triple.2, MessageKind::Revocation);

    // An absent header and a header that is not text are both malformed.
    assert!(matches!(
        get_version_event_type_and_message_type_from_http(
            None,
            Some(Some("1".to_string())),
            Some(Some("revocation".to_string())),
        ),
        Err(PayloadParseError::MalformedEvent)
    ));
    assert!(matches!(
        get_version_event_type_and_message_type_from_http(
            Some(Some("channel.cheer".to_string())),
            Some(None),
            Some(Some("revocation".to_string())),
        ),
        Err(PayloadParseError::MalformedEvent)
    ));
}
