//! The client holders, URL construction, hex decoding, and the TMI response
//! decoders.

use twitch_api2::client::ClientDefault;
use twitch_api2::helix::chat::GetGlobalEmotesRequest;
use twitch_api2::helix::hypetrain::HypeTrainEventType;
use twitch_api2::helix::webhooks::ChannelBanChangeEventsTopic;
use twitch_api2::helix::{
    Cursor, EmptyBody, HelixClient, HelixRequestBody, HelixRequestError, ResponseEnvelope,
};
use twitch_api2::hex::hex_decode;
use twitch_api2::json::{parse_json_bytes, Json};
use twitch_api2::tmi::{
    get_chatters_url, get_hosts_url, u64_to_string, GetChatters, GetHosts, Host, HostsRequestId,
    TmiClient,
};

#[derive(Clone, Debug, PartialEq)]
struct DummyHttpClient {
    name: &'static str,
}

impl ClientDefault for DummyHttpClient {
    fn default_client() -> Self {
        DummyHttpClient { name: "default" }
    }
}

#[test]
fn helix_client_holds_its_client() {
    let client: HelixClient<DummyHttpClient> =
        HelixClient::with_client(DummyHttpClient { name: "mine" });
    assert_eq!(client.get_client().name, "mine");
    assert_eq!(client.clone_client().name, "mine");
    let fresh: HelixClient<DummyHttpClient> = HelixClient::new();
    assert_eq!(fresh.get_client().name, "default");
}

#[test]
fn tmi_client_holds_its_client() {
    let client: TmiClient<DummyHttpClient> =
        TmiClient::with_client(DummyHttpClient { name: "mine" });
    assert_eq!(client.clone_client().name, "mine");
    let fresh: TmiClient<DummyHttpClient> = TmiClient::new();
    assert_eq!(fresh.clone_client().name, "default");
}

#[test]
fn empty_body_serializes_to_nothing() {
    assert_eq!(EmptyBody.try_to_body(), Ok(Vec::new()));
}

#[test]
fn chatters_url_sanitizes_the_login() {
    assert_eq!(
        get_chatters_url("#JustinFan10").unwrap(),
        "https://tmi.twitch.tv/group/user/justinfan10/chatters"
    );
    assert_eq!(
        get_chatters_url("plain").unwrap(),
        "https://tmi.twitch.tv/group/user/plain/chatters"
    );
    assert_eq!(
        get_chatters_url("##A#B#").unwrap(),
        "https://tmi.twitch.tv/group/user/ab/chatters"
    );
}

#[test]
fn hosts_url_spells_the_query() {
    assert_eq!(
        get_hosts_url(true, &HostsRequestId::Host(12345)),
        "https://tmi.twitch.tv/hosts?include_logins=1&host=12345"
    );
    assert_eq!(
        get_hosts_url(false, &HostsRequestId::Target(0)),
        "https://tmi.twitch.tv/hosts?target=0"
    );
}

#[test]
fn decimal_rendering_is_exact() {
    assert_eq!(u64_to_string(0), "0");
    assert_eq!(u64_to_string(7), "7");
    assert_eq!(u64_to_string(10), "10");
    assert_eq!(u64_to_string(1234567890), "1234567890");
    assert_eq!(u64_to_string(u64::MAX), "18446744073709551615");
}

#[test]
fn hex_decoding_is_exact() {
    assert_eq!(hex_decode(b"00ff10"), Some(vec![0x00, 0xff, 0x10]));
    assert_eq!(hex_decode(b"00FF10"), Some(vec![0x00, 0xff, 0x10]));
    assert_eq!(hex_decode(b""), Some(vec![]));
    assert_eq!(hex_decode(b"0"), None);
    assert_eq!(hex_decode(b"0g"), None);
}

#[test]
fn chatters_response_decodes() {
    let body = br#"{
        "chatter_count": 3,
        "chatters": {
            "broadcaster": ["streamer"],
            "vips": [],
            "moderators": ["mod1"],
            "staff": [],
            "admins": [],
            "global_mods": [],
            "viewers": ["a", "b"]
        }
    }"#;
    let j = parse_json_bytes(body).unwrap();
    let chatters = GetChatters::from_json(&j).unwrap();
    assert_eq!(chatters.chatter_count, 3);
    assert_eq!(chatters.chatters.broadcaster, vec!["streamer".to_string()]);
    assert_eq!(chatters.chatters.moderators, vec!["mod1".to_string()]);
    assert_eq!(
        chatters.chatters.viewers,
        vec!["a".to_string(), "b".to_string()]
    );
    assert!(chatters.chatters.vips.is_empty());

    let missing_rank = parse_json_bytes(br#"{"chatter_count": 3, "chatters": {}}"#).unwrap();
    assert_eq!(GetChatters::from_json(&missing_rank), None);

    let bad_count =
        parse_json_bytes(br#"{"chatter_count": "3", "chatters": {}}"#).unwrap();
    assert_eq!(GetChatters::from_json(&bad_count), None);
}

#[test]
fn hosts_response_decodes() {
    let body = br#"{
        "hosts": [
            {
                "host_id": 100,
                "target_id": 200,
                "host_login": "hoster",
                "target_login": "hosted",
                "host_display_name": "Hoster",
                "target_display_name": "Hosted"
            },
            {
                "host_id": 300,
                "target_id": null
            }
        ]
    }"#;
    let j = parse_json_bytes(body).unwrap();
    let hosts = GetHosts::from_json(&j).unwrap();
    assert_eq!(hosts.hosts.len(), 2);
    assert_eq!(
        hosts.hosts[0],
        Host {
            host_id: 100,
            target_id: Some(200),
            host_login: Some("hoster".to_string()),
            target_login: Some("hosted".to_string()),
            host_display_name: Some("Hoster".to_string()),
            target_display_name: Some("Hosted".to_string()),
        }
    );
    assert_eq!(
        hosts.hosts[1],
        Host {
            host_id: 300,
            target_id: None,
            host_login: None,
            target_login: None,
            host_display_name: None,
            target_display_name: None,
        }
    );

    let bad = parse_json_bytes(br#"{"hosts": [{"host_id": "x"}]}"#).unwrap();
    assert_eq!(GetHosts::from_json(&bad), None);
}

#[test]
fn json_values_duplicate_deeply() {
    let j = parse_json_bytes(br#"{"a": [1, "two", null, true], "b": {"c": 2.5}}"#).unwrap();
    let copy = j.duplicate();
    assert_eq!(j, copy);
}

#[test]
fn numbers_outside_i64_are_kept_as_text() {
    let j = parse_json_bytes(b"[9223372036854775807, 18446744073709551615, 1.5]").unwrap();
    match j {
        Json::Arr(items) => {
            assert_eq!(items[0], Json::Int(i64::MAX));
            assert!(matches!(&items[1], Json::NumOther(s) if s == "18446744073709551615"));
            assert!(matches!(&items[2], Json::NumOther(_)));
        }
        other => panic!("expected an array, got {:?}", other),
    }
}

#[test]
fn helix_error_envelope_decodes() {
    let j = parse_json_bytes(
        br#"{"error":"Unauthorized","status":401,"message":"Invalid OAuth token"}"#,
    )
    .unwrap();
    let err = HelixRequestError::from_json(&j).unwrap();
    assert_eq!(err.error, "Unauthorized");
    assert_eq!(err.status, 401);
    assert_eq!(err.message, "Invalid OAuth token");

    let not_err = parse_json_bytes(br#"{"data":[]}"#).unwrap();
    assert_eq!(HelixRequestError::from_json(&not_err), None);
}

#[test]
fn helix_response_envelope_decodes() {
    let j = parse_json_bytes(
        br#"{"data":[1,2],"pagination":{"cursor":"abc"},"total":2}"#,
    )
    .unwrap();
    let envelope = ResponseEnvelope::from_json(j).unwrap();
    assert_eq!(envelope.data, Json::Arr(vec![Json::Int(1), Json::Int(2)]));
    assert_eq!(envelope.pagination, Some(Cursor("abc".to_string())));
    assert_eq!(envelope.total, Some(2));

    let bare = parse_json_bytes(br#"{"data":[]}"#).unwrap();
    let envelope = ResponseEnvelope::from_json(bare).unwrap();
    assert_eq!(envelope.data, Json::Arr(vec![]));
    assert_eq!(envelope.pagination, None);
    assert_eq!(envelope.total, None);

    let empty_pagination = parse_json_bytes(br#"{"data":[],"pagination":{}}"#).unwrap();
    let envelope = ResponseEnvelope::from_json(empty_pagination).unwrap();
    assert_eq!(envelope.pagination, None);

    let no_data = parse_json_bytes(br#"{"total":2}"#).unwrap();
    assert_eq!(ResponseEnvelope::from_json(no_data), None);
}

#[test]
fn parameterless_and_topic_requests_are_plain_data() {
    assert_eq!(GetGlobalEmotesRequest::default(), GetGlobalEmotesRequest {});
    assert_eq!(
        HypeTrainEventType::Progression.to_wire(),
        "hypetrain.progression"
    );
    let topic = ChannelBanChangeEventsTopic::new("5678".to_string());
    assert_eq!(topic.broadcaster_id, "5678");
    assert_eq!(topic.first(), 1);
}
