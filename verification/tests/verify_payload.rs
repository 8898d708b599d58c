//! Authenticity verification of inbound requests.

use hmac::{KeyInit, Mac};
use twitch_api2::eventsub::event::{verify_eventsub_message, Event};

fn hmac_hex(secret: &[u8], id: &[u8], timestamp: &[u8], body: &[u8]) -> String {
    let mut mac = <hmac::Hmac<sha2::Sha256> as KeyInit>::new_from_slice(secret).unwrap();
    Mac::update(&mut mac, id);
    Mac::update(&mut mac, timestamp);
    Mac::update(&mut mac, body);
    let tag = mac.finalize().into_bytes();
    let mut out = String::new();
    for b in tag.iter() {
        out.push_str(&format!("{:02x}", b));
    }
    out
}

fn signed_request(
    secret: &[u8],
    id: &str,
    timestamp: &str,
    body: &str,
    signature: &str,
) -> http::Request<Vec<u8>> {
    let _ = secret;
    http::Request::builder()
        .header("Twitch-Eventsub-Message-Id", id)
        .header("Twitch-Eventsub-Message-Timestamp", timestamp)
        .header("Twitch-Eventsub-Message-Signature", signature)
        .body(body.as_bytes().to_vec())
        .unwrap()
}

#[test]
fn correct_signature_verifies() {
    let secret = b"secretabcd";
    let id = "84c1e79a-2a4b-4c13-ba0b-4312293e9308";
    let timestamp = "2019-11-16T10:11:12.123Z";
    let body = "{\"subscription\":{},\"event\":{}}";
    let sig = format!(
        "sha256={}",
        hmac_hex(secret, id.as_bytes(), timestamp.as_bytes(), body.as_bytes())
    );
    let request = signed_request(secret, id, timestamp, body, &sig);
    assert!(Event::verify_payload(&request, secret));
}

#[test]
fn uppercase_hex_also_verifies() {
    // Decoding accepts both digit cases, as a digit-by-digit read does.
    let secret = b"secretabcd";
    let id = "id-1";
    let timestamp = "2020-01-01T00:00:00Z";
    let body = "payload";
    let sig = format!(
        "sha256={}",
        hmac_hex(secret, id.as_bytes(), timestamp.as_bytes(), body.as_bytes()).to_uppercase()
    );
    let request = signed_request(secret, id, timestamp, body, &sig);
    assert!(Event::verify_payload(&request, secret));
}

#[test]
fn altering_any_input_fails_verification() {
    let secret = b"secretabcd";
    let id = "id-1";
    let timestamp = "2020-01-01T00:00:00Z";
    let body = "payload";
    let sig = format!(
        "sha256={}",
        hmac_hex(secret, id.as_bytes(), timestamp.as_bytes(), body.as_bytes())
    );

    let altered_body = signed_request(secret, id, timestamp, "Payload", &sig);
    assert!(!Event::verify_payload(&altered_body, secret));

    let altered_id = signed_request(secret, "id-2", timestamp, body, &sig);
    assert!(!Event::verify_payload(&altered_id, secret));

    let altered_timestamp = signed_request(secret, id, "2020-01-01T00:00:01Z", body, &sig);
    assert!(!Event::verify_payload(&altered_timestamp, secret));

    let request = signed_request(secret, id, timestamp, body, &sig);
    assert!(!Event::verify_payload(&request, b"Secretabcd"));
}

#[test]
fn missing_or_malformed_signature_header_fails() {
    let secret = b"secretabcd";
    let id = "id-1";
    let timestamp = "2020-01-01T00:00:00Z";
    let body = "payload";
    let hex = hmac_hex(secret, id.as_bytes(), timestamp.as_bytes(), body.as_bytes());

    // No signature header at all.
    let request = http::Request::builder()
        .header("Twitch-Eventsub-Message-Id", id)
        .header("Twitch-Eventsub-Message-Timestamp", timestamp)
        .body(body.as_bytes().to_vec())
        .unwrap();
    assert!(!Event::verify_payload(&request, secret));

    // No id header.
    let request = http::Request::builder()
        .header("Twitch-Eventsub-Message-Timestamp", timestamp)
        .header(
            "Twitch-Eventsub-Message-Signature",
            format!("sha256={}", hex),
        )
        .body(body.as_bytes().to_vec())
        .unwrap();
    assert!(!Event::verify_payload(&request, secret));

    // Wrong prefix.
    let request = signed_request(secret, id, timestamp, body, &format!("sha512={}", hex));
    assert!(!Event::verify_payload(&request, secret));

    // No prefix at all.
    let request = signed_request(secret, id, timestamp, body, &hex);
    assert!(!Event::verify_payload(&request, secret));

    // Odd-length hex suffix.
    let request = signed_request(secret, id, timestamp, body, &format!("sha256={}", &hex[1..]));
    assert!(!Event::verify_payload(&request, secret));

    // A byte that is not a hex digit.
    let mangled = format!("sha256=zz{}", &hex[2..]);
    let request = signed_request(secret, id, timestamp, body, &mangled);
    assert!(!Event::verify_payload(&request, secret));

    // Correct hex of the wrong length.
    let request = signed_request(secret, id, timestamp, body, &format!("sha256={}", &hex[2..]));
    assert!(!Event::verify_payload(&request, secret));
}

#[test]
fn verify_eventsub_message_decides_on_plain_values() {
    let secret = b"another secret";
    let id = b"message-id";
    let timestamp = b"2021-02-03T04:05:06Z";
    let body = b"{}";
    let hex = hmac_hex(secret, id, timestamp, body);
    let good = format!("sha256={}", hex);
    assert!(verify_eventsub_message(
        secret,
        id,
        timestamp,
        body,
        good.as_bytes()
    ));
    assert!(!verify_eventsub_message(
        secret,
        id,
        timestamp,
        b"(}",
        good.as_bytes()
    ));
    assert!(!verify_eventsub_message(
        secret,
        id,
        timestamp,
        body,
        b"sha256="
    ));
    assert!(!verify_eventsub_message(secret, id, timestamp, body, b""));
}
