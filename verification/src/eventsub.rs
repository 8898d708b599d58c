//! EventSub: subscription payloads and their common shapes.
//!
//! An inbound EventSub message is a JSON object with a `subscription` block
//! and, depending on the kind of message, an `event` object (a fired
//! notification), a `challenge` string (a verification handshake), or neither
//! (a revocation). This module holds the shared payload types and the verified
//! schema check that turns a parsed [`Json`] body into a [`Payload`].

pub mod event;

use vstd::prelude::*;

verus! {

use crate::json::Json;
use crate::json::lemma_obj_get_push;
use crate::json::spec_obj_get;
use crate::json::str_eq;
use crate::eventsub::event::EventType;

/// The three kinds of message that the platform delivers.
#[derive(Clone, Copy, Debug, PartialEq, Eq, Structural)]
pub enum MessageKind {
    /// A fired event.
    Notification,
    /// A handshake challenge sent when a subscription is created.
    VerificationRequest,
    /// The subscription was terminated by the platform.
    Revocation,
}

/// Errors from parsing an EventSub message.
#[derive(Debug, PartialEq)]
pub enum PayloadParseError {
    /// The routing metadata could not be extracted: the body is not a JSON
    /// object carrying `subscription.type` and `subscription.version` strings,
    /// or a required header is absent or not valid text.
    MalformedEvent,
    /// The declared event type string is not in the catalog; carries that
    /// string.
    UnknownEventType(String),
    /// The event type is known, but the declared schema version is not
    /// supported for it; both fields echo the input.
    UnimplementedEvent { version: String, event_type: EventType },
    /// Routing succeeded but the full body does not match the payload schema;
    /// carries the path of the first offending field.
    DeserializeError(String),
}

/// Error from resolving a subscription's condition block.
#[derive(Debug, PartialEq)]
pub enum ConditionParseError {
    /// The condition held by the payload is not a JSON object.
    NotAnObject,
}

/// The challenge carried by a verification request.
#[derive(Debug, PartialEq)]
pub struct VerificationRequest {
    /// The challenge string to echo back to the platform.
    pub challenge: String,
}

/// The kind-specific part of a payload.
#[derive(Debug, PartialEq)]
pub enum Message {
    /// The fired event's body, a JSON object whose shape is specific to the
    /// event family.
    Notification(Json),
    /// The verification handshake.
    VerificationRequest(VerificationRequest),
    /// A revocation carries no body of its own.
    Revocation,
}

/// The `subscription` block that every EventSub message carries.
#[derive(Debug, PartialEq)]
pub struct EventSubscriptionInformation {
    /// Identifier of the subscription.
    pub id: String,
    /// Status of the subscription, as reported by the platform.
    pub status: String,
    /// Cost the subscription counts against the client's limit.
    pub cost: u64,
    /// Creation timestamp, as reported by the platform.
    pub created_at: String,
    /// Transport descriptor, kept as the JSON object that was sent.
    pub transport: Json,
    /// Family-specific filter, kept as the JSON object that was sent.
    pub condition: Json,
}

/// A parsed EventSub message: the subscription block plus the kind-specific
/// message body.
#[derive(Debug, PartialEq)]
pub struct Payload {
    /// The embedded subscription block.
    pub subscription: EventSubscriptionInformation,
    /// The kind-specific part.
    pub message: Message,
}

/// Normalized metadata describing the subscription that produced a message.
#[derive(Debug, PartialEq)]
pub struct EventSubSubscription {
    /// Cost the subscription counts against the client's limit.
    pub cost: u64,
    /// Family-specific filter, as a JSON object.
    pub condition: Json,
    /// Creation timestamp.
    pub created_at: String,
    /// Identifier of the subscription.
    pub id: String,
    /// Status of the subscription.
    pub status: String,
    /// Transport descriptor, as a JSON object.
    pub transport: Json,
    /// The resolved event type.
    pub type_: EventType,
    /// The resolved schema version.
    pub version: String,
}

/// Keys a strict parse accepts at the top level of a message body.
pub open spec fn spec_top_key_allowed(k: Seq<char>) -> bool {
    k == "subscription"@ || k == "event"@ || k == "challenge"@
}

/// Keys a strict parse accepts inside the `subscription` block.
pub open spec fn spec_sub_key_allowed(k: Seq<char>) -> bool {
    ||| k == "id"@
    ||| k == "status"@
    ||| k == "cost"@
    ||| k == "created_at"@
    ||| k == "transport"@
    ||| k == "condition"@
    ||| k == "type"@
    ||| k == "version"@
}

/// First top-level key that a strict parse rejects, if any.
pub open spec fn spec_first_unknown_top(fields: Seq<(String, Json)>) -> Option<Seq<char>>
    decreases fields.len(),
{
    if fields.len() == 0 {
        None
    } else if !spec_top_key_allowed(fields[0].0@) {
        Some(fields[0].0@)
    } else {
        spec_first_unknown_top(fields.drop_first())
    }
}

/// First key inside the `subscription` block that a strict parse rejects.
pub open spec fn spec_first_unknown_sub(fields: Seq<(String, Json)>) -> Option<Seq<char>>
    decreases fields.len(),
{
    if fields.len() == 0 {
        None
    } else if !spec_sub_key_allowed(fields[0].0@) {
        Some(fields[0].0@)
    } else {
        spec_first_unknown_sub(fields.drop_first())
    }
}

/// True when `key` is bound to a string.
pub open spec fn spec_field_is_str(fields: Seq<(String, Json)>, key: Seq<char>) -> bool {
    spec_obj_get(fields, key) matches Some(Json::Str(_))
}

/// True when `key` is bound to an object.
pub open spec fn spec_field_is_obj(fields: Seq<(String, Json)>, key: Seq<char>) -> bool {
    spec_obj_get(fields, key) matches Some(Json::Obj(_))
}

/// True when `key` is bound to a non-negative integer.
pub open spec fn spec_field_is_cost(fields: Seq<(String, Json)>, key: Seq<char>) -> bool {
    spec_obj_get(fields, key) matches Some(Json::Int(c)) && c >= 0
}

/// Path of the first schema violation in `body` for a message of kind `kind`,
/// or `None` when the body matches the payload schema.
///
/// The order of the checks is part of the contract of
/// [`Payload::from_json`]: the reported path is the first one here.
pub open spec fn spec_payload_err(body: Json, kind: MessageKind, strict: bool) -> Option<
    Seq<char>,
> {
    if !(body is Obj) {
        Some("body"@)
    } else {
        let fields = body->Obj_0@;
        if strict && spec_first_unknown_top(fields) is Some {
            spec_first_unknown_top(fields)
        } else if !(spec_obj_get(fields, "subscription"@) matches Some(Json::Obj(_))) {
            Some("subscription"@)
        } else {
            let sub = spec_obj_get(fields, "subscription"@)->Some_0->Obj_0@;
            if strict && spec_first_unknown_sub(sub) is Some {
                spec_first_unknown_sub(sub)
            } else if !spec_field_is_str(sub, "id"@) {
                Some("subscription.id"@)
            } else if !spec_field_is_str(sub, "status"@) {
                Some("subscription.status"@)
            } else if !spec_field_is_cost(sub, "cost"@) {
                Some("subscription.cost"@)
            } else if !spec_field_is_str(sub, "created_at"@) {
                Some("subscription.created_at"@)
            } else if !spec_field_is_obj(sub, "transport"@) {
                Some("subscription.transport"@)
            } else if !spec_field_is_obj(sub, "condition"@) {
                Some("subscription.condition"@)
            } else if !spec_field_is_str(sub, "type"@) {
                Some("subscription.type"@)
            } else if !spec_field_is_str(sub, "version"@) {
                Some("subscription.version"@)
            } else {
                match kind {
                    MessageKind::Notification => if spec_field_is_obj(fields, "event"@) {
                        None
                    } else {
                        Some("event"@)
                    },
                    MessageKind::VerificationRequest => if spec_field_is_str(
                        fields,
                        "challenge"@,
                    ) {
                        None
                    } else {
                        Some("challenge"@)
                    },
                    MessageKind::Revocation => None,
                }
            }
        }
    }
}

/// The payload extracted from a body that matches the schema: each field is
/// the first value bound to its key.
pub open spec fn spec_payload_value(body: Json, kind: MessageKind) -> Payload {
    let fields = body->Obj_0@;
    let sub = spec_obj_get(fields, "subscription"@)->Some_0->Obj_0@;
    Payload {
        subscription: EventSubscriptionInformation {
            id: spec_obj_get(sub, "id"@)->Some_0->Str_0,
            status: spec_obj_get(sub, "status"@)->Some_0->Str_0,
            cost: spec_obj_get(sub, "cost"@)->Some_0->Int_0 as u64,
            created_at: spec_obj_get(sub, "created_at"@)->Some_0->Str_0,
            transport: spec_obj_get(sub, "transport"@)->Some_0,
            condition: spec_obj_get(sub, "condition"@)->Some_0,
        },
        message: match kind {
            MessageKind::Notification => Message::Notification(
                spec_obj_get(fields, "event"@)->Some_0,
            ),
            MessageKind::VerificationRequest => Message::VerificationRequest(
                VerificationRequest { challenge: spec_obj_get(fields, "challenge"@)->Some_0->Str_0 },
            ),
            MessageKind::Revocation => Message::Revocation,
        },
    }
}


/// The three top-level keys are pairwise distinct strings.
proof fn lemma_top_keys_distinct()
    ensures
        "subscription"@ != "event"@,
        "subscription"@ != "challenge"@,
        "event"@ != "challenge"@,
{
    reveal_strlit("subscription");
    reveal_strlit("event");
    reveal_strlit("challenge");
    assert("subscription"@.len() == 12);
    assert("event"@.len() == 5);
    assert("challenge"@.len() == 9);
}

/// The eight `subscription` keys are pairwise distinct strings.
proof fn lemma_sub_keys_distinct()
    ensures
        "id"@ != "status"@,
        "id"@ != "cost"@,
        "id"@ != "created_at"@,
        "id"@ != "transport"@,
        "id"@ != "condition"@,
        "id"@ != "type"@,
        "id"@ != "version"@,
        "status"@ != "cost"@,
        "status"@ != "created_at"@,
        "status"@ != "transport"@,
        "status"@ != "condition"@,
        "status"@ != "type"@,
        "status"@ != "version"@,
        "cost"@ != "created_at"@,
        "cost"@ != "transport"@,
        "cost"@ != "condition"@,
        "cost"@ != "type"@,
        "cost"@ != "version"@,
        "created_at"@ != "transport"@,
        "created_at"@ != "condition"@,
        "created_at"@ != "type"@,
        "created_at"@ != "version"@,
        "transport"@ != "condition"@,
        "transport"@ != "type"@,
        "transport"@ != "version"@,
        "condition"@ != "type"@,
        "condition"@ != "version"@,
        "type"@ != "version"@,
{
    reveal_strlit("id");
    reveal_strlit("status");
    reveal_strlit("cost");
    reveal_strlit("created_at");
    reveal_strlit("transport");
    reveal_strlit("condition");
    reveal_strlit("type");
    reveal_strlit("version");
    assert("id"@.len() == 2);
    assert("status"@.len() == 6);
    assert("cost"@.len() == 4);
    assert("created_at"@.len() == 10);
    assert("transport"@.len() == 9);
    assert("condition"@.len() == 9);
    assert("type"@.len() == 4);
    assert("version"@.len() == 7);
    assert("transport"@[0] == 't');
    assert("condition"@[0] == 'c');
    assert("cost"@[0] == 'c');
    assert("type"@[0] == 't');
}

/// The top-level fields the payload schema consumes, each the first value
/// bound to its key.
struct TopFields {
    subscription: Option<Json>,
    event: Option<Json>,
    challenge: Option<Json>,
}

fn split_top_fields(fields: Vec<(String, Json)>) -> (r: TopFields)
    ensures
        r.subscription == spec_obj_get(fields@, "subscription"@),
        r.event == spec_obj_get(fields@, "event"@),
        r.challenge == spec_obj_get(fields@, "challenge"@),
{
    let ghost orig = fields@;
    let mut rest = fields;
    let mut sub: Option<Json> = None;
    let mut ev: Option<Json> = None;
    let mut ch: Option<Json> = None;
    let ghost mut seen: Seq<(String, Json)> = Seq::empty();
    while rest.len() > 0
        invariant
            orig == seen + rest@,
            sub == spec_obj_get(seen, "subscription"@),
            ev == spec_obj_get(seen, "event"@),
            ch == spec_obj_get(seen, "challenge"@),
        decreases rest@.len(),
    {
        let entry = rest.remove(0);
        let ghost ge = entry;
        proof {
            lemma_top_keys_distinct();
            lemma_obj_get_push(seen, ge, "subscription"@);
            lemma_obj_get_push(seen, ge, "event"@);
            lemma_obj_get_push(seen, ge, "challenge"@);
        }
        let (k, v) = entry;
        if sub.is_none() && str_eq(k.as_str(), "subscription") {
            sub = Some(v);
        } else if ev.is_none() && str_eq(k.as_str(), "event") {
            ev = Some(v);
        } else if ch.is_none() && str_eq(k.as_str(), "challenge") {
            ch = Some(v);
        }
        proof {
            seen = seen.push(ge);
            assert(seen + rest@ =~= orig);
        }
    }
    proof {
        assert(seen =~= orig);
    }
    TopFields { subscription: sub, event: ev, challenge: ch }
}

/// The `subscription` fields the payload schema consumes, each the first
/// value bound to its key.
struct SubFields {
    id: Option<Json>,
    status: Option<Json>,
    cost: Option<Json>,
    created_at: Option<Json>,
    transport: Option<Json>,
    condition: Option<Json>,
    type_: Option<Json>,
    version: Option<Json>,
}

fn split_sub_fields(fields: Vec<(String, Json)>) -> (r: SubFields)
    ensures
        r.id == spec_obj_get(fields@, "id"@),
        r.status == spec_obj_get(fields@, "status"@),
        r.cost == spec_obj_get(fields@, "cost"@),
        r.created_at == spec_obj_get(fields@, "created_at"@),
        r.transport == spec_obj_get(fields@, "transport"@),
        r.condition == spec_obj_get(fields@, "condition"@),
        r.type_ == spec_obj_get(fields@, "type"@),
        r.version == spec_obj_get(fields@, "version"@),
{
    let ghost orig = fields@;
    let mut rest = fields;
    let mut f_id: Option<Json> = None;
    let mut f_status: Option<Json> = None;
    let mut f_cost: Option<Json> = None;
    let mut f_created: Option<Json> = None;
    let mut f_transport: Option<Json> = None;
    let mut f_condition: Option<Json> = None;
    let mut f_type: Option<Json> = None;
    let mut f_version: Option<Json> = None;
    let ghost mut seen: Seq<(String, Json)> = Seq::empty();
    while rest.len() > 0
        invariant
            orig == seen + rest@,
            f_id == spec_obj_get(seen, "id"@),
            f_status == spec_obj_get(seen, "status"@),
            f_cost == spec_obj_get(seen, "cost"@),
            f_created == spec_obj_get(seen, "created_at"@),
            f_transport == spec_obj_get(seen, "transport"@),
            f_condition == spec_obj_get(seen, "condition"@),
            f_type == spec_obj_get(seen, "type"@),
            f_version == spec_obj_get(seen, "version"@),
        decreases rest@.len(),
    {
        let entry = rest.remove(0);
        let ghost ge = entry;
        proof {
            lemma_sub_keys_distinct();
            lemma_obj_get_push(seen, ge, "id"@);
            lemma_obj_get_push(seen, ge, "status"@);
            lemma_obj_get_push(seen, ge, "cost"@);
            lemma_obj_get_push(seen, ge, "created_at"@);
            lemma_obj_get_push(seen, ge, "transport"@);
            lemma_obj_get_push(seen, ge, "condition"@);
            lemma_obj_get_push(seen, ge, "type"@);
            lemma_obj_get_push(seen, ge, "version"@);
        }
        let (k, v) = entry;
        if f_id.is_none() && str_eq(k.as_str(), "id") {
            f_id = Some(v);
        } else if f_status.is_none() && str_eq(k.as_str(), "status") {
            f_status = Some(v);
        } else if f_cost.is_none() && str_eq(k.as_str(), "cost") {
            f_cost = Some(v);
        } else if f_created.is_none() && str_eq(k.as_str(), "created_at") {
            f_created = Some(v);
        } else if f_transport.is_none() && str_eq(k.as_str(), "transport") {
            f_transport = Some(v);
        } else if f_condition.is_none() && str_eq(k.as_str(), "condition") {
            f_condition = Some(v);
        } else if f_type.is_none() && str_eq(k.as_str(), "type") {
            f_type = Some(v);
        } else if f_version.is_none() && str_eq(k.as_str(), "version") {
            f_version = Some(v);
        }
        proof {
            seen = seen.push(ge);
            assert(seen + rest@ =~= orig);
        }
    }
    proof {
        assert(seen =~= orig);
    }
    SubFields {
        id: f_id,
        status: f_status,
        cost: f_cost,
        created_at: f_created,
        transport: f_transport,
        condition: f_condition,
        type_: f_type,
        version: f_version,
    }
}

/// First key in `fields` that [`spec_top_key_allowed`] rejects.
fn first_unknown_top(fields: &Vec<(String, Json)>) -> (r: Option<String>)
    ensures
        match r {
            Some(k) => spec_first_unknown_top(fields@) == Some(k@),
            None => spec_first_unknown_top(fields@) is None,
        },
{
    let n = fields.len();
    let mut i: usize = 0;
    proof {
        assert(fields@.skip(0) =~= fields@);
    }
    while i < n
        invariant
            0 <= i <= n,
            n == fields@.len(),
            spec_first_unknown_top(fields@) == spec_first_unknown_top(fields@.skip(i as int)),
        decreases n - i,
    {
        proof {
            assert(fields@.skip(i as int).drop_first() =~= fields@.skip(i + 1));
            assert(fields@.skip(i as int)[0] == fields@[i as int]);
        }
        let k = &fields[i].0;
        if !(str_eq(k.as_str(), "subscription") || str_eq(k.as_str(), "event") || str_eq(
            k.as_str(),
            "challenge",
        )) {
            return Some(k.clone());
        }
        i += 1;
    }
    proof {
        assert(fields@.skip(n as int) =~= Seq::<(String, Json)>::empty());
    }
    None
}

/// First key in `fields` that [`spec_sub_key_allowed`] rejects.
fn first_unknown_sub(fields: &Vec<(String, Json)>) -> (r: Option<String>)
    ensures
        match r {
            Some(k) => spec_first_unknown_sub(fields@) == Some(k@),
            None => spec_first_unknown_sub(fields@) is None,
        },
{
    let n = fields.len();
    let mut i: usize = 0;
    proof {
        assert(fields@.skip(0) =~= fields@);
    }
    while i < n
        invariant
            0 <= i <= n,
            n == fields@.len(),
            spec_first_unknown_sub(fields@) == spec_first_unknown_sub(fields@.skip(i as int)),
        decreases n - i,
    {
        proof {
            assert(fields@.skip(i as int).drop_first() =~= fields@.skip(i + 1));
            assert(fields@.skip(i as int)[0] == fields@[i as int]);
        }
        let k = &fields[i].0;
        if !(str_eq(k.as_str(), "id") || str_eq(k.as_str(), "status") || str_eq(k.as_str(), "cost")
            || str_eq(k.as_str(), "created_at") || str_eq(k.as_str(), "transport") || str_eq(
            k.as_str(),
            "condition",
        ) || str_eq(k.as_str(), "type") || str_eq(k.as_str(), "version")) {
            return Some(k.clone());
        }
        i += 1;
    }
    proof {
        assert(fields@.skip(n as int) =~= Seq::<(String, Json)>::empty());
    }
    None
}

impl Payload {
    /// Checks a parsed message body against the payload schema for a message
    /// of kind `kind` and extracts the payload.
    ///
    /// In strict mode, fields outside the schema at the top level or inside
    /// the `subscription` block are rejected; by default they are ignored, so
    /// that additions by the platform stay compatible.
    pub fn from_json(body: Json, kind: MessageKind, strict: bool) -> (r: Result<
        Payload,
        PayloadParseError,
    >)
        ensures
            spec_payload_err(body, kind, strict) is None ==> r == Ok::<Payload, PayloadParseError>(
                spec_payload_value(body, kind),
            ),
            spec_payload_err(body, kind, strict) matches Some(path) ==> (r matches Err(
                PayloadParseError::DeserializeError(p),
            ) && p@ == path),
    {
        let fields = match body {
            Json::Obj(fields) => fields,
            _ => {
                return Err(PayloadParseError::DeserializeError("body".to_owned()));
            },
        };
        if strict {
            if let Some(name) = first_unknown_top(&fields) {
                return Err(PayloadParseError::DeserializeError(name));
            }
        }
        let top = split_top_fields(fields);
        let sub_fields = match top.subscription {
            Some(Json::Obj(sub_fields)) => sub_fields,
            _ => {
                return Err(PayloadParseError::DeserializeError("subscription".to_owned()));
            },
        };
        if strict {
            if let Some(name) = first_unknown_sub(&sub_fields) {
                return Err(PayloadParseError::DeserializeError(name));
            }
        }
        let subf = split_sub_fields(sub_fields);
        let id = match subf.id {
            Some(Json::Str(s)) => s,
            _ => {
                return Err(PayloadParseError::DeserializeError("subscription.id".to_owned()));
            },
        };
        let status = match subf.status {
            Some(Json::Str(s)) => s,
            _ => {
                return Err(PayloadParseError::DeserializeError("subscription.status".to_owned()));
            },
        };
        let cost = match subf.cost {
            Some(Json::Int(c)) => {
                if c >= 0 {
                    c as u64
                } else {
                    return Err(PayloadParseError::DeserializeError("subscription.cost".to_owned()));
                }
            },
            _ => {
                return Err(PayloadParseError::DeserializeError("subscription.cost".to_owned()));
            },
        };
        let created_at = match subf.created_at {
            Some(Json::Str(s)) => s,
            _ => {
                return Err(
                    PayloadParseError::DeserializeError("subscription.created_at".to_owned()),
                );
            },
        };
        let transport = match subf.transport {
            Some(t) => {
                if let Json::Obj(_) = &t {
                    t
                } else {
                    return Err(
                        PayloadParseError::DeserializeError("subscription.transport".to_owned()),
                    );
                }
            },
            None => {
                return Err(
                    PayloadParseError::DeserializeError("subscription.transport".to_owned()),
                );
            },
        };
        let condition = match subf.condition {
            Some(t) => {
                if let Json::Obj(_) = &t {
                    t
                } else {
                    return Err(
                        PayloadParseError::DeserializeError("subscription.condition".to_owned()),
                    );
                }
            },
            None => {
                return Err(
                    PayloadParseError::DeserializeError("subscription.condition".to_owned()),
                );
            },
        };
        match subf.type_ {
            Some(Json::Str(_)) => {},
            _ => {
                return Err(PayloadParseError::DeserializeError("subscription.type".to_owned()));
            },
        }
        match subf.version {
            Some(Json::Str(_)) => {},
            _ => {
                return Err(PayloadParseError::DeserializeError("subscription.version".to_owned()));
            },
        }
        let message = match kind {
            MessageKind::Notification => {
                match top.event {
                    Some(e) => {
                        if let Json::Obj(_) = &e {
                            Message::Notification(e)
                        } else {
                            return Err(PayloadParseError::DeserializeError("event".to_owned()));
                        }
                    },
                    None => {
                        return Err(PayloadParseError::DeserializeError("event".to_owned()));
                    },
                }
            },
            MessageKind::VerificationRequest => {
                match top.challenge {
                    Some(Json::Str(c)) => Message::VerificationRequest(
                        VerificationRequest { challenge: c },
                    ),
                    _ => {
                        return Err(PayloadParseError::DeserializeError("challenge".to_owned()));
                    },
                }
            },
            MessageKind::Revocation => Message::Revocation,
        };
        Ok(
            Payload {
                subscription: EventSubscriptionInformation {
                    id,
                    status,
                    cost,
                    created_at,
                    transport,
                    condition,
                },
                message,
            },
        )
    }
}

} // verus!
