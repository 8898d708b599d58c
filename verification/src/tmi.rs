//! TMI: the platform's unsupported chatter-list endpoint.
//!
//! The HTTP exchange itself happens outside this library; here live the
//! client value, the exact construction of the request URLs, and the decoding
//! of the responses from parsed JSON.

use vstd::prelude::*;

verus! {

use crate::client::ClientDefault;
use crate::json::Json;
use crate::json::push_bytes;
use crate::json::spec_obj_get;
use crate::json::obj_get;
use vstd::string::StrSliceExecFns;
use vstd::string::StringExecFns;
use vstd::utf8::encode_utf8;
use vstd::utf8::valid_utf8;

/// Client for the TMI endpoint: a thin holder of the HTTP client it drives
/// requests through.
#[derive(Clone)]
pub struct TmiClient<C> {
    client: C,
}

impl<C> TmiClient<C> {
    /// The HTTP client this value holds.
    pub closed spec fn spec_client(self) -> C {
        self.client
    }

    /// Create a new client from an existing HTTP client.
    pub fn with_client(client: C) -> (r: TmiClient<C>)
        ensures
            r.spec_client() == client,
    {
        TmiClient { client }
    }

    /// Create a new [`TmiClient`] with a default HTTP client.
    pub fn new() -> TmiClient<C> where C: ClientDefault {
        let client = C::default_client();
        TmiClient::with_client(client)
    }

    /// Retrieve a clone of the HTTP client inside this [`TmiClient`].
    pub fn clone_client(&self) -> C where C: Clone {
        self.client.clone()
    }
}

impl<C: ClientDefault> Default for TmiClient<C> {
    fn default() -> Self {
        Self::new()
    }
}

/// User ID: TMI still reports identifiers as integers.
pub type UserId = u64;

/// Returned by TMI at the chatter-list URL; see [`get_chatters_url`].
#[derive(Debug, PartialEq)]
pub struct GetChatters {
    /// Amount of connected users.
    pub chatter_count: u64,
    /// Lists of users in their rank.
    pub chatters: Chatters,
}

/// Lists of ranks and what users are in them. A user can only be in one.
#[derive(Debug, PartialEq)]
pub struct Chatters {
    /// Broadcaster, can (probably) only be one.
    pub broadcaster: Vec<String>,
    /// VIPs in the chat.
    pub vips: Vec<String>,
    /// Moderators in the chat.
    pub moderators: Vec<String>,
    /// Platform staff in the chat.
    pub staff: Vec<String>,
    /// Platform admins in the chat.
    pub admins: Vec<String>,
    /// Global moderators in the chat.
    pub global_mods: Vec<String>,
    /// Regular viewers in the chat, includes followers and subscribers.
    pub viewers: Vec<String>,
}

/// Possible options for a host-list request; the endpoint takes exactly one
/// of the two identifiers.
#[derive(Debug, PartialEq)]
pub enum HostsRequestId {
    /// Request the broadcaster that a given channel is hosting.
    Host(UserId),
    /// Request a list of channels hosting a target broadcaster.
    Target(UserId),
}

/// Returned by TMI at the hosts URL; see [`get_hosts_url`].
#[derive(Debug, PartialEq)]
pub struct GetHosts {
    /// List of host records.
    pub hosts: Vec<Host>,
}

/// A host record.
#[derive(Debug, PartialEq)]
pub struct Host {
    /// User ID of the hosting channel.
    pub host_id: UserId,
    /// User ID of the hosted channel; missing if the channel hosts no one.
    pub target_id: Option<UserId>,
    /// Login of the hosting channel, if logins were requested.
    pub host_login: Option<String>,
    /// Login of the hosted channel, if logins were requested.
    pub target_login: Option<String>,
    /// Display name of the hosting channel, if logins were requested.
    pub host_display_name: Option<String>,
    /// Display name of the hosted channel, if logins were requested.
    pub target_display_name: Option<String>,
}

/// The decimal digit character for a value below ten.
pub open spec fn spec_digit(d: nat) -> char {
    ((48 + d) as u8) as char
}

/// The decimal text of a number, most significant digit first, no leading
/// zeros.
pub open spec fn spec_u64_dec(n: nat) -> Seq<char>
    decreases n,
{
    if n < 10 {
        seq![spec_digit(n)]
    } else {
        spec_u64_dec(n / 10) + seq![spec_digit(n % 10)]
    }
}

/// The decimal text denoted by collected digit values, least significant
/// first.
spec fn spec_rev_digits(ds: Seq<u64>) -> Seq<char>
    decreases ds.len(),
{
    if ds.len() == 0 {
        Seq::empty()
    } else {
        seq![spec_digit(ds.last() as nat)] + spec_rev_digits(ds.drop_last())
    }
}

/// The digit characters, each readable from its value.
proof fn lemma_digit_char(d: nat)
    requires
        d < 10,
    ensures
        "0123456789"@[d as int] == spec_digit(d),
{
    reveal_strlit("0123456789");
}

/// Renders a number as decimal text.
pub fn u64_to_string(n: u64) -> (r: String)
    ensures
        r@ == spec_u64_dec(n as nat),
{
    let digits = "0123456789";
    proof {
        reveal_strlit("0123456789");
        assert(vstd::string::is_ascii(digits));
        assert(digits@.len() == 10);
    }
    let mut rev: Vec<u64> = Vec::new();
    let mut m = n;
    proof {
        assert(spec_u64_dec(n as nat) + spec_rev_digits(rev@) =~= spec_u64_dec(n as nat));
    }
    while m >= 10
        invariant
            spec_u64_dec(n as nat) == spec_u64_dec(m as nat) + spec_rev_digits(rev@),
            forall|k: int| 0 <= k < rev@.len() ==> #[trigger] rev@[k] < 10,
        decreases m,
    {
        let d = m % 10;
        let ghost m0 = m;
        let ghost prev = rev@;
        m = m / 10;
        rev.push(d);
        proof {
            assert(rev@.drop_last() =~= prev);
            assert(rev@.last() == d);
            assert(spec_u64_dec(m0 as nat) == spec_u64_dec(m as nat) + seq![spec_digit(
                (m0 % 10) as nat,
            )]);
            assert(spec_u64_dec(m as nat) + spec_rev_digits(rev@) =~= (spec_u64_dec(m as nat)
                + seq![spec_digit(d as nat)]) + spec_rev_digits(prev));
        }
    }
    let ghost prev = rev@;
    rev.push(m);
    proof {
        assert(rev@.drop_last() =~= prev);
        assert(rev@.last() == m);
        assert(spec_u64_dec(n as nat) =~= spec_rev_digits(rev@));
    }
    let mut out = String::new();
    let mut i: usize = rev.len();
    proof {
        assert(rev@.take(rev@.len() as int) =~= rev@);
    }
    while i > 0
        invariant
            0 <= i <= rev@.len(),
            forall|k: int| 0 <= k < rev@.len() ==> #[trigger] rev@[k] < 10,
            digits@ == "0123456789"@,
            digits@.len() == 10,
            vstd::string::is_ascii(digits),
            spec_u64_dec(n as nat) == out@ + spec_rev_digits(rev@.take(i as int)),
        decreases i,
    {
        let d = rev[i - 1];
        let du: usize = d as usize;
        let piece = digits.substring_ascii(du, du + 1);
        proof {
            lemma_digit_char(d as nat);
            assert(piece@ =~= seq![spec_digit(d as nat)]);
            assert(rev@.take(i as int).drop_last() =~= rev@.take(i - 1));
            assert(rev@.take(i as int).last() == rev@[i - 1]);
        }
        let ghost out_prev = out@;
        out.append(piece);
        proof {
            assert(out@ + spec_rev_digits(rev@.take(i - 1)) =~= out_prev + spec_rev_digits(
                rev@.take(i as int),
            ));
        }
        i -= 1;
    }
    proof {
        assert(rev@.take(0) =~= Seq::<u64>::empty());
        assert(out@ =~= spec_u64_dec(n as nat));
    }
    out
}

/// An uppercase ASCII letter's lowercase form; every other byte unchanged.
pub open spec fn spec_lower_byte(b: u8) -> u8 {
    if 65 <= b <= 90 {
        (b + 32) as u8
    } else {
        b
    }
}

/// A login as it is written into the chatter-list URL: every `#` removed and
/// ASCII letters lowered, byte for byte.
pub open spec fn spec_sanitize_login(s: Seq<u8>) -> Seq<u8>
    decreases s.len(),
{
    if s.len() == 0 {
        Seq::empty()
    } else {
        spec_sanitize_login(s.drop_last()) + (if s.last() == 35 {
            Seq::<u8>::empty()
        } else {
            seq![spec_lower_byte(s.last())]
        })
    }
}

/// The bytes of the chatter-list URL for a broadcaster login.
pub open spec fn spec_chatters_url_bytes(name: Seq<u8>) -> Seq<u8> {
    encode_utf8("https://tmi.twitch.tv/group/user/"@) + spec_sanitize_login(name) + encode_utf8(
        "/chatters"@,
    )
}

/// Relies on `String::from_utf8`: succeeds exactly on valid UTF-8 input and
/// keeps the bytes.
#[verifier::external_body]
fn string_from_utf8(bytes: Vec<u8>) -> (r: Option<String>)
    ensures
        match r {
            Some(s) => valid_utf8(bytes@) && encode_utf8(s@) == bytes@,
            None => !valid_utf8(bytes@),
        },
{
    String::from_utf8(bytes).ok()
}

/// The URL the chatter list for `broadcaster` is requested from: the login
/// is sanitized as [`spec_sanitize_login`] says.
///
/// `None` only when the sanitized login is no longer valid text, which no
/// text login produces.
pub fn get_chatters_url(broadcaster: &str) -> (r: Option<String>)
    ensures
        match r {
            Some(u) => encode_utf8(u@) == spec_chatters_url_bytes(encode_utf8(broadcaster@)),
            None => !valid_utf8(spec_chatters_url_bytes(encode_utf8(broadcaster@))),
        },
{
    let name_bytes = broadcaster.as_bytes();
    let mut out: Vec<u8> = Vec::new();
    push_bytes(&mut out, "https://tmi.twitch.tv/group/user/".as_bytes());
    let n = name_bytes.len();
    let mut i: usize = 0;
    proof {
        assert(name_bytes@.take(0) =~= Seq::<u8>::empty());
    }
    while i < n
        invariant
            0 <= i <= n,
            n == name_bytes@.len(),
            out@ == encode_utf8("https://tmi.twitch.tv/group/user/"@) + spec_sanitize_login(
                name_bytes@.take(i as int),
            ),
        decreases n - i,
    {
        let b = name_bytes[i];
        if b != 35 {
            if 65 <= b && b <= 90 {
                out.push(b + 32);
            } else {
                out.push(b);
            }
        }
        proof {
            assert(name_bytes@.take(i + 1).drop_last() =~= name_bytes@.take(i as int));
            assert(name_bytes@.take(i + 1).last() == name_bytes@[i as int]);
        }
        i += 1;
    }
    proof {
        assert(name_bytes@.take(n as int) =~= name_bytes@);
    }
    push_bytes(&mut out, "/chatters".as_bytes());
    proof {
        assert(out@ =~= spec_chatters_url_bytes(name_bytes@));
    }
    string_from_utf8(out)
}

/// The text of the hosts URL for a request: the query carries `host=` or
/// `target=` with the identifier in decimal, after `include_logins=1&` when
/// logins are requested.
pub open spec fn spec_hosts_url(include_logins: bool, channel: HostsRequestId) -> Seq<char> {
    "https://tmi.twitch.tv/hosts?"@ + (if include_logins {
        "include_logins=1&"@
    } else {
        Seq::<char>::empty()
    }) + (match channel {
        HostsRequestId::Host(id) => "host="@ + spec_u64_dec(id as nat),
        HostsRequestId::Target(id) => "target="@ + spec_u64_dec(id as nat),
    })
}

/// The URL the host list is requested from.
pub fn get_hosts_url(include_logins: bool, channel_id: &HostsRequestId) -> (r: String)
    ensures
        r@ == spec_hosts_url(include_logins, *channel_id),
{
    let mut out = String::from_str("https://tmi.twitch.tv/hosts?");
    if include_logins {
        out.append("include_logins=1&");
    }
    match channel_id {
        HostsRequestId::Host(id) => {
            out.append("host=");
            let num = u64_to_string(*id);
            out.append(num.as_str());
        },
        HostsRequestId::Target(id) => {
            out.append("target=");
            let num = u64_to_string(*id);
            out.append(num.as_str());
        },
    }
    proof {
        assert(out@ =~= spec_hosts_url(include_logins, *channel_id));
    }
    out
}

/// True when a JSON value is an array of strings.
pub open spec fn spec_str_arr_ok(j: Json) -> bool {
    j matches Json::Arr(a) && (forall|i: int| 0 <= i < a@.len() ==> a@[i] is Str)
}

/// True when `v` holds exactly the strings of the JSON array `j`, in order.
pub open spec fn spec_str_vec_matches(v: Seq<String>, j: Json) -> bool {
    &&& spec_str_arr_ok(j)
    &&& v.len() == j->Arr_0@.len()
    &&& forall|i: int| 0 <= i < v.len() ==> #[trigger] v[i]@ == j->Arr_0@[i]->Str_0@
}

/// Reads a JSON array of strings.
fn str_vec_from_json(j: &Json) -> (r: Option<Vec<String>>)
    ensures
        match r {
            Some(v) => spec_str_vec_matches(v@, *j),
            None => !spec_str_arr_ok(*j),
        },
{
    let arr = match j {
        Json::Arr(a) => a,
        _ => {
            return None;
        },
    };
    let n = arr.len();
    let mut out: Vec<String> = Vec::new();
    let mut i: usize = 0;
    while i < n
        invariant
            0 <= i <= n,
            n == arr@.len(),
            *j == Json::Arr(*arr),
            out@.len() == i,
            forall|k: int| 0 <= k < i ==> arr@[k] is Str,
            forall|k: int| 0 <= k < i ==> #[trigger] out@[k]@ == arr@[k]->Str_0@,
        decreases n - i,
    {
        match &arr[i] {
            Json::Str(s) => {
                out.push(s.clone());
            },
            _ => {
                return None;
            },
        }
        i += 1;
    }
    Some(out)
}

/// The field list of the `chatters` block.
pub open spec fn spec_chatters_ranks(j: Json) -> Seq<(String, Json)> {
    spec_obj_get(j->Obj_0@, "chatters"@)->Some_0->Obj_0@
}

/// True when a rank key of the `chatters` block is bound to an array of
/// strings.
pub open spec fn spec_rank_ok(ranks: Seq<(String, Json)>, k: Seq<char>) -> bool {
    spec_obj_get(ranks, k) matches Some(a) && spec_str_arr_ok(a)
}

/// True when `j` has the chatter-list response shape.
pub open spec fn spec_chatters_ok(j: Json) -> bool {
    &&& j is Obj
    &&& spec_obj_get(j->Obj_0@, "chatter_count"@) matches Some(Json::Int(c)) && c >= 0
    &&& spec_obj_get(j->Obj_0@, "chatters"@) matches Some(Json::Obj(_))
    &&& spec_rank_ok(spec_chatters_ranks(j), "broadcaster"@)
    &&& spec_rank_ok(spec_chatters_ranks(j), "vips"@)
    &&& spec_rank_ok(spec_chatters_ranks(j), "moderators"@)
    &&& spec_rank_ok(spec_chatters_ranks(j), "staff"@)
    &&& spec_rank_ok(spec_chatters_ranks(j), "admins"@)
    &&& spec_rank_ok(spec_chatters_ranks(j), "global_mods"@)
    &&& spec_rank_ok(spec_chatters_ranks(j), "viewers"@)
}

/// True when `g` holds exactly what the chatter-list response `j` says.
pub open spec fn spec_chatters_matches(g: GetChatters, j: Json) -> bool {
    &&& g.chatter_count == spec_obj_get(j->Obj_0@, "chatter_count"@)->Some_0->Int_0 as u64
    &&& spec_str_vec_matches(
        g.chatters.broadcaster@,
        spec_obj_get(spec_chatters_ranks(j), "broadcaster"@)->Some_0,
    )
    &&& spec_str_vec_matches(
        g.chatters.vips@,
        spec_obj_get(spec_chatters_ranks(j), "vips"@)->Some_0,
    )
    &&& spec_str_vec_matches(
        g.chatters.moderators@,
        spec_obj_get(spec_chatters_ranks(j), "moderators"@)->Some_0,
    )
    &&& spec_str_vec_matches(
        g.chatters.staff@,
        spec_obj_get(spec_chatters_ranks(j), "staff"@)->Some_0,
    )
    &&& spec_str_vec_matches(
        g.chatters.admins@,
        spec_obj_get(spec_chatters_ranks(j), "admins"@)->Some_0,
    )
    &&& spec_str_vec_matches(
        g.chatters.global_mods@,
        spec_obj_get(spec_chatters_ranks(j), "global_mods"@)->Some_0,
    )
    &&& spec_str_vec_matches(
        g.chatters.viewers@,
        spec_obj_get(spec_chatters_ranks(j), "viewers"@)->Some_0,
    )
}

impl GetChatters {
    /// Reads the chatter-list response shape: `chatter_count` and the seven
    /// rank arrays under `chatters`.
    pub fn from_json(j: &Json) -> (r: Option<GetChatters>)
        ensures
            match r {
                Some(g) => spec_chatters_ok(*j) && spec_chatters_matches(g, *j),
                None => !spec_chatters_ok(*j),
            },
    {
        let fields = match j {
            Json::Obj(f) => f,
            _ => {
                return None;
            },
        };
        let chatter_count = match obj_get(fields, "chatter_count") {
            Some(Json::Int(c)) => {
                if *c >= 0 {
                    *c as u64
                } else {
                    return None;
                }
            },
            _ => {
                return None;
            },
        };
        let ranks = match obj_get(fields, "chatters") {
            Some(Json::Obj(ch)) => ch,
            _ => {
                return None;
            },
        };
        let broadcaster = match obj_get(ranks, "broadcaster") {
            Some(a) => match str_vec_from_json(a) {
                Some(v) => v,
                None => {
                    return None;
                },
            },
            None => {
                return None;
            },
        };
        let vips = match obj_get(ranks, "vips") {
            Some(a) => match str_vec_from_json(a) {
                Some(v) => v,
                None => {
                    return None;
                },
            },
            None => {
                return None;
            },
        };
        let moderators = match obj_get(ranks, "moderators") {
            Some(a) => match str_vec_from_json(a) {
                Some(v) => v,
                None => {
                    return None;
                },
            },
            None => {
                return None;
            },
        };
        let staff = match obj_get(ranks, "staff") {
            Some(a) => match str_vec_from_json(a) {
                Some(v) => v,
                None => {
                    return None;
                },
            },
            None => {
                return None;
            },
        };
        let admins = match obj_get(ranks, "admins") {
            Some(a) => match str_vec_from_json(a) {
                Some(v) => v,
                None => {
                    return None;
                },
            },
            None => {
                return None;
            },
        };
        let global_mods = match obj_get(ranks, "global_mods") {
            Some(a) => match str_vec_from_json(a) {
                Some(v) => v,
                None => {
                    return None;
                },
            },
            None => {
                return None;
            },
        };
        let viewers = match obj_get(ranks, "viewers") {
            Some(a) => match str_vec_from_json(a) {
                Some(v) => v,
                None => {
                    return None;
                },
            },
            None => {
                return None;
            },
        };
        Some(
            GetChatters {
                chatter_count,
                chatters: Chatters {
                    broadcaster,
                    vips,
                    moderators,
                    staff,
                    admins,
                    global_mods,
                    viewers,
                },
            },
        )
    }
}

/// True when `j` has the shape of one host record: `host_id` an identifier,
/// `target_id` an identifier if present, the four login and display-name
/// fields strings if present. An absent or `null` optional field reads as
/// missing.
pub open spec fn spec_host_ok(j: Json) -> bool {
    &&& j is Obj
    &&& spec_obj_get(j->Obj_0@, "host_id"@) matches Some(Json::Int(c)) && c >= 0
    &&& match spec_obj_get(j->Obj_0@, "target_id"@) {
        None => true,
        Some(Json::Null) => true,
        Some(Json::Int(c)) => c >= 0,
        Some(_) => false,
    }
    &&& match spec_obj_get(j->Obj_0@, "host_login"@) {
        None => true,
        Some(Json::Null) => true,
        Some(v) => v is Str,
    }
    &&& match spec_obj_get(j->Obj_0@, "target_login"@) {
        None => true,
        Some(Json::Null) => true,
        Some(v) => v is Str,
    }
    &&& match spec_obj_get(j->Obj_0@, "host_display_name"@) {
        None => true,
        Some(Json::Null) => true,
        Some(v) => v is Str,
    }
    &&& match spec_obj_get(j->Obj_0@, "target_display_name"@) {
        None => true,
        Some(Json::Null) => true,
        Some(v) => v is Str,
    }
}

/// True when the optional string field `h` holds what the JSON field `v`
/// says: absent or `null` reads as missing.
pub open spec fn spec_opt_str_matches(h: Option<String>, v: Option<Json>) -> bool {
    match v {
        None => h is None,
        Some(Json::Null) => h is None,
        Some(w) => h matches Some(s) && s@ == w->Str_0@,
    }
}

/// True when `h` holds exactly what the host record `j` says.
pub open spec fn spec_host_matches(h: Host, j: Json) -> bool {
    &&& h.host_id == spec_obj_get(j->Obj_0@, "host_id"@)->Some_0->Int_0 as u64
    &&& match spec_obj_get(j->Obj_0@, "target_id"@) {
        None => h.target_id is None,
        Some(Json::Null) => h.target_id is None,
        Some(v) => h.target_id == Some(v->Int_0 as u64),
    }
    &&& spec_opt_str_matches(h.host_login, spec_obj_get(j->Obj_0@, "host_login"@))
    &&& spec_opt_str_matches(h.target_login, spec_obj_get(j->Obj_0@, "target_login"@))
    &&& spec_opt_str_matches(h.host_display_name, spec_obj_get(j->Obj_0@, "host_display_name"@))
    &&& spec_opt_str_matches(
        h.target_display_name,
        spec_obj_get(j->Obj_0@, "target_display_name"@),
    )
}

/// Reads one optional string field: absent or `null` reads as missing.
fn opt_str_field(fields: &Vec<(String, Json)>, key: &str) -> (r: Option<Option<String>>)
    ensures
        match r {
            Some(h) => spec_opt_str_matches(h, spec_obj_get(fields@, key@)) && match spec_obj_get(
                fields@,
                key@,
            ) {
                None => true,
                Some(Json::Null) => true,
                Some(v) => v is Str,
            },
            None => !(match spec_obj_get(fields@, key@) {
                None => true,
                Some(Json::Null) => true,
                Some(v) => v is Str,
            }),
        },
{
    match obj_get(fields, key) {
        None => Some(None),
        Some(Json::Null) => Some(None),
        Some(Json::Str(s)) => Some(Some(s.clone())),
        Some(_) => None,
    }
}

impl Host {
    /// Reads one host record.
    pub fn from_json(j: &Json) -> (r: Option<Host>)
        ensures
            match r {
                Some(h) => spec_host_ok(*j) && spec_host_matches(h, *j),
                None => !spec_host_ok(*j),
            },
    {
        let fields = match j {
            Json::Obj(f) => f,
            _ => {
                return None;
            },
        };
        let host_id = match obj_get(fields, "host_id") {
            Some(Json::Int(c)) => {
                if *c >= 0 {
                    *c as u64
                } else {
                    return None;
                }
            },
            _ => {
                return None;
            },
        };
        let target_id = match obj_get(fields, "target_id") {
            None => None,
            Some(Json::Null) => None,
            Some(Json::Int(c)) => {
                if *c >= 0 {
                    Some(*c as u64)
                } else {
                    return None;
                }
            },
            Some(_) => {
                return None;
            },
        };
        let host_login = match opt_str_field(fields, "host_login") {
            Some(v) => v,
            None => {
                return None;
            },
        };
        let target_login = match opt_str_field(fields, "target_login") {
            Some(v) => v,
            None => {
                return None;
            },
        };
        let host_display_name = match opt_str_field(fields, "host_display_name") {
            Some(v) => v,
            None => {
                return None;
            },
        };
        let target_display_name = match opt_str_field(fields, "target_display_name") {
            Some(v) => v,
            None => {
                return None;
            },
        };
        Some(
            Host {
                host_id,
                target_id,
                host_login,
                target_login,
                host_display_name,
                target_display_name,
            },
        )
    }
}

/// The host records carried by a host-list response.
pub open spec fn spec_hosts_arr(j: Json) -> Seq<Json> {
    spec_obj_get(j->Obj_0@, "hosts"@)->Some_0->Arr_0@
}

/// True when `j` has the host-list response shape.
pub open spec fn spec_hosts_ok(j: Json) -> bool {
    &&& j is Obj
    &&& spec_obj_get(j->Obj_0@, "hosts"@) matches Some(Json::Arr(_))
    &&& forall|i: int|
        0 <= i < spec_hosts_arr(j).len() ==> spec_host_ok(#[trigger] spec_hosts_arr(j)[i])
}

/// True when `g` holds exactly the host records of the response `j`.
pub open spec fn spec_hosts_matches(g: GetHosts, j: Json) -> bool {
    &&& g.hosts@.len() == spec_hosts_arr(j).len()
    &&& forall|i: int|
        0 <= i < spec_hosts_arr(j).len() ==> spec_host_matches(
            #[trigger] g.hosts@[i],
            spec_hosts_arr(j)[i],
        )
}

impl GetHosts {
    /// Reads the host-list response shape: the `hosts` array of records.
    pub fn from_json(j: &Json) -> (r: Option<GetHosts>)
        ensures
            match r {
                Some(g) => spec_hosts_ok(*j) && spec_hosts_matches(g, *j),
                None => !spec_hosts_ok(*j),
            },
    {
        let fields = match j {
            Json::Obj(f) => f,
            _ => {
                return None;
            },
        };
        let arr = match obj_get(fields, "hosts") {
            Some(Json::Arr(a)) => a,
            _ => {
                return None;
            },
        };
        let n = arr.len();
        let mut hosts: Vec<Host> = Vec::new();
        let mut i: usize = 0;
        while i < n
            invariant
                0 <= i <= n,
                n == arr@.len(),
                *j == Json::Obj(*fields),
                spec_obj_get(fields@, "hosts"@) == Some(Json::Arr(*arr)),
                hosts@.len() == i,
                forall|k: int| 0 <= k < i ==> spec_host_ok(#[trigger] arr@[k]),
                forall|k: int| 0 <= k < i ==> spec_host_matches(#[trigger] hosts@[k], arr@[k]),
            decreases n - i,
        {
            match Host::from_json(&arr[i]) {
                Some(h) => {
                    hosts.push(h);
                },
                None => {
                    proof {
                        assert(spec_hosts_arr(*j) == arr@);
                        assert(!spec_host_ok(spec_hosts_arr(*j)[i as int]));
                    }
                    return None;
                },
            }
            i += 1;
        }
        proof {
            assert(spec_hosts_arr(*j) == arr@);
        }
        Some(GetHosts { hosts })
    }
}

} // verus!
