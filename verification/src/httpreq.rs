//! Reading inbound HTTP requests.
//!
//! The `http` crate's request type is opaque to the verifier, but what a
//! request holds — its header values and its body — is a function of the
//! request value alone, so the contents get names here. The trusted
//! accessors hand headers and body out as plain values related to those
//! names; every decision over the values is made by verified code elsewhere.

use vstd::prelude::*;

verus! {

use vstd::utf8::encode_utf8;
use vstd::utf8::valid_utf8;

/// Declares `http`'s request type, so that requests can be taken by the
/// functions below; the type stays opaque.
#[verifier::external_type_specification]
#[verifier::external_body]
#[verifier::reject_recursive_types(T)]
pub struct ExRequest<T>(http::Request<T>);

/// The value bytes the request's header map holds under `name`, if any: the
/// first value, as `HeaderMap::get` hands it out. A function of the request
/// value alone; its value on any particular request is stated nowhere.
pub uninterp spec fn spec_header_of(request: http::Request<Vec<u8>>, name: Seq<char>) -> Option<
    Seq<u8>,
>;

/// The body bytes the request holds. A function of the request value alone.
pub uninterp spec fn spec_body_of(request: http::Request<Vec<u8>>) -> Seq<u8>;

/// Relies on `http`'s `HeaderMap::get` and `HeaderValue::as_bytes`: the raw
/// bytes of the named header's value, or `None` when the header is absent —
/// that is, [`spec_header_of`] for this request and name.
#[verifier::external_body]
pub(crate) fn header_bytes(request: &http::Request<Vec<u8>>, name: &str) -> (r: Option<Vec<u8>>)
    ensures
        match r {
            Some(v) => spec_header_of(*request, name@) == Some(v@),
            None => spec_header_of(*request, name@) is None,
        },
{
    request.headers().get(name).map(|v| v.as_bytes().to_vec())
}

/// Relies on `http`'s `HeaderMap::get` and `str::from_utf8`: the named
/// header's value as text. `None` when the header is absent; `Some(None)`
/// when its bytes — [`spec_header_of`] for this request and name — are not
/// valid UTF-8; else the text those bytes encode.
#[verifier::external_body]
pub(crate) fn header_text(request: &http::Request<Vec<u8>>, name: &str) -> (r: Option<
    Option<String>,
>)
    ensures
        match r {
            None => spec_header_of(*request, name@) is None,
            Some(None) => spec_header_of(*request, name@) matches Some(b) && !valid_utf8(b),
            Some(Some(s)) => spec_header_of(*request, name@) matches Some(b) && valid_utf8(b)
                && encode_utf8(s@) == b,
        },
{
    match request.headers().get(name) {
        None => None,
        Some(v) => Some(core::str::from_utf8(v.as_bytes()).ok().map(|s| s.to_owned())),
    }
}

/// Relies on `http`'s `Request::body`: a copy of the request's body bytes,
/// [`spec_body_of`] for this request.
#[verifier::external_body]
pub(crate) fn body_bytes(request: &http::Request<Vec<u8>>) -> (r: Vec<u8>)
    ensures
        r@ == spec_body_of(*request),
{
    request.body().clone()
}

} // verus!
