//! Helix: client-side plumbing for the platform's main REST API.
//!
//! The per-resource endpoint definitions are the surrounding application's
//! concern; this module holds the client value they are driven through and
//! the request-side pieces that carry no transport of their own.

pub mod chat;
pub mod hypetrain;
pub mod webhooks;

use vstd::prelude::*;

verus! {

use crate::client::ClientDefault;
use crate::eventsub::spec_field_is_str;
use crate::json::Json;
use crate::json::obj_get;
use crate::json::obj_take;
use crate::json::spec_obj_get;

/// Client for the Helix API: a thin holder of the HTTP client it drives
/// requests through.
#[derive(Clone)]
pub struct HelixClient<C> {
    client: C,
}

impl<C> HelixClient<C> {
    /// The HTTP client this value holds.
    pub closed spec fn spec_client(self) -> C {
        self.client
    }

    /// Create a new client from an existing HTTP client.
    pub fn with_client(client: C) -> (r: HelixClient<C>)
        ensures
            r.spec_client() == client,
    {
        HelixClient { client }
    }

    /// Create a new [`HelixClient`] with a default HTTP client.
    pub fn new() -> HelixClient<C> where C: ClientDefault {
        let client = C::default_client();
        HelixClient::with_client(client)
    }

    /// Retrieve a clone of the HTTP client inside this [`HelixClient`].
    pub fn clone_client(&self) -> C where C: Clone {
        self.client.clone()
    }

    /// Retrieve a reference to the HTTP client inside this [`HelixClient`].
    pub fn get_client(&self) -> (r: &C)
        ensures
            *r == self.spec_client(),
    {
        &self.client
    }
}

impl<C: ClientDefault> Default for HelixClient<C> {
    fn default() -> Self {
        Self::new()
    }
}

/// A cursor is a pointer to the current page in the API's pagination.
#[derive(Clone, Debug, PartialEq, Eq, Hash)]
pub struct Cursor(pub String);

/// A request that can be paginated.
pub trait Paginated {
    /// Sets the cursor where the next page of results starts; `None` clears
    /// it.
    fn set_pagination(&mut self, cursor: Option<Cursor>);
}

/// Errors that can happen when creating a request body.
#[derive(Debug, PartialEq)]
pub enum BodyError {
    /// The body could not be serialized; carries a description.
    SerializeError(String),
}

/// Create a body. Used for specializing request bodies.
pub trait HelixRequestBody {
    /// The bytes this value serializes to, or none where serialization
    /// fails.
    spec fn spec_body(&self) -> Option<Seq<u8>>;

    /// Create the body bytes.
    fn try_to_body(&self) -> (r: Result<Vec<u8>, BodyError>)
        ensures
            match r {
                Ok(v) => self.spec_body() == Some(v@),
                Err(_) => self.spec_body() is None,
            },
    ;
}

/// An empty body: [`HelixRequestBody::try_to_body`] returns an empty vector.
#[derive(Default, Clone, Copy)]
pub struct EmptyBody;

impl HelixRequestBody for EmptyBody {
    open spec fn spec_body(&self) -> Option<Seq<u8>> {
        Some(Seq::empty())
    }

    fn try_to_body(&self) -> (r: Result<Vec<u8>, BodyError>) {
        let v: Vec<u8> = Vec::new();
        proof {
            assert(v@ =~= Seq::<u8>::empty());
        }
        Ok(v)
    }
}

/// Marker restricting which bodies are serialized as plain JSON.
pub trait SealedSerialize {

}

/// The error envelope the API answers failed calls with.
#[derive(Debug, PartialEq)]
pub struct HelixRequestError {
    /// Error name matching the status code.
    pub error: String,
    /// Status code of the error, usually in the 400 range.
    pub status: u64,
    /// Error message from the platform.
    pub message: String,
}

/// True when `j` has the error envelope's shape.
pub open spec fn spec_helix_error_ok(j: Json) -> bool {
    &&& j is Obj
    &&& spec_field_is_str(j->Obj_0@, "error"@)
    &&& spec_obj_get(j->Obj_0@, "status"@) matches Some(Json::Int(c)) && c >= 0
    &&& spec_field_is_str(j->Obj_0@, "message"@)
}

/// True when `e` holds exactly what the error envelope `j` says.
pub open spec fn spec_helix_error_matches(e: HelixRequestError, j: Json) -> bool {
    &&& e.error@ == spec_obj_get(j->Obj_0@, "error"@)->Some_0->Str_0@
    &&& e.status == spec_obj_get(j->Obj_0@, "status"@)->Some_0->Int_0 as u64
    &&& e.message@ == spec_obj_get(j->Obj_0@, "message"@)->Some_0->Str_0@
}

impl HelixRequestError {
    /// Reads the error envelope, which a response body carries exactly when
    /// the call failed.
    pub fn from_json(j: &Json) -> (r: Option<HelixRequestError>)
        ensures
            match r {
                Some(e) => spec_helix_error_ok(*j) && spec_helix_error_matches(e, *j),
                None => !spec_helix_error_ok(*j),
            },
    {
        let fields = match j {
            Json::Obj(f) => f,
            _ => {
                return None;
            },
        };
        let error = match obj_get(fields, "error") {
            Some(Json::Str(s)) => s.clone(),
            _ => {
                return None;
            },
        };
        let status = match obj_get(fields, "status") {
            Some(Json::Int(c)) => {
                if *c >= 0 {
                    *c as u64
                } else {
                    return None;
                }
            },
            _ => {
                return None;
            },
        };
        let message = match obj_get(fields, "message") {
            Some(Json::Str(s)) => s.clone(),
            _ => {
                return None;
            },
        };
        Some(HelixRequestError { error, status, message })
    }
}

/// The envelope every successful response carries: the `data` payload, and
/// optionally a pagination cursor and a total count.
#[derive(Debug, PartialEq)]
pub struct ResponseEnvelope {
    /// The endpoint-specific payload, usually an array.
    pub data: Json,
    /// Cursor for requesting the next page, when one was sent.
    pub pagination: Option<Cursor>,
    /// How many results a full pagination would return, when reported.
    pub total: Option<i64>,
}

/// True when the optional `pagination` block of `j` is well formed: absent,
/// or an object whose `cursor` is absent, `null` or a string.
pub open spec fn spec_pagination_ok(j: Json) -> bool {
    match spec_obj_get(j->Obj_0@, "pagination"@) {
        None => true,
        Some(Json::Obj(p)) => match spec_obj_get(p@, "cursor"@) {
            None => true,
            Some(Json::Null) => true,
            Some(v) => v is Str,
        },
        Some(_) => false,
    }
}

/// The cursor the `pagination` block carries, if any.
pub open spec fn spec_pagination_cursor(j: Json) -> Option<Json> {
    match spec_obj_get(j->Obj_0@, "pagination"@) {
        None => None,
        Some(Json::Null) => None,
        Some(p) => match spec_obj_get(p->Obj_0@, "cursor"@) {
            None => None,
            Some(Json::Null) => None,
            Some(v) => Some(v),
        },
    }
}

/// True when `j` has the response envelope's shape.
pub open spec fn spec_response_ok(j: Json) -> bool {
    &&& j is Obj
    &&& spec_obj_get(j->Obj_0@, "data"@) is Some
    &&& spec_pagination_ok(j)
    &&& match spec_obj_get(j->Obj_0@, "total"@) {
        None => true,
        Some(Json::Null) => true,
        Some(v) => v is Int,
    }
}

/// True when `e` holds exactly what the response envelope `j` says.
pub open spec fn spec_response_matches(e: ResponseEnvelope, j: Json) -> bool {
    &&& Some(e.data) == spec_obj_get(j->Obj_0@, "data"@)
    &&& match spec_pagination_cursor(j) {
        None => e.pagination is None,
        Some(v) => e.pagination matches Some(c) && c.0@ == v->Str_0@,
    }
    &&& match spec_obj_get(j->Obj_0@, "total"@) {
        None => e.total is None,
        Some(Json::Null) => e.total is None,
        Some(v) => e.total == Some(v->Int_0),
    }
}

impl ResponseEnvelope {
    /// Reads the response envelope; the `data` payload is handed on as
    /// parsed JSON for the caller's endpoint-specific decoding.
    pub fn from_json(j: Json) -> (r: Option<ResponseEnvelope>)
        ensures
            match r {
                Some(e) => spec_response_ok(j) && spec_response_matches(e, j),
                None => !spec_response_ok(j),
            },
    {
        let fields = match j {
            Json::Obj(fields) => fields,
            _ => {
                return None;
            },
        };
        let pagination = match obj_get(&fields, "pagination") {
            None => None,
            Some(Json::Obj(p)) => match obj_get(p, "cursor") {
                None => None,
                Some(Json::Null) => None,
                Some(Json::Str(s)) => Some(Cursor(s.clone())),
                Some(_) => {
                    return None;
                },
            },
            Some(_) => {
                return None;
            },
        };
        let total = match obj_get(&fields, "total") {
            None => None,
            Some(Json::Null) => None,
            Some(Json::Int(t)) => Some(*t),
            Some(_) => {
                return None;
            },
        };
        match obj_take(fields, "data") {
            Some(data) => Some(ResponseEnvelope { data, pagination, total }),
            None => None,
        }
    }
}

} // verus!
