//! A plain-value model of JSON documents.
//!
//! Inbound EventSub messages arrive as JSON text. The lexical work of turning
//! text into a tree is delegated to `serde_json`; everything the library does
//! with the tree afterwards (routing, schema checks, field extraction) is
//! verified code over the [`Json`] type defined here.

use vstd::prelude::*;

verus! {

use vstd::string::StringSliceAdditionalSpecFns;
use vstd::utf8::decode_utf8;
use vstd::utf8::encode_utf8;

broadcast use vstd::std_specs::vec::axiom_vec_index_decreases;

/// A JSON value, held as plain data.
///
/// Numbers that fit in an `i64` are held exactly in [`Json::Int`]; any other
/// number (fractional, or out of `i64` range) is held as its decimal text in
/// [`Json::NumOther`], which the event logic never interprets.
#[derive(Debug, PartialEq)]
pub enum Json {
    Null,
    Bool(bool),
    Int(i64),
    NumOther(String),
    Str(String),
    Arr(Vec<Json>),
    Obj(Vec<(String, Json)>),
}

/// First value bound to `key` in an object's field list, if any.
pub open spec fn spec_obj_get(fields: Seq<(String, Json)>, key: Seq<char>) -> Option<Json>
    decreases fields.len(),
{
    if fields.len() == 0 {
        None
    } else if fields[0].0@ == key {
        Some(fields[0].1)
    } else {
        spec_obj_get(fields.drop_first(), key)
    }
}

/// True when `key` is bound to a value other than `null`.
pub open spec fn spec_obj_populated(fields: Seq<(String, Json)>, key: Seq<char>) -> bool {
    match spec_obj_get(fields, key) {
        Some(v) => !(v is Null),
        None => false,
    }
}

/// What `serde_json` parses a byte sequence into, under the embedding of
/// [`from_value`]: `None` when the bytes are not a valid JSON document.
///
/// Parsing is a function of the input bytes alone, so the result can be given
/// a name; nothing is assumed about its value on any particular input.
pub uninterp spec fn spec_json_of(bytes: Seq<u8>) -> Option<Json>;

/// Declares `serde_json`'s value type, so that the embedding below can take
/// it; the type stays opaque.
#[verifier::external_type_specification]
#[verifier::external_body]
pub struct ExValue(serde_json::Value);

/// Embeds a `serde_json` tree into [`Json`], variant by variant.
///
/// Relies on `serde_json::Number::as_i64` (exact for every integer in `i64`
/// range) and `Number::to_string` for the remaining numbers; object entries
/// keep the order in which `serde_json::Map` iterates them. Used only by
/// [`parse_json_serde`], which names the composed result.
#[verifier::external_body]
fn from_value(v: serde_json::Value) -> Json {
    match v {
        serde_json::Value::Null => Json::Null,
        serde_json::Value::Bool(b) => Json::Bool(b),
        serde_json::Value::Number(n) => match n.as_i64() {
            Some(i) => Json::Int(i),
            None => Json::NumOther(n.to_string()),
        },
        serde_json::Value::String(s) => Json::Str(s),
        serde_json::Value::Array(a) => Json::Arr(a.into_iter().map(from_value).collect()),
        serde_json::Value::Object(m) => {
            Json::Obj(m.into_iter().map(|(k, w)| (k, from_value(w))).collect())
        },
    }
}

/// Relies on `serde_json::from_slice::<Value>`: parses one JSON document, or
/// fails. The result, embedded by [`from_value`], depends on the input bytes
/// alone and is named [`spec_json_of`].
#[verifier::external_body]
fn parse_json_serde(bytes: &[u8]) -> (r: Option<Json>)
    ensures
        r == spec_json_of(bytes@),
{
    match serde_json::from_slice::<serde_json::Value>(bytes) {
        Ok(v) => Some(from_value(v)),
        Err(_) => None,
    }
}

/// Parses one JSON document from raw bytes, or fails when they are not one.
pub fn parse_json_bytes(bytes: &[u8]) -> (r: Option<Json>)
    ensures
        r == spec_json_of(bytes@),
{
    parse_json_serde(bytes)
}

/// String slice equality, decided byte for byte.
pub fn str_eq(a: &str, b: &str) -> (r: bool)
    ensures
        r == (a@ == b@),
{
    proof {
        vstd::utf8::encode_utf8_decode_utf8(a@);
        vstd::utf8::encode_utf8_decode_utf8(b@);
    }
    let ab = a.as_bytes();
    let bb = b.as_bytes();
    if ab.len() != bb.len() {
        return false;
    }
    let n = ab.len();
    let mut i: usize = 0;
    while i < n
        invariant
            0 <= i <= n,
            n == ab@.len() == bb@.len(),
            ab@ == a.spec_bytes(),
            bb@ == b.spec_bytes(),
            decode_utf8(encode_utf8(a@)) == a@,
            decode_utf8(encode_utf8(b@)) == b@,
            forall|k: int| 0 <= k < i ==> ab@[k] == bb@[k],
        decreases n - i,
    {
        if ab[i] != bb[i] {
            return false;
        }
        i += 1;
    }
    assert(ab@ =~= bb@);
    true
}

/// First value bound to `key`, borrowed from the field list.
pub fn obj_get<'a>(fields: &'a Vec<(String, Json)>, key: &str) -> (r: Option<&'a Json>)
    ensures
        match r {
            Some(v) => spec_obj_get(fields@, key@) == Some(*v),
            None => spec_obj_get(fields@, key@) is None,
        },
{
    let n = fields.len();
    let mut i: usize = 0;
    proof {
        assert(fields@.skip(0) =~= fields@);
    }
    while i < n
        invariant
            0 <= i <= n,
            n == fields@.len(),
            spec_obj_get(fields@, key@) == spec_obj_get(fields@.skip(i as int), key@),
        decreases n - i,
    {
        proof {
            assert(fields@.skip(i as int).drop_first() =~= fields@.skip(i + 1));
            assert(fields@.skip(i as int)[0] == fields@[i as int]);
        }
        if str_eq(fields[i].0.as_str(), key) {
            return Some(&fields[i].1);
        }
        i += 1;
    }
    proof {
        assert(fields@.skip(n as int) =~= Seq::<(String, Json)>::empty());
    }
    None
}

/// Appending an entry leaves every earlier binding in place; the new entry is
/// found only where its key was absent before.
pub proof fn lemma_obj_get_push(s: Seq<(String, Json)>, e: (String, Json), key: Seq<char>)
    ensures
        spec_obj_get(s.push(e), key) == (if spec_obj_get(s, key) is Some {
            spec_obj_get(s, key)
        } else if e.0@ == key {
            Some(e.1)
        } else {
            Option::<Json>::None
        }),
    decreases s.len(),
{
    if s.len() == 0 {
        reveal_with_fuel(spec_obj_get, 2);
        assert(s.push(e)[0] == e);
        assert(s.push(e).drop_first() =~= Seq::<(String, Json)>::empty());
    } else {
        let t = s.drop_first();
        assert(s.push(e)[0] == s[0]);
        assert(s.push(e).drop_first() =~= t.push(e));
        lemma_obj_get_push(t, e, key);
        if s[0].0@ == key {
            assert(spec_obj_get(s, key) == Some(s[0].1));
            assert(spec_obj_get(s.push(e), key) == Some(s[0].1));
        } else {
            assert(spec_obj_get(s, key) == spec_obj_get(t, key));
            assert(spec_obj_get(s.push(e), key) == spec_obj_get(t.push(e), key));
        }
    }
}

/// Deep equality of two JSON values up to string contents: the relation that a
/// verified deep copy establishes.
pub open spec fn json_equiv(a: Json, b: Json) -> bool
    decreases a,
{
    match (a, b) {
        (Json::Null, Json::Null) => true,
        (Json::Bool(x), Json::Bool(y)) => x == y,
        (Json::Int(x), Json::Int(y)) => x == y,
        (Json::NumOther(x), Json::NumOther(y)) => x@ == y@,
        (Json::Str(x), Json::Str(y)) => x@ == y@,
        (Json::Arr(x), Json::Arr(y)) => x@.len() == y@.len() && (forall|i: int|
            0 <= i < x@.len() ==> json_equiv(#[trigger] x@[i], y@[i])),
        (Json::Obj(x), Json::Obj(y)) => x@.len() == y@.len() && (forall|i: int|
            0 <= i < x@.len() ==> (#[trigger] x@[i]).0@ == y@[i].0@ && json_equiv(
                x@[i].1,
                y@[i].1,
            )),
        _ => false,
    }
}

impl Json {
    /// A deep copy, equal to the original up to string contents.
    pub fn duplicate(&self) -> (r: Json)
        ensures
            json_equiv(*self, r),
        decreases *self,
    {
        match self {
            Json::Null => Json::Null,
            Json::Bool(b) => Json::Bool(*b),
            Json::Int(i) => Json::Int(*i),
            Json::NumOther(s) => Json::NumOther(s.clone()),
            Json::Str(s) => Json::Str(s.clone()),
            Json::Arr(items) => {
                let n = items.len();
                let mut out: Vec<Json> = Vec::new();
                let mut i: usize = 0;
                while i < n
                    invariant
                        0 <= i <= n,
                        n == items@.len(),
                        *self == Json::Arr(*items),
                        out@.len() == i,
                        forall|k: int| 0 <= k < i ==> json_equiv(items@[k], #[trigger] out@[k]),
                    decreases n - i,
                {
                    proof {
                        assert(decreases_to!(*self => self->Arr_0));
                        assert(decreases_to!(self->Arr_0 => self->Arr_0[i as int]));
                        assert(decreases_to!(*self => items@[i as int]));
                    }
                    out.push(items[i].duplicate());
                    i += 1;
                }
                Json::Arr(out)
            },
            Json::Obj(fields) => {
                let n = fields.len();
                let mut out: Vec<(String, Json)> = Vec::new();
                let mut i: usize = 0;
                while i < n
                    invariant
                        0 <= i <= n,
                        n == fields@.len(),
                        *self == Json::Obj(*fields),
                        out@.len() == i,
                        forall|k: int|
                            0 <= k < i ==> (#[trigger] out@[k]).0@ == fields@[k].0@ && json_equiv(
                                fields@[k].1,
                                out@[k].1,
                            ),
                    decreases n - i,
                {
                    proof {
                        assert(decreases_to!(*self => self->Obj_0));
                        assert(decreases_to!(self->Obj_0 => self->Obj_0[i as int]));
                        assert(decreases_to!(*self => fields@[i as int]));
                    }
                    out.push((fields[i].0.clone(), fields[i].1.duplicate()));
                    i += 1;
                }
                Json::Obj(out)
            },
        }
    }
}

/// Appends a slice's bytes to a vector.
pub(crate) fn push_bytes(out: &mut Vec<u8>, bytes: &[u8])
    ensures
        final(out)@ == old(out)@ + bytes@,
{
    let n = bytes.len();
    let mut i: usize = 0;
    while i < n
        invariant
            0 <= i <= n,
            n == bytes@.len(),
            out@ == old(out)@ + bytes@.subrange(0, i as int),
        decreases n - i,
    {
        out.push(bytes[i]);
        proof {
            assert(old(out)@ + bytes@.subrange(0, i + 1) =~= (old(out)@ + bytes@.subrange(
                0,
                i as int,
            )).push(bytes@[i as int]));
        }
        i += 1;
    }
    proof {
        assert(bytes@.subrange(0, n as int) =~= bytes@);
    }
}

/// The first value bound to `key`, moved out of the field list, which is
/// consumed.
pub fn obj_take(fields: Vec<(String, Json)>, key: &str) -> (r: Option<Json>)
    ensures
        r == spec_obj_get(fields@, key@),
{
    let ghost orig = fields@;
    let mut rest = fields;
    let mut found: Option<Json> = None;
    let ghost mut seen: Seq<(String, Json)> = Seq::empty();
    while rest.len() > 0
        invariant
            orig == seen + rest@,
            found == spec_obj_get(seen, key@),
        decreases rest@.len(),
    {
        let entry = rest.remove(0);
        let ghost ge = entry;
        proof {
            lemma_obj_get_push(seen, ge, key@);
        }
        let (k, v) = entry;
        if found.is_none() && str_eq(k.as_str(), key) {
            found = Some(v);
        }
        proof {
            seen = seen.push(ge);
            assert(seen + rest@ =~= orig);
        }
    }
    proof {
        assert(seen =~= orig);
    }
    found
}

} // verus!
