//! Decoding of inbound wire frames.
//!
//! An inbound frame is a JSON object with the fields `type` (required
//! string), `recipient` (required string), and the optional fields `content`,
//! `filename`, `content_type` (strings), `size` (an unsigned integer) and
//! `data` (an array of byte values). Anything else — text that is not JSON,
//! a non-object, a missing or mistyped field — is a malformed frame, which
//! the router answers with a single decode error.
//!
//! The JSON syntax itself is the one work left to the outside parser. Its
//! result is named: `parsed_of` is the value that accepted text parses to,
//! and `json_model` is the shape of such a value, a [`JsonV`]. Every trusted
//! item below names the serde_json function it relies on and says, over
//! those names, what its source shows. The shape checks on the parsed value
//! are verified code, and [`decode_of`] states the decoded frame as a
//! function of the parsed value. One consequence of the parser's object
//! model: a key given twice keeps its last value.

use vstd::prelude::*;

use crate::messages::InboundFrame;
use crate::messages::InboundFrameV;

verus! {

#[verifier::external_type_specification]
#[verifier::external_body]
pub struct ExValue(serde_json::Value);

/// The shape of a parsed JSON value, as far as the decoder reads it. A
/// number carries only what `as_u64` yields of it: its value when it is an
/// unsigned integer, and nothing when it is negative or not an integer.
pub enum JsonV {
    Null,
    Bool(bool),
    Num(Option<u64>),
    Str(Seq<char>),
    Arr(Seq<JsonV>),
    Obj(Map<Seq<char>, JsonV>),
}

/// The shape of a parsed JSON value.
pub uninterp spec fn json_model(v: serde_json::Value) -> JsonV;

/// Whether a character sequence is well-formed JSON — a property of the
/// characters alone, decided by the parser.
pub uninterp spec fn json_accepts(s: Seq<char>) -> bool;

/// The shape that well-formed JSON text parses to; meaningful only on text
/// that `json_accepts`.
pub uninterp spec fn parsed_of(s: Seq<char>) -> JsonV;

/// The unsigned integer a parsed number carries, if any.
pub open spec fn json_uint(j: JsonV) -> Option<u64> {
    match j {
        JsonV::Num(u) => u,
        _ => None,
    }
}

/// The fields of a parsed object; empty when the value is no object.
pub open spec fn obj_of(j: JsonV) -> Map<Seq<char>, JsonV> {
    match j {
        JsonV::Obj(m) => m,
        _ => Map::empty(),
    }
}

/// The shapes of a parsed array's elements.
pub open spec fn models_of(a: Seq<serde_json::Value>) -> Seq<JsonV> {
    a.map_values(|v: serde_json::Value| json_model(v))
}

/// Relies on serde_json::from_str::<Value>: parsing succeeds exactly on
/// well-formed JSON text and yields the text's value, deterministically in
/// the characters alone.
#[verifier::external_body]
fn json_parse(s: &str) -> (r: Option<serde_json::Value>)
    ensures
        r is Some <==> json_accepts(s@),
        r matches Some(v) ==> json_model(v) == parsed_of(s@),
{
    serde_json::from_str::<serde_json::Value>(s).ok()
}

/// Relies on serde_json::Value::get with a string index: on an object it
/// yields the value at the key, if any; on anything else it yields nothing.
#[verifier::external_body]
fn value_get<'a>(v: &'a serde_json::Value, key: &str) -> (r: Option<&'a serde_json::Value>)
    ensures
        match r {
            Some(c) => json_model(*v) matches JsonV::Obj(m) && m.contains_key(key@)
                && json_model(*c) == m[key@],
            None => json_model(*v) matches JsonV::Obj(m) ==> !m.contains_key(key@),
        },
{
    v.get(key)
}

/// Relies on serde_json::Value::is_object.
#[verifier::external_body]
fn value_is_object(v: &serde_json::Value) -> (r: bool)
    ensures
        r == (json_model(*v) is Obj),
{
    v.is_object()
}

/// Relies on serde_json::Value::is_null.
#[verifier::external_body]
fn value_is_null(v: &serde_json::Value) -> (r: bool)
    ensures
        r == (json_model(*v) is Null),
{
    v.is_null()
}

/// Relies on serde_json::Value::as_str: the characters exactly when the
/// value is a JSON string.
#[verifier::external_body]
fn value_as_str(v: &serde_json::Value) -> (r: Option<String>)
    ensures
        match r {
            Some(s) => json_model(*v) matches JsonV::Str(cs) && s@ == cs,
            None => !(json_model(*v) is Str),
        },
{
    v.as_str().map(|s| s.to_owned())
}

/// Relies on serde_json::Value::as_u64: the number exactly when the value is
/// an unsigned integer; negative and non-integer numbers yield nothing.
#[verifier::external_body]
fn value_as_u64(v: &serde_json::Value) -> (r: Option<u64>)
    ensures
        r == json_uint(json_model(*v)),
{
    v.as_u64()
}

/// Relies on serde_json::Value::as_array: the elements exactly when the
/// value is a JSON array.
#[verifier::external_body]
fn value_as_array(v: &serde_json::Value) -> (r: Option<&Vec<serde_json::Value>>)
    ensures
        match r {
            Some(a) => json_model(*v) matches JsonV::Arr(elems) && models_of(a@) == elems,
            None => !(json_model(*v) is Arr),
        },
{
    v.as_array()
}

/// A required string field: its characters, or nothing when it is absent or
/// not a string.
pub open spec fn req_str_of(m: Map<Seq<char>, JsonV>, key: Seq<char>) -> Option<Seq<char>> {
    if m.contains_key(key) {
        match m[key] {
            JsonV::Str(cs) => Some(cs),
            _ => None,
        }
    } else {
        None
    }
}

/// An optional string field: absent or null is no value; present with any
/// other non-string shape is an error.
pub open spec fn opt_str_of(m: Map<Seq<char>, JsonV>, key: Seq<char>) -> Result<
    Option<Seq<char>>,
    (),
> {
    if !m.contains_key(key) {
        Ok(None)
    } else {
        match m[key] {
            JsonV::Null => Ok(None),
            JsonV::Str(cs) => Ok(Some(cs)),
            _ => Err(()),
        }
    }
}

/// An optional unsigned-integer field, under the same absent/null rules.
pub open spec fn opt_u64_of(m: Map<Seq<char>, JsonV>, key: Seq<char>) -> Result<
    Option<u64>,
    (),
> {
    if !m.contains_key(key) {
        Ok(None)
    } else if m[key] is Null {
        Ok(None)
    } else {
        match json_uint(m[key]) {
            Some(n) => Ok(Some(n)),
            None => Err(()),
        }
    }
}

/// Whether a parsed array element is a byte value.
pub open spec fn is_byte(j: JsonV) -> bool {
    match json_uint(j) {
        Some(n) => n <= 255,
        None => false,
    }
}

/// The byte a parsed array element carries; meaningful only when `is_byte`.
pub open spec fn byte_val(j: JsonV) -> u8 {
    match json_uint(j) {
        Some(n) => n as u8,
        None => 0,
    }
}

/// Whether every element of a parsed array is a byte value.
pub open spec fn all_bytes(elems: Seq<JsonV>) -> bool {
    forall|i: int| 0 <= i < elems.len() ==> is_byte(#[trigger] elems[i])
}

/// The bytes of a parsed array; meaningful only when `all_bytes`.
pub open spec fn bytes_of(elems: Seq<JsonV>) -> Seq<u8> {
    Seq::new(elems.len(), |i: int| byte_val(elems[i]))
}

/// An optional byte-array field: absent or null is no value; an array with
/// every element a byte value is the bytes; anything else is an error.
pub open spec fn opt_bytes_of(m: Map<Seq<char>, JsonV>, key: Seq<char>) -> Result<
    Option<Seq<u8>>,
    (),
> {
    if !m.contains_key(key) {
        Ok(None)
    } else {
        match m[key] {
            JsonV::Null => Ok(None),
            JsonV::Arr(elems) => if all_bytes(elems) {
                Ok(Some(bytes_of(elems)))
            } else {
                Err(())
            },
            _ => Err(()),
        }
    }
}

/// The frame that a parsed JSON value decodes to: the whole decode step as a
/// function of the value's shape.
pub open spec fn decode_of(j: JsonV) -> InboundFrameV {
    match j {
        JsonV::Obj(m) => match req_str_of(m, "type"@) {
            None => InboundFrameV::Malformed,
            Some(kind) => match req_str_of(m, "recipient"@) {
                None => InboundFrameV::Malformed,
                Some(recipient) => match opt_str_of(m, "content"@) {
                    Err(_) => InboundFrameV::Malformed,
                    Ok(content) => match opt_str_of(m, "filename"@) {
                        Err(_) => InboundFrameV::Malformed,
                        Ok(filename) => if opt_str_of(m, "content_type"@) is Err {
                            InboundFrameV::Malformed
                        } else if opt_u64_of(m, "size"@) is Err {
                            InboundFrameV::Malformed
                        } else {
                            match opt_bytes_of(m, "data"@) {
                                Err(_) => InboundFrameV::Malformed,
                                Ok(data) => InboundFrameV::Frame {
                                    kind,
                                    recipient,
                                    content,
                                    filename,
                                    data,
                                },
                            }
                        },
                    },
                },
            },
        },
        _ => InboundFrameV::Malformed,
    }
}

/// A required string field read off the parsed value.
fn required_string_field(v: &serde_json::Value, key: &str) -> (r: Option<String>)
    requires
        json_model(*v) is Obj,
    ensures
        match r {
            Some(s) => req_str_of(obj_of(json_model(*v)), key@) == Some(s@),
            None => req_str_of(obj_of(json_model(*v)), key@) is None,
        },
{
    match value_get(v, key) {
        Some(f) => value_as_str(f),
        None => None,
    }
}

/// An optional string field read off the parsed value.
fn optional_string_field(v: &serde_json::Value, key: &str) -> (r: Result<Option<String>, ()>)
    requires
        json_model(*v) is Obj,
    ensures
        match r {
            Ok(Some(s)) => opt_str_of(obj_of(json_model(*v)), key@) == Ok::<
                Option<Seq<char>>,
                (),
            >(Some(s@)),
            Ok(None) => opt_str_of(obj_of(json_model(*v)), key@) == Ok::<
                Option<Seq<char>>,
                (),
            >(None),
            Err(_) => opt_str_of(obj_of(json_model(*v)), key@) is Err,
        },
{
    match value_get(v, key) {
        Some(f) => {
            if value_is_null(f) {
                Ok(None)
            } else {
                match value_as_str(f) {
                    Some(s) => Ok(Some(s)),
                    None => Err(()),
                }
            }
        },
        None => Ok(None),
    }
}

/// An optional unsigned-integer field read off the parsed value.
fn optional_u64_field(v: &serde_json::Value, key: &str) -> (r: Result<Option<u64>, ()>)
    requires
        json_model(*v) is Obj,
    ensures
        match r {
            Ok(n) => opt_u64_of(obj_of(json_model(*v)), key@) == Ok::<Option<u64>, ()>(n),
            Err(_) => opt_u64_of(obj_of(json_model(*v)), key@) is Err,
        },
{
    match value_get(v, key) {
        Some(f) => {
            if value_is_null(f) {
                Ok(None)
            } else {
                match value_as_u64(f) {
                    Some(n) => Ok(Some(n)),
                    None => Err(()),
                }
            }
        },
        None => Ok(None),
    }
}

/// An optional byte-array field read off the parsed value.
fn optional_bytes_field(v: &serde_json::Value, key: &str) -> (r: Result<Option<Vec<u8>>, ()>)
    requires
        json_model(*v) is Obj,
    ensures
        match r {
            Ok(Some(b)) => opt_bytes_of(obj_of(json_model(*v)), key@) == Ok::<
                Option<Seq<u8>>,
                (),
            >(Some(b@)),
            Ok(None) => opt_bytes_of(obj_of(json_model(*v)), key@) == Ok::<
                Option<Seq<u8>>,
                (),
            >(None),
            Err(_) => opt_bytes_of(obj_of(json_model(*v)), key@) is Err,
        },
{
    match value_get(v, key) {
        Some(f) => {
            if value_is_null(f) {
                return Ok(None);
            }
            match value_as_array(f) {
                Some(elems) => {
                    let ghost shapes = models_of(elems@);
                    let n = elems.len();
                    let mut bytes: Vec<u8> = Vec::new();
                    let mut i: usize = 0;
                    while i < n
                        invariant
                            n == elems@.len(),
                            i <= n,
                            json_model(*v) is Obj,
                            obj_of(json_model(*v)).contains_key(key@),
                            obj_of(json_model(*v))[key@] == JsonV::Arr(shapes),
                            shapes == models_of(elems@),
                            shapes.len() == n,
                            bytes@.len() == i,
                            forall|k: int| 0 <= k < i ==> is_byte(#[trigger] shapes[k]),
                            forall|k: int| 0 <= k < i ==> bytes@[k] == byte_val(
                                #[trigger] shapes[k],
                            ),
                        decreases n - i,
                    {
                        proof {
                            assert(shapes[i as int] == json_model(elems@[i as int]));
                        }
                        match value_as_u64(&elems[i]) {
                            Some(b) => {
                                if b <= 255 {
                                    bytes.push(b as u8);
                                } else {
                                    proof {
                                        assert(!is_byte(shapes[i as int]));
                                        assert(!all_bytes(shapes));
                                    }
                                    return Err(());
                                }
                            },
                            None => {
                                proof {
                                    assert(!is_byte(shapes[i as int]));
                                    assert(!all_bytes(shapes));
                                }
                                return Err(());
                            },
                        }
                        i += 1;
                    }
                    proof {
                        assert(all_bytes(shapes));
                        assert(bytes@ =~= bytes_of(shapes));
                    }
                    Ok(Some(bytes))
                },
                None => Err(()),
            }
        },
        None => Ok(None),
    }
}

/// The fields of an inbound frame read off a parsed JSON value, or malformed
/// when the value does not have the frame shape.
fn decode_value(v: &serde_json::Value) -> (r: InboundFrame)
    ensures
        r@ == decode_of(json_model(*v)),
{
    if !value_is_object(v) {
        return InboundFrame::Malformed;
    }
    let kind = match required_string_field(v, "type") {
        Some(k) => k,
        None => {
            return InboundFrame::Malformed;
        },
    };
    let recipient = match required_string_field(v, "recipient") {
        Some(r) => r,
        None => {
            return InboundFrame::Malformed;
        },
    };
    let content = match optional_string_field(v, "content") {
        Ok(c) => c,
        Err(_) => {
            return InboundFrame::Malformed;
        },
    };
    let filename = match optional_string_field(v, "filename") {
        Ok(f) => f,
        Err(_) => {
            return InboundFrame::Malformed;
        },
    };
    match optional_string_field(v, "content_type") {
        Ok(_) => (),
        Err(_) => {
            return InboundFrame::Malformed;
        },
    }
    match optional_u64_field(v, "size") {
        Ok(_) => (),
        Err(_) => {
            return InboundFrame::Malformed;
        },
    }
    let data = match optional_bytes_field(v, "data") {
        Ok(d) => d,
        Err(_) => {
            return InboundFrame::Malformed;
        },
    };
    InboundFrame::Frame { kind, recipient, content, filename, data }
}

/// Decodes one inbound text frame. Text that the JSON parser rejects is a
/// malformed frame; accepted text decodes to exactly [`decode_of`] of the
/// value it parses to.
pub fn decode_frame(text: &str) -> (r: InboundFrame)
    ensures
        !json_accepts(text@) ==> r is Malformed,
        json_accepts(text@) ==> r@ == decode_of(parsed_of(text@)),
{
    match json_parse(text) {
        Some(v) => decode_value(&v),
        None => InboundFrame::Malformed,
    }
}

} // verus!
