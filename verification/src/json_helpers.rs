//! The uniform response-decoding policy.
//!
//! Every network-facing operation turns a raw body and a success flag into
//! either a typed value or a typed [`Error`], in this order: on a failing
//! status the body is read as the error envelope; on a success status the
//! body is read as the expected shape first and, when that fails, as the
//! error envelope (some server failures arrive with a success status), and
//! only then does the raw body surface as a `DecodeFailure`.
use vstd::prelude::*;
use crate::error::{Error, ErrorView, opt_string_view};
use crate::json::{JsonValue, json_of, parse_json, obj_get, obj_get_spec};

verus! {

/// What the error envelope `{"error":{"message":..,"stacktrace":..}}` holds
/// in the document `j`: the message and the optional stacktrace, or `None`
/// when `j` does not match the envelope.
pub open spec fn envelope_spec(j: JsonValue) -> Option<(Seq<char>, Option<Seq<char>>)> {
    match j {
        JsonValue::Obj(pairs) => match obj_get_spec(pairs@, "error"@) {
            Some(JsonValue::Obj(inner)) => match obj_get_spec(inner@, "message"@) {
                Some(JsonValue::Str(m)) => match obj_get_spec(inner@, "stacktrace"@) {
                    None => Some((m@, None)),
                    Some(JsonValue::Null) => Some((m@, None)),
                    Some(JsonValue::Str(st)) => Some((m@, Some(st@))),
                    Some(_) => None,
                },
                _ => None,
            },
            _ => None,
        },
        _ => None,
    }
}

/// Reads the error envelope out of a parsed document.
pub fn decode_error_envelope(j: &JsonValue) -> (r: Option<(String, Option<String>)>)
    ensures
        (match envelope_spec(*j) {
            Some(env) => r matches Some(p) && p.0@ == env.0 && opt_string_view(p.1) == env.1,
            None => r is None,
        }),
{
    match j {
        JsonValue::Obj(pairs) => match obj_get(pairs, "error") {
            Some(e) => match e {
                JsonValue::Obj(inner) => match obj_get(inner, "message") {
                    Some(m) => match m {
                        JsonValue::Str(msg) => match obj_get(inner, "stacktrace") {
                            None => Some((msg.clone(), None)),
                            Some(st) => match st {
                                JsonValue::Null => Some((msg.clone(), None)),
                                JsonValue::Str(trace) => Some(
                                    (msg.clone(), Some(trace.clone())),
                                ),
                                _ => None,
                            },
                        },
                        _ => None,
                    },
                    None => None,
                },
                _ => None,
            },
            None => None,
        },
        _ => None,
    }
}

/// The error that a raw body denotes: the envelope's message when the body
/// parses and matches the envelope, else the body itself, kept verbatim.
pub open spec fn error_of_body(s: Seq<char>) -> ErrorView {
    match json_of(s) {
        Some(j) => match envelope_spec(j) {
            Some(env) => ErrorView::ApiError { message: env.0, stacktrace: env.1 },
            None => ErrorView::DecodeFailure { raw_body: s },
        },
        None => ErrorView::DecodeFailure { raw_body: s },
    }
}

/// Reads a body that arrived under a failing status: the error envelope when
/// it matches, else a `DecodeFailure` holding the body.
pub fn decode_to_error(res_json: &str) -> (r: Error)
    ensures
        r@ == error_of_body(res_json@),
{
    match parse_json(res_json) {
        Some(j) => match decode_error_envelope(&j) {
            Some(p) => Error::ApiError { message: p.0, stacktrace: p.1 },
            None => Error::DecodeFailure { raw_body: res_json.to_owned() },
        },
        None => Error::DecodeFailure { raw_body: res_json.to_owned() },
    }
}

/// A response shape that can be read out of a parsed JSON document.
pub trait FromJson: DeepView + Sized {
    /// The value of this shape held in the document `j`, `None` when the
    /// document does not match the shape.
    spec fn from_json_spec(j: JsonValue) -> Option<Self::V>;

    /// Reads the shape out of `j`.
    fn from_json(j: &JsonValue) -> (r: Option<Self>)
        ensures
            r is Some <==> Self::from_json_spec(*j) is Some,
            r matches Some(t) ==> Self::from_json_spec(*j) == Some(t.deep_view()),
    ;
}

/// The value of shape `T` that a raw body denotes, `None` when the body is
/// not JSON or does not match the shape.
pub open spec fn decode_spec<T: FromJson>(s: Seq<char>) -> Option<T::V> {
    match json_of(s) {
        Some(j) => T::from_json_spec(j),
        None => None,
    }
}

/// Reads a body as the shape `T`; on failure the raw body is preserved.
pub fn decode<T: FromJson>(res_json: &str) -> (r: Result<T, Error>)
    ensures
        r is Ok <==> decode_spec::<T>(res_json@) is Some,
        r matches Ok(t) ==> decode_spec::<T>(res_json@) == Some(t.deep_view()),
        r matches Err(e) ==> e@ == (ErrorView::DecodeFailure { raw_body: res_json@ }),
{
    match parse_json(res_json) {
        Some(j) => match T::from_json(&j) {
            Some(t) => Ok(t),
            None => Err(Error::DecodeFailure { raw_body: res_json.to_owned() }),
        },
        None => Err(Error::DecodeFailure { raw_body: res_json.to_owned() }),
    }
}

/// Decodes a response body against the shape `T` under the two-stage policy.
///
/// A failing status always yields the error read of the body.  A success
/// status yields the decoded `T`; when the body does not match `T`, the
/// envelope fallback distinguishes a quirky server-reported failure from a
/// plain decode failure.
pub fn decode_response<T: FromJson>(status_ok: bool, res_json: &str) -> (r: Result<T, Error>)
    ensures
        status_ok && decode_spec::<T>(res_json@) is Some ==> r is Ok,
        r matches Ok(t) ==> status_ok && decode_spec::<T>(res_json@) == Some(t.deep_view()),
        r matches Err(e) ==> e@ == error_of_body(res_json@),
        r is Err <==> !status_ok || decode_spec::<T>(res_json@) is None,
{
    if !status_ok {
        return Err(decode_to_error(res_json));
    }
    match parse_json(res_json) {
        Some(j) => match T::from_json(&j) {
            Some(t) => Ok(t),
            None => match decode_error_envelope(&j) {
                Some(p) => Err(Error::ApiError { message: p.0, stacktrace: p.1 }),
                None => Err(Error::DecodeFailure { raw_body: res_json.to_owned() }),
            },
        },
        None => Err(Error::DecodeFailure { raw_body: res_json.to_owned() }),
    }
}

/// The reading of an optional object field: a missing or `null` field is
/// an absent value, a present field must match the shape or the whole
/// reading fails.
pub open spec fn opt_field_spec<T: FromJson>(
    pairs: Seq<(String, JsonValue)>,
    key: Seq<char>,
) -> Option<Option<T::V>> {
    match obj_get_spec(pairs, key) {
        None => Some(None),
        Some(JsonValue::Null) => Some(None),
        Some(v) => match T::from_json_spec(v) {
            Some(x) => Some(Some(x)),
            None => None,
        },
    }
}

/// Reads an optional object field.
pub fn opt_field<T: FromJson>(pairs: &Vec<(String, JsonValue)>, key: &str) -> (r: Option<
    Option<T>,
>)
    ensures
        r is Some <==> opt_field_spec::<T>(pairs@, key@) is Some,
        r matches Some(o) ==> opt_field_spec::<T>(pairs@, key@) == Some(o.deep_view()),
{
    match obj_get(pairs, key) {
        None => Some(None),
        Some(v) => match v {
            JsonValue::Null => Some(None),
            _ => match T::from_json(v) {
                Some(t) => Some(Some(t)),
                None => None,
            },
        },
    }
}

impl FromJson for String {
    open spec fn from_json_spec(j: JsonValue) -> Option<Seq<char>> {
        match j {
            JsonValue::Str(s) => Some(s@),
            _ => None,
        }
    }

    fn from_json(j: &JsonValue) -> (r: Option<Self>) {
        match j {
            JsonValue::Str(s) => Some(s.clone()),
            _ => None,
        }
    }
}

impl FromJson for bool {
    open spec fn from_json_spec(j: JsonValue) -> Option<bool> {
        match j {
            JsonValue::Bool(b) => Some(b),
            _ => None,
        }
    }

    fn from_json(j: &JsonValue) -> (r: Option<Self>) {
        match j {
            JsonValue::Bool(b) => Some(*b),
            _ => None,
        }
    }
}

impl FromJson for u64 {
    open spec fn from_json_spec(j: JsonValue) -> Option<u64> {
        match j {
            JsonValue::Num(s) => crate::json::parse_u64_spec(s@),
            _ => None,
        }
    }

    fn from_json(j: &JsonValue) -> (r: Option<Self>) {
        match j {
            JsonValue::Num(s) => crate::json::parse_u64_digits(s.as_str()),
            _ => None,
        }
    }
}

impl FromJson for i64 {
    open spec fn from_json_spec(j: JsonValue) -> Option<i64> {
        match j {
            JsonValue::Num(s) => crate::json::parse_i64_spec(s@),
            _ => None,
        }
    }

    fn from_json(j: &JsonValue) -> (r: Option<Self>) {
        match j {
            JsonValue::Num(s) => crate::json::parse_i64_digits(s.as_str()),
            _ => None,
        }
    }
}

impl FromJson for i32 {
    open spec fn from_json_spec(j: JsonValue) -> Option<i32> {
        match j {
            JsonValue::Num(s) => match crate::json::parse_i64_spec(s@) {
                Some(v) => if i32::MIN <= v <= i32::MAX {
                    Some(v as i32)
                } else {
                    None
                },
                None => None,
            },
            _ => None,
        }
    }

    fn from_json(j: &JsonValue) -> (r: Option<Self>) {
        match j {
            JsonValue::Num(s) => match crate::json::parse_i64_digits(s.as_str()) {
                Some(v) => if i32::MIN as i64 <= v && v <= i32::MAX as i64 {
                    Some(v as i32)
                } else {
                    None
                },
                None => None,
            },
            _ => None,
        }
    }
}

/// The element-wise reading of a JSON array as a sequence of `T` values:
/// `None` as soon as one element does not match.
pub open spec fn decode_seq_spec<T: FromJson>(elems: Seq<JsonValue>) -> Option<Seq<T::V>> {
    if forall|i: int|
        0 <= i < elems.len() ==> (#[trigger] T::from_json_spec(elems[i])) is Some {
        Some(Seq::new(elems.len(), |i: int| T::from_json_spec(elems[i])->0))
    } else {
        None
    }
}

impl<T: FromJson> FromJson for Vec<T> {
    open spec fn from_json_spec(j: JsonValue) -> Option<Seq<T::V>> {
        match j {
            JsonValue::Arr(elems) => decode_seq_spec::<T>(elems@),
            _ => None,
        }
    }

    fn from_json(j: &JsonValue) -> (r: Option<Self>) {
        match j {
            JsonValue::Arr(elems) => {
                let n = elems.len();
                let mut out: Vec<T> = Vec::new();
                let mut i: usize = 0;
                while i < n
                    invariant
                        *j == JsonValue::Arr(*elems),
                        n == elems@.len(),
                        i <= n,
                        out@.len() == i,
                        forall|k: int|
                            0 <= k < i ==> (#[trigger] T::from_json_spec(elems@[k]))
                                == Some(out@[k].deep_view()),
                    decreases n - i,
                {
                    match T::from_json(&elems[i]) {
                        Some(t) => {
                            out.push(t);
                        },
                        None => {
                            assert(T::from_json_spec(elems@[i as int]) is None);
                            return None;
                        },
                    }
                    i += 1;
                }
                proof {
                    assert(out.deep_view() =~= Seq::new(
                        elems@.len(),
                        |k: int| T::from_json_spec(elems@[k])->0,
                    ));
                }
                Some(out)
            },
            _ => None,
        }
    }
}

} // verus!
