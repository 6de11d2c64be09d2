//! A model of parsed JSON documents.
//!
//! The service speaks JSON over the wire.  Parsing the raw text is delegated
//! to an outside parser; everything read out of the parsed tree afterwards is
//! verified code over the `JsonValue` model below.
use vstd::prelude::*;
use rustc_serialize::json::Json;

verus! {

/// A parsed JSON document.
///
/// Numbers keep their source text: the surrounding protocol only ever needs
/// a number verbatim (a duration) or as an unsigned integer (a size, a
/// deletion count), and the integral readings are verified here.
pub enum JsonValue {
    Null,
    Bool(bool),
    Num(String),
    Str(String),
    Arr(Vec<JsonValue>),
    Obj(Vec<(String, JsonValue)>),
}

/// The tree that the outside parser yields for a given text, `None` when the
/// text is not well-formed JSON.  The result depends on the text alone.
pub uninterp spec fn json_of(s: Seq<char>) -> Option<JsonValue>;

#[verifier::external_type_specification]
#[verifier::external_body]
pub struct ExJson(Json);

/// Conversion half of `parse_json`: copies the outside parser's tree into the
/// `JsonValue` model, one variant at a time, numbers as their shortest text.
/// Relies on nothing beyond moving each field across.
#[verifier::external_body]
fn json_from_parsed(j: &Json) -> JsonValue {
    match j {
        Json::Null => JsonValue::Null,
        Json::Boolean(b) => JsonValue::Bool(*b),
        Json::I64(n) => JsonValue::Num(n.to_string()),
        Json::U64(n) => JsonValue::Num(n.to_string()),
        Json::F64(n) => JsonValue::Num(n.to_string()),
        Json::String(s) => JsonValue::Str(s.clone()),
        Json::Array(a) => JsonValue::Arr(a.iter().map(json_from_parsed).collect()),
        Json::Object(o) => JsonValue::Obj(
            o.iter().map(|(k, v)| (k.clone(), json_from_parsed(v))).collect(),
        ),
    }
}

/// Relies on `rustc_serialize::json::Json::from_str`: parses the text, whose
/// outcome is a function of the text alone, here named `json_of`.
#[verifier::external_body]
pub(crate) fn parse_json(s: &str) -> (r: Option<JsonValue>)
    ensures
        r == json_of(s@),
{
    match Json::from_str(s) {
        Ok(j) => Some(json_from_parsed(&j)),
        Err(_) => None,
    }
}

/// Character-for-character string comparison.
pub fn str_eq(a: &str, b: &str) -> (r: bool)
    ensures
        r == (a@ == b@),
{
    let n = a.unicode_len();
    if n != b.unicode_len() {
        return false;
    }
    let mut i: usize = 0;
    while i < n
        invariant
            n == a@.len(),
            n == b@.len(),
            i <= n,
            forall|j: int| 0 <= j < i ==> a@[j] == b@[j],
        decreases n - i,
    {
        if a.get_char(i) != b.get_char(i) {
            return false;
        }
        i += 1;
    }
    proof {
        assert(a@ =~= b@);
    }
    true
}

/// The value bound to `key` in an object's field list, front first.
pub open spec fn obj_get_spec(pairs: Seq<(String, JsonValue)>, key: Seq<char>) -> Option<
    JsonValue,
>
    decreases pairs.len(),
{
    if pairs.len() == 0 {
        None
    } else if pairs[0].0@ == key {
        Some(pairs[0].1)
    } else {
        obj_get_spec(pairs.drop_first(), key)
    }
}

/// Looks `key` up among an object's fields.
pub fn obj_get<'a>(pairs: &'a Vec<(String, JsonValue)>, key: &str) -> (r: Option<
    &'a JsonValue,
>)
    ensures
        match r {
            Some(v) => obj_get_spec(pairs@, key@) == Some(*v),
            None => obj_get_spec(pairs@, key@) is None,
        },
{
    let n = pairs.len();
    proof {
        assert(pairs@.subrange(0, n as int) =~= pairs@);
    }
    let mut i: usize = 0;
    while i < n
        invariant
            n == pairs@.len(),
            i <= n,
            obj_get_spec(pairs@, key@) == obj_get_spec(
                pairs@.subrange(i as int, n as int),
                key@,
            ),
        decreases n - i,
    {
        proof {
            assert(pairs@.subrange(i as int, n as int).drop_first() =~= pairs@.subrange(
                i as int + 1,
                n as int,
            ));
            assert(pairs@.subrange(i as int, n as int)[0] == pairs@[i as int]);
        }
        if str_eq(pairs[i].0.as_str(), key) {
            return Some(&pairs[i].1);
        }
        i += 1;
    }
    None
}

/// `c` is one of the characters `'0'` through `'9'`.
pub open spec fn is_digit(c: char) -> bool {
    48 <= c as u32 && c as u32 <= 57
}

/// The numeric value of a digit character.
pub open spec fn digit_val(c: char) -> int {
    c as u32 - 48
}

/// Every character of `s` is a decimal digit.
pub open spec fn all_digits(s: Seq<char>) -> bool {
    forall|i: int| 0 <= i < s.len() ==> is_digit(#[trigger] s[i])
}

/// The integer written by a digit string, most significant digit first.
pub open spec fn str_num_val(s: Seq<char>) -> int
    decreases s.len(),
{
    if s.len() == 0 {
        0
    } else {
        str_num_val(s.drop_last()) * 10 + digit_val(s.last())
    }
}

pub proof fn lemma_str_num_val_nonneg(s: Seq<char>)
    requires
        all_digits(s),
    ensures
        str_num_val(s) >= 0,
    decreases s.len(),
{
    if s.len() > 0 {
        assert(all_digits(s.drop_last())) by {
            assert(forall|i: int|
                0 <= i < s.len() - 1 ==> s.drop_last()[i] == #[trigger] s[i]);
        }
        lemma_str_num_val_nonneg(s.drop_last());
    }
}

/// A digit string is worth at least any of its prefixes.
pub proof fn lemma_str_num_val_prefix(s: Seq<char>, i: int)
    requires
        all_digits(s),
        0 <= i <= s.len(),
    ensures
        str_num_val(s) >= str_num_val(s.subrange(0, i)),
    decreases s.len() - i,
{
    if i < s.len() {
        lemma_str_num_val_prefix(s, i + 1);
        let p = s.subrange(0, i + 1);
        assert(p.drop_last() =~= s.subrange(0, i));
        assert(all_digits(s.subrange(0, i))) by {
            assert(forall|j: int|
                0 <= j < i ==> s.subrange(0, i)[j] == #[trigger] s[j]);
        }
        lemma_str_num_val_nonneg(s.subrange(0, i));
        assert(str_num_val(p) == str_num_val(s.subrange(0, i)) * 10 + digit_val(s[i]));
        assert(str_num_val(s.subrange(0, i)) * 10 >= str_num_val(s.subrange(0, i)));
    } else {
        assert(s.subrange(0, i) =~= s);
    }
}

/// What a nonempty digit string `s` denotes as a `u64`, `None` when `s` is
/// empty, holds another character, or overflows.
pub open spec fn parse_u64_spec(s: Seq<char>) -> Option<u64> {
    if s.len() > 0 && all_digits(s) && str_num_val(s) <= u64::MAX {
        Some(str_num_val(s) as u64)
    } else {
        None
    }
}

/// Reads an unsigned decimal number, rejecting anything else.
pub fn parse_u64_digits(s: &str) -> (r: Option<u64>)
    ensures
        r == parse_u64_spec(s@),
{
    let n = s.unicode_len();
    if n == 0 {
        return None;
    }
    let mut acc: u64 = 0;
    let mut i: usize = 0;
    while i < n
        invariant
            0 < n == s@.len(),
            i <= n,
            all_digits(s@.subrange(0, i as int)),
            acc == str_num_val(s@.subrange(0, i as int)),
        decreases n - i,
    {
        let c = s.get_char(i);
        let v = c as u32;
        if v < 48 || v > 57 {
            assert(!is_digit(s@[i as int]));
            return None;
        }
        let d = (v - 48) as u64;
        proof {
            assert(s@.subrange(0, i as int + 1).drop_last() =~= s@.subrange(0, i as int));
            assert(s@.subrange(0, i as int + 1).last() == s@[i as int]);
        }
        let next = match acc.checked_mul(10) {
            Some(p) => p.checked_add(d),
            None => None,
        };
        match next {
            Some(p) => {
                acc = p;
            },
            None => {
                proof {
                    assert(str_num_val(s@.subrange(0, i as int + 1)) > u64::MAX);
                    if s@.len() > 0 && all_digits(s@) && str_num_val(s@) <= u64::MAX {
                        lemma_str_num_val_prefix(s@, i as int + 1);
                    }
                }
                return None;
            },
        }
        i += 1;
    }
    proof {
        assert(s@.subrange(0, n as int) =~= s@);
    }
    Some(acc)
}

/// The character for the hexadecimal digit `d`.
pub open spec fn hex_char(d: int) -> char {
    seq!['0', '1', '2', '3', '4', '5', '6', '7', '8', '9', 'a', 'b', 'c', 'd', 'e', 'f'][d]
}

/// How one character is written inside a JSON string literal: quotes,
/// backslashes and the named control characters get a two-character escape,
/// any other control character a `\u00..` escape, anything else itself.
pub open spec fn esc_char(c: char) -> Seq<char> {
    if c == '"' {
        seq!['\\', '"']
    } else if c == '\\' {
        seq!['\\', '\\']
    } else if c == '\n' {
        seq!['\\', 'n']
    } else if c == '\r' {
        seq!['\\', 'r']
    } else if c == '\t' {
        seq!['\\', 't']
    } else if c as u32 == 8 {
        seq!['\\', 'b']
    } else if c as u32 == 12 {
        seq!['\\', 'f']
    } else if (c as u32) < 32 {
        seq!['\\', 'u', '0', '0', hex_char(c as u32 as int / 16), hex_char(c as u32 as int % 16)]
    } else {
        seq![c]
    }
}

/// The body of the JSON string literal that writes `s`.
pub open spec fn json_escape(s: Seq<char>) -> Seq<char>
    decreases s.len(),
{
    if s.len() == 0 {
        Seq::empty()
    } else {
        json_escape(s.drop_last()) + esc_char(s.last())
    }
}

/// Writes `s` as the body of a JSON string literal.
pub fn escape_json_string(s: &str) -> (r: String)
    ensures
        r@ == json_escape(s@),
{
    let n = s.unicode_len();
    let mut out = String::new();
    let mut i: usize = 0;
    while i < n
        invariant
            n == s@.len(),
            i <= n,
            out@ == json_escape(s@.subrange(0, i as int)),
        decreases n - i,
    {
        let c = s.get_char(i);
        let v = c as u32;
        proof {
            assert(s@.subrange(0, i as int + 1).drop_last() =~= s@.subrange(0, i as int));
            assert(s@.subrange(0, i as int + 1).last() == s@[i as int]);
        }
        if c == '"' {
            proof {
                reveal_strlit("\\\"");
                assert("\\\""@ =~= esc_char(c));
            }
            out.append("\\\"");
        } else if c == '\\' {
            proof {
                reveal_strlit("\\\\");
                assert("\\\\"@ =~= esc_char(c));
            }
            out.append("\\\\");
        } else if c == '\n' {
            proof {
                reveal_strlit("\\n");
                assert("\\n"@ =~= esc_char(c));
            }
            out.append("\\n");
        } else if c == '\r' {
            proof {
                reveal_strlit("\\r");
                assert("\\r"@ =~= esc_char(c));
            }
            out.append("\\r");
        } else if c == '\t' {
            proof {
                reveal_strlit("\\t");
                assert("\\t"@ =~= esc_char(c));
            }
            out.append("\\t");
        } else if v == 8 {
            proof {
                reveal_strlit("\\b");
                assert("\\b"@ =~= esc_char(c));
            }
            out.append("\\b");
        } else if v == 12 {
            proof {
                reveal_strlit("\\f");
                assert("\\f"@ =~= esc_char(c));
            }
            out.append("\\f");
        } else if v < 32 {
            proof {
                reveal_strlit("\\u00");
            }
            out.append("\\u00");
            push_hex_digit(&mut out, v / 16);
            push_hex_digit(&mut out, v % 16);
            proof {
                assert(("\\u00"@ + seq![hex_char(v as int / 16)] + seq![
                    hex_char(v as int % 16),
                ]) =~= esc_char(c));
            }
        } else {
            let piece = s.substring_char(i, i + 1);
            proof {
                assert(piece@ =~= esc_char(c));
            }
            out.append(piece);
        }
        i += 1;
    }
    proof {
        assert(s@.subrange(0, n as int) =~= s@);
    }
    out
}

/// Appends the character for the hexadecimal digit `d`.
fn push_hex_digit(out: &mut String, d: u32)
    requires
        d < 16,
    ensures
        final(out)@ == old(out)@ + seq![hex_char(d as int)],
{
    proof {
        reveal_strlit("0");
        reveal_strlit("1");
        reveal_strlit("2");
        reveal_strlit("3");
        reveal_strlit("4");
        reveal_strlit("5");
        reveal_strlit("6");
        reveal_strlit("7");
        reveal_strlit("8");
        reveal_strlit("9");
        reveal_strlit("a");
        reveal_strlit("b");
        reveal_strlit("c");
        reveal_strlit("d");
        reveal_strlit("e");
        reveal_strlit("f");
    }
    match d {
        0 => out.append("0"),
        1 => out.append("1"),
        2 => out.append("2"),
        3 => out.append("3"),
        4 => out.append("4"),
        5 => out.append("5"),
        6 => out.append("6"),
        7 => out.append("7"),
        8 => out.append("8"),
        9 => out.append("9"),
        10 => out.append("a"),
        11 => out.append("b"),
        12 => out.append("c"),
        13 => out.append("d"),
        14 => out.append("e"),
        _ => out.append("f"),
    }
}

/// What a signed decimal number denotes as an `i64`: an optional leading
/// minus sign, then digits; `None` on anything else or out of range.
pub open spec fn parse_i64_spec(s: Seq<char>) -> Option<i64> {
    if s.len() >= 2 && s[0] == '-' {
        let mag = s.drop_first();
        if all_digits(mag) && str_num_val(mag) <= 0x8000_0000_0000_0000 {
            Some((-str_num_val(mag)) as i64)
        } else {
            None
        }
    } else if s.len() > 0 && all_digits(s) && str_num_val(s) <= i64::MAX {
        Some(str_num_val(s) as i64)
    } else {
        None
    }
}

/// Reads a signed decimal number, rejecting anything else.
pub fn parse_i64_digits(s: &str) -> (r: Option<i64>)
    ensures
        r == parse_i64_spec(s@),
{
    let n = s.unicode_len();
    if n >= 2 && s.get_char(0) == '-' {
        let mag_str = s.substring_char(1, n);
        proof {
            assert(mag_str@ =~= s@.drop_first());
        }
        match parse_u64_digits(mag_str) {
            Some(mag) => {
                proof {
                    lemma_str_num_val_nonneg(s@.drop_first());
                }
                if mag <= 0x7fff_ffff_ffff_ffff {
                    Some(-(mag as i64))
                } else if mag == 0x8000_0000_0000_0000 {
                    Some(i64::MIN)
                } else {
                    None
                }
            },
            None => None,
        }
    } else {
        match parse_u64_digits(s) {
            Some(v) => {
                proof {
                    lemma_str_num_val_nonneg(s@);
                }
                if v <= i64::MAX as u64 {
                    Some(v as i64)
                } else {
                    None
                }
            },
            None => None,
        }
    }
}

} // verus!
