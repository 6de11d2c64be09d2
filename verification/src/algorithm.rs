//! Addressing algorithms and decoding their responses.
//!
//! An algorithm is addressed by `owner/name` plus a version selector; its
//! response arrives as `{"duration": number, "result": ...}`.
use vstd::prelude::*;
use crate::json::{JsonValue, all_digits, str_num_val, is_digit, digit_val, parse_u64_digits, obj_get,
    obj_get_spec, lemma_str_num_val_nonneg};
use crate::json_helpers::FromJson;

verus! {

/// What a nonempty digit string denotes as a `u32`, `None` when it is
/// empty, holds another character, or overflows.
pub open spec fn parse_u32_spec(s: Seq<char>) -> Option<u32> {
    if s.len() > 0 && all_digits(s) && str_num_val(s) <= u32::MAX {
        Some(str_num_val(s) as u32)
    } else {
        None
    }
}

/// Reads an unsigned decimal number, rejecting anything else.
pub fn parse_u32_digits(s: &str) -> (r: Option<u32>)
    ensures
        r == parse_u32_spec(s@),
{
    match parse_u64_digits(s) {
        Some(v) => {
            proof {
                lemma_str_num_val_nonneg(s@);
            }
            if v <= 0xffff_ffff {
                Some(v as u32)
            } else {
                None
            }
        },
        None => None,
    }
}

/// The index of the first `.` in `s`, `-1` when there is none.
pub open spec fn find_dot(s: Seq<char>) -> int
    decreases s.len(),
{
    if s.len() == 0 {
        -1
    } else if s[0] == '.' {
        0
    } else if find_dot(s.drop_first()) == -1 {
        -1
    } else {
        find_dot(s.drop_first()) + 1
    }
}

/// `find_dot` is the position of a dot with none before it.
pub proof fn lemma_find_dot_at(s: Seq<char>, k: int)
    requires
        0 <= k < s.len(),
        s[k] == '.',
        forall|m: int| 0 <= m < k ==> s[m] != '.',
    ensures
        find_dot(s) == k,
    decreases k,
{
    if k > 0 {
        assert(forall|m: int|
            0 <= m < k - 1 ==> s.drop_first()[m] == #[trigger] s[m + 1]);
        lemma_find_dot_at(s.drop_first(), k - 1);
    }
}

pub proof fn lemma_find_dot_none(s: Seq<char>)
    requires
        forall|m: int| 0 <= m < s.len() ==> s[m] != '.',
    ensures
        find_dot(s) == -1,
    decreases s.len(),
{
    if s.len() > 0 {
        lemma_find_dot_none(s.drop_first());
    }
}

/// The pieces of `s` between its dots, in order; never empty, and `s`
/// itself when there is no dot.
pub open spec fn split_dots(s: Seq<char>) -> Seq<Seq<char>>
    decreases s.len(),
{
    let k = find_dot(s);
    if !(0 <= k < s.len()) {
        seq![s]
    } else {
        seq![s.subrange(0, k)] + split_dots(s.subrange(k + 1, s.len() as int))
    }
}

/// The position of the first `.` in `s`, `None` when there is none.
fn find_dot_exec(s: &str) -> (r: Option<usize>)
    ensures
        (match r {
            Some(k) => 0 <= k < s@.len() && find_dot(s@) == k as int,
            None => find_dot(s@) == -1,
        }),
{
    let n = s.unicode_len();
    let mut i: usize = 0;
    while i < n
        invariant
            n == s@.len(),
            i <= n,
            forall|m: int| 0 <= m < i ==> s@[m] != '.',
        decreases n - i,
    {
        if s.get_char(i) == '.' {
            proof {
                lemma_find_dot_at(s@, i as int);
            }
            return Some(i);
        }
        i += 1;
    }
    proof {
        lemma_find_dot_none(s@);
    }
    None
}

/// Splits `s` at its dots.
fn split_dots_exec(s: &str) -> (r: Vec<String>)
    ensures
        r.deep_view() == split_dots(s@),
    decreases s@.len(),
{
    let n = s.unicode_len();
    match find_dot_exec(s) {
        Some(k) => {
            let head = s.substring_char(0, k).to_owned();
            let tail = s.substring_char(k + 1, n);
            let mut rest = split_dots_exec(tail);
            let mut out: Vec<String> = Vec::new();
            out.push(head);
            out.append(&mut rest);
            proof {
                assert(out.deep_view() =~= split_dots(s@));
            }
            out
        },
        None => {
            let mut out: Vec<String> = Vec::new();
            out.push(s.to_owned());
            proof {
                assert(out.deep_view() =~= split_dots(s@));
            }
            out
        },
    }
}

/// Spec-level image of a [`Version`].
#[verifier::ext_equal]
pub enum VersionView {
    Latest,
    Major(u32),
    Minor(u32, u32),
    Revision(u32, u32, u32),
    Hash(Seq<char>),
}

/// An algorithm version selector: the latest published version, a numeric
/// prefix of a semantic version, or an opaque revision token kept verbatim.
pub enum Version {
    Latest,
    Major(u32),
    Minor(u32, u32),
    Revision(u32, u32, u32),
    Hash(String),
}

impl View for Version {
    type V = VersionView;

    open spec fn view(&self) -> VersionView {
        match self {
            Version::Latest => VersionView::Latest,
            Version::Major(major) => VersionView::Major(*major),
            Version::Minor(major, minor) => VersionView::Minor(*major, *minor),
            Version::Revision(major, minor, revision) => VersionView::Revision(
                *major,
                *minor,
                *revision,
            ),
            Version::Hash(h) => VersionView::Hash(h@),
        }
    }
}

/// The selector written by a version string: one, two or three dot-joined
/// decimal numbers name a major / minor / revision selector; anything else
/// is an opaque revision token, kept verbatim.
pub open spec fn version_of(s: Seq<char>) -> VersionView {
    let parts = split_dots(s);
    if parts.len() == 1 && parse_u32_spec(parts[0]) is Some {
        VersionView::Major(parse_u32_spec(parts[0])->0)
    } else if parts.len() == 2 && parse_u32_spec(parts[0]) is Some && parse_u32_spec(
        parts[1],
    ) is Some {
        VersionView::Minor(parse_u32_spec(parts[0])->0, parse_u32_spec(parts[1])->0)
    } else if parts.len() == 3 && parse_u32_spec(parts[0]) is Some && parse_u32_spec(
        parts[1],
    ) is Some && parse_u32_spec(parts[2]) is Some {
        VersionView::Revision(
            parse_u32_spec(parts[0])->0,
            parse_u32_spec(parts[1])->0,
            parse_u32_spec(parts[2])->0,
        )
    } else {
        VersionView::Hash(s)
    }
}

/// The text a selector renders to.
pub open spec fn render_version(v: VersionView) -> Seq<char> {
    match v {
        VersionView::Latest => "latest"@,
        VersionView::Major(major) => u32_dec(major as int),
        VersionView::Minor(major, minor) => u32_dec(major as int) + seq!['.'] + u32_dec(
            minor as int,
        ),
        VersionView::Revision(major, minor, revision) => u32_dec(major as int) + seq!['.']
            + u32_dec(minor as int) + seq!['.'] + u32_dec(revision as int),
        VersionView::Hash(h) => h,
    }
}

/// The decimal digits of `n`, most significant first.
pub open spec fn u32_dec(n: int) -> Seq<char>
    decreases n,
{
    if n < 10 {
        seq![dec_char(n)]
    } else {
        u32_dec(n / 10) + seq![dec_char(n % 10)]
    }
}

/// The character for the decimal digit `d`.
pub open spec fn dec_char(d: int) -> char {
    seq!['0', '1', '2', '3', '4', '5', '6', '7', '8', '9'][d]
}

/// Appends the decimal rendering of `n`.
fn push_u32(out: &mut String, n: u32)
    ensures
        final(out)@ == old(out)@ + u32_dec(n as int),
    decreases n,
{
    if n >= 10 {
        push_u32(out, n / 10);
    }
    let d = n % 10;
    proof {
        reveal_strlit("0");
        reveal_strlit("1");
        reveal_strlit("2");
        reveal_strlit("3");
        reveal_strlit("4");
        reveal_strlit("5");
        reveal_strlit("6");
        reveal_strlit("7");
        reveal_strlit("8");
        reveal_strlit("9");
    }
    match d {
        0 => out.append("0"),
        1 => out.append("1"),
        2 => out.append("2"),
        3 => out.append("3"),
        4 => out.append("4"),
        5 => out.append("5"),
        6 => out.append("6"),
        7 => out.append("7"),
        8 => out.append("8"),
        _ => out.append("9"),
    }
    proof {
        assert(seq![dec_char(d as int)] =~= u32_dec(d as int));
    }
}

impl Version {
    /// Reads a version selector from a version string.  Parsing is total:
    /// a string that is not a numeric selector is an opaque token.
    pub fn from_str(version: &str) -> (r: Version)
        ensures
            r@ == version_of(version@),
    {
        let parts = split_dots_exec(version);
        if parts.len() == 1 {
            match parse_u32_digits(parts[0].as_str()) {
                Some(major) => Version::Major(major),
                None => Version::Hash(version.to_owned()),
            }
        } else if parts.len() == 2 {
            match (parse_u32_digits(parts[0].as_str()), parse_u32_digits(parts[1].as_str())) {
                (Some(major), Some(minor)) => Version::Minor(major, minor),
                _ => Version::Hash(version.to_owned()),
            }
        } else if parts.len() == 3 {
            match (
                parse_u32_digits(parts[0].as_str()),
                parse_u32_digits(parts[1].as_str()),
                parse_u32_digits(parts[2].as_str()),
            ) {
                (Some(major), Some(minor), Some(revision)) => Version::Revision(
                    major,
                    minor,
                    revision,
                ),
                _ => Version::Hash(version.to_owned()),
            }
        } else {
            Version::Hash(version.to_owned())
        }
    }

    /// Renders the selector back to its version string.
    pub fn render(&self) -> (r: String)
        ensures
            r@ == render_version(self@),
    {
        proof {
            reveal_strlit(".");
        }
        match self {
            Version::Latest => String::from_str("latest"),
            Version::Major(major) => {
                let mut out = String::new();
                push_u32(&mut out, *major);
                out
            },
            Version::Minor(major, minor) => {
                let mut out = String::new();
                push_u32(&mut out, *major);
                out.append(".");
                push_u32(&mut out, *minor);
                proof {
                    assert("."@ =~= seq!['.']);
                }
                out
            },
            Version::Revision(major, minor, revision) => {
                let mut out = String::new();
                push_u32(&mut out, *major);
                out.append(".");
                push_u32(&mut out, *minor);
                out.append(".");
                push_u32(&mut out, *revision);
                proof {
                    assert("."@ =~= seq!['.']);
                }
                out
            },
            Version::Hash(h) => h.clone(),
        }
    }
}

/// An opaque revision token renders back to the very string it was parsed
/// from: the permissive fallback of `Version::from_str` loses nothing.
pub proof fn lemma_hash_renders_verbatim(s: Seq<char>)
    ensures
        version_of(s) matches VersionView::Hash(h) ==> render_version(version_of(s)) == s,
{
}

proof fn lemma_u32_dec_digits(n: int)
    requires
        0 <= n,
    ensures
        u32_dec(n).len() >= 1,
        all_digits(u32_dec(n)),
    decreases n,
{
    assert(is_digit(dec_char(n % 10)));
    if n < 10 {
        assert(u32_dec(n) == seq![dec_char(n)]);
        assert(is_digit(dec_char(n)));
    } else {
        lemma_u32_dec_digits(n / 10);
        assert(forall|i: int|
            0 <= i < u32_dec(n / 10).len() ==> #[trigger] u32_dec(n)[i] == u32_dec(
                n / 10,
            )[i]);
        assert(u32_dec(n).last() == dec_char(n % 10));
    }
}

proof fn lemma_str_num_val_of_dec(n: int)
    requires
        0 <= n,
    ensures
        str_num_val(u32_dec(n)) == n,
    decreases n,
{
    assert(digit_val(dec_char(n % 10)) == n % 10);
    if n < 10 {
        assert(u32_dec(n) == seq![dec_char(n)]);
        assert(seq![dec_char(n)].drop_last() =~= Seq::<char>::empty());
        assert(seq![dec_char(n)].last() == dec_char(n));
        assert(str_num_val(Seq::<char>::empty()) == 0);
        assert(str_num_val(u32_dec(n)) == digit_val(dec_char(n)));
    } else {
        lemma_str_num_val_of_dec(n / 10);
        let s = u32_dec(n);
        assert(s == u32_dec(n / 10) + seq![dec_char(n % 10)]);
        assert(s.drop_last() =~= u32_dec(n / 10));
        assert(s.last() == dec_char(n % 10));
        assert(str_num_val(s) == (n / 10) * 10 + n % 10);
    }
}

proof fn lemma_parse_of_dec(m: u32)
    ensures
        parse_u32_spec(u32_dec(m as int)) == Some(m),
{
    lemma_u32_dec_digits(m as int);
    lemma_str_num_val_of_dec(m as int);
}

proof fn lemma_split_digits_alone(a: Seq<char>)
    requires
        all_digits(a),
    ensures
        split_dots(a) == seq![a],
{
    assert(forall|m: int| 0 <= m < a.len() ==> a[m] != '.') by {
        assert(forall|m: int| 0 <= m < a.len() ==> is_digit(#[trigger] a[m]));
    }
    lemma_find_dot_none(a);
}

proof fn lemma_split_digits_dot(a: Seq<char>, rest: Seq<char>)
    requires
        all_digits(a),
    ensures
        split_dots(a + seq!['.'] + rest) == seq![a] + split_dots(rest),
{
    let s = a + seq!['.'] + rest;
    assert(s[a.len() as int] == '.');
    assert(forall|m: int| 0 <= m < a.len() ==> s[m] == a[m] && is_digit(#[trigger] a[m]));
    lemma_find_dot_at(s, a.len() as int);
    assert(s.subrange(0, a.len() as int) =~= a);
    assert(s.subrange(a.len() as int + 1, s.len() as int) =~= rest);
}

/// On its numeric range, parsing is the inverse of rendering: a major,
/// minor or revision selector is parsed back out of the very string it
/// renders to.
pub proof fn lemma_numeric_round_trip(v: VersionView)
    requires
        v matches VersionView::Major(_) || v matches VersionView::Minor(_, _)
            || v matches VersionView::Revision(_, _, _),
    ensures
        version_of(render_version(v)) == v,
{
    match v {
        VersionView::Major(a) => {
            lemma_u32_dec_digits(a as int);
            lemma_parse_of_dec(a);
            lemma_split_digits_alone(u32_dec(a as int));
        },
        VersionView::Minor(a, b) => {
            lemma_u32_dec_digits(a as int);
            lemma_u32_dec_digits(b as int);
            lemma_parse_of_dec(a);
            lemma_parse_of_dec(b);
            lemma_split_digits_dot(u32_dec(a as int), u32_dec(b as int));
            lemma_split_digits_alone(u32_dec(b as int));
            let parts = split_dots(render_version(v));
            assert(parts == seq![u32_dec(a as int)] + seq![u32_dec(b as int)]);
            assert(parts[0] == u32_dec(a as int));
            assert(parts[1] == u32_dec(b as int));
            assert(parts.len() == 2);
        },
        VersionView::Revision(a, b, c) => {
            lemma_u32_dec_digits(a as int);
            lemma_u32_dec_digits(b as int);
            lemma_u32_dec_digits(c as int);
            lemma_parse_of_dec(a);
            lemma_parse_of_dec(b);
            lemma_parse_of_dec(c);
            let ra = u32_dec(a as int);
            let rb = u32_dec(b as int);
            let rc = u32_dec(c as int);
            assert(render_version(v) =~= ra + seq!['.'] + (rb + seq!['.'] + rc));
            lemma_split_digits_dot(ra, rb + seq!['.'] + rc);
            lemma_split_digits_dot(rb, rc);
            lemma_split_digits_alone(rc);
            let parts = split_dots(render_version(v));
            assert(parts == seq![ra] + (seq![rb] + seq![rc]));
            assert(parts[0] == ra);
            assert(parts[1] == rb);
            assert(parts[2] == rc);
            assert(parts.len() == 3);
        },
        _ => {},
    }
}

/// An algorithm address: its owner, its name, and a version selector.
pub struct Algorithm {
    pub user: String,
    pub repo: String,
    pub version: Version,
}

impl Algorithm {
    /// The API endpoint URL for this algorithm under `base_url`:
    /// `{base}/api/{user}/{repo}`, with `/{version}` appended for any
    /// selector but `Latest`.
    pub fn to_url(&self, base_url: &str) -> (r: String)
        ensures
            (match self.version@ {
                VersionView::Latest => r@ == base_url@ + "/api/"@ + self.user@ + "/"@
                    + self.repo@,
                v => r@ == base_url@ + "/api/"@ + self.user@ + "/"@ + self.repo@ + "/"@
                    + render_version(v),
            }),
    {
        let stem = base_url.to_owned().concat("/api/").concat(self.user.as_str()).concat(
            "/",
        ).concat(self.repo.as_str());
        match &self.version {
            Version::Latest => stem,
            v => stem.concat("/").concat(v.render().as_str()),
        }
    }
}

/// Spec-level image of an [`AlgorithmOutput`].
#[verifier::ext_equal]
pub struct AlgorithmOutputView<R> {
    pub duration: Seq<char>,
    pub result: R,
}

/// A decoded algorithm response: how long the run took (the number kept as
/// its source text) and the result, decoded as the caller's chosen shape.
#[derive(Debug)]
pub struct AlgorithmOutput<T> {
    pub duration: String,
    pub result: T,
}

impl<T: DeepView> DeepView for AlgorithmOutput<T> {
    type V = AlgorithmOutputView<T::V>;

    open spec fn deep_view(&self) -> Self::V {
        AlgorithmOutputView { duration: self.duration@, result: self.result.deep_view() }
    }
}

impl<T: FromJson> FromJson for AlgorithmOutput<T> {
    open spec fn from_json_spec(j: JsonValue) -> Option<Self::V> {
        match j {
            JsonValue::Obj(pairs) => match (
                obj_get_spec(pairs@, "duration"@),
                obj_get_spec(pairs@, "result"@),
            ) {
                (Some(JsonValue::Num(d)), Some(res)) => match T::from_json_spec(res) {
                    Some(rv) => Some(AlgorithmOutputView { duration: d@, result: rv }),
                    None => None,
                },
                _ => None,
            },
            _ => None,
        }
    }

    fn from_json(j: &JsonValue) -> (r: Option<Self>) {
        match j {
            JsonValue::Obj(pairs) => {
                let dur = match obj_get(pairs, "duration") {
                    Some(d) => match d {
                        JsonValue::Num(text) => text.clone(),
                        _ => {
                            return None;
                        },
                    },
                    None => {
                        return None;
                    },
                };
                match obj_get(pairs, "result") {
                    Some(res) => match T::from_json(res) {
                        Some(result) => Some(AlgorithmOutput { duration: dur, result }),
                        None => None,
                    },
                    None => None,
                }
            },
            _ => None,
        }
    }
}

} // verus!
