//! The data-path model: canonical identifiers for storage nodes.
//!
//! A node is addressed by a URI in one of three accepted forms,
//! `data://a/b`, `/a/b` or `a/b`; all three denote the canonical
//! slash-separated path `a/b`.  The canonical URI is `data://a/b` and the
//! service URL is `{base}/v1/data/a/b`.
use vstd::prelude::*;
use crate::error::{Error, ErrorView};
use crate::json::{JsonValue, obj_get, obj_get_spec, parse_u64_spec, parse_u64_digits};
use crate::json_helpers::FromJson;

pub mod dir;
pub mod file;

verus! {

/// The characters of the URI scheme prefix `data://`.
pub open spec fn data_scheme() -> Seq<char> {
    seq!['d', 'a', 't', 'a', ':', '/', '/']
}

/// `s` starts with the scheme prefix `data://`.
pub open spec fn has_data_prefix(s: Seq<char>) -> bool {
    s.len() >= 7 && s.subrange(0, 7) == data_scheme()
}

/// The canonical path written by a URI: the scheme prefix, or one leading
/// slash, is stripped; anything else is taken as already relative.
pub open spec fn strip_path(s: Seq<char>) -> Seq<char> {
    if has_data_prefix(s) {
        s.subrange(7, s.len() as int)
    } else if s.len() >= 1 && s[0] == '/' {
        s.subrange(1, s.len() as int)
    } else {
        s
    }
}

/// The index of the last `/` in `s`, `-1` when there is none.
pub open spec fn find_last_slash(s: Seq<char>) -> int
    decreases s.len(),
{
    if s.len() == 0 {
        -1
    } else if s.last() == '/' {
        s.len() - 1
    } else {
        find_last_slash(s.drop_last())
    }
}

/// `find_last_slash` is the position of a slash with none after it.
pub proof fn lemma_find_last_slash_at(s: Seq<char>, k: int)
    requires
        0 <= k < s.len(),
        s[k] == '/',
        forall|m: int| k < m < s.len() ==> s[m] != '/',
    ensures
        find_last_slash(s) == k,
    decreases s.len(),
{
    if k < s.len() - 1 {
        assert(forall|m: int|
            k < m < s.len() - 1 ==> s.drop_last()[m] == #[trigger] s[m]);
        lemma_find_last_slash_at(s.drop_last(), k);
    }
}

pub proof fn lemma_find_last_slash_none(s: Seq<char>)
    requires
        forall|m: int| 0 <= m < s.len() ==> s[m] != '/',
    ensures
        find_last_slash(s) == -1,
    decreases s.len(),
{
    if s.len() > 0 {
        lemma_find_last_slash_none(s.drop_last());
    }
}

/// The parent of a canonical path: everything before the last slash,
/// `None` for a path of at most one segment.
pub open spec fn parent_path(s: Seq<char>) -> Option<Seq<char>> {
    if find_last_slash(s) >= 0 {
        Some(s.subrange(0, find_last_slash(s)))
    } else {
        None
    }
}

/// The basename of a canonical path: everything after the last slash,
/// `None` for the empty path.
pub open spec fn basename_path(s: Seq<char>) -> Option<Seq<char>> {
    if s.len() == 0 {
        None
    } else {
        Some(s.subrange(find_last_slash(s) + 1, s.len() as int))
    }
}

/// All accepted URI forms of one relative path agree: `data://{p}`, `/{p}`
/// and `{p}` itself all strip to the canonical path `p`.  Together with the
/// contracts of [`DataPath::new`] and [`DataPath::to_data_uri`], parsing any
/// of the three forms and rendering the canonical URI yields `data://{p}`.
pub proof fn lemma_accepted_forms_agree(p: Seq<char>)
    requires
        !has_data_prefix(p),
        p.len() == 0 || p[0] != '/',
    ensures
        strip_path(data_scheme() + p) == p,
        strip_path(seq!['/'] + p) == p,
        strip_path(p) == p,
{
    let d = data_scheme() + p;
    assert(d.subrange(0, 7) =~= data_scheme());
    assert(d.subrange(7, d.len() as int) =~= p);
    let sl = seq!['/'] + p;
    assert(!has_data_prefix(sl)) by {
        if has_data_prefix(sl) {
            assert(sl.subrange(0, 7)[0] == sl[0]);
        }
    }
    assert(sl.subrange(1, sl.len() as int) =~= p);
}

/// `s` holds a `/` somewhere.
pub open spec fn has_slash(s: Seq<char>) -> bool {
    exists|i: int| 0 <= i < s.len() && s[i] == '/'
}

/// Spec-level image of a [`DataPath`].
#[verifier::ext_equal]
pub struct DataPathView {
    pub path: Seq<char>,
    pub base_url: Seq<char>,
}

/// A canonical identifier for a storage node, together with the service
/// base URL it will be resolved against.
///
/// The node's kind (file or directory) is not part of the value: it stays
/// unknown until a server response confirms it.
pub struct DataPath {
    path: String,
    base_url: String,
}

impl View for DataPath {
    type V = DataPathView;

    closed spec fn view(&self) -> DataPathView {
        DataPathView { path: self.path@, base_url: self.base_url@ }
    }
}

/// A type addressed by a [`DataPath`].
pub trait HasDataPath: Sized {
    /// The identifier this value is addressed by.
    spec fn path_view(&self) -> DataPathView;

    /// Wraps an identifier.
    fn from_data_path(p: DataPath) -> (r: Self)
        ensures
            r.path_view() == p@,
    ;

    /// The identifier this value is addressed by.
    fn data_path(&self) -> (r: &DataPath)
        ensures
            r@ == self.path_view(),
    ;
}

impl HasDataPath for DataPath {
    open spec fn path_view(&self) -> DataPathView {
        self@
    }

    fn from_data_path(p: DataPath) -> (r: Self) {
        p
    }

    fn data_path(&self) -> (r: &DataPath) {
        self
    }
}

impl DataPath {
    /// Parses a URI into its canonical path.  Parsing is total: every
    /// string is accepted, with an unrecognized form taken verbatim.
    pub fn new(base_url: &str, uri: &str) -> (r: DataPath)
        ensures
            r@.path == strip_path(uri@),
            r@.base_url == base_url@,
    {
        let n = uri.unicode_len();
        let stripped: String = if n >= 7 && uri.get_char(0) == 'd' && uri.get_char(1) == 'a'
            && uri.get_char(2) == 't' && uri.get_char(3) == 'a' && uri.get_char(4) == ':'
            && uri.get_char(5) == '/' && uri.get_char(6) == '/' {
            proof {
                assert(uri@.subrange(0, 7) =~= data_scheme());
            }
            uri.substring_char(7, n).to_owned()
        } else if n >= 1 && uri.get_char(0) == '/' {
            proof {
                if has_data_prefix(uri@) {
                    assert(uri@.subrange(0, 7)[1] == uri@[1]);
                }
            }
            uri.substring_char(1, n).to_owned()
        } else {
            proof {
                if has_data_prefix(uri@) {
                    assert(forall|k: int|
                        0 <= k < 7 ==> uri@.subrange(0, 7)[k] == #[trigger] uri@[k]);
                }
            }
            uri.to_owned()
        };
        DataPath { path: stripped, base_url: base_url.to_owned() }
    }

    /// The canonical path, relative to the collection root.
    pub fn path(&self) -> (r: &str)
        ensures
            r@ == self@.path,
    {
        self.path.as_str()
    }

    /// The canonical URI, scheme form: `data://{path}`.
    pub fn to_data_uri(&self) -> (r: String)
        ensures
            r@ == data_scheme() + self@.path,
    {
        proof {
            reveal_strlit("data://");
            assert("data://"@ =~= data_scheme());
        }
        let prefix: String = String::from_str("data://");
        prefix.concat(self.path.as_str())
    }

    /// The service URL this node is reached at: `{base}/v1/data/{path}`.
    pub fn to_url(&self) -> (r: String)
        ensures
            r@ == self@.base_url + "/v1/data/"@ + self@.path,
    {
        self.base_url.clone().concat("/v1/data/").concat(self.path.as_str())
    }

    /// The parent node, `None` at the root boundary (a path of at most one
    /// segment).
    pub fn parent(&self) -> (r: Option<DataPath>)
        ensures
            (match r {
                Some(p) => parent_path(self@.path) == Some(p@.path) && p@.base_url
                    == self@.base_url,
                None => parent_path(self@.path) is None,
            }),
    {
        match rfind_slash(self.path.as_str()) {
            Some(k) => Some(
                DataPath {
                    path: self.path.as_str().substring_char(0, k).to_owned(),
                    base_url: self.base_url.clone(),
                },
            ),
            None => None,
        }
    }

    /// The last segment of the path, `None` for the empty path.
    pub fn basename(&self) -> (r: Option<String>)
        ensures
            (match r {
                Some(b) => basename_path(self@.path) == Some(b@),
                None => basename_path(self@.path) is None,
            }),
    {
        let n = self.path.as_str().unicode_len();
        if n == 0 {
            return None;
        }
        match rfind_slash(self.path.as_str()) {
            Some(k) => Some(self.path.as_str().substring_char(k + 1, n).to_owned()),
            None => {
                proof {
                    assert(self@.path.subrange(0, n as int) =~= self@.path);
                }
                Some(self.path.as_str().substring_char(0, n).to_owned())
            },
        }
    }

    /// Appends one segment.  A name holding a `/` is not a segment and is
    /// rejected as an `InvalidPath`.
    pub fn child(&self, name: &str) -> (r: Result<DataPath, Error>)
        ensures
            (match r {
                Ok(p) => !has_slash(name@) && p@.path == self@.path + seq!['/'] + name@
                    && p@.base_url == self@.base_url,
                Err(e) => has_slash(name@) && e@ == (ErrorView::InvalidPath {
                    path: name@,
                }),
            }),
    {
        if contains_slash(name) {
            Err(Error::InvalidPath { path: name.to_owned() })
        } else {
            Ok(self.child_unchecked(name))
        }
    }

    /// Appends `name` after a `/`, verbatim; the caller answers for names
    /// that hold slashes of their own.
    pub fn child_unchecked(&self, name: &str) -> (r: DataPath)
        ensures
            r@.path == self@.path + seq!['/'] + name@,
            r@.base_url == self@.base_url,
    {
        proof {
            reveal_strlit("/");
            assert("/"@ =~= seq!['/']);
        }
        DataPath {
            path: self.path.clone().concat("/").concat(name),
            base_url: self.base_url.clone(),
        }
    }
}

impl Clone for DataPath {
    fn clone(&self) -> (r: Self)
        ensures
            r@ == self@,
    {
        DataPath { path: self.path.clone(), base_url: self.base_url.clone() }
    }
}

/// The count that the service reports back for a deletion.
#[derive(Debug)]
pub struct DeletedResult {
    pub deleted: u64,
}

impl DeepView for DeletedResult {
    type V = u64;

    open spec fn deep_view(&self) -> u64 {
        self.deleted
    }
}

impl FromJson for DeletedResult {
    open spec fn from_json_spec(j: JsonValue) -> Option<u64> {
        match j {
            JsonValue::Obj(pairs) => match obj_get_spec(pairs@, "deleted"@) {
                Some(JsonValue::Num(n)) => parse_u64_spec(n@),
                _ => None,
            },
            _ => None,
        }
    }

    fn from_json(j: &JsonValue) -> (r: Option<Self>) {
        match j {
            JsonValue::Obj(pairs) => match obj_get(pairs, "deleted") {
                Some(v) => match v {
                    JsonValue::Num(n) => match parse_u64_digits(n.as_str()) {
                        Some(deleted) => Some(DeletedResult { deleted }),
                        None => None,
                    },
                    _ => None,
                },
                None => None,
            },
            _ => None,
        }
    }
}

/// The position of the last `/` in `s`, `None` when there is none.
fn rfind_slash(s: &str) -> (r: Option<usize>)
    ensures
        (match r {
            Some(k) => 0 <= k < s@.len() && find_last_slash(s@) == k as int,
            None => find_last_slash(s@) == -1,
        }),
{
    let n = s.unicode_len();
    let mut j: usize = n;
    while j > 0
        invariant
            n == s@.len(),
            j <= n,
            forall|m: int| j <= m < n ==> s@[m] != '/',
        decreases j,
    {
        let c = s.get_char(j - 1);
        if c == '/' {
            proof {
                lemma_find_last_slash_at(s@, j - 1);
            }
            return Some(j - 1);
        }
        j -= 1;
    }
    proof {
        lemma_find_last_slash_none(s@);
    }
    None
}

/// `s` holds a `/` somewhere.
fn contains_slash(s: &str) -> (r: bool)
    ensures
        r == has_slash(s@),
{
    let n = s.unicode_len();
    let mut i: usize = 0;
    while i < n
        invariant
            n == s@.len(),
            i <= n,
            forall|m: int| 0 <= m < i ==> s@[m] != '/',
        decreases n - i,
    {
        if s.get_char(i) == '/' {
            return true;
        }
        i += 1;
    }
    false
}

} // verus!
