//! Files stored under a data path.
use vstd::prelude::*;
use crate::data::{DataPath, DataPathView, HasDataPath, DeletedResult, strip_path};
use crate::data::dir::DataDir;
use crate::error::{Error, ErrorView};
use crate::json::{JsonValue, obj_get, obj_get_spec};
use crate::json_helpers::{FromJson, decode_response, decode_spec, error_of_body};
use crate::datetime::{datetime_of, parse_datetime};

verus! {

/// The service's response to adding a file: the URI it was stored at.
#[derive(Debug)]
pub struct FileAdded {
    pub result: String,
}

impl DeepView for FileAdded {
    type V = Seq<char>;

    open spec fn deep_view(&self) -> Seq<char> {
        self.result@
    }
}

impl FromJson for FileAdded {
    open spec fn from_json_spec(j: JsonValue) -> Option<Seq<char>> {
        match j {
            JsonValue::Obj(pairs) => match obj_get_spec(pairs@, "result"@) {
                Some(JsonValue::Str(s)) => Some(s@),
                _ => None,
            },
            _ => None,
        }
    }

    fn from_json(j: &JsonValue) -> (r: Option<Self>) {
        match j {
            JsonValue::Obj(pairs) => match obj_get(pairs, "result") {
                Some(v) => match v {
                    JsonValue::Str(s) => Some(FileAdded { result: s.clone() }),
                    _ => None,
                },
                None => None,
            },
            _ => None,
        }
    }
}

/// The service's response to deleting a file.
#[derive(Debug)]
pub struct FileDeleted {
    pub result: DeletedResult,
}

impl DeepView for FileDeleted {
    type V = u64;

    open spec fn deep_view(&self) -> u64 {
        self.result.deep_view()
    }
}

impl FromJson for FileDeleted {
    open spec fn from_json_spec(j: JsonValue) -> Option<u64> {
        match j {
            JsonValue::Obj(pairs) => match obj_get_spec(pairs@, "result"@) {
                Some(v) => DeletedResult::from_json_spec(v),
                None => None,
            },
            _ => None,
        }
    }

    fn from_json(j: &JsonValue) -> (r: Option<Self>) {
        match j {
            JsonValue::Obj(pairs) => match obj_get(pairs, "result") {
                Some(v) => match DeletedResult::from_json(v) {
                    Some(result) => Some(FileDeleted { result }),
                    None => None,
                },
                None => None,
            },
            _ => None,
        }
    }
}

/// The metadata of a fetched file, read from the response headers.
#[derive(Debug)]
pub struct FileMetadata {
    pub size: u64,
    pub last_modified: i64,
}

/// The timestamp used when the server does not report one.
pub const FALLBACK_LAST_MODIFIED: i64 = 1426320000;

/// A file stored under a data path.
pub struct DataFile {
    path: DataPath,
}

impl HasDataPath for DataFile {
    closed spec fn path_view(&self) -> DataPathView {
        self.path@
    }

    fn from_data_path(p: DataPath) -> (r: Self) {
        DataFile { path: p }
    }

    fn data_path(&self) -> (r: &DataPath) {
        &self.path
    }
}

impl DataFile {
    /// Parses a URI into a file address under `base_url`.
    pub fn new(base_url: &str, uri: &str) -> (r: DataFile)
        ensures
            r.path_view().path == strip_path(uri@),
            r.path_view().base_url == base_url@,
    {
        DataFile { path: DataPath::new(base_url, uri) }
    }

    /// The service URL this file is reached at.
    pub fn to_url(&self) -> (r: String)
        ensures
            r@ == self.path_view().base_url + "/v1/data/"@ + self.path_view().path,
    {
        self.path.to_url()
    }

    /// The canonical URI of this file.
    pub fn to_data_uri(&self) -> (r: String)
        ensures
            r@ == crate::data::data_scheme() + self.path_view().path,
    {
        self.path.to_data_uri()
    }

    /// The directory holding this file, `None` at the root boundary.
    pub fn parent(&self) -> (r: Option<DataDir>)
        ensures
            (match r {
                Some(d) => crate::data::parent_path(self.path_view().path) == Some(
                    d.path_view().path,
                ) && d.path_view().base_url == self.path_view().base_url,
                None => crate::data::parent_path(self.path_view().path) is None,
            }),
    {
        match self.path.parent() {
            Some(p) => Some(DataDir::from_data_path(p)),
            None => None,
        }
    }

    /// The file's own name, `None` for the empty path.
    pub fn basename(&self) -> (r: Option<String>)
        ensures
            (match r {
                Some(b) => crate::data::basename_path(self.path_view().path) == Some(b@),
                None => crate::data::basename_path(self.path_view().path) is None,
            }),
    {
        self.path.basename()
    }

    /// Decodes the response to writing this file.
    pub fn put_response(&self, status_ok: bool, res_json: &str) -> (r: Result<
        FileAdded,
        Error,
    >)
        ensures
            status_ok && decode_spec::<FileAdded>(res_json@) is Some ==> r is Ok,
            r matches Ok(t) ==> status_ok && decode_spec::<FileAdded>(res_json@) == Some(
                t.deep_view(),
            ),
            r matches Err(e) ==> e@ == error_of_body(res_json@),
            r is Err <==> !status_ok || decode_spec::<FileAdded>(res_json@) is None,
    {
        decode_response::<FileAdded>(status_ok, res_json)
    }

    /// Decodes the response to deleting this file.
    pub fn delete_response(&self, status_ok: bool, res_json: &str) -> (r: Result<
        FileDeleted,
        Error,
    >)
        ensures
            status_ok && decode_spec::<FileDeleted>(res_json@) is Some ==> r is Ok,
            r matches Ok(t) ==> status_ok && decode_spec::<FileDeleted>(res_json@) == Some(
                t.deep_view(),
            ),
            r matches Err(e) ==> e@ == error_of_body(res_json@),
            r is Err <==> !status_ok || decode_spec::<FileDeleted>(res_json@) is None,
    {
        decode_response::<FileDeleted>(status_ok, res_json)
    }

    /// Decides what fetching this file returned, from the transport's
    /// status and headers: the resource kind must be a file, the size and
    /// timestamp come from the headers, with fallbacks where absent.
    pub fn get_metadata(
        &self,
        status_ok: bool,
        status_message: &str,
        data_type: Option<&str>,
        content_length: Option<u64>,
        last_modified: Option<&str>,
    ) -> (r: Result<FileMetadata, Error>)
        ensures
            !status_ok ==> (r matches Err(e) && e@ == (ErrorView::ApiError {
                message: status_message@,
                stacktrace: None,
            })),
            status_ok && (data_type matches Some(dt) && dt@ != "file"@) ==> (r matches Err(
                e,
            ) && e@ == (ErrorView::UnexpectedDataType {
                expected: "file"@,
                actual: data_type->0@,
            })),
            status_ok && (match data_type {
                Some(dt) => dt@ == "file"@,
                None => true,
            }) ==> (r matches Ok(m) && m.size == (match content_length {
                Some(n) => n,
                None => 0,
            }) && m.last_modified == (match last_modified {
                Some(lm) => match datetime_of(lm@) {
                    Some(t) => t,
                    None => FALLBACK_LAST_MODIFIED,
                },
                None => FALLBACK_LAST_MODIFIED,
            })),
    {
        if !status_ok {
            return Err(
                Error::ApiError { message: status_message.to_owned(), stacktrace: None },
            );
        }
        match data_type {
            Some(dt) => {
                if !crate::json::str_eq(dt, "file") {
                    return Err(
                        Error::UnexpectedDataType {
                            expected: String::from_str("file"),
                            actual: dt.to_owned(),
                        },
                    );
                }
            },
            None => {},
        }
        let size: u64 = match content_length {
            Some(n) => n,
            None => 0,
        };
        let last = match last_modified {
            Some(lm) => match parse_datetime(lm) {
                Some(t) => t,
                None => FALLBACK_LAST_MODIFIED,
            },
            None => FALLBACK_LAST_MODIFIED,
        };
        Ok(FileMetadata { size, last_modified: last })
    }
}

} // verus!
