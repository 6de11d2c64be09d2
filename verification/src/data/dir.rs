//! Directories: their operations and the paginated listing protocol.
use vstd::prelude::*;
use crate::data::{
    DataPath, DataPathView, HasDataPath, DeletedResult, strip_path, parent_path,
    basename_path, data_scheme,
};
use crate::data::file::DataFile;
use crate::error::{Error, ErrorView};
use crate::json::{
    JsonValue, obj_get, obj_get_spec, parse_u64_spec, parse_u64_digits, json_escape,
    escape_json_string, str_eq,
};
use crate::json_helpers::{
    FromJson, opt_field, opt_field_spec, decode_response, decode_spec, error_of_body,
    decode_to_error,
};
use crate::datetime::{datetime_of, parse_datetime};

verus! {

/// An access-control list attached to a directory.
#[derive(Debug)]
pub struct DataAcl {
    pub read: Vec<String>,
}

impl DeepView for DataAcl {
    type V = Seq<Seq<char>>;

    open spec fn deep_view(&self) -> Seq<Seq<char>> {
        self.read.deep_view()
    }
}

impl FromJson for DataAcl {
    open spec fn from_json_spec(j: JsonValue) -> Option<Seq<Seq<char>>> {
        match j {
            JsonValue::Obj(pairs) => match obj_get_spec(pairs@, "read"@) {
                Some(v) => <Vec<String> as FromJson>::from_json_spec(v),
                None => None,
            },
            _ => None,
        }
    }

    fn from_json(j: &JsonValue) -> (r: Option<Self>) {
        match j {
            JsonValue::Obj(pairs) => match obj_get(pairs, "read") {
                Some(v) => match <Vec<String> as FromJson>::from_json(v) {
                    Some(read) => Some(DataAcl { read }),
                    None => None,
                },
                None => None,
            },
            _ => None,
        }
    }
}

/// Spec-level image of a [`FolderItem`].
#[verifier::ext_equal]
pub struct FolderItemView {
    pub name: Seq<char>,
    pub acl: Option<Seq<Seq<char>>>,
}

/// One sub-directory in a listing page.
#[derive(Debug)]
pub struct FolderItem {
    pub name: String,
    pub acl: Option<DataAcl>,
}

impl DeepView for FolderItem {
    type V = FolderItemView;

    open spec fn deep_view(&self) -> FolderItemView {
        FolderItemView { name: self.name@, acl: self.acl.deep_view() }
    }
}

impl FromJson for FolderItem {
    open spec fn from_json_spec(j: JsonValue) -> Option<FolderItemView> {
        match j {
            JsonValue::Obj(pairs) => match obj_get_spec(pairs@, "name"@) {
                Some(JsonValue::Str(nm)) => match opt_field_spec::<DataAcl>(
                    pairs@,
                    "acl"@,
                ) {
                    Some(acl) => Some(FolderItemView { name: nm@, acl }),
                    None => None,
                },
                _ => None,
            },
            _ => None,
        }
    }

    fn from_json(j: &JsonValue) -> (r: Option<Self>) {
        match j {
            JsonValue::Obj(pairs) => match obj_get(pairs, "name") {
                Some(v) => match v {
                    JsonValue::Str(nm) => match opt_field::<DataAcl>(pairs, "acl") {
                        Some(acl) => Some(FolderItem { name: nm.clone(), acl }),
                        None => None,
                    },
                    _ => None,
                },
                None => None,
            },
            _ => None,
        }
    }
}

/// Spec-level image of a [`FileItem`].
#[verifier::ext_equal]
pub struct FileItemView {
    pub filename: Seq<char>,
    pub size: u64,
    pub last_modified: i64,
}

/// One file in a listing page: its name, size in bytes, and modification
/// time as a Unix timestamp.
#[derive(Debug)]
pub struct FileItem {
    pub filename: String,
    pub size: u64,
    pub last_modified: i64,
}

impl DeepView for FileItem {
    type V = FileItemView;

    open spec fn deep_view(&self) -> FileItemView {
        FileItemView {
            filename: self.filename@,
            size: self.size,
            last_modified: self.last_modified,
        }
    }
}

impl FromJson for FileItem {
    open spec fn from_json_spec(j: JsonValue) -> Option<FileItemView> {
        match j {
            JsonValue::Obj(pairs) => match (
                obj_get_spec(pairs@, "filename"@),
                obj_get_spec(pairs@, "size"@),
                obj_get_spec(pairs@, "last_modified"@),
            ) {
                (
                    Some(JsonValue::Str(f)),
                    Some(JsonValue::Num(n)),
                    Some(JsonValue::Str(lm)),
                ) => match (parse_u64_spec(n@), datetime_of(lm@)) {
                    (Some(size), Some(t)) => Some(
                        FileItemView { filename: f@, size, last_modified: t },
                    ),
                    _ => None,
                },
                _ => None,
            },
            _ => None,
        }
    }

    fn from_json(j: &JsonValue) -> (r: Option<Self>) {
        match j {
            JsonValue::Obj(pairs) => {
                let filename = match obj_get(pairs, "filename") {
                    Some(v) => match v {
                        JsonValue::Str(f) => f.clone(),
                        _ => {
                            return None;
                        },
                    },
                    None => {
                        return None;
                    },
                };
                let size = match obj_get(pairs, "size") {
                    Some(v) => match v {
                        JsonValue::Num(n) => match parse_u64_digits(n.as_str()) {
                            Some(size) => size,
                            None => {
                                return None;
                            },
                        },
                        _ => {
                            return None;
                        },
                    },
                    None => {
                        return None;
                    },
                };
                match obj_get(pairs, "last_modified") {
                    Some(v) => match v {
                        JsonValue::Str(lm) => match parse_datetime(lm.as_str()) {
                            Some(t) => Some(
                                FileItem { filename, size, last_modified: t },
                            ),
                            None => None,
                        },
                        _ => None,
                    },
                    None => None,
                }
            },
            _ => None,
        }
    }
}

/// Spec-level image of a [`DirectoryShow`].
#[verifier::ext_equal]
pub struct DirectoryShowView {
    pub acl: Option<Seq<Seq<char>>>,
    pub folders: Option<Seq<FolderItemView>>,
    pub files: Option<Seq<FileItemView>>,
    pub marker: Option<Seq<char>>,
}

/// One page of a directory listing, as the server reports it.  A missing
/// `folders` or `files` field means empty, not an error.
#[derive(Debug)]
pub struct DirectoryShow {
    pub acl: Option<DataAcl>,
    pub folders: Option<Vec<FolderItem>>,
    pub files: Option<Vec<FileItem>>,
    pub marker: Option<String>,
}

impl DeepView for DirectoryShow {
    type V = DirectoryShowView;

    open spec fn deep_view(&self) -> DirectoryShowView {
        DirectoryShowView {
            acl: self.acl.deep_view(),
            folders: self.folders.deep_view(),
            files: self.files.deep_view(),
            marker: self.marker.deep_view(),
        }
    }
}

impl FromJson for DirectoryShow {
    open spec fn from_json_spec(j: JsonValue) -> Option<DirectoryShowView> {
        match j {
            JsonValue::Obj(pairs) => match (
                opt_field_spec::<DataAcl>(pairs@, "acl"@),
                opt_field_spec::<Vec<FolderItem>>(pairs@, "folders"@),
                opt_field_spec::<Vec<FileItem>>(pairs@, "files"@),
                opt_field_spec::<String>(pairs@, "marker"@),
            ) {
                (Some(acl), Some(folders), Some(files), Some(marker)) => Some(
                    DirectoryShowView { acl, folders, files, marker },
                ),
                _ => None,
            },
            _ => None,
        }
    }

    fn from_json(j: &JsonValue) -> (r: Option<Self>) {
        match j {
            JsonValue::Obj(pairs) => {
                let acl = match opt_field::<DataAcl>(pairs, "acl") {
                    Some(a) => a,
                    None => {
                        return None;
                    },
                };
                let folders = match opt_field::<Vec<FolderItem>>(pairs, "folders") {
                    Some(f) => f,
                    None => {
                        return None;
                    },
                };
                let files = match opt_field::<Vec<FileItem>>(pairs, "files") {
                    Some(f) => f,
                    None => {
                        return None;
                    },
                };
                let marker = match opt_field::<String>(pairs, "marker") {
                    Some(m) => m,
                    None => {
                        return None;
                    },
                };
                Some(DirectoryShow { acl, folders, files, marker })
            },
            _ => None,
        }
    }
}

/// The service's response to updating a directory.
#[derive(Debug)]
pub struct DirectoryUpdated {
    pub acl: Option<DataAcl>,
}

impl DeepView for DirectoryUpdated {
    type V = Option<Seq<Seq<char>>>;

    open spec fn deep_view(&self) -> Option<Seq<Seq<char>>> {
        self.acl.deep_view()
    }
}

impl FromJson for DirectoryUpdated {
    open spec fn from_json_spec(j: JsonValue) -> Option<Option<Seq<Seq<char>>>> {
        match j {
            JsonValue::Obj(pairs) => opt_field_spec::<DataAcl>(pairs@, "acl"@),
            _ => None,
        }
    }

    fn from_json(j: &JsonValue) -> (r: Option<Self>) {
        match j {
            JsonValue::Obj(pairs) => match opt_field::<DataAcl>(pairs, "acl") {
                Some(acl) => Some(DirectoryUpdated { acl }),
                None => None,
            },
            _ => None,
        }
    }
}

/// The service's response to deleting a directory.
#[derive(Debug)]
pub struct DirectoryDeleted {
    pub result: DeletedResult,
}

impl DeepView for DirectoryDeleted {
    type V = u64;

    open spec fn deep_view(&self) -> u64 {
        self.result.deep_view()
    }
}

impl FromJson for DirectoryDeleted {
    open spec fn from_json_spec(j: JsonValue) -> Option<u64> {
        match j {
            JsonValue::Obj(pairs) => match obj_get_spec(pairs@, "result"@) {
                Some(v) => DeletedResult::from_json_spec(v),
                None => None,
            },
            _ => None,
        }
    }

    fn from_json(j: &JsonValue) -> (r: Option<Self>) {
        match j {
            JsonValue::Obj(pairs) => match obj_get(pairs, "result") {
                Some(v) => match DeletedResult::from_json(v) {
                    Some(result) => Some(DirectoryDeleted { result }),
                    None => None,
                },
                None => None,
            },
            _ => None,
        }
    }
}

/// A directory stored under a data path.
pub struct DataDir {
    path: DataPath,
}

impl HasDataPath for DataDir {
    closed spec fn path_view(&self) -> DataPathView {
        self.path@
    }

    fn from_data_path(p: DataPath) -> (r: Self) {
        DataDir { path: p }
    }

    fn data_path(&self) -> (r: &DataPath) {
        &self.path
    }
}

impl Clone for DataDir {
    fn clone(&self) -> (r: Self)
        ensures
            r.path_view() == self.path_view(),
    {
        DataDir { path: self.path.clone() }
    }
}

impl DataDir {
    /// Parses a URI into a directory address under `base_url`.
    pub fn new(base_url: &str, uri: &str) -> (r: DataDir)
        ensures
            r.path_view().path == strip_path(uri@),
            r.path_view().base_url == base_url@,
    {
        DataDir { path: DataPath::new(base_url, uri) }
    }

    /// The service URL this directory is reached at.
    pub fn to_url(&self) -> (r: String)
        ensures
            r@ == self.path_view().base_url + "/v1/data/"@ + self.path_view().path,
    {
        self.path.to_url()
    }

    /// The canonical URI of this directory.
    pub fn to_data_uri(&self) -> (r: String)
        ensures
            r@ == data_scheme() + self.path_view().path,
    {
        self.path.to_data_uri()
    }

    /// The directory holding this one, `None` at the root boundary.
    pub fn parent(&self) -> (r: Option<DataDir>)
        ensures
            (match r {
                Some(d) => parent_path(self.path_view().path) == Some(d.path_view().path)
                    && d.path_view().base_url == self.path_view().base_url,
                None => parent_path(self.path_view().path) is None,
            }),
    {
        match self.path.parent() {
            Some(p) => Some(DataDir { path: p }),
            None => None,
        }
    }

    /// The directory's own name, `None` for the empty path.
    pub fn basename(&self) -> (r: Option<String>)
        ensures
            (match r {
                Some(b) => basename_path(self.path_view().path) == Some(b@),
                None => basename_path(self.path_view().path) is None,
            }),
    {
        self.path.basename()
    }

    /// The child named `filename`, addressed as a directory or as a file;
    /// the name is appended verbatim.
    pub fn child<T: HasDataPath>(&self, filename: &str) -> (r: T)
        ensures
            r.path_view().path == self.path_view().path + seq!['/'] + filename@,
            r.path_view().base_url == self.path_view().base_url,
    {
        T::from_data_path(self.path.child_unchecked(filename))
    }

    /// A fresh traversal of this directory's entries, starting before the
    /// first page.
    pub fn list(&self) -> (r: DirectoryListing)
        ensures
            r@ == (ListingView {
                dir: self.path_view(),
                pending_dirs: Seq::empty(),
                pending_files: Seq::empty(),
                marker: None,
                query_count: 0,
            }),
            r.acl_view() is None,
    {
        DirectoryListing::new(self)
    }

    /// The request that creates this directory: a POST to the parent's URL
    /// whose body names the new directory with an empty read ACL.  A path
    /// without both a parent and a basename cannot be created.
    pub fn create_request(&self) -> (r: Result<(String, String), Error>)
        ensures
            parent_path(self.path_view().path) is Some && basename_path(
                self.path_view().path,
            ) is Some ==> (r matches Ok(req) && req.0@ == self.path_view().base_url
                + "/v1/data/"@ + parent_path(self.path_view().path)->0 && req.1@
                == folder_create_body(basename_path(self.path_view().path)->0)),
            parent_path(self.path_view().path) is None || basename_path(
                self.path_view().path,
            ) is None ==> (r matches Err(e) && e@ == (ErrorView::InvalidPath {
                path: self.path_view().path,
            })),
    {
        let parent = match self.parent() {
            Some(p) => p,
            None => {
                return Err(Error::InvalidPath { path: self.path.path().to_owned() });
            },
        };
        let name = match self.basename() {
            Some(b) => b,
            None => {
                return Err(Error::InvalidPath { path: self.path.path().to_owned() });
            },
        };
        let url = parent.to_url();
        let body = String::from_str("{\"name\":\"").concat(
            escape_json_string(name.as_str()).as_str(),
        ).concat("\",\"acl\":{\"read\":[]}}");
        Ok((url, body))
    }

    /// Decodes the response to creating this directory.
    pub fn create_response(&self, status_ok: bool, res_json: &str) -> (r: Result<
        (),
        Error,
    >)
        ensures
            status_ok <==> r is Ok,
            r matches Err(e) ==> e@ == error_of_body(res_json@),
    {
        if status_ok {
            Ok(())
        } else {
            Err(decode_to_error(res_json))
        }
    }

    /// The URL that deletes this directory, with its `force` query flag.
    pub fn delete_url(&self, force: bool) -> (r: String)
        ensures
            force ==> r@ == self.path_view().base_url + "/v1/data/"@ + self.path_view().path
                + "?force=true"@,
            !force ==> r@ == self.path_view().base_url + "/v1/data/"@
                + self.path_view().path + "?force=false"@,
    {
        if force {
            self.to_url().concat("?force=true")
        } else {
            self.to_url().concat("?force=false")
        }
    }

    /// Decodes the response to deleting this directory.
    pub fn delete_response(&self, status_ok: bool, res_json: &str) -> (r: Result<
        DirectoryDeleted,
        Error,
    >)
        ensures
            status_ok && decode_spec::<DirectoryDeleted>(res_json@) is Some ==> r is Ok,
            r matches Ok(t) ==> status_ok && decode_spec::<DirectoryDeleted>(res_json@)
                == Some(t.deep_view()),
            r matches Err(e) ==> e@ == error_of_body(res_json@),
            r is Err <==> !status_ok || decode_spec::<DirectoryDeleted>(res_json@) is None,
    {
        decode_response::<DirectoryDeleted>(status_ok, res_json)
    }

    /// The URL that a file named `filename` is uploaded to under this
    /// directory.
    pub fn put_file_url(&self, filename: &str) -> (r: String)
        ensures
            r@ == self.path_view().base_url + "/v1/data/"@ + self.path_view().path
                + seq!['/'] + filename@,
    {
        proof {
            reveal_strlit("/");
            assert("/"@ =~= seq!['/']);
        }
        self.to_url().concat("/").concat(filename)
    }

    /// Decodes the response to uploading a file into this directory.
    pub fn put_file_response(&self, status_ok: bool, res_json: &str) -> (r: Result<
        crate::data::file::FileAdded,
        Error,
    >)
        ensures
            status_ok && decode_spec::<crate::data::file::FileAdded>(res_json@) is Some
                ==> r is Ok,
            r matches Ok(t) ==> status_ok && decode_spec::<crate::data::file::FileAdded>(
                res_json@,
            ) == Some(t.deep_view()),
            r matches Err(e) ==> e@ == error_of_body(res_json@),
            r is Err <==> !status_ok || decode_spec::<crate::data::file::FileAdded>(
                res_json@,
            ) is None,
    {
        decode_response::<crate::data::file::FileAdded>(status_ok, res_json)
    }
}

/// The body of the request that creates a directory named `name`.
pub open spec fn folder_create_body(name: Seq<char>) -> Seq<char> {
    "{\"name\":\""@ + json_escape(name) + "\",\"acl\":{\"read\":[]}}"@
}

/// One entry of a directory listing that is a file: its metadata, and the
/// file's own address.
pub struct DataFileEntry {
    pub size: u64,
    pub last_modified: i64,
    pub file: DataFile,
}

impl DataFileEntry {
    /// The address of the listed file.
    pub open spec fn file_view(&self) -> DataPathView {
        self.file.path_view()
    }
}

/// One entry of a directory listing.
pub enum DirEntry {
    File(DataFileEntry),
    Dir(DataDir),
}

/// What a traversal asks of its caller next.
pub enum ListStep {
    /// The next entry of the directory.
    Entry(DirEntry),
    /// A page must be fetched: issue a GET on this URL and feed the
    /// response to [`DirectoryListing::feed_page`].
    Fetch(String),
    /// The sequence is over.
    End,
}

/// Spec-level image of a [`DirectoryListing`].
#[verifier::ext_equal]
pub struct ListingView {
    pub dir: DataPathView,
    pub pending_dirs: Seq<FolderItemView>,
    pub pending_files: Seq<FileItemView>,
    pub marker: Option<Seq<char>>,
    pub query_count: nat,
}

/// The URL of the next page of a listing: the directory's own URL, with
/// the continuation marker appended once one is known.
pub open spec fn page_url_view(l: ListingView) -> Seq<char> {
    let base = l.dir.base_url + "/v1/data/"@ + l.dir.path;
    match l.marker {
        Some(m) => base + "?marker="@ + m,
        None => base,
    }
}

/// The state after a listing ends on a failed or rejected page: nothing
/// pending, no marker, the fetch counted.
pub open spec fn finished_after(pre: ListingView) -> ListingView {
    ListingView {
        dir: pre.dir,
        pending_dirs: Seq::empty(),
        pending_files: Seq::empty(),
        marker: None,
        query_count: pre.query_count + 1,
    }
}

/// The first page of a listing must describe a directory: a success
/// response on page one that reports another resource kind rejects the
/// traversal.  Later pages are not re-checked.
pub open spec fn kind_mismatch(
    pre: ListingView,
    status_ok: bool,
    data_type: Option<Seq<char>>,
) -> bool {
    status_ok && pre.query_count == 0 && (match data_type {
        Some(dt) => dt != "directory"@,
        None => false,
    })
}

/// A lazy traversal of a directory's entries across marker-delimited
/// server pages.
///
/// Within one page, directories come before files, each group in server
/// order.  The traversal suspends exactly at the page boundary: the caller
/// performs the fetch that [`DirectoryListing::next_step`] asks for and
/// hands the response to [`DirectoryListing::feed_page`].  It restarts
/// only from the beginning: a fresh value from [`DataDir::list`].
pub struct DirectoryListing {
    /// An ACL a caller may attach to the traversal; the page protocol
    /// itself never fills it.
    pub acl: Option<DataAcl>,
    dir: DataDir,
    folders: Vec<FolderItem>,
    didx: usize,
    files: Vec<FileItem>,
    fidx: usize,
    marker: Option<String>,
    query_count: u64,
}

impl DirectoryListing {
    /// The ACL attached to this traversal, if any.
    pub closed spec fn acl_view(&self) -> Option<Seq<Seq<char>>> {
        self.acl.deep_view()
    }
}

impl View for DirectoryListing {
    type V = ListingView;

    closed spec fn view(&self) -> ListingView {
        ListingView {
            dir: self.dir.path_view(),
            pending_dirs: if self.didx as int <= self.folders@.len() {
                self.folders.deep_view().skip(self.didx as int)
            } else {
                Seq::empty()
            },
            pending_files: if self.fidx as int <= self.files@.len() {
                self.files.deep_view().skip(self.fidx as int)
            } else {
                Seq::empty()
            },
            marker: self.marker.deep_view(),
            query_count: self.query_count as nat,
        }
    }
}

impl DirectoryListing {
    /// A fresh traversal of `dir`, starting before the first page.
    pub fn new(dir: &DataDir) -> (r: DirectoryListing)
        ensures
            r@ == (ListingView {
                dir: dir.path_view(),
                pending_dirs: Seq::empty(),
                pending_files: Seq::empty(),
                marker: None,
                query_count: 0,
            }),
            r.acl_view() is None,
    {
        let r = DirectoryListing {
            acl: None,
            dir: dir.clone(),
            folders: Vec::new(),
            didx: 0,
            files: Vec::new(),
            fidx: 0,
            marker: None,
            query_count: 0,
        };
        proof {
            assert(r@ =~= (ListingView {
                dir: dir.path_view(),
                pending_dirs: Seq::empty(),
                pending_files: Seq::empty(),
                marker: None,
                query_count: 0,
            }));
        }
        r
    }

    /// How many page fetches this traversal has consumed so far.
    pub fn pages_fetched(&self) -> (r: u64)
        ensures
            r == self@.query_count,
    {
        self.query_count
    }

    /// Produces the next step of the traversal: the next buffered entry
    /// (directories before files, in server order), else the request for
    /// the next page when one is owed (no page yet, or a marker pending),
    /// else the end of the sequence.
    pub fn next_step(&mut self) -> (r: ListStep)
        ensures
            old(self)@.pending_dirs.len() > 0 ==> ({
                &&& final(self)@ == (ListingView {
                    pending_dirs: old(self)@.pending_dirs.drop_first(),
                    ..old(self)@
                })
                &&& r matches ListStep::Entry(DirEntry::Dir(d)) && d.path_view() == (
                DataPathView {
                    path: old(self)@.dir.path + seq!['/'] + old(
                        self,
                    )@.pending_dirs[0].name,
                    base_url: old(self)@.dir.base_url,
                })
            }),
            old(self)@.pending_dirs.len() == 0 && old(self)@.pending_files.len() > 0 ==> ({
                &&& final(self)@ == (ListingView {
                    pending_files: old(self)@.pending_files.drop_first(),
                    ..old(self)@
                })
                &&& r matches ListStep::Entry(DirEntry::File(f)) && f.size == old(
                    self,
                )@.pending_files[0].size && f.last_modified == old(
                    self,
                )@.pending_files[0].last_modified && f.file_view() == (DataPathView {
                    path: old(self)@.dir.path + seq!['/'] + old(
                        self,
                    )@.pending_files[0].filename,
                    base_url: old(self)@.dir.base_url,
                })
            }),
            old(self)@.pending_dirs.len() == 0 && old(self)@.pending_files.len() == 0 && (
            old(self)@.query_count == 0 || old(self)@.marker is Some) ==> ({
                &&& final(self)@ == old(self)@
                &&& r matches ListStep::Fetch(url) && url@ == page_url_view(old(self)@)
            }),
            old(self)@.pending_dirs.len() == 0 && old(self)@.pending_files.len() == 0
                && !(old(self)@.query_count == 0 || old(self)@.marker is Some) ==> ({
                &&& final(self)@ == old(self)@
                &&& r is End
            }),
    {
        if self.didx < self.folders.len() {
            let d: DataDir = self.dir.child(self.folders[self.didx].name.as_str());
            self.didx = self.didx + 1;
            proof {
                assert(self@ =~= (ListingView {
                    pending_dirs: old(self)@.pending_dirs.drop_first(),
                    ..old(self)@
                }));
            }
            ListStep::Entry(DirEntry::Dir(d))
        } else if self.fidx < self.files.len() {
            let file: DataFile = self.dir.child(self.files[self.fidx].filename.as_str());
            let entry = DataFileEntry {
                size: self.files[self.fidx].size,
                last_modified: self.files[self.fidx].last_modified,
                file,
            };
            self.fidx = self.fidx + 1;
            proof {
                assert(self@ =~= (ListingView {
                    pending_files: old(self)@.pending_files.drop_first(),
                    ..old(self)@
                }));
            }
            ListStep::Entry(DirEntry::File(entry))
        } else if self.query_count == 0 || self.marker.is_some() {
            let url = match &self.marker {
                Some(m) => self.dir.to_url().concat("?marker=").concat(m.as_str()),
                None => self.dir.to_url(),
            };
            ListStep::Fetch(url)
        } else {
            ListStep::End
        }
    }

    /// Feeds the response to the page request back into the traversal.
    ///
    /// On the first page only, a success response whose resource kind is
    /// not `directory` rejects the whole listing before any entry.  A
    /// decodable page replaces both queues wholesale and takes over the
    /// continuation marker; any other failure ends the traversal with the
    /// error read of the body.
    pub fn feed_page(&mut self, status_ok: bool, data_type: Option<&str>, body: &str) -> (r:
        Result<(), Error>)
        requires
            old(self)@.query_count < u64::MAX,
        ensures
            kind_mismatch(old(self)@, status_ok, data_type.deep_view()) ==> (r matches Err(
                e,
            ) && e@ == (ErrorView::UnexpectedDataType {
                expected: "directory"@,
                actual: data_type->0@,
            }) && final(self)@ == finished_after(old(self)@)),
            !kind_mismatch(old(self)@, status_ok, data_type.deep_view()) && status_ok
                && decode_spec::<DirectoryShow>(body@) is Some ==> ({
                let page = decode_spec::<DirectoryShow>(body@)->0;
                &&& r is Ok
                &&& final(self)@ == (ListingView {
                    dir: old(self)@.dir,
                    pending_dirs: (match page.folders {
                        Some(f) => f,
                        None => Seq::empty(),
                    }),
                    pending_files: (match page.files {
                        Some(f) => f,
                        None => Seq::empty(),
                    }),
                    marker: page.marker,
                    query_count: old(self)@.query_count + 1,
                })
            }),
            !kind_mismatch(old(self)@, status_ok, data_type.deep_view()) && !(status_ok
                && decode_spec::<DirectoryShow>(body@) is Some) ==> (r matches Err(e) && e@
                == error_of_body(body@) && final(self)@ == finished_after(old(self)@)),
    {
        if status_ok && self.query_count == 0 {
            match data_type {
                Some(dt) => {
                    if !str_eq(dt, "directory") {
                        let e = Error::UnexpectedDataType {
                            expected: String::from_str("directory"),
                            actual: dt.to_owned(),
                        };
                        self.folders = Vec::new();
                        self.didx = 0;
                        self.files = Vec::new();
                        self.fidx = 0;
                        self.marker = None;
                        self.query_count = self.query_count + 1;
                        proof {
                            assert(self@ =~= finished_after(old(self)@));
                        }
                        return Err(e);
                    }
                },
                None => {},
            }
        }
        match decode_response::<DirectoryShow>(status_ok, body) {
            Ok(page) => {
                self.folders = match page.folders {
                    Some(f) => f,
                    None => Vec::new(),
                };
                self.didx = 0;
                self.files = match page.files {
                    Some(f) => f,
                    None => Vec::new(),
                };
                self.fidx = 0;
                self.marker = page.marker;
                self.query_count = self.query_count + 1;
                proof {
                    let spec_page = decode_spec::<DirectoryShow>(body@)->0;
                    assert(self@ =~= (ListingView {
                        dir: old(self)@.dir,
                        pending_dirs: (match spec_page.folders {
                            Some(f) => f,
                            None => Seq::empty(),
                        }),
                        pending_files: (match spec_page.files {
                            Some(f) => f,
                            None => Seq::empty(),
                        }),
                        marker: spec_page.marker,
                        query_count: old(self)@.query_count + 1,
                    }));
                }
                Ok(())
            },
            Err(e) => {
                self.folders = Vec::new();
                self.didx = 0;
                self.files = Vec::new();
                self.fidx = 0;
                self.marker = None;
                self.query_count = self.query_count + 1;
                proof {
                    assert(self@ =~= finished_after(old(self)@));
                }
                Err(e)
            },
        }
    }
}

} // verus!
