//! Client-side core for a remote algorithm-execution and hierarchical
//! data-storage service.
//!
//! The crate models the service's identifiers and wire protocol: data
//! paths and their URLs, algorithm version selectors, the uniform
//! response-decoding policy, and the paginated directory-listing
//! traversal.  The HTTP transport itself is a collaborator that callers
//! supply; every operation here is a pure step from plain values to plain
//! values.
use vstd::prelude::*;

pub mod algorithm;
pub mod data;
pub mod datetime;
pub mod error;
pub mod json;
pub mod json_helpers;

use crate::algorithm::{Algorithm, Version};
use crate::data::DataPath;
use crate::data::dir::DataDir;
use crate::data::file::DataFile;
use crate::data::{HasDataPath, strip_path};

verus! {

/// Default service endpoint used when no alternate base URL is given.
pub fn default_base_url() -> (r: String)
    ensures
        r@ == "https://api.algorithmia.com"@,
{
    String::from_str("https://api.algorithmia.com")
}

/// Spec-level image of an [`Algorithmia`] client.
#[verifier::ext_equal]
pub struct AlgorithmiaView {
    pub base_url: Seq<char>,
    pub api_key: Seq<char>,
}

/// The top-level client: the service base URL and the caller's API key,
/// resolved once at construction.  Endpoints made from one client share
/// both.
pub struct Algorithmia {
    base_url: String,
    api_key: String,
}

impl View for Algorithmia {
    type V = AlgorithmiaView;

    closed spec fn view(&self) -> AlgorithmiaView {
        AlgorithmiaView { base_url: self.base_url@, api_key: self.api_key@ }
    }
}

impl Clone for Algorithmia {
    fn clone(&self) -> (r: Self)
        ensures
            r@ == self@,
    {
        Algorithmia { base_url: self.base_url.clone(), api_key: self.api_key.clone() }
    }
}

impl Algorithmia {
    /// A client against the default API server.
    pub fn client(api_key: &str) -> (r: Algorithmia)
        ensures
            r@.base_url == "https://api.algorithmia.com"@,
            r@.api_key == api_key@,
    {
        Algorithmia { base_url: default_base_url(), api_key: api_key.to_owned() }
    }

    /// A client against an alternate API server.
    pub fn alt_client(base_url: &str, api_key: &str) -> (r: Algorithmia)
        ensures
            r@.base_url == base_url@,
            r@.api_key == api_key@,
    {
        Algorithmia { base_url: base_url.to_owned(), api_key: api_key.to_owned() }
    }

    /// The API key this client was built with, for the transport's use.
    pub fn api_key(&self) -> (r: &str)
        ensures
            r@ == self@.api_key,
    {
        self.api_key.as_str()
    }

    /// The base URL this client was built with.
    pub fn base_url(&self) -> (r: &str)
        ensures
            r@ == self@.base_url,
    {
        self.base_url.as_str()
    }

    /// An algorithm endpoint of this client.
    pub fn algo(&self, user: &str, repo: &str, version: Version) -> (r: Algorithm)
        ensures
            r.user@ == user@,
            r.repo@ == repo@,
            r.version@ == version@,
    {
        Algorithm { user: user.to_owned(), repo: repo.to_owned(), version }
    }

    /// A directory endpoint of this client.
    pub fn dir(&self, path: &str) -> (r: DataDir)
        ensures
            r.path_view().path == strip_path(path@),
            r.path_view().base_url == self@.base_url,
    {
        DataDir::new(self.base_url.as_str(), path)
    }

    /// A file endpoint of this client.
    pub fn file(&self, path: &str) -> (r: DataFile)
        ensures
            r.path_view().path == strip_path(path@),
            r.path_view().base_url == self@.base_url,
    {
        DataFile::new(self.base_url.as_str(), path)
    }

    /// A data endpoint of this client, for a URI not yet known to name a
    /// directory or a file.
    pub fn data(&self, path: &str) -> (r: DataPath)
        ensures
            r@.path == strip_path(path@),
            r@.base_url == self@.base_url,
    {
        DataPath::new(self.base_url.as_str(), path)
    }
}

} // verus!
