//! Key→path mapping of the on-disk metadata cache.
//!
//! The engine owns only the mapping from a bucket and a content id to the
//! path of its cache entry; creating the directory structure and moving
//! bytes in and out of the files is the cache store collaborator's
//! plumbing around it.

use vstd::prelude::*;
use vstd::string::{StrSliceExecFns, StringExecFns};

verus! {

/// The location of one cached value inside the cache directory.
pub struct CacheEntry {
    path: String,
}

impl View for CacheEntry {
    type V = Seq<char>;

    closed spec fn view(&self) -> Seq<char> {
        self.path@
    }
}

impl CacheEntry {
    /// The entry for `id` in `bucket` under the cache root `base`:
    /// `base/bucket/id`.
    pub fn new(base: &str, bucket: &str, id: &str) -> (r: Self)
        ensures
            r@ == base@ + "/"@ + bucket@ + "/"@ + id@,
    {
        let mut p = base.to_owned();
        p.append("/");
        p.append(bucket);
        p.append("/");
        p.append(id);
        proof {
            assert(p@ =~= base@ + "/"@ + bucket@ + "/"@ + id@);
        }
        CacheEntry { path: p }
    }

    /// The path of this entry.
    pub fn path(&self) -> (r: &str)
        ensures
            r@ == self@,
    {
        self.path.as_str()
    }
}

/// The root of the on-disk metadata cache.
pub struct WebCache {
    base: String,
}

impl View for WebCache {
    type V = Seq<char>;

    closed spec fn view(&self) -> Seq<char> {
        self.base@
    }
}

impl WebCache {
    /// A cache rooted at `base`. Creating the directory structure on disk
    /// is left to the surrounding application.
    pub fn new(base: String) -> (r: WebCache)
        ensures
            r@ == base@,
    {
        WebCache { base }
    }

    /// The cache entry holding the album with this id.
    pub fn album(&self, id: &str) -> (r: CacheEntry)
        ensures
            r@ == self@ + "/"@ + "album"@ + "/"@ + id@,
    {
        CacheEntry::new(self.base.as_str(), "album", id)
    }
}

} // verus!
