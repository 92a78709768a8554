//! Bookmarks: named pages of documents, kept per file.
use vstd::prelude::*;
use twox_hash::XxHash64;

verus! {

#[verifier::external_type_specification]
#[verifier::external_body]
pub struct ExXxHash64(XxHash64);

/// A named page.
#[derive(Debug, Clone)]
pub struct Bookmark {
    pub page: usize,
    pub name: String,
}

/// The bookmarks of one file, with a fingerprint of the file to notice when it changes.
pub struct BookmarkSet {
    pub marks: Vec<Bookmark>,
    pub file_hash: XxHash64,
    pub path: String,
}

/// Requests about bookmarks.
#[derive(Debug, Clone)]
pub enum BookmarkMessage {
    CreateBookmark { path: String, name: String, page: usize },
    DeleteBookmark { path: String, name: String, page: usize },
    GoTo { path: String, page: usize },
    /// No request.
    NoRequest,
}

/// All bookmark sets.
pub struct BookmarkStore {
    pub sets: Vec<BookmarkSet>,
}

impl BookmarkStore {
    /// An empty store.
    pub fn new() -> (r: Self)
        ensures
            r.sets@.len() == 0,
    {
        BookmarkStore { sets: Vec::new() }
    }
}

impl Default for BookmarkStore {
    fn default() -> (r: Self)
        ensures
            r.sets@.len() == 0,
    {
        BookmarkStore::new()
    }
}

impl Default for BookmarkMessage {
    fn default() -> (r: Self)
        ensures
            r is NoRequest,
    {
        BookmarkMessage::NoRequest
    }
}

} // verus!
