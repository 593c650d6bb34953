//! The records that the pipeline assembles and caches.
use vstd::prelude::*;

verus! {

/// A subject classification: a Dewey code and the subject headings listed beside it.
#[derive(Debug)]
pub struct Classification {
    pub dewey_code: String,
    pub subject_tags: Vec<String>,
}

/// The resolved record of one book, keyed by its ISBN.
#[derive(Debug)]
pub struct CanonicalRecord {
    pub isbn: String,
    pub title: String,
    pub author: String,
    pub image: Option<String>,
    pub classification: Option<Classification>,
    pub subjects: Vec<String>,
}

/// The fields that a basic book-information provider yields for one ISBN.
#[derive(Debug)]
pub struct BasicBookInfo {
    pub title: String,
    pub author: String,
    pub image: Option<String>,
    pub subjects: Vec<String>,
    /// The control number under which the library catalog files the book, if known.
    pub lccn: Option<String>,
}

/// The characters of each string of a list.
pub open spec fn chars_of(v: Seq<String>) -> Seq<Seq<char>> {
    v.map_values(|s: String| s@)
}

impl CanonicalRecord {
    /// A record may be cached only when it has a title and an author.
    pub open spec fn cacheable(&self) -> bool {
        self.title@.len() > 0 && self.author@.len() > 0
    }
}

} // verus!
