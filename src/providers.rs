//! Field projection of the basic book-information providers' payloads, and the subject
//! enrichment policy of the library catalog.
use vstd::prelude::*;

use crate::image::{choose_image, chosen_image, secure_url, secured};
use crate::normalize::{author_line, author_line_of};
use crate::record::{chars_of, BasicBookInfo};
use crate::text::opt_chars;

verus! {

/// One volume of a volume search, with the fields the projection reads.
#[derive(Debug)]
pub struct VolumeInfo {
    pub title: String,
    pub authors: Vec<String>,
    pub preview_link: Option<String>,
    pub thumbnail: Option<String>,
    pub categories: Vec<String>,
}

/// The answer of a volume search by ISBN.
#[derive(Debug)]
pub struct VolumeSearch {
    pub total_items: u64,
    pub items: Vec<VolumeInfo>,
}

/// One entry of a book-data lookup by ISBN in the open library catalog.
#[derive(Debug)]
pub struct LibraryEntry {
    pub title: String,
    pub authors: Vec<String>,
    pub cover_large: Option<String>,
    pub cover_medium: Option<String>,
    pub lccn: Vec<String>,
    pub subjects: Vec<String>,
}

/// The answer of a subject lookup by control number.
#[derive(Debug)]
pub struct SubjectLookup {
    /// How many catalog records the lookup found.
    pub hits: u64,
    /// The subject list of each record returned, in the catalog's order.
    pub results: Vec<Vec<String>>,
}

/// A volume search found something usable.
pub open spec fn volume_found(s: VolumeSearch) -> bool {
    s.total_items > 0 && s.items.len() > 0
}

/// The book information that a volume search yields: the first volume's fields, normalized.
pub open spec fn volume_projection(v: VolumeInfo, b: BasicBookInfo) -> bool {
    &&& b.title@ == v.title@
    &&& b.author@ == author_line(chars_of(v.authors@))
    &&& opt_chars(b.image) == chosen_image(opt_chars(v.preview_link), opt_chars(v.thumbnail))
    &&& b.subjects@ == v.categories@
    &&& b.lccn is None
}

/// Turns a volume search into book information; nothing where it reports no result.
pub fn project_volume_search(search: VolumeSearch) -> (r: Option<BasicBookInfo>)
    ensures
        r is Some <==> volume_found(search),
        r matches Some(b) ==> volume_projection(search.items[0], b),
{
    if search.total_items == 0 || search.items.len() == 0 {
        return None;
    }
    let mut items = search.items;
    let first = items.remove(0);
    let author = author_line_of(&first.authors);
    let image = choose_image(&first.preview_link, &first.thumbnail);
    Some(BasicBookInfo { title: first.title, author, image, subjects: first.categories, lccn: None })
}

/// The book information that a library entry yields.
pub open spec fn entry_projection(e: LibraryEntry, b: BasicBookInfo) -> bool {
    &&& b.title@ == e.title@
    &&& b.author@ == author_line(chars_of(e.authors@))
    &&& opt_chars(b.image) == (match (e.cover_large, e.cover_medium) {
        (Some(c), _) => Some(secured(c@)),
        (None, Some(c)) => Some(secured(c@)),
        (None, None) => None,
    })
    &&& b.subjects@ == e.subjects@
    &&& opt_chars(b.lccn) == (if e.lccn.len() > 0 {
        Some(e.lccn[0]@)
    } else {
        None
    })
}

/// Turns a library lookup into book information; nothing where it holds no entry.
pub fn project_library_entries(entries: Vec<LibraryEntry>) -> (r: Option<BasicBookInfo>)
    ensures
        r is Some <==> entries.len() > 0,
        r matches Some(b) ==> entry_projection(entries[0], b),
{
    if entries.len() == 0 {
        return None;
    }
    let mut entries = entries;
    let first = entries.remove(0);
    let author = author_line_of(&first.authors);
    let image = match (&first.cover_large, &first.cover_medium) {
        (Some(c), _) => Some(secure_url(c.as_str())),
        (None, Some(c)) => Some(secure_url(c.as_str())),
        (None, None) => None,
    };
    let mut numbers = first.lccn;
    let lccn = if numbers.len() > 0 {
        Some(numbers.remove(0))
    } else {
        None
    };
    Some(BasicBookInfo { title: first.title, author, image, subjects: first.subjects, lccn })
}

/// A subject lookup replaces the primary subjects: it found the book and its first record
/// lists subjects.
pub open spec fn overrides(lookup: Option<SubjectLookup>) -> bool {
    lookup matches Some(l) && l.hits >= 1 && l.results.len() > 0 && l.results[0].len() > 0
}

/// The subjects of a record after enrichment: those of the lookup's first record where it
/// overrides, else the primary provider's, untouched.
pub fn enrich_subjects(primary: Vec<String>, lookup: Option<SubjectLookup>) -> (r: Vec<String>)
    ensures
        r == (if overrides(lookup) {
            lookup->0.results[0]
        } else {
            primary
        }),
{
    match lookup {
        Some(l) => {
            if l.hits >= 1 && l.results.len() > 0 && l.results[0].len() > 0 {
                let mut results = l.results;
                results.remove(0)
            } else {
                primary
            }
        },
        None => primary,
    }
}

} // verus!
