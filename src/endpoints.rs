//! The request URLs of the outside services, each embedding its key.
use vstd::prelude::*;

use crate::text::concat;

verus! {

/// The volume search of the book-information service for an ISBN.
pub fn volume_search_url(isbn: &str) -> (r: String)
    ensures
        r@ == "https://www.googleapis.com/books/v1/volumes?q=isbn:"@ + isbn@,
{
    concat("https://www.googleapis.com/books/v1/volumes?q=isbn:", isbn)
}

/// The book-data lookup of the open library catalog for an ISBN.
pub fn library_data_url(isbn: &str) -> (r: String)
    ensures
        r@ == "https://openlibrary.org/api/books?bibkeys=ISBN:"@ + isbn@ + "&format=json&jscmd=data"@,
{
    let head = concat("https://openlibrary.org/api/books?bibkeys=ISBN:", isbn);
    concat(head.as_str(), "&format=json&jscmd=data")
}

/// The classification service's search page for an ISBN.
pub fn classify_search_url(isbn: &str) -> (r: String)
    ensures
        r@ == "http://classify.oclc.org/classify2/ClassifyDemo?search-standnum-txt="@ + isbn@
            + "&startRec=0"@,
{
    let head = concat("http://classify.oclc.org/classify2/ClassifyDemo?search-standnum-txt=", isbn);
    concat(head.as_str(), "&startRec=0")
}

/// The classification service's page at a path that one of its pages links to.
pub fn classify_link_url(path: &str) -> (r: String)
    ensures
        r@ == "http://classify.oclc.org"@ + path@,
{
    concat("http://classify.oclc.org", path)
}

/// The library catalog's subject lookup for a control number.
pub fn subject_lookup_url(lccn: &str) -> (r: String)
    ensures
        r@ == "https://www.loc.gov/search/?fa=number_lccn:"@ + lccn@ + "&fo=json"@,
{
    let head = concat("https://www.loc.gov/search/?fa=number_lccn:", lccn);
    concat(head.as_str(), "&fo=json")
}

} // verus!
