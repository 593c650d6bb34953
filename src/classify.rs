//! Extraction of a Dewey classification from the classification service's result pages.
//!
//! A page that shows one work carries the Dewey code in the second cell of the second row
//! of its first table body, and the subject headings in the first cell of each row of the
//! table body inside the `subheadtbl` element. A page that lists several works links each
//! from a cell of class `title`; the first such link leads to a page of the first kind.
use vstd::prelude::*;

use crate::page::{
    all_within, first_within, first_in, lemma_all_in_bounds, Document, Element, Sel, Selector,
};
use crate::record::{chars_of, Classification};
use crate::endpoints::classify_link_url;

verus! {

/// The Dewey code of a single-work page: the text of the second cell of the second row of
/// the first table body.
pub open spec fn dewey_of(s: Seq<Element>) -> Option<Seq<char>> {
    match first_in(s, Sel::Tag("tbody"@), 0, s.len() as int) {
        None => None,
        Some(b) => {
            let rows = all_within(s, Sel::Tag("tr"@), b);
            if rows.len() < 2 {
                None
            } else {
                let cells = all_within(s, Sel::Tag("td"@), rows[1]);
                if cells.len() < 2 {
                    None
                } else {
                    Some(s[cells[1]].text@)
                }
            }
        }
    }
}

/// The rows of the subject heading table: those of the first table body at or within the
/// `subheadtbl` element.
pub open spec fn subject_rows(s: Seq<Element>) -> Option<Seq<int>> {
    match first_in(s, Sel::Id("subheadtbl"@), 0, s.len() as int) {
        None => None,
        Some(h) => match first_within(s, Sel::Tag("tbody"@), h) {
            None => None,
            Some(b) => Some(all_within(s, Sel::Tag("tr"@), b)),
        },
    }
}

/// The subject heading of row `r`: the text of its first cell.
pub open spec fn row_subject(s: Seq<Element>, r: int) -> Option<Seq<char>> {
    match first_within(s, Sel::Tag("td"@), r) {
        Some(c) => Some(s[c].text@),
        None => None,
    }
}

/// The subject headings of a single-work page; nothing where the table is missing or a row
/// has no cell.
pub open spec fn subjects_of(s: Seq<Element>) -> Option<Seq<Seq<char>>> {
    match subject_rows(s) {
        None => None,
        Some(rows) => if forall|k: int| 0 <= k < rows.len() ==> #[trigger] row_subject(s, rows[k]) is Some {
            Some(Seq::new(rows.len(), |k: int| row_subject(s, rows[k])->0))
        } else {
            None
        },
    }
}

/// The classification of a page: both its Dewey code and its subject headings, or nothing.
pub open spec fn classification_of(s: Seq<Element>) -> Option<(Seq<char>, Seq<Seq<char>>)> {
    match (dewey_of(s), subjects_of(s)) {
        (Some(d), Some(t)) => Some((d, t)),
        _ => None,
    }
}

/// The link of the first listed work: the `href` of the first anchor at or within the first
/// element of class `title` at or within the first row of the first table body (the row
/// itself where it carries the class).
pub open spec fn title_link_of(s: Seq<Element>) -> Option<Seq<char>> {
    match first_in(s, Sel::Tag("tbody"@), 0, s.len() as int) {
        None => None,
        Some(b) => match first_within(s, Sel::Tag("tr"@), b) {
            None => None,
            Some(r) => match first_within(s, Sel::Class("title"@), r) {
                None => None,
                Some(t) => match first_within(s, Sel::Tag("a"@), t) {
                    None => None,
                    Some(a) => match s[a].href {
                        Some(h) => Some(h@),
                        None => None,
                    },
                },
            },
        },
    }
}

/// `c` holds the code and headings of `v`.
pub open spec fn classification_is(c: Classification, v: (Seq<char>, Seq<Seq<char>>)) -> bool {
    c.dewey_code@ == v.0 && chars_of(c.subject_tags@) == v.1
}

fn tag(name: &str) -> (r: Selector)
    ensures
        r@ == Sel::Tag(name@),
{
    Selector::Tag(String::from_str(name))
}

/// The Dewey code of a single-work page.
pub fn scrape_dewey(doc: &Document) -> (r: Option<String>)
    ensures
        match r {
            Some(d) => dewey_of(doc.elements@) == Some(d@),
            None => dewey_of(doc.elements@) is None,
        },
{
    let ghost s = doc.elements@;
    let n = doc.elements.len();
    let b = match doc.find_first(&tag("tbody"), 0, n) {
        Some(b) => b,
        None => return None,
    };
    let b_end = doc.subtree_end(b);
    let rows = doc.find_all(&tag("tr"), b, b_end);
    proof {
        lemma_all_in_bounds(s, Sel::Tag("tr"@), b as int, b_end as int);
    }
    if rows.len() < 2 {
        return None;
    }
    let row = rows[1];
    assert(row as int == all_within(s, Sel::Tag("tr"@), b as int)[1]);
    let r_end = doc.subtree_end(row);
    let cells = doc.find_all(&tag("td"), row, r_end);
    proof {
        lemma_all_in_bounds(s, Sel::Tag("td"@), row as int, r_end as int);
    }
    if cells.len() < 2 {
        return None;
    }
    let cell = cells[1];
    assert(cell as int == all_within(s, Sel::Tag("td"@), row as int)[1]);
    Some(doc.elements[cell].text.clone())
}

/// The subject headings of a single-work page.
pub fn scrape_subjects(doc: &Document) -> (r: Option<Vec<String>>)
    ensures
        match r {
            Some(t) => subjects_of(doc.elements@) == Some(chars_of(t@)),
            None => subjects_of(doc.elements@) is None,
        },
{
    let ghost s = doc.elements@;
    let n = doc.elements.len();
    let h = match doc.find_first(&Selector::Id(String::from_str("subheadtbl")), 0, n) {
        Some(h) => h,
        None => return None,
    };
    let h_end = doc.subtree_end(h);
    let b = match doc.find_first(&tag("tbody"), h, h_end) {
        Some(b) => b,
        None => return None,
    };
    let b_end = doc.subtree_end(b);
    let rows = doc.find_all(&tag("tr"), b, b_end);
    let ghost rs = all_within(s, Sel::Tag("tr"@), b as int);
    assert(subject_rows(s) == Some(rs));
    proof {
        lemma_all_in_bounds(s, Sel::Tag("tr"@), b as int, b_end as int);
    }
    let cell_sel = tag("td");
    let mut tags: Vec<String> = Vec::new();
    let mut k: usize = 0;
    while k < rows.len()
        invariant
            k <= rows.len(),
            s == doc.elements@,
            subject_rows(s) == Some(rs),
            rows@.map_values(|x: usize| x as int) == rs,
            forall|m: int| 0 <= m < rs.len() ==> 0 <= #[trigger] rs[m] < s.len(),
            cell_sel@ == Sel::Tag("td"@),
            tags.len() == k,
            forall|m: int| 0 <= m < k ==> #[trigger] row_subject(s, rs[m]) == Some(tags[m]@),
        decreases rows.len() - k,
    {
        let row = rows[k];
        assert(row as int == rs[k as int]);
        let r_end = doc.subtree_end(row);
        match doc.find_first(&cell_sel, row, r_end) {
            None => {
                assert(row_subject(s, rs[k as int]) is None);
                assert(!(forall|m: int| 0 <= m < rs.len() ==> #[trigger] row_subject(s, rs[m]) is Some));
                return None;
            },
            Some(c) => {
                tags.push(doc.elements[c].text.clone());
            },
        }
        k = k + 1;
    }
    proof {
        assert(forall|m: int| 0 <= m < rs.len() ==> #[trigger] row_subject(s, rs[m]) is Some);
        assert(chars_of(tags@) =~= Seq::new(rs.len(), |m: int| row_subject(s, rs[m])->0));
    }
    Some(tags)
}

/// The classification of a single-work page, only where both the code and the headings
/// are there.
pub fn scrape_classification(doc: &Document) -> (r: Option<Classification>)
    ensures
        match r {
            Some(c) => classification_of(doc.elements@) matches Some(v) && classification_is(c, v),
            None => classification_of(doc.elements@) is None,
        },
{
    let dewey = scrape_dewey(doc);
    let subjects = scrape_subjects(doc);
    match (dewey, subjects) {
        (Some(dewey_code), Some(subject_tags)) => Some(Classification { dewey_code, subject_tags }),
        _ => None,
    }
}

/// The link of the first work that a list page shows.
pub fn scrape_title_link(doc: &Document) -> (r: Option<String>)
    ensures
        match r {
            Some(h) => title_link_of(doc.elements@) == Some(h@),
            None => title_link_of(doc.elements@) is None,
        },
{
    let ghost s = doc.elements@;
    let n = doc.elements.len();
    let b = match doc.find_first(&tag("tbody"), 0, n) {
        Some(b) => b,
        None => return None,
    };
    let b_end = doc.subtree_end(b);
    let row = match doc.find_first(&tag("tr"), b, b_end) {
        Some(r) => r,
        None => return None,
    };
    let r_end = doc.subtree_end(row);
    let cell = match doc.find_first(&Selector::Class(String::from_str("title")), row, r_end) {
        Some(t) => t,
        None => return None,
    };
    let c_end = doc.subtree_end(cell);
    let anchor = match doc.find_first(&tag("a"), cell, c_end) {
        Some(a) => a,
        None => return None,
    };
    match &doc.elements[anchor].href {
        Some(h) => Some(h.clone()),
        None => None,
    }
}

/// What a first result page of the classification service leads to.
#[derive(Debug)]
pub enum FirstPage {
    /// The page shows one work, with its classification.
    Found(Classification),
    /// The page lists works: the URL of the first one's page, to scrape once more.
    Follow(String),
    /// Neither.
    NoMatch,
}

/// Decides on a first result page: its classification where it has one, else the page of
/// the first listed work, else nothing.
pub fn read_first_page(doc: &Document) -> (r: FirstPage)
    ensures
        match classification_of(doc.elements@) {
            Some(v) => r matches FirstPage::Found(c) && classification_is(c, v),
            None => match title_link_of(doc.elements@) {
                Some(h) => r matches FirstPage::Follow(u) && u@ == "http://classify.oclc.org"@ + h,
                None => r is NoMatch,
            },
        },
{
    if let Some(c) = scrape_classification(doc) {
        return FirstPage::Found(c);
    }
    match scrape_title_link(doc) {
        Some(h) => FirstPage::Follow(classify_link_url(h.as_str())),
        None => FirstPage::NoMatch,
    }
}

} // verus!
