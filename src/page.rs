//! A parsed HTML document as a flat list of elements in document order, and depth-first
//! queries over it.
//!
//! Element `i`'s descendants are the elements that follow it while their depth is greater
//! than its own: the indices `i + 1 .. subtree_end(i)`. A query from an element tests the
//! element itself first, then its descendants in order: the indices `i .. subtree_end(i)`.
use vstd::prelude::*;

verus! {

/// One element of a document, with the attributes the extraction reads.
#[derive(Debug)]
pub struct Element {
    pub tag: String,
    /// Nesting depth: the root's children have depth 0.
    pub depth: usize,
    pub id: Option<String>,
    pub classes: Vec<String>,
    pub href: Option<String>,
    /// All text within the element, in document order.
    pub text: String,
}

/// A parsed document: its elements in depth-first pre-order.
#[derive(Debug)]
pub struct Document {
    pub elements: Vec<Element>,
}

/// What an element query asks of an element, in characters.
pub enum Sel {
    Tag(Seq<char>),
    Id(Seq<char>),
    Class(Seq<char>),
}

/// An element query: by tag name, by id, or by one of the element's classes.
#[derive(Debug)]
pub enum Selector {
    Tag(String),
    Id(String),
    Class(String),
}

impl View for Selector {
    type V = Sel;

    open spec fn view(&self) -> Sel {
        match self {
            Selector::Tag(t) => Sel::Tag(t@),
            Selector::Id(i) => Sel::Id(i@),
            Selector::Class(c) => Sel::Class(c@),
        }
    }
}

/// Element `e` answers query `q`.
pub open spec fn selects(q: Sel, e: Element) -> bool {
    match q {
        Sel::Tag(t) => e.tag@ == t,
        Sel::Id(i) => e.id matches Some(x) && x@ == i,
        Sel::Class(c) => exists|k: int| 0 <= k < e.classes.len() && #[trigger] e.classes[k]@ == c,
    }
}

/// An optional position as an integer.
pub open spec fn as_index(o: Option<usize>) -> Option<int> {
    match o {
        Some(k) => Some(k as int),
        None => None,
    }
}

/// The first `j >= from` that leaves the subtree of `i`.
pub open spec fn scope_end(s: Seq<Element>, i: int, from: int) -> int
    decreases s.len() - from,
{
    if from >= s.len() || s[from].depth <= s[i].depth {
        from
    } else {
        scope_end(s, i, from + 1)
    }
}

/// One past the last descendant of element `i`.
pub open spec fn subtree_end(s: Seq<Element>, i: int) -> int {
    scope_end(s, i, i + 1)
}

/// The first index in `lo..hi` whose element answers `q`.
pub open spec fn first_in(s: Seq<Element>, q: Sel, lo: int, hi: int) -> Option<int>
    decreases hi - lo,
{
    if lo >= hi {
        None
    } else if selects(q, s[lo]) {
        Some(lo)
    } else {
        first_in(s, q, lo + 1, hi)
    }
}

/// All indices in `lo..hi` whose elements answer `q`, in order.
pub open spec fn all_in(s: Seq<Element>, q: Sel, lo: int, hi: int) -> Seq<int>
    decreases hi - lo,
{
    if hi <= lo {
        Seq::empty()
    } else if selects(q, s[hi - 1]) {
        all_in(s, q, lo, hi - 1).push(hi - 1)
    } else {
        all_in(s, q, lo, hi - 1)
    }
}

/// The first of element `i` and its descendants that answers `q`.
pub open spec fn first_within(s: Seq<Element>, q: Sel, i: int) -> Option<int> {
    first_in(s, q, i, subtree_end(s, i))
}

/// All of element `i` and its descendants that answer `q`, in document order.
pub open spec fn all_within(s: Seq<Element>, q: Sel, i: int) -> Seq<int> {
    all_in(s, q, i, subtree_end(s, i))
}

/// Every index that `all_in` lists lies in `lo..hi`.
pub proof fn lemma_all_in_bounds(s: Seq<Element>, q: Sel, lo: int, hi: int)
    ensures
        forall|k: int| 0 <= k < all_in(s, q, lo, hi).len() ==> lo <= #[trigger] all_in(s, q, lo, hi)[k] < hi,
    decreases hi - lo,
{
    if hi > lo {
        lemma_all_in_bounds(s, q, lo, hi - 1);
        let prev = all_in(s, q, lo, hi - 1);
        let cur = all_in(s, q, lo, hi);
        assert forall|k: int| 0 <= k < cur.len() implies lo <= #[trigger] cur[k] < hi by {
            if k < prev.len() {
                assert(cur[k] == prev[k]);
            }
        }
    }
}

impl Document {
    /// Whether element `k` answers query `q`.
    pub fn selects_at(&self, q: &Selector, k: usize) -> (r: bool)
        requires
            k < self.elements.len(),
        ensures
            r == selects(q@, self.elements[k as int]),
    {
        let e = &self.elements[k];
        match q {
            Selector::Tag(t) => e.tag == *t,
            Selector::Id(i) => match &e.id {
                Some(x) => *x == *i,
                None => false,
            },
            Selector::Class(c) => {
                let mut j: usize = 0;
                while j < e.classes.len()
                    invariant
                        k < self.elements.len(),
                        *e == self.elements[k as int],
                        q@ == Sel::Class(c@),
                        j <= e.classes.len(),
                        forall|m: int| 0 <= m < j ==> e.classes[m]@ != c@,
                    decreases e.classes.len() - j,
                {
                    if e.classes[j] == *c {
                        assert(e.classes[j as int]@ == c@);
                        return true;
                    }
                    j = j + 1;
                }
                false
            },
        }
    }

    /// One past the last descendant of element `i`.
    pub fn subtree_end(&self, i: usize) -> (r: usize)
        requires
            i < self.elements.len(),
        ensures
            r == subtree_end(self.elements@, i as int),
            i < r <= self.elements.len(),
    {
        let ghost s = self.elements@;
        let mut j: usize = i + 1;
        while j < self.elements.len() && self.elements[j].depth > self.elements[i].depth
            invariant
                i < j <= s.len(),
                s == self.elements@,
                scope_end(s, i as int, j as int) == scope_end(s, i as int, i + 1),
            decreases s.len() - j,
        {
            j = j + 1;
        }
        j
    }

    /// The first index in `lo..hi` whose element answers `q`.
    pub fn find_first(&self, q: &Selector, lo: usize, hi: usize) -> (r: Option<usize>)
        requires
            hi <= self.elements.len(),
        ensures
            as_index(r) == first_in(self.elements@, q@, lo as int, hi as int),
            r matches Some(k) ==> lo <= k < hi,
    {
        let ghost s = self.elements@;
        let mut j: usize = lo;
        while j < hi
            invariant
                lo <= j,
                hi <= s.len(),
                s == self.elements@,
                first_in(s, q@, lo as int, hi as int) == first_in(s, q@, j as int, hi as int),
            decreases hi - j,
        {
            if self.selects_at(q, j) {
                return Some(j);
            }
            j = j + 1;
        }
        None
    }

    /// All indices in `lo..hi` whose elements answer `q`, in order.
    pub fn find_all(&self, q: &Selector, lo: usize, hi: usize) -> (r: Vec<usize>)
        requires
            hi <= self.elements.len(),
        ensures
            r@.map_values(|k: usize| k as int) == all_in(self.elements@, q@, lo as int, hi as int),
    {
        let ghost s = self.elements@;
        let mut r: Vec<usize> = Vec::new();
        if hi <= lo {
            assert(r@.map_values(|k: usize| k as int) =~= all_in(s, q@, lo as int, hi as int));
            return r;
        }
        let mut j: usize = lo;
        while j < hi
            invariant
                lo <= j <= hi,
                hi <= s.len(),
                s == self.elements@,
                r@.map_values(|k: usize| k as int) == all_in(s, q@, lo as int, j as int),
            decreases hi - j,
        {
            if self.selects_at(q, j) {
                r.push(j);
            }
            assert(r@.map_values(|k: usize| k as int) =~= all_in(s, q@, lo as int, j + 1));
            j = j + 1;
        }
        r
    }
}

} // verus!
