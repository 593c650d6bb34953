//! Normalization of the fields that providers report: author names and cover image URLs.
use vstd::prelude::*;

use crate::text::{concat, last_index_of};

verus! {

/// The position of the last `c` in `s`, where `s` holds one.
pub open spec fn last_position(s: Seq<char>, c: char) -> int {
    choose|i: int| 0 <= i < s.len() && s[i] == c && forall|j: int| i < j < s.len() ==> s[j] != c
}

/// One author's name in "Last, First Middle" form.
///
/// A name that already holds a comma, or that holds no space, stays as it is. Otherwise the
/// part after the last space is the surname, and it moves to the front followed by ", ".
pub open spec fn normalized_author(s: Seq<char>) -> Seq<char> {
    if s.contains(',') || !s.contains(' ') {
        s
    } else {
        let i = last_position(s, ' ');
        s.subrange(i + 1, s.len() as int) + seq![',', ' '] + s.subrange(0, i)
    }
}

/// The names of `names` in order, with `sep` between each two.
pub open spec fn joined(names: Seq<Seq<char>>, sep: Seq<char>) -> Seq<char>
    decreases names.len(),
{
    if names.len() == 0 {
        Seq::empty()
    } else if names.len() == 1 {
        names[0]
    } else {
        joined(names.drop_last(), sep) + sep + names.last()
    }
}

/// The author line of a record: each name normalized, joined by "; ", or "Unknown" where
/// the provider lists no author.
pub open spec fn author_line(names: Seq<Seq<char>>) -> Seq<char> {
    if names.len() == 0 {
        seq!['U', 'n', 'k', 'n', 'o', 'w', 'n']
    } else {
        joined(names.map_values(|n: Seq<char>| normalized_author(n)), seq![';', ' '])
    }
}

proof fn lemma_joined_extend(names: Seq<Seq<char>>, sep: Seq<char>, i: int)
    requires
        1 <= i < names.len(),
    ensures
        joined(names.subrange(0, i + 1), sep) == joined(names.subrange(0, i), sep) + sep + names[i],
{
    assert(names.subrange(0, i + 1).drop_last() =~= names.subrange(0, i));
}

/// Rewrites one author's name into "Last, First Middle" form.
pub fn normalize_author(raw: &str) -> (r: String)
    ensures
        r@ == normalized_author(raw@),
{
    if last_index_of(raw, ',').is_some() {
        return String::from_str(raw);
    }
    match last_index_of(raw, ' ') {
        None => String::from_str(raw),
        Some(i) => {
            let n = raw.unicode_len();
            let surname = raw.substring_char(i + 1, n);
            let given = raw.substring_char(0, i);
            let head = concat(surname, ", ");
            let r = concat(head.as_str(), given);
            proof {
                reveal_strlit(", ");
                let k = last_position(raw@, ' ');
                assert(0 <= k < raw@.len() && raw@[k] == ' ' && forall|j: int|
                    k < j < raw@.len() ==> raw@[j] != ' ');
                if k < i {
                    assert(raw@[i as int] == ' ');
                } else if k > i {
                    assert(raw@[k] == ' ');
                }
                assert(k == i);
                assert(r@ =~= normalized_author(raw@));
            }
            r
        },
    }
}

/// Normalizes each name and joins them with "; "; "Unknown" where there is no name.
#[verifier::rlimit(30)]
pub fn author_line_of(names: &Vec<String>) -> (r: String)
    ensures
        r@ == author_line(names@.map_values(|n: String| n@)),
{
    let ghost views = names@.map_values(|n: String| n@);
    if names.len() == 0 {
        let r = String::from_str("Unknown");
        proof {
            reveal_strlit("Unknown");
            assert(r@ =~= author_line(views));
        }
        return r;
    }
    let ghost normed = views.map_values(|n: Seq<char>| normalized_author(n));
    let mut r = normalize_author(names[0].as_str());
    proof {
        reveal_strlit("; ");
        assert(normed.subrange(0, 1) =~= seq![normed[0]]);
    }
    let mut i: usize = 1;
    while i < names.len()
        invariant
            1 <= i <= names@.len(),
            views == names@.map_values(|n: String| n@),
            normed == views.map_values(|n: Seq<char>| normalized_author(n)),
            r@ == joined(normed.subrange(0, i as int), seq![';', ' ']),
            "; "@ == seq![';', ' '],
        decreases names.len() - i,
    {
        let next = normalize_author(names[i].as_str());
        let head = concat(r.as_str(), "; ");
        r = concat(head.as_str(), next.as_str());
        proof {
            assert(next@ == normed[i as int]);
            lemma_joined_extend(normed, seq![';', ' '], i as int);
        }
        i = i + 1;
    }
    assert(normed.subrange(0, names@.len() as int) =~= normed);
    r
}

} // verus!
