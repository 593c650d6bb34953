//! Cover image URLs: choice between a provider's links, enlargement and the secure scheme.
use vstd::prelude::*;

use crate::text::{concat, contains, contains_seq, has_prefix, matches_at, occurs_at, opt_chars, starts_with};

verus! {

/// The low-resolution size token stands at `i` as a whole query parameter: after `?` or
/// `&`, and followed by `&` or the end of the URL.
pub open spec fn size_token_at(u: Seq<char>, i: int) -> bool {
    &&& occurs_at(u, "zoom=1"@, i)
    &&& i >= 1
    &&& (u[i - 1] == '?' || u[i - 1] == '&')
    &&& (i + 6 == u.len() || u[i + 6] == '&')
}

/// `u` holds the low-resolution size token as a whole query parameter.
pub open spec fn has_size_token(u: Seq<char>) -> bool {
    exists|i: int| size_token_at(u, i)
}

/// The position of the first whole low-resolution size token of `u`, where there is one.
pub open spec fn first_size_token(u: Seq<char>) -> int {
    choose|i: int| size_token_at(u, i) && forall|j: int| 0 <= j < i ==> !size_token_at(u, j)
}

/// `u` with a leading `http://` replaced by `https://`.
pub open spec fn secured(u: Seq<char>) -> Seq<char> {
    if has_prefix(u, "http://"@) {
        "https://"@ + u.subrange(7, u.len() as int)
    } else {
        u
    }
}

/// `u` names a resource on the image host whose thumbnails can be enlarged.
pub open spec fn on_image_host(u: Seq<char>) -> bool {
    has_prefix(u, "http://books.google.com/"@) || has_prefix(u, "https://books.google.com/"@)
}

/// `u` with its first whole low-resolution size token replaced by the high-resolution one, where
/// `u` is on the image host; any other URL unchanged.
pub open spec fn upscaled(u: Seq<char>) -> Seq<char> {
    if on_image_host(u) && has_size_token(u) {
        let i = first_size_token(u);
        u.subrange(0, i) + "zoom=0"@ + u.subrange(i + 6, u.len() as int)
    } else {
        u
    }
}

/// The cover image of a record: the front-cover preview link where the provider gives one,
/// else the enlarged thumbnail; either on the secure scheme.
pub open spec fn chosen_image(preview: Option<Seq<char>>, thumbnail: Option<Seq<char>>) -> Option<
    Seq<char>,
> {
    if preview is Some && contains_seq(preview->0, "frontcover"@) {
        Some(secured(preview->0 + "&img=1"@))
    } else if thumbnail is Some {
        Some(secured(upscaled(thumbnail->0)))
    } else {
        None
    }
}

/// Moves a URL from `http` to `https`.
pub fn secure_url(u: &str) -> (r: String)
    ensures
        r@ == secured(u@),
{
    if starts_with(u, "http://") {
        proof {
            reveal_strlit("http://");
        }
        let rest = u.substring_char(7, u.unicode_len());
        concat("https://", rest)
    } else {
        String::from_str(u)
    }
}

/// The position of the first whole low-resolution size token of `u`.
pub fn find_size_token(u: &str) -> (r: Option<usize>)
    ensures
        r matches Some(i) ==> size_token_at(u@, i as int) && forall|j: int|
            0 <= j < i ==> !size_token_at(u@, j),
        r is None <==> !has_size_token(u@),
{
    proof {
        reveal_strlit("zoom=1");
    }
    let n = u.unicode_len();
    let mut i: usize = 1;
    while i < n
        invariant
            n == u@.len(),
            1 <= i,
            "zoom=1"@.len() == 6,
            forall|j: int| 0 <= j < i ==> !size_token_at(u@, j),
        decreases n - i,
    {
        if matches_at(u, "zoom=1", i) {
            let before = u.get_char(i - 1);
            if (before == '?' || before == '&') && (i + 6 == n || u.get_char(i + 6) == '&') {
                assert(size_token_at(u@, i as int));
                return Some(i);
            }
        }
        i = i + 1;
    }
    assert forall|j: int| !size_token_at(u@, j) by {
        if size_token_at(u@, j) {
            assert(j < i);
        }
    }
    None
}

/// Replaces the first whole low-resolution size token of a thumbnail on the image host.
pub fn upscale_url(u: &str) -> (r: String)
    ensures
        r@ == upscaled(u@),
{
    if !(starts_with(u, "http://books.google.com/") || starts_with(u, "https://books.google.com/")) {
        return String::from_str(u);
    }
    match find_size_token(u) {
        None => String::from_str(u),
        Some(i) => {
            proof {
                reveal_strlit("zoom=1");
                assert(occurs_at(u@, "zoom=1"@, i as int));
            }
            let n = u.unicode_len();
            let before = u.substring_char(0, i);
            let after = u.substring_char(i + 6, n);
            let head = concat(before, "zoom=0");
            let r = concat(head.as_str(), after);
            proof {
                let k = first_size_token(u@);
                assert(size_token_at(u@, k) && forall|j: int|
                    0 <= j < k ==> !size_token_at(u@, j));
                if k < i {
                } else if k > i {
                    assert(!size_token_at(u@, i as int));
                }
                assert(k == i);
            }
            r
        },
    }
}

/// Picks the cover image URL from a provider's preview link and thumbnail.
pub fn choose_image(preview: &Option<String>, thumbnail: &Option<String>) -> (r: Option<String>)
    ensures
        opt_chars(r) == chosen_image(opt_chars(*preview), opt_chars(*thumbnail)),
{
    if let Some(p) = preview {
        if contains(p.as_str(), "frontcover") {
            let link = concat(p.as_str(), "&img=1");
            return Some(secure_url(link.as_str()));
        }
    }
    match thumbnail {
        Some(t) => {
            let big = upscale_url(t.as_str());
            Some(secure_url(big.as_str()))
        },
        None => None,
    }
}

/// Upscaling touches only URLs of the image host: a thumbnail from any other host comes
/// out as it went in, but for the move to the secure scheme.
pub proof fn lemma_other_hosts_unchanged(thumbnail: Seq<char>)
    requires
        !on_image_host(thumbnail),
    ensures
        upscaled(thumbnail) == thumbnail,
        chosen_image(None, Some(thumbnail)) == Some(secured(thumbnail)),
{
}

} // verus!
