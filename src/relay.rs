//! The request that the market-data relay is allowed to make.
use vstd::prelude::*;

use crate::text::{has_prefix, starts_with_text};

verus! {

/// The number of leading `/` characters of `s`.
pub open spec fn slash_run(s: Seq<char>, n: int) -> bool {
    0 <= n <= s.len() && (forall|j: int| 0 <= j < n ==> s[j] == '/') && (n == s.len() || s[n] != '/')
}

/// A relay path is allowed when, without its leading slashes, it begins with
/// one of the API's collections.
pub open spec fn allowed_segment(seg: Seq<char>) -> bool {
    has_prefix(seg, "events"@) || has_prefix(seg, "markets"@) || has_prefix(seg, "tags"@)
}

/// The address of a relayed request for path segment `seg` and query `params`.
pub open spec fn relay_url_text(seg: Seq<char>, params: Seq<char>) -> Seq<char> {
    "https://gamma-api.polymarket.com/"@ + seg + "?"@ + params
}

/// The address to fetch for `path` and `params`, or `None` when the path
/// names no allowed collection.
pub fn polymarket_url(path: &str, params: &str) -> (r: Option<String>)
    ensures
        exists|n: int|
            slash_run(path@, n) && match r {
                Some(u) => allowed_segment(path@.subrange(n, path@.len() as int)) && u@
                    == relay_url_text(path@.subrange(n, path@.len() as int), params@),
                None => !allowed_segment(path@.subrange(n, path@.len() as int)),
            },
{
    let len = path.unicode_len();
    let mut n: usize = 0;
    while n < len && path.get_char(n) == '/'
        invariant
            n <= len,
            len == path@.len(),
            forall|j: int| 0 <= j < n ==> path@[j] == '/',
        decreases len - n,
    {
        n = n + 1;
    }
    assert(slash_run(path@, n as int));
    let segment = path.substring_char(n, len);
    if starts_with_text(segment, "events") || starts_with_text(segment, "markets")
        || starts_with_text(segment, "tags") {
        let mut url = String::from_str("https://gamma-api.polymarket.com/");
        url.append(segment);
        url.append("?");
        url.append(params);
        assert(url@ =~= relay_url_text(segment@, params@));
        Some(url)
    } else {
        None
    }
}

} // verus!
