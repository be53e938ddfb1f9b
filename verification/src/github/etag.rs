//! Cache keys for conditional (`ETag`) requests.
use vstd::prelude::*;

use crate::text::{lemma_split_nonempty, split_chars, split_spec, string_from_chars, to_chars};

verus! {

/// Normalises an endpoint URL for `ETag` caching: drops the query string
/// (parameters such as `since` and `page` change between runs) so the same
/// logical endpoint maps to the same cache key.
pub fn normalise_endpoint(url: &str) -> (r: String)
    ensures
        r@ == split_spec(url@, '?')[0],
{
    let v = to_chars(url);
    let pieces = split_chars(&v, '?');
    proof {
        lemma_split_nonempty(url@, '?');
    }
    string_from_chars(&pieces[0])
}

} // verus!
