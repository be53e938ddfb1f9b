//! The computing half of the GitHub GraphQL client: endpoint derivation and
//! interpretation of response envelopes.
use vstd::prelude::*;

use crate::model::{parse_rfc3339, rfc3339_instant, RateLimitInfo};
use crate::text::{
    chars_have_suffix, has_suffix, owned, push_range, push_str, string_from_range, to_chars,
    trim_end_len, trim_end_spec,
};

verus! {

/// The GraphQL endpoint of a REST base URL: `{base}/graphql`, except that a
/// GitHub Enterprise base ending in `/api/v3` maps to `.../api/graphql`.
pub open spec fn graphql_endpoint_of(base_url: Seq<char>) -> Seq<char> {
    let base = trim_end_spec(base_url, '/');
    if has_suffix(base, "/api/v3"@) {
        base.subrange(0, base.len() - 3) + "/graphql"@
    } else {
        base + "/graphql"@
    }
}

/// Derives the GraphQL endpoint from a REST base URL
/// (`https://api.github.com` → `https://api.github.com/graphql`,
/// `https://github.example.com/api/v3` → `https://github.example.com/api/graphql`).
pub fn graphql_endpoint(base_url: &str) -> (r: String)
    ensures
        r@ == graphql_endpoint_of(base_url@),
{
    let v = to_chars(base_url);
    let n = trim_end_len(&v, '/');
    let base = string_from_range(&v, 0, n);
    let bv = to_chars(base.as_str());
    let suffix = to_chars("/api/v3");
    proof {
        reveal_strlit("/api/v3");
    }
    if chars_have_suffix(&bv, &suffix) {
        let mut out = string_from_range(&bv, 0, bv.len() - 3);
        push_str(&mut out, "/graphql");
        out
    } else {
        let mut out = base;
        push_str(&mut out, "/graphql");
        out
    }
}

/// Rate limit information from the response's `extensions`.
#[derive(Debug, Clone)]
pub struct GraphQLRateLimit {
    pub remaining: Option<i32>,
    pub limit: Option<i32>,
    pub reset_at: Option<String>,
}

/// Rate limit of a response: the `extensions` values where present (they
/// include the query cost), the header values otherwise; a `resetAt` that
/// does not parse as RFC 3339 keeps the header's reset time.
pub open spec fn merged_rate_limit(ext: Option<GraphQLRateLimit>, header: RateLimitInfo) -> RateLimitInfo {
    match ext {
        None => header,
        Some(rl) => RateLimitInfo {
            remaining: match rl.remaining {
                Some(x) => x,
                None => header.remaining,
            },
            limit: match rl.limit {
                Some(x) => x,
                None => header.limit,
            },
            reset_at: match rl.reset_at {
                Some(s) => match rfc3339_instant(s@) {
                    Some(t) => t as i128,
                    None => header.reset_at,
                },
                None => header.reset_at,
            },
        },
    }
}

pub fn merge_rate_limit(ext: &Option<GraphQLRateLimit>, header: RateLimitInfo) -> (r: RateLimitInfo)
    ensures
        r == merged_rate_limit(*ext, header),
{
    match ext {
        None => header,
        Some(rl) => {
            let reset_at = match &rl.reset_at {
                Some(s) => match parse_rfc3339(s.as_str()) {
                    Some(t) => t,
                    None => header.reset_at,
                },
                None => header.reset_at,
            };
            RateLimitInfo {
                remaining: match rl.remaining {
                    Some(x) => x,
                    None => header.remaining,
                },
                limit: match rl.limit {
                    Some(x) => x,
                    None => header.limit,
                },
                reset_at,
            }
        },
    }
}

/// A GraphQL response envelope.
#[derive(Debug, Clone)]
pub struct GraphQLResponse<T> {
    pub data: Option<T>,
    /// Messages of the `errors` entries.
    pub errors: Option<Vec<String>>,
    /// Rate limit reported in `extensions`, if any.
    pub rate_limit: Option<GraphQLRateLimit>,
}

/// Errors from the GitHub GraphQL client.
#[derive(Debug, Clone)]
pub enum GraphQLClientError {
    /// Transport failure, with its message.
    Http(String),
    Api { status: u16, body: String },
    GraphQL { messages: String },
    Parse { message: String, body: String },
}

/// `items` joined by `sep`.
pub open spec fn join_spec(items: Seq<Seq<char>>, sep: Seq<char>) -> Seq<char>
    decreases items.len(),
{
    if items.len() == 0 {
        seq![]
    } else if items.len() == 1 {
        items[0]
    } else {
        join_spec(items.drop_last(), sep) + sep + items.last()
    }
}

/// Joins strings with a separator (`[..].join(sep)`).
pub fn join_strings(items: &Vec<String>, sep: &str) -> (r: String)
    ensures
        r@ == join_spec(items@.map_values(|s: String| s@), sep@),
{
    let ghost its = items@.map_values(|s: String| s@);
    let mut out = String::new();
    let mut i: usize = 0;
    while i < items.len()
        invariant
            i <= items@.len(),
            its == items@.map_values(|s: String| s@),
            out@ == join_spec(its.take(i as int), sep@),
        decreases items.len() - i,
    {
        proof {
            assert(its.take(i + 1).drop_last() =~= its.take(i as int));
        }
        if i > 0 {
            push_str(&mut out, sep);
        }
        push_str(&mut out, items[i].as_str());
        proof {
            if i == 0 {
                assert(its.take(1) =~= seq![its[0]]);
                assert(out@ =~= its[0]);
            }
        }
        i = i + 1;
    }
    proof {
        assert(its.take(items@.len() as int) =~= its);
    }
    out
}

/// Outcome of a GraphQL request whose HTTP status was a success and whose
/// body parsed: the data with the merged rate limit, unless the response
/// carries errors (joined with `"; "`) or no data.
pub fn interpret_response<T>(response: GraphQLResponse<T>, header_rate_limit: RateLimitInfo) -> (r:
    Result<(T, RateLimitInfo), GraphQLClientError>)
    ensures
        match r {
            Ok((d, rl)) => {
                &&& rl == merged_rate_limit(response.rate_limit, header_rate_limit)
                &&& !(response.errors matches Some(es) && es@.len() > 0)
                &&& response.data == Some(d)
            },
            Err(GraphQLClientError::GraphQL { messages }) => {
                ||| (response.errors matches Some(es) && es@.len() > 0 && messages@ == join_spec(
                    es@.map_values(|s: String| s@),
                    "; "@,
                ))
                ||| (!(response.errors matches Some(es) && es@.len() > 0) && response.data is None
                    && messages@ == "response contained no data"@)
            },
            Err(_) => false,
        },
{
    let rate_limit = merge_rate_limit(&response.rate_limit, header_rate_limit);
    match &response.errors {
        Some(errors) => {
            if errors.len() > 0 {
                return Err(GraphQLClientError::GraphQL { messages: join_strings(errors, "; ") });
            }
        },
        None => {},
    }
    match response.data {
        Some(d) => Ok((d, rate_limit)),
        None => Err(GraphQLClientError::GraphQL { messages: owned("response contained no data") }),
    }
}

} // verus!
