//! Shared data of the ingestion model: instants, rate limits, platforms,
//! contribution records.
use vstd::prelude::*;

verus! {

/// An instant as nanoseconds since the Unix epoch.
pub type Timestamp = i128;

pub const NANOS_PER_SECOND: i128 = 1_000_000_000;

/// Every instant that `time` represents lies strictly within this many
/// nanoseconds of the epoch (its dates span at most the years -999999 to
/// 999999).
pub const INSTANT_BOUND: i128 = 1_000_000_000_000_000_000_000_000;

pub open spec fn in_instant_range(t: int) -> bool {
    -INSTANT_BOUND < t < INSTANT_BOUND
}

/// Rate limit information reported by a platform API.
#[derive(Debug, Clone, Copy, PartialEq, Eq, Structural)]
pub struct RateLimitInfo {
    pub remaining: i32,
    pub limit: i32,
    /// When the budget resets.
    pub reset_at: Timestamp,
}

/// Instant denoted by an RFC 3339 date-time string, as the `time` crate
/// parses it; `None` when it does not parse.
pub uninterp spec fn rfc3339_instant(s: Seq<char>) -> Option<int>;

/// Whether `time` can represent the given Unix timestamp (seconds).
pub uninterp spec fn unix_seconds_representable(secs: int) -> bool;

/// `OffsetDateTime::parse(s, &Rfc3339)`, read back as nanoseconds since the
/// epoch (`unix_timestamp_nanos`). The result is named, not described: the
/// RFC 3339 grammar is `time`'s.
#[verifier::external_body]
pub(crate) fn parse_rfc3339(s: &str) -> (r: Option<Timestamp>)
    ensures
        match r {
            Some(t) => rfc3339_instant(s@) == Some(t as int) && in_instant_range(t as int),
            None => rfc3339_instant(s@) is None,
        },
{
    match time::OffsetDateTime::parse(s, &time::format_description::well_known::Rfc3339) {
        Ok(t) => Some(t.unix_timestamp_nanos()),
        Err(_) => None,
    }
}

/// `OffsetDateTime::from_unix_timestamp(secs)`, read back as nanoseconds
/// since the epoch. When it succeeds the instant is `secs` seconds after the
/// epoch; which timestamps succeed (the representable range, which depends on
/// `time`'s build features) is named, not stated.
#[verifier::external_body]
pub(crate) fn instant_from_unix_seconds(secs: i64) -> (r: Option<Timestamp>)
    ensures
        r is Some <==> unix_seconds_representable(secs as int),
        r matches Some(t) ==> t as int == secs as int * NANOS_PER_SECOND && in_instant_range(t as int),
{
    match time::OffsetDateTime::from_unix_timestamp(secs) {
        Ok(t) => Some(t.unix_timestamp_nanos()),
        Err(_) => None,
    }
}

/// `OffsetDateTime::now_utc()`, as nanoseconds since the epoch. Of the
/// reading of the clock nothing is claimed but that it is an instant `time`
/// can represent.
#[verifier::external_body]
pub(crate) fn now_utc() -> (r: Timestamp)
    ensures
        in_instant_range(r as int),
{
    time::OffsetDateTime::now_utc().unix_timestamp_nanos()
}

/// What `uuid` makes of a string: the UUID's 128 bits, or the text of the
/// error it reports.
pub uninterp spec fn uuid_parse(s: Seq<char>) -> Result<u128, Seq<char>>;

/// `s.parse::<Uuid>()`, the UUID read back as a `u128`, the error as its
/// display text. The accepted forms are `uuid`'s and are named, not stated.
#[verifier::external_body]
pub(crate) fn parse_uuid(s: &str) -> (r: Result<u128, String>)
    ensures
        match r {
            Ok(v) => uuid_parse(s@) == Ok::<u128, Seq<char>>(v),
            Err(e) => uuid_parse(s@) == Err::<u128, Seq<char>>(e@),
        },
{
    match s.parse::<uuid::Uuid>() {
        Ok(u) => Ok(u.as_u128()),
        Err(e) => Err(e.to_string()),
    }
}

/// What `serde_json` reads as the string value of the field `key` of the
/// top-level object of `json`: `None` when the text is not JSON, is not an
/// object, lacks the field, or the field is not a string.
pub uninterp spec fn json_string_field(json: Seq<char>, key: Seq<char>) -> Option<Seq<char>>;

/// `serde_json::from_str::<Value>(json)`, then `.get(key)` and `.as_str()`.
#[verifier::external_body]
pub(crate) fn read_json_string_field(json: &str, key: &str) -> (r: Option<String>)
    ensures
        match r {
            Some(v) => json_string_field(json@, key@) == Some(v@),
            None => json_string_field(json@, key@) is None,
        },
{
    serde_json::from_str::<serde_json::Value>(json).ok()?.get(key)?.as_str().map(String::from)
}

/// What `serde_json` reads as the field `key` of the top-level object of
/// `json` taken as a list of strings: `None` when the text is not JSON, is
/// not an object, lacks the field, or the field is not an array of strings.
pub uninterp spec fn json_string_list_field(json: Seq<char>, key: Seq<char>) -> Option<Seq<Seq<char>>>;

/// `serde_json::from_str::<Value>(json)`, then `.get(key)` and
/// `serde_json::from_value::<Vec<String>>`.
#[verifier::external_body]
pub(crate) fn read_json_string_list_field(json: &str, key: &str) -> (r: Option<Vec<String>>)
    ensures
        match r {
            Some(v) => json_string_list_field(json@, key@) == Some(v@.map_values(|s: String| s@)),
            None => json_string_list_field(json@, key@) is None,
        },
{
    let value = serde_json::from_str::<serde_json::Value>(json).ok()?;
    serde_json::from_value::<Vec<String>>(value.get(key)?.clone()).ok()
}

/// What `serde_json` reads as the boolean value of the field `key` of the
/// top-level object of `json`: `None` when the text is not JSON, is not an
/// object, lacks the field, or the field is not a boolean.
pub uninterp spec fn json_bool_field(json: Seq<char>, key: Seq<char>) -> Option<bool>;

/// `serde_json::from_str::<Value>(json)`, then `.get(key)` and `.as_bool()`.
#[verifier::external_body]
pub(crate) fn read_json_bool_field(json: &str, key: &str) -> (r: Option<bool>)
    ensures
        r == json_bool_field(json@, key@),
{
    serde_json::from_str::<serde_json::Value>(json).ok()?.get(key)?.as_bool()
}

/// Whether `serde_json` parses the text as a JSON value.
pub uninterp spec fn json_parses(json: Seq<char>) -> bool;

/// `serde_json::from_str::<Value>(json).is_ok()`.
#[verifier::external_body]
pub(crate) fn is_json(json: &str) -> (r: bool)
    ensures
        r == json_parses(json@),
{
    serde_json::from_str::<serde_json::Value>(json).is_ok()
}

/// What `serde_json` reads as the `i64` value of the field `key` of the
/// top-level object of `json`: `None` when the text is not JSON, is not an
/// object, lacks the field, or the field is not an integer that fits `i64`.
pub uninterp spec fn json_i64_field(json: Seq<char>, key: Seq<char>) -> Option<i64>;

/// `serde_json::from_str::<Value>(json)`, then `.get(key)` and `.as_i64()`.
#[verifier::external_body]
pub(crate) fn read_json_i64_field(json: &str, key: &str) -> (r: Option<i64>)
    ensures
        r == json_i64_field(json@, key@),
{
    serde_json::from_str::<serde_json::Value>(json).ok()?.get(key)?.as_i64()
}

/// An item that failed during a run, kept for failure isolation.
#[derive(Debug, Clone)]
pub struct FailedItem {
    pub key: String,
    pub error: String,
}

/// A repository to ingest.
#[derive(Debug, Clone)]
pub struct RepoTarget {
    pub owner: String,
    pub repo: String,
}

/// Source platforms.
#[derive(Debug, Clone, PartialEq, Eq)]
pub enum Platform {
    Github,
    Jira,
    Discourse(String),
    Other(String),
}

/// Kinds of contribution.
#[derive(Debug, Clone, Copy, PartialEq, Eq, Structural)]
pub enum ContributionType {
    PullRequest,
    PrReview,
    JiraTicket,
    DiscourseTopic,
    DiscoursePost,
    DiscourseLike,
}

/// Which cursor field carries a source's watermark.
#[derive(Debug, Clone, Copy, PartialEq, Eq, Structural)]
pub enum WatermarkField {
    MaxUpdatedAt,
    MaxBumpedAt,
}

impl WatermarkField {
    pub open spec fn key(self) -> Seq<char> {
        match self {
            WatermarkField::MaxUpdatedAt => "max_updated_at"@,
            WatermarkField::MaxBumpedAt => "max_bumped_at"@,
        }
    }

    pub fn as_str(self) -> (r: &'static str)
        ensures
            r@ == self.key(),
    {
        match self {
            WatermarkField::MaxUpdatedAt => "max_updated_at",
            WatermarkField::MaxBumpedAt => "max_bumped_at",
        }
    }
}

} // verus!
