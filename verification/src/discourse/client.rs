//! Data of the Discourse REST API and the decisions of its client that do
//! not need the network: settings, rate limiting, like counts, and user
//! matching.
use vstd::prelude::*;

use crate::text::{owned, parse_u64, parse_u64_spec, push_str, trim_end_len, trim_end_spec, string_from_range, to_chars, str_eq};

verus! {

/// `/latest.json`.
#[derive(Debug, Clone)]
pub struct LatestResponse {
    pub topic_list: TopicList,
}

#[derive(Debug, Clone)]
pub struct TopicList {
    pub topics: Vec<TopicSummary>,
    /// Present when there are more pages.
    pub more_topics_url: Option<String>,
}

/// Topic metadata from `/latest.json`.
#[derive(Debug, Clone)]
pub struct TopicSummary {
    pub id: i64,
    pub title: String,
    pub slug: String,
    pub posts_count: i32,
    pub views: i32,
    pub category_id: Option<i64>,
    pub created_at: String,
    pub bumped_at: Option<String>,
    pub last_posted_at: Option<String>,
    pub pinned: bool,
    pub has_accepted_answer: bool,
}

/// `/t/{id}.json`.
#[derive(Debug, Clone)]
pub struct TopicDetailResponse {
    pub id: i64,
    pub title: String,
    pub slug: String,
    pub posts_count: i32,
    pub views: i32,
    pub category_id: Option<i64>,
    pub created_at: String,
    pub bumped_at: Option<String>,
    pub has_accepted_answer: bool,
    pub post_stream: Option<PostStream>,
}

#[derive(Debug, Clone)]
pub struct PostStream {
    pub posts: Vec<Post>,
}

/// Per-action counts of a post (action type 2 is a like).
#[derive(Debug, Clone, Copy, PartialEq, Eq, Structural)]
pub struct ActionSummary {
    pub id: i32,
    pub count: i32,
}

/// A post within a topic.
#[derive(Debug, Clone)]
pub struct Post {
    pub id: i64,
    pub topic_id: i64,
    pub username: String,
    pub name: Option<String>,
    pub post_number: i32,
    pub reply_count: i32,
    pub like_count: Option<i32>,
    pub actions_summary: Vec<ActionSummary>,
    pub created_at: String,
    pub updated_at: Option<String>,
    pub raw: Option<String>,
    /// The post number this post replies to.
    pub reply_to_post_number: Option<i32>,
}

/// Count of the first action summary of type 2, if any.
pub open spec fn first_like_summary(s: Seq<ActionSummary>) -> Option<i32>
    decreases s.len(),
{
    if s.len() == 0 {
        None
    } else if s[0].id == 2 {
        Some(s[0].count)
    } else {
        first_like_summary(s.drop_first())
    }
}

/// Effective like count: `like_count` whenever it is present, else the
/// count of the first like action summary, else 0.
pub open spec fn likes_spec(p: Post) -> i32 {
    match p.like_count {
        Some(c) => c,
        None => match first_like_summary(p.actions_summary@) {
            Some(n) => n,
            None => 0,
        },
    }
}

impl Post {
    /// Effective like count: `like_count` when it is present, otherwise the
    /// like count of `actions_summary` (some instances report
    /// `like_count: null`).
    pub fn likes(&self) -> (r: i32)
        ensures
            r == likes_spec(*self),
    {
        if let Some(c) = self.like_count {
            return c;
        }
        let mut i: usize = 0;
        proof {
            assert(self.actions_summary@.subrange(0, self.actions_summary@.len() as int) =~= self.actions_summary@);
        }
        while i < self.actions_summary.len()
            invariant
                i <= self.actions_summary@.len(),
                self.like_count is None,
                first_like_summary(self.actions_summary@) == first_like_summary(
                    self.actions_summary@.subrange(i as int, self.actions_summary@.len() as int),
                ),
            decreases self.actions_summary.len() - i,
        {
            let ghost rest = self.actions_summary@.subrange(i as int, self.actions_summary@.len() as int);
            proof {
                assert(rest.drop_first() =~= self.actions_summary@.subrange(
                    i + 1,
                    self.actions_summary@.len() as int,
                ));
            }
            if self.actions_summary[i].id == 2 {
                proof {
                    assert(rest[0] == self.actions_summary@[i as int]);
                }
                return self.actions_summary[i].count;
            }
            i = i + 1;
        }
        0
    }
}

/// `/post_action_users.json`.
#[derive(Debug, Clone)]
pub struct PostActionUsersResponse {
    pub post_action_users: Vec<PostActionUser>,
}

/// A user who acted on a post (liked it).
#[derive(Debug, Clone)]
pub struct PostActionUser {
    pub id: i64,
    pub username: String,
    pub name: Option<String>,
}

/// `/categories.json`.
#[derive(Debug, Clone)]
pub struct CategoriesResponse {
    pub category_list: CategoryList,
}

#[derive(Debug, Clone)]
pub struct CategoryList {
    pub categories: Vec<Category>,
}

#[derive(Debug, Clone)]
pub struct Category {
    pub id: i64,
    pub name: String,
    pub slug: String,
}

/// `/about.json`.
#[derive(Debug, Clone)]
pub struct AboutResponse {
    pub about: AboutInfo,
}

#[derive(Debug, Clone)]
pub struct AboutInfo {
    pub title: Option<String>,
    pub version: Option<String>,
}

/// A user of the admin API.
#[derive(Debug, Clone)]
pub struct AdminUser {
    pub username: String,
    pub email: Option<String>,
}

/// Settings of a Discourse client.
#[derive(Debug, Clone)]
pub struct DiscourseClientSettings {
    /// Base URL without trailing slashes.
    pub base_url: String,
    pub api_key: String,
    /// `system` when none is configured.
    pub api_username: String,
}

impl DiscourseClientSettings {
    /// Settings of a client: trailing slashes of the base URL removed, the
    /// username `system` when empty.
    pub fn new(base_url: &str, api_key: &str, api_username: &str) -> (r: DiscourseClientSettings)
        ensures
            r.base_url@ == trim_end_spec(base_url@, '/'),
            r.api_key@ == api_key@,
            r.api_username@ == if api_username@.len() == 0 {
                "system"@
            } else {
                api_username@
            },
    {
        let v = to_chars(base_url);
        let n = trim_end_len(&v, '/');
        DiscourseClientSettings {
            base_url: string_from_range(&v, 0, n),
            api_key: owned(api_key),
            api_username: if api_username.is_empty() {
                owned("system")
            } else {
                owned(api_username)
            },
        }
    }

    /// The `Api-Key` and `Api-Username` headers, sent only when an API key
    /// is configured (public endpoints work without one).
    pub fn auth_headers(&self) -> (r: Option<(String, String)>)
        ensures
            self.api_key@.len() == 0 ==> r is None,
            self.api_key@.len() > 0 ==> (r matches Some((k, u)) && k@ == self.api_key@ && u@
                == self.api_username@),
    {
        if self.api_key.as_str().is_empty() {
            None
        } else {
            Some((self.api_key.clone(), self.api_username.clone()))
        }
    }
}

/// The wait a 429 response asks for: its `retry-after` header as whole
/// seconds, 60 when absent or not a number. Other statuses are no rate
/// limit.
pub open spec fn retry_after_spec(status: u16, retry_after: Option<Seq<char>>) -> Option<u64> {
    if status == 429 {
        Some(
            match retry_after {
                Some(h) => match parse_u64_spec(h) {
                    Some(n) => n,
                    None => 60,
                },
                None => 60,
            },
        )
    } else {
        None
    }
}

pub fn rate_limit_wait(status: u16, retry_after: &Option<String>) -> (r: Option<u64>)
    ensures
        r == retry_after_spec(
            status,
            match retry_after {
                Some(h) => Some(h@),
                None => None,
            },
        ),
{
    if status != 429 {
        return None;
    }
    Some(
        match retry_after {
            Some(h) => match parse_u64(h.as_str()) {
                Some(n) => n,
                None => 60,
            },
            None => 60,
        },
    )
}

/// `Connected to {title} (Discourse {version})`, `unknown` for what the
/// instance does not say.
pub fn connection_message(about: &AboutInfo) -> (r: String)
    ensures
        r@ == "Connected to "@ + match about.title {
            Some(t) => t@,
            None => "unknown"@,
        } + " (Discourse "@ + match about.version {
            Some(v) => v@,
            None => "unknown"@,
        } + ")"@,
{
    let mut m = owned("Connected to ");
    match &about.title {
        Some(t) => push_str(&mut m, t.as_str()),
        None => push_str(&mut m, "unknown"),
    }
    push_str(&mut m, " (Discourse ");
    match &about.version {
        Some(v) => push_str(&mut m, v.as_str()),
        None => push_str(&mut m, "unknown"),
    }
    push_str(&mut m, ")");
    m
}

/// The lower case of a string, as `str::to_lowercase` maps it (Unicode).
pub uninterp spec fn unicode_lowercase(s: Seq<char>) -> Seq<char>;

/// `str::to_lowercase`.
#[verifier::external_body]
pub(crate) fn to_lowercase(s: &str) -> (r: String)
    ensures
        r@ == unicode_lowercase(s@),
{
    s.to_lowercase()
}

/// A user whose e-mail matches, ignoring case.
pub open spec fn email_matches(u: AdminUser, email: Seq<char>) -> bool {
    u.email matches Some(e) && unicode_lowercase(e@) == unicode_lowercase(email)
}

/// The username of the first user whose e-mail matches `email` ignoring
/// case.
pub fn find_user_by_email(users: &Vec<AdminUser>, email: &str) -> (r: Option<String>)
    ensures
        match r {
            Some(name) => exists|i: int|
                0 <= i < users@.len() && email_matches(#[trigger] users@[i], email@) && users@[i].username@
                    == name@ && forall|j: int| 0 <= j < i ==> !email_matches(#[trigger] users@[j], email@),
            None => forall|i: int| 0 <= i < users@.len() ==> !email_matches(#[trigger] users@[i], email@),
        },
{
    let wanted = to_lowercase(email);
    let mut i: usize = 0;
    while i < users.len()
        invariant
            i <= users@.len(),
            wanted@ == unicode_lowercase(email@),
            forall|j: int| 0 <= j < i ==> !email_matches(#[trigger] users@[j], email@),
        decreases users.len() - i,
    {
        let found = match &users[i].email {
            Some(e) => {
                let l = to_lowercase(e.as_str());
                str_eq(l.as_str(), wanted.as_str())
            },
            None => false,
        };
        if found {
            proof {
                assert(email_matches(users@[i as int], email@));
            }
            return Some(users[i].username.clone());
        }
        i = i + 1;
    }
    None
}

} // verus!
