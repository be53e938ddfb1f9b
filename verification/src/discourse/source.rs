//! The Discourse source adapter: its cursor, which topics a page yields,
//! the contribution records of topics, posts and likes, and how a page
//! moves the cursor.
use vstd::prelude::*;

use crate::discourse::client::{likes_spec, Post, PostActionUser, TopicSummary};
use crate::ingestion::contribution::{
    ContributionInput, DiscourseLikeData, DiscoursePostData, DiscourseTopicData, Metadata, Metrics,
};
use crate::model::{
    in_instant_range, parse_rfc3339, rfc3339_instant, ContributionType, FailedItem, Platform,
    RateLimitInfo, Timestamp, NANOS_PER_SECOND,
};
use crate::text::{
    dec_int, lex_le, lex_lt, owned, push_i64, push_str, str_le, str_lt, strip_prefix,
    strip_prefix_spec, string_from_range, to_chars, trim_end_len, trim_end_spec,
};

verus! {

broadcast use vstd::std_specs::hash::group_hash_axioms;

/// Days looked back when no watermark exists.
pub const DEFAULT_LOOKBACK_DAYS: i64 = 30;

/// Pages of `/latest.json` fetched at most per run.
pub const MAX_PAGES_PER_RUN: u32 = 50;

/// The Discourse source adapter.
pub struct DiscourseSource;

impl DiscourseSource {
    /// The source's name.
    pub fn name(&self) -> (r: &'static str)
        ensures
            r@ == "discourse"@,
    {
        "discourse"
    }
}

/// Position within a Discourse ingestion run.
#[derive(Debug, Clone)]
pub struct DiscourseCursor {
    /// Topics bumped at or before this instant are skipped.
    pub watermark: Option<String>,
    /// Page of `/latest.json` (0-indexed).
    pub page: u32,
    /// Categories to keep (empty keeps all).
    pub category_ids: Vec<i64>,
    pub category_index: usize,
    /// Topics with fewer posts are skipped.
    pub min_posts: i32,
    pub base_url: String,
    /// Instance name (`ubuntu` for `discourse-ubuntu`).
    pub instance: String,
    /// Latest `bumped_at` seen.
    pub max_bumped_at: Option<String>,
    pub has_more: bool,
    /// Category name by id, as fetched on the first page.
    pub category_map: std::collections::HashMap<i64, String>,
    pub failed_items: Vec<FailedItem>,
}

pub open spec fn opt_view(o: Option<String>) -> Option<Seq<char>> {
    match o {
        Some(s) => Some(s@),
        None => None,
    }
}

/// The instance of a source named `discourse-{instance}` (other names are
/// their own instance).
pub open spec fn instance_spec(name: Seq<char>) -> Seq<char> {
    match strip_prefix_spec(name, "discourse-"@) {
        Some(i) => i,
        None => name,
    }
}

pub fn extract_instance(source_name: &str) -> (r: String)
    ensures
        r@ == instance_spec(source_name@),
{
    match strip_prefix(source_name, "discourse-") {
        Some(i) => i,
        None => owned(source_name),
    }
}

/// The first cursor of a run, from the source's name and settings: base
/// URL without trailing slashes (empty when unset), categories, minimum
/// posts (0 when unset; `as i32`), and the plan's watermark.
pub fn initial_cursor(
    source_name: &str,
    base_url: &Option<String>,
    categories: Vec<i64>,
    min_posts: Option<i64>,
    watermark: Option<String>,
) -> (r: DiscourseCursor)
    ensures
        r.base_url@ == trim_end_spec(
            match base_url {
                Some(b) => b@,
                None => ""@,
            },
            '/',
        ),
        r.category_ids@ == categories@,
        r.category_index == 0,
        r.min_posts == (match min_posts {
            Some(m) => m,
            None => 0,
        }) as i32,
        r.instance@ == instance_spec(source_name@),
        opt_view(r.watermark) == opt_view(watermark),
        opt_view(r.max_bumped_at) == opt_view(watermark),
        r.page == 0,
        r.has_more,
        r.category_map@ == Map::<i64, String>::empty(),
        r.failed_items@.len() == 0,
{
    let raw = match base_url {
        Some(b) => b.clone(),
        None => String::new(),
    };
    proof {
        reveal_strlit("");
    }
    let v = to_chars(raw.as_str());
    let n = trim_end_len(&v, '/');
    let m: i64 = match min_posts {
        Some(m) => m,
        None => 0,
    };
    let max_bumped_at = match &watermark {
        Some(w) => Some(w.clone()),
        None => None,
    };
    DiscourseCursor {
        watermark,
        page: 0,
        category_ids: categories,
        category_index: 0,
        min_posts: m as i32,
        base_url: string_from_range(&v, 0, n),
        instance: extract_instance(source_name),
        max_bumped_at,
        has_more: true,
        category_map: std::collections::HashMap::new(),
        failed_items: Vec::new(),
    }
}

// ---------------------------------------------------------------------------
// Filtering a page of topics
// ---------------------------------------------------------------------------

/// When a topic was last bumped (its creation when never bumped).
pub open spec fn bumped_of(t: TopicSummary) -> Seq<char> {
    match t.bumped_at {
        Some(b) => b@,
        None => t.created_at@,
    }
}

/// A topic bumped at or before the watermark.
pub open spec fn older(t: TopicSummary, watermark: Option<Seq<char>>) -> bool {
    watermark matches Some(w) && lex_le(bumped_of(t), w)
}

/// The first topic older than the watermark that is not pinned: the page
/// is read up to it (pinned topics are listed first whatever their age).
pub open spec fn boundary(topics: Seq<TopicSummary>, watermark: Option<Seq<char>>) -> Option<int>
    decreases topics.len(),
{
    if topics.len() == 0 {
        None
    } else {
        match boundary(topics.drop_last(), watermark) {
            Some(i) => Some(i),
            None => if older(topics.last(), watermark) && !topics.last().pinned {
                Some(topics.len() - 1)
            } else {
                None
            },
        }
    }
}

/// The topics read before the boundary.
pub open spec fn scanned(topics: Seq<TopicSummary>, watermark: Option<Seq<char>>) -> Seq<TopicSummary> {
    match boundary(topics, watermark) {
        Some(i) => topics.take(i),
        None => topics,
    }
}

/// A topic kept: newer than the watermark, in a wanted category (when
/// categories are set; a topic without a category is then left out), with
/// enough posts.
pub open spec fn kept(t: TopicSummary, watermark: Option<Seq<char>>, cats: Seq<i64>, min_posts: i32) -> bool {
    &&& !older(t, watermark)
    &&& (cats.len() == 0 || (t.category_id matches Some(c) && cats.contains(c)))
    &&& t.posts_count >= min_posts
}

pub open spec fn kept_pred(watermark: Option<Seq<char>>, cats: Seq<i64>, min_posts: i32) -> spec_fn(TopicSummary) -> bool {
    |t: TopicSummary| kept(t, watermark, cats, min_posts)
}

/// Latest `bumped_at` after seeing `ts`.
pub open spec fn bumped_max(max: Option<Seq<char>>, ts: Seq<TopicSummary>) -> Option<Seq<char>>
    decreases ts.len(),
{
    if ts.len() == 0 {
        max
    } else {
        let m = bumped_max(max, ts.drop_last());
        let b = bumped_of(ts.last());
        match m {
            Some(c) => if lex_lt(c, b) {
                Some(b)
            } else {
                Some(c)
            },
            None => Some(b),
        }
    }
}

fn dup_opt(o: &Option<String>) -> (r: Option<String>)
    ensures
        r == *o,
{
    match o {
        Some(s) => Some(s.clone()),
        None => None,
    }
}

fn dup_topic(t: &TopicSummary) -> (r: TopicSummary)
    ensures
        r == *t,
{
    TopicSummary {
        id: t.id,
        title: t.title.clone(),
        slug: t.slug.clone(),
        posts_count: t.posts_count,
        views: t.views,
        category_id: t.category_id,
        created_at: t.created_at.clone(),
        bumped_at: dup_opt(&t.bumped_at),
        last_posted_at: dup_opt(&t.last_posted_at),
        pinned: t.pinned,
        has_accepted_answer: t.has_accepted_answer,
    }
}

fn contains_id(ids: &Vec<i64>, id: i64) -> (r: bool)
    ensures
        r == ids@.contains(id),
{
    let mut i: usize = 0;
    while i < ids.len()
        invariant
            i <= ids@.len(),
            forall|k: int| 0 <= k < i ==> ids@[k] != id,
        decreases ids.len() - i,
    {
        if ids[i] == id {
            return true;
        }
        i = i + 1;
    }
    false
}

/// Filters a page of topics by watermark, category and posts, and tracks
/// the latest `bumped_at` of the topics kept. Returns the topics kept and
/// whether the watermark was reached.
pub fn filter_topics(topics: &Vec<TopicSummary>, cur: &mut DiscourseCursor) -> (r: (Vec<TopicSummary>, bool))
    ensures
        ({
            let wm = opt_view(old(cur).watermark);
            let kp = kept_pred(wm, old(cur).category_ids@, old(cur).min_posts);
            &&& r.0@ == scanned(topics@, wm).filter(kp)
            &&& r.1 == boundary(topics@, wm) is Some
            &&& opt_view(final(cur).max_bumped_at) == bumped_max(
                opt_view(old(cur).max_bumped_at),
                scanned(topics@, wm).filter(kp),
            )
        }),
        final(cur).watermark == old(cur).watermark,
        final(cur).page == old(cur).page,
        final(cur).category_ids@ == old(cur).category_ids@,
        final(cur).min_posts == old(cur).min_posts,
        final(cur).base_url@ == old(cur).base_url@,
        final(cur).instance@ == old(cur).instance@,
        final(cur).has_more == old(cur).has_more,
        final(cur).category_map@ == old(cur).category_map@,
        final(cur).category_index == old(cur).category_index,
        final(cur).failed_items@ == old(cur).failed_items@,
{
    let ghost wm = opt_view(cur.watermark);
    let ghost kp = kept_pred(wm, cur.category_ids@, cur.min_posts);
    let ghost start = opt_view(cur.max_bumped_at);
    let mut out: Vec<TopicSummary> = Vec::new();
    let mut i: usize = 0;
    while i < topics.len()
        invariant
            i <= topics@.len(),
            wm == opt_view(cur.watermark),
            kp == kept_pred(wm, cur.category_ids@, cur.min_posts),
            boundary(topics@.take(i as int), wm) is None,
            out@ == topics@.take(i as int).filter(kp),
            opt_view(cur.max_bumped_at) == bumped_max(start, out@),
            cur.watermark == old(cur).watermark,
            cur.page == old(cur).page,
            cur.category_ids@ == old(cur).category_ids@,
            cur.min_posts == old(cur).min_posts,
            cur.base_url@ == old(cur).base_url@,
            cur.instance@ == old(cur).instance@,
            cur.has_more == old(cur).has_more,
            cur.category_index == old(cur).category_index,
            cur.failed_items@ == old(cur).failed_items@,
            cur.category_map@ == old(cur).category_map@,
            start == opt_view(old(cur).max_bumped_at),
        decreases topics.len() - i,
    {
        let t = &topics[i];
        proof {
            assert(topics@.take(i + 1).drop_last() =~= topics@.take(i as int));
            assert(topics@.take(i + 1) =~= topics@.take(i as int).push(*t));
            crate::seqs::lemma_filter_push(topics@.take(i as int), kp, *t);
        }
        let bumped: &String = match &t.bumped_at {
            Some(b) => b,
            None => &t.created_at,
        };
        let is_older = match &cur.watermark {
            Some(w) => str_le(bumped.as_str(), w.as_str()),
            None => false,
        };
        if is_older {
            if !t.pinned {
                proof {
                    lemma_boundary_at(topics@, wm, i as int);
                }
                return (out, true);
            }
        } else {
            let in_category = if cur.category_ids.len() == 0 {
                true
            } else {
                match t.category_id {
                    Some(c) => contains_id(&cur.category_ids, c),
                    None => false,
                }
            };
            if in_category && t.posts_count >= cur.min_posts {
                let ghost before = out@;
                let replace = match &cur.max_bumped_at {
                    Some(m) => str_lt(m.as_str(), bumped.as_str()),
                    None => true,
                };
                if replace {
                    cur.max_bumped_at = Some(bumped.clone());
                }
                out.push(dup_topic(t));
                proof {
                    assert(out@.drop_last() =~= before);
                }
            }
        }
        i = i + 1;
    }
    proof {
        assert(topics@.take(topics@.len() as int) =~= topics@);
    }
    (out, false)
}

proof fn lemma_boundary_at(topics: Seq<TopicSummary>, wm: Option<Seq<char>>, i: int)
    requires
        0 <= i < topics.len(),
        boundary(topics.take(i), wm) is None,
        older(topics[i], wm),
        !topics[i].pinned,
    ensures
        boundary(topics, wm) == Some(i),
        scanned(topics, wm) == topics.take(i),
    decreases topics.len() - i,
{
    lemma_boundary_prefix(topics, wm, i + 1);
    assert(topics.take(i + 1).drop_last() =~= topics.take(i));
}

proof fn lemma_boundary_prefix(topics: Seq<TopicSummary>, wm: Option<Seq<char>>, n: int)
    requires
        0 <= n <= topics.len(),
        boundary(topics.take(n), wm) is Some,
    ensures
        boundary(topics, wm) == boundary(topics.take(n), wm),
    decreases topics.len() - n,
{
    if n < topics.len() {
        assert(topics.take(n + 1).drop_last() =~= topics.take(n));
        lemma_boundary_prefix(topics, wm, n + 1);
    } else {
        assert(topics.take(n) =~= topics);
    }
}

// ---------------------------------------------------------------------------
// Contribution records
// ---------------------------------------------------------------------------

/// The instant of a Discourse date-time, `now` when it does not parse.
pub open spec fn instant_or(s: Seq<char>, now: int) -> int {
    match rfc3339_instant(s) {
        Some(t) => t,
        None => now,
    }
}

/// The instant of an optional date-time, `None` when absent or unparsable.
pub open spec fn opt_instant(s: Option<String>) -> Option<int> {
    match s {
        Some(x) => rfc3339_instant(x@),
        None => None,
    }
}

fn instant_or_now(s: &str, now: Timestamp) -> (r: Timestamp)
    ensures
        r as int == instant_or(s@, now as int),
{
    match parse_rfc3339(s) {
        Some(t) => t,
        None => now,
    }
}

fn opt_instant_exec(s: &Option<String>) -> (r: Option<Timestamp>)
    ensures
        match r {
            Some(t) => opt_instant(*s) == Some(t as int),
            None => opt_instant(*s) is None,
        },
{
    match s {
        Some(x) => parse_rfc3339(x.as_str()),
        None => None,
    }
}

/// `{base}/t/{slug}/{id}`.
pub open spec fn topic_url(base: Seq<char>, t: TopicSummary) -> Seq<char> {
    base + "/t/"@ + t.slug@ + "/"@ + dec_int(t.id as int)
}

/// `{base}/t/{slug}/{id}/{post_number}`.
pub open spec fn post_url(base: Seq<char>, t: TopicSummary, post_number: i32) -> Seq<char> {
    topic_url(base, t) + "/"@ + dec_int(post_number as int)
}

fn topic_url_exec(base: &str, t: &TopicSummary) -> (r: String)
    ensures
        r@ == topic_url(base@, *t),
{
    let mut u = owned(base);
    push_str(&mut u, "/t/");
    push_str(&mut u, t.slug.as_str());
    push_str(&mut u, "/");
    push_i64(&mut u, t.id);
    u
}

fn post_url_exec(base: &str, t: &TopicSummary, post_number: i32) -> (r: String)
    ensures
        r@ == post_url(base@, *t, post_number),
{
    let mut u = topic_url_exec(base, t);
    push_str(&mut u, "/");
    push_i64(&mut u, post_number as i64);
    u
}

/// The record of a topic. Its author is not in the topic list: it is left
/// empty and set from the topic's first post.
pub fn build_topic_input(topic: &TopicSummary, cur: &DiscourseCursor, category_name: Option<String>, now: Timestamp) -> (r:
    ContributionInput)
    ensures
        r.platform == Platform::Discourse(cur.instance),
        r.contribution_type == ContributionType::DiscourseTopic,
        r.platform_id@ == dec_int(topic.id as int),
        r.platform_username@.len() == 0,
        r.title matches Some(t) && t@ == topic.title@,
        r.url matches Some(u) && u@ == topic_url(cur.base_url@, *topic),
        r.state is None,
        r.created_at as int == instant_or(topic.created_at@, now as int),
        match r.updated_at {
            Some(t) => opt_instant(topic.bumped_at) == Some(t as int),
            None => opt_instant(topic.bumped_at) is None,
        },
        r.closed_at is None,
        r.metrics matches Metrics::Topic(d) && d.post_count == topic.posts_count && d.views == topic.views
            && d.category == category_name && d.solved == topic.has_accepted_answer,
        r.metadata == (Metadata::Topic { category_id: topic.category_id }),
        r.content is None,
        r.state_history is None,
        r.enrichment_content is None,
{
    ContributionInput {
        platform: Platform::Discourse(cur.instance.clone()),
        contribution_type: ContributionType::DiscourseTopic,
        platform_id: crate::text::i64_to_string(topic.id),
        platform_username: String::new(),
        title: Some(topic.title.clone()),
        url: Some(topic_url_exec(cur.base_url.as_str(), topic)),
        state: None,
        created_at: instant_or_now(topic.created_at.as_str(), now),
        updated_at: opt_instant_exec(&topic.bumped_at),
        closed_at: None,
        metrics: Metrics::Topic(
            DiscourseTopicData {
                post_count: topic.posts_count,
                views: topic.views,
                category: category_name,
                solved: topic.has_accepted_answer,
            },
        ),
        metadata: Metadata::Topic { category_id: topic.category_id },
        content: None,
        state_history: None,
        enrichment_content: None,
    }
}

/// The record of a post.
pub fn build_post_input(post: &Post, topic: &TopicSummary, cur: &DiscourseCursor, now: Timestamp) -> (r:
    ContributionInput)
    ensures
        r.platform == Platform::Discourse(cur.instance),
        r.contribution_type == ContributionType::DiscoursePost,
        r.platform_id@ == dec_int(post.id as int),
        r.platform_username@ == post.username@,
        r.title matches Some(t) && t@ == topic.title@,
        r.url matches Some(u) && u@ == post_url(cur.base_url@, *topic, post.post_number),
        r.state is None,
        r.created_at as int == instant_or(post.created_at@, now as int),
        match r.updated_at {
            Some(t) => opt_instant(post.updated_at) == Some(t as int),
            None => opt_instant(post.updated_at) is None,
        },
        r.closed_at is None,
        r.metrics == Metrics::Post(
            DiscoursePostData {
                topic_id: post.topic_id,
                reply_count: post.reply_count,
                likes: likes_spec(*post),
                post_number: post.post_number,
                reply_to_post_number: post.reply_to_post_number,
                is_reply: post.reply_to_post_number is Some,
            },
        ),
        r.metadata matches Metadata::Post { topic_id, topic_title, post_number, username, display_name }
            && topic_id == post.topic_id && topic_title@ == topic.title@ && post_number == post.post_number
            && username@ == post.username@ && display_name == post.name,
        r.content == post.raw,
        r.state_history is None,
        r.enrichment_content is None,
{
    ContributionInput {
        platform: Platform::Discourse(cur.instance.clone()),
        contribution_type: ContributionType::DiscoursePost,
        platform_id: crate::text::i64_to_string(post.id),
        platform_username: post.username.clone(),
        title: Some(topic.title.clone()),
        url: Some(post_url_exec(cur.base_url.as_str(), topic, post.post_number)),
        state: None,
        created_at: instant_or_now(post.created_at.as_str(), now),
        updated_at: opt_instant_exec(&post.updated_at),
        closed_at: None,
        metrics: Metrics::Post(
            DiscoursePostData {
                topic_id: post.topic_id,
                reply_count: post.reply_count,
                likes: post.likes(),
                post_number: post.post_number,
                reply_to_post_number: post.reply_to_post_number,
                is_reply: post.reply_to_post_number.is_some(),
            },
        ),
        metadata: Metadata::Post {
            topic_id: post.topic_id,
            topic_title: topic.title.clone(),
            post_number: post.post_number,
            username: post.username.clone(),
            display_name: dup_opt(&post.name),
        },
        content: dup_opt(&post.raw),
        state_history: None,
        enrichment_content: None,
    }
}

/// `like-{post id}-{username}`.
pub open spec fn like_id(post_id: i64, username: Seq<char>) -> Seq<char> {
    "like-"@ + dec_int(post_id as int) + "-"@ + username
}

/// The record of a like of a post.
pub fn build_like_input(liker: &PostActionUser, post: &Post, topic: &TopicSummary, cur: &DiscourseCursor, now: Timestamp) -> (r:
    ContributionInput)
    ensures
        r.platform == Platform::Discourse(cur.instance),
        r.contribution_type == ContributionType::DiscourseLike,
        r.platform_id@ == like_id(post.id, liker.username@),
        r.platform_username@ == liker.username@,
        r.title matches Some(t) && t@ == topic.title@,
        r.url matches Some(u) && u@ == post_url(cur.base_url@, *topic, post.post_number),
        r.state is None,
        r.created_at as int == instant_or(post.created_at@, now as int),
        r.updated_at is None,
        r.closed_at is None,
        r.metrics matches Metrics::Like(d) && d.post_id == post.id && d.topic_id == post.topic_id
            && d.post_number == post.post_number && d.post_author == Some(post.username),
        r.metadata matches Metadata::Like {
            post_author,
            topic_id,
            topic_title,
            post_number,
            username,
            display_name,
        } && post_author@ == post.username@ && topic_id == post.topic_id && topic_title@ == topic.title@
            && post_number == post.post_number && username@ == liker.username@ && display_name == liker.name,
        r.content is None,
        r.state_history is None,
        r.enrichment_content is None,
{
    let mut id = owned("like-");
    push_i64(&mut id, post.id);
    push_str(&mut id, "-");
    push_str(&mut id, liker.username.as_str());
    ContributionInput {
        platform: Platform::Discourse(cur.instance.clone()),
        contribution_type: ContributionType::DiscourseLike,
        platform_id: id,
        platform_username: liker.username.clone(),
        title: Some(topic.title.clone()),
        url: Some(post_url_exec(cur.base_url.as_str(), topic, post.post_number)),
        state: None,
        created_at: instant_or_now(post.created_at.as_str(), now),
        updated_at: None,
        closed_at: None,
        metrics: Metrics::Like(
            DiscourseLikeData {
                post_id: post.id,
                topic_id: post.topic_id,
                post_number: post.post_number,
                post_author: Some(post.username.clone()),
            },
        ),
        metadata: Metadata::Like {
            post_author: post.username.clone(),
            topic_id: post.topic_id,
            topic_title: topic.title.clone(),
            post_number: post.post_number,
            username: liker.username.clone(),
            display_name: dup_opt(&liker.name),
        },
        content: None,
        state_history: None,
        enrichment_content: None,
    }
}

/// Username of the first post numbered 1 (the topic's creator).
pub open spec fn creator_of(posts: Seq<Post>) -> Option<Seq<char>>
    decreases posts.len(),
{
    if posts.len() == 0 {
        None
    } else if posts[0].post_number == 1 {
        Some(posts[0].username@)
    } else {
        creator_of(posts.drop_first())
    }
}

pub fn topic_creator(posts: &Vec<Post>) -> (r: Option<String>)
    ensures
        opt_view(r) == creator_of(posts@),
{
    let mut i: usize = 0;
    proof {
        assert(posts@.subrange(0, posts@.len() as int) =~= posts@);
    }
    while i < posts.len()
        invariant
            i <= posts@.len(),
            creator_of(posts@) == creator_of(posts@.subrange(i as int, posts@.len() as int)),
        decreases posts.len() - i,
    {
        let ghost rest = posts@.subrange(i as int, posts@.len() as int);
        proof {
            assert(rest.drop_first() =~= posts@.subrange(i + 1, posts@.len() as int));
            assert(rest[0] == posts@[i as int]);
        }
        if posts[i].post_number == 1 {
            return Some(posts[i].username.clone());
        }
        i = i + 1;
    }
    None
}

/// The posts whose likers are fetched: those with likes.
pub open spec fn likeable(posts: Seq<Post>) -> Seq<Post> {
    posts.filter(|p: Post| likes_spec(p) > 0)
}

pub fn likeable_post_indices(posts: &Vec<Post>) -> (r: Vec<usize>)
    ensures
        r@.len() == likeable(posts@).len(),
        forall|k: int| 0 <= k < r@.len() ==> #[trigger] r@[k] < posts@.len() && posts@[r@[k] as int] == likeable(posts@)[k],
{
    let ghost pred = |p: Post| likes_spec(p) > 0;
    let mut out: Vec<usize> = Vec::new();
    let mut i: usize = 0;
    while i < posts.len()
        invariant
            i <= posts@.len(),
            pred == (|p: Post| likes_spec(p) > 0),
            out@.len() == posts@.take(i as int).filter(pred).len(),
            forall|k: int| 0 <= k < out@.len() ==> #[trigger] out@[k] < i && posts@[out@[k] as int] == posts@.take(i as int).filter(pred)[k],
        decreases posts.len() - i,
    {
        proof {
            assert(posts@.take(i + 1) =~= posts@.take(i as int).push(posts@[i as int]));
            crate::seqs::lemma_filter_push(posts@.take(i as int), pred, posts@[i as int]);
        }
        if posts[i].likes() > 0 {
            out.push(i);
        }
        i = i + 1;
    }
    proof {
        assert(posts@.take(posts@.len() as int) =~= posts@);
    }
    out
}

// ---------------------------------------------------------------------------
// Moving through pages
// ---------------------------------------------------------------------------

/// Categories are fetched once, on the first page.
pub fn needs_category_map(cur: &DiscourseCursor) -> (r: bool)
    ensures
        r == (cur.page == 0 && cur.category_map@.len() == 0),
{
    cur.page == 0 && cur.category_map.len() == 0
}

/// The name of a category, when the map has its id.
pub fn category_name(cur: &DiscourseCursor, category_id: Option<i64>) -> (r: Option<String>)
    ensures
        opt_view(r) == match category_id {
            Some(id) => if cur.category_map@.contains_key(id) {
                Some(cur.category_map@[id]@)
            } else {
                None
            },
            None => None,
        },
{
    let id = match category_id {
        Some(id) => id,
        None => return None,
    };
    match cur.category_map.get(&id) {
        Some(name) => Some(name.clone()),
        None => None,
    }
}

/// Ends a page: the run stops at the watermark, when the forum has no more
/// pages, or after the last page allowed; otherwise the cursor moves to the
/// next page. Returns whether there is a next page to fetch.
pub fn advance_page(cur: &mut DiscourseCursor, reached_watermark: bool, has_more_pages: bool) -> (r: bool)
    ensures
        r == !(reached_watermark || !has_more_pages || old(cur).page >= MAX_PAGES_PER_RUN),
        r ==> final(cur).page == old(cur).page + 1 && final(cur).has_more == has_more_pages,
        !r ==> final(cur).page == old(cur).page && final(cur).has_more == old(cur).has_more,
        opt_view(final(cur).max_bumped_at) == opt_view(old(cur).max_bumped_at),
        final(cur).watermark == old(cur).watermark,
        final(cur).category_ids@ == old(cur).category_ids@,
        final(cur).category_map@ == old(cur).category_map@,
        final(cur).category_index == old(cur).category_index,
        final(cur).min_posts == old(cur).min_posts,
        final(cur).base_url@ == old(cur).base_url@,
        final(cur).instance@ == old(cur).instance@,
        final(cur).failed_items@ == old(cur).failed_items@,
{
    let stop = reached_watermark || !has_more_pages || cur.page >= MAX_PAGES_PER_RUN;
    if stop {
        false
    } else {
        cur.page = cur.page + 1;
        cur.has_more = has_more_pages;
        true
    }
}

/// The rate limit reported when the forum answers 429: nothing left, no
/// limit known, resetting after the wait it asked for.
pub fn rate_limited(retry_after_secs: u64, now: Timestamp) -> (r: RateLimitInfo)
    requires
        in_instant_range(now as int),
        retry_after_secs <= i64::MAX,
        in_instant_range(now + retry_after_secs * NANOS_PER_SECOND),
    ensures
        r.remaining == 0,
        r.limit == 0,
        r.reset_at == now + retry_after_secs * NANOS_PER_SECOND,
{
    let secs: i128 = retry_after_secs as i128;
    RateLimitInfo { remaining: 0, limit: 0, reset_at: now + secs * NANOS_PER_SECOND }
}

} // verus!
