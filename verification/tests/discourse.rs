use ps_workers::discourse::client::{
    connection_message, find_user_by_email, rate_limit_wait, AboutInfo, ActionSummary, AdminUser,
    DiscourseClientSettings, Post, PostActionUser, TopicSummary,
};
use ps_workers::discourse::source::{
    advance_page, build_like_input, build_post_input, build_topic_input, category_name,
    extract_instance, filter_topics, initial_cursor, likeable_post_indices, needs_category_map,
    rate_limited, topic_creator,
};
use ps_workers::ingestion::contribution::{Metadata, Metrics};
use ps_workers::model::{ContributionType, Platform};

fn post(id: i64, number: i32, like_count: Option<i32>, actions: Vec<(i32, i32)>) -> Post {
    Post {
        id,
        topic_id: 10,
        username: format!("user{id}"),
        name: None,
        post_number: number,
        reply_count: 0,
        like_count,
        actions_summary: actions.into_iter().map(|(id, count)| ActionSummary { id, count }).collect(),
        created_at: "2025-01-02T00:00:00Z".into(),
        updated_at: None,
        raw: Some("hello".into()),
        reply_to_post_number: if number > 1 { Some(1) } else { None },
    }
}

fn topic(id: i64, bumped: Option<&str>, pinned: bool, category: Option<i64>, posts: i32) -> TopicSummary {
    TopicSummary {
        id,
        title: format!("Topic {id}"),
        slug: format!("topic-{id}"),
        posts_count: posts,
        views: 3,
        category_id: category,
        created_at: "2024-12-01T00:00:00Z".into(),
        bumped_at: bumped.map(String::from),
        last_posted_at: None,
        pinned,
        has_accepted_answer: false,
    }
}

#[test]
fn likes_prefer_present_like_count() {
    assert_eq!(post(1, 1, Some(3), vec![(2, 9)]).likes(), 3);
    assert_eq!(post(1, 1, None, vec![(1, 4), (2, 7)]).likes(), 7);
    assert_eq!(post(1, 1, Some(0), vec![(2, 5)]).likes(), 0);
    assert_eq!(post(1, 1, None, vec![(3, 5)]).likes(), 0);
}

#[test]
fn instance_names() {
    assert_eq!(extract_instance("discourse-ubuntu"), "ubuntu");
    assert_eq!(extract_instance("forum"), "forum");
}

#[test]
fn client_settings_and_rate_limits() {
    let s = DiscourseClientSettings::new("https://discourse.example.com//", "", "");
    assert_eq!(s.base_url, "https://discourse.example.com");
    assert_eq!(s.api_username, "system");
    assert!(s.auth_headers().is_none());
    let s = DiscourseClientSettings::new("https://d.example.com", "key", "bot");
    assert_eq!(s.auth_headers(), Some(("key".into(), "bot".into())));
    assert_eq!(rate_limit_wait(429, &Some("30".into())), Some(30));
    assert_eq!(rate_limit_wait(429, &Some("soon".into())), Some(60));
    assert_eq!(rate_limit_wait(429, &None), Some(60));
    assert_eq!(rate_limit_wait(200, &Some("30".into())), None);
    assert_eq!(
        connection_message(&AboutInfo { title: Some("Ubuntu".into()), version: None }),
        "Connected to Ubuntu (Discourse unknown)"
    );
}

#[test]
fn admin_users_match_by_email_ignoring_case() {
    let users = vec![
        AdminUser { username: "a".into(), email: None },
        AdminUser { username: "b".into(), email: Some("Bob@Example.com".into()) },
    ];
    assert_eq!(find_user_by_email(&users, "bob@example.COM"), Some("b".into()));
    assert_eq!(find_user_by_email(&users, "carol@example.com"), None);
}

#[test]
fn topics_filtered_by_watermark_category_and_posts() {
    let mut cur = initial_cursor("discourse-ubuntu", &Some("https://d.example.com/".into()), vec![5], Some(2), Some("2025-01-01T00:00:00Z".into()));
    assert_eq!(cur.base_url, "https://d.example.com");
    assert_eq!(cur.instance, "ubuntu");
    assert!(needs_category_map(&cur));
    let topics = vec![
        topic(1, Some("2024-06-01T00:00:00Z"), true, Some(5), 9),
        topic(2, Some("2025-02-01T00:00:00Z"), false, Some(5), 4),
        topic(3, Some("2025-02-02T00:00:00Z"), false, Some(6), 4),
        topic(4, Some("2025-02-03T00:00:00Z"), false, Some(5), 1),
        topic(5, Some("2025-03-01T00:00:00Z"), false, None, 9),
        topic(6, Some("2024-12-31T00:00:00Z"), false, Some(5), 9),
        topic(7, Some("2025-04-01T00:00:00Z"), false, Some(5), 9),
    ];
    let (kept, reached) = filter_topics(&topics, &mut cur);
    assert!(reached);
    assert_eq!(kept.iter().map(|t| t.id).collect::<Vec<_>>(), vec![2]);
    assert_eq!(cur.max_bumped_at.as_deref(), Some("2025-02-01T00:00:00Z"));
    assert!(!advance_page(&mut cur, reached, true));
    assert_eq!(cur.page, 0);
}

#[test]
fn pages_advance_until_the_limit() {
    let mut cur = initial_cursor("discourse-x", &None, vec![], None, None);
    assert!(advance_page(&mut cur, false, true));
    assert_eq!(cur.page, 1);
    assert!(!advance_page(&mut cur, false, false));
    cur.page = 50;
    assert!(!advance_page(&mut cur, false, true));
    cur.category_map = std::collections::HashMap::from([(5, "Support".into()), (5, "Help".into())]);
    assert_eq!(category_name(&cur, Some(5)).as_deref(), Some("Help"));
    assert_eq!(category_name(&cur, Some(6)), None);
    assert_eq!(category_name(&cur, None), None);
    let rl = rate_limited(30, 0);
    assert_eq!((rl.remaining, rl.limit, rl.reset_at), (0, 0, 30_000_000_000));
}

#[test]
fn discourse_records() {
    let cur = initial_cursor("discourse-ubuntu", &Some("https://d.example.com".into()), vec![], None, None);
    let t = topic(42, Some("2025-02-01T00:00:00Z"), false, Some(5), 3);
    let r = build_topic_input(&t, &cur, Some("Support".into()), 77);
    assert_eq!(r.platform, Platform::Discourse("ubuntu".into()));
    assert_eq!(r.contribution_type, ContributionType::DiscourseTopic);
    assert_eq!(r.platform_id, "42");
    assert_eq!(r.url.as_deref(), Some("https://d.example.com/t/topic-42/42"));
    assert_eq!(r.platform_username, "");
    assert!(r.updated_at.is_some());
    match &r.metrics {
        Metrics::Topic(d) => assert_eq!(d.category.as_deref(), Some("Support")),
        _ => panic!("topic metrics expected"),
    }

    let p = post(100, 2, Some(1), vec![]);
    let r = build_post_input(&p, &t, &cur, 77);
    assert_eq!(r.platform_id, "100");
    assert_eq!(r.url.as_deref(), Some("https://d.example.com/t/topic-42/42/2"));
    match &r.metrics {
        Metrics::Post(d) => {
            assert_eq!(d.likes, 1);
            assert!(d.is_reply);
        }
        _ => panic!("post metrics expected"),
    }

    let liker = PostActionUser { id: 1, username: "fan".into(), name: Some("Fan".into()) };
    let r = build_like_input(&liker, &p, &t, &cur, 77);
    assert_eq!(r.platform_id, "like-100-fan");
    assert_eq!(r.platform_username, "fan");
    match &r.metadata {
        Metadata::Like { post_author, .. } => assert_eq!(post_author, "user100"),
        _ => panic!("like metadata expected"),
    }

    let mut bad = post(5, 1, None, vec![]);
    bad.created_at = "yesterday".into();
    assert_eq!(build_post_input(&bad, &t, &cur, 77).created_at, 77);
}

#[test]
fn topic_creator_and_likeable_posts() {
    let posts = vec![post(1, 2, Some(0), vec![]), post(2, 1, Some(4), vec![]), post(3, 3, None, vec![(2, 1)])];
    assert_eq!(topic_creator(&posts), Some("user2".into()));
    assert_eq!(likeable_post_indices(&posts), vec![1, 2]);
    assert_eq!(topic_creator(&vec![]), None);
}
