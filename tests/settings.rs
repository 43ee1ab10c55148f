use linkpedant::config::{create_default_config, Config, DeleteReplyReaction, HttpConfig, LinkReplacerConfig, ReplacerConfig};
use linkpedant::replace::amazon::AmazonConfig;
use linkpedant::replace::bsky::{
    bsky_default_domain_re_str, bsky_default_link_re_str, bsky_default_new_domain, bsky_default_strip_query,
};
use linkpedant::replace::instagram::{
    instagram_default_domain_re_str, instagram_default_link_re_str, instagram_default_new_domain, instagram_default_strip_query,
};
use linkpedant::replace::pixiv::{
    pixiv_default_domain_re_str, pixiv_default_link_re_str, pixiv_default_new_domain, pixiv_default_strip_query,
};
use linkpedant::replace::reddit::{
    reddit_default_domain_re_str, reddit_default_link_re_str, reddit_default_new_domain, reddit_default_strip_query,
};
use linkpedant::replace::tiktok::{
    tiktok_default_domain_re_str, tiktok_default_link_re_str, tiktok_default_new_domain, tiktok_default_strip_query,
};
use linkpedant::replace::twitter::{
    twitter_default_domain_re_str, twitter_default_link_re_str, twitter_default_new_domain, twitter_default_strip_query,
};
use linkpedant::replace::youtube::{
    youtube_default_domain_re_str, youtube_default_link_re_str, youtube_default_new_domain, youtube_default_strip_query,
};
use linkpedant::status::{check_delete_request, BotStatus, ReactionRejection};
use linkpedant::text::{contains, replace_all};

fn config_with(replacers: ReplacerConfig) -> Config {
    Config {
        token: "SECRET-REDACTED".to_string(),
        http: HttpConfig::default(),
        amazon: AmazonConfig::default(),
        reddit_media_regex: None,
        delete_reply_reaction: DeleteReplyReaction::default(),
        replacers,
    }
}

#[test]
fn default_entries_are_added_after_configured_ones() {
    let mut replacers = ReplacerConfig::new();
    replacers.insert("tiktok".into(), LinkReplacerConfig::new("vxtiktok.com".into()));
    replacers.insert("custom".into(), LinkReplacerConfig::new("c.example".into()));
    let config = create_default_config(config_with(replacers));
    let keys: Vec<String> = (0..config.replacers.len())
        .map(|i| config.replacers.entry_at(i).0.clone())
        .collect();
    assert_eq!(
        keys,
        vec!["tiktok", "custom", "instagram", "pixiv", "reddit", "twitter", "youtube", "bsky"]
    );
    assert_eq!(
        config.replacers.get("tiktok").unwrap().new_domain.as_deref(),
        Some("vxtiktok.com")
    );
    assert!(config.replacers.get("bsky").unwrap().new_domain.is_none());
}

#[test]
fn insert_replaces_the_value_under_an_existing_key() {
    let mut replacers = ReplacerConfig::new();
    assert!(replacers.insert("a".into(), LinkReplacerConfig::new("one".into())).is_none());
    let old = replacers.insert("a".into(), LinkReplacerConfig::new("two".into()));
    assert_eq!(old.unwrap().new_domain.as_deref(), Some("one"));
    assert_eq!(replacers.len(), 1);
    assert!(replacers.contains_key("a"));
    assert!(!replacers.contains_key("A"));
}

#[test]
fn builder_setters_fill_their_fields() {
    let mut c = LinkReplacerConfig::new("d".into());
    c.set_regex("r".into()).set_domain_re("dr".into()).set_strip_query(false);
    assert_eq!(c.new_domain.as_deref(), Some("d"));
    assert_eq!(c.regex.as_deref(), Some("r"));
    assert_eq!(c.domain_re.as_deref(), Some("dr"));
    assert_eq!(c.strip_query, Some(false));
}

#[test]
fn service_defaults() {
    let http = HttpConfig::default();
    assert_eq!(http.host, "127.0.0.1");
    assert_eq!(http.port, 3000);
    assert_eq!(DeleteReplyReaction::default().as_ref(), "\u{274c}");
    assert_eq!(DeleteReplyReaction::new("x".into()).as_ref(), "x");
    let amazon = AmazonConfig::default();
    assert_eq!(amazon.shorten_domain, "amzn.com");
    assert!(!amazon.shorten);
}

#[test]
fn platform_defaults() {
    assert_eq!(bsky_default_new_domain(), "bskyx.app");
    assert_eq!(bsky_default_domain_re_str(), r"bsky\.app");
    assert!(bsky_default_strip_query());
    assert!(bsky_default_link_re_str().starts_with("https?://bsky"));
    assert_eq!(instagram_default_new_domain(), "ddinstagram.com");
    assert_eq!(instagram_default_domain_re_str(), r"(\w+\.)?(instagram\.com)");
    assert!(instagram_default_strip_query());
    assert!(instagram_default_link_re_str().contains("instagram"));
    assert_eq!(pixiv_default_new_domain(), "phixiv.net");
    assert_eq!(pixiv_default_domain_re_str(), r"(\w+\.)?(pixiv\.net)");
    assert!(!pixiv_default_strip_query());
    assert!(pixiv_default_link_re_str().contains("pixiv"));
    assert_eq!(reddit_default_new_domain(), "vxreddit.com");
    assert_eq!(reddit_default_domain_re_str(), r"(((\w+\.)?reddit\.com)|(redd\.it))");
    assert!(reddit_default_strip_query());
    assert!(reddit_default_link_re_str().contains("redd"));
    assert_eq!(tiktok_default_new_domain(), "d.tnktok.com");
    assert_eq!(tiktok_default_domain_re_str(), r"([w]{3}\.)?tiktok\.com");
    assert!(tiktok_default_strip_query());
    assert!(tiktok_default_link_re_str().contains("tiktok"));
    assert_eq!(twitter_default_new_domain(), "fxtwitter.com");
    assert_eq!(twitter_default_domain_re_str(), r"(x|twitter)\.com");
    assert!(twitter_default_strip_query());
    assert!(twitter_default_link_re_str().contains("status"));
    assert_eq!(youtube_default_new_domain(), "youtu.be");
    assert_eq!(youtube_default_domain_re_str(), r"((www|m)\.)?(youtube\.com/(shorts/|watch\?v=))");
    assert!(youtube_default_strip_query());
    assert!(youtube_default_link_re_str().contains("shorts"));
}

#[test]
fn health_replies_follow_the_status() {
    assert_eq!(BotStatus::Starting.health_reply(), (500, "Starting"));
    assert_eq!(BotStatus::Ready.health_reply(), (200, "Healthy"));
    assert_eq!(BotStatus::from_code(BotStatus::Ready.code()), BotStatus::Ready);
    assert_eq!(BotStatus::from_code(BotStatus::Starting.code()), BotStatus::Starting);
}

#[test]
fn delete_requests_are_checked_in_order() {
    assert_eq!(check_delete_request(false, true, Some(true)), Err(ReactionRejection::NotMyMessage));
    assert_eq!(check_delete_request(true, false, Some(true)), Err(ReactionRejection::InvalidEmoji));
    assert_eq!(check_delete_request(true, true, None), Err(ReactionRejection::NoReply));
    assert_eq!(check_delete_request(true, true, Some(false)), Err(ReactionRejection::NotOriginalAuthor));
    assert_eq!(check_delete_request(true, true, Some(true)), Ok(()));
}

#[test]
fn text_helpers() {
    assert!(contains("https://www.youtube.com/watch?v=1", "watch"));
    assert!(!contains("https://youtube.com/shorts/1", "watch"));
    assert!(contains("abc", ""));
    assert_eq!(replace_all("a//preview.b//preview.c", "//preview.", "//i."), "a//i.b//i.c");
    assert_eq!(replace_all("aaa", "aa", "b"), "ba");
}
