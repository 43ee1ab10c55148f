use linkpedant::config::{LinkReplacerConfig, ReplacerConfig};
use linkpedant::error::{ReplaceConfigError, ReplaceError};
use linkpedant::replace::amazon::AmazonConfig;
use linkpedant::replace::processor::MessageProcessor;
use linkpedant::replace::registry::{create_custom_replacer, create_replacer, ReplacerType};
use linkpedant::replace::replacer::LinkReplacer;

type ReplaceResult<T> = Result<T, ReplaceError>;

fn create_processor() -> ReplaceResult<MessageProcessor> {
    let mut config = ReplacerConfig::new();
    config.insert("tiktok".into(), LinkReplacerConfig::new("vxtiktok.com".into()));
    config.insert("youtube".into(), LinkReplacerConfig::new("youtu.be".into()));
    let processor = MessageProcessor::new(&config, None, &AmazonConfig::default()).unwrap();
    Ok(processor)
}

#[test]
fn test_unknown_link_types() -> ReplaceResult<()> {
    let processor = create_processor()?;
    let message = "Test message with [unknown link](https://example.com/v/Fsd6ZMcG0XN6OmOK) does not result in an error";

    let result = processor.process_message(message);
    assert!(result.is_ok());
    let result: Option<String> = result.unwrap();
    assert!(result.is_none());
    Ok(())
}

#[test]
fn message_without_links_gets_no_reply() {
    let processor = create_processor().unwrap();
    assert!(processor.process_message("").unwrap().is_none());
    assert!(processor
        .process_message("just some words, no links at all!")
        .unwrap()
        .is_none());
}

#[test]
fn rewritten_message_is_left_alone_the_second_time() {
    let processor = create_processor().unwrap();
    let message = "look ||https://youtube.com/shorts/xFnfOdb35FI/|| here";
    let first = processor.process_message(message).unwrap().unwrap();
    assert_eq!(first, "look ||https://youtu.be/xFnfOdb35FI/|| here");
    assert!(processor.process_message(&first).unwrap().is_none());
}

#[test]
fn instagram_link_inside_message_loses_its_query() {
    let mut config = ReplacerConfig::new();
    config.insert("instagram".into(), LinkReplacerConfig::default());
    let processor = MessageProcessor::new(&config, None, &AmazonConfig::default()).unwrap();
    let result = processor
        .process_message("see https://www.instagram.com/reel/ABC123/?igsh=xyz now")
        .unwrap();
    assert_eq!(result.unwrap(), "see https://ddinstagram.com/reel/ABC123/ now");
}

#[test]
fn two_platforms_in_one_message_are_both_rewritten() {
    let processor = create_processor().unwrap();
    let message = "a https://www.tiktok.com/t/ZTYX2qUvY/ b https://youtube.com/shorts/xFnfOdb35FI/ c";
    let result = processor.process_message(message).unwrap();
    assert_eq!(
        result.unwrap(),
        "a https://vxtiktok.com/t/ZTYX2qUvY/ b https://youtu.be/xFnfOdb35FI/ c"
    );
}

#[test]
fn unknown_link_leaves_message_unanswered() {
    let processor = create_processor().unwrap();
    let message = "a link to https://example.org/page?x=1 only";
    assert!(processor.process_message(message).unwrap().is_none());
}

#[test]
fn non_ascii_text_around_links_is_kept() {
    let processor = create_processor().unwrap();
    let message = "héllo ✨ https://youtube.com/shorts/abc/ ünd";
    let result = processor.process_message(message).unwrap();
    assert_eq!(result.unwrap(), "héllo ✨ https://youtu.be/abc/ ünd");
}

#[test]
fn marketplace_links_are_shortened_in_messages() {
    let config = ReplacerConfig::new();
    let amazon = AmazonConfig {
        shorten: true,
        ..Default::default()
    };
    let processor = MessageProcessor::new(&config, None, &amazon).unwrap();
    let message = "buy https://www.amazon.com/Some-Book/dp/B005USJ5U8/ref=sr_1_1?ie=UTF8 now";
    let result = processor.process_message(message).unwrap();
    assert_eq!(result.unwrap(), "buy https://amzn.com/dp/B005USJ5U8/ now");
}

#[test]
fn failing_transform_without_other_change_is_reported() {
    let processor = create_processor().unwrap();
    let message = "see https://www.youtube.com/watch?list=abc&x=y please";
    assert!(matches!(
        processor.process_message(message),
        Err(ReplaceError::NoQueryParams)
    ));
}

#[test]
fn successful_rewrite_takes_priority_over_a_failure() {
    let processor = create_processor().unwrap();
    let message = "https://www.youtube.com/watch?list=abc&x=y and https://youtube.com/shorts/q1/";
    let result = processor.process_message(message).unwrap();
    assert_eq!(
        result.unwrap(),
        "https://www.youtube.com/watch?list=abc&x=y and https://youtu.be/q1/"
    );
}

#[test]
fn platform_names_resolve_without_regard_to_case() {
    assert_eq!(ReplacerType::from_str("TikTok"), Some(ReplacerType::TikTok));
    assert_eq!(ReplacerType::from_str("YOUTUBE"), Some(ReplacerType::Youtube));
    assert_eq!(ReplacerType::from_str("bSkY"), Some(ReplacerType::Bsky));
    assert_eq!(ReplacerType::from_str("mastodon"), None);
}

fn custom_entry() -> LinkReplacerConfig {
    let mut c = LinkReplacerConfig::new("mirror.example".into());
    c.set_regex(r"https?://site\.example/[^\s]+".into())
        .set_domain_re(r"site\.example".into())
        .set_strip_query(true);
    c
}

#[test]
fn custom_entry_without_strip_query_names_the_missing_option() {
    let mut entry = LinkReplacerConfig::new("mirror.example".into());
    entry
        .set_regex(r"https?://site\.example/[^\s]+".into())
        .set_domain_re(r"site\.example".into());
    match create_custom_replacer("mysite", &entry) {
        Err(ReplaceConfigError::MissingOption(o)) => assert_eq!(o, "Strip Query"),
        _ => panic!("expected a missing option"),
    }
}

#[test]
fn custom_entry_errors_name_each_missing_field() {
    let mut no_regex = LinkReplacerConfig::new("m.example".into());
    no_regex.set_domain_re("x".into()).set_strip_query(true);
    match create_custom_replacer("c", &no_regex) {
        Err(ReplaceConfigError::MissingOption(o)) => assert_eq!(o, "Link Regex"),
        _ => panic!("expected a missing option"),
    }
    let mut no_domain = LinkReplacerConfig::new("m.example".into());
    no_domain.set_regex("x".into()).set_strip_query(true);
    match create_custom_replacer("c", &no_domain) {
        Err(ReplaceConfigError::MissingOption(o)) => assert_eq!(o, "Domain Regex"),
        _ => panic!("expected a missing option"),
    }
    let mut no_new_domain = LinkReplacerConfig::default();
    no_new_domain.set_regex("x".into()).set_domain_re("x".into()).set_strip_query(true);
    match create_custom_replacer("nameless", &no_new_domain) {
        Err(ReplaceConfigError::InvalidReplacer(n)) => assert_eq!(n, "nameless"),
        _ => panic!("expected an invalid replacer"),
    }
    let mut bad_regex = custom_entry();
    bad_regex.set_regex("(".into());
    assert!(matches!(
        create_custom_replacer("c", &bad_regex),
        Err(ReplaceConfigError::Regex)
    ));
}

#[test]
fn failing_entry_does_not_stop_the_others() {
    let mut config = ReplacerConfig::new();
    let mut broken = LinkReplacerConfig::new("mirror.example".into());
    broken.set_regex("x".into()).set_domain_re("x".into());
    config.insert("broken".into(), broken);
    config.insert("mysite".into(), custom_entry());
    let processor = MessageProcessor::new(&config, None, &AmazonConfig::default()).unwrap();
    let result = processor
        .process_message("go to https://site.example/page?track=1 now")
        .unwrap();
    assert_eq!(result.unwrap(), "go to https://mirror.example/page now");
}

#[test]
fn custom_entry_under_platform_name_overrides_defaults() {
    let mut entry = LinkReplacerConfig::new("fixupx.com".into());
    entry.set_strip_query(false);
    let replacer = create_replacer("Twitter", &entry).unwrap();
    assert!(matches!(replacer, LinkReplacer::Twitter(_)));
    let r = replacer
        .transform_url("https://x.com/user/status/1?s=20")
        .unwrap();
    assert_eq!(r, "https://fixupx.com/user/status/1?s=20");
}

#[test]
fn process_url_reports_unchanged_links() {
    let mut entry = custom_entry();
    entry.set_domain_re("nothing-here".into());
    let replacer = create_custom_replacer("same", &entry).unwrap();
    match replacer.process_url("https://site.example/a") {
        Err(ReplaceError::UrlNotModified(u)) => assert_eq!(u, "https://site.example/a"),
        other => panic!("unexpected {:?}", other.is_ok()),
    }
    assert!(replacer.process_url("https://other.example/a").unwrap().is_none());
    assert!(replacer.is_match("https://site.example/a").unwrap());
    assert!(!replacer.is_match("https://other.example/a").unwrap());
}
