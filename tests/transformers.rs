use linkpedant::error::{ReplaceConfigError, ReplaceError};
use linkpedant::replace::amazon::{AmazonConfig, AmazonReplacer};
use linkpedant::replace::bsky::{BskyConfig, BskyReplacer};
use linkpedant::replace::instagram::{InstagramConfig, InstagramReplacer};
use linkpedant::replace::pixiv::{PixivConfig, PixivReplacer};
use linkpedant::replace::reddit::{RedditConfig, RedditReplacer};
use linkpedant::replace::reddit_media::RedditMediaReplacer;
use linkpedant::replace::tiktok::{TikTokConfig, TikTokReplacer};
use linkpedant::replace::twitter::{TwitterConfig, TwitterReplacer};
use linkpedant::replace::youtube::{YoutubeConfig, YoutubeReplacer};

type ReplaceResult<T> = Result<T, ReplaceError>;

fn create_amazon_replacer(shorten: bool) -> Result<AmazonReplacer, ReplaceConfigError> {
    AmazonReplacer::new(&AmazonConfig {
        shorten,
        ..Default::default()
    })
}

const AMAZON_URL: &str = "https://www.amazon.com/Gears-Wonderland-steampunk-fantasy-Anderson-ebook/dp/B005USJ5U8/ref=sr_1_1?ie=UTF8&qid=1491136398&sr=8-1&keywords=gears+of+wonderland";

#[test]
fn amazon_test_transform_url() -> ReplaceResult<()> {
    let test_replacer = create_amazon_replacer(false).unwrap();
    let expected = "https://www.amazon.com/dp/B005USJ5U8/";
    let result = test_replacer.transform_url(AMAZON_URL)?;
    assert_eq!(expected, result);
    Ok(())
}

#[test]
fn test_transform_to_shortened() -> ReplaceResult<()> {
    let test_replacer = create_amazon_replacer(true).unwrap();
    let expected = "https://amzn.com/dp/B005USJ5U8/";
    let result = test_replacer.transform_url(AMAZON_URL)?;
    assert_eq!(expected, result);
    Ok(())
}

#[test]
fn amazon_link_without_product_is_returned_as_is() {
    let test_replacer = create_amazon_replacer(true).unwrap();
    let url = "https://example.com/dp/";
    assert_eq!(test_replacer.transform_url(url).unwrap(), url);
}

#[test]
fn amazon_pattern_without_asin_group_reports_missing_group() {
    let replacer = AmazonReplacer::new(&AmazonConfig {
        regex: r"https?://(www\.)?amazon\.com/(?:[^\s]+/)?(dp/(?<other>\w+))/[^\s]+".to_string(),
        ..Default::default()
    })
    .unwrap();
    match replacer.transform_url(AMAZON_URL) {
        Err(ReplaceError::MissingGroup(g)) => assert_eq!(g, "asin"),
        other => panic!("unexpected {:?}", other),
    }
}

#[test]
fn amazon_invalid_pattern_is_a_config_error() {
    let r = AmazonReplacer::new(&AmazonConfig {
        regex: "(unclosed".to_string(),
        ..Default::default()
    });
    assert!(matches!(r, Err(ReplaceConfigError::Regex)));
}

#[test]
fn bsky_test_transform_url() -> ReplaceResult<()> {
    let test_replacer = BskyReplacer::new(BskyConfig::try_default().unwrap());
    let url = "https://bsky.app/profile/albertflasher.bsky.social/post/3ldpen4om622h";
    let expected = "https://bskyx.app/profile/albertflasher.bsky.social/post/3ldpen4om622h";
    let result = test_replacer.transform_url(url)?;
    assert_eq!(expected, result);
    Ok(())
}

#[test]
fn instagram_test_transform_url() -> ReplaceResult<()> {
    let test_replacer = InstagramReplacer::new(InstagramConfig::try_default().unwrap());
    let url = "https://www.instagram.com/reel/DCQBM9npSBK/?igsh=c2JxNzRidGk1bWhx";
    let expected = "https://ddinstagram.com/reel/DCQBM9npSBK/";
    let result = test_replacer.transform_url(url)?;
    assert_eq!(expected, result);
    Ok(())
}

#[test]
fn instagram_without_query_stripping_keeps_query() {
    let config = InstagramConfig::new(
        "ddinstagram.com".to_string(),
        linkpedant::replace::instagram::instagram_default_link_re_str(),
        linkpedant::replace::instagram::instagram_default_domain_re_str(),
        false,
    )
    .unwrap();
    let replacer = InstagramReplacer::new(config);
    let result = replacer
        .transform_url("https://www.instagram.com/reel/ABC123/?igsh=xyz")
        .unwrap();
    assert_eq!(result, "https://ddinstagram.com/reel/ABC123/?igsh=xyz");
}

#[test]
fn pixiv_test_transform_url() -> ReplaceResult<()> {
    let test_replacer = PixivReplacer::new(PixivConfig::try_default().unwrap());
    let url = "https://www.pixiv.net/en/artworks/125183260";
    let expected = "https://phixiv.net/en/artworks/125183260";
    let result = test_replacer.transform_url(url)?;
    assert_eq!(expected, result);
    Ok(())
}

#[test]
fn reddit_test_transform_url() -> ReplaceResult<()> {
    let test_replacer = RedditReplacer::new(RedditConfig::try_default().unwrap());
    let url = "https://www.reddit.com/r/Unexpected/comments/1hivblz/pro_tip_for_girls_to_get_home_safely_at_night/";
    let expected = "https://vxreddit.com/r/Unexpected/comments/1hivblz/pro_tip_for_girls_to_get_home_safely_at_night/";
    let result = test_replacer.transform_url(url)?;
    assert_eq!(expected, result);

    let url = "https://redd.it/6kq5hk";
    let expected = "https://vxreddit.com/6kq5hk";
    let result = test_replacer.transform_url(url)?;
    assert_eq!(expected, result);
    Ok(())
}

#[test]
fn reddit_media_test_transform_url() -> ReplaceResult<()> {
    let test_replacer = RedditMediaReplacer::new(None)?;
    let url = "https://www.reddit.com/media?url=https%3A%2F%2Fpreview.redd.it%2Ffor-those-who-try-to-have-a-main-in-each-class-who-are-your-v0-8uo8tgdfb08e1.jpeg%3Fwidth%3D640%26crop%3Dsmart%26auto%3Dwebp%26s%3Daff0061f8f21aec6bdb13a4811c8978ae2f5fd9c";
    let expected = "https://i.redd.it/for-those-who-try-to-have-a-main-in-each-class-who-are-your-v0-8uo8tgdfb08e1.jpeg";
    let result = test_replacer.transform_url(url)?;
    assert_eq!(expected, result);
    Ok(())
}

#[test]
fn reddit_media_non_media_target_is_only_decoded() {
    let replacer = RedditMediaReplacer::new(None).unwrap();
    let url = "https://www.reddit.com/media?url=https%3A%2F%2Fpreview.redd.it%2Fpage.html%3Fa%3D1";
    let result = replacer.transform_url(url).unwrap();
    assert_eq!(result, "https://preview.redd.it/page.html?a=1");
}

#[test]
fn reddit_media_last_url_parameter_wins() {
    let replacer = RedditMediaReplacer::new(None).unwrap();
    let url = "https://www.reddit.com/media?url=https%3A%2F%2Fexample.com%2Fa&url=https%3A%2F%2Fpreview.redd.it%2Fb.png%3Fx%3D1";
    let result = replacer.transform_url(url).unwrap();
    assert_eq!(result, "https://i.redd.it/b.png");
}

#[test]
fn reddit_media_without_parameter_reports_no_query_params() {
    let replacer = RedditMediaReplacer::new(None).unwrap();
    let r = replacer.transform_url("https://www.reddit.com/media?other=1");
    assert!(matches!(r, Err(ReplaceError::NoQueryParams)));
}

#[test]
fn reddit_media_bad_encoding_reports_decode_error() {
    let replacer = RedditMediaReplacer::new(None).unwrap();
    let r = replacer.transform_url("https://www.reddit.com/media?url=%25FF");
    assert!(matches!(r, Err(ReplaceError::Utf8Decode)));
}

#[test]
fn reddit_media_fixable_url_checks_the_path_extension() {
    let replacer = RedditMediaReplacer::new(None).unwrap();
    assert!(replacer.fixable_url("https://preview.redd.it/x.webp?s=1"));
    assert!(!replacer.fixable_url("https://preview.redd.it/x?auto=webp"));
    assert!(!replacer.fixable_url("not a url.png"));
}

#[test]
fn reddit_media_invalid_override_pattern_fails() {
    let r = RedditMediaReplacer::new(Some("(".to_string()));
    assert!(matches!(r, Err(ReplaceError::Config(ReplaceConfigError::Regex))));
}

#[test]
fn tiktok_test_transform_url() -> ReplaceResult<()> {
    let test_replacer = TikTokReplacer::new(TikTokConfig::try_default().unwrap());
    let url = "https://www.tiktok.com/t/ZTYXjHYeg/";
    let expected = "https://d.tnktok.com/t/ZTYXjHYeg/";
    let result = test_replacer.transform_url(url)?;
    assert_eq!(expected, result);
    Ok(())
}

#[test]
fn twitter_test_transform_url() -> ReplaceResult<()> {
    let test_replacer = TwitterReplacer::new(TwitterConfig::try_default().unwrap());
    let url = "https://x.com/PhillyD/status/1870093335936823564/";
    let expected = "https://fxtwitter.com/PhillyD/status/1870093335936823564/";
    let result = test_replacer.transform_url(url)?;
    assert_eq!(expected, result);
    Ok(())
}

#[test]
fn transform_of_unparsable_url_reports_url_error() {
    let replacer = TwitterReplacer::new(TwitterConfig::try_default().unwrap());
    assert!(matches!(replacer.transform_url("not a url"), Err(ReplaceError::Url)));
}

#[test]
fn transform_of_hostless_url_reports_missing_host() {
    let replacer = TwitterReplacer::new(TwitterConfig::try_default().unwrap());
    assert!(matches!(replacer.transform_url("mailto:someone@x.com"), Err(ReplaceError::UrlHost)));
}

fn create_youtube_replacer() -> YoutubeReplacer {
    YoutubeReplacer::new(YoutubeConfig::try_default().unwrap())
}

#[test]
fn test_transform_shorts_url() -> ReplaceResult<()> {
    let test_replacer = create_youtube_replacer();
    let url = "https://youtube.com/shorts/xFnfOdb35FI/";
    let expected = "https://youtu.be/xFnfOdb35FI/";
    let result = test_replacer.transform_url(url)?;
    assert_eq!(expected, result);
    Ok(())
}

#[test]
fn test_transform_normal_youtube_link() -> ReplaceResult<()> {
    let test_replacer = create_youtube_replacer();
    let url = "https://www.youtube.com/watch?v=Z5OUviAH2Yc/";
    let expected = "https://youtu.be/Z5OUviAH2Yc/";
    let result = test_replacer.transform_url(url)?;
    assert_eq!(expected, result);
    Ok(())
}

#[test]
fn test_transform_normal_youtube_link_extra_query_params() -> ReplaceResult<()> {
    let test_replacer = create_youtube_replacer();
    let url = "https://www.youtube.com/watch?some=field&v=Z5OUviAH2Yc/";
    let expected = "https://youtu.be/Z5OUviAH2Yc/";
    let result = test_replacer.transform_url(url)?;
    assert_eq!(expected, result);
    Ok(())
}

#[test]
fn test_transform_mobile_youtube_links() -> ReplaceResult<()> {
    let test_replacer = create_youtube_replacer();
    let url = "https://m.youtube.com/watch?v=Z5OUviAH2Yc/";
    let expected = "https://youtu.be/Z5OUviAH2Yc/";
    let result = test_replacer.transform_url(url)?;
    assert_eq!(expected, result);
    Ok(())
}

#[test]
fn youtube_first_video_parameter_wins() {
    let replacer = create_youtube_replacer();
    let result = replacer
        .transform_url("https://www.youtube.com/watch?v=first&v=second")
        .unwrap();
    assert_eq!(result, "https://youtu.be/first");
}

#[test]
fn youtube_watch_without_video_reports_no_query_params() {
    let replacer = create_youtube_replacer();
    let r = replacer.transform_url("https://www.youtube.com/watch?list=abc");
    assert!(matches!(r, Err(ReplaceError::NoQueryParams)));
}
