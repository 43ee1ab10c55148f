//! Building transformers from configuration: built-in platforms by name,
//! custom ones from complete entries.
use vstd::prelude::*;
use vstd::string::*;

use crate::config::{flag_or, text_or, LinkReplacerConfig, ReplacerConfig};
use crate::error::{ConfigFault, ReplaceConfigError};
use crate::pattern::regex_compiles;
use crate::replace::amazon::{AmazonConfig, AmazonReplacer};
use crate::replace::base::{LinkProcessor, ProcessorConfig};
use crate::replace::bsky::{BskyConfig, BskyReplacer, BSKY_DOMAIN_RE_STR, BSKY_LINK_RE_STR, BSKY_NEW_DOMAIN, BSKY_STRIP_QUERY};
use crate::replace::instagram::{
    InstagramConfig, InstagramReplacer, INSTAGRAM_DOMAIN_RE_STR, INSTAGRAM_LINK_RE_STR, INSTAGRAM_NEW_DOMAIN,
    INSTAGRAM_STRIP_QUERY,
};
use crate::replace::pixiv::{PixivConfig, PixivReplacer, PIXIV_DOMAIN_RE_STR, PIXIV_LINK_RE_STR, PIXIV_NEW_DOMAIN, PIXIV_STRIP_QUERY};
use crate::replace::reddit::{
    RedditConfig, RedditReplacer, REDDIT_DOMAIN_RE_STR, REDDIT_LINK_RE_STR, REDDIT_NEW_DOMAIN, REDDIT_STRIP_QUERY,
};
use crate::replace::reddit_media::{RedditMediaReplacer, REDDIT_MEDIA_LINK_RE_STR};
use crate::replace::replacer::{LinkReplacer, ReplacerModel};
use crate::replace::tiktok::{
    TikTokConfig, TikTokReplacer, TIKTOK_DOMAIN_RE_STR, TIKTOK_LINK_RE_STR, TIKTOK_NEW_DOMAIN, TIKTOK_STRIP_QUERY,
};
use crate::replace::twitter::{
    TwitterConfig, TwitterReplacer, TWITTER_DOMAIN_RE_STR, TWITTER_LINK_RE_STR, TWITTER_NEW_DOMAIN, TWITTER_STRIP_QUERY,
};
use crate::replace::youtube::{
    YoutubeConfig, YoutubeReplacer, YOUTUBE_DOMAIN_RE_STR, YOUTUBE_LINK_RE_STR, YOUTUBE_NEW_DOMAIN, YOUTUBE_STRIP_QUERY,
};
use crate::text::{eq_ignoring_ascii_case, same_text_ignoring_ascii_case};

verus! {

/// The built-in platforms that a configuration key can name.
#[derive(Debug, Clone, Copy, PartialEq, Eq, Structural)]
pub enum ReplacerType {
    Bsky,
    Instagram,
    Pixiv,
    Reddit,
    TikTok,
    Twitter,
    Youtube,
}

/// The platform that `name` denotes, with ASCII case ignored.
pub open spec fn replacer_type_named(name: Seq<char>) -> Option<ReplacerType> {
    if eq_ignoring_ascii_case(name, "bsky"@) {
        Some(ReplacerType::Bsky)
    } else if eq_ignoring_ascii_case(name, "instagram"@) {
        Some(ReplacerType::Instagram)
    } else if eq_ignoring_ascii_case(name, "pixiv"@) {
        Some(ReplacerType::Pixiv)
    } else if eq_ignoring_ascii_case(name, "reddit"@) {
        Some(ReplacerType::Reddit)
    } else if eq_ignoring_ascii_case(name, "tiktok"@) {
        Some(ReplacerType::TikTok)
    } else if eq_ignoring_ascii_case(name, "twitter"@) {
        Some(ReplacerType::Twitter)
    } else if eq_ignoring_ascii_case(name, "youtube"@) {
        Some(ReplacerType::Youtube)
    } else {
        None
    }
}

pub open spec fn default_new_domain(t: ReplacerType) -> Seq<char> {
    match t {
        ReplacerType::Bsky => BSKY_NEW_DOMAIN@,
        ReplacerType::Instagram => INSTAGRAM_NEW_DOMAIN@,
        ReplacerType::Pixiv => PIXIV_NEW_DOMAIN@,
        ReplacerType::Reddit => REDDIT_NEW_DOMAIN@,
        ReplacerType::TikTok => TIKTOK_NEW_DOMAIN@,
        ReplacerType::Twitter => TWITTER_NEW_DOMAIN@,
        ReplacerType::Youtube => YOUTUBE_NEW_DOMAIN@,
    }
}

pub open spec fn default_link_pattern(t: ReplacerType) -> Seq<char> {
    match t {
        ReplacerType::Bsky => BSKY_LINK_RE_STR@,
        ReplacerType::Instagram => INSTAGRAM_LINK_RE_STR@,
        ReplacerType::Pixiv => PIXIV_LINK_RE_STR@,
        ReplacerType::Reddit => REDDIT_LINK_RE_STR@,
        ReplacerType::TikTok => TIKTOK_LINK_RE_STR@,
        ReplacerType::Twitter => TWITTER_LINK_RE_STR@,
        ReplacerType::Youtube => YOUTUBE_LINK_RE_STR@,
    }
}

pub open spec fn default_domain_pattern(t: ReplacerType) -> Seq<char> {
    match t {
        ReplacerType::Bsky => BSKY_DOMAIN_RE_STR@,
        ReplacerType::Instagram => INSTAGRAM_DOMAIN_RE_STR@,
        ReplacerType::Pixiv => PIXIV_DOMAIN_RE_STR@,
        ReplacerType::Reddit => REDDIT_DOMAIN_RE_STR@,
        ReplacerType::TikTok => TIKTOK_DOMAIN_RE_STR@,
        ReplacerType::Twitter => TWITTER_DOMAIN_RE_STR@,
        ReplacerType::Youtube => YOUTUBE_DOMAIN_RE_STR@,
    }
}

pub open spec fn default_strip_query(t: ReplacerType) -> bool {
    match t {
        ReplacerType::Bsky => BSKY_STRIP_QUERY,
        ReplacerType::Instagram => INSTAGRAM_STRIP_QUERY,
        ReplacerType::Pixiv => PIXIV_STRIP_QUERY,
        ReplacerType::Reddit => REDDIT_STRIP_QUERY,
        ReplacerType::TikTok => TIKTOK_STRIP_QUERY,
        ReplacerType::Twitter => TWITTER_STRIP_QUERY,
        ReplacerType::Youtube => YOUTUBE_STRIP_QUERY,
    }
}

/// The transformer that platform `t` gets from the overrides `cfg`, or the
/// error when one of its patterns does not compile.
pub open spec fn platform_outcome(t: ReplacerType, cfg: LinkReplacerConfig) -> Result<ReplacerModel, ConfigFault> {
    let new_domain = text_or(cfg.new_domain, default_new_domain(t));
    let link = text_or(cfg.regex, default_link_pattern(t));
    let domain = text_or(cfg.domain_re, default_domain_pattern(t));
    let strip = flag_or(cfg.strip_query, default_strip_query(t));
    if !(regex_compiles(link) && regex_compiles(domain)) {
        Err(ConfigFault::Regex)
    } else if t == ReplacerType::Youtube {
        Ok(ReplacerModel::Video(new_domain, link, domain, strip))
    } else {
        Ok(ReplacerModel::HostRewrite(new_domain, link, domain, strip))
    }
}

/// The custom transformer that entry `cfg` under key `name` defines: all four
/// options must be given and both patterns must compile.
pub open spec fn custom_outcome(name: Seq<char>, cfg: LinkReplacerConfig) -> Result<ReplacerModel, ConfigFault> {
    match cfg.new_domain {
        None => Err(ConfigFault::InvalidReplacer(name)),
        Some(d) => match (cfg.regex, cfg.domain_re, cfg.strip_query) {
            (Some(link), Some(domain), Some(strip)) => if regex_compiles(link@) && regex_compiles(domain@) {
                Ok(ReplacerModel::HostRewrite(d@, link@, domain@, strip))
            } else {
                Err(ConfigFault::Regex)
            },
            _ => if cfg.regex is None {
                Err(ConfigFault::MissingOption("Link Regex"@))
            } else if cfg.domain_re is None {
                Err(ConfigFault::MissingOption("Domain Regex"@))
            } else {
                Err(ConfigFault::MissingOption("Strip Query"@))
            },
        },
    }
}

/// What one configuration entry yields.
pub open spec fn entry_outcome(name: Seq<char>, cfg: LinkReplacerConfig) -> Result<ReplacerModel, ConfigFault> {
    match replacer_type_named(name) {
        Some(t) => platform_outcome(t, cfg),
        None => custom_outcome(name, cfg),
    }
}

/// The transformers that the entries yield, in order, leaving out the
/// entries that fail.
pub open spec fn config_models(entries: Seq<(Seq<char>, LinkReplacerConfig)>) -> Seq<ReplacerModel>
    decreases entries.len(),
{
    if entries.len() == 0 {
        Seq::empty()
    } else {
        let rest = config_models(entries.drop_last());
        match entry_outcome(entries.last().0, entries.last().1) {
            Ok(m) => rest.push(m),
            Err(_) => rest,
        }
    }
}

/// The always-on transformers: media redirects and marketplace links, each
/// when its pattern compiles.
pub open spec fn builtin_models(media_re: Option<String>, amazon: AmazonConfig) -> Seq<ReplacerModel> {
    let media = text_or(media_re, REDDIT_MEDIA_LINK_RE_STR@);
    let first: Seq<ReplacerModel> = if regex_compiles(media) {
        seq![ReplacerModel::MediaRedirect(media)]
    } else {
        Seq::empty()
    };
    if regex_compiles(amazon.regex@) {
        first.push(ReplacerModel::Marketplace(amazon.regex@, amazon.shorten_domain@, amazon.shorten))
    } else {
        first
    }
}

proof fn lemma_config_models_concat(
    a: Seq<(Seq<char>, LinkReplacerConfig)>,
    b: Seq<(Seq<char>, LinkReplacerConfig)>,
)
    ensures
        config_models(a + b) == config_models(a) + config_models(b),
    decreases b.len(),
{
    if b.len() == 0 {
        assert(a + b =~= a);
        assert(config_models(a) + config_models(b) =~= config_models(a));
    } else {
        assert((a + b).drop_last() =~= a + b.drop_last());
        assert((a + b).last() == b.last());
        lemma_config_models_concat(a, b.drop_last());
        let rest = config_models(a) + config_models(b.drop_last());
        match entry_outcome(b.last().0, b.last().1) {
            Ok(m) => {
                assert(rest.push(m) =~= config_models(a) + config_models(b.drop_last()).push(m));
            },
            Err(_) => {},
        }
    }
}

/// A custom entry (one whose key names no built-in platform) that gives a
/// new domain and both patterns but no `strip_query` fails with the error
/// naming that option, and the transformers built from the configuration are
/// exactly those of the other entries.
pub proof fn lemma_missing_strip_query_isolated(entries: Seq<(Seq<char>, LinkReplacerConfig)>, i: int)
    requires
        0 <= i < entries.len(),
        replacer_type_named(entries[i].0) is None,
        entries[i].1.new_domain is Some,
        entries[i].1.regex is Some,
        entries[i].1.domain_re is Some,
        entries[i].1.strip_query is None,
    ensures
        entry_outcome(entries[i].0, entries[i].1) == Err::<ReplacerModel, ConfigFault>(
            ConfigFault::MissingOption("Strip Query"@),
        ),
        config_models(entries) == config_models(entries.subrange(0, i)) + config_models(
            entries.subrange(i + 1, entries.len() as int),
        ),
{
    let before = entries.subrange(0, i);
    let after = entries.subrange(i + 1, entries.len() as int);
    let failing = before.push(entries[i]);
    assert(failing.drop_last() =~= before);
    assert(entries =~= failing + after);
    lemma_config_models_concat(failing, after);
}

pub open spec fn build_view(r: Result<LinkReplacer, ReplaceConfigError>) -> Result<ReplacerModel, ConfigFault> {
    match r {
        Ok(x) => Ok(x@),
        Err(e) => Err(e@),
    }
}

impl ReplacerType {
    /// The platform that `name` denotes, with ASCII case ignored.
    pub fn from_str(name: &str) -> (r: Option<ReplacerType>)
        ensures
            r == replacer_type_named(name@),
    {
        if same_text_ignoring_ascii_case(name, "bsky") {
            Some(ReplacerType::Bsky)
        } else if same_text_ignoring_ascii_case(name, "instagram") {
            Some(ReplacerType::Instagram)
        } else if same_text_ignoring_ascii_case(name, "pixiv") {
            Some(ReplacerType::Pixiv)
        } else if same_text_ignoring_ascii_case(name, "reddit") {
            Some(ReplacerType::Reddit)
        } else if same_text_ignoring_ascii_case(name, "tiktok") {
            Some(ReplacerType::TikTok)
        } else if same_text_ignoring_ascii_case(name, "twitter") {
            Some(ReplacerType::Twitter)
        } else if same_text_ignoring_ascii_case(name, "youtube") {
            Some(ReplacerType::Youtube)
        } else {
            None
        }
    }

    /// This platform's transformer with the overrides of `config`.
    pub fn create_type(&self, config: &LinkReplacerConfig) -> (r: Result<LinkReplacer, ReplaceConfigError>)
        ensures
            build_view(r) == platform_outcome(*self, *config),
    {
        match self {
            ReplacerType::Bsky => match BskyConfig::try_from(config) {
                Ok(c) => Ok(LinkReplacer::Bsky(BskyReplacer::new(c))),
                Err(e) => Err(e),
            },
            ReplacerType::Instagram => match InstagramConfig::try_from(config) {
                Ok(c) => Ok(LinkReplacer::Instagram(InstagramReplacer::new(c))),
                Err(e) => Err(e),
            },
            ReplacerType::Pixiv => match PixivConfig::try_from(config) {
                Ok(c) => Ok(LinkReplacer::Pixiv(PixivReplacer::new(c))),
                Err(e) => Err(e),
            },
            ReplacerType::Reddit => match RedditConfig::try_from(config) {
                Ok(c) => Ok(LinkReplacer::Reddit(RedditReplacer::new(c))),
                Err(e) => Err(e),
            },
            ReplacerType::TikTok => match TikTokConfig::try_from(config) {
                Ok(c) => Ok(LinkReplacer::TikTok(TikTokReplacer::new(c))),
                Err(e) => Err(e),
            },
            ReplacerType::Twitter => match TwitterConfig::try_from(config) {
                Ok(c) => Ok(LinkReplacer::Twitter(TwitterReplacer::new(c))),
                Err(e) => Err(e),
            },
            ReplacerType::Youtube => match YoutubeConfig::try_from(config) {
                Ok(c) => Ok(LinkReplacer::Youtube(YoutubeReplacer::new(c))),
                Err(e) => Err(e),
            },
        }
    }
}

/// A custom transformer from an entry that gives all four options.
pub fn create_custom_replacer(name: &str, config: &LinkReplacerConfig) -> (r: Result<LinkReplacer, ReplaceConfigError>)
    ensures
        build_view(r) == custom_outcome(name@, *config),
{
    match &config.new_domain {
        None => Err(ReplaceConfigError::InvalidReplacer(name.to_owned())),
        Some(new_domain) => match (&config.regex, &config.domain_re, config.strip_query) {
            (Some(regex), Some(domain_re), Some(strip_query)) => {
                match ProcessorConfig::new(new_domain.clone(), regex.as_str(), domain_re.as_str(), strip_query) {
                    Ok(c) => Ok(LinkReplacer::Custom(LinkProcessor::new(c))),
                    Err(e) => Err(e),
                }
            },
            _ => if config.regex.is_none() {
                Err(ReplaceConfigError::MissingOption(String::from_str("Link Regex")))
            } else if config.domain_re.is_none() {
                Err(ReplaceConfigError::MissingOption(String::from_str("Domain Regex")))
            } else {
                Err(ReplaceConfigError::MissingOption(String::from_str("Strip Query")))
            },
        },
    }
}

/// The transformer for one configuration entry: a built-in platform when
/// `name` denotes one, else a custom transformer.
pub fn create_replacer(name: &str, config: &LinkReplacerConfig) -> (r: Result<LinkReplacer, ReplaceConfigError>)
    ensures
        build_view(r) == entry_outcome(name@, *config),
{
    match ReplacerType::from_str(name) {
        Some(t) => t.create_type(config),
        None => create_custom_replacer(name, config),
    }
}

/// All transformers, in order: the always-on ones, then one per
/// configuration entry that constructs. An entry that fails is skipped.
pub fn build_replacers(config: &ReplacerConfig, reddit_media_re: Option<String>, amazon_config: &AmazonConfig) -> (r:
    Vec<LinkReplacer>)
    ensures
        r@.map_values(|x: LinkReplacer| x@) == builtin_models(reddit_media_re, *amazon_config) + config_models(config@),
{
    let ghost media_re = reddit_media_re;
    let mut out: Vec<LinkReplacer> = Vec::new();
    match RedditMediaReplacer::new(reddit_media_re) {
        Ok(m) => out.push(LinkReplacer::RedditMedia(m)),
        Err(_) => {},
    }
    match AmazonReplacer::new(amazon_config) {
        Ok(a) => out.push(LinkReplacer::Amazon(a)),
        Err(_) => {},
    }
    let ghost base = builtin_models(media_re, *amazon_config);
    assert(out@.map_values(|x: LinkReplacer| x@) =~= base);
    let n = config.len();
    let mut i: usize = 0;
    assert(config@.subrange(0, 0) =~= Seq::<(Seq<char>, LinkReplacerConfig)>::empty());
    while i < n
        invariant
            n == config@.len(),
            i <= n,
            out@.map_values(|x: LinkReplacer| x@) == base + config_models(config@.subrange(0, i as int)),
        decreases n - i,
    {
        let (name, entry) = config.entry_at(i);
        let built = create_replacer(name.as_str(), entry);
        let ghost prefix = config@.subrange(0, i + 1);
        assert(prefix.drop_last() =~= config@.subrange(0, i as int));
        assert(prefix.last() == config@[i as int]);
        match built {
            Ok(x) => {
                let ghost before = out@;
                let ghost xm = x@;
                assert(config_models(prefix) == config_models(config@.subrange(0, i as int)).push(xm));
                out.push(x);
                assert(out@.map_values(|x: LinkReplacer| x@) =~= before.map_values(|x: LinkReplacer| x@).push(
                    xm,
                ));
                assert(out@.map_values(|x: LinkReplacer| x@) =~= base + config_models(prefix));
            },
            Err(_) => {},
        }
        i += 1;
    }
    assert(config@.subrange(0, n as int) =~= config@);
    out
}

} // verus!
