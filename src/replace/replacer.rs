//! The closed set of transformers, their mathematical model, and what one
//! transformer does to one candidate URL.
use vstd::prelude::*;
use vstd::string::*;
use vstd::utf8::*;

use crate::error::{outcome_view, ConfigFault, ReplaceConfigError, ReplaceError, ReplaceFault};
use crate::pattern::{find_regex, regex_find, Pattern};
use crate::replace::amazon::{amazon_rewrite, AmazonReplacer};
use crate::replace::base::{host_rewrite, LinkProcessor, ProcessorConfig};
use crate::replace::bsky::BskyReplacer;
use crate::replace::instagram::InstagramReplacer;
use crate::replace::pixiv::PixivReplacer;
use crate::replace::reddit::RedditReplacer;
use crate::replace::reddit_media::{media_rewrite, RedditMediaReplacer};
use crate::replace::tiktok::TikTokReplacer;
use crate::replace::twitter::TwitterReplacer;
use crate::replace::youtube::{youtube_rewrite, YoutubeReplacer};
use crate::text::{byte_slice, same_text, slice_by_bytes};

verus! {

broadcast use encode_utf8_valid_utf8;

/// What a transformer is, as far as its behaviour goes.
pub enum ReplacerModel {
    /// Media-viewer redirect, with its link pattern.
    MediaRedirect(Seq<char>),
    /// Marketplace links: link pattern, short domain, whether to shorten.
    Marketplace(Seq<char>, Seq<char>, bool),
    /// Host rewrite: new domain, link pattern, domain pattern, strip query.
    HostRewrite(Seq<char>, Seq<char>, Seq<char>, bool),
    /// Video links: new domain, link pattern, domain pattern, strip query.
    Video(Seq<char>, Seq<char>, Seq<char>, bool),
}

/// The pattern that finds the links a transformer handles.
pub open spec fn model_pattern(m: ReplacerModel) -> Seq<char> {
    match m {
        ReplacerModel::MediaRedirect(p) => p,
        ReplacerModel::Marketplace(p, _, _) => p,
        ReplacerModel::HostRewrite(_, p, _, _) => p,
        ReplacerModel::Video(_, p, _, _) => p,
    }
}

/// What a transformer makes of one link.
pub open spec fn model_rewrite(m: ReplacerModel, url: Seq<char>) -> Result<Seq<char>, ReplaceFault> {
    match m {
        ReplacerModel::MediaRedirect(_) => media_rewrite(url),
        ReplacerModel::Marketplace(p, d, s) => amazon_rewrite(p, d, s, url),
        ReplacerModel::HostRewrite(nd, _, dp, sq) => host_rewrite(nd, dp, sq, url),
        ReplacerModel::Video(nd, _, dp, sq) => youtube_rewrite(nd, dp, sq, url),
    }
}

/// The length in bytes of the UTF-8 encoding of `s`.
pub open spec fn byte_len(s: Seq<char>) -> int {
    encode_utf8(s).len() as int
}

/// What a transformer does to a candidate `url`: nothing (`Ok(None)`) when
/// its pattern does not match; otherwise the first match is transformed and
/// put in its place. A transformation that gives the match back unchanged is
/// reported as not modified.
pub open spec fn model_process(m: ReplacerModel, url: Seq<char>) -> Result<Option<Seq<char>>, ReplaceFault> {
    match regex_find(model_pattern(m), url) {
        None => Err(ReplaceFault::Config(ConfigFault::Regex)),
        Some(None) => Ok(None),
        Some(Some(span)) => {
            let found = byte_slice(url, span.0, span.1);
            match model_rewrite(m, found) {
                Err(f) => Err(f),
                Ok(new) => if new == found {
                    Err(ReplaceFault::UrlNotModified(new))
                } else {
                    Ok(Some(byte_slice(url, 0, span.0) + new + byte_slice(url, span.1, byte_len(url))))
                },
            }
        },
    }
}

pub open spec fn process_view(r: Result<Option<String>, ReplaceError>) -> Result<Option<Seq<char>>, ReplaceFault> {
    match r {
        Ok(Some(s)) => Ok(Some(s@)),
        Ok(None) => Ok(None),
        Err(e) => Err(e@),
    }
}

pub open spec fn host_model(c: ProcessorConfig) -> ReplacerModel {
    ReplacerModel::HostRewrite(c.new_domain@, c.link_regex@, c.domain_regex@, c.strip_query)
}

/// A transformer for one platform, or a custom one.
pub enum LinkReplacer {
    RedditMedia(RedditMediaReplacer),
    Amazon(AmazonReplacer),
    Bsky(BskyReplacer),
    Instagram(InstagramReplacer),
    Pixiv(PixivReplacer),
    Reddit(RedditReplacer),
    TikTok(TikTokReplacer),
    Twitter(TwitterReplacer),
    Youtube(YoutubeReplacer),
    Custom(LinkProcessor),
}

impl View for LinkReplacer {
    type V = ReplacerModel;

    open spec fn view(&self) -> ReplacerModel {
        match self {
            LinkReplacer::RedditMedia(r) => ReplacerModel::MediaRedirect(r.regex@),
            LinkReplacer::Amazon(a) => ReplacerModel::Marketplace(a.regex@, a.shorten_domain@, a.shorten),
            LinkReplacer::Bsky(b) => host_model(b.inner.config),
            LinkReplacer::Instagram(b) => host_model(b.inner.config),
            LinkReplacer::Pixiv(b) => host_model(b.inner.config),
            LinkReplacer::Reddit(b) => host_model(b.inner.config),
            LinkReplacer::TikTok(b) => host_model(b.inner.config),
            LinkReplacer::Twitter(b) => host_model(b.inner.config),
            LinkReplacer::Youtube(y) => ReplacerModel::Video(
                y.config.new_domain@,
                y.config.regex@,
                y.config.domain_regex@,
                y.config.strip_query,
            ),
            LinkReplacer::Custom(c) => host_model(c.config),
        }
    }
}

impl LinkReplacer {
    /// The pattern that finds this transformer's links.
    pub fn get_regex(&self) -> (r: &Pattern)
        ensures
            r@ == model_pattern(self@),
    {
        match self {
            LinkReplacer::RedditMedia(r) => r.get_regex(),
            LinkReplacer::Amazon(a) => a.get_regex(),
            LinkReplacer::Bsky(b) => b.get_regex(),
            LinkReplacer::Instagram(b) => b.get_regex(),
            LinkReplacer::Pixiv(b) => b.get_regex(),
            LinkReplacer::Reddit(b) => b.get_regex(),
            LinkReplacer::TikTok(b) => b.get_regex(),
            LinkReplacer::Twitter(b) => b.get_regex(),
            LinkReplacer::Youtube(y) => y.get_regex(),
            LinkReplacer::Custom(c) => c.get_regex(),
        }
    }

    /// Whether this transformer's pattern matches somewhere in `url`.
    pub fn is_match(&self, url: &str) -> (r: Result<bool, ReplaceError>)
        ensures
            match regex_find(model_pattern(self@), url@) {
                None => r matches Err(e) && e@ == ReplaceFault::Config(ConfigFault::Regex),
                Some(m) => r == Ok::<bool, ReplaceError>(m is Some),
            },
    {
        match find_regex(self.get_regex(), url) {
            Ok(m) => Ok(m.is_some()),
            Err(_) => Err(ReplaceError::Config(ReplaceConfigError::Regex)),
        }
    }

    /// Transforms one link.
    pub fn transform_url(&self, url: &str) -> (r: Result<String, ReplaceError>)
        ensures
            outcome_view(r) == model_rewrite(self@, url@),
    {
        match self {
            LinkReplacer::RedditMedia(r) => r.transform_url(url),
            LinkReplacer::Amazon(a) => a.transform_url(url),
            LinkReplacer::Bsky(b) => b.transform_url(url),
            LinkReplacer::Instagram(b) => b.transform_url(url),
            LinkReplacer::Pixiv(b) => b.transform_url(url),
            LinkReplacer::Reddit(b) => b.transform_url(url),
            LinkReplacer::TikTok(b) => b.transform_url(url),
            LinkReplacer::Twitter(b) => b.transform_url(url),
            LinkReplacer::Youtube(y) => y.transform_url(url),
            LinkReplacer::Custom(c) => c.transform_url(url),
        }
    }

    /// Rewrites the first link of this transformer's kind inside `url`.
    pub fn process_url(&self, url: &str) -> (r: Result<Option<String>, ReplaceError>)
        ensures
            process_view(r) == model_process(self@, url@),
    {
        let (start, end) = match find_regex(self.get_regex(), url) {
            Err(_) => return Err(ReplaceError::Config(ReplaceConfigError::Regex)),
            Ok(None) => return Ok(None),
            Ok(Some(span)) => span,
        };
        let found = slice_by_bytes(url, start, end);
        let new = match self.transform_url(found.as_str()) {
            Ok(n) => n,
            Err(e) => return Err(e),
        };
        if same_text(new.as_str(), found.as_str()) {
            return Err(ReplaceError::UrlNotModified(new));
        }
        proof {
            is_char_boundary_start_end_of_seq(encode_utf8(url@));
        }
        let mut out = slice_by_bytes(url, 0, start);
        out.append(new.as_str());
        let len = url.as_bytes().len();
        assert(len == encode_utf8(url@).len());
        let rest = slice_by_bytes(url, end, len);
        out.append(rest.as_str());
        Ok(Some(out))
    }
}

} // verus!
