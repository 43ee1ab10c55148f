//! TikTok links: the host rewrite with this platform's defaults.
use vstd::prelude::*;

use crate::config::{flag_or, text_or, LinkReplacerConfig};
use crate::error::{outcome_view, ConfigFault, ReplaceConfigError, ReplaceError};
use crate::pattern::{regex_compiles, Pattern};
use crate::replace::base::{LinkProcessor, ProcessorConfig};

verus! {

pub const TIKTOK_NEW_DOMAIN: &'static str = "d.tnktok.com";

pub const TIKTOK_LINK_RE_STR: &'static str = r"https?://(\w+\.)?tiktok\.com/((t/)?\w+|@[^\s]+/video)";

pub const TIKTOK_DOMAIN_RE_STR: &'static str = r"([w]{3}\.)?tiktok\.com";

pub const TIKTOK_STRIP_QUERY: bool = true;

pub fn tiktok_default_new_domain() -> (r: String)
    ensures
        r@ == TIKTOK_NEW_DOMAIN@,
{
    TIKTOK_NEW_DOMAIN.to_owned()
}

pub fn tiktok_default_link_re_str() -> (r: &'static str)
    ensures
        r@ == TIKTOK_LINK_RE_STR@,
{
    TIKTOK_LINK_RE_STR
}

pub fn tiktok_default_domain_re_str() -> (r: &'static str)
    ensures
        r@ == TIKTOK_DOMAIN_RE_STR@,
{
    TIKTOK_DOMAIN_RE_STR
}

pub fn tiktok_default_strip_query() -> (r: bool)
    ensures
        r == TIKTOK_STRIP_QUERY,
{
    TIKTOK_STRIP_QUERY
}

/// Host-rewrite parameters for TikTok links.
pub struct TikTokConfig {
    pub inner: ProcessorConfig,
}

impl TikTokConfig {
    pub fn new(new_domain: String, regex: &str, domain_regex: &str, strip_query: bool) -> (r: Result<
        Self,
        ReplaceConfigError,
    >)
        ensures
            r is Ok <==> regex_compiles(regex@) && regex_compiles(domain_regex@),
            r matches Ok(c) ==> {
                &&& c.inner.new_domain@ == new_domain@
                &&& c.inner.link_regex@ == regex@
                &&& c.inner.domain_regex@ == domain_regex@
                &&& c.inner.strip_query == strip_query
            },
            r matches Err(e) ==> e@ == ConfigFault::Regex,
    {
        match ProcessorConfig::new(new_domain, regex, domain_regex, strip_query) {
            Ok(inner) => Ok(TikTokConfig { inner }),
            Err(e) => Err(e),
        }
    }

    /// The overrides of `value` over this platform's defaults.
    pub fn try_from(value: &LinkReplacerConfig) -> (r: Result<Self, ReplaceConfigError>)
        ensures
            r is Ok <==> regex_compiles(text_or(value.regex, TIKTOK_LINK_RE_STR@)) && regex_compiles(
                text_or(value.domain_re, TIKTOK_DOMAIN_RE_STR@),
            ),
            r matches Ok(c) ==> {
                &&& c.inner.new_domain@ == text_or(value.new_domain, TIKTOK_NEW_DOMAIN@)
                &&& c.inner.link_regex@ == text_or(value.regex, TIKTOK_LINK_RE_STR@)
                &&& c.inner.domain_regex@ == text_or(value.domain_re, TIKTOK_DOMAIN_RE_STR@)
                &&& c.inner.strip_query == flag_or(value.strip_query, TIKTOK_STRIP_QUERY)
            },
            r matches Err(e) ==> e@ == ConfigFault::Regex,
    {
        let new_domain = match &value.new_domain {
            Some(d) => d.clone(),
            None => tiktok_default_new_domain(),
        };
        let regex: &str = match &value.regex {
            Some(s) => s.as_str(),
            None => tiktok_default_link_re_str(),
        };
        let domain_re: &str = match &value.domain_re {
            Some(s) => s.as_str(),
            None => tiktok_default_domain_re_str(),
        };
        let strip_query = match value.strip_query {
            Some(b) => b,
            None => tiktok_default_strip_query(),
        };
        Self::new(new_domain, regex, domain_re, strip_query)
    }

    /// This platform's defaults.
    pub fn try_default() -> (r: Result<Self, ReplaceConfigError>)
        ensures
            r is Ok <==> regex_compiles(TIKTOK_LINK_RE_STR@) && regex_compiles(TIKTOK_DOMAIN_RE_STR@),
            r matches Ok(c) ==> {
                &&& c.inner.new_domain@ == TIKTOK_NEW_DOMAIN@
                &&& c.inner.link_regex@ == TIKTOK_LINK_RE_STR@
                &&& c.inner.domain_regex@ == TIKTOK_DOMAIN_RE_STR@
                &&& c.inner.strip_query == TIKTOK_STRIP_QUERY
            },
    {
        Self::new(
            tiktok_default_new_domain(),
            tiktok_default_link_re_str(),
            tiktok_default_domain_re_str(),
            tiktok_default_strip_query(),
        )
    }

    pub fn as_ref(&self) -> (r: &ProcessorConfig)
        ensures
            *r == self.inner,
    {
        &self.inner
    }

    pub fn into_inner(self) -> (r: ProcessorConfig)
        ensures
            r == self.inner,
    {
        self.inner
    }
}

/// Rewrites TikTok links to the configured front-end domain.
pub struct TikTokReplacer {
    pub inner: LinkProcessor,
}

impl TikTokReplacer {
    pub fn new(config: TikTokConfig) -> (r: Self)
        ensures
            r.inner.config == config.inner,
    {
        TikTokReplacer { inner: LinkProcessor::new(config.into_inner()) }
    }

    pub fn get_regex(&self) -> (r: &Pattern)
        ensures
            r@ == self.inner.config.link_regex@,
    {
        self.inner.get_regex()
    }

    pub fn transform_url(&self, url: &str) -> (r: Result<String, ReplaceError>)
        ensures
            outcome_view(r) == self.inner.config.rewrite(url@),
    {
        self.inner.transform_url(url)
    }
}

} // verus!
