//! Pixiv links: the host rewrite with this platform's defaults.
use vstd::prelude::*;

use crate::config::{flag_or, text_or, LinkReplacerConfig};
use crate::error::{outcome_view, ConfigFault, ReplaceConfigError, ReplaceError};
use crate::pattern::{regex_compiles, Pattern};
use crate::replace::base::{LinkProcessor, ProcessorConfig};

verus! {

pub const PIXIV_NEW_DOMAIN: &'static str = "phixiv.net";

pub const PIXIV_LINK_RE_STR: &'static str = r"https?://(\w+\.)?pixiv\.net/(\w+/)?(artworks|member_illust\.php)(/|\?illust_id=)\d+(/?\d+)?[^\s]+";

pub const PIXIV_DOMAIN_RE_STR: &'static str = r"(\w+\.)?(pixiv\.net)";

pub const PIXIV_STRIP_QUERY: bool = false;

pub fn pixiv_default_new_domain() -> (r: String)
    ensures
        r@ == PIXIV_NEW_DOMAIN@,
{
    PIXIV_NEW_DOMAIN.to_owned()
}

pub fn pixiv_default_link_re_str() -> (r: &'static str)
    ensures
        r@ == PIXIV_LINK_RE_STR@,
{
    PIXIV_LINK_RE_STR
}

pub fn pixiv_default_domain_re_str() -> (r: &'static str)
    ensures
        r@ == PIXIV_DOMAIN_RE_STR@,
{
    PIXIV_DOMAIN_RE_STR
}

pub fn pixiv_default_strip_query() -> (r: bool)
    ensures
        r == PIXIV_STRIP_QUERY,
{
    PIXIV_STRIP_QUERY
}

/// Host-rewrite parameters for Pixiv links.
pub struct PixivConfig {
    pub inner: ProcessorConfig,
}

impl PixivConfig {
    pub fn new(new_domain: String, regex: &str, domain_regex: &str, strip_query: bool) -> (r: Result<
        Self,
        ReplaceConfigError,
    >)
        ensures
            r is Ok <==> regex_compiles(regex@) && regex_compiles(domain_regex@),
            r matches Ok(c) ==> {
                &&& c.inner.new_domain@ == new_domain@
                &&& c.inner.link_regex@ == regex@
                &&& c.inner.domain_regex@ == domain_regex@
                &&& c.inner.strip_query == strip_query
            },
            r matches Err(e) ==> e@ == ConfigFault::Regex,
    {
        match ProcessorConfig::new(new_domain, regex, domain_regex, strip_query) {
            Ok(inner) => Ok(PixivConfig { inner }),
            Err(e) => Err(e),
        }
    }

    /// The overrides of `value` over this platform's defaults.
    pub fn try_from(value: &LinkReplacerConfig) -> (r: Result<Self, ReplaceConfigError>)
        ensures
            r is Ok <==> regex_compiles(text_or(value.regex, PIXIV_LINK_RE_STR@)) && regex_compiles(
                text_or(value.domain_re, PIXIV_DOMAIN_RE_STR@),
            ),
            r matches Ok(c) ==> {
                &&& c.inner.new_domain@ == text_or(value.new_domain, PIXIV_NEW_DOMAIN@)
                &&& c.inner.link_regex@ == text_or(value.regex, PIXIV_LINK_RE_STR@)
                &&& c.inner.domain_regex@ == text_or(value.domain_re, PIXIV_DOMAIN_RE_STR@)
                &&& c.inner.strip_query == flag_or(value.strip_query, PIXIV_STRIP_QUERY)
            },
            r matches Err(e) ==> e@ == ConfigFault::Regex,
    {
        let new_domain = match &value.new_domain {
            Some(d) => d.clone(),
            None => pixiv_default_new_domain(),
        };
        let regex: &str = match &value.regex {
            Some(s) => s.as_str(),
            None => pixiv_default_link_re_str(),
        };
        let domain_re: &str = match &value.domain_re {
            Some(s) => s.as_str(),
            None => pixiv_default_domain_re_str(),
        };
        let strip_query = match value.strip_query {
            Some(b) => b,
            None => pixiv_default_strip_query(),
        };
        Self::new(new_domain, regex, domain_re, strip_query)
    }

    /// This platform's defaults.
    pub fn try_default() -> (r: Result<Self, ReplaceConfigError>)
        ensures
            r is Ok <==> regex_compiles(PIXIV_LINK_RE_STR@) && regex_compiles(PIXIV_DOMAIN_RE_STR@),
            r matches Ok(c) ==> {
                &&& c.inner.new_domain@ == PIXIV_NEW_DOMAIN@
                &&& c.inner.link_regex@ == PIXIV_LINK_RE_STR@
                &&& c.inner.domain_regex@ == PIXIV_DOMAIN_RE_STR@
                &&& c.inner.strip_query == PIXIV_STRIP_QUERY
            },
    {
        Self::new(
            pixiv_default_new_domain(),
            pixiv_default_link_re_str(),
            pixiv_default_domain_re_str(),
            pixiv_default_strip_query(),
        )
    }

    pub fn as_ref(&self) -> (r: &ProcessorConfig)
        ensures
            *r == self.inner,
    {
        &self.inner
    }

    pub fn into_inner(self) -> (r: ProcessorConfig)
        ensures
            r == self.inner,
    {
        self.inner
    }
}

/// Rewrites Pixiv links to the configured front-end domain.
pub struct PixivReplacer {
    pub inner: LinkProcessor,
}

impl PixivReplacer {
    pub fn new(config: PixivConfig) -> (r: Self)
        ensures
            r.inner.config == config.inner,
    {
        PixivReplacer { inner: LinkProcessor::new(config.into_inner()) }
    }

    pub fn get_regex(&self) -> (r: &Pattern)
        ensures
            r@ == self.inner.config.link_regex@,
    {
        self.inner.get_regex()
    }

    pub fn transform_url(&self, url: &str) -> (r: Result<String, ReplaceError>)
        ensures
            outcome_view(r) == self.inner.config.rewrite(url@),
    {
        self.inner.transform_url(url)
    }
}

} // verus!
