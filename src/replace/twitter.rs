//! Twitter / X links: the host rewrite with this platform's defaults.
use vstd::prelude::*;

use crate::config::{flag_or, text_or, LinkReplacerConfig};
use crate::error::{outcome_view, ConfigFault, ReplaceConfigError, ReplaceError};
use crate::pattern::{regex_compiles, Pattern};
use crate::replace::base::{LinkProcessor, ProcessorConfig};

verus! {

pub const TWITTER_NEW_DOMAIN: &'static str = "fxtwitter.com";

pub const TWITTER_LINK_RE_STR: &'static str = r"https?://(x|twitter)\.com/(\w){1,15}/status/[^\s]+";

pub const TWITTER_DOMAIN_RE_STR: &'static str = r"(x|twitter)\.com";

pub const TWITTER_STRIP_QUERY: bool = true;

pub fn twitter_default_new_domain() -> (r: String)
    ensures
        r@ == TWITTER_NEW_DOMAIN@,
{
    TWITTER_NEW_DOMAIN.to_owned()
}

pub fn twitter_default_link_re_str() -> (r: &'static str)
    ensures
        r@ == TWITTER_LINK_RE_STR@,
{
    TWITTER_LINK_RE_STR
}

pub fn twitter_default_domain_re_str() -> (r: &'static str)
    ensures
        r@ == TWITTER_DOMAIN_RE_STR@,
{
    TWITTER_DOMAIN_RE_STR
}

pub fn twitter_default_strip_query() -> (r: bool)
    ensures
        r == TWITTER_STRIP_QUERY,
{
    TWITTER_STRIP_QUERY
}

/// Host-rewrite parameters for Twitter / X links.
pub struct TwitterConfig {
    pub inner: ProcessorConfig,
}

impl TwitterConfig {
    pub fn new(new_domain: String, regex: &str, domain_regex: &str, strip_query: bool) -> (r: Result<
        Self,
        ReplaceConfigError,
    >)
        ensures
            r is Ok <==> regex_compiles(regex@) && regex_compiles(domain_regex@),
            r matches Ok(c) ==> {
                &&& c.inner.new_domain@ == new_domain@
                &&& c.inner.link_regex@ == regex@
                &&& c.inner.domain_regex@ == domain_regex@
                &&& c.inner.strip_query == strip_query
            },
            r matches Err(e) ==> e@ == ConfigFault::Regex,
    {
        match ProcessorConfig::new(new_domain, regex, domain_regex, strip_query) {
            Ok(inner) => Ok(TwitterConfig { inner }),
            Err(e) => Err(e),
        }
    }

    /// The overrides of `value` over this platform's defaults.
    pub fn try_from(value: &LinkReplacerConfig) -> (r: Result<Self, ReplaceConfigError>)
        ensures
            r is Ok <==> regex_compiles(text_or(value.regex, TWITTER_LINK_RE_STR@)) && regex_compiles(
                text_or(value.domain_re, TWITTER_DOMAIN_RE_STR@),
            ),
            r matches Ok(c) ==> {
                &&& c.inner.new_domain@ == text_or(value.new_domain, TWITTER_NEW_DOMAIN@)
                &&& c.inner.link_regex@ == text_or(value.regex, TWITTER_LINK_RE_STR@)
                &&& c.inner.domain_regex@ == text_or(value.domain_re, TWITTER_DOMAIN_RE_STR@)
                &&& c.inner.strip_query == flag_or(value.strip_query, TWITTER_STRIP_QUERY)
            },
            r matches Err(e) ==> e@ == ConfigFault::Regex,
    {
        let new_domain = match &value.new_domain {
            Some(d) => d.clone(),
            None => twitter_default_new_domain(),
        };
        let regex: &str = match &value.regex {
            Some(s) => s.as_str(),
            None => twitter_default_link_re_str(),
        };
        let domain_re: &str = match &value.domain_re {
            Some(s) => s.as_str(),
            None => twitter_default_domain_re_str(),
        };
        let strip_query = match value.strip_query {
            Some(b) => b,
            None => twitter_default_strip_query(),
        };
        Self::new(new_domain, regex, domain_re, strip_query)
    }

    /// This platform's defaults.
    pub fn try_default() -> (r: Result<Self, ReplaceConfigError>)
        ensures
            r is Ok <==> regex_compiles(TWITTER_LINK_RE_STR@) && regex_compiles(TWITTER_DOMAIN_RE_STR@),
            r matches Ok(c) ==> {
                &&& c.inner.new_domain@ == TWITTER_NEW_DOMAIN@
                &&& c.inner.link_regex@ == TWITTER_LINK_RE_STR@
                &&& c.inner.domain_regex@ == TWITTER_DOMAIN_RE_STR@
                &&& c.inner.strip_query == TWITTER_STRIP_QUERY
            },
    {
        Self::new(
            twitter_default_new_domain(),
            twitter_default_link_re_str(),
            twitter_default_domain_re_str(),
            twitter_default_strip_query(),
        )
    }

    pub fn as_ref(&self) -> (r: &ProcessorConfig)
        ensures
            *r == self.inner,
    {
        &self.inner
    }

    pub fn into_inner(self) -> (r: ProcessorConfig)
        ensures
            r == self.inner,
    {
        self.inner
    }
}

/// Rewrites Twitter / X links to the configured front-end domain.
pub struct TwitterReplacer {
    pub inner: LinkProcessor,
}

impl TwitterReplacer {
    pub fn new(config: TwitterConfig) -> (r: Self)
        ensures
            r.inner.config == config.inner,
    {
        TwitterReplacer { inner: LinkProcessor::new(config.into_inner()) }
    }

    pub fn get_regex(&self) -> (r: &Pattern)
        ensures
            r@ == self.inner.config.link_regex@,
    {
        self.inner.get_regex()
    }

    pub fn transform_url(&self, url: &str) -> (r: Result<String, ReplaceError>)
        ensures
            outcome_view(r) == self.inner.config.rewrite(url@),
    {
        self.inner.transform_url(url)
    }
}

} // verus!
