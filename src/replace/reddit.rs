//! Reddit links: the host rewrite with this platform's defaults.
use vstd::prelude::*;

use crate::config::{flag_or, text_or, LinkReplacerConfig};
use crate::error::{outcome_view, ConfigFault, ReplaceConfigError, ReplaceError};
use crate::pattern::{regex_compiles, Pattern};
use crate::replace::base::{LinkProcessor, ProcessorConfig};

verus! {

pub const REDDIT_NEW_DOMAIN: &'static str = "vxreddit.com";

pub const REDDIT_LINK_RE_STR: &'static str = r"https?://(redd.it|((\w+\.)?reddit.com/(r|u|user)/\w+/(s|comments))/)[^\s]+";

pub const REDDIT_DOMAIN_RE_STR: &'static str = r"(((\w+\.)?reddit\.com)|(redd\.it))";

pub const REDDIT_STRIP_QUERY: bool = true;

pub fn reddit_default_new_domain() -> (r: String)
    ensures
        r@ == REDDIT_NEW_DOMAIN@,
{
    REDDIT_NEW_DOMAIN.to_owned()
}

pub fn reddit_default_link_re_str() -> (r: &'static str)
    ensures
        r@ == REDDIT_LINK_RE_STR@,
{
    REDDIT_LINK_RE_STR
}

pub fn reddit_default_domain_re_str() -> (r: &'static str)
    ensures
        r@ == REDDIT_DOMAIN_RE_STR@,
{
    REDDIT_DOMAIN_RE_STR
}

pub fn reddit_default_strip_query() -> (r: bool)
    ensures
        r == REDDIT_STRIP_QUERY,
{
    REDDIT_STRIP_QUERY
}

/// Host-rewrite parameters for Reddit links.
pub struct RedditConfig {
    pub inner: ProcessorConfig,
}

impl RedditConfig {
    pub fn new(new_domain: String, regex: &str, domain_regex: &str, strip_query: bool) -> (r: Result<
        Self,
        ReplaceConfigError,
    >)
        ensures
            r is Ok <==> regex_compiles(regex@) && regex_compiles(domain_regex@),
            r matches Ok(c) ==> {
                &&& c.inner.new_domain@ == new_domain@
                &&& c.inner.link_regex@ == regex@
                &&& c.inner.domain_regex@ == domain_regex@
                &&& c.inner.strip_query == strip_query
            },
            r matches Err(e) ==> e@ == ConfigFault::Regex,
    {
        match ProcessorConfig::new(new_domain, regex, domain_regex, strip_query) {
            Ok(inner) => Ok(RedditConfig { inner }),
            Err(e) => Err(e),
        }
    }

    /// The overrides of `value` over this platform's defaults.
    pub fn try_from(value: &LinkReplacerConfig) -> (r: Result<Self, ReplaceConfigError>)
        ensures
            r is Ok <==> regex_compiles(text_or(value.regex, REDDIT_LINK_RE_STR@)) && regex_compiles(
                text_or(value.domain_re, REDDIT_DOMAIN_RE_STR@),
            ),
            r matches Ok(c) ==> {
                &&& c.inner.new_domain@ == text_or(value.new_domain, REDDIT_NEW_DOMAIN@)
                &&& c.inner.link_regex@ == text_or(value.regex, REDDIT_LINK_RE_STR@)
                &&& c.inner.domain_regex@ == text_or(value.domain_re, REDDIT_DOMAIN_RE_STR@)
                &&& c.inner.strip_query == flag_or(value.strip_query, REDDIT_STRIP_QUERY)
            },
            r matches Err(e) ==> e@ == ConfigFault::Regex,
    {
        let new_domain = match &value.new_domain {
            Some(d) => d.clone(),
            None => reddit_default_new_domain(),
        };
        let regex: &str = match &value.regex {
            Some(s) => s.as_str(),
            None => reddit_default_link_re_str(),
        };
        let domain_re: &str = match &value.domain_re {
            Some(s) => s.as_str(),
            None => reddit_default_domain_re_str(),
        };
        let strip_query = match value.strip_query {
            Some(b) => b,
            None => reddit_default_strip_query(),
        };
        Self::new(new_domain, regex, domain_re, strip_query)
    }

    /// This platform's defaults.
    pub fn try_default() -> (r: Result<Self, ReplaceConfigError>)
        ensures
            r is Ok <==> regex_compiles(REDDIT_LINK_RE_STR@) && regex_compiles(REDDIT_DOMAIN_RE_STR@),
            r matches Ok(c) ==> {
                &&& c.inner.new_domain@ == REDDIT_NEW_DOMAIN@
                &&& c.inner.link_regex@ == REDDIT_LINK_RE_STR@
                &&& c.inner.domain_regex@ == REDDIT_DOMAIN_RE_STR@
                &&& c.inner.strip_query == REDDIT_STRIP_QUERY
            },
    {
        Self::new(
            reddit_default_new_domain(),
            reddit_default_link_re_str(),
            reddit_default_domain_re_str(),
            reddit_default_strip_query(),
        )
    }

    pub fn as_ref(&self) -> (r: &ProcessorConfig)
        ensures
            *r == self.inner,
    {
        &self.inner
    }

    pub fn into_inner(self) -> (r: ProcessorConfig)
        ensures
            r == self.inner,
    {
        self.inner
    }
}

/// Rewrites Reddit links to the configured front-end domain.
pub struct RedditReplacer {
    pub inner: LinkProcessor,
}

impl RedditReplacer {
    pub fn new(config: RedditConfig) -> (r: Self)
        ensures
            r.inner.config == config.inner,
    {
        RedditReplacer { inner: LinkProcessor::new(config.into_inner()) }
    }

    pub fn get_regex(&self) -> (r: &Pattern)
        ensures
            r@ == self.inner.config.link_regex@,
    {
        self.inner.get_regex()
    }

    pub fn transform_url(&self, url: &str) -> (r: Result<String, ReplaceError>)
        ensures
            outcome_view(r) == self.inner.config.rewrite(url@),
    {
        self.inner.transform_url(url)
    }
}

} // verus!
