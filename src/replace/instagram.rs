//! Instagram links: the host rewrite with this platform's defaults.
use vstd::prelude::*;

use crate::config::{flag_or, text_or, LinkReplacerConfig};
use crate::error::{outcome_view, ConfigFault, ReplaceConfigError, ReplaceError};
use crate::pattern::{regex_compiles, Pattern};
use crate::replace::base::{LinkProcessor, ProcessorConfig};

verus! {

pub const INSTAGRAM_NEW_DOMAIN: &'static str = "ddinstagram.com";

pub const INSTAGRAM_LINK_RE_STR: &'static str = r"https?://(\w+\.)?instagram.com/(p|reel|stories)/[^\s]+";

pub const INSTAGRAM_DOMAIN_RE_STR: &'static str = r"(\w+\.)?(instagram\.com)";

pub const INSTAGRAM_STRIP_QUERY: bool = true;

pub fn instagram_default_new_domain() -> (r: String)
    ensures
        r@ == INSTAGRAM_NEW_DOMAIN@,
{
    INSTAGRAM_NEW_DOMAIN.to_owned()
}

pub fn instagram_default_link_re_str() -> (r: &'static str)
    ensures
        r@ == INSTAGRAM_LINK_RE_STR@,
{
    INSTAGRAM_LINK_RE_STR
}

pub fn instagram_default_domain_re_str() -> (r: &'static str)
    ensures
        r@ == INSTAGRAM_DOMAIN_RE_STR@,
{
    INSTAGRAM_DOMAIN_RE_STR
}

pub fn instagram_default_strip_query() -> (r: bool)
    ensures
        r == INSTAGRAM_STRIP_QUERY,
{
    INSTAGRAM_STRIP_QUERY
}

/// Host-rewrite parameters for Instagram links.
pub struct InstagramConfig {
    pub inner: ProcessorConfig,
}

impl InstagramConfig {
    pub fn new(new_domain: String, regex: &str, domain_regex: &str, strip_query: bool) -> (r: Result<
        Self,
        ReplaceConfigError,
    >)
        ensures
            r is Ok <==> regex_compiles(regex@) && regex_compiles(domain_regex@),
            r matches Ok(c) ==> {
                &&& c.inner.new_domain@ == new_domain@
                &&& c.inner.link_regex@ == regex@
                &&& c.inner.domain_regex@ == domain_regex@
                &&& c.inner.strip_query == strip_query
            },
            r matches Err(e) ==> e@ == ConfigFault::Regex,
    {
        match ProcessorConfig::new(new_domain, regex, domain_regex, strip_query) {
            Ok(inner) => Ok(InstagramConfig { inner }),
            Err(e) => Err(e),
        }
    }

    /// The overrides of `value` over this platform's defaults.
    pub fn try_from(value: &LinkReplacerConfig) -> (r: Result<Self, ReplaceConfigError>)
        ensures
            r is Ok <==> regex_compiles(text_or(value.regex, INSTAGRAM_LINK_RE_STR@)) && regex_compiles(
                text_or(value.domain_re, INSTAGRAM_DOMAIN_RE_STR@),
            ),
            r matches Ok(c) ==> {
                &&& c.inner.new_domain@ == text_or(value.new_domain, INSTAGRAM_NEW_DOMAIN@)
                &&& c.inner.link_regex@ == text_or(value.regex, INSTAGRAM_LINK_RE_STR@)
                &&& c.inner.domain_regex@ == text_or(value.domain_re, INSTAGRAM_DOMAIN_RE_STR@)
                &&& c.inner.strip_query == flag_or(value.strip_query, INSTAGRAM_STRIP_QUERY)
            },
            r matches Err(e) ==> e@ == ConfigFault::Regex,
    {
        let new_domain = match &value.new_domain {
            Some(d) => d.clone(),
            None => instagram_default_new_domain(),
        };
        let regex: &str = match &value.regex {
            Some(s) => s.as_str(),
            None => instagram_default_link_re_str(),
        };
        let domain_re: &str = match &value.domain_re {
            Some(s) => s.as_str(),
            None => instagram_default_domain_re_str(),
        };
        let strip_query = match value.strip_query {
            Some(b) => b,
            None => instagram_default_strip_query(),
        };
        Self::new(new_domain, regex, domain_re, strip_query)
    }

    /// This platform's defaults.
    pub fn try_default() -> (r: Result<Self, ReplaceConfigError>)
        ensures
            r is Ok <==> regex_compiles(INSTAGRAM_LINK_RE_STR@) && regex_compiles(INSTAGRAM_DOMAIN_RE_STR@),
            r matches Ok(c) ==> {
                &&& c.inner.new_domain@ == INSTAGRAM_NEW_DOMAIN@
                &&& c.inner.link_regex@ == INSTAGRAM_LINK_RE_STR@
                &&& c.inner.domain_regex@ == INSTAGRAM_DOMAIN_RE_STR@
                &&& c.inner.strip_query == INSTAGRAM_STRIP_QUERY
            },
    {
        Self::new(
            instagram_default_new_domain(),
            instagram_default_link_re_str(),
            instagram_default_domain_re_str(),
            instagram_default_strip_query(),
        )
    }

    pub fn as_ref(&self) -> (r: &ProcessorConfig)
        ensures
            *r == self.inner,
    {
        &self.inner
    }

    pub fn into_inner(self) -> (r: ProcessorConfig)
        ensures
            r == self.inner,
    {
        self.inner
    }
}

/// Rewrites Instagram links to the configured front-end domain.
pub struct InstagramReplacer {
    pub inner: LinkProcessor,
}

impl InstagramReplacer {
    pub fn new(config: InstagramConfig) -> (r: Self)
        ensures
            r.inner.config == config.inner,
    {
        InstagramReplacer { inner: LinkProcessor::new(config.into_inner()) }
    }

    pub fn get_regex(&self) -> (r: &Pattern)
        ensures
            r@ == self.inner.config.link_regex@,
    {
        self.inner.get_regex()
    }

    pub fn transform_url(&self, url: &str) -> (r: Result<String, ReplaceError>)
        ensures
            outcome_view(r) == self.inner.config.rewrite(url@),
    {
        self.inner.transform_url(url)
    }
}

} // verus!
