//! Bluesky links: the host rewrite with this platform's defaults.
use vstd::prelude::*;

use crate::config::{flag_or, text_or, LinkReplacerConfig};
use crate::error::{outcome_view, ConfigFault, ReplaceConfigError, ReplaceError};
use crate::pattern::{regex_compiles, Pattern};
use crate::replace::base::{LinkProcessor, ProcessorConfig};

verus! {

pub const BSKY_NEW_DOMAIN: &'static str = "bskyx.app";

pub const BSKY_LINK_RE_STR: &'static str = r"https?://bsky\.app/profile/((\w|\.|-)+|(did:plc:[234567a-z]{24}))/post/[234567a-z]{13}(?!/)";

pub const BSKY_DOMAIN_RE_STR: &'static str = r"bsky\.app";

pub const BSKY_STRIP_QUERY: bool = true;

pub fn bsky_default_new_domain() -> (r: String)
    ensures
        r@ == BSKY_NEW_DOMAIN@,
{
    BSKY_NEW_DOMAIN.to_owned()
}

pub fn bsky_default_link_re_str() -> (r: &'static str)
    ensures
        r@ == BSKY_LINK_RE_STR@,
{
    BSKY_LINK_RE_STR
}

pub fn bsky_default_domain_re_str() -> (r: &'static str)
    ensures
        r@ == BSKY_DOMAIN_RE_STR@,
{
    BSKY_DOMAIN_RE_STR
}

pub fn bsky_default_strip_query() -> (r: bool)
    ensures
        r == BSKY_STRIP_QUERY,
{
    BSKY_STRIP_QUERY
}

/// Host-rewrite parameters for Bluesky links.
pub struct BskyConfig {
    pub inner: ProcessorConfig,
}

impl BskyConfig {
    pub fn new(new_domain: String, regex: &str, domain_regex: &str, strip_query: bool) -> (r: Result<
        Self,
        ReplaceConfigError,
    >)
        ensures
            r is Ok <==> regex_compiles(regex@) && regex_compiles(domain_regex@),
            r matches Ok(c) ==> {
                &&& c.inner.new_domain@ == new_domain@
                &&& c.inner.link_regex@ == regex@
                &&& c.inner.domain_regex@ == domain_regex@
                &&& c.inner.strip_query == strip_query
            },
            r matches Err(e) ==> e@ == ConfigFault::Regex,
    {
        match ProcessorConfig::new(new_domain, regex, domain_regex, strip_query) {
            Ok(inner) => Ok(BskyConfig { inner }),
            Err(e) => Err(e),
        }
    }

    /// The overrides of `value` over this platform's defaults.
    pub fn try_from(value: &LinkReplacerConfig) -> (r: Result<Self, ReplaceConfigError>)
        ensures
            r is Ok <==> regex_compiles(text_or(value.regex, BSKY_LINK_RE_STR@)) && regex_compiles(
                text_or(value.domain_re, BSKY_DOMAIN_RE_STR@),
            ),
            r matches Ok(c) ==> {
                &&& c.inner.new_domain@ == text_or(value.new_domain, BSKY_NEW_DOMAIN@)
                &&& c.inner.link_regex@ == text_or(value.regex, BSKY_LINK_RE_STR@)
                &&& c.inner.domain_regex@ == text_or(value.domain_re, BSKY_DOMAIN_RE_STR@)
                &&& c.inner.strip_query == flag_or(value.strip_query, BSKY_STRIP_QUERY)
            },
            r matches Err(e) ==> e@ == ConfigFault::Regex,
    {
        let new_domain = match &value.new_domain {
            Some(d) => d.clone(),
            None => bsky_default_new_domain(),
        };
        let regex: &str = match &value.regex {
            Some(s) => s.as_str(),
            None => bsky_default_link_re_str(),
        };
        let domain_re: &str = match &value.domain_re {
            Some(s) => s.as_str(),
            None => bsky_default_domain_re_str(),
        };
        let strip_query = match value.strip_query {
            Some(b) => b,
            None => bsky_default_strip_query(),
        };
        Self::new(new_domain, regex, domain_re, strip_query)
    }

    /// This platform's defaults.
    pub fn try_default() -> (r: Result<Self, ReplaceConfigError>)
        ensures
            r is Ok <==> regex_compiles(BSKY_LINK_RE_STR@) && regex_compiles(BSKY_DOMAIN_RE_STR@),
            r matches Ok(c) ==> {
                &&& c.inner.new_domain@ == BSKY_NEW_DOMAIN@
                &&& c.inner.link_regex@ == BSKY_LINK_RE_STR@
                &&& c.inner.domain_regex@ == BSKY_DOMAIN_RE_STR@
                &&& c.inner.strip_query == BSKY_STRIP_QUERY
            },
    {
        Self::new(
            bsky_default_new_domain(),
            bsky_default_link_re_str(),
            bsky_default_domain_re_str(),
            bsky_default_strip_query(),
        )
    }

    pub fn as_ref(&self) -> (r: &ProcessorConfig)
        ensures
            *r == self.inner,
    {
        &self.inner
    }

    pub fn into_inner(self) -> (r: ProcessorConfig)
        ensures
            r == self.inner,
    {
        self.inner
    }
}

/// Rewrites Bluesky links to the configured front-end domain.
pub struct BskyReplacer {
    pub inner: LinkProcessor,
}

impl BskyReplacer {
    pub fn new(config: BskyConfig) -> (r: Self)
        ensures
            r.inner.config == config.inner,
    {
        BskyReplacer { inner: LinkProcessor::new(config.into_inner()) }
    }

    pub fn get_regex(&self) -> (r: &Pattern)
        ensures
            r@ == self.inner.config.link_regex@,
    {
        self.inner.get_regex()
    }

    pub fn transform_url(&self, url: &str) -> (r: Result<String, ReplaceError>)
        ensures
            outcome_view(r) == self.inner.config.rewrite(url@),
    {
        self.inner.transform_url(url)
    }
}

} // verus!
