//! The shared transformation: replace a URL's host, optionally dropping its
//! query.
use vstd::prelude::*;

use crate::error::{outcome_view, ConfigFault, ReplaceConfigError, ReplaceError, ReplaceFault};
use crate::pattern::{compile_regex, regex_compiles, regex_replace_first, replace_first_regex, Pattern};
use crate::web_url::{parse_url, url_host, url_parse, url_set_host, url_set_query};

verus! {

/// The URL `url` with the first match of `domain_pattern` in its host
/// replaced by `new_domain`, and without its query when `strip_query` holds.
pub open spec fn host_rewrite(
    new_domain: Seq<char>,
    domain_pattern: Seq<char>,
    strip_query: bool,
    url: Seq<char>,
) -> Result<Seq<char>, ReplaceFault> {
    match url_parse(url) {
        None => Err(ReplaceFault::Url),
        Some(parsed) => match url_host(parsed) {
            None => Err(ReplaceFault::UrlHost),
            Some(host) => match regex_replace_first(domain_pattern, host, new_domain) {
                None => Err(ReplaceFault::Config(ConfigFault::Regex)),
                Some(new_host) => match url_set_host(parsed, new_host) {
                    None => Err(ReplaceFault::Url),
                    Some(moved) => Ok(
                        if strip_query {
                            url_set_query(moved, None)
                        } else {
                            moved
                        },
                    ),
                },
            },
        },
    }
}

/// Parameters of the host rewrite: the new domain, the pattern that finds
/// links, the pattern that finds the part of the host to replace, and whether
/// the query is dropped.
pub struct ProcessorConfig {
    pub new_domain: String,
    pub link_regex: Pattern,
    pub domain_regex: Pattern,
    pub strip_query: bool,
}

impl ProcessorConfig {
    /// Compiles both patterns; fails when either does not compile.
    pub fn new(new_domain: String, link_regex: &str, domain_regex: &str, strip_query: bool) -> (r:
        Result<Self, ReplaceConfigError>)
        ensures
            r is Ok <==> regex_compiles(link_regex@) && regex_compiles(domain_regex@),
            r matches Ok(c) ==> {
                &&& c.new_domain@ == new_domain@
                &&& c.link_regex@ == link_regex@
                &&& c.domain_regex@ == domain_regex@
                &&& c.strip_query == strip_query
            },
            r matches Err(e) ==> e@ == ConfigFault::Regex,
    {
        let link_regex = match compile_regex(link_regex) {
            Ok(p) => p,
            Err(_) => return Err(ReplaceConfigError::Regex),
        };
        let domain_regex = match compile_regex(domain_regex) {
            Ok(p) => p,
            Err(_) => return Err(ReplaceConfigError::Regex),
        };
        Ok(ProcessorConfig { new_domain, link_regex, domain_regex, strip_query })
    }

    /// What the host rewrite with these parameters makes of `url`.
    pub open spec fn rewrite(&self, url: Seq<char>) -> Result<Seq<char>, ReplaceFault> {
        host_rewrite(self.new_domain@, self.domain_regex@, self.strip_query, url)
    }
}

/// The transformer that performs the host rewrite alone.
pub struct LinkProcessor {
    pub config: ProcessorConfig,
}

impl LinkProcessor {
    pub fn new(config: ProcessorConfig) -> (r: Self)
        ensures
            r.config == config,
    {
        LinkProcessor { config }
    }

    /// The pattern that finds this transformer's links.
    pub fn get_regex(&self) -> (r: &Pattern)
        ensures
            r@ == self.config.link_regex@,
    {
        &self.config.link_regex
    }

    /// Rewrites the host of `url` and, if configured, drops its query.
    pub fn transform_url(&self, url: &str) -> (r: Result<String, ReplaceError>)
        ensures
            outcome_view(r) == self.config.rewrite(url@),
    {
        let mut parsed = match parse_url(url) {
            Ok(u) => u,
            Err(_) => return Err(ReplaceError::Url),
        };
        let host = match parsed.host() {
            Some(h) => h,
            None => return Err(ReplaceError::UrlHost),
        };
        let new_host = match replace_first_regex(
            &self.config.domain_regex,
            host.as_str(),
            self.config.new_domain.as_str(),
        ) {
            Ok(h) => h,
            Err(_) => return Err(ReplaceError::Config(ReplaceConfigError::Regex)),
        };
        match parsed.set_host(new_host.as_str()) {
            Ok(()) => {},
            Err(_) => return Err(ReplaceError::Url),
        }
        if self.config.strip_query {
            parsed.set_query(None);
        }
        Ok(parsed.as_str().to_owned())
    }
}

} // verus!
