//! YouTube links: "watch" links keep only their video parameter, then the
//! host and path prefix are replaced.
use vstd::prelude::*;
use vstd::string::*;

use crate::config::{flag_or, text_or, LinkReplacerConfig};
use crate::error::{outcome_view, ConfigFault, ReplaceConfigError, ReplaceError, ReplaceFault};
use crate::pattern::{compile_regex, regex_compiles, regex_replace_first, replace_first_regex, Pattern};
use crate::text::{contains, has_substring, same_text};
use crate::web_url::{parse_url, url_parse, url_query_pairs, url_set_query};

verus! {

pub const YOUTUBE_NEW_DOMAIN: &'static str = "youtu.be";

pub const YOUTUBE_LINK_RE_STR: &'static str =
    r"https?://((www|m)\.)?youtube\.com/(shorts/[^\s]+|watch\?(?:&?(?:[^\s]+\=[^\s]+))+)";

pub const YOUTUBE_DOMAIN_RE_STR: &'static str = r"((www|m)\.)?(youtube\.com/(shorts/|watch\?v=))";

pub const YOUTUBE_STRIP_QUERY: bool = true;

pub fn youtube_default_new_domain() -> (r: String)
    ensures
        r@ == YOUTUBE_NEW_DOMAIN@,
{
    YOUTUBE_NEW_DOMAIN.to_owned()
}

pub fn youtube_default_link_re_str() -> (r: String)
    ensures
        r@ == YOUTUBE_LINK_RE_STR@,
{
    YOUTUBE_LINK_RE_STR.to_owned()
}

pub fn youtube_default_domain_re_str() -> (r: String)
    ensures
        r@ == YOUTUBE_DOMAIN_RE_STR@,
{
    YOUTUBE_DOMAIN_RE_STR.to_owned()
}

pub fn youtube_default_strip_query() -> (r: bool)
    ensures
        r == YOUTUBE_STRIP_QUERY,
{
    YOUTUBE_STRIP_QUERY
}

/// The value of the first pair named `name`.
pub open spec fn first_value_of(pairs: Seq<(Seq<char>, Seq<char>)>, name: Seq<char>) -> Option<Seq<char>>
    decreases pairs.len(),
{
    if pairs.len() == 0 {
        None
    } else if pairs[0].0 == name {
        Some(pairs[0].1)
    } else {
        first_value_of(pairs.drop_first(), name)
    }
}

/// The rewrite of a YouTube link `url`: a link that mentions "watch" first
/// keeps only its first `v` query parameter; then the first match of
/// `domain_pattern` is replaced by `new_domain` followed by a slash, and the
/// result is parsed again, without its query when `strip_query` holds.
pub open spec fn youtube_rewrite(
    new_domain: Seq<char>,
    domain_pattern: Seq<char>,
    strip_query: bool,
    url: Seq<char>,
) -> Result<Seq<char>, ReplaceFault> {
    let watched: Result<Seq<char>, ReplaceFault> = if has_substring(url, "watch"@) {
        match url_parse(url) {
            None => Err(ReplaceFault::Url),
            Some(parsed) => match first_value_of(url_query_pairs(parsed), "v"@) {
                None => Err(ReplaceFault::NoQueryParams),
                Some(id) => Ok(url_set_query(parsed, Some("v="@ + id))),
            },
        }
    } else {
        Ok(url)
    };
    match watched {
        Err(f) => Err(f),
        Ok(u) => match regex_replace_first(domain_pattern, u, new_domain + "/"@) {
            None => Err(ReplaceFault::Config(ConfigFault::Regex)),
            Some(moved) => match url_parse(moved) {
                None => Err(ReplaceFault::Url),
                Some(p) => Ok(
                    if strip_query {
                        url_set_query(p, None)
                    } else {
                        p
                    },
                ),
            },
        },
    }
}

/// The value of the first pair of `pairs` named `name`.
pub fn first_value(pairs: &Vec<(String, String)>, name: &str) -> (r: Option<String>)
    ensures
        match r {
            Some(v) => first_value_of(crate::web_url::pairs_view(pairs@), name@) == Some(v@),
            None => first_value_of(crate::web_url::pairs_view(pairs@), name@) is None,
        },
{
    let ghost all = crate::web_url::pairs_view(pairs@);
    let mut i: usize = 0;
    assert(all.subrange(0, all.len() as int) =~= all);
    while i < pairs.len()
        invariant
            i <= pairs@.len(),
            all == crate::web_url::pairs_view(pairs@),
            first_value_of(all, name@) == first_value_of(all.subrange(i as int, all.len() as int), name@),
        decreases pairs.len() - i,
    {
        let ghost rest = all.subrange(i as int, all.len() as int);
        assert(rest.drop_first() =~= all.subrange(i + 1, all.len() as int));
        if same_text(pairs[i].0.as_str(), name) {
            return Some(pairs[i].1.clone());
        }
        i += 1;
    }
    None
}

/// Parameters of the YouTube rewrite.
pub struct YoutubeConfig {
    pub new_domain: String,
    pub regex: Pattern,
    pub domain_regex: Pattern,
    pub strip_query: bool,
}

impl YoutubeConfig {
    pub fn new(new_domain: String, regex: String, domain_regex: String, strip_query: bool) -> (r:
        Result<Self, ReplaceConfigError>)
        ensures
            r is Ok <==> regex_compiles(regex@) && regex_compiles(domain_regex@),
            r matches Ok(c) ==> {
                &&& c.new_domain@ == new_domain@
                &&& c.regex@ == regex@
                &&& c.domain_regex@ == domain_regex@
                &&& c.strip_query == strip_query
            },
            r matches Err(e) ==> e@ == ConfigFault::Regex,
    {
        let regex = match compile_regex(regex.as_str()) {
            Ok(p) => p,
            Err(_) => return Err(ReplaceConfigError::Regex),
        };
        let domain_regex = match compile_regex(domain_regex.as_str()) {
            Ok(p) => p,
            Err(_) => return Err(ReplaceConfigError::Regex),
        };
        Ok(YoutubeConfig { new_domain, regex, domain_regex, strip_query })
    }

    /// The overrides of `value` over YouTube's defaults.
    pub fn try_from(value: &LinkReplacerConfig) -> (r: Result<Self, ReplaceConfigError>)
        ensures
            r is Ok <==> regex_compiles(text_or(value.regex, YOUTUBE_LINK_RE_STR@)) && regex_compiles(
                text_or(value.domain_re, YOUTUBE_DOMAIN_RE_STR@),
            ),
            r matches Ok(c) ==> {
                &&& c.new_domain@ == text_or(value.new_domain, YOUTUBE_NEW_DOMAIN@)
                &&& c.regex@ == text_or(value.regex, YOUTUBE_LINK_RE_STR@)
                &&& c.domain_regex@ == text_or(value.domain_re, YOUTUBE_DOMAIN_RE_STR@)
                &&& c.strip_query == flag_or(value.strip_query, YOUTUBE_STRIP_QUERY)
            },
            r matches Err(e) ==> e@ == ConfigFault::Regex,
    {
        let new_domain = match &value.new_domain {
            Some(d) => d.clone(),
            None => youtube_default_new_domain(),
        };
        let regex = match &value.regex {
            Some(s) => s.clone(),
            None => youtube_default_link_re_str(),
        };
        let domain_regex = match &value.domain_re {
            Some(s) => s.clone(),
            None => youtube_default_domain_re_str(),
        };
        let strip_query = match value.strip_query {
            Some(b) => b,
            None => youtube_default_strip_query(),
        };
        Self::new(new_domain, regex, domain_regex, strip_query)
    }

    /// YouTube's defaults.
    pub fn try_default() -> (r: Result<Self, ReplaceConfigError>)
        ensures
            r is Ok <==> regex_compiles(YOUTUBE_LINK_RE_STR@) && regex_compiles(YOUTUBE_DOMAIN_RE_STR@),
            r matches Ok(c) ==> {
                &&& c.new_domain@ == YOUTUBE_NEW_DOMAIN@
                &&& c.regex@ == YOUTUBE_LINK_RE_STR@
                &&& c.domain_regex@ == YOUTUBE_DOMAIN_RE_STR@
                &&& c.strip_query == YOUTUBE_STRIP_QUERY
            },
    {
        Self::new(
            youtube_default_new_domain(),
            youtube_default_link_re_str(),
            youtube_default_domain_re_str(),
            youtube_default_strip_query(),
        )
    }

    /// What the YouTube rewrite with these parameters makes of `url`.
    pub open spec fn rewrite(&self, url: Seq<char>) -> Result<Seq<char>, ReplaceFault> {
        youtube_rewrite(self.new_domain@, self.domain_regex@, self.strip_query, url)
    }
}

/// Rewrites YouTube watch and shorts links to the short-link domain.
pub struct YoutubeReplacer {
    pub config: YoutubeConfig,
}

impl YoutubeReplacer {
    pub fn new(config: YoutubeConfig) -> (r: Self)
        ensures
            r.config == config,
    {
        YoutubeReplacer { config }
    }

    pub fn get_regex(&self) -> (r: &Pattern)
        ensures
            r@ == self.config.regex@,
    {
        &self.config.regex
    }

    pub fn transform_url(&self, url: &str) -> (r: Result<String, ReplaceError>)
        ensures
            outcome_view(r) == self.config.rewrite(url@),
    {
        let watched: String = if contains(url, "watch") {
            let mut parsed = match parse_url(url) {
                Ok(u) => u,
                Err(_) => return Err(ReplaceError::Url),
            };
            let pairs = parsed.query_pairs();
            let id = match first_value(&pairs, "v") {
                Some(v) => v,
                None => return Err(ReplaceError::NoQueryParams),
            };
            let mut query = String::from_str("v=");
            query.append(id.as_str());
            parsed.set_query(Some(query.as_str()));
            parsed.as_str().to_owned()
        } else {
            url.to_owned()
        };
        let mut rep = self.config.new_domain.clone();
        rep.append("/");
        let moved = match replace_first_regex(&self.config.domain_regex, watched.as_str(), rep.as_str()) {
            Ok(m) => m,
            Err(_) => return Err(ReplaceError::Config(ReplaceConfigError::Regex)),
        };
        let mut reparsed = match parse_url(moved.as_str()) {
            Ok(u) => u,
            Err(_) => return Err(ReplaceError::Url),
        };
        if self.config.strip_query {
            reparsed.set_query(None);
        }
        Ok(reparsed.as_str().to_owned())
    }
}

} // verus!
