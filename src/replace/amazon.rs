//! Amazon product links: reduced to the canonical product URL, or to a short
//! domain, by the product identifier (ASIN) that the link pattern captures.
use vstd::prelude::*;
use vstd::string::*;

use crate::error::{outcome_view, ConfigFault, ReplaceConfigError, ReplaceError, ReplaceFault};
use crate::pattern::{compile_regex, group_regex, regex_compiles, regex_group, Pattern};

verus! {

pub const AMAZON_LINK_RE_STR: &'static str =
    r"https?://(www\.)?amazon\.com/(?:[^\s]+/)?(dp/(?<asin>\w+))/[^\s]+";

pub const AMAZON_SHORT_DOMAIN: &'static str = "amzn.com";

/// The capture group that holds the product identifier.
pub const ASIN_GROUP: &'static str = "asin";

pub fn amazon_default_re_str() -> (r: String)
    ensures
        r@ == AMAZON_LINK_RE_STR@,
{
    AMAZON_LINK_RE_STR.to_owned()
}

pub fn amazon_shorten_domain() -> (r: String)
    ensures
        r@ == AMAZON_SHORT_DOMAIN@,
{
    AMAZON_SHORT_DOMAIN.to_owned()
}

pub fn amazon_shorten() -> (r: bool)
    ensures
        !r,
{
    false
}

/// Settings of the Amazon link shortener.
pub struct AmazonConfig {
    pub regex: String,
    pub shorten_domain: String,
    pub shorten: bool,
}

impl Default for AmazonConfig {
    fn default() -> (r: Self)
        ensures
            r.regex@ == AMAZON_LINK_RE_STR@,
            r.shorten_domain@ == AMAZON_SHORT_DOMAIN@,
            !r.shorten,
    {
        AmazonConfig {
            regex: amazon_default_re_str(),
            shorten_domain: amazon_shorten_domain(),
            shorten: amazon_shorten(),
        }
    }
}

/// The canonical form of a product link with identifier `asin`: on
/// `shorten_domain` when `shorten` holds, else on amazon.com.
pub open spec fn product_link(shorten_domain: Seq<char>, shorten: bool, asin: Seq<char>) -> Seq<char> {
    if shorten {
        "https://"@ + shorten_domain + "/dp/"@ + asin + "/"@
    } else {
        "https://www.amazon.com/dp/"@ + asin + "/"@
    }
}

/// What the shortener makes of `url`: the product link when `pattern`
/// matches with its `asin` group, a missing-group error when it matches
/// without it, and `url` itself when it does not match or the search fails.
pub open spec fn amazon_rewrite(pattern: Seq<char>, shorten_domain: Seq<char>, shorten: bool, url: Seq<char>)
    -> Result<Seq<char>, ReplaceFault> {
    match regex_group(pattern, url, ASIN_GROUP@) {
        Some(Some(None)) => Err(ReplaceFault::MissingGroup(ASIN_GROUP@)),
        Some(Some(Some(asin))) => Ok(product_link(shorten_domain, shorten, asin)),
        _ => Ok(url),
    }
}

/// On a link from which the pattern captures a product identifier, the
/// shortener gives the amazon.com product link when shortening is off, and
/// the short-domain link with the same identifier when it is on.
pub proof fn lemma_shortening_toggle(pattern: Seq<char>, shorten_domain: Seq<char>, url: Seq<char>, asin: Seq<char>)
    requires
        regex_group(pattern, url, ASIN_GROUP@) == Some(Some(Some(asin))),
    ensures
        amazon_rewrite(pattern, shorten_domain, false, url) == Ok::<Seq<char>, ReplaceFault>(
            "https://www.amazon.com/dp/"@ + asin + "/"@,
        ),
        amazon_rewrite(pattern, shorten_domain, true, url) == Ok::<Seq<char>, ReplaceFault>(
            "https://"@ + shorten_domain + "/dp/"@ + asin + "/"@,
        ),
{
}

/// Normalizes Amazon product links.
pub struct AmazonReplacer {
    pub shorten_domain: String,
    pub regex: Pattern,
    pub shorten: bool,
}

impl AmazonReplacer {
    /// Fails when the configured pattern does not compile.
    pub fn new(config: &AmazonConfig) -> (r: Result<Self, ReplaceConfigError>)
        ensures
            r is Ok <==> regex_compiles(config.regex@),
            r matches Ok(a) ==> {
                &&& a.shorten_domain@ == config.shorten_domain@
                &&& a.regex@ == config.regex@
                &&& a.shorten == config.shorten
            },
            r matches Err(e) ==> e@ == ConfigFault::Regex,
    {
        let regex = match compile_regex(config.regex.as_str()) {
            Ok(p) => p,
            Err(_) => return Err(ReplaceConfigError::Regex),
        };
        Ok(AmazonReplacer { shorten_domain: config.shorten_domain.clone(), regex, shorten: config.shorten })
    }

    pub fn get_regex(&self) -> (r: &Pattern)
        ensures
            r@ == self.regex@,
    {
        &self.regex
    }

    pub open spec fn rewrite(&self, url: Seq<char>) -> Result<Seq<char>, ReplaceFault> {
        amazon_rewrite(self.regex@, self.shorten_domain@, self.shorten, url)
    }

    pub fn transform_url(&self, url: &str) -> (r: Result<String, ReplaceError>)
        ensures
            outcome_view(r) == self.rewrite(url@),
    {
        match group_regex(&self.regex, url, ASIN_GROUP) {
            Ok(Some(None)) => Err(ReplaceError::MissingGroup(ASIN_GROUP.to_owned())),
            Ok(Some(Some(asin))) => {
                let mut link = if self.shorten {
                    let mut s = String::from_str("https://");
                    s.append(self.shorten_domain.as_str());
                    s.append("/dp/");
                    s
                } else {
                    String::from_str("https://www.amazon.com/dp/")
                };
                link.append(asin.as_str());
                link.append("/");
                Ok(link)
            },
            _ => Ok(url.to_owned()),
        }
    }
}

} // verus!
