//! Parsed URLs, as provided by the `url` crate, and percent-decoding, as
//! provided by `urlencoding`. A URL is modelled by its serialization: `url`
//! compares URLs by their serialization, and every accessor used here reads
//! a part of it.
use vstd::prelude::*;

verus! {

#[verifier::external_type_specification]
#[verifier::external_body]
pub struct ExUrl(url::Url);

#[verifier::external_type_specification]
#[verifier::external_body]
pub struct ExUrlParseError(url::ParseError);

/// Serialization of `url::Url::parse(s)`, or `None` when parsing fails.
pub uninterp spec fn url_parse(s: Seq<char>) -> Option<Seq<char>>;

/// `host_str` of the URL serialized as `url`.
pub uninterp spec fn url_host(url: Seq<char>) -> Option<Seq<char>>;

/// Serialization after `set_host(Some(host))` on the URL serialized as `url`,
/// or `None` when `set_host` fails.
pub uninterp spec fn url_set_host(url: Seq<char>, host: Seq<char>) -> Option<Seq<char>>;

/// Serialization after `set_query(query)` on the URL serialized as `url`.
pub uninterp spec fn url_set_query(url: Seq<char>, query: Option<Seq<char>>) -> Seq<char>;

/// The decoded name/value pairs of the query of the URL serialized as `url`,
/// in order.
pub uninterp spec fn url_query_pairs(url: Seq<char>) -> Seq<(Seq<char>, Seq<char>)>;

/// The path of the URL serialized as `url`.
pub uninterp spec fn url_path(url: Seq<char>) -> Seq<char>;

/// `urlencoding::decode(s)`: `s` with its percent escapes decoded, or `None`
/// when the decoded bytes are not UTF-8.
pub uninterp spec fn percent_decode(s: Seq<char>) -> Option<Seq<char>>;

/// A parsed URL together with its serialization.
pub struct WebUrl {
    parsed: url::Url,
    text: String,
}

impl View for WebUrl {
    type V = Seq<char>;

    closed spec fn view(&self) -> Seq<char> {
        self.text@
    }
}

pub open spec fn opt_view(s: Option<String>) -> Option<Seq<char>> {
    match s {
        Some(s) => Some(s@),
        None => None,
    }
}

pub open spec fn opt_str_view(s: Option<&str>) -> Option<Seq<char>> {
    match s {
        Some(s) => Some(s@),
        None => None,
    }
}

pub open spec fn pairs_view(v: Seq<(String, String)>) -> Seq<(Seq<char>, Seq<char>)> {
    v.map_values(|p: (String, String)| (p.0@, p.1@))
}

/// Relies on `url::Url::parse`; `Url::as_str` gives the serialization.
#[verifier::external_body]
pub(crate) fn parse_url(s: &str) -> (r: Result<WebUrl, url::ParseError>)
    ensures
        r is Err <==> url_parse(s@) is None,
        r matches Ok(u) ==> url_parse(s@) == Some(u@),
{
    url::Url::parse(s).map(|parsed| WebUrl { text: parsed.as_str().to_string(), parsed })
}

impl WebUrl {
    /// The serialization.
    pub fn as_str(&self) -> (r: &str)
        ensures
            r@ == self@,
    {
        self.text.as_str()
    }

    /// Relies on `url::Url::host_str`.
    #[verifier::external_body]
    pub(crate) fn host(&self) -> (r: Option<String>)
        ensures
            opt_view(r) == url_host(self@),
    {
        self.parsed.host_str().map(|h| h.to_string())
    }

    /// Relies on `url::Url::set_host`.
    #[verifier::external_body]
    pub(crate) fn set_host(&mut self, host: &str) -> (r: Result<(), url::ParseError>)
        ensures
            r is Err <==> url_set_host(old(self)@, host@) is None,
            r is Ok ==> url_set_host(old(self)@, host@) == Some(final(self)@),
    {
        let r = self.parsed.set_host(Some(host));
        self.text = self.parsed.as_str().to_string();
        r
    }

    /// Relies on `url::Url::set_query`.
    #[verifier::external_body]
    pub(crate) fn set_query(&mut self, query: Option<&str>)
        ensures
            final(self)@ == url_set_query(old(self)@, opt_str_view(query)),
    {
        self.parsed.set_query(query);
        self.text = self.parsed.as_str().to_string();
    }

    /// Relies on `url::Url::query_pairs`.
    #[verifier::external_body]
    pub(crate) fn query_pairs(&self) -> (r: Vec<(String, String)>)
        ensures
            pairs_view(r@) == url_query_pairs(self@),
    {
        self.parsed.query_pairs().map(|(k, v)| (k.into_owned(), v.into_owned())).collect()
    }

    /// Relies on `url::Url::path`.
    #[verifier::external_body]
    pub(crate) fn path(&self) -> (r: String)
        ensures
            r@ == url_path(self@),
    {
        self.parsed.path().to_string()
    }
}

/// Relies on `urlencoding::decode`.
#[verifier::external_body]
pub(crate) fn decode_percent(s: &str) -> (r: Option<String>)
    ensures
        opt_view(r) == percent_decode(s@),
{
    urlencoding::decode(s).ok().map(|c| c.into_owned())
}

} // verus!
