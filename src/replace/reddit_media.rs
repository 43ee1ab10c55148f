//! Reddit media-viewer links: the wrapped media URL is taken out of the
//! `url` query parameter and decoded; images and videos are pointed at the
//! direct host.
use vstd::prelude::*;

use crate::error::{outcome_view, ConfigFault, ReplaceConfigError, ReplaceError, ReplaceFault};
use crate::pattern::{compile_regex, regex_compiles, Pattern};
use crate::text::{ends_with, has_suffix, replace_all, replace_all_of, same_text};
use crate::web_url::{
    decode_percent, pairs_view, parse_url, percent_decode, url_parse, url_path, url_query_pairs,
    url_set_query,
};

verus! {

pub const REDDIT_MEDIA_LINK_RE_STR: &'static str = r"https?://(\w+\.)?reddit\.com/media[^\s]+";

/// The query parameter that holds the wrapped URL.
pub const MEDIA_PARAM: &'static str = "url";

pub const PREVIEW_HOST_PREFIX: &'static str = "//preview.";

pub const DIRECT_HOST_PREFIX: &'static str = "//i.";

/// A path that names an image or video file of a type that the direct host
/// serves.
pub open spec fn is_media_path(path: Seq<char>) -> bool {
    has_suffix(path, ".jpeg"@) || has_suffix(path, ".jpg"@) || has_suffix(path, ".png"@)
        || has_suffix(path, ".gif"@) || has_suffix(path, ".webp"@)
}

/// `url` parses and its path names a media file.
pub open spec fn is_fixable(url: Seq<char>) -> bool {
    match url_parse(url) {
        Some(parsed) => is_media_path(url_path(parsed)),
        None => false,
    }
}

/// The value of the last pair named `name`.
pub open spec fn last_value_of(pairs: Seq<(Seq<char>, Seq<char>)>, name: Seq<char>) -> Option<Seq<char>>
    decreases pairs.len(),
{
    if pairs.len() == 0 {
        None
    } else if pairs.last().0 == name {
        Some(pairs.last().1)
    } else {
        last_value_of(pairs.drop_last(), name)
    }
}

/// What the media rewrite makes of `url`: the last `url` parameter,
/// percent-decoded; when that names a media file, with its preview host
/// replaced by the direct host and without its query.
pub open spec fn media_rewrite(url: Seq<char>) -> Result<Seq<char>, ReplaceFault> {
    match url_parse(url) {
        None => Err(ReplaceFault::Url),
        Some(parsed) => match last_value_of(url_query_pairs(parsed), MEDIA_PARAM@) {
            None => Err(ReplaceFault::NoQueryParams),
            Some(media) => match percent_decode(media) {
                None => Err(ReplaceFault::Utf8Decode),
                Some(decoded) => if is_fixable(decoded) {
                    match url_parse(replace_all_of(decoded, PREVIEW_HOST_PREFIX@, DIRECT_HOST_PREFIX@)) {
                        None => Err(ReplaceFault::Url),
                        Some(direct) => Ok(url_set_query(direct, None)),
                    }
                } else {
                    Ok(decoded)
                },
            },
        },
    }
}

/// A media-viewer link whose last `url` parameter decodes to `decoded`
/// gives, when `decoded` names an image or video file, `decoded` with the
/// preview host replaced by the direct host and without its query; and
/// otherwise `decoded` itself.
pub proof fn lemma_media_redirect_decode(url: Seq<char>, parsed: Seq<char>, media: Seq<char>, decoded: Seq<char>)
    requires
        url_parse(url) == Some(parsed),
        last_value_of(url_query_pairs(parsed), MEDIA_PARAM@) == Some(media),
        percent_decode(media) == Some(decoded),
    ensures
        is_fixable(decoded) ==> media_rewrite(url) == match url_parse(
            replace_all_of(decoded, PREVIEW_HOST_PREFIX@, DIRECT_HOST_PREFIX@),
        ) {
            Some(direct) => Ok::<Seq<char>, ReplaceFault>(url_set_query(direct, None)),
            None => Err(ReplaceFault::Url),
        },
        !is_fixable(decoded) ==> media_rewrite(url) == Ok::<Seq<char>, ReplaceFault>(decoded),
{
}

/// The value of the last pair of `pairs` named `name`.
pub fn last_value(pairs: &Vec<(String, String)>, name: &str) -> (r: Option<String>)
    ensures
        match r {
            Some(v) => last_value_of(pairs_view(pairs@), name@) == Some(v@),
            None => last_value_of(pairs_view(pairs@), name@) is None,
        },
{
    let ghost all = pairs_view(pairs@);
    let mut found: Option<String> = None;
    let mut i: usize = 0;
    assert(all.subrange(0, 0).len() == 0);
    while i < pairs.len()
        invariant
            i <= pairs@.len(),
            all == pairs_view(pairs@),
            match found {
                Some(v) => last_value_of(all.subrange(0, i as int), name@) == Some(v@),
                None => last_value_of(all.subrange(0, i as int), name@) is None,
            },
        decreases pairs.len() - i,
    {
        assert(all.subrange(0, i + 1).drop_last() =~= all.subrange(0, i as int));
        if same_text(pairs[i].0.as_str(), name) {
            found = Some(pairs[i].1.clone());
        }
        i += 1;
    }
    assert(all.subrange(0, all.len() as int) =~= all);
    found
}

/// Extracts and decodes the media URL that Reddit's media viewer wraps.
pub struct RedditMediaReplacer {
    pub regex: Pattern,
}

impl RedditMediaReplacer {
    /// Uses `media_re_str`, or the default link pattern when it is absent.
    pub fn new(media_re_str: Option<String>) -> (r: Result<Self, ReplaceError>)
        ensures
            r is Ok <==> regex_compiles(crate::config::text_or(media_re_str, REDDIT_MEDIA_LINK_RE_STR@)),
            r matches Ok(m) ==> m.regex@ == crate::config::text_or(media_re_str, REDDIT_MEDIA_LINK_RE_STR@),
            r matches Err(e) ==> e@ == ReplaceFault::Config(ConfigFault::Regex),
    {
        let source = match media_re_str {
            Some(s) => s,
            None => REDDIT_MEDIA_LINK_RE_STR.to_owned(),
        };
        match compile_regex(source.as_str()) {
            Ok(regex) => Ok(RedditMediaReplacer { regex }),
            Err(_) => Err(ReplaceError::Config(ReplaceConfigError::Regex)),
        }
    }

    /// Whether `url` parses with a path that names a media file.
    pub fn fixable_url(&self, url: &str) -> (r: bool)
        ensures
            r == is_fixable(url@),
    {
        match parse_url(url) {
            Ok(parsed) => {
                let path = parsed.path();
                let p = path.as_str();
                ends_with(p, ".jpeg") || ends_with(p, ".jpg") || ends_with(p, ".png") || ends_with(p, ".gif")
                    || ends_with(p, ".webp")
            },
            Err(_) => false,
        }
    }

    pub fn get_regex(&self) -> (r: &Pattern)
        ensures
            r@ == self.regex@,
    {
        &self.regex
    }

    pub fn transform_url(&self, url: &str) -> (r: Result<String, ReplaceError>)
        ensures
            outcome_view(r) == media_rewrite(url@),
    {
        let parsed = match parse_url(url) {
            Ok(u) => u,
            Err(_) => return Err(ReplaceError::Url),
        };
        let pairs = parsed.query_pairs();
        let media = match last_value(&pairs, MEDIA_PARAM) {
            Some(m) => m,
            None => return Err(ReplaceError::NoQueryParams),
        };
        let decoded = match decode_percent(media.as_str()) {
            Some(d) => d,
            None => return Err(ReplaceError::Utf8Decode),
        };
        if self.fixable_url(decoded.as_str()) {
            proof {
                reveal_strlit("//preview.");
            }
            let adjusted = replace_all(decoded.as_str(), PREVIEW_HOST_PREFIX, DIRECT_HOST_PREFIX);
            let mut direct = match parse_url(adjusted.as_str()) {
                Ok(u) => u,
                Err(_) => return Err(ReplaceError::Url),
            };
            direct.set_query(None);
            Ok(direct.as_str().to_owned())
        } else {
            Ok(decoded)
        }
    }
}

} // verus!
