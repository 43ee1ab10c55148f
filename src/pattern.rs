//! Compiled regular expressions, as provided by `fancy_regex`, together with
//! names for what its searches return.
use vstd::prelude::*;
use vstd::utf8::*;

verus! {

#[verifier::external_type_specification]
#[verifier::external_body]
pub struct ExRegex(fancy_regex::Regex);

#[verifier::external_type_specification]
#[verifier::external_body]
pub struct ExRegexError(fancy_regex::Error);

/// Whether `fancy_regex` accepts `pattern` (with default options).
pub uninterp spec fn regex_compiles(pattern: Seq<char>) -> bool;

/// Leftmost-first match of `pattern` in `text`, as a byte range of the UTF-8
/// encoding of `text`; `None` when the search itself fails.
pub uninterp spec fn regex_find(pattern: Seq<char>, text: Seq<char>) -> Option<Option<(int, int)>>;

/// Successive non-overlapping matches of `pattern` in `text`, as byte ranges;
/// `None` when one of the searches fails.
pub uninterp spec fn regex_find_all(pattern: Seq<char>, text: Seq<char>) -> Option<Seq<(int, int)>>;

/// `text` with its first match of `pattern` replaced by `rep` (in which `$name`
/// refers to a capture group); `None` when the search fails.
pub uninterp spec fn regex_replace_first(pattern: Seq<char>, text: Seq<char>, rep: Seq<char>) -> Option<Seq<char>>;

/// The text of capture group `group` in the first match of `pattern` in
/// `text`: `None` when the search fails, `Some(None)` when there is no match,
/// `Some(Some(None))` when the group took no part in the match.
pub uninterp spec fn regex_group(pattern: Seq<char>, text: Seq<char>, group: Seq<char>) -> Option<Option<Option<Seq<char>>>>;

/// A byte range `(start, end)` of `text`'s UTF-8 encoding that starts and ends
/// on character boundaries.
pub open spec fn is_span_of(text: Seq<char>, span: (int, int)) -> bool {
    &&& 0 <= span.0 <= span.1 <= encode_utf8(text).len()
    &&& is_char_boundary(encode_utf8(text), span.0)
    &&& is_char_boundary(encode_utf8(text), span.1)
}

/// Spans of `text` in increasing order that do not overlap.
pub open spec fn are_ordered_spans_of(text: Seq<char>, spans: Seq<(int, int)>) -> bool {
    &&& forall|i: int| 0 <= i < spans.len() ==> #[trigger] is_span_of(text, spans[i])
    &&& forall|i: int| 0 < i < spans.len() ==> spans[i - 1].1 <= #[trigger] spans[i].0
}

/// A regular expression compiled from the text kept beside it.
pub struct Pattern {
    compiled: fancy_regex::Regex,
    source: String,
}

impl View for Pattern {
    type V = Seq<char>;

    closed spec fn view(&self) -> Seq<char> {
        self.source@
    }
}

/// Relies on `fancy_regex::Regex::new`: it fails exactly on the patterns it
/// does not accept, and the compiled value keeps the pattern's text.
#[verifier::external_body]
pub(crate) fn compile_regex(source: &str) -> (r: Result<Pattern, fancy_regex::Error>)
    ensures
        r is Ok <==> regex_compiles(source@),
        r is Ok ==> r->Ok_0@ == source@,
{
    fancy_regex::Regex::new(source).map(|compiled| Pattern { compiled, source: source.to_string() })
}

/// Relies on `fancy_regex::Regex::find`: a match is a range of byte offsets
/// into `text` (`Match::as_str` slices `text` with it).
#[verifier::external_body]
pub(crate) fn find_regex(p: &Pattern, text: &str) -> (r: Result<Option<(usize, usize)>, fancy_regex::Error>)
    ensures
        r is Err <==> regex_find(p@, text@) is None,
        r matches Ok(m) ==> ({
            &&& regex_find(p@, text@) == Some(span_as_int(m))
            &&& m matches Some(s) ==> is_span_of(text@, (s.0 as int, s.1 as int))
        }),
{
    p.compiled.find(text).map(|m| m.map(|m| (m.start(), m.end())))
}

/// Relies on `fancy_regex::Regex::find_iter`: it yields successive
/// non-overlapping matches, each a range of byte offsets into `text`.
#[verifier::external_body]
pub(crate) fn find_all_regex(p: &Pattern, text: &str) -> (r: Result<Vec<(usize, usize)>, fancy_regex::Error>)
    ensures
        r is Err <==> regex_find_all(p@, text@) is None,
        r matches Ok(v) ==> ({
            &&& regex_find_all(p@, text@) == Some(spans_as_int(v@))
            &&& are_ordered_spans_of(text@, spans_as_int(v@))
        }),
{
    p.compiled.find_iter(text).map(|m| m.map(|m| (m.start(), m.end()))).collect()
}

/// Relies on `fancy_regex::Regex::try_replacen` with a limit of one.
#[verifier::external_body]
pub(crate) fn replace_first_regex(p: &Pattern, text: &str, rep: &str) -> (r: Result<String, fancy_regex::Error>)
    ensures
        r is Err <==> regex_replace_first(p@, text@, rep@) is None,
        r matches Ok(s) ==> regex_replace_first(p@, text@, rep@) == Some(s@),
{
    p.compiled.try_replacen(text, 1, rep).map(|c| c.into_owned())
}

/// Relies on `fancy_regex::Regex::captures` and `Captures::name`.
#[verifier::external_body]
pub(crate) fn group_regex(p: &Pattern, text: &str, group: &str) -> (r: Result<Option<Option<String>>, fancy_regex::Error>)
    ensures
        r is Err <==> regex_group(p@, text@, group@) is None,
        r matches Ok(g) ==> regex_group(p@, text@, group@) == Some(group_view(g)),
{
    p.compiled.captures(text).map(|c| c.map(|c| c.name(group).map(|m| m.as_str().to_string())))
}

pub open spec fn span_as_int(m: Option<(usize, usize)>) -> Option<(int, int)> {
    match m {
        Some(s) => Some((s.0 as int, s.1 as int)),
        None => None,
    }
}

pub open spec fn group_view(g: Option<Option<String>>) -> Option<Option<Seq<char>>> {
    match g {
        Some(Some(s)) => Some(Some(s@)),
        Some(None) => Some(None),
        None => None,
    }
}

pub open spec fn spans_as_int(v: Seq<(usize, usize)>) -> Seq<(int, int)> {
    v.map_values(|s: (usize, usize)| (s.0 as int, s.1 as int))
}

} // verus!
