//! The message processor: finds URL-shaped substrings in a message and
//! passes each through the ordered chain of transformers.
use vstd::prelude::*;
use vstd::string::*;
use vstd::utf8::*;

use crate::config::ReplacerConfig;
use crate::error::{ConfigFault, ReplaceConfigError, ReplaceError, ReplaceFault};
use crate::pattern::{are_ordered_spans_of, regex_find, compile_regex, find_all_regex, regex_compiles, regex_find_all, spans_as_int, Pattern};
use crate::replace::amazon::AmazonConfig;
use crate::replace::registry::{build_replacers, builtin_models, config_models};
use crate::replace::replacer::{byte_len, model_pattern, model_process, process_view, LinkReplacer, ReplacerModel};
use crate::text::{byte_slice, slice_by_bytes};

verus! {

broadcast use encode_utf8_valid_utf8;

/// What counts as a URL in a message: an optional scheme, a dotted host, and
/// an optional path that stops before characters that close chat markup.
pub const HTTP_URL_RE: &'static str = r"(?:https?://)?(?:[a-zA-Z0-9-]+\.)+[a-zA-Z]{2,}(?:/[^\s*~`|>\[\]#()]*)?";

/// Progress through a chain of transformers: the text so far, whether a
/// transformer changed it, and the first hard error met.
pub struct ChainState {
    pub text: Seq<char>,
    pub changed: bool,
    pub error: Option<ReplaceFault>,
}

pub open spec fn first_error(a: Option<ReplaceFault>, b: Option<ReplaceFault>) -> Option<ReplaceFault> {
    if a is Some {
        a
    } else {
        b
    }
}

/// One transformer applied to the current text. A rewrite replaces the text;
/// no match and "not modified" leave the state alone; any other error is
/// recorded if it is the first, and the text is kept.
pub open spec fn chain_step(m: ReplacerModel, st: ChainState) -> ChainState {
    match model_process(m, st.text) {
        Ok(Some(n)) => ChainState { text: n, changed: true, error: st.error },
        Ok(None) => st,
        Err(ReplaceFault::UrlNotModified(_)) => st,
        Err(f) => ChainState { text: st.text, changed: st.changed, error: first_error(st.error, Some(f)) },
    }
}

/// The transformers of `ms`, in order, applied from state `st`.
pub open spec fn run_chain(ms: Seq<ReplacerModel>, st: ChainState) -> ChainState
    decreases ms.len(),
{
    if ms.len() == 0 {
        st
    } else {
        chain_step(ms.last(), run_chain(ms.drop_last(), st))
    }
}

/// The chain applied to one candidate.
pub open spec fn candidate_outcome(ms: Seq<ReplacerModel>, candidate: Seq<char>) -> ChainState {
    run_chain(ms, ChainState { text: candidate, changed: false, error: None })
}

/// Where the last of `spans` ends (0 when there is none).
pub open spec fn spans_end(spans: Seq<(int, int)>) -> int {
    if spans.len() == 0 {
        0
    } else {
        spans.last().1
    }
}

/// The message up to the end of its last candidate in `spans`, each
/// candidate replaced by what the chain makes of it.
pub open spec fn spliced(ms: Seq<ReplacerModel>, text: Seq<char>, spans: Seq<(int, int)>) -> ChainState
    decreases spans.len(),
{
    if spans.len() == 0 {
        ChainState { text: Seq::empty(), changed: false, error: None }
    } else {
        let prev = spliced(ms, text, spans.drop_last());
        let span = spans.last();
        let c = candidate_outcome(ms, byte_slice(text, span.0, span.1));
        ChainState {
            text: prev.text + byte_slice(text, spans_end(spans.drop_last()), span.0) + c.text,
            changed: prev.changed || c.changed,
            error: first_error(prev.error, c.error),
        }
    }
}

/// What processing `text` gives: the edited message when some candidate was
/// rewritten; otherwise the first hard error, if any; otherwise nothing.
pub open spec fn message_outcome(url_pattern: Seq<char>, ms: Seq<ReplacerModel>, text: Seq<char>) -> Result<
    Option<Seq<char>>,
    ReplaceFault,
> {
    match regex_find_all(url_pattern, text) {
        None => Err(ReplaceFault::Config(ConfigFault::Regex)),
        Some(spans) => {
            let st = spliced(ms, text, spans);
            if st.changed {
                Ok(Some(st.text + byte_slice(text, spans_end(spans), byte_len(text))))
            } else {
                match st.error {
                    Some(e) => Err(e),
                    None => Ok(None),
                }
            }
        },
    }
}

proof fn lemma_chain_idle(ms: Seq<ReplacerModel>, st: ChainState)
    requires
        forall|k: int| 0 <= k < ms.len() ==> regex_find(model_pattern(#[trigger] ms[k]), st.text) == Some(
            None::<(int, int)>,
        ),
    ensures
        run_chain(ms, st) == st,
    decreases ms.len(),
{
    if ms.len() > 0 {
        let init = ms.drop_last();
        assert forall|k: int| 0 <= k < init.len() implies regex_find(model_pattern(#[trigger] init[k]), st.text)
            == Some(None::<(int, int)>) by {
            assert(init[k] == ms[k]);
        }
        lemma_chain_idle(init, st);
        assert(ms.last() == ms[ms.len() - 1]);
    }
}

proof fn lemma_splice_idle(ms: Seq<ReplacerModel>, text: Seq<char>, spans: Seq<(int, int)>)
    requires
        forall|i: int, k: int|
            0 <= i < spans.len() && 0 <= k < ms.len() ==> regex_find(
                model_pattern(#[trigger] ms[k]),
                byte_slice(text, #[trigger] spans[i].0, spans[i].1),
            ) == Some(None::<(int, int)>),
    ensures
        !spliced(ms, text, spans).changed,
        spliced(ms, text, spans).error is None,
    decreases spans.len(),
{
    if spans.len() > 0 {
        let init = spans.drop_last();
        assert forall|i: int, k: int| 0 <= i < init.len() && 0 <= k < ms.len() implies regex_find(
            model_pattern(#[trigger] ms[k]),
            byte_slice(text, #[trigger] init[i].0, init[i].1),
        ) == Some(None::<(int, int)>) by {
            assert(init[i] == spans[i]);
        }
        lemma_splice_idle(ms, text, init);
        let span = spans.last();
        let cand = byte_slice(text, span.0, span.1);
        assert forall|k: int| 0 <= k < ms.len() implies regex_find(model_pattern(#[trigger] ms[k]), cand) == Some(
            None::<(int, int)>,
        ) by {
            assert(spans[spans.len() - 1] == span);
        }
        lemma_chain_idle(ms, ChainState { text: cand, changed: false, error: None });
    }
}

/// A message in which the URL pattern finds nothing gets no reply.
pub proof fn lemma_no_candidates_no_reply(url_pattern: Seq<char>, ms: Seq<ReplacerModel>, text: Seq<char>)
    requires
        regex_find_all(url_pattern, text) == Some(Seq::<(int, int)>::empty()),
    ensures
        message_outcome(url_pattern, ms, text) == Ok::<Option<Seq<char>>, ReplaceFault>(None),
{
}

/// A message none of whose candidate URLs matches any transformer's link
/// pattern gets no reply; in particular a message that was already rewritten
/// into such a form is left alone when processed again.
pub proof fn lemma_unmatched_message_no_reply(
    url_pattern: Seq<char>,
    ms: Seq<ReplacerModel>,
    text: Seq<char>,
    spans: Seq<(int, int)>,
)
    requires
        regex_find_all(url_pattern, text) == Some(spans),
        forall|i: int, k: int|
            0 <= i < spans.len() && 0 <= k < ms.len() ==> regex_find(
                model_pattern(#[trigger] ms[k]),
                byte_slice(text, #[trigger] spans[i].0, spans[i].1),
            ) == Some(None::<(int, int)>),
    ensures
        message_outcome(url_pattern, ms, text) == Ok::<Option<Seq<char>>, ReplaceFault>(None),
{
    lemma_splice_idle(ms, text, spans);
}

pub open spec fn error_view(e: Option<ReplaceError>) -> Option<ReplaceFault> {
    match e {
        Some(e) => Some(e@),
        None => None,
    }
}

/// Finds links in messages and rewrites those that a transformer handles.
pub struct MessageProcessor {
    url_processors: Vec<LinkReplacer>,
    http_url_regex: Pattern,
}

impl MessageProcessor {
    /// The transformers, in the order they are applied.
    pub closed spec fn models(&self) -> Seq<ReplacerModel> {
        self.url_processors@.map_values(|x: LinkReplacer| x@)
    }

    /// The pattern that finds candidate URLs.
    pub closed spec fn url_pattern(&self) -> Seq<char> {
        self.http_url_regex@
    }

    /// Builds the transformers from the configuration: the media-redirect
    /// and marketplace transformers first, then one per entry, skipping the
    /// entries that fail. Fails only when the URL pattern does not compile.
    pub fn new(config: &ReplacerConfig, reddit_media_re: Option<String>, amazon_config: &AmazonConfig) -> (r:
        Result<Self, ReplaceConfigError>)
        ensures
            r is Ok <==> regex_compiles(HTTP_URL_RE@),
            r matches Ok(p) ==> {
                &&& p.url_pattern() == HTTP_URL_RE@
                &&& p.models() == builtin_models(reddit_media_re, *amazon_config) + config_models(config@)
            },
            r matches Err(e) ==> e@ == ConfigFault::Regex,
    {
        let http_url_regex = match compile_regex(HTTP_URL_RE) {
            Ok(p) => p,
            Err(_) => return Err(ReplaceConfigError::Regex),
        };
        let url_processors = build_replacers(config, reddit_media_re, amazon_config);
        Ok(MessageProcessor { url_processors, http_url_regex })
    }

    /// The chain applied to one candidate.
    fn apply_chain(&self, candidate: String) -> (r: (String, bool, Option<ReplaceError>))
        ensures
            ({
                let st = candidate_outcome(self.models(), candidate@);
                &&& r.0@ == st.text
                &&& r.1 == st.changed
                &&& error_view(r.2) == st.error
            }),
    {
        let ghost ms = self.models();
        let ghost init = ChainState { text: candidate@, changed: false, error: None };
        let mut text = candidate;
        let mut changed = false;
        let mut error: Option<ReplaceError> = None;
        let mut j: usize = 0;
        assert(ms.subrange(0, 0) =~= Seq::<ReplacerModel>::empty());
        while j < self.url_processors.len()
            invariant
                ms == self.models(),
                ms.len() == self.url_processors@.len(),
                j <= ms.len(),
                ({
                    let st = run_chain(ms.subrange(0, j as int), init);
                    &&& text@ == st.text
                    &&& changed == st.changed
                    &&& error_view(error) == st.error
                }),
            decreases self.url_processors.len() - j,
        {
            assert(ms.subrange(0, j + 1).drop_last() =~= ms.subrange(0, j as int));
            assert(ms.subrange(0, j + 1).last() == self.url_processors@[j as int]@);
            match self.url_processors[j].process_url(text.as_str()) {
                Ok(Some(n)) => {
                    text = n;
                    changed = true;
                },
                Ok(None) => {},
                Err(e) => match e {
                    ReplaceError::UrlNotModified(_) => {},
                    other => {
                        if error.is_none() {
                            error = Some(other);
                        }
                    },
                },
            }
            j += 1;
        }
        assert(ms.subrange(0, ms.len() as int) =~= ms);
        (text, changed, error)
    }

    /// Rewrites the links in `msg`: `Ok(Some(text))` when a transformer
    /// changed one, `Ok(None)` when none did and none failed, else the first
    /// error.
    pub fn process_message(&self, msg: &str) -> (r: Result<Option<String>, ReplaceError>)
        ensures
            process_view(r) == message_outcome(self.url_pattern(), self.models(), msg@),
    {
        let spans = match find_all_regex(&self.http_url_regex, msg) {
            Ok(v) => v,
            Err(_) => return Err(ReplaceError::Config(ReplaceConfigError::Regex)),
        };
        let ghost sp = spans_as_int(spans@);
        let ghost ms = self.models();
        proof {
            is_char_boundary_start_end_of_seq(encode_utf8(msg@));
        }
        let mut out = String::new();
        let mut changed = false;
        let mut error: Option<ReplaceError> = None;
        let mut last: usize = 0;
        let mut i: usize = 0;
        assert(sp.subrange(0, 0) =~= Seq::<(int, int)>::empty());
        while i < spans.len()
            invariant
                sp == spans_as_int(spans@),
                sp.len() == spans@.len(),
                are_ordered_spans_of(msg@, sp),
                ms == self.models(),
                i <= sp.len(),
                last as int == spans_end(sp.subrange(0, i as int)),
                last <= encode_utf8(msg@).len(),
                is_char_boundary(encode_utf8(msg@), last as int),
                ({
                    let st = spliced(ms, msg@, sp.subrange(0, i as int));
                    &&& out@ == st.text
                    &&& changed == st.changed
                    &&& error_view(error) == st.error
                }),
            decreases spans.len() - i,
        {
            let (start, end) = spans[i];
            assert(sp[i as int] == (start as int, end as int));
            assert(crate::pattern::is_span_of(msg@, sp[i as int]));
            let ghost prefix = sp.subrange(0, i + 1);
            assert(prefix.drop_last() =~= sp.subrange(0, i as int));
            assert(prefix.last() == sp[i as int]);
            if i > 0 {
                assert(sp.subrange(0, i as int).last() == sp[i - 1]);
                assert(sp[i - 1].1 <= sp[i as int].0);
            }
            let gap = slice_by_bytes(msg, last, start);
            let candidate = slice_by_bytes(msg, start, end);
            let (text, c_changed, c_error) = self.apply_chain(candidate);
            out.append(gap.as_str());
            out.append(text.as_str());
            changed = changed || c_changed;
            if error.is_none() {
                error = c_error;
            }
            last = end;
            i += 1;
        }
        assert(sp.subrange(0, sp.len() as int) =~= sp);
        if changed {
            let len = msg.as_bytes().len();
            let rest = slice_by_bytes(msg, last, len);
            out.append(rest.as_str());
            Ok(Some(out))
        } else {
            match error {
                Some(e) => Err(e),
                None => Ok(None),
            }
        }
    }
}

} // verus!
