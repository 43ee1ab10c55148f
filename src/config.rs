//! Configuration values: per-platform overrides, the ordered map of them,
//! and the remaining settings of the service.
use vstd::prelude::*;

use crate::replace::amazon::AmazonConfig;
use crate::text::same_text;

verus! {

/// The text of an override, or `default` when it is absent.
pub open spec fn text_or(o: Option<String>, default: Seq<char>) -> Seq<char> {
    match o {
        Some(s) => s@,
        None => default,
    }
}

/// A flag override, or `default` when it is absent.
pub open spec fn flag_or(o: Option<bool>, default: bool) -> bool {
    match o {
        Some(b) => b,
        None => default,
    }
}

/// Overrides for one transformer; a field left `None` takes the platform's
/// default. A custom transformer must give the first four.
pub struct LinkReplacerConfig {
    pub new_domain: Option<String>,
    pub regex: Option<String>,
    pub domain_re: Option<String>,
    pub strip_query: Option<bool>,
    /// Further key/value pairs, kept for transformers that read them.
    pub custom_config: Vec<(String, String)>,
}

impl LinkReplacerConfig {
    /// Overrides the new domain only.
    pub fn new(new_domain: String) -> (r: Self)
        ensures
            r.new_domain == Some(new_domain),
            r.regex is None,
            r.domain_re is None,
            r.strip_query is None,
            r.custom_config@.len() == 0,
    {
        LinkReplacerConfig {
            new_domain: Some(new_domain),
            regex: None,
            domain_re: None,
            strip_query: None,
            custom_config: Vec::new(),
        }
    }

    pub fn set_regex(&mut self, regex: String) -> (r: &mut Self)
        ensures
            r.regex == Some(regex),
            r.new_domain == old(self).new_domain,
            r.domain_re == old(self).domain_re,
            r.strip_query == old(self).strip_query,
            r.custom_config == old(self).custom_config,
            *final(self) == *final(r),
    {
        self.regex = Some(regex);
        self
    }

    pub fn set_domain_re(&mut self, domain_re: String) -> (r: &mut Self)
        ensures
            r.domain_re == Some(domain_re),
            r.new_domain == old(self).new_domain,
            r.regex == old(self).regex,
            r.strip_query == old(self).strip_query,
            r.custom_config == old(self).custom_config,
            *final(self) == *final(r),
    {
        self.domain_re = Some(domain_re);
        self
    }

    pub fn set_strip_query(&mut self, strip_query: bool) -> (r: &mut Self)
        ensures
            r.strip_query == Some(strip_query),
            r.new_domain == old(self).new_domain,
            r.regex == old(self).regex,
            r.domain_re == old(self).domain_re,
            r.custom_config == old(self).custom_config,
            *final(self) == *final(r),
    {
        self.strip_query = Some(strip_query);
        self
    }
}

impl Default for LinkReplacerConfig {
    /// No overrides at all.
    fn default() -> (r: Self)
        ensures
            r.new_domain is None,
            r.regex is None,
            r.domain_re is None,
            r.strip_query is None,
            r.custom_config@.len() == 0,
    {
        LinkReplacerConfig {
            new_domain: None,
            regex: None,
            domain_re: None,
            strip_query: None,
            custom_config: Vec::new(),
        }
    }
}

/// Per-transformer overrides under their keys, in the order the keys were
/// first inserted. A key occurs at most once.
pub struct ReplacerConfig {
    entries: Vec<(String, LinkReplacerConfig)>,
}

/// The keys of `s` are pairwise distinct.
pub open spec fn keys_unique(s: Seq<(Seq<char>, LinkReplacerConfig)>) -> bool {
    forall|i: int, j: int| 0 <= i < j < s.len() ==> #[trigger] s[i].0 != #[trigger] s[j].0
}

/// `key` occurs in `s` at `i` and not before.
pub open spec fn first_key_at(s: Seq<(Seq<char>, LinkReplacerConfig)>, key: Seq<char>, i: int) -> bool {
    0 <= i < s.len() && s[i].0 == key && forall|k: int| 0 <= k < i ==> s[k].0 != key
}

/// Position of `key` in `s`, if it is there.
pub open spec fn key_position(s: Seq<(Seq<char>, LinkReplacerConfig)>, key: Seq<char>) -> Option<int> {
    if exists|i: int| 0 <= i < s.len() && s[i].0 == key {
        Some(choose|i: int| first_key_at(s, key, i))
    } else {
        None
    }
}

impl View for ReplacerConfig {
    type V = Seq<(Seq<char>, LinkReplacerConfig)>;

    closed spec fn view(&self) -> Seq<(Seq<char>, LinkReplacerConfig)> {
        self.entries@.map_values(|e: (String, LinkReplacerConfig)| (e.0@, e.1))
    }
}

impl ReplacerConfig {
    /// Keys are unique.
    pub closed spec fn wf(&self) -> bool {
        keys_unique(self@)
    }

    pub fn new() -> (r: Self)
        ensures
            r@ == Seq::<(Seq<char>, LinkReplacerConfig)>::empty(),
            r.wf(),
    {
        let r = ReplacerConfig { entries: Vec::new() };
        assert(r@ =~= Seq::<(Seq<char>, LinkReplacerConfig)>::empty());
        r
    }

    pub fn len(&self) -> (r: usize)
        ensures
            r == self@.len(),
    {
        self.entries.len()
    }

    /// The key and value at position `i`.
    pub fn entry_at(&self, i: usize) -> (r: (&String, &LinkReplacerConfig))
        requires
            i < self@.len(),
        ensures
            r.0@ == self@[i as int].0,
            *r.1 == self@[i as int].1,
    {
        let e = &self.entries[i];
        (&e.0, &e.1)
    }

    /// Position of `key`, if present.
    pub fn position(&self, key: &str) -> (r: Option<usize>)
        ensures
            r is None <==> key_position(self@, key@) is None,
            r matches Some(i) ==> key_position(self@, key@) == Some(i as int) && first_key_at(
                self@,
                key@,
                i as int,
            ),
    {
        let mut i: usize = 0;
        while i < self.entries.len()
            invariant
                i <= self@.len(),
                self@.len() == self.entries@.len(),
                forall|k: int| 0 <= k < i ==> self@[k].0 != key@,
            decreases self.entries.len() - i,
        {
            if same_text(self.entries[i].0.as_str(), key) {
                assert(first_key_at(self@, key@, i as int));
                let ghost j = choose|j: int| first_key_at(self@, key@, j);
                assert(j == i) by {
                    if j < i {
                        assert(self@[j].0 != key@);
                    } else if j > i {
                        assert(self@[i as int].0 != key@);
                    }
                }
                return Some(i);
            }
            i += 1;
        }
        None
    }

    /// Whether `key` is present.
    pub fn contains_key(&self, key: &str) -> (r: bool)
        ensures
            r == key_position(self@, key@) is Some,
    {
        self.position(key).is_some()
    }

    /// The value under `key`, if present.
    pub fn get(&self, key: &str) -> (r: Option<&LinkReplacerConfig>)
        ensures
            r is None <==> key_position(self@, key@) is None,
            r matches Some(v) ==> *v == self@[key_position(self@, key@)->0].1,
    {
        match self.position(key) {
            Some(i) => Some(&self.entries[i].1),
            None => None,
        }
    }

    /// Puts `value` under `key`: in place of the old value, which is
    /// returned, or as a new last entry.
    pub fn insert(&mut self, key: String, value: LinkReplacerConfig) -> (r: Option<LinkReplacerConfig>)
        requires
            old(self).wf(),
        ensures
            final(self).wf(),
            match key_position(old(self)@, key@) {
                Some(i) => {
                    &&& final(self)@ == old(self)@.update(i, (key@, value))
                    &&& r == Some(old(self)@[i].1)
                },
                None => {
                    &&& final(self)@ == old(self)@.push((key@, value))
                    &&& r is None
                },
            },
    {
        match self.position(key.as_str()) {
            Some(i) => {
                let ghost before = self@;
                let mut old_entry = (key, value);
                std::mem::swap(&mut self.entries[i], &mut old_entry);
                assert(self@ =~= before.update(i as int, (before[i as int].0, value)));
                Some(old_entry.1)
            },
            None => {
                let ghost before = self@;
                self.entries.push((key, value));
                assert(self@ =~= before.push((key@, value)));
                None
            },
        }
    }
}

/// The reaction with which a user asks for the bot's reply to be deleted.
pub struct DeleteReplyReaction(String);

impl View for DeleteReplyReaction {
    type V = Seq<char>;

    closed spec fn view(&self) -> Seq<char> {
        self.0@
    }
}

impl DeleteReplyReaction {
    pub fn new(str: String) -> (r: Self)
        ensures
            r@ == str@,
    {
        DeleteReplyReaction(str)
    }

    pub fn as_ref(&self) -> (r: &str)
        ensures
            r@ == self@,
    {
        self.0.as_str()
    }
}

/// The default reaction: a cross mark.
pub const DEFAULT_DELETE_REACTION: &'static str = "\u{274c}";

impl Default for DeleteReplyReaction {
    fn default() -> (r: Self)
        ensures
            r@ == DEFAULT_DELETE_REACTION@,
    {
        DeleteReplyReaction(DEFAULT_DELETE_REACTION.to_owned())
    }
}

/// Where the health endpoint listens.
pub struct HttpConfig {
    pub host: String,
    pub port: u16,
}

pub const DEFAULT_HTTP_HOST: &'static str = "127.0.0.1";

pub const DEFAULT_HTTP_PORT: u16 = 3000;

impl Default for HttpConfig {
    fn default() -> (r: Self)
        ensures
            r.host@ == DEFAULT_HTTP_HOST@,
            r.port == DEFAULT_HTTP_PORT,
    {
        HttpConfig { host: DEFAULT_HTTP_HOST.to_owned(), port: DEFAULT_HTTP_PORT }
    }
}

/// The whole configuration of the service.
pub struct Config {
    pub token: String,
    pub http: HttpConfig,
    pub amazon: AmazonConfig,
    pub reddit_media_regex: Option<String>,
    pub delete_reply_reaction: DeleteReplyReaction,
    pub replacers: ReplacerConfig,
}

/// The platforms that get an entry, with no overrides, when the
/// configuration has none for them.
pub open spec fn default_mappings() -> Seq<Seq<char>> {
    seq!["instagram"@, "pixiv"@, "reddit"@, "tiktok"@, "twitter"@, "youtube"@, "bsky"@]
}

/// The `i`-th of the default platform names.
pub fn default_mapping(i: usize) -> (r: &'static str)
    requires
        i < default_mappings().len(),
    ensures
        r@ == default_mappings()[i as int],
{
    match i {
        0 => "instagram",
        1 => "pixiv",
        2 => "reddit",
        3 => "tiktok",
        4 => "twitter",
        5 => "youtube",
        _ => "bsky",
    }
}

pub open spec fn keys_of(s: Seq<(Seq<char>, LinkReplacerConfig)>) -> Seq<Seq<char>> {
    s.map_values(|e: (Seq<char>, LinkReplacerConfig)| e.0)
}

/// `keys` with each of `names` that is not yet there appended, in order.
pub open spec fn with_names(keys: Seq<Seq<char>>, names: Seq<Seq<char>>) -> Seq<Seq<char>>
    decreases names.len(),
{
    if names.len() == 0 {
        keys
    } else {
        let k = with_names(keys, names.drop_last());
        if k.contains(names.last()) {
            k
        } else {
            k.push(names.last())
        }
    }
}

/// An override that overrides nothing.
pub open spec fn is_blank(c: LinkReplacerConfig) -> bool {
    &&& c.new_domain is None
    &&& c.regex is None
    &&& c.domain_re is None
    &&& c.strip_query is None
    &&& c.custom_config@.len() == 0
}

proof fn lemma_key_position_contains(s: Seq<(Seq<char>, LinkReplacerConfig)>, key: Seq<char>)
    ensures
        key_position(s, key) is Some <==> keys_of(s).contains(key),
{
    if keys_of(s).contains(key) {
        let i = choose|i: int| 0 <= i < keys_of(s).len() && keys_of(s)[i] == key;
        assert(s[i].0 == key);
    }
    if key_position(s, key) is Some {
        let i = choose|i: int| 0 <= i < s.len() && s[i].0 == key;
        assert(keys_of(s)[i] == key);
    }
}

/// Adds an entry without overrides for each default platform that the
/// configuration does not mention; everything else is kept.
pub fn create_default_config(config: Config) -> (r: Config)
    requires
        config.replacers.wf(),
    ensures
        r.replacers.wf(),
        keys_of(r.replacers@) == with_names(keys_of(config.replacers@), default_mappings()),
        r.replacers@.subrange(0, config.replacers@.len() as int) == config.replacers@,
        forall|i: int| config.replacers@.len() <= i < r.replacers@.len() ==> is_blank(#[trigger] r.replacers@[i].1),
        r.token == config.token,
        r.http == config.http,
        r.amazon == config.amazon,
        r.reddit_media_regex == config.reddit_media_regex,
        r.delete_reply_reaction == config.delete_reply_reaction,
{
    let Config { token, http, amazon, reddit_media_regex, delete_reply_reaction, replacers } = config;
    let mut replacers = replacers;
    let ghost original = replacers@;
    let ghost names = default_mappings();
    let mut j: usize = 0;
    assert(names.subrange(0, 0) =~= Seq::<Seq<char>>::empty());
    assert(original.subrange(0, original.len() as int) =~= original);
    while j < 7
        invariant
            names == default_mappings(),
            j <= 7,
            replacers.wf(),
            keys_of(replacers@) == with_names(keys_of(original), names.subrange(0, j as int)),
            replacers@.len() >= original.len(),
            replacers@.subrange(0, original.len() as int) == original,
            forall|i: int| original.len() <= i < replacers@.len() ==> is_blank(#[trigger] replacers@[i].1),
        decreases 7 - j,
    {
        let name = default_mapping(j);
        let ghost before = replacers@;
        assert(names.subrange(0, j + 1).drop_last() =~= names.subrange(0, j as int));
        assert(names.subrange(0, j + 1).last() == name@);
        proof {
            lemma_key_position_contains(before, name@);
        }
        if !replacers.contains_key(name) {
            let blank = LinkReplacerConfig::default();
            replacers.insert(name.to_owned(), blank);
            assert(keys_of(replacers@) =~= keys_of(before).push(name@));
            assert(replacers@.subrange(0, original.len() as int) =~= before.subrange(0, original.len() as int));
        }
        j += 1;
    }
    assert(names.subrange(0, 7) =~= names);
    Config { token, http, amazon, reddit_media_regex, delete_reply_reaction, replacers }
}

} // verus!
