//! Theme selection and resolution.
//!
//! A theme is either absent, a named preset from a read-only theme table, or
//! a custom whitespace-separated word list typed by the user. Resolution
//! turns the selection into the word list handed to the semantic model, and
//! classifies failures: an empty word list is an "empty theme", distinct
//! from "these specific words are unknown". The lexicon of known words is
//! injected by the caller, so the core stays independent of the corpus.
use vstd::prelude::*;

verus! {

/// The user's theme selection. `Custom` carries no data: its text lives in a
/// sibling field of the session and is only consulted at resolution time.
#[derive(Clone, Debug)]
pub enum Theme {
    No,
    Preset(String),
    Custom,
}

impl PartialEq for Theme {
    fn eq(&self, other: &Theme) -> (r: bool) {
        match (self, other) {
            (Theme::No, Theme::No) => true,
            (Theme::Preset(a), Theme::Preset(b)) => *a == *b,
            (Theme::Custom, Theme::Custom) => true,
            _ => false,
        }
    }
}

impl vstd::std_specs::cmp::PartialEqSpecImpl for Theme {
    open spec fn obeys_eq_spec() -> bool {
        true
    }

    open spec fn eq_spec(&self, other: &Theme) -> bool {
        match (self, other) {
            (Theme::No, Theme::No) => true,
            (Theme::Preset(a), Theme::Preset(b)) => a@ == b@,
            (Theme::Custom, Theme::Custom) => true,
            _ => false,
        }
    }
}

impl From<Option<String>> for Theme {
    /// A selection from a preset list: a name picks that preset, no name
    /// means no theme.
    fn from(preset: Option<String>) -> (t: Theme) {
        match preset {
            Option::None => Theme::No,
            Option::Some(s) => Theme::Preset(s),
        }
    }
}

impl vstd::std_specs::convert::FromSpecImpl<Option<String>> for Theme {
    open spec fn obeys_from_spec() -> bool {
        true
    }

    open spec fn from_spec(preset: Option<String>) -> Theme {
        match preset {
            Option::None => Theme::No,
            Option::Some(s) => Theme::Preset(s),
        }
    }
}

impl Theme {
    /// The label shown for the selection.
    pub fn name(&self) -> (r: String)
        ensures
            self is No ==> r@ == "Без темы"@,
            forall|s: String| *self == Theme::Preset(s) ==> r@ == s@,
            self is Custom ==> r@ == "Пользовательская"@,
    {
        match self {
            Theme::No => "Без темы".to_owned(),
            Theme::Preset(s) => s.clone(),
            Theme::Custom => "Пользовательская".to_owned(),
        }
    }
}

/// The read-only table of built-in themes: preset names with their defining
/// word lists, enumerable for presentation and indexable by name. When two
/// entries share a name, the first wins.
pub struct ThemeTable {
    pub entries: Vec<(String, Vec<String>)>,
}

/// First entry of `es` whose name reads `name`, as its word-list views.
pub open spec fn spec_lookup_in(es: Seq<(String, Vec<String>)>, name: Seq<char>) -> Option<
    Seq<Seq<char>>,
>
    decreases es.len(),
{
    if es.len() == 0 {
        Option::None
    } else if es[0].0@ == name {
        Option::Some(es[0].1.deep_view())
    } else {
        spec_lookup_in(es.skip(1), name)
    }
}

impl ThemeTable {
    /// The word lists of the preset called `name`, if the table has it.
    pub open spec fn spec_lookup(&self, name: Seq<char>) -> Option<Seq<Seq<char>>> {
        spec_lookup_in(self.entries@, name)
    }

    /// An empty table.
    pub fn new() -> (t: ThemeTable)
        ensures
            t.entries@.len() == 0,
    {
        ThemeTable { entries: Vec::new() }
    }

    /// Append one preset.
    pub fn add(&mut self, name: String, words: Vec<String>)
        ensures
            final(self).entries@ == old(self).entries@.push((name, words)),
    {
        self.entries.push((name, words));
    }

    /// How many presets the table holds.
    pub fn len(&self) -> (n: usize)
        ensures
            n == self.entries@.len(),
    {
        self.entries.len()
    }

    /// The name of the `i`-th preset, for listing them in order.
    pub fn name_at(&self, i: usize) -> (r: &String)
        requires
            i < self.entries@.len(),
        ensures
            r@ == self.entries@[i as int].0@,
    {
        &self.entries[i].0
    }

    /// Position of the first preset called `name`, if any.
    pub fn lookup_index(&self, name: &String) -> (r: Option<usize>)
        ensures
            match r {
                Option::Some(k) => k < self.entries@.len() && self.entries@[k as int].0@ == name@
                    && self.spec_lookup(name@) == Option::Some(
                    self.entries@[k as int].1.deep_view(),
                ),
                Option::None => self.spec_lookup(name@) is None,
            },
    {
        let mut k: usize = 0;
        proof {
            assert(self.entries@.skip(0) =~= self.entries@);
        }
        while k < self.entries.len()
            invariant
                k <= self.entries@.len(),
                spec_lookup_in(self.entries@.skip(k as int), name@) == self.spec_lookup(name@),
                forall|j: int| 0 <= j < k ==> self.entries@[j].0@ != name@,
            decreases self.entries@.len() - k,
        {
            proof {
                assert(self.entries@.skip(k as int)[0] == self.entries@[k as int]);
            }
            let entry = &self.entries[k];
            if entry.0 == *name {
                return Option::Some(k);
            }
            proof {
                assert(self.entries@.skip(k as int).skip(1) =~= self.entries@.skip(k as int + 1));
            }
            k = k + 1;
        }
        proof {
            assert(self.entries@.skip(k as int).len() == 0);
        }
        Option::None
    }
}

/// The set of words the semantic model may be built from: the injected,
/// read-only view of the corpus's known lexical entries.
pub struct Lexicon {
    pub words: Vec<String>,
}

impl Lexicon {
    /// Whether `w` is a known word.
    pub open spec fn spec_contains(&self, w: Seq<char>) -> bool {
        exists|k: int| 0 <= k < self.words@.len() && self.words@[k]@ == w
    }

    /// An empty lexicon.
    pub fn new() -> (l: Lexicon)
        ensures
            l.words@.len() == 0,
    {
        Lexicon { words: Vec::new() }
    }

    /// Add one known word.
    pub fn add(&mut self, w: String)
        ensures
            final(self).words@ == old(self).words@.push(w),
    {
        self.words.push(w);
    }

    /// Whether `w` is a known word.
    pub fn contains(&self, w: &String) -> (r: bool)
        ensures
            r == self.spec_contains(w@),
    {
        let mut k: usize = 0;
        while k < self.words.len()
            invariant
                k <= self.words@.len(),
                forall|j: int| 0 <= j < k ==> self.words@[j]@ != w@,
            decreases self.words@.len() - k,
        {
            let cand = &self.words[k];
            if *cand == *w {
                return true;
            }
            k = k + 1;
        }
        false
    }
}

/// Whitespace, for splitting a custom theme text into words.
pub open spec fn is_space(c: char) -> bool {
    c == ' ' || c == '\t' || c == '\n' || c == '\r'
}

/// End of the word starting at `i`: the first position at or after `i`
/// holding whitespace, or the end of the text.
pub open spec fn word_end(s: Seq<char>, i: int) -> int
    decreases s.len() - i,
{
    if i >= s.len() {
        s.len() as int
    } else if is_space(s[i]) {
        i
    } else {
        word_end(s, i + 1)
    }
}

proof fn lemma_word_end_bounds(s: Seq<char>, i: int)
    requires
        i <= s.len(),
    ensures
        i <= word_end(s, i) <= s.len(),
        i < s.len() && !is_space(s[i]) ==> i < word_end(s, i),
    decreases s.len() - i,
{
    if i < s.len() && !is_space(s[i]) {
        lemma_word_end_bounds(s, i + 1);
    }
}

/// The words of `s` from position `i` on: maximal runs of non-whitespace
/// characters, in order, empty runs discarded.
pub open spec fn split_from(s: Seq<char>, i: int) -> Seq<Seq<char>>
    decreases s.len() - i,
    via split_from_dec
{
    if i >= s.len() {
        Seq::empty()
    } else if is_space(s[i]) {
        split_from(s, i + 1)
    } else {
        seq![s.subrange(i, word_end(s, i))] + split_from(s, word_end(s, i))
    }
}

#[via_fn]
proof fn split_from_dec(s: Seq<char>, i: int) {
    if i <= s.len() {
        lemma_word_end_bounds(s, i);
    }
}

/// The whitespace-separated words of a whole text.
pub open spec fn spec_split(s: Seq<char>) -> Seq<Seq<char>> {
    split_from(s, 0)
}

fn is_space_char(c: char) -> (r: bool)
    ensures
        r == is_space(c),
{
    c == ' ' || c == '\t' || c == '\n' || c == '\r'
}

fn word_end_exec(text: &str, i: usize) -> (e: usize)
    requires
        i <= text@.len(),
        text@.len() < usize::MAX,
    ensures
        e == word_end(text@, i as int),
        i <= e <= text@.len(),
{
    let n = text.unicode_len();
    let mut j = i;
    while j < n
        invariant
            i <= j <= n,
            n == text@.len(),
            word_end(text@, i as int) == word_end(text@, j as int),
        decreases n - j,
    {
        let c = text.get_char(j);
        if is_space_char(c) {
            proof {
                lemma_word_end_bounds(text@, i as int);
            }
            return j;
        }
        j = j + 1;
    }
    proof {
        lemma_word_end_bounds(text@, i as int);
    }
    j
}

/// Split a text on whitespace into its words, empty tokens discarded.
pub fn split_words(text: &str) -> (words: Vec<String>)
    requires
        text@.len() < usize::MAX,
    ensures
        words.deep_view() == spec_split(text@),
{
    let n = text.unicode_len();
    let mut words: Vec<String> = Vec::new();
    let mut i: usize = 0;
    while i < n
        invariant
            i <= n,
            n == text@.len(),
            text@.len() < usize::MAX,
            spec_split(text@) == words.deep_view() + split_from(text@, i as int),
        decreases n - i,
    {
        let c = text.get_char(i);
        if is_space_char(c) {
            i = i + 1;
        } else {
            let e = word_end_exec(text, i);
            proof {
                lemma_word_end_bounds(text@, i as int);
            }
            let word_str = text.substring_char(i, e);
            let word = word_str.to_owned();
            let ghost prev = words.deep_view();
            words.push(word);
            proof {
                assert(words.deep_view() =~= prev.push(text@.subrange(i as int, e as int)));
                assert(split_from(text@, i as int) == seq![
                    text@.subrange(i as int, e as int),
                ] + split_from(text@, e as int));
                assert(prev + split_from(text@, i as int) =~= words.deep_view() + split_from(
                    text@,
                    e as int,
                ));
            }
            i = e;
        }
    }
    proof {
        assert(split_from(text@, i as int) =~= Seq::empty());
        assert(words.deep_view() + Seq::<Seq<char>>::empty() =~= words.deep_view());
    }
    words
}

/// A resolved theme: the opaque handle the ranking engine is given. It
/// records the word list the semantic model was built from.
pub struct ThemeHandle {
    pub words: Vec<String>,
}

/// Why a theme failed to resolve. The two cases are distinct on purpose:
/// an empty word list is not the same report as specific unknown words.
#[derive(Debug)]
pub enum ThemeError {
    /// The selection produced no words at all.
    EmptyTheme,
    /// These words, in input order, are not in the lexicon.
    UnknownWords(Vec<String>),
}

/// The words among the first `j` of `ws` that the lexicon does not know,
/// in input order.
pub open spec fn unknown_upto(ws: Seq<Seq<char>>, lex: Lexicon, j: int) -> Seq<Seq<char>>
    decreases j,
{
    if j <= 0 {
        Seq::empty()
    } else if lex.spec_contains(ws[j - 1]) {
        unknown_upto(ws, lex, j - 1)
    } else {
        unknown_upto(ws, lex, j - 1).push(ws[j - 1])
    }
}

/// The words of `ws` that the lexicon does not know, in input order.
pub open spec fn spec_unknown(ws: Seq<Seq<char>>, lex: Lexicon) -> Seq<Seq<char>> {
    unknown_upto(ws, lex, ws.len() as int)
}

fn collect_unknown(ws: &Vec<String>, lexicon: &Lexicon) -> (unknown: Vec<String>)
    ensures
        unknown.deep_view() == spec_unknown(ws.deep_view(), *lexicon),
{
    let mut unknown: Vec<String> = Vec::new();
    let mut j: usize = 0;
    while j < ws.len()
        invariant
            j <= ws@.len(),
            unknown.deep_view() == unknown_upto(ws.deep_view(), *lexicon, j as int),
        decreases ws@.len() - j,
    {
        if !lexicon.contains(&ws[j]) {
            let ghost prev = unknown.deep_view();
            unknown.push(ws[j].clone());
            proof {
                assert(unknown.deep_view() =~= prev.push(ws.deep_view()[j as int]));
            }
        }
        j = j + 1;
    }
    unknown
}

fn clone_words(ws: &Vec<String>) -> (r: Vec<String>)
    ensures
        r.deep_view() == ws.deep_view(),
{
    let mut r: Vec<String> = Vec::new();
    let mut j: usize = 0;
    while j < ws.len()
        invariant
            j <= ws@.len(),
            r.deep_view() == ws.deep_view().take(j as int),
        decreases ws@.len() - j,
    {
        let ghost prev = r.deep_view();
        r.push(ws[j].clone());
        proof {
            assert(r.deep_view() =~= prev.push(ws.deep_view()[j as int]));
            assert(prev.push(ws.deep_view()[j as int]) =~= ws.deep_view().take(j as int + 1));
        }
        j = j + 1;
    }
    proof {
        assert(ws.deep_view().take(ws.deep_view().len() as int) =~= ws.deep_view());
    }
    r
}

impl Theme {
    /// The word list this selection names: none for no theme, the preset's
    /// defining list, or the words of the custom text.
    pub open spec fn spec_words(&self, custom_text: Seq<char>, table: ThemeTable) -> Option<
        Seq<Seq<char>>,
    > {
        match self {
            Theme::No => Option::None,
            Theme::Preset(name) => table.spec_lookup(name@),
            Theme::Custom => Option::Some(spec_split(custom_text)),
        }
    }

    /// Resolve the selection against the theme table and the lexicon.
    ///
    /// No theme resolves to no handle. Otherwise the selection's word list
    /// is checked against the lexicon: an empty list is the empty-theme
    /// failure; unknown words are reported, in input order, as the
    /// unknown-words failure; a non-empty fully known list yields the
    /// handle built from exactly those words.
    pub fn resolve(
        &self,
        custom_text: &str,
        table: &ThemeTable,
        lexicon: &Lexicon,
    ) -> (r: Result<Option<ThemeHandle>, ThemeError>)
        requires
            custom_text@.len() < usize::MAX,
            self matches Theme::Preset(name) ==> table.spec_lookup(name@) is Some,
        ensures
            self is No ==> (r matches Ok(h) && h is None),
            !(self is No) ==> {
                let ws = self.spec_words(custom_text@, *table).unwrap();
                let unk = spec_unknown(ws, *lexicon);
                &&& ws.len() == 0 ==> (r matches Err(e) && e is EmptyTheme)
                &&& ws.len() > 0 && unk.len() > 0 ==> (r matches Err(e) && (e matches
                    ThemeError::UnknownWords(v) && v.deep_view() == unk))
                &&& ws.len() > 0 && unk.len() == 0 ==> (r matches Ok(h) && (h matches Some(t)
                    && t.words.deep_view() == ws))
            },
    {
        let words: Vec<String> = match self {
            Theme::No => {
                return Result::Ok(Option::None);
            },
            Theme::Preset(name) => {
                match table.lookup_index(name) {
                    Option::Some(k) => clone_words(&table.entries[k].1),
                    Option::None => {
                        proof {
                            assert(false);
                        }
                        Vec::new()
                    },
                }
            },
            Theme::Custom => split_words(custom_text),
        };
        if words.len() == 0 {
            return Result::Err(ThemeError::EmptyTheme);
        }
        let unknown = collect_unknown(&words, lexicon);
        if unknown.len() > 0 {
            return Result::Err(ThemeError::UnknownWords(unknown));
        }
        Result::Ok(Option::Some(ThemeHandle { words }))
    }
}

} // verus!
