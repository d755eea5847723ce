//! Bounded caching of rendered highlight spans.
//!
//! Re-rendering every visible span on every repaint is wasted work, so the
//! cache keeps the most recently rendered spans, keyed by the exact source
//! substring. There are two independent bounded LRU domains — rhyme
//! highlight spans and plain word spans — and a mode switch: when
//! highlighting is off, both domains are bypassed and nothing is cached.
//! Entries leave only under capacity pressure; in particular a scoring
//! configuration change does not invalidate them, by design.
use vstd::prelude::*;
use crate::lru::find_key;
use crate::lru::lru_capacity;
use crate::lru::lru_entries;
use crate::lru::lru_get;
use crate::lru::lru_len;
use crate::lru::lru_new;
use crate::lru::lru_put;
use crate::lru::SpanCache;

verus! {

/// A pre-rendered styled span: the source text with its computed emphasis.
pub struct StyledText {
    pub text: String,
    pub emphasis: bool,
}

/// The mathematical value of a styled span.
pub struct StyledTextView {
    pub text: Seq<char>,
    pub emphasis: bool,
}

impl View for StyledText {
    type V = StyledTextView;

    open spec fn view(&self) -> StyledTextView {
        StyledTextView { text: self.text@, emphasis: self.emphasis }
    }
}

impl Clone for StyledText {
    fn clone(&self) -> (r: StyledText)
        ensures
            r@ == self@,
    {
        StyledText { text: self.text.clone(), emphasis: self.emphasis }
    }
}

impl PartialEq for StyledText {
    fn eq(&self, other: &StyledText) -> (r: bool) {
        self.text == other.text && self.emphasis == other.emphasis
    }
}

impl vstd::std_specs::cmp::PartialEqSpecImpl for StyledText {
    open spec fn obeys_eq_spec() -> bool {
        true
    }

    open spec fn eq_spec(&self, other: &StyledText) -> bool {
        self@ == other@
    }
}

/// Which render pass is active: rhyme-highlight spans, plain word spans, or
/// no highlighting at all.
#[derive(Clone, Copy, PartialEq, Eq, Structural, Debug)]
pub enum HighlightMode {
    /// Rhythm highlighting: the rhyme-highlight span domain is cached.
    Rythm,
    /// Plain word spans are cached.
    Words,
    /// Highlighting is off: nothing is consulted and nothing is cached.
    No,
}

/// No two entries share a key.
pub open spec fn distinct_keys(es: Seq<(Seq<char>, StyledTextView)>) -> bool {
    forall|i: int, j: int| 0 <= i < j < es.len() ==> es[i].0 != es[j].0
}

/// A cache after a hit on `k`: the hit entry, its value unchanged, has moved
/// to the most-recently-used position; nothing else changed.
pub open spec fn lru_hit_promotes(
    es_old: Seq<(Seq<char>, StyledTextView)>,
    es_new: Seq<(Seq<char>, StyledTextView)>,
    k: Seq<char>,
    v: StyledTextView,
) -> bool {
    let i = find_key(es_old, k);
    &&& i >= 0
    &&& v == es_old[i].1
    &&& es_new == seq![es_old[i]] + es_old.remove(i)
}

/// A cache after a miss on `k` was filled: the new entry stands at the
/// most-recently-used position, and if the cache was full the
/// least-recently-used entry — the last one — was evicted to make room.
pub open spec fn lru_miss_inserts(
    es_old: Seq<(Seq<char>, StyledTextView)>,
    es_new: Seq<(Seq<char>, StyledTextView)>,
    cap: nat,
    k: Seq<char>,
    v: StyledTextView,
) -> bool {
    &&& find_key(es_old, k) == -1
    &&& if es_old.len() < cap {
        es_new == seq![(k, v)] + es_old
    } else {
        es_new == seq![(k, v)] + es_old.drop_last()
    }
}

/// Where `k` stands in `es`: nowhere exactly when no entry holds it, and at
/// a unique in-range position bearing it otherwise.
pub proof fn lemma_find_key_spec(es: Seq<(Seq<char>, StyledTextView)>, k: Seq<char>)
    ensures
        (find_key(es, k) == -1) <==> (forall|j: int| 0 <= j < es.len() ==> es[j].0 != k),
        find_key(es, k) != -1 ==> 0 <= find_key(es, k) < es.len() && es[find_key(es, k)].0 == k,
        find_key(es, k) != -1 ==> (forall|j: int| 0 <= j < find_key(es, k) ==> es[j].0 != k),
    decreases es.len(),
{
    if es.len() == 0 {
    } else if es[0].0 == k {
    } else {
        lemma_find_key_spec(es.skip(1), k);
        assert(forall|j: int| 0 <= j < es.skip(1).len() ==> es.skip(1)[j] == es[j + 1]);
        if find_key(es.skip(1), k) == -1 {
            assert forall|j: int| 0 <= j < es.len() implies es[j].0 != k by {
                if j > 0 {
                    assert(es[j] == es.skip(1)[j - 1]);
                }
            }
        } else {
            assert forall|j: int| 0 <= j < find_key(es, k) implies es[j].0 != k by {
                if j > 0 {
                    assert(es[j] == es.skip(1)[j - 1]);
                }
            }
        }
    }
}

/// A hit only reorders: promotion keeps the length and exactly the same
/// entries, and no key gets duplicated.
pub proof fn lemma_promote_preserves_entries(es: Seq<(Seq<char>, StyledTextView)>, i: int)
    requires
        0 <= i < es.len(),
    ensures
        (seq![es[i]] + es.remove(i)).len() == es.len(),
        forall|e: (Seq<char>, StyledTextView)|
            #[trigger] (seq![es[i]] + es.remove(i)).contains(e) <==> es.contains(e),
        distinct_keys(es) ==> distinct_keys(seq![es[i]] + es.remove(i)),
{
    let n = seq![es[i]] + es.remove(i);
    assert forall|e: (Seq<char>, StyledTextView)| #[trigger] n.contains(e) implies es.contains(
        e,
    ) by {
        let m = choose|m: int| 0 <= m < n.len() && n[m] == e;
        if m == 0 {
            assert(es[i] == e);
        } else if m - 1 < i {
            assert(es[m - 1] == e);
        } else {
            assert(es[m] == e);
        }
    }
    assert forall|e: (Seq<char>, StyledTextView)| es.contains(e) implies #[trigger] n.contains(
        e,
    ) by {
        let m = choose|m: int| 0 <= m < es.len() && es[m] == e;
        if m == i {
            assert(n[0] == e);
        } else if m < i {
            assert(n[m + 1] == e);
        } else {
            assert(n[m] == e);
        }
    }
    if distinct_keys(es) {
        assert forall|a: int, b: int| 0 <= a < b < n.len() implies n[a].0 != n[b].0 by {
            if a == 0 {
                if b - 1 < i {
                    assert(n[b] == es[b - 1]);
                } else {
                    assert(n[b] == es[b]);
                }
            } else {
                assert(n[a] == (if a - 1 < i {
                    es[a - 1]
                } else {
                    es[a]
                }));
                assert(n[b] == (if b - 1 < i {
                    es[b - 1]
                } else {
                    es[b]
                }));
            }
        }
    }
}

/// The LRU eviction law: filling a miss in a full cache of distinct keys
/// keeps it full, puts the new key in front, keeps every older entry one
/// position down — except the least-recently-used entry, whose key leaves
/// the cache entirely.
pub proof fn lemma_lru_eviction(
    es: Seq<(Seq<char>, StyledTextView)>,
    cap: nat,
    k: Seq<char>,
    v: StyledTextView,
)
    requires
        distinct_keys(es),
        es.len() == cap,
        cap >= 1,
        find_key(es, k) == -1,
    ensures
        (seq![(k, v)] + es.drop_last()).len() == cap,
        (seq![(k, v)] + es.drop_last())[0] == (k, v),
        forall|j: int| 0 <= j < cap - 1 ==> (seq![(k, v)] + es.drop_last())[j + 1] == es[j],
        find_key(seq![(k, v)] + es.drop_last(), es.last().0) == -1,
        distinct_keys(seq![(k, v)] + es.drop_last()),
{
    let n = seq![(k, v)] + es.drop_last();
    lemma_find_key_spec(es, k);
    assert forall|j: int| 0 <= j < n.len() implies n[j].0 != es.last().0 by {
        if j == 0 {
            assert(es[cap - 1].0 != k);
        } else {
            assert(n[j] == es[j - 1]);
            assert(es[j - 1].0 != es[cap - 1].0);
        }
    }
    lemma_find_key_spec(n, es.last().0);
    assert forall|a: int, b: int| 0 <= a < b < n.len() implies n[a].0 != n[b].0 by {
        if a == 0 {
            assert(n[b] == es[b - 1]);
            assert(es[b - 1].0 != k);
        } else {
            assert(n[a] == es[a - 1]);
            assert(n[b] == es[b - 1]);
        }
    }
}

/// Two independent bounded LRU domains of rendered spans, and the mode that
/// picks which of them — if any — a render pass goes through.
pub struct HighlightCache {
    cache_highlight: SpanCache,
    cache_words: SpanCache,
    mode: HighlightMode,
}

impl HighlightCache {
    /// The rhyme-highlight domain, most recently used first.
    pub closed spec fn highlight_entries(self) -> Seq<(Seq<char>, StyledTextView)> {
        lru_entries(self.cache_highlight)
    }

    /// The plain-word domain, most recently used first.
    pub closed spec fn words_entries(self) -> Seq<(Seq<char>, StyledTextView)> {
        lru_entries(self.cache_words)
    }

    /// The bound of the rhyme-highlight domain.
    pub closed spec fn highlight_capacity(self) -> nat {
        lru_capacity(self.cache_highlight)
    }

    /// The bound of the plain-word domain.
    pub closed spec fn words_capacity(self) -> nat {
        lru_capacity(self.cache_words)
    }

    /// The active mode.
    pub closed spec fn spec_mode(self) -> HighlightMode {
        self.mode
    }

    /// Both domains are within their bounds and hold no key twice.
    pub open spec fn wf(self) -> bool {
        &&& self.highlight_capacity() >= 1
        &&& self.words_capacity() >= 1
        &&& self.highlight_entries().len() <= self.highlight_capacity()
        &&& self.words_entries().len() <= self.words_capacity()
        &&& distinct_keys(self.highlight_entries())
        &&& distinct_keys(self.words_entries())
    }

    /// A fresh cache: both domains empty, with the given bound each.
    pub fn new(capacity: usize, mode: HighlightMode) -> (c: HighlightCache)
        requires
            capacity >= 1,
        ensures
            c.wf(),
            c.highlight_entries().len() == 0,
            c.words_entries().len() == 0,
            c.highlight_capacity() == capacity,
            c.words_capacity() == capacity,
            c.spec_mode() == mode,
    {
        HighlightCache { cache_highlight: lru_new(capacity), cache_words: lru_new(capacity), mode }
    }

    /// Switch the active mode for subsequent render passes. Neither domain
    /// is cleared: entries leave only under capacity pressure.
    pub fn set_mode(&mut self, mode: HighlightMode)
        ensures
            final(self).spec_mode() == mode,
            final(self).highlight_entries() == old(self).highlight_entries(),
            final(self).words_entries() == old(self).words_entries(),
            final(self).highlight_capacity() == old(self).highlight_capacity(),
            final(self).words_capacity() == old(self).words_capacity(),
            old(self).wf() ==> final(self).wf(),
    {
        self.mode = mode;
    }

    /// How many spans the rhyme-highlight domain holds.
    pub fn highlight_len(&self) -> (n: usize)
        ensures
            n == self.highlight_entries().len(),
    {
        lru_len(&self.cache_highlight)
    }

    /// How many spans the plain-word domain holds.
    pub fn words_len(&self) -> (n: usize)
        ensures
            n == self.words_entries().len(),
    {
        lru_len(&self.cache_words)
    }

    /// The cached rendering of `text` in the active domain, if there is
    /// one; a hit marks the entry most recently used. When highlighting is
    /// off there is no active domain and nothing is consulted.
    pub fn cached(&mut self, text: &String) -> (r: Option<StyledText>)
        requires
            old(self).wf(),
        ensures
            final(self).wf(),
            final(self).spec_mode() == old(self).spec_mode(),
            final(self).highlight_capacity() == old(self).highlight_capacity(),
            final(self).words_capacity() == old(self).words_capacity(),
            old(self).spec_mode() is No ==> r is None && final(self).highlight_entries() == old(
                self,
            ).highlight_entries() && final(self).words_entries() == old(self).words_entries(),
            old(self).spec_mode() is Rythm ==> final(self).words_entries() == old(
                self,
            ).words_entries() && Self::lookup_post(
                old(self).highlight_entries(),
                final(self).highlight_entries(),
                text@,
                r,
            ),
            old(self).spec_mode() is Words ==> final(self).highlight_entries() == old(
                self,
            ).highlight_entries() && Self::lookup_post(
                old(self).words_entries(),
                final(self).words_entries(),
                text@,
                r,
            ),
    {
        match self.mode {
            HighlightMode::No => Option::None,
            HighlightMode::Rythm => {
                let r = lru_get(&mut self.cache_highlight, text);
                proof {
                    let es = old(self).highlight_entries();
                    lemma_find_key_spec(es, text@);
                    if find_key(es, text@) >= 0 {
                        lemma_promote_preserves_entries(es, find_key(es, text@));
                    }
                }
                r
            },
            HighlightMode::Words => {
                let r = lru_get(&mut self.cache_words, text);
                proof {
                    let es = old(self).words_entries();
                    lemma_find_key_spec(es, text@);
                    if find_key(es, text@) >= 0 {
                        lemma_promote_preserves_entries(es, find_key(es, text@));
                    }
                }
                r
            },
        }
    }

    /// What a lookup does to the active domain: a miss touches nothing, a
    /// hit hands back the stored value and promotes its entry.
    pub open spec fn lookup_post(
        es_old: Seq<(Seq<char>, StyledTextView)>,
        es_new: Seq<(Seq<char>, StyledTextView)>,
        k: Seq<char>,
        r: Option<StyledText>,
    ) -> bool {
        if find_key(es_old, k) == -1 {
            r is None && es_new == es_old
        } else {
            r matches Some(v) && lru_hit_promotes(es_old, es_new, k, v@)
        }
    }

    /// What a render pass does to the active domain: a hit hands back the
    /// cached value and promotes it; a miss renders, hands the rendering
    /// back, and caches it, evicting the least-recently-used span if the
    /// domain is full.
    pub open spec fn render_post(
        es_old: Seq<(Seq<char>, StyledTextView)>,
        es_new: Seq<(Seq<char>, StyledTextView)>,
        cap: nat,
        k: Seq<char>,
        r: StyledText,
        rendered_fresh: bool,
    ) -> bool {
        if find_key(es_old, k) == -1 {
            rendered_fresh && lru_miss_inserts(es_old, es_new, cap, k, r@)
        } else {
            lru_hit_promotes(es_old, es_new, k, r@)
        }
    }

    /// Render `text` through the active domain: return its cached styling,
    /// or compute it with `render` and cache the result. When highlighting
    /// is off, render directly and cache nothing.
    pub fn get_or_render<F: FnOnce(&String) -> StyledText>(
        &mut self,
        text: &String,
        render: F,
    ) -> (r: StyledText)
        requires
            old(self).wf(),
            call_requires(render, (text,)),
        ensures
            final(self).wf(),
            final(self).spec_mode() == old(self).spec_mode(),
            final(self).highlight_capacity() == old(self).highlight_capacity(),
            final(self).words_capacity() == old(self).words_capacity(),
            old(self).spec_mode() is No ==> final(self).highlight_entries() == old(
                self,
            ).highlight_entries() && final(self).words_entries() == old(self).words_entries()
                && call_ensures(render, (text,), r),
            old(self).spec_mode() is Rythm ==> final(self).words_entries() == old(
                self,
            ).words_entries() && exists|fresh: bool|
                Self::render_post(
                    old(self).highlight_entries(),
                    final(self).highlight_entries(),
                    old(self).highlight_capacity(),
                    text@,
                    r,
                    fresh,
                ) && (fresh ==> call_ensures(render, (text,), r)),
            old(self).spec_mode() is Words ==> final(self).highlight_entries() == old(
                self,
            ).highlight_entries() && exists|fresh: bool|
                Self::render_post(
                    old(self).words_entries(),
                    final(self).words_entries(),
                    old(self).words_capacity(),
                    text@,
                    r,
                    fresh,
                ) && (fresh ==> call_ensures(render, (text,), r)),
    {
        match self.mode {
            HighlightMode::No => render(text),
            HighlightMode::Rythm => {
                let ghost es_old = lru_entries(self.cache_highlight);
                let r = Self::render_in(&mut self.cache_highlight, text, render);
                r
            },
            HighlightMode::Words => {
                let ghost es_old = lru_entries(self.cache_words);
                let r = Self::render_in(&mut self.cache_words, text, render);
                r
            },
        }
    }

    fn render_in<F: FnOnce(&String) -> StyledText>(
        cache: &mut SpanCache,
        text: &String,
        render: F,
    ) -> (r: StyledText)
        requires
            lru_capacity(*old(cache)) >= 1,
            lru_entries(*old(cache)).len() <= lru_capacity(*old(cache)),
            distinct_keys(lru_entries(*old(cache))),
            call_requires(render, (text,)),
        ensures
            lru_capacity(*final(cache)) == lru_capacity(*old(cache)),
            lru_entries(*final(cache)).len() <= lru_capacity(*final(cache)),
            distinct_keys(lru_entries(*final(cache))),
            exists|fresh: bool|
                Self::render_post(
                    lru_entries(*old(cache)),
                    lru_entries(*final(cache)),
                    lru_capacity(*old(cache)),
                    text@,
                    r,
                    fresh,
                ) && (fresh ==> call_ensures(render, (text,), r)),
    {
        let ghost es = lru_entries(*cache);
        let ghost cap = lru_capacity(*cache);
        proof {
            lemma_find_key_spec(es, text@);
        }
        match lru_get(cache, text) {
            Option::Some(v) => {
                proof {
                    lemma_promote_preserves_entries(es, find_key(es, text@));
                    assert(Self::render_post(
                        es,
                        lru_entries(*cache),
                        cap,
                        text@,
                        v,
                        false,
                    ));
                }
                v
            },
            Option::None => {
                let r = render(text);
                let copy = StyledText { text: r.text.clone(), emphasis: r.emphasis };
                proof {
                    assert(copy@ == r@);
                }
                let _old_value = lru_put(cache, text.clone(), copy);
                proof {
                    let es_new = lru_entries(*cache);
                    if es.len() < cap {
                        assert(es_new == seq![(text@, r@)] + es);
                        lemma_find_key_spec(es_new, text@);
                        assert(distinct_keys(es_new)) by {
                            assert(forall|j: int|
                                1 <= j < es_new.len() ==> es_new[j] == es[j - 1]);
                        }
                    } else {
                        lemma_lru_eviction(es, cap, text@, r@);
                    }
                    assert(Self::render_post(es, es_new, cap, text@, r, true));
                }
                r
            },
        }
    }
}

} // verus!
