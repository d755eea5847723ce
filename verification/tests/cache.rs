use std::cell::Cell;

use rhyme_core::highlight::{HighlightCache, HighlightMode, StyledText};

fn styled(text: &str, emphasis: bool) -> StyledText {
    StyledText {
        text: text.to_string(),
        emphasis,
    }
}

#[test]
fn disabled_mode_never_caches() {
    let mut cache = HighlightCache::new(4, HighlightMode::No);
    let calls = Cell::new(0u32);
    let t = "слово".to_string();
    for _ in 0..3 {
        let r = cache.get_or_render(&t, |s: &String| {
            calls.set(calls.get() + 1);
            styled(s, false)
        });
        assert!(r == styled("слово", false));
    }
    assert_eq!(calls.get(), 3);
    assert_eq!(cache.highlight_len(), 0);
    assert_eq!(cache.words_len(), 0);
    assert!(cache.cached(&t).is_none());
}

#[test]
fn hit_returns_cached_and_renders_once() {
    let mut cache = HighlightCache::new(4, HighlightMode::Rythm);
    let calls = Cell::new(0u32);
    let t = "рифма".to_string();
    let first = cache.get_or_render(&t, |s: &String| {
        calls.set(calls.get() + 1);
        styled(s, true)
    });
    let second = cache.get_or_render(&t, |s: &String| {
        calls.set(calls.get() + 1);
        styled(s, true)
    });
    assert_eq!(calls.get(), 1);
    assert!(first == second);
    assert_eq!(cache.highlight_len(), 1);
}

#[test]
fn hit_wins_over_fresh_rendering() {
    let mut cache = HighlightCache::new(4, HighlightMode::Rythm);
    let t = "ключ".to_string();
    let first = cache.get_or_render(&t, |s: &String| styled(s, true));
    let second = cache.get_or_render(&t, |s: &String| styled(s, false));
    assert!(first == styled("ключ", true));
    assert!(second == styled("ключ", true));
}

#[test]
fn lru_eviction_takes_least_recently_used() {
    let mut cache = HighlightCache::new(2, HighlightMode::Rythm);
    let a = "a".to_string();
    let b = "b".to_string();
    let c = "c".to_string();
    cache.get_or_render(&a, |s: &String| styled(s, false));
    cache.get_or_render(&b, |s: &String| styled(s, false));
    assert_eq!(cache.highlight_len(), 2);
    // Touch `a`, so `b` becomes the least recently used entry.
    assert!(cache.cached(&a).is_some());
    cache.get_or_render(&c, |s: &String| styled(s, false));
    assert_eq!(cache.highlight_len(), 2);
    assert!(cache.cached(&b).is_none());
    assert!(cache.cached(&a).is_some());
    assert!(cache.cached(&c).is_some());
}

#[test]
fn domains_are_independent_and_survive_mode_switch() {
    let mut cache = HighlightCache::new(4, HighlightMode::Rythm);
    let t = "строка".to_string();
    cache.get_or_render(&t, |s: &String| styled(s, true));
    assert_eq!(cache.highlight_len(), 1);
    assert_eq!(cache.words_len(), 0);
    cache.set_mode(HighlightMode::Words);
    // Switching modes clears nothing.
    assert_eq!(cache.highlight_len(), 1);
    let w = "слог".to_string();
    cache.get_or_render(&w, |s: &String| styled(s, false));
    assert_eq!(cache.words_len(), 1);
    assert_eq!(cache.highlight_len(), 1);
    // The rhyme-domain entry is not visible from the word domain.
    assert!(cache.cached(&t).is_none());
    cache.set_mode(HighlightMode::Rythm);
    assert!(cache.cached(&t).is_some());
}

#[test]
fn fresh_cache_is_empty() {
    let mut cache = HighlightCache::new(3, HighlightMode::Rythm);
    assert_eq!(cache.highlight_len(), 0);
    assert_eq!(cache.words_len(), 0);
    assert!(cache.cached(&"x".to_string()).is_none());
}
