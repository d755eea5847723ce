//! Core of a rhyme-suggestion assistant: the weighted multi-axis scoring
//! configuration handed to the ranking engine, theme resolution, the
//! part-of-speech exclusion filter, a bounded two-domain LRU cache for
//! rendered highlight spans, and a persistence codec for session state.
pub mod highlight;
pub mod lru;
pub mod persist;
pub mod pos;
pub mod scoring;
pub mod theme;
