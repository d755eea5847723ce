//! The weighted multi-axis scoring configuration.
//!
//! Every tuning parameter is a signed fixed-point number in millionths
//! (1_000_000 stands for 1.0), so that the configuration is exact data:
//! the front end converts to the engine's floating-point units at the
//! boundary. A `weight` of 0 disables its axis entirely; the composite
//! score model below states that law, and `lemma_zero_weight_axis_is_noop`
//! proves it.
use vstd::prelude::*;

verus! {

/// One millionth steps: the fixed-point unit of every parameter.
pub const FIXED_ONE: i64 = 1000000;

/// Popularity axis: rewards lexical frequency.
#[derive(Clone, Copy, PartialEq, Eq, Structural, Debug)]
pub struct PopularityAxis {
    pub weight: i64,
    pub pow: i64,
}

/// Meaning/theme axis: rewards semantic closeness to the resolved theme,
/// with a separate exponent and multiplier for single-word theme matches.
#[derive(Clone, Copy, PartialEq, Eq, Structural, Debug)]
pub struct MeaningAxis {
    pub weight: i64,
    pub pow: i64,
    pub single_pow: i64,
    pub single_weight: i64,
}

/// Stress-pattern axis: strict and loose stress matches, a rhythmic-mismatch
/// penalty, and the shape of syllable-ending saturation.
#[derive(Clone, Copy, PartialEq, Eq, Structural, Debug)]
pub struct StressAxis {
    pub weight: i64,
    pub k_strict_stress: i64,
    pub k_not_strict_stress: i64,
    pub bad_rythm: i64,
    pub shift_syll_ending: i64,
    pub pow_syll_ending: i64,
    pub asympt: i64,
    pub asympt_shift: i64,
    /// Whether stressed-vowel indexing is used at all.
    pub indexation: bool,
}

/// Consonant-structure axis: like the stress axis, over consonant skeletons.
#[derive(Clone, Copy, PartialEq, Eq, Structural, Debug)]
pub struct ConsonantStructureAxis {
    pub weight: i64,
    pub pow: i64,
    pub shift_syll_ending: i64,
    pub pow_syll_ending: i64,
    pub asympt: i64,
    pub asympt_shift: i64,
}

/// Alliteration axis: inter-letter coordinate distance, ending importance
/// (whose exponent may be negative), and a penalty for permuted sounds.
#[derive(Clone, Copy, PartialEq, Eq, Structural, Debug)]
pub struct AlliterationAxis {
    pub weight: i64,
    pub shift_coord: i64,
    pub pow_coord_delta: i64,
    pub shift_syll_ending: i64,
    pub pow_syll_ending: i64,
    pub permutations: i64,
    pub asympt: i64,
    pub asympt_shift: i64,
}

/// Unsymmetrical-length axis: an optimal length, and independent
/// weight/exponent pairs for candidates shorter or longer than it.
#[derive(Clone, Copy, PartialEq, Eq, Structural, Debug)]
pub struct UnsymmetricalAxis {
    pub optimal_length: i64,
    pub less_w: i64,
    pub less_pow: i64,
    pub more_w: i64,
    pub more_pow: i64,
}

/// Miscellaneous penalties: length difference and matching endings.
#[derive(Clone, Copy, PartialEq, Eq, Structural, Debug)]
pub struct MiscAxis {
    pub length_diff_fine: i64,
    pub same_cons_end: i64,
}

/// Penalties applied when a candidate shares its part of speech with the
/// query word, one independent weight per part of speech.
#[derive(Clone, Copy, PartialEq, Eq, Structural, Debug)]
pub struct SameSpeechPartAxis {
    pub verb: i64,
    pub adj: i64,
    pub noun: i64,
    pub adv: i64,
}

/// The whole multi-axis configuration passed to the ranking engine on every
/// query. A pure value type: any numeric value is accepted in any field, and
/// `reset` restores the fixed baseline wholesale.
#[derive(Clone, Copy, PartialEq, Eq, Structural, Debug)]
pub struct ScoringConfig {
    pub popularity: PopularityAxis,
    pub meaning: MeaningAxis,
    pub stresses: StressAxis,
    pub consonant_structure: ConsonantStructureAxis,
    pub alliteration: AlliterationAxis,
    pub unsymmetrical: UnsymmetricalAxis,
    pub misc: MiscAxis,
    pub same_speech_part: SameSpeechPartAxis,
}

/// The fixed baseline every field returns to on `reset`.
pub open spec fn baseline_config() -> ScoringConfig {
    ScoringConfig {
        popularity: PopularityAxis { weight: 10, pow: 1000000 },
        meaning: MeaningAxis {
            weight: 1000000000,
            pow: 1000000,
            single_pow: 1000000,
            single_weight: 500000,
        },
        stresses: StressAxis {
            weight: 50000000,
            k_strict_stress: 20000000,
            k_not_strict_stress: 3500000,
            bad_rythm: 50000000,
            shift_syll_ending: 1000000,
            pow_syll_ending: 1500000,
            asympt: 1000000,
            asympt_shift: 1000000,
            indexation: true,
        },
        consonant_structure: ConsonantStructureAxis {
            weight: 5000000,
            pow: 2000000,
            shift_syll_ending: 2000000,
            pow_syll_ending: 2000000,
            asympt: 1000000,
            asympt_shift: 2000000,
        },
        alliteration: AlliterationAxis {
            weight: 5000000,
            shift_coord: 2000000,
            pow_coord_delta: 2000000,
            shift_syll_ending: 2000000,
            pow_syll_ending: 1000000,
            permutations: 25000000,
            asympt: 1000000,
            asympt_shift: 2000000,
        },
        unsymmetrical: UnsymmetricalAxis {
            optimal_length: 7000000,
            less_w: 250000,
            less_pow: 1050000,
            more_w: 250000,
            more_pow: 1050000,
        },
        misc: MiscAxis { length_diff_fine: 1000000, same_cons_end: 1000000 },
        same_speech_part: SameSpeechPartAxis {
            verb: 1000000,
            adj: 500000,
            noun: 500000,
            adv: 500000,
        },
    }
}

impl ScoringConfig {
    /// The baseline as a value.
    pub fn baseline() -> (c: ScoringConfig)
        ensures
            c == baseline_config(),
    {
        ScoringConfig {
            popularity: PopularityAxis { weight: 10, pow: 1000000 },
            meaning: MeaningAxis {
                weight: 1000000000,
                pow: 1000000,
                single_pow: 1000000,
                single_weight: 500000,
            },
            stresses: StressAxis {
                weight: 50000000,
                k_strict_stress: 20000000,
                k_not_strict_stress: 3500000,
                bad_rythm: 50000000,
                shift_syll_ending: 1000000,
                pow_syll_ending: 1500000,
                asympt: 1000000,
                asympt_shift: 1000000,
                indexation: true,
            },
            consonant_structure: ConsonantStructureAxis {
                weight: 5000000,
                pow: 2000000,
                shift_syll_ending: 2000000,
                pow_syll_ending: 2000000,
                asympt: 1000000,
                asympt_shift: 2000000,
            },
            alliteration: AlliterationAxis {
                weight: 5000000,
                shift_coord: 2000000,
                pow_coord_delta: 2000000,
                shift_syll_ending: 2000000,
                pow_syll_ending: 1000000,
                permutations: 25000000,
                asympt: 1000000,
                asympt_shift: 2000000,
            },
            unsymmetrical: UnsymmetricalAxis {
                optimal_length: 7000000,
                less_w: 250000,
                less_pow: 1050000,
                more_w: 250000,
                more_pow: 1050000,
            },
            misc: MiscAxis { length_diff_fine: 1000000, same_cons_end: 1000000 },
            same_speech_part: SameSpeechPartAxis {
                verb: 1000000,
                adj: 500000,
                noun: 500000,
                adv: 500000,
            },
        }
    }

    /// Replace the whole configuration with the baseline, atomically: after
    /// a reset every field, whatever its history, reads its baseline value.
    pub fn reset(&mut self)
        ensures
            *final(self) == baseline_config(),
    {
        *self = ScoringConfig::baseline();
    }
}

impl Default for ScoringConfig {
    fn default() -> (c: ScoringConfig)
        ensures
            c == baseline_config(),
    {
        ScoringConfig::baseline()
    }
}

/// How many independently weighted terms feed the composite score: the five
/// main axes, the two unsymmetrical-length penalties, the two miscellaneous
/// penalties, and the four same-part-of-speech penalties.
pub open spec fn axis_count() -> int {
    13
}

/// The scale factor of each composite term, in the fixed term order. Only
/// `weight`-like fields appear here: an axis's shape parameters reach the
/// composite solely through the engine's raw score for that axis.
pub open spec fn weights_of(c: ScoringConfig) -> Seq<int> {
    seq![
        c.popularity.weight as int,
        c.meaning.weight as int,
        c.stresses.weight as int,
        c.consonant_structure.weight as int,
        c.alliteration.weight as int,
        c.unsymmetrical.less_w as int,
        c.unsymmetrical.more_w as int,
        c.misc.length_diff_fine as int,
        c.misc.same_cons_end as int,
        c.same_speech_part.verb as int,
        c.same_speech_part.noun as int,
        c.same_speech_part.adj as int,
        c.same_speech_part.adv as int,
    ]
}

/// Weighted sum of raw axis scores: the additive contribution model the
/// ranking engine must honor. `ws` are the scale factors, `xs` the raw
/// per-axis scores the engine computed from the axis shape parameters.
pub open spec fn dot(ws: Seq<int>, xs: Seq<int>) -> int
    decreases ws.len(),
{
    if ws.len() == 0 || xs.len() == 0 {
        0
    } else {
        ws[0] * xs[0] + dot(ws.skip(1), xs.skip(1))
    }
}

/// The composite score of one candidate under configuration `c`, given the
/// raw score the engine derived for each term.
pub open spec fn composite_score(c: ScoringConfig, raw: Seq<int>) -> int {
    dot(weights_of(c), raw)
}

proof fn lemma_dot_zero_entry(ws: Seq<int>, xs: Seq<int>, ys: Seq<int>, k: int)
    requires
        ws.len() == xs.len(),
        ws.len() == ys.len(),
        0 <= k < ws.len(),
        ws[k] == 0,
        forall|i: int| 0 <= i < ws.len() && i != k ==> xs[i] == ys[i],
    ensures
        dot(ws, xs) == dot(ws, ys),
    decreases ws.len(),
{
    if k == 0 {
        assert(ws[0] * xs[0] == 0);
        assert(ws[0] * ys[0] == 0);
        if ws.len() > 1 {
            assert(ws.skip(1) =~= ws.skip(1));
            assert(forall|i: int|
                0 <= i < ws.skip(1).len() ==> xs.skip(1)[i] == xs[i + 1] && ys.skip(1)[i] == ys[i
                + 1]);
            assert(xs.skip(1) =~= ys.skip(1));
        }
    } else {
        assert(xs[0] == ys[0]);
        assert(ws.skip(1)[k - 1] == ws[k]);
        assert(forall|i: int|
            0 <= i < ws.skip(1).len() && i != k - 1 ==> xs.skip(1)[i] == xs[i + 1] && ys.skip(1)[i]
                == ys[i + 1]);
        lemma_dot_zero_entry(ws.skip(1), xs.skip(1), ys.skip(1), k - 1);
    }
}

/// A disabled axis is a no-op: if the `k`-th term's weight is 0, the
/// composite score does not depend on that term's raw score — so however the
/// axis's shape parameters move that raw score, the ranked result is the
/// same.
pub proof fn lemma_zero_weight_axis_is_noop(
    c: ScoringConfig,
    raw_a: Seq<int>,
    raw_b: Seq<int>,
    k: int,
)
    requires
        raw_a.len() == axis_count(),
        raw_b.len() == axis_count(),
        0 <= k < axis_count(),
        weights_of(c)[k] == 0,
        forall|i: int| 0 <= i < axis_count() && i != k ==> raw_a[i] == raw_b[i],
    ensures
        composite_score(c, raw_a) == composite_score(c, raw_b),
{
    lemma_dot_zero_entry(weights_of(c), raw_a, raw_b, k);
}

/// The composite scale factors read nothing but the weight fields: two
/// configurations that agree on every weight — whatever their shape
/// parameters — scale the engine's raw scores identically.
pub proof fn lemma_weights_ignore_shape_parameters(a: ScoringConfig, b: ScoringConfig)
    requires
        a.popularity.weight == b.popularity.weight,
        a.meaning.weight == b.meaning.weight,
        a.stresses.weight == b.stresses.weight,
        a.consonant_structure.weight == b.consonant_structure.weight,
        a.alliteration.weight == b.alliteration.weight,
        a.unsymmetrical.less_w == b.unsymmetrical.less_w,
        a.unsymmetrical.more_w == b.unsymmetrical.more_w,
        a.misc.length_diff_fine == b.misc.length_diff_fine,
        a.misc.same_cons_end == b.misc.same_cons_end,
        a.same_speech_part.verb == b.same_speech_part.verb,
        a.same_speech_part.noun == b.same_speech_part.noun,
        a.same_speech_part.adj == b.same_speech_part.adj,
        a.same_speech_part.adv == b.same_speech_part.adv,
    ensures
        weights_of(a) == weights_of(b),
        forall|raw: Seq<int>| composite_score(a, raw) == composite_score(b, raw),
{
    assert(weights_of(a) =~= weights_of(b));
}

} // verus!
