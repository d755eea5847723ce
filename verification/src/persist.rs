//! Session-state persistence.
//!
//! The scoring configuration, the selected theme, the part-of-speech flags
//! and the result-count limit round-trip through a save/restore cycle. The
//! encoded form is deliberately plain: the numeric fields in a fixed slot
//! order, plus the preset theme name. Decoding reads each field by its slot
//! and falls back to the baseline for anything missing, so a payload from
//! an older session — shorter, with newer fields absent — loads cleanly
//! instead of failing.
use vstd::prelude::*;
use crate::pos::RemovePartsOfSpeech;
use crate::scoring::baseline_config;
use crate::scoring::AlliterationAxis;
use crate::scoring::ConsonantStructureAxis;
use crate::scoring::MeaningAxis;
use crate::scoring::MiscAxis;
use crate::scoring::PopularityAxis;
use crate::scoring::SameSpeechPartAxis;
use crate::scoring::ScoringConfig;
use crate::scoring::StressAxis;
use crate::scoring::UnsymmetricalAxis;
use crate::theme::Theme;

verus! {

/// How many rhymes a query asks for unless the session says otherwise.
pub const DEFAULT_SHOW_RHYMES: u32 = 50;

/// How many numeric slots the encoding has.
pub const SLOT_COUNT: usize = 58;

/// Everything a session keeps across runs.
pub struct PersistedState {
    pub config: ScoringConfig,
    pub theme: Theme,
    pub rps: RemovePartsOfSpeech,
    pub show_rhymes: u32,
}

/// The numeric slot `i` of `ns`, or `dflt` where the payload is too short.
pub open spec fn num_at(ns: Seq<i64>, i: int, dflt: i64) -> i64 {
    if 0 <= i < ns.len() {
        ns[i]
    } else {
        dflt
    }
}

/// The boolean slot `i` of `ns` (any non-zero number is true), or `dflt`
/// where the payload is too short.
pub open spec fn bool_at(ns: Seq<i64>, i: int, dflt: bool) -> bool {
    if 0 <= i < ns.len() {
        ns[i] != 0
    } else {
        dflt
    }
}

/// What the numeric slot `i` of a state holds: the scoring configuration in
/// slots 0 to 39, the part-of-speech flags in 40 to 55, the result-count
/// limit in 56, and the theme tag in 57.
pub open spec fn slot_of(s: PersistedState, i: int) -> i64 {
    if i == 0 {
        s.config.popularity.weight
    } else if i == 1 {
        s.config.popularity.pow
    } else if i == 2 {
        s.config.meaning.weight
    } else if i == 3 {
        s.config.meaning.pow
    } else if i == 4 {
        s.config.meaning.single_pow
    } else if i == 5 {
        s.config.meaning.single_weight
    } else if i == 6 {
        s.config.stresses.weight
    } else if i == 7 {
        s.config.stresses.k_strict_stress
    } else if i == 8 {
        s.config.stresses.k_not_strict_stress
    } else if i == 9 {
        s.config.stresses.bad_rythm
    } else if i == 10 {
        s.config.stresses.shift_syll_ending
    } else if i == 11 {
        s.config.stresses.pow_syll_ending
    } else if i == 12 {
        s.config.stresses.asympt
    } else if i == 13 {
        s.config.stresses.asympt_shift
    } else if i == 14 {
        if s.config.stresses.indexation {
            1i64
        } else {
            0i64
        }
    } else if i == 15 {
        s.config.consonant_structure.weight
    } else if i == 16 {
        s.config.consonant_structure.pow
    } else if i == 17 {
        s.config.consonant_structure.shift_syll_ending
    } else if i == 18 {
        s.config.consonant_structure.pow_syll_ending
    } else if i == 19 {
        s.config.consonant_structure.asympt
    } else if i == 20 {
        s.config.consonant_structure.asympt_shift
    } else if i == 21 {
        s.config.alliteration.weight
    } else if i == 22 {
        s.config.alliteration.shift_coord
    } else if i == 23 {
        s.config.alliteration.pow_coord_delta
    } else if i == 24 {
        s.config.alliteration.shift_syll_ending
    } else if i == 25 {
        s.config.alliteration.pow_syll_ending
    } else if i == 26 {
        s.config.alliteration.permutations
    } else if i == 27 {
        s.config.alliteration.asympt
    } else if i == 28 {
        s.config.alliteration.asympt_shift
    } else if i == 29 {
        s.config.unsymmetrical.optimal_length
    } else if i == 30 {
        s.config.unsymmetrical.less_w
    } else if i == 31 {
        s.config.unsymmetrical.less_pow
    } else if i == 32 {
        s.config.unsymmetrical.more_w
    } else if i == 33 {
        s.config.unsymmetrical.more_pow
    } else if i == 34 {
        s.config.misc.length_diff_fine
    } else if i == 35 {
        s.config.misc.same_cons_end
    } else if i == 36 {
        s.config.same_speech_part.verb
    } else if i == 37 {
        s.config.same_speech_part.adj
    } else if i == 38 {
        s.config.same_speech_part.noun
    } else if i == 39 {
        s.config.same_speech_part.adv
    } else if 40 <= i < 56 {
        if s.rps.flags()[i - 40] {
            1i64
        } else {
            0i64
        }
    } else if i == 56 {
        s.show_rhymes as i64
    } else {
        match s.theme {
            Theme::No => 0i64,
            Theme::Preset(_) => 1i64,
            Theme::Custom => 2i64,
        }
    }
}

/// The numeric slots of a state, in the fixed encoding order.
pub open spec fn spec_nums_of(s: PersistedState) -> Seq<i64> {
    Seq::new(SLOT_COUNT as nat, |i: int| slot_of(s, i))
}

/// The string slot of a state: the preset name, where one is selected.
pub open spec fn spec_name_of(s: PersistedState) -> Seq<char> {
    match s.theme {
        Theme::Preset(n) => n@,
        _ => Seq::empty(),
    }
}

/// The scoring configuration a payload decodes to.
pub open spec fn spec_config_decode(ns: Seq<i64>) -> ScoringConfig {
    ScoringConfig {
        popularity: PopularityAxis { weight: num_at(ns, 0, 10), pow: num_at(ns, 1, 1000000) },
        meaning: MeaningAxis {
            weight: num_at(ns, 2, 1000000000),
            pow: num_at(ns, 3, 1000000),
            single_pow: num_at(ns, 4, 1000000),
            single_weight: num_at(ns, 5, 500000),
        },
        stresses: StressAxis {
            weight: num_at(ns, 6, 50000000),
            k_strict_stress: num_at(ns, 7, 20000000),
            k_not_strict_stress: num_at(ns, 8, 3500000),
            bad_rythm: num_at(ns, 9, 50000000),
            shift_syll_ending: num_at(ns, 10, 1000000),
            pow_syll_ending: num_at(ns, 11, 1500000),
            asympt: num_at(ns, 12, 1000000),
            asympt_shift: num_at(ns, 13, 1000000),
            indexation: bool_at(ns, 14, true),
        },
        consonant_structure: ConsonantStructureAxis {
            weight: num_at(ns, 15, 5000000),
            pow: num_at(ns, 16, 2000000),
            shift_syll_ending: num_at(ns, 17, 2000000),
            pow_syll_ending: num_at(ns, 18, 2000000),
            asympt: num_at(ns, 19, 1000000),
            asympt_shift: num_at(ns, 20, 2000000),
        },
        alliteration: AlliterationAxis {
            weight: num_at(ns, 21, 5000000),
            shift_coord: num_at(ns, 22, 2000000),
            pow_coord_delta: num_at(ns, 23, 2000000),
            shift_syll_ending: num_at(ns, 24, 2000000),
            pow_syll_ending: num_at(ns, 25, 1000000),
            permutations: num_at(ns, 26, 25000000),
            asympt: num_at(ns, 27, 1000000),
            asympt_shift: num_at(ns, 28, 2000000),
        },
        unsymmetrical: UnsymmetricalAxis {
            optimal_length: num_at(ns, 29, 7000000),
            less_w: num_at(ns, 30, 250000),
            less_pow: num_at(ns, 31, 1050000),
            more_w: num_at(ns, 32, 250000),
            more_pow: num_at(ns, 33, 1050000),
        },
        misc: MiscAxis {
            length_diff_fine: num_at(ns, 34, 1000000),
            same_cons_end: num_at(ns, 35, 1000000),
        },
        same_speech_part: SameSpeechPartAxis {
            verb: num_at(ns, 36, 1000000),
            adj: num_at(ns, 37, 500000),
            noun: num_at(ns, 38, 500000),
            adv: num_at(ns, 39, 500000),
        },
    }
}

/// The part-of-speech flags a payload decodes to.
pub open spec fn spec_rps_decode(ns: Seq<i64>) -> RemovePartsOfSpeech {
    RemovePartsOfSpeech {
        noun: bool_at(ns, 40, false),
        adj: bool_at(ns, 41, false),
        pronoun: bool_at(ns, 42, false),
        pronoun_adj: bool_at(ns, 43, false),
        verb: bool_at(ns, 44, false),
        adv: bool_at(ns, 45, false),
        num: bool_at(ns, 46, false),
        num_adj: bool_at(ns, 47, false),
        linking: bool_at(ns, 48, false),
        citoslovce: bool_at(ns, 49, false),
        pred: bool_at(ns, 50, false),
        prep: bool_at(ns, 51, false),
        conj: bool_at(ns, 52, false),
        compare: bool_at(ns, 53, false),
        part: bool_at(ns, 54, false),
        misc: bool_at(ns, 55, false),
    }
}

/// The result-count limit a payload decodes to: out-of-range numbers fall
/// back to the default, like missing ones.
pub open spec fn spec_limit_decode(ns: Seq<i64>) -> u32 {
    let v = num_at(ns, 56, DEFAULT_SHOW_RHYMES as i64);
    if 0 <= v <= u32::MAX as i64 {
        v as u32
    } else {
        DEFAULT_SHOW_RHYMES
    }
}

/// The theme tag a payload decodes to, unknown tags falling back to none.
pub open spec fn spec_theme_tag_decode(ns: Seq<i64>) -> i64 {
    let v = num_at(ns, 57, 0);
    if v == 1 || v == 2 {
        v
    } else {
        0
    }
}

impl PersistedState {
    /// The state a fresh session starts from.
    pub open spec fn spec_baseline() -> PersistedState {
        PersistedState {
            config: baseline_config(),
            theme: Theme::No,
            rps: spec_rps_decode(Seq::empty()),
            show_rhymes: DEFAULT_SHOW_RHYMES,
        }
    }

    /// The state a fresh session starts from.
    pub fn baseline() -> (s: PersistedState)
        ensures
            s == PersistedState::spec_baseline(),
    {
        PersistedState {
            config: ScoringConfig::baseline(),
            theme: Theme::No,
            rps: RemovePartsOfSpeech::default(),
            show_rhymes: DEFAULT_SHOW_RHYMES,
        }
    }
}

/// The numeric slot `i` of a state, as `slot_of` lays the slots out.
#[verifier::rlimit(30)]
fn slot_exec(s: &PersistedState, i: usize) -> (r: i64)
    requires
        i < SLOT_COUNT,
    ensures
        r == slot_of(*s, i as int),
{
    if i == 0 {
        s.config.popularity.weight
    } else if i == 1 {
        s.config.popularity.pow
    } else if i == 2 {
        s.config.meaning.weight
    } else if i == 3 {
        s.config.meaning.pow
    } else if i == 4 {
        s.config.meaning.single_pow
    } else if i == 5 {
        s.config.meaning.single_weight
    } else if i == 6 {
        s.config.stresses.weight
    } else if i == 7 {
        s.config.stresses.k_strict_stress
    } else if i == 8 {
        s.config.stresses.k_not_strict_stress
    } else if i == 9 {
        s.config.stresses.bad_rythm
    } else if i == 10 {
        s.config.stresses.shift_syll_ending
    } else if i == 11 {
        s.config.stresses.pow_syll_ending
    } else if i == 12 {
        s.config.stresses.asympt
    } else if i == 13 {
        s.config.stresses.asympt_shift
    } else if i == 14 {
        if s.config.stresses.indexation {
            1
        } else {
            0
        }
    } else if i == 15 {
        s.config.consonant_structure.weight
    } else if i == 16 {
        s.config.consonant_structure.pow
    } else if i == 17 {
        s.config.consonant_structure.shift_syll_ending
    } else if i == 18 {
        s.config.consonant_structure.pow_syll_ending
    } else if i == 19 {
        s.config.consonant_structure.asympt
    } else if i == 20 {
        s.config.consonant_structure.asympt_shift
    } else if i == 21 {
        s.config.alliteration.weight
    } else if i == 22 {
        s.config.alliteration.shift_coord
    } else if i == 23 {
        s.config.alliteration.pow_coord_delta
    } else if i == 24 {
        s.config.alliteration.shift_syll_ending
    } else if i == 25 {
        s.config.alliteration.pow_syll_ending
    } else if i == 26 {
        s.config.alliteration.permutations
    } else if i == 27 {
        s.config.alliteration.asympt
    } else if i == 28 {
        s.config.alliteration.asympt_shift
    } else if i == 29 {
        s.config.unsymmetrical.optimal_length
    } else if i == 30 {
        s.config.unsymmetrical.less_w
    } else if i == 31 {
        s.config.unsymmetrical.less_pow
    } else if i == 32 {
        s.config.unsymmetrical.more_w
    } else if i == 33 {
        s.config.unsymmetrical.more_pow
    } else if i == 34 {
        s.config.misc.length_diff_fine
    } else if i == 35 {
        s.config.misc.same_cons_end
    } else if i == 36 {
        s.config.same_speech_part.verb
    } else if i == 37 {
        s.config.same_speech_part.adj
    } else if i == 38 {
        s.config.same_speech_part.noun
    } else if i == 39 {
        s.config.same_speech_part.adv
    } else if i < 56 {
        if s.rps.flag_at(i - 40) {
            1
        } else {
            0
        }
    } else if i == 56 {
        s.show_rhymes as i64
    } else {
        match &s.theme {
            Theme::No => 0,
            Theme::Preset(_) => 1,
            Theme::Custom => 2,
        }
    }
}

/// Encode a state as its numeric slots and its preset theme name.
pub fn encode(s: &PersistedState) -> (r: (Vec<i64>, String))
    ensures
        r.0@ == spec_nums_of(*s),
        r.1@ == spec_name_of(*s),
{
    let mut v: Vec<i64> = Vec::new();
    let mut i: usize = 0;
    while i < SLOT_COUNT
        invariant
            i <= SLOT_COUNT,
            v@ == spec_nums_of(*s).take(i as int),
        decreases SLOT_COUNT - i,
    {
        let x = slot_exec(s, i);
        v.push(x);
        proof {
            assert(v@ =~= spec_nums_of(*s).take(i as int + 1));
        }
        i = i + 1;
    }
    proof {
        assert(spec_nums_of(*s).take(SLOT_COUNT as int) =~= spec_nums_of(*s));
    }
    let name = match &s.theme {
        Theme::Preset(n) => n.clone(),
        Theme::No => String::new(),
        Theme::Custom => String::new(),
    };
    (v, name)
}

fn num_slot(nums: &Vec<i64>, i: usize, dflt: i64) -> (r: i64)
    ensures
        r == num_at(nums@, i as int, dflt),
{
    if i < nums.len() {
        nums[i]
    } else {
        dflt
    }
}

fn bool_slot(nums: &Vec<i64>, i: usize, dflt: bool) -> (r: bool)
    ensures
        r == bool_at(nums@, i as int, dflt),
{
    if i < nums.len() {
        nums[i] != 0
    } else {
        dflt
    }
}

/// Decode a payload, reading every field by its slot and falling back to
/// the baseline for whatever the payload does not carry.
#[verifier::rlimit(30)]
pub fn decode(nums: &Vec<i64>, name: &String) -> (s: PersistedState)
    ensures
        s.config == spec_config_decode(nums@),
        s.rps == spec_rps_decode(nums@),
        s.show_rhymes == spec_limit_decode(nums@),
        spec_theme_tag_decode(nums@) == 0 ==> s.theme is No,
        spec_theme_tag_decode(nums@) == 1 ==> (s.theme matches Theme::Preset(n) && n@ == name@),
        spec_theme_tag_decode(nums@) == 2 ==> s.theme is Custom,
{
    let config = ScoringConfig {
        popularity: PopularityAxis {
            weight: num_slot(nums, 0, 10),
            pow: num_slot(nums, 1, 1000000),
        },
        meaning: MeaningAxis {
            weight: num_slot(nums, 2, 1000000000),
            pow: num_slot(nums, 3, 1000000),
            single_pow: num_slot(nums, 4, 1000000),
            single_weight: num_slot(nums, 5, 500000),
        },
        stresses: StressAxis {
            weight: num_slot(nums, 6, 50000000),
            k_strict_stress: num_slot(nums, 7, 20000000),
            k_not_strict_stress: num_slot(nums, 8, 3500000),
            bad_rythm: num_slot(nums, 9, 50000000),
            shift_syll_ending: num_slot(nums, 10, 1000000),
            pow_syll_ending: num_slot(nums, 11, 1500000),
            asympt: num_slot(nums, 12, 1000000),
            asympt_shift: num_slot(nums, 13, 1000000),
            indexation: bool_slot(nums, 14, true),
        },
        consonant_structure: ConsonantStructureAxis {
            weight: num_slot(nums, 15, 5000000),
            pow: num_slot(nums, 16, 2000000),
            shift_syll_ending: num_slot(nums, 17, 2000000),
            pow_syll_ending: num_slot(nums, 18, 2000000),
            asympt: num_slot(nums, 19, 1000000),
            asympt_shift: num_slot(nums, 20, 2000000),
        },
        alliteration: AlliterationAxis {
            weight: num_slot(nums, 21, 5000000),
            shift_coord: num_slot(nums, 22, 2000000),
            pow_coord_delta: num_slot(nums, 23, 2000000),
            shift_syll_ending: num_slot(nums, 24, 2000000),
            pow_syll_ending: num_slot(nums, 25, 1000000),
            permutations: num_slot(nums, 26, 25000000),
            asympt: num_slot(nums, 27, 1000000),
            asympt_shift: num_slot(nums, 28, 2000000),
        },
        unsymmetrical: UnsymmetricalAxis {
            optimal_length: num_slot(nums, 29, 7000000),
            less_w: num_slot(nums, 30, 250000),
            less_pow: num_slot(nums, 31, 1050000),
            more_w: num_slot(nums, 32, 250000),
            more_pow: num_slot(nums, 33, 1050000),
        },
        misc: MiscAxis {
            length_diff_fine: num_slot(nums, 34, 1000000),
            same_cons_end: num_slot(nums, 35, 1000000),
        },
        same_speech_part: SameSpeechPartAxis {
            verb: num_slot(nums, 36, 1000000),
            adj: num_slot(nums, 37, 500000),
            noun: num_slot(nums, 38, 500000),
            adv: num_slot(nums, 39, 500000),
        },
    };
    let rps = RemovePartsOfSpeech {
        noun: bool_slot(nums, 40, false),
        adj: bool_slot(nums, 41, false),
        pronoun: bool_slot(nums, 42, false),
        pronoun_adj: bool_slot(nums, 43, false),
        verb: bool_slot(nums, 44, false),
        adv: bool_slot(nums, 45, false),
        num: bool_slot(nums, 46, false),
        num_adj: bool_slot(nums, 47, false),
        linking: bool_slot(nums, 48, false),
        citoslovce: bool_slot(nums, 49, false),
        pred: bool_slot(nums, 50, false),
        prep: bool_slot(nums, 51, false),
        conj: bool_slot(nums, 52, false),
        compare: bool_slot(nums, 53, false),
        part: bool_slot(nums, 54, false),
        misc: bool_slot(nums, 55, false),
    };
    let limit_raw = num_slot(nums, 56, DEFAULT_SHOW_RHYMES as i64);
    let show_rhymes: u32 = if 0 <= limit_raw && limit_raw <= u32::MAX as i64 {
        limit_raw as u32
    } else {
        DEFAULT_SHOW_RHYMES
    };
    let tag = num_slot(nums, 57, 0);
    let theme = if tag == 1 {
        Theme::Preset(name.clone())
    } else if tag == 2 {
        Theme::Custom
    } else {
        Theme::No
    };
    PersistedState { config, theme, rps, show_rhymes }
}

#[verifier::rlimit(100)]
proof fn lemma_config_round_trip(s: PersistedState)
    ensures
        spec_config_decode(spec_nums_of(s)) == s.config,
{
    let ns = spec_nums_of(s);
    let c = s.config;
    assert(spec_config_decode(ns).popularity == c.popularity);
    assert(spec_config_decode(ns).meaning == c.meaning);
    assert(spec_config_decode(ns).stresses == c.stresses);
    assert(spec_config_decode(ns).consonant_structure == c.consonant_structure);
    assert(spec_config_decode(ns).alliteration == c.alliteration);
    assert(spec_config_decode(ns).unsymmetrical == c.unsymmetrical);
    assert(spec_config_decode(ns).misc == c.misc);
    assert(spec_config_decode(ns).same_speech_part == c.same_speech_part);
}

#[verifier::rlimit(100)]
proof fn lemma_rps_round_trip(s: PersistedState)
    ensures
        spec_rps_decode(spec_nums_of(s)) == s.rps,
{
    let ns = spec_nums_of(s);
    assert(spec_rps_decode(ns) == s.rps);
}

#[verifier::rlimit(100)]
proof fn lemma_tail_round_trip(s: PersistedState)
    ensures
        spec_limit_decode(spec_nums_of(s)) == s.show_rhymes,
        spec_theme_tag_decode(spec_nums_of(s)) == (match s.theme {
            Theme::No => 0i64,
            Theme::Preset(_) => 1i64,
            Theme::Custom => 2i64,
        }),
{
}

/// Decoding what encoding produced rebuilds the state: every configuration
/// field comes back as it was, so do the flags and the limit, and the theme
/// tag and preset name rebuild the same theme selection.
pub proof fn lemma_round_trip(s: PersistedState)
    ensures
        spec_config_decode(spec_nums_of(s)) == s.config,
        spec_rps_decode(spec_nums_of(s)) == s.rps,
        spec_limit_decode(spec_nums_of(s)) == s.show_rhymes,
        spec_theme_tag_decode(spec_nums_of(s)) == (match s.theme {
            Theme::No => 0i64,
            Theme::Preset(_) => 1i64,
            Theme::Custom => 2i64,
        }),
        s.theme matches Theme::Preset(n) ==> spec_name_of(s) == n@,
{
    lemma_config_round_trip(s);
    lemma_rps_round_trip(s);
    lemma_tail_round_trip(s);
}

/// An empty payload — or any payload too short to reach a field — yields
/// the baseline for everything it misses: here, the whole baseline state.
pub proof fn lemma_missing_fields_default()
    ensures
        spec_config_decode(Seq::empty()) == baseline_config(),
        spec_rps_decode(Seq::empty()) == PersistedState::spec_baseline().rps,
        spec_limit_decode(Seq::empty()) == DEFAULT_SHOW_RHYMES,
        spec_theme_tag_decode(Seq::empty()) == 0,
{
    assert(spec_config_decode(Seq::empty()) == baseline_config());
}

} // verus!
