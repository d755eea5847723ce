//! The part-of-speech exclusion filter: sixteen independent flags, each
//! mapped 1:1 to a fixed short filter code in the engine's vocabulary.
//! `get_list` translates the checked flags, in the fixed canonical order,
//! into the complete code list passed verbatim to the engine.
use vstd::prelude::*;

verus! {

/// Number of parts of speech the filter distinguishes.
pub const POS_COUNT: usize = 16;

/// Exclusion flags, one per part of speech, in the canonical order: noun,
/// adjective, pronoun, pronoun-adjective, verb, adverb, numeral,
/// counting-adjective, linking word, interjection, predicative, preposition,
/// conjunction, comparative, particle, miscellaneous.
#[derive(Clone, Copy, PartialEq, Eq, Structural, Debug)]
pub struct RemovePartsOfSpeech {
    pub noun: bool,
    pub adj: bool,
    pub pronoun: bool,
    pub pronoun_adj: bool,
    pub verb: bool,
    pub adv: bool,
    pub num: bool,
    pub num_adj: bool,
    pub linking: bool,
    pub citoslovce: bool,
    pub pred: bool,
    pub prep: bool,
    pub conj: bool,
    pub compare: bool,
    pub part: bool,
    pub misc: bool,
}

impl RemovePartsOfSpeech {
    /// The flags as a sequence, in the canonical order.
    pub open spec fn flags(self) -> Seq<bool> {
        seq![
            self.noun,
            self.adj,
            self.pronoun,
            self.pronoun_adj,
            self.verb,
            self.adv,
            self.num,
            self.num_adj,
            self.linking,
            self.citoslovce,
            self.pred,
            self.prep,
            self.conj,
            self.compare,
            self.part,
            self.misc,
        ]
    }

    /// Read the flag at canonical position `i`.
    pub fn flag_at(&self, i: usize) -> (b: bool)
        requires
            i < POS_COUNT,
        ensures
            b == self.flags()[i as int],
    {
        if i == 0 {
            self.noun
        } else if i == 1 {
            self.adj
        } else if i == 2 {
            self.pronoun
        } else if i == 3 {
            self.pronoun_adj
        } else if i == 4 {
            self.verb
        } else if i == 5 {
            self.adv
        } else if i == 6 {
            self.num
        } else if i == 7 {
            self.num_adj
        } else if i == 8 {
            self.linking
        } else if i == 9 {
            self.citoslovce
        } else if i == 10 {
            self.pred
        } else if i == 11 {
            self.prep
        } else if i == 12 {
            self.conj
        } else if i == 13 {
            self.compare
        } else if i == 14 {
            self.part
        } else {
            self.misc
        }
    }

    /// The full code list for the set flags, in canonical order.
    pub fn get_list(&self) -> (v: Vec<&'static str>)
        ensures
            v@.map_values(|s: &'static str| s@) == codes_upto(self.flags(), POS_COUNT as int),
    {
        let mut v: Vec<&'static str> = Vec::new();
        let mut i: usize = 0;
        while i < POS_COUNT
            invariant
                i <= POS_COUNT,
                v@.map_values(|s: &'static str| s@) == codes_upto(self.flags(), i as int),
            decreases POS_COUNT - i,
        {
            if self.flag_at(i) {
                let code = pos_code(i);
                let ghost prev = v@;
                v.push(code);
                proof {
                    assert(v@.map_values(|s: &'static str| s@) =~= prev.map_values(
                        |s: &'static str| s@,
                    ).push(code@));
                }
            }
            i = i + 1;
            proof {
                assert(v@.map_values(|s: &'static str| s@) =~= codes_upto(
                    self.flags(),
                    i as int,
                ));
            }
        }
        v
    }
}

impl Default for RemovePartsOfSpeech {
    /// All flags off: no part of speech is excluded.
    fn default() -> (r: RemovePartsOfSpeech)
        ensures
            r.flags() == Seq::new(POS_COUNT as nat, |i: int| false),
    {
        let r = RemovePartsOfSpeech {
            noun: false,
            adj: false,
            pronoun: false,
            pronoun_adj: false,
            verb: false,
            adv: false,
            num: false,
            num_adj: false,
            linking: false,
            citoslovce: false,
            pred: false,
            prep: false,
            conj: false,
            compare: false,
            part: false,
            misc: false,
        };
        proof {
            assert(r.flags() =~= Seq::new(POS_COUNT as nat, |i: int| false));
        }
        r
    }
}

/// The fixed filter code of canonical position `i`.
pub open spec fn spec_pos_code(i: int) -> Seq<char> {
    if i == 0 {
        "с"@
    } else if i == 1 {
        "п"@
    } else if i == 2 {
        "мс"@
    } else if i == 3 {
        "мс-п"@
    } else if i == 4 {
        "г"@
    } else if i == 5 {
        "н"@
    } else if i == 6 {
        "числ"@
    } else if i == 7 {
        "числ-п"@
    } else if i == 8 {
        "вводн"@
    } else if i == 9 {
        "межд"@
    } else if i == 10 {
        "предик"@
    } else if i == 11 {
        "предл"@
    } else if i == 12 {
        "союз"@
    } else if i == 13 {
        "сравн"@
    } else if i == 14 {
        "част"@
    } else {
        "?"@
    }
}

/// The filter code of canonical position `i`, as the engine spells it.
pub fn pos_code(i: usize) -> (s: &'static str)
    requires
        i < POS_COUNT,
    ensures
        s@ == spec_pos_code(i as int),
{
    if i == 0 {
        "с"
    } else if i == 1 {
        "п"
    } else if i == 2 {
        "мс"
    } else if i == 3 {
        "мс-п"
    } else if i == 4 {
        "г"
    } else if i == 5 {
        "н"
    } else if i == 6 {
        "числ"
    } else if i == 7 {
        "числ-п"
    } else if i == 8 {
        "вводн"
    } else if i == 9 {
        "межд"
    } else if i == 10 {
        "предик"
    } else if i == 11 {
        "предл"
    } else if i == 12 {
        "союз"
    } else if i == 13 {
        "сравн"
    } else if i == 14 {
        "част"
    } else {
        "?"
    }
}

/// The codes of the first `j` canonical positions whose flag is set.
pub open spec fn codes_upto(flags: Seq<bool>, j: int) -> Seq<Seq<char>>
    decreases j,
{
    if j <= 0 {
        Seq::empty()
    } else if flags[j - 1] {
        codes_upto(flags, j - 1).push(spec_pos_code(j - 1))
    } else {
        codes_upto(flags, j - 1)
    }
}

/// The complete code list of a flag set.
pub open spec fn spec_codes(flags: Seq<bool>) -> Seq<Seq<char>> {
    codes_upto(flags, flags.len() as int)
}

/// How many of the first `j` flags are set.
pub open spec fn count_true_upto(flags: Seq<bool>, j: int) -> nat
    decreases j,
{
    if j <= 0 {
        0
    } else if flags[j - 1] {
        count_true_upto(flags, j - 1) + 1
    } else {
        count_true_upto(flags, j - 1)
    }
}

proof fn lemma_codes_len_upto(flags: Seq<bool>, j: int)
    requires
        0 <= j <= flags.len(),
    ensures
        codes_upto(flags, j).len() == count_true_upto(flags, j),
    decreases j,
{
    if j > 0 {
        lemma_codes_len_upto(flags, j - 1);
    }
}

/// The output length of the filter equals the number of set flags.
pub proof fn lemma_codes_len(flags: Seq<bool>)
    ensures
        spec_codes(flags).len() == count_true_upto(flags, flags.len() as int),
{
    lemma_codes_len_upto(flags, flags.len() as int);
}

proof fn lemma_toggle_upto(a: Seq<bool>, b: Seq<bool>, k: int, j: int)
    requires
        a.len() == b.len(),
        0 <= k < a.len(),
        !a[k],
        b == a.update(k, true),
        0 <= j <= a.len(),
    ensures
        j <= k ==> codes_upto(b, j) == codes_upto(a, j),
        j > k ==> codes_upto(b, j) == codes_upto(a, j).insert(
            count_true_upto(a, k) as int,
            spec_pos_code(k),
        ),
    decreases j,
{
    if j > 0 {
        lemma_toggle_upto(a, b, k, j - 1);
        lemma_codes_len_upto(a, j - 1);
        if j - 1 < k {
            assert(b[j - 1] == a[j - 1]);
        } else if j - 1 == k {
            assert(b[j - 1]);
            assert(codes_upto(b, j) == codes_upto(a, j - 1).push(spec_pos_code(k)));
            lemma_codes_len_upto(a, k);
            assert(codes_upto(a, j) == codes_upto(a, j - 1));
            assert(codes_upto(a, j - 1).push(spec_pos_code(k)) =~= codes_upto(a, j).insert(
                count_true_upto(a, k) as int,
                spec_pos_code(k),
            ));
        } else {
            assert(b[j - 1] == a[j - 1]);
            lemma_codes_len_upto(a, k);
            if a[j - 1] {
                assert(codes_upto(b, j) == codes_upto(b, j - 1).push(spec_pos_code(j - 1)));
                assert(count_true_upto(a, k) <= count_true_upto(a, j - 1)) by {
                    lemma_count_true_monotone(a, k, j - 1);
                }
                assert(codes_upto(b, j - 1).push(spec_pos_code(j - 1)) =~= codes_upto(
                    a,
                    j,
                ).insert(count_true_upto(a, k) as int, spec_pos_code(k)));
            }
        }
    }
}

proof fn lemma_count_true_monotone(flags: Seq<bool>, i: int, j: int)
    requires
        0 <= i <= j <= flags.len(),
    ensures
        count_true_upto(flags, i) <= count_true_upto(flags, j),
    decreases j - i,
{
    if i < j {
        lemma_count_true_monotone(flags, i, j - 1);
    }
}

/// Toggling a single flag changes exactly one code's presence: setting flag
/// `k` inserts that flag's code at its canonical position — just after the
/// codes of the set flags before it — and leaves every other code in place.
/// Read right to left, clearing flag `k` removes exactly that code.
pub proof fn lemma_toggle_one_flag(a: Seq<bool>, b: Seq<bool>, k: int)
    requires
        a.len() == b.len(),
        0 <= k < a.len(),
        !a[k],
        b == a.update(k, true),
    ensures
        spec_codes(b) == spec_codes(a).insert(count_true_upto(a, k) as int, spec_pos_code(k)),
        spec_codes(b).len() == spec_codes(a).len() + 1,
{
    lemma_toggle_upto(a, b, k, a.len() as int);
    lemma_codes_len_upto(a, a.len() as int);
    lemma_codes_len_upto(a, k);
    lemma_count_true_monotone(a, k, a.len() as int);
}

} // verus!
