use rhyme_core::persist::{decode, encode, PersistedState, DEFAULT_SHOW_RHYMES};
use rhyme_core::pos::RemovePartsOfSpeech;
use rhyme_core::scoring::ScoringConfig;
use rhyme_core::theme::{Lexicon, Theme, ThemeError, ThemeTable};

#[test]
fn baseline_config_is_fixed() {
    let a = ScoringConfig::baseline();
    let b = ScoringConfig::default();
    assert!(a == b);
    assert_eq!(a.popularity.weight, 10);
    assert_eq!(a.meaning.weight, 1000000000);
    assert!(a.stresses.indexation);
}

#[test]
fn reset_restores_every_field() {
    let mut c = ScoringConfig::baseline();
    c.popularity.weight = 0;
    c.meaning.pow = -42;
    c.stresses.indexation = false;
    c.alliteration.pow_syll_ending = -3000000;
    c.same_speech_part.verb = 7;
    c.reset();
    assert!(c == ScoringConfig::baseline());
}

#[test]
fn get_list_empty_when_no_flag_set() {
    let rps = RemovePartsOfSpeech::default();
    assert_eq!(rps.get_list().len(), 0);
}

#[test]
fn get_list_orders_codes_canonically() {
    let mut rps = RemovePartsOfSpeech::default();
    rps.verb = true;
    rps.noun = true;
    rps.misc = true;
    assert_eq!(rps.get_list(), vec!["с", "г", "?"]);
}

#[test]
fn get_list_length_counts_set_flags() {
    let mut rps = RemovePartsOfSpeech::default();
    let mut expected = 0;
    assert_eq!(rps.get_list().len(), expected);
    rps.adj = true;
    expected += 1;
    assert_eq!(rps.get_list().len(), expected);
    rps.pronoun_adj = true;
    expected += 1;
    assert_eq!(rps.get_list().len(), expected);
    rps.compare = true;
    expected += 1;
    assert_eq!(rps.get_list().len(), expected);
}

#[test]
fn toggling_one_flag_changes_one_code() {
    let mut rps = RemovePartsOfSpeech::default();
    rps.noun = true;
    rps.conj = true;
    let before = rps.get_list();
    assert!(!before.contains(&"н"));
    rps.adv = true;
    let after = rps.get_list();
    assert_eq!(after.len(), before.len() + 1);
    assert!(after.contains(&"н"));
    for code in &before {
        assert!(after.contains(code));
    }
}

#[test]
fn theme_names() {
    assert_eq!(Theme::No.name(), "Без темы");
    assert_eq!(Theme::Preset("природа".to_string()).name(), "природа");
    assert_eq!(Theme::Custom.name(), "Пользовательская");
}

#[test]
fn theme_from_option() {
    assert!(Theme::from(None) == Theme::No);
    assert!(Theme::from(Some("море".to_string())) == Theme::Preset("море".to_string()));
}

fn small_lexicon() -> Lexicon {
    let mut lex = Lexicon::new();
    lex.add("word1".to_string());
    lex.add("word2".to_string());
    lex
}

#[test]
fn resolve_no_theme_is_ok_none() {
    let table = ThemeTable::new();
    let lex = small_lexicon();
    match Theme::No.resolve("", &table, &lex) {
        Ok(None) => {}
        _ => panic!("no theme must resolve to no handle"),
    }
}

#[test]
fn resolve_empty_custom_is_empty_theme() {
    let table = ThemeTable::new();
    let lex = small_lexicon();
    match Theme::Custom.resolve("", &table, &lex) {
        Err(ThemeError::EmptyTheme) => {}
        _ => panic!("empty custom text must be the empty-theme failure"),
    }
    match Theme::Custom.resolve(" \t\n ", &table, &lex) {
        Err(ThemeError::EmptyTheme) => {}
        _ => panic!("blank custom text must be the empty-theme failure"),
    }
}

#[test]
fn resolve_known_words_succeeds() {
    let table = ThemeTable::new();
    let lex = small_lexicon();
    match Theme::Custom.resolve("word1 word2", &table, &lex) {
        Ok(Some(handle)) => {
            assert_eq!(handle.words, vec!["word1".to_string(), "word2".to_string()]);
        }
        _ => panic!("known words must resolve to a handle"),
    }
}

#[test]
fn resolve_unknown_word_is_listed() {
    let table = ThemeTable::new();
    let lex = small_lexicon();
    match Theme::Custom.resolve("word1 unknownword", &table, &lex) {
        Err(ThemeError::UnknownWords(ws)) => {
            assert_eq!(ws, vec!["unknownword".to_string()]);
        }
        _ => panic!("an unknown word must be enumerated"),
    }
}

#[test]
fn resolve_preset_uses_table() {
    let mut table = ThemeTable::new();
    table.add(
        "пара".to_string(),
        vec!["word1".to_string(), "word2".to_string()],
    );
    let lex = small_lexicon();
    assert_eq!(table.len(), 1);
    assert_eq!(table.name_at(0), "пара");
    match Theme::Preset("пара".to_string()).resolve("", &table, &lex) {
        Ok(Some(handle)) => {
            assert_eq!(handle.words.len(), 2);
        }
        _ => panic!("a preset of known words must resolve"),
    }
}

#[test]
fn persist_round_trip() {
    let mut s = PersistedState::baseline();
    s.config.popularity.weight = 123;
    s.config.stresses.indexation = false;
    s.config.alliteration.pow_syll_ending = -2500000;
    s.rps.verb = true;
    s.rps.misc = true;
    s.show_rhymes = 499;
    s.theme = Theme::Preset("осень".to_string());
    let (nums, name) = encode(&s);
    let back = decode(&nums, &name);
    assert!(back.config == s.config);
    assert!(back.rps == s.rps);
    assert_eq!(back.show_rhymes, s.show_rhymes);
    assert!(back.theme == s.theme);
}

#[test]
fn persist_round_trip_custom_theme() {
    let mut s = PersistedState::baseline();
    s.theme = Theme::Custom;
    let (nums, name) = encode(&s);
    let back = decode(&nums, &name);
    assert!(back.theme == Theme::Custom);
}

#[test]
fn missing_fields_decode_to_baseline() {
    let empty: Vec<i64> = Vec::new();
    let s = decode(&empty, &String::new());
    let base = PersistedState::baseline();
    assert!(s.config == base.config);
    assert!(s.rps == base.rps);
    assert_eq!(s.show_rhymes, DEFAULT_SHOW_RHYMES);
    assert!(s.theme == Theme::No);
}

#[test]
fn truncated_payload_keeps_prefix_defaults_rest() {
    let mut s = PersistedState::baseline();
    s.config.popularity.weight = 77;
    s.config.popularity.pow = 88;
    s.rps.noun = true;
    s.show_rhymes = 3;
    let (nums, name) = encode(&s);
    let prefix: Vec<i64> = nums[..2].to_vec();
    let back = decode(&prefix, &name);
    assert_eq!(back.config.popularity.weight, 77);
    assert_eq!(back.config.popularity.pow, 88);
    let base = PersistedState::baseline();
    assert!(back.config.meaning == base.config.meaning);
    assert!(back.rps == base.rps);
    assert_eq!(back.show_rhymes, DEFAULT_SHOW_RHYMES);
    assert!(back.theme == Theme::No);
}
