//! The entry grammar, the correction table and the dictionary driver.

use danish_dictionary_parser::corrections::{corrections, patch};
use danish_dictionary_parser::entry::{
    parse_dictionary, parse_entry_line, parse_pronuncitation_list, NounCount, Pos,
};

#[test]
fn simple_noun_entry_parses() {
    let e = parse_entry_line("hund [名] [ˈhun’]: 犬．").unwrap().unwrap();
    assert_eq!(e.word, "hund");
    assert_eq!(e.pos, vec![Pos::Noun(None)]);
    assert_eq!(e.pronunciations, vec!["ˈhun’".to_string()]);
    assert!(e.other_forms.is_empty());
    assert!(e.other_adjective_forms.is_empty());
}

#[test]
fn pos_tag_variants_parse() {
    let e = parse_entry_line("bil [名・単] [ˈbi;l]: x").unwrap().unwrap();
    assert_eq!(e.pos, vec![Pos::Noun(Some(NounCount::Single))]);
    let e = parse_entry_line("biler [名・複] [ˈbi;lɔ]: x").unwrap().unwrap();
    assert_eq!(e.pos, vec![Pos::Noun(Some(NounCount::Multiple))]);
    let e = parse_entry_line("og [接] [ˈɔ]: x").unwrap().unwrap();
    assert_eq!(e.pos, vec![Pos::Conjunction]);
    let e = parse_entry_line("at [不定詞マーカー] [ˈad]: x").unwrap().unwrap();
    assert_eq!(e.pos, vec![Pos::InfinitiveMarker]);
    let e = parse_entry_line("en [不定冠詞] [ˈe;n]: x").unwrap().unwrap();
    assert_eq!(e.pos, vec![Pos::IndefiniteArticle]);
    let e = parse_entry_line("det [形式主語] [ˈde]: x").unwrap().unwrap();
    assert_eq!(e.pos, vec![Pos::FormalSubject]);
}

#[test]
fn comma_joined_tags_parse_in_order() {
    let e = parse_entry_line("ned [副], [前] [ˈneð]: x").unwrap().unwrap();
    assert_eq!(e.pos, vec![Pos::Adverb, Pos::Preposition]);
}

#[test]
fn missing_pos_list_is_allowed() {
    let e = parse_entry_line("hej [ˈhαᒑ]: x").unwrap().unwrap();
    assert_eq!(e.word, "hej");
    assert!(e.pos.is_empty());
}

#[test]
fn invariance_marker_applies_to_adjective_tags() {
    let e = parse_entry_line("spændende [形] [ˈsbænənə] [不変化], mere spændende: x")
        .unwrap()
        .unwrap();
    assert_eq!(e.pos, vec![Pos::Adjective(true)]);
    assert_eq!(e.other_adjective_forms.len(), 1);
    assert_eq!(e.other_adjective_forms[0].word, "mere spændende");
    let e = parse_entry_line("rød [形] [ˈrøð]: x").unwrap().unwrap();
    assert_eq!(e.pos, vec![Pos::Adjective(false)]);
}

#[test]
fn inline_invariance_alternative_parses() {
    let e = parse_entry_line("tak [形] [無変化] [ˈtag]: x").unwrap().unwrap();
    assert_eq!(e.pos, vec![Pos::Adjective(true)]);
}

#[test]
fn homograph_digit_is_consumed() {
    let e = parse_entry_line("den1 [代] [ˈdæn’, dæn]: x").unwrap().unwrap();
    assert_eq!(e.word, "den");
    assert_eq!(
        e.pronunciations,
        vec!["ˈdæn’".to_string(), "dæn".to_string()]
    );
}

#[test]
fn other_forms_capture_words_and_pronunciations() {
    let e = parse_entry_line(
        "knuse [動] [ˈknu:sə], knuser [ˈknu;sɔ], knus! [ˈknu;s]: 壊す",
    )
    .unwrap()
    .unwrap();
    assert_eq!(e.word, "knuse");
    assert_eq!(e.pos, vec![Pos::Verb]);
    assert_eq!(e.other_forms.len(), 2);
    assert_eq!(e.other_forms[0].word, "knuser");
    assert_eq!(e.other_forms[0].pronunciations, vec!["ˈknu;sɔ".to_string()]);
    assert_eq!(e.other_forms[1].word, "knus");
    assert!(e.other_forms[1].slahsed.is_empty());
}

#[test]
fn slashed_cross_references_parse_inside_other_forms() {
    let e = parse_entry_line(
        "øre1 [名] [ˈø:ɔ], øret [ˈø:ɔð], ører [ˈø:ɔ]/øren [ˈø:ɔn], ørerne [ˈø:ɔnə]: 耳． ",
    )
    .unwrap()
    .unwrap();
    assert_eq!(e.word, "øre");
    assert_eq!(e.other_forms.len(), 3);
    assert_eq!(e.other_forms[1].word, "ører");
    assert_eq!(e.other_forms[1].slahsed.len(), 1);
    assert_eq!(e.other_forms[1].slahsed[0].word, "øren");
    assert_eq!(
        e.other_forms[1].slahsed[0].pronunciations,
        vec!["ˈø:ɔn".to_string()]
    );
    assert!(e.other_forms[1].slahsed[0].slahsed.is_empty());
}

#[test]
fn adjective_forms_without_pronunciations_parse() {
    let e = parse_entry_line(
        "varm [形] [ˈvα;m], varmt [ˈvα;md], varme [ˈvα:mə], varmere [ˈvα:mɔɔ],  varmest [ˈvα:məsd], varmeste [ˈvα:məsdə]: 温かい",
    )
    .unwrap()
    .unwrap();
    assert_eq!(e.word, "varm");
    assert_eq!(e.other_forms.len(), 5);
    assert_eq!(e.other_forms[4].word, "varmeste");
}

#[test]
fn full_width_colon_terminates_an_entry() {
    let e = parse_entry_line("hav [名] [ˈhαw]： 海").unwrap().unwrap();
    assert_eq!(e.word, "hav");
}

#[test]
fn leading_marker_and_parenthetical_en_are_accepted() {
    let e = parse_entry_line("+hus [名] [ˈhu;s] (en): x").unwrap().unwrap();
    assert_eq!(e.word, "hus");
}

#[test]
fn one_arrow_line_is_skipped_silently() {
    assert_eq!(parse_entry_line("se → anden opslag"), Ok(None));
}

#[test]
fn zero_or_two_arrows_fail_as_mismatches() {
    let r = parse_entry_line("???");
    assert!(r.is_err());
    assert_eq!(r.unwrap_err().text, "???");
    let r = parse_entry_line("a → b → c");
    assert!(r.is_err());
}

#[test]
fn an_arrow_line_that_matches_the_grammar_still_parses() {
    let e = parse_entry_line("pil [名] [ˈpi;l]: → 矢").unwrap().unwrap();
    assert_eq!(e.word, "pil");
}

#[test]
fn corrections_are_keyed_verbatim_and_idempotent() {
    let table = corrections();
    assert_eq!(table.len(), 31);
    for (k, v) in &table {
        assert_eq!(patch(k), *v);
        assert_eq!(patch(v), *v);
    }
    assert_eq!(patch("hund [名] [ˈhun’]: 犬．"), "hund [名] [ˈhun’]: 犬．");
}

#[test]
fn every_corrected_string_matches_the_grammar() {
    for (i, (_, v)) in corrections().iter().enumerate() {
        let r = parse_entry_line(v);
        assert!(
            matches!(r, Ok(Some(_))),
            "corrected string {i} does not parse: {v:?}"
        );
    }
}

#[test]
fn corrections_fix_known_irregularities() {
    let raw = "Samsø [固] [ˈsαmˌsø;] サムスー島． ";
    assert!(parse_entry_line(raw).is_err() || patch(raw) != raw);
    let fixed = patch(raw);
    assert_eq!(fixed, "Samsø [固] [ˈsαmˌsø;]: サムスー島． ");
    let e = parse_entry_line(raw).unwrap().unwrap();
    assert_eq!(e.word, "Samsø");
    assert_eq!(e.pos, vec![Pos::ProperNoun]);
}

#[test]
fn pronunciation_lists_split_on_plain_commas_and_trim() {
    let ps = parse_pronuncitation_list("ˈal’sɔ, ˈαl’sɔ");
    assert_eq!(ps, vec!["ˈal’sɔ".to_string(), "ˈαl’sɔ".to_string()]);
    let ps = parse_pronuncitation_list(" a ");
    assert_eq!(ps, vec!["a".to_string()]);
    let ps = parse_pronuncitation_list("a,,b");
    assert_eq!(ps, vec!["a".to_string(), "".to_string(), "b".to_string()]);
}

#[test]
fn parse_dictionary_collects_entries_and_skips_aliases() {
    let words = vec![
        "hund [名] [ˈhun’]: 犬．".to_string(),
        "se → andet".to_string(),
        "kat [名] [ˈkad]: 猫．".to_string(),
    ];
    let entries = parse_dictionary(&words).unwrap();
    assert_eq!(entries.len(), 2);
    assert_eq!(entries[0].word, "hund");
    assert_eq!(entries[1].word, "kat");
}

#[test]
fn parse_dictionary_fails_on_the_first_mismatch() {
    let words = vec!["hund [名] [ˈhun’]: 犬．".to_string(), "!!!".to_string()];
    let err = parse_dictionary(&words).unwrap_err();
    assert_eq!(err.text, "!!!");
}
