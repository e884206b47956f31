//! Empty inputs and boundary values across the pipeline.

use danish_dictionary_parser::decode::decode_pdf_string;
use danish_dictionary_parser::entry::parse_dictionary;
use danish_dictionary_parser::font::{make_font_map, make_unicode_map, EncodingDesc, FontDesc, FontSubtype};
use danish_dictionary_parser::lines::{get_words, group_lines};
use danish_dictionary_parser::walk::each_text;

#[test]
fn empty_instruction_list_yields_nothing() {
    let (events, err) = each_text(&vec![]);
    assert!(events.is_empty());
    assert_eq!(err, None);
}

#[test]
fn empty_run_list_yields_no_lines() {
    assert!(group_lines(vec![]).is_empty());
}

#[test]
fn empty_page_adds_no_words() {
    let mut words: Vec<String> = Vec::new();
    assert_eq!(get_words(&mut words, &vec![]), Ok(()));
    assert!(words.is_empty());
}

#[test]
fn empty_word_list_parses_to_no_entries() {
    let entries = parse_dictionary(&vec![]).unwrap();
    assert!(entries.is_empty());
}

#[test]
fn empty_text_decodes_to_nothing() {
    let m = make_unicode_map(&FontDesc {
        name: None,
        subtype: FontSubtype::Simple,
        to_unicode: None,
        encoding: Some(EncodingDesc { base_win_ansi: true, differences: vec![] }),
    })
    .unwrap();
    assert_eq!(decode_pdf_string(&m, FontSubtype::Simple, &vec![]), Ok(vec![]));
    assert_eq!(decode_pdf_string(&m, FontSubtype::Composite, &vec![]), Ok(vec![]));
}

#[test]
fn empty_font_resources_resolve_to_an_empty_table() {
    let resolved = make_font_map(&vec![]).unwrap();
    assert!(resolved.is_empty());
}

#[test]
fn empty_string_is_a_grammar_mismatch() {
    let r = danish_dictionary_parser::entry::parse_entry_line("");
    assert!(r.is_err());
}

#[test]
fn differences_may_add_codes_outside_the_base_range() {
    let m = make_unicode_map(&FontDesc {
        name: None,
        subtype: FontSubtype::Simple,
        to_unicode: None,
        encoding: Some(EncodingDesc {
            base_win_ansi: true,
            differences: vec![(1, "one".to_string()), (300, "big".to_string())],
        }),
    })
    .unwrap();
    assert_eq!(m.get(&1).map(|s| s.as_str()), Some("one"));
    assert_eq!(m.get(&300).map(|s| s.as_str()), Some("big"));
    assert_eq!(m.len(), 225);
}
