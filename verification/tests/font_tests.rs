//! Font resolution and string decoding.

use danish_dictionary_parser::decode::{decode_pdf_string, DecodeError};
use danish_dictionary_parser::font::{
    find_font, make_font_map, make_unicode_map, EncodingDesc, FontDesc, FontError, FontSubtype,
};

fn win_ansi_font(differences: Vec<(u16, String)>) -> FontDesc {
    FontDesc {
        name: None,
        subtype: FontSubtype::Simple,
        to_unicode: None,
        encoding: Some(EncodingDesc { base_win_ansi: true, differences }),
    }
}

#[test]
fn win_ansi_fallback_maps_latin_and_windows_codes() {
    let m = make_unicode_map(&win_ansi_font(vec![])).unwrap();
    assert_eq!(m.get(&65).map(|s| s.as_str()), Some("A"));
    assert_eq!(m.get(&128).map(|s| s.as_str()), Some("\u{20ac}"));
    assert_eq!(m.get(&150).map(|s| s.as_str()), Some("\u{2013}"));
    assert_eq!(m.get(&156).map(|s| s.as_str()), Some("\u{153}"));
    assert_eq!(m.get(&254).map(|s| s.as_str()), Some("\u{fe}"));
    assert_eq!(m.get(&31), None);
    assert_eq!(m.get(&255), None);
}

#[test]
fn all_twenty_seven_windows_specific_codes_are_overlaid() {
    let m = make_unicode_map(&win_ansi_font(vec![])).unwrap();
    let overlay: [(u16, &str); 27] = [
        (128, "\u{20ac}"),
        (130, "\u{201a}"),
        (131, "\u{192}"),
        (132, "\u{201e}"),
        (133, "\u{2026}"),
        (134, "\u{2020}"),
        (135, "\u{2021}"),
        (136, "\u{2c6}"),
        (137, "\u{2030}"),
        (138, "\u{160}"),
        (139, "\u{2039}"),
        (140, "\u{152}"),
        (142, "\u{17d}"),
        (145, "\u{2018}"),
        (146, "\u{2019}"),
        (147, "\u{201c}"),
        (148, "\u{201d}"),
        (149, "\u{2022}"),
        (150, "\u{2013}"),
        (151, "\u{2014}"),
        (152, "\u{2dc}"),
        (153, "\u{2122}"),
        (154, "\u{161}"),
        (155, "\u{203a}"),
        (156, "\u{153}"),
        (158, "\u{17e}"),
        (159, "\u{178}"),
    ];
    for (code, text) in overlay {
        assert_eq!(m.get(&code).map(|s| s.as_str()), Some(text), "code {code}");
    }
}

#[test]
fn differences_take_precedence_over_the_base_encoding() {
    let m = make_unicode_map(&win_ansi_font(vec![(65, "Z".to_string())])).unwrap();
    assert_eq!(m.get(&65).map(|s| s.as_str()), Some("Z"));
    assert_eq!(m.get(&66).map(|s| s.as_str()), Some("B"));
}

#[test]
fn later_differences_win_over_earlier_ones() {
    let m = make_unicode_map(
        &win_ansi_font(vec![(65, "x".to_string()), (65, "y".to_string())]),
    )
    .unwrap();
    assert_eq!(m.get(&65).map(|s| s.as_str()), Some("y"));
}

#[test]
fn named_override_beats_everything_else() {
    let font = FontDesc {
        name: Some("DXNKCI+GaijiL".to_string()),
        subtype: FontSubtype::Simple,
        to_unicode: Some(vec![(65, "wrong".to_string())]),
        encoding: None,
    };
    let m = make_unicode_map(&font).unwrap();
    assert_eq!(m.len(), 4);
    assert_eq!(m.get(&65).map(|s| s.as_str()), Some("\u{227}"));
    assert_eq!(m.get(&67).map(|s| s.as_str()), Some("\u{1491}"));
    assert_eq!(m.get(&68).map(|s| s.as_str()), Some(";"));
    assert_eq!(m.get(&69).map(|s| s.as_str()), Some("\u{283}"));
}

#[test]
fn phonetic_font_override_table() {
    let font = FontDesc {
        name: Some("DXNKCI+Ipa-samdUclphon1SILDoulosL".to_string()),
        subtype: FontSubtype::Simple,
        to_unicode: None,
        encoding: None,
    };
    let m = make_unicode_map(&font).unwrap();
    assert_eq!(m.len(), 16);
    assert_eq!(m.get(&4).map(|s| s.as_str()), Some("\u{2c8}"));
    assert_eq!(m.get(&229).map(|s| s.as_str()), Some("\u{3010}\u{ff1f}\u{3011}"));
}

#[test]
fn embedded_table_is_used_when_no_override_matches() {
    let font = FontDesc {
        name: Some("SomeFont".to_string()),
        subtype: FontSubtype::Composite,
        to_unicode: Some(vec![(1, "a".to_string()), (2, "bc".to_string()), (1, "z".to_string())]),
        encoding: None,
    };
    let m = make_unicode_map(&font).unwrap();
    assert_eq!(m.len(), 2);
    assert_eq!(m.get(&1).map(|s| s.as_str()), Some("z"));
    assert_eq!(m.get(&2).map(|s| s.as_str()), Some("bc"));
}

#[test]
fn unresolvable_font_fails_naming_the_font() {
    let font = FontDesc {
        name: Some("Mystery".to_string()),
        subtype: FontSubtype::Other,
        to_unicode: None,
        encoding: None,
    };
    assert_eq!(
        make_unicode_map(&font),
        Err(FontError::Unsupported(Some("Mystery".to_string())))
    );
    // A simple font with a non-Windows base encoding is just as unsupported.
    let font2 = FontDesc {
        name: None,
        subtype: FontSubtype::Simple,
        to_unicode: None,
        encoding: Some(EncodingDesc { base_win_ansi: false, differences: vec![] }),
    };
    assert_eq!(make_unicode_map(&font2), Err(FontError::Unsupported(None)));
}

#[test]
fn make_font_map_resolves_every_font_and_keeps_keys() {
    let fonts = vec![
        ("F0".to_string(), win_ansi_font(vec![])),
        (
            "F1".to_string(),
            FontDesc {
                name: None,
                subtype: FontSubtype::Composite,
                to_unicode: Some(vec![(10, "x".to_string())]),
                encoding: None,
            },
        ),
    ];
    let resolved = make_font_map(&fonts).unwrap();
    assert_eq!(resolved.len(), 2);
    assert_eq!(resolved[0].key, "F0");
    assert_eq!(resolved[0].subtype, FontSubtype::Simple);
    assert_eq!(resolved[1].key, "F1");
    assert_eq!(resolved[1].subtype, FontSubtype::Composite);
    assert!(find_font(&resolved, "F1").is_some());
    assert!(find_font(&resolved, "F2").is_none());
}

#[test]
fn make_font_map_fails_on_the_first_unresolvable_font() {
    let fonts = vec![(
        "F0".to_string(),
        FontDesc { name: None, subtype: FontSubtype::Other, to_unicode: None, encoding: None },
    )];
    assert_eq!(make_font_map(&fonts), Err(FontError::Unsupported(None)));
}

#[test]
fn simple_font_decodes_byte_per_code() {
    let m = make_unicode_map(&win_ansi_font(vec![])).unwrap();
    let out = decode_pdf_string(&m, FontSubtype::Simple, &b"hund".to_vec()).unwrap();
    let texts: Vec<&str> = out.iter().map(|s| s.as_str()).collect();
    assert_eq!(texts, vec!["h", "u", "n", "d"]);
}

#[test]
fn composite_font_decodes_big_endian_pairs() {
    let font = FontDesc {
        name: None,
        subtype: FontSubtype::Composite,
        to_unicode: Some(vec![(0x0041, "A".to_string()), (0x3042, "x".to_string())]),
        encoding: None,
    };
    let m = make_unicode_map(&font).unwrap();
    let out = decode_pdf_string(&m, FontSubtype::Composite, &vec![0x00, 0x41, 0x30, 0x42])
        .unwrap();
    let texts: Vec<&str> = out.iter().map(|s| s.as_str()).collect();
    assert_eq!(texts, vec!["A", "x"]);
}

#[test]
fn missing_code_is_a_hard_error() {
    let m = make_unicode_map(&win_ansi_font(vec![])).unwrap();
    let r = decode_pdf_string(&m, FontSubtype::Simple, &vec![65, 1, 66]);
    assert_eq!(r, Err(DecodeError::UnicodeMappingMissing(1)));
}

#[test]
fn undecodable_subtype_is_rejected() {
    let m = make_unicode_map(&win_ansi_font(vec![])).unwrap();
    let r = decode_pdf_string(&m, FontSubtype::Other, &b"x".to_vec());
    assert_eq!(r, Err(DecodeError::UnsupportedSubtype));
}
