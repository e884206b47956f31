//! Line assembly: baseline grouping, classification and entry
//! accumulation.

use danish_dictionary_parser::font::{make_unicode_map, EncodingDesc, FontDesc, FontSubtype};
use danish_dictionary_parser::lines::{
    decode_lines, get_words, group_lines, not_indented, LineError, PageError, ParsedTextEntry,
};
use danish_dictionary_parser::text_state::{TextEntry, TextMatrices, TransformMatrix};

fn run_at(x: i64, y: i64, size: i64, font: &str, text: &[u8]) -> TextEntry {
    let t = TransformMatrix { a: size, b: 0, c: 0, d: size, e: x, f: y };
    TextEntry {
        positions: TextMatrices { text_matrix: t, text_line_matrix: t },
        font: font.to_string(),
        text: text.to_vec(),
    }
}

fn simple_run(x: i64, y: i64) -> TextEntry {
    run_at(x, y, 9_960, "F0", b"x")
}

#[test]
fn close_baselines_merge_into_one_line() {
    let lines = group_lines(vec![simple_run(70_600, 100_000), simple_run(80_000, 95_000)]);
    assert_eq!(lines.len(), 1);
    assert_eq!(lines[0].len(), 2);
}

#[test]
fn distant_baselines_start_a_new_line() {
    let lines = group_lines(vec![simple_run(70_600, 100_000), simple_run(70_600, 80_000)]);
    assert_eq!(lines.len(), 2);
    assert_eq!(lines[0].len(), 1);
    assert_eq!(lines[1].len(), 1);
}

#[test]
fn leading_header_band_runs_are_dropped() {
    let lines = group_lines(vec![simple_run(70_600, 40_000), simple_run(70_600, 100_000)]);
    assert_eq!(lines.len(), 1);
    assert_eq!(lines[0].len(), 1);
    assert_eq!(lines[0][0].positions.coordinates().1, 100_000);
}

#[test]
fn only_leading_runs_are_subject_to_the_header_cutoff() {
    let lines = group_lines(vec![simple_run(70_600, 100_000), simple_run(70_600, 40_000)]);
    assert_eq!(lines.len(), 2);
}

#[test]
fn reference_baseline_is_the_line_opening_run() {
    // 100 -> 95 joins (reference stays 100); 91 still joins; 80 opens.
    let lines = group_lines(vec![
        simple_run(70_600, 100_000),
        simple_run(80_000, 95_000),
        simple_run(80_000, 93_000),
        simple_run(70_600, 80_000),
    ]);
    assert_eq!(lines.len(), 2);
    assert_eq!(lines[0].len(), 3);
}

#[test]
fn indentation_buckets_classify_first_runs() {
    assert_eq!(not_indented(&simple_run(70_500, 100_000)), Ok(true));
    assert_eq!(not_indented(&simple_run(71_000, 100_000)), Ok(true));
    assert_eq!(not_indented(&simple_run(71_500, 100_000)), Err(LineError::UnexpectedCoordinate(71_500)));
    assert_eq!(not_indented(&simple_run(80_000, 100_000)), Ok(false));
    assert_eq!(not_indented(&simple_run(82_400, 100_000)), Ok(false));
    assert_eq!(not_indented(&simple_run(91_600, 100_000)), Ok(false));
    assert_eq!(not_indented(&simple_run(60_000, 100_000)), Err(LineError::UnexpectedCoordinate(60_000)));
}

#[test]
fn single_space_run_counts_as_entry_start_by_convention() {
    let e = run_at(5_000, 100_000, 9_960, "F0", b" ");
    assert_eq!(not_indented(&e), Ok(true));
}

fn parsed_line(x: i64, size: i64, texts: &[&str]) -> Vec<ParsedTextEntry> {
    vec![(
        run_at(x, 100_000, size, "F0", b"x"),
        texts.iter().map(|t| t.to_string()).collect(),
    )]
}

#[test]
fn words_accumulate_until_the_next_entry_start() {
    let mut words: Vec<String> = Vec::new();
    let lines = vec![
        parsed_line(71_000, 9_960, &["hund "]),
        parsed_line(81_000, 9_960, &["[名] ", "[x]: dog"]),
        parsed_line(71_000, 9_960, &["kat:"]),
    ];
    assert_eq!(get_words(&mut words, &lines), Ok(()));
    assert_eq!(words, vec!["hund [名] [x]: dog".to_string(), "kat:".to_string()]);
}

#[test]
fn heading_and_blank_lines_are_skipped() {
    let mut words: Vec<String> = Vec::new();
    let lines = vec![
        parsed_line(60_000, 12_000, &["A"]),
        parsed_line(71_000, 9_960, &["word"]),
        parsed_line(81_000, 9_960, &[" "]),
        parsed_line(81_000, 9_960, &["!"]),
    ];
    assert_eq!(get_words(&mut words, &lines), Ok(()));
    assert_eq!(words, vec!["word!".to_string()]);
}

#[test]
fn continuation_before_any_entry_is_an_orphan() {
    let mut words: Vec<String> = Vec::new();
    let lines = vec![parsed_line(81_000, 9_960, &["tail"])];
    assert_eq!(get_words(&mut words, &lines), Err(LineError::OrphanContinuation));
}

#[test]
fn unexpected_x_coordinate_fails_accumulation() {
    let mut words: Vec<String> = Vec::new();
    let lines = vec![parsed_line(75_000, 9_960, &["x"])];
    assert_eq!(
        get_words(&mut words, &lines),
        Err(LineError::UnexpectedCoordinate(75_000))
    );
}

#[test]
fn words_persist_across_pages() {
    let mut words: Vec<String> = Vec::new();
    get_words(&mut words, &vec![parsed_line(71_000, 9_960, &["first "])]).unwrap();
    get_words(&mut words, &vec![parsed_line(81_000, 9_960, &["page top"])]).unwrap();
    assert_eq!(words, vec!["first page top".to_string()]);
}

fn resolved_fonts() -> Vec<danish_dictionary_parser::font::ResolvedFont> {
    let fonts = vec![(
        "F0".to_string(),
        FontDesc {
            name: None,
            subtype: FontSubtype::Simple,
            to_unicode: None,
            encoding: Some(EncodingDesc { base_win_ansi: true, differences: vec![] }),
        },
    )];
    danish_dictionary_parser::font::make_font_map(&fonts).unwrap()
}

#[test]
fn decode_lines_keeps_structure_and_decodes_each_run() {
    let fonts = resolved_fonts();
    let lines = vec![vec![run_at(71_000, 100_000, 9_960, "F0", b"ab")]];
    let parsed = decode_lines(&fonts, lines).unwrap();
    assert_eq!(parsed.len(), 1);
    assert_eq!(parsed[0].len(), 1);
    let texts: Vec<&str> = parsed[0][0].1.iter().map(|s| s.as_str()).collect();
    assert_eq!(texts, vec!["a", "b"]);
}

#[test]
fn decode_lines_reports_a_missing_font_key() {
    let fonts = resolved_fonts();
    let lines = vec![vec![run_at(71_000, 100_000, 9_960, "F9", b"ab")]];
    assert_eq!(
        decode_lines(&fonts, lines),
        Err(PageError::FontNotFound("F9".to_string()))
    );
}

#[test]
fn decode_lines_reports_an_unmapped_code() {
    let fonts = resolved_fonts();
    let lines = vec![vec![run_at(71_000, 100_000, 9_960, "F0", &[2u8])]];
    assert_eq!(
        decode_lines(&fonts, lines),
        Err(PageError::Decode(
            danish_dictionary_parser::decode::DecodeError::UnicodeMappingMissing(2)
        ))
    );
}

#[test]
fn win_ansi_table_covers_all_printable_codes() {
    let m = make_unicode_map(&FontDesc {
        name: None,
        subtype: FontSubtype::Simple,
        to_unicode: None,
        encoding: Some(EncodingDesc { base_win_ansi: true, differences: vec![] }),
    })
    .unwrap();
    assert_eq!(m.len(), 223);
}
