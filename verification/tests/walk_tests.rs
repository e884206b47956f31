//! The text-state machine over whole instruction lists.

use danish_dictionary_parser::fixed::{milli_mul, sat_add, MILLI_SCALE};
use danish_dictionary_parser::operator::{
    FontKey, NameObject, NextLine, Operator, PdfNumber, TextObjectOperator,
    TextPositioningOperator, TextShowingElement, TextShowingOperator, TextStateOperator,
    SetTextFont, UnscaledTextSpaceUnit,
};
use danish_dictionary_parser::text_state::{TextMatrices, TextStateParams, TransformMatrix};
use danish_dictionary_parser::walk::{each_text, TextStateError, TextWalker};

fn num(v: i32) -> UnscaledTextSpaceUnit {
    UnscaledTextSpaceUnit(PdfNumber::Integer(v))
}

fn set_font(name: &str, size: i32) -> Operator {
    Operator::TextState(TextStateOperator::SetTextFont(SetTextFont {
        font: FontKey(NameObject(name.to_string())),
        size: PdfNumber::Integer(size),
    }))
}

fn move_text(tx: i32, ty: i32) -> Operator {
    Operator::TextPositioning(TextPositioningOperator::NextLine(Some(NextLine {
        tx: num(tx),
        ty: num(ty),
        set_leading_param: false,
    })))
}

#[test]
fn show_text_emits_one_positioned_event() {
    let ops = vec![
        Operator::TextObject(TextObjectOperator::Begin),
        set_font("F", 12),
        move_text(10, 700),
        Operator::TextShowing(TextShowingOperator::Show(b"hund".to_vec())),
        Operator::TextObject(TextObjectOperator::End),
    ];
    let (events, err) = each_text(&ops);
    assert_eq!(err, None);
    assert_eq!(events.len(), 1);
    assert_eq!(events[0].font, "F");
    assert_eq!(events[0].text, b"hund".to_vec());
    assert_eq!(events[0].positions.coordinates(), (10_000, 700_000));
}

#[test]
fn position_before_begin_text_fails() {
    let ops = vec![move_text(10, 700)];
    let (events, err) = each_text(&ops);
    assert_eq!(events.len(), 0);
    assert_eq!(err, Some(TextStateError::MissingTextObject));
}

#[test]
fn set_matrix_before_begin_text_fails() {
    let m = danish_dictionary_parser::operator::TextMatrix {
        a: num(1),
        b: num(0),
        c: num(0),
        d: num(1),
        e: num(5),
        f: num(6),
    };
    let ops = vec![Operator::TextPositioning(TextPositioningOperator::SetTextMatrix(m))];
    let (_, err) = each_text(&ops);
    assert_eq!(err, Some(TextStateError::MissingTextObject));
}

#[test]
fn draw_before_begin_text_fails() {
    let ops = vec![
        set_font("F", 12),
        Operator::TextShowing(TextShowingOperator::Show(b"x".to_vec())),
    ];
    let (_, err) = each_text(&ops);
    assert_eq!(err, Some(TextStateError::MissingTextObject));
}

#[test]
fn draw_before_set_font_fails() {
    let ops = vec![
        Operator::TextObject(TextObjectOperator::Begin),
        move_text(10, 700),
        Operator::TextShowing(TextShowingOperator::Show(b"x".to_vec())),
    ];
    let (_, err) = each_text(&ops);
    assert_eq!(err, Some(TextStateError::MissingFont));
}

#[test]
fn events_before_the_error_are_kept() {
    let ops = vec![
        Operator::TextObject(TextObjectOperator::Begin),
        set_font("F", 12),
        Operator::TextShowing(TextShowingOperator::Show(b"a".to_vec())),
        Operator::TextObject(TextObjectOperator::End),
        move_text(1, 1),
    ];
    let (events, err) = each_text(&ops);
    assert_eq!(events.len(), 1);
    assert_eq!(err, Some(TextStateError::MissingTextObject));
}

#[test]
fn adjusted_show_emits_one_event_per_string_element() {
    let arr = vec![
        TextShowingElement::String(b"ab".to_vec()),
        TextShowingElement::TextSpace(
            danish_dictionary_parser::operator::ThousandsTextSpaceUnit(PdfNumber::Integer(-250)),
        ),
        TextShowingElement::String(b"cd".to_vec()),
    ];
    let ops = vec![
        Operator::TextObject(TextObjectOperator::Begin),
        set_font("G", 9),
        move_text(70, 100),
        Operator::TextShowing(TextShowingOperator::Adjusted(arr)),
    ];
    let (events, err) = each_text(&ops);
    assert_eq!(err, None);
    assert_eq!(events.len(), 2);
    assert_eq!(events[0].text, b"ab".to_vec());
    assert_eq!(events[1].text, b"cd".to_vec());
    assert_eq!(events[0].positions, events[1].positions);
}

#[test]
fn text_state_updates_apply_outside_text_objects() {
    let mut w = TextWalker::new();
    let r = w.step(&Operator::TextState(TextStateOperator::SetCharacterSpacing(num(2))));
    assert!(r.is_ok());
    assert_eq!(w.params.character_spacing, 2_000);
    let r = w.step(&set_font("F", 12));
    assert!(r.is_ok());
    assert_eq!(w.params.font, Some(("F".to_string(), 12_000)));
}

#[test]
fn default_params_match_the_initial_text_state() {
    let p = TextStateParams::default();
    assert_eq!(p.character_spacing, 0);
    assert_eq!(p.word_spacing, 0);
    assert_eq!(p.horizontal_scaling, 100_000);
    assert_eq!(p.leading, 0);
    assert_eq!(p.font, None);
    assert_eq!(p.rise, 0);
    assert!(p.rendering_mode.fill);
    assert!(!p.rendering_mode.stroke);
    assert!(!p.rendering_mode.clip);
}

#[test]
fn next_line_translates_both_transforms() {
    let mut m = TextMatrices::default();
    m.next_line(10_000, 700_000);
    assert_eq!(m.text_matrix.e, 10_000);
    assert_eq!(m.text_matrix.f, 700_000);
    assert_eq!(m.text_matrix, m.text_line_matrix);
    // A second move composes with the first.
    m.next_line(5_000, -8_000);
    assert_eq!(m.text_matrix.e, 15_000);
    assert_eq!(m.text_matrix.f, 692_000);
}

#[test]
fn set_matrix_replaces_both_transforms() {
    let mut m = TextMatrices::default();
    let t = TransformMatrix { a: 9_960, b: 0, c: 0, d: 9_960, e: 70_800, f: 100_000 };
    m.set_matrix(t);
    assert_eq!(m.text_matrix, t);
    assert_eq!(m.text_line_matrix, t);
    assert_eq!(m.coordinates(), (70_800, 100_000));
    assert_eq!(m.glyph_size(), 9_960);
}

#[test]
fn fixed_point_arithmetic_truncates_and_saturates() {
    assert_eq!(MILLI_SCALE, 1000);
    assert_eq!(milli_mul(2_000, 3_000), 6_000);
    assert_eq!(milli_mul(-2_000, 3_000), -6_000);
    assert_eq!(milli_mul(1, 1), 0);
    assert_eq!(milli_mul(-1, 999), 0);
    assert_eq!(milli_mul(i64::MAX, i64::MAX), i64::MAX);
    assert_eq!(milli_mul(i64::MIN, i64::MAX), i64::MIN);
    assert_eq!(sat_add(1, 2), 3);
    assert_eq!(sat_add(i64::MAX, 1), i64::MAX);
    assert_eq!(sat_add(i64::MIN, -1), i64::MIN);
}
