//! Construction of typed instructions from raw operations.

use danish_dictionary_parser::operator::{
    parse_operator, ColourObject, ColourOperator, GraphicsStateOperator, MarkedContentOperator,
    Operator, PdfNumber, Primitive, RawOperation, RenderingModeSet, TextObjectOperator,
    TextPositioningOperator, TextRenderingMode, TextShowingElement, TextShowingOperator,
    TextStateOperator,
};

fn raw(op: &str, operands: Vec<Primitive>) -> RawOperation {
    RawOperation { operator: op.to_string(), operands }
}

#[test]
fn zero_operand_operators_parse() {
    assert_eq!(
        parse_operator(raw("q", vec![])),
        Ok(Operator::GraphicsState(GraphicsStateOperator::Push))
    );
    assert_eq!(
        parse_operator(raw("BT", vec![])),
        Ok(Operator::TextObject(TextObjectOperator::Begin))
    );
    assert_eq!(
        parse_operator(raw("EMC", vec![])),
        Ok(Operator::MarkedContent(MarkedContentOperator::End))
    );
}

#[test]
fn wrong_arity_on_a_known_operator_fails() {
    assert!(parse_operator(raw("q", vec![Primitive::Null])).is_err());
    assert!(parse_operator(raw("Tm", vec![Primitive::Integer(1)])).is_err());
}

#[test]
fn set_font_takes_a_name_and_a_size() {
    let r = parse_operator(raw(
        "Tf",
        vec![Primitive::Name("F0".to_string()), Primitive::Integer(12)],
    ))
    .unwrap();
    match r {
        Operator::TextState(TextStateOperator::SetTextFont(stf)) => {
            assert_eq!((stf.font.0).0, "F0");
            assert_eq!(stf.size, PdfNumber::Integer(12));
        }
        other => panic!("unexpected operator {other:?}"),
    }
    assert!(parse_operator(raw("Tf", vec![Primitive::Integer(1), Primitive::Integer(12)]))
        .is_err());
}

#[test]
fn rendering_modes_map_to_flag_sets() {
    let r = parse_operator(raw("Tr", vec![Primitive::Integer(2)])).unwrap();
    match r {
        Operator::TextState(TextStateOperator::SetRenderingMode(flags)) => {
            assert!(flags.fill && flags.stroke && !flags.clip);
        }
        other => panic!("unexpected operator {other:?}"),
    }
    assert!(parse_operator(raw("Tr", vec![Primitive::Integer(8)])).is_err());
    assert!(parse_operator(raw("Tr", vec![Primitive::Number(2_000)])).is_err());
}

#[test]
fn move_text_position_distinguishes_leading_variant() {
    let ops = vec![Primitive::Integer(10), Primitive::Number(700_500)];
    let r = parse_operator(raw("TD", ops)).unwrap();
    match r {
        Operator::TextPositioning(TextPositioningOperator::NextLine(Some(nl))) => {
            assert!(nl.set_leading_param);
            assert_eq!(nl.tx.0.milli(), 10_000);
            assert_eq!(nl.ty.0.milli(), 700_500);
        }
        other => panic!("unexpected operator {other:?}"),
    }
    let r = parse_operator(raw("T*", vec![])).unwrap();
    assert_eq!(r, Operator::TextPositioning(TextPositioningOperator::NextLine(None)));
}

#[test]
fn show_text_keeps_the_raw_bytes() {
    let r = parse_operator(raw("Tj", vec![Primitive::String(b"hund".to_vec())])).unwrap();
    assert_eq!(r, Operator::TextShowing(TextShowingOperator::Show(b"hund".to_vec())));
}

#[test]
fn adjusted_show_accepts_strings_and_numbers_only() {
    let arr = vec![
        Primitive::String(b"ab".to_vec()),
        Primitive::Integer(-250),
        Primitive::String(b"cd".to_vec()),
    ];
    let r = parse_operator(raw("TJ", vec![Primitive::Array(arr)])).unwrap();
    match r {
        Operator::TextShowing(TextShowingOperator::Adjusted(elems)) => {
            assert_eq!(elems.len(), 3);
            assert_eq!(elems[0], TextShowingElement::String(b"ab".to_vec()));
            assert!(matches!(elems[1], TextShowingElement::TextSpace(_)));
        }
        other => panic!("unexpected operator {other:?}"),
    }
    let bad = vec![Primitive::Name("x".to_string())];
    assert!(parse_operator(raw("TJ", vec![Primitive::Array(bad)])).is_err());
}

#[test]
fn colour_space_selection_keeps_the_object_kind() {
    let r = parse_operator(raw("cs", vec![Primitive::Name("DeviceRGB".to_string())])).unwrap();
    match r {
        Operator::Colour(pair) => {
            assert_eq!(pair.object, ColourObject::Nonstroking);
            match pair.operator {
                ColourOperator::SetCurrentColourSpace(cs) => assert_eq!(cs.0, "DeviceRGB"),
                other => panic!("unexpected colour operator {other:?}"),
            }
        }
        other => panic!("unexpected operator {other:?}"),
    }
}

#[test]
fn unknown_operators_are_preserved_verbatim() {
    let r = parse_operator(raw("XYZ", vec![Primitive::Boolean(true)])).unwrap();
    match r {
        Operator::Unknown(op) => {
            assert_eq!(op.operator, "XYZ");
            assert_eq!(op.operands, vec![Primitive::Boolean(true)]);
        }
        other => panic!("unexpected operator {other:?}"),
    }
}

#[test]
fn numbers_convert_to_fixed_point_thousandths() {
    assert_eq!(PdfNumber::Integer(12).milli(), 12_000);
    assert_eq!(PdfNumber::Integer(-3).milli(), -3_000);
    assert_eq!(PdfNumber::Number(700_500).milli(), 700_500);
}

#[test]
fn rendering_mode_set_membership() {
    let set = RenderingModeSet { fill: true, stroke: false, clip: true };
    assert!(set.contains(TextRenderingMode::Fill));
    assert!(!set.contains(TextRenderingMode::Stroke));
    assert!(set.contains(TextRenderingMode::Clip));
}
