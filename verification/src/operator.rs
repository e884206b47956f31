//! Typed drawing instructions and their construction from raw operations.
//!
//! A page's content stream arrives as raw operations: an operator name plus
//! a list of operand values. `parse_operator` validates the arity and the
//! operand types of every operator this library cares about and builds a
//! closed tagged variant, so that later stages dispatch on structure rather
//! than on strings. Operators outside the known set are preserved verbatim
//! as `Operator::Unknown`.

use vstd::prelude::*;

use crate::fixed::Milli;
use crate::strutil::str_eq;

verus! {

broadcast use vstd::string::group_string_axioms;

/// An operand value of a raw content-stream operation, reduced to the plain
/// forms this library reads. Numbers are fixed-point thousandths.
#[derive(Debug, PartialEq)]
pub enum Primitive {
    Null,
    Boolean(bool),
    Integer(i32),
    Number(Milli),
    String(Vec<u8>),
    Name(String),
    Array(Vec<Primitive>),
    Dictionary(Vec<(String, Primitive)>),
    Reference,
    Stream,
}

/// A raw content-stream operation: operator name and operands.
#[derive(Debug, PartialEq)]
pub struct RawOperation {
    pub operator: String,
    pub operands: Vec<Primitive>,
}

/// A numeric operand: either an integer or a fixed-point number in
/// thousandths.
#[derive(Debug, Clone, Copy, PartialEq, Eq, Structural)]
pub enum PdfNumber {
    Integer(i32),
    Number(Milli),
}

impl PdfNumber {
    /// The value in thousandths of a unit.
    pub open spec fn spec_milli(self) -> int {
        match self {
            PdfNumber::Integer(v) => (v as int) * 1000,
            PdfNumber::Number(m) => m as int,
        }
    }

    /// The value in thousandths of a unit, as a fixed-point scalar. The
    /// value always fits: an integer operand is at most 2^31 in magnitude.
    pub open spec fn spec_milli64(self) -> Milli {
        self.spec_milli() as i64
    }

    /// The value in thousandths of a unit.
    pub fn milli(self) -> (r: Milli)
        ensures
            r as int == self.spec_milli(),
            r == self.spec_milli64(),
    {
        match self {
            PdfNumber::Integer(v) => (v as i64) * 1000,
            PdfNumber::Number(m) => m,
        }
    }
}

/// A name operand, as used for font keys and marked-content tags.
#[derive(Debug, Clone, PartialEq)]
pub struct NameObject(pub String);

/// A length in user space units.
#[derive(Debug, Clone, Copy, PartialEq, Eq, Structural)]
pub struct UserSpaceUnit(pub PdfNumber);

/// A length in unscaled text space units.
#[derive(Debug, Clone, Copy, PartialEq, Eq, Structural)]
pub struct UnscaledTextSpaceUnit(pub PdfNumber);

/// A length in thousandths of a text space unit.
#[derive(Debug, Clone, Copy, PartialEq, Eq, Structural)]
pub struct ThousandsTextSpaceUnit(pub PdfNumber);

/// One of the three elementary rendering effects a glyph can have.
#[derive(Debug, Clone, Copy, PartialEq, Eq, Structural)]
pub enum TextRenderingMode {
    Fill,
    Stroke,
    Clip,
}

/// The set of rendering effects selected by a "set rendering mode"
/// instruction.
#[derive(Debug, Clone, Copy, PartialEq, Eq, Structural)]
pub struct RenderingModeSet {
    pub fill: bool,
    pub stroke: bool,
    pub clip: bool,
}

impl RenderingModeSet {
    /// Whether the set contains the given elementary effect.
    pub fn contains(self, mode: TextRenderingMode) -> (r: bool)
        ensures
            r == match mode {
                TextRenderingMode::Fill => self.fill,
                TextRenderingMode::Stroke => self.stroke,
                TextRenderingMode::Clip => self.clip,
            },
    {
        match mode {
            TextRenderingMode::Fill => self.fill,
            TextRenderingMode::Stroke => self.stroke,
            TextRenderingMode::Clip => self.clip,
        }
    }
}

/// The rendering-mode set selected by the numeric mode operand, or `None`
/// for a mode outside the eight defined ones.
pub open spec fn spec_mode_flags(mode: int) -> Option<RenderingModeSet> {
    if mode == 0 {
        Some(RenderingModeSet { fill: true, stroke: false, clip: false })
    } else if mode == 1 {
        Some(RenderingModeSet { fill: false, stroke: true, clip: false })
    } else if mode == 2 {
        Some(RenderingModeSet { fill: true, stroke: true, clip: false })
    } else if mode == 3 {
        Some(RenderingModeSet { fill: false, stroke: false, clip: false })
    } else if mode == 4 {
        Some(RenderingModeSet { fill: true, stroke: false, clip: true })
    } else if mode == 5 {
        Some(RenderingModeSet { fill: false, stroke: true, clip: true })
    } else if mode == 6 {
        Some(RenderingModeSet { fill: true, stroke: true, clip: true })
    } else if mode == 7 {
        Some(RenderingModeSet { fill: false, stroke: false, clip: true })
    } else {
        None
    }
}

/// A drawing instruction, grouped by category.
#[derive(Debug, PartialEq)]
pub enum Operator {
    GraphicsState(GraphicsStateOperator),
    PathConstruction(PathConstructionOperator),
    PathPainting(PathPaintingOperator),
    ClippingPath(ClippingPathOperator),
    TextObject(TextObjectOperator),
    TextState(TextStateOperator),
    TextPositioning(TextPositioningOperator),
    TextShowing(TextShowingOperator),
    Colour(ColourOperatorPair),
    MarkedContent(MarkedContentOperator),
    Unknown(RawOperation),
}

#[derive(Debug, Clone, Copy, PartialEq, Eq, Structural)]
pub enum GraphicsStateOperator {
    Push,
    Pop,
    SetLineWidth(UserSpaceUnit),
}

#[derive(Debug, Clone, Copy, PartialEq, Eq, Structural)]
pub enum PathConstructionOperator {
    AppendRectangle(AppendRectangle),
}

#[derive(Debug, Clone, Copy, PartialEq, Eq, Structural)]
pub struct AppendRectangle {
    pub x: UserSpaceUnit,
    pub y: UserSpaceUnit,
    pub width: UserSpaceUnit,
    pub height: UserSpaceUnit,
}

#[derive(Debug, Clone, Copy, PartialEq, Eq, Structural)]
pub enum PathPaintingOperator {
    EndPath,
}

#[derive(Debug, Clone, Copy, PartialEq, Eq, Structural)]
pub enum ClippingPathOperator {
    AppendNonzero,
}

#[derive(Debug, Clone, Copy, PartialEq, Eq, Structural)]
pub enum TextObjectOperator {
    Begin,
    End,
}

#[derive(Debug, Clone, PartialEq)]
pub enum TextStateOperator {
    SetCharacterSpacing(UnscaledTextSpaceUnit),
    SetWordSpacing(UnscaledTextSpaceUnit),
    SetHorizontalScaling(PdfNumber),
    SetLeading(UnscaledTextSpaceUnit),
    SetTextFont(SetTextFont),
    SetRenderingMode(RenderingModeSet),
    SetRise(UnscaledTextSpaceUnit),
}

#[derive(Debug, Clone, PartialEq)]
pub struct SetTextFont {
    pub font: FontKey,
    pub size: PdfNumber,
}

/// The in-page resource key naming a font.
#[derive(Debug, Clone, PartialEq)]
pub struct FontKey(pub NameObject);

#[derive(Debug, Clone, Copy, PartialEq, Eq, Structural)]
pub enum TextPositioningOperator {
    NextLine(Option<NextLine>),
    SetTextMatrix(TextMatrix),
}

#[derive(Debug, Clone, Copy, PartialEq, Eq, Structural)]
pub struct NextLine {
    pub tx: UnscaledTextSpaceUnit,
    pub ty: UnscaledTextSpaceUnit,
    pub set_leading_param: bool,
}

#[derive(Debug, Clone, Copy, PartialEq, Eq, Structural)]
pub struct TextMatrix {
    pub a: UnscaledTextSpaceUnit,
    pub b: UnscaledTextSpaceUnit,
    pub c: UnscaledTextSpaceUnit,
    pub d: UnscaledTextSpaceUnit,
    pub e: UnscaledTextSpaceUnit,
    pub f: UnscaledTextSpaceUnit,
}

#[derive(Debug, Clone, PartialEq)]
pub enum TextShowingOperator {
    Show(Vec<u8>),
    Adjusted(Vec<TextShowingElement>),
}

#[derive(Debug, Clone, PartialEq)]
pub enum TextShowingElement {
    String(Vec<u8>),
    TextSpace(ThousandsTextSpaceUnit),
}

#[derive(Debug, PartialEq)]
pub struct ColourOperatorPair {
    pub operator: ColourOperator,
    pub object: ColourObject,
}

#[derive(Debug, PartialEq)]
pub enum ColourOperator {
    SetCurrentColourSpace(ColourSpace),
    SetColour(SetColour),
}

/// A colour space selector, by name.
#[derive(Debug, Clone, PartialEq)]
pub struct ColourSpace(pub String);

/// The operand list of a "set colour" instruction, kept verbatim.
#[derive(Debug, PartialEq)]
pub struct SetColour(pub Vec<Primitive>);

#[derive(Debug, Clone, Copy, PartialEq, Eq, Structural)]
pub enum ColourObject {
    Stroking,
    Nonstroking,
}

#[derive(Debug, PartialEq)]
pub enum MarkedContentOperator {
    Begin(BeginMarkedContent),
    End,
}

#[derive(Debug, PartialEq)]
pub struct BeginMarkedContent {
    pub tag: NameObject,
    pub properties: Option<MarkedContentProperties>,
}

#[derive(Debug, PartialEq)]
pub enum MarkedContentProperties {
    Dictionary(Vec<(String, Primitive)>),
    PropertiesKey(NameObject),
}

/// The failure of `parse_operator` on a known operator with bad operands.
#[derive(Debug, Clone, PartialEq)]
pub struct OperatorParseError {
    pub reason: String,
}

/// The numeric reading of an operand, or `None` for a non-numeric one.
pub open spec fn spec_prim_number(p: Primitive) -> Option<PdfNumber> {
    match p {
        Primitive::Integer(v) => Some(PdfNumber::Integer(v)),
        Primitive::Number(m) => Some(PdfNumber::Number(m)),
        _ => None,
    }
}

/// Reads an operand as a number.
fn prim_number(p: &Primitive) -> (r: Option<PdfNumber>)
    ensures
        r == spec_prim_number(*p),
{
    match p {
        Primitive::Integer(v) => Some(PdfNumber::Integer(*v)),
        Primitive::Number(m) => Some(PdfNumber::Number(*m)),
        _ => None,
    }
}

/// The reading of one element of a "show with adjustments" array: a string
/// element stays a string, anything else must be a numeric spacing
/// adjustment.
pub open spec fn spec_show_elem(p: Primitive) -> Option<TextShowingElement> {
    match p {
        Primitive::String(s) => Some(TextShowingElement::String(s)),
        _ => match spec_prim_number(p) {
            Some(n) => Some(TextShowingElement::TextSpace(ThousandsTextSpaceUnit(n))),
            None => None,
        },
    }
}

/// The reading of a whole "show with adjustments" array; `None` when any
/// element is neither a string nor a number.
pub open spec fn spec_show_elems(a: Seq<Primitive>) -> Option<Seq<TextShowingElement>>
    decreases a.len(),
{
    if a.len() == 0 {
        Some(Seq::empty())
    } else {
        match spec_show_elems(a.drop_last()) {
            None => None,
            Some(init) => match spec_show_elem(a.last()) {
                None => None,
                Some(e) => Some(init.push(e)),
            },
        }
    }
}

proof fn lemma_show_elems_none(a: Seq<Primitive>, i: int)
    requires
        0 <= i < a.len(),
        spec_show_elem(a[i]) is None,
    ensures
        spec_show_elems(a) is None,
    decreases a.len(),
{
    if i == a.len() - 1 {
    } else {
        assert(a.drop_last()[i] == a[i]);
        lemma_show_elems_none(a.drop_last(), i);
    }
}

/// What `parse_operator` returns: `None` stands for a parse error on a
/// known operator; an operator name outside the known set maps to
/// `Operator::Unknown` carrying the raw operation.
pub open spec fn spec_parse_operator(op: RawOperation) -> Option<Operator> {
    let name = op.operator@;
    let args = op.operands@;
    if name == "q"@ {
        if args.len() == 0 {
            Some(Operator::GraphicsState(GraphicsStateOperator::Push))
        } else {
            None
        }
    } else if name == "Q"@ {
        if args.len() == 0 {
            Some(Operator::GraphicsState(GraphicsStateOperator::Pop))
        } else {
            None
        }
    } else if name == "w"@ {
        if args.len() == 1 {
            match spec_prim_number(args[0]) {
                Some(n) => Some(
                    Operator::GraphicsState(GraphicsStateOperator::SetLineWidth(UserSpaceUnit(n))),
                ),
                None => None,
            }
        } else {
            None
        }
    } else if name == "re"@ {
        if args.len() == 4 {
            match (
                spec_prim_number(args[0]),
                spec_prim_number(args[1]),
                spec_prim_number(args[2]),
                spec_prim_number(args[3]),
            ) {
                (Some(x), Some(y), Some(width), Some(height)) => Some(
                    Operator::PathConstruction(
                        PathConstructionOperator::AppendRectangle(
                            AppendRectangle {
                                x: UserSpaceUnit(x),
                                y: UserSpaceUnit(y),
                                width: UserSpaceUnit(width),
                                height: UserSpaceUnit(height),
                            },
                        ),
                    ),
                ),
                _ => None,
            }
        } else {
            None
        }
    } else if name == "n"@ {
        if args.len() == 0 {
            Some(Operator::PathPainting(PathPaintingOperator::EndPath))
        } else {
            None
        }
    } else if name == "W"@ {
        if args.len() == 0 {
            Some(Operator::ClippingPath(ClippingPathOperator::AppendNonzero))
        } else {
            None
        }
    } else if name == "BT"@ {
        if args.len() == 0 {
            Some(Operator::TextObject(TextObjectOperator::Begin))
        } else {
            None
        }
    } else if name == "ET"@ {
        if args.len() == 0 {
            Some(Operator::TextObject(TextObjectOperator::End))
        } else {
            None
        }
    } else if name == "Tc"@ {
        if args.len() == 1 {
            match spec_prim_number(args[0]) {
                Some(n) => Some(
                    Operator::TextState(
                        TextStateOperator::SetCharacterSpacing(UnscaledTextSpaceUnit(n)),
                    ),
                ),
                None => None,
            }
        } else {
            None
        }
    } else if name == "Tw"@ {
        if args.len() == 1 {
            match spec_prim_number(args[0]) {
                Some(n) => Some(
                    Operator::TextState(
                        TextStateOperator::SetWordSpacing(UnscaledTextSpaceUnit(n)),
                    ),
                ),
                None => None,
            }
        } else {
            None
        }
    } else if name == "Tz"@ {
        if args.len() == 1 {
            match spec_prim_number(args[0]) {
                Some(n) => Some(Operator::TextState(TextStateOperator::SetHorizontalScaling(n))),
                None => None,
            }
        } else {
            None
        }
    } else if name == "TL"@ {
        if args.len() == 1 {
            match spec_prim_number(args[0]) {
                Some(n) => Some(
                    Operator::TextState(TextStateOperator::SetLeading(UnscaledTextSpaceUnit(n))),
                ),
                None => None,
            }
        } else {
            None
        }
    } else if name == "Ts"@ {
        if args.len() == 1 {
            match spec_prim_number(args[0]) {
                Some(n) => Some(
                    Operator::TextState(TextStateOperator::SetRise(UnscaledTextSpaceUnit(n))),
                ),
                None => None,
            }
        } else {
            None
        }
    } else if name == "Tf"@ {
        if args.len() == 2 {
            match (args[0], spec_prim_number(args[1])) {
                (Primitive::Name(font), Some(size)) => Some(
                    Operator::TextState(
                        TextStateOperator::SetTextFont(
                            SetTextFont { font: FontKey(NameObject(font)), size },
                        ),
                    ),
                ),
                _ => None,
            }
        } else {
            None
        }
    } else if name == "Tr"@ {
        if args.len() == 1 {
            match args[0] {
                Primitive::Integer(mode) => match spec_mode_flags(mode as int) {
                    Some(flags) => Some(
                        Operator::TextState(TextStateOperator::SetRenderingMode(flags)),
                    ),
                    None => None,
                },
                _ => None,
            }
        } else {
            None
        }
    } else if name == "Td"@ || name == "TD"@ {
        if args.len() == 2 {
            match (spec_prim_number(args[0]), spec_prim_number(args[1])) {
                (Some(tx), Some(ty)) => Some(
                    Operator::TextPositioning(
                        TextPositioningOperator::NextLine(
                            Some(
                                NextLine {
                                    tx: UnscaledTextSpaceUnit(tx),
                                    ty: UnscaledTextSpaceUnit(ty),
                                    set_leading_param: name == "TD"@,
                                },
                            ),
                        ),
                    ),
                ),
                _ => None,
            }
        } else {
            None
        }
    } else if name == "T*"@ {
        if args.len() == 0 {
            Some(Operator::TextPositioning(TextPositioningOperator::NextLine(None)))
        } else {
            None
        }
    } else if name == "Tm"@ {
        if args.len() == 6 {
            match (
                spec_prim_number(args[0]),
                spec_prim_number(args[1]),
                spec_prim_number(args[2]),
                spec_prim_number(args[3]),
                spec_prim_number(args[4]),
                spec_prim_number(args[5]),
            ) {
                (Some(a), Some(b), Some(c), Some(d), Some(e), Some(f)) => Some(
                    Operator::TextPositioning(
                        TextPositioningOperator::SetTextMatrix(
                            TextMatrix {
                                a: UnscaledTextSpaceUnit(a),
                                b: UnscaledTextSpaceUnit(b),
                                c: UnscaledTextSpaceUnit(c),
                                d: UnscaledTextSpaceUnit(d),
                                e: UnscaledTextSpaceUnit(e),
                                f: UnscaledTextSpaceUnit(f),
                            },
                        ),
                    ),
                ),
                _ => None,
            }
        } else {
            None
        }
    } else if name == "Tj"@ {
        if args.len() == 1 {
            match args[0] {
                Primitive::String(s) => Some(
                    Operator::TextShowing(TextShowingOperator::Show(s)),
                ),
                _ => None,
            }
        } else {
            None
        }
    } else if name == "TJ"@ {
        // Covered by `spec_parse_tj`; the adjusted-array payload is a
        // vector, which spec code cannot construct.
        None
    } else if name == "CS"@ || name == "cs"@ {
        if args.len() == 1 {
            match args[0] {
                Primitive::Name(s) => Some(
                    Operator::Colour(
                        ColourOperatorPair {
                            operator: ColourOperator::SetCurrentColourSpace(ColourSpace(s)),
                            object: if name == "CS"@ {
                                ColourObject::Stroking
                            } else {
                                ColourObject::Nonstroking
                            },
                        },
                    ),
                ),
                _ => None,
            }
        } else {
            None
        }
    } else if name == "SCN"@ || name == "scn"@ {
        Some(
            Operator::Colour(
                ColourOperatorPair {
                    operator: ColourOperator::SetColour(SetColour(op.operands)),
                    object: ColourObject::Stroking,
                },
            ),
        )
    } else if name == "BDC"@ {
        if args.len() == 2 {
            match (args[0], args[1]) {
                (Primitive::Name(tag), Primitive::Dictionary(d)) => Some(
                    Operator::MarkedContent(
                        MarkedContentOperator::Begin(
                            BeginMarkedContent {
                                tag: NameObject(tag),
                                properties: Some(MarkedContentProperties::Dictionary(d)),
                            },
                        ),
                    ),
                ),
                (Primitive::Name(tag), Primitive::Name(n)) => Some(
                    Operator::MarkedContent(
                        MarkedContentOperator::Begin(
                            BeginMarkedContent {
                                tag: NameObject(tag),
                                properties: Some(
                                    MarkedContentProperties::PropertiesKey(NameObject(n)),
                                ),
                            },
                        ),
                    ),
                ),
                _ => None,
            }
        } else {
            None
        }
    } else if name == "EMC"@ {
        if args.len() == 0 {
            Some(Operator::MarkedContent(MarkedContentOperator::End))
        } else {
            None
        }
    } else {
        Some(Operator::Unknown(op))
    }
}

/// The reading of the operands of a "show with adjustments" instruction.
pub open spec fn spec_parse_tj(op: RawOperation) -> Option<Seq<TextShowingElement>> {
    let args = op.operands@;
    if args.len() == 1 {
        match args[0] {
            Primitive::Array(a) => spec_show_elems(a@),
            _ => None,
        }
    } else {
        None
    }
}

/// What `parse_operator` must return for a "show with adjustments"
/// instruction.
pub open spec fn spec_parse_tj_ok(op: RawOperation, r: Result<Operator, OperatorParseError>) -> bool {
    match spec_parse_tj(op) {
        Some(elems) => r is Ok && (r->Ok_0 matches Operator::TextShowing(
            TextShowingOperator::Adjusted(v),
        ) && v@ == elems),
        None => r is Err,
    }
}

fn op_error(msg: &str) -> OperatorParseError {
    OperatorParseError { reason: String::from_str(msg) }
}

/// Converts the operand array of a "show with adjustments" instruction,
/// element by element.
#[verifier::loop_isolation(false)]
fn parse_show_elems(arr: Vec<Primitive>) -> (r: Result<Vec<TextShowingElement>, OperatorParseError>)
    ensures
        match spec_show_elems(arr@) {
            Some(elems) => r is Ok && r->Ok_0@ == elems,
            None => r is Err,
        },
{
    let ghost orig = arr@;
    let mut a = arr;
    let n: usize = a.len();
    let mut elems: Vec<TextShowingElement> = Vec::new();
    let mut i: usize = 0;
    while a.len() > 0
        invariant
            i <= orig.len() <= usize::MAX,
            i + a.len() == orig.len(),
            a@ == orig.subrange(i as int, orig.len() as int),
            spec_show_elems(orig.subrange(0, i as int)) == Some(elems@),
        decreases a.len(),
    {
        let p = a.remove(0);
        proof {
            assert(p == orig[i as int]);
            assert(a@ =~= orig.subrange(i + 1, orig.len() as int));
        }
        let e = match p {
            Primitive::String(s) => Some(TextShowingElement::String(s)),
            other => match prim_number(&other) {
                Some(nv) => Some(TextShowingElement::TextSpace(ThousandsTextSpaceUnit(nv))),
                None => None,
            },
        };
        match e {
            Some(e) => {
                elems.push(e);
                proof {
                    assert(orig.subrange(0, i + 1).drop_last() =~= orig.subrange(0, i as int));
                    assert(orig.subrange(0, i + 1).last() == orig[i as int]);
                }
            },
            None => {
                proof {
                    lemma_show_elems_none(orig, i as int);
                }
                return Err(op_error("failed to parse adjusted text element"));
            },
        }
        i = i + 1;
    }
    proof {
        assert(orig.subrange(0, i as int) =~= orig);
    }
    Ok(elems)
}

/// Validates a raw operation and builds the corresponding typed
/// instruction. A known operator with a bad arity or bad operand types
/// fails; an unknown operator is preserved as `Operator::Unknown`.
#[verifier::loop_isolation(false)]
pub fn parse_operator(op: RawOperation) -> (r: Result<Operator, OperatorParseError>)
    ensures
        op.operator@ != "TJ"@ ==> match spec_parse_operator(op) {
            Some(o) => r is Ok && r->Ok_0 == o,
            None => r is Err,
        },
        op.operator@ == "TJ"@ ==> spec_parse_tj_ok(op, r),
{
    proof {
        reveal_strlit("q");
        reveal_strlit("Q");
        reveal_strlit("w");
        reveal_strlit("re");
        reveal_strlit("n");
        reveal_strlit("W");
        reveal_strlit("BT");
        reveal_strlit("ET");
        reveal_strlit("Tc");
        reveal_strlit("Tw");
        reveal_strlit("Tz");
        reveal_strlit("TL");
        reveal_strlit("Ts");
        reveal_strlit("Tf");
        reveal_strlit("Tr");
        reveal_strlit("Td");
        reveal_strlit("TD");
        reveal_strlit("T*");
        reveal_strlit("Tm");
        reveal_strlit("Tj");
        reveal_strlit("TJ");
        reveal_strlit("CS");
        reveal_strlit("cs");
        reveal_strlit("SCN");
        reveal_strlit("scn");
        reveal_strlit("BDC");
        reveal_strlit("EMC");
        assert("q"@.len() == 1 && "q"@[0] == 'q');
        assert("Q"@.len() == 1 && "Q"@[0] == 'Q');
        assert("w"@.len() == 1 && "w"@[0] == 'w');
        assert("re"@.len() == 2 && "re"@[0] == 'r' && "re"@[1] == 'e');
        assert("n"@.len() == 1 && "n"@[0] == 'n');
        assert("W"@.len() == 1 && "W"@[0] == 'W');
        assert("BT"@.len() == 2 && "BT"@[0] == 'B' && "BT"@[1] == 'T');
        assert("ET"@.len() == 2 && "ET"@[0] == 'E' && "ET"@[1] == 'T');
        assert("Tc"@.len() == 2 && "Tc"@[0] == 'T' && "Tc"@[1] == 'c');
        assert("Tw"@.len() == 2 && "Tw"@[0] == 'T' && "Tw"@[1] == 'w');
        assert("Tz"@.len() == 2 && "Tz"@[0] == 'T' && "Tz"@[1] == 'z');
        assert("TL"@.len() == 2 && "TL"@[0] == 'T' && "TL"@[1] == 'L');
        assert("Ts"@.len() == 2 && "Ts"@[0] == 'T' && "Ts"@[1] == 's');
        assert("Tf"@.len() == 2 && "Tf"@[0] == 'T' && "Tf"@[1] == 'f');
        assert("Tr"@.len() == 2 && "Tr"@[0] == 'T' && "Tr"@[1] == 'r');
        assert("Td"@.len() == 2 && "Td"@[0] == 'T' && "Td"@[1] == 'd');
        assert("TD"@.len() == 2 && "TD"@[0] == 'T' && "TD"@[1] == 'D');
        assert("T*"@.len() == 2 && "T*"@[0] == 'T' && "T*"@[1] == '*');
        assert("Tm"@.len() == 2 && "Tm"@[0] == 'T' && "Tm"@[1] == 'm');
        assert("Tj"@.len() == 2 && "Tj"@[0] == 'T' && "Tj"@[1] == 'j');
        assert("TJ"@.len() == 2 && "TJ"@[0] == 'T' && "TJ"@[1] == 'J');
        assert("CS"@.len() == 2 && "CS"@[0] == 'C' && "CS"@[1] == 'S');
        assert("cs"@.len() == 2 && "cs"@[0] == 'c' && "cs"@[1] == 's');
        assert("SCN"@.len() == 3 && "SCN"@[0] == 'S' && "SCN"@[1] == 'C' && "SCN"@[2] == 'N');
        assert("scn"@.len() == 3 && "scn"@[0] == 's' && "scn"@[1] == 'c' && "scn"@[2] == 'n');
        assert("BDC"@.len() == 3 && "BDC"@[0] == 'B' && "BDC"@[1] == 'D' && "BDC"@[2] == 'C');
        assert("EMC"@.len() == 3 && "EMC"@[0] == 'E' && "EMC"@[1] == 'M' && "EMC"@[2] == 'C');
        assert("q"@ != "TJ"@);
        assert("Q"@ != "TJ"@);
        assert("w"@ != "TJ"@);
        assert("re"@ != "TJ"@);
        assert("n"@ != "TJ"@);
        assert("W"@ != "TJ"@);
        assert("BT"@ != "TJ"@);
        assert("ET"@ != "TJ"@);
        assert("Tc"@ != "TJ"@);
        assert("Tw"@ != "TJ"@);
        assert("Tz"@ != "TJ"@);
        assert("TL"@ != "TJ"@);
        assert("Ts"@ != "TJ"@);
        assert("Tf"@ != "TJ"@);
        assert("Tr"@ != "TJ"@);
        assert("Td"@ != "TJ"@);
        assert("TD"@ != "TJ"@);
        assert("T*"@ != "TJ"@);
        assert("Tm"@ != "TJ"@);
        assert("Tj"@ != "TJ"@);
        assert("CS"@ != "TJ"@);
        assert("cs"@ != "TJ"@);
        assert("SCN"@ != "TJ"@);
        assert("scn"@ != "TJ"@);
        assert("BDC"@ != "TJ"@);
        assert("EMC"@ != "TJ"@);
    }
    let RawOperation { operator: name, operands: args } = op;
    let mut args = args;
    if str_eq(name.as_str(), "q") {
        if args.len() == 0 {
            Ok(Operator::GraphicsState(GraphicsStateOperator::Push))
        } else {
            Err(op_error("invalid number of arguments"))
        }
    } else if str_eq(name.as_str(), "Q") {
        if args.len() == 0 {
            Ok(Operator::GraphicsState(GraphicsStateOperator::Pop))
        } else {
            Err(op_error("invalid number of arguments"))
        }
    } else if str_eq(name.as_str(), "w") {
        if args.len() == 1 {
            match prim_number(&args[0]) {
                Some(n) => Ok(
                    Operator::GraphicsState(GraphicsStateOperator::SetLineWidth(UserSpaceUnit(n))),
                ),
                None => Err(op_error("failed to parse number operand")),
            }
        } else {
            Err(op_error("invalid number of arguments"))
        }
    } else if str_eq(name.as_str(), "re") {
        if args.len() == 4 {
            match (
                prim_number(&args[0]),
                prim_number(&args[1]),
                prim_number(&args[2]),
                prim_number(&args[3]),
            ) {
                (Some(x), Some(y), Some(width), Some(height)) => Ok(
                    Operator::PathConstruction(
                        PathConstructionOperator::AppendRectangle(
                            AppendRectangle {
                                x: UserSpaceUnit(x),
                                y: UserSpaceUnit(y),
                                width: UserSpaceUnit(width),
                                height: UserSpaceUnit(height),
                            },
                        ),
                    ),
                ),
                _ => Err(op_error("failed to parse number operand")),
            }
        } else {
            Err(op_error("invalid number of arguments"))
        }
    } else if str_eq(name.as_str(), "n") {
        if args.len() == 0 {
            Ok(Operator::PathPainting(PathPaintingOperator::EndPath))
        } else {
            Err(op_error("invalid number of arguments"))
        }
    } else if str_eq(name.as_str(), "W") {
        if args.len() == 0 {
            Ok(Operator::ClippingPath(ClippingPathOperator::AppendNonzero))
        } else {
            Err(op_error("invalid number of arguments"))
        }
    } else if str_eq(name.as_str(), "BT") {
        if args.len() == 0 {
            Ok(Operator::TextObject(TextObjectOperator::Begin))
        } else {
            Err(op_error("invalid number of arguments"))
        }
    } else if str_eq(name.as_str(), "ET") {
        if args.len() == 0 {
            Ok(Operator::TextObject(TextObjectOperator::End))
        } else {
            Err(op_error("invalid number of arguments"))
        }
    } else if str_eq(name.as_str(), "Tc") {
        if args.len() == 1 {
            match prim_number(&args[0]) {
                Some(n) => Ok(
                    Operator::TextState(
                        TextStateOperator::SetCharacterSpacing(UnscaledTextSpaceUnit(n)),
                    ),
                ),
                None => Err(op_error("failed to parse number operand")),
            }
        } else {
            Err(op_error("invalid number of arguments"))
        }
    } else if str_eq(name.as_str(), "Tw") {
        if args.len() == 1 {
            match prim_number(&args[0]) {
                Some(n) => Ok(
                    Operator::TextState(
                        TextStateOperator::SetWordSpacing(UnscaledTextSpaceUnit(n)),
                    ),
                ),
                None => Err(op_error("failed to parse number operand")),
            }
        } else {
            Err(op_error("invalid number of arguments"))
        }
    } else if str_eq(name.as_str(), "Tz") {
        if args.len() == 1 {
            match prim_number(&args[0]) {
                Some(n) => Ok(Operator::TextState(TextStateOperator::SetHorizontalScaling(n))),
                None => Err(op_error("failed to parse number operand")),
            }
        } else {
            Err(op_error("invalid number of arguments"))
        }
    } else if str_eq(name.as_str(), "TL") {
        if args.len() == 1 {
            match prim_number(&args[0]) {
                Some(n) => Ok(
                    Operator::TextState(TextStateOperator::SetLeading(UnscaledTextSpaceUnit(n))),
                ),
                None => Err(op_error("failed to parse number operand")),
            }
        } else {
            Err(op_error("invalid number of arguments"))
        }
    } else if str_eq(name.as_str(), "Ts") {
        if args.len() == 1 {
            match prim_number(&args[0]) {
                Some(n) => Ok(
                    Operator::TextState(TextStateOperator::SetRise(UnscaledTextSpaceUnit(n))),
                ),
                None => Err(op_error("failed to parse number operand")),
            }
        } else {
            Err(op_error("invalid number of arguments"))
        }
    } else if str_eq(name.as_str(), "Tf") {
        if args.len() == 2 {
            let size_prim = args.pop().unwrap();
            let font_prim = args.pop().unwrap();
            match (font_prim, prim_number(&size_prim)) {
                (Primitive::Name(font), Some(size)) => Ok(
                    Operator::TextState(
                        TextStateOperator::SetTextFont(
                            SetTextFont { font: FontKey(NameObject(font)), size },
                        ),
                    ),
                ),
                _ => Err(op_error("failed to parse font operands")),
            }
        } else {
            Err(op_error("invalid number of arguments"))
        }
    } else if str_eq(name.as_str(), "Tr") {
        if args.len() == 1 {
            match &args[0] {
                Primitive::Integer(mode) => {
                    let m = *mode;
                    let flags = if m == 0 {
                        Some(RenderingModeSet { fill: true, stroke: false, clip: false })
                    } else if m == 1 {
                        Some(RenderingModeSet { fill: false, stroke: true, clip: false })
                    } else if m == 2 {
                        Some(RenderingModeSet { fill: true, stroke: true, clip: false })
                    } else if m == 3 {
                        Some(RenderingModeSet { fill: false, stroke: false, clip: false })
                    } else if m == 4 {
                        Some(RenderingModeSet { fill: true, stroke: false, clip: true })
                    } else if m == 5 {
                        Some(RenderingModeSet { fill: false, stroke: true, clip: true })
                    } else if m == 6 {
                        Some(RenderingModeSet { fill: true, stroke: true, clip: true })
                    } else if m == 7 {
                        Some(RenderingModeSet { fill: false, stroke: false, clip: true })
                    } else {
                        None
                    };
                    match flags {
                        Some(f) => Ok(
                            Operator::TextState(TextStateOperator::SetRenderingMode(f)),
                        ),
                        None => Err(op_error("invalid text rendering mode")),
                    }
                },
                _ => Err(op_error("invalid text rendering mode operand")),
            }
        } else {
            Err(op_error("invalid number of arguments"))
        }
    } else if str_eq(name.as_str(), "Td") || str_eq(name.as_str(), "TD") {
        if args.len() == 2 {
            let set_leading_param = str_eq(name.as_str(), "TD");
            match (prim_number(&args[0]), prim_number(&args[1])) {
                (Some(tx), Some(ty)) => Ok(
                    Operator::TextPositioning(
                        TextPositioningOperator::NextLine(
                            Some(
                                NextLine {
                                    tx: UnscaledTextSpaceUnit(tx),
                                    ty: UnscaledTextSpaceUnit(ty),
                                    set_leading_param,
                                },
                            ),
                        ),
                    ),
                ),
                _ => Err(op_error("failed to parse number operand")),
            }
        } else {
            Err(op_error("invalid number of arguments"))
        }
    } else if str_eq(name.as_str(), "T*") {
        if args.len() == 0 {
            Ok(Operator::TextPositioning(TextPositioningOperator::NextLine(None)))
        } else {
            Err(op_error("invalid number of arguments"))
        }
    } else if str_eq(name.as_str(), "Tm") {
        if args.len() == 6 {
            match (
                prim_number(&args[0]),
                prim_number(&args[1]),
                prim_number(&args[2]),
                prim_number(&args[3]),
                prim_number(&args[4]),
                prim_number(&args[5]),
            ) {
                (Some(a), Some(b), Some(c), Some(d), Some(e), Some(f)) => Ok(
                    Operator::TextPositioning(
                        TextPositioningOperator::SetTextMatrix(
                            TextMatrix {
                                a: UnscaledTextSpaceUnit(a),
                                b: UnscaledTextSpaceUnit(b),
                                c: UnscaledTextSpaceUnit(c),
                                d: UnscaledTextSpaceUnit(d),
                                e: UnscaledTextSpaceUnit(e),
                                f: UnscaledTextSpaceUnit(f),
                            },
                        ),
                    ),
                ),
                _ => Err(op_error("failed to parse number operand")),
            }
        } else {
            Err(op_error("invalid number of arguments"))
        }
    } else if str_eq(name.as_str(), "Tj") {
        if args.len() == 1 {
            let p = args.pop().unwrap();
            match p {
                Primitive::String(s) => Ok(Operator::TextShowing(TextShowingOperator::Show(s))),
                _ => Err(op_error("failed to parse string operand")),
            }
        } else {
            Err(op_error("invalid number of arguments"))
        }
    } else if str_eq(name.as_str(), "TJ") {
        if args.len() == 1 {
            let p = args.pop().unwrap();
            match p {
                Primitive::Array(arr) => match parse_show_elems(arr) {
                    Ok(elems) => Ok(Operator::TextShowing(TextShowingOperator::Adjusted(elems))),
                    Err(e) => Err(e),
                },
                _ => Err(op_error("failed to parse array operand")),
            }
        } else {
            Err(op_error("invalid number of arguments"))
        }
    } else if str_eq(name.as_str(), "CS") || str_eq(name.as_str(), "cs") {
        if args.len() == 1 {
            let object = if str_eq(name.as_str(), "CS") {
                ColourObject::Stroking
            } else {
                ColourObject::Nonstroking
            };
            let p = args.pop().unwrap();
            match p {
                Primitive::Name(s) => Ok(
                    Operator::Colour(
                        ColourOperatorPair {
                            operator: ColourOperator::SetCurrentColourSpace(ColourSpace(s)),
                            object,
                        },
                    ),
                ),
                _ => Err(op_error("invalid colour space parameter")),
            }
        } else {
            Err(op_error("invalid number of arguments"))
        }
    } else if str_eq(name.as_str(), "SCN") || str_eq(name.as_str(), "scn") {
        Ok(
            Operator::Colour(
                ColourOperatorPair {
                    operator: ColourOperator::SetColour(SetColour(args)),
                    object: ColourObject::Stroking,
                },
            ),
        )
    } else if str_eq(name.as_str(), "BDC") {
        if args.len() == 2 {
            let prop = args.pop().unwrap();
            let tag = args.pop().unwrap();
            match (tag, prop) {
                (Primitive::Name(t), Primitive::Dictionary(d)) => Ok(
                    Operator::MarkedContent(
                        MarkedContentOperator::Begin(
                            BeginMarkedContent {
                                tag: NameObject(t),
                                properties: Some(MarkedContentProperties::Dictionary(d)),
                            },
                        ),
                    ),
                ),
                (Primitive::Name(t), Primitive::Name(n)) => Ok(
                    Operator::MarkedContent(
                        MarkedContentOperator::Begin(
                            BeginMarkedContent {
                                tag: NameObject(t),
                                properties: Some(
                                    MarkedContentProperties::PropertiesKey(NameObject(n)),
                                ),
                            },
                        ),
                    ),
                ),
                _ => Err(op_error("invalid properties for a marked content")),
            }
        } else {
            Err(op_error("invalid number of arguments"))
        }
    } else if str_eq(name.as_str(), "EMC") {
        if args.len() == 0 {
            Ok(Operator::MarkedContent(MarkedContentOperator::End))
        } else {
            Err(op_error("invalid number of arguments"))
        }
    } else {
        Ok(Operator::Unknown(RawOperation { operator: name, operands: args }))
    }
}

} // verus!
