//! The text-state machine: interprets a page's drawing instructions into a
//! sequence of positioned text runs.
//!
//! Spacing, font, rise and rendering-mode instructions update the text
//! state whatever the current state. "Begin text object" creates the
//! position state, "end text object" discards it. Positioning instructions
//! and text-showing instructions demand a live text object, and showing
//! additionally demands a selected font; otherwise they fail with
//! `TextStateError`. Every other instruction is ignored by this stage.

use vstd::prelude::*;

use crate::operator::{
    Operator, TextObjectOperator, TextPositioningOperator, TextShowingElement,
    TextShowingOperator, TextStateOperator,
};
use crate::strutil::clone_bytes;
use crate::text_state::{
    spec_translated, TextEntry, TextEntryV, TextMatrices, TextStateParams, TransformMatrix,
    spec_identity_matrix,
};

verus! {

/// Failure of a positioning or showing instruction for want of preceding
/// state.
#[derive(Debug, Clone, Copy, PartialEq, Eq, Structural)]
pub enum TextStateError {
    /// A positioning or showing instruction arrived outside a text object.
    MissingTextObject,
    /// A showing instruction arrived before any font was selected.
    MissingFont,
}

/// The state machine: the persistent text state and, while inside a text
/// object, the position state.
#[derive(Debug, Clone, PartialEq)]
pub struct TextWalker {
    pub params: TextStateParams,
    pub positions: Option<TextMatrices>,
}

/// The machine's starting state: default text state, outside any text
/// object.
pub open spec fn spec_initial_walker() -> TextWalker {
    TextWalker {
        params: TextStateParams {
            character_spacing: 0,
            word_spacing: 0,
            horizontal_scaling: 100000,
            leading: 0,
            font: None,
            rendering_mode: crate::operator::RenderingModeSet {
                fill: true,
                stroke: false,
                clip: false,
            },
            rise: 0,
        },
        positions: None,
    }
}

/// The transform selected by a "set text matrix" instruction's operands.
pub open spec fn spec_operand_matrix(m: crate::operator::TextMatrix) -> TransformMatrix {
    TransformMatrix {
        a: m.a.0.spec_milli64(),
        b: m.b.0.spec_milli64(),
        c: m.c.0.spec_milli64(),
        d: m.d.0.spec_milli64(),
        e: m.e.0.spec_milli64(),
        f: m.f.0.spec_milli64(),
    }
}

/// The mathematical contents of a sequence of text runs.
pub open spec fn entry_views(s: Seq<TextEntry>) -> Seq<TextEntryV> {
    s.map_values(|e: TextEntry| e@)
}

/// The runs emitted for a "show with adjustments" array: one per string
/// element, in order, all carrying the same position snapshot; numeric
/// spacing elements emit nothing.
pub open spec fn spec_adjusted_events(
    p: TextMatrices,
    font: Seq<char>,
    arr: Seq<TextShowingElement>,
) -> Seq<TextEntryV>
    decreases arr.len(),
{
    if arr.len() == 0 {
        Seq::empty()
    } else {
        let init = spec_adjusted_events(p, font, arr.drop_last());
        match arr.last() {
            TextShowingElement::String(s) => init.push(
                TextEntryV { positions: p, font, text: s@ },
            ),
            TextShowingElement::TextSpace(_) => init,
        }
    }
}

/// The machine's transition function: the state after one instruction, and
/// the runs it emits or the error it fails with.
pub open spec fn spec_step(w: TextWalker, op: Operator) -> (
    TextWalker,
    Result<Seq<TextEntryV>, TextStateError>,
) {
    match op {
        Operator::TextState(ts) => {
            let params = match ts {
                TextStateOperator::SetCharacterSpacing(v) => TextStateParams {
                    character_spacing: v.0.spec_milli64(),
                    ..w.params
                },
                TextStateOperator::SetWordSpacing(v) => TextStateParams {
                    word_spacing: v.0.spec_milli64(),
                    ..w.params
                },
                TextStateOperator::SetHorizontalScaling(v) => TextStateParams {
                    horizontal_scaling: v.spec_milli64(),
                    ..w.params
                },
                TextStateOperator::SetLeading(v) => TextStateParams {
                    leading: v.0.spec_milli64(),
                    ..w.params
                },
                TextStateOperator::SetTextFont(stf) => TextStateParams {
                    font: Some((stf.font.0.0, stf.size.spec_milli64())),
                    ..w.params
                },
                TextStateOperator::SetRenderingMode(flags) => TextStateParams {
                    rendering_mode: flags,
                    ..w.params
                },
                TextStateOperator::SetRise(v) => TextStateParams {
                    rise: v.0.spec_milli64(),
                    ..w.params
                },
            };
            (TextWalker { params, ..w }, Ok(Seq::empty()))
        },
        Operator::TextObject(TextObjectOperator::Begin) => (
            TextWalker {
                positions: Some(
                    TextMatrices {
                        text_matrix: spec_identity_matrix(),
                        text_line_matrix: spec_identity_matrix(),
                    },
                ),
                ..w
            },
            Ok(Seq::empty()),
        ),
        Operator::TextObject(TextObjectOperator::End) => (
            TextWalker { positions: None, ..w },
            Ok(Seq::empty()),
        ),
        Operator::TextPositioning(TextPositioningOperator::NextLine(Some(nl))) => match w
            .positions {
            None => (w, Err(TextStateError::MissingTextObject)),
            Some(p) => {
                let tlm = spec_translated(
                    p.text_line_matrix,
                    nl.tx.0.spec_milli64() as int,
                    nl.ty.0.spec_milli64() as int,
                );
                (
                    TextWalker {
                        positions: Some(
                            TextMatrices { text_matrix: tlm, text_line_matrix: tlm },
                        ),
                        ..w
                    },
                    Ok(Seq::empty()),
                )
            },
        },
        Operator::TextPositioning(TextPositioningOperator::NextLine(None)) => (
            w,
            Ok(Seq::empty()),
        ),
        Operator::TextPositioning(TextPositioningOperator::SetTextMatrix(m)) => match w
            .positions {
            None => (w, Err(TextStateError::MissingTextObject)),
            Some(_) => {
                let t = spec_operand_matrix(m);
                (
                    TextWalker {
                        positions: Some(TextMatrices { text_matrix: t, text_line_matrix: t }),
                        ..w
                    },
                    Ok(Seq::empty()),
                )
            },
        },
        Operator::TextShowing(TextShowingOperator::Show(text)) => match w.positions {
            None => (w, Err(TextStateError::MissingTextObject)),
            Some(p) => match w.params.font {
                None => (w, Err(TextStateError::MissingFont)),
                Some((name, _size)) => (
                    w,
                    Ok(seq![TextEntryV { positions: p, font: name@, text: text@ }]),
                ),
            },
        },
        Operator::TextShowing(TextShowingOperator::Adjusted(arr)) => match w.positions {
            None => (w, Err(TextStateError::MissingTextObject)),
            Some(p) => match w.params.font {
                None => (w, Err(TextStateError::MissingFont)),
                Some((name, _size)) => (w, Ok(spec_adjusted_events(p, name@, arr@))),
            },
        },
        _ => (w, Ok(Seq::empty())),
    }
}

/// The whole-page interpretation: the runs emitted before the first error,
/// and that error if one occurred.
pub open spec fn spec_walk(ops: Seq<Operator>, w: TextWalker) -> (
    Seq<TextEntryV>,
    Option<TextStateError>,
)
    decreases ops.len(),
{
    if ops.len() == 0 {
        (Seq::empty(), None)
    } else {
        let (w2, res) = spec_step(w, ops[0]);
        match res {
            Err(e) => (Seq::empty(), Some(e)),
            Ok(evs) => {
                let (rest, err) = spec_walk(ops.drop_first(), w2);
                (evs + rest, err)
            },
        }
    }
}

fn no_events() -> (r: Vec<TextEntry>)
    ensures
        entry_views(r@) == Seq::<TextEntryV>::empty(),
{
    let r: Vec<TextEntry> = Vec::new();
    proof {
        assert(entry_views(r@) =~= Seq::<TextEntryV>::empty());
    }
    r
}

impl TextWalker {
    /// A machine in its starting state.
    pub fn new() -> (r: TextWalker)
        ensures
            r == spec_initial_walker(),
    {
        TextWalker { params: TextStateParams::default(), positions: None }
    }

    /// Feeds one instruction to the machine and returns the runs it emits.
    #[verifier::loop_isolation(false)]
    pub fn step(&mut self, op: &Operator) -> (r: Result<Vec<TextEntry>, TextStateError>)
        ensures
            ({
                let (w2, res) = spec_step(*old(self), *op);
                &&& *final(self) == w2
                &&& match res {
                    Ok(evs) => r is Ok && entry_views(r->Ok_0@) == evs,
                    Err(er) => r is Err && r->Err_0 == er,
                }
            }),
    {
        match op {
            Operator::TextState(ts) => {
                match ts {
                    TextStateOperator::SetCharacterSpacing(v) => {
                        self.params.set_character_spacing(v.0.milli());
                    },
                    TextStateOperator::SetWordSpacing(v) => {
                        self.params.set_word_spacing(v.0.milli());
                    },
                    TextStateOperator::SetHorizontalScaling(v) => {
                        self.params.set_horizontal_scaling(v.milli());
                    },
                    TextStateOperator::SetLeading(v) => {
                        self.params.set_leading(v.0.milli());
                    },
                    TextStateOperator::SetTextFont(stf) => {
                        self.params.set_font(stf.font.0.0.clone(), stf.size.milli());
                    },
                    TextStateOperator::SetRenderingMode(flags) => {
                        self.params.set_rendering_mode(*flags);
                    },
                    TextStateOperator::SetRise(v) => {
                        self.params.set_rise(v.0.milli());
                    },
                }
                Ok(no_events())
            },
            Operator::TextObject(TextObjectOperator::Begin) => {
                self.positions = Some(TextMatrices::default());
                Ok(no_events())
            },
            Operator::TextObject(TextObjectOperator::End) => {
                self.positions = None;
                Ok(no_events())
            },
            Operator::TextPositioning(TextPositioningOperator::NextLine(Some(nl))) => {
                match &mut self.positions {
                    None => Err(TextStateError::MissingTextObject),
                    Some(p) => {
                        p.next_line(nl.tx.0.milli(), nl.ty.0.milli());
                        Ok(no_events())
                    },
                }
            },
            Operator::TextPositioning(TextPositioningOperator::NextLine(None)) => Ok(no_events()),
            Operator::TextPositioning(TextPositioningOperator::SetTextMatrix(m)) => {
                match &mut self.positions {
                    None => Err(TextStateError::MissingTextObject),
                    Some(p) => {
                        let t = TransformMatrix {
                            a: m.a.0.milli(),
                            b: m.b.0.milli(),
                            c: m.c.0.milli(),
                            d: m.d.0.milli(),
                            e: m.e.0.milli(),
                            f: m.f.0.milli(),
                        };
                        p.set_matrix(t);
                        Ok(no_events())
                    },
                }
            },
            Operator::TextShowing(TextShowingOperator::Show(text)) => {
                match &self.positions {
                    None => Err(TextStateError::MissingTextObject),
                    Some(p) => match &self.params.font {
                        None => Err(TextStateError::MissingFont),
                        Some((name, _size)) => {
                            let entry = TextEntry {
                                positions: *p,
                                font: name.clone(),
                                text: clone_bytes(text),
                            };
                            let mut out: Vec<TextEntry> = Vec::new();
                            out.push(entry);
                            proof {
                                let (w2, res) = spec_step(*old(self), *op);
                                assert(entry_views(out@) =~= res->Ok_0);
                            }
                            Ok(out)
                        },
                    },
                }
            },
            Operator::TextShowing(TextShowingOperator::Adjusted(arr)) => {
                match &self.positions {
                    None => Err(TextStateError::MissingTextObject),
                    Some(p) => match &self.params.font {
                        None => Err(TextStateError::MissingFont),
                        Some((name, _size)) => {
                            let pos = *p;
                            let mut out: Vec<TextEntry> = Vec::new();
                            let mut i: usize = 0;
                            proof {
                                assert(arr@.subrange(0, 0) =~= Seq::<TextShowingElement>::empty());
                                assert(entry_views(out@) =~= Seq::<
                                    TextEntryV,
                                >::empty());
                            }
                            while i < arr.len()
                                invariant
                                    i <= arr.len(),
                                    entry_views(out@) == spec_adjusted_events(
                                        pos,
                                        name@,
                                        arr@.subrange(0, i as int),
                                    ),
                                decreases arr.len() - i,
                            {
                                match &arr[i] {
                                    TextShowingElement::String(s) => {
                                        let entry = TextEntry {
                                            positions: pos,
                                            font: name.clone(),
                                            text: clone_bytes(s),
                                        };
                                        out.push(entry);
                                    },
                                    TextShowingElement::TextSpace(_) => {},
                                }
                                proof {
                                    assert(arr@.subrange(0, i + 1).drop_last() =~= arr@.subrange(
                                        0,
                                        i as int,
                                    ));
                                    assert(arr@.subrange(0, i + 1).last() == arr@[i as int]);
                                    assert(entry_views(out@)
                                        =~= spec_adjusted_events(
                                        pos,
                                        name@,
                                        arr@.subrange(0, i + 1),
                                    ));
                                }
                                i = i + 1;
                            }
                            proof {
                                assert(arr@.subrange(0, i as int) =~= arr@);
                            }
                            Ok(out)
                        },
                    },
                }
            },
            _ => Ok(no_events()),
        }
    }
}

/// Runs the machine over a whole page's instruction list: the runs emitted
/// before the first error, and that error if one occurred.
#[verifier::loop_isolation(false)]
pub fn each_text(ops: &Vec<Operator>) -> (r: (Vec<TextEntry>, Option<TextStateError>))
    ensures
        ({
            let (evs, err) = spec_walk(ops@, spec_initial_walker());
            &&& entry_views(r.0@) == evs
            &&& r.1 == err
        }),
{
    let mut walker = TextWalker::new();
    let mut out: Vec<TextEntry> = Vec::new();
    let mut i: usize = 0;
    proof {
        assert(entry_views(out@) =~= Seq::<TextEntryV>::empty());
        assert(ops@.subrange(0, ops@.len() as int) =~= ops@);
        let (rest_evs, rest_err) = spec_walk(ops@, spec_initial_walker());
        assert(entry_views(out@) + rest_evs =~= rest_evs);
    }
    while i < ops.len()
        invariant
            i <= ops.len(),
            spec_walk(ops@, spec_initial_walker()) == ({
                let (rest_evs, rest_err) = spec_walk(
                    ops@.subrange(i as int, ops@.len() as int),
                    walker,
                );
                (entry_views(out@) + rest_evs, rest_err)
            }),
        decreases ops.len() - i,
    {
        let ghost pre_walker = walker;
        let ghost sub = ops@.subrange(i as int, ops@.len() as int);
        let res = walker.step(&ops[i]);
        proof {
            assert(sub[0] == ops@[i as int]);
            assert(sub.drop_first() =~= ops@.subrange(i + 1, ops@.len() as int));
        }
        match res {
            Ok(mut evs) => {
                proof {
                    assert(entry_views(out@ + evs@) =~= entry_views(out@) + entry_views(evs@));
                }
                out.append(&mut evs);
            },
            Err(e) => {
                proof {
                    assert(entry_views(out@) + Seq::<TextEntryV>::empty() =~= entry_views(out@));
                }
                return (out, Some(e));
            },
        }
        i = i + 1;
    }
    proof {
        assert(ops@.subrange(i as int, ops@.len() as int) =~= Seq::<Operator>::empty());
        assert(entry_views(out@) + Seq::<TextEntryV>::empty() =~= entry_views(out@));
    }
    (out, None)
}

/// A positioning or showing instruction issued outside any text object
/// fails with `TextStateError::MissingTextObject` and emits nothing.
pub proof fn lemma_instruction_outside_text_object_fails(w: TextWalker, op: Operator)
    requires
        w.positions is None,
        (op matches Operator::TextPositioning(TextPositioningOperator::NextLine(Some(_))))
            || (op matches Operator::TextPositioning(TextPositioningOperator::SetTextMatrix(_)))
            || (op matches Operator::TextShowing(_)),
    ensures
        spec_step(w, op).1 == Err::<Seq<TextEntryV>, TextStateError>(
            TextStateError::MissingTextObject,
        ),
        spec_step(w, op).0 == w,
{
}

/// A showing instruction issued inside a text object but before any font
/// was selected fails with `TextStateError::MissingFont` and emits
/// nothing.
pub proof fn lemma_show_without_font_fails(w: TextWalker, op: Operator)
    requires
        w.positions is Some,
        w.params.font is None,
        op matches Operator::TextShowing(_),
    ensures
        spec_step(w, op).1 == Err::<Seq<TextEntryV>, TextStateError>(TextStateError::MissingFont),
        spec_step(w, op).0 == w,
{
}

} // verus!
