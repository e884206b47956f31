//! Text-drawing state: spacing parameters and the pair of text transforms.
//!
//! The two 3-by-3 affine transforms keep only their six meaningful
//! coefficients; the third column is fixed at (0, 0, 1). All coefficients
//! are fixed-point thousandths.

use vstd::prelude::*;

use crate::fixed::{spec_milli_mul, spec_sat_add, milli_mul, sat_add, Milli};
use crate::operator::RenderingModeSet;

verus! {

/// A 3-by-3 affine transform in row-vector convention, stored as its six
/// meaningful coefficients: rows (a b 0), (c d 0), (e f 1).
#[derive(Debug, Clone, Copy, PartialEq, Eq, Structural)]
pub struct TransformMatrix {
    pub a: Milli,
    pub b: Milli,
    pub c: Milli,
    pub d: Milli,
    pub e: Milli,
    pub f: Milli,
}

/// The identity transform.
pub open spec fn spec_identity_matrix() -> TransformMatrix {
    TransformMatrix { a: 1000, b: 0, c: 0, d: 1000, e: 0, f: 0 }
}

/// `m` left-multiplied by the translation (tx, ty): only the translation
/// row changes, each sum saturating at the `i64` bounds.
pub open spec fn spec_translated(m: TransformMatrix, tx: int, ty: int) -> TransformMatrix {
    TransformMatrix {
        a: m.a,
        b: m.b,
        c: m.c,
        d: m.d,
        e: spec_sat_add(
            spec_sat_add(spec_milli_mul(tx, m.a as int), spec_milli_mul(ty, m.c as int)),
            m.e as int,
        ) as i64,
        f: spec_sat_add(
            spec_sat_add(spec_milli_mul(tx, m.b as int), spec_milli_mul(ty, m.d as int)),
            m.f as int,
        ) as i64,
    }
}

impl TransformMatrix {
    /// The identity transform.
    pub fn identity() -> (r: TransformMatrix)
        ensures
            r == spec_identity_matrix(),
    {
        TransformMatrix { a: 1000, b: 0, c: 0, d: 1000, e: 0, f: 0 }
    }

    /// This transform left-multiplied by the translation (tx, ty).
    pub fn translated(self, tx: Milli, ty: Milli) -> (r: TransformMatrix)
        ensures
            r == spec_translated(self, tx as int, ty as int),
    {
        let e = sat_add(sat_add(milli_mul(tx, self.a), milli_mul(ty, self.c)), self.e);
        let f = sat_add(sat_add(milli_mul(tx, self.b), milli_mul(ty, self.d)), self.f);
        TransformMatrix { a: self.a, b: self.b, c: self.c, d: self.d, e, f }
    }
}

/// The position state of a text object: the text matrix and the text line
/// matrix. It exists exactly while the machine is inside a text object.
#[derive(Debug, Clone, Copy, PartialEq, Eq, Structural)]
pub struct TextMatrices {
    pub text_matrix: TransformMatrix,
    pub text_line_matrix: TransformMatrix,
}

impl Default for TextMatrices {
    /// Both transforms start as the identity.
    fn default() -> (r: Self)
        ensures
            r.text_matrix == spec_identity_matrix(),
            r.text_line_matrix == spec_identity_matrix(),
    {
        TextMatrices {
            text_matrix: TransformMatrix::identity(),
            text_line_matrix: TransformMatrix::identity(),
        }
    }
}

impl TextMatrices {
    /// Applies a "move text position" instruction: the text line matrix is
    /// left-multiplied by the translation and copied into the text matrix.
    pub fn next_line(&mut self, tx: Milli, ty: Milli)
        ensures
            final(self).text_line_matrix == spec_translated(
                old(self).text_line_matrix,
                tx as int,
                ty as int,
            ),
            final(self).text_matrix == final(self).text_line_matrix,
    {
        self.text_line_matrix = self.text_line_matrix.translated(tx, ty);
        self.text_matrix = self.text_line_matrix;
    }

    /// Applies a "set text matrix" instruction: both transforms are
    /// replaced by the given one.
    pub fn set_matrix(&mut self, m: TransformMatrix)
        ensures
            final(self).text_line_matrix == m,
            final(self).text_matrix == m,
    {
        self.text_line_matrix = m;
        self.text_matrix = m;
    }

    /// The position a glyph drawn now would carry: the translation row of
    /// the text matrix.
    pub fn coordinates(&self) -> (r: (Milli, Milli))
        ensures
            r.0 == self.text_matrix.e,
            r.1 == self.text_matrix.f,
    {
        (self.text_matrix.e, self.text_matrix.f)
    }

    /// The vertical glyph scale of the text matrix, used by the line
    /// assembler to recognise section headings.
    pub fn glyph_size(&self) -> (r: Milli)
        ensures
            r == self.text_matrix.d,
    {
        self.text_matrix.d
    }
}

/// The text state proper: spacing parameters, the selected font and size,
/// and the rendering mode. It persists across text-object boundaries.
#[derive(Debug, Clone, PartialEq)]
pub struct TextStateParams {
    pub character_spacing: Milli,
    pub word_spacing: Milli,
    pub horizontal_scaling: Milli,
    pub leading: Milli,
    pub font: Option<(String, Milli)>,
    pub rendering_mode: RenderingModeSet,
    pub rise: Milli,
}

impl Default for TextStateParams {
    /// No spacing adjustments, full horizontal scale, no font selected,
    /// plain fill rendering.
    fn default() -> (r: Self)
        ensures
            r.character_spacing == 0,
            r.word_spacing == 0,
            r.horizontal_scaling == 100000,
            r.leading == 0,
            r.font is None,
            r.rendering_mode == (RenderingModeSet { fill: true, stroke: false, clip: false }),
            r.rise == 0,
    {
        TextStateParams {
            character_spacing: 0,
            word_spacing: 0,
            horizontal_scaling: 100000,
            leading: 0,
            font: None,
            rendering_mode: RenderingModeSet { fill: true, stroke: false, clip: false },
            rise: 0,
        }
    }
}

impl TextStateParams {
    pub fn set_character_spacing(&mut self, v: Milli)
        ensures
            *final(self) == (TextStateParams { character_spacing: v, ..*old(self) }),
    {
        self.character_spacing = v;
    }

    pub fn set_word_spacing(&mut self, v: Milli)
        ensures
            *final(self) == (TextStateParams { word_spacing: v, ..*old(self) }),
    {
        self.word_spacing = v;
    }

    pub fn set_horizontal_scaling(&mut self, v: Milli)
        ensures
            *final(self) == (TextStateParams { horizontal_scaling: v, ..*old(self) }),
    {
        self.horizontal_scaling = v;
    }

    pub fn set_leading(&mut self, v: Milli)
        ensures
            *final(self) == (TextStateParams { leading: v, ..*old(self) }),
    {
        self.leading = v;
    }

    pub fn set_font(&mut self, font: String, size: Milli)
        ensures
            *final(self) == (TextStateParams { font: Some((font, size)), ..*old(self) }),
    {
        self.font = Some((font, size));
    }

    pub fn set_rendering_mode(&mut self, v: RenderingModeSet)
        ensures
            *final(self) == (TextStateParams { rendering_mode: v, ..*old(self) }),
    {
        self.rendering_mode = v;
    }

    pub fn set_rise(&mut self, v: Milli)
        ensures
            *final(self) == (TextStateParams { rise: v, ..*old(self) }),
    {
        self.rise = v;
    }
}

/// One positioned text run: the position state at the moment of the draw,
/// the font key it was drawn with, and the raw bytes shown.
#[derive(Debug, Clone, PartialEq)]
pub struct TextEntry {
    pub positions: TextMatrices,
    pub font: String,
    pub text: Vec<u8>,
}

/// The mathematical content of a `TextEntry`.
pub ghost struct TextEntryV {
    pub positions: TextMatrices,
    pub font: Seq<char>,
    pub text: Seq<u8>,
}

impl View for TextEntry {
    type V = TextEntryV;

    open spec fn view(&self) -> TextEntryV {
        TextEntryV { positions: self.positions, font: self.font@, text: self.text@ }
    }
}

} // verus!
