//! Decoding a text run's raw bytes through a resolved font table.
//!
//! A simple font consumes one byte per character code; a composite font
//! consumes two-byte big-endian codes, so its runs must have even length.
//! Every code must be present in the font's table: a missing code is a
//! hard error, never silently skipped, since silent loss would corrupt the
//! grammar stage downstream.

use vstd::prelude::*;

use crate::font::{FontMap, FontSubtype};

verus! {

broadcast use vstd::std_specs::hash::group_hash_axioms;

/// Failure to decode a text run.
#[derive(Debug, Clone, Copy, PartialEq, Eq, Structural)]
pub enum DecodeError {
    /// The font is neither simple nor composite.
    UnsupportedSubtype,
    /// The run used a character code absent from the font's table.
    UnicodeMappingMissing(u16),
}

/// The codes of a simple-font run: one per byte.
pub open spec fn spec_simple_codes(text: Seq<u8>) -> Seq<u16> {
    text.map_values(|b: u8| b as u16)
}

/// The codes of a composite-font run: two-byte big-endian pairs.
pub open spec fn spec_composite_codes(text: Seq<u8>) -> Seq<u16> {
    Seq::new(
        (text.len() / 2) as nat,
        |i: int| ((text[2 * i] as int) * 256 + text[2 * i + 1] as int) as u16,
    )
}

/// The character codes a run holds under the given code width, or `None`
/// for an undecodable font kind.
pub open spec fn spec_codes(subtype: FontSubtype, text: Seq<u8>) -> Option<Seq<u16>> {
    match subtype {
        FontSubtype::Simple => Some(spec_simple_codes(text)),
        FontSubtype::Composite => Some(spec_composite_codes(text)),
        FontSubtype::Other => None,
    }
}

/// Whether `e` names the first code of `codes` that `map` does not
/// cover.
pub open spec fn spec_first_missing(map: Map<u16, String>, codes: Seq<u16>, e: DecodeError) -> bool {
    exists|j: int|
        0 <= j < codes.len() && !map.contains_key(#[trigger] codes[j]) && (forall|k: int|
            0 <= k < j ==> map.contains_key(#[trigger] codes[k])) && e
            == DecodeError::UnicodeMappingMissing(codes[j])
}

/// Maps a run's raw bytes to the texts its codes stand for, in order.
/// Fails on an undecodable font kind, or with the first code the font's
/// table does not cover.
#[verifier::loop_isolation(false)]
pub fn decode_pdf_string(map: &FontMap, subtype: FontSubtype, text: &Vec<u8>) -> (r: Result<
    Vec<String>,
    DecodeError,
>)
    requires
        subtype == FontSubtype::Composite ==> text@.len() % 2 == 0,
    ensures
        match spec_codes(subtype, text@) {
            None => r == Err::<Vec<String>, DecodeError>(DecodeError::UnsupportedSubtype),
            Some(codes) => {
                &&& (r is Ok <==> forall|i: int|
                    0 <= i < codes.len() ==> map@.contains_key(#[trigger] codes[i]))
                &&& r is Ok ==> r->Ok_0@.len() == codes.len()
                &&& r is Ok ==> forall|i: int|
                    0 <= i < codes.len() ==> (#[trigger] r->Ok_0@[i])@ == map@[codes[i]]@
                &&& r is Err ==> spec_first_missing(map@, codes, r->Err_0)
            },
        },
{
    let codes: Vec<u16> = match subtype {
        FontSubtype::Simple => {
            let mut codes: Vec<u16> = Vec::new();
            let mut i: usize = 0;
            while i < text.len()
                invariant
                    i <= text.len(),
                    codes@.len() == i,
                    forall|j: int| 0 <= j < i ==> codes@[j] == text@[j] as u16,
                decreases text.len() - i,
            {
                codes.push(text[i] as u16);
                i = i + 1;
            }
            proof {
                assert(codes@ =~= spec_simple_codes(text@));
            }
            codes
        },
        FontSubtype::Composite => {
            let mut codes: Vec<u16> = Vec::new();
            let mut i: usize = 0;
            let half = text.len() / 2;
            while i < half
                invariant
                    i <= half,
                    half == text@.len() / 2,
                    text@.len() % 2 == 0,
                    codes@.len() == i,
                    forall|j: int|
                        0 <= j < i ==> codes@[j] == (text@[2 * j] as u16) * 256 + text@[2 * j
                            + 1] as u16,
                decreases half - i,
            {
                let hi = text[2 * i];
                let lo = text[2 * i + 1];
                codes.push((hi as u16) * 256 + lo as u16);
                i = i + 1;
            }
            proof {
                assert(codes@ =~= spec_composite_codes(text@));
            }
            codes
        },
        FontSubtype::Other => {
            return Err(DecodeError::UnsupportedSubtype);
        },
    };
    let ghost scodes = spec_codes(subtype, text@)->0;
    proof {
        assert(codes@ == scodes);
    }
    let mut out: Vec<String> = Vec::new();
    let mut j: usize = 0;
    while j < codes.len()
        invariant
            j <= codes.len(),
            codes@ == scodes,
            out@.len() == j,
            forall|k: int| 0 <= k < j ==> map@.contains_key(#[trigger] scodes[k]),
            forall|k: int| 0 <= k < j ==> (#[trigger] out@[k])@ == map@[scodes[k]]@,
        decreases codes.len() - j,
    {
        let code = codes[j];
        match map.get(&code) {
            Some(s) => {
                out.push(s.clone());
            },
            None => {
                proof {
                    assert(!map@.contains_key(scodes[j as int]));
                    assert(spec_first_missing(
                        map@,
                        scodes,
                        DecodeError::UnicodeMappingMissing(scodes[j as int]),
                    ));
                }
                return Err(DecodeError::UnicodeMappingMissing(code));
            },
        }
        j = j + 1;
    }
    Ok(out)
}

} // verus!
