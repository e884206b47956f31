//! Per-font code-to-text tables, built once per page.
//!
//! For every font a page uses, the resolver builds a table mapping the
//! font's character codes to the text they stand for, trying in order: a
//! hand-authored override table for a small set of known embedded symbol
//! fonts (recognised by exact internal name), the font's own embedded
//! code-to-text table, and, for a simple font whose declared base encoding
//! is the Windows Latin-1 superset, a synthesised Latin-1 table overlaid
//! with the Windows-specific characters and the font's explicit
//! per-code differences. A font offering none of these is unsupported.

use std::collections::HashMap;

use vstd::prelude::*;

use crate::strutil::{push_char, str_eq};

verus! {

broadcast use vstd::std_specs::hash::group_hash_axioms;

/// A font's character-code width and general kind.
#[derive(Debug, Clone, Copy, PartialEq, Eq, Structural)]
pub enum FontSubtype {
    /// One-byte character codes.
    Simple,
    /// Two-byte big-endian character codes.
    Composite,
    /// Anything else; such a font's strings cannot be decoded.
    Other,
}

/// A font's declared base encoding and explicit per-code overrides.
#[derive(Debug, Clone, PartialEq)]
pub struct EncodingDesc {
    /// Whether the base encoding is the Windows Latin-1 superset.
    pub base_win_ansi: bool,
    /// Explicit code-to-glyph-name reassignments, in declaration order;
    /// a later entry for the same code wins.
    pub differences: Vec<(u16, String)>,
}

/// What the resolver reads of a font: its internal name, its code width,
/// its embedded code-to-text table if any, and its declared encoding if
/// any.
#[derive(Debug, Clone, PartialEq)]
pub struct FontDesc {
    pub name: Option<String>,
    pub subtype: FontSubtype,
    pub to_unicode: Option<Vec<(u16, String)>>,
    pub encoding: Option<EncodingDesc>,
}

/// A resolved table: character code to the text it stands for.
pub type FontMap = HashMap<u16, String>;

/// No strategy produced a table for the font; carries the font's internal
/// name.
#[derive(Debug, Clone, PartialEq)]
pub enum FontError {
    Unsupported(Option<String>),
}

/// Whether the font declares the given internal name.
pub open spec fn spec_named(font: FontDesc, name: Seq<char>) -> bool {
    font.name matches Some(n) && n@ == name
}

/// The map that results from inserting the pairs left to right into `m`;
/// a later pair for the same key wins.
pub open spec fn spec_insert_pairs(m: Map<u16, String>, pairs: Seq<(u16, String)>) -> Map<
    u16,
    String,
>
    decreases pairs.len(),
{
    if pairs.len() == 0 {
        m
    } else {
        spec_insert_pairs(m, pairs.drop_last()).insert(pairs.last().0, pairs.last().1)
    }
}

/// The map described by a pair list alone.
pub open spec fn spec_pairs_map(pairs: Seq<(u16, String)>) -> Map<u16, String> {
    spec_insert_pairs(Map::empty(), pairs)
}

/// The Windows-specific character for a code in the 128..160 band, where
/// the Windows Latin-1 superset departs from Latin-1: the fixed table of
/// 27 Windows-1252-specific characters.
pub open spec fn spec_win_special(code: u8) -> Option<Seq<char>> {
    if code == 128 {
        Some("\u{20ac}"@)
    } else if code == 130 {
        Some("\u{201a}"@)
    } else if code == 131 {
        Some("\u{192}"@)
    } else if code == 132 {
        Some("\u{201e}"@)
    } else if code == 133 {
        Some("\u{2026}"@)
    } else if code == 134 {
        Some("\u{2020}"@)
    } else if code == 135 {
        Some("\u{2021}"@)
    } else if code == 136 {
        Some("\u{2c6}"@)
    } else if code == 137 {
        Some("\u{2030}"@)
    } else if code == 138 {
        Some("\u{160}"@)
    } else if code == 139 {
        Some("\u{2039}"@)
    } else if code == 140 {
        Some("\u{152}"@)
    } else if code == 142 {
        Some("\u{17d}"@)
    } else if code == 145 {
        Some("\u{2018}"@)
    } else if code == 146 {
        Some("\u{2019}"@)
    } else if code == 147 {
        Some("\u{201c}"@)
    } else if code == 148 {
        Some("\u{201d}"@)
    } else if code == 149 {
        Some("\u{2022}"@)
    } else if code == 150 {
        Some("\u{2013}"@)
    } else if code == 151 {
        Some("\u{2014}"@)
    } else if code == 152 {
        Some("\u{2dc}"@)
    } else if code == 153 {
        Some("\u{2122}"@)
    } else if code == 154 {
        Some("\u{161}"@)
    } else if code == 155 {
        Some("\u{203a}"@)
    } else if code == 156 {
        Some("\u{153}"@)
    } else if code == 158 {
        Some("\u{17e}"@)
    } else if code == 159 {
        Some("\u{178}"@)
    } else {
        None
    }
}

/// The text synthesised for a code under the Windows Latin-1 superset
/// fallback, before differences are applied: the Windows-specific
/// character where one exists, else the code's own Latin-1 character.
pub open spec fn spec_win_char(code: u8) -> Seq<char> {
    match spec_win_special(code) {
        Some(s) => s,
        None => seq![code as char],
    }
}

/// What a correct Windows-fallback table holds: every code 32..=254 and
/// every differences code is present; a differences entry wins over the
/// synthesised character.
pub open spec fn spec_win_ansi_map_ok(diffs: Seq<(u16, String)>, m: Map<u16, String>) -> bool {
    &&& m.dom() =~= Set::new(|c: u16| 32 <= c <= 254).union(spec_pairs_map(diffs).dom())
    &&& (forall|c: u16|
        spec_pairs_map(diffs).dom().contains(c) ==> #[trigger] m[c] == spec_pairs_map(diffs)[c])
    &&& (forall|c: u16|
        32 <= c <= 254 && !spec_pairs_map(diffs).dom().contains(c) ==> (#[trigger] m[c])@
            == spec_win_char(c as u8))
}

/// What the hand-authored table for the first embedded symbol font holds.
pub open spec fn spec_gaiji_l_ok(m: Map<u16, String>) -> bool {
    &&& m.dom() =~= set![65u16, 67u16, 68u16, 69u16]
    &&& m[65u16]@ == "\u{227}"@
    &&& m[67u16]@ == "\u{1491}"@
    &&& m[68u16]@ == ";"@
    &&& m[69u16]@ == "\u{283}"@
}

/// What the hand-authored table for the second embedded symbol font
/// holds.
pub open spec fn spec_gaiji_l2_ok(m: Map<u16, String>) -> bool {
    &&& m.dom() =~= set![76u16]
    &&& m[76u16]@ == "\u{329}"@
}

/// What the hand-authored table for the embedded phonetic font holds: the
/// font uses private-use and ad hoc codes for standard phonetic letters.
pub open spec fn spec_ipa_ok(m: Map<u16, String>) -> bool {
    &&& m.dom() =~= set![
        4u16,
        7u16,
        34u16,
        35u16,
        38u16,
        48u16,
        49u16,
        73u16,
        80u16,
        132u16,
        186u16,
        194u16,
        196u16,
        229u16,
        254u16,
        256u16,
    ]
    &&& m[4u16]@ == "\u{2c8}"@
    &&& m[7u16]@ == "\u{2cc}"@
    &&& m[34u16]@ == "\u{259}"@
    &&& m[35u16]@ == "\u{251}"@
    &&& m[38u16]@ == "\u{f0}"@
    &&& m[48u16]@ == "\u{14b}"@
    &&& m[49u16]@ == "\u{254}"@
    &&& m[73u16]@ == "g"@
    &&& m[80u16]@ == "n"@
    &&& m[132u16]@ == "\u{279}"@
    &&& m[186u16]@ == "\u{329}"@
    &&& m[194u16]@ == "\u{30a}"@
    &&& m[196u16]@ == "\u{308}"@
    &&& m[229u16]@ == "\u{3010}\u{ff1f}\u{3011}"@
    &&& m[254u16]@ == "\u{3010}\u{ff1f}\u{3011}"@
    &&& m[256u16]@ == "\u{3010}\u{ff1f}\u{3011}"@
}

/// Whether `m` is the table the resolver's strategies produce for the
/// font: the hand-authored table for a named override, the font's own
/// embedded table, or the Windows fallback, in that order of precedence;
/// no table at all fits an unresolvable font.
pub open spec fn spec_font_table_ok(font: FontDesc, m: Map<u16, String>) -> bool {
    if spec_named(font, "DXNKCI+GaijiL"@) {
        spec_gaiji_l_ok(m)
    } else if spec_named(font, "NZLSMO+GaijiL2"@) {
        spec_gaiji_l2_ok(m)
    } else if spec_named(font, "DXNKCI+Ipa-samdUclphon1SILDoulosL"@) {
        spec_ipa_ok(m)
    } else {
        match font.to_unicode {
            Some(t) => m == spec_pairs_map(t@),
            None => match font.encoding {
                Some(e) => font.subtype == FontSubtype::Simple && e.base_win_ansi
                    && spec_win_ansi_map_ok(e.differences@, m),
                None => false,
            },
        }
    }
}

/// Whether some resolution strategy applies to the font.
pub open spec fn spec_resolvable(font: FontDesc) -> bool {
    ||| spec_named(font, "DXNKCI+GaijiL"@)
    ||| spec_named(font, "NZLSMO+GaijiL2"@)
    ||| spec_named(font, "DXNKCI+Ipa-samdUclphon1SILDoulosL"@)
    ||| font.to_unicode is Some
    ||| (font.subtype == FontSubtype::Simple && (font.encoding matches Some(e) && e.base_win_ansi))
}

/// Inserts the pairs into the map in order, cloning the strings.
fn insert_pairs(m: &mut FontMap, pairs: &Vec<(u16, String)>)
    ensures
        final(m)@ == spec_insert_pairs(old(m)@, pairs@),
{
    let mut i: usize = 0;
    proof {
        assert(pairs@.subrange(0, 0) =~= Seq::<(u16, String)>::empty());
    }
    while i < pairs.len()
        invariant
            i <= pairs.len(),
            m@ == spec_insert_pairs(old(m)@, pairs@.subrange(0, i as int)),
        decreases pairs.len() - i,
    {
        let (code, text) = (pairs[i].0, pairs[i].1.clone());
        m.insert(code, text);
        proof {
            assert(pairs@.subrange(0, i + 1).drop_last() =~= pairs@.subrange(0, i as int));
            assert(pairs@.subrange(0, i + 1).last() == pairs@[i as int]);
        }
        i = i + 1;
    }
    proof {
        assert(pairs@.subrange(0, i as int) =~= pairs@);
    }
}

/// How inserting pairs over a base map relates to the pair list's own
/// map: pair entries win, untouched base entries survive.
proof fn lemma_insert_pairs_over_base(base: Map<u16, String>, pairs: Seq<(u16, String)>)
    ensures
        spec_insert_pairs(base, pairs).dom() =~= base.dom().union(spec_pairs_map(pairs).dom()),
        forall|c: u16|
            spec_pairs_map(pairs).dom().contains(c) ==> #[trigger] spec_insert_pairs(base, pairs)[c]
                == spec_pairs_map(pairs)[c],
        forall|c: u16|
            base.dom().contains(c) && !spec_pairs_map(pairs).dom().contains(c)
                ==> #[trigger] spec_insert_pairs(base, pairs)[c] == base[c],
    decreases pairs.len(),
{
    if pairs.len() == 0 {
        assert(spec_pairs_map(pairs).dom() =~= Set::<u16>::empty());
    } else {
        lemma_insert_pairs_over_base(base, pairs.drop_last());
        lemma_insert_pairs_over_base(Map::empty(), pairs.drop_last());
    }
}

/// A one-character string.
fn char_string(c: char) -> (r: String)
    ensures
        r@ == seq![c],
{
    let mut s = String::new();
    push_char(&mut s, c);
    proof {
        assert(s@ =~= seq![c]);
    }
    s
}

/// The text synthesised for a code under the Windows fallback.
fn win_char_string(code: u8) -> (r: String)
    ensures
        r@ == spec_win_char(code),
{
    if code == 128 {
        String::from_str("\u{20ac}")
    } else if code == 130 {
        String::from_str("\u{201a}")
    } else if code == 131 {
        String::from_str("\u{192}")
    } else if code == 132 {
        String::from_str("\u{201e}")
    } else if code == 133 {
        String::from_str("\u{2026}")
    } else if code == 134 {
        String::from_str("\u{2020}")
    } else if code == 135 {
        String::from_str("\u{2021}")
    } else if code == 136 {
        String::from_str("\u{2c6}")
    } else if code == 137 {
        String::from_str("\u{2030}")
    } else if code == 138 {
        String::from_str("\u{160}")
    } else if code == 139 {
        String::from_str("\u{2039}")
    } else if code == 140 {
        String::from_str("\u{152}")
    } else if code == 142 {
        String::from_str("\u{17d}")
    } else if code == 145 {
        String::from_str("\u{2018}")
    } else if code == 146 {
        String::from_str("\u{2019}")
    } else if code == 147 {
        String::from_str("\u{201c}")
    } else if code == 148 {
        String::from_str("\u{201d}")
    } else if code == 149 {
        String::from_str("\u{2022}")
    } else if code == 150 {
        String::from_str("\u{2013}")
    } else if code == 151 {
        String::from_str("\u{2014}")
    } else if code == 152 {
        String::from_str("\u{2dc}")
    } else if code == 153 {
        String::from_str("\u{2122}")
    } else if code == 154 {
        String::from_str("\u{161}")
    } else if code == 155 {
        String::from_str("\u{203a}")
    } else if code == 156 {
        String::from_str("\u{153}")
    } else if code == 158 {
        String::from_str("\u{17e}")
    } else if code == 159 {
        String::from_str("\u{178}")
    } else {
        char_string(code as char)
    }
}

/// Builds the code-to-text table for one font, trying the named override
/// tables, then the font's embedded table, then the Windows Latin-1
/// superset fallback, in that order.
pub fn make_unicode_map(font: &FontDesc) -> (r: Result<FontMap, FontError>)
    ensures
        spec_named(*font, "DXNKCI+GaijiL"@) ==> r is Ok && spec_gaiji_l_ok(r->Ok_0@),
        !spec_named(*font, "DXNKCI+GaijiL"@) && spec_named(*font, "NZLSMO+GaijiL2"@) ==> r is Ok
            && spec_gaiji_l2_ok(r->Ok_0@),
        !spec_named(*font, "DXNKCI+GaijiL"@) && !spec_named(*font, "NZLSMO+GaijiL2"@)
            && spec_named(*font, "DXNKCI+Ipa-samdUclphon1SILDoulosL"@) ==> r is Ok && spec_ipa_ok(
            r->Ok_0@,
        ),
        !spec_named(*font, "DXNKCI+GaijiL"@) && !spec_named(*font, "NZLSMO+GaijiL2"@)
            && !spec_named(*font, "DXNKCI+Ipa-samdUclphon1SILDoulosL"@) ==> match font.to_unicode {
            Some(t) => r is Ok && r->Ok_0@ == spec_pairs_map(t@),
            None => true,
        },
        !spec_named(*font, "DXNKCI+GaijiL"@) && !spec_named(*font, "NZLSMO+GaijiL2"@)
            && !spec_named(*font, "DXNKCI+Ipa-samdUclphon1SILDoulosL"@) && font.to_unicode is None
            && font.subtype == FontSubtype::Simple ==> match font.encoding {
            Some(e) => e.base_win_ansi ==> r is Ok && spec_win_ansi_map_ok(
                e.differences@,
                r->Ok_0@,
            ),
            None => true,
        },
        r is Ok ==> spec_font_table_ok(*font, r->Ok_0@),
        r is Err <==> !spec_resolvable(*font),
        r is Err ==> r->Err_0 == FontError::Unsupported(font.name),
{
    let is_g1 = match &font.name {
        Some(n) => str_eq(n.as_str(), "DXNKCI+GaijiL"),
        None => false,
    };
    let is_g2 = match &font.name {
        Some(n) => str_eq(n.as_str(), "NZLSMO+GaijiL2"),
        None => false,
    };
    let is_ipa = match &font.name {
        Some(n) => str_eq(n.as_str(), "DXNKCI+Ipa-samdUclphon1SILDoulosL"),
        None => false,
    };
    if is_g1 {
        let mut m: FontMap = HashMap::new();
        m.insert(65, String::from_str("\u{227}"));
        m.insert(67, String::from_str("\u{1491}"));
        m.insert(68, String::from_str(";"));
        m.insert(69, String::from_str("\u{283}"));
        proof {
            assert(m@.dom() =~= set![65u16, 67u16, 68u16, 69u16]);
        }
        Ok(m)
    } else if is_g2 {
        let mut m: FontMap = HashMap::new();
        m.insert(76, String::from_str("\u{329}"));
        proof {
            assert(m@.dom() =~= set![76u16]);
        }
        Ok(m)
    } else if is_ipa {
        let mut m: FontMap = HashMap::new();
        m.insert(4, String::from_str("\u{2c8}"));
        m.insert(7, String::from_str("\u{2cc}"));
        m.insert(34, String::from_str("\u{259}"));
        m.insert(35, String::from_str("\u{251}"));
        m.insert(38, String::from_str("\u{f0}"));
        m.insert(48, String::from_str("\u{14b}"));
        m.insert(49, String::from_str("\u{254}"));
        m.insert(73, String::from_str("g"));
        m.insert(80, String::from_str("n"));
        m.insert(132, String::from_str("\u{279}"));
        m.insert(186, String::from_str("\u{329}"));
        m.insert(194, String::from_str("\u{30a}"));
        m.insert(196, String::from_str("\u{308}"));
        m.insert(229, String::from_str("\u{3010}\u{ff1f}\u{3011}"));
        m.insert(254, String::from_str("\u{3010}\u{ff1f}\u{3011}"));
        m.insert(256, String::from_str("\u{3010}\u{ff1f}\u{3011}"));
        proof {
            assert(m@.dom() =~= set![
                4u16,
                7u16,
                34u16,
                35u16,
                38u16,
                48u16,
                49u16,
                73u16,
                80u16,
                132u16,
                186u16,
                194u16,
                196u16,
                229u16,
                254u16,
                256u16,
            ]);
        }
        Ok(m)
    } else if let Some(t) = &font.to_unicode {
        let mut m: FontMap = HashMap::new();
        insert_pairs(&mut m, t);
        Ok(m)
    } else {
        let win_ansi = match &font.encoding {
            Some(e) => e.base_win_ansi,
            None => false,
        };
        let is_simple = match font.subtype {
            FontSubtype::Simple => true,
            _ => false,
        };
        if is_simple && win_ansi {
            let e = match &font.encoding {
                Some(e) => e,
                None => unreached(),
            };
            let mut m: FontMap = HashMap::new();
            let mut code: u16 = 32;
            while code < 255
                invariant
                    32 <= code <= 255,
                    m@.dom() =~= Set::new(|c: u16| 32 <= c < code),
                    forall|c: u16|
                        32 <= c < code ==> (#[trigger] m@[c])@ == spec_win_char(c as u8),
                decreases 255 - code,
            {
                let s = win_char_string(code as u8);
                m.insert(code, s);
                proof {
                    assert(m@.dom() =~= Set::new(|c: u16| 32 <= c < code + 1));
                }
                code = code + 1;
            }
            let ghost base = m@;
            insert_pairs(&mut m, &e.differences);
            proof {
                lemma_insert_pairs_over_base(base, e.differences@);
                assert(m@.dom() =~= Set::new(|c: u16| 32 <= c <= 254).union(
                    spec_pairs_map(e.differences@).dom(),
                ));
            }
            Ok(m)
        } else {
            let name = match &font.name {
                Some(n) => Some(n.clone()),
                None => None,
            };
            Err(FontError::Unsupported(name))
        }
    }
}

/// One page font, resolved: its in-page key, its code width, and its
/// code-to-text table.
#[derive(Debug, Clone, PartialEq)]
pub struct ResolvedFont {
    pub key: String,
    pub subtype: FontSubtype,
    pub map: FontMap,
}

/// What a resolved font list must satisfy, entry by entry, against the
/// page's font resources.
pub open spec fn spec_fonts_resolved(fonts: Seq<(String, FontDesc)>, r: Seq<ResolvedFont>) -> bool {
    &&& r.len() == fonts.len()
    &&& (forall|i: int|
        0 <= i < fonts.len() ==> {
            &&& (#[trigger] r[i]).key == fonts[i].0
            &&& r[i].subtype == fonts[i].1.subtype
            &&& spec_resolvable(fonts[i].1)
            &&& spec_font_table_ok(fonts[i].1, r[i].map@)
        })
}

/// Resolves every font a page declares, failing on the first font no
/// strategy covers.
pub fn make_font_map(fonts: &Vec<(String, FontDesc)>) -> (r: Result<Vec<ResolvedFont>, FontError>)
    ensures
        r is Ok ==> spec_fonts_resolved(fonts@, r->Ok_0@),
        (r is Ok <==> forall|i: int| 0 <= i < fonts@.len() ==> spec_resolvable(
            #[trigger] fonts@[i].1,
        )),
{
    let mut out: Vec<ResolvedFont> = Vec::new();
    let mut i: usize = 0;
    while i < fonts.len()
        invariant
            i <= fonts.len(),
            out@.len() == i,
            forall|j: int|
                0 <= j < i ==> {
                    &&& (#[trigger] out@[j]).key == fonts@[j].0
                    &&& out@[j].subtype == fonts@[j].1.subtype
                    &&& spec_font_table_ok(fonts@[j].1, out@[j].map@)
                },
            forall|j: int| 0 <= j < i ==> spec_resolvable(#[trigger] fonts@[j].1),
        decreases fonts.len() - i,
    {
        let (key, desc) = (&fonts[i].0, &fonts[i].1);
        match make_unicode_map(desc) {
            Ok(map) => {
                out.push(ResolvedFont { key: key.clone(), subtype: desc.subtype, map });
            },
            Err(e) => {
                return Err(e);
            },
        }
        i = i + 1;
    }
    Ok(out)
}

/// The first resolved font declared under the given in-page key.
pub open spec fn spec_find_font(fonts: Seq<ResolvedFont>, key: Seq<char>) -> Option<ResolvedFont>
    decreases fonts.len(),
{
    if fonts.len() == 0 {
        None
    } else if fonts[0].key@ == key {
        Some(fonts[0])
    } else {
        spec_find_font(fonts.drop_first(), key)
    }
}

/// Finds the resolved font for an in-page key.
#[verifier::loop_isolation(false)]
pub fn find_font<'a>(fonts: &'a Vec<ResolvedFont>, key: &str) -> (r: Option<&'a ResolvedFont>)
    ensures
        match r {
            Some(f) => spec_find_font(fonts@, key@) == Some(*f),
            None => spec_find_font(fonts@, key@) is None,
        },
{
    let mut i: usize = 0;
    proof {
        assert(fonts@.subrange(0, fonts@.len() as int) =~= fonts@);
    }
    while i < fonts.len()
        invariant
            i <= fonts.len(),
            spec_find_font(fonts@, key@) == spec_find_font(
                fonts@.subrange(i as int, fonts@.len() as int),
                key@,
            ),
        decreases fonts.len() - i,
    {
        let ghost sub = fonts@.subrange(i as int, fonts@.len() as int);
        proof {
            assert(sub[0] == fonts@[i as int]);
            assert(sub.drop_first() =~= fonts@.subrange(i + 1, fonts@.len() as int));
        }
        if str_eq(fonts[i].key.as_str(), key) {
            return Some(&fonts[i]);
        }
        i = i + 1;
    }
    proof {
        assert(fonts@.subrange(i as int, fonts@.len() as int) =~= Seq::<ResolvedFont>::empty());
    }
    None
}

} // verus!
