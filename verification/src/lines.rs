//! The line assembler: groups positioned runs into visual lines, then
//! accumulates lines into raw per-entry strings.
//!
//! Runs in a page's header band (y at or below the cutoff) are dropped.
//! After that, a run whose baseline lies more than the gap threshold below
//! the previous line's baseline starts a new line; anything else joins the
//! current line. Completed lines are then classified by the x-coordinate
//! of their first run into "starts a new entry" or "continues the
//! previous entry", and the decoded texts of each entry's lines are
//! concatenated. The numeric thresholds are the layout profile of the one
//! document this grammar is tuned to, in thousandths of a unit.

use vstd::prelude::*;

use crate::decode::{spec_codes, spec_first_missing, DecodeError};
use crate::fixed::Milli;
use crate::font::{spec_find_font, FontSubtype, ResolvedFont};
use crate::text_state::TextEntry;

verus! {

/// Runs at or below this y-coordinate belong to the page header and are
/// dropped.
pub const HEADER_CUTOFF: Milli = 50000;

/// A run more than this far below the previous baseline starts a new
/// line.
pub const LINE_GAP: Milli = 8000;

/// A line whose first run's glyph size exceeds this is a section heading.
pub const HEADING_SIZE: Milli = 11000;

/// Failure to classify a line or to attach a continuation line.
#[derive(Debug, Clone, Copy, PartialEq, Eq, Structural)]
pub enum LineError {
    /// The first run's x-coordinate fell outside the three known
    /// indentation buckets.
    UnexpectedCoordinate(Milli),
    /// A continuation line arrived before any entry-starting line.
    OrphanContinuation,
}

/// The y-coordinate a run was drawn at.
pub open spec fn spec_run_y(e: TextEntry) -> int {
    e.positions.text_matrix.f as int
}

/// The x-coordinate a run was drawn at.
pub open spec fn spec_run_x(e: TextEntry) -> int {
    e.positions.text_matrix.e as int
}

/// The input sequence with its leading header-band runs dropped.
pub open spec fn spec_skip_header(entries: Seq<TextEntry>) -> Seq<TextEntry>
    decreases entries.len(),
{
    if entries.len() > 0 && spec_run_y(entries[0]) <= HEADER_CUTOFF as int {
        spec_skip_header(entries.drop_first())
    } else {
        entries
    }
}

/// Whether a run at `y` starts a new line, given the baseline of the
/// current line (`None` before any line exists).
pub open spec fn spec_new_line(y: int, last_y: Option<Milli>) -> bool {
    match last_y {
        None => true,
        Some(ly) => y < ly - LINE_GAP,
    }
}

/// One grouping step at a time: each run either opens a new line or joins
/// the last one; only a line-opening run updates the reference baseline.
pub open spec fn spec_split_from(
    entries: Seq<TextEntry>,
    last_y: Option<Milli>,
    lines: Seq<Seq<TextEntry>>,
) -> Seq<Seq<TextEntry>>
    decreases entries.len(),
{
    if entries.len() == 0 {
        lines
    } else {
        let e = entries[0];
        let y = spec_run_y(e);
        if spec_new_line(y, last_y) {
            spec_split_from(entries.drop_first(), Some(y as i64), lines.push(seq![e]))
        } else {
            spec_split_from(
                entries.drop_first(),
                last_y,
                lines.update(lines.len() - 1, lines.last().push(e)),
            )
        }
    }
}

/// The visual lines of a page's run sequence.
pub open spec fn spec_group_lines(entries: Seq<TextEntry>) -> Seq<Seq<TextEntry>> {
    spec_split_from(spec_skip_header(entries), None, Seq::empty())
}

/// The contents of a sequence of lines.
pub open spec fn line_views(s: Seq<Vec<TextEntry>>) -> Seq<Seq<TextEntry>> {
    s.map_values(|v: Vec<TextEntry>| v@)
}

/// Groups a page's runs into visual lines: drops the header band, then
/// splits on baseline gaps. Every returned line is non-empty.
#[verifier::loop_isolation(false)]
pub fn group_lines(entries: Vec<TextEntry>) -> (r: Vec<Vec<TextEntry>>)
    ensures
        line_views(r@) == spec_group_lines(entries@),
        forall|i: int| 0 <= i < r@.len() ==> (#[trigger] r@[i])@.len() > 0,
{
    let ghost orig = entries@;
    let mut entries = entries;
    while entries.len() > 0 && entries[0].positions.text_matrix.f <= HEADER_CUTOFF
        invariant
            spec_skip_header(orig) == spec_skip_header(entries@),
        decreases entries.len(),
    {
        entries.remove(0);
    }
    proof {
        assert(spec_skip_header(entries@) == entries@);
    }
    let ghost start = entries@;
    let mut lines: Vec<Vec<TextEntry>> = Vec::new();
    let mut last_y: Option<Milli> = None;
    proof {
        assert(line_views(lines@) =~= Seq::<Seq<TextEntry>>::empty());
    }
    while entries.len() > 0
        invariant
            spec_split_from(start, None, Seq::empty()) == spec_split_from(
                entries@,
                last_y,
                line_views(lines@),
            ),
            last_y is None ==> lines@.len() == 0,
            last_y is Some ==> lines@.len() > 0,
            forall|i: int| 0 <= i < lines@.len() ==> (#[trigger] lines@[i])@.len() > 0,
        decreases entries.len(),
    {
        let ghost pre = entries@;
        let ghost ly_old = last_y;
        let e = entries.remove(0);
        proof {
            assert(e == pre[0]);
            assert(entries@ =~= pre.drop_first());
        }
        let y = e.positions.text_matrix.f;
        let starts_new = match last_y {
            None => true,
            Some(ly) => (y as i128) < (ly as i128) - (LINE_GAP as i128),
        };
        proof {
            assert(starts_new == spec_new_line(spec_run_y(pre[0]), ly_old));
        }
        let ghost lv_old = line_views(lines@);
        if starts_new {
            let mut line: Vec<TextEntry> = Vec::new();
            line.push(e);
            proof {
                assert(line@ =~= seq![pre[0]]);
            }
            lines.push(line);
            last_y = Some(y);
            proof {
                assert(line_views(lines@) =~= lv_old.push(seq![pre[0]]));
                assert(spec_split_from(pre, ly_old, lv_old) == spec_split_from(
                    entries@,
                    last_y,
                    line_views(lines@),
                ));
            }
        } else {
            let mut last = lines.pop().unwrap();
            let ghost lv_short = line_views(lines@);
            last.push(e);
            lines.push(last);
            proof {
                assert(lv_old =~= lv_short.push(lv_old.last()));
                assert(line_views(lines@) =~= lv_old.update(
                    lv_old.len() - 1,
                    lv_old.last().push(pre[0]),
                ));
                assert(spec_split_from(pre, ly_old, lv_old) == spec_split_from(
                    entries@,
                    last_y,
                    line_views(lines@),
                ));
            }
        }
    }
    proof {
        assert(spec_split_from(entries@, last_y, line_views(lines@)) == line_views(lines@));
    }
    lines
}

/// A run paired with its decoded texts.
pub type ParsedTextEntry = (TextEntry, Vec<String>);

/// Whether a line is a section heading: its first run's glyph size
/// exceeds the heading threshold.
pub open spec fn spec_heading(line: Seq<ParsedTextEntry>) -> bool {
    line[0].0.positions.text_matrix.d > HEADING_SIZE
}

/// Whether a line is a blank separator row: a single run whose decoded
/// text is exactly one single-space string.
pub open spec fn spec_blank(line: Seq<ParsedTextEntry>) -> bool {
    line.len() == 1 && line[0].1@.len() == 1 && line[0].1@[0]@ == " "@
}

/// The indentation class of a line's first run: `Ok(true)` starts a new
/// entry, `Ok(false)` continues the previous one. A run holding a single
/// raw space has no meaningful x-baseline and counts as starting by
/// convention; otherwise the x-coordinate must fall in one of the three
/// known buckets.
pub open spec fn spec_not_indented(e: TextEntry) -> Result<bool, LineError> {
    if e.text@ == seq![32u8] {
        Ok(true)
    } else {
        let x = spec_run_x(e);
        if 70500 <= x < 71500 {
            Ok(true)
        } else if 80000 <= x < 82500 {
            Ok(false)
        } else if 91500 <= x < 92500 {
            Ok(false)
        } else {
            Err(LineError::UnexpectedCoordinate(e.positions.text_matrix.e))
        }
    }
}

/// Classifies a line's first run by its x-coordinate.
pub fn not_indented(first_entry: &TextEntry) -> (r: Result<bool, LineError>)
    ensures
        r == spec_not_indented(*first_entry),
{
    if first_entry.text.len() == 1 && first_entry.text[0] == 32 {
        proof {
            assert(first_entry.text@ =~= seq![32u8]);
        }
        return Ok(true);
    }
    proof {
        assert(first_entry.text@ != seq![32u8]);
    }
    let x = first_entry.positions.text_matrix.e;
    if 70500 <= x && x < 71500 {
        Ok(true)
    } else if 80000 <= x && x < 82500 {
        Ok(false)
    } else if 91500 <= x && x < 92500 {
        Ok(false)
    } else {
        Err(LineError::UnexpectedCoordinate(x))
    }
}

/// The concatenation of a list of decoded strings.
pub open spec fn spec_strings_concat(ss: Seq<String>) -> Seq<char>
    decreases ss.len(),
{
    if ss.len() == 0 {
        Seq::empty()
    } else {
        spec_strings_concat(ss.drop_last()) + ss.last()@
    }
}

/// The text a line contributes to its entry: all decoded texts of all its
/// runs, in stream order.
pub open spec fn spec_line_text(line: Seq<ParsedTextEntry>) -> Seq<char>
    decreases line.len(),
{
    if line.len() == 0 {
        Seq::empty()
    } else {
        spec_line_text(line.drop_last()) + spec_strings_concat(line.last().1@)
    }
}

/// The contents of the accumulated entry strings.
pub open spec fn word_views(ws: Seq<String>) -> Seq<Seq<char>> {
    ws.map_values(|w: String| w@)
}

/// Entry accumulation over a page's lines: heading and blank lines are
/// dropped; a line starting a new entry opens a fresh accumulator; every
/// surviving line's text is appended to the last accumulator. A
/// continuation line with no open accumulator is an error, as is a first
/// run outside the known x-coordinate buckets.
pub open spec fn spec_collect_words(
    ws: Seq<Seq<char>>,
    lines: Seq<Seq<ParsedTextEntry>>,
) -> (Seq<Seq<char>>, Option<LineError>)
    decreases lines.len(),
{
    if lines.len() == 0 {
        (ws, None)
    } else {
        let line = lines[0];
        if spec_heading(line) || spec_blank(line) {
            spec_collect_words(ws, lines.drop_first())
        } else {
            match spec_not_indented(line[0].0) {
                Err(e) => (ws, Some(e)),
                Ok(nn) => {
                    let ws1 = if nn {
                        ws.push(Seq::empty())
                    } else {
                        ws
                    };
                    if ws1.len() == 0 {
                        (ws, Some(LineError::OrphanContinuation))
                    } else {
                        spec_collect_words(
                            ws1.update(ws1.len() - 1, ws1.last() + spec_line_text(line)),
                            lines.drop_first(),
                        )
                    }
                },
            }
        }
    }
}

/// Appends the decoded texts of one line to the string `w`.
fn append_line_text(w: &mut String, line: &Vec<ParsedTextEntry>)
    ensures
        final(w)@ == old(w)@ + spec_line_text(line@),
{
    let mut i: usize = 0;
    proof {
        assert(line@.subrange(0, 0) =~= Seq::<ParsedTextEntry>::empty());
        assert(old(w)@ + spec_line_text(line@.subrange(0, 0)) =~= old(w)@);
    }
    while i < line.len()
        invariant
            i <= line.len(),
            w@ == old(w)@ + spec_line_text(line@.subrange(0, i as int)),
        decreases line.len() - i,
    {
        let strings = &line[i].1;
        let mut j: usize = 0;
        proof {
            assert(strings@.subrange(0, 0) =~= Seq::<String>::empty());
            assert(w@ + spec_strings_concat(strings@.subrange(0, 0)) =~= w@);
        }
        let ghost w_line = w@;
        while j < strings.len()
            invariant
                j <= strings.len(),
                w@ == w_line + spec_strings_concat(strings@.subrange(0, j as int)),
            decreases strings.len() - j,
        {
            w.append(strings[j].as_str());
            proof {
                assert(strings@.subrange(0, j + 1).drop_last() =~= strings@.subrange(0, j as int));
                assert(strings@.subrange(0, j + 1).last() == strings@[j as int]);
                assert(w@ =~= w_line + spec_strings_concat(strings@.subrange(0, j + 1)));
            }
            j = j + 1;
        }
        proof {
            assert(strings@.subrange(0, strings@.len() as int) =~= strings@);
            assert(line@.subrange(0, i + 1).drop_last() =~= line@.subrange(0, i as int));
            assert(line@.subrange(0, i + 1).last() == line@[i as int]);
            assert(w@ =~= old(w)@ + spec_line_text(line@.subrange(0, i + 1)));
        }
        i = i + 1;
    }
    proof {
        assert(line@.subrange(0, line@.len() as int) =~= line@);
    }
}

/// Accumulates a page's decoded lines onto the per-entry strings built so
/// far; `words` persists across pages, so a page-top continuation line
/// attaches to the previous page's last entry.
#[verifier::loop_isolation(false)]
pub fn get_words(words: &mut Vec<String>, lines: &Vec<Vec<ParsedTextEntry>>) -> (r: Result<
    (),
    LineError,
>)
    requires
        forall|i: int| 0 <= i < lines@.len() ==> (#[trigger] lines@[i])@.len() > 0,
    ensures
        ({
            let (ws, err) = spec_collect_words(
                word_views(old(words)@),
                line_views_parsed(lines@),
            );
            &&& word_views(final(words)@) == ws
            &&& match err {
                None => r is Ok,
                Some(e) => r is Err && r->Err_0 == e,
            }
        }),
{
    let mut k: usize = 0;
    proof {
        assert(lines@.subrange(0, lines@.len() as int) =~= lines@);
    }
    while k < lines.len()
        invariant
            k <= lines.len(),
            spec_collect_words(word_views(old(words)@), line_views_parsed(lines@))
                == spec_collect_words(
                word_views(words@),
                line_views_parsed(lines@.subrange(k as int, lines@.len() as int)),
            ),
        decreases lines.len() - k,
    {
        let ghost pre_words = words@;
        let ghost sub = lines@.subrange(k as int, lines@.len() as int);
        proof {
            assert(sub[0] == lines@[k as int]);
            assert(sub.drop_first() =~= lines@.subrange(k + 1, lines@.len() as int));
            assert(line_views_parsed(sub)[0] == lines@[k as int]@);
            assert(line_views_parsed(sub).drop_first() =~= line_views_parsed(sub.drop_first()));
        }
        let line = &lines[k];
        let is_heading = line[0].0.positions.text_matrix.d > HEADING_SIZE;
        let is_blank = line.len() == 1 && line[0].1.len() == 1 && crate::strutil::str_eq(
            line[0].1[0].as_str(),
            " ",
        );
        proof {
            assert(is_heading == spec_heading(line_views_parsed(sub)[0]));
            assert(is_blank == spec_blank(line_views_parsed(sub)[0]));
        }
        if !is_heading && !is_blank {
            match not_indented(&line[0].0) {
                Err(e) => {
                    return Err(e);
                },
                Ok(nn) => {
                    if nn {
                        words.push(String::new());
                        proof {
                            assert(word_views(words@) =~= word_views(pre_words).push(
                                Seq::<char>::empty(),
                            ));
                        }
                    }
                    if words.len() == 0 {
                        return Err(LineError::OrphanContinuation);
                    }
                    let ghost ws_push = word_views(words@);
                    let mut w = words.pop().unwrap();
                    let ghost ws1 = word_views(words@).push(w@);
                    proof {
                        assert(ws1 =~= ws_push);
                    }
                    append_line_text(&mut w, line);
                    words.push(w);
                    proof {
                        assert(word_views(words@) =~= ws1.update(
                            ws1.len() - 1,
                            ws1.last() + spec_line_text(lines@[k as int]@),
                        ));
                        assert(spec_line_text(line_views_parsed(sub)[0]) == spec_line_text(
                            lines@[k as int]@,
                        ));
                        assert(spec_collect_words(
                            word_views(pre_words),
                            line_views_parsed(sub),
                        ) == spec_collect_words(
                            word_views(words@),
                            line_views_parsed(lines@.subrange(k + 1, lines@.len() as int)),
                        ));
                    }
                },
            }
        } else {
            proof {
                assert(spec_collect_words(word_views(pre_words), line_views_parsed(sub))
                    == spec_collect_words(
                    word_views(words@),
                    line_views_parsed(lines@.subrange(k + 1, lines@.len() as int)),
                ));
            }
        }
        k = k + 1;
    }
    proof {
        assert(lines@.subrange(k as int, lines@.len() as int) =~= Seq::<Vec<ParsedTextEntry>>::empty());
        assert(line_views_parsed(lines@.subrange(k as int, lines@.len() as int)) =~= Seq::<
            Seq<ParsedTextEntry>,
        >::empty());
    }
    Ok(())
}

/// The contents of a sequence of decoded lines.
pub open spec fn line_views_parsed(s: Seq<Vec<ParsedTextEntry>>) -> Seq<Seq<ParsedTextEntry>> {
    s.map_values(|v: Vec<ParsedTextEntry>| v@)
}

/// Whether every run of every line can be decoded: its font key is
/// resolved, its code width is decodable, and a composite run has even
/// length.
pub open spec fn spec_line_runs_decodable(
    fonts: Seq<ResolvedFont>,
    lines: Seq<Seq<TextEntry>>,
) -> bool {
    forall|i: int, j: int|
        0 <= i < lines.len() && 0 <= j < lines[i].len() ==> match spec_find_font(
            fonts,
            (#[trigger] lines[i][j]).font@,
        ) {
            Some(f) => f.subtype == FontSubtype::Composite ==> lines[i][j].text@.len() % 2 == 0,
            None => true,
        }
}

/// Failure to decode a page's lines.
#[derive(Debug, Clone, PartialEq)]
pub enum PageError {
    /// A run referenced a font key absent from the resolved table.
    FontNotFound(String),
    /// A run's bytes did not decode under its font's table.
    Decode(DecodeError),
}

/// Whether a run decodes under the resolved fonts.
pub open spec fn spec_run_decodable(fonts: Seq<ResolvedFont>, e: TextEntry) -> bool {
    match spec_find_font(fonts, e.font@) {
        None => false,
        Some(f) => match spec_codes(f.subtype, e.text@) {
            None => false,
            Some(codes) => forall|k: int|
                0 <= k < codes.len() ==> f.map@.contains_key(#[trigger] codes[k]),
        },
    }
}

/// Whether `out` is the decoding of run `e` under the resolved fonts.
pub open spec fn spec_run_decodes_to(fonts: Seq<ResolvedFont>, e: TextEntry, out: Seq<String>) -> bool {
    match spec_find_font(fonts, e.font@) {
        None => false,
        Some(f) => match spec_codes(f.subtype, e.text@) {
            None => false,
            Some(codes) => out.len() == codes.len() && forall|k: int|
                0 <= k < codes.len() ==> (#[trigger] out[k])@ == f.map@[codes[k]]@,
        },
    }
}

/// Whether `err` describes why run `e` fails to decode.
pub open spec fn spec_run_decode_error(fonts: Seq<ResolvedFont>, e: TextEntry, err: PageError) -> bool {
    match spec_find_font(fonts, e.font@) {
        None => err matches PageError::FontNotFound(k) && k@ == e.font@,
        Some(f) => match spec_codes(f.subtype, e.text@) {
            None => err == PageError::Decode(DecodeError::UnsupportedSubtype),
            Some(codes) => err matches PageError::Decode(de) && spec_first_missing(
                f.map@,
                codes,
                de,
            ),
        },
    }
}

/// Decodes every run of every line through its font's table, keeping the
/// line structure. Fails on the first run whose font key is unresolved or
/// whose bytes do not decode.
#[verifier::loop_isolation(false)]
pub fn decode_lines(fonts: &Vec<ResolvedFont>, lines: Vec<Vec<TextEntry>>) -> (r: Result<
    Vec<Vec<ParsedTextEntry>>,
    PageError,
>)
    requires
        spec_line_runs_decodable(fonts@, line_views(lines@)),
    ensures
        (r is Ok <==> forall|i: int, j: int|
            0 <= i < line_views(lines@).len() && 0 <= j < line_views(lines@)[i].len()
                ==> spec_run_decodable(fonts@, #[trigger] line_views(lines@)[i][j])),
        r is Ok ==> {
            let out = r->Ok_0@;
            &&& out.len() == lines@.len()
            &&& (forall|i: int|
                0 <= i < lines@.len() ==> (#[trigger] out[i])@.len() == lines@[i]@.len())
            &&& (forall|i: int, j: int|
                0 <= i < lines@.len() && 0 <= j < lines@[i]@.len() ==> (#[trigger] out[i]@[j]).0
                    == lines@[i]@[j])
            &&& (forall|i: int, j: int|
                0 <= i < lines@.len() && 0 <= j < lines@[i]@.len() ==> spec_run_decodes_to(
                    fonts@,
                    lines@[i]@[j],
                    (#[trigger] out[i]@[j]).1@,
                ))
        },
        r is Err ==> exists|i: int, j: int|
            0 <= i < lines@.len() && 0 <= j < lines@[i]@.len() && spec_run_decode_error(
                fonts@,
                #[trigger] lines@[i]@[j],
                r->Err_0,
            ),
{
    let ghost orig = lines@;
    let mut lines = lines;
    let n_lines: usize = lines.len();
    proof {
        assert(orig.len() == n_lines as int);
    }
    let mut out: Vec<Vec<ParsedTextEntry>> = Vec::new();
    let mut i: usize = 0;
    while lines.len() > 0
        invariant
            orig.len() <= usize::MAX,
            i + lines.len() == orig.len(),
            lines@ =~= orig.subrange(i as int, orig.len() as int),
            out@.len() == i,
            forall|p: int| 0 <= p < i ==> (#[trigger] out@[p])@.len() == orig[p]@.len(),
            forall|p: int, q: int|
                0 <= p < i && 0 <= q < orig[p]@.len() ==> (#[trigger] out@[p]@[q]).0 == orig[p]@[q],
            forall|p: int, q: int|
                0 <= p < i && 0 <= q < orig[p]@.len() ==> spec_run_decodes_to(
                    fonts@,
                    orig[p]@[q],
                    (#[trigger] out@[p]@[q]).1@,
                ),
            forall|p: int, q: int|
                0 <= p < i && 0 <= q < orig[p]@.len() ==> spec_run_decodable(
                    fonts@,
                    #[trigger] orig[p]@[q],
                ),
        decreases lines.len(),
    {
        let ghost pre = lines@;
        let line = lines.remove(0);
        proof {
            assert(line == orig[i as int]);
            assert(lines@ =~= orig.subrange(i + 1, orig.len() as int));
        }
        let ghost lorig = line@;
        let mut line = line;
        let n_runs: usize = line.len();
        proof {
            assert(lorig.len() == n_runs as int);
        }
        let mut parsed: Vec<ParsedTextEntry> = Vec::new();
        let mut j: usize = 0;
        while line.len() > 0
            invariant
                lorig.len() <= usize::MAX,
                j + line.len() == lorig.len(),
                line@ =~= lorig.subrange(j as int, lorig.len() as int),
                parsed@.len() == j,
                forall|q: int| 0 <= q < j ==> (#[trigger] parsed@[q]).0 == lorig[q],
                forall|q: int|
                    0 <= q < j ==> spec_run_decodes_to(
                        fonts@,
                        lorig[q],
                        (#[trigger] parsed@[q]).1@,
                    ),
                forall|q: int| 0 <= q < j ==> spec_run_decodable(fonts@, #[trigger] lorig[q]),
            decreases line.len(),
        {
            let entry = line.remove(0);
            proof {
                assert(entry == lorig[j as int]);
                assert(line@ =~= lorig.subrange(j + 1, lorig.len() as int));
                assert(line_views(orig)[i as int][j as int] == lorig[j as int]);
            }
            let font = match crate::font::find_font(fonts, entry.font.as_str()) {
                Some(f) => f,
                None => {
                    proof {
                        assert(!spec_run_decodable(
                            fonts@,
                            line_views(orig)[i as int][j as int],
                        ));
                        assert(spec_run_decode_error(
                            fonts@,
                            orig[i as int]@[j as int],
                            PageError::FontNotFound(entry.font),
                        ));
                    }
                    return Err(PageError::FontNotFound(entry.font.clone()));
                },
            };
            match crate::decode::decode_pdf_string(&font.map, font.subtype, &entry.text) {
                Ok(strings) => {
                    parsed.push((entry, strings));
                },
                Err(e) => {
                    proof {
                        assert(!spec_run_decodable(
                            fonts@,
                            line_views(orig)[i as int][j as int],
                        ));
                        assert(spec_run_decode_error(
                            fonts@,
                            orig[i as int]@[j as int],
                            PageError::Decode(e),
                        ));
                    }
                    return Err(PageError::Decode(e));
                },
            }
            j = j + 1;
        }
        out.push(parsed);
        i = i + 1;
    }
    proof {
        assert forall|p: int, q: int|
            0 <= p < line_views(orig).len() && 0 <= q < line_views(orig)[p].len()
                implies spec_run_decodable(fonts@, #[trigger] line_views(orig)[p][q]) by {
            assert(line_views(orig)[p] == orig[p]@);
            assert(spec_run_decodable(fonts@, orig[p]@[q]));
        }
    }
    Ok(out)
}

} // verus!
