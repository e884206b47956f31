//! The structured entry record and the dictionary-level parse driver.
//!
//! A raw entry string is first passed through the correction table, then
//! matched against the entry grammar. A corrected string that fails the
//! grammar but holds exactly one cross-reference arrow is a
//! cross-reference alias and is skipped silently; any other failure is a
//! grammar mismatch carrying the offending text.

use vstd::prelude::*;

use crate::corrections::{patch, spec_patch};
use crate::grammar::{match_entry, spec_match_entry, spec_split_pron};
use crate::strutil::chars_of;

verus! {

/// A part-of-speech tag, as the closed set the grammar accepts.
#[derive(Debug, Clone, Copy, PartialEq, Eq)]
pub enum Pos {
    Noun(Option<NounCount>),
    ProperNoun,
    Pronoun,
    Numeral,
    Adjective(bool),
    Verb,
    Adverb,
    Preposition,
    Conjunction,
    Interjection,
    InfinitiveMarker,
    Article,
    IndefiniteArticle,
    FormalSubject,
}

/// The number of a noun, where the tag declares one.
#[derive(Debug, Clone, Copy, PartialEq, Eq, Structural)]
pub enum NounCount {
    Single,
    Multiple,
}

/// An inflected or alternate form of the headword, with its
/// pronunciations and any slash-introduced cross-referenced forms.
#[derive(Debug, PartialEq)]
pub struct OtherForm {
    pub word: String,
    pub pronunciations: Vec<String>,
    pub slahsed: Vec<OtherForm>,
}

/// One structured dictionary entry.
#[derive(Debug, PartialEq)]
pub struct Entry {
    pub word: String,
    pub pos: Vec<Pos>,
    pub pronunciations: Vec<String>,
    pub other_forms: Vec<OtherForm>,
    pub other_adjective_forms: Vec<OtherForm>,
}

/// The contents of a pronunciation list.
pub open spec fn prons_views(ss: Seq<String>) -> Seq<Seq<char>> {
    ss.map_values(|p: String| p@)
}

/// The mathematical content of a cross-referenced form: its word and its
/// pronunciations. A cross-referenced form carries no further references.
pub ghost struct SlashedFormV {
    pub word: Seq<char>,
    pub pronunciations: Seq<Seq<char>>,
}

/// The mathematical content of an inflected or alternate form.
pub ghost struct OtherFormV {
    pub word: Seq<char>,
    pub pronunciations: Seq<Seq<char>>,
    pub slahsed: Seq<SlashedFormV>,
}

/// The mathematical content of an entry.
pub ghost struct EntryV {
    pub word: Seq<char>,
    pub pos: Seq<Pos>,
    pub pronunciations: Seq<Seq<char>>,
    pub other_forms: Seq<OtherFormV>,
    pub other_adjective_forms: Seq<OtherFormV>,
}

/// The cross-reference content of a list of forms: each form's word and
/// pronunciations. Any deeper references a form might carry are outside
/// this view; the grammar never produces them.
pub open spec fn slashed_views(fs: Seq<OtherForm>) -> Seq<SlashedFormV> {
    fs.map_values(
        |f: OtherForm| SlashedFormV { word: f.word@, pronunciations: prons_views(f.pronunciations@) },
    )
}

/// Whether a form's cross-references carry no references of their own.
pub open spec fn of_flat(f: OtherForm) -> bool {
    forall|k: int| 0 <= k < f.slahsed@.len() ==> (#[trigger] f.slahsed@[k]).slahsed@.len() == 0
}

impl View for OtherForm {
    type V = OtherFormV;

    open spec fn view(&self) -> OtherFormV {
        OtherFormV {
            word: self.word@,
            pronunciations: prons_views(self.pronunciations@),
            slahsed: slashed_views(self.slahsed@),
        }
    }
}

/// The contents of a list of forms.
pub open spec fn of_views(fs: Seq<OtherForm>) -> Seq<OtherFormV> {
    fs.map_values(|f: OtherForm| f@)
}

impl View for Entry {
    type V = EntryV;

    open spec fn view(&self) -> EntryV {
        EntryV {
            word: self.word@,
            pos: self.pos@,
            pronunciations: prons_views(self.pronunciations@),
            other_forms: of_views(self.other_forms@),
            other_adjective_forms: of_views(self.other_adjective_forms@),
        }
    }
}

/// A corrected entry string that neither matches the grammar nor is a
/// cross-reference alias; carries the raw text.
#[derive(Debug, Clone, PartialEq)]
pub struct EntryGrammarMismatchError {
    pub text: String,
}

/// Splits a captured pronunciation-list text on plain commas and trims
/// each piece.
pub fn parse_pronuncitation_list(s: &str) -> (r: Vec<String>)
    ensures
        prons_views(r@) == spec_split_pron(s@, 0, s@.len() as int),
{
    let cs = chars_of(s);
    crate::grammar::split_pron_list(&cs, 0, cs.len())
}

/// The number of cross-reference arrow characters in a text.
pub open spec fn spec_arrow_count(s: Seq<char>) -> int
    decreases s.len(),
{
    if s.len() == 0 {
        0
    } else {
        spec_arrow_count(s.drop_last()) + if s.last() == '\u{2192}' {
            1int
        } else {
            0int
        }
    }
}

/// Counts the cross-reference arrows in a text.
pub fn arrow_count(s: &Vec<char>) -> (r: usize)
    ensures
        r as int == spec_arrow_count(s@),
        r <= s@.len(),
{
    let mut n: usize = 0;
    let mut i: usize = 0;
    proof {
        assert(s@.subrange(0, 0) =~= Seq::<char>::empty());
    }
    while i < s.len()
        invariant
            i <= s@.len(),
            n <= i,
            n as int == spec_arrow_count(s@.subrange(0, i as int)),
        decreases s@.len() - i,
    {
        if s[i] == '\u{2192}' {
            n = n + 1;
        }
        proof {
            assert(s@.subrange(0, i + 1).drop_last() =~= s@.subrange(0, i as int));
            assert(s@.subrange(0, i + 1).last() == s@[i as int]);
        }
        i = i + 1;
    }
    proof {
        assert(s@.subrange(0, i as int) =~= s@);
    }
    n
}

/// What handling one raw entry string yields: a structured entry, a
/// silent skip, or a mismatch error.
pub open spec fn spec_parse_entry_line(word: Seq<char>) -> Result<
    Option<EntryV>,
    Seq<char>,
> {
    match spec_match_entry(spec_patch(word)) {
        Some(ev) => Ok(Some(ev)),
        None => if spec_arrow_count(word) == 1 {
            Ok(None)
        } else {
            Err(word)
        },
    }
}

/// Handles one raw entry string: corrects it, matches it against the
/// grammar, and either produces the entry, skips a cross-reference alias
/// (a non-matching string with exactly one arrow), or fails with the raw
/// text.
pub fn parse_entry_line(word: &str) -> (r: Result<Option<Entry>, EntryGrammarMismatchError>)
    ensures
        match spec_parse_entry_line(word@) {
            Ok(Some(ev)) => r is Ok && (r->Ok_0 matches Some(e) && e@ == ev),
            Ok(None) => r == Ok::<Option<Entry>, EntryGrammarMismatchError>(None),
            Err(t) => r is Err && r->Err_0.text@ == t,
        },
{
    let corrected = patch(word);
    let cs = chars_of(corrected);
    match match_entry(&cs) {
        Some(e) => Ok(Some(e)),
        None => {
            let raw = chars_of(word);
            if arrow_count(&raw) == 1 {
                Ok(None)
            } else {
                Err(EntryGrammarMismatchError { text: word.to_owned() })
            }
        },
    }
}

/// What parsing a whole list of raw entry strings yields: the entries of
/// the strings handled before the first failure, and the failing text if
/// one occurred.
pub open spec fn spec_parse_dictionary(words: Seq<Seq<char>>) -> (
    Seq<EntryV>,
    Option<Seq<char>>,
)
    decreases words.len(),
{
    if words.len() == 0 {
        (Seq::empty(), None)
    } else {
        match spec_parse_entry_line(words[0]) {
            Err(t) => (Seq::empty(), Some(t)),
            Ok(head) => {
                let (rest, err) = spec_parse_dictionary(words.drop_first());
                match head {
                    Some(ev) => (seq![ev] + rest, err),
                    None => (rest, err),
                }
            },
        }
    }
}

/// The contents of a list of entries.
pub open spec fn entry_record_views(es: Seq<Entry>) -> Seq<EntryV> {
    es.map_values(|e: Entry| e@)
}

/// Parses every raw entry string in order, skipping cross-reference
/// aliases, and fails on the first string that neither matches nor is an
/// alias.
#[verifier::loop_isolation(false)]
pub fn parse_dictionary(words: &Vec<String>) -> (r: Result<Vec<Entry>, EntryGrammarMismatchError>)
    ensures
        ({
            let (es, err) = spec_parse_dictionary(words@.map_values(|w: String| w@));
            match err {
                None => r is Ok && entry_record_views(r->Ok_0@) == es,
                Some(t) => r is Err && r->Err_0.text@ == t,
            }
        }),
{
    let ghost ws = words@.map_values(|w: String| w@);
    let mut out: Vec<Entry> = Vec::new();
    let mut i: usize = 0;
    proof {
        assert(entry_record_views(out@) =~= Seq::<EntryV>::empty());
        assert(ws.subrange(0, ws.len() as int) =~= ws);
    }
    while i < words.len()
        invariant
            i <= words.len(),
            spec_parse_dictionary(ws) == ({
                let (rest, err) = spec_parse_dictionary(ws.subrange(i as int, ws.len() as int));
                (entry_record_views(out@) + rest, err)
            }),
        decreases words.len() - i,
    {
        let ghost sub = ws.subrange(i as int, ws.len() as int);
        proof {
            assert(sub[0] == ws[i as int]);
            assert(sub.drop_first() =~= ws.subrange(i + 1, ws.len() as int));
        }
        match parse_entry_line(words[i].as_str()) {
            Ok(Some(e)) => {
                out.push(e);
                proof {
                    let prev = entry_record_views(out@.drop_last());
                    assert(entry_record_views(out@) =~= prev.push(out@.last()@));
                    assert(entry_record_views(out@) =~= prev + seq![out@.last()@]);
                }
            },
            Ok(None) => {},
            Err(e) => {
                return Err(e);
            },
        }
        i = i + 1;
    }
    proof {
        assert(ws.subrange(i as int, ws.len() as int) =~= Seq::<Seq<char>>::empty());
        assert(entry_record_views(out@) + Seq::<EntryV>::empty() =~= entry_record_views(out@));
    }
    Ok(out)
}

} // verus!
