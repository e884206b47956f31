//! The entry grammar: character classes, scanners, and the matcher.
//!
//! The grammar is deterministic and greedy: every repetition takes as many
//! characters as it can, and an optional or repeated element is taken
//! exactly when its first characters match, except that a whole list item
//! (a tag, an inflected form, a cross-reference) is taken only if it
//! matches completely. The spec functions of this module are the
//! grammar's definition; the executable matcher returns precisely what
//! they describe.

use vstd::prelude::*;

use crate::entry::{Entry, EntryV, NounCount, OtherForm, OtherFormV, Pos, SlashedFormV};
use crate::entry::{of_views, prons_views};
use crate::strutil::string_from_char_range;

verus! {

/// A headword character: the letters of the document's alphabet.
pub open spec fn is_word_char(c: char) -> bool {
    ||| ('a' <= c && c <= 'z')
    ||| ('A' <= c && c <= 'Z')
    ||| c == '\u{f8}'
    ||| c == '\u{e6}'
    ||| c == '\u{e5}'
    ||| c == '\u{d8}'
    ||| c == '\u{c6}'
    ||| c == '\u{c5}'
}

/// An extended headword character: the plain class plus the digit and
/// punctuation that appear inside headwords and inflected forms.
pub open spec fn is_ext_word_char(c: char) -> bool {
    ||| is_word_char(c)
    ||| c == '7'
    ||| c == '\u{e9}'
    ||| c == '-'
    ||| c == '.'
    ||| c == ','
    ||| c == '\u{2019}'
    ||| c == '('
    ||| c == ')'
    ||| c == '/'
    ||| c == '\u{ff1d}'
}

/// A phonetic-transcription character: standard phonetic letters plus the
/// code points the document's embedded phonetic font resolves to.
pub open spec fn is_pron_char(c: char) -> bool {
    ||| ('a' <= c && c <= 'z')
    ||| c == '\u{2019}'
    ||| c == '\u{e5}'
    ||| c == '\u{227}'
    ||| c == '\u{e4}'
    ||| c == '\u{e6}'
    ||| c == '\u{f6}'
    ||| c == '\u{f8}'
    ||| c == '\u{3b1}'
    ||| c == ':'
    ||| c == '\u{2c8}'
    ||| c == '\u{2cc}'
    ||| c == '\u{259}'
    ||| c == '\u{251}'
    ||| c == '\u{f0}'
    ||| c == '\u{14b}'
    ||| c == '\u{254}'
    ||| c == '\u{279}'
    ||| c == '\u{329}'
    ||| c == '\u{30a}'
    ||| c == '\u{308}'
    ||| c == '\u{1491}'
    ||| c == ';'
    ||| c == '\u{283}'
    ||| c == '('
    ||| c == ')'
    ||| c == '\u{f0d9}'
}

/// A phonetic-transcription element: the class above or a plain space,
/// which transcriptions may contain.
pub open spec fn is_pron_elem(c: char) -> bool {
    is_pron_char(c) || c == ' '
}

/// A whitespace character, as the grammar's optional-space elements accept
/// it: the Unicode whitespace set.
pub open spec fn is_space_char(c: char) -> bool {
    ||| c == ' '
    ||| c == '\t'
    ||| c == '\n'
    ||| c == '\u{b}'
    ||| c == '\u{c}'
    ||| c == '\r'
    ||| c == '\u{85}'
    ||| c == '\u{a0}'
    ||| c == '\u{1680}'
    ||| ('\u{2000}' <= c && c <= '\u{200a}')
    ||| c == '\u{2028}'
    ||| c == '\u{2029}'
    ||| c == '\u{202f}'
    ||| c == '\u{205f}'
    ||| c == '\u{3000}'
}

/// Tests membership in the headword class.
pub fn word_char(c: char) -> (r: bool)
    ensures
        r == is_word_char(c),
{
    ('a' <= c && c <= 'z') || ('A' <= c && c <= 'Z') || c == '\u{f8}' || c == '\u{e6}' || c
        == '\u{e5}' || c == '\u{d8}' || c == '\u{c6}' || c == '\u{c5}'
}

/// Tests membership in the extended headword class.
pub fn ext_word_char(c: char) -> (r: bool)
    ensures
        r == is_ext_word_char(c),
{
    word_char(c) || c == '7' || c == '\u{e9}' || c == '-' || c == '.' || c == ',' || c
        == '\u{2019}' || c == '(' || c == ')' || c == '/' || c == '\u{ff1d}'
}

/// Tests membership in the phonetic class.
pub fn pron_char(c: char) -> (r: bool)
    ensures
        r == is_pron_char(c),
{
    ('a' <= c && c <= 'z') || c == '\u{2019}' || c == '\u{e5}' || c == '\u{227}' || c == '\u{e4}'
        || c == '\u{e6}' || c == '\u{f6}' || c == '\u{f8}' || c == '\u{3b1}' || c == ':' || c
        == '\u{2c8}' || c == '\u{2cc}' || c == '\u{259}' || c == '\u{251}' || c == '\u{f0}' || c
        == '\u{14b}' || c == '\u{254}' || c == '\u{279}' || c == '\u{329}' || c == '\u{30a}' || c
        == '\u{308}' || c == '\u{1491}' || c == ';' || c == '\u{283}' || c == '(' || c == ')' || c
        == '\u{f0d9}'
}

/// Tests membership in the phonetic-element class.
pub fn pron_elem(c: char) -> (r: bool)
    ensures
        r == is_pron_elem(c),
{
    pron_char(c) || c == ' '
}

/// Tests membership in the whitespace class.
pub fn space_char(c: char) -> (r: bool)
    ensures
        r == is_space_char(c),
{
    c == ' ' || c == '\t' || c == '\n' || c == '\u{b}' || c == '\u{c}' || c == '\r' || c
        == '\u{85}' || c == '\u{a0}' || c == '\u{1680}' || ('\u{2000}' <= c && c <= '\u{200a}')
        || c == '\u{2028}' || c == '\u{2029}' || c == '\u{202f}' || c == '\u{205f}' || c
        == '\u{3000}'
}

/// The first position at or after `i` whose character is outside the
/// class, or the end of the text.
pub open spec fn spec_scan(p: spec_fn(char) -> bool, s: Seq<char>, i: int) -> int
    decreases s.len() - i,
{
    if 0 <= i < s.len() && p(s[i]) {
        spec_scan(p, s, i + 1)
    } else {
        i
    }
}

/// A scan never moves backwards, stays within the text, covers only class
/// characters, and stops at the end or at a non-class character.
pub proof fn lemma_scan(p: spec_fn(char) -> bool, s: Seq<char>, i: int)
    requires
        0 <= i <= s.len(),
    ensures
        i <= spec_scan(p, s, i) <= s.len(),
        forall|k: int| i <= k < spec_scan(p, s, i) ==> p(s[k]),
        spec_scan(p, s, i) < s.len() ==> !p(s[spec_scan(p, s, i)]),
    decreases s.len() - i,
{
    if i < s.len() && p(s[i]) {
        lemma_scan(p, s, i + 1);
    }
}

/// The headword class, as a value.
pub open spec fn word_class() -> spec_fn(char) -> bool {
    |c: char| is_word_char(c)
}

/// The extended headword class, as a value.
pub open spec fn ext_word_class() -> spec_fn(char) -> bool {
    |c: char| is_ext_word_char(c)
}

/// The phonetic-element class, as a value.
pub open spec fn pron_class() -> spec_fn(char) -> bool {
    |c: char| is_pron_elem(c)
}

/// The whitespace class, as a value.
pub open spec fn space_class() -> spec_fn(char) -> bool {
    |c: char| is_space_char(c)
}

/// Scans a run of headword characters.
pub fn scan_word(s: &Vec<char>, i: usize) -> (j: usize)
    requires
        i <= s@.len(),
    ensures
        j as int == spec_scan(word_class(), s@, i as int),
        i <= j <= s@.len(),
    decreases s@.len() - i,
{
    proof {
        lemma_scan(word_class(), s@, i as int);
    }
    if i < s.len() && word_char(s[i]) {
        scan_word(s, i + 1)
    } else {
        i
    }
}

/// Scans a run of extended headword characters.
pub fn scan_ext_word(s: &Vec<char>, i: usize) -> (j: usize)
    requires
        i <= s@.len(),
    ensures
        j as int == spec_scan(ext_word_class(), s@, i as int),
        i <= j <= s@.len(),
    decreases s@.len() - i,
{
    proof {
        lemma_scan(ext_word_class(), s@, i as int);
    }
    if i < s.len() && ext_word_char(s[i]) {
        scan_ext_word(s, i + 1)
    } else {
        i
    }
}

/// Scans a run of phonetic elements.
pub fn scan_pron(s: &Vec<char>, i: usize) -> (j: usize)
    requires
        i <= s@.len(),
    ensures
        j as int == spec_scan(pron_class(), s@, i as int),
        i <= j <= s@.len(),
    decreases s@.len() - i,
{
    proof {
        lemma_scan(pron_class(), s@, i as int);
    }
    if i < s.len() && pron_elem(s[i]) {
        scan_pron(s, i + 1)
    } else {
        i
    }
}

/// Scans a run of whitespace.
pub fn scan_space(s: &Vec<char>, i: usize) -> (j: usize)
    requires
        i <= s@.len(),
    ensures
        j as int == spec_scan(space_class(), s@, i as int),
        i <= j <= s@.len(),
    decreases s@.len() - i,
{
    proof {
        lemma_scan(space_class(), s@, i as int);
    }
    if i < s.len() && space_char(s[i]) {
        scan_space(s, i + 1)
    } else {
        i
    }
}

/// The end of a headword-shaped run starting at `i`: one or more class
/// runs joined by single spaces, greedily.
pub open spec fn spec_words_end(p: spec_fn(char) -> bool, s: Seq<char>, i: int) -> int
    decreases s.len() - i,
{
    let j = spec_scan(p, s, i);
    if j + 1 < s.len() && s[j] == ' ' && p(s[j + 1]) && j + 1 > i {
        spec_words_end(p, s, j + 1)
    } else {
        j
    }
}

/// A word run stays within the text and never moves backwards.
pub proof fn lemma_words_end(p: spec_fn(char) -> bool, s: Seq<char>, i: int)
    requires
        0 <= i <= s.len(),
    ensures
        i <= spec_words_end(p, s, i) <= s.len(),
    decreases s.len() - i,
{
    lemma_scan(p, s, i);
    let j = spec_scan(p, s, i);
    if j + 1 < s.len() && s[j] == ' ' && p(s[j + 1]) && j + 1 > i {
        lemma_words_end(p, s, j + 1);
    }
}

/// Scans a plain headword-shaped run.
pub fn words_end(s: &Vec<char>, i: usize) -> (j: usize)
    requires
        i <= s@.len(),
    ensures
        j as int == spec_words_end(word_class(), s@, i as int),
        i <= j <= s@.len(),
    decreases s@.len() - i,
{
    proof {
        lemma_words_end(word_class(), s@, i as int);
    }
    let j = scan_word(s, i);
    if j < s.len() && j + 1 < s.len() && s[j] == ' ' && word_char(s[j + 1]) && j + 1 > i {
        words_end(s, j + 1)
    } else {
        j
    }
}

/// Scans an extended headword-shaped run.
pub fn ext_words_end(s: &Vec<char>, i: usize) -> (j: usize)
    requires
        i <= s@.len(),
    ensures
        j as int == spec_words_end(ext_word_class(), s@, i as int),
        i <= j <= s@.len(),
    decreases s@.len() - i,
{
    proof {
        lemma_words_end(ext_word_class(), s@, i as int);
    }
    let j = scan_ext_word(s, i);
    if j < s.len() && j + 1 < s.len() && s[j] == ' ' && ext_word_char(s[j + 1]) && j + 1 > i {
        ext_words_end(s, j + 1)
    } else {
        j
    }
}

/// The end of a pronunciation list starting at `i`: a run of phonetic
/// elements, then further runs each introduced by a comma (plain or
/// full-width) and optional whitespace, greedily. The list ends before a
/// comma that no phonetic element follows.
pub open spec fn spec_pron_list_end(s: Seq<char>, i: int) -> int
    decreases s.len() - i,
{
    let j = spec_scan(pron_class(), s, i);
    if j < s.len() && (s[j] == ',' || s[j] == '\u{ff0c}') {
        let k = spec_scan(space_class(), s, j + 1);
        if k < s.len() && is_pron_elem(s[k]) && k > i {
            spec_pron_list_end(s, k)
        } else {
            j
        }
    } else {
        j
    }
}

/// A pronunciation list stays within the text and never moves backwards.
pub proof fn lemma_pron_list_end(s: Seq<char>, i: int)
    requires
        0 <= i <= s.len(),
    ensures
        i <= spec_pron_list_end(s, i) <= s.len(),
    decreases s.len() - i,
{
    lemma_scan(pron_class(), s, i);
    let j = spec_scan(pron_class(), s, i);
    if j < s.len() && (s[j] == ',' || s[j] == '\u{ff0c}') {
        lemma_scan(space_class(), s, j + 1);
        let k = spec_scan(space_class(), s, j + 1);
        if k < s.len() && is_pron_elem(s[k]) && k > i {
            lemma_pron_list_end(s, k);
        }
    }
}

/// Scans a pronunciation list.
pub fn pron_list_end(s: &Vec<char>, i: usize) -> (j: usize)
    requires
        i <= s@.len(),
    ensures
        j as int == spec_pron_list_end(s@, i as int),
        i <= j <= s@.len(),
    decreases s@.len() - i,
{
    proof {
        lemma_pron_list_end(s@, i as int);
    }
    let j = scan_pron(s, i);
    if j < s.len() && (s[j] == ',' || s[j] == '\u{ff0c}') {
        let k = scan_space(s, j + 1);
        if k < s.len() && pron_elem(s[k]) && k > i {
            pron_list_end(s, k)
        } else {
            j
        }
    } else {
        j
    }
}


/// Whether position `i` holds exactly the character `c`.
pub open spec fn spec_at(s: Seq<char>, i: int, c: char) -> bool {
    0 <= i < s.len() && s[i] == c
}

/// Tests one position for one character.
pub fn at(s: &Vec<char>, i: usize, c: char) -> (r: bool)
    ensures
        r == spec_at(s@, i as int, c),
        s@.len() <= usize::MAX,
{
    let n = s.len();
    i < n && s[i] == c
}

/// The first plain comma at or after `i` and before `to`, or `to`.
pub open spec fn spec_find_comma(s: Seq<char>, i: int, to: int) -> int
    decreases to - i,
{
    if i < to && 0 <= i < s.len() && s[i] != ',' {
        spec_find_comma(s, i + 1, to)
    } else {
        i
    }
}

/// A comma search stays within its window.
pub proof fn lemma_find_comma(s: Seq<char>, i: int, to: int)
    requires
        0 <= i <= to <= s.len(),
    ensures
        i <= spec_find_comma(s, i, to) <= to,
    decreases to - i,
{
    if i < to && s[i] != ',' {
        lemma_find_comma(s, i + 1, to);
    }
}

/// Finds the next plain comma in a window.
pub fn find_comma(s: &Vec<char>, i: usize, to: usize) -> (j: usize)
    requires
        i <= to <= s@.len(),
    ensures
        j as int == spec_find_comma(s@, i as int, to as int),
        i <= j <= to,
    decreases to - i,
{
    proof {
        lemma_find_comma(s@, i as int, to as int);
    }
    if i < to && s[i] != ',' {
        find_comma(s, i + 1, to)
    } else {
        i
    }
}

/// `t` with its leading and trailing whitespace removed.
pub open spec fn spec_trim(t: Seq<char>) -> Seq<char>
    decreases t.len(),
{
    if t.len() > 0 && is_space_char(t[0]) {
        spec_trim(t.drop_first())
    } else if t.len() > 0 && is_space_char(t.last()) {
        spec_trim(t.drop_last())
    } else {
        t
    }
}

/// The characters `s[from..to]`, trimmed of whitespace, as a string.
pub fn trimmed_string(s: &Vec<char>, from: usize, to: usize) -> (r: String)
    requires
        from <= to <= s@.len(),
    ensures
        r@ == spec_trim(s@.subrange(from as int, to as int)),
{
    let ghost torig = s@.subrange(from as int, to as int);
    let mut a = from;
    let mut b = to;
    while a < b && space_char(s[a])
        invariant
            from <= a <= b <= to <= s@.len(),
            spec_trim(torig) == spec_trim(s@.subrange(a as int, b as int)),
        decreases b - a,
    {
        proof {
            assert(s@.subrange(a as int, b as int).drop_first() =~= s@.subrange(a + 1, b as int));
        }
        a = a + 1;
    }
    while b > a && space_char(s[b - 1])
        invariant
            from <= a <= b <= to <= s@.len(),
            spec_trim(torig) == spec_trim(s@.subrange(a as int, b as int)),
            a < b ==> !is_space_char(s@[a as int]),
        decreases b - a,
    {
        proof {
            assert(s@.subrange(a as int, b as int).drop_last() =~= s@.subrange(a as int, b - 1));
        }
        b = b - 1;
    }
    proof {
        assert(spec_trim(s@.subrange(a as int, b as int)) == s@.subrange(a as int, b as int));
    }
    string_from_char_range(s, a, b)
}

/// The pieces of the window `s[i..to]` split on plain commas, each piece
/// trimmed of whitespace. Every piece counts, including empty ones.
pub open spec fn spec_split_pron(s: Seq<char>, i: int, to: int) -> Seq<Seq<char>>
    decreases to - i,
{
    let j = spec_find_comma(s, i, to);
    if i <= j < to {
        seq![spec_trim(s.subrange(i, j))] + spec_split_pron(s, j + 1, to)
    } else {
        seq![spec_trim(s.subrange(i, to))]
    }
}

/// Splits a captured pronunciation-list window into its trimmed pieces.
pub fn split_pron_list(s: &Vec<char>, i: usize, to: usize) -> (r: Vec<String>)
    requires
        i <= to <= s@.len(),
    ensures
        prons_views(r@) == spec_split_pron(s@, i as int, to as int),
    decreases to - i,
{
    let mut out: Vec<String> = Vec::new();
    split_pron_into(s, i, to, &mut out);
    proof {
        assert(prons_views(Seq::<String>::empty()) =~= Seq::<Seq<char>>::empty());
        assert(Seq::<Seq<char>>::empty() + spec_split_pron(s@, i as int, to as int)
            =~= spec_split_pron(s@, i as int, to as int));
    }
    out
}

fn split_pron_into(s: &Vec<char>, i: usize, to: usize, out: &mut Vec<String>)
    requires
        i <= to <= s@.len(),
    ensures
        prons_views(final(out)@) == prons_views(old(out)@) + spec_split_pron(
            s@,
            i as int,
            to as int,
        ),
    decreases to - i,
{
    let j = find_comma(s, i, to);
    if j < to {
        let piece = trimmed_string(s, i, j);
        let ghost before = out@;
        out.push(piece);
        proof {
            assert(prons_views(out@) =~= prons_views(before) + seq![
                spec_trim(s@.subrange(i as int, j as int)),
            ]);
        }
        split_pron_into(s, j + 1, to, out);
        proof {
            assert(prons_views(before) + seq![spec_trim(s@.subrange(i as int, j as int))]
                + spec_split_pron(s@, j + 1, to as int) =~= prons_views(before)
                + spec_split_pron(s@, i as int, to as int));
        }
    } else {
        let piece = trimmed_string(s, i, to);
        let ghost before = out@;
        out.push(piece);
        proof {
            assert(prons_views(out@) =~= prons_views(before) + spec_split_pron(
                s@,
                i as int,
                to as int,
            ));
        }
    }
}

/// A part-of-speech tag as the grammar reads it, before the invariance
/// marker is resolved.
#[derive(Debug, Clone, Copy, PartialEq, Eq, Structural)]
pub enum PosTag {
    Noun,
    NounSingle,
    NounMultiple,
    ProperNoun,
    Pronoun,
    Numeral,
    Adjective,
    AdjectiveInvariant,
    Verb,
    Adverb,
    Preposition,
    Conjunction,
    Interjection,
    InfinitiveMarker,
    Article,
    IndefiniteArticle,
    FormalSubject,
}

/// Whether position `i` holds a closing tag bracket, plain or full-width.
pub open spec fn spec_close_at(s: Seq<char>, i: int) -> bool {
    spec_at(s, i, ']') || spec_at(s, i, '\u{ff3d}')
}

fn close_at(s: &Vec<char>, i: usize) -> (r: bool)
    ensures
        r == spec_close_at(s@, i as int),
        s@.len() <= usize::MAX,
{
    at(s, i, ']') || at(s, i, '\u{ff3d}')
}

/// One bracketed part-of-speech tag at `i`: an opening bracket, one
/// abbreviation from the closed set, and a closing bracket; or the
/// special plain-bracket form declaring an invariant adjective.
pub open spec fn spec_pos_tag(s: Seq<char>, i: int) -> Option<(int, PosTag)> {
    if !(spec_at(s, i, '[') || spec_at(s, i, '\u{ff3b}')) {
        None
    } else {
        let a = i + 1;
        if spec_at(s, i, '[') && spec_at(s, a, '\u{5f62}') && spec_at(s, a + 1, ']') && ({
            let w = spec_scan(space_class(), s, a + 2);
            spec_at(s, w, '[') && spec_at(s, w + 1, '\u{7121}') && spec_at(s, w + 2, '\u{5909}')
                && spec_at(s, w + 3, '\u{5316}') && spec_at(s, w + 4, ']')
        }) {
            Some((spec_scan(space_class(), s, a + 2) + 5, PosTag::AdjectiveInvariant))
        } else if spec_at(s, a, '\u{540d}') {
            if spec_at(s, a + 1, '\u{30fb}') && spec_at(s, a + 2, '\u{5358}') && spec_close_at(
                s,
                a + 3,
            ) {
                Some((a + 4, PosTag::NounSingle))
            } else if spec_at(s, a + 1, '\u{30fb}') && spec_at(s, a + 2, '\u{8907}')
                && spec_close_at(s, a + 3) {
                Some((a + 4, PosTag::NounMultiple))
            } else if spec_close_at(s, a + 1) {
                Some((a + 2, PosTag::Noun))
            } else {
                None
            }
        } else if spec_at(s, a, '\u{56fa}') && spec_close_at(s, a + 1) {
            Some((a + 2, PosTag::ProperNoun))
        } else if spec_at(s, a, '\u{4ee3}') && spec_close_at(s, a + 1) {
            Some((a + 2, PosTag::Pronoun))
        } else if spec_at(s, a, '\u{6570}') && spec_close_at(s, a + 1) {
            Some((a + 2, PosTag::Numeral))
        } else if spec_at(s, a, '\u{5f62}') {
            if spec_at(s, a + 1, '\u{5f0f}') && spec_at(s, a + 2, '\u{4e3b}') && spec_at(
                s,
                a + 3,
                '\u{8a9e}',
            ) && spec_close_at(s, a + 4) {
                Some((a + 5, PosTag::FormalSubject))
            } else if spec_close_at(s, a + 1) {
                Some((a + 2, PosTag::Adjective))
            } else {
                None
            }
        } else if spec_at(s, a, '\u{52d5}') && spec_close_at(s, a + 1) {
            Some((a + 2, PosTag::Verb))
        } else if spec_at(s, a, '\u{526f}') && spec_close_at(s, a + 1) {
            Some((a + 2, PosTag::Adverb))
        } else if spec_at(s, a, '\u{524d}') && spec_close_at(s, a + 1) {
            Some((a + 2, PosTag::Preposition))
        } else if spec_at(s, a, '\u{63a5}') && spec_close_at(s, a + 1) {
            Some((a + 2, PosTag::Conjunction))
        } else if spec_at(s, a, '\u{9593}') && spec_close_at(s, a + 1) {
            Some((a + 2, PosTag::Interjection))
        } else if spec_at(s, a, '\u{4e0d}') && spec_at(s, a + 1, '\u{5b9a}') {
            if spec_at(s, a + 2, '\u{8a5e}') && spec_at(s, a + 3, '\u{30de}') && spec_at(
                s,
                a + 4,
                '\u{30fc}',
            ) && spec_at(s, a + 5, '\u{30ab}') && spec_at(s, a + 6, '\u{30fc}') && spec_close_at(
                s,
                a + 7,
            ) {
                Some((a + 8, PosTag::InfinitiveMarker))
            } else if spec_at(s, a + 2, '\u{51a0}') && spec_at(s, a + 3, '\u{8a5e}')
                && spec_close_at(s, a + 4) {
                Some((a + 5, PosTag::IndefiniteArticle))
            } else {
                None
            }
        } else if spec_at(s, a, '\u{51a0}') && spec_close_at(s, a + 1) {
            Some((a + 2, PosTag::Article))
        } else {
            None
        }
    }
}

/// Reads one bracketed part-of-speech tag.
pub fn pos_tag(s: &Vec<char>, i: usize) -> (r: Option<(usize, PosTag)>)
    requires
        i <= s@.len(),
    ensures
        match spec_pos_tag(s@, i as int) {
            Some((j, t)) => r matches Some(p) && p.0 as int == j && p.1 == t && i < p.0 <= s@.len(),
            None => r is None,
        },
{
    if !(at(s, i, '[') || at(s, i, '\u{ff3b}')) {
        return None;
    }
    let a = i + 1;
    if at(s, i, '[') && at(s, a, '\u{5f62}') && at(s, a + 1, ']') {
        let w = scan_space(s, a + 2);
        if at(s, w, '[') && at(s, w + 1, '\u{7121}') && at(s, w + 2, '\u{5909}') && at(
            s,
            w + 3,
            '\u{5316}',
        ) && at(s, w + 4, ']') {
            return Some((w + 5, PosTag::AdjectiveInvariant));
        }
    }
    if at(s, a, '\u{540d}') {
        if at(s, a + 1, '\u{30fb}') && at(s, a + 2, '\u{5358}') && close_at(s, a + 3) {
            Some((a + 4, PosTag::NounSingle))
        } else if at(s, a + 1, '\u{30fb}') && at(s, a + 2, '\u{8907}') && close_at(s, a + 3) {
            Some((a + 4, PosTag::NounMultiple))
        } else if close_at(s, a + 1) {
            Some((a + 2, PosTag::Noun))
        } else {
            None
        }
    } else if at(s, a, '\u{56fa}') && close_at(s, a + 1) {
        Some((a + 2, PosTag::ProperNoun))
    } else if at(s, a, '\u{4ee3}') && close_at(s, a + 1) {
        Some((a + 2, PosTag::Pronoun))
    } else if at(s, a, '\u{6570}') && close_at(s, a + 1) {
        Some((a + 2, PosTag::Numeral))
    } else if at(s, a, '\u{5f62}') {
        if at(s, a + 1, '\u{5f0f}') && at(s, a + 2, '\u{4e3b}') && at(s, a + 3, '\u{8a9e}')
            && close_at(s, a + 4) {
            Some((a + 5, PosTag::FormalSubject))
        } else if close_at(s, a + 1) {
            Some((a + 2, PosTag::Adjective))
        } else {
            None
        }
    } else if at(s, a, '\u{52d5}') && close_at(s, a + 1) {
        Some((a + 2, PosTag::Verb))
    } else if at(s, a, '\u{526f}') && close_at(s, a + 1) {
        Some((a + 2, PosTag::Adverb))
    } else if at(s, a, '\u{524d}') && close_at(s, a + 1) {
        Some((a + 2, PosTag::Preposition))
    } else if at(s, a, '\u{63a5}') && close_at(s, a + 1) {
        Some((a + 2, PosTag::Conjunction))
    } else if at(s, a, '\u{9593}') && close_at(s, a + 1) {
        Some((a + 2, PosTag::Interjection))
    } else if at(s, a, '\u{4e0d}') && at(s, a + 1, '\u{5b9a}') {
        if at(s, a + 2, '\u{8a5e}') && at(s, a + 3, '\u{30de}') && at(s, a + 4, '\u{30fc}') && at(
            s,
            a + 5,
            '\u{30ab}',
        ) && at(s, a + 6, '\u{30fc}') && close_at(s, a + 7) {
            Some((a + 8, PosTag::InfinitiveMarker))
        } else if at(s, a + 2, '\u{51a0}') && at(s, a + 3, '\u{8a5e}') && close_at(s, a + 4) {
            Some((a + 5, PosTag::IndefiniteArticle))
        } else {
            None
        }
    } else if at(s, a, '\u{51a0}') && close_at(s, a + 1) {
        Some((a + 2, PosTag::Article))
    } else {
        None
    }
}

/// The remaining tags of a comma-joined tag list after the first: each
/// one introduced by a comma (plain or full-width) and optional
/// whitespace. The list ends before a comma no tag follows.
pub open spec fn spec_pos_tags_more(s: Seq<char>, j: int) -> (int, Seq<PosTag>)
    decreases s.len() - j,
{
    if spec_at(s, j, ',') || spec_at(s, j, '\u{ff0c}') {
        let w = spec_scan(space_class(), s, j + 1);
        match spec_pos_tag(s, w) {
            Some((k, t)) => if k > j {
                let (e, rest) = spec_pos_tags_more(s, k);
                (e, seq![t] + rest)
            } else {
                (j, Seq::empty())
            },
            None => (j, Seq::empty()),
        }
    } else {
        (j, Seq::empty())
    }
}

/// A comma-joined list of bracketed tags: the first tag, then the rest.
pub open spec fn spec_pos_list(s: Seq<char>, i: int) -> Option<(int, Seq<PosTag>)> {
    match spec_pos_tag(s, i) {
        None => None,
        Some((j, t)) => {
            let (e, rest) = spec_pos_tags_more(s, j);
            Some((e, seq![t] + rest))
        },
    }
}

/// The end of a tag list never lies before its start.
pub proof fn lemma_pos_tags_more(s: Seq<char>, j: int)
    requires
        0 <= j <= s.len(),
    ensures
        j <= spec_pos_tags_more(s, j).0 <= s.len(),
    decreases s.len() - j,
{
    if spec_at(s, j, ',') || spec_at(s, j, '\u{ff0c}') {
        let w = spec_scan(space_class(), s, j + 1);
        lemma_scan(space_class(), s, j + 1);
        match spec_pos_tag(s, w) {
            Some((k, t)) => {
                if k > j {
                    if k <= s.len() {
                        lemma_pos_tags_more(s, k);
                    } else {
                        lemma_pos_tag_bounds(s, w);
                    }
                }
            },
            None => {},
        }
    }
}

/// A recognised tag ends after its start and within the text.
pub proof fn lemma_pos_tag_bounds(s: Seq<char>, i: int)
    requires
        spec_pos_tag(s, i) is Some,
    ensures
        i < (spec_pos_tag(s, i)->Some_0).0 <= s.len(),
{
    let a = i + 1;
    if spec_at(s, i, '[') && spec_at(s, a, '\u{5f62}') && spec_at(s, a + 1, ']') {
        lemma_scan(space_class(), s, a + 2);
    }
}

/// Reads the remaining tags of a tag list.
pub fn pos_tags_more(s: &Vec<char>, j: usize, out: &mut Vec<PosTag>) -> (e: usize)
    requires
        j <= s@.len(),
    ensures
        ({
            let (se, ts) = spec_pos_tags_more(s@, j as int);
            &&& e as int == se
            &&& final(out)@ == old(out)@ + ts
            &&& j <= e <= s@.len()
        }),
    decreases s@.len() - j,
{
    proof {
        lemma_pos_tags_more(s@, j as int);
    }
    if at(s, j, ',') || at(s, j, '\u{ff0c}') {
        let w = scan_space(s, j + 1);
        match pos_tag(s, w) {
            Some((k, t)) => {
                if k > j {
                    out.push(t);
                    let e = pos_tags_more(s, k, out);
                    proof {
                        let (se, ts) = spec_pos_tags_more(s@, j as int);
                        assert(final(out)@ =~= old(out)@ + ts);
                    }
                    e
                } else {
                    proof {
                        assert(final(out)@ =~= old(out)@ + Seq::<PosTag>::empty());
                    }
                    j
                }
            },
            None => {
                proof {
                    assert(final(out)@ =~= old(out)@ + Seq::<PosTag>::empty());
                }
                j
            },
        }
    } else {
        proof {
            assert(final(out)@ =~= old(out)@ + Seq::<PosTag>::empty());
        }
        j
    }
}

/// Reads a whole tag list, if one starts at `i`.
pub fn pos_list(s: &Vec<char>, i: usize) -> (r: Option<(usize, Vec<PosTag>)>)
    requires
        i <= s@.len(),
    ensures
        match spec_pos_list(s@, i as int) {
            None => r is None,
            Some((j, ts)) => r matches Some(p) && p.0 as int == j && p.1@ == ts && p.0 <= s@.len(),
        },
{
    match pos_tag(s, i) {
        None => None,
        Some((j, t)) => {
            let mut out: Vec<PosTag> = Vec::new();
            out.push(t);
            let e = pos_tags_more(s, j, &mut out);
            proof {
                let (se, ts) = spec_pos_tags_more(s@, j as int);
                assert(out@ =~= seq![t] + ts);
            }
            Some((e, out))
        },
    }
}


/// One slash-introduced cross-referenced form: a plain word, optional
/// whitespace, and a bracketed pronunciation list, with trailing
/// whitespace.
pub open spec fn spec_wp(s: Seq<char>, i: int) -> Option<(int, SlashedFormV)> {
    if 0 <= i < s.len() && is_word_char(s[i]) {
        let we = spec_words_end(word_class(), s, i);
        let b = spec_scan(space_class(), s, we);
        if spec_at(s, b, '[') && b + 1 < s.len() && is_pron_elem(s[b + 1]) {
            let ps = b + 1;
            let pe = spec_pron_list_end(s, ps);
            if spec_at(s, pe, ']') {
                Some(
                    (
                        spec_scan(space_class(), s, pe + 1),
                        SlashedFormV {
                            word: s.subrange(i, we),
                            pronunciations: spec_split_pron(s, ps, pe),
                        },
                    ),
                )
            } else {
                None
            }
        } else {
            None
        }
    } else {
        None
    }
}

/// A recognised cross-referenced form ends after its start and within the
/// text.
pub proof fn lemma_wp(s: Seq<char>, i: int)
    requires
        0 <= i <= s.len(),
        spec_wp(s, i) is Some,
    ensures
        i < (spec_wp(s, i)->Some_0).0 <= s.len(),
{
    lemma_words_end(word_class(), s, i);
    let we = spec_words_end(word_class(), s, i);
    lemma_scan(space_class(), s, we);
    let b = spec_scan(space_class(), s, we);
    lemma_pron_list_end(s, b + 1);
    let pe = spec_pron_list_end(s, b + 1);
    lemma_scan(space_class(), s, pe + 1);
}

/// Reads one cross-referenced form.
pub fn parse_wp(s: &Vec<char>, i: usize) -> (r: Option<(usize, OtherForm)>)
    requires
        i <= s@.len(),
    ensures
        match spec_wp(s@, i as int) {
            None => r is None,
            Some((j, fv)) => r matches Some(p) && {
                &&& p.0 as int == j
                &&& i < p.0 <= s@.len()
                &&& p.1.word@ == fv.word
                &&& prons_views(p.1.pronunciations@) == fv.pronunciations
                &&& p.1.slahsed@.len() == 0
            },
        },
{
    if i < s.len() && word_char(s[i]) {
        let we = words_end(s, i);
        let b = scan_space(s, we);
        if at(s, b, '[') && b + 1 < s.len() && pron_elem(s[b + 1]) {
            let ps = b + 1;
            let pe = pron_list_end(s, ps);
            if at(s, pe, ']') {
                proof {
                    lemma_wp(s@, i as int);
                }
                let e = scan_space(s, pe + 1);
                let word = string_from_char_range(s, i, we);
                let prons = split_pron_list(s, ps, pe);
                Some((e, OtherForm { word, pronunciations: prons, slahsed: Vec::new() }))
            } else {
                None
            }
        } else {
            None
        }
    } else {
        None
    }
}

/// Zero or more cross-referenced forms, each introduced by a slash.
pub open spec fn spec_wp_items(s: Seq<char>, i: int) -> (int, Seq<SlashedFormV>)
    decreases s.len() - i,
{
    if spec_at(s, i, '/') {
        match spec_wp(s, i + 1) {
            Some((j, f)) => if i < j <= s.len() {
                let (e, rest) = spec_wp_items(s, j);
                (e, seq![f] + rest)
            } else {
                (i, Seq::empty())
            },
            None => (i, Seq::empty()),
        }
    } else {
        (i, Seq::empty())
    }
}

/// A cross-reference list ends within the text, at or after its start.
pub proof fn lemma_wp_items(s: Seq<char>, i: int)
    requires
        0 <= i <= s.len(),
    ensures
        i <= spec_wp_items(s, i).0 <= s.len(),
    decreases s.len() - i,
{
    if spec_at(s, i, '/') {
        if spec_wp(s, i + 1) is Some {
            lemma_wp(s, i + 1);
            let (j, f) = spec_wp(s, i + 1)->Some_0;
            if i < j <= s.len() {
                lemma_wp_items(s, j);
            }
        }
    }
}

/// Reads a cross-reference list, appending the forms read.
pub fn parse_wp_items(s: &Vec<char>, i: usize, out: &mut Vec<OtherForm>) -> (e: usize)
    requires
        i <= s@.len(),
    ensures
        ({
            let (se, fs) = spec_wp_items(s@, i as int);
            &&& e as int == se
            &&& i <= e <= s@.len()
            &&& crate::entry::slashed_views(final(out)@) == crate::entry::slashed_views(old(out)@)
                + fs
            &&& final(out)@.len() >= old(out)@.len()
            &&& (forall|k: int|
                0 <= k < old(out)@.len() ==> final(out)@[k] == old(out)@[k])
            &&& (forall|k: int|
                old(out)@.len() <= k < final(out)@.len() ==> (#[trigger] final(out)@[k]).slahsed@.len() == 0)
        }),
    decreases s@.len() - i,
{
    proof {
        lemma_wp_items(s@, i as int);
    }
    if at(s, i, '/') {
        match parse_wp(s, i + 1) {
            Some((j, f)) => {
                let ghost mid = out@;
                out.push(f);
                proof {
                    assert(crate::entry::slashed_views(out@) =~= crate::entry::slashed_views(mid)
                        + seq![(spec_wp(s@, i + 1)->Some_0).1]);
                }
                let e = parse_wp_items(s, j, out);
                proof {
                    let (se, fs) = spec_wp_items(s@, i as int);
                    assert(crate::entry::slashed_views(final(out)@) =~= crate::entry::slashed_views(
                        old(out)@,
                    ) + fs);
                }
                e
            },
            None => {
                proof {
                    assert(crate::entry::slashed_views(out@) =~= crate::entry::slashed_views(out@)
                        + Seq::<SlashedFormV>::empty());
                }
                i
            },
        }
    } else {
        proof {
            assert(crate::entry::slashed_views(out@) =~= crate::entry::slashed_views(out@)
                + Seq::<SlashedFormV>::empty());
        }
        i
    }
}

/// One inflected form: a comma, optional whitespace, an optional leading
/// suffix marker, an extended word, an optional imperative mark,
/// whitespace, a bracketed pronunciation list, and zero or more
/// cross-referenced forms.
pub open spec fn spec_of_item(s: Seq<char>, i: int) -> Option<(int, OtherFormV)> {
    if spec_at(s, i, ',') {
        let k0 = spec_scan(space_class(), s, i + 1);
        let k = if spec_at(s, k0, '+') {
            k0 + 1
        } else {
            k0
        };
        if k < s.len() && is_ext_word_char(s[k]) {
            let we = spec_words_end(ext_word_class(), s, k);
            let w2 = if spec_at(s, we, '!') {
                we + 1
            } else {
                we
            };
            let b = spec_scan(space_class(), s, w2);
            if spec_at(s, b, '[') && b + 1 < s.len() && is_pron_elem(s[b + 1]) {
                let ps = b + 1;
                let pe = spec_pron_list_end(s, ps);
                if spec_at(s, pe, ']') {
                    let b2 = spec_scan(space_class(), s, pe + 1);
                    let (e, slashed) = spec_wp_items(s, b2);
                    Some(
                        (
                            e,
                            OtherFormV {
                                word: s.subrange(k, we),
                                pronunciations: spec_split_pron(s, ps, pe),
                                slahsed: slashed,
                            },
                        ),
                    )
                } else {
                    None
                }
            } else {
                None
            }
        } else {
            None
        }
    } else {
        None
    }
}

/// A recognised inflected form ends after its start and within the text.
pub proof fn lemma_of_item(s: Seq<char>, i: int)
    requires
        0 <= i <= s.len(),
        spec_of_item(s, i) is Some,
    ensures
        i < (spec_of_item(s, i)->Some_0).0 <= s.len(),
{
    lemma_scan(space_class(), s, i + 1);
    let k0 = spec_scan(space_class(), s, i + 1);
    let k = if spec_at(s, k0, '+') {
        k0 + 1
    } else {
        k0
    };
    lemma_words_end(ext_word_class(), s, k);
    let we = spec_words_end(ext_word_class(), s, k);
    let w2 = if spec_at(s, we, '!') {
        we + 1
    } else {
        we
    };
    lemma_scan(space_class(), s, w2);
    let b = spec_scan(space_class(), s, w2);
    lemma_pron_list_end(s, b + 1);
    let pe = spec_pron_list_end(s, b + 1);
    lemma_scan(space_class(), s, pe + 1);
    let b2 = spec_scan(space_class(), s, pe + 1);
    lemma_wp_items(s, b2);
}

/// Reads one inflected form.
pub fn parse_of_item(s: &Vec<char>, i: usize) -> (r: Option<(usize, OtherForm)>)
    requires
        i <= s@.len(),
    ensures
        match spec_of_item(s@, i as int) {
            None => r is None,
            Some((j, fv)) => r matches Some(p) && {
                &&& p.0 as int == j
                &&& i < p.0 <= s@.len()
                &&& p.1@ == fv
                &&& crate::entry::of_flat(p.1)
            },
        },
{
    if !at(s, i, ',') {
        return None;
    }
    let k0 = scan_space(s, i + 1);
    let k = if at(s, k0, '+') {
        k0 + 1
    } else {
        k0
    };
    if k < s.len() && ext_word_char(s[k]) {
        let we = ext_words_end(s, k);
        let w2 = if at(s, we, '!') {
            we + 1
        } else {
            we
        };
        let b = scan_space(s, w2);
        if at(s, b, '[') && b + 1 < s.len() && pron_elem(s[b + 1]) {
            let ps = b + 1;
            let pe = pron_list_end(s, ps);
            if at(s, pe, ']') {
                proof {
                    lemma_of_item(s@, i as int);
                }
                let b2 = scan_space(s, pe + 1);
                let word = string_from_char_range(s, k, we);
                let prons = split_pron_list(s, ps, pe);
                let mut slashed: Vec<OtherForm> = Vec::new();
                let e = parse_wp_items(s, b2, &mut slashed);
                let f = OtherForm { word, pronunciations: prons, slahsed: slashed };
                proof {
                    let fv = (spec_of_item(s@, i as int)->Some_0).1;
                    assert(crate::entry::slashed_views(Seq::<OtherForm>::empty())
                        =~= Seq::<SlashedFormV>::empty());
                    assert(crate::entry::slashed_views(f.slahsed@) =~= fv.slahsed);
                    assert(f@ == fv);
                }
                Some((e, f))
            } else {
                None
            }
        } else {
            None
        }
    } else {
        None
    }
}

/// Zero or more inflected forms.
pub open spec fn spec_of_items(s: Seq<char>, i: int) -> (int, Seq<OtherFormV>)
    decreases s.len() - i,
{
    match spec_of_item(s, i) {
        Some((j, f)) => if i < j <= s.len() {
            let (e, rest) = spec_of_items(s, j);
            (e, seq![f] + rest)
        } else {
            (i, Seq::empty())
        },
        None => (i, Seq::empty()),
    }
}

/// An inflected-form list ends within the text, at or after its start.
pub proof fn lemma_of_items(s: Seq<char>, i: int)
    requires
        0 <= i <= s.len(),
    ensures
        i <= spec_of_items(s, i).0 <= s.len(),
    decreases s.len() - i,
{
    if spec_of_item(s, i) is Some {
        lemma_of_item(s, i);
        let (j, f) = spec_of_item(s, i)->Some_0;
        if i < j <= s.len() {
            lemma_of_items(s, j);
        }
    }
}

/// Reads an inflected-form list, appending the forms read.
pub fn parse_of_items(s: &Vec<char>, i: usize, out: &mut Vec<OtherForm>) -> (e: usize)
    requires
        i <= s@.len(),
    ensures
        ({
            let (se, fs) = spec_of_items(s@, i as int);
            &&& e as int == se
            &&& i <= e <= s@.len()
            &&& of_views(final(out)@) == of_views(old(out)@) + fs
            &&& final(out)@.len() >= old(out)@.len()
            &&& (forall|k: int|
                0 <= k < old(out)@.len() ==> final(out)@[k] == old(out)@[k])
            &&& (forall|k: int|
                old(out)@.len() <= k < final(out)@.len() ==> crate::entry::of_flat(
                    #[trigger] final(out)@[k],
                ))
        }),
    decreases s@.len() - i,
{
    proof {
        lemma_of_items(s@, i as int);
    }
    match parse_of_item(s, i) {
        Some((j, f)) => {
            let ghost mid = out@;
            out.push(f);
            proof {
                assert(of_views(out@) =~= of_views(mid) + seq![
                    (spec_of_item(s@, i as int)->Some_0).1,
                ]);
            }
            let e = parse_of_items(s, j, out);
            proof {
                let (se, fs) = spec_of_items(s@, i as int);
                assert(of_views(final(out)@) =~= of_views(old(out)@) + fs);
            }
            e
        },
        None => {
            proof {
                assert(of_views(out@) =~= of_views(out@) + Seq::<OtherFormV>::empty());
            }
            i
        },
    }
}

/// The slash-joined plain words of an adjective form.
pub open spec fn spec_oaf_slashed(s: Seq<char>, i: int) -> (int, Seq<SlashedFormV>)
    decreases s.len() - i,
{
    if spec_at(s, i, '/') && i + 1 < s.len() && is_word_char(s[i + 1]) {
        let we = spec_words_end(word_class(), s, i + 1);
        if i < we <= s.len() {
            let (e, rest) = spec_oaf_slashed(s, we);
            (e, seq![SlashedFormV { word: s.subrange(i + 1, we), pronunciations: Seq::empty() }]
                + rest)
        } else {
            (i, Seq::empty())
        }
    } else {
        (i, Seq::empty())
    }
}

/// A slash-joined word list ends within the text, at or after its start.
pub proof fn lemma_oaf_slashed(s: Seq<char>, i: int)
    requires
        0 <= i <= s.len(),
    ensures
        i <= spec_oaf_slashed(s, i).0 <= s.len(),
    decreases s.len() - i,
{
    if spec_at(s, i, '/') && i + 1 < s.len() && is_word_char(s[i + 1]) {
        lemma_words_end(word_class(), s, i + 1);
        let we = spec_words_end(word_class(), s, i + 1);
        if i < we <= s.len() {
            lemma_oaf_slashed(s, we);
        }
    }
}

/// Reads a slash-joined word list, appending the words read as forms
/// without pronunciations.
pub fn parse_oaf_slashed(s: &Vec<char>, i: usize, out: &mut Vec<OtherForm>) -> (e: usize)
    requires
        i <= s@.len(),
    ensures
        ({
            let (se, fs) = spec_oaf_slashed(s@, i as int);
            &&& e as int == se
            &&& i <= e <= s@.len()
            &&& crate::entry::slashed_views(final(out)@) == crate::entry::slashed_views(old(out)@)
                + fs
            &&& final(out)@.len() >= old(out)@.len()
            &&& (forall|k: int|
                0 <= k < old(out)@.len() ==> final(out)@[k] == old(out)@[k])
            &&& (forall|k: int|
                old(out)@.len() <= k < final(out)@.len() ==> (#[trigger] final(out)@[k]).slahsed@.len() == 0)
        }),
    decreases s@.len() - i,
{
    proof {
        lemma_oaf_slashed(s@, i as int);
    }
    if at(s, i, '/') && i + 1 < s.len() && word_char(s[i + 1]) {
        let we = words_end(s, i + 1);
        if i < we && we <= s.len() {
            let word = string_from_char_range(s, i + 1, we);
            let f = OtherForm { word, pronunciations: Vec::new(), slahsed: Vec::new() };
            let ghost mid = out@;
            out.push(f);
            proof {
                assert(prons_views(Seq::<String>::empty()) =~= Seq::<Seq<char>>::empty());
                assert(crate::entry::slashed_views(out@) =~= crate::entry::slashed_views(mid)
                    + seq![
                    SlashedFormV {
                        word: s@.subrange(i + 1, we as int),
                        pronunciations: Seq::empty(),
                    },
                ]);
            }
            let e = parse_oaf_slashed(s, we, out);
            proof {
                let (se, fs) = spec_oaf_slashed(s@, i as int);
                assert(crate::entry::slashed_views(final(out)@) =~= crate::entry::slashed_views(
                    old(out)@,
                ) + fs);
            }
            e
        } else {
            proof {
                assert(crate::entry::slashed_views(out@) =~= crate::entry::slashed_views(out@)
                    + Seq::<SlashedFormV>::empty());
            }
            i
        }
    } else {
        proof {
            assert(crate::entry::slashed_views(out@) =~= crate::entry::slashed_views(out@)
                + Seq::<SlashedFormV>::empty());
        }
        i
    }
}

/// One adjective form: a comma, optional whitespace, a plain word, an
/// optional bracketed pronunciation list, zero or more slash-joined plain
/// words, and trailing whitespace.
pub open spec fn spec_oaf_item(s: Seq<char>, i: int) -> Option<(int, OtherFormV)> {
    if spec_at(s, i, ',') {
        let k = spec_scan(space_class(), s, i + 1);
        if k < s.len() && is_word_char(s[k]) {
            let we = spec_words_end(word_class(), s, k);
            let t = spec_scan(space_class(), s, we);
            let has_pron = spec_at(s, t, '[') && t + 1 < s.len() && is_pron_elem(s[t + 1])
                && spec_at(s, spec_pron_list_end(s, t + 1), ']');
            let after = if has_pron {
                spec_scan(space_class(), s, spec_pron_list_end(s, t + 1) + 1)
            } else {
                we
            };
            let prons = if has_pron {
                spec_split_pron(s, t + 1, spec_pron_list_end(s, t + 1))
            } else {
                Seq::empty()
            };
            let (e2, slashed) = spec_oaf_slashed(s, after);
            let e = spec_scan(space_class(), s, e2);
            Some(
                (
                    e,
                    OtherFormV { word: s.subrange(k, we), pronunciations: prons, slahsed: slashed },
                ),
            )
        } else {
            None
        }
    } else {
        None
    }
}

/// A recognised adjective form ends after its start and within the text.
pub proof fn lemma_oaf_item(s: Seq<char>, i: int)
    requires
        0 <= i <= s.len(),
        spec_oaf_item(s, i) is Some,
    ensures
        i < (spec_oaf_item(s, i)->Some_0).0 <= s.len(),
{
    lemma_scan(space_class(), s, i + 1);
    let k = spec_scan(space_class(), s, i + 1);
    lemma_words_end(word_class(), s, k);
    let we = spec_words_end(word_class(), s, k);
    lemma_scan(space_class(), s, we);
    let t = spec_scan(space_class(), s, we);
    let has_pron = spec_at(s, t, '[') && t + 1 < s.len() && is_pron_elem(s[t + 1]) && spec_at(
        s,
        spec_pron_list_end(s, t + 1),
        ']',
    );
    if has_pron {
        lemma_pron_list_end(s, t + 1);
        lemma_scan(space_class(), s, spec_pron_list_end(s, t + 1) + 1);
        let after = spec_scan(space_class(), s, spec_pron_list_end(s, t + 1) + 1);
        lemma_oaf_slashed(s, after);
        lemma_scan(space_class(), s, spec_oaf_slashed(s, after).0);
    } else {
        lemma_oaf_slashed(s, we);
        lemma_scan(space_class(), s, spec_oaf_slashed(s, we).0);
    }
}

/// Reads one adjective form.
pub fn parse_oaf_item(s: &Vec<char>, i: usize) -> (r: Option<(usize, OtherForm)>)
    requires
        i <= s@.len(),
    ensures
        match spec_oaf_item(s@, i as int) {
            None => r is None,
            Some((j, fv)) => r matches Some(p) && {
                &&& p.0 as int == j
                &&& i < p.0 <= s@.len()
                &&& p.1@ == fv
                &&& crate::entry::of_flat(p.1)
            },
        },
{
    if !at(s, i, ',') {
        return None;
    }
    let k = scan_space(s, i + 1);
    if k < s.len() && word_char(s[k]) {
        proof {
            lemma_oaf_item(s@, i as int);
        }
        let we = words_end(s, k);
        let t = scan_space(s, we);
        let has_pron = at(s, t, '[') && t + 1 < s.len() && pron_elem(s[t + 1]) && {
            let pe = pron_list_end(s, t + 1);
            at(s, pe, ']')
        };
        let after: usize;
        let prons: Vec<String>;
        if has_pron {
            let pe = pron_list_end(s, t + 1);
            after = scan_space(s, pe + 1);
            prons = split_pron_list(s, t + 1, pe);
        } else {
            after = we;
            prons = Vec::new();
            proof {
                assert(prons_views(Seq::<String>::empty()) =~= Seq::<Seq<char>>::empty());
            }
        }
        let word = string_from_char_range(s, k, we);
        let mut slashed: Vec<OtherForm> = Vec::new();
        let e2 = parse_oaf_slashed(s, after, &mut slashed);
        let e = scan_space(s, e2);
        let f = OtherForm { word, pronunciations: prons, slahsed: slashed };
        proof {
            let fv = (spec_oaf_item(s@, i as int)->Some_0).1;
            assert(crate::entry::slashed_views(Seq::<OtherForm>::empty())
                =~= Seq::<SlashedFormV>::empty());
            assert(crate::entry::slashed_views(f.slahsed@) =~= fv.slahsed);
            assert(f@ == fv);
        }
        Some((e, f))
    } else {
        None
    }
}

/// Zero or more adjective forms.
pub open spec fn spec_oaf_items(s: Seq<char>, i: int) -> (int, Seq<OtherFormV>)
    decreases s.len() - i,
{
    match spec_oaf_item(s, i) {
        Some((j, f)) => if i < j <= s.len() {
            let (e, rest) = spec_oaf_items(s, j);
            (e, seq![f] + rest)
        } else {
            (i, Seq::empty())
        },
        None => (i, Seq::empty()),
    }
}

/// An adjective-form list ends within the text, at or after its start.
pub proof fn lemma_oaf_items(s: Seq<char>, i: int)
    requires
        0 <= i <= s.len(),
    ensures
        i <= spec_oaf_items(s, i).0 <= s.len(),
    decreases s.len() - i,
{
    if spec_oaf_item(s, i) is Some {
        lemma_oaf_item(s, i);
        let (j, f) = spec_oaf_item(s, i)->Some_0;
        if i < j <= s.len() {
            lemma_oaf_items(s, j);
        }
    }
}

/// Reads an adjective-form list, appending the forms read.
pub fn parse_oaf_items(s: &Vec<char>, i: usize, out: &mut Vec<OtherForm>) -> (e: usize)
    requires
        i <= s@.len(),
    ensures
        ({
            let (se, fs) = spec_oaf_items(s@, i as int);
            &&& e as int == se
            &&& i <= e <= s@.len()
            &&& of_views(final(out)@) == of_views(old(out)@) + fs
            &&& final(out)@.len() >= old(out)@.len()
            &&& (forall|k: int|
                0 <= k < old(out)@.len() ==> final(out)@[k] == old(out)@[k])
            &&& (forall|k: int|
                old(out)@.len() <= k < final(out)@.len() ==> crate::entry::of_flat(
                    #[trigger] final(out)@[k],
                ))
        }),
    decreases s@.len() - i,
{
    proof {
        lemma_oaf_items(s@, i as int);
    }
    match parse_oaf_item(s, i) {
        Some((j, f)) => {
            let ghost mid = out@;
            out.push(f);
            proof {
                assert(of_views(out@) =~= of_views(mid) + seq![
                    (spec_oaf_item(s@, i as int)->Some_0).1,
                ]);
            }
            let e = parse_oaf_items(s, j, out);
            proof {
                let (se, fs) = spec_oaf_items(s@, i as int);
                assert(of_views(final(out)@) =~= of_views(old(out)@) + fs);
            }
            e
        },
        None => {
            proof {
                assert(of_views(out@) =~= of_views(out@) + Seq::<OtherFormV>::empty());
            }
            i
        },
    }
}

/// The part of speech a tag stands for, given whether the entry declares
/// an invariant adjective.
pub open spec fn spec_pos_of_tag(t: PosTag, inv: bool) -> Pos {
    match t {
        PosTag::Noun => Pos::Noun(None),
        PosTag::NounSingle => Pos::Noun(Some(NounCount::Single)),
        PosTag::NounMultiple => Pos::Noun(Some(NounCount::Multiple)),
        PosTag::ProperNoun => Pos::ProperNoun,
        PosTag::Pronoun => Pos::Pronoun,
        PosTag::Numeral => Pos::Numeral,
        PosTag::Adjective => Pos::Adjective(inv),
        PosTag::AdjectiveInvariant => Pos::Adjective(true),
        PosTag::Verb => Pos::Verb,
        PosTag::Adverb => Pos::Adverb,
        PosTag::Preposition => Pos::Preposition,
        PosTag::Conjunction => Pos::Conjunction,
        PosTag::Interjection => Pos::Interjection,
        PosTag::InfinitiveMarker => Pos::InfinitiveMarker,
        PosTag::Article => Pos::Article,
        PosTag::IndefiniteArticle => Pos::IndefiniteArticle,
        PosTag::FormalSubject => Pos::FormalSubject,
    }
}

/// The parts of speech a tag list stands for.
pub open spec fn spec_resolve_pos(tags: Seq<PosTag>, inv: bool) -> Seq<Pos> {
    tags.map_values(|t: PosTag| spec_pos_of_tag(t, inv))
}

/// Resolves a tag list against the invariant-adjective marker.
pub fn resolve_pos(tags: &Vec<PosTag>, inv: bool) -> (r: Vec<Pos>)
    ensures
        r@ == spec_resolve_pos(tags@, inv),
{
    let mut r: Vec<Pos> = Vec::new();
    let mut i: usize = 0;
    proof {
        assert(r@ =~= spec_resolve_pos(tags@.subrange(0, 0), inv));
    }
    while i < tags.len()
        invariant
            i <= tags@.len(),
            r@ == spec_resolve_pos(tags@.subrange(0, i as int), inv),
        decreases tags@.len() - i,
    {
        let p = match tags[i] {
            PosTag::Noun => Pos::Noun(None),
            PosTag::NounSingle => Pos::Noun(Some(NounCount::Single)),
            PosTag::NounMultiple => Pos::Noun(Some(NounCount::Multiple)),
            PosTag::ProperNoun => Pos::ProperNoun,
            PosTag::Pronoun => Pos::Pronoun,
            PosTag::Numeral => Pos::Numeral,
            PosTag::Adjective => Pos::Adjective(inv),
            PosTag::AdjectiveInvariant => Pos::Adjective(true),
            PosTag::Verb => Pos::Verb,
            PosTag::Adverb => Pos::Adverb,
            PosTag::Preposition => Pos::Preposition,
            PosTag::Conjunction => Pos::Conjunction,
            PosTag::Interjection => Pos::Interjection,
            PosTag::InfinitiveMarker => Pos::InfinitiveMarker,
            PosTag::Article => Pos::Article,
            PosTag::IndefiniteArticle => Pos::IndefiniteArticle,
            PosTag::FormalSubject => Pos::FormalSubject,
        };
        r.push(p);
        proof {
            assert(r@ =~= spec_resolve_pos(tags@.subrange(0, i + 1), inv));
        }
        i = i + 1;
    }
    proof {
        assert(tags@.subrange(0, tags@.len() as int) =~= tags@);
    }
    r
}

/// The whole entry pattern, anchored at the start: an optional leading
/// marker, the headword, an optional homograph digit, an optional tag
/// list, the mandatory bracketed pronunciation list, an optional
/// invariant-adjective marker, an optional bare "en", the inflected
/// forms, the adjective forms, an optional parenthetical "(en)", and the
/// terminating colon, plain or full-width. Anything after the colon is
/// ignored.
pub open spec fn spec_match_entry(s: Seq<char>) -> Option<EntryV> {
    let i0: int = if spec_at(s, 0, '+') {
        1
    } else {
        0
    };
    if i0 < s.len() && is_ext_word_char(s[i0]) {
        let we = spec_words_end(ext_word_class(), s, i0);
        let hk = spec_scan(space_class(), s, we);
        let i2: int = if hk < s.len() && '1' <= s[hk] && s[hk] <= '4' {
            hk + 1
        } else {
            we
        };
        let i3 = spec_scan(space_class(), s, i2);
        let pos_r = spec_pos_list(s, i3);
        let i4: int = match pos_r {
            Some((j, _)) => j,
            None => i3,
        };
        let tags: Seq<PosTag> = match pos_r {
            Some((_, ts)) => ts,
            None => Seq::empty(),
        };
        let i5 = spec_scan(space_class(), s, i4);
        if spec_at(s, i5, '[') && i5 + 1 < s.len() && is_pron_elem(s[i5 + 1]) {
            let ps = i5 + 1;
            let pe = spec_pron_list_end(s, ps);
            if spec_at(s, pe, ']') {
                let i6 = spec_scan(space_class(), s, pe + 1);
                let inv = (spec_at(s, i6, '[') || spec_at(s, i6, '\u{ff3b}')) && spec_at(
                    s,
                    i6 + 1,
                    '\u{4e0d}',
                ) && spec_at(s, i6 + 2, '\u{5909}') && spec_at(s, i6 + 3, '\u{5316}') && (spec_at(
                    s,
                    i6 + 4,
                    ']',
                ) || spec_at(s, i6 + 4, '\u{ff3d}'));
                let i7: int = if inv {
                    spec_scan(space_class(), s, i6 + 5)
                } else {
                    i6
                };
                let i8: int = if spec_at(s, i7, 'e') && spec_at(s, i7 + 1, 'n') {
                    spec_scan(space_class(), s, i7 + 2)
                } else {
                    i7
                };
                let (i9, ofs) = spec_of_items(s, i8);
                let (i10, oafs) = spec_oaf_items(s, i9);
                let i11: int = if spec_at(s, i10, '(') && spec_at(s, i10 + 1, 'e') && spec_at(
                    s,
                    i10 + 2,
                    'n',
                ) && spec_at(s, i10 + 3, ')') {
                    i10 + 4
                } else {
                    i10
                };
                if spec_at(s, i11, ':') || spec_at(s, i11, '\u{ff1a}') {
                    Some(
                        EntryV {
                            word: s.subrange(i0, we),
                            pos: spec_resolve_pos(tags, inv),
                            pronunciations: spec_split_pron(s, ps, pe),
                            other_forms: ofs,
                            other_adjective_forms: oafs,
                        },
                    )
                } else {
                    None
                }
            } else {
                None
            }
        } else {
            None
        }
    } else {
        None
    }
}

/// Matches one corrected entry string against the entry pattern and
/// builds its record.
#[verifier::rlimit(100)]
pub fn match_entry(s: &Vec<char>) -> (r: Option<Entry>)
    ensures
        match spec_match_entry(s@) {
            None => r is None,
            Some(ev) => r matches Some(e) && e@ == ev && (forall|k: int|
                0 <= k < e.other_forms@.len() ==> crate::entry::of_flat(
                    #[trigger] e.other_forms@[k],
                )) && (forall|k: int|
                0 <= k < e.other_adjective_forms@.len() ==> crate::entry::of_flat(
                    #[trigger] e.other_adjective_forms@[k],
                )),
        },
{
    let i0: usize = if at(s, 0, '+') {
        1
    } else {
        0
    };
    if i0 < s.len() && ext_word_char(s[i0]) {
        let we = ext_words_end(s, i0);
        let hk = scan_space(s, we);
        let i2: usize = if hk < s.len() && '1' <= s[hk] && s[hk] <= '4' {
            hk + 1
        } else {
            we
        };
        let i3 = scan_space(s, i2);
        let (i4, tags) = match pos_list(s, i3) {
            Some((j, ts)) => (j, ts),
            None => (i3, Vec::new()),
        };
        proof {
            if spec_pos_list(s@, i3 as int) is None {
                assert(tags@ =~= Seq::<PosTag>::empty());
            }
        }
        let i5 = scan_space(s, i4);
        if at(s, i5, '[') && i5 + 1 < s.len() && pron_elem(s[i5 + 1]) {
            let ps = i5 + 1;
            let pe = pron_list_end(s, ps);
            if at(s, pe, ']') {
                let i6 = scan_space(s, pe + 1);
                let inv = (at(s, i6, '[') || at(s, i6, '\u{ff3b}')) && at(s, i6 + 1, '\u{4e0d}')
                    && at(s, i6 + 2, '\u{5909}') && at(s, i6 + 3, '\u{5316}') && (at(
                    s,
                    i6 + 4,
                    ']',
                ) || at(s, i6 + 4, '\u{ff3d}'));
                let i7: usize = if inv {
                    scan_space(s, i6 + 5)
                } else {
                    i6
                };
                let i8: usize = if at(s, i7, 'e') && at(s, i7 + 1, 'n') {
                    scan_space(s, i7 + 2)
                } else {
                    i7
                };
                let mut ofs: Vec<OtherForm> = Vec::new();
                let i9 = parse_of_items(s, i8, &mut ofs);
                let mut oafs: Vec<OtherForm> = Vec::new();
                let i10 = parse_oaf_items(s, i9, &mut oafs);
                let i11: usize = if at(s, i10, '(') && at(s, i10 + 1, 'e') && at(s, i10 + 2, 'n')
                    && at(s, i10 + 3, ')') {
                    i10 + 4
                } else {
                    i10
                };
                if at(s, i11, ':') || at(s, i11, '\u{ff1a}') {
                    let word = string_from_char_range(s, i0, we);
                    let pos = resolve_pos(&tags, inv);
                    let pronunciations = split_pron_list(s, ps, pe);
                    let e = Entry {
                        word,
                        pos,
                        pronunciations,
                        other_forms: ofs,
                        other_adjective_forms: oafs,
                    };
                    proof {
                        let ev = spec_match_entry(s@)->Some_0;
                        assert(of_views(Seq::<OtherForm>::empty()) =~= Seq::<OtherFormV>::empty());
                        assert(of_views(e.other_forms@) =~= ev.other_forms);
                        assert(of_views(e.other_adjective_forms@) =~= ev.other_adjective_forms);
                        assert(e@ == ev);
                    }
                    Some(e)
                } else {
                    None
                }
            } else {
                None
            }
        } else {
            None
        }
    } else {
        None
    }
}

} // verus!
