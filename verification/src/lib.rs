//! Extracts structured lexicographic entries from the drawing-instruction
//! streams of a typeset bilingual dictionary.
//!
//! The pipeline has five stages: a text-state machine that interprets a
//! page's drawing instructions into positioned text runs, a font resolver
//! that builds per-font code-to-text tables, a string decoder that maps a
//! run's raw bytes through such a table, a line assembler that groups runs
//! into visual lines and lines into raw entry strings, and an entry grammar
//! that parses each raw string into an `Entry` record.
//!
//! All geometry is carried as fixed-point integers in thousandths of a text
//! space unit; the caller converts the document's native numbers on the way
//! in.

pub mod corrections;
pub mod decode;
pub mod entry;
pub mod fixed;
pub mod font;
pub mod grammar;
pub mod lines;
pub mod operator;
pub mod strutil;
pub mod text_state;
pub mod walk;
