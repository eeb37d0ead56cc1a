//! Phonetic transliteration driven by a declarative grammar.
//!
//! A [`grammar::Grammar`] is a table of spelling patterns, each with a default
//! replacement and optional context-sensitive rules, plus four character
//! classes. A [`parser::PhoneticParser`] scans case-folded input from left to
//! right, always taking the longest pattern that matches at the cursor, and
//! puts out what the pattern's first applicable rule, or its default, says.
//!
//! - [`chars`]: characters, character classes, the order on spellings.
//! - [`grammar`]: the grammar, what makes it usable, and how it is refused.
//! - [`context`]: what a clause asks of the text around a chunk.
//! - [`lookup`]: the longest chunk at a cursor that is a spelling.
//! - [`parser`]: case folding, the scan, and what holds of every conversion.
//! - [`json`]: grammars written as JSON documents.
//! - [`avro`]: the Avro Phonetic grammar for Bengali, built in.
pub mod chars;
pub mod grammar;
pub mod context;
pub mod lookup;
pub mod parser;
pub mod json;
pub mod avro;
