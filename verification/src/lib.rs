//! A file-finding engine: a configured directory walk whose entries
//! run through a composed, short-circuiting predicate chain — hidden
//! filter, type filter, wildcard or regex name matching, size and
//! modification-age criteria — yielding the matching paths in
//! deterministic traversal order.
//!
//! The matching logic is verified: wildcard matching against its
//! recursive specification, the size and time grammars against their
//! parsers, and the predicate chain against the criteria it composes.
//! Directory traversal and regex compilation are the walkdir and
//! regex crates' work, behind a small trusted boundary.

pub mod finder;
pub mod name;
pub mod regex_match;
pub mod types;
pub mod walker;
