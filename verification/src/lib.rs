//! Checks that a package manifest's dependency tables and workspace
//! member/exclude lists are lexicographically sorted.
//!
//! The checker works on an already-parsed document tree plus the raw file
//! text; reading and parsing the file are left to the caller.

pub mod checker;
pub mod document;
pub mod error;
pub mod text;
