//! Error types: the malformed-document error the checker returns, and the
//! read/parse error taxonomy the command-line front end reports.

use vstd::prelude::*;
use vstd::string::StringExecFns;

verus! {

/// A section of the document had the wrong shape: a dependency section that
/// is not a table, or a workspace list that is not an array of strings.
/// The parser's contract promises well-shaped sections, so this is treated
/// like a parse failure rather than a verdict.
#[derive(Debug, PartialEq, Eq)]
pub struct ShapeError;

/// Why the tool failed before it could reach a verdict, either because the
/// manifest could not be parsed, or because it could not be read at all.
#[derive(Debug, Clone, Copy, PartialEq, Eq)]
pub enum CommandErr {
    TomlError,
    IoError,
}

impl CommandErr {
    /// The one-line diagnostic for this failure.
    pub fn message(&self) -> (r: String)
        ensures
            *self is TomlError ==> r@ == "could not parse manifest"@,
            *self is IoError ==> r@ == "could not read manifest"@,
    {
        match self {
            CommandErr::TomlError => String::from_str("could not parse manifest"),
            CommandErr::IoError => String::from_str("could not read manifest"),
        }
    }
}

/// The two diagnostics are distinct: a parse failure is never reported in
/// the words of a read failure.
pub proof fn lemma_messages_distinct()
    ensures
        "could not parse manifest"@ != "could not read manifest"@,
{
    reveal_strlit("could not parse manifest");
    reveal_strlit("could not read manifest");
    assert("could not parse manifest"@[10] == 'p');
    assert("could not read manifest"@[10] == 'r');
}

} // verus!
