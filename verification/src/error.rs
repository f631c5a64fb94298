//! The ways in which rewriting a document can fail.

use vstd::prelude::*;

verus! {

/// Why a document could not be rewritten. Every failure is final: the first
/// one met aborts the whole transformation.
#[derive(Clone, Copy, Debug, PartialEq, Eq, Structural)]
pub enum RewriteError {
    /// The header of a target block is not a mapping with the required
    /// fields, or its URL does not parse.
    MalformedHeader,
    /// The body of a target block does not contain the separator.
    MissingSeparator,
    /// A target block is not made of exactly one text run followed by the
    /// end of the block.
    UnexpectedStructure,
    /// The rewritten event stream could not be written back as markdown.
    Serialization,
}

impl RewriteError {
    /// The text that describes this failure.
    pub open spec fn message_text(self) -> Seq<char> {
        match self {
            RewriteError::MalformedHeader => "malformed header in a reading block"@,
            RewriteError::MissingSeparator => "a reading block has no `---` separator"@,
            RewriteError::UnexpectedStructure => "a reading block must hold exactly one run of text"@,
            RewriteError::Serialization => "the rewritten document cannot be written as markdown"@,
        }
    }

    /// A short description of the failure, for display to a user.
    pub fn message(&self) -> (text: &'static str)
        ensures
            text@ == self.message_text(),
    {
        match self {
            RewriteError::MalformedHeader => "malformed header in a reading block",
            RewriteError::MissingSeparator => "a reading block has no `---` separator",
            RewriteError::UnexpectedStructure => "a reading block must hold exactly one run of text",
            RewriteError::Serialization => "the rewritten document cannot be written as markdown",
        }
    }
}

} // verus!
