//! The ways in which a run of the translator can fail.

use vstd::prelude::*;

verus! {

/// Why a run stopped. Every failure is final: nothing is retried and no
/// partial document is produced.
#[derive(Debug, Clone, Copy, PartialEq, Eq, Structural)]
pub enum TranslationError {
    /// No input path was given on the command line.
    Usage,
    /// The input file could not be opened or read.
    Io,
    /// The input is not valid JSON, or lacks a field the genesis shape requires.
    Parse,
    /// An account carries neither `balance` nor `wei`.
    DataIntegrity,
    /// The operator's entry for the network identifier is not an unsigned integer.
    InputConversion,
    /// The finished document could not be encoded.
    Serialization,
}

impl TranslationError {
    /// The one-line description of each failure, as a sequence of characters.
    pub open spec fn message_text(self) -> Seq<char> {
        match self {
            TranslationError::Usage => "No file given."@,
            TranslationError::Io => "Could not read the file."@,
            TranslationError::Parse => "Invalid JSON file."@,
            TranslationError::DataIntegrity => "Each account has to have balance."@,
            TranslationError::InputConversion => "Could not parse the network identifier."@,
            TranslationError::Serialization => "Could not serialize."@,
        }
    }

    /// The one-line description shown to the operator when the run stops.
    pub fn message(&self) -> (text: String)
        ensures
            text@ == self.message_text(),
    {
        match self {
            TranslationError::Usage => "No file given.".to_owned(),
            TranslationError::Io => "Could not read the file.".to_owned(),
            TranslationError::Parse => "Invalid JSON file.".to_owned(),
            TranslationError::DataIntegrity => "Each account has to have balance.".to_owned(),
            TranslationError::InputConversion => "Could not parse the network identifier.".to_owned(),
            TranslationError::Serialization => "Could not serialize.".to_owned(),
        }
    }
}

} // verus!
