//! The failures that the tool reports.

use vstd::prelude::*;

verus! {

/// Why a key of the store could not be turned into a record.
#[derive(Debug, Clone, PartialEq, Eq)]
pub enum KeyFault {
    /// The key has no primary user id, or that user id lacks a name or an
    /// email address.
    MissingIdentity,
    /// The key has no creation time, or one of its times lies outside the
    /// range of the calendar.
    UnresolvableTimestamp,
    /// The identifier of the key is empty.
    EmptyIdentifier,
    /// An earlier key of the same enumeration has the same identifier.
    DuplicateIdentifier,
    /// The key store itself failed; the text is its own message.
    Store(String),
}

/// A failure of one of the tool's operations. Every failure is handed to the
/// immediate caller as it is: nothing is retried.
#[derive(Debug, Clone, PartialEq, Eq)]
pub enum Error {
    /// The selector was opened with no key to choose from.
    EmptyKeySet,
    /// The display loop ended and no entry had been confirmed.
    NoSelectionMade,
    /// The result slot could not be read after the display loop.
    SelectionUnavailable,
    /// The keys could not be enumerated.
    KeySourceFailure(KeyFault),
    /// The repository is not valid, or it refused a configuration entry;
    /// the text is the repository library's own message.
    ConfigWriteFailure(String),
}

/// The text that describes a key fault.
pub open spec fn fault_text(fault: KeyFault) -> Seq<char> {
    match fault {
        KeyFault::MissingIdentity => "Key has no primary identity"@,
        KeyFault::UnresolvableTimestamp => "Key has an unresolvable timestamp"@,
        KeyFault::EmptyIdentifier => "Key has an empty identifier"@,
        KeyFault::DuplicateIdentifier => "Key has the identifier of an earlier key"@,
        KeyFault::Store(text) => text@,
    }
}

/// The text that describes an error.
pub open spec fn error_text(error: Error) -> Seq<char> {
    match error {
        Error::EmptyKeySet => "No GPG keys available"@,
        Error::NoSelectionMade => "No user selected"@,
        Error::SelectionUnavailable => "Failed to access selected keys"@,
        Error::KeySourceFailure(fault) => fault_text(fault),
        Error::ConfigWriteFailure(text) => text@,
    }
}

impl KeyFault {
    /// The message shown to the operator for this fault.
    pub fn message(&self) -> (text: String)
        ensures
            text@ == fault_text(*self),
    {
        match self {
            KeyFault::MissingIdentity => String::from_str("Key has no primary identity"),
            KeyFault::UnresolvableTimestamp => String::from_str(
                "Key has an unresolvable timestamp",
            ),
            KeyFault::EmptyIdentifier => String::from_str("Key has an empty identifier"),
            KeyFault::DuplicateIdentifier => String::from_str(
                "Key has the identifier of an earlier key",
            ),
            KeyFault::Store(text) => text.clone(),
        }
    }
}

impl Error {
    /// The message shown to the operator for this error.
    pub fn message(&self) -> (text: String)
        ensures
            text@ == error_text(*self),
    {
        match self {
            Error::EmptyKeySet => String::from_str("No GPG keys available"),
            Error::NoSelectionMade => String::from_str("No user selected"),
            Error::SelectionUnavailable => String::from_str("Failed to access selected keys"),
            Error::KeySourceFailure(fault) => fault.message(),
            Error::ConfigWriteFailure(text) => text.clone(),
        }
    }
}

} // verus!
