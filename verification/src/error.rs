//! Failures of storage operations.

use crate::text::join;
use vstd::prelude::*;

verus! {

/// Why a storage operation failed.
#[derive(Debug, PartialEq, Eq)]
pub enum StorageError {
    /// The Spanner client reported this failure.
    Spanner(String),
    /// The client could not be configured.
    Configuration(String),
    /// The operation did not end within this many milliseconds.
    Timeout(u64),
}

pub type StorageResult<T> = Result<T, StorageError>;

/// The model of a `StorageError`.
pub enum StorageErrorView {
    Spanner(Seq<char>),
    Configuration(Seq<char>),
    Timeout(u64),
}

impl View for StorageError {
    type V = StorageErrorView;

    open spec fn view(&self) -> StorageErrorView {
        match self {
            StorageError::Spanner(message) => StorageErrorView::Spanner(message@),
            StorageError::Configuration(message) => StorageErrorView::Configuration(message@),
            StorageError::Timeout(millis) => StorageErrorView::Timeout(*millis),
        }
    }
}

/// How the `Debug` formatting of `std::time::Duration` writes a number of milliseconds.
pub uninterp spec fn millis_text(millis: u64) -> Seq<char>;

/// Calls the `Debug` formatting of `std::time::Duration` on a duration in milliseconds. The text
/// depends on the number alone. Its choice of unit and of decimals is left to the name
/// `millis_text`: it is not documented, and later versions of std may choose another.
#[verifier::external_body]
fn format_millis(millis: u64) -> (text: String)
    ensures
        text@ == millis_text(millis),
{
    format!("{:?}", std::time::Duration::from_millis(millis))
}

impl StorageErrorView {
    /// The message shown to operators.
    pub open spec fn message(self) -> Seq<char> {
        match self {
            StorageErrorView::Spanner(message) => "Spanner client error: "@ + message,
            StorageErrorView::Configuration(message) => "Configuration error: "@ + message,
            StorageErrorView::Timeout(millis) => "Spanner operation timed out after "@
                + millis_text(millis),
        }
    }
}

impl StorageError {
    /// The message shown to operators.
    pub fn to_string(&self) -> (text: String)
        ensures
            text@ == self@.message(),
    {
        match self {
            StorageError::Spanner(message) => join("Spanner client error: ", message.as_str()),
            StorageError::Configuration(message) => join("Configuration error: ", message.as_str()),
            StorageError::Timeout(millis) => timeout_message(format_millis(*millis).as_str()),
        }
    }
}

/// The message of a timeout, given how its duration is written.
pub fn timeout_message(duration: &str) -> (text: String)
    ensures
        text@ == "Spanner operation timed out after "@ + duration@,
{
    join("Spanner operation timed out after ", duration)
}

/// The model of a storage result.
pub open spec fn storage_result_view(result: StorageResult<()>) -> Result<(), StorageErrorView> {
    match result {
        Ok(()) => Ok(()),
        Err(error) => Err(error@),
    }
}

} // verus!
