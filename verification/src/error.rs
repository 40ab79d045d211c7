//! The failure taxonomy of expression lowering.
//!
//! Any failure aborts the whole lowering call immediately: no partial
//! intermediate representation is ever produced.

use vstd::prelude::*;

verus! {

/// An error raised while lowering an expression.
#[derive(Debug, Clone, PartialEq, Eq)]
pub enum ReadySetError {
    /// A builtin function was called with the wrong number of arguments.
    /// Carries the function name.
    ArityError(String),
    /// A call named a function that no supported builtin matches.
    NoSuchFunction(String),
    /// Valid syntax that is not implemented for the dialect or feature.
    Unsupported(String),
    /// A semantically impossible combination, such as a type-category
    /// mismatch or a malformed ANY/ALL expression.
    Invalid(String),
    /// An upstream contract violation: a construct that should have been
    /// removed before lowering reached it.
    Internal(String),
    /// A column reference that the lowering context could not resolve.
    NoSuchColumn(String),
}

/// Mathematical model of a [`ReadySetError`]: the same taxonomy with string
/// payloads abstracted to character sequences.
#[verifier::ext_equal]
pub enum ErrorV {
    ArityError(Seq<char>),
    NoSuchFunction(Seq<char>),
    Unsupported(Seq<char>),
    Invalid(Seq<char>),
    Internal(Seq<char>),
    NoSuchColumn(Seq<char>),
}

impl View for ReadySetError {
    type V = ErrorV;

    open spec fn view(&self) -> ErrorV {
        match self {
            ReadySetError::ArityError(s) => ErrorV::ArityError(s@),
            ReadySetError::NoSuchFunction(s) => ErrorV::NoSuchFunction(s@),
            ReadySetError::Unsupported(s) => ErrorV::Unsupported(s@),
            ReadySetError::Invalid(s) => ErrorV::Invalid(s@),
            ReadySetError::Internal(s) => ErrorV::Internal(s@),
            ReadySetError::NoSuchColumn(s) => ErrorV::NoSuchColumn(s@),
        }
    }
}

impl ReadySetError {
    /// Builds the arity error for the named function.
    pub fn arity_error(name: &str) -> (e: ReadySetError)
        ensures
            e@ == ErrorV::ArityError(name@),
    {
        ReadySetError::ArityError(String::from_str(name))
    }

    /// Builds the unknown-function error for the named function.
    pub fn no_such_function(name: &str) -> (e: ReadySetError)
        ensures
            e@ == ErrorV::NoSuchFunction(name@),
    {
        ReadySetError::NoSuchFunction(String::from_str(name))
    }

    /// Builds an unsupported-feature error with the given reason.
    pub fn unsupported(reason: &str) -> (e: ReadySetError)
        ensures
            e@ == ErrorV::Unsupported(reason@),
    {
        ReadySetError::Unsupported(String::from_str(reason))
    }

    /// Builds an invalid-combination error with the given reason.
    pub fn invalid(reason: &str) -> (e: ReadySetError)
        ensures
            e@ == ErrorV::Invalid(reason@),
    {
        ReadySetError::Invalid(String::from_str(reason))
    }

    /// Builds an internal error with the given reason.
    pub fn internal(reason: &str) -> (e: ReadySetError)
        ensures
            e@ == ErrorV::Internal(reason@),
    {
        ReadySetError::Internal(String::from_str(reason))
    }
}

} // verus!
