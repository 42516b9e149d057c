//! The failures that the layer reports.

use vstd::prelude::*;

verus! {

/// Why an operation did not produce its object or effect.
#[derive(Debug, PartialEq, Eq)]
pub enum Error {
    /// The driver handed back the zero handle for a requested object.
    AllocationError,
    /// The driver rejected shader source; the payload is its diagnostic log.
    CompileError(String),
    /// The driver could not link a program; the payload is its diagnostic log.
    LinkError(String),
    /// The caller passed a value that the operation does not admit.
    InvalidArgument,
    /// Source text could not be read; the payload is the reader's message.
    IoError(String),
    /// An image could not be decoded; the payload is the decoder's message.
    LoadError(String),
}

/// The mathematical content of an [`Error`].
pub enum Failure {
    AllocationError,
    CompileError(Seq<char>),
    LinkError(Seq<char>),
    InvalidArgument,
    IoError(Seq<char>),
    LoadError(Seq<char>),
}

impl View for Error {
    type V = Failure;

    open spec fn view(&self) -> Failure {
        match self {
            Error::AllocationError => Failure::AllocationError,
            Error::CompileError(log) => Failure::CompileError(log@),
            Error::LinkError(log) => Failure::LinkError(log@),
            Error::InvalidArgument => Failure::InvalidArgument,
            Error::IoError(message) => Failure::IoError(message@),
            Error::LoadError(message) => Failure::LoadError(message@),
        }
    }
}

/// The mathematical content of a result: the value as it is, the error by its view.
pub open spec fn outcome<T>(result: Result<T, Error>) -> Result<T, Failure> {
    match result {
        Ok(value) => Ok(value),
        Err(error) => Err(error@),
    }
}

} // verus!
