//! The ways a query can fail.

use vstd::prelude::*;

verus! {

/// `std::io::Error`, carried through unopened.
#[verifier::external_type_specification]
#[verifier::external_body]
pub struct ExIoError(std::io::Error);

/// Error
#[derive(Debug)]
pub enum Error {
    /// A stream to or from the terminal failed.
    Io { source: std::io::Error },
    /// The reply was malformed; the text says how.
    Parse(String),
    /// There is no interactive terminal, or one that never answers.
    Unsupported,
    /// The deadline passed with nothing usable received.
    Timeout,
}

/// An error as contracts see it: the variant, and for `Parse` the text.
pub ghost enum Failure {
    Io,
    Parse(Seq<char>),
    Unsupported,
    Timeout,
}

impl View for Error {
    type V = Failure;

    open spec fn view(&self) -> Failure {
        match self {
            Error::Io { .. } => Failure::Io,
            Error::Parse(detail) => Failure::Parse(detail@),
            Error::Unsupported => Failure::Unsupported,
            Error::Timeout => Failure::Timeout,
        }
    }
}

/// A result as contracts see it.
pub open spec fn outcome<T>(r: Result<T, Error>) -> Result<T, Failure> {
    match r {
        Ok(v) => Ok(v),
        Err(e) => Err(e@),
    }
}

impl Error {
    /// A short name of the variant.
    pub fn message(&self) -> (text: &'static str)
        ensures
            text@ == message_spec(self@),
    {
        match self {
            Error::Io { .. } => "io error",
            Error::Parse(_) => "parse error",
            Error::Unsupported => "unsupported",
            Error::Timeout => "timeout",
        }
    }
}

/// The short name of each variant.
pub open spec fn message_spec(f: Failure) -> Seq<char> {
    match f {
        Failure::Io => "io error"@,
        Failure::Parse(_) => "parse error"@,
        Failure::Unsupported => "unsupported"@,
        Failure::Timeout => "timeout"@,
    }
}

} // verus!
