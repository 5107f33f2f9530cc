//! The two kinds of failure: errors of this library's own rules, and
//! I/O errors handed through unchanged.
use vstd::prelude::*;

verus! {

/// `std::io::Error`, carried through without being looked into.
#[verifier::external_type_specification]
#[verifier::external_body]
pub struct ExIoError(std::io::Error);

/// An error raised by validation or by the publishing protocol.
#[derive(Debug, Clone)]
pub struct FdkError {
    pub message: String,
    /// Diagnostic frames, in order; empty unless the failure site fills it.
    pub backtrace: Vec<String>,
}

impl FdkError {
    /// An error with the given message and an empty backtrace.
    pub fn new(message: &str) -> (r: Self)
        ensures
            r.message@ == message@,
            r.backtrace@.len() == 0,
    {
        FdkError { message: message.to_owned(), backtrace: Vec::new() }
    }
}

/// The outcome of a bootstrap step.
pub type RustFdkResult<T> = Result<T, RustFdkError>;

/// Any failure of the bootstrap.
#[derive(Debug)]
pub enum RustFdkError {
    Fdk(FdkError),
    Io(std::io::Error),
}

impl From<FdkError> for RustFdkError {
    fn from(err: FdkError) -> (r: Self)
        ensures
            r == RustFdkError::Fdk(err),
    {
        RustFdkError::Fdk(err)
    }
}

impl vstd::std_specs::convert::FromSpecImpl<FdkError> for RustFdkError {
    open spec fn obeys_from_spec() -> bool {
        true
    }

    open spec fn from_spec(err: FdkError) -> RustFdkError {
        RustFdkError::Fdk(err)
    }
}

impl From<std::io::Error> for RustFdkError {
    fn from(err: std::io::Error) -> (r: Self)
        ensures
            r == RustFdkError::Io(err),
    {
        RustFdkError::Io(err)
    }
}

impl vstd::std_specs::convert::FromSpecImpl<std::io::Error> for RustFdkError {
    open spec fn obeys_from_spec() -> bool {
        true
    }

    open spec fn from_spec(err: std::io::Error) -> RustFdkError {
        RustFdkError::Io(err)
    }
}

} // verus!
