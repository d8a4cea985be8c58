//! The error taxonomy shared by every processor and by the orchestration code.

use vstd::prelude::*;
use vstd::string::*;

verus! {

/// The class of a failure.
#[derive(Clone, Copy, Debug, PartialEq, Eq, Structural)]
pub enum ErrorKind {
    /// Malformed source data, such as a batch that cannot be decoded.
    InputError,
    /// An I/O failure while opening or reading a remote object.
    ResourceError,
    /// The source schema does not fit the target.
    SchemaError,
    /// An invariant was violated: a bug, fatal for the whole query.
    InternalError,
    /// Cooperative cancellation was observed.
    CancelledError,
}

/// A failure: its class and a human-readable message.
#[derive(Debug)]
pub struct ErrorCode {
    pub kind: ErrorKind,
    pub message: String,
}

/// The mathematical content of an [`ErrorCode`].
pub struct ErrorCodeView {
    pub kind: ErrorKind,
    pub message: Seq<char>,
}

impl View for ErrorCode {
    type V = ErrorCodeView;

    open spec fn view(&self) -> ErrorCodeView {
        ErrorCodeView { kind: self.kind, message: self.message@ }
    }
}

impl Clone for ErrorCode {
    fn clone(&self) -> (r: Self)
        ensures
            r == *self,
    {
        ErrorCode { kind: self.kind, message: self.message.clone() }
    }
}

impl ErrorCode {
    /// An error of class `kind` whose message is `message`.
    pub fn create(kind: ErrorKind, message: &str) -> (e: ErrorCode)
        ensures
            e.kind == kind,
            e.message@ == message@,
    {
        ErrorCode { kind, message: String::from_str(message) }
    }

    /// An error of class `kind` whose message is `prefix` followed by `detail`.
    pub fn with_detail(kind: ErrorKind, prefix: &str, detail: &str) -> (e: ErrorCode)
        ensures
            e.kind == kind,
            e.message@ == prefix@ + detail@,
    {
        let mut message = String::from_str(prefix);
        message.append(detail);
        ErrorCode { kind, message }
    }

    /// The class of this error.
    pub fn kind(&self) -> (k: ErrorKind)
        ensures
            k == self.kind,
    {
        self.kind
    }

    /// The message of this error.
    pub fn message(&self) -> (m: &str)
        ensures
            m@ == self.message@,
    {
        self.message.as_str()
    }

    /// Whether the error ends the query for good: only an internal error does,
    /// every other class may be retried by whoever submitted the query.
    pub fn is_fatal(&self) -> (fatal: bool)
        ensures
            fatal == (self.kind == ErrorKind::InternalError),
    {
        self.kind == ErrorKind::InternalError
    }
}

} // verus!
