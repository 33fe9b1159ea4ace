//! Failures of a port.
use vstd::prelude::*;

verus! {

/// What sort of failure an error stands for.
#[derive(Debug, Clone, Copy, PartialEq, Eq, Structural)]
pub enum ErrorKind {
    /// A setting that no port can take.
    InvalidInput,
    /// The kind that the system gives to this error code.
    OfCode(i32),
    /// None of the others.
    Other,
}

/// A failure of a port.
#[derive(Debug, PartialEq, Eq)]
pub enum PortError {
    /// The system refused a call with this error code.
    Os(i32),
    /// A failure in words.
    Message { kind: ErrorKind, text: String },
    /// The port woke the receive pump for something other than data.
    UnexpectedReadEvents,
    /// Waiting for an overlapped transfer ended in a way that has no meaning here.
    UnexpectedWaitResult,
}

impl PortError {
    /// The error is made of this kind and this text.
    pub open spec fn says(self, kind: ErrorKind, text: Seq<char>) -> bool {
        match self {
            PortError::Message { kind: k, text: t } => k == kind && t@ == text,
            _ => false,
        }
    }

    /// The kind of the error.
    pub open spec fn spec_kind(self) -> ErrorKind {
        match self {
            PortError::Os(code) => ErrorKind::OfCode(code),
            PortError::Message { kind, .. } => kind,
            PortError::UnexpectedReadEvents => ErrorKind::Other,
            PortError::UnexpectedWaitResult => ErrorKind::Other,
        }
    }

    /// The words of the error; those of a system error code are the system's.
    pub open spec fn spec_message(self) -> Option<Seq<char>> {
        match self {
            PortError::Os(_) => None,
            PortError::Message { text, .. } => Some(text@),
            PortError::UnexpectedReadEvents => Some("read fd events != POLLIN"@),
            PortError::UnexpectedWaitResult => Some("unexpected WaitForSingleObjectEx result"@),
        }
    }

    /// The kind of the error.
    pub fn kind(&self) -> (r: ErrorKind)
        ensures
            r == self.spec_kind(),
    {
        match self {
            PortError::Os(code) => ErrorKind::OfCode(*code),
            PortError::Message { kind, .. } => *kind,
            PortError::UnexpectedReadEvents => ErrorKind::Other,
            PortError::UnexpectedWaitResult => ErrorKind::Other,
        }
    }

    /// The system's error code, where the error came from the system as it is.
    pub fn raw_os_error(&self) -> (r: Option<i32>)
        ensures
            r == (match *self {
                PortError::Os(code) => Some(code),
                _ => None::<i32>,
            }),
    {
        match self {
            PortError::Os(code) => Some(*code),
            _ => None,
        }
    }

    /// The words of the error, or nothing for a system error code.
    pub fn message(&self) -> (r: Option<&str>)
        ensures
            r is Some <==> self.spec_message() is Some,
            r matches Some(text) ==> self.spec_message() == Some(text@),
    {
        match self {
            PortError::Os(_) => None,
            PortError::Message { text, .. } => Some(text.as_str()),
            PortError::UnexpectedReadEvents => Some("read fd events != POLLIN"),
            PortError::UnexpectedWaitResult => Some("unexpected WaitForSingleObjectEx result"),
        }
    }
}

/// Makes an error of kind [`ErrorKind::InvalidInput`] out of its words.
pub(crate) fn invalid_input(msg: String) -> (r: PortError)
    ensures
        r.says(ErrorKind::InvalidInput, msg@),
{
    PortError::Message { kind: ErrorKind::InvalidInput, text: msg }
}

/// A second copy of an error: same system error code, same kind, same words.
pub fn clone_io_error(err: &PortError) -> (r: PortError)
    ensures
        r == *err,
{
    match err {
        PortError::Os(code) => PortError::Os(*code),
        PortError::Message { kind, text } => PortError::Message { kind: *kind, text: text.clone() },
        PortError::UnexpectedReadEvents => PortError::UnexpectedReadEvents,
        PortError::UnexpectedWaitResult => PortError::UnexpectedWaitResult,
    }
}

/// An error that is said to be made of a kind and a text has that kind and those words, and no
/// code of its own.
pub proof fn law_words_tell_kind_and_text(e: PortError, kind: ErrorKind, text: Seq<char>)
    requires
        e.says(kind, text),
    ensures
        e.spec_kind() == kind,
        e.spec_message() == Some(text),
        !(e is Os),
{
}

/// A code of the system is all that there is to a system error: the kind is that of the code, the
/// words are the system's. What the library itself found wrong has words and no special kind.
pub proof fn law_codes_are_kept(code: i32)
    ensures
        PortError::Os(code).spec_kind() == ErrorKind::OfCode(code),
        PortError::Os(code).spec_message() is None,
        PortError::UnexpectedReadEvents.spec_kind() == ErrorKind::Other,
        PortError::UnexpectedReadEvents.spec_message() == Some("read fd events != POLLIN"@),
        PortError::UnexpectedWaitResult.spec_kind() == ErrorKind::Other,
        PortError::UnexpectedWaitResult.spec_message() == Some(
            "unexpected WaitForSingleObjectEx result"@,
        ),
{
}

/// A copy of an error cannot be told from it: not by its code, its kind or its words.
pub proof fn law_copies_are_equal(err: PortError, r: PortError)
    requires
        call_ensures(clone_io_error, (&err,), r),
    ensures
        r.spec_kind() == err.spec_kind(),
        r.spec_message() == err.spec_message(),
        err matches PortError::Os(code) ==> r == PortError::Os(code),
{
}

} // verus!
