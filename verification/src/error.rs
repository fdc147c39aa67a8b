//! The closed error taxonomy.
//!
//! Every fallible operation in this crate reports one of the kinds below.
//! Engine-reported failures carry the engine's diagnostic text; the remaining
//! kinds classify conditions this layer detects itself (an embedded NUL in a
//! caller-supplied string, a malformed diagnostic buffer, and so on).

use vstd::prelude::*;
use vstd::string::StringExecFns;

verus! {

/// The classes of I/O failure that can be reported through [`Error::IoError`].
///
/// Mirrors the operating-system error classification used by the embedding
/// layer; only the classes this library's callers can meet are listed, with
/// `Other` as the catch-all.
#[derive(Debug, Clone, Copy, PartialEq, Eq, Structural)]
pub enum IoKind {
    NotFound,
    PermissionDenied,
    WouldBlock,
    InvalidInput,
    InvalidData,
    TimedOut,
    Interrupted,
    UnexpectedEof,
    Other,
}

/// An error received from the capture engine or detected by this layer.
#[derive(Debug)]
pub enum Error {
    /// The engine produced diagnostic text that was not valid UTF-8.
    MalformedError,
    /// The engine returned a null string where text was expected.
    InvalidString,
    /// The engine reported an error; the payload is its diagnostic message.
    PcapError(String),
    /// A numeric link-layer identifier the engine does not recognize.
    InvalidLinktype,
    /// The read timeout expired while reading from a live capture.
    TimeoutExpired,
    /// A finite (file-backed) source has no more packets to read.
    NoMorePackets,
    /// The operation requires the handle to be in non-blocking mode.
    NonNonBlock,
    /// The engine could not allocate the requested resource.
    InsufficientMemory,
    /// A caller-supplied string contains an embedded NUL terminator.
    InvalidInputString,
    /// An I/O error, classified by kind.
    IoError(IoKind),
    /// A raw file descriptor that cannot back a capture or save file.
    InvalidRawFd,
}

/// The mathematical value of an [`Error`]: the same taxonomy with the
/// diagnostic message abstracted to its character sequence.
#[verifier::ext_equal]
pub enum ErrorModel {
    MalformedError,
    InvalidString,
    PcapError(Seq<char>),
    InvalidLinktype,
    TimeoutExpired,
    NoMorePackets,
    NonNonBlock,
    InsufficientMemory,
    InvalidInputString,
    IoError(IoKind),
    InvalidRawFd,
}

impl View for Error {
    type V = ErrorModel;

    open spec fn view(&self) -> ErrorModel {
        match self {
            Error::MalformedError => ErrorModel::MalformedError,
            Error::InvalidString => ErrorModel::InvalidString,
            Error::PcapError(m) => ErrorModel::PcapError(m@),
            Error::InvalidLinktype => ErrorModel::InvalidLinktype,
            Error::TimeoutExpired => ErrorModel::TimeoutExpired,
            Error::NoMorePackets => ErrorModel::NoMorePackets,
            Error::NonNonBlock => ErrorModel::NonNonBlock,
            Error::InsufficientMemory => ErrorModel::InsufficientMemory,
            Error::InvalidInputString => ErrorModel::InvalidInputString,
            Error::IoError(k) => ErrorModel::IoError(*k),
            Error::InvalidRawFd => ErrorModel::InvalidRawFd,
        }
    }
}

impl PartialEq for Error {
    /// Two errors are equal when they are the same kind and carry the same
    /// diagnostic text.
    fn eq(&self, other: &Error) -> (r: bool) {
        match (self, other) {
            (Error::MalformedError, Error::MalformedError) => true,
            (Error::InvalidString, Error::InvalidString) => true,
            (Error::PcapError(a), Error::PcapError(b)) => *a == *b,
            (Error::InvalidLinktype, Error::InvalidLinktype) => true,
            (Error::TimeoutExpired, Error::TimeoutExpired) => true,
            (Error::NoMorePackets, Error::NoMorePackets) => true,
            (Error::NonNonBlock, Error::NonNonBlock) => true,
            (Error::InsufficientMemory, Error::InsufficientMemory) => true,
            (Error::InvalidInputString, Error::InvalidInputString) => true,
            (Error::IoError(a), Error::IoError(b)) => *a == *b,
            (Error::InvalidRawFd, Error::InvalidRawFd) => true,
            _ => false,
        }
    }
}

impl vstd::std_specs::cmp::PartialEqSpecImpl for Error {
    open spec fn obeys_eq_spec() -> bool {
        true
    }

    open spec fn eq_spec(&self, other: &Error) -> bool {
        self@ == other@
    }
}

/// What [`Error::message`] returns for an error with the given value.
pub open spec fn error_text(e: ErrorModel) -> Seq<char> {
    match e {
        ErrorModel::MalformedError => "libpcap returned invalid UTF-8"@,
        ErrorModel::InvalidString => "libpcap returned a null string"@,
        ErrorModel::PcapError(m) => "libpcap error: "@ + m,
        ErrorModel::InvalidLinktype => "invalid or unknown linktype"@,
        ErrorModel::TimeoutExpired => "timeout expired while reading from a live capture"@,
        ErrorModel::NoMorePackets => "no more packets to read from the file"@,
        ErrorModel::NonNonBlock => "must be in non-blocking mode to function"@,
        ErrorModel::InsufficientMemory => "insufficient memory"@,
        ErrorModel::InvalidInputString => "invalid input string (internal null)"@,
        ErrorModel::IoError(k) => "io error occurred: "@ + io_kind_text(k),
        ErrorModel::InvalidRawFd => "invalid raw file descriptor provided"@,
    }
}

/// What [`IoKind::name`] returns for each kind.
pub open spec fn io_kind_text(k: IoKind) -> Seq<char> {
    match k {
        IoKind::NotFound => "entity not found"@,
        IoKind::PermissionDenied => "permission denied"@,
        IoKind::WouldBlock => "operation would block"@,
        IoKind::InvalidInput => "invalid input parameter"@,
        IoKind::InvalidData => "invalid data"@,
        IoKind::TimedOut => "timed out"@,
        IoKind::Interrupted => "operation interrupted"@,
        IoKind::UnexpectedEof => "unexpected end of file"@,
        IoKind::Other => "other error"@,
    }
}

impl IoKind {
    /// A short human-readable name for the kind.
    pub fn name(&self) -> (r: &'static str)
        ensures
            r@ == io_kind_text(*self),
    {
        match self {
            IoKind::NotFound => "entity not found",
            IoKind::PermissionDenied => "permission denied",
            IoKind::WouldBlock => "operation would block",
            IoKind::InvalidInput => "invalid input parameter",
            IoKind::InvalidData => "invalid data",
            IoKind::TimedOut => "timed out",
            IoKind::Interrupted => "operation interrupted",
            IoKind::UnexpectedEof => "unexpected end of file",
            IoKind::Other => "other error",
        }
    }
}

impl Error {
    /// The single conversion point for engine diagnostics.
    ///
    /// Every fallible native call that leaves text in the engine's error
    /// buffer funnels through here, after the embedding layer has copied
    /// and decoded the buffer: decoded text becomes an engine error
    /// carrying it; a buffer holding no string at all falls back to an
    /// engine error with empty text; and a buffer that could not even be
    /// decoded keeps the decoding failure's own kind.
    pub fn new(decoded: Result<Option<String>, Error>) -> (r: Error)
        ensures
            decoded matches Ok(Some(m)) ==> r@ == ErrorModel::PcapError(m@),
            decoded matches Ok(None) ==> r@ == ErrorModel::PcapError(Seq::<char>::empty()),
            decoded matches Err(e) ==> r == e,
    {
        match decoded {
            Err(e) => e,
            Ok(Some(m)) => Error::PcapError(m),
            Ok(None) => Error::PcapError(String::new()),
        }
    }

    /// A fixed one-line description of the error kind, without the
    /// engine-supplied payload.
    pub fn description(&self) -> (r: &'static str)
        ensures
            r@ == description_text(self@),
    {
        match self {
            Error::MalformedError => "libpcap returned invalid UTF-8",
            Error::InvalidString => "libpcap returned a null string",
            Error::PcapError(_) => "libpcap FFI error",
            Error::InvalidLinktype => "invalid or unknown linktype",
            Error::TimeoutExpired => "timeout expired while reading from a live capture",
            Error::NoMorePackets => "no more packets to read from the file",
            Error::NonNonBlock => "must be in non-blocking mode to function",
            Error::InsufficientMemory => "insufficient memory",
            Error::InvalidInputString => "invalid input string (internal null)",
            Error::IoError(_) => "io error occurred",
            Error::InvalidRawFd => "invalid raw file descriptor provided",
        }
    }

    /// The full display text of the error, diagnostic payload included.
    pub fn message(&self) -> (r: String)
        ensures
            r@ == error_text(self@),
    {
        match self {
            Error::MalformedError => String::from_str("libpcap returned invalid UTF-8"),
            Error::InvalidString => String::from_str("libpcap returned a null string"),
            Error::PcapError(m) => String::from_str("libpcap error: ").concat(m.as_str()),
            Error::InvalidLinktype => String::from_str("invalid or unknown linktype"),
            Error::TimeoutExpired => String::from_str(
                "timeout expired while reading from a live capture",
            ),
            Error::NoMorePackets => String::from_str("no more packets to read from the file"),
            Error::NonNonBlock => String::from_str("must be in non-blocking mode to function"),
            Error::InsufficientMemory => String::from_str("insufficient memory"),
            Error::InvalidInputString => String::from_str("invalid input string (internal null)"),
            Error::IoError(k) => String::from_str("io error occurred: ").concat(k.name()),
            Error::InvalidRawFd => String::from_str("invalid raw file descriptor provided"),
        }
    }
}

/// What [`Error::description`] returns for an error with the given value.
pub open spec fn description_text(e: ErrorModel) -> Seq<char> {
    match e {
        ErrorModel::MalformedError => "libpcap returned invalid UTF-8"@,
        ErrorModel::InvalidString => "libpcap returned a null string"@,
        ErrorModel::PcapError(_) => "libpcap FFI error"@,
        ErrorModel::InvalidLinktype => "invalid or unknown linktype"@,
        ErrorModel::TimeoutExpired => "timeout expired while reading from a live capture"@,
        ErrorModel::NoMorePackets => "no more packets to read from the file"@,
        ErrorModel::NonNonBlock => "must be in non-blocking mode to function"@,
        ErrorModel::InsufficientMemory => "insufficient memory"@,
        ErrorModel::InvalidInputString => "invalid input string (internal null)"@,
        ErrorModel::IoError(_) => "io error occurred"@,
        ErrorModel::InvalidRawFd => "invalid raw file descriptor provided"@,
    }
}

impl From<IoKind> for Error {
    /// Classifying an I/O failure wraps its kind in [`Error::IoError`].
    fn from(kind: IoKind) -> (r: Error) {
        Error::IoError(kind)
    }
}

impl vstd::std_specs::convert::FromSpecImpl<IoKind> for Error {
    open spec fn obeys_from_spec() -> bool {
        true
    }

    open spec fn from_spec(kind: IoKind) -> Error {
        Error::IoError(kind)
    }
}

} // verus!
