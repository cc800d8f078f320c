//! PTY error values and the classification of reader errors.

use vstd::prelude::*;

verus! {

/// Kind of a standard I/O error.
#[verifier::external_type_specification]
#[verifier::external_body]
pub struct ExIoErrorKind(std::io::ErrorKind);

/// Standard I/O error.
#[verifier::external_type_specification]
#[verifier::external_body]
pub struct ExIoError(std::io::Error);

/// PTY lifecycle errors.
#[derive(Debug)]
pub enum PtyError {
    /// Error returned by the PTY backend.
    Backend(String),
    /// Standard I/O failure.
    Io {
        /// Standard I/O error kind.
        kind: std::io::ErrorKind,
        /// Underlying I/O error message.
        message: String,
    },
    /// Output was not available before the deadline.
    ReadTimeout(std::time::Duration),
    /// The session reader has already been consumed.
    ReaderAlreadyTaken,
    /// The session writer has already been consumed.
    WriterAlreadyTaken,
    /// Reader thread exited without sending a result.
    ReaderDisconnected,
}

/// PTY result alias.
pub type PtyResult<T> = Result<T, PtyError>;

/// Error number of `EIO` on Unix systems.
pub const UNIX_EIO: i32 = 5;

/// The kind of `error`.
///
/// Calls `std::io::Error::kind`. Nothing is stated of the kind it returns: the
/// kind depends only on the error, but neither the error nor its kind is a plain
/// value or has a view, so no name can stand for the result.
#[verifier::external_body]
fn io_error_kind(error: &std::io::Error) -> std::io::ErrorKind {
    error.kind()
}

/// The display message of `error`.
///
/// Calls `ToString::to_string` on the error. Nothing is stated of the text: for
/// an operating-system error it comes from the C library and depends on the locale.
#[verifier::external_body]
fn io_error_message(error: &std::io::Error) -> String {
    error.to_string()
}

impl PtyError {
    /// Wrap a standard I/O error, keeping its kind and message.
    pub fn io(error: std::io::Error) -> (r: Self)
        ensures
            r is Io,
    {
        let kind = io_error_kind(&error);
        let message = io_error_message(&error);
        Self::Io { kind, message }
    }
}

/// Whether a PTY read error whose operating-system error code is
/// `raw_os_error` only signals end of output: on Unix (`unix`) a closed PTY
/// reports `EIO`; on other platforms no read error does.
pub fn is_pty_reader_eof(raw_os_error: Option<i32>, unix: bool) -> (r: bool)
    ensures
        r <==> unix && raw_os_error == Some(UNIX_EIO),
{
    if !unix {
        return false;
    }
    match raw_os_error {
        Some(code) => code == UNIX_EIO,
        None => false,
    }
}

} // verus!

verus! {

/// What a PTY output read produced.
#[derive(Debug, Clone, Copy, PartialEq, Eq, Structural)]
pub enum PtyReadEvent {
    /// The read returned this many bytes.
    Read(usize),
    /// The read was interrupted before any byte arrived.
    Interrupted,
    /// The read failed; `eof` tells whether the error only signals end of output.
    Failed {
        /// Whether the error only signals end of output.
        eof: bool,
    },
}

/// What the output reader does next.
#[derive(Debug, Clone, Copy, PartialEq, Eq, Structural)]
pub enum PtyReadAction {
    /// Output ended: stop reading.
    Stop,
    /// Forward this many bytes and read on.
    Forward(usize),
    /// Read again.
    Retry,
    /// Report the error and stop reading.
    Fail,
}

/// The reader's next step after `event`: an empty read or an end-of-output
/// error stops, bytes are forwarded, an interrupted read is retried, and any
/// other error is reported.
pub fn next_read_action(event: PtyReadEvent) -> (a: PtyReadAction)
    ensures
        a == (match event {
            PtyReadEvent::Read(n) => if n == 0 { PtyReadAction::Stop } else { PtyReadAction::Forward(n) },
            PtyReadEvent::Interrupted => PtyReadAction::Retry,
            PtyReadEvent::Failed { eof } => if eof { PtyReadAction::Stop } else { PtyReadAction::Fail },
        }),
{
    match event {
        PtyReadEvent::Read(n) => {
            if n == 0 {
                PtyReadAction::Stop
            } else {
                PtyReadAction::Forward(n)
            }
        },
        PtyReadEvent::Interrupted => PtyReadAction::Retry,
        PtyReadEvent::Failed { eof } => {
            if eof {
                PtyReadAction::Stop
            } else {
                PtyReadAction::Fail
            }
        },
    }
}

} // verus!
