//! The error type shared by the packet codec and the connection.

use vstd::prelude::*;

verus! {

/// Why an operation failed. Callers branch on this.
#[derive(Clone, Copy, Debug, PartialEq, Eq, Structural)]
pub enum SshErrorKind {
    /// The byte stream could not be opened.
    ConnectError,
    /// `connect` was asked of a connection that already holds a stream.
    AlreadyConnected,
    /// An operation that needs a stream was asked of a connection without one.
    NotConnected,
    /// The packet built for a command failed the frame checks.
    EncodeError,
    /// The stream refused bytes, or took none of them.
    WriteError,
    /// The stream could not be read.
    ReadError,
    /// Shutting the stream down failed.
    DisconnectError,
    /// A serialized frame is shorter than the protocol minimum.
    FrameTooSmall,
    /// A serialized frame is not a whole number of 8-byte blocks.
    FrameMisaligned,
    /// A serialized frame is longer than the accepted maximum.
    FrameTooLarge,
}

/// An error as contracts see it: its kind and the text of its message.
pub struct SshErrorView {
    pub kind: SshErrorKind,
    pub message: Seq<char>,
}

/// A failure of the packet codec or of the connection, with the text that
/// explains it. Where an underlying cause exists, the message ends with it.
#[derive(Debug)]
pub struct SshError {
    kind: SshErrorKind,
    error_message: String,
}

impl View for SshError {
    type V = SshErrorView;

    closed spec fn view(&self) -> SshErrorView {
        SshErrorView { kind: self.kind, message: self.error_message@ }
    }
}

/// The text that `SshError::to_string` gives for a message.
pub open spec fn display_text(message: Seq<char>) -> Seq<char> {
    "A problem occurred on SSH crate : "@ + message
}

impl SshError {
    /// The error of the given kind with the given message.
    pub fn new(kind: SshErrorKind, error_message: String) -> (e: Self)
        ensures
            e@ == (SshErrorView { kind, message: error_message@ }),
    {
        Self { kind, error_message }
    }

    /// The kind of failure.
    pub fn kind(&self) -> (k: SshErrorKind)
        ensures
            k == self@.kind,
    {
        self.kind
    }

    /// The message, without the prefix that `to_string` puts before it.
    pub fn message(&self) -> (m: &str)
        ensures
            m@ == self@.message,
    {
        self.error_message.as_str()
    }

    /// The message as it is shown to a user.
    pub fn to_string(&self) -> (s: String)
        ensures
            s@ == display_text(self@.message),
    {
        let mut s: String = "A problem occurred on SSH crate : ".to_owned();
        s.append(self.error_message.as_str());
        s
    }
}

} // verus!
