//! The connection: which step of a session is allowed, and what the
//! stream's answer to it means.
//!
//! A session goes from `connect` over `send` and `read` to `disconnect`.
//! The connection does no input or output. Each step comes in two halves:
//! the first says whether the step is allowed and what to do with the
//! stream, the second takes what the stream answered.

use crate::errors::{display_text, SshError, SshErrorKind};
use crate::ssh::frame_writer::{FrameWriter, FrameWriterView};
use crate::ssh::ssh_packet::{frame_fault, frame_fault_message, SshPacket, SshPacketView};
use vstd::prelude::*;
use vstd::utf8::{decode_utf8, encode_utf8, valid_utf8};

verus! {

/// The host that a connection goes to where none is named.
pub const LOCALHOST_HOSTNAME: &'static str = "127.0.0.1";

/// The port that a connection goes to where none is named.
pub const DEFAULT_TCP_PORT: &'static str = "22";

/// The most bytes that one `read` asks of the stream.
pub const READ_BUFFER_LENGTH: usize = 128;

/// Whether a connection holds a stream.
#[derive(Clone, Copy, Debug, PartialEq, Eq, Structural)]
pub enum ConnectionState {
    Disconnected,
    Connected,
}

/// A connection as contracts see it.
pub struct SshConnectionView {
    pub hostname: Seq<char>,
    pub tcp_port: Seq<char>,
    pub user: Seq<char>,
    pub state: ConnectionState,
}

impl SshConnectionView {
    /// The address that the stream is opened to.
    pub open spec fn address(self) -> Seq<char> {
        self.hostname + ":"@ + self.tcp_port
    }

    /// The connection once an attempt to open the stream has ended: it holds
    /// the stream if there was one to gain and the attempt succeeded.
    pub open spec fn after_open(self, opened: bool) -> SshConnectionView {
        if opened && self.state == ConnectionState::Disconnected {
            SshConnectionView { state: ConnectionState::Connected, ..self }
        } else {
            self
        }
    }
}

/// The message of the error that `send` gives for a frame with this fault:
/// it ends with the codec's own error as that one is shown.
pub open spec fn encode_error_message(fault: SshErrorKind) -> Seq<char> {
    "An error occured while creating SSH packets : "@ + display_text(frame_fault_message(fault))
}

/// What sending `packet` over a connection that holds a stream results in:
/// a writer for its frame, with nothing written yet, where the frame passes
/// the codec's checks, and an encode error that names the fault where not.
pub open spec fn is_send_outcome(packet: SshPacketView, result: Result<FrameWriter, SshError>) -> bool {
    match result {
        Ok(writer) => {
            &&& frame_fault(packet.frame().len()) is None
            &&& writer@ == (FrameWriterView { sent: Seq::empty(), remaining: packet.frame() })
        },
        Err(e) => {
            &&& frame_fault(packet.frame().len()) is Some
            &&& e@.kind == SshErrorKind::EncodeError
            &&& e@.message == encode_error_message(frame_fault(packet.frame().len()).unwrap())
        },
    }
}

/// The text that `String::from_utf8_lossy` makes of `bytes`.
pub uninterp spec fn lossy_text(bytes: Seq<u8>) -> Seq<char>;

/// `String::from_utf8_lossy`, with the text copied out of what it returns.
/// The result is a function of the bytes alone. Bytes that are valid UTF-8
/// come back as the text they encode; of other bytes only the name is given,
/// since the rule by which invalid parts are replaced is long.
#[verifier::external_body]
fn from_utf8_lossy(bytes: &[u8]) -> (text: String)
    ensures
        text@ == lossy_text(bytes@),
        valid_utf8(bytes@) ==> text@ == decode_utf8(bytes@),
{
    String::from_utf8_lossy(bytes).into_owned()
}

/// A connection to a host over the SSH protocol.
///
/// It is created disconnected. `connect` and `finish_connect` bring it to
/// the connected state, in which `send` and `read` are allowed, and
/// `disconnect` ends it for good. The host, the port and the user are set
/// when it is created and stay as they are.
#[derive(Debug)]
pub struct SshConnection {
    hostname: String,
    tcp_port: String,
    user: String,
    state: ConnectionState,
}

impl View for SshConnection {
    type V = SshConnectionView;

    closed spec fn view(&self) -> SshConnectionView {
        SshConnectionView {
            hostname: self.hostname@,
            tcp_port: self.tcp_port@,
            user: self.user@,
            state: self.state,
        }
    }
}

/// The error of one kind whose message is `text`.
fn plain_error(kind: SshErrorKind, text: &str) -> (e: SshError)
    ensures
        e@.kind == kind,
        e@.message == text@,
{
    SshError::new(kind, text.to_owned())
}

/// The error of one kind whose message is `prefix` followed by `cause`.
fn caused_error(kind: SshErrorKind, prefix: &str, cause: &str) -> (e: SshError)
    ensures
        e@.kind == kind,
        e@.message == prefix@ + cause@,
{
    let mut message: String = prefix.to_owned();
    message.append(cause);
    SshError::new(kind, message)
}

impl SshConnection {
    /// Creates a connection to `hostname:tcp_port` for `user`, disconnected.
    pub fn new(hostname: String, tcp_port: String, user: String) -> (connection: Self)
        ensures
            connection@ == (SshConnectionView {
                hostname: hostname@,
                tcp_port: tcp_port@,
                user: user@,
                state: ConnectionState::Disconnected,
            }),
    {
        Self { hostname, tcp_port, user, state: ConnectionState::Disconnected }
    }

    /// The name or address of the host.
    pub fn hostname(&self) -> (hostname: &str)
        ensures
            hostname@ == self@.hostname,
    {
        self.hostname.as_str()
    }

    /// The TCP port of the host.
    pub fn tcp_port(&self) -> (tcp_port: &str)
        ensures
            tcp_port@ == self@.tcp_port,
    {
        self.tcp_port.as_str()
    }

    /// The user that the connection is made for. Nothing is done with it
    /// but to carry it.
    pub fn user(&self) -> (user: &str)
        ensures
            user@ == self@.user,
    {
        self.user.as_str()
    }

    /// Whether the connection holds a stream.
    pub fn state(&self) -> (state: ConnectionState)
        ensures
            state == self@.state,
    {
        self.state
    }

    /// First half of connecting: the address to open a stream to.
    ///
    /// A connection that already holds a stream refuses, and nothing is to
    /// be opened then.
    pub fn connect(&self) -> (address: Result<String, SshError>)
        ensures
            match address {
                Ok(host) => self@.state == ConnectionState::Disconnected && host@
                    == self@.address(),
                Err(e) => self@.state == ConnectionState::Connected && e@.kind
                    == SshErrorKind::AlreadyConnected && e@.message == "Already connected"@,
            },
    {
        match self.state {
            ConnectionState::Connected => Err(
                plain_error(SshErrorKind::AlreadyConnected, "Already connected"),
            ),
            ConnectionState::Disconnected => {
                let mut host: String = self.hostname.clone();
                host.append(":");
                host.append(self.tcp_port.as_str());
                Ok(host)
            },
        }
    }

    /// Second half of connecting: `outcome` says whether the stream was
    /// opened, and why not if it was not.
    ///
    /// On success the connection holds the stream from now on. On failure it
    /// stays disconnected, and connecting may be tried again.
    pub fn finish_connect(&mut self, outcome: Result<(), String>) -> (result: Result<
        (),
        SshError,
    >)
        ensures
            final(self)@ == old(self)@.after_open(outcome is Ok),
            match result {
                Ok(_) => old(self)@.state == ConnectionState::Disconnected && outcome is Ok,
                Err(e) => if old(self)@.state == ConnectionState::Connected {
                    e@.kind == SshErrorKind::AlreadyConnected && e@.message
                        == "Already connected"@
                } else {
                    &&& outcome is Err
                    &&& e@.kind == SshErrorKind::ConnectError
                    &&& e@.message == "Couldn't connect to server : "@ + outcome.unwrap_err()@
                },
            },
    {
        match self.state {
            ConnectionState::Connected => Err(
                plain_error(SshErrorKind::AlreadyConnected, "Already connected"),
            ),
            ConnectionState::Disconnected => match outcome {
                Ok(_) => {
                    self.state = ConnectionState::Connected;
                    Ok(())
                },
                Err(cause) => Err(
                    caused_error(
                        SshErrorKind::ConnectError,
                        "Couldn't connect to server : ",
                        cause.as_str(),
                    ),
                ),
            },
        }
    }
    /// First half of sending: builds the packet for `command` and hands out
    /// the writer for its frame, which is to be written to the stream in
    /// full.
    ///
    /// A connection without a stream refuses before anything is built, so
    /// that there is nothing to write. With a stream, a command of at most
    /// 34740 bytes always gets its writer, and one of more than 34987 bytes
    /// never does; in between, the padding length that is drawn decides.
    pub fn send(&self, command: String) -> (writer: Result<FrameWriter, SshError>)
        ensures
            self@.state == ConnectionState::Disconnected ==> {
                &&& writer is Err
                &&& writer.unwrap_err()@.kind == SshErrorKind::NotConnected
                &&& writer.unwrap_err()@.message
                    == "You have to connect to the server before sending commands"@
            },
            self@.state == ConnectionState::Connected ==> exists|packet: SshPacketView|
                packet.is_built_for(command@) && #[trigger] is_send_outcome(packet, writer),
            self@.state == ConnectionState::Connected && encode_utf8(command@).len() <= 34740
                ==> writer is Ok,
            self@.state == ConnectionState::Connected && encode_utf8(command@).len() > 34987 ==> {
                &&& writer is Err
                &&& writer.unwrap_err()@.kind == SshErrorKind::EncodeError
                &&& writer.unwrap_err()@.message == encode_error_message(
                    SshErrorKind::FrameTooLarge,
                )
            },
    {
        match self.state {
            ConnectionState::Disconnected => Err(
                plain_error(
                    SshErrorKind::NotConnected,
                    "You have to connect to the server before sending commands",
                ),
            ),
            ConnectionState::Connected => {
                let packet: SshPacket = SshPacket::new(command);
                let writer = self.send_packet(packet);
                assert(is_send_outcome(packet@, writer));
                writer
            },
        }
    }

    /// Sending with the packet already built: serializes it and hands out
    /// the writer for its frame.
    pub fn send_packet(&self, packet: SshPacket) -> (writer: Result<FrameWriter, SshError>)
        ensures
            self@.state == ConnectionState::Disconnected ==> {
                &&& writer is Err
                &&& writer.unwrap_err()@.kind == SshErrorKind::NotConnected
                &&& writer.unwrap_err()@.message
                    == "You have to connect to the server before sending commands"@
            },
            self@.state == ConnectionState::Connected ==> is_send_outcome(packet@, writer),
    {
        match self.state {
            ConnectionState::Disconnected => Err(
                plain_error(
                    SshErrorKind::NotConnected,
                    "You have to connect to the server before sending commands",
                ),
            ),
            ConnectionState::Connected => match packet.into_bytes() {
                Ok(ssh_packet_bytes) => Ok(FrameWriter::new(ssh_packet_bytes)),
                Err(e) => {
                    let shown: String = e.to_string();
                    Err(
                        caused_error(
                            SshErrorKind::EncodeError,
                            "An error occured while creating SSH packets : ",
                            shown.as_str(),
                        ),
                    )
                },
            },
        }
    }

    /// First half of reading: how many bytes to ask of the stream at most.
    pub fn read(&self) -> (length: Result<usize, SshError>)
        ensures
            match length {
                Ok(n) => self@.state == ConnectionState::Connected && n == READ_BUFFER_LENGTH,
                Err(e) => self@.state == ConnectionState::Disconnected && e@.kind
                    == SshErrorKind::NotConnected && e@.message
                    == "You have to connect to the server before reading"@,
            },
    {
        match self.state {
            ConnectionState::Disconnected => Err(
                plain_error(
                    SshErrorKind::NotConnected,
                    "You have to connect to the server before reading",
                ),
            ),
            ConnectionState::Connected => Ok(READ_BUFFER_LENGTH),
        }
    }

    /// Second half of reading: `outcome` holds the bytes that the stream
    /// gave, or the cause of its failure.
    ///
    /// The bytes become text. Valid UTF-8 is taken as it is, and every
    /// invalid part is replaced by the replacement character. No bytes at
    /// all, as when the peer has closed, give the empty text.
    pub fn finish_read(&self, outcome: Result<Vec<u8>, String>) -> (text: Result<String, SshError>)
        ensures
            self@.state == ConnectionState::Disconnected ==> {
                &&& text is Err
                &&& text.unwrap_err()@.kind == SshErrorKind::NotConnected
                &&& text.unwrap_err()@.message == "You have to connect to the server before reading"@
            },
            self@.state == ConnectionState::Connected ==> match outcome {
                Ok(bytes) => {
                    &&& text is Ok
                    &&& text.unwrap()@ == lossy_text(bytes@)
                    &&& valid_utf8(bytes@) ==> text.unwrap()@ == decode_utf8(bytes@)
                },
                Err(cause) => {
                    &&& text is Err
                    &&& text.unwrap_err()@.kind == SshErrorKind::ReadError
                    &&& text.unwrap_err()@.message == "An error occured while reading datas : "@
                        + cause@
                },
            },
    {
        match self.state {
            ConnectionState::Disconnected => Err(
                plain_error(
                    SshErrorKind::NotConnected,
                    "You have to connect to the server before reading",
                ),
            ),
            ConnectionState::Connected => match outcome {
                Ok(bytes) => Ok(from_utf8_lossy(bytes.as_slice())),
                Err(cause) => Err(
                    caused_error(
                        SshErrorKind::ReadError,
                        "An error occured while reading datas : ",
                        cause.as_str(),
                    ),
                ),
            },
        }
    }

    /// First half of disconnecting: ends the connection, and says whether
    /// there is a stream to shut down in both directions.
    ///
    /// The connection is given up by this call whatever comes of it: nothing
    /// more can be asked of it.
    pub fn disconnect(self) -> (result: Result<(), SshError>)
        ensures
            match result {
                Ok(_) => self@.state == ConnectionState::Connected,
                Err(e) => self@.state == ConnectionState::Disconnected && e@.kind
                    == SshErrorKind::NotConnected && e@.message
                    == "You have to connect to the server before disconnecting"@,
            },
    {
        match self.state {
            ConnectionState::Disconnected => Err(
                plain_error(
                    SshErrorKind::NotConnected,
                    "You have to connect to the server before disconnecting",
                ),
            ),
            ConnectionState::Connected => Ok(()),
        }
    }

    /// Second half of disconnecting: `outcome` says whether the stream was
    /// shut down, and why not if it was not. A failure is reported, though
    /// the connection is gone either way.
    pub fn finish_disconnect(outcome: Result<(), String>) -> (result: Result<(), SshError>)
        ensures
            match outcome {
                Ok(_) => result is Ok,
                Err(cause) => {
                    &&& result is Err
                    &&& result.unwrap_err()@.kind == SshErrorKind::DisconnectError
                    &&& result.unwrap_err()@.message
                        == "An error occured while shutting down the stream : "@ + cause@
                },
            },
    {
        match outcome {
            Ok(_) => Ok(()),
            Err(cause) => Err(
                caused_error(
                    SshErrorKind::DisconnectError,
                    "An error occured while shutting down the stream : ",
                    cause.as_str(),
                ),
            ),
        }
    }
}

/// An attempt to open the stream that fails leaves a disconnected connection
/// exactly as it was, so that connecting can be tried again; one that
/// succeeds makes it connected and changes nothing else. A connection that
/// is connected already is left alone by either.
pub proof fn lemma_open_outcomes(connection: SshConnectionView)
    ensures
        connection.after_open(false) == connection,
        connection.state == ConnectionState::Connected ==> connection.after_open(true)
            == connection,
        connection.state == ConnectionState::Disconnected ==> connection.after_open(true) == (
        SshConnectionView { state: ConnectionState::Connected, ..connection }),
        connection.after_open(true).address() == connection.address(),
{
}

} // verus!
