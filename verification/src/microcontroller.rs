//! The device client: one framed connection, the mandatory startup
//! handshake, and typed one-command-in / one-response-out operations.
//!
//! The client performs no I/O.  The caller owns the transport and moves data
//! in both directions: frames returned by the client are written to the
//! wire, bytes read from the wire are handed to [`Microcontroller::receive`],
//! and transport events (end of stream, read or write failure) are reported
//! through [`Microcontroller::transport_closed`] and
//! [`Microcontroller::transport_failed`].  Every protocol decision — the
//! handshake, response decoding, error classification — is made here, under
//! contract.
//!
//! The protocol carries no request identifiers: a response line is
//! attributed to whichever command was most recently sent.  The client
//! therefore tracks at most one in-flight command, and a new command can be
//! sent only once the previous response has been consumed.  Callers with
//! several concurrent producers of requests must serialize whole
//! request/response exchanges around one client.

use vstd::prelude::*;

use crate::codecs::{decode_value, is_decimal_u64, digits_value, wire_text, ArduinoCommand};
use crate::framer;
use crate::framer::{encode_line, LineFramer};

verus! {

/// The single protocol version this client accepts, compared for exact
/// equality during the handshake; there is no negotiation range.
pub const SUPPORTED_PROTOCOL_VERSION: u8 = 0;

/// Connection lifecycle.  `Failed` is terminal: no operation leaves it, and
/// a failed client must be discarded and a fresh one acquired.
#[derive(Clone, Copy, Debug, PartialEq, Eq, Structural)]
pub enum ClientState {
    Unopened,
    Handshaking,
    VersionChecking,
    Ready,
    Failed,
}

/// Handshake-specific failures.
#[derive(Clone, Copy, Debug, PartialEq, Eq, Structural)]
pub enum ProtocolError {
    /// The device answered the liveness check with something other than 1.
    UnexpectedPingResponse { observed: u64 },
    /// The device runs a protocol version this client does not support.
    UnsupportedProtocolVersion { expected: u8, observed: u64 },
}

/// Everything a client operation can fail with, each annotated with the
/// command that was in flight when it happened.
#[derive(Debug)]
pub enum ClientError {
    /// The transport reported a read or write failure.
    Transport { in_flight: Option<ArduinoCommand> },
    /// A response line was not a well-formed unsigned 64-bit decimal (or was
    /// out of range for the command); carries the offending raw text.
    Decode { command: ArduinoCommand, text: Vec<u8> },
    /// A handshake check failed.
    Protocol { error: ProtocolError },
    /// The stream ended while a response was still awaited.
    ConnectionClosed { command: ArduinoCommand },
}

/// Progress of the startup handshake.
#[derive(Debug)]
pub enum HandshakeStep {
    /// No complete response line has arrived yet; feed more bytes.
    Pending,
    /// One check passed; write this frame and poll again.
    Next(Vec<u8>),
    /// Both checks passed; the client is ready.
    Complete,
}

/// The command awaiting its response in each handshake state.
pub open spec fn handshake_command(state: ClientState) -> ArduinoCommand {
    if state == ClientState::Handshaking {
        ArduinoCommand::Ping
    } else {
        ArduinoCommand::GetProtocolVersion
    }
}

/// A client for one device connection.
///
/// Lifecycle: [`Microcontroller::new`] gives an `Unopened` client;
/// [`Microcontroller::acquire`] starts the handshake, driven to `Ready` by
/// [`Microcontroller::poll_handshake`]; the typed query operations are
/// available only from `Ready`.  A connection that failed handshake never
/// becomes observable as `Ready`, and every error is fatal to the client.
pub struct Microcontroller {
    state: ClientState,
    in_flight: Option<ArduinoCommand>,
    framer: LineFramer,
}

impl Microcontroller {
    /// Lifecycle state.
    pub closed spec fn state(self) -> ClientState {
        self.state
    }

    /// The command whose response has not been consumed yet, if any.
    pub closed spec fn in_flight(self) -> Option<ArduinoCommand> {
        self.in_flight
    }

    /// The bytes received from the transport and not yet consumed as lines.
    pub closed spec fn buffered(self) -> Seq<u8> {
        self.framer@
    }

    /// A fresh, unopened client.
    pub fn new() -> (client: Microcontroller)
        ensures
            client.state() == ClientState::Unopened,
            client.in_flight() is None,
            client.buffered() == Seq::<u8>::empty(),
    {
        Microcontroller { state: ClientState::Unopened, in_flight: None, framer: LineFramer::new() }
    }

    /// Begins acquisition: enters the handshake and returns the framed
    /// liveness check to write to the wire.  The version check is not sent
    /// until the liveness check has passed.
    pub fn acquire(&mut self) -> (frame: Vec<u8>)
        requires
            old(self).state() == ClientState::Unopened,
        ensures
            final(self).state() == ClientState::Handshaking,
            final(self).in_flight() == Some(ArduinoCommand::Ping),
            final(self).buffered() == old(self).buffered(),
            frame@ == framer::framed(wire_text(ArduinoCommand::Ping)),
    {
        self.state = ClientState::Handshaking;
        self.in_flight = Some(ArduinoCommand::Ping);
        encode_line(crate::codecs::encode_command(ArduinoCommand::Ping).as_slice())
    }

    /// Hands the client bytes read from the transport.
    pub fn receive(&mut self, bytes: &[u8])
        ensures
            final(self).state() == old(self).state(),
            final(self).in_flight() == old(self).in_flight(),
            final(self).buffered() == old(self).buffered() + bytes@,
    {
        self.framer.push_bytes(bytes);
    }

    /// Drives the handshake with whatever has been received.
    ///
    /// In `Handshaking`, a response of 1 passes the liveness check and
    /// returns the framed version query to write; any other value is an
    /// unexpected ping response.  In `VersionChecking`, a response equal to
    /// [`SUPPORTED_PROTOCOL_VERSION`] completes the handshake; any other
    /// value is an unsupported protocol version, reported with both the
    /// expected and the observed value.  A malformed response line fails
    /// acquisition as a decode error.  Every failure is terminal.
    pub fn poll_handshake(&mut self) -> (step: Result<HandshakeStep, ClientError>)
        requires
            old(self).state() == ClientState::Handshaking || old(self).state()
                == ClientState::VersionChecking,
        ensures
            !framer::has_line(old(self).buffered()) ==> {
                &&& step matches Ok(s) && s is Pending
                &&& final(self).state() == old(self).state()
                &&& final(self).in_flight() == old(self).in_flight()
                &&& final(self).buffered() == old(self).buffered()
            },
            framer::has_line(old(self).buffered()) ==> {
                let l = framer::first_line(old(self).buffered());
                let v = digits_value(l);
                &&& final(self).buffered() == framer::rest_after_line(old(self).buffered())
                &&& !is_decimal_u64(l) ==> (step matches Err(e)
                    && e matches ClientError::Decode { command, text }
                    && command == handshake_command(old(self).state()) && text@ == l
                    && final(self).state() == ClientState::Failed && final(self).in_flight() is None)
                &&& (is_decimal_u64(l) && old(self).state() == ClientState::Handshaking && v == 1)
                    ==> (step matches Ok(s) && s matches HandshakeStep::Next(f)
                    && f@ == framer::framed(wire_text(ArduinoCommand::GetProtocolVersion))
                    && final(self).state() == ClientState::VersionChecking
                    && final(self).in_flight() == Some(ArduinoCommand::GetProtocolVersion))
                &&& (is_decimal_u64(l) && old(self).state() == ClientState::Handshaking && v != 1)
                    ==> (step matches Err(e) && e matches ClientError::Protocol { error }
                    && error == (ProtocolError::UnexpectedPingResponse { observed: v as u64 })
                    && final(self).state() == ClientState::Failed && final(self).in_flight() is None)
                &&& (is_decimal_u64(l) && old(self).state() == ClientState::VersionChecking && v
                    == SUPPORTED_PROTOCOL_VERSION) ==> (step matches Ok(s) && s is Complete
                    && final(self).state() == ClientState::Ready && final(self).in_flight() is None)
                &&& (is_decimal_u64(l) && old(self).state() == ClientState::VersionChecking && v
                    != SUPPORTED_PROTOCOL_VERSION) ==> (step matches Err(e)
                    && e matches ClientError::Protocol { error }
                    && error == (ProtocolError::UnsupportedProtocolVersion {
                        expected: SUPPORTED_PROTOCOL_VERSION,
                        observed: v as u64,
                    })
                    && final(self).state() == ClientState::Failed && final(self).in_flight() is None)
            },
    {
        match self.framer.next_line() {
            None => Ok(HandshakeStep::Pending),
            Some(line) => {
                let handshaking = match self.state {
                    ClientState::Handshaking => true,
                    _ => false,
                };
                match decode_value(line.as_slice()) {
                    Ok(v) => {
                        if handshaking {
                            if v == 1 {
                                self.state = ClientState::VersionChecking;
                                self.in_flight = Some(ArduinoCommand::GetProtocolVersion);
                                Ok(HandshakeStep::Next(encode_line(
                                    crate::codecs::encode_command(
                                        ArduinoCommand::GetProtocolVersion,
                                    ).as_slice(),
                                )))
                            } else {
                                self.state = ClientState::Failed;
                                self.in_flight = None;
                                Err(ClientError::Protocol {
                                    error: ProtocolError::UnexpectedPingResponse { observed: v },
                                })
                            }
                        } else {
                            if v == SUPPORTED_PROTOCOL_VERSION as u64 {
                                self.state = ClientState::Ready;
                                self.in_flight = None;
                                Ok(HandshakeStep::Complete)
                            } else {
                                self.state = ClientState::Failed;
                                self.in_flight = None;
                                Err(ClientError::Protocol {
                                    error: ProtocolError::UnsupportedProtocolVersion {
                                        expected: SUPPORTED_PROTOCOL_VERSION,
                                        observed: v,
                                    },
                                })
                            }
                        }
                    },
                    Err(_) => {
                        let command = if handshaking {
                            ArduinoCommand::Ping
                        } else {
                            ArduinoCommand::GetProtocolVersion
                        };
                        self.state = ClientState::Failed;
                        self.in_flight = None;
                        Err(ClientError::Decode { command, text: line })
                    },
                }
            },
        }
    }

    /// Whether the handshake has completed and queries may be sent.
    pub fn is_ready(&self) -> (ready: bool)
        ensures
            ready == (self.state() == ClientState::Ready),
    {
        match self.state {
            ClientState::Ready => true,
            _ => false,
        }
    }

    /// Stages one command: records it as in flight and returns its framed
    /// wire text to write.  Available only from `Ready`, and only while no
    /// other command awaits its response — the protocol correlates a
    /// response with whichever command was most recently sent.
    pub fn send_command(&mut self, command: ArduinoCommand) -> (frame: Vec<u8>)
        requires
            old(self).state() == ClientState::Ready,
            old(self).in_flight() is None,
        ensures
            final(self).state() == ClientState::Ready,
            final(self).in_flight() == Some(command),
            final(self).buffered() == old(self).buffered(),
            frame@ == framer::framed(wire_text(command)),
    {
        self.in_flight = Some(command);
        encode_line(crate::codecs::encode_command(command).as_slice())
    }

    /// Consumes the response to the in-flight command, if a complete line
    /// has arrived: its numeric value when well formed, a decode error
    /// (fatal, annotated with the command) otherwise.
    pub fn poll_response(&mut self) -> (response: Result<Option<u64>, ClientError>)
        requires
            old(self).state() == ClientState::Ready,
            old(self).in_flight() is Some,
        ensures
            !framer::has_line(old(self).buffered()) ==> {
                &&& response matches Ok(x) && x is None
                &&& final(self).state() == old(self).state()
                &&& final(self).in_flight() == old(self).in_flight()
                &&& final(self).buffered() == old(self).buffered()
            },
            framer::has_line(old(self).buffered()) ==> {
                let l = framer::first_line(old(self).buffered());
                &&& final(self).buffered() == framer::rest_after_line(old(self).buffered())
                &&& is_decimal_u64(l) ==> (response matches Ok(x) && x matches Some(v)
                    && v == digits_value(l) && final(self).state() == ClientState::Ready
                    && final(self).in_flight() is None)
                &&& !is_decimal_u64(l) ==> (response matches Err(e)
                    && e matches ClientError::Decode { command, text }
                    && Some(command) == old(self).in_flight() && text@ == l
                    && final(self).state() == ClientState::Failed && final(self).in_flight() is None)
            },
    {
        match self.framer.next_line() {
            None => Ok(None),
            Some(line) => {
                let command = self.in_flight.unwrap();
                match decode_value(line.as_slice()) {
                    Ok(v) => {
                        self.in_flight = None;
                        Ok(Some(v))
                    },
                    Err(_) => {
                        self.state = ClientState::Failed;
                        self.in_flight = None;
                        Err(ClientError::Decode { command, text: line })
                    },
                }
            },
        }
    }

    /// The stream ended.  Waiting on a response, this is the
    /// connection-closed failure; otherwise it merely ends the connection.
    /// Either way the client is unusable afterwards.
    pub fn transport_closed(&mut self) -> (r: Result<(), ClientError>)
        ensures
            final(self).state() == ClientState::Failed,
            final(self).in_flight() is None,
            final(self).buffered() == old(self).buffered(),
            old(self).in_flight() matches Some(c) ==> (r matches Err(e)
                && e matches ClientError::ConnectionClosed { command } && command == c),
            old(self).in_flight() is None ==> r is Ok,
    {
        let r = match self.in_flight {
            Some(command) => Err(ClientError::ConnectionClosed { command }),
            None => Ok(()),
        };
        self.state = ClientState::Failed;
        self.in_flight = None;
        r
    }

    /// The transport reported a read or write failure.  Fatal; the error
    /// names the command that was in flight, if any.
    pub fn transport_failed(&mut self) -> (error: ClientError)
        ensures
            final(self).state() == ClientState::Failed,
            final(self).in_flight() is None,
            final(self).buffered() == old(self).buffered(),
            error matches ClientError::Transport { in_flight } && in_flight == old(self).in_flight(),
    {
        let error = ClientError::Transport { in_flight: self.in_flight };
        self.state = ClientState::Failed;
        self.in_flight = None;
        error
    }

    /// Stages a liveness check.
    pub fn ping(&mut self) -> (frame: Vec<u8>)
        requires
            old(self).state() == ClientState::Ready,
            old(self).in_flight() is None,
        ensures
            final(self).state() == ClientState::Ready,
            final(self).in_flight() == Some(ArduinoCommand::Ping),
            final(self).buffered() == old(self).buffered(),
            frame@ == framer::framed(wire_text(ArduinoCommand::Ping)),
    {
        self.send_command(ArduinoCommand::Ping)
    }

    /// Consumes a liveness-check response: success exactly when the device
    /// answered 1, an unexpected-ping-response error (fatal) for any other
    /// value.
    pub fn poll_ping(&mut self) -> (response: Result<Option<()>, ClientError>)
        requires
            old(self).state() == ClientState::Ready,
            old(self).in_flight() == Some(ArduinoCommand::Ping),
        ensures
            !framer::has_line(old(self).buffered()) ==> {
                &&& response matches Ok(x) && x is None
                &&& final(self).state() == old(self).state()
                &&& final(self).in_flight() == old(self).in_flight()
                &&& final(self).buffered() == old(self).buffered()
            },
            framer::has_line(old(self).buffered()) ==> {
                let l = framer::first_line(old(self).buffered());
                let v = digits_value(l);
                &&& final(self).buffered() == framer::rest_after_line(old(self).buffered())
                &&& final(self).in_flight() is None
                &&& (is_decimal_u64(l) && v == 1) ==> (response matches Ok(x) && x is Some
                    && final(self).state() == ClientState::Ready)
                &&& (is_decimal_u64(l) && v != 1) ==> (response matches Err(e)
                    && e matches ClientError::Protocol { error }
                    && error == (ProtocolError::UnexpectedPingResponse { observed: v as u64 })
                    && final(self).state() == ClientState::Failed)
                &&& !is_decimal_u64(l) ==> (response matches Err(e)
                    && e matches ClientError::Decode { command, text }
                    && command == ArduinoCommand::Ping && text@ == l
                    && final(self).state() == ClientState::Failed)
            },
    {
        match self.poll_response() {
            Ok(None) => Ok(None),
            Ok(Some(v)) => {
                if v == 1 {
                    Ok(Some(()))
                } else {
                    self.state = ClientState::Failed;
                    Err(ClientError::Protocol {
                        error: ProtocolError::UnexpectedPingResponse { observed: v },
                    })
                }
            },
            Err(e) => Err(e),
        }
    }

    /// Stages a protocol-version query.
    pub fn get_protocol_version(&mut self) -> (frame: Vec<u8>)
        requires
            old(self).state() == ClientState::Ready,
            old(self).in_flight() is None,
        ensures
            final(self).state() == ClientState::Ready,
            final(self).in_flight() == Some(ArduinoCommand::GetProtocolVersion),
            final(self).buffered() == old(self).buffered(),
            frame@ == framer::framed(wire_text(ArduinoCommand::GetProtocolVersion)),
    {
        self.send_command(ArduinoCommand::GetProtocolVersion)
    }

    /// Consumes a protocol-version response, narrowed to 8 bits; a value
    /// outside that range is a decode error (fatal, with the raw text).
    pub fn poll_protocol_version(&mut self) -> (response: Result<Option<u8>, ClientError>)
        requires
            old(self).state() == ClientState::Ready,
            old(self).in_flight() == Some(ArduinoCommand::GetProtocolVersion),
        ensures
            !framer::has_line(old(self).buffered()) ==> {
                &&& response matches Ok(x) && x is None
                &&& final(self).state() == old(self).state()
                &&& final(self).in_flight() == old(self).in_flight()
                &&& final(self).buffered() == old(self).buffered()
            },
            framer::has_line(old(self).buffered()) ==> {
                let l = framer::first_line(old(self).buffered());
                let v = digits_value(l);
                &&& final(self).buffered() == framer::rest_after_line(old(self).buffered())
                &&& final(self).in_flight() is None
                &&& (is_decimal_u64(l) && v <= 255) ==> (response matches Ok(x)
                    && x matches Some(version) && version == v
                    && final(self).state() == ClientState::Ready)
                &&& (is_decimal_u64(l) && v > 255) ==> (response matches Err(e)
                    && e matches ClientError::Decode { command, text }
                    && command == ArduinoCommand::GetProtocolVersion && text@ == l
                    && final(self).state() == ClientState::Failed)
                &&& !is_decimal_u64(l) ==> (response matches Err(e)
                    && e matches ClientError::Decode { command, text }
                    && command == ArduinoCommand::GetProtocolVersion && text@ == l
                    && final(self).state() == ClientState::Failed)
            },
    {
        match self.framer.next_line() {
            None => Ok(None),
            Some(line) => {
                match decode_value(line.as_slice()) {
                    Ok(v) => {
                        if v <= 255 {
                            self.in_flight = None;
                            Ok(Some(v as u8))
                        } else {
                            self.state = ClientState::Failed;
                            self.in_flight = None;
                            Err(ClientError::Decode {
                                command: ArduinoCommand::GetProtocolVersion,
                                text: line,
                            })
                        }
                    },
                    Err(_) => {
                        self.state = ClientState::Failed;
                        self.in_flight = None;
                        Err(ClientError::Decode {
                            command: ArduinoCommand::GetProtocolVersion,
                            text: line,
                        })
                    },
                }
            },
        }
    }

    /// Stages a sensor-state query.
    pub fn get_state(&mut self) -> (frame: Vec<u8>)
        requires
            old(self).state() == ClientState::Ready,
            old(self).in_flight() is None,
        ensures
            final(self).state() == ClientState::Ready,
            final(self).in_flight() == Some(ArduinoCommand::GetState),
            final(self).buffered() == old(self).buffered(),
            frame@ == framer::framed(wire_text(ArduinoCommand::GetState)),
    {
        self.send_command(ArduinoCommand::GetState)
    }

    /// Consumes a sensor-state response: true exactly when the device
    /// answered 1, false for every other value — permissive boolean
    /// coercion by design, never an error for an unexpected value.
    pub fn poll_state(&mut self) -> (response: Result<Option<bool>, ClientError>)
        requires
            old(self).state() == ClientState::Ready,
            old(self).in_flight() == Some(ArduinoCommand::GetState),
        ensures
            !framer::has_line(old(self).buffered()) ==> {
                &&& response matches Ok(x) && x is None
                &&& final(self).state() == old(self).state()
                &&& final(self).in_flight() == old(self).in_flight()
                &&& final(self).buffered() == old(self).buffered()
            },
            framer::has_line(old(self).buffered()) ==> {
                let l = framer::first_line(old(self).buffered());
                &&& final(self).buffered() == framer::rest_after_line(old(self).buffered())
                &&& final(self).in_flight() is None
                &&& is_decimal_u64(l) ==> (response matches Ok(x) && x matches Some(on)
                    && on == (digits_value(l) == 1) && final(self).state() == ClientState::Ready)
                &&& !is_decimal_u64(l) ==> (response matches Err(e)
                    && e matches ClientError::Decode { command, text }
                    && command == ArduinoCommand::GetState && text@ == l
                    && final(self).state() == ClientState::Failed)
            },
    {
        match self.poll_response() {
            Ok(None) => Ok(None),
            Ok(Some(v)) => Ok(Some(v == 1)),
            Err(e) => Err(e),
        }
    }

    /// Stages a query for the time since the last falling edge.
    pub fn get_last_falling(&mut self) -> (frame: Vec<u8>)
        requires
            old(self).state() == ClientState::Ready,
            old(self).in_flight() is None,
        ensures
            final(self).state() == ClientState::Ready,
            final(self).in_flight() == Some(ArduinoCommand::GetLastFalling),
            final(self).buffered() == old(self).buffered(),
            frame@ == framer::framed(wire_text(ArduinoCommand::GetLastFalling)),
    {
        self.send_command(ArduinoCommand::GetLastFalling)
    }

    /// Consumes a last-falling-edge response: the numeric value unchanged,
    /// a millisecond count interpreted by the caller.
    pub fn poll_last_falling(&mut self) -> (response: Result<Option<u64>, ClientError>)
        requires
            old(self).state() == ClientState::Ready,
            old(self).in_flight() == Some(ArduinoCommand::GetLastFalling),
        ensures
            !framer::has_line(old(self).buffered()) ==> {
                &&& response matches Ok(x) && x is None
                &&& final(self).state() == old(self).state()
                &&& final(self).in_flight() == old(self).in_flight()
                &&& final(self).buffered() == old(self).buffered()
            },
            framer::has_line(old(self).buffered()) ==> {
                let l = framer::first_line(old(self).buffered());
                &&& final(self).buffered() == framer::rest_after_line(old(self).buffered())
                &&& final(self).in_flight() is None
                &&& is_decimal_u64(l) ==> (response matches Ok(x) && x matches Some(v)
                    && v == digits_value(l) && final(self).state() == ClientState::Ready)
                &&& !is_decimal_u64(l) ==> (response matches Err(e)
                    && e matches ClientError::Decode { command, text }
                    && command == ArduinoCommand::GetLastFalling && text@ == l
                    && final(self).state() == ClientState::Failed)
            },
    {
        self.poll_response()
    }
}

} // verus!
