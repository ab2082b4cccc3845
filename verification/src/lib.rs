//! Request/response protocol client for a microcontroller reached over a
//! byte-oriented serial link.
//!
//! The protocol is a strict one-line-command / one-line-response exchange:
//! every command is a fixed ASCII word on its own line, and every response is
//! the decimal text of an unsigned 64-bit integer on its own line.  The crate
//! provides the three layers of that protocol:
//!
//! * [`framer`] turns the raw incoming byte stream into complete lines and
//!   frames outgoing text with the line terminator;
//! * [`codecs`] maps typed commands to their canonical wire text and response
//!   lines to numeric values;
//! * [`microcontroller`] owns one framed connection, runs the mandatory
//!   startup handshake (liveness check, then version check) and offers the
//!   typed one-command-in / one-response-out operations.
//!
//! The client performs no I/O of its own: the caller moves bytes between the
//! client and the transport and reports transport events (end of stream,
//! read/write failure), so every decision the protocol makes is verified here.
//!
//! Two small helpers for the chat layer round the crate out: [`phrases`]
//! decides whether a message asks the question the bot answers, and
//! [`durations`] rounds an elapsed time for human-facing display.

pub mod codecs;
pub mod durations;
pub mod framer;
pub mod microcontroller;
pub mod phrases;
