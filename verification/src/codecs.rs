//! The command codec: typed commands to canonical wire text, response lines
//! to numeric values.
//!
//! Every command is one of a closed set of variants with a fixed lowercase
//! wire word; encoding is total and never fails.  Every response line is the
//! decimal text of an unsigned 64-bit integer; anything else is a malformed
//! response, reported together with the offending raw text.

use vstd::prelude::*;

use crate::framer;
use crate::framer::{FrameError, LineFramer};

verus! {

/// The closed set of commands the device understands.
#[derive(Clone, Copy, Debug, PartialEq, Eq, Structural)]
pub enum ArduinoCommand {
    Ping,
    GetProtocolVersion,
    GetState,
    GetLastFalling,
}

/// The canonical wire text of each command (ASCII bytes, no terminator).
pub open spec fn wire_text(command: ArduinoCommand) -> Seq<u8> {
    match command {
        ArduinoCommand::Ping => seq![112u8, 105u8, 110u8, 103u8],  // "ping"
        ArduinoCommand::GetProtocolVersion => seq![
            103u8, 101u8, 116u8, 95u8, 112u8, 114u8, 111u8, 116u8, 111u8, 99u8, 111u8, 108u8,
            95u8, 118u8, 101u8, 114u8, 115u8, 105u8, 111u8, 110u8,
        ],  // "get_protocol_version"
        ArduinoCommand::GetState => seq![
            103u8, 101u8, 116u8, 95u8, 115u8, 116u8, 97u8, 116u8, 101u8,
        ],  // "get_state"
        ArduinoCommand::GetLastFalling => seq![
            103u8, 101u8, 116u8, 95u8, 108u8, 97u8, 115u8, 116u8, 95u8, 102u8, 97u8, 108u8,
            108u8, 105u8, 110u8, 103u8,
        ],  // "get_last_falling"
    }
}

/// The inverse of [`wire_text`]: which command a wire word denotes.
pub open spec fn spec_command_of_wire(s: Seq<u8>) -> Option<ArduinoCommand> {
    if s == wire_text(ArduinoCommand::Ping) {
        Some(ArduinoCommand::Ping)
    } else if s == wire_text(ArduinoCommand::GetProtocolVersion) {
        Some(ArduinoCommand::GetProtocolVersion)
    } else if s == wire_text(ArduinoCommand::GetState) {
        Some(ArduinoCommand::GetState)
    } else if s == wire_text(ArduinoCommand::GetLastFalling) {
        Some(ArduinoCommand::GetLastFalling)
    } else {
        None
    }
}

/// The wire texts form an exact code over the closed enumeration: encoding a
/// command and reading the result back through the inverse table yields the
/// original variant.
pub proof fn lemma_wire_text_round_trip(command: ArduinoCommand)
    ensures
        spec_command_of_wire(wire_text(command)) == Some(command),
{
    assert(wire_text(ArduinoCommand::Ping).len() == 4);
    assert(wire_text(ArduinoCommand::GetProtocolVersion).len() == 20);
    assert(wire_text(ArduinoCommand::GetState).len() == 9);
    assert(wire_text(ArduinoCommand::GetLastFalling).len() == 16);
}

/// Renders a command as its canonical wire text.
pub fn encode_command(command: ArduinoCommand) -> (wire_word: Vec<u8>)
    ensures
        wire_word@ == wire_text(command),
{
    let word: Vec<u8> = match command {
        ArduinoCommand::Ping => vec![112, 105, 110, 103],
        ArduinoCommand::GetProtocolVersion => vec![
            103, 101, 116, 95, 112, 114, 111, 116, 111, 99, 111, 108, 95, 118, 101, 114, 115, 105,
            111, 110,
        ],
        ArduinoCommand::GetState => vec![103, 101, 116, 95, 115, 116, 97, 116, 101],
        ArduinoCommand::GetLastFalling => vec![
            103, 101, 116, 95, 108, 97, 115, 116, 95, 102, 97, 108, 108, 105, 110, 103,
        ],
    };
    proof {
        assert(word@ =~= wire_text(command));
    }
    word
}

/// Looks a received wire word up in the inverse table.
pub fn command_of_wire(line: &[u8]) -> (command: Option<ArduinoCommand>)
    ensures
        command == spec_command_of_wire(line@),
{
    if bytes_eq(line, encode_command(ArduinoCommand::Ping).as_slice()) {
        Some(ArduinoCommand::Ping)
    } else if bytes_eq(line, encode_command(ArduinoCommand::GetProtocolVersion).as_slice()) {
        Some(ArduinoCommand::GetProtocolVersion)
    } else if bytes_eq(line, encode_command(ArduinoCommand::GetState).as_slice()) {
        Some(ArduinoCommand::GetState)
    } else if bytes_eq(line, encode_command(ArduinoCommand::GetLastFalling).as_slice()) {
        Some(ArduinoCommand::GetLastFalling)
    } else {
        None
    }
}

pub(crate) fn bytes_eq(a: &[u8], b: &[u8]) -> (equal: bool)
    ensures
        equal == (a@ == b@),
{
    if a.len() != b.len() {
        return false;
    }
    let n = a.len();
    let mut i: usize = 0;
    while i < n
        invariant
            n == a@.len() == b@.len(),
            i <= n,
            forall|j: int| 0 <= j < i ==> a@[j] == b@[j],
        decreases n - i,
    {
        if a[i] != b[i] {
            return false;
        }
        i += 1;
    }
    proof {
        assert(a@ =~= b@);
    }
    true
}

/// A response line that is not the decimal text of an unsigned 64-bit
/// integer, kept raw for diagnostics.
#[derive(Debug)]
pub struct DecodeError {
    pub text: Vec<u8>,
}

/// ASCII decimal digits.
pub open spec fn is_ascii_digit(b: u8) -> bool {
    48 <= b <= 57
}

pub open spec fn digit_value(b: u8) -> nat {
    if 48 <= b {
        (b - 48) as nat
    } else {
        0
    }
}

pub open spec fn all_digits(s: Seq<u8>) -> bool {
    forall|i: int| 0 <= i < s.len() ==> is_ascii_digit(s[i])
}

/// The numeric value of a digit string, most significant digit first.
pub open spec fn digits_value(s: Seq<u8>) -> nat
    decreases s.len(),
{
    if s.len() == 0 {
        0
    } else {
        digits_value(s.drop_last()) * 10 + digit_value(s.last())
    }
}

/// Whether `s` is a well-formed response payload: a non-empty digit string
/// whose value fits in an unsigned 64-bit integer.
pub open spec fn is_decimal_u64(s: Seq<u8>) -> bool {
    s.len() > 0 && all_digits(s) && digits_value(s) <= u64::MAX
}

/// A digit string's value only grows as more digits are appended.
proof fn lemma_digits_value_monotone(s: Seq<u8>, i: int)
    requires
        0 <= i <= s.len(),
    ensures
        digits_value(s.subrange(0, i)) <= digits_value(s),
    decreases s.len() - i,
{
    if i == s.len() {
        assert(s.subrange(0, i) =~= s);
    } else {
        lemma_digits_value_monotone(s, i + 1);
        assert(s.subrange(0, i + 1).drop_last() =~= s.subrange(0, i));
        assert(digits_value(s.subrange(0, i)) <= digits_value(s.subrange(0, i + 1)));
    }
}

/// Parses a response line as an unsigned 64-bit decimal integer.
///
/// Returns the value exactly when the line is a non-empty digit string whose
/// value fits; any other line (empty, a stray sign or letter, or a value too
/// large) is a malformed response carrying the raw text.
pub fn decode_value(line: &[u8]) -> (parsed: Result<u64, DecodeError>)
    ensures
        is_decimal_u64(line@) ==> (parsed matches Ok(v) && v == digits_value(line@)),
        !is_decimal_u64(line@) ==> (parsed matches Err(e) && e.text@ == line@),
{
    if line.len() == 0 {
        return Err(DecodeError { text: vstd::slice::slice_to_vec(line) });
    }
    let n = line.len();
    let mut acc: u64 = 0;
    let mut i: usize = 0;
    while i < n
        invariant
            n == line@.len(),
            i <= n,
            all_digits(line@.subrange(0, i as int)),
            acc == digits_value(line@.subrange(0, i as int)),
        decreases n - i,
    {
        let b = line[i];
        if b < 48 || b > 57 {
            assert(!is_ascii_digit(line@[i as int]));
            return Err(DecodeError { text: vstd::slice::slice_to_vec(line) });
        }
        let step = match acc.checked_mul(10) {
            Some(m) => m.checked_add((b - 48) as u64),
            None => None,
        };
        proof {
            assert(line@.subrange(0, i + 1).drop_last() =~= line@.subrange(0, i as int));
            assert(line@.subrange(0, i + 1).last() == line@[i as int]);
        }
        match step {
            Some(v) => {
                acc = v;
                i += 1;
            },
            None => {
                proof {
                    assert(digits_value(line@.subrange(0, i + 1)) > u64::MAX);
                    if all_digits(line@) {
                        lemma_digits_value_monotone(line@, i + 1);
                    }
                }
                return Err(DecodeError { text: vstd::slice::slice_to_vec(line) });
            },
        }
    }
    proof {
        assert(line@.subrange(0, n as int) =~= line@);
    }
    Ok(acc)
}

/// The framing-plus-parsing pipeline for one direction of the wire, pairing
/// a [`LineFramer`] with the numeric response parser, as the connection uses
/// it: bytes in, parsed unsigned 64-bit values out; commands in, framed wire
/// text out.
pub struct ArduinoCodec {
    framer: LineFramer,
}

impl View for ArduinoCodec {
    type V = Seq<u8>;

    closed spec fn view(&self) -> Seq<u8> {
        self.framer@
    }
}

impl ArduinoCodec {
    /// A codec with nothing buffered.
    pub fn new() -> (codec: ArduinoCodec)
        ensures
            codec@ == Seq::<u8>::empty(),
    {
        ArduinoCodec { framer: LineFramer::new() }
    }

    /// Buffers bytes read from the transport.
    pub fn feed(&mut self, bytes: &[u8])
        ensures
            final(self)@ == old(self)@ + bytes@,
    {
        self.framer.push_bytes(bytes);
    }

    /// Decodes the next buffered response, if a complete line has arrived.
    ///
    /// A complete line is consumed either way: it yields its numeric value
    /// when well formed, and a malformed-response error carrying the raw
    /// text otherwise.  With no complete line buffered, nothing happens.
    pub fn decode(&mut self) -> (decoded: Result<Option<u64>, DecodeError>)
        ensures
            !framer::has_line(old(self)@) ==> {
                &&& decoded matches Ok(x) && x is None
                &&& final(self)@ == old(self)@
            },
            framer::has_line(old(self)@) ==> {
                &&& final(self)@ == framer::rest_after_line(old(self)@)
                &&& is_decimal_u64(framer::first_line(old(self)@)) ==> (decoded matches Ok(x)
                    && x matches Some(v) && v == digits_value(framer::first_line(old(self)@)))
                &&& !is_decimal_u64(framer::first_line(old(self)@)) ==> (decoded matches Err(e)
                    && e.text@ == framer::first_line(old(self)@))
            },
    {
        match self.framer.next_line() {
            None => Ok(None),
            Some(l) => match decode_value(l.as_slice()) {
                Ok(v) => Ok(Some(v)),
                Err(e) => Err(e),
            },
        }
    }

    /// Stream-end check: an incomplete trailing frame is a framing error.
    pub fn decode_eof(&self) -> (r: Result<(), FrameError>)
        ensures
            self@.len() == 0 ==> r is Ok,
            self@.len() > 0 ==> r == Err::<(), FrameError>(FrameError::IncompleteTrailingFrame),
    {
        self.framer.finish()
    }

    /// Frames a command for the wire: its canonical text plus terminator.
    pub fn encode(command: ArduinoCommand) -> (wire_bytes: Vec<u8>)
        ensures
            wire_bytes@ == framer::framed(wire_text(command)),
    {
        framer::encode_line(encode_command(command).as_slice())
    }
}

} // verus!
