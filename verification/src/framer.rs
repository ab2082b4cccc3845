//! Line framing over a raw byte stream.
//!
//! The wire carries discrete text lines: a line is every byte up to the next
//! line feed, with one trailing carriage return (if present) treated as part
//! of the terminator and stripped.  [`LineFramer`] buffers incoming bytes,
//! yields each line only once its terminator has been observed, and never
//! drops a byte: the buffered bytes are always exactly the received bytes
//! that no returned line has consumed.

use vstd::prelude::*;

verus! {

/// The byte that terminates every line on the wire.
pub const LINE_FEED: u8 = 10;

/// An optional byte just before the terminator, stripped with it.
pub const CARRIAGE_RETURN: u8 = 13;

/// Framing failure: the stream ended while a partial line was still buffered.
#[derive(Clone, Copy, Debug, PartialEq, Eq, Structural)]
pub enum FrameError {
    IncompleteTrailingFrame,
}

/// Whether the buffered bytes hold at least one complete line.
pub open spec fn has_line(s: Seq<u8>) -> bool {
    exists|i: int| 0 <= i < s.len() && s[i] == LINE_FEED
}

/// Index of the first line feed in `s` (meaningful only when `has_line(s)`).
pub open spec fn terminator_index(s: Seq<u8>) -> int
    decreases s.len(),
{
    if s.len() == 0 {
        0
    } else if s[0] == LINE_FEED {
        0
    } else {
        1 + terminator_index(s.subrange(1, s.len() as int))
    }
}

/// Drops one trailing carriage return, if the text ends with one.
pub open spec fn strip_carriage_return(s: Seq<u8>) -> Seq<u8> {
    if s.len() > 0 && s[s.len() - 1] == CARRIAGE_RETURN {
        s.drop_last()
    } else {
        s
    }
}

/// The first complete line of `s`, terminator stripped.
pub open spec fn first_line(s: Seq<u8>) -> Seq<u8> {
    strip_carriage_return(s.subrange(0, terminator_index(s)))
}

/// What remains of `s` once its first complete line is consumed.
pub open spec fn rest_after_line(s: Seq<u8>) -> Seq<u8> {
    s.subrange(terminator_index(s) + 1, s.len() as int)
}

/// Outgoing text followed by the line terminator.
pub open spec fn framed(s: Seq<u8>) -> Seq<u8> {
    s + seq![LINE_FEED]
}

/// The first line feed determines `terminator_index`.
pub proof fn lemma_terminator_index_at(s: Seq<u8>, i: int)
    requires
        0 <= i < s.len(),
        s[i] == LINE_FEED,
        forall|j: int| 0 <= j < i ==> s[j] != LINE_FEED,
    ensures
        terminator_index(s) == i,
    decreases s.len(),
{
    if i > 0 {
        let t = s.subrange(1, s.len() as int);
        assert(t[i - 1] == LINE_FEED);
        assert forall|j: int| 0 <= j < i - 1 implies t[j] != LINE_FEED by {
            assert(s[j + 1] != LINE_FEED);
        }
        lemma_terminator_index_at(t, i - 1);
    }
}

/// Buffers incoming bytes and yields complete, terminator-stripped lines.
pub struct LineFramer {
    buf: Vec<u8>,
}

impl View for LineFramer {
    type V = Seq<u8>;

    closed spec fn view(&self) -> Seq<u8> {
        self.buf@
    }
}

impl LineFramer {
    /// A framer with nothing buffered.
    pub fn new() -> (framer: LineFramer)
        ensures
            framer@ == Seq::<u8>::empty(),
    {
        LineFramer { buf: Vec::new() }
    }

    /// Appends bytes read from the transport to the buffer.
    pub fn push_bytes(&mut self, bytes: &[u8])
        ensures
            final(self)@ == old(self)@ + bytes@,
    {
        let mut more = vstd::slice::slice_to_vec(bytes);
        self.buf.append(&mut more);
    }

    /// Pops the first complete line, if one full terminator has arrived.
    ///
    /// A returned line has its terminator stripped; the bytes after the
    /// terminator stay buffered for the next call.  Without a complete
    /// terminator nothing is consumed and nothing is returned.
    pub fn next_line(&mut self) -> (line: Option<Vec<u8>>)
        ensures
            !has_line(old(self)@) ==> line is None && final(self)@ == old(self)@,
            has_line(old(self)@) ==> {
                &&& line matches Some(l) && l@ == first_line(old(self)@)
                &&& final(self)@ == rest_after_line(old(self)@)
            },
    {
        let n = self.buf.len();
        let mut i: usize = 0;
        while i < n && self.buf[i] != LINE_FEED
            invariant
                n == self.buf.len(),
                i <= n,
                forall|j: int| 0 <= j < i ==> self.buf@[j] != LINE_FEED,
            decreases n - i,
        {
            i += 1;
        }
        if i == n {
            assert(!has_line(self.buf@));
            return None;
        }
        proof {
            lemma_terminator_index_at(self.buf@, i as int);
        }
        let line_end: usize = if i > 0 && self.buf[i - 1] == CARRIAGE_RETURN {
            i - 1
        } else {
            i
        };
        let mut l: Vec<u8> = Vec::new();
        let mut k: usize = 0;
        while k < line_end
            invariant
                line_end <= i < n,
                n == self.buf.len(),
                k <= line_end,
                l@ == self.buf@.subrange(0, k as int),
            decreases line_end - k,
        {
            l.push(self.buf[k]);
            assert(l@ =~= self.buf@.subrange(0, k + 1));
            k += 1;
        }
        let mut rest: Vec<u8> = Vec::new();
        let mut r: usize = i + 1;
        while r < n
            invariant
                i < n,
                n == self.buf.len(),
                i + 1 <= r <= n,
                rest@ == self.buf@.subrange(i + 1, r as int),
            decreases n - r,
        {
            rest.push(self.buf[r]);
            assert(rest@ =~= self.buf@.subrange(i + 1, r + 1));
            r += 1;
        }
        proof {
            assert(l@ =~= strip_carriage_return(self.buf@.subrange(0, i as int)));
            assert(rest@ =~= rest_after_line(self.buf@));
        }
        self.buf = rest;
        Some(l)
    }

    /// Whether any bytes are buffered (a partial or unread line).
    pub fn has_pending(&self) -> (pending: bool)
        ensures
            pending == (self@.len() > 0),
    {
        self.buf.len() > 0
    }

    /// Stream-end check: a clean end of stream leaves nothing buffered, while
    /// trailing bytes with no terminator are an incomplete frame.
    pub fn finish(&self) -> (r: Result<(), FrameError>)
        ensures
            self@.len() == 0 ==> r is Ok,
            self@.len() > 0 ==> r == Err::<(), FrameError>(FrameError::IncompleteTrailingFrame),
    {
        if self.buf.len() == 0 {
            Ok(())
        } else {
            Err(FrameError::IncompleteTrailingFrame)
        }
    }
}

/// Frames outgoing text: the text followed by the line terminator.
pub fn encode_line(text: &[u8]) -> (wire_bytes: Vec<u8>)
    ensures
        wire_bytes@ == framed(text@),
{
    let mut out = vstd::slice::slice_to_vec(text);
    out.push(LINE_FEED);
    assert(out@ =~= framed(text@));
    out
}

} // verus!
