//! Body framing: which bytes of the connection belong to the current message.

use crate::source::ByteSource;
use hyper::http::h1::HttpReader;
use std::io::Read;
use vstd::prelude::*;

verus! {

/// Why a body read failed.
#[derive(Clone, Copy, Debug, PartialEq, Eq, Structural)]
pub enum IoError {
    /// The connection ended before the body did.
    UnexpectedEnd,
    /// The bytes on the connection do not follow the chunk grammar.
    InvalidInput,
}

/// The strategy that delimits a body, with what is left of it.
#[derive(Clone, Copy, Debug, PartialEq, Eq)]
pub enum Framing {
    /// A body of declared length; the number counts the bytes still to come.
    Sized(u64),
    /// A chunked body. `None`: the next chunk's size line has not been read.
    /// `Some(n)`: `n` payload bytes of the current chunk are still to come,
    /// and `Some(0)` marks a body whose terminal chunk has been consumed.
    Chunked(Option<u64>),
    /// No body at all.
    Empty,
}

/// What one step of the chunk decoder did.
#[derive(Clone, Copy, Debug)]
pub struct ChunkStep {
    /// The number of payload bytes written to the front of the buffer.
    pub result: Result<usize, IoError>,
    /// How many bytes of the connection are still unread after the step.
    pub rest: usize,
    /// The decoder state after the step.
    pub state: Option<u64>,
}

/// The effect of one read on a body: what the caller gets, the framing that
/// remains, how far the connection cursor moved and what the buffer holds.
pub ghost struct ReadOutcome {
    pub result: Result<usize, IoError>,
    pub framing: Framing,
    pub consumed: nat,
    pub buf: Seq<u8>,
}

/// The step that the chunk decoder takes on the unread bytes `unread`, from
/// the decoder state `state`, with a buffer that holds `buf`; the second
/// component is the buffer after the step.
pub uninterp spec fn chunk_decode(unread: Seq<u8>, state: Option<u64>, buf: Seq<u8>) -> (ChunkStep, Seq<u8>);

/// Whether `b` is an ASCII hexadecimal digit.
pub open spec fn is_hex_digit(b: u8) -> bool {
    (0x30 <= b <= 0x39) || (0x41 <= b <= 0x46) || (0x61 <= b <= 0x66)
}

/// The number of hexadecimal digits that `s` starts with.
pub open spec fn hex_run(s: Seq<u8>) -> nat
    decreases s.len(),
{
    if s.len() > 0 && is_hex_digit(s[0]) {
        1 + hex_run(s.skip(1))
    } else {
        0
    }
}

/// The number of zero digits that `s` starts with.
pub open spec fn zero_run(s: Seq<u8>) -> nat
    decreases s.len(),
{
    if s.len() > 0 && s[0] == 0x30 {
        1 + zero_run(s.skip(1))
    } else {
        0
    }
}

/// The number of digits that the chunk size at the start of `s` has once
/// its leading zeros are left out.
pub open spec fn size_digits(s: Seq<u8>) -> nat {
    hex_run(s.skip(zero_run(s) as int))
}

/// The longest chunk size, in hexadecimal digits, that always fits in 64 bits.
pub const MAX_SIZE_DIGITS: usize = 16;

/// The framing chosen for a message: chunked wins over a declared length, and
/// a message that declares neither has no body.
pub open spec fn select_framing(len: Option<u64>, chunked: bool) -> Framing {
    if chunked {
        Framing::Chunked(None)
    } else {
        match len {
            Some(n) => Framing::Sized(n),
            None => Framing::Empty,
        }
    }
}

/// How many bytes a read with room for `want` may ask of the connection
/// for a body framed by `framing`, where the framing alone decides: what a
/// sized body has left, up to `want`; nothing for an empty body. For a
/// chunked body the decoder decides, so this is zero as well.
pub open spec fn quota_of(framing: Framing, want: nat) -> nat {
    match framing {
        Framing::Sized(remaining) => if remaining < want { remaining as nat } else { want },
        _ => 0,
    }
}

/// The framing after the connection has delivered `got` bytes of the body.
/// A sized body has that many fewer to come, and nothing to come where the
/// connection delivered more than was left. Nothing else counts bytes.
pub open spec fn after_bytes(framing: Framing, got: nat) -> Framing {
    match framing {
        Framing::Sized(remaining) => if got >= remaining {
            Framing::Sized(0)
        } else {
            Framing::Sized((remaining - got) as u64)
        },
        _ => framing,
    }
}

impl Framing {
    /// How many bytes to ask of the connection for a read with room for
    /// `want` bytes.
    pub fn quota(&self, want: usize) -> (n: usize)
        ensures
            n == quota_of(*self, want as nat),
    {
        match self {
            Framing::Sized(remaining) => if *remaining < want as u64 { *remaining as usize } else { want },
            _ => 0,
        }
    }

    /// Records that the connection delivered `got` bytes where some were
    /// asked for. None at all means that the connection has ended before
    /// the body: that is an error, and the framing stays as it was.
    pub fn advance(&mut self, got: usize) -> (res: Result<usize, IoError>)
        ensures
            got == 0 ==> res == Err::<usize, IoError>(IoError::UnexpectedEnd) && *final(self) == *old(self),
            got > 0 ==> res == Ok::<usize, IoError>(got) && *final(self) == after_bytes(*old(self), got as nat),
    {
        if got == 0 {
            return Err(IoError::UnexpectedEnd);
        }
        match *self {
            Framing::Sized(remaining) => {
                if got as u64 >= remaining {
                    *self = Framing::Sized(0);
                } else {
                    *self = Framing::Sized(remaining - got as u64);
                }
            },
            _ => {},
        }
        Ok(got)
    }

    /// Whether every further read reports end-of-stream.
    pub fn is_exhausted(&self) -> (done: bool)
        ensures
            done == exhausted(*self),
    {
        match self {
            Framing::Sized(remaining) => *remaining == 0,
            Framing::Chunked(Some(n)) => *n == 0,
            Framing::Chunked(None) => false,
            Framing::Empty => true,
        }
    }

    /// Chooses the framing of a message from what it declared.
    pub fn select(len: Option<u64>, chunked: bool) -> (framing: Framing)
        ensures
            framing == select_framing(len, chunked),
    {
        if chunked {
            Framing::Chunked(None)
        } else {
            match len {
                Some(n) => Framing::Sized(n),
                None => Framing::Empty,
            }
        }
    }
}

/// Whether every read on `framing` reports end-of-stream.
pub open spec fn exhausted(framing: Framing) -> bool {
    match framing {
        Framing::Sized(remaining) => remaining == 0,
        Framing::Chunked(state) => state == Some(0u64),
        Framing::Empty => true,
    }
}

/// A read that reports `result` and leaves everything else as it was.
pub open spec fn untouched(framing: Framing, buf: Seq<u8>, result: Result<usize, IoError>) -> ReadOutcome {
    ReadOutcome { result, framing, consumed: 0, buf }
}

/// The number of bytes that a read on a sized body hands out: no more than
/// the body has left, the buffer can hold, or the connection has.
pub open spec fn sized_len(remaining: u64, unread: Seq<u8>, buf: Seq<u8>) -> nat {
    let cap = if buf.len() < unread.len() { buf.len() } else { unread.len() };
    if remaining < cap { remaining as nat } else { cap }
}

/// What a decoder step means for the body it was taken on.
pub open spec fn chunk_outcome(unread: Seq<u8>, step: ChunkStep, buf: Seq<u8>) -> ReadOutcome {
    ReadOutcome {
        result: step.result,
        framing: Framing::Chunked(step.state),
        consumed: (unread.len() - step.rest) as nat,
        buf,
    }
}

/// What one read does, for a body framed by `framing` over a connection
/// whose unread bytes are `unread`, into a buffer that holds `buf`.
pub open spec fn read_outcome(framing: Framing, unread: Seq<u8>, buf: Seq<u8>) -> ReadOutcome {
    if buf.len() == 0 || exhausted(framing) {
        untouched(framing, buf, Ok(0))
    } else {
        match framing {
            Framing::Sized(remaining) => {
                let n = sized_len(remaining, unread, buf);
                if n == 0 {
                    untouched(framing, buf, Err(IoError::UnexpectedEnd))
                } else {
                    ReadOutcome {
                        result: Ok(n as usize),
                        framing: Framing::Sized((remaining - n) as u64),
                        consumed: n,
                        buf: unread.take(n as int) + buf.skip(n as int),
                    }
                }
            },
            Framing::Chunked(state) => {
                if state is None && size_digits(unread) > MAX_SIZE_DIGITS {
                    untouched(framing, buf, Err(IoError::InvalidInput))
                } else {
                    let (step, filled) = chunk_decode(unread, state, buf);
                    chunk_outcome(unread, step, filled)
                }
            },
            Framing::Empty => untouched(framing, buf, Ok(0)),
        }
    }
}

/// One read of hyper's `HttpReader::ChunkedReader` over the bytes of `data`
/// from `pos` on. Nothing is proved of it. The contract names the step it
/// takes and claims of it only what its source shows: the buffer keeps its
/// length, the slice it reads from only gets shorter, a count of bytes
/// never exceeds the buffer, and end-of-stream is reported only once the
/// terminal chunk has been consumed. A chunk size of more than sixteen
/// digits after its leading zeros is kept away from it, because its running
/// sum would leave 64 bits.
#[verifier::external_body]
fn chunked_read(data: &Vec<u8>, pos: usize, state: Option<u64>, buf: &mut [u8]) -> (step: ChunkStep)
    requires
        pos <= data@.len(),
        old(buf)@.len() > 0,
        state is None ==> size_digits(data@.skip(pos as int)) <= MAX_SIZE_DIGITS,
    ensures
        (step, final(buf)@) == chunk_decode(data@.skip(pos as int), state, old(buf)@),
        final(buf)@.len() == old(buf)@.len(),
        step.rest <= data@.len() - pos,
        step.result matches Ok(n) ==> n <= old(buf)@.len() && (n == 0 ==> step.state == Some(0u64)),
{
    let mut rest: &[u8] = &data[pos..];
    let mut reader = HttpReader::ChunkedReader(&mut rest, state);
    let result = match reader.read(buf) {
        Ok(n) => Ok(n),
        Err(e) => match e.kind() {
            std::io::ErrorKind::InvalidInput => Err(IoError::InvalidInput),
            _ => Err(IoError::UnexpectedEnd),
        },
    };
    let state = match reader {
        HttpReader::ChunkedReader(_, after) => after,
        _ => state,
    };
    ChunkStep { result, rest: rest.len(), state }
}

/// Whether `b` is an ASCII hexadecimal digit.
pub fn is_hex(b: u8) -> (hex: bool)
    ensures
        hex == is_hex_digit(b),
{
    (0x30 <= b && b <= 0x39) || (0x41 <= b && b <= 0x46) || (0x61 <= b && b <= 0x66)
}

/// Whether the bytes of `data` from `start` on begin with at most
/// `MAX_SIZE_DIGITS` hexadecimal digits.
fn hex_run_fits(data: &Vec<u8>, start: usize) -> (fits: bool)
    requires
        start <= data@.len(),
    ensures
        fits == (hex_run(data@.skip(start as int)) <= MAX_SIZE_DIGITS),
{
    let len: usize = data.len();
    let mut i: usize = 0;
    while i <= MAX_SIZE_DIGITS && i < len - start
        invariant
            len == data@.len(),
            start <= len,
            i <= MAX_SIZE_DIGITS + 1,
            i <= len - start,
            hex_run(data@.skip(start as int)) == i + hex_run(data@.skip(start + i)),
        decreases len - start - i,
    {
        let b: u8 = data[start + i];
        proof {
            let tail = data@.skip(start + i);
            assert(tail.len() > 0 && tail[0] == b);
            assert(tail.skip(1) =~= data@.skip(start + i + 1));
        }
        if !is_hex(b) {
            return i <= MAX_SIZE_DIGITS;
        }
        i += 1;
    }
    proof {
        if i == len - start {
            assert(data@.skip(start + i).len() == 0);
        }
    }
    i <= MAX_SIZE_DIGITS
}

/// Whether the chunk size that the bytes of `data` from `pos` on begin
/// with has at most `MAX_SIZE_DIGITS` digits after its leading zeros.
pub fn size_line_fits(data: &Vec<u8>, pos: usize) -> (fits: bool)
    requires
        pos <= data@.len(),
    ensures
        fits == (size_digits(data@.skip(pos as int)) <= MAX_SIZE_DIGITS),
{
    let len: usize = data.len();
    let mut zeros: usize = 0;
    while zeros < len - pos && data[pos + zeros] == 0x30
        invariant
            len == data@.len(),
            pos <= len,
            zeros <= len - pos,
            zero_run(data@.skip(pos as int)) == zeros + zero_run(data@.skip(pos + zeros)),
        decreases len - pos - zeros,
    {
        proof {
            let tail = data@.skip(pos + zeros);
            assert(tail.len() > 0 && tail[0] == 0x30);
            assert(tail.skip(1) =~= data@.skip(pos + zeros + 1));
        }
        zeros += 1;
    }
    proof {
        let tail = data@.skip(pos + zeros);
        assert(tail.len() == 0 || tail[0] != 0x30);
        assert(zero_run(tail) == 0);
        assert(data@.skip(pos as int).skip(zeros as int) =~= data@.skip(pos + zeros));
    }
    hex_run_fits(data, pos + zeros)
}

/// The body of a request: a framing strategy over the connection it reads.
#[derive(Debug)]
pub struct Body {
    /// The connection that the body is read from.
    pub source: ByteSource,
    /// What is left of the body.
    pub framing: Framing,
}

impl Body {
    /// A body over `source` in a given framing state.
    pub fn new(source: ByteSource, framing: Framing) -> (body: Body)
        ensures
            body.source == source,
            body.framing == framing,
    {
        Body { source, framing }
    }

    /// A body over `reader`, framed by what the message declared: chunked
    /// transfer-encoding first, else the declared length, else no body.
    pub fn from_reader(reader: ByteSource, len: Option<u64>, chunked: bool) -> (body: Body)
        ensures
            body.source == reader,
            body.framing == select_framing(len, chunked),
    {
        Body { source: reader, framing: Framing::select(len, chunked) }
    }

    /// Gives the connection back, for the message that follows.
    pub fn into_source(self) -> (source: ByteSource)
        ensures
            source == self.source,
    {
        self.source
    }

    /// Whether every further read reports end-of-stream.
    pub fn is_exhausted(&self) -> (done: bool)
        ensures
            done == exhausted(self.framing),
    {
        self.framing.is_exhausted()
    }

    /// Records a step of the chunk decoder: the decoder's new state becomes
    /// the framing, the cursor moves to where the decoder stopped, and the
    /// step's result is handed on.
    pub fn apply_chunk_step(&mut self, step: ChunkStep) -> (res: Result<usize, IoError>)
        requires
            step.rest <= old(self).source.unread().len(),
        ensures
            final(self).source.bytes() == old(self).source.bytes(),
            res == step.result,
            final(self).framing == Framing::Chunked(step.state),
            final(self).source.cursor() == old(self).source.cursor() + (old(self).source.unread().len() - step.rest),
    {
        let unread: usize = self.source.available();
        self.source.skip(unread - step.rest);
        self.framing = Framing::Chunked(step.state);
        step.result
    }

    /// Reads some bytes of the body into the front of `buf`. `Ok(0)` is
    /// end-of-stream, or an empty buffer. A sized body fails where the
    /// connection ends before it does. A chunked body is decoded step by
    /// step. A chunk size of more than `MAX_SIZE_DIGITS` digits after its
    /// leading zeros is refused as invalid before the decoder sees it. The
    /// decoder takes the terminal chunk to end with its size line and one
    /// empty line: where trailer fields follow the size line, the read that
    /// meets them fails with `InvalidInput`.
    pub fn read(&mut self, buf: &mut [u8]) -> (res: Result<usize, IoError>)
        ensures
            final(self).source.bytes() == old(self).source.bytes(),
            final(buf)@.len() == old(buf)@.len(),
            ({
                let outcome = read_outcome(old(self).framing, old(self).source.unread(), old(buf)@);
                &&& res == outcome.result
                &&& final(self).framing == outcome.framing
                &&& final(self).source.cursor() == old(self).source.cursor() + outcome.consumed
                &&& final(buf)@ == outcome.buf
            }),
            res == Ok::<usize, IoError>(0) && old(buf)@.len() > 0 ==> exhausted(final(self).framing),
    {
        let want: usize = buf.len();
        if want == 0 || self.is_exhausted() {
            return Ok(0);
        }
        match self.framing {
            Framing::Sized(_) => {
                let quota: usize = self.framing.quota(want);
                let unread: usize = self.source.available();
                let n: usize = if quota < unread { quota } else { unread };
                self.source.take(buf, n);
                self.framing.advance(n)
            },
            Framing::Chunked(state) => {
                let pos: usize = self.source.position();
                assert(self.source.unread() == self.source.bytes().skip(pos as int));
                if state.is_none() && !size_line_fits(self.source.data(), pos) {
                    return Err(IoError::InvalidInput);
                }
                let step = chunked_read(self.source.data(), pos, state, buf);
                self.apply_chunk_step(step)
            },
            Framing::Empty => Ok(0),
        }
    }
}

/// Chunked transfer-encoding decides the framing where it is declared,
/// whatever length is declared beside it.
pub proof fn chunked_takes_precedence(len: Option<u64>)
    ensures
        select_framing(len, true) == Framing::Chunked(None),
{
}

/// A message that declares neither a length nor chunked transfer-encoding
/// has an empty body, and a read on it reports end-of-stream at once: the
/// connection and the buffer stay as they were.
pub proof fn undeclared_body_is_empty(unread: Seq<u8>, buf: Seq<u8>)
    ensures
        select_framing(None, false) == Framing::Empty,
        read_outcome(select_framing(None, false), unread, buf) == untouched(Framing::Empty, buf, Ok(0)),
{
}

/// Once a body is exhausted, every read on it reports end-of-stream,
/// consumes nothing, leaves the buffer alone, and the body stays exhausted.
pub proof fn exhausted_reads_nothing(framing: Framing, unread: Seq<u8>, buf: Seq<u8>)
    requires
        exhausted(framing),
    ensures
        read_outcome(framing, unread, buf) == untouched(framing, buf, Ok(0)),
        exhausted(read_outcome(framing, unread, buf).framing),
{
}

/// A read on a sized body stays within the message: it consumes no more
/// than the body has left, takes that much off what is left, and hands out
/// the next bytes of the connection, as many as it consumed. It fails only
/// where the connection has ended before the body, and then consumes
/// nothing.
pub proof fn sized_read_stays_within(remaining: u64, unread: Seq<u8>, buf: Seq<u8>)
    requires
        buf.len() <= usize::MAX,
    ensures
        ({
            let outcome = read_outcome(Framing::Sized(remaining), unread, buf);
            &&& outcome.consumed <= remaining
            &&& outcome.consumed <= buf.len()
            &&& outcome.consumed <= unread.len()
            &&& outcome.framing == Framing::Sized((remaining - outcome.consumed) as u64)
            &&& outcome.buf.len() == buf.len()
            &&& outcome.buf.take(outcome.consumed as int) == unread.take(outcome.consumed as int)
            &&& match outcome.result {
                Ok(n) => n == outcome.consumed,
                Err(e) => e == IoError::UnexpectedEnd && outcome.consumed == 0 && remaining > 0
                    && buf.len() > 0 && unread.len() == 0,
            }
        }),
{
    let outcome = read_outcome(Framing::Sized(remaining), unread, buf);
    assert(outcome.buf.take(outcome.consumed as int) =~= unread.take(outcome.consumed as int));
}

/// The room that the buffers `bufs` have in all.
pub open spec fn total_room(bufs: Seq<Seq<u8>>) -> nat
    decreases bufs.len(),
{
    if bufs.len() == 0 {
        0
    } else {
        bufs[0].len() + total_room(bufs.skip(1))
    }
}

/// The bytes that a sized body hands out in all, over a run of reads into
/// the buffers `bufs`, one after the other.
pub open spec fn sized_run(remaining: u64, unread: Seq<u8>, bufs: Seq<Seq<u8>>) -> Seq<u8>
    decreases bufs.len(),
{
    if bufs.len() == 0 {
        Seq::empty()
    } else {
        let outcome = read_outcome(Framing::Sized(remaining), unread, bufs[0]);
        outcome.buf.take(outcome.consumed as int) + sized_run(
            (remaining - outcome.consumed) as u64,
            unread.skip(outcome.consumed as int),
            bufs.skip(1),
        )
    }
}

/// The smallest of three numbers.
pub open spec fn min3(a: nat, b: nat, c: nat) -> nat {
    if a <= b && a <= c {
        a
    } else if b <= c {
        b
    } else {
        c
    }
}

/// Whatever sizes the buffers of a run of reads have, a sized body hands
/// out the first bytes of the connection and nothing else: as many as the
/// body has left, or as the connection holds, or as the buffers have room
/// for, whichever is least.
pub proof fn sized_run_is_the_message(remaining: u64, unread: Seq<u8>, bufs: Seq<Seq<u8>>)
    ensures
        sized_run(remaining, unread, bufs) == unread.take(
            min3(remaining as nat, unread.len(), total_room(bufs)) as int,
        ),
    decreases bufs.len(),
{
    if bufs.len() == 0 {
        assert(sized_run(remaining, unread, bufs) =~= unread.take(0));
    } else {
        let outcome = read_outcome(Framing::Sized(remaining), unread, bufs[0]);
        let n = outcome.consumed;
        let left = (remaining - n) as u64;
        assert(n == min3(remaining as nat, unread.len(), bufs[0].len()));
        assert(outcome.buf.take(n as int) =~= unread.take(n as int));
        sized_run_is_the_message(left, unread.skip(n as int), bufs.skip(1));
        let more = min3(left as nat, unread.skip(n as int).len(), total_room(bufs.skip(1)));
        assert(n + more == min3(remaining as nat, unread.len(), total_room(bufs)));
        assert(unread.take(n as int) + unread.skip(n as int).take(more as int) =~= unread.take(
            (n + more) as int,
        ));
    }
}

} // verus!
