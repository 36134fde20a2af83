//! UART frame protocol between the base station and its host.
//!
//! Frame format:
//!   `[SYNC 0xAA] [LEN_LO] [LEN_HI] [CMD] [PAYLOAD: LEN bytes] [CRC8]`
//!
//! LEN is the payload length only (0 to 256). CRC8 covers CMD + PAYLOAD.

pub mod cmd;
pub mod err;
pub mod ota_state;
pub mod resp;

use vstd::prelude::*;
use crate::bytes::{copy_into, u16_le, u16_of};
use crate::crc::{crc8_detects_one_byte, crc8_of, crc8_run};

verus! {

/// Frame sync byte.
pub const SYNC: u8 = 0xAA;

/// Maximum payload size per frame.
pub const MAX_PAYLOAD: usize = 256;

/// Maximum size of what the check byte covers: the command and the payload.
pub const MAX_BODY: usize = 257;

/// Maximum size of a frame: sync, two length bytes, body, check byte.
pub const MAX_FRAME: usize = 261;

/// CRC-8/ITU of `data`: polynomial 0x07 from zero, with 0x55 flipped into the
/// result.
pub open spec fn frame_check(data: Seq<u8>) -> u8 {
    crc8_of(0x07, 0, data) ^ 0x55
}

/// CRC-8/ITU: polynomial 0x07 from zero, with 0x55 flipped into the result.
pub fn crc8(data: &[u8]) -> (r: u8)
    ensures
        r == frame_check(data@),
{
    crc8_run(0x07, 0, data) ^ 0x55
}

/// The payload that a frame carries for `payload`: as much as fits.
pub open spec fn carried(payload: Seq<u8>) -> Seq<u8> {
    if payload.len() <= MAX_PAYLOAD {
        payload
    } else {
        payload.subrange(0, MAX_PAYLOAD as int)
    }
}

/// The bytes of the frame with command `cmd_id` and payload `payload`.
pub open spec fn frame_bytes(cmd_id: u8, payload: Seq<u8>) -> Seq<u8> {
    let body = seq![cmd_id] + carried(payload);
    seq![SYNC] + u16_le(carried(payload).len() as u16) + body + seq![frame_check(body)]
}

/// Where a receiver stands in a frame.
pub enum Parsing {
    /// Waiting for the sync byte.
    Sync,
    /// The low length byte is next.
    LenLo,
    /// The high length byte is next.
    LenHi { lo: u8 },
    /// Collecting the command and the payload, `expected` bytes in all.
    Body { expected: int, got: Seq<u8> },
    /// The check byte over `body` is next.
    Check { body: Seq<u8> },
}

/// One received byte: the new standing, and the body of the frame that the
/// byte completes, if it completes one.
pub open spec fn parse_byte(p: Parsing, byte: u8) -> (Parsing, Option<Seq<u8>>) {
    match p {
        Parsing::Sync => (
            if byte == SYNC {
                Parsing::LenLo
            } else {
                Parsing::Sync
            },
            None,
        ),
        Parsing::LenLo => (Parsing::LenHi { lo: byte }, None),
        Parsing::LenHi { lo } => (
            if u16_of(lo, byte) > MAX_PAYLOAD {
                Parsing::Sync
            } else {
                Parsing::Body { expected: u16_of(lo, byte) + 1, got: Seq::empty() }
            },
            None,
        ),
        Parsing::Body { expected, got } => (
            if got.len() + 1 < expected {
                Parsing::Body { expected, got: got.push(byte) }
            } else {
                Parsing::Check { body: got.push(byte) }
            },
            None,
        ),
        Parsing::Check { body } => (
            Parsing::Sync,
            if frame_check(body) == byte {
                Some(body)
            } else {
                None
            },
        ),
    }
}

/// A run of received bytes: the new standing, and the bodies of the frames
/// that the bytes complete, in order.
pub open spec fn parse_bytes(p: Parsing, bytes: Seq<u8>) -> (Parsing, Seq<Seq<u8>>)
    decreases bytes.len(),
{
    if bytes.len() == 0 {
        (p, Seq::empty())
    } else {
        let before = parse_bytes(p, bytes.drop_last());
        let after = parse_byte(before.0, bytes.last());
        (
            after.0,
            match after.1 {
                Some(body) => before.1.push(body),
                None => before.1,
            },
        )
    }
}

#[derive(Clone, Copy)]
enum ParseState {
    Sync,
    LenLo,
    LenHi,
    Data,  // collects CMD + PAYLOAD
    Crc,
}

/// A parsed frame ready for processing.
pub struct Frame<'a> {
    pub cmd: u8,
    pub payload: &'a [u8],
}

/// Incremental frame parser. Feed bytes one at a time via `feed`.
pub struct FrameParser {
    state: ParseState,
    /// Buffer holding CMD + PAYLOAD.
    buf: [u8; MAX_BODY],
    /// Total expected bytes in buf (1 cmd + len payload).
    expected: usize,
    /// Current write position in buf.
    pos: usize,
}

impl FrameParser {
    /// Every parser that `new` and `feed` give.
    pub closed spec fn wf(self) -> bool {
        match self.state {
            ParseState::Sync => true,
            ParseState::LenLo => true,
            ParseState::LenHi => self.expected <= 255,
            ParseState::Data => self.pos < self.expected <= MAX_BODY,
            ParseState::Crc => 1 <= self.pos == self.expected <= MAX_BODY,
        }
    }

    /// Where the parser stands.
    pub closed spec fn standing(self) -> Parsing {
        match self.state {
            ParseState::Sync => Parsing::Sync,
            ParseState::LenLo => Parsing::LenLo,
            ParseState::LenHi => Parsing::LenHi { lo: self.expected as u8 },
            ParseState::Data => Parsing::Body {
                expected: self.expected as int,
                got: self.buf@.subrange(0, self.pos as int),
            },
            ParseState::Crc => Parsing::Check { body: self.buf@.subrange(0, self.pos as int) },
        }
    }

    /// The body that the parser holds, if it holds a whole one.
    pub closed spec fn held(self) -> Option<Seq<u8>> {
        if 1 <= self.expected <= MAX_BODY {
            Some(self.buf@.subrange(0, self.expected as int))
        } else {
            None
        }
    }

    /// A parser that waits for its first frame and holds none.
    pub fn new() -> (r: FrameParser)
        ensures
            r.wf(),
            r.standing() == Parsing::Sync,
            r.held() is None,
    {
        FrameParser { state: ParseState::Sync, buf: [0u8; MAX_BODY], expected: 0, pos: 0 }
    }

    /// Feed a single byte. Returns `true` when a complete valid frame has been
    /// received: `frame` then gives it, until the next call to `feed`.
    pub fn feed(&mut self, byte: u8) -> (r: bool)
        requires
            old(self).wf(),
        ensures
            final(self).wf(),
            final(self).standing() == parse_byte(old(self).standing(), byte).0,
            r == (parse_byte(old(self).standing(), byte).1 is Some),
            r ==> final(self).held() == parse_byte(old(self).standing(), byte).1,
    {
        match self.state {
            ParseState::Sync => {
                if byte == SYNC {
                    self.state = ParseState::LenLo;
                }
            },
            ParseState::LenLo => {
                self.expected = byte as usize;
                self.state = ParseState::LenHi;
            },
            ParseState::LenHi => {
                self.expected = self.expected + 256 * (byte as usize);
                if self.expected > MAX_PAYLOAD {
                    self.state = ParseState::Sync;
                } else {
                    // CMD (1 byte) + PAYLOAD (expected bytes)
                    self.expected = self.expected + 1;
                    self.pos = 0;
                    self.state = ParseState::Data;
                    assert(self.buf@.subrange(0, 0) =~= Seq::<u8>::empty());
                }
            },
            ParseState::Data => {
                self.buf[self.pos] = byte;
                self.pos = self.pos + 1;
                assert(self.buf@.subrange(0, self.pos as int) =~= old(self).buf@.subrange(
                    0,
                    old(self).pos as int,
                ).push(byte));
                if self.pos >= self.expected {
                    self.state = ParseState::Crc;
                }
            },
            ParseState::Crc => {
                let computed: u8 = crc8(&self.buf[0..self.expected]);
                self.state = ParseState::Sync;
                if computed == byte {
                    return true;
                }
                // CRC mismatch: discard frame
            },
        }
        false
    }

    /// The last parsed frame. Only valid immediately after `feed` returns
    /// `true`.
    pub fn frame(&self) -> (f: Frame<'_>)
        requires
            self.held() is Some,
        ensures
            seq![f.cmd] + f.payload@ == self.held()->0,
    {
        let f = Frame { cmd: self.buf[0], payload: &self.buf[1..self.expected] };
        assert(seq![f.cmd] + f.payload@ =~= self.held()->0);
        f
    }
}

/// Scratch buffer for building outgoing frames.
/// Max frame size: 1 sync + 2 len + 1 cmd + 256 payload + 1 crc = 261
pub struct FrameBuf {
    pub buf: [u8; MAX_FRAME],
    pub len: usize,
}

impl FrameBuf {
    /// The frame that the buffer holds.
    pub open spec fn view(self) -> Seq<u8> {
        self.buf@.subrange(0, self.len as int)
    }

    /// An empty buffer, all zero bytes.
    pub fn new() -> (r: FrameBuf)
        ensures
            r.len == 0,
            r.buf@ == Seq::new(MAX_FRAME as nat, |i: int| 0u8),
            r@ == Seq::<u8>::empty(),
    {
        FrameBuf { buf: [0u8; MAX_FRAME], len: 0 }
    }

    /// Build a frame with the given command and payload.
    pub fn build(&mut self, cmd: u8, payload: &[u8])
        ensures
            final(self).len <= MAX_FRAME,
            final(self)@ == frame_bytes(cmd, payload@),
    {
        let plen: usize = if payload.len() <= MAX_PAYLOAD {
            payload.len()
        } else {
            MAX_PAYLOAD
        };
        let part: &[u8] = &payload[0..plen];
        assert(part@ =~= carried(payload@));
        self.buf[0] = SYNC;
        self.buf[1] = (plen % 256) as u8;
        self.buf[2] = (plen / 256) as u8;
        self.buf[3] = cmd;
        copy_into(&mut self.buf, 4, part);

        // CRC over CMD + PAYLOAD
        let crc_data_end: usize = 4 + plen;
        let crc: u8 = crc8(&self.buf[3..crc_data_end]);
        let ghost body = seq![cmd] + carried(payload@);
        assert(self.buf@.subrange(3, crc_data_end as int) =~= body);
        self.buf[crc_data_end] = crc;
        self.len = crc_data_end + 1;
        assert(self@ =~= frame_bytes(cmd, payload@));
    }

    /// The bytes of the frame.
    pub fn as_bytes(&self) -> (r: &[u8])
        requires
            self.len <= MAX_FRAME,
        ensures
            r@ == self@,
    {
        &self.buf[0..self.len]
    }
}

proof fn parse_bytes_push(p: Parsing, bytes: Seq<u8>, b: u8)
    ensures
        ({
            let before = parse_bytes(p, bytes);
            let after = parse_byte(before.0, b);
            &&& parse_bytes(p, bytes.push(b)).0 == after.0
            &&& after.1 is Some ==> parse_bytes(p, bytes.push(b)).1 == before.1.push(after.1->0)
            &&& after.1 is None ==> parse_bytes(p, bytes.push(b)).1 == before.1
        }),
{
    assert(bytes.push(b).drop_last() =~= bytes);
}

/// Bytes that come in two runs parse as they do in one.
pub proof fn parse_bytes_concat(p: Parsing, a: Seq<u8>, b: Seq<u8>)
    ensures
        parse_bytes(p, a + b).0 == parse_bytes(parse_bytes(p, a).0, b).0,
        parse_bytes(p, a + b).1 == parse_bytes(p, a).1 + parse_bytes(parse_bytes(p, a).0, b).1,
    decreases b.len(),
{
    if b.len() == 0 {
        assert(a + b =~= a);
    } else {
        assert((a + b).drop_last() =~= a + b.drop_last());
        parse_bytes_concat(p, a, b.drop_last());
        assert((a + b).last() == b.last());
        let one = parse_bytes(p, a + b).1;
        let two = parse_bytes(p, a).1 + parse_bytes(parse_bytes(p, a).0, b).1;
        assert(one =~= two);
    }
}

/// Collecting bytes of a body that has room for more.
proof fn parse_body_prefix(expected: int, data: Seq<u8>)
    requires
        data.len() < expected,
    ensures
        parse_bytes(Parsing::Body { expected, got: Seq::empty() }, data) == (
            Parsing::Body { expected, got: data },
            Seq::<Seq<u8>>::empty(),
        ),
    decreases data.len(),
{
    if data.len() > 0 {
        parse_body_prefix(expected, data.drop_last());
        assert(data.drop_last().push(data.last()) =~= data);
    } else {
        assert(data =~= Seq::<u8>::empty());
    }
}

/// A sync byte, a length, a body of that length and any check byte, from a
/// parser that waits for a frame: the parser waits for a frame again, and has
/// seen the body exactly if the check byte is right.
pub proof fn parse_one(body: Seq<u8>, check: u8)
    requires
        1 <= body.len() <= MAX_BODY,
    ensures
        ({
            let bytes = seq![SYNC] + u16_le((body.len() - 1) as u16) + body + seq![check];
            &&& parse_bytes(Parsing::Sync, bytes) == (
                Parsing::Sync,
                if frame_check(body) == check {
                    seq![body]
                } else {
                    Seq::<Seq<u8>>::empty()
                },
            )
            &&& parse_bytes(Parsing::Sync, bytes.drop_last()) == (
                Parsing::Check { body },
                Seq::<Seq<u8>>::empty(),
            )
        }),
{
    let n = (body.len() - 1) as u16;
    let b1 = seq![SYNC];
    let b2 = b1.push(u16_le(n)[0]);
    let b3 = b2.push(u16_le(n)[1]);
    let none = Seq::<Seq<u8>>::empty();
    assert(b1 =~= Seq::<u8>::empty().push(SYNC));
    parse_bytes_push(Parsing::Sync, Seq::empty(), SYNC);
    parse_bytes_push(Parsing::Sync, b1, u16_le(n)[0]);
    parse_bytes_push(Parsing::Sync, b2, u16_le(n)[1]);
    crate::bytes::u16_round_trip(n);
    let start = Parsing::Body { expected: body.len() as int, got: Seq::empty() };
    assert(parse_bytes(Parsing::Sync, b3) == (start, none));
    parse_body_prefix(body.len() as int, body.drop_last());
    parse_bytes_push(start, body.drop_last(), body.last());
    assert(body.drop_last().push(body.last()) =~= body);
    assert(parse_bytes(start, body) == (Parsing::Check { body }, none));
    parse_bytes_push(start, body, check);
    let bytes = seq![SYNC] + u16_le(n) + body + seq![check];
    assert(bytes =~= b3 + body.push(check));
    parse_bytes_concat(Parsing::Sync, b3, body.push(check));
    assert(bytes.drop_last() =~= b3 + body);
    parse_bytes_concat(Parsing::Sync, b3, body);
    assert(none + none.push(body) =~= seq![body]);
    assert(none + none =~= none);
    assert(none.push(body) =~= seq![body]);
}

/// What a frame carries comes out of a parser that waits for a frame, with the
/// frame's last byte and not before, and the parser waits for the next frame.
pub proof fn frame_round_trip(cmd_id: u8, payload: Seq<u8>)
    ensures
        ({
            let bytes = frame_bytes(cmd_id, payload);
            &&& parse_bytes(Parsing::Sync, bytes) == (
                Parsing::Sync,
                seq![seq![cmd_id] + carried(payload)],
            )
            &&& parse_bytes(Parsing::Sync, bytes.drop_last()).1 == Seq::<Seq<u8>>::empty()
        }),
{
    let body = seq![cmd_id] + carried(payload);
    let bytes = frame_bytes(cmd_id, payload);
    parse_one(body, frame_check(body));
    assert(bytes =~= seq![SYNC] + u16_le((body.len() - 1) as u16) + body + seq![
        frame_check(body),
    ]);
}

/// The bytes of frames sent one after the other.
pub open spec fn stream(frames: Seq<(u8, Seq<u8>)>) -> Seq<u8>
    decreases frames.len(),
{
    if frames.len() == 0 {
        Seq::empty()
    } else {
        stream(frames.drop_last()) + frame_bytes(frames.last().0, frames.last().1)
    }
}

/// Frames sent one after the other all come out, in order, and nothing else
/// does.
pub proof fn stream_round_trip(frames: Seq<(u8, Seq<u8>)>)
    ensures
        parse_bytes(Parsing::Sync, stream(frames)) == (
            Parsing::Sync,
            Seq::new(frames.len(), |i: int| seq![frames[i].0] + carried(frames[i].1)),
        ),
    decreases frames.len(),
{
    let out = Seq::new(frames.len(), |i: int| seq![frames[i].0] + carried(frames[i].1));
    if frames.len() == 0 {
        assert(out =~= Seq::<Seq<u8>>::empty());
    } else {
        let f = frames.last();
        stream_round_trip(frames.drop_last());
        frame_round_trip(f.0, f.1);
        parse_bytes_concat(
            Parsing::Sync,
            stream(frames.drop_last()),
            frame_bytes(f.0, f.1),
        );
        let head = parse_bytes(Parsing::Sync, stream(frames.drop_last())).1;
        assert(out =~= head + seq![seq![f.0] + carried(f.1)]);
    }
}

/// A frame whose command, payload or check byte is changed in one place gives
/// nothing, and the parser waits for the next frame.
pub proof fn damaged_frame_is_dropped(cmd_id: u8, payload: Seq<u8>, at: int, byte: u8)
    requires
        3 <= at < frame_bytes(cmd_id, payload).len(),
        byte != frame_bytes(cmd_id, payload)[at],
    ensures
        parse_bytes(Parsing::Sync, frame_bytes(cmd_id, payload).update(at, byte)) == (
            Parsing::Sync,
            Seq::<Seq<u8>>::empty(),
        ),
{
    let bytes = frame_bytes(cmd_id, payload);
    let body = seq![cmd_id] + carried(payload);
    let check = frame_check(body);
    let n = (body.len() - 1) as u16;
    assert(bytes =~= seq![SYNC] + u16_le(n) + body + seq![check]);
    if at == bytes.len() - 1 {
        parse_one(body, byte);
        assert(bytes.update(at, byte) =~= seq![SYNC] + u16_le(n) + body + seq![byte]);
    } else {
        let bad = body.update(at - 3, byte);
        assert(0x07u8 & 1 == 1) by (bit_vector);
        assert(body[at - 3] == bytes[at]);
        crc8_detects_one_byte(0x07, 0, body, bad, at - 3);
        let x: u8 = crc8_of(0x07, 0, body);
        let y: u8 = crc8_of(0x07, 0, bad);
        assert(x ^ 0x55 != y ^ 0x55) by (bit_vector)
            requires
                x != y,
        ;
        parse_one(bad, check);
        assert(bytes.update(at, byte) =~= seq![SYNC] + u16_le(n) + bad + seq![check]);
    }
}

} // verus!
