//! Laws of the SD card driver: what goes over the bus for a block, and what an
//! answer decides.

use vstd::prelude::*;
use crate::board::sd::{
    address_of, command_frame, sd_event, Job, SdDo, SdDone, SdError, SdEvent, SdKind, SdState,
    SdView,
};

verus! {

/// A byte clocked out to hear what the card says.
pub open spec fn listens(act: SdDo) -> bool {
    act matches SdDo::Exchange { byte, .. } && byte == 0xFF
}

/// The command number of a frame that is sent.
pub open spec fn sends(act: SdDo, cmd: int) -> bool {
    act matches SdDo::Send { frame, .. } && frame.len() == 6 && frame[0] == 0x40 + cmd
}

/// The argument of a frame, high byte first.
pub open spec fn argument(frame: Seq<u8>) -> int {
    16777216 * frame[1] + 65536 * frame[2] + 256 * frame[3] + frame[4]
}

/// A frame has six bytes: the command with its start bits, the argument high
/// byte first, and a check byte that ends in the stop bit and is right where the
/// card looks at it.
pub proof fn frames_are_laid_out(cmd: u8, arg: u32)
    requires
        cmd < 64,
    ensures
        ({
            let f = command_frame(cmd, arg);
            &&& f.len() == 6
            &&& f[0] == 64 + cmd
            &&& argument(f) == arg
            &&& f[5] % 2 == 1
            &&& cmd == 0 ==> f[5] == 0x95
            &&& cmd == 8 ==> f[5] == 0x87
        }),
{
}

/// Neighbouring blocks are one apart on a block-addressed card, 512 apart on the
/// others, and the first one is at zero.
pub proof fn blocks_are_side_by_side(kind: SdKind, lba: u32)
    requires
        lba < u32::MAX,
    ensures
        address_of(kind, 0) == 0,
        address_of(kind, (lba + 1) as u32) - address_of(kind, lba) == if kind is Sdhc {
            1int
        } else {
            512int
        },
{
}

/// What a step of an operation ended with.
pub open spec fn ends_with(v: SdView, act: SdDo, result: Result<SdDone, SdError>) -> bool {
    v.state == (SdState::Release { result }) && act == SdDo::ChipSelect(false)
}

/// An operation that has ended deselects the card, clocks one more byte and is
/// over; one that found a card speeds the bus up in between.
pub proof fn operations_are_wound_up(
    v: SdView,
    result: Result<SdDone, SdError>,
    a: SdEvent,
    b: SdEvent,
    c: SdEvent,
    now_ms: u32,
)
    requires
        v.state == (SdState::Release { result }),
    ensures
        ({
            let one = sd_event(v, a, now_ms);
            let two = sd_event(one.0, b, now_ms);
            let three = sd_event(two.0, c, now_ms);
            &&& listens(one.1)
            &&& match result {
                Ok(SdDone::Kind(kind)) => {
                    &&& two.1 == SdDo::Speed { fast: true }
                    &&& three.1 == SdDo::Done(result)
                    &&& three.0 == (SdView { kind: Some(kind), state: SdState::Idle })
                },
                _ => {
                    &&& two.1 == SdDo::Done(result)
                    &&& two.0 == (SdView { state: SdState::Idle, ..v })
                },
            }
        }),
{
}

/// Reading a block: CMD17 with its address, a zero response, the start token,
/// the block, and two bytes of CRC that may be anything.
pub proof fn block_is_read(v: SdView, addr: u32, ev: SdEvent, crc_hi: u8, crc_lo: u8, now_ms: u32)
    requires
        v.state == (SdState::Select { job: Job::Read { addr } }),
    ensures
        ({
            let ask = sd_event(v, ev, now_ms);
            let wait = sd_event(ask.0, SdEvent::Finished, now_ms);
            let token = sd_event(wait.0, SdEvent::Byte(0), now_ms);
            let block = sd_event(token.0, SdEvent::Byte(0xFE), now_ms);
            let crc = sd_event(block.0, SdEvent::Finished, now_ms);
            let more = sd_event(crc.0, SdEvent::Byte(crc_hi), now_ms);
            let last = sd_event(more.0, SdEvent::Byte(crc_lo), now_ms);
            &&& sends(ask.1, 17)
            &&& argument(ask.1->frame) == addr
            &&& listens(wait.1) && listens(token.1)
            &&& block.1 is ReadBlock
            &&& listens(crc.1) && listens(more.1)
            &&& ends_with(last.0, last.1, Ok(SdDone::Block))
            &&& last.0.kind == v.kind
        }),
{
}

/// Writing a block: CMD24 with its address, a zero response, a gap, the start
/// token, the block, two bytes of CRC, a response of which the low five bits say
/// that the data was accepted, and then idle line.
pub proof fn block_is_written(
    v: SdView,
    addr: u32,
    ev: SdEvent,
    gap: u8,
    response: u8,
    now_ms: u32,
)
    requires
        v.state == (SdState::Select { job: Job::Write { addr } }),
        response % 32 == 5,
    ensures
        ({
            let ask = sd_event(v, ev, now_ms);
            let wait = sd_event(ask.0, SdEvent::Finished, now_ms);
            let idle = sd_event(wait.0, SdEvent::Byte(0), now_ms);
            let token = sd_event(idle.0, SdEvent::Byte(gap), now_ms);
            let block = sd_event(token.0, SdEvent::Byte(gap), now_ms);
            let crc = sd_event(block.0, SdEvent::Finished, now_ms);
            let more = sd_event(crc.0, SdEvent::Byte(gap), now_ms);
            let answer = sd_event(more.0, SdEvent::Byte(gap), now_ms);
            let busy = sd_event(answer.0, SdEvent::Byte(response), now_ms);
            let last = sd_event(busy.0, SdEvent::Byte(0xFF), now_ms);
            &&& sends(ask.1, 24)
            &&& argument(ask.1->frame) == addr
            &&& listens(wait.1) && listens(idle.1)
            &&& token.1 matches SdDo::Exchange { byte, .. } && byte == 0xFE
            &&& block.1 is WriteBlock
            &&& listens(crc.1) && listens(more.1) && listens(answer.1) && listens(busy.1)
            &&& busy.1->Exchange_feed_watchdog
            &&& ends_with(last.0, last.1, Ok(SdDone::Block))
            &&& last.0.kind == v.kind
        }),
{
    assert(response % 32 == 5 ==> response & 0x1F == 0x05) by (bit_vector);
}

/// A block that the card refuses ends the operation with what the card said: its
/// response, its error token, or the low five bits of its data response.
pub proof fn refusals_are_told(
    v: SdView,
    addr: u32,
    start: u32,
    left: u8,
    r1: u8,
    token: u8,
    response: u8,
    now_ms: u32,
)
    requires
        0 < r1 < 0x80,
        token != 0xFE,
        token != 0xFF,
        response % 32 != 5,
    ensures
        ({
            let read = sd_event(
                SdView { state: SdState::R1 { job: Job::Read { addr }, left }, ..v },
                SdEvent::Byte(r1),
                now_ms,
            );
            let write = sd_event(
                SdView { state: SdState::R1 { job: Job::Write { addr }, left }, ..v },
                SdEvent::Byte(r1),
                now_ms,
            );
            let data = sd_event(
                SdView { state: SdState::Data { job: Job::ReadToken { start } }, ..v },
                SdEvent::Byte(token),
                now_ms,
            );
            let answer = sd_event(
                SdView { state: SdState::Data { job: Job::WriteResponse }, ..v },
                SdEvent::Byte(response),
                now_ms,
            );
            &&& ends_with(read.0, read.1, Err(SdError::Response(r1)))
            &&& ends_with(write.0, write.1, Err(SdError::Response(r1)))
            &&& ends_with(data.0, data.1, Err(SdError::Response(token)))
            &&& ends_with(answer.0, answer.1, Err(SdError::Response((response % 32) as u8)))
        }),
{
    assert(response & 0x1F == response % 32) by (bit_vector);
}

/// A failing bus ends any operation that has selected the card with a bus error.
pub proof fn bus_failure_is_told(v: SdView, job: Job, left: u8, now_ms: u32)
    ensures
        ({
            let frame = sd_event(
                SdView { state: SdState::Frame { job }, ..v },
                SdEvent::Failed,
                now_ms,
            );
            let answer = sd_event(
                SdView { state: SdState::R1 { job, left }, ..v },
                SdEvent::Failed,
                now_ms,
            );
            let data = sd_event(
                SdView { state: SdState::Data { job }, ..v },
                SdEvent::Failed,
                now_ms,
            );
            let wake = sd_event(
                SdView { state: SdState::Wake { left }, ..v },
                SdEvent::Failed,
                now_ms,
            );
            &&& ends_with(frame.0, frame.1, Err(SdError::Spi))
            &&& ends_with(answer.0, answer.1, Err(SdError::Spi))
            &&& ends_with(data.0, data.1, Err(SdError::Spi))
            &&& wake.0 == (SdView { state: SdState::Idle, ..v })
            &&& wake.1 == SdDo::Done(Err(SdError::Spi))
        }),
{
}

/// `elapsed` milliseconds after `start`.
pub open spec fn after_ms(start: u32, elapsed: u32) -> u32 {
    ((start + elapsed) % 0x1_0000_0000) as u32
}

/// A card may take 200 ms to send a block, 500 ms to store one and 1000 ms to
/// leave its idle state; it is listened to until then, and not after.
pub proof fn waits_have_their_length(
    v: SdView,
    v2: bool,
    left: u8,
    start: u32,
    elapsed: u32,
    busy: u8,
    r1: u8,
)
    requires
        busy != 0xFF,
        0 < r1 < 0x80,
    ensures
        ({
            let now_ms = after_ms(start, elapsed);
            let reading = SdView {
                state: SdState::Data { job: Job::ReadToken { start } },
                ..v
            };
            let writing = SdView { state: SdState::Data { job: Job::Busy { start } }, ..v };
            let waking = SdView {
                state: SdState::R1 { job: Job::Ready { v2, start }, left },
                ..v
            };
            let a = sd_event(reading, SdEvent::Byte(0xFF), now_ms);
            let b = sd_event(writing, SdEvent::Byte(busy), now_ms);
            let c = sd_event(waking, SdEvent::Byte(r1), now_ms);
            &&& if elapsed <= 200 {
                a.0 == reading && listens(a.1)
            } else {
                ends_with(a.0, a.1, Err(SdError::Timeout))
            }
            &&& if elapsed <= 500 {
                b.0 == writing && listens(b.1)
            } else {
                ends_with(b.0, b.1, Err(SdError::Timeout))
            }
            &&& if elapsed <= 1000 {
                sends(c.1, 55) && c.0.state == (SdState::Frame { job: Job::App { v2, start } })
            } else {
                ends_with(c.0, c.1, Err(SdError::Timeout))
            }
        }),
{
}

/// The first byte with its top bit clear is a command's response, and no other.
pub proof fn responses_have_their_top_bit_clear(
    v: SdView,
    addr: u32,
    left: u8,
    b: u8,
    now_ms: u32,
)
    requires
        v.state == (SdState::R1 { job: Job::Read { addr }, left }),
    ensures
        ({
            let after = sd_event(v, SdEvent::Byte(b), now_ms);
            &&& b >= 128 && left > 0 ==> after.0.state is R1 && listens(after.1)
            &&& b >= 128 && left == 0 ==> ends_with(after.0, after.1, Err(SdError::Timeout))
            &&& 0 < b < 128 ==> ends_with(after.0, after.1, Err(SdError::Response(b)))
            &&& b == 0 ==> after.0.state == (SdState::Data {
                job: Job::ReadToken { start: now_ms },
            })
        }),
{
}

/// The driver after `n` bytes in which a card says nothing.
pub open spec fn silence(v: SdView, n: nat, now_ms: u32) -> (SdView, SdDo)
    decreases n,
{
    if n == 0 {
        sd_event(v, SdEvent::Finished, now_ms)
    } else {
        sd_event(silence(v, (n - 1) as nat, now_ms).0, SdEvent::Byte(0xFF), now_ms)
    }
}

/// A command is answered within eight bytes, or never.
pub proof fn response_comes_within_eight_bytes(v: SdView, job: Job, n: nat, now_ms: u32)
    requires
        v.state == (SdState::Frame { job }),
        n <= 8,
    ensures
        ({
            let after = silence(v, n, now_ms);
            if n < 8 {
                &&& listens(after.1)
                &&& after.0 == (SdView {
                    state: SdState::R1 { job, left: (7 - n) as u8 },
                    ..v
                })
            } else {
                ends_with(after.0, after.1, Err(SdError::Timeout))
            }
        }),
    decreases n,
{
    if n > 0 {
        response_comes_within_eight_bytes(v, job, (n - 1) as nat, now_ms);
    }
}

/// Bringing a card up starts on the slow bus with the card deselected and ten
/// bytes of clock, eighty clocks, before the card is selected and reset.
pub proof fn card_is_woken_first(v: SdView, n: nat, a: SdEvent, b: SdEvent, now_ms: u32)
    requires
        v.state is Slow,
        n <= 10,
    ensures
        ({
            let off = sd_event(v, a, now_ms);
            let after = silence(off.0, n, now_ms);
            let reset = sd_event(after.0, b, now_ms);
            &&& off.1 == SdDo::ChipSelect(false)
            &&& n < 10 ==> listens(after.1)
            &&& n == 10 ==> after.1 == SdDo::ChipSelect(true) && sends(reset.1, 0) && argument(
                reset.1->frame,
            ) == 0
        }),
    decreases n,
{
    woken(sd_event(v, a, now_ms).0, n, now_ms);
}

proof fn woken(v: SdView, n: nat, now_ms: u32)
    requires
        v.state is Deselect,
        n <= 10,
    ensures
        ({
            let after = silence(v, n, now_ms);
            &&& n < 10 ==> listens(after.1) && after.0.state == (SdState::Wake {
                left: (9 - n) as u8,
            })
            &&& n == 10 ==> after.1 == SdDo::ChipSelect(true) && after.0.state == (
            SdState::Select { job: Job::Reset { left: 31 } })
        }),
    decreases n,
{
    if n > 0 {
        woken(v, (n - 1) as nat, now_ms);
    }
}

/// The answers of a bring-up and the commands that they lead to: CMD0 until it
/// is answered with idle, CMD8 with its pattern, then CMD55 and ACMD41 in turn,
/// with the high-capacity bit for a v2 card, and then CMD58 for a v2 card or
/// CMD16 with the block length for another.
pub proof fn bring_up_asks_in_turn(v: SdView, left: u8, start: u32, r1: u8, b: u8, now_ms: u32)
    requires
        r1 < 0x80,
    ensures
        ({
            let reset = sd_event(
                SdView { state: SdState::R1 { job: Job::Reset { left }, left: 3 }, ..v },
                SdEvent::Byte(r1),
                now_ms,
            );
            let check = sd_event(
                SdView { state: SdState::R1 { job: Job::Check, left }, ..v },
                SdEvent::Byte(r1),
                now_ms,
            );
            let echo = sd_event(
                SdView { state: SdState::Data { job: Job::CheckByte { seen: 3 } }, ..v },
                SdEvent::Byte(b),
                now_ms,
            );
            &&& r1 == 1 ==> sends(reset.1, 8) && argument(reset.1->frame) == 0x1AA
            &&& r1 != 1 && left > 0 ==> sends(reset.1, 0) && reset.0.state == (SdState::Frame {
                job: Job::Reset { left: (left - 1) as u8 },
            })
            &&& r1 != 1 && left == 0 ==> ends_with(
                reset.0,
                reset.1,
                Err(SdError::Response(r1)),
            )
            &&& r1 == 1 ==> listens(check.1)
            &&& r1 != 1 ==> sends(check.1, 55) && argument(check.1->frame) == 0
            &&& r1 != 1 ==> check.0.state == (SdState::Frame {
                job: Job::App { v2: false, start: now_ms },
            })
            &&& b == 0xAA ==> sends(echo.1, 55) && echo.0.state == (SdState::Frame {
                job: Job::App { v2: true, start: now_ms },
            })
            &&& b != 0xAA ==> ends_with(echo.0, echo.1, Err(SdError::Response(b)))
        }),
{
}

/// A v2 card answers the voltage check with four bytes, of which the last has to
/// give the pattern back.
pub proof fn voltage_check_has_four_bytes(v: SdView, b: Seq<u8>, now_ms: u32)
    requires
        v.state == (SdState::Data { job: Job::CheckByte { seen: 0 } }),
        b.len() == 4,
    ensures
        ({
            let one = sd_event(v, SdEvent::Byte(b[0]), now_ms);
            let two = sd_event(one.0, SdEvent::Byte(b[1]), now_ms);
            let three = sd_event(two.0, SdEvent::Byte(b[2]), now_ms);
            let four = sd_event(three.0, SdEvent::Byte(b[3]), now_ms);
            &&& listens(one.1) && listens(two.1) && listens(three.1)
            &&& b[3] == 0xAA ==> sends(four.1, 55) && argument(four.1->frame) == 0
            &&& b[3] != 0xAA ==> ends_with(four.0, four.1, Err(SdError::Response(b[3])))
        }),
{
}

/// What follows each application command of a bring-up.
pub proof fn card_is_asked_for_its_kind(
    v: SdView,
    v2: bool,
    left: u8,
    start: u32,
    r1: u8,
    now_ms: u32,
)
    requires
        r1 < 0x80,
    ensures
        ({
            let app = sd_event(
                SdView { state: SdState::R1 { job: Job::App { v2, start }, left }, ..v },
                SdEvent::Byte(r1),
                now_ms,
            );
            let ready = sd_event(
                SdView { state: SdState::R1 { job: Job::Ready { v2, start }, left }, ..v },
                SdEvent::Byte(0),
                now_ms,
            );
            let ocr = sd_event(
                SdView { state: SdState::R1 { job: Job::Ocr, left }, ..v },
                SdEvent::Byte(r1),
                now_ms,
            );
            let length = sd_event(
                SdView { state: SdState::R1 { job: Job::BlockLen { v2 }, left }, ..v },
                SdEvent::Byte(r1),
                now_ms,
            );
            &&& sends(app.1, 41)
            &&& argument(app.1->frame) == if v2 {
                0x4000_0000int
            } else {
                0int
            }
            &&& v2 ==> sends(ready.1, 58) && argument(ready.1->frame) == 0
            &&& !v2 ==> sends(ready.1, 16) && argument(ready.1->frame) == 512
            &&& r1 == 0 ==> listens(ocr.1)
            &&& r1 != 0 ==> ends_with(ocr.0, ocr.1, Err(SdError::Spi))
            &&& r1 == 0 ==> ends_with(
                length.0,
                length.1,
                Ok(
                    SdDone::Kind(
                        if v2 {
                            SdKind::Sd2
                        } else {
                            SdKind::Sd1
                        },
                    ),
                ),
            )
            &&& r1 != 0 ==> ends_with(length.0, length.1, Err(SdError::Response(r1)))
        }),
{
}

/// The four bytes of a card's OCR: bit 6 of the first one alone decides between
/// block addressing and a block length that has to be set.
pub proof fn first_ocr_byte_decides(v: SdView, b: Seq<u8>, now_ms: u32)
    requires
        v.state == (SdState::Data { job: Job::OcrByte { seen: 0, first: 0 } }),
        b.len() == 4,
    ensures
        ({
            let one = sd_event(v, SdEvent::Byte(b[0]), now_ms);
            let two = sd_event(one.0, SdEvent::Byte(b[1]), now_ms);
            let three = sd_event(two.0, SdEvent::Byte(b[2]), now_ms);
            let four = sd_event(three.0, SdEvent::Byte(b[3]), now_ms);
            &&& listens(one.1) && listens(two.1) && listens(three.1)
            &&& b[0] % 128 >= 64 ==> ends_with(four.0, four.1, Ok(SdDone::Kind(SdKind::Sdhc)))
            &&& b[0] % 128 < 64 ==> sends(four.1, 16) && argument(four.1->frame) == 512
                && four.0.state == (SdState::Frame { job: Job::BlockLen { v2: true } })
        }),
{
    let x = b[0];
    assert((x & 0x40 != 0) == (x % 128 >= 64)) by (bit_vector);
}

} // verus!
