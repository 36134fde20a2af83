//! Laws of the frames between the base station and its host.

use vstd::prelude::*;
use crate::uart_proto::{frame_bytes, frame_check, parse_byte, Parsing};

verus! {

/// A frame: the sync byte, the payload's length low byte first, the command, the
/// payload, and a check byte over command and payload. A payload that is too
/// long is cut to 256 bytes.
pub proof fn frame_is_laid_out(cmd_id: u8, payload: Seq<u8>, i: int)
    requires
        0 <= i < payload.len(),
        i < 256,
    ensures
        ({
            let f = frame_bytes(cmd_id, payload);
            let n = f.len() - 5;
            &&& n == if payload.len() <= 256 {
                payload.len() as int
            } else {
                256int
            }
            &&& f[0] == 0xAA
            &&& f[1] + 256 * f[2] == n
            &&& f[3] == cmd_id
            &&& f[4 + i] == payload[i]
            &&& f[4 + n] == frame_check(f.subrange(3, 4 + n))
        }),
{
    let f = frame_bytes(cmd_id, payload);
    let n = f.len() - 5;
    assert(f.subrange(3, 4 + n) =~= seq![cmd_id] + crate::uart_proto::carried(payload));
}

/// A frame without payload.
pub proof fn empty_frame_is_laid_out(cmd_id: u8)
    ensures
        frame_bytes(cmd_id, Seq::empty()) == seq![
            0xAAu8,
            0u8,
            0u8,
            cmd_id,
            frame_check(seq![cmd_id]),
        ],
{
    assert(seq![cmd_id] + Seq::<u8>::empty() =~= seq![cmd_id]);
}

/// A receiver waits for the sync byte, then takes a length of at most 256 and
/// goes back to waiting at a longer one.
pub proof fn frames_begin_with_sync_and_length(byte: u8, lo: u8, hi: u8)
    ensures
        parse_byte(Parsing::Sync, byte).0 == if byte == 0xAA {
            Parsing::LenLo
        } else {
            Parsing::Sync
        },
        parse_byte(Parsing::LenLo, lo).0 == (Parsing::LenHi { lo }),
        ({
            let after = parse_byte(Parsing::LenHi { lo }, hi).0;
            &&& lo + 256 * hi <= 256 ==> after == (Parsing::Body {
                expected: lo + 256 * hi + 1,
                got: Seq::empty(),
            })
            &&& lo + 256 * hi > 256 ==> after == Parsing::Sync
        }),
        parse_byte(Parsing::Sync, byte).1 is None,
        parse_byte(Parsing::LenLo, lo).1 is None,
        parse_byte(Parsing::LenHi { lo }, hi).1 is None,
{
}

/// A receiver keeps the command and the payload, in order, and nothing else, and
/// gives them out exactly where the check byte is right; after the check byte it
/// waits for the next frame either way.
pub proof fn body_is_kept_until_checked(expected: int, got: Seq<u8>, byte: u8)
    ensures
        ({
            let p = Parsing::Body { expected, got };
            let after = parse_byte(p, byte);
            &&& after.1 is None
            &&& got.len() + 1 < expected ==> after.0 == (Parsing::Body {
                expected,
                got: got.push(byte),
            })
            &&& got.len() + 1 == expected ==> after.0 == (Parsing::Check { body: got.push(byte) })
        }),
        ({
            let after = parse_byte(Parsing::Check { body: got }, byte);
            &&& after.0 == Parsing::Sync
            &&& byte == frame_check(got) ==> after.1 == Some(got)
            &&& byte != frame_check(got) ==> after.1 is None
        }),
{
}

} // verus!
