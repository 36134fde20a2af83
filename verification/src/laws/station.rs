//! Laws of the base station: what its host is told, byte by byte.

use vstd::prelude::*;
use crate::basestation::{
    bs_command, bs_mesh_message, bs_page_written, next_progress, progress_bytes, status,
    transfer_percent, upload_percent, BsDo, BsMode, BsView,
};
use crate::bytes::{i16_bits, u16_le};
use crate::ota_sender::Phase;
use crate::timer::{is_due, later};

verus! {

/// A progress report that is due is made, and the next one is due half a second
/// later; one that is not leaves things as they are.
pub proof fn progress_comes_twice_a_second(now_ms: u32, next_ms: u32, elapsed: u32)
    requires
        elapsed < 0x8000_0000,
    ensures
        is_due(now_ms, next_ms) ==> is_due(
            later(now_ms, elapsed),
            next_progress(now_ms, next_ms),
        ) == (elapsed >= 500),
        !is_due(now_ms, next_ms) ==> next_progress(now_ms, next_ms) == next_ms,
{
}

/// The message ends a transfer: OTA_REJECT, OTA_ABORT or OTA_COMPLETE.
pub open spec fn ends_transfer(message: Seq<u8>) -> bool {
    message[0] == 0xF2 || message[0] == 0xF5 || message[0] == 0xF6
}

/// A frame of command `cmd_id` that carries `payload`, up to its check byte.
pub open spec fn is_frame(frame: Seq<u8>, cmd_id: u8, payload: Seq<u8>) -> bool {
    &&& frame.len() == payload.len() + 5
    &&& frame[0] == 0xAA
    &&& frame[1] + 256 * frame[2] == payload.len()
    &&& frame[3] == cmd_id
    &&& frame.subrange(4, 4 + payload.len() as int) == payload
}

/// The host is told of the end of a transfer, by OTA_DONE, exactly when a node's
/// message ends it, and is given that message's own reason: zero for a complete
/// transfer, and the reason byte of a refusal or an abort.
pub proof fn host_is_told_how_a_transfer_ended(b: BsView, source: u8, rssi: i16, message: Seq<u8>)
    requires
        b.sender is Some,
        message.len() > 0,
        0xF0 <= message[0] <= 0xF6,
    ensures
        ({
            let after = bs_mesh_message(b, source, rssi, message);
            let code = if message[0] != 0xF6 && message.len() > 1 {
                message[1]
            } else {
                0
            };
            &&& ends_transfer(message) ==> {
                &&& after.1 matches Some(frame) && is_frame(frame, 0x84, seq![code])
                &&& after.0.mode is Idle
                &&& after.0.sender is None
            }
            &&& !ends_transfer(message) ==> {
                &&& after.1 is None
                &&& after.0.mode == b.mode
                &&& after.0.sender is Some
            }
        }),
{
    let after = bs_mesh_message(b, source, rssi, message);
    if ends_transfer(message) {
        let code = if message[0] != 0xF6 && message.len() > 1 {
            message[1]
        } else {
            0
        };
        let frame = after.1->0;
        assert(frame.subrange(4, 5) =~= seq![code]);
    }
}

/// Two nodes that refuse for different reasons are told apart, and no refusal
/// with a reason looks like a success.
pub proof fn refusals_are_told_apart(b: BsView, source: u8, rssi: i16, kind: u8, a: u8, z: u8)
    requires
        b.sender is Some,
        kind == 0xF2 || kind == 0xF5,
        a != z,
        a != 0,
    ensures
        bs_mesh_message(b, source, rssi, seq![kind, a]).1 != bs_mesh_message(
            b,
            source,
            rssi,
            seq![kind, z],
        ).1,
        bs_mesh_message(b, source, rssi, seq![kind, a]).1 != bs_mesh_message(
            b,
            source,
            rssi,
            seq![0xF6u8],
        ).1,
{
    host_is_told_how_a_transfer_ended(b, source, rssi, seq![kind, a]);
    host_is_told_how_a_transfer_ended(b, source, rssi, seq![kind, z]);
    host_is_told_how_a_transfer_ended(b, source, rssi, seq![0xF6u8]);
    let fa = bs_mesh_message(b, source, rssi, seq![kind, a]).1->0;
    let fz = bs_mesh_message(b, source, rssi, seq![kind, z]).1->0;
    let fs = bs_mesh_message(b, source, rssi, seq![0xF6u8]).1->0;
    assert(fa.subrange(4, 5)[0] == a);
    assert(fz.subrange(4, 5)[0] == z);
    assert(fs.subrange(4, 5)[0] == 0);
}

/// An OTA message without a transfer under way is no one's.
pub proof fn stray_ota_messages_are_dropped(b: BsView, source: u8, rssi: i16, message: Seq<u8>)
    requires
        b.sender is None,
        message.len() > 0,
        0xF0 <= message[0] <= 0xF6,
    ensures
        bs_mesh_message(b, source, rssi, message) == (b, None::<Seq<u8>>),
{
}

/// Any other message is handed to the host as it came, with its source and its
/// RSSI as a signed number, low byte first; one too long for a frame is not.
/// Nothing else changes.
pub proof fn messages_are_relayed(b: BsView, source: u8, rssi: i16, data: Seq<u8>)
    requires
        data.len() == 0 || !(0xF0 <= data[0] <= 0xF6),
    ensures
        bs_mesh_message(b, source, rssi, data).0 == b,
        data.len() > 253 ==> bs_mesh_message(b, source, rssi, data).1 is None,
        data.len() <= 253 ==> {
            &&& bs_mesh_message(b, source, rssi, data).1 matches Some(frame)
            &&& frame.len() == data.len() + 8
            &&& frame[0] == 0xAA
            &&& frame[1] + 256 * frame[2] == data.len() + 3
            &&& frame[3] == 0x90
            &&& frame[4] == source
            &&& frame[5] + 256 * frame[6] == if rssi >= 0 {
                rssi as int
            } else {
                rssi + 65536
            }
            &&& frame.subrange(7, 7 + data.len() as int) == data
        },
{
    if data.len() <= 253 {
        let frame = bs_mesh_message(b, source, rssi, data).1->0;
        assert(u16_le(i16_bits(rssi)) =~= seq![frame[5], frame[6]]);
        assert(frame.subrange(7, 7 + data.len() as int) =~= data);
    }
}

/// A message from the host goes to the node that its first byte names, without
/// that byte, and a broadcast goes out as it is; neither touches an upload or a
/// transfer.
pub proof fn host_messages_go_out(b: BsView, payload: Seq<u8>)
    ensures
        ({
            let sent = bs_command(b, 0x10, payload);
            payload.len() >= 2 ==> {
                &&& sent.1 matches BsDo::Send { dest, data }
                &&& dest == payload[0]
                &&& seq![dest] + data == payload
                &&& sent.0.waits is Radio
                &&& sent.0.mode == b.mode
                &&& sent.0.sender == b.sender
            }
        }),
        ({
            let sent = bs_command(b, 0x11, payload);
            payload.len() >= 1 ==> {
                &&& sent.1 == BsDo::Broadcast(payload)
                &&& sent.0.waits is Radio
                &&& sent.0.mode == b.mode
                &&& sent.0.sender == b.sender
            }
        }),
{
    if payload.len() >= 2 {
        assert(seq![payload[0]] + payload.skip(1) =~= payload);
    }
}

/// The command is answered with this error, and changes nothing.
pub open spec fn is_refused(b: BsView, cmd_id: u8, payload: Seq<u8>, code: u8) -> bool {
    &&& bs_command(b, cmd_id, payload).0 == b
    &&& bs_command(b, cmd_id, payload).1 matches BsDo::Reply(frame) && is_frame(
        frame,
        0x82,
        seq![code],
    )
}

/// The frame that refuses with a code.
proof fn refusal_frame(code: u8)
    ensures
        is_frame(crate::basestation::nak(code), 0x82, seq![code]),
{
    assert(crate::basestation::nak(code).subrange(4, 5) =~= seq![code]);
}

/// What is refused, and with which code: a short or unknown command with 4, a
/// size that does not fit with 2, a command out of turn with 1, and a transfer
/// before all of the image has come with 5.
pub proof fn refusals_say_why(b: BsView, cmd_id: u8, payload: Seq<u8>)
    ensures
        // START_OTA
        !(b.mode is Idle) ==> is_refused(b, 0x01, payload, 1),
        b.mode is Idle && payload.len() < 7 ==> is_refused(b, 0x01, payload, 4),
        b.mode is Idle && payload.len() >= 7 ==> {
            let size = payload[1] + 256 * payload[2] + 65536 * payload[3] + 16777216 * payload[4];
            size == 0 || size > 114688 ==> is_refused(b, 0x01, payload, 2)
        },
        // FW_DATA
        !(b.mode is ReceivingFw) ==> is_refused(b, 0x02, payload, 1),
        b.mode is ReceivingFw && payload.len() == 0 ==> is_refused(b, 0x02, payload, 4),
        // BEGIN_TRANSFER
        !(b.mode is ReceivingFw) ==> is_refused(b, 0x03, payload, 1),
        b.mode matches BsMode::ReceivingFw(u) ==> u.received < u.fw_size ==> is_refused(
            b,
            0x03,
            payload,
            5,
        ),
        // SEND_MSG, SEND_BROADCAST
        payload.len() < 2 ==> is_refused(b, 0x10, payload, 4),
        payload.len() == 0 ==> is_refused(b, 0x11, payload, 4),
        !(1 <= cmd_id <= 5 || cmd_id == 0x10 || cmd_id == 0x11) ==> is_refused(
            b,
            cmd_id,
            payload,
            4,
        ),
{
    refusal_frame(1);
    refusal_frame(2);
    refusal_frame(4);
    refusal_frame(5);
}

/// A command to start an upload that fits is taken: to the node of its first
/// byte, of the size in the next four, as the version in the last two, low bytes
/// first. It starts from nothing.
pub proof fn upload_is_as_announced(b: BsView, payload: Seq<u8>)
    requires
        b.mode is Idle,
        payload.len() >= 7,
        ({
            let size = payload[1] + 256 * payload[2] + 65536 * payload[3] + 16777216 * payload[4];
            0 < size <= 114688
        }),
    ensures
        ({
            let after = bs_command(b, 0x01, payload);
            &&& after.0.mode matches BsMode::ReceivingFw(u)
            &&& u.target_addr == payload[0]
            &&& u.fw_size == payload[1] + 256 * payload[2] + 65536 * payload[3] + 16777216
                * payload[4]
            &&& u.fw_version == payload[5] + 256 * payload[6]
            &&& u.received == 0
            &&& u.current_page == 0
            &&& u.page.len() == 0
            &&& after.1 matches BsDo::Reply(frame) && is_frame(frame, 0x81, Seq::empty())
        }),
{
    let after = bs_command(b, 0x01, payload);
    assert(after.1->Reply_0.subrange(4, 4) =~= Seq::<u8>::empty());
}

/// A page that cannot be written ends the upload, and the host is told with code
/// 3.
pub proof fn flash_failure_ends_an_upload(b: BsView)
    ensures
        ({
            let after = bs_page_written(b, false);
            &&& after.0.mode is Idle
            &&& after.0.waits is Nothing
            &&& after.1 matches BsDo::Reply(frame) && is_frame(frame, 0x82, seq![3u8])
        }),
{
    refusal_frame(3);
}

/// What a progress report says: nothing under way; or an upload with its share
/// in percent; or a transfer with its share, the chunks sent and the chunks in
/// all. Asking changes nothing.
pub proof fn progress_is_told(b: BsView, payload: Seq<u8>)
    ensures
        bs_command(b, 0x04, payload) == (b, BsDo::Reply(progress_bytes(b))),
        progress_bytes(b).len() == 11,
        progress_bytes(b)[3] == 0x83,
        b.mode is Idle ==> is_frame(progress_bytes(b), 0x83, seq![0u8, 0u8, 0u8, 0u8, 0u8, 0u8]),
        b.mode matches BsMode::ReceivingFw(u) ==> 0 < u.fw_size <= 114688 && u.received
            <= u.fw_size ==> {
            let frame = progress_bytes(b);
            &&& frame[4] == 1
            &&& frame[5] * u.fw_size <= u.received * 100 < (frame[5] + 1) * u.fw_size
            &&& frame.subrange(6, 10) == seq![0u8, 0u8, 0u8, 0u8]
        },
        b.mode is Transferring && b.sender is None ==> is_frame(
            progress_bytes(b),
            0x83,
            seq![0u8, 0u8, 0u8, 0u8, 0u8, 0u8],
        ),
        b.mode is Transferring ==> (b.sender matches Some(s) ==> {
            let frame = progress_bytes(b);
            &&& s.phase == Phase::Done ==> is_frame(
                frame,
                0x83,
                seq![3u8, 100u8, 0u8, 0u8, 0u8, 0u8],
            )
            &&& s.phase != Phase::Done ==> {
                &&& frame[4] == 2
                &&& frame[6] + 256 * frame[7] == s.current_chunk
                &&& frame[8] + 256 * frame[9] == s.offer.total_chunks
                &&& s.current_chunk <= s.offer.total_chunks && s.offer.total_chunks > 0
                    ==> frame[5] * s.offer.total_chunks <= s.current_chunk * 100 < (frame[5] + 1)
                    * s.offer.total_chunks
            }
        }),
{
    let (st, pct, sent, total) = status(b);
    let frame = progress_bytes(b);
    let body = seq![st, pct] + u16_le(sent) + u16_le(total);
    assert(frame.subrange(4, 10) =~= body);
    assert(body =~= seq![frame[4], frame[5], frame[6], frame[7], frame[8], frame[9]]);
    match b.mode {
        BsMode::Idle => {
            assert(body =~= seq![0u8, 0u8, 0u8, 0u8, 0u8, 0u8]);
        },
        BsMode::ReceivingFw(u) => {
            if 0 < u.fw_size <= 114688 && u.received <= u.fw_size {
                share(u.received as int, u.fw_size as int);
                assert(pct == upload_percent(u.received, u.fw_size));
                assert(frame.subrange(6, 10) =~= seq![0u8, 0u8, 0u8, 0u8]);
            }
        },
        BsMode::Transferring(_) => {
            if b.sender is None {
                assert(body =~= seq![0u8, 0u8, 0u8, 0u8, 0u8, 0u8]);
            } else {
                let s = b.sender->0;
                if s.phase == Phase::Done {
                    assert(body =~= seq![3u8, 100u8, 0u8, 0u8, 0u8, 0u8]);
                } else if s.current_chunk <= s.offer.total_chunks && s.offer.total_chunks > 0 {
                    share(s.current_chunk as int, s.offer.total_chunks as int);
                    assert(pct == transfer_percent(s.current_chunk, s.offer.total_chunks));
                }
            }
        },
    }
}

/// A share in percent, rounded down.
proof fn share(part: int, whole: int)
    requires
        0 <= part <= whole,
        whole > 0,
    ensures
        0 <= part * 100 / whole <= 100,
        (part * 100 / whole) * whole <= part * 100 < (part * 100 / whole + 1) * whole,
{
    let q = part * 100 / whole;
    vstd::arithmetic::div_mod::lemma_fundamental_div_mod(part * 100, whole);
    vstd::arithmetic::div_mod::lemma_mod_bound(part * 100, whole);
    assert(0 <= q <= 100 && q * whole <= part * 100 < (q + 1) * whole) by (nonlinear_arith)
        requires
            part * 100 == whole * q + (part * 100) % whole,
            0 <= (part * 100) % whole < whole,
            0 <= part <= whole,
            whole > 0,
    ;
}

} // verus!
