//! Laws of over-the-air updates: the messages byte by byte, and what sender and
//! receiver make of them.

use vstd::prelude::*;
use crate::crc::image_crc;
use crate::ota::{
    page_image, page_index, rx_chunk, rx_expire, rx_image_read, rx_message, rx_page_written, RxDo,
    RxPhase, Transfer,
};
use crate::ota_protocol::{
    abort_bytes, accept_bytes, ack_bytes, chunk_bytes, complete_bytes, is_ota, offer_bytes,
    parse_chunk, parse_offer, reject_bytes, OtaOffer,
};
use crate::ota_sender::{
    chunk_count, chunk_data, current_chunk_bytes, tx_message, tx_next, OtaResult, Phase,
    SenderView,
};
use crate::ota_transfer::unanswered;

verus! {

/// Four bytes as a number, low byte first.
pub open spec fn number4(b: Seq<u8>, at: int) -> int {
    b[at] + 256 * b[at + 1] + 65536 * b[at + 2] + 16777216 * b[at + 3]
}

/// Two bytes as a number, low byte first.
pub open spec fn number2(b: Seq<u8>, at: int) -> int {
    b[at] + 256 * b[at + 1]
}

/// Where an offer keeps its size, its number of chunks, its CRC and its version,
/// and where they are read from.
pub proof fn offer_is_laid_out(o: OtaOffer, data: Seq<u8>)
    ensures
        ({
            let m = offer_bytes(o);
            &&& m.len() == 13
            &&& m[0] == 0xF0
            &&& number4(m, 1) == o.firmware_size
            &&& number2(m, 5) == o.total_chunks
            &&& number4(m, 7) == o.crc32
            &&& number2(m, 11) == o.version
        }),
        parse_offer(data) is Some <==> data.len() >= 12,
        parse_offer(data) matches Some(p) ==> {
            &&& p.firmware_size == number4(data, 0)
            &&& p.total_chunks == number2(data, 4)
            &&& p.crc32 == number4(data, 6)
            &&& p.version == number2(data, 10)
        },
{
}

/// Where a chunk keeps its index, its length and its data, and where they are
/// read from: a length above 27 is taken for 27, and a message that is shorter
/// than it says is no chunk.
pub proof fn chunk_is_laid_out(index: u16, payload: Seq<u8>, data: Seq<u8>, i: int)
    requires
        payload.len() <= 27,
    ensures
        ({
            let m = chunk_bytes(index, payload);
            &&& m.len() == 4 + payload.len()
            &&& m[0] == 0xF3
            &&& number2(m, 1) == index
            &&& m[3] == payload.len()
            &&& 0 <= i < payload.len() ==> m[4 + i] == payload[i]
        }),
        ({
            let n = if data[2] <= 27 {
                data[2] as int
            } else {
                27int
            };
            &&& parse_chunk(data) is Some <==> data.len() >= 3 && data.len() >= 3 + n
            &&& parse_chunk(data) matches Some((k, d)) ==> {
                &&& k == number2(data, 0)
                &&& d.len() == n
                &&& 0 <= i < n ==> d[i] == data[3 + i]
            }
        }),
{
}

/// The other messages, byte by byte, and no two of a type.
pub proof fn answers_are_laid_out(index: u16, next: u16, reason: u8, crc32: u32)
    ensures
        accept_bytes() == seq![0xF1u8],
        reject_bytes(reason) == seq![0xF2u8, reason],
        abort_bytes(reason) == seq![0xF5u8, reason],
        ({
            let m = ack_bytes(index, next);
            &&& m.len() == 5
            &&& m[0] == 0xF4
            &&& number2(m, 1) == index
            &&& number2(m, 3) == next
        }),
        ({
            let m = complete_bytes(crc32);
            &&& m.len() == 5
            &&& m[0] == 0xF6
            &&& number4(m, 1) == crc32
        }),
{
}

/// A mesh payload is an update message by its first byte alone.
pub proof fn first_byte_tells_updates(data: Seq<u8>, byte: u8)
    ensures
        !is_ota(Seq::empty()),
        is_ota(seq![byte] + data) <==> 240 <= byte <= 246,
{
}

/// An image is cut into as many chunks of 27 bytes as it takes, no more.
pub proof fn chunks_cover_the_image(dfu: Seq<u8>, size: int, index: int, i: int)
    requires
        0 <= size <= dfu.len(),
        0 <= index,
        0 <= i < 27,
    ensures
        27 * chunk_count(size) >= size > 27 * (chunk_count(size) - 1) || size == 0
            && chunk_count(size) == 0,
        ({
            let d = chunk_data(dfu, size, index);
            &&& 27 * index + i < size ==> d.len() > i && d[i] == dfu[27 * index + i]
            &&& 27 * index + i >= size ==> d.len() <= i
            &&& d.len() <= 27
        }),
{
}

/// A sender offers first and then says the same again after each 2000 calls
/// without an answer, and so with every chunk.
pub proof fn sender_repeats_itself(s: SenderView, dfu: Seq<u8>, calls: nat)
    requires
        calls <= 2000,
        s.phase == Phase::Offering || (s.timer == 0 && (s.phase == Phase::WaitAccept || s.phase
            == Phase::Sending)),
    ensures
        ({
            let said = tx_next(s, dfu);
            let again = tx_next(unanswered(said.0, dfu, calls), dfu);
            &&& said.1 == Some(
                if s.phase == Phase::Sending {
                    current_chunk_bytes(s, dfu)
                } else {
                    offer_bytes(s.offer)
                },
            )
            &&& said.0.phase == if s.phase == Phase::Sending {
                Phase::Sending
            } else {
                Phase::WaitAccept
            }
            &&& calls < 2000 ==> again.1 is None
            &&& calls == 2000 ==> again.1 == said.1 && again.0 == said.0
        }),
{
    let said = tx_next(s, dfu).0;
    counts_down(said, dfu, calls);
}

proof fn counts_down(s: SenderView, dfu: Seq<u8>, calls: nat)
    requires
        calls <= s.timer,
        s.phase == Phase::WaitAccept || s.phase == Phase::Sending,
    ensures
        unanswered(s, dfu, calls) == (SenderView { timer: (s.timer - calls) as u32, ..s }),
    decreases calls,
{
    if calls > 0 {
        counts_down(s, dfu, (calls - 1) as nat);
    }
}

/// An accepted offer is followed by the first chunk at once.
pub proof fn acceptance_brings_the_first_chunk(s: SenderView, dfu: Seq<u8>, rest: Seq<u8>)
    requires
        s.phase == Phase::WaitAccept,
    ensures
        ({
            let heard = tx_message(s, seq![0xF1u8] + rest);
            let said = tx_next(heard.0, dfu);
            &&& heard.1 is None
            &&& said.1 == Some(chunk_bytes(0, chunk_data(dfu, s.offer.firmware_size as int, 0)))
            &&& said.0.offer == s.offer
        }),
{
}

/// An acknowledged chunk is followed at once by the one that is needed next,
/// whichever was acknowledged, or by waiting where none is.
pub proof fn acknowledgement_brings_the_next_chunk(
    s: SenderView,
    dfu: Seq<u8>,
    index: u16,
    next: u16,
    rest: Seq<u8>,
)
    requires
        s.phase == Phase::Sending,
    ensures
        ({
            let heard = tx_message(s, ack_bytes(index, next) + rest);
            let said = tx_next(heard.0, dfu);
            &&& heard.1 is None
            &&& heard.0.offer == s.offer
            &&& next < s.offer.total_chunks ==> said.1 == Some(
                chunk_bytes(
                    next,
                    chunk_data(dfu, s.offer.firmware_size as int, next as int),
                ),
            )
            &&& next >= s.offer.total_chunks ==> said.1 is None && heard.0.timer == 2000
        }),
{
    let m = ack_bytes(index, next) + rest;
    assert(m[3] == ack_bytes(index, next)[3] && m[4] == ack_bytes(index, next)[4]);
    assert(m[0] == 0xF4);
}

/// A rejection, an abort and a completion end a transfer at any time, with the
/// reason that they give or zero; nothing is said after the end.
pub proof fn transfers_end_as_they_are_told(s: SenderView, dfu: Seq<u8>, rest: Seq<u8>)
    ensures
        ({
            let why = if rest.len() > 0 {
                rest[0]
            } else {
                0u8
            };
            let rejected = tx_message(s, seq![0xF2u8] + rest);
            let aborted = tx_message(s, seq![0xF5u8] + rest);
            let complete = tx_message(s, seq![0xF6u8] + rest);
            &&& rejected.1 == Some(OtaResult::Rejected(why))
            &&& aborted.1 == Some(OtaResult::Aborted(why))
            &&& complete.1 == Some(OtaResult::Success)
            &&& rejected.0 == (SenderView { phase: Phase::Done, result: rejected.1, ..s })
            &&& aborted.0 == (SenderView { phase: Phase::Done, result: aborted.1, ..s })
            &&& complete.0 == (SenderView { phase: Phase::Done, result: complete.1, ..s })
            &&& tx_next(rejected.0, dfu) == (rejected.0, None::<Seq<u8>>)
            &&& tx_next(aborted.0, dfu) == (aborted.0, None::<Seq<u8>>)
            &&& tx_next(complete.0, dfu) == (complete.0, None::<Seq<u8>>)
        }),
{
}

/// A sender takes no notice of an acceptance that it does not wait for, of an
/// acknowledgement before it sends or that is cut short, and of any other
/// message.
pub proof fn messages_out_of_turn_are_ignored(s: SenderView, m: Seq<u8>)
    requires
        m.len() == 0 || (m[0] == 0xF1 && s.phase != Phase::WaitAccept) || (m[0] == 0xF4 && (s.phase
            != Phase::Sending || m.len() < 5)) || m[0] < 0xF1 || m[0] == 0xF3 || m[0] > 0xF6,
    ensures
        tx_message(s, m) == (s, None::<OtaResult>),
{
}

/// An idle node's answer to an offer: a size of one to 114688 bytes and a newer
/// version than its own are accepted; the others are refused, the size first.
pub proof fn offers_are_judged(fw_version: u16, m: Seq<u8>, now_ms: u32)
    requires
        m.len() > 0,
        m[0] == 0xF0,
    ensures
        ({
            let after = rx_message(RxPhase::Idle, fw_version, m, now_ms);
            let size = number4(m, 1);
            let version = number2(m, 11);
            &&& m.len() < 13 ==> after == (RxPhase::Idle, RxDo::Reply(None))
            &&& m.len() >= 13 && !(1 <= size <= 114688) ==> after == (
                RxPhase::Idle,
                RxDo::Reply(Some(seq![0xF2u8, 0x01u8])),
            )
            &&& m.len() >= 13 && 1 <= size <= 114688 && version <= fw_version ==> after == (
                RxPhase::Idle,
                RxDo::Reply(Some(seq![0xF2u8, 0x02u8])),
            )
            &&& m.len() >= 13 && 1 <= size <= 114688 && version > fw_version ==> {
                &&& after.1 == RxDo::Reply(Some(seq![0xF1u8]))
                &&& after.0 matches RxPhase::Active(t)
                &&& t.offer.firmware_size == size
                &&& t.offer.total_chunks == number2(m, 5)
                &&& t.offer.crc32 == number4(m, 7)
                &&& t.offer.version == version
                &&& t.next_chunk == 0 && t.current_page == 0 && t.page.len() == 0
                &&& t.last_ms == now_ms
            }
        }),
{
}

/// A node in a transfer answers any offer with busy and goes on.
pub proof fn busy_is_answered(p: RxPhase, fw_version: u16, m: Seq<u8>, now_ms: u32)
    requires
        !(p is Idle),
        m.len() > 0,
        m[0] == 0xF0,
    ensures
        rx_message(p, fw_version, m, now_ms) == (p, RxDo::Reply(Some(seq![0xF2u8, 0x06u8]))),
{
}

/// An abort ends any transfer without an answer; chunks with no transfer under
/// way, chunks that are cut short, and messages that are for a sender change
/// nothing and have no answer.
pub proof fn other_messages_to_a_node(p: RxPhase, fw_version: u16, m: Seq<u8>, now_ms: u32)
    ensures
        m.len() > 0 && m[0] == 0xF5 ==> rx_message(p, fw_version, m, now_ms) == (
            RxPhase::Idle,
            RxDo::Reply(None),
        ),
        m.len() == 0 || !(m[0] == 0xF0 || m[0] == 0xF3 || m[0] == 0xF5) ==> rx_message(
            p,
            fw_version,
            m,
            now_ms,
        ) == (p, RxDo::Reply(None)),
        m.len() > 0 && m[0] == 0xF3 && (!(p is Active) || m.len() < 4 || m.len() < 4 + m[3]
            && m[3] <= 27 || m.len() < 31 && m[3] > 27) ==> rx_message(p, fw_version, m, now_ms)
            == (p, RxDo::Reply(None)),
{
    if m.len() > 0 {
        let d = m.skip(1);
        assert(d.len() == m.len() - 1);
        if m.len() >= 4 {
            assert(d[2] == m[3]);
        }
    }
}

/// A chunk in its turn that leaves the page with room and is not the last: its
/// data is appended, and it is acknowledged by asking for the next; one out of
/// turn is answered with what is needed and only shows that the sender is there.
pub proof fn chunks_are_appended(t: Transfer, index: u16, data: Seq<u8>, now_ms: u32)
    requires
        data.len() <= 27,
        t.page.len() + data.len() < 2048,
    ensures
        ({
            let after = rx_chunk(RxPhase::Active(t), chunk_bytes(index, data).skip(1), now_ms);
            &&& index != t.next_chunk ==> after == (
                RxPhase::Active(Transfer { last_ms: now_ms, ..t }),
                RxDo::Reply(Some(ack_bytes(index, t.next_chunk))),
            )
            &&& index == t.next_chunk && index + 1 < t.offer.total_chunks ==> after == (
                RxPhase::Active(
                    Transfer {
                        next_chunk: (index + 1) as u16,
                        page: t.page + data,
                        last_ms: now_ms,
                        ..t
                    },
                ),
                RxDo::Reply(Some(ack_bytes(index, (index + 1) as u16))),
            )
        }),
{
    crate::ota_protocol::chunk_round_trip(index, data, Seq::empty());
    assert(chunk_bytes(index, data) + Seq::<u8>::empty() =~= chunk_bytes(index, data));
}

/// A page of the image goes to the flash page at the same place behind page 64,
/// padded with what erased flash reads as.
pub proof fn pages_have_their_place(current_page: u16, page: Seq<u8>, i: int)
    requires
        current_page < 56,
        page.len() <= 2048,
        0 <= i < 2048,
    ensures
        page_index(current_page) == 64 + current_page,
        page_image(page).len() == 2048,
        page_image(page)[i] == if i < page.len() {
            page[i]
        } else {
            0xFFu8
        },
{
}

/// A page that cannot be written ends the transfer with the flash error, and an
/// image whose CRC is not the offered one ends it with the CRC error and without
/// a swap; one whose CRC is right is reported with it and swapped in.
pub proof fn transfers_end_with_their_reason(p: RxPhase, t: Transfer, image: Seq<u8>)
    ensures
        p is Flushing || p is LastPage ==> rx_page_written(p, false) == (
            RxPhase::Idle,
            RxDo::Reply(Some(seq![0xF5u8, 0x04u8])),
        ),
        ({
            let after = rx_image_read(RxPhase::Verifying(t), image);
            &&& after.0 is Idle
            &&& image_crc(image) != t.offer.crc32 ==> after.1 == RxDo::Finish {
                reply: seq![0xF5u8, 0x03u8],
                swap: false,
            }
            &&& image_crc(image) == t.offer.crc32 ==> {
                &&& after.1 matches RxDo::Finish { reply, swap }
                &&& swap
                &&& reply.len() == 5 && reply[0] == 0xF6 && number4(reply, 1) == t.offer.crc32
            }
        }),
{
}

/// A full page that is written makes room: the next page begins with what was left
/// of the chunk, which is then acknowledged where it was not the last; and once
/// the last page is written the image is read back.
pub proof fn written_pages_make_room(t: Transfer, index: u16, rest: Seq<u8>)
    requires
        t.current_page < 56,
    ensures
        ({
            let after = rx_page_written(RxPhase::Flushing { t, index, rest }, true);
            let next = Transfer { current_page: (t.current_page + 1) as u16, page: rest, ..t };
            &&& t.next_chunk < t.offer.total_chunks ==> after == (
                RxPhase::Active(next),
                RxDo::Reply(Some(ack_bytes(index, t.next_chunk))),
            )
            &&& t.next_chunk >= t.offer.total_chunks && rest.len() > 0 ==> after == (
                RxPhase::LastPage(next),
                RxDo::WritePage((65 + t.current_page) as u8),
            )
            &&& t.next_chunk >= t.offer.total_chunks && rest.len() == 0 ==> after == (
                RxPhase::Verifying(next),
                RxDo::Verify(t.offer.firmware_size),
            )
        }),
        rx_page_written(RxPhase::LastPage(t), true) == (
            RxPhase::Verifying(t),
            RxDo::Verify(t.offer.firmware_size),
        ),
{
}

/// A chunk that fills a page has it written at its place, with what fits, and
/// keeps the rest.
pub proof fn full_pages_are_written(t: Transfer, data: Seq<u8>, now_ms: u32)
    requires
        data.len() <= 27,
        t.page.len() < 2048,
        t.page.len() + data.len() >= 2048,
        t.current_page < 56,
        t.next_chunk < 65535,
    ensures
        ({
            let m = chunk_bytes(t.next_chunk, data).skip(1);
            let after = rx_chunk(RxPhase::Active(t), m, now_ms);
            &&& after.1 == RxDo::WritePage((64 + t.current_page) as u8)
            &&& after.0 matches RxPhase::Flushing { t: u, index, rest }
            &&& index == t.next_chunk
            &&& u.next_chunk == t.next_chunk + 1
            &&& u.page.len() == 2048
            &&& u.page + rest == t.page + data
            &&& u.offer == t.offer && u.current_page == t.current_page && u.last_ms == now_ms
        }),
{
    crate::ota_protocol::chunk_round_trip(t.next_chunk, data, Seq::empty());
    assert(chunk_bytes(t.next_chunk, data) + Seq::<u8>::empty() =~= chunk_bytes(
        t.next_chunk,
        data,
    ));
    let all = t.page + data;
    assert(all.subrange(0, 2048) + all.skip(2048) =~= all);
}

/// A transfer is kept for a minute after the last chunk and dropped then; only
/// one that waits for a chunk is.
pub proof fn transfers_are_kept_for_a_minute(p: RxPhase, t: Transfer, elapsed: u32, now: u32)
    ensures
        ({
            let now_ms = ((t.last_ms + elapsed) % 0x1_0000_0000) as u32;
            let after = rx_expire(RxPhase::Active(t), now_ms);
            &&& elapsed < 60000 ==> after == RxPhase::Active(t)
            &&& elapsed >= 60000 ==> after is Idle
        }),
        !(p is Active) ==> rx_expire(p, now) == p,
{
}

} // verus!
