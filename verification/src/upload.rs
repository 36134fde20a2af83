//! What an upload from the host leaves behind: the image in the DFU partition,
//! and a sender that offers exactly that image.

use vstd::prelude::*;
use crate::basestation::{
    ack, bs_command, bs_image_read, bs_mesh_message, bs_page_written, fresh_sender, nak,
    transfer_percent, upload_percent, BsDo, BsMode, BsView,
};
use crate::bytes::{u16_le, u16_round_trip, u32_le, u32_round_trip};
use crate::crc::image_crc;
use crate::ota::{
    page_image, page_index, RxPhase, DFU_PAGES, DFU_PAGE_START, MAX_FW_SIZE, PAGE_SIZE,
};
use crate::ota_sender::{chunk_count, OtaResult};
use crate::ota_transfer::{describes, exchanges, transfer_succeeds, Target};
use crate::uart_proto::{cmd, err, MAX_PAYLOAD};

verus! {

/// A base station with its flash: the full pages that the upload under way has
/// written, one after the other, and the last, partly filled page after them,
/// once it is written.
pub struct Station {
    pub b: BsView,
    pub dfu: Seq<u8>,
    pub last: Seq<u8>,
}

/// Write the page that is asked for, if one is, on flash that works.
pub open spec fn write_asked(s: Station, act: BsDo) -> (Station, BsDo) {
    match (act, s.b.mode) {
        (BsDo::WritePage(_), BsMode::ReceivingFw(u)) => {
            let after = bs_page_written(s.b, true);
            if s.b.waits is Page {
                (
                    Station { b: after.0, dfu: s.dfu + page_image(u.page), last: Seq::empty() },
                    after.1,
                )
            } else {
                (Station { b: after.0, last: page_image(u.page), ..s }, after.1)
            }
        },
        _ => (s, act),
    }
}

/// A command reaches the base station, and all that it asks of the flash is
/// done.
pub open spec fn host_command(s: Station, cmd_id: u8, payload: Seq<u8>) -> (Station, BsDo) {
    let first = bs_command(s.b, cmd_id, payload);
    let once = write_asked(Station { b: first.0, ..s }, first.1);
    write_asked(once.0, once.1)
}

/// The upload has brought `data` so far, and it is in flash or in the page
/// being filled; once it is all there, it is all in flash.
pub open spec fn holds_upload(s: Station, data: Seq<u8>) -> bool {
    match s.b.mode {
        BsMode::ReceivingFw(u) => {
            &&& s.b.waits is Nothing
            &&& u.received == data.len()
            &&& u.fw_size <= MAX_FW_SIZE
            &&& u.page.len() < PAGE_SIZE
            &&& s.dfu.len() == u.current_page * PAGE_SIZE
            &&& s.dfu + u.page == data
            &&& data.len() >= u.fw_size && u.page.len() > 0 ==> s.last == page_image(u.page)
        },
        _ => false,
    }
}

/// The payload of the command that starts an upload.
pub open spec fn start_payload(target: u8, size: u32, version: u16) -> Seq<u8> {
    seq![target] + u32_le(size) + u16_le(version)
}

/// An idle base station starts an upload of any size that fits, and answers
/// with an acknowledgement.
pub proof fn upload_starts(b: BsView, target: u8, size: u32, version: u16)
    requires
        b.mode is Idle,
        b.waits is Nothing,
        0 < size <= MAX_FW_SIZE,
    ensures
        ({
            let start = Station { b, dfu: Seq::empty(), last: Seq::empty() };
            let after = host_command(start, cmd::START_OTA, start_payload(target, size, version));
            &&& holds_upload(after.0, Seq::empty())
            &&& after.1 == BsDo::Reply(ack())
            &&& after.0.b.mode matches BsMode::ReceivingFw(u) && u.target_addr == target
                && u.fw_size == size && u.fw_version == version
            &&& after.0.b.sender == b.sender
        }),
{
    let p = start_payload(target, size, version);
    u32_round_trip(size);
    u16_round_trip(version);
    assert(u32_le(size) =~= seq![p[1], p[2], p[3], p[4]]);
    assert(u16_le(version) =~= seq![p[5], p[6]]);
    assert(Seq::<u8>::empty() + Seq::<u8>::empty() =~= Seq::<u8>::empty());
}

/// Firmware data that still fits the partition is stored behind what came
/// before, and acknowledged. Every page that it fills is the next image page of
/// the DFU partition.
#[verifier::rlimit(40)]
pub proof fn data_is_stored(s: Station, data: Seq<u8>, payload: Seq<u8>)
    requires
        holds_upload(s, data),
        0 < payload.len() <= MAX_PAYLOAD,
        data.len() + payload.len() <= MAX_FW_SIZE,
    ensures
        ({
            let after = host_command(s, cmd::FW_DATA, payload);
            &&& holds_upload(after.0, data + payload)
            &&& after.1 == BsDo::Reply(ack())
        }),
        bs_command(s.b, cmd::FW_DATA, payload).1 matches BsDo::WritePage(i) ==> i
            == DFU_PAGE_START + s.dfu.len() as int / PAGE_SIZE as int && i < DFU_PAGE_START
            + DFU_PAGES,
{
    let u = s.b.mode->ReceivingFw_0;
    let all = u.page + payload;
    assert(s.dfu + all =~= data + payload);
    assert(s.dfu.len() + u.page.len() == (s.dfu + u.page).len());
    let c = u.current_page;
    assert(s.dfu.len() as int / PAGE_SIZE as int == c);
    let after = host_command(s, cmd::FW_DATA, payload);
    if all.len() >= PAGE_SIZE {
        assert(c < 56);
        assert(page_index(c) == 64 + c);
        let full = all.subrange(0, PAGE_SIZE as int);
        let rest = all.skip(PAGE_SIZE as int);
        assert(page_image(full) =~= full);
        assert((s.dfu + full) + rest =~= data + payload);
        assert(Seq::<u8>::empty() + rest =~= rest);
        let first = bs_command(s.b, cmd::FW_DATA, payload);
        let once = write_asked(Station { b: first.0, ..s }, first.1);
        assert(once.0.dfu == s.dfu + full);
        assert(rest.len() < PAGE_SIZE);
    } else {
        let first = bs_command(s.b, cmd::FW_DATA, payload);
        if first.1 is WritePage {
            assert(all.len() > 0);
            assert(c < 56);
            assert(page_index(c) == 64 + c);
        }
    }
}

/// What the payloads bring, one after the other.
pub open spec fn all_data(payloads: Seq<Seq<u8>>) -> Seq<u8>
    decreases payloads.len(),
{
    if payloads.len() == 0 {
        Seq::empty()
    } else {
        all_data(payloads.drop_last()) + payloads.last()
    }
}

/// Firmware data commands, one after the other.
pub open spec fn host_data(s: Station, payloads: Seq<Seq<u8>>) -> Station
    decreases payloads.len(),
{
    if payloads.len() == 0 {
        s
    } else {
        host_command(
            host_data(s, payloads.drop_last()),
            cmd::FW_DATA,
            payloads.last(),
        ).0
    }
}

/// However an image is cut into frames, what has come is stored.
pub proof fn all_data_is_stored(s: Station, payloads: Seq<Seq<u8>>)
    requires
        holds_upload(s, Seq::empty()),
        forall|i: int|
            0 <= i < payloads.len() ==> 0 < (#[trigger] payloads[i]).len() <= MAX_PAYLOAD,
        all_data(payloads).len() <= MAX_FW_SIZE,
    ensures
        holds_upload(host_data(s, payloads), all_data(payloads)),
        host_data(s, payloads).b.mode->ReceivingFw_0.fw_size
            == s.b.mode->ReceivingFw_0.fw_size,
        host_data(s, payloads).b.mode->ReceivingFw_0.fw_version
            == s.b.mode->ReceivingFw_0.fw_version,
        host_data(s, payloads).b.mode->ReceivingFw_0.target_addr
            == s.b.mode->ReceivingFw_0.target_addr,
    decreases payloads.len(),
{
    if payloads.len() > 0 {
        let head = payloads.drop_last();
        assert forall|i: int| 0 <= i < head.len() implies 0 < (#[trigger] head[i]).len()
            <= MAX_PAYLOAD by {
            assert(head[i] == payloads[i]);
        }
        all_data_is_stored(s, head);
        data_is_stored(host_data(s, head), all_data(head), payloads.last());
        upload_keeps_its_terms(host_data(s, head), payloads.last());
    }
}

/// Firmware data changes nothing of what the upload was started with.
#[verifier::rlimit(40)]
proof fn upload_keeps_its_terms(s: Station, payload: Seq<u8>)
    requires
        s.b.mode is ReceivingFw,
        host_command(s, cmd::FW_DATA, payload).0.b.mode is ReceivingFw,
    ensures
        ({
            let u = s.b.mode->ReceivingFw_0;
            let v = host_command(s, cmd::FW_DATA, payload).0.b.mode->ReceivingFw_0;
            u.fw_size == v.fw_size && u.fw_version == v.fw_version && u.target_addr
                == v.target_addr
        }),
{
    let first = bs_command(s.b, cmd::FW_DATA, payload);
    let once = write_asked(Station { b: first.0, ..s }, first.1);
    assert(once.0.b.mode is ReceivingFw);
}

/// A complete upload: the DFU partition starts with the uploaded image. On the
/// command to begin, the base station reads that image back, and its sender
/// then offers exactly that image to the node that the host named.
pub proof fn transfer_offers_the_upload(s: Station, data: Seq<u8>)
    requires
        holds_upload(s, data),
        s.b.mode->ReceivingFw_0.fw_size == data.len(),
        data.len() > 0,
    ensures
        ({
            let u = s.b.mode->ReceivingFw_0;
            let flash = s.dfu + s.last;
            let asked = bs_command(s.b, cmd::BEGIN_TRANSFER, Seq::empty());
            let begun = bs_image_read(asked.0, data);
            &&& u.page.len() > 0 ==> flash.len() >= data.len() && flash.subrange(
                0,
                data.len() as int,
            ) == data
            &&& u.page.len() == 0 ==> s.dfu == data
            &&& asked.1 == BsDo::ReadImage(u.fw_size)
            &&& begun.1 == BsDo::Reply(ack())
            &&& begun.0.mode == BsMode::Transferring(u.target_addr)
            &&& begun.0.sender == Some(fresh_sender(u.fw_size, image_crc(data), u.fw_version))
            &&& describes(begun.0.sender->0.offer, data)
            &&& begun.0.sender->0.offer.crc32 == image_crc(data)
        }),
{
    let u = s.b.mode->ReceivingFw_0;
    let flash = s.dfu + s.last;
    if u.page.len() > 0 {
        assert((s.dfu + page_image(u.page)).subrange(0, data.len() as int) =~= s.dfu + u.page);
    } else {
        assert(s.dfu + u.page =~= s.dfu);
    }
    assert(chunk_count(data.len() as int) < 0x1_0000);
}

/// The whole way: firmware that a host uploads through a base station, in
/// whatever frames, to a node that runs an older version, ends up at the start
/// of that node's DFU partition, and the base station hears that it did. `flash`
/// is the base station's DFU partition after the upload, and `now_ms` the node's
/// clock, by which it tells how long its sender has been silent.
pub proof fn uploaded_firmware_reaches_the_node(
    b: BsView,
    target: u8,
    fw: Seq<u8>,
    version: u16,
    payloads: Seq<Seq<u8>>,
    flash: Seq<u8>,
    node_version: u16,
    now_ms: u32,
)
    requires
        b.mode is Idle,
        b.waits is Nothing,
        0 < fw.len() <= MAX_FW_SIZE,
        forall|i: int|
            0 <= i < payloads.len() ==> 0 < (#[trigger] payloads[i]).len() <= MAX_PAYLOAD,
        all_data(payloads) == fw,
        node_version < version,
        ({
            let start = Station { b, dfu: Seq::empty(), last: Seq::empty() };
            let begun = host_command(
                start,
                cmd::START_OTA,
                start_payload(target, fw.len() as u32, version),
            ).0;
            let done = host_data(begun, payloads);
            let written = if done.b.mode->ReceivingFw_0.page.len() > 0 {
                done.dfu + done.last
            } else {
                done.dfu
            };
            flash.len() >= written.len() && flash.subrange(0, written.len() as int) == written
        }),
    ensures
        ({
            let start = Station { b, dfu: Seq::empty(), last: Seq::empty() };
            let begun = host_command(
                start,
                cmd::START_OTA,
                start_payload(target, fw.len() as u32, version),
            ).0;
            let done = host_data(begun, payloads);
            let asked = bs_command(done.b, cmd::BEGIN_TRANSFER, Seq::empty());
            let sending = bs_image_read(asked.0, flash.subrange(0, fw.len() as int)).0;
            let node = Target { rx: RxPhase::Idle, dfu: Seq::empty() };
            let after = exchanges(
                sending.sender->0,
                node,
                flash,
                node_version,
                now_ms,
                (sending.sender->0.offer.total_chunks + 1) as nat,
            );
            &&& asked.1 == BsDo::ReadImage(fw.len() as u32)
            &&& sending.mode == BsMode::Transferring(target)
            &&& after.0.result == Some(OtaResult::Success)
            &&& after.1.rx is Idle
            &&& after.1.dfu.len() >= fw.len()
            &&& after.1.dfu.subrange(0, fw.len() as int) == fw
        }),
{
    let start = Station { b, dfu: Seq::empty(), last: Seq::empty() };
    let begun = host_command(
        start,
        cmd::START_OTA,
        start_payload(target, fw.len() as u32, version),
    ).0;
    upload_starts(b, target, fw.len() as u32, version);
    all_data_is_stored(begun, payloads);
    let done = host_data(begun, payloads);
    transfer_offers_the_upload(done, fw);
    let u = done.b.mode->ReceivingFw_0;
    let written = if u.page.len() > 0 {
        done.dfu + done.last
    } else {
        done.dfu
    };
    assert(written.subrange(0, fw.len() as int) =~= fw);
    assert(flash.subrange(0, fw.len() as int) =~= fw) by {
        assert forall|i: int| 0 <= i < fw.len() implies flash[i] == fw[i] by {
            assert(flash.subrange(0, written.len() as int)[i] == written[i]);
            assert(written.subrange(0, fw.len() as int)[i] == fw[i]);
        }
    }
    let asked = bs_command(done.b, cmd::BEGIN_TRANSFER, Seq::empty());
    let sending = bs_image_read(asked.0, fw).0;
    transfer_succeeds(sending.sender->0, flash, fw, node_version, now_ms);
}

/// The base station starts no upload and no transfer out of turn, and such a
/// command changes nothing.
pub proof fn commands_out_of_turn_are_refused(b: BsView, payload: Seq<u8>)
    ensures
        !(b.mode is Idle) ==> bs_command(b, cmd::START_OTA, payload) == (
            b,
            BsDo::Reply(nak(err::INVALID_STATE)),
        ),
        !(b.mode is ReceivingFw) ==> bs_command(b, cmd::FW_DATA, payload) == (
            b,
            BsDo::Reply(nak(err::INVALID_STATE)),
        ),
        !(b.mode is ReceivingFw) ==> bs_command(b, cmd::BEGIN_TRANSFER, payload) == (
            b,
            BsDo::Reply(nak(err::INVALID_STATE)),
        ),
        b.mode matches BsMode::ReceivingFw(u) ==> u.received < u.fw_size ==> bs_command(
            b,
            cmd::BEGIN_TRANSFER,
            payload,
        ) == (b, BsDo::Reply(nak(err::NO_FW_DATA))),
{
}

/// An abort by the host, and the end of a transfer, leave the base station
/// idle, free for the next upload.
pub proof fn every_transfer_ends_idle(
    b: BsView,
    payload: Seq<u8>,
    source: u8,
    rssi: i16,
    data: Seq<u8>,
)
    ensures
        bs_command(b, cmd::ABORT_OTA, payload).0 == (BsView {
            mode: BsMode::Idle,
            sender: None,
            ..b
        }),
        bs_command(b, cmd::ABORT_OTA, payload).1 == BsDo::Reply(ack()),
        ({
            let after = bs_mesh_message(b, source, rssi, data);
            b.sender is Some && after.0.sender is None ==> after.0.mode is Idle && after.1 is Some
        }),
{
}

/// While no more than the announced size has come, the reported percentage is
/// the share of the upload that has come, rounded down; so for a transfer.
pub proof fn percentages_are_shares(received: u32, fw_size: u32, sent: u16, total: u16)
    ensures
        received <= fw_size && 0 < fw_size <= MAX_FW_SIZE ==> {
            &&& upload_percent(received, fw_size) == received * 100 / fw_size as int
            &&& upload_percent(received, fw_size) <= 100
        },
        sent <= total && total > 0 ==> {
            &&& transfer_percent(sent, total) == sent * 100 / total as int
            &&& transfer_percent(sent, total) <= 100
        },
{
    if received <= fw_size && 0 < fw_size <= MAX_FW_SIZE {
        assert(received * 100 / fw_size as int <= 100) by (nonlinear_arith)
            requires
                0 <= received <= fw_size,
                fw_size > 0,
        ;
        assert(received * 100 / fw_size as int >= 0) by (nonlinear_arith)
            requires
                0 <= received,
                fw_size > 0,
        ;
    }
    if sent <= total && total > 0 {
        assert(0 <= sent * 100 / total as int <= 100) by (nonlinear_arith)
            requires
                0 <= sent <= total,
                total > 0,
        ;
    }
}

} // verus!
