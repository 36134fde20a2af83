//! What a sender and a receiver do together: a transfer from the first offer
//! to the verified image.

use vstd::prelude::*;
use crate::bytes::{u16_le, u16_round_trip, u32_le};
use crate::crc::image_crc;
use crate::ota::{
    page_image, page_index, rx_chunk, rx_expire, rx_image_read, rx_message, rx_page_written, RxDo,
    RxPhase, Transfer, DFU_PAGES, DFU_PAGE_START, MAX_FW_SIZE, PAGE_SIZE, TRANSFER_TIMEOUT_MS,
};
use crate::ota_protocol::{
    abort_bytes, accept_bytes, ack_bytes, chunk_bytes, chunk_round_trip, complete_bytes, msg,
    offer_bytes, offer_round_trip, parse_chunk, reason, reject_bytes, OtaOffer, CHUNK_DATA_SIZE,
};
use crate::ota_sender::{
    chunk_count, chunk_data, current_chunk_bytes, tx_message, tx_next, OtaResult, Phase,
    SenderView,
};

verus! {

/// The page that a receiver asks to be written.
pub open spec fn asked_page(p: RxPhase) -> Seq<u8> {
    match p {
        RxPhase::Flushing { t, .. } => page_image(t.page),
        RxPhase::LastPage(t) => page_image(t.page),
        _ => Seq::empty(),
    }
}

/// A target node: its receiver, and the pages that the transfer under way has
/// written to its DFU partition, one after the other.
pub struct Target {
    pub rx: RxPhase,
    pub dfu: Seq<u8>,
}

/// Write the page that is asked for, if one is, on flash that works.
pub open spec fn write_asked(n: Target, act: RxDo) -> (Target, RxDo) {
    if act is WritePage {
        let after = rx_page_written(n.rx, true);
        (Target { rx: after.0, dfu: n.dfu + asked_page(n.rx) }, after.1)
    } else {
        (n, act)
    }
}

/// Do all that a receiver asks for, on flash that works.
pub open spec fn settle(n: Target, act: RxDo) -> (Target, RxDo) {
    let once = write_asked(n, act);
    let twice = write_asked(once.0, once.1);
    match twice.1 {
        RxDo::Verify(size) => {
            let after = rx_image_read(twice.0.rx, twice.0.dfu.subrange(0, size as int));
            (Target { rx: after.0, ..twice.0 }, after.1)
        },
        _ => twice,
    }
}

/// A message reaches the target.
pub open spec fn deliver(n: Target, fw_version: u16, message: Seq<u8>, now_ms: u32) -> (
    Target,
    RxDo,
) {
    let after = rx_message(n.rx, fw_version, message, now_ms);
    settle(Target { rx: after.0, ..n }, after.1)
}

/// Offer `o` describes the image `fw`.
pub open spec fn describes(o: OtaOffer, fw: Seq<u8>) -> bool {
    &&& 0 < fw.len() <= MAX_FW_SIZE
    &&& o.firmware_size == fw.len()
    &&& o.total_chunks == chunk_count(fw.len() as int)
}

/// The message with chunk `index` of `fw`, and the padding that the mesh adds.
pub open spec fn chunk_message(fw: Seq<u8>, index: u16, padding: Seq<u8>) -> Seq<u8> {
    chunk_bytes(index, chunk_data(fw, fw.len() as int, index as int)) + padding
}

/// The target has taken in the first `k` chunks of `fw` and waits for more.
pub open spec fn holds_chunks(n: Target, o: OtaOffer, fw: Seq<u8>, k: int) -> bool {
    match n.rx {
        RxPhase::Active(t) => {
            &&& t.offer == o
            &&& 0 <= k < o.total_chunks
            &&& t.next_chunk == k
            &&& t.page.len() < PAGE_SIZE
            &&& n.dfu.len() == t.current_page * PAGE_SIZE
            &&& n.dfu + t.page == fw.subrange(0, k * CHUNK_DATA_SIZE)
        },
        _ => false,
    }
}

proof fn chunk_bounds(fw: Seq<u8>, k: int)
    requires
        0 < fw.len() <= MAX_FW_SIZE,
        0 <= k < chunk_count(fw.len() as int),
    ensures
        chunk_count(fw.len() as int) <= 4248,
        k * CHUNK_DATA_SIZE < fw.len(),
        k + 1 < chunk_count(fw.len() as int) ==> (k + 1) * CHUNK_DATA_SIZE < fw.len(),
        k + 1 == chunk_count(fw.len() as int) ==> (k + 1) * CHUNK_DATA_SIZE >= fw.len(),
{
}

/// A chunk starts where the chunks before it end, and the last one ends where
/// the image does.
pub proof fn chunks_make_the_image(fw: Seq<u8>, k: int)
    requires
        0 < fw.len() <= MAX_FW_SIZE,
        0 <= k < chunk_count(fw.len() as int),
    ensures
        chunk_data(fw, fw.len() as int, k).len() <= CHUNK_DATA_SIZE,
        fw.subrange(0, k * CHUNK_DATA_SIZE) + chunk_data(fw, fw.len() as int, k) == (
        if k + 1 < chunk_count(fw.len() as int) {
            fw.subrange(0, (k + 1) * CHUNK_DATA_SIZE)
        } else {
            fw
        }),
{
    chunk_bounds(fw, k);
    let head = fw.subrange(0, k * CHUNK_DATA_SIZE);
    let data = chunk_data(fw, fw.len() as int, k);
    if k + 1 < chunk_count(fw.len() as int) {
        assert(head + data =~= fw.subrange(0, (k + 1) * CHUNK_DATA_SIZE));
    } else {
        assert(head + data =~= fw);
    }
}

/// An idle target accepts an offer of a newer image that fits, and then waits
/// for its first chunk.
pub proof fn offer_starts_transfer(
    fw_version: u16,
    o: OtaOffer,
    fw: Seq<u8>,
    padding: Seq<u8>,
    now_ms: u32,
)
    requires
        describes(o, fw),
        o.version > fw_version,
    ensures
        ({
            let start = Target { rx: RxPhase::Idle, dfu: Seq::empty() };
            let after = deliver(start, fw_version, offer_bytes(o) + padding, now_ms);
            &&& holds_chunks(after.0, o, fw, 0)
            &&& after.1 == RxDo::Reply(Some(accept_bytes()))
        }),
{
    offer_round_trip(o, padding);
    chunk_bounds(fw, 0);
    assert(Seq::<u8>::empty() + Seq::<u8>::empty() =~= fw.subrange(0, 0));
}

/// The chunk that a target waits for reads back from its message.
proof fn next_chunk_reads_back(
    n: Target,
    o: OtaOffer,
    fw: Seq<u8>,
    k: u16,
    fw_version: u16,
    padding: Seq<u8>,
    now_ms: u32,
)
    requires
        describes(o, fw),
        holds_chunks(n, o, fw, k as int),
    ensures
        parse_chunk(chunk_message(fw, k, padding).skip(1)) == Some(
            (k, chunk_data(fw, fw.len() as int, k as int)),
        ),
        rx_message(n.rx, fw_version, chunk_message(fw, k, padding), now_ms) == rx_chunk(
            n.rx,
            chunk_message(fw, k, padding).skip(1),
            now_ms,
        ),
        chunk_data(fw, fw.len() as int, k as int).len() <= CHUNK_DATA_SIZE,
        k < 4248,
{
    chunks_make_the_image(fw, k as int);
    chunk_bounds(fw, k as int);
    chunk_round_trip(k, chunk_data(fw, fw.len() as int, k as int), padding);
}

/// The chunk that the target waits for, if it is not the last one: the target
/// holds it, and acknowledges it by asking for the next.
#[verifier::rlimit(40)]
pub proof fn next_chunk_is_taken(
    n: Target,
    o: OtaOffer,
    fw: Seq<u8>,
    k: u16,
    fw_version: u16,
    padding: Seq<u8>,
    now_ms: u32,
)
    requires
        describes(o, fw),
        holds_chunks(n, o, fw, k as int),
        k + 1 < o.total_chunks,
    ensures
        ({
            let after = deliver(n, fw_version, chunk_message(fw, k, padding), now_ms);
            &&& holds_chunks(after.0, o, fw, k + 1)
            &&& after.1 == RxDo::Reply(Some(ack_bytes(k, (k + 1) as u16)))
        }),
{
    next_chunk_reads_back(n, o, fw, k, fw_version, padding, now_ms);
    chunks_make_the_image(fw, k as int);
    chunk_bounds(fw, k as int);
    let data = chunk_data(fw, fw.len() as int, k as int);
    let t = n.rx->Active_0;
    let all = t.page + data;
    let after = deliver(n, fw_version, chunk_message(fw, k, padding), now_ms);
    if all.len() < PAGE_SIZE {
        assert(n.dfu + all =~= fw.subrange(0, k * CHUNK_DATA_SIZE) + data);
    } else {
        let full = all.subrange(0, PAGE_SIZE as int);
        assert(page_image(full) =~= full);
        assert((n.dfu + full) + all.skip(PAGE_SIZE as int) =~= fw.subrange(
            0,
            k * CHUNK_DATA_SIZE,
        ) + data);
        assert(n.dfu.len() <= fw.len());
        assert(after.0.rx is Active);
    }
}

/// The last chunk: the DFU partition holds the image from its start, and the
/// target reports it complete and asks for the swap exactly if the offer gave
/// the image's CRC; else it aborts. Either way it is idle again.
#[verifier::spinoff_prover]
#[verifier::rlimit(80)]
pub proof fn last_chunk_completes(
    n: Target,
    o: OtaOffer,
    fw: Seq<u8>,
    k: u16,
    fw_version: u16,
    padding: Seq<u8>,
    now_ms: u32,
)
    requires
        describes(o, fw),
        holds_chunks(n, o, fw, k as int),
        k + 1 == o.total_chunks,
    ensures
        ({
            let after = deliver(n, fw_version, chunk_message(fw, k, padding), now_ms);
            &&& after.0.rx is Idle
            &&& fw.len() <= after.0.dfu.len() < fw.len() + PAGE_SIZE
            &&& after.0.dfu.subrange(0, fw.len() as int) == fw
            &&& after.1 == if o.crc32 == image_crc(fw) {
                RxDo::Finish { reply: complete_bytes(image_crc(fw)), swap: true }
            } else {
                RxDo::Finish { reply: abort_bytes(reason::CRC_MISMATCH), swap: false }
            }
        }),
{
    next_chunk_reads_back(n, o, fw, k, fw_version, padding, now_ms);
    chunks_make_the_image(fw, k as int);
    chunk_bounds(fw, k as int);
    let data = chunk_data(fw, fw.len() as int, k as int);
    let t = n.rx->Active_0;
    let all = t.page + data;
    let after = deliver(n, fw_version, chunk_message(fw, k, padding), now_ms);
    assert(fw.subrange(0, k * CHUNK_DATA_SIZE) + data == fw);
    assert(n.dfu + all =~= fw);
    if all.len() < PAGE_SIZE {
        assert(all.len() > 0);
        assert((n.dfu + page_image(all)).subrange(0, fw.len() as int) =~= fw);
        assert(after.0.dfu =~= n.dfu + page_image(all));
    } else {
        let full = all.subrange(0, PAGE_SIZE as int);
        let rest = all.skip(PAGE_SIZE as int);
        assert(page_image(full) =~= full);
        assert((n.dfu + full) + rest =~= fw);
        if rest.len() > 0 {
            assert(((n.dfu + full) + page_image(rest)).subrange(0, fw.len() as int) =~= fw);
            assert(after.0.dfu =~= (n.dfu + full) + page_image(rest));
        } else {
            assert(n.dfu + full =~= fw);
            assert(after.0.dfu =~= fw);
            assert(fw.subrange(0, fw.len() as int) =~= fw);
        }
    }
}

/// Any other chunk, early, late or repeated, changes nothing of what the
/// target holds, and is answered with the chunk that it waits for.
pub proof fn other_chunk_changes_nothing(
    n: Target,
    o: OtaOffer,
    fw: Seq<u8>,
    k: u16,
    index: u16,
    fw_version: u16,
    padding: Seq<u8>,
    now_ms: u32,
)
    requires
        describes(o, fw),
        holds_chunks(n, o, fw, k as int),
        index != k,
    ensures
        ({
            let after = deliver(n, fw_version, chunk_message(fw, index, padding), now_ms);
            &&& holds_chunks(after.0, o, fw, k as int)
            &&& after.0.dfu == n.dfu
            &&& after.1 == RxDo::Reply(Some(ack_bytes(index, k)))
        }),
{
    let data = chunk_data(fw, fw.len() as int, index as int);
    chunk_round_trip(index, data, padding);
}

/// Chunks of `fw` reach the target, these ones in this order.
pub open spec fn deliver_chunks(
    n: Target,
    fw: Seq<u8>,
    indices: Seq<u16>,
    fw_version: u16,
    now_ms: u32,
) -> Target
    decreases indices.len(),
{
    if indices.len() == 0 {
        n
    } else {
        deliver(
            deliver_chunks(n, fw, indices.drop_last(), fw_version, now_ms),
            fw_version,
            chunk_message(fw, indices.last(), Seq::empty()),
            now_ms,
        ).0
    }
}

/// The target holds the first chunks of `fw` and waits for the next, or it is
/// idle with all of `fw` at the start of its DFU partition.
pub open spec fn holds_nothing_else(n: Target, o: OtaOffer, fw: Seq<u8>) -> bool {
    ||| exists|k: int| holds_chunks(n, o, fw, k)
    ||| n.rx is Idle && n.dfu.len() >= fw.len() && n.dfu.subrange(0, fw.len() as int) == fw
}

/// Whatever the mesh loses, repeats or reorders, the target never holds anything
/// but the image: chunks in any order and number leave it waiting for the next
/// chunk, or done with all of them.
pub proof fn any_delivery_gives_the_image(
    n: Target,
    o: OtaOffer,
    fw: Seq<u8>,
    indices: Seq<u16>,
    fw_version: u16,
    now_ms: u32,
)
    requires
        describes(o, fw),
        holds_nothing_else(n, o, fw),
    ensures
        holds_nothing_else(deliver_chunks(n, fw, indices, fw_version, now_ms), o, fw),
    decreases indices.len(),
{
    if indices.len() > 0 {
        any_delivery_gives_the_image(n, o, fw, indices.drop_last(), fw_version, now_ms);
        let before = deliver_chunks(n, fw, indices.drop_last(), fw_version, now_ms);
        let index = indices.last();
        let message = chunk_message(fw, index, Seq::empty());
        let after = deliver(before, fw_version, message, now_ms).0;
        if exists|k: int| holds_chunks(before, o, fw, k) {
            let k = choose|k: int| holds_chunks(before, o, fw, k);
            let next = k as u16;
            if index != next {
                other_chunk_changes_nothing(
                    before,
                    o,
                    fw,
                    next,
                    index,
                    fw_version,
                    Seq::empty(),
                    now_ms,
                );
                assert(holds_chunks(after, o, fw, k));
            } else if next + 1 < o.total_chunks {
                next_chunk_is_taken(before, o, fw, next, fw_version, Seq::empty(), now_ms);
                assert(holds_chunks(after, o, fw, k + 1));
            } else {
                last_chunk_completes(before, o, fw, next, fw_version, Seq::empty(), now_ms);
            }
        } else {
            assert(message[0] == msg::OTA_CHUNK);
            assert(rx_message(before.rx, fw_version, message, now_ms) == (
                before.rx,
                RxDo::Reply(None),
            ));
            assert(after == before);
        }
    }
}

proof fn page_number(len: int, c: u16)
    requires
        len == c * PAGE_SIZE,
        c < DFU_PAGES,
    ensures
        page_index(c) == DFU_PAGE_START + len / PAGE_SIZE as int,
        page_index(c) < DFU_PAGE_START + DFU_PAGES,
{
}

/// The chunks so far and the one that a target waits for fit the image.
proof fn chunk_fits(n: Target, o: OtaOffer, fw: Seq<u8>, k: u16)
    requires
        describes(o, fw),
        holds_chunks(n, o, fw, k as int),
    ensures
        n.dfu.len() + n.rx->Active_0.page.len() + chunk_data(
            fw,
            fw.len() as int,
            k as int,
        ).len() <= MAX_FW_SIZE,
{
    chunks_make_the_image(fw, k as int);
    chunk_bounds(fw, k as int);
    let data = chunk_data(fw, fw.len() as int, k as int);
    let head = fw.subrange(0, k * CHUNK_DATA_SIZE);
    assert((head + data).len() <= fw.len());
    assert((n.dfu + n.rx->Active_0.page).len() == head.len());
}

/// Every page that the target asks for while it takes in `fw` is the next one
/// of the DFU partition's image pages.
#[verifier::rlimit(40)]
pub proof fn pages_stay_in_the_partition(
    n: Target,
    o: OtaOffer,
    fw: Seq<u8>,
    k: u16,
    fw_version: u16,
    padding: Seq<u8>,
    now_ms: u32,
)
    requires
        describes(o, fw),
        holds_chunks(n, o, fw, k as int),
    ensures
        ({
            let first = rx_message(n.rx, fw_version, chunk_message(fw, k, padding), now_ms);
            let second = rx_page_written(first.0, true);
            let page = n.dfu.len() as int / PAGE_SIZE as int;
            &&& first.1 matches RxDo::WritePage(i) ==> {
                &&& i == DFU_PAGE_START + page < DFU_PAGE_START + DFU_PAGES
                &&& second.1 matches RxDo::WritePage(j) ==> j == DFU_PAGE_START + page + 1
                    < DFU_PAGE_START + DFU_PAGES
            }
        }),
{
    next_chunk_reads_back(n, o, fw, k, fw_version, padding, now_ms);
    chunk_fits(n, o, fw, k);
    let data = chunk_data(fw, fw.len() as int, k as int);
    let t = n.rx->Active_0;
    let c = t.current_page;
    let len = n.dfu.len() as int;
    let first = rx_chunk(n.rx, chunk_message(fw, k, padding).skip(1), now_ms);
    if t.page.len() + data.len() < PAGE_SIZE {
        if first.1 is WritePage {
            assert(first.0 is LastPage);
            assert(rx_page_written(first.0, true).1 is Verify);
            page_number(len, c);
        }
    } else {
        page_number(len, c);
        let second = rx_page_written(first.0, true);
        if second.1 is WritePage {
            let d = ((c + 1) % 0x1_0000) as u16;
            assert(d == c + 1);
            page_number(len + PAGE_SIZE, d);
        }
    }
}

/// A node with its flash, page by page, and the swaps that it has asked the
/// bootloader for.
pub struct Device {
    pub rx: RxPhase,
    pub flash: Map<int, Seq<u8>>,
    pub swaps: nat,
}

/// The first `size` bytes of the DFU partition.
pub open spec fn flash_image(flash: Map<int, Seq<u8>>, size: int) -> Seq<u8> {
    Seq::new(
        size as nat,
        |i: int| flash[DFU_PAGE_START + i / PAGE_SIZE as int][i % PAGE_SIZE as int],
    )
}

/// Write the page that is asked for, if one is, on flash that works.
pub open spec fn device_write(d: Device, act: RxDo) -> (Device, RxDo) {
    match act {
        RxDo::WritePage(i) => {
            let after = rx_page_written(d.rx, true);
            let flash = d.flash.insert(i as int, asked_page(d.rx));
            (Device { rx: after.0, flash, ..d }, after.1)
        },
        _ => (d, act),
    }
}

/// Do all that the receiver asks for, on flash that works.
pub open spec fn device_settle(d: Device, act: RxDo) -> (Device, RxDo) {
    let once = device_write(d, act);
    let twice = device_write(once.0, once.1);
    match twice.1 {
        RxDo::Verify(size) => {
            let after = rx_image_read(twice.0.rx, flash_image(twice.0.flash, size as int));
            let swaps = match after.1 {
                RxDo::Finish { swap: true, .. } => twice.0.swaps + 1,
                _ => twice.0.swaps,
            };
            (Device { rx: after.0, swaps, ..twice.0 }, after.1)
        },
        _ => twice,
    }
}

/// A message reaches the node.
pub open spec fn device_deliver(d: Device, fw_version: u16, message: Seq<u8>, now_ms: u32) -> (
    Device,
    RxDo,
) {
    let after = rx_message(d.rx, fw_version, message, now_ms);
    device_settle(Device { rx: after.0, ..d }, after.1)
}

/// The first `k` chunks of `fw` reach the node, in order and at these times.
pub open spec fn device_chunks(
    d: Device,
    fw: Seq<u8>,
    k: nat,
    fw_version: u16,
    padding: Seq<u8>,
    times: Seq<u32>,
) -> Device
    decreases k,
{
    if k == 0 {
        d
    } else {
        let i = k - 1;
        device_deliver(
            device_chunks(d, fw, i as nat, fw_version, padding, times),
            fw_version,
            chunk_message(fw, i as u16, padding),
            times[i],
        ).0
    }
}

/// The node's flash holds what the target has written, in the pages of the DFU
/// partition from the first on, and elsewhere what it held before.
pub open spec fn mirrors(d: Device, n: Target, before: Map<int, Seq<u8>>) -> bool {
    let end = DFU_PAGE_START + n.dfu.len() as int / PAGE_SIZE as int;
    &&& d.rx == n.rx
    &&& n.dfu.len() % PAGE_SIZE as nat == 0
    &&& flash_image(d.flash, n.dfu.len() as int) == n.dfu
    &&& forall|p: int| !(DFU_PAGE_START <= p < end) ==> d.flash.dom().contains(p)
        == before.dom().contains(p)
    &&& forall|p: int| !(DFU_PAGE_START <= p < end) ==> #[trigger] d.flash[p] == before[p]
}

proof fn write_mirrors(d: Device, n: Target, before: Map<int, Seq<u8>>, act: RxDo)
    requires
        mirrors(d, n, before),
        act matches RxDo::WritePage(i) ==> i == DFU_PAGE_START + n.dfu.len() as int
            / PAGE_SIZE as int && (n.rx is Flushing || n.rx is LastPage),
    ensures
        mirrors(device_write(d, act).0, write_asked(n, act).0, before),
        device_write(d, act).1 == write_asked(n, act).1,
        device_write(d, act).0.swaps == d.swaps,
{
    if act is WritePage {
        let page = asked_page(n.rx);
        let at = DFU_PAGE_START + n.dfu.len() as int / PAGE_SIZE as int;
        let flash = d.flash.insert(at, page);
        let dfu = n.dfu + page;
        assert(page.len() == PAGE_SIZE);
        assert forall|i: int| 0 <= i < dfu.len() implies flash_image(flash, dfu.len() as int)[i]
            == dfu[i] by {
            if i < n.dfu.len() {
                assert(flash_image(d.flash, n.dfu.len() as int)[i] == n.dfu[i]);
                assert(i / (PAGE_SIZE as int) < n.dfu.len() as int / (PAGE_SIZE as int));
            }
        }
        assert(flash_image(flash, dfu.len() as int) =~= dfu);
    }
}

/// The chunk that is waited for does the same to the node as to the target.
#[verifier::rlimit(40)]
proof fn chunk_mirrors(
    d: Device,
    n: Target,
    before: Map<int, Seq<u8>>,
    o: OtaOffer,
    fw: Seq<u8>,
    k: u16,
    fw_version: u16,
    padding: Seq<u8>,
    now_ms: u32,
)
    requires
        describes(o, fw),
        holds_chunks(n, o, fw, k as int),
        mirrors(d, n, before),
    ensures
        ({
            let message = chunk_message(fw, k, padding);
            let a = device_deliver(d, fw_version, message, now_ms);
            let b = deliver(n, fw_version, message, now_ms);
            &&& mirrors(a.0, b.0, before)
            &&& a.1 == b.1
            &&& a.0.swaps == d.swaps + if b.1 is Finish && b.1->swap {
                1nat
            } else {
                0nat
            }
        }),
{
    let message = chunk_message(fw, k, padding);
    let first = rx_message(n.rx, fw_version, message, now_ms);
    let d0 = Device { rx: first.0, ..d };
    let n0 = Target { rx: first.0, ..n };
    next_chunk_reads_back(n, o, fw, k, fw_version, padding, now_ms);
    pages_stay_in_the_partition(n, o, fw, k, fw_version, padding, now_ms);
    assert(mirrors(d0, n0, before));
    write_mirrors(d0, n0, before, first.1);
    let d1 = device_write(d0, first.1);
    let n1 = write_asked(n0, first.1);
    write_mirrors(d1.0, n1.0, before, n1.1);
    let d2 = device_write(d1.0, d1.1);
    let n2 = write_asked(n1.0, n1.1);
    if n2.1 is Verify {
        chunk_bounds(fw, k as int);
        assert(k + 1 == o.total_chunks);
        last_chunk_completes(n, o, fw, k, fw_version, padding, now_ms);
        assert(deliver(n, fw_version, message, now_ms).0.dfu == n2.0.dfu);
        assert(flash_image(d2.0.flash, fw.len() as int) =~= n2.0.dfu.subrange(
            0,
            fw.len() as int,
        )) by {
            assert forall|i: int| 0 <= i < fw.len() implies flash_image(
                d2.0.flash,
                fw.len() as int,
            )[i] == n2.0.dfu[i] by {
                assert(flash_image(d2.0.flash, n2.0.dfu.len() as int)[i] == n2.0.dfu[i]);
            }
        }
    }
}

/// The first chunks of `fw`, in order, after the offer: nothing is swapped, and
/// the node waits for the next.
proof fn chunks_in_order(
    start: Device,
    o: OtaOffer,
    fw: Seq<u8>,
    k: nat,
    fw_version: u16,
    padding: Seq<u8>,
    offered_ms: u32,
    times: Seq<u32>,
) -> (n: Target)
    requires
        start.rx is Idle,
        describes(o, fw),
        o.version > fw_version,
        k < o.total_chunks,
    ensures
        ({
            let offered = device_deliver(start, fw_version, offer_bytes(o) + padding, offered_ms).0;
            let d = device_chunks(offered, fw, k, fw_version, padding, times);
            &&& holds_chunks(n, o, fw, k as int)
            &&& mirrors(d, n, start.flash)
            &&& d.swaps == start.swaps
        }),
    decreases k,
{
    let offered = device_deliver(start, fw_version, offer_bytes(o) + padding, offered_ms).0;
    if k == 0 {
        let idle = Target { rx: RxPhase::Idle, dfu: Seq::empty() };
        offer_starts_transfer(fw_version, o, fw, padding, offered_ms);
        let n = deliver(idle, fw_version, offer_bytes(o) + padding, offered_ms).0;
        assert(n.dfu =~= Seq::<u8>::empty());
        assert(flash_image(offered.flash, 0) =~= n.dfu);
        n
    } else {
        let i = (k - 1) as nat;
        let n = chunks_in_order(start, o, fw, i, fw_version, padding, offered_ms, times);
        let d = device_chunks(offered, fw, i, fw_version, padding, times);
        chunk_mirrors(
            d,
            n,
            start.flash,
            o,
            fw,
            i as u16,
            fw_version,
            padding,
            times[i as int],
        );
        next_chunk_is_taken(n, o, fw, i as u16, fw_version, padding, times[i as int]);
        deliver(n, fw_version, chunk_message(fw, i as u16, padding), times[i as int]).0
    }
}

/// A whole transfer as the node sees it, whatever its flash held: an accepted
/// offer, every chunk but the last in order, and then the last one. The reply is
/// OTA_COMPLETE with the image's CRC, the DFU partition starts with the image,
/// no page but those that the image takes was touched, the swap is asked for
/// once and not before, and the node is idle.
pub proof fn last_chunk_ends_the_transfer(
    start: Device,
    o: OtaOffer,
    fw: Seq<u8>,
    fw_version: u16,
    padding: Seq<u8>,
    offered_ms: u32,
    times: Seq<u32>,
)
    requires
        start.rx is Idle,
        describes(o, fw),
        o.crc32 == image_crc(fw),
        o.version > fw_version,
    ensures
        ({
            let offered = device_deliver(start, fw_version, offer_bytes(o) + padding, offered_ms);
            let k = o.total_chunks - 1;
            let before = device_chunks(offered.0, fw, k as nat, fw_version, padding, times);
            let last = device_deliver(
                before,
                fw_version,
                chunk_message(fw, k as u16, padding),
                times[k],
            );
            let pages = (fw.len() + PAGE_SIZE - 1) / PAGE_SIZE as int;
            &&& offered.1 == RxDo::Reply(Some(accept_bytes()))
            &&& before.rx is Active
            &&& before.swaps == start.swaps
            &&& last.1 == RxDo::Finish { reply: seq![0xF6u8] + u32_le(image_crc(fw)), swap: true }
            &&& last.0.rx is Idle
            &&& last.0.swaps == start.swaps + 1
            &&& flash_image(last.0.flash, fw.len() as int) == fw
            &&& pages <= DFU_PAGES
            &&& forall|p: int|
                !(DFU_PAGE_START <= p < DFU_PAGE_START + pages) ==> #[trigger] last.0.flash[p]
                    == start.flash[p]
        }),
{
    chunk_bounds(fw, 0);
    let k = (o.total_chunks - 1) as u16;
    offer_starts_transfer(fw_version, o, fw, padding, offered_ms);
    let offered = device_deliver(start, fw_version, offer_bytes(o) + padding, offered_ms);
    let before = device_chunks(offered.0, fw, k as nat, fw_version, padding, times);
    let n = chunks_in_order(start, o, fw, k as nat, fw_version, padding, offered_ms, times);
    let now = times[k as int];
    chunk_mirrors(before, n, start.flash, o, fw, k, fw_version, padding, now);
    last_chunk_completes(n, o, fw, k, fw_version, padding, now);
    let message = chunk_message(fw, k, padding);
    let a = device_deliver(before, fw_version, message, now);
    let b = deliver(n, fw_version, message, now);
    assert(flash_image(a.0.flash, fw.len() as int) =~= fw) by {
        assert forall|i: int| 0 <= i < fw.len() implies flash_image(
            a.0.flash,
            fw.len() as int,
        )[i] == fw[i] by {
            assert(flash_image(a.0.flash, b.0.dfu.len() as int)[i] == b.0.dfu[i]);
            assert(b.0.dfu.subrange(0, fw.len() as int)[i] == fw[i]);
        }
    }
    assert(b.0.dfu.len() as int / PAGE_SIZE as int == (fw.len() + PAGE_SIZE - 1)
        / PAGE_SIZE as int);
}

/// One exchange in which nothing is lost: the sender's next message reaches
/// the target, and the target's reply reaches the sender.
pub open spec fn exchange(s: SenderView, n: Target, dfu: Seq<u8>, fw_version: u16, now_ms: u32) -> (
    SenderView,
    Target,
) {
    let sent = tx_next(s, dfu);
    match sent.1 {
        None => (sent.0, n),
        Some(message) => {
            let got = deliver(n, fw_version, message, now_ms);
            let after = match got.1 {
                RxDo::Reply(Some(reply)) => tx_message(sent.0, reply).0,
                RxDo::Finish { reply, .. } => tx_message(sent.0, reply).0,
                _ => sent.0,
            };
            (after, got.0)
        },
    }
}

/// `count` exchanges in which nothing is lost.
pub open spec fn exchanges(
    s: SenderView,
    n: Target,
    dfu: Seq<u8>,
    fw_version: u16,
    now_ms: u32,
    count: nat,
) -> (SenderView, Target)
    decreases count,
{
    if count == 0 {
        (s, n)
    } else {
        let before = exchanges(s, n, dfu, fw_version, now_ms, (count - 1) as nat);
        exchange(before.0, before.1, dfu, fw_version, now_ms)
    }
}

/// A sender that is about to send chunk `k` of the image that it has offered.
pub open spec fn about_to_send(s: SenderView, o: OtaOffer, k: int) -> bool {
    &&& s.phase == Phase::Sending
    &&& s.offer == o
    &&& s.current_chunk == k
    &&& s.timer == 0
}

proof fn ack_reads_back(index: u16, next: u16)
    ensures
        ack_bytes(index, next).len() == 5,
        ack_bytes(index, next)[0] == msg::OTA_CHUNK_ACK,
        crate::bytes::u16_of(ack_bytes(index, next)[3], ack_bytes(index, next)[4]) == next,
{
    u16_round_trip(next);
    assert(ack_bytes(index, next)[3] == u16_le(next)[0]);
    assert(ack_bytes(index, next)[4] == u16_le(next)[1]);
}

/// After the offer and `k` chunks, nothing lost, sender and target agree on
/// chunk `k`.
#[verifier::rlimit(40)]
proof fn exchanges_so_far(
    s: SenderView,
    dfu: Seq<u8>,
    fw: Seq<u8>,
    fw_version: u16,
    now_ms: u32,
    k: nat,
)
    requires
        describes(s.offer, fw),
        s.offer.version > fw_version,
        fw.len() <= dfu.len(),
        dfu.subrange(0, fw.len() as int) == fw,
        s.phase == Phase::Offering,
        k < s.offer.total_chunks,
    ensures
        ({
            let start = Target { rx: RxPhase::Idle, dfu: Seq::empty() };
            let after = exchanges(s, start, dfu, fw_version, now_ms, k + 1);
            &&& about_to_send(after.0, s.offer, k as int)
            &&& holds_chunks(after.1, s.offer, fw, k as int)
        }),
    decreases k,
{
    let start = Target { rx: RxPhase::Idle, dfu: Seq::empty() };
    if k == 0 {
        offer_starts_transfer(fw_version, s.offer, fw, Seq::empty(), now_ms);
        assert(offer_bytes(s.offer) + Seq::<u8>::empty() =~= offer_bytes(s.offer));
        assert(exchanges(s, start, dfu, fw_version, now_ms, 0) == (s, start));
        assert(exchanges(s, start, dfu, fw_version, now_ms, 1) == exchange(
            s,
            start,
            dfu,
            fw_version,
            now_ms,
        ));
    } else {
        let j = (k - 1) as u16;
        exchanges_so_far(s, dfu, fw, fw_version, now_ms, (k - 1) as nat);
        let before = exchanges(s, start, dfu, fw_version, now_ms, k);
        sent_chunk_is_the_images(before.0, dfu, fw, j);
        next_chunk_is_taken(before.1, s.offer, fw, j, fw_version, Seq::empty(), now_ms);
        assert(chunk_message(fw, j, Seq::empty()) =~= current_chunk_bytes(before.0, dfu));
        ack_reads_back(j, k as u16);
        assert(exchanges(s, start, dfu, fw_version, now_ms, k + 1) == exchange(
            before.0,
            before.1,
            dfu,
            fw_version,
            now_ms,
        ));
    }
}

/// What a sender reads from its DFU partition for a chunk is that chunk of the
/// image at the partition's start.
proof fn sent_chunk_is_the_images(s: SenderView, dfu: Seq<u8>, fw: Seq<u8>, k: u16)
    requires
        describes(s.offer, fw),
        fw.len() <= dfu.len(),
        dfu.subrange(0, fw.len() as int) == fw,
        s.current_chunk == k,
    ensures
        current_chunk_bytes(s, dfu) == chunk_bytes(k, chunk_data(fw, fw.len() as int, k as int)),
{
    let size = fw.len() as int;
    assert(forall|i: int| 0 <= i < size ==> dfu[i] == dfu.subrange(0, size)[i]);
    assert(chunk_data(dfu, size, k as int) =~= chunk_data(fw, size, k as int));
}

/// An exchange whose message is known, and what the target makes of it.
proof fn exchange_with(
    s: SenderView,
    n: Target,
    dfu: Seq<u8>,
    fw_version: u16,
    now_ms: u32,
    message: Seq<u8>,
    got: (Target, RxDo),
    reply: Seq<u8>,
)
    requires
        tx_next(s, dfu).1 == Some(message),
        deliver(n, fw_version, message, now_ms) == got,
        got.1 matches RxDo::Finish { reply: r, .. } && r == reply,
    ensures
        exchange(s, n, dfu, fw_version, now_ms) == (
            tx_message(tx_next(s, dfu).0, reply).0,
            got.0,
        ),
{
}

/// A whole transfer in which nothing is lost: one exchange for the offer and
/// one for each chunk, and the sender has its success, the target is idle and
/// its DFU partition starts with the image that the sender's starts with.
#[verifier::spinoff_prover]
#[verifier::rlimit(60)]
pub proof fn transfer_succeeds(
    s: SenderView,
    dfu: Seq<u8>,
    fw: Seq<u8>,
    fw_version: u16,
    now_ms: u32,
)
    requires
        describes(s.offer, fw),
        s.offer.crc32 == image_crc(fw),
        s.offer.version > fw_version,
        fw.len() <= dfu.len(),
        dfu.subrange(0, fw.len() as int) == fw,
        s.phase == Phase::Offering,
    ensures
        ({
            let start = Target { rx: RxPhase::Idle, dfu: Seq::empty() };
            let after = exchanges(
                s,
                start,
                dfu,
                fw_version,
                now_ms,
                (s.offer.total_chunks + 1) as nat,
            );
            &&& after.0.phase == Phase::Done
            &&& after.0.result == Some(OtaResult::Success)
            &&& after.1.rx is Idle
            &&& after.1.dfu.len() >= fw.len()
            &&& after.1.dfu.subrange(0, fw.len() as int) == fw
        }),
{
    let start = Target { rx: RxPhase::Idle, dfu: Seq::empty() };
    let total = s.offer.total_chunks;
    chunk_bounds(fw, 0);
    let k = (total - 1) as u16;
    exchanges_so_far(s, dfu, fw, fw_version, now_ms, k as nat);
    let before = exchanges(s, start, dfu, fw_version, now_ms, total as nat);
    sent_chunk_is_the_images(before.0, dfu, fw, k);
    last_chunk_completes(before.1, s.offer, fw, k, fw_version, Seq::empty(), now_ms);
    let message = chunk_message(fw, k, Seq::empty());
    let got = deliver(before.1, fw_version, message, now_ms);
    assert(message =~= current_chunk_bytes(before.0, dfu));
    exchange_with(
        before.0,
        before.1,
        dfu,
        fw_version,
        now_ms,
        message,
        got,
        complete_bytes(image_crc(fw)),
    );
    assert(exchanges(s, start, dfu, fw_version, now_ms, (total + 1) as nat) == exchange(
        before.0,
        before.1,
        dfu,
        fw_version,
        now_ms,
    ));
}

/// A lost acknowledgement is made good by the retransmission: a sender one
/// chunk behind its target is level with it after the next exchange, and the
/// target holds what it held.
pub proof fn retransmission_recovers(
    s: SenderView,
    n: Target,
    dfu: Seq<u8>,
    fw: Seq<u8>,
    k: u16,
    fw_version: u16,
    now_ms: u32,
)
    requires
        describes(s.offer, fw),
        fw.len() <= dfu.len(),
        dfu.subrange(0, fw.len() as int) == fw,
        about_to_send(s, s.offer, k as int),
        k + 1 < s.offer.total_chunks,
        holds_chunks(n, s.offer, fw, k + 1),
    ensures
        ({
            let after = exchange(s, n, dfu, fw_version, now_ms);
            &&& about_to_send(after.0, s.offer, k + 1)
            &&& holds_chunks(after.1, s.offer, fw, k + 1)
        }),
{
    sent_chunk_is_the_images(s, dfu, fw, k);
    other_chunk_changes_nothing(
        n,
        s.offer,
        fw,
        (k + 1) as u16,
        k,
        fw_version,
        Seq::empty(),
        now_ms,
    );
    assert(chunk_message(fw, k, Seq::empty()) =~= current_chunk_bytes(s, dfu));
    ack_reads_back(k, (k + 1) as u16);
}

/// `calls` calls of `next_message` with no answer in between.
pub open spec fn unanswered(s: SenderView, dfu: Seq<u8>, calls: nat) -> SenderView
    decreases calls,
{
    if calls == 0 {
        s
    } else {
        tx_next(unanswered(s, dfu, (calls - 1) as nat), dfu).0
    }
}

/// A sender that hears nothing keeps silent for as many calls as its timer
/// says, and is then about to send the same chunk again.
pub proof fn silence_leads_to_retransmission(s: SenderView, dfu: Seq<u8>, calls: nat)
    requires
        s.phase == Phase::Sending,
        calls <= s.timer,
    ensures
        unanswered(s, dfu, calls) == (SenderView { timer: (s.timer - calls) as u32, ..s }),
        calls < s.timer ==> tx_next(unanswered(s, dfu, calls), dfu).1 is None,
        calls == s.timer ==> tx_next(unanswered(s, dfu, calls), dfu).1 == Some(
            current_chunk_bytes(s, dfu),
        ),
    decreases calls,
{
    if calls > 0 {
        silence_leads_to_retransmission(s, dfu, (calls - 1) as nat);
    }
}

/// A node in a transfer refuses every offer as busy, and the transfer stands.
pub proof fn busy_node_refuses(
    t: Transfer,
    fw_version: u16,
    message: Seq<u8>,
    now_ms: u32,
)
    requires
        message.len() > 0,
        message[0] == msg::OTA_OFFER,
    ensures
        rx_message(RxPhase::Active(t), fw_version, message, now_ms) == (
            RxPhase::Active(t),
            RxDo::Reply(Some(reject_bytes(reason::BUSY))),
        ),
{
}

/// An idle node refuses an image that is empty or too large for want of space,
/// and one that is not newer than what it runs for its version, and stays idle.
pub proof fn unfit_offer_is_refused(
    fw_version: u16,
    o: OtaOffer,
    padding: Seq<u8>,
    now_ms: u32,
)
    ensures
        o.firmware_size == 0 || o.firmware_size > MAX_FW_SIZE ==> rx_message(
            RxPhase::Idle,
            fw_version,
            offer_bytes(o) + padding,
            now_ms,
        ) == (RxPhase::Idle, RxDo::Reply(Some(reject_bytes(reason::NO_SPACE)))),
        0 < o.firmware_size <= MAX_FW_SIZE && o.version <= fw_version ==> rx_message(
            RxPhase::Idle,
            fw_version,
            offer_bytes(o) + padding,
            now_ms,
        ) == (RxPhase::Idle, RxDo::Reply(Some(reject_bytes(reason::BAD_VERSION)))),
{
    offer_round_trip(o, padding);
}

/// An abandoned transfer does not keep a node from the next one: after enough
/// silence it is dropped, and until then any chunk, wanted or not, keeps it.
pub proof fn silence_expires_a_transfer(
    t: Transfer,
    index: u16,
    data: Seq<u8>,
    fw_version: u16,
    heard_ms: u32,
    now_ms: u32,
)
    requires
        data.len() <= CHUNK_DATA_SIZE,
    ensures
        (now_ms - t.last_ms) % 0x1_0000_0000 >= TRANSFER_TIMEOUT_MS ==> rx_expire(
            RxPhase::Active(t),
            now_ms,
        ) is Idle,
        ({
            let heard = rx_message(
                RxPhase::Active(t),
                fw_version,
                chunk_bytes(index, data),
                heard_ms,
            ).0;
            (heard is Active && (now_ms - heard_ms) % 0x1_0000_0000 < TRANSFER_TIMEOUT_MS)
                ==> rx_expire(heard, now_ms) == heard
        }),
{
    chunk_round_trip(index, data, Seq::empty());
    assert(chunk_bytes(index, data) + Seq::<u8>::empty() =~= chunk_bytes(index, data));
}

/// A failed page write or a wrong CRC ends the transfer: the node is idle, free
/// for the next offer, and says why.
pub proof fn failure_frees_the_node(p: RxPhase, image: Seq<u8>)
    ensures
        p is Flushing || p is LastPage ==> rx_page_written(p, false) == (
            RxPhase::Idle,
            RxDo::Reply(Some(abort_bytes(reason::FLASH_ERROR))),
        ),
        p matches RxPhase::Verifying(t) ==> image_crc(image) != t.offer.crc32 ==> rx_image_read(
            p,
            image,
        ) == (
            RxPhase::Idle,
            RxDo::Finish { reply: abort_bytes(reason::CRC_MISMATCH), swap: false },
        ),
{
}

} // verus!
