//! Whole exchanges on the Modbus link: what a request gives, from all that came
//! in after it was sent.

use vstd::prelude::*;
use crate::bytes::{u16_be, u16_le, u16_of};
use crate::rs422::{
    exception_response, exception_round_trip, expected_len, is_whole, link_read, read_response,
    read_result, reg_bytes, response_regs, response_round_trip, LinkDo, LinkRead, LinkStage,
    LinkView, Rs422Error, MAX_REGS,
};

verus! {

/// The link after these reads of the UART, each with its time, and what it asks
/// for; it reads no more once the request is over.
pub open spec fn link_reads(v: LinkView, reads: Seq<(LinkRead, u32)>) -> (LinkView, LinkDo)
    decreases reads.len(),
{
    if reads.len() == 0 {
        (v, LinkDo::ReadByte)
    } else {
        let before = link_reads(v, reads.drop_last());
        if before.0.stage is Idle {
            before
        } else {
            link_read(before.0, reads.last().0, reads.last().1)
        }
    }
}

/// The bytes among the reads.
pub open spec fn bytes_read(reads: Seq<(LinkRead, u32)>) -> Seq<u8>
    decreases reads.len(),
{
    if reads.len() == 0 {
        Seq::empty()
    } else {
        match reads.last().0 {
            LinkRead::Byte(b) => bytes_read(reads.drop_last()).push(b),
            _ => bytes_read(reads.drop_last()),
        }
    }
}

/// No read is a UART error or finds nothing past the deadline.
pub open spec fn undisturbed(v: LinkView, start: u32, reads: Seq<(LinkRead, u32)>) -> bool {
    forall|i: int|
        #![trigger reads[i]]
        0 <= i < reads.len() ==> match reads[i].0 {
            LinkRead::Byte(_) => true,
            LinkRead::Nothing => (reads[i].1 - start) % 0x1_0000_0000 <= v.timeout_ms,
            LinkRead::Error => false,
        }
}

/// The length of the response that begins with `bytes`: an exception response
/// is only 5 bytes total.
pub open spec fn whole_len(bytes: Seq<u8>, count: nat) -> nat {
    if bytes.len() >= 2 && bytes[1] == 0x83 {
        5
    } else {
        expected_len(count)
    }
}

/// How an exchange stands after these reads.
proof fn exchange_stands(v: LinkView, start: u32, reads: Seq<(LinkRead, u32)>)
    requires
        v.stage == (LinkStage::Collect { start }),
        v.resp.len() == 0,
    ensures
        ({
            let after = link_reads(v, reads);
            let bytes = bytes_read(reads);
            let n = whole_len(bytes, v.count);
            &&& after.0 == (LinkView { stage: after.0.stage, resp: after.0.resp, ..v })
            &&& after.0.stage == v.stage || after.0.stage is Idle
            &&& after.0.stage == v.stage ==> after.1 is ReadByte && after.0.resp == bytes
                && bytes.len() < n
            &&& after.0.stage is Idle ==> after.1 is Done
            &&& after.0.stage is Idle && undisturbed(v, start, reads) ==> n <= bytes.len()
                && after.1 == LinkDo::Done(read_result(bytes.take(n as int), v.slave, v.count))
            &&& after.0.stage is Idle && !(after.1 == LinkDo::Done(Err(Rs422Error::Timeout))
                || after.1 == LinkDo::Done(Err(Rs422Error::Uart))) ==> n <= bytes.len() && after.1
                == LinkDo::Done(read_result(bytes.take(n as int), v.slave, v.count))
        }),
    decreases reads.len(),
{
    if reads.len() == 0 {
        assert(v.resp =~= bytes_read(reads));
    } else {
        let init = reads.drop_last();
        exchange_stands(v, start, init);
        let before = link_reads(v, init);
        let old_bytes = bytes_read(init);
        let bytes = bytes_read(reads);
        assert(reads[reads.len() - 1] == reads.last());
        if undisturbed(v, start, reads) {
            assert forall|i: int| #![trigger init[i]] 0 <= i < init.len() implies match init[i].0 {
                LinkRead::Byte(_) => true,
                LinkRead::Nothing => (init[i].1 - start) % 0x1_0000_0000 <= v.timeout_ms,
                LinkRead::Error => false,
            } by {
                assert(reads[i] == init[i]);
            }
            assert(undisturbed(v, start, init));
        }
        if before.0.stage is Idle {
            let n = whole_len(old_bytes, v.count);
            if n <= old_bytes.len() {
                assert(bytes[1] == old_bytes[1]);
                assert(bytes.take(n as int) =~= old_bytes.take(n as int));
            }
        } else {
            match reads.last().0 {
                LinkRead::Byte(b) => {
                    assert(bytes == old_bytes.push(b));
                    assert(old_bytes.len() >= 2 ==> bytes[1] == old_bytes[1]);
                    if is_whole(bytes, v.count) {
                        assert(bytes.take(whole_len(bytes, v.count) as int) =~= bytes);
                    }
                },
                _ => {},
            }
        }
    }
}

/// Two bytes are those of the number that they make.
proof fn u16_bytes_of(lo: u8, hi: u8)
    ensures
        u16_be(u16_of(lo, hi)) == seq![hi, lo],
        u16_le(u16_of(lo, hi)) == seq![lo, hi],
{
    let x = u16_of(lo, hi);
    assert(x == lo + 256 * hi);
    assert(u16_be(x) =~= seq![hi, lo]);
    assert(u16_le(x) =~= seq![lo, hi]);
}

/// The registers of a response give its data back.
proof fn regs_give_their_bytes(resp: Seq<u8>, count: nat)
    requires
        resp.len() >= 3 + 2 * count,
    ensures
        reg_bytes(response_regs(resp, count)) == resp.subrange(3, 3 + 2 * (count as int)),
    decreases count,
{
    let regs = response_regs(resp, count);
    if count == 0 {
        assert(reg_bytes(regs) =~= resp.subrange(3, 3));
    } else {
        let less = (count - 1) as nat;
        regs_give_their_bytes(resp, less);
        assert(regs.drop_last() =~= response_regs(resp, less));
        u16_bytes_of(resp[2 + 2 * (count as int)], resp[1 + 2 * (count as int)]);
        assert(reg_bytes(regs) =~= resp.subrange(3, 3 + 2 * (count as int)));
    }
}

/// A response of its whole length gives registers exactly where it is the
/// response that carries them, and an exception exactly where it is the
/// response that reports it.
pub proof fn result_tells_the_response(resp: Seq<u8>, slave: u8, count: nat)
    requires
        count <= MAX_REGS,
        resp.len() == whole_len(resp, count),
    ensures
        forall|regs: Seq<u16>|
            read_result(resp, slave, count) == Ok::<Seq<u16>, Rs422Error>(regs) <==> regs.len()
                == count && resp == #[trigger] read_response(slave, regs),
        forall|code: u8|
            read_result(resp, slave, count) == Err::<Seq<u16>, Rs422Error>(
                Rs422Error::Exception(code),
            ) <==> resp == #[trigger] exception_response(slave, code),
{
    let n = resp.len() as int;
    let result = read_result(resp, slave, count);
    u16_bytes_of(resp[n - 2], resp[n - 1]);
    assert forall|regs: Seq<u16>|
        result == Ok::<Seq<u16>, Rs422Error>(regs) <==> regs.len() == count && resp
            == #[trigger] read_response(slave, regs) by {
        if result == Ok::<Seq<u16>, Rs422Error>(regs) {
            regs_give_their_bytes(resp, count);
            let body = seq![slave, 0x03u8, (2 * regs.len()) as u8] + reg_bytes(regs);
            assert(resp.subrange(0, n - 2) =~= body);
            assert(resp =~= read_response(slave, regs));
        }
        if regs.len() == count && resp == read_response(slave, regs) {
            response_round_trip(slave, regs);
        }
    }
    assert forall|code: u8|
        result == Err::<Seq<u16>, Rs422Error>(Rs422Error::Exception(code)) <==> resp
            == #[trigger] exception_response(slave, code) by {
        if result == Err::<Seq<u16>, Rs422Error>(Rs422Error::Exception(code)) {
            let body = seq![slave, 0x83u8, code];
            assert(resp.subrange(0, n - 2) =~= body);
            assert(resp =~= exception_response(slave, code));
        }
        if resp == exception_response(slave, code) {
            exception_round_trip(slave, code, count);
        }
    }
}

/// The length of a response shows at its start.
proof fn response_lengths(slave: u8, regs: Seq<u16>, code: u8)
    requires
        regs.len() <= MAX_REGS,
    ensures
        read_response(slave, regs).len() == expected_len(regs.len()),
        read_response(slave, regs)[1] == 0x03,
        exception_response(slave, code).len() == 5,
        exception_response(slave, code)[1] == 0x83,
{
    data_len(regs);
}

/// Two bytes for each register.
proof fn data_len(regs: Seq<u16>)
    ensures
        reg_bytes(regs).len() == 2 * regs.len(),
    decreases regs.len(),
{
    if regs.len() > 0 {
        data_len(regs.drop_last());
    }
}

/// An exchange, from when the request was sent, over any reads of the UART: it
/// gives registers only where what came in begins with the response that
/// carries them, and an exception only where it begins with the five bytes that
/// report it; and where no read fails and none finds nothing past the deadline,
/// it does so exactly there.
pub proof fn exchange_gives_what_came_in(
    v: LinkView,
    start: u32,
    reads: Seq<(LinkRead, u32)>,
    regs: Seq<u16>,
    code: u8,
)
    requires
        v.stage == (LinkStage::Collect { start }),
        v.resp.len() == 0,
        v.count <= MAX_REGS,
        regs.len() == v.count,
    ensures
        ({
            let asked = link_reads(v, reads).1;
            let bytes = bytes_read(reads);
            let carries = read_response(v.slave, regs).is_prefix_of(bytes);
            let reports = exception_response(v.slave, code).is_prefix_of(bytes);
            &&& asked == LinkDo::Done(Ok(regs)) ==> carries
            &&& asked == LinkDo::Done(Err(Rs422Error::Exception(code))) ==> reports
            &&& undisturbed(v, start, reads) ==> (asked == LinkDo::Done(Ok(regs)) <==> carries)
            &&& undisturbed(v, start, reads) ==> (asked == LinkDo::Done(
                Err(Rs422Error::Exception(code)),
            ) <==> reports)
        }),
{
    let after = link_reads(v, reads);
    let bytes = bytes_read(reads);
    let n = whole_len(bytes, v.count) as int;
    exchange_stands(v, start, reads);
    response_lengths(v.slave, regs, code);
    let carried = read_response(v.slave, regs);
    let reported = exception_response(v.slave, code);
    if carried.is_prefix_of(bytes) {
        assert(bytes[1] == carried[1]);
        assert(carried =~= bytes.take(n));
    }
    if reported.is_prefix_of(bytes) {
        assert(bytes[1] == reported[1]);
        assert(reported =~= bytes.take(n));
    }
    if n <= bytes.len() {
        let resp = bytes.take(n);
        assert(resp[1] == bytes[1]);
        result_tells_the_response(resp, v.slave, v.count);
        assert(resp.is_prefix_of(bytes));
    }
}

} // verus!
