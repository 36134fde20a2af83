//! Laws of the Modbus master: what it asks, how long it waits, and what a
//! response says.

use vstd::prelude::*;
use crate::bytes::{i16_bits, u16_of};
use crate::rs422::{
    is_whole, link_read, link_sent, modbus_crc, read_request, read_result, soil_of, with_crc,
    LinkDo, LinkRead, LinkStage, LinkView, Rs422Error, SOIL_ADDR, SOIL_TIMEOUT_MS,
};

verus! {

/// A request has eight bytes: the slave, function 3, the first register and the
/// number of registers, high bytes first, and the CRC of these, low byte first.
pub proof fn request_is_laid_out(slave: u8, start_reg: u16, count: u16)
    ensures
        ({
            let r = read_request(slave, start_reg, count);
            &&& r.len() == 8
            &&& r[0] == slave
            &&& r[1] == 3
            &&& 256 * r[2] + r[3] == start_reg
            &&& 256 * r[4] + r[5] == count
            &&& r[6] + 256 * r[7] == modbus_crc(r.subrange(0, 6))
        }),
{
    let r = read_request(slave, start_reg, count);
    let head = r.subrange(0, 6);
    assert(r =~= with_crc(head)) by {
        assert(head =~= seq![
            slave,
            3u8,
            (start_reg / 256) as u8,
            (start_reg % 256) as u8,
            (count / 256) as u8,
            (count % 256) as u8,
        ]);
        assert(head =~= seq![slave, 0x03u8] + crate::bytes::u16_be(start_reg)
            + crate::bytes::u16_be(count));
    }
}

/// What is left in the receiver is thrown away, however much it is, and the
/// request goes out once the receiver is empty or has only an error to report.
pub proof fn receiver_is_drained_first(v: LinkView, byte: u8, now_ms: u32)
    requires
        v.stage is Drain,
    ensures
        link_read(v, LinkRead::Byte(byte), now_ms) == (v, LinkDo::ReadByte),
        link_read(v, LinkRead::Nothing, now_ms) == (
            LinkView { stage: LinkStage::Send, ..v },
            LinkDo::Write(read_request(v.slave, v.start_reg, v.count as u16)),
        ),
        link_read(v, LinkRead::Error, now_ms) == link_read(v, LinkRead::Nothing, now_ms),
{
}

/// A request that is out is waited on from then; one that cannot be sent, or a
/// response that the UART garbles, is a UART error, and the request is over.
pub proof fn uart_errors_are_told(v: LinkView, start: u32, now_ms: u32)
    ensures
        link_sent(v, true, now_ms) == (
            LinkView { stage: LinkStage::Collect { start: now_ms }, ..v },
            LinkDo::ReadByte,
        ),
        link_sent(v, false, now_ms) == (
            LinkView { stage: LinkStage::Idle, ..v },
            LinkDo::Done(Err(Rs422Error::Uart)),
        ),
        ({
            let waiting = LinkView { stage: LinkStage::Collect { start }, ..v };
            link_read(waiting, LinkRead::Error, now_ms) == (
                LinkView { stage: LinkStage::Idle, ..v },
                LinkDo::Done(Err(Rs422Error::Uart)),
            )
        }),
{
}

/// A slave has its whole time to answer, and no more: nothing is given up up to
/// the timeout, and the request is over with the first look after it.
pub proof fn slave_has_its_time(v: LinkView, start: u32, elapsed: u32)
    requires
        v.stage == (LinkStage::Collect { start }),
    ensures
        ({
            let now_ms = ((start + elapsed) % 0x1_0000_0000) as u32;
            let after = link_read(v, LinkRead::Nothing, now_ms);
            &&& elapsed <= v.timeout_ms ==> after == (v, LinkDo::ReadByte)
            &&& elapsed > v.timeout_ms ==> after == (
                LinkView { stage: LinkStage::Idle, ..v },
                LinkDo::Done(Err(Rs422Error::Timeout)),
            )
        }),
{
}

/// Each byte of a response is kept, in order, until the response is whole: five
/// bytes and two for each register, or five of an exception.
pub proof fn response_is_collected(v: LinkView, start: u32, byte: u8, now_ms: u32)
    requires
        v.stage == (LinkStage::Collect { start }),
    ensures
        ({
            let after = link_read(v, LinkRead::Byte(byte), now_ms);
            let n = v.resp.len() + 1;
            let all = v.resp.push(byte);
            &&& after.0.resp == all
            &&& after.1 is Done <==> n >= 5 + 2 * v.count || (n == 5 && all[1] == 0x83)
            &&& after.1 is Done <==> after.0.stage is Idle
            &&& !(after.1 is Done) ==> after.1 is ReadByte && after.0.stage == v.stage
            &&& is_whole(all, v.count) ==> after.1 == LinkDo::Done(
                read_result(all, v.slave, v.count),
            )
        }),
{
}

/// What a response with a right CRC says: one from another slave, with another
/// function, or of another size is malformed; an exception gives its code; and
/// the registers of the others are their data, two bytes each, high byte first.
pub proof fn responses_are_read(body: Seq<u8>, slave: u8, count: nat, i: int)
    requires
        body.len() >= 3,
        0 <= i < count,
    ensures
        ({
            let r = read_result(with_crc(body), slave, count);
            &&& body[0] != slave ==> r == Err::<Seq<u16>, Rs422Error>(Rs422Error::Malformed)
            &&& body[0] == slave && body[1] == 0x83 ==> r == Err::<Seq<u16>, Rs422Error>(
                Rs422Error::Exception(body[2]),
            )
            &&& body[0] == slave && body[1] != 0x83 && body[1] != 3 ==> r == Err::<
                Seq<u16>,
                Rs422Error,
            >(Rs422Error::Malformed)
            &&& body[0] == slave && body[1] == 3 && body[2] != 2 * count ==> r == Err::<
                Seq<u16>,
                Rs422Error,
            >(Rs422Error::Malformed)
            &&& body[0] == slave && body[1] == 3 && body[2] == 2 * count && body.len() == 3 + 2
                * count ==> {
                &&& r matches Ok(regs)
                &&& regs.len() == count
                &&& regs[i] == 256 * body[3 + 2 * i] + body[4 + 2 * i]
            }
        }),
{
    let resp = with_crc(body);
    let n = resp.len() as int;
    assert(resp.subrange(0, n - 2) =~= body);
    assert(u16_of(resp[n - 2], resp[n - 1]) == modbus_crc(body));
}

/// A response with a wrong CRC is told as such, whatever else it holds.
pub proof fn wrong_crc_comes_first(body: Seq<u8>, lo: u8, hi: u8, slave: u8, count: nat)
    requires
        body.len() >= 3,
        lo + 256 * hi != modbus_crc(body),
    ensures
        read_result(body.push(lo).push(hi), slave, count) == Err::<Seq<u16>, Rs422Error>(
            Rs422Error::Crc,
        ),
{
    let resp = body.push(lo).push(hi);
    assert(resp.subrange(0, resp.len() - 2) =~= body);
}

/// The soil probe's registers: moisture first, in tenths of a percent, and then
/// the temperature, in tenths of a degree and with its sign.
pub proof fn soil_registers_are_read(moisture: u16, temp: i16)
    ensures
        soil_of(seq![moisture, i16_bits(temp)]).moisture_pct_x10 == moisture,
        soil_of(seq![moisture, i16_bits(temp)]).temp_c_x10 == temp,
{
}

/// A slave's request differs from every other slave's, and the soil probe's is
/// to slave 1 for as long as a fifth of a second.
pub proof fn requests_name_their_slave(a: u8, b: u8, start_reg: u16, count: u16)
    ensures
        a != b ==> read_request(a, start_reg, count) != read_request(b, start_reg, count),
        read_request(SOIL_ADDR, start_reg, count)[0] == 1,
        5 * SOIL_TIMEOUT_MS == 1000,
{
    request_is_laid_out(a, start_reg, count);
    request_is_laid_out(b, start_reg, count);
}

} // verus!
