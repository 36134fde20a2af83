//! RS-422/RS-485 field bus link with a minimal Modbus RTU master, enough to
//! poll the DFRobot SEN0600 soil temperature/moisture probe (9600 8N1, slave
//! 0x01, moisture at holding register 0x0000 and temperature at 0x0001, both
//! scaled by 10).
//!
//! The master never touches the UART: it says what to send or read next, and is
//! told what came of it.

use vstd::prelude::*;
use crate::bytes::{
    hi8, i16_from_bits, i16_of, lo8, u16_be, u16_from, u16_le, u16_of, u16_round_trip,
};
use crate::crc::{crc16_detects_one_byte, crc16_of, crc16_run};

verus! {

/// Line rate: the SEN0600 factory default.
pub const BAUD: u32 = 9600;

/// Modbus slave address of the soil probe (factory default).
pub const SOIL_ADDR: u8 = 0x01;

/// How long the soil probe may take to answer (ms). It answers a 9-byte
/// response within a few character times; this is generous even with a sleepy
/// sensor.
pub const SOIL_TIMEOUT_MS: u32 = 200;

/// Registers read at most at once.
pub const MAX_REGS: usize = 16;

/// Longest Modbus response we accept (read of 16 registers).
pub const MAX_FRAME: usize = 39;

/// What can go wrong on the link.
#[derive(Debug, Clone, Copy, PartialEq, Eq, Structural)]
pub enum Rs422Error {
    /// UART framing/noise/overrun/parity error.
    Uart,
    /// No (or truncated) response before the deadline.
    Timeout,
    /// Response failed the CRC check.
    Crc,
    /// Response was malformed (wrong address, length or function).
    Malformed,
    /// Modbus exception response; the exception code is included.
    Exception(u8),
}

/// Modbus CRC-16 (poly 0xA001, init 0xFFFF) of `data`.
pub open spec fn modbus_crc(data: Seq<u8>) -> u16 {
    crc16_of(0xA001, 0xFFFF, data)
}

/// Modbus CRC-16 (poly 0xA001, init 0xFFFF), transmitted low byte first.
pub fn crc16(data: &[u8]) -> (r: u16)
    ensures
        r == modbus_crc(data@),
{
    crc16_run(0xA001, 0xFFFF, data)
}

/// A frame with its CRC.
pub open spec fn with_crc(frame: Seq<u8>) -> Seq<u8> {
    frame + u16_le(modbus_crc(frame))
}

/// The request to read `count` holding registers from `start_reg` on.
pub open spec fn read_request(slave: u8, start_reg: u16, count: u16) -> Seq<u8> {
    with_crc(seq![slave, 0x03u8] + u16_be(start_reg) + u16_be(count))
}

/// Register values, high byte first each.
pub open spec fn reg_bytes(regs: Seq<u16>) -> Seq<u8>
    decreases regs.len(),
{
    if regs.len() == 0 {
        Seq::empty()
    } else {
        reg_bytes(regs.drop_last()) + u16_be(regs.last())
    }
}

/// The response that carries `regs`.
pub open spec fn read_response(slave: u8, regs: Seq<u16>) -> Seq<u8> {
    with_crc(seq![slave, 0x03u8, (2 * regs.len()) as u8] + reg_bytes(regs))
}

/// The response that reports an exception.
pub open spec fn exception_response(slave: u8, code: u8) -> Seq<u8> {
    with_crc(seq![slave, 0x83u8, code])
}

/// The `count` registers of a response.
pub open spec fn response_regs(resp: Seq<u8>, count: nat) -> Seq<u16> {
    Seq::new(count, |i: int| u16_of(resp[4 + 2 * i], resp[3 + 2 * i]))
}

/// What a complete response says to a request for `count` registers.
pub open spec fn read_result(resp: Seq<u8>, slave: u8, count: nat) -> Result<
    Seq<u16>,
    Rs422Error,
> {
    let n = resp.len();
    if modbus_crc(resp.subrange(0, n - 2)) != u16_of(resp[n - 2], resp[n - 1]) {
        Err(Rs422Error::Crc)
    } else if resp[0] != slave {
        Err(Rs422Error::Malformed)
    } else if resp[1] == 0x83 {
        Err(Rs422Error::Exception(resp[2]))
    } else if resp[1] != 0x03 || resp[2] != 2 * count {
        Err(Rs422Error::Malformed)
    } else {
        Ok(response_regs(resp, count))
    }
}

/// The length of the response to a request for `count` registers: address,
/// function, byte count, data, CRC.
pub open spec fn expected_len(count: nat) -> nat {
    5 + 2 * count
}

/// The bytes so far are a whole response: an exception response is only 5 bytes
/// total.
pub open spec fn is_whole(resp: Seq<u8>, count: nat) -> bool {
    resp.len() >= expected_len(count) || (resp.len() == 5 && resp[1] == 0x83)
}

/// What a read of the UART gave.
#[derive(Clone, Copy)]
pub enum LinkRead {
    Byte(u8),
    /// Nothing is there.
    Nothing,
    /// A UART error, which has been cleared.
    Error,
}

/// How far a request is.
#[derive(Clone, Copy)]
pub enum LinkStage {
    /// No request is under way.
    Idle,
    /// Sticky UART error flags are being cleared.
    Clear,
    /// Anything left in the receiver is being discarded.
    Drain,
    /// The request is being sent.
    Send,
    /// The response is being collected since `start`.
    Collect { start: u32 },
}

/// What the master asks for.
pub enum LinkDo {
    ClearErrors,
    ReadByte,
    Write(Seq<u8>),
    Done(Result<Seq<u16>, Rs422Error>),
}

/// The master, as the contracts speak of it.
pub struct LinkView {
    pub slave: u8,
    pub start_reg: u16,
    /// Registers asked for.
    pub count: nat,
    pub timeout_ms: u32,
    /// What has come of the response.
    pub resp: Seq<u8>,
    pub stage: LinkStage,
}

/// The request is over.
pub open spec fn link_done(v: LinkView, result: Result<Seq<u16>, Rs422Error>) -> (LinkView, LinkDo) {
    (LinkView { stage: LinkStage::Idle, ..v }, LinkDo::Done(result))
}

/// The UART was read.
pub open spec fn link_read(v: LinkView, read: LinkRead, now_ms: u32) -> (LinkView, LinkDo) {
    match (v.stage, read) {
        (LinkStage::Drain, LinkRead::Byte(_)) => (v, LinkDo::ReadByte),
        (LinkStage::Drain, _) => (
            LinkView { stage: LinkStage::Send, ..v },
            LinkDo::Write(read_request(v.slave, v.start_reg, v.count as u16)),
        ),
        (LinkStage::Collect { start }, LinkRead::Byte(byte)) => {
            let resp = v.resp.push(byte);
            if is_whole(resp, v.count) {
                link_done(LinkView { resp, ..v }, read_result(resp, v.slave, v.count))
            } else {
                (LinkView { resp, ..v }, LinkDo::ReadByte)
            }
        },
        (LinkStage::Collect { start }, LinkRead::Nothing) => if (now_ms - start) % 0x1_0000_0000
            > v.timeout_ms {
            link_done(v, Err(Rs422Error::Timeout))
        } else {
            (v, LinkDo::ReadByte)
        },
        _ => link_done(v, Err(Rs422Error::Uart)),
    }
}

/// The request was sent, or could not be.
pub open spec fn link_sent(v: LinkView, ok: bool, now_ms: u32) -> (LinkView, LinkDo) {
    if ok {
        (LinkView { stage: LinkStage::Collect { start: now_ms }, ..v }, LinkDo::ReadByte)
    } else {
        link_done(v, Err(Rs422Error::Uart))
    }
}

/// What the master asks for.
pub enum LinkStep {
    /// Clear sticky UART error flags, then call [`Rs422::cleared`].
    ClearErrors,
    /// Read a byte if one is there, then call [`Rs422::read_byte`].
    ReadByte,
    /// Send all of this, then call [`Rs422::written`].
    Write([u8; 8]),
    /// The request is over.
    Done(Result<Vec<u16>, Rs422Error>),
}

impl LinkStep {
    /// What is asked, as the contracts speak of it.
    pub open spec fn view(self) -> LinkDo {
        match self {
            LinkStep::ClearErrors => LinkDo::ClearErrors,
            LinkStep::ReadByte => LinkDo::ReadByte,
            LinkStep::Write(bytes) => LinkDo::Write(bytes@),
            LinkStep::Done(Ok(regs)) => LinkDo::Done(Ok(regs@)),
            LinkStep::Done(Err(e)) => LinkDo::Done(Err(e)),
        }
    }
}

/// One reading from the SEN0600 soil probe.
#[derive(Debug, Clone, Copy, PartialEq, Eq, Structural)]
pub struct SoilReading {
    /// Volumetric moisture in tenths of a percent (486 = 48.6 %).
    pub moisture_pct_x10: u16,
    /// Soil temperature in tenths of a degree C (-97 = -9.7 C).
    pub temp_c_x10: i16,
}

/// The soil probe's two registers as a reading.
pub open spec fn soil_of(regs: Seq<u16>) -> SoilReading {
    SoilReading { moisture_pct_x10: regs[0], temp_c_x10: i16_of(regs[1]) }
}

/// RS-422 link with a Modbus RTU master on top.
pub struct Rs422 {
    slave: u8,
    start_reg: u16,
    count: usize,
    timeout_ms: u32,
    resp: [u8; MAX_FRAME],
    len: usize,
    stage: LinkStage,
}

impl Rs422 {
    /// Every master that `new` and the other methods give.
    pub closed spec fn wf(self) -> bool {
        &&& self.count <= MAX_REGS
        &&& self.len <= MAX_FRAME
        &&& self.stage is Clear || self.stage is Drain || self.stage is Send ==> self.len == 0
        &&& self.stage is Collect ==> !is_whole(
            self.resp@.subrange(0, self.len as int),
            self.count as nat,
        )
    }

    /// The master as the contracts speak of it.
    pub closed spec fn view(self) -> LinkView {
        LinkView {
            slave: self.slave,
            start_reg: self.start_reg,
            count: self.count as nat,
            timeout_ms: self.timeout_ms,
            resp: self.resp@.subrange(0, self.len as int),
            stage: self.stage,
        }
    }

    /// A link on which nothing has been asked yet.
    pub fn new() -> (r: Rs422)
        ensures
            r.wf(),
            r@ == (LinkView {
                slave: 0,
                start_reg: 0,
                count: 0,
                timeout_ms: 0,
                resp: Seq::empty(),
                stage: LinkStage::Idle,
            }),
    {
        let r = Rs422 {
            slave: 0,
            start_reg: 0,
            count: 0,
            timeout_ms: 0,
            resp: [0u8; MAX_FRAME],
            len: 0,
            stage: LinkStage::Idle,
        };
        assert(r@.resp =~= Seq::<u8>::empty());
        r
    }

    /// Modbus function 0x03: read `count` holding registers starting
    /// at `start_reg` from `slave`.
    pub fn modbus_read_holding(
        &mut self,
        slave: u8,
        start_reg: u16,
        count: usize,
        timeout_ms: u32,
    ) -> (r: LinkStep)
        requires
            old(self).wf(),
            old(self)@.stage is Idle,
            count <= MAX_REGS,
        ensures
            final(self).wf(),
            final(self)@ == (LinkView {
                slave,
                start_reg,
                count: count as nat,
                timeout_ms,
                resp: Seq::empty(),
                stage: LinkStage::Clear,
            }),
            r@ == LinkDo::ClearErrors,
    {
        self.slave = slave;
        self.start_reg = start_reg;
        self.count = count;
        self.timeout_ms = timeout_ms;
        self.len = 0;
        self.stage = LinkStage::Clear;
        assert(self@.resp =~= Seq::<u8>::empty());
        LinkStep::ClearErrors
    }

    /// The answer to [`LinkStep::ClearErrors`].
    pub fn cleared(&mut self) -> (r: LinkStep)
        requires
            old(self).wf(),
            old(self)@.stage is Clear,
        ensures
            final(self).wf(),
            final(self)@ == (LinkView { stage: LinkStage::Drain, ..old(self)@ }),
            r@ == LinkDo::ReadByte,
    {
        self.stage = LinkStage::Drain;
        LinkStep::ReadByte
    }

    /// The answer to [`LinkStep::Write`].
    pub fn written(&mut self, ok: bool, now_ms: u32) -> (r: LinkStep)
        requires
            old(self).wf(),
            old(self)@.stage is Send,
        ensures
            final(self).wf(),
            (final(self)@, r@) == link_sent(old(self)@, ok, now_ms),
    {
        if ok {
            self.stage = LinkStage::Collect { start: now_ms };
            LinkStep::ReadByte
        } else {
            self.stage = LinkStage::Idle;
            LinkStep::Done(Err(Rs422Error::Uart))
        }
    }

    /// The answer to [`LinkStep::ReadByte`].
    pub fn read_byte(&mut self, read: LinkRead, now_ms: u32) -> (r: LinkStep)
        requires
            old(self).wf(),
            old(self)@.stage is Drain || old(self)@.stage is Collect,
        ensures
            final(self).wf(),
            (final(self)@, r@) == link_read(old(self)@, read, now_ms),
    {
        match self.stage {
            LinkStage::Drain => match read {
                LinkRead::Byte(_) => LinkStep::ReadByte,
                _ => {
                    self.stage = LinkStage::Send;
                    LinkStep::Write(request(self.slave, self.start_reg, self.count as u16))
                },
            },
            LinkStage::Collect { start } => match read {
                LinkRead::Byte(byte) => {
                    self.resp[self.len] = byte;
                    self.len = self.len + 1;
                    assert(self@.resp =~= old(self)@.resp.push(byte));
                    // An exception response is only 5 bytes total.
                    if self.len >= 5 + 2 * self.count || (self.len == 5 && self.resp[1] == 0x83) {
                        self.stage = LinkStage::Idle;
                        return LinkStep::Done(
                            read_response_regs(&self.resp[0..self.len], self.slave, self.count),
                        );
                    }
                    LinkStep::ReadByte
                },
                LinkRead::Nothing => {
                    if now_ms.wrapping_sub(start) > self.timeout_ms {
                        self.stage = LinkStage::Idle;
                        return LinkStep::Done(Err(Rs422Error::Timeout));
                    }
                    LinkStep::ReadByte
                },
                LinkRead::Error => {
                    self.stage = LinkStage::Idle;
                    LinkStep::Done(Err(Rs422Error::Uart))
                },
            },
            _ => LinkStep::Done(Err(Rs422Error::Uart)),
        }
    }

    /// Poll the SEN0600 soil probe. See [`soil_reading`] for its answer.
    pub fn read_soil(&mut self) -> (r: LinkStep)
        requires
            old(self).wf(),
            old(self)@.stage is Idle,
        ensures
            final(self).wf(),
            final(self)@ == (LinkView {
                slave: SOIL_ADDR,
                start_reg: 0,
                count: 2,
                timeout_ms: SOIL_TIMEOUT_MS,
                resp: Seq::empty(),
                stage: LinkStage::Clear,
            }),
            r@ == LinkDo::ClearErrors,
    {
        self.modbus_read_holding(SOIL_ADDR, 0x0000, 2, SOIL_TIMEOUT_MS)
    }
}

/// The soil probe's two registers as a reading.
pub fn soil_reading(regs: &[u16]) -> (r: SoilReading)
    requires
        regs@.len() == 2,
    ensures
        r == soil_of(regs@),
{
    SoilReading { moisture_pct_x10: regs[0], temp_c_x10: i16_from_bits(regs[1]) }
}

fn request(slave: u8, start_reg: u16, count: u16) -> (r: [u8; 8])
    ensures
        r@ == read_request(slave, start_reg, count),
{
    let head: [u8; 6] = [slave, 0x03, hi8(start_reg), lo8(start_reg), hi8(count), lo8(count)];
    assert(head@ =~= seq![slave, 0x03u8] + u16_be(start_reg) + u16_be(count));
    let crc: u16 = crc16(&head);
    let r: [u8; 8] = [head[0], head[1], head[2], head[3], head[4], head[5], lo8(crc), hi8(crc)];
    assert(r@ =~= read_request(slave, start_reg, count));
    r
}

/// The registers that a complete response carries.
fn read_response_regs(resp: &[u8], slave: u8, count: usize) -> (r: Result<Vec<u16>, Rs422Error>)
    requires
        count <= MAX_REGS,
        5 <= resp@.len(),
        resp@.len() == expected_len(count as nat) || resp@[1] == 0x83,
    ensures
        r is Ok == read_result(resp@, slave, count as nat) is Ok,
        r matches Ok(regs) ==> read_result(resp@, slave, count as nat) == Ok::<
            Seq<u16>,
            Rs422Error,
        >(regs@),
        r matches Err(e) ==> read_result(resp@, slave, count as nat) == Err::<
            Seq<u16>,
            Rs422Error,
        >(e),
{
    let n: usize = resp.len();
    let crc_got: u16 = u16_from(resp[n - 2], resp[n - 1]);
    if crc16(&resp[0..n - 2]) != crc_got {
        return Err(Rs422Error::Crc);
    }
    if resp[0] != slave {
        return Err(Rs422Error::Malformed);
    }
    if resp[1] == 0x83 {
        return Err(Rs422Error::Exception(resp[2]));
    }
    if resp[1] != 0x03 || resp[2] as usize != 2 * count {
        return Err(Rs422Error::Malformed);
    }
    let mut regs: Vec<u16> = Vec::new();
    let mut i: usize = 0;
    while i < count
        invariant
            i <= count <= MAX_REGS,
            resp@.len() == expected_len(count as nat),
            regs@ == response_regs(resp@, i as nat),
        decreases count - i,
    {
        regs.push(u16_from(resp[4 + 2 * i], resp[3 + 2 * i]));
        i += 1;
        assert(regs@ =~= response_regs(resp@, i as nat));
    }
    Ok(regs)
}

proof fn reg_bytes_read_back(regs: Seq<u16>)
    ensures
        reg_bytes(regs).len() == 2 * regs.len(),
        forall|i: int|
            0 <= i < regs.len() ==> #[trigger] regs[i] == u16_of(
                reg_bytes(regs)[2 * i + 1],
                reg_bytes(regs)[2 * i],
            ),
    decreases regs.len(),
{
    if regs.len() > 0 {
        let head = regs.drop_last();
        reg_bytes_read_back(head);
        u16_round_trip(regs.last());
        assert forall|i: int| 0 <= i < regs.len() implies #[trigger] regs[i] == u16_of(
            reg_bytes(regs)[2 * i + 1],
            reg_bytes(regs)[2 * i],
        ) by {
            if i < head.len() {
                assert(head[i] == regs[i]);
                assert(reg_bytes(regs)[2 * i] == reg_bytes(head)[2 * i]);
                assert(reg_bytes(regs)[2 * i + 1] == reg_bytes(head)[2 * i + 1]);
            }
        }
    }
}

/// A response reads back as the registers that it carries, whole at its last
/// byte.
pub proof fn response_round_trip(slave: u8, regs: Seq<u16>)
    requires
        regs.len() <= MAX_REGS,
    ensures
        is_whole(read_response(slave, regs), regs.len()),
        read_result(read_response(slave, regs), slave, regs.len()) == Ok::<Seq<u16>, Rs422Error>(
            regs,
        ),
{
    let body = seq![slave, 0x03u8, (2 * regs.len()) as u8] + reg_bytes(regs);
    let resp = read_response(slave, regs);
    reg_bytes_read_back(regs);
    let n = resp.len() as int;
    assert(resp.subrange(0, n - 2) =~= body);
    u16_round_trip(modbus_crc(body));
    assert(resp[n - 2] == u16_le(modbus_crc(body))[0]);
    assert(resp[n - 1] == u16_le(modbus_crc(body))[1]);
    assert forall|i: int| 0 <= i < regs.len() implies response_regs(resp, regs.len())[i]
        == regs[i] by {
        assert(resp[3 + 2 * i] == reg_bytes(regs)[2 * i]);
        assert(resp[4 + 2 * i] == reg_bytes(regs)[2 * i + 1]);
    }
    assert(response_regs(resp, regs.len()) =~= regs);
}

/// An exception response is whole after its 5 bytes, whatever was asked for,
/// and gives its code.
pub proof fn exception_round_trip(slave: u8, code: u8, count: nat)
    ensures
        is_whole(exception_response(slave, code), count),
        read_result(exception_response(slave, code), slave, count) == Err::<Seq<u16>, Rs422Error>(
            Rs422Error::Exception(code),
        ),
{
    let body = seq![slave, 0x83u8, code];
    let resp = exception_response(slave, code);
    assert(resp.subrange(0, 3) =~= body);
    u16_round_trip(modbus_crc(body));
}

/// A frame of which one byte before the CRC is wrong fails the CRC check.
pub proof fn damaged_response_fails(frame: Seq<u8>, at: int, byte: u8, slave: u8, count: nat)
    requires
        frame.len() >= 3,
        0 <= at < frame.len(),
        byte != frame[at],
    ensures
        read_result(with_crc(frame).update(at, byte), slave, count) == Err::<
            Seq<u16>,
            Rs422Error,
        >(Rs422Error::Crc),
{
    let bad = with_crc(frame).update(at, byte);
    let n = bad.len() as int;
    assert(bad.subrange(0, n - 2) =~= frame.update(at, byte));
    assert(0xA001u16 & 0x8000 == 0x8000) by (bit_vector);
    crc16_detects_one_byte(0xA001, 0xFFFF, frame, frame.update(at, byte), at);
    u16_round_trip(modbus_crc(frame));
    assert(bad[n - 2] == u16_le(modbus_crc(frame))[0]);
    assert(bad[n - 1] == u16_le(modbus_crc(frame))[1]);
}

} // verus!
