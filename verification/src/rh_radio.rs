//! A discrete SX1262 under the RadioHead stack: how a packet is received and
//! sent.
//!
//! The driver never touches the radio: it says what to do next, and is told
//! what came of it.

use vstd::prelude::*;

verus! {

/// How far a reception is.
#[derive(Debug, Clone, Copy, PartialEq, Eq, Structural)]
pub enum RhStage {
    Idle,
    /// Continuous receive is being armed, for a packet of up to `room` bytes.
    Arm { room: usize },
    /// The interrupt register is being read.
    Irq { room: usize },
    /// Interrupts are being cleared.
    Clear { room: usize },
    /// The place of the packet in the buffer is being read.
    Status { room: usize },
    /// The packet is being read.
    Data { len: u8 },
    /// The packet status is being read.
    Packet { len: u8 },
}

/// What the driver asks for.
#[derive(Debug, Clone, Copy)]
pub enum RhStep {
    /// Start continuous receive, then call [`Sx1262Driver::armed`].
    SetRx,
    /// Read the interrupt register, then call [`Sx1262Driver::irq_read`].
    ReadIrq,
    /// Clear all interrupts, then call [`Sx1262Driver::irq_cleared`].
    ClearIrq,
    /// Read the length and the place of the packet, then call
    /// [`Sx1262Driver::buffer_status`].
    BufferStatus,
    /// Read the packet, then call [`Sx1262Driver::buffer_read`].
    ReadBuffer { offset: u8, len: u8 },
    /// Read the packet's RSSI, then call [`Sx1262Driver::packet_status`].
    PacketStatus,
    /// The poll is over: a packet's length and RSSI, if there is one.
    Done(Option<(u8, i16)>),
}

/// SX1262 driver for the RadioHead stack.
#[derive(Debug, Clone, Copy, PartialEq, Eq, Structural)]
pub struct Sx1262Driver {
    /// Continuous receive is armed.
    pub rx_active: bool,
    pub stage: RhStage,
}

/// The poll is over.
pub open spec fn rh_done(d: Sx1262Driver, r: Option<(u8, i16)>) -> (Sx1262Driver, RhStep) {
    (Sx1262Driver { stage: RhStage::Idle, ..d }, RhStep::Done(r))
}

/// A poll for a packet of up to `room` bytes begins.
pub open spec fn rh_poll(d: Sx1262Driver, room: usize) -> (Sx1262Driver, RhStep) {
    if d.rx_active {
        (Sx1262Driver { stage: RhStage::Irq { room }, ..d }, RhStep::ReadIrq)
    } else {
        (Sx1262Driver { stage: RhStage::Arm { room }, ..d }, RhStep::SetRx)
    }
}

/// Continuous receive is armed, or could not be.
pub open spec fn rh_armed(d: Sx1262Driver, ok: bool) -> (Sx1262Driver, RhStep) {
    if ok {
        (
            Sx1262Driver { rx_active: true, stage: RhStage::Irq { room: d.stage->Arm_room } },
            RhStep::ReadIrq,
        )
    } else {
        rh_done(d, None)
    }
}

/// The interrupt register has been read, or could not be.
pub open spec fn rh_irq(d: Sx1262Driver, rx_done: Option<bool>) -> (Sx1262Driver, RhStep) {
    if rx_done == Some(true) {
        (
            Sx1262Driver { stage: RhStage::Clear { room: d.stage->Irq_room }, ..d },
            RhStep::ClearIrq,
        )
    } else {
        rh_done(d, None)
    }
}

/// The interrupts have been cleared.
pub open spec fn rh_cleared(d: Sx1262Driver) -> (Sx1262Driver, RhStep) {
    (
        Sx1262Driver { stage: RhStage::Status { room: d.stage->Clear_room }, ..d },
        RhStep::BufferStatus,
    )
}

/// The length and the place of the packet have been read, or could not be.
pub open spec fn rh_buffer_status(d: Sx1262Driver, status: Option<(u8, u8)>) -> (
    Sx1262Driver,
    RhStep,
) {
    match status {
        None => rh_done(d, None),
        Some((len, offset)) => if len > d.stage->Status_room {
            rh_done(Sx1262Driver { rx_active: false, ..d }, None)
        } else {
            (
                Sx1262Driver { stage: RhStage::Data { len }, ..d },
                RhStep::ReadBuffer { offset, len },
            )
        },
    }
}

/// The packet has been read, or could not be.
pub open spec fn rh_buffer_read(d: Sx1262Driver, ok: bool) -> (Sx1262Driver, RhStep) {
    if ok {
        (
            Sx1262Driver { stage: RhStage::Packet { len: d.stage->Data_len }, ..d },
            RhStep::PacketStatus,
        )
    } else {
        rh_done(d, None)
    }
}

/// The packet's RSSI has been read, or could not be.
pub open spec fn rh_packet_status(d: Sx1262Driver, rssi: Option<i16>) -> (Sx1262Driver, RhStep) {
    rh_done(
        d,
        match rssi {
            Some(rssi) => Some((d.stage->Packet_len, rssi)),
            None => None,
        },
    )
}

impl Sx1262Driver {
    /// A driver that does not listen yet.
    pub fn new() -> (r: Sx1262Driver)
        ensures
            r == (Sx1262Driver { rx_active: false, stage: RhStage::Idle }),
    {
        Sx1262Driver { rx_active: false, stage: RhStage::Idle }
    }

    fn done(&mut self, r: Option<(u8, i16)>) -> (step: RhStep)
        ensures
            (*final(self), step) == rh_done(*old(self), r),
    {
        self.stage = RhStage::Idle;
        RhStep::Done(r)
    }

    /// Poll for a received packet of up to `room` bytes, entering continuous RX
    /// if not already listening.
    pub fn poll_recv(&mut self, room: usize) -> (r: RhStep)
        requires
            old(self).stage is Idle,
        ensures
            (*final(self), r) == rh_poll(*old(self), room),
    {
        if !self.rx_active {
            self.stage = RhStage::Arm { room };
            return RhStep::SetRx;
        }
        self.stage = RhStage::Irq { room };
        RhStep::ReadIrq
    }

    /// The answer to [`RhStep::SetRx`].
    pub fn armed(&mut self, ok: bool) -> (r: RhStep)
        requires
            old(self).stage is Arm,
        ensures
            (*final(self), r) == rh_armed(*old(self), ok),
    {
        match self.stage {
            RhStage::Arm { room } => {
                if !ok {
                    return self.done(None);
                }
                self.rx_active = true;
                self.stage = RhStage::Irq { room };
                RhStep::ReadIrq
            },
            _ => self.done(None),
        }
    }

    /// The answer to [`RhStep::ReadIrq`]: whether a packet has come; none where
    /// the read failed.
    pub fn irq_read(&mut self, rx_done: Option<bool>) -> (r: RhStep)
        requires
            old(self).stage is Irq,
        ensures
            (*final(self), r) == rh_irq(*old(self), rx_done),
    {
        match (self.stage, rx_done) {
            (RhStage::Irq { room }, Some(true)) => {
                self.stage = RhStage::Clear { room };
                RhStep::ClearIrq
            },
            _ => self.done(None),
        }
    }

    /// The answer to [`RhStep::ClearIrq`], whether or not it succeeded.
    pub fn irq_cleared(&mut self) -> (r: RhStep)
        requires
            old(self).stage is Clear,
        ensures
            (*final(self), r) == rh_cleared(*old(self)),
    {
        match self.stage {
            RhStage::Clear { room } => {
                self.stage = RhStage::Status { room };
                RhStep::BufferStatus
            },
            _ => self.done(None),
        }
    }

    /// The answer to [`RhStep::BufferStatus`]: length and place of the packet;
    /// none where the read failed. A packet too large for the buffer is dropped,
    /// and the next poll arms receive anew.
    pub fn buffer_status(&mut self, status: Option<(u8, u8)>) -> (r: RhStep)
        requires
            old(self).stage is Status,
        ensures
            (*final(self), r) == rh_buffer_status(*old(self), status),
    {
        match (self.stage, status) {
            (RhStage::Status { room }, Some((len, offset))) => {
                if len as usize > room {
                    self.rx_active = false;
                    return self.done(None);
                }
                self.stage = RhStage::Data { len };
                RhStep::ReadBuffer { offset, len }
            },
            _ => self.done(None),
        }
    }

    /// The answer to [`RhStep::ReadBuffer`].
    pub fn buffer_read(&mut self, ok: bool) -> (r: RhStep)
        requires
            old(self).stage is Data,
        ensures
            (*final(self), r) == rh_buffer_read(*old(self), ok),
    {
        match self.stage {
            RhStage::Data { len } => {
                if !ok {
                    return self.done(None);
                }
                self.stage = RhStage::Packet { len };
                RhStep::PacketStatus
            },
            _ => self.done(None),
        }
    }

    /// The answer to [`RhStep::PacketStatus`]; none where the read failed.
    pub fn packet_status(&mut self, rssi: Option<i16>) -> (r: RhStep)
        requires
            old(self).stage is Packet,
        ensures
            (*final(self), r) == rh_packet_status(*old(self), rssi),
    {
        match (self.stage, rssi) {
            // Stay in RX - continuous mode persists
            (RhStage::Packet { len }, Some(rssi)) => self.done(Some((len, rssi))),
            _ => self.done(None),
        }
    }

    /// A packet is about to be sent, which ends continuous receive: the next
    /// poll arms it again.
    pub fn send(&mut self)
        ensures
            *final(self) == (Sx1262Driver { rx_active: false, ..*old(self) }),
    {
        self.rx_active = false;
    }

    /// Maximum raw packet size, including the 4-byte RadioHead header.
    pub fn max_message_length(&self) -> (r: u8)
        ensures
            r == 255,
    {
        255
    }
}

} // verus!
