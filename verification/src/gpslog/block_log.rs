//! Append-only log over raw SD blocks with a fixed header block.
//!
//! There is no filesystem. Block [`HEADER_LBA`] holds a magic plus the next
//! block to write; data blocks follow and wrap around when the region is full.
//! Blocks are plain text padded with zero bytes.
//!
//! The log never touches the card: it says which block to write, and is told
//! how that went.

use vstd::prelude::*;
use crate::bytes::{append, copy_into, u32_from, u32_le, u32_of, u32_round_trip, u32_to_le};

verus! {

/// Header block: magic + next data LBA. Placed 1 MiB into the card to
/// stay clear of any partition table or filesystem metadata.
pub const HEADER_LBA: u32 = 2048;

/// First data block.
pub const DATA_START_LBA: u32 = 2049;

/// Data region size in blocks (1 GiB). The log wraps when full.
pub const DATA_BLOCKS: u32 = 2097152;

/// Bytes of a block.
pub const BLOCK_LEN: usize = 512;

/// Checkpoint the header every this many data blocks, keeping header
/// wear ~16x below the data rate. Resume skips this far past the
/// stored pointer, so blocks written since the last checkpoint are
/// never overwritten.
pub const HEADER_EVERY_BLOCKS: u32 = 16;

/// "GRL1"
pub open spec fn header_magic() -> Seq<u8> {
    seq![71u8, 82u8, 76u8, 49u8]
}

/// A block that starts with `data`; the rest is zero.
pub open spec fn block_of(data: Seq<u8>) -> Seq<u8> {
    Seq::new(
        BLOCK_LEN as nat,
        |i: int|
            if i < data.len() {
                data[i]
            } else {
                0
            },
    )
}

/// The header block that points to block `lba`.
pub open spec fn header_block(lba: u32) -> Seq<u8> {
    block_of(header_magic() + u32_le(lba))
}

/// A block of the data region.
pub open spec fn in_region(lba: u32) -> bool {
    DATA_START_LBA <= lba < DATA_START_LBA + DATA_BLOCKS
}

/// The data block after `lba`: the first one after the last.
pub open spec fn next_lba(lba: u32) -> u32 {
    if lba + 1 >= DATA_START_LBA + DATA_BLOCKS {
        DATA_START_LBA
    } else {
        (lba + 1) as u32
    }
}

/// The data block that a header points to; the first one where the block is
/// no header.
pub open spec fn stored_lba(block: Seq<u8>) -> u32 {
    if block.subrange(0, 4) == header_magic() {
        u32_of(block[4], block[5], block[6], block[7])
    } else {
        DATA_START_LBA
    }
}

/// Where to resume, given the block found in the header's place. Up to
/// [`HEADER_EVERY_BLOCKS`] blocks past the stored pointer may hold data written
/// since the last checkpoint, so resume skips past them (plus one for a partial
/// tail) rather than overwriting.
pub open spec fn resume_lba(block: Seq<u8>) -> u32 {
    let stored = stored_lba(block);
    if in_region(stored) {
        (DATA_START_LBA + (stored - DATA_START_LBA + HEADER_EVERY_BLOCKS + 1) % DATA_BLOCKS as int)
            as u32
    } else {
        DATA_START_LBA
    }
}

/// What the log still waits for.
pub enum LogWait {
    Nothing,
    /// A full block is being written; `rest` follows it.
    Block { rest: Seq<u8> },
    /// The header is being written after a full block; `rest` follows.
    Header { rest: Seq<u8> },
    /// A partly filled block is being written.
    Sync,
    /// The header is being written to take up the log.
    Setup,
}

/// The log, as the contracts speak of it.
pub struct LogView {
    pub ready: bool,
    /// There is text that no block on the card holds yet.
    pub dirty: bool,
    /// Block currently being filled.
    pub lba: u32,
    /// What it holds so far.
    pub filled: Seq<u8>,
    pub waits: LogWait,
}

/// What the log asks for.
pub enum LogDo {
    /// Nothing.
    Done,
    /// Write this block.
    Write { lba: u32, block: Seq<u8> },
}

/// Append text, flushing full blocks as they fill.
pub open spec fn log_append(v: LogView, data: Seq<u8>) -> (LogView, LogDo) {
    let all = v.filled + data;
    if !v.ready {
        (LogView { waits: LogWait::Nothing, ..v }, LogDo::Done)
    } else if all.len() < BLOCK_LEN {
        (
            LogView {
                filled: all,
                dirty: v.dirty || data.len() > 0,
                waits: LogWait::Nothing,
                ..v
            },
            LogDo::Done,
        )
    } else {
        (
            LogView {
                filled: all.subrange(0, BLOCK_LEN as int),
                dirty: true,
                waits: LogWait::Block { rest: all.skip(BLOCK_LEN as int) },
                ..v
            },
            LogDo::Write { lba: v.lba, block: all.subrange(0, BLOCK_LEN as int) },
        )
    }
}

/// Persist a partially filled block in place (zero padded; the same block is
/// rewritten as it fills further).
pub open spec fn log_sync(v: LogView) -> (LogView, LogDo) {
    if v.ready && v.dirty {
        (
            LogView { waits: LogWait::Sync, ..v },
            LogDo::Write { lba: v.lba, block: block_of(v.filled) },
        )
    } else {
        (v, LogDo::Done)
    }
}

/// Take up the log, given the block found in the header's place.
pub open spec fn log_setup(v: LogView, block: Seq<u8>) -> (LogView, LogDo) {
    let lba = resume_lba(block);
    (
        LogView { ready: false, dirty: false, lba, filled: Seq::empty(), waits: LogWait::Setup },
        LogDo::Write { lba: HEADER_LBA, block: header_block(lba) },
    )
}

/// Drop back to not-ready, so that the log is taken up anew.
pub open spec fn log_failed(v: LogView) -> LogView {
    LogView { ready: false, dirty: false, waits: LogWait::Nothing, ..v }
}

/// The block that was asked for has been written, or could not be.
pub open spec fn log_written(v: LogView, ok: bool) -> (LogView, LogDo) {
    if !ok {
        (log_failed(v), LogDo::Done)
    } else {
        match v.waits {
            LogWait::Block { rest } => {
                let lba = next_lba(v.lba);
                let flushed = LogView { lba, filled: Seq::empty(), dirty: false, ..v };
                if (lba - DATA_START_LBA) % HEADER_EVERY_BLOCKS as int == 0 {
                    (
                        LogView { waits: LogWait::Header { rest }, ..flushed },
                        LogDo::Write { lba: HEADER_LBA, block: header_block(lba) },
                    )
                } else {
                    log_append(flushed, rest)
                }
            },
            LogWait::Header { rest } => log_append(v, rest),
            LogWait::Sync => (
                LogView { dirty: false, waits: LogWait::Nothing, ..v },
                LogDo::Done,
            ),
            LogWait::Setup => (
                LogView { ready: true, waits: LogWait::Nothing, ..v },
                LogDo::Done,
            ),
            LogWait::Nothing => (v, LogDo::Done),
        }
    }
}

enum Pending {
    Nothing,
    Block { rest: Vec<u8> },
    Header { rest: Vec<u8> },
    Sync,
    Setup,
}

/// What the log asks for.
pub enum LogStep {
    /// Nothing.
    Done,
    /// Write this block, then call [`BlockLog::written`].
    Write { lba: u32, block: [u8; BLOCK_LEN] },
}

impl LogStep {
    /// What is asked, as the contracts speak of it.
    pub open spec fn view(self) -> LogDo {
        match self {
            LogStep::Done => LogDo::Done,
            LogStep::Write { lba, block } => LogDo::Write { lba, block: block@ },
        }
    }
}

/// Append-only log over raw SD blocks.
pub struct BlockLog {
    buf: [u8; BLOCK_LEN],
    pos: usize,
    /// Block currently being filled.
    lba: u32,
    /// Unsynced bytes in `buf`.
    dirty: bool,
    ready: bool,
    pending: Pending,
}

impl BlockLog {
    /// Every log that `new` and the other methods give.
    pub closed spec fn wf(self) -> bool {
        &&& self.pos <= BLOCK_LEN
        &&& self.buf@ == block_of(self.buf@.subrange(0, self.pos as int))
        &&& in_region(self.lba)
        &&& self.ready && !(self.pending is Block) ==> self.pos < BLOCK_LEN
        &&& self.pending is Setup ==> self.pos == 0
        &&& self.pending is Block || self.pending is Header || self.pending is Sync ==> self.ready
    }

    /// The log as the contracts speak of it.
    pub closed spec fn view(self) -> LogView {
        LogView {
            ready: self.ready,
            dirty: self.dirty,
            lba: self.lba,
            filled: self.buf@.subrange(0, self.pos as int),
            waits: match self.pending {
                Pending::Nothing => LogWait::Nothing,
                Pending::Block { rest } => LogWait::Block { rest: rest@ },
                Pending::Header { rest } => LogWait::Header { rest: rest@ },
                Pending::Sync => LogWait::Sync,
                Pending::Setup => LogWait::Setup,
            },
        }
    }

    /// The block being filled is one of the data region, and it has room
    /// wherever the log takes text.
    pub proof fn bounds(self)
        requires
            self.wf(),
        ensures
            in_region(self@.lba),
            self@.filled.len() <= BLOCK_LEN,
            self@.ready && self@.waits is Nothing ==> self@.filled.len() < BLOCK_LEN,
    {
    }

    /// A log that has not been taken up yet.
    pub fn new() -> (r: BlockLog)
        ensures
            r.wf(),
            !r@.ready,
            !r@.dirty,
            r@.waits is Nothing,
            r@.filled == Seq::<u8>::empty(),
            r@.lba == DATA_START_LBA,
    {
        let r = BlockLog {
            buf: [0u8; BLOCK_LEN],
            pos: 0,
            lba: DATA_START_LBA,
            dirty: false,
            ready: false,
            pending: Pending::Nothing,
        };
        assert(r.buf@ =~= block_of(r.buf@.subrange(0, 0)));
        r
    }

    /// Whether the log takes text.
    pub fn is_ready(&self) -> (r: bool)
        ensures
            r == self@.ready,
    {
        self.ready
    }

    /// The block being filled.
    pub fn lba(&self) -> (r: u32)
        ensures
            r == self@.lba,
    {
        self.lba
    }

    /// Take up the log, given what block [`HEADER_LBA`] holds: pick the resume
    /// point and write it down.
    pub fn setup(&mut self, block: &[u8; BLOCK_LEN]) -> (r: LogStep)
        requires
            old(self).wf(),
            old(self)@.waits is Nothing,
            !old(self)@.ready,
        ensures
            final(self).wf(),
            (final(self)@, r@) == log_setup(old(self)@, block@),
    {
        let is_header: bool = block[0] == 71 && block[1] == 82 && block[2] == 76 && block[3] == 49;
        assert(is_header == (block@.subrange(0, 4) =~= header_magic())) by {
            let s = block@.subrange(0, 4);
            assert(s[0] == block@[0] && s[1] == block@[1] && s[2] == block@[2] && s[3]
                == block@[3]);
            if is_header {
                assert(s =~= header_magic());
            }
        }
        let stored: u32 = if is_header {
            u32_from(block[4], block[5], block[6], block[7])
        } else {
            DATA_START_LBA
        };
        let in_range: bool = DATA_START_LBA <= stored && stored < DATA_START_LBA + DATA_BLOCKS;
        self.lba = if in_range {
            DATA_START_LBA + (stored - DATA_START_LBA + HEADER_EVERY_BLOCKS + 1) % DATA_BLOCKS
        } else {
            DATA_START_LBA
        };
        self.pos = 0;
        self.buf = [0u8; BLOCK_LEN];
        self.dirty = false;
        self.pending = Pending::Setup;
        assert(self.buf@ =~= block_of(self.buf@.subrange(0, 0)));
        assert(self.buf@.subrange(0, 0) =~= Seq::<u8>::empty());
        self.write_header()
    }

    fn write_header(&self) -> (r: LogStep)
        ensures
            r@ == (LogDo::Write { lba: HEADER_LBA, block: header_block(self@.lba) }),
    {
        let mut block: [u8; BLOCK_LEN] = [0u8; BLOCK_LEN];
        block[0] = 71;
        block[1] = 82;
        block[2] = 76;
        block[3] = 49;
        copy_into(&mut block, 4, &u32_to_le(self.lba));
        assert(block@ =~= header_block(self@.lba));
        LogStep::Write { lba: HEADER_LBA, block }
    }

    /// Append bytes, flushing full blocks as they fill.
    pub fn append(&mut self, data: &[u8]) -> (r: LogStep)
        requires
            old(self).wf(),
            old(self)@.waits is Nothing,
        ensures
            final(self).wf(),
            (final(self)@, r@) == log_append(old(self)@, data@),
    {
        if !self.ready {
            return LogStep::Done;
        }
        let space: usize = BLOCK_LEN - self.pos;
        let n: usize = if data.len() < space {
            data.len()
        } else {
            space
        };
        let ghost all = self@.filled + data@;
        copy_into(&mut self.buf, self.pos, &data[0..n]);
        self.pos = self.pos + n;
        if data.len() > 0 {
            self.dirty = true;
        }
        assert(self.buf@.subrange(0, self.pos as int) =~= all.subrange(0, self.pos as int));
        assert(self.buf@ =~= block_of(self.buf@.subrange(0, self.pos as int)));
        if self.pos == BLOCK_LEN {
            assert(data@.subrange(n as int, data@.len() as int) =~= all.skip(BLOCK_LEN as int));
            return self.flush_block(&data[n..data.len()]);
        }
        assert(all.subrange(0, self.pos as int) =~= all);
        LogStep::Done
    }

    /// The block is full: it goes to the card, and `rest` follows it.
    fn flush_block(&mut self, rest: &[u8]) -> (r: LogStep)
        requires
            old(self).wf_buf(),
            old(self).pos == BLOCK_LEN,
            old(self).ready,
            old(self).dirty,
        ensures
            final(self).wf(),
            final(self)@ == (LogView { waits: LogWait::Block { rest: rest@ }, ..old(self)@ }),
            r@ == (LogDo::Write { lba: old(self)@.lba, block: old(self)@.filled }),
    {
        let mut copy: Vec<u8> = Vec::new();
        append(&mut copy, rest);
        assert(copy@ =~= rest@);
        self.pending = Pending::Block { rest: copy };
        assert(self.buf@.subrange(0, BLOCK_LEN as int) =~= self.buf@);
        LogStep::Write { lba: self.lba, block: self.buf }
    }

    closed spec fn wf_buf(self) -> bool {
        &&& self.pos <= BLOCK_LEN
        &&& self.buf@ == block_of(self.buf@.subrange(0, self.pos as int))
        &&& in_region(self.lba)
    }

    /// Persist a partially filled block in place.
    pub fn sync(&mut self) -> (r: LogStep)
        requires
            old(self).wf(),
            old(self)@.waits is Nothing,
        ensures
            final(self).wf(),
            (final(self)@, r@) == log_sync(old(self)@),
    {
        if !self.ready || !self.dirty {
            return LogStep::Done;
        }
        self.pending = Pending::Sync;
        LogStep::Write { lba: self.lba, block: self.buf }
    }

    /// The block that [`LogStep::Write`] asked for has been written, or could
    /// not be.
    pub fn written(&mut self, ok: bool) -> (r: LogStep)
        requires
            old(self).wf(),
            !(old(self)@.waits is Nothing),
        ensures
            final(self).wf(),
            (final(self)@, r@) == log_written(old(self)@, ok),
    {
        let mut pending: Pending = Pending::Nothing;
        core::mem::swap(&mut pending, &mut self.pending);
        if !ok {
            // The card may have been removed, or the bus may have failed.
            self.ready = false;
            self.dirty = false;
            return LogStep::Done;
        }
        match pending {
            Pending::Block { rest } => {
                self.lba = self.lba + 1;
                if self.lba >= DATA_START_LBA + DATA_BLOCKS {
                    self.lba = DATA_START_LBA;
                }
                self.pos = 0;
                self.buf = [0u8; BLOCK_LEN];
                self.dirty = false;
                assert(self.buf@ =~= block_of(self.buf@.subrange(0, 0)));
                assert(self.buf@.subrange(0, 0) =~= Seq::<u8>::empty());
                if (self.lba - DATA_START_LBA) % HEADER_EVERY_BLOCKS == 0 {
                    self.pending = Pending::Header { rest };
                    return self.write_header();
                }
                self.append(&rest)
            },
            Pending::Header { rest } => self.append(&rest),
            Pending::Sync => {
                self.dirty = false;
                LogStep::Done
            },
            Pending::Setup => {
                self.ready = true;
                LogStep::Done
            },
            Pending::Nothing => LogStep::Done,
        }
    }
}

/// A header reads back as it was written.
pub proof fn header_round_trip(lba: u32)
    ensures
        stored_lba(header_block(lba)) == lba,
{
    let block = header_block(lba);
    u32_round_trip(lba);
    assert(block.subrange(0, 4) =~= header_magic());
    assert(u32_le(lba) =~= seq![block[4], block[5], block[6], block[7]]);
}

/// Text that waits for the block being written.
pub open spec fn waiting_text(w: LogWait) -> Seq<u8> {
    match w {
        LogWait::Block { rest } => rest,
        LogWait::Header { rest } => rest,
        _ => Seq::empty(),
    }
}

/// All the text that the log has taken, `flushed` being what full blocks on the
/// card hold.
pub open spec fn all_text(v: LogView, flushed: Seq<u8>) -> Seq<u8> {
    flushed + v.filled + waiting_text(v.waits)
}

/// Text is neither lost nor reordered: appending adds the text at the end, and
/// each block written only moves text from the log to the card.
pub proof fn text_is_kept_in_order(v: LogView, flushed: Seq<u8>, data: Seq<u8>)
    requires
        v.ready,
    ensures
        v.waits is Nothing ==> all_text(log_append(v, data).0, flushed) == all_text(v, flushed)
            + data,
        v.waits is Block ==> all_text(log_written(v, true).0, flushed + v.filled) == all_text(
            v,
            flushed,
        ),
        v.waits is Header && v.filled.len() == 0 ==> all_text(log_written(v, true).0, flushed)
            == all_text(v, flushed),
        v.waits is Sync ==> all_text(log_written(v, true).0, flushed) == all_text(v, flushed),
{
    let all = v.filled + data;
    if all.len() >= BLOCK_LEN {
        assert(all.subrange(0, BLOCK_LEN as int) + all.skip(BLOCK_LEN as int) =~= all);
    }
    assert(all_text(log_append(v, data).0, flushed) =~= flushed + v.filled + data);
    match v.waits {
        LogWait::Block { rest } => {
            let lba = next_lba(v.lba);
            let w = LogView { lba, filled: Seq::empty(), dirty: false, ..v };
            let e = w.filled + rest;
            assert(e =~= rest);
            if e.len() >= BLOCK_LEN {
                assert(e.subrange(0, BLOCK_LEN as int) + e.skip(BLOCK_LEN as int) =~= e);
            }
            assert(all_text(log_append(w, rest).0, flushed + v.filled) =~= flushed + v.filled
                + rest);
            assert(all_text(log_written(v, true).0, flushed + v.filled) =~= all_text(v, flushed));
        },
        LogWait::Header { rest } => {
            let e = v.filled + rest;
            if e.len() >= BLOCK_LEN {
                assert(e.subrange(0, BLOCK_LEN as int) + e.skip(BLOCK_LEN as int) =~= e);
            }
            assert(all_text(log_append(v, rest).0, flushed) =~= flushed + v.filled + rest);
            assert(all_text(log_written(v, true).0, flushed) =~= all_text(v, flushed));
        },
        _ => {
            assert(all_text(v, flushed) =~= flushed + v.filled);
            assert(all_text(log_written(v, true).0, flushed) =~= flushed + v.filled);
        },
    }
}

/// The group of [`HEADER_EVERY_BLOCKS`] blocks that a data block belongs to.
pub open spec fn group(lba: u32) -> int {
    (lba - DATA_START_LBA) / HEADER_EVERY_BLOCKS as int
}

/// The header on the card points to `stored`, and the block being filled comes
/// after it in the same group; or the header is just being written, the group
/// before it being full.
pub open spec fn near_checkpoint(v: LogView, stored: u32) -> bool {
    &&& in_region(stored)
    &&& in_region(v.lba)
    &&& v.ready && !(v.waits is Header) ==> stored <= v.lba && group(v.lba) == group(stored)
    &&& v.waits is Block || v.waits is Header || v.waits is Sync ==> v.ready
}

/// A log that has just been taken up is near its checkpoint.
pub proof fn setup_checkpoints(v: LogView, block: Seq<u8>)
    ensures
        ({
            let asked = log_setup(v, block);
            near_checkpoint(log_written(asked.0, true).0, asked.0.lba)
        }),
{
}

/// The log stays near its checkpoint, whatever is appended, synced or written:
/// each header that is written is the new checkpoint.
pub proof fn checkpoint_stays_near(v: LogView, stored: u32, data: Seq<u8>, ok: bool)
    requires
        near_checkpoint(v, stored),
    ensures
        v.waits is Nothing ==> near_checkpoint(log_append(v, data).0, stored),
        v.waits is Nothing ==> near_checkpoint(log_sync(v).0, stored),
        v.waits is Header && ok ==> near_checkpoint(log_written(v, ok).0, v.lba),
        !(v.waits is Header && ok) && !(v.waits is Setup) ==> near_checkpoint(
            log_written(v, ok).0,
            stored,
        ),
{
    assert(group(v.lba) == group(stored) ==> (next_lba(v.lba) - DATA_START_LBA)
        % HEADER_EVERY_BLOCKS as int != 0 ==> group(next_lba(v.lba)) == group(stored));
}

/// Resuming overwrites nothing that was written since the checkpoint: every
/// data block that the log asks to write lies in the checkpoint's group, and
/// the block at which a node resumes does not.
pub proof fn resume_spares_recent_blocks(v: LogView, stored: u32, data: Seq<u8>, ok: bool)
    requires
        near_checkpoint(v, stored),
    ensures
        in_region(resume_lba(header_block(stored))),
        group(resume_lba(header_block(stored))) != group(stored),
        v.waits is Nothing ==> (log_append(v, data).1 matches LogDo::Write { lba, block } ==> group(
            lba,
        ) == group(stored)),
        v.waits is Nothing ==> (log_sync(v).1 matches LogDo::Write { lba, block } ==> group(lba)
            == group(stored)),
        v.waits is Block ==> (log_written(v, ok).1 matches LogDo::Write { lba, block } ==> lba
            == HEADER_LBA || group(lba) == group(stored)),
        v.waits is Header ==> (log_written(v, ok).1 matches LogDo::Write { lba, block } ==> group(
            lba,
        ) == group(v.lba)),
{
    header_round_trip(stored);
    assert(group(v.lba) == group(stored) ==> (next_lba(v.lba) - DATA_START_LBA)
        % HEADER_EVERY_BLOCKS as int != 0 ==> group(next_lba(v.lba)) == group(stored));
}

/// Every block that the log asks to write is its header or one of its data
/// region: the rest of the card is left alone.
pub proof fn writes_stay_in_the_region(v: LogView, data: Seq<u8>, block: Seq<u8>, ok: bool)
    requires
        in_region(v.lba),
    ensures
        log_append(v, data).1 matches LogDo::Write { lba, .. } ==> in_region(lba),
        log_sync(v).1 matches LogDo::Write { lba, .. } ==> in_region(lba),
        log_setup(v, block).1 matches LogDo::Write { lba, .. } ==> lba == HEADER_LBA,
        log_written(v, ok).1 matches LogDo::Write { lba, .. } ==> lba == HEADER_LBA || in_region(
            lba,
        ),
        in_region(log_append(v, data).0.lba),
        in_region(log_sync(v).0.lba),
        in_region(log_setup(v, block).0.lba),
        in_region(log_written(v, ok).0.lba),
{
}

} // verus!
