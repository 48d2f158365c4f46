//! The block-transfer engine: streaming a firmware image to the device
//! over the dedicated update channel, one 512-byte block at a time,
//! with an erase/program handshake after every block.
//!
//! The engine owns the protocol state alone. The caller owns the TCP
//! session and drives the engine: it asks for the next action, sends
//! the block bytes verbatim, reads the device's 3-byte answer and hands
//! it back. A failed run has no checkpoint to resume from; a fresh run
//! starts again at block zero.

use vstd::prelude::*;

verus! {

/// Bytes per firmware block record.
pub const BLOCK_SIZE: usize = 512;

/// First magic word of a block record ("UF2\n" in little endian).
pub const MAGIC_START_0: u32 = 0x0A32_4655;

/// Second magic word of a block record.
pub const MAGIC_START_1: u32 = 0x9E5D_5157;

/// Final magic word of a block record, in its last four bytes.
pub const MAGIC_END: u32 = 0x0AB1_6F30;

/// Largest payload length a block record may carry.
pub const MAX_PAYLOAD: u32 = 476;

/// The little-endian 32-bit word at offset `i` of a byte sequence.
pub open spec fn spec_le32(s: Seq<u8>, i: int) -> u32 {
    (s[i] + s[i + 1] * 0x100 + s[i + 2] * 0x1_0000 + s[i + 3] * 0x100_0000) as u32
}

/// A well-formed 512-byte firmware block record: the three magic words
/// in place, the payload length within bounds, and the block index
/// below the total block count.
pub open spec fn spec_block_ok(s: Seq<u8>) -> bool {
    &&& spec_le32(s, 0) == MAGIC_START_0
    &&& spec_le32(s, 4) == MAGIC_START_1
    &&& spec_le32(s, 508) == MAGIC_END
    &&& spec_le32(s, 16) <= MAX_PAYLOAD
    &&& spec_le32(s, 20) < spec_le32(s, 24)
}

/// The zero-based index a block record carries.
pub open spec fn spec_block_index(s: Seq<u8>) -> u32 {
    spec_le32(s, 20)
}

/// Relies on uftwo's `Block::from_bytes`: a record parses successfully
/// only when its three magic words match, its payload length is within
/// bounds and its block index is below the total count, and the parsed
/// record's index is the word at offset 20. The parser reads the
/// record's 32-bit words in the host's byte order, which here is the
/// format's little-endian order. It may also refuse a record for
/// reasons of buffer placement alone, so well-formedness does not
/// promise success.
#[verifier::external_body]
fn parse_block(bytes: &[u8]) -> (r: Option<u32>)
    requires
        bytes@.len() == BLOCK_SIZE,
    ensures
        r matches Some(index) ==> spec_block_ok(bytes@) && index == spec_block_index(bytes@),
        !spec_block_ok(bytes@) ==> r is None,
{
    match uftwo::Block::from_bytes(bytes) {
        Ok(b) => Some(b.block),
        Err(_) => None,
    }
}

/// Failures of a transfer run.
#[derive(Debug, Clone, Copy, PartialEq, Eq, Structural)]
pub enum TransferError {
    /// The image length is not a multiple of the block size. Raised
    /// before any connection is opened; not retryable.
    Misaligned,
    /// The dedicated update connection could not be established.
    Connection,
    /// A block of the image did not parse as a firmware block record:
    /// the image is corrupt or not firmware.
    BadBlock,
    /// The device answered a block with something other than `ok\0`.
    /// The device may be left mid-flash; it must be reset before the
    /// transfer is tried again.
    Protocol,
}

/// The phase of one transfer run.
#[derive(Debug, Clone, Copy, PartialEq, Eq, Structural)]
pub enum TransferState {
    /// Session created; no connection attempted yet.
    Idle,
    /// The caller is establishing the dedicated update connection.
    Connecting,
    /// Blocks before the checkpoint are sent and acknowledged.
    Transferring,
    /// Every block was acknowledged; the transfer is complete.
    Done,
    /// The run failed; it cannot be resumed.
    Failed(TransferError),
}

/// A human-observable progress milestone, emitted after particular
/// blocks are sent. Progress signals only, not protocol state.
#[derive(Debug, Clone, Copy, PartialEq, Eq, Structural)]
pub enum Milestone {
    /// Block zero went out: the device begins its flash-erase cycle.
    Erasing,
    /// Block one went out: the device is programming.
    Loading,
}

/// The milestone the block with this index announces.
pub open spec fn spec_milestone(index: u32) -> Option<Milestone> {
    if index == 0 {
        Some(Milestone::Erasing)
    } else if index == 1 {
        Some(Milestone::Loading)
    } else {
        None
    }
}

/// What the caller must do next.
#[derive(Debug)]
pub enum Action {
    /// Send these bytes verbatim over the update connection, show the
    /// milestone if one is named, then read the device's 3-byte answer
    /// and hand it to `handle_response`.
    Send { bytes: Vec<u8>, index: u32, milestone: Option<Milestone> },
    /// Every block is acknowledged; close the connection.
    Finished,
}

/// The literal 3-byte acknowledgement `ok\0`.
pub open spec fn spec_response_ok(resp: Seq<u8>) -> bool {
    resp == seq![0x6fu8, 0x6bu8, 0x00u8]
}

/// Ephemeral state of one block-transfer run.
#[derive(Debug)]
pub struct TransferSession {
    /// The whole image; sent verbatim, block by block.
    pub image: Vec<u8>,
    /// Byte offset of the next block to send. Everything before it has
    /// been sent and acknowledged.
    pub sent: usize,
    /// The phase the run is in.
    pub state: TransferState,
}

impl TransferSession {
    /// The session's structural invariant: the image is block-aligned
    /// and the checkpoint sits on a block boundary within it.
    pub open spec fn wf(&self) -> bool {
        &&& self.image@.len() % (BLOCK_SIZE as nat) == 0
        &&& self.sent <= self.image@.len()
        &&& self.sent % BLOCK_SIZE == 0
    }

    /// Opens a session over an image. An image whose length is not an
    /// exact multiple of the block size is refused here, before any
    /// connection is opened; an accepted session starts idle at block
    /// zero.
    pub fn new(image: Vec<u8>) -> (r: Result<TransferSession, TransferError>)
        ensures
            match r {
                Ok(s) => image@.len() % (BLOCK_SIZE as nat) == 0 && s.wf() && s.image@ == image@
                    && s.sent == 0 && s.state == TransferState::Idle,
                Err(e) => image@.len() % (BLOCK_SIZE as nat) != 0 && e == TransferError::Misaligned,
            },
    {
        if image.len() % BLOCK_SIZE != 0 {
            Err(TransferError::Misaligned)
        } else {
            Ok(TransferSession { image, sent: 0, state: TransferState::Idle })
        }
    }

    /// Notes that the caller is opening the update connection.
    pub fn begin_connect(&mut self)
        requires
            old(self).wf(),
            old(self).state == TransferState::Idle,
        ensures
            final(self).wf(),
            final(self).image@ == old(self).image@,
            final(self).sent == old(self).sent,
            final(self).state == TransferState::Connecting,
    {
        self.state = TransferState::Connecting;
    }

    /// Notes that the update connection is up; block zero is next.
    pub fn connection_established(&mut self)
        requires
            old(self).wf(),
            old(self).state == TransferState::Connecting,
        ensures
            final(self).wf(),
            final(self).image@ == old(self).image@,
            final(self).sent == old(self).sent,
            final(self).state == TransferState::Transferring,
    {
        self.state = TransferState::Transferring;
    }

    /// Notes that the update connection could not be established. A
    /// connection failure is distinct from a protocol failure: the
    /// device was never reached, nothing was flashed.
    pub fn connection_failed(&mut self)
        requires
            old(self).wf(),
            old(self).state == TransferState::Connecting,
        ensures
            final(self).wf(),
            final(self).image@ == old(self).image@,
            final(self).sent == old(self).sent,
            final(self).state == TransferState::Failed(TransferError::Connection),
    {
        self.state = TransferState::Failed(TransferError::Connection);
    }

    /// The next step of the handshake: the block at the checkpoint,
    /// with its parsed index and milestone, or completion once every
    /// block is acknowledged. A block that does not parse as a
    /// firmware block record fails the run.
    pub fn next_action(&mut self) -> (r: Result<Action, TransferError>)
        requires
            old(self).wf(),
            old(self).state == TransferState::Transferring,
        ensures
            final(self).wf(),
            final(self).image@ == old(self).image@,
            final(self).sent == old(self).sent,
            ({
                let img = old(self).image@;
                let off = old(self).sent as int;
                match r {
                    Ok(a) => if off == img.len() {
                        a is Finished && final(self).state == TransferState::Done
                    } else {
                        &&& a matches Action::Send { bytes, index, milestone }
                        &&& bytes@ == img.subrange(off, off + BLOCK_SIZE as int)
                        &&& spec_block_ok(bytes@)
                        &&& index == spec_block_index(bytes@)
                        &&& milestone == spec_milestone(index)
                        &&& final(self).state == TransferState::Transferring
                    },
                    Err(e) => {
                        &&& off < img.len()
                        &&& e == TransferError::BadBlock
                        &&& final(self).state == TransferState::Failed(TransferError::BadBlock)
                    },
                }
            }),
            old(self).sent < old(self).image@.len() && !spec_block_ok(
                old(self).image@.subrange(
                    old(self).sent as int,
                    old(self).sent as int + BLOCK_SIZE as int,
                ),
            ) ==> r is Err,
    {
        if self.sent == self.image.len() {
            self.state = TransferState::Done;
            return Ok(Action::Finished);
        }
        proof {
            assert(self.sent + BLOCK_SIZE <= self.image@.len()) by (nonlinear_arith)
                requires
                    self.sent % BLOCK_SIZE == 0,
                    self.image@.len() % (BLOCK_SIZE as nat) == 0,
                    self.sent < self.image@.len(),
                    BLOCK_SIZE == 512,
            ;
        }
        let n = self.image.len();
        let mut bytes: Vec<u8> = Vec::new();
        let mut j: usize = 0;
        while j < BLOCK_SIZE
            invariant
                j <= BLOCK_SIZE,
                self.sent + BLOCK_SIZE <= self.image@.len(),
                self.image@.len() == n,
                bytes@ =~= self.image@.subrange(self.sent as int, self.sent as int + j as int),
            decreases BLOCK_SIZE - j,
        {
            bytes.push(self.image[self.sent + j]);
            j += 1;
        }
        match parse_block(bytes.as_slice()) {
            Some(index) => {
                let milestone = if index == 0 {
                    Some(Milestone::Erasing)
                } else if index == 1 {
                    Some(Milestone::Loading)
                } else {
                    None
                };
                Ok(Action::Send { bytes, index, milestone })
            },
            None => {
                self.state = TransferState::Failed(TransferError::BadBlock);
                Err(TransferError::BadBlock)
            },
        }
    }

    /// Takes the device's 3-byte answer to the block just sent. The
    /// literal `ok\0` acknowledges the block and moves the checkpoint
    /// past it; any other answer fails the run on the spot, with the
    /// checkpoint unmoved, and no further block is offered.
    pub fn handle_response(&mut self, resp: &[u8]) -> (r: Result<(), TransferError>)
        requires
            old(self).wf(),
            old(self).state == TransferState::Transferring,
            old(self).sent < old(self).image@.len(),
            resp@.len() == 3,
        ensures
            final(self).wf(),
            final(self).image@ == old(self).image@,
            if spec_response_ok(resp@) {
                &&& r is Ok
                &&& final(self).sent == old(self).sent + BLOCK_SIZE
                &&& final(self).state == TransferState::Transferring
            } else {
                &&& r matches Err(e) && e == TransferError::Protocol
                &&& final(self).sent == old(self).sent
                &&& final(self).state == TransferState::Failed(TransferError::Protocol)
            },
    {
        if resp[0] == 0x6f && resp[1] == 0x6b && resp[2] == 0x00 {
            proof {
                assert(resp@ =~= seq![0x6fu8, 0x6bu8, 0x00u8]);
                assert(self.sent + BLOCK_SIZE <= self.image@.len()) by (nonlinear_arith)
                    requires
                        self.sent % BLOCK_SIZE == 0,
                        self.image@.len() % (BLOCK_SIZE as nat) == 0,
                        self.sent < self.image@.len(),
                        BLOCK_SIZE == 512,
                ;
            }
            let n = self.image.len();
            assert(self.sent + BLOCK_SIZE <= n);
            self.sent = self.sent + BLOCK_SIZE;
            Ok(())
        } else {
            self.state = TransferState::Failed(TransferError::Protocol);
            Err(TransferError::Protocol)
        }
    }
}

} // verus!
