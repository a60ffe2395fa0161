//! The operations of the chip, each as the list of stages it is made of.

use vstd::prelude::*;
use crate::engine::Probe;
use crate::engine::Readiness;
use crate::engine::Stage;
use crate::engine::StageView;
use crate::opcode::addressed_frame;
use crate::opcode::bare;
use crate::opcode::bare_frame;
use crate::opcode::Opcode;

verus! {

/// Milliseconds that the suspending engine waits between two status reads
/// while it initialises.
pub const INIT_PAUSE_MS: u32 = 10;

/// Milliseconds that the suspending engine waits between two status reads
/// around a chip erase.
pub const ERASE_PAUSE_MS: u32 = 100;

/// How many bytes the JEDEC identification read receives: identifications
/// are at most this long.
pub const JEDEC_RESPONSE_LEN: usize = 11;

/// The wait that precedes a command: status reads, one right after the
/// other, until the busy flag is clear.
pub open spec fn until_done() -> StageView {
    StageView::Settle(Readiness::NotBusy, None)
}

/// The wait of the suspending engine around a chip erase: status reads until
/// the busy flag is clear, with a suspension after each that finds it set.
pub open spec fn until_done_paced(ms: u32) -> StageView {
    StageView::Settle(Readiness::NotBusy, Some(ms))
}

/// The command that sets the write enable latch.
pub open spec fn enable_write() -> StageView {
    StageView::Command(bare_frame(Opcode::WriteEnable))
}

/// Initialisation of the blocking engine: wait, without a pause, until the
/// busy flag and the write enable latch are both clear.
pub open spec fn init_blocking() -> Seq<StageView> {
    seq![StageView::Settle(Readiness::Quiescent, None)]
}

/// Initialisation of the suspending engine: wait until the busy flag is
/// clear, 10 ms between two looks.
pub open spec fn init_suspending() -> Seq<StageView> {
    seq![StageView::Settle(Readiness::NotBusy, Some(INIT_PAUSE_MS))]
}

/// Read: wait until not busy, then send the instruction with the address and
/// receive `len` bytes.
pub open spec fn read(addr: u32, len: usize) -> Seq<StageView> {
    seq![until_done(), StageView::Query(addressed_frame(Opcode::Read, addr), len)]
}

/// Sector erase: wait until not busy, enable writing, send the instruction
/// with the address. The erase itself is not waited for.
pub open spec fn sector_erase(addr: u32) -> Seq<StageView> {
    seq![
        until_done(),
        enable_write(),
        StageView::Command(addressed_frame(Opcode::SectorErase, addr)),
    ]
}

/// Page program: wait until not busy, enable writing, look at the latch,
/// then send the instruction with the address and the data in one transaction.
pub open spec fn page_program(addr: u32, data: Seq<u8>) -> Seq<StageView> {
    seq![
        until_done(),
        enable_write(),
        StageView::ConfirmLatch,
        StageView::Write(addressed_frame(Opcode::PageProg, addr), data),
    ]
}

/// Chip erase of the blocking engine: wait until not busy, enable writing,
/// send the instruction. The erase itself is not waited for.
pub open spec fn chip_erase_blocking() -> Seq<StageView> {
    seq![until_done(), enable_write(), StageView::Command(bare_frame(Opcode::ChipErase))]
}

/// Chip erase of the suspending engine: wait until not busy, enable writing,
/// send the instruction, and wait until the erase is over; both waits with
/// 100 ms between two looks.
pub open spec fn chip_erase_suspending() -> Seq<StageView> {
    seq![
        until_done_paced(ERASE_PAUSE_MS),
        enable_write(),
        StageView::Command(bare_frame(Opcode::ChipErase)),
        until_done_paced(ERASE_PAUSE_MS),
    ]
}

/// Software reset: wait until not busy, enable writing, send the first
/// instruction of the handshake, wait until not busy, send the second.
pub open spec fn software_reset() -> Seq<StageView> {
    seq![
        until_done(),
        enable_write(),
        StageView::Command(bare_frame(Opcode::EnableReset)),
        until_done(),
        StageView::Command(bare_frame(Opcode::Reset)),
    ]
}

/// One status read, reported as the probe says.
pub open spec fn probe(probe: Probe) -> Seq<StageView> {
    seq![StageView::Probe(probe)]
}

/// The frame of the manufacturer and device ID read: the instruction and
/// three zero bytes.
pub open spec fn manufacturer_device_id_frame() -> Seq<u8> {
    seq![Opcode::ReadMfDId.wire(), 0u8, 0u8, 0u8]
}

/// Manufacturer and device ID read: two bytes come back.
pub open spec fn read_manufacturer_device_id() -> Seq<StageView> {
    seq![StageView::Query(manufacturer_device_id_frame(), 2)]
}

/// JEDEC identification read: the instruction goes out and eleven bytes
/// come back, all of them identification.
pub open spec fn read_jedec_id() -> Seq<StageView> {
    seq![StageView::Query(bare_frame(Opcode::ReadJedecId), JEDEC_RESPONSE_LEN)]
}

/// The wait until not busy, as an operation of its own.
pub open spec fn wait_done() -> Seq<StageView> {
    seq![until_done()]
}

/// The write enable command, as an operation of its own.
pub open spec fn write_enable() -> Seq<StageView> {
    seq![enable_write()]
}

/// Builds the wait that precedes a command.
pub fn until_done_stage() -> (stage: Stage)
    ensures
        stage@ == until_done(),
{
    Stage::Settle(Readiness::NotBusy, None)
}

/// Builds the wait with a suspension between two status reads.
pub fn until_done_paced_stage(ms: u32) -> (stage: Stage)
    ensures
        stage@ == until_done_paced(ms),
{
    Stage::Settle(Readiness::NotBusy, Some(ms))
}

/// Builds the command that sets the write enable latch.
pub fn enable_write_stage() -> (stage: Stage)
    ensures
        stage@ == enable_write(),
{
    Stage::Command(bare(Opcode::WriteEnable))
}

} // verus!
