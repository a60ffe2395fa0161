//! The blocking protocol engine.
//!
//! Every wait of this engine is a status read right after the last one, with
//! no pause: it never asks for a suspension.
//!
//! Refer to the datasheet of the W25Q128JV.

use vstd::prelude::*;
use vstd::slice::slice_to_vec;
use crate::channel::status_query;
use crate::channel::write_then_read;
use crate::channel::Transaction;
use crate::engine::script_view;
use crate::engine::Engine;
use crate::engine::EngineView;
use crate::engine::Event;
use crate::engine::Probe;
use crate::engine::Readiness;
use crate::engine::Stage;
use crate::engine::Step;
use crate::opcode::addressed;
use crate::opcode::bare;
use crate::opcode::bare_frame;
use crate::opcode::Opcode;
use crate::script;
use crate::script::enable_write_stage;
use crate::script::until_done_stage;

verus! {

/// The blocking protocol engine.
#[derive(Debug)]
pub struct FlashSpi {
    engine: Engine,
}

impl View for FlashSpi {
    type V = EngineView;

    closed spec fn view(&self) -> EngineView {
        self.engine@
    }
}

impl FlashSpi {
    /// Whether an operation may be started: the chip has been seen ready and
    /// no operation is under way.
    pub open spec fn available(&self) -> bool {
        self@.ready && self@.idle()
    }

    /// Starts the initialisation and hands out the engine with the first
    /// status read. The initialisation ends well once the chip reports the
    /// busy flag and the write enable latch both clear; until then the
    /// engine asks for one status read after the other, without a pause and
    /// without a limit.
    pub fn init() -> (started: (FlashSpi, Transaction))
        ensures
            started.0@ == EngineView::opened(script::init_blocking(), false),
            started.1@ == status_query(),
    {
        let mut engine = Engine::new();
        let mut stages: Vec<Stage> = Vec::new();
        stages.push(Stage::Settle(Readiness::Quiescent, None));
        assert(script_view(stages@) =~= script::init_blocking());
        let first = engine.begin(stages);
        (FlashSpi { engine }, first)
    }

    /// Whether the initialisation, or an operation after it, has ended well.
    pub fn is_ready(&self) -> (ready: bool)
        ensures
            ready == self@.ready,
    {
        self.engine.is_ready()
    }

    /// Whether no operation is under way.
    pub fn is_idle(&self) -> (idle: bool)
        ensures
            idle == self@.idle(),
    {
        self.engine.is_idle()
    }

    /// Whether `event` answers what the engine is waiting for.
    pub fn accepts<E>(&self, event: &Event<E>) -> (fits: bool)
        ensures
            fits == self@.accepts(event@),
    {
        self.engine.accepts(event)
    }

    /// Whether the engine is waiting for its second look at the status
    /// register after a write enable command that did not set the latch.
    /// The reply to that read decides nothing; it is there to be reported.
    pub fn reporting(&self) -> (reporting: bool)
        ensures
            reporting == (self@.pending is Reporting),
    {
        self.engine.reporting()
    }

    /// Gives up the operation under way, if there is one, without a further
    /// transaction: the engine is at rest and as ready as it was. Whatever
    /// the chip was told stays told; the next operation starts with its own
    /// wait on the status register.
    pub fn abandon(&mut self)
        ensures
            final(self)@ == EngineView::at_rest(old(self)@.ready),
    {
        self.engine.abandon()
    }

    /// Takes what the bus owner reports and answers with the next step.
    pub fn resume<E>(&mut self, event: Event<E>) -> (step: Step<E>)
        requires
            old(self)@.accepts(event@),
        ensures
            (final(self)@, step@) == old(self)@.step(event@),
    {
        self.engine.resume(event)
    }

    /// Starts a read of `len` bytes from `addr` on. Only the low 24 bits of
    /// `addr` are sent. The operation ends with the bytes received; `len`
    /// may be zero.
    pub fn read(&mut self, addr: u32, len: usize) -> (first: Transaction)
        requires
            old(self).available(),
        ensures
            final(self)@ == EngineView::opened(script::read(addr, len), true),
            first@ == status_query(),
    {
        let mut stages: Vec<Stage> = Vec::new();
        stages.push(until_done_stage());
        stages.push(Stage::Query(addressed(Opcode::Read, addr), len));
        assert(script_view(stages@) =~= script::read(addr, len));
        self.engine.begin(stages)
    }

    /// Starts the erase of the sector that holds `addr`. The operation ends
    /// once the chip has taken the command, not once the erase is over.
    pub fn sector_erase(&mut self, addr: u32) -> (first: Transaction)
        requires
            old(self).available(),
        ensures
            final(self)@ == EngineView::opened(script::sector_erase(addr), true),
            first@ == status_query(),
    {
        let mut stages: Vec<Stage> = Vec::new();
        stages.push(until_done_stage());
        stages.push(enable_write_stage());
        stages.push(Stage::Command(addressed(Opcode::SectorErase, addr)));
        assert(script_view(stages@) =~= script::sector_erase(addr));
        self.engine.begin(stages)
    }

    /// Starts the programming of `data` at `addr`. After the write enable
    /// command the latch is looked at; where it is not set the status
    /// register is read once more, and the data is sent all the same. The
    /// data is sent as it is, whatever its length.
    pub fn page_program(&mut self, addr: u32, data: &[u8]) -> (first: Transaction)
        requires
            old(self).available(),
        ensures
            final(self)@ == EngineView::opened(script::page_program(addr, data@), true),
            first@ == status_query(),
    {
        let mut stages: Vec<Stage> = Vec::new();
        stages.push(until_done_stage());
        stages.push(enable_write_stage());
        stages.push(Stage::ConfirmLatch);
        stages.push(Stage::Write(addressed(Opcode::PageProg, addr), slice_to_vec(data)));
        assert(script_view(stages@) =~= script::page_program(addr, data@));
        self.engine.begin(stages)
    }

    /// Starts the erase of the whole chip. The operation ends once the chip
    /// has taken the command, not once the erase is over.
    pub fn chip_erase(&mut self) -> (first: Transaction)
        requires
            old(self).available(),
        ensures
            final(self)@ == EngineView::opened(script::chip_erase_blocking(), true),
            first@ == status_query(),
    {
        let mut stages: Vec<Stage> = Vec::new();
        stages.push(until_done_stage());
        stages.push(enable_write_stage());
        stages.push(Stage::Command(bare(Opcode::ChipErase)));
        assert(script_view(stages@) =~= script::chip_erase_blocking());
        self.engine.begin(stages)
    }

    /// Starts the software reset: the two instructions of the handshake,
    /// each after a wait until the chip is not busy.
    pub fn software_reset(&mut self) -> (first: Transaction)
        requires
            old(self).available(),
        ensures
            final(self)@ == EngineView::opened(script::software_reset(), true),
            first@ == status_query(),
    {
        let mut stages: Vec<Stage> = Vec::new();
        stages.push(until_done_stage());
        stages.push(enable_write_stage());
        stages.push(Stage::Command(bare(Opcode::EnableReset)));
        stages.push(until_done_stage());
        stages.push(Stage::Command(bare(Opcode::Reset)));
        assert(script_view(stages@) =~= script::software_reset());
        self.engine.begin(stages)
    }

    /// Starts one status read that ends with whether the busy flag is set.
    pub fn is_busy(&mut self) -> (first: Transaction)
        requires
            old(self).available(),
        ensures
            final(self)@ == EngineView::opened(script::probe(Probe::Busy), true),
            first@ == status_query(),
    {
        self.probe(Probe::Busy)
    }

    /// Starts one status read that ends with whether the write enable latch
    /// is set.
    pub fn is_wel(&mut self) -> (first: Transaction)
        requires
            old(self).available(),
        ensures
            final(self)@ == EngineView::opened(script::probe(Probe::Latch), true),
            first@ == status_query(),
    {
        self.probe(Probe::Latch)
    }

    /// Starts one status read that ends with the decoded register.
    pub fn read_status(&mut self) -> (first: Transaction)
        requires
            old(self).available(),
        ensures
            final(self)@ == EngineView::opened(script::probe(Probe::Register), true),
            first@ == status_query(),
    {
        self.probe(Probe::Register)
    }

    /// Starts the read of the manufacturer and device IDs. The operation
    /// ends with the two bytes received.
    pub fn read_manufacturer_device_id(&mut self) -> (first: Transaction)
        requires
            old(self).available(),
        ensures
            final(self)@ == EngineView::opened(script::read_manufacturer_device_id(), true),
            first@ == write_then_read(script::manufacturer_device_id_frame(), 2),
    {
        let mut instruction = bare(Opcode::ReadMfDId);
        instruction.push(0);
        instruction.push(0);
        instruction.push(0);
        assert(instruction@ =~= script::manufacturer_device_id_frame());
        let mut stages: Vec<Stage> = Vec::new();
        stages.push(Stage::Query(instruction, 2));
        assert(script_view(stages@) =~= script::read_manufacturer_device_id());
        self.engine.begin(stages)
    }

    /// Starts the read of the JEDEC identification: the instruction goes
    /// out and eleven bytes come back, with no wait on the status register
    /// before it. The operation ends with the eleven bytes as they arrived,
    /// left undecoded.
    pub fn read_jedec_id(&mut self) -> (first: Transaction)
        requires
            old(self).available(),
        ensures
            final(self)@ == EngineView::opened(script::read_jedec_id(), true),
            first@ == write_then_read(bare_frame(Opcode::ReadJedecId), 11),
    {
        let mut stages: Vec<Stage> = Vec::new();
        stages.push(Stage::Query(bare(Opcode::ReadJedecId), script::JEDEC_RESPONSE_LEN));
        assert(script_view(stages@) =~= script::read_jedec_id());
        self.engine.begin(stages)
    }

    /// Starts a wait until the chip reports the busy flag clear: one status
    /// read after the other, without a pause.
    pub fn wait_done(&mut self) -> (first: Transaction)
        requires
            old(self).available(),
        ensures
            final(self)@ == EngineView::opened(script::wait_done(), true),
            first@ == status_query(),
    {
        let mut stages: Vec<Stage> = Vec::new();
        stages.push(until_done_stage());
        assert(script_view(stages@) =~= script::wait_done());
        self.engine.begin(stages)
    }

    /// Starts the command that sets the write enable latch.
    pub fn write_enable(&mut self) -> (first: Transaction)
        requires
            old(self).available(),
        ensures
            final(self)@ == EngineView::opened(script::write_enable(), true),
            first@ == script::write_enable()[0].request(),
    {
        let mut stages: Vec<Stage> = Vec::new();
        stages.push(enable_write_stage());
        assert(script_view(stages@) =~= script::write_enable());
        self.engine.begin(stages)
    }

    /// Starts one status read, reported as `probe` says.
    fn probe(&mut self, probe: Probe) -> (first: Transaction)
        requires
            old(self).available(),
        ensures
            final(self)@ == EngineView::opened(script::probe(probe), true),
            first@ == status_query(),
    {
        let mut stages: Vec<Stage> = Vec::new();
        stages.push(Stage::Probe(probe));
        assert(script_view(stages@) =~= script::probe(probe));
        self.engine.begin(stages)
    }
}

} // verus!
