//! The protocol engine: the order of bus transactions, the polling of the
//! status register and the waits between polls.
//!
//! An operation is a script, a list of stages. The engine opens the stages
//! one after the other. It hands out the transaction to run, takes what the
//! bus answered as an event, and answers with the next step. It keeps
//! nothing of the chip's state between two operations: each wait reads the
//! status register anew.

use vstd::prelude::*;
use crate::channel::status_query;
use crate::channel::write_only;
use crate::channel::write_then_read;
use crate::channel::write_then_write;
use crate::channel::SegmentView;
use crate::channel::Transaction;
use crate::error::Error;
use crate::status::busy_in;
use crate::status::latch_in;
use crate::status::truncate;
use crate::status::Status;
use crate::status::BUSY;
use crate::status::WEL;

verus! {

/// The condition that a wait on the status register waits for.
#[derive(Clone, Copy, Debug)]
pub enum Readiness {
    /// The busy flag is clear.
    NotBusy,
    /// The busy flag and the write enable latch are both clear.
    Quiescent,
}

impl Readiness {
    /// Whether a raw status byte meets the condition.
    pub open spec fn holds(self, raw: u8) -> bool {
        match self {
            Readiness::NotBusy => !busy_in(raw),
            Readiness::Quiescent => raw & (BUSY | WEL) == 0,
        }
    }

    /// Whether a decoded status register meets the condition.
    pub fn reached(self, status: Status) -> (met: bool)
        ensures
            met == self.holds(status@),
    {
        let ghost flags: u8 = status@;
        assert(0x01u8 | 0x02u8 == 0x03u8) by (bit_vector);
        assert((flags & 0x01 == 0x01) == (flags & 0x01 != 0)) by (bit_vector);
        match self {
            Readiness::NotBusy => !status.contains(Status::busy()),
            Readiness::Quiescent => status.intersection(
                Status::busy().union(Status::wel()),
            ).is_empty(),
        }
    }
}

/// The bits without a meaning play no part in a condition: a raw status
/// byte meets it exactly where the decoded one does.
pub proof fn lemma_readiness_of_decoded(until: Readiness, raw: u8)
    ensures
        until.holds(truncate(raw)) == until.holds(raw),
{
    assert(0x01u8 | 0x02u8 == 0x03u8) by (bit_vector);
    assert(((raw & 0x9F) & 0x01 != 0) == (raw & 0x01 != 0) && ((raw & 0x9F) & 0x03 == 0) == (raw
        & 0x03 == 0)) by (bit_vector);
}

/// What a status probe reports of the register it read.
#[derive(Clone, Copy, Debug)]
pub enum Probe {
    /// The decoded register.
    Register,
    /// Whether the busy flag is set.
    Busy,
    /// Whether the write enable latch is set.
    Latch,
}

/// One stage of an operation.
#[derive(Debug)]
pub enum Stage {
    /// Read the status register until the condition holds. After a read that
    /// does not meet it, suspend for the given milliseconds before the next
    /// read, or read again at once where none are given.
    Settle(Readiness, Option<u32>),
    /// Send a command that has no response.
    Command(Vec<u8>),
    /// Send a frame and a payload in one transaction.
    Write(Vec<u8>, Vec<u8>),
    /// Read the status register; where the write enable latch is not set,
    /// read it once more and go on regardless.
    ConfirmLatch,
    /// Read the status register and end the operation with what it shows.
    Probe(Probe),
    /// Send an instruction, receive a number of bytes and end the operation
    /// with them, as they arrived.
    Query(Vec<u8>, usize),
}

/// A stage as contracts speak of it.
#[verifier::ext_equal]
pub enum StageView {
    /// See [`Stage::Settle`].
    Settle(Readiness, Option<u32>),
    /// See [`Stage::Command`].
    Command(Seq<u8>),
    /// See [`Stage::Write`].
    Write(Seq<u8>, Seq<u8>),
    /// See [`Stage::ConfirmLatch`].
    ConfirmLatch,
    /// See [`Stage::Probe`].
    Probe(Probe),
    /// See [`Stage::Query`].
    Query(Seq<u8>, usize),
}

impl View for Stage {
    type V = StageView;

    open spec fn view(&self) -> StageView {
        match self {
            Stage::Settle(until, pause) => StageView::Settle(*until, *pause),
            Stage::Command(bytes) => StageView::Command(bytes@),
            Stage::Write(frame, data) => StageView::Write(frame@, data@),
            Stage::ConfirmLatch => StageView::ConfirmLatch,
            Stage::Probe(probe) => StageView::Probe(*probe),
            Stage::Query(instruction, len) => StageView::Query(instruction@, *len),
        }
    }
}

/// A script as contracts speak of it: the views of its stages, in order.
pub open spec fn script_view(script: Seq<Stage>) -> Seq<StageView> {
    Seq::new(script.len(), |i: int| script[i]@)
}

/// What the engine is waiting for.
#[derive(Clone, Copy, Debug)]
pub enum Pending {
    /// Nothing: no operation is under way.
    Idle,
    /// The status read of a wait.
    Settling(Readiness, Option<u32>),
    /// The end of a suspension between two status reads of a wait.
    Pausing(Readiness, u32),
    /// The completion of a command or of a write.
    Sending,
    /// The status read that checks the write enable latch.
    Latching,
    /// The second status read, made where the latch was found not set.
    Reporting,
    /// The status read of a probe.
    Probing(Probe),
    /// The response to a query.
    Fetching(usize),
}

impl Pending {
    /// Whether a bus transaction is under way.
    pub open spec fn in_transfer(self) -> bool {
        !(self is Idle) && !(self is Pausing)
    }

    /// How many bytes the transaction under way receives.
    pub open spec fn expects(self) -> nat {
        match self {
            Pending::Settling(_, _) => 2,
            Pending::Latching => 2,
            Pending::Reporting => 2,
            Pending::Probing(_) => 2,
            Pending::Fetching(len) => len as nat,
            _ => 0,
        }
    }
}

impl StageView {
    /// The transaction that opens the stage.
    pub open spec fn request(self) -> Seq<SegmentView> {
        match self {
            StageView::Settle(_, _) => status_query(),
            StageView::Command(bytes) => write_only(bytes),
            StageView::Write(frame, data) => write_then_write(frame, data),
            StageView::ConfirmLatch => status_query(),
            StageView::Probe(_) => status_query(),
            StageView::Query(instruction, len) => write_then_read(instruction, len),
        }
    }

    /// What the engine waits for once the stage is open.
    pub open spec fn awaits(self) -> Pending {
        match self {
            StageView::Settle(until, pause) => Pending::Settling(until, pause),
            StageView::Command(_) => Pending::Sending,
            StageView::Write(_, _) => Pending::Sending,
            StageView::ConfirmLatch => Pending::Latching,
            StageView::Probe(probe) => Pending::Probing(probe),
            StageView::Query(_, len) => Pending::Fetching(len),
        }
    }
}

/// What the bus owner reports back to the engine.
#[derive(Debug)]
pub enum Event<E> {
    /// The transaction ran. The bytes are what its read segments received,
    /// in order; none where it had no read segment.
    Transferred(Vec<u8>),
    /// The transaction failed in the transport.
    Failed(E),
    /// The suspension is over.
    Resumed,
}

/// An event as contracts speak of it.
#[verifier::ext_equal]
pub enum EventView<E> {
    /// See [`Event::Transferred`].
    Transferred(Seq<u8>),
    /// See [`Event::Failed`].
    Failed(E),
    /// See [`Event::Resumed`].
    Resumed,
}

impl<E> View for Event<E> {
    type V = EventView<E>;

    open spec fn view(&self) -> EventView<E> {
        match self {
            Event::Transferred(bytes) => EventView::Transferred(bytes@),
            Event::Failed(e) => EventView::Failed(*e),
            Event::Resumed => EventView::Resumed,
        }
    }
}

/// What an operation hands back when it ends well.
#[derive(Debug)]
pub enum Output {
    /// Nothing but the news that it is done.
    Unit,
    /// The decoded status register.
    Status(Status),
    /// The answer of a probe for one flag.
    Flag(bool),
    /// The bytes that a query received.
    Bytes(Vec<u8>),
}

/// An output as contracts speak of it.
#[verifier::ext_equal]
pub enum OutputView {
    /// See [`Output::Unit`].
    Unit,
    /// See [`Output::Status`]; the flags as a byte.
    Status(u8),
    /// See [`Output::Flag`].
    Flag(bool),
    /// See [`Output::Bytes`].
    Bytes(Seq<u8>),
}

impl View for Output {
    type V = OutputView;

    open spec fn view(&self) -> OutputView {
        match self {
            Output::Unit => OutputView::Unit,
            Output::Status(status) => OutputView::Status(status@),
            Output::Flag(flag) => OutputView::Flag(*flag),
            Output::Bytes(bytes) => OutputView::Bytes(bytes@),
        }
    }
}

/// What the engine asks of the bus owner next.
#[derive(Debug)]
pub enum Step<E> {
    /// Run this transaction and report `Transferred` or `Failed`.
    Transfer(Transaction),
    /// Suspend for at least this many milliseconds and report `Resumed`.
    Suspend(u32),
    /// The operation is over, with this result.
    Done(Result<Output, Error<E>>),
}

/// A step as contracts speak of it.
#[verifier::ext_equal]
pub enum StepView<E> {
    /// See [`Step::Transfer`].
    Transfer(Seq<SegmentView>),
    /// See [`Step::Suspend`].
    Suspend(u32),
    /// See [`Step::Done`].
    Done(Result<OutputView, Error<E>>),
}

impl<E> View for Step<E> {
    type V = StepView<E>;

    open spec fn view(&self) -> StepView<E> {
        match self {
            Step::Transfer(tx) => StepView::Transfer(tx@),
            Step::Suspend(ms) => StepView::Suspend(*ms),
            Step::Done(Ok(output)) => StepView::Done(Ok(output@)),
            Step::Done(Err(e)) => StepView::Done(Err(*e)),
        }
    }
}

/// The state of an engine as contracts speak of it.
#[verifier::ext_equal]
pub struct EngineView {
    /// What the engine is waiting for.
    pub pending: Pending,
    /// The stages of the operation under way that are not yet open.
    pub rest: Seq<StageView>,
    /// Whether an operation has ended well on this engine. The engine sets
    /// it at the good end of any script, whatever the script holds. It means
    /// that the chip has been seen ready only on [`crate::FlashSpi`] and
    /// [`crate::AsyncFlashSpi`]: there the first script is the
    /// initialisation, which ends well on a status read that shows the chip
    /// ready, and no other operation starts before.
    pub ready: bool,
}

impl EngineView {
    /// Whether no operation is under way.
    pub open spec fn idle(self) -> bool {
        self.pending is Idle
    }

    /// The state in which no operation is under way.
    pub open spec fn at_rest(ready: bool) -> EngineView {
        EngineView { pending: Pending::Idle, rest: Seq::empty(), ready }
    }

    /// The state right after the first stage of `script` was opened.
    pub open spec fn opened(script: Seq<StageView>, ready: bool) -> EngineView {
        EngineView { pending: script[0].awaits(), rest: script.drop_first(), ready }
    }

    /// Whether `event` answers what the engine is waiting for: a transfer's
    /// outcome while a transaction is under way, with as many bytes as the
    /// transaction receives, or the end of a suspension while suspended.
    pub open spec fn accepts<E>(self, event: EventView<E>) -> bool {
        match event {
            EventView::Transferred(bytes) => self.pending.in_transfer() && bytes.len()
                == self.pending.expects(),
            EventView::Failed(_) => self.pending.in_transfer(),
            EventView::Resumed => self.pending is Pausing,
        }
    }

    /// Opens the next stage, or ends the operation where none is left.
    pub open spec fn advance<E>(self) -> (EngineView, StepView<E>) {
        if self.rest.len() == 0 {
            (EngineView::at_rest(true), StepView::Done(Ok(OutputView::Unit)))
        } else {
            (
                EngineView::opened(self.rest, self.ready),
                StepView::Transfer(self.rest[0].request()),
            )
        }
    }

    /// The state after `event` and the step that the engine answers with.
    /// It says nothing of an event that the state does not accept.
    pub open spec fn step<E>(self, event: EventView<E>) -> (EngineView, StepView<E>) {
        match event {
            EventView::Failed(e) => (
                EngineView::at_rest(self.ready),
                StepView::Done(Err(Error::Spi(e))),
            ),
            EventView::Resumed => match self.pending {
                Pending::Pausing(until, ms) => (
                    EngineView { pending: Pending::Settling(until, Some(ms)), ..self },
                    StepView::Transfer(status_query()),
                ),
                _ => arbitrary(),
            },
            EventView::Transferred(bytes) => match self.pending {
                Pending::Settling(until, pause) => if until.holds(bytes[1]) {
                    self.advance()
                } else {
                    match pause {
                        Some(ms) => (
                            EngineView { pending: Pending::Pausing(until, ms), ..self },
                            StepView::Suspend(ms),
                        ),
                        None => (self, StepView::Transfer(status_query())),
                    }
                },
                Pending::Sending => self.advance(),
                Pending::Latching => if latch_in(bytes[1]) {
                    self.advance()
                } else {
                    (
                        EngineView { pending: Pending::Reporting, ..self },
                        StepView::Transfer(status_query()),
                    )
                },
                Pending::Reporting => self.advance(),
                Pending::Probing(probe) => (
                    EngineView::at_rest(true),
                    StepView::Done(Ok(probed(probe, bytes[1]))),
                ),
                Pending::Fetching(_) => (
                    EngineView::at_rest(true),
                    StepView::Done(Ok(OutputView::Bytes(bytes))),
                ),
                _ => arbitrary(),
            },
        }
    }
}

/// What a probe reports of a raw status byte.
pub open spec fn probed(probe: Probe, raw: u8) -> OutputView {
    match probe {
        Probe::Register => OutputView::Status(truncate(raw)),
        Probe::Busy => OutputView::Flag(busy_in(raw)),
        Probe::Latch => OutputView::Flag(latch_in(raw)),
    }
}

/// The engine: what it waits for, and the stages still to open.
#[derive(Debug)]
pub struct Engine {
    pending: Pending,
    rest: Vec<Stage>,
    ready: bool,
}

impl View for Engine {
    type V = EngineView;

    closed spec fn view(&self) -> EngineView {
        EngineView { pending: self.pending, rest: script_view(self.rest@), ready: self.ready }
    }
}

impl Engine {
    /// An engine at rest on which no operation has ended well yet.
    pub fn new() -> (engine: Engine)
        ensures
            engine@ == EngineView::at_rest(false),
    {
        let engine = Engine { pending: Pending::Idle, rest: Vec::new(), ready: false };
        assert(engine@.rest =~= Seq::<StageView>::empty());
        engine
    }

    /// Whether no operation is under way.
    pub fn is_idle(&self) -> (idle: bool)
        ensures
            idle == self@.idle(),
    {
        match self.pending {
            Pending::Idle => true,
            _ => false,
        }
    }

    /// Whether an operation has ended well on this engine.
    pub fn is_ready(&self) -> (ready: bool)
        ensures
            ready == self@.ready,
    {
        self.ready
    }

    /// Whether `event` answers what the engine is waiting for.
    pub fn accepts<E>(&self, event: &Event<E>) -> (fits: bool)
        ensures
            fits == self@.accepts(event@),
    {
        match event {
            Event::Transferred(bytes) => match self.pending {
                Pending::Idle => false,
                Pending::Pausing(_, _) => false,
                Pending::Sending => bytes.len() == 0,
                Pending::Fetching(len) => bytes.len() == len,
                _ => bytes.len() == 2,
            },
            Event::Failed(_) => match self.pending {
                Pending::Idle => false,
                Pending::Pausing(_, _) => false,
                _ => true,
            },
            Event::Resumed => match self.pending {
                Pending::Pausing(_, _) => true,
                _ => false,
            },
        }
    }

    /// Whether the engine is waiting for its second look at the status
    /// register after a write enable command that did not set the latch.
    /// The reply to that read decides nothing; it is there to be reported.
    pub fn reporting(&self) -> (reporting: bool)
        ensures
            reporting == (self@.pending is Reporting),
    {
        match self.pending {
            Pending::Reporting => true,
            _ => false,
        }
    }

    /// Gives up the operation under way, if there is one, without a further
    /// transaction: the engine is at rest and as ready as it was. Whatever
    /// the chip was told stays told; the next operation starts with its own
    /// wait on the status register.
    pub fn abandon(&mut self)
        ensures
            final(self)@ == EngineView::at_rest(old(self)@.ready),
    {
        let ready = self.ready;
        self.rest_now(ready);
    }

    /// Starts an operation: opens the first stage of `script` and hands out
    /// its transaction.
    ///
    /// Any script may be started, on an engine that is ready or not, and the
    /// engine is ready once one has ended well, also one that never read the
    /// status register. That a ready engine has seen the chip ready holds
    /// only of [`crate::FlashSpi`] and [`crate::AsyncFlashSpi`], whose first
    /// script is the initialisation.
    pub fn begin(&mut self, script: Vec<Stage>) -> (first: Transaction)
        requires
            old(self)@.idle(),
            script@.len() > 0,
        ensures
            final(self)@ == EngineView::opened(script_view(script@), old(self)@.ready),
            first@ == script_view(script@)[0].request(),
    {
        self.rest = script;
        let stage = self.rest.remove(0);
        assert(script_view(self.rest@) =~= script_view(script@).drop_first());
        let (pending, first) = open(stage);
        self.pending = pending;
        first
    }

    /// Opens the next stage, or ends the operation where none is left.
    fn advance<E>(&mut self) -> (step: Step<E>)
        ensures
            (final(self)@, step@) == old(self)@.advance::<E>(),
    {
        if self.rest.len() == 0 {
            self.pending = Pending::Idle;
            self.ready = true;
            assert(self@ =~= EngineView::at_rest(true));
            Step::Done(Ok(Output::Unit))
        } else {
            let ghost before = script_view(self.rest@);
            let stage = self.rest.remove(0);
            assert(script_view(self.rest@) =~= before.drop_first());
            let (pending, tx) = open(stage);
            self.pending = pending;
            Step::Transfer(tx)
        }
    }

    /// Ends the operation under way.
    fn rest_now(&mut self, ready: bool)
        ensures
            final(self)@ == EngineView::at_rest(ready),
    {
        self.pending = Pending::Idle;
        self.rest = Vec::new();
        self.ready = ready;
        assert(self@ =~= EngineView::at_rest(ready));
    }

    /// Takes what the bus owner reports and answers with the next step.
    pub fn resume<E>(&mut self, event: Event<E>) -> (step: Step<E>)
        requires
            old(self)@.accepts(event@),
        ensures
            (final(self)@, step@) == old(self)@.step(event@),
    {
        match event {
            Event::Failed(e) => {
                let ready = self.ready;
                self.rest_now(ready);
                Step::Done(Err(Error::Spi(e)))
            },
            Event::Resumed => {
                match self.pending {
                    Pending::Pausing(until, ms) => {
                        self.pending = Pending::Settling(until, Some(ms));
                        Step::Transfer(Transaction::status_query())
                    },
                    _ => vstd::pervasive::unreached(),
                }
            },
            Event::Transferred(bytes) => {
                match self.pending {
                    Pending::Settling(until, pause) => {
                        let status = Status::from_bits_truncate(bytes[1]);
                        proof {
                            lemma_readiness_of_decoded(until, bytes[1]);
                        }
                        if until.reached(status) {
                            self.advance()
                        } else {
                            match pause {
                                Some(ms) => {
                                    self.pending = Pending::Pausing(until, ms);
                                    Step::Suspend(ms)
                                },
                                None => Step::Transfer(Transaction::status_query()),
                            }
                        }
                    },
                    Pending::Sending => self.advance(),
                    Pending::Latching => {
                        let status = Status::from_bits_truncate(bytes[1]);
                        proof {
                            crate::status::lemma_truncate_keeps_flags(bytes[1]);
                        }
                        if status.is_write_enabled() {
                            self.advance()
                        } else {
                            self.pending = Pending::Reporting;
                            Step::Transfer(Transaction::status_query())
                        }
                    },
                    Pending::Reporting => self.advance(),
                    Pending::Probing(probe) => {
                        let raw = bytes[1];
                        self.rest_now(true);
                        Step::Done(Ok(probe_status(probe, raw)))
                    },
                    Pending::Fetching(_) => {
                        self.rest_now(true);
                        Step::Done(Ok(Output::Bytes(bytes)))
                    },
                    _ => vstd::pervasive::unreached(),
                }
            },
        }
    }
}

/// Opens a stage: what the engine then waits for, and the transaction to run.
fn open(stage: Stage) -> (opened: (Pending, Transaction))
    ensures
        opened.0 == stage@.awaits(),
        opened.1@ == stage@.request(),
{
    match stage {
        Stage::Settle(until, pause) => (
            Pending::Settling(until, pause),
            Transaction::status_query(),
        ),
        Stage::Command(bytes) => (Pending::Sending, Transaction::command(bytes)),
        Stage::Write(frame, data) => (
            Pending::Sending,
            Transaction::command_with_payload(frame, data),
        ),
        Stage::ConfirmLatch => (Pending::Latching, Transaction::status_query()),
        Stage::Probe(probe) => (Pending::Probing(probe), Transaction::status_query()),
        Stage::Query(instruction, len) => (
            Pending::Fetching(len),
            Transaction::command_with_response(instruction, len),
        ),
    }
}

/// What a probe reports of a raw status byte.
fn probe_status(probe: Probe, raw: u8) -> (output: Output)
    ensures
        output@ == probed(probe, raw),
{
    let status = Status::from_bits_truncate(raw);
    proof {
        crate::status::lemma_truncate_keeps_flags(raw);
    }
    match probe {
        Probe::Register => Output::Status(status),
        Probe::Busy => Output::Flag(status.is_busy()),
        Probe::Latch => Output::Flag(status.is_write_enabled()),
    }
}

} // verus!
