//! What holds of whole runs of the engine: the steps it answers with, one
//! for each event, from a given state on.

use vstd::prelude::*;
use crate::channel::inbound_len;
use crate::channel::lemma_inbound_len_of_shapes;
use crate::channel::status_query;
use crate::channel::write_only;
use crate::channel::write_then_read;
use crate::channel::write_then_write;
use crate::channel::SegmentView;
use crate::engine::probed;
use crate::engine::EngineView;
use crate::engine::EventView;
use crate::engine::OutputView;
use crate::engine::Pending;
use crate::engine::Probe;
use crate::engine::Readiness;
use crate::engine::StageView;
use crate::engine::StepView;
use crate::opcode::addressed_frame;
use crate::opcode::bare_frame;
use crate::opcode::Opcode;
use crate::script;
use crate::status::busy_in;
use crate::status::latch_in;

verus! {

/// Whether each event, in turn, answers what the engine is then waiting for.
pub open spec fn admissible<E>(state: EngineView, events: Seq<EventView<E>>) -> bool
    decreases events.len(),
{
    events.len() == 0 || (state.accepts(events[0]) && admissible(
        state.step(events[0]).0,
        events.drop_first(),
    ))
}

/// The state after a run of events.
pub open spec fn state_after<E>(state: EngineView, events: Seq<EventView<E>>) -> EngineView
    decreases events.len(),
{
    if events.len() == 0 {
        state
    } else {
        state_after(state.step(events[0]).0, events.drop_first())
    }
}

/// The steps that the engine answers with, one for each event.
pub open spec fn steps<E>(state: EngineView, events: Seq<EventView<E>>) -> Seq<StepView<E>>
    decreases events.len(),
{
    if events.len() == 0 {
        Seq::empty()
    } else {
        seq![state.step(events[0]).1] + steps(state.step(events[0]).0, events.drop_first())
    }
}

/// Whether `tx` was handed out by one of the steps before step `j`.
pub open spec fn issued_before<E>(run: Seq<StepView<E>>, j: int, tx: Seq<SegmentView>) -> bool {
    exists|m: int| 0 <= m < j && #[trigger] run[m] == StepView::<E>::Transfer(tx)
}

/// Whether step `j` opens stage `i` of `rest` after every stage before it
/// has been opened by an earlier step.
pub open spec fn opened_in_turn<E>(
    rest: Seq<StageView>,
    run: Seq<StepView<E>>,
    j: int,
    i: int,
) -> bool {
    &&& 0 <= i < rest.len()
    &&& run[j] == StepView::<E>::Transfer(rest[i].request())
    &&& forall|k: int| 0 <= k < i ==> issued_before(run, j, #[trigger] rest[k].request())
}

/// How many of the steps ask for a suspension.
pub open spec fn suspensions<E>(run: Seq<StepView<E>>) -> nat
    decreases run.len(),
{
    if run.len() == 0 {
        0
    } else if run[0] is Suspend {
        1 + suspensions(run.drop_first())
    } else {
        suspensions(run.drop_first())
    }
}

/// The events of a wait that is met at the `last` status read only: each of
/// the `replies` before it is followed by the end of a suspension.
pub open spec fn paced_wait<E>(replies: Seq<Seq<u8>>, last: Seq<u8>) -> Seq<EventView<E>>
    decreases replies.len(),
{
    if replies.len() == 0 {
        seq![EventView::Transferred(last)]
    } else {
        seq![EventView::Transferred(replies[0]), EventView::Resumed] + paced_wait(
            replies.drop_first(),
            last,
        )
    }
}

/// There is one step for each event, and step `j` is the answer to event
/// `j` in the state that the events before it led to.
pub proof fn lemma_steps_index<E>(state: EngineView, events: Seq<EventView<E>>, j: int)
    requires
        0 <= j < events.len(),
    ensures
        steps(state, events).len() == events.len(),
        steps(state, events)[j] == state_after(state, events.take(j)).step(events[j]).1,
        admissible(state, events) ==> admissible(state, events.take(j)) && state_after(
            state,
            events.take(j),
        ).accepts(events[j]),
    decreases events.len(),
{
    lemma_steps_len(state, events);
    let next = state.step(events[0]).0;
    let tail = events.drop_first();
    if j == 0 {
        assert(events.take(0).len() == 0);
    } else {
        lemma_steps_index(next, tail, j - 1);
        lemma_steps_len(next, tail);
        assert(events.take(j).drop_first() =~= tail.take(j - 1));
        assert(events.take(j)[0] == events[0]);
        assert(tail[j - 1] == events[j]);
    }
}

/// There is one step for each event.
pub proof fn lemma_steps_len<E>(state: EngineView, events: Seq<EventView<E>>)
    ensures
        steps(state, events).len() == events.len(),
    decreases events.len(),
{
    if events.len() > 0 {
        lemma_steps_len(state.step(events[0]).0, events.drop_first());
    }
}

/// A failure of the transport ends the operation at once, with the
/// transport's error and no further transaction, and leaves the engine free
/// for the next operation.
pub proof fn lemma_failure_aborts<E>(state: EngineView, e: E)
    requires
        state.accepts(EventView::Failed(e)),
    ensures
        state.step(EventView::Failed(e)).1 == StepView::Done(Err(crate::error::Error::Spi(e))),
        state.step(EventView::Failed(e)).0 == EngineView::at_rest(state.ready),
{
}

/// A transaction that the engine hands out receives as many bytes as the
/// engine then waits for.
pub proof fn lemma_request_matches_expectation<E>(state: EngineView, event: EventView<E>)
    requires
        state.accepts(event),
    ensures
        state.step(event).1 matches StepView::Transfer(tx) ==> inbound_len(tx) == state.step(
            event,
        ).0.pending.expects(),
{
    lemma_inbound_len_of_shapes(bare_frame(Opcode::ReadStatus), Seq::empty(), 2);
    if state.rest.len() > 0 {
        match state.rest[0] {
            StageView::Command(bytes) => {
                lemma_inbound_len_of_shapes(bytes, Seq::empty(), 0);
            },
            StageView::Write(frame, data) => {
                lemma_inbound_len_of_shapes(frame, data, 0);
            },
            StageView::Query(instruction, len) => {
                lemma_inbound_len_of_shapes(instruction, Seq::empty(), len);
            },
            _ => {},
        }
    }
}

/// A status probe reports the register of the status read it made: the busy
/// probe is true exactly where bit 0 of the status byte is set, the latch
/// probe exactly where bit 1 is set, and the register probe hands on the
/// byte without bits 5 and 6.
pub proof fn lemma_probe_reports_last_status<E>(probe: Probe, reply: Seq<u8>)
    requires
        reply.len() == 2,
    ensures
        EngineView::opened(script::probe(probe), true).accepts(EventView::<E>::Transferred(reply)),
        EngineView::opened(script::probe(probe), true).step(EventView::<E>::Transferred(reply))
            == (EngineView::at_rest(true), StepView::<E>::Done(Ok(probed(probe, reply[1])))),
        probed(Probe::Busy, reply[1]) == OutputView::Flag(reply[1] & 0x01 == 0x01),
        probed(Probe::Latch, reply[1]) == OutputView::Flag(reply[1] & 0x02 == 0x02),
        probed(Probe::Register, reply[1]) == OutputView::Status(reply[1] & 0x9F),
{
    crate::status::lemma_truncate_keeps_flags(reply[1]);
}

/// A read on a chip that is not busy sends the instruction with the
/// address field that a page program to the same address carries its data
/// to, and ends with exactly the bytes that the chip served.
pub proof fn lemma_read_returns_what_was_served<E>(
    addr: u32,
    len: usize,
    data: Seq<u8>,
    idle: Seq<u8>,
    served: Seq<u8>,
)
    requires
        idle.len() == 2,
        !busy_in(idle[1]),
        served.len() == len,
    ensures
        ({
            let start = EngineView::opened(script::read(addr, len), true);
            let events = seq![EventView::<E>::Transferred(idle), EventView::<E>::Transferred(served)];
            &&& admissible(start, events)
            &&& steps(start, events) == seq![
                StepView::<E>::Transfer(
                    write_then_read(addressed_frame(Opcode::Read, addr), len),
                ),
                StepView::<E>::Done(Ok(OutputView::Bytes(served))),
            ]
            &&& state_after(start, events) == EngineView::at_rest(true)
        }),
        script::page_program(addr, data)[3].request() == write_then_write(
            addressed_frame(Opcode::PageProg, addr),
            data,
        ),
        addressed_frame(Opcode::Read, addr).subrange(1, 4) == addressed_frame(
            Opcode::PageProg,
            addr,
        ).subrange(1, 4),
{
    let start = EngineView::opened(script::read(addr, len), true);
    let first = EventView::<E>::Transferred(idle);
    let second = EventView::<E>::Transferred(served);
    assert(seq![first, second] =~= seq![first] + seq![second]);
    lemma_run_cons(start, first, seq![second]);
    lemma_run_single(start.step(first).0, second);
    assert(addressed_frame(Opcode::Read, addr).subrange(1, 4) =~= addressed_frame(
        Opcode::PageProg,
        addr,
    ).subrange(1, 4));
}

/// Stages are opened in the order of the script. Where a step hands out a
/// transaction that is not a status read, that transaction opens a stage of
/// the script, and the transaction of every stage before that one was
/// handed out by an earlier step.
pub proof fn lemma_stages_open_in_order<E>(
    state: EngineView,
    events: Seq<EventView<E>>,
    j: int,
) -> (i: int)
    requires
        admissible(state, events),
        0 <= j < events.len(),
        steps(state, events)[j] is Transfer,
        steps(state, events)[j]->Transfer_0 != status_query(),
    ensures
        opened_in_turn(state.rest, steps(state, events), j, i),
    decreases events.len(),
{
    let first = state.step(events[0]).1;
    let next = state.step(events[0]).0;
    let tail = events.drop_first();
    let run = steps(state, events);
    let later = steps(next, tail);
    assert(run == seq![first] + later);
    lemma_steps_len(next, tail);
    if j == 0 {
        assert(run[0] == first);
        assert(state.rest.len() > 0);
        assert(first == StepView::<E>::Transfer(state.rest[0].request()));
        0
    } else {
        assert(run[j] == later[j - 1]);
        let i1 = lemma_stages_open_in_order(next, tail, j - 1);
        assert(next.rest.len() > 0);
        if next.rest == state.rest {
            assert forall|k: int| 0 <= k < i1 implies issued_before(
                run,
                j,
                #[trigger] state.rest[k].request(),
            ) by {
                let tx = next.rest[k].request();
                assert(issued_before(later, j - 1, tx));
                let m = choose|m: int| 0 <= m < j - 1 && #[trigger] later[m] == StepView::<
                    E,
                >::Transfer(tx);
                assert(run[m + 1] == later[m]);
            }
            i1
        } else {
            assert(next.rest == state.rest.drop_first());
            assert(first == StepView::<E>::Transfer(state.rest[0].request()));
            assert forall|k: int| 0 <= k < i1 + 1 implies issued_before(
                run,
                j,
                #[trigger] state.rest[k].request(),
            ) by {
                if k == 0 {
                    assert(run[0] == first);
                } else {
                    let tx = next.rest[k - 1].request();
                    assert(tx == state.rest[k].request());
                    assert(issued_before(later, j - 1, tx));
                    let m = choose|m: int| 0 <= m < j - 1 && #[trigger] later[m] == StepView::<
                        E,
                    >::Transfer(tx);
                    assert(run[m + 1] == later[m]);
                }
            }
            assert(next.rest[i1] == state.rest[i1 + 1]);
            i1 + 1
        }
    }
}

/// Whenever a page program hands out the transaction that carries the data,
/// it has handed out the write enable command before, in the same run.
pub proof fn lemma_write_enable_precedes_page_program<E>(
    addr: u32,
    data: Seq<u8>,
    events: Seq<EventView<E>>,
    j: int,
)
    requires
        admissible(EngineView::opened(script::page_program(addr, data), true), events),
        0 <= j < events.len(),
        steps(EngineView::opened(script::page_program(addr, data), true), events)[j]
            == StepView::<E>::Transfer(
            write_then_write(addressed_frame(Opcode::PageProg, addr), data),
        ),
    ensures
        issued_before(
            steps(EngineView::opened(script::page_program(addr, data), true), events),
            j,
            write_only(bare_frame(Opcode::WriteEnable)),
        ),
{
    let state = EngineView::opened(script::page_program(addr, data), true);
    let tx = write_then_write(addressed_frame(Opcode::PageProg, addr), data);
    assert(tx[1] != status_query()[1]);
    let i = lemma_stages_open_in_order(state, events, j);
    assert(state.rest[0] == script::enable_write());
    assert(state.rest[1] == StageView::ConfirmLatch);
    assert(state.rest[0].request().len() == 1);
    assert(tx.len() == 2);
    assert(state.rest[1].request() == status_query());
    assert(i == 2);
}

/// Whenever a sector erase hands out the erase command, it has handed out
/// the write enable command before, in the same run.
pub proof fn lemma_write_enable_precedes_sector_erase<E>(
    addr: u32,
    events: Seq<EventView<E>>,
    j: int,
)
    requires
        admissible(EngineView::opened(script::sector_erase(addr), true), events),
        0 <= j < events.len(),
        steps(EngineView::opened(script::sector_erase(addr), true), events)[j] == StepView::<
            E,
        >::Transfer(write_only(addressed_frame(Opcode::SectorErase, addr))),
    ensures
        issued_before(
            steps(EngineView::opened(script::sector_erase(addr), true), events),
            j,
            write_only(bare_frame(Opcode::WriteEnable)),
        ),
{
    let state = EngineView::opened(script::sector_erase(addr), true);
    let tx = write_only(addressed_frame(Opcode::SectorErase, addr));
    assert(tx.len() != status_query().len());
    let i = lemma_stages_open_in_order(state, events, j);
    assert(state.rest[0] == script::enable_write());
    assert(state.rest[0].request()[0] == SegmentView::Write(bare_frame(Opcode::WriteEnable)));
    assert(tx[0] == SegmentView::Write(addressed_frame(Opcode::SectorErase, addr)));
    assert(bare_frame(Opcode::WriteEnable).len() == 1);
    assert(addressed_frame(Opcode::SectorErase, addr).len() == 4);
    assert(i == 1);
}

/// Whether the engine is in a wait for `until`: at a status read of that
/// wait, or suspended between two of them.
pub open spec fn waiting_on(state: EngineView, until: Readiness) -> bool {
    match state.pending {
        Pending::Settling(condition, _) => condition == until,
        Pending::Pausing(condition, _) => condition == until,
        _ => false,
    }
}

/// A run that starts with `event` is the answer to it, followed by the run
/// of the other events from the state that it led to.
pub proof fn lemma_run_cons<E>(state: EngineView, event: EventView<E>, tail: Seq<EventView<E>>)
    ensures
        steps(state, seq![event] + tail) == seq![state.step(event).1] + steps(
            state.step(event).0,
            tail,
        ),
        state_after(state, seq![event] + tail) == state_after(state.step(event).0, tail),
        admissible(state, seq![event] + tail) == (state.accepts(event) && admissible(
            state.step(event).0,
            tail,
        )),
{
    let events = seq![event] + tail;
    assert(events.drop_first() =~= tail);
    assert(events[0] == event);
}

/// The suspensions of a run are those of its first step and those of the rest.
pub proof fn lemma_suspensions_cons<E>(first: StepView<E>, rest: Seq<StepView<E>>)
    ensures
        suspensions(seq![first] + rest) == suspensions(rest) + (if first is Suspend {
            1nat
        } else {
            0nat
        }),
{
    let run = seq![first] + rest;
    assert(run.drop_first() =~= rest);
    assert(run[0] == first);
}

/// The chip is seen ready by an operation that ends well, and by nothing
/// else; once seen ready it stays so.
pub proof fn lemma_ready_only_after_success<E>(state: EngineView, event: EventView<E>)
    requires
        state.accepts(event),
    ensures
        state.step(event).0.ready == (state.ready || state.step(event).1 matches StepView::Done(
            Ok(_),
        )),
        state.step(event).1 is Done <==> state.step(event).0.idle(),
{
}

/// A wait that nothing follows ends well only on a status read that meets
/// its condition, and that step is the last of the run.
pub proof fn lemma_wait_ends_only_when_met<E>(
    state: EngineView,
    until: Readiness,
    events: Seq<EventView<E>>,
    j: int,
)
    requires
        waiting_on(state, until),
        state.rest.len() == 0,
        admissible(state, events),
        0 <= j < events.len(),
        steps(state, events)[j] matches StepView::Done(Ok(_)),
    ensures
        events[j] matches EventView::Transferred(reply) && until.holds(reply[1]),
        j == events.len() - 1,
    decreases events.len(),
{
    let first = state.step(events[0]).1;
    let next = state.step(events[0]).0;
    let tail = events.drop_first();
    reveal_with_fuel(admissible, 2);
    lemma_steps_len(next, tail);
    assert(steps(state, events) == seq![first] + steps(next, tail));
    if j == 0 {
        assert(steps(state, events)[0] == first);
        assert(next.idle());
        if tail.len() > 0 {
            assert(next.accepts(tail[0]));
        }
    } else {
        assert(steps(state, events)[j] == steps(next, tail)[j - 1]);
        assert(next.accepts(tail[0]));
        lemma_wait_ends_only_when_met(next, until, tail, j - 1);
        assert(tail[j - 1] == events[j]);
    }
}

/// As long as no status read meets its condition and the transport does
/// not fail, a wait goes on: no step ends the operation, whatever the
/// number of status reads, and the engine is still in the same wait.
pub proof fn lemma_wait_goes_on_while_unmet<E>(
    state: EngineView,
    until: Readiness,
    events: Seq<EventView<E>>,
)
    requires
        waiting_on(state, until),
        admissible(state, events),
        forall|k: int|
            0 <= k < events.len() ==> match #[trigger] events[k] {
                EventView::Transferred(reply) => !until.holds(reply[1]),
                EventView::Failed(_) => false,
                EventView::Resumed => true,
            },
    ensures
        forall|j: int| 0 <= j < events.len() ==> !(#[trigger] steps(state, events)[j] is Done),
        waiting_on(state_after(state, events), until),
        state_after(state, events).rest == state.rest,
        state_after(state, events).ready == state.ready,
    decreases events.len(),
{
    if events.len() > 0 {
        let first = state.step(events[0]).1;
        let next = state.step(events[0]).0;
        let tail = events.drop_first();
        assert(steps(state, events) == seq![first] + steps(next, tail));
        assert(!(first is Done));
        assert forall|k: int| 0 <= k < tail.len() implies match #[trigger] tail[k] {
            EventView::Transferred(reply) => !until.holds(reply[1]),
            EventView::Failed(_) => false,
            EventView::Resumed => true,
        } by {
            assert(tail[k] == events[k + 1]);
        }
        lemma_wait_goes_on_while_unmet(next, until, tail);
        lemma_steps_len(next, tail);
        assert forall|j: int| 0 <= j < events.len() implies !(#[trigger] steps(
            state,
            events,
        )[j] is Done) by {
            if j > 0 {
                assert(steps(state, events)[j] == steps(next, tail)[j - 1]);
            }
        }
    }
}

/// The state right after the initialisation was started, of the suspending
/// engine or of the blocking one.
pub open spec fn initialising(suspending: bool) -> EngineView {
    EngineView::opened(
        if suspending {
            script::init_suspending()
        } else {
            script::init_blocking()
        },
        false,
    )
}

/// The blocking engine's initialisation ends well only on a status read
/// that shows the busy flag and the write enable latch both clear; the
/// suspending engine's, only on one that shows the busy flag clear.
pub proof fn lemma_init_ends_only_when_ready<E>(
    suspending: bool,
    events: Seq<EventView<E>>,
    j: int,
)
    requires
        admissible(
            initialising(suspending),
            events,
        ),
        0 <= j < events.len(),
        steps(
            initialising(suspending),
            events,
        )[j] matches StepView::Done(Ok(_)),
    ensures
        events[j] matches EventView::Transferred(reply) && !busy_in(reply[1]) && (!suspending
            ==> !latch_in(reply[1])),
        j == events.len() - 1,
{
    let until = if suspending {
        Readiness::NotBusy
    } else {
        Readiness::Quiescent
    };
    let state = initialising(suspending);
    lemma_wait_ends_only_when_met(state, until, events, j);
    let reply = events[j]->Transferred_0;
    let raw = reply[1];
    assert((raw & (0x01u8 | 0x02u8) == 0) ==> (raw & 0x01 == 0 && raw & 0x02 == 0))
        by (bit_vector);
}

/// While the chip reports itself busy, the initialisation of either engine
/// does not end: after any number of status reads that show the busy flag
/// set, the engine still waits and the chip has not been seen ready.
pub proof fn lemma_init_goes_on_while_busy<E>(suspending: bool, events: Seq<EventView<E>>)
    requires
        admissible(
            initialising(suspending),
            events,
        ),
        forall|k: int|
            0 <= k < events.len() ==> match #[trigger] events[k] {
                EventView::Transferred(reply) => busy_in(reply[1]),
                EventView::Failed(_) => false,
                EventView::Resumed => true,
            },
    ensures
        forall|j: int|
            0 <= j < events.len() ==> !(#[trigger] steps(
                initialising(suspending),
                events,
            )[j] is Done),
        !state_after(
            initialising(suspending),
            events,
        ).ready,
        !state_after(
            initialising(suspending),
            events,
        ).idle(),
{
    let until = if suspending {
        Readiness::NotBusy
    } else {
        Readiness::Quiescent
    };
    let state = initialising(suspending);
    assert forall|k: int| 0 <= k < events.len() implies match #[trigger] events[k] {
        EventView::Transferred(reply) => !until.holds(reply[1]),
        EventView::Failed(_) => false,
        EventView::Resumed => true,
    } by {
        match events[k] {
            EventView::Transferred(reply) => {
                let raw = reply[1];
                assert((raw & 0x01 != 0) ==> (raw & (0x01u8 | 0x02u8) != 0)) by (bit_vector);
            },
            _ => {},
        }
    }
    lemma_wait_goes_on_while_unmet(state, until, events);
}

/// A wait with suspensions asks for exactly one suspension for each status
/// read that does not meet its condition, each of the length that the wait
/// was given, and moves on at the first status read that meets it.
pub proof fn lemma_paced_wait_suspends_once_per_unmet_read<E>(
    state: EngineView,
    until: Readiness,
    ms: u32,
    replies: Seq<Seq<u8>>,
    last: Seq<u8>,
)
    requires
        state.pending == Pending::Settling(until, Some(ms)),
        forall|i: int|
            0 <= i < replies.len() ==> (#[trigger] replies[i]).len() == 2 && !until.holds(
                replies[i][1],
            ),
        last.len() == 2,
        until.holds(last[1]),
    ensures
        admissible(state, paced_wait::<E>(replies, last)),
        steps(state, paced_wait::<E>(replies, last)).len() == 2 * replies.len() + 1,
        suspensions(steps(state, paced_wait::<E>(replies, last))) == replies.len(),
        forall|j: int|
            0 <= j < 2 * replies.len() ==> #[trigger] steps(
                state,
                paced_wait::<E>(replies, last),
            )[j] == (if j % 2 == 0 {
                StepView::<E>::Suspend(ms)
            } else {
                StepView::<E>::Transfer(status_query())
            }),
        steps(state, paced_wait::<E>(replies, last)).last() == state.advance::<E>().1,
        state_after(state, paced_wait::<E>(replies, last)) == state.advance::<E>().0,
    decreases replies.len(),
{
    let events = paced_wait::<E>(replies, last);
    if replies.len() == 0 {
        let only = EventView::<E>::Transferred(last);
        assert(events =~= seq![only] + Seq::empty());
        lemma_run_cons(state, only, Seq::empty());
        let next = state.step(only).0;
        assert(steps(next, Seq::<EventView<E>>::empty()) =~= Seq::<StepView<E>>::empty());
        let run = steps(state, events);
        assert(run =~= seq![state.advance::<E>().1]);
        lemma_suspensions_cons(state.advance::<E>().1, Seq::empty());
        assert(run =~= seq![state.advance::<E>().1] + Seq::empty());
        assert(suspensions(Seq::<StepView<E>>::empty()) == 0);
    } else {
        let unmet = EventView::<E>::Transferred(replies[0]);
        let resumed = EventView::<E>::Resumed;
        let others = paced_wait::<E>(replies.drop_first(), last);
        assert(events =~= seq![unmet] + (seq![resumed] + others));
        let paused = state.step(unmet).0;
        assert(paused == EngineView { pending: Pending::Pausing(until, ms), ..state });
        assert(paused.step(resumed).0 == state);
        lemma_run_cons(state, unmet, seq![resumed] + others);
        lemma_run_cons(paused, resumed, others);
        assert forall|i: int| 0 <= i < replies.drop_first().len() implies (
        #[trigger] replies.drop_first()[i]).len() == 2 && !until.holds(
            replies.drop_first()[i][1],
        ) by {
            assert(replies.drop_first()[i] == replies[i + 1]);
        }
        lemma_paced_wait_suspends_once_per_unmet_read::<E>(
            state,
            until,
            ms,
            replies.drop_first(),
            last,
        );
        let inner = steps(state, others);
        let run = steps(state, events);
        let suspend = StepView::<E>::Suspend(ms);
        let poll = StepView::<E>::Transfer(status_query());
        assert(run == seq![suspend] + (seq![poll] + inner));
        lemma_suspensions_cons(suspend, seq![poll] + inner);
        lemma_suspensions_cons(poll, inner);
        assert forall|j: int| 0 <= j < 2 * replies.len() implies #[trigger] run[j] == (if j % 2
            == 0 {
            suspend
        } else {
            poll
        }) by {
            if j >= 2 {
                assert(run[j] == inner[j - 2]);
            }
        }
        assert(run.last() == inner.last());
    }
}

/// The chip erase of the suspending engine, on a chip that is not busy
/// before the command and reports itself busy at the first `replies.len()`
/// status reads after it: the engine hands out the write enable command and
/// the erase command, then asks for exactly one suspension of 100 ms for
/// each of those status reads, and ends the operation at the status read
/// that shows the busy flag clear.
pub proof fn lemma_chip_erase_suspends_once_per_busy_poll<E>(
    before: Seq<u8>,
    replies: Seq<Seq<u8>>,
    last: Seq<u8>,
)
    requires
        before.len() == 2,
        !busy_in(before[1]),
        forall|i: int|
            0 <= i < replies.len() ==> (#[trigger] replies[i]).len() == 2 && busy_in(
                replies[i][1],
            ),
        last.len() == 2,
        !busy_in(last[1]),
    ensures
        ({
            let start = EngineView::opened(script::chip_erase_suspending(), true);
            let events = seq![
                EventView::<E>::Transferred(before),
                EventView::<E>::Transferred(Seq::empty()),
                EventView::<E>::Transferred(Seq::empty()),
            ] + paced_wait::<E>(replies, last);
            let run = steps(start, events);
            &&& admissible(start, events)
            &&& run.len() == 2 * replies.len() + 4
            &&& run[0] == StepView::<E>::Transfer(write_only(bare_frame(Opcode::WriteEnable)))
            &&& run[1] == StepView::<E>::Transfer(write_only(bare_frame(Opcode::ChipErase)))
            &&& run[2] == StepView::<E>::Transfer(status_query())
            &&& suspensions(run) == replies.len()
            &&& forall|j: int|
                0 <= j < 2 * replies.len() ==> #[trigger] run[j + 3] == (if j % 2 == 0 {
                    StepView::<E>::Suspend(script::ERASE_PAUSE_MS)
                } else {
                    StepView::<E>::Transfer(status_query())
                })
            &&& run.last() == StepView::<E>::Done(Ok(OutputView::Unit))
            &&& state_after(start, events) == EngineView::at_rest(true)
        }),
{
    let start = EngineView::opened(script::chip_erase_suspending(), true);
    let idle = EventView::<E>::Transferred(before);
    let sent = EventView::<E>::Transferred(Seq::empty());
    let wait = paced_wait::<E>(replies, last);
    let events = seq![idle, sent, sent] + wait;
    assert(events =~= seq![idle] + (seq![sent] + (seq![sent] + wait)));
    let enabling = start.step(idle).0;
    let erasing = enabling.step(sent).0;
    let settling = erasing.step(sent).0;
    assert(start.rest =~= seq![
        script::enable_write(),
        StageView::Command(bare_frame(Opcode::ChipErase)),
        script::until_done_paced(script::ERASE_PAUSE_MS),
    ]);
    assert(enabling.rest =~= seq![
        StageView::Command(bare_frame(Opcode::ChipErase)),
        script::until_done_paced(script::ERASE_PAUSE_MS),
    ]);
    assert(erasing.rest =~= seq![script::until_done_paced(script::ERASE_PAUSE_MS)]);
    assert(settling.rest =~= Seq::<StageView>::empty());
    assert(settling.pending == Pending::Settling(
        Readiness::NotBusy,
        Some(script::ERASE_PAUSE_MS),
    ));
    lemma_run_cons(start, idle, seq![sent] + (seq![sent] + wait));
    lemma_run_cons(enabling, sent, seq![sent] + wait);
    lemma_run_cons(erasing, sent, wait);
    lemma_paced_wait_suspends_once_per_unmet_read::<E>(
        settling,
        Readiness::NotBusy,
        script::ERASE_PAUSE_MS,
        replies,
        last,
    );
    let inner = steps(settling, wait);
    let run = steps(start, events);
    let enable = StepView::<E>::Transfer(write_only(bare_frame(Opcode::WriteEnable)));
    let erase = StepView::<E>::Transfer(write_only(bare_frame(Opcode::ChipErase)));
    let poll = StepView::<E>::Transfer(status_query());
    assert(run == seq![enable] + (seq![erase] + (seq![poll] + inner)));
    lemma_suspensions_cons(enable, seq![erase] + (seq![poll] + inner));
    lemma_suspensions_cons(erase, seq![poll] + inner);
    lemma_suspensions_cons(poll, inner);
    assert forall|j: int| 0 <= j < 2 * replies.len() implies #[trigger] run[j + 3] == (if j % 2
        == 0 {
        StepView::<E>::Suspend(script::ERASE_PAUSE_MS)
    } else {
        StepView::<E>::Transfer(status_query())
    }) by {
        assert(run[j + 3] == inner[j]);
    }
    assert(run.last() == inner.last());
}

/// Whether a stage waits without suspensions, or does not wait at all.
pub open spec fn unpaced(stage: StageView) -> bool {
    !(stage matches StageView::Settle(_, Some(_)))
}

/// Whether nothing that the engine is at, or has still to open, asks for a
/// suspension.
pub open spec fn tight(state: EngineView) -> bool {
    &&& !(state.pending is Pausing)
    &&& !(state.pending matches Pending::Settling(_, Some(_)))
    &&& forall|i: int| 0 <= i < state.rest.len() ==> unpaced(#[trigger] state.rest[i])
}

/// An operation whose waits are all without a pause never asks for a
/// suspension: each of its waits is one status read right after the other.
pub proof fn lemma_tight_run_never_suspends<E>(state: EngineView, events: Seq<EventView<E>>)
    requires
        tight(state),
        admissible(state, events),
    ensures
        forall|j: int| 0 <= j < events.len() ==> !(#[trigger] steps(state, events)[j] is Suspend),
        tight(state_after(state, events)),
    decreases events.len(),
{
    if events.len() > 0 {
        let first = state.step(events[0]).1;
        let next = state.step(events[0]).0;
        let tail = events.drop_first();
        assert(steps(state, events) == seq![first] + steps(next, tail));
        if state.rest.len() > 0 {
            assert(unpaced(state.rest[0]));
            assert forall|i: int| 0 <= i < state.rest.drop_first().len() implies unpaced(
                #[trigger] state.rest.drop_first()[i],
            ) by {
                assert(state.rest.drop_first()[i] == state.rest[i + 1]);
            }
        }
        assert(tight(next));
        lemma_tight_run_never_suspends(next, tail);
        lemma_steps_len(next, tail);
        assert forall|j: int| 0 <= j < events.len() implies !(#[trigger] steps(
            state,
            events,
        )[j] is Suspend) by {
            if j > 0 {
                assert(steps(state, events)[j] == steps(next, tail)[j - 1]);
            }
        }
    }
}

/// Every operation of the blocking engine waits without a pause, and so do
/// the operations that the suspending engine shares with it: all but the
/// suspending engine's initialisation and chip erase.
pub proof fn lemma_operations_without_pause(addr: u32, len: usize, data: Seq<u8>, probe: Probe)
    ensures
        tight(initialising(false)),
        tight(EngineView::opened(script::read(addr, len), true)),
        tight(EngineView::opened(script::sector_erase(addr), true)),
        tight(EngineView::opened(script::page_program(addr, data), true)),
        tight(EngineView::opened(script::chip_erase_blocking(), true)),
        tight(EngineView::opened(script::software_reset(), true)),
        tight(EngineView::opened(script::probe(probe), true)),
        tight(EngineView::opened(script::read_manufacturer_device_id(), true)),
        tight(EngineView::opened(script::read_jedec_id(), true)),
        tight(EngineView::opened(script::wait_done(), true)),
        tight(EngineView::opened(script::write_enable(), true)),
{
}

/// An operation fails only where the transport failed, and then with the
/// transport's own error.
pub proof fn lemma_only_the_transport_fails<E>(state: EngineView, event: EventView<E>)
    requires
        state.accepts(event),
    ensures
        state.step(event).1 matches StepView::Done(Err(error)) ==> event matches EventView::Failed(
            e,
        ) && error == crate::error::Error::Spi(e),
        event is Failed ==> state.step(event).1 matches StepView::Done(Err(_)),
{
}

/// The run of one event is the answer to it.
pub proof fn lemma_run_single<E>(state: EngineView, event: EventView<E>)
    ensures
        steps(state, seq![event]) == seq![state.step(event).1],
        state_after(state, seq![event]) == state.step(event).0,
        admissible(state, seq![event]) == state.accepts(event),
{
    assert(seq![event] =~= seq![event] + Seq::<EventView<E>>::empty());
    lemma_run_cons(state, event, Seq::empty());
    assert(steps(state.step(event).0, Seq::<EventView<E>>::empty()) =~= Seq::<
        StepView<E>,
    >::empty());
}

/// A sector erase and the blocking engine's chip erase, on a chip that is
/// not busy: the write enable command, the erase command, and the end. No
/// status read follows the erase command: the erase is not waited for.
pub proof fn lemma_erase_ends_once_sent<E>(addr: u32, idle: Seq<u8>)
    requires
        idle.len() == 2,
        !busy_in(idle[1]),
    ensures
        ({
            let events = seq![
                EventView::<E>::Transferred(idle),
                EventView::<E>::Transferred(Seq::empty()),
                EventView::<E>::Transferred(Seq::empty()),
            ];
            let sector = EngineView::opened(script::sector_erase(addr), true);
            let chip = EngineView::opened(script::chip_erase_blocking(), true);
            &&& admissible(sector, events)
            &&& steps(sector, events) == seq![
                StepView::<E>::Transfer(write_only(bare_frame(Opcode::WriteEnable))),
                StepView::<E>::Transfer(write_only(addressed_frame(Opcode::SectorErase, addr))),
                StepView::<E>::Done(Ok(OutputView::Unit)),
            ]
            &&& state_after(sector, events) == EngineView::at_rest(true)
            &&& admissible(chip, events)
            &&& steps(chip, events) == seq![
                StepView::<E>::Transfer(write_only(bare_frame(Opcode::WriteEnable))),
                StepView::<E>::Transfer(write_only(bare_frame(Opcode::ChipErase))),
                StepView::<E>::Done(Ok(OutputView::Unit)),
            ]
            &&& state_after(chip, events) == EngineView::at_rest(true)
        }),
{
    let first = EventView::<E>::Transferred(idle);
    let sent = EventView::<E>::Transferred(Seq::empty());
    assert(seq![first, sent, sent] =~= seq![first] + seq![sent, sent]);
    assert(seq![sent, sent] =~= seq![sent] + seq![sent]);
    let sector = EngineView::opened(script::sector_erase(addr), true);
    lemma_run_cons(sector, first, seq![sent, sent]);
    lemma_run_cons(sector.step(first).0, sent, seq![sent]);
    lemma_run_single(sector.step(first).0.step(sent).0, sent);
    let chip = EngineView::opened(script::chip_erase_blocking(), true);
    lemma_run_cons(chip, first, seq![sent, sent]);
    lemma_run_cons(chip.step(first).0, sent, seq![sent]);
    lemma_run_single(chip.step(first).0.step(sent).0, sent);
}

/// A page program on a chip that is not busy sends the data whatever the
/// look at the latch shows. Where the latch is set, the data follows the
/// look at once; where it is not, one more status read comes between them,
/// and its result changes nothing.
pub proof fn lemma_page_program_sends_data_whatever_the_latch<E>(
    addr: u32,
    data: Seq<u8>,
    idle: Seq<u8>,
    look: Seq<u8>,
    again: Seq<u8>,
)
    requires
        idle.len() == 2,
        !busy_in(idle[1]),
        look.len() == 2,
        again.len() == 2,
    ensures
        ({
            let start = EngineView::opened(script::page_program(addr, data), true);
            let enable = StepView::<E>::Transfer(write_only(bare_frame(Opcode::WriteEnable)));
            let poll = StepView::<E>::Transfer(status_query());
            let program = StepView::<E>::Transfer(
                write_then_write(addressed_frame(Opcode::PageProg, addr), data),
            );
            let done = StepView::<E>::Done(Ok(OutputView::Unit));
            let latched = seq![
                EventView::<E>::Transferred(idle),
                EventView::<E>::Transferred(Seq::empty()),
                EventView::<E>::Transferred(look),
                EventView::<E>::Transferred(Seq::empty()),
            ];
            let unlatched = seq![
                EventView::<E>::Transferred(idle),
                EventView::<E>::Transferred(Seq::empty()),
                EventView::<E>::Transferred(look),
                EventView::<E>::Transferred(again),
                EventView::<E>::Transferred(Seq::empty()),
            ];
            &&& latch_in(look[1]) ==> {
                &&& admissible(start, latched)
                &&& steps(start, latched) == seq![enable, poll, program, done]
                &&& state_after(start, latched) == EngineView::at_rest(true)
            }
            &&& !latch_in(look[1]) ==> {
                &&& admissible(start, unlatched)
                &&& steps(start, unlatched) == seq![enable, poll, poll, program, done]
                &&& state_after(start, unlatched) == EngineView::at_rest(true)
            }
        }),
{
    let start = EngineView::opened(script::page_program(addr, data), true);
    let first = EventView::<E>::Transferred(idle);
    let sent = EventView::<E>::Transferred(Seq::empty());
    let looked = EventView::<E>::Transferred(look);
    let reported = EventView::<E>::Transferred(again);
    let enabling = start.step(first).0;
    let latching = enabling.step(sent).0;
    let after_look = latching.step(looked).0;
    if latch_in(look[1]) {
        assert(seq![first, sent, looked, sent] =~= seq![first] + seq![sent, looked, sent]);
        assert(seq![sent, looked, sent] =~= seq![sent] + seq![looked, sent]);
        assert(seq![looked, sent] =~= seq![looked] + seq![sent]);
        lemma_run_cons(start, first, seq![sent, looked, sent]);
        lemma_run_cons(enabling, sent, seq![looked, sent]);
        lemma_run_cons(latching, looked, seq![sent]);
        lemma_run_single(after_look, sent);
    } else {
        assert(seq![first, sent, looked, reported, sent] =~= seq![first] + seq![
            sent,
            looked,
            reported,
            sent,
        ]);
        assert(seq![sent, looked, reported, sent] =~= seq![sent] + seq![looked, reported, sent]);
        assert(seq![looked, reported, sent] =~= seq![looked] + seq![reported, sent]);
        assert(seq![reported, sent] =~= seq![reported] + seq![sent]);
        lemma_run_cons(start, first, seq![sent, looked, reported, sent]);
        lemma_run_cons(enabling, sent, seq![looked, reported, sent]);
        lemma_run_cons(latching, looked, seq![reported, sent]);
        lemma_run_cons(after_look, reported, seq![sent]);
        lemma_run_single(after_look.step(reported).0, sent);
    }
}

/// A software reset on a chip that is not busy: the write enable command,
/// the first instruction of the handshake, one status read, the second
/// instruction, and the end. Between the two instructions the engine hands
/// out nothing but status reads.
pub proof fn lemma_software_reset_order<E>(idle: Seq<u8>, settled: Seq<u8>)
    requires
        idle.len() == 2,
        !busy_in(idle[1]),
        settled.len() == 2,
        !busy_in(settled[1]),
    ensures
        ({
            let start = EngineView::opened(script::software_reset(), true);
            let events = seq![
                EventView::<E>::Transferred(idle),
                EventView::<E>::Transferred(Seq::empty()),
                EventView::<E>::Transferred(Seq::empty()),
                EventView::<E>::Transferred(settled),
                EventView::<E>::Transferred(Seq::empty()),
            ];
            &&& admissible(start, events)
            &&& steps(start, events) == seq![
                StepView::<E>::Transfer(write_only(bare_frame(Opcode::WriteEnable))),
                StepView::<E>::Transfer(write_only(bare_frame(Opcode::EnableReset))),
                StepView::<E>::Transfer(status_query()),
                StepView::<E>::Transfer(write_only(bare_frame(Opcode::Reset))),
                StepView::<E>::Done(Ok(OutputView::Unit)),
            ]
            &&& state_after(start, events) == EngineView::at_rest(true)
        }),
{
    let start = EngineView::opened(script::software_reset(), true);
    let first = EventView::<E>::Transferred(idle);
    let sent = EventView::<E>::Transferred(Seq::empty());
    let second = EventView::<E>::Transferred(settled);
    assert(seq![first, sent, sent, second, sent] =~= seq![first] + seq![sent, sent, second, sent]);
    assert(seq![sent, sent, second, sent] =~= seq![sent] + seq![sent, second, sent]);
    assert(seq![sent, second, sent] =~= seq![sent] + seq![second, sent]);
    assert(seq![second, sent] =~= seq![second] + seq![sent]);
    let enabling = start.step(first).0;
    let arming = enabling.step(sent).0;
    let settling = arming.step(sent).0;
    let resetting = settling.step(second).0;
    lemma_run_cons(start, first, seq![sent, sent, second, sent]);
    lemma_run_cons(enabling, sent, seq![sent, second, sent]);
    lemma_run_cons(arming, sent, seq![second, sent]);
    lemma_run_cons(settling, second, seq![sent]);
    lemma_run_single(resetting, sent);
}

/// An identification read is one transaction and nothing else: the
/// instruction out and the bytes in, with no status read and no write
/// enable command before it, and it ends with the bytes that came back, all
/// of them and in the order of their arrival. The JEDEC read sends the
/// instruction byte alone and receives eleven bytes; the manufacturer and
/// device ID read sends the instruction and three zero bytes and receives two.
pub proof fn lemma_identification_read_is_one_transaction<E>(jedec: Seq<u8>, ids: Seq<u8>)
    requires
        jedec.len() == 11,
        ids.len() == 2,
    ensures
        script::read_jedec_id().len() == 1,
        script::read_jedec_id()[0].request() == write_then_read(seq![0x9Fu8], 11),
        ({
            let start = EngineView::opened(script::read_jedec_id(), true);
            let events = seq![EventView::<E>::Transferred(jedec)];
            &&& admissible(start, events)
            &&& steps(start, events) == seq![StepView::<E>::Done(Ok(OutputView::Bytes(jedec)))]
            &&& state_after(start, events) == EngineView::at_rest(true)
        }),
        script::read_manufacturer_device_id().len() == 1,
        script::read_manufacturer_device_id()[0].request() == write_then_read(
            seq![0x90u8, 0u8, 0u8, 0u8],
            2,
        ),
        ({
            let start = EngineView::opened(script::read_manufacturer_device_id(), true);
            let events = seq![EventView::<E>::Transferred(ids)];
            &&& admissible(start, events)
            &&& steps(start, events) == seq![StepView::<E>::Done(Ok(OutputView::Bytes(ids)))]
            &&& state_after(start, events) == EngineView::at_rest(true)
        }),
{
    assert(bare_frame(Opcode::ReadJedecId) =~= seq![0x9Fu8]);
    assert(script::manufacturer_device_id_frame() =~= seq![0x90u8, 0u8, 0u8, 0u8]);
    lemma_run_single(
        EngineView::opened(script::read_jedec_id(), true),
        EventView::<E>::Transferred(jedec),
    );
    lemma_run_single(
        EngineView::opened(script::read_manufacturer_device_id(), true),
        EventView::<E>::Transferred(ids),
    );
}

} // verus!
