//! The engines, run against a small model of the chip.

use w25q::engine::Engine;
use w25q::engine::Stage;
use w25q::AsyncFlashSpi;
use w25q::Error;
use w25q::Event;
use w25q::FlashSpi;
use w25q::Output;
use w25q::Segment;
use w25q::Step;
use w25q::Transaction;

const SIZE: usize = 0x2_0000;

/// A chip with 128 KiB of memory that mirrors higher addresses onto it.
struct Chip {
    memory: Vec<u8>,
    busy_polls: usize,
    busy_after_erase: usize,
    latch: bool,
    latch_sets: bool,
    fail_at: Option<usize>,
    frames: Vec<Vec<u8>>,
    payloads: Vec<Vec<u8>>,
}

impl Chip {
    fn new() -> Chip {
        Chip {
            memory: vec![0xFF; SIZE],
            busy_polls: 0,
            busy_after_erase: 0,
            latch: false,
            latch_sets: true,
            fail_at: None,
            frames: Vec::new(),
            payloads: Vec::new(),
        }
    }

    fn status(&mut self) -> u8 {
        let mut status = 0u8;
        if self.busy_polls > 0 {
            self.busy_polls -= 1;
            status |= 0x01;
        }
        if self.latch {
            status |= 0x02;
        }
        status
    }

    fn address(frame: &[u8]) -> usize {
        (((frame[1] as usize) << 16) | ((frame[2] as usize) << 8) | frame[3] as usize) % SIZE
    }

    fn run(&mut self, tx: &Transaction) -> Result<Vec<u8>, &'static str> {
        if self.fail_at == Some(self.frames.len()) {
            self.frames.push(Vec::new());
            return Err("bus fault");
        }
        let frame = match &tx.segments[0] {
            Segment::Write(bytes) => bytes.clone(),
            Segment::Read(_) => panic!("a transaction starts with its instruction"),
        };
        self.frames.push(frame.clone());
        let mut inbound = 0usize;
        let mut payload: Vec<u8> = Vec::new();
        for segment in &tx.segments[1..] {
            match segment {
                Segment::Write(bytes) => payload.extend_from_slice(bytes),
                Segment::Read(len) => inbound += *len,
            }
        }
        let mut reply = vec![0u8; inbound];
        match frame[0] {
            0x05 => {
                assert_eq!(frame.len(), 1);
                assert_eq!(inbound, 2);
                reply[1] = self.status();
            }
            0x06 => self.latch = self.latch_sets,
            0x03 => {
                let at = Chip::address(&frame);
                for (i, byte) in reply.iter_mut().enumerate() {
                    *byte = self.memory[(at + i) % SIZE];
                }
            }
            0x02 => {
                let at = Chip::address(&frame);
                if self.latch {
                    for (i, byte) in payload.iter().enumerate() {
                        self.memory[(at + i) % SIZE] &= *byte;
                    }
                    self.latch = false;
                }
                self.payloads.push(payload);
            }
            0x20 => {
                let at = Chip::address(&frame) & !0xFFF;
                if self.latch {
                    for byte in &mut self.memory[at..at + 0x1000] {
                        *byte = 0xFF;
                    }
                    self.latch = false;
                    self.busy_polls = self.busy_after_erase;
                }
            }
            0xC7 => {
                if self.latch {
                    for byte in &mut self.memory {
                        *byte = 0xFF;
                    }
                    self.latch = false;
                    self.busy_polls = self.busy_after_erase;
                }
            }
            0x90 => {
                assert_eq!(inbound, 2);
                reply[0] = 0xEF;
                reply[1] = 0x17;
            }
            0x9F => {
                assert_eq!(frame.len(), 1);
                assert_eq!(inbound, 11);
                reply[0] = 0xEF;
                reply[1] = 0x40;
                reply[2] = 0x18;
                reply[10] = 0x5C;
            }
            0x66 | 0x99 => {}
            other => panic!("unknown instruction {:#x}", other),
        }
        Ok(reply)
    }

    fn opcodes(&self) -> Vec<u8> {
        self.frames.iter().map(|frame| frame.first().copied().unwrap_or(0)).collect()
    }

    fn commands(&self) -> Vec<u8> {
        self.opcodes().into_iter().filter(|op| *op != 0x05).collect()
    }
}

/// What a run of one operation came to.
struct Run {
    outcome: Option<Result<Output, Error<&'static str>>>,
    suspensions: Vec<u32>,
}

/// Runs one operation to its end, or for `limit` steps.
fn drive(
    first: Transaction,
    chip: &mut Chip,
    limit: usize,
    accepts: &dyn Fn(&Event<&'static str>) -> bool,
    resume: &mut dyn FnMut(Event<&'static str>) -> Step<&'static str>,
) -> Run {
    let mut suspensions = Vec::new();
    let mut step = Step::Transfer(first);
    for _ in 0..limit {
        let event = match step {
            Step::Transfer(tx) => match chip.run(&tx) {
                Ok(reply) => Event::Transferred(reply),
                Err(e) => Event::Failed(e),
            },
            Step::Suspend(ms) => {
                suspensions.push(ms);
                Event::Resumed
            }
            Step::Done(outcome) => return Run { outcome: Some(outcome), suspensions },
        };
        assert!(accepts(&event));
        step = resume(event);
    }
    match step {
        Step::Done(outcome) => Run { outcome: Some(outcome), suspensions },
        _ => Run { outcome: None, suspensions },
    }
}

fn run_blocking(engine: &mut FlashSpi, first: Transaction, chip: &mut Chip) -> Run {
    let mut state = std::cell::RefCell::new(engine);
    let run = {
        let accepts = |event: &Event<&'static str>| state.borrow().accepts(event);
        let mut resume = |event: Event<&'static str>| state.borrow_mut().resume(event);
        drive(first, chip, 100_000, &accepts, &mut resume)
    };
    let _ = state.get_mut();
    run
}

fn run_suspending(engine: &mut AsyncFlashSpi, first: Transaction, chip: &mut Chip) -> Run {
    let mut state = std::cell::RefCell::new(engine);
    let run = {
        let accepts = |event: &Event<&'static str>| state.borrow().accepts(event);
        let mut resume = |event: Event<&'static str>| state.borrow_mut().resume(event);
        drive(first, chip, 100_000, &accepts, &mut resume)
    };
    let _ = state.get_mut();
    run
}

fn ready_blocking(chip: &mut Chip) -> FlashSpi {
    let (mut engine, first) = FlashSpi::init();
    let run = run_blocking(&mut engine, first, chip);
    assert!(matches!(run.outcome, Some(Ok(Output::Unit))));
    assert!(engine.is_ready() && engine.is_idle());
    chip.frames.clear();
    engine
}

fn ready_suspending(chip: &mut Chip) -> AsyncFlashSpi {
    let (mut engine, first) = AsyncFlashSpi::init();
    let run = run_suspending(&mut engine, first, chip);
    assert!(matches!(run.outcome, Some(Ok(Output::Unit))));
    assert!(engine.is_ready() && engine.is_idle());
    chip.frames.clear();
    engine
}

fn bytes_of(run: Run) -> Vec<u8> {
    match run.outcome {
        Some(Ok(Output::Bytes(bytes))) => bytes,
        other => panic!("expected bytes, got {:?}", other),
    }
}

fn flag_of(run: Run) -> bool {
    match run.outcome {
        Some(Ok(Output::Flag(flag))) => flag,
        other => panic!("expected a flag, got {:?}", other),
    }
}

fn segments_of(tx: &Transaction) -> Vec<(bool, Vec<u8>, usize)> {
    tx.segments
        .iter()
        .map(|segment| match segment {
            Segment::Write(bytes) => (true, bytes.clone(), 0),
            Segment::Read(len) => (false, Vec::new(), *len),
        })
        .collect()
}

#[test]
fn blocking_init_polls_without_pause_until_ready() {
    let mut chip = Chip::new();
    chip.busy_polls = 5;
    let (mut engine, first) = FlashSpi::init();
    assert_eq!(segments_of(&first), vec![(true, vec![0x05], 0), (false, vec![], 2)]);
    assert!(!engine.is_ready());
    assert!(!engine.is_idle());
    let run = run_blocking(&mut engine, first, &mut chip);
    assert!(matches!(run.outcome, Some(Ok(Output::Unit))));
    assert!(run.suspensions.is_empty());
    assert_eq!(chip.opcodes(), vec![0x05; 6]);
    assert!(engine.is_ready());
    assert!(engine.is_idle());
}

#[test]
fn blocking_init_waits_for_the_latch_to_clear() {
    let mut chip = Chip::new();
    chip.latch = true;
    let (mut engine, first) = FlashSpi::init();
    let mut step: Step<&'static str> = Step::Transfer(first);
    for _ in 0..50 {
        let tx = match step {
            Step::Transfer(tx) => tx,
            other => panic!("the initialisation went on to {:?}", other),
        };
        step = engine.resume(Event::Transferred(chip.run(&tx).unwrap()));
    }
    assert!(!engine.is_ready());
    chip.latch = false;
    let tx = match step {
        Step::Transfer(tx) => tx,
        other => panic!("the initialisation went on to {:?}", other),
    };
    let last: Step<&'static str> = engine.resume(Event::Transferred(chip.run(&tx).unwrap()));
    assert!(matches!(last, Step::Done(Ok(Output::Unit))));
    assert!(engine.is_ready());
}

#[test]
fn suspending_init_disregards_the_latch() {
    let mut chip = Chip::new();
    chip.latch = true;
    let (mut engine, first) = AsyncFlashSpi::init();
    let run = run_suspending(&mut engine, first, &mut chip);
    assert!(matches!(run.outcome, Some(Ok(Output::Unit))));
    assert!(run.suspensions.is_empty());
    assert_eq!(chip.opcodes(), vec![0x05]);
}

#[test]
fn suspending_init_pauses_ten_milliseconds_after_each_busy_poll() {
    let mut chip = Chip::new();
    chip.busy_polls = 7;
    let (mut engine, first) = AsyncFlashSpi::init();
    let run = run_suspending(&mut engine, first, &mut chip);
    assert!(matches!(run.outcome, Some(Ok(Output::Unit))));
    assert_eq!(run.suspensions, vec![10; 7]);
    assert_eq!(chip.opcodes(), vec![0x05; 8]);
}

#[test]
fn init_does_not_return_while_the_chip_stays_busy() {
    let mut chip = Chip::new();
    chip.busy_polls = usize::MAX;
    let (mut engine, first) = FlashSpi::init();
    let accepts = |_: &Event<&'static str>| true;
    let run = {
        let mut resume = |event: Event<&'static str>| engine.resume(event);
        drive(first, &mut chip, 5_000, &accepts, &mut resume)
    };
    assert!(run.outcome.is_none());
    assert!(!engine.is_ready());
    assert!(!engine.is_idle());

    let mut chip = Chip::new();
    chip.busy_polls = usize::MAX;
    let (mut engine, first) = AsyncFlashSpi::init();
    let run = {
        let mut resume = |event: Event<&'static str>| engine.resume(event);
        drive(first, &mut chip, 5_000, &accepts, &mut resume)
    };
    assert!(run.outcome.is_none());
    assert_eq!(run.suspensions.len(), 2_500);
    assert!(!engine.is_ready());
}

#[test]
fn read_sends_the_address_and_returns_the_bytes_served() {
    let mut chip = Chip::new();
    chip.memory[0x1_2345] = 0xDE;
    chip.memory[0x1_2346] = 0xAD;
    chip.memory[0x1_2347] = 0x42;
    let mut engine = ready_blocking(&mut chip);
    chip.busy_polls = 2;
    let first = engine.read(0x01_2345, 3);
    assert_eq!(segments_of(&first), vec![(true, vec![0x05], 0), (false, vec![], 2)]);
    let run = run_blocking(&mut engine, first, &mut chip);
    assert_eq!(bytes_of(run), vec![0xDE, 0xAD, 0x42]);
    assert_eq!(chip.frames.len(), 4);
    assert_eq!(chip.frames[3], vec![0x03, 0x01, 0x23, 0x45]);
    assert!(engine.is_idle());
}

#[test]
fn read_of_no_bytes_is_a_read_all_the_same() {
    let mut chip = Chip::new();
    let mut engine = ready_suspending(&mut chip);
    let first = engine.read(0, 0);
    let run = run_suspending(&mut engine, first, &mut chip);
    assert_eq!(bytes_of(run), Vec::<u8>::new());
    assert_eq!(chip.frames, vec![vec![0x05], vec![0x03, 0, 0, 0]]);
}

#[test]
fn addresses_above_24_bits_mirror() {
    let mut chip = Chip::new();
    chip.memory[0x0_0010] = 0x77;
    let mut engine = ready_blocking(&mut chip);
    let first = engine.read(0xAB00_0010, 1);
    let run = run_blocking(&mut engine, first, &mut chip);
    assert_eq!(bytes_of(run), vec![0x77]);
    assert_eq!(chip.frames[1], vec![0x03, 0x00, 0x00, 0x10]);
}

#[test]
fn sector_erase_enables_writing_first_and_does_not_wait() {
    let mut chip = Chip::new();
    chip.memory[0x3000] = 0x00;
    chip.memory[0x3FFF] = 0x00;
    chip.memory[0x4000] = 0x00;
    chip.busy_after_erase = 9;
    let mut engine = ready_blocking(&mut chip);
    chip.busy_polls = 3;
    let first = engine.sector_erase(0x00_3000);
    let run = run_blocking(&mut engine, first, &mut chip);
    assert!(matches!(run.outcome, Some(Ok(Output::Unit))));
    assert_eq!(chip.opcodes(), vec![0x05, 0x05, 0x05, 0x05, 0x06, 0x20]);
    assert_eq!(chip.frames[5], vec![0x20, 0x00, 0x30, 0x00]);
    assert_eq!(chip.memory[0x3000], 0xFF);
    assert_eq!(chip.memory[0x3FFF], 0xFF);
    assert_eq!(chip.memory[0x4000], 0x00);
    assert_eq!(chip.busy_polls, 9);

    let mut chip = Chip::new();
    let mut engine = ready_suspending(&mut chip);
    let first = engine.sector_erase(0xFF_F000);
    let run = run_suspending(&mut engine, first, &mut chip);
    assert!(matches!(run.outcome, Some(Ok(Output::Unit))));
    assert!(run.suspensions.is_empty());
    assert_eq!(chip.frames, vec![vec![0x05], vec![0x06], vec![0x20, 0xFF, 0xF0, 0x00]]);
}

#[test]
fn page_program_enables_writing_checks_the_latch_and_sends_the_data() {
    let mut chip = Chip::new();
    let mut engine = ready_blocking(&mut chip);
    let first = engine.page_program(0x00_0100, &[1, 2, 3, 4]);
    let run = run_blocking(&mut engine, first, &mut chip);
    assert!(matches!(run.outcome, Some(Ok(Output::Unit))));
    assert_eq!(chip.opcodes(), vec![0x05, 0x06, 0x05, 0x02]);
    assert_eq!(chip.frames[3], vec![0x02, 0x00, 0x01, 0x00]);
    assert_eq!(chip.payloads, vec![vec![1, 2, 3, 4]]);
    assert_eq!(&chip.memory[0x100..0x104], &[1, 2, 3, 4]);
}

#[test]
fn page_program_goes_on_when_the_latch_did_not_set() {
    let mut chip = Chip::new();
    chip.latch_sets = false;
    let mut engine = ready_suspending(&mut chip);
    let first = engine.page_program(0x00_0200, &[9, 8]);
    let run = run_suspending(&mut engine, first, &mut chip);
    assert!(matches!(run.outcome, Some(Ok(Output::Unit))));
    assert_eq!(chip.opcodes(), vec![0x05, 0x06, 0x05, 0x05, 0x02]);
    assert_eq!(chip.payloads, vec![vec![9, 8]]);
    assert_eq!(&chip.memory[0x200..0x202], &[0xFF, 0xFF]);
}

#[test]
fn page_program_sends_oversized_data_as_it_is() {
    let mut chip = Chip::new();
    let mut engine = ready_blocking(&mut chip);
    let data: Vec<u8> = (0..300u32).map(|i| (i % 251) as u8).collect();
    let first = engine.page_program(0x00_00F0, &data);
    let run = run_blocking(&mut engine, first, &mut chip);
    assert!(matches!(run.outcome, Some(Ok(Output::Unit))));
    assert_eq!(chip.payloads, vec![data]);
}

#[test]
fn programmed_bytes_read_back() {
    for addr in [0u32, 0x00_0100, 0x01_FF00, 0x7F01_0000] {
        let mut chip = Chip::new();
        let mut engine = ready_blocking(&mut chip);
        let data: Vec<u8> = (0..64u8).map(|i| i.wrapping_mul(7) ^ 0x5A).collect();
        let first = engine.page_program(addr, &data);
        let run = run_blocking(&mut engine, first, &mut chip);
        assert!(matches!(run.outcome, Some(Ok(Output::Unit))));
        let first = engine.read(addr, data.len());
        let run = run_blocking(&mut engine, first, &mut chip);
        assert_eq!(bytes_of(run), data);
    }
    let mut chip = Chip::new();
    let mut engine = ready_suspending(&mut chip);
    let data = vec![0x10, 0x20, 0x30];
    let first = engine.page_program(0x42, &data);
    assert!(matches!(run_suspending(&mut engine, first, &mut chip).outcome, Some(Ok(_))));
    let first = engine.read(0x42, 3);
    assert_eq!(bytes_of(run_suspending(&mut engine, first, &mut chip)), data);
}

#[test]
fn write_enable_comes_before_every_mutating_command() {
    let mut chip = Chip::new();
    let mut engine = ready_blocking(&mut chip);
    for round in 0..4u32 {
        chip.frames.clear();
        chip.busy_polls = round as usize;
        let first = if round % 2 == 0 {
            engine.page_program(round * 0x100, &[round as u8])
        } else {
            engine.sector_erase(round * 0x1000)
        };
        let run = run_blocking(&mut engine, first, &mut chip);
        assert!(matches!(run.outcome, Some(Ok(Output::Unit))));
        let mutating = if round % 2 == 0 { 0x02 } else { 0x20 };
        assert_eq!(chip.commands(), vec![0x06, mutating]);
    }
}

#[test]
fn blocking_chip_erase_returns_without_waiting_for_the_erase() {
    let mut chip = Chip::new();
    chip.memory[0] = 0;
    chip.busy_after_erase = 4;
    let mut engine = ready_blocking(&mut chip);
    chip.busy_polls = 1;
    let first = engine.chip_erase();
    let run = run_blocking(&mut engine, first, &mut chip);
    assert!(matches!(run.outcome, Some(Ok(Output::Unit))));
    assert!(run.suspensions.is_empty());
    assert_eq!(chip.frames, vec![vec![0x05], vec![0x05], vec![0x06], vec![0xC7]]);
    assert_eq!(chip.memory[0], 0xFF);
    assert_eq!(chip.busy_polls, 4);
}

#[test]
fn suspending_chip_erase_pauses_once_for_each_busy_poll() {
    for polls in [0usize, 1, 2, 17] {
        let mut chip = Chip::new();
        chip.memory[0x1234] = 0;
        chip.busy_after_erase = polls;
        let mut engine = ready_suspending(&mut chip);
        let first = engine.chip_erase();
        let run = run_suspending(&mut engine, first, &mut chip);
        assert!(matches!(run.outcome, Some(Ok(Output::Unit))));
        assert_eq!(run.suspensions, vec![100; polls]);
        assert_eq!(chip.commands(), vec![0x06, 0xC7]);
        assert_eq!(chip.opcodes().len(), 3 + polls + 1);
        assert_eq!(chip.busy_polls, 0);
        assert_eq!(chip.memory[0x1234], 0xFF);
    }
}

#[test]
fn suspending_chip_erase_pauses_before_the_command_too() {
    let mut chip = Chip::new();
    let mut engine = ready_suspending(&mut chip);
    chip.busy_polls = 3;
    chip.busy_after_erase = 2;
    let first = engine.chip_erase();
    let run = run_suspending(&mut engine, first, &mut chip);
    assert!(matches!(run.outcome, Some(Ok(Output::Unit))));
    assert_eq!(run.suspensions, vec![100; 5]);
    assert_eq!(
        chip.opcodes(),
        vec![0x05, 0x05, 0x05, 0x05, 0x06, 0xC7, 0x05, 0x05, 0x05]
    );
}

#[test]
fn software_reset_sends_both_instructions_in_order() {
    let mut chip = Chip::new();
    let mut engine = ready_blocking(&mut chip);
    chip.busy_polls = 1;
    let first = engine.software_reset();
    let run = run_blocking(&mut engine, first, &mut chip);
    assert!(matches!(run.outcome, Some(Ok(Output::Unit))));
    assert_eq!(
        chip.frames,
        vec![vec![0x05], vec![0x05], vec![0x06], vec![0x66], vec![0x05], vec![0x99]]
    );
}

#[test]
fn is_busy_and_is_wel_report_the_status_just_read() {
    for raw in 0..=255u8 {
        let (mut engine, _) = FlashSpi::init();
        let _: Step<&'static str> = engine.resume(Event::Transferred(vec![0, 0]));
        let first = engine.is_busy();
        assert_eq!(segments_of(&first), vec![(true, vec![0x05], 0), (false, vec![], 2)]);
        let step: Step<&'static str> = engine.resume(Event::Transferred(vec![0x5A, raw]));
        match step {
            Step::Done(Ok(Output::Flag(busy))) => assert_eq!(busy, raw & 0x01 != 0),
            other => panic!("{:?}", other),
        }
        let _ = engine.is_wel();
        let step: Step<&'static str> = engine.resume(Event::Transferred(vec![0xFF, raw]));
        match step {
            Step::Done(Ok(Output::Flag(latched))) => assert_eq!(latched, raw & 0x02 != 0),
            other => panic!("{:?}", other),
        }
        let _ = engine.read_status();
        let step: Step<&'static str> = engine.resume(Event::Transferred(vec![0x00, raw]));
        match step {
            Step::Done(Ok(Output::Status(status))) => assert_eq!(status.bits(), raw & 0x9F),
            other => panic!("{:?}", other),
        }
    }
    let mut chip = Chip::new();
    let mut engine = ready_suspending(&mut chip);
    chip.busy_polls = 1;
    let first = engine.is_busy();
    assert!(flag_of(run_suspending(&mut engine, first, &mut chip)));
    let first = engine.is_busy();
    assert!(!flag_of(run_suspending(&mut engine, first, &mut chip)));
    let first = engine.is_wel();
    assert!(!flag_of(run_suspending(&mut engine, first, &mut chip)));
    let first = engine.write_enable();
    assert_eq!(segments_of(&first), vec![(true, vec![0x06], 0)]);
    assert!(matches!(
        run_suspending(&mut engine, first, &mut chip).outcome,
        Some(Ok(Output::Unit))
    ));
    let first = engine.is_wel();
    assert!(flag_of(run_suspending(&mut engine, first, &mut chip)));
    let first = engine.read_status();
    match run_suspending(&mut engine, first, &mut chip).outcome {
        Some(Ok(Output::Status(status))) => assert_eq!(status.bits(), 0x02),
        other => panic!("{:?}", other),
    }
}

#[test]
fn identification_reads_have_their_fixed_shapes() {
    let mut chip = Chip::new();
    let mut engine = ready_blocking(&mut chip);
    let first = engine.read_manufacturer_device_id();
    assert_eq!(segments_of(&first), vec![(true, vec![0x90, 0, 0, 0], 0), (false, vec![], 2)]);
    let run = run_blocking(&mut engine, first, &mut chip);
    assert_eq!(bytes_of(run), vec![0xEF, 0x17]);
    let first = engine.read_jedec_id();
    assert_eq!(segments_of(&first), vec![(true, vec![0x9F], 0), (false, vec![], 11)]);
    let run = run_blocking(&mut engine, first, &mut chip);
    assert_eq!(bytes_of(run), vec![0xEF, 0x40, 0x18, 0, 0, 0, 0, 0, 0, 0, 0x5C]);
    assert_eq!(chip.opcodes(), vec![0x90, 0x9F]);
    assert_eq!(chip.frames, vec![vec![0x90, 0, 0, 0], vec![0x9F]]);
}

#[test]
fn wait_done_polls_until_the_busy_flag_clears() {
    let mut chip = Chip::new();
    let mut engine = ready_blocking(&mut chip);
    chip.busy_polls = 6;
    chip.latch = true;
    let first = engine.wait_done();
    let run = run_blocking(&mut engine, first, &mut chip);
    assert!(matches!(run.outcome, Some(Ok(Output::Unit))));
    assert_eq!(chip.opcodes(), vec![0x05; 7]);

    let mut chip = Chip::new();
    let mut engine = ready_suspending(&mut chip);
    chip.busy_polls = 6;
    let first = engine.wait_done();
    let run = run_suspending(&mut engine, first, &mut chip);
    assert!(matches!(run.outcome, Some(Ok(Output::Unit))));
    assert!(run.suspensions.is_empty());
    assert_eq!(chip.opcodes(), vec![0x05; 7]);
}

#[test]
fn a_transport_failure_ends_the_operation_at_once() {
    for fail_at in 0..4usize {
        let mut chip = Chip::new();
        let mut engine = ready_blocking(&mut chip);
        chip.fail_at = Some(fail_at);
        let first = engine.page_program(0x10, &[1, 2, 3]);
        let run = run_blocking(&mut engine, first, &mut chip);
        match run.outcome {
            Some(Err(Error::Spi(reason))) => assert_eq!(reason, "bus fault"),
            other => panic!("{:?}", other),
        }
        assert_eq!(chip.frames.len(), fail_at + 1);
        assert!(engine.is_idle());
        assert!(engine.is_ready());
        chip.fail_at = None;
        chip.latch = false;
        let first = engine.is_busy();
        assert!(!flag_of(run_blocking(&mut engine, first, &mut chip)));
    }
}

#[test]
fn a_failed_init_leaves_the_chip_unseen() {
    let mut chip = Chip::new();
    chip.busy_polls = 2;
    chip.fail_at = Some(1);
    let (mut engine, first) = AsyncFlashSpi::init();
    let run = run_suspending(&mut engine, first, &mut chip);
    assert!(matches!(run.outcome, Some(Err(Error::Spi("bus fault")))));
    assert_eq!(run.suspensions, vec![10]);
    assert!(engine.is_idle());
    assert!(!engine.is_ready());
}

#[test]
fn events_are_accepted_only_where_they_answer_the_engine() {
    let (mut engine, _) = AsyncFlashSpi::init();
    assert!(engine.accepts(&Event::<()>::Transferred(vec![0, 1])));
    assert!(engine.accepts(&Event::Failed(())));
    assert!(!engine.accepts(&Event::<()>::Resumed));
    assert!(!engine.accepts(&Event::<()>::Transferred(vec![0])));
    assert!(!engine.accepts(&Event::<()>::Transferred(vec![0, 1, 2])));
    let step: Step<()> = engine.resume(Event::Transferred(vec![0, 1]));
    assert!(matches!(step, Step::Suspend(10)));
    assert!(engine.accepts(&Event::<()>::Resumed));
    assert!(!engine.accepts(&Event::<()>::Transferred(vec![0, 0])));
    assert!(!engine.accepts(&Event::Failed(())));
    let step: Step<()> = engine.resume(Event::Resumed);
    assert!(matches!(step, Step::Transfer(_)));
    let step: Step<()> = engine.resume(Event::Transferred(vec![0, 0]));
    assert!(matches!(step, Step::Done(Ok(Output::Unit))));
    assert!(!engine.accepts(&Event::<()>::Transferred(vec![])));
    assert!(!engine.accepts(&Event::Failed(())));
    assert!(!engine.accepts(&Event::<()>::Resumed));
    let _ = engine.sector_erase(0);
    let step: Step<()> = engine.resume(Event::Transferred(vec![0, 0]));
    assert!(matches!(step, Step::Transfer(_)));
    assert!(engine.accepts(&Event::<()>::Transferred(vec![])));
    assert!(!engine.accepts(&Event::<()>::Transferred(vec![0])));
    let _ = engine.resume(Event::<()>::Transferred(vec![]));
    let _ = engine.resume(Event::<()>::Transferred(vec![]));
    assert!(engine.is_idle());
    let _ = engine.read(0, 5);
    let _ = engine.resume(Event::<()>::Transferred(vec![0, 0]));
    assert!(engine.accepts(&Event::<()>::Transferred(vec![1, 2, 3, 4, 5])));
    assert!(!engine.accepts(&Event::<()>::Transferred(vec![1, 2, 3, 4])));
}

#[test]
fn a_script_of_one_s_own_runs_stage_by_stage() {
    let mut engine = Engine::new();
    assert!(engine.is_idle());
    assert!(!engine.is_ready());
    let script = vec![
        Stage::Command(vec![0x06]),
        Stage::Write(vec![0x02, 0, 0, 0], vec![7, 7]),
        Stage::Query(vec![0x9F], 3),
    ];
    let first = engine.begin(script);
    assert_eq!(segments_of(&first), vec![(true, vec![0x06], 0)]);
    let step: Step<()> = engine.resume(Event::Transferred(vec![]));
    match step {
        Step::Transfer(tx) => assert_eq!(
            segments_of(&tx),
            vec![(true, vec![0x02, 0, 0, 0], 0), (true, vec![7, 7], 0)]
        ),
        other => panic!("{:?}", other),
    }
    let step: Step<()> = engine.resume(Event::Transferred(vec![]));
    match step {
        Step::Transfer(tx) => {
            assert_eq!(segments_of(&tx), vec![(true, vec![0x9F], 0), (false, vec![], 3)])
        }
        other => panic!("{:?}", other),
    }
    let step: Step<()> = engine.resume(Event::Transferred(vec![1, 2, 3]));
    match step {
        Step::Done(Ok(Output::Bytes(bytes))) => assert_eq!(bytes, vec![1, 2, 3]),
        other => panic!("{:?}", other),
    }
    assert!(engine.is_idle());
    assert!(engine.is_ready());
    let first = engine.begin(vec![Stage::Query(vec![0x9F], 0)]);
    assert_eq!(segments_of(&first), vec![(true, vec![0x9F], 0), (false, vec![], 0)]);
    let step: Step<()> = engine.resume(Event::Transferred(vec![]));
    match step {
        Step::Done(Ok(Output::Bytes(bytes))) => assert!(bytes.is_empty()),
        other => panic!("{:?}", other),
    }
}

#[test]
fn the_jedec_read_hands_on_every_byte_in_the_order_of_arrival() {
    let mut chip = Chip::new();
    let mut engine = ready_blocking(&mut chip);
    chip.busy_polls = 3;
    chip.latch = true;
    let _ = engine.read_jedec_id();
    assert!(engine.accepts(&Event::<()>::Transferred(vec![0; 11])));
    assert!(!engine.accepts(&Event::<()>::Transferred(vec![0; 12])));
    assert!(!engine.accepts(&Event::<()>::Transferred(vec![0; 10])));
    let reply: Vec<u8> = (1..=11u8).collect();
    let step: Step<()> = engine.resume(Event::Transferred(reply.clone()));
    match step {
        Step::Done(Ok(Output::Bytes(bytes))) => assert_eq!(bytes, reply),
        other => panic!("{:?}", other),
    }
    assert!(engine.is_idle());
    assert_eq!(chip.busy_polls, 3);
}

#[test]
fn an_abandoned_operation_leaves_the_engine_free() {
    let mut chip = Chip::new();
    let mut engine = ready_suspending(&mut chip);
    chip.busy_polls = 2;
    let first = engine.chip_erase();
    let reply = chip.run(&first).unwrap();
    let step: Step<&'static str> = engine.resume(Event::Transferred(reply));
    assert!(matches!(step, Step::Suspend(100)));
    assert!(!engine.is_idle());
    engine.abandon();
    assert!(engine.is_idle());
    assert!(engine.is_ready());
    assert!(!engine.accepts(&Event::<()>::Resumed));
    assert!(!engine.accepts(&Event::<()>::Transferred(vec![0, 0])));
    chip.frames.clear();
    let first = engine.read(0x10, 2);
    let run = run_suspending(&mut engine, first, &mut chip);
    assert_eq!(bytes_of(run), vec![0xFF, 0xFF]);
    assert_eq!(chip.opcodes(), vec![0x05, 0x05, 0x03]);
    engine.abandon();
    assert!(engine.is_idle());
    assert!(engine.is_ready());

    let (mut engine, _) = FlashSpi::init();
    engine.abandon();
    assert!(engine.is_idle());
    assert!(!engine.is_ready());

    let mut engine = Engine::new();
    let _ = engine.begin(vec![Stage::Command(vec![0x06]), Stage::Command(vec![0xC7])]);
    engine.abandon();
    assert!(engine.is_idle());
    assert!(!engine.is_ready());
    let first = engine.begin(vec![Stage::Command(vec![0x66])]);
    assert_eq!(segments_of(&first), vec![(true, vec![0x66], 0)]);
}

#[test]
fn the_second_look_at_the_latch_is_for_reporting_only() {
    for second in [0x00u8, 0x02, 0x01, 0xFF] {
        let mut chip = Chip::new();
        let mut engine = ready_blocking(&mut chip);
        let _ = engine.page_program(0x20, &[1]);
        assert!(!engine.reporting());
        let step: Step<()> = engine.resume(Event::Transferred(vec![0, 0x00]));
        assert!(matches!(step, Step::Transfer(_)));
        assert!(!engine.reporting());
        let step: Step<()> = engine.resume(Event::Transferred(vec![]));
        assert!(matches!(step, Step::Transfer(_)));
        assert!(!engine.reporting());
        let step: Step<()> = engine.resume(Event::Transferred(vec![0, 0x00]));
        match step {
            Step::Transfer(tx) => assert_eq!(
                segments_of(&tx),
                vec![(true, vec![0x05], 0), (false, vec![], 2)]
            ),
            other => panic!("{:?}", other),
        }
        assert!(engine.reporting());
        let step: Step<()> = engine.resume(Event::Transferred(vec![0, second]));
        match step {
            Step::Transfer(tx) => assert_eq!(
                segments_of(&tx),
                vec![(true, vec![0x02, 0, 0, 0x20], 0), (true, vec![1], 0)]
            ),
            other => panic!("{:?}", other),
        }
        assert!(!engine.reporting());
    }
    let (mut engine, _) = AsyncFlashSpi::init();
    let _: Step<()> = engine.resume(Event::Transferred(vec![0, 0]));
    let _ = engine.page_program(0, &[]);
    let _: Step<()> = engine.resume(Event::Transferred(vec![0, 0]));
    let _: Step<()> = engine.resume(Event::Transferred(vec![]));
    let _: Step<()> = engine.resume(Event::Transferred(vec![0, 0x02]));
    assert!(!engine.reporting());
}
