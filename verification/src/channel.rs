//! The command channel: bus transactions as ordered lists of segments.
//!
//! A transaction is carried out as one indivisible exchange: the chip stays
//! selected from its first segment to its last.

use vstd::prelude::*;
use crate::opcode::bare_frame;
use crate::opcode::Opcode;

verus! {

/// One segment of a bus transaction.
#[derive(Debug)]
pub enum Segment {
    /// Bytes sent to the chip.
    Write(Vec<u8>),
    /// A number of bytes to receive from the chip.
    Read(usize),
}

/// A segment as contracts speak of it.
#[verifier::ext_equal]
pub enum SegmentView {
    /// Bytes sent to the chip.
    Write(Seq<u8>),
    /// A number of bytes to receive from the chip.
    Read(usize),
}

impl View for Segment {
    type V = SegmentView;

    open spec fn view(&self) -> SegmentView {
        match self {
            Segment::Write(bytes) => SegmentView::Write(bytes@),
            Segment::Read(len) => SegmentView::Read(*len),
        }
    }
}

/// An ordered list of segments, run as one bus transaction.
#[derive(Debug)]
pub struct Transaction {
    /// The segments, first to last.
    pub segments: Vec<Segment>,
}

impl View for Transaction {
    type V = Seq<SegmentView>;

    open spec fn view(&self) -> Seq<SegmentView> {
        Seq::new(self.segments@.len(), |i: int| self.segments@[i]@)
    }
}

/// The transaction that sends `bytes` and receives nothing.
pub open spec fn write_only(bytes: Seq<u8>) -> Seq<SegmentView> {
    seq![SegmentView::Write(bytes)]
}

/// The transaction that sends `instruction` and then receives `len` bytes.
pub open spec fn write_then_read(instruction: Seq<u8>, len: usize) -> Seq<SegmentView> {
    seq![SegmentView::Write(instruction), SegmentView::Read(len)]
}

/// The transaction that sends `frame` and then `data`, and receives nothing.
pub open spec fn write_then_write(frame: Seq<u8>, data: Seq<u8>) -> Seq<SegmentView> {
    seq![SegmentView::Write(frame), SegmentView::Write(data)]
}

/// The status register read: the instruction byte out, then two bytes in, of
/// which the first is a placeholder and the second the register.
pub open spec fn status_query() -> Seq<SegmentView> {
    write_then_read(bare_frame(Opcode::ReadStatus), 2)
}

/// How many bytes a transaction receives, over all its segments.
pub open spec fn inbound_len(segments: Seq<SegmentView>) -> nat
    decreases segments.len(),
{
    if segments.len() == 0 {
        0
    } else {
        let rest = inbound_len(segments.drop_last());
        match segments.last() {
            SegmentView::Write(_) => rest,
            SegmentView::Read(len) => rest + len as nat,
        }
    }
}

impl Transaction {
    /// A command without a response: `bytes` go out, nothing comes back.
    pub fn command(bytes: Vec<u8>) -> (tx: Transaction)
        ensures
            tx@ == write_only(bytes@),
    {
        let mut segments: Vec<Segment> = Vec::new();
        segments.push(Segment::Write(bytes));
        let tx = Transaction { segments };
        assert(tx@ =~= write_only(bytes@));
        tx
    }

    /// A command with a response: `instruction` goes out, then `len` bytes come back.
    pub fn command_with_response(instruction: Vec<u8>, len: usize) -> (tx: Transaction)
        ensures
            tx@ == write_then_read(instruction@, len),
    {
        let mut segments: Vec<Segment> = Vec::new();
        segments.push(Segment::Write(instruction));
        segments.push(Segment::Read(len));
        let tx = Transaction { segments };
        assert(tx@ =~= write_then_read(instruction@, len));
        tx
    }

    /// A command with a payload: `frame` goes out, then `data`, nothing comes back.
    pub fn command_with_payload(frame: Vec<u8>, data: Vec<u8>) -> (tx: Transaction)
        ensures
            tx@ == write_then_write(frame@, data@),
    {
        let mut segments: Vec<Segment> = Vec::new();
        segments.push(Segment::Write(frame));
        segments.push(Segment::Write(data));
        let tx = Transaction { segments };
        assert(tx@ =~= write_then_write(frame@, data@));
        tx
    }

    /// The status register read.
    pub fn status_query() -> (tx: Transaction)
        ensures
            tx@ == status_query(),
    {
        Transaction::command_with_response(crate::opcode::bare(Opcode::ReadStatus), 2)
    }
}

/// The three shapes of transaction receive as many bytes as their read
/// segment asks for, and none where they have no read segment.
pub proof fn lemma_inbound_len_of_shapes(first: Seq<u8>, second: Seq<u8>, len: usize)
    ensures
        inbound_len(write_only(first)) == 0,
        inbound_len(write_then_read(first, len)) == len,
        inbound_len(write_then_write(first, second)) == 0,
{
    reveal_with_fuel(inbound_len, 3);
    assert(write_only(first).drop_last() =~= Seq::<SegmentView>::empty());
    assert(write_then_read(first, len).drop_last() =~= write_only(first));
    assert(write_then_write(first, second).drop_last() =~= write_only(first));
}

} // verus!
