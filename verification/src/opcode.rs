//! Instruction codes and the frames they are sent in.

use vstd::prelude::*;

verus! {

/// The instructions of the chip that this driver issues.
#[derive(Clone, Copy, Debug, PartialEq, Eq, Structural)]
pub enum Opcode {
    /// Read the 8-bit manufacturer and device IDs.
    ReadMfDId,
    /// Read the JEDEC manufacturer and device identification.
    ReadJedecId,
    /// Set the write enable latch.
    WriteEnable,
    /// Read the 8-bit status register.
    ReadStatus,
    /// Read data starting at an address.
    Read,
    /// Program up to one page of previously erased memory.
    PageProg,
    /// Erase the 4 KiB sector that holds an address.
    SectorErase,
    /// Erase the whole chip.
    ChipErase,
    /// First half of the software reset handshake.
    EnableReset,
    /// Second half of the software reset handshake.
    Reset,
}

impl Opcode {
    /// The byte that selects this instruction on the wire.
    pub open spec fn wire(self) -> u8 {
        match self {
            Opcode::ReadMfDId => 0x90,
            Opcode::ReadJedecId => 0x9F,
            Opcode::WriteEnable => 0x06,
            Opcode::ReadStatus => 0x05,
            Opcode::Read => 0x03,
            Opcode::PageProg => 0x02,
            Opcode::SectorErase => 0x20,
            Opcode::ChipErase => 0xC7,
            Opcode::EnableReset => 0x66,
            Opcode::Reset => 0x99,
        }
    }

    /// The byte that selects this instruction on the wire.
    pub fn code(self) -> (byte: u8)
        ensures
            byte == self.wire(),
    {
        match self {
            Opcode::ReadMfDId => 0x90,
            Opcode::ReadJedecId => 0x9F,
            Opcode::WriteEnable => 0x06,
            Opcode::ReadStatus => 0x05,
            Opcode::Read => 0x03,
            Opcode::PageProg => 0x02,
            Opcode::SectorErase => 0x20,
            Opcode::ChipErase => 0xC7,
            Opcode::EnableReset => 0x66,
            Opcode::Reset => 0x99,
        }
    }
}

/// The address field of a frame: bits 23..16, 15..8 and 7..0 of the address,
/// in that order. Bits 24 and up are not sent.
pub open spec fn address_field(addr: u32) -> Seq<u8> {
    seq![((addr >> 16) & 0xFF) as u8, ((addr >> 8) & 0xFF) as u8, (addr & 0xFF) as u8]
}

/// A frame that is the instruction byte alone.
pub open spec fn bare_frame(op: Opcode) -> Seq<u8> {
    seq![op.wire()]
}

/// A frame of the instruction byte followed by the address field.
pub open spec fn addressed_frame(op: Opcode, addr: u32) -> Seq<u8> {
    seq![op.wire()] + address_field(addr)
}

/// The three address bytes as they go over the wire, most significant first.
pub fn address_bytes(addr: u32) -> (bytes: [u8; 3])
    ensures
        bytes@ == address_field(addr),
        bytes[0] == (addr >> 16) & 0xFF,
        bytes[1] == (addr >> 8) & 0xFF,
        bytes[2] == addr & 0xFF,
{
    let high: u32 = (addr >> 16) & 0xFF;
    let mid: u32 = (addr >> 8) & 0xFF;
    let low: u32 = addr & 0xFF;
    assert(high < 256 && mid < 256 && low < 256) by (bit_vector)
        requires
            high == (addr >> 16) & 0xFF,
            mid == (addr >> 8) & 0xFF,
            low == addr & 0xFF,
    ;
    let bytes: [u8; 3] = [high as u8, mid as u8, low as u8];
    assert(bytes@ =~= address_field(addr));
    bytes
}

/// Builds the one-byte frame of an instruction that takes no address.
pub fn bare(op: Opcode) -> (frame: Vec<u8>)
    ensures
        frame@ == bare_frame(op),
{
    let mut frame: Vec<u8> = Vec::new();
    frame.push(op.code());
    assert(frame@ =~= bare_frame(op));
    frame
}

/// Builds the four-byte frame of an instruction that takes an address.
pub fn addressed(op: Opcode, addr: u32) -> (frame: Vec<u8>)
    ensures
        frame@ == addressed_frame(op, addr),
        frame@.len() == 4,
{
    let field = address_bytes(addr);
    let mut frame: Vec<u8> = Vec::new();
    frame.push(op.code());
    frame.push(field[0]);
    frame.push(field[1]);
    frame.push(field[2]);
    assert(frame@ =~= addressed_frame(op, addr));
    frame
}

/// Addresses that agree in their low 24 bits are sent as the same three
/// bytes: whatever lies above bit 23 never reaches the chip.
pub proof fn lemma_address_field_ignores_high_bits(a: u32, b: u32)
    requires
        a & 0x00FF_FFFF == b & 0x00FF_FFFF,
    ensures
        address_field(a) == address_field(b),
{
    assert((a >> 16) & 0xFF == (b >> 16) & 0xFF && (a >> 8) & 0xFF == (b >> 8) & 0xFF && a & 0xFF
        == b & 0xFF) by (bit_vector)
        requires
            a & 0x00FF_FFFF == b & 0x00FF_FFFF,
    ;
}

/// An address and its low 24 bits are sent as the same three bytes.
pub proof fn lemma_address_field_of_low_bits(a: u32)
    ensures
        address_field(a & 0x00FF_FFFF) == address_field(a),
{
    assert((a & 0x00FF_FFFF) & 0x00FF_FFFF == a & 0x00FF_FFFF) by (bit_vector);
    lemma_address_field_ignores_high_bits(a & 0x00FF_FFFF, a);
}

} // verus!
