//! The status register of the chip as a set of flags.

use vstd::prelude::*;

verus! {

/// Bit 0: an erase or a write is in progress.
pub const BUSY: u8 = 0x01;

/// Bit 1: the write enable latch.
pub const WEL: u8 = 0x02;

/// Bits 2 to 4: the protection region.
pub const PROT: u8 = 0x1C;

/// Bit 7: status register write disable.
pub const SRWD: u8 = 0x80;

/// Every bit that has a meaning. Bits 5 and 6 have none.
pub const ALL: u8 = 0x9F;

/// What is left of a raw status byte once the bits without a meaning are dropped.
pub open spec fn truncate(raw: u8) -> u8 {
    raw & ALL
}

/// Whether a status byte reports an erase or a write in progress.
pub open spec fn busy_in(raw: u8) -> bool {
    raw & BUSY != 0
}

/// Whether a status byte reports the write enable latch as set.
pub open spec fn latch_in(raw: u8) -> bool {
    raw & WEL != 0
}

/// A set of status register flags. It never holds a bit outside [`ALL`].
#[derive(Clone, Copy, Debug, PartialEq, Eq, Structural)]
pub struct Status {
    bits: u8,
}

impl View for Status {
    type V = u8;

    /// The flags as a byte, each flag at its position in the register.
    closed spec fn view(&self) -> u8 {
        self.bits
    }
}

impl Status {
    #[verifier::type_invariant]
    spec fn defined_bits_only(self) -> bool {
        self.bits & ALL == self.bits
    }

    /// Decodes a raw status byte. Bits without a meaning are dropped, never rejected.
    pub fn from_bits_truncate(raw: u8) -> (status: Status)
        ensures
            status@ == truncate(raw),
    {
        let bits: u8 = raw & ALL;
        assert(bits & 0x9F == bits) by (bit_vector)
            requires
                bits == raw & 0x9F,
        ;
        Status { bits }
    }

    /// The flags as a byte.
    pub fn bits(&self) -> (bits: u8)
        ensures
            bits == self@,
            truncate(bits) == bits,
    {
        proof {
            use_type_invariant(self);
        }
        self.bits
    }

    /// The set without any flag.
    pub fn empty() -> (status: Status)
        ensures
            status@ == 0,
    {
        assert(0x00u8 & 0x9F == 0x00) by (bit_vector);
        Status::from_bits_truncate(0)
    }

    /// The set of every flag.
    pub fn all() -> (status: Status)
        ensures
            status@ == ALL,
    {
        assert(0x9Fu8 & 0x9F == 0x9F) by (bit_vector);
        Status::from_bits_truncate(ALL)
    }

    /// The busy flag alone.
    pub fn busy() -> (status: Status)
        ensures
            status@ == BUSY,
    {
        assert(0x01u8 & 0x9F == 0x01) by (bit_vector);
        Status::from_bits_truncate(BUSY)
    }

    /// The write enable latch alone.
    pub fn wel() -> (status: Status)
        ensures
            status@ == WEL,
    {
        assert(0x02u8 & 0x9F == 0x02) by (bit_vector);
        Status::from_bits_truncate(WEL)
    }

    /// The three protection region bits.
    pub fn prot() -> (status: Status)
        ensures
            status@ == PROT,
    {
        assert(0x1Cu8 & 0x9F == 0x1C) by (bit_vector);
        Status::from_bits_truncate(PROT)
    }

    /// The status register write disable flag alone.
    pub fn srwd() -> (status: Status)
        ensures
            status@ == SRWD,
    {
        assert(0x80u8 & 0x9F == 0x80) by (bit_vector);
        Status::from_bits_truncate(SRWD)
    }

    /// Whether no flag is set.
    pub fn is_empty(&self) -> (none: bool)
        ensures
            none == (self@ == 0),
    {
        self.bits == 0
    }

    /// Whether every flag of `other` is set in `self`.
    pub fn contains(&self, other: Status) -> (every: bool)
        ensures
            every == (self@ & other@ == other@),
    {
        self.bits & other.bits == other.bits
    }

    /// The flags set in both.
    pub fn intersection(self, other: Status) -> (both: Status)
        ensures
            both@ == self@ & other@,
    {
        proof {
            use_type_invariant(self);
        }
        let mine: u8 = self.bits;
        let theirs: u8 = other.bits;
        let bits: u8 = mine & theirs;
        assert(bits & 0x9F == bits) by (bit_vector)
            requires
                bits == mine & theirs,
                mine & 0x9F == mine,
        ;
        Status { bits }
    }

    /// The flags set in either.
    pub fn union(self, other: Status) -> (either: Status)
        ensures
            either@ == self@ | other@,
    {
        proof {
            use_type_invariant(self);
            use_type_invariant(other);
        }
        let mine: u8 = self.bits;
        let theirs: u8 = other.bits;
        let bits: u8 = mine | theirs;
        assert(bits & 0x9F == bits) by (bit_vector)
            requires
                bits == mine | theirs,
                mine & 0x9F == mine,
                theirs & 0x9F == theirs,
        ;
        Status { bits }
    }

    /// Whether the chip reported an erase or a write in progress.
    pub fn is_busy(&self) -> (busy: bool)
        ensures
            busy == busy_in(self@),
    {
        self.bits & BUSY != 0
    }

    /// Whether the chip reported the write enable latch as set.
    pub fn is_write_enabled(&self) -> (latched: bool)
        ensures
            latched == latch_in(self@),
    {
        self.bits & WEL != 0
    }
}

/// Two sets with the same flags are the same set.
pub proof fn lemma_status_is_its_flags(a: Status, b: Status)
    requires
        a@ == b@,
    ensures
        a == b,
{
}

/// Decoding keeps exactly the bits with a meaning, and decoding what was
/// decoded changes nothing.
pub proof fn lemma_truncate_idempotent(raw: u8)
    ensures
        truncate(raw) == raw & 0x9F,
        truncate(truncate(raw)) == truncate(raw),
        truncate(raw) & 0x60 == 0,
{
    assert((raw & 0x9F) & 0x9F == raw & 0x9F && (raw & 0x9F) & 0x60 == 0) by (bit_vector);
}

/// Dropping the bits without a meaning changes neither the busy flag nor the latch.
pub proof fn lemma_truncate_keeps_flags(raw: u8)
    ensures
        busy_in(truncate(raw)) == busy_in(raw),
        latch_in(truncate(raw)) == latch_in(raw),
        busy_in(raw) == (raw & 0x01 == 0x01),
        latch_in(raw) == (raw & 0x02 == 0x02),
{
    assert(((raw & 0x9F) & 0x01 != 0) == (raw & 0x01 != 0) && ((raw & 0x9F) & 0x02 != 0) == (raw
        & 0x02 != 0) && (raw & 0x01 != 0) == (raw & 0x01 == 0x01) && (raw & 0x02 != 0) == (raw
        & 0x02 == 0x02)) by (bit_vector);
}

} // verus!
