use vstd::prelude::*;

verus! {

/// The CPU flag register F. Only the four high bits of F carry meaning
/// (Zero, Subtract, HalfCarry, Carry at positions 7, 6, 5, 4); the low
/// nibble always reads as zero. The flags are held as four booleans and
/// packed into a byte only where F is observed as part of AF.
#[derive(Clone, Copy, PartialEq, Eq, Structural, Debug)]
pub struct Flag {
    pub zero: bool,
    pub subtract: bool,
    pub half_carry: bool,
    pub carry: bool,
}

/// The byte encoding of the flag register: bit 7 Zero, bit 6 Subtract,
/// bit 5 HalfCarry, bit 4 Carry, low nibble zero.
pub open spec fn flag_bits_spec(f: Flag) -> u8 {
    ((if f.zero {
        0x80u8
    } else {
        0u8
    }) + (if f.subtract {
        0x40u8
    } else {
        0u8
    }) + (if f.half_carry {
        0x20u8
    } else {
        0u8
    }) + (if f.carry {
        0x10u8
    } else {
        0u8
    })) as u8
}

/// The flag register denoted by a byte: each flag is the corresponding bit;
/// the low nibble is discarded.
pub open spec fn flag_of_bits_spec(v: u8) -> Flag {
    Flag {
        zero: v / 128 % 2 == 1,
        subtract: v / 64 % 2 == 1,
        half_carry: v / 32 % 2 == 1,
        carry: v / 16 % 2 == 1,
    }
}

impl Flag {
    /// A flag register with the given four flags.
    pub fn make(zero: bool, subtract: bool, half_carry: bool, carry: bool) -> (r: Flag)
        ensures
            r == (Flag { zero, subtract, half_carry, carry }),
    {
        Flag { zero, subtract, half_carry, carry }
    }

    /// All four flags cleared.
    pub fn clear(&mut self)
        ensures
            *final(self) == (Flag { zero: false, subtract: false, half_carry: false, carry: false }),
    {
        self.zero = false;
        self.subtract = false;
        self.half_carry = false;
        self.carry = false;
    }

    /// The byte value of F.
    pub fn bits(&self) -> (r: u8)
        ensures
            r == flag_bits_spec(*self),
    {
        let mut r: u8 = 0;
        if self.zero {
            r = r + 0x80;
        }
        if self.subtract {
            r = r + 0x40;
        }
        if self.half_carry {
            r = r + 0x20;
        }
        if self.carry {
            r = r + 0x10;
        }
        r
    }

    /// The flag register denoted by a byte; the low nibble is ignored.
    pub fn from_bits(v: u8) -> (r: Flag)
        ensures
            r == flag_of_bits_spec(v),
    {
        Flag {
            zero: v / 128 % 2 == 1,
            subtract: v / 64 % 2 == 1,
            half_carry: v / 32 % 2 == 1,
            carry: v / 16 % 2 == 1,
        }
    }
}

/// Packing four flags into a byte and reading the bits back yields the same
/// four flags: the byte encoding of F is lossless on the meaningful bits.
pub proof fn lemma_flag_bits_round_trip(f: Flag)
    ensures
        flag_of_bits_spec(flag_bits_spec(f)) == f,
{
}

/// The byte encoding of a flag register always has a zero low nibble.
pub proof fn lemma_flag_bits_low_nibble(f: Flag)
    ensures
        flag_bits_spec(f) % 16 == 0,
{
}

} // verus!
