use vstd::prelude::*;
use crate::flags::{Flag, flag_bits_spec, flag_of_bits_spec, lemma_flag_bits_round_trip};

verus! {

/// The CPU register file: eight 8-bit registers (F held as flags), the
/// stack pointer and the program counter. The 16-bit views AF, BC, DE and
/// HL treat the first register of the pair as the high byte.
#[derive(Clone, Copy, PartialEq, Eq, Structural, Debug)]
pub struct Registers {
    pub a: u8,
    pub b: u8,
    pub c: u8,
    pub d: u8,
    pub e: u8,
    pub f: Flag,
    pub h: u8,
    pub l: u8,
    pub pc: u16,
    pub sp: u16,
}

/// The 16-bit value formed by a high and a low byte.
pub open spec fn word_spec(hi: u8, lo: u8) -> u16 {
    (hi * 256 + lo) as u16
}

/// The high byte of a 16-bit value.
pub open spec fn hi_byte_spec(v: u16) -> u8 {
    (v / 256) as u8
}

/// The low byte of a 16-bit value.
pub open spec fn lo_byte_spec(v: u16) -> u8 {
    (v % 256) as u8
}

impl Registers {
    pub open spec fn af_spec(self) -> u16 {
        word_spec(self.a, flag_bits_spec(self.f))
    }

    pub open spec fn bc_spec(self) -> u16 {
        word_spec(self.b, self.c)
    }

    pub open spec fn de_spec(self) -> u16 {
        word_spec(self.d, self.e)
    }

    pub open spec fn hl_spec(self) -> u16 {
        word_spec(self.h, self.l)
    }

    pub fn get_af(&self) -> (r: u16)
        ensures
            r == self.af_spec(),
    {
        (self.a as u16) * 256 + (self.f.bits() as u16)
    }

    pub fn get_bc(&self) -> (r: u16)
        ensures
            r == self.bc_spec(),
    {
        (self.b as u16) * 256 + (self.c as u16)
    }

    pub fn get_de(&self) -> (r: u16)
        ensures
            r == self.de_spec(),
    {
        (self.d as u16) * 256 + (self.e as u16)
    }

    pub fn get_hl(&self) -> (r: u16)
        ensures
            r == self.hl_spec(),
    {
        (self.h as u16) * 256 + (self.l as u16)
    }

    pub fn set_af(&mut self, value: u16)
        ensures
            *final(self) == (Registers {
                a: hi_byte_spec(value),
                f: flag_of_bits_spec(lo_byte_spec(value)),
                ..*old(self)
            }),
    {
        self.a = (value / 256) as u8;
        self.f = Flag::from_bits((value % 256) as u8);
    }

    pub fn set_bc(&mut self, value: u16)
        ensures
            *final(self) == (Registers {
                b: hi_byte_spec(value),
                c: lo_byte_spec(value),
                ..*old(self)
            }),
    {
        self.b = (value / 256) as u8;
        self.c = (value % 256) as u8;
    }

    pub fn set_de(&mut self, value: u16)
        ensures
            *final(self) == (Registers {
                d: hi_byte_spec(value),
                e: lo_byte_spec(value),
                ..*old(self)
            }),
    {
        self.d = (value / 256) as u8;
        self.e = (value % 256) as u8;
    }

    pub fn set_hl(&mut self, value: u16)
        ensures
            *final(self) == (Registers {
                h: hi_byte_spec(value),
                l: lo_byte_spec(value),
                ..*old(self)
            }),
    {
        self.h = (value / 256) as u8;
        self.l = (value % 256) as u8;
    }
}

/// Splitting a 16-bit value into bytes and recombining them gives the value
/// back.
pub proof fn lemma_word_round_trip(v: u16)
    ensures
        word_spec(hi_byte_spec(v), lo_byte_spec(v)) == v,
{
}

/// Recombining two bytes and splitting the result gives the bytes back.
pub proof fn lemma_word_split(hi: u8, lo: u8)
    ensures
        hi_byte_spec(word_spec(hi, lo)) == hi,
        lo_byte_spec(word_spec(hi, lo)) == lo,
{
}

/// Writing a value to AF and reading AF back yields the value with its low
/// nibble cleared: bits 3 to 0 of F do not exist.
pub proof fn lemma_af_round_trip(r: Registers, v: u16)
    ensures
        (Registers {
            a: hi_byte_spec(v),
            f: flag_of_bits_spec(lo_byte_spec(v)),
            ..r
        }).af_spec() == v & 0xFFF0,
{
    lemma_flag_bits_round_trip_bits(lo_byte_spec(v));
    assert((v / 256) * 256 + ((v % 256) - (v % 256) % 16) == v & 0xFFF0) by (bit_vector);
}

/// Packing the flags denoted by a byte back into a byte clears the low
/// nibble and keeps the rest.
pub proof fn lemma_flag_bits_round_trip_bits(v: u8)
    ensures
        flag_bits_spec(flag_of_bits_spec(v)) == v - v % 16,
{
}

/// Reading AF and writing the value back restores the register file
/// exactly: F has no low nibble to lose.
pub proof fn lemma_af_set_get(r: Registers)
    ensures
        (Registers {
            a: hi_byte_spec(r.af_spec()),
            f: flag_of_bits_spec(lo_byte_spec(r.af_spec())),
            ..r
        }) == r,
{
    lemma_word_split(r.a, flag_bits_spec(r.f));
    lemma_flag_bits_round_trip(r.f);
}

} // verus!
