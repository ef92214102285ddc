use vstd::prelude::*;
use crate::cpu::CPU;
use crate::flags::Flag;
use crate::regs::Registers;

verus! {

/// 8-bit addition with a carry-in, wrapping around.
pub open spec fn add8_spec(a: u8, v: u8, c0: int) -> u8 {
    ((a + v + c0) % 256) as u8
}

/// 8-bit subtraction with a borrow-in, wrapping around.
pub open spec fn sub8_spec(a: u8, v: u8, c0: int) -> u8 {
    ((a - v - c0 + 512) % 256) as u8
}

/// The flags an 8-bit addition leaves: Z on a zero result, N clear, H on
/// a low-nibble carry, C on a byte carry, the carry-in counted in both.
pub open spec fn add_flags_spec(a: u8, v: u8, c0: int) -> Flag {
    Flag {
        zero: add8_spec(a, v, c0) == 0,
        subtract: false,
        half_carry: a % 16 + v % 16 + c0 > 15,
        carry: a + v + c0 > 255,
    }
}

/// The flags an 8-bit subtraction leaves: Z on a zero result, N set, H on
/// a low-nibble borrow, C on a byte borrow, the borrow-in counted in
/// both.
pub open spec fn sub_flags_spec(a: u8, v: u8, c0: int) -> Flag {
    Flag {
        zero: sub8_spec(a, v, c0) == 0,
        subtract: true,
        half_carry: v % 16 + c0 > a % 16,
        carry: v + c0 > a,
    }
}

/// The flags of AND, OR and XOR: Z on a zero result, N and C clear, H set
/// only for AND.
pub open spec fn logic_flags_spec(zero: bool, half_carry: bool) -> Flag {
    Flag { zero, subtract: false, half_carry, carry: false }
}

/// The flags of the rotate and shift family: N and H clear, C the bit
/// shifted out, Z as given (the accumulator-form rotates clear it).
pub open spec fn rot_flags_spec(zero: bool, carry: bool) -> Flag {
    Flag { zero, subtract: false, half_carry: false, carry }
}

/// INC leaves C alone: Z on wrap to zero, N clear, H when the low nibble
/// was 0xF.
pub open spec fn inc_flags_spec(v: u8, f: Flag) -> Flag {
    Flag {
        zero: add8_spec(v, 1, 0) == 0,
        subtract: false,
        half_carry: v % 16 == 15,
        carry: f.carry,
    }
}

/// DEC leaves C alone: Z on a zero result, N set, H when the low nibble
/// was 0x0.
pub open spec fn dec_flags_spec(v: u8, f: Flag) -> Flag {
    Flag {
        zero: sub8_spec(v, 1, 0) == 0,
        subtract: true,
        half_carry: v % 16 == 0,
        carry: f.carry,
    }
}

/// ADD HL,rr leaves Z alone: N clear, H on a bit-11 carry, C on a bit-15
/// carry.
pub open spec fn add_hl_flags_spec(hl: u16, v: u16, f: Flag) -> Flag {
    Flag {
        zero: f.zero,
        subtract: false,
        half_carry: hl % 4096 + v % 4096 > 4095,
        carry: hl + v > 65535,
    }
}

/// ADD SP,e8 and LDHL SP,e8 clear Z and N and take H and C from the
/// unsigned byte arithmetic on the low byte of SP.
pub open spec fn sp_offset_flags_spec(sp: u16, n: u8) -> Flag {
    Flag {
        zero: false,
        subtract: false,
        half_carry: sp % 16 + n % 16 > 15,
        carry: sp % 256 + n > 255,
    }
}

/// A byte offset sign-extended to 16 bits.
pub open spec fn sign_ext_spec(n: u8) -> u16 {
    if n < 128 {
        n as u16
    } else {
        (n + 0xFF00) as u16
    }
}

/// Rotate left: bit 7 moves to bit 0.
pub open spec fn rlc8_spec(v: u8) -> u8 {
    ((v % 128) * 2 + v / 128) as u8
}

/// Rotate left through carry: the old carry enters at bit 0.
pub open spec fn rl8_spec(v: u8, carry: bool) -> u8 {
    ((v % 128) * 2 + if carry {
        1int
    } else {
        0int
    }) as u8
}

/// Rotate right: bit 0 moves to bit 7.
pub open spec fn rrc8_spec(v: u8) -> u8 {
    (v / 2 + (v % 2) * 128) as u8
}

/// Rotate right through carry: the old carry enters at bit 7.
pub open spec fn rr8_spec(v: u8, carry: bool) -> u8 {
    (v / 2 + if carry {
        128int
    } else {
        0int
    }) as u8
}

/// Arithmetic shift left.
pub open spec fn sla8_spec(v: u8) -> u8 {
    ((v % 128) * 2) as u8
}

/// Arithmetic shift right: bit 7 keeps its value.
pub open spec fn sra8_spec(v: u8) -> u8 {
    (v / 2 + (v / 128) * 128) as u8
}

/// Logical shift right.
pub open spec fn srl8_spec(v: u8) -> u8 {
    (v / 2) as u8
}

/// The nibbles exchanged.
pub open spec fn swap8_spec(v: u8) -> u8 {
    ((v % 16) * 16 + v / 16) as u8
}

/// The accumulator and flags DAA leaves: a BCD adjustment of 0x06 and/or
/// 0x60 chosen from H, C and (when adding) the digit values, added or
/// subtracted per N; C reports an adjustment of 0x60 or more, H is
/// cleared, N kept.
pub open spec fn daa_a_spec(a: u8, f: Flag) -> u8 {
    if !f.subtract {
        let adj = (if f.half_carry || a % 16 > 9 {
            6int
        } else {
            0int
        }) + (if f.carry || a > 0x99 {
            0x60int
        } else {
            0int
        });
        ((a + adj) % 256) as u8
    } else {
        let adj = (if f.carry {
            0x60int
        } else {
            0int
        }) + (if f.half_carry {
            6int
        } else {
            0int
        });
        ((a - adj + 256) % 256) as u8
    }
}

pub open spec fn daa_flags_spec(a: u8, f: Flag) -> Flag {
    let carry = if !f.subtract {
        f.carry || a > 0x99
    } else {
        f.carry
    };
    Flag { zero: daa_a_spec(a, f) == 0, subtract: f.subtract, half_carry: false, carry }
}

impl CPU {
    /// ADD A,v / ADC A,v: `with_carry` folds the old carry in.
    pub fn alu_add(&mut self, value: u8, with_carry: bool)
        ensures
            ({
                let c0: int = if with_carry && old(self).registers.f.carry {
                    1
                } else {
                    0
                };
                *final(self) == (CPU {
                    registers: Registers {
                        a: add8_spec(old(self).registers.a, value, c0),
                        f: add_flags_spec(old(self).registers.a, value, c0),
                        ..old(self).registers
                    },
                    ..*old(self)
                })
            }),
    {
        let a = self.registers.a;
        let c0: u16 = if with_carry && self.registers.f.carry {
            1
        } else {
            0
        };
        let total: u16 = a as u16 + value as u16 + c0;
        let r = (total % 256) as u8;
        self.registers.a = r;
        self.registers.f = Flag::make(
            r == 0,
            false,
            (a % 16) as u16 + (value % 16) as u16 + c0 > 15,
            total > 255,
        );
    }

    /// SUB v / SBC A,v: `with_carry` folds the old carry in as a borrow.
    pub fn alu_sub(&mut self, value: u8, with_carry: bool)
        ensures
            ({
                let c0: int = if with_carry && old(self).registers.f.carry {
                    1
                } else {
                    0
                };
                *final(self) == (CPU {
                    registers: Registers {
                        a: sub8_spec(old(self).registers.a, value, c0),
                        f: sub_flags_spec(old(self).registers.a, value, c0),
                        ..old(self).registers
                    },
                    ..*old(self)
                })
            }),
    {
        let a = self.registers.a;
        let c0: u16 = if with_carry && self.registers.f.carry {
            1
        } else {
            0
        };
        let total: u16 = a as u16 + 512 - value as u16 - c0;
        let r = (total % 256) as u8;
        self.registers.a = r;
        self.registers.f = Flag::make(
            r == 0,
            true,
            (value % 16) as u16 + c0 > (a % 16) as u16,
            value as u16 + c0 > a as u16,
        );
    }

    /// CP v: the flags of SUB with the accumulator kept.
    pub fn alu_cp(&mut self, value: u8)
        ensures
            *final(self) == (CPU {
                registers: Registers {
                    f: sub_flags_spec(old(self).registers.a, value, 0),
                    ..old(self).registers
                },
                ..*old(self)
            }),
    {
        let a = self.registers.a;
        let total: u16 = a as u16 + 512 - value as u16;
        let r = (total % 256) as u8;
        self.registers.f = Flag::make(r == 0, true, value % 16 > a % 16, value > a);
    }

    /// AND v.
    pub fn alu_and(&mut self, value: u8)
        ensures
            *final(self) == (CPU {
                registers: Registers {
                    a: old(self).registers.a & value,
                    f: logic_flags_spec(old(self).registers.a & value == 0, true),
                    ..old(self).registers
                },
                ..*old(self)
            }),
    {
        self.registers.a = self.registers.a & value;
        self.registers.f = Flag::make(self.registers.a == 0, false, true, false);
    }

    /// XOR v.
    pub fn alu_xor(&mut self, value: u8)
        ensures
            *final(self) == (CPU {
                registers: Registers {
                    a: old(self).registers.a ^ value,
                    f: logic_flags_spec(old(self).registers.a ^ value == 0, false),
                    ..old(self).registers
                },
                ..*old(self)
            }),
    {
        self.registers.a = self.registers.a ^ value;
        self.registers.f = Flag::make(self.registers.a == 0, false, false, false);
    }

    /// OR v.
    pub fn alu_or(&mut self, value: u8)
        ensures
            *final(self) == (CPU {
                registers: Registers {
                    a: old(self).registers.a | value,
                    f: logic_flags_spec(old(self).registers.a | value == 0, false),
                    ..old(self).registers
                },
                ..*old(self)
            }),
    {
        self.registers.a = self.registers.a | value;
        self.registers.f = Flag::make(self.registers.a == 0, false, false, false);
    }

    /// INC of any 8-bit operand: the incremented value comes back, the
    /// flags are set, C is untouched.
    pub fn alu_inc(&mut self, value: u8) -> (r: u8)
        ensures
            r == add8_spec(value, 1, 0),
            *final(self) == (CPU {
                registers: Registers {
                    f: inc_flags_spec(value, old(self).registers.f),
                    ..old(self).registers
                },
                ..*old(self)
            }),
    {
        let r = if value == 255 {
            0
        } else {
            value + 1
        };
        self.registers.f = Flag::make(r == 0, false, value % 16 == 15, self.registers.f.carry);
        r
    }

    /// DEC of any 8-bit operand: the decremented value comes back, the
    /// flags are set, C is untouched.
    pub fn alu_dec(&mut self, value: u8) -> (r: u8)
        ensures
            r == sub8_spec(value, 1, 0),
            *final(self) == (CPU {
                registers: Registers {
                    f: dec_flags_spec(value, old(self).registers.f),
                    ..old(self).registers
                },
                ..*old(self)
            }),
    {
        let r = if value == 0 {
            255
        } else {
            value - 1
        };
        self.registers.f = Flag::make(r == 0, true, value % 16 == 0, self.registers.f.carry);
        r
    }

    /// ADD HL,v.
    pub fn alu_add_hl(&mut self, value: u16)
        ensures
            *final(self) == (CPU {
                registers: Registers {
                    h: crate::regs::hi_byte_spec(
                        crate::cpu::add16_spec(old(self).registers.hl_spec(), value),
                    ),
                    l: crate::regs::lo_byte_spec(
                        crate::cpu::add16_spec(old(self).registers.hl_spec(), value),
                    ),
                    f: add_hl_flags_spec(old(self).registers.hl_spec(), value, old(self).registers.f),
                    ..old(self).registers
                },
                ..*old(self)
            }),
    {
        let hl = self.registers.get_hl();
        let total: u32 = hl as u32 + value as u32;
        let r = (total % 65536) as u16;
        let half = (hl % 4096) as u32 + (value % 4096) as u32 > 4095;
        self.registers.set_hl(r);
        self.registers.f = Flag::make(self.registers.f.zero, false, half, total > 65535);
    }

    /// One of the rotate/shift/swap family applied to a value: the result
    /// comes back and the flags are set (Z from the result, C the bit
    /// moved out, nothing for SWAP).
    pub fn alu_rlc(&mut self, value: u8) -> (r: u8)
        ensures
            r == rlc8_spec(value),
            *final(self) == (CPU {
                registers: Registers {
                    f: rot_flags_spec(rlc8_spec(value) == 0, value / 128 == 1),
                    ..old(self).registers
                },
                ..*old(self)
            }),
    {
        let r = (value % 128) * 2 + value / 128;
        self.registers.f = Flag::make(r == 0, false, false, value / 128 == 1);
        r
    }

    pub fn alu_rl(&mut self, value: u8) -> (r: u8)
        ensures
            r == rl8_spec(value, old(self).registers.f.carry),
            *final(self) == (CPU {
                registers: Registers {
                    f: rot_flags_spec(
                        rl8_spec(value, old(self).registers.f.carry) == 0,
                        value / 128 == 1,
                    ),
                    ..old(self).registers
                },
                ..*old(self)
            }),
    {
        let carry: u8 = if self.registers.f.carry {
            1
        } else {
            0
        };
        let r = (value % 128) * 2 + carry;
        self.registers.f = Flag::make(r == 0, false, false, value / 128 == 1);
        r
    }

    pub fn alu_rrc(&mut self, value: u8) -> (r: u8)
        ensures
            r == rrc8_spec(value),
            *final(self) == (CPU {
                registers: Registers {
                    f: rot_flags_spec(rrc8_spec(value) == 0, value % 2 == 1),
                    ..old(self).registers
                },
                ..*old(self)
            }),
    {
        let r = value / 2 + (value % 2) * 128;
        self.registers.f = Flag::make(r == 0, false, false, value % 2 == 1);
        r
    }

    pub fn alu_rr(&mut self, value: u8) -> (r: u8)
        ensures
            r == rr8_spec(value, old(self).registers.f.carry),
            *final(self) == (CPU {
                registers: Registers {
                    f: rot_flags_spec(
                        rr8_spec(value, old(self).registers.f.carry) == 0,
                        value % 2 == 1,
                    ),
                    ..old(self).registers
                },
                ..*old(self)
            }),
    {
        let carry: u8 = if self.registers.f.carry {
            128
        } else {
            0
        };
        let r = value / 2 + carry;
        self.registers.f = Flag::make(r == 0, false, false, value % 2 == 1);
        r
    }

    pub fn alu_sla(&mut self, value: u8) -> (r: u8)
        ensures
            r == sla8_spec(value),
            *final(self) == (CPU {
                registers: Registers {
                    f: rot_flags_spec(sla8_spec(value) == 0, value / 128 == 1),
                    ..old(self).registers
                },
                ..*old(self)
            }),
    {
        let r = (value % 128) * 2;
        self.registers.f = Flag::make(r == 0, false, false, value / 128 == 1);
        r
    }

    pub fn alu_sra(&mut self, value: u8) -> (r: u8)
        ensures
            r == sra8_spec(value),
            *final(self) == (CPU {
                registers: Registers {
                    f: rot_flags_spec(sra8_spec(value) == 0, value % 2 == 1),
                    ..old(self).registers
                },
                ..*old(self)
            }),
    {
        let r = value / 2 + (value / 128) * 128;
        self.registers.f = Flag::make(r == 0, false, false, value % 2 == 1);
        r
    }

    pub fn alu_srl(&mut self, value: u8) -> (r: u8)
        ensures
            r == srl8_spec(value),
            *final(self) == (CPU {
                registers: Registers {
                    f: rot_flags_spec(srl8_spec(value) == 0, value % 2 == 1),
                    ..old(self).registers
                },
                ..*old(self)
            }),
    {
        let r = value / 2;
        self.registers.f = Flag::make(r == 0, false, false, value % 2 == 1);
        r
    }

    pub fn alu_swap(&mut self, value: u8) -> (r: u8)
        ensures
            r == swap8_spec(value),
            *final(self) == (CPU {
                registers: Registers {
                    f: rot_flags_spec(swap8_spec(value) == 0, false),
                    ..old(self).registers
                },
                ..*old(self)
            }),
    {
        let r = (value % 16) * 16 + value / 16;
        self.registers.f = Flag::make(r == 0, false, false, false);
        r
    }

    /// BIT n,v with a constant mask: Z from the tested bit, N clear, H
    /// set, C untouched.
    pub fn alu_bit(&mut self, mask: u8, value: u8)
        ensures
            *final(self) == (CPU {
                registers: Registers {
                    f: Flag {
                        zero: value & mask == 0,
                        subtract: false,
                        half_carry: true,
                        carry: old(self).registers.f.carry,
                    },
                    ..old(self).registers
                },
                ..*old(self)
            }),
    {
        self.registers.f = Flag::make(value & mask == 0, false, true, self.registers.f.carry);
    }

    /// DAA.
    pub fn alu_daa(&mut self)
        ensures
            *final(self) == (CPU {
                registers: Registers {
                    a: daa_a_spec(old(self).registers.a, old(self).registers.f),
                    f: daa_flags_spec(old(self).registers.a, old(self).registers.f),
                    ..old(self).registers
                },
                ..*old(self)
            }),
    {
        let a = self.registers.a;
        let f = self.registers.f;
        let r: u8;
        let carry: bool;
        if !f.subtract {
            let low: u16 = if f.half_carry || a % 16 > 9 {
                6
            } else {
                0
            };
            let high: u16 = if f.carry || a > 0x99 {
                0x60
            } else {
                0
            };
            r = ((a as u16 + low + high) % 256) as u8;
            carry = f.carry || a > 0x99;
        } else {
            let adj: u16 = (if f.carry {
                0x60u16
            } else {
                0u16
            }) + (if f.half_carry {
                6u16
            } else {
                0u16
            });
            r = ((a as u16 + 256 - adj) % 256) as u8;
            carry = f.carry;
        }
        self.registers.a = r;
        self.registers.f = Flag::make(r == 0, f.subtract, false, carry);
    }

    /// JR: PC moves by the signed byte offset.
    pub fn jump_rel(&mut self, offset: u8)
        ensures
            *final(self) == (CPU {
                registers: Registers {
                    pc: crate::cpu::add16_spec(old(self).registers.pc, sign_ext_spec(offset)),
                    ..old(self).registers
                },
                ..*old(self)
            }),
    {
        let ext: u16 = if offset < 128 {
            offset as u16
        } else {
            offset as u16 + 0xFF00
        };
        let total: u32 = self.registers.pc as u32 + ext as u32;
        self.registers.pc = (total % 65536) as u16;
    }
}

} // verus!
