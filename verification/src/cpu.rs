use vstd::prelude::*;
use crate::bus::{AddressBus, BusAbs, bus_read16_spec, bus_read_spec, bus_write16_spec, bus_write_spec};
use crate::flags::Flag;
use crate::regs::Registers;

verus! {

/// The processor: the register file, the interrupt master enable, the
/// halt latch, and a running cycle counter kept for diagnostics.
pub struct CPU {
    pub cycles: u64,
    pub registers: Registers,
    pub halt: bool,
    pub ime: bool,
}

/// A sum that sticks at the counter's ceiling instead of wrapping.
pub open spec fn sat_add64_spec(a: u64, b: u64) -> u64 {
    if a + b <= u64::MAX {
        (a + b) as u64
    } else {
        u64::MAX
    }
}

/// 16-bit wrap-around addition.
pub open spec fn add16_spec(a: u16, b: u16) -> u16 {
    ((a + b) % 0x10000) as u16
}

/// 16-bit wrap-around subtraction.
pub open spec fn sub16_spec(a: u16, b: u16) -> u16 {
    ((a - b + 0x10000) % 0x10000) as u16
}

/// The interrupts both requested and enabled, restricted to the five
/// meaningful bits.
pub open spec fn pending_spec(b: BusAbs) -> u8 {
    b.interrupts.ie & b.interrupts.iflag & 0x1F
}

/// The index of the lowest set bit of a nonzero five-bit mask: the
/// highest-priority pending interrupt.
pub open spec fn low_bit_spec(t: u8) -> int {
    if t % 2 == 1 {
        0
    } else if t / 2 % 2 == 1 {
        1
    } else if t / 4 % 2 == 1 {
        2
    } else if t / 8 % 2 == 1 {
        3
    } else {
        4
    }
}

/// The IF/IE mask of bit `n`.
pub open spec fn bit_mask_spec(n: int) -> u8 {
    if n == 0 {
        1
    } else if n == 1 {
        2
    } else if n == 2 {
        4
    } else if n == 3 {
        8
    } else {
        16
    }
}

/// The handler address of interrupt bit `n`: 0x40, 0x48, 0x50, 0x58,
/// 0x60.
pub open spec fn int_vector_spec(n: int) -> u16 {
    (0x40 + 8 * n) as u16
}

/// Whether an opcode is one of the holes of the instruction map (STOP,
/// unimplemented, counted among them).
pub open spec fn undefined_op_spec(op: u8) -> bool {
    ||| op == 0x10
    ||| op == 0xD3
    ||| op == 0xDB
    ||| op == 0xDD
    ||| op == 0xE3
    ||| op == 0xE4
    ||| op == 0xEB
    ||| op == 0xEC
    ||| op == 0xED
    ||| op == 0xF4
    ||| op == 0xFC
    ||| op == 0xFD
}

/// The bus after an interrupt dispatch: bit `n` of IF cleared, then the
/// return address pushed.
pub open spec fn dispatch_bus_spec(b: BusAbs, cpu: CPU, n: int) -> BusAbs {
    bus_write16_spec(
        bus_write_spec(b, 0xFF0F, (b.interrupts.iflag - bit_mask_spec(n)) as u8),
        sub16_spec(cpu.registers.sp, 2),
        cpu.registers.pc,
    )
}

/// The CPU after an interrupt dispatch: IME dropped, un-halted, SP moved
/// past the pushed return address, PC at the handler vector.
pub open spec fn dispatch_cpu_spec(cpu: CPU, n: int) -> CPU {
    CPU {
        registers: Registers {
            pc: int_vector_spec(n),
            sp: sub16_spec(cpu.registers.sp, 2),
            ..cpu.registers
        },
        halt: false,
        ime: false,
        ..cpu
    }
}

/// The processor state the boot ROM leaves behind.
pub open spec fn cpu_new_spec() -> CPU {
    CPU {
        cycles: 0,
        registers: Registers {
            a: 0x01,
            b: 0x00,
            c: 0x13,
            d: 0x00,
            e: 0xD8,
            f: Flag { zero: true, subtract: false, half_carry: true, carry: true },
            h: 0x01,
            l: 0x4D,
            pc: 0x0100,
            sp: 0xFFFE,
        },
        halt: false,
        ime: true,
    }
}

impl CPU {
    /// The processor as the boot ROM leaves it.
    pub fn new() -> (r: CPU)
        ensures
            r == cpu_new_spec(),
            r == (CPU {
                cycles: 0,
                registers: Registers {
                    a: 0x01,
                    b: 0x00,
                    c: 0x13,
                    d: 0x00,
                    e: 0xD8,
                    f: Flag { zero: true, subtract: false, half_carry: true, carry: true },
                    h: 0x01,
                    l: 0x4D,
                    pc: 0x0100,
                    sp: 0xFFFE,
                },
                halt: false,
                ime: true,
            }),
    {
        CPU {
            cycles: 0,
            registers: Registers {
                a: 0x01,
                b: 0x00,
                c: 0x13,
                d: 0x00,
                e: 0xD8,
                f: Flag { zero: true, subtract: false, half_carry: true, carry: true },
                h: 0x01,
                l: 0x4D,
                pc: 0x0100,
                sp: 0xFFFE,
            },
            halt: false,
            ime: true,
        }
    }

    /// The immediate byte at PC; PC moves past it.
    pub fn get_n(&mut self, memory: &AddressBus) -> (n: u8)
        requires
            memory.wf(),
        ensures
            n == bus_read_spec(memory@, old(self).registers.pc),
            *final(self) == (CPU {
                registers: Registers {
                    pc: add16_spec(old(self).registers.pc, 1),
                    ..old(self).registers
                },
                ..*old(self)
            }),
    {
        let n = memory.read_byte(self.registers.pc);
        self.registers.pc = if self.registers.pc == 0xFFFF {
            0
        } else {
            self.registers.pc + 1
        };
        n
    }

    /// The immediate little-endian word at PC; PC moves past it.
    pub fn get_nn(&mut self, memory: &AddressBus) -> (nn: u16)
        requires
            memory.wf(),
        ensures
            nn == bus_read16_spec(memory@, old(self).registers.pc),
            *final(self) == (CPU {
                registers: Registers {
                    pc: add16_spec(old(self).registers.pc, 2),
                    ..old(self).registers
                },
                ..*old(self)
            }),
    {
        let nn = memory.read_word(self.registers.pc);
        self.registers.pc = if self.registers.pc >= 0xFFFE {
            (self.registers.pc as u32 + 2 - 0x10000) as u16
        } else {
            self.registers.pc + 2
        };
        nn
    }

    /// Predecrements SP by two and stores the word there, little-endian.
    pub fn push(&mut self, memory: &mut AddressBus, value: u16)
        requires
            old(memory).wf(),
        ensures
            final(memory).wf(),
            final(memory)@ == bus_write16_spec(
                old(memory)@,
                sub16_spec(old(self).registers.sp, 2),
                value,
            ),
            *final(self) == (CPU {
                registers: Registers {
                    sp: sub16_spec(old(self).registers.sp, 2),
                    ..old(self).registers
                },
                ..*old(self)
            }),
    {
        self.registers.sp = if self.registers.sp >= 2 {
            self.registers.sp - 2
        } else {
            (self.registers.sp as u32 + 0x10000 - 2) as u16
        };
        memory.write_word(self.registers.sp, value);
    }

    /// The word at SP; SP moves past it.
    pub fn pop(&mut self, memory: &AddressBus) -> (r: u16)
        requires
            memory.wf(),
        ensures
            r == bus_read16_spec(memory@, old(self).registers.sp),
            *final(self) == (CPU {
                registers: Registers {
                    sp: add16_spec(old(self).registers.sp, 2),
                    ..old(self).registers
                },
                ..*old(self)
            }),
    {
        let r = memory.read_word(self.registers.sp);
        self.registers.sp = if self.registers.sp >= 0xFFFE {
            (self.registers.sp as u32 + 2 - 0x10000) as u16
        } else {
            self.registers.sp + 2
        };
        r
    }

    /// Checks for a pending enabled interrupt before a fetch. Nothing
    /// happens unless one is pending and the CPU is either halted or has
    /// IME set; a pending interrupt always lifts a halt; the dispatch
    /// itself happens only under IME: it clears IME and the interrupt's
    /// IF bit, pushes PC, and jumps to the vector.
    pub fn handle_interrupts(&mut self, memory: &mut AddressBus) -> (dispatched: bool)
        requires
            old(memory).wf(),
        ensures
            final(memory).wf(),
            ({
                let p = pending_spec(old(memory)@);
                &&& (!old(self).ime && !old(self).halt ==> !dispatched && *final(self) == *old(self)
                    && final(memory)@ == old(memory)@)
                &&& ((old(self).ime || old(self).halt) && p == 0 ==> !dispatched && *final(self)
                    == *old(self) && final(memory)@ == old(memory)@)
                &&& (!old(self).ime && old(self).halt && p != 0 ==> !dispatched && *final(self) == (
                CPU { halt: false, ..*old(self) }) && final(memory)@ == old(memory)@)
                &&& (old(self).ime && p != 0 ==> dispatched && *final(self) == dispatch_cpu_spec(
                    *old(self),
                    low_bit_spec(p),
                ) && final(memory)@ == dispatch_bus_spec(old(memory)@, *old(self), low_bit_spec(p)))
            }),
    {
        if !self.ime && !self.halt {
            return false;
        }

        let inte = memory.read_byte(0xFFFF);
        let intf = memory.read_byte(0xFF0F);

        proof {
            reveal(bus_read_spec);
            assert(inte == memory@.interrupts.ie);
            assert(intf == memory@.interrupts.iflag);
        }

        let triggered = inte & intf & 0x1F;

        if triggered == 0x00 {
            return false;
        }

        self.halt = false;

        if !self.ime {
            return false;
        }

        self.ime = false;

        let (n, mask): (u8, u8) = if triggered % 2 == 1 {
            (0, 1)
        } else if triggered / 2 % 2 == 1 {
            (1, 2)
        } else if triggered / 4 % 2 == 1 {
            (2, 4)
        } else if triggered / 8 % 2 == 1 {
            (3, 8)
        } else {
            (4, 16)
        };

        proof {
            assert(intf & mask == mask) by (bit_vector)
                requires
                    triggered == inte & intf & 0x1F,
                    triggered != 0,
                    (n == 0 && mask == 1 && triggered % 2 == 1) || (n == 1 && mask == 2 && triggered
                        / 2 % 2 == 1) || (n == 2 && mask == 4 && triggered / 4 % 2 == 1) || (n == 3
                        && mask == 8 && triggered / 8 % 2 == 1) || (n == 4 && mask == 16 && triggered
                        % 2 == 0 && triggered / 2 % 2 == 0 && triggered / 4 % 2 == 0 && triggered / 8
                        % 2 == 0),
            ;
            assert(intf >= mask) by (bit_vector)
                requires
                    intf & mask == mask,
                    mask == 1 || mask == 2 || mask == 4 || mask == 8 || mask == 16,
            ;
        }

        let newf = intf - mask;
        memory.write_byte(0xFF0F, newf);

        let pc = self.registers.pc;
        self.push(memory, pc);

        self.registers.pc = if n == 0 {
            0x0040
        } else if n == 1 {
            0x0048
        } else if n == 2 {
            0x0050
        } else if n == 3 {
            0x0058
        } else {
            0x0060
        };

        true
    }
}


/// A 16-bit value pushed and then popped comes back unchanged, with SP
/// restored, whenever the two stack cells lie in plainly-backed RAM (for
/// AF the flag byte additionally drops its nonexistent low nibble, as
/// `lemma_af_round_trip` states).
pub proof fn lemma_push_pop_round_trip(b: BusAbs, sp: u16, v: u16)
    requires
        crate::bus::plain_ram_spec(sub16_spec(sp, 2)),
        crate::bus::plain_ram_spec(crate::bus::addr_succ_spec(sub16_spec(sp, 2))),
        b.wram.len() == 8192,
        b.hram.len() == 127,
    ensures
        bus_read16_spec(bus_write16_spec(b, sub16_spec(sp, 2), v), sub16_spec(sp, 2)) == v,
        add16_spec(sub16_spec(sp, 2), 2) == sp,
{
    crate::bus::lemma_ram_write_read16(b, sub16_spec(sp, 2), v);
}

} // verus!
