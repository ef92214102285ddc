use vstd::prelude::*;
use crate::bus::{AddressBus, bus_read16_spec, bus_read_spec, bus_write16_spec, bus_write_spec};
use crate::cpu::{CPU, add16_spec, sub16_spec};
use crate::cpu_alu::{
    add8_spec, add_flags_spec, add_hl_flags_spec, daa_a_spec, daa_flags_spec, dec_flags_spec,
    inc_flags_spec, logic_flags_spec, rl8_spec, rlc8_spec, rot_flags_spec, rr8_spec, rrc8_spec,
    sign_ext_spec, sp_offset_flags_spec, sub8_spec, sub_flags_spec,
};
use crate::flags::{Flag, flag_of_bits_spec};
use crate::regs::{Registers, hi_byte_spec, lo_byte_spec};

verus! {

impl CPU {
    /// NOP.
    pub fn nop(&mut self) -> (c: usize)
        ensures
            *final(self) == (CPU { ..*old(self) }),
            c == 4,
    {
        4
    }

    /// LD BC,nn.
    pub fn ld_bc_nn(&mut self, memory: &AddressBus) -> (c: usize)
        requires
            memory.wf(),
        ensures
            *final(self) == (CPU { registers: Registers { b: hi_byte_spec(bus_read16_spec(memory@, old(self).registers.pc)), c: lo_byte_spec(bus_read16_spec(memory@, old(self).registers.pc)), pc: add16_spec(old(self).registers.pc, 2), ..old(self).registers }, ..*old(self) }),
            c == 12,
    {
        let nn = self.get_nn(memory);
        self.registers.set_bc(nn);
        12
    }

    /// LD DE,nn.
    pub fn ld_de_nn(&mut self, memory: &AddressBus) -> (c: usize)
        requires
            memory.wf(),
        ensures
            *final(self) == (CPU { registers: Registers { d: hi_byte_spec(bus_read16_spec(memory@, old(self).registers.pc)), e: lo_byte_spec(bus_read16_spec(memory@, old(self).registers.pc)), pc: add16_spec(old(self).registers.pc, 2), ..old(self).registers }, ..*old(self) }),
            c == 12,
    {
        let nn = self.get_nn(memory);
        self.registers.set_de(nn);
        12
    }

    /// LD HL,nn.
    pub fn ld_hl_nn(&mut self, memory: &AddressBus) -> (c: usize)
        requires
            memory.wf(),
        ensures
            *final(self) == (CPU { registers: Registers { h: hi_byte_spec(bus_read16_spec(memory@, old(self).registers.pc)), l: lo_byte_spec(bus_read16_spec(memory@, old(self).registers.pc)), pc: add16_spec(old(self).registers.pc, 2), ..old(self).registers }, ..*old(self) }),
            c == 12,
    {
        let nn = self.get_nn(memory);
        self.registers.set_hl(nn);
        12
    }

    /// LD SP,nn.
    pub fn ld_sp_nn(&mut self, memory: &AddressBus) -> (c: usize)
        requires
            memory.wf(),
        ensures
            *final(self) == (CPU { registers: Registers { sp: bus_read16_spec(memory@, old(self).registers.pc), pc: add16_spec(old(self).registers.pc, 2), ..old(self).registers }, ..*old(self) }),
            c == 12,
    {
        let nn = self.get_nn(memory);
        self.registers.sp = nn;
        12
    }

    /// LD (BC),A.
    pub fn ld_bc_a(&mut self, memory: &mut AddressBus) -> (c: usize)
        requires
            old(memory).wf(),
        ensures
            final(memory).wf(),
            *final(self) == (CPU { ..*old(self) }),
            final(memory)@ == bus_write_spec(old(memory)@, old(self).registers.bc_spec(), old(self).registers.a),
            c == 8,
    {
        let addr = self.registers.get_bc();
        memory.write_byte(addr, self.registers.a);
        8
    }

    /// LD A,(BC).
    pub fn ld_a_bc(&mut self, memory: &AddressBus) -> (c: usize)
        requires
            memory.wf(),
        ensures
            *final(self) == (CPU { registers: Registers { a: bus_read_spec(memory@, old(self).registers.bc_spec()), ..old(self).registers }, ..*old(self) }),
            c == 8,
    {
        let addr = self.registers.get_bc();
        self.registers.a = memory.read_byte(addr);
        8
    }

    /// LD (DE),A.
    pub fn ld_de_a(&mut self, memory: &mut AddressBus) -> (c: usize)
        requires
            old(memory).wf(),
        ensures
            final(memory).wf(),
            *final(self) == (CPU { ..*old(self) }),
            final(memory)@ == bus_write_spec(old(memory)@, old(self).registers.de_spec(), old(self).registers.a),
            c == 8,
    {
        let addr = self.registers.get_de();
        memory.write_byte(addr, self.registers.a);
        8
    }

    /// LD A,(DE).
    pub fn ld_a_de(&mut self, memory: &AddressBus) -> (c: usize)
        requires
            memory.wf(),
        ensures
            *final(self) == (CPU { registers: Registers { a: bus_read_spec(memory@, old(self).registers.de_spec()), ..old(self).registers }, ..*old(self) }),
            c == 8,
    {
        let addr = self.registers.get_de();
        self.registers.a = memory.read_byte(addr);
        8
    }

    /// INC BC.
    pub fn inc_bc(&mut self) -> (c: usize)
        ensures
            *final(self) == (CPU { registers: Registers { b: hi_byte_spec(add16_spec(old(self).registers.bc_spec(), 1)), c: lo_byte_spec(add16_spec(old(self).registers.bc_spec(), 1)), ..old(self).registers }, ..*old(self) }),
            c == 8,
    {
        let v = self.registers.get_bc();
        let r = if v == 0xFFFF { 0 } else { v + 1 };
        self.registers.set_bc(r);
        8
    }

    /// DEC BC.
    pub fn dec_bc(&mut self) -> (c: usize)
        ensures
            *final(self) == (CPU { registers: Registers { b: hi_byte_spec(sub16_spec(old(self).registers.bc_spec(), 1)), c: lo_byte_spec(sub16_spec(old(self).registers.bc_spec(), 1)), ..old(self).registers }, ..*old(self) }),
            c == 8,
    {
        let v = self.registers.get_bc();
        let r = if v == 0 { 0xFFFF } else { v - 1 };
        self.registers.set_bc(r);
        8
    }

    /// INC DE.
    pub fn inc_de(&mut self) -> (c: usize)
        ensures
            *final(self) == (CPU { registers: Registers { d: hi_byte_spec(add16_spec(old(self).registers.de_spec(), 1)), e: lo_byte_spec(add16_spec(old(self).registers.de_spec(), 1)), ..old(self).registers }, ..*old(self) }),
            c == 8,
    {
        let v = self.registers.get_de();
        let r = if v == 0xFFFF { 0 } else { v + 1 };
        self.registers.set_de(r);
        8
    }

    /// DEC DE.
    pub fn dec_de(&mut self) -> (c: usize)
        ensures
            *final(self) == (CPU { registers: Registers { d: hi_byte_spec(sub16_spec(old(self).registers.de_spec(), 1)), e: lo_byte_spec(sub16_spec(old(self).registers.de_spec(), 1)), ..old(self).registers }, ..*old(self) }),
            c == 8,
    {
        let v = self.registers.get_de();
        let r = if v == 0 { 0xFFFF } else { v - 1 };
        self.registers.set_de(r);
        8
    }

    /// INC HL.
    pub fn inc_hl(&mut self) -> (c: usize)
        ensures
            *final(self) == (CPU { registers: Registers { h: hi_byte_spec(add16_spec(old(self).registers.hl_spec(), 1)), l: lo_byte_spec(add16_spec(old(self).registers.hl_spec(), 1)), ..old(self).registers }, ..*old(self) }),
            c == 8,
    {
        let v = self.registers.get_hl();
        let r = if v == 0xFFFF { 0 } else { v + 1 };
        self.registers.set_hl(r);
        8
    }

    /// DEC HL.
    pub fn dec_hl(&mut self) -> (c: usize)
        ensures
            *final(self) == (CPU { registers: Registers { h: hi_byte_spec(sub16_spec(old(self).registers.hl_spec(), 1)), l: lo_byte_spec(sub16_spec(old(self).registers.hl_spec(), 1)), ..old(self).registers }, ..*old(self) }),
            c == 8,
    {
        let v = self.registers.get_hl();
        let r = if v == 0 { 0xFFFF } else { v - 1 };
        self.registers.set_hl(r);
        8
    }

    /// INC SP.
    pub fn inc_sp(&mut self) -> (c: usize)
        ensures
            *final(self) == (CPU { registers: Registers { sp: add16_spec(old(self).registers.sp, 1), ..old(self).registers }, ..*old(self) }),
            c == 8,
    {
        let v = self.registers.sp;
        self.registers.sp = if v == 0xFFFF { 0 } else { v + 1 };
        8
    }

    /// DEC SP.
    pub fn dec_sp(&mut self) -> (c: usize)
        ensures
            *final(self) == (CPU { registers: Registers { sp: sub16_spec(old(self).registers.sp, 1), ..old(self).registers }, ..*old(self) }),
            c == 8,
    {
        let v = self.registers.sp;
        self.registers.sp = if v == 0 { 0xFFFF } else { v - 1 };
        8
    }

    /// INC B.
    pub fn inc_b(&mut self) -> (c: usize)
        ensures
            *final(self) == (CPU { registers: Registers { b: add8_spec(old(self).registers.b, 1, 0), f: inc_flags_spec(old(self).registers.b, old(self).registers.f), ..old(self).registers }, ..*old(self) }),
            c == 4,
    {
        let r = self.alu_inc(self.registers.b);
        self.registers.b = r;
        4
    }

    /// DEC B.
    pub fn dec_b(&mut self) -> (c: usize)
        ensures
            *final(self) == (CPU { registers: Registers { b: sub8_spec(old(self).registers.b, 1, 0), f: dec_flags_spec(old(self).registers.b, old(self).registers.f), ..old(self).registers }, ..*old(self) }),
            c == 4,
    {
        let r = self.alu_dec(self.registers.b);
        self.registers.b = r;
        4
    }

    /// INC C.
    pub fn inc_c(&mut self) -> (c: usize)
        ensures
            *final(self) == (CPU { registers: Registers { c: add8_spec(old(self).registers.c, 1, 0), f: inc_flags_spec(old(self).registers.c, old(self).registers.f), ..old(self).registers }, ..*old(self) }),
            c == 4,
    {
        let r = self.alu_inc(self.registers.c);
        self.registers.c = r;
        4
    }

    /// DEC C.
    pub fn dec_c(&mut self) -> (c: usize)
        ensures
            *final(self) == (CPU { registers: Registers { c: sub8_spec(old(self).registers.c, 1, 0), f: dec_flags_spec(old(self).registers.c, old(self).registers.f), ..old(self).registers }, ..*old(self) }),
            c == 4,
    {
        let r = self.alu_dec(self.registers.c);
        self.registers.c = r;
        4
    }

    /// INC D.
    pub fn inc_d(&mut self) -> (c: usize)
        ensures
            *final(self) == (CPU { registers: Registers { d: add8_spec(old(self).registers.d, 1, 0), f: inc_flags_spec(old(self).registers.d, old(self).registers.f), ..old(self).registers }, ..*old(self) }),
            c == 4,
    {
        let r = self.alu_inc(self.registers.d);
        self.registers.d = r;
        4
    }

    /// DEC D.
    pub fn dec_d(&mut self) -> (c: usize)
        ensures
            *final(self) == (CPU { registers: Registers { d: sub8_spec(old(self).registers.d, 1, 0), f: dec_flags_spec(old(self).registers.d, old(self).registers.f), ..old(self).registers }, ..*old(self) }),
            c == 4,
    {
        let r = self.alu_dec(self.registers.d);
        self.registers.d = r;
        4
    }

    /// INC E.
    pub fn inc_e(&mut self) -> (c: usize)
        ensures
            *final(self) == (CPU { registers: Registers { e: add8_spec(old(self).registers.e, 1, 0), f: inc_flags_spec(old(self).registers.e, old(self).registers.f), ..old(self).registers }, ..*old(self) }),
            c == 4,
    {
        let r = self.alu_inc(self.registers.e);
        self.registers.e = r;
        4
    }

    /// DEC E.
    pub fn dec_e(&mut self) -> (c: usize)
        ensures
            *final(self) == (CPU { registers: Registers { e: sub8_spec(old(self).registers.e, 1, 0), f: dec_flags_spec(old(self).registers.e, old(self).registers.f), ..old(self).registers }, ..*old(self) }),
            c == 4,
    {
        let r = self.alu_dec(self.registers.e);
        self.registers.e = r;
        4
    }

    /// INC H.
    pub fn inc_h(&mut self) -> (c: usize)
        ensures
            *final(self) == (CPU { registers: Registers { h: add8_spec(old(self).registers.h, 1, 0), f: inc_flags_spec(old(self).registers.h, old(self).registers.f), ..old(self).registers }, ..*old(self) }),
            c == 4,
    {
        let r = self.alu_inc(self.registers.h);
        self.registers.h = r;
        4
    }

    /// DEC H.
    pub fn dec_h(&mut self) -> (c: usize)
        ensures
            *final(self) == (CPU { registers: Registers { h: sub8_spec(old(self).registers.h, 1, 0), f: dec_flags_spec(old(self).registers.h, old(self).registers.f), ..old(self).registers }, ..*old(self) }),
            c == 4,
    {
        let r = self.alu_dec(self.registers.h);
        self.registers.h = r;
        4
    }

    /// INC L.
    pub fn inc_l(&mut self) -> (c: usize)
        ensures
            *final(self) == (CPU { registers: Registers { l: add8_spec(old(self).registers.l, 1, 0), f: inc_flags_spec(old(self).registers.l, old(self).registers.f), ..old(self).registers }, ..*old(self) }),
            c == 4,
    {
        let r = self.alu_inc(self.registers.l);
        self.registers.l = r;
        4
    }

    /// DEC L.
    pub fn dec_l(&mut self) -> (c: usize)
        ensures
            *final(self) == (CPU { registers: Registers { l: sub8_spec(old(self).registers.l, 1, 0), f: dec_flags_spec(old(self).registers.l, old(self).registers.f), ..old(self).registers }, ..*old(self) }),
            c == 4,
    {
        let r = self.alu_dec(self.registers.l);
        self.registers.l = r;
        4
    }

    /// INC A.
    pub fn inc_a(&mut self) -> (c: usize)
        ensures
            *final(self) == (CPU { registers: Registers { a: add8_spec(old(self).registers.a, 1, 0), f: inc_flags_spec(old(self).registers.a, old(self).registers.f), ..old(self).registers }, ..*old(self) }),
            c == 4,
    {
        let r = self.alu_inc(self.registers.a);
        self.registers.a = r;
        4
    }

    /// DEC A.
    pub fn dec_a(&mut self) -> (c: usize)
        ensures
            *final(self) == (CPU { registers: Registers { a: sub8_spec(old(self).registers.a, 1, 0), f: dec_flags_spec(old(self).registers.a, old(self).registers.f), ..old(self).registers }, ..*old(self) }),
            c == 4,
    {
        let r = self.alu_dec(self.registers.a);
        self.registers.a = r;
        4
    }

    /// LD B,n.
    pub fn ld_b_n(&mut self, memory: &AddressBus) -> (c: usize)
        requires
            memory.wf(),
        ensures
            *final(self) == (CPU { registers: Registers { b: bus_read_spec(memory@, old(self).registers.pc), pc: add16_spec(old(self).registers.pc, 1), ..old(self).registers }, ..*old(self) }),
            c == 8,
    {
        let n = self.get_n(memory);
        self.registers.b = n;
        8
    }

    /// LD C,n.
    pub fn ld_c_n(&mut self, memory: &AddressBus) -> (c: usize)
        requires
            memory.wf(),
        ensures
            *final(self) == (CPU { registers: Registers { c: bus_read_spec(memory@, old(self).registers.pc), pc: add16_spec(old(self).registers.pc, 1), ..old(self).registers }, ..*old(self) }),
            c == 8,
    {
        let n = self.get_n(memory);
        self.registers.c = n;
        8
    }

    /// LD D,n.
    pub fn ld_d_n(&mut self, memory: &AddressBus) -> (c: usize)
        requires
            memory.wf(),
        ensures
            *final(self) == (CPU { registers: Registers { d: bus_read_spec(memory@, old(self).registers.pc), pc: add16_spec(old(self).registers.pc, 1), ..old(self).registers }, ..*old(self) }),
            c == 8,
    {
        let n = self.get_n(memory);
        self.registers.d = n;
        8
    }

    /// LD E,n.
    pub fn ld_e_n(&mut self, memory: &AddressBus) -> (c: usize)
        requires
            memory.wf(),
        ensures
            *final(self) == (CPU { registers: Registers { e: bus_read_spec(memory@, old(self).registers.pc), pc: add16_spec(old(self).registers.pc, 1), ..old(self).registers }, ..*old(self) }),
            c == 8,
    {
        let n = self.get_n(memory);
        self.registers.e = n;
        8
    }

    /// LD H,n.
    pub fn ld_h_n(&mut self, memory: &AddressBus) -> (c: usize)
        requires
            memory.wf(),
        ensures
            *final(self) == (CPU { registers: Registers { h: bus_read_spec(memory@, old(self).registers.pc), pc: add16_spec(old(self).registers.pc, 1), ..old(self).registers }, ..*old(self) }),
            c == 8,
    {
        let n = self.get_n(memory);
        self.registers.h = n;
        8
    }

    /// LD L,n.
    pub fn ld_l_n(&mut self, memory: &AddressBus) -> (c: usize)
        requires
            memory.wf(),
        ensures
            *final(self) == (CPU { registers: Registers { l: bus_read_spec(memory@, old(self).registers.pc), pc: add16_spec(old(self).registers.pc, 1), ..old(self).registers }, ..*old(self) }),
            c == 8,
    {
        let n = self.get_n(memory);
        self.registers.l = n;
        8
    }

    /// LD A,n.
    pub fn ld_a_n(&mut self, memory: &AddressBus) -> (c: usize)
        requires
            memory.wf(),
        ensures
            *final(self) == (CPU { registers: Registers { a: bus_read_spec(memory@, old(self).registers.pc), pc: add16_spec(old(self).registers.pc, 1), ..old(self).registers }, ..*old(self) }),
            c == 8,
    {
        let n = self.get_n(memory);
        self.registers.a = n;
        8
    }

    /// RLCA: Z is cleared.
    pub fn rlca(&mut self) -> (c: usize)
        ensures
            *final(self) == (CPU { registers: Registers { a: rlc8_spec(old(self).registers.a), f: rot_flags_spec(false, old(self).registers.a / 128 == 1), ..old(self).registers }, ..*old(self) }),
            c == 4,
    {
        let a = self.registers.a;
        self.registers.a = (a % 128) * 2 + a / 128;
        self.registers.f = Flag::make(false, false, false, a / 128 == 1);
        4
    }

    /// RLA: Z is cleared.
    pub fn rla(&mut self) -> (c: usize)
        ensures
            *final(self) == (CPU { registers: Registers { a: rl8_spec(old(self).registers.a, old(self).registers.f.carry), f: rot_flags_spec(false, old(self).registers.a / 128 == 1), ..old(self).registers }, ..*old(self) }),
            c == 4,
    {
        let a = self.registers.a;
        let carry: u8 = if self.registers.f.carry { 1 } else { 0 };
        self.registers.a = (a % 128) * 2 + carry;
        self.registers.f = Flag::make(false, false, false, a / 128 == 1);
        4
    }

    /// RRCA: Z is cleared.
    pub fn rrca(&mut self) -> (c: usize)
        ensures
            *final(self) == (CPU { registers: Registers { a: rrc8_spec(old(self).registers.a), f: rot_flags_spec(false, old(self).registers.a % 2 == 1), ..old(self).registers }, ..*old(self) }),
            c == 4,
    {
        let a = self.registers.a;
        self.registers.a = a / 2 + (a % 2) * 128;
        self.registers.f = Flag::make(false, false, false, a % 2 == 1);
        4
    }

    /// RRA: Z is cleared.
    pub fn rra(&mut self) -> (c: usize)
        ensures
            *final(self) == (CPU { registers: Registers { a: rr8_spec(old(self).registers.a, old(self).registers.f.carry), f: rot_flags_spec(false, old(self).registers.a % 2 == 1), ..old(self).registers }, ..*old(self) }),
            c == 4,
    {
        let a = self.registers.a;
        let carry: u8 = if self.registers.f.carry { 128 } else { 0 };
        self.registers.a = a / 2 + carry;
        self.registers.f = Flag::make(false, false, false, a % 2 == 1);
        4
    }

    /// LD (nn),SP.
    pub fn ld_nn_sp(&mut self, memory: &mut AddressBus) -> (c: usize)
        requires
            old(memory).wf(),
        ensures
            final(memory).wf(),
            *final(self) == (CPU { registers: Registers { pc: add16_spec(old(self).registers.pc, 2), ..old(self).registers }, ..*old(self) }),
            final(memory)@ == bus_write16_spec(old(memory)@, bus_read16_spec(old(memory)@, old(self).registers.pc), old(self).registers.sp),
            c == 20,
    {
        let nn = self.get_nn(memory);
        let sp = self.registers.sp;
        memory.write_word(nn, sp);
        20
    }

    /// ADD HL,BC: Z is untouched.
    pub fn add_hl_bc(&mut self) -> (c: usize)
        ensures
            *final(self) == (CPU { registers: Registers { h: hi_byte_spec(add16_spec(old(self).registers.hl_spec(), old(self).registers.bc_spec())), l: lo_byte_spec(add16_spec(old(self).registers.hl_spec(), old(self).registers.bc_spec())), f: add_hl_flags_spec(old(self).registers.hl_spec(), old(self).registers.bc_spec(), old(self).registers.f), ..old(self).registers }, ..*old(self) }),
            c == 8,
    {
        let v = self.registers.get_bc();
        self.alu_add_hl(v);
        8
    }

    /// ADD HL,DE: Z is untouched.
    pub fn add_hl_de(&mut self) -> (c: usize)
        ensures
            *final(self) == (CPU { registers: Registers { h: hi_byte_spec(add16_spec(old(self).registers.hl_spec(), old(self).registers.de_spec())), l: lo_byte_spec(add16_spec(old(self).registers.hl_spec(), old(self).registers.de_spec())), f: add_hl_flags_spec(old(self).registers.hl_spec(), old(self).registers.de_spec(), old(self).registers.f), ..old(self).registers }, ..*old(self) }),
            c == 8,
    {
        let v = self.registers.get_de();
        self.alu_add_hl(v);
        8
    }

    /// ADD HL,HL: Z is untouched.
    pub fn add_hl_hl(&mut self) -> (c: usize)
        ensures
            *final(self) == (CPU { registers: Registers { h: hi_byte_spec(add16_spec(old(self).registers.hl_spec(), old(self).registers.hl_spec())), l: lo_byte_spec(add16_spec(old(self).registers.hl_spec(), old(self).registers.hl_spec())), f: add_hl_flags_spec(old(self).registers.hl_spec(), old(self).registers.hl_spec(), old(self).registers.f), ..old(self).registers }, ..*old(self) }),
            c == 8,
    {
        let v = self.registers.get_hl();
        self.alu_add_hl(v);
        8
    }

    /// ADD HL,SP: Z is untouched.
    pub fn add_hl_sp(&mut self) -> (c: usize)
        ensures
            *final(self) == (CPU { registers: Registers { h: hi_byte_spec(add16_spec(old(self).registers.hl_spec(), old(self).registers.sp)), l: lo_byte_spec(add16_spec(old(self).registers.hl_spec(), old(self).registers.sp)), f: add_hl_flags_spec(old(self).registers.hl_spec(), old(self).registers.sp, old(self).registers.f), ..old(self).registers }, ..*old(self) }),
            c == 8,
    {
        let v = self.registers.sp;
        self.alu_add_hl(v);
        8
    }

    /// JR e8: a signed offset from the address after it.
    pub fn jr_n(&mut self, memory: &AddressBus) -> (c: usize)
        requires
            memory.wf(),
        ensures
            *final(self) == (CPU { registers: Registers { pc: add16_spec(add16_spec(old(self).registers.pc, 1), sign_ext_spec(bus_read_spec(memory@, old(self).registers.pc))), ..old(self).registers }, ..*old(self) }),
            c == 12,
    {
        let n = self.get_n(memory);
        self.jump_rel(n);
        12
    }

    /// JR taken when Z clear: 12 cycles taken, 8 not.
    pub fn jr_nz_n(&mut self, memory: &AddressBus) -> (c: usize)
        requires
            memory.wf(),
        ensures
            !old(self).registers.f.zero ==> *final(self) == (CPU { registers: Registers { pc: add16_spec(add16_spec(old(self).registers.pc, 1), sign_ext_spec(bus_read_spec(memory@, old(self).registers.pc))), ..old(self).registers }, ..*old(self) }) && c == 12,
            !(!old(self).registers.f.zero) ==> *final(self) == (CPU { registers: Registers { pc: add16_spec(old(self).registers.pc, 1), ..old(self).registers }, ..*old(self) }) && c == 8,
    {
        let n = self.get_n(memory);
        if !self.registers.f.zero {
            self.jump_rel(n);
            12
        } else {
            8
        }
    }

    /// JR taken when Z set: 12 cycles taken, 8 not.
    pub fn jr_z_n(&mut self, memory: &AddressBus) -> (c: usize)
        requires
            memory.wf(),
        ensures
            old(self).registers.f.zero ==> *final(self) == (CPU { registers: Registers { pc: add16_spec(add16_spec(old(self).registers.pc, 1), sign_ext_spec(bus_read_spec(memory@, old(self).registers.pc))), ..old(self).registers }, ..*old(self) }) && c == 12,
            !(old(self).registers.f.zero) ==> *final(self) == (CPU { registers: Registers { pc: add16_spec(old(self).registers.pc, 1), ..old(self).registers }, ..*old(self) }) && c == 8,
    {
        let n = self.get_n(memory);
        if self.registers.f.zero {
            self.jump_rel(n);
            12
        } else {
            8
        }
    }

    /// JR taken when C clear: 12 cycles taken, 8 not.
    pub fn jr_nc_n(&mut self, memory: &AddressBus) -> (c: usize)
        requires
            memory.wf(),
        ensures
            !old(self).registers.f.carry ==> *final(self) == (CPU { registers: Registers { pc: add16_spec(add16_spec(old(self).registers.pc, 1), sign_ext_spec(bus_read_spec(memory@, old(self).registers.pc))), ..old(self).registers }, ..*old(self) }) && c == 12,
            !(!old(self).registers.f.carry) ==> *final(self) == (CPU { registers: Registers { pc: add16_spec(old(self).registers.pc, 1), ..old(self).registers }, ..*old(self) }) && c == 8,
    {
        let n = self.get_n(memory);
        if !self.registers.f.carry {
            self.jump_rel(n);
            12
        } else {
            8
        }
    }

    /// JR taken when C set: 12 cycles taken, 8 not.
    pub fn jr_c_n(&mut self, memory: &AddressBus) -> (c: usize)
        requires
            memory.wf(),
        ensures
            old(self).registers.f.carry ==> *final(self) == (CPU { registers: Registers { pc: add16_spec(add16_spec(old(self).registers.pc, 1), sign_ext_spec(bus_read_spec(memory@, old(self).registers.pc))), ..old(self).registers }, ..*old(self) }) && c == 12,
            !(old(self).registers.f.carry) ==> *final(self) == (CPU { registers: Registers { pc: add16_spec(old(self).registers.pc, 1), ..old(self).registers }, ..*old(self) }) && c == 8,
    {
        let n = self.get_n(memory);
        if self.registers.f.carry {
            self.jump_rel(n);
            12
        } else {
            8
        }
    }

    /// DAA: decimal-adjust the accumulator after BCD arithmetic.
    pub fn daa(&mut self) -> (c: usize)
        ensures
            *final(self) == (CPU { registers: Registers { a: daa_a_spec(old(self).registers.a, old(self).registers.f), f: daa_flags_spec(old(self).registers.a, old(self).registers.f), ..old(self).registers }, ..*old(self) }),
            c == 4,
    {
        self.alu_daa();
        4
    }

    /// LD (HL+),A.
    pub fn ldi_hl_a(&mut self, memory: &mut AddressBus) -> (c: usize)
        requires
            old(memory).wf(),
        ensures
            final(memory).wf(),
            *final(self) == (CPU { registers: Registers { h: hi_byte_spec(add16_spec(old(self).registers.hl_spec(), 1)), l: lo_byte_spec(add16_spec(old(self).registers.hl_spec(), 1)), ..old(self).registers }, ..*old(self) }),
            final(memory)@ == bus_write_spec(old(memory)@, old(self).registers.hl_spec(), old(self).registers.a),
            c == 8,
    {
        let hl = self.registers.get_hl();
        memory.write_byte(hl, self.registers.a);
        let r = if hl == 0xFFFF { 0 } else { hl + 1 };
        self.registers.set_hl(r);
        8
    }

    /// LD A,(HL+).
    pub fn ldi_a_hl(&mut self, memory: &AddressBus) -> (c: usize)
        requires
            memory.wf(),
        ensures
            *final(self) == (CPU { registers: Registers { a: bus_read_spec(memory@, old(self).registers.hl_spec()), h: hi_byte_spec(add16_spec(old(self).registers.hl_spec(), 1)), l: lo_byte_spec(add16_spec(old(self).registers.hl_spec(), 1)), ..old(self).registers }, ..*old(self) }),
            c == 8,
    {
        let hl = self.registers.get_hl();
        self.registers.a = memory.read_byte(hl);
        let r = if hl == 0xFFFF { 0 } else { hl + 1 };
        self.registers.set_hl(r);
        8
    }

    /// LD (HL-),A.
    pub fn ldd_hl_a(&mut self, memory: &mut AddressBus) -> (c: usize)
        requires
            old(memory).wf(),
        ensures
            final(memory).wf(),
            *final(self) == (CPU { registers: Registers { h: hi_byte_spec(sub16_spec(old(self).registers.hl_spec(), 1)), l: lo_byte_spec(sub16_spec(old(self).registers.hl_spec(), 1)), ..old(self).registers }, ..*old(self) }),
            final(memory)@ == bus_write_spec(old(memory)@, old(self).registers.hl_spec(), old(self).registers.a),
            c == 8,
    {
        let hl = self.registers.get_hl();
        memory.write_byte(hl, self.registers.a);
        let r = if hl == 0 { 0xFFFF } else { hl - 1 };
        self.registers.set_hl(r);
        8
    }

    /// LD A,(HL-).
    pub fn ldd_a_hl(&mut self, memory: &AddressBus) -> (c: usize)
        requires
            memory.wf(),
        ensures
            *final(self) == (CPU { registers: Registers { a: bus_read_spec(memory@, old(self).registers.hl_spec()), h: hi_byte_spec(sub16_spec(old(self).registers.hl_spec(), 1)), l: lo_byte_spec(sub16_spec(old(self).registers.hl_spec(), 1)), ..old(self).registers }, ..*old(self) }),
            c == 8,
    {
        let hl = self.registers.get_hl();
        self.registers.a = memory.read_byte(hl);
        let r = if hl == 0 { 0xFFFF } else { hl - 1 };
        self.registers.set_hl(r);
        8
    }

    /// CPL: complement A; N and H set.
    pub fn cpl(&mut self) -> (c: usize)
        ensures
            *final(self) == (CPU { registers: Registers { a: (255 - old(self).registers.a) as u8, f: (Flag { subtract: true, half_carry: true, ..old(self).registers.f }), ..old(self).registers }, ..*old(self) }),
            c == 4,
    {
        self.registers.a = 255 - self.registers.a;
        self.registers.f.subtract = true;
        self.registers.f.half_carry = true;
        4
    }

    /// SCF: set the carry; N and H cleared.
    pub fn scf(&mut self) -> (c: usize)
        ensures
            *final(self) == (CPU { registers: Registers { f: (Flag { subtract: false, half_carry: false, carry: true, ..old(self).registers.f }), ..old(self).registers }, ..*old(self) }),
            c == 4,
    {
        self.registers.f.subtract = false;
        self.registers.f.half_carry = false;
        self.registers.f.carry = true;
        4
    }

    /// CCF: flip the carry; N and H cleared.
    pub fn ccf(&mut self) -> (c: usize)
        ensures
            *final(self) == (CPU { registers: Registers { f: (Flag { subtract: false, half_carry: false, carry: !old(self).registers.f.carry, ..old(self).registers.f }), ..old(self).registers }, ..*old(self) }),
            c == 4,
    {
        self.registers.f.subtract = false;
        self.registers.f.half_carry = false;
        self.registers.f.carry = !self.registers.f.carry;
        4
    }

    /// INC (HL).
    pub fn inc_hl_ref(&mut self, memory: &mut AddressBus) -> (c: usize)
        requires
            old(memory).wf(),
        ensures
            final(memory).wf(),
            *final(self) == (CPU { registers: Registers { f: inc_flags_spec(bus_read_spec(old(memory)@, old(self).registers.hl_spec()), old(self).registers.f), ..old(self).registers }, ..*old(self) }),
            final(memory)@ == bus_write_spec(old(memory)@, old(self).registers.hl_spec(), add8_spec(bus_read_spec(old(memory)@, old(self).registers.hl_spec()), 1, 0)),
            c == 12,
    {
        let hl = self.registers.get_hl();
        let v = memory.read_byte(hl);
        let r = self.alu_inc(v);
        memory.write_byte(hl, r);
        12
    }

    /// DEC (HL).
    pub fn dec_hl_ref(&mut self, memory: &mut AddressBus) -> (c: usize)
        requires
            old(memory).wf(),
        ensures
            final(memory).wf(),
            *final(self) == (CPU { registers: Registers { f: dec_flags_spec(bus_read_spec(old(memory)@, old(self).registers.hl_spec()), old(self).registers.f), ..old(self).registers }, ..*old(self) }),
            final(memory)@ == bus_write_spec(old(memory)@, old(self).registers.hl_spec(), sub8_spec(bus_read_spec(old(memory)@, old(self).registers.hl_spec()), 1, 0)),
            c == 12,
    {
        let hl = self.registers.get_hl();
        let v = memory.read_byte(hl);
        let r = self.alu_dec(v);
        memory.write_byte(hl, r);
        12
    }

    /// LD (HL),n.
    pub fn ld_hl_n(&mut self, memory: &mut AddressBus) -> (c: usize)
        requires
            old(memory).wf(),
        ensures
            final(memory).wf(),
            *final(self) == (CPU { registers: Registers { pc: add16_spec(old(self).registers.pc, 1), ..old(self).registers }, ..*old(self) }),
            final(memory)@ == bus_write_spec(old(memory)@, old(self).registers.hl_spec(), bus_read_spec(old(memory)@, old(self).registers.pc)),
            c == 12,
    {
        let n = self.get_n(memory);
        let hl = self.registers.get_hl();
        memory.write_byte(hl, n);
        12
    }

    /// LD B,B.
    pub fn ld_b_b(&mut self) -> (c: usize)
        ensures
            *final(self) == (CPU { ..*old(self) }),
            c == 4,
    {
        self.registers.b = self.registers.b;
        4
    }

    /// LD B,C.
    pub fn ld_b_c(&mut self) -> (c: usize)
        ensures
            *final(self) == (CPU { registers: Registers { b: old(self).registers.c, ..old(self).registers }, ..*old(self) }),
            c == 4,
    {
        self.registers.b = self.registers.c;
        4
    }

    /// LD B,D.
    pub fn ld_b_d(&mut self) -> (c: usize)
        ensures
            *final(self) == (CPU { registers: Registers { b: old(self).registers.d, ..old(self).registers }, ..*old(self) }),
            c == 4,
    {
        self.registers.b = self.registers.d;
        4
    }

    /// LD B,E.
    pub fn ld_b_e(&mut self) -> (c: usize)
        ensures
            *final(self) == (CPU { registers: Registers { b: old(self).registers.e, ..old(self).registers }, ..*old(self) }),
            c == 4,
    {
        self.registers.b = self.registers.e;
        4
    }

    /// LD B,H.
    pub fn ld_b_h(&mut self) -> (c: usize)
        ensures
            *final(self) == (CPU { registers: Registers { b: old(self).registers.h, ..old(self).registers }, ..*old(self) }),
            c == 4,
    {
        self.registers.b = self.registers.h;
        4
    }

    /// LD B,L.
    pub fn ld_b_l(&mut self) -> (c: usize)
        ensures
            *final(self) == (CPU { registers: Registers { b: old(self).registers.l, ..old(self).registers }, ..*old(self) }),
            c == 4,
    {
        self.registers.b = self.registers.l;
        4
    }

    /// LD B,A.
    pub fn ld_b_a(&mut self) -> (c: usize)
        ensures
            *final(self) == (CPU { registers: Registers { b: old(self).registers.a, ..old(self).registers }, ..*old(self) }),
            c == 4,
    {
        self.registers.b = self.registers.a;
        4
    }

    /// LD B,(HL).
    pub fn ld_b_hl(&mut self, memory: &AddressBus) -> (c: usize)
        requires
            memory.wf(),
        ensures
            *final(self) == (CPU { registers: Registers { b: bus_read_spec(memory@, old(self).registers.hl_spec()), ..old(self).registers }, ..*old(self) }),
            c == 8,
    {
        let hl = self.registers.get_hl();
        self.registers.b = memory.read_byte(hl);
        8
    }

    /// LD C,B.
    pub fn ld_c_b(&mut self) -> (c: usize)
        ensures
            *final(self) == (CPU { registers: Registers { c: old(self).registers.b, ..old(self).registers }, ..*old(self) }),
            c == 4,
    {
        self.registers.c = self.registers.b;
        4
    }

    /// LD C,C.
    pub fn ld_c_c(&mut self) -> (c: usize)
        ensures
            *final(self) == (CPU { ..*old(self) }),
            c == 4,
    {
        self.registers.c = self.registers.c;
        4
    }

    /// LD C,D.
    pub fn ld_c_d(&mut self) -> (c: usize)
        ensures
            *final(self) == (CPU { registers: Registers { c: old(self).registers.d, ..old(self).registers }, ..*old(self) }),
            c == 4,
    {
        self.registers.c = self.registers.d;
        4
    }

    /// LD C,E.
    pub fn ld_c_e(&mut self) -> (c: usize)
        ensures
            *final(self) == (CPU { registers: Registers { c: old(self).registers.e, ..old(self).registers }, ..*old(self) }),
            c == 4,
    {
        self.registers.c = self.registers.e;
        4
    }

    /// LD C,H.
    pub fn ld_c_h(&mut self) -> (c: usize)
        ensures
            *final(self) == (CPU { registers: Registers { c: old(self).registers.h, ..old(self).registers }, ..*old(self) }),
            c == 4,
    {
        self.registers.c = self.registers.h;
        4
    }

    /// LD C,L.
    pub fn ld_c_l(&mut self) -> (c: usize)
        ensures
            *final(self) == (CPU { registers: Registers { c: old(self).registers.l, ..old(self).registers }, ..*old(self) }),
            c == 4,
    {
        self.registers.c = self.registers.l;
        4
    }

    /// LD C,A.
    pub fn ld_c_a(&mut self) -> (c: usize)
        ensures
            *final(self) == (CPU { registers: Registers { c: old(self).registers.a, ..old(self).registers }, ..*old(self) }),
            c == 4,
    {
        self.registers.c = self.registers.a;
        4
    }

    /// LD C,(HL).
    pub fn ld_c_hl(&mut self, memory: &AddressBus) -> (c: usize)
        requires
            memory.wf(),
        ensures
            *final(self) == (CPU { registers: Registers { c: bus_read_spec(memory@, old(self).registers.hl_spec()), ..old(self).registers }, ..*old(self) }),
            c == 8,
    {
        let hl = self.registers.get_hl();
        self.registers.c = memory.read_byte(hl);
        8
    }

    /// LD D,B.
    pub fn ld_d_b(&mut self) -> (c: usize)
        ensures
            *final(self) == (CPU { registers: Registers { d: old(self).registers.b, ..old(self).registers }, ..*old(self) }),
            c == 4,
    {
        self.registers.d = self.registers.b;
        4
    }

    /// LD D,C.
    pub fn ld_d_c(&mut self) -> (c: usize)
        ensures
            *final(self) == (CPU { registers: Registers { d: old(self).registers.c, ..old(self).registers }, ..*old(self) }),
            c == 4,
    {
        self.registers.d = self.registers.c;
        4
    }

    /// LD D,D.
    pub fn ld_d_d(&mut self) -> (c: usize)
        ensures
            *final(self) == (CPU { ..*old(self) }),
            c == 4,
    {
        self.registers.d = self.registers.d;
        4
    }

    /// LD D,E.
    pub fn ld_d_e(&mut self) -> (c: usize)
        ensures
            *final(self) == (CPU { registers: Registers { d: old(self).registers.e, ..old(self).registers }, ..*old(self) }),
            c == 4,
    {
        self.registers.d = self.registers.e;
        4
    }

    /// LD D,H.
    pub fn ld_d_h(&mut self) -> (c: usize)
        ensures
            *final(self) == (CPU { registers: Registers { d: old(self).registers.h, ..old(self).registers }, ..*old(self) }),
            c == 4,
    {
        self.registers.d = self.registers.h;
        4
    }

    /// LD D,L.
    pub fn ld_d_l(&mut self) -> (c: usize)
        ensures
            *final(self) == (CPU { registers: Registers { d: old(self).registers.l, ..old(self).registers }, ..*old(self) }),
            c == 4,
    {
        self.registers.d = self.registers.l;
        4
    }

    /// LD D,A.
    pub fn ld_d_a(&mut self) -> (c: usize)
        ensures
            *final(self) == (CPU { registers: Registers { d: old(self).registers.a, ..old(self).registers }, ..*old(self) }),
            c == 4,
    {
        self.registers.d = self.registers.a;
        4
    }

    /// LD D,(HL).
    pub fn ld_d_hl(&mut self, memory: &AddressBus) -> (c: usize)
        requires
            memory.wf(),
        ensures
            *final(self) == (CPU { registers: Registers { d: bus_read_spec(memory@, old(self).registers.hl_spec()), ..old(self).registers }, ..*old(self) }),
            c == 8,
    {
        let hl = self.registers.get_hl();
        self.registers.d = memory.read_byte(hl);
        8
    }

    /// LD E,B.
    pub fn ld_e_b(&mut self) -> (c: usize)
        ensures
            *final(self) == (CPU { registers: Registers { e: old(self).registers.b, ..old(self).registers }, ..*old(self) }),
            c == 4,
    {
        self.registers.e = self.registers.b;
        4
    }

    /// LD E,C.
    pub fn ld_e_c(&mut self) -> (c: usize)
        ensures
            *final(self) == (CPU { registers: Registers { e: old(self).registers.c, ..old(self).registers }, ..*old(self) }),
            c == 4,
    {
        self.registers.e = self.registers.c;
        4
    }

    /// LD E,D.
    pub fn ld_e_d(&mut self) -> (c: usize)
        ensures
            *final(self) == (CPU { registers: Registers { e: old(self).registers.d, ..old(self).registers }, ..*old(self) }),
            c == 4,
    {
        self.registers.e = self.registers.d;
        4
    }

    /// LD E,E.
    pub fn ld_e_e(&mut self) -> (c: usize)
        ensures
            *final(self) == (CPU { ..*old(self) }),
            c == 4,
    {
        self.registers.e = self.registers.e;
        4
    }

    /// LD E,H.
    pub fn ld_e_h(&mut self) -> (c: usize)
        ensures
            *final(self) == (CPU { registers: Registers { e: old(self).registers.h, ..old(self).registers }, ..*old(self) }),
            c == 4,
    {
        self.registers.e = self.registers.h;
        4
    }

    /// LD E,L.
    pub fn ld_e_l(&mut self) -> (c: usize)
        ensures
            *final(self) == (CPU { registers: Registers { e: old(self).registers.l, ..old(self).registers }, ..*old(self) }),
            c == 4,
    {
        self.registers.e = self.registers.l;
        4
    }

    /// LD E,A.
    pub fn ld_e_a(&mut self) -> (c: usize)
        ensures
            *final(self) == (CPU { registers: Registers { e: old(self).registers.a, ..old(self).registers }, ..*old(self) }),
            c == 4,
    {
        self.registers.e = self.registers.a;
        4
    }

    /// LD E,(HL).
    pub fn ld_e_hl(&mut self, memory: &AddressBus) -> (c: usize)
        requires
            memory.wf(),
        ensures
            *final(self) == (CPU { registers: Registers { e: bus_read_spec(memory@, old(self).registers.hl_spec()), ..old(self).registers }, ..*old(self) }),
            c == 8,
    {
        let hl = self.registers.get_hl();
        self.registers.e = memory.read_byte(hl);
        8
    }

    /// LD H,B.
    pub fn ld_h_b(&mut self) -> (c: usize)
        ensures
            *final(self) == (CPU { registers: Registers { h: old(self).registers.b, ..old(self).registers }, ..*old(self) }),
            c == 4,
    {
        self.registers.h = self.registers.b;
        4
    }

    /// LD H,C.
    pub fn ld_h_c(&mut self) -> (c: usize)
        ensures
            *final(self) == (CPU { registers: Registers { h: old(self).registers.c, ..old(self).registers }, ..*old(self) }),
            c == 4,
    {
        self.registers.h = self.registers.c;
        4
    }

    /// LD H,D.
    pub fn ld_h_d(&mut self) -> (c: usize)
        ensures
            *final(self) == (CPU { registers: Registers { h: old(self).registers.d, ..old(self).registers }, ..*old(self) }),
            c == 4,
    {
        self.registers.h = self.registers.d;
        4
    }

    /// LD H,E.
    pub fn ld_h_e(&mut self) -> (c: usize)
        ensures
            *final(self) == (CPU { registers: Registers { h: old(self).registers.e, ..old(self).registers }, ..*old(self) }),
            c == 4,
    {
        self.registers.h = self.registers.e;
        4
    }

    /// LD H,H.
    pub fn ld_h_h(&mut self) -> (c: usize)
        ensures
            *final(self) == (CPU { ..*old(self) }),
            c == 4,
    {
        self.registers.h = self.registers.h;
        4
    }

    /// LD H,L.
    pub fn ld_h_l(&mut self) -> (c: usize)
        ensures
            *final(self) == (CPU { registers: Registers { h: old(self).registers.l, ..old(self).registers }, ..*old(self) }),
            c == 4,
    {
        self.registers.h = self.registers.l;
        4
    }

    /// LD H,A.
    pub fn ld_h_a(&mut self) -> (c: usize)
        ensures
            *final(self) == (CPU { registers: Registers { h: old(self).registers.a, ..old(self).registers }, ..*old(self) }),
            c == 4,
    {
        self.registers.h = self.registers.a;
        4
    }

    /// LD H,(HL).
    pub fn ld_h_hl(&mut self, memory: &AddressBus) -> (c: usize)
        requires
            memory.wf(),
        ensures
            *final(self) == (CPU { registers: Registers { h: bus_read_spec(memory@, old(self).registers.hl_spec()), ..old(self).registers }, ..*old(self) }),
            c == 8,
    {
        let hl = self.registers.get_hl();
        self.registers.h = memory.read_byte(hl);
        8
    }

    /// LD L,B.
    pub fn ld_l_b(&mut self) -> (c: usize)
        ensures
            *final(self) == (CPU { registers: Registers { l: old(self).registers.b, ..old(self).registers }, ..*old(self) }),
            c == 4,
    {
        self.registers.l = self.registers.b;
        4
    }

    /// LD L,C.
    pub fn ld_l_c(&mut self) -> (c: usize)
        ensures
            *final(self) == (CPU { registers: Registers { l: old(self).registers.c, ..old(self).registers }, ..*old(self) }),
            c == 4,
    {
        self.registers.l = self.registers.c;
        4
    }

    /// LD L,D.
    pub fn ld_l_d(&mut self) -> (c: usize)
        ensures
            *final(self) == (CPU { registers: Registers { l: old(self).registers.d, ..old(self).registers }, ..*old(self) }),
            c == 4,
    {
        self.registers.l = self.registers.d;
        4
    }

    /// LD L,E.
    pub fn ld_l_e(&mut self) -> (c: usize)
        ensures
            *final(self) == (CPU { registers: Registers { l: old(self).registers.e, ..old(self).registers }, ..*old(self) }),
            c == 4,
    {
        self.registers.l = self.registers.e;
        4
    }

    /// LD L,H.
    pub fn ld_l_h(&mut self) -> (c: usize)
        ensures
            *final(self) == (CPU { registers: Registers { l: old(self).registers.h, ..old(self).registers }, ..*old(self) }),
            c == 4,
    {
        self.registers.l = self.registers.h;
        4
    }

    /// LD L,L.
    pub fn ld_l_l(&mut self) -> (c: usize)
        ensures
            *final(self) == (CPU { ..*old(self) }),
            c == 4,
    {
        self.registers.l = self.registers.l;
        4
    }

    /// LD L,A.
    pub fn ld_l_a(&mut self) -> (c: usize)
        ensures
            *final(self) == (CPU { registers: Registers { l: old(self).registers.a, ..old(self).registers }, ..*old(self) }),
            c == 4,
    {
        self.registers.l = self.registers.a;
        4
    }

    /// LD L,(HL).
    pub fn ld_l_hl(&mut self, memory: &AddressBus) -> (c: usize)
        requires
            memory.wf(),
        ensures
            *final(self) == (CPU { registers: Registers { l: bus_read_spec(memory@, old(self).registers.hl_spec()), ..old(self).registers }, ..*old(self) }),
            c == 8,
    {
        let hl = self.registers.get_hl();
        self.registers.l = memory.read_byte(hl);
        8
    }

    /// LD (HL),B.
    pub fn ld_hl_b(&mut self, memory: &mut AddressBus) -> (c: usize)
        requires
            old(memory).wf(),
        ensures
            final(memory).wf(),
            *final(self) == (CPU { ..*old(self) }),
            final(memory)@ == bus_write_spec(old(memory)@, old(self).registers.hl_spec(), old(self).registers.b),
            c == 8,
    {
        let hl = self.registers.get_hl();
        memory.write_byte(hl, self.registers.b);
        8
    }

    /// LD (HL),C.
    pub fn ld_hl_c(&mut self, memory: &mut AddressBus) -> (c: usize)
        requires
            old(memory).wf(),
        ensures
            final(memory).wf(),
            *final(self) == (CPU { ..*old(self) }),
            final(memory)@ == bus_write_spec(old(memory)@, old(self).registers.hl_spec(), old(self).registers.c),
            c == 8,
    {
        let hl = self.registers.get_hl();
        memory.write_byte(hl, self.registers.c);
        8
    }

    /// LD (HL),D.
    pub fn ld_hl_d(&mut self, memory: &mut AddressBus) -> (c: usize)
        requires
            old(memory).wf(),
        ensures
            final(memory).wf(),
            *final(self) == (CPU { ..*old(self) }),
            final(memory)@ == bus_write_spec(old(memory)@, old(self).registers.hl_spec(), old(self).registers.d),
            c == 8,
    {
        let hl = self.registers.get_hl();
        memory.write_byte(hl, self.registers.d);
        8
    }

    /// LD (HL),E.
    pub fn ld_hl_e(&mut self, memory: &mut AddressBus) -> (c: usize)
        requires
            old(memory).wf(),
        ensures
            final(memory).wf(),
            *final(self) == (CPU { ..*old(self) }),
            final(memory)@ == bus_write_spec(old(memory)@, old(self).registers.hl_spec(), old(self).registers.e),
            c == 8,
    {
        let hl = self.registers.get_hl();
        memory.write_byte(hl, self.registers.e);
        8
    }

    /// LD (HL),H.
    pub fn ld_hl_h(&mut self, memory: &mut AddressBus) -> (c: usize)
        requires
            old(memory).wf(),
        ensures
            final(memory).wf(),
            *final(self) == (CPU { ..*old(self) }),
            final(memory)@ == bus_write_spec(old(memory)@, old(self).registers.hl_spec(), old(self).registers.h),
            c == 8,
    {
        let hl = self.registers.get_hl();
        memory.write_byte(hl, self.registers.h);
        8
    }

    /// LD (HL),L.
    pub fn ld_hl_l(&mut self, memory: &mut AddressBus) -> (c: usize)
        requires
            old(memory).wf(),
        ensures
            final(memory).wf(),
            *final(self) == (CPU { ..*old(self) }),
            final(memory)@ == bus_write_spec(old(memory)@, old(self).registers.hl_spec(), old(self).registers.l),
            c == 8,
    {
        let hl = self.registers.get_hl();
        memory.write_byte(hl, self.registers.l);
        8
    }

    /// LD (HL),A.
    pub fn ld_hl_a(&mut self, memory: &mut AddressBus) -> (c: usize)
        requires
            old(memory).wf(),
        ensures
            final(memory).wf(),
            *final(self) == (CPU { ..*old(self) }),
            final(memory)@ == bus_write_spec(old(memory)@, old(self).registers.hl_spec(), old(self).registers.a),
            c == 8,
    {
        let hl = self.registers.get_hl();
        memory.write_byte(hl, self.registers.a);
        8
    }

    /// LD A,B.
    pub fn ld_a_b(&mut self) -> (c: usize)
        ensures
            *final(self) == (CPU { registers: Registers { a: old(self).registers.b, ..old(self).registers }, ..*old(self) }),
            c == 4,
    {
        self.registers.a = self.registers.b;
        4
    }

    /// LD A,C.
    pub fn ld_a_c(&mut self) -> (c: usize)
        ensures
            *final(self) == (CPU { registers: Registers { a: old(self).registers.c, ..old(self).registers }, ..*old(self) }),
            c == 4,
    {
        self.registers.a = self.registers.c;
        4
    }

    /// LD A,D.
    pub fn ld_a_d(&mut self) -> (c: usize)
        ensures
            *final(self) == (CPU { registers: Registers { a: old(self).registers.d, ..old(self).registers }, ..*old(self) }),
            c == 4,
    {
        self.registers.a = self.registers.d;
        4
    }

    /// LD A,E.
    pub fn ld_a_e(&mut self) -> (c: usize)
        ensures
            *final(self) == (CPU { registers: Registers { a: old(self).registers.e, ..old(self).registers }, ..*old(self) }),
            c == 4,
    {
        self.registers.a = self.registers.e;
        4
    }

    /// LD A,H.
    pub fn ld_a_h(&mut self) -> (c: usize)
        ensures
            *final(self) == (CPU { registers: Registers { a: old(self).registers.h, ..old(self).registers }, ..*old(self) }),
            c == 4,
    {
        self.registers.a = self.registers.h;
        4
    }

    /// LD A,L.
    pub fn ld_a_l(&mut self) -> (c: usize)
        ensures
            *final(self) == (CPU { registers: Registers { a: old(self).registers.l, ..old(self).registers }, ..*old(self) }),
            c == 4,
    {
        self.registers.a = self.registers.l;
        4
    }

    /// LD A,A.
    pub fn ld_a_a(&mut self) -> (c: usize)
        ensures
            *final(self) == (CPU { ..*old(self) }),
            c == 4,
    {
        self.registers.a = self.registers.a;
        4
    }

    /// LD A,(HL).
    pub fn ld_a_hl(&mut self, memory: &AddressBus) -> (c: usize)
        requires
            memory.wf(),
        ensures
            *final(self) == (CPU { registers: Registers { a: bus_read_spec(memory@, old(self).registers.hl_spec()), ..old(self).registers }, ..*old(self) }),
            c == 8,
    {
        let hl = self.registers.get_hl();
        self.registers.a = memory.read_byte(hl);
        8
    }

    /// HALT: idle until an enabled interrupt is pending.
    pub fn halt_op(&mut self) -> (c: usize)
        ensures
            *final(self) == (CPU { halt: true, ..*old(self) }),
            c == 4,
    {
        self.halt = true;
        4
    }

    /// ADD A,B.
    pub fn add_a_b(&mut self) -> (c: usize)
        ensures
            *final(self) == (CPU { registers: Registers { a: add8_spec(old(self).registers.a, old(self).registers.b, 0), f: add_flags_spec(old(self).registers.a, old(self).registers.b, 0), ..old(self).registers }, ..*old(self) }),
            c == 4,
    {
        let v = self.registers.b;
        self.alu_add(v, false);
        4
    }

    /// ADD A,C.
    pub fn add_a_c(&mut self) -> (c: usize)
        ensures
            *final(self) == (CPU { registers: Registers { a: add8_spec(old(self).registers.a, old(self).registers.c, 0), f: add_flags_spec(old(self).registers.a, old(self).registers.c, 0), ..old(self).registers }, ..*old(self) }),
            c == 4,
    {
        let v = self.registers.c;
        self.alu_add(v, false);
        4
    }

    /// ADD A,D.
    pub fn add_a_d(&mut self) -> (c: usize)
        ensures
            *final(self) == (CPU { registers: Registers { a: add8_spec(old(self).registers.a, old(self).registers.d, 0), f: add_flags_spec(old(self).registers.a, old(self).registers.d, 0), ..old(self).registers }, ..*old(self) }),
            c == 4,
    {
        let v = self.registers.d;
        self.alu_add(v, false);
        4
    }

    /// ADD A,E.
    pub fn add_a_e(&mut self) -> (c: usize)
        ensures
            *final(self) == (CPU { registers: Registers { a: add8_spec(old(self).registers.a, old(self).registers.e, 0), f: add_flags_spec(old(self).registers.a, old(self).registers.e, 0), ..old(self).registers }, ..*old(self) }),
            c == 4,
    {
        let v = self.registers.e;
        self.alu_add(v, false);
        4
    }

    /// ADD A,H.
    pub fn add_a_h(&mut self) -> (c: usize)
        ensures
            *final(self) == (CPU { registers: Registers { a: add8_spec(old(self).registers.a, old(self).registers.h, 0), f: add_flags_spec(old(self).registers.a, old(self).registers.h, 0), ..old(self).registers }, ..*old(self) }),
            c == 4,
    {
        let v = self.registers.h;
        self.alu_add(v, false);
        4
    }

    /// ADD A,L.
    pub fn add_a_l(&mut self) -> (c: usize)
        ensures
            *final(self) == (CPU { registers: Registers { a: add8_spec(old(self).registers.a, old(self).registers.l, 0), f: add_flags_spec(old(self).registers.a, old(self).registers.l, 0), ..old(self).registers }, ..*old(self) }),
            c == 4,
    {
        let v = self.registers.l;
        self.alu_add(v, false);
        4
    }

    /// ADD A,A.
    pub fn add_a_a(&mut self) -> (c: usize)
        ensures
            *final(self) == (CPU { registers: Registers { a: add8_spec(old(self).registers.a, old(self).registers.a, 0), f: add_flags_spec(old(self).registers.a, old(self).registers.a, 0), ..old(self).registers }, ..*old(self) }),
            c == 4,
    {
        let v = self.registers.a;
        self.alu_add(v, false);
        4
    }

    /// ADD A,(HL).
    pub fn add_a_hl(&mut self, memory: &AddressBus) -> (c: usize)
        requires
            memory.wf(),
        ensures
            *final(self) == (CPU { registers: Registers { a: add8_spec(old(self).registers.a, bus_read_spec(memory@, old(self).registers.hl_spec()), 0), f: add_flags_spec(old(self).registers.a, bus_read_spec(memory@, old(self).registers.hl_spec()), 0), ..old(self).registers }, ..*old(self) }),
            c == 8,
    {
        let hl = self.registers.get_hl();
        let v = memory.read_byte(hl);
        self.alu_add(v, false);
        8
    }

    /// ADD A,n.
    pub fn add_a_n(&mut self, memory: &AddressBus) -> (c: usize)
        requires
            memory.wf(),
        ensures
            *final(self) == (CPU { registers: Registers { a: add8_spec(old(self).registers.a, bus_read_spec(memory@, old(self).registers.pc), 0), f: add_flags_spec(old(self).registers.a, bus_read_spec(memory@, old(self).registers.pc), 0), pc: add16_spec(old(self).registers.pc, 1), ..old(self).registers }, ..*old(self) }),
            c == 8,
    {
        let n = self.get_n(memory);
        self.alu_add(n, false);
        8
    }

    /// ADC A,B.
    pub fn adc_a_b(&mut self) -> (c: usize)
        ensures
            ({ let c0: int = if old(self).registers.f.carry { 1 } else { 0 }; *final(self) == (CPU { registers: Registers { a: add8_spec(old(self).registers.a, old(self).registers.b, c0), f: add_flags_spec(old(self).registers.a, old(self).registers.b, c0), ..old(self).registers }, ..*old(self) }) }),
            c == 4,
    {
        let v = self.registers.b;
        self.alu_add(v, true);
        4
    }

    /// ADC A,C.
    pub fn adc_a_c(&mut self) -> (c: usize)
        ensures
            ({ let c0: int = if old(self).registers.f.carry { 1 } else { 0 }; *final(self) == (CPU { registers: Registers { a: add8_spec(old(self).registers.a, old(self).registers.c, c0), f: add_flags_spec(old(self).registers.a, old(self).registers.c, c0), ..old(self).registers }, ..*old(self) }) }),
            c == 4,
    {
        let v = self.registers.c;
        self.alu_add(v, true);
        4
    }

    /// ADC A,D.
    pub fn adc_a_d(&mut self) -> (c: usize)
        ensures
            ({ let c0: int = if old(self).registers.f.carry { 1 } else { 0 }; *final(self) == (CPU { registers: Registers { a: add8_spec(old(self).registers.a, old(self).registers.d, c0), f: add_flags_spec(old(self).registers.a, old(self).registers.d, c0), ..old(self).registers }, ..*old(self) }) }),
            c == 4,
    {
        let v = self.registers.d;
        self.alu_add(v, true);
        4
    }

    /// ADC A,E.
    pub fn adc_a_e(&mut self) -> (c: usize)
        ensures
            ({ let c0: int = if old(self).registers.f.carry { 1 } else { 0 }; *final(self) == (CPU { registers: Registers { a: add8_spec(old(self).registers.a, old(self).registers.e, c0), f: add_flags_spec(old(self).registers.a, old(self).registers.e, c0), ..old(self).registers }, ..*old(self) }) }),
            c == 4,
    {
        let v = self.registers.e;
        self.alu_add(v, true);
        4
    }

    /// ADC A,H.
    pub fn adc_a_h(&mut self) -> (c: usize)
        ensures
            ({ let c0: int = if old(self).registers.f.carry { 1 } else { 0 }; *final(self) == (CPU { registers: Registers { a: add8_spec(old(self).registers.a, old(self).registers.h, c0), f: add_flags_spec(old(self).registers.a, old(self).registers.h, c0), ..old(self).registers }, ..*old(self) }) }),
            c == 4,
    {
        let v = self.registers.h;
        self.alu_add(v, true);
        4
    }

    /// ADC A,L.
    pub fn adc_a_l(&mut self) -> (c: usize)
        ensures
            ({ let c0: int = if old(self).registers.f.carry { 1 } else { 0 }; *final(self) == (CPU { registers: Registers { a: add8_spec(old(self).registers.a, old(self).registers.l, c0), f: add_flags_spec(old(self).registers.a, old(self).registers.l, c0), ..old(self).registers }, ..*old(self) }) }),
            c == 4,
    {
        let v = self.registers.l;
        self.alu_add(v, true);
        4
    }

    /// ADC A,A.
    pub fn adc_a_a(&mut self) -> (c: usize)
        ensures
            ({ let c0: int = if old(self).registers.f.carry { 1 } else { 0 }; *final(self) == (CPU { registers: Registers { a: add8_spec(old(self).registers.a, old(self).registers.a, c0), f: add_flags_spec(old(self).registers.a, old(self).registers.a, c0), ..old(self).registers }, ..*old(self) }) }),
            c == 4,
    {
        let v = self.registers.a;
        self.alu_add(v, true);
        4
    }

    /// ADC A,(HL).
    pub fn adc_a_hl(&mut self, memory: &AddressBus) -> (c: usize)
        requires
            memory.wf(),
        ensures
            ({ let c0: int = if old(self).registers.f.carry { 1 } else { 0 }; *final(self) == (CPU { registers: Registers { a: add8_spec(old(self).registers.a, bus_read_spec(memory@, old(self).registers.hl_spec()), c0), f: add_flags_spec(old(self).registers.a, bus_read_spec(memory@, old(self).registers.hl_spec()), c0), ..old(self).registers }, ..*old(self) }) }),
            c == 8,
    {
        let hl = self.registers.get_hl();
        let v = memory.read_byte(hl);
        self.alu_add(v, true);
        8
    }

    /// ADC A,n.
    pub fn adc_a_n(&mut self, memory: &AddressBus) -> (c: usize)
        requires
            memory.wf(),
        ensures
            ({ let c0: int = if old(self).registers.f.carry { 1 } else { 0 }; *final(self) == (CPU { registers: Registers { a: add8_spec(old(self).registers.a, bus_read_spec(memory@, old(self).registers.pc), c0), f: add_flags_spec(old(self).registers.a, bus_read_spec(memory@, old(self).registers.pc), c0), pc: add16_spec(old(self).registers.pc, 1), ..old(self).registers }, ..*old(self) }) }),
            c == 8,
    {
        let n = self.get_n(memory);
        self.alu_add(n, true);
        8
    }

    /// SUB,B.
    pub fn sub_b(&mut self) -> (c: usize)
        ensures
            *final(self) == (CPU { registers: Registers { a: sub8_spec(old(self).registers.a, old(self).registers.b, 0), f: sub_flags_spec(old(self).registers.a, old(self).registers.b, 0), ..old(self).registers }, ..*old(self) }),
            c == 4,
    {
        let v = self.registers.b;
        self.alu_sub(v, false);
        4
    }

    /// SUB,C.
    pub fn sub_c(&mut self) -> (c: usize)
        ensures
            *final(self) == (CPU { registers: Registers { a: sub8_spec(old(self).registers.a, old(self).registers.c, 0), f: sub_flags_spec(old(self).registers.a, old(self).registers.c, 0), ..old(self).registers }, ..*old(self) }),
            c == 4,
    {
        let v = self.registers.c;
        self.alu_sub(v, false);
        4
    }

    /// SUB,D.
    pub fn sub_d(&mut self) -> (c: usize)
        ensures
            *final(self) == (CPU { registers: Registers { a: sub8_spec(old(self).registers.a, old(self).registers.d, 0), f: sub_flags_spec(old(self).registers.a, old(self).registers.d, 0), ..old(self).registers }, ..*old(self) }),
            c == 4,
    {
        let v = self.registers.d;
        self.alu_sub(v, false);
        4
    }

    /// SUB,E.
    pub fn sub_e(&mut self) -> (c: usize)
        ensures
            *final(self) == (CPU { registers: Registers { a: sub8_spec(old(self).registers.a, old(self).registers.e, 0), f: sub_flags_spec(old(self).registers.a, old(self).registers.e, 0), ..old(self).registers }, ..*old(self) }),
            c == 4,
    {
        let v = self.registers.e;
        self.alu_sub(v, false);
        4
    }

    /// SUB,H.
    pub fn sub_h(&mut self) -> (c: usize)
        ensures
            *final(self) == (CPU { registers: Registers { a: sub8_spec(old(self).registers.a, old(self).registers.h, 0), f: sub_flags_spec(old(self).registers.a, old(self).registers.h, 0), ..old(self).registers }, ..*old(self) }),
            c == 4,
    {
        let v = self.registers.h;
        self.alu_sub(v, false);
        4
    }

    /// SUB,L.
    pub fn sub_l(&mut self) -> (c: usize)
        ensures
            *final(self) == (CPU { registers: Registers { a: sub8_spec(old(self).registers.a, old(self).registers.l, 0), f: sub_flags_spec(old(self).registers.a, old(self).registers.l, 0), ..old(self).registers }, ..*old(self) }),
            c == 4,
    {
        let v = self.registers.l;
        self.alu_sub(v, false);
        4
    }

    /// SUB,A.
    pub fn sub_a(&mut self) -> (c: usize)
        ensures
            *final(self) == (CPU { registers: Registers { a: sub8_spec(old(self).registers.a, old(self).registers.a, 0), f: sub_flags_spec(old(self).registers.a, old(self).registers.a, 0), ..old(self).registers }, ..*old(self) }),
            c == 4,
    {
        let v = self.registers.a;
        self.alu_sub(v, false);
        4
    }

    /// SUB,(HL).
    pub fn sub_hl(&mut self, memory: &AddressBus) -> (c: usize)
        requires
            memory.wf(),
        ensures
            *final(self) == (CPU { registers: Registers { a: sub8_spec(old(self).registers.a, bus_read_spec(memory@, old(self).registers.hl_spec()), 0), f: sub_flags_spec(old(self).registers.a, bus_read_spec(memory@, old(self).registers.hl_spec()), 0), ..old(self).registers }, ..*old(self) }),
            c == 8,
    {
        let hl = self.registers.get_hl();
        let v = memory.read_byte(hl);
        self.alu_sub(v, false);
        8
    }

    /// SUB,n.
    pub fn sub_n(&mut self, memory: &AddressBus) -> (c: usize)
        requires
            memory.wf(),
        ensures
            *final(self) == (CPU { registers: Registers { a: sub8_spec(old(self).registers.a, bus_read_spec(memory@, old(self).registers.pc), 0), f: sub_flags_spec(old(self).registers.a, bus_read_spec(memory@, old(self).registers.pc), 0), pc: add16_spec(old(self).registers.pc, 1), ..old(self).registers }, ..*old(self) }),
            c == 8,
    {
        let n = self.get_n(memory);
        self.alu_sub(n, false);
        8
    }

    /// SBC A,B.
    pub fn sbc_a_b(&mut self) -> (c: usize)
        ensures
            ({ let c0: int = if old(self).registers.f.carry { 1 } else { 0 }; *final(self) == (CPU { registers: Registers { a: sub8_spec(old(self).registers.a, old(self).registers.b, c0), f: sub_flags_spec(old(self).registers.a, old(self).registers.b, c0), ..old(self).registers }, ..*old(self) }) }),
            c == 4,
    {
        let v = self.registers.b;
        self.alu_sub(v, true);
        4
    }

    /// SBC A,C.
    pub fn sbc_a_c(&mut self) -> (c: usize)
        ensures
            ({ let c0: int = if old(self).registers.f.carry { 1 } else { 0 }; *final(self) == (CPU { registers: Registers { a: sub8_spec(old(self).registers.a, old(self).registers.c, c0), f: sub_flags_spec(old(self).registers.a, old(self).registers.c, c0), ..old(self).registers }, ..*old(self) }) }),
            c == 4,
    {
        let v = self.registers.c;
        self.alu_sub(v, true);
        4
    }

    /// SBC A,D.
    pub fn sbc_a_d(&mut self) -> (c: usize)
        ensures
            ({ let c0: int = if old(self).registers.f.carry { 1 } else { 0 }; *final(self) == (CPU { registers: Registers { a: sub8_spec(old(self).registers.a, old(self).registers.d, c0), f: sub_flags_spec(old(self).registers.a, old(self).registers.d, c0), ..old(self).registers }, ..*old(self) }) }),
            c == 4,
    {
        let v = self.registers.d;
        self.alu_sub(v, true);
        4
    }

    /// SBC A,E.
    pub fn sbc_a_e(&mut self) -> (c: usize)
        ensures
            ({ let c0: int = if old(self).registers.f.carry { 1 } else { 0 }; *final(self) == (CPU { registers: Registers { a: sub8_spec(old(self).registers.a, old(self).registers.e, c0), f: sub_flags_spec(old(self).registers.a, old(self).registers.e, c0), ..old(self).registers }, ..*old(self) }) }),
            c == 4,
    {
        let v = self.registers.e;
        self.alu_sub(v, true);
        4
    }

    /// SBC A,H.
    pub fn sbc_a_h(&mut self) -> (c: usize)
        ensures
            ({ let c0: int = if old(self).registers.f.carry { 1 } else { 0 }; *final(self) == (CPU { registers: Registers { a: sub8_spec(old(self).registers.a, old(self).registers.h, c0), f: sub_flags_spec(old(self).registers.a, old(self).registers.h, c0), ..old(self).registers }, ..*old(self) }) }),
            c == 4,
    {
        let v = self.registers.h;
        self.alu_sub(v, true);
        4
    }

    /// SBC A,L.
    pub fn sbc_a_l(&mut self) -> (c: usize)
        ensures
            ({ let c0: int = if old(self).registers.f.carry { 1 } else { 0 }; *final(self) == (CPU { registers: Registers { a: sub8_spec(old(self).registers.a, old(self).registers.l, c0), f: sub_flags_spec(old(self).registers.a, old(self).registers.l, c0), ..old(self).registers }, ..*old(self) }) }),
            c == 4,
    {
        let v = self.registers.l;
        self.alu_sub(v, true);
        4
    }

    /// SBC A,A.
    pub fn sbc_a_a(&mut self) -> (c: usize)
        ensures
            ({ let c0: int = if old(self).registers.f.carry { 1 } else { 0 }; *final(self) == (CPU { registers: Registers { a: sub8_spec(old(self).registers.a, old(self).registers.a, c0), f: sub_flags_spec(old(self).registers.a, old(self).registers.a, c0), ..old(self).registers }, ..*old(self) }) }),
            c == 4,
    {
        let v = self.registers.a;
        self.alu_sub(v, true);
        4
    }

    /// SBC A,(HL).
    pub fn sbc_a_hl(&mut self, memory: &AddressBus) -> (c: usize)
        requires
            memory.wf(),
        ensures
            ({ let c0: int = if old(self).registers.f.carry { 1 } else { 0 }; *final(self) == (CPU { registers: Registers { a: sub8_spec(old(self).registers.a, bus_read_spec(memory@, old(self).registers.hl_spec()), c0), f: sub_flags_spec(old(self).registers.a, bus_read_spec(memory@, old(self).registers.hl_spec()), c0), ..old(self).registers }, ..*old(self) }) }),
            c == 8,
    {
        let hl = self.registers.get_hl();
        let v = memory.read_byte(hl);
        self.alu_sub(v, true);
        8
    }

    /// SBC A,n.
    pub fn sbc_a_n(&mut self, memory: &AddressBus) -> (c: usize)
        requires
            memory.wf(),
        ensures
            ({ let c0: int = if old(self).registers.f.carry { 1 } else { 0 }; *final(self) == (CPU { registers: Registers { a: sub8_spec(old(self).registers.a, bus_read_spec(memory@, old(self).registers.pc), c0), f: sub_flags_spec(old(self).registers.a, bus_read_spec(memory@, old(self).registers.pc), c0), pc: add16_spec(old(self).registers.pc, 1), ..old(self).registers }, ..*old(self) }) }),
            c == 8,
    {
        let n = self.get_n(memory);
        self.alu_sub(n, true);
        8
    }

    /// AND,B.
    pub fn and_b(&mut self) -> (c: usize)
        ensures
            *final(self) == (CPU { registers: Registers { a: old(self).registers.a & old(self).registers.b, f: logic_flags_spec(old(self).registers.a & old(self).registers.b == 0, true), ..old(self).registers }, ..*old(self) }),
            c == 4,
    {
        let v = self.registers.b;
        self.alu_and(v);
        4
    }

    /// AND,C.
    pub fn and_c(&mut self) -> (c: usize)
        ensures
            *final(self) == (CPU { registers: Registers { a: old(self).registers.a & old(self).registers.c, f: logic_flags_spec(old(self).registers.a & old(self).registers.c == 0, true), ..old(self).registers }, ..*old(self) }),
            c == 4,
    {
        let v = self.registers.c;
        self.alu_and(v);
        4
    }

    /// AND,D.
    pub fn and_d(&mut self) -> (c: usize)
        ensures
            *final(self) == (CPU { registers: Registers { a: old(self).registers.a & old(self).registers.d, f: logic_flags_spec(old(self).registers.a & old(self).registers.d == 0, true), ..old(self).registers }, ..*old(self) }),
            c == 4,
    {
        let v = self.registers.d;
        self.alu_and(v);
        4
    }

    /// AND,E.
    pub fn and_e(&mut self) -> (c: usize)
        ensures
            *final(self) == (CPU { registers: Registers { a: old(self).registers.a & old(self).registers.e, f: logic_flags_spec(old(self).registers.a & old(self).registers.e == 0, true), ..old(self).registers }, ..*old(self) }),
            c == 4,
    {
        let v = self.registers.e;
        self.alu_and(v);
        4
    }

    /// AND,H.
    pub fn and_h(&mut self) -> (c: usize)
        ensures
            *final(self) == (CPU { registers: Registers { a: old(self).registers.a & old(self).registers.h, f: logic_flags_spec(old(self).registers.a & old(self).registers.h == 0, true), ..old(self).registers }, ..*old(self) }),
            c == 4,
    {
        let v = self.registers.h;
        self.alu_and(v);
        4
    }

    /// AND,L.
    pub fn and_l(&mut self) -> (c: usize)
        ensures
            *final(self) == (CPU { registers: Registers { a: old(self).registers.a & old(self).registers.l, f: logic_flags_spec(old(self).registers.a & old(self).registers.l == 0, true), ..old(self).registers }, ..*old(self) }),
            c == 4,
    {
        let v = self.registers.l;
        self.alu_and(v);
        4
    }

    /// AND,A.
    pub fn and_a(&mut self) -> (c: usize)
        ensures
            *final(self) == (CPU { registers: Registers { a: old(self).registers.a & old(self).registers.a, f: logic_flags_spec(old(self).registers.a & old(self).registers.a == 0, true), ..old(self).registers }, ..*old(self) }),
            c == 4,
    {
        let v = self.registers.a;
        self.alu_and(v);
        4
    }

    /// AND,(HL).
    pub fn and_hl(&mut self, memory: &AddressBus) -> (c: usize)
        requires
            memory.wf(),
        ensures
            *final(self) == (CPU { registers: Registers { a: old(self).registers.a & bus_read_spec(memory@, old(self).registers.hl_spec()), f: logic_flags_spec(old(self).registers.a & bus_read_spec(memory@, old(self).registers.hl_spec()) == 0, true), ..old(self).registers }, ..*old(self) }),
            c == 8,
    {
        let hl = self.registers.get_hl();
        let v = memory.read_byte(hl);
        self.alu_and(v);
        8
    }

    /// AND,n.
    pub fn and_n(&mut self, memory: &AddressBus) -> (c: usize)
        requires
            memory.wf(),
        ensures
            *final(self) == (CPU { registers: Registers { a: old(self).registers.a & bus_read_spec(memory@, old(self).registers.pc), f: logic_flags_spec(old(self).registers.a & bus_read_spec(memory@, old(self).registers.pc) == 0, true), pc: add16_spec(old(self).registers.pc, 1), ..old(self).registers }, ..*old(self) }),
            c == 8,
    {
        let n = self.get_n(memory);
        self.alu_and(n);
        8
    }

    /// XOR,B.
    pub fn xor_b(&mut self) -> (c: usize)
        ensures
            *final(self) == (CPU { registers: Registers { a: old(self).registers.a ^ old(self).registers.b, f: logic_flags_spec(old(self).registers.a ^ old(self).registers.b == 0, false), ..old(self).registers }, ..*old(self) }),
            c == 4,
    {
        let v = self.registers.b;
        self.alu_xor(v);
        4
    }

    /// XOR,C.
    pub fn xor_c(&mut self) -> (c: usize)
        ensures
            *final(self) == (CPU { registers: Registers { a: old(self).registers.a ^ old(self).registers.c, f: logic_flags_spec(old(self).registers.a ^ old(self).registers.c == 0, false), ..old(self).registers }, ..*old(self) }),
            c == 4,
    {
        let v = self.registers.c;
        self.alu_xor(v);
        4
    }

    /// XOR,D.
    pub fn xor_d(&mut self) -> (c: usize)
        ensures
            *final(self) == (CPU { registers: Registers { a: old(self).registers.a ^ old(self).registers.d, f: logic_flags_spec(old(self).registers.a ^ old(self).registers.d == 0, false), ..old(self).registers }, ..*old(self) }),
            c == 4,
    {
        let v = self.registers.d;
        self.alu_xor(v);
        4
    }

    /// XOR,E.
    pub fn xor_e(&mut self) -> (c: usize)
        ensures
            *final(self) == (CPU { registers: Registers { a: old(self).registers.a ^ old(self).registers.e, f: logic_flags_spec(old(self).registers.a ^ old(self).registers.e == 0, false), ..old(self).registers }, ..*old(self) }),
            c == 4,
    {
        let v = self.registers.e;
        self.alu_xor(v);
        4
    }

    /// XOR,H.
    pub fn xor_h(&mut self) -> (c: usize)
        ensures
            *final(self) == (CPU { registers: Registers { a: old(self).registers.a ^ old(self).registers.h, f: logic_flags_spec(old(self).registers.a ^ old(self).registers.h == 0, false), ..old(self).registers }, ..*old(self) }),
            c == 4,
    {
        let v = self.registers.h;
        self.alu_xor(v);
        4
    }

    /// XOR,L.
    pub fn xor_l(&mut self) -> (c: usize)
        ensures
            *final(self) == (CPU { registers: Registers { a: old(self).registers.a ^ old(self).registers.l, f: logic_flags_spec(old(self).registers.a ^ old(self).registers.l == 0, false), ..old(self).registers }, ..*old(self) }),
            c == 4,
    {
        let v = self.registers.l;
        self.alu_xor(v);
        4
    }

    /// XOR,A.
    pub fn xor_a(&mut self) -> (c: usize)
        ensures
            *final(self) == (CPU { registers: Registers { a: old(self).registers.a ^ old(self).registers.a, f: logic_flags_spec(old(self).registers.a ^ old(self).registers.a == 0, false), ..old(self).registers }, ..*old(self) }),
            c == 4,
    {
        let v = self.registers.a;
        self.alu_xor(v);
        4
    }

    /// XOR,(HL).
    pub fn xor_hl(&mut self, memory: &AddressBus) -> (c: usize)
        requires
            memory.wf(),
        ensures
            *final(self) == (CPU { registers: Registers { a: old(self).registers.a ^ bus_read_spec(memory@, old(self).registers.hl_spec()), f: logic_flags_spec(old(self).registers.a ^ bus_read_spec(memory@, old(self).registers.hl_spec()) == 0, false), ..old(self).registers }, ..*old(self) }),
            c == 8,
    {
        let hl = self.registers.get_hl();
        let v = memory.read_byte(hl);
        self.alu_xor(v);
        8
    }

    /// XOR,n.
    pub fn xor_n(&mut self, memory: &AddressBus) -> (c: usize)
        requires
            memory.wf(),
        ensures
            *final(self) == (CPU { registers: Registers { a: old(self).registers.a ^ bus_read_spec(memory@, old(self).registers.pc), f: logic_flags_spec(old(self).registers.a ^ bus_read_spec(memory@, old(self).registers.pc) == 0, false), pc: add16_spec(old(self).registers.pc, 1), ..old(self).registers }, ..*old(self) }),
            c == 8,
    {
        let n = self.get_n(memory);
        self.alu_xor(n);
        8
    }

    /// OR,B.
    pub fn or_b(&mut self) -> (c: usize)
        ensures
            *final(self) == (CPU { registers: Registers { a: old(self).registers.a | old(self).registers.b, f: logic_flags_spec(old(self).registers.a | old(self).registers.b == 0, false), ..old(self).registers }, ..*old(self) }),
            c == 4,
    {
        let v = self.registers.b;
        self.alu_or(v);
        4
    }

    /// OR,C.
    pub fn or_c(&mut self) -> (c: usize)
        ensures
            *final(self) == (CPU { registers: Registers { a: old(self).registers.a | old(self).registers.c, f: logic_flags_spec(old(self).registers.a | old(self).registers.c == 0, false), ..old(self).registers }, ..*old(self) }),
            c == 4,
    {
        let v = self.registers.c;
        self.alu_or(v);
        4
    }

    /// OR,D.
    pub fn or_d(&mut self) -> (c: usize)
        ensures
            *final(self) == (CPU { registers: Registers { a: old(self).registers.a | old(self).registers.d, f: logic_flags_spec(old(self).registers.a | old(self).registers.d == 0, false), ..old(self).registers }, ..*old(self) }),
            c == 4,
    {
        let v = self.registers.d;
        self.alu_or(v);
        4
    }

    /// OR,E.
    pub fn or_e(&mut self) -> (c: usize)
        ensures
            *final(self) == (CPU { registers: Registers { a: old(self).registers.a | old(self).registers.e, f: logic_flags_spec(old(self).registers.a | old(self).registers.e == 0, false), ..old(self).registers }, ..*old(self) }),
            c == 4,
    {
        let v = self.registers.e;
        self.alu_or(v);
        4
    }

    /// OR,H.
    pub fn or_h(&mut self) -> (c: usize)
        ensures
            *final(self) == (CPU { registers: Registers { a: old(self).registers.a | old(self).registers.h, f: logic_flags_spec(old(self).registers.a | old(self).registers.h == 0, false), ..old(self).registers }, ..*old(self) }),
            c == 4,
    {
        let v = self.registers.h;
        self.alu_or(v);
        4
    }

    /// OR,L.
    pub fn or_l(&mut self) -> (c: usize)
        ensures
            *final(self) == (CPU { registers: Registers { a: old(self).registers.a | old(self).registers.l, f: logic_flags_spec(old(self).registers.a | old(self).registers.l == 0, false), ..old(self).registers }, ..*old(self) }),
            c == 4,
    {
        let v = self.registers.l;
        self.alu_or(v);
        4
    }

    /// OR,A.
    pub fn or_a(&mut self) -> (c: usize)
        ensures
            *final(self) == (CPU { registers: Registers { a: old(self).registers.a | old(self).registers.a, f: logic_flags_spec(old(self).registers.a | old(self).registers.a == 0, false), ..old(self).registers }, ..*old(self) }),
            c == 4,
    {
        let v = self.registers.a;
        self.alu_or(v);
        4
    }

    /// OR,(HL).
    pub fn or_hl(&mut self, memory: &AddressBus) -> (c: usize)
        requires
            memory.wf(),
        ensures
            *final(self) == (CPU { registers: Registers { a: old(self).registers.a | bus_read_spec(memory@, old(self).registers.hl_spec()), f: logic_flags_spec(old(self).registers.a | bus_read_spec(memory@, old(self).registers.hl_spec()) == 0, false), ..old(self).registers }, ..*old(self) }),
            c == 8,
    {
        let hl = self.registers.get_hl();
        let v = memory.read_byte(hl);
        self.alu_or(v);
        8
    }

    /// OR,n.
    pub fn or_n(&mut self, memory: &AddressBus) -> (c: usize)
        requires
            memory.wf(),
        ensures
            *final(self) == (CPU { registers: Registers { a: old(self).registers.a | bus_read_spec(memory@, old(self).registers.pc), f: logic_flags_spec(old(self).registers.a | bus_read_spec(memory@, old(self).registers.pc) == 0, false), pc: add16_spec(old(self).registers.pc, 1), ..old(self).registers }, ..*old(self) }),
            c == 8,
    {
        let n = self.get_n(memory);
        self.alu_or(n);
        8
    }

    /// CP,B.
    pub fn cp_b(&mut self) -> (c: usize)
        ensures
            *final(self) == (CPU { registers: Registers { f: sub_flags_spec(old(self).registers.a, old(self).registers.b, 0), ..old(self).registers }, ..*old(self) }),
            c == 4,
    {
        let v = self.registers.b;
        self.alu_cp(v);
        4
    }

    /// CP,C.
    pub fn cp_c(&mut self) -> (c: usize)
        ensures
            *final(self) == (CPU { registers: Registers { f: sub_flags_spec(old(self).registers.a, old(self).registers.c, 0), ..old(self).registers }, ..*old(self) }),
            c == 4,
    {
        let v = self.registers.c;
        self.alu_cp(v);
        4
    }

    /// CP,D.
    pub fn cp_d(&mut self) -> (c: usize)
        ensures
            *final(self) == (CPU { registers: Registers { f: sub_flags_spec(old(self).registers.a, old(self).registers.d, 0), ..old(self).registers }, ..*old(self) }),
            c == 4,
    {
        let v = self.registers.d;
        self.alu_cp(v);
        4
    }

    /// CP,E.
    pub fn cp_e(&mut self) -> (c: usize)
        ensures
            *final(self) == (CPU { registers: Registers { f: sub_flags_spec(old(self).registers.a, old(self).registers.e, 0), ..old(self).registers }, ..*old(self) }),
            c == 4,
    {
        let v = self.registers.e;
        self.alu_cp(v);
        4
    }

    /// CP,H.
    pub fn cp_h(&mut self) -> (c: usize)
        ensures
            *final(self) == (CPU { registers: Registers { f: sub_flags_spec(old(self).registers.a, old(self).registers.h, 0), ..old(self).registers }, ..*old(self) }),
            c == 4,
    {
        let v = self.registers.h;
        self.alu_cp(v);
        4
    }

    /// CP,L.
    pub fn cp_l(&mut self) -> (c: usize)
        ensures
            *final(self) == (CPU { registers: Registers { f: sub_flags_spec(old(self).registers.a, old(self).registers.l, 0), ..old(self).registers }, ..*old(self) }),
            c == 4,
    {
        let v = self.registers.l;
        self.alu_cp(v);
        4
    }

    /// CP,A.
    pub fn cp_a(&mut self) -> (c: usize)
        ensures
            *final(self) == (CPU { registers: Registers { f: sub_flags_spec(old(self).registers.a, old(self).registers.a, 0), ..old(self).registers }, ..*old(self) }),
            c == 4,
    {
        let v = self.registers.a;
        self.alu_cp(v);
        4
    }

    /// CP,(HL).
    pub fn cp_hl(&mut self, memory: &AddressBus) -> (c: usize)
        requires
            memory.wf(),
        ensures
            *final(self) == (CPU { registers: Registers { f: sub_flags_spec(old(self).registers.a, bus_read_spec(memory@, old(self).registers.hl_spec()), 0), ..old(self).registers }, ..*old(self) }),
            c == 8,
    {
        let hl = self.registers.get_hl();
        let v = memory.read_byte(hl);
        self.alu_cp(v);
        8
    }

    /// CP,n.
    pub fn cp_n(&mut self, memory: &AddressBus) -> (c: usize)
        requires
            memory.wf(),
        ensures
            *final(self) == (CPU { registers: Registers { f: sub_flags_spec(old(self).registers.a, bus_read_spec(memory@, old(self).registers.pc), 0), pc: add16_spec(old(self).registers.pc, 1), ..old(self).registers }, ..*old(self) }),
            c == 8,
    {
        let n = self.get_n(memory);
        self.alu_cp(n);
        8
    }

    /// RET.
    pub fn ret(&mut self, memory: &AddressBus) -> (c: usize)
        requires
            memory.wf(),
        ensures
            *final(self) == (CPU { registers: Registers { pc: bus_read16_spec(memory@, old(self).registers.sp), sp: add16_spec(old(self).registers.sp, 2), ..old(self).registers }, ..*old(self) }),
            c == 16,
    {
        let pc = self.pop(memory);
        self.registers.pc = pc;
        16
    }

    /// RETI: return and restore the interrupt master enable.
    pub fn reti(&mut self, memory: &AddressBus) -> (c: usize)
        requires
            memory.wf(),
        ensures
            *final(self) == (CPU { registers: Registers { pc: bus_read16_spec(memory@, old(self).registers.sp), sp: add16_spec(old(self).registers.sp, 2), ..old(self).registers }, ime: true, ..*old(self) }),
            c == 16,
    {
        let pc = self.pop(memory);
        self.registers.pc = pc;
        self.ime = true;
        16
    }

    /// RET taken when Z clear: 20 cycles taken, 8 not.
    pub fn ret_nz(&mut self, memory: &AddressBus) -> (c: usize)
        requires
            memory.wf(),
        ensures
            !old(self).registers.f.zero ==> *final(self) == (CPU { registers: Registers { pc: bus_read16_spec(memory@, old(self).registers.sp), sp: add16_spec(old(self).registers.sp, 2), ..old(self).registers }, ..*old(self) }) && c == 20,
            !(!old(self).registers.f.zero) ==> *final(self) == *old(self) && c == 8,
    {
        if !self.registers.f.zero {
            let pc = self.pop(memory);
            self.registers.pc = pc;
            20
        } else {
            8
        }
    }

    /// RET taken when Z set: 20 cycles taken, 8 not.
    pub fn ret_z(&mut self, memory: &AddressBus) -> (c: usize)
        requires
            memory.wf(),
        ensures
            old(self).registers.f.zero ==> *final(self) == (CPU { registers: Registers { pc: bus_read16_spec(memory@, old(self).registers.sp), sp: add16_spec(old(self).registers.sp, 2), ..old(self).registers }, ..*old(self) }) && c == 20,
            !(old(self).registers.f.zero) ==> *final(self) == *old(self) && c == 8,
    {
        if self.registers.f.zero {
            let pc = self.pop(memory);
            self.registers.pc = pc;
            20
        } else {
            8
        }
    }

    /// RET taken when C clear: 20 cycles taken, 8 not.
    pub fn ret_nc(&mut self, memory: &AddressBus) -> (c: usize)
        requires
            memory.wf(),
        ensures
            !old(self).registers.f.carry ==> *final(self) == (CPU { registers: Registers { pc: bus_read16_spec(memory@, old(self).registers.sp), sp: add16_spec(old(self).registers.sp, 2), ..old(self).registers }, ..*old(self) }) && c == 20,
            !(!old(self).registers.f.carry) ==> *final(self) == *old(self) && c == 8,
    {
        if !self.registers.f.carry {
            let pc = self.pop(memory);
            self.registers.pc = pc;
            20
        } else {
            8
        }
    }

    /// RET taken when C set: 20 cycles taken, 8 not.
    pub fn ret_c(&mut self, memory: &AddressBus) -> (c: usize)
        requires
            memory.wf(),
        ensures
            old(self).registers.f.carry ==> *final(self) == (CPU { registers: Registers { pc: bus_read16_spec(memory@, old(self).registers.sp), sp: add16_spec(old(self).registers.sp, 2), ..old(self).registers }, ..*old(self) }) && c == 20,
            !(old(self).registers.f.carry) ==> *final(self) == *old(self) && c == 8,
    {
        if self.registers.f.carry {
            let pc = self.pop(memory);
            self.registers.pc = pc;
            20
        } else {
            8
        }
    }

    /// POP BC.
    pub fn pop_bc(&mut self, memory: &AddressBus) -> (c: usize)
        requires
            memory.wf(),
        ensures
            *final(self) == (CPU { registers: Registers { b: hi_byte_spec(bus_read16_spec(memory@, old(self).registers.sp)), c: lo_byte_spec(bus_read16_spec(memory@, old(self).registers.sp)), sp: add16_spec(old(self).registers.sp, 2), ..old(self).registers }, ..*old(self) }),
            c == 12,
    {
        let v = self.pop(memory);
        self.registers.set_bc(v);
        12
    }

    /// PUSH BC.
    pub fn push_bc(&mut self, memory: &mut AddressBus) -> (c: usize)
        requires
            old(memory).wf(),
        ensures
            final(memory).wf(),
            *final(self) == (CPU { registers: Registers { sp: sub16_spec(old(self).registers.sp, 2), ..old(self).registers }, ..*old(self) }),
            final(memory)@ == bus_write16_spec(old(memory)@, sub16_spec(old(self).registers.sp, 2), old(self).registers.bc_spec()),
            c == 16,
    {
        let v = self.registers.get_bc();
        self.push(memory, v);
        16
    }

    /// POP DE.
    pub fn pop_de(&mut self, memory: &AddressBus) -> (c: usize)
        requires
            memory.wf(),
        ensures
            *final(self) == (CPU { registers: Registers { d: hi_byte_spec(bus_read16_spec(memory@, old(self).registers.sp)), e: lo_byte_spec(bus_read16_spec(memory@, old(self).registers.sp)), sp: add16_spec(old(self).registers.sp, 2), ..old(self).registers }, ..*old(self) }),
            c == 12,
    {
        let v = self.pop(memory);
        self.registers.set_de(v);
        12
    }

    /// PUSH DE.
    pub fn push_de(&mut self, memory: &mut AddressBus) -> (c: usize)
        requires
            old(memory).wf(),
        ensures
            final(memory).wf(),
            *final(self) == (CPU { registers: Registers { sp: sub16_spec(old(self).registers.sp, 2), ..old(self).registers }, ..*old(self) }),
            final(memory)@ == bus_write16_spec(old(memory)@, sub16_spec(old(self).registers.sp, 2), old(self).registers.de_spec()),
            c == 16,
    {
        let v = self.registers.get_de();
        self.push(memory, v);
        16
    }

    /// POP HL.
    pub fn pop_hl(&mut self, memory: &AddressBus) -> (c: usize)
        requires
            memory.wf(),
        ensures
            *final(self) == (CPU { registers: Registers { h: hi_byte_spec(bus_read16_spec(memory@, old(self).registers.sp)), l: lo_byte_spec(bus_read16_spec(memory@, old(self).registers.sp)), sp: add16_spec(old(self).registers.sp, 2), ..old(self).registers }, ..*old(self) }),
            c == 12,
    {
        let v = self.pop(memory);
        self.registers.set_hl(v);
        12
    }

    /// PUSH HL.
    pub fn push_hl(&mut self, memory: &mut AddressBus) -> (c: usize)
        requires
            old(memory).wf(),
        ensures
            final(memory).wf(),
            *final(self) == (CPU { registers: Registers { sp: sub16_spec(old(self).registers.sp, 2), ..old(self).registers }, ..*old(self) }),
            final(memory)@ == bus_write16_spec(old(memory)@, sub16_spec(old(self).registers.sp, 2), old(self).registers.hl_spec()),
            c == 16,
    {
        let v = self.registers.get_hl();
        self.push(memory, v);
        16
    }

    /// POP AF: the low nibble of F does not exist and is dropped.
    pub fn pop_af(&mut self, memory: &AddressBus) -> (c: usize)
        requires
            memory.wf(),
        ensures
            *final(self) == (CPU { registers: Registers { a: hi_byte_spec(bus_read16_spec(memory@, old(self).registers.sp)), f: flag_of_bits_spec(lo_byte_spec(bus_read16_spec(memory@, old(self).registers.sp))), sp: add16_spec(old(self).registers.sp, 2), ..old(self).registers }, ..*old(self) }),
            c == 12,
    {
        let v = self.pop(memory);
        self.registers.set_af(v);
        12
    }

    /// PUSH AF.
    pub fn push_af(&mut self, memory: &mut AddressBus) -> (c: usize)
        requires
            old(memory).wf(),
        ensures
            final(memory).wf(),
            *final(self) == (CPU { registers: Registers { sp: sub16_spec(old(self).registers.sp, 2), ..old(self).registers }, ..*old(self) }),
            final(memory)@ == bus_write16_spec(old(memory)@, sub16_spec(old(self).registers.sp, 2), old(self).registers.af_spec()),
            c == 16,
    {
        let v = self.registers.get_af();
        self.push(memory, v);
        16
    }

    /// JP nn.
    pub fn jp_nn(&mut self, memory: &AddressBus) -> (c: usize)
        requires
            memory.wf(),
        ensures
            *final(self) == (CPU { registers: Registers { pc: bus_read16_spec(memory@, old(self).registers.pc), ..old(self).registers }, ..*old(self) }),
            c == 16,
    {
        let nn = self.get_nn(memory);
        self.registers.pc = nn;
        16
    }

    /// JP taken when Z clear: 16 cycles taken, 12 not.
    pub fn jp_nz_nn(&mut self, memory: &AddressBus) -> (c: usize)
        requires
            memory.wf(),
        ensures
            !old(self).registers.f.zero ==> *final(self) == (CPU { registers: Registers { pc: bus_read16_spec(memory@, old(self).registers.pc), ..old(self).registers }, ..*old(self) }) && c == 16,
            !(!old(self).registers.f.zero) ==> *final(self) == (CPU { registers: Registers { pc: add16_spec(old(self).registers.pc, 2), ..old(self).registers }, ..*old(self) }) && c == 12,
    {
        let nn = self.get_nn(memory);
        if !self.registers.f.zero {
            self.registers.pc = nn;
            16
        } else {
            12
        }
    }

    /// JP taken when Z set: 16 cycles taken, 12 not.
    pub fn jp_z_nn(&mut self, memory: &AddressBus) -> (c: usize)
        requires
            memory.wf(),
        ensures
            old(self).registers.f.zero ==> *final(self) == (CPU { registers: Registers { pc: bus_read16_spec(memory@, old(self).registers.pc), ..old(self).registers }, ..*old(self) }) && c == 16,
            !(old(self).registers.f.zero) ==> *final(self) == (CPU { registers: Registers { pc: add16_spec(old(self).registers.pc, 2), ..old(self).registers }, ..*old(self) }) && c == 12,
    {
        let nn = self.get_nn(memory);
        if self.registers.f.zero {
            self.registers.pc = nn;
            16
        } else {
            12
        }
    }

    /// JP taken when C clear: 16 cycles taken, 12 not.
    pub fn jp_nc_nn(&mut self, memory: &AddressBus) -> (c: usize)
        requires
            memory.wf(),
        ensures
            !old(self).registers.f.carry ==> *final(self) == (CPU { registers: Registers { pc: bus_read16_spec(memory@, old(self).registers.pc), ..old(self).registers }, ..*old(self) }) && c == 16,
            !(!old(self).registers.f.carry) ==> *final(self) == (CPU { registers: Registers { pc: add16_spec(old(self).registers.pc, 2), ..old(self).registers }, ..*old(self) }) && c == 12,
    {
        let nn = self.get_nn(memory);
        if !self.registers.f.carry {
            self.registers.pc = nn;
            16
        } else {
            12
        }
    }

    /// JP taken when C set: 16 cycles taken, 12 not.
    pub fn jp_c_nn(&mut self, memory: &AddressBus) -> (c: usize)
        requires
            memory.wf(),
        ensures
            old(self).registers.f.carry ==> *final(self) == (CPU { registers: Registers { pc: bus_read16_spec(memory@, old(self).registers.pc), ..old(self).registers }, ..*old(self) }) && c == 16,
            !(old(self).registers.f.carry) ==> *final(self) == (CPU { registers: Registers { pc: add16_spec(old(self).registers.pc, 2), ..old(self).registers }, ..*old(self) }) && c == 12,
    {
        let nn = self.get_nn(memory);
        if self.registers.f.carry {
            self.registers.pc = nn;
            16
        } else {
            12
        }
    }

    /// JP HL.
    pub fn jp_hl(&mut self) -> (c: usize)
        ensures
            *final(self) == (CPU { registers: Registers { pc: old(self).registers.hl_spec(), ..old(self).registers }, ..*old(self) }),
            c == 4,
    {
        let hl = self.registers.get_hl();
        self.registers.pc = hl;
        4
    }

    /// CALL nn: the address after the operand is pushed.
    pub fn call_nn(&mut self, memory: &mut AddressBus) -> (c: usize)
        requires
            old(memory).wf(),
        ensures
            final(memory).wf(),
            *final(self) == (CPU { registers: Registers { pc: bus_read16_spec(old(memory)@, old(self).registers.pc), sp: sub16_spec(old(self).registers.sp, 2), ..old(self).registers }, ..*old(self) }),
            final(memory)@ == bus_write16_spec(old(memory)@, sub16_spec(old(self).registers.sp, 2), add16_spec(old(self).registers.pc, 2)),
            c == 24,
    {
        let nn = self.get_nn(memory);
        let pc = self.registers.pc;
        self.push(memory, pc);
        self.registers.pc = nn;
        24
    }

    /// CALL taken when Z clear: 24 cycles taken, 12 not.
    pub fn call_nz_nn(&mut self, memory: &mut AddressBus) -> (c: usize)
        requires
            old(memory).wf(),
        ensures
            final(memory).wf(),
            !old(self).registers.f.zero ==> *final(self) == (CPU { registers: Registers { pc: bus_read16_spec(old(memory)@, old(self).registers.pc), sp: sub16_spec(old(self).registers.sp, 2), ..old(self).registers }, ..*old(self) }) && final(memory)@ == bus_write16_spec(old(memory)@, sub16_spec(old(self).registers.sp, 2), add16_spec(old(self).registers.pc, 2)) && c == 24,
            !(!old(self).registers.f.zero) ==> *final(self) == (CPU { registers: Registers { pc: add16_spec(old(self).registers.pc, 2), ..old(self).registers }, ..*old(self) }) && final(memory)@ == old(memory)@ && c == 12,
    {
        let nn = self.get_nn(memory);
        if !self.registers.f.zero {
            let pc = self.registers.pc;
            self.push(memory, pc);
            self.registers.pc = nn;
            24
        } else {
            12
        }
    }

    /// CALL taken when Z set: 24 cycles taken, 12 not.
    pub fn call_z_nn(&mut self, memory: &mut AddressBus) -> (c: usize)
        requires
            old(memory).wf(),
        ensures
            final(memory).wf(),
            old(self).registers.f.zero ==> *final(self) == (CPU { registers: Registers { pc: bus_read16_spec(old(memory)@, old(self).registers.pc), sp: sub16_spec(old(self).registers.sp, 2), ..old(self).registers }, ..*old(self) }) && final(memory)@ == bus_write16_spec(old(memory)@, sub16_spec(old(self).registers.sp, 2), add16_spec(old(self).registers.pc, 2)) && c == 24,
            !(old(self).registers.f.zero) ==> *final(self) == (CPU { registers: Registers { pc: add16_spec(old(self).registers.pc, 2), ..old(self).registers }, ..*old(self) }) && final(memory)@ == old(memory)@ && c == 12,
    {
        let nn = self.get_nn(memory);
        if self.registers.f.zero {
            let pc = self.registers.pc;
            self.push(memory, pc);
            self.registers.pc = nn;
            24
        } else {
            12
        }
    }

    /// CALL taken when C clear: 24 cycles taken, 12 not.
    pub fn call_nc_nn(&mut self, memory: &mut AddressBus) -> (c: usize)
        requires
            old(memory).wf(),
        ensures
            final(memory).wf(),
            !old(self).registers.f.carry ==> *final(self) == (CPU { registers: Registers { pc: bus_read16_spec(old(memory)@, old(self).registers.pc), sp: sub16_spec(old(self).registers.sp, 2), ..old(self).registers }, ..*old(self) }) && final(memory)@ == bus_write16_spec(old(memory)@, sub16_spec(old(self).registers.sp, 2), add16_spec(old(self).registers.pc, 2)) && c == 24,
            !(!old(self).registers.f.carry) ==> *final(self) == (CPU { registers: Registers { pc: add16_spec(old(self).registers.pc, 2), ..old(self).registers }, ..*old(self) }) && final(memory)@ == old(memory)@ && c == 12,
    {
        let nn = self.get_nn(memory);
        if !self.registers.f.carry {
            let pc = self.registers.pc;
            self.push(memory, pc);
            self.registers.pc = nn;
            24
        } else {
            12
        }
    }

    /// CALL taken when C set: 24 cycles taken, 12 not.
    pub fn call_c_nn(&mut self, memory: &mut AddressBus) -> (c: usize)
        requires
            old(memory).wf(),
        ensures
            final(memory).wf(),
            old(self).registers.f.carry ==> *final(self) == (CPU { registers: Registers { pc: bus_read16_spec(old(memory)@, old(self).registers.pc), sp: sub16_spec(old(self).registers.sp, 2), ..old(self).registers }, ..*old(self) }) && final(memory)@ == bus_write16_spec(old(memory)@, sub16_spec(old(self).registers.sp, 2), add16_spec(old(self).registers.pc, 2)) && c == 24,
            !(old(self).registers.f.carry) ==> *final(self) == (CPU { registers: Registers { pc: add16_spec(old(self).registers.pc, 2), ..old(self).registers }, ..*old(self) }) && final(memory)@ == old(memory)@ && c == 12,
    {
        let nn = self.get_nn(memory);
        if self.registers.f.carry {
            let pc = self.registers.pc;
            self.push(memory, pc);
            self.registers.pc = nn;
            24
        } else {
            12
        }
    }

    /// RST 0x00.
    pub fn rst_00(&mut self, memory: &mut AddressBus) -> (c: usize)
        requires
            old(memory).wf(),
        ensures
            final(memory).wf(),
            *final(self) == (CPU { registers: Registers { pc: 0x00, sp: sub16_spec(old(self).registers.sp, 2), ..old(self).registers }, ..*old(self) }),
            final(memory)@ == bus_write16_spec(old(memory)@, sub16_spec(old(self).registers.sp, 2), old(self).registers.pc),
            c == 16,
    {
        let pc = self.registers.pc;
        self.push(memory, pc);
        self.registers.pc = 0x00;
        16
    }

    /// RST 0x08.
    pub fn rst_08(&mut self, memory: &mut AddressBus) -> (c: usize)
        requires
            old(memory).wf(),
        ensures
            final(memory).wf(),
            *final(self) == (CPU { registers: Registers { pc: 0x08, sp: sub16_spec(old(self).registers.sp, 2), ..old(self).registers }, ..*old(self) }),
            final(memory)@ == bus_write16_spec(old(memory)@, sub16_spec(old(self).registers.sp, 2), old(self).registers.pc),
            c == 16,
    {
        let pc = self.registers.pc;
        self.push(memory, pc);
        self.registers.pc = 0x08;
        16
    }

    /// RST 0x10.
    pub fn rst_10(&mut self, memory: &mut AddressBus) -> (c: usize)
        requires
            old(memory).wf(),
        ensures
            final(memory).wf(),
            *final(self) == (CPU { registers: Registers { pc: 0x10, sp: sub16_spec(old(self).registers.sp, 2), ..old(self).registers }, ..*old(self) }),
            final(memory)@ == bus_write16_spec(old(memory)@, sub16_spec(old(self).registers.sp, 2), old(self).registers.pc),
            c == 16,
    {
        let pc = self.registers.pc;
        self.push(memory, pc);
        self.registers.pc = 0x10;
        16
    }

    /// RST 0x18.
    pub fn rst_18(&mut self, memory: &mut AddressBus) -> (c: usize)
        requires
            old(memory).wf(),
        ensures
            final(memory).wf(),
            *final(self) == (CPU { registers: Registers { pc: 0x18, sp: sub16_spec(old(self).registers.sp, 2), ..old(self).registers }, ..*old(self) }),
            final(memory)@ == bus_write16_spec(old(memory)@, sub16_spec(old(self).registers.sp, 2), old(self).registers.pc),
            c == 16,
    {
        let pc = self.registers.pc;
        self.push(memory, pc);
        self.registers.pc = 0x18;
        16
    }

    /// RST 0x20.
    pub fn rst_20(&mut self, memory: &mut AddressBus) -> (c: usize)
        requires
            old(memory).wf(),
        ensures
            final(memory).wf(),
            *final(self) == (CPU { registers: Registers { pc: 0x20, sp: sub16_spec(old(self).registers.sp, 2), ..old(self).registers }, ..*old(self) }),
            final(memory)@ == bus_write16_spec(old(memory)@, sub16_spec(old(self).registers.sp, 2), old(self).registers.pc),
            c == 16,
    {
        let pc = self.registers.pc;
        self.push(memory, pc);
        self.registers.pc = 0x20;
        16
    }

    /// RST 0x28.
    pub fn rst_28(&mut self, memory: &mut AddressBus) -> (c: usize)
        requires
            old(memory).wf(),
        ensures
            final(memory).wf(),
            *final(self) == (CPU { registers: Registers { pc: 0x28, sp: sub16_spec(old(self).registers.sp, 2), ..old(self).registers }, ..*old(self) }),
            final(memory)@ == bus_write16_spec(old(memory)@, sub16_spec(old(self).registers.sp, 2), old(self).registers.pc),
            c == 16,
    {
        let pc = self.registers.pc;
        self.push(memory, pc);
        self.registers.pc = 0x28;
        16
    }

    /// RST 0x30.
    pub fn rst_30(&mut self, memory: &mut AddressBus) -> (c: usize)
        requires
            old(memory).wf(),
        ensures
            final(memory).wf(),
            *final(self) == (CPU { registers: Registers { pc: 0x30, sp: sub16_spec(old(self).registers.sp, 2), ..old(self).registers }, ..*old(self) }),
            final(memory)@ == bus_write16_spec(old(memory)@, sub16_spec(old(self).registers.sp, 2), old(self).registers.pc),
            c == 16,
    {
        let pc = self.registers.pc;
        self.push(memory, pc);
        self.registers.pc = 0x30;
        16
    }

    /// RST 0x38.
    pub fn rst_38(&mut self, memory: &mut AddressBus) -> (c: usize)
        requires
            old(memory).wf(),
        ensures
            final(memory).wf(),
            *final(self) == (CPU { registers: Registers { pc: 0x38, sp: sub16_spec(old(self).registers.sp, 2), ..old(self).registers }, ..*old(self) }),
            final(memory)@ == bus_write16_spec(old(memory)@, sub16_spec(old(self).registers.sp, 2), old(self).registers.pc),
            c == 16,
    {
        let pc = self.registers.pc;
        self.push(memory, pc);
        self.registers.pc = 0x38;
        16
    }

    /// LDH (n),A: a store into the high page.
    pub fn ldh_n_a(&mut self, memory: &mut AddressBus) -> (c: usize)
        requires
            old(memory).wf(),
        ensures
            final(memory).wf(),
            *final(self) == (CPU { registers: Registers { pc: add16_spec(old(self).registers.pc, 1), ..old(self).registers }, ..*old(self) }),
            final(memory)@ == bus_write_spec(old(memory)@, (0xFF00 + bus_read_spec(old(memory)@, old(self).registers.pc)) as u16, old(self).registers.a),
            c == 12,
    {
        let n = self.get_n(memory);
        memory.write_byte(0xFF00 + n as u16, self.registers.a);
        12
    }

    /// LDH A,(n): a load from the high page.
    pub fn ldh_a_n(&mut self, memory: &AddressBus) -> (c: usize)
        requires
            memory.wf(),
        ensures
            *final(self) == (CPU { registers: Registers { a: bus_read_spec(memory@, (0xFF00 + bus_read_spec(memory@, old(self).registers.pc)) as u16), pc: add16_spec(old(self).registers.pc, 1), ..old(self).registers }, ..*old(self) }),
            c == 12,
    {
        let n = self.get_n(memory);
        self.registers.a = memory.read_byte(0xFF00 + n as u16);
        12
    }

    /// LD (0xFF00+C),A.
    pub fn ldh_c_a(&mut self, memory: &mut AddressBus) -> (c: usize)
        requires
            old(memory).wf(),
        ensures
            final(memory).wf(),
            *final(self) == (CPU { ..*old(self) }),
            final(memory)@ == bus_write_spec(old(memory)@, (0xFF00 + old(self).registers.c) as u16, old(self).registers.a),
            c == 8,
    {
        memory.write_byte(0xFF00 + self.registers.c as u16, self.registers.a);
        8
    }

    /// LD A,(0xFF00+C).
    pub fn ldh_a_c(&mut self, memory: &AddressBus) -> (c: usize)
        requires
            memory.wf(),
        ensures
            *final(self) == (CPU { registers: Registers { a: bus_read_spec(memory@, (0xFF00 + old(self).registers.c) as u16), ..old(self).registers }, ..*old(self) }),
            c == 8,
    {
        self.registers.a = memory.read_byte(0xFF00 + self.registers.c as u16);
        8
    }

    /// LD (nn),A.
    pub fn ld_nn_a(&mut self, memory: &mut AddressBus) -> (c: usize)
        requires
            old(memory).wf(),
        ensures
            final(memory).wf(),
            *final(self) == (CPU { registers: Registers { pc: add16_spec(old(self).registers.pc, 2), ..old(self).registers }, ..*old(self) }),
            final(memory)@ == bus_write_spec(old(memory)@, bus_read16_spec(old(memory)@, old(self).registers.pc), old(self).registers.a),
            c == 16,
    {
        let nn = self.get_nn(memory);
        memory.write_byte(nn, self.registers.a);
        16
    }

    /// LD A,(nn).
    pub fn ld_a_nn(&mut self, memory: &AddressBus) -> (c: usize)
        requires
            memory.wf(),
        ensures
            *final(self) == (CPU { registers: Registers { a: bus_read_spec(memory@, bus_read16_spec(memory@, old(self).registers.pc)), pc: add16_spec(old(self).registers.pc, 2), ..old(self).registers }, ..*old(self) }),
            c == 16,
    {
        let nn = self.get_nn(memory);
        self.registers.a = memory.read_byte(nn);
        16
    }

    /// ADD SP,e8: flags from unsigned byte arithmetic on the low byte.
    pub fn add_sp_n(&mut self, memory: &AddressBus) -> (c: usize)
        requires
            memory.wf(),
        ensures
            *final(self) == (CPU { registers: Registers { sp: add16_spec(old(self).registers.sp, sign_ext_spec(bus_read_spec(memory@, old(self).registers.pc))), f: sp_offset_flags_spec(old(self).registers.sp, bus_read_spec(memory@, old(self).registers.pc)), pc: add16_spec(old(self).registers.pc, 1), ..old(self).registers }, ..*old(self) }),
            c == 16,
    {
        let n = self.get_n(memory);
        let sp = self.registers.sp;
        let half = sp % 16 + (n % 16) as u16 > 15;
        let carry = sp % 256 + n as u16 > 255;
        let ext: u16 = if n < 128 { n as u16 } else { n as u16 + 0xFF00 };
        self.registers.sp = ((sp as u32 + ext as u32) % 65536) as u16;
        self.registers.f = Flag::make(false, false, half, carry);
        16
    }

    /// LDHL SP,e8: flags from unsigned byte arithmetic on the low byte.
    pub fn ldhl_sp_n(&mut self, memory: &AddressBus) -> (c: usize)
        requires
            memory.wf(),
        ensures
            *final(self) == (CPU { registers: Registers { h: hi_byte_spec(add16_spec(old(self).registers.sp, sign_ext_spec(bus_read_spec(memory@, old(self).registers.pc)))), l: lo_byte_spec(add16_spec(old(self).registers.sp, sign_ext_spec(bus_read_spec(memory@, old(self).registers.pc)))), f: sp_offset_flags_spec(old(self).registers.sp, bus_read_spec(memory@, old(self).registers.pc)), pc: add16_spec(old(self).registers.pc, 1), ..old(self).registers }, ..*old(self) }),
            c == 12,
    {
        let n = self.get_n(memory);
        let sp = self.registers.sp;
        let half = sp % 16 + (n % 16) as u16 > 15;
        let carry = sp % 256 + n as u16 > 255;
        let ext: u16 = if n < 128 { n as u16 } else { n as u16 + 0xFF00 };
        let r = ((sp as u32 + ext as u32) % 65536) as u16;
        self.registers.set_hl(r);
        self.registers.f = Flag::make(false, false, half, carry);
        12
    }

    /// LD SP,HL.
    pub fn ld_sp_hl(&mut self) -> (c: usize)
        ensures
            *final(self) == (CPU { registers: Registers { sp: old(self).registers.hl_spec(), ..old(self).registers }, ..*old(self) }),
            c == 8,
    {
        self.registers.sp = self.registers.get_hl();
        8
    }

    /// DI.
    pub fn di(&mut self) -> (c: usize)
        ensures
            *final(self) == (CPU { ime: false, ..*old(self) }),
            c == 4,
    {
        self.ime = false;
        4
    }

    /// EI: takes effect immediately.
    pub fn ei(&mut self) -> (c: usize)
        ensures
            *final(self) == (CPU { ime: true, ..*old(self) }),
            c == 4,
    {
        self.ime = true;
        4
    }

}

} // verus!
