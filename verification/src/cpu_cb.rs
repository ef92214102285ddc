use vstd::prelude::*;
use crate::bus::{AddressBus, bus_read_spec, bus_write_spec};
use crate::cpu::CPU;
use crate::cpu_alu::{
    rl8_spec, rlc8_spec, rot_flags_spec, rr8_spec, rrc8_spec, sla8_spec, sra8_spec, srl8_spec,
    swap8_spec,
};
use crate::flags::Flag;
use crate::regs::Registers;

verus! {

impl CPU {
    /// RLC B.
    pub fn rlc_b(&mut self) -> (c: usize)
        ensures
            *final(self) == (CPU { registers: Registers { b: rlc8_spec(old(self).registers.b), f: rot_flags_spec(rlc8_spec(old(self).registers.b) == 0, old(self).registers.b / 128 == 1), ..old(self).registers }, ..*old(self) }),
            c == 8,
    {
        let r = self.alu_rlc(self.registers.b);
        self.registers.b = r;
        8
    }

    /// RLC C.
    pub fn rlc_c(&mut self) -> (c: usize)
        ensures
            *final(self) == (CPU { registers: Registers { c: rlc8_spec(old(self).registers.c), f: rot_flags_spec(rlc8_spec(old(self).registers.c) == 0, old(self).registers.c / 128 == 1), ..old(self).registers }, ..*old(self) }),
            c == 8,
    {
        let r = self.alu_rlc(self.registers.c);
        self.registers.c = r;
        8
    }

    /// RLC D.
    pub fn rlc_d(&mut self) -> (c: usize)
        ensures
            *final(self) == (CPU { registers: Registers { d: rlc8_spec(old(self).registers.d), f: rot_flags_spec(rlc8_spec(old(self).registers.d) == 0, old(self).registers.d / 128 == 1), ..old(self).registers }, ..*old(self) }),
            c == 8,
    {
        let r = self.alu_rlc(self.registers.d);
        self.registers.d = r;
        8
    }

    /// RLC E.
    pub fn rlc_e(&mut self) -> (c: usize)
        ensures
            *final(self) == (CPU { registers: Registers { e: rlc8_spec(old(self).registers.e), f: rot_flags_spec(rlc8_spec(old(self).registers.e) == 0, old(self).registers.e / 128 == 1), ..old(self).registers }, ..*old(self) }),
            c == 8,
    {
        let r = self.alu_rlc(self.registers.e);
        self.registers.e = r;
        8
    }

    /// RLC H.
    pub fn rlc_h(&mut self) -> (c: usize)
        ensures
            *final(self) == (CPU { registers: Registers { h: rlc8_spec(old(self).registers.h), f: rot_flags_spec(rlc8_spec(old(self).registers.h) == 0, old(self).registers.h / 128 == 1), ..old(self).registers }, ..*old(self) }),
            c == 8,
    {
        let r = self.alu_rlc(self.registers.h);
        self.registers.h = r;
        8
    }

    /// RLC L.
    pub fn rlc_l(&mut self) -> (c: usize)
        ensures
            *final(self) == (CPU { registers: Registers { l: rlc8_spec(old(self).registers.l), f: rot_flags_spec(rlc8_spec(old(self).registers.l) == 0, old(self).registers.l / 128 == 1), ..old(self).registers }, ..*old(self) }),
            c == 8,
    {
        let r = self.alu_rlc(self.registers.l);
        self.registers.l = r;
        8
    }

    /// RLC A.
    pub fn rlc_a(&mut self) -> (c: usize)
        ensures
            *final(self) == (CPU { registers: Registers { a: rlc8_spec(old(self).registers.a), f: rot_flags_spec(rlc8_spec(old(self).registers.a) == 0, old(self).registers.a / 128 == 1), ..old(self).registers }, ..*old(self) }),
            c == 8,
    {
        let r = self.alu_rlc(self.registers.a);
        self.registers.a = r;
        8
    }

    /// RLC (HL).
    pub fn rlc_hl(&mut self, memory: &mut AddressBus) -> (c: usize)
        requires
            old(memory).wf(),
        ensures
            final(memory).wf(),
            *final(self) == (CPU { registers: Registers { f: rot_flags_spec(rlc8_spec(bus_read_spec(old(memory)@, old(self).registers.hl_spec())) == 0, bus_read_spec(old(memory)@, old(self).registers.hl_spec()) / 128 == 1), ..old(self).registers }, ..*old(self) }),
            final(memory)@ == bus_write_spec(old(memory)@, old(self).registers.hl_spec(), rlc8_spec(bus_read_spec(old(memory)@, old(self).registers.hl_spec()))),
            c == 16,
    {
        let hl = self.registers.get_hl();
        let n = memory.read_byte(hl);
        let r = self.alu_rlc(n);
        memory.write_byte(hl, r);
        16
    }

    /// RRC B.
    pub fn rrc_b(&mut self) -> (c: usize)
        ensures
            *final(self) == (CPU { registers: Registers { b: rrc8_spec(old(self).registers.b), f: rot_flags_spec(rrc8_spec(old(self).registers.b) == 0, old(self).registers.b % 2 == 1), ..old(self).registers }, ..*old(self) }),
            c == 8,
    {
        let r = self.alu_rrc(self.registers.b);
        self.registers.b = r;
        8
    }

    /// RRC C.
    pub fn rrc_c(&mut self) -> (c: usize)
        ensures
            *final(self) == (CPU { registers: Registers { c: rrc8_spec(old(self).registers.c), f: rot_flags_spec(rrc8_spec(old(self).registers.c) == 0, old(self).registers.c % 2 == 1), ..old(self).registers }, ..*old(self) }),
            c == 8,
    {
        let r = self.alu_rrc(self.registers.c);
        self.registers.c = r;
        8
    }

    /// RRC D.
    pub fn rrc_d(&mut self) -> (c: usize)
        ensures
            *final(self) == (CPU { registers: Registers { d: rrc8_spec(old(self).registers.d), f: rot_flags_spec(rrc8_spec(old(self).registers.d) == 0, old(self).registers.d % 2 == 1), ..old(self).registers }, ..*old(self) }),
            c == 8,
    {
        let r = self.alu_rrc(self.registers.d);
        self.registers.d = r;
        8
    }

    /// RRC E.
    pub fn rrc_e(&mut self) -> (c: usize)
        ensures
            *final(self) == (CPU { registers: Registers { e: rrc8_spec(old(self).registers.e), f: rot_flags_spec(rrc8_spec(old(self).registers.e) == 0, old(self).registers.e % 2 == 1), ..old(self).registers }, ..*old(self) }),
            c == 8,
    {
        let r = self.alu_rrc(self.registers.e);
        self.registers.e = r;
        8
    }

    /// RRC H.
    pub fn rrc_h(&mut self) -> (c: usize)
        ensures
            *final(self) == (CPU { registers: Registers { h: rrc8_spec(old(self).registers.h), f: rot_flags_spec(rrc8_spec(old(self).registers.h) == 0, old(self).registers.h % 2 == 1), ..old(self).registers }, ..*old(self) }),
            c == 8,
    {
        let r = self.alu_rrc(self.registers.h);
        self.registers.h = r;
        8
    }

    /// RRC L.
    pub fn rrc_l(&mut self) -> (c: usize)
        ensures
            *final(self) == (CPU { registers: Registers { l: rrc8_spec(old(self).registers.l), f: rot_flags_spec(rrc8_spec(old(self).registers.l) == 0, old(self).registers.l % 2 == 1), ..old(self).registers }, ..*old(self) }),
            c == 8,
    {
        let r = self.alu_rrc(self.registers.l);
        self.registers.l = r;
        8
    }

    /// RRC A.
    pub fn rrc_a(&mut self) -> (c: usize)
        ensures
            *final(self) == (CPU { registers: Registers { a: rrc8_spec(old(self).registers.a), f: rot_flags_spec(rrc8_spec(old(self).registers.a) == 0, old(self).registers.a % 2 == 1), ..old(self).registers }, ..*old(self) }),
            c == 8,
    {
        let r = self.alu_rrc(self.registers.a);
        self.registers.a = r;
        8
    }

    /// RRC (HL).
    pub fn rrc_hl(&mut self, memory: &mut AddressBus) -> (c: usize)
        requires
            old(memory).wf(),
        ensures
            final(memory).wf(),
            *final(self) == (CPU { registers: Registers { f: rot_flags_spec(rrc8_spec(bus_read_spec(old(memory)@, old(self).registers.hl_spec())) == 0, bus_read_spec(old(memory)@, old(self).registers.hl_spec()) % 2 == 1), ..old(self).registers }, ..*old(self) }),
            final(memory)@ == bus_write_spec(old(memory)@, old(self).registers.hl_spec(), rrc8_spec(bus_read_spec(old(memory)@, old(self).registers.hl_spec()))),
            c == 16,
    {
        let hl = self.registers.get_hl();
        let n = memory.read_byte(hl);
        let r = self.alu_rrc(n);
        memory.write_byte(hl, r);
        16
    }

    /// RL B.
    pub fn rl_b(&mut self) -> (c: usize)
        ensures
            *final(self) == (CPU { registers: Registers { b: rl8_spec(old(self).registers.b, old(self).registers.f.carry), f: rot_flags_spec(rl8_spec(old(self).registers.b, old(self).registers.f.carry) == 0, old(self).registers.b / 128 == 1), ..old(self).registers }, ..*old(self) }),
            c == 8,
    {
        let r = self.alu_rl(self.registers.b);
        self.registers.b = r;
        8
    }

    /// RL C.
    pub fn rl_c(&mut self) -> (c: usize)
        ensures
            *final(self) == (CPU { registers: Registers { c: rl8_spec(old(self).registers.c, old(self).registers.f.carry), f: rot_flags_spec(rl8_spec(old(self).registers.c, old(self).registers.f.carry) == 0, old(self).registers.c / 128 == 1), ..old(self).registers }, ..*old(self) }),
            c == 8,
    {
        let r = self.alu_rl(self.registers.c);
        self.registers.c = r;
        8
    }

    /// RL D.
    pub fn rl_d(&mut self) -> (c: usize)
        ensures
            *final(self) == (CPU { registers: Registers { d: rl8_spec(old(self).registers.d, old(self).registers.f.carry), f: rot_flags_spec(rl8_spec(old(self).registers.d, old(self).registers.f.carry) == 0, old(self).registers.d / 128 == 1), ..old(self).registers }, ..*old(self) }),
            c == 8,
    {
        let r = self.alu_rl(self.registers.d);
        self.registers.d = r;
        8
    }

    /// RL E.
    pub fn rl_e(&mut self) -> (c: usize)
        ensures
            *final(self) == (CPU { registers: Registers { e: rl8_spec(old(self).registers.e, old(self).registers.f.carry), f: rot_flags_spec(rl8_spec(old(self).registers.e, old(self).registers.f.carry) == 0, old(self).registers.e / 128 == 1), ..old(self).registers }, ..*old(self) }),
            c == 8,
    {
        let r = self.alu_rl(self.registers.e);
        self.registers.e = r;
        8
    }

    /// RL H.
    pub fn rl_h(&mut self) -> (c: usize)
        ensures
            *final(self) == (CPU { registers: Registers { h: rl8_spec(old(self).registers.h, old(self).registers.f.carry), f: rot_flags_spec(rl8_spec(old(self).registers.h, old(self).registers.f.carry) == 0, old(self).registers.h / 128 == 1), ..old(self).registers }, ..*old(self) }),
            c == 8,
    {
        let r = self.alu_rl(self.registers.h);
        self.registers.h = r;
        8
    }

    /// RL L.
    pub fn rl_l(&mut self) -> (c: usize)
        ensures
            *final(self) == (CPU { registers: Registers { l: rl8_spec(old(self).registers.l, old(self).registers.f.carry), f: rot_flags_spec(rl8_spec(old(self).registers.l, old(self).registers.f.carry) == 0, old(self).registers.l / 128 == 1), ..old(self).registers }, ..*old(self) }),
            c == 8,
    {
        let r = self.alu_rl(self.registers.l);
        self.registers.l = r;
        8
    }

    /// RL A.
    pub fn rl_a(&mut self) -> (c: usize)
        ensures
            *final(self) == (CPU { registers: Registers { a: rl8_spec(old(self).registers.a, old(self).registers.f.carry), f: rot_flags_spec(rl8_spec(old(self).registers.a, old(self).registers.f.carry) == 0, old(self).registers.a / 128 == 1), ..old(self).registers }, ..*old(self) }),
            c == 8,
    {
        let r = self.alu_rl(self.registers.a);
        self.registers.a = r;
        8
    }

    /// RL (HL).
    pub fn rl_hl(&mut self, memory: &mut AddressBus) -> (c: usize)
        requires
            old(memory).wf(),
        ensures
            final(memory).wf(),
            *final(self) == (CPU { registers: Registers { f: rot_flags_spec(rl8_spec(bus_read_spec(old(memory)@, old(self).registers.hl_spec()), old(self).registers.f.carry) == 0, bus_read_spec(old(memory)@, old(self).registers.hl_spec()) / 128 == 1), ..old(self).registers }, ..*old(self) }),
            final(memory)@ == bus_write_spec(old(memory)@, old(self).registers.hl_spec(), rl8_spec(bus_read_spec(old(memory)@, old(self).registers.hl_spec()), old(self).registers.f.carry)),
            c == 16,
    {
        let hl = self.registers.get_hl();
        let n = memory.read_byte(hl);
        let r = self.alu_rl(n);
        memory.write_byte(hl, r);
        16
    }

    /// RR B.
    pub fn rr_b(&mut self) -> (c: usize)
        ensures
            *final(self) == (CPU { registers: Registers { b: rr8_spec(old(self).registers.b, old(self).registers.f.carry), f: rot_flags_spec(rr8_spec(old(self).registers.b, old(self).registers.f.carry) == 0, old(self).registers.b % 2 == 1), ..old(self).registers }, ..*old(self) }),
            c == 8,
    {
        let r = self.alu_rr(self.registers.b);
        self.registers.b = r;
        8
    }

    /// RR C.
    pub fn rr_c(&mut self) -> (c: usize)
        ensures
            *final(self) == (CPU { registers: Registers { c: rr8_spec(old(self).registers.c, old(self).registers.f.carry), f: rot_flags_spec(rr8_spec(old(self).registers.c, old(self).registers.f.carry) == 0, old(self).registers.c % 2 == 1), ..old(self).registers }, ..*old(self) }),
            c == 8,
    {
        let r = self.alu_rr(self.registers.c);
        self.registers.c = r;
        8
    }

    /// RR D.
    pub fn rr_d(&mut self) -> (c: usize)
        ensures
            *final(self) == (CPU { registers: Registers { d: rr8_spec(old(self).registers.d, old(self).registers.f.carry), f: rot_flags_spec(rr8_spec(old(self).registers.d, old(self).registers.f.carry) == 0, old(self).registers.d % 2 == 1), ..old(self).registers }, ..*old(self) }),
            c == 8,
    {
        let r = self.alu_rr(self.registers.d);
        self.registers.d = r;
        8
    }

    /// RR E.
    pub fn rr_e(&mut self) -> (c: usize)
        ensures
            *final(self) == (CPU { registers: Registers { e: rr8_spec(old(self).registers.e, old(self).registers.f.carry), f: rot_flags_spec(rr8_spec(old(self).registers.e, old(self).registers.f.carry) == 0, old(self).registers.e % 2 == 1), ..old(self).registers }, ..*old(self) }),
            c == 8,
    {
        let r = self.alu_rr(self.registers.e);
        self.registers.e = r;
        8
    }

    /// RR H.
    pub fn rr_h(&mut self) -> (c: usize)
        ensures
            *final(self) == (CPU { registers: Registers { h: rr8_spec(old(self).registers.h, old(self).registers.f.carry), f: rot_flags_spec(rr8_spec(old(self).registers.h, old(self).registers.f.carry) == 0, old(self).registers.h % 2 == 1), ..old(self).registers }, ..*old(self) }),
            c == 8,
    {
        let r = self.alu_rr(self.registers.h);
        self.registers.h = r;
        8
    }

    /// RR L.
    pub fn rr_l(&mut self) -> (c: usize)
        ensures
            *final(self) == (CPU { registers: Registers { l: rr8_spec(old(self).registers.l, old(self).registers.f.carry), f: rot_flags_spec(rr8_spec(old(self).registers.l, old(self).registers.f.carry) == 0, old(self).registers.l % 2 == 1), ..old(self).registers }, ..*old(self) }),
            c == 8,
    {
        let r = self.alu_rr(self.registers.l);
        self.registers.l = r;
        8
    }

    /// RR A.
    pub fn rr_a(&mut self) -> (c: usize)
        ensures
            *final(self) == (CPU { registers: Registers { a: rr8_spec(old(self).registers.a, old(self).registers.f.carry), f: rot_flags_spec(rr8_spec(old(self).registers.a, old(self).registers.f.carry) == 0, old(self).registers.a % 2 == 1), ..old(self).registers }, ..*old(self) }),
            c == 8,
    {
        let r = self.alu_rr(self.registers.a);
        self.registers.a = r;
        8
    }

    /// RR (HL).
    pub fn rr_hl(&mut self, memory: &mut AddressBus) -> (c: usize)
        requires
            old(memory).wf(),
        ensures
            final(memory).wf(),
            *final(self) == (CPU { registers: Registers { f: rot_flags_spec(rr8_spec(bus_read_spec(old(memory)@, old(self).registers.hl_spec()), old(self).registers.f.carry) == 0, bus_read_spec(old(memory)@, old(self).registers.hl_spec()) % 2 == 1), ..old(self).registers }, ..*old(self) }),
            final(memory)@ == bus_write_spec(old(memory)@, old(self).registers.hl_spec(), rr8_spec(bus_read_spec(old(memory)@, old(self).registers.hl_spec()), old(self).registers.f.carry)),
            c == 16,
    {
        let hl = self.registers.get_hl();
        let n = memory.read_byte(hl);
        let r = self.alu_rr(n);
        memory.write_byte(hl, r);
        16
    }

    /// SLA B.
    pub fn sla_b(&mut self) -> (c: usize)
        ensures
            *final(self) == (CPU { registers: Registers { b: sla8_spec(old(self).registers.b), f: rot_flags_spec(sla8_spec(old(self).registers.b) == 0, old(self).registers.b / 128 == 1), ..old(self).registers }, ..*old(self) }),
            c == 8,
    {
        let r = self.alu_sla(self.registers.b);
        self.registers.b = r;
        8
    }

    /// SLA C.
    pub fn sla_c(&mut self) -> (c: usize)
        ensures
            *final(self) == (CPU { registers: Registers { c: sla8_spec(old(self).registers.c), f: rot_flags_spec(sla8_spec(old(self).registers.c) == 0, old(self).registers.c / 128 == 1), ..old(self).registers }, ..*old(self) }),
            c == 8,
    {
        let r = self.alu_sla(self.registers.c);
        self.registers.c = r;
        8
    }

    /// SLA D.
    pub fn sla_d(&mut self) -> (c: usize)
        ensures
            *final(self) == (CPU { registers: Registers { d: sla8_spec(old(self).registers.d), f: rot_flags_spec(sla8_spec(old(self).registers.d) == 0, old(self).registers.d / 128 == 1), ..old(self).registers }, ..*old(self) }),
            c == 8,
    {
        let r = self.alu_sla(self.registers.d);
        self.registers.d = r;
        8
    }

    /// SLA E.
    pub fn sla_e(&mut self) -> (c: usize)
        ensures
            *final(self) == (CPU { registers: Registers { e: sla8_spec(old(self).registers.e), f: rot_flags_spec(sla8_spec(old(self).registers.e) == 0, old(self).registers.e / 128 == 1), ..old(self).registers }, ..*old(self) }),
            c == 8,
    {
        let r = self.alu_sla(self.registers.e);
        self.registers.e = r;
        8
    }

    /// SLA H.
    pub fn sla_h(&mut self) -> (c: usize)
        ensures
            *final(self) == (CPU { registers: Registers { h: sla8_spec(old(self).registers.h), f: rot_flags_spec(sla8_spec(old(self).registers.h) == 0, old(self).registers.h / 128 == 1), ..old(self).registers }, ..*old(self) }),
            c == 8,
    {
        let r = self.alu_sla(self.registers.h);
        self.registers.h = r;
        8
    }

    /// SLA L.
    pub fn sla_l(&mut self) -> (c: usize)
        ensures
            *final(self) == (CPU { registers: Registers { l: sla8_spec(old(self).registers.l), f: rot_flags_spec(sla8_spec(old(self).registers.l) == 0, old(self).registers.l / 128 == 1), ..old(self).registers }, ..*old(self) }),
            c == 8,
    {
        let r = self.alu_sla(self.registers.l);
        self.registers.l = r;
        8
    }

    /// SLA A.
    pub fn sla_a(&mut self) -> (c: usize)
        ensures
            *final(self) == (CPU { registers: Registers { a: sla8_spec(old(self).registers.a), f: rot_flags_spec(sla8_spec(old(self).registers.a) == 0, old(self).registers.a / 128 == 1), ..old(self).registers }, ..*old(self) }),
            c == 8,
    {
        let r = self.alu_sla(self.registers.a);
        self.registers.a = r;
        8
    }

    /// SLA (HL).
    pub fn sla_hl(&mut self, memory: &mut AddressBus) -> (c: usize)
        requires
            old(memory).wf(),
        ensures
            final(memory).wf(),
            *final(self) == (CPU { registers: Registers { f: rot_flags_spec(sla8_spec(bus_read_spec(old(memory)@, old(self).registers.hl_spec())) == 0, bus_read_spec(old(memory)@, old(self).registers.hl_spec()) / 128 == 1), ..old(self).registers }, ..*old(self) }),
            final(memory)@ == bus_write_spec(old(memory)@, old(self).registers.hl_spec(), sla8_spec(bus_read_spec(old(memory)@, old(self).registers.hl_spec()))),
            c == 16,
    {
        let hl = self.registers.get_hl();
        let n = memory.read_byte(hl);
        let r = self.alu_sla(n);
        memory.write_byte(hl, r);
        16
    }

    /// SRA B.
    pub fn sra_b(&mut self) -> (c: usize)
        ensures
            *final(self) == (CPU { registers: Registers { b: sra8_spec(old(self).registers.b), f: rot_flags_spec(sra8_spec(old(self).registers.b) == 0, old(self).registers.b % 2 == 1), ..old(self).registers }, ..*old(self) }),
            c == 8,
    {
        let r = self.alu_sra(self.registers.b);
        self.registers.b = r;
        8
    }

    /// SRA C.
    pub fn sra_c(&mut self) -> (c: usize)
        ensures
            *final(self) == (CPU { registers: Registers { c: sra8_spec(old(self).registers.c), f: rot_flags_spec(sra8_spec(old(self).registers.c) == 0, old(self).registers.c % 2 == 1), ..old(self).registers }, ..*old(self) }),
            c == 8,
    {
        let r = self.alu_sra(self.registers.c);
        self.registers.c = r;
        8
    }

    /// SRA D.
    pub fn sra_d(&mut self) -> (c: usize)
        ensures
            *final(self) == (CPU { registers: Registers { d: sra8_spec(old(self).registers.d), f: rot_flags_spec(sra8_spec(old(self).registers.d) == 0, old(self).registers.d % 2 == 1), ..old(self).registers }, ..*old(self) }),
            c == 8,
    {
        let r = self.alu_sra(self.registers.d);
        self.registers.d = r;
        8
    }

    /// SRA E.
    pub fn sra_e(&mut self) -> (c: usize)
        ensures
            *final(self) == (CPU { registers: Registers { e: sra8_spec(old(self).registers.e), f: rot_flags_spec(sra8_spec(old(self).registers.e) == 0, old(self).registers.e % 2 == 1), ..old(self).registers }, ..*old(self) }),
            c == 8,
    {
        let r = self.alu_sra(self.registers.e);
        self.registers.e = r;
        8
    }

    /// SRA H.
    pub fn sra_h(&mut self) -> (c: usize)
        ensures
            *final(self) == (CPU { registers: Registers { h: sra8_spec(old(self).registers.h), f: rot_flags_spec(sra8_spec(old(self).registers.h) == 0, old(self).registers.h % 2 == 1), ..old(self).registers }, ..*old(self) }),
            c == 8,
    {
        let r = self.alu_sra(self.registers.h);
        self.registers.h = r;
        8
    }

    /// SRA L.
    pub fn sra_l(&mut self) -> (c: usize)
        ensures
            *final(self) == (CPU { registers: Registers { l: sra8_spec(old(self).registers.l), f: rot_flags_spec(sra8_spec(old(self).registers.l) == 0, old(self).registers.l % 2 == 1), ..old(self).registers }, ..*old(self) }),
            c == 8,
    {
        let r = self.alu_sra(self.registers.l);
        self.registers.l = r;
        8
    }

    /// SRA A.
    pub fn sra_a(&mut self) -> (c: usize)
        ensures
            *final(self) == (CPU { registers: Registers { a: sra8_spec(old(self).registers.a), f: rot_flags_spec(sra8_spec(old(self).registers.a) == 0, old(self).registers.a % 2 == 1), ..old(self).registers }, ..*old(self) }),
            c == 8,
    {
        let r = self.alu_sra(self.registers.a);
        self.registers.a = r;
        8
    }

    /// SRA (HL).
    pub fn sra_hl(&mut self, memory: &mut AddressBus) -> (c: usize)
        requires
            old(memory).wf(),
        ensures
            final(memory).wf(),
            *final(self) == (CPU { registers: Registers { f: rot_flags_spec(sra8_spec(bus_read_spec(old(memory)@, old(self).registers.hl_spec())) == 0, bus_read_spec(old(memory)@, old(self).registers.hl_spec()) % 2 == 1), ..old(self).registers }, ..*old(self) }),
            final(memory)@ == bus_write_spec(old(memory)@, old(self).registers.hl_spec(), sra8_spec(bus_read_spec(old(memory)@, old(self).registers.hl_spec()))),
            c == 16,
    {
        let hl = self.registers.get_hl();
        let n = memory.read_byte(hl);
        let r = self.alu_sra(n);
        memory.write_byte(hl, r);
        16
    }

    /// SWAP B.
    pub fn swap_b(&mut self) -> (c: usize)
        ensures
            *final(self) == (CPU { registers: Registers { b: swap8_spec(old(self).registers.b), f: rot_flags_spec(swap8_spec(old(self).registers.b) == 0, false), ..old(self).registers }, ..*old(self) }),
            c == 8,
    {
        let r = self.alu_swap(self.registers.b);
        self.registers.b = r;
        8
    }

    /// SWAP C.
    pub fn swap_c(&mut self) -> (c: usize)
        ensures
            *final(self) == (CPU { registers: Registers { c: swap8_spec(old(self).registers.c), f: rot_flags_spec(swap8_spec(old(self).registers.c) == 0, false), ..old(self).registers }, ..*old(self) }),
            c == 8,
    {
        let r = self.alu_swap(self.registers.c);
        self.registers.c = r;
        8
    }

    /// SWAP D.
    pub fn swap_d(&mut self) -> (c: usize)
        ensures
            *final(self) == (CPU { registers: Registers { d: swap8_spec(old(self).registers.d), f: rot_flags_spec(swap8_spec(old(self).registers.d) == 0, false), ..old(self).registers }, ..*old(self) }),
            c == 8,
    {
        let r = self.alu_swap(self.registers.d);
        self.registers.d = r;
        8
    }

    /// SWAP E.
    pub fn swap_e(&mut self) -> (c: usize)
        ensures
            *final(self) == (CPU { registers: Registers { e: swap8_spec(old(self).registers.e), f: rot_flags_spec(swap8_spec(old(self).registers.e) == 0, false), ..old(self).registers }, ..*old(self) }),
            c == 8,
    {
        let r = self.alu_swap(self.registers.e);
        self.registers.e = r;
        8
    }

    /// SWAP H.
    pub fn swap_h(&mut self) -> (c: usize)
        ensures
            *final(self) == (CPU { registers: Registers { h: swap8_spec(old(self).registers.h), f: rot_flags_spec(swap8_spec(old(self).registers.h) == 0, false), ..old(self).registers }, ..*old(self) }),
            c == 8,
    {
        let r = self.alu_swap(self.registers.h);
        self.registers.h = r;
        8
    }

    /// SWAP L.
    pub fn swap_l(&mut self) -> (c: usize)
        ensures
            *final(self) == (CPU { registers: Registers { l: swap8_spec(old(self).registers.l), f: rot_flags_spec(swap8_spec(old(self).registers.l) == 0, false), ..old(self).registers }, ..*old(self) }),
            c == 8,
    {
        let r = self.alu_swap(self.registers.l);
        self.registers.l = r;
        8
    }

    /// SWAP A.
    pub fn swap_a(&mut self) -> (c: usize)
        ensures
            *final(self) == (CPU { registers: Registers { a: swap8_spec(old(self).registers.a), f: rot_flags_spec(swap8_spec(old(self).registers.a) == 0, false), ..old(self).registers }, ..*old(self) }),
            c == 8,
    {
        let r = self.alu_swap(self.registers.a);
        self.registers.a = r;
        8
    }

    /// SWAP (HL).
    pub fn swap_hl(&mut self, memory: &mut AddressBus) -> (c: usize)
        requires
            old(memory).wf(),
        ensures
            final(memory).wf(),
            *final(self) == (CPU { registers: Registers { f: rot_flags_spec(swap8_spec(bus_read_spec(old(memory)@, old(self).registers.hl_spec())) == 0, false), ..old(self).registers }, ..*old(self) }),
            final(memory)@ == bus_write_spec(old(memory)@, old(self).registers.hl_spec(), swap8_spec(bus_read_spec(old(memory)@, old(self).registers.hl_spec()))),
            c == 16,
    {
        let hl = self.registers.get_hl();
        let n = memory.read_byte(hl);
        let r = self.alu_swap(n);
        memory.write_byte(hl, r);
        16
    }

    /// SRL B.
    pub fn srl_b(&mut self) -> (c: usize)
        ensures
            *final(self) == (CPU { registers: Registers { b: srl8_spec(old(self).registers.b), f: rot_flags_spec(srl8_spec(old(self).registers.b) == 0, old(self).registers.b % 2 == 1), ..old(self).registers }, ..*old(self) }),
            c == 8,
    {
        let r = self.alu_srl(self.registers.b);
        self.registers.b = r;
        8
    }

    /// SRL C.
    pub fn srl_c(&mut self) -> (c: usize)
        ensures
            *final(self) == (CPU { registers: Registers { c: srl8_spec(old(self).registers.c), f: rot_flags_spec(srl8_spec(old(self).registers.c) == 0, old(self).registers.c % 2 == 1), ..old(self).registers }, ..*old(self) }),
            c == 8,
    {
        let r = self.alu_srl(self.registers.c);
        self.registers.c = r;
        8
    }

    /// SRL D.
    pub fn srl_d(&mut self) -> (c: usize)
        ensures
            *final(self) == (CPU { registers: Registers { d: srl8_spec(old(self).registers.d), f: rot_flags_spec(srl8_spec(old(self).registers.d) == 0, old(self).registers.d % 2 == 1), ..old(self).registers }, ..*old(self) }),
            c == 8,
    {
        let r = self.alu_srl(self.registers.d);
        self.registers.d = r;
        8
    }

    /// SRL E.
    pub fn srl_e(&mut self) -> (c: usize)
        ensures
            *final(self) == (CPU { registers: Registers { e: srl8_spec(old(self).registers.e), f: rot_flags_spec(srl8_spec(old(self).registers.e) == 0, old(self).registers.e % 2 == 1), ..old(self).registers }, ..*old(self) }),
            c == 8,
    {
        let r = self.alu_srl(self.registers.e);
        self.registers.e = r;
        8
    }

    /// SRL H.
    pub fn srl_h(&mut self) -> (c: usize)
        ensures
            *final(self) == (CPU { registers: Registers { h: srl8_spec(old(self).registers.h), f: rot_flags_spec(srl8_spec(old(self).registers.h) == 0, old(self).registers.h % 2 == 1), ..old(self).registers }, ..*old(self) }),
            c == 8,
    {
        let r = self.alu_srl(self.registers.h);
        self.registers.h = r;
        8
    }

    /// SRL L.
    pub fn srl_l(&mut self) -> (c: usize)
        ensures
            *final(self) == (CPU { registers: Registers { l: srl8_spec(old(self).registers.l), f: rot_flags_spec(srl8_spec(old(self).registers.l) == 0, old(self).registers.l % 2 == 1), ..old(self).registers }, ..*old(self) }),
            c == 8,
    {
        let r = self.alu_srl(self.registers.l);
        self.registers.l = r;
        8
    }

    /// SRL A.
    pub fn srl_a(&mut self) -> (c: usize)
        ensures
            *final(self) == (CPU { registers: Registers { a: srl8_spec(old(self).registers.a), f: rot_flags_spec(srl8_spec(old(self).registers.a) == 0, old(self).registers.a % 2 == 1), ..old(self).registers }, ..*old(self) }),
            c == 8,
    {
        let r = self.alu_srl(self.registers.a);
        self.registers.a = r;
        8
    }

    /// SRL (HL).
    pub fn srl_hl(&mut self, memory: &mut AddressBus) -> (c: usize)
        requires
            old(memory).wf(),
        ensures
            final(memory).wf(),
            *final(self) == (CPU { registers: Registers { f: rot_flags_spec(srl8_spec(bus_read_spec(old(memory)@, old(self).registers.hl_spec())) == 0, bus_read_spec(old(memory)@, old(self).registers.hl_spec()) % 2 == 1), ..old(self).registers }, ..*old(self) }),
            final(memory)@ == bus_write_spec(old(memory)@, old(self).registers.hl_spec(), srl8_spec(bus_read_spec(old(memory)@, old(self).registers.hl_spec()))),
            c == 16,
    {
        let hl = self.registers.get_hl();
        let n = memory.read_byte(hl);
        let r = self.alu_srl(n);
        memory.write_byte(hl, r);
        16
    }

    /// BIT 0,B: C is untouched.
    pub fn bit_0_b(&mut self) -> (c: usize)
        ensures
            *final(self) == (CPU { registers: Registers { f: (Flag { zero: old(self).registers.b & 0x01 == 0, subtract: false, half_carry: true, carry: old(self).registers.f.carry }), ..old(self).registers }, ..*old(self) }),
            c == 8,
    {
        self.alu_bit(0x01, self.registers.b);
        8
    }

    /// RES 0,B: no flag effect.
    pub fn res_0_b(&mut self) -> (c: usize)
        ensures
            *final(self) == (CPU { registers: Registers { b: old(self).registers.b & 0xFE, ..old(self).registers }, ..*old(self) }),
            c == 8,
    {
        self.registers.b = self.registers.b & 0xFE;
        8
    }

    /// SET 0,B: no flag effect.
    pub fn set_0_b(&mut self) -> (c: usize)
        ensures
            *final(self) == (CPU { registers: Registers { b: old(self).registers.b | 0x01, ..old(self).registers }, ..*old(self) }),
            c == 8,
    {
        self.registers.b = self.registers.b | 0x01;
        8
    }

    /// BIT 0,C: C is untouched.
    pub fn bit_0_c(&mut self) -> (c: usize)
        ensures
            *final(self) == (CPU { registers: Registers { f: (Flag { zero: old(self).registers.c & 0x01 == 0, subtract: false, half_carry: true, carry: old(self).registers.f.carry }), ..old(self).registers }, ..*old(self) }),
            c == 8,
    {
        self.alu_bit(0x01, self.registers.c);
        8
    }

    /// RES 0,C: no flag effect.
    pub fn res_0_c(&mut self) -> (c: usize)
        ensures
            *final(self) == (CPU { registers: Registers { c: old(self).registers.c & 0xFE, ..old(self).registers }, ..*old(self) }),
            c == 8,
    {
        self.registers.c = self.registers.c & 0xFE;
        8
    }

    /// SET 0,C: no flag effect.
    pub fn set_0_c(&mut self) -> (c: usize)
        ensures
            *final(self) == (CPU { registers: Registers { c: old(self).registers.c | 0x01, ..old(self).registers }, ..*old(self) }),
            c == 8,
    {
        self.registers.c = self.registers.c | 0x01;
        8
    }

    /// BIT 0,D: C is untouched.
    pub fn bit_0_d(&mut self) -> (c: usize)
        ensures
            *final(self) == (CPU { registers: Registers { f: (Flag { zero: old(self).registers.d & 0x01 == 0, subtract: false, half_carry: true, carry: old(self).registers.f.carry }), ..old(self).registers }, ..*old(self) }),
            c == 8,
    {
        self.alu_bit(0x01, self.registers.d);
        8
    }

    /// RES 0,D: no flag effect.
    pub fn res_0_d(&mut self) -> (c: usize)
        ensures
            *final(self) == (CPU { registers: Registers { d: old(self).registers.d & 0xFE, ..old(self).registers }, ..*old(self) }),
            c == 8,
    {
        self.registers.d = self.registers.d & 0xFE;
        8
    }

    /// SET 0,D: no flag effect.
    pub fn set_0_d(&mut self) -> (c: usize)
        ensures
            *final(self) == (CPU { registers: Registers { d: old(self).registers.d | 0x01, ..old(self).registers }, ..*old(self) }),
            c == 8,
    {
        self.registers.d = self.registers.d | 0x01;
        8
    }

    /// BIT 0,E: C is untouched.
    pub fn bit_0_e(&mut self) -> (c: usize)
        ensures
            *final(self) == (CPU { registers: Registers { f: (Flag { zero: old(self).registers.e & 0x01 == 0, subtract: false, half_carry: true, carry: old(self).registers.f.carry }), ..old(self).registers }, ..*old(self) }),
            c == 8,
    {
        self.alu_bit(0x01, self.registers.e);
        8
    }

    /// RES 0,E: no flag effect.
    pub fn res_0_e(&mut self) -> (c: usize)
        ensures
            *final(self) == (CPU { registers: Registers { e: old(self).registers.e & 0xFE, ..old(self).registers }, ..*old(self) }),
            c == 8,
    {
        self.registers.e = self.registers.e & 0xFE;
        8
    }

    /// SET 0,E: no flag effect.
    pub fn set_0_e(&mut self) -> (c: usize)
        ensures
            *final(self) == (CPU { registers: Registers { e: old(self).registers.e | 0x01, ..old(self).registers }, ..*old(self) }),
            c == 8,
    {
        self.registers.e = self.registers.e | 0x01;
        8
    }

    /// BIT 0,H: C is untouched.
    pub fn bit_0_h(&mut self) -> (c: usize)
        ensures
            *final(self) == (CPU { registers: Registers { f: (Flag { zero: old(self).registers.h & 0x01 == 0, subtract: false, half_carry: true, carry: old(self).registers.f.carry }), ..old(self).registers }, ..*old(self) }),
            c == 8,
    {
        self.alu_bit(0x01, self.registers.h);
        8
    }

    /// RES 0,H: no flag effect.
    pub fn res_0_h(&mut self) -> (c: usize)
        ensures
            *final(self) == (CPU { registers: Registers { h: old(self).registers.h & 0xFE, ..old(self).registers }, ..*old(self) }),
            c == 8,
    {
        self.registers.h = self.registers.h & 0xFE;
        8
    }

    /// SET 0,H: no flag effect.
    pub fn set_0_h(&mut self) -> (c: usize)
        ensures
            *final(self) == (CPU { registers: Registers { h: old(self).registers.h | 0x01, ..old(self).registers }, ..*old(self) }),
            c == 8,
    {
        self.registers.h = self.registers.h | 0x01;
        8
    }

    /// BIT 0,L: C is untouched.
    pub fn bit_0_l(&mut self) -> (c: usize)
        ensures
            *final(self) == (CPU { registers: Registers { f: (Flag { zero: old(self).registers.l & 0x01 == 0, subtract: false, half_carry: true, carry: old(self).registers.f.carry }), ..old(self).registers }, ..*old(self) }),
            c == 8,
    {
        self.alu_bit(0x01, self.registers.l);
        8
    }

    /// RES 0,L: no flag effect.
    pub fn res_0_l(&mut self) -> (c: usize)
        ensures
            *final(self) == (CPU { registers: Registers { l: old(self).registers.l & 0xFE, ..old(self).registers }, ..*old(self) }),
            c == 8,
    {
        self.registers.l = self.registers.l & 0xFE;
        8
    }

    /// SET 0,L: no flag effect.
    pub fn set_0_l(&mut self) -> (c: usize)
        ensures
            *final(self) == (CPU { registers: Registers { l: old(self).registers.l | 0x01, ..old(self).registers }, ..*old(self) }),
            c == 8,
    {
        self.registers.l = self.registers.l | 0x01;
        8
    }

    /// BIT 0,A: C is untouched.
    pub fn bit_0_a(&mut self) -> (c: usize)
        ensures
            *final(self) == (CPU { registers: Registers { f: (Flag { zero: old(self).registers.a & 0x01 == 0, subtract: false, half_carry: true, carry: old(self).registers.f.carry }), ..old(self).registers }, ..*old(self) }),
            c == 8,
    {
        self.alu_bit(0x01, self.registers.a);
        8
    }

    /// RES 0,A: no flag effect.
    pub fn res_0_a(&mut self) -> (c: usize)
        ensures
            *final(self) == (CPU { registers: Registers { a: old(self).registers.a & 0xFE, ..old(self).registers }, ..*old(self) }),
            c == 8,
    {
        self.registers.a = self.registers.a & 0xFE;
        8
    }

    /// SET 0,A: no flag effect.
    pub fn set_0_a(&mut self) -> (c: usize)
        ensures
            *final(self) == (CPU { registers: Registers { a: old(self).registers.a | 0x01, ..old(self).registers }, ..*old(self) }),
            c == 8,
    {
        self.registers.a = self.registers.a | 0x01;
        8
    }

    /// BIT 0,(HL): C is untouched.
    pub fn bit_0_hl(&mut self, memory: &AddressBus) -> (c: usize)
        requires
            memory.wf(),
        ensures
            *final(self) == (CPU { registers: Registers { f: (Flag { zero: bus_read_spec(memory@, old(self).registers.hl_spec()) & 0x01 == 0, subtract: false, half_carry: true, carry: old(self).registers.f.carry }), ..old(self).registers }, ..*old(self) }),
            c == 12,
    {
        let hl = self.registers.get_hl();
        let n = memory.read_byte(hl);
        self.alu_bit(0x01, n);
        12
    }

    /// RES 0,(HL): no flag effect.
    pub fn res_0_hl(&mut self, memory: &mut AddressBus) -> (c: usize)
        requires
            old(memory).wf(),
        ensures
            final(memory).wf(),
            *final(self) == (CPU { ..*old(self) }),
            final(memory)@ == bus_write_spec(old(memory)@, old(self).registers.hl_spec(), bus_read_spec(old(memory)@, old(self).registers.hl_spec()) & 0xFE),
            c == 16,
    {
        let hl = self.registers.get_hl();
        let n = memory.read_byte(hl);
        memory.write_byte(hl, n & 0xFE);
        16
    }

    /// SET 0,(HL): no flag effect.
    pub fn set_0_hl(&mut self, memory: &mut AddressBus) -> (c: usize)
        requires
            old(memory).wf(),
        ensures
            final(memory).wf(),
            *final(self) == (CPU { ..*old(self) }),
            final(memory)@ == bus_write_spec(old(memory)@, old(self).registers.hl_spec(), bus_read_spec(old(memory)@, old(self).registers.hl_spec()) | 0x01),
            c == 16,
    {
        let hl = self.registers.get_hl();
        let n = memory.read_byte(hl);
        memory.write_byte(hl, n | 0x01);
        16
    }

    /// BIT 1,B: C is untouched.
    pub fn bit_1_b(&mut self) -> (c: usize)
        ensures
            *final(self) == (CPU { registers: Registers { f: (Flag { zero: old(self).registers.b & 0x02 == 0, subtract: false, half_carry: true, carry: old(self).registers.f.carry }), ..old(self).registers }, ..*old(self) }),
            c == 8,
    {
        self.alu_bit(0x02, self.registers.b);
        8
    }

    /// RES 1,B: no flag effect.
    pub fn res_1_b(&mut self) -> (c: usize)
        ensures
            *final(self) == (CPU { registers: Registers { b: old(self).registers.b & 0xFD, ..old(self).registers }, ..*old(self) }),
            c == 8,
    {
        self.registers.b = self.registers.b & 0xFD;
        8
    }

    /// SET 1,B: no flag effect.
    pub fn set_1_b(&mut self) -> (c: usize)
        ensures
            *final(self) == (CPU { registers: Registers { b: old(self).registers.b | 0x02, ..old(self).registers }, ..*old(self) }),
            c == 8,
    {
        self.registers.b = self.registers.b | 0x02;
        8
    }

    /// BIT 1,C: C is untouched.
    pub fn bit_1_c(&mut self) -> (c: usize)
        ensures
            *final(self) == (CPU { registers: Registers { f: (Flag { zero: old(self).registers.c & 0x02 == 0, subtract: false, half_carry: true, carry: old(self).registers.f.carry }), ..old(self).registers }, ..*old(self) }),
            c == 8,
    {
        self.alu_bit(0x02, self.registers.c);
        8
    }

    /// RES 1,C: no flag effect.
    pub fn res_1_c(&mut self) -> (c: usize)
        ensures
            *final(self) == (CPU { registers: Registers { c: old(self).registers.c & 0xFD, ..old(self).registers }, ..*old(self) }),
            c == 8,
    {
        self.registers.c = self.registers.c & 0xFD;
        8
    }

    /// SET 1,C: no flag effect.
    pub fn set_1_c(&mut self) -> (c: usize)
        ensures
            *final(self) == (CPU { registers: Registers { c: old(self).registers.c | 0x02, ..old(self).registers }, ..*old(self) }),
            c == 8,
    {
        self.registers.c = self.registers.c | 0x02;
        8
    }

    /// BIT 1,D: C is untouched.
    pub fn bit_1_d(&mut self) -> (c: usize)
        ensures
            *final(self) == (CPU { registers: Registers { f: (Flag { zero: old(self).registers.d & 0x02 == 0, subtract: false, half_carry: true, carry: old(self).registers.f.carry }), ..old(self).registers }, ..*old(self) }),
            c == 8,
    {
        self.alu_bit(0x02, self.registers.d);
        8
    }

    /// RES 1,D: no flag effect.
    pub fn res_1_d(&mut self) -> (c: usize)
        ensures
            *final(self) == (CPU { registers: Registers { d: old(self).registers.d & 0xFD, ..old(self).registers }, ..*old(self) }),
            c == 8,
    {
        self.registers.d = self.registers.d & 0xFD;
        8
    }

    /// SET 1,D: no flag effect.
    pub fn set_1_d(&mut self) -> (c: usize)
        ensures
            *final(self) == (CPU { registers: Registers { d: old(self).registers.d | 0x02, ..old(self).registers }, ..*old(self) }),
            c == 8,
    {
        self.registers.d = self.registers.d | 0x02;
        8
    }

    /// BIT 1,E: C is untouched.
    pub fn bit_1_e(&mut self) -> (c: usize)
        ensures
            *final(self) == (CPU { registers: Registers { f: (Flag { zero: old(self).registers.e & 0x02 == 0, subtract: false, half_carry: true, carry: old(self).registers.f.carry }), ..old(self).registers }, ..*old(self) }),
            c == 8,
    {
        self.alu_bit(0x02, self.registers.e);
        8
    }

    /// RES 1,E: no flag effect.
    pub fn res_1_e(&mut self) -> (c: usize)
        ensures
            *final(self) == (CPU { registers: Registers { e: old(self).registers.e & 0xFD, ..old(self).registers }, ..*old(self) }),
            c == 8,
    {
        self.registers.e = self.registers.e & 0xFD;
        8
    }

    /// SET 1,E: no flag effect.
    pub fn set_1_e(&mut self) -> (c: usize)
        ensures
            *final(self) == (CPU { registers: Registers { e: old(self).registers.e | 0x02, ..old(self).registers }, ..*old(self) }),
            c == 8,
    {
        self.registers.e = self.registers.e | 0x02;
        8
    }

    /// BIT 1,H: C is untouched.
    pub fn bit_1_h(&mut self) -> (c: usize)
        ensures
            *final(self) == (CPU { registers: Registers { f: (Flag { zero: old(self).registers.h & 0x02 == 0, subtract: false, half_carry: true, carry: old(self).registers.f.carry }), ..old(self).registers }, ..*old(self) }),
            c == 8,
    {
        self.alu_bit(0x02, self.registers.h);
        8
    }

    /// RES 1,H: no flag effect.
    pub fn res_1_h(&mut self) -> (c: usize)
        ensures
            *final(self) == (CPU { registers: Registers { h: old(self).registers.h & 0xFD, ..old(self).registers }, ..*old(self) }),
            c == 8,
    {
        self.registers.h = self.registers.h & 0xFD;
        8
    }

    /// SET 1,H: no flag effect.
    pub fn set_1_h(&mut self) -> (c: usize)
        ensures
            *final(self) == (CPU { registers: Registers { h: old(self).registers.h | 0x02, ..old(self).registers }, ..*old(self) }),
            c == 8,
    {
        self.registers.h = self.registers.h | 0x02;
        8
    }

    /// BIT 1,L: C is untouched.
    pub fn bit_1_l(&mut self) -> (c: usize)
        ensures
            *final(self) == (CPU { registers: Registers { f: (Flag { zero: old(self).registers.l & 0x02 == 0, subtract: false, half_carry: true, carry: old(self).registers.f.carry }), ..old(self).registers }, ..*old(self) }),
            c == 8,
    {
        self.alu_bit(0x02, self.registers.l);
        8
    }

    /// RES 1,L: no flag effect.
    pub fn res_1_l(&mut self) -> (c: usize)
        ensures
            *final(self) == (CPU { registers: Registers { l: old(self).registers.l & 0xFD, ..old(self).registers }, ..*old(self) }),
            c == 8,
    {
        self.registers.l = self.registers.l & 0xFD;
        8
    }

    /// SET 1,L: no flag effect.
    pub fn set_1_l(&mut self) -> (c: usize)
        ensures
            *final(self) == (CPU { registers: Registers { l: old(self).registers.l | 0x02, ..old(self).registers }, ..*old(self) }),
            c == 8,
    {
        self.registers.l = self.registers.l | 0x02;
        8
    }

    /// BIT 1,A: C is untouched.
    pub fn bit_1_a(&mut self) -> (c: usize)
        ensures
            *final(self) == (CPU { registers: Registers { f: (Flag { zero: old(self).registers.a & 0x02 == 0, subtract: false, half_carry: true, carry: old(self).registers.f.carry }), ..old(self).registers }, ..*old(self) }),
            c == 8,
    {
        self.alu_bit(0x02, self.registers.a);
        8
    }

    /// RES 1,A: no flag effect.
    pub fn res_1_a(&mut self) -> (c: usize)
        ensures
            *final(self) == (CPU { registers: Registers { a: old(self).registers.a & 0xFD, ..old(self).registers }, ..*old(self) }),
            c == 8,
    {
        self.registers.a = self.registers.a & 0xFD;
        8
    }

    /// SET 1,A: no flag effect.
    pub fn set_1_a(&mut self) -> (c: usize)
        ensures
            *final(self) == (CPU { registers: Registers { a: old(self).registers.a | 0x02, ..old(self).registers }, ..*old(self) }),
            c == 8,
    {
        self.registers.a = self.registers.a | 0x02;
        8
    }

    /// BIT 1,(HL): C is untouched.
    pub fn bit_1_hl(&mut self, memory: &AddressBus) -> (c: usize)
        requires
            memory.wf(),
        ensures
            *final(self) == (CPU { registers: Registers { f: (Flag { zero: bus_read_spec(memory@, old(self).registers.hl_spec()) & 0x02 == 0, subtract: false, half_carry: true, carry: old(self).registers.f.carry }), ..old(self).registers }, ..*old(self) }),
            c == 12,
    {
        let hl = self.registers.get_hl();
        let n = memory.read_byte(hl);
        self.alu_bit(0x02, n);
        12
    }

    /// RES 1,(HL): no flag effect.
    pub fn res_1_hl(&mut self, memory: &mut AddressBus) -> (c: usize)
        requires
            old(memory).wf(),
        ensures
            final(memory).wf(),
            *final(self) == (CPU { ..*old(self) }),
            final(memory)@ == bus_write_spec(old(memory)@, old(self).registers.hl_spec(), bus_read_spec(old(memory)@, old(self).registers.hl_spec()) & 0xFD),
            c == 16,
    {
        let hl = self.registers.get_hl();
        let n = memory.read_byte(hl);
        memory.write_byte(hl, n & 0xFD);
        16
    }

    /// SET 1,(HL): no flag effect.
    pub fn set_1_hl(&mut self, memory: &mut AddressBus) -> (c: usize)
        requires
            old(memory).wf(),
        ensures
            final(memory).wf(),
            *final(self) == (CPU { ..*old(self) }),
            final(memory)@ == bus_write_spec(old(memory)@, old(self).registers.hl_spec(), bus_read_spec(old(memory)@, old(self).registers.hl_spec()) | 0x02),
            c == 16,
    {
        let hl = self.registers.get_hl();
        let n = memory.read_byte(hl);
        memory.write_byte(hl, n | 0x02);
        16
    }

    /// BIT 2,B: C is untouched.
    pub fn bit_2_b(&mut self) -> (c: usize)
        ensures
            *final(self) == (CPU { registers: Registers { f: (Flag { zero: old(self).registers.b & 0x04 == 0, subtract: false, half_carry: true, carry: old(self).registers.f.carry }), ..old(self).registers }, ..*old(self) }),
            c == 8,
    {
        self.alu_bit(0x04, self.registers.b);
        8
    }

    /// RES 2,B: no flag effect.
    pub fn res_2_b(&mut self) -> (c: usize)
        ensures
            *final(self) == (CPU { registers: Registers { b: old(self).registers.b & 0xFB, ..old(self).registers }, ..*old(self) }),
            c == 8,
    {
        self.registers.b = self.registers.b & 0xFB;
        8
    }

    /// SET 2,B: no flag effect.
    pub fn set_2_b(&mut self) -> (c: usize)
        ensures
            *final(self) == (CPU { registers: Registers { b: old(self).registers.b | 0x04, ..old(self).registers }, ..*old(self) }),
            c == 8,
    {
        self.registers.b = self.registers.b | 0x04;
        8
    }

    /// BIT 2,C: C is untouched.
    pub fn bit_2_c(&mut self) -> (c: usize)
        ensures
            *final(self) == (CPU { registers: Registers { f: (Flag { zero: old(self).registers.c & 0x04 == 0, subtract: false, half_carry: true, carry: old(self).registers.f.carry }), ..old(self).registers }, ..*old(self) }),
            c == 8,
    {
        self.alu_bit(0x04, self.registers.c);
        8
    }

    /// RES 2,C: no flag effect.
    pub fn res_2_c(&mut self) -> (c: usize)
        ensures
            *final(self) == (CPU { registers: Registers { c: old(self).registers.c & 0xFB, ..old(self).registers }, ..*old(self) }),
            c == 8,
    {
        self.registers.c = self.registers.c & 0xFB;
        8
    }

    /// SET 2,C: no flag effect.
    pub fn set_2_c(&mut self) -> (c: usize)
        ensures
            *final(self) == (CPU { registers: Registers { c: old(self).registers.c | 0x04, ..old(self).registers }, ..*old(self) }),
            c == 8,
    {
        self.registers.c = self.registers.c | 0x04;
        8
    }

    /// BIT 2,D: C is untouched.
    pub fn bit_2_d(&mut self) -> (c: usize)
        ensures
            *final(self) == (CPU { registers: Registers { f: (Flag { zero: old(self).registers.d & 0x04 == 0, subtract: false, half_carry: true, carry: old(self).registers.f.carry }), ..old(self).registers }, ..*old(self) }),
            c == 8,
    {
        self.alu_bit(0x04, self.registers.d);
        8
    }

    /// RES 2,D: no flag effect.
    pub fn res_2_d(&mut self) -> (c: usize)
        ensures
            *final(self) == (CPU { registers: Registers { d: old(self).registers.d & 0xFB, ..old(self).registers }, ..*old(self) }),
            c == 8,
    {
        self.registers.d = self.registers.d & 0xFB;
        8
    }

    /// SET 2,D: no flag effect.
    pub fn set_2_d(&mut self) -> (c: usize)
        ensures
            *final(self) == (CPU { registers: Registers { d: old(self).registers.d | 0x04, ..old(self).registers }, ..*old(self) }),
            c == 8,
    {
        self.registers.d = self.registers.d | 0x04;
        8
    }

    /// BIT 2,E: C is untouched.
    pub fn bit_2_e(&mut self) -> (c: usize)
        ensures
            *final(self) == (CPU { registers: Registers { f: (Flag { zero: old(self).registers.e & 0x04 == 0, subtract: false, half_carry: true, carry: old(self).registers.f.carry }), ..old(self).registers }, ..*old(self) }),
            c == 8,
    {
        self.alu_bit(0x04, self.registers.e);
        8
    }

    /// RES 2,E: no flag effect.
    pub fn res_2_e(&mut self) -> (c: usize)
        ensures
            *final(self) == (CPU { registers: Registers { e: old(self).registers.e & 0xFB, ..old(self).registers }, ..*old(self) }),
            c == 8,
    {
        self.registers.e = self.registers.e & 0xFB;
        8
    }

    /// SET 2,E: no flag effect.
    pub fn set_2_e(&mut self) -> (c: usize)
        ensures
            *final(self) == (CPU { registers: Registers { e: old(self).registers.e | 0x04, ..old(self).registers }, ..*old(self) }),
            c == 8,
    {
        self.registers.e = self.registers.e | 0x04;
        8
    }

    /// BIT 2,H: C is untouched.
    pub fn bit_2_h(&mut self) -> (c: usize)
        ensures
            *final(self) == (CPU { registers: Registers { f: (Flag { zero: old(self).registers.h & 0x04 == 0, subtract: false, half_carry: true, carry: old(self).registers.f.carry }), ..old(self).registers }, ..*old(self) }),
            c == 8,
    {
        self.alu_bit(0x04, self.registers.h);
        8
    }

    /// RES 2,H: no flag effect.
    pub fn res_2_h(&mut self) -> (c: usize)
        ensures
            *final(self) == (CPU { registers: Registers { h: old(self).registers.h & 0xFB, ..old(self).registers }, ..*old(self) }),
            c == 8,
    {
        self.registers.h = self.registers.h & 0xFB;
        8
    }

    /// SET 2,H: no flag effect.
    pub fn set_2_h(&mut self) -> (c: usize)
        ensures
            *final(self) == (CPU { registers: Registers { h: old(self).registers.h | 0x04, ..old(self).registers }, ..*old(self) }),
            c == 8,
    {
        self.registers.h = self.registers.h | 0x04;
        8
    }

    /// BIT 2,L: C is untouched.
    pub fn bit_2_l(&mut self) -> (c: usize)
        ensures
            *final(self) == (CPU { registers: Registers { f: (Flag { zero: old(self).registers.l & 0x04 == 0, subtract: false, half_carry: true, carry: old(self).registers.f.carry }), ..old(self).registers }, ..*old(self) }),
            c == 8,
    {
        self.alu_bit(0x04, self.registers.l);
        8
    }

    /// RES 2,L: no flag effect.
    pub fn res_2_l(&mut self) -> (c: usize)
        ensures
            *final(self) == (CPU { registers: Registers { l: old(self).registers.l & 0xFB, ..old(self).registers }, ..*old(self) }),
            c == 8,
    {
        self.registers.l = self.registers.l & 0xFB;
        8
    }

    /// SET 2,L: no flag effect.
    pub fn set_2_l(&mut self) -> (c: usize)
        ensures
            *final(self) == (CPU { registers: Registers { l: old(self).registers.l | 0x04, ..old(self).registers }, ..*old(self) }),
            c == 8,
    {
        self.registers.l = self.registers.l | 0x04;
        8
    }

    /// BIT 2,A: C is untouched.
    pub fn bit_2_a(&mut self) -> (c: usize)
        ensures
            *final(self) == (CPU { registers: Registers { f: (Flag { zero: old(self).registers.a & 0x04 == 0, subtract: false, half_carry: true, carry: old(self).registers.f.carry }), ..old(self).registers }, ..*old(self) }),
            c == 8,
    {
        self.alu_bit(0x04, self.registers.a);
        8
    }

    /// RES 2,A: no flag effect.
    pub fn res_2_a(&mut self) -> (c: usize)
        ensures
            *final(self) == (CPU { registers: Registers { a: old(self).registers.a & 0xFB, ..old(self).registers }, ..*old(self) }),
            c == 8,
    {
        self.registers.a = self.registers.a & 0xFB;
        8
    }

    /// SET 2,A: no flag effect.
    pub fn set_2_a(&mut self) -> (c: usize)
        ensures
            *final(self) == (CPU { registers: Registers { a: old(self).registers.a | 0x04, ..old(self).registers }, ..*old(self) }),
            c == 8,
    {
        self.registers.a = self.registers.a | 0x04;
        8
    }

    /// BIT 2,(HL): C is untouched.
    pub fn bit_2_hl(&mut self, memory: &AddressBus) -> (c: usize)
        requires
            memory.wf(),
        ensures
            *final(self) == (CPU { registers: Registers { f: (Flag { zero: bus_read_spec(memory@, old(self).registers.hl_spec()) & 0x04 == 0, subtract: false, half_carry: true, carry: old(self).registers.f.carry }), ..old(self).registers }, ..*old(self) }),
            c == 12,
    {
        let hl = self.registers.get_hl();
        let n = memory.read_byte(hl);
        self.alu_bit(0x04, n);
        12
    }

    /// RES 2,(HL): no flag effect.
    pub fn res_2_hl(&mut self, memory: &mut AddressBus) -> (c: usize)
        requires
            old(memory).wf(),
        ensures
            final(memory).wf(),
            *final(self) == (CPU { ..*old(self) }),
            final(memory)@ == bus_write_spec(old(memory)@, old(self).registers.hl_spec(), bus_read_spec(old(memory)@, old(self).registers.hl_spec()) & 0xFB),
            c == 16,
    {
        let hl = self.registers.get_hl();
        let n = memory.read_byte(hl);
        memory.write_byte(hl, n & 0xFB);
        16
    }

    /// SET 2,(HL): no flag effect.
    pub fn set_2_hl(&mut self, memory: &mut AddressBus) -> (c: usize)
        requires
            old(memory).wf(),
        ensures
            final(memory).wf(),
            *final(self) == (CPU { ..*old(self) }),
            final(memory)@ == bus_write_spec(old(memory)@, old(self).registers.hl_spec(), bus_read_spec(old(memory)@, old(self).registers.hl_spec()) | 0x04),
            c == 16,
    {
        let hl = self.registers.get_hl();
        let n = memory.read_byte(hl);
        memory.write_byte(hl, n | 0x04);
        16
    }

    /// BIT 3,B: C is untouched.
    pub fn bit_3_b(&mut self) -> (c: usize)
        ensures
            *final(self) == (CPU { registers: Registers { f: (Flag { zero: old(self).registers.b & 0x08 == 0, subtract: false, half_carry: true, carry: old(self).registers.f.carry }), ..old(self).registers }, ..*old(self) }),
            c == 8,
    {
        self.alu_bit(0x08, self.registers.b);
        8
    }

    /// RES 3,B: no flag effect.
    pub fn res_3_b(&mut self) -> (c: usize)
        ensures
            *final(self) == (CPU { registers: Registers { b: old(self).registers.b & 0xF7, ..old(self).registers }, ..*old(self) }),
            c == 8,
    {
        self.registers.b = self.registers.b & 0xF7;
        8
    }

    /// SET 3,B: no flag effect.
    pub fn set_3_b(&mut self) -> (c: usize)
        ensures
            *final(self) == (CPU { registers: Registers { b: old(self).registers.b | 0x08, ..old(self).registers }, ..*old(self) }),
            c == 8,
    {
        self.registers.b = self.registers.b | 0x08;
        8
    }

    /// BIT 3,C: C is untouched.
    pub fn bit_3_c(&mut self) -> (c: usize)
        ensures
            *final(self) == (CPU { registers: Registers { f: (Flag { zero: old(self).registers.c & 0x08 == 0, subtract: false, half_carry: true, carry: old(self).registers.f.carry }), ..old(self).registers }, ..*old(self) }),
            c == 8,
    {
        self.alu_bit(0x08, self.registers.c);
        8
    }

    /// RES 3,C: no flag effect.
    pub fn res_3_c(&mut self) -> (c: usize)
        ensures
            *final(self) == (CPU { registers: Registers { c: old(self).registers.c & 0xF7, ..old(self).registers }, ..*old(self) }),
            c == 8,
    {
        self.registers.c = self.registers.c & 0xF7;
        8
    }

    /// SET 3,C: no flag effect.
    pub fn set_3_c(&mut self) -> (c: usize)
        ensures
            *final(self) == (CPU { registers: Registers { c: old(self).registers.c | 0x08, ..old(self).registers }, ..*old(self) }),
            c == 8,
    {
        self.registers.c = self.registers.c | 0x08;
        8
    }

    /// BIT 3,D: C is untouched.
    pub fn bit_3_d(&mut self) -> (c: usize)
        ensures
            *final(self) == (CPU { registers: Registers { f: (Flag { zero: old(self).registers.d & 0x08 == 0, subtract: false, half_carry: true, carry: old(self).registers.f.carry }), ..old(self).registers }, ..*old(self) }),
            c == 8,
    {
        self.alu_bit(0x08, self.registers.d);
        8
    }

    /// RES 3,D: no flag effect.
    pub fn res_3_d(&mut self) -> (c: usize)
        ensures
            *final(self) == (CPU { registers: Registers { d: old(self).registers.d & 0xF7, ..old(self).registers }, ..*old(self) }),
            c == 8,
    {
        self.registers.d = self.registers.d & 0xF7;
        8
    }

    /// SET 3,D: no flag effect.
    pub fn set_3_d(&mut self) -> (c: usize)
        ensures
            *final(self) == (CPU { registers: Registers { d: old(self).registers.d | 0x08, ..old(self).registers }, ..*old(self) }),
            c == 8,
    {
        self.registers.d = self.registers.d | 0x08;
        8
    }

    /// BIT 3,E: C is untouched.
    pub fn bit_3_e(&mut self) -> (c: usize)
        ensures
            *final(self) == (CPU { registers: Registers { f: (Flag { zero: old(self).registers.e & 0x08 == 0, subtract: false, half_carry: true, carry: old(self).registers.f.carry }), ..old(self).registers }, ..*old(self) }),
            c == 8,
    {
        self.alu_bit(0x08, self.registers.e);
        8
    }

    /// RES 3,E: no flag effect.
    pub fn res_3_e(&mut self) -> (c: usize)
        ensures
            *final(self) == (CPU { registers: Registers { e: old(self).registers.e & 0xF7, ..old(self).registers }, ..*old(self) }),
            c == 8,
    {
        self.registers.e = self.registers.e & 0xF7;
        8
    }

    /// SET 3,E: no flag effect.
    pub fn set_3_e(&mut self) -> (c: usize)
        ensures
            *final(self) == (CPU { registers: Registers { e: old(self).registers.e | 0x08, ..old(self).registers }, ..*old(self) }),
            c == 8,
    {
        self.registers.e = self.registers.e | 0x08;
        8
    }

    /// BIT 3,H: C is untouched.
    pub fn bit_3_h(&mut self) -> (c: usize)
        ensures
            *final(self) == (CPU { registers: Registers { f: (Flag { zero: old(self).registers.h & 0x08 == 0, subtract: false, half_carry: true, carry: old(self).registers.f.carry }), ..old(self).registers }, ..*old(self) }),
            c == 8,
    {
        self.alu_bit(0x08, self.registers.h);
        8
    }

    /// RES 3,H: no flag effect.
    pub fn res_3_h(&mut self) -> (c: usize)
        ensures
            *final(self) == (CPU { registers: Registers { h: old(self).registers.h & 0xF7, ..old(self).registers }, ..*old(self) }),
            c == 8,
    {
        self.registers.h = self.registers.h & 0xF7;
        8
    }

    /// SET 3,H: no flag effect.
    pub fn set_3_h(&mut self) -> (c: usize)
        ensures
            *final(self) == (CPU { registers: Registers { h: old(self).registers.h | 0x08, ..old(self).registers }, ..*old(self) }),
            c == 8,
    {
        self.registers.h = self.registers.h | 0x08;
        8
    }

    /// BIT 3,L: C is untouched.
    pub fn bit_3_l(&mut self) -> (c: usize)
        ensures
            *final(self) == (CPU { registers: Registers { f: (Flag { zero: old(self).registers.l & 0x08 == 0, subtract: false, half_carry: true, carry: old(self).registers.f.carry }), ..old(self).registers }, ..*old(self) }),
            c == 8,
    {
        self.alu_bit(0x08, self.registers.l);
        8
    }

    /// RES 3,L: no flag effect.
    pub fn res_3_l(&mut self) -> (c: usize)
        ensures
            *final(self) == (CPU { registers: Registers { l: old(self).registers.l & 0xF7, ..old(self).registers }, ..*old(self) }),
            c == 8,
    {
        self.registers.l = self.registers.l & 0xF7;
        8
    }

    /// SET 3,L: no flag effect.
    pub fn set_3_l(&mut self) -> (c: usize)
        ensures
            *final(self) == (CPU { registers: Registers { l: old(self).registers.l | 0x08, ..old(self).registers }, ..*old(self) }),
            c == 8,
    {
        self.registers.l = self.registers.l | 0x08;
        8
    }

    /// BIT 3,A: C is untouched.
    pub fn bit_3_a(&mut self) -> (c: usize)
        ensures
            *final(self) == (CPU { registers: Registers { f: (Flag { zero: old(self).registers.a & 0x08 == 0, subtract: false, half_carry: true, carry: old(self).registers.f.carry }), ..old(self).registers }, ..*old(self) }),
            c == 8,
    {
        self.alu_bit(0x08, self.registers.a);
        8
    }

    /// RES 3,A: no flag effect.
    pub fn res_3_a(&mut self) -> (c: usize)
        ensures
            *final(self) == (CPU { registers: Registers { a: old(self).registers.a & 0xF7, ..old(self).registers }, ..*old(self) }),
            c == 8,
    {
        self.registers.a = self.registers.a & 0xF7;
        8
    }

    /// SET 3,A: no flag effect.
    pub fn set_3_a(&mut self) -> (c: usize)
        ensures
            *final(self) == (CPU { registers: Registers { a: old(self).registers.a | 0x08, ..old(self).registers }, ..*old(self) }),
            c == 8,
    {
        self.registers.a = self.registers.a | 0x08;
        8
    }

    /// BIT 3,(HL): C is untouched.
    pub fn bit_3_hl(&mut self, memory: &AddressBus) -> (c: usize)
        requires
            memory.wf(),
        ensures
            *final(self) == (CPU { registers: Registers { f: (Flag { zero: bus_read_spec(memory@, old(self).registers.hl_spec()) & 0x08 == 0, subtract: false, half_carry: true, carry: old(self).registers.f.carry }), ..old(self).registers }, ..*old(self) }),
            c == 12,
    {
        let hl = self.registers.get_hl();
        let n = memory.read_byte(hl);
        self.alu_bit(0x08, n);
        12
    }

    /// RES 3,(HL): no flag effect.
    pub fn res_3_hl(&mut self, memory: &mut AddressBus) -> (c: usize)
        requires
            old(memory).wf(),
        ensures
            final(memory).wf(),
            *final(self) == (CPU { ..*old(self) }),
            final(memory)@ == bus_write_spec(old(memory)@, old(self).registers.hl_spec(), bus_read_spec(old(memory)@, old(self).registers.hl_spec()) & 0xF7),
            c == 16,
    {
        let hl = self.registers.get_hl();
        let n = memory.read_byte(hl);
        memory.write_byte(hl, n & 0xF7);
        16
    }

    /// SET 3,(HL): no flag effect.
    pub fn set_3_hl(&mut self, memory: &mut AddressBus) -> (c: usize)
        requires
            old(memory).wf(),
        ensures
            final(memory).wf(),
            *final(self) == (CPU { ..*old(self) }),
            final(memory)@ == bus_write_spec(old(memory)@, old(self).registers.hl_spec(), bus_read_spec(old(memory)@, old(self).registers.hl_spec()) | 0x08),
            c == 16,
    {
        let hl = self.registers.get_hl();
        let n = memory.read_byte(hl);
        memory.write_byte(hl, n | 0x08);
        16
    }

    /// BIT 4,B: C is untouched.
    pub fn bit_4_b(&mut self) -> (c: usize)
        ensures
            *final(self) == (CPU { registers: Registers { f: (Flag { zero: old(self).registers.b & 0x10 == 0, subtract: false, half_carry: true, carry: old(self).registers.f.carry }), ..old(self).registers }, ..*old(self) }),
            c == 8,
    {
        self.alu_bit(0x10, self.registers.b);
        8
    }

    /// RES 4,B: no flag effect.
    pub fn res_4_b(&mut self) -> (c: usize)
        ensures
            *final(self) == (CPU { registers: Registers { b: old(self).registers.b & 0xEF, ..old(self).registers }, ..*old(self) }),
            c == 8,
    {
        self.registers.b = self.registers.b & 0xEF;
        8
    }

    /// SET 4,B: no flag effect.
    pub fn set_4_b(&mut self) -> (c: usize)
        ensures
            *final(self) == (CPU { registers: Registers { b: old(self).registers.b | 0x10, ..old(self).registers }, ..*old(self) }),
            c == 8,
    {
        self.registers.b = self.registers.b | 0x10;
        8
    }

    /// BIT 4,C: C is untouched.
    pub fn bit_4_c(&mut self) -> (c: usize)
        ensures
            *final(self) == (CPU { registers: Registers { f: (Flag { zero: old(self).registers.c & 0x10 == 0, subtract: false, half_carry: true, carry: old(self).registers.f.carry }), ..old(self).registers }, ..*old(self) }),
            c == 8,
    {
        self.alu_bit(0x10, self.registers.c);
        8
    }

    /// RES 4,C: no flag effect.
    pub fn res_4_c(&mut self) -> (c: usize)
        ensures
            *final(self) == (CPU { registers: Registers { c: old(self).registers.c & 0xEF, ..old(self).registers }, ..*old(self) }),
            c == 8,
    {
        self.registers.c = self.registers.c & 0xEF;
        8
    }

    /// SET 4,C: no flag effect.
    pub fn set_4_c(&mut self) -> (c: usize)
        ensures
            *final(self) == (CPU { registers: Registers { c: old(self).registers.c | 0x10, ..old(self).registers }, ..*old(self) }),
            c == 8,
    {
        self.registers.c = self.registers.c | 0x10;
        8
    }

    /// BIT 4,D: C is untouched.
    pub fn bit_4_d(&mut self) -> (c: usize)
        ensures
            *final(self) == (CPU { registers: Registers { f: (Flag { zero: old(self).registers.d & 0x10 == 0, subtract: false, half_carry: true, carry: old(self).registers.f.carry }), ..old(self).registers }, ..*old(self) }),
            c == 8,
    {
        self.alu_bit(0x10, self.registers.d);
        8
    }

    /// RES 4,D: no flag effect.
    pub fn res_4_d(&mut self) -> (c: usize)
        ensures
            *final(self) == (CPU { registers: Registers { d: old(self).registers.d & 0xEF, ..old(self).registers }, ..*old(self) }),
            c == 8,
    {
        self.registers.d = self.registers.d & 0xEF;
        8
    }

    /// SET 4,D: no flag effect.
    pub fn set_4_d(&mut self) -> (c: usize)
        ensures
            *final(self) == (CPU { registers: Registers { d: old(self).registers.d | 0x10, ..old(self).registers }, ..*old(self) }),
            c == 8,
    {
        self.registers.d = self.registers.d | 0x10;
        8
    }

    /// BIT 4,E: C is untouched.
    pub fn bit_4_e(&mut self) -> (c: usize)
        ensures
            *final(self) == (CPU { registers: Registers { f: (Flag { zero: old(self).registers.e & 0x10 == 0, subtract: false, half_carry: true, carry: old(self).registers.f.carry }), ..old(self).registers }, ..*old(self) }),
            c == 8,
    {
        self.alu_bit(0x10, self.registers.e);
        8
    }

    /// RES 4,E: no flag effect.
    pub fn res_4_e(&mut self) -> (c: usize)
        ensures
            *final(self) == (CPU { registers: Registers { e: old(self).registers.e & 0xEF, ..old(self).registers }, ..*old(self) }),
            c == 8,
    {
        self.registers.e = self.registers.e & 0xEF;
        8
    }

    /// SET 4,E: no flag effect.
    pub fn set_4_e(&mut self) -> (c: usize)
        ensures
            *final(self) == (CPU { registers: Registers { e: old(self).registers.e | 0x10, ..old(self).registers }, ..*old(self) }),
            c == 8,
    {
        self.registers.e = self.registers.e | 0x10;
        8
    }

    /// BIT 4,H: C is untouched.
    pub fn bit_4_h(&mut self) -> (c: usize)
        ensures
            *final(self) == (CPU { registers: Registers { f: (Flag { zero: old(self).registers.h & 0x10 == 0, subtract: false, half_carry: true, carry: old(self).registers.f.carry }), ..old(self).registers }, ..*old(self) }),
            c == 8,
    {
        self.alu_bit(0x10, self.registers.h);
        8
    }

    /// RES 4,H: no flag effect.
    pub fn res_4_h(&mut self) -> (c: usize)
        ensures
            *final(self) == (CPU { registers: Registers { h: old(self).registers.h & 0xEF, ..old(self).registers }, ..*old(self) }),
            c == 8,
    {
        self.registers.h = self.registers.h & 0xEF;
        8
    }

    /// SET 4,H: no flag effect.
    pub fn set_4_h(&mut self) -> (c: usize)
        ensures
            *final(self) == (CPU { registers: Registers { h: old(self).registers.h | 0x10, ..old(self).registers }, ..*old(self) }),
            c == 8,
    {
        self.registers.h = self.registers.h | 0x10;
        8
    }

    /// BIT 4,L: C is untouched.
    pub fn bit_4_l(&mut self) -> (c: usize)
        ensures
            *final(self) == (CPU { registers: Registers { f: (Flag { zero: old(self).registers.l & 0x10 == 0, subtract: false, half_carry: true, carry: old(self).registers.f.carry }), ..old(self).registers }, ..*old(self) }),
            c == 8,
    {
        self.alu_bit(0x10, self.registers.l);
        8
    }

    /// RES 4,L: no flag effect.
    pub fn res_4_l(&mut self) -> (c: usize)
        ensures
            *final(self) == (CPU { registers: Registers { l: old(self).registers.l & 0xEF, ..old(self).registers }, ..*old(self) }),
            c == 8,
    {
        self.registers.l = self.registers.l & 0xEF;
        8
    }

    /// SET 4,L: no flag effect.
    pub fn set_4_l(&mut self) -> (c: usize)
        ensures
            *final(self) == (CPU { registers: Registers { l: old(self).registers.l | 0x10, ..old(self).registers }, ..*old(self) }),
            c == 8,
    {
        self.registers.l = self.registers.l | 0x10;
        8
    }

    /// BIT 4,A: C is untouched.
    pub fn bit_4_a(&mut self) -> (c: usize)
        ensures
            *final(self) == (CPU { registers: Registers { f: (Flag { zero: old(self).registers.a & 0x10 == 0, subtract: false, half_carry: true, carry: old(self).registers.f.carry }), ..old(self).registers }, ..*old(self) }),
            c == 8,
    {
        self.alu_bit(0x10, self.registers.a);
        8
    }

    /// RES 4,A: no flag effect.
    pub fn res_4_a(&mut self) -> (c: usize)
        ensures
            *final(self) == (CPU { registers: Registers { a: old(self).registers.a & 0xEF, ..old(self).registers }, ..*old(self) }),
            c == 8,
    {
        self.registers.a = self.registers.a & 0xEF;
        8
    }

    /// SET 4,A: no flag effect.
    pub fn set_4_a(&mut self) -> (c: usize)
        ensures
            *final(self) == (CPU { registers: Registers { a: old(self).registers.a | 0x10, ..old(self).registers }, ..*old(self) }),
            c == 8,
    {
        self.registers.a = self.registers.a | 0x10;
        8
    }

    /// BIT 4,(HL): C is untouched.
    pub fn bit_4_hl(&mut self, memory: &AddressBus) -> (c: usize)
        requires
            memory.wf(),
        ensures
            *final(self) == (CPU { registers: Registers { f: (Flag { zero: bus_read_spec(memory@, old(self).registers.hl_spec()) & 0x10 == 0, subtract: false, half_carry: true, carry: old(self).registers.f.carry }), ..old(self).registers }, ..*old(self) }),
            c == 12,
    {
        let hl = self.registers.get_hl();
        let n = memory.read_byte(hl);
        self.alu_bit(0x10, n);
        12
    }

    /// RES 4,(HL): no flag effect.
    pub fn res_4_hl(&mut self, memory: &mut AddressBus) -> (c: usize)
        requires
            old(memory).wf(),
        ensures
            final(memory).wf(),
            *final(self) == (CPU { ..*old(self) }),
            final(memory)@ == bus_write_spec(old(memory)@, old(self).registers.hl_spec(), bus_read_spec(old(memory)@, old(self).registers.hl_spec()) & 0xEF),
            c == 16,
    {
        let hl = self.registers.get_hl();
        let n = memory.read_byte(hl);
        memory.write_byte(hl, n & 0xEF);
        16
    }

    /// SET 4,(HL): no flag effect.
    pub fn set_4_hl(&mut self, memory: &mut AddressBus) -> (c: usize)
        requires
            old(memory).wf(),
        ensures
            final(memory).wf(),
            *final(self) == (CPU { ..*old(self) }),
            final(memory)@ == bus_write_spec(old(memory)@, old(self).registers.hl_spec(), bus_read_spec(old(memory)@, old(self).registers.hl_spec()) | 0x10),
            c == 16,
    {
        let hl = self.registers.get_hl();
        let n = memory.read_byte(hl);
        memory.write_byte(hl, n | 0x10);
        16
    }

    /// BIT 5,B: C is untouched.
    pub fn bit_5_b(&mut self) -> (c: usize)
        ensures
            *final(self) == (CPU { registers: Registers { f: (Flag { zero: old(self).registers.b & 0x20 == 0, subtract: false, half_carry: true, carry: old(self).registers.f.carry }), ..old(self).registers }, ..*old(self) }),
            c == 8,
    {
        self.alu_bit(0x20, self.registers.b);
        8
    }

    /// RES 5,B: no flag effect.
    pub fn res_5_b(&mut self) -> (c: usize)
        ensures
            *final(self) == (CPU { registers: Registers { b: old(self).registers.b & 0xDF, ..old(self).registers }, ..*old(self) }),
            c == 8,
    {
        self.registers.b = self.registers.b & 0xDF;
        8
    }

    /// SET 5,B: no flag effect.
    pub fn set_5_b(&mut self) -> (c: usize)
        ensures
            *final(self) == (CPU { registers: Registers { b: old(self).registers.b | 0x20, ..old(self).registers }, ..*old(self) }),
            c == 8,
    {
        self.registers.b = self.registers.b | 0x20;
        8
    }

    /// BIT 5,C: C is untouched.
    pub fn bit_5_c(&mut self) -> (c: usize)
        ensures
            *final(self) == (CPU { registers: Registers { f: (Flag { zero: old(self).registers.c & 0x20 == 0, subtract: false, half_carry: true, carry: old(self).registers.f.carry }), ..old(self).registers }, ..*old(self) }),
            c == 8,
    {
        self.alu_bit(0x20, self.registers.c);
        8
    }

    /// RES 5,C: no flag effect.
    pub fn res_5_c(&mut self) -> (c: usize)
        ensures
            *final(self) == (CPU { registers: Registers { c: old(self).registers.c & 0xDF, ..old(self).registers }, ..*old(self) }),
            c == 8,
    {
        self.registers.c = self.registers.c & 0xDF;
        8
    }

    /// SET 5,C: no flag effect.
    pub fn set_5_c(&mut self) -> (c: usize)
        ensures
            *final(self) == (CPU { registers: Registers { c: old(self).registers.c | 0x20, ..old(self).registers }, ..*old(self) }),
            c == 8,
    {
        self.registers.c = self.registers.c | 0x20;
        8
    }

    /// BIT 5,D: C is untouched.
    pub fn bit_5_d(&mut self) -> (c: usize)
        ensures
            *final(self) == (CPU { registers: Registers { f: (Flag { zero: old(self).registers.d & 0x20 == 0, subtract: false, half_carry: true, carry: old(self).registers.f.carry }), ..old(self).registers }, ..*old(self) }),
            c == 8,
    {
        self.alu_bit(0x20, self.registers.d);
        8
    }

    /// RES 5,D: no flag effect.
    pub fn res_5_d(&mut self) -> (c: usize)
        ensures
            *final(self) == (CPU { registers: Registers { d: old(self).registers.d & 0xDF, ..old(self).registers }, ..*old(self) }),
            c == 8,
    {
        self.registers.d = self.registers.d & 0xDF;
        8
    }

    /// SET 5,D: no flag effect.
    pub fn set_5_d(&mut self) -> (c: usize)
        ensures
            *final(self) == (CPU { registers: Registers { d: old(self).registers.d | 0x20, ..old(self).registers }, ..*old(self) }),
            c == 8,
    {
        self.registers.d = self.registers.d | 0x20;
        8
    }

    /// BIT 5,E: C is untouched.
    pub fn bit_5_e(&mut self) -> (c: usize)
        ensures
            *final(self) == (CPU { registers: Registers { f: (Flag { zero: old(self).registers.e & 0x20 == 0, subtract: false, half_carry: true, carry: old(self).registers.f.carry }), ..old(self).registers }, ..*old(self) }),
            c == 8,
    {
        self.alu_bit(0x20, self.registers.e);
        8
    }

    /// RES 5,E: no flag effect.
    pub fn res_5_e(&mut self) -> (c: usize)
        ensures
            *final(self) == (CPU { registers: Registers { e: old(self).registers.e & 0xDF, ..old(self).registers }, ..*old(self) }),
            c == 8,
    {
        self.registers.e = self.registers.e & 0xDF;
        8
    }

    /// SET 5,E: no flag effect.
    pub fn set_5_e(&mut self) -> (c: usize)
        ensures
            *final(self) == (CPU { registers: Registers { e: old(self).registers.e | 0x20, ..old(self).registers }, ..*old(self) }),
            c == 8,
    {
        self.registers.e = self.registers.e | 0x20;
        8
    }

    /// BIT 5,H: C is untouched.
    pub fn bit_5_h(&mut self) -> (c: usize)
        ensures
            *final(self) == (CPU { registers: Registers { f: (Flag { zero: old(self).registers.h & 0x20 == 0, subtract: false, half_carry: true, carry: old(self).registers.f.carry }), ..old(self).registers }, ..*old(self) }),
            c == 8,
    {
        self.alu_bit(0x20, self.registers.h);
        8
    }

    /// RES 5,H: no flag effect.
    pub fn res_5_h(&mut self) -> (c: usize)
        ensures
            *final(self) == (CPU { registers: Registers { h: old(self).registers.h & 0xDF, ..old(self).registers }, ..*old(self) }),
            c == 8,
    {
        self.registers.h = self.registers.h & 0xDF;
        8
    }

    /// SET 5,H: no flag effect.
    pub fn set_5_h(&mut self) -> (c: usize)
        ensures
            *final(self) == (CPU { registers: Registers { h: old(self).registers.h | 0x20, ..old(self).registers }, ..*old(self) }),
            c == 8,
    {
        self.registers.h = self.registers.h | 0x20;
        8
    }

    /// BIT 5,L: C is untouched.
    pub fn bit_5_l(&mut self) -> (c: usize)
        ensures
            *final(self) == (CPU { registers: Registers { f: (Flag { zero: old(self).registers.l & 0x20 == 0, subtract: false, half_carry: true, carry: old(self).registers.f.carry }), ..old(self).registers }, ..*old(self) }),
            c == 8,
    {
        self.alu_bit(0x20, self.registers.l);
        8
    }

    /// RES 5,L: no flag effect.
    pub fn res_5_l(&mut self) -> (c: usize)
        ensures
            *final(self) == (CPU { registers: Registers { l: old(self).registers.l & 0xDF, ..old(self).registers }, ..*old(self) }),
            c == 8,
    {
        self.registers.l = self.registers.l & 0xDF;
        8
    }

    /// SET 5,L: no flag effect.
    pub fn set_5_l(&mut self) -> (c: usize)
        ensures
            *final(self) == (CPU { registers: Registers { l: old(self).registers.l | 0x20, ..old(self).registers }, ..*old(self) }),
            c == 8,
    {
        self.registers.l = self.registers.l | 0x20;
        8
    }

    /// BIT 5,A: C is untouched.
    pub fn bit_5_a(&mut self) -> (c: usize)
        ensures
            *final(self) == (CPU { registers: Registers { f: (Flag { zero: old(self).registers.a & 0x20 == 0, subtract: false, half_carry: true, carry: old(self).registers.f.carry }), ..old(self).registers }, ..*old(self) }),
            c == 8,
    {
        self.alu_bit(0x20, self.registers.a);
        8
    }

    /// RES 5,A: no flag effect.
    pub fn res_5_a(&mut self) -> (c: usize)
        ensures
            *final(self) == (CPU { registers: Registers { a: old(self).registers.a & 0xDF, ..old(self).registers }, ..*old(self) }),
            c == 8,
    {
        self.registers.a = self.registers.a & 0xDF;
        8
    }

    /// SET 5,A: no flag effect.
    pub fn set_5_a(&mut self) -> (c: usize)
        ensures
            *final(self) == (CPU { registers: Registers { a: old(self).registers.a | 0x20, ..old(self).registers }, ..*old(self) }),
            c == 8,
    {
        self.registers.a = self.registers.a | 0x20;
        8
    }

    /// BIT 5,(HL): C is untouched.
    pub fn bit_5_hl(&mut self, memory: &AddressBus) -> (c: usize)
        requires
            memory.wf(),
        ensures
            *final(self) == (CPU { registers: Registers { f: (Flag { zero: bus_read_spec(memory@, old(self).registers.hl_spec()) & 0x20 == 0, subtract: false, half_carry: true, carry: old(self).registers.f.carry }), ..old(self).registers }, ..*old(self) }),
            c == 12,
    {
        let hl = self.registers.get_hl();
        let n = memory.read_byte(hl);
        self.alu_bit(0x20, n);
        12
    }

    /// RES 5,(HL): no flag effect.
    pub fn res_5_hl(&mut self, memory: &mut AddressBus) -> (c: usize)
        requires
            old(memory).wf(),
        ensures
            final(memory).wf(),
            *final(self) == (CPU { ..*old(self) }),
            final(memory)@ == bus_write_spec(old(memory)@, old(self).registers.hl_spec(), bus_read_spec(old(memory)@, old(self).registers.hl_spec()) & 0xDF),
            c == 16,
    {
        let hl = self.registers.get_hl();
        let n = memory.read_byte(hl);
        memory.write_byte(hl, n & 0xDF);
        16
    }

    /// SET 5,(HL): no flag effect.
    pub fn set_5_hl(&mut self, memory: &mut AddressBus) -> (c: usize)
        requires
            old(memory).wf(),
        ensures
            final(memory).wf(),
            *final(self) == (CPU { ..*old(self) }),
            final(memory)@ == bus_write_spec(old(memory)@, old(self).registers.hl_spec(), bus_read_spec(old(memory)@, old(self).registers.hl_spec()) | 0x20),
            c == 16,
    {
        let hl = self.registers.get_hl();
        let n = memory.read_byte(hl);
        memory.write_byte(hl, n | 0x20);
        16
    }

    /// BIT 6,B: C is untouched.
    pub fn bit_6_b(&mut self) -> (c: usize)
        ensures
            *final(self) == (CPU { registers: Registers { f: (Flag { zero: old(self).registers.b & 0x40 == 0, subtract: false, half_carry: true, carry: old(self).registers.f.carry }), ..old(self).registers }, ..*old(self) }),
            c == 8,
    {
        self.alu_bit(0x40, self.registers.b);
        8
    }

    /// RES 6,B: no flag effect.
    pub fn res_6_b(&mut self) -> (c: usize)
        ensures
            *final(self) == (CPU { registers: Registers { b: old(self).registers.b & 0xBF, ..old(self).registers }, ..*old(self) }),
            c == 8,
    {
        self.registers.b = self.registers.b & 0xBF;
        8
    }

    /// SET 6,B: no flag effect.
    pub fn set_6_b(&mut self) -> (c: usize)
        ensures
            *final(self) == (CPU { registers: Registers { b: old(self).registers.b | 0x40, ..old(self).registers }, ..*old(self) }),
            c == 8,
    {
        self.registers.b = self.registers.b | 0x40;
        8
    }

    /// BIT 6,C: C is untouched.
    pub fn bit_6_c(&mut self) -> (c: usize)
        ensures
            *final(self) == (CPU { registers: Registers { f: (Flag { zero: old(self).registers.c & 0x40 == 0, subtract: false, half_carry: true, carry: old(self).registers.f.carry }), ..old(self).registers }, ..*old(self) }),
            c == 8,
    {
        self.alu_bit(0x40, self.registers.c);
        8
    }

    /// RES 6,C: no flag effect.
    pub fn res_6_c(&mut self) -> (c: usize)
        ensures
            *final(self) == (CPU { registers: Registers { c: old(self).registers.c & 0xBF, ..old(self).registers }, ..*old(self) }),
            c == 8,
    {
        self.registers.c = self.registers.c & 0xBF;
        8
    }

    /// SET 6,C: no flag effect.
    pub fn set_6_c(&mut self) -> (c: usize)
        ensures
            *final(self) == (CPU { registers: Registers { c: old(self).registers.c | 0x40, ..old(self).registers }, ..*old(self) }),
            c == 8,
    {
        self.registers.c = self.registers.c | 0x40;
        8
    }

    /// BIT 6,D: C is untouched.
    pub fn bit_6_d(&mut self) -> (c: usize)
        ensures
            *final(self) == (CPU { registers: Registers { f: (Flag { zero: old(self).registers.d & 0x40 == 0, subtract: false, half_carry: true, carry: old(self).registers.f.carry }), ..old(self).registers }, ..*old(self) }),
            c == 8,
    {
        self.alu_bit(0x40, self.registers.d);
        8
    }

    /// RES 6,D: no flag effect.
    pub fn res_6_d(&mut self) -> (c: usize)
        ensures
            *final(self) == (CPU { registers: Registers { d: old(self).registers.d & 0xBF, ..old(self).registers }, ..*old(self) }),
            c == 8,
    {
        self.registers.d = self.registers.d & 0xBF;
        8
    }

    /// SET 6,D: no flag effect.
    pub fn set_6_d(&mut self) -> (c: usize)
        ensures
            *final(self) == (CPU { registers: Registers { d: old(self).registers.d | 0x40, ..old(self).registers }, ..*old(self) }),
            c == 8,
    {
        self.registers.d = self.registers.d | 0x40;
        8
    }

    /// BIT 6,E: C is untouched.
    pub fn bit_6_e(&mut self) -> (c: usize)
        ensures
            *final(self) == (CPU { registers: Registers { f: (Flag { zero: old(self).registers.e & 0x40 == 0, subtract: false, half_carry: true, carry: old(self).registers.f.carry }), ..old(self).registers }, ..*old(self) }),
            c == 8,
    {
        self.alu_bit(0x40, self.registers.e);
        8
    }

    /// RES 6,E: no flag effect.
    pub fn res_6_e(&mut self) -> (c: usize)
        ensures
            *final(self) == (CPU { registers: Registers { e: old(self).registers.e & 0xBF, ..old(self).registers }, ..*old(self) }),
            c == 8,
    {
        self.registers.e = self.registers.e & 0xBF;
        8
    }

    /// SET 6,E: no flag effect.
    pub fn set_6_e(&mut self) -> (c: usize)
        ensures
            *final(self) == (CPU { registers: Registers { e: old(self).registers.e | 0x40, ..old(self).registers }, ..*old(self) }),
            c == 8,
    {
        self.registers.e = self.registers.e | 0x40;
        8
    }

    /// BIT 6,H: C is untouched.
    pub fn bit_6_h(&mut self) -> (c: usize)
        ensures
            *final(self) == (CPU { registers: Registers { f: (Flag { zero: old(self).registers.h & 0x40 == 0, subtract: false, half_carry: true, carry: old(self).registers.f.carry }), ..old(self).registers }, ..*old(self) }),
            c == 8,
    {
        self.alu_bit(0x40, self.registers.h);
        8
    }

    /// RES 6,H: no flag effect.
    pub fn res_6_h(&mut self) -> (c: usize)
        ensures
            *final(self) == (CPU { registers: Registers { h: old(self).registers.h & 0xBF, ..old(self).registers }, ..*old(self) }),
            c == 8,
    {
        self.registers.h = self.registers.h & 0xBF;
        8
    }

    /// SET 6,H: no flag effect.
    pub fn set_6_h(&mut self) -> (c: usize)
        ensures
            *final(self) == (CPU { registers: Registers { h: old(self).registers.h | 0x40, ..old(self).registers }, ..*old(self) }),
            c == 8,
    {
        self.registers.h = self.registers.h | 0x40;
        8
    }

    /// BIT 6,L: C is untouched.
    pub fn bit_6_l(&mut self) -> (c: usize)
        ensures
            *final(self) == (CPU { registers: Registers { f: (Flag { zero: old(self).registers.l & 0x40 == 0, subtract: false, half_carry: true, carry: old(self).registers.f.carry }), ..old(self).registers }, ..*old(self) }),
            c == 8,
    {
        self.alu_bit(0x40, self.registers.l);
        8
    }

    /// RES 6,L: no flag effect.
    pub fn res_6_l(&mut self) -> (c: usize)
        ensures
            *final(self) == (CPU { registers: Registers { l: old(self).registers.l & 0xBF, ..old(self).registers }, ..*old(self) }),
            c == 8,
    {
        self.registers.l = self.registers.l & 0xBF;
        8
    }

    /// SET 6,L: no flag effect.
    pub fn set_6_l(&mut self) -> (c: usize)
        ensures
            *final(self) == (CPU { registers: Registers { l: old(self).registers.l | 0x40, ..old(self).registers }, ..*old(self) }),
            c == 8,
    {
        self.registers.l = self.registers.l | 0x40;
        8
    }

    /// BIT 6,A: C is untouched.
    pub fn bit_6_a(&mut self) -> (c: usize)
        ensures
            *final(self) == (CPU { registers: Registers { f: (Flag { zero: old(self).registers.a & 0x40 == 0, subtract: false, half_carry: true, carry: old(self).registers.f.carry }), ..old(self).registers }, ..*old(self) }),
            c == 8,
    {
        self.alu_bit(0x40, self.registers.a);
        8
    }

    /// RES 6,A: no flag effect.
    pub fn res_6_a(&mut self) -> (c: usize)
        ensures
            *final(self) == (CPU { registers: Registers { a: old(self).registers.a & 0xBF, ..old(self).registers }, ..*old(self) }),
            c == 8,
    {
        self.registers.a = self.registers.a & 0xBF;
        8
    }

    /// SET 6,A: no flag effect.
    pub fn set_6_a(&mut self) -> (c: usize)
        ensures
            *final(self) == (CPU { registers: Registers { a: old(self).registers.a | 0x40, ..old(self).registers }, ..*old(self) }),
            c == 8,
    {
        self.registers.a = self.registers.a | 0x40;
        8
    }

    /// BIT 6,(HL): C is untouched.
    pub fn bit_6_hl(&mut self, memory: &AddressBus) -> (c: usize)
        requires
            memory.wf(),
        ensures
            *final(self) == (CPU { registers: Registers { f: (Flag { zero: bus_read_spec(memory@, old(self).registers.hl_spec()) & 0x40 == 0, subtract: false, half_carry: true, carry: old(self).registers.f.carry }), ..old(self).registers }, ..*old(self) }),
            c == 12,
    {
        let hl = self.registers.get_hl();
        let n = memory.read_byte(hl);
        self.alu_bit(0x40, n);
        12
    }

    /// RES 6,(HL): no flag effect.
    pub fn res_6_hl(&mut self, memory: &mut AddressBus) -> (c: usize)
        requires
            old(memory).wf(),
        ensures
            final(memory).wf(),
            *final(self) == (CPU { ..*old(self) }),
            final(memory)@ == bus_write_spec(old(memory)@, old(self).registers.hl_spec(), bus_read_spec(old(memory)@, old(self).registers.hl_spec()) & 0xBF),
            c == 16,
    {
        let hl = self.registers.get_hl();
        let n = memory.read_byte(hl);
        memory.write_byte(hl, n & 0xBF);
        16
    }

    /// SET 6,(HL): no flag effect.
    pub fn set_6_hl(&mut self, memory: &mut AddressBus) -> (c: usize)
        requires
            old(memory).wf(),
        ensures
            final(memory).wf(),
            *final(self) == (CPU { ..*old(self) }),
            final(memory)@ == bus_write_spec(old(memory)@, old(self).registers.hl_spec(), bus_read_spec(old(memory)@, old(self).registers.hl_spec()) | 0x40),
            c == 16,
    {
        let hl = self.registers.get_hl();
        let n = memory.read_byte(hl);
        memory.write_byte(hl, n | 0x40);
        16
    }

    /// BIT 7,B: C is untouched.
    pub fn bit_7_b(&mut self) -> (c: usize)
        ensures
            *final(self) == (CPU { registers: Registers { f: (Flag { zero: old(self).registers.b & 0x80 == 0, subtract: false, half_carry: true, carry: old(self).registers.f.carry }), ..old(self).registers }, ..*old(self) }),
            c == 8,
    {
        self.alu_bit(0x80, self.registers.b);
        8
    }

    /// RES 7,B: no flag effect.
    pub fn res_7_b(&mut self) -> (c: usize)
        ensures
            *final(self) == (CPU { registers: Registers { b: old(self).registers.b & 0x7F, ..old(self).registers }, ..*old(self) }),
            c == 8,
    {
        self.registers.b = self.registers.b & 0x7F;
        8
    }

    /// SET 7,B: no flag effect.
    pub fn set_7_b(&mut self) -> (c: usize)
        ensures
            *final(self) == (CPU { registers: Registers { b: old(self).registers.b | 0x80, ..old(self).registers }, ..*old(self) }),
            c == 8,
    {
        self.registers.b = self.registers.b | 0x80;
        8
    }

    /// BIT 7,C: C is untouched.
    pub fn bit_7_c(&mut self) -> (c: usize)
        ensures
            *final(self) == (CPU { registers: Registers { f: (Flag { zero: old(self).registers.c & 0x80 == 0, subtract: false, half_carry: true, carry: old(self).registers.f.carry }), ..old(self).registers }, ..*old(self) }),
            c == 8,
    {
        self.alu_bit(0x80, self.registers.c);
        8
    }

    /// RES 7,C: no flag effect.
    pub fn res_7_c(&mut self) -> (c: usize)
        ensures
            *final(self) == (CPU { registers: Registers { c: old(self).registers.c & 0x7F, ..old(self).registers }, ..*old(self) }),
            c == 8,
    {
        self.registers.c = self.registers.c & 0x7F;
        8
    }

    /// SET 7,C: no flag effect.
    pub fn set_7_c(&mut self) -> (c: usize)
        ensures
            *final(self) == (CPU { registers: Registers { c: old(self).registers.c | 0x80, ..old(self).registers }, ..*old(self) }),
            c == 8,
    {
        self.registers.c = self.registers.c | 0x80;
        8
    }

    /// BIT 7,D: C is untouched.
    pub fn bit_7_d(&mut self) -> (c: usize)
        ensures
            *final(self) == (CPU { registers: Registers { f: (Flag { zero: old(self).registers.d & 0x80 == 0, subtract: false, half_carry: true, carry: old(self).registers.f.carry }), ..old(self).registers }, ..*old(self) }),
            c == 8,
    {
        self.alu_bit(0x80, self.registers.d);
        8
    }

    /// RES 7,D: no flag effect.
    pub fn res_7_d(&mut self) -> (c: usize)
        ensures
            *final(self) == (CPU { registers: Registers { d: old(self).registers.d & 0x7F, ..old(self).registers }, ..*old(self) }),
            c == 8,
    {
        self.registers.d = self.registers.d & 0x7F;
        8
    }

    /// SET 7,D: no flag effect.
    pub fn set_7_d(&mut self) -> (c: usize)
        ensures
            *final(self) == (CPU { registers: Registers { d: old(self).registers.d | 0x80, ..old(self).registers }, ..*old(self) }),
            c == 8,
    {
        self.registers.d = self.registers.d | 0x80;
        8
    }

    /// BIT 7,E: C is untouched.
    pub fn bit_7_e(&mut self) -> (c: usize)
        ensures
            *final(self) == (CPU { registers: Registers { f: (Flag { zero: old(self).registers.e & 0x80 == 0, subtract: false, half_carry: true, carry: old(self).registers.f.carry }), ..old(self).registers }, ..*old(self) }),
            c == 8,
    {
        self.alu_bit(0x80, self.registers.e);
        8
    }

    /// RES 7,E: no flag effect.
    pub fn res_7_e(&mut self) -> (c: usize)
        ensures
            *final(self) == (CPU { registers: Registers { e: old(self).registers.e & 0x7F, ..old(self).registers }, ..*old(self) }),
            c == 8,
    {
        self.registers.e = self.registers.e & 0x7F;
        8
    }

    /// SET 7,E: no flag effect.
    pub fn set_7_e(&mut self) -> (c: usize)
        ensures
            *final(self) == (CPU { registers: Registers { e: old(self).registers.e | 0x80, ..old(self).registers }, ..*old(self) }),
            c == 8,
    {
        self.registers.e = self.registers.e | 0x80;
        8
    }

    /// BIT 7,H: C is untouched.
    pub fn bit_7_h(&mut self) -> (c: usize)
        ensures
            *final(self) == (CPU { registers: Registers { f: (Flag { zero: old(self).registers.h & 0x80 == 0, subtract: false, half_carry: true, carry: old(self).registers.f.carry }), ..old(self).registers }, ..*old(self) }),
            c == 8,
    {
        self.alu_bit(0x80, self.registers.h);
        8
    }

    /// RES 7,H: no flag effect.
    pub fn res_7_h(&mut self) -> (c: usize)
        ensures
            *final(self) == (CPU { registers: Registers { h: old(self).registers.h & 0x7F, ..old(self).registers }, ..*old(self) }),
            c == 8,
    {
        self.registers.h = self.registers.h & 0x7F;
        8
    }

    /// SET 7,H: no flag effect.
    pub fn set_7_h(&mut self) -> (c: usize)
        ensures
            *final(self) == (CPU { registers: Registers { h: old(self).registers.h | 0x80, ..old(self).registers }, ..*old(self) }),
            c == 8,
    {
        self.registers.h = self.registers.h | 0x80;
        8
    }

    /// BIT 7,L: C is untouched.
    pub fn bit_7_l(&mut self) -> (c: usize)
        ensures
            *final(self) == (CPU { registers: Registers { f: (Flag { zero: old(self).registers.l & 0x80 == 0, subtract: false, half_carry: true, carry: old(self).registers.f.carry }), ..old(self).registers }, ..*old(self) }),
            c == 8,
    {
        self.alu_bit(0x80, self.registers.l);
        8
    }

    /// RES 7,L: no flag effect.
    pub fn res_7_l(&mut self) -> (c: usize)
        ensures
            *final(self) == (CPU { registers: Registers { l: old(self).registers.l & 0x7F, ..old(self).registers }, ..*old(self) }),
            c == 8,
    {
        self.registers.l = self.registers.l & 0x7F;
        8
    }

    /// SET 7,L: no flag effect.
    pub fn set_7_l(&mut self) -> (c: usize)
        ensures
            *final(self) == (CPU { registers: Registers { l: old(self).registers.l | 0x80, ..old(self).registers }, ..*old(self) }),
            c == 8,
    {
        self.registers.l = self.registers.l | 0x80;
        8
    }

    /// BIT 7,A: C is untouched.
    pub fn bit_7_a(&mut self) -> (c: usize)
        ensures
            *final(self) == (CPU { registers: Registers { f: (Flag { zero: old(self).registers.a & 0x80 == 0, subtract: false, half_carry: true, carry: old(self).registers.f.carry }), ..old(self).registers }, ..*old(self) }),
            c == 8,
    {
        self.alu_bit(0x80, self.registers.a);
        8
    }

    /// RES 7,A: no flag effect.
    pub fn res_7_a(&mut self) -> (c: usize)
        ensures
            *final(self) == (CPU { registers: Registers { a: old(self).registers.a & 0x7F, ..old(self).registers }, ..*old(self) }),
            c == 8,
    {
        self.registers.a = self.registers.a & 0x7F;
        8
    }

    /// SET 7,A: no flag effect.
    pub fn set_7_a(&mut self) -> (c: usize)
        ensures
            *final(self) == (CPU { registers: Registers { a: old(self).registers.a | 0x80, ..old(self).registers }, ..*old(self) }),
            c == 8,
    {
        self.registers.a = self.registers.a | 0x80;
        8
    }

    /// BIT 7,(HL): C is untouched.
    pub fn bit_7_hl(&mut self, memory: &AddressBus) -> (c: usize)
        requires
            memory.wf(),
        ensures
            *final(self) == (CPU { registers: Registers { f: (Flag { zero: bus_read_spec(memory@, old(self).registers.hl_spec()) & 0x80 == 0, subtract: false, half_carry: true, carry: old(self).registers.f.carry }), ..old(self).registers }, ..*old(self) }),
            c == 12,
    {
        let hl = self.registers.get_hl();
        let n = memory.read_byte(hl);
        self.alu_bit(0x80, n);
        12
    }

    /// RES 7,(HL): no flag effect.
    pub fn res_7_hl(&mut self, memory: &mut AddressBus) -> (c: usize)
        requires
            old(memory).wf(),
        ensures
            final(memory).wf(),
            *final(self) == (CPU { ..*old(self) }),
            final(memory)@ == bus_write_spec(old(memory)@, old(self).registers.hl_spec(), bus_read_spec(old(memory)@, old(self).registers.hl_spec()) & 0x7F),
            c == 16,
    {
        let hl = self.registers.get_hl();
        let n = memory.read_byte(hl);
        memory.write_byte(hl, n & 0x7F);
        16
    }

    /// SET 7,(HL): no flag effect.
    pub fn set_7_hl(&mut self, memory: &mut AddressBus) -> (c: usize)
        requires
            old(memory).wf(),
        ensures
            final(memory).wf(),
            *final(self) == (CPU { ..*old(self) }),
            final(memory)@ == bus_write_spec(old(memory)@, old(self).registers.hl_spec(), bus_read_spec(old(memory)@, old(self).registers.hl_spec()) | 0x80),
            c == 16,
    {
        let hl = self.registers.get_hl();
        let n = memory.read_byte(hl);
        memory.write_byte(hl, n | 0x80);
        16
    }

}

} // verus!
