use vstd::prelude::*;
use crate::bus::{BusAbs, bus_read16_spec, bus_read_spec, bus_write16_spec, bus_write_spec};
use crate::cpu::{CPU, add16_spec, sub16_spec};
use crate::cpu_alu::{
    add8_spec, add_flags_spec, add_hl_flags_spec, daa_a_spec, daa_flags_spec, dec_flags_spec,
    inc_flags_spec, logic_flags_spec, rl8_spec, rlc8_spec, rot_flags_spec, rr8_spec, rrc8_spec,
    sign_ext_spec, sla8_spec, sp_offset_flags_spec, sra8_spec, srl8_spec, sub8_spec,
    sub_flags_spec, swap8_spec,
};
use crate::cpu::{dispatch_bus_spec, dispatch_cpu_spec, low_bit_spec, pending_spec, sat_add64_spec, undefined_op_spec};
use crate::errors::CoreError;
use crate::flags::{Flag, flag_of_bits_spec};
use crate::regs::{Registers, hi_byte_spec, lo_byte_spec};

verus! {

/// The processor after one 0xCB-prefixed opcode, fetched operands and
/// all.
#[verifier::opaque]
pub open spec fn cb_cpu_spec(cpu: CPU, b: BusAbs, op: u8) -> CPU {
    if op == 0x00 {
        (CPU { registers: Registers { b: rlc8_spec(cpu.registers.b), f: rot_flags_spec(rlc8_spec(cpu.registers.b) == 0, cpu.registers.b / 128 == 1), ..cpu.registers }, ..cpu })
    } else if op == 0x01 {
        (CPU { registers: Registers { c: rlc8_spec(cpu.registers.c), f: rot_flags_spec(rlc8_spec(cpu.registers.c) == 0, cpu.registers.c / 128 == 1), ..cpu.registers }, ..cpu })
    } else if op == 0x02 {
        (CPU { registers: Registers { d: rlc8_spec(cpu.registers.d), f: rot_flags_spec(rlc8_spec(cpu.registers.d) == 0, cpu.registers.d / 128 == 1), ..cpu.registers }, ..cpu })
    } else if op == 0x03 {
        (CPU { registers: Registers { e: rlc8_spec(cpu.registers.e), f: rot_flags_spec(rlc8_spec(cpu.registers.e) == 0, cpu.registers.e / 128 == 1), ..cpu.registers }, ..cpu })
    } else if op == 0x04 {
        (CPU { registers: Registers { h: rlc8_spec(cpu.registers.h), f: rot_flags_spec(rlc8_spec(cpu.registers.h) == 0, cpu.registers.h / 128 == 1), ..cpu.registers }, ..cpu })
    } else if op == 0x05 {
        (CPU { registers: Registers { l: rlc8_spec(cpu.registers.l), f: rot_flags_spec(rlc8_spec(cpu.registers.l) == 0, cpu.registers.l / 128 == 1), ..cpu.registers }, ..cpu })
    } else if op == 0x06 {
        (CPU { registers: Registers { f: rot_flags_spec(rlc8_spec(bus_read_spec(b, cpu.registers.hl_spec())) == 0, bus_read_spec(b, cpu.registers.hl_spec()) / 128 == 1), ..cpu.registers }, ..cpu })
    } else if op == 0x07 {
        (CPU { registers: Registers { a: rlc8_spec(cpu.registers.a), f: rot_flags_spec(rlc8_spec(cpu.registers.a) == 0, cpu.registers.a / 128 == 1), ..cpu.registers }, ..cpu })
    } else if op == 0x08 {
        (CPU { registers: Registers { b: rrc8_spec(cpu.registers.b), f: rot_flags_spec(rrc8_spec(cpu.registers.b) == 0, cpu.registers.b % 2 == 1), ..cpu.registers }, ..cpu })
    } else if op == 0x09 {
        (CPU { registers: Registers { c: rrc8_spec(cpu.registers.c), f: rot_flags_spec(rrc8_spec(cpu.registers.c) == 0, cpu.registers.c % 2 == 1), ..cpu.registers }, ..cpu })
    } else if op == 0x0A {
        (CPU { registers: Registers { d: rrc8_spec(cpu.registers.d), f: rot_flags_spec(rrc8_spec(cpu.registers.d) == 0, cpu.registers.d % 2 == 1), ..cpu.registers }, ..cpu })
    } else if op == 0x0B {
        (CPU { registers: Registers { e: rrc8_spec(cpu.registers.e), f: rot_flags_spec(rrc8_spec(cpu.registers.e) == 0, cpu.registers.e % 2 == 1), ..cpu.registers }, ..cpu })
    } else if op == 0x0C {
        (CPU { registers: Registers { h: rrc8_spec(cpu.registers.h), f: rot_flags_spec(rrc8_spec(cpu.registers.h) == 0, cpu.registers.h % 2 == 1), ..cpu.registers }, ..cpu })
    } else if op == 0x0D {
        (CPU { registers: Registers { l: rrc8_spec(cpu.registers.l), f: rot_flags_spec(rrc8_spec(cpu.registers.l) == 0, cpu.registers.l % 2 == 1), ..cpu.registers }, ..cpu })
    } else if op == 0x0E {
        (CPU { registers: Registers { f: rot_flags_spec(rrc8_spec(bus_read_spec(b, cpu.registers.hl_spec())) == 0, bus_read_spec(b, cpu.registers.hl_spec()) % 2 == 1), ..cpu.registers }, ..cpu })
    } else if op == 0x0F {
        (CPU { registers: Registers { a: rrc8_spec(cpu.registers.a), f: rot_flags_spec(rrc8_spec(cpu.registers.a) == 0, cpu.registers.a % 2 == 1), ..cpu.registers }, ..cpu })
    } else if op == 0x10 {
        (CPU { registers: Registers { b: rl8_spec(cpu.registers.b, cpu.registers.f.carry), f: rot_flags_spec(rl8_spec(cpu.registers.b, cpu.registers.f.carry) == 0, cpu.registers.b / 128 == 1), ..cpu.registers }, ..cpu })
    } else if op == 0x11 {
        (CPU { registers: Registers { c: rl8_spec(cpu.registers.c, cpu.registers.f.carry), f: rot_flags_spec(rl8_spec(cpu.registers.c, cpu.registers.f.carry) == 0, cpu.registers.c / 128 == 1), ..cpu.registers }, ..cpu })
    } else if op == 0x12 {
        (CPU { registers: Registers { d: rl8_spec(cpu.registers.d, cpu.registers.f.carry), f: rot_flags_spec(rl8_spec(cpu.registers.d, cpu.registers.f.carry) == 0, cpu.registers.d / 128 == 1), ..cpu.registers }, ..cpu })
    } else if op == 0x13 {
        (CPU { registers: Registers { e: rl8_spec(cpu.registers.e, cpu.registers.f.carry), f: rot_flags_spec(rl8_spec(cpu.registers.e, cpu.registers.f.carry) == 0, cpu.registers.e / 128 == 1), ..cpu.registers }, ..cpu })
    } else if op == 0x14 {
        (CPU { registers: Registers { h: rl8_spec(cpu.registers.h, cpu.registers.f.carry), f: rot_flags_spec(rl8_spec(cpu.registers.h, cpu.registers.f.carry) == 0, cpu.registers.h / 128 == 1), ..cpu.registers }, ..cpu })
    } else if op == 0x15 {
        (CPU { registers: Registers { l: rl8_spec(cpu.registers.l, cpu.registers.f.carry), f: rot_flags_spec(rl8_spec(cpu.registers.l, cpu.registers.f.carry) == 0, cpu.registers.l / 128 == 1), ..cpu.registers }, ..cpu })
    } else if op == 0x16 {
        (CPU { registers: Registers { f: rot_flags_spec(rl8_spec(bus_read_spec(b, cpu.registers.hl_spec()), cpu.registers.f.carry) == 0, bus_read_spec(b, cpu.registers.hl_spec()) / 128 == 1), ..cpu.registers }, ..cpu })
    } else if op == 0x17 {
        (CPU { registers: Registers { a: rl8_spec(cpu.registers.a, cpu.registers.f.carry), f: rot_flags_spec(rl8_spec(cpu.registers.a, cpu.registers.f.carry) == 0, cpu.registers.a / 128 == 1), ..cpu.registers }, ..cpu })
    } else if op == 0x18 {
        (CPU { registers: Registers { b: rr8_spec(cpu.registers.b, cpu.registers.f.carry), f: rot_flags_spec(rr8_spec(cpu.registers.b, cpu.registers.f.carry) == 0, cpu.registers.b % 2 == 1), ..cpu.registers }, ..cpu })
    } else if op == 0x19 {
        (CPU { registers: Registers { c: rr8_spec(cpu.registers.c, cpu.registers.f.carry), f: rot_flags_spec(rr8_spec(cpu.registers.c, cpu.registers.f.carry) == 0, cpu.registers.c % 2 == 1), ..cpu.registers }, ..cpu })
    } else if op == 0x1A {
        (CPU { registers: Registers { d: rr8_spec(cpu.registers.d, cpu.registers.f.carry), f: rot_flags_spec(rr8_spec(cpu.registers.d, cpu.registers.f.carry) == 0, cpu.registers.d % 2 == 1), ..cpu.registers }, ..cpu })
    } else if op == 0x1B {
        (CPU { registers: Registers { e: rr8_spec(cpu.registers.e, cpu.registers.f.carry), f: rot_flags_spec(rr8_spec(cpu.registers.e, cpu.registers.f.carry) == 0, cpu.registers.e % 2 == 1), ..cpu.registers }, ..cpu })
    } else if op == 0x1C {
        (CPU { registers: Registers { h: rr8_spec(cpu.registers.h, cpu.registers.f.carry), f: rot_flags_spec(rr8_spec(cpu.registers.h, cpu.registers.f.carry) == 0, cpu.registers.h % 2 == 1), ..cpu.registers }, ..cpu })
    } else if op == 0x1D {
        (CPU { registers: Registers { l: rr8_spec(cpu.registers.l, cpu.registers.f.carry), f: rot_flags_spec(rr8_spec(cpu.registers.l, cpu.registers.f.carry) == 0, cpu.registers.l % 2 == 1), ..cpu.registers }, ..cpu })
    } else if op == 0x1E {
        (CPU { registers: Registers { f: rot_flags_spec(rr8_spec(bus_read_spec(b, cpu.registers.hl_spec()), cpu.registers.f.carry) == 0, bus_read_spec(b, cpu.registers.hl_spec()) % 2 == 1), ..cpu.registers }, ..cpu })
    } else if op == 0x1F {
        (CPU { registers: Registers { a: rr8_spec(cpu.registers.a, cpu.registers.f.carry), f: rot_flags_spec(rr8_spec(cpu.registers.a, cpu.registers.f.carry) == 0, cpu.registers.a % 2 == 1), ..cpu.registers }, ..cpu })
    } else if op == 0x20 {
        (CPU { registers: Registers { b: sla8_spec(cpu.registers.b), f: rot_flags_spec(sla8_spec(cpu.registers.b) == 0, cpu.registers.b / 128 == 1), ..cpu.registers }, ..cpu })
    } else if op == 0x21 {
        (CPU { registers: Registers { c: sla8_spec(cpu.registers.c), f: rot_flags_spec(sla8_spec(cpu.registers.c) == 0, cpu.registers.c / 128 == 1), ..cpu.registers }, ..cpu })
    } else if op == 0x22 {
        (CPU { registers: Registers { d: sla8_spec(cpu.registers.d), f: rot_flags_spec(sla8_spec(cpu.registers.d) == 0, cpu.registers.d / 128 == 1), ..cpu.registers }, ..cpu })
    } else if op == 0x23 {
        (CPU { registers: Registers { e: sla8_spec(cpu.registers.e), f: rot_flags_spec(sla8_spec(cpu.registers.e) == 0, cpu.registers.e / 128 == 1), ..cpu.registers }, ..cpu })
    } else if op == 0x24 {
        (CPU { registers: Registers { h: sla8_spec(cpu.registers.h), f: rot_flags_spec(sla8_spec(cpu.registers.h) == 0, cpu.registers.h / 128 == 1), ..cpu.registers }, ..cpu })
    } else if op == 0x25 {
        (CPU { registers: Registers { l: sla8_spec(cpu.registers.l), f: rot_flags_spec(sla8_spec(cpu.registers.l) == 0, cpu.registers.l / 128 == 1), ..cpu.registers }, ..cpu })
    } else if op == 0x26 {
        (CPU { registers: Registers { f: rot_flags_spec(sla8_spec(bus_read_spec(b, cpu.registers.hl_spec())) == 0, bus_read_spec(b, cpu.registers.hl_spec()) / 128 == 1), ..cpu.registers }, ..cpu })
    } else if op == 0x27 {
        (CPU { registers: Registers { a: sla8_spec(cpu.registers.a), f: rot_flags_spec(sla8_spec(cpu.registers.a) == 0, cpu.registers.a / 128 == 1), ..cpu.registers }, ..cpu })
    } else if op == 0x28 {
        (CPU { registers: Registers { b: sra8_spec(cpu.registers.b), f: rot_flags_spec(sra8_spec(cpu.registers.b) == 0, cpu.registers.b % 2 == 1), ..cpu.registers }, ..cpu })
    } else if op == 0x29 {
        (CPU { registers: Registers { c: sra8_spec(cpu.registers.c), f: rot_flags_spec(sra8_spec(cpu.registers.c) == 0, cpu.registers.c % 2 == 1), ..cpu.registers }, ..cpu })
    } else if op == 0x2A {
        (CPU { registers: Registers { d: sra8_spec(cpu.registers.d), f: rot_flags_spec(sra8_spec(cpu.registers.d) == 0, cpu.registers.d % 2 == 1), ..cpu.registers }, ..cpu })
    } else if op == 0x2B {
        (CPU { registers: Registers { e: sra8_spec(cpu.registers.e), f: rot_flags_spec(sra8_spec(cpu.registers.e) == 0, cpu.registers.e % 2 == 1), ..cpu.registers }, ..cpu })
    } else if op == 0x2C {
        (CPU { registers: Registers { h: sra8_spec(cpu.registers.h), f: rot_flags_spec(sra8_spec(cpu.registers.h) == 0, cpu.registers.h % 2 == 1), ..cpu.registers }, ..cpu })
    } else if op == 0x2D {
        (CPU { registers: Registers { l: sra8_spec(cpu.registers.l), f: rot_flags_spec(sra8_spec(cpu.registers.l) == 0, cpu.registers.l % 2 == 1), ..cpu.registers }, ..cpu })
    } else if op == 0x2E {
        (CPU { registers: Registers { f: rot_flags_spec(sra8_spec(bus_read_spec(b, cpu.registers.hl_spec())) == 0, bus_read_spec(b, cpu.registers.hl_spec()) % 2 == 1), ..cpu.registers }, ..cpu })
    } else if op == 0x2F {
        (CPU { registers: Registers { a: sra8_spec(cpu.registers.a), f: rot_flags_spec(sra8_spec(cpu.registers.a) == 0, cpu.registers.a % 2 == 1), ..cpu.registers }, ..cpu })
    } else if op == 0x30 {
        (CPU { registers: Registers { b: swap8_spec(cpu.registers.b), f: rot_flags_spec(swap8_spec(cpu.registers.b) == 0, false), ..cpu.registers }, ..cpu })
    } else if op == 0x31 {
        (CPU { registers: Registers { c: swap8_spec(cpu.registers.c), f: rot_flags_spec(swap8_spec(cpu.registers.c) == 0, false), ..cpu.registers }, ..cpu })
    } else if op == 0x32 {
        (CPU { registers: Registers { d: swap8_spec(cpu.registers.d), f: rot_flags_spec(swap8_spec(cpu.registers.d) == 0, false), ..cpu.registers }, ..cpu })
    } else if op == 0x33 {
        (CPU { registers: Registers { e: swap8_spec(cpu.registers.e), f: rot_flags_spec(swap8_spec(cpu.registers.e) == 0, false), ..cpu.registers }, ..cpu })
    } else if op == 0x34 {
        (CPU { registers: Registers { h: swap8_spec(cpu.registers.h), f: rot_flags_spec(swap8_spec(cpu.registers.h) == 0, false), ..cpu.registers }, ..cpu })
    } else if op == 0x35 {
        (CPU { registers: Registers { l: swap8_spec(cpu.registers.l), f: rot_flags_spec(swap8_spec(cpu.registers.l) == 0, false), ..cpu.registers }, ..cpu })
    } else if op == 0x36 {
        (CPU { registers: Registers { f: rot_flags_spec(swap8_spec(bus_read_spec(b, cpu.registers.hl_spec())) == 0, false), ..cpu.registers }, ..cpu })
    } else if op == 0x37 {
        (CPU { registers: Registers { a: swap8_spec(cpu.registers.a), f: rot_flags_spec(swap8_spec(cpu.registers.a) == 0, false), ..cpu.registers }, ..cpu })
    } else if op == 0x38 {
        (CPU { registers: Registers { b: srl8_spec(cpu.registers.b), f: rot_flags_spec(srl8_spec(cpu.registers.b) == 0, cpu.registers.b % 2 == 1), ..cpu.registers }, ..cpu })
    } else if op == 0x39 {
        (CPU { registers: Registers { c: srl8_spec(cpu.registers.c), f: rot_flags_spec(srl8_spec(cpu.registers.c) == 0, cpu.registers.c % 2 == 1), ..cpu.registers }, ..cpu })
    } else if op == 0x3A {
        (CPU { registers: Registers { d: srl8_spec(cpu.registers.d), f: rot_flags_spec(srl8_spec(cpu.registers.d) == 0, cpu.registers.d % 2 == 1), ..cpu.registers }, ..cpu })
    } else if op == 0x3B {
        (CPU { registers: Registers { e: srl8_spec(cpu.registers.e), f: rot_flags_spec(srl8_spec(cpu.registers.e) == 0, cpu.registers.e % 2 == 1), ..cpu.registers }, ..cpu })
    } else if op == 0x3C {
        (CPU { registers: Registers { h: srl8_spec(cpu.registers.h), f: rot_flags_spec(srl8_spec(cpu.registers.h) == 0, cpu.registers.h % 2 == 1), ..cpu.registers }, ..cpu })
    } else if op == 0x3D {
        (CPU { registers: Registers { l: srl8_spec(cpu.registers.l), f: rot_flags_spec(srl8_spec(cpu.registers.l) == 0, cpu.registers.l % 2 == 1), ..cpu.registers }, ..cpu })
    } else if op == 0x3E {
        (CPU { registers: Registers { f: rot_flags_spec(srl8_spec(bus_read_spec(b, cpu.registers.hl_spec())) == 0, bus_read_spec(b, cpu.registers.hl_spec()) % 2 == 1), ..cpu.registers }, ..cpu })
    } else if op == 0x3F {
        (CPU { registers: Registers { a: srl8_spec(cpu.registers.a), f: rot_flags_spec(srl8_spec(cpu.registers.a) == 0, cpu.registers.a % 2 == 1), ..cpu.registers }, ..cpu })
    } else if op == 0x40 {
        (CPU { registers: Registers { f: (Flag { zero: cpu.registers.b & 0x01 == 0, subtract: false, half_carry: true, carry: cpu.registers.f.carry }), ..cpu.registers }, ..cpu })
    } else if op == 0x41 {
        (CPU { registers: Registers { f: (Flag { zero: cpu.registers.c & 0x01 == 0, subtract: false, half_carry: true, carry: cpu.registers.f.carry }), ..cpu.registers }, ..cpu })
    } else if op == 0x42 {
        (CPU { registers: Registers { f: (Flag { zero: cpu.registers.d & 0x01 == 0, subtract: false, half_carry: true, carry: cpu.registers.f.carry }), ..cpu.registers }, ..cpu })
    } else if op == 0x43 {
        (CPU { registers: Registers { f: (Flag { zero: cpu.registers.e & 0x01 == 0, subtract: false, half_carry: true, carry: cpu.registers.f.carry }), ..cpu.registers }, ..cpu })
    } else if op == 0x44 {
        (CPU { registers: Registers { f: (Flag { zero: cpu.registers.h & 0x01 == 0, subtract: false, half_carry: true, carry: cpu.registers.f.carry }), ..cpu.registers }, ..cpu })
    } else if op == 0x45 {
        (CPU { registers: Registers { f: (Flag { zero: cpu.registers.l & 0x01 == 0, subtract: false, half_carry: true, carry: cpu.registers.f.carry }), ..cpu.registers }, ..cpu })
    } else if op == 0x46 {
        (CPU { registers: Registers { f: (Flag { zero: bus_read_spec(b, cpu.registers.hl_spec()) & 0x01 == 0, subtract: false, half_carry: true, carry: cpu.registers.f.carry }), ..cpu.registers }, ..cpu })
    } else if op == 0x47 {
        (CPU { registers: Registers { f: (Flag { zero: cpu.registers.a & 0x01 == 0, subtract: false, half_carry: true, carry: cpu.registers.f.carry }), ..cpu.registers }, ..cpu })
    } else if op == 0x48 {
        (CPU { registers: Registers { f: (Flag { zero: cpu.registers.b & 0x02 == 0, subtract: false, half_carry: true, carry: cpu.registers.f.carry }), ..cpu.registers }, ..cpu })
    } else if op == 0x49 {
        (CPU { registers: Registers { f: (Flag { zero: cpu.registers.c & 0x02 == 0, subtract: false, half_carry: true, carry: cpu.registers.f.carry }), ..cpu.registers }, ..cpu })
    } else if op == 0x4A {
        (CPU { registers: Registers { f: (Flag { zero: cpu.registers.d & 0x02 == 0, subtract: false, half_carry: true, carry: cpu.registers.f.carry }), ..cpu.registers }, ..cpu })
    } else if op == 0x4B {
        (CPU { registers: Registers { f: (Flag { zero: cpu.registers.e & 0x02 == 0, subtract: false, half_carry: true, carry: cpu.registers.f.carry }), ..cpu.registers }, ..cpu })
    } else if op == 0x4C {
        (CPU { registers: Registers { f: (Flag { zero: cpu.registers.h & 0x02 == 0, subtract: false, half_carry: true, carry: cpu.registers.f.carry }), ..cpu.registers }, ..cpu })
    } else if op == 0x4D {
        (CPU { registers: Registers { f: (Flag { zero: cpu.registers.l & 0x02 == 0, subtract: false, half_carry: true, carry: cpu.registers.f.carry }), ..cpu.registers }, ..cpu })
    } else if op == 0x4E {
        (CPU { registers: Registers { f: (Flag { zero: bus_read_spec(b, cpu.registers.hl_spec()) & 0x02 == 0, subtract: false, half_carry: true, carry: cpu.registers.f.carry }), ..cpu.registers }, ..cpu })
    } else if op == 0x4F {
        (CPU { registers: Registers { f: (Flag { zero: cpu.registers.a & 0x02 == 0, subtract: false, half_carry: true, carry: cpu.registers.f.carry }), ..cpu.registers }, ..cpu })
    } else if op == 0x50 {
        (CPU { registers: Registers { f: (Flag { zero: cpu.registers.b & 0x04 == 0, subtract: false, half_carry: true, carry: cpu.registers.f.carry }), ..cpu.registers }, ..cpu })
    } else if op == 0x51 {
        (CPU { registers: Registers { f: (Flag { zero: cpu.registers.c & 0x04 == 0, subtract: false, half_carry: true, carry: cpu.registers.f.carry }), ..cpu.registers }, ..cpu })
    } else if op == 0x52 {
        (CPU { registers: Registers { f: (Flag { zero: cpu.registers.d & 0x04 == 0, subtract: false, half_carry: true, carry: cpu.registers.f.carry }), ..cpu.registers }, ..cpu })
    } else if op == 0x53 {
        (CPU { registers: Registers { f: (Flag { zero: cpu.registers.e & 0x04 == 0, subtract: false, half_carry: true, carry: cpu.registers.f.carry }), ..cpu.registers }, ..cpu })
    } else if op == 0x54 {
        (CPU { registers: Registers { f: (Flag { zero: cpu.registers.h & 0x04 == 0, subtract: false, half_carry: true, carry: cpu.registers.f.carry }), ..cpu.registers }, ..cpu })
    } else if op == 0x55 {
        (CPU { registers: Registers { f: (Flag { zero: cpu.registers.l & 0x04 == 0, subtract: false, half_carry: true, carry: cpu.registers.f.carry }), ..cpu.registers }, ..cpu })
    } else if op == 0x56 {
        (CPU { registers: Registers { f: (Flag { zero: bus_read_spec(b, cpu.registers.hl_spec()) & 0x04 == 0, subtract: false, half_carry: true, carry: cpu.registers.f.carry }), ..cpu.registers }, ..cpu })
    } else if op == 0x57 {
        (CPU { registers: Registers { f: (Flag { zero: cpu.registers.a & 0x04 == 0, subtract: false, half_carry: true, carry: cpu.registers.f.carry }), ..cpu.registers }, ..cpu })
    } else if op == 0x58 {
        (CPU { registers: Registers { f: (Flag { zero: cpu.registers.b & 0x08 == 0, subtract: false, half_carry: true, carry: cpu.registers.f.carry }), ..cpu.registers }, ..cpu })
    } else if op == 0x59 {
        (CPU { registers: Registers { f: (Flag { zero: cpu.registers.c & 0x08 == 0, subtract: false, half_carry: true, carry: cpu.registers.f.carry }), ..cpu.registers }, ..cpu })
    } else if op == 0x5A {
        (CPU { registers: Registers { f: (Flag { zero: cpu.registers.d & 0x08 == 0, subtract: false, half_carry: true, carry: cpu.registers.f.carry }), ..cpu.registers }, ..cpu })
    } else if op == 0x5B {
        (CPU { registers: Registers { f: (Flag { zero: cpu.registers.e & 0x08 == 0, subtract: false, half_carry: true, carry: cpu.registers.f.carry }), ..cpu.registers }, ..cpu })
    } else if op == 0x5C {
        (CPU { registers: Registers { f: (Flag { zero: cpu.registers.h & 0x08 == 0, subtract: false, half_carry: true, carry: cpu.registers.f.carry }), ..cpu.registers }, ..cpu })
    } else if op == 0x5D {
        (CPU { registers: Registers { f: (Flag { zero: cpu.registers.l & 0x08 == 0, subtract: false, half_carry: true, carry: cpu.registers.f.carry }), ..cpu.registers }, ..cpu })
    } else if op == 0x5E {
        (CPU { registers: Registers { f: (Flag { zero: bus_read_spec(b, cpu.registers.hl_spec()) & 0x08 == 0, subtract: false, half_carry: true, carry: cpu.registers.f.carry }), ..cpu.registers }, ..cpu })
    } else if op == 0x5F {
        (CPU { registers: Registers { f: (Flag { zero: cpu.registers.a & 0x08 == 0, subtract: false, half_carry: true, carry: cpu.registers.f.carry }), ..cpu.registers }, ..cpu })
    } else if op == 0x60 {
        (CPU { registers: Registers { f: (Flag { zero: cpu.registers.b & 0x10 == 0, subtract: false, half_carry: true, carry: cpu.registers.f.carry }), ..cpu.registers }, ..cpu })
    } else if op == 0x61 {
        (CPU { registers: Registers { f: (Flag { zero: cpu.registers.c & 0x10 == 0, subtract: false, half_carry: true, carry: cpu.registers.f.carry }), ..cpu.registers }, ..cpu })
    } else if op == 0x62 {
        (CPU { registers: Registers { f: (Flag { zero: cpu.registers.d & 0x10 == 0, subtract: false, half_carry: true, carry: cpu.registers.f.carry }), ..cpu.registers }, ..cpu })
    } else if op == 0x63 {
        (CPU { registers: Registers { f: (Flag { zero: cpu.registers.e & 0x10 == 0, subtract: false, half_carry: true, carry: cpu.registers.f.carry }), ..cpu.registers }, ..cpu })
    } else if op == 0x64 {
        (CPU { registers: Registers { f: (Flag { zero: cpu.registers.h & 0x10 == 0, subtract: false, half_carry: true, carry: cpu.registers.f.carry }), ..cpu.registers }, ..cpu })
    } else if op == 0x65 {
        (CPU { registers: Registers { f: (Flag { zero: cpu.registers.l & 0x10 == 0, subtract: false, half_carry: true, carry: cpu.registers.f.carry }), ..cpu.registers }, ..cpu })
    } else if op == 0x66 {
        (CPU { registers: Registers { f: (Flag { zero: bus_read_spec(b, cpu.registers.hl_spec()) & 0x10 == 0, subtract: false, half_carry: true, carry: cpu.registers.f.carry }), ..cpu.registers }, ..cpu })
    } else if op == 0x67 {
        (CPU { registers: Registers { f: (Flag { zero: cpu.registers.a & 0x10 == 0, subtract: false, half_carry: true, carry: cpu.registers.f.carry }), ..cpu.registers }, ..cpu })
    } else if op == 0x68 {
        (CPU { registers: Registers { f: (Flag { zero: cpu.registers.b & 0x20 == 0, subtract: false, half_carry: true, carry: cpu.registers.f.carry }), ..cpu.registers }, ..cpu })
    } else if op == 0x69 {
        (CPU { registers: Registers { f: (Flag { zero: cpu.registers.c & 0x20 == 0, subtract: false, half_carry: true, carry: cpu.registers.f.carry }), ..cpu.registers }, ..cpu })
    } else if op == 0x6A {
        (CPU { registers: Registers { f: (Flag { zero: cpu.registers.d & 0x20 == 0, subtract: false, half_carry: true, carry: cpu.registers.f.carry }), ..cpu.registers }, ..cpu })
    } else if op == 0x6B {
        (CPU { registers: Registers { f: (Flag { zero: cpu.registers.e & 0x20 == 0, subtract: false, half_carry: true, carry: cpu.registers.f.carry }), ..cpu.registers }, ..cpu })
    } else if op == 0x6C {
        (CPU { registers: Registers { f: (Flag { zero: cpu.registers.h & 0x20 == 0, subtract: false, half_carry: true, carry: cpu.registers.f.carry }), ..cpu.registers }, ..cpu })
    } else if op == 0x6D {
        (CPU { registers: Registers { f: (Flag { zero: cpu.registers.l & 0x20 == 0, subtract: false, half_carry: true, carry: cpu.registers.f.carry }), ..cpu.registers }, ..cpu })
    } else if op == 0x6E {
        (CPU { registers: Registers { f: (Flag { zero: bus_read_spec(b, cpu.registers.hl_spec()) & 0x20 == 0, subtract: false, half_carry: true, carry: cpu.registers.f.carry }), ..cpu.registers }, ..cpu })
    } else if op == 0x6F {
        (CPU { registers: Registers { f: (Flag { zero: cpu.registers.a & 0x20 == 0, subtract: false, half_carry: true, carry: cpu.registers.f.carry }), ..cpu.registers }, ..cpu })
    } else if op == 0x70 {
        (CPU { registers: Registers { f: (Flag { zero: cpu.registers.b & 0x40 == 0, subtract: false, half_carry: true, carry: cpu.registers.f.carry }), ..cpu.registers }, ..cpu })
    } else if op == 0x71 {
        (CPU { registers: Registers { f: (Flag { zero: cpu.registers.c & 0x40 == 0, subtract: false, half_carry: true, carry: cpu.registers.f.carry }), ..cpu.registers }, ..cpu })
    } else if op == 0x72 {
        (CPU { registers: Registers { f: (Flag { zero: cpu.registers.d & 0x40 == 0, subtract: false, half_carry: true, carry: cpu.registers.f.carry }), ..cpu.registers }, ..cpu })
    } else if op == 0x73 {
        (CPU { registers: Registers { f: (Flag { zero: cpu.registers.e & 0x40 == 0, subtract: false, half_carry: true, carry: cpu.registers.f.carry }), ..cpu.registers }, ..cpu })
    } else if op == 0x74 {
        (CPU { registers: Registers { f: (Flag { zero: cpu.registers.h & 0x40 == 0, subtract: false, half_carry: true, carry: cpu.registers.f.carry }), ..cpu.registers }, ..cpu })
    } else if op == 0x75 {
        (CPU { registers: Registers { f: (Flag { zero: cpu.registers.l & 0x40 == 0, subtract: false, half_carry: true, carry: cpu.registers.f.carry }), ..cpu.registers }, ..cpu })
    } else if op == 0x76 {
        (CPU { registers: Registers { f: (Flag { zero: bus_read_spec(b, cpu.registers.hl_spec()) & 0x40 == 0, subtract: false, half_carry: true, carry: cpu.registers.f.carry }), ..cpu.registers }, ..cpu })
    } else if op == 0x77 {
        (CPU { registers: Registers { f: (Flag { zero: cpu.registers.a & 0x40 == 0, subtract: false, half_carry: true, carry: cpu.registers.f.carry }), ..cpu.registers }, ..cpu })
    } else if op == 0x78 {
        (CPU { registers: Registers { f: (Flag { zero: cpu.registers.b & 0x80 == 0, subtract: false, half_carry: true, carry: cpu.registers.f.carry }), ..cpu.registers }, ..cpu })
    } else if op == 0x79 {
        (CPU { registers: Registers { f: (Flag { zero: cpu.registers.c & 0x80 == 0, subtract: false, half_carry: true, carry: cpu.registers.f.carry }), ..cpu.registers }, ..cpu })
    } else if op == 0x7A {
        (CPU { registers: Registers { f: (Flag { zero: cpu.registers.d & 0x80 == 0, subtract: false, half_carry: true, carry: cpu.registers.f.carry }), ..cpu.registers }, ..cpu })
    } else if op == 0x7B {
        (CPU { registers: Registers { f: (Flag { zero: cpu.registers.e & 0x80 == 0, subtract: false, half_carry: true, carry: cpu.registers.f.carry }), ..cpu.registers }, ..cpu })
    } else if op == 0x7C {
        (CPU { registers: Registers { f: (Flag { zero: cpu.registers.h & 0x80 == 0, subtract: false, half_carry: true, carry: cpu.registers.f.carry }), ..cpu.registers }, ..cpu })
    } else if op == 0x7D {
        (CPU { registers: Registers { f: (Flag { zero: cpu.registers.l & 0x80 == 0, subtract: false, half_carry: true, carry: cpu.registers.f.carry }), ..cpu.registers }, ..cpu })
    } else if op == 0x7E {
        (CPU { registers: Registers { f: (Flag { zero: bus_read_spec(b, cpu.registers.hl_spec()) & 0x80 == 0, subtract: false, half_carry: true, carry: cpu.registers.f.carry }), ..cpu.registers }, ..cpu })
    } else if op == 0x7F {
        (CPU { registers: Registers { f: (Flag { zero: cpu.registers.a & 0x80 == 0, subtract: false, half_carry: true, carry: cpu.registers.f.carry }), ..cpu.registers }, ..cpu })
    } else if op == 0x80 {
        (CPU { registers: Registers { b: cpu.registers.b & 0xFE, ..cpu.registers }, ..cpu })
    } else if op == 0x81 {
        (CPU { registers: Registers { c: cpu.registers.c & 0xFE, ..cpu.registers }, ..cpu })
    } else if op == 0x82 {
        (CPU { registers: Registers { d: cpu.registers.d & 0xFE, ..cpu.registers }, ..cpu })
    } else if op == 0x83 {
        (CPU { registers: Registers { e: cpu.registers.e & 0xFE, ..cpu.registers }, ..cpu })
    } else if op == 0x84 {
        (CPU { registers: Registers { h: cpu.registers.h & 0xFE, ..cpu.registers }, ..cpu })
    } else if op == 0x85 {
        (CPU { registers: Registers { l: cpu.registers.l & 0xFE, ..cpu.registers }, ..cpu })
    } else if op == 0x86 {
        (CPU { ..cpu })
    } else if op == 0x87 {
        (CPU { registers: Registers { a: cpu.registers.a & 0xFE, ..cpu.registers }, ..cpu })
    } else if op == 0x88 {
        (CPU { registers: Registers { b: cpu.registers.b & 0xFD, ..cpu.registers }, ..cpu })
    } else if op == 0x89 {
        (CPU { registers: Registers { c: cpu.registers.c & 0xFD, ..cpu.registers }, ..cpu })
    } else if op == 0x8A {
        (CPU { registers: Registers { d: cpu.registers.d & 0xFD, ..cpu.registers }, ..cpu })
    } else if op == 0x8B {
        (CPU { registers: Registers { e: cpu.registers.e & 0xFD, ..cpu.registers }, ..cpu })
    } else if op == 0x8C {
        (CPU { registers: Registers { h: cpu.registers.h & 0xFD, ..cpu.registers }, ..cpu })
    } else if op == 0x8D {
        (CPU { registers: Registers { l: cpu.registers.l & 0xFD, ..cpu.registers }, ..cpu })
    } else if op == 0x8E {
        (CPU { ..cpu })
    } else if op == 0x8F {
        (CPU { registers: Registers { a: cpu.registers.a & 0xFD, ..cpu.registers }, ..cpu })
    } else if op == 0x90 {
        (CPU { registers: Registers { b: cpu.registers.b & 0xFB, ..cpu.registers }, ..cpu })
    } else if op == 0x91 {
        (CPU { registers: Registers { c: cpu.registers.c & 0xFB, ..cpu.registers }, ..cpu })
    } else if op == 0x92 {
        (CPU { registers: Registers { d: cpu.registers.d & 0xFB, ..cpu.registers }, ..cpu })
    } else if op == 0x93 {
        (CPU { registers: Registers { e: cpu.registers.e & 0xFB, ..cpu.registers }, ..cpu })
    } else if op == 0x94 {
        (CPU { registers: Registers { h: cpu.registers.h & 0xFB, ..cpu.registers }, ..cpu })
    } else if op == 0x95 {
        (CPU { registers: Registers { l: cpu.registers.l & 0xFB, ..cpu.registers }, ..cpu })
    } else if op == 0x96 {
        (CPU { ..cpu })
    } else if op == 0x97 {
        (CPU { registers: Registers { a: cpu.registers.a & 0xFB, ..cpu.registers }, ..cpu })
    } else if op == 0x98 {
        (CPU { registers: Registers { b: cpu.registers.b & 0xF7, ..cpu.registers }, ..cpu })
    } else if op == 0x99 {
        (CPU { registers: Registers { c: cpu.registers.c & 0xF7, ..cpu.registers }, ..cpu })
    } else if op == 0x9A {
        (CPU { registers: Registers { d: cpu.registers.d & 0xF7, ..cpu.registers }, ..cpu })
    } else if op == 0x9B {
        (CPU { registers: Registers { e: cpu.registers.e & 0xF7, ..cpu.registers }, ..cpu })
    } else if op == 0x9C {
        (CPU { registers: Registers { h: cpu.registers.h & 0xF7, ..cpu.registers }, ..cpu })
    } else if op == 0x9D {
        (CPU { registers: Registers { l: cpu.registers.l & 0xF7, ..cpu.registers }, ..cpu })
    } else if op == 0x9E {
        (CPU { ..cpu })
    } else if op == 0x9F {
        (CPU { registers: Registers { a: cpu.registers.a & 0xF7, ..cpu.registers }, ..cpu })
    } else if op == 0xA0 {
        (CPU { registers: Registers { b: cpu.registers.b & 0xEF, ..cpu.registers }, ..cpu })
    } else if op == 0xA1 {
        (CPU { registers: Registers { c: cpu.registers.c & 0xEF, ..cpu.registers }, ..cpu })
    } else if op == 0xA2 {
        (CPU { registers: Registers { d: cpu.registers.d & 0xEF, ..cpu.registers }, ..cpu })
    } else if op == 0xA3 {
        (CPU { registers: Registers { e: cpu.registers.e & 0xEF, ..cpu.registers }, ..cpu })
    } else if op == 0xA4 {
        (CPU { registers: Registers { h: cpu.registers.h & 0xEF, ..cpu.registers }, ..cpu })
    } else if op == 0xA5 {
        (CPU { registers: Registers { l: cpu.registers.l & 0xEF, ..cpu.registers }, ..cpu })
    } else if op == 0xA6 {
        (CPU { ..cpu })
    } else if op == 0xA7 {
        (CPU { registers: Registers { a: cpu.registers.a & 0xEF, ..cpu.registers }, ..cpu })
    } else if op == 0xA8 {
        (CPU { registers: Registers { b: cpu.registers.b & 0xDF, ..cpu.registers }, ..cpu })
    } else if op == 0xA9 {
        (CPU { registers: Registers { c: cpu.registers.c & 0xDF, ..cpu.registers }, ..cpu })
    } else if op == 0xAA {
        (CPU { registers: Registers { d: cpu.registers.d & 0xDF, ..cpu.registers }, ..cpu })
    } else if op == 0xAB {
        (CPU { registers: Registers { e: cpu.registers.e & 0xDF, ..cpu.registers }, ..cpu })
    } else if op == 0xAC {
        (CPU { registers: Registers { h: cpu.registers.h & 0xDF, ..cpu.registers }, ..cpu })
    } else if op == 0xAD {
        (CPU { registers: Registers { l: cpu.registers.l & 0xDF, ..cpu.registers }, ..cpu })
    } else if op == 0xAE {
        (CPU { ..cpu })
    } else if op == 0xAF {
        (CPU { registers: Registers { a: cpu.registers.a & 0xDF, ..cpu.registers }, ..cpu })
    } else if op == 0xB0 {
        (CPU { registers: Registers { b: cpu.registers.b & 0xBF, ..cpu.registers }, ..cpu })
    } else if op == 0xB1 {
        (CPU { registers: Registers { c: cpu.registers.c & 0xBF, ..cpu.registers }, ..cpu })
    } else if op == 0xB2 {
        (CPU { registers: Registers { d: cpu.registers.d & 0xBF, ..cpu.registers }, ..cpu })
    } else if op == 0xB3 {
        (CPU { registers: Registers { e: cpu.registers.e & 0xBF, ..cpu.registers }, ..cpu })
    } else if op == 0xB4 {
        (CPU { registers: Registers { h: cpu.registers.h & 0xBF, ..cpu.registers }, ..cpu })
    } else if op == 0xB5 {
        (CPU { registers: Registers { l: cpu.registers.l & 0xBF, ..cpu.registers }, ..cpu })
    } else if op == 0xB6 {
        (CPU { ..cpu })
    } else if op == 0xB7 {
        (CPU { registers: Registers { a: cpu.registers.a & 0xBF, ..cpu.registers }, ..cpu })
    } else if op == 0xB8 {
        (CPU { registers: Registers { b: cpu.registers.b & 0x7F, ..cpu.registers }, ..cpu })
    } else if op == 0xB9 {
        (CPU { registers: Registers { c: cpu.registers.c & 0x7F, ..cpu.registers }, ..cpu })
    } else if op == 0xBA {
        (CPU { registers: Registers { d: cpu.registers.d & 0x7F, ..cpu.registers }, ..cpu })
    } else if op == 0xBB {
        (CPU { registers: Registers { e: cpu.registers.e & 0x7F, ..cpu.registers }, ..cpu })
    } else if op == 0xBC {
        (CPU { registers: Registers { h: cpu.registers.h & 0x7F, ..cpu.registers }, ..cpu })
    } else if op == 0xBD {
        (CPU { registers: Registers { l: cpu.registers.l & 0x7F, ..cpu.registers }, ..cpu })
    } else if op == 0xBE {
        (CPU { ..cpu })
    } else if op == 0xBF {
        (CPU { registers: Registers { a: cpu.registers.a & 0x7F, ..cpu.registers }, ..cpu })
    } else if op == 0xC0 {
        (CPU { registers: Registers { b: cpu.registers.b | 0x01, ..cpu.registers }, ..cpu })
    } else if op == 0xC1 {
        (CPU { registers: Registers { c: cpu.registers.c | 0x01, ..cpu.registers }, ..cpu })
    } else if op == 0xC2 {
        (CPU { registers: Registers { d: cpu.registers.d | 0x01, ..cpu.registers }, ..cpu })
    } else if op == 0xC3 {
        (CPU { registers: Registers { e: cpu.registers.e | 0x01, ..cpu.registers }, ..cpu })
    } else if op == 0xC4 {
        (CPU { registers: Registers { h: cpu.registers.h | 0x01, ..cpu.registers }, ..cpu })
    } else if op == 0xC5 {
        (CPU { registers: Registers { l: cpu.registers.l | 0x01, ..cpu.registers }, ..cpu })
    } else if op == 0xC6 {
        (CPU { ..cpu })
    } else if op == 0xC7 {
        (CPU { registers: Registers { a: cpu.registers.a | 0x01, ..cpu.registers }, ..cpu })
    } else if op == 0xC8 {
        (CPU { registers: Registers { b: cpu.registers.b | 0x02, ..cpu.registers }, ..cpu })
    } else if op == 0xC9 {
        (CPU { registers: Registers { c: cpu.registers.c | 0x02, ..cpu.registers }, ..cpu })
    } else if op == 0xCA {
        (CPU { registers: Registers { d: cpu.registers.d | 0x02, ..cpu.registers }, ..cpu })
    } else if op == 0xCB {
        (CPU { registers: Registers { e: cpu.registers.e | 0x02, ..cpu.registers }, ..cpu })
    } else if op == 0xCC {
        (CPU { registers: Registers { h: cpu.registers.h | 0x02, ..cpu.registers }, ..cpu })
    } else if op == 0xCD {
        (CPU { registers: Registers { l: cpu.registers.l | 0x02, ..cpu.registers }, ..cpu })
    } else if op == 0xCE {
        (CPU { ..cpu })
    } else if op == 0xCF {
        (CPU { registers: Registers { a: cpu.registers.a | 0x02, ..cpu.registers }, ..cpu })
    } else if op == 0xD0 {
        (CPU { registers: Registers { b: cpu.registers.b | 0x04, ..cpu.registers }, ..cpu })
    } else if op == 0xD1 {
        (CPU { registers: Registers { c: cpu.registers.c | 0x04, ..cpu.registers }, ..cpu })
    } else if op == 0xD2 {
        (CPU { registers: Registers { d: cpu.registers.d | 0x04, ..cpu.registers }, ..cpu })
    } else if op == 0xD3 {
        (CPU { registers: Registers { e: cpu.registers.e | 0x04, ..cpu.registers }, ..cpu })
    } else if op == 0xD4 {
        (CPU { registers: Registers { h: cpu.registers.h | 0x04, ..cpu.registers }, ..cpu })
    } else if op == 0xD5 {
        (CPU { registers: Registers { l: cpu.registers.l | 0x04, ..cpu.registers }, ..cpu })
    } else if op == 0xD6 {
        (CPU { ..cpu })
    } else if op == 0xD7 {
        (CPU { registers: Registers { a: cpu.registers.a | 0x04, ..cpu.registers }, ..cpu })
    } else if op == 0xD8 {
        (CPU { registers: Registers { b: cpu.registers.b | 0x08, ..cpu.registers }, ..cpu })
    } else if op == 0xD9 {
        (CPU { registers: Registers { c: cpu.registers.c | 0x08, ..cpu.registers }, ..cpu })
    } else if op == 0xDA {
        (CPU { registers: Registers { d: cpu.registers.d | 0x08, ..cpu.registers }, ..cpu })
    } else if op == 0xDB {
        (CPU { registers: Registers { e: cpu.registers.e | 0x08, ..cpu.registers }, ..cpu })
    } else if op == 0xDC {
        (CPU { registers: Registers { h: cpu.registers.h | 0x08, ..cpu.registers }, ..cpu })
    } else if op == 0xDD {
        (CPU { registers: Registers { l: cpu.registers.l | 0x08, ..cpu.registers }, ..cpu })
    } else if op == 0xDE {
        (CPU { ..cpu })
    } else if op == 0xDF {
        (CPU { registers: Registers { a: cpu.registers.a | 0x08, ..cpu.registers }, ..cpu })
    } else if op == 0xE0 {
        (CPU { registers: Registers { b: cpu.registers.b | 0x10, ..cpu.registers }, ..cpu })
    } else if op == 0xE1 {
        (CPU { registers: Registers { c: cpu.registers.c | 0x10, ..cpu.registers }, ..cpu })
    } else if op == 0xE2 {
        (CPU { registers: Registers { d: cpu.registers.d | 0x10, ..cpu.registers }, ..cpu })
    } else if op == 0xE3 {
        (CPU { registers: Registers { e: cpu.registers.e | 0x10, ..cpu.registers }, ..cpu })
    } else if op == 0xE4 {
        (CPU { registers: Registers { h: cpu.registers.h | 0x10, ..cpu.registers }, ..cpu })
    } else if op == 0xE5 {
        (CPU { registers: Registers { l: cpu.registers.l | 0x10, ..cpu.registers }, ..cpu })
    } else if op == 0xE6 {
        (CPU { ..cpu })
    } else if op == 0xE7 {
        (CPU { registers: Registers { a: cpu.registers.a | 0x10, ..cpu.registers }, ..cpu })
    } else if op == 0xE8 {
        (CPU { registers: Registers { b: cpu.registers.b | 0x20, ..cpu.registers }, ..cpu })
    } else if op == 0xE9 {
        (CPU { registers: Registers { c: cpu.registers.c | 0x20, ..cpu.registers }, ..cpu })
    } else if op == 0xEA {
        (CPU { registers: Registers { d: cpu.registers.d | 0x20, ..cpu.registers }, ..cpu })
    } else if op == 0xEB {
        (CPU { registers: Registers { e: cpu.registers.e | 0x20, ..cpu.registers }, ..cpu })
    } else if op == 0xEC {
        (CPU { registers: Registers { h: cpu.registers.h | 0x20, ..cpu.registers }, ..cpu })
    } else if op == 0xED {
        (CPU { registers: Registers { l: cpu.registers.l | 0x20, ..cpu.registers }, ..cpu })
    } else if op == 0xEE {
        (CPU { ..cpu })
    } else if op == 0xEF {
        (CPU { registers: Registers { a: cpu.registers.a | 0x20, ..cpu.registers }, ..cpu })
    } else if op == 0xF0 {
        (CPU { registers: Registers { b: cpu.registers.b | 0x40, ..cpu.registers }, ..cpu })
    } else if op == 0xF1 {
        (CPU { registers: Registers { c: cpu.registers.c | 0x40, ..cpu.registers }, ..cpu })
    } else if op == 0xF2 {
        (CPU { registers: Registers { d: cpu.registers.d | 0x40, ..cpu.registers }, ..cpu })
    } else if op == 0xF3 {
        (CPU { registers: Registers { e: cpu.registers.e | 0x40, ..cpu.registers }, ..cpu })
    } else if op == 0xF4 {
        (CPU { registers: Registers { h: cpu.registers.h | 0x40, ..cpu.registers }, ..cpu })
    } else if op == 0xF5 {
        (CPU { registers: Registers { l: cpu.registers.l | 0x40, ..cpu.registers }, ..cpu })
    } else if op == 0xF6 {
        (CPU { ..cpu })
    } else if op == 0xF7 {
        (CPU { registers: Registers { a: cpu.registers.a | 0x40, ..cpu.registers }, ..cpu })
    } else if op == 0xF8 {
        (CPU { registers: Registers { b: cpu.registers.b | 0x80, ..cpu.registers }, ..cpu })
    } else if op == 0xF9 {
        (CPU { registers: Registers { c: cpu.registers.c | 0x80, ..cpu.registers }, ..cpu })
    } else if op == 0xFA {
        (CPU { registers: Registers { d: cpu.registers.d | 0x80, ..cpu.registers }, ..cpu })
    } else if op == 0xFB {
        (CPU { registers: Registers { e: cpu.registers.e | 0x80, ..cpu.registers }, ..cpu })
    } else if op == 0xFC {
        (CPU { registers: Registers { h: cpu.registers.h | 0x80, ..cpu.registers }, ..cpu })
    } else if op == 0xFD {
        (CPU { registers: Registers { l: cpu.registers.l | 0x80, ..cpu.registers }, ..cpu })
    } else if op == 0xFE {
        (CPU { ..cpu })
    } else {
        (CPU { registers: Registers { a: cpu.registers.a | 0x80, ..cpu.registers }, ..cpu })
    }
}

/// The bus after one 0xCB-prefixed opcode.
#[verifier::opaque]
pub open spec fn cb_bus_spec(cpu: CPU, b: BusAbs, op: u8) -> BusAbs {
    if op == 0x00 {
        b
    } else if op == 0x01 {
        b
    } else if op == 0x02 {
        b
    } else if op == 0x03 {
        b
    } else if op == 0x04 {
        b
    } else if op == 0x05 {
        b
    } else if op == 0x06 {
        bus_write_spec(b, cpu.registers.hl_spec(), rlc8_spec(bus_read_spec(b, cpu.registers.hl_spec())))
    } else if op == 0x07 {
        b
    } else if op == 0x08 {
        b
    } else if op == 0x09 {
        b
    } else if op == 0x0A {
        b
    } else if op == 0x0B {
        b
    } else if op == 0x0C {
        b
    } else if op == 0x0D {
        b
    } else if op == 0x0E {
        bus_write_spec(b, cpu.registers.hl_spec(), rrc8_spec(bus_read_spec(b, cpu.registers.hl_spec())))
    } else if op == 0x0F {
        b
    } else if op == 0x10 {
        b
    } else if op == 0x11 {
        b
    } else if op == 0x12 {
        b
    } else if op == 0x13 {
        b
    } else if op == 0x14 {
        b
    } else if op == 0x15 {
        b
    } else if op == 0x16 {
        bus_write_spec(b, cpu.registers.hl_spec(), rl8_spec(bus_read_spec(b, cpu.registers.hl_spec()), cpu.registers.f.carry))
    } else if op == 0x17 {
        b
    } else if op == 0x18 {
        b
    } else if op == 0x19 {
        b
    } else if op == 0x1A {
        b
    } else if op == 0x1B {
        b
    } else if op == 0x1C {
        b
    } else if op == 0x1D {
        b
    } else if op == 0x1E {
        bus_write_spec(b, cpu.registers.hl_spec(), rr8_spec(bus_read_spec(b, cpu.registers.hl_spec()), cpu.registers.f.carry))
    } else if op == 0x1F {
        b
    } else if op == 0x20 {
        b
    } else if op == 0x21 {
        b
    } else if op == 0x22 {
        b
    } else if op == 0x23 {
        b
    } else if op == 0x24 {
        b
    } else if op == 0x25 {
        b
    } else if op == 0x26 {
        bus_write_spec(b, cpu.registers.hl_spec(), sla8_spec(bus_read_spec(b, cpu.registers.hl_spec())))
    } else if op == 0x27 {
        b
    } else if op == 0x28 {
        b
    } else if op == 0x29 {
        b
    } else if op == 0x2A {
        b
    } else if op == 0x2B {
        b
    } else if op == 0x2C {
        b
    } else if op == 0x2D {
        b
    } else if op == 0x2E {
        bus_write_spec(b, cpu.registers.hl_spec(), sra8_spec(bus_read_spec(b, cpu.registers.hl_spec())))
    } else if op == 0x2F {
        b
    } else if op == 0x30 {
        b
    } else if op == 0x31 {
        b
    } else if op == 0x32 {
        b
    } else if op == 0x33 {
        b
    } else if op == 0x34 {
        b
    } else if op == 0x35 {
        b
    } else if op == 0x36 {
        bus_write_spec(b, cpu.registers.hl_spec(), swap8_spec(bus_read_spec(b, cpu.registers.hl_spec())))
    } else if op == 0x37 {
        b
    } else if op == 0x38 {
        b
    } else if op == 0x39 {
        b
    } else if op == 0x3A {
        b
    } else if op == 0x3B {
        b
    } else if op == 0x3C {
        b
    } else if op == 0x3D {
        b
    } else if op == 0x3E {
        bus_write_spec(b, cpu.registers.hl_spec(), srl8_spec(bus_read_spec(b, cpu.registers.hl_spec())))
    } else if op == 0x3F {
        b
    } else if op == 0x40 {
        b
    } else if op == 0x41 {
        b
    } else if op == 0x42 {
        b
    } else if op == 0x43 {
        b
    } else if op == 0x44 {
        b
    } else if op == 0x45 {
        b
    } else if op == 0x46 {
        b
    } else if op == 0x47 {
        b
    } else if op == 0x48 {
        b
    } else if op == 0x49 {
        b
    } else if op == 0x4A {
        b
    } else if op == 0x4B {
        b
    } else if op == 0x4C {
        b
    } else if op == 0x4D {
        b
    } else if op == 0x4E {
        b
    } else if op == 0x4F {
        b
    } else if op == 0x50 {
        b
    } else if op == 0x51 {
        b
    } else if op == 0x52 {
        b
    } else if op == 0x53 {
        b
    } else if op == 0x54 {
        b
    } else if op == 0x55 {
        b
    } else if op == 0x56 {
        b
    } else if op == 0x57 {
        b
    } else if op == 0x58 {
        b
    } else if op == 0x59 {
        b
    } else if op == 0x5A {
        b
    } else if op == 0x5B {
        b
    } else if op == 0x5C {
        b
    } else if op == 0x5D {
        b
    } else if op == 0x5E {
        b
    } else if op == 0x5F {
        b
    } else if op == 0x60 {
        b
    } else if op == 0x61 {
        b
    } else if op == 0x62 {
        b
    } else if op == 0x63 {
        b
    } else if op == 0x64 {
        b
    } else if op == 0x65 {
        b
    } else if op == 0x66 {
        b
    } else if op == 0x67 {
        b
    } else if op == 0x68 {
        b
    } else if op == 0x69 {
        b
    } else if op == 0x6A {
        b
    } else if op == 0x6B {
        b
    } else if op == 0x6C {
        b
    } else if op == 0x6D {
        b
    } else if op == 0x6E {
        b
    } else if op == 0x6F {
        b
    } else if op == 0x70 {
        b
    } else if op == 0x71 {
        b
    } else if op == 0x72 {
        b
    } else if op == 0x73 {
        b
    } else if op == 0x74 {
        b
    } else if op == 0x75 {
        b
    } else if op == 0x76 {
        b
    } else if op == 0x77 {
        b
    } else if op == 0x78 {
        b
    } else if op == 0x79 {
        b
    } else if op == 0x7A {
        b
    } else if op == 0x7B {
        b
    } else if op == 0x7C {
        b
    } else if op == 0x7D {
        b
    } else if op == 0x7E {
        b
    } else if op == 0x7F {
        b
    } else if op == 0x80 {
        b
    } else if op == 0x81 {
        b
    } else if op == 0x82 {
        b
    } else if op == 0x83 {
        b
    } else if op == 0x84 {
        b
    } else if op == 0x85 {
        b
    } else if op == 0x86 {
        bus_write_spec(b, cpu.registers.hl_spec(), bus_read_spec(b, cpu.registers.hl_spec()) & 0xFE)
    } else if op == 0x87 {
        b
    } else if op == 0x88 {
        b
    } else if op == 0x89 {
        b
    } else if op == 0x8A {
        b
    } else if op == 0x8B {
        b
    } else if op == 0x8C {
        b
    } else if op == 0x8D {
        b
    } else if op == 0x8E {
        bus_write_spec(b, cpu.registers.hl_spec(), bus_read_spec(b, cpu.registers.hl_spec()) & 0xFD)
    } else if op == 0x8F {
        b
    } else if op == 0x90 {
        b
    } else if op == 0x91 {
        b
    } else if op == 0x92 {
        b
    } else if op == 0x93 {
        b
    } else if op == 0x94 {
        b
    } else if op == 0x95 {
        b
    } else if op == 0x96 {
        bus_write_spec(b, cpu.registers.hl_spec(), bus_read_spec(b, cpu.registers.hl_spec()) & 0xFB)
    } else if op == 0x97 {
        b
    } else if op == 0x98 {
        b
    } else if op == 0x99 {
        b
    } else if op == 0x9A {
        b
    } else if op == 0x9B {
        b
    } else if op == 0x9C {
        b
    } else if op == 0x9D {
        b
    } else if op == 0x9E {
        bus_write_spec(b, cpu.registers.hl_spec(), bus_read_spec(b, cpu.registers.hl_spec()) & 0xF7)
    } else if op == 0x9F {
        b
    } else if op == 0xA0 {
        b
    } else if op == 0xA1 {
        b
    } else if op == 0xA2 {
        b
    } else if op == 0xA3 {
        b
    } else if op == 0xA4 {
        b
    } else if op == 0xA5 {
        b
    } else if op == 0xA6 {
        bus_write_spec(b, cpu.registers.hl_spec(), bus_read_spec(b, cpu.registers.hl_spec()) & 0xEF)
    } else if op == 0xA7 {
        b
    } else if op == 0xA8 {
        b
    } else if op == 0xA9 {
        b
    } else if op == 0xAA {
        b
    } else if op == 0xAB {
        b
    } else if op == 0xAC {
        b
    } else if op == 0xAD {
        b
    } else if op == 0xAE {
        bus_write_spec(b, cpu.registers.hl_spec(), bus_read_spec(b, cpu.registers.hl_spec()) & 0xDF)
    } else if op == 0xAF {
        b
    } else if op == 0xB0 {
        b
    } else if op == 0xB1 {
        b
    } else if op == 0xB2 {
        b
    } else if op == 0xB3 {
        b
    } else if op == 0xB4 {
        b
    } else if op == 0xB5 {
        b
    } else if op == 0xB6 {
        bus_write_spec(b, cpu.registers.hl_spec(), bus_read_spec(b, cpu.registers.hl_spec()) & 0xBF)
    } else if op == 0xB7 {
        b
    } else if op == 0xB8 {
        b
    } else if op == 0xB9 {
        b
    } else if op == 0xBA {
        b
    } else if op == 0xBB {
        b
    } else if op == 0xBC {
        b
    } else if op == 0xBD {
        b
    } else if op == 0xBE {
        bus_write_spec(b, cpu.registers.hl_spec(), bus_read_spec(b, cpu.registers.hl_spec()) & 0x7F)
    } else if op == 0xBF {
        b
    } else if op == 0xC0 {
        b
    } else if op == 0xC1 {
        b
    } else if op == 0xC2 {
        b
    } else if op == 0xC3 {
        b
    } else if op == 0xC4 {
        b
    } else if op == 0xC5 {
        b
    } else if op == 0xC6 {
        bus_write_spec(b, cpu.registers.hl_spec(), bus_read_spec(b, cpu.registers.hl_spec()) | 0x01)
    } else if op == 0xC7 {
        b
    } else if op == 0xC8 {
        b
    } else if op == 0xC9 {
        b
    } else if op == 0xCA {
        b
    } else if op == 0xCB {
        b
    } else if op == 0xCC {
        b
    } else if op == 0xCD {
        b
    } else if op == 0xCE {
        bus_write_spec(b, cpu.registers.hl_spec(), bus_read_spec(b, cpu.registers.hl_spec()) | 0x02)
    } else if op == 0xCF {
        b
    } else if op == 0xD0 {
        b
    } else if op == 0xD1 {
        b
    } else if op == 0xD2 {
        b
    } else if op == 0xD3 {
        b
    } else if op == 0xD4 {
        b
    } else if op == 0xD5 {
        b
    } else if op == 0xD6 {
        bus_write_spec(b, cpu.registers.hl_spec(), bus_read_spec(b, cpu.registers.hl_spec()) | 0x04)
    } else if op == 0xD7 {
        b
    } else if op == 0xD8 {
        b
    } else if op == 0xD9 {
        b
    } else if op == 0xDA {
        b
    } else if op == 0xDB {
        b
    } else if op == 0xDC {
        b
    } else if op == 0xDD {
        b
    } else if op == 0xDE {
        bus_write_spec(b, cpu.registers.hl_spec(), bus_read_spec(b, cpu.registers.hl_spec()) | 0x08)
    } else if op == 0xDF {
        b
    } else if op == 0xE0 {
        b
    } else if op == 0xE1 {
        b
    } else if op == 0xE2 {
        b
    } else if op == 0xE3 {
        b
    } else if op == 0xE4 {
        b
    } else if op == 0xE5 {
        b
    } else if op == 0xE6 {
        bus_write_spec(b, cpu.registers.hl_spec(), bus_read_spec(b, cpu.registers.hl_spec()) | 0x10)
    } else if op == 0xE7 {
        b
    } else if op == 0xE8 {
        b
    } else if op == 0xE9 {
        b
    } else if op == 0xEA {
        b
    } else if op == 0xEB {
        b
    } else if op == 0xEC {
        b
    } else if op == 0xED {
        b
    } else if op == 0xEE {
        bus_write_spec(b, cpu.registers.hl_spec(), bus_read_spec(b, cpu.registers.hl_spec()) | 0x20)
    } else if op == 0xEF {
        b
    } else if op == 0xF0 {
        b
    } else if op == 0xF1 {
        b
    } else if op == 0xF2 {
        b
    } else if op == 0xF3 {
        b
    } else if op == 0xF4 {
        b
    } else if op == 0xF5 {
        b
    } else if op == 0xF6 {
        bus_write_spec(b, cpu.registers.hl_spec(), bus_read_spec(b, cpu.registers.hl_spec()) | 0x40)
    } else if op == 0xF7 {
        b
    } else if op == 0xF8 {
        b
    } else if op == 0xF9 {
        b
    } else if op == 0xFA {
        b
    } else if op == 0xFB {
        b
    } else if op == 0xFC {
        b
    } else if op == 0xFD {
        b
    } else if op == 0xFE {
        bus_write_spec(b, cpu.registers.hl_spec(), bus_read_spec(b, cpu.registers.hl_spec()) | 0x80)
    } else {
        b
    }
}

/// The cycle cost of one 0xCB-prefixed opcode.
#[verifier::opaque]
pub open spec fn cb_cycles_spec(cpu: CPU, b: BusAbs, op: u8) -> usize {
    if op == 0x00 {
        8usize
    } else if op == 0x01 {
        8usize
    } else if op == 0x02 {
        8usize
    } else if op == 0x03 {
        8usize
    } else if op == 0x04 {
        8usize
    } else if op == 0x05 {
        8usize
    } else if op == 0x06 {
        16usize
    } else if op == 0x07 {
        8usize
    } else if op == 0x08 {
        8usize
    } else if op == 0x09 {
        8usize
    } else if op == 0x0A {
        8usize
    } else if op == 0x0B {
        8usize
    } else if op == 0x0C {
        8usize
    } else if op == 0x0D {
        8usize
    } else if op == 0x0E {
        16usize
    } else if op == 0x0F {
        8usize
    } else if op == 0x10 {
        8usize
    } else if op == 0x11 {
        8usize
    } else if op == 0x12 {
        8usize
    } else if op == 0x13 {
        8usize
    } else if op == 0x14 {
        8usize
    } else if op == 0x15 {
        8usize
    } else if op == 0x16 {
        16usize
    } else if op == 0x17 {
        8usize
    } else if op == 0x18 {
        8usize
    } else if op == 0x19 {
        8usize
    } else if op == 0x1A {
        8usize
    } else if op == 0x1B {
        8usize
    } else if op == 0x1C {
        8usize
    } else if op == 0x1D {
        8usize
    } else if op == 0x1E {
        16usize
    } else if op == 0x1F {
        8usize
    } else if op == 0x20 {
        8usize
    } else if op == 0x21 {
        8usize
    } else if op == 0x22 {
        8usize
    } else if op == 0x23 {
        8usize
    } else if op == 0x24 {
        8usize
    } else if op == 0x25 {
        8usize
    } else if op == 0x26 {
        16usize
    } else if op == 0x27 {
        8usize
    } else if op == 0x28 {
        8usize
    } else if op == 0x29 {
        8usize
    } else if op == 0x2A {
        8usize
    } else if op == 0x2B {
        8usize
    } else if op == 0x2C {
        8usize
    } else if op == 0x2D {
        8usize
    } else if op == 0x2E {
        16usize
    } else if op == 0x2F {
        8usize
    } else if op == 0x30 {
        8usize
    } else if op == 0x31 {
        8usize
    } else if op == 0x32 {
        8usize
    } else if op == 0x33 {
        8usize
    } else if op == 0x34 {
        8usize
    } else if op == 0x35 {
        8usize
    } else if op == 0x36 {
        16usize
    } else if op == 0x37 {
        8usize
    } else if op == 0x38 {
        8usize
    } else if op == 0x39 {
        8usize
    } else if op == 0x3A {
        8usize
    } else if op == 0x3B {
        8usize
    } else if op == 0x3C {
        8usize
    } else if op == 0x3D {
        8usize
    } else if op == 0x3E {
        16usize
    } else if op == 0x3F {
        8usize
    } else if op == 0x40 {
        8usize
    } else if op == 0x41 {
        8usize
    } else if op == 0x42 {
        8usize
    } else if op == 0x43 {
        8usize
    } else if op == 0x44 {
        8usize
    } else if op == 0x45 {
        8usize
    } else if op == 0x46 {
        12usize
    } else if op == 0x47 {
        8usize
    } else if op == 0x48 {
        8usize
    } else if op == 0x49 {
        8usize
    } else if op == 0x4A {
        8usize
    } else if op == 0x4B {
        8usize
    } else if op == 0x4C {
        8usize
    } else if op == 0x4D {
        8usize
    } else if op == 0x4E {
        12usize
    } else if op == 0x4F {
        8usize
    } else if op == 0x50 {
        8usize
    } else if op == 0x51 {
        8usize
    } else if op == 0x52 {
        8usize
    } else if op == 0x53 {
        8usize
    } else if op == 0x54 {
        8usize
    } else if op == 0x55 {
        8usize
    } else if op == 0x56 {
        12usize
    } else if op == 0x57 {
        8usize
    } else if op == 0x58 {
        8usize
    } else if op == 0x59 {
        8usize
    } else if op == 0x5A {
        8usize
    } else if op == 0x5B {
        8usize
    } else if op == 0x5C {
        8usize
    } else if op == 0x5D {
        8usize
    } else if op == 0x5E {
        12usize
    } else if op == 0x5F {
        8usize
    } else if op == 0x60 {
        8usize
    } else if op == 0x61 {
        8usize
    } else if op == 0x62 {
        8usize
    } else if op == 0x63 {
        8usize
    } else if op == 0x64 {
        8usize
    } else if op == 0x65 {
        8usize
    } else if op == 0x66 {
        12usize
    } else if op == 0x67 {
        8usize
    } else if op == 0x68 {
        8usize
    } else if op == 0x69 {
        8usize
    } else if op == 0x6A {
        8usize
    } else if op == 0x6B {
        8usize
    } else if op == 0x6C {
        8usize
    } else if op == 0x6D {
        8usize
    } else if op == 0x6E {
        12usize
    } else if op == 0x6F {
        8usize
    } else if op == 0x70 {
        8usize
    } else if op == 0x71 {
        8usize
    } else if op == 0x72 {
        8usize
    } else if op == 0x73 {
        8usize
    } else if op == 0x74 {
        8usize
    } else if op == 0x75 {
        8usize
    } else if op == 0x76 {
        12usize
    } else if op == 0x77 {
        8usize
    } else if op == 0x78 {
        8usize
    } else if op == 0x79 {
        8usize
    } else if op == 0x7A {
        8usize
    } else if op == 0x7B {
        8usize
    } else if op == 0x7C {
        8usize
    } else if op == 0x7D {
        8usize
    } else if op == 0x7E {
        12usize
    } else if op == 0x7F {
        8usize
    } else if op == 0x80 {
        8usize
    } else if op == 0x81 {
        8usize
    } else if op == 0x82 {
        8usize
    } else if op == 0x83 {
        8usize
    } else if op == 0x84 {
        8usize
    } else if op == 0x85 {
        8usize
    } else if op == 0x86 {
        16usize
    } else if op == 0x87 {
        8usize
    } else if op == 0x88 {
        8usize
    } else if op == 0x89 {
        8usize
    } else if op == 0x8A {
        8usize
    } else if op == 0x8B {
        8usize
    } else if op == 0x8C {
        8usize
    } else if op == 0x8D {
        8usize
    } else if op == 0x8E {
        16usize
    } else if op == 0x8F {
        8usize
    } else if op == 0x90 {
        8usize
    } else if op == 0x91 {
        8usize
    } else if op == 0x92 {
        8usize
    } else if op == 0x93 {
        8usize
    } else if op == 0x94 {
        8usize
    } else if op == 0x95 {
        8usize
    } else if op == 0x96 {
        16usize
    } else if op == 0x97 {
        8usize
    } else if op == 0x98 {
        8usize
    } else if op == 0x99 {
        8usize
    } else if op == 0x9A {
        8usize
    } else if op == 0x9B {
        8usize
    } else if op == 0x9C {
        8usize
    } else if op == 0x9D {
        8usize
    } else if op == 0x9E {
        16usize
    } else if op == 0x9F {
        8usize
    } else if op == 0xA0 {
        8usize
    } else if op == 0xA1 {
        8usize
    } else if op == 0xA2 {
        8usize
    } else if op == 0xA3 {
        8usize
    } else if op == 0xA4 {
        8usize
    } else if op == 0xA5 {
        8usize
    } else if op == 0xA6 {
        16usize
    } else if op == 0xA7 {
        8usize
    } else if op == 0xA8 {
        8usize
    } else if op == 0xA9 {
        8usize
    } else if op == 0xAA {
        8usize
    } else if op == 0xAB {
        8usize
    } else if op == 0xAC {
        8usize
    } else if op == 0xAD {
        8usize
    } else if op == 0xAE {
        16usize
    } else if op == 0xAF {
        8usize
    } else if op == 0xB0 {
        8usize
    } else if op == 0xB1 {
        8usize
    } else if op == 0xB2 {
        8usize
    } else if op == 0xB3 {
        8usize
    } else if op == 0xB4 {
        8usize
    } else if op == 0xB5 {
        8usize
    } else if op == 0xB6 {
        16usize
    } else if op == 0xB7 {
        8usize
    } else if op == 0xB8 {
        8usize
    } else if op == 0xB9 {
        8usize
    } else if op == 0xBA {
        8usize
    } else if op == 0xBB {
        8usize
    } else if op == 0xBC {
        8usize
    } else if op == 0xBD {
        8usize
    } else if op == 0xBE {
        16usize
    } else if op == 0xBF {
        8usize
    } else if op == 0xC0 {
        8usize
    } else if op == 0xC1 {
        8usize
    } else if op == 0xC2 {
        8usize
    } else if op == 0xC3 {
        8usize
    } else if op == 0xC4 {
        8usize
    } else if op == 0xC5 {
        8usize
    } else if op == 0xC6 {
        16usize
    } else if op == 0xC7 {
        8usize
    } else if op == 0xC8 {
        8usize
    } else if op == 0xC9 {
        8usize
    } else if op == 0xCA {
        8usize
    } else if op == 0xCB {
        8usize
    } else if op == 0xCC {
        8usize
    } else if op == 0xCD {
        8usize
    } else if op == 0xCE {
        16usize
    } else if op == 0xCF {
        8usize
    } else if op == 0xD0 {
        8usize
    } else if op == 0xD1 {
        8usize
    } else if op == 0xD2 {
        8usize
    } else if op == 0xD3 {
        8usize
    } else if op == 0xD4 {
        8usize
    } else if op == 0xD5 {
        8usize
    } else if op == 0xD6 {
        16usize
    } else if op == 0xD7 {
        8usize
    } else if op == 0xD8 {
        8usize
    } else if op == 0xD9 {
        8usize
    } else if op == 0xDA {
        8usize
    } else if op == 0xDB {
        8usize
    } else if op == 0xDC {
        8usize
    } else if op == 0xDD {
        8usize
    } else if op == 0xDE {
        16usize
    } else if op == 0xDF {
        8usize
    } else if op == 0xE0 {
        8usize
    } else if op == 0xE1 {
        8usize
    } else if op == 0xE2 {
        8usize
    } else if op == 0xE3 {
        8usize
    } else if op == 0xE4 {
        8usize
    } else if op == 0xE5 {
        8usize
    } else if op == 0xE6 {
        16usize
    } else if op == 0xE7 {
        8usize
    } else if op == 0xE8 {
        8usize
    } else if op == 0xE9 {
        8usize
    } else if op == 0xEA {
        8usize
    } else if op == 0xEB {
        8usize
    } else if op == 0xEC {
        8usize
    } else if op == 0xED {
        8usize
    } else if op == 0xEE {
        16usize
    } else if op == 0xEF {
        8usize
    } else if op == 0xF0 {
        8usize
    } else if op == 0xF1 {
        8usize
    } else if op == 0xF2 {
        8usize
    } else if op == 0xF3 {
        8usize
    } else if op == 0xF4 {
        8usize
    } else if op == 0xF5 {
        8usize
    } else if op == 0xF6 {
        16usize
    } else if op == 0xF7 {
        8usize
    } else if op == 0xF8 {
        8usize
    } else if op == 0xF9 {
        8usize
    } else if op == 0xFA {
        8usize
    } else if op == 0xFB {
        8usize
    } else if op == 0xFC {
        8usize
    } else if op == 0xFD {
        8usize
    } else if op == 0xFE {
        16usize
    } else {
        8usize
    }
}

/// The processor after one primary opcode executes, from the state just
/// past the opcode fetch. The opcode-map holes leave it unchanged.
#[verifier::opaque]
pub open spec fn exec_cpu_spec(cpu: CPU, b: BusAbs, op: u8) -> CPU {
    if op == 0x00 {
        (CPU { ..cpu })
    } else if op == 0x01 {
        (CPU { registers: Registers { b: hi_byte_spec(bus_read16_spec(b, cpu.registers.pc)), c: lo_byte_spec(bus_read16_spec(b, cpu.registers.pc)), pc: add16_spec(cpu.registers.pc, 2), ..cpu.registers }, ..cpu })
    } else if op == 0x02 {
        (CPU { ..cpu })
    } else if op == 0x03 {
        (CPU { registers: Registers { b: hi_byte_spec(add16_spec(cpu.registers.bc_spec(), 1)), c: lo_byte_spec(add16_spec(cpu.registers.bc_spec(), 1)), ..cpu.registers }, ..cpu })
    } else if op == 0x04 {
        (CPU { registers: Registers { b: add8_spec(cpu.registers.b, 1, 0), f: inc_flags_spec(cpu.registers.b, cpu.registers.f), ..cpu.registers }, ..cpu })
    } else if op == 0x05 {
        (CPU { registers: Registers { b: sub8_spec(cpu.registers.b, 1, 0), f: dec_flags_spec(cpu.registers.b, cpu.registers.f), ..cpu.registers }, ..cpu })
    } else if op == 0x06 {
        (CPU { registers: Registers { b: bus_read_spec(b, cpu.registers.pc), pc: add16_spec(cpu.registers.pc, 1), ..cpu.registers }, ..cpu })
    } else if op == 0x07 {
        (CPU { registers: Registers { a: rlc8_spec(cpu.registers.a), f: rot_flags_spec(false, cpu.registers.a / 128 == 1), ..cpu.registers }, ..cpu })
    } else if op == 0x08 {
        (CPU { registers: Registers { pc: add16_spec(cpu.registers.pc, 2), ..cpu.registers }, ..cpu })
    } else if op == 0x09 {
        (CPU { registers: Registers { h: hi_byte_spec(add16_spec(cpu.registers.hl_spec(), cpu.registers.bc_spec())), l: lo_byte_spec(add16_spec(cpu.registers.hl_spec(), cpu.registers.bc_spec())), f: add_hl_flags_spec(cpu.registers.hl_spec(), cpu.registers.bc_spec(), cpu.registers.f), ..cpu.registers }, ..cpu })
    } else if op == 0x0A {
        (CPU { registers: Registers { a: bus_read_spec(b, cpu.registers.bc_spec()), ..cpu.registers }, ..cpu })
    } else if op == 0x0B {
        (CPU { registers: Registers { b: hi_byte_spec(sub16_spec(cpu.registers.bc_spec(), 1)), c: lo_byte_spec(sub16_spec(cpu.registers.bc_spec(), 1)), ..cpu.registers }, ..cpu })
    } else if op == 0x0C {
        (CPU { registers: Registers { c: add8_spec(cpu.registers.c, 1, 0), f: inc_flags_spec(cpu.registers.c, cpu.registers.f), ..cpu.registers }, ..cpu })
    } else if op == 0x0D {
        (CPU { registers: Registers { c: sub8_spec(cpu.registers.c, 1, 0), f: dec_flags_spec(cpu.registers.c, cpu.registers.f), ..cpu.registers }, ..cpu })
    } else if op == 0x0E {
        (CPU { registers: Registers { c: bus_read_spec(b, cpu.registers.pc), pc: add16_spec(cpu.registers.pc, 1), ..cpu.registers }, ..cpu })
    } else if op == 0x0F {
        (CPU { registers: Registers { a: rrc8_spec(cpu.registers.a), f: rot_flags_spec(false, cpu.registers.a % 2 == 1), ..cpu.registers }, ..cpu })
    } else if op == 0x10 {
        cpu
    } else if op == 0x11 {
        (CPU { registers: Registers { d: hi_byte_spec(bus_read16_spec(b, cpu.registers.pc)), e: lo_byte_spec(bus_read16_spec(b, cpu.registers.pc)), pc: add16_spec(cpu.registers.pc, 2), ..cpu.registers }, ..cpu })
    } else if op == 0x12 {
        (CPU { ..cpu })
    } else if op == 0x13 {
        (CPU { registers: Registers { d: hi_byte_spec(add16_spec(cpu.registers.de_spec(), 1)), e: lo_byte_spec(add16_spec(cpu.registers.de_spec(), 1)), ..cpu.registers }, ..cpu })
    } else if op == 0x14 {
        (CPU { registers: Registers { d: add8_spec(cpu.registers.d, 1, 0), f: inc_flags_spec(cpu.registers.d, cpu.registers.f), ..cpu.registers }, ..cpu })
    } else if op == 0x15 {
        (CPU { registers: Registers { d: sub8_spec(cpu.registers.d, 1, 0), f: dec_flags_spec(cpu.registers.d, cpu.registers.f), ..cpu.registers }, ..cpu })
    } else if op == 0x16 {
        (CPU { registers: Registers { d: bus_read_spec(b, cpu.registers.pc), pc: add16_spec(cpu.registers.pc, 1), ..cpu.registers }, ..cpu })
    } else if op == 0x17 {
        (CPU { registers: Registers { a: rl8_spec(cpu.registers.a, cpu.registers.f.carry), f: rot_flags_spec(false, cpu.registers.a / 128 == 1), ..cpu.registers }, ..cpu })
    } else if op == 0x18 {
        (CPU { registers: Registers { pc: add16_spec(add16_spec(cpu.registers.pc, 1), sign_ext_spec(bus_read_spec(b, cpu.registers.pc))), ..cpu.registers }, ..cpu })
    } else if op == 0x19 {
        (CPU { registers: Registers { h: hi_byte_spec(add16_spec(cpu.registers.hl_spec(), cpu.registers.de_spec())), l: lo_byte_spec(add16_spec(cpu.registers.hl_spec(), cpu.registers.de_spec())), f: add_hl_flags_spec(cpu.registers.hl_spec(), cpu.registers.de_spec(), cpu.registers.f), ..cpu.registers }, ..cpu })
    } else if op == 0x1A {
        (CPU { registers: Registers { a: bus_read_spec(b, cpu.registers.de_spec()), ..cpu.registers }, ..cpu })
    } else if op == 0x1B {
        (CPU { registers: Registers { d: hi_byte_spec(sub16_spec(cpu.registers.de_spec(), 1)), e: lo_byte_spec(sub16_spec(cpu.registers.de_spec(), 1)), ..cpu.registers }, ..cpu })
    } else if op == 0x1C {
        (CPU { registers: Registers { e: add8_spec(cpu.registers.e, 1, 0), f: inc_flags_spec(cpu.registers.e, cpu.registers.f), ..cpu.registers }, ..cpu })
    } else if op == 0x1D {
        (CPU { registers: Registers { e: sub8_spec(cpu.registers.e, 1, 0), f: dec_flags_spec(cpu.registers.e, cpu.registers.f), ..cpu.registers }, ..cpu })
    } else if op == 0x1E {
        (CPU { registers: Registers { e: bus_read_spec(b, cpu.registers.pc), pc: add16_spec(cpu.registers.pc, 1), ..cpu.registers }, ..cpu })
    } else if op == 0x1F {
        (CPU { registers: Registers { a: rr8_spec(cpu.registers.a, cpu.registers.f.carry), f: rot_flags_spec(false, cpu.registers.a % 2 == 1), ..cpu.registers }, ..cpu })
    } else if op == 0x20 {
        if !cpu.registers.f.zero { (CPU { registers: Registers { pc: add16_spec(add16_spec(cpu.registers.pc, 1), sign_ext_spec(bus_read_spec(b, cpu.registers.pc))), ..cpu.registers }, ..cpu }) } else { (CPU { registers: Registers { pc: add16_spec(cpu.registers.pc, 1), ..cpu.registers }, ..cpu }) }
    } else if op == 0x21 {
        (CPU { registers: Registers { h: hi_byte_spec(bus_read16_spec(b, cpu.registers.pc)), l: lo_byte_spec(bus_read16_spec(b, cpu.registers.pc)), pc: add16_spec(cpu.registers.pc, 2), ..cpu.registers }, ..cpu })
    } else if op == 0x22 {
        (CPU { registers: Registers { h: hi_byte_spec(add16_spec(cpu.registers.hl_spec(), 1)), l: lo_byte_spec(add16_spec(cpu.registers.hl_spec(), 1)), ..cpu.registers }, ..cpu })
    } else if op == 0x23 {
        (CPU { registers: Registers { h: hi_byte_spec(add16_spec(cpu.registers.hl_spec(), 1)), l: lo_byte_spec(add16_spec(cpu.registers.hl_spec(), 1)), ..cpu.registers }, ..cpu })
    } else if op == 0x24 {
        (CPU { registers: Registers { h: add8_spec(cpu.registers.h, 1, 0), f: inc_flags_spec(cpu.registers.h, cpu.registers.f), ..cpu.registers }, ..cpu })
    } else if op == 0x25 {
        (CPU { registers: Registers { h: sub8_spec(cpu.registers.h, 1, 0), f: dec_flags_spec(cpu.registers.h, cpu.registers.f), ..cpu.registers }, ..cpu })
    } else if op == 0x26 {
        (CPU { registers: Registers { h: bus_read_spec(b, cpu.registers.pc), pc: add16_spec(cpu.registers.pc, 1), ..cpu.registers }, ..cpu })
    } else if op == 0x27 {
        (CPU { registers: Registers { a: daa_a_spec(cpu.registers.a, cpu.registers.f), f: daa_flags_spec(cpu.registers.a, cpu.registers.f), ..cpu.registers }, ..cpu })
    } else if op == 0x28 {
        if cpu.registers.f.zero { (CPU { registers: Registers { pc: add16_spec(add16_spec(cpu.registers.pc, 1), sign_ext_spec(bus_read_spec(b, cpu.registers.pc))), ..cpu.registers }, ..cpu }) } else { (CPU { registers: Registers { pc: add16_spec(cpu.registers.pc, 1), ..cpu.registers }, ..cpu }) }
    } else if op == 0x29 {
        (CPU { registers: Registers { h: hi_byte_spec(add16_spec(cpu.registers.hl_spec(), cpu.registers.hl_spec())), l: lo_byte_spec(add16_spec(cpu.registers.hl_spec(), cpu.registers.hl_spec())), f: add_hl_flags_spec(cpu.registers.hl_spec(), cpu.registers.hl_spec(), cpu.registers.f), ..cpu.registers }, ..cpu })
    } else if op == 0x2A {
        (CPU { registers: Registers { a: bus_read_spec(b, cpu.registers.hl_spec()), h: hi_byte_spec(add16_spec(cpu.registers.hl_spec(), 1)), l: lo_byte_spec(add16_spec(cpu.registers.hl_spec(), 1)), ..cpu.registers }, ..cpu })
    } else if op == 0x2B {
        (CPU { registers: Registers { h: hi_byte_spec(sub16_spec(cpu.registers.hl_spec(), 1)), l: lo_byte_spec(sub16_spec(cpu.registers.hl_spec(), 1)), ..cpu.registers }, ..cpu })
    } else if op == 0x2C {
        (CPU { registers: Registers { l: add8_spec(cpu.registers.l, 1, 0), f: inc_flags_spec(cpu.registers.l, cpu.registers.f), ..cpu.registers }, ..cpu })
    } else if op == 0x2D {
        (CPU { registers: Registers { l: sub8_spec(cpu.registers.l, 1, 0), f: dec_flags_spec(cpu.registers.l, cpu.registers.f), ..cpu.registers }, ..cpu })
    } else if op == 0x2E {
        (CPU { registers: Registers { l: bus_read_spec(b, cpu.registers.pc), pc: add16_spec(cpu.registers.pc, 1), ..cpu.registers }, ..cpu })
    } else if op == 0x2F {
        (CPU { registers: Registers { a: (255 - cpu.registers.a) as u8, f: (Flag { subtract: true, half_carry: true, ..cpu.registers.f }), ..cpu.registers }, ..cpu })
    } else if op == 0x30 {
        if !cpu.registers.f.carry { (CPU { registers: Registers { pc: add16_spec(add16_spec(cpu.registers.pc, 1), sign_ext_spec(bus_read_spec(b, cpu.registers.pc))), ..cpu.registers }, ..cpu }) } else { (CPU { registers: Registers { pc: add16_spec(cpu.registers.pc, 1), ..cpu.registers }, ..cpu }) }
    } else if op == 0x31 {
        (CPU { registers: Registers { sp: bus_read16_spec(b, cpu.registers.pc), pc: add16_spec(cpu.registers.pc, 2), ..cpu.registers }, ..cpu })
    } else if op == 0x32 {
        (CPU { registers: Registers { h: hi_byte_spec(sub16_spec(cpu.registers.hl_spec(), 1)), l: lo_byte_spec(sub16_spec(cpu.registers.hl_spec(), 1)), ..cpu.registers }, ..cpu })
    } else if op == 0x33 {
        (CPU { registers: Registers { sp: add16_spec(cpu.registers.sp, 1), ..cpu.registers }, ..cpu })
    } else if op == 0x34 {
        (CPU { registers: Registers { f: inc_flags_spec(bus_read_spec(b, cpu.registers.hl_spec()), cpu.registers.f), ..cpu.registers }, ..cpu })
    } else if op == 0x35 {
        (CPU { registers: Registers { f: dec_flags_spec(bus_read_spec(b, cpu.registers.hl_spec()), cpu.registers.f), ..cpu.registers }, ..cpu })
    } else if op == 0x36 {
        (CPU { registers: Registers { pc: add16_spec(cpu.registers.pc, 1), ..cpu.registers }, ..cpu })
    } else if op == 0x37 {
        (CPU { registers: Registers { f: (Flag { subtract: false, half_carry: false, carry: true, ..cpu.registers.f }), ..cpu.registers }, ..cpu })
    } else if op == 0x38 {
        if cpu.registers.f.carry { (CPU { registers: Registers { pc: add16_spec(add16_spec(cpu.registers.pc, 1), sign_ext_spec(bus_read_spec(b, cpu.registers.pc))), ..cpu.registers }, ..cpu }) } else { (CPU { registers: Registers { pc: add16_spec(cpu.registers.pc, 1), ..cpu.registers }, ..cpu }) }
    } else if op == 0x39 {
        (CPU { registers: Registers { h: hi_byte_spec(add16_spec(cpu.registers.hl_spec(), cpu.registers.sp)), l: lo_byte_spec(add16_spec(cpu.registers.hl_spec(), cpu.registers.sp)), f: add_hl_flags_spec(cpu.registers.hl_spec(), cpu.registers.sp, cpu.registers.f), ..cpu.registers }, ..cpu })
    } else if op == 0x3A {
        (CPU { registers: Registers { a: bus_read_spec(b, cpu.registers.hl_spec()), h: hi_byte_spec(sub16_spec(cpu.registers.hl_spec(), 1)), l: lo_byte_spec(sub16_spec(cpu.registers.hl_spec(), 1)), ..cpu.registers }, ..cpu })
    } else if op == 0x3B {
        (CPU { registers: Registers { sp: sub16_spec(cpu.registers.sp, 1), ..cpu.registers }, ..cpu })
    } else if op == 0x3C {
        (CPU { registers: Registers { a: add8_spec(cpu.registers.a, 1, 0), f: inc_flags_spec(cpu.registers.a, cpu.registers.f), ..cpu.registers }, ..cpu })
    } else if op == 0x3D {
        (CPU { registers: Registers { a: sub8_spec(cpu.registers.a, 1, 0), f: dec_flags_spec(cpu.registers.a, cpu.registers.f), ..cpu.registers }, ..cpu })
    } else if op == 0x3E {
        (CPU { registers: Registers { a: bus_read_spec(b, cpu.registers.pc), pc: add16_spec(cpu.registers.pc, 1), ..cpu.registers }, ..cpu })
    } else if op == 0x3F {
        (CPU { registers: Registers { f: (Flag { subtract: false, half_carry: false, carry: !cpu.registers.f.carry, ..cpu.registers.f }), ..cpu.registers }, ..cpu })
    } else if op == 0x40 {
        (CPU { ..cpu })
    } else if op == 0x41 {
        (CPU { registers: Registers { b: cpu.registers.c, ..cpu.registers }, ..cpu })
    } else if op == 0x42 {
        (CPU { registers: Registers { b: cpu.registers.d, ..cpu.registers }, ..cpu })
    } else if op == 0x43 {
        (CPU { registers: Registers { b: cpu.registers.e, ..cpu.registers }, ..cpu })
    } else if op == 0x44 {
        (CPU { registers: Registers { b: cpu.registers.h, ..cpu.registers }, ..cpu })
    } else if op == 0x45 {
        (CPU { registers: Registers { b: cpu.registers.l, ..cpu.registers }, ..cpu })
    } else if op == 0x46 {
        (CPU { registers: Registers { b: bus_read_spec(b, cpu.registers.hl_spec()), ..cpu.registers }, ..cpu })
    } else if op == 0x47 {
        (CPU { registers: Registers { b: cpu.registers.a, ..cpu.registers }, ..cpu })
    } else if op == 0x48 {
        (CPU { registers: Registers { c: cpu.registers.b, ..cpu.registers }, ..cpu })
    } else if op == 0x49 {
        (CPU { ..cpu })
    } else if op == 0x4A {
        (CPU { registers: Registers { c: cpu.registers.d, ..cpu.registers }, ..cpu })
    } else if op == 0x4B {
        (CPU { registers: Registers { c: cpu.registers.e, ..cpu.registers }, ..cpu })
    } else if op == 0x4C {
        (CPU { registers: Registers { c: cpu.registers.h, ..cpu.registers }, ..cpu })
    } else if op == 0x4D {
        (CPU { registers: Registers { c: cpu.registers.l, ..cpu.registers }, ..cpu })
    } else if op == 0x4E {
        (CPU { registers: Registers { c: bus_read_spec(b, cpu.registers.hl_spec()), ..cpu.registers }, ..cpu })
    } else if op == 0x4F {
        (CPU { registers: Registers { c: cpu.registers.a, ..cpu.registers }, ..cpu })
    } else if op == 0x50 {
        (CPU { registers: Registers { d: cpu.registers.b, ..cpu.registers }, ..cpu })
    } else if op == 0x51 {
        (CPU { registers: Registers { d: cpu.registers.c, ..cpu.registers }, ..cpu })
    } else if op == 0x52 {
        (CPU { ..cpu })
    } else if op == 0x53 {
        (CPU { registers: Registers { d: cpu.registers.e, ..cpu.registers }, ..cpu })
    } else if op == 0x54 {
        (CPU { registers: Registers { d: cpu.registers.h, ..cpu.registers }, ..cpu })
    } else if op == 0x55 {
        (CPU { registers: Registers { d: cpu.registers.l, ..cpu.registers }, ..cpu })
    } else if op == 0x56 {
        (CPU { registers: Registers { d: bus_read_spec(b, cpu.registers.hl_spec()), ..cpu.registers }, ..cpu })
    } else if op == 0x57 {
        (CPU { registers: Registers { d: cpu.registers.a, ..cpu.registers }, ..cpu })
    } else if op == 0x58 {
        (CPU { registers: Registers { e: cpu.registers.b, ..cpu.registers }, ..cpu })
    } else if op == 0x59 {
        (CPU { registers: Registers { e: cpu.registers.c, ..cpu.registers }, ..cpu })
    } else if op == 0x5A {
        (CPU { registers: Registers { e: cpu.registers.d, ..cpu.registers }, ..cpu })
    } else if op == 0x5B {
        (CPU { ..cpu })
    } else if op == 0x5C {
        (CPU { registers: Registers { e: cpu.registers.h, ..cpu.registers }, ..cpu })
    } else if op == 0x5D {
        (CPU { registers: Registers { e: cpu.registers.l, ..cpu.registers }, ..cpu })
    } else if op == 0x5E {
        (CPU { registers: Registers { e: bus_read_spec(b, cpu.registers.hl_spec()), ..cpu.registers }, ..cpu })
    } else if op == 0x5F {
        (CPU { registers: Registers { e: cpu.registers.a, ..cpu.registers }, ..cpu })
    } else if op == 0x60 {
        (CPU { registers: Registers { h: cpu.registers.b, ..cpu.registers }, ..cpu })
    } else if op == 0x61 {
        (CPU { registers: Registers { h: cpu.registers.c, ..cpu.registers }, ..cpu })
    } else if op == 0x62 {
        (CPU { registers: Registers { h: cpu.registers.d, ..cpu.registers }, ..cpu })
    } else if op == 0x63 {
        (CPU { registers: Registers { h: cpu.registers.e, ..cpu.registers }, ..cpu })
    } else if op == 0x64 {
        (CPU { ..cpu })
    } else if op == 0x65 {
        (CPU { registers: Registers { h: cpu.registers.l, ..cpu.registers }, ..cpu })
    } else if op == 0x66 {
        (CPU { registers: Registers { h: bus_read_spec(b, cpu.registers.hl_spec()), ..cpu.registers }, ..cpu })
    } else if op == 0x67 {
        (CPU { registers: Registers { h: cpu.registers.a, ..cpu.registers }, ..cpu })
    } else if op == 0x68 {
        (CPU { registers: Registers { l: cpu.registers.b, ..cpu.registers }, ..cpu })
    } else if op == 0x69 {
        (CPU { registers: Registers { l: cpu.registers.c, ..cpu.registers }, ..cpu })
    } else if op == 0x6A {
        (CPU { registers: Registers { l: cpu.registers.d, ..cpu.registers }, ..cpu })
    } else if op == 0x6B {
        (CPU { registers: Registers { l: cpu.registers.e, ..cpu.registers }, ..cpu })
    } else if op == 0x6C {
        (CPU { registers: Registers { l: cpu.registers.h, ..cpu.registers }, ..cpu })
    } else if op == 0x6D {
        (CPU { ..cpu })
    } else if op == 0x6E {
        (CPU { registers: Registers { l: bus_read_spec(b, cpu.registers.hl_spec()), ..cpu.registers }, ..cpu })
    } else if op == 0x6F {
        (CPU { registers: Registers { l: cpu.registers.a, ..cpu.registers }, ..cpu })
    } else if op == 0x70 {
        (CPU { ..cpu })
    } else if op == 0x71 {
        (CPU { ..cpu })
    } else if op == 0x72 {
        (CPU { ..cpu })
    } else if op == 0x73 {
        (CPU { ..cpu })
    } else if op == 0x74 {
        (CPU { ..cpu })
    } else if op == 0x75 {
        (CPU { ..cpu })
    } else if op == 0x76 {
        (CPU { halt: true, ..cpu })
    } else if op == 0x77 {
        (CPU { ..cpu })
    } else if op == 0x78 {
        (CPU { registers: Registers { a: cpu.registers.b, ..cpu.registers }, ..cpu })
    } else if op == 0x79 {
        (CPU { registers: Registers { a: cpu.registers.c, ..cpu.registers }, ..cpu })
    } else if op == 0x7A {
        (CPU { registers: Registers { a: cpu.registers.d, ..cpu.registers }, ..cpu })
    } else if op == 0x7B {
        (CPU { registers: Registers { a: cpu.registers.e, ..cpu.registers }, ..cpu })
    } else if op == 0x7C {
        (CPU { registers: Registers { a: cpu.registers.h, ..cpu.registers }, ..cpu })
    } else if op == 0x7D {
        (CPU { registers: Registers { a: cpu.registers.l, ..cpu.registers }, ..cpu })
    } else if op == 0x7E {
        (CPU { registers: Registers { a: bus_read_spec(b, cpu.registers.hl_spec()), ..cpu.registers }, ..cpu })
    } else if op == 0x7F {
        (CPU { ..cpu })
    } else if op == 0x80 {
        (CPU { registers: Registers { a: add8_spec(cpu.registers.a, cpu.registers.b, 0), f: add_flags_spec(cpu.registers.a, cpu.registers.b, 0), ..cpu.registers }, ..cpu })
    } else if op == 0x81 {
        (CPU { registers: Registers { a: add8_spec(cpu.registers.a, cpu.registers.c, 0), f: add_flags_spec(cpu.registers.a, cpu.registers.c, 0), ..cpu.registers }, ..cpu })
    } else if op == 0x82 {
        (CPU { registers: Registers { a: add8_spec(cpu.registers.a, cpu.registers.d, 0), f: add_flags_spec(cpu.registers.a, cpu.registers.d, 0), ..cpu.registers }, ..cpu })
    } else if op == 0x83 {
        (CPU { registers: Registers { a: add8_spec(cpu.registers.a, cpu.registers.e, 0), f: add_flags_spec(cpu.registers.a, cpu.registers.e, 0), ..cpu.registers }, ..cpu })
    } else if op == 0x84 {
        (CPU { registers: Registers { a: add8_spec(cpu.registers.a, cpu.registers.h, 0), f: add_flags_spec(cpu.registers.a, cpu.registers.h, 0), ..cpu.registers }, ..cpu })
    } else if op == 0x85 {
        (CPU { registers: Registers { a: add8_spec(cpu.registers.a, cpu.registers.l, 0), f: add_flags_spec(cpu.registers.a, cpu.registers.l, 0), ..cpu.registers }, ..cpu })
    } else if op == 0x86 {
        (CPU { registers: Registers { a: add8_spec(cpu.registers.a, bus_read_spec(b, cpu.registers.hl_spec()), 0), f: add_flags_spec(cpu.registers.a, bus_read_spec(b, cpu.registers.hl_spec()), 0), ..cpu.registers }, ..cpu })
    } else if op == 0x87 {
        (CPU { registers: Registers { a: add8_spec(cpu.registers.a, cpu.registers.a, 0), f: add_flags_spec(cpu.registers.a, cpu.registers.a, 0), ..cpu.registers }, ..cpu })
    } else if op == 0x88 {
        ({ let c0: int = if cpu.registers.f.carry { 1 } else { 0 }; (CPU { registers: Registers { a: add8_spec(cpu.registers.a, cpu.registers.b, c0), f: add_flags_spec(cpu.registers.a, cpu.registers.b, c0), ..cpu.registers }, ..cpu }) })
    } else if op == 0x89 {
        ({ let c0: int = if cpu.registers.f.carry { 1 } else { 0 }; (CPU { registers: Registers { a: add8_spec(cpu.registers.a, cpu.registers.c, c0), f: add_flags_spec(cpu.registers.a, cpu.registers.c, c0), ..cpu.registers }, ..cpu }) })
    } else if op == 0x8A {
        ({ let c0: int = if cpu.registers.f.carry { 1 } else { 0 }; (CPU { registers: Registers { a: add8_spec(cpu.registers.a, cpu.registers.d, c0), f: add_flags_spec(cpu.registers.a, cpu.registers.d, c0), ..cpu.registers }, ..cpu }) })
    } else if op == 0x8B {
        ({ let c0: int = if cpu.registers.f.carry { 1 } else { 0 }; (CPU { registers: Registers { a: add8_spec(cpu.registers.a, cpu.registers.e, c0), f: add_flags_spec(cpu.registers.a, cpu.registers.e, c0), ..cpu.registers }, ..cpu }) })
    } else if op == 0x8C {
        ({ let c0: int = if cpu.registers.f.carry { 1 } else { 0 }; (CPU { registers: Registers { a: add8_spec(cpu.registers.a, cpu.registers.h, c0), f: add_flags_spec(cpu.registers.a, cpu.registers.h, c0), ..cpu.registers }, ..cpu }) })
    } else if op == 0x8D {
        ({ let c0: int = if cpu.registers.f.carry { 1 } else { 0 }; (CPU { registers: Registers { a: add8_spec(cpu.registers.a, cpu.registers.l, c0), f: add_flags_spec(cpu.registers.a, cpu.registers.l, c0), ..cpu.registers }, ..cpu }) })
    } else if op == 0x8E {
        ({ let c0: int = if cpu.registers.f.carry { 1 } else { 0 }; (CPU { registers: Registers { a: add8_spec(cpu.registers.a, bus_read_spec(b, cpu.registers.hl_spec()), c0), f: add_flags_spec(cpu.registers.a, bus_read_spec(b, cpu.registers.hl_spec()), c0), ..cpu.registers }, ..cpu }) })
    } else if op == 0x8F {
        ({ let c0: int = if cpu.registers.f.carry { 1 } else { 0 }; (CPU { registers: Registers { a: add8_spec(cpu.registers.a, cpu.registers.a, c0), f: add_flags_spec(cpu.registers.a, cpu.registers.a, c0), ..cpu.registers }, ..cpu }) })
    } else if op == 0x90 {
        (CPU { registers: Registers { a: sub8_spec(cpu.registers.a, cpu.registers.b, 0), f: sub_flags_spec(cpu.registers.a, cpu.registers.b, 0), ..cpu.registers }, ..cpu })
    } else if op == 0x91 {
        (CPU { registers: Registers { a: sub8_spec(cpu.registers.a, cpu.registers.c, 0), f: sub_flags_spec(cpu.registers.a, cpu.registers.c, 0), ..cpu.registers }, ..cpu })
    } else if op == 0x92 {
        (CPU { registers: Registers { a: sub8_spec(cpu.registers.a, cpu.registers.d, 0), f: sub_flags_spec(cpu.registers.a, cpu.registers.d, 0), ..cpu.registers }, ..cpu })
    } else if op == 0x93 {
        (CPU { registers: Registers { a: sub8_spec(cpu.registers.a, cpu.registers.e, 0), f: sub_flags_spec(cpu.registers.a, cpu.registers.e, 0), ..cpu.registers }, ..cpu })
    } else if op == 0x94 {
        (CPU { registers: Registers { a: sub8_spec(cpu.registers.a, cpu.registers.h, 0), f: sub_flags_spec(cpu.registers.a, cpu.registers.h, 0), ..cpu.registers }, ..cpu })
    } else if op == 0x95 {
        (CPU { registers: Registers { a: sub8_spec(cpu.registers.a, cpu.registers.l, 0), f: sub_flags_spec(cpu.registers.a, cpu.registers.l, 0), ..cpu.registers }, ..cpu })
    } else if op == 0x96 {
        (CPU { registers: Registers { a: sub8_spec(cpu.registers.a, bus_read_spec(b, cpu.registers.hl_spec()), 0), f: sub_flags_spec(cpu.registers.a, bus_read_spec(b, cpu.registers.hl_spec()), 0), ..cpu.registers }, ..cpu })
    } else if op == 0x97 {
        (CPU { registers: Registers { a: sub8_spec(cpu.registers.a, cpu.registers.a, 0), f: sub_flags_spec(cpu.registers.a, cpu.registers.a, 0), ..cpu.registers }, ..cpu })
    } else if op == 0x98 {
        ({ let c0: int = if cpu.registers.f.carry { 1 } else { 0 }; (CPU { registers: Registers { a: sub8_spec(cpu.registers.a, cpu.registers.b, c0), f: sub_flags_spec(cpu.registers.a, cpu.registers.b, c0), ..cpu.registers }, ..cpu }) })
    } else if op == 0x99 {
        ({ let c0: int = if cpu.registers.f.carry { 1 } else { 0 }; (CPU { registers: Registers { a: sub8_spec(cpu.registers.a, cpu.registers.c, c0), f: sub_flags_spec(cpu.registers.a, cpu.registers.c, c0), ..cpu.registers }, ..cpu }) })
    } else if op == 0x9A {
        ({ let c0: int = if cpu.registers.f.carry { 1 } else { 0 }; (CPU { registers: Registers { a: sub8_spec(cpu.registers.a, cpu.registers.d, c0), f: sub_flags_spec(cpu.registers.a, cpu.registers.d, c0), ..cpu.registers }, ..cpu }) })
    } else if op == 0x9B {
        ({ let c0: int = if cpu.registers.f.carry { 1 } else { 0 }; (CPU { registers: Registers { a: sub8_spec(cpu.registers.a, cpu.registers.e, c0), f: sub_flags_spec(cpu.registers.a, cpu.registers.e, c0), ..cpu.registers }, ..cpu }) })
    } else if op == 0x9C {
        ({ let c0: int = if cpu.registers.f.carry { 1 } else { 0 }; (CPU { registers: Registers { a: sub8_spec(cpu.registers.a, cpu.registers.h, c0), f: sub_flags_spec(cpu.registers.a, cpu.registers.h, c0), ..cpu.registers }, ..cpu }) })
    } else if op == 0x9D {
        ({ let c0: int = if cpu.registers.f.carry { 1 } else { 0 }; (CPU { registers: Registers { a: sub8_spec(cpu.registers.a, cpu.registers.l, c0), f: sub_flags_spec(cpu.registers.a, cpu.registers.l, c0), ..cpu.registers }, ..cpu }) })
    } else if op == 0x9E {
        ({ let c0: int = if cpu.registers.f.carry { 1 } else { 0 }; (CPU { registers: Registers { a: sub8_spec(cpu.registers.a, bus_read_spec(b, cpu.registers.hl_spec()), c0), f: sub_flags_spec(cpu.registers.a, bus_read_spec(b, cpu.registers.hl_spec()), c0), ..cpu.registers }, ..cpu }) })
    } else if op == 0x9F {
        ({ let c0: int = if cpu.registers.f.carry { 1 } else { 0 }; (CPU { registers: Registers { a: sub8_spec(cpu.registers.a, cpu.registers.a, c0), f: sub_flags_spec(cpu.registers.a, cpu.registers.a, c0), ..cpu.registers }, ..cpu }) })
    } else if op == 0xA0 {
        (CPU { registers: Registers { a: cpu.registers.a & cpu.registers.b, f: logic_flags_spec(cpu.registers.a & cpu.registers.b == 0, true), ..cpu.registers }, ..cpu })
    } else if op == 0xA1 {
        (CPU { registers: Registers { a: cpu.registers.a & cpu.registers.c, f: logic_flags_spec(cpu.registers.a & cpu.registers.c == 0, true), ..cpu.registers }, ..cpu })
    } else if op == 0xA2 {
        (CPU { registers: Registers { a: cpu.registers.a & cpu.registers.d, f: logic_flags_spec(cpu.registers.a & cpu.registers.d == 0, true), ..cpu.registers }, ..cpu })
    } else if op == 0xA3 {
        (CPU { registers: Registers { a: cpu.registers.a & cpu.registers.e, f: logic_flags_spec(cpu.registers.a & cpu.registers.e == 0, true), ..cpu.registers }, ..cpu })
    } else if op == 0xA4 {
        (CPU { registers: Registers { a: cpu.registers.a & cpu.registers.h, f: logic_flags_spec(cpu.registers.a & cpu.registers.h == 0, true), ..cpu.registers }, ..cpu })
    } else if op == 0xA5 {
        (CPU { registers: Registers { a: cpu.registers.a & cpu.registers.l, f: logic_flags_spec(cpu.registers.a & cpu.registers.l == 0, true), ..cpu.registers }, ..cpu })
    } else if op == 0xA6 {
        (CPU { registers: Registers { a: cpu.registers.a & bus_read_spec(b, cpu.registers.hl_spec()), f: logic_flags_spec(cpu.registers.a & bus_read_spec(b, cpu.registers.hl_spec()) == 0, true), ..cpu.registers }, ..cpu })
    } else if op == 0xA7 {
        (CPU { registers: Registers { a: cpu.registers.a & cpu.registers.a, f: logic_flags_spec(cpu.registers.a & cpu.registers.a == 0, true), ..cpu.registers }, ..cpu })
    } else if op == 0xA8 {
        (CPU { registers: Registers { a: cpu.registers.a ^ cpu.registers.b, f: logic_flags_spec(cpu.registers.a ^ cpu.registers.b == 0, false), ..cpu.registers }, ..cpu })
    } else if op == 0xA9 {
        (CPU { registers: Registers { a: cpu.registers.a ^ cpu.registers.c, f: logic_flags_spec(cpu.registers.a ^ cpu.registers.c == 0, false), ..cpu.registers }, ..cpu })
    } else if op == 0xAA {
        (CPU { registers: Registers { a: cpu.registers.a ^ cpu.registers.d, f: logic_flags_spec(cpu.registers.a ^ cpu.registers.d == 0, false), ..cpu.registers }, ..cpu })
    } else if op == 0xAB {
        (CPU { registers: Registers { a: cpu.registers.a ^ cpu.registers.e, f: logic_flags_spec(cpu.registers.a ^ cpu.registers.e == 0, false), ..cpu.registers }, ..cpu })
    } else if op == 0xAC {
        (CPU { registers: Registers { a: cpu.registers.a ^ cpu.registers.h, f: logic_flags_spec(cpu.registers.a ^ cpu.registers.h == 0, false), ..cpu.registers }, ..cpu })
    } else if op == 0xAD {
        (CPU { registers: Registers { a: cpu.registers.a ^ cpu.registers.l, f: logic_flags_spec(cpu.registers.a ^ cpu.registers.l == 0, false), ..cpu.registers }, ..cpu })
    } else if op == 0xAE {
        (CPU { registers: Registers { a: cpu.registers.a ^ bus_read_spec(b, cpu.registers.hl_spec()), f: logic_flags_spec(cpu.registers.a ^ bus_read_spec(b, cpu.registers.hl_spec()) == 0, false), ..cpu.registers }, ..cpu })
    } else if op == 0xAF {
        (CPU { registers: Registers { a: cpu.registers.a ^ cpu.registers.a, f: logic_flags_spec(cpu.registers.a ^ cpu.registers.a == 0, false), ..cpu.registers }, ..cpu })
    } else if op == 0xB0 {
        (CPU { registers: Registers { a: cpu.registers.a | cpu.registers.b, f: logic_flags_spec(cpu.registers.a | cpu.registers.b == 0, false), ..cpu.registers }, ..cpu })
    } else if op == 0xB1 {
        (CPU { registers: Registers { a: cpu.registers.a | cpu.registers.c, f: logic_flags_spec(cpu.registers.a | cpu.registers.c == 0, false), ..cpu.registers }, ..cpu })
    } else if op == 0xB2 {
        (CPU { registers: Registers { a: cpu.registers.a | cpu.registers.d, f: logic_flags_spec(cpu.registers.a | cpu.registers.d == 0, false), ..cpu.registers }, ..cpu })
    } else if op == 0xB3 {
        (CPU { registers: Registers { a: cpu.registers.a | cpu.registers.e, f: logic_flags_spec(cpu.registers.a | cpu.registers.e == 0, false), ..cpu.registers }, ..cpu })
    } else if op == 0xB4 {
        (CPU { registers: Registers { a: cpu.registers.a | cpu.registers.h, f: logic_flags_spec(cpu.registers.a | cpu.registers.h == 0, false), ..cpu.registers }, ..cpu })
    } else if op == 0xB5 {
        (CPU { registers: Registers { a: cpu.registers.a | cpu.registers.l, f: logic_flags_spec(cpu.registers.a | cpu.registers.l == 0, false), ..cpu.registers }, ..cpu })
    } else if op == 0xB6 {
        (CPU { registers: Registers { a: cpu.registers.a | bus_read_spec(b, cpu.registers.hl_spec()), f: logic_flags_spec(cpu.registers.a | bus_read_spec(b, cpu.registers.hl_spec()) == 0, false), ..cpu.registers }, ..cpu })
    } else if op == 0xB7 {
        (CPU { registers: Registers { a: cpu.registers.a | cpu.registers.a, f: logic_flags_spec(cpu.registers.a | cpu.registers.a == 0, false), ..cpu.registers }, ..cpu })
    } else if op == 0xB8 {
        (CPU { registers: Registers { f: sub_flags_spec(cpu.registers.a, cpu.registers.b, 0), ..cpu.registers }, ..cpu })
    } else if op == 0xB9 {
        (CPU { registers: Registers { f: sub_flags_spec(cpu.registers.a, cpu.registers.c, 0), ..cpu.registers }, ..cpu })
    } else if op == 0xBA {
        (CPU { registers: Registers { f: sub_flags_spec(cpu.registers.a, cpu.registers.d, 0), ..cpu.registers }, ..cpu })
    } else if op == 0xBB {
        (CPU { registers: Registers { f: sub_flags_spec(cpu.registers.a, cpu.registers.e, 0), ..cpu.registers }, ..cpu })
    } else if op == 0xBC {
        (CPU { registers: Registers { f: sub_flags_spec(cpu.registers.a, cpu.registers.h, 0), ..cpu.registers }, ..cpu })
    } else if op == 0xBD {
        (CPU { registers: Registers { f: sub_flags_spec(cpu.registers.a, cpu.registers.l, 0), ..cpu.registers }, ..cpu })
    } else if op == 0xBE {
        (CPU { registers: Registers { f: sub_flags_spec(cpu.registers.a, bus_read_spec(b, cpu.registers.hl_spec()), 0), ..cpu.registers }, ..cpu })
    } else if op == 0xBF {
        (CPU { registers: Registers { f: sub_flags_spec(cpu.registers.a, cpu.registers.a, 0), ..cpu.registers }, ..cpu })
    } else if op == 0xC0 {
        if !cpu.registers.f.zero { (CPU { registers: Registers { pc: bus_read16_spec(b, cpu.registers.sp), sp: add16_spec(cpu.registers.sp, 2), ..cpu.registers }, ..cpu }) } else { cpu }
    } else if op == 0xC1 {
        (CPU { registers: Registers { b: hi_byte_spec(bus_read16_spec(b, cpu.registers.sp)), c: lo_byte_spec(bus_read16_spec(b, cpu.registers.sp)), sp: add16_spec(cpu.registers.sp, 2), ..cpu.registers }, ..cpu })
    } else if op == 0xC2 {
        if !cpu.registers.f.zero { (CPU { registers: Registers { pc: bus_read16_spec(b, cpu.registers.pc), ..cpu.registers }, ..cpu }) } else { (CPU { registers: Registers { pc: add16_spec(cpu.registers.pc, 2), ..cpu.registers }, ..cpu }) }
    } else if op == 0xC3 {
        (CPU { registers: Registers { pc: bus_read16_spec(b, cpu.registers.pc), ..cpu.registers }, ..cpu })
    } else if op == 0xC4 {
        if !cpu.registers.f.zero { (CPU { registers: Registers { pc: bus_read16_spec(b, cpu.registers.pc), sp: sub16_spec(cpu.registers.sp, 2), ..cpu.registers }, ..cpu }) } else { (CPU { registers: Registers { pc: add16_spec(cpu.registers.pc, 2), ..cpu.registers }, ..cpu }) }
    } else if op == 0xC5 {
        (CPU { registers: Registers { sp: sub16_spec(cpu.registers.sp, 2), ..cpu.registers }, ..cpu })
    } else if op == 0xC6 {
        (CPU { registers: Registers { a: add8_spec(cpu.registers.a, bus_read_spec(b, cpu.registers.pc), 0), f: add_flags_spec(cpu.registers.a, bus_read_spec(b, cpu.registers.pc), 0), pc: add16_spec(cpu.registers.pc, 1), ..cpu.registers }, ..cpu })
    } else if op == 0xC7 {
        (CPU { registers: Registers { pc: 0x00, sp: sub16_spec(cpu.registers.sp, 2), ..cpu.registers }, ..cpu })
    } else if op == 0xC8 {
        if cpu.registers.f.zero { (CPU { registers: Registers { pc: bus_read16_spec(b, cpu.registers.sp), sp: add16_spec(cpu.registers.sp, 2), ..cpu.registers }, ..cpu }) } else { cpu }
    } else if op == 0xC9 {
        (CPU { registers: Registers { pc: bus_read16_spec(b, cpu.registers.sp), sp: add16_spec(cpu.registers.sp, 2), ..cpu.registers }, ..cpu })
    } else if op == 0xCA {
        if cpu.registers.f.zero { (CPU { registers: Registers { pc: bus_read16_spec(b, cpu.registers.pc), ..cpu.registers }, ..cpu }) } else { (CPU { registers: Registers { pc: add16_spec(cpu.registers.pc, 2), ..cpu.registers }, ..cpu }) }
    } else if op == 0xCB {
        ({ let op2 = bus_read_spec(b, cpu.registers.pc); let cpu2 = CPU { registers: Registers { pc: add16_spec(cpu.registers.pc, 1), ..cpu.registers }, ..cpu }; cb_cpu_spec(cpu2, b, op2) })
    } else if op == 0xCC {
        if cpu.registers.f.zero { (CPU { registers: Registers { pc: bus_read16_spec(b, cpu.registers.pc), sp: sub16_spec(cpu.registers.sp, 2), ..cpu.registers }, ..cpu }) } else { (CPU { registers: Registers { pc: add16_spec(cpu.registers.pc, 2), ..cpu.registers }, ..cpu }) }
    } else if op == 0xCD {
        (CPU { registers: Registers { pc: bus_read16_spec(b, cpu.registers.pc), sp: sub16_spec(cpu.registers.sp, 2), ..cpu.registers }, ..cpu })
    } else if op == 0xCE {
        ({ let c0: int = if cpu.registers.f.carry { 1 } else { 0 }; (CPU { registers: Registers { a: add8_spec(cpu.registers.a, bus_read_spec(b, cpu.registers.pc), c0), f: add_flags_spec(cpu.registers.a, bus_read_spec(b, cpu.registers.pc), c0), pc: add16_spec(cpu.registers.pc, 1), ..cpu.registers }, ..cpu }) })
    } else if op == 0xCF {
        (CPU { registers: Registers { pc: 0x08, sp: sub16_spec(cpu.registers.sp, 2), ..cpu.registers }, ..cpu })
    } else if op == 0xD0 {
        if !cpu.registers.f.carry { (CPU { registers: Registers { pc: bus_read16_spec(b, cpu.registers.sp), sp: add16_spec(cpu.registers.sp, 2), ..cpu.registers }, ..cpu }) } else { cpu }
    } else if op == 0xD1 {
        (CPU { registers: Registers { d: hi_byte_spec(bus_read16_spec(b, cpu.registers.sp)), e: lo_byte_spec(bus_read16_spec(b, cpu.registers.sp)), sp: add16_spec(cpu.registers.sp, 2), ..cpu.registers }, ..cpu })
    } else if op == 0xD2 {
        if !cpu.registers.f.carry { (CPU { registers: Registers { pc: bus_read16_spec(b, cpu.registers.pc), ..cpu.registers }, ..cpu }) } else { (CPU { registers: Registers { pc: add16_spec(cpu.registers.pc, 2), ..cpu.registers }, ..cpu }) }
    } else if op == 0xD3 {
        cpu
    } else if op == 0xD4 {
        if !cpu.registers.f.carry { (CPU { registers: Registers { pc: bus_read16_spec(b, cpu.registers.pc), sp: sub16_spec(cpu.registers.sp, 2), ..cpu.registers }, ..cpu }) } else { (CPU { registers: Registers { pc: add16_spec(cpu.registers.pc, 2), ..cpu.registers }, ..cpu }) }
    } else if op == 0xD5 {
        (CPU { registers: Registers { sp: sub16_spec(cpu.registers.sp, 2), ..cpu.registers }, ..cpu })
    } else if op == 0xD6 {
        (CPU { registers: Registers { a: sub8_spec(cpu.registers.a, bus_read_spec(b, cpu.registers.pc), 0), f: sub_flags_spec(cpu.registers.a, bus_read_spec(b, cpu.registers.pc), 0), pc: add16_spec(cpu.registers.pc, 1), ..cpu.registers }, ..cpu })
    } else if op == 0xD7 {
        (CPU { registers: Registers { pc: 0x10, sp: sub16_spec(cpu.registers.sp, 2), ..cpu.registers }, ..cpu })
    } else if op == 0xD8 {
        if cpu.registers.f.carry { (CPU { registers: Registers { pc: bus_read16_spec(b, cpu.registers.sp), sp: add16_spec(cpu.registers.sp, 2), ..cpu.registers }, ..cpu }) } else { cpu }
    } else if op == 0xD9 {
        (CPU { registers: Registers { pc: bus_read16_spec(b, cpu.registers.sp), sp: add16_spec(cpu.registers.sp, 2), ..cpu.registers }, ime: true, ..cpu })
    } else if op == 0xDA {
        if cpu.registers.f.carry { (CPU { registers: Registers { pc: bus_read16_spec(b, cpu.registers.pc), ..cpu.registers }, ..cpu }) } else { (CPU { registers: Registers { pc: add16_spec(cpu.registers.pc, 2), ..cpu.registers }, ..cpu }) }
    } else if op == 0xDB {
        cpu
    } else if op == 0xDC {
        if cpu.registers.f.carry { (CPU { registers: Registers { pc: bus_read16_spec(b, cpu.registers.pc), sp: sub16_spec(cpu.registers.sp, 2), ..cpu.registers }, ..cpu }) } else { (CPU { registers: Registers { pc: add16_spec(cpu.registers.pc, 2), ..cpu.registers }, ..cpu }) }
    } else if op == 0xDD {
        cpu
    } else if op == 0xDE {
        ({ let c0: int = if cpu.registers.f.carry { 1 } else { 0 }; (CPU { registers: Registers { a: sub8_spec(cpu.registers.a, bus_read_spec(b, cpu.registers.pc), c0), f: sub_flags_spec(cpu.registers.a, bus_read_spec(b, cpu.registers.pc), c0), pc: add16_spec(cpu.registers.pc, 1), ..cpu.registers }, ..cpu }) })
    } else if op == 0xDF {
        (CPU { registers: Registers { pc: 0x18, sp: sub16_spec(cpu.registers.sp, 2), ..cpu.registers }, ..cpu })
    } else if op == 0xE0 {
        (CPU { registers: Registers { pc: add16_spec(cpu.registers.pc, 1), ..cpu.registers }, ..cpu })
    } else if op == 0xE1 {
        (CPU { registers: Registers { h: hi_byte_spec(bus_read16_spec(b, cpu.registers.sp)), l: lo_byte_spec(bus_read16_spec(b, cpu.registers.sp)), sp: add16_spec(cpu.registers.sp, 2), ..cpu.registers }, ..cpu })
    } else if op == 0xE2 {
        (CPU { ..cpu })
    } else if op == 0xE3 {
        cpu
    } else if op == 0xE4 {
        cpu
    } else if op == 0xE5 {
        (CPU { registers: Registers { sp: sub16_spec(cpu.registers.sp, 2), ..cpu.registers }, ..cpu })
    } else if op == 0xE6 {
        (CPU { registers: Registers { a: cpu.registers.a & bus_read_spec(b, cpu.registers.pc), f: logic_flags_spec(cpu.registers.a & bus_read_spec(b, cpu.registers.pc) == 0, true), pc: add16_spec(cpu.registers.pc, 1), ..cpu.registers }, ..cpu })
    } else if op == 0xE7 {
        (CPU { registers: Registers { pc: 0x20, sp: sub16_spec(cpu.registers.sp, 2), ..cpu.registers }, ..cpu })
    } else if op == 0xE8 {
        (CPU { registers: Registers { sp: add16_spec(cpu.registers.sp, sign_ext_spec(bus_read_spec(b, cpu.registers.pc))), f: sp_offset_flags_spec(cpu.registers.sp, bus_read_spec(b, cpu.registers.pc)), pc: add16_spec(cpu.registers.pc, 1), ..cpu.registers }, ..cpu })
    } else if op == 0xE9 {
        (CPU { registers: Registers { pc: cpu.registers.hl_spec(), ..cpu.registers }, ..cpu })
    } else if op == 0xEA {
        (CPU { registers: Registers { pc: add16_spec(cpu.registers.pc, 2), ..cpu.registers }, ..cpu })
    } else if op == 0xEB {
        cpu
    } else if op == 0xEC {
        cpu
    } else if op == 0xED {
        cpu
    } else if op == 0xEE {
        (CPU { registers: Registers { a: cpu.registers.a ^ bus_read_spec(b, cpu.registers.pc), f: logic_flags_spec(cpu.registers.a ^ bus_read_spec(b, cpu.registers.pc) == 0, false), pc: add16_spec(cpu.registers.pc, 1), ..cpu.registers }, ..cpu })
    } else if op == 0xEF {
        (CPU { registers: Registers { pc: 0x28, sp: sub16_spec(cpu.registers.sp, 2), ..cpu.registers }, ..cpu })
    } else if op == 0xF0 {
        (CPU { registers: Registers { a: bus_read_spec(b, (0xFF00 + bus_read_spec(b, cpu.registers.pc)) as u16), pc: add16_spec(cpu.registers.pc, 1), ..cpu.registers }, ..cpu })
    } else if op == 0xF1 {
        (CPU { registers: Registers { a: hi_byte_spec(bus_read16_spec(b, cpu.registers.sp)), f: flag_of_bits_spec(lo_byte_spec(bus_read16_spec(b, cpu.registers.sp))), sp: add16_spec(cpu.registers.sp, 2), ..cpu.registers }, ..cpu })
    } else if op == 0xF2 {
        (CPU { registers: Registers { a: bus_read_spec(b, (0xFF00 + cpu.registers.c) as u16), ..cpu.registers }, ..cpu })
    } else if op == 0xF3 {
        (CPU { ime: false, ..cpu })
    } else if op == 0xF4 {
        cpu
    } else if op == 0xF5 {
        (CPU { registers: Registers { sp: sub16_spec(cpu.registers.sp, 2), ..cpu.registers }, ..cpu })
    } else if op == 0xF6 {
        (CPU { registers: Registers { a: cpu.registers.a | bus_read_spec(b, cpu.registers.pc), f: logic_flags_spec(cpu.registers.a | bus_read_spec(b, cpu.registers.pc) == 0, false), pc: add16_spec(cpu.registers.pc, 1), ..cpu.registers }, ..cpu })
    } else if op == 0xF7 {
        (CPU { registers: Registers { pc: 0x30, sp: sub16_spec(cpu.registers.sp, 2), ..cpu.registers }, ..cpu })
    } else if op == 0xF8 {
        (CPU { registers: Registers { h: hi_byte_spec(add16_spec(cpu.registers.sp, sign_ext_spec(bus_read_spec(b, cpu.registers.pc)))), l: lo_byte_spec(add16_spec(cpu.registers.sp, sign_ext_spec(bus_read_spec(b, cpu.registers.pc)))), f: sp_offset_flags_spec(cpu.registers.sp, bus_read_spec(b, cpu.registers.pc)), pc: add16_spec(cpu.registers.pc, 1), ..cpu.registers }, ..cpu })
    } else if op == 0xF9 {
        (CPU { registers: Registers { sp: cpu.registers.hl_spec(), ..cpu.registers }, ..cpu })
    } else if op == 0xFA {
        (CPU { registers: Registers { a: bus_read_spec(b, bus_read16_spec(b, cpu.registers.pc)), pc: add16_spec(cpu.registers.pc, 2), ..cpu.registers }, ..cpu })
    } else if op == 0xFB {
        (CPU { ime: true, ..cpu })
    } else if op == 0xFC {
        cpu
    } else if op == 0xFD {
        cpu
    } else if op == 0xFE {
        (CPU { registers: Registers { f: sub_flags_spec(cpu.registers.a, bus_read_spec(b, cpu.registers.pc), 0), pc: add16_spec(cpu.registers.pc, 1), ..cpu.registers }, ..cpu })
    } else {
        (CPU { registers: Registers { pc: 0x38, sp: sub16_spec(cpu.registers.sp, 2), ..cpu.registers }, ..cpu })
    }
}

/// The bus after one primary opcode executes.
#[verifier::opaque]
pub open spec fn exec_bus_spec(cpu: CPU, b: BusAbs, op: u8) -> BusAbs {
    if op == 0x00 {
        b
    } else if op == 0x01 {
        b
    } else if op == 0x02 {
        bus_write_spec(b, cpu.registers.bc_spec(), cpu.registers.a)
    } else if op == 0x03 {
        b
    } else if op == 0x04 {
        b
    } else if op == 0x05 {
        b
    } else if op == 0x06 {
        b
    } else if op == 0x07 {
        b
    } else if op == 0x08 {
        bus_write16_spec(b, bus_read16_spec(b, cpu.registers.pc), cpu.registers.sp)
    } else if op == 0x09 {
        b
    } else if op == 0x0A {
        b
    } else if op == 0x0B {
        b
    } else if op == 0x0C {
        b
    } else if op == 0x0D {
        b
    } else if op == 0x0E {
        b
    } else if op == 0x0F {
        b
    } else if op == 0x10 {
        b
    } else if op == 0x11 {
        b
    } else if op == 0x12 {
        bus_write_spec(b, cpu.registers.de_spec(), cpu.registers.a)
    } else if op == 0x13 {
        b
    } else if op == 0x14 {
        b
    } else if op == 0x15 {
        b
    } else if op == 0x16 {
        b
    } else if op == 0x17 {
        b
    } else if op == 0x18 {
        b
    } else if op == 0x19 {
        b
    } else if op == 0x1A {
        b
    } else if op == 0x1B {
        b
    } else if op == 0x1C {
        b
    } else if op == 0x1D {
        b
    } else if op == 0x1E {
        b
    } else if op == 0x1F {
        b
    } else if op == 0x20 {
        b
    } else if op == 0x21 {
        b
    } else if op == 0x22 {
        bus_write_spec(b, cpu.registers.hl_spec(), cpu.registers.a)
    } else if op == 0x23 {
        b
    } else if op == 0x24 {
        b
    } else if op == 0x25 {
        b
    } else if op == 0x26 {
        b
    } else if op == 0x27 {
        b
    } else if op == 0x28 {
        b
    } else if op == 0x29 {
        b
    } else if op == 0x2A {
        b
    } else if op == 0x2B {
        b
    } else if op == 0x2C {
        b
    } else if op == 0x2D {
        b
    } else if op == 0x2E {
        b
    } else if op == 0x2F {
        b
    } else if op == 0x30 {
        b
    } else if op == 0x31 {
        b
    } else if op == 0x32 {
        bus_write_spec(b, cpu.registers.hl_spec(), cpu.registers.a)
    } else if op == 0x33 {
        b
    } else if op == 0x34 {
        bus_write_spec(b, cpu.registers.hl_spec(), add8_spec(bus_read_spec(b, cpu.registers.hl_spec()), 1, 0))
    } else if op == 0x35 {
        bus_write_spec(b, cpu.registers.hl_spec(), sub8_spec(bus_read_spec(b, cpu.registers.hl_spec()), 1, 0))
    } else if op == 0x36 {
        bus_write_spec(b, cpu.registers.hl_spec(), bus_read_spec(b, cpu.registers.pc))
    } else if op == 0x37 {
        b
    } else if op == 0x38 {
        b
    } else if op == 0x39 {
        b
    } else if op == 0x3A {
        b
    } else if op == 0x3B {
        b
    } else if op == 0x3C {
        b
    } else if op == 0x3D {
        b
    } else if op == 0x3E {
        b
    } else if op == 0x3F {
        b
    } else if op == 0x40 {
        b
    } else if op == 0x41 {
        b
    } else if op == 0x42 {
        b
    } else if op == 0x43 {
        b
    } else if op == 0x44 {
        b
    } else if op == 0x45 {
        b
    } else if op == 0x46 {
        b
    } else if op == 0x47 {
        b
    } else if op == 0x48 {
        b
    } else if op == 0x49 {
        b
    } else if op == 0x4A {
        b
    } else if op == 0x4B {
        b
    } else if op == 0x4C {
        b
    } else if op == 0x4D {
        b
    } else if op == 0x4E {
        b
    } else if op == 0x4F {
        b
    } else if op == 0x50 {
        b
    } else if op == 0x51 {
        b
    } else if op == 0x52 {
        b
    } else if op == 0x53 {
        b
    } else if op == 0x54 {
        b
    } else if op == 0x55 {
        b
    } else if op == 0x56 {
        b
    } else if op == 0x57 {
        b
    } else if op == 0x58 {
        b
    } else if op == 0x59 {
        b
    } else if op == 0x5A {
        b
    } else if op == 0x5B {
        b
    } else if op == 0x5C {
        b
    } else if op == 0x5D {
        b
    } else if op == 0x5E {
        b
    } else if op == 0x5F {
        b
    } else if op == 0x60 {
        b
    } else if op == 0x61 {
        b
    } else if op == 0x62 {
        b
    } else if op == 0x63 {
        b
    } else if op == 0x64 {
        b
    } else if op == 0x65 {
        b
    } else if op == 0x66 {
        b
    } else if op == 0x67 {
        b
    } else if op == 0x68 {
        b
    } else if op == 0x69 {
        b
    } else if op == 0x6A {
        b
    } else if op == 0x6B {
        b
    } else if op == 0x6C {
        b
    } else if op == 0x6D {
        b
    } else if op == 0x6E {
        b
    } else if op == 0x6F {
        b
    } else if op == 0x70 {
        bus_write_spec(b, cpu.registers.hl_spec(), cpu.registers.b)
    } else if op == 0x71 {
        bus_write_spec(b, cpu.registers.hl_spec(), cpu.registers.c)
    } else if op == 0x72 {
        bus_write_spec(b, cpu.registers.hl_spec(), cpu.registers.d)
    } else if op == 0x73 {
        bus_write_spec(b, cpu.registers.hl_spec(), cpu.registers.e)
    } else if op == 0x74 {
        bus_write_spec(b, cpu.registers.hl_spec(), cpu.registers.h)
    } else if op == 0x75 {
        bus_write_spec(b, cpu.registers.hl_spec(), cpu.registers.l)
    } else if op == 0x76 {
        b
    } else if op == 0x77 {
        bus_write_spec(b, cpu.registers.hl_spec(), cpu.registers.a)
    } else if op == 0x78 {
        b
    } else if op == 0x79 {
        b
    } else if op == 0x7A {
        b
    } else if op == 0x7B {
        b
    } else if op == 0x7C {
        b
    } else if op == 0x7D {
        b
    } else if op == 0x7E {
        b
    } else if op == 0x7F {
        b
    } else if op == 0x80 {
        b
    } else if op == 0x81 {
        b
    } else if op == 0x82 {
        b
    } else if op == 0x83 {
        b
    } else if op == 0x84 {
        b
    } else if op == 0x85 {
        b
    } else if op == 0x86 {
        b
    } else if op == 0x87 {
        b
    } else if op == 0x88 {
        b
    } else if op == 0x89 {
        b
    } else if op == 0x8A {
        b
    } else if op == 0x8B {
        b
    } else if op == 0x8C {
        b
    } else if op == 0x8D {
        b
    } else if op == 0x8E {
        b
    } else if op == 0x8F {
        b
    } else if op == 0x90 {
        b
    } else if op == 0x91 {
        b
    } else if op == 0x92 {
        b
    } else if op == 0x93 {
        b
    } else if op == 0x94 {
        b
    } else if op == 0x95 {
        b
    } else if op == 0x96 {
        b
    } else if op == 0x97 {
        b
    } else if op == 0x98 {
        b
    } else if op == 0x99 {
        b
    } else if op == 0x9A {
        b
    } else if op == 0x9B {
        b
    } else if op == 0x9C {
        b
    } else if op == 0x9D {
        b
    } else if op == 0x9E {
        b
    } else if op == 0x9F {
        b
    } else if op == 0xA0 {
        b
    } else if op == 0xA1 {
        b
    } else if op == 0xA2 {
        b
    } else if op == 0xA3 {
        b
    } else if op == 0xA4 {
        b
    } else if op == 0xA5 {
        b
    } else if op == 0xA6 {
        b
    } else if op == 0xA7 {
        b
    } else if op == 0xA8 {
        b
    } else if op == 0xA9 {
        b
    } else if op == 0xAA {
        b
    } else if op == 0xAB {
        b
    } else if op == 0xAC {
        b
    } else if op == 0xAD {
        b
    } else if op == 0xAE {
        b
    } else if op == 0xAF {
        b
    } else if op == 0xB0 {
        b
    } else if op == 0xB1 {
        b
    } else if op == 0xB2 {
        b
    } else if op == 0xB3 {
        b
    } else if op == 0xB4 {
        b
    } else if op == 0xB5 {
        b
    } else if op == 0xB6 {
        b
    } else if op == 0xB7 {
        b
    } else if op == 0xB8 {
        b
    } else if op == 0xB9 {
        b
    } else if op == 0xBA {
        b
    } else if op == 0xBB {
        b
    } else if op == 0xBC {
        b
    } else if op == 0xBD {
        b
    } else if op == 0xBE {
        b
    } else if op == 0xBF {
        b
    } else if op == 0xC0 {
        b
    } else if op == 0xC1 {
        b
    } else if op == 0xC2 {
        b
    } else if op == 0xC3 {
        b
    } else if op == 0xC4 {
        if !cpu.registers.f.zero { bus_write16_spec(b, sub16_spec(cpu.registers.sp, 2), add16_spec(cpu.registers.pc, 2)) } else { b }
    } else if op == 0xC5 {
        bus_write16_spec(b, sub16_spec(cpu.registers.sp, 2), cpu.registers.bc_spec())
    } else if op == 0xC6 {
        b
    } else if op == 0xC7 {
        bus_write16_spec(b, sub16_spec(cpu.registers.sp, 2), cpu.registers.pc)
    } else if op == 0xC8 {
        b
    } else if op == 0xC9 {
        b
    } else if op == 0xCA {
        b
    } else if op == 0xCB {
        ({ let op2 = bus_read_spec(b, cpu.registers.pc); let cpu2 = CPU { registers: Registers { pc: add16_spec(cpu.registers.pc, 1), ..cpu.registers }, ..cpu }; cb_bus_spec(cpu2, b, op2) })
    } else if op == 0xCC {
        if cpu.registers.f.zero { bus_write16_spec(b, sub16_spec(cpu.registers.sp, 2), add16_spec(cpu.registers.pc, 2)) } else { b }
    } else if op == 0xCD {
        bus_write16_spec(b, sub16_spec(cpu.registers.sp, 2), add16_spec(cpu.registers.pc, 2))
    } else if op == 0xCE {
        b
    } else if op == 0xCF {
        bus_write16_spec(b, sub16_spec(cpu.registers.sp, 2), cpu.registers.pc)
    } else if op == 0xD0 {
        b
    } else if op == 0xD1 {
        b
    } else if op == 0xD2 {
        b
    } else if op == 0xD3 {
        b
    } else if op == 0xD4 {
        if !cpu.registers.f.carry { bus_write16_spec(b, sub16_spec(cpu.registers.sp, 2), add16_spec(cpu.registers.pc, 2)) } else { b }
    } else if op == 0xD5 {
        bus_write16_spec(b, sub16_spec(cpu.registers.sp, 2), cpu.registers.de_spec())
    } else if op == 0xD6 {
        b
    } else if op == 0xD7 {
        bus_write16_spec(b, sub16_spec(cpu.registers.sp, 2), cpu.registers.pc)
    } else if op == 0xD8 {
        b
    } else if op == 0xD9 {
        b
    } else if op == 0xDA {
        b
    } else if op == 0xDB {
        b
    } else if op == 0xDC {
        if cpu.registers.f.carry { bus_write16_spec(b, sub16_spec(cpu.registers.sp, 2), add16_spec(cpu.registers.pc, 2)) } else { b }
    } else if op == 0xDD {
        b
    } else if op == 0xDE {
        b
    } else if op == 0xDF {
        bus_write16_spec(b, sub16_spec(cpu.registers.sp, 2), cpu.registers.pc)
    } else if op == 0xE0 {
        bus_write_spec(b, (0xFF00 + bus_read_spec(b, cpu.registers.pc)) as u16, cpu.registers.a)
    } else if op == 0xE1 {
        b
    } else if op == 0xE2 {
        bus_write_spec(b, (0xFF00 + cpu.registers.c) as u16, cpu.registers.a)
    } else if op == 0xE3 {
        b
    } else if op == 0xE4 {
        b
    } else if op == 0xE5 {
        bus_write16_spec(b, sub16_spec(cpu.registers.sp, 2), cpu.registers.hl_spec())
    } else if op == 0xE6 {
        b
    } else if op == 0xE7 {
        bus_write16_spec(b, sub16_spec(cpu.registers.sp, 2), cpu.registers.pc)
    } else if op == 0xE8 {
        b
    } else if op == 0xE9 {
        b
    } else if op == 0xEA {
        bus_write_spec(b, bus_read16_spec(b, cpu.registers.pc), cpu.registers.a)
    } else if op == 0xEB {
        b
    } else if op == 0xEC {
        b
    } else if op == 0xED {
        b
    } else if op == 0xEE {
        b
    } else if op == 0xEF {
        bus_write16_spec(b, sub16_spec(cpu.registers.sp, 2), cpu.registers.pc)
    } else if op == 0xF0 {
        b
    } else if op == 0xF1 {
        b
    } else if op == 0xF2 {
        b
    } else if op == 0xF3 {
        b
    } else if op == 0xF4 {
        b
    } else if op == 0xF5 {
        bus_write16_spec(b, sub16_spec(cpu.registers.sp, 2), cpu.registers.af_spec())
    } else if op == 0xF6 {
        b
    } else if op == 0xF7 {
        bus_write16_spec(b, sub16_spec(cpu.registers.sp, 2), cpu.registers.pc)
    } else if op == 0xF8 {
        b
    } else if op == 0xF9 {
        b
    } else if op == 0xFA {
        b
    } else if op == 0xFB {
        b
    } else if op == 0xFC {
        b
    } else if op == 0xFD {
        b
    } else if op == 0xFE {
        b
    } else {
        bus_write16_spec(b, sub16_spec(cpu.registers.sp, 2), cpu.registers.pc)
    }
}

/// The cycle cost of one primary opcode.
#[verifier::opaque]
pub open spec fn exec_cycles_spec(cpu: CPU, b: BusAbs, op: u8) -> usize {
    if op == 0x00 {
        4usize
    } else if op == 0x01 {
        12usize
    } else if op == 0x02 {
        8usize
    } else if op == 0x03 {
        8usize
    } else if op == 0x04 {
        4usize
    } else if op == 0x05 {
        4usize
    } else if op == 0x06 {
        8usize
    } else if op == 0x07 {
        4usize
    } else if op == 0x08 {
        20usize
    } else if op == 0x09 {
        8usize
    } else if op == 0x0A {
        8usize
    } else if op == 0x0B {
        8usize
    } else if op == 0x0C {
        4usize
    } else if op == 0x0D {
        4usize
    } else if op == 0x0E {
        8usize
    } else if op == 0x0F {
        4usize
    } else if op == 0x10 {
        4usize
    } else if op == 0x11 {
        12usize
    } else if op == 0x12 {
        8usize
    } else if op == 0x13 {
        8usize
    } else if op == 0x14 {
        4usize
    } else if op == 0x15 {
        4usize
    } else if op == 0x16 {
        8usize
    } else if op == 0x17 {
        4usize
    } else if op == 0x18 {
        12usize
    } else if op == 0x19 {
        8usize
    } else if op == 0x1A {
        8usize
    } else if op == 0x1B {
        8usize
    } else if op == 0x1C {
        4usize
    } else if op == 0x1D {
        4usize
    } else if op == 0x1E {
        8usize
    } else if op == 0x1F {
        4usize
    } else if op == 0x20 {
        if !cpu.registers.f.zero { 12usize } else { 8usize }
    } else if op == 0x21 {
        12usize
    } else if op == 0x22 {
        8usize
    } else if op == 0x23 {
        8usize
    } else if op == 0x24 {
        4usize
    } else if op == 0x25 {
        4usize
    } else if op == 0x26 {
        8usize
    } else if op == 0x27 {
        4usize
    } else if op == 0x28 {
        if cpu.registers.f.zero { 12usize } else { 8usize }
    } else if op == 0x29 {
        8usize
    } else if op == 0x2A {
        8usize
    } else if op == 0x2B {
        8usize
    } else if op == 0x2C {
        4usize
    } else if op == 0x2D {
        4usize
    } else if op == 0x2E {
        8usize
    } else if op == 0x2F {
        4usize
    } else if op == 0x30 {
        if !cpu.registers.f.carry { 12usize } else { 8usize }
    } else if op == 0x31 {
        12usize
    } else if op == 0x32 {
        8usize
    } else if op == 0x33 {
        8usize
    } else if op == 0x34 {
        12usize
    } else if op == 0x35 {
        12usize
    } else if op == 0x36 {
        12usize
    } else if op == 0x37 {
        4usize
    } else if op == 0x38 {
        if cpu.registers.f.carry { 12usize } else { 8usize }
    } else if op == 0x39 {
        8usize
    } else if op == 0x3A {
        8usize
    } else if op == 0x3B {
        8usize
    } else if op == 0x3C {
        4usize
    } else if op == 0x3D {
        4usize
    } else if op == 0x3E {
        8usize
    } else if op == 0x3F {
        4usize
    } else if op == 0x40 {
        4usize
    } else if op == 0x41 {
        4usize
    } else if op == 0x42 {
        4usize
    } else if op == 0x43 {
        4usize
    } else if op == 0x44 {
        4usize
    } else if op == 0x45 {
        4usize
    } else if op == 0x46 {
        8usize
    } else if op == 0x47 {
        4usize
    } else if op == 0x48 {
        4usize
    } else if op == 0x49 {
        4usize
    } else if op == 0x4A {
        4usize
    } else if op == 0x4B {
        4usize
    } else if op == 0x4C {
        4usize
    } else if op == 0x4D {
        4usize
    } else if op == 0x4E {
        8usize
    } else if op == 0x4F {
        4usize
    } else if op == 0x50 {
        4usize
    } else if op == 0x51 {
        4usize
    } else if op == 0x52 {
        4usize
    } else if op == 0x53 {
        4usize
    } else if op == 0x54 {
        4usize
    } else if op == 0x55 {
        4usize
    } else if op == 0x56 {
        8usize
    } else if op == 0x57 {
        4usize
    } else if op == 0x58 {
        4usize
    } else if op == 0x59 {
        4usize
    } else if op == 0x5A {
        4usize
    } else if op == 0x5B {
        4usize
    } else if op == 0x5C {
        4usize
    } else if op == 0x5D {
        4usize
    } else if op == 0x5E {
        8usize
    } else if op == 0x5F {
        4usize
    } else if op == 0x60 {
        4usize
    } else if op == 0x61 {
        4usize
    } else if op == 0x62 {
        4usize
    } else if op == 0x63 {
        4usize
    } else if op == 0x64 {
        4usize
    } else if op == 0x65 {
        4usize
    } else if op == 0x66 {
        8usize
    } else if op == 0x67 {
        4usize
    } else if op == 0x68 {
        4usize
    } else if op == 0x69 {
        4usize
    } else if op == 0x6A {
        4usize
    } else if op == 0x6B {
        4usize
    } else if op == 0x6C {
        4usize
    } else if op == 0x6D {
        4usize
    } else if op == 0x6E {
        8usize
    } else if op == 0x6F {
        4usize
    } else if op == 0x70 {
        8usize
    } else if op == 0x71 {
        8usize
    } else if op == 0x72 {
        8usize
    } else if op == 0x73 {
        8usize
    } else if op == 0x74 {
        8usize
    } else if op == 0x75 {
        8usize
    } else if op == 0x76 {
        4usize
    } else if op == 0x77 {
        8usize
    } else if op == 0x78 {
        4usize
    } else if op == 0x79 {
        4usize
    } else if op == 0x7A {
        4usize
    } else if op == 0x7B {
        4usize
    } else if op == 0x7C {
        4usize
    } else if op == 0x7D {
        4usize
    } else if op == 0x7E {
        8usize
    } else if op == 0x7F {
        4usize
    } else if op == 0x80 {
        4usize
    } else if op == 0x81 {
        4usize
    } else if op == 0x82 {
        4usize
    } else if op == 0x83 {
        4usize
    } else if op == 0x84 {
        4usize
    } else if op == 0x85 {
        4usize
    } else if op == 0x86 {
        8usize
    } else if op == 0x87 {
        4usize
    } else if op == 0x88 {
        4usize
    } else if op == 0x89 {
        4usize
    } else if op == 0x8A {
        4usize
    } else if op == 0x8B {
        4usize
    } else if op == 0x8C {
        4usize
    } else if op == 0x8D {
        4usize
    } else if op == 0x8E {
        8usize
    } else if op == 0x8F {
        4usize
    } else if op == 0x90 {
        4usize
    } else if op == 0x91 {
        4usize
    } else if op == 0x92 {
        4usize
    } else if op == 0x93 {
        4usize
    } else if op == 0x94 {
        4usize
    } else if op == 0x95 {
        4usize
    } else if op == 0x96 {
        8usize
    } else if op == 0x97 {
        4usize
    } else if op == 0x98 {
        4usize
    } else if op == 0x99 {
        4usize
    } else if op == 0x9A {
        4usize
    } else if op == 0x9B {
        4usize
    } else if op == 0x9C {
        4usize
    } else if op == 0x9D {
        4usize
    } else if op == 0x9E {
        8usize
    } else if op == 0x9F {
        4usize
    } else if op == 0xA0 {
        4usize
    } else if op == 0xA1 {
        4usize
    } else if op == 0xA2 {
        4usize
    } else if op == 0xA3 {
        4usize
    } else if op == 0xA4 {
        4usize
    } else if op == 0xA5 {
        4usize
    } else if op == 0xA6 {
        8usize
    } else if op == 0xA7 {
        4usize
    } else if op == 0xA8 {
        4usize
    } else if op == 0xA9 {
        4usize
    } else if op == 0xAA {
        4usize
    } else if op == 0xAB {
        4usize
    } else if op == 0xAC {
        4usize
    } else if op == 0xAD {
        4usize
    } else if op == 0xAE {
        8usize
    } else if op == 0xAF {
        4usize
    } else if op == 0xB0 {
        4usize
    } else if op == 0xB1 {
        4usize
    } else if op == 0xB2 {
        4usize
    } else if op == 0xB3 {
        4usize
    } else if op == 0xB4 {
        4usize
    } else if op == 0xB5 {
        4usize
    } else if op == 0xB6 {
        8usize
    } else if op == 0xB7 {
        4usize
    } else if op == 0xB8 {
        4usize
    } else if op == 0xB9 {
        4usize
    } else if op == 0xBA {
        4usize
    } else if op == 0xBB {
        4usize
    } else if op == 0xBC {
        4usize
    } else if op == 0xBD {
        4usize
    } else if op == 0xBE {
        8usize
    } else if op == 0xBF {
        4usize
    } else if op == 0xC0 {
        if !cpu.registers.f.zero { 20usize } else { 8usize }
    } else if op == 0xC1 {
        12usize
    } else if op == 0xC2 {
        if !cpu.registers.f.zero { 16usize } else { 12usize }
    } else if op == 0xC3 {
        16usize
    } else if op == 0xC4 {
        if !cpu.registers.f.zero { 24usize } else { 12usize }
    } else if op == 0xC5 {
        16usize
    } else if op == 0xC6 {
        8usize
    } else if op == 0xC7 {
        16usize
    } else if op == 0xC8 {
        if cpu.registers.f.zero { 20usize } else { 8usize }
    } else if op == 0xC9 {
        16usize
    } else if op == 0xCA {
        if cpu.registers.f.zero { 16usize } else { 12usize }
    } else if op == 0xCB {
        ({ let op2 = bus_read_spec(b, cpu.registers.pc); let cpu2 = CPU { registers: Registers { pc: add16_spec(cpu.registers.pc, 1), ..cpu.registers }, ..cpu }; cb_cycles_spec(cpu2, b, op2) })
    } else if op == 0xCC {
        if cpu.registers.f.zero { 24usize } else { 12usize }
    } else if op == 0xCD {
        24usize
    } else if op == 0xCE {
        8usize
    } else if op == 0xCF {
        16usize
    } else if op == 0xD0 {
        if !cpu.registers.f.carry { 20usize } else { 8usize }
    } else if op == 0xD1 {
        12usize
    } else if op == 0xD2 {
        if !cpu.registers.f.carry { 16usize } else { 12usize }
    } else if op == 0xD3 {
        4usize
    } else if op == 0xD4 {
        if !cpu.registers.f.carry { 24usize } else { 12usize }
    } else if op == 0xD5 {
        16usize
    } else if op == 0xD6 {
        8usize
    } else if op == 0xD7 {
        16usize
    } else if op == 0xD8 {
        if cpu.registers.f.carry { 20usize } else { 8usize }
    } else if op == 0xD9 {
        16usize
    } else if op == 0xDA {
        if cpu.registers.f.carry { 16usize } else { 12usize }
    } else if op == 0xDB {
        4usize
    } else if op == 0xDC {
        if cpu.registers.f.carry { 24usize } else { 12usize }
    } else if op == 0xDD {
        4usize
    } else if op == 0xDE {
        8usize
    } else if op == 0xDF {
        16usize
    } else if op == 0xE0 {
        12usize
    } else if op == 0xE1 {
        12usize
    } else if op == 0xE2 {
        8usize
    } else if op == 0xE3 {
        4usize
    } else if op == 0xE4 {
        4usize
    } else if op == 0xE5 {
        16usize
    } else if op == 0xE6 {
        8usize
    } else if op == 0xE7 {
        16usize
    } else if op == 0xE8 {
        16usize
    } else if op == 0xE9 {
        4usize
    } else if op == 0xEA {
        16usize
    } else if op == 0xEB {
        4usize
    } else if op == 0xEC {
        4usize
    } else if op == 0xED {
        4usize
    } else if op == 0xEE {
        8usize
    } else if op == 0xEF {
        16usize
    } else if op == 0xF0 {
        12usize
    } else if op == 0xF1 {
        12usize
    } else if op == 0xF2 {
        8usize
    } else if op == 0xF3 {
        4usize
    } else if op == 0xF4 {
        4usize
    } else if op == 0xF5 {
        16usize
    } else if op == 0xF6 {
        8usize
    } else if op == 0xF7 {
        16usize
    } else if op == 0xF8 {
        12usize
    } else if op == 0xF9 {
        8usize
    } else if op == 0xFA {
        16usize
    } else if op == 0xFB {
        4usize
    } else if op == 0xFC {
        4usize
    } else if op == 0xFD {
        4usize
    } else if op == 0xFE {
        8usize
    } else {
        16usize
    }
}


/// A 0xCB-prefixed opcode never touches the diagnostic cycle counter.
pub proof fn lemma_cb_preserves_counter(cpu: CPU, b: BusAbs, op: u8)
    ensures
        cb_cpu_spec(cpu, b, op).cycles == cpu.cycles,
{
    reveal(cb_cpu_spec);
}

/// No opcode touches the diagnostic cycle counter; only the step loop
/// advances it.
pub proof fn lemma_exec_preserves_counter(cpu: CPU, b: BusAbs, op: u8)
    ensures
        exec_cpu_spec(cpu, b, op).cycles == cpu.cycles,
{
    reveal(exec_cpu_spec);
    let op2 = bus_read_spec(b, cpu.registers.pc);
    let cpu2 = CPU {
        registers: Registers { pc: add16_spec(cpu.registers.pc, 1), ..cpu.registers },
        ..cpu
    };
    lemma_cb_preserves_counter(cpu2, b, op2);
}


/// Every 0xCB-prefixed opcode costs between 8 and 16 cycles.
pub proof fn lemma_cb_cycles_bounds(cpu: CPU, b: BusAbs, op: u8)
    ensures
        8 <= cb_cycles_spec(cpu, b, op) <= 16,
{
    reveal(cb_cycles_spec);
}

/// Every primary opcode costs between 4 and 24 cycles.
pub proof fn lemma_exec_cycles_bounds(cpu: CPU, b: BusAbs, op: u8)
    ensures
        4 <= exec_cycles_spec(cpu, b, op) <= 24,
{
    reveal(exec_cycles_spec);
    let op2 = bus_read_spec(b, cpu.registers.pc);
    let cpu2 = CPU {
        registers: Registers { pc: add16_spec(cpu.registers.pc, 1), ..cpu.registers },
        ..cpu
    };
    lemma_cb_cycles_bounds(cpu2, b, op2);
}

/// The whole of one processor step: an interrupt dispatch when IME is
/// set and an enabled interrupt is pending; a four-cycle tick while
/// halted with nothing pending; otherwise one fetch and execution, a
/// pending interrupt having lifted any halt, with the opcode-map holes
/// reported as errors.
pub open spec fn cpu_step_spec(cpu: CPU, b: BusAbs) -> (CPU, BusAbs, Result<usize, CoreError>) {
    let p = pending_spec(b);
    if cpu.ime && p != 0 {
        (
            CPU {
                cycles: sat_add64_spec(cpu.cycles, 16),
                ..dispatch_cpu_spec(cpu, low_bit_spec(p))
            },
            dispatch_bus_spec(b, cpu, low_bit_spec(p)),
            Ok(16usize),
        )
    } else if cpu.halt && p == 0 {
        (CPU { cycles: sat_add64_spec(cpu.cycles, 4), ..cpu }, b, Ok(4usize))
    } else {
        let op = bus_read_spec(b, cpu.registers.pc);
        let fetched = CPU {
            halt: false,
            registers: Registers { pc: add16_spec(cpu.registers.pc, 1), ..cpu.registers },
            ..cpu
        };
        if undefined_op_spec(op) {
            (fetched, b, Err(CoreError::UndefinedOpcode(op)))
        } else {
            let c = exec_cycles_spec(fetched, b, op);
            (
                CPU { cycles: sat_add64_spec(cpu.cycles, c as u64), ..exec_cpu_spec(fetched, b, op) },
                exec_bus_spec(fetched, b, op),
                Ok(c),
            )
        }
    }
}

/// A successful processor step costs between 4 and 24 cycles.
pub proof fn lemma_cpu_step_cycles(cpu: CPU, b: BusAbs)
    ensures
        cpu_step_spec(cpu, b).2 matches Ok(c) ==> 4 <= c <= 24,
{
    let p = pending_spec(b);
    if !(cpu.ime && p != 0) && !(cpu.halt && p == 0) {
        let op = bus_read_spec(b, cpu.registers.pc);
        let fetched = CPU {
            halt: false,
            registers: Registers { pc: add16_spec(cpu.registers.pc, 1), ..cpu.registers },
            ..cpu
        };
        lemma_exec_cycles_bounds(fetched, b, op);
    }
}

} // verus!
