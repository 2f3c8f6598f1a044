//! Decode-and-execute dispatch over all 256 opcodes. The effect of each
//! instruction on registers, flags, memory, the program counter and the
//! returned cycle count is stated once, by the specification interpreter
//! `spec_execute`, and the executable dispatcher `execute` is proved to
//! realize it for every opcode and every machine state.
//!
//! PC semantics: on entry PC addresses the opcode; it first advances by 1,
//! and each opcode then adds 0, 1 or 2 for its immediate bytes, except
//! control transfers, which overwrite PC and add 0. HLT (0x76) returns a
//! cycle count of 0, which callers treat as a terminal halt.

use vstd::prelude::*;
use crate::alu::ALU;
use crate::alu::alu_after_add;
use crate::alu::alu_after_sub;
use crate::alu::wrap16;
use crate::alu::wrap8;
use crate::cpu::CPU;
use crate::cpu::ConditionCodes;
use crate::cpu::cpu_wf;
use crate::cpu::hi8;
use crate::cpu::lo8;
use crate::cpu::pair16;
use crate::cpu::spec_get_psw;
use crate::cpu::spec_set_arith;
use crate::cpu::spec_set_logic;
use crate::cpu::spec_set_psw;
use crate::cpu::spec_set_zsp;

verus! {

/// Everything one instruction changes: the CPU, the ALU outputs, memory, and
/// the cycle count the step reports.
pub struct StepOut {
    pub cpu: CPU,
    pub alu: ALU,
    pub mem: Seq<u8>,
    pub cycles: u8,
}

/// The effect of one opcode arm before the trailing PC adjustment: `inc` is
/// how many immediate bytes PC still advances past.
pub struct OpOut {
    pub cpu: CPU,
    pub alu: ALU,
    pub mem: Seq<u8>,
    pub inc: u16,
}

/// A 16-bit word read little-endian from memory (low byte at `addr`).
pub open spec fn read16(mem: Seq<u8>, addr: u16) -> u16 {
    pair16(mem[wrap16(addr + 1) as int], mem[addr as int])
}

/// Push two bytes: `hi` goes to SP-1, `lo` to SP-2, and SP drops by 2.
/// Stack addresses wrap modulo 2^16.
pub open spec fn spec_push(cpu: CPU, mem: Seq<u8>, hi: u8, lo: u8) -> (CPU, Seq<u8>) {
    (
        CPU { sp: wrap16(cpu.sp - 2), ..cpu },
        mem.update(wrap16(cpu.sp - 1) as int, hi).update(wrap16(cpu.sp - 2) as int, lo),
    )
}

/// RET: pop two bytes from the stack into PC; SP rises by 2.
pub open spec fn spec_ret(cpu: CPU, mem: Seq<u8>) -> CPU {
    CPU { pc: read16(mem, cpu.sp), sp: wrap16(cpu.sp + 2), ..cpu }
}

/// Call entry used by RST and interrupts: the current PC is pushed as the
/// return address and PC jumps to `addr`.
pub open spec fn spec_call(cpu: CPU, mem: Seq<u8>, addr: u16) -> (CPU, Seq<u8>) {
    let pushed = spec_push(cpu, mem, hi8(cpu.pc), lo8(cpu.pc));
    (CPU { pc: addr, ..pushed.0 }, pushed.1)
}

/// CALL with a two-byte operand: the return address is PC advanced past it.
pub open spec fn spec_callx(cpu: CPU, mem: Seq<u8>, addr: u16) -> (CPU, Seq<u8>) {
    let ret = wrap16(cpu.pc + 2);
    let pushed = spec_push(cpu, mem, hi8(ret), lo8(ret));
    (CPU { pc: addr, ..pushed.0 }, pushed.1)
}

/// An arithmetic result written to A with all five flags derived from it.
pub open spec fn spec_arith(cpu: CPU, mem: Seq<u8>, a: u8, alu: ALU, inc: u16) -> OpOut {
    OpOut { cpu: CPU { a, cc: spec_set_arith(a, alu), ..cpu }, alu, mem, inc }
}

/// CMP: the subtraction result is discarded, only the flags are written.
pub open spec fn spec_cmp(cpu: CPU, mem: Seq<u8>, r: u8, alu: ALU, inc: u16) -> OpOut {
    OpOut { cpu: CPU { cc: spec_set_arith(r, alu), ..cpu }, alu, mem, inc }
}

/// A logical result written to A: Z/S/P from the value, CY and AC cleared.
pub open spec fn spec_logic(cpu: CPU, alu: ALU, mem: Seq<u8>, a: u8, inc: u16) -> OpOut {
    OpOut { cpu: CPU { a, cc: spec_set_logic(a), ..cpu }, alu, mem, inc }
}

/// INR: an 8-bit increment that leaves CY untouched.
pub open spec fn spec_inr(cc: ConditionCodes, r: u8) -> (u8, ALU, ConditionCodes) {
    let alu = alu_after_add(r, 1, 0);
    let v = wrap8(r + 1);
    (v, alu, spec_set_zsp(cc, v, alu))
}

/// DCR: an 8-bit decrement that leaves CY untouched.
pub open spec fn spec_dcr(cc: ConditionCodes, r: u8) -> (u8, ALU, ConditionCodes) {
    let alu = alu_after_sub(r, 1, 0);
    let v = wrap8(r - 1);
    (v, alu, spec_set_zsp(cc, v, alu))
}

/// DAD: HL gains a register pair as a 16-bit add; only CY is updated.
pub open spec fn spec_dad(cpu: CPU, alu: ALU, mem: Seq<u8>, rp: u16) -> OpOut {
    let sum = pair16(cpu.h, cpu.l) + rp;
    let hl = wrap16(sum);
    OpOut {
        cpu: CPU {
            h: hi8(hl),
            l: lo8(hl),
            cc: ConditionCodes { cy: if sum > 0xFFFF { 1 } else { 0 }, ..cpu.cc },
            ..cpu
        },
        alu: ALU { cy: sum > 0xFFFF, ac: alu.ac },
        mem,
        inc: 0,
    }
}

/// DAA, decimal adjust of A. If the low nibble exceeds 9 or AC is set, 6 is
/// added; AC is then latched from the ALU; if the high nibble of the partial
/// result exceeds 9 or CY is set, 0x60 is added; finally all five flags are
/// derived from the result. An untaken first step leaves the ALU's transient
/// flags from the previous operation in force, as on the original part.
pub open spec fn spec_daa(cpu: CPU, alu: ALU) -> (CPU, ALU) {
    let low = cpu.a % 16 > 9 || cpu.cc.ac == 1;
    let a1v = if low { wrap8(cpu.a + 6) } else { cpu.a };
    let alu1 = if low { alu_after_add(cpu.a, 6, 0) } else { alu };
    let high = a1v / 16 > 9 || cpu.cc.cy == 1;
    let a2v = if high { wrap8(a1v + 96) } else { a1v };
    let alu2 = if high { alu_after_add(a1v, 96, 0) } else { alu1 };
    (CPU { a: a2v, cc: spec_set_arith(a2v, alu2), ..cpu }, alu2)
}

/// The base cycle cost of each opcode: the fixed 8080 timing table, indexed
/// by the opcode byte. Conditional branches charge this base whether or not
/// they are taken.
pub open spec fn spec_cycles(op: u8) -> u8 {
    match op {
        0x00 | 0x07 | 0x08 | 0x0F | 0x10 | 0x17 | 0x18 | 0x1F | 0x20 | 0x27 | 0x28 | 0x2F | 0x30
        | 0x37 | 0x38 | 0x3F | 0x80 | 0x81 | 0x82 | 0x83 | 0x84 | 0x85 | 0x87 | 0x88 | 0x89 | 0x8A
        | 0x8B | 0x8C | 0x8D | 0x8F | 0x90 | 0x91 | 0x92 | 0x93 | 0x94 | 0x95 | 0x97 | 0x98 | 0x99
        | 0x9A | 0x9B | 0x9C | 0x9D | 0x9F | 0xA0 | 0xA1 | 0xA2 | 0xA3 | 0xA4 | 0xA5 | 0xA7 | 0xA8
        | 0xA9 | 0xAA | 0xAB | 0xAC | 0xAD | 0xAF | 0xB0 | 0xB1 | 0xB2 | 0xB3 | 0xB4 | 0xB5 | 0xB7
        | 0xB8 | 0xB9 | 0xBA | 0xBB | 0xBC | 0xBD | 0xBF | 0xF3 | 0xFB => 4,
        0x03 | 0x04 | 0x05 | 0x0B | 0x0C | 0x0D | 0x13 | 0x14 | 0x15 | 0x1B | 0x1C | 0x1D | 0x23
        | 0x24 | 0x25 | 0x2B | 0x2C | 0x2D | 0x33 | 0x3B | 0x3C | 0x3D | 0x40 | 0x41 | 0x42 | 0x43
        | 0x44 | 0x45 | 0x47 | 0x48 | 0x49 | 0x4A | 0x4B | 0x4C | 0x4D | 0x4F | 0x50 | 0x51 | 0x52
        | 0x53 | 0x54 | 0x55 | 0x57 | 0x58 | 0x59 | 0x5A | 0x5B | 0x5C | 0x5D | 0x5F | 0x60 | 0x61
        | 0x62 | 0x63 | 0x64 | 0x65 | 0x67 | 0x68 | 0x69 | 0x6A | 0x6B | 0x6C | 0x6D | 0x6F | 0x78
        | 0x79 | 0x7A | 0x7B | 0x7C | 0x7D | 0x7F | 0xE9 | 0xEB | 0xF9 => 5,
        0x02 | 0x06 | 0x0A | 0x0E | 0x12 | 0x16 | 0x1A | 0x1E | 0x26 | 0x2E | 0x3E | 0x46 | 0x4E
        | 0x56 | 0x5E | 0x66 | 0x6E | 0x70 | 0x71 | 0x72 | 0x73 | 0x74 | 0x75 | 0x76 | 0x77 | 0x7E
        | 0x86 | 0x8E | 0x96 | 0x9E | 0xA6 | 0xAE | 0xB6 | 0xBE | 0xC6 | 0xCE | 0xD6 | 0xDE | 0xE6
        | 0xEE | 0xF6 | 0xFE => 7,
        0x01 | 0x09 | 0x11 | 0x19 | 0x21 | 0x29 | 0x31 | 0x34 | 0x35 | 0x36 | 0x39 | 0xC1 | 0xC2
        | 0xC3 | 0xC9 | 0xCA | 0xCB | 0xCC | 0xD1 | 0xD2 | 0xD3 | 0xDA | 0xE1 | 0xE2 | 0xEA | 0xF1
        | 0xD9 | 0xDB | 0xDC | 0xF2 | 0xFA => 10,
        0xC0 | 0xC5 | 0xC7 | 0xC8 | 0xCF | 0xD0 | 0xD5 | 0xD7 | 0xD8 | 0xDF | 0xE0 | 0xE5 | 0xE7
        | 0xE8 | 0xEF | 0xF0 | 0xF5 | 0xF7 | 0xF8 | 0xFF => 11,
        0x32 | 0x3A => 13,
        0x22 | 0x2A => 16,
        0xC4 | 0xCD | 0xD4 | 0xDD | 0xE4 | 0xEC | 0xED | 0xF4 | 0xFC | 0xFD => 17,
        // XTHL.
        _ => 18,
    }
}

/// Opcodes 0x00..0x1F: NOPs, BC/DE loads and steps, increments,
/// decrements, immediate loads, rotates and DAD of BC/DE.
#[verifier::opaque]
pub open spec fn spec_op_misc_lo(cpu: CPU, alu: ALU, mem: Seq<u8>, op: u8, a1: u8, a2: u8) -> OpOut {
    let args = pair16(a2, a1);
    let hl = pair16(cpu.h, cpu.l) as int;
    match op {
        0x01 => OpOut { cpu: CPU { c: a1, b: a2, ..cpu }, alu, mem, inc: 2 },
        0x02 => OpOut { cpu, alu, mem: mem.update(pair16(cpu.b, cpu.c) as int, cpu.a), inc: 0 },
        0x03 => {
            let v = wrap16(pair16(cpu.b, cpu.c) + 1);
            OpOut { cpu: CPU { b: hi8(v), c: lo8(v), ..cpu }, alu, mem, inc: 0 }
        },
        0x04 => {
            let t = spec_inr(cpu.cc, cpu.b);
            OpOut { cpu: CPU { b: t.0, cc: t.2, ..cpu }, alu: t.1, mem, inc: 0 }
        },
        0x05 => {
            let t = spec_dcr(cpu.cc, cpu.b);
            OpOut { cpu: CPU { b: t.0, cc: t.2, ..cpu }, alu: t.1, mem, inc: 0 }
        },
        0x06 => OpOut { cpu: CPU { b: a1, ..cpu }, alu, mem, inc: 1 },
        0x07 => OpOut {
            cpu: CPU {
                a: (cpu.a % 128 * 2 + cpu.a / 128) as u8,
                cc: ConditionCodes { cy: cpu.a / 128, ..cpu.cc },
                ..cpu
            },
            alu,
            mem,
            inc: 0,
        },
        0x09 => spec_dad(cpu, alu, mem, pair16(cpu.b, cpu.c)),
        0x0A => OpOut { cpu: CPU { a: mem[pair16(cpu.b, cpu.c) as int], ..cpu }, alu, mem, inc: 0 },
        0x0B => {
            let v = wrap16(pair16(cpu.b, cpu.c) - 1);
            OpOut { cpu: CPU { b: hi8(v), c: lo8(v), ..cpu }, alu, mem, inc: 0 }
        },
        0x0C => {
            let t = spec_inr(cpu.cc, cpu.c);
            OpOut { cpu: CPU { c: t.0, cc: t.2, ..cpu }, alu: t.1, mem, inc: 0 }
        },
        0x0D => {
            let t = spec_dcr(cpu.cc, cpu.c);
            OpOut { cpu: CPU { c: t.0, cc: t.2, ..cpu }, alu: t.1, mem, inc: 0 }
        },
        0x0E => OpOut { cpu: CPU { c: a1, ..cpu }, alu, mem, inc: 1 },
        0x0F => OpOut {
            cpu: CPU {
                a: (cpu.a / 2 + cpu.a % 2 * 128) as u8,
                cc: ConditionCodes { cy: cpu.a % 2, ..cpu.cc },
                ..cpu
            },
            alu,
            mem,
            inc: 0,
        },
        0x11 => OpOut { cpu: CPU { e: a1, d: a2, ..cpu }, alu, mem, inc: 2 },
        0x12 => OpOut { cpu, alu, mem: mem.update(pair16(cpu.d, cpu.e) as int, cpu.a), inc: 0 },
        0x13 => {
            let v = wrap16(pair16(cpu.d, cpu.e) + 1);
            OpOut { cpu: CPU { d: hi8(v), e: lo8(v), ..cpu }, alu, mem, inc: 0 }
        },
        0x14 => {
            let t = spec_inr(cpu.cc, cpu.d);
            OpOut { cpu: CPU { d: t.0, cc: t.2, ..cpu }, alu: t.1, mem, inc: 0 }
        },
        0x15 => {
            let t = spec_dcr(cpu.cc, cpu.d);
            OpOut { cpu: CPU { d: t.0, cc: t.2, ..cpu }, alu: t.1, mem, inc: 0 }
        },
        0x16 => OpOut { cpu: CPU { d: a1, ..cpu }, alu, mem, inc: 1 },
        0x17 => OpOut {
            cpu: CPU {
                a: (cpu.a % 128 * 2 + cpu.cc.cy) as u8,
                cc: ConditionCodes { cy: cpu.a / 128, ..cpu.cc },
                ..cpu
            },
            alu,
            mem,
            inc: 0,
        },
        0x19 => spec_dad(cpu, alu, mem, pair16(cpu.d, cpu.e)),
        0x1A => OpOut { cpu: CPU { a: mem[pair16(cpu.d, cpu.e) as int], ..cpu }, alu, mem, inc: 0 },
        0x1B => {
            let v = wrap16(pair16(cpu.d, cpu.e) - 1);
            OpOut { cpu: CPU { d: hi8(v), e: lo8(v), ..cpu }, alu, mem, inc: 0 }
        },
        0x1C => {
            let t = spec_inr(cpu.cc, cpu.e);
            OpOut { cpu: CPU { e: t.0, cc: t.2, ..cpu }, alu: t.1, mem, inc: 0 }
        },
        0x1D => {
            let t = spec_dcr(cpu.cc, cpu.e);
            OpOut { cpu: CPU { e: t.0, cc: t.2, ..cpu }, alu: t.1, mem, inc: 0 }
        },
        0x1E => OpOut { cpu: CPU { e: a1, ..cpu }, alu, mem, inc: 1 },
        0x1F => OpOut {
            cpu: CPU {
                a: (cpu.cc.cy * 128 + cpu.a / 2) as u8,
                cc: ConditionCodes { cy: cpu.a % 2, ..cpu.cc },
                ..cpu
            },
            alu,
            mem,
            inc: 0,
        },
        // NOP and the undocumented NOPs 0x08, 0x10 and 0x18.
        _ => OpOut { cpu, alu, mem, inc: 0 },
    }
}

/// Opcodes 0x20..0x30: HL loads and steps, SHLD/LHLD, decimal adjust,
/// DAD of HL and complement of A.
#[verifier::opaque]
pub open spec fn spec_op_misc_hi(cpu: CPU, alu: ALU, mem: Seq<u8>, op: u8, a1: u8, a2: u8) -> OpOut {
    let args = pair16(a2, a1);
    let hl = pair16(cpu.h, cpu.l) as int;
    match op {
        0x21 => OpOut { cpu: CPU { l: a1, h: a2, ..cpu }, alu, mem, inc: 2 },
        0x22 => OpOut {
            cpu,
            alu,
            mem: mem.update(args as int, cpu.l).update(wrap16(args + 1) as int, cpu.h),
            inc: 2,
        },
        0x23 => {
            let v = wrap16(pair16(cpu.h, cpu.l) + 1);
            OpOut { cpu: CPU { h: hi8(v), l: lo8(v), ..cpu }, alu, mem, inc: 0 }
        },
        0x24 => {
            let t = spec_inr(cpu.cc, cpu.h);
            OpOut { cpu: CPU { h: t.0, cc: t.2, ..cpu }, alu: t.1, mem, inc: 0 }
        },
        0x25 => {
            let t = spec_dcr(cpu.cc, cpu.h);
            OpOut { cpu: CPU { h: t.0, cc: t.2, ..cpu }, alu: t.1, mem, inc: 0 }
        },
        0x26 => OpOut { cpu: CPU { h: a1, ..cpu }, alu, mem, inc: 1 },
        0x27 => {
            let t = spec_daa(cpu, alu);
            OpOut { cpu: t.0, alu: t.1, mem, inc: 0 }
        },
        0x29 => spec_dad(cpu, alu, mem, pair16(cpu.h, cpu.l)),
        0x2A => OpOut {
            cpu: CPU { l: mem[args as int], h: mem[wrap16(args + 1) as int], ..cpu },
            alu,
            mem,
            inc: 2,
        },
        0x2B => {
            let v = wrap16(pair16(cpu.h, cpu.l) - 1);
            OpOut { cpu: CPU { h: hi8(v), l: lo8(v), ..cpu }, alu, mem, inc: 0 }
        },
        0x2C => {
            let t = spec_inr(cpu.cc, cpu.l);
            OpOut { cpu: CPU { l: t.0, cc: t.2, ..cpu }, alu: t.1, mem, inc: 0 }
        },
        0x2D => {
            let t = spec_dcr(cpu.cc, cpu.l);
            OpOut { cpu: CPU { l: t.0, cc: t.2, ..cpu }, alu: t.1, mem, inc: 0 }
        },
        0x2E => OpOut { cpu: CPU { l: a1, ..cpu }, alu, mem, inc: 1 },
        0x2F => OpOut { cpu: CPU { a: !cpu.a, ..cpu }, alu, mem, inc: 0 },
        // Undocumented NOPs 0x20, 0x28 and 0x30.
        _ => OpOut { cpu, alu, mem, inc: 0 },
    }
}

/// Opcodes 0x31..0x3F: SP loads and steps, STA/LDA, increment and
/// decrement of A and of memory-at-HL, and the carry-flag operations.
#[verifier::opaque]
pub open spec fn spec_op_misc_top(cpu: CPU, alu: ALU, mem: Seq<u8>, op: u8, a1: u8, a2: u8) -> OpOut {
    let args = pair16(a2, a1);
    let hl = pair16(cpu.h, cpu.l) as int;
    match op {
        0x31 => OpOut { cpu: CPU { sp: args, ..cpu }, alu, mem, inc: 2 },
        0x32 => OpOut { cpu, alu, mem: mem.update(args as int, cpu.a), inc: 2 },
        0x33 => OpOut { cpu: CPU { sp: wrap16(cpu.sp + 1), ..cpu }, alu, mem, inc: 0 },
        0x34 => {
            let t = spec_inr(cpu.cc, mem[hl]);
            OpOut { cpu: CPU { cc: t.2, ..cpu }, alu: t.1, mem: mem.update(hl, t.0), inc: 0 }
        },
        0x35 => {
            let t = spec_dcr(cpu.cc, mem[hl]);
            OpOut { cpu: CPU { cc: t.2, ..cpu }, alu: t.1, mem: mem.update(hl, t.0), inc: 0 }
        },
        0x36 => OpOut { cpu, alu, mem: mem.update(hl, a1), inc: 1 },
        0x37 => OpOut { cpu: CPU { cc: ConditionCodes { cy: 1, ..cpu.cc }, ..cpu }, alu, mem, inc: 0 },
        0x39 => spec_dad(cpu, alu, mem, cpu.sp),
        0x3A => OpOut { cpu: CPU { a: mem[args as int], ..cpu }, alu, mem, inc: 2 },
        0x3B => OpOut { cpu: CPU { sp: wrap16(cpu.sp - 1), ..cpu }, alu, mem, inc: 0 },
        0x3C => {
            let t = spec_inr(cpu.cc, cpu.a);
            OpOut { cpu: CPU { a: t.0, cc: t.2, ..cpu }, alu: t.1, mem, inc: 0 }
        },
        0x3D => {
            let t = spec_dcr(cpu.cc, cpu.a);
            OpOut { cpu: CPU { a: t.0, cc: t.2, ..cpu }, alu: t.1, mem, inc: 0 }
        },
        0x3E => OpOut { cpu: CPU { a: a1, ..cpu }, alu, mem, inc: 1 },
        0x3F => OpOut {
            cpu: CPU { cc: ConditionCodes { cy: (1 - cpu.cc.cy) as u8, ..cpu.cc }, ..cpu },
            alu,
            mem,
            inc: 0,
        },
        // Undocumented NOP 0x38.
        _ => OpOut { cpu, alu, mem, inc: 0 },
    }
}

/// Opcodes 0x00..0x3F, dispatched to the three chunks above.
#[verifier::opaque]
pub open spec fn spec_op_misc(cpu: CPU, alu: ALU, mem: Seq<u8>, op: u8, a1: u8, a2: u8) -> OpOut {
    if op < 0x20 {
        spec_op_misc_lo(cpu, alu, mem, op, a1, a2)
    } else if op < 0x31 {
        spec_op_misc_hi(cpu, alu, mem, op, a1, a2)
    } else {
        spec_op_misc_top(cpu, alu, mem, op, a1, a2)
    }
}

/// Opcodes 0x40..0x7F: MOV between registers and memory-at-HL, and HLT
/// (which the dispatcher intercepts before reaching here).
#[verifier::opaque]
pub open spec fn spec_op_mov(cpu: CPU, alu: ALU, mem: Seq<u8>, op: u8) -> OpOut {
    match op {
        0x40 => OpOut { cpu: CPU { b: cpu.b, ..cpu }, alu, mem, inc: 0 },
        0x41 => OpOut { cpu: CPU { b: cpu.c, ..cpu }, alu, mem, inc: 0 },
        0x42 => OpOut { cpu: CPU { b: cpu.d, ..cpu }, alu, mem, inc: 0 },
        0x43 => OpOut { cpu: CPU { b: cpu.e, ..cpu }, alu, mem, inc: 0 },
        0x44 => OpOut { cpu: CPU { b: cpu.h, ..cpu }, alu, mem, inc: 0 },
        0x45 => OpOut { cpu: CPU { b: cpu.l, ..cpu }, alu, mem, inc: 0 },
        0x46 => OpOut { cpu: CPU { b: mem[pair16(cpu.h, cpu.l) as int], ..cpu }, alu, mem, inc: 0 },
        0x47 => OpOut { cpu: CPU { b: cpu.a, ..cpu }, alu, mem, inc: 0 },
        0x48 => OpOut { cpu: CPU { c: cpu.b, ..cpu }, alu, mem, inc: 0 },
        0x49 => OpOut { cpu: CPU { c: cpu.c, ..cpu }, alu, mem, inc: 0 },
        0x4A => OpOut { cpu: CPU { c: cpu.d, ..cpu }, alu, mem, inc: 0 },
        0x4B => OpOut { cpu: CPU { c: cpu.e, ..cpu }, alu, mem, inc: 0 },
        0x4C => OpOut { cpu: CPU { c: cpu.h, ..cpu }, alu, mem, inc: 0 },
        0x4D => OpOut { cpu: CPU { c: cpu.l, ..cpu }, alu, mem, inc: 0 },
        0x4E => OpOut { cpu: CPU { c: mem[pair16(cpu.h, cpu.l) as int], ..cpu }, alu, mem, inc: 0 },
        0x4F => OpOut { cpu: CPU { c: cpu.a, ..cpu }, alu, mem, inc: 0 },
        0x50 => OpOut { cpu: CPU { d: cpu.b, ..cpu }, alu, mem, inc: 0 },
        0x51 => OpOut { cpu: CPU { d: cpu.c, ..cpu }, alu, mem, inc: 0 },
        0x52 => OpOut { cpu: CPU { d: cpu.d, ..cpu }, alu, mem, inc: 0 },
        0x53 => OpOut { cpu: CPU { d: cpu.e, ..cpu }, alu, mem, inc: 0 },
        0x54 => OpOut { cpu: CPU { d: cpu.h, ..cpu }, alu, mem, inc: 0 },
        0x55 => OpOut { cpu: CPU { d: cpu.l, ..cpu }, alu, mem, inc: 0 },
        0x56 => OpOut { cpu: CPU { d: mem[pair16(cpu.h, cpu.l) as int], ..cpu }, alu, mem, inc: 0 },
        0x57 => OpOut { cpu: CPU { d: cpu.a, ..cpu }, alu, mem, inc: 0 },
        0x58 => OpOut { cpu: CPU { e: cpu.b, ..cpu }, alu, mem, inc: 0 },
        0x59 => OpOut { cpu: CPU { e: cpu.c, ..cpu }, alu, mem, inc: 0 },
        0x5A => OpOut { cpu: CPU { e: cpu.d, ..cpu }, alu, mem, inc: 0 },
        0x5B => OpOut { cpu: CPU { e: cpu.e, ..cpu }, alu, mem, inc: 0 },
        0x5C => OpOut { cpu: CPU { e: cpu.h, ..cpu }, alu, mem, inc: 0 },
        0x5D => OpOut { cpu: CPU { e: cpu.l, ..cpu }, alu, mem, inc: 0 },
        0x5E => OpOut { cpu: CPU { e: mem[pair16(cpu.h, cpu.l) as int], ..cpu }, alu, mem, inc: 0 },
        0x5F => OpOut { cpu: CPU { e: cpu.a, ..cpu }, alu, mem, inc: 0 },
        0x60 => OpOut { cpu: CPU { h: cpu.b, ..cpu }, alu, mem, inc: 0 },
        0x61 => OpOut { cpu: CPU { h: cpu.c, ..cpu }, alu, mem, inc: 0 },
        0x62 => OpOut { cpu: CPU { h: cpu.d, ..cpu }, alu, mem, inc: 0 },
        0x63 => OpOut { cpu: CPU { h: cpu.e, ..cpu }, alu, mem, inc: 0 },
        0x64 => OpOut { cpu: CPU { h: cpu.h, ..cpu }, alu, mem, inc: 0 },
        0x65 => OpOut { cpu: CPU { h: cpu.l, ..cpu }, alu, mem, inc: 0 },
        0x66 => OpOut { cpu: CPU { h: mem[pair16(cpu.h, cpu.l) as int], ..cpu }, alu, mem, inc: 0 },
        0x67 => OpOut { cpu: CPU { h: cpu.a, ..cpu }, alu, mem, inc: 0 },
        0x68 => OpOut { cpu: CPU { l: cpu.b, ..cpu }, alu, mem, inc: 0 },
        0x69 => OpOut { cpu: CPU { l: cpu.c, ..cpu }, alu, mem, inc: 0 },
        0x6A => OpOut { cpu: CPU { l: cpu.d, ..cpu }, alu, mem, inc: 0 },
        0x6B => OpOut { cpu: CPU { l: cpu.e, ..cpu }, alu, mem, inc: 0 },
        0x6C => OpOut { cpu: CPU { l: cpu.h, ..cpu }, alu, mem, inc: 0 },
        0x6D => OpOut { cpu: CPU { l: cpu.l, ..cpu }, alu, mem, inc: 0 },
        0x6E => OpOut { cpu: CPU { l: mem[pair16(cpu.h, cpu.l) as int], ..cpu }, alu, mem, inc: 0 },
        0x6F => OpOut { cpu: CPU { l: cpu.a, ..cpu }, alu, mem, inc: 0 },
        0x70 => OpOut { cpu, alu, mem: mem.update(pair16(cpu.h, cpu.l) as int, cpu.b), inc: 0 },
        0x71 => OpOut { cpu, alu, mem: mem.update(pair16(cpu.h, cpu.l) as int, cpu.c), inc: 0 },
        0x72 => OpOut { cpu, alu, mem: mem.update(pair16(cpu.h, cpu.l) as int, cpu.d), inc: 0 },
        0x73 => OpOut { cpu, alu, mem: mem.update(pair16(cpu.h, cpu.l) as int, cpu.e), inc: 0 },
        0x74 => OpOut { cpu, alu, mem: mem.update(pair16(cpu.h, cpu.l) as int, cpu.h), inc: 0 },
        0x75 => OpOut { cpu, alu, mem: mem.update(pair16(cpu.h, cpu.l) as int, cpu.l), inc: 0 },
        0x76 => OpOut { cpu, alu, mem, inc: 0 },
        0x77 => OpOut { cpu, alu, mem: mem.update(pair16(cpu.h, cpu.l) as int, cpu.a), inc: 0 },
        0x78 => OpOut { cpu: CPU { a: cpu.b, ..cpu }, alu, mem, inc: 0 },
        0x79 => OpOut { cpu: CPU { a: cpu.c, ..cpu }, alu, mem, inc: 0 },
        0x7A => OpOut { cpu: CPU { a: cpu.d, ..cpu }, alu, mem, inc: 0 },
        0x7B => OpOut { cpu: CPU { a: cpu.e, ..cpu }, alu, mem, inc: 0 },
        0x7C => OpOut { cpu: CPU { a: cpu.h, ..cpu }, alu, mem, inc: 0 },
        0x7D => OpOut { cpu: CPU { a: cpu.l, ..cpu }, alu, mem, inc: 0 },
        0x7E => OpOut { cpu: CPU { a: mem[pair16(cpu.h, cpu.l) as int], ..cpu }, alu, mem, inc: 0 },
        // MOV A,A.
        _ => OpOut { cpu, alu, mem, inc: 0 },
    }
}

/// Opcodes 0x80..0xBF: ADD/ADC/SUB/SBB/ANA/XRA/ORA/CMP of a register or
/// memory-at-HL against the accumulator.
#[verifier::opaque]
pub open spec fn spec_op_alu8(cpu: CPU, alu: ALU, mem: Seq<u8>, op: u8) -> OpOut {
    match op {
        0x80 => spec_arith(cpu, mem, wrap8(cpu.a + cpu.b), alu_after_add(cpu.a, cpu.b, 0), 0),
        0x81 => spec_arith(cpu, mem, wrap8(cpu.a + cpu.c), alu_after_add(cpu.a, cpu.c, 0), 0),
        0x82 => spec_arith(cpu, mem, wrap8(cpu.a + cpu.d), alu_after_add(cpu.a, cpu.d, 0), 0),
        0x83 => spec_arith(cpu, mem, wrap8(cpu.a + cpu.e), alu_after_add(cpu.a, cpu.e, 0), 0),
        0x84 => spec_arith(cpu, mem, wrap8(cpu.a + cpu.h), alu_after_add(cpu.a, cpu.h, 0), 0),
        0x85 => spec_arith(cpu, mem, wrap8(cpu.a + cpu.l), alu_after_add(cpu.a, cpu.l, 0), 0),
        0x86 => spec_arith(cpu, mem, wrap8(cpu.a + mem[pair16(cpu.h, cpu.l) as int]), alu_after_add(cpu.a, mem[pair16(cpu.h, cpu.l) as int], 0), 0),
        0x87 => spec_arith(cpu, mem, wrap8(cpu.a + cpu.a), alu_after_add(cpu.a, cpu.a, 0), 0),
        0x88 => spec_arith(cpu, mem, wrap8(cpu.a + cpu.b + cpu.cc.cy), alu_after_add(cpu.a, cpu.b, cpu.cc.cy), 0),
        0x89 => spec_arith(cpu, mem, wrap8(cpu.a + cpu.c + cpu.cc.cy), alu_after_add(cpu.a, cpu.c, cpu.cc.cy), 0),
        0x8A => spec_arith(cpu, mem, wrap8(cpu.a + cpu.d + cpu.cc.cy), alu_after_add(cpu.a, cpu.d, cpu.cc.cy), 0),
        0x8B => spec_arith(cpu, mem, wrap8(cpu.a + cpu.e + cpu.cc.cy), alu_after_add(cpu.a, cpu.e, cpu.cc.cy), 0),
        0x8C => spec_arith(cpu, mem, wrap8(cpu.a + cpu.h + cpu.cc.cy), alu_after_add(cpu.a, cpu.h, cpu.cc.cy), 0),
        0x8D => spec_arith(cpu, mem, wrap8(cpu.a + cpu.l + cpu.cc.cy), alu_after_add(cpu.a, cpu.l, cpu.cc.cy), 0),
        0x8E => spec_arith(cpu, mem, wrap8(cpu.a + mem[pair16(cpu.h, cpu.l) as int] + cpu.cc.cy), alu_after_add(cpu.a, mem[pair16(cpu.h, cpu.l) as int], cpu.cc.cy), 0),
        0x8F => spec_arith(cpu, mem, wrap8(cpu.a + cpu.a + cpu.cc.cy), alu_after_add(cpu.a, cpu.a, cpu.cc.cy), 0),
        0x90 => spec_arith(cpu, mem, wrap8(cpu.a - cpu.b), alu_after_sub(cpu.a, cpu.b, 0), 0),
        0x91 => spec_arith(cpu, mem, wrap8(cpu.a - cpu.c), alu_after_sub(cpu.a, cpu.c, 0), 0),
        0x92 => spec_arith(cpu, mem, wrap8(cpu.a - cpu.d), alu_after_sub(cpu.a, cpu.d, 0), 0),
        0x93 => spec_arith(cpu, mem, wrap8(cpu.a - cpu.e), alu_after_sub(cpu.a, cpu.e, 0), 0),
        0x94 => spec_arith(cpu, mem, wrap8(cpu.a - cpu.h), alu_after_sub(cpu.a, cpu.h, 0), 0),
        0x95 => spec_arith(cpu, mem, wrap8(cpu.a - cpu.l), alu_after_sub(cpu.a, cpu.l, 0), 0),
        0x96 => spec_arith(cpu, mem, wrap8(cpu.a - mem[pair16(cpu.h, cpu.l) as int]), alu_after_sub(cpu.a, mem[pair16(cpu.h, cpu.l) as int], 0), 0),
        0x97 => spec_arith(cpu, mem, wrap8(cpu.a - cpu.a), alu_after_sub(cpu.a, cpu.a, 0), 0),
        0x98 => spec_arith(cpu, mem, wrap8(cpu.a - cpu.b - cpu.cc.cy), alu_after_sub(cpu.a, cpu.b, cpu.cc.cy), 0),
        0x99 => spec_arith(cpu, mem, wrap8(cpu.a - cpu.c - cpu.cc.cy), alu_after_sub(cpu.a, cpu.c, cpu.cc.cy), 0),
        0x9A => spec_arith(cpu, mem, wrap8(cpu.a - cpu.d - cpu.cc.cy), alu_after_sub(cpu.a, cpu.d, cpu.cc.cy), 0),
        0x9B => spec_arith(cpu, mem, wrap8(cpu.a - cpu.e - cpu.cc.cy), alu_after_sub(cpu.a, cpu.e, cpu.cc.cy), 0),
        0x9C => spec_arith(cpu, mem, wrap8(cpu.a - cpu.h - cpu.cc.cy), alu_after_sub(cpu.a, cpu.h, cpu.cc.cy), 0),
        0x9D => spec_arith(cpu, mem, wrap8(cpu.a - cpu.l - cpu.cc.cy), alu_after_sub(cpu.a, cpu.l, cpu.cc.cy), 0),
        0x9E => spec_arith(cpu, mem, wrap8(cpu.a - mem[pair16(cpu.h, cpu.l) as int] - cpu.cc.cy), alu_after_sub(cpu.a, mem[pair16(cpu.h, cpu.l) as int], cpu.cc.cy), 0),
        0x9F => spec_arith(cpu, mem, wrap8(cpu.a - cpu.a - cpu.cc.cy), alu_after_sub(cpu.a, cpu.a, cpu.cc.cy), 0),
        0xA0 => spec_logic(cpu, alu, mem, cpu.a & cpu.b, 0),
        0xA1 => spec_logic(cpu, alu, mem, cpu.a & cpu.c, 0),
        0xA2 => spec_logic(cpu, alu, mem, cpu.a & cpu.d, 0),
        0xA3 => spec_logic(cpu, alu, mem, cpu.a & cpu.e, 0),
        0xA4 => spec_logic(cpu, alu, mem, cpu.a & cpu.h, 0),
        0xA5 => spec_logic(cpu, alu, mem, cpu.a & cpu.l, 0),
        0xA6 => spec_logic(cpu, alu, mem, cpu.a & mem[pair16(cpu.h, cpu.l) as int], 0),
        0xA7 => spec_logic(cpu, alu, mem, cpu.a & cpu.a, 0),
        0xA8 => spec_logic(cpu, alu, mem, cpu.a ^ cpu.b, 0),
        0xA9 => spec_logic(cpu, alu, mem, cpu.a ^ cpu.c, 0),
        0xAA => spec_logic(cpu, alu, mem, cpu.a ^ cpu.d, 0),
        0xAB => spec_logic(cpu, alu, mem, cpu.a ^ cpu.e, 0),
        0xAC => spec_logic(cpu, alu, mem, cpu.a ^ cpu.h, 0),
        0xAD => spec_logic(cpu, alu, mem, cpu.a ^ cpu.l, 0),
        0xAE => spec_logic(cpu, alu, mem, cpu.a ^ mem[pair16(cpu.h, cpu.l) as int], 0),
        0xAF => spec_logic(cpu, alu, mem, cpu.a ^ cpu.a, 0),
        0xB0 => spec_logic(cpu, alu, mem, cpu.a | cpu.b, 0),
        0xB1 => spec_logic(cpu, alu, mem, cpu.a | cpu.c, 0),
        0xB2 => spec_logic(cpu, alu, mem, cpu.a | cpu.d, 0),
        0xB3 => spec_logic(cpu, alu, mem, cpu.a | cpu.e, 0),
        0xB4 => spec_logic(cpu, alu, mem, cpu.a | cpu.h, 0),
        0xB5 => spec_logic(cpu, alu, mem, cpu.a | cpu.l, 0),
        0xB6 => spec_logic(cpu, alu, mem, cpu.a | mem[pair16(cpu.h, cpu.l) as int], 0),
        0xB7 => spec_logic(cpu, alu, mem, cpu.a | cpu.a, 0),
        0xB8 => spec_cmp(cpu, mem, wrap8(cpu.a - cpu.b), alu_after_sub(cpu.a, cpu.b, 0), 0),
        0xB9 => spec_cmp(cpu, mem, wrap8(cpu.a - cpu.c), alu_after_sub(cpu.a, cpu.c, 0), 0),
        0xBA => spec_cmp(cpu, mem, wrap8(cpu.a - cpu.d), alu_after_sub(cpu.a, cpu.d, 0), 0),
        0xBB => spec_cmp(cpu, mem, wrap8(cpu.a - cpu.e), alu_after_sub(cpu.a, cpu.e, 0), 0),
        0xBC => spec_cmp(cpu, mem, wrap8(cpu.a - cpu.h), alu_after_sub(cpu.a, cpu.h, 0), 0),
        0xBD => spec_cmp(cpu, mem, wrap8(cpu.a - cpu.l), alu_after_sub(cpu.a, cpu.l, 0), 0),
        0xBE => spec_cmp(cpu, mem, wrap8(cpu.a - mem[pair16(cpu.h, cpu.l) as int]), alu_after_sub(cpu.a, mem[pair16(cpu.h, cpu.l) as int], 0), 0),
        // CMP A.
        _ => spec_cmp(cpu, mem, wrap8(cpu.a - cpu.a), alu_after_sub(cpu.a, cpu.a, 0), 0),
    }
}

/// Opcodes 0xC0..0xFF: conditional and unconditional RET/JMP/CALL, PUSH and
/// POP, the immediate arithmetic/logic forms, RST, the exchange operations,
/// EI/DI, and OUT/IN (which only advance PC here; devices are the machine's
/// concern).
#[verifier::opaque]
pub open spec fn spec_op_ctrl(cpu: CPU, alu: ALU, mem: Seq<u8>, op: u8, a1: u8, a2: u8) -> OpOut {
    let args = pair16(a2, a1);
    match op {
        0xC0 => OpOut {
            cpu: if cpu.cc.z == 0 { spec_ret(cpu, mem) } else { cpu },
            alu, mem, inc: 0,
        },
        0xC1 => OpOut {
            cpu: CPU {
                b: mem[wrap16(cpu.sp + 1) as int],
                c: mem[cpu.sp as int],
                sp: wrap16(cpu.sp + 2),
                ..cpu
            },
            alu, mem, inc: 0,
        },
        0xC2 => {
            if cpu.cc.z == 0 {
                OpOut { cpu: CPU { pc: args, ..cpu }, alu, mem, inc: 0 }
            } else {
                OpOut { cpu, alu, mem, inc: 2 }
            }
        },
        0xC3 => OpOut { cpu: CPU { pc: args, ..cpu }, alu, mem, inc: 0 },
        0xC4 => {
            if cpu.cc.z == 0 {
                let t = spec_callx(cpu, mem, args);
                OpOut { cpu: t.0, alu, mem: t.1, inc: 0 }
            } else {
                OpOut { cpu, alu, mem, inc: 2 }
            }
        },
        0xC5 => {
            let t = spec_push(cpu, mem, cpu.b, cpu.c);
            OpOut { cpu: t.0, alu, mem: t.1, inc: 0 }
        },
        0xC6 => spec_arith(cpu, mem, wrap8(cpu.a + a1), alu_after_add(cpu.a, a1, 0), 1),
        0xC7 => {
            let t = spec_call(cpu, mem, 0);
            OpOut { cpu: t.0, alu, mem: t.1, inc: 0 }
        },
        0xC8 => OpOut {
            cpu: if cpu.cc.z == 1 { spec_ret(cpu, mem) } else { cpu },
            alu, mem, inc: 0,
        },
        0xC9 => OpOut { cpu: spec_ret(cpu, mem), alu, mem, inc: 0 },
        0xCA => {
            if cpu.cc.z == 1 {
                OpOut { cpu: CPU { pc: args, ..cpu }, alu, mem, inc: 0 }
            } else {
                OpOut { cpu, alu, mem, inc: 2 }
            }
        },
        // 0xCB is the undocumented alias of JMP.
        0xCB => OpOut { cpu: CPU { pc: args, ..cpu }, alu, mem, inc: 0 },
        0xCC => {
            if cpu.cc.z == 1 {
                let t = spec_callx(cpu, mem, args);
                OpOut { cpu: t.0, alu, mem: t.1, inc: 0 }
            } else {
                OpOut { cpu, alu, mem, inc: 2 }
            }
        },
        0xCD => {
            let t = spec_callx(cpu, mem, args);
            OpOut { cpu: t.0, alu, mem: t.1, inc: 0 }
        },
        0xCE => spec_arith(
            cpu, mem,
            wrap8(cpu.a + a1 + cpu.cc.cy),
            alu_after_add(cpu.a, a1, cpu.cc.cy),
            1,
        ),
        0xCF => {
            let t = spec_call(cpu, mem, 8);
            OpOut { cpu: t.0, alu, mem: t.1, inc: 0 }
        },
        0xD0 => OpOut {
            cpu: if cpu.cc.cy == 0 { spec_ret(cpu, mem) } else { cpu },
            alu, mem, inc: 0,
        },
        0xD1 => OpOut {
            cpu: CPU {
                d: mem[wrap16(cpu.sp + 1) as int],
                e: mem[cpu.sp as int],
                sp: wrap16(cpu.sp + 2),
                ..cpu
            },
            alu, mem, inc: 0,
        },
        0xD2 => {
            if cpu.cc.cy == 0 {
                OpOut { cpu: CPU { pc: args, ..cpu }, alu, mem, inc: 0 }
            } else {
                OpOut { cpu, alu, mem, inc: 2 }
            }
        },
        0xD3 => OpOut { cpu, alu, mem, inc: 1 },
        0xD4 => {
            if cpu.cc.cy == 0 {
                let t = spec_callx(cpu, mem, args);
                OpOut { cpu: t.0, alu, mem: t.1, inc: 0 }
            } else {
                OpOut { cpu, alu, mem, inc: 2 }
            }
        },
        0xD5 => {
            let t = spec_push(cpu, mem, cpu.d, cpu.e);
            OpOut { cpu: t.0, alu, mem: t.1, inc: 0 }
        },
        0xD6 => spec_arith(cpu, mem, wrap8(cpu.a - a1), alu_after_sub(cpu.a, a1, 0), 1),
        0xD7 => {
            let t = spec_call(cpu, mem, 0x10);
            OpOut { cpu: t.0, alu, mem: t.1, inc: 0 }
        },
        0xD8 => OpOut {
            cpu: if cpu.cc.cy == 1 { spec_ret(cpu, mem) } else { cpu },
            alu, mem, inc: 0,
        },
        // 0xD9 is the undocumented alias of RET.
        0xD9 => OpOut { cpu: spec_ret(cpu, mem), alu, mem, inc: 0 },
        0xDA => {
            if cpu.cc.cy == 1 {
                OpOut { cpu: CPU { pc: args, ..cpu }, alu, mem, inc: 0 }
            } else {
                OpOut { cpu, alu, mem, inc: 2 }
            }
        },
        0xDB => OpOut { cpu, alu, mem, inc: 1 },
        0xDC => {
            if cpu.cc.cy == 1 {
                let t = spec_callx(cpu, mem, args);
                OpOut { cpu: t.0, alu, mem: t.1, inc: 0 }
            } else {
                OpOut { cpu, alu, mem, inc: 2 }
            }
        },
        // 0xDD is an undocumented alias of CALL.
        0xDD => {
            let t = spec_callx(cpu, mem, args);
            OpOut { cpu: t.0, alu, mem: t.1, inc: 0 }
        },
        0xDE => spec_arith(
            cpu, mem,
            wrap8(cpu.a - a1 - cpu.cc.cy),
            alu_after_sub(cpu.a, a1, cpu.cc.cy),
            1,
        ),
        0xDF => {
            let t = spec_call(cpu, mem, 0x18);
            OpOut { cpu: t.0, alu, mem: t.1, inc: 0 }
        },
        0xE0 => OpOut {
            cpu: if cpu.cc.p == 0 { spec_ret(cpu, mem) } else { cpu },
            alu, mem, inc: 0,
        },
        0xE1 => OpOut {
            cpu: CPU {
                h: mem[wrap16(cpu.sp + 1) as int],
                l: mem[cpu.sp as int],
                sp: wrap16(cpu.sp + 2),
                ..cpu
            },
            alu, mem, inc: 0,
        },
        0xE2 => {
            if cpu.cc.p == 0 {
                OpOut { cpu: CPU { pc: args, ..cpu }, alu, mem, inc: 0 }
            } else {
                OpOut { cpu, alu, mem, inc: 2 }
            }
        },
        0xE3 => OpOut {
            cpu: CPU { l: mem[cpu.sp as int], h: mem[wrap16(cpu.sp + 1) as int], ..cpu },
            alu,
            mem: mem.update(cpu.sp as int, cpu.l).update(wrap16(cpu.sp + 1) as int, cpu.h),
            inc: 0,
        },
        0xE4 => {
            if cpu.cc.p == 0 {
                let t = spec_callx(cpu, mem, args);
                OpOut { cpu: t.0, alu, mem: t.1, inc: 0 }
            } else {
                OpOut { cpu, alu, mem, inc: 2 }
            }
        },
        0xE5 => {
            let t = spec_push(cpu, mem, cpu.h, cpu.l);
            OpOut { cpu: t.0, alu, mem: t.1, inc: 0 }
        },
        0xE6 => spec_logic(cpu, alu, mem, cpu.a & a1, 1),
        0xE7 => {
            let t = spec_call(cpu, mem, 0x20);
            OpOut { cpu: t.0, alu, mem: t.1, inc: 0 }
        },
        0xE8 => OpOut {
            cpu: if cpu.cc.p == 1 { spec_ret(cpu, mem) } else { cpu },
            alu, mem, inc: 0,
        },
        0xE9 => OpOut { cpu: CPU { pc: pair16(cpu.h, cpu.l), ..cpu }, alu, mem, inc: 0 },
        0xEA => {
            if cpu.cc.p == 1 {
                OpOut { cpu: CPU { pc: args, ..cpu }, alu, mem, inc: 0 }
            } else {
                OpOut { cpu, alu, mem, inc: 2 }
            }
        },
        0xEB => OpOut {
            cpu: CPU { d: cpu.h, h: cpu.d, e: cpu.l, l: cpu.e, ..cpu },
            alu, mem, inc: 0,
        },
        0xEC => {
            if cpu.cc.p == 1 {
                let t = spec_callx(cpu, mem, args);
                OpOut { cpu: t.0, alu, mem: t.1, inc: 0 }
            } else {
                OpOut { cpu, alu, mem, inc: 2 }
            }
        },
        // 0xED is an undocumented alias of CALL.
        0xED => {
            let t = spec_callx(cpu, mem, args);
            OpOut { cpu: t.0, alu, mem: t.1, inc: 0 }
        },
        0xEE => spec_logic(cpu, alu, mem, cpu.a ^ a1, 1),
        0xEF => {
            let t = spec_call(cpu, mem, 0x28);
            OpOut { cpu: t.0, alu, mem: t.1, inc: 0 }
        },
        0xF0 => OpOut {
            cpu: if cpu.cc.s == 0 { spec_ret(cpu, mem) } else { cpu },
            alu, mem, inc: 0,
        },
        0xF1 => OpOut {
            cpu: CPU {
                cc: spec_set_psw(mem[cpu.sp as int]),
                a: mem[wrap16(cpu.sp + 1) as int],
                sp: wrap16(cpu.sp + 2),
                ..cpu
            },
            alu, mem, inc: 0,
        },
        0xF2 => {
            if cpu.cc.s == 0 {
                OpOut { cpu: CPU { pc: args, ..cpu }, alu, mem, inc: 0 }
            } else {
                OpOut { cpu, alu, mem, inc: 2 }
            }
        },
        0xF3 => OpOut { cpu: CPU { int_enable: 0, ..cpu }, alu, mem, inc: 0 },
        0xF4 => {
            if cpu.cc.s == 0 {
                let t = spec_callx(cpu, mem, args);
                OpOut { cpu: t.0, alu, mem: t.1, inc: 0 }
            } else {
                OpOut { cpu, alu, mem, inc: 2 }
            }
        },
        0xF5 => {
            let t = spec_push(cpu, mem, cpu.a, spec_get_psw(cpu.cc));
            OpOut { cpu: t.0, alu, mem: t.1, inc: 0 }
        },
        0xF6 => spec_logic(cpu, alu, mem, cpu.a | a1, 1),
        0xF7 => {
            let t = spec_call(cpu, mem, 0x30);
            OpOut { cpu: t.0, alu, mem: t.1, inc: 0 }
        },
        0xF8 => OpOut {
            cpu: if cpu.cc.s == 1 { spec_ret(cpu, mem) } else { cpu },
            alu, mem, inc: 0,
        },
        0xF9 => OpOut { cpu: CPU { sp: pair16(cpu.h, cpu.l), ..cpu }, alu, mem, inc: 0 },
        0xFA => {
            if cpu.cc.s != 0 {
                OpOut { cpu: CPU { pc: args, ..cpu }, alu, mem, inc: 0 }
            } else {
                OpOut { cpu, alu, mem, inc: 2 }
            }
        },
        0xFB => OpOut { cpu: CPU { int_enable: 1, ..cpu }, alu, mem, inc: 0 },
        0xFC => {
            if cpu.cc.s == 1 {
                let t = spec_callx(cpu, mem, args);
                OpOut { cpu: t.0, alu, mem: t.1, inc: 0 }
            } else {
                OpOut { cpu, alu, mem, inc: 2 }
            }
        },
        // 0xFD is an undocumented alias of CALL.
        0xFD => {
            let t = spec_callx(cpu, mem, args);
            OpOut { cpu: t.0, alu, mem: t.1, inc: 0 }
        },
        0xFE => spec_cmp(cpu, mem, wrap8(cpu.a - a1), alu_after_sub(cpu.a, a1, 0), 1),
        // RST 7.
        _ => {
            let t = spec_call(cpu, mem, 0x38);
            OpOut { cpu: t.0, alu, mem: t.1, inc: 0 }
        },
    }
}

/// One opcode's effect after the initial PC advance, dispatched by quadrant.
pub open spec fn spec_op(cpu: CPU, alu: ALU, mem: Seq<u8>, op: u8, a1: u8, a2: u8) -> OpOut {
    if op < 0x40 {
        spec_op_misc(cpu, alu, mem, op, a1, a2)
    } else if op < 0x80 {
        spec_op_mov(cpu, alu, mem, op)
    } else if op < 0xC0 {
        spec_op_alu8(cpu, alu, mem, op)
    } else {
        spec_op_ctrl(cpu, alu, mem, op, a1, a2)
    }
}

/// One full instruction step: PC first advances past the opcode byte; HLT
/// then reports 0 cycles and changes nothing else; every other opcode applies
/// its arm and advances PC past its immediates, charging the table cost.
pub open spec fn spec_execute(cpu0: CPU, alu0: ALU, mem0: Seq<u8>, op: u8, a1: u8, a2: u8) -> StepOut {
    let cpu = CPU { pc: wrap16(cpu0.pc + 1), ..cpu0 };
    if op == 0x76 {
        StepOut { cpu, alu: alu0, mem: mem0, cycles: 0 }
    } else {
        let o = spec_op(cpu, alu0, mem0, op, a1, a2);
        StepOut {
            cpu: CPU { pc: wrap16(o.cpu.pc + o.inc), ..o.cpu },
            alu: o.alu,
            mem: o.mem,
            cycles: spec_cycles(op),
        }
    }
}

/// 16-bit add that wraps modulo 2^16.
pub fn wadd16(x: u16, y: u16) -> (r: u16)
    ensures
        r == wrap16(x + y),
{
    x.wrapping_add(y)
}

/// 16-bit subtract that wraps modulo 2^16.
pub fn wsub16(x: u16, y: u16) -> (r: u16)
    ensures
        r == wrap16(x - y),
{
    x.wrapping_sub(y)
}

/// One byte of the 64 KiB address space.
pub fn mem_read(mem: &Vec<u8>, addr: u16) -> (r: u8)
    requires
        mem@.len() == 0x10000,
    ensures
        r == mem@[addr as int],
{
    mem[addr as usize]
}

/// Store one byte in the 64 KiB address space.
pub fn mem_write(mem: &mut Vec<u8>, addr: u16, val: u8)
    requires
        old(mem)@.len() == 0x10000,
    ensures
        final(mem)@ == old(mem)@.update(addr as int, val),
        final(mem)@.len() == 0x10000,
{
    mem[addr as usize] = val;
}

fn push16(cpu: &mut CPU, mem: &mut Vec<u8>, hi: u8, lo: u8)
    requires
        old(mem)@.len() == 0x10000,
    ensures
        *final(cpu) == spec_push(*old(cpu), old(mem)@, hi, lo).0,
        final(mem)@ == spec_push(*old(cpu), old(mem)@, hi, lo).1,
        final(mem)@.len() == 0x10000,
{
    let hi_addr = wsub16(cpu.sp, 1);
    let lo_addr = wsub16(cpu.sp, 2);
    mem_write(mem, hi_addr, hi);
    mem_write(mem, lo_addr, lo);
    cpu.sp = lo_addr;
}

#[verifier::spinoff_prover]
fn daa_op(cpu: &mut CPU, alu: &mut ALU)
    requires
        cpu_wf(*old(cpu)),
    ensures
        *final(cpu) == spec_daa(*old(cpu), *old(alu)).0,
        *final(alu) == spec_daa(*old(cpu), *old(alu)).1,
        cpu_wf(*final(cpu)),
{
    if cpu.a % 16 > 9 || cpu.cc.ac == 1 {
        cpu.a = alu.add(cpu.a, 6);
    }
    cpu.cc.ac = if alu.ac { 1 } else { 0 };
    if cpu.a / 16 > 9 || cpu.cc.cy == 1 {
        cpu.a = alu.add(cpu.a, 96);
    }
    cpu.cc.set_arith(cpu.a, alu);
}

#[verifier::spinoff_prover]
fn inr_m(cpu: &mut CPU, alu: &mut ALU, mem: &mut Vec<u8>)
    requires
        cpu_wf(*old(cpu)),
        old(mem)@.len() == 0x10000,
    ensures
        ({
            let t = spec_inr(old(cpu).cc, old(mem)@[pair16(old(cpu).h, old(cpu).l) as int]);
            *final(cpu) == (CPU { cc: t.2, ..*old(cpu) }) && *final(alu) == t.1
                && final(mem)@ == old(mem)@.update(pair16(old(cpu).h, old(cpu).l) as int, t.0)
        }),
        cpu_wf(*final(cpu)),
        final(mem)@.len() == 0x10000,
{
    let v = alu.add(cpu.from_hl(mem), 1);
    cpu.cc.set_zsp(v, alu);
    cpu.to_hl(mem, v);
}

#[verifier::spinoff_prover]
fn dcr_m(cpu: &mut CPU, alu: &mut ALU, mem: &mut Vec<u8>)
    requires
        cpu_wf(*old(cpu)),
        old(mem)@.len() == 0x10000,
    ensures
        ({
            let t = spec_dcr(old(cpu).cc, old(mem)@[pair16(old(cpu).h, old(cpu).l) as int]);
            *final(cpu) == (CPU { cc: t.2, ..*old(cpu) }) && *final(alu) == t.1
                && final(mem)@ == old(mem)@.update(pair16(old(cpu).h, old(cpu).l) as int, t.0)
        }),
        cpu_wf(*final(cpu)),
        final(mem)@.len() == 0x10000,
{
    let v = alu.sub(cpu.from_hl(mem), 1);
    cpu.cc.set_zsp(v, alu);
    cpu.to_hl(mem, v);
}

fn pop16(cpu: &mut CPU, mem: &Vec<u8>) -> (r: (u8, u8))
    requires
        mem@.len() == 0x10000,
    ensures
        r.0 == mem@[wrap16(old(cpu).sp + 1) as int],
        r.1 == mem@[old(cpu).sp as int],
        *final(cpu) == (CPU { sp: wrap16(old(cpu).sp + 2), ..*old(cpu) }),
{
    let lo = mem_read(mem, cpu.sp);
    let hi = mem_read(mem, wadd16(cpu.sp, 1));
    cpu.sp = wadd16(cpu.sp, 2);
    (hi, lo)
}

fn ret_op(cpu: &mut CPU, mem: &Vec<u8>)
    requires
        mem@.len() == 0x10000,
    ensures
        *final(cpu) == spec_ret(*old(cpu), mem@),
{
    let popped = pop16(cpu, mem);
    cpu.pc = popped.0 as u16 * 256 + popped.1 as u16;
}

fn call_op(cpu: &mut CPU, mem: &mut Vec<u8>, addr: u16)
    requires
        old(mem)@.len() == 0x10000,
    ensures
        *final(cpu) == spec_call(*old(cpu), old(mem)@, addr).0,
        final(mem)@ == spec_call(*old(cpu), old(mem)@, addr).1,
        final(mem)@.len() == 0x10000,
{
    let ret = cpu.pc;
    push16(cpu, mem, (ret / 256) as u8, (ret % 256) as u8);
    cpu.pc = addr;
}

fn callx_op(cpu: &mut CPU, mem: &mut Vec<u8>, addr: u16)
    requires
        old(mem)@.len() == 0x10000,
    ensures
        *final(cpu) == spec_callx(*old(cpu), old(mem)@, addr).0,
        final(mem)@ == spec_callx(*old(cpu), old(mem)@, addr).1,
        final(mem)@.len() == 0x10000,
{
    let ret = wadd16(cpu.pc, 2);
    push16(cpu, mem, (ret / 256) as u8, (ret % 256) as u8);
    cpu.pc = addr;
}

/// The fixed base cycle cost of an opcode.
pub fn cycle_count(op: u8) -> (r: u8)
    ensures
        r == spec_cycles(op),
{
    match op {
        0x00 | 0x07 | 0x08 | 0x0F | 0x10 | 0x17 | 0x18 | 0x1F | 0x20 | 0x27 | 0x28 | 0x2F | 0x30
        | 0x37 | 0x38 | 0x3F | 0x80 | 0x81 | 0x82 | 0x83 | 0x84 | 0x85 | 0x87 | 0x88 | 0x89 | 0x8A
        | 0x8B | 0x8C | 0x8D | 0x8F | 0x90 | 0x91 | 0x92 | 0x93 | 0x94 | 0x95 | 0x97 | 0x98 | 0x99
        | 0x9A | 0x9B | 0x9C | 0x9D | 0x9F | 0xA0 | 0xA1 | 0xA2 | 0xA3 | 0xA4 | 0xA5 | 0xA7 | 0xA8
        | 0xA9 | 0xAA | 0xAB | 0xAC | 0xAD | 0xAF | 0xB0 | 0xB1 | 0xB2 | 0xB3 | 0xB4 | 0xB5 | 0xB7
        | 0xB8 | 0xB9 | 0xBA | 0xBB | 0xBC | 0xBD | 0xBF | 0xF3 | 0xFB => 4,
        0x03 | 0x04 | 0x05 | 0x0B | 0x0C | 0x0D | 0x13 | 0x14 | 0x15 | 0x1B | 0x1C | 0x1D | 0x23
        | 0x24 | 0x25 | 0x2B | 0x2C | 0x2D | 0x33 | 0x3B | 0x3C | 0x3D | 0x40 | 0x41 | 0x42 | 0x43
        | 0x44 | 0x45 | 0x47 | 0x48 | 0x49 | 0x4A | 0x4B | 0x4C | 0x4D | 0x4F | 0x50 | 0x51 | 0x52
        | 0x53 | 0x54 | 0x55 | 0x57 | 0x58 | 0x59 | 0x5A | 0x5B | 0x5C | 0x5D | 0x5F | 0x60 | 0x61
        | 0x62 | 0x63 | 0x64 | 0x65 | 0x67 | 0x68 | 0x69 | 0x6A | 0x6B | 0x6C | 0x6D | 0x6F | 0x78
        | 0x79 | 0x7A | 0x7B | 0x7C | 0x7D | 0x7F | 0xE9 | 0xEB | 0xF9 => 5,
        0x02 | 0x06 | 0x0A | 0x0E | 0x12 | 0x16 | 0x1A | 0x1E | 0x26 | 0x2E | 0x3E | 0x46 | 0x4E
        | 0x56 | 0x5E | 0x66 | 0x6E | 0x70 | 0x71 | 0x72 | 0x73 | 0x74 | 0x75 | 0x76 | 0x77 | 0x7E
        | 0x86 | 0x8E | 0x96 | 0x9E | 0xA6 | 0xAE | 0xB6 | 0xBE | 0xC6 | 0xCE | 0xD6 | 0xDE | 0xE6
        | 0xEE | 0xF6 | 0xFE => 7,
        0x01 | 0x09 | 0x11 | 0x19 | 0x21 | 0x29 | 0x31 | 0x34 | 0x35 | 0x36 | 0x39 | 0xC1 | 0xC2
        | 0xC3 | 0xC9 | 0xCA | 0xCB | 0xCC | 0xD1 | 0xD2 | 0xD3 | 0xDA | 0xE1 | 0xE2 | 0xEA | 0xF1
        | 0xD9 | 0xDB | 0xDC | 0xF2 | 0xFA => 10,
        0xC0 | 0xC5 | 0xC7 | 0xC8 | 0xCF | 0xD0 | 0xD5 | 0xD7 | 0xD8 | 0xDF | 0xE0 | 0xE5 | 0xE7
        | 0xE8 | 0xEF | 0xF0 | 0xF5 | 0xF7 | 0xF8 | 0xFF => 11,
        0x32 | 0x3A => 13,
        0x22 | 0x2A => 16,
        0xC4 | 0xCD | 0xD4 | 0xDD | 0xE4 | 0xEC | 0xED | 0xF4 | 0xFC | 0xFD => 17,
        _ => 18,
    }
}

#[verifier::rlimit(100)]
#[verifier::spinoff_prover]
fn exec_misc_00_1f(cpu: &mut CPU, alu: &mut ALU, mem: &mut Vec<u8>, op: u8, a1: u8, a2: u8, args: u16) -> (inc: u16)
    requires
        op < 0x20,
        cpu_wf(*old(cpu)),
        old(mem)@.len() == 0x10000,
        args == pair16(a2, a1),
    ensures
        ({
            let o = spec_op_misc(*old(cpu), *old(alu), old(mem)@, op, a1, a2);
            *final(cpu) == o.cpu && *final(alu) == o.alu && final(mem)@ == o.mem && inc == o.inc
        }),
        cpu_wf(*final(cpu)),
        final(mem)@.len() == 0x10000,
{
    proof {
        reveal(spec_op_misc);
        reveal(spec_op_misc_lo);
    }
    match op {
        0x01 => { cpu.c = a1; cpu.b = a2; 2 },
        0x02 => { let addr = cpu.get_bc(); let v = cpu.a; mem_write(mem, addr, v); 0 },
        0x03 => { let v = wadd16(cpu.get_bc(), 1); cpu.set_bc(v); 0 },
        0x04 => { cpu.b = alu.add(cpu.b, 1); cpu.cc.set_zsp(cpu.b, alu); 0 },
        0x05 => { cpu.b = alu.sub(cpu.b, 1); cpu.cc.set_zsp(cpu.b, alu); 0 },
        0x06 => { cpu.b = a1; 1 },
        0x07 => { let x = cpu.a; cpu.a = x % 128 * 2 + x / 128; cpu.cc.cy = x / 128; 0 },
        0x09 => {
            let v = alu.addx(cpu.get_hl(), cpu.get_bc());
            cpu.set_hl(v);
            cpu.cc.cy = if alu.cy { 1 } else { 0 };
            0
        },
        0x0A => { cpu.a = mem_read(mem, cpu.get_bc()); 0 },
        0x0B => { let v = wsub16(cpu.get_bc(), 1); cpu.set_bc(v); 0 },
        0x0C => { cpu.c = alu.add(cpu.c, 1); cpu.cc.set_zsp(cpu.c, alu); 0 },
        0x0D => { cpu.c = alu.sub(cpu.c, 1); cpu.cc.set_zsp(cpu.c, alu); 0 },
        0x0E => { cpu.c = a1; 1 },
        0x0F => { let x = cpu.a; cpu.a = x / 2 + x % 2 * 128; cpu.cc.cy = x % 2; 0 },
        0x11 => { cpu.e = a1; cpu.d = a2; 2 },
        0x12 => { let addr = cpu.get_de(); let v = cpu.a; mem_write(mem, addr, v); 0 },
        0x13 => { let v = wadd16(cpu.get_de(), 1); cpu.set_de(v); 0 },
        0x14 => { cpu.d = alu.add(cpu.d, 1); cpu.cc.set_zsp(cpu.d, alu); 0 },
        0x15 => { cpu.d = alu.sub(cpu.d, 1); cpu.cc.set_zsp(cpu.d, alu); 0 },
        0x16 => { cpu.d = a1; 1 },
        0x17 => { let x = cpu.a; cpu.a = x % 128 * 2 + cpu.cc.cy; cpu.cc.cy = x / 128; 0 },
        0x19 => {
            let v = alu.addx(cpu.get_hl(), cpu.get_de());
            cpu.set_hl(v);
            cpu.cc.cy = if alu.cy { 1 } else { 0 };
            0
        },
        0x1A => { cpu.a = mem_read(mem, cpu.get_de()); 0 },
        0x1B => { let v = wsub16(cpu.get_de(), 1); cpu.set_de(v); 0 },
        0x1C => { cpu.e = alu.add(cpu.e, 1); cpu.cc.set_zsp(cpu.e, alu); 0 },
        0x1D => { cpu.e = alu.sub(cpu.e, 1); cpu.cc.set_zsp(cpu.e, alu); 0 },
        0x1E => { cpu.e = a1; 1 },
        0x1F => { let x = cpu.a; cpu.a = cpu.cc.cy * 128 + x / 2; cpu.cc.cy = x % 2; 0 },
        // NOP and the undocumented NOPs 0x08, 0x10 and 0x18.
        _ => 0,
    }
}

#[verifier::rlimit(100)]
#[verifier::spinoff_prover]
fn exec_misc_20_28(cpu: &mut CPU, alu: &mut ALU, mem: &mut Vec<u8>, op: u8, a1: u8, a2: u8, args: u16) -> (inc: u16)
    requires
        0x20 <= op < 0x29,
        cpu_wf(*old(cpu)),
        old(mem)@.len() == 0x10000,
        args == pair16(a2, a1),
    ensures
        ({
            let o = spec_op_misc(*old(cpu), *old(alu), old(mem)@, op, a1, a2);
            *final(cpu) == o.cpu && *final(alu) == o.alu && final(mem)@ == o.mem && inc == o.inc
        }),
        cpu_wf(*final(cpu)),
        final(mem)@.len() == 0x10000,
{
    proof {
        reveal(spec_op_misc);
        reveal(spec_op_misc_hi);
    }
    match op {
        0x21 => { cpu.l = a1; cpu.h = a2; 2 },
        0x22 => {
            let l = cpu.l;
            let h = cpu.h;
            mem_write(mem, args, l);
            mem_write(mem, wadd16(args, 1), h);
            2
        },
        0x23 => { let v = wadd16(cpu.get_hl(), 1); cpu.set_hl(v); 0 },
        0x24 => { cpu.h = alu.add(cpu.h, 1); cpu.cc.set_zsp(cpu.h, alu); 0 },
        0x25 => { cpu.h = alu.sub(cpu.h, 1); cpu.cc.set_zsp(cpu.h, alu); 0 },
        0x26 => { cpu.h = a1; 1 },
        0x27 => { daa_op(cpu, alu); 0 },
        // NOP 0x20 and NOP 0x28.
        _ => 0,
    }
}

#[verifier::rlimit(100)]
#[verifier::spinoff_prover]
fn exec_misc_29_30(cpu: &mut CPU, alu: &mut ALU, mem: &mut Vec<u8>, op: u8, a1: u8, a2: u8, args: u16) -> (inc: u16)
    requires
        0x29 <= op < 0x31,
        cpu_wf(*old(cpu)),
        old(mem)@.len() == 0x10000,
        args == pair16(a2, a1),
    ensures
        ({
            let o = spec_op_misc(*old(cpu), *old(alu), old(mem)@, op, a1, a2);
            *final(cpu) == o.cpu && *final(alu) == o.alu && final(mem)@ == o.mem && inc == o.inc
        }),
        cpu_wf(*final(cpu)),
        final(mem)@.len() == 0x10000,
{
    proof {
        reveal(spec_op_misc);
        reveal(spec_op_misc_hi);
    }
    match op {
        0x29 => {
            let v = alu.addx(cpu.get_hl(), cpu.get_hl());
            cpu.set_hl(v);
            cpu.cc.cy = if alu.cy { 1 } else { 0 };
            0
        },
        0x2A => {
            cpu.l = mem_read(mem, args);
            cpu.h = mem_read(mem, wadd16(args, 1));
            2
        },
        0x2B => { let v = wsub16(cpu.get_hl(), 1); cpu.set_hl(v); 0 },
        0x2C => { cpu.l = alu.add(cpu.l, 1); cpu.cc.set_zsp(cpu.l, alu); 0 },
        0x2D => { cpu.l = alu.sub(cpu.l, 1); cpu.cc.set_zsp(cpu.l, alu); 0 },
        0x2E => { cpu.l = a1; 1 },
        0x2F => { cpu.a = !cpu.a; 0 },
        // Undocumented NOP 0x30.
        _ => 0,
    }
}

#[verifier::rlimit(100)]
#[verifier::spinoff_prover]
fn exec_misc_31_38(cpu: &mut CPU, alu: &mut ALU, mem: &mut Vec<u8>, op: u8, a1: u8, a2: u8, args: u16) -> (inc: u16)
    requires
        0x31 <= op < 0x39,
        cpu_wf(*old(cpu)),
        old(mem)@.len() == 0x10000,
        args == pair16(a2, a1),
    ensures
        ({
            let o = spec_op_misc(*old(cpu), *old(alu), old(mem)@, op, a1, a2);
            *final(cpu) == o.cpu && *final(alu) == o.alu && final(mem)@ == o.mem && inc == o.inc
        }),
        cpu_wf(*final(cpu)),
        final(mem)@.len() == 0x10000,
{
    proof {
        reveal(spec_op_misc);
        reveal(spec_op_misc_top);
    }
    match op {
        0x31 => { cpu.sp = args; 2 },
        0x32 => { let v = cpu.a; mem_write(mem, args, v); 2 },
        0x33 => { cpu.sp = wadd16(cpu.sp, 1); 0 },
        0x34 => { inr_m(cpu, alu, mem); 0 },
        0x35 => { dcr_m(cpu, alu, mem); 0 },
        0x36 => { cpu.to_hl(mem, a1); 1 },
        0x37 => { cpu.cc.cy = 1; 0 },
        // Undocumented NOP 0x38.
        _ => 0,
    }
}

#[verifier::rlimit(100)]
#[verifier::spinoff_prover]
fn exec_misc_39_3b(cpu: &mut CPU, alu: &mut ALU, mem: &mut Vec<u8>, op: u8, a1: u8, a2: u8, args: u16) -> (inc: u16)
    requires
        0x39 <= op < 0x3C,
        cpu_wf(*old(cpu)),
        old(mem)@.len() == 0x10000,
        args == pair16(a2, a1),
    ensures
        ({
            let o = spec_op_misc(*old(cpu), *old(alu), old(mem)@, op, a1, a2);
            *final(cpu) == o.cpu && *final(alu) == o.alu && final(mem)@ == o.mem && inc == o.inc
        }),
        cpu_wf(*final(cpu)),
        final(mem)@.len() == 0x10000,
{
    proof {
        reveal(spec_op_misc);
        reveal(spec_op_misc_top);
    }
    match op {
        0x39 => {
            let v = alu.addx(cpu.get_hl(), cpu.sp);
            cpu.set_hl(v);
            cpu.cc.cy = if alu.cy { 1 } else { 0 };
            0
        },
        0x3A => { cpu.a = mem_read(mem, args); 2 },
        0x3B => { cpu.sp = wsub16(cpu.sp, 1); 0 },
        // Unreachable: every opcode in this range has an arm above.
        _ => 0,
    }
}

#[verifier::rlimit(100)]
#[verifier::spinoff_prover]
fn exec_misc_3c_3f(cpu: &mut CPU, alu: &mut ALU, mem: &mut Vec<u8>, op: u8, a1: u8, a2: u8, args: u16) -> (inc: u16)
    requires
        0x3C <= op < 0x40,
        cpu_wf(*old(cpu)),
        old(mem)@.len() == 0x10000,
        args == pair16(a2, a1),
    ensures
        ({
            let o = spec_op_misc(*old(cpu), *old(alu), old(mem)@, op, a1, a2);
            *final(cpu) == o.cpu && *final(alu) == o.alu && final(mem)@ == o.mem && inc == o.inc
        }),
        cpu_wf(*final(cpu)),
        final(mem)@.len() == 0x10000,
{
    proof {
        reveal(spec_op_misc);
        reveal(spec_op_misc_top);
    }
    match op {
        0x3C => { cpu.a = alu.add(cpu.a, 1); cpu.cc.set_zsp(cpu.a, alu); 0 },
        0x3D => { cpu.a = alu.sub(cpu.a, 1); cpu.cc.set_zsp(cpu.a, alu); 0 },
        0x3E => { cpu.a = a1; 1 },
        0x3F => { cpu.cc.cy = 1 - cpu.cc.cy; 0 },
        // Unreachable: every opcode in this range has an arm above.
        _ => 0,
    }
}

fn exec_mov(cpu: &mut CPU, alu: &ALU, mem: &mut Vec<u8>, op: u8) -> (inc: u16)
    requires
        0x40 <= op < 0x80,
        old(mem)@.len() == 0x10000,
    ensures
        ({
            let o = spec_op_mov(*old(cpu), *alu, old(mem)@, op);
            *final(cpu) == o.cpu && o.alu == *alu && final(mem)@ == o.mem && inc == o.inc
        }),
        final(cpu).cc == old(cpu).cc,
        final(mem)@.len() == 0x10000,
{
    proof {
        reveal(spec_op_mov);
    }
    match op {
        0x40 => { cpu.b = cpu.b; 0 },
        0x41 => { cpu.b = cpu.c; 0 },
        0x42 => { cpu.b = cpu.d; 0 },
        0x43 => { cpu.b = cpu.e; 0 },
        0x44 => { cpu.b = cpu.h; 0 },
        0x45 => { cpu.b = cpu.l; 0 },
        0x46 => { cpu.b = cpu.from_hl(mem); 0 },
        0x47 => { cpu.b = cpu.a; 0 },
        0x48 => { cpu.c = cpu.b; 0 },
        0x49 => { cpu.c = cpu.c; 0 },
        0x4A => { cpu.c = cpu.d; 0 },
        0x4B => { cpu.c = cpu.e; 0 },
        0x4C => { cpu.c = cpu.h; 0 },
        0x4D => { cpu.c = cpu.l; 0 },
        0x4E => { cpu.c = cpu.from_hl(mem); 0 },
        0x4F => { cpu.c = cpu.a; 0 },
        0x50 => { cpu.d = cpu.b; 0 },
        0x51 => { cpu.d = cpu.c; 0 },
        0x52 => { cpu.d = cpu.d; 0 },
        0x53 => { cpu.d = cpu.e; 0 },
        0x54 => { cpu.d = cpu.h; 0 },
        0x55 => { cpu.d = cpu.l; 0 },
        0x56 => { cpu.d = cpu.from_hl(mem); 0 },
        0x57 => { cpu.d = cpu.a; 0 },
        0x58 => { cpu.e = cpu.b; 0 },
        0x59 => { cpu.e = cpu.c; 0 },
        0x5A => { cpu.e = cpu.d; 0 },
        0x5B => { cpu.e = cpu.e; 0 },
        0x5C => { cpu.e = cpu.h; 0 },
        0x5D => { cpu.e = cpu.l; 0 },
        0x5E => { cpu.e = cpu.from_hl(mem); 0 },
        0x5F => { cpu.e = cpu.a; 0 },
        0x60 => { cpu.h = cpu.b; 0 },
        0x61 => { cpu.h = cpu.c; 0 },
        0x62 => { cpu.h = cpu.d; 0 },
        0x63 => { cpu.h = cpu.e; 0 },
        0x64 => { cpu.h = cpu.h; 0 },
        0x65 => { cpu.h = cpu.l; 0 },
        0x66 => { cpu.h = cpu.from_hl(mem); 0 },
        0x67 => { cpu.h = cpu.a; 0 },
        0x68 => { cpu.l = cpu.b; 0 },
        0x69 => { cpu.l = cpu.c; 0 },
        0x6A => { cpu.l = cpu.d; 0 },
        0x6B => { cpu.l = cpu.e; 0 },
        0x6C => { cpu.l = cpu.h; 0 },
        0x6D => { cpu.l = cpu.l; 0 },
        0x6E => { cpu.l = cpu.from_hl(mem); 0 },
        0x6F => { cpu.l = cpu.a; 0 },
        0x70 => { cpu.to_hl(mem, cpu.b); 0 },
        0x71 => { cpu.to_hl(mem, cpu.c); 0 },
        0x72 => { cpu.to_hl(mem, cpu.d); 0 },
        0x73 => { cpu.to_hl(mem, cpu.e); 0 },
        0x74 => { cpu.to_hl(mem, cpu.h); 0 },
        0x75 => { cpu.to_hl(mem, cpu.l); 0 },
        0x76 => 0,
        0x77 => { cpu.to_hl(mem, cpu.a); 0 },
        0x78 => { cpu.a = cpu.b; 0 },
        0x79 => { cpu.a = cpu.c; 0 },
        0x7A => { cpu.a = cpu.d; 0 },
        0x7B => { cpu.a = cpu.e; 0 },
        0x7C => { cpu.a = cpu.h; 0 },
        0x7D => { cpu.a = cpu.l; 0 },
        0x7E => { cpu.a = cpu.from_hl(mem); 0 },
        // MOV A,A.
        _ => { cpu.a = cpu.a; 0 },
    }
}

fn exec_alu8(cpu: &mut CPU, alu: &mut ALU, mem: &mut Vec<u8>, op: u8) -> (inc: u16)
    requires
        0x80 <= op < 0xC0,
        cpu_wf(*old(cpu)),
        old(mem)@.len() == 0x10000,
    ensures
        ({
            let o = spec_op_alu8(*old(cpu), *old(alu), old(mem)@, op);
            *final(cpu) == o.cpu && *final(alu) == o.alu && final(mem)@ == o.mem && inc == o.inc
        }),
        cpu_wf(*final(cpu)),
        final(mem)@.len() == 0x10000,
{
    proof {
        reveal(spec_op_alu8);
    }
    match op {
        0x80 => { cpu.a = alu.add(cpu.a, cpu.b); cpu.cc.set_arith(cpu.a, alu); 0 },
        0x81 => { cpu.a = alu.add(cpu.a, cpu.c); cpu.cc.set_arith(cpu.a, alu); 0 },
        0x82 => { cpu.a = alu.add(cpu.a, cpu.d); cpu.cc.set_arith(cpu.a, alu); 0 },
        0x83 => { cpu.a = alu.add(cpu.a, cpu.e); cpu.cc.set_arith(cpu.a, alu); 0 },
        0x84 => { cpu.a = alu.add(cpu.a, cpu.h); cpu.cc.set_arith(cpu.a, alu); 0 },
        0x85 => { cpu.a = alu.add(cpu.a, cpu.l); cpu.cc.set_arith(cpu.a, alu); 0 },
        0x86 => { cpu.a = alu.add(cpu.a, cpu.from_hl(mem)); cpu.cc.set_arith(cpu.a, alu); 0 },
        0x87 => { cpu.a = alu.add(cpu.a, cpu.a); cpu.cc.set_arith(cpu.a, alu); 0 },
        0x88 => { cpu.a = alu.add3(cpu.a, cpu.b, cpu.cc.cy); cpu.cc.set_arith(cpu.a, alu); 0 },
        0x89 => { cpu.a = alu.add3(cpu.a, cpu.c, cpu.cc.cy); cpu.cc.set_arith(cpu.a, alu); 0 },
        0x8A => { cpu.a = alu.add3(cpu.a, cpu.d, cpu.cc.cy); cpu.cc.set_arith(cpu.a, alu); 0 },
        0x8B => { cpu.a = alu.add3(cpu.a, cpu.e, cpu.cc.cy); cpu.cc.set_arith(cpu.a, alu); 0 },
        0x8C => { cpu.a = alu.add3(cpu.a, cpu.h, cpu.cc.cy); cpu.cc.set_arith(cpu.a, alu); 0 },
        0x8D => { cpu.a = alu.add3(cpu.a, cpu.l, cpu.cc.cy); cpu.cc.set_arith(cpu.a, alu); 0 },
        0x8E => { cpu.a = alu.add3(cpu.a, cpu.from_hl(mem), cpu.cc.cy); cpu.cc.set_arith(cpu.a, alu); 0 },
        0x8F => { cpu.a = alu.add3(cpu.a, cpu.a, cpu.cc.cy); cpu.cc.set_arith(cpu.a, alu); 0 },
        0x90 => { cpu.a = alu.sub(cpu.a, cpu.b); cpu.cc.set_arith(cpu.a, alu); 0 },
        0x91 => { cpu.a = alu.sub(cpu.a, cpu.c); cpu.cc.set_arith(cpu.a, alu); 0 },
        0x92 => { cpu.a = alu.sub(cpu.a, cpu.d); cpu.cc.set_arith(cpu.a, alu); 0 },
        0x93 => { cpu.a = alu.sub(cpu.a, cpu.e); cpu.cc.set_arith(cpu.a, alu); 0 },
        0x94 => { cpu.a = alu.sub(cpu.a, cpu.h); cpu.cc.set_arith(cpu.a, alu); 0 },
        0x95 => { cpu.a = alu.sub(cpu.a, cpu.l); cpu.cc.set_arith(cpu.a, alu); 0 },
        0x96 => { cpu.a = alu.sub(cpu.a, cpu.from_hl(mem)); cpu.cc.set_arith(cpu.a, alu); 0 },
        0x97 => { cpu.a = alu.sub(cpu.a, cpu.a); cpu.cc.set_arith(cpu.a, alu); 0 },
        0x98 => { cpu.a = alu.sub3(cpu.a, cpu.b, cpu.cc.cy); cpu.cc.set_arith(cpu.a, alu); 0 },
        0x99 => { cpu.a = alu.sub3(cpu.a, cpu.c, cpu.cc.cy); cpu.cc.set_arith(cpu.a, alu); 0 },
        0x9A => { cpu.a = alu.sub3(cpu.a, cpu.d, cpu.cc.cy); cpu.cc.set_arith(cpu.a, alu); 0 },
        0x9B => { cpu.a = alu.sub3(cpu.a, cpu.e, cpu.cc.cy); cpu.cc.set_arith(cpu.a, alu); 0 },
        0x9C => { cpu.a = alu.sub3(cpu.a, cpu.h, cpu.cc.cy); cpu.cc.set_arith(cpu.a, alu); 0 },
        0x9D => { cpu.a = alu.sub3(cpu.a, cpu.l, cpu.cc.cy); cpu.cc.set_arith(cpu.a, alu); 0 },
        0x9E => { cpu.a = alu.sub3(cpu.a, cpu.from_hl(mem), cpu.cc.cy); cpu.cc.set_arith(cpu.a, alu); 0 },
        0x9F => { cpu.a = alu.sub3(cpu.a, cpu.a, cpu.cc.cy); cpu.cc.set_arith(cpu.a, alu); 0 },
        0xA0 => { cpu.a = cpu.a & cpu.b; cpu.cc.set_logic(cpu.a); 0 },
        0xA1 => { cpu.a = cpu.a & cpu.c; cpu.cc.set_logic(cpu.a); 0 },
        0xA2 => { cpu.a = cpu.a & cpu.d; cpu.cc.set_logic(cpu.a); 0 },
        0xA3 => { cpu.a = cpu.a & cpu.e; cpu.cc.set_logic(cpu.a); 0 },
        0xA4 => { cpu.a = cpu.a & cpu.h; cpu.cc.set_logic(cpu.a); 0 },
        0xA5 => { cpu.a = cpu.a & cpu.l; cpu.cc.set_logic(cpu.a); 0 },
        0xA6 => { cpu.a = cpu.a & cpu.from_hl(mem); cpu.cc.set_logic(cpu.a); 0 },
        0xA7 => { cpu.a = cpu.a & cpu.a; cpu.cc.set_logic(cpu.a); 0 },
        0xA8 => { cpu.a = cpu.a ^ cpu.b; cpu.cc.set_logic(cpu.a); 0 },
        0xA9 => { cpu.a = cpu.a ^ cpu.c; cpu.cc.set_logic(cpu.a); 0 },
        0xAA => { cpu.a = cpu.a ^ cpu.d; cpu.cc.set_logic(cpu.a); 0 },
        0xAB => { cpu.a = cpu.a ^ cpu.e; cpu.cc.set_logic(cpu.a); 0 },
        0xAC => { cpu.a = cpu.a ^ cpu.h; cpu.cc.set_logic(cpu.a); 0 },
        0xAD => { cpu.a = cpu.a ^ cpu.l; cpu.cc.set_logic(cpu.a); 0 },
        0xAE => { cpu.a = cpu.a ^ cpu.from_hl(mem); cpu.cc.set_logic(cpu.a); 0 },
        0xAF => { cpu.a = cpu.a ^ cpu.a; cpu.cc.set_logic(cpu.a); 0 },
        0xB0 => { cpu.a = cpu.a | cpu.b; cpu.cc.set_logic(cpu.a); 0 },
        0xB1 => { cpu.a = cpu.a | cpu.c; cpu.cc.set_logic(cpu.a); 0 },
        0xB2 => { cpu.a = cpu.a | cpu.d; cpu.cc.set_logic(cpu.a); 0 },
        0xB3 => { cpu.a = cpu.a | cpu.e; cpu.cc.set_logic(cpu.a); 0 },
        0xB4 => { cpu.a = cpu.a | cpu.h; cpu.cc.set_logic(cpu.a); 0 },
        0xB5 => { cpu.a = cpu.a | cpu.l; cpu.cc.set_logic(cpu.a); 0 },
        0xB6 => { cpu.a = cpu.a | cpu.from_hl(mem); cpu.cc.set_logic(cpu.a); 0 },
        0xB7 => { cpu.a = cpu.a | cpu.a; cpu.cc.set_logic(cpu.a); 0 },
        0xB8 => { let r = alu.sub(cpu.a, cpu.b); cpu.cc.set_arith(r, alu); 0 },
        0xB9 => { let r = alu.sub(cpu.a, cpu.c); cpu.cc.set_arith(r, alu); 0 },
        0xBA => { let r = alu.sub(cpu.a, cpu.d); cpu.cc.set_arith(r, alu); 0 },
        0xBB => { let r = alu.sub(cpu.a, cpu.e); cpu.cc.set_arith(r, alu); 0 },
        0xBC => { let r = alu.sub(cpu.a, cpu.h); cpu.cc.set_arith(r, alu); 0 },
        0xBD => { let r = alu.sub(cpu.a, cpu.l); cpu.cc.set_arith(r, alu); 0 },
        0xBE => { let r = alu.sub(cpu.a, cpu.from_hl(mem)); cpu.cc.set_arith(r, alu); 0 },
        // CMP A.
        _ => { let r = alu.sub(cpu.a, cpu.a); cpu.cc.set_arith(r, alu); 0 },
    }
}

#[verifier::rlimit(100)]
#[verifier::spinoff_prover]
fn exec_ctrl(cpu: &mut CPU, alu: &mut ALU, mem: &mut Vec<u8>, op: u8, a1: u8, a2: u8, args: u16) -> (inc: u16)
    requires
        0xC0 <= op,
        cpu_wf(*old(cpu)),
        old(mem)@.len() == 0x10000,
        args == pair16(a2, a1),
    ensures
        ({
            let o = spec_op_ctrl(*old(cpu), *old(alu), old(mem)@, op, a1, a2);
            *final(cpu) == o.cpu && *final(alu) == o.alu && final(mem)@ == o.mem && inc == o.inc
        }),
        cpu_wf(*final(cpu)),
        final(mem)@.len() == 0x10000,
{
    proof {
        reveal(spec_op_ctrl);
    }
    match op {
        0xC0 => { if cpu.cc.z == 0 { ret_op(cpu, mem); } 0 },
        0xC1 => { let t = pop16(cpu, mem); cpu.b = t.0; cpu.c = t.1; 0 },
        0xC2 => { if cpu.cc.z == 0 { cpu.pc = args; 0 } else { 2 } },
        0xC3 => { cpu.pc = args; 0 },
        0xC4 => { if cpu.cc.z == 0 { callx_op(cpu, mem, args); 0 } else { 2 } },
        0xC5 => { let hi = cpu.b; let lo = cpu.c; push16(cpu, mem, hi, lo); 0 },
        0xC6 => { cpu.a = alu.add(cpu.a, a1); cpu.cc.set_arith(cpu.a, alu); 1 },
        0xC7 => { call_op(cpu, mem, 0); 0 },
        0xC8 => { if cpu.cc.z == 1 { ret_op(cpu, mem); } 0 },
        0xC9 => { ret_op(cpu, mem); 0 },
        0xCA => { if cpu.cc.z == 1 { cpu.pc = args; 0 } else { 2 } },
        // 0xCB is the undocumented alias of JMP.
        0xCB => { cpu.pc = args; 0 },
        0xCC => { if cpu.cc.z == 1 { callx_op(cpu, mem, args); 0 } else { 2 } },
        0xCD => { callx_op(cpu, mem, args); 0 },
        0xCE => { cpu.a = alu.add3(cpu.a, a1, cpu.cc.cy); cpu.cc.set_arith(cpu.a, alu); 1 },
        0xCF => { call_op(cpu, mem, 8); 0 },
        0xD0 => { if cpu.cc.cy == 0 { ret_op(cpu, mem); } 0 },
        0xD1 => { let t = pop16(cpu, mem); cpu.d = t.0; cpu.e = t.1; 0 },
        0xD2 => { if cpu.cc.cy == 0 { cpu.pc = args; 0 } else { 2 } },
        0xD3 => 1,
        0xD4 => { if cpu.cc.cy == 0 { callx_op(cpu, mem, args); 0 } else { 2 } },
        0xD5 => { let hi = cpu.d; let lo = cpu.e; push16(cpu, mem, hi, lo); 0 },
        0xD6 => { cpu.a = alu.sub(cpu.a, a1); cpu.cc.set_arith(cpu.a, alu); 1 },
        0xD7 => { call_op(cpu, mem, 0x10); 0 },
        0xD8 => { if cpu.cc.cy == 1 { ret_op(cpu, mem); } 0 },
        // 0xD9 is the undocumented alias of RET.
        0xD9 => { ret_op(cpu, mem); 0 },
        0xDA => { if cpu.cc.cy == 1 { cpu.pc = args; 0 } else { 2 } },
        0xDB => 1,
        0xDC => { if cpu.cc.cy == 1 { callx_op(cpu, mem, args); 0 } else { 2 } },
        // 0xDD is an undocumented alias of CALL.
        0xDD => { callx_op(cpu, mem, args); 0 },
        0xDE => { cpu.a = alu.sub3(cpu.a, a1, cpu.cc.cy); cpu.cc.set_arith(cpu.a, alu); 1 },
        0xDF => { call_op(cpu, mem, 0x18); 0 },
        0xE0 => { if cpu.cc.p == 0 { ret_op(cpu, mem); } 0 },
        0xE1 => { let t = pop16(cpu, mem); cpu.h = t.0; cpu.l = t.1; 0 },
        0xE2 => { if cpu.cc.p == 0 { cpu.pc = args; 0 } else { 2 } },
        0xE3 => {
            let sp0 = cpu.sp;
            let sp1 = wadd16(cpu.sp, 1);
            let ml = mem_read(mem, sp0);
            let mh = mem_read(mem, sp1);
            let l0 = cpu.l;
            let h0 = cpu.h;
            mem_write(mem, sp0, l0);
            mem_write(mem, sp1, h0);
            cpu.l = ml;
            cpu.h = mh;
            0
        },
        0xE4 => { if cpu.cc.p == 0 { callx_op(cpu, mem, args); 0 } else { 2 } },
        0xE5 => { let hi = cpu.h; let lo = cpu.l; push16(cpu, mem, hi, lo); 0 },
        0xE6 => { cpu.a = cpu.a & a1; cpu.cc.set_logic(cpu.a); 1 },
        0xE7 => { call_op(cpu, mem, 0x20); 0 },
        0xE8 => { if cpu.cc.p == 1 { ret_op(cpu, mem); } 0 },
        0xE9 => { cpu.pc = cpu.get_hl(); 0 },
        0xEA => { if cpu.cc.p == 1 { cpu.pc = args; 0 } else { 2 } },
        0xEB => {
            let d0 = cpu.d;
            cpu.d = cpu.h;
            cpu.h = d0;
            let e0 = cpu.e;
            cpu.e = cpu.l;
            cpu.l = e0;
            0
        },
        0xEC => { if cpu.cc.p == 1 { callx_op(cpu, mem, args); 0 } else { 2 } },
        // 0xED is an undocumented alias of CALL.
        0xED => { callx_op(cpu, mem, args); 0 },
        0xEE => { cpu.a = cpu.a ^ a1; cpu.cc.set_logic(cpu.a); 1 },
        0xEF => { call_op(cpu, mem, 0x28); 0 },
        0xF0 => { if cpu.cc.s == 0 { ret_op(cpu, mem); } 0 },
        0xF1 => {
            let t = pop16(cpu, mem);
            cpu.cc.set_psw(t.1);
            cpu.a = t.0;
            0
        },
        0xF2 => { if cpu.cc.s == 0 { cpu.pc = args; 0 } else { 2 } },
        0xF3 => { cpu.int_enable = 0; 0 },
        0xF4 => { if cpu.cc.s == 0 { callx_op(cpu, mem, args); 0 } else { 2 } },
        0xF5 => { let hi = cpu.a; let lo = cpu.cc.get_psw(); push16(cpu, mem, hi, lo); 0 },
        0xF6 => { cpu.a = cpu.a | a1; cpu.cc.set_logic(cpu.a); 1 },
        0xF7 => { call_op(cpu, mem, 0x30); 0 },
        0xF8 => { if cpu.cc.s == 1 { ret_op(cpu, mem); } 0 },
        0xF9 => { cpu.sp = cpu.get_hl(); 0 },
        0xFA => { if cpu.cc.s != 0 { cpu.pc = args; 0 } else { 2 } },
        0xFB => { cpu.int_enable = 1; 0 },
        0xFC => { if cpu.cc.s == 1 { callx_op(cpu, mem, args); 0 } else { 2 } },
        // 0xFD is an undocumented alias of CALL.
        0xFD => { callx_op(cpu, mem, args); 0 },
        0xFE => { let r = alu.sub(cpu.a, a1); cpu.cc.set_arith(r, alu); 1 },
        // RST 7.
        _ => { call_op(cpu, mem, 0x38); 0 },
    }
}

/// Execute one decoded instruction: `opcode` with its (up to) two immediate
/// bytes. Realizes `spec_execute` exactly: registers, flags, memory, PC and
/// the returned cycle count all match the specification interpreter, for
/// every opcode and every well-formed state. A return of 0 cycles means HLT.
#[verifier::rlimit(100)]
#[verifier::spinoff_prover]
pub fn execute(cpu: &mut CPU, alu: &mut ALU, mem: &mut Vec<u8>, opcode: u8, arg1: u8, arg2: u8) -> (cycles: u8)
    requires
        cpu_wf(*old(cpu)),
        old(mem)@.len() == 0x10000,
    ensures
        ({
            let o = spec_execute(*old(cpu), *old(alu), old(mem)@, opcode, arg1, arg2);
            *final(cpu) == o.cpu && *final(alu) == o.alu && final(mem)@ == o.mem && cycles == o.cycles
        }),
        cpu_wf(*final(cpu)),
        final(mem)@.len() == 0x10000,
{
    let args: u16 = arg2 as u16 * 256 + arg1 as u16;
    cpu.pc = wadd16(cpu.pc, 1);

    if opcode == 0x76 {
        return 0;
    }
    let inc: u16 = if opcode < 0x20 {
        exec_misc_00_1f(cpu, alu, mem, opcode, arg1, arg2, args)
    } else if opcode < 0x29 {
        exec_misc_20_28(cpu, alu, mem, opcode, arg1, arg2, args)
    } else if opcode < 0x31 {
        exec_misc_29_30(cpu, alu, mem, opcode, arg1, arg2, args)
    } else if opcode < 0x39 {
        exec_misc_31_38(cpu, alu, mem, opcode, arg1, arg2, args)
    } else if opcode < 0x3C {
        exec_misc_39_3b(cpu, alu, mem, opcode, arg1, arg2, args)
    } else if opcode < 0x40 {
        exec_misc_3c_3f(cpu, alu, mem, opcode, arg1, arg2, args)
    } else if opcode < 0x80 {
        exec_mov(cpu, alu, mem, opcode)
    } else if opcode < 0xC0 {
        exec_alu8(cpu, alu, mem, opcode)
    } else {
        exec_ctrl(cpu, alu, mem, opcode, arg1, arg2, args)
    };
    cpu.pc = wadd16(cpu.pc, inc);
    cycle_count(opcode)
}

/// Interrupt entry with number `n`: the exact equivalent of RST n. The
/// current PC is pushed and execution resumes at 8*n with the
/// interrupt-enable latch cleared.
pub open spec fn spec_generate_interrupt(cpu: CPU, mem: Seq<u8>, n: u8) -> (CPU, Seq<u8>) {
    let t = spec_call(cpu, mem, (8 * n) as u16);
    (CPU { int_enable: 0, ..t.0 }, t.1)
}

/// Perform the RST-style interrupt entry for interrupt number `n`.
pub fn generate_interrupt(cpu: &mut CPU, mem: &mut Vec<u8>, interrupt_num: u8)
    requires
        old(mem)@.len() == 0x10000,
    ensures
        *final(cpu) == spec_generate_interrupt(*old(cpu), old(mem)@, interrupt_num).0,
        final(mem)@ == spec_generate_interrupt(*old(cpu), old(mem)@, interrupt_num).1,
        final(mem)@.len() == 0x10000,
{
    call_op(cpu, mem, interrupt_num as u16 * 8);
    cpu.int_enable = 0;
}

} // verus!
