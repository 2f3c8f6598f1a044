//! Architectural CPU state: the seven 8-bit registers, the 16-bit stack
//! pointer and program counter, the interrupt-enable latch, and the five
//! condition flags with their packed program-status-word (PSW) form.

use vstd::prelude::*;
use crate::alu::ALU;
use crate::alu::wrap8;

verus! {

/// Two bytes joined big-endian into a 16-bit value (`hi` is the high byte).
pub open spec fn pair16(hi: u8, lo: u8) -> u16 {
    (hi * 256 + lo) as u16
}

/// The high byte of a 16-bit value.
pub open spec fn hi8(v: u16) -> u8 {
    (v / 256) as u8
}

/// The low byte of a 16-bit value.
pub open spec fn lo8(v: u16) -> u8 {
    (v % 256) as u8
}

/// How many of the byte's eight bits are set.
pub open spec fn set_bits(v: u8) -> int {
    v % 2 + v / 2 % 2 + v / 4 % 2 + v / 8 % 2 + v / 16 % 2 + v / 32 % 2 + v / 64 % 2
        + v / 128 % 2
}

/// Even parity of a byte: 1 when the number of set bits is even, else 0.
pub open spec fn spec_parity(v: u8) -> u8 {
    if set_bits(v) % 2 == 0 {
        1
    } else {
        0
    }
}

/// Even parity of all eight bits of the byte: 1 iff the count of set bits is even.
pub fn parity(byte: u8) -> (r: u8)
    ensures
        r == spec_parity(byte),
        (r == 1) <==> set_bits(byte) % 2 == 0,
{
    let count: u8 = byte % 2 + byte / 2 % 2 + byte / 4 % 2 + byte / 8 % 2 + byte / 16 % 2
        + byte / 32 % 2 + byte / 64 % 2 + byte / 128 % 2;
    if count % 2 == 0 {
        1
    } else {
        0
    }
}

/// The five condition flags, each held as 0 or 1.
pub struct ConditionCodes {
    pub z: u8,
    pub s: u8,
    pub p: u8,
    pub cy: u8,
    pub ac: u8,
}

/// Every flag holds 0 or 1.
pub open spec fn cc_wf(cc: ConditionCodes) -> bool {
    cc.z <= 1 && cc.s <= 1 && cc.p <= 1 && cc.cy <= 1 && cc.ac <= 1
}

/// The packed PSW byte: bit0 = CY, bit1 reads as 1, bit2 = P, bit3 reads as 0,
/// bit4 = AC, bit5 reads as 0, bit6 = Z, bit7 = S.
pub open spec fn spec_get_psw(cc: ConditionCodes) -> u8 {
    wrap8(cc.cy + 2 + cc.p * 4 + cc.ac * 16 + cc.z * 64 + cc.s * 128)
}

/// The five flags restored from their positions in a PSW byte; the reserved
/// bits 1, 3 and 5 are discarded.
pub open spec fn spec_set_psw(psw: u8) -> ConditionCodes {
    ConditionCodes {
        cy: (psw % 2) as u8,
        p: (psw / 4 % 2) as u8,
        ac: (psw / 16 % 2) as u8,
        z: (psw / 64 % 2) as u8,
        s: (psw / 128) as u8,
    }
}

/// Flags after an arithmetic result byte: Z, S and P from the value, CY and
/// AC taken from the ALU's outputs.
pub open spec fn spec_set_arith(val: u8, alu: ALU) -> ConditionCodes {
    ConditionCodes {
        z: if val == 0 { 1 } else { 0 },
        s: (val / 128) as u8,
        p: spec_parity(val),
        cy: if alu.cy { 1 } else { 0 },
        ac: if alu.ac { 1 } else { 0 },
    }
}

/// As `spec_set_arith`, but CY keeps its previous value (INR/DCR semantics).
pub open spec fn spec_set_zsp(cc: ConditionCodes, val: u8, alu: ALU) -> ConditionCodes {
    ConditionCodes {
        z: if val == 0 { 1 } else { 0 },
        s: (val / 128) as u8,
        p: spec_parity(val),
        cy: cc.cy,
        ac: if alu.ac { 1 } else { 0 },
    }
}

/// Flags after a logical result byte: Z, S and P from the value, CY and AC cleared.
pub open spec fn spec_set_logic(val: u8) -> ConditionCodes {
    ConditionCodes {
        z: if val == 0 { 1 } else { 0 },
        s: (val / 128) as u8,
        p: spec_parity(val),
        cy: 0,
        ac: 0,
    }
}

impl ConditionCodes {
    pub fn new() -> (r: ConditionCodes)
        ensures
            r == (ConditionCodes { z: 0, s: 0, p: 0, cy: 0, ac: 0 }),
    {
        ConditionCodes { z: 0, s: 0, p: 0, cy: 0, ac: 0 }
    }

    pub fn get_psw(&self) -> (r: u8)
        requires
            cc_wf(*self),
        ensures
            r == spec_get_psw(*self),
    {
        self.cy + 2 + self.p * 4 + self.ac * 16 + self.z * 64 + self.s * 128
    }

    pub fn set_psw(&mut self, psw: u8)
        ensures
            *final(self) == spec_set_psw(psw),
            cc_wf(*final(self)),
    {
        self.cy = psw % 2;
        self.p = psw / 4 % 2;
        self.ac = psw / 16 % 2;
        self.z = psw / 64 % 2;
        self.s = psw / 128;
    }

    pub fn set_arith(&mut self, val: u8, alu: &ALU)
        ensures
            *final(self) == spec_set_arith(val, *alu),
            cc_wf(*final(self)),
    {
        self.z = if val == 0 { 1 } else { 0 };
        self.s = val / 128;
        self.p = parity(val);
        self.cy = if alu.cy { 1 } else { 0 };
        self.ac = if alu.ac { 1 } else { 0 };
    }

    pub fn set_zsp(&mut self, val: u8, alu: &ALU)
        ensures
            *final(self) == spec_set_zsp(*old(self), val, *alu),
            old(self).cy <= 1 ==> cc_wf(*final(self)),
    {
        self.z = if val == 0 { 1 } else { 0 };
        self.s = val / 128;
        self.p = parity(val);
        self.ac = if alu.ac { 1 } else { 0 };
    }

    pub fn set_logic(&mut self, val: u8)
        ensures
            *final(self) == spec_set_logic(val),
            cc_wf(*final(self)),
    {
        self.cy = 0;
        self.ac = 0;
        self.z = if val == 0 { 1 } else { 0 };
        self.s = val / 128;
        self.p = parity(val);
    }
}

/// Registers A through L, stack pointer, program counter, condition flags and
/// the interrupt-enable latch. Register pairs BC, DE and HL are big-endian
/// 16-bit views of their two bytes.
pub struct CPU {
    pub a: u8,
    pub b: u8,
    pub c: u8,
    pub d: u8,
    pub e: u8,
    pub h: u8,
    pub l: u8,
    pub sp: u16,
    pub pc: u16,
    pub cc: ConditionCodes,
    pub int_enable: u8,
}

/// Well-formed CPU state: each condition flag holds 0 or 1.
pub open spec fn cpu_wf(cpu: CPU) -> bool {
    cc_wf(cpu.cc)
}

impl CPU {
    pub fn new() -> (r: CPU)
        ensures
            r == (CPU {
                a: 0,
                b: 0,
                c: 0,
                d: 0,
                e: 0,
                h: 0,
                l: 0,
                sp: 0,
                pc: 0,
                cc: ConditionCodes { z: 0, s: 0, p: 0, cy: 0, ac: 0 },
                int_enable: 0,
            }),
    {
        CPU {
            a: 0,
            b: 0,
            c: 0,
            d: 0,
            e: 0,
            h: 0,
            l: 0,
            sp: 0,
            pc: 0,
            cc: ConditionCodes::new(),
            int_enable: 0,
        }
    }

    pub fn get_hl(&self) -> (r: u16)
        ensures
            r == pair16(self.h, self.l),
    {
        self.h as u16 * 256 + self.l as u16
    }

    pub fn set_hl(&mut self, val: u16)
        ensures
            *final(self) == (CPU { h: hi8(val), l: lo8(val), ..*old(self) }),
    {
        self.h = (val / 256) as u8;
        self.l = (val % 256) as u8;
    }

    pub fn get_bc(&self) -> (r: u16)
        ensures
            r == pair16(self.b, self.c),
    {
        self.b as u16 * 256 + self.c as u16
    }

    pub fn set_bc(&mut self, val: u16)
        ensures
            *final(self) == (CPU { b: hi8(val), c: lo8(val), ..*old(self) }),
    {
        self.b = (val / 256) as u8;
        self.c = (val % 256) as u8;
    }

    pub fn get_de(&self) -> (r: u16)
        ensures
            r == pair16(self.d, self.e),
    {
        self.d as u16 * 256 + self.e as u16
    }

    pub fn set_de(&mut self, val: u16)
        ensures
            *final(self) == (CPU { d: hi8(val), e: lo8(val), ..*old(self) }),
    {
        self.d = (val / 256) as u8;
        self.e = (val % 256) as u8;
    }

    /// The byte of memory addressed by the HL pair.
    pub fn from_hl(&self, mem: &Vec<u8>) -> (r: u8)
        requires
            mem@.len() == 0x10000,
        ensures
            r == mem@[pair16(self.h, self.l) as int],
    {
        mem[(self.h as usize) * 256 + self.l as usize]
    }

    /// Store a byte at the memory address held in the HL pair.
    pub fn to_hl(&self, mem: &mut Vec<u8>, val: u8)
        requires
            old(mem)@.len() == 0x10000,
        ensures
            final(mem)@ == old(mem)@.update(pair16(self.h, self.l) as int, val),
    {
        mem[(self.h as usize) * 256 + self.l as usize] = val;
    }
}

} // verus!
