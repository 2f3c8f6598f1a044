//! Primitive 8- and 16-bit add/sub operations. Each returns its result and
//! leaves the carry (CY) and auxiliary-carry (AC) side effects in the ALU for
//! the flag-derivation helpers to read. The ALU never touches S, Z or P.

use vstd::prelude::*;

verus! {

/// Transient carry and auxiliary-carry outputs of the most recent operation.
pub struct ALU {
    pub cy: bool,
    pub ac: bool,
}

/// A value reduced to its low byte, i.e. taken modulo 256.
pub open spec fn wrap8(x: int) -> u8 {
    (x % 256) as u8
}

/// A value reduced to its low 16 bits, i.e. taken modulo 2^16.
pub open spec fn wrap16(x: int) -> u16 {
    (x % 0x10000) as u16
}

/// ALU outputs of an 8-bit add of two or three operands: CY is the carry out
/// of bit 7, AC the carry out of bit 3 (the low nibbles are the values mod 16).
pub open spec fn alu_after_add(x: u8, y: u8, z: u8) -> ALU {
    ALU { cy: x + y + z > 0xFF, ac: x % 16 + y % 16 + z % 16 > 0xF }
}

/// ALU outputs of an 8-bit subtract: CY is the borrow out of bit 7. AC uses
/// the hardware's half-borrow-inverted convention, equivalent to
/// complement-and-add: AC is set exactly when the low-nibble subtraction did
/// NOT borrow. CP/M diagnostics rely on this reading.
pub open spec fn alu_after_sub(x: u8, y: u8, z: u8) -> ALU {
    ALU { cy: x - y - z < 0, ac: x % 16 - y % 16 - z >= 0 }
}

impl ALU {
    pub fn new() -> (r: ALU)
        ensures
            !r.cy,
            !r.ac,
    {
        ALU { cy: false, ac: false }
    }

    /// result = (x + y) mod 256; CY = carry out of bit 7; AC = carry out of bit 3.
    pub fn add(&mut self, x: u8, y: u8) -> (r: u8)
        ensures
            r == wrap8(x + y),
            *final(self) == alu_after_add(x, y, 0),
    {
        let res: u16 = x as u16 + y as u16;
        self.ac = x % 16 + y % 16 > 0xF;
        self.cy = res > 0xFF;
        (res % 256) as u8
    }

    /// Three-operand add, used for ADC (z = carry flag) and DAA sub-steps.
    pub fn add3(&mut self, x: u8, y: u8, z: u8) -> (r: u8)
        ensures
            r == wrap8(x + y + z),
            *final(self) == alu_after_add(x, y, z),
    {
        let res: u16 = x as u16 + y as u16 + z as u16;
        self.ac = x % 16 + y % 16 + z % 16 > 0xF;
        self.cy = res > 0xFF;
        (res % 256) as u8
    }

    /// 16-bit add: result wraps, CY reports the overflow, AC is untouched.
    pub fn addx(&mut self, x: u16, y: u16) -> (r: u16)
        ensures
            r == wrap16(x + y),
            *final(self) == (ALU { cy: x + y > 0xFFFF, ac: old(self).ac }),
    {
        let res: u32 = x as u32 + y as u32;
        self.cy = res > 0xFFFF;
        (res % 0x10000) as u16
    }

    /// result = (x - y) mod 256; CY = borrow out of bit 7; AC = 1 iff the
    /// low-nibble subtraction did not borrow.
    pub fn sub(&mut self, x: u8, y: u8) -> (r: u8)
        ensures
            r == wrap8(x - y),
            *final(self) == alu_after_sub(x, y, 0),
    {
        self.ac = x % 16 >= y % 16;
        self.cy = x < y;
        let res: u16 = (x as u16 + 0x100) - y as u16;
        (res % 256) as u8
    }

    /// Three-operand subtract, used for SBB (z = carry flag).
    pub fn sub3(&mut self, x: u8, y: u8, z: u8) -> (r: u8)
        ensures
            r == wrap8(x - y - z),
            *final(self) == alu_after_sub(x, y, z),
    {
        self.ac = (x % 16) as u16 >= (y % 16) as u16 + z as u16;
        self.cy = (x as u16) < y as u16 + z as u16;
        let res: u16 = (x as u16 + 0x200) - y as u16 - z as u16;
        (res % 256) as u8
    }

    /// 16-bit subtract: result wraps, CY reports the borrow, AC is untouched.
    pub fn subx(&mut self, x: u16, y: u16) -> (r: u16)
        ensures
            r == wrap16(x - y),
            *final(self) == (ALU { cy: x < y, ac: old(self).ac }),
    {
        self.cy = x < y;
        let res: u32 = (x as u32 + 0x10000) - y as u32;
        (res % 0x10000) as u16
    }
}

} // verus!
