use emu8080::alu::ALU;
use emu8080::cpu::parity;
use emu8080::cpu::ConditionCodes;

#[test]
fn alu_add_result_and_flags() {
    let mut alu = ALU::new();
    assert_eq!(alu.add(0x12, 0x34), 0x46);
    assert!(!alu.cy);
    assert!(!alu.ac);

    assert_eq!(alu.add(0xFF, 0x01), 0x00);
    assert!(alu.cy);
    assert!(alu.ac);

    assert_eq!(alu.add(0x0F, 0x01), 0x10);
    assert!(!alu.cy);
    assert!(alu.ac);
}

#[test]
fn alu_add_matches_wide_arithmetic_everywhere() {
    // The quantified statement: result = (x + y) mod 256, CY = carry out,
    // AC = low-nibble carry. Checked on a spread of operand pairs.
    let mut alu = ALU::new();
    for x in (0u16..256).step_by(7) {
        for y in (0u16..256).step_by(11) {
            let r = alu.add(x as u8, y as u8);
            assert_eq!(r as u16, (x + y) % 256);
            assert_eq!(alu.cy, x + y > 255);
            assert_eq!(alu.ac, (x % 16) + (y % 16) > 15);
        }
    }
}

#[test]
fn alu_add3_carries_through() {
    let mut alu = ALU::new();
    assert_eq!(alu.add3(0xFE, 0x01, 0x01), 0x00);
    assert!(alu.cy);
    assert!(alu.ac);
}

#[test]
fn alu_sub_borrow_and_half_borrow_convention() {
    let mut alu = ALU::new();
    // Low nibble 0x0 - 0x1 borrows, so AC (set iff no half-borrow) is clear.
    assert_eq!(alu.sub(0x10, 0x01), 0x0F);
    assert!(!alu.cy);
    assert!(!alu.ac);

    // Low nibble 0x5 - 0x3 does not borrow, so AC is set.
    assert_eq!(alu.sub(0x15, 0x03), 0x12);
    assert!(!alu.cy);
    assert!(alu.ac);

    assert_eq!(alu.sub(0x00, 0x01), 0xFF);
    assert!(alu.cy);
    assert!(!alu.ac);

    assert_eq!(alu.sub3(0x00, 0xFF, 0x01), 0x00);
    assert!(alu.cy);
    assert!(!alu.ac);

    // 0x5 - 0x2 - 1 does not half-borrow.
    assert_eq!(alu.sub3(0x15, 0x02, 0x01), 0x12);
    assert!(!alu.cy);
    assert!(alu.ac);
}

#[test]
fn alu_wide_ops_wrap_and_set_carry() {
    let mut alu = ALU::new();
    assert_eq!(alu.addx(0xFFFF, 0x0002), 0x0001);
    assert!(alu.cy);
    assert_eq!(alu.addx(0x1234, 0x0001), 0x1235);
    assert!(!alu.cy);
    assert_eq!(alu.subx(0x0000, 0x0001), 0xFFFF);
    assert!(alu.cy);
    assert_eq!(alu.subx(0x0002, 0x0001), 0x0001);
    assert!(!alu.cy);
}

#[test]
fn parity_counts_set_bits_evenly_for_every_byte() {
    for v in 0u16..256 {
        let expected = if (v as u8).count_ones() % 2 == 0 { 1 } else { 0 };
        assert_eq!(parity(v as u8), expected, "byte {v:#04x}");
    }
}

#[test]
fn psw_packs_flags_into_documented_bits() {
    let mut cc = ConditionCodes::new();
    cc.cy = 1;
    cc.p = 1;
    cc.ac = 1;
    cc.z = 1;
    cc.s = 1;
    // bit0=CY, bit1 reads 1, bit2=P, bit4=AC, bit6=Z, bit7=S.
    assert_eq!(cc.get_psw(), 0b1101_0111);
    let empty = ConditionCodes::new();
    assert_eq!(empty.get_psw(), 0b0000_0010);
}

#[test]
fn psw_roundtrip_forces_reserved_bits_for_every_byte() {
    for p in 0u16..256 {
        let mut cc = ConditionCodes::new();
        cc.set_psw(p as u8);
        // Bits 1, 3, 5 come back as 1, 0, 0; the five flags survive.
        assert_eq!(cc.get_psw(), (p as u8 | 0x02) & 0xD7, "byte {p:#04x}");
    }
}

#[test]
fn set_arith_takes_all_five_flags() {
    let mut alu = ALU::new();
    let r = alu.add(0xFF, 0x01);
    let mut cc = ConditionCodes::new();
    cc.set_arith(r, &alu);
    assert_eq!((cc.z, cc.s, cc.p, cc.cy, cc.ac), (1, 0, 1, 1, 1));
}

#[test]
fn set_zsp_leaves_carry_alone() {
    let mut alu = ALU::new();
    let mut cc = ConditionCodes::new();
    cc.cy = 1;
    let r = alu.add(0x7F, 0x01);
    cc.set_zsp(r, &alu);
    assert_eq!(cc.cy, 1);
    assert_eq!(cc.s, 1);
    assert_eq!(cc.z, 0);
}

#[test]
fn set_logic_clears_carries() {
    let mut cc = ConditionCodes::new();
    cc.cy = 1;
    cc.ac = 1;
    cc.set_logic(0x00);
    assert_eq!((cc.z, cc.s, cc.p, cc.cy, cc.ac), (1, 0, 1, 0, 0));
}
