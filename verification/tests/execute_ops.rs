use emu8080::alu::ALU;
use emu8080::cpu::CPU;
use emu8080::operation::cycle_count;
use emu8080::operation::execute;
use emu8080::operation::generate_interrupt;

fn fresh() -> (CPU, ALU, Vec<u8>) {
    (CPU::new(), ALU::new(), vec![0u8; 0x10000])
}

/// Run the instruction at PC straight out of memory, like the machine does.
fn step(cpu: &mut CPU, alu: &mut ALU, mem: &mut Vec<u8>) -> u8 {
    let pc = cpu.pc as usize;
    let op = mem[pc];
    let a1 = mem[(pc + 1) % 0x10000];
    let a2 = mem[(pc + 2) % 0x10000];
    execute(cpu, alu, mem, op, a1, a2)
}

#[test]
fn mvi_a_loads_immediate_and_advances_pc() {
    let (mut cpu, mut alu, mut mem) = fresh();
    cpu.pc = 0x100;
    mem[0x100] = 0x3E;
    mem[0x101] = 0x2A;
    let cycles = step(&mut cpu, &mut alu, &mut mem);
    assert_eq!(cpu.a, 0x2A);
    assert_eq!(cpu.pc, 0x102);
    assert_eq!(cycles, 7);
}

#[test]
fn adi_overflow_sets_all_arithmetic_flags() {
    let (mut cpu, mut alu, mut mem) = fresh();
    cpu.pc = 0x100;
    // MVI A,0xFF; ADI 0x01
    mem[0x100] = 0x3E;
    mem[0x101] = 0xFF;
    mem[0x102] = 0xC6;
    mem[0x103] = 0x01;
    step(&mut cpu, &mut alu, &mut mem);
    step(&mut cpu, &mut alu, &mut mem);
    assert_eq!(cpu.a, 0x00);
    assert_eq!(cpu.cc.z, 1);
    assert_eq!(cpu.cc.cy, 1);
    assert_eq!(cpu.cc.ac, 1);
    assert_eq!(cpu.cc.s, 0);
    assert_eq!(cpu.cc.p, 1);
}

#[test]
fn adi_nibble_carry_sets_only_aux() {
    let (mut cpu, mut alu, mut mem) = fresh();
    cpu.pc = 0x100;
    // MVI A,0x0F; ADI 0x01
    mem[0x100] = 0x3E;
    mem[0x101] = 0x0F;
    mem[0x102] = 0xC6;
    mem[0x103] = 0x01;
    step(&mut cpu, &mut alu, &mut mem);
    step(&mut cpu, &mut alu, &mut mem);
    assert_eq!(cpu.a, 0x10);
    assert_eq!(cpu.cc.ac, 1);
    assert_eq!(cpu.cc.cy, 0);
    assert_eq!(cpu.cc.z, 0);
}

#[test]
fn rotate_right_and_left_circular() {
    let (mut cpu, mut alu, mut mem) = fresh();
    cpu.a = 0x01;
    let c = execute(&mut cpu, &mut alu, &mut mem, 0x0F, 0, 0); // RRC
    assert_eq!(cpu.a, 0x80);
    assert_eq!(cpu.cc.cy, 1);
    assert_eq!(c, 4);

    cpu.a = 0x80;
    execute(&mut cpu, &mut alu, &mut mem, 0x07, 0, 0); // RLC
    assert_eq!(cpu.a, 0x01);
    assert_eq!(cpu.cc.cy, 1);
}

#[test]
fn rotate_through_carry_threads_the_flag() {
    let (mut cpu, mut alu, mut mem) = fresh();
    cpu.a = 0b1011_0101;
    cpu.cc.cy = 0;
    execute(&mut cpu, &mut alu, &mut mem, 0x17, 0, 0); // RAL
    assert_eq!(cpu.a, 0b0110_1010);
    assert_eq!(cpu.cc.cy, 1);

    cpu.a = 0b0110_1010;
    cpu.cc.cy = 1;
    execute(&mut cpu, &mut alu, &mut mem, 0x1F, 0, 0); // RAR
    assert_eq!(cpu.a, 0b1011_0101);
    assert_eq!(cpu.cc.cy, 0);
}

#[test]
fn push_pop_across_pairs_restores_values() {
    let (mut cpu, mut alu, mut mem) = fresh();
    cpu.pc = 0x100;
    // LXI SP,0x2400; LXI B,0x1234; PUSH B; POP D
    let program = [0x31, 0x00, 0x24, 0x01, 0x34, 0x12, 0xC5, 0xD1];
    mem[0x100..0x108].copy_from_slice(&program);
    for _ in 0..4 {
        step(&mut cpu, &mut alu, &mut mem);
    }
    assert_eq!(cpu.d, 0x12);
    assert_eq!(cpu.e, 0x34);
    assert_eq!(cpu.sp, 0x2400);
}

#[test]
fn push_psw_pop_psw_restores_flags() {
    let (mut cpu, mut alu, mut mem) = fresh();
    cpu.sp = 0x2400;
    cpu.a = 0x5A;
    cpu.cc.z = 1;
    cpu.cc.cy = 1;
    execute(&mut cpu, &mut alu, &mut mem, 0xF5, 0, 0); // PUSH PSW
    cpu.a = 0;
    cpu.cc.z = 0;
    cpu.cc.cy = 0;
    execute(&mut cpu, &mut alu, &mut mem, 0xF1, 0, 0); // POP PSW
    assert_eq!(cpu.a, 0x5A);
    assert_eq!(cpu.cc.z, 1);
    assert_eq!(cpu.cc.cy, 1);
    assert_eq!(cpu.sp, 0x2400);
}

#[test]
fn call_pushes_return_address_and_ret_resumes_after_it() {
    let (mut cpu, mut alu, mut mem) = fresh();
    cpu.pc = 0x0100;
    cpu.sp = 0x2400;
    // CALL 0x0456
    let cycles = execute(&mut cpu, &mut alu, &mut mem, 0xCD, 0x56, 0x04);
    assert_eq!(cpu.pc, 0x0456);
    assert_eq!(cpu.sp, 0x23FE);
    assert_eq!(mem[0x23FE], 0x03); // low byte of the return address 0x0103
    assert_eq!(mem[0x23FF], 0x01);
    assert_eq!(cycles, 17);
    // RET
    execute(&mut cpu, &mut alu, &mut mem, 0xC9, 0, 0);
    assert_eq!(cpu.pc, 0x0103);
    assert_eq!(cpu.sp, 0x2400);
}

#[test]
fn conditional_jump_taken_and_untaken() {
    let (mut cpu, mut alu, mut mem) = fresh();
    cpu.pc = 0x0100;
    cpu.cc.z = 0;
    execute(&mut cpu, &mut alu, &mut mem, 0xC2, 0x00, 0x20); // JNZ 0x2000, taken
    assert_eq!(cpu.pc, 0x2000);
    cpu.cc.z = 1;
    execute(&mut cpu, &mut alu, &mut mem, 0xC2, 0x00, 0x30); // untaken
    assert_eq!(cpu.pc, 0x2003);
}

#[test]
fn hlt_reports_zero_cycles() {
    let (mut cpu, mut alu, mut mem) = fresh();
    cpu.pc = 0x0100;
    let cycles = execute(&mut cpu, &mut alu, &mut mem, 0x76, 0, 0);
    assert_eq!(cycles, 0);
    assert_eq!(cpu.pc, 0x0101);
}

#[test]
fn daa_adjusts_both_nibbles() {
    let (mut cpu, mut alu, mut mem) = fresh();
    // 0x9B is not a valid BCD byte; DAA turns it into 0x01 with carry.
    cpu.a = 0x9B;
    execute(&mut cpu, &mut alu, &mut mem, 0x27, 0, 0);
    assert_eq!(cpu.a, 0x01);
    assert_eq!(cpu.cc.cy, 1);
    // The second adjustment's low nibbles are 1 and 0, so AC ends cleared.
    assert_eq!(cpu.cc.ac, 0);
}

#[test]
fn dad_adds_pair_into_hl_touching_only_carry() {
    let (mut cpu, mut alu, mut mem) = fresh();
    cpu.set_hl(0xF000);
    cpu.set_bc(0x2000);
    cpu.cc.z = 1;
    execute(&mut cpu, &mut alu, &mut mem, 0x09, 0, 0); // DAD B
    assert_eq!(cpu.get_hl(), 0x1000);
    assert_eq!(cpu.cc.cy, 1);
    assert_eq!(cpu.cc.z, 1);
}

#[test]
fn xchg_swaps_de_with_hl() {
    let (mut cpu, mut alu, mut mem) = fresh();
    cpu.set_de(0x1122);
    cpu.set_hl(0x3344);
    execute(&mut cpu, &mut alu, &mut mem, 0xEB, 0, 0);
    assert_eq!(cpu.get_de(), 0x3344);
    assert_eq!(cpu.get_hl(), 0x1122);
}

#[test]
fn xthl_swaps_hl_with_stack_top() {
    let (mut cpu, mut alu, mut mem) = fresh();
    cpu.sp = 0x2400;
    cpu.set_hl(0xAABB);
    mem[0x2400] = 0x11;
    mem[0x2401] = 0x22;
    execute(&mut cpu, &mut alu, &mut mem, 0xE3, 0, 0);
    assert_eq!(cpu.get_hl(), 0x2211);
    assert_eq!(mem[0x2400], 0xBB);
    assert_eq!(mem[0x2401], 0xAA);
}

#[test]
fn cmp_discards_result_and_sets_flags() {
    let (mut cpu, mut alu, mut mem) = fresh();
    cpu.a = 0x05;
    cpu.b = 0x06;
    execute(&mut cpu, &mut alu, &mut mem, 0xB8, 0, 0); // CMP B
    assert_eq!(cpu.a, 0x05);
    assert_eq!(cpu.cc.cy, 1); // borrow: A < B
    assert_eq!(cpu.cc.z, 0);
    assert_eq!(cpu.cc.ac, 0); // the low nibble 0x5 - 0x6 borrows too
}

#[test]
fn logic_ops_clear_carries() {
    let (mut cpu, mut alu, mut mem) = fresh();
    cpu.a = 0b1100_1100;
    cpu.b = 0b1010_1010;
    cpu.cc.cy = 1;
    execute(&mut cpu, &mut alu, &mut mem, 0xA0, 0, 0); // ANA B
    assert_eq!(cpu.a, 0b1000_1000);
    assert_eq!(cpu.cc.cy, 0);
    assert_eq!(cpu.cc.ac, 0);
}

#[test]
fn cma_complements_without_flags() {
    let (mut cpu, mut alu, mut mem) = fresh();
    cpu.a = 0b0101_0011;
    execute(&mut cpu, &mut alu, &mut mem, 0x2F, 0, 0);
    assert_eq!(cpu.a, 0b1010_1100);
    assert_eq!(cpu.cc.cy, 0);
}

#[test]
fn stc_sets_and_cmc_complements_carry() {
    let (mut cpu, mut alu, mut mem) = fresh();
    execute(&mut cpu, &mut alu, &mut mem, 0x37, 0, 0); // STC
    assert_eq!(cpu.cc.cy, 1);
    execute(&mut cpu, &mut alu, &mut mem, 0x3F, 0, 0); // CMC
    assert_eq!(cpu.cc.cy, 0);
    execute(&mut cpu, &mut alu, &mut mem, 0x3F, 0, 0); // CMC again
    assert_eq!(cpu.cc.cy, 1);
}

#[test]
fn inr_and_dcr_leave_carry_untouched() {
    let (mut cpu, mut alu, mut mem) = fresh();
    cpu.b = 0xFF;
    cpu.cc.cy = 1;
    execute(&mut cpu, &mut alu, &mut mem, 0x04, 0, 0); // INR B
    assert_eq!(cpu.b, 0x00);
    assert_eq!(cpu.cc.z, 1);
    assert_eq!(cpu.cc.cy, 1);
    execute(&mut cpu, &mut alu, &mut mem, 0x05, 0, 0); // DCR B
    assert_eq!(cpu.b, 0xFF);
    assert_eq!(cpu.cc.cy, 1);
    assert_eq!(cpu.cc.ac, 0); // decrementing 0x00 half-borrows

    cpu.b = 0x15;
    execute(&mut cpu, &mut alu, &mut mem, 0x05, 0, 0); // DCR B, no half-borrow
    assert_eq!(cpu.b, 0x14);
    assert_eq!(cpu.cc.ac, 1);
}

#[test]
fn shld_and_lhld_move_hl_through_memory() {
    let (mut cpu, mut alu, mut mem) = fresh();
    cpu.set_hl(0xBEEF);
    execute(&mut cpu, &mut alu, &mut mem, 0x22, 0x00, 0x30); // SHLD 0x3000
    assert_eq!(mem[0x3000], 0xEF);
    assert_eq!(mem[0x3001], 0xBE);
    cpu.set_hl(0);
    execute(&mut cpu, &mut alu, &mut mem, 0x2A, 0x00, 0x30); // LHLD 0x3000
    assert_eq!(cpu.get_hl(), 0xBEEF);
}

#[test]
fn undocumented_aliases_behave_as_jmp_ret_call() {
    let (mut cpu, mut alu, mut mem) = fresh();
    cpu.pc = 0x0100;
    cpu.sp = 0x2400;
    execute(&mut cpu, &mut alu, &mut mem, 0xDD, 0x00, 0x05); // CALL alias
    assert_eq!(cpu.pc, 0x0500);
    assert_eq!(cpu.sp, 0x23FE);
    execute(&mut cpu, &mut alu, &mut mem, 0xD9, 0, 0); // RET alias
    assert_eq!(cpu.pc, 0x0103);
    execute(&mut cpu, &mut alu, &mut mem, 0xCB, 0x34, 0x12); // JMP alias
    assert_eq!(cpu.pc, 0x1234);
}

#[test]
fn rst_calls_fixed_vector() {
    let (mut cpu, mut alu, mut mem) = fresh();
    cpu.pc = 0x0100;
    cpu.sp = 0x2400;
    execute(&mut cpu, &mut alu, &mut mem, 0xD7, 0, 0); // RST 2
    assert_eq!(cpu.pc, 0x0010);
    assert_eq!(mem[0x23FE], 0x01); // low byte of pushed 0x0101
    assert_eq!(mem[0x23FF], 0x01);
}

#[test]
fn generate_interrupt_is_an_rst_entry() {
    let (mut cpu, mut mem) = (CPU::new(), vec![0u8; 0x10000]);
    cpu.pc = 0x1234;
    cpu.sp = 0x2400;
    cpu.int_enable = 1;
    generate_interrupt(&mut cpu, &mut mem, 2);
    assert_eq!(cpu.pc, 0x0010);
    assert_eq!(cpu.int_enable, 0);
    assert_eq!(cpu.sp, 0x23FE);
    assert_eq!(mem[0x23FE], 0x34);
    assert_eq!(mem[0x23FF], 0x12);
}

#[test]
fn cycle_table_matches_canonical_timing() {
    assert_eq!(cycle_count(0x00), 4);
    assert_eq!(cycle_count(0x01), 10);
    assert_eq!(cycle_count(0x22), 16);
    assert_eq!(cycle_count(0x32), 13);
    assert_eq!(cycle_count(0x46), 7);
    assert_eq!(cycle_count(0x80), 4);
    assert_eq!(cycle_count(0xC4), 17);
    assert_eq!(cycle_count(0xD9), 10);
    assert_eq!(cycle_count(0xDC), 10);
    assert_eq!(cycle_count(0xE3), 18);
    assert_eq!(cycle_count(0xFE), 7);
}

#[test]
fn stack_wraps_at_the_bottom_of_the_address_space() {
    let (mut cpu, mut alu, mut mem) = fresh();
    cpu.sp = 0x0001;
    cpu.set_bc(0xA1B2);
    execute(&mut cpu, &mut alu, &mut mem, 0xC5, 0, 0); // PUSH B
    assert_eq!(cpu.sp, 0xFFFF);
    assert_eq!(mem[0x0000], 0xA1); // high byte at SP-1
    assert_eq!(mem[0xFFFF], 0xB2); // low byte at SP-2, wrapped
    execute(&mut cpu, &mut alu, &mut mem, 0xD1, 0, 0); // POP D
    assert_eq!(cpu.get_de(), 0xA1B2);
    assert_eq!(cpu.sp, 0x0001);
}

#[test]
fn pc_and_operand_fetch_wrap_at_the_top_of_memory() {
    let mut m = emu8080::machine::Machine::new(false);
    // An MVI A sitting at 0xFFFF takes its immediate from address 0.
    m.mem[0xFFFF] = 0x3E;
    m.mem[0x0000] = 0x77;
    m.cpu.pc = 0xFFFF;
    m.emulate_op();
    assert_eq!(m.cpu.a, 0x77);
    assert_eq!(m.cpu.pc, 0x0001);
}

#[test]
fn adc_and_sbb_thread_the_carry() {
    let (mut cpu, mut alu, mut mem) = fresh();
    cpu.a = 0x10;
    cpu.b = 0x20;
    cpu.cc.cy = 1;
    execute(&mut cpu, &mut alu, &mut mem, 0x88, 0, 0); // ADC B
    assert_eq!(cpu.a, 0x31);
    assert_eq!(cpu.cc.cy, 0);

    cpu.a = 0x10;
    cpu.b = 0x08;
    cpu.cc.cy = 1;
    execute(&mut cpu, &mut alu, &mut mem, 0x98, 0, 0); // SBB B
    assert_eq!(cpu.a, 0x07);
    assert_eq!(cpu.cc.cy, 0);
    assert_eq!(cpu.cc.ac, 0); // the low nibble 0x0 - 0x8 - 1 borrows
}

#[test]
fn immediate_logic_ops_match_their_masks() {
    // ANI, XRI and ORI all clear both CY and AC.
    let (mut cpu, mut alu, mut mem) = fresh();
    cpu.a = 0b1111_0000;
    cpu.cc.cy = 1;
    cpu.cc.ac = 1;
    execute(&mut cpu, &mut alu, &mut mem, 0xE6, 0b1010_1010, 0); // ANI
    assert_eq!(cpu.a, 0b1010_0000);
    assert_eq!((cpu.cc.cy, cpu.cc.ac), (0, 0));
    cpu.cc.cy = 1;
    cpu.cc.ac = 1;
    execute(&mut cpu, &mut alu, &mut mem, 0xEE, 0b0000_1111, 0); // XRI
    assert_eq!(cpu.a, 0b1010_1111);
    assert_eq!((cpu.cc.cy, cpu.cc.ac), (0, 0));
    cpu.cc.cy = 1;
    cpu.cc.ac = 1;
    execute(&mut cpu, &mut alu, &mut mem, 0xF6, 0b0101_0000, 0); // ORI
    assert_eq!(cpu.a, 0b1111_1111);
    assert_eq!((cpu.cc.cy, cpu.cc.ac), (0, 0));
}

#[test]
fn cpi_compares_against_the_immediate() {
    let (mut cpu, mut alu, mut mem) = fresh();
    cpu.a = 0x4A;
    execute(&mut cpu, &mut alu, &mut mem, 0xFE, 0x4A, 0); // CPI, equal
    assert_eq!(cpu.a, 0x4A);
    assert_eq!(cpu.cc.z, 1);
    assert_eq!(cpu.cc.cy, 0);
    execute(&mut cpu, &mut alu, &mut mem, 0xFE, 0x4B, 0); // CPI, greater
    assert_eq!(cpu.cc.z, 0);
    assert_eq!(cpu.cc.cy, 1);
}

#[test]
fn inx_and_dcx_wrap_without_flags() {
    let (mut cpu, mut alu, mut mem) = fresh();
    cpu.set_bc(0xFFFF);
    execute(&mut cpu, &mut alu, &mut mem, 0x03, 0, 0); // INX B
    assert_eq!(cpu.get_bc(), 0x0000);
    assert_eq!(cpu.cc.z, 0); // no flag is touched
    execute(&mut cpu, &mut alu, &mut mem, 0x0B, 0, 0); // DCX B
    assert_eq!(cpu.get_bc(), 0xFFFF);
}

#[test]
fn stax_and_ldax_use_the_pair_as_address() {
    let (mut cpu, mut alu, mut mem) = fresh();
    cpu.a = 0x7E;
    cpu.set_de(0x3456);
    execute(&mut cpu, &mut alu, &mut mem, 0x12, 0, 0); // STAX D
    assert_eq!(mem[0x3456], 0x7E);
    cpu.a = 0;
    execute(&mut cpu, &mut alu, &mut mem, 0x1A, 0, 0); // LDAX D
    assert_eq!(cpu.a, 0x7E);
}

#[test]
fn sta_and_lda_use_the_absolute_address() {
    let (mut cpu, mut alu, mut mem) = fresh();
    cpu.a = 0x99;
    execute(&mut cpu, &mut alu, &mut mem, 0x32, 0x21, 0x43); // STA 0x4321
    assert_eq!(mem[0x4321], 0x99);
    cpu.a = 0;
    execute(&mut cpu, &mut alu, &mut mem, 0x3A, 0x21, 0x43); // LDA 0x4321
    assert_eq!(cpu.a, 0x99);
}

#[test]
fn pchl_and_sphl_load_from_hl() {
    let (mut cpu, mut alu, mut mem) = fresh();
    cpu.set_hl(0x1234);
    execute(&mut cpu, &mut alu, &mut mem, 0xE9, 0, 0); // PCHL
    assert_eq!(cpu.pc, 0x1234);
    execute(&mut cpu, &mut alu, &mut mem, 0xF9, 0, 0); // SPHL
    assert_eq!(cpu.sp, 0x1234);
}

#[test]
fn sign_conditions_follow_the_sign_flag() {
    let (mut cpu, mut alu, mut mem) = fresh();
    cpu.pc = 0x0100;
    cpu.cc.s = 1;
    execute(&mut cpu, &mut alu, &mut mem, 0xFA, 0x00, 0x40); // JM, taken
    assert_eq!(cpu.pc, 0x4000);
    execute(&mut cpu, &mut alu, &mut mem, 0xF2, 0x00, 0x50); // JP, untaken
    assert_eq!(cpu.pc, 0x4003);
}

#[test]
fn conditional_call_and_ret_follow_the_zero_flag() {
    let (mut cpu, mut alu, mut mem) = fresh();
    cpu.pc = 0x0100;
    cpu.sp = 0x2400;
    cpu.cc.z = 1;
    execute(&mut cpu, &mut alu, &mut mem, 0xCC, 0x00, 0x08); // CZ, taken
    assert_eq!(cpu.pc, 0x0800);
    assert_eq!(cpu.sp, 0x23FE);
    execute(&mut cpu, &mut alu, &mut mem, 0xC0, 0, 0); // RNZ, untaken
    assert_eq!(cpu.pc, 0x0801);
    assert_eq!(cpu.sp, 0x23FE);
    cpu.cc.z = 0;
    execute(&mut cpu, &mut alu, &mut mem, 0xC0, 0, 0); // RNZ, taken
    assert_eq!(cpu.pc, 0x0103);
    assert_eq!(cpu.sp, 0x2400);
}

#[test]
fn executor_out_and_in_only_skip_their_operand() {
    // Without the machine's device interception, OUT and IN advance PC past
    // the port operand and charge the table cost; no state changes.
    let (mut cpu, mut alu, mut mem) = fresh();
    cpu.pc = 0x0100;
    cpu.a = 0x42;
    let c = execute(&mut cpu, &mut alu, &mut mem, 0xD3, 0x02, 0);
    assert_eq!(cpu.pc, 0x0102);
    assert_eq!(cpu.a, 0x42);
    assert_eq!(c, 10);
}

#[test]
fn memory_ops_through_hl() {
    let (mut cpu, mut alu, mut mem) = fresh();
    cpu.set_hl(0x2500);
    mem[0x2500] = 0x0F;
    execute(&mut cpu, &mut alu, &mut mem, 0x34, 0, 0); // INR M
    assert_eq!(mem[0x2500], 0x10);
    assert_eq!(cpu.cc.ac, 1);
    execute(&mut cpu, &mut alu, &mut mem, 0x7E, 0, 0); // MOV A,M
    assert_eq!(cpu.a, 0x10);
    execute(&mut cpu, &mut alu, &mut mem, 0x36, 0x77, 0); // MVI M,0x77
    assert_eq!(mem[0x2500], 0x77);
}
