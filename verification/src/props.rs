//! The laws the emulator obeys, stated and proved over the specification
//! interpreter: how PC moves, that the packed status word round-trips, that
//! PUSH/POP and CALL/RET undo one another, how the interrupt-enable latch
//! gates interrupt entry, and that a run is a chain of whole instructions
//! with interrupts only at their boundaries.

use vstd::prelude::*;
use vstd::arithmetic::div_mod::lemma_add_mod_noop_right;
use vstd::arithmetic::div_mod::lemma_small_mod;
use vstd::arithmetic::div_mod::lemma_mod_add_multiples_vanish;
use vstd::arithmetic::div_mod::lemma_mod_sub_multiples_vanish;
use crate::alu::ALU;
use crate::alu::wrap16;
use crate::cpu::CPU;
use crate::cpu::ConditionCodes;
use crate::cpu::cc_wf;
use crate::cpu::cpu_wf;
use crate::cpu::hi8;
use crate::cpu::lo8;
use crate::cpu::pair16;
use crate::cpu::spec_get_psw;
use crate::cpu::spec_set_psw;
use crate::machine::MachineModel;
use crate::machine::machine_inv;
use crate::machine::spec_advance;
use crate::machine::spec_interrupt;
use crate::machine::spec_machine_step;
use crate::machine::spec_run;
use crate::operation::read16;
use crate::operation::spec_execute;
use crate::operation::spec_generate_interrupt;
use crate::operation::spec_op_alu8;
use crate::operation::spec_op_ctrl;
use crate::operation::spec_op_misc;
use crate::operation::spec_op_misc_hi;
use crate::operation::spec_op_misc_lo;
use crate::operation::spec_op_misc_top;
use crate::operation::spec_op_mov;

verus! {

/// Composing wraps: reducing an address modulo 2^16 before adding keeps the
/// same final wrapped value.
pub proof fn lemma_wrap16_add(a: int, b: int)
    ensures
        wrap16(wrap16(a) + b) == wrap16(a + b),
{
    lemma_add_mod_noop_right(b, a, 0x10000);
}

/// The wrapped value of an address at most one wrap away from the 16-bit
/// range, written out by window.
pub proof fn lemma_wrap16_val(x: int)
    requires
        -0x10000 <= x < 0x20000,
    ensures
        wrap16(x) == (if x < 0 {
            x + 0x10000
        } else if x < 0x10000 {
            x
        } else {
            x - 0x10000
        }),
{
    if x < 0 {
        lemma_mod_add_multiples_vanish(x, 0x10000);
        lemma_small_mod((x + 0x10000) as nat, 0x10000);
    } else if x < 0x10000 {
        lemma_small_mod(x as nat, 0x10000);
    } else {
        lemma_mod_sub_multiples_vanish(x, 0x10000);
        lemma_small_mod((x - 0x10000) as nat, 0x10000);
    }
}

/// How many bytes an instruction occupies: its opcode plus zero, one or two
/// immediate bytes.
pub open spec fn opcode_len(op: u8) -> int {
    match op {
        // LXI, SHLD, LHLD, STA, LDA.
        0x01 | 0x11 | 0x21 | 0x31 | 0x22 | 0x2A | 0x32 | 0x3A => 3,
        // JMP and CALL in all conditions, with the undocumented aliases.
        0xC2 | 0xC3 | 0xCA | 0xCB | 0xD2 | 0xDA | 0xE2 | 0xEA | 0xF2 | 0xFA => 3,
        0xC4 | 0xCC | 0xCD | 0xD4 | 0xDC | 0xDD | 0xE4 | 0xEC | 0xED | 0xF4 | 0xFC | 0xFD => 3,
        // MVI, the immediate arithmetic/logic forms, OUT and IN.
        0x06 | 0x0E | 0x16 | 0x1E | 0x26 | 0x2E | 0x36 | 0x3E => 2,
        0xC6 | 0xCE | 0xD6 | 0xDE | 0xE6 | 0xEE | 0xF6 | 0xFE => 2,
        0xD3 | 0xDB => 2,
        _ => 1,
    }
}

/// Whether this step transfers control, so that PC is overwritten rather
/// than advanced past the instruction: JMP/CALL/RET (and their undocumented
/// aliases) when unconditional or when their condition holds, every RST,
/// and PCHL.
pub open spec fn control_taken(cpu: CPU, op: u8) -> bool {
    ||| op == 0xC3 || op == 0xCB || op == 0xC9 || op == 0xD9 || op == 0xCD || op == 0xDD
        || op == 0xED || op == 0xFD
    ||| op == 0xC7 || op == 0xCF || op == 0xD7 || op == 0xDF || op == 0xE7 || op == 0xEF
        || op == 0xF7 || op == 0xFF
    ||| op == 0xE9
    ||| (op == 0xC0 || op == 0xC2 || op == 0xC4) && cpu.cc.z == 0
    ||| (op == 0xC8 || op == 0xCA || op == 0xCC) && cpu.cc.z == 1
    ||| (op == 0xD0 || op == 0xD2 || op == 0xD4) && cpu.cc.cy == 0
    ||| (op == 0xD8 || op == 0xDA || op == 0xDC) && cpu.cc.cy == 1
    ||| (op == 0xE0 || op == 0xE2 || op == 0xE4) && cpu.cc.p == 0
    ||| (op == 0xE8 || op == 0xEA || op == 0xEC) && cpu.cc.p == 1
    ||| (op == 0xF0 || op == 0xF2 || op == 0xF4) && cpu.cc.s == 0
    ||| (op == 0xF8 || op == 0xFC) && cpu.cc.s == 1
    ||| op == 0xFA && cpu.cc.s != 0
}

/// For every opcode and every machine state, one step advances PC by
/// exactly the opcode's byte length (modulo 2^16), unless the opcode is a
/// control transfer that is taken, which overwrites PC instead. A
/// conditional branch whose condition fails falls under the first case, as
/// does HLT (one byte).
#[verifier::rlimit(100)]
#[verifier::spinoff_prover]
pub proof fn lemma_pc_advance(cpu: CPU, alu: ALU, mem: Seq<u8>, op: u8, a1: u8, a2: u8)
    requires
        cpu_wf(cpu),
    ensures
        !control_taken(cpu, op) ==> spec_execute(cpu, alu, mem, op, a1, a2).cpu.pc == wrap16(
            cpu.pc + opcode_len(op),
        ),
{
    lemma_wrap16_add(cpu.pc + 1, 0);
    lemma_wrap16_add(cpu.pc + 1, 1);
    lemma_wrap16_add(cpu.pc + 1, 2);
    if op < 0x20 {
        reveal(spec_op_misc);
        reveal(spec_op_misc_lo);
    } else if op < 0x31 {
        reveal(spec_op_misc);
        reveal(spec_op_misc_hi);
    } else if op < 0x40 {
        reveal(spec_op_misc);
        reveal(spec_op_misc_top);
    } else if op < 0x80 {
        reveal(spec_op_mov);
    } else if op < 0xC0 {
        reveal(spec_op_alu8);
    } else {
        reveal(spec_op_ctrl);
    }
}

/// Packing the five condition flags into a PSW byte and unpacking it again
/// restores the flags exactly, for flags that hold 0 or 1.
pub proof fn lemma_psw_unpack_pack(cc: ConditionCodes)
    requires
        cc_wf(cc),
    ensures
        spec_set_psw(spec_get_psw(cc)) == cc,
{
    let z = cc.z;
    let s = cc.s;
    let p = cc.p;
    let cy = cc.cy;
    let ac = cc.ac;
    assert(({
        let w = ((cy + 2 + p * 4 + ac * 16 + z * 64 + s * 128) % 256) as u8;
        w % 2 == cy && w / 4 % 2 == p && w / 16 % 2 == ac && w / 64 % 2 == z && w / 128 == s
    })) by (bit_vector)
        requires
            z <= 1 && s <= 1 && p <= 1 && cy <= 1 && ac <= 1,
    ;
}

/// Wrapping an address already in the 16-bit range leaves it unchanged.
pub proof fn lemma_wrap16_id(x: u16)
    ensures
        wrap16(x as int) == x,
{
    lemma_small_mod(x as nat, 0x10000);
}

/// A 16-bit value is its high byte joined with its low byte.
pub proof fn lemma_pair_split(v: u16)
    ensures
        pair16(hi8(v), lo8(v)) == v,
{
    vstd::arithmetic::div_mod::lemma_fundamental_div_mod(v as int, 256);
}

/// Unpacking a PSW byte into the five flags and packing them again gives
/// back the byte with its reserved bits forced: bit 1 reads as 1, bits 3
/// and 5 read as 0.
pub proof fn lemma_psw_pack_unpack(p: u8)
    ensures
        spec_get_psw(spec_set_psw(p)) == (p | 0x02) & 0xD7,
{
    assert(({
        let cy = p % 2;
        let pa = p / 4 % 2;
        let ac = p / 16 % 2;
        let z = p / 64 % 2;
        let s = p / 128;
        ((cy + 2 + pa * 4 + ac * 16 + z * 64 + s * 128) % 256) as u8 == (p | 0x02) & 0xD7
    })) by (bit_vector);
}

/// PUSH B followed by POP B restores the BC pair and the stack pointer.
/// Only the two stack bytes below the original SP differ afterwards.
#[verifier::spinoff_prover]
pub proof fn lemma_push_pop(cpu: CPU, alu: ALU, mem: Seq<u8>, a1: u8, a2: u8, b1: u8, b2: u8)
    requires
        cpu_wf(cpu),
        mem.len() == 0x10000,
    ensures
        ({
            let s1 = spec_execute(cpu, alu, mem, 0xC5, a1, a2);
            let s2 = spec_execute(s1.cpu, s1.alu, s1.mem, 0xC1, b1, b2);
            s2.cpu.b == cpu.b && s2.cpu.c == cpu.c && s2.cpu.sp == cpu.sp
        }),
{
    reveal(spec_op_ctrl);
    lemma_stack_roundtrip(cpu.sp as int);
}

/// PUSH D followed by POP D restores the DE pair and the stack pointer.
#[verifier::spinoff_prover]
pub proof fn lemma_push_pop_de(cpu: CPU, alu: ALU, mem: Seq<u8>, a1: u8, a2: u8, b1: u8, b2: u8)
    requires
        cpu_wf(cpu),
        mem.len() == 0x10000,
    ensures
        ({
            let s1 = spec_execute(cpu, alu, mem, 0xD5, a1, a2);
            let s2 = spec_execute(s1.cpu, s1.alu, s1.mem, 0xD1, b1, b2);
            s2.cpu.d == cpu.d && s2.cpu.e == cpu.e && s2.cpu.sp == cpu.sp
        }),
{
    reveal(spec_op_ctrl);
    lemma_stack_roundtrip(cpu.sp as int);
}

/// PUSH H followed by POP H restores the HL pair and the stack pointer.
#[verifier::spinoff_prover]
pub proof fn lemma_push_pop_hl(cpu: CPU, alu: ALU, mem: Seq<u8>, a1: u8, a2: u8, b1: u8, b2: u8)
    requires
        cpu_wf(cpu),
        mem.len() == 0x10000,
    ensures
        ({
            let s1 = spec_execute(cpu, alu, mem, 0xE5, a1, a2);
            let s2 = spec_execute(s1.cpu, s1.alu, s1.mem, 0xE1, b1, b2);
            s2.cpu.h == cpu.h && s2.cpu.l == cpu.l && s2.cpu.sp == cpu.sp
        }),
{
    reveal(spec_op_ctrl);
    lemma_stack_roundtrip(cpu.sp as int);
}

/// PUSH PSW followed by POP PSW restores the accumulator, all five flags,
/// and the stack pointer.
#[verifier::spinoff_prover]
pub proof fn lemma_push_pop_psw(cpu: CPU, alu: ALU, mem: Seq<u8>, a1: u8, a2: u8, b1: u8, b2: u8)
    requires
        cpu_wf(cpu),
        mem.len() == 0x10000,
    ensures
        ({
            let s1 = spec_execute(cpu, alu, mem, 0xF5, a1, a2);
            let s2 = spec_execute(s1.cpu, s1.alu, s1.mem, 0xF1, b1, b2);
            s2.cpu.a == cpu.a && s2.cpu.cc == cpu.cc && s2.cpu.sp == cpu.sp
        }),
{
    reveal(spec_op_ctrl);
    lemma_stack_roundtrip(cpu.sp as int);
    lemma_psw_unpack_pack(cpu.cc);
}

/// The stack address facts every push-then-pop proof needs: the two slots
/// below SP are distinct, adding 1 to the wrapped SP-2 lands on SP-1, and
/// adding 2 lands back on SP.
proof fn lemma_stack_roundtrip(sp: int)
    requires
        0 <= sp < 0x10000,
    ensures
        wrap16(sp - 1) != wrap16(sp - 2),
        wrap16(wrap16(sp - 2) + 1) == wrap16(sp - 1),
        wrap16(wrap16(sp - 2) + 2) == sp,
{
    lemma_wrap16_val(sp - 1);
    lemma_wrap16_val(sp - 2);
    lemma_wrap16_add(sp - 2, 1);
    lemma_wrap16_add(sp - 2, 2);
    lemma_wrap16_val(sp);
}

/// CALL followed by RET brings PC to the instruction after the CALL - the
/// CALL's own address plus its three bytes - and brings SP back to its
/// value before the CALL.
#[verifier::spinoff_prover]
pub proof fn lemma_call_ret(cpu: CPU, alu: ALU, mem: Seq<u8>, lo: u8, hi: u8, b1: u8, b2: u8)
    requires
        cpu_wf(cpu),
        mem.len() == 0x10000,
    ensures
        ({
            let s1 = spec_execute(cpu, alu, mem, 0xCD, lo, hi);
            let s2 = spec_execute(s1.cpu, s1.alu, s1.mem, 0xC9, b1, b2);
            s2.cpu.pc == wrap16(cpu.pc + 3) && s2.cpu.sp == cpu.sp
        }),
{
    let ret = wrap16(cpu.pc + 3);
    let s1 = spec_execute(cpu, alu, mem, 0xCD, lo, hi);
    let s2 = spec_execute(s1.cpu, s1.alu, s1.mem, 0xC9, b1, b2);
    assert(s1.cpu.sp == wrap16(cpu.sp - 2) && s1.mem == mem.update(
        wrap16(cpu.sp - 1) as int,
        hi8(ret),
    ).update(wrap16(cpu.sp - 2) as int, lo8(ret))) by {
        reveal(spec_op_ctrl);
        lemma_wrap16_add(cpu.pc + 1, 2);
    }
    assert(s2.cpu.sp == wrap16(wrap16(cpu.sp - 2) + 2) && s2.cpu.pc == read16(
        s1.mem,
        wrap16(cpu.sp - 2),
    )) by {
        reveal(spec_op_ctrl);
        lemma_wrap16_id(read16(s1.mem, wrap16(cpu.sp - 2)));
    }
    assert(read16(s1.mem, wrap16(cpu.sp - 2)) == pair16(hi8(ret), lo8(ret))) by {
        lemma_stack_roundtrip(cpu.sp as int);
    }
    assert(pair16(hi8(ret), lo8(ret)) == ret) by {
        lemma_pair_split(ret);
    }
    assert(s2.cpu.sp == cpu.sp) by {
        lemma_stack_roundtrip(cpu.sp as int);
    }
}

/// While the interrupt-enable latch is clear, an interrupt request changes
/// nothing: the request is dropped silently.
pub proof fn lemma_interrupt_disabled(m: MachineModel)
    requires
        m.cpu.int_enable != 1,
    ensures
        spec_interrupt(m) == m,
{
}

/// Immediately after DI, an interrupt request leaves the machine unchanged.
pub proof fn lemma_di_blocks_interrupt(m: MachineModel)
    requires
        m.mem[m.cpu.pc as int] == 0xF3,
    ensures
        ({
            let s = spec_machine_step(m).m;
            spec_interrupt(s) == s
        }),
{
    reveal(spec_op_ctrl);
}

/// Immediately after EI, an interrupt request is honoured: the machine
/// performs the RST entry for the current half-frame number - the paused PC
/// is pushed on the stack, PC jumps to eight times the interrupt number,
/// the interrupt-enable latch is cleared again - and the half-frame number
/// alternates.
pub proof fn lemma_ei_admits_interrupt(m: MachineModel)
    requires
        machine_inv(m),
        m.mem[m.cpu.pc as int] == 0xFB,
    ensures
        ({
            let s = spec_machine_step(m).m;
            let i = spec_interrupt(s);
            i.cpu.pc == 8 * m.int_type && i.cpu.int_enable == 0 && i.cpu.sp == wrap16(
                s.cpu.sp - 2,
            ) && read16(i.mem, i.cpu.sp) == s.cpu.pc && i.int_type == (!m.int_type & 3)
        }),
{
    reveal(spec_op_ctrl);
    let s = spec_machine_step(m).m;
    lemma_stack_roundtrip(s.cpu.sp as int);
    let ret = s.cpu.pc;
    assert(pair16(((ret as int / 256) as u8), ((ret as int % 256) as u8)) == ret);
}

/// A machine after n whole instructions of the pacing loop, bookkeeping and
/// boundary interrupts included.
pub open spec fn iter_advance(m: MachineModel, n: nat) -> MachineModel
    decreases n,
{
    if n == 0 {
        m
    } else {
        iter_advance(spec_advance(m).0, (n - 1) as nat)
    }
}

/// Every run is some number of whole-instruction advances: the machine a
/// run produces is reached by executing complete instructions one after
/// another, with interrupt injection only at their boundaries. No run ever
/// leaves off, or interrupts, in the middle of an instruction.
pub proof fn lemma_run_instruction_boundaries(m: MachineModel, budget: int)
    ensures
        exists|n: nat| spec_run(m, budget).m == iter_advance(m, n),
    decreases (if budget > 0 { budget } else { 0 }),
{
    if m.halt || budget <= 0 {
        assert(spec_run(m, budget).m == iter_advance(m, 0));
    } else {
        let t = spec_advance(m);
        if t.1 == 0 {
            assert(iter_advance(m, 1) == iter_advance(t.0, 0));
            assert(spec_run(m, budget).m == iter_advance(m, 1));
        } else {
            lemma_run_instruction_boundaries(t.0, budget - t.1);
            let n = choose|n: nat| spec_run(t.0, budget - t.1).m == iter_advance(t.0, n);
            assert(iter_advance(m, n + 1) == iter_advance(t.0, n));
            assert(spec_run(m, budget).m == iter_advance(m, n + 1));
        }
    }
}

} // verus!
