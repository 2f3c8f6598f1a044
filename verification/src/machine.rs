//! The whole machine: CPU, ALU, 64 KiB of memory and the I/O devices, plus
//! the real-time pacing state. The host measures elapsed wall-clock time and
//! calls `run` with it; `run` converts the time to a cycle budget at 2 MHz
//! and executes instructions until the budget is spent or the CPU halts,
//! injecting one of the two alternating half-frame video interrupts each
//! time the interrupt counter runs out. Interrupts are injected only between
//! whole instructions, never inside one.

use vstd::prelude::*;
use crate::alu::ALU;
use crate::alu::wrap16;
use crate::cpu::CPU;
use crate::cpu::ConditionCodes;
use crate::cpu::cpu_wf;
use crate::iocontroller::AudioTrigger;
use crate::iocontroller::IOController;
use crate::iocontroller::Key;
use crate::iocontroller::io_wf;
use crate::iocontroller::spec_audio_out;
use crate::iocontroller::spec_io_read;
use crate::iocontroller::spec_io_write;
use crate::iocontroller::spec_set_key;
use crate::operation::cycle_count;
use crate::operation::execute;
use crate::operation::generate_interrupt;
use crate::operation::mem_read;
use crate::operation::spec_cycles;
use crate::operation::spec_execute;
use crate::operation::spec_generate_interrupt;
use crate::operation::wadd16;

verus! {

/// Cycles between the two half-frame interrupts: 2 MHz / 60 Hz / 2.
pub const INTERRUPT_CYCLES: i64 = 16_666;

/// Nanoseconds per CPU cycle at 2 MHz.
pub const NANOS_PER_CYCLE: u64 = 500;

/// The mathematical value of a machine: its CPU, ALU, memory as a sequence,
/// I/O devices, and the pacing loop's own state.
pub struct MachineModel {
    pub cpu: CPU,
    pub alu: ALU,
    pub mem: Seq<u8>,
    pub io: IOController,
    pub int_type: u8,
    pub halt: bool,
    pub steps: u64,
    pub cycles_to_int: i64,
}

/// One whole instruction's effect at machine level.
pub struct MStep {
    pub m: MachineModel,
    pub cycles: u8,
    pub audio: Option<AudioTrigger>,
}

/// A run's effect: the final machine and the audio triggers it emitted,
/// in order.
pub struct RunOut {
    pub m: MachineModel,
    pub audio: Seq<AudioTrigger>,
}

/// The machine's structural invariant: full 64 KiB of memory, flags that
/// hold 0 or 1, and a 3-bit shift offset.
pub open spec fn machine_inv(m: MachineModel) -> bool {
    &&& m.mem.len() == 0x10000
    &&& cpu_wf(m.cpu)
    &&& io_wf(m.io)
}

/// A well-formed machine at rest: the structural invariant, and an
/// interrupt counter in the band the pacing loop keeps it in between
/// instructions (it is topped back up whenever it runs out).
pub open spec fn machine_wf(m: MachineModel) -> bool {
    &&& machine_inv(m)
    &&& 0 < m.cycles_to_int <= INTERRUPT_CYCLES
}

/// The power-on machine: everything zero, the input latch's bit 2 set, the
/// half-frame number starting at 1, a full interrupt budget; with the
/// reboot fix, a HLT opcode pre-installed at address 0.
pub open spec fn spec_machine_new(fix_reboot: bool) -> MachineModel {
    let zeros = Seq::new(0x10000, |i: int| 0u8);
    MachineModel {
        cpu: CPU {
            a: 0,
            b: 0,
            c: 0,
            d: 0,
            e: 0,
            h: 0,
            l: 0,
            sp: 0,
            pc: 0,
            cc: ConditionCodes { z: 0, s: 0, p: 0, cy: 0, ac: 0 },
            int_enable: 0,
        },
        alu: ALU { cy: false, ac: false },
        mem: if fix_reboot {
            zeros.update(0, 0x76)
        } else {
            zeros
        },
        io: IOController { input: 4, shift0: 0, shift1: 0, shift_offset: 0 },
        int_type: 1,
        halt: false,
        steps: 0,
        cycles_to_int: INTERRUPT_CYCLES,
    }
}

/// One whole instruction at machine level: the opcode and its two following
/// bytes are fetched at PC (wrapping); OUT and IN are intercepted and routed
/// to the I/O devices, charged the cycle table's cost for them (10); every
/// other opcode goes to the instruction interpreter. Only an OUT can emit an
/// audio trigger.
pub open spec fn spec_machine_step(m: MachineModel) -> MStep {
    let op = m.mem[m.cpu.pc as int];
    let a1 = m.mem[wrap16(m.cpu.pc + 1) as int];
    let a2 = m.mem[wrap16(m.cpu.pc + 2) as int];
    if op == 0xD3 {
        MStep {
            m: MachineModel {
                cpu: CPU { pc: wrap16(m.cpu.pc + 2), ..m.cpu },
                io: spec_io_write(m.io, a1, m.cpu.a),
                ..m
            },
            cycles: spec_cycles(op),
            audio: spec_audio_out(a1, m.cpu.a),
        }
    } else if op == 0xDB {
        MStep {
            m: MachineModel {
                cpu: CPU { a: spec_io_read(m.io, a1), pc: wrap16(m.cpu.pc + 2), ..m.cpu },
                ..m
            },
            cycles: spec_cycles(op),
            audio: None,
        }
    } else {
        let o = spec_execute(m.cpu, m.alu, m.mem, op, a1, a2);
        MStep {
            m: MachineModel { cpu: o.cpu, alu: o.alu, mem: o.mem, ..m },
            cycles: o.cycles,
            audio: None,
        }
    }
}

/// An interrupt request with the current half-frame number: honoured as an
/// RST entry only while the interrupt-enable latch is set, in which case the
/// half-frame number alternates between 1 and 2; dropped silently otherwise.
pub open spec fn spec_interrupt(m: MachineModel) -> MachineModel {
    if m.cpu.int_enable == 1 {
        let t = spec_generate_interrupt(m.cpu, m.mem, m.int_type);
        MachineModel { cpu: t.0, mem: t.1, int_type: !m.int_type & 3, ..m }
    } else {
        m
    }
}

/// The step counter after one instruction; it wraps rather than stopping.
pub open spec fn steps_after(s: u64) -> u64 {
    if s == 0xFFFF_FFFF_FFFF_FFFFu64 {
        0
    } else {
        (s + 1) as u64
    }
}

/// One pass of the pacing loop's body: a whole instruction, the bookkeeping
/// of the step counter and the interrupt counter, the halt latch when the
/// instruction reported 0 cycles, and - only here, at the instruction
/// boundary - an interrupt request when the counter has run out, followed by
/// topping the counter back up by one half-frame's worth of cycles.
pub open spec fn spec_advance(m: MachineModel) -> (MachineModel, u8, Option<AudioTrigger>) {
    let st = spec_machine_step(m);
    let m1 = MachineModel {
        steps: steps_after(st.m.steps),
        halt: if st.cycles == 0 {
            true
        } else {
            st.m.halt
        },
        cycles_to_int: (st.m.cycles_to_int - st.cycles) as i64,
        ..st.m
    };
    let m2 = if m1.cycles_to_int <= 0 {
        let mi = spec_interrupt(m1);
        MachineModel { cycles_to_int: (mi.cycles_to_int + INTERRUPT_CYCLES) as i64, ..mi }
    } else {
        m1
    };
    (m2, st.cycles, st.audio)
}

/// The audio triggers of one step as a sequence: none or one.
pub open spec fn audio_seq(a: Option<AudioTrigger>) -> Seq<AudioTrigger> {
    match a {
        Some(t) => seq![t],
        None => Seq::empty(),
    }
}

/// A run on a cycle budget: instructions execute in program order, each one
/// whole, until the budget is spent or the CPU halts; a step that reports 0
/// cycles (HLT) latches the halt and ends the run. Each recursion is exactly
/// one `spec_advance`, so interrupts are injected only at instruction
/// boundaries: no run ever splits an instruction.
pub open spec fn spec_run(m: MachineModel, budget: int) -> RunOut
    decreases (if budget > 0 { budget } else { 0 }),
{
    if m.halt || budget <= 0 {
        RunOut { m, audio: Seq::empty() }
    } else {
        let t = spec_advance(m);
        if t.1 == 0 {
            RunOut { m: t.0, audio: audio_seq(t.2) }
        } else {
            let rest = spec_run(t.0, budget - t.1);
            RunOut { m: rest.m, audio: audio_seq(t.2) + rest.audio }
        }
    }
}

/// Memory after a ROM image is copied in at `offset`.
pub open spec fn spec_load_mem(mem: Seq<u8>, rom: Seq<u8>, offset: int) -> Seq<u8> {
    mem.subrange(0, offset) + rom + mem.subrange(offset + rom.len(), 0x10000)
}

/// CPU, ALU, memory and devices, plus the pacing loop's state: the terminal
/// halt latch, the step counter, and the signed count of cycles left until
/// the next half-frame interrupt.
pub struct Machine {
    pub cpu: CPU,
    pub alu: ALU,
    pub mem: Vec<u8>,
    pub io: IOController,
    pub int_type: u8,
    pub halt: bool,
    pub steps: u64,
    pub cycles_to_int: i64,
}

impl Machine {
    /// The machine's mathematical value.
    pub open spec fn model(&self) -> MachineModel {
        MachineModel {
            cpu: self.cpu,
            alu: self.alu,
            mem: self.mem@,
            io: self.io,
            int_type: self.int_type,
            halt: self.halt,
            steps: self.steps,
            cycles_to_int: self.cycles_to_int,
        }
    }

    pub open spec fn wf(&self) -> bool {
        machine_wf(self.model())
    }

    /// A fresh machine. With `fix_reboot`, a HLT opcode is pre-installed at
    /// address 0 so that a diagnostic ROM loaded above zero halts instead of
    /// rebooting when control falls to the reset vector.
    pub fn new(fix_reboot: bool) -> (m: Machine)
        ensures
            m.model() == spec_machine_new(fix_reboot),
            m.wf(),
    {
        let mut mem: Vec<u8> = Vec::new();
        while mem.len() < 0x10000
            invariant
                mem@ =~= Seq::new(mem@.len(), |i: int| 0u8),
                mem@.len() <= 0x10000,
            decreases 0x10000 - mem@.len(),
        {
            mem.push(0);
        }
        proof {
            assert(mem@ =~= Seq::new(0x10000, |i: int| 0u8));
        }
        if fix_reboot {
            mem[0] = 0x76;
        }
        let m = Machine {
            cpu: CPU::new(),
            alu: ALU::new(),
            mem,
            io: IOController::new(),
            int_type: 1,
            halt: false,
            steps: 0,
            cycles_to_int: INTERRUPT_CYCLES,
        };
        m
    }

    /// Copy a ROM image into memory at `offset` and point PC at it.
    pub fn load_rom(&mut self, rom: &[u8], offset: usize)
        requires
            old(self).wf(),
            offset < 0x10000,
            offset + rom@.len() <= 0x10000,
        ensures
            final(self).model() == (MachineModel {
                mem: spec_load_mem(old(self).model().mem, rom@, offset as int),
                cpu: CPU { pc: offset as u16, ..old(self).cpu },
                ..old(self).model()
            }),
            final(self).wf(),
    {
        let mut i: usize = 0;
        while i < rom.len()
            invariant
                old(self).wf(),
                i <= rom@.len(),
                offset + rom@.len() <= 0x10000,
                self.mem@.len() == 0x10000,
                forall|j: int|
                    0 <= j < 0x10000 ==> self.mem@[j] == (if offset <= j < offset + i {
                        rom@[j - offset]
                    } else {
                        old(self).mem@[j]
                    }),
                self.cpu == old(self).cpu,
                self.alu == old(self).alu,
                self.io == old(self).io,
                self.int_type == old(self).int_type,
                self.halt == old(self).halt,
                self.steps == old(self).steps,
                self.cycles_to_int == old(self).cycles_to_int,
            decreases rom@.len() - i,
        {
            let b = rom[i];
            self.mem[offset + i] = b;
            i = i + 1;
        }
        proof {
            assert(self.mem@ =~= spec_load_mem(old(self).mem@, rom@, offset as int));
        }
        self.cpu.pc = offset as u16;
    }

    /// The video region: the 7,168 bytes at addresses 0x2400..0x4000, a
    /// read-only view valid until the machine next runs.
    pub fn framebuffer(&self) -> (r: &[u8])
        requires
            self.wf(),
        ensures
            r@ == self.mem@.subrange(0x2400, 0x4000),
    {
        vstd::slice::slice_subrange(self.mem.as_slice(), 0x2400, 0x4000)
    }

    /// Execute one whole instruction, routing OUT and IN to the devices.
    /// Returns the instruction's cycle cost (0 means HLT) and the audio
    /// trigger if the instruction was an OUT to an audio port.
    pub fn emulate_op(&mut self) -> (r: (u8, Option<AudioTrigger>))
        requires
            old(self).wf(),
        ensures
            final(self).model() == spec_machine_step(old(self).model()).m,
            r.0 == spec_machine_step(old(self).model()).cycles,
            r.1 == spec_machine_step(old(self).model()).audio,
            final(self).wf(),
    {
        let pc = self.cpu.pc;
        let opcode = mem_read(&self.mem, pc);
        let arg1 = mem_read(&self.mem, wadd16(pc, 1));
        let arg2 = mem_read(&self.mem, wadd16(pc, 2));
        if opcode == 0xD3 {
            let t = self.io.write(arg1, self.cpu.a);
            self.cpu.pc = wadd16(pc, 2);
            (cycle_count(opcode), t)
        } else if opcode == 0xDB {
            self.cpu.a = self.io.read(arg1);
            self.cpu.pc = wadd16(pc, 2);
            (cycle_count(opcode), None)
        } else {
            let cycles = execute(&mut self.cpu, &mut self.alu, &mut self.mem, opcode, arg1, arg2);
            (cycles, None)
        }
    }

    /// Request an interrupt with the current half-frame number. While
    /// interrupts are disabled this changes nothing; while they are enabled
    /// it performs the RST entry and alternates the half-frame number.
    pub fn interrupt(&mut self)
        requires
            machine_inv(old(self).model()),
        ensures
            final(self).model() == spec_interrupt(old(self).model()),
            machine_inv(final(self).model()),
    {
        if self.cpu.int_enable == 1 {
            generate_interrupt(&mut self.cpu, &mut self.mem, self.int_type);
            self.int_type = !self.int_type & 3;
        }
    }

    /// One pacing tick: convert the elapsed wall-clock time to a cycle
    /// budget at 2 MHz and run whole instructions until it is spent or the
    /// CPU halts, injecting a half-frame interrupt at each instruction
    /// boundary where the interrupt counter has run out. Returns the audio
    /// triggers the instructions emitted, in order.
    pub fn run(&mut self, nanos_elapsed: u64) -> (audio: Vec<AudioTrigger>)
        requires
            old(self).wf(),
        ensures
            ({
                let out = spec_run(old(self).model(), nanos_elapsed as int / NANOS_PER_CYCLE as int);
                final(self).model() == out.m && audio@ == out.audio
            }),
            final(self).wf(),
    {
        let mut audio: Vec<AudioTrigger> = Vec::new();
        let mut cycles_needed: i64 = (nanos_elapsed / NANOS_PER_CYCLE) as i64;
        let ghost m0 = self.model();
        let ghost b0 = cycles_needed as int;
        while !self.halt && cycles_needed > 0
            invariant
                self.wf(),
                spec_run(m0, b0).m == spec_run(self.model(), cycles_needed as int).m,
                spec_run(m0, b0).audio == audio@ + spec_run(self.model(), cycles_needed as int).audio,
            decreases (if cycles_needed > 0 { cycles_needed as int } else { 0 })
                + (if self.halt { 0int } else { 1int }),
        {
            let ghost m_in = self.model();
            let ghost b_in = cycles_needed as int;
            let ghost audio_in = audio@;
            let step = self.emulate_op();
            let cycles = step.0;
            self.steps = self.steps.wrapping_add(1);
            if cycles == 0 {
                self.halt = true;
            }
            cycles_needed = cycles_needed - cycles as i64;
            self.cycles_to_int = self.cycles_to_int - cycles as i64;
            if self.cycles_to_int <= 0 {
                self.interrupt();
                self.cycles_to_int = self.cycles_to_int + INTERRUPT_CYCLES;
            }
            if let Some(t) = step.1 {
                audio.push(t);
            }
            proof {
                let t = spec_advance(m_in);
                assert(self.model() == t.0);
                assert(cycles == t.1 && step.1 == t.2);
                assert(audio@ =~= audio_in + audio_seq(t.2));
                if t.1 == 0 {
                    // the step halted: both the loop and the spec stop here
                    assert(spec_run(m_in, b_in).m == t.0);
                    assert(spec_run(m_in, b_in).audio == audio_seq(t.2));
                    assert(spec_run(t.0, cycles_needed as int).m == t.0);
                    assert(audio@ + spec_run(t.0, cycles_needed as int).audio =~= audio@);
                } else {
                    let rest = spec_run(t.0, b_in - t.1);
                    assert(spec_run(m_in, b_in).m == rest.m);
                    assert(spec_run(m_in, b_in).audio == audio_seq(t.2) + rest.audio);
                    assert(audio_in + (audio_seq(t.2) + rest.audio) =~= audio@ + rest.audio);
                }
            }
        }
        proof {
            assert(audio@ + spec_run(self.model(), cycles_needed as int).audio =~= audio@);
        }
        audio
    }

    /// A key press: sets the key's bit in the input latch.
    pub fn key_pressed(&mut self, key: Key)
        requires
            old(self).wf(),
        ensures
            final(self).model() == (MachineModel {
                io: spec_set_key(old(self).io, key, 1),
                ..old(self).model()
            }),
            final(self).wf(),
    {
        self.io.set_key(key, 1);
    }

    /// A key release: clears the key's bit in the input latch.
    pub fn key_released(&mut self, key: Key)
        requires
            old(self).wf(),
        ensures
            final(self).model() == (MachineModel {
                io: spec_set_key(old(self).io, key, 0),
                ..old(self).model()
            }),
            final(self).wf(),
    {
        self.io.set_key(key, 0);
    }
}

} // verus!
