use emu8080::iocontroller::sound_starts;
use emu8080::iocontroller::stop_looped;
use emu8080::iocontroller::AudioTrigger;
use emu8080::iocontroller::IOController;
use emu8080::iocontroller::Key;
use emu8080::machine::Machine;
use emu8080::machine::INTERRUPT_CYCLES;

#[test]
fn machine_powers_on_clean() {
    let m = Machine::new(false);
    assert_eq!(m.cpu.pc, 0);
    assert_eq!(m.cpu.a, 0);
    assert_eq!(m.mem.len(), 0x10000);
    assert!(m.mem.iter().all(|&b| b == 0));
    assert_eq!(m.io.input, 4); // bit 2 starts set
    assert_eq!(m.int_type, 1);
    assert!(!m.halt);
    assert_eq!(m.cycles_to_int, INTERRUPT_CYCLES);
}

#[test]
fn reboot_fix_installs_hlt_at_zero() {
    let m = Machine::new(true);
    assert_eq!(m.mem[0], 0x76);
    assert!(m.mem[1..].iter().all(|&b| b == 0));
}

#[test]
fn load_rom_copies_bytes_and_points_pc() {
    let mut m = Machine::new(false);
    m.load_rom(&[0xAA, 0xBB, 0xCC], 0x0100);
    assert_eq!(&m.mem[0x0100..0x0103], &[0xAA, 0xBB, 0xCC]);
    assert_eq!(m.mem[0x00FF], 0);
    assert_eq!(m.mem[0x0103], 0);
    assert_eq!(m.cpu.pc, 0x0100);
}

#[test]
fn framebuffer_views_the_video_region() {
    let mut m = Machine::new(false);
    m.mem[0x2400] = 0xAB;
    m.mem[0x3FFF] = 0xCD;
    let fb = m.framebuffer();
    assert_eq!(fb.len(), 7168);
    assert_eq!(fb[0], 0xAB);
    assert_eq!(fb[7167], 0xCD);
}

#[test]
fn shift_register_window_moves_with_offset() {
    let mut io = IOController::new();
    io.write(4, 0xAB); // shift1 = 0xAB
    io.write(4, 0xCD); // shift0 = 0xAB, shift1 = 0xCD
    // offset 0: the high byte of 0xCDAB
    io.write(2, 0);
    assert_eq!(io.read(3), 0xCD);
    // offset 3: bits shifted three to the left come into view
    io.write(2, 3);
    assert_eq!(io.read(3), ((0xCDABu16 >> 5) & 0xFF) as u8);
    // the offset keeps only its low three bits
    io.write(2, 0x0B);
    assert_eq!(io.shift_offset, 3);
}

#[test]
fn fixed_ports_read_constants() {
    let io = IOController::new();
    assert_eq!(io.read(0), 0x0F);
    assert_eq!(io.read(1), 4);
    assert_eq!(io.read(2), 0);
    assert_eq!(io.read(7), 0);
}

#[test]
fn audio_ports_forward_triggers() {
    let mut io = IOController::new();
    assert_eq!(io.write(3, 0x05), Some(AudioTrigger { port: 3, value: 0x05 }));
    assert_eq!(io.write(5, 0x12), Some(AudioTrigger { port: 5, value: 0x12 }));
    assert_eq!(io.write(2, 0x01), None);
    assert_eq!(io.write(4, 0x01), None);
}

#[test]
fn key_events_drive_their_bits() {
    let mut io = IOController::new();
    io.set_key(Key::C, 1);
    assert_eq!(io.input, 4 | 1);
    io.set_key(Key::Left, 1);
    assert_eq!(io.input, 4 | 1 | 0x20);
    io.set_key(Key::C, 0);
    assert_eq!(io.input, 4 | 0x20);
    io.set_key(Key::Return, 0); // releasing start clears bit 2
    assert_eq!(io.input, 0x20);
    io.set_key(Key::X, 1);
    assert_eq!(io.input, 0x20 | 0x40);
    io.set_key(Key::Other, 1); // unmapped keys share bit 7
    assert_eq!(io.input, 0x20 | 0x40 | 0x80);
}

#[test]
fn machine_key_entry_points_update_the_latch() {
    let mut m = Machine::new(false);
    m.key_pressed(Key::Space);
    assert_eq!(m.io.input, 4 | 0x10);
    m.key_released(Key::Space);
    assert_eq!(m.io.input, 4);
}

#[test]
fn sound_requests_decode_the_bitmask() {
    assert_eq!(sound_starts(3, 0b0000_0101), vec![0, 2]);
    assert_eq!(sound_starts(3, 0), Vec::<u8>::new());
    // port 3 looks only at bits 0..3
    assert_eq!(sound_starts(3, 0b1111_0000), Vec::<u8>::new());
    assert_eq!(sound_starts(5, 0b0001_0011), vec![4, 5, 8]);
    assert!(stop_looped(3, 0b0000_0110));
    assert!(!stop_looped(3, 0b0000_0001));
    assert!(!stop_looped(5, 0));
}

#[test]
fn out_and_in_are_intercepted_at_table_cost() {
    let mut m = Machine::new(false);
    // MVI A,0x21; OUT 4; IN 3
    m.load_rom(&[0x3E, 0x21, 0xD3, 0x04, 0xDB, 0x03], 0);
    let (c1, t1) = m.emulate_op();
    assert_eq!((c1, t1), (7, None));
    let (c2, t2) = m.emulate_op();
    assert_eq!(c2, 10); // the canonical table's charge for OUT
    assert_eq!(t2, None);
    assert_eq!(m.io.shift1, 0x21);
    assert_eq!(m.cpu.pc, 4);
    let (c3, _) = m.emulate_op();
    assert_eq!(c3, 10); // and for IN
    assert_eq!(m.cpu.a, 0x21); // offset 0 reads the high latch
    assert_eq!(m.cpu.pc, 6);
}

#[test]
fn out_to_audio_port_reaches_the_caller() {
    let mut m = Machine::new(false);
    // MVI A,0x03; OUT 3
    m.load_rom(&[0x3E, 0x03, 0xD3, 0x03], 0);
    m.emulate_op();
    let (_, trigger) = m.emulate_op();
    assert_eq!(trigger, Some(AudioTrigger { port: 3, value: 0x03 }));
}

#[test]
fn interrupt_request_is_dropped_while_disabled() {
    let mut m = Machine::new(false);
    m.cpu.pc = 0x1234;
    m.cpu.sp = 0x2400;
    m.interrupt();
    assert_eq!(m.cpu.pc, 0x1234);
    assert_eq!(m.cpu.sp, 0x2400);
    assert_eq!(m.int_type, 1);
}

#[test]
fn interrupt_request_enters_rst_while_enabled() {
    let mut m = Machine::new(false);
    m.cpu.pc = 0x1234;
    m.cpu.sp = 0x2400;
    m.cpu.int_enable = 1;
    m.interrupt();
    assert_eq!(m.cpu.pc, 0x0008); // RST 1
    assert_eq!(m.cpu.int_enable, 0);
    assert_eq!(m.mem[0x23FE], 0x34);
    assert_eq!(m.mem[0x23FF], 0x12);
    assert_eq!(m.int_type, 2);
}

#[test]
fn run_executes_until_the_budget_is_spent() {
    let mut m = Machine::new(false);
    // INR A repeated; each costs 5 cycles.
    m.load_rom(&[0x3C; 16], 0);
    // 20 cycles of budget: 10_000 ns at 500 ns per cycle -> 4 instructions.
    let audio = m.run(10_000);
    assert_eq!(m.cpu.a, 4);
    assert_eq!(m.steps, 4);
    assert!(audio.is_empty());
    assert!(!m.halt);
}

#[test]
fn run_halts_on_hlt_and_stays_halted() {
    let mut m = Machine::new(false);
    m.load_rom(&[0x3C, 0x76, 0x3C], 0);
    m.run(1_000_000);
    assert!(m.halt);
    assert_eq!(m.cpu.a, 1);
    assert_eq!(m.cpu.pc, 2); // stopped just past the HLT
    let before = m.steps;
    m.run(1_000_000); // a halted machine no longer steps
    assert_eq!(m.steps, before);
}

#[test]
fn run_collects_audio_triggers_in_order() {
    let mut m = Machine::new(false);
    // MVI A,1; OUT 3; MVI A,2; OUT 5; HLT
    m.load_rom(&[0x3E, 0x01, 0xD3, 0x03, 0x3E, 0x02, 0xD3, 0x05, 0x76], 0);
    let audio = m.run(1_000_000);
    assert_eq!(
        audio,
        vec![
            AudioTrigger { port: 3, value: 1 },
            AudioTrigger { port: 5, value: 2 },
        ]
    );
}

#[test]
fn pacing_injects_half_frame_interrupts_alternating() {
    let mut m = Machine::new(false);
    // EI at 0; the first half-frame interrupt then vectors to 8.
    m.mem[0] = 0xFB;
    // The handler at 8 re-enables interrupts for the next half-frame.
    m.mem[8] = 0xFB;
    m.cpu.sp = 0x2400;
    m.cycles_to_int = 4; // the next instruction boundary is due
    m.run(2_000); // budget of 4 cycles: EI runs, then the interrupt fires
    assert_eq!(m.cpu.pc, 0x0008); // the pacing loop inserted CALL 0x08
    assert_eq!(m.mem[0x23FE], 0x01); // return address 0x0001 pushed
    assert_eq!(m.mem[0x23FF], 0x00);
    assert_eq!(m.int_type, 2); // next interrupt uses half-frame 2
    assert_eq!(m.cycles_to_int, INTERRUPT_CYCLES);

    m.cycles_to_int = 4;
    m.run(2_000); // EI at 8 runs, then the half-frame 2 interrupt fires
    assert_eq!(m.cpu.pc, 0x0010); // RST 2
    assert_eq!(m.int_type, 1); // and the number alternates back to 1
}
