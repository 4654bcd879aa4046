use chipper::{decode, Chip8, Fault, Instr, LoadError, NO_KEY};

fn boot(rom: &[u8]) -> Chip8 {
    let mut m = Chip8::new();
    assert_eq!(m.boot_rom(rom), Ok(()));
    m
}

fn run(m: &mut Chip8, steps: usize) {
    for _ in 0..steps {
        assert_eq!(m.step_with(0), Ok(()));
    }
}

#[test]
fn new_machine_holds_glyphs() {
    let m = Chip8::new();
    assert_eq!(m.memory_at(0), 0xF0);
    assert_eq!(m.memory_at(5), 0x20);
    assert_eq!(m.memory_at(79), 0x80);
    assert_eq!(m.memory_at(80), 0);
    assert_eq!(m.program_counter(), 0x200);
    assert_eq!(m.key_pressed(), NO_KEY);
    assert!(m.get_display_data().iter().all(|&p| p == 0));
    assert_eq!(m.get_display_data().len(), 64 * 32);
}

#[test]
fn decode_fields() {
    assert_eq!(decode(0x00E0), Instr::Cls);
    assert_eq!(decode(0x00EE), Instr::Ret);
    assert_eq!(decode(0x1ABC), Instr::Jp { addr: 0xABC });
    assert_eq!(decode(0xD123), Instr::Drw { x: 1, y: 2, n: 3 });
    assert_eq!(decode(0x8AB4), Instr::AddReg { x: 0xA, y: 0xB });
    assert_eq!(decode(0xF365), Instr::LoadRegs { x: 3 });
    assert_eq!(decode(0x5121), Instr::Unknown { opcode: 0x5121 });
    assert_eq!(decode(0xE3FF), Instr::Unknown { opcode: 0xE3FF });
}

#[test]
fn load_byte_then_read() {
    for r in 0..16u8 {
        for k in [0u8, 1, 0x42, 0xFF] {
            let mut m = boot(&[0x60 | r, k]);
            run(&mut m, 1);
            assert_eq!(m.register(r as usize), k);
        }
    }
}

#[test]
fn add_byte_wraps_without_flag() {
    let mut m = boot(&[0x6F, 0x07, 0x60, 0xFF, 0x70, 0x01]);
    run(&mut m, 3);
    assert_eq!(m.register(0), 0);
    assert_eq!(m.register(15), 7);
}

#[test]
fn add_with_carry_flag() {
    let mut m = boot(&[0x60, 0xFF, 0x61, 0x02, 0x80, 0x14]);
    run(&mut m, 3);
    assert_eq!(m.register(0), 1);
    assert_eq!(m.register(15), 1);
    let mut m = boot(&[0x60, 0x80, 0x61, 0x7F, 0x80, 0x14]);
    run(&mut m, 3);
    assert_eq!(m.register(0), 0xFF);
    assert_eq!(m.register(15), 0);
}

#[test]
fn sub_with_borrow_flag() {
    let mut m = boot(&[0x60, 0x05, 0x61, 0x03, 0x80, 0x15]);
    run(&mut m, 3);
    assert_eq!(m.register(0), 2);
    assert_eq!(m.register(15), 1);
    let mut m = boot(&[0x60, 0x03, 0x61, 0x05, 0x80, 0x15]);
    run(&mut m, 3);
    assert_eq!(m.register(0), 0xFE);
    assert_eq!(m.register(15), 0);
    let mut m = boot(&[0x60, 0x04, 0x61, 0x04, 0x80, 0x15]);
    run(&mut m, 3);
    assert_eq!(m.register(0), 0);
    assert_eq!(m.register(15), 1);
    let mut m = boot(&[0x60, 0x03, 0x61, 0x05, 0x80, 0x17]);
    run(&mut m, 3);
    assert_eq!(m.register(0), 2);
    assert_eq!(m.register(15), 1);
}

#[test]
fn shift_right_quirk() {
    let mut m = boot(&[0x60, 0x03, 0x80, 0x06]);
    run(&mut m, 2);
    assert_eq!(m.register(0), 1);
    assert_eq!(m.register(15), 1);
    let mut m = boot(&[0x60, 0x03, 0x61, 0x06, 0x80, 0x16]);
    m.shift_using_vy = true;
    run(&mut m, 3);
    assert_eq!(m.register(0), 3);
    assert_eq!(m.register(1), 6);
    assert_eq!(m.register(15), 0);
}

#[test]
fn shift_left_flag() {
    let mut m = boot(&[0x60, 0x81, 0x80, 0x0E]);
    run(&mut m, 2);
    assert_eq!(m.register(0), 0x02);
    assert_eq!(m.register(15), 1);
}

#[test]
fn store_bcd_of_255() {
    let mut m = boot(&[0x60, 0xFF, 0xA3, 0x00, 0xF0, 0x33]);
    run(&mut m, 3);
    assert_eq!(m.memory_at(0x300), 2);
    assert_eq!(m.memory_at(0x301), 5);
    assert_eq!(m.memory_at(0x302), 5);
}

#[test]
fn draw_twice_collides() {
    // V0 = 3, V1 = 2, I = 0x20C holding one lit bit, then draw it twice.
    let mut m = boot(&[
        0x60, 0x03, 0x61, 0x02, 0xA2, 0x0C, 0xD0, 0x11, 0xD0, 0x11, 0x00, 0x00, 0x80,
    ]);
    run(&mut m, 4);
    let p = 2 * 64 + 3;
    assert_eq!(m.get_display_data()[p], 1);
    assert_eq!(m.register(15), 0);
    assert_eq!(m.get_display_data().iter().filter(|&&b| b == 1).count(), 1);
    run(&mut m, 1);
    assert_eq!(m.get_display_data()[p], 0);
    assert_eq!(m.register(15), 1);
}

#[test]
fn draw_wraps_at_edges() {
    // A full row at x = 62, y = 33 wraps to columns 62, 63, 0..5 of row 1.
    let mut m = boot(&[0x60, 62, 0x61, 33, 0xA2, 0x0A, 0xD0, 0x11, 0x00, 0x00, 0xFF]);
    run(&mut m, 4);
    let d = m.get_display_data();
    for c in [62usize, 63, 0, 1, 2, 3, 4, 5] {
        assert_eq!(d[64 + c], 1);
    }
    assert_eq!(d.iter().filter(|&&b| b == 1).count(), 8);
}

#[test]
fn key_wait_blocks_until_key() {
    let mut m = boot(&[0xF5, 0x0A]);
    for _ in 0..5 {
        assert_eq!(m.step_with(0), Ok(()));
        assert_eq!(m.program_counter(), 0x200);
    }
    m.set_key_pressed(7);
    assert_eq!(m.step_with(0), Ok(()));
    assert_eq!(m.program_counter(), 0x202);
    assert_eq!(m.register(5), 7);
}

#[test]
fn skip_if_key() {
    let mut m = boot(&[0x60, 0x04, 0xE0, 0x9E]);
    m.set_key_pressed(4);
    run(&mut m, 2);
    assert_eq!(m.program_counter(), 0x206);
    let mut m = boot(&[0x60, 0x04, 0xE0, 0xA1]);
    m.set_key_pressed(4);
    run(&mut m, 2);
    assert_eq!(m.program_counter(), 0x204);
}

#[test]
fn timers_count_down_to_zero() {
    let mut m = boot(&[0x60, 30, 0xF0, 0x15, 0xF0, 0x18]);
    run(&mut m, 3);
    assert_eq!(m.delay_timer(), 30);
    assert_eq!(m.sound_timer(), 30);
    for _ in 0..60 {
        m.update_timers();
    }
    assert_eq!(m.delay_timer(), 0);
    assert_eq!(m.sound_timer(), 0);
}

#[test]
fn load_round_trip_and_reset() {
    let first = [
        0x60u8, 0x11, 0x61, 0x22, 0xF0, 0x15, 0xA0, 0x00, 0xD0, 0x15, 0x22, 0x0C, 0x60, 0x33,
    ];
    let mut m = boot(&first);
    m.set_key_pressed(3);
    run(&mut m, 6);
    assert_eq!(m.stack_pointer(), 1);
    let second = [0x12u8, 0x34, 0x56];
    assert_eq!(m.boot_rom(&second), Ok(()));
    for (k, b) in second.iter().enumerate() {
        assert_eq!(m.memory_at(0x200 + k), *b);
    }
    for r in 0..16 {
        assert_eq!(m.register(r), 0);
    }
    assert_eq!(m.stack_pointer(), 0);
    assert_eq!(m.index_register(), 0);
    assert_eq!(m.program_counter(), 0x200);
    assert_eq!(m.delay_timer(), 0);
    assert_eq!(m.sound_timer(), 0);
    assert_eq!(m.key_pressed(), NO_KEY);
    assert!(m.get_display_data().iter().all(|&p| p == 0));
}

#[test]
fn oversized_program_is_refused() {
    let mut m = boot(&[0x60, 0x01]);
    run(&mut m, 1);
    let big = vec![0xAAu8; 4096 - 0x200 + 1];
    assert_eq!(m.boot_rom(&big), Err(LoadError::TooLarge));
    assert_eq!(m.program_counter(), 0x202);
    assert_eq!(m.register(0), 1);
    let fits = vec![0xAAu8; 4096 - 0x200];
    assert_eq!(m.boot_rom(&fits), Ok(()));
    assert_eq!(m.memory_at(4095), 0xAA);
}

#[test]
fn unknown_instruction_is_reported() {
    let mut m = boot(&[0x51, 0x21, 0x60, 0x09]);
    assert_eq!(m.step_with(0), Err(Fault::UnknownInstruction(0x5121)));
    assert_eq!(m.program_counter(), 0x202);
    run(&mut m, 1);
    assert_eq!(m.register(0), 9);
}

#[test]
fn call_and_return() {
    let mut m = boot(&[0x22, 0x04, 0x00, 0x00, 0x00, 0xEE]);
    run(&mut m, 1);
    assert_eq!(m.program_counter(), 0x204);
    assert_eq!(m.stack_pointer(), 1);
    run(&mut m, 1);
    assert_eq!(m.program_counter(), 0x202);
    assert_eq!(m.stack_pointer(), 0);
}

#[test]
fn stack_overflow_and_underflow() {
    let mut m = boot(&[0x22, 0x00]);
    run(&mut m, 16);
    assert_eq!(m.stack_pointer(), 16);
    assert_eq!(m.step_with(0), Err(Fault::StackOverflow));
    assert_eq!(m.stack_pointer(), 16);
    assert_eq!(m.program_counter(), 0x202);
    let mut m = boot(&[0x00, 0xEE]);
    assert_eq!(m.step_with(0), Err(Fault::StackUnderflow));
    assert_eq!(m.program_counter(), 0x202);
}

#[test]
fn random_masks_byte() {
    let mut m = boot(&[0xC0, 0x0F]);
    assert_eq!(m.step_with(0xAB), Ok(()));
    assert_eq!(m.register(0), 0x0B);
    let mut m = boot(&[0xC0, 0x0F, 0xC1, 0x0F]);
    assert_eq!(m.step(), Ok(()));
    assert!(m.register(0) <= 0x0F);
}

#[test]
fn index_arithmetic() {
    let mut m = boot(&[0xAF, 0xFF, 0x60, 0x01, 0xF0, 0x1E]);
    run(&mut m, 3);
    assert_eq!(m.index_register(), 0);
    assert_eq!(m.register(15), 1);
    let mut m = boot(&[0x60, 0x07, 0xF0, 0x29]);
    run(&mut m, 2);
    assert_eq!(m.index_register(), 35);
    let mut m = boot(&[0x60, 0x04, 0xB3, 0x00]);
    run(&mut m, 2);
    assert_eq!(m.program_counter(), 0x304);
}

#[test]
fn skips_on_compare() {
    let mut m = boot(&[0x60, 0x05, 0x30, 0x05]);
    run(&mut m, 2);
    assert_eq!(m.program_counter(), 0x206);
    let mut m = boot(&[0x60, 0x05, 0x40, 0x05]);
    run(&mut m, 2);
    assert_eq!(m.program_counter(), 0x204);
    let mut m = boot(&[0x60, 0x05, 0x61, 0x05, 0x50, 0x10, 0x00, 0x00, 0x90, 0x10]);
    run(&mut m, 4);
    assert_eq!(m.program_counter(), 0x20A);
}

#[test]
fn register_block_transfer() {
    let mut m = boot(&[0x60, 0x01, 0x61, 0x02, 0x62, 0x03, 0xA3, 0x00, 0xF2, 0x55]);
    run(&mut m, 5);
    assert_eq!(m.memory_at(0x300), 1);
    assert_eq!(m.memory_at(0x301), 2);
    assert_eq!(m.memory_at(0x302), 3);
    assert_eq!(m.index_register(), 0x300);
    let mut m = boot(&[0xA0, 0x00, 0xF1, 0x65]);
    m.increment_i_on_ld = true;
    run(&mut m, 2);
    assert_eq!(m.register(0), 0xF0);
    assert_eq!(m.register(1), 0x90);
    assert_eq!(m.index_register(), 2);
}

#[test]
fn clear_display_blanks() {
    let mut m = boot(&[0xA0, 0x00, 0xD0, 0x05, 0x00, 0xE0]);
    run(&mut m, 2);
    assert!(m.get_display_data().iter().any(|&p| p == 1));
    run(&mut m, 1);
    assert!(m.get_display_data().iter().all(|&p| p == 0));
}
