use chip8::chip8::{Chip8, Fault, LoadError, Quirks, RunState, MAX_PROGRAM_LEN};
use chip8::display::{empty_grid, HEIGHT, WIDTH};
use chip8::instruction::{decode, Instruction};

fn machine_with(program: &[u8]) -> Chip8 {
    let mut m = Chip8::new();
    m.load(program).unwrap();
    m
}

fn run(m: &mut Chip8, steps: usize) {
    for _ in 0..steps {
        m.step_with(0);
    }
}

fn lit_pixels(m: &Chip8) -> usize {
    let mut count = 0;
    for y in 0..HEIGHT {
        for x in 0..WIDTH {
            if m.display().pixel(x, y) {
                count += 1;
            }
        }
    }
    count
}

#[test]
fn new_machine_starts_at_program_start_with_font() {
    let m = Chip8::new();
    assert_eq!(m.pc(), 0x200);
    assert_eq!(m.state(), RunState::Running);
    assert_eq!(m.memory_at(0), 0xf0);
    assert_eq!(m.memory_at(5), 0x20);
    assert_eq!(m.memory_at(79), 0x80);
    assert_eq!(m.memory_at(80), 0);
    assert_eq!(m.stack_pointer(), 0);
    assert_eq!(lit_pixels(&m), 0);
}

#[test]
fn add_sets_carry_for_every_pair() {
    let mut m = Chip8::new();
    for a in 0..=255u8 {
        for b in 0..=255u8 {
            m.load(&[0x61, a, 0x62, b, 0x81, 0x24, 0x12, 0x00]).unwrap();
            run(&mut m, 4);
            let sum = a as u16 + b as u16;
            assert_eq!(m.register(1), (sum % 256) as u8);
            assert_eq!(m.register(0xf), if sum > 255 { 1 } else { 0 });
            assert_eq!(m.pc(), 0x200);
        }
    }
}

#[test]
fn sub_sets_no_borrow_for_every_pair() {
    let mut m = Chip8::new();
    for a in 0..=255u8 {
        for b in 0..=255u8 {
            m.load(&[0x61, a, 0x62, b, 0x81, 0x25, 0x12, 0x00]).unwrap();
            run(&mut m, 4);
            assert_eq!(m.register(1), a.wrapping_sub(b));
            assert_eq!(m.register(0xf), if a > b { 1 } else { 0 });
        }
    }
}

#[test]
fn subn_sets_no_borrow_for_every_pair() {
    let mut m = Chip8::new();
    for a in 0..=255u8 {
        for b in 0..=255u8 {
            m.load(&[0x61, a, 0x62, b, 0x81, 0x27, 0x12, 0x00]).unwrap();
            run(&mut m, 4);
            assert_eq!(m.register(1), b.wrapping_sub(a));
            assert_eq!(m.register(0xf), if b > a { 1 } else { 0 });
        }
    }
}

#[test]
fn add_ff_and_one_wraps_with_carry() {
    let mut m = machine_with(&[0x61, 0xff, 0x62, 0x01, 0x81, 0x24]);
    run(&mut m, 3);
    assert_eq!(m.register(1), 0x00);
    assert_eq!(m.register(0xf), 1);
}

#[test]
fn add_byte_wraps_without_flag() {
    let mut m = machine_with(&[0x6f, 0x07, 0x60, 0xff, 0x70, 0x02]);
    run(&mut m, 3);
    assert_eq!(m.register(0), 0x01);
    assert_eq!(m.register(0xf), 0x07);
}

#[test]
fn logic_ops() {
    let mut m = machine_with(&[
        0x61, 0xcc, 0x62, 0xaa, 0x63, 0xcc, 0x64, 0xcc, 0x81, 0x21, 0x83, 0x22, 0x84, 0x23, 0x85,
        0x20,
    ]);
    run(&mut m, 8);
    assert_eq!(m.register(1), 0xee);
    assert_eq!(m.register(3), 0x88);
    assert_eq!(m.register(4), 0x66);
    assert_eq!(m.register(5), 0xaa);
}

#[test]
fn shifts_in_place_by_default() {
    let mut m = machine_with(&[0x61, 0x81, 0x62, 0x06, 0x81, 0x26]);
    run(&mut m, 3);
    assert_eq!(m.register(1), 0x40);
    assert_eq!(m.register(0xf), 1);
    let mut m = machine_with(&[0x61, 0x81, 0x81, 0x2e]);
    run(&mut m, 2);
    assert_eq!(m.register(1), 0x02);
    assert_eq!(m.register(0xf), 1);
    let mut m = machine_with(&[0x61, 0x41, 0x81, 0x2e]);
    run(&mut m, 2);
    assert_eq!(m.register(1), 0x82);
    assert_eq!(m.register(0xf), 0);
}

#[test]
fn shift_quirk_reads_vy() {
    let quirks = Quirks { shift_reads_vy: true, jump_adds_vx: false };
    let mut m = Chip8::with_quirks(quirks);
    m.load(&[0x61, 0x03, 0x62, 0x06, 0x81, 0x26]).unwrap();
    run(&mut m, 3);
    assert_eq!(m.register(1), 0x03);
    assert_eq!(m.register(0xf), 0);
    assert_eq!(m.quirks(), quirks);
}

#[test]
fn jump_offset_uses_v0_or_vx() {
    let mut m = machine_with(&[0x60, 0x04, 0x62, 0x10, 0xb2, 0x00]);
    run(&mut m, 3);
    assert_eq!(m.pc(), 0x204);
    let mut m = Chip8::with_quirks(Quirks { shift_reads_vy: false, jump_adds_vx: true });
    m.load(&[0x60, 0x04, 0x62, 0x10, 0xb2, 0x00]).unwrap();
    run(&mut m, 3);
    assert_eq!(m.pc(), 0x210);
}

#[test]
fn pc_advances_by_two_after_plain_instructions() {
    let mut m = machine_with(&[0x60, 0x01, 0xa1, 0x23, 0x80, 0x10, 0xf0, 0x15]);
    for k in 1..=4u16 {
        m.step_with(0);
        assert_eq!(m.pc(), 0x200 + 2 * k);
    }
}

#[test]
fn pc_advances_by_four_after_taken_skip_and_two_after_failed_skip() {
    let mut m = machine_with(&[0x30, 0x00]);
    m.step_with(0);
    assert_eq!(m.pc(), 0x204);
    let mut m = machine_with(&[0x30, 0x01]);
    m.step_with(0);
    assert_eq!(m.pc(), 0x202);
    let mut m = machine_with(&[0x40, 0x01]);
    m.step_with(0);
    assert_eq!(m.pc(), 0x204);
    let mut m = machine_with(&[0x61, 0x05, 0x51, 0x00]);
    run(&mut m, 2);
    assert_eq!(m.pc(), 0x204);
    let mut m = machine_with(&[0x61, 0x05, 0x91, 0x00]);
    run(&mut m, 2);
    assert_eq!(m.pc(), 0x206);
}

#[test]
fn key_skips_follow_keypad() {
    let mut m = machine_with(&[0x61, 0x07, 0xe1, 0x9e]);
    m.set_key(7, true);
    run(&mut m, 2);
    assert_eq!(m.pc(), 0x206);
    let mut m = machine_with(&[0x61, 0x07, 0xe1, 0xa1]);
    m.set_key(7, true);
    run(&mut m, 2);
    assert_eq!(m.pc(), 0x204);
    let mut m = machine_with(&[0x61, 0x40, 0xe1, 0xa1]);
    run(&mut m, 2);
    assert_eq!(m.pc(), 0x206);
}

#[test]
fn return_after_call_resumes_after_the_call() {
    let mut m = machine_with(&[0x22, 0x06, 0x00, 0x00, 0x00, 0x00, 0x00, 0xee]);
    m.step_with(0);
    assert_eq!(m.pc(), 0x206);
    assert_eq!(m.stack_pointer(), 1);
    m.step_with(0);
    assert_eq!(m.pc(), 0x202);
    assert_eq!(m.stack_pointer(), 0);
    assert_eq!(m.state(), RunState::Running);
}

#[test]
fn draw_twice_restores_screen_and_reports_collision() {
    let mut m = machine_with(&[0x60, 0x05, 0x61, 0x03, 0xa0, 0x00, 0xd0, 0x15, 0xd0, 0x15]);
    run(&mut m, 4);
    assert_eq!(m.register(0xf), 0);
    assert_eq!(lit_pixels(&m), 14);
    assert!(m.display().pixel(5, 3));
    assert!(!m.display().pixel(9, 3));
    m.step_with(0);
    assert_eq!(m.register(0xf), 1);
    assert_eq!(lit_pixels(&m), 0);
}

#[test]
fn draw_wraps_past_the_right_edge() {
    let mut m = machine_with(&[0x60, 0x3f, 0x61, 0x00, 0xa2, 0x08, 0xd0, 0x11, 0xff, 0x00]);
    run(&mut m, 4);
    assert!(m.display().pixel(63, 0));
    assert!(m.display().pixel(0, 0));
    assert!(m.display().pixel(6, 0));
    assert!(!m.display().pixel(7, 0));
    assert_eq!(lit_pixels(&m), 8);
}

#[test]
fn draw_wraps_past_the_bottom_edge() {
    let mut m = machine_with(&[0x60, 0x00, 0x61, 0x1f, 0xa2, 0x08, 0xd0, 0x12, 0x80, 0x80]);
    run(&mut m, 4);
    assert!(m.display().pixel(0, 31));
    assert!(m.display().pixel(0, 0));
    assert_eq!(lit_pixels(&m), 2);
}

#[test]
fn clear_screen_turns_every_pixel_off() {
    let mut m = machine_with(&[0xa0, 0x00, 0xd0, 0x05, 0x00, 0xe0]);
    run(&mut m, 2);
    assert!(lit_pixels(&m) > 0);
    m.step_with(0);
    assert_eq!(lit_pixels(&m), 0);
    assert_eq!(m.pc(), 0x206);
}

#[test]
fn framebuffer_draw_reports_collision_only_on_overlap() {
    let mut fb = empty_grid();
    assert!(!fb.draw_sprite(10, 10, &[0b1010_0000]));
    assert!(fb.pixel(10, 10));
    assert!(!fb.pixel(11, 10));
    assert!(fb.pixel(12, 10));
    assert!(!fb.draw_sprite(11, 10, &[0b1000_0000]));
    assert!(fb.draw_sprite(12, 10, &[0b1000_0000]));
    assert!(!fb.pixel(12, 10));
    fb.clear();
    assert!(!fb.pixel(10, 10));
}

#[test]
fn bcd_of_156() {
    let mut m = machine_with(&[0x60, 0x9c, 0xa3, 0x00, 0xf0, 0x33]);
    run(&mut m, 3);
    assert_eq!(m.memory_at(0x300), 1);
    assert_eq!(m.memory_at(0x301), 5);
    assert_eq!(m.memory_at(0x302), 6);
    assert_eq!(m.pc(), 0x206);
}

#[test]
fn delay_timer_counts_down_to_zero_and_stays() {
    let mut m = machine_with(&[0x60, 0x05, 0xf0, 0x15]);
    run(&mut m, 2);
    assert_eq!(m.delay_timer(), 5);
    for _ in 0..5 {
        m.tick();
    }
    assert_eq!(m.delay_timer(), 0);
    m.tick();
    assert_eq!(m.delay_timer(), 0);
}

#[test]
fn sound_timer_drives_sound() {
    let mut m = machine_with(&[0x60, 0x02, 0xf0, 0x18, 0xf1, 0x07]);
    assert!(!m.sound_active());
    run(&mut m, 2);
    assert_eq!(m.sound_timer(), 2);
    assert!(m.sound_active());
    m.tick();
    m.tick();
    assert!(!m.sound_active());
    m.step_with(0);
    assert_eq!(m.register(1), 0);
}

#[test]
fn wait_for_key_suspends_until_a_press() {
    let mut m = machine_with(&[0xf3, 0x0a, 0x60, 0x01]);
    m.step_with(0);
    assert_eq!(m.state(), RunState::AwaitingKey { x: 3 });
    assert_eq!(m.pc(), 0x200);
    run(&mut m, 5);
    assert_eq!(m.state(), RunState::AwaitingKey { x: 3 });
    assert_eq!(m.pc(), 0x200);
    m.set_key(7, false);
    assert_eq!(m.state(), RunState::AwaitingKey { x: 3 });
    m.set_key(7, true);
    assert_eq!(m.state(), RunState::Running);
    assert_eq!(m.pc(), 0x202);
    assert_eq!(m.register(3), 7);
    assert!(m.key(7));
    m.step_with(0);
    assert_eq!(m.register(0), 1);
}

#[test]
fn store_then_load_restores_registers() {
    let mut m = machine_with(&[
        0x60, 0x11, 0x61, 0x22, 0x62, 0x33, 0xa3, 0x00, 0xf2, 0x55, 0x60, 0x00, 0x61, 0x00, 0x62,
        0x00, 0xf2, 0x65,
    ]);
    run(&mut m, 5);
    assert_eq!(m.memory_at(0x300), 0x11);
    assert_eq!(m.memory_at(0x302), 0x33);
    run(&mut m, 3);
    assert_eq!(m.register(1), 0);
    m.step_with(0);
    assert_eq!(m.register(0), 0x11);
    assert_eq!(m.register(1), 0x22);
    assert_eq!(m.register(2), 0x33);
}

#[test]
fn index_instructions() {
    let mut m = machine_with(&[0x60, 0x0a, 0xf0, 0x29, 0x61, 0x10, 0xf1, 0x1e]);
    run(&mut m, 2);
    assert_eq!(m.index(), 50);
    run(&mut m, 2);
    assert_eq!(m.index(), 66);
}

#[test]
fn random_masks_the_drawn_byte() {
    let mut m = machine_with(&[0xc0, 0x0f]);
    m.step_with(0xab);
    assert_eq!(m.register(0), 0x0b);
    let mut m = machine_with(&[0xc0, 0x00, 0xc1, 0xf0]);
    m.step();
    assert_eq!(m.register(0), 0);
    assert_eq!(m.pc(), 0x202);
    m.step();
    assert_eq!(m.register(1) & 0x0f, 0);
    assert_eq!(m.pc(), 0x204);
}

#[test]
fn invalid_opcode_halts() {
    let mut m = machine_with(&[0x51, 0x21]);
    m.step_with(0);
    assert_eq!(
        m.state(),
        RunState::Halted { fault: Fault::InvalidOpcode { opcode: 0x5121, pc: 0x200 } }
    );
    m.step_with(0);
    assert_eq!(m.pc(), 0x200);
}

#[test]
fn return_on_empty_stack_underflows() {
    let mut m = machine_with(&[0x00, 0xee]);
    m.step_with(0);
    assert_eq!(m.state(), RunState::Halted { fault: Fault::StackUnderflow });
}

#[test]
fn seventeenth_nested_call_overflows() {
    let mut m = machine_with(&[0x22, 0x00]);
    run(&mut m, 16);
    assert_eq!(m.stack_pointer(), 16);
    assert_eq!(m.state(), RunState::Running);
    m.step_with(0);
    assert_eq!(m.state(), RunState::Halted { fault: Fault::StackOverflow });
}

#[test]
fn out_of_bounds_accesses_halt() {
    let mut m = machine_with(&[0x1f, 0xff]);
    run(&mut m, 2);
    assert_eq!(m.state(), RunState::Halted { fault: Fault::OutOfBoundsAccess });
    let mut m = machine_with(&[0xaf, 0xfe, 0xf0, 0x33]);
    run(&mut m, 2);
    assert_eq!(m.state(), RunState::Halted { fault: Fault::OutOfBoundsAccess });
    let mut m = machine_with(&[0xaf, 0xfe, 0xf2, 0x55]);
    run(&mut m, 2);
    assert_eq!(m.state(), RunState::Halted { fault: Fault::OutOfBoundsAccess });
    let mut m = machine_with(&[0xaf, 0xfe, 0xd0, 0x03]);
    run(&mut m, 2);
    assert_eq!(m.state(), RunState::Halted { fault: Fault::OutOfBoundsAccess });
}

#[test]
fn load_refuses_oversized_program() {
    let mut m = Chip8::new();
    let big = vec![0x12u8; MAX_PROGRAM_LEN + 1];
    assert_eq!(m.load(&big), Err(LoadError::RomTooLarge { len: MAX_PROGRAM_LEN + 1 }));
    assert_eq!(m.memory_at(0x200), 0);
    let fits = vec![0x12u8; MAX_PROGRAM_LEN];
    assert_eq!(m.load(&fits), Ok(()));
    assert_eq!(m.memory_at(0xfff), 0x12);
}

#[test]
fn keypad_updates() {
    let mut m = Chip8::new();
    m.set_key(3, true);
    m.set_key(20, true);
    assert!(m.key(3));
    m.reset_keypad();
    assert!(!m.key(3));
}

#[test]
fn decoder_matches_nibbles() {
    assert_eq!(decode(0x00e0), Some(Instruction::Cls));
    assert_eq!(decode(0x00ee), Some(Instruction::Ret));
    assert_eq!(decode(0x8124), Some(Instruction::AddReg { x: 1, y: 2 }));
    assert_eq!(decode(0xdab5), Some(Instruction::Draw { x: 0xa, y: 0xb, n: 5 }));
    assert_eq!(decode(0xb123), Some(Instruction::JumpOffset { x: 1, nnn: 0x123 }));
    assert_eq!(decode(0xf565), Some(Instruction::LoadRegs { x: 5 }));
    assert_eq!(decode(0xe29e), Some(Instruction::SkipKeyDown { x: 2 }));
    assert_eq!(decode(0x0123), None);
    assert_eq!(decode(0x5121), None);
    assert_eq!(decode(0x8128), None);
    assert_eq!(decode(0xe2a2), None);
    assert_eq!(decode(0xf2ff), None);
}
