use chip8::{Chip8, Chip8Error, DecodeError, Instruction, Opcode};

fn boot(program: &[u8]) -> Chip8 {
    Chip8::new(&program.to_vec()).unwrap()
}

fn run(program: &[u8], steps: usize) -> Chip8 {
    let mut m = boot(program);
    for _ in 0..steps {
        m.step(0).unwrap();
    }
    m
}

#[test]
fn load_then_add_wraps_for_every_register() {
    for x in 0..16u8 {
        let m = run(&[0x60 | x, 0xFF, 0x70 | x, 0x02], 2);
        assert_eq!(m.cpu().register(x as usize), 0x01);
        assert_eq!(m.cpu().pc(), 0x204);
    }
}

#[test]
fn call_then_return_resumes_after_call() {
    // 0x200: CALL 0x206; 0x206: RET
    let mut m = boot(&[0x22, 0x06, 0x00, 0x00, 0x00, 0x00, 0x00, 0xEE]);
    m.step(0).unwrap();
    assert_eq!(m.cpu().pc(), 0x206);
    assert_eq!(m.cpu().stack_depth(), 1);
    m.step(0).unwrap();
    assert_eq!(m.cpu().pc(), 0x202);
    assert_eq!(m.cpu().stack_depth(), 0);
}

#[test]
fn add_registers_sets_carry() {
    let m = run(&[0x60, 0xFF, 0x61, 0x01, 0x80, 0x14], 3);
    assert_eq!(m.cpu().register(0), 0x00);
    assert_eq!(m.cpu().register(0xF), 1);
    let m = run(&[0x60, 0x01, 0x61, 0x01, 0x80, 0x14], 3);
    assert_eq!(m.cpu().register(0), 0x02);
    assert_eq!(m.cpu().register(0xF), 0);
}

#[test]
fn subtract_registers_sets_no_borrow() {
    let m = run(&[0x60, 0x05, 0x61, 0x03, 0x80, 0x15], 3);
    assert_eq!(m.cpu().register(0), 0x02);
    assert_eq!(m.cpu().register(0xF), 1);
    let m = run(&[0x60, 0x03, 0x61, 0x05, 0x80, 0x15], 3);
    assert_eq!(m.cpu().register(0), 0xFE);
    assert_eq!(m.cpu().register(0xF), 0);
}

#[test]
fn reverse_subtract_and_shifts_set_flags() {
    // SUBN: V0 = V1 - V0
    let m = run(&[0x60, 0x03, 0x61, 0x05, 0x80, 0x17], 3);
    assert_eq!(m.cpu().register(0), 0x02);
    assert_eq!(m.cpu().register(0xF), 1);
    // SHR of 0x05: 0x02, bit out 1
    let m = run(&[0x60, 0x05, 0x80, 0x06], 2);
    assert_eq!(m.cpu().register(0), 0x02);
    assert_eq!(m.cpu().register(0xF), 1);
    // SHL of 0x81: 0x02, bit out 1
    let m = run(&[0x60, 0x81, 0x80, 0x0E], 2);
    assert_eq!(m.cpu().register(0), 0x02);
    assert_eq!(m.cpu().register(0xF), 1);
    // SHL of 0x41: 0x82, bit out 0
    let m = run(&[0x60, 0x41, 0x80, 0x0E], 2);
    assert_eq!(m.cpu().register(0), 0x82);
    assert_eq!(m.cpu().register(0xF), 0);
}

#[test]
fn bitwise_register_ops() {
    let m = run(&[0x60, 0x0C, 0x61, 0x0A, 0x62, 0x0C, 0x63, 0x0C, 0x80, 0x11, 0x82, 0x12, 0x83, 0x13], 7);
    assert_eq!(m.cpu().register(0), 0x0E);
    assert_eq!(m.cpu().register(2), 0x08);
    assert_eq!(m.cpu().register(3), 0x06);
}

#[test]
fn drawing_twice_clears_and_reports_collision() {
    // V0 = 0; I = font sprite of digit 0; draw at (V0, V0) twice.
    let mut m = boot(&[0x60, 0x00, 0xF0, 0x29, 0xD0, 0x05, 0xD0, 0x05]);
    m.step(0).unwrap();
    m.step(0).unwrap();
    assert_eq!(m.cpu().index(), 0);
    m.step(0).unwrap();
    assert_eq!(m.cpu().register(0xF), 0);
    // top row of the "0" glyph is 0xF0
    assert!(m.cpu().pixel(0, 0));
    assert!(m.cpu().pixel(3, 0));
    assert!(!m.cpu().pixel(4, 0));
    assert!(m.cpu().pixel(0, 1));
    assert!(!m.cpu().pixel(1, 1));
    m.step(0).unwrap();
    assert_eq!(m.cpu().register(0xF), 1);
    assert!(m.cpu().display().iter().all(|p| !*p));
}

#[test]
fn draw_wraps_horizontally_and_clips_vertically() {
    // V0 = 62, V1 = 30, I = glyph "0", draw 5 rows at (62, 30)
    let m = run(&[0x60, 62, 0x61, 30, 0x62, 0x00, 0xF2, 0x29, 0xD0, 0x15], 5);
    assert!(m.cpu().pixel(62, 30));
    assert!(m.cpu().pixel(63, 30));
    assert!(m.cpu().pixel(0, 30));
    assert!(m.cpu().pixel(1, 30));
    assert!(!m.cpu().pixel(2, 30));
    assert!(m.cpu().pixel(62, 31));
    let lit = m.cpu().display().iter().filter(|p| **p).count();
    // rows 30 and 31 only: 4 + 2 pixels
    assert_eq!(lit, 6);
}

#[test]
fn decoding_total_on_plain_families() {
    for w in 0u32..=0xFFFF {
        let w = w as u16;
        let fam = w >> 12;
        let r = Instruction::decode_instruction(&Instruction(w));
        if (1..=7).contains(&fam) || (9..=0xD).contains(&fam) {
            assert!(r.is_ok(), "word {:#06X}", w);
        }
        if fam == 8 && matches!(w & 0xF, 0x8..=0xD | 0xF) {
            assert_eq!(r, Err(DecodeError::UnknownOpcode { word: w }));
        }
    }
}

#[test]
fn decode_table_entries() {
    let d = |w: u16| Instruction::decode_instruction(&Instruction(w));
    assert_eq!(d(0x00E0), Ok(Opcode::CLS));
    assert_eq!(d(0x00EE), Ok(Opcode::RET));
    assert_eq!(d(0x0123), Ok(Opcode::SYS));
    assert_eq!(d(0x8AB6), Ok(Opcode::SHR));
    assert_eq!(d(0x8ABE), Ok(Opcode::SHL));
    assert_eq!(d(0xE29E), Ok(Opcode::SKIP));
    assert_eq!(d(0xE2A1), Ok(Opcode::SKNP));
    assert_eq!(d(0xF265), Ok(Opcode::MEMX));
    assert_eq!(d(0xE200), Err(DecodeError::UnknownOpcode { word: 0xE200 }));
    assert_eq!(d(0xF2FF), Err(DecodeError::UnknownOpcode { word: 0xF2FF }));
}

#[test]
fn instruction_fields() {
    let i = Instruction(0xD3A7);
    assert_eq!(i.x(), 3);
    assert_eq!(i.y(), 0xA);
    assert_eq!(i.n(), 7);
    assert_eq!(i.nn(), 0xA7);
    assert_eq!(i.nnn(), 0x3A7);
}

#[test]
fn sixteen_nested_calls_then_overflow() {
    // 0x200: CALL 0x200
    let mut m = boot(&[0x22, 0x00]);
    for depth in 1..=16 {
        m.step(0).unwrap();
        assert_eq!(m.cpu().stack_depth(), depth);
    }
    assert_eq!(m.step(0), Err(Chip8Error::StackOverflow));
    assert_eq!(m.cpu().stack_depth(), 16);
    assert_eq!(m.cpu().pc(), 0x200);
}

#[test]
fn return_with_empty_stack_underflows() {
    let mut m = boot(&[0x00, 0xEE]);
    assert_eq!(m.step(0), Err(Chip8Error::StackUnderflow));
    assert_eq!(m.cpu().pc(), 0x200);
}

#[test]
fn timers_stop_at_zero() {
    let mut m = boot(&[]);
    for _ in 0..10 {
        m.tick();
    }
    assert_eq!(m.cpu().get_delay(), 0);
    assert_eq!(m.cpu().get_sound(), 0);
    // LD DT, V0 with V0 = 2; LD ST, V0; then tick three times
    let mut m = boot(&[0x60, 0x02, 0xF0, 0x15, 0xF0, 0x18, 0xF1, 0x07]);
    m.step(0).unwrap();
    m.step(0).unwrap();
    m.step(0).unwrap();
    assert_eq!(m.cpu().get_delay(), 2);
    assert_eq!(m.cpu().get_sound(), 2);
    m.tick();
    m.step(0).unwrap();
    assert_eq!(m.cpu().register(1), 1);
    m.tick();
    m.tick();
    assert_eq!(m.cpu().get_delay(), 0);
    assert_eq!(m.cpu().get_sound(), 0);
}

#[test]
fn cpu_timer_accessors() {
    let mut c = chip8::Cpu::initialize();
    c.set_delay(1);
    c.set_sound(3);
    c.tick();
    assert_eq!(c.get_delay(), 0);
    assert_eq!(c.get_sound(), 2);
    c.tick();
    c.tick();
    c.tick();
    assert_eq!(c.get_delay(), 0);
    assert_eq!(c.get_sound(), 0);
}

#[test]
fn clear_load_and_jump_loop() {
    // CLS; LD V0, 0x0A; JP 0x200
    let mut m = boot(&[0x00, 0xE0, 0x60, 0x0A, 0x12, 0x00]);
    m.step(0).unwrap();
    m.step(0).unwrap();
    assert_eq!(m.cpu().register(0), 0x0A);
    assert_eq!(m.cpu().pc(), 0x204);
    m.step(0).unwrap();
    assert_eq!(m.cpu().pc(), 0x200);
    assert!(m.cpu().display().iter().all(|p| !*p));
    m.step(0).unwrap();
    m.step(0).unwrap();
    m.step(0).unwrap();
    assert_eq!(m.cpu().pc(), 0x200);
    assert_eq!(m.cpu().register(0), 0x0A);
}

#[test]
fn unknown_opcode_is_reported_without_change() {
    let mut m = boot(&[0x60, 0x07, 0x80, 0x08]);
    m.step(0).unwrap();
    assert_eq!(
        m.step(0),
        Err(Chip8Error::Decode(DecodeError::UnknownOpcode { word: 0x8008 }))
    );
    assert_eq!(m.cpu().pc(), 0x202);
    assert_eq!(m.cpu().register(0), 7);
}

#[test]
fn fetch_past_memory_end_fails() {
    // JP 0xFFF: the fetch there reads 0xFFF and 0x1000
    let mut m = boot(&[0x1F, 0xFF]);
    m.step(0).unwrap();
    assert_eq!(m.cpu().pc(), 0xFFF);
    assert_eq!(m.step(0), Err(Chip8Error::MemoryOutOfBounds { address: 0x1000 }));
    // JP V0 to 0xFFF + 0x10 lands past the end
    let mut m = boot(&[0x60, 0x10, 0xBF, 0xFF]);
    m.step(0).unwrap();
    m.step(0).unwrap();
    assert_eq!(m.cpu().pc(), 0x100F);
    assert_eq!(m.step(0), Err(Chip8Error::MemoryOutOfBounds { address: 0x100F }));
}

#[test]
fn draw_past_memory_end_fails() {
    // I = 0xFFF; draw 2 rows
    let mut m = boot(&[0xAF, 0xFF, 0xD0, 0x02]);
    m.step(0).unwrap();
    assert_eq!(m.step(0), Err(Chip8Error::MemoryOutOfBounds { address: 0x1000 }));
    assert_eq!(m.cpu().pc(), 0x202);
}

#[test]
fn wait_for_key_is_unimplemented() {
    let mut m = boot(&[0xF3, 0x0A]);
    assert_eq!(
        m.step(0),
        Err(Chip8Error::UnimplementedOpcode { tag: Opcode::LDKEY })
    );
    assert_eq!(m.cpu().pc(), 0x200);
}

#[test]
fn program_size_limit() {
    assert_eq!(
        Chip8::new(&vec![0u8; 3585]).err(),
        Some(Chip8Error::ProgramTooLarge { size: 3585 })
    );
    let m = Chip8::new(&vec![0xAB; 3584]).unwrap();
    assert_eq!(m.cpu().memory_byte(0x200), 0xAB);
    assert_eq!(m.cpu().memory_byte(0xFFF), 0xAB);
}

#[test]
fn font_and_program_are_loaded() {
    let m = boot(&[0x12, 0x34]);
    assert_eq!(m.cpu().memory_byte(0), 0xF0);
    assert_eq!(m.cpu().memory_byte(5), 0x20);
    assert_eq!(m.cpu().memory_byte(79), 0x80);
    assert_eq!(m.cpu().memory_byte(80), 0x00);
    assert_eq!(m.cpu().memory_byte(0x200), 0x12);
    assert_eq!(m.cpu().memory_byte(0x201), 0x34);
    assert_eq!(m.cpu().pc(), 0x200);
}

#[test]
fn skips_on_immediates_and_registers() {
    // SE V0, 0 skips; SNE V0, 0 does not
    let m = run(&[0x30, 0x00], 1);
    assert_eq!(m.cpu().pc(), 0x204);
    let m = run(&[0x40, 0x00], 1);
    assert_eq!(m.cpu().pc(), 0x202);
    let m = run(&[0x50, 0x10], 1);
    assert_eq!(m.cpu().pc(), 0x204);
    let m = run(&[0x90, 0x10], 1);
    assert_eq!(m.cpu().pc(), 0x202);
}

#[test]
fn key_skips_follow_keypad() {
    // V0 = 0x15 (key 5); SKP V0
    let mut m = boot(&[0x60, 0x15, 0xE0, 0x9E]);
    m.set_key(5, true);
    m.step(0).unwrap();
    m.step(0).unwrap();
    assert_eq!(m.cpu().pc(), 0x206);
    assert!(m.cpu().key(5));
    let mut m = boot(&[0x60, 0x05, 0xE0, 0xA1]);
    m.step(0).unwrap();
    m.step(0).unwrap();
    assert_eq!(m.cpu().pc(), 0x206);
    m.set_key(5, false);
}

#[test]
fn bcd_and_register_block_transfers() {
    // V0 = 254; I = 0x300; BCD V0; LD V2,[I]
    let m = run(&[0x60, 0xFE, 0xA3, 0x00, 0xF0, 0x33, 0xF2, 0x65], 4);
    assert_eq!(m.cpu().memory_byte(0x300), 2);
    assert_eq!(m.cpu().memory_byte(0x301), 5);
    assert_eq!(m.cpu().memory_byte(0x302), 4);
    assert_eq!(m.cpu().register(0), 2);
    assert_eq!(m.cpu().register(1), 5);
    assert_eq!(m.cpu().register(2), 4);
    assert_eq!(m.cpu().index(), 0x300);
    // V0 = 1, V1 = 2; I = 0x310; LD [I], V1
    let m = run(&[0x60, 0x01, 0x61, 0x02, 0xA3, 0x10, 0xF1, 0x55], 4);
    assert_eq!(m.cpu().memory_byte(0x310), 1);
    assert_eq!(m.cpu().memory_byte(0x311), 2);
    assert_eq!(m.cpu().memory_byte(0x312), 0);
}

#[test]
fn index_add_wraps_and_font_address() {
    // I = 0xFFF; V0 = 0xFF; ADD I, V0
    let m = run(&[0xAF, 0xFF, 0x60, 0xFF, 0xF0, 0x1E], 3);
    assert_eq!(m.cpu().index(), 0x10FE);
    let m = run(&[0x60, 0x0B, 0xF0, 0x29], 2);
    assert_eq!(m.cpu().index(), 55);
}

#[test]
fn random_uses_given_byte_and_mask() {
    let mut m = boot(&[0xC3, 0x0F]);
    m.step(0xAB).unwrap();
    assert_eq!(m.cpu().register(3), 0x0B);
    let mut m = boot(&[0xC3, 0x00, 0xC4, 0x0F]);
    m.cycle().unwrap();
    assert_eq!(m.cpu().register(3), 0);
    m.cycle().unwrap();
    assert!(m.cpu().register(4) <= 0x0F);
    assert_eq!(m.cpu().pc(), 0x204);
}

#[test]
fn system_call_is_a_no_op() {
    let m = run(&[0x01, 0x23], 1);
    assert_eq!(m.cpu().pc(), 0x202);
}

#[test]
fn load_game_on_cpu() {
    let mut c = chip8::Cpu::initialize();
    c.load_font_set();
    assert_eq!(c.load_game(&vec![1, 2, 3]), Ok(()));
    assert_eq!(c.memory_byte(0x202), 3);
    assert_eq!(c.load_game(&vec![0; 4000]), Err(Chip8Error::ProgramTooLarge { size: 4000 }));
    assert_eq!(c.memory_byte(0x203), 0);
}
