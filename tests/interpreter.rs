use fry8::display::Rect;
use fry8::machine::{MAX_ROM_LEN, PROGRAM_START};
use fry8::{decode, ChipError, Chip8, Instruction, KeySymbol, Keyboard, Registers, SDLDo, Sprite};

fn run(chip: &mut Chip8, ins: Instruction) -> SDLDo {
    match chip.exec(ins) {
        Ok(d) => d,
        Err(e) => panic!("unexpected error: {}", e.message()),
    }
}

fn loaded(program: &[u8]) -> Chip8 {
    let mut chip = Chip8::init();
    assert!(chip.load(&program.to_vec()).is_ok());
    chip
}

fn documented(op: u16) -> bool {
    let masked = |m: u16, p: u16| op & m == p;
    (0..=7u16).any(|h| masked(0xF000, h << 12))
        || [0x0u16, 0x1, 0x2, 0x3, 0x4, 0x5, 0x6, 0x7, 0xE].iter().any(|&n| masked(0xF00F, 0x8000 | n))
        || (0x9..=0xDu16).any(|h| masked(0xF000, h << 12))
        || [0xE09Eu16, 0xE0A1].iter().any(|&p| masked(0xF0FF, p))
        || [0xF007u16, 0xF00A, 0xF015, 0xF018, 0xF01E, 0xF029, 0xF033, 0xF055, 0xF065]
            .iter()
            .any(|&p| masked(0xF0FF, p))
}

#[test]
fn decode_invalid_exactly_for_undocumented_opcodes() {
    for op in 0..=u16::MAX {
        assert_eq!(decode(op) == Instruction::Invalid, !documented(op), "opcode {:#06x}", op);
    }
}

#[test]
fn decode_examples() {
    assert_eq!(decode(0x00E0), Instruction::ClearScreen);
    assert_eq!(decode(0x00EE), Instruction::Return);
    assert_eq!(decode(0x0123), Instruction::SYSaddr);
    assert_eq!(decode(0x1ABC), Instruction::Jump(0xABC));
    assert_eq!(decode(0x2345), Instruction::Call(0x345));
    assert_eq!(decode(0x3A42), Instruction::SkipEqualByte(0xA, 0x42));
    assert_eq!(decode(0x8124), Instruction::AddReg(1, 2));
    assert_eq!(decode(0x812E), Instruction::ShiftLeft(1));
    assert_eq!(decode(0x8128), Instruction::Invalid);
    assert_eq!(decode(0xD125), Instruction::Draw(1, 2, 5));
    assert_eq!(decode(0xE39E), Instruction::SkipKey(3));
    assert_eq!(decode(0xE3A2), Instruction::Invalid);
    assert_eq!(decode(0xF433), Instruction::StoreBCD(4));
    assert_eq!(decode(0xF465), Instruction::LoadRegI(4));
    assert_eq!(decode(0xF466), Instruction::Invalid);
    assert_eq!(decode(0xB200), Instruction::JumpAdd(0x200));
}

#[test]
fn load_of_largest_rom_succeeds() {
    let mut chip = Chip8::init();
    let rom = vec![0xAB; MAX_ROM_LEN];
    assert_eq!(MAX_ROM_LEN, 0xDFF);
    assert!(chip.load(&rom).is_ok());
    assert_eq!(chip.memory_at(0xFFE), 0xAB);
    assert_eq!(chip.memory_at(0xFFF), 0);
}

#[test]
fn load_one_byte_too_many_fails_with_overage() {
    let mut chip = Chip8::init();
    let rom = vec![0xAB; 0xDFF + 1];
    assert_eq!(chip.load(&rom), Err(ChipError::RomTooLarge(1)));
    assert_eq!(chip.memory_at(0x200), 0);
    assert!(!chip.rom_loaded());
}

#[test]
fn load_places_rom_and_keeps_glyphs() {
    let fresh = Chip8::init();
    let rom = vec![1u8, 2, 3, 4, 5];
    let mut chip = Chip8::init();
    assert!(chip.load(&rom).is_ok());
    assert_eq!(chip.registers().program_counter, 0x200);
    assert_eq!(PROGRAM_START, 0x200);
    assert!(chip.rom_loaded());
    for (k, b) in rom.iter().enumerate() {
        assert_eq!(chip.memory_at(0x200 + k), *b);
    }
    for a in (0..0x200).chain(0x205..4097) {
        assert_eq!(chip.memory_at(a), fresh.memory_at(a));
    }
    assert_eq!(chip.memory_at(0), 0xF0);
    assert_eq!(chip.memory_at(5), 0x20);
    assert_eq!(chip.memory_at(79), 0x80);
}

#[test]
fn add_reg_sets_carry() {
    let mut chip = Chip8::init();
    run(&mut chip, Instruction::LoadByte(1, 250));
    run(&mut chip, Instruction::LoadByte(2, 10));
    run(&mut chip, Instruction::AddReg(1, 2));
    assert_eq!(chip.registers().v1, 4);
    assert_eq!(chip.registers().vf, 1);
    run(&mut chip, Instruction::LoadByte(1, 10));
    run(&mut chip, Instruction::LoadByte(2, 20));
    run(&mut chip, Instruction::AddReg(1, 2));
    assert_eq!(chip.registers().v1, 30);
    assert_eq!(chip.registers().vf, 0);
}

#[test]
fn sub_reg_sets_borrow() {
    let mut chip = Chip8::init();
    run(&mut chip, Instruction::LoadByte(1, 5));
    run(&mut chip, Instruction::LoadByte(2, 10));
    run(&mut chip, Instruction::SubReg(1, 2));
    assert_eq!(chip.registers().v1, 251);
    assert_eq!(chip.registers().vf, 1);
    run(&mut chip, Instruction::LoadByte(1, 10));
    run(&mut chip, Instruction::LoadByte(2, 5));
    run(&mut chip, Instruction::SubReg(1, 2));
    assert_eq!(chip.registers().v1, 5);
    assert_eq!(chip.registers().vf, 0);
}

#[test]
fn sub_n_and_add_byte() {
    let mut chip = Chip8::init();
    run(&mut chip, Instruction::LoadByte(1, 10));
    run(&mut chip, Instruction::LoadByte(2, 5));
    run(&mut chip, Instruction::SubN(1, 2));
    assert_eq!(chip.registers().v1, 251);
    assert_eq!(chip.registers().vf, 1);
    run(&mut chip, Instruction::LoadByte(0xF, 7));
    run(&mut chip, Instruction::LoadByte(3, 200));
    run(&mut chip, Instruction::AddByte(3, 100));
    assert_eq!(chip.registers().v3, 44);
    assert_eq!(chip.registers().vf, 1);
}

#[test]
fn shifts_use_low_and_high_bits() {
    let mut chip = Chip8::init();
    run(&mut chip, Instruction::LoadByte(1, 0b1000_0011));
    run(&mut chip, Instruction::ShiftRight(1));
    assert_eq!(chip.registers().v1, 0b0100_0001);
    assert_eq!(chip.registers().vf, 1);
    run(&mut chip, Instruction::ShiftLeft(1));
    assert_eq!(chip.registers().v1, 0b1000_0010);
    assert_eq!(chip.registers().vf, 0);
    run(&mut chip, Instruction::ShiftLeft(1));
    assert_eq!(chip.registers().v1, 0b0000_0100);
    assert_eq!(chip.registers().vf, 1);
}

#[test]
fn call_then_return_restores_program_counter() {
    // 0x200: call 0x300; 0x300: return
    let mut program = vec![0u8; 0x102];
    program[0] = 0x23;
    program[1] = 0x00;
    program[0x100] = 0x00;
    program[0x101] = 0xEE;
    let mut chip = loaded(&program);
    assert!(chip.step().is_ok());
    assert_eq!(chip.registers().program_counter, 0x300);
    assert_eq!(chip.stack_depth(), 1);
    assert_eq!(chip.registers().stack_pointer, 1);
    assert!(chip.step().is_ok());
    assert_eq!(chip.registers().program_counter, 0x202);
    assert_eq!(chip.stack_depth(), 0);
    assert_eq!(chip.registers().stack_pointer, 0);
}

#[test]
fn return_on_empty_stack_fails() {
    let mut chip = Chip8::init();
    assert_eq!(chip.exec(Instruction::Return).err(), Some(ChipError::AddressOutofBounds));
}

#[test]
fn clear_then_draw_reports_only_new_sprite() {
    let mut chip = Chip8::init();
    run(&mut chip, Instruction::LoadI(0));
    run(&mut chip, Instruction::Draw(0, 0, 5));
    run(&mut chip, Instruction::Draw(0, 0, 5));
    assert_eq!(chip.sprite_count(), 2);
    match run(&mut chip, Instruction::ClearScreen) {
        SDLDo::ClearScreen => {}
        _ => panic!("expected a clear"),
    }
    assert_eq!(chip.sprite_count(), 0);
    // glyph "1": 0x20 0x60 0x20 0x20 0x70
    run(&mut chip, Instruction::LoadI(5));
    run(&mut chip, Instruction::LoadByte(3, 10));
    run(&mut chip, Instruction::LoadByte(4, 2));
    let rects = match run(&mut chip, Instruction::Draw(3, 4, 2)) {
        SDLDo::Draw(r) => r,
        _ => panic!("expected a draw"),
    };
    assert_eq!(chip.sprite_count(), 1);
    let expected = vec![
        Rect { x: 12, y: 2, w: 1, h: 1 },
        Rect { x: 11, y: 3, w: 1, h: 1 },
        Rect { x: 12, y: 3, w: 1, h: 1 },
    ];
    assert_eq!(rects, expected);
}

#[test]
fn draw_of_sixteen_rows_fails() {
    let mut chip = Chip8::init();
    assert_eq!(chip.exec(Instruction::Draw(0, 0, 16)).err(), Some(ChipError::InvalidSpriteSize));
    assert_eq!(chip.exec(Instruction::Draw(16, 0, 1)).err(), Some(ChipError::InvalidRegister));
}

#[test]
fn draw_past_memory_end_fails() {
    let mut chip = Chip8::init();
    run(&mut chip, Instruction::LoadI(4090));
    assert_eq!(chip.exec(Instruction::Draw(0, 0, 8)).err(), Some(ChipError::AddressOutofBounds));
}

#[test]
fn wait_key_busy_waits_then_stores_code() {
    // 0x200: wait for a key into V5
    let mut chip = loaded(&[0xF5, 0x0A]);
    assert!(chip.step().is_ok());
    assert_eq!(chip.registers().program_counter, 0x200);
    assert!(chip.step().is_ok());
    assert_eq!(chip.registers().program_counter, 0x200);
    chip.set_key(KeySymbol::R);
    assert!(chip.step().is_ok());
    assert_eq!(chip.registers().v5, 0xD);
    assert_eq!(chip.registers().program_counter, 0x202);
}

#[test]
fn wait_key_exec_takes_back_the_fetch() {
    let mut chip = Chip8::init();
    run(&mut chip, Instruction::Jump(0x202));
    run(&mut chip, Instruction::WaitKey(5));
    assert_eq!(chip.registers().program_counter, 0x200);
    chip.keyboard.set_key(KeySymbol::R);
    run(&mut chip, Instruction::WaitKey(5));
    assert_eq!(chip.registers().v5, 0xD);
    assert_eq!(chip.registers().program_counter, 0x200);
}

#[test]
fn wait_key_ignores_unmapped_key() {
    let mut chip = Chip8::init();
    run(&mut chip, Instruction::Jump(0x300));
    chip.set_key(KeySymbol::Other);
    run(&mut chip, Instruction::WaitKey(2));
    assert_eq!(chip.registers().program_counter, 0x2FE);
}

#[test]
fn store_bcd_of_157() {
    let mut chip = Chip8::init();
    run(&mut chip, Instruction::LoadByte(6, 157));
    run(&mut chip, Instruction::LoadI(0x400));
    run(&mut chip, Instruction::StoreBCD(6));
    assert_eq!(chip.memory_at(0x400), 1);
    assert_eq!(chip.memory_at(0x401), 5);
    assert_eq!(chip.memory_at(0x402), 7);
}

#[test]
fn store_and_load_registers_through_v3() {
    let mut chip = Chip8::init();
    for r in 0..16u8 {
        run(&mut chip, Instruction::LoadByte(r, 10 + r));
    }
    run(&mut chip, Instruction::LoadI(0x500));
    run(&mut chip, Instruction::StoreRegI(3));
    assert_eq!(chip.registers().i, 0x500);
    for k in 0..4 {
        assert_eq!(chip.memory_at(0x500 + k), 10 + k as u8);
    }
    assert_eq!(chip.memory_at(0x504), 0);
    run(&mut chip, Instruction::LoadI(0x600));
    for r in 0..16u8 {
        run(&mut chip, Instruction::LoadByte(r, 99));
    }
    run(&mut chip, Instruction::LoadI(0x500));
    run(&mut chip, Instruction::LoadRegI(3));
    let regs = chip.registers();
    assert_eq!((regs.v0, regs.v1, regs.v2, regs.v3), (10, 11, 12, 13));
    assert_eq!((regs.v4, regs.ve, regs.vf), (99, 99, 99));
    assert_eq!(regs.i, 0x500);
}

#[test]
fn block_copy_rejects_bad_register() {
    let mut chip = Chip8::init();
    assert_eq!(chip.exec(Instruction::StoreRegI(16)).err(), Some(ChipError::InvalidRegister));
    assert_eq!(chip.exec(Instruction::LoadRegI(16)).err(), Some(ChipError::InvalidRegister));
}

#[test]
fn set_i_sprite_points_at_glyph() {
    let mut chip = Chip8::init();
    run(&mut chip, Instruction::LoadByte(2, 0xA));
    run(&mut chip, Instruction::SetISprite(2));
    assert_eq!(chip.registers().i, 50);
    run(&mut chip, Instruction::LoadByte(2, 0x20));
    run(&mut chip, Instruction::SetISprite(2));
    assert_eq!(chip.registers().i, 50);
}

#[test]
fn skips_and_jumps() {
    let mut chip = Chip8::init();
    run(&mut chip, Instruction::Jump(0x300));
    run(&mut chip, Instruction::LoadByte(1, 7));
    run(&mut chip, Instruction::SkipEqualByte(1, 7));
    assert_eq!(chip.registers().program_counter, 0x302);
    run(&mut chip, Instruction::SkipNotEqualByte(1, 7));
    assert_eq!(chip.registers().program_counter, 0x302);
    run(&mut chip, Instruction::LoadByte(0, 4));
    run(&mut chip, Instruction::JumpAdd(0x300));
    assert_eq!(chip.registers().program_counter, 0x304);
    chip.keyboard.set_key(KeySymbol::Num1);
    run(&mut chip, Instruction::LoadByte(2, 1));
    run(&mut chip, Instruction::SkipKey(2));
    assert_eq!(chip.registers().program_counter, 0x306);
    run(&mut chip, Instruction::SkipNotKey(2));
    assert_eq!(chip.registers().program_counter, 0x306);
}

#[test]
fn step_ticks_timers_and_fails_outside_program() {
    let mut chip = Chip8::init();
    assert_eq!(chip.step().err(), Some(ChipError::AddressOutofBounds));
    // 0x200: V1 = 3; 0x202: delay = V1; 0x204: V2 = delay
    let mut chip = loaded(&[0x61, 0x03, 0xF1, 0x15, 0xF2, 0x07, 0x00, 0x00]);
    assert!(chip.step().is_ok());
    assert!(chip.step().is_ok());
    assert_eq!(chip.registers().delay_timer, 3);
    assert!(chip.step().is_ok());
    assert_eq!(chip.registers().v2, 2);
    assert_eq!(chip.registers().program_counter, 0x206);
}

#[test]
fn invalid_instruction_stops() {
    let mut chip = loaded(&[0x81, 0x28]);
    assert_eq!(chip.step().err(), Some(ChipError::InvalidInstruction));
}

#[test]
fn rand_is_masked() {
    let mut chip = Chip8::init();
    for _ in 0..50 {
        run(&mut chip, Instruction::Rand(4, 0x0F));
        assert!(chip.registers().v4 <= 0x0F);
    }
    run(&mut chip, Instruction::Rand(4, 0));
    assert_eq!(chip.registers().v4, 0);
    assert!(chip.exec_with_random(Instruction::Rand(4, 0x3C), 0xFF).is_ok());
    assert_eq!(chip.registers().v4, 0x3C);
}

#[test]
fn registers_checked_access() {
    let mut regs = Registers::new();
    assert_eq!(regs.set_vx(0xC, 42), Ok(()));
    assert_eq!(regs.get_vx(0xC), Ok(42));
    assert_eq!(regs.vc, 42);
    assert_eq!(regs.set_vx(16, 1), Err(ChipError::InvalidRegister));
    assert_eq!(regs.get_vx(16), Err(ChipError::InvalidRegister));
}

#[test]
fn keyboard_layout() {
    let mut kb = Keyboard::new();
    assert_eq!(kb.get_key(), None);
    let pairs = [
        (KeySymbol::Num1, 0x1),
        (KeySymbol::Num2, 0x2),
        (KeySymbol::Num3, 0x3),
        (KeySymbol::Num4, 0xC),
        (KeySymbol::Q, 0x4),
        (KeySymbol::W, 0x5),
        (KeySymbol::E, 0x6),
        (KeySymbol::R, 0xD),
        (KeySymbol::A, 0x7),
        (KeySymbol::S, 0x8),
        (KeySymbol::D, 0x9),
        (KeySymbol::F, 0xE),
        (KeySymbol::Z, 0xA),
        (KeySymbol::X, 0x0),
        (KeySymbol::C, 0xB),
        (KeySymbol::V, 0xF),
    ];
    for (k, code) in pairs {
        kb.set_key(k);
        assert_eq!(kb.get_key(), Some(code));
    }
    kb.set_key(KeySymbol::Other);
    assert_eq!(kb.get_key(), None);
}

#[test]
fn sprite_rows_become_unit_squares() {
    let sprite = match Sprite::new(vec![0b1000_0001, 0b0100_0000], 3, 7) {
        Ok(s) => s,
        Err(_) => panic!("two rows fit"),
    };
    assert_eq!(sprite.y_max(), 9);
    assert_eq!(
        sprite.into_rects(),
        vec![
            Rect { x: 3, y: 7, w: 1, h: 1 },
            Rect { x: 10, y: 7, w: 1, h: 1 },
            Rect { x: 4, y: 8, w: 1, h: 1 },
        ]
    );
    assert!(Sprite::new(vec![0; 16], 0, 0).is_err());
    assert!(Sprite::new(vec![0; 15], 250, 250).is_ok());
}

#[test]
fn error_messages() {
    assert_eq!(ChipError::RomTooLarge(1234).message(), "Rom too large by 1234 bytes");
    assert_eq!(ChipError::RomTooLarge(0).message(), "Rom too large by 0 bytes");
    assert_eq!(ChipError::AddressOutofBounds.message(), "Address out of bounds");
    assert_eq!(ChipError::InvalidInstruction.message(), "Invalid Instruction was encountered");
    assert_eq!(ChipError::InvalidRegister.message(), "Attempt to access invalid register");
    assert_eq!(ChipError::InvalidSpriteSize.message(), "The sprite's size was greater than 15 bytes");
}
