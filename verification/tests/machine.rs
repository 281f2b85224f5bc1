use chip8::cpu::Cpu;
use chip8::errors::CpuError;

fn boot(words: &[u16]) -> Cpu {
    let mut rom: Vec<u8> = Vec::new();
    for w in words {
        rom.push((w >> 8) as u8);
        rom.push((w & 0xFF) as u8);
    }
    Cpu::new(rom).unwrap()
}

#[test]
fn end_to_end_three_instruction_program() {
    // MOV V0,0x05; MOV V1,0x03; ADD V0,V1
    let mut cpu = boot(&[0x6005, 0x6103, 0x8014]);
    cpu.execute().unwrap();
    cpu.execute().unwrap();
    cpu.execute().unwrap();
    assert_eq!(cpu.register(0), 8);
}

#[test]
fn unknown_opcode_reports_word_and_address() {
    let mut cpu = boot(&[0xFFFF]);
    let err = cpu.execute().unwrap_err();
    assert_eq!(err, CpuError::UnknownOpcode { opcode: 0xFFFF, address: 0x200 });
    // the failed cycle leaves the machine untouched
    assert_eq!(cpu.program_counter(), 0x200);
}

#[test]
fn call_then_ret_resumes_after_the_call() {
    // 0x200: CALL 0x208; 0x202..0x206: padding; 0x208: RET
    let mut cpu = boot(&[0x2208, 0x0000, 0x0000, 0x0000, 0x00EE]);
    cpu.execute().unwrap();
    assert_eq!(cpu.program_counter(), 0x208);
    assert_eq!(cpu.stack_pointer(), 4094);
    cpu.execute().unwrap();
    assert_eq!(cpu.program_counter(), 0x202);
    assert_eq!(cpu.stack_pointer(), 4096);
}

#[test]
fn ret_on_empty_stack_underflows() {
    let mut cpu = boot(&[0x00EE]);
    let err = cpu.execute().unwrap_err();
    assert_eq!(err, CpuError::StackUnderflow);
    assert_eq!(cpu.program_counter(), 0x200);
}

#[test]
fn sixteen_nested_calls_fit_and_one_more_overflows() {
    // CALL 0x200: calls itself forever
    let mut cpu = boot(&[0x2200]);
    for _ in 0..16 {
        cpu.execute().unwrap();
    }
    assert_eq!(cpu.stack_pointer(), 4064);
    let err = cpu.execute().unwrap_err();
    assert_eq!(err, CpuError::StackOverflow);
    assert_eq!(cpu.stack_pointer(), 4064);
}

#[test]
fn program_too_large_is_rejected() {
    let rom = vec![0u8; 4096 - 512 + 1];
    match Cpu::new(rom) {
        Ok(_) => panic!("oversized image was accepted"),
        Err(e) => assert_eq!(e, CpuError::ProgramTooLarge { len: 3585 }),
    }
}

#[test]
fn largest_program_is_accepted() {
    let rom = vec![0u8; 4096 - 512];
    assert!(Cpu::new(rom).is_ok());
}

#[test]
fn fetch_beyond_memory_is_out_of_bounds() {
    // JMP 0xFFF: the next fetch would need bytes 0xFFF and 0x1000
    let mut cpu = boot(&[0x1FFF]);
    cpu.execute().unwrap();
    let err = cpu.execute().unwrap_err();
    assert_eq!(err, CpuError::MemoryOutOfBounds { address: 0xFFF });
}

#[test]
fn bcd_beyond_memory_is_out_of_bounds() {
    // MOV I,0xFFF; BCD V0
    let mut cpu = boot(&[0xAFFF, 0xF033]);
    cpu.execute().unwrap();
    let err = cpu.execute().unwrap_err();
    assert_eq!(err, CpuError::MemoryOutOfBounds { address: 0xFFF });
    // the failed cycle leaves the machine untouched
    assert_eq!(cpu.program_counter(), 0x202);
}

#[test]
fn draw_sprite_beyond_memory_is_out_of_bounds() {
    // MOV I,0xFFF; DRW V0,V1,2
    let mut cpu = boot(&[0xAFFF, 0xD012]);
    cpu.execute().unwrap();
    let err = cpu.execute().unwrap_err();
    assert_eq!(err, CpuError::MemoryOutOfBounds { address: 0xFFF });
}

#[test]
fn draw_lights_pixels_and_reports_no_collision_on_clear_screen() {
    // CLS; DRW V0,V1,1 -- the index register is 0, so the sprite is the
    // first font row, 0xF0: four lit pixels
    let mut cpu = boot(&[0x00E0, 0xD011]);
    cpu.execute().unwrap();
    cpu.execute().unwrap();
    assert_eq!(cpu.register(15), 0); // nothing was lit before
    for x in 0..4 {
        assert!(cpu.pixel(x, 0));
    }
    for x in 4..8 {
        assert!(!cpu.pixel(x, 0));
    }
}

#[test]
fn drawing_twice_cancels_and_reports_collision() {
    // DRW V0,V0,1 twice, no CLS between
    let mut cpu = boot(&[0xD001, 0xD001]);
    cpu.execute().unwrap();
    assert_eq!(cpu.register(15), 0);
    assert!(cpu.pixel(0, 0));
    cpu.execute().unwrap();
    assert_eq!(cpu.register(15), 1); // second blit turned lit pixels off
    for x in 0..8 {
        assert!(!cpu.pixel(x, 0));
    }
}

#[test]
fn draw_wraps_around_the_edges() {
    // MOV V0,62; MOV V1,31; DRW V0,V1,2 -- sprite 0xF0,0x90 from the font;
    // row 0 lands on the bottom row, row 1 wraps to the top, and columns
    // 62..66 wrap to 0..2
    let mut cpu = boot(&[0x603E, 0x611F, 0xD012]);
    for _ in 0..3 {
        cpu.execute().unwrap();
    }
    // row 31: 0xF0 has bits at columns 62,63,0,1
    assert!(cpu.pixel(62, 31));
    assert!(cpu.pixel(63, 31));
    assert!(cpu.pixel(0, 31));
    assert!(cpu.pixel(1, 31));
    // row 0 (wrapped): 0x90 has bits at columns 62 and 1
    assert!(cpu.pixel(62, 0));
    assert!(!cpu.pixel(63, 0));
    assert!(!cpu.pixel(0, 0));
    assert!(cpu.pixel(1, 0));
}

#[test]
fn cls_clears_every_pixel() {
    // DRW V0,V0,1; CLS
    let mut cpu = boot(&[0xD001, 0x00E0]);
    cpu.execute().unwrap();
    assert!(cpu.pixel(0, 0));
    cpu.execute().unwrap();
    for x in 0..8 {
        assert!(!cpu.pixel(x, 0));
    }
}

#[test]
fn fresh_machine_state() {
    let cpu = boot(&[]);
    assert_eq!(cpu.program_counter(), 0x200);
    assert_eq!(cpu.stack_pointer(), 4096);
    assert_eq!(cpu.index_register(), 0);
    assert_eq!(cpu.delay_timer(), 0);
    for x in 0..16 {
        assert_eq!(cpu.register(x), 0);
    }
    // font glyphs for 0 and F
    assert_eq!(cpu.memory_byte(0), 0xF0);
    assert_eq!(cpu.memory_byte(79), 0x80);
    // program region and beyond zeroed
    assert_eq!(cpu.memory_byte(0x200), 0);
    assert_eq!(cpu.memory_byte(4095), 0);
}

#[test]
fn rom_is_loaded_at_the_program_base() {
    let cpu = boot(&[0x1234, 0xABCD]);
    assert_eq!(cpu.memory_byte(0x200), 0x12);
    assert_eq!(cpu.memory_byte(0x201), 0x34);
    assert_eq!(cpu.memory_byte(0x202), 0xAB);
    assert_eq!(cpu.memory_byte(0x203), 0xCD);
    assert_eq!(cpu.memory_byte(0x204), 0);
}
