use chip8::cpu::Cpu;

/// Builds a machine whose program region holds the given instruction
/// words, big-endian, starting at the program base 0x200.
fn boot(words: &[u16]) -> Cpu {
    let mut rom: Vec<u8> = Vec::new();
    for w in words {
        rom.push((w >> 8) as u8);
        rom.push((w & 0xFF) as u8);
    }
    Cpu::new(rom).unwrap()
}

fn step_ok(cpu: &mut Cpu, times: usize) {
    for _ in 0..times {
        cpu.execute().unwrap();
    }
}

#[test]
fn add_reg_wraps_and_sets_carry() {
    // MOV V0,200; MOV V1,100; ADD V0,V1
    let mut cpu = boot(&[0x60C8, 0x6164, 0x8014]);
    step_ok(&mut cpu, 3);
    assert_eq!(cpu.register(0), 44); // (200 + 100) mod 256
    assert_eq!(cpu.register(15), 1); // carry
}

#[test]
fn add_reg_no_carry() {
    // MOV V0,5; MOV V1,3; ADD V0,V1
    let mut cpu = boot(&[0x6005, 0x6103, 0x8014]);
    step_ok(&mut cpu, 3);
    assert_eq!(cpu.register(0), 8);
    assert_eq!(cpu.register(15), 0);
}

#[test]
fn add_imm_wraps_without_flag() {
    // MOV V0,250; MOV VF,7; ADD V0,10
    let mut cpu = boot(&[0x60FA, 0x6F07, 0x700A]);
    step_ok(&mut cpu, 3);
    assert_eq!(cpu.register(0), 4); // (250 + 10) mod 256
    assert_eq!(cpu.register(15), 7); // immediate add leaves VF alone
}

#[test]
fn sub_reg_wraps_and_sets_not_borrow() {
    // MOV V0,5; MOV V1,3; SUB V0,V1
    let mut cpu = boot(&[0x6005, 0x6103, 0x8015]);
    step_ok(&mut cpu, 3);
    assert_eq!(cpu.register(0), 2);
    assert_eq!(cpu.register(15), 1); // no borrow
}

#[test]
fn sub_reg_borrow_wraps_around() {
    // MOV V0,3; MOV V1,5; SUB V0,V1
    let mut cpu = boot(&[0x6003, 0x6105, 0x8015]);
    step_ok(&mut cpu, 3);
    assert_eq!(cpu.register(0), 254); // (3 - 5) mod 256
    assert_eq!(cpu.register(15), 0); // borrow
}

#[test]
fn rsub_subtracts_reversed() {
    // MOV V0,5; MOV V1,3; RSUB V0,V1
    let mut cpu = boot(&[0x6005, 0x6103, 0x8017]);
    step_ok(&mut cpu, 3);
    assert_eq!(cpu.register(0), 254); // (3 - 5) mod 256
    assert_eq!(cpu.register(15), 0);
}

#[test]
fn shr_captures_low_bit() {
    // MOV V0,0b00000011; SHR V0
    let mut cpu = boot(&[0x6003, 0x8006]);
    step_ok(&mut cpu, 2);
    assert_eq!(cpu.register(0), 0b00000001);
    assert_eq!(cpu.register(15), 1);
}

#[test]
fn shl_captures_high_bit() {
    // MOV V0,0b10000001; SHL V0
    let mut cpu = boot(&[0x6081, 0x800E]);
    step_ok(&mut cpu, 2);
    assert_eq!(cpu.register(0), 0b00000010);
    assert_eq!(cpu.register(15), 1);
}

#[test]
fn bitwise_or_and_xor() {
    // MOV V0,0b1100; MOV V1,0b1010; OR V0,V1
    let mut cpu = boot(&[0x600C, 0x610A, 0x8011]);
    step_ok(&mut cpu, 3);
    assert_eq!(cpu.register(0), 0b1110);
    // MOV V0,0b1100; MOV V1,0b1010; AND V0,V1
    let mut cpu = boot(&[0x600C, 0x610A, 0x8012]);
    step_ok(&mut cpu, 3);
    assert_eq!(cpu.register(0), 0b1000);
    // MOV V0,0b1100; MOV V1,0b1010; XOR V0,V1
    let mut cpu = boot(&[0x600C, 0x610A, 0x8013]);
    step_ok(&mut cpu, 3);
    assert_eq!(cpu.register(0), 0b0110);
}

#[test]
fn mov_between_registers_and_timer() {
    // MOV V0,60; MOV DT,V0; MOV V1,DT; MOV V2,V1
    let mut cpu = boot(&[0x603C, 0xF015, 0xF107, 0x8210]);
    step_ok(&mut cpu, 4);
    assert_eq!(cpu.delay_timer(), 60);
    assert_eq!(cpu.register(1), 60);
    assert_eq!(cpu.register(2), 60);
}

#[test]
fn timer_ticks_down_and_clamps() {
    // MOV V0,2; MOV DT,V0
    let mut cpu = boot(&[0x6002, 0xF015]);
    step_ok(&mut cpu, 2);
    cpu.tick_timer();
    assert_eq!(cpu.delay_timer(), 1);
    cpu.tick_timer();
    assert_eq!(cpu.delay_timer(), 0);
    cpu.tick_timer();
    assert_eq!(cpu.delay_timer(), 0); // floored at zero
}

#[test]
fn rnd_with_zero_mask_is_zero() {
    // RND V0,0x00
    let mut cpu = boot(&[0xC000]);
    step_ok(&mut cpu, 1);
    assert_eq!(cpu.register(0), 0);
}

#[test]
fn rnd_covers_the_full_range() {
    // RND V0,0xFF; JMP 0x200
    let mut cpu = boot(&[0xC0FF, 0x1200]);
    let mut seen = [false; 256];
    for _ in 0..10000 {
        step_ok(&mut cpu, 2);
        seen[cpu.register(0) as usize] = true;
    }
    let distinct = seen.iter().filter(|&&s| s).count();
    // 10000 uniform draws from 256 values miss this many only with
    // vanishing probability
    assert!(distinct >= 128, "only {} distinct values", distinct);
}

#[test]
fn rnd_respects_a_small_bound() {
    // RND V0,0x07; JMP 0x200
    let mut cpu = boot(&[0xC007, 0x1200]);
    for _ in 0..1000 {
        step_ok(&mut cpu, 2);
        assert!(cpu.register(0) <= 7);
    }
}

#[test]
fn ske_skips_on_equal_immediate() {
    // MOV V0,7; SKE V0,7; MOV V1,1; MOV V2,2
    let mut cpu = boot(&[0x6007, 0x3007, 0x6101, 0x6202]);
    step_ok(&mut cpu, 3);
    assert_eq!(cpu.register(1), 0); // skipped
    assert_eq!(cpu.register(2), 2);
}

#[test]
fn ske_falls_through_on_unequal_immediate() {
    // MOV V0,7; SKE V0,8; MOV V1,1
    let mut cpu = boot(&[0x6007, 0x3008, 0x6101]);
    step_ok(&mut cpu, 3);
    assert_eq!(cpu.register(1), 1);
}

#[test]
fn skne_and_register_skips() {
    // MOV V0,7; MOV V1,7; SKNE V0,V1; MOV V2,9
    let mut cpu = boot(&[0x6007, 0x6107, 0x9010, 0x6209]);
    step_ok(&mut cpu, 4);
    assert_eq!(cpu.register(2), 9); // equal, no skip
    // MOV V0,7; MOV V1,7; SKE V0,V1; MOV V2,9; MOV V3,4
    let mut cpu = boot(&[0x6007, 0x6107, 0x5010, 0x6209, 0x6304]);
    step_ok(&mut cpu, 4);
    assert_eq!(cpu.register(2), 0); // skipped
    assert_eq!(cpu.register(3), 4);
}

#[test]
fn jmp_sets_the_program_counter() {
    // JMP 0x300
    let mut cpu = boot(&[0x1300]);
    step_ok(&mut cpu, 1);
    assert_eq!(cpu.program_counter(), 0x300);
}

#[test]
fn jmp_v0_adds_the_offset() {
    // MOV V0,0x10; JMP V0,0x300
    let mut cpu = boot(&[0x6010, 0xB300]);
    step_ok(&mut cpu, 2);
    assert_eq!(cpu.program_counter(), 0x310);
}

#[test]
fn mov_i_and_add_i() {
    // MOV I,0x300; MOV V0,0x10; ADD I,V0
    let mut cpu = boot(&[0xA300, 0x6010, 0xF01E]);
    step_ok(&mut cpu, 3);
    assert_eq!(cpu.index_register(), 0x310);
}

#[test]
fn font_points_at_the_glyph_of_the_low_nibble() {
    // MOV V0,0xAB; FONT V0
    let mut cpu = boot(&[0x60AB, 0xF029]);
    step_ok(&mut cpu, 2);
    assert_eq!(cpu.index_register(), 0xB * 5);
    // the glyph region holds the built-in font: glyph 0 starts 0xF0
    assert_eq!(cpu.memory_byte(0), 0xF0);
}

#[test]
fn bcd_writes_the_three_digits() {
    // MOV V0,229; MOV I,0x300; BCD V0
    let mut cpu = boot(&[0x60E5, 0xA300, 0xF033]);
    step_ok(&mut cpu, 3);
    assert_eq!(cpu.memory_byte(0x300), 2);
    assert_eq!(cpu.memory_byte(0x301), 2);
    assert_eq!(cpu.memory_byte(0x302), 9);
}

#[test]
fn str_then_ld_restores_registers() {
    // MOV V0,11; MOV V1,22; MOV V2,33; MOV I,0x300; STR [I],V2;
    // MOV V0,0; MOV V1,0; MOV V2,0; LD V2,[I]
    let mut cpu = boot(&[
        0x600B, 0x6116, 0x6221, 0xA300, 0xF255, 0x6000, 0x6100, 0x6200, 0xF265,
    ]);
    step_ok(&mut cpu, 8);
    assert_eq!(cpu.register(0), 0);
    assert_eq!(cpu.register(1), 0);
    assert_eq!(cpu.register(2), 0);
    step_ok(&mut cpu, 1);
    assert_eq!(cpu.register(0), 11);
    assert_eq!(cpu.register(1), 22);
    assert_eq!(cpu.register(2), 33);
}

#[test]
fn str_writes_through_memory() {
    // MOV V0,11; MOV V1,22; MOV I,0x300; STR [I],V1
    let mut cpu = boot(&[0x600B, 0x6116, 0xA300, 0xF155]);
    step_ok(&mut cpu, 4);
    assert_eq!(cpu.memory_byte(0x300), 11);
    assert_eq!(cpu.memory_byte(0x301), 22);
    assert_eq!(cpu.memory_byte(0x302), 0);
}
