use chip8_core::Emu;

fn machine(program: &[u8]) -> Emu {
    let mut emu = Emu::new();
    emu.load(program);
    emu
}

fn run(emu: &mut Emu, steps: usize) {
    for _ in 0..steps {
        assert_eq!(emu.tick_with(0), Ok(()));
    }
}

#[test]
fn load_copies_program_to_start_address() {
    let emu = machine(&[0x12, 0x34, 0x56]);
    assert_eq!(emu.memory(0x1FF), 0);
    assert_eq!(emu.memory(0x200), 0x12);
    assert_eq!(emu.memory(0x201), 0x34);
    assert_eq!(emu.memory(0x202), 0x56);
    assert_eq!(emu.memory(0x203), 0);
    assert_eq!(emu.memory(0), 0xF0);
    assert_eq!(emu.pc(), 0x200);
}

#[test]
fn load_of_nothing_changes_nothing() {
    let emu = machine(&[]);
    for addr in 0x200..0x1000u16 {
        assert_eq!(emu.memory(addr), 0);
    }
}

#[test]
fn load_fills_memory_to_the_end() {
    let program: Vec<u8> = (0..3584usize).map(|k| (k % 251) as u8 + 1).collect();
    let emu = machine(&program);
    assert_eq!(emu.memory(0x200), 1);
    assert_eq!(emu.memory(0xFFF), (3583 % 251) as u8 + 1);
    assert_eq!(emu.memory(0x1FF), 0);
    assert_eq!(emu.memory(0x000), 0xF0);
}

#[test]
fn second_load_overwrites_only_its_own_length() {
    let mut emu = machine(&[1, 2, 3, 4]);
    emu.load(&[9, 8]);
    assert_eq!(emu.memory(0x200), 9);
    assert_eq!(emu.memory(0x201), 8);
    assert_eq!(emu.memory(0x202), 3);
    assert_eq!(emu.memory(0x203), 4);
}

#[test]
fn memory_reads_by_low_twelve_bits() {
    let emu = machine(&[0xAB]);
    assert_eq!(emu.memory(0x1200), 0xAB);
    assert_eq!(emu.memory(0xF200), 0xAB);
    assert_eq!(emu.memory(0x1000), 0xF0);
}

#[test]
fn set_index() {
    let mut emu = machine(&[0xAF, 0xED]);
    run(&mut emu, 1);
    assert_eq!(emu.index(), 0xFED);
}

#[test]
fn add_register_to_index_without_flag() {
    let mut emu = machine(&[0xA1, 0x00, 0x61, 0x23, 0xF1, 0x1E]);
    run(&mut emu, 3);
    assert_eq!(emu.index(), 0x123);
    assert_eq!(emu.register(0xF), 0);
}

#[test]
fn index_grows_past_twelve_bits_without_flag() {
    let mut emu = machine(&[0x6F, 0x07, 0xAF, 0xFF, 0x61, 0xFF, 0xF1, 0x1E]);
    run(&mut emu, 4);
    assert_eq!(emu.index(), 0x10FE);
    assert_eq!(emu.register(0xF), 0x07);
}

#[test]
fn index_wraps_at_sixteen_bits() {
    // I = 0xFFF, then add 0xFF 241 times: 0xFFF + 241 * 255 = 65550 = 65536 + 14.
    let mut program = vec![0xAF, 0xFF, 0x61, 0xFF];
    for _ in 0..241 {
        program.push(0xF1);
        program.push(0x1E);
    }
    let mut emu = machine(&program);
    run(&mut emu, 2 + 240);
    assert_eq!(emu.index(), 0xFFF + 240 * 255);
    run(&mut emu, 1);
    assert_eq!(emu.index(), 14);
    assert_eq!(emu.register(0xF), 0);
}

#[test]
fn glyph_address_is_five_times_the_digit() {
    let mut emu = machine(&[0x61, 0x0A, 0xF1, 0x29]);
    run(&mut emu, 2);
    assert_eq!(emu.index(), 50);
    let mut emu = machine(&[0x61, 0x00, 0xF1, 0x29]);
    run(&mut emu, 2);
    assert_eq!(emu.index(), 0);
    let mut emu = machine(&[0x61, 0xFF, 0xF1, 0x29]);
    run(&mut emu, 2);
    assert_eq!(emu.index(), 1275);
}

#[test]
fn glyph_address_points_at_the_glyph() {
    let mut emu = machine(&[0x61, 0x0F, 0xF1, 0x29, 0xD0, 0x05]);
    run(&mut emu, 3);
    // "F" is F0 80 F0 80 80.
    assert!(emu.pixel(0, 0) && emu.pixel(3, 0));
    assert!(emu.pixel(0, 1) && !emu.pixel(1, 1));
    assert!(emu.pixel(3, 2));
    assert!(emu.pixel(0, 4) && !emu.pixel(1, 4));
}

#[test]
fn bcd_of_123() {
    let mut emu = machine(&[0x61, 0x7B, 0xA3, 0x00, 0xF1, 0x33]);
    run(&mut emu, 3);
    assert_eq!(emu.memory(0x300), 1);
    assert_eq!(emu.memory(0x301), 2);
    assert_eq!(emu.memory(0x302), 3);
    assert_eq!(emu.memory(0x303), 0);
    assert_eq!(emu.index(), 0x300);
    assert_eq!(emu.register(1), 123);
}

#[test]
fn bcd_of_extremes() {
    let mut emu = machine(&[0x61, 0xFF, 0xA3, 0x00, 0xF1, 0x33]);
    run(&mut emu, 3);
    assert_eq!([emu.memory(0x300), emu.memory(0x301), emu.memory(0x302)], [2, 5, 5]);
    let mut emu = machine(&[0x61, 0x00, 0xA3, 0x00, 0xF1, 0x33]);
    run(&mut emu, 3);
    assert_eq!([emu.memory(0x300), emu.memory(0x301), emu.memory(0x302)], [0, 0, 0]);
    let mut emu = machine(&[0x61, 0x07, 0xA3, 0x00, 0xF1, 0x33]);
    run(&mut emu, 3);
    assert_eq!([emu.memory(0x300), emu.memory(0x301), emu.memory(0x302)], [0, 0, 7]);
    let mut emu = machine(&[0x61, 0x64, 0xA3, 0x00, 0xF1, 0x33]);
    run(&mut emu, 3);
    assert_eq!([emu.memory(0x300), emu.memory(0x301), emu.memory(0x302)], [1, 0, 0]);
}

#[test]
fn bcd_wraps_round_the_end_of_memory() {
    let mut emu = machine(&[0x61, 0x7B, 0xAF, 0xFE, 0xF1, 0x33]);
    run(&mut emu, 3);
    assert_eq!(emu.memory(0xFFE), 1);
    assert_eq!(emu.memory(0xFFF), 2);
    assert_eq!(emu.memory(0x000), 3);
    assert_eq!(emu.memory(0x001), 0x90);
}

#[test]
fn store_registers_up_to_x_inclusive() {
    let mut emu = machine(&[0x60, 0x11, 0x61, 0x22, 0x62, 0x33, 0x63, 0x44, 0xA3, 0x00, 0xF2, 0x55]);
    run(&mut emu, 6);
    assert_eq!(emu.memory(0x300), 0x11);
    assert_eq!(emu.memory(0x301), 0x22);
    assert_eq!(emu.memory(0x302), 0x33);
    assert_eq!(emu.memory(0x303), 0x00);
    assert_eq!(emu.index(), 0x300);
    assert_eq!(emu.register(3), 0x44);
}

#[test]
fn store_of_v0_alone_writes_one_cell() {
    let mut emu = machine(&[0x60, 0x11, 0x61, 0x22, 0xA3, 0x00, 0xF0, 0x55]);
    run(&mut emu, 4);
    assert_eq!(emu.memory(0x300), 0x11);
    assert_eq!(emu.memory(0x301), 0x00);
}

#[test]
fn store_wraps_round_the_end_of_memory() {
    let mut emu = machine(&[0x60, 0xAA, 0x61, 0xBB, 0xAF, 0xFF, 0xF1, 0x55]);
    run(&mut emu, 4);
    assert_eq!(emu.memory(0xFFF), 0xAA);
    assert_eq!(emu.memory(0x000), 0xBB);
    assert_eq!(emu.memory(0x001), 0x90);
    assert_eq!(emu.index(), 0xFFF);
}

#[test]
fn load_registers_up_to_x_inclusive() {
    // The data follow the program at 0x206.
    let mut emu = machine(&[0x63, 0x77, 0xA2, 0x06, 0xF2, 0x65, 0x0A, 0x0B, 0x0C, 0x0D]);
    run(&mut emu, 3);
    assert_eq!(emu.register(0), 0x0A);
    assert_eq!(emu.register(1), 0x0B);
    assert_eq!(emu.register(2), 0x0C);
    assert_eq!(emu.register(3), 0x77);
    assert_eq!(emu.index(), 0x206);
    assert_eq!(emu.memory(0x206), 0x0A);
}

#[test]
fn store_reset_load_restores_registers() {
    let mut program = Vec::new();
    // V0..VF = 0x10, 0x21, .., 0xFF in steps of 0x11, offset by 0x10.
    for x in 0..16u8 {
        program.push(0x60 | x);
        program.push(0x10u8.wrapping_add(x.wrapping_mul(0x0F)));
    }
    program.extend([0xA4, 0x00, 0xFF, 0x55]);
    for x in 0..16u8 {
        program.push(0x60 | x);
        program.push(0x00);
    }
    program.extend([0xFF, 0x65]);
    let mut emu = machine(&program);
    run(&mut emu, 18);
    let saved: Vec<u8> = (0..16).map(|x| emu.register(x)).collect();
    assert_eq!(saved[0], 0x10);
    assert_eq!(saved[15], 0x10 + 15 * 0x0F);
    run(&mut emu, 16);
    for x in 0..16 {
        assert_eq!(emu.register(x), 0);
    }
    run(&mut emu, 1);
    let restored: Vec<u8> = (0..16).map(|x| emu.register(x)).collect();
    assert_eq!(restored, saved);
    assert_eq!(emu.index(), 0x400);
}

#[test]
fn store_then_load_a_prefix_restores_only_the_prefix() {
    let mut emu = machine(&[
        0x60, 0x11, 0x61, 0x22, 0x62, 0x33, 0xA4, 0x00, 0xF1, 0x55, 0x60, 0x00, 0x61, 0x00, 0x62,
        0x00, 0xF1, 0x65,
    ]);
    run(&mut emu, 9);
    assert_eq!(emu.register(0), 0x11);
    assert_eq!(emu.register(1), 0x22);
    assert_eq!(emu.register(2), 0x00);
}

#[test]
fn bcd_digits_spell_every_value() {
    for val in 0..=255u8 {
        let mut emu = machine(&[0x61, val, 0xA3, 0x00, 0xF1, 0x33]);
        run(&mut emu, 3);
        let digits = [emu.memory(0x300), emu.memory(0x301), emu.memory(0x302)];
        assert!(digits.iter().all(|d| *d < 10));
        assert_eq!(100 * digits[0] as u16 + 10 * digits[1] as u16 + digits[2] as u16, val as u16);
    }
}
