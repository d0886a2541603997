use chip8_core::{Emu, SCREEN_HEIGHT, SCREEN_WIDTH};

fn machine(program: &[u8]) -> Emu {
    let mut emu = Emu::new();
    emu.load(program);
    emu
}

fn run(emu: &mut Emu, steps: usize) {
    for _ in 0..steps {
        assert_eq!(emu.tick_with(0), Ok(()));
    }
}

fn lit_pixels(emu: &Emu) -> Vec<(usize, usize)> {
    let mut lit = Vec::new();
    for y in 0..SCREEN_HEIGHT {
        for x in 0..SCREEN_WIDTH {
            if emu.pixel(x, y) {
                lit.push((x, y));
            }
        }
    }
    lit
}

#[test]
fn screen_is_sixty_four_by_thirty_two() {
    assert_eq!(SCREEN_WIDTH, 64);
    assert_eq!(SCREEN_HEIGHT, 32);
    assert_eq!(Emu::new().get_display().len(), SCREEN_WIDTH * SCREEN_HEIGHT);
}

#[test]
fn display_is_row_major() {
    // One pixel at column 5 of row 3.
    let mut emu = machine(&[0xA2, 0x08, 0x60, 0x05, 0x61, 0x03, 0xD0, 0x11, 0x80]);
    run(&mut emu, 4);
    let display = emu.get_display();
    for (p, lit) in display.iter().enumerate() {
        assert_eq!(*lit, p == 3 * 64 + 5);
    }
    assert!(emu.pixel(5, 3));
}

#[test]
fn draw_glyph_at_origin() {
    // The glyph "0" is F0 90 90 90 F0.
    let mut emu = machine(&[0xA0, 0x00, 0xD0, 0x15]);
    run(&mut emu, 2);
    let expected = vec![
        (0, 0), (1, 0), (2, 0), (3, 0),
        (0, 1), (3, 1),
        (0, 2), (3, 2),
        (0, 3), (3, 3),
        (0, 4), (1, 4), (2, 4), (3, 4),
    ];
    assert_eq!(lit_pixels(&emu), expected);
    assert_eq!(emu.register(0xF), 0);
    assert_eq!(emu.index(), 0);
    assert_eq!(emu.pc(), 0x204);
}

#[test]
fn draw_twice_restores_screen_and_reports_collision() {
    // An 8 by 1 sprite, all lit, drawn twice at (0, 0).
    let mut emu = machine(&[0xA2, 0x08, 0xD0, 0x11, 0xD0, 0x11, 0x00, 0x00, 0xFF]);
    run(&mut emu, 1);
    let before: Vec<bool> = emu.get_display().to_vec();
    run(&mut emu, 1);
    assert_eq!(lit_pixels(&emu), (0..8).map(|x| (x, 0)).collect::<Vec<_>>());
    assert_eq!(emu.register(0xF), 0);
    run(&mut emu, 1);
    assert_eq!(emu.get_display().to_vec(), before);
    assert_eq!(emu.register(0xF), 1);
}

#[test]
fn draw_twice_over_a_picture_restores_it() {
    // Draw "0" at (0, 0), then "1" twice at (2, 1), overlapping it.
    let mut emu = machine(&[
        0xA0, 0x00, 0xD0, 0x05, 0xA0, 0x05, 0x61, 0x02, 0x62, 0x01, 0xD1, 0x25, 0xD1, 0x25,
    ]);
    run(&mut emu, 5);
    let before: Vec<bool> = emu.get_display().to_vec();
    run(&mut emu, 1);
    assert_ne!(emu.get_display().to_vec(), before);
    run(&mut emu, 1);
    assert_eq!(emu.get_display().to_vec(), before);
    assert_eq!(emu.register(0xF), 1);
}

#[test]
fn second_draw_of_an_empty_sprite_does_not_collide() {
    let mut emu = machine(&[0xA3, 0x00, 0xD0, 0x11, 0xD0, 0x11]);
    run(&mut emu, 3);
    assert!(lit_pixels(&emu).is_empty());
    assert_eq!(emu.register(0xF), 0);
}

#[test]
fn collision_only_where_a_lit_pixel_goes_dark() {
    // 0xF0 at (0, 0), then 0x0F at (0, 0): no overlap, no collision.
    let mut emu = machine(&[0xA2, 0x0A, 0xD0, 0x11, 0xA2, 0x0B, 0xD0, 0x11, 0x00, 0x00, 0xF0, 0x0F, 0x18]);
    run(&mut emu, 4);
    assert_eq!(emu.register(0xF), 0);
    assert_eq!(lit_pixels(&emu), (0..8).map(|x| (x, 0)).collect::<Vec<_>>());
    // 0x18 at (0, 0) turns columns 3 and 4 off.
    let mut emu = machine(&[
        0xA2, 0x0E, 0xD0, 0x11, 0xA2, 0x0F, 0xD0, 0x11, 0xA2, 0x10, 0xD0, 0x11, 0x00, 0x00, 0xF0,
        0x0F, 0x18,
    ]);
    run(&mut emu, 6);
    assert_eq!(emu.register(0xF), 1);
    assert_eq!(lit_pixels(&emu), vec![(0, 0), (1, 0), (2, 0), (5, 0), (6, 0), (7, 0)]);
}

#[test]
fn draw_clears_a_stale_flag() {
    let mut emu = machine(&[0x6F, 0x01, 0xA2, 0x08, 0xD0, 0x11, 0x00, 0x00, 0xFF]);
    run(&mut emu, 3);
    assert_eq!(emu.register(0xF), 0);
}

#[test]
fn sprite_is_clipped_at_the_right_edge() {
    let mut emu = machine(&[0xA2, 0x08, 0x60, 0x3C, 0xD0, 0x12, 0x00, 0x00, 0xFF, 0xFF]);
    run(&mut emu, 3);
    assert_eq!(
        lit_pixels(&emu),
        vec![(60, 0), (61, 0), (62, 0), (63, 0), (60, 1), (61, 1), (62, 1), (63, 1)]
    );
}

#[test]
fn sprite_is_clipped_at_the_bottom_edge() {
    let mut emu = machine(&[0xA2, 0x08, 0x61, 0x1F, 0xD0, 0x13, 0x00, 0x00, 0xC0, 0xC0, 0xC0]);
    run(&mut emu, 3);
    assert_eq!(lit_pixels(&emu), vec![(0, 31), (1, 31)]);
}

#[test]
fn sprite_is_clipped_at_the_corner() {
    let mut emu = machine(&[
        0xA2, 0x0A, 0x60, 0x3F, 0x61, 0x1F, 0xD0, 0x12, 0x00, 0x00, 0xFF, 0xFF,
    ]);
    run(&mut emu, 4);
    assert_eq!(lit_pixels(&emu), vec![(63, 31)]);
    assert_eq!(emu.register(0xF), 0);
}

#[test]
fn clipped_pixels_cannot_collide() {
    // Light (0, 0), then draw a full row from column 63: only (63, 0) is drawn.
    let mut emu = machine(&[
        0xA2, 0x0A, 0xD0, 0x11, 0x61, 0x3F, 0xD1, 0x01, 0x00, 0x00, 0xFF,
    ]);
    run(&mut emu, 4);
    assert_eq!(emu.register(0xF), 0);
    assert!(emu.pixel(0, 0));
    assert!(emu.pixel(63, 0));
    assert!(!emu.pixel(0, 1));
}

#[test]
fn start_coordinates_wrap_modulo_screen_size() {
    // V0 = 66 is column 2; V1 = 33 is row 1.
    let mut emu = machine(&[0xA2, 0x0A, 0x60, 0x42, 0x61, 0x21, 0xD0, 0x11, 0x00, 0x00, 0x80]);
    run(&mut emu, 4);
    assert_eq!(lit_pixels(&emu), vec![(2, 1)]);
}

#[test]
fn draw_with_no_rows_draws_nothing_and_clears_flag() {
    let mut emu = machine(&[0x6F, 0x05, 0xA0, 0x00, 0xD0, 0x10]);
    run(&mut emu, 3);
    assert!(lit_pixels(&emu).is_empty());
    assert_eq!(emu.register(0xF), 0);
}

#[test]
fn draw_reads_coordinates_before_it_clears_the_flag() {
    // VF = 3 is the column: the sprite lands at (3, 0).
    let mut emu = machine(&[0x6F, 0x03, 0xA2, 0x08, 0xDF, 0x01, 0x00, 0x00, 0x80]);
    run(&mut emu, 3);
    assert_eq!(lit_pixels(&emu), vec![(3, 0)]);
    assert_eq!(emu.register(0xF), 0);
}

#[test]
fn draw_reads_fifteen_rows() {
    let mut program = vec![0xA2, 0x04, 0xD0, 0x0F];
    program.extend(std::iter::repeat(0x01).take(15));
    let mut emu = machine(&program);
    run(&mut emu, 2);
    assert_eq!(lit_pixels(&emu), (0..15).map(|y| (7, y)).collect::<Vec<_>>());
}

#[test]
fn sprite_rows_wrap_round_the_end_of_memory() {
    // Rows at 0xFFF and 0x000: the stored byte 0x80, then the glyph byte 0xF0.
    let mut emu = machine(&[0x60, 0x80, 0xAF, 0xFF, 0xF0, 0x55, 0x60, 0x00, 0xD0, 0x02]);
    run(&mut emu, 5);
    assert_eq!(lit_pixels(&emu), vec![(0, 0), (0, 1), (1, 1), (2, 1), (3, 1)]);
}

#[test]
fn clear_screen_darkens_every_pixel() {
    let mut emu = machine(&[0xA0, 0x00, 0xD0, 0x15, 0x00, 0xE0]);
    run(&mut emu, 2);
    assert!(!lit_pixels(&emu).is_empty());
    run(&mut emu, 1);
    assert!(emu.get_display().iter().all(|p| !*p));
    assert!(lit_pixels(&emu).is_empty());
    assert_eq!(emu.pc(), 0x206);
}

#[test]
fn clear_screen_touches_nothing_else() {
    let mut emu = machine(&[0x61, 0x09, 0xA1, 0x23, 0x6F, 0x01, 0x00, 0xE0]);
    run(&mut emu, 4);
    assert_eq!(emu.register(1), 0x09);
    assert_eq!(emu.register(0xF), 0x01);
    assert_eq!(emu.index(), 0x123);
}
