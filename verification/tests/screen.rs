use chip8::emulator::screen::{BitPlane, Screen};

/// The cells that are lit, by colour index, as `(x, y, value)`.
fn lit_cells(screen: &Screen) -> Vec<(usize, usize, u8)> {
    let mut cells = Vec::new();
    for y in 0..64 {
        for x in 0..128 {
            let value = screen.get_pixel(x, y);
            if value != 0 {
                cells.push((x, y, value));
            }
        }
    }
    cells
}

fn is_blank(screen: &Screen) -> bool {
    lit_cells(screen).is_empty()
}

#[test]
fn a_new_screen_is_blank_and_in_low_resolution() {
    let screen = Screen::new();
    assert!(screen.is_lowres());
    assert!(is_blank(&screen));
}

#[test]
fn a_new_plane_equals_a_cleared_one() {
    let mut plane = BitPlane::new();
    plane.clear();
    assert_eq!(plane, BitPlane::new());
}

#[test]
fn the_resolution_toggles() {
    let mut screen = Screen::new();
    screen.enable_hires();
    assert!(!screen.is_lowres());
    screen.disable_hires();
    assert!(screen.is_lowres());
}

#[test]
fn a_low_resolution_pixel_takes_four_cells() {
    let mut screen = Screen::new();
    let collisions = screen.draw_sprite(&[0x80], 3, 5, 1);
    assert_eq!(collisions, 0);
    assert_eq!(lit_cells(&screen), vec![(6, 10, 1), (7, 10, 1), (6, 11, 1), (7, 11, 1)]);
}

#[test]
fn a_high_resolution_pixel_takes_one_cell() {
    let mut screen = Screen::new();
    screen.enable_hires();
    let collisions = screen.draw_sprite(&[0x80], 3, 5, 1);
    assert_eq!(collisions, 0);
    assert_eq!(lit_cells(&screen), vec![(3, 5, 1)]);
}

#[test]
fn the_bits_of_a_row_run_from_the_most_significant() {
    let mut screen = Screen::new();
    screen.enable_hires();
    screen.draw_sprite(&[0b1010_0001], 10, 0, 1);
    assert_eq!(lit_cells(&screen), vec![(10, 0, 1), (12, 0, 1), (17, 0, 1)]);
}

#[test]
fn the_rows_of_a_sprite_run_downwards() {
    let mut screen = Screen::new();
    screen.enable_hires();
    screen.draw_sprite(&[0x80, 0x40, 0x20], 0, 7, 3);
    assert_eq!(lit_cells(&screen), vec![(0, 7, 1), (1, 8, 1), (2, 9, 1)]);
}

#[test]
fn a_draw_takes_no_more_rows_than_its_height() {
    let mut screen = Screen::new();
    screen.enable_hires();
    screen.draw_sprite(&[0x80, 0x80, 0x80, 0x80], 0, 0, 2);
    assert_eq!(lit_cells(&screen), vec![(0, 0, 1), (0, 1, 1)]);
}

#[test]
fn a_short_sprite_draws_the_rows_that_are_there() {
    let mut screen = Screen::new();
    screen.enable_hires();
    let collisions = screen.draw_sprite(&[0x80, 0x80], 0, 0, 5);
    assert_eq!(collisions, 0);
    assert_eq!(lit_cells(&screen), vec![(0, 0, 1), (0, 1, 1)]);
    let mut empty = Screen::new();
    assert_eq!(empty.draw_sprite(&[], 0, 0, 5), 0);
    assert!(is_blank(&empty));
}

#[test]
fn drawing_twice_restores_the_screen() {
    let sprite = [0xF0, 0x90, 0x90, 0x90, 0xF0];
    let mut screen = Screen::new();
    let first = screen.draw_sprite(&sprite, 10, 4, 5);
    assert_eq!(first, 0);
    assert!(!is_blank(&screen));
    let second = screen.draw_sprite(&sprite, 10, 4, 5);
    // every bit that is set collides: 4 + 2 + 2 + 2 + 4
    assert_eq!(second, 14);
    assert!(is_blank(&screen));
    assert_eq!(screen, Screen::new());
}

#[test]
fn drawing_twice_restores_a_screen_that_was_not_blank() {
    let mut screen = Screen::new();
    screen.enable_hires();
    screen.draw_sprite(&[0xFF, 0x81, 0xFF], 8, 8, 3);
    let before = screen;
    screen.draw_sprite(&[0x3C, 0x3C], 10, 9, 2);
    assert_ne!(screen, before);
    screen.draw_sprite(&[0x3C, 0x3C], 10, 9, 2);
    assert_eq!(screen, before);
}

#[test]
fn a_collision_is_counted_for_each_bit_that_hits_a_lit_pixel() {
    let mut screen = Screen::new();
    screen.enable_hires();
    assert_eq!(screen.draw_sprite(&[0b1111_0000], 0, 0, 1), 0);
    // two of the four bits that are set hit lit cells
    assert_eq!(screen.draw_sprite(&[0b0011_1100], 0, 0, 1), 2);
    assert_eq!(lit_cells(&screen), vec![(0, 0, 1), (1, 0, 1), (4, 0, 1), (5, 0, 1)]);
}

#[test]
fn a_clear_bit_never_collides_on_the_grid() {
    let mut screen = Screen::new();
    screen.draw_sprite(&[0xFF], 0, 0, 1);
    let before = screen;
    assert_eq!(screen.draw_sprite(&[0x00], 0, 0, 1), 0);
    assert_eq!(screen, before);
}

#[test]
fn low_resolution_draws_wrap_around() {
    let sprite = [0xF0, 0x90, 0x90, 0x90, 0xF0];
    let mut wrapped = Screen::new();
    let mut plain = Screen::new();
    let a = wrapped.draw_sprite(&sprite, 65, 33, 5);
    let b = plain.draw_sprite(&sprite, 1, 1, 5);
    assert_eq!(a, b);
    assert_eq!(wrapped, plain);
    assert!(!is_blank(&plain));
}

#[test]
fn a_low_resolution_sprite_wraps_across_the_edges() {
    let mut screen = Screen::new();
    let collisions = screen.draw_sprite(&[0xC0, 0xC0], 63, 31, 2);
    assert_eq!(collisions, 0);
    // logical pixels (63, 31), (0, 31), (63, 0) and (0, 0)
    let mut cells = Vec::new();
    for (lx, ly) in [(0, 0), (63, 0), (0, 31), (63, 31)] {
        for dy in 0..2 {
            for dx in 0..2 {
                cells.push((2 * lx + dx, 2 * ly + dy, 1u8));
            }
        }
    }
    cells.sort_by_key(|&(x, y, _)| (y, x));
    assert_eq!(lit_cells(&screen), cells);
}

#[test]
fn high_resolution_draws_are_clipped_on_the_right() {
    let mut screen = Screen::new();
    screen.enable_hires();
    // four bits land on the grid, four fall off it and count as collisions
    let collisions = screen.draw_sprite(&[0xFF], 124, 0, 1);
    assert_eq!(collisions, 4);
    assert_eq!(lit_cells(&screen), vec![(124, 0, 1), (125, 0, 1), (126, 0, 1), (127, 0, 1)]);
}

#[test]
fn high_resolution_draws_are_clipped_at_the_bottom() {
    let mut screen = Screen::new();
    screen.enable_hires();
    // the second row falls off the grid with all its eight bits, set or not
    let collisions = screen.draw_sprite(&[0x80, 0x80], 0, 63, 2);
    assert_eq!(collisions, 8);
    assert_eq!(lit_cells(&screen), vec![(0, 63, 1)]);
}

#[test]
fn a_high_resolution_draw_far_outside_changes_nothing() {
    let mut screen = Screen::new();
    screen.enable_hires();
    let collisions = screen.draw_sprite(&[0xFF, 0x00], usize::MAX, usize::MAX, 2);
    assert_eq!(collisions, 16);
    assert!(is_blank(&screen));
}

#[test]
fn a_low_resolution_draw_far_outside_wraps() {
    let mut far = Screen::new();
    let mut near = Screen::new();
    far.draw_sprite(&[0xA5], usize::MAX, usize::MAX, 1);
    near.draw_sprite(&[0xA5], usize::MAX % 64, usize::MAX % 32, 1);
    assert_eq!(far, near);
}

#[test]
fn the_large_sprite_in_low_resolution_has_sixteen_rows_of_one_byte() {
    let mut sprite = [0u8; 32];
    for row in 0..32 {
        sprite[row] = 0x80;
    }
    let mut screen = Screen::new();
    let collisions = screen.draw_sprite(&sprite, 0, 0, 0);
    assert_eq!(collisions, 0);
    let cells = lit_cells(&screen);
    // 16 logical pixels in the first logical column
    assert_eq!(cells.len(), 16 * 4);
    assert!(cells.iter().all(|&(x, y, v)| x < 2 && y < 32 && v == 1));
}

#[test]
fn the_large_sprite_in_high_resolution_has_sixteen_rows_of_two_bytes() {
    let mut sprite = [0u8; 32];
    for row in 0..16 {
        sprite[2 * row] = 0x80;
        sprite[2 * row + 1] = 0x01;
    }
    let mut screen = Screen::new();
    screen.enable_hires();
    let collisions = screen.draw_sprite(&sprite, 20, 30, 0);
    assert_eq!(collisions, 0);
    let mut expected = Vec::new();
    for row in 0..16 {
        expected.push((20, 30 + row, 1u8));
        expected.push((35, 30 + row, 1u8));
    }
    assert_eq!(lit_cells(&screen), expected);
}

#[test]
fn the_large_sprite_collides_with_itself_in_every_bit() {
    let sprite = [0xFFu8; 32];
    let mut screen = Screen::new();
    screen.enable_hires();
    assert_eq!(screen.draw_sprite(&sprite, 0, 0, 0), 0);
    assert_eq!(screen.draw_sprite(&sprite, 0, 0, 0), 256);
    assert!(is_blank(&screen));
}

#[test]
fn only_the_selected_planes_are_drawn_on() {
    let mut screen = Screen::new();
    screen.enable_hires();
    screen.select_planes(false, true);
    screen.draw_sprite(&[0x80], 0, 0, 1);
    assert_eq!(lit_cells(&screen), vec![(0, 0, 2)]);
    screen.select_planes(false, false);
    assert_eq!(screen.draw_sprite(&[0xFF], 0, 0, 1), 0);
    assert_eq!(lit_cells(&screen), vec![(0, 0, 2)]);
}

#[test]
fn two_selected_planes_consume_the_sprite_one_after_the_other() {
    let mut screen = Screen::new();
    screen.enable_hires();
    screen.select_planes(true, true);
    // two rows for the first plane, then two rows for the second
    let collisions = screen.draw_sprite(&[0x80, 0x40, 0x80, 0x20], 0, 0, 2);
    assert_eq!(collisions, 0);
    assert_eq!(lit_cells(&screen), vec![(0, 0, 3), (1, 1, 1), (2, 1, 2)]);
}

#[test]
fn the_second_plane_draws_what_is_left_of_a_short_sprite() {
    let mut screen = Screen::new();
    screen.enable_hires();
    screen.select_planes(true, true);
    screen.draw_sprite(&[0x80, 0x80, 0x40], 0, 0, 2);
    assert_eq!(lit_cells(&screen), vec![(0, 0, 1), (1, 0, 2), (0, 1, 1)]);
    let mut other = Screen::new();
    other.enable_hires();
    other.select_planes(true, true);
    other.draw_sprite(&[0x80], 0, 0, 2);
    assert_eq!(lit_cells(&other), vec![(0, 0, 1)]);
}

#[test]
fn collisions_are_summed_over_the_planes() {
    let mut screen = Screen::new();
    screen.enable_hires();
    screen.select_planes(true, true);
    screen.draw_sprite(&[0xC0, 0xE0], 0, 0, 1);
    assert_eq!(screen.draw_sprite(&[0xC0, 0xE0], 0, 0, 1), 5);
    assert!(is_blank(&screen));
}

#[test]
fn clear_reaches_the_selected_planes_only() {
    let mut screen = Screen::new();
    screen.enable_hires();
    screen.select_planes(true, true);
    screen.draw_sprite(&[0x80, 0x40], 0, 0, 1);
    screen.select_planes(true, false);
    screen.clear();
    assert_eq!(lit_cells(&screen), vec![(1, 0, 2)]);
    screen.select_planes(false, true);
    screen.clear();
    assert!(is_blank(&screen));
}

#[test]
fn a_change_of_resolution_clears_nothing() {
    let mut screen = Screen::new();
    screen.draw_sprite(&[0x80], 1, 1, 1);
    let cells = lit_cells(&screen);
    screen.enable_hires();
    assert_eq!(lit_cells(&screen), cells);
    screen.disable_hires();
    assert_eq!(lit_cells(&screen), cells);
}

#[test]
fn the_text_dump_of_a_blank_screen() {
    let screen = Screen::new();
    let mut out = Vec::new();
    screen.write(&mut out);
    assert_eq!(out.len(), 64 * 129);
    for (i, &byte) in out.iter().enumerate() {
        assert_eq!(byte, if i % 129 == 128 { b'\n' } else { b' ' });
    }
}

#[test]
fn the_text_dump_shows_each_plane_with_its_own_character() {
    let mut screen = Screen::new();
    screen.enable_hires();
    screen.select_planes(true, true);
    screen.draw_sprite(&[0xC0, 0x60], 0, 1, 1);
    let mut out = vec![b'#'];
    screen.write(&mut out);
    assert_eq!(out.len(), 1 + 64 * 129);
    assert_eq!(out[0], b'#');
    let line = &out[1 + 129..1 + 2 * 129];
    assert_eq!(&line[..4], b"O@+ ");
    assert_eq!(line[128], b'\n');
    assert!(out[1..1 + 129].iter().take(128).all(|&b| b == b' '));
}

#[test]
fn the_pixel_buffer_of_a_screen() {
    let mut screen = Screen::new();
    screen.enable_hires();
    screen.select_planes(true, true);
    screen.draw_sprite(&[0xC0, 0x60], 0, 0, 1);
    let mut buffer = vec![7u8; 128 * 64 * 4];
    screen.render_to_pixel_buffer(&mut buffer);
    assert_eq!(&buffer[0..4], &[255, 255, 255, 255]);
    assert_eq!(&buffer[4..8], &[128, 240, 128, 255]);
    assert_eq!(&buffer[8..12], &[0, 255, 0, 255]);
    assert_eq!(&buffer[12..16], &[0, 0, 0, 255]);
    // the first pixel of the second row
    assert_eq!(&buffer[128 * 4..128 * 4 + 4], &[0, 0, 0, 255]);
}

#[test]
fn a_pixel_buffer_is_filled_as_far_as_it_holds_whole_pixels() {
    let mut screen = Screen::new();
    screen.draw_sprite(&[0x80], 0, 0, 1);
    let mut short = vec![7u8; 10];
    screen.render_to_pixel_buffer(&mut short);
    assert_eq!(short, vec![255, 255, 255, 255, 255, 255, 255, 255, 7, 7]);
    let mut long = vec![7u8; 128 * 64 * 4 + 5];
    screen.render_to_pixel_buffer(&mut long);
    assert_eq!(&long[128 * 64 * 4 - 4..128 * 64 * 4], &[0, 0, 0, 255]);
    assert_eq!(&long[128 * 64 * 4..], &[7, 7, 7, 7, 7]);
}

#[test]
fn the_rows_of_the_pixel_buffer_follow_the_grid() {
    let mut screen = Screen::new();
    screen.enable_hires();
    screen.draw_sprite(&[0x80], 5, 3, 1);
    let mut buffer = vec![0u8; 128 * 64 * 4];
    screen.render_to_pixel_buffer(&mut buffer);
    for pixel in 0..128 * 64 {
        let expected: [u8; 4] = if pixel == 3 * 128 + 5 { [255, 255, 255, 255] } else { [0, 0, 0, 255] };
        assert_eq!(&buffer[4 * pixel..4 * pixel + 4], &expected);
    }
}

#[test]
fn two_planes_share_a_large_sprite_of_sixty_four_bytes() {
    let mut sprite = [0u8; 64];
    sprite[0] = 0x80;
    sprite[31] = 0x01;
    sprite[32] = 0x40;
    sprite[63] = 0x02;
    let mut screen = Screen::new();
    screen.enable_hires();
    screen.select_planes(true, true);
    assert_eq!(screen.draw_sprite(&sprite, 0, 0, 0), 0);
    assert_eq!(lit_cells(&screen), vec![(0, 0, 1), (1, 0, 2), (14, 15, 2), (15, 15, 1)]);
}

#[test]
fn half_a_row_of_a_large_sprite_is_not_drawn() {
    let mut screen = Screen::new();
    screen.enable_hires();
    // two rows of two bytes, and one byte more
    assert_eq!(screen.draw_sprite(&[0x80, 0x00, 0x80, 0x00, 0xFF], 0, 0, 0), 0);
    assert_eq!(lit_cells(&screen), vec![(0, 0, 1), (0, 1, 1)]);
}

#[test]
fn a_sprite_of_more_rows_than_the_logical_grid_meets_itself() {
    // in low resolution row 32 falls on row 0 again
    let mut sprite = [0u8; 33];
    sprite[0] = 0x80;
    sprite[32] = 0x80;
    let mut screen = Screen::new();
    assert_eq!(screen.draw_sprite(&sprite, 0, 0, 33), 1);
    assert!(is_blank(&screen));
    // the second draw collides once, though two bits are set
    assert_eq!(screen.draw_sprite(&sprite, 0, 0, 33), 1);
}
