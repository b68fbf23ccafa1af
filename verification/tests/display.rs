use chip8::display::Display;

fn lit_pixels(d: &Display) -> Vec<(usize, usize)> {
    let mut lit = Vec::new();
    for row in 0..32 {
        for col in 0..64 {
            if d.pixel(row, col) {
                lit.push((row, col));
            }
        }
    }
    lit
}

#[test]
fn new_display_is_blank() {
    let d = Display::new();
    assert!(lit_pixels(&d).is_empty());
}

#[test]
fn draw_puts_the_most_significant_bit_leftmost() {
    let mut d = Display::new();
    let collision = d.draw(0, 0, &[0b1000_0001]);
    assert!(!collision);
    assert_eq!(lit_pixels(&d), vec![(0, 0), (0, 7)]);
}

#[test]
fn draw_places_rows_below_each_other() {
    let mut d = Display::new();
    d.draw(10, 5, &[0xC0, 0x00, 0x01]);
    assert_eq!(lit_pixels(&d), vec![(5, 10), (5, 11), (7, 17)]);
}

#[test]
fn zero_bits_leave_pixels_alone() {
    let mut d = Display::new();
    d.draw(0, 0, &[0xFF]);
    let collision = d.draw(0, 0, &[0x00]);
    assert!(!collision);
    assert_eq!(lit_pixels(&d).len(), 8);
    let collision = d.draw(0, 0, &[0x0F]);
    assert!(collision);
    assert_eq!(lit_pixels(&d), vec![(0, 0), (0, 1), (0, 2), (0, 3)]);
}

#[test]
fn empty_sprite_changes_nothing() {
    let mut d = Display::new();
    d.draw(3, 3, &[0xFF]);
    let before = lit_pixels(&d);
    let collision = d.draw(3, 3, &[]);
    assert!(!collision);
    assert_eq!(lit_pixels(&d), before);
}

#[test]
fn drawing_twice_restores_the_display() {
    let mut d = Display::new();
    d.draw(7, 9, &[0xA5, 0x5A, 0xFF]);
    let before = lit_pixels(&d);
    let sprite = [0xF0, 0x90, 0x90, 0x90, 0xF0];
    let first = d.draw(5, 8, &sprite);
    assert!(first);
    assert_ne!(lit_pixels(&d), before);
    let second = d.draw(5, 8, &sprite);
    assert!(second);
    assert_eq!(lit_pixels(&d), before);
}

#[test]
fn an_even_number_of_draws_restores_the_display() {
    let mut d = Display::new();
    d.draw(62, 31, &[0x3C, 0xC3]);
    let before = lit_pixels(&d);
    let sprite = [0xFF, 0x81, 0xFF];
    d.draw(61, 30, &sprite);
    let once = lit_pixels(&d);
    for _ in 0..3 {
        d.draw(61, 30, &sprite);
    }
    assert_eq!(lit_pixels(&d), before);
    d.draw(61, 30, &sprite);
    assert_eq!(lit_pixels(&d), once);
}

#[test]
fn collision_only_when_a_lit_pixel_goes_out() {
    let mut d = Display::new();
    assert!(!d.draw(0, 0, &[0xF0]));
    assert!(!d.draw(4, 0, &[0xF0]));
    assert!(!d.draw(0, 1, &[0xFF]));
    assert!(d.draw(7, 0, &[0x80]));
    assert!(!d.pixel(0, 7));
    assert!(!d.draw(7, 0, &[0x80]));
    assert!(d.pixel(0, 7));
}

#[test]
fn draw_wraps_columns_at_the_right_edge() {
    let mut d = Display::new();
    let collision = d.draw(60, 30, &[0xFF, 0xFF]);
    assert!(!collision);
    let mut expected = Vec::new();
    for row in [30, 31] {
        for col in [0, 1, 2, 3, 60, 61, 62, 63] {
            expected.push((row, col));
        }
    }
    assert_eq!(lit_pixels(&d), expected);
}

#[test]
fn draw_wraps_rows_at_the_bottom_edge() {
    let mut d = Display::new();
    d.draw(0, 31, &[0x80, 0x40]);
    assert_eq!(lit_pixels(&d), vec![(0, 1), (31, 0)]);
}

#[test]
fn draw_takes_the_origin_modulo_the_size() {
    let mut a = Display::new();
    let mut b = Display::new();
    let mut c = Display::new();
    a.draw(5, 3, &[0xFF, 0x18]);
    b.draw(64 + 5, 32 * 7 + 3, &[0xFF, 0x18]);
    c.draw(usize::MAX - 58, usize::MAX - 28, &[0xFF, 0x18]);
    assert_eq!(lit_pixels(&a), lit_pixels(&b));
    assert_eq!(lit_pixels(&a), lit_pixels(&c));
    assert_eq!(lit_pixels(&a)[0], (3, 5));
}

#[test]
fn a_sprite_taller_than_the_display_collides_with_itself() {
    let mut d = Display::new();
    let mut sprite = [0u8; 33];
    sprite[0] = 0x80;
    sprite[1] = 0x80;
    sprite[32] = 0x80;
    let collision = d.draw(0, 0, &sprite);
    assert!(collision);
    assert_eq!(lit_pixels(&d), vec![(1, 0)]);
}

#[test]
fn clear_unsets_all_2048_pixels() {
    let mut d = Display::new();
    for row in 0..32 {
        d.draw(0, row, &[0xFF]);
        d.draw(8, row, &[0xFF]);
        d.draw(16, row, &[0xFF]);
        d.draw(24, row, &[0xFF]);
        d.draw(32, row, &[0xFF]);
        d.draw(40, row, &[0xFF]);
        d.draw(48, row, &[0xFF]);
        d.draw(56, row, &[0xFF]);
    }
    assert_eq!(lit_pixels(&d).len(), 2048);
    d.clear();
    assert!(lit_pixels(&d).is_empty());
    d.clear();
    assert!(lit_pixels(&d).is_empty());
}

#[test]
fn pack_rows_puts_the_leftmost_pixel_in_the_top_bit() {
    let mut d = Display::new();
    d.draw(0, 0, &[0x80]);
    d.draw(56, 1, &[0x01]);
    d.draw(4, 2, &[0xFF]);
    d.draw(60, 31, &[0xFF]);
    let rows = d.pack_rows();
    assert_eq!(rows[0], 0x8000_0000_0000_0000);
    assert_eq!(rows[1], 0x0000_0000_0000_0001);
    assert_eq!(rows[2], 0x0FF0_0000_0000_0000);
    assert_eq!(rows[3], 0);
    assert_eq!(rows[31], 0xF000_0000_0000_000F);
}

#[test]
fn frame_bytes_hold_the_rows_in_machine_byte_order() {
    let mut d = Display::new();
    d.draw(0, 0, &[0x80]);
    d.draw(56, 1, &[0x01]);
    d.draw(4, 2, &[0xFF]);
    let bytes = d.frame_bytes();
    assert_eq!(bytes.len(), 256);
    let rows = d.pack_rows();
    let mut expected = Vec::new();
    for row in rows.iter() {
        expected.extend_from_slice(&row.to_ne_bytes());
    }
    assert_eq!(bytes, expected);
    let first = if u16::from_ne_bytes([1, 0]) == 1 { 7 } else { 0 };
    assert_eq!(bytes[first], 0x80);
    assert_eq!(bytes[8 + 7 - first], 0x01);
    assert_eq!(bytes.iter().filter(|b| **b != 0).count(), 4);
}
