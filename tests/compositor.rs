use mage::{Char, Colour, Image, Point};

fn grid(width: u32, height: u32) -> Image {
    Image::new(width, height)
}

#[test]
fn coords_to_index_in_and_out_of_range() {
    let img = grid(10, 4);
    assert_eq!(img.coords_to_index(0, 0), Some(0));
    assert_eq!(img.coords_to_index(3, 2), Some(23));
    assert_eq!(img.coords_to_index(9, 3), Some(39));
    assert_eq!(img.coords_to_index(10, 0), None);
    assert_eq!(img.coords_to_index(0, 4), None);
    assert_eq!(img.coords_to_index(u32::MAX, u32::MAX), None);
}

#[test]
fn coords_to_index_is_injective_on_grid() {
    let img = grid(7, 5);
    let mut seen = vec![false; 35];
    for y in 0..5 {
        for x in 0..7 {
            let i = img.coords_to_index(x, y).unwrap();
            assert!(!seen[i]);
            seen[i] = true;
        }
    }
    assert!(seen.iter().all(|s| *s));
}

#[test]
fn clip_inside_is_unchanged() {
    let img = grid(10, 8);
    assert_eq!(img.clip(Point::new(2, 3), 4, 2), (2, 3, 4, 2));
}

#[test]
fn clip_negative_origin_shrinks() {
    let img = grid(10, 8);
    assert_eq!(img.clip(Point::new(-3, -1), 5, 4), (0, 0, 2, 3));
}

#[test]
fn clip_overhang_is_cut_at_the_edge() {
    let img = grid(10, 8);
    assert_eq!(img.clip(Point::new(7, 6), 5, 5), (7, 6, 3, 2));
}

#[test]
fn clip_off_grid_gives_zero_extent() {
    let img = grid(10, 8);
    let (_, _, w, _) = img.clip(Point::new(-6, 0), 5, 2);
    assert_eq!(w, 0);
    let (_, _, w, _) = img.clip(Point::new(12, 0), 5, 2);
    assert_eq!(w, 0);
    let (_, _, _, h) = img.clip(Point::new(0, 9), 5, 2);
    assert_eq!(h, 0);
}

#[test]
fn clip_is_idempotent() {
    let img = grid(10, 8);
    let cases = [
        (Point::new(-3, -1), 5, 4),
        (Point::new(7, 6), 5, 5),
        (Point::new(12, 20), 5, 5),
        (Point::new(-100, 3), 2, 1),
        (Point::new(0, 0), u32::MAX, u32::MAX),
    ];
    for (p, w, h) in cases {
        let (x, y, cw, ch) = img.clip(p, w, h);
        assert_eq!(img.clip(Point::new(x as i32, y as i32), cw, ch), (x, y, cw, ch));
    }
}

#[test]
fn draw_rect_filled_off_grid_changes_nothing() {
    let mut img = grid(6, 4);
    img.clear(1, 2);
    let before = (img.fore_image.clone(), img.back_image.clone(), img.text_image.clone());
    img.draw_rect_filled(Point::new(-10, 1), 5, 2, Char::new(b'#', 7, 8));
    img.draw_rect_filled(Point::new(0, 4), 5, 2, Char::new(b'#', 7, 8));
    img.draw_rect_filled(Point::new(6, 0), 5, 2, Char::new(b'#', 7, 8));
    assert_eq!(before, (img.fore_image, img.back_image, img.text_image));
}

#[test]
fn draw_rect_filled_covers_clipped_area() {
    let mut img = grid(5, 4);
    img.draw_rect_filled(Point::new(-1, 2), 3, 5, Char::new(b'#', 7, 8));
    for y in 0..4u32 {
        for x in 0..5u32 {
            let i = (y * 5 + x) as usize;
            let inside = x < 2 && y >= 2;
            assert_eq!(img.text_image[i], if inside { b'#' as u32 } else { 0 });
            assert_eq!(img.fore_image[i], if inside { 7 } else { 0 });
            assert_eq!(img.back_image[i], if inside { 8 } else { 0 });
        }
    }
}

#[test]
fn draw_char_on_and_off_grid() {
    let mut img = grid(4, 3);
    img.draw_char(Point::new(2, 1), Char::new(b'@', 5, 6));
    assert_eq!(img.text_image[6], b'@' as u32);
    assert_eq!(img.fore_image[6], 5);
    assert_eq!(img.back_image[6], 6);
    let before = img.text_image.clone();
    img.draw_char(Point::new(-1, 1), Char::new(b'x', 5, 6));
    img.draw_char(Point::new(4, 0), Char::new(b'x', 5, 6));
    img.draw_char(Point::new(0, 3), Char::new(b'x', 5, 6));
    assert_eq!(before, img.text_image);
}

#[test]
fn draw_string_is_cut_at_row_end() {
    let mut img = grid(10, 3);
    img.draw_string(Point::new(7, 1), "HELLO", 4, 9);
    for i in 0..30usize {
        let written = (17..20).contains(&i);
        let glyph = if written { b"HEL"[i - 17] as u32 } else { 0 };
        assert_eq!(img.text_image[i], glyph);
        assert_eq!(img.fore_image[i], if written { 4 } else { 0 });
        assert_eq!(img.back_image[i], if written { 9 } else { 0 });
    }
}

#[test]
fn draw_string_writes_min_of_length_and_room() {
    let mut img = grid(8, 2);
    img.draw_string(Point::new(1, 0), "AB", 4, 9);
    let written: Vec<usize> = (0..16).filter(|i| img.text_image[*i] != 0).collect();
    assert_eq!(written, vec![1, 2]);
    assert_eq!(img.text_image[1], b'A' as u32);
    assert_eq!(img.text_image[2], b'B' as u32);
}

#[test]
fn draw_string_left_of_grid_keeps_columns() {
    let mut img = grid(10, 1);
    img.draw_string(Point::new(-2, 0), "HELLO", 4, 9);
    assert_eq!(img.text_image[0], b'L' as u32);
    assert_eq!(img.text_image[1], b'L' as u32);
    assert_eq!(img.text_image[2], b'O' as u32);
    assert_eq!(img.text_image[3], 0);
    assert_eq!(img.fore_image[2], 4);
    assert_eq!(img.back_image[2], 9);
    assert_eq!(img.fore_image[3], 0);
    assert_eq!(img.back_image[3], 0);
}

#[test]
fn draw_string_two_bytes_one_left_of_grid() {
    let mut img = grid(5, 1);
    img.draw_string(Point::new(-1, 0), "AB", 4, 9);
    assert_eq!(img.text_image[0], b'B' as u32);
    assert!(img.text_image[1..].iter().all(|g| *g == 0));
}

#[test]
fn draw_string_past_right_edge_changes_nothing() {
    let mut img = grid(4, 1);
    img.draw_string(Point::new(5, 0), "HI", 4, 9);
    assert!(img.text_image.iter().all(|g| *g == 0));
}

#[test]
fn draw_string_off_rows_changes_nothing() {
    let mut img = grid(10, 2);
    img.draw_string(Point::new(0, -1), "HI", 4, 9);
    img.draw_string(Point::new(0, 2), "HI", 4, 9);
    img.draw_string(Point::new(10, 0), "HI", 4, 9);
    img.draw_string(Point::new(3, 0), "", 4, 9);
    assert!(img.text_image.iter().all(|g| *g == 0));
    assert!(img.fore_image.iter().all(|g| *g == 0));
}

#[test]
fn draw_rect_draws_only_the_border() {
    let mut img = grid(6, 5);
    img.draw_rect(Point::new(1, 1), 4, 3, Char::new(b'+', 1, 2));
    for y in 0..5u32 {
        for x in 0..6u32 {
            let in_rect = (1..5).contains(&x) && (1..4).contains(&y);
            let inner = x == 2 || x == 3;
            let border = in_rect && !(inner && y == 2);
            let i = (y * 6 + x) as usize;
            assert_eq!(img.text_image[i], if border { b'+' as u32 } else { 0 });
        }
    }
}

#[test]
fn thin_draw_rect_matches_filled() {
    let cases = [(Point::new(1, 1), 2, 4), (Point::new(-1, 0), 5, 1), (Point::new(3, 2), 0, 3)];
    for (p, w, h) in cases {
        let mut a = grid(6, 5);
        let mut b = grid(6, 5);
        a.draw_rect(p, w, h, Char::new(b'+', 1, 2));
        b.draw_rect_filled(p, w, h, Char::new(b'+', 1, 2));
        assert_eq!(a.fore_image, b.fore_image);
        assert_eq!(a.back_image, b.back_image);
        assert_eq!(a.text_image, b.text_image);
    }
}

#[test]
fn draw_rect_partly_off_grid() {
    let mut img = grid(4, 4);
    img.draw_rect(Point::new(-1, -1), 4, 4, Char::new(b'+', 1, 2));
    // the right column (x = 2) and bottom row (y = 2) of the border remain
    for y in 0..4u32 {
        for x in 0..4u32 {
            let border = (x == 2 && y <= 2) || (y == 2 && x <= 2);
            assert_eq!(img.text_image[(y * 4 + x) as usize], if border { b'+' as u32 } else { 0 });
        }
    }
}

#[test]
fn clear_then_string_end_to_end() {
    let black: u32 = Colour::Black.into();
    let white: u32 = Colour::White.into();
    let mut img = grid(10, 1);
    img.clear(black, white);
    for i in 0..10 {
        assert_eq!(img.text_image[i], b' ' as u32);
        assert_eq!(img.fore_image[i], black);
        assert_eq!(img.back_image[i], white);
    }
    img.draw_string(Point::new(2, 0), "HI", white, black);
    assert_eq!(img.text_image[2], b'H' as u32);
    assert_eq!(img.text_image[3], b'I' as u32);
    for i in [2usize, 3] {
        assert_eq!(img.fore_image[i], white);
        assert_eq!(img.back_image[i], black);
    }
    for i in [0usize, 1, 4, 5, 6, 7, 8, 9] {
        assert_eq!(img.text_image[i], b' ' as u32);
        assert_eq!(img.fore_image[i], black);
        assert_eq!(img.back_image[i], white);
    }
}

#[test]
fn empty_grid_accepts_drawing() {
    let mut img = grid(0, 0);
    img.clear(1, 2);
    img.draw_rect(Point::new(0, 0), 5, 5, Char::new(b'#', 1, 2));
    img.draw_string(Point::new(0, 0), "HI", 1, 2);
    img.draw_char(Point::new(0, 0), Char::new(b'#', 1, 2));
    assert!(img.text_image.is_empty());
    assert_eq!(img.coords_to_index(0, 0), None);
}
