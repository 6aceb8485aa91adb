use iron_rainbow::font::{glyph_cells, glyph_rows};

#[test]
fn digit_zero_rows() {
    assert_eq!(
        glyph_rows('0'),
        [0b01110, 0b10001, 0b10011, 0b10101, 0b11001, 0b10001, 0b01110]
    );
}

#[test]
fn letters_share_glyphs_across_case() {
    assert_eq!(glyph_rows('a'), glyph_rows('A'));
    assert_eq!(glyph_rows('t'), glyph_rows('T'));
    // lower-case l is drawn as lambda
    assert_eq!(glyph_rows('l'), glyph_rows('\u{3bb}'));
    assert_ne!(glyph_rows('l'), glyph_rows('L'));
}

#[test]
fn unknown_character_is_a_box() {
    let boxed = [0b11111, 0b10001, 0b10001, 0b10001, 0b10001, 0b10001, 0b11111];
    assert_eq!(glyph_rows('?'), boxed);
    assert_eq!(glyph_rows('Z'), boxed);
}

#[test]
fn space_is_blank() {
    assert_eq!(glyph_rows(' '), [0; 7]);
    assert!(glyph_cells(' ').is_empty());
}

#[test]
fn minus_cells() {
    let cells = glyph_cells('-');
    assert_eq!(cells, vec![(3, 0), (3, 1), (3, 2), (3, 3), (3, 4)]);
}

#[test]
fn one_cells_in_row_major_order() {
    let cells = glyph_cells('1');
    assert_eq!(
        cells,
        vec![
            (0, 2),
            (1, 1),
            (1, 2),
            (2, 2),
            (3, 2),
            (4, 2),
            (5, 2),
            (6, 1),
            (6, 2),
            (6, 3)
        ]
    );
}

#[test]
fn cells_match_row_bits_for_every_glyph() {
    for ch in "0123456789.-+\u{b0}\u{3bb}nNkKtT%():aAbBcCdDeEfFgGhHiILmMoOpPrRsSuUvVwWxX ?".chars() {
        let rows = glyph_rows(ch);
        let cells = glyph_cells(ch);
        let mut expected = Vec::new();
        for r in 0..7u8 {
            assert!(rows[r as usize] < 32);
            for c in 0..5u8 {
                if (rows[r as usize] >> (4 - c)) & 1 == 1 {
                    expected.push((r, c));
                }
            }
        }
        assert_eq!(cells, expected);
    }
}
