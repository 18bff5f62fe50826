use viuer::{get_all_masks, get_mask_for_char, CharMasker, Masker};

#[test]
fn lower_half_block_covers_the_bottom_rows() {
    let m = get_mask_for_char('\u{2584}');
    for row in 0..16 {
        for column in 0..8 {
            assert_eq!(m.mask[row][column], row >= 8);
        }
    }
}

#[test]
fn left_quarter_block_covers_two_columns() {
    let m = CharMasker('\u{258E}');
    assert!(m.mask(0, 1));
    assert!(!m.mask(15, 2));
}

#[test]
fn ramp_with_a_fractional_slope() {
    // 16 - row <= 0.6 * column
    let m = CharMasker('\u{1FB48}');
    assert!(m.mask(13, 5));
    assert!(!m.mask(12, 5));
}

#[test]
fn all_masks_in_order() {
    let masks = get_all_masks();
    assert_eq!(masks.len(), 43);
    assert_eq!(masks[0].char, '\u{2581}');
    assert_eq!(masks[42].char, '\u{1FB57}');
}
