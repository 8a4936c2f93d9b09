use asciify::glyph::{glyph_char, pixel_luminance, widen, LAST_GLYPH};
use asciify::{glyph_for, glyph_index, Pixel, ASCII_CHARS, BUCKET_SIZE};

#[test]
fn glyph_table_runs_from_dense_to_sparse() {
    assert_eq!(ASCII_CHARS, ['@', '#', 'S', '%', '?', '*', '+', ';', ':', ',', '.']);
    assert_eq!(BUCKET_SIZE, 25);
    assert_eq!(LAST_GLYPH, 10);
    for i in 0..=LAST_GLYPH {
        assert_eq!(glyph_char(i), ASCII_CHARS[i]);
    }
}

#[test]
fn glyph_index_divides_and_clamps() {
    assert_eq!(glyph_index(0, 25), 0);
    assert_eq!(glyph_index(24, 25), 0);
    assert_eq!(glyph_index(25, 25), 1);
    assert_eq!(glyph_index(249, 25), 9);
    assert_eq!(glyph_index(250, 25), 10);
    assert_eq!(glyph_index(254, 25), 10);
    assert_eq!(glyph_index(255, 25), 10);
    assert_eq!(glyph_index(255, 1), 10);
    assert_eq!(glyph_index(u32::MAX, 25), 10);
    assert_eq!(glyph_index(100, 50), 2);
}

#[test]
fn glyph_index_never_decreases() {
    for a in 0..256u32 {
        for b in (a + 1)..256u32 {
            assert!(glyph_index(a, 25) <= glyph_index(b, 25));
        }
    }
}

#[test]
fn luminance_weights_the_channels() {
    assert_eq!(pixel_luminance(Pixel(0, 0, 0)), 0);
    assert_eq!(pixel_luminance(Pixel(255, 255, 255)), 255);
    assert_eq!(pixel_luminance(Pixel(255, 0, 0)), 54);
    assert_eq!(pixel_luminance(Pixel(0, 255, 0)), 182);
    assert_eq!(pixel_luminance(Pixel(0, 0, 255)), 18);
    assert_eq!(pixel_luminance(Pixel(100, 150, 200)), 142);
}

#[test]
fn widen_keeps_the_value() {
    assert_eq!(widen(0), 0);
    assert_eq!(widen(200), 200);
    assert_eq!(widen(255), 255);
}

#[test]
fn glyph_for_pixels() {
    assert_eq!(glyph_for(Pixel(0, 0, 0), 25), '@');
    assert_eq!(glyph_for(Pixel(255, 255, 255), 25), '.');
    assert_eq!(glyph_for(Pixel(255, 0, 0), 25), 'S');
    assert_eq!(glyph_for(Pixel(0, 255, 0), 25), ';');
    assert_eq!(glyph_for(Pixel(0, 0, 255), 25), '@');
}
