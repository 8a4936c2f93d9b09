//! Luminance and the glyph that stands for it.

use vstd::prelude::*;
use crate::raster::Pixel;

verus! {

/// The glyphs, from the darkest and densest to the lightest and sparsest.
pub const ASCII_CHARS: [char; 11] = ['@', '#', 'S', '%', '?', '*', '+', ';', ':', ',', '.'];

/// Width of the luminance range that one glyph stands for.
pub const BUCKET_SIZE: u32 = 25;

/// Position of the last glyph.
pub const LAST_GLYPH: usize = 10;

/// The glyph at position `i`, 0 the darkest.
pub open spec fn glyph_at(i: nat) -> char {
    if i == 0 {
        '@'
    } else if i == 1 {
        '#'
    } else if i == 2 {
        'S'
    } else if i == 3 {
        '%'
    } else if i == 4 {
        '?'
    } else if i == 5 {
        '*'
    } else if i == 6 {
        '+'
    } else if i == 7 {
        ';'
    } else if i == 8 {
        ':'
    } else if i == 9 {
        ','
    } else {
        '.'
    }
}

/// Luminance of `(r, g, b)`: the channels weighted 0.2126, 0.7152 and 0.0722,
/// rounded down.
pub open spec fn luminance(r: nat, g: nat, b: nat) -> nat {
    (2126 * r + 7152 * g + 722 * b) / 10000
}

/// Position of the glyph for a luminance: the luminance divided by the bucket
/// size, rounded down, and no more than the last position.
pub open spec fn bucket_index(luminance: nat, bucket_size: nat) -> nat
    recommends
        bucket_size > 0,
{
    if luminance / bucket_size > LAST_GLYPH {
        LAST_GLYPH as nat
    } else {
        luminance / bucket_size
    }
}

/// The glyph for a pixel.
pub open spec fn glyph_of(pixel: Pixel, bucket_size: nat) -> char
    recommends
        bucket_size > 0,
{
    glyph_at(bucket_index(luminance(pixel.0 as nat, pixel.1 as nat, pixel.2 as nat), bucket_size))
}

/// `image::Pixel::to_luma` on an `image::Rgb<u8>`: the weighted sum of the
/// channels in 32-bit integers, divided by 10000, which fits in eight bits.
#[verifier::external_body]
fn luma_of(pixel: Pixel) -> (l: u8)
    ensures
        l == luminance(pixel.0 as nat, pixel.1 as nat, pixel.2 as nat),
{
    image::Pixel::to_luma(&image::Rgb([pixel.0, pixel.1, pixel.2])).0[0]
}

/// `num_traits::NumCast::from` from `u8` to `u32`: the same number, always
/// present since every `u8` fits.
#[verifier::external_body]
fn cast_channel(value: u8) -> (out: Option<u32>)
    ensures
        out == Some(value as u32),
{
    num_traits::NumCast::from(value)
}

/// A channel value as a 32-bit number.
pub fn widen(value: u8) -> (out: u32)
    ensures
        out == value,
{
    cast_channel(value).unwrap()
}

/// Luminance of a pixel.
pub fn pixel_luminance(pixel: Pixel) -> (l: u32)
    ensures
        l == luminance(pixel.0 as nat, pixel.1 as nat, pixel.2 as nat),
        l <= 255,
{
    widen(luma_of(pixel))
}

/// Position of the glyph for a luminance.
pub fn glyph_index(luminance: u32, bucket_size: u32) -> (index: usize)
    requires
        bucket_size > 0,
    ensures
        index == bucket_index(luminance as nat, bucket_size as nat),
        index <= LAST_GLYPH,
{
    let raw: u32 = luminance / bucket_size;
    if raw > 10 {
        LAST_GLYPH
    } else {
        raw as usize
    }
}

/// The glyph at position `index`.
pub fn glyph_char(index: usize) -> (glyph: char)
    requires
        index <= LAST_GLYPH,
    ensures
        glyph == glyph_at(index as nat),
{
    ASCII_CHARS[index]
}

/// The glyph for a pixel.
pub fn glyph_for(pixel: Pixel, bucket_size: u32) -> (glyph: char)
    requires
        bucket_size > 0,
    ensures
        glyph == glyph_of(pixel, bucket_size as nat),
{
    glyph_char(glyph_index(pixel_luminance(pixel), bucket_size))
}

/// A lighter pixel never gets a darker glyph: the position of the glyph does
/// not decrease as the luminance grows.
pub proof fn glyph_index_is_monotonic(a: nat, b: nat, bucket_size: nat)
    requires
        bucket_size > 0,
        a < b,
    ensures
        bucket_index(a, bucket_size) <= bucket_index(b, bucket_size),
{
    assert(a / bucket_size <= b / bucket_size) by (nonlinear_arith)
        requires
            a < b,
            bucket_size > 0,
    ;
}

} // verus!
