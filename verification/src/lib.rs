//! Turns a raster image into ASCII art, plain or coloured with terminal
//! escape sequences.
//!
//! The pipeline is: resample the image to a character grid, pick a glyph for
//! each pixel by its luminance, pick a colour representation, and join the
//! formatted cells into lines.

pub mod text;
pub mod error;
pub mod color;
pub mod raster;
pub mod glyph;
pub mod render;

pub use color::{color_char, format_cell, nearest_palette_color, CellColor, PaletteColor, RgbColor};
pub use error::AsciifyError;
pub use glyph::{glyph_for, glyph_index, ASCII_CHARS, BUCKET_SIZE};
pub use raster::{resample, Pixel, Raster, MAX_DIMENSION};
pub use render::{
    asciify_image, asciify_image_color, assemble, join_lines, render_color, render_plain,
    resolve_cell, to_ascii, to_ascii_preserve_color, Cell, ColorMode,
};
