//! From pixels to lines: glyphs and coloured cells for each pixel, and rows of
//! a fixed number of cells.

use vstd::prelude::*;
use crate::color::{
    cell_text, color_char, color_char_text, format_cell, nearest_palette, nearest_palette_color,
    CellColor, RgbColor,
};
use crate::error::AsciifyError;
use crate::glyph::{glyph_for, glyph_of, widen, BUCKET_SIZE};
use crate::raster::{is_resampling, resample, resample_accepts, target_height, Pixel, Raster};

verus! {

/// One position of the output: a glyph and how it is coloured.
#[derive(Clone, Copy, Debug, PartialEq, Eq, Structural)]
pub struct Cell {
    pub glyph: char,
    pub color: CellColor,
}

/// How the colour of a cell is taken from its pixel.
#[derive(Clone, Copy, Debug, PartialEq, Eq, Structural)]
pub enum ColorMode {
    /// No colour.
    Plain,
    /// The nearest of the sixteen named colours.
    Palette,
    /// The pixel's entry of the 256-colour table.
    Gradient,
    /// The pixel's own channel values.
    TrueColor,
}

/// The texts one after another.
pub open spec fn concat(texts: Seq<Seq<char>>) -> Seq<char>
    decreases texts.len(),
{
    if texts.len() == 0 {
        Seq::empty()
    } else {
        concat(texts.drop_last()) + texts.last()
    }
}

/// Number of lines that `cells` cells fill at `width` cells a line: the
/// quotient rounded up.
pub open spec fn line_count(cells: nat, width: nat) -> nat {
    if width == 0 {
        0
    } else {
        (cells + width - 1) as nat / width
    }
}

/// Position after the last cell of line `line`.
pub open spec fn line_end(cells: nat, width: nat, line: nat) -> nat {
    if (line + 1) * width <= cells {
        (line + 1) * width
    } else {
        cells
    }
}

/// The lines are the texts in order, `width` to a line, the last line holding
/// what is left; nothing is padded or dropped.
pub open spec fn is_assembly(lines: Seq<String>, texts: Seq<Seq<char>>, width: nat) -> bool {
    &&& lines.len() == line_count(texts.len(), width)
    &&& forall|i: int|
        0 <= i < lines.len() ==> (#[trigger] lines[i])@ == concat(
            texts.subrange(i * width, line_end(texts.len(), width, i as nat) as int),
        )
}

/// The view of each string.
pub open spec fn fragment_texts(fragments: Seq<String>) -> Seq<Seq<char>> {
    Seq::new(fragments.len(), |i: int| fragments[i]@)
}

/// The formatted text of each cell.
pub open spec fn cell_texts(cells: Seq<Cell>) -> Seq<Seq<char>> {
    Seq::new(cells.len(), |i: int| cell_text(cells[i].glyph, cells[i].color))
}

/// The glyph of each pixel.
pub open spec fn glyph_seq(pixels: Seq<Pixel>, bucket_size: nat) -> Seq<char> {
    Seq::new(pixels.len(), |i: int| glyph_of(pixels[i], bucket_size))
}

/// The channel values of a pixel as a colour.
pub open spec fn pixel_color(pixel: Pixel) -> RgbColor {
    RgbColor(pixel.0 as u32, pixel.1 as u32, pixel.2 as u32)
}

/// The cell that stands for a pixel: the glyph of its luminance, and its
/// colour as `mode` takes it.
pub open spec fn resolved_cell(pixel: Pixel, bucket_size: nat, mode: ColorMode) -> Cell {
    Cell {
        glyph: glyph_of(pixel, bucket_size),
        color: match mode {
            ColorMode::Plain => CellColor::Plain,
            ColorMode::Palette => CellColor::Named(
                nearest_palette(pixel.0 as int, pixel.1 as int, pixel.2 as int),
            ),
            ColorMode::Gradient => CellColor::Gradient(pixel_color(pixel)),
            ColorMode::TrueColor => CellColor::TrueColor(pixel_color(pixel)),
        },
    }
}

/// For each pixel its glyph alone.
pub open spec fn plain_texts(pixels: Seq<Pixel>, bucket_size: nat) -> Seq<Seq<char>> {
    Seq::new(pixels.len(), |i: int| seq![glyph_of(pixels[i], bucket_size)])
}

/// For each pixel its glyph in the pixel's own colour.
pub open spec fn colored_texts(pixels: Seq<Pixel>, bucket_size: nat, true_color: bool) -> Seq<
    Seq<char>,
> {
    Seq::new(
        pixels.len(),
        |i: int|
            color_char_text(glyph_of(pixels[i], bucket_size), pixel_color(pixels[i]), true_color),
    )
}

/// Every line holds at least one cell and at most `width`; every line but
/// the last holds exactly `width`.
pub proof fn line_cell_count(cells: nat, width: nat, line: nat)
    requires
        width > 0,
        line < line_count(cells, width),
    ensures
        line * width < line_end(cells, width, line) <= cells,
        line_end(cells, width, line) - line * width <= width,
        line + 1 < line_count(cells, width) ==> line_end(cells, width, line) - line * width
            == width,
{
    let count = line_count(cells, width);
    assert(line * width < cells && (line + 1 < count ==> (line + 1) * width <= cells)
        && (line + 1) * width == line * width + width) by (nonlinear_arith)
        requires
            width > 0,
            line < count,
            count == (cells + width - 1) as nat / width,
    ;
}

/// A count of lines that covers the cells, with the line before the last not
/// yet covering them, is the rounded-up quotient.
pub proof fn line_count_is_least_cover(cells: nat, width: nat, lines: nat)
    requires
        width > 0,
        lines * width >= cells,
        lines > 0 ==> (lines - 1) * width < cells,
    ensures
        lines == line_count(cells, width),
{
    let q = (cells + width - 1) as nat / width;
    assert(q == lines) by (nonlinear_arith)
        requires
            width > 0,
            lines * width >= cells,
            lines > 0 ==> (lines - 1) * width < cells,
            q == (cells + width - 1) as nat / width,
    ;
}

/// A full grid of `width` by `height` cells fills exactly `height` lines.
pub proof fn grid_line_count(width: nat, height: nat)
    requires
        width > 0,
    ensures
        line_count(width * height, width) == height,
{
    assert(height * width >= width * height) by (nonlinear_arith);
    assert(height > 0 ==> (height - 1) * width < width * height) by (nonlinear_arith)
        requires
            width > 0,
    ;
    line_count_is_least_cover(width * height, width, height);
}

/// The cell that stands for a pixel: the glyph of its luminance, and its
/// colour as `mode` takes it.
pub fn resolve_cell(pixel: Pixel, bucket_size: u32, mode: ColorMode) -> (cell: Cell)
    requires
        bucket_size > 0,
    ensures
        cell == resolved_cell(pixel, bucket_size as nat, mode),
{
    let glyph = glyph_for(pixel, bucket_size);
    let color = match mode {
        ColorMode::Plain => CellColor::Plain,
        ColorMode::Palette => CellColor::Named(nearest_palette_color(pixel.0, pixel.1, pixel.2)),
        ColorMode::Gradient => CellColor::Gradient(
            RgbColor(widen(pixel.0), widen(pixel.1), widen(pixel.2)),
        ),
        ColorMode::TrueColor => CellColor::TrueColor(
            RgbColor(widen(pixel.0), widen(pixel.1), widen(pixel.2)),
        ),
    };
    Cell { glyph, color }
}

/// Glyphs written one by one and joined are the glyphs themselves.
pub proof fn concat_of_plain_texts(pixels: Seq<Pixel>, bucket_size: nat, from: int, to: int)
    requires
        0 <= from <= to <= pixels.len(),
    ensures
        concat(plain_texts(pixels, bucket_size).subrange(from, to)) == glyph_seq(
            pixels,
            bucket_size,
        ).subrange(from, to),
    decreases to - from,
{
    let texts = plain_texts(pixels, bucket_size).subrange(from, to);
    let glyphs = glyph_seq(pixels, bucket_size);
    if from == to {
        assert(glyphs.subrange(from, to) =~= concat(texts));
    } else {
        concat_of_plain_texts(pixels, bucket_size, from, to - 1);
        assert(texts.drop_last() =~= plain_texts(pixels, bucket_size).subrange(from, to - 1));
        assert(texts.last() =~= seq![glyphs[to - 1]]);
        assert(glyphs.subrange(from, to) =~= glyphs.subrange(from, to - 1) + seq![glyphs[to - 1]]);
    }
}

/// The plain lines of an image are its rows: as many lines as the image has
/// rows, and each line the glyphs of the pixels of its row, from the left.
pub proof fn plain_lines_are_rows(lines: Seq<String>, image: &Raster, bucket_size: nat, row: int)
    requires
        image.width > 0,
        is_assembly(lines, plain_texts(image.pixels(), bucket_size), image.width as nat),
        0 <= row < image.height,
    ensures
        lines.len() == image.height,
        lines[row]@ == glyph_seq(image.pixels(), bucket_size).subrange(
            row * image.width,
            (row + 1) * image.width,
        ),
{
    let width = image.width as nat;
    let height = image.height as nat;
    grid_line_count(width, height);
    assert(0 <= row * width && (row + 1) * width <= width * height) by (nonlinear_arith)
        requires
            0 <= row < height,
            width > 0,
    ;
    assert(row * width <= (row + 1) * width) by (nonlinear_arith)
        requires
            0 <= row,
    ;
    concat_of_plain_texts(image.pixels(), bucket_size, row * width, (row + 1) * width);
}

/// Joins the fragments into lines of `width` fragments each, in order; the
/// last line holds what is left.
pub fn join_lines(fragments: &Vec<String>, width: u32) -> (lines: Vec<String>)
    requires
        width > 0,
    ensures
        is_assembly(lines@, fragment_texts(fragments@), width as nat),
{
    let n: usize = fragments.len();
    let ghost texts = fragment_texts(fragments@);
    let mut lines: Vec<String> = Vec::new();
    let mut start: usize = 0;
    assert(lines@.len() * width == 0);
    while start < n
        invariant
            n == fragments@.len(),
            texts == fragment_texts(fragments@),
            width > 0,
            start <= n,
            start < n ==> start == lines@.len() * width,
            lines@.len() * width >= start,
            lines@.len() > 0 ==> (lines@.len() - 1) * width < n,
            forall|i: int|
                0 <= i < lines@.len() ==> (#[trigger] lines@[i])@ == concat(
                    texts.subrange(i * width, line_end(n as nat, width as nat, i as nat) as int),
                ),
        decreases n - start,
    {
        let ghost k: int = lines@.len() as int;
        let end: usize = if n - start > width as usize {
            start + width as usize
        } else {
            n
        };
        proof {
            assert((k + 1) * width == k * width + width) by (nonlinear_arith);
            assert(end == line_end(n as nat, width as nat, k as nat));
        }
        let mut line = String::new();
        let mut j: usize = start;
        assert(texts.subrange(start as int, j as int) =~= Seq::<Seq<char>>::empty());
        while j < end
            invariant
                n == fragments@.len(),
                texts == fragment_texts(fragments@),
                start <= j <= end <= n,
                line@ == concat(texts.subrange(start as int, j as int)),
            decreases end - j,
        {
            line.push_str(fragments[j].as_str());
            proof {
                let upto = texts.subrange(start as int, j + 1);
                assert(upto.drop_last() =~= texts.subrange(start as int, j as int));
                assert(upto.last() == fragments@[j as int]@);
            }
            j = j + 1;
        }
        lines.push(line);
        proof {
            assert(lines@[k]@ == concat(texts.subrange(k * width, end as int)));
            assert(lines@.len() == k + 1);
            assert((k + 1 - 1) * width < n);
        }
        start = end;
    }
    proof {
        line_count_is_least_cover(n as nat, width as nat, lines@.len() as nat);
    }
    lines
}

/// Formats the cells and joins them into lines of `width` cells each, in
/// order; the last line holds what is left.
pub fn assemble(cells: &Vec<Cell>, width: u32) -> (lines: Vec<String>)
    requires
        width > 0,
    ensures
        is_assembly(lines@, cell_texts(cells@), width as nat),
{
    let mut fragments: Vec<String> = Vec::new();
    let mut i: usize = 0;
    while i < cells.len()
        invariant
            i <= cells@.len(),
            fragments@.len() == i,
            forall|j: int|
                0 <= j < i ==> (#[trigger] fragments@[j])@ == cell_text(
                    cells@[j].glyph,
                    cells@[j].color,
                ),
        decreases cells@.len() - i,
    {
        fragments.push(format_cell(cells[i].glyph, cells[i].color));
        i = i + 1;
    }
    assert(fragment_texts(fragments@) =~= cell_texts(cells@));
    join_lines(&fragments, width)
}

/// The glyph of each pixel of `image`, row by row.
pub fn to_ascii(image: &Raster, buckets: u32) -> (glyphs: Vec<char>)
    requires
        image.wf(),
        buckets > 0,
    ensures
        glyphs@ == glyph_seq(image.pixels(), buckets as nat),
{
    let n: usize = image.pixel_count();
    let mut glyphs: Vec<char> = Vec::new();
    let mut i: usize = 0;
    while i < n
        invariant
            image.wf(),
            buckets > 0,
            n == image.pixels().len(),
            n == image.area(),
            i <= n,
            glyphs@.len() == i,
            forall|j: int|
                0 <= j < i ==> #[trigger] glyphs@[j] == glyph_of(
                    image.pixels()[j],
                    buckets as nat,
                ),
        decreases n - i,
    {
        glyphs.push(glyph_for(image.pixel_at(i), buckets));
        i = i + 1;
    }
    assert(glyphs@ =~= glyph_seq(image.pixels(), buckets as nat));
    glyphs
}

/// The glyph of each pixel of `image`, row by row, formatted in the pixel's
/// own colour: through the 256-colour table or, with `true_color`, as 24-bit
/// colour.
pub fn to_ascii_preserve_color(image: &Raster, buckets: u32, true_color: bool) -> (fragments: Vec<
    String,
>)
    requires
        image.wf(),
        buckets > 0,
    ensures
        fragment_texts(fragments@) == colored_texts(image.pixels(), buckets as nat, true_color),
{
    let n: usize = image.pixel_count();
    let mut fragments: Vec<String> = Vec::new();
    let mut i: usize = 0;
    while i < n
        invariant
            image.wf(),
            buckets > 0,
            n == image.pixels().len(),
            n == image.area(),
            i <= n,
            fragments@.len() == i,
            forall|j: int|
                0 <= j < i ==> (#[trigger] fragments@[j])@ == color_char_text(
                    glyph_of(image.pixels()[j], buckets as nat),
                    pixel_color(image.pixels()[j]),
                    true_color,
                ),
        decreases n - i,
    {
        let pixel = image.pixel_at(i);
        let color = RgbColor(widen(pixel.0), widen(pixel.1), widen(pixel.2));
        fragments.push(color_char(glyph_for(pixel, buckets), color, true_color));
        i = i + 1;
    }
    assert(fragment_texts(fragments@) =~= colored_texts(
        image.pixels(),
        buckets as nat,
        true_color,
    ));
    fragments
}

/// The lines of a resampled image in plain glyphs, one line for each row.
pub fn render_plain(scaled: &Raster) -> (lines: Vec<String>)
    requires
        scaled.wf(),
    ensures
        is_assembly(
            lines@,
            plain_texts(scaled.pixels(), BUCKET_SIZE as nat),
            scaled.width as nat,
        ),
{
    if scaled.width == 0 {
        return Vec::new();
    }
    let glyphs = to_ascii(scaled, BUCKET_SIZE);
    let mut fragments: Vec<String> = Vec::new();
    let mut i: usize = 0;
    while i < glyphs.len()
        invariant
            i <= glyphs@.len(),
            fragments@.len() == i,
            forall|j: int| 0 <= j < i ==> (#[trigger] fragments@[j])@ == seq![glyphs@[j]],
        decreases glyphs@.len() - i,
    {
        fragments.push(format_cell(glyphs[i], CellColor::Plain));
        i = i + 1;
    }
    assert(fragment_texts(fragments@) =~= plain_texts(scaled.pixels(), BUCKET_SIZE as nat));
    join_lines(&fragments, scaled.width)
}

/// The lines of a resampled image in glyphs of the pixels' colours, one line
/// for each row.
pub fn render_color(scaled: &Raster, true_color: bool) -> (lines: Vec<String>)
    requires
        scaled.wf(),
    ensures
        is_assembly(
            lines@,
            colored_texts(scaled.pixels(), BUCKET_SIZE as nat, true_color),
            scaled.width as nat,
        ),
{
    if scaled.width == 0 {
        return Vec::new();
    }
    let fragments = to_ascii_preserve_color(scaled, BUCKET_SIZE, true_color);
    join_lines(&fragments, scaled.width)
}

/// Converts `image` to lines of plain glyphs, `image_width` to a line.
///
/// The image is resampled to `image_width` columns and `target_height` rows
/// and each pixel of the result gives one glyph, one line for each row. An
/// image that has that size already is taken as it is. A width of zero, and
/// what `resample` refuses, is `InvalidDimension`.
pub fn asciify_image(image: &Raster, image_width: u32, correct_for_font: bool) -> (made: Result<
    Vec<String>,
    AsciifyError,
>)
    requires
        image.wf(),
    ensures
        made is Ok <==> image_width > 0 && resample_accepts(image, image_width, correct_for_font),
        made matches Err(e) ==> e == AsciifyError::InvalidDimension,
        made matches Ok(lines) ==> {
            &&& lines@.len() == target_height(
                image.width as nat,
                image.height as nat,
                image_width as nat,
                correct_for_font,
            )
            &&& exists|scaled: Raster|
                {
                    &&& #[trigger] is_resampling(&scaled, image, image_width as nat, lines@.len())
                    &&& is_assembly(
                        lines@,
                        plain_texts(scaled.pixels(), BUCKET_SIZE as nat),
                        image_width as nat,
                    )
                }
            &&& image.width == image_width && image.height == lines@.len() ==> is_assembly(
                lines@,
                plain_texts(image.pixels(), BUCKET_SIZE as nat),
                image_width as nat,
            )
        },
{
    if image_width == 0 {
        return Err(AsciifyError::InvalidDimension);
    }
    match resample(image, image_width, correct_for_font) {
        Err(e) => Err(e),
        Ok(scaled) => {
            let lines = render_plain(&scaled);
            proof {
                grid_line_count(scaled.width as nat, scaled.height as nat);
                if image.width == scaled.width && image.height == scaled.height {
                    assert(scaled.pixels() =~= image.pixels());
                }
            }
            Ok(lines)
        },
    }
}

/// Converts `image` to lines of coloured glyphs, `image_width` to a line.
///
/// The image is resampled as for `asciify_image`; each pixel of the result
/// gives its glyph in the pixel's colour, through the 256-colour table or,
/// with `truecolor`, as 24-bit colour. A width of zero, and what `resample`
/// refuses, is `InvalidDimension`.
pub fn asciify_image_color(
    image: &Raster,
    image_width: u32,
    correct_for_font: bool,
    truecolor: bool,
) -> (made: Result<Vec<String>, AsciifyError>)
    requires
        image.wf(),
    ensures
        made is Ok <==> image_width > 0 && resample_accepts(image, image_width, correct_for_font),
        made matches Err(e) ==> e == AsciifyError::InvalidDimension,
        made matches Ok(lines) ==> {
            &&& lines@.len() == target_height(
                image.width as nat,
                image.height as nat,
                image_width as nat,
                correct_for_font,
            )
            &&& exists|scaled: Raster|
                {
                    &&& #[trigger] is_resampling(&scaled, image, image_width as nat, lines@.len())
                    &&& is_assembly(
                        lines@,
                        colored_texts(scaled.pixels(), BUCKET_SIZE as nat, truecolor),
                        image_width as nat,
                    )
                }
            &&& image.width == image_width && image.height == lines@.len() ==> is_assembly(
                lines@,
                colored_texts(image.pixels(), BUCKET_SIZE as nat, truecolor),
                image_width as nat,
            )
        },
{
    if image_width == 0 {
        return Err(AsciifyError::InvalidDimension);
    }
    match resample(image, image_width, correct_for_font) {
        Err(e) => Err(e),
        Ok(scaled) => {
            let lines = render_color(&scaled, truecolor);
            proof {
                grid_line_count(scaled.width as nat, scaled.height as nat);
                if image.width == scaled.width && image.height == scaled.height {
                    assert(scaled.pixels() =~= image.pixels());
                }
            }
            Ok(lines)
        },
    }
}

} // verus!
