//! Images as plain pixel data, and resampling to a character grid.

use vstd::prelude::*;
use crate::error::AsciifyError;

verus! {

/// One pixel: red, green and blue, eight bits each.
#[derive(Clone, Copy, Debug, PartialEq, Eq, Structural)]
pub struct Pixel(pub u8, pub u8, pub u8);

/// An image: `width * height` pixels, row by row from the top, three bytes
/// (red, green, blue) for each.
#[derive(Clone, Debug)]
pub struct Raster {
    pub width: u32,
    pub height: u32,
    pub data: Vec<u8>,
}

/// Largest width or height of a resampled image.
pub const MAX_DIMENSION: u32 = 16384;

impl Raster {
    /// The data holds exactly the pixels that the dimensions announce.
    pub open spec fn wf(&self) -> bool {
        self.data@.len() == self.width * self.height * 3
    }

    /// Number of pixels.
    pub open spec fn area(&self) -> nat {
        (self.width * self.height) as nat
    }

    /// The pixels, row by row from the top.
    pub open spec fn pixels(&self) -> Seq<Pixel> {
        Seq::new(
            self.area(),
            |i: int| Pixel(self.data@[3 * i], self.data@[3 * i + 1], self.data@[3 * i + 2]),
        )
    }

    /// An image of the given size over `data`, or `DecodeError` where `data`
    /// is not three bytes for each pixel.
    pub fn from_raw(width: u32, height: u32, data: Vec<u8>) -> (made: Result<Raster, AsciifyError>)
        ensures
            made is Ok <==> data@.len() == width * height * 3,
            made matches Ok(image) ==> image.wf() && image.width == width && image.height
                == height && image.data@ == data@,
            made matches Err(e) ==> e == AsciifyError::DecodeError,
    {
        assert(width * height <= 0xFFFF_FFFF * 0xFFFF_FFFF) by (nonlinear_arith)
            requires
                width <= 0xFFFF_FFFF,
                height <= 0xFFFF_FFFF,
        ;
        let expected: u128 = (width as u128) * (height as u128) * 3;
        if data.len() as u128 == expected {
            Ok(Raster { width, height, data })
        } else {
            Err(AsciifyError::DecodeError)
        }
    }

    /// An image without pixels.
    pub fn empty() -> (image: Raster)
        ensures
            image.wf(),
            image.width == 0,
            image.height == 0,
            image.pixels() =~= Seq::<Pixel>::empty(),
    {
        Raster { width: 0, height: 0, data: Vec::new() }
    }

    /// Number of pixels.
    pub fn pixel_count(&self) -> (n: usize)
        requires
            self.wf(),
        ensures
            n == self.area(),
            n == self.pixels().len(),
            3 * n == self.data@.len(),
    {
        self.data.len() / 3
    }

    /// The pixel at position `i`, counted row by row from the top.
    pub fn pixel_at(&self, i: usize) -> (p: Pixel)
        requires
            self.wf(),
            i < self.area(),
        ensures
            p == self.pixels()[i as int],
    {
        let len: usize = self.data.len();
        assert(3 * i + 2 < len);
        Pixel(self.data[3 * i], self.data[3 * i + 1], self.data[3 * i + 2])
    }
}

/// Height of the grid for an image of `source_width` by `source_height`
/// resampled to `target_width` columns: the height that keeps the image's
/// proportions, rounded down; with `correct_font`, three fifths of it, since a
/// character cell is taller than wide.
pub open spec fn target_height(
    source_width: nat,
    source_height: nat,
    target_width: nat,
    correct_font: bool,
) -> nat
    recommends
        source_width > 0,
{
    if correct_font {
        (source_height * target_width * 3) / (source_width * 5)
    } else {
        (source_height * target_width) / source_width
    }
}

/// The working buffer of a resampling from `source_width` columns to `rows`
/// rows, four 32-bit values for each of its pixels, can be allocated.
pub open spec fn working_buffer_fits(source_width: nat, rows: nat) -> bool {
    source_width * rows * 32 <= usize::MAX
}

/// The inputs on which `resample` yields an image.
pub open spec fn resample_accepts(image: &Raster, target_width: u32, correct_font: bool) -> bool {
    let rows = target_height(
        image.width as nat,
        image.height as nat,
        target_width as nat,
        correct_font,
    );
    &&& image.width > 0
    &&& image.height > 0
    &&& target_width <= MAX_DIMENSION
    &&& rows <= MAX_DIMENSION
    &&& working_buffer_fits(image.width as nat, rows)
}

/// `scaled` is a resampling of `image` to `width` columns and `rows` rows: it
/// has that size, and where that is the size of `image` it holds the pixels
/// of `image` unchanged.
pub open spec fn is_resampling(scaled: &Raster, image: &Raster, width: nat, rows: nat) -> bool {
    &&& scaled.wf()
    &&& scaled.width == width
    &&& scaled.height == rows
    &&& (image.width == width && image.height == rows ==> scaled.data@ == image.data@)
}

/// `image::imageops::resize` with `FilterType::Gaussian`, on a buffer of
/// `image::Rgb<u8>` pixels over the image's data. The result has the
/// dimensions asked for. Where they are the source's own, the function
/// copies the source; of the pixel values that the filter computes
/// otherwise nothing is claimed. The conditions keep the source non-empty
/// and both buffers that the function allocates within what a vector can
/// hold.
#[verifier::external_body]
fn gaussian_resize(image: &Raster, width: u32, height: u32) -> (out: Raster)
    requires
        image.wf(),
        image.width > 0,
        image.height > 0,
        width <= MAX_DIMENSION,
        height <= MAX_DIMENSION,
        working_buffer_fits(image.width as nat, height as nat),
    ensures
        is_resampling(&out, image, width as nat, height as nat),
{
    let source: image::ImageBuffer<image::Rgb<u8>, &[u8]> =
        image::ImageBuffer::from_raw(image.width, image.height, image.data.as_slice()).unwrap();
    let resized = image::imageops::resize(
        &source,
        width,
        height,
        image::imageops::FilterType::Gaussian,
    );
    Raster { width, height, data: resized.into_raw() }
}

fn compute_target_height(
    source_width: u32,
    source_height: u32,
    target_width: u32,
    correct_font: bool,
) -> (rows: u128)
    requires
        source_width > 0,
    ensures
        rows == target_height(
            source_width as nat,
            source_height as nat,
            target_width as nat,
            correct_font,
        ),
{
    assert(source_height * target_width <= 0xFFFF_FFFF * 0xFFFF_FFFF) by (nonlinear_arith)
        requires
            source_height <= 0xFFFF_FFFF,
            target_width <= 0xFFFF_FFFF,
    ;
    let product: u128 = (source_height as u128) * (target_width as u128);
    if correct_font {
        (product * 3) / ((source_width as u128) * 5)
    } else {
        product / (source_width as u128)
    }
}

/// Resamples `image` to `target_width` columns with a Gaussian filter. The
/// number of rows is `target_height`. A width of zero gives an image without
/// pixels; the image's own size gives the image unchanged. An image without
/// pixels, or a grid beyond `MAX_DIMENSION` or beyond what can be allocated,
/// is refused with `InvalidDimension`.
pub fn resample(image: &Raster, target_width: u32, correct_font: bool) -> (scaled: Result<
    Raster,
    AsciifyError,
>)
    requires
        image.wf(),
    ensures
        scaled is Ok <==> resample_accepts(image, target_width, correct_font),
        scaled matches Ok(out) ==> is_resampling(
            &out,
            image,
            target_width as nat,
            target_height(
                image.width as nat,
                image.height as nat,
                target_width as nat,
                correct_font,
            ),
        ),
        scaled matches Err(e) ==> e == AsciifyError::InvalidDimension,
{
    if image.width == 0 || image.height == 0 || target_width > MAX_DIMENSION {
        return Err(AsciifyError::InvalidDimension);
    }
    let rows: u128 = compute_target_height(image.width, image.height, target_width, correct_font);
    if rows > MAX_DIMENSION as u128 {
        return Err(AsciifyError::InvalidDimension);
    }
    assert(image.width * rows <= 0xFFFF_FFFF * 16384) by (nonlinear_arith)
        requires
            image.width <= 0xFFFF_FFFF,
            rows <= 16384,
    ;
    let needed: u128 = (image.width as u128) * rows * 32;
    if needed > usize::MAX as u128 {
        return Err(AsciifyError::InvalidDimension);
    }
    Ok(gaussian_resize(image, target_width, rows as u32))
}

} // verus!
