use asciify::raster::MAX_DIMENSION;
use asciify::{
    asciify_image, asciify_image_color, assemble, join_lines, render_color, render_plain,
    resample, resolve_cell, to_ascii, to_ascii_preserve_color, AsciifyError, Cell, CellColor,
    ColorMode, PaletteColor, Pixel, Raster, RgbColor,
};

fn solid(width: u32, height: u32, pixel: Pixel) -> Raster {
    let mut data = Vec::new();
    for _ in 0..(width * height) {
        data.push(pixel.0);
        data.push(pixel.1);
        data.push(pixel.2);
    }
    Raster::from_raw(width, height, data).unwrap()
}

#[test]
fn asciify_test() {
    let image = solid(500, 300, Pixel(90, 160, 40));
    let ascii = asciify_image_color(&image, 250, true, false).unwrap();
    assert_eq!(ascii.len(), 90);
    for line in ascii {
        println!("{}", line);
    }
}

#[test]
fn from_raw_checks_the_length() {
    let made = Raster::from_raw(2, 2, vec![0; 12]).unwrap();
    assert_eq!(made.width, 2);
    assert_eq!(made.height, 2);
    assert_eq!(made.pixel_count(), 4);
    assert_eq!(Raster::from_raw(2, 2, vec![0; 11]).unwrap_err(), AsciifyError::DecodeError);
    assert_eq!(Raster::from_raw(2, 2, vec![0; 13]).unwrap_err(), AsciifyError::DecodeError);
    assert!(Raster::from_raw(0, 5, Vec::new()).is_ok());
}

#[test]
fn pixel_at_reads_row_by_row() {
    let image = Raster::from_raw(2, 1, vec![1, 2, 3, 4, 5, 6]).unwrap();
    assert_eq!(image.pixel_at(0), Pixel(1, 2, 3));
    assert_eq!(image.pixel_at(1), Pixel(4, 5, 6));
    assert_eq!(Raster::empty().pixel_count(), 0);
}

#[test]
fn error_messages_differ() {
    assert_eq!(AsciifyError::DecodeError.message(), "image data could not be decoded");
    assert_eq!(
        AsciifyError::InvalidDimension.message(),
        "image dimension is zero or too large"
    );
}

#[test]
fn resample_gives_the_width_asked_for() {
    let image = solid(100, 50, Pixel(10, 20, 30));
    for w in [1u32, 2, 7, 10, 100, 250] {
        let scaled = resample(&image, w, false).unwrap();
        assert_eq!(scaled.width, w);
        assert_eq!(scaled.height, w / 2);
        assert_eq!(scaled.data.len() as u32, w * (w / 2) * 3);
    }
}

#[test]
fn resample_height_follows_the_proportions() {
    let image = solid(100, 50, Pixel(10, 20, 30));
    assert_eq!(resample(&image, 10, false).unwrap().height, 5);
    assert_eq!(resample(&image, 10, true).unwrap().height, 3);
    let tall = solid(3, 7, Pixel(1, 1, 1));
    assert_eq!(resample(&tall, 5, false).unwrap().height, 11);
    assert_eq!(resample(&tall, 5, true).unwrap().height, 7);
}

#[test]
fn resample_to_width_zero_is_empty() {
    let image = solid(4, 4, Pixel(9, 9, 9));
    let scaled = resample(&image, 0, false).unwrap();
    assert_eq!(scaled.width, 0);
    assert_eq!(scaled.height, 0);
    assert_eq!(scaled.pixel_count(), 0);
}

#[test]
fn resample_refuses_bad_dimensions() {
    let none = Raster::from_raw(0, 0, Vec::new()).unwrap();
    assert_eq!(resample(&none, 10, false).unwrap_err(), AsciifyError::InvalidDimension);
    let flat = Raster::from_raw(5, 0, Vec::new()).unwrap();
    assert_eq!(resample(&flat, 10, false).unwrap_err(), AsciifyError::InvalidDimension);
    let image = solid(4, 4, Pixel(9, 9, 9));
    assert_eq!(
        resample(&image, MAX_DIMENSION + 1, false).unwrap_err(),
        AsciifyError::InvalidDimension
    );
    let tall = solid(1, 100, Pixel(9, 9, 9));
    assert_eq!(resample(&tall, 1000, false).unwrap_err(), AsciifyError::InvalidDimension);
    assert!(resample(&tall, 100, false).is_ok());
}

#[test]
fn resample_keeps_a_solid_colour() {
    let image = solid(8, 8, Pixel(200, 100, 50));
    let scaled = resample(&image, 4, false).unwrap();
    assert_eq!(scaled.pixel_count(), 16);
    for i in 0..16 {
        assert_eq!(scaled.pixel_at(i), Pixel(200, 100, 50));
    }
}

#[test]
fn assemble_counts_lines_by_rounding_up() {
    let cells = vec![Cell { glyph: '#', color: CellColor::Plain }; 250];
    let lines = assemble(&cells, 100);
    assert_eq!(lines.len(), 3);
    let counts: Vec<usize> = lines.iter().map(|l| l.len()).collect();
    assert_eq!(counts, vec![100, 100, 50]);
}

#[test]
fn assemble_keeps_order_and_a_short_last_line() {
    let glyphs = ['a', 'b', 'c', 'd', 'e'];
    let cells: Vec<Cell> =
        glyphs.iter().map(|g| Cell { glyph: *g, color: CellColor::Plain }).collect();
    assert_eq!(assemble(&cells, 2), vec!["ab", "cd", "e"]);
    assert_eq!(assemble(&cells, 5), vec!["abcde"]);
    assert_eq!(assemble(&cells, 6), vec!["abcde"]);
    assert_eq!(assemble(&cells, 1), vec!["a", "b", "c", "d", "e"]);
}

#[test]
fn assemble_of_nothing_is_no_line() {
    let cells: Vec<Cell> = Vec::new();
    assert_eq!(assemble(&cells, 3).len(), 0);
    assert_eq!(join_lines(&Vec::new(), 3).len(), 0);
}

#[test]
fn assemble_formats_each_cell() {
    let cells = vec![
        Cell { glyph: '@', color: CellColor::Named(PaletteColor::LightRed) },
        Cell { glyph: '.', color: CellColor::TrueColor(RgbColor(1, 2, 3)) },
        Cell { glyph: ':', color: CellColor::Plain },
    ];
    assert_eq!(
        assemble(&cells, 2),
        vec!["\x1b[91m@\x1b[0m\x1b[38;2;1;2;3m.\x1b[0m", ":"]
    );
}

#[test]
fn join_lines_concatenates_fragments() {
    let fragments: Vec<String> =
        vec!["ab".to_string(), "".to_string(), "c".to_string(), "def".to_string()];
    assert_eq!(join_lines(&fragments, 3), vec!["abc", "def"]);
    assert_eq!(join_lines(&fragments, 4), vec!["abcdef"]);
}

#[test]
fn to_ascii_gives_one_glyph_for_each_pixel() {
    let image = Raster::from_raw(3, 1, vec![0, 0, 0, 255, 255, 255, 255, 0, 0]).unwrap();
    assert_eq!(to_ascii(&image, 25), vec!['@', '.', 'S']);
}

#[test]
fn to_ascii_preserve_color_formats_each_pixel() {
    let image = Raster::from_raw(2, 1, vec![0, 0, 0, 255, 0, 0]).unwrap();
    assert_eq!(
        to_ascii_preserve_color(&image, 25, true),
        vec!["\x1b[38;2;0;0;0m@\x1b[0m", "\x1b[38;2;255;0;0mS\x1b[0m"]
    );
    assert_eq!(
        to_ascii_preserve_color(&image, 25, false),
        vec!["\x1b[38;5;16m@\x1b[0m", "\x1b[38;5;196mS\x1b[0m"]
    );
}

#[test]
fn render_of_an_empty_image_is_no_line() {
    assert_eq!(render_plain(&Raster::empty()).len(), 0);
    assert_eq!(render_color(&Raster::empty(), true).len(), 0);
}

#[test]
fn render_plain_gives_one_line_for_each_row() {
    let image =
        Raster::from_raw(2, 2, vec![0, 0, 0, 255, 255, 255, 255, 0, 0, 0, 255, 0]).unwrap();
    assert_eq!(render_plain(&image), vec!["@.", "S;"]);
}

#[test]
fn all_black_two_by_two_is_two_lines_of_the_darkest_glyph() {
    let image = solid(2, 2, Pixel(0, 0, 0));
    assert_eq!(asciify_image(&image, 2, false).unwrap(), vec!["@@", "@@"]);
}

#[test]
fn all_white_single_pixel_is_the_lightest_glyph() {
    let image = solid(1, 1, Pixel(255, 255, 255));
    assert_eq!(asciify_image(&image, 1, false).unwrap(), vec!["."]);
}

#[test]
fn asciify_image_refuses_width_zero_and_too_wide() {
    let image = solid(2, 2, Pixel(0, 0, 0));
    assert_eq!(asciify_image(&image, 0, false).unwrap_err(), AsciifyError::InvalidDimension);
    assert_eq!(
        asciify_image(&image, MAX_DIMENSION + 1, true).unwrap_err(),
        AsciifyError::InvalidDimension
    );
    assert_eq!(
        asciify_image_color(&image, 0, false, true).unwrap_err(),
        AsciifyError::InvalidDimension
    );
    let none = Raster::empty();
    assert_eq!(asciify_image(&none, 4, false).unwrap_err(), AsciifyError::InvalidDimension);
}

#[test]
fn asciify_image_scales_to_the_grid() {
    let image = solid(40, 20, Pixel(255, 255, 255));
    let lines = asciify_image(&image, 10, false).unwrap();
    assert_eq!(lines.len(), 5);
    for line in &lines {
        assert_eq!(line, "..........");
    }
    assert_eq!(asciify_image(&image, 10, true).unwrap().len(), 3);
}

#[test]
fn asciify_image_color_in_both_modes() {
    let image = solid(2, 1, Pixel(255, 0, 0));
    assert_eq!(
        asciify_image_color(&image, 2, false, true).unwrap(),
        vec!["\x1b[38;2;255;0;0mS\x1b[0m\x1b[38;2;255;0;0mS\x1b[0m"]
    );
    assert_eq!(
        asciify_image_color(&image, 2, false, false).unwrap(),
        vec!["\x1b[38;5;196mS\x1b[0m\x1b[38;5;196mS\x1b[0m"]
    );
}

#[test]
fn resolve_cell_takes_the_colour_by_mode() {
    let red = Pixel(255, 0, 0);
    assert_eq!(
        resolve_cell(red, 25, ColorMode::Plain),
        Cell { glyph: 'S', color: CellColor::Plain }
    );
    assert_eq!(
        resolve_cell(red, 25, ColorMode::Palette),
        Cell { glyph: 'S', color: CellColor::Named(PaletteColor::LightRed) }
    );
    assert_eq!(
        resolve_cell(red, 25, ColorMode::Gradient),
        Cell { glyph: 'S', color: CellColor::Gradient(RgbColor(255, 0, 0)) }
    );
    assert_eq!(
        resolve_cell(red, 25, ColorMode::TrueColor),
        Cell { glyph: 'S', color: CellColor::TrueColor(RgbColor(255, 0, 0)) }
    );
}

#[test]
fn resolved_cells_assemble_into_rows() {
    let image = Raster::from_raw(2, 2, vec![0, 0, 0, 255, 255, 255, 255, 0, 0, 0, 0, 238]).unwrap();
    let mut cells = Vec::new();
    for i in 0..image.pixel_count() {
        cells.push(resolve_cell(image.pixel_at(i), 25, ColorMode::Palette));
    }
    assert_eq!(cells.len(), 4);
    assert_eq!(
        assemble(&cells, image.width),
        vec!["\x1b[30m@\x1b[0m\x1b[97m.\x1b[0m", "\x1b[91mS\x1b[0m\x1b[34m@\x1b[0m"]
    );
}

#[test]
fn every_line_but_the_last_is_full() {
    for n in 0..40usize {
        for w in 1..9u32 {
            let cells = vec![Cell { glyph: '+', color: CellColor::Plain }; n];
            let lines = assemble(&cells, w);
            assert_eq!(lines.len(), (n + w as usize - 1) / w as usize);
            for (i, line) in lines.iter().enumerate() {
                if i + 1 < lines.len() {
                    assert_eq!(line.len(), w as usize);
                } else {
                    assert_eq!(line.len(), n - i * w as usize);
                    assert!(line.len() >= 1);
                }
            }
        }
    }
}
