//! Colours: the sixteen named terminal colours, nearest-colour matching, and
//! the escape sequences that select a foreground colour.

use vstd::prelude::*;
use crate::text::{decimal, push_decimal};

verus! {

/// A colour as red, green and blue channel values.
#[derive(Clone, Copy, Debug, PartialEq, Eq, Structural)]
pub struct RgbColor(pub u32, pub u32, pub u32);

/// The sixteen named terminal colours, eight standard and eight bright, in
/// the order in which they are searched.
#[derive(Clone, Copy, Debug, PartialEq, Eq, Structural)]
pub enum PaletteColor {
    Black,
    Red,
    Green,
    Yellow,
    Blue,
    Magenta,
    Cyan,
    Gray,
    DarkGray,
    LightRed,
    LightGreen,
    LightYellow,
    LightBlue,
    LightMagenta,
    LightCyan,
    White,
}

/// How a cell is coloured.
#[derive(Clone, Copy, Debug, PartialEq, Eq, Structural)]
pub enum CellColor {
    /// No colour: the glyph alone.
    Plain,
    /// One of the sixteen named colours.
    Named(PaletteColor),
    /// An entry of the 256-colour table: grey ramp or colour cube.
    Gradient(RgbColor),
    /// The channel values themselves, as 24-bit colour.
    TrueColor(RgbColor),
}

/// Number of named colours.
pub const PALETTE_SIZE: usize = 16;

/// The sequence that ends colouring.
pub open spec fn reset_text() -> Seq<char> {
    "\x1b[0m"@
}

/// The named colour at position `i` of the search order.
pub open spec fn palette_at(i: int) -> PaletteColor {
    if i <= 0 {
        PaletteColor::Black
    } else if i == 1 {
        PaletteColor::Red
    } else if i == 2 {
        PaletteColor::Green
    } else if i == 3 {
        PaletteColor::Yellow
    } else if i == 4 {
        PaletteColor::Blue
    } else if i == 5 {
        PaletteColor::Magenta
    } else if i == 6 {
        PaletteColor::Cyan
    } else if i == 7 {
        PaletteColor::Gray
    } else if i == 8 {
        PaletteColor::DarkGray
    } else if i == 9 {
        PaletteColor::LightRed
    } else if i == 10 {
        PaletteColor::LightGreen
    } else if i == 11 {
        PaletteColor::LightYellow
    } else if i == 12 {
        PaletteColor::LightBlue
    } else if i == 13 {
        PaletteColor::LightMagenta
    } else if i == 14 {
        PaletteColor::LightCyan
    } else {
        PaletteColor::White
    }
}

impl PaletteColor {
    /// Position of the colour in the search order.
    pub open spec fn index(self) -> int {
        match self {
            PaletteColor::Black => 0,
            PaletteColor::Red => 1,
            PaletteColor::Green => 2,
            PaletteColor::Yellow => 3,
            PaletteColor::Blue => 4,
            PaletteColor::Magenta => 5,
            PaletteColor::Cyan => 6,
            PaletteColor::Gray => 7,
            PaletteColor::DarkGray => 8,
            PaletteColor::LightRed => 9,
            PaletteColor::LightGreen => 10,
            PaletteColor::LightYellow => 11,
            PaletteColor::LightBlue => 12,
            PaletteColor::LightMagenta => 13,
            PaletteColor::LightCyan => 14,
            PaletteColor::White => 15,
        }
    }

    /// The colour's reference channel values.
    pub open spec fn reference(self) -> RgbColor {
        match self {
            PaletteColor::Black => RgbColor(0, 0, 0),
            PaletteColor::Red => RgbColor(205, 0, 0),
            PaletteColor::Green => RgbColor(0, 205, 0),
            PaletteColor::Yellow => RgbColor(205, 205, 0),
            PaletteColor::Blue => RgbColor(0, 0, 238),
            PaletteColor::Magenta => RgbColor(205, 0, 205),
            PaletteColor::Cyan => RgbColor(0, 205, 205),
            PaletteColor::Gray => RgbColor(229, 229, 229),
            PaletteColor::DarkGray => RgbColor(127, 127, 127),
            PaletteColor::LightRed => RgbColor(255, 0, 0),
            PaletteColor::LightGreen => RgbColor(0, 255, 0),
            PaletteColor::LightYellow => RgbColor(255, 255, 0),
            PaletteColor::LightBlue => RgbColor(92, 92, 255),
            PaletteColor::LightMagenta => RgbColor(255, 0, 255),
            PaletteColor::LightCyan => RgbColor(0, 255, 255),
            PaletteColor::White => RgbColor(255, 255, 255),
        }
    }

    /// The number that selects the colour as foreground: 30 to 37 for the
    /// standard colours, 90 to 97 for the bright ones.
    pub open spec fn foreground_code(self) -> nat {
        if self.index() < 8 {
            (30 + self.index()) as nat
        } else {
            (82 + self.index()) as nat
        }
    }

    /// The escape sequence that selects the colour as foreground.
    pub open spec fn escape_text(self) -> Seq<char> {
        "\x1b["@ + decimal(self.foreground_code()) + "m"@
    }

    /// The colour at position `i` of the search order.
    pub fn from_index(i: usize) -> (color: PaletteColor)
        requires
            i < PALETTE_SIZE,
        ensures
            color == palette_at(i as int),
            color.index() == i,
    {
        if i == 0 {
            PaletteColor::Black
        } else if i == 1 {
            PaletteColor::Red
        } else if i == 2 {
            PaletteColor::Green
        } else if i == 3 {
            PaletteColor::Yellow
        } else if i == 4 {
            PaletteColor::Blue
        } else if i == 5 {
            PaletteColor::Magenta
        } else if i == 6 {
            PaletteColor::Cyan
        } else if i == 7 {
            PaletteColor::Gray
        } else if i == 8 {
            PaletteColor::DarkGray
        } else if i == 9 {
            PaletteColor::LightRed
        } else if i == 10 {
            PaletteColor::LightGreen
        } else if i == 11 {
            PaletteColor::LightYellow
        } else if i == 12 {
            PaletteColor::LightBlue
        } else if i == 13 {
            PaletteColor::LightMagenta
        } else if i == 14 {
            PaletteColor::LightCyan
        } else {
            PaletteColor::White
        }
    }

    /// Position of the colour in the search order.
    pub fn position(&self) -> (i: usize)
        ensures
            i == self.index(),
            i < PALETTE_SIZE,
            palette_at(i as int) == *self,
    {
        match self {
            PaletteColor::Black => 0,
            PaletteColor::Red => 1,
            PaletteColor::Green => 2,
            PaletteColor::Yellow => 3,
            PaletteColor::Blue => 4,
            PaletteColor::Magenta => 5,
            PaletteColor::Cyan => 6,
            PaletteColor::Gray => 7,
            PaletteColor::DarkGray => 8,
            PaletteColor::LightRed => 9,
            PaletteColor::LightGreen => 10,
            PaletteColor::LightYellow => 11,
            PaletteColor::LightBlue => 12,
            PaletteColor::LightMagenta => 13,
            PaletteColor::LightCyan => 14,
            PaletteColor::White => 15,
        }
    }

    /// The colour's reference channel values.
    pub fn rgb(&self) -> (c: RgbColor)
        ensures
            c == self.reference(),
            c.0 <= 255 && c.1 <= 255 && c.2 <= 255,
    {
        match self {
            PaletteColor::Black => RgbColor(0, 0, 0),
            PaletteColor::Red => RgbColor(205, 0, 0),
            PaletteColor::Green => RgbColor(0, 205, 0),
            PaletteColor::Yellow => RgbColor(205, 205, 0),
            PaletteColor::Blue => RgbColor(0, 0, 238),
            PaletteColor::Magenta => RgbColor(205, 0, 205),
            PaletteColor::Cyan => RgbColor(0, 205, 205),
            PaletteColor::Gray => RgbColor(229, 229, 229),
            PaletteColor::DarkGray => RgbColor(127, 127, 127),
            PaletteColor::LightRed => RgbColor(255, 0, 0),
            PaletteColor::LightGreen => RgbColor(0, 255, 0),
            PaletteColor::LightYellow => RgbColor(255, 255, 0),
            PaletteColor::LightBlue => RgbColor(92, 92, 255),
            PaletteColor::LightMagenta => RgbColor(255, 0, 255),
            PaletteColor::LightCyan => RgbColor(0, 255, 255),
            PaletteColor::White => RgbColor(255, 255, 255),
        }
    }

    /// The escape sequence that selects the colour as foreground.
    pub fn to_ansi_escape(self) -> (out: String)
        ensures
            out@ == self.escape_text(),
    {
        let i: usize = self.position();
        let code: u64 = if i < 8 {
            30 + i as u64
        } else {
            82 + i as u64
        };
        let mut out = String::new();
        out.push_str("\x1b[");
        push_decimal(&mut out, code);
        out.push_str("m");
        assert(out@ =~= self.escape_text());
        out
    }
}

/// Entry of the 256-colour table for the channel values `(r, g, b)`.
///
/// Equal channels are a grey: below 8 the darkest entry, above 248 the
/// lightest, between them an entry of the 24-step grey ramp that starts at
/// 232. Other values go to the colour cube that starts at 16, each channel
/// scaled from 0..255 to 0..5 and weighted 36, 6 and 1.
pub open spec fn gradient_index(r: nat, g: nat, b: nat) -> nat {
    if r == g && g == b {
        if r < 8 {
            16
        } else if r > 248 {
            231
        } else {
            ((r - 8) * 24 / 247 + 232) as nat
        }
    } else {
        (16 * 255 + 36 * (5 * r) + 6 * (5 * g) + 5 * b) / 255
    }
}

impl RgbColor {
    /// The escape sequence that selects the colour's entry of the 256-colour
    /// table as foreground.
    pub open spec fn gradient_escape_text(self) -> Seq<char> {
        "\x1b[38;5;"@ + decimal(gradient_index(self.0 as nat, self.1 as nat, self.2 as nat)) + "m"@
    }

    /// The escape sequence that selects the colour itself, as 24-bit colour,
    /// as foreground.
    pub open spec fn true_color_escape_text(self) -> Seq<char> {
        "\x1b[38;2;"@ + decimal(self.0 as nat) + ";"@ + decimal(self.1 as nat) + ";"@ + decimal(
            self.2 as nat,
        ) + "m"@
    }

    /// The colour's entry of the 256-colour table.
    pub fn gradient_entry(self) -> (index: u64)
        ensures
            index == gradient_index(self.0 as nat, self.1 as nat, self.2 as nat),
            self.0 <= 255 && self.1 <= 255 && self.2 <= 255 ==> 16 <= index <= 255,
    {
        if self.0 == self.1 && self.1 == self.2 {
            if self.0 < 8 {
                16
            } else if self.0 > 248 {
                231
            } else {
                (self.0 as u64 - 8) * 24 / 247 + 232
            }
        } else {
            let r: u64 = self.0 as u64;
            let g: u64 = self.1 as u64;
            let b: u64 = self.2 as u64;
            (16 * 255 + 36 * (5 * r) + 6 * (5 * g) + 5 * b) / 255
        }
    }

    /// The escape sequence that selects the colour's entry of the 256-colour
    /// table as foreground.
    pub fn to_ansi_escape(self) -> (out: String)
        ensures
            out@ == self.gradient_escape_text(),
    {
        let mut out = String::new();
        out.push_str("\x1b[38;5;");
        push_decimal(&mut out, self.gradient_entry());
        out.push_str("m");
        assert(out@ =~= self.gradient_escape_text());
        out
    }

    /// The escape sequence that selects the colour itself, as 24-bit colour,
    /// as foreground.
    pub fn to_ansi_escape_true_color(self) -> (out: String)
        ensures
            out@ == self.true_color_escape_text(),
    {
        let mut out = String::new();
        out.push_str("\x1b[38;2;");
        push_decimal(&mut out, self.0 as u64);
        out.push_str(";");
        push_decimal(&mut out, self.1 as u64);
        out.push_str(";");
        push_decimal(&mut out, self.2 as u64);
        out.push_str("m");
        assert(out@ =~= self.true_color_escape_text());
        out
    }
}

/// The text of a glyph coloured through the 256-colour table or, with
/// `true_color`, as 24-bit colour: escape, glyph, reset.
pub open spec fn color_char_text(c: char, color: RgbColor, true_color: bool) -> Seq<char> {
    (if true_color {
        color.true_color_escape_text()
    } else {
        color.gradient_escape_text()
    }).push(c) + reset_text()
}

/// The text of one cell: the glyph alone where it is plain, else the escape
/// that selects its colour, the glyph and the reset sequence.
pub open spec fn cell_text(glyph: char, color: CellColor) -> Seq<char> {
    match color {
        CellColor::Plain => seq![glyph],
        CellColor::Named(p) => p.escape_text().push(glyph) + reset_text(),
        CellColor::Gradient(c) => color_char_text(glyph, c, false),
        CellColor::TrueColor(c) => color_char_text(glyph, c, true),
    }
}

/// Formats the glyph `c` in the colour `color`, through the 256-colour table
/// or, with `true_color`, as 24-bit colour.
pub fn color_char(c: char, color: RgbColor, true_color: bool) -> (out: String)
    ensures
        out@ == color_char_text(c, color, true_color),
{
    let mut out = if true_color {
        color.to_ansi_escape_true_color()
    } else {
        color.to_ansi_escape()
    };
    out.push(c);
    out.push_str("\x1b[0m");
    out
}

/// Formats one cell.
pub fn format_cell(glyph: char, color: CellColor) -> (out: String)
    ensures
        out@ == cell_text(glyph, color),
{
    match color {
        CellColor::Plain => {
            let mut out = String::new();
            out.push(glyph);
            assert(out@ =~= seq![glyph]);
            out
        },
        CellColor::Named(p) => {
            let mut out = p.to_ansi_escape();
            out.push(glyph);
            out.push_str("\x1b[0m");
            out
        },
        CellColor::Gradient(c) => color_char(glyph, c, false),
        CellColor::TrueColor(c) => color_char(glyph, c, true),
    }
}

/// Distance between two values of one channel.
pub open spec fn channel_gap(a: int, b: int) -> int {
    if a >= b {
        a - b
    } else {
        b - a
    }
}

/// Squared Euclidean distance between `(r, g, b)` and `c`.
pub open spec fn distance_sq(r: int, g: int, b: int, c: RgbColor) -> int {
    channel_gap(r, c.0 as int) * channel_gap(r, c.0 as int) + channel_gap(g, c.1 as int)
        * channel_gap(g, c.1 as int) + channel_gap(b, c.2 as int) * channel_gap(b, c.2 as int)
}

/// Position of the nearest colour to `(r, g, b)` among the first `n` of the
/// search order; of several equally near, the first.
pub open spec fn nearest_index(r: int, g: int, b: int, n: int) -> int
    decreases n,
{
    if n <= 1 {
        0
    } else {
        let best = nearest_index(r, g, b, n - 1);
        if distance_sq(r, g, b, palette_at(n - 1).reference()) < distance_sq(
            r,
            g,
            b,
            palette_at(best).reference(),
        ) {
            n - 1
        } else {
            best
        }
    }
}

/// The named colour nearest to `(r, g, b)`; of several equally near, the
/// first in the search order.
pub open spec fn nearest_palette(r: int, g: int, b: int) -> PaletteColor {
    palette_at(nearest_index(r, g, b, PALETTE_SIZE as int))
}

fn gap(a: u32, b: u32) -> (d: u32)
    ensures
        d == channel_gap(a as int, b as int),
{
    if a >= b {
        a - b
    } else {
        b - a
    }
}

fn distance_to(r: u8, g: u8, b: u8, c: RgbColor) -> (d: u32)
    requires
        c.0 <= 255 && c.1 <= 255 && c.2 <= 255,
    ensures
        d == distance_sq(r as int, g as int, b as int, c),
{
    let dr: u32 = gap(r as u32, c.0);
    let dg: u32 = gap(g as u32, c.1);
    let db: u32 = gap(b as u32, c.2);
    assert(dr * dr <= 65025 && dg * dg <= 65025 && db * db <= 65025) by (nonlinear_arith)
        requires
            dr <= 255 && dg <= 255 && db <= 255,
    ;
    dr * dr + dg * dg + db * db
}

/// The named colour nearest to `(r, g, b)` by squared Euclidean distance; of
/// several equally near, the first in the search order.
pub fn nearest_palette_color(r: u8, g: u8, b: u8) -> (color: PaletteColor)
    ensures
        color == nearest_palette(r as int, g as int, b as int),
{
    let mut best: usize = 0;
    let mut best_distance: u32 = distance_to(r, g, b, PaletteColor::from_index(0).rgb());
    let mut i: usize = 1;
    while i < PALETTE_SIZE
        invariant
            1 <= i <= PALETTE_SIZE,
            best == nearest_index(r as int, g as int, b as int, i as int),
            0 <= best < i,
            best_distance == distance_sq(
                r as int,
                g as int,
                b as int,
                palette_at(best as int).reference(),
            ),
        decreases PALETTE_SIZE - i,
    {
        let d: u32 = distance_to(r, g, b, PaletteColor::from_index(i).rgb());
        if d < best_distance {
            best = i;
            best_distance = d;
        }
        i = i + 1;
    }
    PaletteColor::from_index(best)
}

/// What `nearest_index` picks is as near as any of the first `n` colours, and
/// strictly nearer than each one before it.
pub proof fn nearest_index_is_first_minimum(r: int, g: int, b: int, n: int)
    requires
        1 <= n <= PALETTE_SIZE,
    ensures
        0 <= nearest_index(r, g, b, n) < n,
        forall|j: int|
            0 <= j < n ==> distance_sq(r, g, b, palette_at(nearest_index(r, g, b, n)).reference())
                <= #[trigger] distance_sq(r, g, b, palette_at(j).reference()),
        forall|j: int|
            0 <= j < nearest_index(r, g, b, n) ==> distance_sq(
                r,
                g,
                b,
                palette_at(nearest_index(r, g, b, n)).reference(),
            ) < #[trigger] distance_sq(r, g, b, palette_at(j).reference()),
    decreases n,
{
    if n > 1 {
        nearest_index_is_first_minimum(r, g, b, n - 1);
    }
}

/// A squared distance of zero means equal channel values.
pub proof fn zero_distance_is_equality(r: int, g: int, b: int, c: RgbColor)
    requires
        distance_sq(r, g, b, c) == 0,
    ensures
        r == c.0 && g == c.1 && b == c.2,
{
    let x = channel_gap(r, c.0 as int);
    let y = channel_gap(g, c.1 as int);
    let z = channel_gap(b, c.2 as int);
    assert(x == 0 && y == 0 && z == 0) by (nonlinear_arith)
        requires
            x * x + y * y + z * z == 0,
    ;
}

/// Matching a named colour's own reference values gives that colour back.
pub proof fn nearest_of_reference_is_itself(c: PaletteColor)
    ensures
        nearest_palette(c.reference().0 as int, c.reference().1 as int, c.reference().2 as int)
            == c,
{
    let r = c.reference().0 as int;
    let g = c.reference().1 as int;
    let b = c.reference().2 as int;
    let k = nearest_index(r, g, b, PALETTE_SIZE as int);
    nearest_index_is_first_minimum(r, g, b, PALETTE_SIZE as int);
    assert(palette_at(c.index()) == c);
    assert(distance_sq(r, g, b, palette_at(c.index()).reference()) == 0);
    assert(distance_sq(r, g, b, palette_at(k).reference()) >= 0) by (nonlinear_arith);
    zero_distance_is_equality(r, g, b, palette_at(k).reference());
    assert(palette_at(k).reference() == c.reference());
}

} // verus!
