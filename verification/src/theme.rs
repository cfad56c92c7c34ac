//! The byte values behind theme colors. A theme names its colors as ANSI names, xterm-256
//! indexes or RGB triples, or leaves a slot at `Reset`; the desktop paints them from a fixed
//! VGA-ish palette, the xterm color cube and grayscale ramp, and its own window defaults.
//! Turning the bytes into the GUI's floating-point colors happens outside the verified library.

use vstd::prelude::*;

verus! {

/// The sixteen ANSI color names.
#[derive(Clone, Copy, Debug, PartialEq, Eq, Structural)]
pub enum NamedColor {
    Black,
    Red,
    Green,
    Yellow,
    Blue,
    Magenta,
    Cyan,
    Gray,
    DarkGray,
    LightRed,
    LightGreen,
    LightYellow,
    LightBlue,
    LightMagenta,
    LightCyan,
    White,
}

/// A color as a theme file spells it.
#[derive(Clone, Copy, Debug, PartialEq, Eq, Structural)]
pub enum ThemeColor {
    /// The slot's own default.
    Reset,
    Named(NamedColor),
    Indexed(u8),
    Rgb(u8, u8, u8),
}

/// An opaque color as three 8-bit sRGB channels.
#[derive(Clone, Copy, Debug, PartialEq, Eq, Structural)]
pub struct Rgb8 {
    pub r: u8,
    pub g: u8,
    pub b: u8,
}

/// Three channels as a color.
pub open spec fn rgb8(r: u8, g: u8, b: u8) -> Rgb8 {
    Rgb8 { r, g, b }
}

/// The palette the desktop uses for named colors, chosen to read well on the dark window
/// background rather than to match any particular terminal.
pub open spec fn named_spec(color: NamedColor) -> Rgb8 {
    match color {
        NamedColor::Black => rgb8(0x00, 0x00, 0x00),
        NamedColor::Red => rgb8(0xcd, 0x31, 0x31),
        NamedColor::Green => rgb8(0x0d, 0xbc, 0x79),
        NamedColor::Yellow => rgb8(0xe5, 0xe5, 0x10),
        NamedColor::Blue => rgb8(0x24, 0x72, 0xc8),
        NamedColor::Magenta => rgb8(0xbc, 0x3f, 0xbc),
        NamedColor::Cyan => rgb8(0x11, 0xa8, 0xcd),
        NamedColor::Gray => rgb8(0xa0, 0xa0, 0xa0),
        NamedColor::DarkGray => rgb8(0x66, 0x66, 0x66),
        NamedColor::LightRed => rgb8(0xf1, 0x4c, 0x4c),
        NamedColor::LightGreen => rgb8(0x23, 0xd1, 0x8b),
        NamedColor::LightYellow => rgb8(0xf5, 0xf5, 0x43),
        NamedColor::LightBlue => rgb8(0x3b, 0x8e, 0xea),
        NamedColor::LightMagenta => rgb8(0xd6, 0x70, 0xd6),
        NamedColor::LightCyan => rgb8(0x29, 0xb8, 0xdb),
        NamedColor::White => rgb8(0xe5, 0xe5, 0xe5),
    }
}

/// The ANSI name at position `index` of the xterm palette's first sixteen entries.
pub open spec fn ansi_spec(index: int) -> NamedColor {
    if index == 0 {
        NamedColor::Black
    } else if index == 1 {
        NamedColor::Red
    } else if index == 2 {
        NamedColor::Green
    } else if index == 3 {
        NamedColor::Yellow
    } else if index == 4 {
        NamedColor::Blue
    } else if index == 5 {
        NamedColor::Magenta
    } else if index == 6 {
        NamedColor::Cyan
    } else if index == 7 {
        NamedColor::Gray
    } else if index == 8 {
        NamedColor::DarkGray
    } else if index == 9 {
        NamedColor::LightRed
    } else if index == 10 {
        NamedColor::LightGreen
    } else if index == 11 {
        NamedColor::LightYellow
    } else if index == 12 {
        NamedColor::LightBlue
    } else if index == 13 {
        NamedColor::LightMagenta
    } else if index == 14 {
        NamedColor::LightCyan
    } else {
        NamedColor::White
    }
}

/// One channel of the 6x6x6 color cube: level 0 is off, the others start at 95 and step by 40.
pub open spec fn cube_level(level: int) -> int {
    if level == 0 { 0 } else { 55 + level * 40 }
}

/// The xterm-256 palette: the sixteen ANSI colors, then a 6x6x6 color cube, then a
/// 24-step grayscale ramp from 8 up by 10.
pub open spec fn indexed_spec(index: u8) -> Rgb8 {
    if index < 16 {
        named_spec(ansi_spec(index as int))
    } else if index < 232 {
        let i = index - 16;
        rgb8(
            cube_level(i / 36) as u8,
            cube_level((i % 36) / 6) as u8,
            cube_level(i % 6) as u8,
        )
    } else {
        let v = (8 + (index - 232) * 10) as u8;
        rgb8(v, v, v)
    }
}

/// The bytes of a theme color, or `None` for `Reset`, which takes the slot's own default.
pub open spec fn resolve_spec(color: ThemeColor) -> Option<Rgb8> {
    match color {
        ThemeColor::Reset => None,
        ThemeColor::Named(name) => Some(named_spec(name)),
        ThemeColor::Indexed(index) => Some(indexed_spec(index)),
        ThemeColor::Rgb(r, g, b) => Some(rgb8(r, g, b)),
    }
}

/// The color the desktop paints for an ANSI name.
pub fn named(color: NamedColor) -> (rgb: Rgb8)
    ensures
        rgb == named_spec(color),
{
    match color {
        NamedColor::Black => Rgb8 { r: 0x00, g: 0x00, b: 0x00 },
        NamedColor::Red => Rgb8 { r: 0xcd, g: 0x31, b: 0x31 },
        NamedColor::Green => Rgb8 { r: 0x0d, g: 0xbc, b: 0x79 },
        NamedColor::Yellow => Rgb8 { r: 0xe5, g: 0xe5, b: 0x10 },
        NamedColor::Blue => Rgb8 { r: 0x24, g: 0x72, b: 0xc8 },
        NamedColor::Magenta => Rgb8 { r: 0xbc, g: 0x3f, b: 0xbc },
        NamedColor::Cyan => Rgb8 { r: 0x11, g: 0xa8, b: 0xcd },
        NamedColor::Gray => Rgb8 { r: 0xa0, g: 0xa0, b: 0xa0 },
        NamedColor::DarkGray => Rgb8 { r: 0x66, g: 0x66, b: 0x66 },
        NamedColor::LightRed => Rgb8 { r: 0xf1, g: 0x4c, b: 0x4c },
        NamedColor::LightGreen => Rgb8 { r: 0x23, g: 0xd1, b: 0x8b },
        NamedColor::LightYellow => Rgb8 { r: 0xf5, g: 0xf5, b: 0x43 },
        NamedColor::LightBlue => Rgb8 { r: 0x3b, g: 0x8e, b: 0xea },
        NamedColor::LightMagenta => Rgb8 { r: 0xd6, g: 0x70, b: 0xd6 },
        NamedColor::LightCyan => Rgb8 { r: 0x29, g: 0xb8, b: 0xdb },
        NamedColor::White => Rgb8 { r: 0xe5, g: 0xe5, b: 0xe5 },
    }
}

/// The ANSI name at `index` of the first sixteen xterm entries.
pub fn ansi(index: u8) -> (name: NamedColor)
    requires
        index < 16,
    ensures
        name == ansi_spec(index as int),
{
    match index {
        0 => NamedColor::Black,
        1 => NamedColor::Red,
        2 => NamedColor::Green,
        3 => NamedColor::Yellow,
        4 => NamedColor::Blue,
        5 => NamedColor::Magenta,
        6 => NamedColor::Cyan,
        7 => NamedColor::Gray,
        8 => NamedColor::DarkGray,
        9 => NamedColor::LightRed,
        10 => NamedColor::LightGreen,
        11 => NamedColor::LightYellow,
        12 => NamedColor::LightBlue,
        13 => NamedColor::LightMagenta,
        14 => NamedColor::LightCyan,
        _ => NamedColor::White,
    }
}

fn cube_step(level: u8) -> (v: u8)
    requires
        level < 6,
    ensures
        v as int == cube_level(level as int),
{
    if level == 0 {
        0
    } else {
        55 + level * 40
    }
}

/// The color of xterm-256 palette entry `index`.
pub fn indexed(index: u8) -> (rgb: Rgb8)
    ensures
        rgb == indexed_spec(index),
{
    if index < 16 {
        named(ansi(index))
    } else if index < 232 {
        let i = index - 16;
        Rgb8 { r: cube_step(i / 36), g: cube_step((i % 36) / 6), b: cube_step(i % 6) }
    } else {
        let v = 8 + (index - 232) * 10;
        Rgb8 { r: v, g: v, b: v }
    }
}

impl ThemeColor {
    /// The bytes this color paints, or `None` for `Reset`: the caller supplies the slot's
    /// default.
    pub fn resolve(self) -> (rgb: Option<Rgb8>)
        ensures
            rgb == resolve_spec(self),
    {
        match self {
            ThemeColor::Reset => None,
            ThemeColor::Named(name) => Some(named(name)),
            ThemeColor::Indexed(index) => Some(indexed(index)),
            ThemeColor::Rgb(r, g, b) => Some(Rgb8 { r, g, b }),
        }
    }
}

/// The window's default background, where a theme says `Reset`.
pub fn window_bg() -> (rgb: Rgb8)
    ensures
        rgb == rgb8(0x12, 0x12, 0x12),
{
    Rgb8 { r: 0x12, g: 0x12, b: 0x12 }
}

/// The window's default text color, where a theme says `Reset`.
pub fn window_fg() -> (rgb: Rgb8)
    ensures
        rgb == rgb8(0xe5, 0xe5, 0xe5),
{
    Rgb8 { r: 0xe5, g: 0xe5, b: 0xe5 }
}

/// The fallback for the theme's surface slot: a step lighter than the window background so
/// panels still separate from the content.
pub fn panel_bg() -> (rgb: Rgb8)
    ensures
        rgb == rgb8(0x1f, 0x1f, 0x22),
{
    Rgb8 { r: 0x1f, g: 0x1f, b: 0x22 }
}

/// The Windows close-caption red (a system convention, not themed).
pub fn close_red() -> (rgb: Rgb8)
    ensures
        rgb == rgb8(0xe8, 0x11, 0x23),
{
    Rgb8 { r: 0xe8, g: 0x11, b: 0x23 }
}

/// The first sixteen palette entries are the named colors, in ANSI order.
pub proof fn lemma_indexed_low_entries_are_named(index: u8)
    requires
        index < 16,
    ensures
        indexed_spec(index) == named_spec(ansi_spec(index as int)),
{
}

/// Entry `16 + 36 * r + 6 * g + b` of the color cube has levels `r`, `g` and `b`.
pub proof fn lemma_color_cube(r: u8, g: u8, b: u8)
    requires
        r < 6,
        g < 6,
        b < 6,
    ensures
        indexed_spec((16 + 36 * r + 6 * g + b) as u8) == rgb8(
            cube_level(r as int) as u8,
            cube_level(g as int) as u8,
            cube_level(b as int) as u8,
        ),
{
    let i = 36 * r + 6 * g + b;
    assert(i / 36 == r && (i % 36) / 6 == g && i % 6 == b) by (nonlinear_arith)
        requires
            i == 36 * r + 6 * g + b,
            r < 6,
            g < 6,
            b < 6,
    ;
}

/// The grayscale ramp is gray and rises by ten per entry.
pub proof fn lemma_grayscale_ramp(index: u8)
    requires
        232 <= index < 255,
    ensures
        indexed_spec(index).r == indexed_spec(index).g == indexed_spec(index).b,
        indexed_spec((index + 1) as u8).r == indexed_spec(index).r + 10,
{
}

/// Whether a channel reads as lit: at least 0x90.
pub open spec fn lit(channel: u8) -> bool {
    channel >= 0x90
}

/// The sum of a color's channels, a rough brightness.
pub open spec fn channel_sum(c: Rgb8) -> int {
    c.r + c.g + c.b
}

/// The first sixteen xterm entries follow the ANSI numbering: bit 0 of the index lights the red
/// channel, bit 1 the green and bit 2 the blue, and bit 3 picks the bright variant, which is
/// brighter than the normal one with the same three bits. (So 1 is red, 2 green, 4 blue, 6 cyan,
/// 7 gray, 8 dark gray, 10 light green.)
pub proof fn lemma_ansi_entries_follow_the_index_bits(index: u8)
    requires
        index < 16,
    ensures
        lit(indexed_spec(index).r) == (index % 2 == 1),
        lit(indexed_spec(index).g) == ((index / 2) % 2 == 1),
        lit(indexed_spec(index).b) == ((index / 4) % 2 == 1),
        index < 8 ==> channel_sum(indexed_spec((index + 8) as u8)) > channel_sum(indexed_spec(index)),
{
    if index == 0 {
    } else if index == 1 {
    } else if index == 2 {
    } else if index == 3 {
    } else if index == 4 {
    } else if index == 5 {
    } else if index == 6 {
    } else if index == 7 {
    } else if index == 8 {
    } else if index == 9 {
    } else if index == 10 {
    } else if index == 11 {
    } else if index == 12 {
    } else if index == 13 {
    } else if index == 14 {
    } else {
    }
}

} // verus!
