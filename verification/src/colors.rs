//! Color conversion for terminal rendering.
//!
//! Colors are packed as `0xRRGGBBAA` values. The palette follows the
//! "Pigs in Space" theme.

use vstd::prelude::*;

use crate::content::{CellColor, NamedColor};

verus! {

/// Terminal color palette.
pub struct TerminalColors;

impl TerminalColors {
    pub fn background() -> (r: u32)
        ensures
            r == 0x21262cff,
    {
        0x21262cff
    }

    pub fn foreground() -> (r: u32)
        ensures
            r == 0xb6c4d2ff,
    {
        0xb6c4d2ff
    }

    pub fn cursor() -> (r: u32)
        ensures
            r == 0x4c9c9dff,
    {
        0x4c9c9dff
    }

    pub fn selection() -> (r: u32)
        ensures
            r == 0x4c9c9d30,
    {
        0x4c9c9d30
    }

    pub fn ansi_black() -> (r: u32)
        ensures
            r == 0x2d333aff,
    {
        0x2d333aff
    }

    pub fn ansi_red() -> (r: u32)
        ensures
            r == 0xfb8ea0ff,
    {
        0xfb8ea0ff
    }

    pub fn ansi_green() -> (r: u32)
        ensures
            r == 0xc3e88dff,
    {
        0xc3e88dff
    }

    pub fn ansi_yellow() -> (r: u32)
        ensures
            r == 0xffcb6bff,
    {
        0xffcb6bff
    }

    pub fn ansi_blue() -> (r: u32)
        ensures
            r == 0x82aaffff,
    {
        0x82aaffff
    }

    pub fn ansi_magenta() -> (r: u32)
        ensures
            r == 0xc792eaff,
    {
        0xc792eaff
    }

    pub fn ansi_cyan() -> (r: u32)
        ensures
            r == 0x89ddffff,
    {
        0x89ddffff
    }

    pub fn ansi_white() -> (r: u32)
        ensures
            r == 0xffffffff,
    {
        0xffffffff
    }

    pub fn ansi_bright_black() -> (r: u32)
        ensures
            r == 0x636e80ff,
    {
        0x636e80ff
    }

    pub fn ansi_bright_red() -> (r: u32)
        ensures
            r == 0xff5370ff,
    {
        0xff5370ff
    }

    pub fn ansi_bright_green() -> (r: u32)
        ensures
            r == 0xc3e88dff,
    {
        0xc3e88dff
    }

    pub fn ansi_bright_yellow() -> (r: u32)
        ensures
            r == 0xffcb6bff,
    {
        0xffcb6bff
    }

    pub fn ansi_bright_blue() -> (r: u32)
        ensures
            r == 0x82aaffff,
    {
        0x82aaffff
    }

    pub fn ansi_bright_magenta() -> (r: u32)
        ensures
            r == 0xc792eaff,
    {
        0xc792eaff
    }

    pub fn ansi_bright_cyan() -> (r: u32)
        ensures
            r == 0x89ddffff,
    {
        0x89ddffff
    }

    pub fn ansi_bright_white() -> (r: u32)
        ensures
            r == 0xffffffff,
    {
        0xffffffff
    }
}

/// The palette value of an ANSI color index 0 to 15; any other index
/// falls back to the foreground color.
pub open spec fn spec_ansi_color(index: u8) -> u32 {
    if index == 0 {
        0x2d333aff
    } else if index == 1 {
        0xfb8ea0ff
    } else if index == 2 {
        0xc3e88dff
    } else if index == 3 {
        0xffcb6bff
    } else if index == 4 {
        0x82aaffff
    } else if index == 5 {
        0xc792eaff
    } else if index == 6 {
        0x89ddffff
    } else if index == 7 {
        0xffffffff
    } else if index == 8 {
        0x636e80ff
    } else if index == 9 {
        0xff5370ff
    } else if index == 10 {
        0xc3e88dff
    } else if index == 11 {
        0xffcb6bff
    } else if index == 12 {
        0x82aaffff
    } else if index == 13 {
        0xc792eaff
    } else if index == 14 {
        0x89ddffff
    } else if index == 15 {
        0xffffffff
    } else {
        0xb6c4d2ff
    }
}

/// Get an ANSI color by index (0-15).
pub fn get_ansi_color(index: u8) -> (r: u32)
    ensures
        r == spec_ansi_color(index),
{
    match index {
        0 => TerminalColors::ansi_black(),
        1 => TerminalColors::ansi_red(),
        2 => TerminalColors::ansi_green(),
        3 => TerminalColors::ansi_yellow(),
        4 => TerminalColors::ansi_blue(),
        5 => TerminalColors::ansi_magenta(),
        6 => TerminalColors::ansi_cyan(),
        7 => TerminalColors::ansi_white(),
        8 => TerminalColors::ansi_bright_black(),
        9 => TerminalColors::ansi_bright_red(),
        10 => TerminalColors::ansi_bright_green(),
        11 => TerminalColors::ansi_bright_yellow(),
        12 => TerminalColors::ansi_bright_blue(),
        13 => TerminalColors::ansi_bright_magenta(),
        14 => TerminalColors::ansi_bright_cyan(),
        15 => TerminalColors::ansi_bright_white(),
        _ => TerminalColors::foreground(),
    }
}

/// A packed `0xRRGGBBAA` value with full alpha.
pub open spec fn spec_pack_rgb(r: int, g: int, b: int) -> u32 {
    (r * 0x1000000 + g * 0x10000 + b * 0x100 + 0xff) as u32
}

/// The 256-color table: the 16 ANSI colors, a 6x6x6 color cube, and a
/// 24-step grayscale ramp.
pub open spec fn spec_indexed_color(index: u8) -> u32 {
    if index < 16 {
        spec_ansi_color(index)
    } else if index < 232 {
        let idx = index - 16;
        let rs = (idx / 36) % 6;
        let gs = (idx / 6) % 6;
        let bs = idx % 6;
        let rv = if rs > 0 {
            rs * 40 + 55
        } else {
            0
        };
        let gv = if gs > 0 {
            gs * 40 + 55
        } else {
            0
        };
        let bv = if bs > 0 {
            bs * 40 + 55
        } else {
            0
        };
        spec_pack_rgb(rv, gv, bv)
    } else {
        let gray = (index - 232) * 10 + 8;
        spec_pack_rgb(gray, gray, gray)
    }
}

/// Convert an indexed color (0-255) to a packed color value.
pub fn get_indexed_color(index: u8) -> (r: u32)
    ensures
        r == spec_indexed_color(index),
{
    if index < 16 {
        return get_ansi_color(index);
    }
    if index < 232 {
        let idx: u32 = (index - 16) as u32;
        let rs: u32 = (idx / 36) % 6;
        let gs: u32 = (idx / 6) % 6;
        let bs: u32 = idx % 6;
        let rv: u32 = if rs > 0 {
            rs * 40 + 55
        } else {
            0
        };
        let gv: u32 = if gs > 0 {
            gs * 40 + 55
        } else {
            0
        };
        let bv: u32 = if bs > 0 {
            bs * 40 + 55
        } else {
            0
        };
        return rv * 0x1000000 + gv * 0x10000 + bv * 0x100 + 0xff;
    }
    let gray: u32 = ((index - 232) as u32) * 10 + 8;
    gray * 0x1000000 + gray * 0x10000 + gray * 0x100 + 0xff
}

/// The palette value of a named color.
pub open spec fn spec_named_color(named: NamedColor) -> u32 {
    match named {
        NamedColor::Black => 0x2d333aff,
        NamedColor::Red => 0xfb8ea0ff,
        NamedColor::Green => 0xc3e88dff,
        NamedColor::Yellow => 0xffcb6bff,
        NamedColor::Blue => 0x82aaffff,
        NamedColor::Magenta => 0xc792eaff,
        NamedColor::Cyan => 0x89ddffff,
        NamedColor::White => 0xffffffff,
        NamedColor::BrightBlack => 0x636e80ff,
        NamedColor::BrightRed => 0xff5370ff,
        NamedColor::BrightGreen => 0xc3e88dff,
        NamedColor::BrightYellow => 0xffcb6bff,
        NamedColor::BrightBlue => 0x82aaffff,
        NamedColor::BrightMagenta => 0xc792eaff,
        NamedColor::BrightCyan => 0x89ddffff,
        NamedColor::BrightWhite => 0xffffffff,
        NamedColor::Foreground => 0xb6c4d2ff,
        NamedColor::Background => 0x21262cff,
        NamedColor::Cursor => 0x4c9c9dff,
        NamedColor::Other => 0xb6c4d2ff,
    }
}

/// The packed value of a cell color: named colors through the palette,
/// direct values with full alpha, indexed values through the 256-color
/// table.
pub open spec fn spec_convert_color(color: CellColor) -> u32 {
    match color {
        CellColor::Named(named) => spec_named_color(named),
        CellColor::Spec { r, g, b } => spec_pack_rgb(r as int, g as int, b as int),
        CellColor::Indexed(index) => spec_indexed_color(index),
    }
}

/// Convert a cell color to a packed color value.
pub fn convert_color(color: &CellColor) -> (r: u32)
    ensures
        r == spec_convert_color(*color),
{
    match color {
        CellColor::Named(named) => match named {
            NamedColor::Black => TerminalColors::ansi_black(),
            NamedColor::Red => TerminalColors::ansi_red(),
            NamedColor::Green => TerminalColors::ansi_green(),
            NamedColor::Yellow => TerminalColors::ansi_yellow(),
            NamedColor::Blue => TerminalColors::ansi_blue(),
            NamedColor::Magenta => TerminalColors::ansi_magenta(),
            NamedColor::Cyan => TerminalColors::ansi_cyan(),
            NamedColor::White => TerminalColors::ansi_white(),
            NamedColor::BrightBlack => TerminalColors::ansi_bright_black(),
            NamedColor::BrightRed => TerminalColors::ansi_bright_red(),
            NamedColor::BrightGreen => TerminalColors::ansi_bright_green(),
            NamedColor::BrightYellow => TerminalColors::ansi_bright_yellow(),
            NamedColor::BrightBlue => TerminalColors::ansi_bright_blue(),
            NamedColor::BrightMagenta => TerminalColors::ansi_bright_magenta(),
            NamedColor::BrightCyan => TerminalColors::ansi_bright_cyan(),
            NamedColor::BrightWhite => TerminalColors::ansi_bright_white(),
            NamedColor::Foreground => TerminalColors::foreground(),
            NamedColor::Background => TerminalColors::background(),
            NamedColor::Cursor => TerminalColors::cursor(),
            NamedColor::Other => TerminalColors::foreground(),
        },
        CellColor::Spec { r, g, b } => (*r as u32) * 0x1000000 + (*g as u32) * 0x10000 + (*b as u32)
            * 0x100 + 0xff,
        CellColor::Indexed(index) => get_indexed_color(*index),
    }
}

} // verus!
