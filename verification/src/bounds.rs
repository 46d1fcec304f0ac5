//! Terminal dimensions: pixel bounds plus cell metrics, and the derived
//! row and column counts.

use vstd::prelude::*;

verus! {

/// Terminal dimensions tracking both pixel and cell measurements.
///
/// Pixel quantities are whole device pixels. The derived grid size is
/// always `floor(pixels / cell metric)`, recomputed on demand and never
/// cached, so it can never go stale across a resize.
#[derive(Clone, Copy, Debug, PartialEq, Eq, Structural)]
pub struct TerminalBounds {
    /// Width of one character cell in pixels.
    pub cell_width: u32,
    /// Height of one text line in pixels.
    pub line_height: u32,
    /// Width of the viewport in pixels.
    pub width: u32,
    /// Height of the viewport in pixels.
    pub height: u32,
}

impl TerminalBounds {
    /// Both cell metrics must be positive for the grid to be derivable.
    pub open spec fn wf(self) -> bool {
        self.cell_width > 0 && self.line_height > 0
    }

    /// Number of grid rows: `floor(height / line_height)`.
    pub open spec fn spec_num_lines(self) -> int
        recommends
            self.wf(),
    {
        self.height as int / self.line_height as int
    }

    /// Number of grid columns: `floor(width / cell_width)`.
    pub open spec fn spec_num_columns(self) -> int
        recommends
            self.wf(),
    {
        self.width as int / self.cell_width as int
    }

    pub fn new(line_height: u32, cell_width: u32, width: u32, height: u32) -> (r: Self)
        requires
            cell_width > 0,
            line_height > 0,
        ensures
            r == (TerminalBounds { cell_width, line_height, width, height }),
            r.wf(),
    {
        TerminalBounds { cell_width, line_height, width, height }
    }

    /// The grid has `floor(height / line_height)` rows; the count is never
    /// negative.
    pub fn num_lines(&self) -> (r: usize)
        requires
            self.wf(),
        ensures
            r == self.spec_num_lines(),
            r >= 0,
    {
        (self.height / self.line_height) as usize
    }

    /// The grid has `floor(width / cell_width)` columns; the count is never
    /// negative.
    pub fn num_columns(&self) -> (r: usize)
        requires
            self.wf(),
        ensures
            r == self.spec_num_columns(),
            r >= 0,
    {
        (self.width / self.cell_width) as usize
    }

    pub fn height(&self) -> (r: u32)
        ensures
            r == self.height,
    {
        self.height
    }

    pub fn width(&self) -> (r: u32)
        ensures
            r == self.width,
    {
        self.width
    }

    pub fn cell_width(&self) -> (r: u32)
        ensures
            r == self.cell_width,
    {
        self.cell_width
    }

    pub fn line_height(&self) -> (r: u32)
        ensures
            r == self.line_height,
    {
        self.line_height
    }
}

impl Default for TerminalBounds {
    /// A conservative default viewport used before the first real resize.
    fn default() -> (r: Self)
        ensures
            r == (TerminalBounds { cell_width: 8, line_height: 20, width: 800, height: 400 }),
            r.wf(),
    {
        TerminalBounds { cell_width: 8, line_height: 20, width: 800, height: 400 }
    }
}

/// A pointer position in pixels, relative to the viewport origin. Either
/// coordinate can be negative when the pointer left the viewport.
#[derive(Clone, Copy, Debug, PartialEq, Eq, Structural)]
pub struct PixelPoint {
    pub x: i32,
    pub y: i32,
}

/// Window size reported to the subprocess: the grid size plus the cell
/// metrics, each truncated to what the wire format carries.
#[derive(Clone, Copy, Debug, PartialEq, Eq, Structural)]
pub struct WindowSize {
    pub num_lines: u16,
    pub num_cols: u16,
    pub cell_width: u16,
    pub cell_height: u16,
}

/// The window size reported for given bounds.
pub open spec fn spec_window_size(b: TerminalBounds) -> WindowSize
    recommends
        b.wf(),
{
    WindowSize {
        num_lines: b.spec_num_lines() as u16,
        num_cols: b.spec_num_columns() as u16,
        cell_width: b.cell_width as u16,
        cell_height: b.line_height as u16,
    }
}

impl TerminalBounds {
    /// The window size to report for these bounds.
    pub fn window_size(&self) -> (r: WindowSize)
        requires
            self.wf(),
        ensures
            r == spec_window_size(*self),
    {
        WindowSize {
            num_lines: self.num_lines() as u16,
            num_cols: self.num_columns() as u16,
            cell_width: self.cell_width as u16,
            cell_height: self.line_height as u16,
        }
    }
}

} // verus!
