//! The renderable content snapshot: an immutable capture of the visible
//! grid, cursor, mode flags and view state at one instant.

use vstd::prelude::*;

use crate::bounds::TerminalBounds;
use crate::keys::TermMode;

verus! {

/// A position in the grid. Lines can be negative while the view is
/// scrolled back into history; columns count from zero at the left edge.
#[derive(Clone, Copy, Debug, PartialEq, Eq, Structural)]
pub struct GridPoint {
    pub line: i32,
    pub column: usize,
}

impl GridPoint {
    pub fn new(line: i32, column: usize) -> (r: Self)
        ensures
            r == (GridPoint { line, column }),
    {
        GridPoint { line, column }
    }
}

/// An inclusive range of grid positions, in reading order.
#[derive(Clone, Copy, Debug, PartialEq, Eq, Structural)]
pub struct PointRange {
    pub start: GridPoint,
    pub end: GridPoint,
}

/// The shape the cursor is drawn with.
#[derive(Clone, Copy, Debug, PartialEq, Eq, Structural)]
pub enum CursorShape {
    Block,
    Underline,
    Beam,
    HollowBlock,
    Hidden,
}

/// Cursor position and shape, as rendered.
#[derive(Clone, Copy, Debug, PartialEq, Eq, Structural)]
pub struct RenderableCursor {
    pub shape: CursorShape,
    pub point: GridPoint,
}

/// A selected region of the grid, in reading order.
#[derive(Clone, Copy, Debug, PartialEq, Eq, Structural)]
pub struct SelectionRange {
    pub start: GridPoint,
    pub end: GridPoint,
}

/// The named palette entries a cell's color can refer to.
#[derive(Clone, Copy, Debug, PartialEq, Eq, Structural)]
pub enum NamedColor {
    Black,
    Red,
    Green,
    Yellow,
    Blue,
    Magenta,
    Cyan,
    White,
    BrightBlack,
    BrightRed,
    BrightGreen,
    BrightYellow,
    BrightBlue,
    BrightMagenta,
    BrightCyan,
    BrightWhite,
    Foreground,
    Background,
    Cursor,
    Other,
}

/// A cell's color: a named palette entry, a direct RGB value, or an index
/// into the 256-color table.
#[derive(Clone, Copy, Debug, PartialEq, Eq, Structural)]
pub enum CellColor {
    Named(NamedColor),
    Spec { r: u8, g: u8, b: u8 },
    Indexed(u8),
}

/// An explicit hyperlink annotation on a cell, from an embedded
/// hyperlink escape sequence: the link's identity and its target. Two
/// cells belong to the same link only when both agree, so two adjacent
/// distinct links that happen to share a target stay distinct.
#[derive(Clone, Debug, PartialEq, Eq)]
pub struct LinkAnnotation {
    pub id: String,
    pub uri: String,
}

/// A cell with its position in the terminal grid: the character shown,
/// its colors, whether its row wraps into the next one, and the explicit
/// hyperlink annotation, if the cell carries one.
#[derive(Clone, Debug, PartialEq, Eq)]
pub struct IndexedCell {
    pub point: GridPoint,
    pub c: char,
    pub fg: CellColor,
    pub bg: CellColor,
    /// Set on the last cell of a row that wraps: the following row
    /// continues the same logical line.
    pub wrapped: bool,
    pub hyperlink: Option<LinkAnnotation>,
}

/// What one consistent read of the emulation engine yields: everything a
/// snapshot is rebuilt from.
#[derive(Clone, Debug)]
pub struct GridContent {
    pub cells: Vec<IndexedCell>,
    pub mode: TermMode,
    pub display_offset: usize,
    pub selection: Option<SelectionRange>,
    pub cursor: RenderableCursor,
    pub cursor_char: char,
}

/// Snapshot of terminal state for rendering.
///
/// Rebuilt wholesale from one engine read on each sync; never mutated in
/// place, so a reader always sees one consistent point-in-time state.
#[derive(Clone, Debug)]
pub struct TerminalContent {
    /// All visible cells, in reading order.
    pub cells: Vec<IndexedCell>,
    /// Terminal mode flags at the time of the read.
    pub mode: TermMode,
    /// Scrollback display offset: how many lines the view is above live.
    pub display_offset: usize,
    /// The selected region, if any.
    pub selection: Option<SelectionRange>,
    /// Cursor position and shape.
    pub cursor: RenderableCursor,
    /// The character under the cursor.
    pub cursor_char: char,
    /// The dimensions the snapshot was produced under.
    pub terminal_bounds: TerminalBounds,
    /// Cells of the hyperlink under the pointer, for styling.
    pub hovered_hyperlink: Option<PointRange>,
}

impl TerminalContent {
    /// The cells in the grid are laid out in reading order: columns count
    /// up by one within a line, and every new line starts at column zero.
    pub open spec fn grid_ordered(self) -> bool {
        &&& (self.cells@.len() > 0 ==> self.cells@[0].point.column == 0)
        &&& forall|i: int|
            1 <= i < self.cells@.len() ==> {
                let prev = self.cells@[i - 1].point;
                let cur = #[trigger] self.cells@[i].point;
                (prev.line == cur.line && cur.column == prev.column + 1) || (prev.line < cur.line
                    && cur.column == 0)
            }
    }
}

impl Default for TerminalContent {
    /// The snapshot shown before the first sync: an empty grid under the
    /// default bounds.
    fn default() -> (r: Self)
        ensures
            r.cells@.len() == 0,
            r.mode == (TermMode { app_cursor: false, alt_screen: false, show_cursor: false }),
            r.display_offset == 0,
            r.selection is None,
            r.cursor == (RenderableCursor {
                shape: CursorShape::Block,
                point: GridPoint { line: 0, column: 0 },
            }),
            r.cursor_char == ' ',
            r.terminal_bounds == (TerminalBounds {
                cell_width: 8,
                line_height: 20,
                width: 800,
                height: 400,
            }),
            r.hovered_hyperlink is None,
    {
        TerminalContent {
            cells: Vec::new(),
            mode: TermMode::empty(),
            display_offset: 0,
            selection: None,
            cursor: RenderableCursor {
                shape: CursorShape::Block,
                point: GridPoint { line: 0, column: 0 },
            },
            cursor_char: ' ',
            terminal_bounds: TerminalBounds::default(),
            hovered_hyperlink: None,
        }
    }
}

} // verus!
