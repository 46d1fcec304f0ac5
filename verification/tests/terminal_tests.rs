use manifest::bounds::{PixelPoint, TerminalBounds};
use manifest::content::{
    CellColor, CursorShape, GridContent, GridPoint, IndexedCell, NamedColor, RenderableCursor,
    SelectionRange,
};
use manifest::event::{Event, InternalEvent, ScrollRequest, SessionEvent};
use manifest::keys::{Key, Keystroke, Modifiers, TermMode};
use manifest::terminal::Terminal;

fn cell(line: i32, column: usize, c: char) -> IndexedCell {
    IndexedCell {
        point: GridPoint { line, column },
        c,
        fg: CellColor::Named(NamedColor::Foreground),
        bg: CellColor::Named(NamedColor::Background),
        wrapped: false,
        hyperlink: None,
    }
}

fn row(line: i32, text: &str) -> Vec<IndexedCell> {
    text.chars().enumerate().map(|(i, c)| cell(line, i, c)).collect()
}

fn grid_of(text: &str) -> GridContent {
    GridContent {
        cells: row(0, text),
        mode: TermMode::empty(),
        display_offset: 0,
        selection: None,
        cursor: RenderableCursor { shape: CursorShape::Block, point: GridPoint { line: 0, column: 0 } },
        cursor_char: ' ',
    }
}

#[test]
fn input_queues_bytes_and_scrolls_to_live() {
    let mut t = Terminal::new();
    t.input(b"ls\n".to_vec());
    assert_eq!(t.pending_writes, vec![b"ls\n".to_vec()]);
    assert_eq!(t.pending, vec![InternalEvent::Scroll(ScrollRequest::Bottom)]);
}

#[test]
fn try_keystroke_encodes_special_keys() {
    let mut t = Terminal::new();
    let up = Keystroke {
        key: Key::Up,
        modifiers: Modifiers::default(),
        key_char: None,
    };
    assert!(t.try_keystroke(&up, false));
    let w = t.take_writes();
    assert_eq!(w, vec![b"\x1b[A".to_vec()]);
}

#[test]
fn try_keystroke_falls_back_to_literal_text() {
    let mut t = Terminal::new();
    let typing = Keystroke {
        key: Key::Char('x'),
        modifiers: Modifiers::default(),
        key_char: Some("x".to_string()),
    };
    assert!(t.try_keystroke(&typing, false));
    assert_eq!(t.take_writes(), vec![b"x".to_vec()]);
}

#[test]
fn literal_fallback_requires_ordinary_typing() {
    // Literal text passes through only under no modifier or shift alone.
    let mut t = Terminal::new();
    let ctrl_typing = Keystroke {
        key: Key::Char('\u{a7}'),
        modifiers: Modifiers { control: true, alt: false, shift: false, platform: false },
        key_char: Some("\u{a7}".to_string()),
    };
    assert!(!t.try_keystroke(&ctrl_typing, false));
    assert!(t.take_writes().is_empty());
    let shift_typing = Keystroke {
        key: Key::Char('X'),
        modifiers: Modifiers { control: false, alt: false, shift: true, platform: false },
        key_char: Some("X".to_string()),
    };
    assert!(t.try_keystroke(&shift_typing, false));
    assert_eq!(t.take_writes(), vec![b"X".to_vec()]);
}

#[test]
fn try_keystroke_rejects_view_gestures() {
    let mut t = Terminal::new();
    // Shift+PageUp outside the alternate screen is scrollback paging, not
    // subprocess input.
    let e = Keystroke {
        key: Key::PageUp,
        modifiers: Modifiers { control: false, alt: false, shift: true, platform: false },
        key_char: None,
    };
    assert!(!t.try_keystroke(&e, false));
    assert!(t.take_writes().is_empty());
}

#[test]
fn resize_is_idempotent() {
    let mut t = Terminal::new();
    let b = TerminalBounds::new(20, 8, 800, 400);
    let ws1 = t.resize(b);
    let snap1_bounds = t.last_content().terminal_bounds;
    let cursor1 = t.last_content().cursor;
    let ws2 = t.resize(b);
    assert_eq!(ws1, ws2);
    assert_eq!(t.last_content().terminal_bounds, snap1_bounds);
    assert_eq!(t.last_content().cursor, cursor1);
    assert_eq!(ws1.num_lines, 20);
    assert_eq!(ws1.num_cols, 100);
}

#[test]
fn scroll_requests_queue_in_order() {
    let mut t = Terminal::new();
    t.scroll_lines(3);
    t.scroll_lines(0);
    t.scroll_page_up();
    t.scroll_to_top();
    t.scroll_to_bottom();
    t.scroll_page_down();
    let ops = t.begin_sync();
    assert_eq!(
        ops,
        vec![
            InternalEvent::Scroll(ScrollRequest::Delta(3)),
            InternalEvent::Scroll(ScrollRequest::PageUp),
            InternalEvent::Scroll(ScrollRequest::Top),
            InternalEvent::Scroll(ScrollRequest::Bottom),
            InternalEvent::Scroll(ScrollRequest::PageDown),
        ]
    );
    assert!(t.begin_sync().is_empty());
}

#[test]
fn sync_rebuilds_snapshot_wholesale() {
    let mut t = Terminal::new();
    let b = TerminalBounds::new(20, 8, 800, 400);
    t.resize(b);
    let mut grid = grid_of("hello");
    grid.mode = TermMode { app_cursor: true, alt_screen: false, show_cursor: true };
    grid.display_offset = 2;
    grid.selection = Some(SelectionRange {
        start: GridPoint { line: 0, column: 1 },
        end: GridPoint { line: 0, column: 3 },
    });
    grid.cursor =
        RenderableCursor { shape: CursorShape::Beam, point: GridPoint { line: 0, column: 5 } };
    grid.cursor_char = 'o';
    let expected_cells = grid.cells.clone();
    t.sync(grid);
    let snap = t.last_content();
    assert_eq!(snap.cells, expected_cells);
    assert!(snap.mode.app_cursor);
    assert_eq!(snap.display_offset, 2);
    assert_eq!(snap.cursor.point, GridPoint { line: 0, column: 5 });
    assert_eq!(snap.cursor_char, 'o');
    assert_eq!(snap.terminal_bounds, b);
}

#[test]
fn wakeup_sync_reflects_emitted_output() {
    // A session whose subprocess echoed a line: the wakeup asks for a
    // sync, and the synced snapshot's first visible line reads it back.
    let mut t = Terminal::new();
    let act = t.process_event(SessionEvent::Wakeup);
    assert_eq!(act.emit, Some(Event::Wakeup));
    assert!(act.needs_sync);
    assert!(!act.stop);
    t.begin_sync();
    t.sync(grid_of("hello"));
    let snap = t.last_content();
    let first_line: String = snap.cells.iter().filter(|c| c.point.line == 0).map(|c| c.c).collect();
    assert_eq!(first_line, "hello");
}

#[test]
fn process_event_dispatch() {
    let mut t = Terminal::new();
    let bell = t.process_event(SessionEvent::Bell);
    assert_eq!(bell.emit, Some(Event::Bell));
    assert!(!bell.needs_sync && !bell.stop);
    let title = t.process_event(SessionEvent::TitleChanged);
    assert_eq!(title.emit, Some(Event::TitleChanged));
    let close = t.process_event(SessionEvent::CloseRequested);
    assert_eq!(close.emit, Some(Event::CloseTerminal));
    assert!(close.stop);
    let raw = t.process_event(SessionEvent::RawWrite(b"\x1b[0n".to_vec()));
    assert_eq!(raw.emit, None);
    assert_eq!(t.take_writes(), vec![b"\x1b[0n".to_vec()]);
}

#[test]
fn pixel_to_grid_point_maps_and_clamps() {
    let mut t = Terminal::new();
    t.resize(TerminalBounds::new(20, 8, 800, 400));
    assert_eq!(
        t.pixel_to_grid_point(PixelPoint { x: 17, y: 45 }),
        Some(GridPoint { line: 2, column: 2 })
    );
    assert_eq!(t.pixel_to_grid_point(PixelPoint { x: -1, y: 5 }), None);
    assert_eq!(t.pixel_to_grid_point(PixelPoint { x: 5, y: 400 }), None);
    assert_eq!(t.pixel_to_grid_point(PixelPoint { x: 800, y: 5 }), None);
}

#[test]
fn pixel_mapping_accounts_for_display_offset() {
    let mut t = Terminal::new();
    t.resize(TerminalBounds::new(20, 8, 800, 400));
    let mut grid = grid_of("x");
    grid.display_offset = 3;
    t.sync(grid);
    assert_eq!(
        t.pixel_to_grid_point(PixelPoint { x: 0, y: 0 }),
        Some(GridPoint { line: -3, column: 0 })
    );
}
