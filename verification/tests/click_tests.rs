use manifest::bounds::{PixelPoint, TerminalBounds};
use manifest::content::{
    CellColor, CursorShape, GridContent, GridPoint, IndexedCell, NamedColor, RenderableCursor,
};
use manifest::event::MouseButton;
use manifest::keys::{Modifiers, TermMode};
use manifest::terminal::Terminal;

fn plain_cell(line: i32, column: usize, c: char) -> IndexedCell {
    IndexedCell {
        point: GridPoint { line, column },
        c,
        fg: CellColor::Named(NamedColor::Foreground),
        bg: CellColor::Named(NamedColor::Background),
        wrapped: false,
        hyperlink: None,
    }
}

/// A session showing two URLs: one on row 0, one on row 1.
fn session_with_urls() -> Terminal {
    let mut t = Terminal::new();
    t.resize(TerminalBounds::new(20, 8, 800, 400));
    let mut cells = Vec::new();
    for (i, c) in "http://one.example".chars().enumerate() {
        cells.push(plain_cell(0, i, c));
    }
    for (i, c) in "http://two.example".chars().enumerate() {
        cells.push(plain_cell(1, i, c));
    }
    t.sync(GridContent {
        cells,
        mode: TermMode::empty(),
        display_offset: 0,
        selection: None,
        cursor: RenderableCursor { shape: CursorShape::Block, point: GridPoint { line: 0, column: 0 } },
        cursor_char: ' ',
    });
    t
}

fn platform_held() -> Modifiers {
    Modifiers { control: false, alt: false, shift: false, platform: true }
}

// Pixel position over (line, column) under 8x20 cells.
fn px(line: i32, column: i32) -> PixelPoint {
    PixelPoint { x: column * 8 + 3, y: line * 20 + 10 }
}

#[test]
fn press_and_release_on_same_url_opens_it_once() {
    let mut t = session_with_urls();
    let m = platform_held();
    assert!(t.mouse_down(MouseButton::Left, px(0, 4), &m));
    assert!(t.hovered_hyperlink().is_some());
    let opened = t.mouse_up(MouseButton::Left, px(0, 4), &m);
    assert_eq!(opened.as_deref(), Some("http://one.example"));
    // The press was consumed: an identical release opens nothing more.
    let again = t.mouse_up(MouseButton::Left, px(0, 4), &m);
    assert_eq!(again, None);
}

#[test]
fn release_over_a_different_url_opens_nothing() {
    let mut t = session_with_urls();
    let m = platform_held();
    assert!(t.mouse_down(MouseButton::Left, px(0, 4), &m));
    let opened = t.mouse_up(MouseButton::Left, px(1, 4), &m);
    assert_eq!(opened, None);
}

#[test]
fn press_without_platform_modifier_is_ignored() {
    let mut t = session_with_urls();
    let m = Modifiers::default();
    assert!(!t.mouse_down(MouseButton::Left, px(0, 4), &m));
    assert_eq!(t.mouse_up(MouseButton::Left, px(0, 4), &platform_held()), None);
}

#[test]
fn release_without_modifier_opens_nothing() {
    let mut t = session_with_urls();
    assert!(t.mouse_down(MouseButton::Left, px(0, 4), &platform_held()));
    let opened = t.mouse_up(MouseButton::Left, px(0, 4), &Modifiers::default());
    assert_eq!(opened, None);
}

#[test]
fn hover_follows_the_pointer_while_modifier_held() {
    let mut t = session_with_urls();
    t.mouse_move(px(0, 4), &platform_held());
    let h = t.hovered_hyperlink().unwrap();
    assert_eq!(h.start, GridPoint { line: 0, column: 0 });
    assert_eq!(h.end, GridPoint { line: 0, column: 17 });
    t.mouse_move(px(0, 4), &Modifiers::default());
    assert!(t.hovered_hyperlink().is_none());
    t.mouse_move(px(0, 4), &platform_held());
    t.clear_hovered_hyperlink();
    assert!(t.hovered_hyperlink().is_none());
}

#[test]
fn non_left_buttons_are_ignored() {
    let mut t = session_with_urls();
    let m = platform_held();
    assert!(!t.mouse_down(MouseButton::Right, px(0, 4), &m));
    assert!(t.mouse_down(MouseButton::Left, px(0, 4), &m));
    // A right-button release neither opens nor consumes the press.
    assert_eq!(t.mouse_up(MouseButton::Right, px(0, 4), &m), None);
    assert_eq!(t.mouse_up(MouseButton::Left, px(0, 4), &m).as_deref(), Some("http://one.example"));
}
