use manifest::bounds::TerminalBounds;
use manifest::colors::{convert_color, get_ansi_color, get_indexed_color, TerminalColors};
use manifest::content::{CellColor, NamedColor};
use manifest::context::{context_file_path, ActiveContext};
use manifest::event::SpawnError;
use manifest::strutil::{parse_u32, split_lines, str_eq, to_upper, trim_ws};
use manifest::theme::Theme;
use uuid::Uuid;

#[test]
fn grid_size_is_the_floor_of_pixels_over_cells() {
    let b = TerminalBounds::new(14, 7, 500, 300);
    assert_eq!(b.num_lines(), 21);  // floor(300 / 14)
    assert_eq!(b.num_columns(), 71);  // floor(500 / 7)
    let exact = TerminalBounds::new(20, 8, 800, 400);
    assert_eq!(exact.num_lines(), 20);
    assert_eq!(exact.num_columns(), 100);
    let tiny = TerminalBounds::new(20, 8, 7, 19);
    assert_eq!(tiny.num_lines(), 0);
    assert_eq!(tiny.num_columns(), 0);
}

#[test]
fn window_size_reports_the_grid_and_cell_metrics() {
    let b = TerminalBounds::new(20, 8, 800, 400);
    let ws = b.window_size();
    assert_eq!(ws.num_lines, 20);
    assert_eq!(ws.num_cols, 100);
    assert_eq!(ws.cell_width, 8);
    assert_eq!(ws.cell_height, 20);
}

#[test]
fn default_bounds_are_well_formed() {
    let b = TerminalBounds::default();
    assert_eq!(b.cell_width(), 8);
    assert_eq!(b.line_height(), 20);
    assert_eq!(b.width(), 800);
    assert_eq!(b.height(), 400);
}

#[test]
fn ansi_palette_lookup() {
    assert_eq!(get_ansi_color(0), 0x2d333aff);
    assert_eq!(get_ansi_color(1), 0xfb8ea0ff);
    assert_eq!(get_ansi_color(15), 0xffffffff);
    // Out of palette range: the foreground.
    assert_eq!(get_ansi_color(100), TerminalColors::foreground());
}

#[test]
fn color_cube_and_grayscale_formulas() {
    // First cube entry: black.
    assert_eq!(get_indexed_color(16), 0x000000ff);
    // Last cube entry: white.
    assert_eq!(get_indexed_color(231), 0xffffffff);
    // Pure red corner of the cube: 16 + 5*36.
    assert_eq!(get_indexed_color(196), 0xff0000ff);
    // Grayscale ramp ends.
    assert_eq!(get_indexed_color(232), 0x080808ff);
    assert_eq!(get_indexed_color(255), 0xeeeeeeff);
}

#[test]
fn cell_color_conversion() {
    assert_eq!(convert_color(&CellColor::Named(NamedColor::Red)), 0xfb8ea0ff);
    assert_eq!(convert_color(&CellColor::Named(NamedColor::Cursor)), 0x4c9c9dff);
    assert_eq!(convert_color(&CellColor::Spec { r: 0x12, g: 0x34, b: 0x56 }), 0x123456ff);
    assert_eq!(convert_color(&CellColor::Indexed(196)), 0xff0000ff);
    assert_eq!(convert_color(&CellColor::Indexed(3)), get_ansi_color(3));
}

#[test]
fn theme_palette_spot_checks() {
    assert_eq!(Theme::background(), 0x21262cff);
    assert_eq!(Theme::terminal_bg(), 0x21262cff);
    assert_eq!(Theme::accent(), 0x4c9c9dff);
    assert_eq!(Theme::error(), 0xff5370ff);
    assert_eq!(Theme::transparent(), 0x00000000);
}

#[test]
fn context_path_lives_under_the_project() {
    assert_eq!(
        context_file_path("/home/user/project"),
        "/home/user/project/.manifest/active_context.json"
    );
}

#[test]
fn active_context_carries_its_fields() {
    let id = Uuid::new_v4();
    let ctx = ActiveContext {
        feature_id: id,
        title: "Feature".to_string(),
        details: None,
        updated_at: "2024-01-01T00:00:00Z".to_string(),
    };
    let copy = ctx.clone();
    assert_eq!(copy.feature_id, id);
    assert_eq!(copy.title, "Feature");
}

#[test]
fn line_splitting_follows_line_semantics() {
    assert_eq!(split_lines("a\nb"), vec!["a", "b"]);
    assert_eq!(split_lines("a\nb\n"), vec!["a", "b"]);
    assert_eq!(split_lines("a\r\nb"), vec!["a", "b"]);
    assert_eq!(split_lines("\n"), vec![""]);
    assert_eq!(split_lines(""), Vec::<String>::new());
}

#[test]
fn whitespace_trimming() {
    assert_eq!(trim_ws("  a b \n"), "a b");
    assert_eq!(trim_ws("\t\r\n "), "");
    assert_eq!(trim_ws("x"), "x");
}

#[test]
fn numeral_parsing() {
    assert_eq!(parse_u32("0"), Some(0));
    assert_eq!(parse_u32("0012"), Some(12));
    assert_eq!(parse_u32("4294967295"), Some(u32::MAX));
    assert_eq!(parse_u32("4294967296"), None);
    assert_eq!(parse_u32(""), None);
    assert_eq!(parse_u32("12a"), None);
    assert_eq!(parse_u32("-3"), None);
}

#[test]
fn string_helpers() {
    assert!(str_eq("abc", "abc"));
    assert!(!str_eq("abc", "abd"));
    assert!(!str_eq("abc", "ab"));
    assert_eq!(to_upper('a'), 'A');
    assert_eq!(to_upper('Z'), 'Z');
    assert_eq!(to_upper('1'), '1');
}

#[test]
fn spawn_error_messages() {
    assert_eq!(SpawnError::InvalidWorkingDirectory.message(), "working directory does not exist");
    assert_eq!(SpawnError::PtyAllocationFailed.message(), "failed to allocate a pseudo-terminal");
    assert_eq!(SpawnError::ProgramNotFound.message(), "program not found");
}
