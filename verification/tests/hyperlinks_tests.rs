use manifest::content::{
    CellColor, CursorShape, GridPoint, IndexedCell, LinkAnnotation, NamedColor, PointRange,
    RenderableCursor, TerminalContent,
};
use manifest::hyperlinks::{find_url_at_point, sanitize_url_punctuation};
use manifest::keys::TermMode;

fn cell(line: i32, column: usize, c: char, link: Option<(&str, &str)>) -> IndexedCell {
    IndexedCell {
        point: GridPoint { line, column },
        c,
        fg: CellColor::Named(NamedColor::Foreground),
        bg: CellColor::Named(NamedColor::Background),
        wrapped: false,
        hyperlink: link.map(|(id, uri)| LinkAnnotation { id: id.to_string(), uri: uri.to_string() }),
    }
}

fn content_of_rows(rows: &[&str]) -> TerminalContent {
    let mut cells = Vec::new();
    for (l, text) in rows.iter().enumerate() {
        for (i, c) in text.chars().enumerate() {
            cells.push(cell(l as i32, i, c, None));
        }
    }
    TerminalContent {
        cells,
        mode: TermMode::empty(),
        display_offset: 0,
        selection: None,
        cursor: RenderableCursor { shape: CursorShape::Block, point: GridPoint { line: 0, column: 0 } },
        cursor_char: ' ',
        terminal_bounds: Default::default(),
        hovered_hyperlink: None,
    }
}

#[test]
fn trailing_punctuation_is_trimmed() {
    // The raw match reads "http://example.com)." and the locator returns
    // the URL without the stray close paren and period, with the end
    // coordinate shortened to match.
    let content = content_of_rows(&["see http://example.com)."]);
    let (url, range) = find_url_at_point(&content, GridPoint { line: 0, column: 8 }).unwrap();
    assert_eq!(url, "http://example.com");
    assert_eq!(range.start, GridPoint { line: 0, column: 4 });
    assert_eq!(range.end, GridPoint { line: 0, column: 21 });
}

#[test]
fn sanitize_shortens_end_coordinate() {
    let m = PointRange {
        start: GridPoint { line: 0, column: 4 },
        end: GridPoint { line: 0, column: 23 },
    };
    let (url, out) = sanitize_url_punctuation("http://example.com).".to_string(), m);
    assert_eq!(url, "http://example.com");
    assert_eq!(out.start, m.start);
    assert_eq!(out.end, GridPoint { line: 0, column: 21 });
}

#[test]
fn balanced_parentheses_are_kept() {
    let m = PointRange {
        start: GridPoint { line: 0, column: 0 },
        end: GridPoint { line: 0, column: 25 },
    };
    let (url, _) = sanitize_url_punctuation("http://example.com/a(b)".to_string(), m);
    assert_eq!(url, "http://example.com/a(b)");
}

#[test]
fn unbalanced_close_paren_is_trimmed() {
    let m = PointRange {
        start: GridPoint { line: 0, column: 0 },
        end: GridPoint { line: 0, column: 20 },
    };
    let (url, _) = sanitize_url_punctuation("http://example.com/)".to_string(), m);
    assert_eq!(url, "http://example.com/");
}

#[test]
fn match_must_contain_the_point() {
    let content = content_of_rows(&["see http://example.com now"]);
    // Over the URL.
    assert!(find_url_at_point(&content, GridPoint { line: 0, column: 10 }).is_some());
    // Before it.
    assert!(find_url_at_point(&content, GridPoint { line: 0, column: 1 }).is_none());
    // After it.
    assert!(find_url_at_point(&content, GridPoint { line: 0, column: 24 }).is_none());
}

#[test]
fn search_is_restricted_to_the_pointed_row() {
    let content = content_of_rows(&["http://a.example", "plain text"]);
    assert!(find_url_at_point(&content, GridPoint { line: 1, column: 3 }).is_none());
    assert!(find_url_at_point(&content, GridPoint { line: 0, column: 3 }).is_some());
}

#[test]
fn several_schemes_are_recognized() {
    for text in ["https://x.example", "file:///tmp/x", "ssh:user@host", "mailto:a@b.example"] {
        let content = content_of_rows(&[text]);
        let (url, _) = find_url_at_point(&content, GridPoint { line: 0, column: 2 }).unwrap();
        assert_eq!(&url, text);
    }
}

#[test]
fn explicit_annotation_wins_and_expands() {
    let mut content = content_of_rows(&["click here"]);
    for i in 6..=9 {
        content.cells[i].hyperlink =
            Some(LinkAnnotation { id: "1".to_string(), uri: "https://example.org/docs".to_string() });
    }
    let (url, range) = find_url_at_point(&content, GridPoint { line: 0, column: 7 }).unwrap();
    assert_eq!(url, "https://example.org/docs");
    assert_eq!(range.start, GridPoint { line: 0, column: 6 });
    assert_eq!(range.end, GridPoint { line: 0, column: 9 });
}

#[test]
fn annotation_expansion_stops_at_different_link() {
    let mut content = content_of_rows(&["abcd"]);
    content.cells[0].hyperlink =
        Some(LinkAnnotation { id: "1".to_string(), uri: "https://one.example".to_string() });
    content.cells[1].hyperlink =
        Some(LinkAnnotation { id: "1".to_string(), uri: "https://one.example".to_string() });
    content.cells[2].hyperlink =
        Some(LinkAnnotation { id: "2".to_string(), uri: "https://two.example".to_string() });
    let (url, range) = find_url_at_point(&content, GridPoint { line: 0, column: 1 }).unwrap();
    assert_eq!(url, "https://one.example");
    assert_eq!(range.start, GridPoint { line: 0, column: 0 });
    assert_eq!(range.end, GridPoint { line: 0, column: 1 });
}

#[test]
fn distinct_links_with_one_target_stay_distinct() {
    // Two adjacent links happen to share a target; the extent stops at
    // the identity boundary.
    let mut content = content_of_rows(&["abcd"]);
    content.cells[0].hyperlink =
        Some(LinkAnnotation { id: "1".to_string(), uri: "https://one.example".to_string() });
    content.cells[1].hyperlink =
        Some(LinkAnnotation { id: "1".to_string(), uri: "https://one.example".to_string() });
    content.cells[2].hyperlink =
        Some(LinkAnnotation { id: "2".to_string(), uri: "https://one.example".to_string() });
    let (url, range) = find_url_at_point(&content, GridPoint { line: 0, column: 1 }).unwrap();
    assert_eq!(url, "https://one.example");
    assert_eq!(range.end, GridPoint { line: 0, column: 1 });
}

#[test]
fn schemes_match_without_regard_to_case() {
    let content = content_of_rows(&["see HTTP://Example.COM now"]);
    let (url, range) = find_url_at_point(&content, GridPoint { line: 0, column: 8 }).unwrap();
    // The match keeps the text's own case.
    assert_eq!(url, "HTTP://Example.COM");
    assert_eq!(range.start, GridPoint { line: 0, column: 4 });
    assert_eq!(range.end, GridPoint { line: 0, column: 21 });
}

#[test]
fn unicode_whitespace_ends_a_url() {
    // A no-break space is whitespace, not a URL character.
    let content = content_of_rows(&["http://a.example\u{A0}tail"]);
    let (url, _) = find_url_at_point(&content, GridPoint { line: 0, column: 3 }).unwrap();
    assert_eq!(url, "http://a.example");
}

#[test]
fn a_url_consumes_following_text_until_a_delimiter() {
    let content = content_of_rows(&["<http://a.example> done"]);
    let (url, range) = find_url_at_point(&content, GridPoint { line: 0, column: 5 }).unwrap();
    assert_eq!(url, "http://a.example");
    assert_eq!(range.start, GridPoint { line: 0, column: 1 });
    assert_eq!(range.end, GridPoint { line: 0, column: 16 });
}

#[test]
fn a_url_spans_wrapped_rows() {
    // Row 0 wraps into row 1; the two rows form one logical line and the
    // URL crosses the boundary.
    let mut content = content_of_rows(&["see http://a.exam", "ple/x rest"]);
    let wrap_at = content
        .cells
        .iter()
        .position(|cl| cl.point.line == 0 && cl.point.column == 16)
        .unwrap();
    content.cells[wrap_at].wrapped = true;
    // From the continuation row.
    let (url, range) = find_url_at_point(&content, GridPoint { line: 1, column: 2 }).unwrap();
    assert_eq!(url, "http://a.example/x");
    assert_eq!(range.start, GridPoint { line: 0, column: 4 });
    assert_eq!(range.end, GridPoint { line: 1, column: 4 });
    // And from the first row.
    let (url2, _) = find_url_at_point(&content, GridPoint { line: 0, column: 6 }).unwrap();
    assert_eq!(url2, "http://a.example/x");
}

#[test]
fn unwrapped_rows_stay_separate_lines() {
    // Without the wrap mark the rows are separate logical lines, so the
    // URL text ends at the row boundary.
    let content = content_of_rows(&["see http://a.exam", "ple/x rest"]);
    let (url, _) = find_url_at_point(&content, GridPoint { line: 0, column: 6 }).unwrap();
    assert_eq!(url, "http://a.exam");
    assert!(find_url_at_point(&content, GridPoint { line: 1, column: 2 }).is_none());
}
