//! The terminal session: the single mutation point for session-level
//! state.
//!
//! The session owns the last content snapshot and two queues: bytes
//! awaiting the process host's writer, and engine operations awaiting the
//! next sync. It never touches the engine or the pseudo-terminal itself;
//! instead every method returns or queues the operations the hosting code
//! must apply, so that all decisions are made here and all I/O stays with
//! the host.

use vstd::prelude::*;
use vstd::string::StrSliceExecFns;

use crate::bounds::{spec_window_size, PixelPoint, TerminalBounds, WindowSize};
use crate::content::{GridContent, GridPoint, PointRange, TerminalContent};
use crate::event::{Event, EventAction, InternalEvent, MouseButton, ScrollRequest, SessionEvent};
use crate::hyperlinks::{find_url_at_point, find_url_at_point_spec};
use crate::keys::{esc_spec, to_esc_str, Key, Keystroke, Modifiers, TermMode};
use crate::strutil::char_string;

verus! {

/// The terminal session state.
pub struct Terminal {
    /// The most recent content snapshot.
    pub last_content: TerminalContent,
    /// Engine operations queued for the next sync.
    pub pending: Vec<InternalEvent>,
    /// Byte runs awaiting the process host's writer, oldest first.
    pub pending_writes: Vec<Vec<u8>>,
    /// The URL under the pointer when a press engaged the click protocol.
    pub mouse_down_url: Option<String>,
    /// The extent of the hyperlink under the pointer, while the platform
    /// modifier is held.
    pub hovered_hyperlink: Option<PointRange>,
}

/// The writer queue and the engine-operation queue after `bytes` were
/// handed to `input`: the bytes are queued for the writer, and a scroll
/// to the live position is queued, since typing always implies interest
/// in the live output.
pub open spec fn input_queues_spec(t: Terminal, post: Terminal, bytes: Seq<u8>) -> bool {
    &&& post.pending_writes.deep_view() == t.pending_writes.deep_view().push(bytes)
    &&& post.pending@ == t.pending@.push(InternalEvent::Scroll(ScrollRequest::Bottom))
    &&& post.last_content == t.last_content
    &&& post.mouse_down_url == t.mouse_down_url
    &&& post.hovered_hyperlink == t.hovered_hyperlink
}

/// The session after a resize: only the stored dimensions change.
pub open spec fn resize_spec(t: Terminal, bounds: TerminalBounds) -> Terminal {
    Terminal { last_content: TerminalContent { terminal_bounds: bounds, ..t.last_content }, ..t }
}

/// The snapshot after a sync against one engine read: every field is
/// rebuilt from that single read, except the stored dimensions and the
/// hover extent, which the session owns.
pub open spec fn sync_spec(t: Terminal, grid: GridContent) -> TerminalContent {
    TerminalContent {
        cells: grid.cells,
        mode: grid.mode,
        display_offset: grid.display_offset,
        selection: grid.selection,
        cursor: grid.cursor,
        cursor_char: grid.cursor_char,
        terminal_bounds: t.last_content.terminal_bounds,
        hovered_hyperlink: t.hovered_hyperlink,
    }
}

impl Terminal {
    /// A fresh session: default snapshot, empty queues, no pointer state.
    pub fn new() -> (r: Self)
        ensures
            r.last_content.cells@.len() == 0,
            r.last_content.display_offset == 0,
            r.last_content.mode == (TermMode {
                app_cursor: false,
                alt_screen: false,
                show_cursor: false,
            }),
            r.pending@.len() == 0,
            r.pending_writes@.len() == 0,
            r.mouse_down_url is None,
            r.hovered_hyperlink is None,
    {
        Terminal {
            last_content: TerminalContent::default(),
            pending: Vec::new(),
            pending_writes: Vec::new(),
            mouse_down_url: None,
            hovered_hyperlink: None,
        }
    }

    /// Get the current terminal content for rendering. Cheap and
    /// non-blocking: it is the last synced snapshot, never a live read.
    pub fn last_content(&self) -> (r: &TerminalContent)
        ensures
            r == self.last_content,
    {
        &self.last_content
    }

    /// Get the terminal content for rendering.
    pub fn content(&self) -> (r: &TerminalContent)
        ensures
            r == self.last_content,
    {
        &self.last_content
    }

    /// The terminal mode flags of the last snapshot.
    pub fn mode(&self) -> (r: TermMode)
        ensures
            r == self.last_content.mode,
    {
        self.last_content.mode
    }

    /// Queue input for the subprocess and force the view back to the live
    /// position: typing always implies interest in the live output, never
    /// history.
    pub fn input(&mut self, data: Vec<u8>)
        ensures
            final(self).pending_writes.deep_view() == old(self).pending_writes.deep_view().push(
                data@,
            ),
            final(self).pending@ == old(self).pending@.push(
                InternalEvent::Scroll(ScrollRequest::Bottom),
            ),
            final(self).last_content == old(self).last_content,
            final(self).mouse_down_url == old(self).mouse_down_url,
            final(self).hovered_hyperlink == old(self).hovered_hyperlink,
    {
        let ghost prior = self.pending_writes.deep_view();
        self.pending_writes.push(data);
        self.pending.push(InternalEvent::Scroll(ScrollRequest::Bottom));
        proof {
            assert(self.pending_writes.deep_view() =~~= prior.push(
                self.pending_writes@[prior.len() as int]@,
            ));
        }
    }

    /// Try to handle a keystroke, returning true when it was translated
    /// into subprocess input. An encodable key sends its escape sequence;
    /// otherwise ordinary typing — literal text under no modifier or
    /// shift alone — is passed through unmodified; anything else is left
    /// to the caller.
    pub fn try_keystroke(&mut self, keystroke: &Keystroke, option_as_meta: bool) -> (r: bool)
        ensures
            ({
                let esc = esc_spec(*keystroke, old(self).last_content.mode, option_as_meta);
                let ordinary = !keystroke.modifiers.control && !keystroke.modifiers.alt
                    && !keystroke.modifiers.platform;
                match esc {
                    Some(s) => r && input_queues_spec(
                        *old(self),
                        *final(self),
                        vstd::utf8::encode_utf8(s),
                    ),
                    None => if ordinary {
                        match keystroke.key_char {
                            Some(text) => r && input_queues_spec(
                                *old(self),
                                *final(self),
                                vstd::utf8::encode_utf8(text@),
                            ),
                            None => match keystroke.key {
                                Key::Char(c) => r && input_queues_spec(
                                    *old(self),
                                    *final(self),
                                    vstd::utf8::encode_utf8(seq![c]),
                                ),
                                _ => !r && *final(self) == *old(self),
                            },
                        }
                    } else {
                        !r && *final(self) == *old(self)
                    },
                }
            }),
    {
        if let Some(esc) = to_esc_str(keystroke, &self.last_content.mode, option_as_meta) {
            self.input(esc.as_str().as_bytes_vec());
            return true;
        }
        let ordinary = !keystroke.modifiers.control && !keystroke.modifiers.alt
            && !keystroke.modifiers.platform;
        if !ordinary {
            return false;
        }
        if let Some(text) = &keystroke.key_char {
            self.input(text.as_str().as_bytes_vec());
            return true;
        }
        if let Key::Char(c) = keystroke.key {
            let s = char_string(c);
            self.input(s.as_str().as_bytes_vec());
            return true;
        }
        false
    }

    /// Apply a resize: the stored dimensions change at once, and the
    /// returned window size must be applied to the engine and reported to
    /// the subprocess by the caller. Resizing is idempotent.
    pub fn resize(&mut self, bounds: TerminalBounds) -> (ws: WindowSize)
        requires
            bounds.wf(),
        ensures
            *final(self) == resize_spec(*old(self), bounds),
            ws == spec_window_size(bounds),
    {
        self.last_content.terminal_bounds = bounds;
        bounds.window_size()
    }

    /// Queue a scroll by the given number of lines (positive is toward
    /// history); zero is ignored.
    pub fn scroll_lines(&mut self, lines: i32)
        ensures
            final(self).pending@ == if lines != 0 {
                old(self).pending@.push(InternalEvent::Scroll(ScrollRequest::Delta(lines)))
            } else {
                old(self).pending@
            },
            final(self).pending_writes == old(self).pending_writes,
            final(self).last_content == old(self).last_content,
            final(self).mouse_down_url == old(self).mouse_down_url,
            final(self).hovered_hyperlink == old(self).hovered_hyperlink,
    {
        if lines != 0 {
            self.pending.push(InternalEvent::Scroll(ScrollRequest::Delta(lines)));
        }
    }

    /// Queue a scroll up by one page.
    pub fn scroll_page_up(&mut self)
        ensures
            final(self).pending@ == old(self).pending@.push(
                InternalEvent::Scroll(ScrollRequest::PageUp),
            ),
            final(self).pending_writes == old(self).pending_writes,
            final(self).last_content == old(self).last_content,
            final(self).mouse_down_url == old(self).mouse_down_url,
            final(self).hovered_hyperlink == old(self).hovered_hyperlink,
    {
        self.pending.push(InternalEvent::Scroll(ScrollRequest::PageUp));
    }

    /// Queue a scroll down by one page.
    pub fn scroll_page_down(&mut self)
        ensures
            final(self).pending@ == old(self).pending@.push(
                InternalEvent::Scroll(ScrollRequest::PageDown),
            ),
            final(self).pending_writes == old(self).pending_writes,
            final(self).last_content == old(self).last_content,
            final(self).mouse_down_url == old(self).mouse_down_url,
            final(self).hovered_hyperlink == old(self).hovered_hyperlink,
    {
        self.pending.push(InternalEvent::Scroll(ScrollRequest::PageDown));
    }

    /// Queue a scroll to the top of the scrollback.
    pub fn scroll_to_top(&mut self)
        ensures
            final(self).pending@ == old(self).pending@.push(
                InternalEvent::Scroll(ScrollRequest::Top),
            ),
            final(self).pending_writes == old(self).pending_writes,
            final(self).last_content == old(self).last_content,
            final(self).mouse_down_url == old(self).mouse_down_url,
            final(self).hovered_hyperlink == old(self).hovered_hyperlink,
    {
        self.pending.push(InternalEvent::Scroll(ScrollRequest::Top));
    }

    /// Queue a scroll to the live position.
    pub fn scroll_to_bottom(&mut self)
        ensures
            final(self).pending@ == old(self).pending@.push(
                InternalEvent::Scroll(ScrollRequest::Bottom),
            ),
            final(self).pending_writes == old(self).pending_writes,
            final(self).last_content == old(self).last_content,
            final(self).mouse_down_url == old(self).mouse_down_url,
            final(self).hovered_hyperlink == old(self).hovered_hyperlink,
    {
        self.pending.push(InternalEvent::Scroll(ScrollRequest::Bottom));
    }

    /// Drain the queued engine operations. The caller applies them under
    /// the engine lock, in order, then reads the grid once and hands the
    /// read to `sync`.
    pub fn begin_sync(&mut self) -> (ops: Vec<InternalEvent>)
        ensures
            ops == old(self).pending,
            final(self).pending@.len() == 0,
            final(self).pending_writes == old(self).pending_writes,
            final(self).last_content == old(self).last_content,
            final(self).mouse_down_url == old(self).mouse_down_url,
            final(self).hovered_hyperlink == old(self).hovered_hyperlink,
    {
        let mut ops: Vec<InternalEvent> = Vec::new();
        core::mem::swap(&mut ops, &mut self.pending);
        ops
    }

    /// Rebuild the content snapshot wholesale from one consistent engine
    /// read. Every grid-derived field of the new snapshot comes from that
    /// single read, so a snapshot can never mix two engine states.
    pub fn sync(&mut self, grid: GridContent)
        ensures
            final(self).last_content == sync_spec(*old(self), grid),
            final(self).pending == old(self).pending,
            final(self).pending_writes == old(self).pending_writes,
            final(self).mouse_down_url == old(self).mouse_down_url,
            final(self).hovered_hyperlink == old(self).hovered_hyperlink,
    {
        self.last_content = TerminalContent {
            cells: grid.cells,
            mode: grid.mode,
            display_offset: grid.display_offset,
            selection: grid.selection,
            cursor: grid.cursor,
            cursor_char: grid.cursor_char,
            terminal_bounds: self.last_content.terminal_bounds,
            hovered_hyperlink: self.hovered_hyperlink,
        };
    }

    /// Drain the bytes awaiting the process host's writer. The caller
    /// hands them to the pseudo-terminal, oldest first, and drops them
    /// silently if the subprocess is gone.
    pub fn take_writes(&mut self) -> (w: Vec<Vec<u8>>)
        ensures
            w == old(self).pending_writes,
            final(self).pending_writes@.len() == 0,
            final(self).pending == old(self).pending,
            final(self).last_content == old(self).last_content,
            final(self).mouse_down_url == old(self).mouse_down_url,
            final(self).hovered_hyperlink == old(self).hovered_hyperlink,
    {
        let mut w: Vec<Vec<u8>> = Vec::new();
        core::mem::swap(&mut w, &mut self.pending_writes);
        w
    }

    /// Dispatch one event from the host's reader loop, in arrival order:
    /// a wakeup asks for a re-sync and is surfaced; bell and title
    /// changes are surfaced; a close request is surfaced and stops the
    /// consumer; a raw write is queued for the subprocess.
    pub fn process_event(&mut self, event: SessionEvent) -> (act: EventAction)
        ensures
            match event {
                SessionEvent::Wakeup => act == (EventAction {
                    emit: Some(Event::Wakeup),
                    needs_sync: true,
                    stop: false,
                }) && *final(self) == *old(self),
                SessionEvent::Bell => act == (EventAction {
                    emit: Some(Event::Bell),
                    needs_sync: false,
                    stop: false,
                }) && *final(self) == *old(self),
                SessionEvent::TitleChanged => act == (EventAction {
                    emit: Some(Event::TitleChanged),
                    needs_sync: false,
                    stop: false,
                }) && *final(self) == *old(self),
                SessionEvent::CloseRequested => act == (EventAction {
                    emit: Some(Event::CloseTerminal),
                    needs_sync: false,
                    stop: true,
                }) && *final(self) == *old(self),
                SessionEvent::RawWrite(data) => {
                    &&& act == (EventAction { emit: None, needs_sync: false, stop: false })
                    &&& final(self).pending_writes.deep_view()
                        == old(self).pending_writes.deep_view().push(data@)
                    &&& final(self).pending == old(self).pending
                    &&& final(self).last_content == old(self).last_content
                    &&& final(self).mouse_down_url == old(self).mouse_down_url
                    &&& final(self).hovered_hyperlink == old(self).hovered_hyperlink
                },
            },
    {
        match event {
            SessionEvent::Wakeup => EventAction {
                emit: Some(Event::Wakeup),
                needs_sync: true,
                stop: false,
            },
            SessionEvent::Bell => EventAction {
                emit: Some(Event::Bell),
                needs_sync: false,
                stop: false,
            },
            SessionEvent::TitleChanged => EventAction {
                emit: Some(Event::TitleChanged),
                needs_sync: false,
                stop: false,
            },
            SessionEvent::CloseRequested => EventAction {
                emit: Some(Event::CloseTerminal),
                needs_sync: false,
                stop: true,
            },
            SessionEvent::RawWrite(data) => {
                let ghost prior = self.pending_writes.deep_view();
                self.pending_writes.push(data);
                proof {
                    assert(self.pending_writes.deep_view() =~~= prior.push(
                        self.pending_writes@[prior.len() as int]@,
                    ));
                }
                EventAction { emit: None, needs_sync: false, stop: false }
            },
        }
    }
}

/// A snapshot maps pixels to grid coordinates only when its cell metrics
/// are positive and its line count and display offset fit the signed
/// arithmetic of grid lines.
pub open spec fn pixel_mappable(c: TerminalContent) -> bool {
    &&& c.terminal_bounds.wf()
    &&& c.terminal_bounds.spec_num_lines() <= i32::MAX
    &&& c.display_offset <= i32::MAX
}

/// The grid coordinate under a pixel position: the cell the position
/// falls in, adjusted for the scrollback display offset, or nothing when
/// the position lies outside the grid.
pub open spec fn pixel_to_grid_spec(c: TerminalContent, p: PixelPoint) -> Option<GridPoint> {
    if p.x < 0 || p.y < 0 {
        None
    } else {
        let col = p.x as int / c.terminal_bounds.cell_width as int;
        let line = p.y as int / c.terminal_bounds.line_height as int;
        if col >= c.terminal_bounds.spec_num_columns() || line
            >= c.terminal_bounds.spec_num_lines() {
            None
        } else {
            Some(GridPoint { line: (line - c.display_offset) as i32, column: col as usize })
        }
    }
}

/// How a press changes the session: with the platform modifier held and
/// the left button pressed over a URL, the URL and its extent are
/// recorded and the press is consumed; otherwise any hover is cleared and
/// nothing is recorded.
pub open spec fn mouse_down_rel(
    pre: Terminal,
    post: Terminal,
    button: MouseButton,
    position: PixelPoint,
    mods: Modifiers,
    engaged: bool,
) -> bool {
    if button != MouseButton::Left || !mods.platform {
        &&& !engaged
        &&& post == (Terminal { hovered_hyperlink: None, ..pre })
    } else {
        let hit = match pixel_to_grid_spec(pre.last_content, position) {
            Some(pt) => find_url_at_point_spec(pre.last_content, pt),
            None => None,
        };
        match hit {
            Some(m) => {
                &&& engaged
                &&& post.last_content == pre.last_content
                &&& post.pending == pre.pending
                &&& post.pending_writes == pre.pending_writes
                &&& post.mouse_down_url matches Some(u) && u@ == m.0
                &&& post.hovered_hyperlink == Some(m.1)
            },
            None => {
                &&& !engaged
                &&& post == (Terminal { mouse_down_url: None, hovered_hyperlink: None, ..pre })
            },
        }
    }
}

/// How a release changes the session: it fires an open-URL outcome only
/// when a press was recorded, the platform modifier is still held, and
/// the URL under the release point is identical to the recorded one. A
/// left release always consumes the recorded press.
pub open spec fn mouse_up_rel(
    pre: Terminal,
    post: Terminal,
    button: MouseButton,
    position: PixelPoint,
    mods: Modifiers,
    opened: Option<Seq<char>>,
) -> bool {
    if button != MouseButton::Left {
        &&& opened is None
        &&& post == pre
    } else {
        &&& post == (Terminal { mouse_down_url: None, ..pre })
        &&& match pre.mouse_down_url {
            None => opened is None,
            Some(du) => {
                let hit = if mods.platform {
                    match pixel_to_grid_spec(pre.last_content, position) {
                        Some(pt) => find_url_at_point_spec(pre.last_content, pt),
                        None => None,
                    }
                } else {
                    None
                };
                match hit {
                    Some(m) => if m.0 == du@ {
                        opened == Some(du@)
                    } else {
                        opened is None
                    },
                    None => opened is None,
                }
            },
        }
    }
}

/// How a pointer move changes the hover state: while the platform
/// modifier is held the hyperlink extent under the pointer is
/// highlighted; otherwise the highlight is cleared.
pub open spec fn mouse_move_rel(
    pre: Terminal,
    post: Terminal,
    position: PixelPoint,
    mods: Modifiers,
) -> bool {
    let hover = if mods.platform {
        match pixel_to_grid_spec(pre.last_content, position) {
            Some(pt) => match find_url_at_point_spec(pre.last_content, pt) {
                Some(m) => Some(m.1),
                None => None,
            },
            None => None,
        }
    } else {
        None
    };
    post == (Terminal { hovered_hyperlink: hover, ..pre })
}

/// The view of an optional string.
pub open spec fn option_view(o: Option<String>) -> Option<Seq<char>> {
    match o {
        Some(s) => Some(s@),
        None => None,
    }
}

impl Terminal {
    /// Convert a pixel position relative to the viewport origin to the
    /// grid coordinate under it.
    pub fn pixel_to_grid_point(&self, position: PixelPoint) -> (r: Option<GridPoint>)
        requires
            pixel_mappable(self.last_content),
        ensures
            r == pixel_to_grid_spec(self.last_content, position),
    {
        if position.x < 0 || position.y < 0 {
            return None;
        }
        let bounds = &self.last_content.terminal_bounds;
        let col: u32 = (position.x as u32) / bounds.cell_width;
        let line: u32 = (position.y as u32) / bounds.line_height;
        let num_cols = bounds.num_columns();
        let num_lines = bounds.num_lines();
        if col as usize >= num_cols || line as usize >= num_lines {
            return None;
        }
        let adjusted: i32 = (line as i32) - (self.last_content.display_offset as i32);
        Some(GridPoint { line: adjusted, column: col as usize })
    }

    /// Handle a press. Only a left press with the platform modifier held
    /// engages the click protocol; it records the URL under the press
    /// point, if any, and returns whether the press was consumed.
    pub fn mouse_down(&mut self, button: MouseButton, position: PixelPoint, modifiers: &Modifiers)
        -> (r: bool)
        requires
            pixel_mappable(old(self).last_content),
        ensures
            mouse_down_rel(*old(self), *final(self), button, position, *modifiers, r),
    {
        if !matches!(button, MouseButton::Left) || !modifiers.platform {
            self.hovered_hyperlink = None;
            return false;
        }
        if let Some(point) = self.pixel_to_grid_point(position) {
            if let Some((url, match_range)) = find_url_at_point(&self.last_content, point) {
                self.mouse_down_url = Some(url);
                self.hovered_hyperlink = Some(match_range);
                return true;
            }
        }
        self.mouse_down_url = None;
        self.hovered_hyperlink = None;
        false
    }

    /// Handle a release. Returns the URL to open when a press was
    /// recorded, the platform modifier is still held, and the URL under
    /// the release point is the recorded one; this prevents accidental
    /// opens from drag gestures.
    pub fn mouse_up(&mut self, button: MouseButton, position: PixelPoint, modifiers: &Modifiers)
        -> (r: Option<String>)
        requires
            pixel_mappable(old(self).last_content),
        ensures
            mouse_up_rel(*old(self), *final(self), button, position, *modifiers, option_view(r)),
    {
        if !matches!(button, MouseButton::Left) {
            return None;
        }
        let mouse_down_url = self.mouse_down_url.take();
        if let Some(down_url) = mouse_down_url {
            if modifiers.platform {
                if let Some(point) = self.pixel_to_grid_point(position) {
                    if let Some((up_url, _range)) = find_url_at_point(&self.last_content, point) {
                        if up_url == down_url {
                            return Some(down_url);
                        }
                    }
                }
            }
        }
        None
    }

    /// Update the hover state as the pointer moves: the hyperlink under
    /// the pointer is highlighted while the platform modifier is held.
    pub fn mouse_move(&mut self, position: PixelPoint, modifiers: &Modifiers)
        requires
            pixel_mappable(old(self).last_content),
        ensures
            mouse_move_rel(*old(self), *final(self), position, *modifiers),
    {
        if !modifiers.platform {
            self.hovered_hyperlink = None;
            return ;
        }
        if let Some(point) = self.pixel_to_grid_point(position) {
            if let Some((_url, match_range)) = find_url_at_point(&self.last_content, point) {
                self.hovered_hyperlink = Some(match_range);
                return ;
            }
        }
        self.hovered_hyperlink = None;
    }

    /// The currently hovered hyperlink extent, for rendering.
    pub fn hovered_hyperlink(&self) -> (r: Option<PointRange>)
        ensures
            r == self.hovered_hyperlink,
    {
        self.hovered_hyperlink
    }

    /// Clear the hovered hyperlink state.
    pub fn clear_hovered_hyperlink(&mut self)
        ensures
            *final(self) == (Terminal { hovered_hyperlink: None, ..*old(self) }),
    {
        self.hovered_hyperlink = None;
    }
}

/// Resizing is idempotent: applying the same dimensions twice leaves the
/// session exactly as one application does, with the same snapshot
/// dimensions, and a resize never moves the cursor.
pub proof fn lemma_resize_idempotent(t: Terminal, bounds: TerminalBounds)
    ensures
        resize_spec(resize_spec(t, bounds), bounds) == resize_spec(t, bounds),
        resize_spec(t, bounds).last_content.terminal_bounds == bounds,
        resize_spec(t, bounds).last_content.cursor == t.last_content.cursor,
{
}

/// A synced snapshot is internally consistent: its cells, cursor, mode,
/// display offset and selection all come from the same single engine
/// read, never from two different reads.
pub proof fn lemma_sync_consistency(t: Terminal, grid: GridContent)
    ensures
        sync_spec(t, grid).cells == grid.cells,
        sync_spec(t, grid).cursor == grid.cursor,
        sync_spec(t, grid).mode == grid.mode,
        sync_spec(t, grid).display_offset == grid.display_offset,
        sync_spec(t, grid).selection == grid.selection,
        sync_spec(t, grid).cursor_char == grid.cursor_char,
{
}

/// The click protocol opens a URL exactly once: a press over a URL with
/// the platform modifier held, followed by a release over the same URL
/// with the modifier still held, yields that URL as the one open-URL
/// outcome, and the recorded press is consumed, so a further identical
/// release yields nothing.
pub proof fn lemma_click_protocol_same_url(
    t0: Terminal,
    t1: Terminal,
    t2: Terminal,
    t3: Terminal,
    position: PixelPoint,
    mods: Modifiers,
    engaged: bool,
    opened: Option<Seq<char>>,
    opened_again: Option<Seq<char>>,
    pt: GridPoint,
    url: Seq<char>,
    range: PointRange,
)
    requires
        mods.platform,
        pixel_to_grid_spec(t0.last_content, position) == Some(pt),
        find_url_at_point_spec(t0.last_content, pt) == Some((url, range)),
        mouse_down_rel(t0, t1, MouseButton::Left, position, mods, engaged),
        mouse_up_rel(t1, t2, MouseButton::Left, position, mods, opened),
        mouse_up_rel(t2, t3, MouseButton::Left, position, mods, opened_again),
    ensures
        engaged,
        opened == Some(url),
        opened_again is None,
{
}

/// A release over a different URL than the one under the press yields no
/// open-URL outcome.
pub proof fn lemma_click_protocol_different_url(
    t0: Terminal,
    t1: Terminal,
    t2: Terminal,
    press_pos: PixelPoint,
    release_pos: PixelPoint,
    mods: Modifiers,
    engaged: bool,
    opened: Option<Seq<char>>,
    press_pt: GridPoint,
    release_pt: GridPoint,
    press_url: Seq<char>,
    press_range: PointRange,
    release_url: Seq<char>,
    release_range: PointRange,
)
    requires
        mods.platform,
        pixel_to_grid_spec(t0.last_content, press_pos) == Some(press_pt),
        find_url_at_point_spec(t0.last_content, press_pt) == Some((press_url, press_range)),
        pixel_to_grid_spec(t0.last_content, release_pos) == Some(release_pt),
        find_url_at_point_spec(t0.last_content, release_pt) == Some((release_url, release_range)),
        release_url != press_url,
        mouse_down_rel(t0, t1, MouseButton::Left, press_pos, mods, engaged),
        mouse_up_rel(t1, t2, MouseButton::Left, release_pos, mods, opened),
    ensures
        engaged,
        opened is None,
{
}

} // verus!
