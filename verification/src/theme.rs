//! The application theme: a dark palette, with every color packed as an
//! `0xRRGGBBAA` value.

use vstd::prelude::*;

verus! {

/// Theme colors for the application.
pub struct Theme;

impl Theme {
    /// Fully transparent.
    pub fn transparent() -> (r: u32)
        ensures
            r == 0x00000000,
    {
        0x00000000
    }

    /// Main background (editor, workspace).
    pub fn background() -> (r: u32)
        ensures
            r == 0x21262cff,
    {
        0x21262cff
    }

    /// Surface and panel background (sidebar, tab bar, status bar).
    pub fn surface() -> (r: u32)
        ensures
            r == 0x1d2228ff,
    {
        0x1d2228ff
    }

    /// Active line background in the editor.
    pub fn active_line() -> (r: u32)
        ensures
            r == 0x2c3137ff,
    {
        0x2c3137ff
    }

    /// Standard border.
    pub fn border() -> (r: u32)
        ensures
            r == 0x2d333aff,
    {
        0x2d333aff
    }

    /// Border variant, slightly lighter.
    pub fn border_variant() -> (r: u32)
        ensures
            r == 0x353c42ff,
    {
        0x353c42ff
    }

    /// Focused border.
    pub fn border_focused() -> (r: u32)
        ensures
            r == 0x3a424bff,
    {
        0x3a424bff
    }

    /// Selected border.
    pub fn border_selected() -> (r: u32)
        ensures
            r == 0x4c9c9dff,
    {
        0x4c9c9dff
    }

    /// Primary text.
    pub fn text() -> (r: u32)
        ensures
            r == 0xc2d6eaff,
    {
        0xc2d6eaff
    }

    /// Muted text.
    pub fn text_muted() -> (r: u32)
        ensures
            r == 0x78859bff,
    {
        0x78859bff
    }

    /// Editor text.
    pub fn text_editor() -> (r: u32)
        ensures
            r == 0xa0b0c1ff,
    {
        0xa0b0c1ff
    }

    /// Placeholder text.
    pub fn text_placeholder() -> (r: u32)
        ensures
            r == 0x636e80ff,
    {
        0x636e80ff
    }

    /// Disabled text.
    pub fn text_disabled() -> (r: u32)
        ensures
            r == 0x404953ff,
    {
        0x404953ff
    }

    /// Accented text.
    pub fn text_accent() -> (r: u32)
        ensures
            r == 0x4c9c9dff,
    {
        0x4c9c9dff
    }

    /// Element background.
    pub fn element() -> (r: u32)
        ensures
            r == 0x353c42ff,
    {
        0x353c42ff
    }

    /// Hovered element background.
    pub fn element_hover() -> (r: u32)
        ensures
            r == 0x3e464dff,
    {
        0x3e464dff
    }

    /// Active element background.
    pub fn element_active() -> (r: u32)
        ensures
            r == 0x373f47ff,
    {
        0x373f47ff
    }

    /// Hovered ghost element: white at one-twentieth opacity.
    pub fn ghost_element_hover() -> (r: u32)
        ensures
            r == 0xffffff0d,
    {
        0xffffff0d
    }

    /// Selected ghost element: white at slight opacity.
    pub fn ghost_element_selected() -> (r: u32)
        ensures
            r == 0xffffff14,
    {
        0xffffff14
    }

    /// Active ghost element: white at an eighth opacity.
    pub fn ghost_element_active() -> (r: u32)
        ensures
            r == 0xffffff1f,
    {
        0xffffff1f
    }

    /// Indent guide.
    pub fn indent_guide() -> (r: u32)
        ensures
            r == 0x2d333aff,
    {
        0x2d333aff
    }

    /// Hovered indent guide.
    pub fn indent_guide_hover() -> (r: u32)
        ensures
            r == 0x3a424bff,
    {
        0x3a424bff
    }

    /// Active indent guide.
    pub fn indent_guide_active() -> (r: u32)
        ensures
            r == 0x4c9c9dff,
    {
        0x4c9c9dff
    }

    /// Accent.
    pub fn accent() -> (r: u32)
        ensures
            r == 0x4c9c9dff,
    {
        0x4c9c9dff
    }

    /// Secondary accent.
    pub fn accent_secondary() -> (r: u32)
        ensures
            r == 0x82aaffff,
    {
        0x82aaffff
    }

    /// Hovered accent.
    pub fn accent_hover() -> (r: u32)
        ensures
            r == 0x5eb3b4ff,
    {
        0x5eb3b4ff
    }

    /// Error foreground.
    pub fn error() -> (r: u32)
        ensures
            r == 0xff5370ff,
    {
        0xff5370ff
    }

    /// Error background.
    pub fn error_bg() -> (r: u32)
        ensures
            r == 0x3a2029ff,
    {
        0x3a2029ff
    }

    /// Warning foreground.
    pub fn warning() -> (r: u32)
        ensures
            r == 0xf8be53ff,
    {
        0xf8be53ff
    }

    /// Warning background.
    pub fn warning_bg() -> (r: u32)
        ensures
            r == 0x3d3223ff,
    {
        0x3d3223ff
    }

    /// Success foreground.
    pub fn success() -> (r: u32)
        ensures
            r == 0xc3e88dff,
    {
        0xc3e88dff
    }

    /// Success background.
    pub fn success_bg() -> (r: u32)
        ensures
            r == 0x1e3a2fff,
    {
        0x1e3a2fff
    }

    /// Informational foreground.
    pub fn info() -> (r: u32)
        ensures
            r == 0x82aaffff,
    {
        0x82aaffff
    }

    /// Informational background.
    pub fn info_bg() -> (r: u32)
        ensures
            r == 0x1e2940ff,
    {
        0x1e2940ff
    }

    /// Created entry in change lists.
    pub fn created() -> (r: u32)
        ensures
            r == 0xc3e88dff,
    {
        0xc3e88dff
    }

    /// Modified entry in change lists.
    pub fn modified() -> (r: u32)
        ensures
            r == 0x82aaffff,
    {
        0x82aaffff
    }

    /// Deleted entry in change lists.
    pub fn deleted() -> (r: u32)
        ensures
            r == 0xff5370ff,
    {
        0xff5370ff
    }

    /// Renamed entry in change lists.
    pub fn renamed() -> (r: u32)
        ensures
            r == 0xc792eaff,
    {
        0xc792eaff
    }

    /// Function names in highlighted code.
    pub fn function() -> (r: u32)
        ensures
            r == 0xffc66dff,
    {
        0xffc66dff
    }

    /// String literals in highlighted code.
    pub fn string() -> (r: u32)
        ensures
            r == 0xa5c25cff,
    {
        0xa5c25cff
    }

    /// Numeric literals in highlighted code.
    pub fn number() -> (r: u32)
        ensures
            r == 0xe87366ff,
    {
        0xe87366ff
    }

    /// Keywords in highlighted code.
    pub fn keyword() -> (r: u32)
        ensures
            r == 0xac8497ff,
    {
        0xac8497ff
    }

    /// Terminal background.
    pub fn terminal_bg() -> (r: u32)
        ensures
            r == 0x21262cff,
    {
        0x21262cff
    }

    /// Terminal foreground.
    pub fn terminal_fg() -> (r: u32)
        ensures
            r == 0xb6c4d2ff,
    {
        0xb6c4d2ff
    }

    /// Scrollbar thumb.
    pub fn scrollbar_thumb() -> (r: u32)
        ensures
            r == 0x3a424bff,
    {
        0x3a424bff
    }

    /// Hovered scrollbar thumb.
    pub fn scrollbar_thumb_hover() -> (r: u32)
        ensures
            r == 0x4a545eff,
    {
        0x4a545eff
    }

    /// Panel divider.
    pub fn panel_divider() -> (r: u32)
        ensures
            r == 0x3d4450ff,
    {
        0x3d4450ff
    }

    /// Hovered panel divider.
    pub fn panel_divider_hover() -> (r: u32)
        ensures
            r == 0x4c9c9dff,
    {
        0x4c9c9dff
    }

}

} // verus!
