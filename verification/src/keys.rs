//! Keystroke to escape-sequence encoding.
//!
//! Maps a structured key event, together with the live terminal mode flags,
//! to the byte sequence the subprocess expects, following the xterm
//! modifier-encoding convention. The encoding is a pure function: the same
//! event and mode flags always yield the same result, and a key the
//! terminal cannot encode yields `None` so the caller can handle it.

use vstd::prelude::*;
use vstd::string::StringExecFns;

use crate::strutil::{char_string, is_ascii_char, spec_to_upper, string_push, to_upper};

verus! {

/// Modifier keys held during a key event.
#[derive(Clone, Copy, Debug, Default, PartialEq, Eq, Structural)]
pub struct Modifiers {
    pub control: bool,
    pub alt: bool,
    pub shift: bool,
    pub platform: bool,
}

impl Modifiers {
    /// Whether any modifier key at all is held.
    pub fn any(&self) -> (r: bool)
        ensures
            r == (self.control || self.alt || self.shift || self.platform),
    {
        self.control || self.alt || self.shift || self.platform
    }
}

/// The logical key of a key event. Printable keys carry their character;
/// the named variants cover the navigation, editing and function keys the
/// encoder knows about.
#[derive(Clone, Copy, Debug, PartialEq, Eq, Structural)]
pub enum Key {
    Up,
    Down,
    Left,
    Right,
    Home,
    End,
    PageUp,
    PageDown,
    Insert,
    Delete,
    Tab,
    Escape,
    Enter,
    Backspace,
    Space,
    F1,
    F2,
    F3,
    F4,
    F5,
    F6,
    F7,
    F8,
    F9,
    F10,
    F11,
    F12,
    Char(char),
}

/// A structured key event: the logical key, the modifiers held, and the
/// literal text the event would type, if any.
#[derive(Clone, Debug, PartialEq, Eq)]
pub struct Keystroke {
    pub key: Key,
    pub modifiers: Modifiers,
    pub key_char: Option<String>,
}

/// The classes of modifier combinations the fixed lookup table
/// distinguishes. Combinations involving the platform key, or three or
/// more modifiers, fall into `Other`.
#[derive(Clone, Copy, Debug, PartialEq, Eq, Structural)]
pub enum AlacModifiers {
    NoMods,
    Alt,
    Ctrl,
    Shift,
    CtrlShift,
    Other,
}

/// The modifier class of a set of held modifiers.
pub open spec fn spec_class(m: Modifiers) -> AlacModifiers {
    if !m.alt && !m.control && !m.shift && !m.platform {
        AlacModifiers::NoMods
    } else if m.alt && !m.control && !m.shift && !m.platform {
        AlacModifiers::Alt
    } else if !m.alt && m.control && !m.shift && !m.platform {
        AlacModifiers::Ctrl
    } else if !m.alt && !m.control && m.shift && !m.platform {
        AlacModifiers::Shift
    } else if !m.alt && m.control && m.shift && !m.platform {
        AlacModifiers::CtrlShift
    } else {
        AlacModifiers::Other
    }
}

impl AlacModifiers {
    pub fn new(ks: &Keystroke) -> (r: Self)
        ensures
            r == spec_class(ks.modifiers),
    {
        let m = &ks.modifiers;
        if !m.alt && !m.control && !m.shift && !m.platform {
            AlacModifiers::NoMods
        } else if m.alt && !m.control && !m.shift && !m.platform {
            AlacModifiers::Alt
        } else if !m.alt && m.control && !m.shift && !m.platform {
            AlacModifiers::Ctrl
        } else if !m.alt && !m.control && m.shift && !m.platform {
            AlacModifiers::Shift
        } else if !m.alt && m.control && m.shift && !m.platform {
            AlacModifiers::CtrlShift
        } else {
            AlacModifiers::Other
        }
    }

    pub fn any(&self) -> (r: bool)
        ensures
            r == (*self != AlacModifiers::NoMods),
    {
        !matches!(self, AlacModifiers::NoMods)
    }
}

/// Terminal display modes that change how keys are encoded.
#[derive(Clone, Copy, Debug, PartialEq, Eq, Structural)]
pub struct TermMode {
    /// Application cursor mode: navigation keys send SS3 sequences.
    pub app_cursor: bool,
    /// Alternate screen active: shifted navigation keys are sent to the
    /// subprocess instead of scrolling the view.
    pub alt_screen: bool,
    /// Whether the cursor is visible (carried for rendering; the encoder
    /// does not read it).
    pub show_cursor: bool,
}

impl TermMode {
    /// The mode with no flags set.
    pub fn empty() -> (r: Self)
        ensures
            r == (TermMode { app_cursor: false, alt_screen: false, show_cursor: false }),
    {
        TermMode { app_cursor: false, alt_screen: false, show_cursor: false }
    }
}

/// The numeric modifier code of the xterm convention:
/// `1 + shift + 2*alt + 4*control`.
pub open spec fn spec_modifier_code(m: Modifiers) -> u32 {
    (1 + (if m.shift {
        1int
    } else {
        0int
    }) + (if m.alt {
        2int
    } else {
        0int
    }) + (if m.control {
        4int
    } else {
        0int
    })) as u32
}

/// Calculate the modifier code for parameterized escape sequences.
pub fn modifier_code(keystroke: &Keystroke) -> (r: u32)
    ensures
        r == spec_modifier_code(keystroke.modifiers),
        1 <= r <= 8,
{
    let mut code: u32 = 1;
    if keystroke.modifiers.shift {
        code = code + 1;
    }
    if keystroke.modifiers.alt {
        code = code + 2;
    }
    if keystroke.modifiers.control {
        code = code + 4;
    }
    code
}

/// The ASCII digit of a modifier code (codes are at most 8).
pub open spec fn code_digit(code: u32) -> char
    recommends
        1 <= code <= 8,
{
    ((0x30 + code) as u8) as char
}

/// The control character of a lower-case letter: `'a'` maps to 0x01 and so
/// on through `'z'` at 0x1a.
pub open spec fn ctrl_letter(c: char) -> char
    recommends
        'a' <= c <= 'z',
{
    ((c as u8) - 0x60) as char
}

/// The control character of an upper-case letter: `'A'` maps to 0x01.
pub open spec fn ctrl_upper_letter(c: char) -> char
    recommends
        'A' <= c <= 'Z',
{
    ((c as u8) - 0x40) as char
}

/// A parameterized escape sequence `prefix`, modifier digit, `suffix`.
pub open spec fn csi_mod(prefix: Seq<char>, code: u32, suffix: Seq<char>) -> Seq<char> {
    prefix + seq![code_digit(code)] + suffix
}

/// The fixed lookup table: exact matches on the key and the modifier
/// class, some of them sensitive to the terminal mode. Shifted Home, End,
/// PageUp and PageDown encode only on the alternate screen; elsewhere the
/// caller scrolls the view instead.
pub open spec fn manual_esc(key: Key, class: AlacModifiers, mode: TermMode) -> Option<Seq<char>> {
    match (key, class) {
        (Key::Tab, AlacModifiers::NoMods) => Some("\x09"@),
        (Key::Escape, AlacModifiers::NoMods) => Some("\x1b"@),
        (Key::Enter, AlacModifiers::NoMods) => Some("\x0d"@),
        (Key::Enter, AlacModifiers::Shift) => Some("\x0a"@),
        (Key::Enter, AlacModifiers::Alt) => Some("\x1b\x0d"@),
        (Key::Backspace, AlacModifiers::NoMods) => Some("\x7f"@),
        (Key::Tab, AlacModifiers::Shift) => Some("\x1b[Z"@),
        (Key::Backspace, AlacModifiers::Ctrl) => Some("\x08"@),
        (Key::Backspace, AlacModifiers::Alt) => Some("\x1b\x7f"@),
        (Key::Backspace, AlacModifiers::Shift) => Some("\x7f"@),
        (Key::Space, AlacModifiers::Ctrl) => Some("\x00"@),
        (Key::Home, AlacModifiers::Shift) => if mode.alt_screen {
            Some("\x1b[1;2H"@)
        } else {
            None
        },
        (Key::End, AlacModifiers::Shift) => if mode.alt_screen {
            Some("\x1b[1;2F"@)
        } else {
            None
        },
        (Key::PageUp, AlacModifiers::Shift) => if mode.alt_screen {
            Some("\x1b[5;2~"@)
        } else {
            None
        },
        (Key::PageDown, AlacModifiers::Shift) => if mode.alt_screen {
            Some("\x1b[6;2~"@)
        } else {
            None
        },
        (Key::Home, AlacModifiers::NoMods) => if mode.app_cursor {
            Some("\x1bOH"@)
        } else {
            Some("\x1b[H"@)
        },
        (Key::End, AlacModifiers::NoMods) => if mode.app_cursor {
            Some("\x1bOF"@)
        } else {
            Some("\x1b[F"@)
        },
        (Key::Up, AlacModifiers::NoMods) => if mode.app_cursor {
            Some("\x1bOA"@)
        } else {
            Some("\x1b[A"@)
        },
        (Key::Down, AlacModifiers::NoMods) => if mode.app_cursor {
            Some("\x1bOB"@)
        } else {
            Some("\x1b[B"@)
        },
        (Key::Right, AlacModifiers::NoMods) => if mode.app_cursor {
            Some("\x1bOC"@)
        } else {
            Some("\x1b[C"@)
        },
        (Key::Left, AlacModifiers::NoMods) => if mode.app_cursor {
            Some("\x1bOD"@)
        } else {
            Some("\x1b[D"@)
        },
        (Key::Insert, AlacModifiers::NoMods) => Some("\x1b[2~"@),
        (Key::Delete, AlacModifiers::NoMods) => Some("\x1b[3~"@),
        (Key::PageUp, AlacModifiers::NoMods) => Some("\x1b[5~"@),
        (Key::PageDown, AlacModifiers::NoMods) => Some("\x1b[6~"@),
        (Key::F1, AlacModifiers::NoMods) => Some("\x1bOP"@),
        (Key::F2, AlacModifiers::NoMods) => Some("\x1bOQ"@),
        (Key::F3, AlacModifiers::NoMods) => Some("\x1bOR"@),
        (Key::F4, AlacModifiers::NoMods) => Some("\x1bOS"@),
        (Key::F5, AlacModifiers::NoMods) => Some("\x1b[15~"@),
        (Key::F6, AlacModifiers::NoMods) => Some("\x1b[17~"@),
        (Key::F7, AlacModifiers::NoMods) => Some("\x1b[18~"@),
        (Key::F8, AlacModifiers::NoMods) => Some("\x1b[19~"@),
        (Key::F9, AlacModifiers::NoMods) => Some("\x1b[20~"@),
        (Key::F10, AlacModifiers::NoMods) => Some("\x1b[21~"@),
        (Key::F11, AlacModifiers::NoMods) => Some("\x1b[23~"@),
        (Key::F12, AlacModifiers::NoMods) => Some("\x1b[24~"@),
        (Key::Char(c), AlacModifiers::Ctrl) => manual_ctrl_char(c),
        (Key::Char(c), AlacModifiers::CtrlShift) => if 'A' <= c && c <= 'Z' {
            Some(seq![ctrl_upper_letter(c)])
        } else {
            None
        },
        _ => None,
    }
}

/// Control-key mappings for printable characters: the letters a-z map to
/// 0x01-0x1a, and a handful of symbols map to the remaining control bytes.
pub open spec fn manual_ctrl_char(c: char) -> Option<Seq<char>> {
    if 'a' <= c && c <= 'z' {
        Some(seq![ctrl_letter(c)])
    } else if c == '@' {
        Some(seq!['\x00'])
    } else if c == '[' {
        Some(seq!['\x1b'])
    } else if c == '\\' {
        Some(seq!['\x1c'])
    } else if c == ']' {
        Some(seq!['\x1d'])
    } else if c == '^' {
        Some(seq!['\x1e'])
    } else if c == '_' {
        Some(seq!['\x1f'])
    } else if c == '?' {
        Some(seq!['\x7f'])
    } else {
        None
    }
}

/// The parameterized escape-sequence templates, keyed by logical key and
/// carrying the numeric modifier code. A bare code of 2 (shift alone) on
/// the editing and navigation keys below the guard is suppressed, so that
/// shifted scrollback gestures are left to the caller.
pub open spec fn modified_esc(key: Key, code: u32) -> Option<Seq<char>> {
    match key {
        Key::Up => Some(csi_mod("\x1b[1;"@, code, "A"@)),
        Key::Down => Some(csi_mod("\x1b[1;"@, code, "B"@)),
        Key::Right => Some(csi_mod("\x1b[1;"@, code, "C"@)),
        Key::Left => Some(csi_mod("\x1b[1;"@, code, "D"@)),
        Key::F1 => Some(csi_mod("\x1b[1;"@, code, "P"@)),
        Key::F2 => Some(csi_mod("\x1b[1;"@, code, "Q"@)),
        Key::F3 => Some(csi_mod("\x1b[1;"@, code, "R"@)),
        Key::F4 => Some(csi_mod("\x1b[1;"@, code, "S"@)),
        Key::F5 => Some(csi_mod("\x1b[15;"@, code, "~"@)),
        Key::F6 => Some(csi_mod("\x1b[17;"@, code, "~"@)),
        Key::F7 => Some(csi_mod("\x1b[18;"@, code, "~"@)),
        Key::F8 => Some(csi_mod("\x1b[19;"@, code, "~"@)),
        Key::F9 => Some(csi_mod("\x1b[20;"@, code, "~"@)),
        Key::F10 => Some(csi_mod("\x1b[21;"@, code, "~"@)),
        Key::F11 => Some(csi_mod("\x1b[23;"@, code, "~"@)),
        Key::F12 => Some(csi_mod("\x1b[24;"@, code, "~"@)),
        _ => if code == 2 {
            None
        } else {
            match key {
                Key::Insert => Some(csi_mod("\x1b[2;"@, code, "~"@)),
                Key::PageUp => Some(csi_mod("\x1b[5;"@, code, "~"@)),
                Key::PageDown => Some(csi_mod("\x1b[6;"@, code, "~"@)),
                Key::End => Some(csi_mod("\x1b[1;"@, code, "F"@)),
                Key::Home => Some(csi_mod("\x1b[1;"@, code, "H"@)),
                _ => None,
            }
        },
    }
}

/// When the convention treats alt as meta, alt with a printable ASCII key
/// prefixes the character with the escape byte; with shift also held the
/// upper-case form is sent.
pub open spec fn meta_esc(ks: Keystroke, option_as_meta: bool) -> Option<Seq<char>> {
    if option_as_meta {
        match ks.key {
            Key::Char(c) => {
                let alt_upper = ks.modifiers.alt && ks.modifiers.shift;
                let alt_only = spec_class(ks.modifiers) == AlacModifiers::Alt;
                if is_ascii_char(c) && (alt_only || alt_upper) {
                    Some(seq!['\x1b', if alt_upper {
                        spec_to_upper(c)
                    } else {
                        c
                    }])
                } else {
                    None
                }
            },
            _ => None,
        }
    } else {
        None
    }
}

/// The complete encoding: the fixed table first; then, with a modifier
/// held, the parameterized templates; then the alt-as-meta prefix; and
/// `None` where the event carries nothing the subprocess should see.
pub open spec fn esc_spec(ks: Keystroke, mode: TermMode, option_as_meta: bool) -> Option<
    Seq<char>,
> {
    let class = spec_class(ks.modifiers);
    match manual_esc(ks.key, class, mode) {
        Some(s) => Some(s),
        None => {
            let modified = if class != AlacModifiers::NoMods {
                modified_esc(ks.key, spec_modifier_code(ks.modifiers))
            } else {
                None
            };
            match modified {
                Some(s) => Some(s),
                None => meta_esc(ks, option_as_meta),
            }
        },
    }
}

/// Build the parameterized sequence `prefix`, modifier digit, `suffix`.
fn csi_modified(prefix: &str, code: u32, suffix: &str) -> (r: String)
    requires
        1 <= code <= 8,
    ensures
        r@ == csi_mod(prefix@, code, suffix@),
{
    let mut s: String = prefix.to_owned();
    string_push(&mut s, ((0x30 + code) as u8) as char);
    s.append(suffix);
    proof {
        assert(s@ =~= csi_mod(prefix@, code, suffix@));
    }
    s
}

/// The fixed-table part of the encoding.
fn manual_lookup(key: Key, class: AlacModifiers, mode: &TermMode) -> (r: Option<String>)
    ensures
        match r {
            Some(s) => manual_esc(key, class, *mode) == Some(s@),
            None => manual_esc(key, class, *mode) is None,
        },
{
    match (key, class) {
        (Key::Tab, AlacModifiers::NoMods) => Some("\x09".to_owned()),
        (Key::Escape, AlacModifiers::NoMods) => Some("\x1b".to_owned()),
        (Key::Enter, AlacModifiers::NoMods) => Some("\x0d".to_owned()),
        (Key::Enter, AlacModifiers::Shift) => Some("\x0a".to_owned()),
        (Key::Enter, AlacModifiers::Alt) => Some("\x1b\x0d".to_owned()),
        (Key::Backspace, AlacModifiers::NoMods) => Some("\x7f".to_owned()),
        (Key::Tab, AlacModifiers::Shift) => Some("\x1b[Z".to_owned()),
        (Key::Backspace, AlacModifiers::Ctrl) => Some("\x08".to_owned()),
        (Key::Backspace, AlacModifiers::Alt) => Some("\x1b\x7f".to_owned()),
        (Key::Backspace, AlacModifiers::Shift) => Some("\x7f".to_owned()),
        (Key::Space, AlacModifiers::Ctrl) => Some("\x00".to_owned()),
        (Key::Home, AlacModifiers::Shift) => if mode.alt_screen {
            Some("\x1b[1;2H".to_owned())
        } else {
            None
        },
        (Key::End, AlacModifiers::Shift) => if mode.alt_screen {
            Some("\x1b[1;2F".to_owned())
        } else {
            None
        },
        (Key::PageUp, AlacModifiers::Shift) => if mode.alt_screen {
            Some("\x1b[5;2~".to_owned())
        } else {
            None
        },
        (Key::PageDown, AlacModifiers::Shift) => if mode.alt_screen {
            Some("\x1b[6;2~".to_owned())
        } else {
            None
        },
        (Key::Home, AlacModifiers::NoMods) => if mode.app_cursor {
            Some("\x1bOH".to_owned())
        } else {
            Some("\x1b[H".to_owned())
        },
        (Key::End, AlacModifiers::NoMods) => if mode.app_cursor {
            Some("\x1bOF".to_owned())
        } else {
            Some("\x1b[F".to_owned())
        },
        (Key::Up, AlacModifiers::NoMods) => if mode.app_cursor {
            Some("\x1bOA".to_owned())
        } else {
            Some("\x1b[A".to_owned())
        },
        (Key::Down, AlacModifiers::NoMods) => if mode.app_cursor {
            Some("\x1bOB".to_owned())
        } else {
            Some("\x1b[B".to_owned())
        },
        (Key::Right, AlacModifiers::NoMods) => if mode.app_cursor {
            Some("\x1bOC".to_owned())
        } else {
            Some("\x1b[C".to_owned())
        },
        (Key::Left, AlacModifiers::NoMods) => if mode.app_cursor {
            Some("\x1bOD".to_owned())
        } else {
            Some("\x1b[D".to_owned())
        },
        (Key::Insert, AlacModifiers::NoMods) => Some("\x1b[2~".to_owned()),
        (Key::Delete, AlacModifiers::NoMods) => Some("\x1b[3~".to_owned()),
        (Key::PageUp, AlacModifiers::NoMods) => Some("\x1b[5~".to_owned()),
        (Key::PageDown, AlacModifiers::NoMods) => Some("\x1b[6~".to_owned()),
        (Key::F1, AlacModifiers::NoMods) => Some("\x1bOP".to_owned()),
        (Key::F2, AlacModifiers::NoMods) => Some("\x1bOQ".to_owned()),
        (Key::F3, AlacModifiers::NoMods) => Some("\x1bOR".to_owned()),
        (Key::F4, AlacModifiers::NoMods) => Some("\x1bOS".to_owned()),
        (Key::F5, AlacModifiers::NoMods) => Some("\x1b[15~".to_owned()),
        (Key::F6, AlacModifiers::NoMods) => Some("\x1b[17~".to_owned()),
        (Key::F7, AlacModifiers::NoMods) => Some("\x1b[18~".to_owned()),
        (Key::F8, AlacModifiers::NoMods) => Some("\x1b[19~".to_owned()),
        (Key::F9, AlacModifiers::NoMods) => Some("\x1b[20~".to_owned()),
        (Key::F10, AlacModifiers::NoMods) => Some("\x1b[21~".to_owned()),
        (Key::F11, AlacModifiers::NoMods) => Some("\x1b[23~".to_owned()),
        (Key::F12, AlacModifiers::NoMods) => Some("\x1b[24~".to_owned()),
        (Key::Char(c), AlacModifiers::Ctrl) => ctrl_char_lookup(c),
        (Key::Char(c), AlacModifiers::CtrlShift) => if 'A' <= c && c <= 'Z' {
            Some(char_string(((c as u8) - 0x40) as char))
        } else {
            None
        },
        _ => None,
    }
}

/// The control-key encoding of one printable character.
fn ctrl_char_lookup(c: char) -> (r: Option<String>)
    ensures
        match r {
            Some(s) => manual_ctrl_char(c) == Some(s@),
            None => manual_ctrl_char(c) is None,
        },
{
    if 'a' <= c && c <= 'z' {
        Some(char_string(((c as u8) - 0x60) as char))
    } else if c == '@' {
        Some(char_string('\x00'))
    } else if c == '[' {
        Some(char_string('\x1b'))
    } else if c == '\\' {
        Some(char_string('\x1c'))
    } else if c == ']' {
        Some(char_string('\x1d'))
    } else if c == '^' {
        Some(char_string('\x1e'))
    } else if c == '_' {
        Some(char_string('\x1f'))
    } else if c == '?' {
        Some(char_string('\x7f'))
    } else {
        None
    }
}

/// The parameterized-template part of the encoding.
fn modified_lookup(key: Key, code: u32) -> (r: Option<String>)
    requires
        1 <= code <= 8,
    ensures
        match r {
            Some(s) => modified_esc(key, code) == Some(s@),
            None => modified_esc(key, code) is None,
        },
{
    match key {
        Key::Up => Some(csi_modified("\x1b[1;", code, "A")),
        Key::Down => Some(csi_modified("\x1b[1;", code, "B")),
        Key::Right => Some(csi_modified("\x1b[1;", code, "C")),
        Key::Left => Some(csi_modified("\x1b[1;", code, "D")),
        Key::F1 => Some(csi_modified("\x1b[1;", code, "P")),
        Key::F2 => Some(csi_modified("\x1b[1;", code, "Q")),
        Key::F3 => Some(csi_modified("\x1b[1;", code, "R")),
        Key::F4 => Some(csi_modified("\x1b[1;", code, "S")),
        Key::F5 => Some(csi_modified("\x1b[15;", code, "~")),
        Key::F6 => Some(csi_modified("\x1b[17;", code, "~")),
        Key::F7 => Some(csi_modified("\x1b[18;", code, "~")),
        Key::F8 => Some(csi_modified("\x1b[19;", code, "~")),
        Key::F9 => Some(csi_modified("\x1b[20;", code, "~")),
        Key::F10 => Some(csi_modified("\x1b[21;", code, "~")),
        Key::F11 => Some(csi_modified("\x1b[23;", code, "~")),
        Key::F12 => Some(csi_modified("\x1b[24;", code, "~")),
        _ => if code == 2 {
            None
        } else {
            match key {
                Key::Insert => Some(csi_modified("\x1b[2;", code, "~")),
                Key::PageUp => Some(csi_modified("\x1b[5;", code, "~")),
                Key::PageDown => Some(csi_modified("\x1b[6;", code, "~")),
                Key::End => Some(csi_modified("\x1b[1;", code, "F")),
                Key::Home => Some(csi_modified("\x1b[1;", code, "H")),
                _ => None,
            }
        },
    }
}

/// Convert a keystroke to the escape sequence to write to the subprocess.
///
/// Returns `None` when the keystroke should be handled by the caller
/// instead: either as literal text, or as a view gesture such as
/// scrollback paging.
pub fn to_esc_str(keystroke: &Keystroke, mode: &TermMode, option_as_meta: bool) -> (r: Option<
    String,
>)
    ensures
        match r {
            Some(s) => esc_spec(*keystroke, *mode, option_as_meta) == Some(s@),
            None => esc_spec(*keystroke, *mode, option_as_meta) is None,
        },
{
    let class = AlacModifiers::new(keystroke);

    if let Some(s) = manual_lookup(keystroke.key, class, mode) {
        return Some(s);
    }

    if class.any() {
        let code = modifier_code(keystroke);
        if let Some(s) = modified_lookup(keystroke.key, code) {
            return Some(s);
        }
    }

    if option_as_meta {
        if let Key::Char(c) = keystroke.key {
            let alt_upper = keystroke.modifiers.alt && keystroke.modifiers.shift;
            let alt_only = matches!(class, AlacModifiers::Alt);
            if (c as u32) < 128 && (alt_only || alt_upper) {
                let ch = if alt_upper {
                    to_upper(c)
                } else {
                    c
                };
                let mut s: String = "\x1b".to_owned();
                string_push(&mut s, ch);
                proof {
                    assert(s@ =~= seq!['\x1b', ch]) by {
                        reveal_strlit("\x1b");
                    }
                }
                return Some(s);
            }
        }
    }

    None
}

/// Control-A encodes as the single byte 0x01, whatever the terminal mode
/// and the meta convention.
pub proof fn lemma_ctrl_a_encoding(mode: TermMode, option_as_meta: bool, key_char: Option<String>)
    ensures
        esc_spec(
            Keystroke {
                key: Key::Char('a'),
                modifiers: Modifiers { control: true, alt: false, shift: false, platform: false },
                key_char,
            },
            mode,
            option_as_meta,
        ) == Some(seq!['\x01']),
{
    assert(ctrl_letter('a') == '\x01');
}

/// Shift-Tab encodes as the reverse-tab sequence, whatever the terminal
/// mode and the meta convention.
pub proof fn lemma_shift_tab_encoding(mode: TermMode, option_as_meta: bool, key_char: Option<String>)
    ensures
        esc_spec(
            Keystroke {
                key: Key::Tab,
                modifiers: Modifiers { control: false, alt: false, shift: true, platform: false },
                key_char,
            },
            mode,
            option_as_meta,
        ) == Some("\x1b[Z"@),
{
}

/// The unmodified Up arrow is mode-sensitive: application cursor mode
/// selects a different sequence than normal mode, for the same key event.
pub proof fn lemma_up_arrow_mode_sensitive(
    mode_off: TermMode,
    mode_on: TermMode,
    option_as_meta: bool,
    key_char: Option<String>,
)
    requires
        !mode_off.app_cursor,
        mode_on.app_cursor,
    ensures
        ({
            let ks = Keystroke {
                key: Key::Up,
                modifiers: Modifiers { control: false, alt: false, shift: false, platform: false },
                key_char,
            };
            &&& esc_spec(ks, mode_off, option_as_meta) == Some("\x1b[A"@)
            &&& esc_spec(ks, mode_on, option_as_meta) == Some("\x1bOA"@)
            &&& esc_spec(ks, mode_off, option_as_meta) != esc_spec(ks, mode_on, option_as_meta)
        }),
{
    reveal_strlit("\x1b[A");
    reveal_strlit("\x1bOA");
    assert("\x1b[A"@[1] != "\x1bOA"@[1]);
}

} // verus!
