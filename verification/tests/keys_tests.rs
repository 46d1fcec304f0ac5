use manifest::keys::{modifier_code, to_esc_str, AlacModifiers, Key, Keystroke, Modifiers, TermMode};

fn ks(key: Key, modifiers: Modifiers) -> Keystroke {
    Keystroke { key, modifiers, key_char: None }
}

fn mods(control: bool, alt: bool, shift: bool, platform: bool) -> Modifiers {
    Modifiers { control, alt, shift, platform }
}

#[test]
fn ctrl_a_yields_byte_0x01() {
    let e = ks(Key::Char('a'), mods(true, false, false, false));
    let r = to_esc_str(&e, &TermMode::empty(), false).unwrap();
    assert_eq!(r.as_bytes(), &[0x01]);
    // The same result under any mode flags.
    let m = TermMode { app_cursor: true, alt_screen: true, show_cursor: true };
    let r2 = to_esc_str(&e, &m, true).unwrap();
    assert_eq!(r2.as_bytes(), &[0x01]);
}

#[test]
fn ctrl_shift_a_yields_byte_0x01() {
    let e = ks(Key::Char('A'), mods(true, false, true, false));
    let r = to_esc_str(&e, &TermMode::empty(), false).unwrap();
    assert_eq!(r.as_bytes(), &[0x01]);
}

#[test]
fn ctrl_z_yields_byte_0x1a() {
    let e = ks(Key::Char('z'), mods(true, false, false, false));
    let r = to_esc_str(&e, &TermMode::empty(), false).unwrap();
    assert_eq!(r.as_bytes(), &[0x1a]);
}

#[test]
fn shift_tab_yields_reverse_tab() {
    let e = ks(Key::Tab, mods(false, false, true, false));
    let r = to_esc_str(&e, &TermMode::empty(), false).unwrap();
    assert_eq!(r, "\x1b[Z");
    let m = TermMode { app_cursor: true, alt_screen: true, show_cursor: false };
    assert_eq!(to_esc_str(&e, &m, true).unwrap(), "\x1b[Z");
}

#[test]
fn up_arrow_is_mode_sensitive() {
    let e = ks(Key::Up, mods(false, false, false, false));
    let off = TermMode::empty();
    let on = TermMode { app_cursor: true, alt_screen: false, show_cursor: false };
    let r_off = to_esc_str(&e, &off, false).unwrap();
    let r_on = to_esc_str(&e, &on, false).unwrap();
    assert_eq!(r_off, "\x1b[A");
    assert_eq!(r_on, "\x1bOA");
    assert_ne!(r_off, r_on);
}

#[test]
fn home_end_follow_app_cursor_mode() {
    let home = ks(Key::Home, mods(false, false, false, false));
    let on = TermMode { app_cursor: true, alt_screen: false, show_cursor: false };
    assert_eq!(to_esc_str(&home, &TermMode::empty(), false).unwrap(), "\x1b[H");
    assert_eq!(to_esc_str(&home, &on, false).unwrap(), "\x1bOH");
}

#[test]
fn modified_arrow_carries_modifier_code() {
    let e = ks(Key::Up, mods(true, false, false, false));
    assert_eq!(to_esc_str(&e, &TermMode::empty(), false).unwrap(), "\x1b[1;5A");
    let e2 = ks(Key::Up, mods(true, true, true, false));
    assert_eq!(to_esc_str(&e2, &TermMode::empty(), false).unwrap(), "\x1b[1;8A");
}

#[test]
fn function_keys_encode() {
    let f5 = ks(Key::F5, mods(false, false, false, false));
    assert_eq!(to_esc_str(&f5, &TermMode::empty(), false).unwrap(), "\x1b[15~");
    let f1 = ks(Key::F1, mods(false, false, false, false));
    assert_eq!(to_esc_str(&f1, &TermMode::empty(), false).unwrap(), "\x1bOP");
    let shift_f5 = ks(Key::F5, mods(false, false, true, false));
    assert_eq!(to_esc_str(&shift_f5, &TermMode::empty(), false).unwrap(), "\x1b[15;2~");
}

#[test]
fn shifted_paging_is_left_to_the_view_outside_alt_screen() {
    let e = ks(Key::PageUp, mods(false, false, true, false));
    assert!(to_esc_str(&e, &TermMode::empty(), false).is_none());
    let alt = TermMode { app_cursor: false, alt_screen: true, show_cursor: false };
    assert_eq!(to_esc_str(&e, &alt, false).unwrap(), "\x1b[5;2~");
}

#[test]
fn shifted_home_in_alt_screen_encodes() {
    let e = ks(Key::Home, mods(false, false, true, false));
    let alt = TermMode { app_cursor: false, alt_screen: true, show_cursor: false };
    assert_eq!(to_esc_str(&e, &alt, false).unwrap(), "\x1b[1;2H");
    assert!(to_esc_str(&e, &TermMode::empty(), false).is_none());
}

#[test]
fn alt_as_meta_prefixes_escape() {
    let e = ks(Key::Char('b'), mods(false, true, false, false));
    assert_eq!(to_esc_str(&e, &TermMode::empty(), true).unwrap(), "\x1bb");
    assert!(to_esc_str(&e, &TermMode::empty(), false).is_none());
    let upper = ks(Key::Char('b'), mods(false, true, true, false));
    assert_eq!(to_esc_str(&upper, &TermMode::empty(), true).unwrap(), "\x1bB");
}

#[test]
fn plain_typing_is_not_encoded() {
    let e = ks(Key::Char('x'), mods(false, false, false, false));
    assert!(to_esc_str(&e, &TermMode::empty(), false).is_none());
}

#[test]
fn modifier_code_follows_xterm_convention() {
    assert_eq!(modifier_code(&ks(Key::Up, mods(false, false, true, false))), 2);
    assert_eq!(modifier_code(&ks(Key::Up, mods(false, true, false, false))), 3);
    assert_eq!(modifier_code(&ks(Key::Up, mods(true, false, false, false))), 5);
    assert_eq!(modifier_code(&ks(Key::Up, mods(true, true, true, false))), 8);
}

#[test]
fn modifier_classes() {
    assert!(!AlacModifiers::new(&ks(Key::Tab, mods(false, false, false, false))).any());
    assert!(AlacModifiers::new(&ks(Key::Tab, mods(false, false, false, true))).any());
    let m = Modifiers { control: false, alt: false, shift: false, platform: true };
    assert!(m.any());
}

#[test]
fn ctrl_symbols_encode_control_bytes() {
    let at = ks(Key::Char('@'), mods(true, false, false, false));
    assert_eq!(to_esc_str(&at, &TermMode::empty(), false).unwrap().as_bytes(), &[0x00]);
    let q = ks(Key::Char('?'), mods(true, false, false, false));
    assert_eq!(to_esc_str(&q, &TermMode::empty(), false).unwrap().as_bytes(), &[0x7f]);
    let bracket = ks(Key::Char('['), mods(true, false, false, false));
    assert_eq!(to_esc_str(&bracket, &TermMode::empty(), false).unwrap().as_bytes(), &[0x1b]);
}

#[test]
fn enter_variants() {
    assert_eq!(
        to_esc_str(&ks(Key::Enter, mods(false, false, false, false)), &TermMode::empty(), false)
            .unwrap(),
        "\x0d"
    );
    assert_eq!(
        to_esc_str(&ks(Key::Enter, mods(false, false, true, false)), &TermMode::empty(), false)
            .unwrap(),
        "\x0a"
    );
    assert_eq!(
        to_esc_str(&ks(Key::Enter, mods(false, true, false, false)), &TermMode::empty(), false)
            .unwrap(),
        "\x1b\x0d"
    );
}
