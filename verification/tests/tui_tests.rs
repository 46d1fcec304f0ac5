use manifest::tui::{
    build_spawn_command, escape_prompt, is_valid_name, parse_pane_info, split_pane_args, App,
    SessionSet,
};

#[test]
fn new_app_has_the_fixed_items() {
    let app = App::new();
    assert_eq!(app.items.len(), 4);
    assert_eq!(app.items[0].label, "Test: Get project context");
    assert_eq!(app.items[3].label, "Hello world");
    assert_eq!(app.items[3].prompt, "Hello from Manifest TUI!");
    assert_eq!(app.selected, 0);
    assert!(!app.should_quit);
    assert!(app.spawned_panes.is_empty());
}

#[test]
fn selection_stays_in_bounds() {
    let mut app = App::new();
    app.select_previous();
    assert_eq!(app.selected, 0);
    app.select_next();
    app.select_next();
    app.select_next();
    app.select_next();
    assert_eq!(app.selected, 3);
    app.select_previous();
    assert_eq!(app.selected, 2);
}

#[test]
fn spawn_outcomes_update_state() {
    let mut app = App::new();
    let displaced = app.spawn_selected(Ok("%5".to_string()));
    assert!(displaced.is_empty());
    assert_eq!(app.spawned_panes, vec!["%5".to_string()]);
    assert_eq!(app.last_spawn.as_deref(), Some("Test: Get project context"));
    assert!(app.last_error.is_none());
    let displaced = app.spawn_selected(Err("not running in a multiplexer".to_string()));
    assert_eq!(displaced, vec!["%5".to_string()]);
    assert_eq!(app.last_error.as_deref(), Some("not running in a multiplexer"));
    assert!(app.last_spawn.is_none());
    assert!(app.spawned_panes.is_empty());
}

#[test]
fn spawning_is_single_pane() {
    // Only one pane at a time: a second successful spawn displaces the
    // first pane, handing it back to be killed.
    let mut app = App::new();
    app.spawn_selected(Ok("%1".to_string()));
    let displaced = app.spawn_selected(Ok("%2".to_string()));
    assert_eq!(displaced, vec!["%1".to_string()]);
    assert_eq!(app.spawned_panes, vec!["%2".to_string()]);
}

#[test]
fn quit_hands_back_panes_to_kill() {
    let mut app = App::new();
    app.spawn_selected(Ok("%1".to_string()));
    let panes = app.quit();
    assert_eq!(panes, vec!["%1".to_string()]);
    assert!(app.should_quit);
    assert!(app.spawned_panes.is_empty());
}

#[test]
fn kill_spawned_panes_empties_the_list() {
    let mut app = App::new();
    app.spawn_selected(Ok("%1".to_string()));
    let panes = app.kill_spawned_panes();
    assert_eq!(panes, vec!["%1".to_string()]);
    assert!(app.kill_spawned_panes().is_empty());
}

#[test]
fn selected_prompt_follows_the_selection() {
    let mut app = App::new();
    app.select_next();
    let p = app.selected_prompt().unwrap();
    assert_eq!(p, app.items[1].prompt);
}

#[test]
fn name_validation_rejects_shell_metacharacters() {
    assert!(is_valid_name("work_1-a"));
    assert!(is_valid_name("ABC"));
    assert!(!is_valid_name(""));
    assert!(!is_valid_name("a b"));
    assert!(!is_valid_name("x;rm"));
    assert!(!is_valid_name("a$b"));
}

#[test]
fn prompt_escaping_guards_quotes_and_backslashes() {
    assert_eq!(escape_prompt(r#"say "hi" \ bye"#), r#"say \"hi\" \\ bye"#);
    assert_eq!(escape_prompt("plain"), "plain");
}

#[test]
fn spawn_command_wraps_the_prompt_in_quotes() {
    let cmd = build_spawn_command("/usr/local/bin/agent", "do \\\"it\\\"");
    assert_eq!(cmd, "/usr/local/bin/agent \"do \\\"it\\\"\"");
}

#[test]
fn split_pane_args_assemble_in_order() {
    let args = split_pane_args(true, 75, Some("agent \"hi\""), true);
    assert_eq!(
        args,
        vec![
            "split-window".to_string(),
            "-h".to_string(),
            "-p".to_string(),
            "75".to_string(),
            "-P".to_string(),
            "-F".to_string(),
            "#{pane_id}".to_string(),
            "-d".to_string(),
            "agent \"hi\"".to_string(),
        ]
    );
    let vertical = split_pane_args(false, 5, None, false);
    assert_eq!(vertical[1], "-v");
    assert_eq!(vertical[3], "5");
    assert_eq!(vertical.len(), 7);
    let wide = split_pane_args(true, 100, None, false);
    assert_eq!(wide[3], "100");
}

#[test]
fn pane_info_parses_all_four_fields() {
    let info = parse_pane_info("%5:1234:zsh:/home/user/project\n");
    assert_eq!(info.id, "%5");
    assert_eq!(info.pid, Some(1234));
    assert_eq!(info.command.as_deref(), Some("zsh"));
    assert_eq!(info.working_dir.as_deref(), Some("/home/user/project"));
}

#[test]
fn pane_info_tolerates_missing_fields() {
    let info = parse_pane_info("%7");
    assert_eq!(info.id, "%7");
    assert_eq!(info.pid, None);
    assert!(info.command.is_none());
    assert!(info.working_dir.is_none());

    let partial = parse_pane_info("%7:notanumber:zsh");
    assert_eq!(partial.id, "%7");
    assert_eq!(partial.pid, None);
    assert_eq!(partial.command.as_deref(), Some("zsh"));
    assert!(partial.working_dir.is_none());
}

#[test]
fn pane_info_keeps_colons_in_the_last_field() {
    let info = parse_pane_info("%1:42:sh:/tmp/a:b:c");
    assert_eq!(info.working_dir.as_deref(), Some("/tmp/a:b:c"));
}

#[test]
fn session_set_membership() {
    let set = SessionSet::from_names(vec!["main".to_string(), "agent-1".to_string()]);
    assert!(set.contains("main"));
    assert!(set.contains("agent-1"));
    assert!(!set.contains("other"));
    assert!(!set.contains(""));
}
