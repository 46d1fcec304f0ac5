//! State of the terminal UI for spawning agent sessions in multiplexer
//! panes, and the pure parts of the multiplexer integration: name
//! validation, command-line assembly and pane-information parsing. The
//! subprocess calls themselves live with the hosting binary, which feeds
//! their outcomes back into this state.

use vstd::prelude::*;
use vstd::string::StrSliceExecFns;
use vstd::string::StringExecFns;

use crate::strutil::{char_string, str_eq, string_push};

verus! {

/// A selectable item: a label shown in the list and the prompt spawned
/// when it is chosen.
pub struct Item {
    pub label: String,
    pub prompt: String,
}

/// Application state.
pub struct App {
    pub items: Vec<Item>,
    pub selected: usize,
    pub should_quit: bool,
    pub last_error: Option<String>,
    pub last_spawn: Option<String>,
    /// Pane IDs of spawned agent instances.
    pub spawned_panes: Vec<String>,
}

impl App {
    pub fn new() -> (r: Self)
        ensures
            r.items@.len() == 4,
            r.items@[0].label@ == "Test: Get project context"@,
            r.items@[0].prompt@
                == "Use the manifest MCP server to call get_project_context for the current directory. Show me what project this is and any instructions."@,
            r.items@[1].label@ == "Test: List features"@,
            r.items@[1].prompt@
                == "Use the manifest MCP server to call list_features. Show me what features exist in this project."@,
            r.items@[2].label@ == "Test: Create feature"@,
            r.items@[2].prompt@
                == "Use the manifest MCP server to: 1) call get_project_context to get the project_id, 2) create a test feature titled 'TUI Hello World' with details 'Test feature created from manifest-tui'. Show me the result."@,
            r.items@[3].label@ == "Hello world"@,
            r.items@[3].prompt@ == "Hello from Manifest TUI!"@,
            r.selected == 0,
            !r.should_quit,
            r.last_error is None,
            r.last_spawn is None,
            r.spawned_panes@.len() == 0,
    {
        let mut items: Vec<Item> = Vec::new();
        items.push(
            Item {
                label: "Test: Get project context".to_owned(),
                prompt:
                    "Use the manifest MCP server to call get_project_context for the current directory. Show me what project this is and any instructions.".to_owned(),
            },
        );
        items.push(
            Item {
                label: "Test: List features".to_owned(),
                prompt:
                    "Use the manifest MCP server to call list_features. Show me what features exist in this project.".to_owned(),
            },
        );
        items.push(
            Item {
                label: "Test: Create feature".to_owned(),
                prompt:
                    "Use the manifest MCP server to: 1) call get_project_context to get the project_id, 2) create a test feature titled 'TUI Hello World' with details 'Test feature created from manifest-tui'. Show me the result.".to_owned(),
            },
        );
        items.push(
            Item { label: "Hello world".to_owned(), prompt: "Hello from Manifest TUI!".to_owned() },
        );
        App {
            items,
            selected: 0,
            should_quit: false,
            last_error: None,
            last_spawn: None,
            spawned_panes: Vec::new(),
        }
    }

    /// The prompt of the selected item, for the caller to spawn.
    pub fn selected_prompt(&self) -> (r: Option<String>)
        ensures
            match r {
                Some(p) => self.selected < self.items@.len() && p@
                    == self.items@[self.selected as int].prompt@,
                None => self.selected >= self.items@.len(),
            },
    {
        if self.selected < self.items.len() {
            Some(self.items[self.selected].prompt.clone())
        } else {
            None
        }
    }

    /// Record the outcome of spawning the selected item, in single-spawn
    /// mode: only one pane at a time, so every previously recorded pane
    /// is handed back for the caller to kill. On success exactly the new
    /// pane is recorded and the selection's label shown; on failure
    /// nothing stays recorded and the error is shown instead. Without a
    /// selected item only the displacement happens.
    pub fn spawn_selected(&mut self, spawn_result: Result<String, String>) -> (displaced: Vec<
        String,
    >)
        ensures
            displaced == old(self).spawned_panes,
            old(self).selected < old(self).items@.len() ==> match spawn_result {
                Ok(pane_id) => {
                    &&& final(self).spawned_panes@ == seq![pane_id]
                    &&& final(self).last_error is None
                    &&& final(self).last_spawn matches Some(l) && l@ == old(self).items@[old(
                        self,
                    ).selected as int].label@
                },
                Err(e) => {
                    &&& final(self).spawned_panes@.len() == 0
                    &&& final(self).last_error == Some(e)
                    &&& final(self).last_spawn is None
                },
            },
            old(self).selected >= old(self).items@.len() ==> {
                &&& final(self).spawned_panes@.len() == 0
                &&& final(self).last_error == old(self).last_error
                &&& final(self).last_spawn == old(self).last_spawn
            },
            final(self).spawned_panes@.len() <= 1,
            final(self).items == old(self).items,
            final(self).selected == old(self).selected,
            final(self).should_quit == old(self).should_quit,
    {
        let displaced = self.kill_spawned_panes();
        if self.selected < self.items.len() {
            let label = self.items[self.selected].label.clone();
            match spawn_result {
                Ok(pane_id) => {
                    self.spawned_panes.push(pane_id);
                    self.last_error = None;
                    self.last_spawn = Some(label);
                    proof {
                        assert(self.spawned_panes@ =~= seq![self.spawned_panes@[0]]);
                    }
                },
                Err(e) => {
                    self.last_error = Some(e);
                    self.last_spawn = None;
                },
            }
        }
        displaced
    }

    /// Forget all spawned panes, handing their IDs to the caller, which
    /// kills them.
    pub fn kill_spawned_panes(&mut self) -> (panes: Vec<String>)
        ensures
            panes == old(self).spawned_panes,
            final(self).spawned_panes@.len() == 0,
            final(self).items == old(self).items,
            final(self).selected == old(self).selected,
            final(self).should_quit == old(self).should_quit,
            final(self).last_error == old(self).last_error,
            final(self).last_spawn == old(self).last_spawn,
    {
        let mut panes: Vec<String> = Vec::new();
        core::mem::swap(&mut panes, &mut self.spawned_panes);
        panes
    }

    /// Move selection up.
    pub fn select_previous(&mut self)
        ensures
            final(self).selected == if old(self).selected > 0 {
                old(self).selected - 1
            } else {
                0int
            },
            final(self).items == old(self).items,
            final(self).should_quit == old(self).should_quit,
            final(self).last_error == old(self).last_error,
            final(self).last_spawn == old(self).last_spawn,
            final(self).spawned_panes == old(self).spawned_panes,
    {
        if self.selected > 0 {
            self.selected = self.selected - 1;
        }
    }

    /// Move selection down, staying within the list.
    pub fn select_next(&mut self)
        ensures
            final(self).selected == if old(self).selected + 1 < old(self).items@.len() {
                old(self).selected + 1
            } else {
                old(self).selected as int
            },
            final(self).items == old(self).items,
            final(self).should_quit == old(self).should_quit,
            final(self).last_error == old(self).last_error,
            final(self).last_spawn == old(self).last_spawn,
            final(self).spawned_panes == old(self).spawned_panes,
    {
        let len = self.items.len();
        if len > 0 && self.selected < len - 1 {
            self.selected = self.selected + 1;
        }
    }

    /// Quit: the caller kills the returned panes, and the main loop ends.
    pub fn quit(&mut self) -> (panes: Vec<String>)
        ensures
            panes == old(self).spawned_panes,
            final(self).spawned_panes@.len() == 0,
            final(self).should_quit,
            final(self).items == old(self).items,
            final(self).selected == old(self).selected,
            final(self).last_error == old(self).last_error,
            final(self).last_spawn == old(self).last_spawn,
    {
        let panes = self.kill_spawned_panes();
        self.should_quit = true;
        panes
    }
}

/// A character allowed in a session or pane name: ASCII alphanumeric,
/// underscore or hyphen, so a name can never carry shell metacharacters.
pub open spec fn valid_name_char(c: char) -> bool {
    ('a' <= c && c <= 'z') || ('A' <= c && c <= 'Z') || ('0' <= c && c <= '9') || c == '_' || c
        == '-'
}

/// Validates session and pane names: nonempty, and every character
/// alphanumeric, underscore or hyphen.
pub fn is_valid_name(name: &str) -> (r: bool)
    ensures
        r == (name@.len() > 0 && (forall|i: int| 0 <= i < name@.len() ==> valid_name_char(name@[i]))),
{
    let n: usize = name.unicode_len();
    if n == 0 {
        return false;
    }
    let mut i: usize = 0;
    while i < n
        invariant
            0 <= i <= n,
            n == name@.len(),
            forall|j: int| 0 <= j < i ==> valid_name_char(name@[j]),
        decreases n - i,
    {
        let c = name.get_char(i);
        let ok = ('a' <= c && c <= 'z') || ('A' <= c && c <= 'Z') || ('0' <= c && c <= '9') || c
            == '_' || c == '-';
        if !ok {
            return false;
        }
        i += 1;
    }
    true
}

/// The shell escaping of one prompt character: backslashes and double
/// quotes get a backslash prefix.
pub open spec fn esc_char(c: char) -> Seq<char> {
    if c == '\\' {
        seq!['\\', '\\']
    } else if c == '"' {
        seq!['\\', '"']
    } else {
        seq![c]
    }
}

/// The escaping of the first `n` characters of a prompt.
pub open spec fn escaped_prefix(s: Seq<char>, n: int) -> Seq<char>
    decreases n,
{
    if n <= 0 {
        Seq::empty()
    } else {
        escaped_prefix(s, n - 1) + esc_char(s[n - 1])
    }
}

/// Escape a prompt for interpolation between double quotes in a shell
/// command: backslashes and double quotes are prefixed with a backslash.
pub fn escape_prompt(prompt: &str) -> (r: String)
    ensures
        r@ == escaped_prefix(prompt@, prompt@.len() as int),
{
    let n: usize = prompt.unicode_len();
    let mut out = String::new();
    let mut i: usize = 0;
    while i < n
        invariant
            0 <= i <= n,
            n == prompt@.len(),
            out@ == escaped_prefix(prompt@, i as int),
        decreases n - i,
    {
        let c = prompt.get_char(i);
        if c == '\\' {
            string_push(&mut out, '\\');
            string_push(&mut out, '\\');
        } else if c == '"' {
            string_push(&mut out, '\\');
            string_push(&mut out, '"');
        } else {
            string_push(&mut out, c);
        }
        proof {
            assert(out@ =~= escaped_prefix(prompt@, i + 1));
        }
        i += 1;
    }
    out
}

/// The full command line that runs the agent binary on a prompt: the
/// binary's path, a space, and the escaped prompt in double quotes.
pub fn build_spawn_command(program_path: &str, escaped_prompt: &str) -> (r: String)
    ensures
        r@ == program_path@ + " \""@ + escaped_prompt@ + "\""@,
{
    let mut out: String = program_path.to_owned();
    out.append(" \"");
    out.append(escaped_prompt);
    out.append("\"");
    out
}

/// Cached set of active multiplexer sessions, fetched once by the caller
/// so that membership lookups need no further subprocess calls.
pub struct SessionSet {
    pub sessions: Vec<String>,
}

impl SessionSet {
    /// Build the cache from the session names one listing produced.
    pub fn from_names(sessions: Vec<String>) -> (r: Self)
        ensures
            r.sessions == sessions,
    {
        SessionSet { sessions }
    }

    /// Check if a session exists.
    pub fn contains(&self, name: &str) -> (r: bool)
        ensures
            r == exists|i: int| 0 <= i < self.sessions@.len() && self.sessions@[i]@ == name@,
    {
        let n: usize = self.sessions.len();
        let mut i: usize = 0;
        while i < n
            invariant
                0 <= i <= n,
                n == self.sessions@.len(),
                forall|j: int| 0 <= j < i ==> self.sessions@[j]@ != name@,
            decreases n - i,
        {
            if str_eq(self.sessions[i].as_str(), name) {
                return true;
            }
            i += 1;
        }
        false
    }
}

/// Information about a multiplexer pane.
#[derive(Debug, Clone)]
pub struct PaneInfo {
    pub id: String,
    pub pid: Option<u32>,
    pub command: Option<String>,
    pub working_dir: Option<String>,
}

/// The first position at or after `i` holding `c`.
pub open spec fn find_char_from(s: Seq<char>, c: char, i: int) -> Option<int>
    decreases s.len() - i,
{
    if i < 0 || i >= s.len() {
        None
    } else if s[i] == c {
        Some(i)
    } else {
        find_char_from(s, c, i + 1)
    }
}

pub proof fn lemma_find_char_props(s: Seq<char>, c: char, i: int)
    requires
        0 <= i,
    ensures
        match find_char_from(s, c, i) {
            Some(p) => i <= p < s.len() && s[p] == c,
            None => true,
        },
    decreases s.len() - i,
{
    if 0 <= i < s.len() && s[i] != c {
        lemma_find_char_props(s, c, i + 1);
    }
}

fn find_char_exec(v: &Vec<char>, c: char, start: usize) -> (r: Option<usize>)
    requires
        start <= v@.len(),
    ensures
        match r {
            Some(p) => find_char_from(v@, c, start as int) == Some(p as int) && start <= p
                < v@.len(),
            None => find_char_from(v@, c, start as int) is None,
        },
{
    let n: usize = v.len();
    let mut i: usize = start;
    loop
        invariant
            start <= i <= n,
            n == v@.len(),
            find_char_from(v@, c, start as int) == find_char_from(v@, c, i as int),
        decreases n - i,
    {
        if i >= n {
            return None;
        }
        if v[i] == c {
            return Some(i);
        }
        i += 1;
    }
}

fn slice_string(v: &Vec<char>, a: usize, b: usize) -> (r: String)
    requires
        a <= b <= v@.len(),
    ensures
        r@ == v@.subrange(a as int, b as int),
{
    let mut s = String::new();
    let mut i: usize = a;
    while i < b
        invariant
            a <= i <= b <= v@.len(),
            s@ == v@.subrange(a as int, i as int),
        decreases b - i,
    {
        string_push(&mut s, v[i]);
        proof {
            assert(s@ =~= v@.subrange(a as int, i + 1));
        }
        i += 1;
    }
    s
}

/// The fields a pane-information line denotes, after trimming: the text
/// up to the first colon is the pane ID; the next colon-separated part,
/// when present, is the process ID when it is a numeral; the next is the
/// running command; everything after the third colon is the working
/// directory.
pub open spec fn pane_info_fields(t: Seq<char>) -> (Seq<char>, Option<u32>, Option<Seq<char>>, Option<
    Seq<char>,
>) {
    match find_char_from(t, ':', 0) {
        None => (t, None, None, None),
        Some(p1) => {
            let id = t.subrange(0, p1);
            match find_char_from(t, ':', p1 + 1) {
                None => (id, crate::strutil::spec_parse_u32(t.subrange(p1 + 1, t.len() as int)), None, None),
                Some(p2) => {
                    let pid = crate::strutil::spec_parse_u32(t.subrange(p1 + 1, p2));
                    match find_char_from(t, ':', p2 + 1) {
                        None => (id, pid, Some(t.subrange(p2 + 1, t.len() as int)), None),
                        Some(p3) => (
                            id,
                            pid,
                            Some(t.subrange(p2 + 1, p3)),
                            Some(t.subrange(p3 + 1, t.len() as int)),
                        ),
                    }
                },
            }
        },
    }
}

/// Parse one pane-information line, as the multiplexer prints it:
/// `id:pid:command:working_dir`, at most four parts, the last keeping any
/// further colons.
pub fn parse_pane_info(line: &str) -> (r: PaneInfo)
    ensures
        ({
            let t = crate::strutil::spec_trim_ws(line@);
            let fields = pane_info_fields(t);
            &&& r.id@ == fields.0
            &&& r.pid == fields.1
            &&& match r.command {
                Some(c) => fields.2 == Some(c@),
                None => fields.2 is None,
            }
            &&& match r.working_dir {
                Some(w) => fields.3 == Some(w@),
                None => fields.3 is None,
            }
        }),
{
    let trimmed = crate::strutil::trim_ws(line);
    let v = crate::strutil::str_to_chars(trimmed.as_str());
    proof {
        lemma_find_char_props(v@, ':', 0);
    }
    let p1 = match find_char_exec(&v, ':', 0) {
        None => {
            proof {
                assert(trimmed@ =~= v@.subrange(0, v@.len() as int));
            }
            return PaneInfo { id: trimmed, pid: None, command: None, working_dir: None };
        },
        Some(p1) => p1,
    };
    let id = slice_string(&v, 0, p1);
    proof {
        lemma_find_char_props(v@, ':', p1 + 1);
    }
    let p2 = match find_char_exec(&v, ':', p1 + 1) {
        None => {
            let rest = slice_string(&v, p1 + 1, v.len());
            let pid = crate::strutil::parse_u32(rest.as_str());
            return PaneInfo { id, pid, command: None, working_dir: None };
        },
        Some(p2) => p2,
    };
    let pid_part = slice_string(&v, p1 + 1, p2);
    let pid = crate::strutil::parse_u32(pid_part.as_str());
    proof {
        lemma_find_char_props(v@, ':', p2 + 1);
    }
    let p3 = match find_char_exec(&v, ':', p2 + 1) {
        None => {
            let command = slice_string(&v, p2 + 1, v.len());
            return PaneInfo { id, pid, command: Some(command), working_dir: None };
        },
        Some(p3) => p3,
    };
    let command = slice_string(&v, p2 + 1, p3);
    let working_dir = slice_string(&v, p3 + 1, v.len());
    PaneInfo { id, pid, command: Some(command), working_dir: Some(working_dir) }
}

/// The ASCII digit character of a value below ten.
pub open spec fn digit_char(d: int) -> char {
    ((0x30 + d) as u8) as char
}

/// The decimal numeral of a nonnegative value, most significant digit
/// first.
pub open spec fn dec_digits(n: int) -> Seq<char>
    decreases n,
{
    if n < 10 {
        seq![digit_char(n)]
    } else {
        dec_digits(n / 10).push(digit_char(n % 10))
    }
}

/// Format a small value as a decimal numeral.
pub fn u8_to_string(n: u8) -> (r: String)
    ensures
        r@ == dec_digits(n as int),
{
    if n < 10 {
        let r = char_string(((0x30 + (n as u32)) as u8) as char);
        r
    } else if n < 100 {
        let mut r = char_string(((0x30 + (n as u32) / 10) as u8) as char);
        string_push(&mut r, ((0x30 + (n as u32) % 10) as u8) as char);
        proof {
            assert(dec_digits(n as int / 10) == seq![digit_char(n as int / 10)]);
            assert(r@ =~= dec_digits(n as int));
        }
        r
    } else {
        let mut r = char_string(((0x30 + (n as u32) / 100) as u8) as char);
        string_push(&mut r, ((0x30 + ((n as u32) / 10) % 10) as u8) as char);
        string_push(&mut r, ((0x30 + (n as u32) % 10) as u8) as char);
        proof {
            assert(dec_digits(n as int) == dec_digits(n as int / 10).push(digit_char(n as int % 10)));
            assert(dec_digits(n as int / 10) == dec_digits(n as int / 100).push(
                digit_char((n as int / 10) % 10),
            ));
            assert(dec_digits(n as int / 100) == seq![digit_char(n as int / 100)]);
            assert(r@ =~= dec_digits(n as int));
        }
        r
    }
}

/// The argument list that splits the current pane: direction, size as a
/// percentage, printing the new pane's ID, optionally staying in the
/// current pane, and optionally an initial command.
pub open spec fn split_pane_args_spec(
    horizontal: bool,
    percent: u8,
    command: Option<Seq<char>>,
    stay_in_current: bool,
) -> Seq<Seq<char>> {
    let base = seq![
        "split-window"@,
        if horizontal {
            "-h"@
        } else {
            "-v"@
        },
        "-p"@,
        dec_digits(percent as int),
        "-P"@,
        "-F"@,
        "#{pane_id}"@,
    ];
    let with_stay = if stay_in_current {
        base.push("-d"@)
    } else {
        base
    };
    match command {
        Some(c) => with_stay.push(c),
        None => with_stay,
    }
}

/// Assemble the argument list for splitting the current pane.
pub fn split_pane_args(
    horizontal: bool,
    percent: u8,
    command: Option<&str>,
    stay_in_current: bool,
) -> (r: Vec<String>)
    ensures
        r.deep_view() == split_pane_args_spec(
            horizontal,
            percent,
            match command {
                Some(c) => Some(c@),
                None => None,
            },
            stay_in_current,
        ),
{
    let mut args: Vec<String> = Vec::new();
    args.push("split-window".to_owned());
    if horizontal {
        args.push("-h".to_owned());
    } else {
        args.push("-v".to_owned());
    }
    args.push("-p".to_owned());
    args.push(u8_to_string(percent));
    args.push("-P".to_owned());
    args.push("-F".to_owned());
    args.push("#{pane_id}".to_owned());
    if stay_in_current {
        args.push("-d".to_owned());
    }
    if let Some(cmd) = command {
        args.push(cmd.to_owned());
    }
    proof {
        assert(args.deep_view() =~~= split_pane_args_spec(
            horizontal,
            percent,
            match command {
                Some(c) => Some(c@),
                None => None,
            },
            stay_in_current,
        ));
    }
    args
}

} // verus!
