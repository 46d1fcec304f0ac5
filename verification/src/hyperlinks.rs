//! URL detection in the terminal grid.
//!
//! Given a grid coordinate, the locator first honors an explicit per-cell
//! hyperlink annotation, expanding outward over the cells that carry the
//! identical annotation. Otherwise it scans the logical line containing
//! the coordinate - the pointed row together with the wrapped rows
//! joined to it - for the first URL whose extent contains the
//! coordinate: one of a fixed set of schemes followed by a run of URL
//! characters.
//! A match is post-processed by trimming trailing punctuation that is
//! unlikely to be part of the URL.

use vstd::prelude::*;

use crate::content::{GridPoint, IndexedCell, LinkAnnotation, PointRange, TerminalContent};
use crate::strutil::{chars_to_string, spec_to_lower, str_eq, str_to_chars, string_push, to_lower};

verus! {

/// Unicode whitespace, as a pattern's whitespace class excludes it.
pub open spec fn is_unicode_ws(c: char) -> bool {
    ||| (c as u32) <= 0x20
    ||| c == '\u{85}'
    ||| c == '\u{A0}'
    ||| c == '\u{1680}'
    ||| (0x2000 <= (c as u32) && (c as u32) <= 0x200A)
    ||| c == '\u{2028}'
    ||| c == '\u{2029}'
    ||| c == '\u{202F}'
    ||| c == '\u{205F}'
    ||| c == '\u{3000}'
}

/// Characters that may appear in a URL: everything except control
/// characters, whitespace, and a small set of delimiters that in
/// practice surround URLs rather than belong to them.
pub open spec fn is_url_char(c: char) -> bool {
    &&& !is_unicode_ws(c)
    &&& !(0x7F <= (c as u32) && (c as u32) <= 0x9F)
    &&& c != '<'
    &&& c != '>'
    &&& c != '"'
    &&& c != '{'
    &&& c != '|'
    &&& c != '}'
    &&& c != '^'
    &&& c != '\u{27E8}'
    &&& c != '\u{27E9}'
    &&& c != '`'
    &&& c != '\''
}

fn url_char(c: char) -> (r: bool)
    ensures
        r == is_url_char(c),
{
    let u = c as u32;
    let ws = u <= 0x20 || c == '\u{85}' || c == '\u{A0}' || c == '\u{1680}' || (0x2000 <= u && u
        <= 0x200A) || c == '\u{2028}' || c == '\u{2029}' || c == '\u{202F}' || c == '\u{205F}' || c
        == '\u{3000}';
    !ws && !(0x7F <= u && u <= 0x9F) && c != '<' && c != '>' && c != '"' && c != '{' && c != '|'
        && c != '}' && c != '^' && c != '\u{27E8}' && c != '\u{27E9}' && c != '`' && c != '\''
}

/// Whether `pat` occurs in `line` starting at position `i`, comparing
/// letters without regard to ASCII case on the line's side, as the
/// all-lower-case scheme patterns are matched case-insensitively.
pub open spec fn seq_matches_at(line: Seq<char>, i: int, pat: Seq<char>) -> bool {
    &&& 0 <= i
    &&& i + pat.len() <= line.len()
    &&& forall|k: int| 0 <= k < pat.len() ==> spec_to_lower(line[i + k]) == pat[k]
}

fn match_at(line: &Vec<char>, i: usize, pat: &str) -> (r: bool)
    requires
        i <= line@.len(),
    ensures
        r == seq_matches_at(line@, i as int, pat@),
{
    let pat_len: usize = pat.unicode_len();
    let n: usize = line.len();
    if pat_len > n - i {
        proof {
            assert(!seq_matches_at(line@, i as int, pat@));
        }
        return false;
    }
    let mut j: usize = 0;
    while j < pat_len
        invariant
            j <= pat_len,
            i + pat_len <= n,
            n == line@.len(),
            pat_len == pat@.len(),
            forall|k: int| 0 <= k < j ==> spec_to_lower(line@[i + k]) == pat@[k],
        decreases pat_len - j,
    {
        if to_lower(line[i + j]) != pat.get_char(j) {
            proof {
                assert(spec_to_lower(line@[i + j]) != pat@[j as int]);
            }
            return false;
        }
        j += 1;
    }
    true
}

/// The length of the URL scheme starting at position `i`, if one does.
pub open spec fn scheme_at(line: Seq<char>, i: int) -> Option<int> {
    if seq_matches_at(line, i, "ipfs:"@) {
        Some(5int)
    } else if seq_matches_at(line, i, "ipns:"@) {
        Some(5int)
    } else if seq_matches_at(line, i, "magnet:"@) {
        Some(7int)
    } else if seq_matches_at(line, i, "mailto:"@) {
        Some(7int)
    } else if seq_matches_at(line, i, "gemini://"@) {
        Some(9int)
    } else if seq_matches_at(line, i, "gopher://"@) {
        Some(9int)
    } else if seq_matches_at(line, i, "https://"@) {
        Some(8int)
    } else if seq_matches_at(line, i, "http://"@) {
        Some(7int)
    } else if seq_matches_at(line, i, "news:"@) {
        Some(5int)
    } else if seq_matches_at(line, i, "file://"@) {
        Some(7int)
    } else if seq_matches_at(line, i, "git://"@) {
        Some(6int)
    } else if seq_matches_at(line, i, "ssh:"@) {
        Some(4int)
    } else if seq_matches_at(line, i, "ftp://"@) {
        Some(6int)
    } else {
        None
    }
}

fn scheme_at_exec(line: &Vec<char>, i: usize) -> (r: Option<usize>)
    requires
        i <= line@.len(),
    ensures
        match r {
            Some(n) => scheme_at(line@, i as int) == Some(n as int) && i + n <= line@.len(),
            None => scheme_at(line@, i as int) is None,
        },
{
    if match_at(line, i, "ipfs:") {
        proof {
            reveal_strlit("ipfs:");
        }
        Some(5)
    } else if match_at(line, i, "ipns:") {
        proof {
            reveal_strlit("ipns:");
        }
        Some(5)
    } else if match_at(line, i, "magnet:") {
        proof {
            reveal_strlit("magnet:");
        }
        Some(7)
    } else if match_at(line, i, "mailto:") {
        proof {
            reveal_strlit("mailto:");
        }
        Some(7)
    } else if match_at(line, i, "gemini://") {
        proof {
            reveal_strlit("gemini://");
        }
        Some(9)
    } else if match_at(line, i, "gopher://") {
        proof {
            reveal_strlit("gopher://");
        }
        Some(9)
    } else if match_at(line, i, "https://") {
        proof {
            reveal_strlit("https://");
        }
        Some(8)
    } else if match_at(line, i, "http://") {
        proof {
            reveal_strlit("http://");
        }
        Some(7)
    } else if match_at(line, i, "news:") {
        proof {
            reveal_strlit("news:");
        }
        Some(5)
    } else if match_at(line, i, "file://") {
        proof {
            reveal_strlit("file://");
        }
        Some(7)
    } else if match_at(line, i, "git://") {
        proof {
            reveal_strlit("git://");
        }
        Some(6)
    } else if match_at(line, i, "ssh:") {
        proof {
            reveal_strlit("ssh:");
        }
        Some(4)
    } else if match_at(line, i, "ftp://") {
        proof {
            reveal_strlit("ftp://");
        }
        Some(6)
    } else {
        None
    }
}

/// A scheme fits within the line and is at least one character long.
pub proof fn lemma_scheme_len(line: Seq<char>, i: int)
    requires
        scheme_at(line, i) is Some,
    ensures
        match scheme_at(line, i) {
            Some(n) => 0 <= i && 1 <= n && i + n <= line.len(),
            None => true,
        },
{
    reveal_strlit("ipfs:");
    reveal_strlit("ipns:");
    reveal_strlit("magnet:");
    reveal_strlit("mailto:");
    reveal_strlit("gemini://");
    reveal_strlit("gopher://");
    reveal_strlit("https://");
    reveal_strlit("http://");
    reveal_strlit("news:");
    reveal_strlit("file://");
    reveal_strlit("git://");
    reveal_strlit("ssh:");
    reveal_strlit("ftp://");
}

/// The end of the run of URL characters starting at `j`: the first
/// position at or after `j` holding a non-URL character, or the line end.
pub open spec fn run_end(line: Seq<char>, j: int) -> int
    decreases line.len() - j,
{
    if j < 0 || j >= line.len() || !is_url_char(line[j]) {
        j
    } else {
        run_end(line, j + 1)
    }
}

pub proof fn lemma_run_end_bounds(line: Seq<char>, j: int)
    requires
        0 <= j <= line.len(),
    ensures
        j <= run_end(line, j) <= line.len(),
    decreases line.len() - j,
{
    if j < line.len() && is_url_char(line[j]) {
        lemma_run_end_bounds(line, j + 1);
    }
}

fn run_end_exec(line: &Vec<char>, start: usize) -> (r: usize)
    requires
        start <= line@.len(),
    ensures
        r == run_end(line@, start as int),
        start <= r <= line@.len(),
{
    let mut j: usize = start;
    while j < line.len() && url_char(line[j])
        invariant
            start <= j <= line@.len(),
            run_end(line@, start as int) == run_end(line@, j as int),
        decreases line@.len() - j,
    {
        j += 1;
    }
    j
}

/// The first URL match in `line` that could still contain column `col`,
/// scanning left to right: at each position where a scheme begins and at
/// least one URL character follows it, the match extends to the end of
/// the URL-character run; a match containing `col` is returned (as its
/// inclusive start and end positions), a match entirely before `col` is
/// skipped, and a match beginning after `col` means no URL contains the
/// column.
pub open spec fn find_from(line: Seq<char>, i: int, col: int) -> Option<(int, int)>
    decreases line.len() - i,
{
    if i < 0 || i >= line.len() {
        None
    } else {
        match scheme_at(line, i) {
            Some(slen) => {
                let e = run_end(line, i + slen);
                if e > i + slen && i <= col < e {
                    Some((i, e - 1))
                } else if e > i + slen && col < i {
                    None
                } else {
                    find_from(line, i + 1, col)
                }
            },
            None => find_from(line, i + 1, col),
        }
    }
}

/// What `find_from` returns is a genuine match around the column: it
/// begins with a scheme and lies within the line.
pub proof fn lemma_find_from_props(line: Seq<char>, i: int, col: int)
    requires
        0 <= i,
    ensures
        match find_from(line, i, col) {
            Some(m) => {
                &&& i <= m.0 <= col <= m.1 < line.len()
                &&& scheme_at(line, m.0) is Some
            },
            None => true,
        },
    decreases line.len() - i,
{
    if 0 <= i < line.len() {
        match scheme_at(line, i) {
            Some(slen) => {
                lemma_scheme_len(line, i);
                lemma_run_end_bounds(line, i + slen);
                let e = run_end(line, i + slen);
                if e > i + slen && i <= col < e {
                } else if e > i + slen && col < i {
                } else {
                    lemma_find_from_props(line, i + 1, col);
                }
            },
            None => {
                lemma_find_from_props(line, i + 1, col);
            },
        }
    }
}

/// Find the first URL match around column `col` in a row's text.
pub fn find_url_in_line(line: &Vec<char>, col: usize) -> (r: Option<(usize, usize)>)
    ensures
        match r {
            Some(m) => find_from(line@, 0, col as int) == Some((m.0 as int, m.1 as int)) && m.0
                <= col <= m.1 < line@.len(),
            None => find_from(line@, 0, col as int) is None,
        },
{
    proof {
        lemma_find_from_props(line@, 0, col as int);
    }
    let mut i: usize = 0;
    loop
        invariant
            0 <= i <= line@.len(),
            find_from(line@, 0, col as int) == find_from(line@, i as int, col as int),
        decreases line@.len() - i,
    {
        if i >= line.len() {
            return None;
        }
        match scheme_at_exec(line, i) {
            Some(slen) => {
                let e = run_end_exec(line, i + slen);
                if e > i + slen && i <= col && col < e {
                    return Some((i, e - 1));
                } else if e > i + slen && col < i {
                    return None;
                } else {
                    i += 1;
                }
            },
            None => {
                i += 1;
            },
        }
    }
}

/// Characters trimmed from the end of a URL whenever they appear there.
pub open spec fn is_trim_char(c: char) -> bool {
    c == '.' || c == ',' || c == ':' || c == ';' || c == '('
}

/// The number of occurrences of `c` in `s` at or after position `i`.
pub open spec fn count_char_from(s: Seq<char>, c: char, i: int) -> int
    decreases s.len() - i,
{
    if i < 0 || i >= s.len() {
        0
    } else {
        (if s[i] == c {
            1int
        } else {
            0int
        }) + count_char_from(s, c, i + 1)
    }
}

/// Trailing trimming: periods, commas, colons, semicolons and opening
/// parentheses are always removed from the end; a closing parenthesis is
/// removed only while the URL holds more closing than opening
/// parentheses, counted once over the original text.
pub open spec fn spec_trim(url: Seq<char>, opens: int, closes: int) -> Seq<char>
    decreases url.len(),
{
    if url.len() == 0 {
        url
    } else {
        let last = url[url.len() - 1];
        if is_trim_char(last) {
            spec_trim(url.drop_last(), opens, closes)
        } else if last == ')' && closes > opens {
            spec_trim(url.drop_last(), opens, closes - 1)
        } else {
            url
        }
    }
}

/// The sanitized form of a URL: its trailing punctuation trimmed.
pub open spec fn sanitize_spec(url: Seq<char>) -> Seq<char> {
    spec_trim(url, count_char_from(url, '(', 0), count_char_from(url, ')', 0))
}

/// Trimming never grows the text, and never removes its first character
/// when that character is no candidate for trimming.
pub proof fn lemma_trim_bounds(url: Seq<char>, opens: int, closes: int)
    ensures
        spec_trim(url, opens, closes).len() <= url.len(),
        url.len() >= 1 && !is_trim_char(url[0]) && url[0] != ')' ==> spec_trim(
            url,
            opens,
            closes,
        ).len() >= 1,
    decreases url.len(),
{
    if url.len() > 0 {
        let last = url[url.len() - 1];
        if is_trim_char(last) {
            lemma_trim_bounds(url.drop_last(), opens, closes);
        } else if last == ')' && closes > opens {
            lemma_trim_bounds(url.drop_last(), opens, closes - 1);
        }
    }
}

fn count_char(v: &Vec<char>, c: char) -> (r: usize)
    ensures
        r == count_char_from(v@, c, 0),
{
    proof {
        lemma_count_char_bounds(v@, c, 0);
    }
    let mut i: usize = 0;
    let mut acc: usize = 0;
    while i < v.len()
        invariant
            0 <= i <= v@.len(),
            acc == count_char_from(v@, c, 0) - count_char_from(v@, c, i as int),
            acc <= i,
        decreases v@.len() - i,
    {
        proof {
            lemma_count_char_bounds(v@, c, i + 1);
        }
        if v[i] == c {
            acc += 1;
        }
        i += 1;
    }
    acc
}

proof fn lemma_count_char_bounds(s: Seq<char>, c: char, i: int)
    ensures
        0 <= count_char_from(s, c, i) <= s.len() - i || (i >= s.len() && count_char_from(s, c, i)
            == 0),
    decreases s.len() - i,
{
    if 0 <= i < s.len() {
        lemma_count_char_bounds(s, c, i + 1);
    }
}

/// Remove trailing punctuation that is likely not part of the URL.
pub fn trim_url(url: String) -> (r: String)
    ensures
        r@ == sanitize_spec(url@),
{
    let mut v: Vec<char> = str_to_chars(url.as_str());
    let ghost orig = v@;
    let opens = count_char(&v, '(');
    let mut closes = count_char(&v, ')');
    proof {
        lemma_count_char_bounds(v@, ')', 0);
    }
    let ghost opens0 = opens as int;
    let ghost closes0 = closes as int;
    loop
        invariant_except_break
            spec_trim(orig, opens0, closes0) == spec_trim(v@, opens as int, closes as int),
        invariant
            v@.len() <= orig.len(),
        ensures
            spec_trim(orig, opens0, closes0) == v@,
        decreases v@.len(),
    {
        if v.len() == 0 {
            break ;
        }
        let last = v[v.len() - 1];
        if last == '.' || last == ',' || last == ':' || last == ';' || last == '(' {
            v.pop();
        } else if last == ')' && closes > opens {
            v.pop();
            closes = closes - 1;
        } else {
            proof {
                assert(spec_trim(v@, opens as int, closes as int) == v@);
            }
            break ;
        }
    }
    proof {
        assert(sanitize_spec(url@) == spec_trim(orig, opens0, closes0));
    }
    chars_to_string(&v)
}

/// Remove trailing punctuation that is likely not part of the URL, and
/// shorten the match's end coordinate by the number of characters
/// removed.
pub fn sanitize_url_punctuation(url: String, url_match: PointRange) -> (r: (String, PointRange))
    requires
        url@.len() - sanitize_spec(url@).len() <= url_match.end.column,
    ensures
        r.0@ == sanitize_spec(url@),
        r.1.start == url_match.start,
        r.1.end.line == url_match.end.line,
        r.1.end.column == url_match.end.column - (url@.len() - sanitize_spec(url@).len()),
{
    let orig_len: usize = url.as_str().unicode_len();
    proof {
        lemma_trim_bounds(url@, count_char_from(url@, '(', 0), count_char_from(url@, ')', 0));
    }
    let sanitized = trim_url(url);
    let trimmed: usize = orig_len - sanitized.as_str().unicode_len();
    let new_end = GridPoint { line: url_match.end.line, column: url_match.end.column - trimmed };
    (sanitized, PointRange { start: url_match.start, end: new_end })
}

/// The index of the first cell at `p`, scanning from position `i`.
pub open spec fn first_cell_at(cells: Seq<IndexedCell>, p: GridPoint, i: int) -> Option<int>
    decreases cells.len() - i,
{
    if i < 0 || i >= cells.len() {
        None
    } else if cells[i].point == p {
        Some(i)
    } else {
        first_cell_at(cells, p, i + 1)
    }
}

pub proof fn lemma_first_cell_at_props(cells: Seq<IndexedCell>, p: GridPoint, i: int)
    requires
        0 <= i,
    ensures
        match first_cell_at(cells, p, i) {
            Some(ci) => i <= ci < cells.len() && cells[ci].point == p,
            None => true,
        },
    decreases cells.len() - i,
{
    if 0 <= i < cells.len() && cells[i].point != p {
        lemma_first_cell_at_props(cells, p, i + 1);
    }
}

fn first_cell_index(cells: &Vec<IndexedCell>, p: GridPoint) -> (r: Option<usize>)
    ensures
        match r {
            Some(ci) => first_cell_at(cells@, p, 0) == Some(ci as int) && ci < cells@.len(),
            None => first_cell_at(cells@, p, 0) is None,
        },
{
    let mut i: usize = 0;
    loop
        invariant
            0 <= i <= cells@.len(),
            first_cell_at(cells@, p, 0) == first_cell_at(cells@, p, i as int),
        decreases cells@.len() - i,
    {
        if i >= cells.len() {
            return None;
        }
        if cells[i].point.line == p.line && cells[i].point.column == p.column {
            return Some(i);
        }
        i += 1;
    }
}

/// Whether a cell's annotation is the same link: identity and target
/// both agree.
pub open spec fn same_link(link: Option<LinkAnnotation>, id: Seq<char>, uri: Seq<char>) -> bool {
    match link {
        Some(s) => s.id@ == id && s.uri@ == uri,
        None => false,
    }
}

/// The lowest index reachable from `i` walking left while the identical
/// annotation continues.
pub open spec fn expand_left(cells: Seq<IndexedCell>, i: int, id: Seq<char>, uri: Seq<char>) -> int
    decreases i,
{
    if i <= 0 || i > cells.len() {
        0
    } else if same_link(cells[i - 1].hyperlink, id, uri) {
        expand_left(cells, i - 1, id, uri)
    } else {
        i
    }
}

/// The highest index reachable from `i` walking right while the
/// identical annotation continues.
pub open spec fn expand_right(cells: Seq<IndexedCell>, i: int, id: Seq<char>, uri: Seq<char>) -> int
    decreases cells.len() - i,
{
    if i < 0 || i + 1 >= cells.len() {
        i
    } else if same_link(cells[i + 1].hyperlink, id, uri) {
        expand_right(cells, i + 1, id, uri)
    } else {
        i
    }
}

fn link_matches(link: &Option<LinkAnnotation>, a: &LinkAnnotation) -> (r: bool)
    ensures
        r == same_link(*link, a.id@, a.uri@),
{
    match link {
        Some(s) => str_eq(s.id.as_str(), a.id.as_str()) && str_eq(s.uri.as_str(), a.uri.as_str()),
        None => false,
    }
}

fn expand_left_exec(cells: &Vec<IndexedCell>, start: usize, a: &LinkAnnotation) -> (r: usize)
    requires
        start < cells@.len(),
    ensures
        r == expand_left(cells@, start as int, a.id@, a.uri@),
        r <= start,
{
    let mut i: usize = start;
    loop
        invariant
            0 <= i <= start < cells@.len(),
            expand_left(cells@, start as int, a.id@, a.uri@) == expand_left(
                cells@,
                i as int,
                a.id@,
                a.uri@,
            ),
        decreases i,
    {
        if i == 0 {
            proof {
                assert(expand_left(cells@, 0, a.id@, a.uri@) == 0);
            }
            return i;
        }
        if link_matches(&cells[i - 1].hyperlink, a) {
            proof {
                assert(expand_left(cells@, i as int, a.id@, a.uri@) == expand_left(
                    cells@,
                    i - 1,
                    a.id@,
                    a.uri@,
                ));
            }
            i -= 1;
        } else {
            proof {
                assert(expand_left(cells@, i as int, a.id@, a.uri@) == i);
            }
            return i;
        }
    }
}

fn expand_right_exec(cells: &Vec<IndexedCell>, start: usize, a: &LinkAnnotation) -> (r: usize)
    requires
        start < cells@.len(),
    ensures
        r == expand_right(cells@, start as int, a.id@, a.uri@),
        start <= r < cells@.len(),
{
    let total: usize = cells.len();
    let mut i: usize = start;
    loop
        invariant
            start <= i < total,
            total == cells@.len(),
            expand_right(cells@, start as int, a.id@, a.uri@) == expand_right(
                cells@,
                i as int,
                a.id@,
                a.uri@,
            ),
        decreases total - i,
    {
        if i + 1 >= total {
            proof {
                assert(expand_right(cells@, i as int, a.id@, a.uri@) == i);
            }
            return i;
        }
        if link_matches(&cells[i + 1].hyperlink, a) {
            proof {
                assert(expand_right(cells@, i as int, a.id@, a.uri@) == expand_right(
                    cells@,
                    i + 1,
                    a.id@,
                    a.uri@,
                ));
            }
            i += 1;
        } else {
            proof {
                assert(expand_right(cells@, i as int, a.id@, a.uri@) == i);
            }
            return i;
        }
    }
}

/// The explicit-annotation result at `p`: the target of the annotation
/// of the cell at `p`, if it carries one, with the full extent of
/// identical annotations around it.
pub open spec fn explicit_link_at(cells: Seq<IndexedCell>, p: GridPoint) -> Option<
    (Seq<char>, PointRange),
> {
    match first_cell_at(cells, p, 0) {
        None => None,
        Some(ci) => match cells[ci].hyperlink {
            None => None,
            Some(u) => {
                let lo = expand_left(cells, ci, u.id@, u.uri@);
                let hi = expand_right(cells, ci, u.id@, u.uri@);
                Some((u.uri@, PointRange { start: cells[lo].point, end: cells[hi].point }))
            },
        },
    }
}

/// The index of the first cell of row `l`, scanning from position `i`.
pub open spec fn row_start_from(cells: Seq<IndexedCell>, l: i32, i: int) -> Option<int>
    decreases cells.len() - i,
{
    if i < 0 || i >= cells.len() {
        None
    } else if cells[i].point.line == l {
        Some(i)
    } else {
        row_start_from(cells, l, i + 1)
    }
}

/// The number of consecutive cells of row `l` starting at `s`.
pub open spec fn row_len_from(cells: Seq<IndexedCell>, l: i32, s: int) -> int
    decreases cells.len() - s,
{
    if s < 0 || s >= cells.len() || cells[s].point.line != l {
        0
    } else {
        1 + row_len_from(cells, l, s + 1)
    }
}

/// The text of the row block beginning at `s` with `n` cells.
pub open spec fn row_chars(cells: Seq<IndexedCell>, s: int, n: int) -> Seq<char> {
    Seq::new(n as nat, |j: int| cells[s + j].c)
}

pub proof fn lemma_row_props(cells: Seq<IndexedCell>, l: i32, i: int)
    requires
        0 <= i,
    ensures
        match row_start_from(cells, l, i) {
            Some(s) => i <= s < cells.len() && cells[s].point.line == l && s + row_len_from(
                cells,
                l,
                s,
            ) <= cells.len() && row_len_from(cells, l, s) >= 1,
            None => true,
        },
    decreases cells.len() - i,
{
    match row_start_from(cells, l, i) {
        Some(s) => {
            if 0 <= i < cells.len() && cells[i].point.line != l {
                lemma_row_props(cells, l, i + 1);
            } else {
                lemma_row_len_bounds(cells, l, i);
                lemma_row_len_bounds(cells, l, i + 1);
            }
        },
        None => {
        },
    }
}

proof fn lemma_row_len_bounds(cells: Seq<IndexedCell>, l: i32, s: int)
    requires
        0 <= s,
    ensures
        row_len_from(cells, l, s) >= 0,
        s + row_len_from(cells, l, s) <= cells.len() || s >= cells.len(),
    decreases cells.len() - s,
{
    if 0 <= s < cells.len() && cells[s].point.line == l {
        lemma_row_len_bounds(cells, l, s + 1);
    }
}

fn row_start_exec(cells: &Vec<IndexedCell>, l: i32) -> (r: Option<usize>)
    ensures
        match r {
            Some(s) => row_start_from(cells@, l, 0) == Some(s as int) && s < cells@.len(),
            None => row_start_from(cells@, l, 0) is None,
        },
{
    let mut i: usize = 0;
    loop
        invariant
            0 <= i <= cells@.len(),
            row_start_from(cells@, l, 0) == row_start_from(cells@, l, i as int),
        decreases cells@.len() - i,
    {
        if i >= cells.len() {
            return None;
        }
        if cells[i].point.line == l {
            return Some(i);
        }
        i += 1;
    }
}

fn row_block(cells: &Vec<IndexedCell>, l: i32) -> (r: Option<(usize, usize)>)
    ensures
        match r {
            Some(b) => row_start_from(cells@, l, 0) == Some(b.0 as int) && row_len_from(
                cells@,
                l,
                b.0 as int,
            ) == b.1 as int && b.0 + b.1 <= cells@.len() && b.1 >= 1,
            None => row_start_from(cells@, l, 0) is None,
        },
{
    proof {
        lemma_row_props(cells@, l, 0);
    }
    let found = row_start_exec(cells, l);
    let s: usize = match found {
        Some(s) => s,
        None => {
            return None;
        },
    };
    let total: usize = cells.len();
    let mut n: usize = 0;
    proof {
        lemma_row_len_bounds(cells@, l, s as int);
    }
    while s + n < total && cells[s + n].point.line == l
        invariant
            s + n <= total,
            total == cells@.len(),
            row_len_from(cells@, l, s as int) == n + row_len_from(cells@, l, (s + n) as int),
            row_len_from(cells@, l, (s + n) as int) >= 0,
        decreases total - s - n,
    {
        n += 1;
        proof {
            lemma_row_len_bounds(cells@, l, (s + n) as int);
        }
    }
    Some((s, n))
}

/// Two consecutive cells belong to one logical line: they share a row,
/// or the first ends a row that wraps into the one the second begins.
pub open spec fn seg_joined(prev: IndexedCell, cur: IndexedCell) -> bool {
    ||| prev.point.line == cur.point.line
    ||| (prev.wrapped && cur.point.line == prev.point.line + 1 && cur.point.column == 0)
}

fn seg_joined_exec(prev: &IndexedCell, cur: &IndexedCell) -> (r: bool)
    ensures
        r == seg_joined(*prev, *cur),
{
    prev.point.line == cur.point.line || (prev.wrapped && prev.point.line < i32::MAX
        && cur.point.line == prev.point.line + 1 && cur.point.column == 0)
}

/// The first cell of the logical line through the cell at `i`: walk left
/// while consecutive cells stay joined.
pub open spec fn seg_start(cells: Seq<IndexedCell>, i: int) -> int
    decreases i,
{
    if i <= 0 || i >= cells.len() {
        if i <= 0 {
            0
        } else {
            i
        }
    } else if seg_joined(cells[i - 1], cells[i]) {
        seg_start(cells, i - 1)
    } else {
        i
    }
}

/// The last cell of the logical line through the cell at `i`: walk right
/// while consecutive cells stay joined.
pub open spec fn seg_end(cells: Seq<IndexedCell>, i: int) -> int
    decreases cells.len() - i,
{
    if i < 0 || i + 1 >= cells.len() {
        i
    } else if seg_joined(cells[i], cells[i + 1]) {
        seg_end(cells, i + 1)
    } else {
        i
    }
}

fn seg_start_exec(cells: &Vec<IndexedCell>, start: usize) -> (r: usize)
    requires
        start < cells@.len(),
    ensures
        r == seg_start(cells@, start as int),
        r <= start,
{
    let mut i: usize = start;
    loop
        invariant
            0 <= i <= start < cells@.len(),
            seg_start(cells@, start as int) == seg_start(cells@, i as int),
        decreases i,
    {
        if i == 0 {
            proof {
                assert(seg_start(cells@, 0) == 0);
            }
            return i;
        }
        if seg_joined_exec(&cells[i - 1], &cells[i]) {
            proof {
                assert(seg_start(cells@, i as int) == seg_start(cells@, i - 1));
            }
            i -= 1;
        } else {
            proof {
                assert(seg_start(cells@, i as int) == i);
            }
            return i;
        }
    }
}

fn seg_end_exec(cells: &Vec<IndexedCell>, start: usize) -> (r: usize)
    requires
        start < cells@.len(),
    ensures
        r == seg_end(cells@, start as int),
        start <= r < cells@.len(),
{
    let total: usize = cells.len();
    let mut i: usize = start;
    loop
        invariant
            start <= i < total,
            total == cells@.len(),
            seg_end(cells@, start as int) == seg_end(cells@, i as int),
        decreases total - i,
    {
        if i + 1 >= total {
            proof {
                assert(seg_end(cells@, i as int) == i);
            }
            return i;
        }
        if seg_joined_exec(&cells[i], &cells[i + 1]) {
            proof {
                assert(seg_end(cells@, i as int) == seg_end(cells@, i + 1));
            }
            i += 1;
        } else {
            proof {
                assert(seg_end(cells@, i as int) == i);
            }
            return i;
        }
    }
}

/// The locator's complete answer at a grid coordinate: the explicit
/// annotation when the cell carries one, and otherwise the first URL
/// match around the coordinate within its logical line, trimmed of
/// trailing punctuation, with the match coordinates taken from the
/// matched cells themselves.
pub open spec fn find_url_at_point_spec(content: TerminalContent, point: GridPoint) -> Option<
    (Seq<char>, PointRange),
> {
    let cells = content.cells@;
    match explicit_link_at(cells, point) {
        Some(x) => Some(x),
        None => match row_start_from(cells, point.line, 0) {
            None => None,
            Some(s) => {
                let n = row_len_from(cells, point.line, s);
                if point.column >= n {
                    None
                } else {
                    let ci = s + point.column;
                    let a = seg_start(cells, ci);
                    let b = seg_end(cells, ci);
                    let text = row_chars(cells, a, b + 1 - a);
                    match find_from(text, 0, ci - a) {
                        None => None,
                        Some(m) => {
                            let raw = text.subrange(m.0, m.1 + 1);
                            let trimmed = sanitize_spec(raw);
                            Some(
                                (
                                    trimmed,
                                    PointRange {
                                        start: cells[a + m.0].point,
                                        end: cells[a + m.0 + trimmed.len() - 1].point,
                                    },
                                ),
                            )
                        },
                    }
                }
            },
        },
    }
}

/// Find a URL at the given grid point, if any: the URL string and the
/// extent of the match.
pub fn find_url_at_point(content: &TerminalContent, point: GridPoint) -> (r: Option<
    (String, PointRange),
>)
    ensures
        match r {
            Some(m) => find_url_at_point_spec(*content, point) == Some((m.0@, m.1)),
            None => find_url_at_point_spec(*content, point) is None,
        },
{
    proof {
        lemma_first_cell_at_props(content.cells@, point, 0);
    }
    // An explicit per-cell annotation wins; expand outward over the
    // identical annotation to find its full extent.
    if let Some(ci) = first_cell_index(&content.cells, point) {
        match &content.cells[ci].hyperlink {
            Some(u) => {
                let lo = expand_left_exec(&content.cells, ci, u);
                let hi = expand_right_exec(&content.cells, ci, u);
                return Some(
                    (
                        u.uri.clone(),
                        PointRange { start: content.cells[lo].point, end: content.cells[hi].point },
                    ),
                );
            },
            None => {},
        }
    }
    // Otherwise search the logical line's text for a URL around the
    // coordinate: the pointed row together with the wrapped rows joined
    // to it, one contiguous range of cells.
    let block = match row_block(&content.cells, point.line) {
        Some(b) => b,
        None => {
            return None;
        },
    };
    let (s, n) = block;
    if point.column >= n {
        return None;
    }
    let total: usize = content.cells.len();
    proof {
        assert(s + point.column < total);
    }
    let ci = s + point.column;
    let a = seg_start_exec(&content.cells, ci);
    let b = seg_end_exec(&content.cells, ci);
    let count = b + 1 - a;
    let mut text: Vec<char> = Vec::new();
    let mut j: usize = 0;
    while j < count
        invariant
            0 <= j <= count,
            a + count <= total,
            total == content.cells@.len(),
            text@ == row_chars(content.cells@, a as int, j as int),
        decreases count - j,
    {
        text.push(content.cells[a + j].c);
        proof {
            assert(text@ =~= row_chars(content.cells@, a as int, j + 1));
        }
        j += 1;
    }
    match find_url_in_line(&text, ci - a) {
        None => None,
        Some((ms, me)) => {
            proof {
                lemma_find_from_props(text@, 0, ci - a);
            }
            let text_len: usize = text.len();
            let mut raw: Vec<char> = Vec::new();
            let mut k: usize = ms;
            while k <= me
                invariant
                    ms <= k <= me + 1,
                    me < text_len,
                    text_len == text@.len(),
                    raw@ == text@.subrange(ms as int, k as int),
                decreases me + 1 - k,
            {
                raw.push(text[k]);
                proof {
                    assert(raw@ =~= text@.subrange(ms as int, k + 1));
                }
                k += 1;
            }
            let raw_s = chars_to_string(&raw);
            proof {
                let textv = text@;
                let rawv = textv.subrange(ms as int, me + 1);
                assert(rawv[0] == textv[ms as int]);
                lemma_scheme_first_char(textv, ms as int);
                lemma_trim_bounds(
                    rawv,
                    count_char_from(rawv, '(', 0),
                    count_char_from(rawv, ')', 0),
                );
            }
            let url = trim_url(raw_s);
            let url_len: usize = url.as_str().unicode_len();
            let end_idx = a + ms + url_len - 1;
            Some(
                (
                    url,
                    PointRange {
                        start: content.cells[a + ms].point,
                        end: content.cells[end_idx].point,
                    },
                ),
            )
        },
    }
}

/// The lower-case form of a trimmable character or a closing
/// parenthesis is itself, so it can never equal a lower-case letter.
proof fn lemma_lower_not_punct(c: char, letter: char)
    requires
        spec_to_lower(c) == letter,
        'a' <= letter && letter <= 'z',
    ensures
        !is_trim_char(c),
        c != ')',
{
    if is_trim_char(c) || c == ')' {
        assert(spec_to_lower(c) == c);
    }
}

/// A scheme's first character folds to a letter, so trimming can never
/// consume a whole match.
pub proof fn lemma_scheme_first_char(line: Seq<char>, i: int)
    requires
        scheme_at(line, i) is Some,
    ensures
        0 <= i < line.len(),
        !is_trim_char(line[i]),
        line[i] != ')',
{
    reveal_strlit("ipfs:");
    reveal_strlit("ipns:");
    reveal_strlit("magnet:");
    reveal_strlit("mailto:");
    reveal_strlit("gemini://");
    reveal_strlit("gopher://");
    reveal_strlit("https://");
    reveal_strlit("http://");
    reveal_strlit("news:");
    reveal_strlit("file://");
    reveal_strlit("git://");
    reveal_strlit("ssh:");
    reveal_strlit("ftp://");
    if seq_matches_at(line, i, "ipfs:"@) {
        assert(spec_to_lower(line[i + 0]) == "ipfs:"@[0]);
        lemma_lower_not_punct(line[i], 'i');
    } else if seq_matches_at(line, i, "ipns:"@) {
        assert(spec_to_lower(line[i + 0]) == "ipns:"@[0]);
        lemma_lower_not_punct(line[i], 'i');
    } else if seq_matches_at(line, i, "magnet:"@) {
        assert(spec_to_lower(line[i + 0]) == "magnet:"@[0]);
        lemma_lower_not_punct(line[i], 'm');
    } else if seq_matches_at(line, i, "mailto:"@) {
        assert(spec_to_lower(line[i + 0]) == "mailto:"@[0]);
        lemma_lower_not_punct(line[i], 'm');
    } else if seq_matches_at(line, i, "gemini://"@) {
        assert(spec_to_lower(line[i + 0]) == "gemini://"@[0]);
        lemma_lower_not_punct(line[i], 'g');
    } else if seq_matches_at(line, i, "gopher://"@) {
        assert(spec_to_lower(line[i + 0]) == "gopher://"@[0]);
        lemma_lower_not_punct(line[i], 'g');
    } else if seq_matches_at(line, i, "https://"@) {
        assert(spec_to_lower(line[i + 0]) == "https://"@[0]);
        lemma_lower_not_punct(line[i], 'h');
    } else if seq_matches_at(line, i, "http://"@) {
        assert(spec_to_lower(line[i + 0]) == "http://"@[0]);
        lemma_lower_not_punct(line[i], 'h');
    } else if seq_matches_at(line, i, "news:"@) {
        assert(spec_to_lower(line[i + 0]) == "news:"@[0]);
        lemma_lower_not_punct(line[i], 'n');
    } else if seq_matches_at(line, i, "file://"@) {
        assert(spec_to_lower(line[i + 0]) == "file://"@[0]);
        lemma_lower_not_punct(line[i], 'f');
    } else if seq_matches_at(line, i, "git://"@) {
        assert(spec_to_lower(line[i + 0]) == "git://"@[0]);
        lemma_lower_not_punct(line[i], 'g');
    } else if seq_matches_at(line, i, "ssh:"@) {
        assert(spec_to_lower(line[i + 0]) == "ssh:"@[0]);
        lemma_lower_not_punct(line[i], 's');
    } else {
        assert(seq_matches_at(line, i, "ftp://"@));
        assert(spec_to_lower(line[i + 0]) == "ftp://"@[0]);
        lemma_lower_not_punct(line[i], 'f');
    }
}

} // verus!
