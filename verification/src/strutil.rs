//! Small string and character helpers shared across the crate.

use vstd::prelude::*;

verus! {

/// Relies on std's `String::push`: appends one character at the end.
#[verifier::external_body]
pub fn string_push(s: &mut String, c: char)
    ensures
        final(s)@ == old(s)@.push(c),
{
    s.push(c);
}

/// A `String` holding exactly the one character `c`.
pub fn char_string(c: char) -> (r: String)
    ensures
        r@ == seq![c],
{
    let mut s = String::new();
    string_push(&mut s, c);
    proof {
        assert(s@ =~= seq![c]);
    }
    s
}

/// A character is ASCII when its code point is below 128.
pub open spec fn is_ascii_char(c: char) -> bool {
    (c as u32) < 128
}

/// The lower-case form of an ASCII letter; any other character is unchanged.
pub open spec fn spec_to_lower(c: char) -> char {
    if 'A' <= c && c <= 'Z' {
        ((c as u8) + 0x20) as char
    } else {
        c
    }
}

pub fn to_lower(c: char) -> (r: char)
    ensures
        r == spec_to_lower(c),
{
    if 'A' <= c && c <= 'Z' {
        ((c as u8) + 0x20) as char
    } else {
        c
    }
}

/// The upper-case form of an ASCII letter; any other character is unchanged.
pub open spec fn spec_to_upper(c: char) -> char {
    if 'a' <= c && c <= 'z' {
        ((c as u8) - 0x20) as char
    } else {
        c
    }
}

pub fn to_upper(c: char) -> (r: char)
    ensures
        r == spec_to_upper(c),
{
    if 'a' <= c && c <= 'z' {
        ((c as u8) - 0x20) as char
    } else {
        c
    }
}

/// A line-ending carriage return is dropped from the end of a line.
pub open spec fn strip_cr(t: Seq<char>) -> Seq<char> {
    if t.len() > 0 && t[t.len() - 1] == '\r' {
        t.drop_last()
    } else {
        t
    }
}

/// The lines of the text from position `i` on, with `cur` the partial
/// line read so far: lines are split at newlines, a carriage return
/// before a newline is dropped, and a final line ending is optional.
pub open spec fn lines_acc(s: Seq<char>, i: int, cur: Seq<char>) -> Seq<Seq<char>>
    decreases s.len() - i,
{
    if i < 0 || i >= s.len() {
        if cur.len() > 0 {
            seq![cur]
        } else {
            Seq::empty()
        }
    } else if s[i] == '\n' {
        seq![strip_cr(cur)] + lines_acc(s, i + 1, Seq::empty())
    } else {
        lines_acc(s, i + 1, cur.push(s[i]))
    }
}

/// The lines of a text, as `str::lines` yields them.
pub open spec fn spec_lines(s: Seq<char>) -> Seq<Seq<char>> {
    lines_acc(s, 0, Seq::empty())
}

/// Split a text into its lines.
pub fn split_lines(s: &str) -> (r: Vec<String>)
    ensures
        r.deep_view() == spec_lines(s@),
{
    let n: usize = s.unicode_len();
    let mut out: Vec<String> = Vec::new();
    let mut cur: String = String::new();
    let mut i: usize = 0;
    while i < n
        invariant
            0 <= i <= n,
            n == s@.len(),
            spec_lines(s@) == out.deep_view() + lines_acc(s@, i as int, cur@),
        decreases n - i,
    {
        let c = s.get_char(i);
        if c == '\n' {
            let ghost cur0 = cur@;
            let ghost out0 = out.deep_view();
            let mut done = cur;
            cur = String::new();
            let done_len: usize = done.as_str().unicode_len();
            if done_len > 0 && done.as_str().get_char(done_len - 1) == '\r' {
                let stripped = done.as_str().substring_char(0, done_len - 1).to_owned();
                done = stripped;
            }
            proof {
                assert(done@ =~= strip_cr(cur0));
            }
            out.push(done);
            proof {
                assert(out.deep_view() =~~= out0.push(strip_cr(cur0)));
                assert(out.deep_view() + lines_acc(s@, i + 1, Seq::<char>::empty()) =~~= out0
                    + lines_acc(s@, i as int, cur0));
            }
        } else {
            string_push(&mut cur, c);
        }
        i += 1;
    }
    if cur.as_str().unicode_len() > 0 {
        let ghost out0 = out.deep_view();
        let ghost cur0 = cur@;
        out.push(cur);
        proof {
            assert(out.deep_view() =~~= out0.push(cur0));
            assert(out.deep_view() =~~= out0 + lines_acc(s@, n as int, cur0));
        }
    }
    proof {
        assert(out.deep_view() =~= spec_lines(s@));
    }
    out
}

/// A whitespace character, for trimming.
pub open spec fn is_ws(c: char) -> bool {
    c == ' ' || c == '\t' || c == '\n' || c == '\r'
}

fn ws_char(c: char) -> (r: bool)
    ensures
        r == is_ws(c),
{
    c == ' ' || c == '\t' || c == '\n' || c == '\r'
}

/// The first position at or after `i` holding a non-whitespace character,
/// or the length.
pub open spec fn trim_start_idx(s: Seq<char>, i: int) -> int
    decreases s.len() - i,
{
    if i < 0 || i >= s.len() || !is_ws(s[i]) {
        i
    } else {
        trim_start_idx(s, i + 1)
    }
}

/// The position after the last non-whitespace character before `j`, or
/// zero.
pub open spec fn trim_end_idx(s: Seq<char>, j: int) -> int
    decreases j,
{
    if j <= 0 || j > s.len() || !is_ws(s[j - 1]) {
        j
    } else {
        trim_end_idx(s, j - 1)
    }
}

/// A text with leading and trailing whitespace removed.
pub open spec fn spec_trim_ws(s: Seq<char>) -> Seq<char> {
    let a = trim_start_idx(s, 0);
    let b = trim_end_idx(s, s.len() as int);
    if a >= b {
        Seq::empty()
    } else {
        s.subrange(a, b)
    }
}

/// Remove leading and trailing whitespace.
pub fn trim_ws(s: &str) -> (r: String)
    ensures
        r@ == spec_trim_ws(s@),
{
    let n: usize = s.unicode_len();
    let mut a: usize = 0;
    loop
        invariant_except_break
            trim_start_idx(s@, 0) == trim_start_idx(s@, a as int),
        invariant
            0 <= a <= n,
            n == s@.len(),
        ensures
            trim_start_idx(s@, 0) == a,
        decreases n - a,
    {
        if a >= n {
            proof {
                assert(trim_start_idx(s@, a as int) == a);
            }
            break ;
        }
        if !ws_char(s.get_char(a)) {
            proof {
                assert(trim_start_idx(s@, a as int) == a);
            }
            break ;
        }
        a += 1;
    }
    let mut b: usize = n;
    loop
        invariant_except_break
            trim_end_idx(s@, n as int) == trim_end_idx(s@, b as int),
        invariant
            0 <= b <= n,
            n == s@.len(),
        ensures
            trim_end_idx(s@, n as int) == b,
        decreases b,
    {
        if b == 0 {
            proof {
                assert(trim_end_idx(s@, b as int) == b);
            }
            break ;
        }
        if !ws_char(s.get_char(b - 1)) {
            proof {
                assert(trim_end_idx(s@, b as int) == b);
            }
            break ;
        }
        b -= 1;
    }
    if a >= b {
        proof {
            assert(spec_trim_ws(s@) =~= Seq::<char>::empty());
        }
        String::new()
    } else {
        let r = s.substring_char(a, b).to_owned();
        proof {
            assert(r@ =~= spec_trim_ws(s@));
        }
        r
    }
}

/// The numeric value of an ASCII digit.
pub open spec fn digit_val(c: char) -> int {
    (c as int) - 0x30
}

/// Whether a character is an ASCII digit.
pub open spec fn is_digit(c: char) -> bool {
    '0' <= c && c <= '9'
}

/// The value of the first `n` characters of a decimal numeral.
pub open spec fn dec_value(s: Seq<char>, n: int) -> int
    decreases n,
{
    if n <= 0 {
        0
    } else {
        dec_value(s, n - 1) * 10 + digit_val(s[n - 1])
    }
}

/// A decimal numeral's value is nonnegative.
pub proof fn lemma_dec_value_nonneg(s: Seq<char>, n: int)
    requires
        n <= s.len(),
        forall|k: int| 0 <= k < n ==> is_digit(s[k]),
    ensures
        dec_value(s, n) >= 0,
    decreases n,
{
    if n > 0 {
        lemma_dec_value_nonneg(s, n - 1);
    }
}

/// A decimal numeral's value grows with its length.
pub proof fn lemma_dec_value_mono_from(s: Seq<char>, i: int, j: int)
    requires
        0 <= i <= j <= s.len(),
        forall|k: int| 0 <= k < j ==> is_digit(s[k]),
    ensures
        dec_value(s, i) <= dec_value(s, j),
    decreases j - i,
{
    if i < j {
        lemma_dec_value_mono_from(s, i, j - 1);
        lemma_dec_value_nonneg(s, j - 1);
    }
}

/// What a decimal numeral denotes: `Some` of its value exactly when the
/// text is a nonempty, all-digit numeral whose value fits.
pub open spec fn spec_parse_u32(s: Seq<char>) -> Option<u32> {
    if s.len() >= 1 && (forall|k: int| 0 <= k < s.len() ==> is_digit(s[k])) && dec_value(
        s,
        s.len() as int,
    ) <= u32::MAX {
        Some(dec_value(s, s.len() as int) as u32)
    } else {
        None
    }
}

/// Parse a decimal numeral.
pub fn parse_u32(s: &str) -> (r: Option<u32>)
    ensures
        r == spec_parse_u32(s@),
{
    let n: usize = s.unicode_len();
    if n == 0 {
        return None;
    }
    let mut acc: u64 = 0;
    let mut i: usize = 0;
    while i < n
        invariant
            0 < n == s@.len(),
            0 <= i <= n,
            forall|k: int| 0 <= k < i ==> is_digit(s@[k]),
            acc == dec_value(s@, i as int),
            acc <= u32::MAX,
        decreases n - i,
    {
        let c = s.get_char(i);
        if !('0' <= c && c <= '9') {
            return None;
        }
        let d: u64 = ((c as u32) - 0x30) as u64;
        let next: u64 = acc * 10 + d;
        if next > 0xffff_ffff {
            proof {
                if forall|k: int| 0 <= k < n ==> is_digit(s@[k]) {
                    lemma_dec_value_mono_from(s@, i + 1, n as int);
                }
            }
            return None;
        }
        acc = next;
        i += 1;
    }
    Some(acc as u32)
}

/// Turn a string into its characters.
pub fn str_to_chars(s: &str) -> (r: Vec<char>)
    ensures
        r@ == s@,
{
    let n: usize = s.unicode_len();
    let mut v: Vec<char> = Vec::new();
    let mut i: usize = 0;
    while i < n
        invariant
            0 <= i <= n,
            n == s@.len(),
            v@ == s@.take(i as int),
        decreases n - i,
    {
        v.push(s.get_char(i));
        proof {
            assert(v@ =~= s@.take(i + 1));
        }
        i += 1;
    }
    proof {
        assert(v@ =~= s@);
    }
    v
}

/// Turn characters back into a string.
pub fn chars_to_string(v: &Vec<char>) -> (r: String)
    ensures
        r@ == v@,
{
    let mut s = String::new();
    let mut i: usize = 0;
    while i < v.len()
        invariant
            0 <= i <= v@.len(),
            s@ == v@.take(i as int),
        decreases v@.len() - i,
    {
        string_push(&mut s, v[i]);
        proof {
            assert(s@ =~= v@.take(i + 1));
        }
        i += 1;
    }
    proof {
        assert(s@ =~= v@);
    }
    s
}

/// Equality of two string slices, decided character by character.
pub fn str_eq(a: &str, b: &str) -> (r: bool)
    ensures
        r == (a@ == b@),
{
    let a_len: usize = a.unicode_len();
    let b_len: usize = b.unicode_len();
    if a_len != b_len {
        proof {
            assert(a@ != b@) by {
                assert(a@.len() != b@.len());
            }
        }
        return false;
    }
    let mut i: usize = 0;
    while i < a_len
        invariant
            i <= a_len,
            a_len == a@.len(),
            a_len == b@.len(),
            forall|j: int| 0 <= j < i ==> a@[j] == b@[j],
        decreases a_len - i,
    {
        if a.get_char(i) != b.get_char(i) {
            return false;
        }
        i += 1;
    }
    proof {
        assert(a@ =~= b@);
    }
    true
}

} // verus!
