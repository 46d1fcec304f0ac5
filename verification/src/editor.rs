//! The feature editor's text buffer: multi-line content held as lines,
//! a cursor, an optional selection, and a dirty flag tracking divergence
//! from the last saved content.
//!
//! Columns count characters. Horizontal movement and deletion step over
//! whole grapheme clusters, as segmented by the text's grapheme
//! boundaries.

use vstd::prelude::*;
use vstd::string::StrSliceExecFns;
use vstd::string::StringExecFns;

use crate::strutil::{spec_lines, split_lines, string_push};

verus! {

/// Position within multi-line text content.
#[derive(Clone, Copy, Debug, Default, PartialEq, Eq, PartialOrd, Ord)]
pub struct CursorPosition {
    /// 0-indexed line number.
    pub line: usize,
    /// Character offset within the line.
    pub column: usize,
}

/// Positions ordered first by line, then by column, as reading order
/// does.
pub open spec fn cp_le(a: CursorPosition, b: CursorPosition) -> bool {
    a.line < b.line || (a.line == b.line && a.column <= b.column)
}

impl CursorPosition {
    pub fn new(line: usize, column: usize) -> (r: Self)
        ensures
            r == (CursorPosition { line, column }),
    {
        Self { line, column }
    }

    /// Clamp the column to the line's length.
    pub fn clamp_to_line(&self, line_len: usize) -> (r: Self)
        ensures
            r.line == self.line,
            r.column == if self.column <= line_len {
                self.column as int
            } else {
                line_len as int
            },
    {
        Self {
            line: self.line,
            column: if self.column <= line_len {
                self.column
            } else {
                line_len
            },
        }
    }
}

/// The grapheme clusters of a text, in order. Their concatenation is the
/// text, and none is empty.
pub uninterp spec fn grapheme_clusters(s: Seq<char>) -> Seq<Seq<char>>;

/// Relies on unicode-segmentation's `UnicodeSegmentation::graphemes`
/// (extended clusters): the clusters partition the string, each nonempty.
#[verifier::external_body]
fn graphemes_of(s: &str) -> (r: Vec<String>)
    ensures
        r.deep_view() == grapheme_clusters(s@),
        r.deep_view().flatten() == s@,
        forall|i: int| 0 <= i < r.deep_view().len() ==> r.deep_view()[i].len() > 0,
{
    unicode_segmentation::UnicodeSegmentation::graphemes(s, true).map(|g| g.to_string()).collect()
}

/// The largest grapheme boundary at or below `offset` in a text whose
/// cluster character lengths are `cluster_lens`: boundaries are the
/// partial sums of the cluster lengths, starting at zero.
pub open spec fn prev_boundary_spec(cluster_lens: Seq<int>, offset: int) -> int
    decreases cluster_lens.len(),
{
    if cluster_lens.len() == 0 {
        0
    } else if cluster_lens[0] >= offset || cluster_lens[0] <= 0 {
        0
    } else {
        cluster_lens[0] + prev_boundary_spec(cluster_lens.drop_first(), offset - cluster_lens[0])
    }
}

/// The smallest grapheme boundary strictly above `offset`, or the text's
/// length when the offset is at or past the last boundary.
pub open spec fn next_boundary_spec(cluster_lens: Seq<int>, offset: int) -> int
    decreases cluster_lens.len(),
{
    if cluster_lens.len() == 0 {
        0
    } else if cluster_lens[0] > offset {
        cluster_lens[0]
    } else {
        cluster_lens[0] + next_boundary_spec(cluster_lens.drop_first(), offset - cluster_lens[0])
    }
}

/// The character lengths of a text's grapheme clusters.
pub open spec fn cluster_lens_of(s: Seq<char>) -> Seq<int> {
    grapheme_clusters(s).map_values(|g: Seq<char>| g.len() as int)
}

/// The last grapheme boundary at or before `offset` in `text`.
fn previous_grapheme_boundary(offset: usize, text: &str) -> (r: usize)
    ensures
        r == prev_boundary_spec(cluster_lens_of(text@), offset as int),
        r <= offset,
{
    let clusters = graphemes_of(text);
    let tl: usize = text.unicode_len();
    let ghost dv = clusters.deep_view();
    let ghost lens = cluster_lens_of(text@);
    let mut acc: usize = 0;
    let mut i: usize = 0;
    let n = clusters.len();
    proof {
        assert(dv.skip(0) =~= dv);
        assert(lens.skip(0) =~= lens);
    }
    loop
        invariant_except_break
            0 <= i <= n,
            n == clusters@.len(),
            clusters.deep_view() == dv,
            dv == grapheme_clusters(text@),
            lens == cluster_lens_of(text@),
            tl == text@.len(),
            acc <= offset,
            acc + dv.skip(i as int).flatten().len() == tl,
            prev_boundary_spec(lens, offset as int) == acc + prev_boundary_spec(
                lens.skip(i as int),
                offset - acc,
            ),
        ensures
            prev_boundary_spec(lens, offset as int) == acc,
            acc <= offset,
        decreases n - i,
    {
        proof {
            assert(lens =~= dv.map_values(|g: Seq<char>| g.len() as int));
        }
        if i >= n {
            proof {
                assert(lens.skip(i as int) =~= Seq::<int>::empty());
                assert(dv.skip(i as int) =~= Seq::<Seq<char>>::empty());
                assert(dv.skip(i as int).flatten() =~= Seq::<char>::empty());
            }
            break ;
        }
        let l: usize = clusters[i].as_str().unicode_len();
        proof {
            assert(dv.skip(i as int).first() =~= dv[i as int]);
            assert(dv.skip(i as int).drop_first() =~= dv.skip(i + 1));
            assert(dv.skip(i as int).flatten() == dv.skip(i as int).first() + dv.skip(
                i as int,
            ).drop_first().flatten());
            assert(lens.skip(i as int)[0] == l as int);
            assert(lens.skip(i as int).drop_first() =~= lens.skip(i + 1));
        }
        if l >= offset - acc || l == 0 {
            break ;
        }
        acc = acc + l;
        i += 1;
    }
    acc
}

/// The first grapheme boundary strictly after `offset` in `text`, or the
/// text's length.
fn next_grapheme_boundary(offset: usize, text: &str) -> (r: usize)
    ensures
        r == next_boundary_spec(cluster_lens_of(text@), offset as int),
        r <= text@.len(),
{
    let clusters = graphemes_of(text);
    let tl: usize = text.unicode_len();
    let ghost dv = clusters.deep_view();
    let ghost lens = cluster_lens_of(text@);
    let mut acc: usize = 0;
    let mut i: usize = 0;
    let n = clusters.len();
    proof {
        assert(dv.skip(0) =~= dv);
        assert(lens.skip(0) =~= lens);
    }
    loop
        invariant_except_break
            0 <= i <= n,
            n == clusters@.len(),
            clusters.deep_view() == dv,
            dv == grapheme_clusters(text@),
            lens == cluster_lens_of(text@),
            tl == text@.len(),
            acc <= offset,
            acc + dv.skip(i as int).flatten().len() == tl,
            next_boundary_spec(lens, offset as int) == acc + next_boundary_spec(
                lens.skip(i as int),
                offset - acc,
            ),
        ensures
            next_boundary_spec(lens, offset as int) == acc,
            acc <= tl,
        decreases n - i,
    {
        proof {
            assert(lens =~= dv.map_values(|g: Seq<char>| g.len() as int));
        }
        if i >= n {
            proof {
                assert(lens.skip(i as int) =~= Seq::<int>::empty());
                assert(dv.skip(i as int) =~= Seq::<Seq<char>>::empty());
                assert(dv.skip(i as int).flatten() =~= Seq::<char>::empty());
            }
            break ;
        }
        let l: usize = clusters[i].as_str().unicode_len();
        proof {
            assert(dv.skip(i as int).first() =~= dv[i as int]);
            assert(dv.skip(i as int).drop_first() =~= dv.skip(i + 1));
            assert(dv.skip(i as int).flatten() == dv.skip(i as int).first() + dv.skip(
                i as int,
            ).drop_first().flatten());
            assert(lens.skip(i as int)[0] == l as int);
            assert(lens.skip(i as int).drop_first() =~= lens.skip(i + 1));
        }
        if l > offset - acc {
            acc = acc + l;
            break ;
        }
        acc = acc + l;
        i += 1;
    }
    acc
}

/// The smaller of two values.
pub open spec fn imin(a: int, b: int) -> int {
    if a <= b {
        a
    } else {
        b
    }
}

/// The line at an index, or the empty line beyond the buffer.
pub open spec fn line_at(dv: Seq<Seq<char>>, l: int) -> Seq<char> {
    if 0 <= l < dv.len() {
        dv[l]
    } else {
        Seq::empty()
    }
}

/// The first `i` lines joined with newlines.
pub open spec fn join_pre(dv: Seq<Seq<char>>, i: int) -> Seq<char>
    decreases i,
{
    if i <= 0 {
        Seq::empty()
    } else if i == 1 {
        dv[0]
    } else {
        join_pre(dv, i - 1) + seq!['\n'] + dv[i - 1]
    }
}

/// The buffer's full content: its lines joined with newlines.
pub open spec fn content_spec(dv: Seq<Seq<char>>) -> Seq<char> {
    join_pre(dv, dv.len() as int)
}

/// The lines a fresh buffer holds for given details: one empty line for
/// empty content, and the content's lines otherwise.
pub open spec fn initial_lines(c: Seq<char>) -> Seq<Seq<char>> {
    if c.len() == 0 {
        seq![Seq::<char>::empty()]
    } else {
        spec_lines(c)
    }
}

/// A nonempty text has at least one line.
pub proof fn lemma_lines_nonempty(s: Seq<char>, i: int, cur: Seq<char>)
    requires
        0 <= i,
        i < s.len() || cur.len() > 0,
    ensures
        crate::strutil::lines_acc(s, i, cur).len() >= 1,
    decreases s.len() - i,
{
    if i < s.len() && s[i] != '\n' {
        lemma_lines_nonempty(s, i + 1, cur.push(s[i]));
    }
}

/// The parts of a text split at newlines, keeping empty parts: the text
/// from `i` on, with `cur` the partial part read so far.
pub open spec fn split_plain_acc(s: Seq<char>, i: int, cur: Seq<char>) -> Seq<Seq<char>>
    decreases s.len() - i,
{
    if i < 0 || i >= s.len() {
        seq![cur]
    } else if s[i] == '\n' {
        seq![cur] + split_plain_acc(s, i + 1, Seq::empty())
    } else {
        split_plain_acc(s, i + 1, cur.push(s[i]))
    }
}

/// The parts of a text split at newlines; always at least one part.
pub open spec fn split_plain(s: Seq<char>) -> Seq<Seq<char>> {
    split_plain_acc(s, 0, Seq::empty())
}

pub proof fn lemma_split_plain_nonempty(s: Seq<char>, i: int, cur: Seq<char>)
    requires
        0 <= i,
    ensures
        split_plain_acc(s, i, cur).len() >= 1,
    decreases s.len() - i,
{
    if 0 <= i < s.len() && s[i] != '\n' {
        lemma_split_plain_nonempty(s, i + 1, cur.push(s[i]));
    }
}

/// Split a text at newlines, keeping empty parts.
fn split_plain_exec(s: &str) -> (r: Vec<String>)
    ensures
        r.deep_view() == split_plain(s@),
        r@.len() >= 1,
{
    proof {
        lemma_split_plain_nonempty(s@, 0, Seq::empty());
    }
    let n: usize = s.unicode_len();
    let mut out: Vec<String> = Vec::new();
    let mut cur: String = String::new();
    let mut i: usize = 0;
    while i < n
        invariant
            0 <= i <= n,
            n == s@.len(),
            split_plain(s@) == out.deep_view() + split_plain_acc(s@, i as int, cur@),
        decreases n - i,
    {
        let c = s.get_char(i);
        if c == '\n' {
            let ghost cur0 = cur@;
            let ghost out0 = out.deep_view();
            let done = cur;
            cur = String::new();
            out.push(done);
            proof {
                assert(out.deep_view() =~~= out0.push(cur0));
                assert(out.deep_view() + split_plain_acc(s@, i + 1, Seq::<char>::empty()) =~~= out0
                    + split_plain_acc(s@, i as int, cur0));
            }
        } else {
            string_push(&mut cur, c);
        }
        i += 1;
    }
    let ghost out0 = out.deep_view();
    let ghost cur0 = cur@;
    out.push(cur);
    proof {
        assert(out.deep_view() =~~= out0.push(cur0));
        assert(out.deep_view() =~= split_plain(s@));
    }
    out
}

/// An ordered selection: the earlier of anchor and cursor first.
pub open spec fn sel_range(a: CursorPosition, c: CursorPosition) -> (CursorPosition, CursorPosition) {
    if cp_le(a, c) {
        (a, c)
    } else {
        (c, a)
    }
}

/// The buffer's lines after deleting the ordered selection from `s` to
/// `e`: within one line the span between the clamped columns goes;
/// across lines, the lines are replaced by the start line's head joined
/// with the end line's tail.
pub open spec fn delete_sel_lines(dv: Seq<Seq<char>>, s: CursorPosition, e: CursorPosition) -> Seq<
    Seq<char>,
> {
    if s.line == e.line {
        if s.line < dv.len() {
            let line = dv[s.line as int];
            let sc = imin(s.column as int, line.len() as int);
            let ec = imin(e.column as int, line.len() as int);
            dv.update(s.line as int, line.take(sc) + line.skip(ec))
        } else {
            dv
        }
    } else {
        let sl = line_at(dv, s.line as int);
        let el = line_at(dv, e.line as int);
        let merged = sl.take(imin(s.column as int, sl.len() as int)) + el.skip(
            imin(e.column as int, el.len() as int),
        );
        dv.take(s.line as int) + seq![merged] + dv.skip(e.line + 1)
    }
}

/// The buffer's lines and cursor before an insertion: the selection, if
/// one is active, is deleted first and the cursor sits at its start.
pub open spec fn pre_insert(
    dv: Seq<Seq<char>>,
    cursor: CursorPosition,
    anchor: Option<CursorPosition>,
) -> (Seq<Seq<char>>, CursorPosition) {
    match anchor {
        Some(a) => if a != cursor {
            let se = sel_range(a, cursor);
            (delete_sel_lines(dv, se.0, se.1), se.0)
        } else {
            (dv, cursor)
        },
        None => (dv, cursor),
    }
}

/// The buffer's lines and cursor after inserting `text` at `cur`: a
/// single-part text goes into the current line at the clamped column;
/// a multi-part text replaces the current line with its head joined to
/// the first part, the middle parts, and the last part joined to its
/// tail, with the cursor after the last part.
pub open spec fn insert_lines(dv: Seq<Seq<char>>, cur: CursorPosition, text: Seq<char>) -> (
    Seq<Seq<char>>,
    CursorPosition,
) {
    let parts = split_plain(text);
    if parts.len() == 1 {
        if cur.line < dv.len() {
            let line = dv[cur.line as int];
            let col = imin(cur.column as int, line.len() as int);
            (
                dv.update(cur.line as int, line.take(col) + text + line.skip(col)),
                CursorPosition { line: cur.line, column: (col + text.len()) as usize },
            )
        } else {
            (dv, cur)
        }
    } else {
        let line = line_at(dv, cur.line as int);
        let col = imin(cur.column as int, line.len() as int);
        let first = line.take(col) + parts[0];
        let last = parts.last() + line.skip(col);
        let mid = parts.subrange(1, parts.len() - 1);
        (
            dv.take(cur.line as int) + seq![first] + mid + seq![last] + dv.skip(cur.line + 1),
            CursorPosition {
                line: (cur.line + parts.len() - 1) as usize,
                column: parts.last().len() as usize,
            },
        )
    }
}

/// Append clones of `src[a..b]` to `dst`.
fn extend_clone_range(dst: &mut Vec<String>, src: &Vec<String>, a: usize, b: usize)
    requires
        a <= b <= src@.len(),
    ensures
        final(dst).deep_view() == old(dst).deep_view() + src.deep_view().subrange(
            a as int,
            b as int,
        ),
{
    let mut i: usize = a;
    while i < b
        invariant
            a <= i <= b <= src@.len(),
            dst.deep_view() == old(dst).deep_view() + src.deep_view().subrange(a as int, i as int),
        decreases b - i,
    {
        let ghost pre = dst.deep_view();
        dst.push(src[i].clone());
        proof {
            assert(dst.deep_view() =~~= pre.push(src.deep_view()[i as int]));
            assert(src.deep_view().subrange(a as int, i + 1) =~~= src.deep_view().subrange(
                a as int,
                i as int,
            ).push(src.deep_view()[i as int]));
            assert(dst.deep_view() =~~= old(dst).deep_view() + src.deep_view().subrange(
                a as int,
                i + 1,
            ));
        }
        i += 1;
    }
}

/// How backspace changes a buffer without an active selection: one
/// grapheme cluster before the cursor goes, or at a line start the line
/// is merged into the previous one, and the dirty flag is recomputed.
pub open spec fn backspace_no_sel(pre: FeatureEditorTab, post: FeatureEditorTab) -> bool {
    let dv = pre.dv();
    let c = pre.cursor;
    if c.column > 0 {
        let prev = prev_boundary_spec(cluster_lens_of(line_at(dv, c.line as int)), c.column as int);
        let dv1 = if c.line < dv.len() {
            dv.update(
                c.line as int,
                dv[c.line as int].take(prev) + dv[c.line as int].skip(c.column as int),
            )
        } else {
            dv
        };
        &&& post.dv() == dv1
        &&& post.cursor == (CursorPosition { line: c.line, column: prev as usize })
        &&& post.selection_anchor == pre.selection_anchor
        &&& post.is_dirty == (content_spec(dv1) != pre.original_content@)
    } else if c.line > 0 {
        let l = c.line as int;
        let dv1 = dv.remove(l).update(l - 1, dv[l - 1] + dv[l]);
        &&& post.dv() == dv1
        &&& post.cursor == (CursorPosition {
            line: (c.line - 1) as usize,
            column: dv[l - 1].len() as usize,
        })
        &&& post.selection_anchor == pre.selection_anchor
        &&& post.is_dirty == (content_spec(dv1) != pre.original_content@)
    } else {
        &&& post.dv() == dv
        &&& post.cursor == c
        &&& post.selection_anchor == pre.selection_anchor
        &&& post.is_dirty == (content_spec(dv) != pre.original_content@)
    }
}

/// How forward deletion changes a buffer without an active selection:
/// one grapheme cluster at the cursor goes, or at a line end the next
/// line is merged into this one, and the dirty flag is recomputed.
pub open spec fn delete_no_sel(pre: FeatureEditorTab, post: FeatureEditorTab) -> bool {
    let dv = pre.dv();
    let c = pre.cursor;
    let l = c.line as int;
    let llen = line_at(dv, l).len();
    if c.column < llen {
        let next = next_boundary_spec(cluster_lens_of(dv[l]), c.column as int);
        let dv1 = dv.update(l, dv[l].take(c.column as int) + dv[l].skip(next));
        &&& post.dv() == dv1
        &&& post.cursor == c
        &&& post.selection_anchor == pre.selection_anchor
        &&& post.is_dirty == (content_spec(dv1) != pre.original_content@)
    } else if c.line + 1 < dv.len() {
        let dv1 = dv.remove(l + 1).update(l, dv[l] + dv[l + 1]);
        &&& post.dv() == dv1
        &&& post.cursor == c
        &&& post.selection_anchor == pre.selection_anchor
        &&& post.is_dirty == (content_spec(dv1) != pre.original_content@)
    } else {
        &&& post.dv() == dv
        &&& post.cursor == c
        &&& post.selection_anchor == pre.selection_anchor
        &&& post.is_dirty == (content_spec(dv) != pre.original_content@)
    }
}

/// State for a single feature editor tab.
pub struct FeatureEditorTab {
    /// Unique ID for this tab.
    pub id: usize,
    /// The feature being edited.
    pub feature_id: uuid::Uuid,
    /// Feature title, displayed in the tab.
    pub title: String,
    /// Original content from the server, for dirty detection.
    pub original_content: String,
    /// Content split by lines for multi-line editing.
    pub lines: Vec<String>,
    /// Current cursor position.
    pub cursor: CursorPosition,
    /// Selection anchor; `None` means no active selection.
    pub selection_anchor: Option<CursorPosition>,
    /// True if content has been modified since the last save.
    pub is_dirty: bool,
}

impl FeatureEditorTab {
    /// The buffer always holds at least one line.
    pub open spec fn wf(self) -> bool {
        self.lines.deep_view().len() >= 1
    }

    /// The buffer's lines, as sequences of characters.
    pub open spec fn dv(self) -> Seq<Seq<char>> {
        self.lines.deep_view()
    }

    /// What a selection must satisfy for its deletion not to run off the
    /// buffer: a multi-line selection ends within it.
    pub open spec fn sel_deletable(self) -> bool {
        match self.selection_anchor {
            Some(a) => {
                let se = sel_range(a, self.cursor);
                se.0.line == se.1.line || se.1.line < self.dv().len()
            },
            None => true,
        }
    }

    /// Create a new tab for editing a feature.
    pub fn new(id: usize, feature_id: uuid::Uuid, title: String, details: Option<String>) -> (r:
        Self)
        ensures
            r.id == id,
            r.feature_id == feature_id,
            r.title == title,
            ({
                let c = match details {
                    Some(d) => d@,
                    None => Seq::<char>::empty(),
                };
                &&& r.original_content@ == c
                &&& r.dv() == initial_lines(c)
            }),
            r.cursor == (CursorPosition { line: 0, column: 0 }),
            r.selection_anchor is None,
            !r.is_dirty,
            r.wf(),
    {
        let content = match details {
            Some(d) => d,
            None => String::new(),
        };
        let lines: Vec<String> = if content.as_str().unicode_len() == 0 {
            let mut v: Vec<String> = Vec::new();
            v.push(String::new());
            proof {
                assert(v.deep_view() =~~= initial_lines(content@));
            }
            v
        } else {
            let v = split_lines(content.as_str());
            proof {
                lemma_lines_nonempty(content@, 0, Seq::empty());
            }
            v
        };
        FeatureEditorTab {
            id,
            feature_id,
            title,
            original_content: content,
            lines,
            cursor: CursorPosition { line: 0, column: 0 },
            selection_anchor: None,
            is_dirty: false,
        }
    }

    /// Get the full content as a single string: the lines joined with
    /// newlines.
    pub fn content(&self) -> (r: String)
        ensures
            r@ == content_spec(self.dv()),
    {
        let n = self.lines.len();
        let mut out = String::new();
        let mut i: usize = 0;
        while i < n
            invariant
                0 <= i <= n,
                n == self.lines@.len(),
                out@ == join_pre(self.dv(), i as int),
            decreases n - i,
        {
            if i > 0 {
                string_push(&mut out, '\n');
            }
            out.append(self.lines[i].as_str());
            proof {
                assert(out@ =~= join_pre(self.dv(), i + 1));
            }
            i += 1;
        }
        out
    }

    /// Recompute the dirty flag from the content.
    fn update_dirty(&mut self)
        ensures
            final(self).is_dirty == (content_spec(old(self).dv()) != old(self).original_content@),
            final(self).lines == old(self).lines,
            final(self).cursor == old(self).cursor,
            final(self).selection_anchor == old(self).selection_anchor,
            final(self).original_content == old(self).original_content,
            final(self).id == old(self).id,
            final(self).feature_id == old(self).feature_id,
            final(self).title == old(self).title,
    {
        let c = self.content();
        self.is_dirty = !(c == self.original_content);
    }

    /// Clamp the cursor to valid bounds.
    fn clamp_cursor(&mut self)
        requires
            old(self).wf(),
        ensures
            ({
                let dv = old(self).dv();
                let l = imin(old(self).cursor.line as int, dv.len() - 1);
                &&& final(self).cursor.line == l
                &&& final(self).cursor.column == imin(
                    old(self).cursor.column as int,
                    dv[l].len() as int,
                )
            }),
            final(self).lines == old(self).lines,
            final(self).selection_anchor == old(self).selection_anchor,
            final(self).original_content == old(self).original_content,
            final(self).is_dirty == old(self).is_dirty,
            final(self).id == old(self).id,
            final(self).feature_id == old(self).feature_id,
            final(self).title == old(self).title,
    {
        let max_line = self.lines.len() - 1;
        if self.cursor.line > max_line {
            self.cursor.line = max_line;
        }
        let llen = self.lines[self.cursor.line].as_str().unicode_len();
        if self.cursor.column > llen {
            self.cursor.column = llen;
        }
    }

    /// Set the content and update the dirty state, clamping the cursor to
    /// the new bounds.
    pub fn set_content(&mut self, content: &str)
        ensures
            final(self).dv() == initial_lines(content@),
            final(self).is_dirty == (content_spec(initial_lines(content@)) != old(
                self,
            ).original_content@),
            ({
                let dv = initial_lines(content@);
                let l = imin(old(self).cursor.line as int, dv.len() - 1);
                &&& final(self).cursor.line == l
                &&& final(self).cursor.column == imin(
                    old(self).cursor.column as int,
                    dv[l].len() as int,
                )
            }),
            final(self).selection_anchor == old(self).selection_anchor,
            final(self).original_content == old(self).original_content,
            final(self).wf(),
    {
        if content.unicode_len() == 0 {
            let mut v: Vec<String> = Vec::new();
            v.push(String::new());
            proof {
                assert(v.deep_view() =~~= initial_lines(content@));
            }
            self.lines = v;
        } else {
            self.lines = split_lines(content);
            proof {
                lemma_lines_nonempty(content@, 0, Seq::empty());
            }
        }
        self.update_dirty();
        self.clamp_cursor();
    }

    /// Mark content as saved, resetting the dirty state.
    pub fn mark_saved(&mut self)
        ensures
            final(self).original_content@ == content_spec(old(self).dv()),
            !final(self).is_dirty,
            final(self).lines == old(self).lines,
            final(self).cursor == old(self).cursor,
            final(self).selection_anchor == old(self).selection_anchor,
            final(self).id == old(self).id,
            final(self).feature_id == old(self).feature_id,
            final(self).title == old(self).title,
    {
        self.original_content = self.content();
        self.is_dirty = false;
    }

    /// Get the current line's text, or the empty text beyond the buffer.
    pub fn current_line(&self) -> (r: &str)
        ensures
            r@ == line_at(self.dv(), self.cursor.line as int),
    {
        if self.cursor.line < self.lines.len() {
            self.lines[self.cursor.line].as_str()
        } else {
            let r = "";
            proof {
                reveal_strlit("");
                assert(r@ =~= line_at(self.dv(), self.cursor.line as int));
            }
            r
        }
    }

    /// Get the length of the current line, in characters.
    pub fn current_line_len(&self) -> (r: usize)
        ensures
            r == line_at(self.dv(), self.cursor.line as int).len(),
    {
        self.current_line().unicode_len()
    }

    /// Get the total number of lines.
    pub fn line_count(&self) -> (r: usize)
        ensures
            r == self.dv().len(),
    {
        self.lines.len()
    }

    /// Get the selected range's endpoints in reading order, if a
    /// selection anchor is set.
    pub fn selection_bounds(&self) -> (r: Option<(CursorPosition, CursorPosition)>)
        ensures
            match r {
                Some(b) => self.selection_anchor matches Some(a) && (b.0, b.1) == sel_range(
                    a,
                    self.cursor,
                ),
                None => self.selection_anchor is None,
            },
    {
        match self.selection_anchor {
            Some(a) => {
                if a.line < self.cursor.line || (a.line == self.cursor.line && a.column
                    <= self.cursor.column) {
                    Some((a, self.cursor))
                } else {
                    Some((self.cursor, a))
                }
            },
            None => None,
        }
    }

    /// Check if there is an active selection.
    pub fn has_selection(&self) -> (r: bool)
        ensures
            r == match self.selection_anchor {
                Some(a) => a != self.cursor,
                None => false,
            },
    {
        match self.selection_anchor {
            Some(a) => a.line != self.cursor.line || a.column != self.cursor.column,
            None => false,
        }
    }

    /// Clear the selection.
    pub fn clear_selection(&mut self)
        ensures
            *final(self) == (FeatureEditorTab { selection_anchor: None, ..*old(self) }),
    {
        self.selection_anchor = None;
    }

    /// Delete the selected text: the cursor moves to the selection's
    /// start and the selection is cleared.
    pub fn delete_selection(&mut self)
        requires
            old(self).wf(),
            old(self).sel_deletable(),
        ensures
            match old(self).selection_anchor {
                Some(a) => {
                    let se = sel_range(a, old(self).cursor);
                    let dv1 = delete_sel_lines(old(self).dv(), se.0, se.1);
                    &&& final(self).dv() == dv1
                    &&& final(self).cursor == se.0
                    &&& final(self).selection_anchor is None
                    &&& final(self).is_dirty == (content_spec(dv1) != old(
                        self,
                    ).original_content@)
                },
                None => *final(self) == *old(self),
            },
            final(self).original_content == old(self).original_content,
            final(self).id == old(self).id,
            final(self).feature_id == old(self).feature_id,
            final(self).title == old(self).title,
            final(self).wf(),
    {
        let bounds = self.selection_bounds();
        if let Some((start, end)) = bounds {
            if start.line == end.line {
                if start.line < self.lines.len() {
                    let ghost dv0 = self.dv();
                    let line = self.lines[start.line].clone();
                    let llen = line.as_str().unicode_len();
                    let sc = if start.column <= llen {
                        start.column
                    } else {
                        llen
                    };
                    let ec = if end.column <= llen {
                        end.column
                    } else {
                        llen
                    };
                    let mut newline = line.as_str().substring_char(0, sc).to_owned();
                    newline.append(line.as_str().substring_char(ec, llen));
                    self.lines.remove(start.line);
                    self.lines.insert(start.line, newline);
                    proof {
                        assert(self.dv() =~~= delete_sel_lines(dv0, start, end));
                    }
                }
            } else {
                let ghost dv0 = self.dv();
                let sl = self.lines[start.line].clone();
                let el = self.lines[end.line].clone();
                let sllen = sl.as_str().unicode_len();
                let ellen = el.as_str().unicode_len();
                let sc = if start.column <= sllen {
                    start.column
                } else {
                    sllen
                };
                let ec = if end.column <= ellen {
                    end.column
                } else {
                    ellen
                };
                let mut merged = sl.as_str().substring_char(0, sc).to_owned();
                merged.append(el.as_str().substring_char(ec, ellen));
                let mut nl: Vec<String> = Vec::new();
                extend_clone_range(&mut nl, &self.lines, 0, start.line);
                nl.push(merged);
                let total = self.lines.len();
                extend_clone_range(&mut nl, &self.lines, end.line + 1, total);
                self.lines = nl;
                proof {
                    assert(self.dv() =~~= delete_sel_lines(dv0, start, end));
                }
            }
            self.cursor = start;
            self.clear_selection();
            self.update_dirty();
        }
    }

    /// Insert text at the cursor, replacing the selection if one is
    /// active. A text with newlines splits the current line around the
    /// inserted lines; the cursor ends after the inserted text.
    pub fn insert_text(&mut self, text: &str)
        requires
            old(self).wf(),
            old(self).sel_deletable(),
            ({
                let st = pre_insert(old(self).dv(), old(self).cursor, old(self).selection_anchor);
                let parts = split_plain(text@);
                &&& (parts.len() == 1 || st.1.line < st.0.len())
                &&& line_at(st.0, st.1.line as int).len() + text@.len() + 2 < usize::MAX
                &&& st.0.len() + parts.len() < usize::MAX
                &&& st.1.line + parts.len() < usize::MAX
            }),
        ensures
            ({
                let st = pre_insert(old(self).dv(), old(self).cursor, old(self).selection_anchor);
                let ins = insert_lines(st.0, st.1, text@);
                &&& final(self).dv() == ins.0
                &&& final(self).cursor == ins.1
                &&& final(self).selection_anchor is None
                &&& final(self).is_dirty == (content_spec(ins.0) != old(self).original_content@)
            }),
            final(self).original_content == old(self).original_content,
            final(self).id == old(self).id,
            final(self).feature_id == old(self).feature_id,
            final(self).title == old(self).title,
    {
        if self.has_selection() {
            self.delete_selection();
        }
        proof {
            let st = pre_insert(old(self).dv(), old(self).cursor, old(self).selection_anchor);
            assert(self.dv() == st.0);
            assert(self.cursor == st.1);
        }
        let parts = split_plain_exec(text);
        if parts.len() == 1 {
            if self.cursor.line < self.lines.len() {
                let ghost dv1 = self.dv();
                let ghost c1 = self.cursor;
                let line = self.lines[self.cursor.line].clone();
                let llen = line.as_str().unicode_len();
                let col = if self.cursor.column <= llen {
                    self.cursor.column
                } else {
                    llen
                };
                let mut nl = line.as_str().substring_char(0, col).to_owned();
                nl.append(text);
                nl.append(line.as_str().substring_char(col, llen));
                self.lines.remove(self.cursor.line);
                self.lines.insert(self.cursor.line, nl);
                self.cursor.column = col + text.unicode_len();
                proof {
                    assert(self.dv() =~~= insert_lines(dv1, c1, text@).0);
                }
            }
        } else {
            let ghost dv1 = self.dv();
            let ghost c1 = self.cursor;
            let cline = self.lines[self.cursor.line].clone();
            let llen = cline.as_str().unicode_len();
            let col = if self.cursor.column <= llen {
                self.cursor.column
            } else {
                llen
            };
            let last_part_len = parts[parts.len() - 1].as_str().unicode_len();
            let mut first = cline.as_str().substring_char(0, col).to_owned();
            first.append(parts[0].as_str());
            let mut last = parts[parts.len() - 1].clone();
            last.append(cline.as_str().substring_char(col, llen));
            let ghost firstv = first@;
            let ghost lastv = last@;
            let mut nl: Vec<String> = Vec::new();
            extend_clone_range(&mut nl, &self.lines, 0, self.cursor.line);
            let ghost s1 = nl.deep_view();
            nl.push(first);
            proof {
                assert(nl.deep_view() =~~= s1.push(firstv));
            }
            let ghost s2 = nl.deep_view();
            extend_clone_range(&mut nl, &parts, 1, parts.len() - 1);
            let ghost s3 = nl.deep_view();
            nl.push(last);
            proof {
                assert(nl.deep_view() =~~= s3.push(lastv));
            }
            let total = self.lines.len();
            extend_clone_range(&mut nl, &self.lines, self.cursor.line + 1, total);
            self.lines = nl;
            self.cursor.line = self.cursor.line + parts.len() - 1;
            self.cursor.column = last_part_len;
            proof {
                let p = split_plain(text@);
                let line = line_at(dv1, c1.line as int);
                let colg = imin(c1.column as int, line.len() as int);
                assert(parts.deep_view() == p);
                assert(firstv =~= line.take(colg) + p[0]);
                assert(lastv =~= p.last() + line.skip(colg));
                assert(self.dv() =~~= dv1.subrange(0, c1.line as int) + seq![firstv] + p.subrange(
                    1,
                    p.len() - 1,
                ) + seq![lastv] + dv1.subrange(c1.line + 1, dv1.len() as int));
                assert(insert_lines(dv1, c1, text@).0 =~~= dv1.subrange(0, c1.line as int)
                    + seq![firstv] + p.subrange(1, p.len() - 1) + seq![lastv] + dv1.subrange(
                    c1.line + 1,
                    dv1.len() as int,
                ));
                assert(self.dv() =~~= insert_lines(dv1, c1, text@).0);
            }
        }
        self.clear_selection();
        self.update_dirty();
    }

    /// Insert a newline at the cursor, splitting the current line;
    /// a selection, if active, is deleted first.
    pub fn insert_newline(&mut self)
        requires
            old(self).wf(),
            old(self).sel_deletable(),
            ({
                let st = pre_insert(old(self).dv(), old(self).cursor, old(self).selection_anchor);
                st.1.line < st.0.len()
            }),
        ensures
            ({
                let st = pre_insert(old(self).dv(), old(self).cursor, old(self).selection_anchor);
                let l = st.1.line as int;
                let line = st.0[l];
                let col = imin(st.1.column as int, line.len() as int);
                let dv2 = st.0.update(l, line.take(col)).insert(l + 1, line.skip(col));
                &&& final(self).dv() == dv2
                &&& final(self).cursor == (CursorPosition {
                    line: (st.1.line + 1) as usize,
                    column: 0,
                })
                &&& final(self).is_dirty == (content_spec(dv2) != old(self).original_content@)
            }),
            final(self).original_content == old(self).original_content,
            final(self).id == old(self).id,
            final(self).feature_id == old(self).feature_id,
            final(self).title == old(self).title,
            final(self).wf(),
    {
        if self.has_selection() {
            self.delete_selection();
        }
        let ghost dv1 = self.dv();
        let ghost c1 = self.cursor;
        let current = self.lines[self.cursor.line].clone();
        let llen = current.as_str().unicode_len();
        let col = if self.cursor.column <= llen {
            self.cursor.column
        } else {
            llen
        };
        let before = current.as_str().substring_char(0, col).to_owned();
        let after = current.as_str().substring_char(col, llen).to_owned();
        let total = self.lines.len();
        self.lines.remove(self.cursor.line);
        self.lines.insert(self.cursor.line, before);
        self.lines.insert(self.cursor.line + 1, after);
        self.cursor.line = self.cursor.line + 1;
        self.cursor.column = 0;
        proof {
            let l = c1.line as int;
            let colg = imin(c1.column as int, dv1[l].len() as int);
            assert(self.dv() =~~= dv1.update(l, dv1[l].take(colg)).insert(
                l + 1,
                dv1[l].skip(colg),
            ));
        }
        self.update_dirty();
    }

    /// Delete backward: the selection when one is active; otherwise one
    /// grapheme cluster before the cursor; at a line start, the line is
    /// merged into the previous one.
    pub fn backspace(&mut self)
        requires
            old(self).wf(),
            old(self).sel_deletable(),
            ({
                let dv = old(self).dv();
                let c = old(self).cursor;
                let no_sel = match old(self).selection_anchor {
                    Some(a) => a == c,
                    None => true,
                };
                &&& (no_sel && c.column > 0 && c.line < dv.len() ==> c.column <= dv[c.line as int].len())
                &&& (no_sel && c.column == 0 && c.line > 0 ==> c.line < dv.len())
            }),
        ensures
            ({
                let dv = old(self).dv();
                let c = old(self).cursor;
                match old(self).selection_anchor {
                    Some(a) => if a != c {
                        let se = sel_range(a, c);
                        let dv1 = delete_sel_lines(dv, se.0, se.1);
                        &&& final(self).dv() == dv1
                        &&& final(self).cursor == se.0
                        &&& final(self).selection_anchor is None
                        &&& final(self).is_dirty == (content_spec(dv1) != old(
                            self,
                        ).original_content@)
                    } else {
                        backspace_no_sel(*old(self), *final(self))
                    },
                    None => backspace_no_sel(*old(self), *final(self)),
                }
            }),
            final(self).original_content == old(self).original_content,
            final(self).id == old(self).id,
            final(self).feature_id == old(self).feature_id,
            final(self).title == old(self).title,
    {
        if self.has_selection() {
            self.delete_selection();
            return ;
        }
        if self.cursor.column > 0 {
            let prev = previous_grapheme_boundary(self.cursor.column, self.current_line());
            if self.cursor.line < self.lines.len() {
                let ghost dv0 = self.dv();
                let line = self.lines[self.cursor.line].clone();
                let llen = line.as_str().unicode_len();
                let mut newline = line.as_str().substring_char(0, prev).to_owned();
                newline.append(line.as_str().substring_char(self.cursor.column, llen));
                self.lines.remove(self.cursor.line);
                self.lines.insert(self.cursor.line, newline);
                proof {
                    assert(self.dv() =~~= dv0.update(
                        old(self).cursor.line as int,
                        dv0[old(self).cursor.line as int].take(prev as int) + dv0[old(
                            self,
                        ).cursor.line as int].skip(old(self).cursor.column as int),
                    ));
                }
            }
            self.cursor.column = prev;
        } else if self.cursor.line > 0 {
            let ghost dv0 = self.dv();
            let current = self.lines.remove(self.cursor.line);
            self.cursor.line = self.cursor.line - 1;
            let prev_len = self.lines[self.cursor.line].as_str().unicode_len();
            self.cursor.column = prev_len;
            let mut merged = self.lines[self.cursor.line].clone();
            merged.append(current.as_str());
            self.lines.remove(self.cursor.line);
            self.lines.insert(self.cursor.line, merged);
            proof {
                let l = old(self).cursor.line as int;
                assert(self.dv() =~~= dv0.remove(l).update(l - 1, dv0[l - 1] + dv0[l]));
            }
        }
        self.update_dirty();
    }

    /// Delete forward: the selection when one is active; otherwise one
    /// grapheme cluster at the cursor; at a line end, the next line is
    /// merged into this one.
    pub fn delete(&mut self)
        requires
            old(self).wf(),
            old(self).sel_deletable(),
        ensures
            ({
                let dv = old(self).dv();
                let c = old(self).cursor;
                match old(self).selection_anchor {
                    Some(a) => if a != c {
                        let se = sel_range(a, c);
                        let dv1 = delete_sel_lines(dv, se.0, se.1);
                        &&& final(self).dv() == dv1
                        &&& final(self).cursor == se.0
                        &&& final(self).selection_anchor is None
                        &&& final(self).is_dirty == (content_spec(dv1) != old(
                            self,
                        ).original_content@)
                    } else {
                        delete_no_sel(*old(self), *final(self))
                    },
                    None => delete_no_sel(*old(self), *final(self)),
                }
            }),
            final(self).original_content == old(self).original_content,
            final(self).id == old(self).id,
            final(self).feature_id == old(self).feature_id,
            final(self).title == old(self).title,
    {
        if self.has_selection() {
            self.delete_selection();
            return ;
        }
        let line_len = if self.cursor.line < self.lines.len() {
            self.lines[self.cursor.line].as_str().unicode_len()
        } else {
            0
        };
        let total_lines = self.lines.len();
        if self.cursor.column < line_len {
            let next = next_grapheme_boundary(self.cursor.column, self.current_line());
            let ghost dv0 = self.dv();
            let line = self.lines[self.cursor.line].clone();
            let mut newline = line.as_str().substring_char(0, self.cursor.column).to_owned();
            newline.append(line.as_str().substring_char(next, line_len));
            self.lines.remove(self.cursor.line);
            self.lines.insert(self.cursor.line, newline);
            proof {
                let l = old(self).cursor.line as int;
                assert(self.dv() =~~= dv0.update(
                    l,
                    dv0[l].take(old(self).cursor.column as int) + dv0[l].skip(next as int),
                ));
            }
        } else if self.cursor.line < total_lines - 1 {
            let ghost dv0 = self.dv();
            let next_line = self.lines.remove(self.cursor.line + 1);
            let mut merged = self.lines[self.cursor.line].clone();
            merged.append(next_line.as_str());
            self.lines.remove(self.cursor.line);
            self.lines.insert(self.cursor.line, merged);
            proof {
                let l = old(self).cursor.line as int;
                assert(self.dv() =~~= dv0.remove(l + 1).update(l, dv0[l] + dv0[l + 1]));
            }
        }
        self.update_dirty();
    }

    /// Move the cursor left by one grapheme cluster, or to the end of the
    /// previous line; any selection is cleared.
    pub fn move_left(&mut self)
        ensures
            ({
                let dv = old(self).dv();
                let c = old(self).cursor;
                if c.column > 0 {
                    final(self).cursor == (CursorPosition {
                        line: c.line,
                        column: prev_boundary_spec(
                            cluster_lens_of(line_at(dv, c.line as int)),
                            c.column as int,
                        ) as usize,
                    })
                } else if c.line > 0 {
                    final(self).cursor == (CursorPosition {
                        line: (c.line - 1) as usize,
                        column: line_at(dv, c.line - 1).len() as usize,
                    })
                } else {
                    final(self).cursor == c
                }
            }),
            final(self).selection_anchor is None,
            final(self).lines == old(self).lines,
            final(self).is_dirty == old(self).is_dirty,
            final(self).original_content == old(self).original_content,
            final(self).id == old(self).id,
            final(self).feature_id == old(self).feature_id,
            final(self).title == old(self).title,
    {
        self.clear_selection();
        if self.cursor.column > 0 {
            let prev = previous_grapheme_boundary(self.cursor.column, self.current_line());
            self.cursor.column = prev;
        } else if self.cursor.line > 0 {
            self.cursor.line = self.cursor.line - 1;
            self.cursor.column = self.current_line_len();
        }
    }

    /// Move the cursor right by one grapheme cluster, or to the start of
    /// the next line; any selection is cleared.
    pub fn move_right(&mut self)
        requires
            old(self).wf(),
        ensures
            ({
                let dv = old(self).dv();
                let c = old(self).cursor;
                let llen = line_at(dv, c.line as int).len();
                if c.column < llen {
                    final(self).cursor == (CursorPosition {
                        line: c.line,
                        column: next_boundary_spec(
                            cluster_lens_of(line_at(dv, c.line as int)),
                            c.column as int,
                        ) as usize,
                    })
                } else if c.line + 1 < dv.len() {
                    final(self).cursor == (CursorPosition { line: (c.line + 1) as usize, column: 0 })
                } else {
                    final(self).cursor == c
                }
            }),
            final(self).selection_anchor is None,
            final(self).lines == old(self).lines,
            final(self).is_dirty == old(self).is_dirty,
            final(self).original_content == old(self).original_content,
            final(self).id == old(self).id,
            final(self).feature_id == old(self).feature_id,
            final(self).title == old(self).title,
    {
        self.clear_selection();
        let line_len = self.current_line_len();
        if self.cursor.column < line_len {
            let next = next_grapheme_boundary(self.cursor.column, self.current_line());
            self.cursor.column = next;
        } else if self.cursor.line < self.lines.len() - 1 {
            self.cursor.line = self.cursor.line + 1;
            self.cursor.column = 0;
        }
    }

    /// Move the cursor up one line, clamping the column; any selection is
    /// cleared.
    pub fn move_up(&mut self)
        ensures
            ({
                let dv = old(self).dv();
                let c = old(self).cursor;
                if c.line > 0 {
                    final(self).cursor == (CursorPosition {
                        line: (c.line - 1) as usize,
                        column: imin(c.column as int, line_at(dv, c.line - 1).len() as int) as usize,
                    })
                } else {
                    final(self).cursor == c
                }
            }),
            final(self).selection_anchor is None,
            final(self).lines == old(self).lines,
            final(self).is_dirty == old(self).is_dirty,
            final(self).original_content == old(self).original_content,
            final(self).id == old(self).id,
            final(self).feature_id == old(self).feature_id,
            final(self).title == old(self).title,
    {
        self.clear_selection();
        if self.cursor.line > 0 {
            self.cursor.line = self.cursor.line - 1;
            let llen = self.current_line_len();
            if self.cursor.column > llen {
                self.cursor.column = llen;
            }
        }
    }

    /// Move the cursor down one line, clamping the column; any selection
    /// is cleared.
    pub fn move_down(&mut self)
        requires
            old(self).wf(),
        ensures
            ({
                let dv = old(self).dv();
                let c = old(self).cursor;
                if c.line + 1 < dv.len() {
                    final(self).cursor == (CursorPosition {
                        line: (c.line + 1) as usize,
                        column: imin(c.column as int, line_at(dv, c.line + 1).len() as int) as usize,
                    })
                } else {
                    final(self).cursor == c
                }
            }),
            final(self).selection_anchor is None,
            final(self).lines == old(self).lines,
            final(self).is_dirty == old(self).is_dirty,
            final(self).original_content == old(self).original_content,
            final(self).id == old(self).id,
            final(self).feature_id == old(self).feature_id,
            final(self).title == old(self).title,
    {
        self.clear_selection();
        if self.cursor.line < self.lines.len() - 1 {
            self.cursor.line = self.cursor.line + 1;
            let llen = self.current_line_len();
            if self.cursor.column > llen {
                self.cursor.column = llen;
            }
        }
    }

    /// Move the cursor to the start of the line; any selection is
    /// cleared.
    pub fn move_to_line_start(&mut self)
        ensures
            final(self).cursor == (CursorPosition { line: old(self).cursor.line, column: 0 }),
            final(self).selection_anchor is None,
            final(self).lines == old(self).lines,
            final(self).is_dirty == old(self).is_dirty,
            final(self).original_content == old(self).original_content,
            final(self).id == old(self).id,
            final(self).feature_id == old(self).feature_id,
            final(self).title == old(self).title,
    {
        self.clear_selection();
        self.cursor.column = 0;
    }

    /// Move the cursor to the end of the line; any selection is cleared.
    pub fn move_to_line_end(&mut self)
        ensures
            final(self).cursor == (CursorPosition {
                line: old(self).cursor.line,
                column: line_at(old(self).dv(), old(self).cursor.line as int).len() as usize,
            }),
            final(self).selection_anchor is None,
            final(self).lines == old(self).lines,
            final(self).is_dirty == old(self).is_dirty,
            final(self).original_content == old(self).original_content,
            final(self).id == old(self).id,
            final(self).feature_id == old(self).feature_id,
            final(self).title == old(self).title,
    {
        self.clear_selection();
        self.cursor.column = self.current_line_len();
    }

    /// Move the cursor to the start of the document; any selection is
    /// cleared.
    pub fn move_to_start(&mut self)
        ensures
            final(self).cursor == (CursorPosition { line: 0, column: 0 }),
            final(self).selection_anchor is None,
            final(self).lines == old(self).lines,
            final(self).is_dirty == old(self).is_dirty,
            final(self).original_content == old(self).original_content,
            final(self).id == old(self).id,
            final(self).feature_id == old(self).feature_id,
            final(self).title == old(self).title,
    {
        self.clear_selection();
        self.cursor = CursorPosition { line: 0, column: 0 };
    }

    /// Move the cursor to the end of the document; any selection is
    /// cleared.
    pub fn move_to_end(&mut self)
        requires
            old(self).wf(),
        ensures
            final(self).cursor == (CursorPosition {
                line: (old(self).dv().len() - 1) as usize,
                column: line_at(old(self).dv(), old(self).dv().len() - 1).len() as usize,
            }),
            final(self).selection_anchor is None,
            final(self).lines == old(self).lines,
            final(self).is_dirty == old(self).is_dirty,
            final(self).original_content == old(self).original_content,
            final(self).id == old(self).id,
            final(self).feature_id == old(self).feature_id,
            final(self).title == old(self).title,
    {
        self.clear_selection();
        self.cursor.line = self.lines.len() - 1;
        self.cursor.column = self.current_line_len();
    }

    /// Select all content: the anchor at the start, the cursor at the
    /// end.
    pub fn select_all(&mut self)
        requires
            old(self).wf(),
        ensures
            final(self).selection_anchor == Some(CursorPosition { line: 0, column: 0 }),
            final(self).cursor == (CursorPosition {
                line: (old(self).dv().len() - 1) as usize,
                column: line_at(old(self).dv(), old(self).dv().len() - 1).len() as usize,
            }),
            final(self).lines == old(self).lines,
            final(self).is_dirty == old(self).is_dirty,
            final(self).original_content == old(self).original_content,
            final(self).id == old(self).id,
            final(self).feature_id == old(self).feature_id,
            final(self).title == old(self).title,
    {
        self.cursor = CursorPosition { line: 0, column: 0 };
        self.selection_anchor = Some(CursorPosition { line: 0, column: 0 });
        self.cursor.line = self.lines.len() - 1;
        self.cursor.column = self.current_line_len();
    }

    /// Start a selection at the cursor, unless one is already active.
    pub fn start_selection(&mut self)
        ensures
            final(self).selection_anchor == match old(self).selection_anchor {
                Some(a) => Some(a),
                None => Some(old(self).cursor),
            },
            final(self).lines == old(self).lines,
            final(self).cursor == old(self).cursor,
            final(self).is_dirty == old(self).is_dirty,
            final(self).original_content == old(self).original_content,
            final(self).id == old(self).id,
            final(self).feature_id == old(self).feature_id,
            final(self).title == old(self).title,
    {
        if self.selection_anchor.is_none() {
            self.selection_anchor = Some(self.cursor);
        }
    }
}

} // verus!

