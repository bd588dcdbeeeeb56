//! Parsing of `git status --porcelain=v1` output into file status entries.
//!
//! Each line carries an index (staged) status character, a worktree
//! (unstaged) status character, a space, and the path; a renamed entry shows
//! `old -> new` and only the new path is reported. A line yields up to two
//! entries: one for a staged change and one for an unstaged change.

use vstd::prelude::*;
use crate::validate::char_is_whitespace;

verus! {

/// One entry of a parsed `git status` listing.
#[derive(Debug, Clone)]
pub struct GitFileStatus {
    /// Relative file path.
    pub path: String,
    /// Status code (`M`, `A`, `D`, `R`, `C` or `?`).
    pub status: String,
    /// Whether the change is staged.
    pub is_staged: bool,
    /// Display label for the status.
    pub status_label: String,
}

/// The mathematical value of a `GitFileStatus`.
pub struct GitStatusView {
    pub path: Seq<char>,
    pub status: Seq<char>,
    pub is_staged: bool,
    pub status_label: Seq<char>,
}

impl View for GitFileStatus {
    type V = GitStatusView;

    open spec fn view(&self) -> GitStatusView {
        GitStatusView {
            path: self.path@,
            status: self.status@,
            is_staged: self.is_staged,
            status_label: self.status_label@,
        }
    }
}

/// Index of the first `'\n'` in `s`, or `s.len()` if there is none.
pub open spec fn first_nl(s: Seq<char>) -> nat
    decreases s.len(),
{
    if s.len() == 0 {
        0
    } else if s[0] == '\n' {
        0
    } else {
        1 + first_nl(s.skip(1))
    }
}

/// A scan that saw no newline before `k` pinned one at `k` (or ran out):
/// `first_nl` is exactly `k`.
pub proof fn lemma_first_nl_at(s: Seq<char>, k: nat)
    requires
        k <= s.len(),
        forall|j: int| 0 <= j < k ==> s[j] != '\n',
        k < s.len() ==> s[k as int] == '\n',
    ensures
        first_nl(s) == k,
    decreases s.len(),
{
    if s.len() > 0 && s[0] != '\n' {
        assert(k > 0);
        assert forall|j: int| 0 <= j < k - 1 implies s.skip(1)[j] != '\n' by {
            assert(s.skip(1)[j] == s[j + 1]);
        }
        if k - 1 < s.skip(1).len() {
            assert(s.skip(1)[k - 1] == s[k as int]);
        }
        lemma_first_nl_at(s.skip(1), (k - 1) as nat);
    }
}

/// A line's trailing carriage return, stripped.
pub open spec fn strip_cr(l: Seq<char>) -> Seq<char> {
    if l.len() > 0 && l.last() == '\r' {
        l.drop_last()
    } else {
        l
    }
}

/// The sequence with leading whitespace removed.
pub open spec fn trim_start(l: Seq<char>) -> Seq<char>
    decreases l.len(),
{
    if l.len() > 0 && char_is_whitespace(l[0]) {
        trim_start(l.skip(1))
    } else {
        l
    }
}

/// The sequence with trailing whitespace removed.
pub open spec fn trim_end(l: Seq<char>) -> Seq<char>
    decreases l.len(),
{
    if l.len() > 0 && char_is_whitespace(l.last()) {
        trim_end(l.drop_last())
    } else {
        l
    }
}

/// The sequence with whitespace removed from both ends.
pub open spec fn trim_ws(l: Seq<char>) -> Seq<char> {
    trim_end(trim_start(l))
}

/// A scan that skipped whitespace up to the first non-whitespace character
/// at `i` computed `trim_start`.
pub proof fn lemma_trim_start_at(l: Seq<char>, i: nat)
    requires
        i <= l.len(),
        forall|j: int| 0 <= j < i ==> char_is_whitespace(#[trigger] l[j]),
        i < l.len() ==> !char_is_whitespace(l[i as int]),
    ensures
        trim_start(l) == l.skip(i as int),
    decreases i,
{
    if i == 0 {
        assert(l.skip(0) =~= l);
    } else {
        assert(char_is_whitespace(l[0]));
        assert forall|j: int| 0 <= j < i - 1 implies char_is_whitespace(#[trigger] l.skip(1)[j]) by {
            assert(l.skip(1)[j] == l[j + 1]);
        }
        if i - 1 < l.skip(1).len() {
            assert(l.skip(1)[i - 1] == l[i as int]);
        }
        lemma_trim_start_at(l.skip(1), (i - 1) as nat);
        assert(l.skip(1).skip(i - 1) =~= l.skip(i as int));
    }
}

/// A scan that skipped trailing whitespace down to the last non-whitespace
/// character before `j` computed `trim_end`.
pub proof fn lemma_trim_end_at(l: Seq<char>, j: nat)
    requires
        j <= l.len(),
        forall|k: int| j <= k < l.len() ==> char_is_whitespace(#[trigger] l[k]),
        j > 0 ==> !char_is_whitespace(l[j - 1]),
    ensures
        trim_end(l) == l.take(j as int),
    decreases l.len(),
{
    if j == l.len() {
        if l.len() > 0 && char_is_whitespace(l.last()) {
            assert(j > 0 && l[j - 1] == l.last());
            assert(false);
        }
        assert(l.take(j as int) =~= l);
    } else {
        assert(char_is_whitespace(l.last()));
        assert forall|k: int| j <= k < l.drop_last().len() implies char_is_whitespace(
            #[trigger] l.drop_last()[k],
        ) by {
            assert(l.drop_last()[k] == l[k]);
        }
        if j > 0 {
            assert(l.drop_last()[j - 1] == l[j - 1]);
        }
        lemma_trim_end_at(l.drop_last(), j);
        assert(l.drop_last().take(j as int) =~= l.take(j as int));
    }
}

/// Whether the rename separator ` -> ` sits at position `i` of `p`.
pub open spec fn arrow_at(p: Seq<char>, i: int) -> bool {
    &&& 0 <= i && i + 4 <= p.len()
    &&& p[i] == ' '
    &&& p[i + 1] == '-'
    &&& p[i + 2] == '>'
    &&& p[i + 3] == ' '
}

/// Position of the first rename separator of `p`; `first_arrow(p) + 4 >
/// p.len()` means there is none.
pub open spec fn first_arrow(p: Seq<char>) -> nat
    decreases p.len(),
{
    if p.len() < 4 {
        p.len()
    } else if arrow_at(p, 0) {
        0
    } else {
        1 + first_arrow(p.skip(1))
    }
}

/// A scan that found the first rename separator at `k` computed
/// `first_arrow`.
pub proof fn lemma_first_arrow_at(p: Seq<char>, k: nat)
    requires
        forall|m: int| 0 <= m < k ==> !arrow_at(p, m),
        k + 4 <= p.len(),
        arrow_at(p, k as int),
    ensures
        first_arrow(p) == k,
    decreases p.len(),
{
    if arrow_at(p, 0) {
        if k > 0 {
            assert(!arrow_at(p, 0));
            assert(false);
        }
    } else {
        assert(k > 0);
        assert forall|m: int| 0 <= m < k - 1 implies !arrow_at(p.skip(1), m) by {
            if arrow_at(p.skip(1), m) {
                assert(p.skip(1)[m] == p[m + 1]);
                assert(p.skip(1)[m + 1] == p[m + 2]);
                assert(p.skip(1)[m + 2] == p[m + 3]);
                assert(p.skip(1)[m + 3] == p[m + 4]);
                assert(arrow_at(p, m + 1));
            }
        }
        assert(p.skip(1)[k - 1] == p[k as int]);
        assert(p.skip(1)[k as int] == p[k as int + 1]);
        assert(p.skip(1)[k as int + 1] == p[k as int + 2]);
        assert(p.skip(1)[k as int + 2] == p[k as int + 3]);
        assert(arrow_at(p.skip(1), k - 1));
        lemma_first_arrow_at(p.skip(1), (k - 1) as nat);
    }
}

/// A scan that found no rename separator shows there is none.
pub proof fn lemma_first_arrow_none(p: Seq<char>)
    requires
        forall|m: int| !arrow_at(p, m),
    ensures
        first_arrow(p) + 4 > p.len(),
    decreases p.len(),
{
    if p.len() >= 4 {
        assert(!arrow_at(p, 0));
        assert forall|m: int| !arrow_at(p.skip(1), m) by {
            if 0 <= m && m + 4 <= p.skip(1).len() && arrow_at(p.skip(1), m) {
                assert(p.skip(1)[m] == p[m + 1]);
                assert(p.skip(1)[m + 1] == p[m + 2]);
                assert(p.skip(1)[m + 2] == p[m + 3]);
                assert(p.skip(1)[m + 3] == p[m + 4]);
                assert(arrow_at(p, m + 1));
            }
        }
        lemma_first_arrow_none(p.skip(1));
    }
}

/// The path to display: the part after the last rename separator, found by
/// repeatedly splitting at the first ` -> ` (so `old -> new` reports `new`;
/// a path without the separator is reported whole).
pub open spec fn display_path(p: Seq<char>) -> Seq<char>
    decreases p.len(),
{
    let i = first_arrow(p);
    if i + 4 <= p.len() {
        display_path(p.skip(i + 4 as int))
    } else {
        p
    }
}

/// The status code and label of a staged change.
pub open spec fn staged_code(x: char) -> Seq<char> {
    if x == 'M' {
        "M"@
    } else if x == 'A' {
        "A"@
    } else if x == 'D' {
        "D"@
    } else if x == 'R' {
        "R"@
    } else if x == 'C' {
        "C"@
    } else {
        "?"@
    }
}

/// The display label of a staged change.
pub open spec fn staged_label(x: char) -> Seq<char> {
    if x == 'M' {
        "Modified"@
    } else if x == 'A' {
        "Added"@
    } else if x == 'D' {
        "Deleted"@
    } else if x == 'R' {
        "Renamed"@
    } else if x == 'C' {
        "Copied"@
    } else {
        "Unknown"@
    }
}

/// The status code of an unstaged change.
pub open spec fn unstaged_code(y: char) -> Seq<char> {
    if y == 'M' {
        "M"@
    } else if y == 'D' {
        "D"@
    } else {
        "?"@
    }
}

/// The display label of an unstaged change.
pub open spec fn unstaged_label(y: char) -> Seq<char> {
    if y == 'M' {
        "Modified"@
    } else if y == 'D' {
        "Deleted"@
    } else if y == '?' {
        "Untracked"@
    } else {
        "Unknown"@
    }
}

/// The entries of one status line: a line shorter than four characters is
/// skipped; otherwise the first character is the staged status, the second
/// the unstaged status, and the path starts at the fourth. A staged entry is
/// reported for any staged status but `' '` and `'?'`; an unstaged entry for
/// any unstaged status but `' '`, where `'?'` is reported only for a fully
/// untracked file (both columns `'?'`).
pub open spec fn parse_line(l: Seq<char>) -> Seq<GitStatusView> {
    if l.len() < 4 {
        seq![]
    } else {
        let x = l[0];
        let y = l[1];
        let disp = display_path(trim_ws(l.skip(3)));
        let staged: Seq<GitStatusView> = if x != ' ' && x != '?' {
            seq![
                GitStatusView {
                    path: disp,
                    status: staged_code(x),
                    is_staged: true,
                    status_label: staged_label(x),
                },
            ]
        } else {
            seq![]
        };
        let unstaged: Seq<GitStatusView> = if y != ' ' && (y != '?' || x == '?') {
            seq![
                GitStatusView {
                    path: disp,
                    status: unstaged_code(y),
                    is_staged: false,
                    status_label: unstaged_label(y),
                },
            ]
        } else {
            seq![]
        };
        staged + unstaged
    }
}

/// The views of a sequence of entries.
pub open spec fn views_of(v: Seq<GitFileStatus>) -> Seq<GitStatusView> {
    v.map_values(|g: GitFileStatus| g@)
}

/// The entries of a whole `git status --porcelain=v1` listing: the text is
/// split into lines at `'\n'` (a line feed preceded by a carriage return
/// loses it; a final line needs no terminator), and each line's entries are
/// concatenated in order.
pub open spec fn parse_status(s: Seq<char>) -> Seq<GitStatusView>
    decreases s.len(),
{
    if s.len() == 0 {
        seq![]
    } else {
        let i = first_nl(s);
        if i < s.len() {
            parse_line(strip_cr(s.take(i as int))) + parse_status(s.skip(i + 1 as int))
        } else {
            parse_line(s)
        }
    }
}

fn staged_strings(x: char) -> (r: (String, String))
    ensures
        r.0@ == staged_code(x),
        r.1@ == staged_label(x),
{
    if x == 'M' {
        (String::from_str("M"), String::from_str("Modified"))
    } else if x == 'A' {
        (String::from_str("A"), String::from_str("Added"))
    } else if x == 'D' {
        (String::from_str("D"), String::from_str("Deleted"))
    } else if x == 'R' {
        (String::from_str("R"), String::from_str("Renamed"))
    } else if x == 'C' {
        (String::from_str("C"), String::from_str("Copied"))
    } else {
        (String::from_str("?"), String::from_str("Unknown"))
    }
}

fn unstaged_strings(y: char) -> (r: (String, String))
    ensures
        r.0@ == unstaged_code(y),
        r.1@ == unstaged_label(y),
{
    if y == 'M' {
        (String::from_str("M"), String::from_str("Modified"))
    } else if y == 'D' {
        (String::from_str("D"), String::from_str("Deleted"))
    } else if y == '?' {
        (String::from_str("?"), String::from_str("Untracked"))
    } else {
        (String::from_str("?"), String::from_str("Unknown"))
    }
}

/// Parse one status line and append its entries to `out`.
fn parse_line_into(line: &str, out: &mut Vec<GitFileStatus>)
    ensures
        views_of(final(out)@) == views_of(old(out)@) + parse_line(line@),
{
    let n = line.unicode_len();
    if n < 4 {
        proof {
            assert(views_of(out@) =~= views_of(out@) + parse_line(line@));
        }
        return;
    }
    let x = line.get_char(0);
    let y = line.get_char(1);
    let ghost tail = line@.skip(3);
    // Trim leading whitespace of the path part.
    let mut a: usize = 3;
    while a < n && is_ws(line.get_char(a))
        invariant
            3 <= a <= n,
            n == line@.len(),
            forall|j: int| 3 <= j < a ==> char_is_whitespace(#[trigger] line@[j]),
        decreases n - a,
    {
        a = a + 1;
    }
    proof {
        assert forall|j: int| 0 <= j < a - 3 implies char_is_whitespace(#[trigger] tail[j]) by {
            assert(tail[j] == line@[j + 3]);
        }
        if a < n {
            assert(tail[a - 3] == line@[a as int]);
        }
        lemma_trim_start_at(tail, (a - 3) as nat);
        assert(trim_start(tail) =~= line@.subrange(a as int, n as int));
    }
    // Trim trailing whitespace of the path part.
    let mut b: usize = n;
    while b > a && is_ws(line.get_char(b - 1))
        invariant
            a <= b <= n,
            n == line@.len(),
            forall|k: int| b <= k < n ==> char_is_whitespace(#[trigger] line@[k]),
        decreases b,
    {
        b = b - 1;
    }
    let ghost started = line@.subrange(a as int, n as int);
    proof {
        assert forall|k: int| b - a <= k < started.len() implies char_is_whitespace(
            #[trigger] started[k],
        ) by {
            assert(started[k] == line@[k + a]);
        }
        if b > a {
            assert(started[b - a - 1] == line@[b - 1]);
        }
        lemma_trim_end_at(started, (b - a) as nat);
        assert(trim_ws(tail) =~= line@.subrange(a as int, b as int));
    }
    let ghost trimmed = line@.subrange(a as int, b as int);
    // Take the part after the last rename separator, by repeatedly moving
    // past the first one.
    let mut ds: usize = a;
    let mut scanning = true;
    while scanning
        invariant
            a <= ds <= b <= n,
            n == line@.len(),
            display_path(trimmed) == display_path(line@.subrange(ds as int, b as int)),
            !scanning ==> display_path(trimmed) == line@.subrange(ds as int, b as int),
        decreases b - ds, (if scanning {
            1int
        } else {
            0int
        }),
    {
        let ghost window = line@.subrange(ds as int, b as int);
        let mut j: usize = ds;
        let mut found = false;
        while !found && b - j >= 4
            invariant
                ds <= j <= b <= n,
                n == line@.len(),
                window == line@.subrange(ds as int, b as int),
                forall|m: int| 0 <= m < j - ds ==> !arrow_at(window, m),
                found ==> b - j >= 4 && arrow_at(window, j - ds),
            decreases b - j + (if found {
                0int
            } else {
                1int
            }),
        {
            if line.get_char(j) == ' ' && line.get_char(j + 1) == '-' && line.get_char(j + 2) == '>'
                && line.get_char(j + 3) == ' ' {
                proof {
                    assert(window[j - ds] == line@[j as int]);
                    assert(window[j - ds + 1] == line@[j + 1]);
                    assert(window[j - ds + 2] == line@[j + 2]);
                    assert(window[j - ds + 3] == line@[j + 3]);
                    assert(arrow_at(window, j - ds));
                }
                found = true;
            } else {
                proof {
                    if j - ds + 4 <= window.len() {
                        assert(window[j - ds] == line@[j as int]);
                        assert(window[j - ds + 1] == line@[j + 1]);
                        assert(window[j - ds + 2] == line@[j + 2]);
                        assert(window[j - ds + 3] == line@[j + 3]);
                    }
                    assert(!arrow_at(window, j - ds));
                }
                j = j + 1;
            }
        }
        if found {
            proof {
                lemma_first_arrow_at(window, (j - ds) as nat);
                assert(window.skip(j - ds + 4) =~= line@.subrange(j + 4 as int, b as int));
            }
            ds = j + 4;
        } else {
            proof {
                assert forall|m: int| !arrow_at(window, m) by {
                    if 0 <= m && m + 4 <= window.len() && m >= j - ds {
                        assert(m + 4 > window.len());
                    }
                }
                lemma_first_arrow_none(window);
            }
            scanning = false;
        }
    }
    let disp = line.substring_char(ds, b);
    proof {
        assert(disp@ == display_path(trim_ws(line@.skip(3))));
    }
    let ghost out0 = out@;
    if x != ' ' && x != '?' {
        let (status, status_label) = staged_strings(x);
        out.push(GitFileStatus { path: String::from_str(disp), status, is_staged: true, status_label });
    }
    if y != ' ' && (y != '?' || x == '?') {
        let (status, status_label) = unstaged_strings(y);
        out.push(
            GitFileStatus { path: String::from_str(disp), status, is_staged: false, status_label },
        );
    }
    proof {
        assert(views_of(out@) =~= views_of(out0) + parse_line(line@));
    }
}

/// Whether the character is whitespace, for the path trimming.
fn is_ws(c: char) -> (r: bool)
    ensures
        r == char_is_whitespace(c),
{
    crate::validate::is_whitespace_char(c)
}

/// Parse `git status --porcelain=v1` output into file status entries, as
/// `parse_status` says: one line per change, up to two entries per line
/// (staged and unstaged), renamed paths reported by their new name.
pub fn parse_git_status(output: &str) -> (r: Vec<GitFileStatus>)
    ensures
        views_of(r@) == parse_status(output@),
{
    let n = output.unicode_len();
    let mut result: Vec<GitFileStatus> = Vec::new();
    let mut pos: usize = 0;
    proof {
        assert(output@.skip(0) =~= output@);
        assert(views_of(result@) + parse_status(output@.skip(0)) =~= parse_status(output@));
    }
    while pos < n
        invariant
            pos <= n,
            n == output@.len(),
            views_of(result@) + parse_status(output@.skip(pos as int)) == parse_status(output@),
        decreases n - pos,
    {
        let ghost rest = output@.skip(pos as int);
        let mut end: usize = pos;
        while end < n && output.get_char(end) != '\n'
            invariant
                pos <= end <= n,
                n == output@.len(),
                forall|j: int| pos <= j < end ==> output@[j] != '\n',
            decreases n - end,
        {
            end = end + 1;
        }
        proof {
            assert forall|j: int| 0 <= j < end - pos implies rest[j] != '\n' by {
                assert(rest[j] == output@[j + pos]);
            }
            if end < n {
                assert(rest[end - pos] == output@[end as int]);
            }
            lemma_first_nl_at(rest, (end - pos) as nat);
        }
        let line_end = if end < n && end > pos && output.get_char(end - 1) == '\r' {
            end - 1
        } else {
            end
        };
        let line = output.substring_char(pos, line_end);
        proof {
            if end < n {
                assert(rest.take(end - pos) =~= output@.subrange(pos as int, end as int));
                if end > pos && output@[end - 1] == '\r' {
                    assert(strip_cr(rest.take(end - pos)) =~= output@.subrange(
                        pos as int,
                        line_end as int,
                    ));
                } else {
                    assert(strip_cr(rest.take(end - pos)) =~= output@.subrange(
                        pos as int,
                        line_end as int,
                    ));
                }
                assert(line@ == strip_cr(rest.take(end - pos)));
                assert(rest.skip(end - pos + 1) =~= output@.skip(end + 1 as int));
                assert(parse_status(rest) == parse_line(line@) + parse_status(
                    output@.skip(end + 1 as int),
                ));
            } else {
                assert(rest =~= output@.subrange(pos as int, end as int));
                assert(line@ == rest);
                assert(output@.skip(n as int).len() == 0);
                assert(parse_status(output@.skip(n as int)) =~= Seq::<GitStatusView>::empty());
                assert(parse_status(rest) == parse_line(line@) + parse_status(
                    output@.skip(n as int),
                ));
            }
        }
        let ghost before = result@;
        parse_line_into(line, &mut result);
        let next_pos = if end < n {
            end + 1
        } else {
            n
        };
        proof {
            assert(views_of(result@) + parse_status(output@.skip(next_pos as int))
                =~= views_of(before) + parse_status(rest));
        }
        pos = next_pos;
    }
    proof {
        assert(output@.skip(n as int).len() == 0);
        assert(views_of(result@) =~= views_of(result@) + parse_status(output@.skip(n as int)));
    }
    result
}

} // verus!
