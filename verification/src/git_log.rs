//! Parsing of `git log` output formatted as `%H|%h|%s|%an|%ar`.
//!
//! Each line carries five `|`-separated fields: full SHA, short SHA, subject,
//! author, and relative date. The date field is the remainder of the line, so
//! a `|` inside it is kept. A line with fewer than four separators is
//! skipped.

use vstd::prelude::*;
use crate::git_status::{first_nl, lemma_first_nl_at, strip_cr};

verus! {

/// One commit of a parsed `git log` listing.
#[derive(Debug, Clone)]
pub struct GitCommit {
    pub sha: String,
    pub short_sha: String,
    pub title: String,
    pub author: String,
    pub date: String,
}

/// The mathematical value of a `GitCommit`.
pub struct GitCommitView {
    pub sha: Seq<char>,
    pub short_sha: Seq<char>,
    pub title: Seq<char>,
    pub author: Seq<char>,
    pub date: Seq<char>,
}

impl View for GitCommit {
    type V = GitCommitView;

    open spec fn view(&self) -> GitCommitView {
        GitCommitView {
            sha: self.sha@,
            short_sha: self.short_sha@,
            title: self.title@,
            author: self.author@,
            date: self.date@,
        }
    }
}

/// Index of the first `'|'` in `s`, or `s.len()` if there is none.
pub open spec fn first_bar(s: Seq<char>) -> nat
    decreases s.len(),
{
    if s.len() == 0 {
        0
    } else if s[0] == '|' {
        0
    } else {
        1 + first_bar(s.skip(1))
    }
}

/// A scan that saw no `'|'` before `k` pinned one at `k` (or ran out):
/// `first_bar` is exactly `k`.
pub proof fn lemma_first_bar_at(s: Seq<char>, k: nat)
    requires
        k <= s.len(),
        forall|j: int| 0 <= j < k ==> s[j] != '|',
        k < s.len() ==> s[k as int] == '|',
    ensures
        first_bar(s) == k,
    decreases s.len(),
{
    if s.len() > 0 && s[0] != '|' {
        assert(k > 0);
        assert forall|j: int| 0 <= j < k - 1 implies s.skip(1)[j] != '|' by {
            assert(s.skip(1)[j] == s[j + 1]);
        }
        if k - 1 < s.skip(1).len() {
            assert(s.skip(1)[k - 1] == s[k as int]);
        }
        lemma_first_bar_at(s.skip(1), (k - 1) as nat);
    }
}

/// The commit of one log line: the first four `|` split off SHA, short SHA,
/// subject and author, and the rest of the line is the date. A line with
/// fewer than four `|` yields nothing.
pub open spec fn parse_commit_line(l: Seq<char>) -> Option<GitCommitView> {
    let i1 = first_bar(l);
    if i1 >= l.len() {
        None
    } else {
        let r1 = l.skip(i1 + 1 as int);
        let i2 = first_bar(r1);
        if i2 >= r1.len() {
            None
        } else {
            let r2 = r1.skip(i2 + 1 as int);
            let i3 = first_bar(r2);
            if i3 >= r2.len() {
                None
            } else {
                let r3 = r2.skip(i3 + 1 as int);
                let i4 = first_bar(r3);
                if i4 >= r3.len() {
                    None
                } else {
                    Some(
                        GitCommitView {
                            sha: l.take(i1 as int),
                            short_sha: r1.take(i2 as int),
                            title: r2.take(i3 as int),
                            author: r3.take(i4 as int),
                            date: r3.skip(i4 + 1 as int),
                        },
                    )
                }
            }
        }
    }
}

/// The views of a sequence of commits.
pub open spec fn commit_views_of(v: Seq<GitCommit>) -> Seq<GitCommitView> {
    v.map_values(|g: GitCommit| g@)
}

/// The commits of a whole `git log` listing: one commit per line that holds
/// at least four `|`, in order.
pub open spec fn parse_log(s: Seq<char>) -> Seq<GitCommitView>
    decreases s.len(),
{
    if s.len() == 0 {
        seq![]
    } else {
        let i = first_nl(s);
        let line = if i < s.len() {
            strip_cr(s.take(i as int))
        } else {
            s
        };
        let here: Seq<GitCommitView> = match parse_commit_line(line) {
            Some(c) => seq![c],
            None => seq![],
        };
        if i < s.len() {
            here + parse_log(s.skip(i + 1 as int))
        } else {
            here
        }
    }
}

/// Find the first `'|'` of `line` at or after `from`, or the length if there
/// is none; relates the scan to `first_bar` of the suffix.
fn scan_bar(line: &str, from: usize, n: usize) -> (b: usize)
    requires
        from <= n,
        n == line@.len(),
    ensures
        from <= b <= n,
        first_bar(line@.skip(from as int)) == b - from,
        b < n ==> line@[b as int] == '|',
{
    let mut b: usize = from;
    while b < n && line.get_char(b) != '|'
        invariant
            from <= b <= n,
            n == line@.len(),
            forall|j: int| from <= j < b ==> line@[j] != '|',
        decreases n - b,
    {
        b = b + 1;
    }
    proof {
        let suffix = line@.skip(from as int);
        assert forall|j: int| 0 <= j < b - from implies suffix[j] != '|' by {
            assert(suffix[j] == line@[j + from]);
        }
        if b < n {
            assert(suffix[b - from] == line@[b as int]);
        }
        lemma_first_bar_at(suffix, (b - from) as nat);
    }
    b
}

/// Parse one log line into a commit, or nothing if it has fewer than four
/// `|` separators.
fn parse_commit_line_exec(line: &str) -> (r: Option<GitCommit>)
    ensures
        match parse_commit_line(line@) {
            Some(v) => r matches Some(c) && c@ == v,
            None => r is None,
        },
{
    let n = line.unicode_len();
    let b1 = scan_bar(line, 0, n);
    proof {
        assert(line@.skip(0) =~= line@);
    }
    if b1 >= n {
        return None;
    }
    let ghost r1 = line@.skip(b1 + 1 as int);
    let b2 = scan_bar(line, b1 + 1, n);
    proof {
        assert(line@.skip(b1 + 1 as int) =~= r1);
    }
    if b2 >= n {
        proof {
            assert(first_bar(r1) == b2 - (b1 + 1));
            assert(first_bar(r1) >= r1.len());
        }
        return None;
    }
    let ghost r2 = line@.skip(b2 + 1 as int);
    let b3 = scan_bar(line, b2 + 1, n);
    proof {
        assert(r1.skip((b2 - b1) as int) =~= r2);
        assert(first_bar(r1) == b2 - (b1 + 1));
    }
    if b3 >= n {
        proof {
            assert(first_bar(r2) >= r2.len());
        }
        return None;
    }
    let ghost r3 = line@.skip(b3 + 1 as int);
    let b4 = scan_bar(line, b3 + 1, n);
    proof {
        assert(r2.skip((b3 - b2) as int) =~= r3);
        assert(first_bar(r2) == b3 - (b2 + 1));
    }
    if b4 >= n {
        proof {
            assert(first_bar(r3) >= r3.len());
        }
        return None;
    }
    proof {
        assert(first_bar(r3) == b4 - (b3 + 1));
        assert(line@.take(b1 as int) =~= line@.subrange(0, b1 as int));
        assert(r1.take((b2 - b1 - 1) as int) =~= line@.subrange(b1 + 1 as int, b2 as int));
        assert(r2.take((b3 - b2 - 1) as int) =~= line@.subrange(b2 + 1 as int, b3 as int));
        assert(r3.take((b4 - b3 - 1) as int) =~= line@.subrange(b3 + 1 as int, b4 as int));
        assert(r3.skip((b4 - b3) as int) =~= line@.subrange(b4 + 1 as int, n as int));
    }
    Some(
        GitCommit {
            sha: String::from_str(line.substring_char(0, b1)),
            short_sha: String::from_str(line.substring_char(b1 + 1, b2)),
            title: String::from_str(line.substring_char(b2 + 1, b3)),
            author: String::from_str(line.substring_char(b3 + 1, b4)),
            date: String::from_str(line.substring_char(b4 + 1, n)),
        },
    )
}

/// Parse `git log --format=%H|%h|%s|%an|%ar` output into commits, as
/// `parse_log` says: one commit per well-formed line, in order.
pub fn parse_git_log(output: &str) -> (r: Vec<GitCommit>)
    ensures
        commit_views_of(r@) == parse_log(output@),
{
    let n = output.unicode_len();
    let mut result: Vec<GitCommit> = Vec::new();
    let mut pos: usize = 0;
    proof {
        assert(output@.skip(0) =~= output@);
        assert(commit_views_of(result@) + parse_log(output@.skip(0)) =~= parse_log(output@));
    }
    while pos < n
        invariant
            pos <= n,
            n == output@.len(),
            commit_views_of(result@) + parse_log(output@.skip(pos as int)) == parse_log(output@),
        decreases n - pos,
    {
        let ghost rest = output@.skip(pos as int);
        let mut end: usize = pos;
        while end < n && output.get_char(end) != '\n'
            invariant
                pos <= end <= n,
                n == output@.len(),
                forall|j: int| pos <= j < end ==> output@[j] != '\n',
            decreases n - end,
        {
            end = end + 1;
        }
        proof {
            assert forall|j: int| 0 <= j < end - pos implies rest[j] != '\n' by {
                assert(rest[j] == output@[j + pos]);
            }
            if end < n {
                assert(rest[end - pos] == output@[end as int]);
            }
            lemma_first_nl_at(rest, (end - pos) as nat);
        }
        let line_end = if end < n && end > pos && output.get_char(end - 1) == '\r' {
            end - 1
        } else {
            end
        };
        let line = output.substring_char(pos, line_end);
        proof {
            if end < n {
                assert(rest.take(end - pos) =~= output@.subrange(pos as int, end as int));
                assert(strip_cr(rest.take(end - pos)) =~= output@.subrange(
                    pos as int,
                    line_end as int,
                ));
                assert(line@ == strip_cr(rest.take(end - pos)));
                assert(rest.skip(end - pos + 1) =~= output@.skip(end + 1 as int));
            } else {
                assert(rest =~= output@.subrange(pos as int, end as int));
                assert(line@ == rest);
            }
        }
        let ghost before = result@;
        if let Some(commit) = parse_commit_line_exec(line) {
            result.push(commit);
        }
        let next_pos = if end < n {
            end + 1
        } else {
            n
        };
        proof {
            if end == n {
                assert(output@.skip(n as int).len() == 0);
                assert(parse_log(output@.skip(n as int)) =~= Seq::<GitCommitView>::empty());
            }
            assert(commit_views_of(result@) + parse_log(output@.skip(next_pos as int))
                =~= commit_views_of(before) + parse_log(rest));
        }
        pos = next_pos;
    }
    proof {
        assert(output@.skip(n as int).len() == 0);
        assert(commit_views_of(result@) =~= commit_views_of(result@) + parse_log(
            output@.skip(n as int),
        ));
    }
    result
}

} // verus!
