//! Parsing of git's textual output: the porcelain status listing and the
//! branch listing.
//!
//! Running git is the host's business; what comes back is text, and the
//! meaning of that text is specified here character by character.  A
//! porcelain line carries two status columns and, from its fourth
//! character, the path; a branch line carries an optional star for the
//! checked-out branch and the branch name padded with whitespace.

use vstd::prelude::*;

use crate::validate::is_space_char;

verus! {

/// How a file differs from the repository's index or head.
#[derive(Debug, Clone, Copy, PartialEq, Eq, Structural)]
pub enum FileStatus {
    New,
    Modified,
    Deleted,
    Renamed,
}

/// One entry of the porcelain status listing: a path, how it changed, and
/// whether the change is staged.
#[derive(Debug, Clone)]
pub struct GitFileStatus {
    pub path: String,
    pub status: FileStatus,
    pub is_staged: bool,
}

/// One local branch, and whether it is the checked-out one.
#[derive(Debug, Clone)]
pub struct GitBranch {
    pub name: String,
    pub current: bool,
}

/// What the two status columns of a porcelain line mean: the first column
/// describes the staged change, the second the unstaged one.  Column pairs
/// the tool does not track yield nothing and their line is skipped.
pub open spec fn classify(x: char, y: char) -> Option<(FileStatus, bool)> {
    if x == 'M' && y == ' ' {
        Some((FileStatus::Modified, true))
    } else if x == 'A' && y == ' ' {
        Some((FileStatus::New, true))
    } else if x == 'D' && y == ' ' {
        Some((FileStatus::Deleted, true))
    } else if x == 'R' && y == ' ' {
        Some((FileStatus::Renamed, true))
    } else if x == ' ' && y == 'M' {
        Some((FileStatus::Modified, false))
    } else if x == '?' && y == '?' {
        Some((FileStatus::New, false))
    } else if x == ' ' && y == 'D' {
        Some((FileStatus::Deleted, false))
    } else {
        None
    }
}

/// Number of characters from position `i` to the next line break or the
/// end of the text.
pub open spec fn line_len(s: Seq<char>, i: int) -> nat
    decreases s.len() - i,
{
    if i < 0 || i >= s.len() || s[i] == '\n' {
        0
    } else {
        1 + line_len(s, i + 1)
    }
}

/// A line never reaches past the end of the text.
proof fn lemma_line_len_bound(s: Seq<char>, i: int)
    ensures
        0 <= i <= s.len() ==> i + line_len(s, i) <= s.len(),
        i < 0 || i > s.len() ==> line_len(s, i) == 0,
    decreases s.len() - i,
{
    if 0 <= i < s.len() && s[i] != '\n' {
        lemma_line_len_bound(s, i + 1);
    }
}

/// The length of a line is pinned down by its shape: no break inside, a
/// break or the end of text right after.
proof fn lemma_line_len_shape(s: Seq<char>, i: int, j: int)
    requires
        0 <= i <= j <= s.len(),
        forall|m: int| i <= m < j ==> s[m] != '\n',
        j == s.len() || s[j] == '\n',
    ensures
        line_len(s, i) == j - i,
    decreases j - i,
{
    if i < j {
        lemma_line_len_shape(s, i + 1, j);
    }
}

/// A line with a trailing carriage return, as git writes on some
/// platforms, counts without it.
pub open spec fn strip_cr(line: Seq<char>) -> Seq<char> {
    if line.len() > 0 && line.last() == '\r' {
        line.drop_last()
    } else {
        line
    }
}

/// The porcelain entry one line yields: the path from the fourth character
/// on, when the two status columns name a tracked kind of change; nothing
/// otherwise, and nothing for a line too short to carry the columns.
pub open spec fn line_status(line: Seq<char>) -> Option<(Seq<char>, FileStatus, bool)> {
    if line.len() < 3 {
        None
    } else {
        match classify(line[0], line[1]) {
            Some(t) => Some((line.subrange(3, line.len() as int), t.0, t.1)),
            None => None,
        }
    }
}

/// Every porcelain entry of the text from position `i` on, line by line,
/// in order.
pub open spec fn status_items(s: Seq<char>, i: int) -> Seq<(Seq<char>, FileStatus, bool)>
    decreases s.len() - i + 1,
    via status_items_dec
{
    if i < 0 || i >= s.len() {
        seq![]
    } else {
        let e = i + line_len(s, i) as int;
        let rest = status_items(s, e + 1);
        match line_status(strip_cr(s.subrange(i, e))) {
            Some(t) => seq![t] + rest,
            None => rest,
        }
    }
}

#[via_fn]
proof fn status_items_dec(s: Seq<char>, i: int) {
    lemma_line_len_bound(s, i);
}

/// The entries a vector of parsed statuses stands for.
pub open spec fn status_views(v: Seq<GitFileStatus>) -> Seq<(Seq<char>, FileStatus, bool)> {
    v.map(|k: int, g: GitFileStatus| (g.path@, g.status, g.is_staged))
}

/// The meaning of two status columns, decided at run time.
fn classify_exec(x: char, y: char) -> (r: Option<(FileStatus, bool)>)
    ensures
        r == classify(x, y),
{
    if x == 'M' && y == ' ' {
        Some((FileStatus::Modified, true))
    } else if x == 'A' && y == ' ' {
        Some((FileStatus::New, true))
    } else if x == 'D' && y == ' ' {
        Some((FileStatus::Deleted, true))
    } else if x == 'R' && y == ' ' {
        Some((FileStatus::Renamed, true))
    } else if x == ' ' && y == 'M' {
        Some((FileStatus::Modified, false))
    } else if x == '?' && y == '?' {
        Some((FileStatus::New, false))
    } else if x == ' ' && y == 'D' {
        Some((FileStatus::Deleted, false))
    } else {
        None
    }
}

/// Parses one porcelain line into an entry, exactly as
/// [`line_status`] reads it.
pub fn parse_status_line(line: &str) -> (r: Option<GitFileStatus>)
    ensures
        match line_status(line@) {
            Some(t) => r matches Some(g) && g.path@ == t.0 && g.status == t.1 && g.is_staged
                == t.2,
            None => r is None,
        },
{
    let n = line.unicode_len();
    if n < 3 {
        return None;
    }
    match classify_exec(line.get_char(0), line.get_char(1)) {
        Some((status, is_staged)) => {
            let path = line.substring_char(3, n).to_owned();
            Some(GitFileStatus { path, status, is_staged })
        },
        None => None,
    }
}

/// Parses the whole porcelain status listing: one entry per line whose
/// columns name a tracked change, in the order git printed them.
pub fn parse_status(output: &str) -> (v: Vec<GitFileStatus>)
    ensures
        status_views(v@) == status_items(output@, 0),
{
    let ghost s = output@;
    let n = output.unicode_len();
    let mut v: Vec<GitFileStatus> = Vec::new();
    let mut i: usize = 0;
    while i < n
        invariant
            0 <= i,
            n == s.len(),
            s == output@,
            status_views(v@) + status_items(s, i as int) == status_items(s, 0),
        decreases n - i,
    {
        let mut j: usize = i;
        while j < n && output.get_char(j) != '\n'
            invariant
                i <= j <= n,
                n == s.len(),
                s == output@,
                forall|m: int| i <= m < j ==> s[m] != '\n',
            decreases n - j,
        {
            j = j + 1;
        }
        proof {
            lemma_line_len_shape(s, i as int, j as int);
        }
        let e2 = if j > i && output.get_char(j - 1) == '\r' {
            j - 1
        } else {
            j
        };
        let line = output.substring_char(i, e2);
        proof {
            assert(line@ =~= strip_cr(s.subrange(i as int, j as int)));
        }
        let ghost pre = v@;
        match parse_status_line(line) {
            Some(g) => {
                let ghost t = line_status(line@)->Some_0;
                v.push(g);
                proof {
                    assert(status_views(v@) =~= status_views(pre).push(t));
                    assert(status_views(pre).push(t) + status_items(s, j + 1) =~= status_views(
                        pre,
                    ) + (seq![t] + status_items(s, j + 1)));
                }
            },
            None => {},
        }
        proof {
            assert(status_items(s, n as int) =~= status_items(s, n + 1));
        }
        i = if j < n {
            j + 1
        } else {
            n
        };
    }
    proof {
        assert(status_items(s, i as int) =~= Seq::<(Seq<char>, FileStatus, bool)>::empty());
        assert(status_views(v@) + status_items(s, i as int) =~= status_views(v@));
    }
    v
}

/// A branch line with its leading checkout stars dropped.
pub open spec fn drop_stars(s: Seq<char>) -> Seq<char>
    decreases s.len(),
{
    if s.len() > 0 && s[0] == '*' {
        drop_stars(s.drop_first())
    } else {
        s
    }
}

/// The text with leading whitespace dropped.
pub open spec fn trim_front(s: Seq<char>) -> Seq<char>
    decreases s.len(),
{
    if s.len() > 0 && is_space_char(s[0]) {
        trim_front(s.drop_first())
    } else {
        s
    }
}

/// The text with trailing whitespace dropped.
pub open spec fn trim_back(s: Seq<char>) -> Seq<char>
    decreases s.len(),
{
    if s.len() > 0 && is_space_char(s.last()) {
        trim_back(s.drop_last())
    } else {
        s
    }
}

/// The branch name a listing line carries: the line without its checkout
/// stars, trimmed of whitespace on both sides.
pub open spec fn branch_name(line: Seq<char>) -> Seq<char> {
    trim_back(trim_front(drop_stars(line)))
}

/// The branch one listing line names, and whether the star marks it as
/// checked out.
pub open spec fn line_branch(line: Seq<char>) -> (Seq<char>, bool) {
    (branch_name(line), line.len() > 0 && line[0] == '*')
}

/// Every branch of the listing from position `i` on, one per line, in
/// order.
pub open spec fn branch_items(s: Seq<char>, i: int) -> Seq<(Seq<char>, bool)>
    decreases s.len() - i + 1,
    via branch_items_dec
{
    if i < 0 || i >= s.len() {
        seq![]
    } else {
        let e = i + line_len(s, i) as int;
        seq![line_branch(strip_cr(s.subrange(i, e)))] + branch_items(s, e + 1)
    }
}

#[via_fn]
proof fn branch_items_dec(s: Seq<char>, i: int) {
    lemma_line_len_bound(s, i);
}

/// The branches a vector of parsed entries stands for.
pub open spec fn branch_views(v: Seq<GitBranch>) -> Seq<(Seq<char>, bool)> {
    v.map(|k: int, b: GitBranch| (b.name@, b.current))
}

/// Parses one line of the branch listing, exactly as [`line_branch`]
/// reads it.
pub fn parse_branch_line(line: &str) -> (g: GitBranch)
    ensures
        g.name@ == branch_name(line@),
        g.current == (line@.len() > 0 && line@[0] == '*'),
{
    let ghost l = line@;
    let n = line.unicode_len();
    let current = n > 0 && line.get_char(0) == '*';
    proof {
        assert(l.subrange(0, n as int) =~= l);
    }
    let mut a: usize = 0;
    while a < n && line.get_char(a) == '*'
        invariant
            0 <= a <= n,
            n == l.len(),
            l == line@,
            drop_stars(l) == drop_stars(l.subrange(a as int, n as int)),
        decreases n - a,
    {
        proof {
            assert(l.subrange(a as int, n as int).drop_first() =~= l.subrange(
                a as int + 1,
                n as int,
            ));
        }
        a = a + 1;
    }
    proof {
        assert(drop_stars(l) == l.subrange(a as int, n as int));
    }
    let mut b: usize = a;
    while b < n && crate::validate::check_space_char(line.get_char(b))
        invariant
            a <= b <= n,
            n == l.len(),
            l == line@,
            trim_front(l.subrange(a as int, n as int)) == trim_front(
                l.subrange(b as int, n as int),
            ),
        decreases n - b,
    {
        proof {
            assert(l.subrange(b as int, n as int).drop_first() =~= l.subrange(
                b as int + 1,
                n as int,
            ));
        }
        b = b + 1;
    }
    proof {
        assert(trim_front(l.subrange(a as int, n as int)) == l.subrange(b as int, n as int));
    }
    let mut c: usize = n;
    while c > b && crate::validate::check_space_char(line.get_char(c - 1))
        invariant
            b <= c <= n,
            n == l.len(),
            l == line@,
            trim_back(l.subrange(b as int, n as int)) == trim_back(l.subrange(b as int, c as int)),
        decreases c,
    {
        proof {
            assert(l.subrange(b as int, c as int).drop_last() =~= l.subrange(
                b as int,
                c as int - 1,
            ));
        }
        c = c - 1;
    }
    proof {
        assert(trim_back(l.subrange(b as int, n as int)) == l.subrange(b as int, c as int));
    }
    let name = line.substring_char(b, c).to_owned();
    GitBranch { name, current }
}

/// The text with whitespace trimmed from both ends — what a version banner
/// read from a child process is reduced to before it is shown.
pub fn trim_text(text: &str) -> (t: String)
    ensures
        t@ == trim_back(trim_front(text@)),
{
    let ghost l = text@;
    let n = text.unicode_len();
    proof {
        assert(l.subrange(0, n as int) =~= l);
    }
    let mut b: usize = 0;
    while b < n && crate::validate::check_space_char(text.get_char(b))
        invariant
            0 <= b <= n,
            n == l.len(),
            l == text@,
            trim_front(l) == trim_front(l.subrange(b as int, n as int)),
        decreases n - b,
    {
        proof {
            assert(l.subrange(b as int, n as int).drop_first() =~= l.subrange(
                b as int + 1,
                n as int,
            ));
        }
        b = b + 1;
    }
    proof {
        assert(trim_front(l) == l.subrange(b as int, n as int));
    }
    let mut c: usize = n;
    while c > b && crate::validate::check_space_char(text.get_char(c - 1))
        invariant
            b <= c <= n,
            n == l.len(),
            l == text@,
            trim_back(l.subrange(b as int, n as int)) == trim_back(l.subrange(b as int, c as int)),
        decreases c,
    {
        proof {
            assert(l.subrange(b as int, c as int).drop_last() =~= l.subrange(
                b as int,
                c as int - 1,
            ));
        }
        c = c - 1;
    }
    proof {
        assert(trim_back(l.subrange(b as int, n as int)) == l.subrange(b as int, c as int));
    }
    text.substring_char(b, c).to_owned()
}

/// Parses the whole branch listing: one branch per line, in the order git
/// printed them, the starred line marked as current.
pub fn parse_branches(output: &str) -> (v: Vec<GitBranch>)
    ensures
        branch_views(v@) == branch_items(output@, 0),
{
    let ghost s = output@;
    let n = output.unicode_len();
    let mut v: Vec<GitBranch> = Vec::new();
    let mut i: usize = 0;
    while i < n
        invariant
            0 <= i,
            n == s.len(),
            s == output@,
            branch_views(v@) + branch_items(s, i as int) == branch_items(s, 0),
        decreases n - i,
    {
        let mut j: usize = i;
        while j < n && output.get_char(j) != '\n'
            invariant
                i <= j <= n,
                n == s.len(),
                s == output@,
                forall|m: int| i <= m < j ==> s[m] != '\n',
            decreases n - j,
        {
            j = j + 1;
        }
        proof {
            lemma_line_len_shape(s, i as int, j as int);
        }
        let e2 = if j > i && output.get_char(j - 1) == '\r' {
            j - 1
        } else {
            j
        };
        let line = output.substring_char(i, e2);
        proof {
            assert(line@ =~= strip_cr(s.subrange(i as int, j as int)));
        }
        let ghost pre = v@;
        let ghost t = line_branch(line@);
        let g = parse_branch_line(line);
        v.push(g);
        proof {
            assert(branch_views(v@) =~= branch_views(pre).push(t));
            assert(branch_views(pre).push(t) + branch_items(s, j + 1) =~= branch_views(pre) + (
            seq![t] + branch_items(s, j + 1)));
            assert(branch_items(s, n as int) =~= branch_items(s, n + 1));
        }
        i = if j < n {
            j + 1
        } else {
            n
        };
    }
    proof {
        assert(branch_items(s, i as int) =~= Seq::<(Seq<char>, bool)>::empty());
        assert(branch_views(v@) + branch_items(s, i as int) =~= branch_views(v@));
    }
    v
}

} // verus!
