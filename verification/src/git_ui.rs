//! The state of the git interface: the parsed repository status, commits,
//! branches and worktrees, the selected view and entries, and what each key does.

use vstd::prelude::*;
use crate::text::{
    cat, cat3, chars_of, is_prefix, lemma_split_nonempty, lines, lines_of, owned, parse_i32,
    parse_i32_spec, split_acc, split_char, split_on, starts_with, str_eq, string_of_range, trim,
    trim_str, u64_to_string, dec, views,
};

verus! {

/// The state of a file in the work tree or the index.
#[derive(Debug, Clone, Copy, PartialEq, Eq, Structural)]
pub enum FileStatus {
    Modified,
    Added,
    Deleted,
    Renamed,
    Copied,
    Untracked,
    Conflicted,
}

/// A hunk of a diff.
#[derive(Debug, Clone)]
pub struct Hunk {
    pub old_start: usize,
    pub old_lines: usize,
    pub new_start: usize,
    pub new_lines: usize,
    pub content: Vec<String>,
}

/// A changed file.
#[derive(Debug, Clone)]
pub struct FileChange {
    pub path: String,
    pub status: FileStatus,
    pub hunks: Vec<Hunk>,
}

/// The status of the repository.
#[derive(Debug, Clone)]
pub struct GitStatus {
    pub staged: Vec<FileChange>,
    pub unstaged: Vec<FileChange>,
    pub untracked: Vec<FileChange>,
    pub conflicted: Vec<FileChange>,
    pub branch: String,
    pub is_clean: bool,
    pub ahead: i32,
    pub behind: i32,
    pub is_rebasing: bool,
    pub is_merging: bool,
    pub is_cherry_picking: bool,
    pub is_reverting: bool,
}

/// A commit of the log.
#[derive(Debug, Clone)]
pub struct Commit {
    pub hash: String,
    pub short_hash: String,
    pub message: String,
    pub author: String,
    pub date: String,
    pub parents: Vec<String>,
}

/// A branch.
#[derive(Debug, Clone)]
pub struct Branch {
    pub name: String,
    pub is_current: bool,
    pub is_remote: bool,
    pub upstream: Option<String>,
    pub ahead: i32,
    pub behind: i32,
}

/// An entry of the stash.
#[derive(Debug, Clone)]
pub struct StashEntry {
    pub index: usize,
    pub message: String,
    pub date: String,
}

/// The views of the interface.
#[derive(Debug, Clone, Copy, PartialEq, Eq, Structural)]
pub enum GitView {
    Status,
    Files,
    CommitList,
    Branches,
    Stash,
    Stashes,
    Worktree,
    Rebase,
    Bisect,
    Log,
}

/// The interface's state.
#[derive(Debug, Clone)]
pub struct GitTUI {
    pub current_view: GitView,
    pub selected_file: usize,
    pub selected_commit: usize,
    pub selected_hunk: usize,
    pub selected_stash: usize,
    pub show_stash: bool,
    pub show_stashes: Vec<StashEntry>,
    pub commits: Vec<Commit>,
    pub branches: Vec<Branch>,
    pub worktrees: Vec<String>,
    pub status: GitStatus,
    pub scroll: usize,
    pub quit: bool,
}

impl GitTUI {
    /// The interface at start: the files view, nothing selected or loaded, on
    /// a clean `main`.
    pub fn new() -> (r: Self)
        ensures
            r.current_view == GitView::Files,
            r.selected_file == 0 && r.selected_commit == 0 && r.selected_hunk == 0 && r.selected_stash == 0,
            !r.show_stash && !r.quit && r.scroll == 0,
            r.show_stashes@.len() == 0 && r.commits@.len() == 0 && r.branches@.len() == 0 && r.worktrees@.len() == 0,
            r.status.staged@.len() == 0 && r.status.unstaged@.len() == 0 && r.status.untracked@.len() == 0
                && r.status.conflicted@.len() == 0,
            r.status.branch@ == "main"@,
            r.status.is_clean && r.status.ahead == 0 && r.status.behind == 0,
            !r.status.is_rebasing && !r.status.is_merging && !r.status.is_cherry_picking && !r.status.is_reverting,
    {
        GitTUI {
            current_view: GitView::Files,
            selected_file: 0,
            selected_commit: 0,
            selected_hunk: 0,
            selected_stash: 0,
            show_stash: false,
            show_stashes: Vec::new(),
            commits: Vec::new(),
            branches: Vec::new(),
            worktrees: Vec::new(),
            status: GitStatus {
                staged: Vec::new(),
                unstaged: Vec::new(),
                untracked: Vec::new(),
                conflicted: Vec::new(),
                branch: owned("main"),
                is_clean: true,
                ahead: 0,
                behind: 0,
                is_rebasing: false,
                is_merging: false,
                is_cherry_picking: false,
                is_reverting: false,
            },
            scroll: 0,
            quit: false,
        }
    }

    /// The number of files the files view lists for selection.
    pub open spec fn file_total(&self) -> int {
        (self.status.staged@.len() + self.status.unstaged@.len() + self.status.untracked@.len()) as int
    }

    /// The index of the first current branch, or 0.
    pub open spec fn current_branch_index(&self) -> int {
        if exists|i: int| 0 <= i < self.branches@.len() && self.branches@[i].is_current {
            choose|i: int| 0 <= i < self.branches@.len() && self.branches@[i].is_current
                && forall|j: int| 0 <= j < i ==> !self.branches@[j].is_current
        } else {
            0
        }
    }

    /// Moves the selection of the current view by `delta`, wrapping around.
    pub fn move_selection(&mut self, delta: isize)
        requires
            old(self).selected_file < isize::MAX,
            old(self).file_total() < isize::MAX,
            old(self).commits@.len() < isize::MAX,
            old(self).branches@.len() < isize::MAX,
            isize::MIN < delta < isize::MAX,
            -isize::MAX < old(self).selected_file + delta < isize::MAX,
            -isize::MAX < old(self).selected_commit + delta < isize::MAX,
            old(self).selected_commit < isize::MAX,
            -isize::MAX < old(self).branches@.len() + delta < isize::MAX,
        ensures
            final(self).current_view == old(self).current_view,
            final(self).status == old(self).status,
            final(self).commits == old(self).commits,
            final(self).branches == old(self).branches,
            old(self).current_view == GitView::Files && old(self).file_total() > 0 ==> final(self).selected_file
                == (old(self).selected_file + delta) % old(self).file_total() && final(self).selected_file
                < old(self).file_total(),
            !(old(self).current_view == GitView::Files && old(self).file_total() > 0) ==> final(self).selected_file
                == old(self).selected_file,
            old(self).current_view == GitView::CommitList && old(self).commits@.len() > 0 ==> final(self).selected_commit
                == (old(self).selected_commit + delta) % (old(self).commits@.len() as int) && final(self).selected_commit
                < old(self).commits@.len(),
            old(self).current_view == GitView::Branches && old(self).branches@.len() > 0 ==> final(self).selected_commit
                == (old(self).current_branch_index() + delta) % (old(self).branches@.len() as int)
                && final(self).selected_commit < old(self).branches@.len(),
            !(old(self).current_view == GitView::CommitList && old(self).commits@.len() > 0)
                && !(old(self).current_view == GitView::Branches && old(self).branches@.len() > 0)
                ==> final(self).selected_commit == old(self).selected_commit,
            *final(self) == (GitTUI { selected_file: final(self).selected_file, selected_commit: final(self).selected_commit, ..*old(self) }),
    {
        match self.current_view {
            GitView::Files => {
                let total = self.status.staged.len() + self.status.unstaged.len() + self.status.untracked.len();
                if total > 0 {
                    let t = total as isize;
                    let a = self.selected_file as isize + delta;
                    self.selected_file = euclid_rem(a, t) as usize;
                }
            },
            GitView::CommitList => {
                if self.commits.len() > 0 {
                    let t = self.commits.len() as isize;
                    let a = self.selected_commit as isize + delta;
                    self.selected_commit = euclid_rem(a, t) as usize;
                }
            },
            GitView::Branches => {
                if self.branches.len() > 0 {
                    let idx = first_current(&self.branches);
                    proof {
                        assert(idx == self.current_branch_index()) by {
                            if exists|i: int| 0 <= i < self.branches@.len() && self.branches@[i].is_current {
                                let c = choose|i: int| 0 <= i < self.branches@.len() && self.branches@[i].is_current
                                    && forall|j: int| 0 <= j < i ==> !self.branches@[j].is_current;
                                assert(0 <= idx < self.branches@.len() && self.branches@[idx as int].is_current);
                                assert(exists|i: int| 0 <= i < self.branches@.len() && self.branches@[i].is_current
                                    && forall|j: int| 0 <= j < i ==> !self.branches@[j].is_current);
                                if c < idx {
                                    assert(!self.branches@[c].is_current);
                                } else if idx < c {
                                    assert(!self.branches@[idx as int].is_current);
                                }
                            }
                        }
                    }
                    let t = self.branches.len() as isize;
                    let a = idx as isize + delta;
                    self.selected_commit = euclid_rem(a, t) as usize;
                }
            },
            _ => {},
        }
    }
}

/// The Euclidean remainder of `a` by a positive `t`, as `isize::rem_euclid` gives it.
fn euclid_rem(a: isize, t: isize) -> (r: isize)
    requires
        t > 0,
        a > isize::MIN,
    ensures
        r == a as int % t as int,
        0 <= r < t,
{
    if a >= 0 {
        a % t
    } else {
        let b: isize = -a;
        let m: isize = b % t;
        proof {
            let q = b as int / t as int;
            assert(b as int == q * t + m) by(nonlinear_arith)
                requires
                    m == b as int % t as int,
                    q == b as int / t as int,
                    t > 0,
            ;
            if m == 0 {
                assert(a as int == (-q) * t + 0) by(nonlinear_arith)
                    requires
                        a as int == -(b as int),
                        b as int == q * t + m,
                        m == 0,
                ;
                vstd::arithmetic::div_mod::lemma_fundamental_div_mod_converse(a as int, t as int, -q, 0);
            } else {
                assert(a as int == (-q - 1) * t + (t - m)) by(nonlinear_arith)
                    requires
                        a as int == -(b as int),
                        b as int == q * t + m,
                ;
                vstd::arithmetic::div_mod::lemma_fundamental_div_mod_converse(a as int, t as int, -q - 1, t - m);
            }
        }
        if m == 0 { 0 } else { t - m }
    }
}

fn first_current(bs: &Vec<Branch>) -> (r: usize)
    ensures
        (exists|i: int| 0 <= i < bs@.len() && bs@[i].is_current) ==> (r < bs@.len() && bs@[r as int].is_current
            && forall|j: int| 0 <= j < r ==> !bs@[j].is_current),
        !(exists|i: int| 0 <= i < bs@.len() && bs@[i].is_current) ==> r == 0,
{
    let mut i: usize = 0;
    while i < bs.len()
        invariant
            i <= bs@.len(),
            forall|j: int| 0 <= j < i ==> !bs@[j].is_current,
        decreases bs.len() - i,
    {
        if bs[i].is_current {
            return i;
        }
        i = i + 1;
    }
    0
}

} // verus!

verus! {

/// A key the interface reads.
#[derive(Debug, Clone, Copy, PartialEq, Eq, Structural)]
pub enum Key {
    Char(char),
    Esc,
    Up,
    Down,
    Other,
}

/// What the caller does after a key.
#[derive(Debug, Clone, Copy, PartialEq, Eq, Structural)]
pub enum GitAction {
    Nothing,
    LoadCommits,
    LoadBranches,
    LoadWorktrees,
    StageAll,
    UnstageAll,
    CommitHint,
    Push,
    Pull,
    Rebase,
    Discard,
    Checkout,
    AddWorktree,
    Undo,
    MoveDown,
    MoveUp,
}

/// The view a key switches to, if it switches.
pub open spec fn view_of_key(k: Key) -> Option<GitView> {
    match k {
        Key::Char(c) => if c == '1' {
            Some(GitView::Files)
        } else if c == '2' {
            Some(GitView::CommitList)
        } else if c == '3' {
            Some(GitView::Branches)
        } else if c == '4' {
            Some(GitView::Stash)
        } else if c == '5' {
            Some(GitView::Worktree)
        } else {
            None
        },
        _ => None,
    }
}

/// The action of a key in the view `v`.
pub open spec fn action_of_key(v: GitView, k: Key) -> GitAction {
    match k {
        Key::Char(c) => if c == '2' {
            GitAction::LoadCommits
        } else if c == '3' {
            GitAction::LoadBranches
        } else if c == '5' {
            GitAction::LoadWorktrees
        } else if c == 's' && v == GitView::Files {
            GitAction::StageAll
        } else if c == 'u' && v == GitView::Files {
            GitAction::UnstageAll
        } else if c == 'c' {
            GitAction::CommitHint
        } else if c == 'p' {
            GitAction::Push
        } else if c == 'P' {
            GitAction::Pull
        } else if c == 'r' {
            GitAction::Rebase
        } else if c == 'd' && v == GitView::Files {
            GitAction::Discard
        } else if c == 'b' && v == GitView::Branches {
            GitAction::Checkout
        } else if c == 'a' && v == GitView::Worktree {
            GitAction::AddWorktree
        } else if c == 'z' {
            GitAction::Undo
        } else if c == 'j' {
            GitAction::MoveDown
        } else if c == 'k' {
            GitAction::MoveUp
        } else {
            GitAction::Nothing
        },
        Key::Down => GitAction::MoveDown,
        Key::Up => GitAction::MoveUp,
        _ => GitAction::Nothing,
    }
}

impl GitTUI {
    /// Reads a key: `q` or Esc quits, `1` to `5` switch views; the rest is
    /// returned as the action for the caller to perform.
    pub fn handle_key(&mut self, k: Key) -> (a: GitAction)
        ensures
            final(self).quit == (old(self).quit || k == Key::Char('q') || k == Key::Esc),
            final(self).current_view == (match view_of_key(k) {
                Some(v) => v,
                None => old(self).current_view,
            }),
            a == (if k == Key::Char('q') || k == Key::Esc { GitAction::Nothing } else { action_of_key(old(self).current_view, k) }),
            final(self).selected_file == old(self).selected_file,
            final(self).selected_commit == old(self).selected_commit,
            final(self).status == old(self).status,
    {
        let v = self.current_view;
        match k {
            Key::Esc => {
                self.quit = true;
                GitAction::Nothing
            },
            Key::Down => GitAction::MoveDown,
            Key::Up => GitAction::MoveUp,
            Key::Other => GitAction::Nothing,
            Key::Char(c) => {
                if c == 'q' {
                    self.quit = true;
                    GitAction::Nothing
                } else if c == '1' {
                    self.current_view = GitView::Files;
                    GitAction::Nothing
                } else if c == '2' {
                    self.current_view = GitView::CommitList;
                    GitAction::LoadCommits
                } else if c == '3' {
                    self.current_view = GitView::Branches;
                    GitAction::LoadBranches
                } else if c == '4' {
                    self.current_view = GitView::Stash;
                    GitAction::Nothing
                } else if c == '5' {
                    self.current_view = GitView::Worktree;
                    GitAction::LoadWorktrees
                } else if c == 's' && v == GitView::Files {
                    GitAction::StageAll
                } else if c == 'u' && v == GitView::Files {
                    GitAction::UnstageAll
                } else if c == 'c' {
                    GitAction::CommitHint
                } else if c == 'p' {
                    GitAction::Push
                } else if c == 'P' {
                    GitAction::Pull
                } else if c == 'r' {
                    GitAction::Rebase
                } else if c == 'd' && v == GitView::Files {
                    GitAction::Discard
                } else if c == 'b' && v == GitView::Branches {
                    GitAction::Checkout
                } else if c == 'a' && v == GitView::Worktree {
                    GitAction::AddWorktree
                } else if c == 'z' {
                    GitAction::Undo
                } else if c == 'j' {
                    GitAction::MoveDown
                } else if c == 'k' {
                    GitAction::MoveUp
                } else {
                    GitAction::Nothing
                }
            },
        }
    }
}

/// An ASCII character.
pub open spec fn is_ascii_char(c: char) -> bool {
    (c as u32) < 128
}

/// The number of UTF-8 bytes of the first `k` characters of `l`.
pub open spec fn prefix_bytes(l: Seq<char>, k: int) -> int {
    vstd::utf8::encode_utf8(l.take(k)).len() as int
}

/// A status line of `git status --porcelain` that the reader can cut: shorter
/// than three bytes, or with a character boundary at byte three.
pub open spec fn status_line_ok(l: Seq<char>) -> bool {
    (vstd::utf8::encode_utf8(l).len() as usize) < 3 || exists|k: int| 0 <= k <= l.len() && prefix_bytes(l, k) == 3
}

/// The characters of a status line after its first three bytes.
pub open spec fn path_of_line(l: Seq<char>) -> Seq<char> {
    l.skip(choose|k: int| 0 <= k <= l.len() && prefix_bytes(l, k) == 3)
}

/// The second character of a status line, or a space.
pub open spec fn second_char(l: Seq<char>) -> char {
    if l.len() > 1 { l[1] } else { ' ' }
}

proof fn lemma_encode_push(s: Seq<char>, c: char)
    ensures
        vstd::utf8::encode_utf8(s.push(c)) == vstd::utf8::encode_utf8(s) + vstd::utf8::encode_scalar(c as u32),
    decreases s.len(),
{
    if s.len() == 0 {
        assert(s.push(c).drop_first() =~= Seq::<char>::empty());
        assert(vstd::utf8::encode_utf8(Seq::<char>::empty()) =~= Seq::<u8>::empty());
        assert(vstd::utf8::encode_scalar(c as u32) + Seq::<u8>::empty() =~= vstd::utf8::encode_scalar(c as u32));
    } else {
        assert(s.push(c).drop_first() =~= s.drop_first().push(c));
        lemma_encode_push(s.drop_first(), c);
        assert(s.push(c)[0] == s[0]);
    }
}

proof fn lemma_scalar_len(c: char)
    ensures
        1 <= vstd::utf8::encode_scalar(c as u32).len() <= 4,
{
    vstd::utf8::char_is_scalar(c);
}

proof fn lemma_prefix_step(l: Seq<char>, k: int)
    requires
        0 <= k < l.len(),
    ensures
        prefix_bytes(l, k + 1) == prefix_bytes(l, k) + vstd::utf8::encode_scalar(l[k] as u32).len(),
        prefix_bytes(l, k + 1) > prefix_bytes(l, k),
{
    assert(l.take(k + 1) =~= l.take(k).push(l[k]));
    lemma_encode_push(l.take(k), l[k]);
    lemma_scalar_len(l[k]);
}

proof fn lemma_prefix_mono(l: Seq<char>, i: int, j: int)
    requires
        0 <= i <= j <= l.len(),
    ensures
        prefix_bytes(l, j) >= prefix_bytes(l, i) + (j - i),
    decreases j - i,
{
    if i < j {
        lemma_prefix_mono(l, i, j - 1);
        lemma_prefix_step(l, j - 1);
    }
}

/// Where the first three bytes of the characters end: the number of
/// characters whose encoding takes exactly three bytes, if there is one.
fn byte_three(cs: &Vec<char>) -> (r: Option<usize>)
    ensures
        match r {
            Some(k) => k <= cs@.len() && prefix_bytes(cs@, k as int) == 3,
            None => forall|k: int| 0 <= k <= cs@.len() ==> prefix_bytes(cs@, k) != 3,
        },
{
    let ghost l = cs@;
    let mut acc: usize = 0;
    let mut k: usize = 0;
    assert(l.take(0) =~= Seq::<char>::empty());
    while acc < 3 && k < cs.len()
        invariant
            k <= l.len(),
            l == cs@,
            acc as int == prefix_bytes(l, k as int),
            forall|j: int| 0 <= j < k ==> prefix_bytes(l, j) < 3,
        decreases cs.len() - k,
    {
        let w = char_width(cs[k]);
        proof {
            lemma_prefix_step(l, k as int);
        }
        acc = acc + w;
        k = k + 1;
    }
    if acc == 3 {
        Some(k)
    } else {
        proof {
            assert forall|j: int| 0 <= j <= l.len() implies prefix_bytes(l, j) != 3 by {
                if j > k as int {
                    lemma_prefix_mono(l, k as int, j);
                }
            }
        }
        None
    }
}

/// The UTF-8 width of a character.
fn char_width(c: char) -> (r: usize)
    ensures
        r == vstd::utf8::encode_scalar(c as u32).len(),
{
    proof { vstd::utf8::char_is_scalar(c); }
    let u = c as u32;
    if u <= 0x7f { 1 } else if u <= 0x7ff { 2 } else if u <= 0xffff { 3 } else { 4 }
}

/// Where a porcelain line puts its file: 0 staged, 1 unstaged, 2 untracked,
/// 3 conflicted, 4 nowhere; and the file's status.
pub open spec fn place_of(x: char, y: char) -> (int, FileStatus) {
    if x == '?' {
        (2, FileStatus::Modified)
    } else if x == 'U' || y == 'U' {
        (3, FileStatus::Modified)
    } else if x != ' ' {
        (0, if x == 'A' {
            FileStatus::Added
        } else if x == 'D' {
            FileStatus::Deleted
        } else if x == 'R' {
            FileStatus::Renamed
        } else if x == 'C' {
            FileStatus::Copied
        } else {
            FileStatus::Modified
        })
    } else if y != ' ' {
        (1, if y == 'D' { FileStatus::Deleted } else { FileStatus::Modified })
    } else {
        (4, FileStatus::Modified)
    }
}

/// The (path, status) pairs that the first `k` porcelain lines put in `bucket`.
pub open spec fn bucket_upto(ls: Seq<Seq<char>>, k: nat, bucket: int) -> Seq<(Seq<char>, FileStatus)>
    decreases k,
{
    if k == 0 || k > ls.len() {
        seq![]
    } else {
        let l = ls[k - 1];
        bucket_upto(ls, (k - 1) as nat, bucket) + (if (vstd::utf8::encode_utf8(l).len() as usize) >= 3
            && place_of(l[0], second_char(l)).0 == bucket {
            seq![(path_of_line(l), place_of(l[0], second_char(l)).1)]
        } else {
            seq![]
        })
    }
}

proof fn lemma_bucket_grows(ls: Seq<Seq<char>>, k: nat, m: nat, b: int, x: (Seq<char>, FileStatus))
    requires
        k <= m <= ls.len(),
        bucket_upto(ls, k, b).contains(x),
    ensures
        bucket_upto(ls, m, b).contains(x),
    decreases m,
{
    if m > k {
        lemma_bucket_grows(ls, k, (m - 1) as nat, b, x);
        let p = bucket_upto(ls, (m - 1) as nat, b);
        let a = choose|a: int| 0 <= a < p.len() && p[a] == x;
        assert(bucket_upto(ls, m, b)[a] == x);
    }
}

/// A status line lists its file among the staged changes with the status
/// that its index letter (the first) names: `M` modified, `A` added, `D`
/// deleted, `R` renamed, `C` copied; a line with an untouched index (a space
/// first) lists it among the unstaged changes, deleted for a `D` in the work
/// tree letter (the second) and modified for an `M`; a `??` line lists it as
/// untracked, and a line with a `U` in either letter as conflicted.
pub proof fn lemma_status_follows_letters(ls: Seq<Seq<char>>, k: int)
    requires
        0 <= k < ls.len(),
        (vstd::utf8::encode_utf8(ls[k]).len() as usize) >= 3,
    ensures
        ({
            let l = ls[k];
            let x = l[0];
            let y = second_char(l);
            let path = path_of_line(l);
            &&& y != 'U' && x == 'M' ==> bucket_upto(ls, ls.len(), 0).contains((path, FileStatus::Modified))
            &&& y != 'U' && x == 'A' ==> bucket_upto(ls, ls.len(), 0).contains((path, FileStatus::Added))
            &&& y != 'U' && x == 'D' ==> bucket_upto(ls, ls.len(), 0).contains((path, FileStatus::Deleted))
            &&& y != 'U' && x == 'R' ==> bucket_upto(ls, ls.len(), 0).contains((path, FileStatus::Renamed))
            &&& y != 'U' && x == 'C' ==> bucket_upto(ls, ls.len(), 0).contains((path, FileStatus::Copied))
            &&& x == ' ' && y == 'D' ==> bucket_upto(ls, ls.len(), 1).contains((path, FileStatus::Deleted))
            &&& x == ' ' && y == 'M' ==> bucket_upto(ls, ls.len(), 1).contains((path, FileStatus::Modified))
            &&& x == '?' ==> bucket_upto(ls, ls.len(), 2).contains((path, FileStatus::Modified))
            &&& x != '?' && (x == 'U' || y == 'U') ==> bucket_upto(ls, ls.len(), 3).contains((path, FileStatus::Modified))
        }),
{
    let l = ls[k];
    let n = (k + 1) as nat;
    let p = place_of(l[0], second_char(l));
    if 0 <= p.0 <= 3 {
        let pre = bucket_upto(ls, k as nat, p.0);
        assert(bucket_upto(ls, n, p.0) == pre + seq![(path_of_line(l), p.1)]);
        assert(bucket_upto(ls, n, p.0)[pre.len() as int] == (path_of_line(l), p.1));
        lemma_bucket_grows(ls, n, ls.len(), p.0, (path_of_line(l), p.1));
    }
}

/// The (path, status) pairs of some changes.
pub open spec fn change_views(v: Seq<FileChange>) -> Seq<(Seq<char>, FileStatus)> {
    v.map_values(|f: FileChange| (f.path@, f.status))
}

/// None of the changes carries hunks yet.
pub open spec fn without_hunks(v: Seq<FileChange>) -> bool {
    forall|i: int| 0 <= i < v.len() ==> (#[trigger] v[i]).hunks@.len() == 0
}

fn push_change(v: &mut Vec<FileChange>, path: &String, st: FileStatus)
    requires
        without_hunks(old(v)@),
    ensures
        change_views(final(v)@) == change_views(old(v)@).push((path@, st)),
        without_hunks(final(v)@),
{
    let ghost before = change_views(v@);
    v.push(FileChange { path: owned(path.as_str()), status: st, hunks: Vec::new() });
    assert(change_views(v@) =~= before.push((path@, st)));
}

impl GitTUI {
    /// Loads the status from the output of `git status --porcelain -uall`
    /// and of `git branch --show-current`.
    pub fn refresh_status(&mut self, porcelain: &str, branch_out: &str)
        requires
            forall|i: int| 0 <= i < lines(porcelain@).len() ==> status_line_ok(#[trigger] lines(porcelain@)[i]),
        ensures
            change_views(final(self).status.staged@) == bucket_upto(lines(porcelain@), lines(porcelain@).len(), 0),
            change_views(final(self).status.unstaged@) == bucket_upto(lines(porcelain@), lines(porcelain@).len(), 1),
            change_views(final(self).status.untracked@) == bucket_upto(lines(porcelain@), lines(porcelain@).len(), 2),
            change_views(final(self).status.conflicted@) == bucket_upto(lines(porcelain@), lines(porcelain@).len(), 3),
            final(self).status.branch@ == trim(branch_out@),
            final(self).status.is_clean == (final(self).status.staged@.len() == 0 && final(self).status.unstaged@.len() == 0
                && final(self).status.untracked@.len() == 0),
            without_hunks(final(self).status.staged@) && without_hunks(final(self).status.unstaged@)
                && without_hunks(final(self).status.untracked@) && without_hunks(final(self).status.conflicted@),
            final(self).status.ahead == old(self).status.ahead && final(self).status.behind == old(self).status.behind,
            final(self).status.is_rebasing == old(self).status.is_rebasing
                && final(self).status.is_merging == old(self).status.is_merging
                && final(self).status.is_cherry_picking == old(self).status.is_cherry_picking
                && final(self).status.is_reverting == old(self).status.is_reverting,
            *final(self) == (GitTUI { status: final(self).status, ..*old(self) }),
    {
        let ls = lines_of(porcelain);
        let mut staged: Vec<FileChange> = Vec::new();
        let mut unstaged: Vec<FileChange> = Vec::new();
        let mut untracked: Vec<FileChange> = Vec::new();
        let mut conflicted: Vec<FileChange> = Vec::new();
        let mut i: usize = 0;
        while i < ls.len()
            invariant
                views(ls@) == lines(porcelain@),
                i <= ls@.len(),
                forall|j: int| 0 <= j < lines(porcelain@).len() ==> status_line_ok(#[trigger] lines(porcelain@)[j]),
                change_views(staged@) == bucket_upto(lines(porcelain@), i as nat, 0),
                change_views(unstaged@) == bucket_upto(lines(porcelain@), i as nat, 1),
                change_views(untracked@) == bucket_upto(lines(porcelain@), i as nat, 2),
                change_views(conflicted@) == bucket_upto(lines(porcelain@), i as nat, 3),
                without_hunks(staged@) && without_hunks(unstaged@) && without_hunks(untracked@) && without_hunks(conflicted@),
            decreases ls.len() - i,
        {
            let line = ls[i].as_str();
            let ghost l = lines(porcelain@)[i as int];
            assert(l == ls@[i as int]@);
            assert(status_line_ok(l));
            let ghost s0 = change_views(staged@);
            let ghost s1 = change_views(unstaged@);
            let ghost s2 = change_views(untracked@);
            let ghost s3 = change_views(conflicted@);
            if line.len() >= 3 {
                let cs = chars_of(line);
                assert(cs@ =~= l);
                proof {
                    assert(l.take(l.len() as int) =~= l);
                    assert(l.take(0) =~= Seq::<char>::empty());
                }
                let k = match byte_three(&cs) {
                    Some(k) => k,
                    None => { assert(false); 0 },
                };
                proof {
                    let kk = choose|k: int| 0 <= k <= l.len() && prefix_bytes(l, k) == 3;
                    if kk < k { lemma_prefix_mono(l, kk + 1, k as int); lemma_prefix_step(l, kk); }
                    if (k as int) < kk { lemma_prefix_mono(l, k as int + 1, kk); lemma_prefix_step(l, k as int); }
                    assert(l.take(0) =~= Seq::<char>::empty());
                    assert(k > 0);
                }
                let x = cs[0];
                let y = if cs.len() > 1 { cs[1] } else { ' ' };
                let path = string_of_range(&cs, k, cs.len());
                assert(path@ == path_of_line(l));
                if x == '?' {
                    push_change(&mut untracked, &path, FileStatus::Modified);
                } else if x == 'U' || y == 'U' {
                    push_change(&mut conflicted, &path, FileStatus::Modified);
                } else if x != ' ' {
                    let st = if x == 'A' {
                        FileStatus::Added
                    } else if x == 'D' {
                        FileStatus::Deleted
                    } else if x == 'R' {
                        FileStatus::Renamed
                    } else if x == 'C' {
                        FileStatus::Copied
                    } else {
                        FileStatus::Modified
                    };
                    push_change(&mut staged, &path, st);
                } else if y != ' ' {
                    let st = if y == 'D' { FileStatus::Deleted } else { FileStatus::Modified };
                    push_change(&mut unstaged, &path, st);
                }
            }
            assert(change_views(staged@) =~= bucket_upto(lines(porcelain@), (i + 1) as nat, 0));
            assert(change_views(unstaged@) =~= bucket_upto(lines(porcelain@), (i + 1) as nat, 1));
            assert(change_views(untracked@) =~= bucket_upto(lines(porcelain@), (i + 1) as nat, 2));
            assert(change_views(conflicted@) =~= bucket_upto(lines(porcelain@), (i + 1) as nat, 3));
            i = i + 1;
        }
        let clean = staged.len() == 0 && unstaged.len() == 0 && untracked.len() == 0;
        self.status.staged = staged;
        self.status.unstaged = unstaged;
        self.status.untracked = untracked;
        self.status.conflicted = conflicted;
        self.status.branch = trim_str(branch_out);
        self.status.is_clean = clean;
    }

    /// Sets how far the branch is ahead of and behind its upstream, from the
    /// counts that `git rev-list --count` printed (0 for a count that is
    /// missing or no number).
    pub fn set_divergence(&mut self, ahead_out: Option<&str>, behind_out: Option<&str>)
        ensures
            final(self).status.ahead == (match ahead_out {
                Some(s) => match parse_i32_spec(trim(s@)) { Some(n) => n, None => 0 },
                None => old(self).status.ahead,
            }),
            final(self).status.behind == (match behind_out {
                Some(s) => match parse_i32_spec(trim(s@)) { Some(n) => n, None => 0 },
                None => old(self).status.behind,
            }),
            final(self).status.staged == old(self).status.staged,
            final(self).current_view == old(self).current_view,
    {
        if let Some(s) = ahead_out {
            let t = trim_str(s);
            self.status.ahead = match parse_i32(t.as_str()) {
                Some(n) => n,
                None => 0,
            };
        }
        if let Some(s) = behind_out {
            let t = trim_str(s);
            self.status.behind = match parse_i32(t.as_str()) {
                Some(n) => n,
                None => 0,
            };
        }
    }
}

/// Whether every porcelain line can be cut, as `refresh_status` requires.
pub fn status_output_ok(porcelain: &str) -> (r: bool)
    ensures
        r == forall|i: int| 0 <= i < lines(porcelain@).len() ==> status_line_ok(#[trigger] lines(porcelain@)[i]),
{
    let ls = lines_of(porcelain);
    let mut i: usize = 0;
    while i < ls.len()
        invariant
            views(ls@) == lines(porcelain@),
            i <= ls@.len(),
            forall|j: int| 0 <= j < i ==> status_line_ok(#[trigger] lines(porcelain@)[j]),
        decreases ls.len() - i,
    {
        let line = ls[i].as_str();
        assert(lines(porcelain@)[i as int] == ls@[i as int]@);
        if line.len() >= 3 {
            let cs = chars_of(line);
            if byte_three(&cs).is_none() {
                return false;
            }
        }
        i = i + 1;
    }
    true
}

} // verus!

verus! {

/// A log line whose hash can be shortened: fewer than four fields, or a hash
/// whose first seven characters are ASCII.
pub open spec fn commit_line_ok(l: Seq<char>) -> bool {
    let p = split_char(l, '|');
    p.len() < 4 || (p[0].len() >= 7 && forall|k: int| 0 <= k < 7 ==> is_ascii_char(#[trigger] p[0][k]))
}

/// The commit a log line `%h|%s|%an|%ad|%p` describes, if it has four fields.
pub open spec fn commit_of(l: Seq<char>) -> Option<(Seq<char>, Seq<char>, Seq<char>, Seq<char>, Seq<char>, Seq<Seq<char>>)> {
    let p = split_char(l, '|');
    if p.len() >= 4 {
        Some((p[0], p[0].take(7), p[1], p[2], p[3], if p.len() > 4 { split_char(p[4], ' ') } else { seq![] }))
    } else {
        None
    }
}

/// The commits of the first `k` log lines.
pub open spec fn commits_upto(ls: Seq<Seq<char>>, k: nat) -> Seq<(Seq<char>, Seq<char>, Seq<char>, Seq<char>, Seq<char>, Seq<Seq<char>>)>
    decreases k,
{
    if k == 0 || k > ls.len() {
        seq![]
    } else {
        commits_upto(ls, (k - 1) as nat) + (match commit_of(ls[k - 1]) {
            Some(c) => seq![c],
            None => seq![],
        })
    }
}

/// The fields of some commits.
pub open spec fn commit_views(v: Seq<Commit>) -> Seq<(Seq<char>, Seq<char>, Seq<char>, Seq<char>, Seq<char>, Seq<Seq<char>>)> {
    v.map_values(|c: Commit| (c.hash@, c.short_hash@, c.message@, c.author@, c.date@, views(c.parents@)))
}

impl GitTUI {
    /// Loads the commits from the output of `git log --pretty=format:%h|%s|%an|%ad|%p`.
    pub fn refresh_commits(&mut self, log: &str)
        requires
            forall|i: int| 0 <= i < lines(log@).len() ==> commit_line_ok(#[trigger] lines(log@)[i]),
        ensures
            commit_views(final(self).commits@) == commits_upto(lines(log@), lines(log@).len()),
            final(self).current_view == old(self).current_view,
            final(self).status == old(self).status,
    {
        let ls = lines_of(log);
        let mut out: Vec<Commit> = Vec::new();
        let mut i: usize = 0;
        while i < ls.len()
            invariant
                views(ls@) == lines(log@),
                i <= ls@.len(),
                forall|j: int| 0 <= j < lines(log@).len() ==> commit_line_ok(#[trigger] lines(log@)[j]),
                commit_views(out@) == commits_upto(lines(log@), i as nat),
            decreases ls.len() - i,
        {
            let ghost l = lines(log@)[i as int];
            assert(l == ls@[i as int]@);
            assert(commit_line_ok(l));
            let parts = split_on(ls[i].as_str(), '|');
            let ghost before = commit_views(out@);
            if parts.len() >= 4 {
                let hv = chars_of(parts[0].as_str());
                let short = string_of_range(&hv, 0, 7);
                let parents = if parts.len() > 4 { split_on(parts[4].as_str(), ' ') } else { Vec::new() };
                let ghost pv = views(parents@);
                assert(short@ =~= parts@[0]@.take(7));
                assert(pv =~= (if parts@.len() > 4 { split_char(parts@[4]@, ' ') } else { Seq::<Seq<char>>::empty() }));
                assert(views(parts@) == split_char(l, '|'));
                assert(commit_of(l)->0 == (parts@[0]@, parts@[0]@.take(7), parts@[1]@, parts@[2]@, parts@[3]@, pv));
                out.push(Commit {
                    hash: owned(parts[0].as_str()),
                    short_hash: short,
                    message: owned(parts[1].as_str()),
                    author: owned(parts[2].as_str()),
                    date: owned(parts[3].as_str()),
                    parents,
                });
                assert(commit_views(out@) =~= before.push(commit_of(l)->0));
            } else {
                assert(commit_views(out@) =~= before + Seq::<(Seq<char>, Seq<char>, Seq<char>, Seq<char>, Seq<char>, Seq<Seq<char>>)>::empty());
            }
            i = i + 1;
        }
        self.commits = out;
    }
}

/// The branch a line `%(refname:short)|%(HEAD)|%(upstream:short)` describes,
/// if its name is not empty: name, current, remote, upstream.
pub open spec fn branch_of(l: Seq<char>) -> Option<(Seq<char>, bool, bool, Option<Seq<char>>)> {
    let p = split_char(l, '|');
    if p.len() > 0 && p[0].len() > 0 {
        Some((
            p[0],
            p.len() > 1 && p[1] == "*"@,
            is_prefix("remotes/"@, p[0]),
            if p.len() > 2 && p[2].len() > 0 { Some(p[2]) } else { None },
        ))
    } else {
        None
    }
}

/// The branches of the first `k` lines.
pub open spec fn branches_upto(ls: Seq<Seq<char>>, k: nat) -> Seq<(Seq<char>, bool, bool, Option<Seq<char>>)>
    decreases k,
{
    if k == 0 || k > ls.len() {
        seq![]
    } else {
        branches_upto(ls, (k - 1) as nat) + (match branch_of(ls[k - 1]) {
            Some(b) => seq![b],
            None => seq![],
        })
    }
}

/// The fields of some branches.
pub open spec fn branch_views(v: Seq<Branch>) -> Seq<(Seq<char>, bool, bool, Option<Seq<char>>)> {
    v.map_values(|b: Branch| (b.name@, b.is_current, b.is_remote, crate::text::opt_string_view(b.upstream)))
}

impl GitTUI {
    /// Loads the branches from the output of `git branch -a --format=...`.
    pub fn refresh_branches(&mut self, out_text: &str)
        ensures
            branch_views(final(self).branches@) == branches_upto(lines(out_text@), lines(out_text@).len()),
            forall|i: int| 0 <= i < final(self).branches@.len() ==> final(self).branches@[i].ahead == 0
                && final(self).branches@[i].behind == 0,
            final(self).current_view == old(self).current_view,
            final(self).status == old(self).status,
    {
        let ls = lines_of(out_text);
        let mut out: Vec<Branch> = Vec::new();
        let mut i: usize = 0;
        while i < ls.len()
            invariant
                views(ls@) == lines(out_text@),
                i <= ls@.len(),
                branch_views(out@) == branches_upto(lines(out_text@), i as nat),
                forall|k: int| 0 <= k < out@.len() ==> out@[k].ahead == 0 && out@[k].behind == 0,
            decreases ls.len() - i,
        {
            let ghost l = lines(out_text@)[i as int];
            assert(l == ls@[i as int]@);
            let parts = split_on(ls[i].as_str(), '|');
            proof {
                lemma_split_nonempty(l, '|', seq![]);
            }
            let ghost before = branch_views(out@);
            let name_len = chars_of(parts[0].as_str()).len();
            if name_len > 0 {
                let is_current = parts.len() > 1 && str_eq(parts[1].as_str(), "*");
                let upstream = if parts.len() > 2 && chars_of(parts[2].as_str()).len() > 0 {
                    Some(owned(parts[2].as_str()))
                } else {
                    None
                };
                let is_remote = starts_with(parts[0].as_str(), "remotes/");
                out.push(Branch { name: owned(parts[0].as_str()), is_current, is_remote, upstream, ahead: 0, behind: 0 });
                assert(branch_views(out@) =~= before.push(branch_of(l)->0));
            } else {
                assert(branch_views(out@) =~= before + Seq::<(Seq<char>, bool, bool, Option<Seq<char>>)>::empty());
            }
            i = i + 1;
        }
        self.branches = out;
    }
}

/// The worktrees listed by the first `k` lines of `git worktree list
/// --porcelain`, with the path last read before them.
pub open spec fn worktrees_upto(ls: Seq<Seq<char>>, k: nat) -> (Seq<Seq<char>>, Seq<char>)
    decreases k,
{
    if k == 0 || k > ls.len() {
        (seq![], seq![])
    } else {
        let (w, cur) = worktrees_upto(ls, (k - 1) as nat);
        let l = ls[k - 1];
        if is_prefix("path "@, l) {
            (w, l.skip(5))
        } else if l == "HEAD"@ && cur.len() > 0 {
            (w.push(cur), cur)
        } else {
            (w, cur)
        }
    }
}

impl GitTUI {
    /// Loads the worktrees from the output of `git worktree list --porcelain`.
    pub fn refresh_worktrees(&mut self, out_text: &str)
        ensures
            views(final(self).worktrees@) == worktrees_upto(lines(out_text@), lines(out_text@).len()).0,
            final(self).current_view == old(self).current_view,
            final(self).status == old(self).status,
    {
        let ls = lines_of(out_text);
        let mut out: Vec<String> = Vec::new();
        let mut current = String::new();
        let mut i: usize = 0;
        while i < ls.len()
            invariant
                views(ls@) == lines(out_text@),
                i <= ls@.len(),
                (views(out@), current@) == worktrees_upto(lines(out_text@), i as nat),
            decreases ls.len() - i,
        {
            let line = ls[i].as_str();
            assert(lines(out_text@)[i as int] == ls@[i as int]@);
            if starts_with(line, "path ") {
                let cs = chars_of(line);
                proof {
                    reveal_strlit("path ");
                }
                current = string_of_range(&cs, 5, cs.len());
            } else if str_eq(line, "HEAD") && chars_of(current.as_str()).len() > 0 {
                let ghost before = views(out@);
                out.push(owned(current.as_str()));
                assert(views(out@) =~= before.push(current@));
            }
            i = i + 1;
        }
        self.worktrees = out;
    }
}

/// The header line: the branch, then either a clean mark or the counts of
/// staged and unstaged files, then the views.
pub open spec fn header_text(s: GitStatus) -> Seq<char> {
    "\u{2387}  "@ + s.branch@ + "  \u{2502}  "@ + (if s.is_clean {
        "\u{2713} Clean"@
    } else {
        dec(s.staged@.len()) + " staged, "@ + dec(s.unstaged@.len() + s.untracked@.len()) + " unstaged"@
    }) + "  \u{2502}  [1]Files  [2]Commits  [3]Branches  [4]Stash  [5]Worktree"@
}

/// The header line of the interface.
pub fn header_line(s: &GitStatus) -> (r: String)
    requires
        s.unstaged@.len() + s.untracked@.len() <= u64::MAX,
    ensures
        r@ == header_text(*s),
{
    let status = if s.is_clean {
        owned("\u{2713} Clean")
    } else {
        let a = u64_to_string(s.staged.len() as u64);
        let b = u64_to_string(s.unstaged.len() as u64 + s.untracked.len() as u64);
        cat3(a.as_str(), " staged, ", cat(b.as_str(), " unstaged").as_str())
    };
    let head = cat3("\u{2387}  ", s.branch.as_str(), "  \u{2502}  ");
    cat3(head.as_str(), status.as_str(), "  \u{2502}  [1]Files  [2]Commits  [3]Branches  [4]Stash  [5]Worktree")
}

/// The line of a branch in the branches view.
pub fn branch_line(b: &Branch) -> (r: String)
    ensures
        r@ == (if b.is_current { "\u{25CF}"@ } else { " "@ }) + " "@ + (if b.is_remote { "remotes/"@ + b.name@ } else { b.name@ }),
{
    let icon = if b.is_current { "\u{25CF}" } else { " " };
    let name = if b.is_remote { cat("remotes/", b.name.as_str()) } else { owned(b.name.as_str()) };
    cat3(icon, " ", name.as_str())
}

/// The line of a stash entry.
pub fn stash_line(s: &StashEntry) -> (r: String)
    ensures
        r@ == "stash@{"@ + dec(s.index as nat) + "}: "@ + s.message@,
{
    let n = u64_to_string(s.index as u64);
    cat3(cat("stash@{", n.as_str()).as_str(), "}: ", s.message.as_str())
}

} // verus!

verus! {

/// Whether every log line can be read, as `refresh_commits` requires.
pub fn commits_output_ok(log: &str) -> (r: bool)
    ensures
        r == forall|i: int| 0 <= i < lines(log@).len() ==> commit_line_ok(#[trigger] lines(log@)[i]),
{
    let ls = lines_of(log);
    let mut i: usize = 0;
    while i < ls.len()
        invariant
            views(ls@) == lines(log@),
            i <= ls@.len(),
            forall|j: int| 0 <= j < i ==> commit_line_ok(#[trigger] lines(log@)[j]),
        decreases ls.len() - i,
    {
        let ghost l = lines(log@)[i as int];
        assert(l == ls@[i as int]@);
        let parts = split_on(ls[i].as_str(), '|');
        if parts.len() >= 4 {
            let hv = chars_of(parts[0].as_str());
            assert(views(parts@) == split_char(l, '|'));
            assert(hv@ == split_char(l, '|')[0]);
            if hv.len() < 7 {
                assert(!commit_line_ok(l));
                return false;
            }
            let mut k: usize = 0;
            while k < 7
                invariant
                    k <= 7,
                    hv@.len() >= 7,
                    hv@ == split_char(l, '|')[0],
                    split_char(l, '|').len() >= 4,
                    i < lines(log@).len(),
                    l == lines(log@)[i as int],
                    forall|m: int| 0 <= m < k ==> is_ascii_char(#[trigger] hv@[m]),
                decreases 7 - k,
            {
                if (hv[k] as u32) >= 128 {
                    assert(!is_ascii_char(hv@[k as int]));
                    assert(!commit_line_ok(l));
                    return false;
                }
                k = k + 1;
            }
        }
        assert(commit_line_ok(l));
        i = i + 1;
    }
    true
}

} // verus!
