//! Git commands: the arguments handed to `git`, and the reports made of what
//! it prints.

use vstd::prelude::*;
use crate::browser::first_lines;
use crate::text::{
    cat, cat3, chars_of, join, lines, lines_of, owned, str_eq, string_of_range, trim, trim_str,
    u64_to_string, dec, views,
};

verus! {

/// A git subcommand of the tool.
#[derive(Debug, Clone)]
pub enum GitCommands {
    Status,
    Commits { n: usize },
    Branches,
    Branch,
    Commit { message: String },
    CommitAuto,
    Push,
    Ignore { template: Option<String> },
    Diff { staged: bool },
    SessionStart,
    SessionRollback,
}

/// Options of the `git` subcommand.
#[derive(Debug, Clone)]
pub struct GitOpts {
    pub command: GitCommands,
}

/// Runs git subcommands; the process calls are made by the caller.
#[derive(Debug, Clone, Copy)]
pub struct GitOps {}

impl GitOps {
    /// A runner of git subcommands.
    pub fn new() -> (r: Self) {
        GitOps {}
    }
}

/// The strings of a list of literals.
pub open spec fn arg_views(v: Seq<String>) -> Seq<Seq<char>> {
    views(v)
}

fn args2(a: &str, b: &str) -> (r: Vec<String>)
    ensures
        views(r@) == seq![a@, b@],
{
    let mut v: Vec<String> = Vec::new();
    v.push(owned(a));
    v.push(owned(b));
    assert(views(v@) =~= seq![a@, b@]);
    v
}

fn args3(a: &str, b: &str, c: &str) -> (r: Vec<String>)
    ensures
        views(r@) == seq![a@, b@, c@],
{
    let mut v: Vec<String> = Vec::new();
    v.push(owned(a));
    v.push(owned(b));
    v.push(owned(c));
    assert(views(v@) =~= seq![a@, b@, c@]);
    v
}

/// The arguments of the first `git` call a subcommand makes, if it makes one.
pub open spec fn first_call(cmd: GitCommands) -> Option<Seq<Seq<char>>> {
    match cmd {
        GitCommands::Status => Some(seq!["status"@, "--short"@]),
        GitCommands::Commits { n } => Some(seq!["log"@, "-"@ + dec(n as nat), "--oneline"@]),
        GitCommands::Branches => Some(seq!["branch"@, "-a"@]),
        GitCommands::Branch => Some(seq!["branch"@, "--show-current"@]),
        GitCommands::Commit { message } => Some(seq!["add"@, "-A"@]),
        GitCommands::CommitAuto => Some(seq!["diff"@, "--cached"@]),
        GitCommands::Push => Some(seq!["push"@]),
        GitCommands::Ignore { template } => None,
        GitCommands::Diff { staged } => if staged { Some(seq!["diff"@, "--cached"@]) } else { Some(seq!["diff"@]) },
        GitCommands::SessionStart => None,
        GitCommands::SessionRollback => Some(seq!["tag"@, "--list"@, "devutils_session_*"@, "--sort=-creatordate"@]),
    }
}

/// The arguments of the first `git` call that `cmd` makes.
pub fn first_git_call(cmd: &GitCommands) -> (r: Option<Vec<String>>)
    ensures
        match r {
            Some(v) => first_call(*cmd) == Some(views(v@)),
            None => first_call(*cmd) is None,
        },
{
    match cmd {
        GitCommands::Status => Some(args2("status", "--short")),
        GitCommands::Commits { n } => {
            let d = u64_to_string(*n as u64);
            let flag = cat("-", d.as_str());
            Some(args3("log", flag.as_str(), "--oneline"))
        },
        GitCommands::Branches => Some(args2("branch", "-a")),
        GitCommands::Branch => Some(args2("branch", "--show-current")),
        GitCommands::Commit { message: _ } => Some(args2("add", "-A")),
        GitCommands::CommitAuto => Some(args2("diff", "--cached")),
        GitCommands::Push => {
            let mut v: Vec<String> = Vec::new();
            v.push(owned("push"));
            assert(views(v@) =~= seq!["push"@]);
            Some(v)
        },
        GitCommands::Ignore { template: _ } => None,
        GitCommands::Diff { staged } => {
            if *staged {
                Some(args2("diff", "--cached"))
            } else {
                let mut v: Vec<String> = Vec::new();
                v.push(owned("diff"));
                assert(views(v@) =~= seq!["diff"@]);
                Some(v)
            }
        },
        GitCommands::SessionStart => None,
        GitCommands::SessionRollback => {
            let mut v = args2("tag", "--list");
            let ghost a = views(v@);
            v.push(owned("devutils_session_*"));
            assert(views(v@) =~= a.push("devutils_session_*"@));
            let ghost b = views(v@);
            v.push(owned("--sort=-creatordate"));
            assert(views(v@) =~= b.push("--sort=-creatordate"@));
            assert(views(v@) =~= seq!["tag"@, "--list"@, "devutils_session_*"@, "--sort=-creatordate"@]);
            Some(v)
        },
    }
}

/// The lines of `ls`, each indented by two spaces.
pub open spec fn indent2(ls: Seq<Seq<char>>) -> Seq<Seq<char>> {
    ls.map_values(|l: Seq<char>| "  "@ + l)
}

fn indent_first(ls: &Vec<String>, max: usize, trimmed: bool) -> (r: Vec<String>)
    ensures
        views(r@) == (if trimmed {
            indent2(first_lines(views(ls@), max as nat).map_values(|l: Seq<char>| trim(l)))
        } else {
            indent2(first_lines(views(ls@), max as nat))
        }),
{
    let mut out: Vec<String> = Vec::new();
    let mut i: usize = 0;
    while i < ls.len() && i < max
        invariant
            i <= ls@.len(),
            i <= max,
            views(out@) == (if trimmed {
                indent2(views(ls@).subrange(0, i as int).map_values(|l: Seq<char>| trim(l)))
            } else {
                indent2(views(ls@).subrange(0, i as int))
            }),
        decreases ls.len() - i,
    {
        let ghost before = views(out@);
        if trimmed {
            let t = trim_str(ls[i].as_str());
            out.push(cat("  ", t.as_str()));
            assert(views(out@) =~= before.push("  "@ + trim(ls@[i as int]@)));
            assert(views(out@) =~= indent2(views(ls@).subrange(0, i + 1).map_values(|l: Seq<char>| trim(l))));
        } else {
            out.push(cat("  ", ls[i].as_str()));
            assert(views(out@) =~= before.push("  "@ + ls@[i as int]@));
            assert(views(out@) =~= indent2(views(ls@).subrange(0, i + 1)));
        }
        i = i + 1;
    }
    assert(views(ls@).subrange(0, i as int) =~= first_lines(views(ls@), max as nat));
    out
}

/// The report of `git status --short`: a header, then, when the call
/// succeeded, either a clean mark or the first ten lines it printed.
pub open spec fn status_lines(success: bool, out: Seq<char>) -> Seq<Seq<char>> {
    seq!["\n\u{1F4CA} Git Status"@] + (if !success {
        seq![]
    } else if out.len() == 0 {
        seq!["  \u{2705} Clean"@]
    } else {
        indent2(first_lines(lines(out), 10))
    })
}

/// The lines printed for the status subcommand.
pub fn status_report(success: bool, stdout: &str) -> (r: Vec<String>)
    ensures
        views(r@) == status_lines(success, stdout@),
{
    let mut out: Vec<String> = Vec::new();
    out.push(owned("\n\u{1F4CA} Git Status"));
    let ghost head = views(out@);
    if success {
        let cs = chars_of(stdout);
        if cs.len() == 0 {
            out.push(owned("  \u{2705} Clean"));
            assert(views(out@) =~= status_lines(success, stdout@));
        } else {
            let ls = lines_of(stdout);
            let body = indent_first(&ls, 10, false);
            let mut i: usize = 0;
            while i < body.len()
                invariant
                    i <= body@.len(),
                    views(out@) == head + views(body@).subrange(0, i as int),
                decreases body.len() - i,
            {
                let ghost before = views(out@);
                out.push(owned(body[i].as_str()));
                assert(views(out@) =~= before.push(body@[i as int]@));
                assert(views(out@) =~= head + views(body@).subrange(0, i + 1));
                i = i + 1;
            }
            assert(views(body@).subrange(0, i as int) =~= views(body@));
            assert(views(out@) =~= status_lines(success, stdout@));
        }
    } else {
        assert(views(out@) =~= status_lines(success, stdout@));
    }
    out
}

/// The lines printed for the commits subcommand: a header and the first ten
/// lines of the log.
pub fn commits_report(stdout: &str) -> (r: Vec<String>)
    ensures
        views(r@) == seq!["\n\u{1F4DC} Commits:"@] + indent2(first_lines(lines(stdout@), 10)),
{
    let ls = lines_of(stdout);
    let body = indent_first(&ls, 10, false);
    let mut out: Vec<String> = Vec::new();
    out.push(owned("\n\u{1F4DC} Commits:"));
    let ghost head = views(out@);
    let mut i: usize = 0;
    while i < body.len()
        invariant
            i <= body@.len(),
            views(out@) == head + views(body@).subrange(0, i as int),
        decreases body.len() - i,
    {
        let ghost before = views(out@);
        out.push(owned(body[i].as_str()));
        assert(views(out@) =~= before.push(body@[i as int]@));
        assert(views(out@) =~= head + views(body@).subrange(0, i + 1));
        i = i + 1;
    }
    assert(views(body@).subrange(0, i as int) =~= views(body@));
    out
}

/// The lines printed for the branches subcommand: every line, trimmed and
/// indented.
pub fn branches_report(stdout: &str) -> (r: Vec<String>)
    ensures
        views(r@) == indent2(lines(stdout@).map_values(|l: Seq<char>| trim(l))),
{
    let ls = lines_of(stdout);
    let r = indent_first(&ls, ls.len(), true);
    assert(first_lines(views(ls@), ls@.len()) =~= views(ls@));
    r
}

/// The line printed for the branch subcommand.
pub fn branch_report(stdout: &str) -> (r: String)
    ensures
        r@ == "  \u{1F4CD} "@ + trim(stdout@),
{
    let t = trim_str(stdout);
    cat("  \u{1F4CD} ", t.as_str())
}

/// The arguments of the commit that follows `git add -A`.
pub fn commit_args(message: &str) -> (r: Vec<String>)
    ensures
        views(r@) == seq!["commit"@, "-m"@, message@],
{
    args3("commit", "-m", message)
}

/// The line printed after a commit.
pub fn committed_report(message: &str) -> (r: String)
    ensures
        r@ == "  \u{2705} Committed: "@ + message@,
{
    cat("  \u{2705} Committed: ", message)
}

/// The line printed after a push.
pub fn push_report(success: bool) -> (r: String)
    ensures
        r@ == (if success { "  \u{2B06}\u{FE0F} Pushed"@ } else { "  \u{274C} Failed"@ }),
{
    if success {
        owned("  \u{2B06}\u{FE0F} Pushed")
    } else {
        owned("  \u{274C} Failed")
    }
}

/// The `.gitignore` text for a template name.
pub open spec fn ignore_text(template: Option<Seq<char>>) -> Seq<char> {
    match template {
        Some(t) => if t == "python"@ {
            "# Python\n__pycache__/\n*.pyc\nvenv/\n"@
        } else if t == "node"@ {
            "# Node\nnode_modules/\n*.log\n"@
        } else {
            "# DevUtils\nnode_modules/\n__pycache__/\n"@
        },
        None => "# DevUtils\nnode_modules/\n__pycache__/\n"@,
    }
}

/// The `.gitignore` text for a template name.
pub fn ignore_template(template: Option<&str>) -> (r: String)
    ensures
        r@ == ignore_text(match template {
            Some(t) => Some(t@),
            None => None,
        }),
{
    match template {
        Some(t) => {
            if str_eq(t, "python") {
                owned("# Python\n__pycache__/\n*.pyc\nvenv/\n")
            } else if str_eq(t, "node") {
                owned("# Node\nnode_modules/\n*.log\n")
            } else {
                owned("# DevUtils\nnode_modules/\n__pycache__/\n")
            }
        },
        None => owned("# DevUtils\nnode_modules/\n__pycache__/\n"),
    }
}

/// The prompt that asks for a commit message for the staged diff, or `None`
/// when nothing is staged.
pub fn auto_commit_prompt(diff: &str) -> (r: Option<String>)
    ensures
        match r {
            Some(p) => diff@.len() > 0 && p@ == "Generate a concise, professional Git commit message for these changes:\n\n"@ + diff@,
            None => diff@.len() == 0,
        },
{
    let cs = chars_of(diff);
    if cs.len() == 0 {
        None
    } else {
        Some(cat("Generate a concise, professional Git commit message for these changes:\n\n", diff))
    }
}

/// A back-quote or a double quote.
pub open spec fn is_quote(c: char) -> bool {
    c == '`' || c == '"'
}

/// `s` without the quotes at either end.
pub open spec fn strip_quotes(s: Seq<char>) -> Seq<char>
    decreases s.len(),
{
    if s.len() > 0 && is_quote(s[0]) {
        strip_quotes(s.drop_first())
    } else if s.len() > 0 && is_quote(s.last()) {
        strip_quotes(s.drop_last())
    } else {
        s
    }
}

/// The commit message made of the model's answer: its first line without
/// quotes at either end, or a fixed message when there is no answer or no line.
pub open spec fn commit_message(answer: Option<Seq<char>>) -> Seq<char> {
    let m = match answer {
        Some(a) => a,
        None => "update: automated commit"@,
    };
    if lines(m).len() > 0 {
        strip_quotes(lines(m)[0])
    } else {
        strip_quotes("update: automated commit"@)
    }
}

fn strip_quotes_str(s: &str) -> (r: String)
    ensures
        r@ == strip_quotes(s@),
{
    let v = chars_of(s);
    let mut lo: usize = 0;
    let mut hi: usize = v.len();
    assert(s@.subrange(0, s@.len() as int) =~= s@);
    while lo < hi && (v[lo] == '`' || v[lo] == '"' || v[hi - 1] == '`' || v[hi - 1] == '"')
        invariant
            v@ == s@,
            lo <= hi <= v@.len(),
            strip_quotes(s@) == strip_quotes(s@.subrange(lo as int, hi as int)),
        decreases hi - lo,
    {
        let ghost cur = s@.subrange(lo as int, hi as int);
        if v[lo] == '`' || v[lo] == '"' {
            assert(cur.drop_first() =~= s@.subrange(lo + 1, hi as int));
            lo = lo + 1;
        } else {
            assert(cur.drop_last() =~= s@.subrange(lo as int, hi - 1));
            hi = hi - 1;
        }
    }
    string_of_range(&v, lo, hi)
}

/// The commit message made of the model's answer.
pub fn clean_commit_message(answer: Option<&str>) -> (r: String)
    ensures
        r@ == commit_message(match answer {
            Some(a) => Some(a@),
            None => None,
        }),
{
    let m = match answer {
        Some(a) => owned(a),
        None => owned("update: automated commit"),
    };
    let ls = lines_of(m.as_str());
    if ls.len() > 0 {
        strip_quotes_str(ls[0].as_str())
    } else {
        strip_quotes_str("update: automated commit")
    }
}

/// The tag of a session started at `timestamp` (`%Y%m%d_%H%M%S`).
pub fn session_tag(timestamp: &str) -> (r: String)
    ensures
        r@ == "devutils_session_"@ + timestamp@,
{
    cat("devutils_session_", timestamp)
}

/// The line printed when a session starts.
pub fn session_started_report(tag: &str) -> (r: String)
    ensures
        r@ == "  \u{1F3C1} Session started. Tag: "@ + tag@,
{
    cat("  \u{1F3C1} Session started. Tag: ", tag)
}

/// The tag to roll back to: the first line of the sorted tag list.
pub fn rollback_target(tags: &str) -> (r: Option<String>)
    ensures
        match r {
            Some(t) => lines(tags@).len() > 0 && t@ == lines(tags@)[0],
            None => lines(tags@).len() == 0,
        },
{
    let ls = lines_of(tags);
    if ls.len() > 0 {
        Some(owned(ls[0].as_str()))
    } else {
        None
    }
}

/// The line printed when a rollback finds no session, or the one printed
/// before resetting to `target`.
pub fn rollback_report(target: Option<&str>) -> (r: String)
    ensures
        r@ == (match target {
            Some(t) => "  \u{23EA} Rolling back to: "@ + t@,
            None => "  \u{26A0}\u{FE0F} No devutils sessions found to rollback."@,
        }),
{
    match target {
        Some(t) => cat("  \u{23EA} Rolling back to: ", t),
        None => owned("  \u{26A0}\u{FE0F} No devutils sessions found to rollback."),
    }
}

/// The arguments of the reset to a session's tag.
pub fn rollback_args(target: &str) -> (r: Vec<String>)
    ensures
        views(r@) == seq!["reset"@, "--hard"@, target@],
{
    args3("reset", "--hard", target)
}

} // verus!
