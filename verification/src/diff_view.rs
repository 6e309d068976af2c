//! The diff viewer: the arguments handed to `git diff` and `git log`, and
//! the coloured reports made of what they print.

use vstd::prelude::*;
use crate::text::{
    cat, cat3, chars_of, dec, dec_int, i64_to_string, is_prefix, lines, lines_of, owned,
    parse_i64, parse_i64_spec, push_str, split_char, split_on, starts_with, str_eq, trim,
    trim_str, u64_to_string, views,
};

verus! {

/// Settings of the diff viewer.
#[derive(Debug, Clone, Copy, PartialEq, Eq, Structural)]
pub struct DiffViewer {
    pub show_context: usize,
    pub color: bool,
    pub word_diff: bool,
}

impl DiffViewer {
    /// Three lines of context, in colour, without word diffs.
    pub fn new() -> (r: Self)
        ensures
            r == (DiffViewer { show_context: 3, color: true, word_diff: false }),
    {
        DiffViewer { show_context: 3, color: true, word_diff: false }
    }
}

/// The colour of a `numstat` line by its counts of added and deleted lines.
pub open spec fn count_color(add: i64, del: i64) -> Seq<char> {
    if add > 0 && del > 0 {
        "\x1b[33m"@
    } else if add > 0 {
        "\x1b[32m"@
    } else if del > 0 {
        "\x1b[31m"@
    } else {
        "\x1b[90m"@
    }
}

/// A count of a `numstat` line, 0 when it is no number (`-` for binary files).
pub open spec fn count_of(s: Seq<char>) -> i64 {
    match parse_i64_spec(s) {
        Some(n) => n,
        None => 0,
    }
}

/// The report line of one `numstat` line, if it has three tab-separated fields.
pub open spec fn numstat_line(l: Seq<char>) -> Seq<char> {
    let p = split_char(l, '\t');
    if p.len() >= 3 {
        count_color(count_of(p[0]), count_of(p[1])) + " +"@ + dec_int(count_of(p[0]) as int) + " -"@
            + dec_int(count_of(p[1]) as int) + "\x1b[0m "@ + p[2] + " \n"@
    } else {
        seq![]
    }
}

/// The report lines of the first `k` `numstat` lines.
pub open spec fn numstat_upto(ls: Seq<Seq<char>>, k: nat) -> Seq<char>
    decreases k,
{
    if k == 0 || k > ls.len() {
        seq![]
    } else {
        numstat_upto(ls, (k - 1) as nat) + numstat_line(ls[k - 1])
    }
}

/// The staged report: a heading, the `--stat` output, then one coloured line
/// per file of the `--numstat` output.
pub open spec fn staged_text(stats: Seq<char>, numstat: Seq<char>) -> Seq<char> {
    "\n\x1b[36m\u{1F4CA} Staged Changes\x1b[0m\n\n"@ + stats + "\n\n"@ + numstat_upto(lines(numstat), lines(numstat).len())
}

fn count_value(s: &str) -> (r: i64)
    ensures
        r == count_of(s@),
{
    match parse_i64(s) {
        Some(n) => n,
        None => 0,
    }
}

impl DiffViewer {
    /// The staged report from the outputs of `git diff --staged --stat` and `--numstat`.
    pub fn show_staged(&self, stats: &str, numstat: &str) -> (r: String)
        ensures
            r@ == staged_text(stats@, numstat@),
    {
        let mut out = owned("\n\x1b[36m\u{1F4CA} Staged Changes\x1b[0m\n\n");
        push_str(&mut out, stats);
        push_str(&mut out, "\n\n");
        let ghost head = out@;
        let ls = lines_of(numstat);
        let mut i: usize = 0;
        while i < ls.len()
            invariant
                views(ls@) == lines(numstat@),
                i <= ls@.len(),
                out@ == head + numstat_upto(lines(numstat@), i as nat),
            decreases ls.len() - i,
        {
            let ghost l = lines(numstat@)[i as int];
            assert(l == ls@[i as int]@);
            let parts = split_on(ls[i].as_str(), '\t');
            let ghost before = out@;
            if parts.len() >= 3 {
                let add = count_value(parts[0].as_str());
                let del = count_value(parts[1].as_str());
                let color = if add > 0 && del > 0 {
                    "\x1b[33m"
                } else if add > 0 {
                    "\x1b[32m"
                } else if del > 0 {
                    "\x1b[31m"
                } else {
                    "\x1b[90m"
                };
                let a = i64_to_string(add);
                let d = i64_to_string(del);
                push_str(&mut out, color);
                push_str(&mut out, " +");
                push_str(&mut out, a.as_str());
                push_str(&mut out, " -");
                push_str(&mut out, d.as_str());
                push_str(&mut out, "\x1b[0m ");
                push_str(&mut out, parts[2].as_str());
                push_str(&mut out, " \n");
                assert(out@ =~= before + numstat_line(l));
            } else {
                assert(out@ =~= before + numstat_line(l));
            }
            i = i + 1;
        }
        out
    }
}

/// The coloured symbol of a `--name-status` operation.
pub open spec fn op_symbol(op: Seq<char>) -> Seq<char> {
    if op == "M"@ {
        "\x1b[33mM\x1b[0m"@
    } else if op == "A"@ {
        "\x1b[32mA\x1b[0m"@
    } else if op == "D"@ {
        "\x1b[31mD\x1b[0m"@
    } else if op == "R"@ {
        "\x1b[36mR\x1b[0m"@
    } else {
        "\x1b[90m?\x1b[0m"@
    }
}

/// The report line of one `--name-status` line.
pub open spec fn name_status_line(l: Seq<char>) -> Seq<char> {
    let p = split_char(l, '\t');
    if trim(l).len() > 0 && p.len() >= 2 {
        op_symbol(p[0]) + " "@ + p[1] + "\n"@
    } else {
        seq![]
    }
}

/// The report lines of the first `k` `--name-status` lines.
pub open spec fn name_status_upto(ls: Seq<Seq<char>>, k: nat) -> Seq<char>
    decreases k,
{
    if k == 0 || k > ls.len() {
        seq![]
    } else {
        name_status_upto(ls, (k - 1) as nat) + name_status_line(ls[k - 1])
    }
}

fn symbol_of(op: &str) -> (r: &'static str)
    ensures
        r@ == op_symbol(op@),
{
    if str_eq(op, "M") {
        "\x1b[33mM\x1b[0m"
    } else if str_eq(op, "A") {
        "\x1b[32mA\x1b[0m"
    } else if str_eq(op, "D") {
        "\x1b[31mD\x1b[0m"
    } else if str_eq(op, "R") {
        "\x1b[36mR\x1b[0m"
    } else {
        "\x1b[90m?\x1b[0m"
    }
}

impl DiffViewer {
    /// The unstaged report from the output of `git diff --name-status`.
    pub fn show_modified(&self, status: &str) -> (r: String)
        ensures
            r@ == "\n\x1b[36m\u{1F4DD} Unstaged Changes\x1b[0m\n\n"@ + name_status_upto(lines(status@), lines(status@).len()),
    {
        let mut out = owned("\n\x1b[36m\u{1F4DD} Unstaged Changes\x1b[0m\n\n");
        let ghost head = out@;
        let ls = lines_of(status);
        let mut i: usize = 0;
        while i < ls.len()
            invariant
                views(ls@) == lines(status@),
                i <= ls@.len(),
                out@ == head + name_status_upto(lines(status@), i as nat),
            decreases ls.len() - i,
        {
            let ghost l = lines(status@)[i as int];
            assert(l == ls@[i as int]@);
            let ghost before = out@;
            let t = trim_str(ls[i].as_str());
            if chars_of(t.as_str()).len() > 0 {
                let parts = split_on(ls[i].as_str(), '\t');
                if parts.len() >= 2 {
                    let sym = symbol_of(parts[0].as_str());
                    push_str(&mut out, sym);
                    push_str(&mut out, " ");
                    push_str(&mut out, parts[1].as_str());
                    push_str(&mut out, "\n");
                }
            }
            assert(out@ =~= before + name_status_line(l));
            i = i + 1;
        }
        out
    }
}

/// Whether a file argument names the staged version (`s:` before the path),
/// and the path itself.
pub open spec fn file_target(file: Seq<char>) -> (bool, Seq<char>) {
    if is_prefix("s:"@, file) { (true, file.skip(2)) } else { (false, file) }
}

/// The arguments of `git diff` for a file argument.
pub fn file_diff_args(file: &str) -> (r: Vec<String>)
    ensures
        views(r@) == (if file_target(file@).0 {
            seq!["diff"@, "--staged"@, "--"@, file_target(file@).1]
        } else {
            seq!["diff"@, "--"@, file_target(file@).1]
        }),
{
    let mut v: Vec<String> = Vec::new();
    v.push(owned("diff"));
    if starts_with(file, "s:") {
        let cs = chars_of(file);
        proof {
            reveal_strlit("s:");
        }
        let path = crate::text::string_of_range(&cs, 2, cs.len());
        v.push(owned("--staged"));
        v.push(owned("--"));
        v.push(path);
        assert(views(v@) =~= seq!["diff"@, "--staged"@, "--"@, file_target(file@).1]);
    } else {
        v.push(owned("--"));
        v.push(owned(file));
        assert(views(v@) =~= seq!["diff"@, "--"@, file_target(file@).1]);
    }
    v
}

/// The colour of a diff line.
pub open spec fn diff_line_text(l: Seq<char>) -> Seq<char> {
    if is_prefix("@@"@, l) {
        "\x1b[35m"@ + l + "\x1b[0m\n"@
    } else if is_prefix("+"@, l) && !is_prefix("+++"@, l) {
        "\x1b[32m"@ + l + "\x1b[0m\n"@
    } else if is_prefix("-"@, l) && !is_prefix("---"@, l) {
        "\x1b[31m"@ + l + "\x1b[0m\n"@
    } else if is_prefix("diff "@, l) || is_prefix("index "@, l) {
        "\x1b[90m"@ + l + "\x1b[0m\n"@
    } else {
        l + "\n"@
    }
}

/// The coloured lines of the first `k` diff lines.
pub open spec fn diff_upto(ls: Seq<Seq<char>>, k: nat) -> Seq<char>
    decreases k,
{
    if k == 0 || k > ls.len() {
        seq![]
    } else {
        diff_upto(ls, (k - 1) as nat) + diff_line_text(ls[k - 1])
    }
}

impl DiffViewer {
    /// The report of a file's diff, from the output of `git diff`.
    pub fn show_file_diff(&self, file: &str, diff: &str) -> (r: String)
        ensures
            r@ == (if diff@.len() == 0 {
                "No changes in "@ + file@ + "\n"@
            } else {
                "\n\x1b[36m\u{1F4C4} "@ + file@ + "\x1b[0m\n"@ + diff_upto(lines(diff@), lines(diff@).len())
            }),
    {
        if chars_of(diff).len() == 0 {
            return cat3("No changes in ", file, "\n");
        }
        let mut out = cat3("\n\x1b[36m\u{1F4C4} ", file, "\x1b[0m\n");
        let ghost head = out@;
        let ls = lines_of(diff);
        let mut i: usize = 0;
        while i < ls.len()
            invariant
                views(ls@) == lines(diff@),
                i <= ls@.len(),
                out@ == head + diff_upto(lines(diff@), i as nat),
            decreases ls.len() - i,
        {
            let ghost l = lines(diff@)[i as int];
            assert(l == ls@[i as int]@);
            let ghost before = out@;
            let line = ls[i].as_str();
            if starts_with(line, "@@") {
                push_str(&mut out, "\x1b[35m");
                push_str(&mut out, line);
                push_str(&mut out, "\x1b[0m\n");
            } else if starts_with(line, "+") && !starts_with(line, "+++") {
                push_str(&mut out, "\x1b[32m");
                push_str(&mut out, line);
                push_str(&mut out, "\x1b[0m\n");
            } else if starts_with(line, "-") && !starts_with(line, "---") {
                push_str(&mut out, "\x1b[31m");
                push_str(&mut out, line);
                push_str(&mut out, "\x1b[0m\n");
            } else if starts_with(line, "diff ") || starts_with(line, "index ") {
                push_str(&mut out, "\x1b[90m");
                push_str(&mut out, line);
                push_str(&mut out, "\x1b[0m\n");
            } else {
                push_str(&mut out, line);
                push_str(&mut out, "\n");
            }
            assert(out@ =~= before + diff_line_text(l));
            i = i + 1;
        }
        out
    }
}

/// The report line of one line of `git branch -a`.
pub open spec fn branch_list_line(l: Seq<char>) -> Seq<char> {
    let t = trim(l);
    if is_prefix("*"@, t) {
        "\x1b[32m"@ + t + "\x1b[0m (current)\n"@
    } else if t.len() > 0 {
        "  "@ + t + "\n"@
    } else {
        seq![]
    }
}

/// The report lines of the first `k` branch lines.
pub open spec fn branch_list_upto(ls: Seq<Seq<char>>, k: nat) -> Seq<char>
    decreases k,
{
    if k == 0 || k > ls.len() {
        seq![]
    } else {
        branch_list_upto(ls, (k - 1) as nat) + branch_list_line(ls[k - 1])
    }
}

impl DiffViewer {
    /// The branches report from the output of `git branch -a`.
    pub fn show_branch(&self, all_branches: &str) -> (r: String)
        ensures
            r@ == "\n\x1b[36m\u{1F33F} Branches\x1b[0m\n\n"@ + branch_list_upto(lines(all_branches@), lines(all_branches@).len()),
    {
        let mut out = owned("\n\x1b[36m\u{1F33F} Branches\x1b[0m\n\n");
        let ghost head = out@;
        let ls = lines_of(all_branches);
        let mut i: usize = 0;
        while i < ls.len()
            invariant
                views(ls@) == lines(all_branches@),
                i <= ls@.len(),
                out@ == head + branch_list_upto(lines(all_branches@), i as nat),
            decreases ls.len() - i,
        {
            let ghost l = lines(all_branches@)[i as int];
            assert(l == ls@[i as int]@);
            let ghost before = out@;
            let t = trim_str(ls[i].as_str());
            if starts_with(t.as_str(), "*") {
                push_str(&mut out, "\x1b[32m");
                push_str(&mut out, t.as_str());
                push_str(&mut out, "\x1b[0m (current)\n");
            } else if chars_of(t.as_str()).len() > 0 {
                push_str(&mut out, "  ");
                push_str(&mut out, t.as_str());
                push_str(&mut out, "\n");
            }
            assert(out@ =~= before + branch_list_line(l));
            i = i + 1;
        }
        out
    }

    /// The arguments of `git log` for the last `count` commits.
    pub fn log_args(&self, count: u64) -> (r: Vec<String>)
        ensures
            views(r@) == seq!["log"@, "-"@ + dec(count as nat), "--oneline"@, "--graph"@, "--decorate"@],
    {
        let n = u64_to_string(count);
        let mut v: Vec<String> = Vec::new();
        v.push(owned("log"));
        v.push(cat("-", n.as_str()));
        v.push(owned("--oneline"));
        v.push(owned("--graph"));
        v.push(owned("--decorate"));
        assert(views(v@) =~= seq!["log"@, "-"@ + dec(count as nat), "--oneline"@, "--graph"@, "--decorate"@]);
        v
    }

    /// The log report from the output of `git log`: a heading, then every line.
    pub fn show_log(&self, count: u64, log: &str) -> (r: String)
        ensures
            r@ == "\n\x1b[36m\u{1F4DC} Recent "@ + dec(count as nat) + " Commits\x1b[0m\n\n"@
                + crate::text::join(lines(log@).map_values(|l: Seq<char>| l + "\n"@), seq![]),
    {
        let n = u64_to_string(count);
        let mut out = cat3("\n\x1b[36m\u{1F4DC} Recent ", n.as_str(), " Commits\x1b[0m\n\n");
        let ghost head = out@;
        let ls = lines_of(log);
        let mut i: usize = 0;
        while i < ls.len()
            invariant
                views(ls@) == lines(log@),
                i <= ls@.len(),
                out@ == head + crate::text::join(lines(log@).subrange(0, i as int).map_values(|l: Seq<char>| l + "\n"@), seq![]),
            decreases ls.len() - i,
        {
            let ghost prev = lines(log@).subrange(0, i as int).map_values(|l: Seq<char>| l + "\n"@);
            let ghost next = lines(log@).subrange(0, i + 1).map_values(|l: Seq<char>| l + "\n"@);
            assert(next =~= prev.push(ls@[i as int]@ + "\n"@));
            assert(next.drop_last() =~= prev);
            push_str(&mut out, ls[i].as_str());
            push_str(&mut out, "\n");
            proof {
                if i > 0 {
                    assert(crate::text::join(next, seq![]) == crate::text::join(prev, seq![]) + Seq::<char>::empty() + next.last());
                } else {
                    assert(next.len() == 1);
                }
            }
            assert(out@ =~= head + crate::text::join(next, seq![]));
            i = i + 1;
        }
        assert(lines(log@).subrange(0, ls@.len() as int) =~= lines(log@));
        out
    }
}

/// The summary of both reports: the staged one, a blank line, the unstaged one;
/// or the first error met.
pub fn show_diff_summary(staged: Result<String, String>, unstaged: Result<String, String>) -> (r: Result<String, String>)
    ensures
        match (staged, unstaged) {
            (Err(e), _) => r == Err::<String, String>(e),
            (Ok(_), Err(e)) => r == Err::<String, String>(e),
            (Ok(s), Ok(u)) => r matches Ok(t) && t@ == s@ + "\n"@ + u@,
        },
{
    let s = match staged {
        Ok(s) => s,
        Err(e) => return Err(e),
    };
    let u = match unstaged {
        Ok(u) => u,
        Err(e) => return Err(e),
    };
    Ok(cat3(s.as_str(), "\n", u.as_str()))
}

} // verus!
