//! The picker: the numbered lists it shows and which entry an answer selects.

use vstd::prelude::*;
use crate::browser::first_lines;
use crate::text::{
    cat, cat3, chars_of, join, join_strings, lines, lines_of, owned, parse_u64, parse_u64_spec,
    split_whitespace, trim, trim_str, u64_to_string, dec, views, words,
};

verus! {

/// The number an answer gives, if it is one.
pub open spec fn answer_number(input: Seq<char>) -> Option<u64> {
    parse_u64_spec(trim(input))
}

/// The file an answer selects: the numbered entry among the first ten shown.
pub open spec fn file_choice(files: Seq<Seq<char>>, input: Seq<char>) -> Option<Seq<char>> {
    match answer_number(input) {
        Some(n) => if 0 < n && n <= files.len() && n <= 10 { Some(files[n - 1]) } else { None },
        None => None,
    }
}

/// The file an answer selects among `files`.
pub fn pick_file(files: &Vec<String>, input: &str) -> (r: Option<String>)
    ensures
        crate::text::opt_string_view(r) == file_choice(views(files@), input@),
{
    let t = trim_str(input);
    match parse_u64(t.as_str()) {
        Some(n) => {
            if 0 < n && n <= files.len() as u64 && n <= 10 {
                Some(owned(files[(n - 1) as usize].as_str()))
            } else {
                None
            }
        },
        None => None,
    }
}

/// The preview of a file: its first three lines joined with ` | `, cut to 80 characters.
pub open spec fn preview_of(content: Seq<char>) -> Seq<char> {
    let p = join(first_lines(lines(content), 3), " | "@);
    "     Preview: "@ + (if p.len() <= 80 { p } else { p.take(80) }) + "..."@
}

/// The preview line of a file's content.
pub fn preview_line(content: &str) -> (r: String)
    ensures
        r@ == preview_of(content@),
{
    let ls = lines_of(content);
    let mut first: Vec<String> = Vec::new();
    let mut i: usize = 0;
    while i < ls.len() && i < 3
        invariant
            i <= ls@.len(),
            i <= 3,
            views(first@) == views(ls@).subrange(0, i as int),
        decreases ls.len() - i,
    {
        let ghost before = views(first@);
        first.push(owned(ls[i].as_str()));
        assert(views(first@) =~= before.push(ls@[i as int]@));
        assert(views(first@) =~= views(ls@).subrange(0, i + 1));
        i = i + 1;
    }
    assert(views(first@) =~= first_lines(lines(content@), 3));
    let p = join_strings(&first, " | ");
    let pc = chars_of(p.as_str());
    let cut = if pc.len() <= 80 { p } else { crate::text::string_of_range(&pc, 0, 80) };
    assert(pc@.len() > 80 ==> cut@ =~= p@.take(80));
    cat3("     Preview: ", cut.as_str(), "...")
}

/// The numbered line of entry `i` (from 0) of a list.
pub fn entry_line(i: u64, name: &str) -> (r: String)
    requires
        i < u64::MAX,
    ensures
        r@ == "  "@ + dec((i + 1) as nat) + ". "@ + name@,
{
    let n = u64_to_string(i + 1);
    cat3("  ", n.as_str(), cat(". ", name).as_str())
}

/// The branch an answer selects: the numbered entry of the list, or `main`
/// when there are no branches.
pub open spec fn branch_choice(branches: Seq<Seq<char>>, input: Seq<char>) -> Option<Seq<char>> {
    if branches.len() == 0 {
        Some("main"@)
    } else {
        match answer_number(input) {
            Some(n) => if 0 < n && n <= branches.len() { Some(branches[n - 1]) } else { None },
            None => None,
        }
    }
}

/// The branch an answer selects among the lines of `git branch`. An answer
/// of 0 has no entry before it and is left out.
pub fn pick_branch(branch_out: &str, input: &str) -> (r: Option<String>)
    requires
        lines(branch_out@).len() > 0 ==> answer_number(input@) != Some(0u64),
    ensures
        crate::text::opt_string_view(r) == branch_choice(lines(branch_out@), input@),
{
    let ls = lines_of(branch_out);
    if ls.len() == 0 {
        return Some(owned("main"));
    }
    let t = trim_str(input);
    match parse_u64(t.as_str()) {
        Some(n) => {
            if n <= ls.len() as u64 {
                Some(owned(ls[(n - 1) as usize].as_str()))
            } else {
                None
            }
        },
        None => None,
    }
}

/// The commit an answer selects: the hash (first word) of the numbered log
/// line, or `HEAD` when there are no commits.
pub open spec fn commit_choice(commits: Seq<Seq<char>>, input: Seq<char>) -> Option<Seq<char>> {
    if commits.len() == 0 {
        Some("HEAD"@)
    } else {
        match answer_number(input) {
            Some(n) => if 0 < n && n <= commits.len() && words(commits[n - 1]).len() > 0 {
                Some(words(commits[n - 1])[0])
            } else {
                None
            },
            None => None,
        }
    }
}

/// The commit an answer selects among the lines of `git log --oneline`. An
/// answer of 0 has no entry before it and is left out.
pub fn pick_commit(log: &str, input: &str) -> (r: Option<String>)
    requires
        lines(log@).len() > 0 ==> answer_number(input@) != Some(0u64),
    ensures
        crate::text::opt_string_view(r) == commit_choice(lines(log@), input@),
{
    let ls = lines_of(log);
    if ls.len() == 0 {
        return Some(owned("HEAD"));
    }
    let t = trim_str(input);
    match parse_u64(t.as_str()) {
        Some(n) => {
            if n <= ls.len() as u64 {
                let w = split_whitespace(ls[(n - 1) as usize].as_str());
                if w.len() > 0 {
                    Some(owned(w[0].as_str()))
                } else {
                    None
                }
            } else {
                None
            }
        },
        None => None,
    }
}

/// The git status pick, which is always `status`.
pub fn pick_git_status() -> (r: Option<String>)
    ensures
        r matches Some(s) && s@ == "status"@,
{
    Some(owned("status"))
}

/// The process pick, which is always `process`.
pub fn pick_process() -> (r: Option<String>)
    ensures
        r matches Some(s) && s@ == "process"@,
{
    Some(owned("process"))
}

} // verus!
