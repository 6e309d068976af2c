//! GitHub automation: the values it works with, the parsing of remote URLs
//! and of `gh` output, the arguments of the git and `gh` commands it runs,
//! and the prompts and reports of its workflows.

use vstd::prelude::*;
use crate::text::{
    cat, cat3, chars_of, contains, dec, first_word, first_word_of, is_prefix, join, join_strings, lemma_split_nonempty,
    lines, lines_of, owned, parse_u32, parse_u32_spec, push_str, split_char, split_on, str_contains, str_eq,
    string_of_range, strip_lead, strip_prefix, trim, trim_end_matches, trim_end_matches_spec, trim_str,
    u64_to_string, views, opt_string_view,
};

verus! {

/// GitHub repository info.
#[derive(Debug, Clone)]
pub struct Repo {
    pub owner: String,
    pub name: String,
    pub url: String,
}

/// GitHub PR info.
#[derive(Debug, Clone)]
pub struct PullRequest {
    pub number: u32,
    pub title: String,
    pub state: String,
    pub url: String,
}

/// GitHub CI status.
#[derive(Debug, Clone)]
pub struct CIStatus {
    pub status: String,
    pub conclusion: Option<String>,
    pub checks: Vec<Check>,
}

/// A single check run.
#[derive(Debug, Clone)]
pub struct Check {
    pub name: String,
    pub status: String,
    pub conclusion: String,
}

/// Git configuration.
#[derive(Debug, Clone)]
pub struct GitConfig {
    pub remote: String,
    pub branch: String,
    pub auth_token: Option<String>,
}

impl Default for GitConfig {
    fn default() -> (r: Self)
        ensures
            r.remote@ == Seq::<char>::empty(),
            r.branch@ == Seq::<char>::empty(),
            r.auth_token is None,
    {
        GitConfig { remote: String::new(), branch: String::new(), auth_token: None }
    }
}

/// The part of a remote URL after a known GitHub host prefix: the first of
/// `https://github.com/`, `http://github.com/`, `git@github.com:` and
/// `git://github.com/` that the trimmed URL starts with is removed; when none
/// matches, the URL as given (untrimmed).
pub open spec fn github_path(url: Seq<char>) -> Seq<char> {
    let t = trim(url);
    if is_prefix("https://github.com/"@, t) {
        t.subrange("https://github.com/"@.len() as int, t.len() as int)
    } else if is_prefix("http://github.com/"@, t) {
        t.subrange("http://github.com/"@.len() as int, t.len() as int)
    } else if is_prefix("git@github.com:"@, t) {
        t.subrange("git@github.com:"@.len() as int, t.len() as int)
    } else if is_prefix("git://github.com/"@, t) {
        t.subrange("git://github.com/"@.len() as int, t.len() as int)
    } else {
        url
    }
}

/// The `/`-separated pieces of the repository path, trailing `.git` removed.
pub open spec fn github_parts(url: Seq<char>) -> Seq<Seq<char>> {
    split_char(trim_end_matches_spec(github_path(url), ".git"@), '/')
}

/// What reading a repository out of `url` gives: the owner and name are the
/// first two pieces of its path, with the canonical URL rebuilt from them;
/// with fewer than two pieces, an error that quotes the URL.
pub open spec fn repo_result(url: Seq<char>, r: Result<Repo, String>) -> bool {
    match r {
        Ok(repo) => github_parts(url).len() >= 2
            && repo.owner@ == github_parts(url)[0]
            && repo.name@ == github_parts(url)[1]
            && repo.url@ == "https://github.com/"@ + github_parts(url)[0] + "/"@ + github_parts(url)[1],
        Err(e) => github_parts(url).len() < 2 && e@ == "Invalid GitHub URL: "@ + url,
    }
}

/// Parse GitHub URL to extract owner and repo.
///
/// Succeeds exactly when the repository path has at least two `/`-separated
/// pieces; the owner and name are the first two, and the canonical URL is
/// rebuilt from them.
pub fn parse_github_url(url: &str) -> (r: Result<Repo, String>)
    ensures
        repo_result(url@, r),
{
    let t = trim_str(url);
    let clean = match strip_prefix(t.as_str(), "https://github.com/") {
        Some(c) => c,
        None => match strip_prefix(t.as_str(), "http://github.com/") {
            Some(c) => c,
            None => match strip_prefix(t.as_str(), "git@github.com:") {
                Some(c) => c,
                None => match strip_prefix(t.as_str(), "git://github.com/") {
                    Some(c) => c,
                    None => owned(url),
                },
            },
        },
    };
    assert(clean@ == github_path(url@));
    let stem = trim_end_matches(clean.as_str(), ".git");
    let parts = split_on(stem.as_str(), '/');
    if parts.len() < 2 {
        return Err(cat("Invalid GitHub URL: ", url));
    }
    assert(parts@[0]@ == views(parts@)[0]);
    assert(parts@[1]@ == views(parts@)[1]);
    let owner = owned(parts[0].as_str());
    let name = owned(parts[1].as_str());
    let mut full = cat3("https://github.com/", owner.as_str(), "/");
    push_str(&mut full, name.as_str());
    Ok(Repo { owner, name, url: full })
}

} // verus!

verus! {

/// What a finished command printed, and whether it exited with success.
#[derive(Debug, Clone)]
pub struct CommandOutput {
    pub success: bool,
    pub stdout: String,
    pub stderr: String,
}

/// The outcome of a command run for `what`: when it could not be started,
/// `Failed to <what>: <error>`; when it failed, `failed` followed by what it
/// printed on its error stream; otherwise what it printed.
pub open spec fn outcome_of(out: Result<CommandOutput, String>, what: Seq<char>, failed: Seq<char>, r: Result<String, String>) -> bool {
    match out {
        Err(e) => r is Err && r->Err_0@ == "Failed to "@ + what + ": "@ + e@,
        Ok(o) => if o.success {
            r is Ok && r->Ok_0@ == o.stdout@
        } else {
            r is Err && r->Err_0@ == failed + o.stderr@
        },
    }
}

/// The outcome of a command run for `what`, with `failed` in front of the
/// error stream of a failed run.
pub fn command_outcome(out: Result<CommandOutput, String>, what: &str, failed: &str) -> (r: Result<String, String>)
    ensures
        outcome_of(out, what@, failed@, r),
{
    match out {
        Err(e) => {
            let mut m = cat3("Failed to ", what, ": ");
            push_str(&mut m, e.as_str());
            Err(m)
        },
        Ok(o) => if o.success {
            Ok(o.stdout)
        } else {
            Err(cat(failed, o.stderr.as_str()))
        },
    }
}

/// What a command run for `what` printed, whether or not it succeeded; an
/// error only when it could not be started.
pub fn command_stdout(out: Result<CommandOutput, String>, what: &str) -> (r: Result<String, String>)
    ensures
        match out {
            Err(e) => r is Err && r->Err_0@ == "Failed to "@ + what@ + ": "@ + e@,
            Ok(o) => r is Ok && r->Ok_0@ == o.stdout@,
        },
{
    match out {
        Err(e) => {
            let mut m = cat3("Failed to ", what, ": ");
            push_str(&mut m, e.as_str());
            Err(m)
        },
        Ok(o) => Ok(o.stdout),
    }
}

/// The repository of the `origin` remote, from the output of
/// `git remote get-url origin`.
pub fn get_current_repo(out: Result<CommandOutput, String>) -> (r: Result<Repo, String>)
    ensures
        match out {
            Err(e) => r is Err && r->Err_0@ == "Failed to get remote: "@ + e@,
            Ok(o) => if !o.success {
                r is Err && r->Err_0@ == "Not a git repository or no remote origin"@
            } else {
                repo_result(trim(o.stdout@), r)
            },
        },
{
    match out {
        Err(e) => Err(cat("Failed to get remote: ", e.as_str())),
        Ok(o) => if !o.success {
            Err(owned("Not a git repository or no remote origin"))
        } else {
            let url = trim_str(o.stdout.as_str());
            parse_github_url(url.as_str())
        },
    }
}

/// The current branch, from the output of `git rev-parse --abbrev-ref HEAD`.
pub fn get_current_branch(out: Result<CommandOutput, String>) -> (r: Result<String, String>)
    ensures
        match out {
            Err(e) => r is Err && r->Err_0@ == "Failed to get branch: "@ + e@,
            Ok(o) => if !o.success {
                r is Err && r->Err_0@ == "Failed to get current branch"@
            } else {
                r is Ok && r->Ok_0@ == trim(o.stdout@)
            },
        },
{
    match out {
        Err(e) => Err(cat("Failed to get branch: ", e.as_str())),
        Ok(o) => if !o.success {
            Err(owned("Failed to get current branch"))
        } else {
            Ok(trim_str(o.stdout.as_str()))
        },
    }
}

/// The arguments of `git push`: `--force` when forced, then `origin` and the
/// branch (`HEAD` when none is given).
pub fn push_args(branch: Option<&str>, force: bool) -> (r: Vec<String>)
    ensures
        views(r@) == (if force { seq!["push"@, "--force"@] } else { seq!["push"@] })
            + seq!["origin"@, match branch { Some(b) => b@, None => "HEAD"@ }],
{
    let mut v: Vec<String> = Vec::new();
    v.push(owned("push"));
    if force {
        v.push(owned("--force"));
    }
    v.push(owned("origin"));
    match branch {
        Some(b) => v.push(owned(b)),
        None => v.push(owned("HEAD")),
    }
    assert(views(v@) =~= (if force { seq!["push"@, "--force"@] } else { seq!["push"@] })
        + seq!["origin"@, match branch { Some(b) => b@, None => "HEAD"@ }]);
    v
}

/// The arguments of `git branch` that delete `name`: `-D` when forced, else `-d`.
pub fn delete_branch_args(name: &str, force: bool) -> (r: Vec<String>)
    ensures
        views(r@) == seq!["branch"@, if force { "-D"@ } else { "-d"@ }, name@],
{
    let mut v: Vec<String> = Vec::new();
    v.push(owned("branch"));
    v.push(if force { owned("-D") } else { owned("-d") });
    v.push(owned(name));
    assert(views(v@) =~= seq!["branch"@, if force { "-D"@ } else { "-d"@ }, name@]);
    v
}

/// The arguments of `gh pr create`: title and body, then the base and head
/// branches when given.
pub fn create_pr_args(title: &str, body: &str, base: Option<&str>, head: Option<&str>) -> (r: Vec<String>)
    ensures
        views(r@) == seq!["pr"@, "create"@, "--title"@, title@, "--body"@, body@]
            + (match base { Some(b) => seq!["--base"@, b@], None => Seq::<Seq<char>>::empty() })
            + (match head { Some(h) => seq!["--head"@, h@], None => Seq::<Seq<char>>::empty() }),
{
    let mut v: Vec<String> = Vec::new();
    v.push(owned("pr"));
    v.push(owned("create"));
    v.push(owned("--title"));
    v.push(owned(title));
    v.push(owned("--body"));
    v.push(owned(body));
    let ghost first = views(v@);
    if let Some(b) = base {
        v.push(owned("--base"));
        v.push(owned(b));
    }
    let ghost second = views(v@);
    assert(second =~= first + (match base { Some(b) => seq!["--base"@, b@], None => Seq::<Seq<char>>::empty() }));
    if let Some(h) = head {
        v.push(owned("--head"));
        v.push(owned(h));
    }
    assert(views(v@) =~= second + (match head { Some(h) => seq!["--head"@, h@], None => Seq::<Seq<char>>::empty() }));
    v
}

/// The first of the lines that holds `p`.
pub open spec fn first_line_with(ls: Seq<Seq<char>>, p: Seq<char>) -> Option<Seq<char>>
    decreases ls.len(),
{
    if ls.len() == 0 {
        None
    } else if contains(ls[0], p) {
        Some(ls[0])
    } else {
        first_line_with(ls.drop_first(), p)
    }
}

/// The address of a created pull request: the first line of the output that
/// mentions `github.com`, or the whole output.
pub open spec fn pr_url_of(stdout: Seq<char>) -> Seq<char> {
    match first_line_with(lines(stdout), "github.com"@) {
        Some(l) => l,
        None => stdout,
    }
}

/// The number at the end of a pull request address: the first word of its
/// last `/`-piece, without leading `#`, read as a `u32`; 0 when it is not one.
pub open spec fn pr_number_of(url: Seq<char>) -> u32 {
    match first_word(split_char(url, '/').last()) {
        Some(w) => match parse_u32_spec(strip_lead(w, '#')) {
            Some(n) => n,
            None => 0,
        },
        None => 0,
    }
}

/// The pull request that `gh pr create` reported: its number and address
/// read from the output, open, with the given title.
pub fn pr_from_output(title: &str, stdout: &str) -> (r: PullRequest)
    ensures
        r.url@ == pr_url_of(stdout@),
        r.number == pr_number_of(pr_url_of(stdout@)),
        r.title@ == title@,
        r.state@ == "open"@,
{
    let ls = lines_of(stdout);
    let mut url = owned(stdout);
    let mut i: usize = 0;
    let mut found = false;
    assert(views(ls@).subrange(0, ls@.len() as int) =~= views(ls@));
    while i < ls.len() && !found
        invariant
            i <= ls@.len(),
            views(ls@) == lines(stdout@),
            !found ==> first_line_with(lines(stdout@), "github.com"@) == first_line_with(views(ls@).subrange(i as int, ls@.len() as int), "github.com"@),
            !found ==> url@ == stdout@,
            found ==> url@ == pr_url_of(stdout@),
        decreases ls.len() - i, if found { 0int } else { 1int },
    {
        let ghost rest = views(ls@).subrange(i as int, ls@.len() as int);
        assert(rest.drop_first() =~= views(ls@).subrange(i + 1, ls@.len() as int));
        assert(rest[0] == ls@[i as int]@);
        if str_contains(ls[i].as_str(), "github.com") {
            url = owned(ls[i].as_str());
            found = true;
        } else {
            i = i + 1;
        }
    }
    if !found {
        assert(views(ls@).subrange(i as int, ls@.len() as int) =~= Seq::<Seq<char>>::empty());
    }
    let pieces = split_on(url.as_str(), '/');
    proof { lemma_split_nonempty(url@, '/', seq![]); }
    let last = &pieces[pieces.len() - 1];
    assert(last@ == split_char(url@, '/').last());
    let number = match first_word_of(last.as_str()) {
        Some(w) => {
            let bare = trim_start_char(w.as_str(), '#');
            match parse_u32(bare.as_str()) {
                Some(n) => n,
                None => 0,
            }
        },
        None => 0,
    };
    PullRequest { number, title: owned(title), state: owned("open"), url }
}

/// Removes the leading run of `c`.
fn trim_start_char(s: &str, c: char) -> (r: String)
    ensures
        r@ == strip_lead(s@, c),
{
    let v = chars_of(s);
    let mut i: usize = 0;
    assert(s@.subrange(0, s@.len() as int) =~= s@);
    while i < v.len() && v[i] == c
        invariant
            v@ == s@,
            i <= v@.len(),
            strip_lead(s@, c) == strip_lead(s@.subrange(i as int, s@.len() as int), c),
        decreases v.len() - i,
    {
        assert(s@.subrange(i as int, s@.len() as int).drop_first() =~= s@.subrange(i + 1, s@.len() as int));
        i = i + 1;
    }
    string_of_range(&v, i, v.len())
}

/// Whether some check concluded with `c`.
pub open spec fn some_concluded(cs: Seq<Check>, c: Seq<char>) -> bool {
    exists|i: int| 0 <= i < cs.len() && (#[trigger] cs[i]).conclusion@ == c
}

/// Whether every check concluded with `c`.
pub open spec fn all_concluded(cs: Seq<Check>, c: Seq<char>) -> bool {
    forall|i: int| 0 <= i < cs.len() ==> (#[trigger] cs[i]).conclusion@ == c
}

/// The position of the first check named `n`.
pub open spec fn check_named(cs: Seq<Check>, n: Seq<char>) -> Option<int>
    decreases cs.len(),
{
    if cs.len() == 0 {
        None
    } else if cs[0].name@ == n {
        Some(0)
    } else {
        match check_named(cs.drop_first(), n) {
            Some(i) => Some(i + 1),
            None => None,
        }
    }
}

/// The CI status of a pull request from its checks: `passing` when every
/// check succeeded, `failing` when one failed, else `pending`; the overall
/// conclusion is that of the check named `total`, or `PENDING`.
pub fn ci_status(checks: Vec<Check>) -> (r: CIStatus)
    ensures
        r.checks@ == checks@,
        r.status@ == if all_concluded(checks@, "SUCCESS"@) {
            "passing"@
        } else if some_concluded(checks@, "FAILURE"@) {
            "failing"@
        } else {
            "pending"@
        },
        r.conclusion is Some && r.conclusion->0@ == match check_named(checks@, "total"@) {
            Some(i) => checks@[i].conclusion@,
            None => "PENDING"@,
        },
{
    let mut all_ok = true;
    let mut any_failed = false;
    let mut total: Option<usize> = None;
    let mut i: usize = 0;
    while i < checks.len()
        invariant
            i <= checks@.len(),
            all_ok == all_concluded(checks@.subrange(0, i as int), "SUCCESS"@),
            any_failed == some_concluded(checks@.subrange(0, i as int), "FAILURE"@),
            match total {
                Some(k) => k < i && check_named(checks@, "total"@) == Some(k as int),
                None => forall|j: int| 0 <= j < i ==> (#[trigger] checks@[j]).name@ != "total"@,
            },
        decreases checks.len() - i,
    {
        let ghost pre = checks@.subrange(0, i as int);
        let ghost post = checks@.subrange(0, i + 1);
        assert(post == pre.push(checks@[i as int]));
        assert(all_concluded(post, "SUCCESS"@) == (all_concluded(pre, "SUCCESS"@) && checks@[i as int].conclusion@ == "SUCCESS"@)) by {
            if all_concluded(post, "SUCCESS"@) {
                assert forall|j: int| 0 <= j < pre.len() implies (#[trigger] pre[j]).conclusion@ == "SUCCESS"@ by {
                    assert(pre[j] == post[j]);
                }
                assert(post[i as int] == checks@[i as int]);
            }
        }
        assert(some_concluded(post, "FAILURE"@) == (some_concluded(pre, "FAILURE"@) || checks@[i as int].conclusion@ == "FAILURE"@)) by {
            if some_concluded(post, "FAILURE"@) {
                let j = choose|j: int| 0 <= j < post.len() && (#[trigger] post[j]).conclusion@ == "FAILURE"@;
                if j < pre.len() {
                    assert(pre[j] == post[j]);
                }
            }
            if some_concluded(pre, "FAILURE"@) {
                let j = choose|j: int| 0 <= j < pre.len() && (#[trigger] pre[j]).conclusion@ == "FAILURE"@;
                assert(post[j] == pre[j]);
            }
            if checks@[i as int].conclusion@ == "FAILURE"@ {
                assert(post[i as int] == checks@[i as int]);
            }
        }
        if !str_eq(checks[i].conclusion.as_str(), "SUCCESS") {
            all_ok = false;
        }
        if str_eq(checks[i].conclusion.as_str(), "FAILURE") {
            any_failed = true;
        }
        if total.is_none() && str_eq(checks[i].name.as_str(), "total") {
            proof { lemma_check_named(checks@, "total"@, i as int); }
            total = Some(i);
        }
        i = i + 1;
    }
    assert(checks@.subrange(0, checks@.len() as int) =~= checks@);
    let overall = match total {
        Some(k) => owned(checks[k].conclusion.as_str()),
        None => {
            proof { lemma_check_named(checks@, "total"@, checks@.len() as int); }
            owned("PENDING")
        },
    };
    let status = if all_ok { owned("passing") } else if any_failed { owned("failing") } else { owned("pending") };
    CIStatus { status, conclusion: Some(overall), checks }
}

proof fn lemma_check_named(cs: Seq<Check>, n: Seq<char>, i: int)
    requires
        0 <= i <= cs.len(),
        forall|j: int| 0 <= j < i ==> (#[trigger] cs[j]).name@ != n,
    ensures
        i < cs.len() && cs[i].name@ == n ==> check_named(cs, n) == Some(i),
        i == cs.len() ==> check_named(cs, n) is None,
    decreases i,
{
    if i > 0 {
        assert forall|j: int| 0 <= j < i - 1 implies (#[trigger] cs.drop_first()[j]).name@ != n by {
            assert(cs.drop_first()[j] == cs[j + 1]);
        }
        lemma_check_named(cs.drop_first(), n, i - 1);
    }
}

/// The arguments of `gh pr merge` for the method (`squash` when none is
/// given): a squash takes the message (`Merged via DevUtils` when none is
/// given); `merge` merges as admin; `rebase` rebases; any other method is
/// refused.
pub fn merge_args(pr_number: u32, method: Option<&str>, message: Option<&str>) -> (r: Result<Vec<String>, String>)
    ensures
        ({
            let m = match method { Some(x) => x@, None => "squash"@ };
            let msg = match message { Some(x) => x@, None => "Merged via DevUtils"@ };
            let head = seq!["pr"@, "merge"@, dec(pr_number as nat)];
            match r {
                Ok(v) => if m == "squash"@ {
                    views(v@) == head + seq!["--squash"@, "--message"@, msg]
                } else if m == "merge"@ {
                    views(v@) == head + seq!["--admin"@, "--merge"@]
                } else {
                    m == "rebase"@ && views(v@) == head + seq!["--rebase"@]
                },
                Err(e) => m != "squash"@ && m != "merge"@ && m != "rebase"@ && e@ == "Unknown merge method: "@ + m,
            }
        }),
{
    let m = match method { Some(x) => x, None => "squash" };
    let msg = match message { Some(x) => x, None => "Merged via DevUtils" };
    let mut v: Vec<String> = Vec::new();
    v.push(owned("pr"));
    v.push(owned("merge"));
    v.push(u64_to_string(pr_number as u64));
    let ghost head = views(v@);
    if str_eq(m, "squash") {
        v.push(owned("--squash"));
        v.push(owned("--message"));
        v.push(owned(msg));
        assert(views(v@) =~= head + seq!["--squash"@, "--message"@, msg@]);
        Ok(v)
    } else if str_eq(m, "merge") {
        v.push(owned("--admin"));
        v.push(owned("--merge"));
        assert(views(v@) =~= head + seq!["--admin"@, "--merge"@]);
        Ok(v)
    } else if str_eq(m, "rebase") {
        v.push(owned("--rebase"));
        assert(views(v@) =~= head + seq!["--rebase"@]);
        Ok(v)
    } else {
        Err(cat("Unknown merge method: ", m))
    }
}

/// The result of a merge from how `gh pr merge` went.
pub fn merge_pr(pr_number: u32, out: Result<CommandOutput, String>) -> (r: Result<String, String>)
    ensures
        match out {
            Err(e) => r is Err && r->Err_0@ == "Failed to merge PR: "@ + e@,
            Ok(o) => if o.success {
                r is Ok && r->Ok_0@ == "PR #"@ + dec(pr_number as nat) + " merged successfully"@
            } else {
                r is Err && r->Err_0@ == "Merge failed: "@ + o.stderr@
            },
        },
{
    match out {
        Err(e) => Err(cat("Failed to merge PR: ", e.as_str())),
        Ok(o) => if o.success {
            let d = u64_to_string(pr_number as u64);
            Ok(cat3("PR #", d.as_str(), " merged successfully"))
        } else {
            Err(cat("Merge failed: ", o.stderr.as_str()))
        },
    }
}

/// What waiting on a pull request's CI does after one look at its status.
#[derive(Debug)]
pub enum MergeWait {
    /// The checks passed: merge it.
    Merge,
    /// Stop with this error.
    Stop(String),
    /// Print this and look again later.
    Wait(String),
}

/// One look at the CI of pull request `pr_number`, `elapsed` seconds into a
/// wait of at most `timeout` seconds: a `SUCCESS` conclusion merges, a
/// `FAILURE` one stops with an error, a wait past the timeout stops, and
/// otherwise it waits on.
pub fn auto_merge_poll(status: &CIStatus, pr_number: u32, elapsed: u64, timeout: u64) -> (r: MergeWait)
    ensures
        match status.conclusion {
            Some(c) if c@ == "SUCCESS"@ => r is Merge,
            Some(c) if c@ == "FAILURE"@ => r matches MergeWait::Stop(e) && e@ == "CI failed for PR #"@ + dec(pr_number as nat),
            _ => if elapsed > timeout {
                r matches MergeWait::Stop(e) && e@ == "Timeout waiting for CI"@
            } else {
                r matches MergeWait::Wait(t) && t@ == "\u{23F3} Waiting for CI to finish... ("@ + dec(elapsed as nat) + "s elapsed)"@
            },
        },
{
    proof {
        reveal_strlit("SUCCESS");
        reveal_strlit("FAILURE");
        assert("SUCCESS"@[0] == 'S' && "FAILURE"@[0] == 'F');
    }
    match &status.conclusion {
        Some(c) => {
            if str_eq(c.as_str(), "SUCCESS") {
                return MergeWait::Merge;
            }
            if str_eq(c.as_str(), "FAILURE") {
                let d = u64_to_string(pr_number as u64);
                return MergeWait::Stop(cat("CI failed for PR #", d.as_str()));
            }
        },
        None => {},
    }
    if elapsed > timeout {
        MergeWait::Stop(owned("Timeout waiting for CI"))
    } else {
        let d = u64_to_string(elapsed);
        MergeWait::Wait(cat3("\u{23F3} Waiting for CI to finish... (", d.as_str(), "s elapsed)"))
    }
}

/// The arguments of `gh issue create`, one `--label` per label.
pub fn create_issue_args(title: &str, body: &str, labels: Option<&Vec<String>>) -> (r: Vec<String>)
    ensures
        views(r@) == seq!["issue"@, "create"@, "--title"@, title@, "--body"@, body@] + match labels {
            Some(ls) => Seq::new(2 * ls@.len(), |k: int| if k % 2 == 0 { "--label"@ } else { ls@[k / 2]@ }),
            None => Seq::<Seq<char>>::empty(),
        },
{
    let mut v: Vec<String> = Vec::new();
    v.push(owned("issue"));
    v.push(owned("create"));
    v.push(owned("--title"));
    v.push(owned(title));
    v.push(owned("--body"));
    v.push(owned(body));
    let ghost head = views(v@);
    match labels {
        Some(ls) => {
            let mut i: usize = 0;
            while i < ls.len()
                invariant
                    i <= ls@.len(),
                    views(v@) == head + Seq::new(2 * i as nat, |k: int| if k % 2 == 0 { "--label"@ } else { ls@[k / 2]@ }),
                decreases ls.len() - i,
            {
                let ghost before = views(v@);
                let ghost prev = Seq::new(2 * i as nat, |k: int| if k % 2 == 0 { "--label"@ } else { ls@[k / 2]@ });
                let ghost next = Seq::new(2 * (i + 1) as nat, |k: int| if k % 2 == 0 { "--label"@ } else { ls@[k / 2]@ });
                v.push(owned("--label"));
                v.push(owned(ls[i].as_str()));
                assert(views(v@) =~= before.push("--label"@).push(ls@[i as int]@));
                assert((2 * i as int) % 2 == 0 && (2 * i as int + 1) % 2 == 1 && (2 * i as int + 1) / 2 == i as int);
                assert forall|k: int| 0 <= k < 2 * i implies next[k] == prev[k] by {}
                assert(next =~= prev.push("--label"@).push(ls@[i as int]@));
                assert(views(v@) =~= head + next);
                i = i + 1;
            }
        },
        None => {
            assert(views(v@) =~= head + Seq::<Seq<char>>::empty());
        },
    }
    v
}

/// The arguments of `gh release create`, `--draft` last for a draft.
pub fn create_release_args(tag: &str, name: &str, body: &str, draft: bool) -> (r: Vec<String>)
    ensures
        views(r@) == seq!["release"@, "create"@, tag@, "--title"@, name@, "--notes"@, body@]
            + if draft { seq!["--draft"@] } else { Seq::<Seq<char>>::empty() },
{
    let mut v: Vec<String> = Vec::new();
    v.push(owned("release"));
    v.push(owned("create"));
    v.push(owned(tag));
    v.push(owned("--title"));
    v.push(owned(name));
    v.push(owned("--notes"));
    v.push(owned(body));
    if draft {
        v.push(owned("--draft"));
    }
    assert(views(v@) =~= seq!["release"@, "create"@, tag@, "--title"@, name@, "--notes"@, body@]
        + if draft { seq!["--draft"@] } else { Seq::<Seq<char>>::empty() });
    v
}

/// The arguments of `gh pr list` for the state (`open` when none is given).
pub fn list_prs_args(state: Option<&str>) -> (r: Vec<String>)
    ensures
        views(r@) == seq!["pr"@, "list"@, "--state"@, match state { Some(s) => s@, None => "open"@ }, "--json"@,
            "number,title,state,url"@],
{
    let mut v: Vec<String> = Vec::new();
    v.push(owned("pr"));
    v.push(owned("list"));
    v.push(owned("--state"));
    match state {
        Some(s) => v.push(owned(s)),
        None => v.push(owned("open")),
    }
    v.push(owned("--json"));
    v.push(owned("number,title,state,url"));
    assert(views(v@) =~= seq!["pr"@, "list"@, "--state"@, match state { Some(s) => s@, None => "open"@ }, "--json"@,
        "number,title,state,url"@]);
    v
}

/// Whether syncing `branch` must first check it out, the current branch
/// being `current`.
pub fn needs_checkout(current: &str, branch: &str) -> (r: bool)
    ensures
        r == (current@ != branch@),
{
    !str_eq(current, branch)
}

/// The prompt that asks for a commit message for the staged changes.
pub fn commit_message_prompt(diff: &str) -> (r: String)
    ensures
        r@ == "Generate a concise git commit message for these changes:\n"@ + diff@
            + "\n\nRules:\n- Use imperative mood (add, fix, update, remove)\n- Keep under 72 characters\n- Start with feat:, fix:, docs:, style:, refactor:, test:, chore:\n- Be specific about what changed\n\nExample: 'feat: add user authentication via OAuth'"@,
{
    cat3("Generate a concise git commit message for these changes:\n", diff,
        "\n\nRules:\n- Use imperative mood (add, fix, update, remove)\n- Keep under 72 characters\n- Start with feat:, fix:, docs:, style:, refactor:, test:, chore:\n- Be specific about what changed\n\nExample: 'feat: add user authentication via OAuth'")
}

/// The commit message from the model's answer (its error text when it
/// failed), trimmed.
pub fn commit_message_of(answer: Result<String, String>) -> (r: String)
    ensures
        r@ == trim(match answer { Ok(s) => s@, Err(e) => e@ }),
{
    match answer {
        Ok(s) => trim_str(s.as_str()),
        Err(e) => trim_str(e.as_str()),
    }
}

/// The lines of the output among the first fifty, joined again.
pub open spec fn first_fifty_lines(s: Seq<char>) -> Seq<char> {
    join(lines(s).take(if lines(s).len() < 50 { lines(s).len() as int } else { 50 }), "\n"@)
}

/// The prompt that asks for a pull request description.
pub fn pr_description_prompt(title: &str, diff: &str, commits: &str) -> (r: String)
    ensures
        r@ == "Generate a detailed GitHub PR description for this pull request.\n\nTitle: "@ + title@
            + "\n\nChanged files summary:\n"@ + first_fifty_lines(diff@) + "\n\nRecent commits:\n"@ + commits@
            + "\n\nInclude:\n1. Summary of changes (2-3 sentences)\n2. Key changes (bullet points)\n3. Testing done\n4. Breaking changes (if any)\n5. Related issues (if any)\n\nFormat as Markdown."@,
{
    let ls = lines_of(diff);
    let n: usize = if ls.len() < 50 { ls.len() } else { 50 };
    let mut first: Vec<String> = Vec::new();
    let mut i: usize = 0;
    while i < n
        invariant
            i <= n <= ls@.len(),
            views(ls@) == lines(diff@),
            views(first@) == views(ls@).take(i as int),
        decreases n - i,
    {
        let ghost before = views(first@);
        first.push(owned(ls[i].as_str()));
        assert(views(first@) =~= before.push(ls@[i as int]@));
        assert(views(ls@).take(i + 1) =~= views(ls@).take(i as int).push(ls@[i as int]@));
        i = i + 1;
    }
    let summary = join_strings(&first, "\n");
    let mut r = cat3("Generate a detailed GitHub PR description for this pull request.\n\nTitle: ", title,
        "\n\nChanged files summary:\n");
    push_str(&mut r, summary.as_str());
    push_str(&mut r, "\n\nRecent commits:\n");
    push_str(&mut r, commits);
    push_str(&mut r, "\n\nInclude:\n1. Summary of changes (2-3 sentences)\n2. Key changes (bullet points)\n3. Testing done\n4. Breaking changes (if any)\n5. Related issues (if any)\n\nFormat as Markdown.");
    r
}

/// The report of a pull request created end to end.
pub fn full_auto_pr_report(pr: &PullRequest, commit_msg: &str) -> (r: String)
    ensures
        r@ == "\u{2705} Created PR #"@ + dec(pr.number as nat) + ": "@ + pr.title@ + "\n\u{1F310} "@ + pr.url@
            + "\n\u{1F4DD} Commit: "@ + commit_msg@,
{
    let d = u64_to_string(pr.number as u64);
    let mut r = cat3("\u{2705} Created PR #", d.as_str(), ": ");
    push_str(&mut r, pr.title.as_str());
    push_str(&mut r, "\n\u{1F310} ");
    push_str(&mut r, pr.url.as_str());
    push_str(&mut r, "\n\u{1F4DD} Commit: ");
    push_str(&mut r, commit_msg);
    r
}

/// Whether `git status --porcelain` reported nothing to commit.
pub fn nothing_to_commit(porcelain: &str) -> (r: bool)
    ensures
        r == (trim(porcelain@).len() == 0),
{
    let t = trim_str(porcelain);
    t.as_str().is_empty()
}

/// The arguments of `gh run list` for the last run on `branch`.
pub fn ci_run_args(branch: &str) -> (r: Vec<String>)
    ensures
        views(r@) == seq!["run"@, "list"@, "--branch"@, branch@, "--limit"@, "1"@, "--json"@, "status,conclusion,name"@],
{
    let mut v: Vec<String> = Vec::new();
    v.push(owned("run"));
    v.push(owned("list"));
    v.push(owned("--branch"));
    v.push(owned(branch));
    v.push(owned("--limit"));
    v.push(owned("1"));
    v.push(owned("--json"));
    v.push(owned("status,conclusion,name"));
    assert(views(v@) =~= seq!["run"@, "list"@, "--branch"@, branch@, "--limit"@, "1"@, "--json"@, "status,conclusion,name"@]);
    v
}

/// The CI report of a repository from its last run (status, conclusion and
/// name, each `unknown` where the run does not say), or that there is none.
pub fn ci_report(repo: &Repo, run: Option<(String, String, String)>) -> (r: String)
    ensures
        r@ == match run {
            Some((status, conclusion, name)) => "\u{1F4CA} CI Status for "@ + repo.owner@ + "/"@ + repo.name@ + " ("@ + name@
                + "):\n   Status: "@ + status@ + "\n   Conclusion: "@ + conclusion@,
            None => "No recent CI runs found"@,
        },
{
    match run {
        Some((status, conclusion, name)) => {
            let mut r = cat3("\u{1F4CA} CI Status for ", repo.owner.as_str(), "/");
            push_str(&mut r, repo.name.as_str());
            push_str(&mut r, " (");
            push_str(&mut r, name.as_str());
            push_str(&mut r, "):\n   Status: ");
            push_str(&mut r, status.as_str());
            push_str(&mut r, "\n   Conclusion: ");
            push_str(&mut r, conclusion.as_str());
            r
        },
        None => owned("No recent CI runs found"),
    }
}

/// The `status`, `conclusion` and `name` of the first run that `gh run
/// list --json` printed, read by `serde_json::from_str` as an array of JSON
/// values, each when it is a string; none when the output is not such an
/// array or the array is empty.
pub uninterp spec fn ci_first_run(stdout: Seq<char>) -> Option<(Option<Seq<char>>, Option<Seq<char>>, Option<Seq<char>>)>;

/// The three fields as plain values.
pub open spec fn run_fields_view(r: Option<(Option<String>, Option<String>, Option<String>)>) -> Option<(Option<Seq<char>>, Option<Seq<char>>, Option<Seq<char>>)> {
    match r {
        Some((a, b, c)) => Some((opt_string_view(a), opt_string_view(b), opt_string_view(c))),
        None => None,
    }
}

/// Reads `gh run list` output with `serde_json::from_str` as a
/// `Vec<serde_json::Value>` (empty when that fails); claimed: the string
/// fields of its first element as named by `ci_first_run`.
#[verifier::external_body]
fn ci_runs(stdout: &str) -> (r: Option<(Option<String>, Option<String>, Option<String>)>)
    ensures
        run_fields_view(r) == ci_first_run(stdout@),
{
    let runs: Vec<serde_json::Value> = serde_json::from_str(stdout).unwrap_or_default();
    let text = |v: &serde_json::Value| v.as_str().map(|s| s.to_string());
    runs.first().map(|r| (text(&r["status"]), text(&r["conclusion"]), text(&r["name"])))
}

/// A field's text, `unknown` when it is missing.
pub open spec fn or_unknown(f: Option<Seq<char>>) -> Seq<char> {
    match f {
        Some(t) => t,
        None => "unknown"@,
    }
}

fn text_or_unknown(f: Option<String>) -> (r: String)
    ensures
        r@ == or_unknown(opt_string_view(f)),
{
    match f {
        Some(t) => t,
        None => owned("unknown"),
    }
}

/// The CI report of a repository from what `gh run list` printed about its
/// last run: that run's status, conclusion and name (`unknown` where it does
/// not give one), or that there is none.
pub fn ci_run_report(repo: &Repo, stdout: &str) -> (r: String)
    ensures
        r@ == match ci_first_run(stdout@) {
            Some((status, conclusion, name)) => "\u{1F4CA} CI Status for "@ + repo.owner@ + "/"@ + repo.name@ + " ("@
                + or_unknown(name) + "):\n   Status: "@ + or_unknown(status) + "\n   Conclusion: "@ + or_unknown(conclusion),
            None => "No recent CI runs found"@,
        },
{
    match ci_runs(stdout) {
        Some((status, conclusion, name)) => {
            let run = (text_or_unknown(status), text_or_unknown(conclusion), text_or_unknown(name));
            ci_report(repo, Some(run))
        },
        None => ci_report(repo, None),
    }
}

/// The prompt that asks for a commit message starting with `prefix`
/// (`feat` when none is given).
pub fn typed_commit_prompt(diff: &str, commit_type: Option<&str>) -> (r: String)
    ensures
        r@ == "Generate a git commit message for:\n"@ + diff@ + "\n\nRules:\n- Start with '"@
            + (match commit_type { Some(t) => t@, None => "feat"@ })
            + ":' (e.g., feat:, fix:, docs:, refactor:)\n- Keep under 72 characters\n- Be specific about what changed\n- Output ONLY the commit message, nothing else"@,
{
    let prefix = match commit_type { Some(t) => t, None => "feat" };
    let mut r = cat3("Generate a git commit message for:\n", diff, "\n\nRules:\n- Start with '");
    push_str(&mut r, prefix);
    push_str(&mut r, ":' (e.g., feat:, fix:, docs:, refactor:)\n- Keep under 72 characters\n- Be specific about what changed\n- Output ONLY the commit message, nothing else");
    r
}

/// The line printed for one applied change: `Modified` when the edit's
/// message tells of success, else `Updated`; a warning for a failed edit.
pub fn change_line(file: &str, edit: &Result<String, String>) -> (r: String)
    ensures
        r@ == match edit {
            Ok(msg) => "  \u{2705} "@ + (if contains(msg@, "successful"@) { "Modified"@ } else { "Updated"@ }) + ": "@ + file@,
            Err(e) => "  \u{26A0}\u{FE0F}  "@ + file@ + ": "@ + e@,
        },
{
    match edit {
        Ok(msg) => {
            let word = if str_contains(msg.as_str(), "successful") { "Modified" } else { "Updated" };
            let mut r = cat3("  \u{2705} ", word, ": ");
            push_str(&mut r, file);
            r
        },
        Err(e) => {
            let mut r = cat3("  \u{26A0}\u{FE0F}  ", file, ": ");
            push_str(&mut r, e.as_str());
            r
        },
    }
}

/// The report of the whole update-and-post workflow.
pub fn update_and_post_report(commit_msg: &str, branch: &str, pr: &PullRequest) -> (r: String)
    ensures
        r@ == "\u{1F389} Full workflow complete!\n\n\u{1F4DD} Commit: "@ + commit_msg@ + "\n\u{1F33F} Branch: "@ + branch@
            + "\n\u{1F500} PR #"@ + dec(pr.number as nat) + ": "@ + pr.title@ + "\n\u{1F517} URL: "@ + pr.url@,
{
    let d = u64_to_string(pr.number as u64);
    let mut r = cat3("\u{1F389} Full workflow complete!\n\n\u{1F4DD} Commit: ", commit_msg, "\n\u{1F33F} Branch: ");
    push_str(&mut r, branch);
    push_str(&mut r, "\n\u{1F500} PR #");
    push_str(&mut r, d.as_str());
    push_str(&mut r, ": ");
    push_str(&mut r, pr.title.as_str());
    push_str(&mut r, "\n\u{1F517} URL: ");
    push_str(&mut r, pr.url.as_str());
    r
}

/// The error of a rebase onto `base` that ran into conflicts.
pub fn rebase_conflict_error(base: &str) -> (r: String)
    ensures
        r@ == "Rebase conflict! Resolve manually:\n1. git rebase --abort\n2. git rebase "@ + base@
            + " and resolve conflicts\n3. git rebase --continue"@,
{
    cat3("Rebase conflict! Resolve manually:\n1. git rebase --abort\n2. git rebase ", base,
        " and resolve conflicts\n3. git rebase --continue")
}

/// The report of a finished rebase.
pub fn rebase_report(ci_status: &str, branch: &str) -> (r: String)
    ensures
        r@ == "\u{1F504} Rebase complete\n\u{1F4CA} CI Status: "@ + ci_status@ + "\n\u{1F33F} Branch: "@ + branch@
            + "\n\u{2705} Ready for PR review"@,
{
    let mut r = cat3("\u{1F504} Rebase complete\n\u{1F4CA} CI Status: ", ci_status, "\n\u{1F33F} Branch: ");
    push_str(&mut r, branch);
    push_str(&mut r, "\n\u{2705} Ready for PR review");
    r
}

} // verus!
