//! The development loop: which commands a project gets, which files are
//! watched, what one iteration runs and records, and the running totals.

use vstd::prelude::*;
use crate::advanced::{file_name, path_file_name};
use crate::text::{cat, cat3, contains, dec, owned, push_str, split_char, split_on, str_contains, str_eq,
    u64_to_string, views, bool_text, bool_to_string};

verus! {

/// Which steps the loop takes on a change, and how often it looks.
#[derive(Debug, Clone, Copy, PartialEq, Eq, Structural)]
pub struct DevLoopConfig {
    pub watch: bool,
    pub test_on_change: bool,
    pub format_on_change: bool,
    pub lint_on_change: bool,
    pub auto_deps: bool,
    pub build_on_change: bool,
    pub poll_interval_ms: u64,
}

/// The default configuration: every step on, watching every 500 ms.
pub open spec fn default_config() -> DevLoopConfig {
    DevLoopConfig {
        watch: true,
        test_on_change: true,
        format_on_change: true,
        lint_on_change: true,
        auto_deps: true,
        build_on_change: true,
        poll_interval_ms: 500,
    }
}

impl Default for DevLoopConfig {
    fn default() -> (r: Self)
        ensures
            r == default_config(),
    {
        DevLoopConfig {
            watch: true,
            test_on_change: true,
            format_on_change: true,
            lint_on_change: true,
            auto_deps: true,
            build_on_change: true,
            poll_interval_ms: 500,
        }
    }
}

/// Which project files sit at the project root.
#[derive(Debug, Clone, Copy, PartialEq, Eq, Structural)]
pub struct ProjectFiles {
    pub cargo_toml: bool,
    pub package_json: bool,
    pub go_mod: bool,
    pub pyproject_toml: bool,
    pub requirements_txt: bool,
}

/// A watched file: its path, when it last changed (seconds), and a hash of
/// its content.
#[derive(Debug, Clone)]
pub struct TrackedFile {
    pub path: String,
    pub last_modified: u64,
    pub content_hash: u64,
}

/// The build, test, format and lint commands of a project, judged by its
/// project files (Cargo first, then npm, Go, Python); none for others.
pub open spec fn commands_for(f: ProjectFiles) -> (Seq<Seq<char>>, Seq<Seq<char>>, Seq<Seq<char>>, Seq<Seq<char>>) {
    if f.cargo_toml {
        (seq!["cargo"@, "build"@], seq!["cargo"@, "test"@], seq!["cargo"@, "fmt"@],
            seq!["cargo"@, "clippy"@, "--"@, "-D"@, "warnings"@])
    } else if f.package_json {
        (seq!["npm"@, "run"@, "build"@], seq!["npm"@, "test"@], seq!["npx"@, "prettier"@, "--write"@],
            seq!["npx"@, "eslint"@])
    } else if f.go_mod {
        (seq!["go"@, "build"@], seq!["go"@, "test"@, "./..."@], seq!["gofmt"@, "-w"@], seq!["go"@, "vet"@, "./..."@])
    } else if f.pyproject_toml || f.requirements_txt {
        (seq!["python"@, "-m"@, "py_compile"@], seq!["python"@, "-m"@, "pytest"@], seq!["black"@],
            seq!["ruff"@, "check"@])
    } else {
        (seq![], seq![], seq![], seq![])
    }
}

fn words2(a: &str, b: &str) -> (r: Vec<String>)
    ensures
        views(r@) == seq![a@, b@],
{
    let mut v: Vec<String> = Vec::new();
    v.push(owned(a));
    v.push(owned(b));
    assert(views(v@) =~= seq![a@, b@]);
    v
}

fn words3(a: &str, b: &str, c: &str) -> (r: Vec<String>)
    ensures
        views(r@) == seq![a@, b@, c@],
{
    let mut v: Vec<String> = Vec::new();
    v.push(owned(a));
    v.push(owned(b));
    v.push(owned(c));
    assert(views(v@) =~= seq![a@, b@, c@]);
    v
}

fn push_word(v: &mut Vec<String>, w: &str)
    ensures
        views(final(v)@) == views(old(v)@).push(w@),
{
    v.push(owned(w));
    assert(views(v@) =~= views(old(v)@).push(w@));
}

/// The build, test, format and lint commands for a project.
pub fn detect_commands(f: &ProjectFiles) -> (r: (Vec<String>, Vec<String>, Vec<String>, Vec<String>))
    ensures
        (views(r.0@), views(r.1@), views(r.2@), views(r.3@)) == commands_for(*f),
{
    if f.cargo_toml {
        let mut lint = words3("cargo", "clippy", "--");
        push_word(&mut lint, "-D");
        push_word(&mut lint, "warnings");
        assert(views(lint@) =~= seq!["cargo"@, "clippy"@, "--"@, "-D"@, "warnings"@]);
        (words2("cargo", "build"), words2("cargo", "test"), words2("cargo", "fmt"), lint)
    } else if f.package_json {
        (words3("npm", "run", "build"), words2("npm", "test"), words3("npx", "prettier", "--write"), words2("npx", "eslint"))
    } else if f.go_mod {
        (words2("go", "build"), words3("go", "test", "./..."), words2("gofmt", "-w"), words3("go", "vet", "./..."))
    } else if f.pyproject_toml || f.requirements_txt {
        let mut fmt: Vec<String> = Vec::new();
        fmt.push(owned("black"));
        assert(views(fmt@) =~= seq!["black"@]);
        (words3("python", "-m", "py_compile"), words3("python", "-m", "pytest"), fmt, words2("ruff", "check"))
    } else {
        let (a, b, c, d) = (Vec::<String>::new(), Vec::<String>::new(), Vec::<String>::new(), Vec::<String>::new());
        assert(views(a@) =~= Seq::<Seq<char>>::empty());
        (a, b, c, d)
    }
}

/// The source file extensions a project watches.
pub open spec fn extensions_for(f: ProjectFiles) -> Seq<Seq<char>> {
    if f.cargo_toml {
        seq![".rs"@]
    } else if f.package_json {
        seq![".js"@, ".ts"@, ".jsx"@, ".tsx"@]
    } else if f.go_mod {
        seq![".go"@]
    } else if f.pyproject_toml {
        seq![".py"@]
    } else {
        seq![".rs"@, ".js"@, ".ts"@, ".py"@, ".go"@]
    }
}

/// The source file extensions a project watches.
pub fn detect_extensions(f: &ProjectFiles) -> (r: Vec<String>)
    ensures
        views(r@) == extensions_for(*f),
{
    let mut v: Vec<String> = Vec::new();
    if f.cargo_toml {
        v.push(owned(".rs"));
    } else if f.package_json {
        v.push(owned(".js"));
        v.push(owned(".ts"));
        v.push(owned(".jsx"));
        v.push(owned(".tsx"));
    } else if f.go_mod {
        v.push(owned(".go"));
    } else if f.pyproject_toml {
        v.push(owned(".py"));
    } else {
        v.push(owned(".rs"));
        v.push(owned(".js"));
        v.push(owned(".ts"));
        v.push(owned(".py"));
        v.push(owned(".go"));
    }
    assert(views(v@) =~= extensions_for(*f));
    v
}

/// Directories the loop never looks into.
pub open spec fn ignored_dir(n: Seq<char>) -> bool {
    n == "target"@ || n == "node_modules"@ || n == ".git"@ || n == "dist"@ || n == "build"@
        || n == "__pycache__"@ || n == "venv"@ || n == ".venv"@
}

/// Files the loop never watches.
pub open spec fn ignored_file(n: Seq<char>) -> bool {
    n == ".gitignore"@ || n == ".gitkeep"@ || n == "Cargo.lock"@ || n == "package-lock.json"@
}

/// A path lies in an ignored directory, or names an ignored file.
pub open spec fn is_ignored(p: Seq<char>) -> bool {
    (exists|i: int| 0 <= i < split_char(p, '/').len() && ignored_dir(#[trigger] split_char(p, '/')[i]))
        || (file_name(p) matches Some(n) && ignored_file(n))
}

fn is_ignored_dir(n: &str) -> (r: bool)
    ensures
        r == ignored_dir(n@),
{
    str_eq(n, "target") || str_eq(n, "node_modules") || str_eq(n, ".git") || str_eq(n, "dist") || str_eq(n, "build")
        || str_eq(n, "__pycache__") || str_eq(n, "venv") || str_eq(n, ".venv")
}

fn is_ignored_file(n: &str) -> (r: bool)
    ensures
        r == ignored_file(n@),
{
    str_eq(n, ".gitignore") || str_eq(n, ".gitkeep") || str_eq(n, "Cargo.lock") || str_eq(n, "package-lock.json")
}

/// Whether the loop leaves a path alone.
pub fn should_ignore(path: &str) -> (r: bool)
    ensures
        r == is_ignored(path@),
{
    let ps = split_on(path, '/');
    let mut i: usize = 0;
    while i < ps.len()
        invariant
            views(ps@) == split_char(path@, '/'),
            i <= ps@.len(),
            forall|k: int| 0 <= k < i ==> !ignored_dir(split_char(path@, '/')[k]),
        decreases ps.len() - i,
    {
        assert(split_char(path@, '/')[i as int] == ps@[i as int]@);
        if is_ignored_dir(ps[i].as_str()) {
            return true;
        }
        i = i + 1;
    }
    match path_file_name(path) {
        Some(n) => is_ignored_file(n.as_str()),
        None => false,
    }
}

/// The loop of one project.
pub struct DevLoop {
    pub config: DevLoopConfig,
    pub tracked_files: Vec<TrackedFile>,
    pub project_root: String,
    pub build_cmd: Vec<String>,
    pub test_cmd: Vec<String>,
    pub format_cmd: Vec<String>,
    pub lint_cmd: Vec<String>,
}

impl DevLoop {
    /// A loop over the project at `project_root`, whose project files are
    /// `files`, with the default configuration and nothing watched yet.
    pub fn new(project_root: &str, files: &ProjectFiles) -> (r: Self)
        ensures
            r.config == default_config(),
            r.tracked_files@.len() == 0,
            r.project_root@ == project_root@,
            (views(r.build_cmd@), views(r.test_cmd@), views(r.format_cmd@), views(r.lint_cmd@)) == commands_for(*files),
    {
        let (build_cmd, test_cmd, format_cmd, lint_cmd) = detect_commands(files);
        DevLoop {
            config: DevLoopConfig::default(),
            tracked_files: Vec::new(),
            project_root: owned(project_root),
            build_cmd,
            test_cmd,
            format_cmd,
            lint_cmd,
        }
    }

    /// The same loop with another configuration.
    pub fn with_config(self, config: DevLoopConfig) -> (r: Self)
        ensures
            r == (DevLoop { config, ..self }),
    {
        DevLoop { config, ..self }
    }
}

/// The position of the watched file at `path`.
pub open spec fn tracked_index(s: Seq<TrackedFile>, path: Seq<char>) -> Option<int>
    decreases s.len(),
{
    if s.len() == 0 {
        None
    } else {
        match tracked_index(s.drop_last(), path) {
            Some(i) => Some(i),
            None => if s.last().path@ == path { Some(s.len() - 1) } else { None },
        }
    }
}

proof fn lemma_tracked_index(s: Seq<TrackedFile>, path: Seq<char>)
    ensures
        match tracked_index(s, path) {
            Some(i) => 0 <= i < s.len() && s[i].path@ == path && forall|k: int| 0 <= k < i ==> s[k].path@ != path,
            None => forall|k: int| 0 <= k < s.len() ==> s[k].path@ != path,
        },
    decreases s.len(),
{
    if s.len() > 0 {
        lemma_tracked_index(s.drop_last(), path);
        assert forall|k: int| 0 <= k < s.len() - 1 implies s.drop_last()[k] == s[k] by {}
    }
}

/// Watches `path`, last changed at `modified` with content hash `hash`: in
/// place of the entry for that path, or as a new entry.
pub fn record_file(lp: &mut DevLoop, path: &str, modified: u64, hash: u64)
    ensures
        *final(lp) == (DevLoop { tracked_files: final(lp).tracked_files, ..*old(lp) }),
        match tracked_index(old(lp).tracked_files@, path@) {
            Some(i) => final(lp).tracked_files@.len() == old(lp).tracked_files@.len()
                && (forall|k: int| 0 <= k < old(lp).tracked_files@.len() && k != i ==>
                    final(lp).tracked_files@[k] == old(lp).tracked_files@[k])
                && final(lp).tracked_files@[i].path@ == path@
                && final(lp).tracked_files@[i].last_modified == modified
                && final(lp).tracked_files@[i].content_hash == hash,
            None => final(lp).tracked_files@.drop_last() == old(lp).tracked_files@
                && final(lp).tracked_files@.len() == old(lp).tracked_files@.len() + 1
                && final(lp).tracked_files@.last().path@ == path@
                && final(lp).tracked_files@.last().last_modified == modified
                && final(lp).tracked_files@.last().content_hash == hash,
        },
{
    let entry = TrackedFile { path: owned(path), last_modified: modified, content_hash: hash };
    match find_tracked(&lp.tracked_files, path) {
        Some(i) => {
            lp.tracked_files.set(i, entry);
        },
        None => {
            let ghost before = lp.tracked_files@;
            lp.tracked_files.push(entry);
            assert(lp.tracked_files@.drop_last() =~= before);
        },
    }
}

fn find_tracked(v: &Vec<TrackedFile>, path: &str) -> (r: Option<usize>)
    ensures
        match r {
            Some(i) => i < v@.len() && tracked_index(v@, path@) == Some(i as int),
            None => tracked_index(v@, path@) is None,
        },
{
    proof { lemma_tracked_index(v@, path@); }
    let mut i: usize = 0;
    while i < v.len()
        invariant
            i <= v@.len(),
            forall|k: int| 0 <= k < i ==> v@[k].path@ != path@,
            match tracked_index(v@, path@) {
                Some(j) => 0 <= j < v@.len() && v@[j].path@ == path@ && forall|k: int| 0 <= k < j ==> v@[k].path@ != path@,
                None => forall|k: int| 0 <= k < v@.len() ==> v@[k].path@ != path@,
            },
        decreases v.len() - i,
    {
        if str_eq(v[i].path.as_str(), path) {
            return Some(i);
        }
        i = i + 1;
    }
    None
}

/// The watched paths whose file changed after it was last seen, in watch
/// order; `now[i]` is the current change time of the `i`-th watched file,
/// none when it is gone or cannot be read.
pub open spec fn changed_since(s: Seq<TrackedFile>, now: Seq<Option<u64>>) -> Seq<Seq<char>>
    decreases s.len(),
{
    if s.len() == 0 || now.len() < s.len() {
        seq![]
    } else {
        let rest = changed_since(s.drop_last(), now.subrange(0, s.len() - 1));
        match now[s.len() - 1] {
            Some(t) => if t > s.last().last_modified { rest.push(s.last().path@) } else { rest },
            None => rest,
        }
    }
}

/// The watched paths changed since they were last seen.
pub fn check_changes(lp: &DevLoop, now: &Vec<Option<u64>>) -> (r: Vec<String>)
    requires
        now@.len() == lp.tracked_files@.len(),
    ensures
        views(r@) == changed_since(lp.tracked_files@, now@),
{
    let mut out: Vec<String> = Vec::new();
    let mut i: usize = 0;
    while i < lp.tracked_files.len()
        invariant
            i <= lp.tracked_files@.len(),
            now@.len() == lp.tracked_files@.len(),
            views(out@) == changed_since(lp.tracked_files@.subrange(0, i as int), now@.subrange(0, i as int)),
        decreases lp.tracked_files.len() - i,
    {
        let ghost s1 = lp.tracked_files@.subrange(0, i + 1);
        assert(s1.drop_last() =~= lp.tracked_files@.subrange(0, i as int));
        assert(now@.subrange(0, i + 1).subrange(0, i as int) =~= now@.subrange(0, i as int));
        let ghost before = out@;
        match now[i] {
            Some(t) => {
                if t > lp.tracked_files[i].last_modified {
                    out.push(owned(lp.tracked_files[i].path.as_str()));
                    assert(views(out@) =~= views(before).push(out@.last()@));
                }
            },
            None => {},
        }
        i = i + 1;
    }
    assert(lp.tracked_files@.subrange(0, i as int) =~= lp.tracked_files@);
    assert(now@.subrange(0, i as int) =~= now@);
    out
}

/// The steps of an iteration.
#[derive(Debug, Clone, Copy, PartialEq, Eq, Structural)]
pub enum LoopStep {
    Format,
    Build,
    Test,
    Lint,
}

/// The steps an iteration takes, in order: format, build, test, lint, each
/// when its switch is on and the project has a command for it.
pub open spec fn steps_of(lp: DevLoop) -> Seq<LoopStep> {
    let f = if lp.config.format_on_change && lp.format_cmd@.len() > 0 { seq![LoopStep::Format] } else { seq![] };
    let b = if lp.config.build_on_change && lp.build_cmd@.len() > 0 { seq![LoopStep::Build] } else { seq![] };
    let t = if lp.config.test_on_change && lp.test_cmd@.len() > 0 { seq![LoopStep::Test] } else { seq![] };
    let l = if lp.config.lint_on_change && lp.lint_cmd@.len() > 0 { seq![LoopStep::Lint] } else { seq![] };
    f + b + t + l
}

/// The steps an iteration takes, in order.
pub fn planned_steps(lp: &DevLoop) -> (r: Vec<LoopStep>)
    ensures
        r@ == steps_of(*lp),
{
    let mut v: Vec<LoopStep> = Vec::new();
    if lp.config.format_on_change && lp.format_cmd.len() > 0 {
        v.push(LoopStep::Format);
    }
    if lp.config.build_on_change && lp.build_cmd.len() > 0 {
        v.push(LoopStep::Build);
    }
    if lp.config.test_on_change && lp.test_cmd.len() > 0 {
        v.push(LoopStep::Test);
    }
    if lp.config.lint_on_change && lp.lint_cmd.len() > 0 {
        v.push(LoopStep::Lint);
    }
    assert(v@ =~= steps_of(*lp));
    v
}

/// The command of a step.
pub fn step_command(lp: &DevLoop, step: LoopStep) -> (r: &Vec<String>)
    ensures
        *r == match step {
            LoopStep::Format => lp.format_cmd,
            LoopStep::Build => lp.build_cmd,
            LoopStep::Test => lp.test_cmd,
            LoopStep::Lint => lp.lint_cmd,
        },
{
    match step {
        LoopStep::Format => &lp.format_cmd,
        LoopStep::Build => &lp.build_cmd,
        LoopStep::Test => &lp.test_cmd,
        LoopStep::Lint => &lp.lint_cmd,
    }
}

/// What one iteration found and what its steps gave.
#[derive(Debug, Clone)]
pub struct LoopResult {
    pub changed_files: usize,
    pub build_success: Option<bool>,
    pub build_output: Option<String>,
    pub build_failed: Option<String>,
    pub test_success: Option<bool>,
    pub test_output: Option<String>,
    pub test_failed: Option<String>,
    pub format_output: Option<String>,
    pub lint_output: Option<String>,
    pub lint_failed: Option<String>,
}

/// `r` records `changed` changed files and no step.
pub open spec fn blank_result(r: LoopResult, changed: usize) -> bool {
    &&& r.changed_files == changed
    &&& r.build_success is None && r.build_output is None && r.build_failed is None
    &&& r.test_success is None && r.test_output is None && r.test_failed is None
    &&& r.format_output is None && r.lint_output is None && r.lint_failed is None
}

impl Default for LoopResult {
    fn default() -> (r: Self)
        ensures
            blank_result(r, 0),
    {
        LoopResult::with_changes(0)
    }
}

impl LoopResult {
    /// A result for `changed` changed files before any step.
    pub fn with_changes(changed: usize) -> (r: Self)
        ensures
            blank_result(r, changed),
    {
        LoopResult {
            changed_files: changed,
            build_success: None,
            build_output: None,
            build_failed: None,
            test_success: None,
            test_output: None,
            test_failed: None,
            format_output: None,
            lint_output: None,
            lint_failed: None,
        }
    }

    /// No build or test failed (a step not taken counts as passed) and the
    /// lint found nothing.
    pub fn is_success(&self) -> (r: bool)
        ensures
            r == ((self.build_success matches Some(b) ==> b) && (self.test_success matches Some(t) ==> t)
                && self.lint_failed is None),
    {
        let b = match self.build_success {
            Some(x) => x,
            None => true,
        };
        let t = match self.test_success {
            Some(x) => x,
            None => true,
        };
        b && t && self.lint_failed.is_none()
    }
}

/// The changed files that an iteration tracks anew once its steps have run:
/// all of them, unless the build failed, when none is (so that they count as
/// changed again next time).
pub fn files_to_track(result: &LoopResult, changed: Vec<String>) -> (r: Vec<String>)
    ensures
        r@ == if result.build_success == Some(false) { Seq::<String>::empty() } else { changed@ },
{
    match result.build_success {
        Some(false) => Vec::new(),
        _ => changed,
    }
}

/// Records what a step's command gave, and says whether the iteration goes
/// on: a failed build stops it; a failed format is recorded as a lint
/// failure.
pub fn record_step(result: &mut LoopResult, step: LoopStep, success: bool, stdout: String, stderr: String) -> (go_on: bool)
    ensures
        go_on == !(step == LoopStep::Build && !success),
        match step {
            LoopStep::Format | LoopStep::Lint => {
                let is_format = step == LoopStep::Format;
                if !success {
                    *final(result) == LoopResult { lint_failed: Some(stderr), ..*old(result) }
                } else if stdout@.len() > 0 {
                    if is_format {
                        *final(result) == LoopResult { format_output: Some(stdout), ..*old(result) }
                    } else {
                        *final(result) == LoopResult { lint_output: Some(stdout), ..*old(result) }
                    }
                } else {
                    *final(result) == *old(result)
                }
            },
            LoopStep::Build => if success {
                *final(result) == LoopResult { build_success: Some(true), build_output: Some(stdout), ..*old(result) }
            } else {
                *final(result) == LoopResult {
                    build_success: Some(false),
                    build_output: Some(stdout),
                    build_failed: Some(stderr),
                    ..*old(result)
                }
            },
            LoopStep::Test => if success {
                *final(result) == LoopResult { test_success: Some(true), test_output: Some(stdout), ..*old(result) }
            } else {
                *final(result) == LoopResult {
                    test_success: Some(false),
                    test_output: Some(stdout),
                    test_failed: Some(stderr),
                    ..*old(result)
                }
            },
        },
{
    match step {
        LoopStep::Format => {
            if !success {
                result.lint_failed = Some(stderr);
            } else if !stdout.as_str().is_empty() {
                result.format_output = Some(stdout);
            }
            true
        },
        LoopStep::Lint => {
            if !success {
                result.lint_failed = Some(stderr);
            } else if !stdout.as_str().is_empty() {
                result.lint_output = Some(stdout);
            }
            true
        },
        LoopStep::Build => {
            result.build_success = Some(success);
            result.build_output = Some(stdout);
            if !success {
                result.build_failed = Some(stderr);
                return false;
            }
            true
        },
        LoopStep::Test => {
            result.test_success = Some(success);
            result.test_output = Some(stdout);
            if !success {
                result.test_failed = Some(stderr);
            }
            true
        },
    }
}

/// Totals over the iterations of a run.
#[derive(Debug, Clone, Copy, PartialEq, Eq, Structural)]
pub struct LoopStats {
    pub total_iterations: usize,
    pub iterations_with_changes: usize,
    pub successful_builds: usize,
    pub successful_tests: usize,
}

impl Default for LoopStats {
    fn default() -> (r: Self)
        ensures
            r == (LoopStats { total_iterations: 0, iterations_with_changes: 0, successful_builds: 0, successful_tests: 0 }),
    {
        LoopStats { total_iterations: 0, iterations_with_changes: 0, successful_builds: 0, successful_tests: 0 }
    }
}

/// The totals after one more iteration with result `r`.
pub open spec fn stats_after(s: LoopStats, r: LoopResult) -> LoopStats {
    let changed = r.changed_files > 0;
    LoopStats {
        total_iterations: (s.total_iterations + 1) as usize,
        iterations_with_changes: if changed { (s.iterations_with_changes + 1) as usize } else { s.iterations_with_changes },
        successful_builds: if changed && r.build_success == Some(true) && r.test_success == Some(true) {
            (s.successful_builds + 1) as usize
        } else {
            s.successful_builds
        },
        successful_tests: if changed && r.test_failed is None { (s.successful_tests + 1) as usize } else { s.successful_tests },
    }
}

/// Counts one more iteration with result `r`.
pub fn record_iteration(stats: &mut LoopStats, r: &LoopResult)
    requires
        old(stats).total_iterations < usize::MAX,
        old(stats).iterations_with_changes < usize::MAX,
        old(stats).successful_builds < usize::MAX,
        old(stats).successful_tests < usize::MAX,
    ensures
        *final(stats) == stats_after(*old(stats), *r),
{
    stats.total_iterations = stats.total_iterations + 1;
    if r.changed_files > 0 {
        stats.iterations_with_changes = stats.iterations_with_changes + 1;
        let both = match (r.build_success, r.test_success) {
            (Some(true), Some(true)) => true,
            _ => false,
        };
        if both {
            stats.successful_builds = stats.successful_builds + 1;
        }
        if r.test_failed.is_none() {
            stats.successful_tests = stats.successful_tests + 1;
        }
    }
}

/// A run is refused when every step is off and no iteration limit is set.
pub fn check_run(config: &DevLoopConfig, max_iterations: Option<usize>) -> (r: Result<(), String>)
    ensures
        r is Err <==> (!config.test_on_change && !config.format_on_change && !config.lint_on_change
            && !config.build_on_change && max_iterations is None),
        r matches Err(e) ==> e@ == "All devloop actions are disabled and no iterations specified. Exiting to avoid infinite loop."@,
{
    if !config.test_on_change && !config.format_on_change && !config.lint_on_change && !config.build_on_change
        && max_iterations.is_none() {
        return Err(owned("All devloop actions are disabled and no iterations specified. Exiting to avoid infinite loop."));
    }
    Ok(())
}

/// The banner printed when a run starts.
pub open spec fn run_banner(c: DevLoopConfig) -> Seq<char> {
    "\u{1f680} Starting DevLoop...\n"@ + "   Watch: "@ + bool_text(c.watch) + "\n"@
        + "   Test on change: "@ + bool_text(c.test_on_change) + "\n"@
        + "   Format on change: "@ + bool_text(c.format_on_change) + "\n"@
        + "   Auto-deps: "@ + bool_text(c.auto_deps) + "\n"@
}

/// The banner printed when a run starts.
pub fn run_header(config: &DevLoopConfig) -> (r: String)
    ensures
        r@ == run_banner(*config),
{
    let mut r = owned("\u{1f680} Starting DevLoop...\n");
    push_str(&mut r, "   Watch: ");
    push_str(&mut r, bool_to_string(config.watch).as_str());
    push_str(&mut r, "\n");
    push_str(&mut r, "   Test on change: ");
    push_str(&mut r, bool_to_string(config.test_on_change).as_str());
    push_str(&mut r, "\n");
    push_str(&mut r, "   Format on change: ");
    push_str(&mut r, bool_to_string(config.format_on_change).as_str());
    push_str(&mut r, "\n");
    push_str(&mut r, "   Auto-deps: ");
    push_str(&mut r, bool_to_string(config.auto_deps).as_str());
    push_str(&mut r, "\n");
    r
}

/// The report printed after an iteration that saw changes.
pub open spec fn iteration_text(n: usize, r: LoopResult) -> Seq<char> {
    let head = "\n\u{1f504} Iteration "@ + dec(n as nat) + ": "@ + dec(r.changed_files as nat) + " files changed\n"@;
    let b = match r.build_failed {
        Some(f) => "\u{274c} Build failed:\n"@ + f@ + "\n"@,
        None => seq![],
    };
    let t = match r.test_failed {
        Some(f) => "\u{274c} Tests failed:\n"@ + f@ + "\n"@,
        None => seq![],
    };
    let ok = if r.build_success == Some(true) && r.test_success == Some(true) {
        "\u{2705} All checks passed\n"@
    } else {
        seq![]
    };
    head + b + t + ok
}

/// The report printed after iteration `n` when it saw changes; nothing when
/// it saw none.
pub fn iteration_report(n: usize, r: &LoopResult) -> (out: String)
    ensures
        out@ == if r.changed_files == 0 { seq![] } else { iteration_text(n, *r) },
{
    if r.changed_files == 0 {
        return String::new();
    }
    let mut out = cat3("\n\u{1f504} Iteration ", u64_to_string(n as u64).as_str(), ": ");
    push_str(&mut out, u64_to_string(r.changed_files as u64).as_str());
    push_str(&mut out, " files changed\n");
    let ghost h = out@;
    match &r.build_failed {
        Some(f) => {
            push_str(&mut out, "\u{274c} Build failed:\n");
            push_str(&mut out, f.as_str());
            push_str(&mut out, "\n");
        },
        None => {},
    }
    let ghost hb = out@;
    match &r.test_failed {
        Some(f) => {
            push_str(&mut out, "\u{274c} Tests failed:\n");
            push_str(&mut out, f.as_str());
            push_str(&mut out, "\n");
        },
        None => {},
    }
    let ghost hbt = out@;
    let both = match (r.build_success, r.test_success) {
        (Some(true), Some(true)) => true,
        _ => false,
    };
    if both {
        push_str(&mut out, "\u{2705} All checks passed\n");
    }
    assert(out@ =~= iteration_text(n, *r));
    out
}

/// Whether a run with `iterations` done stops under the limit `max`.
pub fn reached_limit(iterations: usize, max: Option<usize>) -> (r: bool)
    ensures
        r == (max matches Some(m) && iterations >= m),
{
    match max {
        Some(m) => iterations >= m,
        None => false,
    }
}

/// The configuration of test-driven watching: build and test on change,
/// no format or lint.
pub fn tdd_config(config: DevLoopConfig) -> (r: DevLoopConfig)
    ensures
        r == (DevLoopConfig { test_on_change: true, build_on_change: true, format_on_change: false, lint_on_change: false, ..config }),
{
    DevLoopConfig { test_on_change: true, build_on_change: true, format_on_change: false, lint_on_change: false, ..config }
}

/// How a dependency gets added to a project.
#[derive(Debug, Clone)]
pub enum DependencyAction {
    /// By editing `Cargo.toml`.
    Cargo { dep: String },
    /// By `npm install`.
    Npm { dep: String },
}

/// How a dependency gets added: through `Cargo.toml` in a Cargo project,
/// through npm in an npm project; neither is an error.
pub fn auto_add_dependency(files: &ProjectFiles, dep_name: &str) -> (r: Result<DependencyAction, String>)
    ensures
        files.cargo_toml ==> (r matches Ok(DependencyAction::Cargo { dep }) && dep@ == dep_name@),
        !files.cargo_toml && files.package_json ==> (r matches Ok(DependencyAction::Npm { dep }) && dep@ == dep_name@),
        !files.cargo_toml && !files.package_json ==> (r matches Err(e) && e@ == "No recognized project file found"@),
{
    if files.cargo_toml {
        Ok(DependencyAction::Cargo { dep: owned(dep_name) })
    } else if files.package_json {
        Ok(DependencyAction::Npm { dep: owned(dep_name) })
    } else {
        Err(owned("No recognized project file found"))
    }
}

/// The line that adds a dependency to `Cargo.toml`.
pub open spec fn dep_line(dep: Seq<char>) -> Seq<char> {
    dep + " = \"0.1\"  # auto-added"@
}

/// The new `Cargo.toml` text with `dep` added, or none when it is there
/// already (a line `<dep> =`); and the message.
pub open spec fn cargo_dep_spec(content: Seq<char>, dep: Seq<char>) -> (Option<Seq<char>>, Seq<char>) {
    if contains(content, dep + " ="@) {
        (None, "Dependency '"@ + dep + "' already in Cargo.toml"@)
    } else if contains(content, "[dependencies]"@) {
        (Some(content + "\n"@ + dep_line(dep)), "Added '"@ + dep + "' to Cargo.toml"@)
    } else {
        (Some(content + "\n\n[dependencies]\n"@ + dep_line(dep)), "Added '"@ + dep + "' to Cargo.toml"@)
    }
}

/// Adds `dep` to the text of a `Cargo.toml`.
pub fn cargo_dep_update(content: &str, dep: &str) -> (r: (Option<String>, String))
    ensures
        (match r.0 { Some(t) => Some(t@), None => None }, r.1@) == cargo_dep_spec(content@, dep@),
{
    let needle = cat(dep, " =");
    if str_contains(content, needle.as_str()) {
        return (None, cat3("Dependency '", dep, "' already in Cargo.toml"));
    }
    let mut t = owned(content);
    if str_contains(content, "[dependencies]") {
        push_str(&mut t, "\n");
    } else {
        push_str(&mut t, "\n\n[dependencies]\n");
    }
    push_str(&mut t, dep);
    push_str(&mut t, " = \"0.1\"  # auto-added");
    (Some(t), cat3("Added '", dep, "' to Cargo.toml"))
}

/// The totals of a run stay ordered: successful builds and successful test
/// rounds never outnumber the iterations with changes, which never outnumber
/// all iterations.
pub open spec fn stats_ordered(s: LoopStats) -> bool {
    s.successful_builds <= s.iterations_with_changes && s.successful_tests <= s.iterations_with_changes
        && s.iterations_with_changes <= s.total_iterations
}

/// Counting an iteration keeps the totals ordered.
pub proof fn lemma_stats_stay_ordered(s: LoopStats, r: LoopResult)
    requires
        stats_ordered(s),
        s.total_iterations < usize::MAX,
    ensures
        stats_ordered(stats_after(s, r)),
{
}

} // verus!
