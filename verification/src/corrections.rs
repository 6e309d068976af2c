//! Rule-based command corrections: a fixed table of typo rules, with
//! suggestions drawn from error messages when no rule applies.

use vstd::prelude::*;
use crate::text::{
    cat, cat3, contains, first_word, first_word_of, is_prefix, join, join_strings, lowercase,
    owned, push_str, replace, replace_all, starts_with, str_contains, str_eq, to_lower, views,
};

verus! {

/// The kinds of correction the engine knows.
#[derive(Debug, Clone, Copy, PartialEq, Eq, Structural)]
pub enum RuleKind {
    CdParent,
    GitBranchTypo,
    GitPushNoRemote,
    LsDot,
    PipInstall,
    CargoRunRelease,
}

/// Whether a rule of the kind applies to the command.
pub open spec fn rule_matches(k: RuleKind, cmd: Seq<char>) -> bool {
    match k {
        RuleKind::CdParent => contains(cmd, "cd.."@),
        RuleKind::GitBranchTypo => is_prefix("git brnach"@, cmd) || is_prefix("git brasnch"@, cmd),
        RuleKind::GitPushNoRemote => contains(cmd, "git push"@) && !contains(cmd, "git push -u"@),
        RuleKind::LsDot => cmd == "ls."@ || cmd == "ls .."@ || cmd == "ls ./"@,
        RuleKind::PipInstall => (is_prefix("pip install"@, cmd) || is_prefix("pip i"@, cmd))
            && !contains(cmd, "requirements"@),
        RuleKind::CargoRunRelease => contains(cmd, "cargo run"@) && !contains(cmd, "--release"@),
    }
}

/// The corrected command that a rule of the kind gives.
pub open spec fn rule_apply(k: RuleKind, cmd: Seq<char>) -> Seq<char> {
    match k {
        RuleKind::CdParent => replace_all(cmd, "cd.."@, "cd .."@),
        RuleKind::GitBranchTypo => replace_all(replace_all(cmd, "brnach"@, "branch"@), "brasnch"@, "branch"@),
        RuleKind::GitPushNoRemote => cmd + " -u origin"@,
        RuleKind::LsDot => "ls"@,
        RuleKind::PipInstall => if contains(cmd, "pip i"@) {
            replace_all(cmd, "pip i"@, "pip install"@)
        } else {
            cmd + " -r requirements.txt"@
        },
        RuleKind::CargoRunRelease => cmd + " --release"@,
    }
}

/// Whether a rule of the kind applies to the command.
pub fn kind_matches(k: RuleKind, cmd: &str) -> (r: bool)
    ensures
        r == rule_matches(k, cmd@),
{
    match k {
        RuleKind::CdParent => str_contains(cmd, "cd.."),
        RuleKind::GitBranchTypo => starts_with(cmd, "git brnach") || starts_with(cmd, "git brasnch"),
        RuleKind::GitPushNoRemote => str_contains(cmd, "git push") && !str_contains(cmd, "git push -u"),
        RuleKind::LsDot => str_eq(cmd, "ls.") || str_eq(cmd, "ls ..") || str_eq(cmd, "ls ./"),
        RuleKind::PipInstall => (starts_with(cmd, "pip install") || starts_with(cmd, "pip i"))
            && !str_contains(cmd, "requirements"),
        RuleKind::CargoRunRelease => str_contains(cmd, "cargo run") && !str_contains(cmd, "--release"),
    }
}

/// The corrected command that a rule of the kind gives.
pub fn kind_apply(k: RuleKind, cmd: &str) -> (r: String)
    ensures
        r@ == rule_apply(k, cmd@),
{
    match k {
        RuleKind::CdParent => replace(cmd, "cd..", "cd .."),
        RuleKind::GitBranchTypo => {
            let once = replace(cmd, "brnach", "branch");
            replace(once.as_str(), "brasnch", "branch")
        }
        RuleKind::GitPushNoRemote => cat(cmd, " -u origin"),
        RuleKind::LsDot => owned("ls"),
        RuleKind::PipInstall => if str_contains(cmd, "pip i") {
            replace(cmd, "pip i", "pip install")
        } else {
            cat(cmd, " -r requirements.txt")
        },
        RuleKind::CargoRunRelease => cat(cmd, " --release"),
    }
}

/// One correction rule.
#[derive(Clone)]
pub struct CorrectionRule {
    pub name: String,
    pub kind: RuleKind,
    pub enabled: bool,
}

impl CorrectionRule {
    fn matches(&self, input: &str) -> (r: bool)
        ensures
            r == rule_matches(self.kind, input@),
    {
        kind_matches(self.kind, input)
    }

    fn apply(&self, input: &str) -> (r: String)
        ensures
            r@ == rule_apply(self.kind, input@),
    {
        kind_apply(self.kind, input)
    }
}

/// The correction engine: its rules, tried in order.
pub struct CorrectionEngine {
    rules: Vec<CorrectionRule>,
}

/// The standard rules, in the order they are tried.
pub open spec fn standard_rules(rules: Seq<CorrectionRule>) -> bool {
    &&& rules.len() == 6
    &&& rules[0].name@ == "cd_parent"@ && rules[0].kind == RuleKind::CdParent
    &&& rules[1].name@ == "git_branch_typo"@ && rules[1].kind == RuleKind::GitBranchTypo
    &&& rules[2].name@ == "git_push_no_remote"@ && rules[2].kind == RuleKind::GitPushNoRemote
    &&& rules[3].name@ == "ls_dot"@ && rules[3].kind == RuleKind::LsDot
    &&& rules[4].name@ == "pip_install"@ && rules[4].kind == RuleKind::PipInstall
    &&& rules[5].name@ == "cargo_run_release"@ && rules[5].kind == RuleKind::CargoRunRelease
    &&& forall|i: int| 0 <= i < 6 ==> #[trigger] rules[i].enabled
}

/// The correction of the first enabled rule, from position `i` on, that applies.
pub open spec fn correction_from(rules: Seq<CorrectionRule>, input: Seq<char>, i: int) -> Option<Seq<char>>
    decreases rules.len() - i,
{
    if i < 0 || i >= rules.len() {
        None
    } else if rules[i].enabled && rule_matches(rules[i].kind, input) {
        Some(rule_apply(rules[i].kind, input))
    } else {
        correction_from(rules, input, i + 1)
    }
}

/// The name of the first rule, from position `i` on, that applies (enabled or not).
pub open spec fn rule_name_from(rules: Seq<CorrectionRule>, cmd: Seq<char>, i: int) -> Seq<char>
    decreases rules.len() - i,
{
    if i < 0 || i >= rules.len() {
        "auto-corrected"@
    } else if rule_matches(rules[i].kind, cmd) {
        rules[i].name@
    } else {
        rule_name_from(rules, cmd, i + 1)
    }
}

/// The suggestions drawn from an error message, when no rule applies: run
/// with sudo (not on Windows) for a permission error; install through apt
/// and homebrew for a missing command; install the dependency for a missing
/// file.
pub open spec fn message_suggestions(input: Seq<char>, on_windows: bool) -> Seq<(Seq<char>, Seq<char>)> {
    let lower = lowercase(input);
    let s1: Seq<(Seq<char>, Seq<char>)> = if contains(lower, "permission denied"@) && !on_windows {
        seq![("sudo "@ + input, "run with sudo"@)]
    } else {
        seq![]
    };
    let s2 = if contains(lower, "not found"@) || contains(lower, "command not found"@) {
        match first_word(input) {
            Some(cmd) => s1 + seq![("apt install "@ + cmd, "install via apt"@), ("brew install "@ + cmd, "install via homebrew"@)],
            None => s1,
        }
    } else {
        s1
    };
    if contains(lower, "no such file"@) || contains(lower, "not exist"@) {
        s2 + seq![(replace_all(replace_all(input, "import"@, "pip install"@), "npm"@, "npm install"@), "install dependency"@)]
    } else {
        s2
    }
}

/// The views of a list of suggestions.
pub open spec fn pair_views(v: Seq<(String, String)>) -> Seq<(Seq<char>, Seq<char>)> {
    v.map_values(|p: (String, String)| (p.0@, p.1@))
}

/// The explanations that apply to a command no rule corrects.
pub open spec fn explanations(input: Seq<char>) -> Seq<Seq<char>> {
    let e1: Seq<Seq<char>> = if contains(input, "cd.."@) { seq!["Did you mean: cd .. (space between cd and ..)"@] } else { seq![] };
    let e2 = if is_prefix("git "@, input) && contains(input, "brnach"@) { e1.push("Did you mean: git branch"@) } else { e1 };
    let e3 = if contains(input, "pip i"@) { e2.push("Did you mean: pip install -r requirements.txt"@) } else { e2 };
    if is_prefix("cargo "@, input) && !contains(input, "cargo install"@) { e3.push("Did you mean: cargo run --release"@) } else { e3 }
}

impl CorrectionEngine {
    /// The engine with the standard rules, all enabled.
    pub fn new() -> (r: Self)
        ensures
            standard_rules(r.rules()),
    {
        let mut rules: Vec<CorrectionRule> = Vec::new();
        rules.push(CorrectionRule { name: owned("cd_parent"), kind: RuleKind::CdParent, enabled: true });
        rules.push(CorrectionRule { name: owned("git_branch_typo"), kind: RuleKind::GitBranchTypo, enabled: true });
        rules.push(CorrectionRule { name: owned("git_push_no_remote"), kind: RuleKind::GitPushNoRemote, enabled: true });
        rules.push(CorrectionRule { name: owned("ls_dot"), kind: RuleKind::LsDot, enabled: true });
        rules.push(CorrectionRule { name: owned("pip_install"), kind: RuleKind::PipInstall, enabled: true });
        rules.push(CorrectionRule { name: owned("cargo_run_release"), kind: RuleKind::CargoRunRelease, enabled: true });
        CorrectionEngine { rules }
    }

    /// The rules, in the order they are tried.
    pub closed spec fn rules(&self) -> Seq<CorrectionRule> {
        self.rules@
    }

    /// The correction of the first enabled rule that applies, if any.
    pub fn correct(&self, input: &str) -> (r: Option<String>)
        ensures
            match r {
                Some(c) => correction_from(self.rules(), input@, 0) == Some(c@),
                None => correction_from(self.rules(), input@, 0) is None,
            },
    {
        let mut i: usize = 0;
        while i < self.rules.len()
            invariant
                i <= self.rules@.len(),
                correction_from(self.rules@, input@, 0) == correction_from(self.rules@, input@, i as int),
            decreases self.rules.len() - i,
        {
            if self.rules[i].enabled && self.rules[i].matches(input) {
                return Some(self.rules[i].apply(input));
            }
            i = i + 1;
        }
        None
    }

    /// The name of the first rule that applies to the corrected command, or
    /// `auto-corrected` when none does.
    pub fn find_rule_name(&self, corrected: &str) -> (r: String)
        ensures
            r@ == rule_name_from(self.rules(), corrected@, 0),
    {
        let mut i: usize = 0;
        while i < self.rules.len()
            invariant
                i <= self.rules@.len(),
                rule_name_from(self.rules@, corrected@, 0) == rule_name_from(self.rules@, corrected@, i as int),
            decreases self.rules.len() - i,
        {
            if self.rules[i].matches(corrected) {
                return owned(self.rules[i].name.as_str());
            }
            i = i + 1;
        }
        owned("auto-corrected")
    }

    /// Suggestions for a command or its error message: the rule correction
    /// with its rule's name when a rule applies, else the suggestions that
    /// the message calls for.
    pub fn suggest(&self, input: &str, on_windows: bool) -> (r: Vec<(String, String)>)
        ensures
            pair_views(r@) == match correction_from(self.rules(), input@, 0) {
                Some(c) => seq![(c, rule_name_from(self.rules(), c, 0))],
                None => message_suggestions(input@, on_windows),
            },
    {
        let mut out: Vec<(String, String)> = Vec::new();
        match self.correct(input) {
            Some(c) => {
                let name = self.find_rule_name(c.as_str());
                out.push((c, name));
                assert(pair_views(out@) =~= seq![(out@[0].0@, out@[0].1@)]);
                return out;
            }
            None => {}
        }
        let lower = to_lower(input);
        let ghost lv = lower@;
        if str_contains(lower.as_str(), "permission denied") && !on_windows {
            out.push((cat("sudo ", input), owned("run with sudo")));
        }
        let ghost s1 = pair_views(out@);
        assert(s1 =~= if contains(lv, "permission denied"@) && !on_windows {
            seq![("sudo "@ + input@, "run with sudo"@)]
        } else {
            Seq::<(Seq<char>, Seq<char>)>::empty()
        });
        if str_contains(lower.as_str(), "not found") || str_contains(lower.as_str(), "command not found") {
            match first_word_of(input) {
                Some(cmd) => {
                    let ghost before = out@;
                    out.push((cat("apt install ", cmd.as_str()), owned("install via apt")));
                    out.push((cat("brew install ", cmd.as_str()), owned("install via homebrew")));
                    assert(pair_views(out@) =~= pair_views(before) + seq![("apt install "@ + cmd@, "install via apt"@), ("brew install "@ + cmd@, "install via homebrew"@)]);
                }
                None => {}
            }
        }
        if str_contains(lower.as_str(), "no such file") || str_contains(lower.as_str(), "not exist") {
            let ghost before = out@;
            let a = replace(input, "import", "pip install");
            let b = replace(a.as_str(), "npm", "npm install");
            out.push((b, owned("install dependency")));
            assert(pair_views(out@) =~= pair_views(before).push((out@.last().0@, out@.last().1@)));
        }
        out
    }

    /// Explains how a command would be corrected.
    pub fn explain(&self, input: &str, on_windows: bool) -> (r: String)
        ensures
            r@ == match correction_from(self.rules(), input@, 0) {
                Some(c) => "Corrected: '"@ + input@ + "' to '"@ + c + "'\nRule: "@ + rule_name_from(self.rules(), c, 0),
                None => if explanations(input@).len() > 0 {
                    join(explanations(input@), "\n"@)
                } else if message_suggestions(input@, on_windows).len() > 0 {
                    "Try: "@ + message_suggestions(input@, on_windows)[0].0
                } else {
                    "No correction found for: "@ + input@
                },
            },
    {
        match self.correct(input) {
            Some(c) => {
                let name = self.find_rule_name(c.as_str());
                let mut r = cat3("Corrected: '", input, "' to '");
                push_str(&mut r, c.as_str());
                push_str(&mut r, "'\nRule: ");
                push_str(&mut r, name.as_str());
                return r;
            }
            None => {}
        }
        let mut ex: Vec<String> = Vec::new();
        if str_contains(input, "cd..") {
            ex.push(owned("Did you mean: cd .. (space between cd and ..)"));
        }
        if starts_with(input, "git ") && str_contains(input, "brnach") {
            ex.push(owned("Did you mean: git branch"));
        }
        if str_contains(input, "pip i") {
            ex.push(owned("Did you mean: pip install -r requirements.txt"));
        }
        if starts_with(input, "cargo ") && !str_contains(input, "cargo install") {
            ex.push(owned("Did you mean: cargo run --release"));
        }
        assert(views(ex@) =~= explanations(input@));
        if ex.len() == 0 {
            let sugg = self.suggest(input, on_windows);
            if sugg.len() > 0 {
                assert(pair_views(sugg@)[0] == (sugg@[0].0@, sugg@[0].1@));
                return cat("Try: ", sugg[0].0.as_str());
            }
            return cat("No correction found for: ", input);
        }
        join_strings(&ex, "\n")
    }
}

/// The command meant: the rule correction when a rule applies, else the
/// first suggestion drawn from the message, else the input itself.
pub open spec fn meant(input: Seq<char>, on_windows: bool, rules: Seq<CorrectionRule>) -> Seq<char> {
    match correction_from(rules, input, 0) {
        Some(c) => c,
        None => if message_suggestions(input, on_windows).len() > 0 {
            message_suggestions(input, on_windows)[0].0
        } else {
            input
        },
    }
}

/// The command meant, by the standard rules.
pub fn did_you_mean(input: &str, on_windows: bool) -> (r: String)
    ensures
        exists|rules: Seq<CorrectionRule>| standard_rules(rules) && r@ == meant(input@, on_windows, rules),
{
    let engine = CorrectionEngine::new();
    match engine.correct(input) {
        Some(c) => return c,
        None => {}
    }
    let sugg = engine.suggest(input, on_windows);
    if sugg.len() > 0 {
        assert(pair_views(sugg@)[0] == (sugg@[0].0@, sugg@[0].1@));
        return owned(sugg[0].0.as_str());
    }
    owned(input)
}

/// The fixed command: the command meant.
pub fn fix_command(input: &str, on_windows: bool) -> (r: String)
    ensures
        exists|rules: Seq<CorrectionRule>| standard_rules(rules) && r@ == meant(input@, on_windows, rules),
{
    did_you_mean(input, on_windows)
}

} // verus!
