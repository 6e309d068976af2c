//! Hooks: shell commands bound to events (before a commit, after a build,
//! ...), each enabled or not, kept by name.

use vstd::prelude::*;
use crate::text::{cat, cat3, owned, push_str, str_eq};

verus! {

/// A hook: the event it is bound to, what it is for, the command it runs,
/// whether it is enabled and whether its failure is tolerated.
#[derive(Debug, Clone)]
pub struct HookConfig {
    pub name: String,
    pub description: String,
    pub command: String,
    pub enabled: bool,
    pub allow_fail: bool,
}

/// No two hooks share a name.
pub open spec fn names_unique(s: Seq<HookConfig>) -> bool {
    forall|i: int, k: int| 0 <= i < s.len() && 0 <= k < s.len() && i != k ==> s[i].name@ != s[k].name@
}

/// The position of the hook named `name`.
pub open spec fn hook_index(s: Seq<HookConfig>, name: Seq<char>) -> Option<int>
    decreases s.len(),
{
    if s.len() == 0 {
        None
    } else {
        match hook_index(s.drop_last(), name) {
            Some(i) => Some(i),
            None => if s.last().name@ == name { Some(s.len() - 1) } else { None },
        }
    }
}

/// `h` holds exactly these values.
pub open spec fn hook_is(h: HookConfig, name: Seq<char>, description: Seq<char>, command: Seq<char>, enabled: bool, allow_fail: bool) -> bool {
    &&& h.name@ == name
    &&& h.description@ == description
    &&& h.command@ == command
    &&& h.enabled == enabled
    &&& h.allow_fail == allow_fail
}

/// The hooks that come with the tool, all disabled.
pub open spec fn default_hook_list(s: Seq<HookConfig>) -> bool {
    &&& s.len() == 8
    &&& hook_is(s[0], "pre-commit"@, "Run before git commit"@, "cargo fmt --check"@, false, false)
    &&& hook_is(s[1], "post-commit"@, "Run after git commit"@, "echo 'Committed!'"@, false, false)
    &&& hook_is(s[2], "pre-build"@, "Run before build"@, "cargo check"@, false, true)
    &&& hook_is(s[3], "post-build"@, "Run after build"@, "echo 'Build complete!'"@, false, false)
    &&& hook_is(s[4], "pre-test"@, "Run before tests"@, "cargo check"@, false, true)
    &&& hook_is(s[5], "post-test"@, "Run after tests"@, "echo 'Tests done!'"@, false, false)
    &&& hook_is(s[6], "on-save"@, "Run when files are saved"@, ""@, false, false)
    &&& hook_is(s[7], "on-error"@, "Run when errors occur"@, "echo 'Error occurred'"@, false, false)
}

/// How a hook is shown: name, description, state and command.
pub open spec fn hook_line(h: HookConfig) -> Seq<char> {
    h.name@ + ": "@ + h.description@ + " ["@ + (if h.enabled { "enabled"@ } else { "disabled"@ })
        + "] command: "@ + (if h.command@.len() == 0 { "(none)"@ } else { h.command@ })
}

/// Every hook shown on a line of its own, in stored order.
pub open spec fn hook_lines(s: Seq<HookConfig>) -> Seq<char>
    decreases s.len(),
{
    if s.len() == 0 {
        seq![]
    } else {
        hook_lines(s.drop_last()) + hook_line(s.last()) + "\n"@
    }
}

/// The message for a name that no hook has.
pub open spec fn hook_not_found(name: Seq<char>) -> Seq<char> {
    "Hook not found: "@ + name
}

proof fn lemma_hook_index(s: Seq<HookConfig>, name: Seq<char>)
    ensures
        match hook_index(s, name) {
            Some(i) => 0 <= i < s.len() && s[i].name@ == name && forall|k: int| 0 <= k < i ==> s[k].name@ != name,
            None => forall|k: int| 0 <= k < s.len() ==> s[k].name@ != name,
        },
    decreases s.len(),
{
    if s.len() > 0 {
        lemma_hook_index(s.drop_last(), name);
        assert forall|k: int| 0 <= k < s.len() - 1 implies s.drop_last()[k] == s[k] by {}
    }
}

/// The hooks, each under its own name.
pub struct HookRegistry {
    hooks: Vec<HookConfig>,
}

fn new_hook(name: &str, description: &str, command: &str, allow_fail: bool) -> (h: HookConfig)
    ensures
        hook_is(h, name@, description@, command@, false, allow_fail),
{
    HookConfig { name: owned(name), description: owned(description), command: owned(command), enabled: false, allow_fail }
}

impl HookRegistry {
    #[verifier::type_invariant]
    spec fn wf(&self) -> bool {
        names_unique(self.hooks@)
    }

    /// The hooks, in stored order.
    pub closed spec fn all(&self) -> Seq<HookConfig> {
        self.hooks@
    }

    fn find(&self, name: &str) -> (r: Option<usize>)
        ensures
            match r {
                Some(i) => hook_index(self.all(), name@) == Some(i as int),
                None => hook_index(self.all(), name@) is None,
            },
    {
        proof { lemma_hook_index(self.hooks@, name@); }
        let mut i: usize = 0;
        while i < self.hooks.len()
            invariant
                i <= self.hooks@.len(),
                forall|k: int| 0 <= k < i ==> self.hooks@[k].name@ != name@,
                match hook_index(self.hooks@, name@) {
                    Some(j) => 0 <= j < self.hooks@.len() && self.hooks@[j].name@ == name@
                        && forall|k: int| 0 <= k < j ==> self.hooks@[k].name@ != name@,
                    None => forall|k: int| 0 <= k < self.hooks@.len() ==> self.hooks@[k].name@ != name@,
                },
            decreases self.hooks.len() - i,
        {
            if str_eq(self.hooks[i].name.as_str(), name) {
                return Some(i);
            }
            i = i + 1;
        }
        None
    }

    /// Takes the hooks out, leaving none.
    fn take_all(&mut self) -> (r: Vec<HookConfig>)
        ensures
            r@ == old(self).all(),
            names_unique(r@),
            final(self).all().len() == 0,
    {
        proof { use_type_invariant(&*self); }
        let mut hooks: Vec<HookConfig> = Vec::new();
        std::mem::swap(&mut hooks, &mut self.hooks);
        hooks
    }
}

/// Sets whether the hook at `i` is enabled.
fn set_enabled_at(reg: &mut HookRegistry, i: usize, enabled: bool)
    requires
        i < old(reg).all().len(),
    ensures
        final(reg).all() == old(reg).all().update(i as int, HookConfig { enabled, ..old(reg).all()[i as int] }),
{
    let ghost before = reg.hooks@;
    let mut hooks = reg.take_all();
    let mut h = hooks.remove(i);
    h.enabled = enabled;
    hooks.insert(i, h);
    assert(hooks@ =~= before.update(i as int, HookConfig { enabled, ..before[i as int] }));
    assert(names_unique(hooks@)) by {
        assert forall|a: int, b: int| 0 <= a < hooks@.len() && 0 <= b < hooks@.len() && a != b
            implies hooks@[a].name@ != hooks@[b].name@ by {
            assert(before[a].name@ != before[b].name@);
        }
    }
    reg.hooks = hooks;
}

/// Sets the command of the hook at `i`.
fn set_command_at(reg: &mut HookRegistry, i: usize, cmd: &str)
    requires
        i < old(reg).all().len(),
    ensures
        final(reg).all().len() == old(reg).all().len(),
        final(reg).all() == old(reg).all().update(i as int, HookConfig { command: final(reg).all()[i as int].command, ..old(reg).all()[i as int] }),
        final(reg).all()[i as int].command@ == cmd@,
{
    let ghost before = reg.hooks@;
    let mut hooks = reg.take_all();
    let mut h = hooks.remove(i);
    h.command = owned(cmd);
    hooks.insert(i, h);
    assert(hooks@ =~= before.update(i as int, HookConfig { command: hooks@[i as int].command, ..before[i as int] }));
    assert(names_unique(hooks@)) by {
        assert forall|a: int, b: int| 0 <= a < hooks@.len() && 0 <= b < hooks@.len() && a != b
            implies hooks@[a].name@ != hooks@[b].name@ by {
            assert(before[a].name@ != before[b].name@);
        }
    }
    reg.hooks = hooks;
}

/// The hooks that come with the tool: one for each event, all disabled.
pub fn default_hooks() -> (r: HookRegistry)
    ensures
        default_hook_list(r.all()),
        names_unique(r.all()),
{
    let mut hooks: Vec<HookConfig> = Vec::new();
    hooks.push(new_hook("pre-commit", "Run before git commit", "cargo fmt --check", false));
    hooks.push(new_hook("post-commit", "Run after git commit", "echo 'Committed!'", false));
    hooks.push(new_hook("pre-build", "Run before build", "cargo check", true));
    hooks.push(new_hook("post-build", "Run after build", "echo 'Build complete!'", false));
    hooks.push(new_hook("pre-test", "Run before tests", "cargo check", true));
    hooks.push(new_hook("post-test", "Run after tests", "echo 'Tests done!'", false));
    hooks.push(new_hook("on-save", "Run when files are saved", "", false));
    hooks.push(new_hook("on-error", "Run when errors occur", "echo 'Error occurred'", false));
    proof {
        reveal_strlit("pre-commit");
        reveal_strlit("post-commit");
        reveal_strlit("pre-build");
        reveal_strlit("post-build");
        reveal_strlit("pre-test");
        reveal_strlit("post-test");
        reveal_strlit("on-save");
        reveal_strlit("on-error");
        assert(names_unique(hooks@)) by {
            assert forall|a: int, b: int| 0 <= a < hooks@.len() && 0 <= b < hooks@.len() && a != b
                implies hooks@[a].name@ != hooks@[b].name@ by {
                let x = hooks@[a].name@;
                let y = hooks@[b].name@;
                assert(x.len() != y.len() || x[1] != y[1] || x[3] != y[3] || x[5] != y[5] || x[6] != y[6]);
            }
        }
    }
    HookRegistry { hooks }
}

fn show_hook(h: &HookConfig) -> (r: String)
    ensures
        r@ == hook_line(*h),
{
    let mut r = cat3(h.name.as_str(), ": ", h.description.as_str());
    push_str(&mut r, " [");
    if h.enabled {
        push_str(&mut r, "enabled");
    } else {
        push_str(&mut r, "disabled");
    }
    push_str(&mut r, "] command: ");
    if h.command.as_str().is_empty() {
        push_str(&mut r, "(none)");
    } else {
        push_str(&mut r, h.command.as_str());
    }
    r
}

/// Every hook, one per line.
pub fn list_hooks(reg: &HookRegistry) -> (r: String)
    ensures
        r@ == hook_lines(reg.all()),
{
    let mut out = String::new();
    let mut i: usize = 0;
    while i < reg.hooks.len()
        invariant
            i <= reg.hooks@.len(),
            out@ == hook_lines(reg.hooks@.subrange(0, i as int)),
        decreases reg.hooks.len() - i,
    {
        assert(reg.hooks@.subrange(0, i + 1).drop_last() =~= reg.hooks@.subrange(0, i as int));
        let line = show_hook(&reg.hooks[i]);
        push_str(&mut out, line.as_str());
        push_str(&mut out, "\n");
        i = i + 1;
    }
    assert(reg.hooks@.subrange(0, reg.hooks@.len() as int) =~= reg.hooks@);
    out
}

/// The hook named `name`, shown.
pub fn get_hook(reg: &HookRegistry, name: &str) -> (r: String)
    ensures
        r@ == match hook_index(reg.all(), name@) {
            Some(i) => hook_line(reg.all()[i]),
            None => hook_not_found(name@),
        },
{
    proof { lemma_hook_index(reg.hooks@, name@); }
    match reg.find(name) {
        Some(i) => show_hook(&reg.hooks[i]),
        None => cat("Hook not found: ", name),
    }
}

/// Enables the hook named `name`.
pub fn enable_hook(reg: &mut HookRegistry, name: &str) -> (r: String)
    ensures
        match hook_index(old(reg).all(), name@) {
            Some(i) => final(reg).all() == old(reg).all().update(i, HookConfig { enabled: true, ..old(reg).all()[i] })
                && r@ == "Hook '"@ + name@ + "' enabled"@,
            None => final(reg).all() == old(reg).all() && r@ == hook_not_found(name@),
        },
        names_unique(final(reg).all()),
{
    proof { lemma_hook_index(reg.hooks@, name@); }
    let r = match reg.find(name) {
        Some(i) => {
            set_enabled_at(reg, i, true);
            cat3("Hook '", name, "' enabled")
        },
        None => cat("Hook not found: ", name),
    };
    proof { use_type_invariant(&*reg); }
    r
}

/// Disables the hook named `name`.
pub fn disable_hook(reg: &mut HookRegistry, name: &str) -> (r: String)
    ensures
        match hook_index(old(reg).all(), name@) {
            Some(i) => final(reg).all() == old(reg).all().update(i, HookConfig { enabled: false, ..old(reg).all()[i] })
                && r@ == "Hook '"@ + name@ + "' disabled"@,
            None => final(reg).all() == old(reg).all() && r@ == hook_not_found(name@),
        },
        names_unique(final(reg).all()),
{
    proof { lemma_hook_index(reg.hooks@, name@); }
    let r = match reg.find(name) {
        Some(i) => {
            set_enabled_at(reg, i, false);
            cat3("Hook '", name, "' disabled")
        },
        None => cat("Hook not found: ", name),
    };
    proof { use_type_invariant(&*reg); }
    r
}

/// Sets the command of the hook named `name`.
pub fn set_hook_command(reg: &mut HookRegistry, name: &str, cmd: &str) -> (r: String)
    ensures
        match hook_index(old(reg).all(), name@) {
            Some(i) => final(reg).all() == old(reg).all().update(i, HookConfig { command: final(reg).all()[i].command, ..old(reg).all()[i] })
                && final(reg).all()[i].command@ == cmd@
                && r@ == "Hook '"@ + name@ + "' command set to: "@ + cmd@,
            None => final(reg).all() == old(reg).all() && r@ == hook_not_found(name@),
        },
        names_unique(final(reg).all()),
{
    proof { lemma_hook_index(reg.hooks@, name@); }
    let r = match reg.find(name) {
        Some(i) => {
            set_command_at(reg, i, cmd);
            let mut r = cat3("Hook '", name, "' command set to: ");
            push_str(&mut r, cmd);
            r
        },
        None => cat("Hook not found: ", name),
    };
    proof { use_type_invariant(&*reg); }
    r
}

/// What running the hook named `name` comes to before any process starts:
/// the command to run, or the message that says why nothing runs.
pub fn hook_to_run(reg: &HookRegistry, name: &str) -> (r: Result<String, String>)
    ensures
        match hook_index(reg.all(), name@) {
            Some(i) => if !reg.all()[i].enabled {
                r is Err && r->Err_0@ == "Hook '"@ + name@ + "' is disabled"@
            } else if reg.all()[i].command@.len() == 0 {
                r is Err && r->Err_0@ == "Hook '"@ + name@ + "' has no command"@
            } else {
                r is Ok && r->Ok_0@ == reg.all()[i].command@
            },
            None => r is Err && r->Err_0@ == hook_not_found(name@),
        },
{
    proof { lemma_hook_index(reg.hooks@, name@); }
    match reg.find(name) {
        Some(i) => {
            let h = &reg.hooks[i];
            if !h.enabled {
                Err(cat3("Hook '", name, "' is disabled"))
            } else if h.command.as_str().is_empty() {
                Err(cat3("Hook '", name, "' has no command"))
            } else {
                Ok(owned(h.command.as_str()))
            }
        },
        None => Err(cat("Hook not found: ", name)),
    }
}

/// The report of a hook's run from what the process gave back: its output
/// when it succeeded; a warning with both outputs when it failed and failure
/// is tolerated; the failure with its error output otherwise.
pub fn hook_run_report(name: &str, allow_fail: bool, success: bool, stdout: &str, stderr: &str) -> (r: String)
    ensures
        r@ == if success {
            stdout@
        } else if allow_fail {
            "Warning: "@ + stdout@ + " "@ + stderr@
        } else {
            "Hook '"@ + name@ + "' failed: "@ + stderr@
        },
{
    if success {
        owned(stdout)
    } else if allow_fail {
        let mut r = cat3("Warning: ", stdout, " ");
        push_str(&mut r, stderr);
        r
    } else {
        let mut r = cat3("Hook '", name, "' failed: ");
        push_str(&mut r, stderr);
        r
    }
}

/// The command that the event `event` sets off: that of its hook when the
/// hook is enabled and has a command.
pub fn enabled_hook_command(reg: &HookRegistry, event: &str) -> (r: Option<String>)
    ensures
        match hook_index(reg.all(), event@) {
            Some(i) => if reg.all()[i].enabled && reg.all()[i].command@.len() > 0 {
                r is Some && r->0@ == reg.all()[i].command@
            } else {
                r is None
            },
            None => r is None,
        },
{
    proof { lemma_hook_index(reg.hooks@, event@); }
    match reg.find(event) {
        Some(i) => {
            let h = &reg.hooks[i];
            if h.enabled && !h.command.as_str().is_empty() {
                Some(owned(h.command.as_str()))
            } else {
                None
            }
        },
        None => None,
    }
}

/// How many hooks there are.
pub fn hooks_count(reg: &HookRegistry) -> (r: usize)
    ensures
        r == reg.all().len(),
{
    reg.hooks.len()
}

/// Enabling or disabling a hook, or setting its command, keeps the names of
/// all hooks, and so keeps them unique.
pub proof fn lemma_update_keeps_names(before: Seq<HookConfig>, after: Seq<HookConfig>, i: int)
    requires
        names_unique(before),
        0 <= i < before.len(),
        after.len() == before.len(),
        forall|k: int| 0 <= k < before.len() && k != i ==> after[k] == before[k],
        after[i].name@ == before[i].name@,
    ensures
        names_unique(after),
        forall|n: Seq<char>| hook_index(after, n) == hook_index(before, n),
{
    assert forall|a: int, b: int| 0 <= a < after.len() && 0 <= b < after.len() && a != b
        implies after[a].name@ != after[b].name@ by {
        assert(before[a].name@ != before[b].name@);
    }
    assert forall|n: Seq<char>| hook_index(after, n) == hook_index(before, n) by {
        lemma_hook_index(after, n);
        lemma_hook_index(before, n);
        match hook_index(before, n) {
            Some(j) => {
                assert(after[j].name@ == n);
                match hook_index(after, n) {
                    Some(m) => {
                        assert(before[m].name@ == n);
                    },
                    None => {},
                }
            },
            None => {
                match hook_index(after, n) {
                    Some(m) => {
                        assert(before[m].name@ == n);
                    },
                    None => {},
                }
            },
        }
    }
}

} // verus!
