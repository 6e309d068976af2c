//! Custom slash commands: named prompts kept by name, listed in name order.

use vstd::prelude::*;
use crate::ranking::{lemma_insert_by_at, lemma_lex_total, lemma_lex_trans, lemma_order_upto_len, lemma_order_upto_sorted, order_upto, total_preorder};
use crate::text::{cat, cat3, copy_opt_string, lex_le, opt_string_view, owned, str_eq, str_le};

verus! {

/// A custom command: its name, what it is for, and the prompt it sends.
#[derive(Debug, Clone)]
pub struct CustomCommand {
    pub name: String,
    pub description: String,
    pub prompt: String,
    pub agent: Option<String>,
    pub model: Option<String>,
}

/// `a` and `b` hold the same text in every field.
pub open spec fn same_command(a: CustomCommand, b: CustomCommand) -> bool {
    &&& a.name@ == b.name@
    &&& a.description@ == b.description@
    &&& a.prompt@ == b.prompt@
    &&& opt_string_view(a.agent) == opt_string_view(b.agent)
    &&& opt_string_view(a.model) == opt_string_view(b.model)
}

/// `c` is a fresh command with these texts and no agent or model.
pub open spec fn fresh_command(c: CustomCommand, name: Seq<char>, description: Seq<char>, prompt: Seq<char>) -> bool {
    &&& c.name@ == name
    &&& c.description@ == description
    &&& c.prompt@ == prompt
    &&& c.agent is None
    &&& c.model is None
}

impl CustomCommand {
    /// A command with no agent or model of its own.
    pub fn new(name: &str, description: &str, prompt: &str) -> (r: Self)
        ensures
            fresh_command(r, name@, description@, prompt@),
    {
        CustomCommand { name: owned(name), description: owned(description), prompt: owned(prompt), agent: None, model: None }
    }
}

fn copy_command(c: &CustomCommand) -> (r: CustomCommand)
    ensures
        same_command(r, *c),
{
    CustomCommand {
        name: owned(c.name.as_str()),
        description: owned(c.description.as_str()),
        prompt: owned(c.prompt.as_str()),
        agent: copy_opt_string(&c.agent),
        model: copy_opt_string(&c.model),
    }
}

/// No two commands share a name.
pub open spec fn command_names_unique(s: Seq<CustomCommand>) -> bool {
    forall|i: int, k: int| 0 <= i < s.len() && 0 <= k < s.len() && i != k ==> s[i].name@ != s[k].name@
}

/// The position of the command named `name`.
pub open spec fn command_index(s: Seq<CustomCommand>, name: Seq<char>) -> Option<int>
    decreases s.len(),
{
    if s.len() == 0 {
        None
    } else {
        match command_index(s.drop_last(), name) {
            Some(i) => Some(i),
            None => if s.last().name@ == name { Some(s.len() - 1) } else { None },
        }
    }
}

proof fn lemma_command_index(s: Seq<CustomCommand>, name: Seq<char>)
    ensures
        match command_index(s, name) {
            Some(i) => 0 <= i < s.len() && s[i].name@ == name && forall|k: int| 0 <= k < i ==> s[k].name@ != name,
            None => forall|k: int| 0 <= k < s.len() ==> s[k].name@ != name,
        },
    decreases s.len(),
{
    if s.len() > 0 {
        lemma_command_index(s.drop_last(), name);
        assert forall|k: int| 0 <= k < s.len() - 1 implies s.drop_last()[k] == s[k] by {}
    }
}

/// Position `a` stays ahead of position `b` when its name is not greater.
pub open spec fn name_not_after(s: Seq<CustomCommand>) -> spec_fn(usize, usize) -> bool {
    |a: usize, b: usize| lex_le(s[a as int].name@, s[b as int].name@)
}

/// The positions of the commands in name order.
pub open spec fn name_order(s: Seq<CustomCommand>) -> Seq<usize> {
    order_upto(name_not_after(s), s.len())
}

/// The command registry, each command under its own name.
pub struct CommandRegistry {
    commands: Vec<CustomCommand>,
}

impl CommandRegistry {
    #[verifier::type_invariant]
    spec fn wf(&self) -> bool {
        command_names_unique(self.commands@)
    }

    /// The commands, in the order they were first added.
    pub closed spec fn all(&self) -> Seq<CustomCommand> {
        self.commands@
    }

    /// A registry with no command.
    pub fn new() -> (r: Self)
        ensures
            r.all().len() == 0,
            command_names_unique(r.all()),
    {
        CommandRegistry { commands: Vec::new() }
    }

    fn find(&self, name: &str) -> (r: Option<usize>)
        ensures
            match r {
                Some(i) => command_index(self.all(), name@) == Some(i as int),
                None => command_index(self.all(), name@) is None,
            },
    {
        proof { lemma_command_index(self.commands@, name@); }
        let mut i: usize = 0;
        while i < self.commands.len()
            invariant
                i <= self.commands@.len(),
                forall|k: int| 0 <= k < i ==> self.commands@[k].name@ != name@,
                match command_index(self.commands@, name@) {
                    Some(j) => 0 <= j < self.commands@.len() && self.commands@[j].name@ == name@
                        && forall|k: int| 0 <= k < j ==> self.commands@[k].name@ != name@,
                    None => forall|k: int| 0 <= k < self.commands@.len() ==> self.commands@[k].name@ != name@,
                },
            decreases self.commands.len() - i,
        {
            if str_eq(self.commands[i].name.as_str(), name) {
                return Some(i);
            }
            i = i + 1;
        }
        None
    }

    fn take_all(&mut self) -> (r: Vec<CustomCommand>)
        ensures
            r@ == old(self).all(),
            command_names_unique(r@),
    {
        proof { use_type_invariant(&*self); }
        let mut v: Vec<CustomCommand> = Vec::new();
        std::mem::swap(&mut v, &mut self.commands);
        v
    }
}

/// `after` is `before` with `c` stored under its name: in place of the
/// command with that name, or appended.
pub open spec fn command_stored(before: Seq<CustomCommand>, after: Seq<CustomCommand>, c: CustomCommand) -> bool {
    match command_index(before, c.name@) {
        Some(i) => after == before.update(i, c),
        None => after == before.push(c),
    }
}

fn store(reg: &mut CommandRegistry, c: CustomCommand)
    ensures
        command_stored(old(reg).all(), final(reg).all(), c),
{
    proof { lemma_command_index(reg.commands@, c.name@); }
    let found = reg.find(c.name.as_str());
    let ghost before = reg.commands@;
    let mut v = reg.take_all();
    match found {
        Some(i) => {
            v.set(i, c);
            assert(command_names_unique(v@)) by {
                assert forall|a: int, b: int| 0 <= a < v@.len() && 0 <= b < v@.len() && a != b
                    implies v@[a].name@ != v@[b].name@ by {
                    assert(before[a].name@ != before[b].name@);
                }
            }
        },
        None => {
            v.push(c);
        },
    }
    reg.commands = v;
}

/// The commands that come with the tool: test, review and refactor.
pub fn default_commands() -> (r: CommandRegistry)
    ensures
        r.all().len() == 3,
        fresh_command(r.all()[0], "test"@, "Run tests with coverage"@,
            "Run the full test suite with coverage report and show any failures."@),
        fresh_command(r.all()[1], "review"@, "Code review"@,
            "Review the recent changes and provide feedback on code quality, potential bugs, and improvements."@),
        fresh_command(r.all()[2], "refactor"@, "Refactor code"@,
            "Analyze the codebase and suggest refactoring opportunities for better code quality."@),
        command_names_unique(r.all()),
{
    let mut commands: Vec<CustomCommand> = Vec::new();
    commands.push(CustomCommand::new("test", "Run tests with coverage",
        "Run the full test suite with coverage report and show any failures."));
    commands.push(CustomCommand::new("review", "Code review",
        "Review the recent changes and provide feedback on code quality, potential bugs, and improvements."));
    commands.push(CustomCommand::new("refactor", "Refactor code",
        "Analyze the codebase and suggest refactoring opportunities for better code quality."));
    proof {
        reveal_strlit("test");
        reveal_strlit("review");
        reveal_strlit("refactor");
        assert(command_names_unique(commands@)) by {
            assert forall|a: int, b: int| 0 <= a < commands@.len() && 0 <= b < commands@.len() && a != b
                implies commands@[a].name@ != commands@[b].name@ by {
                let x = commands@[a].name@;
                let y = commands@[b].name@;
                assert(x.len() != y.len() || x[0] != y[0]);
            }
        }
    }
    CommandRegistry { commands }
}

/// Adds (or replaces) the command named `name`.
pub fn add_command(reg: &mut CommandRegistry, name: &str, description: &str, prompt: &str) -> (r: String)
    ensures
        exists|c: CustomCommand| fresh_command(c, name@, description@, prompt@)
            && command_stored(old(reg).all(), final(reg).all(), c),
        r@ == "Added command: /"@ + name@,
        command_names_unique(final(reg).all()),
{
    let c = CustomCommand::new(name, description, prompt);
    let ghost gc = c;
    store(reg, c);
    assert(fresh_command(gc, name@, description@, prompt@) && command_stored(old(reg).all(), reg.all(), gc));
    proof { use_type_invariant(&*reg); }
    cat("Added command: /", name)
}

/// Copies of every command, in name order.
pub fn list_commands(reg: &CommandRegistry) -> (r: Vec<CustomCommand>)
    ensures
        r@.len() == reg.all().len(),
        forall|k: int| 0 <= k < r@.len() ==> same_command(r@[k], reg.all()[name_order(reg.all())[k] as int]),
        forall|j: int, k: int| 0 <= j < k < r@.len() ==> lex_le(r@[j].name@, r@[k].name@) && r@[j].name@ != r@[k].name@,
{
    let ghost s = reg.commands@;
    let ghost ahead = name_not_after(s);
    let mut order: Vec<usize> = Vec::new();
    let mut i: usize = 0;
    while i < reg.commands.len()
        invariant
            s == reg.commands@,
            ahead == name_not_after(s),
            i <= s.len(),
            order@ == order_upto(ahead, i as nat),
        decreases reg.commands.len() - i,
    {
        proof { lemma_order_upto_len(ahead, i as nat); }
        let mut p: usize = 0;
        while p < order.len() && str_le(reg.commands[order[p]].name.as_str(), reg.commands[i].name.as_str())
            invariant
                s == reg.commands@,
                ahead == name_not_after(s),
                p <= order@.len(),
                i < s.len(),
                order@ == order_upto(ahead, i as nat),
                forall|k: int| 0 <= k < order@.len() ==> order@[k] < i,
                forall|k: int| 0 <= k < p ==> ahead(order@[k], i),
            decreases order@.len() - p,
        {
            p = p + 1;
        }
        proof { lemma_insert_by_at(ahead, order@, i, p as int); }
        order.insert(p, i);
        i = i + 1;
    }
    proof { lemma_order_upto_len(ahead, s.len()); }
    let mut out: Vec<CustomCommand> = Vec::new();
    let mut k: usize = 0;
    while k < order.len()
        invariant
            s == reg.commands@,
            order@ == name_order(s),
            order@.len() == s.len(),
            forall|j: int| 0 <= j < order@.len() ==> order@[j] < s.len(),
            k <= order@.len(),
            out@.len() == k,
            forall|j: int| 0 <= j < k ==> same_command(out@[j], s[order@[j] as int]),
        decreases order.len() - k,
    {
        out.push(copy_command(&reg.commands[order[k]]));
        k = k + 1;
    }
    proof {
        use_type_invariant(reg);
        let ahead = name_not_after(s);
        assert(total_preorder(ahead)) by {
            assert forall|a: usize, b: usize| #[trigger] ahead(a, b) || ahead(b, a) by {
                lemma_lex_total(s[a as int].name@, s[b as int].name@);
            }
            assert forall|a: usize, b: usize, c: usize| #[trigger] ahead(a, b) && #[trigger] ahead(b, c) implies ahead(a, c) by {
                lemma_lex_trans(s[a as int].name@, s[b as int].name@, s[c as int].name@);
            }
        }
        lemma_order_upto_sorted(ahead, s.len());
        assert forall|j: int, k: int| 0 <= j < k < out@.len() implies lex_le(out@[j].name@, out@[k].name@) && out@[j].name@ != out@[k].name@ by {
            assert(ahead(order@[j], order@[k]));
            assert(order@[j] != order@[k]);
        }
    }
    out
}

/// A copy of the command named `name`.
pub fn get_command(reg: &CommandRegistry, name: &str) -> (r: Option<CustomCommand>)
    ensures
        match command_index(reg.all(), name@) {
            Some(i) => r is Some && same_command(r->0, reg.all()[i]),
            None => r is None,
        },
{
    proof { lemma_command_index(reg.commands@, name@); }
    match reg.find(name) {
        Some(i) => Some(copy_command(&reg.commands[i])),
        None => None,
    }
}

/// Removes the command named `name`.
pub fn remove_command(reg: &mut CommandRegistry, name: &str) -> (r: Result<String, String>)
    ensures
        match command_index(old(reg).all(), name@) {
            Some(i) => final(reg).all() == old(reg).all().remove(i)
                && r is Ok && r->Ok_0@ == "Removed command: /"@ + name@,
            None => final(reg).all() == old(reg).all()
                && r is Err && r->Err_0@ == "Command '/"@ + name@ + "' not found"@,
        },
        command_names_unique(final(reg).all()),
{
    proof { use_type_invariant(&*reg); }
    proof { lemma_command_index(reg.commands@, name@); }
    match reg.find(name) {
        Some(i) => {
            let ghost before = reg.commands@;
            let mut v = reg.take_all();
            v.remove(i);
            assert(command_names_unique(v@)) by {
                assert forall|a: int, b: int| 0 <= a < v@.len() && 0 <= b < v@.len() && a != b
                    implies v@[a].name@ != v@[b].name@ by {
                    let a0 = if a < i { a } else { a + 1 };
                    let b0 = if b < i { b } else { b + 1 };
                    assert(v@[a] == before[a0]);
                    assert(v@[b] == before[b0]);
                }
            }
            reg.commands = v;
            Ok(cat("Removed command: /", name))
        },
        None => Err(cat3("Command '/", name, "' not found")),
    }
}

/// The prompt that running the command named `name` with `args` sends: its
/// own prompt, followed by the arguments when there are any.
pub fn command_prompt(reg: &CommandRegistry, name: &str, args: &str) -> (r: Result<String, String>)
    ensures
        match command_index(reg.all(), name@) {
            Some(i) => r is Ok && r->Ok_0@ == if args@.len() == 0 {
                reg.all()[i].prompt@
            } else {
                reg.all()[i].prompt@ + "\n\nArgs: "@ + args@
            },
            None => r is Err && r->Err_0@ == "Command '/"@ + name@ + "' not found"@,
        },
{
    proof { lemma_command_index(reg.commands@, name@); }
    match reg.find(name) {
        Some(i) => {
            let c = &reg.commands[i];
            if args.is_empty() {
                Ok(owned(c.prompt.as_str()))
            } else {
                Ok(cat3(c.prompt.as_str(), "\n\nArgs: ", args))
            }
        },
        None => Err(cat3("Command '/", name, "' not found")),
    }
}

/// A command just added is found under its name with the texts it was added
/// with.
pub proof fn lemma_added_is_found(before: Seq<CustomCommand>, after: Seq<CustomCommand>, c: CustomCommand)
    requires
        command_names_unique(before),
        command_stored(before, after, c),
    ensures
        command_index(after, c.name@) is Some,
        after[command_index(after, c.name@)->0] == c,
{
    lemma_command_index(before, c.name@);
    lemma_command_index(after, c.name@);
    match command_index(before, c.name@) {
        Some(i) => {
            assert(after[i] == c);
            let j = command_index(after, c.name@)->0;
            if j != i {
                assert(after[j] == before[j]);
            }
        },
        None => {
            assert(after[after.len() - 1] == c);
            let j = command_index(after, c.name@)->0;
            if j != after.len() - 1 {
                assert(after[j] == before[j]);
            }
        },
    }
}

} // verus!
