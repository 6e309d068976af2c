//! Tool integrations: which kind of project sits here, and which command
//! each integration runs for it with the tools at hand.

use vstd::prelude::*;
use crate::text::{cat, cat3, debug_list, debug_strings, owned, push_str, str_eq, views};

verus! {

/// Which project files sit in the working directory.
#[derive(Debug, Clone, Copy, PartialEq, Eq, Structural)]
pub struct ProjectMarkers {
    pub cargo_toml: bool,
    pub package_json: bool,
    pub tsconfig_json: bool,
    pub go_mod: bool,
    pub requirements_txt: bool,
    pub pyproject_toml: bool,
    pub pom_xml: bool,
    pub build_gradle: bool,
    pub gemfile: bool,
    pub vite_config_ts: bool,
    pub vite_config_js: bool,
    pub next_config_js: bool,
    pub manage_py: bool,
    pub main_py: bool,
}

/// The kind of project the files show.
pub open spec fn project_kind(m: ProjectMarkers) -> Seq<char> {
    if m.cargo_toml {
        "rust"@
    } else if m.package_json {
        if m.tsconfig_json { "typescript"@ } else { "javascript"@ }
    } else if m.go_mod {
        "go"@
    } else if m.requirements_txt || m.pyproject_toml {
        "python"@
    } else if m.pom_xml || m.build_gradle {
        "java"@
    } else if m.gemfile {
        "ruby"@
    } else {
        "unknown"@
    }
}

/// The kind of project the files show.
pub fn detect_project_type(m: &ProjectMarkers) -> (r: String)
    ensures
        r@ == project_kind(*m),
{
    if m.cargo_toml {
        owned("rust")
    } else if m.package_json {
        if m.tsconfig_json { owned("typescript") } else { owned("javascript") }
    } else if m.go_mod {
        owned("go")
    } else if m.requirements_txt || m.pyproject_toml {
        owned("python")
    } else if m.pom_xml || m.build_gradle {
        owned("java")
    } else if m.gemfile {
        owned("ruby")
    } else {
        owned("unknown")
    }
}

/// What an integration does: run a command and show its output, or reply.
#[derive(Debug, Clone)]
pub enum IntegrationAction {
    Run { cmd: String, args: Vec<String> },
    Reply { text: String },
}

/// An action as plain values: whether it runs, the command or the reply,
/// and the arguments.
pub open spec fn action_view(a: IntegrationAction) -> (bool, Seq<char>, Seq<Seq<char>>) {
    match a {
        IntegrationAction::Run { cmd, args } => (true, cmd@, views(args@)),
        IntegrationAction::Reply { text } => (false, text@, seq![]),
    }
}

fn strings(parts: &[&str]) -> (r: Vec<String>)
    ensures
        views(r@) == parts@.map_values(|p: &str| p@),
{
    let mut v: Vec<String> = Vec::new();
    let mut i: usize = 0;
    while i < parts.len()
        invariant
            i <= parts@.len(),
            v@.len() == i,
            forall|k: int| 0 <= k < i ==> v@[k]@ == parts@[k]@,
        decreases parts.len() - i,
    {
        v.push(owned(parts[i]));
        i = i + 1;
    }
    assert(views(v@) =~= parts@.map_values(|p: &str| p@));
    v
}

fn run(cmd: &str, parts: &[&str]) -> (r: IntegrationAction)
    ensures
        action_view(r) == (true, cmd@, parts@.map_values(|p: &str| p@)),
{
    IntegrationAction::Run { cmd: owned(cmd), args: strings(parts) }
}

fn reply(text: String) -> (r: IntegrationAction)
    ensures
        action_view(r) == (false, text@, Seq::<Seq<char>>::empty()),
{
    IntegrationAction::Reply { text }
}

fn has_tool(tools: &Vec<String>, name: &str) -> (r: bool)
    ensures
        r == views(tools@).contains(name@),
{
    let mut k: usize = 0;
    while k < tools.len()
        invariant
            k <= tools@.len(),
            forall|j: int| 0 <= j < k ==> tools@[j]@ != name@,
        decreases tools.len() - k,
    {
        if str_eq(tools[k].as_str(), name) {
            assert(views(tools@)[k as int] == name@);
            return true;
        }
        k = k + 1;
    }
    assert forall|j: int| 0 <= j < views(tools@).len() implies views(tools@)[j] != name@ by {
        assert(views(tools@)[j] == tools@[j]@);
    }
    false
}

/// The message that starts a command in the background.
pub open spec fn background_text(label: Seq<char>, cmd: Seq<char>, args: Seq<Seq<char>>) -> Seq<char> {
    "Starting "@ + label + " with: "@ + cmd + " "@ + debug_strings(args) + "\n(not waiting - runs in background)"@
}

fn background(label: &str, cmd: &str, parts: &[&str]) -> (r: String)
    ensures
        r@ == background_text(label@, cmd@, parts@.map_values(|p: &str| p@)),
{
    let args = strings(parts);
    let mut r = cat3("Starting ", label, " with: ");
    push_str(&mut r, cmd);
    push_str(&mut r, " ");
    push_str(&mut r, debug_list(&args).as_str());
    push_str(&mut r, "\n(not waiting - runs in background)");
    r
}

/// The tool `t` answers.
pub open spec fn has(tools: Seq<String>, t: Seq<char>) -> bool {
    views(tools).contains(t)
}

/// What starting the dev server does: the server for the project, started
/// in the background, or the reply that the project is not known.
pub open spec fn dev_server_text(m: ProjectMarkers, tools: Seq<String>) -> Seq<char> {
    let k = project_kind(m);
    if (k == "javascript"@ || k == "typescript"@) && has(tools, "npm"@) {
        if m.vite_config_ts || m.vite_config_js {
            background_text("Vite dev server"@, "npm"@, seq!["run"@, "dev"@])
        } else if m.next_config_js {
            background_text("Next.js dev server"@, "npm"@, seq!["run"@, "dev"@])
        } else {
            background_text("Node server"@, "npm"@, seq!["run"@, "start"@])
        }
    } else if k == "rust"@ && has(tools, "cargo"@) {
        background_text("Cargo dev server"@, "cargo"@, seq!["run"@])
    } else if k == "python"@ && has(tools, "python"@) && (m.manage_py || m.main_py) {
        if m.manage_py {
            background_text("Django server"@, "python"@, seq!["manage.py"@, "runserver"@])
        } else {
            background_text("Python server"@, "python"@, seq!["main.py"@])
        }
    } else if k == "go"@ && has(tools, "go"@) {
        background_text("Go server"@, "go"@, seq!["run"@, "."@])
    } else {
        "Unknown project type: "@ + k + "\nRun manually"@
    }
}

/// Starts the dev server for the project, or says why not.
pub fn run_dev_server(m: &ProjectMarkers, tools: &Vec<String>) -> (r: String)
    ensures
        r@ == dev_server_text(*m, tools@),
{
    proof {
        reveal_strlit("javascript");
        reveal_strlit("typescript");
        reveal_strlit("rust");
        reveal_strlit("python");
        reveal_strlit("go");
    }
    let k = detect_project_type(m);
    let kind = k.as_str();
    let js = str_eq(kind, "javascript") || str_eq(kind, "typescript");
    if js && has_tool(tools, "npm") {
        let run_dev: [&str; 2] = ["run", "dev"];
        let run_start: [&str; 2] = ["run", "start"];
        assert(run_dev@.map_values(|p: &str| p@) =~= seq!["run"@, "dev"@]);
        assert(run_start@.map_values(|p: &str| p@) =~= seq!["run"@, "start"@]);
        if m.vite_config_ts || m.vite_config_js {
            return background("Vite dev server", "npm", &run_dev);
        } else if m.next_config_js {
            return background("Next.js dev server", "npm", &run_dev);
        }
        return background("Node server", "npm", &run_start);
    }
    if str_eq(kind, "rust") && has_tool(tools, "cargo") {
        let a: [&str; 1] = ["run"];
        assert(a@.map_values(|p: &str| p@) =~= seq!["run"@]);
        return background("Cargo dev server", "cargo", &a);
    }
    if str_eq(kind, "python") && has_tool(tools, "python") && (m.manage_py || m.main_py) {
        if m.manage_py {
            let a: [&str; 2] = ["manage.py", "runserver"];
            assert(a@.map_values(|p: &str| p@) =~= seq!["manage.py"@, "runserver"@]);
            return background("Django server", "python", &a);
        }
        let a: [&str; 1] = ["main.py"];
        assert(a@.map_values(|p: &str| p@) =~= seq!["main.py"@]);
        return background("Python server", "python", &a);
    }
    if str_eq(kind, "go") && has_tool(tools, "go") {
        let a: [&str; 2] = ["run", "."];
        assert(a@.map_values(|p: &str| p@) =~= seq!["run"@, "."@]);
        return background("Go server", "go", &a);
    }
    let mut r = cat("Unknown project type: ", kind);
    push_str(&mut r, "\nRun manually");
    r
}

/// The test command for the project, or the reply that it is not known.
pub open spec fn tests_action(m: ProjectMarkers, tools: Seq<String>) -> (bool, Seq<char>, Seq<Seq<char>>) {
    let k = project_kind(m);
    if (k == "javascript"@ || k == "typescript"@) && has(tools, "npm"@) {
        (true, "npm"@, seq!["test"@])
    } else if k == "rust"@ && has(tools, "cargo"@) {
        (true, "cargo"@, seq!["test"@])
    } else if k == "python"@ && has(tools, "pytest"@) {
        (true, "pytest"@, seq![])
    } else if k == "python"@ && has(tools, "python"@) {
        (true, "python"@, seq!["-m"@, "pytest"@])
    } else if k == "go"@ && has(tools, "go"@) {
        (true, "go"@, seq!["test"@, "./..."@])
    } else {
        (false, "Unknown project: "@ + k, seq![])
    }
}

/// The test command for the project.
pub fn run_tests(m: &ProjectMarkers, tools: &Vec<String>) -> (r: IntegrationAction)
    ensures
        action_view(r) == tests_action(*m, tools@),
{
    proof {
        reveal_strlit("javascript");
        reveal_strlit("typescript");
        reveal_strlit("rust");
        reveal_strlit("python");
        reveal_strlit("go");
    }
    let k = detect_project_type(m);
    let kind = k.as_str();
    if (str_eq(kind, "javascript") || str_eq(kind, "typescript")) && has_tool(tools, "npm") {
        let a: [&str; 1] = ["test"];
        assert(a@.map_values(|p: &str| p@) =~= seq!["test"@]);
        return run("npm", &a);
    }
    if str_eq(kind, "rust") && has_tool(tools, "cargo") {
        let a: [&str; 1] = ["test"];
        assert(a@.map_values(|p: &str| p@) =~= seq!["test"@]);
        return run("cargo", &a);
    }
    if str_eq(kind, "python") && has_tool(tools, "pytest") {
        let a: [&str; 0] = [];
        assert(a@.map_values(|p: &str| p@) =~= Seq::<Seq<char>>::empty());
        return run("pytest", &a);
    }
    if str_eq(kind, "python") && has_tool(tools, "python") {
        let a: [&str; 2] = ["-m", "pytest"];
        assert(a@.map_values(|p: &str| p@) =~= seq!["-m"@, "pytest"@]);
        return run("python", &a);
    }
    if str_eq(kind, "go") && has_tool(tools, "go") {
        let a: [&str; 2] = ["test", "./..."];
        assert(a@.map_values(|p: &str| p@) =~= seq!["test"@, "./..."@]);
        return run("go", &a);
    }
    reply(cat("Unknown project: ", kind))
}

/// The build command for the project, or the reply that it is not known.
pub open spec fn build_action(m: ProjectMarkers, tools: Seq<String>) -> (bool, Seq<char>, Seq<Seq<char>>) {
    let k = project_kind(m);
    if (k == "javascript"@ || k == "typescript"@) && has(tools, "npm"@) {
        (true, "npm"@, seq!["run"@, "build"@])
    } else if k == "rust"@ && has(tools, "cargo"@) {
        (true, "cargo"@, seq!["build"@, "--release"@])
    } else if k == "go"@ && has(tools, "go"@) {
        (true, "go"@, seq!["build"@, "-o"@, "app"@])
    } else {
        (false, "Unknown project: "@ + k, seq![])
    }
}

/// The build command for the project.
pub fn run_build(m: &ProjectMarkers, tools: &Vec<String>) -> (r: IntegrationAction)
    ensures
        action_view(r) == build_action(*m, tools@),
{
    proof {
        reveal_strlit("javascript");
        reveal_strlit("typescript");
        reveal_strlit("rust");
        reveal_strlit("go");
    }
    let k = detect_project_type(m);
    let kind = k.as_str();
    if (str_eq(kind, "javascript") || str_eq(kind, "typescript")) && has_tool(tools, "npm") {
        let a: [&str; 2] = ["run", "build"];
        assert(a@.map_values(|p: &str| p@) =~= seq!["run"@, "build"@]);
        return run("npm", &a);
    }
    if str_eq(kind, "rust") && has_tool(tools, "cargo") {
        let a: [&str; 2] = ["build", "--release"];
        assert(a@.map_values(|p: &str| p@) =~= seq!["build"@, "--release"@]);
        return run("cargo", &a);
    }
    if str_eq(kind, "go") && has_tool(tools, "go") {
        let a: [&str; 3] = ["build", "-o", "app"];
        assert(a@.map_values(|p: &str| p@) =~= seq!["build"@, "-o"@, "app"@]);
        return run("go", &a);
    }
    reply(cat("Unknown project: ", kind))
}

/// The formatter command for the project, or the reply that there is none.
pub open spec fn format_action(m: ProjectMarkers, tools: Seq<String>) -> (bool, Seq<char>, Seq<Seq<char>>) {
    let k = project_kind(m);
    if (k == "javascript"@ || k == "typescript"@) && has(tools, "npx"@) {
        (true, "npx"@, seq!["prettier"@, "--write"@, "."@])
    } else if k == "rust"@ && has(tools, "cargo"@) {
        (true, "cargo"@, seq!["fmt"@])
    } else if k == "python"@ && has(tools, "black"@) {
        (true, "black"@, seq!["."@])
    } else if k == "go"@ && has(tools, "gofmt"@) {
        (true, "gofmt"@, seq!["-w"@, "."@])
    } else {
        (false, "No formatter found"@, seq![])
    }
}

/// The formatter command for the project.
pub fn format_code(m: &ProjectMarkers, tools: &Vec<String>) -> (r: IntegrationAction)
    ensures
        action_view(r) == format_action(*m, tools@),
{
    proof {
        reveal_strlit("javascript");
        reveal_strlit("typescript");
        reveal_strlit("rust");
        reveal_strlit("python");
        reveal_strlit("go");
    }
    let k = detect_project_type(m);
    let kind = k.as_str();
    if (str_eq(kind, "javascript") || str_eq(kind, "typescript")) && has_tool(tools, "npx") {
        let a: [&str; 3] = ["prettier", "--write", "."];
        assert(a@.map_values(|p: &str| p@) =~= seq!["prettier"@, "--write"@, "."@]);
        return run("npx", &a);
    }
    if str_eq(kind, "rust") && has_tool(tools, "cargo") {
        let a: [&str; 1] = ["fmt"];
        assert(a@.map_values(|p: &str| p@) =~= seq!["fmt"@]);
        return run("cargo", &a);
    }
    if str_eq(kind, "python") && has_tool(tools, "black") {
        let a: [&str; 1] = ["."];
        assert(a@.map_values(|p: &str| p@) =~= seq!["."@]);
        return run("black", &a);
    }
    if str_eq(kind, "go") && has_tool(tools, "gofmt") {
        let a: [&str; 2] = ["-w", "."];
        assert(a@.map_values(|p: &str| p@) =~= seq!["-w"@, "."@]);
        return run("gofmt", &a);
    }
    reply(owned("No formatter found"))
}

/// The linter command for the project, or the reply that there is none.
pub open spec fn lint_action(m: ProjectMarkers, tools: Seq<String>) -> (bool, Seq<char>, Seq<Seq<char>>) {
    let k = project_kind(m);
    if (k == "javascript"@ || k == "typescript"@) && has(tools, "npx"@) {
        (true, "npx"@, seq!["eslint"@, "."@])
    } else if k == "rust"@ && has(tools, "cargo"@) {
        (true, "cargo"@, seq!["clippy"@])
    } else if k == "python"@ && has(tools, "ruff"@) {
        (true, "ruff"@, seq!["check"@, "."@])
    } else if k == "python"@ && has(tools, "pylint"@) {
        (true, "pylint"@, seq!["."@])
    } else {
        (false, "No linter found"@, seq![])
    }
}

/// The linter command for the project.
pub fn lint_code(m: &ProjectMarkers, tools: &Vec<String>) -> (r: IntegrationAction)
    ensures
        action_view(r) == lint_action(*m, tools@),
{
    proof {
        reveal_strlit("javascript");
        reveal_strlit("typescript");
        reveal_strlit("rust");
        reveal_strlit("python");
    }
    let k = detect_project_type(m);
    let kind = k.as_str();
    if (str_eq(kind, "javascript") || str_eq(kind, "typescript")) && has_tool(tools, "npx") {
        let a: [&str; 2] = ["eslint", "."];
        assert(a@.map_values(|p: &str| p@) =~= seq!["eslint"@, "."@]);
        return run("npx", &a);
    }
    if str_eq(kind, "rust") && has_tool(tools, "cargo") {
        let a: [&str; 1] = ["clippy"];
        assert(a@.map_values(|p: &str| p@) =~= seq!["clippy"@]);
        return run("cargo", &a);
    }
    if str_eq(kind, "python") && has_tool(tools, "ruff") {
        let a: [&str; 2] = ["check", "."];
        assert(a@.map_values(|p: &str| p@) =~= seq!["check"@, "."@]);
        return run("ruff", &a);
    }
    if str_eq(kind, "python") && has_tool(tools, "pylint") {
        let a: [&str; 1] = ["."];
        assert(a@.map_values(|p: &str| p@) =~= seq!["."@]);
        return run("pylint", &a);
    }
    reply(owned("No linter found"))
}

/// The command that lists the dependencies.
pub open spec fn deps_action(m: ProjectMarkers) -> (bool, Seq<char>, Seq<Seq<char>>) {
    let k = project_kind(m);
    if k == "javascript"@ || k == "typescript"@ {
        (true, "npm"@, seq!["ls"@, "--depth=0"@])
    } else if k == "rust"@ {
        (true, "cargo"@, seq!["tree"@])
    } else if k == "python"@ {
        (true, "pip"@, seq!["list"@])
    } else if k == "go"@ {
        (true, "go"@, seq!["list"@, "-m"@])
    } else {
        (false, "Unknown project"@, seq![])
    }
}

/// The command that lists the dependencies.
pub fn list_deps(m: &ProjectMarkers) -> (r: IntegrationAction)
    ensures
        action_view(r) == deps_action(*m),
{
    proof {
        reveal_strlit("javascript");
        reveal_strlit("typescript");
        reveal_strlit("rust");
        reveal_strlit("python");
        reveal_strlit("go");
    }
    let k = detect_project_type(m);
    let kind = k.as_str();
    if str_eq(kind, "javascript") || str_eq(kind, "typescript") {
        let a: [&str; 2] = ["ls", "--depth=0"];
        assert(a@.map_values(|p: &str| p@) =~= seq!["ls"@, "--depth=0"@]);
        return run("npm", &a);
    }
    if str_eq(kind, "rust") {
        let a: [&str; 1] = ["tree"];
        assert(a@.map_values(|p: &str| p@) =~= seq!["tree"@]);
        return run("cargo", &a);
    }
    if str_eq(kind, "python") {
        let a: [&str; 1] = ["list"];
        assert(a@.map_values(|p: &str| p@) =~= seq!["list"@]);
        return run("pip", &a);
    }
    if str_eq(kind, "go") {
        let a: [&str; 2] = ["list", "-m"];
        assert(a@.map_values(|p: &str| p@) =~= seq!["list"@, "-m"@]);
        return run("go", &a);
    }
    reply(owned("Unknown project"))
}

/// The command that checks for outdated dependencies.
pub open spec fn updates_action(m: ProjectMarkers) -> (bool, Seq<char>, Seq<Seq<char>>) {
    let k = project_kind(m);
    if k == "javascript"@ || k == "typescript"@ {
        (true, "npm"@, seq!["outdated"@])
    } else if k == "rust"@ {
        (true, "cargo"@, seq!["outdated"@])
    } else if k == "python"@ {
        (true, "pip"@, seq!["list"@, "--outdated"@])
    } else {
        (false, "Unknown project"@, seq![])
    }
}

/// The command that checks for outdated dependencies.
pub fn check_updates(m: &ProjectMarkers) -> (r: IntegrationAction)
    ensures
        action_view(r) == updates_action(*m),
{
    proof {
        reveal_strlit("javascript");
        reveal_strlit("typescript");
        reveal_strlit("rust");
        reveal_strlit("python");
    }
    let k = detect_project_type(m);
    let kind = k.as_str();
    if str_eq(kind, "javascript") || str_eq(kind, "typescript") {
        let a: [&str; 1] = ["outdated"];
        assert(a@.map_values(|p: &str| p@) =~= seq!["outdated"@]);
        return run("npm", &a);
    }
    if str_eq(kind, "rust") {
        let a: [&str; 1] = ["outdated"];
        assert(a@.map_values(|p: &str| p@) =~= seq!["outdated"@]);
        return run("cargo", &a);
    }
    if str_eq(kind, "python") {
        let a: [&str; 2] = ["list", "--outdated"];
        assert(a@.map_values(|p: &str| p@) =~= seq!["list"@, "--outdated"@]);
        return run("pip", &a);
    }
    reply(owned("Unknown project"))
}

/// The help text of the integrations.
pub fn integrations_help() -> (r: String)
    ensures
        r@ == "\n\u{1f527} Integrations\n\nProject Detection:\n  detect          - Detect project type\n\nDevelopment:\n  dev             - Start dev server\n  test             - Run tests\n  build            - Build project\n\nCode Quality:\n  fmt             - Format code\n  lint            - Lint code\n\nDependencies:\n  deps            - List dependencies\n  outdated        - Check for updates\n"@,
{
    owned("\n\u{1f527} Integrations\n\nProject Detection:\n  detect          - Detect project type\n\nDevelopment:\n  dev             - Start dev server\n  test             - Run tests\n  build            - Build project\n\nCode Quality:\n  fmt             - Format code\n  lint            - Lint code\n\nDependencies:\n  deps            - List dependencies\n  outdated        - Check for updates\n")
}

} // verus!
