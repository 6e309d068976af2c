//! The toolchain commands: which cargo subcommand each name runs.

use vstd::prelude::*;
use crate::text::{owned, str_eq, views};

verus! {

/// The cargo subcommand that a toolchain command name runs.
pub open spec fn toolchain_subcommand(name: Seq<char>) -> Option<Seq<char>> {
    if name == "build"@ {
        Some("build"@)
    } else if name == "test"@ {
        Some("test"@)
    } else if name == "lint"@ {
        Some("clippy"@)
    } else if name == "format"@ {
        Some("fmt"@)
    } else if name == "clean"@ {
        Some("clean"@)
    } else if name == "dev"@ {
        Some("run"@)
    } else {
        None
    }
}

/// The program and arguments that a toolchain command runs: `cargo` with the
/// matching subcommand, or nothing for an unknown name.
pub fn toolchain_command(name: &str) -> (r: Option<(String, Vec<String>)>)
    ensures
        match toolchain_subcommand(name@) {
            Some(sub) => match r {
                Some((prog, args)) => prog@ == "cargo"@ && views(args@) == seq![sub],
                None => false,
            },
            None => r is None,
        },
{
    let sub = if str_eq(name, "build") {
        "build"
    } else if str_eq(name, "test") {
        "test"
    } else if str_eq(name, "lint") {
        "clippy"
    } else if str_eq(name, "format") {
        "fmt"
    } else if str_eq(name, "clean") {
        "clean"
    } else if str_eq(name, "dev") {
        "run"
    } else {
        return None;
    };
    let mut args: Vec<String> = Vec::new();
    args.push(owned(sub));
    assert(views(args@) =~= seq![sub@]);
    Some((owned("cargo"), args))
}

} // verus!
