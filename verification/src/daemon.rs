//! The background daemon: its request counters, its statistics, and what a
//! request asks it to run.

use vstd::prelude::*;
use crate::text::{cat3, dec, owned, push_str, split_whitespace, trim, trim_str, u64_to_string, views, words};

verus! {

/// What the daemon has served.
#[derive(Debug, Clone)]
pub struct DaemonState {
    pub requests: usize,
    pub last_request: Option<String>,
}

impl Default for DaemonState {
    fn default() -> (r: Self)
        ensures
            r.requests == 0 && r.last_request is None,
    {
        DaemonState { requests: 0, last_request: None }
    }
}

/// The daemon on a port.
pub struct Daemon {
    pub port: u16,
    pub state: DaemonState,
}

impl Daemon {
    /// A daemon for `port` that has served nothing.
    pub fn new(port: u16) -> (r: Self)
        ensures
            r.port == port && r.state.requests == 0 && r.state.last_request is None,
    {
        Daemon { port, state: DaemonState::default() }
    }

    /// The statistics report.
    pub fn stats(&self) -> (r: String)
        ensures
            r@ == "DevUtils Daemon Stats:\n  Requests: "@ + dec(self.state.requests as nat) + "\n  Last request: "@
                + match self.state.last_request {
                    Some(l) => l@,
                    None => "none"@,
                },
    {
        let mut r = cat3("DevUtils Daemon Stats:\n  Requests: ", u64_to_string(self.state.requests as u64).as_str(), "\n  Last request: ");
        match &self.state.last_request {
            Some(l) => push_str(&mut r, l.as_str()),
            None => push_str(&mut r, "none"),
        }
        r
    }
}

/// Counts a request, trimmed, as the last one served.
pub fn record_request(state: &mut DaemonState, raw: &str)
    requires
        old(state).requests < usize::MAX,
    ensures
        final(state).requests == old(state).requests + 1,
        final(state).last_request matches Some(l) && l@ == trim(raw@),
{
    state.requests = state.requests + 1;
    state.last_request = Some(trim_str(raw));
}

/// The arguments of the command a request asks for: its words after the
/// first; none for an empty request, which is answered `OK`.
pub fn request_args(raw: &str) -> (r: Option<Vec<String>>)
    ensures
        match r {
            Some(a) => words(trim(raw@)).len() > 0 && views(a@) == words(trim(raw@)).drop_first(),
            None => words(trim(raw@)).len() == 0,
        },
{
    let t = trim_str(raw);
    let parts = split_whitespace(t.as_str());
    if parts.len() == 0 {
        return None;
    }
    let mut out: Vec<String> = Vec::new();
    let mut i: usize = 1;
    while i < parts.len()
        invariant
            1 <= i <= parts@.len(),
            out@.len() == i - 1,
            forall|k: int| 0 <= k < i - 1 ==> out@[k]@ == parts@[k + 1]@,
        decreases parts.len() - i,
    {
        out.push(owned(parts[i].as_str()));
        i = i + 1;
    }
    assert(views(out@) =~= views(parts@).drop_first());
    Some(out)
}

} // verus!
