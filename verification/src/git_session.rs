//! Git sessions: named snapshots of the changed files, listed, shown,
//! switched to or undone.

use vstd::prelude::*;
use crate::text::{cat, cat3, dec, lines, lines_of, owned, push_str, str_eq, trim, trim_str, u64_to_string,
    views, chars_of, string_of_range};

verus! {

/// A recorded session.
#[derive(Debug, Clone)]
pub struct GitSession {
    pub name: String,
    pub id: String,
    pub created_at: u64,
    pub description: String,
    pub changes: Vec<String>,
    pub command: String,
}

/// The first three characters of each line are ASCII, as in the short
/// status that git prints.
pub open spec fn status_lines_ok(t: Seq<char>) -> bool {
    forall|k: int, j: int| 0 <= k < lines(t).len() && 0 <= j < 3 && j < lines(t)[k].len()
        ==> (lines(t)[k][j] as u32) < 128
}

/// The changed paths in short status lines: each line of three characters
/// or more, without its first three, trimmed.
pub open spec fn status_paths(ls: Seq<Seq<char>>) -> Seq<Seq<char>>
    decreases ls.len(),
{
    if ls.len() == 0 {
        seq![]
    } else if ls.last().len() >= 3 {
        status_paths(ls.drop_last()).push(trim(ls.last().subrange(3, ls.last().len() as int)))
    } else {
        status_paths(ls.drop_last())
    }
}

/// The changed paths that a short status lists.
pub fn changed_files(porcelain: &str) -> (r: Vec<String>)
    requires
        status_lines_ok(porcelain@),
    ensures
        views(r@) == status_paths(lines(porcelain@)),
{
    let ls = lines_of(porcelain);
    let mut out: Vec<String> = Vec::new();
    let mut i: usize = 0;
    while i < ls.len()
        invariant
            i <= ls@.len(),
            views(ls@) == lines(porcelain@),
            views(out@) == status_paths(views(ls@).subrange(0, i as int)),
        decreases ls.len() - i,
    {
        assert(views(ls@).subrange(0, i + 1).drop_last() =~= views(ls@).subrange(0, i as int));
        let v = chars_of(ls[i].as_str());
        if v.len() >= 3 {
            let rest = string_of_range(&v, 3, v.len());
            let ghost before = out@;
            out.push(trim_str(rest.as_str()));
            assert(views(out@) =~= views(before).push(out@.last()@));
        }
        i = i + 1;
    }
    assert(views(ls@).subrange(0, ls@.len() as int) =~= views(ls@));
    out
}

/// The position of the first session named `name`.
pub open spec fn session_index(s: Seq<GitSession>, name: Seq<char>) -> Option<int>
    decreases s.len(),
{
    if s.len() == 0 {
        None
    } else {
        match session_index(s.drop_last(), name) {
            Some(i) => Some(i),
            None => if s.last().name@ == name { Some(s.len() - 1) } else { None },
        }
    }
}

proof fn lemma_session_index(s: Seq<GitSession>, name: Seq<char>)
    ensures
        match session_index(s, name) {
            Some(i) => 0 <= i < s.len() && s[i].name@ == name && forall|k: int| 0 <= k < i ==> s[k].name@ != name,
            None => forall|k: int| 0 <= k < s.len() ==> s[k].name@ != name,
        },
    decreases s.len(),
{
    if s.len() > 0 {
        lemma_session_index(s.drop_last(), name);
        assert forall|k: int| 0 <= k < s.len() - 1 implies s.drop_last()[k] == s[k] by {}
    }
}

fn find_session(v: &Vec<GitSession>, name: &str) -> (r: Option<usize>)
    ensures
        match r {
            Some(i) => i < v@.len() && session_index(v@, name@) == Some(i as int),
            None => session_index(v@, name@) is None,
        },
{
    proof { lemma_session_index(v@, name@); }
    let mut i: usize = 0;
    while i < v.len()
        invariant
            i <= v@.len(),
            forall|k: int| 0 <= k < i ==> v@[k].name@ != name@,
            match session_index(v@, name@) {
                Some(j) => 0 <= j < v@.len() && v@[j].name@ == name@ && forall|k: int| 0 <= k < j ==> v@[k].name@ != name@,
                None => forall|k: int| 0 <= k < v@.len() ==> v@[k].name@ != name@,
            },
        decreases v.len() - i,
    {
        if str_eq(v[i].name.as_str(), name) {
            return Some(i);
        }
        i = i + 1;
    }
    None
}

/// Records a session named `name` over `changes`, made at `now` (ms).
pub fn record_session(sessions: &mut Vec<GitSession>, name: &str, changes: Vec<String>, now: u64) -> (r: String)
    ensures
        final(sessions)@.drop_last() == old(sessions)@,
        final(sessions)@.len() == old(sessions)@.len() + 1,
        final(sessions)@.last().name@ == name@,
        final(sessions)@.last().id@ == "sess_"@ + dec(now as nat),
        final(sessions)@.last().created_at == now,
        final(sessions)@.last().description@ == name@,
        final(sessions)@.last().changes == changes,
        final(sessions)@.last().command@.len() == 0,
        r@ == "Created session '"@ + name@ + "' with "@ + dec(changes@.len()) + " changes"@,
{
    let n = changes.len();
    let s = GitSession {
        name: owned(name),
        id: cat("sess_", u64_to_string(now).as_str()),
        created_at: now,
        description: owned(name),
        changes,
        command: String::new(),
    };
    let ghost before = sessions@;
    sessions.push(s);
    assert(sessions@.drop_last() =~= before);
    let mut r = cat3("Created session '", name, "' with ");
    push_str(&mut r, u64_to_string(n as u64).as_str());
    push_str(&mut r, " changes");
    r
}

/// The listing line of a session.
pub open spec fn session_line(s: GitSession) -> Seq<char> {
    s.name@ + ": "@ + s.id@ + " ("@ + dec(s.changes@.len()) + " changes)\n"@
}

/// The listing lines of sessions, in order.
pub open spec fn session_lines(s: Seq<GitSession>) -> Seq<char>
    decreases s.len(),
{
    if s.len() == 0 { seq![] } else { session_lines(s.drop_last()) + session_line(s.last()) }
}

/// The listing of the sessions.
pub fn list_sessions(sessions: &Vec<GitSession>) -> (r: String)
    ensures
        r@ == if sessions@.len() == 0 { "No sessions found"@ } else { session_lines(sessions@) },
{
    if sessions.len() == 0 {
        return owned("No sessions found");
    }
    let mut out = String::new();
    let mut i: usize = 0;
    while i < sessions.len()
        invariant
            i <= sessions@.len(),
            out@ == session_lines(sessions@.subrange(0, i as int)),
        decreases sessions.len() - i,
    {
        assert(sessions@.subrange(0, i + 1).drop_last() =~= sessions@.subrange(0, i as int));
        let s = &sessions[i];
        push_str(&mut out, s.name.as_str());
        push_str(&mut out, ": ");
        push_str(&mut out, s.id.as_str());
        push_str(&mut out, " (");
        push_str(&mut out, u64_to_string(s.changes.len() as u64).as_str());
        push_str(&mut out, " changes)\n");
        i = i + 1;
    }
    assert(sessions@.subrange(0, sessions@.len() as int) =~= sessions@);
    out
}

/// The reply for a name that no session has.
pub open spec fn session_not_found(name: Seq<char>) -> Seq<char> {
    "Session '"@ + name + "' not found"@
}

/// The summary of the first session named `name`.
pub fn get_session(sessions: &Vec<GitSession>, name: &str) -> (r: String)
    ensures
        r@ == match session_index(sessions@, name@) {
            Some(i) => sessions@[i].name@ + ": "@ + sessions@[i].id@ + " - "@ + dec(sessions@[i].changes@.len()) + " files"@,
            None => session_not_found(name@),
        },
{
    match find_session(sessions, name) {
        Some(i) => {
            let s = &sessions[i];
            let mut r = cat3(s.name.as_str(), ": ", s.id.as_str());
            push_str(&mut r, " - ");
            push_str(&mut r, u64_to_string(s.changes.len() as u64).as_str());
            push_str(&mut r, " files");
            r
        },
        None => cat3("Session '", name, "' not found"),
    }
}

/// The change lines of a session.
pub open spec fn change_lines(c: Seq<Seq<char>>) -> Seq<char>
    decreases c.len(),
{
    if c.len() == 0 { seq![] } else { change_lines(c.drop_last()) + "  "@ + c.last() + "\n"@ }
}

/// The details of the first session named `name`.
pub fn view_session(sessions: &Vec<GitSession>, name: &str) -> (r: String)
    ensures
        r@ == match session_index(sessions@, name@) {
            Some(i) => "Session: "@ + sessions@[i].name@ + "\n"@ + "ID: "@ + sessions@[i].id@ + "\n"@
                + "Created: "@ + dec(sessions@[i].created_at as nat) + "\n"@ + "Changes:\n"@
                + change_lines(views(sessions@[i].changes@)),
            None => session_not_found(name@),
        },
{
    match find_session(sessions, name) {
        Some(i) => {
            let s = &sessions[i];
            let mut out = cat3("Session: ", s.name.as_str(), "\n");
            push_str(&mut out, "ID: ");
            push_str(&mut out, s.id.as_str());
            push_str(&mut out, "\n");
            push_str(&mut out, "Created: ");
            push_str(&mut out, u64_to_string(s.created_at).as_str());
            push_str(&mut out, "\n");
            push_str(&mut out, "Changes:\n");
            let ghost base = out@;
            let mut k: usize = 0;
            while k < s.changes.len()
                invariant
                    k <= s.changes@.len(),
                    out@ == base + change_lines(views(s.changes@).subrange(0, k as int)),
                decreases s.changes.len() - k,
            {
                assert(views(s.changes@).subrange(0, k + 1).drop_last() =~= views(s.changes@).subrange(0, k as int));
                push_str(&mut out, "  ");
                push_str(&mut out, s.changes[k].as_str());
                push_str(&mut out, "\n");
                k = k + 1;
            }
            assert(views(s.changes@).subrange(0, s.changes@.len() as int) =~= views(s.changes@));
            out
        },
        None => cat3("Session '", name, "' not found"),
    }
}

/// Removes the first session named `name` and gives its changed paths (to
/// be checked out again), or the reply when there is none.
pub fn undo_session(sessions: &mut Vec<GitSession>, name: &str) -> (r: Result<Vec<String>, String>)
    ensures
        match session_index(old(sessions)@, name@) {
            Some(i) => final(sessions)@ == old(sessions)@.remove(i)
                && (r matches Ok(c) && c == old(sessions)@[i].changes),
            None => final(sessions)@ == old(sessions)@ && (r matches Err(e) && e@ == session_not_found(name@)),
        },
{
    match find_session(sessions, name) {
        Some(i) => {
            let s = sessions.remove(i);
            Ok(s.changes)
        },
        None => Err(cat3("Session '", name, "' not found")),
    }
}

} // verus!
