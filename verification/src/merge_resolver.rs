//! Merge conflict handling: finding conflict markers, reading the conflicting
//! sections out of a file's text, and resolving them by a fixed strategy.

use vstd::prelude::*;
use crate::text::{
    cat, cat3, contains, debug_str, debug_text, dec, is_prefix, join, lines, lines_of, owned,
    push_str, starts_with, str_contains, str_eq, trim, trim_str, u64_to_string, views,
    is_ws, trim_start, trim_end,
};

verus! {

/// Represents a merge conflict in a file.
#[derive(Debug, Clone)]
pub struct MergeConflict {
    pub file_path: String,
    pub our_content: String,
    pub their_content: String,
    pub base_content: String,
}

/// Represents a resolved conflict.
#[derive(Debug, Clone)]
pub struct ResolvedConflict {
    pub file_path: String,
    pub resolution: String,
    pub strategy: ResolutionStrategy,
}

/// How a conflict is resolved.
#[derive(Debug, Clone, PartialEq)]
pub enum ResolutionStrategy {
    UseOurs,
    UseTheirs,
    UseBoth,
    UseAiGenerated(String),
    Manual,
}

/// Whether a file's text holds all three conflict markers.
pub open spec fn marked(content: Seq<char>) -> bool {
    contains(content, "<<<<<<<"@) && contains(content, "======="@) && contains(content, ">>>>>>>"@)
}

/// Whether the text holds the `<<<<<<<`, `=======` and `>>>>>>>` markers of a conflict.
pub fn has_conflicts(content: &str) -> (r: bool)
    ensures
        r == marked(content@),
{
    str_contains(content, "<<<<<<<") && str_contains(content, "=======") && str_contains(content, ">>>>>>>")
}

/// The (ours, theirs) sections that the lines `ls` hold, reading them with
/// `in_c` telling whether a conflict is open, `cur` the section of ours read
/// for the open conflict, and `sec` the section being collected.
pub open spec fn sections_from(ls: Seq<Seq<char>>, in_c: bool, cur: Option<Seq<char>>, sec: Seq<char>) -> Seq<(Seq<char>, Seq<char>)>
    decreases ls.len(),
{
    if ls.len() == 0 {
        seq![]
    } else {
        let l = ls[0];
        let rest = ls.drop_first();
        if is_prefix("<<<<<<<"@, l) {
            sections_from(rest, true, Some(seq![]), seq![])
        } else if is_prefix("|||||||"@, l) {
            sections_from(rest, in_c, cur, sec)
        } else if is_prefix("======="@, l) {
            sections_from(rest, in_c, if cur is Some { Some(trim(sec)) } else { None }, seq![])
        } else if is_prefix(">>>>>>>"@, l) {
            match cur {
                Some(o) => seq![(o, trim(sec))] + sections_from(rest, false, None, seq![]),
                None => sections_from(rest, false, None, seq![]),
            }
        } else if in_c && (sec.len() > 0 || l.len() > 0) {
            sections_from(rest, in_c, cur, sec + l + "\n"@)
        } else {
            sections_from(rest, in_c, cur, sec)
        }
    }
}

/// Every character of `w` is white space.
spec fn all_ws(w: Seq<char>) -> bool {
    forall|i: int| 0 <= i < w.len() ==> is_ws(#[trigger] w[i])
}

proof fn lemma_trim_start_empty(x: Seq<char>)
    ensures
        trim_start(x).len() == 0 <==> all_ws(x),
    decreases x.len(),
{
    if x.len() > 0 {
        lemma_trim_start_empty(x.drop_first());
        if all_ws(x) {
            assert(all_ws(x.drop_first())) by {
                assert forall|i: int| 0 <= i < x.drop_first().len() implies is_ws(#[trigger] x.drop_first()[i]) by {
                    assert(x.drop_first()[i] == x[i + 1]);
                }
            }
        }
        if is_ws(x[0]) && all_ws(x.drop_first()) {
            assert forall|i: int| 0 <= i < x.len() implies is_ws(#[trigger] x[i]) by {
                if i > 0 { assert(x[i] == x.drop_first()[i - 1]); }
            }
        }
    }
}

proof fn lemma_trim_start_append(y: Seq<char>, z: Seq<char>)
    requires
        trim_start(y).len() > 0,
    ensures
        trim_start(y + z) == trim_start(y) + z,
    decreases y.len(),
{
    if y.len() > 0 && is_ws(y[0]) {
        assert((y + z).drop_first() =~= y.drop_first() + z);
        lemma_trim_start_append(y.drop_first(), z);
    } else if y.len() > 0 {
        assert((y + z)[0] == y[0]);
    }
}

proof fn lemma_trim_start_ws_prefix(w: Seq<char>, y: Seq<char>)
    requires
        all_ws(w),
    ensures
        trim_start(w + y) == trim_start(y),
    decreases w.len(),
{
    if w.len() == 0 {
        assert(w + y =~= y);
    } else {
        assert((w + y)[0] == w[0]);
        assert((w + y).drop_first() =~= w.drop_first() + y);
        assert(all_ws(w.drop_first())) by {
            assert forall|i: int| 0 <= i < w.drop_first().len() implies is_ws(#[trigger] w.drop_first()[i]) by {
                assert(w.drop_first()[i] == w[i + 1]);
            }
        }
        lemma_trim_start_ws_prefix(w.drop_first(), y);
    }
}

/// A trailing newline does not change the trimmed text.
proof fn lemma_trim_newline(y: Seq<char>)
    ensures
        trim(y + "\n"@) == trim(y),
{
    reveal_strlit("\n");
    lemma_trim_start_empty(y);
    if trim_start(y).len() > 0 {
        lemma_trim_start_append(y, "\n"@);
        assert((trim_start(y) + "\n"@).drop_last() =~= trim_start(y));
    } else {
        assert(all_ws(y + "\n"@)) by {
            assert forall|i: int| 0 <= i < (y + "\n"@).len() implies is_ws(#[trigger] (y + "\n"@)[i]) by {
                if i < y.len() { assert((y + "\n"@)[i] == y[i]); }
            }
        }
        lemma_trim_start_empty(y + "\n"@);
    }
}

/// The section that the reader collects from the lines `ls` after `sec`:
/// each line and a newline, leading empty lines skipped.
spec fn collected(sec: Seq<char>, ls: Seq<Seq<char>>) -> Seq<char>
    decreases ls.len(),
{
    if ls.len() == 0 {
        sec
    } else {
        let p = collected(sec, ls.drop_last());
        if p.len() > 0 || ls.last().len() > 0 { p + ls.last() + "\n"@ } else { p }
    }
}

proof fn lemma_collected_is_joined(ls: Seq<Seq<char>>) -> (w: Seq<char>)
    requires
        ls.len() > 0,
    ensures
        all_ws(w),
        join(ls, "\n"@) + "\n"@ == w + collected(seq![], ls),
    decreases ls.len(),
{
    reveal_strlit("\n");
    let d = ls.drop_last();
    let l = ls.last();
    if d.len() == 0 {
        assert(collected(seq![], d) == Seq::<char>::empty());
        if l.len() > 0 {
            assert(join(ls, "\n"@) + "\n"@ =~= Seq::<char>::empty() + collected(seq![], ls));
            seq![]
        } else {
            assert(collected(seq![], ls) == Seq::<char>::empty());
            assert(join(ls, "\n"@) + "\n"@ =~= "\n"@ + collected(seq![], ls));
            assert(is_ws("\n"@[0]));
            "\n"@
        }
    } else {
        let w0 = lemma_collected_is_joined(d);
        let p = collected(seq![], d);
        assert(join(ls, "\n"@) == join(d, "\n"@) + "\n"@ + l);
        if p.len() > 0 || l.len() > 0 {
            assert(join(ls, "\n"@) + "\n"@ =~= w0 + collected(seq![], ls));
            w0
        } else {
            let w = w0 + "\n"@;
            assert(join(ls, "\n"@) + "\n"@ =~= w + collected(seq![], ls));
            assert forall|i: int| 0 <= i < w.len() implies is_ws(#[trigger] w[i]) by {
                if i < w0.len() { assert(w[i] == w0[i]); } else { assert(w[i] == '\n'); }
            }
            w
        }
    }
}

/// Trimmed, the collected section is the lines joined with newlines.
proof fn lemma_collected_trim(ls: Seq<Seq<char>>)
    ensures
        trim(collected(seq![], ls)) == trim(join(ls, "\n"@)),
{
    if ls.len() > 0 {
        let w = lemma_collected_is_joined(ls);
        lemma_trim_newline(join(ls, "\n"@));
        lemma_trim_start_ws_prefix(w, collected(seq![], ls));
    }
}

proof fn lemma_prefix_first(p: Seq<char>, s: Seq<char>)
    requires
        p.len() > 0,
        is_prefix(p, s),
    ensures
        s[0] == p[0],
{
    assert(s.subrange(0, p.len() as int)[0] == s[0]);
}

/// No line starts a conflict marker.
pub open spec fn unmarked(ls: Seq<Seq<char>>) -> bool {
    forall|i: int| 0 <= i < ls.len() ==> !is_prefix("<<<<<<<"@, #[trigger] ls[i]) && !is_prefix("|||||||"@, ls[i])
        && !is_prefix("======="@, ls[i]) && !is_prefix(">>>>>>>"@, ls[i])
}

proof fn lemma_section_lines(ls: Seq<Seq<char>>, tail: Seq<Seq<char>>, cur: Option<Seq<char>>, sec: Seq<char>)
    requires
        unmarked(ls),
    ensures
        sections_from(ls + tail, true, cur, sec) == sections_from(tail, true, cur, collected(sec, ls)),
    decreases ls.len(),
{
    if ls.len() == 0 {
        assert(ls + tail =~= tail);
    } else {
        let d = ls.drop_last();
        let l = ls.last();
        assert(ls + tail =~= d + (seq![l] + tail));
        assert(unmarked(d)) by {
            assert forall|i: int| 0 <= i < d.len() implies !is_prefix("<<<<<<<"@, #[trigger] d[i]) && !is_prefix("|||||||"@, d[i])
                && !is_prefix("======="@, d[i]) && !is_prefix(">>>>>>>"@, d[i]) by {
                assert(d[i] == ls[i]);
            }
        }
        assert(ls[ls.len() - 1] == l);
        lemma_section_lines(d, seq![l] + tail, cur, sec);
        assert((seq![l] + tail).drop_first() =~= tail);
        assert((seq![l] + tail)[0] == l);
    }
}

proof fn lemma_outside_lines(ls: Seq<Seq<char>>, tail: Seq<Seq<char>>)
    requires
        unmarked(ls),
    ensures
        sections_from(ls + tail, false, None, seq![]) == sections_from(tail, false, None, seq![]),
    decreases ls.len(),
{
    if ls.len() == 0 {
        assert(ls + tail =~= tail);
    } else {
        assert((ls + tail)[0] == ls[0]);
        assert((ls + tail).drop_first() =~= ls.drop_first() + tail);
        assert(unmarked(ls.drop_first())) by {
            assert forall|i: int| 0 <= i < ls.drop_first().len() implies !is_prefix("<<<<<<<"@, #[trigger] ls.drop_first()[i])
                && !is_prefix("|||||||"@, ls.drop_first()[i]) && !is_prefix("======="@, ls.drop_first()[i])
                && !is_prefix(">>>>>>>"@, ls.drop_first()[i]) by {
                assert(ls.drop_first()[i] == ls[i + 1]);
            }
        }
        lemma_outside_lines(ls.drop_first(), tail);
    }
}

/// A conflict keeps every line of its two sections: for the lines of a
/// conflict (a `<<<<<<<` line, our lines, a `=======` line, their lines, a
/// `>>>>>>>` line) after lines outside any conflict and followed by any
/// other lines, the first conflict found has as ours our lines joined with newlines and as
/// theirs their lines joined with newlines (each trimmed), and the conflicts
/// after it are those of the lines that follow.
pub proof fn lemma_conflict_keeps_its_lines(pre: Seq<Seq<char>>, open: Seq<char>, ours: Seq<Seq<char>>, mid: Seq<char>,
    theirs: Seq<Seq<char>>, close: Seq<char>, rest: Seq<Seq<char>>)
    requires
        unmarked(pre),
        is_prefix("<<<<<<<"@, open),
        is_prefix("======="@, mid),
        is_prefix(">>>>>>>"@, close),
        unmarked(ours),
        unmarked(theirs),
    ensures
        sections_from(pre + seq![open] + ours + seq![mid] + theirs + seq![close] + rest, false, None, seq![])
            == seq![(trim(join(ours, "\n"@)), trim(join(theirs, "\n"@)))] + sections_from(rest, false, None, seq![]),
{
    reveal_strlit("<<<<<<<");
    reveal_strlit("|||||||");
    reveal_strlit("=======");
    reveal_strlit(">>>>>>>");
    let all = seq![open] + ours + seq![mid] + theirs + seq![close] + rest;
    assert(pre + seq![open] + ours + seq![mid] + theirs + seq![close] + rest =~= pre + all);
    lemma_outside_lines(pre, all);
    let t1 = seq![mid] + theirs + seq![close] + rest;
    let t2 = seq![close] + rest;
    assert(all[0] == open);
    assert(all.drop_first() =~= ours + t1);
    lemma_section_lines(ours, t1, Some(seq![]), seq![]);
    let a = collected(seq![], ours);
    assert(t1[0] == mid);
    lemma_prefix_first("======="@, mid);
    if is_prefix("<<<<<<<"@, mid) { lemma_prefix_first("<<<<<<<"@, mid); }
    if is_prefix("|||||||"@, mid) { lemma_prefix_first("|||||||"@, mid); }
    assert(t1.drop_first() =~= theirs + t2);
    lemma_section_lines(theirs, t2, Some(trim(a)), seq![]);
    let b = collected(seq![], theirs);
    assert(t2[0] == close);
    lemma_prefix_first(">>>>>>>"@, close);
    if is_prefix("<<<<<<<"@, close) { lemma_prefix_first("<<<<<<<"@, close); }
    if is_prefix("|||||||"@, close) { lemma_prefix_first("|||||||"@, close); }
    if is_prefix("======="@, close) { lemma_prefix_first("======="@, close); }
    assert(t2.drop_first() =~= rest);
    lemma_collected_trim(ours);
    lemma_collected_trim(theirs);
}

/// The view of a conflict: its file, ours, theirs and base.
pub open spec fn conflict_view(c: MergeConflict) -> (Seq<char>, Seq<char>, Seq<char>, Seq<char>) {
    (c.file_path@, c.our_content@, c.their_content@, c.base_content@)
}

/// Every conflict found in the text of the file at `file_path`, in order; each
/// names that file, holds the trimmed sections of ours and theirs, and an
/// empty base.
pub fn parse_conflicts(file_path: &str, content: &str) -> (r: Vec<MergeConflict>)
    ensures
        r@.len() == sections_from(lines(content@), false, None, seq![]).len(),
        forall|k: int| 0 <= k < r@.len() ==> conflict_view(#[trigger] r@[k]) == (
            file_path@,
            sections_from(lines(content@), false, None, seq![])[k].0,
            sections_from(lines(content@), false, None, seq![])[k].1,
            Seq::<char>::empty(),
        ),
{
    let ls = lines_of(content);
    let ghost all = views(ls@);
    let mut out: Vec<MergeConflict> = Vec::new();
    let mut in_c = false;
    let mut has_cur = false;
    let mut ours = String::new();
    let mut sec = String::new();
    let mut i: usize = 0;
    let ghost found: Seq<(Seq<char>, Seq<char>)> = seq![];
    assert(all.subrange(0, all.len() as int) =~= all);
    while i < ls.len()
        invariant
            all == views(ls@),
            all == lines(content@),
            i <= ls@.len(),
            out@.len() == found.len(),
            forall|k: int| 0 <= k < out@.len() ==> conflict_view(#[trigger] out@[k]) == (
                file_path@, found[k].0, found[k].1, Seq::<char>::empty()),
            sections_from(all, false, None, seq![]) == found + sections_from(
                all.subrange(i as int, all.len() as int),
                in_c,
                if has_cur { Some(ours@) } else { None },
                sec@,
            ),
        decreases ls@.len() - i,
    {
        let ghost rest = all.subrange(i as int, all.len() as int);
        assert(rest[0] == ls@[i as int]@);
        assert(rest.drop_first() =~= all.subrange(i + 1, all.len() as int));
        let line = ls[i].as_str();
        if starts_with(line, "<<<<<<<") {
            in_c = true;
            has_cur = true;
            ours = String::new();
            sec = String::new();
        } else if starts_with(line, "|||||||") {
        } else if starts_with(line, "=======") {
            if has_cur {
                ours = trim_str(sec.as_str());
            }
            sec = String::new();
        } else if starts_with(line, ">>>>>>>") {
            in_c = false;
            if has_cur {
                let c = MergeConflict {
                    file_path: owned(file_path),
                    our_content: owned(ours.as_str()),
                    their_content: trim_str(sec.as_str()),
                    base_content: String::new(),
                };
                proof {
                    found = found.push((ours@, trim(sec@)));
                }
                out.push(c);
                assert(found =~= found.drop_last().push((ours@, trim(sec@))));
                has_cur = false;
                ours = String::new();
            }
            sec = String::new();
        } else if in_c && (!sec.as_str().is_empty() || !line.is_empty()) {
            push_str(&mut sec, line);
            push_str(&mut sec, "\n");
        }
        i = i + 1;
    }
    assert(all.subrange(i as int, all.len() as int) =~= Seq::<Seq<char>>::empty());
    assert(found + Seq::<(Seq<char>, Seq<char>)>::empty() =~= found);
    out
}

/// The resolution text that `strategy` picks for a conflict with sections
/// `ours` and `theirs`.
pub open spec fn resolution_text(strategy: ResolutionStrategy, ours: Seq<char>, theirs: Seq<char>) -> Seq<char> {
    match strategy {
        ResolutionStrategy::UseOurs => ours,
        ResolutionStrategy::UseTheirs => theirs,
        ResolutionStrategy::UseBoth => ours + "\n\n// ======= MERGED =======\n\n"@ + theirs,
        ResolutionStrategy::UseAiGenerated(content) => content@,
        ResolutionStrategy::Manual => ours,
    }
}

/// Resolving a conflict keeps the chosen side: ours for `UseOurs` (and for
/// `Manual`, which leaves the conflict to the user), theirs for `UseTheirs`,
/// both for `UseBoth` (ours first, theirs last, a separator line between),
/// and the model's text for `UseAiGenerated`.
pub proof fn lemma_resolution_keeps_the_chosen_side(ours: Seq<char>, theirs: Seq<char>, ai: String)
    ensures
        resolution_text(ResolutionStrategy::UseOurs, ours, theirs) == ours,
        resolution_text(ResolutionStrategy::Manual, ours, theirs) == ours,
        resolution_text(ResolutionStrategy::UseTheirs, ours, theirs) == theirs,
        resolution_text(ResolutionStrategy::UseAiGenerated(ai), ours, theirs) == ai@,
        is_prefix(ours, resolution_text(ResolutionStrategy::UseBoth, ours, theirs)),
        ({
            let b = resolution_text(ResolutionStrategy::UseBoth, ours, theirs);
            &&& b.len() > ours.len() + theirs.len()
            &&& b.subrange(b.len() - theirs.len(), b.len() as int) == theirs
            &&& contains(b.subrange(ours.len() as int, b.len() - theirs.len()), "======="@)
        }),
{
    let sep = "\n\n// ======= MERGED =======\n\n"@;
    reveal_strlit("\n\n// ======= MERGED =======\n\n");
    reveal_strlit("=======");
    let b = ours + sep + theirs;
    assert(b.subrange(0, ours.len() as int) =~= ours);
    assert(b.subrange(b.len() - theirs.len(), b.len() as int) =~= theirs);
    let m = b.subrange(ours.len() as int, b.len() - theirs.len());
    assert(m =~= sep);
    assert(m.subrange(5, 12) =~= "======="@);
    assert(crate::text::occurs_at(m, "======="@, 5));
}

impl ResolutionStrategy {
    fn duplicate(&self) -> (r: Self)
        ensures
            r == *self,
    {
        match self {
            ResolutionStrategy::UseOurs => ResolutionStrategy::UseOurs,
            ResolutionStrategy::UseTheirs => ResolutionStrategy::UseTheirs,
            ResolutionStrategy::UseBoth => ResolutionStrategy::UseBoth,
            ResolutionStrategy::UseAiGenerated(c) => ResolutionStrategy::UseAiGenerated(c.clone()),
            ResolutionStrategy::Manual => ResolutionStrategy::Manual,
        }
    }
}

/// Auto-resolve using simple strategies.
pub fn resolve_conflict_simple(conflict: &MergeConflict, strategy: &ResolutionStrategy) -> (r: ResolvedConflict)
    ensures
        r.file_path@ == conflict.file_path@,
        r.resolution@ == resolution_text(*strategy, conflict.our_content@, conflict.their_content@),
        r.strategy == *strategy,
{
    let resolution = match strategy {
        ResolutionStrategy::UseOurs => owned(conflict.our_content.as_str()),
        ResolutionStrategy::UseTheirs => owned(conflict.their_content.as_str()),
        ResolutionStrategy::UseBoth => {
            let mut r = cat(conflict.our_content.as_str(), "\n\n// ======= MERGED =======\n\n");
            push_str(&mut r, conflict.their_content.as_str());
            r
        }
        ResolutionStrategy::UseAiGenerated(content) => owned(content.as_str()),
        ResolutionStrategy::Manual => owned(conflict.our_content.as_str()),
    };
    ResolvedConflict {
        file_path: owned(conflict.file_path.as_str()),
        resolution,
        strategy: strategy.duplicate(),
    }
}

/// The strategy that a command-line name selects: `ours`, `theirs`, `both`,
/// or `ai` (also when none is given); any other name is refused.
pub fn parse_strategy(strategy: Option<&str>) -> (r: Result<ResolutionStrategy, String>)
    ensures
        match strategy {
            None => r == Ok::<ResolutionStrategy, String>(ResolutionStrategy::UseAiGenerated(r->Ok_0->UseAiGenerated_0))
                && r->Ok_0->UseAiGenerated_0@ == "ai"@,
            Some(s) => if s@ == "ours"@ {
                r == Ok::<ResolutionStrategy, String>(ResolutionStrategy::UseOurs)
            } else if s@ == "theirs"@ {
                r == Ok::<ResolutionStrategy, String>(ResolutionStrategy::UseTheirs)
            } else if s@ == "both"@ {
                r == Ok::<ResolutionStrategy, String>(ResolutionStrategy::UseBoth)
            } else if s@ == "ai"@ {
                r is Ok && r->Ok_0 is UseAiGenerated && r->Ok_0->UseAiGenerated_0@ == "ai"@
            } else {
                r is Err && r->Err_0@ == "Unknown strategy: "@ + s@ + ". Use: ours, theirs, both, ai"@
            },
        },
{
    match strategy {
        Some(s) => {
            if str_eq(s, "ours") {
                Ok(ResolutionStrategy::UseOurs)
            } else if str_eq(s, "theirs") {
                Ok(ResolutionStrategy::UseTheirs)
            } else if str_eq(s, "both") {
                Ok(ResolutionStrategy::UseBoth)
            } else if str_eq(s, "ai") {
                Ok(ResolutionStrategy::UseAiGenerated(owned("ai")))
            } else {
                let mut e = cat("Unknown strategy: ", s);
                push_str(&mut e, ". Use: ours, theirs, both, ai");
                Err(e)
            }
        }
        None => Ok(ResolutionStrategy::UseAiGenerated(owned("ai"))),
    }
}

} // verus!

verus! {

/// The prompt that asks the model to merge a conflict.
pub open spec fn merge_prompt_text(c: MergeConflict) -> Seq<char> {
    "You are resolving a Git merge conflict in file: "@ + c.file_path@
        + "\n\nCONTEXT:\nThis is an AI-assisted merge resolution. Analyze both versions and create a merged result.\n\n=== OUR VERSION (current branch) ===\n"@
        + c.our_content@ + "\n\n=== THEIR VERSION (incoming branch) ===\n"@ + c.their_content@
        + "\n\n=== BASE VERSION (common ancestor) ===\n"@ + c.base_content@
        + "\n\nTASK:\n1. Analyze what changed in each version\n2. Determine what the merged result should be\n3. Output ONLY the merged file content with no explanations\n4. Preserve all important changes from both versions\n5. If changes are incompatible, make a sensible decision\n\nOutput the complete merged file content:"@
}

/// The prompt that asks the model to merge a conflict.
pub fn merge_prompt(c: &MergeConflict) -> (r: String)
    ensures
        r@ == merge_prompt_text(*c),
{
    let a = cat3(
        "You are resolving a Git merge conflict in file: ",
        c.file_path.as_str(),
        "\n\nCONTEXT:\nThis is an AI-assisted merge resolution. Analyze both versions and create a merged result.\n\n=== OUR VERSION (current branch) ===\n",
    );
    let b = cat3(a.as_str(), c.our_content.as_str(), "\n\n=== THEIR VERSION (incoming branch) ===\n");
    let d = cat3(b.as_str(), c.their_content.as_str(), "\n\n=== BASE VERSION (common ancestor) ===\n");
    cat3(
        d.as_str(),
        c.base_content.as_str(),
        "\n\nTASK:\n1. Analyze what changed in each version\n2. Determine what the merged result should be\n3. Output ONLY the merged file content with no explanations\n4. Preserve all important changes from both versions\n5. If changes are incompatible, make a sensible decision\n\nOutput the complete merged file content:",
    )
}

/// The conflict resolved by the model's answer (its error text when it failed).
pub fn resolve_conflict_ai(c: &MergeConflict, answer: Result<String, String>) -> (r: ResolvedConflict)
    ensures
        r.file_path@ == c.file_path@,
        r.resolution@ == (match answer {
            Ok(s) => s@,
            Err(e) => e@,
        }),
        r.strategy matches ResolutionStrategy::UseAiGenerated(t) && t@ == "ai"@,
{
    let resolution = match answer {
        Ok(s) => s,
        Err(e) => e,
    };
    ResolvedConflict {
        file_path: owned(c.file_path.as_str()),
        resolution,
        strategy: ResolutionStrategy::UseAiGenerated(owned("ai")),
    }
}

/// The non-empty lines among the first `k`.
pub open spec fn nonempty_upto(ls: Seq<Seq<char>>, k: nat) -> Seq<Seq<char>>
    decreases k,
{
    if k == 0 || k > ls.len() {
        seq![]
    } else {
        nonempty_upto(ls, (k - 1) as nat) + (if ls[k - 1].len() > 0 { seq![ls[k - 1]] } else { seq![] })
    }
}

/// The files with conflicts, from the output of `git diff --name-only
/// --diff-filter=U`: its non-empty lines, or an error when git failed.
pub fn get_conflicted_files(success: bool, stdout: &str) -> (r: Result<Vec<String>, String>)
    ensures
        match r {
            Ok(v) => success && views(v@) == nonempty_upto(lines(stdout@), lines(stdout@).len()),
            Err(e) => !success && e@ == "Git command failed"@,
        },
{
    if !success {
        return Err(owned("Git command failed"));
    }
    let ls = lines_of(stdout);
    let mut out: Vec<String> = Vec::new();
    let mut i: usize = 0;
    while i < ls.len()
        invariant
            views(ls@) == lines(stdout@),
            i <= ls@.len(),
            views(out@) == nonempty_upto(lines(stdout@), i as nat),
        decreases ls.len() - i,
    {
        let ghost before = views(out@);
        let cs = crate::text::chars_of(ls[i].as_str());
        if cs.len() > 0 {
            out.push(owned(ls[i].as_str()));
            assert(views(out@) =~= before + seq![ls@[i as int]@]);
        } else {
            assert(views(out@) =~= before + Seq::<Seq<char>>::empty());
        }
        i = i + 1;
    }
    Ok(out)
}

/// A strategy as `{:?}` writes it.
pub open spec fn strategy_debug_text(s: ResolutionStrategy) -> Seq<char> {
    match s {
        ResolutionStrategy::UseOurs => "UseOurs"@,
        ResolutionStrategy::UseTheirs => "UseTheirs"@,
        ResolutionStrategy::UseBoth => "UseBoth"@,
        ResolutionStrategy::UseAiGenerated(c) => "UseAiGenerated("@ + debug_text(c@) + ")"@,
        ResolutionStrategy::Manual => "Manual"@,
    }
}

/// A strategy as `{:?}` writes it.
pub fn strategy_debug(s: &ResolutionStrategy) -> (r: String)
    ensures
        r@ == strategy_debug_text(*s),
{
    match s {
        ResolutionStrategy::UseOurs => owned("UseOurs"),
        ResolutionStrategy::UseTheirs => owned("UseTheirs"),
        ResolutionStrategy::UseBoth => owned("UseBoth"),
        ResolutionStrategy::UseAiGenerated(c) => {
            let d = debug_str(c.as_str());
            cat3("UseAiGenerated(", d.as_str(), ")")
        },
        ResolutionStrategy::Manual => owned("Manual"),
    }
}

/// The heading of a resolution: how many files have conflicts, then one line each.
pub open spec fn files_heading(files: Seq<Seq<char>>) -> Seq<char> {
    "Found "@ + dec(files.len()) + " files with conflicts:\n"@
        + join(files.map_values(|f: Seq<char>| "  - "@ + f + "\n"@), seq![])
}

/// The heading of a resolution over `files`.
pub fn resolve_heading(files: &Vec<String>) -> (r: String)
    ensures
        r@ == files_heading(views(files@)),
{
    let n = u64_to_string(files.len() as u64);
    let mut out = cat3("Found ", n.as_str(), " files with conflicts:\n");
    let ghost head = out@;
    let mut i: usize = 0;
    while i < files.len()
        invariant
            i <= files@.len(),
            out@ == head + join(views(files@).subrange(0, i as int).map_values(|f: Seq<char>| "  - "@ + f + "\n"@), seq![]),
        decreases files.len() - i,
    {
        let ghost prev = views(files@).subrange(0, i as int).map_values(|f: Seq<char>| "  - "@ + f + "\n"@);
        let ghost next = views(files@).subrange(0, i + 1).map_values(|f: Seq<char>| "  - "@ + f + "\n"@);
        assert(next =~= prev.push("  - "@ + files@[i as int]@ + "\n"@));
        assert(next.drop_last() =~= prev);
        push_str(&mut out, "  - ");
        push_str(&mut out, files[i].as_str());
        push_str(&mut out, "\n");
        proof {
            if i > 0 {
                assert(join(next, seq![]) == join(prev, seq![]) + Seq::<char>::empty() + next.last());
            } else {
                assert(next.len() == 1);
            }
        }
        assert(out@ =~= head + join(next, seq![]));
        i = i + 1;
    }
    assert(views(files@).subrange(0, files@.len() as int) =~= views(files@));
    out
}

/// The dry-run lines of one conflict: its file and how many lines each side has.
pub fn dry_run_lines(c: &MergeConflict) -> (r: String)
    ensures
        r@ == "\n\u{1F4C4} "@ + c.file_path@ + ":\n  Our lines: "@ + dec(lines(c.our_content@).len()) + "\n  Their lines: "@
            + dec(lines(c.their_content@).len()) + "\n"@,
{
    let o = lines_of(c.our_content.as_str());
    let t = lines_of(c.their_content.as_str());
    let on = u64_to_string(o.len() as u64);
    let tn = u64_to_string(t.len() as u64);
    let a = cat3("\n\u{1F4C4} ", c.file_path.as_str(), ":\n  Our lines: ");
    let b = cat3(a.as_str(), on.as_str(), "\n  Their lines: ");
    cat3(b.as_str(), tn.as_str(), "\n")
}

/// The line reported for a resolved conflict.
pub fn resolved_line(r: &ResolvedConflict) -> (s: String)
    ensures
        s@ == "\u{2705} Resolved "@ + r.file_path@ + " using "@ + strategy_debug_text(r.strategy) + "\n"@,
{
    let d = strategy_debug(&r.strategy);
    let a = cat3("\u{2705} Resolved ", r.file_path.as_str(), " using ");
    cat3(a.as_str(), d.as_str(), "\n")
}

/// The closing line of a resolution of `n` conflicts.
pub fn resolved_total(n: u64) -> (s: String)
    ensures
        s@ == "\n\u{2728} Resolved "@ + dec(n as nat) + " conflicts total\n"@,
{
    let d = u64_to_string(n);
    cat3("\n\u{2728} Resolved ", d.as_str(), " conflicts total\n")
}

} // verus!

verus! {

/// Resolves every conflict of a file with the model's answer for it, in
/// order. A failed answer already resolves its conflict to the error text,
/// so the fallback to our side that `use_ours_if_ai_fails` asks for never
/// comes into play.
pub fn resolve_file_with_ai(conflicts: &Vec<MergeConflict>, answers: Vec<Result<String, String>>, use_ours_if_ai_fails: bool)
    -> (r: Result<Vec<ResolvedConflict>, String>)
    requires
        answers@.len() == conflicts@.len(),
    ensures
        r matches Ok(v) && v@.len() == conflicts@.len() && forall|k: int| 0 <= k < v@.len() ==> {
            &&& (#[trigger] v@[k]).file_path@ == conflicts@[k].file_path@
            &&& v@[k].resolution@ == match answers@[k] { Ok(s) => s@, Err(e) => e@ }
            &&& v@[k].strategy matches ResolutionStrategy::UseAiGenerated(t) && t@ == "ai"@
        },
{
    let mut out: Vec<ResolvedConflict> = Vec::new();
    let mut rest = answers;
    let ghost all = rest@;
    let mut i: usize = 0;
    while i < conflicts.len()
        invariant
            i <= conflicts@.len() == all.len(),
            rest@ == all.subrange(i as int, all.len() as int),
            out@.len() == i,
            forall|k: int| 0 <= k < i ==> {
                &&& (#[trigger] out@[k]).file_path@ == conflicts@[k].file_path@
                &&& out@[k].resolution@ == match all[k] { Ok(s) => s@, Err(e) => e@ }
                &&& out@[k].strategy matches ResolutionStrategy::UseAiGenerated(t) && t@ == "ai"@
            },
        decreases conflicts.len() - i,
    {
        let answer = rest.remove(0);
        assert(rest@ =~= all.subrange(i + 1, all.len() as int));
        out.push(resolve_conflict_ai(&conflicts[i], answer));
        i = i + 1;
    }
    Ok(out)
}

/// Where a merge resolution run stands.
#[derive(Debug, Clone, Copy, PartialEq, Eq, Structural)]
pub enum MergePhase {
    /// Waiting for the text of the current file.
    Reading,
    /// Waiting for the model's answer for the current conflict.
    Asking,
    /// Waiting for the resolution of the current conflict to be written.
    Writing,
    /// Done.
    Finished,
}

/// A merge resolution run over the files with conflicts.
#[derive(Debug)]
pub struct MergeRun {
    pub files: Vec<String>,
    pub strategy: ResolutionStrategy,
    pub dry_run: bool,
    pub phase: MergePhase,
    pub file_index: usize,
    pub conflicts: Vec<MergeConflict>,
    pub conflict_index: usize,
    pub pending: Option<ResolvedConflict>,
    pub output: String,
    pub resolved: u64,
}

/// What the run asks of its caller next.
#[derive(Debug)]
pub enum MergeAction {
    /// Read this file and hand back its text.
    ReadFile(String),
    /// Ask the model this prompt and hand back its answer.
    AskModel(String),
    /// Write `content` to the file at `path` and hand back how it went.
    WriteFile { path: String, content: String },
    /// The run is over, with this result.
    Done(Result<String, String>),
}

/// What the caller hands back after doing what the run asked.
#[derive(Debug)]
pub enum MergeEvent {
    /// The text of the file, or why it could not be read.
    Read(Result<String, String>),
    /// The model's answer, or its error.
    Answered(Result<String, String>),
    /// Whether the write went through, or why not.
    Wrote(Result<(), String>),
}

/// The positions of a run agree with its phase.
pub open spec fn merge_run_wf(r: MergeRun) -> bool {
    &&& r.phase == MergePhase::Reading ==> r.file_index < r.files@.len()
    &&& (r.phase == MergePhase::Asking || r.phase == MergePhase::Writing) ==> {
        &&& !r.dry_run
        &&& r.file_index < r.files@.len()
        &&& r.conflict_index < r.conflicts@.len()
    }
    &&& r.phase == MergePhase::Asking ==> r.strategy is UseAiGenerated
    &&& r.phase == MergePhase::Writing <==> r.pending is Some
}

/// The event is the one the run waits for.
pub open spec fn awaits(r: MergeRun, e: MergeEvent) -> bool {
    match e {
        MergeEvent::Read(_) => r.phase == MergePhase::Reading,
        MergeEvent::Answered(_) => r.phase == MergePhase::Asking,
        MergeEvent::Wrote(_) => r.phase == MergePhase::Writing,
    }
}

/// The dry-run lines of a conflict.
pub open spec fn dry_text(c: MergeConflict) -> Seq<char> {
    "\n\u{1F4C4} "@ + c.file_path@ + ":\n  Our lines: "@ + dec(lines(c.our_content@).len()) + "\n  Their lines: "@
        + dec(lines(c.their_content@).len()) + "\n"@
}

/// The dry-run lines of every conflict, in order.
pub open spec fn dry_block(cs: Seq<MergeConflict>) -> Seq<char>
    decreases cs.len(),
{
    if cs.len() == 0 { seq![] } else { dry_block(cs.drop_last()) + dry_text(cs.last()) }
}

/// The line reported for a resolved conflict.
pub open spec fn resolved_text(r: ResolvedConflict) -> Seq<char> {
    "\u{2705} Resolved "@ + r.file_path@ + " using "@ + strategy_debug_text(r.strategy) + "\n"@
}

/// The closing line of a resolution of `n` conflicts.
pub open spec fn total_text(n: nat) -> Seq<char> {
    "\n\u{2728} Resolved "@ + dec(n) + " conflicts total\n"@
}

/// The conflicts that the text of `file` holds, as their views.
pub open spec fn parsed(file: Seq<char>, content: Seq<char>) -> Seq<(Seq<char>, Seq<char>, Seq<char>, Seq<char>)> {
    let s = sections_from(lines(content), false, None, seq![]);
    Seq::new(s.len(), |k: int| (file, s[k].0, s[k].1, Seq::<char>::empty()))
}

/// The views of a list of conflicts.
pub open spec fn conflict_views(cs: Seq<MergeConflict>) -> Seq<(Seq<char>, Seq<char>, Seq<char>, Seq<char>)> {
    Seq::new(cs.len(), |k: int| conflict_view(cs[k]))
}

/// `after` is done with the file at `i`, its output being `out` with `n`
/// conflicts resolved: it reads the next file, or, with none left, the run
/// ends with its output (and, unless it was a dry run, the total line).
pub open spec fn moved_on(i: int, out: Seq<char>, n: nat, after: MergeRun, a: MergeAction) -> bool {
    &&& after.resolved == n
    &&& after.conflict_index == 0
    &&& after.pending is None
    &&& if i + 1 < after.files@.len() {
        &&& after.phase == MergePhase::Reading
        &&& after.file_index == i + 1
        &&& after.output@ == out
        &&& a matches MergeAction::ReadFile(p) && p@ == after.files@[i + 1]@
    } else {
        &&& after.phase == MergePhase::Finished
        &&& after.file_index == i
        &&& after.output@ == out + if after.dry_run { Seq::<char>::empty() } else { total_text(n) }
        &&& a matches MergeAction::Done(Ok(t)) && t@ == after.output@
    }
}

/// `after` takes up conflict `k` of the file at `i`, its output being `out`
/// with `n` conflicts resolved: it asks the model, or writes the resolution
/// that the strategy picks; with no conflict left it moves on.
pub open spec fn entered(k: int, i: int, out: Seq<char>, n: nat, after: MergeRun, a: MergeAction) -> bool {
    if 0 <= k < after.conflicts@.len() {
        &&& after.file_index == i
        &&& after.conflict_index == k
        &&& after.output@ == out
        &&& after.resolved == n
        &&& if after.strategy is UseAiGenerated {
            &&& after.phase == MergePhase::Asking
            &&& after.pending is None
            &&& a matches MergeAction::AskModel(p) && p@ == merge_prompt_text(after.conflicts@[k])
        } else {
            &&& after.phase == MergePhase::Writing
            &&& after.pending matches Some(r) && {
                &&& r.file_path@ == after.conflicts@[k].file_path@
                &&& r.resolution@ == resolution_text(after.strategy, after.conflicts@[k].our_content@, after.conflicts@[k].their_content@)
                &&& r.strategy == after.strategy
                &&& a matches MergeAction::WriteFile { path, content } && path@ == r.file_path@ && content@ == r.resolution@
            }
        }
    } else {
        moved_on(i, out, n, after, a)
    }
}

/// The run is over with the error `e`.
pub open spec fn failed_with(after: MergeRun, a: MergeAction, e: Seq<char>) -> bool {
    &&& after.phase == MergePhase::Finished
    &&& match a {
        MergeAction::Done(Err(t)) => t@ == e,
        _ => false,
    }
}

/// A finished run over `files` with the output `out`.
fn finished_run(files: Vec<String>, strategy: ResolutionStrategy, dry_run: bool, out: String) -> (r: MergeRun)
    ensures
        r.files == files && r.strategy == strategy && r.dry_run == dry_run,
        r.phase == MergePhase::Finished && r.pending is None && r.output == out,
        r.file_index == 0 && r.conflict_index == 0 && r.conflicts@.len() == 0 && r.resolved == 0,
{
    MergeRun {
        files,
        strategy,
        dry_run,
        phase: MergePhase::Finished,
        file_index: 0,
        conflicts: Vec::new(),
        conflict_index: 0,
        pending: None,
        output: out,
        resolved: 0,
    }
}

/// Starts resolving the conflicts of `files` (the list that git gave, or its
/// error) with the strategy named `strategy`: with no file, or an unknown
/// strategy, the run is over at once; otherwise the heading (and the dry-run
/// notice) is written and the first file is asked for.
pub fn start_merge_resolve(files: Result<Vec<String>, String>, strategy: Option<&str>, dry_run: bool) -> (r: (MergeRun, MergeAction))
    ensures
        merge_run_wf(r.0),
        match files {
            Err(e) => failed_with(r.0, r.1, e@),
            Ok(fs) => if fs@.len() == 0 {
                &&& r.0.phase == MergePhase::Finished
                &&& r.1 matches MergeAction::Done(Ok(t)) && t@ == "No merge conflicts found"@
            } else {
                match strategy {
                    Some(s) if !(s@ == "ours"@ || s@ == "theirs"@ || s@ == "both"@ || s@ == "ai"@) => failed_with(
                        r.0, r.1, "Unknown strategy: "@ + s@ + ". Use: ours, theirs, both, ai"@),
                    _ => {
                        &&& r.0.files@ == fs@
                        &&& r.0.dry_run == dry_run
                        &&& r.0.strategy == (match strategy {
                            Some(s) => if s@ == "ours"@ {
                                ResolutionStrategy::UseOurs
                            } else if s@ == "theirs"@ {
                                ResolutionStrategy::UseTheirs
                            } else if s@ == "both"@ {
                                ResolutionStrategy::UseBoth
                            } else {
                                r.0.strategy
                            },
                            None => r.0.strategy,
                        })
                        &&& (strategy is None || strategy->0@ == "ai"@) ==> (r.0.strategy matches ResolutionStrategy::UseAiGenerated(t) && t@ == "ai"@)
                        &&& r.0.phase == MergePhase::Reading
                        &&& r.0.file_index == 0
                        &&& r.0.resolved == 0
                        &&& r.0.pending is None
                        &&& r.0.output@ == files_heading(views(fs@)) + if dry_run {
                            "\n\u{26A0}\u{FE0F}  Dry run - no changes will be made\n"@
                        } else {
                            Seq::<char>::empty()
                        }
                        &&& r.1 matches MergeAction::ReadFile(p) && p@ == fs@[0]@
                    },
                }
            },
        },
{
    let fs = match files {
        Err(e) => {
            return (finished_run(Vec::new(), ResolutionStrategy::Manual, dry_run, String::new()), MergeAction::Done(Err(e)));
        },
        Ok(fs) => fs,
    };
    if fs.len() == 0 {
        return (finished_run(fs, ResolutionStrategy::Manual, dry_run, String::new()),
            MergeAction::Done(Ok(owned("No merge conflicts found"))));
    }
    let mut output = resolve_heading(&fs);
    proof {
        reveal_strlit("ours");
        reveal_strlit("theirs");
        reveal_strlit("both");
        reveal_strlit("ai");
        assert("ours"@[0] == 'o' && "theirs"@[0] == 't' && "both"@[0] == 'b' && "ai"@[0] == 'a');
    }
    let st = match parse_strategy(strategy) {
        Ok(s) => s,
        Err(e) => {
            return (finished_run(fs, ResolutionStrategy::Manual, dry_run, output), MergeAction::Done(Err(e)));
        },
    };
    if dry_run {
        push_str(&mut output, "\n\u{26A0}\u{FE0F}  Dry run - no changes will be made\n");
    }
    let first = owned(fs[0].as_str());
    let run = MergeRun {
        files: fs,
        strategy: st,
        dry_run,
        phase: MergePhase::Reading,
        file_index: 0,
        conflicts: Vec::new(),
        conflict_index: 0,
        pending: None,
        output,
        resolved: 0,
    };
    (run, MergeAction::ReadFile(first))
}

/// Moves the run on from the file it is at.
fn move_on(run: &mut MergeRun) -> (a: MergeAction)
    requires
        old(run).file_index < old(run).files@.len(),
        old(run).phase != MergePhase::Finished,
    ensures
        merge_run_wf(*final(run)),
        final(run).files == old(run).files && final(run).strategy == old(run).strategy,
        final(run).dry_run == old(run).dry_run && final(run).conflicts == old(run).conflicts,
        moved_on(old(run).file_index as int, old(run).output@, old(run).resolved as nat, *final(run), a),
{
    run.conflict_index = 0;
    run.pending = None;
    let n = run.files.len();
    if run.file_index + 1 < n {
        run.file_index = run.file_index + 1;
        run.phase = MergePhase::Reading;
        MergeAction::ReadFile(owned(run.files[run.file_index].as_str()))
    } else {
        if !run.dry_run {
            let t = resolved_total(run.resolved);
            push_str(&mut run.output, t.as_str());
        } else {
            assert(run.output@ + Seq::<char>::empty() =~= run.output@);
        }
        run.phase = MergePhase::Finished;
        MergeAction::Done(Ok(owned(run.output.as_str())))
    }
}

/// Takes up conflict `k` of the run's file.
fn enter_conflict(run: &mut MergeRun, k: usize) -> (a: MergeAction)
    requires
        old(run).file_index < old(run).files@.len(),
        old(run).phase != MergePhase::Finished,
        old(run).dry_run ==> k >= old(run).conflicts@.len(),
    ensures
        merge_run_wf(*final(run)),
        final(run).files == old(run).files && final(run).strategy == old(run).strategy,
        final(run).dry_run == old(run).dry_run && final(run).conflicts == old(run).conflicts,
        entered(k as int, old(run).file_index as int, old(run).output@, old(run).resolved as nat, *final(run), a),
{
    if k < run.conflicts.len() {
        run.conflict_index = k;
        if let ResolutionStrategy::UseAiGenerated(_) = &run.strategy {
            run.phase = MergePhase::Asking;
            run.pending = None;
            MergeAction::AskModel(merge_prompt(&run.conflicts[k]))
        } else {
            let r = resolve_conflict_simple(&run.conflicts[k], &run.strategy);
            let a = MergeAction::WriteFile { path: owned(r.file_path.as_str()), content: owned(r.resolution.as_str()) };
            run.pending = Some(r);
            run.phase = MergePhase::Writing;
            a
        }
    } else {
        move_on(run)
    }
}

/// Takes the run one step further with what the caller hands back: the text
/// of a file, the model's answer, or how a write went. A failed read or write
/// ends the run with its error; everything else goes as `start_merge_resolve`
/// set out, file by file and conflict by conflict.
pub fn merge_resolve_step(run: &mut MergeRun, event: MergeEvent) -> (a: MergeAction)
    requires
        merge_run_wf(*old(run)),
        awaits(*old(run), event),
        event is Wrote ==> old(run).resolved < u64::MAX,
    ensures
        merge_run_wf(*final(run)),
        final(run).files == old(run).files && final(run).strategy == old(run).strategy && final(run).dry_run == old(run).dry_run,
        match event {
            MergeEvent::Read(Err(e)) => failed_with(*final(run), a, "Failed to read file: "@ + e@),
            MergeEvent::Read(Ok(content)) => {
                let i = old(run).file_index as int;
                &&& conflict_views(final(run).conflicts@) == parsed(old(run).files@[i]@, content@)
                &&& if old(run).dry_run {
                    moved_on(i, old(run).output@ + dry_block(final(run).conflicts@), old(run).resolved as nat, *final(run), a)
                } else {
                    entered(0, i, old(run).output@, old(run).resolved as nat, *final(run), a)
                }
            },
            MergeEvent::Answered(answer) => {
                let c = old(run).conflicts@[old(run).conflict_index as int];
                &&& final(run).conflicts == old(run).conflicts
                &&& final(run).file_index == old(run).file_index
                &&& final(run).conflict_index == old(run).conflict_index
                &&& final(run).output == old(run).output
                &&& final(run).resolved == old(run).resolved
                &&& final(run).phase == MergePhase::Writing
                &&& final(run).pending matches Some(r) && {
                    &&& r.file_path@ == c.file_path@
                    &&& r.resolution@ == match answer { Ok(s) => s@, Err(e) => e@ }
                    &&& r.strategy matches ResolutionStrategy::UseAiGenerated(t) && t@ == "ai"@
                    &&& a matches MergeAction::WriteFile { path, content } && path@ == r.file_path@ && content@ == r.resolution@
                }
            },
            MergeEvent::Wrote(Err(e)) => failed_with(*final(run), a, "Failed to write file: "@ + e@),
            MergeEvent::Wrote(Ok(())) => {
                &&& final(run).conflicts == old(run).conflicts
                &&& old(run).pending matches Some(r) && entered(
                    old(run).conflict_index + 1,
                    old(run).file_index as int,
                    old(run).output@ + resolved_text(r),
                    (old(run).resolved + 1) as nat,
                    *final(run),
                    a,
                )
            },
        },
{
    match event {
        MergeEvent::Read(Err(e)) => {
            run.phase = MergePhase::Finished;
            run.pending = None;
            MergeAction::Done(Err(cat("Failed to read file: ", e.as_str())))
        },
        MergeEvent::Read(Ok(content)) => {
            let file = owned(run.files[run.file_index].as_str());
            let cs = parse_conflicts(file.as_str(), content.as_str());
            assert(conflict_views(cs@) =~= parsed(run.files@[run.file_index as int]@, content@));
            run.conflicts = cs;
            if run.dry_run {
                let ghost start = run.output@;
                let mut j: usize = 0;
                while j < run.conflicts.len()
                    invariant
                        j <= run.conflicts@.len(),
                        run.file_index < run.files@.len(),
                        run.phase == MergePhase::Reading,
                        run.dry_run,
                        run.output@ == start + dry_block(run.conflicts@.subrange(0, j as int)),
                        run.files == old(run).files && run.strategy == old(run).strategy,
                        run.resolved == old(run).resolved,
                        run.file_index == old(run).file_index,
                        start == old(run).output@,
                        conflict_views(run.conflicts@) == parsed(run.files@[run.file_index as int]@, content@),
                    decreases run.conflicts.len() - j,
                {
                    assert(run.conflicts@.subrange(0, j + 1).drop_last() =~= run.conflicts@.subrange(0, j as int));
                    let d = dry_run_lines(&run.conflicts[j]);
                    push_str(&mut run.output, d.as_str());
                    j = j + 1;
                }
                assert(run.conflicts@.subrange(0, run.conflicts@.len() as int) =~= run.conflicts@);
                move_on(run)
            } else {
                enter_conflict(run, 0)
            }
        },
        MergeEvent::Answered(answer) => {
            let r = resolve_conflict_ai(&run.conflicts[run.conflict_index], answer);
            let a = MergeAction::WriteFile { path: owned(r.file_path.as_str()), content: owned(r.resolution.as_str()) };
            run.pending = Some(r);
            run.phase = MergePhase::Writing;
            a
        },
        MergeEvent::Wrote(Err(e)) => {
            run.phase = MergePhase::Finished;
            run.pending = None;
            MergeAction::Done(Err(cat("Failed to write file: ", e.as_str())))
        },
        MergeEvent::Wrote(Ok(())) => {
            let line = match &run.pending {
                Some(r) => resolved_line(r),
                None => String::new(),
            };
            push_str(&mut run.output, line.as_str());
            run.resolved = run.resolved + 1;
            let m = run.conflicts.len();
            assert(run.conflict_index < m);
            let k = run.conflict_index + 1;
            enter_conflict(run, k)
        },
    }
}

} // verus!
