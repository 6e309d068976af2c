//! Atomic file editing support: line diffs between two versions of a text and
//! the parsing of search/replace edit blocks.

use vstd::prelude::*;
use crate::text::{
    cat, cat3, chars_of, contains, copy_opt_string, debug_opt_str, debug_opt_text, is_prefix, join,
    join_strings, lemma_lines_nonempty, lines, lines_of, occurs_at, opt_string_view, owned,
    push_str, replace, replace_all, starts_with, str_contains, str_eq, trim_end, trim_end_str,
    u64_to_string, dec, views,
};

verus! {

/// Result of an atomic edit operation.
#[derive(Debug, Clone)]
pub struct EditResult {
    pub success: bool,
    pub file_path: String,
    pub original_content: String,
    pub new_content: String,
    pub backup_path: Option<String>,
    pub diff: String,
}

/// Represents a surgical search-replace block.
#[derive(Debug, Clone)]
pub struct SearchReplaceBlock {
    pub search: String,
    pub replace: String,
}

/// The diff lines for the old lines `o` and the new lines `n`, compared
/// position by position: equal lines as context (` `), differing ones as a
/// removal (`-`) followed by an addition (`+`), and the lines of the longer
/// side that have no counterpart as removals or additions.
pub open spec fn diff_body(o: Seq<Seq<char>>, n: Seq<Seq<char>>) -> Seq<char>
    decreases o.len() + n.len(),
{
    if o.len() > 0 && n.len() > 0 {
        (if o[0] == n[0] {
            " "@ + o[0] + "\n"@
        } else {
            "-"@ + o[0] + "\n+"@ + n[0] + "\n"@
        }) + diff_body(o.drop_first(), n.drop_first())
    } else if o.len() > 0 {
        "-"@ + o[0] + "\n"@ + diff_body(o.drop_first(), n)
    } else if n.len() > 0 {
        "+"@ + n[0] + "\n"@ + diff_body(o, n.drop_first())
    } else {
        seq![]
    }
}

/// The diff header for `filename`.
pub open spec fn diff_header(filename: Seq<char>) -> Seq<char> {
    "--- a/"@ + filename + "\n+++ b/"@ + filename + "\n"@
}

/// The line range of one side of a hunk that covers all `n` lines of the
/// side: `1,n`, or `0,0` for an empty side.
pub open spec fn hunk_range(n: nat) -> Seq<char> {
    if n == 0 { "0,0"@ } else { "1,"@ + dec(n) }
}

/// The header of the one hunk that covers both texts whole, with `a` old
/// and `b` new lines; none when both are empty.
pub open spec fn hunk_header(a: nat, b: nat) -> Seq<char> {
    if a == 0 && b == 0 { seq![] } else { "@@ -"@ + hunk_range(a) + " +"@ + hunk_range(b) + " @@\n"@ }
}

/// The unified diff of the old lines `o` against the new lines `n` of
/// `filename`: the file header, then one hunk over the whole texts.
pub open spec fn unified_diff(filename: Seq<char>, o: Seq<Seq<char>>, n: Seq<Seq<char>>) -> Seq<char> {
    diff_header(filename) + hunk_header(o.len(), n.len()) + diff_body(o, n)
}

/// The range text of one side of the hunk.
fn hunk_range_text(n: usize) -> (r: String)
    ensures
        r@ == hunk_range(n as nat),
{
    if n == 0 {
        owned("0,0")
    } else {
        let d = u64_to_string(n as u64);
        cat("1,", d.as_str())
    }
}

/// Generate unified diff: a file header and one hunk over both texts, whose
/// lines compare the two texts position by position.
pub fn generate_diff(old: &str, new: &str, filename: &str) -> (r: String)
    ensures
        r@ == unified_diff(filename@, lines(old@), lines(new@)),
{
    let ol = lines_of(old);
    let nl = lines_of(new);
    let mut diff = owned("--- a/");
    push_str(&mut diff, filename);
    push_str(&mut diff, "\n+++ b/");
    push_str(&mut diff, filename);
    push_str(&mut diff, "\n");
    if ol.len() > 0 || nl.len() > 0 {
        let a = hunk_range_text(ol.len());
        let b = hunk_range_text(nl.len());
        push_str(&mut diff, "@@ -");
        push_str(&mut diff, a.as_str());
        push_str(&mut diff, " +");
        push_str(&mut diff, b.as_str());
        push_str(&mut diff, " @@\n");
    }
    assert(diff@ =~= diff_header(filename@) + hunk_header(ol@.len() as nat, nl@.len() as nat));
    let ghost o = views(ol@);
    let ghost n = views(nl@);
    let mut i: usize = 0;
    let mut j: usize = 0;
    assert(o.subrange(0, o.len() as int) =~= o);
    assert(n.subrange(0, n.len() as int) =~= n);
    while i < ol.len() || j < nl.len()
        invariant
            o == views(ol@),
            n == views(nl@),
            o == lines(old@),
            n == lines(new@),
            i <= ol@.len(),
            j <= nl@.len(),
            unified_diff(filename@, o, n) == diff@ + diff_body(
                o.subrange(i as int, o.len() as int),
                n.subrange(j as int, n.len() as int),
            ),
        decreases ol@.len() - i + nl@.len() - j,
    {
        let ghost os = o.subrange(i as int, o.len() as int);
        let ghost ns = n.subrange(j as int, n.len() as int);
        let ghost before = diff@;
        if i < ol.len() && j < nl.len() {
            assert(os[0] == ol@[i as int]@);
            assert(ns[0] == nl@[j as int]@);
            assert(os.drop_first() =~= o.subrange(i + 1, o.len() as int));
            assert(ns.drop_first() =~= n.subrange(j + 1, n.len() as int));
            if str_eq(ol[i].as_str(), nl[j].as_str()) {
                push_str(&mut diff, " ");
                push_str(&mut diff, ol[i].as_str());
                push_str(&mut diff, "\n");
                assert(diff@ =~= before + (" "@ + os[0] + "\n"@));
            } else {
                push_str(&mut diff, "-");
                push_str(&mut diff, ol[i].as_str());
                push_str(&mut diff, "\n+");
                push_str(&mut diff, nl[j].as_str());
                push_str(&mut diff, "\n");
                assert(diff@ =~= before + ("-"@ + os[0] + "\n+"@ + ns[0] + "\n"@));
            }
            i = i + 1;
            j = j + 1;
        } else if i < ol.len() {
            assert(os[0] == ol@[i as int]@);
            assert(os.drop_first() =~= o.subrange(i + 1, o.len() as int));
            push_str(&mut diff, "-");
            push_str(&mut diff, ol[i].as_str());
            push_str(&mut diff, "\n");
            assert(diff@ =~= before + ("-"@ + os[0] + "\n"@));
            i = i + 1;
        } else {
            assert(ns[0] == nl@[j as int]@);
            assert(ns.drop_first() =~= n.subrange(j + 1, n.len() as int));
            push_str(&mut diff, "+");
            push_str(&mut diff, nl[j].as_str());
            push_str(&mut diff, "\n");
            assert(diff@ =~= before + ("+"@ + ns[0] + "\n"@));
            j = j + 1;
        }
    }
    diff
}

/// The diff lines of a text against itself: every line as context.
pub open spec fn context_only(o: Seq<Seq<char>>) -> Seq<char>
    decreases o.len(),
{
    if o.len() == 0 {
        seq![]
    } else {
        " "@ + o[0] + "\n"@ + context_only(o.drop_first())
    }
}

/// A text diffed against itself shows no change: every line is context.
pub proof fn lemma_diff_of_same_text(o: Seq<Seq<char>>)
    ensures
        diff_body(o, o) == context_only(o),
    decreases o.len(),
{
    if o.len() > 0 {
        lemma_diff_of_same_text(o.drop_first());
    }
}

/// The diff lines for `o` against `n` as marked lines: a mark (` `, `-` or
/// `+`) and the line it carries, in the order `diff_body` writes them.
pub open spec fn diff_ops(o: Seq<Seq<char>>, n: Seq<Seq<char>>) -> Seq<(char, Seq<char>)>
    decreases o.len() + n.len(),
{
    if o.len() > 0 && n.len() > 0 {
        (if o[0] == n[0] {
            seq![(' ', o[0])]
        } else {
            seq![('-', o[0]), ('+', n[0])]
        }) + diff_ops(o.drop_first(), n.drop_first())
    } else if o.len() > 0 {
        seq![('-', o[0])] + diff_ops(o.drop_first(), n)
    } else if n.len() > 0 {
        seq![('+', n[0])] + diff_ops(o, n.drop_first())
    } else {
        seq![]
    }
}

/// Marked lines written out: each as its mark, its text and a newline.
pub open spec fn render_ops(ops: Seq<(char, Seq<char>)>) -> Seq<char>
    decreases ops.len(),
{
    if ops.len() == 0 {
        seq![]
    } else {
        seq![ops[0].0] + ops[0].1 + "\n"@ + render_ops(ops.drop_first())
    }
}

/// What applying marked lines gives: the context and added lines, in order.
pub open spec fn patched(ops: Seq<(char, Seq<char>)>) -> Seq<Seq<char>>
    decreases ops.len(),
{
    if ops.len() == 0 {
        seq![]
    } else {
        (if ops[0].0 != '-' { seq![ops[0].1] } else { seq![] }) + patched(ops.drop_first())
    }
}

/// What marked lines expect to find: the context and removed lines, in order.
pub open spec fn unpatched(ops: Seq<(char, Seq<char>)>) -> Seq<Seq<char>>
    decreases ops.len(),
{
    if ops.len() == 0 {
        seq![]
    } else {
        (if ops[0].0 != '+' { seq![ops[0].1] } else { seq![] }) + unpatched(ops.drop_first())
    }
}

proof fn lemma_render_ops_append(a: Seq<(char, Seq<char>)>, b: Seq<(char, Seq<char>)>)
    ensures
        render_ops(a + b) == render_ops(a) + render_ops(b),
        patched(a + b) == patched(a) + patched(b),
        unpatched(a + b) == unpatched(a) + unpatched(b),
    decreases a.len(),
{
    if a.len() == 0 {
        assert(a + b =~= b);
    } else {
        lemma_render_ops_append(a.drop_first(), b);
        assert((a + b).drop_first() =~= a.drop_first() + b);
    }
}

/// The patch law of the diff: its body is the marked lines written out; the
/// context and removed lines are the old text's lines, and applying the
/// diff (context and added lines) gives the new text's lines; a text
/// against itself gives only context lines.
pub proof fn lemma_diff_patches(o: Seq<Seq<char>>, n: Seq<Seq<char>>)
    ensures
        diff_body(o, n) == render_ops(diff_ops(o, n)),
        unpatched(diff_ops(o, n)) == o,
        patched(diff_ops(o, n)) == n,
        o == n ==> forall|k: int| 0 <= k < diff_ops(o, n).len() ==> (#[trigger] diff_ops(o, n)[k]).0 == ' ',
    decreases o.len() + n.len(),
{
    reveal_strlit("\n");
    reveal_strlit("\n+");
    reveal_strlit(" ");
    reveal_strlit("-");
    reveal_strlit("+");
    if o.len() > 0 && n.len() > 0 {
        let (o1, n1) = (o.drop_first(), n.drop_first());
        lemma_diff_patches(o1, n1);
        let head: Seq<(char, Seq<char>)> = if o[0] == n[0] { seq![(' ', o[0])] } else { seq![('-', o[0]), ('+', n[0])] };
        lemma_render_ops_append(head, diff_ops(o1, n1));
        if o[0] == n[0] {
            assert(render_ops(head) =~= " "@ + o[0] + "\n"@) by {
                assert(render_ops(head.drop_first()) == Seq::<char>::empty());
            }
            assert(patched(head) =~= seq![o[0]]) by { assert(patched(head.drop_first()) == Seq::<Seq<char>>::empty()); }
            assert(unpatched(head) =~= seq![o[0]]) by { assert(unpatched(head.drop_first()) == Seq::<Seq<char>>::empty()); }
        } else {
            let t = head.drop_first();
            assert(render_ops(t) =~= "+"@ + n[0] + "\n"@) by { assert(render_ops(t.drop_first()) == Seq::<char>::empty()); }
            assert(render_ops(head) =~= "-"@ + o[0] + "\n+"@ + n[0] + "\n"@);
            assert(patched(t) =~= seq![n[0]]) by { assert(patched(t.drop_first()) == Seq::<Seq<char>>::empty()); }
            assert(unpatched(t) =~= Seq::<Seq<char>>::empty()) by { assert(unpatched(t.drop_first()) == Seq::<Seq<char>>::empty()); }
            assert(patched(head) =~= seq![n[0]]);
            assert(unpatched(head) =~= seq![o[0]]);
        }
        assert(seq![o[0]] + o1 =~= o);
        assert(seq![n[0]] + n1 =~= n);
        if o == n {
            assert(o1 == n1);
            assert forall|k: int| 0 <= k < diff_ops(o, n).len() implies (#[trigger] diff_ops(o, n)[k]).0 == ' ' by {
                if k > 0 {
                    assert(diff_ops(o, n)[k] == diff_ops(o1, n1)[k - 1]);
                }
            }
        }
    } else if o.len() > 0 {
        let o1 = o.drop_first();
        lemma_diff_patches(o1, n);
        let head: Seq<(char, Seq<char>)> = seq![('-', o[0])];
        lemma_render_ops_append(head, diff_ops(o1, n));
        assert(render_ops(head) =~= "-"@ + o[0] + "\n"@) by { assert(render_ops(head.drop_first()) == Seq::<char>::empty()); }
        assert(patched(head) =~= Seq::<Seq<char>>::empty()) by { assert(patched(head.drop_first()) == Seq::<Seq<char>>::empty()); }
        assert(unpatched(head) =~= seq![o[0]]) by { assert(unpatched(head.drop_first()) == Seq::<Seq<char>>::empty()); }
        assert(seq![o[0]] + o1 =~= o);
        assert(Seq::<Seq<char>>::empty() + patched(diff_ops(o1, n)) =~= n);
    } else if n.len() > 0 {
        let n1 = n.drop_first();
        lemma_diff_patches(o, n1);
        let head: Seq<(char, Seq<char>)> = seq![('+', n[0])];
        lemma_render_ops_append(head, diff_ops(o, n1));
        assert(render_ops(head) =~= "+"@ + n[0] + "\n"@) by { assert(render_ops(head.drop_first()) == Seq::<char>::empty()); }
        assert(patched(head) =~= seq![n[0]]) by { assert(patched(head.drop_first()) == Seq::<Seq<char>>::empty()); }
        assert(unpatched(head) =~= Seq::<Seq<char>>::empty()) by { assert(unpatched(head.drop_first()) == Seq::<Seq<char>>::empty()); }
        assert(seq![n[0]] + n1 =~= n);
        assert(Seq::<Seq<char>>::empty() + unpatched(diff_ops(o, n1)) =~= o);
    }
}

/// The blocks that the lines `ls` hold, reading them in `mode` (0: between
/// blocks, 1: in a search part, 2: in a replace part) with the parts read so
/// far. A block opens at a line starting `<<<<<<< SEARCH`, its search part
/// ends at a line starting `=======`, its replace part at a line starting
/// `>>>>>>> REPLACE`; a block cut short by the end of the text still counts.
/// Each part keeps its lines, each ended by a newline, then trailing white
/// space is trimmed.
pub open spec fn blocks_from(ls: Seq<Seq<char>>, mode: int, search: Seq<char>, repl: Seq<char>) -> Seq<(Seq<char>, Seq<char>)>
    decreases ls.len(),
{
    if ls.len() == 0 {
        if mode == 0 {
            seq![]
        } else {
            seq![(trim_end(search), trim_end(repl))]
        }
    } else {
        let l = ls[0];
        let rest = ls.drop_first();
        if mode == 0 {
            if is_prefix("<<<<<<< SEARCH"@, l) {
                blocks_from(rest, 1, seq![], seq![])
            } else {
                blocks_from(rest, 0, search, repl)
            }
        } else if mode == 1 {
            if is_prefix("======="@, l) {
                blocks_from(rest, 2, search, seq![])
            } else {
                blocks_from(rest, 1, search + l + "\n"@, seq![])
            }
        } else {
            if is_prefix(">>>>>>> REPLACE"@, l) {
                seq![(trim_end(search), trim_end(repl))] + blocks_from(rest, 0, seq![], seq![])
            } else {
                blocks_from(rest, 2, search, repl + l + "\n"@)
            }
        }
    }
}

/// Each of the lines followed by a newline, one after another.
pub open spec fn each_with_newline(ls: Seq<Seq<char>>) -> Seq<char>
    decreases ls.len(),
{
    if ls.len() == 0 {
        seq![]
    } else {
        each_with_newline(ls.drop_last()) + ls.last() + "\n"@
    }
}

proof fn lemma_each_with_newline_is_join(ls: Seq<Seq<char>>)
    requires
        ls.len() > 0,
    ensures
        each_with_newline(ls) == join(ls, "\n"@) + "\n"@,
    decreases ls.len(),
{
    if ls.len() > 1 {
        lemma_each_with_newline_is_join(ls.drop_last());
        assert(each_with_newline(ls) =~= join(ls, "\n"@) + "\n"@);
    } else {
        assert(each_with_newline(ls.drop_last()) =~= Seq::<char>::empty());
        assert(each_with_newline(ls) =~= join(ls, "\n"@) + "\n"@);
    }
}

proof fn lemma_trim_end_newline(t: Seq<char>)
    ensures
        trim_end(t + "\n"@) == trim_end(t),
{
    reveal_strlit("\n");
    assert((t + "\n"@).drop_last() =~= t);
}

/// Trailing white space aside, each line followed by a newline is the lines
/// joined with newlines.
proof fn lemma_trim_end_each(ls: Seq<Seq<char>>)
    ensures
        trim_end(each_with_newline(ls)) == trim_end(join(ls, "\n"@)),
{
    if ls.len() > 0 {
        lemma_each_with_newline_is_join(ls);
        lemma_trim_end_newline(join(ls, "\n"@));
    }
}

proof fn lemma_search_part(ls: Seq<Seq<char>>, tail: Seq<Seq<char>>, acc: Seq<char>)
    requires
        forall|i: int| 0 <= i < ls.len() ==> !is_prefix("======="@, #[trigger] ls[i]),
    ensures
        blocks_from(ls + tail, 1, acc, seq![]) == blocks_from(tail, 1, acc + each_with_newline(ls), seq![]),
    decreases ls.len(),
{
    if ls.len() == 0 {
        assert(ls + tail =~= tail);
        assert(acc + each_with_newline(ls) =~= acc);
    } else {
        let d = ls.drop_last();
        let l = ls.last();
        assert(ls + tail =~= d + (seq![l] + tail));
        lemma_search_part(d, seq![l] + tail, acc);
        assert((seq![l] + tail).drop_first() =~= tail);
        assert(acc + each_with_newline(d) + l + "\n"@ =~= acc + each_with_newline(ls));
    }
}

proof fn lemma_replace_part(ls: Seq<Seq<char>>, tail: Seq<Seq<char>>, search: Seq<char>, acc: Seq<char>)
    requires
        forall|i: int| 0 <= i < ls.len() ==> !is_prefix(">>>>>>> REPLACE"@, #[trigger] ls[i]),
    ensures
        blocks_from(ls + tail, 2, search, acc) == blocks_from(tail, 2, search, acc + each_with_newline(ls)),
    decreases ls.len(),
{
    if ls.len() == 0 {
        assert(ls + tail =~= tail);
        assert(acc + each_with_newline(ls) =~= acc);
    } else {
        let d = ls.drop_last();
        let l = ls.last();
        assert(ls + tail =~= d + (seq![l] + tail));
        lemma_replace_part(d, seq![l] + tail, search, acc);
        assert((seq![l] + tail).drop_first() =~= tail);
        assert(acc + each_with_newline(d) + l + "\n"@ =~= acc + each_with_newline(ls));
    }
}

proof fn lemma_text_between_blocks(ls: Seq<Seq<char>>, tail: Seq<Seq<char>>)
    requires
        forall|i: int| 0 <= i < ls.len() ==> !is_prefix("<<<<<<< SEARCH"@, #[trigger] ls[i]),
    ensures
        blocks_from(ls + tail, 0, seq![], seq![]) == blocks_from(tail, 0, seq![], seq![]),
    decreases ls.len(),
{
    if ls.len() == 0 {
        assert(ls + tail =~= tail);
    } else {
        assert((ls + tail)[0] == ls[0]);
        assert((ls + tail).drop_first() =~= ls.drop_first() + tail);
        assert forall|i: int| 0 <= i < ls.drop_first().len() implies !is_prefix("<<<<<<< SEARCH"@, #[trigger] ls.drop_first()[i]) by {
            assert(ls.drop_first()[i] == ls[i + 1]);
        }
        lemma_text_between_blocks(ls.drop_first(), tail);
    }
}

/// A block keeps every line of its two parts: for the lines of a block
/// (an opening `<<<<<<< SEARCH` line, the search lines, a `=======` line, the
/// replace lines, a closing `>>>>>>> REPLACE` line) after other text and
/// followed by any other lines, the first block read has as search the search lines joined with
/// newlines and as replacement the replace lines joined with newlines (each
/// without trailing white space), and the blocks after it are those of the
/// lines that follow.
pub proof fn lemma_block_keeps_its_lines(pre: Seq<Seq<char>>, open: Seq<char>, search: Seq<Seq<char>>, mid: Seq<char>,
    replace: Seq<Seq<char>>, close: Seq<char>, rest: Seq<Seq<char>>)
    requires
        forall|i: int| 0 <= i < pre.len() ==> !is_prefix("<<<<<<< SEARCH"@, #[trigger] pre[i]),
        is_prefix("<<<<<<< SEARCH"@, open),
        is_prefix("======="@, mid),
        is_prefix(">>>>>>> REPLACE"@, close),
        forall|i: int| 0 <= i < search.len() ==> !is_prefix("======="@, #[trigger] search[i]),
        forall|i: int| 0 <= i < replace.len() ==> !is_prefix(">>>>>>> REPLACE"@, #[trigger] replace[i]),
    ensures
        blocks_from(pre + seq![open] + search + seq![mid] + replace + seq![close] + rest, 0, seq![], seq![])
            == seq![(trim_end(join(search, "\n"@)), trim_end(join(replace, "\n"@)))]
                + blocks_from(rest, 0, seq![], seq![]),
{
    let all = seq![open] + search + seq![mid] + replace + seq![close] + rest;
    assert(pre + seq![open] + search + seq![mid] + replace + seq![close] + rest =~= pre + all);
    lemma_text_between_blocks(pre, all);
    let t1 = seq![mid] + replace + seq![close] + rest;
    let t2 = seq![close] + rest;
    assert(all.drop_first() =~= search + t1);
    lemma_search_part(search, t1, seq![]);
    let s = Seq::<char>::empty() + each_with_newline(search);
    assert(t1.drop_first() =~= replace + t2);
    lemma_replace_part(replace, t2, s, seq![]);
    let r = Seq::<char>::empty() + each_with_newline(replace);
    assert(t2.drop_first() =~= rest);
    assert(blocks_from(all, 0, seq![], seq![]) == seq![(trim_end(s), trim_end(r))] + blocks_from(rest, 0, seq![], seq![]));
    assert(s =~= each_with_newline(search));
    assert(r =~= each_with_newline(replace));
    lemma_trim_end_each(search);
    lemma_trim_end_each(replace);
}

/// The views of a sequence of blocks.
pub open spec fn block_views(v: Seq<SearchReplaceBlock>) -> Seq<(Seq<char>, Seq<char>)> {
    v.map_values(|b: SearchReplaceBlock| (b.search@, b.replace@))
}

/// Parses `<<<<<<< SEARCH` / `=======` / `>>>>>>> REPLACE` blocks.
pub fn parse_search_replace_blocks(text: &str) -> (r: Vec<SearchReplaceBlock>)
    ensures
        block_views(r@) == blocks_from(lines(text@), 0, seq![], seq![]),
{
    let ls = lines_of(text);
    let ghost all = views(ls@);
    let mut blocks: Vec<SearchReplaceBlock> = Vec::new();
    let mut mode: u8 = 0;
    let mut search = String::new();
    let mut repl = String::new();
    let mut i: usize = 0;
    assert(all.subrange(0, all.len() as int) =~= all);
    while i < ls.len()
        invariant
            all == views(ls@),
            all == lines(text@),
            i <= ls@.len(),
            mode <= 2,
            mode == 0 ==> search@ == Seq::<char>::empty() && repl@ == Seq::<char>::empty(),
            mode == 1 ==> repl@ == Seq::<char>::empty(),
            blocks_from(all, 0, seq![], seq![]) == block_views(blocks@) + blocks_from(
                all.subrange(i as int, all.len() as int),
                mode as int,
                search@,
                repl@,
            ),
        decreases ls@.len() - i,
    {
        let ghost rest = all.subrange(i as int, all.len() as int);
        assert(rest[0] == ls@[i as int]@);
        assert(rest.drop_first() =~= all.subrange(i + 1, all.len() as int));
        let line = ls[i].as_str();
        if mode == 0 {
            if starts_with(line, "<<<<<<< SEARCH") {
                mode = 1;
                search = String::new();
                repl = String::new();
            }
        } else if mode == 1 {
            if starts_with(line, "=======") {
                mode = 2;
                repl = String::new();
            } else {
                push_str(&mut search, line);
                push_str(&mut search, "\n");
            }
        } else {
            if starts_with(line, ">>>>>>> REPLACE") {
                let ghost old_blocks = blocks@;
                let b = SearchReplaceBlock {
                    search: trim_end_str(search.as_str()),
                    replace: trim_end_str(repl.as_str()),
                };
                blocks.push(b);
                assert(block_views(blocks@) =~= block_views(old_blocks).push((trim_end(search@), trim_end(repl@))));
                assert(block_views(old_blocks) + (seq![(trim_end(search@), trim_end(repl@))] + blocks_from(rest.drop_first(), 0, seq![], seq![]))
                    =~= block_views(blocks@) + blocks_from(rest.drop_first(), 0, seq![], seq![]));
                mode = 0;
                search = String::new();
                repl = String::new();
            } else {
                push_str(&mut repl, line);
                push_str(&mut repl, "\n");
            }
        }
        i = i + 1;
    }
    assert(all.subrange(i as int, all.len() as int) =~= Seq::<Seq<char>>::empty());
    if mode != 0 {
        let ghost old_blocks = blocks@;
        let b = SearchReplaceBlock {
            search: trim_end_str(search.as_str()),
            replace: trim_end_str(repl.as_str()),
        };
        blocks.push(b);
        assert(block_views(blocks@) =~= block_views(old_blocks).push((trim_end(search@), trim_end(repl@))));
    } else {
        assert(block_views(blocks@) + Seq::<(Seq<char>, Seq<char>)>::empty() =~= block_views(blocks@));
    }
    blocks
}

} // verus!

verus! {

/// The first case-insensitive match of `needle`, read as literal text, in
/// `hay`: the text before the match, the matched text and the text after it.
pub uninterp spec fn ci_first_match(hay: Seq<char>, needle: Seq<char>) -> Option<(Seq<char>, Seq<char>, Seq<char>)>;

/// The views of three optional pieces of text.
pub open spec fn split3_view(r: Option<(String, String, String)>) -> Option<(Seq<char>, Seq<char>, Seq<char>)> {
    match r {
        Some((a, m, b)) => Some((a@, m@, b@)),
        None => None,
    }
}

/// Finds `needle` in `hay` ignoring case, with the `regex` crate: the needle
/// is escaped by `regex::escape`, compiled by `RegexBuilder` with
/// `case_insensitive(true)`, and `Regex::find` gives the leftmost match.
/// Claimed: the result is `ci_first_match` of the two texts (also `None` when
/// the pattern does not compile), and, since a match is a range of the
/// haystack, the three pieces put together give `hay` back. Which texts count
/// as equal up to case is left unsaid.
#[verifier::external_body]
fn find_ignoring_case(hay: &str, needle: &str) -> (r: Option<(String, String, String)>)
    ensures
        split3_view(r) == ci_first_match(hay@, needle@),
        match r {
            Some((a, m, b)) => a@ + m@ + b@ == hay@,
            None => true,
        },
{
    let re = regex::RegexBuilder::new(&regex::escape(needle)).case_insensitive(true).build().ok()?;
    let m = re.find(hay)?;
    Some((hay[..m.start()].to_string(), m.as_str().to_string(), hay[m.end()..].to_string()))
}

/// The `n` lines of `cl` from index `i`, joined with `\n`, are `old`.
pub open spec fn window_matches(cl: Seq<Seq<char>>, n: int, old: Seq<char>, i: int) -> bool {
    0 <= i && i + n <= cl.len() && join(cl.subrange(i, i + n), "\n"@) == old
}

/// Some run of consecutive lines of `content`, as many as `old` has, joined
/// with `\n`, is `old`.
pub open spec fn some_window_matches(content: Seq<char>, old: Seq<char>) -> bool {
    exists|i: int| window_matches(lines(content), lines(old).len() as int, old, i)
}

/// The fuzzy replacement of `old` by `new` in `content`: the first match
/// ignoring case is replaced; failing that, when `old` is a run of whole
/// lines of `content`, every occurrence is replaced; else there is none.
pub open spec fn fuzzy_spec(content: Seq<char>, old: Seq<char>, new: Seq<char>) -> Option<Seq<char>> {
    match ci_first_match(content, old) {
        Some(t) => Some(t.0 + new + t.2),
        None => if some_window_matches(content, old) {
            Some(replace_all(content, old, new))
        } else {
            None
        },
    }
}

fn window_equals(cl: &Vec<String>, i: usize, n: usize, old: &str) -> (r: bool)
    requires
        i + n <= cl@.len(),
    ensures
        r == (join(views(cl@).subrange(i as int, i + n), "\n"@) == old@),
{
    let mut w: Vec<String> = Vec::new();
    let mut k: usize = i;
    let total = cl.len();
    assert(i + n <= total);
    let end: usize = i + n;
    while k < end
        invariant
            end == i + n,
            i <= k <= i + n,
            i + n <= cl@.len(),
            views(w@) == views(cl@).subrange(i as int, k as int),
        decreases end - k,
    {
        let ghost before = w@;
        w.push(owned(cl[k].as_str()));
        assert(views(w@) =~= views(before).push(cl@[k as int]@));
        assert(views(cl@).subrange(i as int, k + 1) =~= views(cl@).subrange(i as int, k as int).push(cl@[k as int]@));
        k = k + 1;
    }
    let joined = join_strings(&w, "\n");
    str_eq(joined.as_str(), old)
}

/// Replacement for when `old` does not occur exactly in `content`.
fn fuzzy_replace(content: &str, old: &str, new: &str) -> (r: Option<String>)
    requires
        old@.len() > 0,
    ensures
        opt_string_view(r) == fuzzy_spec(content@, old@, new@),
{
    match find_ignoring_case(content, old) {
        Some((a, _m, b)) => {
            return Some(cat3(a.as_str(), new, b.as_str()));
        },
        None => {
            assert(ci_first_match(content@, old@) is None);
        },
    }
    let ol = lines_of(old);
    let cl = lines_of(content);
    let n = ol.len();
    proof {
        lemma_lines_nonempty(old@, seq![]);
    }
    if n <= cl.len() {
        let last = cl.len() - n;
        let mut i: usize = 0;
        while i <= last
            invariant
                last + n == cl@.len(),
                n == lines(old@).len(),
                views(cl@) == lines(content@),
                cl@.len() == lines(content@).len(),
                ci_first_match(content@, old@) is None,
                forall|k: int| 0 <= k < i ==> !window_matches(lines(content@), n as int, old@, k),
            decreases last + 1 - i,
        {
            if window_equals(&cl, i, n, old) {
                assert(window_matches(lines(content@), n as int, old@, i as int));
                return Some(replace(content, old, new));
            }
            if i == last {
                assert forall|k: int| window_matches(lines(content@), n as int, old@, k) implies false by {
                    assert(0 <= k <= i);
                }
                return None;
            }
            i = i + 1;
        }
    }
    None
}

/// The text of a file after replacing `old` by `new`: appended when `old` is
/// empty, every occurrence replaced when it occurs, else the fuzzy
/// replacement, and the text unchanged when even that finds nothing.
pub open spec fn edited(original: Seq<char>, old: Seq<char>, new: Seq<char>) -> Seq<char> {
    if old.len() == 0 {
        original + new
    } else if contains(original, old) {
        replace_all(original, old, new)
    } else {
        match fuzzy_spec(original, old, new) {
            Some(c) => c,
            None => original,
        }
    }
}

/// The new text of a file whose text was `original`, for an edit of
/// `old_text` into `new_text`.
pub fn edit_content(original: &str, old_text: &str, new_text: &str) -> (r: String)
    ensures
        r@ == edited(original@, old_text@, new_text@),
{
    let ov = chars_of(old_text);
    if ov.len() == 0 {
        cat(original, new_text)
    } else if str_contains(original, old_text) {
        replace(original, old_text, new_text)
    } else {
        match fuzzy_replace(original, old_text, new_text) {
            Some(c) => c,
            None => owned(original),
        }
    }
}

/// The result of an atomic edit of the file at `file_path`, whose text was
/// `original`, backed up at `backup_path` when a backup was made: the edited
/// text and the diff from the old text to it.
pub fn edit_result(file_path: &str, original: &str, old_text: &str, new_text: &str, backup_path: Option<String>) -> (r: EditResult)
    ensures
        r.success,
        r.file_path@ == file_path@,
        r.original_content@ == original@,
        r.new_content@ == edited(original@, old_text@, new_text@),
        opt_string_view(r.backup_path) == opt_string_view(backup_path),
        r.diff@ == unified_diff(file_path@, lines(original@), lines(edited(original@, old_text@, new_text@))),
{
    let new_content = edit_content(original, old_text, new_text);
    let diff = generate_diff(original, new_content.as_str(), file_path);
    EditResult {
        success: true,
        file_path: owned(file_path),
        original_content: owned(original),
        new_content,
        backup_path,
        diff,
    }
}

/// The text after one search/replace block: every occurrence replaced when
/// the search text occurs, else the fuzzy replacement, if any.
pub open spec fn block_step(content: Seq<char>, search: Seq<char>, repl: Seq<char>) -> Option<Seq<char>> {
    if contains(content, search) {
        Some(replace_all(content, search, repl))
    } else {
        fuzzy_spec(content, search, repl)
    }
}

/// The blocks applied in order: the final text, or the search text of the
/// first block that found nothing.
pub open spec fn apply_blocks_spec(content: Seq<char>, blocks: Seq<(Seq<char>, Seq<char>)>) -> Result<Seq<char>, Seq<char>>
    decreases blocks.len(),
{
    if blocks.len() == 0 {
        Ok(content)
    } else {
        match block_step(content, blocks[0].0, blocks[0].1) {
            Some(c) => apply_blocks_spec(c, blocks.drop_first()),
            None => Err(blocks[0].0),
        }
    }
}

/// Applies the blocks in order to `content`; on failure, the search text of
/// the block that found nothing.
pub fn apply_blocks(content: &str, blocks: &Vec<SearchReplaceBlock>) -> (r: Result<String, String>)
    ensures
        match (r, apply_blocks_spec(content@, block_views(blocks@))) {
            (Ok(s), Ok(t)) => s@ == t,
            (Err(e), Err(t)) => e@ == t,
            _ => false,
        },
{
    let ghost bv = block_views(blocks@);
    let mut cur = owned(content);
    let mut i: usize = 0;
    assert(bv.subrange(0, bv.len() as int) =~= bv);
    while i < blocks.len()
        invariant
            bv == block_views(blocks@),
            i <= blocks@.len(),
            apply_blocks_spec(content@, bv) == apply_blocks_spec(cur@, bv.subrange(i as int, bv.len() as int)),
        decreases blocks.len() - i,
    {
        let ghost rest = bv.subrange(i as int, bv.len() as int);
        assert(rest[0] == (blocks@[i as int].search@, blocks@[i as int].replace@));
        assert(rest.drop_first() =~= bv.subrange(i + 1, bv.len() as int));
        let search = blocks[i].search.as_str();
        let repl = blocks[i].replace.as_str();
        if str_contains(cur.as_str(), search) {
            cur = replace(cur.as_str(), search, repl);
        } else {
            proof {
                if search@.len() == 0 {
                    assert(cur@.subrange(0, 0) =~= search@);
                    assert(occurs_at(cur@, search@, 0));
                }
            }
            match fuzzy_replace(cur.as_str(), search, repl) {
                Some(c) => {
                    cur = c;
                },
                None => {
                    return Err(owned(search));
                },
            }
        }
        i = i + 1;
    }
    assert(bv.subrange(i as int, bv.len() as int) =~= Seq::<(Seq<char>, Seq<char>)>::empty());
    Ok(cur)
}

/// The message for a search block that found nothing in the file at `file_path`.
pub open spec fn no_match_message(file_path: Seq<char>, search: Seq<char>) -> Seq<char> {
    "Failed to find exact match for search block in "@ + file_path + ":\n"@ + search
}

/// The result of applying search/replace blocks to the file at `file_path`,
/// whose text was `original`, backed up at `backup_path` when a backup was
/// made; an error naming the first block that found nothing.
pub fn search_replace_result(file_path: &str, original: &str, blocks: &Vec<SearchReplaceBlock>, backup_path: Option<String>) -> (r: Result<EditResult, String>)
    ensures
        match apply_blocks_spec(original@, block_views(blocks@)) {
            Ok(t) => r matches Ok(e) && e.success && e.file_path@ == file_path@
                && e.original_content@ == original@ && e.new_content@ == t
                && opt_string_view(e.backup_path) == opt_string_view(backup_path)
                && e.diff@ == unified_diff(file_path@, lines(original@), lines(t)),
            Err(search) => r matches Err(m) && m@ == no_match_message(file_path@, search),
        },
{
    match apply_blocks(original, blocks) {
        Ok(new_content) => {
            let diff = generate_diff(original, new_content.as_str(), file_path);
            Ok(EditResult {
                success: true,
                file_path: owned(file_path),
                original_content: owned(original),
                new_content,
                backup_path,
                diff,
            })
        },
        Err(search) => {
            let head = cat3("Failed to find exact match for search block in ", file_path, ":\n");
            Err(cat(head.as_str(), search.as_str()))
        },
    }
}

/// The blocks of a patch, or the error given for a patch with none.
pub fn patch_blocks(patch: &str) -> (r: Result<Vec<SearchReplaceBlock>, String>)
    ensures
        match r {
            Ok(b) => block_views(b@) == blocks_from(lines(patch@), 0, seq![], seq![]) && b@.len() > 0,
            Err(e) => blocks_from(lines(patch@), 0, seq![], seq![]).len() == 0
                && e@ == "Invalid patch format. Use <<<<<<< SEARCH / ======= / >>>>>>> REPLACE blocks."@,
        },
{
    let blocks = parse_search_replace_blocks(patch);
    if blocks.len() > 0 {
        Ok(blocks)
    } else {
        Err(owned("Invalid patch format. Use <<<<<<< SEARCH / ======= / >>>>>>> REPLACE blocks."))
    }
}

/// The path of the backup of `file_path` made at `timestamp` (seconds).
pub fn backup_path_for(file_path: &str, timestamp: u64) -> (r: String)
    ensures
        r@ == file_path@ + ".backup."@ + dec(timestamp as nat),
{
    let ts = u64_to_string(timestamp);
    cat3(file_path, ".backup.", ts.as_str())
}

/// The report of a successful atomic edit.
pub open spec fn edit_report(result: EditResult) -> Seq<char> {
    "\u{2705} Atomic edit successful\nFile: "@ + result.file_path@ + "\nBackup: "@
        + debug_opt_text(opt_string_view(result.backup_path)) + "\nChanges:\n"@ + result.diff@
}

/// The answer of the atomic edit command: the report of the edit, or the
/// error that stopped it.
pub fn run_atomic_edit(edited: Result<EditResult, String>) -> (r: Result<String, String>)
    ensures
        match edited {
            Ok(e) => r matches Ok(s) && s@ == edit_report(e),
            Err(e) => r matches Err(m) && m@ == e@,
        },
{
    let result = match edited {
        Ok(e) => e,
        Err(e) => return Err(e),
    };
    let b = debug_opt_str(&result.backup_path);
    let head = cat3("\u{2705} Atomic edit successful\nFile: ", result.file_path.as_str(), "\nBackup: ");
    let mid = cat3(head.as_str(), b.as_str(), "\nChanges:\n");
    Ok(cat(mid.as_str(), result.diff.as_str()))
}

} // verus!
