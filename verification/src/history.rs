//! Command history: entries kept in memory and stored one per line as
//! tab-separated fields.

use vstd::prelude::*;
use crate::text::{
    contains, occurs_at, dec, dec_int, i32_to_string, lemma_parse_dec_i32, lemma_parse_dec_u64, lines,
    lines_of, now_secs, owned, parse_i32, parse_i32_spec, parse_u64, parse_u64_spec, push_str,
    split_acc, split_char, split_on, str_contains, u64_to_string, views,
};

verus! {

/// One executed command.
#[derive(Clone)]
pub struct HistoryEntry {
    pub timestamp: u64,
    pub command: String,
    pub exit_code: i32,
    pub duration_ms: u64,
}

/// The abstract value of an entry: its numbers and the characters of its command.
pub struct EntryView {
    pub timestamp: u64,
    pub command: Seq<char>,
    pub exit_code: i32,
    pub duration_ms: u64,
}

impl View for HistoryEntry {
    type V = EntryView;

    open spec fn view(&self) -> EntryView {
        EntryView {
            timestamp: self.timestamp,
            command: self.command@,
            exit_code: self.exit_code,
            duration_ms: self.duration_ms,
        }
    }
}

/// The stored line of an entry: timestamp, command, exit code and duration,
/// separated by tabs.
pub open spec fn entry_line(e: EntryView) -> Seq<char> {
    dec(e.timestamp as nat) + "\t"@ + e.command + "\t"@ + dec_int(e.exit_code as int) + "\t"@
        + dec(e.duration_ms as nat)
}

/// What a stored line reads back as: at least four tab-separated fields, of
/// which the first, third and fourth parse as numbers.
pub open spec fn parse_line(line: Seq<char>) -> Option<EntryView> {
    let parts = split_char(line, '\t');
    if parts.len() >= 4 && parse_u64_spec(parts[0]) is Some && parse_i32_spec(parts[2]) is Some
        && parse_u64_spec(parts[3]) is Some {
        Some(
            EntryView {
                timestamp: parse_u64_spec(parts[0])->0,
                command: parts[1],
                exit_code: parse_i32_spec(parts[2])->0,
                duration_ms: parse_u64_spec(parts[3])->0,
            },
        )
    } else {
        None
    }
}

impl HistoryEntry {
    fn duplicate(&self) -> (r: Self)
        ensures
            r@ == self@,
    {
        HistoryEntry {
            timestamp: self.timestamp,
            command: self.command.clone(),
            exit_code: self.exit_code,
            duration_ms: self.duration_ms,
        }
    }

    /// Reads an entry back from its stored line.
    pub fn from_line(line: &str) -> (r: Option<Self>)
        ensures
            match r {
                Some(e) => parse_line(line@) == Some(e@),
                None => parse_line(line@) is None,
            },
    {
        let parts = split_on(line, '\t');
        if parts.len() >= 4 {
            assert(parts@[0]@ == views(parts@)[0]);
            assert(parts@[1]@ == views(parts@)[1]);
            assert(parts@[2]@ == views(parts@)[2]);
            assert(parts@[3]@ == views(parts@)[3]);
            let timestamp = match parse_u64(parts[0].as_str()) {
                Some(t) => t,
                None => return None,
            };
            let exit_code = match parse_i32(parts[2].as_str()) {
                Some(c) => c,
                None => return None,
            };
            let duration_ms = match parse_u64(parts[3].as_str()) {
                Some(d) => d,
                None => return None,
            };
            Some(HistoryEntry { timestamp, command: owned(parts[1].as_str()), exit_code, duration_ms })
        } else {
            None
        }
    }

    /// The stored line of this entry.
    pub fn to_line(&self) -> (r: String)
        ensures
            r@ == entry_line(self@),
    {
        let mut r = u64_to_string(self.timestamp);
        push_str(&mut r, "\t");
        push_str(&mut r, self.command.as_str());
        push_str(&mut r, "\t");
        let code = i32_to_string(self.exit_code);
        push_str(&mut r, code.as_str());
        push_str(&mut r, "\t");
        let dur = u64_to_string(self.duration_ms);
        push_str(&mut r, dur.as_str());
        r
    }
}

proof fn lemma_split_no_sep(x: Seq<char>, c: char, cur: Seq<char>)
    requires
        !x.contains(c),
    ensures
        split_acc(x, c, cur) == seq![cur + x],
    decreases x.len(),
{
    if x.len() == 0 {
        assert(cur + x =~= cur);
    } else {
        assert(!x.drop_first().contains(c)) by {
            if x.drop_first().contains(c) {
                let k = choose|k: int| 0 <= k < x.drop_first().len() && x.drop_first()[k] == c;
                assert(x[k + 1] == c);
            }
        }
        assert(x[0] != c);
        lemma_split_no_sep(x.drop_first(), c, cur.push(x[0]));
        assert(cur.push(x[0]) + x.drop_first() =~= cur + x);
    }
}

proof fn lemma_split_at_sep(x: Seq<char>, y: Seq<char>, c: char, cur: Seq<char>)
    requires
        !x.contains(c),
    ensures
        split_acc(x + seq![c] + y, c, cur) == seq![cur + x] + split_acc(y, c, seq![]),
    decreases x.len(),
{
    let s = x + seq![c] + y;
    if x.len() == 0 {
        assert(s[0] == c);
        assert(s.drop_first() =~= y);
        assert(cur + x =~= cur);
    } else {
        assert(!x.drop_first().contains(c)) by {
            if x.drop_first().contains(c) {
                let k = choose|k: int| 0 <= k < x.drop_first().len() && x.drop_first()[k] == c;
                assert(x[k + 1] == c);
            }
        }
        assert(s[0] == x[0]);
        assert(x[0] != c);
        assert(s.drop_first() =~= x.drop_first() + seq![c] + y);
        lemma_split_at_sep(x.drop_first(), y, c, cur.push(x[0]));
        assert(cur.push(x[0]) + x.drop_first() =~= cur + x);
    }
}

proof fn lemma_no_tab_in_numbers(n: nat, x: int)
    ensures
        !dec(n).contains('\t'),
        !dec_int(x).contains('\t'),
{
    crate::text::lemma_dec_digits(n);
    assert(!dec(n).contains('\t')) by {
        if dec(n).contains('\t') {
            let k = choose|k: int| 0 <= k < dec(n).len() && dec(n)[k] == '\t';
            assert(crate::text::is_digit(dec(n)[k]));
        }
    }
    if x < 0 {
        let m = (0 - x) as nat;
        crate::text::lemma_dec_digits(m);
        assert(!dec_int(x).contains('\t')) by {
            if dec_int(x).contains('\t') {
                let k = choose|k: int| 0 <= k < dec_int(x).len() && dec_int(x)[k] == '\t';
                if k > 0 {
                    assert(dec_int(x)[k] == dec(m)[k - 1]);
                    assert(crate::text::is_digit(dec(m)[k - 1]));
                }
            }
        }
    } else {
        crate::text::lemma_dec_digits(x as nat);
        assert(!dec_int(x).contains('\t')) by {
            if dec_int(x).contains('\t') {
                let k = choose|k: int| 0 <= k < dec_int(x).len() && dec_int(x)[k] == '\t';
                assert(crate::text::is_digit(dec(x as nat)[k]));
            }
        }
    }
}

/// Storing an entry and reading the line back gives the same entry, as long
/// as its command holds no tab.
pub proof fn lemma_line_round_trip(e: EntryView)
    requires
        !e.command.contains('\t'),
    ensures
        parse_line(entry_line(e)) == Some(e),
{
    let a = dec(e.timestamp as nat);
    let b = e.command;
    let c = dec_int(e.exit_code as int);
    let d = dec(e.duration_ms as nat);
    lemma_no_tab_in_numbers(e.timestamp as nat, e.exit_code as int);
    lemma_no_tab_in_numbers(e.duration_ms as nat, 0);
    let t = seq!['\t'];
    assert("\t"@ == t) by {
        reveal_strlit("\t");
    }
    let line = entry_line(e);
    assert(line =~= a + t + (b + t + (c + t + d)));
    lemma_split_at_sep(a, b + t + (c + t + d), '\t', seq![]);
    lemma_split_at_sep(b, c + t + d, '\t', seq![]);
    lemma_split_at_sep(c, d, '\t', seq![]);
    lemma_split_no_sep(d, '\t', seq![]);
    let parts = split_char(line, '\t');
    assert(seq![] + a =~= a);
    assert(seq![] + b =~= b);
    assert(seq![] + c =~= c);
    assert(seq![] + d =~= d);
    assert(parts =~= seq![a, b, c, d]);
    lemma_parse_dec_u64(e.timestamp);
    lemma_parse_dec_i32(e.exit_code);
    lemma_parse_dec_u64(e.duration_ms);
}


/// The history of one user: where it is stored and the entries, oldest first.
pub struct History {
    path: String,
    commands: Vec<HistoryEntry>,
}

/// The entries that `lines` read back as, in order, unreadable lines skipped.
pub open spec fn parsed_entries(ls: Seq<Seq<char>>) -> Seq<EntryView>
    decreases ls.len(),
{
    if ls.len() == 0 {
        seq![]
    } else {
        let rest = parsed_entries(ls.drop_last());
        match parse_line(ls.last()) {
            Some(e) => rest.push(e),
            None => rest,
        }
    }
}

/// The views of a sequence of entries.
pub open spec fn entry_views(v: Seq<HistoryEntry>) -> Seq<EntryView> {
    v.map_values(|e: HistoryEntry| e@)
}

/// The entries whose command contains `query`, in order.
pub open spec fn matching(v: Seq<EntryView>, query: Seq<char>) -> Seq<EntryView>
    decreases v.len(),
{
    if v.len() == 0 {
        seq![]
    } else {
        let rest = matching(v.drop_last(), query);
        if contains(v.last().command, query) {
            rest.push(v.last())
        } else {
            rest
        }
    }
}

/// `q` stands at some position of `c`.
pub open spec fn occurs_somewhere(c: Seq<char>, q: Seq<char>) -> bool {
    exists|i: int| 0 <= i && i + q.len() <= c.len() && #[trigger] c.subrange(i, i + q.len()) == q
}

/// A search keeps exactly the entries whose command has the query somewhere
/// in it (at any position, not only at the start), in their stored order:
/// every entry whose command holds the query is found, and every entry found
/// is a stored one whose command holds it.
pub proof fn lemma_search_finds_query_anywhere(v: Seq<EntryView>, query: Seq<char>)
    ensures
        forall|e: EntryView| #[trigger] matching(v, query).contains(e)
            <==> (v.contains(e) && occurs_somewhere(e.command, query)),
        matching(v, query).len() <= v.len(),
        (forall|k: int| 0 <= k < v.len() ==> occurs_somewhere(#[trigger] v[k].command, query)) ==> matching(v, query) == v,
    decreases v.len(),
{
    if v.len() > 0 {
        let d = v.drop_last();
        lemma_search_finds_query_anywhere(d, query);
        let last = v.last();
        assert(occurs_somewhere(last.command, query) <==> contains(last.command, query)) by {
            if occurs_somewhere(last.command, query) {
                let i = choose|i: int| 0 <= i && i + query.len() <= last.command.len()
                    && #[trigger] last.command.subrange(i, i + query.len()) == query;
                assert(occurs_at(last.command, query, i));
            }
            if contains(last.command, query) {
                let i = choose|i: int| occurs_at(last.command, query, i);
                assert(last.command.subrange(i, i + query.len()) == query);
            }
        }
        assert forall|e: EntryView| #[trigger] matching(v, query).contains(e)
            <==> (v.contains(e) && occurs_somewhere(e.command, query)) by {
            if matching(v, query).contains(e) {
                if matching(d, query).contains(e) {
                    let j = choose|j: int| 0 <= j < d.len() && d[j] == e;
                    assert(v[j] == e);
                } else {
                    assert(matching(v, query) == matching(d, query).push(last));
                    let a = choose|a: int| 0 <= a < matching(v, query).len() && matching(v, query)[a] == e;
                    if a < matching(d, query).len() {
                        assert(matching(d, query)[a] == e);
                    }
                    assert(e == last);
                    assert(v[v.len() - 1] == e);
                }
            }
            if v.contains(e) && occurs_somewhere(e.command, query) {
                let j = choose|j: int| 0 <= j < v.len() && v[j] == e;
                if j < v.len() - 1 {
                    assert(d[j] == e);
                    assert(matching(d, query).contains(e));
                    let a = choose|a: int| 0 <= a < matching(d, query).len() && matching(d, query)[a] == e;
                    assert(matching(v, query)[a] == e);
                } else {
                    assert(matching(v, query) == matching(d, query).push(e));
                    assert(matching(v, query)[matching(d, query).len() as int] == e);
                }
            }
        }
        if forall|k: int| 0 <= k < v.len() ==> occurs_somewhere(#[trigger] v[k].command, query) {
            assert forall|k: int| 0 <= k < d.len() implies occurs_somewhere(#[trigger] d[k].command, query) by {
                assert(d[k] == v[k]);
            }
            assert(occurs_somewhere(v[v.len() - 1].command, query));
            assert(v =~= d.push(last));
        }
    }
}

/// Searching a history made of two parts finds what searching the first
/// part finds, followed by what searching the second finds: the search
/// keeps the stored order.
pub proof fn lemma_search_keeps_order(v: Seq<EntryView>, w: Seq<EntryView>, query: Seq<char>)
    ensures
        matching(v + w, query) == matching(v, query) + matching(w, query),
    decreases w.len(),
{
    if w.len() == 0 {
        assert(v + w =~= v);
        assert(matching(v, query) + matching(w, query) =~= matching(v, query));
    } else {
        lemma_search_keeps_order(v, w.drop_last(), query);
        assert((v + w).drop_last() =~= v + w.drop_last());
        assert((v + w).last() == w.last());
        if contains(w.last().command, query) {
            assert(matching(v, query) + matching(w, query) =~= (matching(v, query) + matching(w.drop_last(), query)).push(w.last()));
        }
    }
}

impl History {
    /// The history stored at `path`, whose stored text is `contents` (empty
    /// when the file cannot be read): one entry for each line that reads back.
    pub fn new(path: &str, contents: &str) -> (r: Self)
        ensures
            r.path()@ == path@,
            entry_views(r.entries()@) == parsed_entries(lines(contents@)),
    {
        let ls = lines_of(contents);
        let mut commands: Vec<HistoryEntry> = Vec::new();
        let mut i: usize = 0;
        while i < ls.len()
            invariant
                i <= ls@.len(),
                views(ls@) == lines(contents@),
                entry_views(commands@) == parsed_entries(views(ls@).subrange(0, i as int)),
            decreases ls.len() - i,
        {
            assert(views(ls@).subrange(0, i + 1).drop_last() =~= views(ls@).subrange(0, i as int));
            assert(views(ls@).subrange(0, i + 1).last() == ls@[i as int]@);
            let ghost old_c = commands@;
            match HistoryEntry::from_line(ls[i].as_str()) {
                Some(e) => {
                    commands.push(e);
                    assert(entry_views(commands@) =~= entry_views(old_c).push(e@));
                }
                None => {}
            }
            i = i + 1;
        }
        assert(views(ls@).subrange(0, ls@.len() as int) =~= views(ls@));
        History { path: owned(path), commands }
    }

    /// Where this history is stored.
    pub closed spec fn path(&self) -> String {
        self.path
    }

    /// The entries, oldest first.
    pub closed spec fn entries(&self) -> Vec<HistoryEntry> {
        self.commands
    }

    /// Where this history is stored.
    pub fn storage_path(&self) -> (r: &str)
        ensures
            r@ == self.path()@,
    {
        self.path.as_str()
    }

    /// Records a command run now, with its exit code and duration.
    pub fn add(&mut self, command: String, exit_code: i32, duration_ms: u64)
        ensures
            final(self).path() == old(self).path(),
            final(self).entries()@.len() == old(self).entries()@.len() + 1,
            final(self).entries()@.drop_last() == old(self).entries()@,
            final(self).entries()@.last().command@ == command@,
            final(self).entries()@.last().exit_code == exit_code,
            final(self).entries()@.last().duration_ms == duration_ms,
    {
        let timestamp = now_secs();
        self.commands.push(HistoryEntry { timestamp, command, exit_code, duration_ms });
        assert(self.commands@.drop_last() =~= old(self).commands@);
    }

    /// The text this history is stored as: one line per entry, each ended by a newline.
    pub fn contents(&self) -> (r: String)
        ensures
            r@ == stored_text(entry_views(self.entries()@)),
    {
        let mut out = String::new();
        let mut i: usize = 0;
        while i < self.commands.len()
            invariant
                i <= self.commands@.len(),
                out@ == stored_text(entry_views(self.commands@).subrange(0, i as int)),
            decreases self.commands.len() - i,
        {
            assert(entry_views(self.commands@).subrange(0, i + 1).drop_last() =~= entry_views(self.commands@).subrange(0, i as int));
            let line = self.commands[i].to_line();
            push_str(&mut out, line.as_str());
            push_str(&mut out, "\n");
            i = i + 1;
        }
        assert(entry_views(self.commands@).subrange(0, self.commands@.len() as int) =~= entry_views(self.commands@));
        out
    }

    /// The entries whose command contains `query`, oldest first.
    pub fn search(&self, query: &str) -> (r: Vec<&HistoryEntry>)
        ensures
            r@.map_values(|e: &HistoryEntry| e@) == matching(entry_views(self.entries()@), query@),
    {
        let mut out: Vec<&HistoryEntry> = Vec::new();
        let mut i: usize = 0;
        while i < self.commands.len()
            invariant
                i <= self.commands@.len(),
                out@.map_values(|e: &HistoryEntry| e@) == matching(entry_views(self.commands@).subrange(0, i as int), query@),
            decreases self.commands.len() - i,
        {
            assert(entry_views(self.commands@).subrange(0, i + 1).drop_last() =~= entry_views(self.commands@).subrange(0, i as int));
            let ghost old_out = out@;
            if str_contains(self.commands[i].command.as_str(), query) {
                out.push(&self.commands[i]);
                assert(out@.map_values(|e: &HistoryEntry| e@) =~= old_out.map_values(|e: &HistoryEntry| e@).push(self.commands@[i as int]@));
            }
            i = i + 1;
        }
        assert(entry_views(self.commands@).subrange(0, self.commands@.len() as int) =~= entry_views(self.commands@));
        out
    }

    /// The last `n` entries, newest first.
    pub fn recent(&self, n: usize) -> (r: Vec<&HistoryEntry>)
        ensures
            r@.len() == if n < self.entries()@.len() { n as int } else { self.entries()@.len() as int },
            forall|k: int| 0 <= k < r@.len() ==> *r@[k] == self.entries()@[self.entries()@.len() - 1 - k],
    {
        let mut out: Vec<&HistoryEntry> = Vec::new();
        let len = self.commands.len();
        let mut k: usize = 0;
        while k < n && k < len
            invariant
                len == self.commands@.len(),
                k <= len,
                k <= n,
                out@.len() == k,
                forall|j: int| 0 <= j < k ==> *out@[j] == self.commands@[len - 1 - j],
            decreases len - k,
        {
            out.push(&self.commands[len - 1 - k]);
            k = k + 1;
        }
        out
    }

    /// Removes every entry.
    pub fn clear(&mut self)
        ensures
            final(self).path() == old(self).path(),
            final(self).entries()@.len() == 0,
    {
        self.commands.clear();
    }
}

/// The stored text of a sequence of entries.
pub open spec fn stored_text(v: Seq<EntryView>) -> Seq<char>
    decreases v.len(),
{
    if v.len() == 0 {
        seq![]
    } else {
        stored_text(v.drop_last()) + entry_line(v.last()) + "\n"@
    }
}

/// Records a command in the history, when one is open (`None` stands for a
/// history that has not been opened yet, and then nothing is recorded).
pub fn add_history(history: &mut Option<History>, command: String, exit_code: i32, duration_ms: u64)
    ensures
        (*old(history)) is None ==> (*final(history)) is None,
        (*old(history)) is Some ==> (*final(history)) is Some
            && (*final(history))->0.entries()@.drop_last() == (*old(history))->0.entries()@
            && (*final(history))->0.entries()@.len() == (*old(history))->0.entries()@.len() + 1
            && (*final(history))->0.entries()@.last().command@ == command@
            && (*final(history))->0.entries()@.last().exit_code == exit_code
            && (*final(history))->0.entries()@.last().duration_ms == duration_ms,
{
    match history {
        Some(h) => h.add(command, exit_code, duration_ms),
        None => {}
    }
}

/// Every recorded entry, oldest first (none when no history is open).
pub fn get_history(history: &Option<History>) -> (r: Vec<HistoryEntry>)
    ensures
        entry_views(r@) == match history {
            Some(h) => entry_views(h.entries()@),
            None => Seq::<EntryView>::empty(),
        },
{
    let mut out: Vec<HistoryEntry> = Vec::new();
    match history {
        Some(h) => {
            let mut i: usize = 0;
            while i < h.commands.len()
                invariant
                    i <= h.commands@.len(),
                    entry_views(out@) =~= entry_views(h.commands@).subrange(0, i as int),
                decreases h.commands.len() - i,
            {
                let ghost old_out = out@;
                let e = h.commands[i].duplicate();
                out.push(e);
                assert(entry_views(out@) =~= entry_views(old_out).push(h.commands@[i as int]@));
                assert(entry_views(h.commands@).subrange(0, i + 1) =~= entry_views(h.commands@).subrange(0, i as int).push(h.commands@[i as int]@));
                i = i + 1;
            }
            assert(entry_views(h.commands@).subrange(0, h.commands@.len() as int) =~= entry_views(h.commands@));
        }
        None => {
            assert(entry_views(out@) =~= Seq::<EntryView>::empty());
        }
    }
    out
}

/// The recorded entries whose command contains `query`, oldest first.
pub fn search_history(history: &Option<History>, query: &str) -> (r: Vec<HistoryEntry>)
    ensures
        entry_views(r@) == match history {
            Some(h) => matching(entry_views(h.entries()@), query@),
            None => Seq::<EntryView>::empty(),
        },
{
    let mut out: Vec<HistoryEntry> = Vec::new();
    match history {
        Some(h) => {
            let found = h.search(query);
            let mut i: usize = 0;
            while i < found.len()
                invariant
                    i <= found@.len(),
                    entry_views(out@) =~= found@.map_values(|e: &HistoryEntry| e@).subrange(0, i as int),
                decreases found.len() - i,
            {
                let ghost old_out = out@;
                let e = found[i].duplicate();
                out.push(e);
                assert(entry_views(out@) =~= entry_views(old_out).push(found@[i as int]@));
                assert(found@.map_values(|e: &HistoryEntry| e@).subrange(0, i + 1) =~= found@.map_values(|e: &HistoryEntry| e@).subrange(0, i as int).push(found@[i as int]@));
                i = i + 1;
            }
            assert(found@.map_values(|e: &HistoryEntry| e@).subrange(0, found@.len() as int) =~= found@.map_values(|e: &HistoryEntry| e@));
        }
        None => {
            assert(entry_views(out@) =~= Seq::<EntryView>::empty());
        }
    }
    out
}

/// Removes every recorded entry.
pub fn clear_history(history: &mut Option<History>)
    ensures
        (*old(history)) is None ==> (*final(history)) is None,
        (*old(history)) is Some ==> (*final(history)) is Some && (*final(history))->0.entries()@.len() == 0
            && (*final(history))->0.path() == (*old(history))->0.path(),
{
    match history {
        Some(h) => h.clear(),
        None => {}
    }
}

} // verus!
