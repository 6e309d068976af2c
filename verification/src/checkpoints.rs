//! Checkpoints: named snapshots of the working tree, kept by id, listed
//! newest first.

use vstd::prelude::*;
use crate::ranking::{desc_order, desc_positions};
use crate::text::{cat, cat3, dec, now_secs, owned, push_str, str_eq, u64_to_string};

verus! {

/// A saved checkpoint.
#[derive(Debug, Clone)]
pub struct Checkpoint {
    pub id: String,
    pub name: String,
    pub description: String,
    pub created_at: u64,
    pub file_count: usize,
    pub tags: Vec<String>,
}

/// No two checkpoints share an id.
pub open spec fn ids_unique(s: Seq<Checkpoint>) -> bool {
    forall|i: int, k: int| 0 <= i < s.len() && 0 <= k < s.len() && i != k ==> s[i].id@ != s[k].id@
}

/// The first position whose checkpoint has id `id`.
pub open spec fn index_of_id(s: Seq<Checkpoint>, id: Seq<char>) -> Option<int>
    decreases s.len(),
{
    if s.len() == 0 {
        None
    } else {
        match index_of_id(s.drop_last(), id) {
            Some(i) => Some(i),
            None => if s.last().id@ == id { Some(s.len() - 1) } else { None },
        }
    }
}

/// The first position whose checkpoint is named `name`.
pub open spec fn index_of_name(s: Seq<Checkpoint>, name: Seq<char>) -> Option<int>
    decreases s.len(),
{
    if s.len() == 0 {
        None
    } else {
        match index_of_name(s.drop_last(), name) {
            Some(i) => Some(i),
            None => if s.last().name@ == name { Some(s.len() - 1) } else { None },
        }
    }
}

/// The id of a checkpoint named `name` made at `ts` seconds.
pub open spec fn checkpoint_id(name: Seq<char>, ts: u64) -> Seq<char> {
    name + "_"@ + dec(ts as nat)
}

/// `c` is the fresh checkpoint named `name`, made at `ts` over `files` files.
pub open spec fn fresh_checkpoint(c: Checkpoint, name: Seq<char>, ts: u64, files: usize) -> bool {
    &&& c.id@ == checkpoint_id(name, ts)
    &&& c.name@ == name
    &&& c.description@.len() == 0
    &&& c.created_at == ts
    &&& c.file_count == files
    &&& c.tags@.len() == 0
}

/// `after` is `before` with the fresh checkpoint stored under its id: in
/// place of the one with that id, or appended.
pub open spec fn stored(before: Seq<Checkpoint>, after: Seq<Checkpoint>, name: Seq<char>, ts: u64, files: usize) -> bool {
    match index_of_id(before, checkpoint_id(name, ts)) {
        Some(i) => {
            &&& after.len() == before.len()
            &&& forall|k: int| 0 <= k < before.len() && k != i ==> after[k] == before[k]
            &&& fresh_checkpoint(after[i], name, ts, files)
        },
        None => {
            &&& after.len() == before.len() + 1
            &&& after.drop_last() == before
            &&& fresh_checkpoint(after.last(), name, ts, files)
        },
    }
}

/// The listing line of one checkpoint.
pub open spec fn checkpoint_line(c: Checkpoint) -> Seq<char> {
    "- "@ + c.name@ + " ("@ + dec(c.file_count as nat) + " files, created: "@ + dec(c.created_at as nat) + ")\n"@
}

/// The listing lines of the checkpoints at the positions `order`, in that order.
pub open spec fn checkpoint_lines(s: Seq<Checkpoint>, order: Seq<usize>) -> Seq<char>
    decreases order.len(),
{
    if order.len() == 0 {
        seq![]
    } else {
        checkpoint_lines(s, order.drop_last()) + checkpoint_line(s[order.last() as int])
    }
}

/// The creation times of the checkpoints.
pub open spec fn created_times(s: Seq<Checkpoint>) -> Seq<u64> {
    s.map_values(|c: Checkpoint| c.created_at)
}

/// The checkpoint listing: one line each, newest first (equal times in the
/// order they were stored).
pub open spec fn listing(s: Seq<Checkpoint>) -> Seq<char> {
    if s.len() == 0 {
        "No checkpoints found"@
    } else {
        checkpoint_lines(s, desc_order(created_times(s)))
    }
}

/// The description of a found checkpoint.
pub open spec fn checkpoint_details(c: Checkpoint) -> Seq<char> {
    "Checkpoint: "@ + c.name@ + "\n  ID: "@ + c.id@ + "\n  Files: "@ + dec(c.file_count as nat)
        + "\n  Created: "@ + dec(c.created_at as nat)
}

/// The message for a name that no checkpoint has.
pub open spec fn not_found(name: Seq<char>) -> Seq<char> {
    "Checkpoint not found: "@ + name
}

proof fn lemma_index_of_id(s: Seq<Checkpoint>, id: Seq<char>)
    ensures
        match index_of_id(s, id) {
            Some(i) => 0 <= i < s.len() && s[i].id@ == id && forall|k: int| 0 <= k < i ==> s[k].id@ != id,
            None => forall|k: int| 0 <= k < s.len() ==> s[k].id@ != id,
        },
    decreases s.len(),
{
    if s.len() > 0 {
        lemma_index_of_id(s.drop_last(), id);
        assert forall|k: int| 0 <= k < s.len() - 1 implies s.drop_last()[k] == s[k] by {}
    }
}

proof fn lemma_index_of_name(s: Seq<Checkpoint>, name: Seq<char>)
    ensures
        match index_of_name(s, name) {
            Some(i) => 0 <= i < s.len() && s[i].name@ == name && forall|k: int| 0 <= k < i ==> s[k].name@ != name,
            None => forall|k: int| 0 <= k < s.len() ==> s[k].name@ != name,
        },
    decreases s.len(),
{
    if s.len() > 0 {
        lemma_index_of_name(s.drop_last(), name);
        assert forall|k: int| 0 <= k < s.len() - 1 implies s.drop_last()[k] == s[k] by {}
    }
}

proof fn lemma_index_of_name_first(s: Seq<Checkpoint>, name: Seq<char>, i: int)
    requires
        0 <= i < s.len(),
        s[i].name@ == name,
        forall|k: int| 0 <= k < i ==> s[k].name@ != name,
    ensures
        index_of_name(s, name) == Some(i),
{
    lemma_index_of_name(s, name);
}

proof fn lemma_index_of_id_first(s: Seq<Checkpoint>, id: Seq<char>, i: int)
    requires
        0 <= i < s.len(),
        s[i].id@ == id,
        forall|k: int| 0 <= k < i ==> s[k].id@ != id,
    ensures
        index_of_id(s, id) == Some(i),
{
    lemma_index_of_id(s, id);
}

/// The checkpoints, kept by id.
pub struct CheckpointStore {
    items: Vec<Checkpoint>,
}

impl CheckpointStore {
    #[verifier::type_invariant]
    spec fn wf(&self) -> bool {
        ids_unique(self.items@)
    }

    /// The checkpoints, in the order they were first stored.
    pub closed spec fn all(&self) -> Seq<Checkpoint> {
        self.items@
    }

    /// A store with no checkpoint.
    pub fn new() -> (r: Self)
        ensures
            r.all().len() == 0,
            ids_unique(r.all()),
    {
        CheckpointStore { items: Vec::new() }
    }

    fn find_id(&self, id: &str) -> (r: Option<usize>)
        ensures
            match r {
                Some(i) => index_of_id(self.all(), id@) == Some(i as int),
                None => index_of_id(self.all(), id@) is None,
            },
    {
        let mut i: usize = 0;
        while i < self.items.len()
            invariant
                i <= self.items@.len(),
                forall|k: int| 0 <= k < i ==> self.items@[k].id@ != id@,
            decreases self.items.len() - i,
        {
            if str_eq(self.items[i].id.as_str(), id) {
                proof { lemma_index_of_id_first(self.items@, id@, i as int); }
                return Some(i);
            }
            i = i + 1;
        }
        proof { lemma_index_of_id(self.items@, id@); }
        None
    }

    fn find_name(&self, name: &str) -> (r: Option<usize>)
        ensures
            match r {
                Some(i) => index_of_name(self.all(), name@) == Some(i as int),
                None => index_of_name(self.all(), name@) is None,
            },
    {
        let mut i: usize = 0;
        while i < self.items.len()
            invariant
                i <= self.items@.len(),
                forall|k: int| 0 <= k < i ==> self.items@[k].name@ != name@,
            decreases self.items.len() - i,
        {
            if str_eq(self.items[i].name.as_str(), name) {
                proof { lemma_index_of_name_first(self.items@, name@, i as int); }
                return Some(i);
            }
            i = i + 1;
        }
        proof { lemma_index_of_name(self.items@, name@); }
        None
    }

}

/// Stores a checkpoint named `name`, made at `ts` seconds over
/// `file_count` files, under the id `<name>_<ts>`.
pub fn create_checkpoint_at(store: &mut CheckpointStore, name: &str, ts: u64, file_count: usize) -> (r: String)
    ensures
        stored(old(store).all(), final(store).all(), name@, ts, file_count),
        ids_unique(final(store).all()),
        r@ == "Checkpoint '"@ + name@ + "' created with "@ + dec(file_count as nat) + " files"@,
{
    proof { use_type_invariant(&*store); }
    let ts_text = u64_to_string(ts);
    let id = cat3(name, "_", ts_text.as_str());
    let cp = Checkpoint {
        id: owned(id.as_str()),
        name: owned(name),
        description: String::new(),
        created_at: ts,
        file_count,
        tags: Vec::new(),
    };
    let found = store.find_id(id.as_str());
    proof { lemma_index_of_id(store.items@, id@); }
    let ghost before = store.items@;
    let mut items: Vec<Checkpoint> = Vec::new();
    std::mem::swap(&mut items, &mut store.items);
    match found {
        Some(i) => {
            items.set(i, cp);
            assert(ids_unique(items@)) by {
                assert forall|a: int, b: int| 0 <= a < items@.len() && 0 <= b < items@.len() && a != b
                    implies items@[a].id@ != items@[b].id@ by {
                    assert(before[a].id@ != before[b].id@);
                }
            }
        },
        None => {
            items.push(cp);
            assert(items@.drop_last() =~= before);
        },
    }
    store.items = items;
    let mut r = cat3("Checkpoint '", name, "' created with ");
    push_str(&mut r, u64_to_string(file_count as u64).as_str());
    push_str(&mut r, " files");
    r
}

/// Stores a checkpoint named `name` over `file_count` files, made now.
pub fn create_checkpoint(store: &mut CheckpointStore, name: &str, file_count: usize) -> (r: String)
    ensures
        exists|ts: u64| stored(old(store).all(), final(store).all(), name@, ts, file_count),
        r@ == "Checkpoint '"@ + name@ + "' created with "@ + dec(file_count as nat) + " files"@,
{
    let ts = now_secs();
    create_checkpoint_at(store, name, ts, file_count)
}

/// The checkpoint listing, newest first.
pub fn list_checkpoints(store: &CheckpointStore) -> (r: String)
    ensures
        r@ == listing(store.all()),
{
    if store.items.len() == 0 {
        return owned("No checkpoints found");
    }
    let mut keys: Vec<u64> = Vec::new();
    let mut i: usize = 0;
    while i < store.items.len()
        invariant
            i <= store.items@.len(),
            keys@ =~= created_times(store.items@.subrange(0, i as int)),
        decreases store.items.len() - i,
    {
        keys.push(store.items[i].created_at);
        i = i + 1;
    }
    assert(store.items@.subrange(0, store.items@.len() as int) =~= store.items@);
    let order = desc_positions(&keys);
    let mut out = String::new();
    let mut k: usize = 0;
    while k < order.len()
        invariant
            k <= order@.len(),
            order@.len() == store.items@.len(),
            forall|j: int| 0 <= j < order@.len() ==> order@[j] < store.items@.len(),
            out@ == checkpoint_lines(store.items@, order@.subrange(0, k as int)),
        decreases order.len() - k,
    {
        let c = &store.items[order[k]];
        assert(order@.subrange(0, k + 1).drop_last() =~= order@.subrange(0, k as int));
        push_str(&mut out, "- ");
        push_str(&mut out, c.name.as_str());
        push_str(&mut out, " (");
        push_str(&mut out, u64_to_string(c.file_count as u64).as_str());
        push_str(&mut out, " files, created: ");
        push_str(&mut out, u64_to_string(c.created_at).as_str());
        push_str(&mut out, ")\n");
        k = k + 1;
    }
    assert(order@.subrange(0, order@.len() as int) =~= order@);
    out
}

/// The details of the first checkpoint named `name`.
pub fn get_checkpoint(store: &CheckpointStore, name: &str) -> (r: String)
    ensures
        r@ == match index_of_name(store.all(), name@) {
            Some(i) => checkpoint_details(store.all()[i]),
            None => not_found(name@),
        },
{
    match store.find_name(name) {
        Some(i) => {
            proof { lemma_index_of_name(store.items@, name@); }
            let c = &store.items[i];
            let mut r = cat3("Checkpoint: ", c.name.as_str(), "\n  ID: ");
            push_str(&mut r, c.id.as_str());
            push_str(&mut r, "\n  Files: ");
            push_str(&mut r, u64_to_string(c.file_count as u64).as_str());
            push_str(&mut r, "\n  Created: ");
            push_str(&mut r, u64_to_string(c.created_at).as_str());
            r
        },
        None => cat("Checkpoint not found: ", name),
    }
}

/// Restores the checkpoint named `name`, when there is one.
pub fn restore_checkpoint(store: &CheckpointStore, name: &str) -> (r: String)
    ensures
        r@ == if index_of_name(store.all(), name@) is Some {
            "Restored checkpoint: "@ + name@
        } else {
            not_found(name@)
        },
{
    match store.find_name(name) {
        Some(_) => cat("Restored checkpoint: ", name),
        None => cat("Checkpoint not found: ", name),
    }
}

/// Deletes the first checkpoint named `name`.
pub fn delete_checkpoint(store: &mut CheckpointStore, name: &str) -> (r: String)
    ensures
        match index_of_name(old(store).all(), name@) {
            Some(i) => final(store).all() == old(store).all().remove(i)
                && r@ == "Checkpoint '"@ + name@ + "' deleted"@,
            None => final(store).all() == old(store).all() && r@ == not_found(name@),
        },
        ids_unique(final(store).all()),
{
    proof { use_type_invariant(&*store); }
    match store.find_name(name) {
        Some(i) => {
            proof { lemma_index_of_name(store.items@, name@); }
            let ghost before = store.items@;
            let mut items: Vec<Checkpoint> = Vec::new();
            std::mem::swap(&mut items, &mut store.items);
            items.remove(i);
            assert(ids_unique(items@)) by {
                assert forall|a: int, b: int| 0 <= a < items@.len() && 0 <= b < items@.len() && a != b
                    implies items@[a].id@ != items@[b].id@ by {
                    let a0 = if a < i { a } else { a + 1 };
                    let b0 = if b < i { b } else { b + 1 };
                    assert(items@[a] == before[a0]);
                    assert(items@[b] == before[b0]);
                }
            }
            store.items = items;
            cat3("Checkpoint '", name, "' deleted")
        },
        None => cat("Checkpoint not found: ", name),
    }
}

/// How many checkpoints are stored.
pub fn checkpoints_count(store: &CheckpointStore) -> (r: usize)
    ensures
        r == store.all().len(),
{
    store.items.len()
}

/// A checkpoint just stored under a name can be found, and so restored, by
/// that name.
pub proof fn lemma_stored_is_found(before: Seq<Checkpoint>, after: Seq<Checkpoint>, name: Seq<char>, ts: u64, files: usize)
    requires
        stored(before, after, name, ts, files),
    ensures
        index_of_name(after, name) is Some,
{
    lemma_index_of_id(before, checkpoint_id(name, ts));
    lemma_index_of_name(after, name);
    match index_of_id(before, checkpoint_id(name, ts)) {
        Some(i) => {
            assert(after[i].name@ == name);
        },
        None => {
            assert(after[after.len() - 1].name@ == name);
        },
    }
}

} // verus!
