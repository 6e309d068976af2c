//! The knowledge graph: facts about code kept by id, with the ids they relate
//! to, and recall by text or by semantic match.

use vstd::prelude::*;
use crate::text::{contains, owned, str_contains, str_eq, views};

verus! {

/// A learned fact.
#[derive(Debug, Clone)]
pub struct KnowledgeNode {
    pub id: String,
    pub content: String,
    pub metadata: Vec<(String, String)>,
    pub relations: Vec<String>,
}

/// The learned facts.
pub struct KnowledgeGraph {
    pub nodes: Vec<KnowledgeNode>,
}

/// The position of the node with id `id`.
pub open spec fn node_index(s: Seq<KnowledgeNode>, id: Seq<char>) -> Option<int>
    decreases s.len(),
{
    if s.len() == 0 {
        None
    } else {
        match node_index(s.drop_last(), id) {
            Some(i) => Some(i),
            None => if s.last().id@ == id { Some(s.len() - 1) } else { None },
        }
    }
}

proof fn lemma_node_index(s: Seq<KnowledgeNode>, id: Seq<char>)
    ensures
        match node_index(s, id) {
            Some(i) => 0 <= i < s.len() && s[i].id@ == id && forall|k: int| 0 <= k < i ==> s[k].id@ != id,
            None => forall|k: int| 0 <= k < s.len() ==> s[k].id@ != id,
        },
    decreases s.len(),
{
    if s.len() > 0 {
        lemma_node_index(s.drop_last(), id);
        assert forall|k: int| 0 <= k < s.len() - 1 implies s.drop_last()[k] == s[k] by {}
    }
}

fn find_node(v: &Vec<KnowledgeNode>, id: &str) -> (r: Option<usize>)
    ensures
        match r {
            Some(i) => i < v@.len() && node_index(v@, id@) == Some(i as int),
            None => node_index(v@, id@) is None,
        },
{
    proof { lemma_node_index(v@, id@); }
    let mut i: usize = 0;
    while i < v.len()
        invariant
            i <= v@.len(),
            forall|k: int| 0 <= k < i ==> v@[k].id@ != id@,
            match node_index(v@, id@) {
                Some(j) => 0 <= j < v@.len() && v@[j].id@ == id@ && forall|k: int| 0 <= k < j ==> v@[k].id@ != id@,
                None => forall|k: int| 0 <= k < v@.len() ==> v@[k].id@ != id@,
            },
        decreases v.len() - i,
    {
        if str_eq(v[i].id.as_str(), id) {
            return Some(i);
        }
        i = i + 1;
    }
    None
}

/// `n` is the node learned as `id` with `content` and `relations`, with no
/// metadata.
pub open spec fn learned_node(n: KnowledgeNode, id: Seq<char>, content: Seq<char>, relations: Seq<String>) -> bool {
    n.id@ == id && n.content@ == content && n.metadata@.len() == 0 && n.relations@ == relations
}

/// The semantic matches name the node, or its content holds the query.
pub open spec fn recalled(n: KnowledgeNode, query: Seq<char>, semantic: Seq<Seq<char>>) -> bool {
    semantic.contains(n.id@) || contains(n.content@, query)
}

/// The positions of the nodes that a recall returns, in stored order.
pub open spec fn recall_positions(s: Seq<KnowledgeNode>, query: Seq<char>, semantic: Seq<Seq<char>>) -> Seq<int>
    decreases s.len(),
{
    if s.len() == 0 {
        seq![]
    } else if recalled(s.last(), query, semantic) {
        recall_positions(s.drop_last(), query, semantic).push(s.len() - 1)
    } else {
        recall_positions(s.drop_last(), query, semantic)
    }
}

fn holds(v: &Vec<String>, x: &str) -> (r: bool)
    ensures
        r == views(v@).contains(x@),
{
    let mut k: usize = 0;
    while k < v.len()
        invariant
            k <= v@.len(),
            forall|j: int| 0 <= j < k ==> v@[j]@ != x@,
        decreases v.len() - k,
    {
        if str_eq(v[k].as_str(), x) {
            assert(views(v@)[k as int] == x@);
            return true;
        }
        k = k + 1;
    }
    assert forall|j: int| 0 <= j < views(v@).len() implies views(v@)[j] != x@ by {
        assert(views(v@)[j] == v@[j]@);
    }
    false
}

impl KnowledgeGraph {
    /// A graph with no fact.
    pub fn new() -> (r: Self)
        ensures
            r.nodes@.len() == 0,
    {
        KnowledgeGraph { nodes: Vec::new() }
    }

    /// Learns a fact under `id`, in place of an earlier fact with that id.
    pub fn learn(&mut self, id: &str, content: &str, relations: Vec<String>)
        ensures
            match node_index(old(self).nodes@, id@) {
                Some(i) => final(self).nodes@.len() == old(self).nodes@.len()
                    && (forall|k: int| 0 <= k < old(self).nodes@.len() && k != i ==> final(self).nodes@[k] == old(self).nodes@[k])
                    && learned_node(final(self).nodes@[i], id@, content@, relations@),
                None => final(self).nodes@.drop_last() == old(self).nodes@
                    && final(self).nodes@.len() == old(self).nodes@.len() + 1
                    && learned_node(final(self).nodes@.last(), id@, content@, relations@),
            },
    {
        let node = KnowledgeNode { id: owned(id), content: owned(content), metadata: Vec::new(), relations };
        match find_node(&self.nodes, id) {
            Some(i) => {
                self.nodes.set(i, node);
            },
            None => {
                let ghost before = self.nodes@;
                self.nodes.push(node);
                assert(self.nodes@.drop_last() =~= before);
            },
        }
    }

    /// The facts that the semantic matches name or whose content holds the
    /// query, in stored order.
    pub fn recall(&self, query: &str, semantic_ids: &Vec<String>) -> (r: Vec<&KnowledgeNode>)
        ensures
            r@.len() == recall_positions(self.nodes@, query@, views(semantic_ids@)).len(),
            forall|k: int| 0 <= k < r@.len() ==> *r@[k] == self.nodes@[recall_positions(self.nodes@, query@, views(semantic_ids@))[k]],
    {
        let ghost sem = views(semantic_ids@);
        let mut out: Vec<&KnowledgeNode> = Vec::new();
        let mut i: usize = 0;
        while i < self.nodes.len()
            invariant
                sem == views(semantic_ids@),
                i <= self.nodes@.len(),
                out@.len() == recall_positions(self.nodes@.subrange(0, i as int), query@, sem).len(),
                forall|k: int| 0 <= k < out@.len() ==> *out@[k] == self.nodes@[recall_positions(self.nodes@.subrange(0, i as int), query@, sem)[k]],
                forall|k: int| 0 <= k < recall_positions(self.nodes@.subrange(0, i as int), query@, sem).len()
                    ==> 0 <= #[trigger] recall_positions(self.nodes@.subrange(0, i as int), query@, sem)[k] < i,
            decreases self.nodes.len() - i,
        {
            let ghost pre = self.nodes@.subrange(0, i as int);
            let ghost nxt = self.nodes@.subrange(0, i + 1);
            assert(nxt.drop_last() =~= pre);
            assert(nxt.last() == self.nodes@[i as int]);
            let n = &self.nodes[i];
            let hit = holds(semantic_ids, n.id.as_str()) || str_contains(n.content.as_str(), query);
            if hit {
                out.push(n);
            }
            i = i + 1;
        }
        assert(self.nodes@.subrange(0, self.nodes@.len() as int) =~= self.nodes@);
        out
    }
}

} // verus!
