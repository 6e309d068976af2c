//! Intents: named high-level goals, each turned into a prompt for a target.

use vstd::prelude::*;
use crate::text::{cat, cat3, owned, push_str, str_eq};

verus! {

/// A named goal and what it asks for.
#[derive(Debug, Clone)]
pub struct IntentSpec {
    pub name: String,
    pub description: String,
}

/// A step of an intent.
#[derive(Debug, Clone)]
pub struct IntentStep {
    pub name: String,
    pub prompt: String,
}

/// The position of the intent named `name`.
pub open spec fn intent_index(s: Seq<IntentSpec>, name: Seq<char>) -> Option<int>
    decreases s.len(),
{
    if s.len() == 0 {
        None
    } else {
        match intent_index(s.drop_last(), name) {
            Some(i) => Some(i),
            None => if s.last().name@ == name { Some(s.len() - 1) } else { None },
        }
    }
}

proof fn lemma_intent_index(s: Seq<IntentSpec>, name: Seq<char>)
    ensures
        match intent_index(s, name) {
            Some(i) => 0 <= i < s.len() && s[i].name@ == name && forall|k: int| 0 <= k < i ==> s[k].name@ != name,
            None => forall|k: int| 0 <= k < s.len() ==> s[k].name@ != name,
        },
    decreases s.len(),
{
    if s.len() > 0 {
        lemma_intent_index(s.drop_last(), name);
        assert forall|k: int| 0 <= k < s.len() - 1 implies s.drop_last()[k] == s[k] by {}
    }
}

/// The intents, each under its own name.
pub struct IntentRegistry {
    pub intents: Vec<IntentSpec>,
}

fn find_intent(v: &Vec<IntentSpec>, name: &str) -> (r: Option<usize>)
    ensures
        match r {
            Some(i) => i < v@.len() && intent_index(v@, name@) == Some(i as int),
            None => intent_index(v@, name@) is None,
        },
{
    proof { lemma_intent_index(v@, name@); }
    let mut i: usize = 0;
    while i < v.len()
        invariant
            i <= v@.len(),
            forall|k: int| 0 <= k < i ==> v@[k].name@ != name@,
            match intent_index(v@, name@) {
                Some(j) => 0 <= j < v@.len() && v@[j].name@ == name@ && forall|k: int| 0 <= k < j ==> v@[k].name@ != name@,
                None => forall|k: int| 0 <= k < v@.len() ==> v@[k].name@ != name@,
            },
        decreases v.len() - i,
    {
        if str_eq(v[i].name.as_str(), name) {
            return Some(i);
        }
        i = i + 1;
    }
    None
}

fn intent(name: &str, description: &str) -> (r: IntentSpec)
    ensures
        r.name@ == name@ && r.description@ == description@,
{
    IntentSpec { name: owned(name), description: owned(description) }
}

/// The intents that come with the tool.
pub fn default_intents() -> (r: IntentRegistry)
    ensures
        r.intents@.len() == 3,
        r.intents@[0].name@ == "build-rest-api"@ && r.intents@[0].description@ == "Build REST API"@,
        r.intents@[1].name@ == "fix-bug"@ && r.intents@[1].description@ == "Fix a bug"@,
        r.intents@[2].name@ == "add-feature"@ && r.intents@[2].description@ == "Add feature"@,
{
    let mut v: Vec<IntentSpec> = Vec::new();
    v.push(intent("build-rest-api", "Build REST API"));
    v.push(intent("fix-bug", "Fix a bug"));
    v.push(intent("add-feature", "Add feature"));
    IntentRegistry { intents: v }
}

/// Copies of every intent, in stored order.
pub fn list_intents(reg: &IntentRegistry) -> (r: Vec<IntentSpec>)
    ensures
        r@.len() == reg.intents@.len(),
        forall|k: int| 0 <= k < r@.len() ==> r@[k].name@ == reg.intents@[k].name@
            && r@[k].description@ == reg.intents@[k].description@,
{
    let mut out: Vec<IntentSpec> = Vec::new();
    let mut i: usize = 0;
    while i < reg.intents.len()
        invariant
            i <= reg.intents@.len(),
            out@.len() == i,
            forall|k: int| 0 <= k < i ==> out@[k].name@ == reg.intents@[k].name@
                && out@[k].description@ == reg.intents@[k].description@,
        decreases reg.intents.len() - i,
    {
        out.push(intent(reg.intents[i].name.as_str(), reg.intents[i].description.as_str()));
        i = i + 1;
    }
    out
}

/// The prompt that running the intent named `name` on `target` sends.
pub fn intent_prompt(reg: &IntentRegistry, name: &str, target: &str) -> (r: Result<String, String>)
    ensures
        match intent_index(reg.intents@, name@) {
            Some(i) => r matches Ok(p) && p@ == reg.intents@[i].description@ + " for: "@ + target@,
            None => r matches Err(e) && e@ == "Intent not found: "@ + name@,
        },
{
    match find_intent(&reg.intents, name) {
        Some(i) => Ok(cat3(reg.intents[i].description.as_str(), " for: ", target)),
        None => Err(cat("Intent not found: ", name)),
    }
}

/// Creates (or replaces) the intent named `name`.
pub fn create_custom_intent(reg: &mut IntentRegistry, name: &str, description: &str) -> (r: Result<String, String>)
    ensures
        match intent_index(old(reg).intents@, name@) {
            Some(i) => final(reg).intents@.len() == old(reg).intents@.len()
                && (forall|k: int| 0 <= k < old(reg).intents@.len() && k != i ==> final(reg).intents@[k] == old(reg).intents@[k])
                && final(reg).intents@[i].name@ == name@ && final(reg).intents@[i].description@ == description@,
            None => final(reg).intents@.drop_last() == old(reg).intents@
                && final(reg).intents@.len() == old(reg).intents@.len() + 1
                && final(reg).intents@.last().name@ == name@ && final(reg).intents@.last().description@ == description@,
        },
        r matches Ok(m) && m@ == "Created: "@ + name@,
{
    let spec = intent(name, description);
    match find_intent(&reg.intents, name) {
        Some(i) => {
            reg.intents.set(i, spec);
        },
        None => {
            let ghost before = reg.intents@;
            reg.intents.push(spec);
            assert(reg.intents@.drop_last() =~= before);
        },
    }
    Ok(cat("Created: ", name))
}

} // verus!
