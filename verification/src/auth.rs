//! Auth profiles: API keys kept under profile names, each enabled or not.

use vstd::prelude::*;
use crate::text::{cat, cat3, now_secs, owned, push_str, str_eq, opt_string_view};

verus! {

/// An API key kept under a profile name.
#[derive(Debug, Clone)]
pub struct AuthProfile {
    pub name: String,
    pub provider: String,
    pub api_key: String,
    pub created_at: u64,
    pub last_used: Option<u64>,
    pub use_count: u32,
    pub enabled: bool,
}

/// `p` is a fresh profile with these texts, made at `ts`: never used, enabled.
pub open spec fn fresh_profile(p: AuthProfile, name: Seq<char>, provider: Seq<char>, api_key: Seq<char>, ts: u64) -> bool {
    &&& p.name@ == name
    &&& p.provider@ == provider
    &&& p.api_key@ == api_key
    &&& p.created_at == ts
    &&& p.last_used is None
    &&& p.use_count == 0
    &&& p.enabled
}

impl AuthProfile {
    /// A fresh profile made at `ts` seconds.
    pub fn new_at(name: &str, provider: &str, api_key: &str, ts: u64) -> (r: Self)
        ensures
            fresh_profile(r, name@, provider@, api_key@, ts),
    {
        AuthProfile {
            name: owned(name),
            provider: owned(provider),
            api_key: owned(api_key),
            created_at: ts,
            last_used: None,
            use_count: 0,
            enabled: true,
        }
    }

    /// A fresh profile made now.
    pub fn new(name: &str, provider: &str, api_key: &str) -> (r: Self)
        ensures
            exists|ts: u64| fresh_profile(r, name@, provider@, api_key@, ts),
    {
        let ts = now_secs();
        AuthProfile::new_at(name, provider, api_key, ts)
    }
}

/// `a` and `b` hold the same values, texts compared by their characters.
pub open spec fn same_profile(a: AuthProfile, b: AuthProfile) -> bool {
    &&& a.name@ == b.name@
    &&& a.provider@ == b.provider@
    &&& a.api_key@ == b.api_key@
    &&& a.created_at == b.created_at
    &&& a.last_used == b.last_used
    &&& a.use_count == b.use_count
    &&& a.enabled == b.enabled
}

fn copy_profile(p: &AuthProfile) -> (r: AuthProfile)
    ensures
        same_profile(r, *p),
{
    AuthProfile {
        name: owned(p.name.as_str()),
        provider: owned(p.provider.as_str()),
        api_key: owned(p.api_key.as_str()),
        created_at: p.created_at,
        last_used: p.last_used,
        use_count: p.use_count,
        enabled: p.enabled,
    }
}

/// No two profiles share a name.
pub open spec fn profile_names_unique(s: Seq<AuthProfile>) -> bool {
    forall|i: int, k: int| 0 <= i < s.len() && 0 <= k < s.len() && i != k ==> s[i].name@ != s[k].name@
}

/// The position of the profile named `name`.
pub open spec fn profile_index(s: Seq<AuthProfile>, name: Seq<char>) -> Option<int>
    decreases s.len(),
{
    if s.len() == 0 {
        None
    } else {
        match profile_index(s.drop_last(), name) {
            Some(i) => Some(i),
            None => if s.last().name@ == name { Some(s.len() - 1) } else { None },
        }
    }
}

proof fn lemma_profile_index(s: Seq<AuthProfile>, name: Seq<char>)
    ensures
        match profile_index(s, name) {
            Some(i) => 0 <= i < s.len() && s[i].name@ == name && forall|k: int| 0 <= k < i ==> s[k].name@ != name,
            None => forall|k: int| 0 <= k < s.len() ==> s[k].name@ != name,
        },
    decreases s.len(),
{
    if s.len() > 0 {
        lemma_profile_index(s.drop_last(), name);
        assert forall|k: int| 0 <= k < s.len() - 1 implies s.drop_last()[k] == s[k] by {}
    }
}

/// The auth profiles, each under its own name.
pub struct AuthStore {
    profiles: Vec<AuthProfile>,
}

impl AuthStore {
    #[verifier::type_invariant]
    spec fn wf(&self) -> bool {
        profile_names_unique(self.profiles@)
    }

    /// The profiles, in the order they were first added.
    pub closed spec fn all(&self) -> Seq<AuthProfile> {
        self.profiles@
    }

    /// A store with no profile.
    pub fn new() -> (r: Self)
        ensures
            r.all().len() == 0,
            profile_names_unique(r.all()),
    {
        AuthStore { profiles: Vec::new() }
    }

    fn find(&self, name: &str) -> (r: Option<usize>)
        ensures
            match r {
                Some(i) => i < self.all().len() && profile_index(self.all(), name@) == Some(i as int),
                None => profile_index(self.all(), name@) is None,
            },
    {
        proof { lemma_profile_index(self.profiles@, name@); }
        let mut i: usize = 0;
        while i < self.profiles.len()
            invariant
                i <= self.profiles@.len(),
                forall|k: int| 0 <= k < i ==> self.profiles@[k].name@ != name@,
                match profile_index(self.profiles@, name@) {
                    Some(j) => 0 <= j < self.profiles@.len() && self.profiles@[j].name@ == name@
                        && forall|k: int| 0 <= k < j ==> self.profiles@[k].name@ != name@,
                    None => forall|k: int| 0 <= k < self.profiles@.len() ==> self.profiles@[k].name@ != name@,
                },
            decreases self.profiles.len() - i,
        {
            if str_eq(self.profiles[i].name.as_str(), name) {
                return Some(i);
            }
            i = i + 1;
        }
        None
    }

    fn take_all(&mut self) -> (r: Vec<AuthProfile>)
        ensures
            r@ == old(self).all(),
            profile_names_unique(r@),
    {
        proof { use_type_invariant(&*self); }
        let mut v: Vec<AuthProfile> = Vec::new();
        std::mem::swap(&mut v, &mut self.profiles);
        v
    }
}

/// `after` is `before` with `p` stored under its name: in place of the
/// profile with that name, or appended.
pub open spec fn profile_stored(before: Seq<AuthProfile>, after: Seq<AuthProfile>, p: AuthProfile) -> bool {
    match profile_index(before, p.name@) {
        Some(i) => after == before.update(i, p),
        None => after == before.push(p),
    }
}

/// Stores a fresh profile made at `ts`, in place of one of the same name.
pub fn add_profile_at(store: &mut AuthStore, name: &str, provider: &str, api_key: &str, ts: u64) -> (r: String)
    ensures
        exists|p: AuthProfile| fresh_profile(p, name@, provider@, api_key@, ts)
            && profile_stored(old(store).all(), final(store).all(), p),
        r@ == "Added auth profile: "@ + name@ + " ("@ + provider@ + ")"@,
        profile_names_unique(final(store).all()),
{
    let p = AuthProfile::new_at(name, provider, api_key, ts);
    let ghost gp = p;
    proof { lemma_profile_index(store.profiles@, name@); }
    let found = store.find(name);
    let ghost before = store.profiles@;
    let mut v = store.take_all();
    match found {
        Some(i) => {
            v.set(i, p);
            assert(profile_names_unique(v@)) by {
                assert forall|a: int, b: int| 0 <= a < v@.len() && 0 <= b < v@.len() && a != b
                    implies v@[a].name@ != v@[b].name@ by {
                    assert(before[a].name@ != before[b].name@);
                }
            }
        },
        None => {
            v.push(p);
        },
    }
    store.profiles = v;
    assert(profile_stored(old(store).all(), store.all(), gp));
    let mut r = cat3("Added auth profile: ", name, " (");
    push_str(&mut r, provider);
    push_str(&mut r, ")");
    r
}

/// Stores a fresh profile made now, in place of one of the same name.
pub fn add_profile(store: &mut AuthStore, name: &str, provider: &str, api_key: &str) -> (r: String)
    ensures
        exists|p: AuthProfile, ts: u64| fresh_profile(p, name@, provider@, api_key@, ts)
            && profile_stored(old(store).all(), final(store).all(), p),
        r@ == "Added auth profile: "@ + name@ + " ("@ + provider@ + ")"@,
        profile_names_unique(final(store).all()),
{
    let ts = now_secs();
    add_profile_at(store, name, provider, api_key, ts)
}

/// Copies of every profile.
pub fn list_profiles(store: &AuthStore) -> (r: Vec<AuthProfile>)
    ensures
        r@.len() == store.all().len(),
        forall|k: int| 0 <= k < r@.len() ==> same_profile(r@[k], store.all()[k]),
        profile_names_unique(store.all()),
{
    proof { use_type_invariant(store); }
    let mut out: Vec<AuthProfile> = Vec::new();
    let mut i: usize = 0;
    while i < store.profiles.len()
        invariant
            i <= store.profiles@.len(),
            out@.len() == i,
            forall|k: int| 0 <= k < i ==> same_profile(out@[k], store.profiles@[k]),
        decreases store.profiles.len() - i,
    {
        out.push(copy_profile(&store.profiles[i]));
        i = i + 1;
    }
    out
}

/// The reply for a name that no profile has.
pub open spec fn profile_not_found(name: Seq<char>) -> Seq<char> {
    "Profile '"@ + name + "' not found"@
}

/// Removes the profile named `name`.
pub fn remove_profile(store: &mut AuthStore, name: &str) -> (r: Result<String, String>)
    ensures
        match profile_index(old(store).all(), name@) {
            Some(i) => final(store).all() == old(store).all().remove(i)
                && r is Ok && r->Ok_0@ == "Removed profile: "@ + name@,
            None => final(store).all() == old(store).all() && r is Err && r->Err_0@ == profile_not_found(name@),
        },
        profile_names_unique(final(store).all()),
{
    proof { use_type_invariant(&*store); }
    match store.find(name) {
        Some(i) => {
            let ghost before = store.profiles@;
            let mut v = store.take_all();
            v.remove(i);
            assert(profile_names_unique(v@)) by {
                assert forall|a: int, b: int| 0 <= a < v@.len() && 0 <= b < v@.len() && a != b
                    implies v@[a].name@ != v@[b].name@ by {
                    let a0 = if a < i { a } else { a + 1 };
                    let b0 = if b < i { b } else { b + 1 };
                    assert(v@[a] == before[a0]);
                    assert(v@[b] == before[b0]);
                }
            }
            store.profiles = v;
            Ok(cat("Removed profile: ", name))
        },
        None => Err(cat3("Profile '", name, "' not found")),
    }
}

/// Enables or disables the profile named `name`.
pub fn enable_profile(store: &mut AuthStore, name: &str, enabled: bool) -> (r: Result<String, String>)
    ensures
        match profile_index(old(store).all(), name@) {
            Some(i) => final(store).all() == old(store).all().update(i, AuthProfile { enabled, ..old(store).all()[i] })
                && r is Ok && r->Ok_0@ == "Profile '"@ + name@ + "' "@ + (if enabled { "enabled"@ } else { "disabled"@ }),
            None => final(store).all() == old(store).all() && r is Err && r->Err_0@ == profile_not_found(name@),
        },
        profile_names_unique(final(store).all()),
{
    proof { use_type_invariant(&*store); }
    match store.find(name) {
        Some(i) => {
            let ghost before = store.profiles@;
            let mut v = store.take_all();
            let mut p = v.remove(i);
            p.enabled = enabled;
            v.insert(i, p);
            assert(v@ =~= before.update(i as int, AuthProfile { enabled, ..before[i as int] }));
            assert(profile_names_unique(v@)) by {
                assert forall|a: int, b: int| 0 <= a < v@.len() && 0 <= b < v@.len() && a != b
                    implies v@[a].name@ != v@[b].name@ by {
                    assert(before[a].name@ != before[b].name@);
                }
            }
            store.profiles = v;
            let mut r = cat3("Profile '", name, "' ");
            push_str(&mut r, if enabled { "enabled" } else { "disabled" });
            Ok(r)
        },
        None => Err(cat3("Profile '", name, "' not found")),
    }
}

/// The API key of the profile named `name`.
pub fn get_api_key(store: &AuthStore, name: &str) -> (r: Option<String>)
    ensures
        opt_string_view(r) == match profile_index(store.all(), name@) {
            Some(i) => Some(store.all()[i].api_key@),
            None => None,
        },
        profile_names_unique(store.all()),
{
    proof { use_type_invariant(store); }
    match store.find(name) {
        Some(i) => Some(owned(store.profiles[i].api_key.as_str())),
        None => None,
    }
}

/// Once the profile named `name` is removed from a store whose names are
/// unique, no profile of that name is left.
pub proof fn lemma_removed_name_is_gone(before: Seq<AuthProfile>, name: Seq<char>)
    requires
        profile_names_unique(before),
        profile_index(before, name) is Some,
    ensures
        profile_index(before.remove(profile_index(before, name)->0), name) is None,
{
    lemma_profile_index(before, name);
    let i = profile_index(before, name)->0;
    let after = before.remove(i);
    lemma_profile_index(after, name);
    if profile_index(after, name) is Some {
        let j = profile_index(after, name)->0;
        let j0 = if j < i { j } else { j + 1 };
        assert(after[j] == before[j0]);
    }
}

/// A key just added under a name is what that name gives back.
pub proof fn lemma_added_key_is_read(before: Seq<AuthProfile>, after: Seq<AuthProfile>, p: AuthProfile)
    requires
        profile_names_unique(before),
        profile_stored(before, after, p),
    ensures
        profile_index(after, p.name@) is Some,
        after[profile_index(after, p.name@)->0].api_key == p.api_key,
{
    lemma_profile_index(before, p.name@);
    lemma_profile_index(after, p.name@);
    match profile_index(before, p.name@) {
        Some(i) => {
            assert(after[i] == p);
            let j = profile_index(after, p.name@)->0;
            if j != i {
                assert(after[j] == before[j]);
            }
        },
        None => {
            assert(after[after.len() - 1] == p);
            let j = profile_index(after, p.name@)->0;
            if j != after.len() - 1 {
                assert(after[j] == before[j]);
            }
        },
    }
}

} // verus!
