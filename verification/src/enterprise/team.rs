//! Team management: teams keyed by id, their members and roles, and the
//! permission rules.

use vstd::prelude::*;
use crate::text::{bool_text, bool_to_string, cat, cat3, dec, hex, now_millis, owned, push_str, str_eq, u64_to_hex,
    u64_to_string, views};

verus! {

/// Team member roles.
#[derive(Debug, Clone, Copy, PartialEq, Eq, Structural)]
pub enum TeamRole {
    Owner,
    Admin,
    Member,
    Viewer,
}

/// The name of a role.
pub open spec fn role_name(r: TeamRole) -> Seq<char> {
    match r {
        TeamRole::Owner => "owner"@,
        TeamRole::Admin => "admin"@,
        TeamRole::Member => "member"@,
        TeamRole::Viewer => "viewer"@,
    }
}

impl TeamRole {
    /// The name of this role.
    pub fn to_string(&self) -> (r: String)
        ensures
            r@ == role_name(*self),
    {
        match self {
            TeamRole::Owner => owned("owner"),
            TeamRole::Admin => owned("admin"),
            TeamRole::Member => owned("member"),
            TeamRole::Viewer => owned("viewer"),
        }
    }
}

/// Team member.
#[derive(Debug, Clone)]
pub struct TeamMember {
    pub user_id: String,
    pub email: String,
    pub name: String,
    pub role: TeamRole,
    pub joined_at: u64,
    pub last_active: u64,
    pub permissions: Vec<String>,
}

/// Team.
#[derive(Debug, Clone)]
pub struct Team {
    pub id: String,
    pub name: String,
    pub description: String,
    pub members: Vec<TeamMember>,
    pub created_at: u64,
    pub settings: TeamSettings,
}

/// Team settings.
#[derive(Debug, Clone)]
pub struct TeamSettings {
    pub allow_external_sharing: bool,
    pub require_2fa: bool,
    pub audit_logs_enabled: bool,
    pub max_members: u32,
}

impl Default for TeamSettings {
    fn default() -> (r: Self)
        ensures
            !r.allow_external_sharing && !r.require_2fa && r.audit_logs_enabled && r.max_members == 100,
    {
        TeamSettings {
            allow_external_sharing: false,
            require_2fa: false,
            audit_logs_enabled: true,
            max_members: 100,
        }
    }
}

/// `teams[i]` is the team with id `id`.
pub open spec fn team_at(teams: Seq<Team>, id: Seq<char>, i: int) -> bool {
    0 <= i < teams.len() && teams[i].id@ == id
}

/// Some team has id `id`.
pub open spec fn has_team(teams: Seq<Team>, id: Seq<char>) -> bool {
    exists|i: int| team_at(teams, id, i)
}

/// `members[j]` is the member with user id `user`.
pub open spec fn member_at(members: Seq<TeamMember>, user: Seq<char>, j: int) -> bool {
    0 <= j < members.len() && members[j].user_id@ == user
}

/// Some member has user id `user`.
pub open spec fn has_member(members: Seq<TeamMember>, user: Seq<char>) -> bool {
    exists|j: int| member_at(members, user, j)
}

/// `after` is `before` with a team made under `id`: an id `team_` and a
/// time in hexadecimal, a team of that name and description with no member
/// and room for a hundred, and every other id as before.
pub open spec fn team_created(before: Seq<Team>, after: Seq<Team>, name: Seq<char>, description: Seq<char>, id: Seq<char>) -> bool {
    &&& exists|t: u64| id == "team_"@ + hex(t as nat)
    &&& has_team(after, id)
    &&& forall|i: int| team_at(after, id, i) ==> {
        let t = after[i];
        &&& t.name@ == name
        &&& t.description@ == description
        &&& t.members@.len() == 0
        &&& t.settings.max_members == 100
    }
    &&& forall|other: Seq<char>| other != id ==> (has_team(after, other) == has_team(before, other))
    &&& after.len() == (if has_team(before, id) { before.len() } else { before.len() + 1 })
    &&& forall|k: int| 0 <= k < before.len() && before[k].id@ != id ==> after[k] == before[k]
    &&& !has_team(before, id) ==> after.last().id@ == id
}

/// A unit result as plain values.
pub open spec fn unit_view(r: Result<(), String>) -> Result<(), Seq<char>> {
    match r {
        Ok(_) => Ok(()),
        Err(e) => Err(e@),
    }
}

/// What adding a member comes to: `Team not found`, `Team is full`, `User
/// is already a member`, or the team with the member appended.
pub open spec fn member_added(before: Seq<Team>, after: Seq<Team>, team_id: Seq<char>, user_id: Seq<char>, email: Seq<char>,
    name: Seq<char>, role: TeamRole, r: Result<(), Seq<char>>) -> bool {
    &&& !has_team(before, team_id) ==> r == Err::<(), Seq<char>>("Team not found"@) && after == before
    &&& forall|i: int| #[trigger] team_at(before, team_id, i) ==> {
        let t = before[i];
        if t.members@.len() >= t.settings.max_members {
            r == Err::<(), Seq<char>>("Team is full"@) && after == before
        } else if has_member(t.members@, user_id) {
            r == Err::<(), Seq<char>>("User is already a member"@) && after == before
        } else {
            &&& r is Ok
            &&& after.len() == before.len()
            &&& forall|k: int| 0 <= k < before.len() && k != i ==> after[k] == before[k]
            &&& after[i] == (Team { members: after[i].members, ..t })
            &&& after[i].members@.drop_last() == t.members@
            &&& after[i].members@.len() == t.members@.len() + 1
            &&& after[i].members@.last().user_id@ == user_id
            &&& after[i].members@.last().email@ == email
            &&& after[i].members@.last().name@ == name
            &&& after[i].members@.last().role == role
            &&& after[i].members@.last().permissions@.len() == 0
            &&& after[i].members@.last().joined_at == 0
            &&& after[i].members@.last().last_active == 0
        }
    }
}

/// What removing a member comes to: `Team not found`, `Member not found`,
/// or the team without the members of that user id.
pub open spec fn member_removed(before: Seq<Team>, after: Seq<Team>, team_id: Seq<char>, user_id: Seq<char>, r: Result<(), Seq<char>>) -> bool {
    &&& !has_team(before, team_id) ==> r == Err::<(), Seq<char>>("Team not found"@) && after == before
    &&& forall|i: int| #[trigger] team_at(before, team_id, i) ==> {
        let t = before[i];
        if !has_member(t.members@, user_id) {
            r == Err::<(), Seq<char>>("Member not found"@) && after == before
        } else {
            &&& r is Ok
            &&& after.len() == before.len()
            &&& forall|k: int| 0 <= k < before.len() && k != i ==> after[k] == before[k]
            &&& after[i] == (Team { members: after[i].members, ..t })
            &&& after[i].members@ == without_user(t.members@, user_id)
        }
    }
}

/// Team ids are unique and no team has more members than it allows.
pub open spec fn teams_wf(teams: Seq<Team>) -> bool {
    &&& forall|i: int, k: int| 0 <= i < teams.len() && 0 <= k < teams.len() && i != k ==> teams[i].id@ != teams[k].id@
    &&& forall|i: int| 0 <= i < teams.len() ==> (#[trigger] teams[i]).members@.len() <= teams[i].settings.max_members
}

/// `members` without those whose user id is `user`, in order.
pub open spec fn without_user(members: Seq<TeamMember>, user: Seq<char>) -> Seq<TeamMember>
    decreases members.len(),
{
    if members.len() == 0 {
        seq![]
    } else {
        let rest = without_user(members.drop_last(), user);
        if members.last().user_id@ == user {
            rest
        } else {
            rest.push(members.last())
        }
    }
}

proof fn lemma_without_user_len(members: Seq<TeamMember>, user: Seq<char>)
    ensures
        without_user(members, user).len() <= members.len(),
    decreases members.len(),
{
    if members.len() > 0 {
        lemma_without_user_len(members.drop_last(), user);
    }
}

/// The permission list holds `p`.
pub open spec fn holds_permission(perms: Seq<String>, p: Seq<char>) -> bool {
    exists|q: int| 0 <= q < perms.len() && perms[q]@ == p
}

/// Team manager.
pub struct TeamManager {
    teams: Vec<Team>,
}

impl TeamManager {
    #[verifier::type_invariant]
    spec fn wf(&self) -> bool {
        teams_wf(self.teams@)
    }

    /// The teams, in the order they were created.
    pub closed spec fn all(&self) -> Seq<Team> {
        self.teams@
    }

    /// A manager with no team.
    pub fn new() -> (r: Self)
        ensures
            r.all().len() == 0,
            teams_wf(r.all()),
    {
        TeamManager { teams: Vec::new() }
    }

    fn find(&self, team_id: &str) -> (r: Option<usize>)
        ensures
            match r {
                Some(i) => team_at(self.all(), team_id@, i as int),
                None => !has_team(self.all(), team_id@),
            },
    {
        let mut i: usize = 0;
        while i < self.teams.len()
            invariant
                i <= self.teams@.len(),
                forall|k: int| 0 <= k < i ==> !team_at(self.teams@, team_id@, k),
            decreases self.teams.len() - i,
        {
            if str_eq(self.teams[i].id.as_str(), team_id) {
                return Some(i);
            }
            i = i + 1;
        }
        None
    }

    /// Creates a team named `name`, with no member and the default settings,
    /// under the id `team_` followed by the current time in hexadecimal
    /// milliseconds; a team already under that id is replaced.
    pub fn create_team(&mut self, name: &str, description: &str, _owner_id: &str) -> (r: String)
        ensures
            team_created(old(self).all(), final(self).all(), name@, description@, r@),
            teams_wf(final(self).all()),
    {
        proof { use_type_invariant(&*self); }
        let stamp = now_millis();
        let hex_stamp = u64_to_hex(stamp);
        let team_id = cat("team_", hex_stamp.as_str());
        let team = Team {
            id: owned(team_id.as_str()),
            name: owned(name),
            description: owned(description),
            members: Vec::new(),
            created_at: 0,
            settings: TeamSettings::default(),
        };
        let ghost before = self.teams@;
        let ghost mut pos: int = 0;
        match self.find(team_id.as_str()) {
            Some(i) => {
                let mut teams: Vec<Team> = Vec::new();
                std::mem::swap(&mut teams, &mut self.teams);
                teams.set(i, team);
                assert(teams_wf(teams@)) by {
                    assert forall|a: int, b: int| 0 <= a < teams@.len() && 0 <= b < teams@.len() && a != b
                        implies teams@[a].id@ != teams@[b].id@ by {
                        if a != i && b != i {
                            assert(teams@[a] == before[a]);
                            assert(teams@[b] == before[b]);
                        } else if a == i {
                            assert(teams@[b] == before[b]);
                        } else {
                            assert(teams@[a] == before[a]);
                        }
                    }
                    assert forall|a: int| 0 <= a < teams@.len() implies (#[trigger] teams@[a]).members@.len() <= teams@[a].settings.max_members by {
                        if a != i {
                            assert(teams@[a] == before[a]);
                        }
                    }
                }
                self.teams = teams;
                proof { pos = i as int; }
                assert(team_at(self.teams@, team_id@, i as int));
                assert forall|id: Seq<char>| id != team_id@ implies (has_team(self.teams@, id) == has_team(before, id)) by {
                    if has_team(self.teams@, id) {
                        let k = choose|k: int| team_at(self.teams@, id, k);
                        assert(k != i);
                        assert(team_at(before, id, k));
                    }
                    if has_team(before, id) {
                        let k = choose|k: int| team_at(before, id, k);
                        assert(k != i);
                        assert(team_at(self.teams@, id, k));
                    }
                }
            }
            None => {
                let mut teams: Vec<Team> = Vec::new();
                std::mem::swap(&mut teams, &mut self.teams);
                teams.push(team);
                assert(teams_wf(teams@)) by {
                    assert forall|a: int, b: int| 0 <= a < teams@.len() && 0 <= b < teams@.len() && a != b
                        implies teams@[a].id@ != teams@[b].id@ by {
                        if a < before.len() && b < before.len() {
                            assert(teams@[a] == before[a]);
                            assert(teams@[b] == before[b]);
                        } else if a < before.len() {
                            assert(teams@[a] == before[a]);
                            assert(!team_at(before, team_id@, a));
                        } else {
                            assert(teams@[b] == before[b]);
                            assert(!team_at(before, team_id@, b));
                        }
                    }
                    assert forall|a: int| 0 <= a < teams@.len() implies (#[trigger] teams@[a]).members@.len() <= teams@[a].settings.max_members by {
                        if a < before.len() {
                            assert(teams@[a] == before[a]);
                        }
                    }
                }
                self.teams = teams;
                proof { pos = before.len() as int; }
                assert(team_at(self.teams@, team_id@, before.len() as int));
                assert forall|id: Seq<char>| id != team_id@ implies (has_team(self.teams@, id) == has_team(before, id)) by {
                    if has_team(self.teams@, id) {
                        let k = choose|k: int| team_at(self.teams@, id, k);
                        assert(k < before.len());
                        assert(team_at(before, id, k));
                    }
                    if has_team(before, id) {
                        let k = choose|k: int| team_at(before, id, k);
                        assert(team_at(self.teams@, id, k));
                    }
                }
            }
        }
        proof {
            assert forall|i: int| team_at(self.teams@, team_id@, i) implies {
                let t = self.teams@[i];
                &&& t.name@ == name@
                &&& t.description@ == description@
                &&& t.members@.len() == 0
                &&& t.settings.max_members == 100
            } by {
                assert(team_at(self.teams@, team_id@, pos));
                assert(i == pos);
            }
        }
        team_id
    }

    /// Puts `team` at position `i`, in place of the team with the same id.
    fn put_team(&mut self, i: usize, team: Team)
        requires
            0 <= i < old(self).all().len(),
            team.id@ == old(self).all()[i as int].id@,
            team.members@.len() <= team.settings.max_members,
        ensures
            final(self).all() == old(self).all().update(i as int, team),
    {
        proof { use_type_invariant(&*self); }
        let ghost before = self.teams@;
        let mut teams: Vec<Team> = Vec::new();
        std::mem::swap(&mut teams, &mut self.teams);
        teams.set(i, team);
        assert(teams_wf(teams@)) by {
            assert forall|a: int, b: int| 0 <= a < teams@.len() && 0 <= b < teams@.len() && a != b
                implies teams@[a].id@ != teams@[b].id@ by {
                assert(before[a].id@ != before[b].id@);
            }
            assert forall|a: int| 0 <= a < teams@.len() implies (#[trigger] teams@[a]).members@.len() <= teams@[a].settings.max_members by {
                if a != i {
                    assert(teams@[a] == before[a]);
                }
            }
        }
        self.teams = teams;
    }

    /// Takes the team at position `i` out, leaving an empty team with the same id.
    fn take_team(&mut self, i: usize) -> (r: Team)
        requires
            0 <= i < old(self).all().len(),
        ensures
            r == old(self).all()[i as int],
            r.members@.len() <= r.settings.max_members,
            final(self).all().len() == old(self).all().len(),
            final(self).all()[i as int].id@ == r.id@,
            forall|k: int| 0 <= k < old(self).all().len() && k != i ==> final(self).all()[k] == old(self).all()[k],
    {
        proof { use_type_invariant(&*self); }
        let ghost before = self.teams@;
        let mut teams: Vec<Team> = Vec::new();
        std::mem::swap(&mut teams, &mut self.teams);
        let placeholder = Team {
            id: owned(teams[i].id.as_str()),
            name: String::new(),
            description: String::new(),
            members: Vec::new(),
            created_at: 0,
            settings: TeamSettings::default(),
        };
        let mut slot = placeholder;
        let t = teams.remove(i);
        teams.insert(i, slot);
        assert(teams_wf(teams@)) by {
            assert forall|a: int, b: int| 0 <= a < teams@.len() && 0 <= b < teams@.len() && a != b
                implies teams@[a].id@ != teams@[b].id@ by {
                assert(before[a].id@ != before[b].id@);
                if a != i { assert(teams@[a] == before[a]); }
                if b != i { assert(teams@[b] == before[b]); }
            }
            assert forall|a: int| 0 <= a < teams@.len() implies (#[trigger] teams@[a]).members@.len() <= teams@[a].settings.max_members by {
                if a != i {
                    assert(teams@[a] == before[a]);
                }
            }
        }
        self.teams = teams;
        assert(before[i as int].members@.len() <= before[i as int].settings.max_members);
        t
    }

    /// Adds a member to a team.
    ///
    /// Refused with `Team not found` when no team has the id, `Team is full`
    /// when it has as many members as it allows, and `User is already a
    /// member` when the user belongs to it; otherwise the member joins last,
    /// with no permission, and nothing else changes.
    pub fn add_member(&mut self, team_id: &str, user_id: &str, email: &str, name: &str, role: TeamRole) -> (r: Result<(), String>)
        ensures
            member_added(old(self).all(), final(self).all(), team_id@, user_id@, email@, name@, role, unit_view(r)),
            teams_wf(final(self).all()),
    {
        proof { use_type_invariant(&*self); }
        let i = match self.find(team_id) {
            Some(i) => i,
            None => return Err(owned("Team not found")),
        };
        proof {
            assert forall|k: int| team_at(self.teams@, team_id@, k) implies k == i by {}
        }
        let full = self.teams[i].members.len() as u32 >= self.teams[i].settings.max_members;
        if full {
            return Err(owned("Team is full"));
        }
        let mut j: usize = 0;
        #[verifier::loop_isolation(false)]
        while j < self.teams[i].members.len()
            invariant
                0 <= i < self.teams@.len(),
                j <= self.teams@[i as int].members@.len(),
                forall|k: int| 0 <= k < j ==> !member_at(self.teams@[i as int].members@, user_id@, k),
            decreases self.teams@[i as int].members@.len() - j,
        {
            if str_eq(self.teams[i].members[j].user_id.as_str(), user_id) {
                assert(member_at(self.teams@[i as int].members@, user_id@, j as int));
                return Err(owned("User is already a member"));
            }
            j = j + 1;
        }
        let mut team = self.take_team(i);
        let member = TeamMember {
            user_id: owned(user_id),
            email: owned(email),
            name: owned(name),
            role,
            joined_at: 0,
            last_active: 0,
            permissions: Vec::new(),
        };
        let ghost old_members = team.members@;
        team.members.push(member);
        assert(team.members@.drop_last() =~= old_members);
        self.put_team(i, team);
        Ok(())
    }

    /// Removes every member with the user id from a team.
    ///
    /// Refused with `Team not found` when no team has the id, and with
    /// `Member not found` (nothing changed) when no member has the user id.
    pub fn remove_member(&mut self, team_id: &str, user_id: &str) -> (r: Result<(), String>)
        ensures
            member_removed(old(self).all(), final(self).all(), team_id@, user_id@, unit_view(r)),
    {
        proof { use_type_invariant(&*self); }
        let i = match self.find(team_id) {
            Some(i) => i,
            None => return Err(owned("Team not found")),
        };
        proof {
            assert forall|k: int| team_at(self.teams@, team_id@, k) implies k == i by {}
        }
        let mut found = false;
        let mut j: usize = 0;
        #[verifier::loop_isolation(false)]
        while j < self.teams[i].members.len()
            invariant
                j <= self.teams@[i as int].members@.len(),
                found == exists|k: int| 0 <= k < j && member_at(self.teams@[i as int].members@, user_id@, k),
            decreases self.teams@[i as int].members@.len() - j,
        {
            if str_eq(self.teams[i].members[j].user_id.as_str(), user_id) {
                found = true;
                assert(member_at(self.teams@[i as int].members@, user_id@, j as int));
            } else {
                assert(!member_at(self.teams@[i as int].members@, user_id@, j as int));
            }
            j = j + 1;
        }
        if !found {
            return Err(owned("Member not found"));
        }
        let mut team = self.take_team(i);
        let mut kept: Vec<TeamMember> = Vec::new();
        let mut members: Vec<TeamMember> = Vec::new();
        std::mem::swap(&mut members, &mut team.members);
        let ghost all_members = members@;
        let n = members.len();
        let mut k: usize = 0;
        assert(all_members.subrange(0, n as int) =~= all_members);
        while k < n
            invariant
                n == all_members.len(),
                k <= n,
                members@ == all_members.subrange(k as int, n as int),
                kept@ == without_user(all_members.subrange(0, k as int), user_id@),
            decreases n - k,
        {
            let m = members.remove(0);
            assert(m == all_members[k as int]);
            assert(all_members.subrange(0, k + 1).drop_last() =~= all_members.subrange(0, k as int));
            if !str_eq(m.user_id.as_str(), user_id) {
                kept.push(m);
            }
            k = k + 1;
            assert(members@ =~= all_members.subrange(k as int, n as int));
        }
        assert(kept@.len() <= all_members.len()) by {
            lemma_without_user_len(all_members, user_id@);
        }
        team.members = kept;
        self.put_team(i, team);
        Ok(())
    }

    /// Gives the first member with the user id a new role.
    ///
    /// Refused with `Team not found` when no team has the id and with
    /// `Member not found` when no member has the user id, nothing changed.
    pub fn update_member_role(&mut self, team_id: &str, user_id: &str, role: TeamRole) -> (r: Result<(), String>)
        ensures
            !has_team(old(self).all(), team_id@) ==> r is Err && r->Err_0@ == "Team not found"@ && final(self).all() == old(self).all(),
            forall|i: int| #[trigger] team_at(old(self).all(), team_id@, i) ==> {
                let t = old(self).all()[i];
                if !has_member(t.members@, user_id@) {
                    r is Err && r->Err_0@ == "Member not found"@ && final(self).all() == old(self).all()
                } else {
                    &&& r is Ok
                    &&& final(self).all().len() == old(self).all().len()
                    &&& forall|k: int| 0 <= k < old(self).all().len() && k != i ==> final(self).all()[k] == old(self).all()[k]
                    &&& final(self).all()[i] == (Team { members: final(self).all()[i].members, ..t })
                    &&& exists|j: int| #[trigger] member_at(t.members@, user_id@, j)
                        && (forall|q: int| 0 <= q < j ==> !member_at(t.members@, user_id@, q))
                        && final(self).all()[i].members@ == t.members@.update(j, TeamMember { role, ..t.members@[j] })
                }
            },
    {
        proof { use_type_invariant(&*self); }
        let i = match self.find(team_id) {
            Some(i) => i,
            None => return Err(owned("Team not found")),
        };
        proof {
            assert forall|k: int| team_at(self.teams@, team_id@, k) implies k == i by {}
        }
        let mut j: usize = 0;
        #[verifier::loop_isolation(false)]
        while j < self.teams[i].members.len()
            invariant
                j <= self.teams@[i as int].members@.len(),
                forall|q: int| 0 <= q < j ==> !member_at(self.teams@[i as int].members@, user_id@, q),
            decreases self.teams@[i as int].members@.len() - j,
        {
            if str_eq(self.teams[i].members[j].user_id.as_str(), user_id) {
                break;
            }
            j = j + 1;
        }
        if j == self.teams[i].members.len() {
            return Err(owned("Member not found"));
        }
        assert(member_at(self.teams@[i as int].members@, user_id@, j as int));
        let mut team = self.take_team(i);
        let mut m = team.members.remove(j);
        m.role = role;
        team.members.insert(j, m);
        self.put_team(i, team);
        Ok(())
    }

    /// The team with the id, if any.
    pub fn get_team(&self, team_id: &str) -> (r: Option<&Team>)
        ensures
            match r {
                Some(t) => exists|i: int| team_at(self.all(), team_id@, i) && *t == self.all()[i],
                None => !has_team(self.all(), team_id@),
            },
    {
        match self.find(team_id) {
            Some(i) => Some(&self.teams[i]),
            None => None,
        }
    }

    /// Every team.
    pub fn list_teams(&self) -> (r: Vec<&Team>)
        ensures
            r@.len() == self.all().len(),
            forall|k: int| 0 <= k < r@.len() ==> *r@[k] == self.all()[k],
    {
        let mut out: Vec<&Team> = Vec::new();
        let mut k: usize = 0;
        while k < self.teams.len()
            invariant
                k <= self.teams@.len(),
                out@.len() == k,
                forall|q: int| 0 <= q < k ==> *out@[q] == self.teams@[q],
            decreases self.teams.len() - k,
        {
            out.push(&self.teams[k]);
            k = k + 1;
        }
        out
    }

    /// The members of the team with the id, if any.
    pub fn get_members(&self, team_id: &str) -> (r: Option<Vec<&TeamMember>>)
        ensures
            match r {
                Some(v) => exists|i: int| team_at(self.all(), team_id@, i)
                    && v@.len() == self.all()[i].members@.len()
                    && forall|k: int| 0 <= k < v@.len() ==> *v@[k] == self.all()[i].members@[k],
                None => !has_team(self.all(), team_id@),
            },
    {
        match self.find(team_id) {
            Some(i) => {
                let mut out: Vec<&TeamMember> = Vec::new();
                let mut k: usize = 0;
                while k < self.teams[i].members.len()
                    invariant
                        0 <= i < self.teams@.len(),
                        k <= self.teams@[i as int].members@.len(),
                        out@.len() == k,
                        forall|q: int| 0 <= q < k ==> *out@[q] == self.teams@[i as int].members@[q],
                    decreases self.teams@[i as int].members@.len() - k,
                {
                    out.push(&self.teams[i].members[k]);
                    k = k + 1;
                }
                Some(out)
            }
            None => None,
        }
    }

    /// Whether the first member with the user id in the team holds the
    /// permission, or is its owner or an admin.
    pub fn has_permission(&self, team_id: &str, user_id: &str, permission: &str) -> (r: bool)
        ensures
            r == exists|i: int, j: int| #[trigger] team_at(self.all(), team_id@, i)
                && #[trigger] member_at(self.all()[i].members@, user_id@, j)
                && (forall|q: int| 0 <= q < j ==> !member_at(self.all()[i].members@, user_id@, q))
                && (holds_permission(self.all()[i].members@[j].permissions@, permission@)
                    || self.all()[i].members@[j].role == TeamRole::Owner
                    || self.all()[i].members@[j].role == TeamRole::Admin),
    {
        proof { use_type_invariant(self); }
        let i = match self.find(team_id) {
            Some(i) => i,
            None => return false,
        };
        proof {
            assert forall|k: int| team_at(self.teams@, team_id@, k) implies k == i by {}
        }
        let mut j: usize = 0;
        #[verifier::loop_isolation(false)]
        while j < self.teams[i].members.len()
            invariant
                j <= self.teams@[i as int].members@.len(),
                forall|q: int| 0 <= q < j ==> !member_at(self.teams@[i as int].members@, user_id@, q),
            decreases self.teams@[i as int].members@.len() - j,
        {
            if str_eq(self.teams[i].members[j].user_id.as_str(), user_id) {
                let m = &self.teams[i].members[j];
                let mut has = false;
                let mut p: usize = 0;
                while p < m.permissions.len()
                    invariant
                        p <= m.permissions@.len(),
                        has == exists|q: int| 0 <= q < p && m.permissions@[q]@ == permission@,
                    decreases m.permissions@.len() - p,
                {
                    if str_eq(m.permissions[p].as_str(), permission) {
                        has = true;
                        assert(m.permissions@[p as int]@ == permission@);
                    }
                    p = p + 1;
                }
                let res = has || m.role == TeamRole::Owner || m.role == TeamRole::Admin;
                proof {
                    assert(member_at(self.teams@[i as int].members@, user_id@, j as int));
                    if !res {
                        assert forall|a: int, b: int| team_at(self.teams@, team_id@, a)
                            && member_at(self.teams@[a].members@, user_id@, b)
                            && (forall|q: int| 0 <= q < b ==> !member_at(self.teams@[a].members@, user_id@, q))
                            implies !(holds_permission(self.teams@[a].members@[b].permissions@, permission@)
                                || self.teams@[a].members@[b].role == TeamRole::Owner
                                || self.teams@[a].members@[b].role == TeamRole::Admin) by {
                            assert(a == i);
                            if b < j {} else if b > j { assert(!member_at(self.teams@[a].members@, user_id@, j as int)); }
                        }
                    }
                }
                return res;
            }
            j = j + 1;
        }
        false
    }
}

/// The `{:?}` name of a role.
pub open spec fn role_debug(r: TeamRole) -> Seq<char> {
    match r {
        TeamRole::Owner => "Owner"@,
        TeamRole::Admin => "Admin"@,
        TeamRole::Member => "Member"@,
        TeamRole::Viewer => "Viewer"@,
    }
}

fn role_debug_text(r: TeamRole) -> (s: String)
    ensures
        s@ == role_debug(r),
{
    match r {
        TeamRole::Owner => owned("Owner"),
        TeamRole::Admin => owned("Admin"),
        TeamRole::Member => owned("Member"),
        TeamRole::Viewer => owned("Viewer"),
    }
}

/// The listing line of a team.
pub open spec fn team_line(t: Team) -> Seq<char> {
    "- "@ + t.name@ + " ("@ + dec(t.members@.len()) + " members)\n"@
}

/// The listing lines of teams, in order.
pub open spec fn team_lines(ts: Seq<Team>) -> Seq<char>
    decreases ts.len(),
{
    if ts.len() == 0 { seq![] } else { team_lines(ts.drop_last()) + team_line(ts.last()) }
}

/// The listing line of a member.
pub open spec fn member_line(m: TeamMember) -> Seq<char> {
    "- "@ + m.name@ + " ("@ + m.email@ + ") - "@ + role_debug(m.role) + "\n"@
}

/// The listing lines of members, in order.
pub open spec fn member_lines(ms: Seq<TeamMember>) -> Seq<char>
    decreases ms.len(),
{
    if ms.len() == 0 { seq![] } else { member_lines(ms.drop_last()) + member_line(ms.last()) }
}

/// The settings report of a team.
pub open spec fn settings_text(t: Team) -> Seq<char> {
    "Team Settings for '"@ + t.name@ + "':\n- Max Members: "@ + dec(t.settings.max_members as nat)
        + "\n- External Sharing: "@ + bool_text(t.settings.allow_external_sharing)
        + "\n- Require 2FA: "@ + bool_text(t.settings.require_2fa)
        + "\n- Audit Logs: "@ + bool_text(t.settings.audit_logs_enabled)
}

/// A text result as plain values.
pub open spec fn text_view(r: Result<String, String>) -> Result<Seq<char>, Seq<char>> {
    match r {
        Ok(s) => Ok(s@),
        Err(e) => Err(e@),
    }
}

/// The argument at `k`, or `d` when there are fewer.
pub open spec fn arg_or(args: Seq<Seq<char>>, k: int, d: Seq<char>) -> Seq<char> {
    if k < args.len() { args[k] } else { d }
}

/// What a `team` subcommand comes to on the teams `before`: the teams after
/// it and its reply.
pub open spec fn team_cmd_outcome(before: Seq<Team>, after: Seq<Team>, subcmd: Seq<char>, args: Seq<Seq<char>>, r: Result<Seq<char>, Seq<char>>) -> bool {
    if subcmd == "create"@ {
        if args.len() == 0 {
            after == before && r == Err::<Seq<char>, Seq<char>>("Please specify team name"@)
        } else {
            exists|id: Seq<char>| team_created(before, after, args[0], arg_or(args, 1, "Default team"@), id)
                && r == Ok::<Seq<char>, Seq<char>>("Created team '"@ + args[0] + "' with ID: "@ + id)
        }
    } else if subcmd == "list"@ || subcmd == "ls"@ {
        after == before && r == Ok::<Seq<char>, Seq<char>>(
            if before.len() == 0 { "No teams found"@ } else { "Teams:\n"@ + team_lines(before) })
    } else if subcmd == "add-member"@ {
        if args.len() == 0 {
            after == before && r == Err::<Seq<char>, Seq<char>>("Please specify team ID"@)
        } else if args.len() == 1 {
            after == before && r == Err::<Seq<char>, Seq<char>>("Please specify user ID"@)
        } else {
            exists|u: Result<(), Seq<char>>| member_added(before, after, args[0], args[1],
                arg_or(args, 2, "user@example.com"@), arg_or(args, 3, "User"@), TeamRole::Member, u)
                && r == match u {
                    Ok(_) => Ok::<Seq<char>, Seq<char>>("Member added successfully"@),
                    Err(e) => Err(e),
                }
        }
    } else if subcmd == "remove-member"@ {
        if args.len() == 0 {
            after == before && r == Err::<Seq<char>, Seq<char>>("Please specify team ID"@)
        } else if args.len() == 1 {
            after == before && r == Err::<Seq<char>, Seq<char>>("Please specify user ID"@)
        } else {
            exists|u: Result<(), Seq<char>>| member_removed(before, after, args[0], args[1], u)
                && r == match u {
                    Ok(_) => Ok::<Seq<char>, Seq<char>>("Member removed successfully"@),
                    Err(e) => Err(e),
                }
        }
    } else if subcmd == "members"@ {
        after == before && if args.len() == 0 {
            r == Err::<Seq<char>, Seq<char>>("Please specify team ID"@)
        } else if has_team(before, args[0]) {
            exists|i: int| team_at(before, args[0], i)
                && r == Ok::<Seq<char>, Seq<char>>("Team "@ + args[0] + " members:\n"@ + member_lines(before[i].members@))
        } else {
            r == Ok::<Seq<char>, Seq<char>>("Team not found"@)
        }
    } else if subcmd == "settings"@ {
        after == before && if args.len() == 0 {
            r == Err::<Seq<char>, Seq<char>>("Please specify team ID"@)
        } else if has_team(before, args[0]) {
            exists|i: int| team_at(before, args[0], i) && r == Ok::<Seq<char>, Seq<char>>(settings_text(before[i]))
        } else {
            r == Ok::<Seq<char>, Seq<char>>("Team not found"@)
        }
    } else {
        after == before && r == Err::<Seq<char>, Seq<char>>("Unknown team command: "@ + subcmd)
    }
}

fn team_line_text(t: &Team) -> (r: String)
    ensures
        r@ == team_line(*t),
{
    let mut r = cat3("- ", t.name.as_str(), " (");
    push_str(&mut r, u64_to_string(t.members.len() as u64).as_str());
    push_str(&mut r, " members)\n");
    r
}

fn member_line_text(m: &TeamMember) -> (r: String)
    ensures
        r@ == member_line(*m),
{
    let mut r = cat3("- ", m.name.as_str(), " (");
    push_str(&mut r, m.email.as_str());
    push_str(&mut r, ") - ");
    push_str(&mut r, role_debug_text(m.role).as_str());
    push_str(&mut r, "\n");
    r
}

fn settings_report(t: &Team) -> (r: String)
    ensures
        r@ == settings_text(*t),
{
    let mut r = cat3("Team Settings for '", t.name.as_str(), "':\n- Max Members: ");
    push_str(&mut r, u64_to_string(t.settings.max_members as u64).as_str());
    push_str(&mut r, "\n- External Sharing: ");
    push_str(&mut r, bool_to_string(t.settings.allow_external_sharing).as_str());
    push_str(&mut r, "\n- Require 2FA: ");
    push_str(&mut r, bool_to_string(t.settings.require_2fa).as_str());
    push_str(&mut r, "\n- Audit Logs: ");
    push_str(&mut r, bool_to_string(t.settings.audit_logs_enabled).as_str());
    r
}

fn list_reply(manager: &TeamManager) -> (r: String)
    ensures
        r@ == if manager.all().len() == 0 { "No teams found"@ } else { "Teams:\n"@ + team_lines(manager.all()) },
{
    let teams = manager.list_teams();
    if teams.len() == 0 {
        return owned("No teams found");
    }
    let ghost all = manager.all();
    let mut out = owned("Teams:\n");
    let mut k: usize = 0;
    while k < teams.len()
        invariant
            teams@.len() == all.len(),
            forall|q: int| 0 <= q < teams@.len() ==> *teams@[q] == all[q],
            k <= teams@.len(),
            out@ == "Teams:\n"@ + team_lines(all.subrange(0, k as int)),
        decreases teams.len() - k,
    {
        assert(all.subrange(0, k + 1).drop_last() =~= all.subrange(0, k as int));
        let line = team_line_text(teams[k]);
        push_str(&mut out, line.as_str());
        k = k + 1;
    }
    assert(all.subrange(0, all.len() as int) =~= all);
    out
}

fn members_reply(manager: &TeamManager, team_id: &str) -> (r: String)
    ensures
        if has_team(manager.all(), team_id@) {
            exists|i: int| team_at(manager.all(), team_id@, i)
                && r@ == "Team "@ + team_id@ + " members:\n"@ + member_lines(manager.all()[i].members@)
        } else {
            r@ == "Team not found"@
        },
{
    match manager.get_members(team_id) {
        Some(members) => {
            let ghost i = choose|i: int| team_at(manager.all(), team_id@, i)
                && members@.len() == manager.all()[i].members@.len()
                && forall|k: int| 0 <= k < members@.len() ==> *members@[k] == manager.all()[i].members@[k];
            let ghost ms = manager.all()[i].members@;
            let mut out = cat3("Team ", team_id, " members:\n");
            let ghost base = out@;
            let mut k: usize = 0;
            while k < members.len()
                invariant
                    members@.len() == ms.len(),
                    forall|q: int| 0 <= q < members@.len() ==> *members@[q] == ms[q],
                    k <= members@.len(),
                    out@ == base + member_lines(ms.subrange(0, k as int)),
                decreases members.len() - k,
            {
                assert(ms.subrange(0, k + 1).drop_last() =~= ms.subrange(0, k as int));
                let line = member_line_text(members[k]);
                push_str(&mut out, line.as_str());
                k = k + 1;
            }
            assert(ms.subrange(0, ms.len() as int) =~= ms);
            out
        },
        None => owned("Team not found"),
    }
}

/// Runs a `team` subcommand on the teams, `owner` being the user that runs it.
pub fn run_team_cmd(manager: &mut TeamManager, owner: &str, subcmd: &str, args: &Vec<String>) -> (r: Result<String, String>)
    ensures
        team_cmd_outcome(old(manager).all(), final(manager).all(), subcmd@, views(args@), text_view(r)),
{
    proof {
        reveal_strlit("create");
        reveal_strlit("list");
        reveal_strlit("ls");
        reveal_strlit("add-member");
        reveal_strlit("remove-member");
        reveal_strlit("members");
        reveal_strlit("settings");
        assert("create"@.len() == 6 && "create"@[0] == 'c');
        assert("list"@.len() == 4 && "list"@[0] == 'l');
        assert("ls"@.len() == 2 && "ls"@[0] == 'l');
        assert("add-member"@.len() == 10 && "add-member"@[0] == 'a');
        assert("remove-member"@.len() == 13 && "remove-member"@[0] == 'r');
        assert("members"@.len() == 7 && "members"@[0] == 'm');
        assert("settings"@.len() == 8 && "settings"@[0] == 's');
        assert forall|k: int| 0 <= k < args@.len() implies views(args@)[k] == args@[k]@ by {}
    }
    if str_eq(subcmd, "create") {
        if args.len() == 0 {
            return Err(owned("Please specify team name"));
        }
        let name = args[0].as_str();
        let description: &str = if args.len() > 1 { args[1].as_str() } else { "Default team" };
        let id = manager.create_team(name, description, owner);
        assert(description@ == arg_or(views(args@), 1, "Default team"@));
        assert(team_created(old(manager).all(), manager.all(), views(args@)[0], arg_or(views(args@), 1, "Default team"@), id@));
        let mut m = cat3("Created team '", name, "' with ID: ");
        push_str(&mut m, id.as_str());
        return Ok(m);
    }
    if str_eq(subcmd, "list") || str_eq(subcmd, "ls") {
        return Ok(list_reply(manager));
    }
    if str_eq(subcmd, "add-member") {
        if args.len() == 0 {
            return Err(owned("Please specify team ID"));
        }
        if args.len() == 1 {
            return Err(owned("Please specify user ID"));
        }
        let email: &str = if args.len() > 2 { args[2].as_str() } else { "user@example.com" };
        let name: &str = if args.len() > 3 { args[3].as_str() } else { "User" };
        let u = manager.add_member(args[0].as_str(), args[1].as_str(), email, name, TeamRole::Member);
        assert(email@ == arg_or(views(args@), 2, "user@example.com"@));
        assert(name@ == arg_or(views(args@), 3, "User"@));
        assert(member_added(old(manager).all(), manager.all(), views(args@)[0], views(args@)[1],
            arg_or(views(args@), 2, "user@example.com"@), arg_or(views(args@), 3, "User"@), TeamRole::Member, unit_view(u)));
        return match u {
            Ok(_) => Ok(owned("Member added successfully")),
            Err(e) => Err(e),
        };
    }
    if str_eq(subcmd, "remove-member") {
        if args.len() == 0 {
            return Err(owned("Please specify team ID"));
        }
        if args.len() == 1 {
            return Err(owned("Please specify user ID"));
        }
        let u = manager.remove_member(args[0].as_str(), args[1].as_str());
        assert(member_removed(old(manager).all(), manager.all(), views(args@)[0], views(args@)[1], unit_view(u)));
        return match u {
            Ok(_) => Ok(owned("Member removed successfully")),
            Err(e) => Err(e),
        };
    }
    if str_eq(subcmd, "members") {
        if args.len() == 0 {
            return Err(owned("Please specify team ID"));
        }
        return Ok(members_reply(manager, args[0].as_str()));
    }
    if str_eq(subcmd, "settings") {
        if args.len() == 0 {
            return Err(owned("Please specify team ID"));
        }
        return match manager.get_team(args[0].as_str()) {
            Some(t) => Ok(settings_report(t)),
            None => Ok(owned("Team not found")),
        };
    }
    Err(cat("Unknown team command: ", subcmd))
}

} // verus!
