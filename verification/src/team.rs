//! Player teams: colour, prefix, suffix, friendly fire and members.

use vstd::prelude::*;
use vstd::string::*;
use crate::table::{Table, TableKey};

verus! {

/// A team.
#[derive(Debug, Clone)]
pub struct Team {
    pub name: String,
    pub color: String,
    pub prefix: String,
    pub suffix: String,
    pub friendly_fire: bool,
    pub members: Table<u128, ()>,
}

/// A team as the specification sees it (its name is its key).
pub struct TeamView {
    pub color: Seq<char>,
    pub prefix: Seq<char>,
    pub suffix: Seq<char>,
    pub friendly_fire: bool,
    pub members: Set<u128>,
}

pub open spec fn team_view(t: Team) -> TeamView {
    TeamView {
        color: t.color@,
        prefix: t.prefix@,
        suffix: t.suffix@,
        friendly_fire: t.friendly_fire,
        members: t.members.map().dom(),
    }
}

impl Team {
    /// A team with no prefix, suffix or members, and friendly fire on.
    pub fn new(name: &str, color: &str) -> (r: Team)
        ensures
            r.name@ == name@,
            r.members.wf(),
            team_view(r) == (TeamView {
                color: color@,
                prefix: Seq::empty(),
                suffix: Seq::empty(),
                friendly_fire: true,
                members: Set::empty(),
            }),
    {
        let r = Team {
            name: String::from_str(name),
            color: String::from_str(color),
            prefix: String::new(),
            suffix: String::new(),
            friendly_fire: true,
            members: Table::new(),
        };
        assert(r.members.map().dom() =~= Set::<u128>::empty());
        r
    }

    /// Number of members.
    pub fn member_count(&self) -> (r: usize)
        requires
            self.members.wf(),
        ensures
            r == self.members.map().dom().len(),
    {
        proof { self.members.lemma_positions(); }
        self.members.len()
    }
}

/// Teams and player records after `join_team(name, uuid)`: the player
/// leaves the team it was recorded in (if that team exists), then joins
/// `name` and is recorded in it, when `name` exists.
pub open spec fn join_step(
    teams: Map<Seq<char>, TeamView>,
    pt: Map<u128, Seq<char>>,
    name: Seq<char>,
    uuid: u128,
) -> (Map<Seq<char>, TeamView>, Map<u128, Seq<char>>) {
    let left = leave_members(teams, pt, uuid);
    if teams.contains_key(name) {
        (
            left.insert(name, TeamView { members: left[name].members.insert(uuid), ..left[name] }),
            pt.insert(uuid, name),
        )
    } else {
        (left, pt)
    }
}

/// Teams after taking `uuid` out of the members of its recorded team.
pub open spec fn leave_members(
    teams: Map<Seq<char>, TeamView>,
    pt: Map<u128, Seq<char>>,
    uuid: u128,
) -> Map<Seq<char>, TeamView> {
    if pt.contains_key(uuid) && teams.contains_key(pt[uuid]) {
        let o = pt[uuid];
        teams.insert(o, TeamView { members: teams[o].members.remove(uuid), ..teams[o] })
    } else {
        teams
    }
}

/// Teams and player records after `leave_team(uuid)`.
pub open spec fn leave_step(
    teams: Map<Seq<char>, TeamView>,
    pt: Map<u128, Seq<char>>,
    uuid: u128,
) -> (Map<Seq<char>, TeamView>, Map<u128, Seq<char>>) {
    (leave_members(teams, pt, uuid), pt.remove(uuid))
}

/// Teams after `add_team(name, color)`: a new empty team unless the name
/// is taken.
pub open spec fn add_step(teams: Map<Seq<char>, TeamView>, name: Seq<char>, color: Seq<char>) -> Map<Seq<char>, TeamView> {
    if teams.contains_key(name) {
        teams
    } else {
        teams.insert(name, TeamView {
            color,
            prefix: Seq::empty(),
            suffix: Seq::empty(),
            friendly_fire: true,
            members: Set::empty(),
        })
    }
}

/// Teams and player records after `remove_team(name)`: the team goes, and
/// so do the records of its members.
pub open spec fn remove_step(
    teams: Map<Seq<char>, TeamView>,
    pt: Map<u128, Seq<char>>,
    name: Seq<char>,
) -> (Map<Seq<char>, TeamView>, Map<u128, Seq<char>>) {
    (
        teams.remove(name),
        if teams.contains_key(name) { pt.remove_keys(teams[name].members) } else { pt },
    )
}

/// Every member of a team is recorded as being in that team.
pub open spec fn members_recorded(teams: Map<Seq<char>, TeamView>, pt: Map<u128, Seq<char>>) -> bool {
    forall|n: Seq<char>, m: u128| #[trigger] teams.contains_key(n) && #[trigger] teams[n].members.contains(m)
        ==> pt.contains_key(m) && pt[m] == n
}

/// Where members are recorded, a player is a member of at most one team.
pub proof fn one_team_per_player(teams: Map<Seq<char>, TeamView>, pt: Map<u128, Seq<char>>, m: u128, a: Seq<char>, b: Seq<char>)
    requires
        members_recorded(teams, pt),
        teams.contains_key(a) && teams[a].members.contains(m),
        teams.contains_key(b) && teams[b].members.contains(m),
    ensures
        a == b,
{
}

/// Adding, removing, joining and leaving teams each keep every member
/// recorded in the team it is in (the manager starts with no teams, where
/// this holds).
pub proof fn team_operations_keep_membership(
    teams: Map<Seq<char>, TeamView>,
    pt: Map<u128, Seq<char>>,
    name: Seq<char>,
    color: Seq<char>,
    uuid: u128,
)
    requires
        members_recorded(teams, pt),
    ensures
        members_recorded(add_step(teams, name, color), pt),
        members_recorded(remove_step(teams, pt, name).0, remove_step(teams, pt, name).1),
        members_recorded(join_step(teams, pt, name, uuid).0, join_step(teams, pt, name, uuid).1),
        members_recorded(leave_step(teams, pt, uuid).0, leave_step(teams, pt, uuid).1),
        members_recorded(Map::empty(), Map::empty()),
{
    let t1 = add_step(teams, name, color);
    assert forall|n: Seq<char>, m: u128| #[trigger] t1.contains_key(n) && #[trigger] t1[n].members.contains(m)
        implies pt.contains_key(m) && pt[m] == n by {
        if n != name || teams.contains_key(name) {
            assert(teams.contains_key(n) && teams[n].members.contains(m));
        }
    }
    let (t2, p2) = remove_step(teams, pt, name);
    assert forall|n: Seq<char>, m: u128| #[trigger] t2.contains_key(n) && #[trigger] t2[n].members.contains(m)
        implies p2.contains_key(m) && p2[m] == n by {
        assert(teams.contains_key(n) && teams[n].members.contains(m));
        if teams.contains_key(name) && teams[name].members.contains(m) {
            assert(pt[m] == name);
        }
    }
    let lm = leave_members(teams, pt, uuid);
    let (t3, p3) = join_step(teams, pt, name, uuid);
    assert forall|n: Seq<char>, m: u128| #[trigger] t3.contains_key(n) && #[trigger] t3[n].members.contains(m)
        implies p3.contains_key(m) && p3[m] == n by {
        if teams.contains_key(name) {
            if m != uuid {
                if n == name {
                    assert(lm[name].members.contains(m));
                }
                assert(lm.contains_key(n) && lm[n].members.contains(m));
            }
        } else {
            assert(lm.contains_key(n) && lm[n].members.contains(m));
            if m == uuid {
                assert(teams.contains_key(n) && teams[n].members.contains(uuid));
                assert(pt[uuid] == n);
            }
        }
    }
    let (t4, p4) = leave_step(teams, pt, uuid);
    assert forall|n: Seq<char>, m: u128| #[trigger] t4.contains_key(n) && #[trigger] t4[n].members.contains(m)
        implies p4.contains_key(m) && p4[m] == n by {
        assert(lm.contains_key(n) && lm[n].members.contains(m));
        if m == uuid {
            assert(teams.contains_key(n) && teams[n].members.contains(uuid));
            assert(pt[uuid] == n);
        }
    }
}

/// The keys at the first `i` positions of a table.
pub open spec fn first_keys(t: Table<u128, ()>, i: int) -> Set<u128> {
    Set::new(|k: u128| exists|a: int| 0 <= a < i && #[trigger] t.key_at(a) == k)
}

/// All teams and which team each player was put in.
#[derive(Debug, Clone)]
pub struct TeamManager {
    teams: Table<String, Team>,
    player_team: Table<u128, String>,
}

impl View for TeamManager {
    type V = Map<Seq<char>, TeamView>;

    closed spec fn view(&self) -> Map<Seq<char>, TeamView> {
        self.teams.map().map_values(|t: Team| team_view(t))
    }
}

impl TeamManager {
    /// The team name recorded for each player.
    pub closed spec fn player_teams(&self) -> Map<u128, Seq<char>> {
        self.player_team.map().map_values(|s: String| s@)
    }

    /// Team names in creation order.
    pub closed spec fn team_order(&self) -> Seq<Seq<char>> {
        self.teams.keys()
    }

    pub closed spec fn wf(&self) -> bool {
        &&& self.teams.wf()
        &&& self.player_team.wf()
        &&& forall|k: Seq<char>| #[trigger] self.teams.map().contains_key(k) ==>
            self.teams.map()[k].members.wf() && self.teams.map()[k].name@ == k
    }

    pub fn new() -> (r: TeamManager)
        ensures
            r.wf(),
            r@ == Map::<Seq<char>, TeamView>::empty(),
            r.player_teams() == Map::<u128, Seq<char>>::empty(),
    {
        let r = TeamManager { teams: Table::new(), player_team: Table::new() };
        assert(r@ =~= Map::<Seq<char>, TeamView>::empty());
        assert(r.player_teams() =~= Map::<u128, Seq<char>>::empty());
        r
    }

    /// Creates team `name` unless it exists (an existing team is kept as is).
    pub fn add_team(&mut self, name: &str, color: &str)
        requires
            old(self).wf(),
        ensures
            final(self).wf(),
            final(self)@ == add_step(old(self)@, name@, color@),
            final(self).player_teams() == old(self).player_teams(),
    {
        let key = String::from_str(name);
        if !self.teams.contains(&key) {
            let t = Team::new(name, color);
            let ghost before = self.teams.map();
            self.teams.push_new(key, t);
            proof {
                assert(self@ =~= old(self)@.insert(name@, team_view(t)));
            }
        }
    }

    /// Removes team `name`; its members no longer have a team.
    pub fn remove_team(&mut self, name: &str)
        requires
            old(self).wf(),
        ensures
            final(self).wf(),
            (final(self)@, final(self).player_teams()) == remove_step(old(self)@, old(self).player_teams(), name@),
    {
        let key = String::from_str(name);
        match self.teams.remove(&key) {
            Some(team) => {
                let ghost members = team.members.map().dom();
                let ghost pt0 = self.player_teams();
                let ghost teams_after = self.teams;
                proof {
                    team.members.lemma_positions();
                    assert forall|k: Seq<char>| #[trigger] self.teams.map().contains_key(k) implies
                        self.teams.map()[k].members.wf() && self.teams.map()[k].name@ == k by {
                        assert(old(self).teams.map().contains_key(k));
                    }
                    assert(self@ =~= old(self)@.remove(name@));
                }
                let ghost view_after = self@;
                let n = team.members.len();
                let mut i: usize = 0;
                while i < n
                    invariant
                        n == team.members.size(),
                        i <= n,
                        team.members.wf(),
                        members == team.members.map().dom(),
                        self.player_team.wf(),
                        self.teams == teams_after,
                        self@ == view_after,
                        forall|k: Seq<char>| #[trigger] self.teams.map().contains_key(k) ==>
                            self.teams.map()[k].members.wf() && self.teams.map()[k].name@ == k,
                        forall|a: int| 0 <= a < n ==> members.contains(#[trigger] team.members.key_at(a)),
                        forall|k: u128| members.contains(k) ==> exists|a: int| 0 <= a < n && #[trigger] team.members.key_at(a) == k,
                        self.player_teams() == pt0.remove_keys(first_keys(team.members, i as int)),
                    decreases n - i,
                {
                    let uuid = *team.members.key(i);
                    let ghost before = self.player_teams();
                    let _ = self.player_team.remove(&uuid);
                    proof {
                        assert(self.player_teams() =~= before.remove(uuid));
                        let s0 = first_keys(team.members, i as int);
                        let s1 = first_keys(team.members, i + 1);
                        assert(s1 =~= s0.insert(uuid)) by {
                            assert forall|k: u128| #[trigger] s1.contains(k) <==> s0.insert(uuid).contains(k) by {
                                if k == uuid {
                                    assert(team.members.key_at(i as int) == k);
                                }
                                if s1.contains(k) && k != uuid {
                                    let a = choose|a: int| 0 <= a < i + 1 && #[trigger] team.members.key_at(a) == k;
                                    assert(a < i);
                                }
                            }
                        }
                        assert(self.player_teams() =~= pt0.remove_keys(s1));
                    }
                    i = i + 1;
                }
                proof {
                    assert(first_keys(team.members, n as int) =~= members);
                }
            },
            None => {
                proof {
                    assert(self@ =~= old(self)@.remove(name@));
                }
            },
        }
    }

    /// Takes `uuid` out of the members of the team at position `i`.
    fn drop_member(&mut self, i: usize, uuid: u128)
        requires
            old(self).wf(),
            i < old(self).teams.size(),
        ensures
            final(self).wf(),
            final(self).player_teams() == old(self).player_teams(),
            final(self).teams.size() == old(self).teams.size(),
            forall|j: int| 0 <= j < old(self).teams.size() ==> final(self).teams.key_at(j) == old(self).teams.key_at(j),
            final(self)@ == old(self)@.insert(old(self).teams.key_at(i as int), TeamView {
                members: old(self)@[old(self).teams.key_at(i as int)].members.remove(uuid),
                ..old(self)@[old(self).teams.key_at(i as int)]
            }),
    {
        let ghost k = self.teams.key_at(i as int);
        proof { self.teams.lemma_positions(); }
        let mut t = self.teams.replace_at(i, Team::new("", ""));
        let _ = t.members.remove(&uuid);
        let ghost tv = team_view(t);
        let _ = self.teams.replace_at(i, t);
        proof {
            assert(tv.members =~= old(self)@[k].members.remove(uuid));
            assert(self@ =~= old(self)@.insert(k, tv));
        }
    }

    /// Puts `uuid` in team `name`, first taking it out of the team it was
    /// recorded in. Fails when `name` does not exist; the player then stays
    /// out of the old team's members while still recorded in it.
    pub fn join_team(&mut self, name: &str, uuid: u128) -> (joined: bool)
        requires
            old(self).wf(),
        ensures
            final(self).wf(),
            joined == old(self)@.contains_key(name@),
            (final(self)@, final(self).player_teams()) == join_step(old(self)@, old(self).player_teams(), name@, uuid),
    {
        proof { self.teams.lemma_positions(); }
        match self.player_team.index_of(&uuid) {
            Some(p) => {
                let old_name = self.player_team.value_at(p).clone();
                match self.teams.index_of(&old_name) {
                    Some(j) => {
                        self.drop_member(j, uuid);
                    },
                    None => {},
                }
            },
            None => {},
        }
        let ghost left = self@;
        assert(left.dom() =~= old(self)@.dom());
        let key = String::from_str(name);
        assert(self@.dom() =~= self.teams.map().dom());
        match self.teams.index_of(&key) {
            Some(j) => {
                proof { self.teams.lemma_positions(); }
                let ghost k = self.teams.key_at(j as int);
                let mut t = self.teams.replace_at(j, Team::new("", ""));
                t.members.insert(uuid, ());
                let ghost tv = team_view(t);
                let _ = self.teams.replace_at(j, t);
                let ghost pt = self.player_teams();
                self.player_team.insert(uuid, key);
                proof {
                    assert(tv.members =~= left[name@].members.insert(uuid));
                    assert(self@ =~= left.insert(name@, tv));
                    assert(self.player_teams() =~= pt.insert(uuid, name@));
                }
                true
            },
            None => false,
        }
    }

    /// Takes `uuid` out of its recorded team.
    pub fn leave_team(&mut self, uuid: u128)
        requires
            old(self).wf(),
        ensures
            final(self).wf(),
            (final(self)@, final(self).player_teams()) == leave_step(old(self)@, old(self).player_teams(), uuid),
    {
        let ghost pt = self.player_teams();
        match self.player_team.remove(&uuid) {
            Some(name) => {
                proof { assert(self.player_teams() =~= pt.remove(uuid)); }
                match self.teams.index_of(&name) {
                    Some(j) => {
                        self.drop_member(j, uuid);
                    },
                    None => {},
                }
            },
            None => {
                proof { assert(self.player_teams() =~= pt.remove(uuid)); }
            },
        }
    }

    /// The team `uuid` is recorded in, if that team exists.
    pub fn get_team(&self, uuid: u128) -> (r: Option<&Team>)
        requires
            self.wf(),
        ensures
            match r {
                Some(t) => self.player_teams().contains_key(uuid)
                    && self@.contains_key(self.player_teams()[uuid])
                    && team_view(*t) == self@[self.player_teams()[uuid]]
                    && t.name@ == self.player_teams()[uuid],
                None => !(self.player_teams().contains_key(uuid)
                    && self@.contains_key(self.player_teams()[uuid])),
            },
    {
        match self.player_team.index_of(&uuid) {
            Some(p) => {
                let name = self.player_team.value_at(p);
                match self.teams.index_of(name) {
                    Some(j) => Some(self.teams.value_at(j)),
                    None => None,
                }
            },
            None => None,
        }
    }

    /// The team named `name`.
    pub fn team_named(&self, name: &str) -> (r: Option<&Team>)
        requires
            self.wf(),
        ensures
            match r {
                Some(t) => self@.contains_key(name@) && team_view(*t) == self@[name@] && t.name@ == name@
                    && t.members.wf(),
                None => !self@.contains_key(name@),
            },
    {
        let key = String::from_str(name);
        match self.teams.index_of(&key) {
            Some(j) => Some(self.teams.value_at(j)),
            None => None,
        }
    }

    /// All teams, in creation order.
    pub fn list_teams(&self) -> (r: Vec<&Team>)
        requires
            self.wf(),
        ensures
            r@.len() == self@.dom().len(),
            r@.len() == self.team_order().len(),
            forall|i: int| 0 <= i < r@.len() ==> self@.contains_key(#[trigger] r@[i].name@)
                && team_view(*r@[i]) == self@[r@[i].name@] && r@[i].members.wf()
                && r@[i].name@ == self.team_order()[i],
            forall|k: Seq<char>| self@.contains_key(k) ==> exists|i: int| 0 <= i < r@.len() && #[trigger] r@[i].name@ == k,
    {
        proof { self.teams.lemma_positions(); }
        let mut out: Vec<&Team> = Vec::new();
        let n = self.teams.len();
        let mut i: usize = 0;
        while i < n
            invariant
                n == self.teams.size(),
                i <= n,
                self.wf(),
                out@.len() == i,
                forall|a: int| 0 <= a < i ==> #[trigger] out@[a].name@ == self.teams.key_at(a)
                    && self@.contains_key(self.teams.key_at(a))
                    && team_view(*out@[a]) == self@[self.teams.key_at(a)] && out@[a].members.wf(),
            decreases n - i,
        {
            proof {
                self.teams.lemma_positions();
                assert(self.teams.map().contains_key(self.teams.key_at(i as int)));
            }
            let t = self.teams.value_at(i);
            let ghost old_out = out@;
            out.push(t);
            proof {
                let k = self.teams.key_at(i as int);
                assert(self.teams.map().contains_key(k));
                assert(out@[i as int] == self.teams.map()[k]);
                assert(out@[i as int].name@ == k);
                assert(self@.contains_key(k));
                assert(team_view(*out@[i as int]) == self@[k]);
                assert(out@[i as int].members.wf());
                assert forall|a: int| 0 <= a < i + 1 implies #[trigger] out@[a].name@ == self.teams.key_at(a)
                    && self@.contains_key(self.teams.key_at(a))
                    && team_view(*out@[a]) == self@[self.teams.key_at(a)] && out@[a].members.wf() by {
                    if a < i {
                        assert(out@[a] == old_out[a]);
                    }
                }
            }
            i = i + 1;
        }
        proof {
            self.teams.lemma_positions();
            assert forall|a: int| 0 <= a < out@.len() implies #[trigger] out@[a].name@ == self.team_order()[a] by {
                assert(self.team_order()[a] == self.teams.key_at(a));
            }
            assert(self@.dom() =~= self.teams.map().dom());
            assert forall|k: Seq<char>| self@.contains_key(k) implies exists|i: int| 0 <= i < out@.len() && #[trigger] out@[i].name@ == k by {
                let a = choose|a: int| 0 <= a < self.teams.size() && #[trigger] self.teams.key_at(a) == k;
                assert(out@[a].name@ == k);
            }
        }
        out
    }
}

impl Default for TeamManager {
    fn default() -> (r: TeamManager)
        ensures
            r.wf(),
            r@ == Map::<Seq<char>, TeamView>::empty(),
            r.player_teams() == Map::<u128, Seq<char>>::empty(),
    {
        TeamManager::new()
    }
}

} // verus!
