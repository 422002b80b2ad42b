//! Scoreboard objectives and scores, and the `/scoreboard` command.
//!
//! ```text
//! scoreboard objectives add <name> <criteria> [displayName]
//! scoreboard objectives remove <name>
//! scoreboard objectives list
//! scoreboard players set <player> <objective> <value>
//! scoreboard players get <player> <objective>
//! scoreboard players add <player> <objective> <value>
//! ```

use vstd::prelude::*;
use vstd::string::*;
use crate::table::{Table, TableKey};
use crate::commands::context::{
    arg_views, emit, event_view, event_views, reply_view, CommandContext, CommandResult, EventView, ReplyView,
    ServerData, ServerEvent,
};
use crate::text::{i32_of, i32_opt, join, joined, lowercase, push_i64, signed_decimal, str_eq, to_lowercase, views};

verus! {

/// A scoreboard objective.
#[derive(Debug, Clone)]
pub struct ScoreboardObjective {
    pub name: String,
    /// "dummy", "deathCount", ...
    pub criteria: String,
    pub display_name: String,
}

/// All objectives and every player's score in each.
#[derive(Debug, Clone)]
pub struct ScoreboardData {
    objectives: Table<String, ScoreboardObjective>,
    /// objective -> (player -> value)
    scores: Table<String, Table<String, i32>>,
}

/// The map after setting one score.
pub open spec fn with_score(
    scores: Map<(Seq<char>, Seq<char>), i32>,
    player: Seq<char>,
    objective: Seq<char>,
    value: i32,
) -> Map<(Seq<char>, Seq<char>), i32> {
    scores.insert((objective, player), value)
}

/// A player's score, or 0 when it has none.
pub open spec fn score_or_zero(scores: Map<(Seq<char>, Seq<char>), i32>, player: Seq<char>, objective: Seq<char>) -> int {
    if scores.contains_key((objective, player)) {
        scores[(objective, player)] as int
    } else {
        0
    }
}

/// Whether adding `delta` to the current score stays within `i32`.
pub open spec fn add_in_range(scores: Map<(Seq<char>, Seq<char>), i32>, player: Seq<char>, objective: Seq<char>, delta: i32) -> bool {
    i32::MIN <= score_or_zero(scores, player, objective) + delta <= i32::MAX
}

impl ScoreboardData {
    /// Objectives by name: (criteria, display name).
    pub closed spec fn objectives_view(&self) -> Map<Seq<char>, (Seq<char>, Seq<char>)> {
        self.objectives.map().map_values(|o: ScoreboardObjective| (o.criteria@, o.display_name@))
    }

    /// Scores by (objective, player).
    pub closed spec fn scores_view(&self) -> Map<(Seq<char>, Seq<char>), i32> {
        Map::new(
            |k: (Seq<char>, Seq<char>)| self.scores.map().contains_key(k.0) && self.scores.map()[k.0].map().contains_key(k.1),
            |k: (Seq<char>, Seq<char>)| self.scores.map()[k.0].map()[k.1],
        )
    }

    /// Objective names in creation order.
    pub closed spec fn objective_order(&self) -> Seq<Seq<char>> {
        self.objectives.keys()
    }

    /// Tables are well formed, each objective is stored under its name and
    /// scores exist only for existing objectives.
    pub closed spec fn wf(&self) -> bool {
        &&& self.objectives.wf()
        &&& self.scores.wf()
        &&& forall|k: Seq<char>| #[trigger] self.objectives.map().contains_key(k) ==> self.objectives.map()[k].name@ == k
        &&& forall|k: Seq<char>| #[trigger] self.scores.map().contains_key(k) ==>
            self.scores.map()[k].wf() && self.objectives.map().contains_key(k)
    }

    pub fn new() -> (r: ScoreboardData)
        ensures
            r.wf(),
            r.objectives_view() == Map::<Seq<char>, (Seq<char>, Seq<char>)>::empty(),
            r.scores_view() == Map::<(Seq<char>, Seq<char>), i32>::empty(),
    {
        let r = ScoreboardData { objectives: Table::new(), scores: Table::new() };
        assert(r.objectives_view() =~= Map::<Seq<char>, (Seq<char>, Seq<char>)>::empty());
        assert(r.scores_view() =~= Map::<(Seq<char>, Seq<char>), i32>::empty());
        r
    }

    /// Whether objective `name` exists.
    pub fn has_objective(&self, name: &str) -> (r: bool)
        requires
            self.wf(),
        ensures
            r == self.objectives_view().contains_key(name@),
    {
        self.objectives.contains(&String::from_str(name))
    }

    /// Creates an objective unless one with that name exists; tells whether
    /// it did.
    pub fn add_objective(&mut self, name: &str, criteria: &str, display_name: &str) -> (added: bool)
        requires
            old(self).wf(),
        ensures
            final(self).wf(),
            added == !old(self).objectives_view().contains_key(name@),
            final(self).objectives_view() == if added {
                old(self).objectives_view().insert(name@, (criteria@, display_name@))
            } else {
                old(self).objectives_view()
            },
            final(self).scores_view() == old(self).scores_view(),
            final(self).objective_order() == if added {
                old(self).objective_order().push(name@)
            } else {
                old(self).objective_order()
            },
    {
        let key = String::from_str(name);
        if self.objectives.contains(&key) {
            false
        } else {
            let o = ScoreboardObjective {
                name: String::from_str(name),
                criteria: String::from_str(criteria),
                display_name: String::from_str(display_name),
            };
            self.objectives.push_new(key, o);
            proof {
                assert(self.objective_order() =~= old(self).objective_order().push(name@));
                assert(self.objectives_view() =~= old(self).objectives_view().insert(name@, (criteria@, display_name@)));
                assert(self.scores_view() =~= old(self).scores_view());
                assert forall|k: Seq<char>| #[trigger] self.objectives.map().contains_key(k) implies
                    self.objectives.map()[k].name@ == k by {
                    if k != name@ {
                        assert(old(self).objectives.map().contains_key(k));
                    }
                }
                assert forall|k: Seq<char>| #[trigger] self.scores.map().contains_key(k) implies
                    self.scores.map()[k].wf() && self.objectives.map().contains_key(k) by {
                    assert(old(self).objectives.map().contains_key(k));
                }
            }
            true
        }
    }

    /// Removes an objective and all its scores; tells whether it existed.
    pub fn remove_objective(&mut self, name: &str) -> (removed: bool)
        requires
            old(self).wf(),
        ensures
            final(self).wf(),
            removed == old(self).objectives_view().contains_key(name@),
            final(self).objectives_view() == old(self).objectives_view().remove(name@),
            final(self).scores_view() == old(self).scores_view().remove_keys(
                Set::new(|k: (Seq<char>, Seq<char>)| k.0 == name@)),
    {
        let key = String::from_str(name);
        let removed = self.objectives.remove(&key).is_some();
        let _ = self.scores.remove(&key);
        proof {
            assert(self.objectives_view() =~= old(self).objectives_view().remove(name@));
            assert(self.scores_view() =~= old(self).scores_view().remove_keys(
                Set::new(|k: (Seq<char>, Seq<char>)| k.0 == name@)));
            assert forall|k: Seq<char>| #[trigger] self.objectives.map().contains_key(k) implies
                self.objectives.map()[k].name@ == k by {
                assert(old(self).objectives.map().contains_key(k));
            }
            assert forall|k: Seq<char>| #[trigger] self.scores.map().contains_key(k) implies
                self.scores.map()[k].wf() && self.objectives.map().contains_key(k) by {
                assert(old(self).scores.map().contains_key(k));
            }
        }
        removed
    }

    /// Sets a score; fails when the objective does not exist.
    pub fn set_score(&mut self, player: &str, objective: &str, value: i32) -> (r: Result<(), String>)
        requires
            old(self).wf(),
        ensures
            final(self).wf(),
            final(self).objectives_view() == old(self).objectives_view(),
            old(self).objectives_view().contains_key(objective@) ==> r is Ok
                && final(self).scores_view() == with_score(old(self).scores_view(), player@, objective@, value),
            !old(self).objectives_view().contains_key(objective@) ==> (r matches Err(e)
                && e@ == "Unknown objective: "@ + objective@
                && final(self).scores_view() == old(self).scores_view()),
    {
        let okey = String::from_str(objective);
        if !self.objectives.contains(&okey) {
            let mut e = String::from_str("Unknown objective: ");
            e.append(objective);
            return Err(e);
        }
        let pkey = String::from_str(player);
        match self.scores.index_of(&okey) {
            Some(i) => {
                proof { self.scores.lemma_positions(); }
                let mut inner = self.scores.replace_at(i, Table::new());
                let ghost inner_old = inner.map();
                inner.insert(pkey, value);
                let ghost inner_new = inner.map();
                let _ = self.scores.replace_at(i, inner);
                proof {
                    assert(inner_new == inner_old.insert(player@, value));
                    assert(self.scores_view() =~= with_score(old(self).scores_view(), player@, objective@, value));
                }
            },
            None => {
                let mut inner: Table<String, i32> = Table::new();
                inner.insert(pkey, value);
                let ghost inner_new = inner.map();
                self.scores.push_new(okey, inner);
                proof {
                    assert(inner_new == Map::<Seq<char>, i32>::empty().insert(player@, value));
                    assert(self.scores_view() =~= with_score(old(self).scores_view(), player@, objective@, value));
                }
            },
        }
        proof {
            assert forall|k: Seq<char>| #[trigger] self.scores.map().contains_key(k) implies
                self.scores.map()[k].wf() && self.objectives.map().contains_key(k) by {
                if k != objective@ {
                    assert(old(self).scores.map().contains_key(k));
                }
            }
        }
        Ok(())
    }

    /// A player's score in an objective, if it has one.
    pub fn get_score(&self, player: &str, objective: &str) -> (r: Option<i32>)
        requires
            self.wf(),
        ensures
            r == if self.scores_view().contains_key((objective@, player@)) {
                Some(self.scores_view()[(objective@, player@)])
            } else {
                None::<i32>
            },
    {
        match self.scores.index_of(&String::from_str(objective)) {
            Some(i) => {
                proof { self.scores.lemma_positions(); }
                let inner = self.scores.value_at(i);
                match inner.index_of(&String::from_str(player)) {
                    Some(j) => Some(*inner.value_at(j)),
                    None => None,
                }
            },
            None => None,
        }
    }

    /// Adds `delta` to a score (a missing score counts as 0) and gives the
    /// new value; fails when the objective does not exist.
    pub fn add_score(&mut self, player: &str, objective: &str, delta: i32) -> (r: Result<i32, String>)
        requires
            old(self).wf(),
            add_in_range(old(self).scores_view(), player@, objective@, delta),
        ensures
            final(self).wf(),
            final(self).objectives_view() == old(self).objectives_view(),
            old(self).objectives_view().contains_key(objective@) ==> (r matches Ok(v)
                && v == score_or_zero(old(self).scores_view(), player@, objective@) + delta
                && final(self).scores_view() == with_score(old(self).scores_view(), player@, objective@, v)),
            !old(self).objectives_view().contains_key(objective@) ==> (r matches Err(e)
                && e@ == "Unknown objective: "@ + objective@
                && final(self).scores_view() == old(self).scores_view()),
    {
        let current = match self.get_score(player, objective) {
            Some(v) => v,
            None => 0,
        };
        let new_val = current + delta;
        match self.set_score(player, objective, new_val) {
            Ok(()) => Ok(new_val),
            Err(e) => Err(e),
        }
    }

    /// All objectives, in creation order.
    pub fn list_objectives(&self) -> (r: Vec<&ScoreboardObjective>)
        requires
            self.wf(),
        ensures
            r@.len() == self.objectives_view().dom().len(),
            r@.len() == self.objective_order().len(),
            forall|i: int| 0 <= i < r@.len() ==> self.objectives_view().contains_key(#[trigger] r@[i].name@)
                && self.objectives_view()[r@[i].name@] == (r@[i].criteria@, r@[i].display_name@)
                && r@[i].name@ == self.objective_order()[i],
            forall|k: Seq<char>| self.objectives_view().contains_key(k) ==>
                exists|i: int| 0 <= i < r@.len() && #[trigger] r@[i].name@ == k,
    {
        proof { self.objectives.lemma_positions(); }
        let mut out: Vec<&ScoreboardObjective> = Vec::new();
        let n = self.objectives.len();
        let mut i: usize = 0;
        while i < n
            invariant
                n == self.objectives.size(),
                i <= n,
                self.wf(),
                out@.len() == i,
                forall|a: int| 0 <= a < i ==> #[trigger] out@[a].name@ == self.objectives.key_at(a)
                    && self.objectives.map().contains_key(self.objectives.key_at(a))
                    && *out@[a] == self.objectives.map()[self.objectives.key_at(a)],
            decreases n - i,
        {
            proof {
                self.objectives.lemma_positions();
                assert(self.objectives.map().contains_key(self.objectives.key_at(i as int)));
            }
            let o = self.objectives.value_at(i);
            let ghost old_out = out@;
            out.push(o);
            proof {
                assert forall|a: int| 0 <= a < i + 1 implies #[trigger] out@[a].name@ == self.objectives.key_at(a)
                    && self.objectives.map().contains_key(self.objectives.key_at(a))
                    && *out@[a] == self.objectives.map()[self.objectives.key_at(a)] by {
                    if a < i {
                        assert(out@[a] == old_out[a]);
                    }
                }
            }
            i = i + 1;
        }
        proof {
            self.objectives.lemma_positions();
            assert(self.objectives_view().dom() =~= self.objectives.map().dom());
            assert forall|k: Seq<char>| self.objectives_view().contains_key(k) implies
                exists|i: int| 0 <= i < out@.len() && #[trigger] out@[i].name@ == k by {
                let a = choose|a: int| 0 <= a < self.objectives.size() && #[trigger] self.objectives.key_at(a) == k;
                assert(out@[a].name@ == k);
            }
        }
        out
    }
}

impl Default for ScoreboardData {
    fn default() -> (r: ScoreboardData)
        ensures
            r.wf(),
            r.objectives_view() == Map::<Seq<char>, (Seq<char>, Seq<char>)>::empty(),
            r.scores_view() == Map::<(Seq<char>, Seq<char>), i32>::empty(),
    {
        ScoreboardData::new()
    }
}

// ─────────────────────────────── the command ───────────────────────────────

pub open spec fn usage_main() -> Seq<char> {
    "Usage: /scoreboard objectives add|remove|list ...\n       /scoreboard players set|get|add <player> <objective> [value]"@
}

pub open spec fn usage_objectives() -> Seq<char> {
    "Usage: /scoreboard objectives add <name> <criteria> [display]\n       /scoreboard objectives remove <name>\n       /scoreboard objectives list"@
}

pub open spec fn usage_add() -> Seq<char> {
    "Usage: /scoreboard objectives add <name> <criteria> [display]"@
}

pub open spec fn usage_remove() -> Seq<char> {
    "Usage: /scoreboard objectives remove <name>"@
}

pub open spec fn usage_players() -> Seq<char> {
    "Usage: /scoreboard players set <player> <objective> <value>\n       /scoreboard players get <player> <objective>\n       /scoreboard players add <player> <objective> <value>"@
}

pub open spec fn usage_set() -> Seq<char> {
    "Usage: /scoreboard players set <player> <objective> <value>"@
}

pub open spec fn usage_players_add() -> Seq<char> {
    "Usage: /scoreboard players add <player> <objective> <value>"@
}

/// One line of the objective listing.
pub open spec fn objective_line(name: Seq<char>, info: (Seq<char>, Seq<char>)) -> Seq<char> {
    "  "@ + name + " (criteria: "@ + info.0 + ", display: "@ + info.1 + ")"@
}

/// The reply to `objectives list`.
pub open spec fn objectives_listing(objs: Map<Seq<char>, (Seq<char>, Seq<char>)>, order: Seq<Seq<char>>) -> Seq<char> {
    "Objectives:\n"@ + joined(order.map_values(|n: Seq<char>| objective_line(n, objs[n])), "\n"@)
}

/// What `/scoreboard` with arguments `a` does to a scoreboard with
/// objectives `objs` (listed in `order`) and scores `scores`: the reply,
/// the objectives and scores after it, and the events it emits.
pub open spec fn scoreboard_step(
    a: Seq<Seq<char>>,
    objs: Map<Seq<char>, (Seq<char>, Seq<char>)>,
    order: Seq<Seq<char>>,
    scores: Map<(Seq<char>, Seq<char>), i32>,
) -> (ReplyView, Map<Seq<char>, (Seq<char>, Seq<char>)>, Map<(Seq<char>, Seq<char>), i32>, Seq<EventView>) {
    let none = Seq::<EventView>::empty();
    if a.len() == 0 {
        (Err(usage_main()), objs, scores, none)
    } else if lowercase(a[0]) == "objectives"@ {
        if a.len() < 2 {
            (Err(usage_objectives()), objs, scores, none)
        } else if lowercase(a[1]) == "add"@ {
            if a.len() < 4 {
                (Err(usage_add()), objs, scores, none)
            } else {
                let name = a[2];
                let criteria = a[3];
                let display = if a.len() > 4 { a[4] } else { name };
                if objs.contains_key(name) {
                    (Err("Objective '"@ + name + "' already exists"@), objs, scores, none)
                } else {
                    (
                        Ok("Created objective '"@ + name + "' (criteria: "@ + criteria + ")"@),
                        objs.insert(name, (criteria, display)),
                        scores,
                        seq![EventView::ScoreboardObjective { name, action: 0, display, criteria }],
                    )
                }
            }
        } else if lowercase(a[1]) == "remove"@ {
            if a.len() < 3 {
                (Err(usage_remove()), objs, scores, none)
            } else {
                let name = a[2];
                if objs.contains_key(name) {
                    (
                        Ok("Removed objective '"@ + name + "'"@),
                        objs.remove(name),
                        scores.remove_keys(Set::new(|k: (Seq<char>, Seq<char>)| k.0 == name)),
                        seq![EventView::ScoreboardObjective {
                            name,
                            action: 1,
                            display: Seq::empty(),
                            criteria: Seq::empty(),
                        }],
                    )
                } else {
                    (Err("Objective '"@ + name + "' not found"@), objs, scores, none)
                }
            }
        } else if lowercase(a[1]) == "list"@ {
            if objs.dom().len() == 0 {
                (Ok("No objectives defined"@), objs, scores, none)
            } else {
                (Ok(objectives_listing(objs, order)), objs, scores, none)
            }
        } else {
            (Err("Unknown operation: "@ + a[1] + ". Use add, remove, or list"@), objs, scores, none)
        }
    } else if lowercase(a[0]) == "players"@ {
        if a.len() < 4 {
            (Err(usage_players()), objs, scores, none)
        } else {
            let player = a[2];
            let objective = a[3];
            if lowercase(a[1]) == "set"@ {
                if a.len() < 5 {
                    (Err(usage_set()), objs, scores, none)
                } else if i32_of(a[4]) is None {
                    (Err("Invalid value: "@ + a[4]), objs, scores, none)
                } else if !objs.contains_key(objective) {
                    (Err("Unknown objective: "@ + objective), objs, scores, none)
                } else {
                    let v = i32_of(a[4])->0;
                    (
                        Ok("Set "@ + player + "'s score in '"@ + objective + "' to "@ + signed_decimal(v as int)),
                        objs,
                        with_score(scores, player, objective, v),
                        seq![EventView::ScoreboardScore { player, objective, value: v, action: 0 }],
                    )
                }
            } else if lowercase(a[1]) == "get"@ {
                if scores.contains_key((objective, player)) {
                    (
                        Ok(player + "'s score in '"@ + objective + "': "@ + signed_decimal(scores[(objective, player)] as int)),
                        objs,
                        scores,
                        none,
                    )
                } else {
                    (Ok(player + " has no score in '"@ + objective + "'"@), objs, scores, none)
                }
            } else if lowercase(a[1]) == "add"@ {
                if a.len() < 5 {
                    (Err(usage_players_add()), objs, scores, none)
                } else if i32_of(a[4]) is None {
                    (Err("Invalid value: "@ + a[4]), objs, scores, none)
                } else if !objs.contains_key(objective) {
                    (Err("Unknown objective: "@ + objective), objs, scores, none)
                } else {
                    let v = (score_or_zero(scores, player, objective) + i32_of(a[4])->0) as i32;
                    (
                        Ok(player + "'s score in '"@ + objective + "' is now "@ + signed_decimal(v as int)),
                        objs,
                        with_score(scores, player, objective, v),
                        seq![EventView::ScoreboardScore { player, objective, value: v, action: 0 }],
                    )
                }
            } else {
                (Err("Unknown operation: "@ + a[1] + ". Use set, get, or add"@), objs, scores, none)
            }
        }
    } else {
        (Err("Unknown subcommand: "@ + a[0] + ". Use 'objectives' or 'players'"@), objs, scores, none)
    }
}

/// The arguments keep `players add` within `i32` (the only input on which
/// `/scoreboard` would overflow).
pub open spec fn scoreboard_args_in_range(a: Seq<Seq<char>>, scores: Map<(Seq<char>, Seq<char>), i32>) -> bool {
    (a.len() >= 5 && lowercase(a[0]) == "players"@ && lowercase(a[1]) == "add"@ && i32_of(a[4]) is Some)
        ==> add_in_range(scores, a[2], a[3], i32_of(a[4])->0)
}

/// `/scoreboard`.
pub struct ScoreboardCommand;

impl ScoreboardCommand {
    pub fn name(&self) -> &'static str {
        "scoreboard"
    }

    pub fn description(&self) -> &'static str {
        "Manage scoreboard objectives and scores"
    }

    /// Whether `execute` may run on these arguments: false only for a
    /// `players add` whose sum leaves `i32`.
    pub fn in_range(&self, ctx: &CommandContext, server: &ServerData) -> (r: bool)
        requires
            server.wf(),
        ensures
            r == scoreboard_args_in_range(arg_views(*ctx), server.scoreboard.scores_view()),
    {
        let ghost a = arg_views(*ctx);
        if ctx.args.len() >= 5 {
            let l0 = to_lowercase(ctx.args[0].as_str());
            let l1 = to_lowercase(ctx.args[1].as_str());
            if str_eq(l0.as_str(), "players") && str_eq(l1.as_str(), "add") {
                match i32_opt(ctx.args[4].as_str()) {
                    Some(d) => {
                        let cur = match server.scoreboard.get_score(ctx.args[2].as_str(), ctx.args[3].as_str()) {
                            Some(v) => v as i64,
                            None => 0i64,
                        };
                        let sum = cur + d as i64;
                        return i32::MIN as i64 <= sum && sum <= i32::MAX as i64;
                    },
                    None => {},
                }
            }
        }
        true
    }

    pub fn execute(&self, ctx: &CommandContext, server: &mut ServerData) -> (r: CommandResult)
        requires
            old(server).wf(),
            scoreboard_args_in_range(arg_views(*ctx), old(server).scoreboard.scores_view()),
        ensures
            final(server).wf(),
            final(server).world == old(server).world,
            final(server).teams == old(server).teams,
            ({
                let (reply, objs, scores, evs) = scoreboard_step(
                    arg_views(*ctx),
                    old(server).scoreboard.objectives_view(),
                    old(server).scoreboard.objective_order(),
                    old(server).scoreboard.scores_view(),
                );
                &&& reply_view(r) == reply
                &&& final(server).scoreboard.objectives_view() == objs
                &&& final(server).scoreboard.scores_view() == scores
                &&& event_views(final(server).events@) == event_views(old(server).events@) + evs
            }),
    {
        let ghost a = arg_views(*ctx);
        proof {
            assert(event_views(server.events@) =~= event_views(server.events@) + Seq::<EventView>::empty());
        }
        if ctx.args.len() == 0 {
            return Err(String::from_str("Usage: /scoreboard objectives add|remove|list ...\n       /scoreboard players set|get|add <player> <objective> [value]"));
        }
        let sub = to_lowercase(ctx.args[0].as_str());
        if str_eq(sub.as_str(), "objectives") {
            scoreboard_objectives(ctx, server)
        } else if str_eq(sub.as_str(), "players") {
            scoreboard_players(ctx, server)
        } else {
            let mut e = String::from_str("Unknown subcommand: ");
            e.append(ctx.args[0].as_str());
            e.append(". Use 'objectives' or 'players'");
            Err(e)
        }
    }
}

fn scoreboard_objectives(ctx: &CommandContext, server: &mut ServerData) -> (r: CommandResult)
    requires
        old(server).wf(),
        ctx.args@.len() > 0,
        lowercase(arg_views(*ctx)[0]) == "objectives"@,
    ensures
        final(server).wf(),
        final(server).world == old(server).world,
        final(server).teams == old(server).teams,
        ({
            let (reply, objs, scores, evs) = scoreboard_step(
                arg_views(*ctx),
                old(server).scoreboard.objectives_view(),
                old(server).scoreboard.objective_order(),
                old(server).scoreboard.scores_view(),
            );
            &&& reply_view(r) == reply
            &&& final(server).scoreboard.objectives_view() == objs
            &&& final(server).scoreboard.scores_view() == scores
            &&& event_views(final(server).events@) == event_views(old(server).events@) + evs
        }),
{
    let ghost a = arg_views(*ctx);
    proof {
        assert(event_views(server.events@) =~= event_views(server.events@) + Seq::<EventView>::empty());
        assert(a[0] == ctx.args@[0]@);
    }
    if ctx.args.len() < 2 {
        return Err(String::from_str("Usage: /scoreboard objectives add <name> <criteria> [display]\n       /scoreboard objectives remove <name>\n       /scoreboard objectives list"));
    }
    proof { assert(a[1] == ctx.args@[1]@); }
    let op = to_lowercase(ctx.args[1].as_str());
    if str_eq(op.as_str(), "add") {
        if ctx.args.len() < 4 {
            return Err(String::from_str("Usage: /scoreboard objectives add <name> <criteria> [display]"));
        }
        let name = ctx.args[2].as_str();
        let criteria = ctx.args[3].as_str();
        let display = if ctx.args.len() > 4 { ctx.args[4].as_str() } else { name };
        proof {
            assert(a[2] == name@);
            assert(a[3] == criteria@);
            if a.len() > 4 { assert(a[4] == ctx.args@[4]@); }
        }
        if server.scoreboard.has_objective(name) {
            let mut e = String::from_str("Objective '");
            e.append(name);
            e.append("' already exists");
            return Err(e);
        }
        let added = server.scoreboard.add_objective(name, criteria, display);
        emit(server, ServerEvent::ScoreboardObjective {
            name: String::from_str(name),
            action: 0,
            display: String::from_str(display),
            criteria: String::from_str(criteria),
        });
        let mut m = String::from_str("Created objective '");
        m.append(name);
        m.append("' (criteria: ");
        m.append(criteria);
        m.append(")");
        Ok(m)
    } else if str_eq(op.as_str(), "remove") {
        if ctx.args.len() < 3 {
            return Err(String::from_str("Usage: /scoreboard objectives remove <name>"));
        }
        let name = ctx.args[2].as_str();
        proof { assert(a[2] == name@); }
        if server.scoreboard.remove_objective(name) {
            emit(server, ServerEvent::ScoreboardObjective {
                name: String::from_str(name),
                action: 1,
                display: String::new(),
                criteria: String::new(),
            });
            let mut m = String::from_str("Removed objective '");
            m.append(name);
            m.append("'");
            Ok(m)
        } else {
            let mut e = String::from_str("Objective '");
            e.append(name);
            e.append("' not found");
            Err(e)
        }
    } else if str_eq(op.as_str(), "list") {
        let objs = server.scoreboard.list_objectives();
        if objs.len() == 0 {
            return Ok(String::from_str("No objectives defined"));
        }
        let ghost view = server.scoreboard.objectives_view();
        let ghost order = server.scoreboard.objective_order();
        let mut lines: Vec<String> = Vec::new();
        let mut i: usize = 0;
        while i < objs.len()
            invariant
                i <= objs@.len(),
                objs@.len() == order.len(),
                lines@.len() == i,
                forall|j: int| 0 <= j < objs@.len() ==> view.contains_key(#[trigger] objs@[j].name@)
                    && view[objs@[j].name@] == (objs@[j].criteria@, objs@[j].display_name@)
                    && objs@[j].name@ == order[j],
                forall|j: int| 0 <= j < i ==> #[trigger] lines@[j]@ == objective_line(order[j], view[order[j]]),
            decreases objs@.len() - i,
        {
            let o = objs[i];
            let mut line = String::from_str("  ");
            line.append(o.name.as_str());
            line.append(" (criteria: ");
            line.append(o.criteria.as_str());
            line.append(", display: ");
            line.append(o.display_name.as_str());
            line.append(")");
            let ghost old_lines = lines@;
            lines.push(line);
            proof {
                assert forall|j: int| 0 <= j < i + 1 implies #[trigger] lines@[j]@ == objective_line(order[j], view[order[j]]) by {
                    if j < i {
                        assert(lines@[j] == old_lines[j]);
                    }
                }
            }
            i = i + 1;
        }
        let body = join(&lines, "\n");
        let mut m = String::from_str("Objectives:\n");
        m.append(body.as_str());
        proof {
            assert(views(lines@) =~= order.map_values(|n: Seq<char>| objective_line(n, view[n])));
        }
        Ok(m)
    } else {
        let mut e = String::from_str("Unknown operation: ");
        e.append(ctx.args[1].as_str());
        e.append(". Use add, remove, or list");
        Err(e)
    }
}

fn scoreboard_players(ctx: &CommandContext, server: &mut ServerData) -> (r: CommandResult)
    requires
        old(server).wf(),
        ctx.args@.len() > 0,
        lowercase(arg_views(*ctx)[0]) == "players"@,
        lowercase(arg_views(*ctx)[0]) != "objectives"@,
        scoreboard_args_in_range(arg_views(*ctx), old(server).scoreboard.scores_view()),
    ensures
        final(server).wf(),
        final(server).world == old(server).world,
        final(server).teams == old(server).teams,
        ({
            let (reply, objs, scores, evs) = scoreboard_step(
                arg_views(*ctx),
                old(server).scoreboard.objectives_view(),
                old(server).scoreboard.objective_order(),
                old(server).scoreboard.scores_view(),
            );
            &&& reply_view(r) == reply
            &&& final(server).scoreboard.objectives_view() == objs
            &&& final(server).scoreboard.scores_view() == scores
            &&& event_views(final(server).events@) == event_views(old(server).events@) + evs
        }),
{
    let ghost a = arg_views(*ctx);
    proof {
        assert(event_views(server.events@) =~= event_views(server.events@) + Seq::<EventView>::empty());
    }
    if ctx.args.len() < 4 {
        return Err(String::from_str("Usage: /scoreboard players set <player> <objective> <value>\n       /scoreboard players get <player> <objective>\n       /scoreboard players add <player> <objective> <value>"));
    }
    let player = ctx.args[2].as_str();
    let objective = ctx.args[3].as_str();
    proof {
        assert(a[1] == ctx.args@[1]@);
        assert(a[2] == player@);
        assert(a[3] == objective@);
    }
    let op = to_lowercase(ctx.args[1].as_str());
    if str_eq(op.as_str(), "set") {
        if ctx.args.len() < 5 {
            return Err(String::from_str("Usage: /scoreboard players set <player> <objective> <value>"));
        }
        proof { assert(a[4] == ctx.args@[4]@); }
        let value = match i32_opt(ctx.args[4].as_str()) {
            Some(v) => v,
            None => {
                let mut e = String::from_str("Invalid value: ");
                e.append(ctx.args[4].as_str());
                return Err(e);
            },
        };
        match server.scoreboard.set_score(player, objective, value) {
            Ok(()) => {},
            Err(e) => {
                return Err(e);
            },
        }
        emit(server, ServerEvent::ScoreboardScore {
            player: String::from_str(player),
            objective: String::from_str(objective),
            value,
            action: 0,
        });
        let mut m = String::from_str("Set ");
        m.append(player);
        m.append("'s score in '");
        m.append(objective);
        m.append("' to ");
        push_i64(&mut m, value as i64);
        Ok(m)
    } else if str_eq(op.as_str(), "get") {
        match server.scoreboard.get_score(player, objective) {
            Some(v) => {
                let mut m = String::from_str(player);
                m.append("'s score in '");
                m.append(objective);
                m.append("': ");
                push_i64(&mut m, v as i64);
                Ok(m)
            },
            None => {
                let mut m = String::from_str(player);
                m.append(" has no score in '");
                m.append(objective);
                m.append("'");
                Ok(m)
            },
        }
    } else if str_eq(op.as_str(), "add") {
        if ctx.args.len() < 5 {
            return Err(String::from_str("Usage: /scoreboard players add <player> <objective> <value>"));
        }
        proof { assert(a[4] == ctx.args@[4]@); }
        let delta = match i32_opt(ctx.args[4].as_str()) {
            Some(v) => v,
            None => {
                let mut e = String::from_str("Invalid value: ");
                e.append(ctx.args[4].as_str());
                return Err(e);
            },
        };
        let new_val = match server.scoreboard.add_score(player, objective, delta) {
            Ok(v) => v,
            Err(e) => {
                return Err(e);
            },
        };
        emit(server, ServerEvent::ScoreboardScore {
            player: String::from_str(player),
            objective: String::from_str(objective),
            value: new_val,
            action: 0,
        });
        let mut m = String::from_str(player);
        m.append("'s score in '");
        m.append(objective);
        m.append("' is now ");
        push_i64(&mut m, new_val as i64);
        Ok(m)
    } else {
        let mut e = String::from_str("Unknown operation: ");
        e.append(ctx.args[1].as_str());
        e.append(". Use set, get, or add");
        Err(e)
    }
}

/// A score reads back as it was set, and setting one score leaves every
/// other score as it was.
pub proof fn score_set_then_get(
    scores: Map<(Seq<char>, Seq<char>), i32>,
    player: Seq<char>,
    objective: Seq<char>,
    value: i32,
    other: (Seq<char>, Seq<char>),
)
    ensures
        with_score(scores, player, objective, value)[(objective, player)] == value,
        score_or_zero(with_score(scores, player, objective, value), player, objective) == value,
        other != (objective, player) ==> with_score(scores, player, objective, value).get(other) == scores.get(other),
{
}

/// Two additions add up: adding `a` then `b` leaves the score that adding
/// `a + b` once would.
pub proof fn score_adds_accumulate(
    scores: Map<(Seq<char>, Seq<char>), i32>,
    player: Seq<char>,
    objective: Seq<char>,
    a: i32,
    b: i32,
)
    requires
        add_in_range(scores, player, objective, a),
        i32::MIN <= score_or_zero(scores, player, objective) + a + b <= i32::MAX,
    ensures
        ({
            let first = (score_or_zero(scores, player, objective) + a) as i32;
            let after_first = with_score(scores, player, objective, first);
            score_or_zero(after_first, player, objective) + b == score_or_zero(scores, player, objective) + a + b
        }),
{
}

} // verus!
