//! Run-time world properties that commands read and change: time, weather,
//! difficulty, default game mode, game rules and force-loaded chunks.
//!
//! The spawn point and world border are fractional coordinates and live
//! beside this state in the application.

use vstd::prelude::*;
use vstd::string::*;
use crate::text::{lemma_lex_irreflexive, lemma_lex_total, lemma_lex_transitive, lex_lt, owned, str_eq, str_lt};
use crate::types::GameMode;

verus! {

/// Length of a Minecraft day in ticks.
pub const DAY_TICKS: u64 = 24000;

#[derive(Debug, Clone, Copy, PartialEq, Eq, Structural)]
pub enum Weather {
    Clear,
    Rain,
    Thunder,
}

#[derive(Debug, Clone, Copy, PartialEq, Eq, Structural)]
pub enum Difficulty {
    Peaceful,
    Easy,
    Normal,
    Hard,
}

// ─────────────────────────────── game rules ───────────────────────────────

/// Rules as (name, value) pairs.
pub type RuleSeq = Seq<(Seq<char>, Seq<char>)>;

/// Names in strictly ascending order (so no name occurs twice).
pub open spec fn rules_sorted(s: RuleSeq) -> bool {
    forall|i: int, j: int| 0 <= i < j < s.len() ==> lex_lt(#[trigger] s[i].0, #[trigger] s[j].0)
}

/// The value of rule `k`, if it is set.
pub open spec fn rule_lookup(s: RuleSeq, k: Seq<char>) -> Option<Seq<char>> {
    if exists|i: int| 0 <= i < s.len() && #[trigger] s[i].0 == k {
        Some(s[choose|i: int| 0 <= i < s.len() && #[trigger] s[i].0 == k].1)
    } else {
        None
    }
}

proof fn lemma_lookup_at(s: RuleSeq, i: int)
    requires
        rules_sorted(s),
        0 <= i < s.len(),
    ensures
        rule_lookup(s, s[i].0) == Some(s[i].1),
{
    let k = s[i].0;
    assert(0 <= i < s.len() && s[i].0 == k);
    assert(exists|j: int| 0 <= j < s.len() && #[trigger] s[j].0 == k);
    let j = choose|j: int| 0 <= j < s.len() && #[trigger] s[j].0 == k;
    assert(0 <= j < s.len() && s[j].0 == k);
    lemma_lex_irreflexive(k);
    if j < i {
        assert(lex_lt(s[j].0, s[i].0));
    } else if i < j {
        assert(lex_lt(s[i].0, s[j].0));
    }
    assert(j == i);
    assert(rule_lookup(s, k) == Some(s[j].1));
}

/// Game rules, kept sorted by name.
#[derive(Debug, Clone)]
pub struct GameRules {
    entries: Vec<(String, String)>,
}

impl View for GameRules {
    type V = RuleSeq;

    closed spec fn view(&self) -> RuleSeq {
        self.entries@.map_values(|e: (String, String)| (e.0@, e.1@))
    }
}

impl GameRules {
    pub closed spec fn wf(&self) -> bool {
        rules_sorted(self@)
    }

    /// No rules.
    pub fn new() -> (r: GameRules)
        ensures
            r.wf(),
            r@.len() == 0,
    {
        let r = GameRules { entries: Vec::new() };
        assert(r@ =~= Seq::<(Seq<char>, Seq<char>)>::empty());
        r
    }

    /// Number of rules.
    pub fn len(&self) -> (r: usize)
        ensures
            r == self@.len(),
    {
        self.entries.len()
    }

    /// Name and value of the rule at `i` in name order.
    pub fn entry(&self, i: usize) -> (r: (&str, &str))
        requires
            i < self@.len(),
        ensures
            r.0@ == self@[i as int].0,
            r.1@ == self@[i as int].1,
    {
        let e = &self.entries[i];
        (e.0.as_str(), e.1.as_str())
    }

    /// The value of rule `key`.
    pub fn get(&self, key: &str) -> (r: Option<String>)
        requires
            self.wf(),
        ensures
            match r {
                Some(v) => rule_lookup(self@, key@) == Some(v@),
                None => rule_lookup(self@, key@) is None,
            },
    {
        let mut i: usize = 0;
        while i < self.entries.len()
            invariant
                i <= self@.len(),
                self@.len() == self.entries@.len(),
                rules_sorted(self@),
                forall|j: int| 0 <= j < i ==> self@[j].0 != key@,
            decreases self.entries@.len() - i,
        {
            if str_eq(self.entries[i].0.as_str(), key) {
                proof { lemma_lookup_at(self@, i as int); }
                return Some(owned(self.entries[i].1.as_str()));
            }
            i = i + 1;
        }
        None
    }

    /// Sets rule `key` to `value`, replacing an earlier value.
    pub fn insert(&mut self, key: &str, value: &str)
        requires
            old(self).wf(),
        ensures
            final(self).wf(),
            rule_lookup(final(self)@, key@) == Some(value@),
            forall|k: Seq<char>| k != key@ ==> rule_lookup(final(self)@, k) == rule_lookup(old(self)@, k),
    {
        let ghost s = self@;
        let mut p: usize = 0;
        while p < self.entries.len() && str_lt(self.entries[p].0.as_str(), key)
            invariant
                p <= s.len(),
                self@ == s,
                s.len() == self.entries@.len(),
                forall|j: int| 0 <= j < p ==> lex_lt(#[trigger] s[j].0, key@),
            decreases s.len() - p,
        {
            p = p + 1;
        }
        let pair = (owned(key), owned(value));
        if p < self.entries.len() && str_eq(self.entries[p].0.as_str(), key) {
            self.entries.set(p, pair);
            proof {
                let t = self@;
                assert(t =~= s.update(p as int, (key@, value@)));
                assert forall|i: int| 0 <= i < t.len() implies #[trigger] t[i].0 == s[i].0 by {}
                assert(rules_sorted(t));
                lemma_lookup_at(t, p as int);
                assert forall|k: Seq<char>| k != key@ implies rule_lookup(t, k) == rule_lookup(s, k) by {
                    if exists|i: int| 0 <= i < s.len() && #[trigger] s[i].0 == k {
                        let i = choose|i: int| 0 <= i < s.len() && #[trigger] s[i].0 == k;
                        lemma_lookup_at(s, i);
                        lemma_lookup_at(t, i);
                    } else {
                        assert(!exists|i: int| 0 <= i < t.len() && #[trigger] t[i].0 == k) by {
                            if exists|i: int| 0 <= i < t.len() && #[trigger] t[i].0 == k {
                                let i = choose|i: int| 0 <= i < t.len() && #[trigger] t[i].0 == k;
                                assert(s[i].0 == k);
                            }
                        }
                    }
                }
            }
        } else {
            self.entries.insert(p, pair);
            proof {
                let t = self@;
                assert(t =~= s.insert(p as int, (key@, value@)));
                if p < s.len() {
                    lemma_lex_total(s[p as int].0, key@);
                    assert(lex_lt(key@, s[p as int].0));
                }
                assert forall|i: int, j: int| 0 <= i < j < t.len() implies lex_lt(#[trigger] t[i].0, #[trigger] t[j].0) by {
                    if j < p {
                        assert(t[i] == s[i] && t[j] == s[j]);
                    } else if j == p {
                        assert(t[i] == s[i]);
                    } else if i < p {
                        assert(t[j] == s[j - 1]);
                        assert(lex_lt(s[i].0, key@));
                        lemma_lex_transitive(s[i].0, key@, s[p as int].0);
                        if j - 1 > p {
                            lemma_lex_transitive(s[i].0, s[p as int].0, s[j - 1].0);
                        }
                    } else if i == p {
                        assert(t[j] == s[j - 1]);
                        if j - 1 > p {
                            lemma_lex_transitive(key@, s[p as int].0, s[j - 1].0);
                        }
                    } else {
                        assert(t[i] == s[i - 1] && t[j] == s[j - 1]);
                    }
                }
                lemma_lookup_at(t, p as int);
                assert forall|k: Seq<char>| k != key@ implies rule_lookup(t, k) == rule_lookup(s, k) by {
                    if exists|i: int| 0 <= i < s.len() && #[trigger] s[i].0 == k {
                        let i = choose|i: int| 0 <= i < s.len() && #[trigger] s[i].0 == k;
                        lemma_lookup_at(s, i);
                        if i < p {
                            lemma_lookup_at(t, i);
                        } else {
                            assert(t[i + 1] == s[i]);
                            lemma_lookup_at(t, i + 1);
                        }
                    } else {
                        assert(!exists|i: int| 0 <= i < t.len() && #[trigger] t[i].0 == k) by {
                            if exists|i: int| 0 <= i < t.len() && #[trigger] t[i].0 == k {
                                let i = choose|i: int| 0 <= i < t.len() && #[trigger] t[i].0 == k;
                                if i < p {
                                    assert(s[i].0 == k);
                                } else {
                                    assert(i != p);
                                    assert(s[i - 1].0 == k);
                                }
                            }
                        }
                    }
                }
            }
        }
    }
}

// ──────────────────────────── force-loaded chunks ────────────────────────────

/// A set of chunk coordinates.
#[derive(Debug, Clone)]
pub struct ChunkSet {
    entries: Vec<(i32, i32)>,
}

impl View for ChunkSet {
    type V = Set<(i32, i32)>;

    closed spec fn view(&self) -> Set<(i32, i32)> {
        self.entries@.to_set()
    }
}

impl ChunkSet {
    pub closed spec fn wf(&self) -> bool {
        self.entries@.no_duplicates()
    }

    pub fn new() -> (r: ChunkSet)
        ensures
            r.wf(),
            r@ == Set::<(i32, i32)>::empty(),
    {
        let r = ChunkSet { entries: Vec::new() };
        assert(r@ =~= Set::<(i32, i32)>::empty());
        r
    }

    fn position(&self, c: (i32, i32)) -> (r: Option<usize>)
        ensures
            match r {
                Some(i) => i < self.entries@.len() && self.entries@[i as int] == c,
                None => !self.entries@.contains(c),
            },
    {
        let mut i: usize = 0;
        while i < self.entries.len()
            invariant
                i <= self.entries@.len(),
                forall|j: int| 0 <= j < i ==> self.entries@[j] != c,
            decreases self.entries@.len() - i,
        {
            let e = self.entries[i];
            if e.0 == c.0 && e.1 == c.1 {
                return Some(i);
            }
            i = i + 1;
        }
        None
    }

    pub fn contains(&self, c: (i32, i32)) -> (r: bool)
        ensures
            r == self@.contains(c),
    {
        self.position(c).is_some()
    }

    pub fn insert(&mut self, c: (i32, i32))
        requires
            old(self).wf(),
        ensures
            final(self).wf(),
            final(self)@ == old(self)@.insert(c),
    {
        let found = self.position(c);
        if found.is_none() {
            let ghost s = self.entries@;
            self.entries.push(c);
            proof {
                assert(self.entries@ =~= s.push(c));
                s.lemma_push_to_set_commute(c);
                assert(self.entries@.no_duplicates()) by {
                    assert forall|i: int, j: int| 0 <= i < j < self.entries@.len() implies self.entries@[i] != self.entries@[j] by {
                        if j == s.len() {
                            assert(s.contains(s[i]));
                        }
                    }
                }
            }
        } else {
            let i = found.unwrap();
            assert(self.entries@[i as int] == c);
            assert(self.entries@.contains(c));
            assert(self@.contains(c));
            assert(self@ =~= old(self)@.insert(c));
        }
    }

    pub fn remove(&mut self, c: (i32, i32))
        requires
            old(self).wf(),
        ensures
            final(self).wf(),
            final(self)@ == old(self)@.remove(c),
    {
        match self.position(c) {
            Some(i) => {
                let ghost s = self.entries@;
                self.entries.remove(i);
                proof {
                    let t = self.entries@;
                    assert(t =~= s.subrange(0, i as int) + s.subrange(i + 1, s.len() as int));
                    assert forall|x: (i32, i32)| t.contains(x) <==> (s.contains(x) && x != c) by {
                        if t.contains(x) {
                            let k = choose|k: int| 0 <= k < t.len() && t[k] == x;
                            if k < i {
                                assert(s[k] == x);
                            } else {
                                assert(s[k + 1] == x);
                            }
                        }
                        if s.contains(x) && x != c {
                            let k = choose|k: int| 0 <= k < s.len() && s[k] == x;
                            if k < i {
                                assert(t[k] == x);
                            } else {
                                assert(k != i);
                                assert(t[k - 1] == x);
                            }
                        }
                    }
                    assert(self@ =~= s.to_set().remove(c));
                    assert(t.no_duplicates()) by {
                        assert forall|a: int, b: int| 0 <= a < b < t.len() implies t[a] != t[b] by {
                            let a2 = if a < i { a } else { a + 1 };
                            let b2 = if b < i { b } else { b + 1 };
                            assert(t[a] == s[a2] && t[b] == s[b2]);
                        }
                    }
                }
            },
            None => {
                assert(!self@.contains(c));
                assert(self@ =~= old(self)@.remove(c));
            },
        }
    }

    pub fn len(&self) -> (r: usize)
        requires
            self.wf(),
        ensures
            r == self@.len(),
    {
        proof { self.entries@.unique_seq_to_set(); }
        self.entries.len()
    }
}

// ─────────────────────────────── world state ───────────────────────────────

/// The rules a new world starts with.
pub open spec fn default_rule(k: Seq<char>) -> Option<Seq<char>> {
    if k == "doDaylightCycle"@ {
        Some("true"@)
    } else if k == "doWeatherCycle"@ {
        Some("true"@)
    } else if k == "keepInventory"@ {
        Some("false"@)
    } else if k == "doFireTick"@ {
        Some("true"@)
    } else if k == "doMobSpawning"@ {
        Some("true"@)
    } else if k == "randomTickSpeed"@ {
        Some("3"@)
    } else if k == "announceAdvancements"@ {
        Some("true"@)
    } else {
        None
    }
}

/// Whether time advances: the `doDaylightCycle` rule is `true` or unset.
pub open spec fn daylight_cycle_on(rules: RuleSeq) -> bool {
    match rule_lookup(rules, "doDaylightCycle"@) {
        Some(v) => v == "true"@,
        None => true,
    }
}

/// `a + b` modulo 2^64.
pub open spec fn wrapping_add_u64(a: u64, b: u64) -> u64 {
    if a as int + b as int > u64::MAX as int {
        (a as int + b as int - (u64::MAX as int + 1)) as u64
    } else {
        (a as int + b as int) as u64
    }
}

/// Mutable run-time world state.
#[derive(Debug, Clone)]
pub struct WorldState {
    pub time: u64,
    pub daytime: u64,
    pub weather: Weather,
    pub weather_timer: u64,
    pub difficulty: Difficulty,
    pub seed: u64,
    /// Game mode of newly joining players.
    pub default_gamemode: GameMode,
    pub game_rules: GameRules,
    /// Chunks kept loaded by `/forceload`.
    pub force_loaded: ChunkSet,
    /// Set by `/debug`.
    pub debug_mode: bool,
    /// Set by `/tick freeze`.
    pub tick_frozen: bool,
    /// Tick rate set by `/tick sprint` (0 means the normal 20 per second).
    pub tick_sprint_rate: u32,
}

impl WorldState {
    /// The rule table and chunk set keep their own invariants.
    pub open spec fn wf(&self) -> bool {
        self.game_rules.wf() && self.force_loaded.wf()
    }

    /// The starting state: time 0, clear weather for 12000 ticks, normal
    /// difficulty, survival, the default rules and nothing force-loaded.
    pub open spec fn is_initial(&self, seed: u64) -> bool {
        &&& self.wf()
        &&& self.time == 0
        &&& self.daytime == 0
        &&& self.weather == Weather::Clear
        &&& self.weather_timer == 12000
        &&& self.difficulty == Difficulty::Normal
        &&& self.seed == seed
        &&& self.default_gamemode == GameMode::Survival
        &&& forall|k: Seq<char>| rule_lookup(self.game_rules@, k) == default_rule(k)
        &&& self.force_loaded@ == Set::<(i32, i32)>::empty()
        &&& !self.debug_mode
        &&& !self.tick_frozen
        &&& self.tick_sprint_rate == 0
    }

    /// A new world with the given seed.
    pub fn new(seed: u64) -> (r: WorldState)
        ensures
            r.is_initial(seed),
    {
        let mut rules = GameRules::new();
        rules.insert("doDaylightCycle", "true");
        rules.insert("doWeatherCycle", "true");
        rules.insert("keepInventory", "false");
        rules.insert("doFireTick", "true");
        rules.insert("doMobSpawning", "true");
        rules.insert("randomTickSpeed", "3");
        rules.insert("announceAdvancements", "true");
        proof {
            reveal_strlit("doDaylightCycle");
            reveal_strlit("doWeatherCycle");
            reveal_strlit("keepInventory");
            reveal_strlit("doFireTick");
            reveal_strlit("doMobSpawning");
            reveal_strlit("randomTickSpeed");
            reveal_strlit("announceAdvancements");
            assert forall|k: Seq<char>| rule_lookup(rules@, k) == default_rule(k) by {
                if rule_lookup(Seq::<(Seq<char>, Seq<char>)>::empty(), k) is Some {
                    assert(false);
                }
            }
        }
        WorldState {
            time: 0,
            daytime: 0,
            weather: Weather::Clear,
            weather_timer: 12000,
            difficulty: Difficulty::Normal,
            seed,
            default_gamemode: GameMode::Survival,
            game_rules: rules,
            force_loaded: ChunkSet::new(),
            debug_mode: false,
            tick_frozen: false,
            tick_sprint_rate: 0,
        }
    }

    /// Sets the absolute time; the time of day follows.
    pub fn set_time(&mut self, time: u64)
        ensures
            final(self).time == time,
            final(self).daytime == time % DAY_TICKS,
            final(self).game_rules == old(self).game_rules,
            final(self).force_loaded == old(self).force_loaded,
            final(self).weather == old(self).weather,
            final(self).difficulty == old(self).difficulty,
            final(self).seed == old(self).seed,
            final(self).default_gamemode == old(self).default_gamemode,
            final(self).tick_frozen == old(self).tick_frozen,
            final(self).tick_sprint_rate == old(self).tick_sprint_rate,
            final(self).debug_mode == old(self).debug_mode,
            final(self).weather_timer == old(self).weather_timer,
    {
        self.time = time;
        self.daytime = time % DAY_TICKS;
    }

    /// Advances time by `ticks` (wrapping at 2^64) unless the
    /// `doDaylightCycle` rule is set to something other than `true`.
    pub fn add_time(&mut self, ticks: u64)
        requires
            old(self).wf(),
        ensures
            daylight_cycle_on(old(self).game_rules@) ==> final(self).time == wrapping_add_u64(old(self).time, ticks)
                && final(self).daytime == final(self).time % DAY_TICKS,
            !daylight_cycle_on(old(self).game_rules@) ==> final(self).time == old(self).time
                && final(self).daytime == old(self).daytime,
            final(self).game_rules == old(self).game_rules,
            final(self).force_loaded == old(self).force_loaded,
            final(self).weather == old(self).weather,
            final(self).difficulty == old(self).difficulty,
            final(self).seed == old(self).seed,
            final(self).default_gamemode == old(self).default_gamemode,
            final(self).tick_frozen == old(self).tick_frozen,
            final(self).tick_sprint_rate == old(self).tick_sprint_rate,
            final(self).debug_mode == old(self).debug_mode,
            final(self).weather_timer == old(self).weather_timer,
    {
        let cycle = match self.game_rules.get("doDaylightCycle") {
            Some(v) => str_eq(v.as_str(), "true"),
            None => true,
        };
        if cycle {
            self.time = self.time.wrapping_add(ticks);
            self.daytime = self.time % DAY_TICKS;
        }
    }

    /// Sets the weather; the duration is accepted and not yet tracked.
    pub fn set_weather(&mut self, weather: Weather, duration: u32)
        ensures
            *final(self) == (WorldState { weather, ..*old(self) }),
    {
        self.weather = weather;
    }

    pub fn set_difficulty(&mut self, difficulty: Difficulty)
        ensures
            *final(self) == (WorldState { difficulty, ..*old(self) }),
    {
        self.difficulty = difficulty;
    }

    pub fn set_default_gamemode(&mut self, gm: GameMode)
        ensures
            *final(self) == (WorldState { default_gamemode: gm, ..*old(self) }),
    {
        self.default_gamemode = gm;
    }
}

impl Default for WorldState {
    /// The state of a world with seed 0.
    fn default() -> (r: WorldState)
        ensures
            r.is_initial(0),
    {
        WorldState::new(0)
    }
}

/// After `set_time` or a counted `add_time`, the time of day is the time
/// modulo one day; successive `add_time` calls accumulate modulo 2^64.
pub proof fn time_of_day_follows_time(t: u64, a: u64, b: u64)
    ensures
        (t % DAY_TICKS) < DAY_TICKS,
        wrapping_add_u64(wrapping_add_u64(t, a), b) == wrapping_add_u64(t, wrapping_add_u64(a, b)),
{
}

} // verus!
