//! World commands: `/time`, `/weather`, `/difficulty`, `/tick`, `/gamerule`.

use vstd::prelude::*;
use vstd::string::*;
use crate::commands::context::{
    arg_views, difficulty_name, difficulty_text, reply_view, CommandContext, CommandResult, ReplyView, ServerData,
};
use crate::text::{
    decimal, int_error_message, int_error_text, join, joined, parse_int_spec, parse_u64, push_u64, str_eq,
    u32_of, u32_opt, views,
};
use crate::world_state::{
    daylight_cycle_on, rule_lookup, wrapping_add_u64, Difficulty, RuleSeq, Weather, WorldState, DAY_TICKS,
};
use crate::words::ascii_lower_seq;

verus! {

/// The state after a command that leaves everything but the world alone.
pub open spec fn only_world_changed(before: ServerData, after: ServerData) -> bool {
    &&& after.wf()
    &&& after.scoreboard == before.scoreboard
    &&& after.teams == before.teams
    &&& after.events == before.events
}

/// The world after `/time set t`.
pub open spec fn world_with_time(w: WorldState, t: u64) -> WorldState {
    WorldState { time: t, daytime: (t % DAY_TICKS) as u64, ..w }
}

/// The world after `/time add n`.
pub open spec fn world_after_add(w: WorldState, n: u64) -> WorldState {
    if daylight_cycle_on(w.game_rules@) {
        world_with_time(w, wrapping_add_u64(w.time, n))
    } else {
        w
    }
}

/// The tick count a `/time set` argument names.
pub open spec fn named_time(s: Seq<char>) -> Option<u64> {
    if s == "day"@ {
        Some(1000)
    } else if s == "night"@ {
        Some(13000)
    } else if s == "noon"@ {
        Some(6000)
    } else if s == "midnight"@ {
        Some(18000)
    } else {
        None
    }
}

/// What `/time` does: the reply and the world after it.
pub open spec fn time_step(a: Seq<Seq<char>>, w: WorldState) -> (ReplyView, WorldState) {
    let action = if a.len() > 0 { a[0] } else { "query"@ };
    if action == "set"@ {
        if a.len() < 2 {
            (Err("Usage: /time set <value|day|night|noon|midnight>"@), w)
        } else {
            match named_time(a[1]) {
                Some(t) => (Ok("Time set to "@ + decimal(t as nat)), world_with_time(w, t)),
                None => match parse_int_spec(a[1], false, u64::MAX as nat, 0) {
                    Ok(t) => (Ok("Time set to "@ + decimal(t as nat)), world_with_time(w, t as u64)),
                    Err(k) => (Err("Invalid number: "@ + int_error_text(k)), w),
                },
            }
        }
    } else if action == "add"@ {
        if a.len() < 2 {
            (Err("Usage: /time add <ticks>"@), w)
        } else {
            match parse_int_spec(a[1], false, u64::MAX as nat, 0) {
                Ok(n) => {
                    let w2 = world_after_add(w, n as u64);
                    (Ok("Added "@ + decimal(n as nat) + " ticks (now "@ + decimal(w2.time as nat) + ")"@), w2)
                },
                Err(k) => (Err("Invalid number: "@ + int_error_text(k)), w),
            }
        }
    } else if action == "query"@ {
        (Ok("Time: "@ + decimal(w.time as nat) + " (daytime: "@ + decimal(w.daytime as nat) + ")"@), w)
    } else {
        (Err("Usage: /time <set|add|query> [value]"@), w)
    }
}

fn time_error(e: crate::text::IntErrorKind) -> (r: CommandResult)
    ensures
        reply_view(r) == Err::<Seq<char>, Seq<char>>("Invalid number: "@ + int_error_text(e)),
{
    let mut m = String::from_str("Invalid number: ");
    let t = int_error_message(e);
    m.append(t.as_str());
    Err(m)
}

/// `/time`.
pub struct TimeCommand;

impl TimeCommand {
    pub fn name(&self) -> &'static str {
        "time"
    }

    pub fn description(&self) -> &'static str {
        "Query or change world time"
    }

    pub fn execute(&self, ctx: &CommandContext, server: &mut ServerData) -> (r: CommandResult)
        requires
            old(server).wf(),
        ensures
            only_world_changed(*old(server), *final(server)),
            reply_view(r) == time_step(arg_views(*ctx), old(server).world).0,
            final(server).world == time_step(arg_views(*ctx), old(server).world).1,
    {
        let ghost a = arg_views(*ctx);
        let action: &str = if ctx.args.len() > 0 { ctx.args[0].as_str() } else { "query" };
        proof {
            if a.len() > 0 { assert(a[0] == ctx.args@[0]@); }
            if a.len() > 1 { assert(a[1] == ctx.args@[1]@); }
        }
        if str_eq(action, "set") {
            if ctx.args.len() < 2 {
                return Err(String::from_str("Usage: /time set <value|day|night|noon|midnight>"));
            }
            let s = ctx.args[1].as_str();
            let t: u64 = if str_eq(s, "day") {
                1000
            } else if str_eq(s, "night") {
                13000
            } else if str_eq(s, "noon") {
                6000
            } else if str_eq(s, "midnight") {
                18000
            } else {
                match parse_u64(s) {
                    Ok(v) => v,
                    Err(e) => {
                        return time_error(e);
                    },
                }
            };
            server.world.set_time(t);
            let mut m = String::from_str("Time set to ");
            push_u64(&mut m, t);
            Ok(m)
        } else if str_eq(action, "add") {
            if ctx.args.len() < 2 {
                return Err(String::from_str("Usage: /time add <ticks>"));
            }
            let amount = match parse_u64(ctx.args[1].as_str()) {
                Ok(v) => v,
                Err(e) => {
                    return time_error(e);
                },
            };
            server.world.add_time(amount);
            let mut m = String::from_str("Added ");
            push_u64(&mut m, amount);
            m.append(" ticks (now ");
            push_u64(&mut m, server.world.time);
            m.append(")");
            Ok(m)
        } else if str_eq(action, "query") {
            let mut m = String::from_str("Time: ");
            push_u64(&mut m, server.world.time);
            m.append(" (daytime: ");
            push_u64(&mut m, server.world.daytime);
            m.append(")");
            Ok(m)
        } else {
            Err(String::from_str("Usage: /time <set|add|query> [value]"))
        }
    }
}

/// The weather an argument names.
pub open spec fn named_weather(s: Seq<char>) -> Option<Weather> {
    if s == "clear"@ {
        Some(Weather::Clear)
    } else if s == "rain"@ {
        Some(Weather::Rain)
    } else if s == "thunder"@ {
        Some(Weather::Thunder)
    } else {
        None
    }
}

/// What `/weather` does.
pub open spec fn weather_step(a: Seq<Seq<char>>, w: WorldState) -> (ReplyView, WorldState) {
    let name = if a.len() > 0 { a[0] } else { "clear"@ };
    let duration: u32 = if a.len() > 1 && u32_of(a[1]) is Some { u32_of(a[1])->0 } else { 6000 };
    match named_weather(name) {
        Some(weather) => (
            Ok("Weather set to "@ + name + " for "@ + decimal(duration as nat) + " ticks"@),
            WorldState { weather, ..w },
        ),
        None => (Err("Usage: /weather <clear|rain|thunder> [duration]"@), w),
    }
}

/// `/weather`.
pub struct WeatherCommand;

impl WeatherCommand {
    pub fn name(&self) -> &'static str {
        "weather"
    }

    pub fn description(&self) -> &'static str {
        "Set the weather"
    }

    pub fn execute(&self, ctx: &CommandContext, server: &mut ServerData) -> (r: CommandResult)
        requires
            old(server).wf(),
        ensures
            only_world_changed(*old(server), *final(server)),
            reply_view(r) == weather_step(arg_views(*ctx), old(server).world).0,
            final(server).world == weather_step(arg_views(*ctx), old(server).world).1,
    {
        let ghost a = arg_views(*ctx);
        let name: &str = if ctx.args.len() > 0 { ctx.args[0].as_str() } else { "clear" };
        proof {
            if a.len() > 0 { assert(a[0] == ctx.args@[0]@); }
            if a.len() > 1 { assert(a[1] == ctx.args@[1]@); }
        }
        let duration: u32 = if ctx.args.len() > 1 {
            match u32_opt(ctx.args[1].as_str()) {
                Some(d) => d,
                None => 6000,
            }
        } else {
            6000
        };
        let weather = if str_eq(name, "clear") {
            Weather::Clear
        } else if str_eq(name, "rain") {
            Weather::Rain
        } else if str_eq(name, "thunder") {
            Weather::Thunder
        } else {
            return Err(String::from_str("Usage: /weather <clear|rain|thunder> [duration]"));
        };
        server.world.set_weather(weather, duration);
        let mut m = String::from_str("Weather set to ");
        m.append(name);
        m.append(" for ");
        push_u64(&mut m, duration as u64);
        m.append(" ticks");
        Ok(m)
    }
}

/// The difficulty an argument names (word or initial).
pub open spec fn named_difficulty(s: Seq<char>) -> Option<Difficulty> {
    if s == "peaceful"@ || s == "p"@ {
        Some(Difficulty::Peaceful)
    } else if s == "easy"@ || s == "e"@ {
        Some(Difficulty::Easy)
    } else if s == "normal"@ || s == "n"@ {
        Some(Difficulty::Normal)
    } else if s == "hard"@ || s == "h"@ {
        Some(Difficulty::Hard)
    } else {
        None
    }
}

/// What `/difficulty` does.
pub open spec fn difficulty_step(a: Seq<Seq<char>>, w: WorldState) -> (ReplyView, WorldState) {
    let name = if a.len() > 0 { a[0] } else { "normal"@ };
    match named_difficulty(name) {
        Some(d) => (Ok("Difficulty set to "@ + difficulty_text(d)), WorldState { difficulty: d, ..w }),
        None => (Err("Usage: /difficulty <peaceful|easy|normal|hard>"@), w),
    }
}

/// `/difficulty`.
pub struct DifficultyCommand;

impl DifficultyCommand {
    pub fn name(&self) -> &'static str {
        "difficulty"
    }

    pub fn description(&self) -> &'static str {
        "Set the difficulty level"
    }

    pub fn execute(&self, ctx: &CommandContext, server: &mut ServerData) -> (r: CommandResult)
        requires
            old(server).wf(),
        ensures
            only_world_changed(*old(server), *final(server)),
            reply_view(r) == difficulty_step(arg_views(*ctx), old(server).world).0,
            final(server).world == difficulty_step(arg_views(*ctx), old(server).world).1,
    {
        let ghost a = arg_views(*ctx);
        let name: &str = if ctx.args.len() > 0 { ctx.args[0].as_str() } else { "normal" };
        proof {
            if a.len() > 0 { assert(a[0] == ctx.args@[0]@); }
        }
        let d = if str_eq(name, "peaceful") || str_eq(name, "p") {
            Difficulty::Peaceful
        } else if str_eq(name, "easy") || str_eq(name, "e") {
            Difficulty::Easy
        } else if str_eq(name, "normal") || str_eq(name, "n") {
            Difficulty::Normal
        } else if str_eq(name, "hard") || str_eq(name, "h") {
            Difficulty::Hard
        } else {
            return Err(String::from_str("Usage: /difficulty <peaceful|easy|normal|hard>"));
        };
        server.world.set_difficulty(d);
        let mut m = String::from_str("Difficulty set to ");
        m.append(difficulty_name(d));
        Ok(m)
    }
}

/// `rate` limited to 1..=1000.
pub open spec fn clamp_rate(rate: u32) -> u32 {
    if rate < 1 {
        1
    } else if rate > 1000 {
        1000
    } else {
        rate
    }
}

/// What `/tick` does.
pub open spec fn tick_step(a: Seq<Seq<char>>, w: WorldState) -> (ReplyView, WorldState) {
    let action = if a.len() > 0 { a[0] } else { "query"@ };
    if action == "freeze"@ {
        (Ok("Tick frozen. Use /tick unfreeze to resume."@), WorldState { tick_frozen: true, ..w })
    } else if action == "unfreeze"@ || action == "resume"@ {
        (Ok("Tick unfrozen. Resuming normal tick rate."@), WorldState { tick_frozen: false, ..w })
    } else if action == "sprint"@ {
        let rate: u32 = if a.len() > 1 && u32_of(a[1]) is Some { u32_of(a[1])->0 } else { 40 };
        (Ok("Tick sprint set to "@ + decimal(rate as nat) + " tps"@), WorldState { tick_sprint_rate: clamp_rate(rate), ..w })
    } else if action == "query"@ {
        let status = if w.tick_frozen { "frozen"@ } else { "running"@ };
        let rate: u32 = if w.tick_sprint_rate > 0 { w.tick_sprint_rate } else { 20 };
        (Ok("Tick: "@ + status + " at "@ + decimal(rate as nat) + " tps"@), w)
    } else {
        (Err("Usage: /tick <freeze|unfreeze|sprint <rate>|query>"@), w)
    }
}

/// `/tick`.
pub struct TickCommand;

impl TickCommand {
    pub fn name(&self) -> &'static str {
        "tick"
    }

    pub fn description(&self) -> &'static str {
        "Control server tick rate"
    }

    pub fn execute(&self, ctx: &CommandContext, server: &mut ServerData) -> (r: CommandResult)
        requires
            old(server).wf(),
        ensures
            only_world_changed(*old(server), *final(server)),
            reply_view(r) == tick_step(arg_views(*ctx), old(server).world).0,
            final(server).world == tick_step(arg_views(*ctx), old(server).world).1,
    {
        let ghost a = arg_views(*ctx);
        let action: &str = if ctx.args.len() > 0 { ctx.args[0].as_str() } else { "query" };
        proof {
            if a.len() > 0 { assert(a[0] == ctx.args@[0]@); }
            if a.len() > 1 { assert(a[1] == ctx.args@[1]@); }
        }
        if str_eq(action, "freeze") {
            server.world.tick_frozen = true;
            Ok(String::from_str("Tick frozen. Use /tick unfreeze to resume."))
        } else if str_eq(action, "unfreeze") || str_eq(action, "resume") {
            server.world.tick_frozen = false;
            Ok(String::from_str("Tick unfrozen. Resuming normal tick rate."))
        } else if str_eq(action, "sprint") {
            let rate: u32 = if ctx.args.len() > 1 {
                match u32_opt(ctx.args[1].as_str()) {
                    Some(v) => v,
                    None => 40,
                }
            } else {
                40
            };
            let clamped: u32 = if rate < 1 { 1 } else if rate > 1000 { 1000 } else { rate };
            server.world.tick_sprint_rate = clamped;
            let mut m = String::from_str("Tick sprint set to ");
            push_u64(&mut m, rate as u64);
            m.append(" tps");
            Ok(m)
        } else if str_eq(action, "query") {
            let status: &str = if server.world.tick_frozen { "frozen" } else { "running" };
            let rate: u32 = if server.world.tick_sprint_rate > 0 { server.world.tick_sprint_rate } else { 20 };
            let mut m = String::from_str("Tick: ");
            m.append(status);
            m.append(" at ");
            push_u64(&mut m, rate as u64);
            m.append(" tps");
            Ok(m)
        } else {
            Err(String::from_str("Usage: /tick <freeze|unfreeze|sprint <rate>|query>"))
        }
    }
}

/// One line of the rule listing.
pub open spec fn rule_line(e: (Seq<char>, Seq<char>)) -> Seq<char> {
    "  "@ + e.0 + " = "@ + e.1
}

/// What `/gamerule` does: with no argument it lists the rules in name
/// order; with a name and value it sets the rule; with a name it shows it.
pub open spec fn gamerule_step(a: Seq<Seq<char>>, w: WorldState) -> ReplyView {
    if a.len() == 0 {
        Ok("Game rules:\n"@ + joined(w.game_rules@.map_values(|e: (Seq<char>, Seq<char>)| rule_line(e)), "\n"@))
    } else if a.len() > 1 {
        Ok("Game rule "@ + a[0] + " updated to "@ + a[1])
    } else {
        match rule_lookup(w.game_rules@, a[0]) {
            Some(v) => Ok(a[0] + " = "@ + v),
            None => Err("Unknown game rule: "@ + a[0]),
        }
    }
}

/// `/gamerule`.
pub struct GameruleCommand;

impl GameruleCommand {
    pub fn name(&self) -> &'static str {
        "gamerule"
    }

    pub fn description(&self) -> &'static str {
        "View or set game rules"
    }

    pub fn execute(&self, ctx: &CommandContext, server: &mut ServerData) -> (r: CommandResult)
        requires
            old(server).wf(),
        ensures
            only_world_changed(*old(server), *final(server)),
            reply_view(r) == gamerule_step(arg_views(*ctx), old(server).world),
            arg_views(*ctx).len() > 1 ==> {
                let a = arg_views(*ctx);
                &&& rule_lookup(final(server).world.game_rules@, a[0]) == Some(a[1])
                &&& forall|k: Seq<char>| k != a[0] ==> rule_lookup(final(server).world.game_rules@, k)
                    == rule_lookup(old(server).world.game_rules@, k)
                &&& final(server).world == (WorldState { game_rules: final(server).world.game_rules, ..old(server).world })
            },
            arg_views(*ctx).len() <= 1 ==> final(server).world == old(server).world,
    {
        let ghost a = arg_views(*ctx);
        if ctx.args.len() == 0 {
            let n = server.world.game_rules.len();
            let mut lines: Vec<String> = Vec::new();
            let mut i: usize = 0;
            let ghost rules = server.world.game_rules@;
            while i < n
                invariant
                    n == rules.len(),
                    rules == server.world.game_rules@,
                    i <= n,
                    lines@.len() == i,
                    forall|j: int| 0 <= j < i ==> #[trigger] lines@[j]@ == rule_line(rules[j]),
                decreases n - i,
            {
                let (k, v) = server.world.game_rules.entry(i);
                let mut line = String::from_str("  ");
                line.append(k);
                line.append(" = ");
                line.append(v);
                let ghost old_lines = lines@;
                lines.push(line);
                proof {
                    assert forall|j: int| 0 <= j < i + 1 implies #[trigger] lines@[j]@ == rule_line(rules[j]) by {
                        if j < i {
                            assert(lines@[j] == old_lines[j]);
                        }
                    }
                }
                i = i + 1;
            }
            let body = join(&lines, "\n");
            let mut m = String::from_str("Game rules:\n");
            m.append(body.as_str());
            proof {
                assert(views(lines@) =~= rules.map_values(|e: (Seq<char>, Seq<char>)| rule_line(e)));
            }
            return Ok(m);
        }
        let rule = ctx.args[0].as_str();
        proof {
            assert(a[0] == rule@);
            if a.len() > 1 { assert(a[1] == ctx.args@[1]@); }
        }
        if ctx.args.len() > 1 {
            let value = ctx.args[1].as_str();
            server.world.game_rules.insert(rule, value);
            let mut m = String::from_str("Game rule ");
            m.append(rule);
            m.append(" updated to ");
            m.append(value);
            Ok(m)
        } else {
            match server.world.game_rules.get(rule) {
                Some(v) => {
                    let mut m = String::from_str(rule);
                    m.append(" = ");
                    m.append(v.as_str());
                    Ok(m)
                },
                None => {
                    let mut m = String::from_str("Unknown game rule: ");
                    m.append(rule);
                    Err(m)
                },
            }
        }
    }
}

/// `/time set` with a named time sets the clock to that time of the game's
/// day on any world: `day` 1000, `noon` 6000, `night` 13000 and
/// `midnight` 18000 ticks, as both the time and the time of day.
pub proof fn named_times_are_the_games(w: WorldState)
    ensures
        time_step(seq!["set"@, "day"@], w).1.time == 1000,
        time_step(seq!["set"@, "day"@], w).1.daytime == 1000,
        time_step(seq!["set"@, "noon"@], w).1.time == 6000,
        time_step(seq!["set"@, "noon"@], w).1.daytime == 6000,
        time_step(seq!["set"@, "night"@], w).1.time == 13000,
        time_step(seq!["set"@, "night"@], w).1.daytime == 13000,
        time_step(seq!["set"@, "midnight"@], w).1.time == 18000,
        time_step(seq!["set"@, "midnight"@], w).1.daytime == 18000,
{
    reveal_strlit("day");
    reveal_strlit("noon");
    reveal_strlit("night");
    reveal_strlit("midnight");
    assert(named_time("day"@) == Some(1000u64));
    assert(named_time("noon"@) == Some(6000u64));
    assert(named_time("night"@) == Some(13000u64));
    assert(named_time("midnight"@) == Some(18000u64));
}

/// Every difficulty is named by its own name in lower case and by that
/// name's initial.
pub proof fn difficulties_named_by_name_and_initial(d: Difficulty)
    ensures
        named_difficulty(ascii_lower_seq(difficulty_text(d))) == Some(d),
        named_difficulty(ascii_lower_seq(difficulty_text(d)).take(1)) == Some(d),
{
    reveal_strlit("peaceful");
    reveal_strlit("p");
    reveal_strlit("easy");
    reveal_strlit("e");
    reveal_strlit("normal");
    reveal_strlit("n");
    reveal_strlit("hard");
    reveal_strlit("h");
    reveal_strlit("Peaceful");
    reveal_strlit("Easy");
    reveal_strlit("Normal");
    reveal_strlit("Hard");
    let t = ascii_lower_seq(difficulty_text(d));
    match d {
        Difficulty::Peaceful => {
            assert(t =~= "peaceful"@);
            assert(t.take(1) =~= "p"@);
        },
        Difficulty::Easy => {
            assert(t =~= "easy"@);
            assert(t.take(1) =~= "e"@);
            assert("easy"@[0] != "peaceful"@[0]);
            assert("e"@[0] != "p"@[0]);
        },
        Difficulty::Normal => {
            assert(t =~= "normal"@);
            assert(t.take(1) =~= "n"@);
            assert("n"@[0] != "p"@[0] && "n"@[0] != "e"@[0]);
        },
        Difficulty::Hard => {
            assert(t =~= "hard"@);
            assert(t.take(1) =~= "h"@);
            assert("hard"@[0] != "easy"@[0]);
            assert("h"@[0] != "p"@[0] && "h"@[0] != "e"@[0] && "h"@[0] != "n"@[0]);
        },
    }
}

} // verus!
