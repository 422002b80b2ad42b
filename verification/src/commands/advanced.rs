//! Further commands: `/forceload`, `/save-on`, `/save-off`, `/publish`,
//! `/debug`, `/fillbiome`, `/recipe`, `/data`, `/trigger` and `/team`.

use vstd::prelude::*;
use vstd::string::*;
use crate::commands::context::{
    arg_views, emit, event_views, reply_view, CommandContext, CommandResult, CommandSource, EventView, ReplyView,
    ServerData, ServerEvent,
};
use crate::commands::info::only_events_added;
use crate::commands::player::{target_names, targets_or_self};
use crate::commands::scoreboard::{add_in_range, score_or_zero, with_score};
use crate::commands::selector::{resolve_player_targets, targets_spec, targets_view, Target};
use crate::commands::world::only_world_changed;
use crate::position::div16;
use crate::team::{join_step, leave_step, team_view, TeamView};
use crate::text::{decimal, i32_of, i32_opt, join, joined, lowercase, push_i64, push_u64, signed_decimal, str_eq,
    to_lowercase, u16_of, u16_opt, views};
use crate::world_state::{rule_lookup, WorldState};

verus! {

/// An `i32` argument, or `d` when it is missing or not a number.
pub open spec fn i32_arg(a: Seq<Seq<char>>, i: int, d: i32) -> i32 {
    if 0 <= i < a.len() && i32_of(a[i]) is Some {
        i32_of(a[i])->0
    } else {
        d
    }
}

fn i32_arg_exec(ctx: &CommandContext, i: usize, d: i32) -> (r: i32)
    ensures
        r == i32_arg(arg_views(*ctx), i as int, d),
{
    if i < ctx.args.len() {
        proof { assert(arg_views(*ctx)[i as int] == ctx.args@[i as int]@); }
        match i32_opt(ctx.args[i].as_str()) {
            Some(v) => v,
            None => d,
        }
    } else {
        d
    }
}

/// The chunk coordinates `/forceload` reports: block coordinates divided
/// by 16, rounding down.
pub open spec fn chunk_text(x: i32, z: i32) -> Seq<char> {
    "Chunk ("@ + signed_decimal(x as int / 16) + ","@ + signed_decimal(z as int / 16) + ")"@
}

/// What `/forceload` replies; the chunk set it leaves is stated beside it.
pub open spec fn forceload_reply(a: Seq<Seq<char>>, w: WorldState) -> ReplyView {
    let action = if a.len() > 0 { a[0] } else { "query"@ };
    if action == "add"@ {
        Ok(chunk_text(i32_arg(a, 1, 0), i32_arg(a, 2, 0)) + " force-loaded"@)
    } else if action == "remove"@ {
        Ok(chunk_text(i32_arg(a, 1, 0), i32_arg(a, 2, 0)) + " no longer force-loaded"@)
    } else if action == "query"@ {
        Ok(decimal(w.force_loaded@.len()) + " chunk(s) force-loaded"@)
    } else {
        Err("Usage: /forceload <add|remove|query> [x] [z]"@)
    }
}

pub open spec fn forceload_set(a: Seq<Seq<char>>, s: Set<(i32, i32)>) -> Set<(i32, i32)> {
    let action = if a.len() > 0 { a[0] } else { "query"@ };
    if action == "add"@ {
        s.insert((i32_arg(a, 1, 0), i32_arg(a, 2, 0)))
    } else if action == "remove"@ {
        s.remove((i32_arg(a, 1, 0), i32_arg(a, 2, 0)))
    } else {
        s
    }
}

fn chunk_message(x: i32, z: i32, tail: &str) -> (r: String)
    ensures
        r@ == chunk_text(x, z) + tail@,
{
    let mut m = String::from_str("Chunk (");
    push_i64(&mut m, div16(x) as i64);
    m.append(",");
    push_i64(&mut m, div16(z) as i64);
    m.append(")");
    m.append(tail);
    m
}

/// `/forceload`.
pub struct ForceloadCommand;

impl ForceloadCommand {
    pub fn name(&self) -> &'static str {
        "forceload"
    }

    pub fn description(&self) -> &'static str {
        "Force chunks to stay loaded"
    }

    pub fn execute(&self, ctx: &CommandContext, server: &mut ServerData) -> (r: CommandResult)
        requires
            old(server).wf(),
        ensures
            only_world_changed(*old(server), *final(server)),
            reply_view(r) == forceload_reply(arg_views(*ctx), old(server).world),
            final(server).world.force_loaded@ == forceload_set(arg_views(*ctx), old(server).world.force_loaded@),
            final(server).world == (WorldState { force_loaded: final(server).world.force_loaded, ..old(server).world }),
    {
        let ghost a = arg_views(*ctx);
        let action: &str = if ctx.args.len() > 0 { ctx.args[0].as_str() } else { "query" };
        proof { if a.len() > 0 { assert(a[0] == ctx.args@[0]@); } }
        if str_eq(action, "add") {
            let x = i32_arg_exec(ctx, 1, 0);
            let z = i32_arg_exec(ctx, 2, 0);
            server.world.force_loaded.insert((x, z));
            Ok(chunk_message(x, z, " force-loaded"))
        } else if str_eq(action, "remove") {
            let x = i32_arg_exec(ctx, 1, 0);
            let z = i32_arg_exec(ctx, 2, 0);
            server.world.force_loaded.remove((x, z));
            Ok(chunk_message(x, z, " no longer force-loaded"))
        } else if str_eq(action, "query") {
            let n = server.world.force_loaded.len();
            let mut m = String::new();
            push_u64(&mut m, n as u64);
            m.append(" chunk(s) force-loaded");
            Ok(m)
        } else {
            Err(String::from_str("Usage: /forceload <add|remove|query> [x] [z]"))
        }
    }
}

/// Sets one game rule; the reply is fixed.
fn set_rule(server: &mut ServerData, key: &str, value: &str)
    requires
        old(server).wf(),
    ensures
        only_world_changed(*old(server), *final(server)),
        rule_lookup(final(server).world.game_rules@, key@) == Some(value@),
        forall|k: Seq<char>| k != key@ ==> rule_lookup(final(server).world.game_rules@, k)
            == rule_lookup(old(server).world.game_rules@, k),
        final(server).world == (WorldState { game_rules: final(server).world.game_rules, ..old(server).world }),
{
    server.world.game_rules.insert(key, value);
}

/// `/save-on`: sets the `doSave` rule to `true`.
pub struct SaveOnCommand;

impl SaveOnCommand {
    pub fn name(&self) -> &'static str {
        "save-on"
    }

    pub fn description(&self) -> &'static str {
        "Enable automatic saving"
    }

    pub fn execute(&self, ctx: &CommandContext, server: &mut ServerData) -> (r: CommandResult)
        requires
            old(server).wf(),
        ensures
            only_world_changed(*old(server), *final(server)),
            rule_lookup(final(server).world.game_rules@, "doSave"@) == Some("true"@),
            forall|k: Seq<char>| k != "doSave"@ ==> rule_lookup(final(server).world.game_rules@, k)
                == rule_lookup(old(server).world.game_rules@, k),
            final(server).world == (WorldState { game_rules: final(server).world.game_rules, ..old(server).world }),
            reply_view(r) == Ok::<Seq<char>, Seq<char>>("Automatic saving enabled"@),
    {
        set_rule(server, "doSave", "true");
        Ok(String::from_str("Automatic saving enabled"))
    }
}

/// `/save-off`: sets the `doSave` rule to `false`.
pub struct SaveOffCommand;

impl SaveOffCommand {
    pub fn name(&self) -> &'static str {
        "save-off"
    }

    pub fn description(&self) -> &'static str {
        "Disable automatic saving"
    }

    pub fn execute(&self, ctx: &CommandContext, server: &mut ServerData) -> (r: CommandResult)
        requires
            old(server).wf(),
        ensures
            only_world_changed(*old(server), *final(server)),
            rule_lookup(final(server).world.game_rules@, "doSave"@) == Some("false"@),
            forall|k: Seq<char>| k != "doSave"@ ==> rule_lookup(final(server).world.game_rules@, k)
                == rule_lookup(old(server).world.game_rules@, k),
            final(server).world == (WorldState { game_rules: final(server).world.game_rules, ..old(server).world }),
            reply_view(r) == Ok::<Seq<char>, Seq<char>>("Automatic saving disabled"@),
    {
        set_rule(server, "doSave", "false");
        Ok(String::from_str("Automatic saving disabled"))
    }
}

/// The port `/publish` reports (25565 unless a valid one is given).
pub open spec fn publish_port(a: Seq<Seq<char>>) -> u16 {
    if a.len() > 0 && u16_of(a[0]) is Some {
        u16_of(a[0])->0
    } else {
        25565
    }
}

/// `/publish`: sets the `lan_enabled` rule to `true`.
pub struct PublishCommand;

impl PublishCommand {
    pub fn name(&self) -> &'static str {
        "publish"
    }

    pub fn description(&self) -> &'static str {
        "Open to LAN"
    }

    pub fn execute(&self, ctx: &CommandContext, server: &mut ServerData) -> (r: CommandResult)
        requires
            old(server).wf(),
        ensures
            only_world_changed(*old(server), *final(server)),
            rule_lookup(final(server).world.game_rules@, "lan_enabled"@) == Some("true"@),
            forall|k: Seq<char>| k != "lan_enabled"@ ==> rule_lookup(final(server).world.game_rules@, k)
                == rule_lookup(old(server).world.game_rules@, k),
            final(server).world == (WorldState { game_rules: final(server).world.game_rules, ..old(server).world }),
            reply_view(r) == Ok::<Seq<char>, Seq<char>>("LAN broadcast enabled on port "@
                + decimal(publish_port(arg_views(*ctx)) as nat) + " (multicast 224.0.2.60:4445)"@),
    {
        let ghost a = arg_views(*ctx);
        let port: u16 = if ctx.args.len() > 0 {
            proof { assert(a[0] == ctx.args@[0]@); }
            match u16_opt(ctx.args[0].as_str()) {
                Some(p) => p,
                None => 25565,
            }
        } else {
            25565
        };
        set_rule(server, "lan_enabled", "true");
        let mut m = String::from_str("LAN broadcast enabled on port ");
        push_u64(&mut m, port as u64);
        m.append(" (multicast 224.0.2.60:4445)");
        Ok(m)
    }
}

/// What `/debug` does.
pub open spec fn debug_step(a: Seq<Seq<char>>, w: WorldState) -> (ReplyView, WorldState) {
    let action = if a.len() > 0 { a[0] } else { "start"@ };
    if action == "start"@ {
        (Ok("Debug profiling started"@), WorldState { debug_mode: true, ..w })
    } else if action == "stop"@ {
        (Ok("Debug profiling stopped"@), WorldState { debug_mode: false, ..w })
    } else {
        (Err("Usage: /debug <start|stop>"@), w)
    }
}

/// `/debug`.
pub struct DebugCommand;

impl DebugCommand {
    pub fn name(&self) -> &'static str {
        "debug"
    }

    pub fn description(&self) -> &'static str {
        "Start/stop debugging"
    }

    pub fn execute(&self, ctx: &CommandContext, server: &mut ServerData) -> (r: CommandResult)
        requires
            old(server).wf(),
        ensures
            only_world_changed(*old(server), *final(server)),
            reply_view(r) == debug_step(arg_views(*ctx), old(server).world).0,
            final(server).world == debug_step(arg_views(*ctx), old(server).world).1,
    {
        let ghost a = arg_views(*ctx);
        let action: &str = if ctx.args.len() > 0 { ctx.args[0].as_str() } else { "start" };
        proof { if a.len() > 0 { assert(a[0] == ctx.args@[0]@); } }
        if str_eq(action, "start") {
            server.world.debug_mode = true;
            Ok(String::from_str("Debug profiling started"))
        } else if str_eq(action, "stop") {
            server.world.debug_mode = false;
            Ok(String::from_str("Debug profiling stopped"))
        } else {
            Err(String::from_str("Usage: /debug <start|stop>"))
        }
    }
}

/// `x2 - x1` stays within `i32` for the `/fillbiome` arguments.
pub open spec fn fillbiome_in_range(a: Seq<Seq<char>>) -> bool {
    a.len() >= 7 ==> i32::MIN <= i32_arg(a, 3, 0) - i32_arg(a, 0, 0) <= i32::MAX
}

/// The reply of `/fillbiome` (nothing in the world changes).
pub open spec fn fillbiome_reply(a: Seq<Seq<char>>) -> ReplyView {
    if a.len() < 7 {
        Err("Usage: /fillbiome <x1> <y1> <z1> <x2> <y2> <z2> <biome>"@)
    } else {
        let x1 = i32_arg(a, 0, 0);
        let y1 = i32_arg(a, 1, -64i32);
        let z1 = i32_arg(a, 2, 0);
        let x2 = i32_arg(a, 3, 0);
        let y2 = i32_arg(a, 4, 319);
        let z2 = i32_arg(a, 5, 0);
        let d = x2 - x1;
        let span = if d < 0 { -d } else { d };
        let chunks = if span < 256 { span } else { 256 };
        Ok("Fillbiome set "@ + decimal(chunks as nat) + " chunk(s) from ("@ + signed_decimal(x1 as int) + ","@
            + signed_decimal(y1 as int) + ","@ + signed_decimal(z1 as int) + ") to ("@ + signed_decimal(x2 as int)
            + ","@ + signed_decimal(y2 as int) + ","@ + signed_decimal(z2 as int) + ") with '"@ + lowercase(a[6])
            + "'"@)
    }
}

/// `/fillbiome`.
pub struct FillbiomeCommand;

impl FillbiomeCommand {
    pub fn name(&self) -> &'static str {
        "fillbiome"
    }

    pub fn description(&self) -> &'static str {
        "Fill biome in an area (sets biome ID in chunks)"
    }

    /// Whether `execute` may run: false only when `x2 - x1` leaves `i32`.
    pub fn in_range(&self, ctx: &CommandContext) -> (r: bool)
        ensures
            r == fillbiome_in_range(arg_views(*ctx)),
    {
        if ctx.args.len() < 7 {
            return true;
        }
        let x1 = i32_arg_exec(ctx, 0, 0);
        let x2 = i32_arg_exec(ctx, 3, 0);
        let d: i64 = x2 as i64 - x1 as i64;
        i32::MIN as i64 <= d && d <= i32::MAX as i64
    }

    pub fn execute(&self, ctx: &CommandContext, server: &mut ServerData) -> (r: CommandResult)
        requires
            old(server).wf(),
            fillbiome_in_range(arg_views(*ctx)),
        ensures
            *final(server) == *old(server),
            reply_view(r) == fillbiome_reply(arg_views(*ctx)),
    {
        let ghost a = arg_views(*ctx);
        if ctx.args.len() < 7 {
            return Err(String::from_str("Usage: /fillbiome <x1> <y1> <z1> <x2> <y2> <z2> <biome>"));
        }
        let x1 = i32_arg_exec(ctx, 0, 0);
        let y1 = i32_arg_exec(ctx, 1, -64);
        let z1 = i32_arg_exec(ctx, 2, 0);
        let x2 = i32_arg_exec(ctx, 3, 0);
        let y2 = i32_arg_exec(ctx, 4, 319);
        let z2 = i32_arg_exec(ctx, 5, 0);
        proof { assert(a[6] == ctx.args@[6]@); }
        let biome = to_lowercase(ctx.args[6].as_str());
        let d: i32 = x2 - x1;
        let span: u64 = if d < 0 { (-(d as i64)) as u64 } else { d as u64 };
        let chunks: u64 = if span < 256 { span } else { 256 };
        let mut m = String::from_str("Fillbiome set ");
        push_u64(&mut m, chunks);
        m.append(" chunk(s) from (");
        push_i64(&mut m, x1 as i64);
        m.append(",");
        push_i64(&mut m, y1 as i64);
        m.append(",");
        push_i64(&mut m, z1 as i64);
        m.append(") to (");
        push_i64(&mut m, x2 as i64);
        m.append(",");
        push_i64(&mut m, y2 as i64);
        m.append(",");
        push_i64(&mut m, z2 as i64);
        m.append(") with '");
        m.append(biome.as_str());
        m.append("'");
        Ok(m)
    }
}

/// The reply of `/recipe`.
pub open spec fn recipe_reply(a: Seq<Seq<char>>) -> Seq<char> {
    let action = if a.len() > 0 { a[0] } else { "list"@ };
    if action == "give"@ {
        "Recipe(s) given (display only)"@
    } else if action == "take"@ {
        "Recipe(s) taken (display only)"@
    } else {
        "Recipe book managed client-side"@
    }
}

/// `/recipe`.
pub struct RecipeCommand;

impl RecipeCommand {
    pub fn name(&self) -> &'static str {
        "recipe"
    }

    pub fn description(&self) -> &'static str {
        "Give or take recipes from players"
    }

    pub fn execute(&self, ctx: &CommandContext, server: &mut ServerData) -> (r: CommandResult)
        requires
            old(server).wf(),
        ensures
            *final(server) == *old(server),
            reply_view(r) == Ok::<Seq<char>, Seq<char>>(recipe_reply(arg_views(*ctx))),
    {
        let ghost a = arg_views(*ctx);
        let action: &str = if ctx.args.len() > 0 { ctx.args[0].as_str() } else { "list" };
        proof { if a.len() > 0 { assert(a[0] == ctx.args@[0]@); } }
        if str_eq(action, "give") {
            Ok(String::from_str("Recipe(s) given (display only)"))
        } else if str_eq(action, "take") {
            Ok(String::from_str("Recipe(s) taken (display only)"))
        } else {
            Ok(String::from_str("Recipe book managed client-side"))
        }
    }
}

/// The reply of `/data`.
pub open spec fn data_reply(a: Seq<Seq<char>>) -> Seq<char> {
    let sub = if a.len() > 0 { a[0] } else { "get"@ };
    if sub == "get"@ {
        "NBT get: use /data get entity <selector> [path] or /data get block <x> <y> <z> [path]"@
    } else if sub == "merge"@ {
        "NBT merge applied (simplified — full NBT merging not yet implemented)"@
    } else {
        "/data "@ + sub + ": NBT data operations (entity/block/storage)"@
    }
}

/// `/data`.
pub struct DataCommand;

impl DataCommand {
    pub fn name(&self) -> &'static str {
        "data"
    }

    pub fn description(&self) -> &'static str {
        "Get/modify NBT data (entity/block supported)"
    }

    pub fn execute(&self, ctx: &CommandContext, server: &mut ServerData) -> (r: CommandResult)
        requires
            old(server).wf(),
        ensures
            *final(server) == *old(server),
            reply_view(r) == Ok::<Seq<char>, Seq<char>>(data_reply(arg_views(*ctx))),
    {
        let ghost a = arg_views(*ctx);
        let sub: &str = if ctx.args.len() > 0 { ctx.args[0].as_str() } else { "get" };
        proof { if a.len() > 0 { assert(a[0] == ctx.args@[0]@); } }
        if str_eq(sub, "get") {
            Ok(String::from_str("NBT get: use /data get entity <selector> [path] or /data get block <x> <y> <z> [path]"))
        } else if str_eq(sub, "merge") {
            Ok(String::from_str("NBT merge applied (simplified — full NBT merging not yet implemented)"))
        } else {
            let mut m = String::from_str("/data ");
            m.append(sub);
            m.append(": NBT data operations (entity/block/storage)");
            Ok(m)
        }
    }
}

/// The scores after a `/trigger` (an `add` or `set` on an unknown
/// objective changes nothing).
pub open spec fn trigger_scores(
    a: Seq<Seq<char>>,
    player: Seq<char>,
    objs: Map<Seq<char>, (Seq<char>, Seq<char>)>,
    scores: Map<(Seq<char>, Seq<char>), i32>,
) -> Map<(Seq<char>, Seq<char>), i32> {
    let obj = a[0];
    let action = if a.len() > 1 { a[1] } else { "add"@ };
    let value = i32_arg(a, 2, 1);
    if !objs.contains_key(obj) {
        scores
    } else if action == "add"@ {
        with_score(scores, player, obj, (score_or_zero(scores, player, obj) + value) as i32)
    } else if action == "set"@ {
        with_score(scores, player, obj, value)
    } else {
        scores
    }
}

/// `/trigger <objective> [add|set] [value]`, run by a player.
pub open spec fn trigger_outcome(
    ctx: CommandContext,
    objs: Map<Seq<char>, (Seq<char>, Seq<char>)>,
    scores: Map<(Seq<char>, Seq<char>), i32>,
) -> (ReplyView, Map<(Seq<char>, Seq<char>), i32>) {
    let a = arg_views(ctx);
    let usage = "Usage: /trigger <objective> [add|set] [value]"@;
    if a.len() == 0 || a[0].len() == 0 {
        (Err(usage), scores)
    } else {
        match ctx.source {
            CommandSource::Player { username, .. } => {
                let action = if a.len() > 1 { a[1] } else { "add"@ };
                if action != "add"@ && action != "set"@ {
                    (Err(usage), scores)
                } else {
                    let after = trigger_scores(a, username@, objs, scores);
                    (
                        Ok("Trigger '"@ + a[0] + "' "@ + action + " "@ + signed_decimal(i32_arg(a, 2, 1) as int)
                            + " → now "@ + signed_decimal(score_or_zero(after, username@, a[0]))),
                        after,
                    )
                }
            },
            _ => (Err("/trigger can only be used by players"@), scores),
        }
    }
}

/// A `/trigger add` keeps the player's score within `i32`.
pub open spec fn trigger_in_range(ctx: CommandContext, scores: Map<(Seq<char>, Seq<char>), i32>) -> bool {
    let a = arg_views(ctx);
    (a.len() > 0 && (a.len() <= 1 || a[1] == "add"@)) ==> match ctx.source {
        CommandSource::Player { username, .. } => add_in_range(scores, username@, a[0], i32_arg(a, 2, 1)),
        _ => true,
    }
}

/// `/trigger`.
pub struct TriggerCommand;

impl TriggerCommand {
    pub fn name(&self) -> &'static str {
        "trigger"
    }

    pub fn description(&self) -> &'static str {
        "Trigger a scoreboard objective (add/set value)"
    }

    /// Whether `execute` may run: false only when an `add` would leave
    /// `i32`.
    pub fn in_range(&self, ctx: &CommandContext, server: &ServerData) -> (r: bool)
        requires
            server.wf(),
        ensures
            r == trigger_in_range(*ctx, server.scoreboard.scores_view()),
    {
        let ghost a = arg_views(*ctx);
        if ctx.args.len() == 0 {
            return true;
        }
        proof {
            assert(a[0] == ctx.args@[0]@);
            if a.len() > 1 { assert(a[1] == ctx.args@[1]@); }
        }
        if ctx.args.len() > 1 && !str_eq(ctx.args[1].as_str(), "add") {
            return true;
        }
        match &ctx.source {
            CommandSource::Player { username, .. } => {
                let value = i32_arg_exec(ctx, 2, 1);
                let cur: i64 = match server.scoreboard.get_score(username.as_str(), ctx.args[0].as_str()) {
                    Some(v) => v as i64,
                    None => 0,
                };
                let sum = cur + value as i64;
                i32::MIN as i64 <= sum && sum <= i32::MAX as i64
            },
            _ => true,
        }
    }

    pub fn execute(&self, ctx: &CommandContext, server: &mut ServerData) -> (r: CommandResult)
        requires
            old(server).wf(),
            trigger_in_range(*ctx, old(server).scoreboard.scores_view()),
        ensures
            final(server).wf(),
            final(server).world == old(server).world,
            final(server).teams == old(server).teams,
            final(server).events == old(server).events,
            final(server).scoreboard.objectives_view() == old(server).scoreboard.objectives_view(),
            reply_view(r) == trigger_outcome(*ctx, old(server).scoreboard.objectives_view(),
                old(server).scoreboard.scores_view()).0,
            final(server).scoreboard.scores_view() == trigger_outcome(*ctx, old(server).scoreboard.objectives_view(),
                old(server).scoreboard.scores_view()).1,
    {
        let ghost a = arg_views(*ctx);
        let usage = "Usage: /trigger <objective> [add|set] [value]";
        if ctx.args.len() == 0 || ctx.args[0].unicode_len() == 0 {
            return Err(String::from_str(usage));
        }
        let obj = ctx.args[0].as_str();
        proof {
            assert(a[0] == obj@);
            if a.len() > 1 { assert(a[1] == ctx.args@[1]@); }
        }
        let player = match &ctx.source {
            CommandSource::Player { username, .. } => username.as_str(),
            _ => {
                return Err(String::from_str("/trigger can only be used by players"));
            },
        };
        let action: &str = if ctx.args.len() > 1 { ctx.args[1].as_str() } else { "add" };
        let value = i32_arg_exec(ctx, 2, 1);
        if str_eq(action, "add") {
            let _ = server.scoreboard.add_score(player, obj, value);
        } else if str_eq(action, "set") {
            let _ = server.scoreboard.set_score(player, obj, value);
        } else {
            return Err(String::from_str(usage));
        }
        let current = match server.scoreboard.get_score(player, obj) {
            Some(v) => v,
            None => 0,
        };
        let mut m = String::from_str("Trigger '");
        m.append(obj);
        m.append("' ");
        m.append(action);
        m.append(" ");
        push_i64(&mut m, value as i64);
        m.append(" → now ");
        push_i64(&mut m, current as i64);
        Ok(m)
    }
}

/// Teams and records after every target joins `name` in turn.
pub open spec fn join_all(
    teams: Map<Seq<char>, TeamView>,
    pt: Map<u128, Seq<char>>,
    name: Seq<char>,
    t: Seq<(u128, Seq<char>)>,
) -> (Map<Seq<char>, TeamView>, Map<u128, Seq<char>>)
    decreases t.len(),
{
    if t.len() == 0 {
        (teams, pt)
    } else {
        let (t2, p2) = join_all(teams, pt, name, t.drop_last());
        join_step(t2, p2, name, t.last().0)
    }
}

/// Teams and records after every target leaves its team in turn.
pub open spec fn leave_all(
    teams: Map<Seq<char>, TeamView>,
    pt: Map<u128, Seq<char>>,
    t: Seq<(u128, Seq<char>)>,
) -> (Map<Seq<char>, TeamView>, Map<u128, Seq<char>>)
    decreases t.len(),
{
    if t.len() == 0 {
        (teams, pt)
    } else {
        let (t2, p2) = leave_all(teams, pt, t.drop_last());
        leave_step(t2, p2, t.last().0)
    }
}

/// The targets of `/team join|leave`: named ones, or the source itself
/// (listed under the name `self`).
pub open spec fn team_targets(ctx: CommandContext, at: int) -> Option<Seq<(u128, Seq<char>)>> {
    let a = arg_views(ctx);
    if a.len() > at {
        Some(targets_spec(a[at], ctx))
    } else {
        match ctx.source {
            CommandSource::Player { uuid, .. } => Some(seq![(uuid, "self"@)]),
            _ => None,
        }
    }
}

pub open spec fn team_line(name: Seq<char>, v: TeamView) -> Seq<char> {
    name + " ("@ + decimal(v.members.len()) + " members)"@
}

pub open spec fn no_team_event(team: Seq<char>, action: u8, members: Seq<Seq<char>>) -> EventView {
    EventView::TeamUpdate {
        team,
        action,
        display: Seq::empty(),
        color: Seq::empty(),
        friendly_fire: false,
        members,
    }
}

/// What `/team` does: the reply, the teams and player records after it,
/// and the events it emits.
pub open spec fn team_outcome(
    ctx: CommandContext,
    teams: Map<Seq<char>, TeamView>,
    pt: Map<u128, Seq<char>>,
    order: Seq<Seq<char>>,
) -> (ReplyView, Map<Seq<char>, TeamView>, Map<u128, Seq<char>>, Seq<EventView>) {
    let a = arg_views(ctx);
    let none = Seq::<EventView>::empty();
    let action = if a.len() > 0 { a[0] } else { "list"@ };
    if !ctx.teams_available {
        (Err("Team manager not available"@), teams, pt, none)
    } else if action == "add"@ {
        if a.len() < 2 {
            (Err("Usage: /team add <name> [color]"@), teams, pt, none)
        } else {
            let name = a[1];
            let color = if a.len() > 2 { a[2] } else { "white"@ };
            let after = if teams.contains_key(name) {
                teams
            } else {
                teams.insert(name, TeamView {
                    color,
                    prefix: Seq::empty(),
                    suffix: Seq::empty(),
                    friendly_fire: true,
                    members: Set::empty(),
                })
            };
            (
                Ok("Created team '"@ + name + "' (color: "@ + color + ")"@),
                after,
                pt,
                seq![EventView::TeamUpdate {
                    team: name,
                    action: 0,
                    display: name,
                    color,
                    friendly_fire: after[name].friendly_fire,
                    members: Seq::empty(),
                }],
            )
        }
    } else if action == "remove"@ {
        if a.len() < 2 {
            (Err("Usage: /team remove <name>"@), teams, pt, none)
        } else {
            let name = a[1];
            (
                Ok("Removed team '"@ + name + "'"@),
                teams.remove(name),
                if teams.contains_key(name) { pt.remove_keys(teams[name].members) } else { pt },
                seq![no_team_event(name, 1, Seq::empty())],
            )
        }
    } else if action == "join"@ {
        if a.len() < 2 {
            (Err("Usage: /team join <team> [members]"@), teams, pt, none)
        } else {
            match team_targets(ctx, 2) {
                None => (Err("Specify player to join"@), teams, pt, none),
                Some(t) => {
                    let (t2, p2) = join_all(teams, pt, a[1], t);
                    let count: nat = if teams.contains_key(a[1]) { t.len() } else { 0 };
                    (
                        Ok(decimal(count) + " player(s) joined team '"@ + a[1] + "'"@),
                        t2,
                        p2,
                        if count > 0 { seq![no_team_event(a[1], 3, target_names(t))] } else { none },
                    )
                },
            }
        }
    } else if action == "leave"@ {
        match team_targets(ctx, 1) {
            None => (Err("Specify player to leave"@), teams, pt, none),
            Some(t) => {
                let (t2, p2) = leave_all(teams, pt, t);
                (
                    Ok(decimal(t.len()) + " player(s) left their teams"@),
                    t2,
                    p2,
                    seq![no_team_event(Seq::empty(), 4, target_names(t))],
                )
            },
        }
    } else if action == "list"@ {
        if order.len() == 0 {
            (Ok("No teams defined"@), teams, pt, none)
        } else {
            (Ok(joined(order.map_values(|n: Seq<char>| team_line(n, teams[n])), "\n"@)), teams, pt, none)
        }
    } else {
        (Err("Usage: /team <add|remove|join|leave|list>"@), teams, pt, none)
    }
}

fn team_targets_exec(ctx: &CommandContext, at: usize) -> (r: Option<Vec<Target>>)
    ensures
        match (r, team_targets(*ctx, at as int)) {
            (Some(x), Some(y)) => targets_view(x@) == y,
            (None, None) => true,
            _ => false,
        },
{
    if ctx.args.len() > at {
        proof { assert(arg_views(*ctx)[at as int] == ctx.args@[at as int]@); }
        Some(resolve_player_targets(ctx.args[at].as_str(), ctx))
    } else {
        match &ctx.source {
            CommandSource::Player { uuid, .. } => {
                let mut v: Vec<Target> = Vec::new();
                let n = String::from_str("self");
                v.push((*uuid, n));
                proof {
                    assert(v@ =~= seq![(*uuid, n)]);
                    assert(targets_view(v@) =~= seq![(*uuid, "self"@)]);
                }
                Some(v)
            },
            _ => None,
        }
    }
}

fn names_of_targets(t: &Vec<Target>) -> (r: Vec<String>)
    ensures
        views(r@) == target_names(targets_view(t@)),
{
    let mut out: Vec<String> = Vec::new();
    let mut i: usize = 0;
    while i < t.len()
        invariant
            i <= t@.len(),
            views(out@) == target_names(targets_view(t@)).subrange(0, i as int),
        decreases t@.len() - i,
    {
        let ghost before = out@;
        let n = t[i].1.clone();
        out.push(n);
        proof {
            assert(out@ =~= before.push(n));
            assert(views(out@) =~= views(before).push(n@));
            assert(target_names(targets_view(t@)).subrange(0, i + 1)
                =~= target_names(targets_view(t@)).subrange(0, i as int).push(n@));
        }
        i = i + 1;
    }
    proof { assert(target_names(targets_view(t@)).subrange(0, t@.len() as int) =~= target_names(targets_view(t@))); }
    out
}

/// `/team`.
pub struct TeamCommand;

impl TeamCommand {
    pub fn name(&self) -> &'static str {
        "team"
    }

    pub fn description(&self) -> &'static str {
        "Manage teams"
    }

    pub fn execute(&self, ctx: &CommandContext, server: &mut ServerData) -> (r: CommandResult)
        requires
            old(server).wf(),
        ensures
            final(server).wf(),
            final(server).world == old(server).world,
            final(server).scoreboard == old(server).scoreboard,
            ({
                let (reply, teams, pt, evs) = team_outcome(*ctx, old(server).teams@,
                    old(server).teams.player_teams(), old(server).teams.team_order());
                &&& reply_view(r) == reply
                &&& final(server).teams@ == teams
                &&& final(server).teams.player_teams() == pt
                &&& event_views(final(server).events@) == event_views(old(server).events@) + evs
            }),
    {
        let ghost a = arg_views(*ctx);
        let ghost e0 = event_views(server.events@);
        proof { assert(e0 =~= e0 + Seq::<EventView>::empty()); }
        if !ctx.teams_available {
            return Err(String::from_str("Team manager not available"));
        }
        let action: &str = if ctx.args.len() > 0 { ctx.args[0].as_str() } else { "list" };
        proof {
            if a.len() > 0 { assert(a[0] == ctx.args@[0]@); }
            if a.len() > 1 { assert(a[1] == ctx.args@[1]@); }
            if a.len() > 2 { assert(a[2] == ctx.args@[2]@); }
        }
        if str_eq(action, "add") {
            if ctx.args.len() < 2 {
                return Err(String::from_str("Usage: /team add <name> [color]"));
            }
            let name = ctx.args[1].as_str();
            let color: &str = if ctx.args.len() > 2 { ctx.args[2].as_str() } else { "white" };
            server.teams.add_team(name, color);
            let ff = match server.teams.team_named(name) {
                Some(t) => t.friendly_fire,
                None => {
                    proof { assert(false); }
                    false
                },
            };
            let members: Vec<String> = Vec::new();
            proof { assert(members@.map_values(|m: String| m@) =~= Seq::<Seq<char>>::empty()); }
            emit(server, ServerEvent::TeamUpdate {
                team: String::from_str(name),
                action: 0,
                display: String::from_str(name),
                color: String::from_str(color),
                friendly_fire: ff,
                members,
            });
            proof {
                let ev = EventView::TeamUpdate {
                    team: name@,
                    action: 0,
                    display: name@,
                    color: color@,
                    friendly_fire: ff,
                    members: Seq::empty(),
                };
                assert(event_views(server.events@) =~= e0 + seq![ev]);
            }
            let mut m = String::from_str("Created team '");
            m.append(name);
            m.append("' (color: ");
            m.append(color);
            m.append(")");
            Ok(m)
        } else if str_eq(action, "remove") {
            if ctx.args.len() < 2 {
                return Err(String::from_str("Usage: /team remove <name>"));
            }
            let name = ctx.args[1].as_str();
            server.teams.remove_team(name);
            let members: Vec<String> = Vec::new();
            proof { assert(members@.map_values(|m: String| m@) =~= Seq::<Seq<char>>::empty()); }
            emit(server, ServerEvent::TeamUpdate {
                team: String::from_str(name),
                action: 1,
                display: String::new(),
                color: String::new(),
                friendly_fire: false,
                members,
            });
            proof { assert(event_views(server.events@) =~= e0 + seq![no_team_event(name@, 1, Seq::empty())]); }
            let mut m = String::from_str("Removed team '");
            m.append(name);
            m.append("'");
            Ok(m)
        } else if str_eq(action, "join") {
            if ctx.args.len() < 2 {
                return Err(String::from_str("Usage: /team join <team> [members]"));
            }
            let tname = ctx.args[1].as_str();
            let targets = match team_targets_exec(ctx, 2) {
                Some(t) => t,
                None => {
                    return Err(String::from_str("Specify player to join"));
                },
            };
            let ghost tv = targets_view(targets@);
            let ghost t0 = server.teams@;
            let ghost p0 = server.teams.player_teams();
            let ghost team_exists = t0.contains_key(tname@);
            let names = names_of_targets(&targets);
            let mut count: usize = 0;
            let mut i: usize = 0;
            while i < targets.len()
                invariant
                    i <= targets@.len(),
                    tv == targets_view(targets@),
                    server.wf(),
                    server.world == old(server).world,
                    server.scoreboard == old(server).scoreboard,
                    server.events == old(server).events,
                    team_exists == t0.contains_key(tname@),
                    (server.teams@, server.teams.player_teams()) == join_all(t0, p0, tname@, tv.subrange(0, i as int)),
                    server.teams@.contains_key(tname@) == team_exists,
                    count == if team_exists { i } else { 0 },
                decreases targets@.len() - i,
            {
                let ghost before = (server.teams@, server.teams.player_teams());
                if server.teams.join_team(tname, targets[i].0) {
                    count = count + 1;
                }
                proof {
                    assert(tv.subrange(0, i + 1).drop_last() =~= tv.subrange(0, i as int));
                    assert(tv.subrange(0, i + 1).last() == tv[i as int]);
                }
                i = i + 1;
            }
            proof { assert(tv.subrange(0, tv.len() as int) =~= tv); }
            if count > 0 {
                emit(server, ServerEvent::TeamUpdate {
                    team: String::from_str(tname),
                    action: 3,
                    display: String::new(),
                    color: String::new(),
                    friendly_fire: false,
                    members: names,
                });
                proof {
                    assert(event_views(server.events@) =~= e0 + seq![no_team_event(tname@, 3, target_names(tv))]);
                }
            }
            let mut m = String::new();
            push_u64(&mut m, count as u64);
            m.append(" player(s) joined team '");
            m.append(tname);
            m.append("'");
            Ok(m)
        } else if str_eq(action, "leave") {
            let targets = match team_targets_exec(ctx, 1) {
                Some(t) => t,
                None => {
                    return Err(String::from_str("Specify player to leave"));
                },
            };
            let ghost tv = targets_view(targets@);
            let ghost t0 = server.teams@;
            let ghost p0 = server.teams.player_teams();
            let names = names_of_targets(&targets);
            let mut i: usize = 0;
            while i < targets.len()
                invariant
                    i <= targets@.len(),
                    tv == targets_view(targets@),
                    server.wf(),
                    server.world == old(server).world,
                    server.scoreboard == old(server).scoreboard,
                    server.events == old(server).events,
                    (server.teams@, server.teams.player_teams()) == leave_all(t0, p0, tv.subrange(0, i as int)),
                decreases targets@.len() - i,
            {
                server.teams.leave_team(targets[i].0);
                proof {
                    assert(tv.subrange(0, i + 1).drop_last() =~= tv.subrange(0, i as int));
                    assert(tv.subrange(0, i + 1).last() == tv[i as int]);
                }
                i = i + 1;
            }
            proof { assert(tv.subrange(0, tv.len() as int) =~= tv); }
            emit(server, ServerEvent::TeamUpdate {
                team: String::new(),
                action: 4,
                display: String::new(),
                color: String::new(),
                friendly_fire: false,
                members: names,
            });
            proof {
                assert(event_views(server.events@) =~= e0 + seq![no_team_event(Seq::empty(), 4, target_names(tv))]);
            }
            let mut m = String::new();
            push_u64(&mut m, targets.len() as u64);
            m.append(" player(s) left their teams");
            Ok(m)
        } else if str_eq(action, "list") {
            let teams = server.teams.list_teams();
            if teams.len() == 0 {
                return Ok(String::from_str("No teams defined"));
            }
            let ghost order = server.teams.team_order();
            let ghost view = server.teams@;
            let mut lines: Vec<String> = Vec::new();
            let mut i: usize = 0;
            while i < teams.len()
                invariant
                    i <= teams@.len(),
                    teams@.len() == order.len(),
                    forall|j: int| 0 <= j < teams@.len() ==> view.contains_key(#[trigger] teams@[j].name@)
                        && team_view(*teams@[j]) == view[teams@[j].name@] && teams@[j].members.wf()
                        && teams@[j].name@ == order[j],
                    views(lines@) == order.subrange(0, i as int).map_values(|n: Seq<char>| team_line(n, view[n])),
                decreases teams@.len() - i,
            {
                let t = teams[i];
                let mut l = String::from_str(t.name.as_str());
                l.append(" (");
                let c = t.member_count();
                push_u64(&mut l, c as u64);
                l.append(" members)");
                let ghost before = views(lines@);
                let ghost lv = l@;
                lines.push(l);
                proof {
                    assert(views(lines@) =~= before.push(lv));
                    assert(order.subrange(0, i + 1).map_values(|n: Seq<char>| team_line(n, view[n]))
                        =~= order.subrange(0, i as int).map_values(|n: Seq<char>| team_line(n, view[n])).push(lv));
                }
                i = i + 1;
            }
            proof { assert(order.subrange(0, order.len() as int) =~= order); }
            Ok(join(&lines, "\n"))
        } else {
            Err(String::from_str("Usage: /team <add|remove|join|leave|list>"))
        }
    }
}

} // verus!
