//! Commands that act on selected players: `/title`, `/clear`,
//! `/stopsound`, `/spectate`, `/ride`, `/attribute`, `/item` and `/xp`.
//!
//! Each selected player gets one event; the server performs it. The reply
//! counts the selected players.

use vstd::prelude::*;
use vstd::string::*;
use crate::block::BlockState;
use crate::commands::context::{
    arg_views, emit, event_views, find_player, CommandContext, CommandResult, CommandSource, EventView, PlayerInfo,
    ReplyView, ServerData, ServerEvent,
};
use crate::commands::info::only_events_added;
use crate::commands::player::item_block;
use crate::commands::selector::{resolve_player_targets, targets_spec, targets_view, Target};
use crate::item::resolve_item;
use crate::text::{decimal, i32_of, i32_opt, lowercase, push_char, push_i64, push_u64, signed_decimal, str_eq,
    to_lowercase, u32_of, u32_opt, u8_of, u8_opt};
use crate::types::GameMode;

verus! {

// ───────────────────────────── per-target events ─────────────────────────────

/// The event each selected player gets.
pub enum PerTarget {
    Title { action: i32, text: String },
    ClearInventory,
    PlaySound { sound: String, volume: String, pitch: String },
    StopSound,
    Mount { vehicle: u128 },
    Dismount,
    AddXp { amount: i32 },
    SetXp { level: i32, total: i32 },
    GiveItem { block: BlockState, count: u32 },
}

pub open spec fn per_target_view(k: PerTarget, uuid: u128) -> EventView {
    match k {
        PerTarget::Title { action, text } => EventView::Title { uuid, action, text: text@ },
        PerTarget::ClearInventory => EventView::ClearInventory { uuid },
        PerTarget::PlaySound { sound, volume, pitch } =>
            EventView::PlaySound { uuid, sound: sound@, volume: volume@, pitch: pitch@ },
        PerTarget::StopSound => EventView::StopSound { uuid },
        PerTarget::Mount { vehicle } => EventView::Mount { uuid, vehicle },
        PerTarget::Dismount => EventView::Dismount { uuid },
        PerTarget::AddXp { amount } => EventView::AddXp { uuid, amount },
        PerTarget::SetXp { level, total } => EventView::SetXp { uuid, level, total },
        PerTarget::GiveItem { block, count } => EventView::GiveItem { uuid, block, count },
    }
}

/// The events for a list of targets, in order.
pub open spec fn each_target(k: PerTarget, t: Seq<(u128, Seq<char>)>) -> Seq<EventView> {
    t.map_values(|x: (u128, Seq<char>)| per_target_view(k, x.0))
}

fn per_target_event(k: &PerTarget, uuid: u128) -> (e: ServerEvent)
    ensures
        crate::commands::context::event_view(e) == per_target_view(*k, uuid),
{
    match k {
        PerTarget::Title { action, text } => ServerEvent::Title { uuid, action: *action, text: text.clone() },
        PerTarget::ClearInventory => ServerEvent::ClearInventory { uuid },
        PerTarget::PlaySound { sound, volume, pitch } =>
            ServerEvent::PlaySound { uuid, sound: sound.clone(), volume: volume.clone(), pitch: pitch.clone() },
        PerTarget::StopSound => ServerEvent::StopSound { uuid },
        PerTarget::Mount { vehicle } => ServerEvent::Mount { uuid, vehicle: *vehicle },
        PerTarget::Dismount => ServerEvent::Dismount { uuid },
        PerTarget::AddXp { amount } => ServerEvent::AddXp { uuid, amount: *amount },
        PerTarget::SetXp { level, total } => ServerEvent::SetXp { uuid, level: *level, total: *total },
        PerTarget::GiveItem { block, count } => ServerEvent::GiveItem { uuid, block: *block, count: *count },
    }
}

/// Adds the event of `k` for every target.
fn emit_each(server: &mut ServerData, targets: &Vec<Target>, k: &PerTarget)
    requires
        old(server).wf(),
    ensures
        only_events_added(*old(server), *final(server), each_target(*k, targets_view(targets@))),
{
    let ghost tv = targets_view(targets@);
    let ghost e0 = event_views(server.events@);
    let mut i: usize = 0;
    while i < targets.len()
        invariant
            i <= targets@.len(),
            tv == targets_view(targets@),
            server.wf(),
            server.world == old(server).world,
            server.scoreboard == old(server).scoreboard,
            server.teams == old(server).teams,
            e0 == event_views(old(server).events@),
            event_views(server.events@) == e0 + each_target(*k, tv.subrange(0, i as int)),
        decreases targets@.len() - i,
    {
        let e = per_target_event(k, targets[i].0);
        emit(server, e);
        proof {
            assert(each_target(*k, tv.subrange(0, i + 1)) =~= each_target(*k, tv.subrange(0, i as int))
                + seq![per_target_view(*k, tv[i as int].0)]);
        }
        i = i + 1;
    }
    proof { assert(tv.subrange(0, tv.len() as int) =~= tv); }
}

fn count_text(prefix: &str, n: usize, suffix: &str) -> (r: String)
    ensures
        r@ == prefix@ + decimal(n as nat) + suffix@,
{
    let mut m = String::from_str(prefix);
    push_u64(&mut m, n as u64);
    m.append(suffix);
    m
}

// ─────────────────────────────────── /title ───────────────────────────────────

/// The title action a (lower-case) word names.
pub open spec fn title_action(s: Seq<char>) -> Option<i32> {
    if s == "title"@ {
        Some(0)
    } else if s == "subtitle"@ {
        Some(1)
    } else if s == "actionbar"@ {
        Some(2)
    } else if s == "clear"@ {
        Some(4)
    } else if s == "reset"@ {
        Some(5)
    } else {
        None
    }
}

/// A character inside a JSON string: backslash and quote get a backslash.
pub open spec fn json_escape_char(c: char) -> Seq<char> {
    if c == '\\' {
        seq!['\\', '\\']
    } else if c == '"' {
        seq!['\\', '"']
    } else {
        seq![c]
    }
}

pub open spec fn json_escape(s: Seq<char>) -> Seq<char>
    decreases s.len(),
{
    if s.len() == 0 {
        Seq::empty()
    } else {
        json_escape(s.drop_last()) + json_escape_char(s.last())
    }
}

/// The JSON text component of a title action: a text for title, subtitle
/// and action bar, nothing for clear and reset.
pub open spec fn title_json(action: i32, text: Seq<char>) -> Seq<char> {
    if 0 <= action <= 2 {
        "{\"text\":\""@ + json_escape(text) + "\"}"@
    } else {
        Seq::empty()
    }
}

/// `/title <player> <action> <text>`.
pub open spec fn title_outcome(ctx: CommandContext) -> (ReplyView, Seq<EventView>) {
    let a = arg_views(ctx);
    if a.len() < 3 {
        (Err("Usage: /title <player> title|subtitle|actionbar|clear|reset <text>"@), Seq::empty())
    } else {
        let act = lowercase(a[1]);
        match title_action(act) {
            None => (Err("Unknown title action: "@ + act + ". Use title/subtitle/actionbar/clear/reset"@), Seq::empty()),
            Some(n) => {
                let t = targets_spec(a[0], ctx);
                if t.len() == 0 {
                    (Err("No player matched: "@ + a[0]), Seq::empty())
                } else {
                    (
                        Ok("Sent "@ + act + " to "@ + decimal(t.len()) + " player(s)"@),
                        t.map_values(|x: (u128, Seq<char>)| EventView::Title { uuid: x.0, action: n, text: title_json(n, a[2]) }),
                    )
                }
            },
        }
    }
}

fn title_action_of(s: &str) -> (r: Option<i32>)
    ensures
        r == title_action(s@),
{
    if str_eq(s, "title") {
        Some(0)
    } else if str_eq(s, "subtitle") {
        Some(1)
    } else if str_eq(s, "actionbar") {
        Some(2)
    } else if str_eq(s, "clear") {
        Some(4)
    } else if str_eq(s, "reset") {
        Some(5)
    } else {
        None
    }
}

/// Appends `text` escaped for a JSON string.
pub fn push_json_escaped(out: &mut String, text: &str)
    ensures
        final(out)@ == old(out)@ + json_escape(text@),
{
    let n = text.unicode_len();
    let mut i: usize = 0;
    while i < n
        invariant
            n == text@.len(),
            i <= n,
            out@ == old(out)@ + json_escape(text@.subrange(0, i as int)),
        decreases n - i,
    {
        let c = text.get_char(i);
        if c == '\\' {
            push_char(out, '\\');
            push_char(out, '\\');
        } else if c == '"' {
            push_char(out, '\\');
            push_char(out, '"');
        } else {
            push_char(out, c);
        }
        proof {
            let p = text@.subrange(0, i + 1);
            assert(p.drop_last() =~= text@.subrange(0, i as int));
            assert(p.last() == c);
            assert(out@ =~= old(out)@ + json_escape(p));
        }
        i = i + 1;
    }
    assert(text@.subrange(0, n as int) =~= text@);
}

fn title_json_of(action: i32, text: &str) -> (r: String)
    ensures
        r@ == title_json(action, text@),
{
    if 0 <= action && action <= 2 {
        let mut s = String::from_str("{\"text\":\"");
        push_json_escaped(&mut s, text);
        s.append("\"}");
        s
    } else {
        String::new()
    }
}

/// `/title`.
pub struct TitleCommand;

impl TitleCommand {
    pub fn name(&self) -> &'static str {
        "title"
    }

    pub fn description(&self) -> &'static str {
        "Send a title/subtitle/actionbar to players"
    }

    pub fn execute(&self, ctx: &CommandContext, server: &mut ServerData) -> (r: CommandResult)
        requires
            old(server).wf(),
        ensures
            only_events_added(*old(server), *final(server), title_outcome(*ctx).1),
            crate::commands::context::reply_view(r) == title_outcome(*ctx).0,
    {
        let ghost a = arg_views(*ctx);
        let ghost e0 = event_views(server.events@);
        proof { assert(e0 =~= e0 + Seq::<EventView>::empty()); }
        if ctx.args.len() < 3 {
            return Err(String::from_str("Usage: /title <player> title|subtitle|actionbar|clear|reset <text>"));
        }
        proof {
            assert(a[0] == ctx.args@[0]@);
            assert(a[1] == ctx.args@[1]@);
            assert(a[2] == ctx.args@[2]@);
        }
        let act = to_lowercase(ctx.args[1].as_str());
        let n = match title_action_of(act.as_str()) {
            Some(n) => n,
            None => {
                let mut e = String::from_str("Unknown title action: ");
                e.append(act.as_str());
                e.append(". Use title/subtitle/actionbar/clear/reset");
                return Err(e);
            },
        };
        let text = title_json_of(n, ctx.args[2].as_str());
        let targets = resolve_player_targets(ctx.args[0].as_str(), ctx);
        if targets.len() == 0 {
            let mut e = String::from_str("No player matched: ");
            e.append(ctx.args[0].as_str());
            return Err(e);
        }
        let k = PerTarget::Title { action: n, text };
        emit_each(server, &targets, &k);
        proof {
            let t = targets_view(targets@);
            assert(each_target(k, t) =~= t.map_values(|x: (u128, Seq<char>)|
                EventView::Title { uuid: x.0, action: n, text: title_json(n, a[2]) }));
        }
        let mut m = String::from_str("Sent ");
        m.append(act.as_str());
        m.append(" to ");
        push_u64(&mut m, targets.len() as u64);
        m.append(" player(s)");
        Ok(m)
    }
}

// ─────────────────────────────────── /clear ───────────────────────────────────

/// The player `/clear` is about: the argument, or the source's own name.
pub open spec fn clear_target(ctx: CommandContext) -> Option<Seq<char>> {
    let a = arg_views(ctx);
    if a.len() > 0 {
        Some(a[0])
    } else {
        match ctx.source {
            CommandSource::Player { username, .. } => Some(username@),
            _ => None,
        }
    }
}

/// `/clear [player]`.
pub open spec fn clear_outcome(ctx: CommandContext) -> (ReplyView, Seq<EventView>) {
    match clear_target(ctx) {
        None => (Err("Usage: /clear [player]"@), Seq::empty()),
        Some(tg) => {
            let t = targets_spec(tg, ctx);
            if t.len() == 0 {
                (Err("No player matched: "@ + tg), Seq::empty())
            } else {
                (Ok("Cleared inventory of "@ + decimal(t.len()) + " player(s)"@), each_target(PerTarget::ClearInventory, t))
            }
        },
    }
}

/// `/clear`.
pub struct ClearCommand;

impl ClearCommand {
    pub fn name(&self) -> &'static str {
        "clear"
    }

    pub fn description(&self) -> &'static str {
        "Clear items from player inventory"
    }

    pub fn execute(&self, ctx: &CommandContext, server: &mut ServerData) -> (r: CommandResult)
        requires
            old(server).wf(),
        ensures
            only_events_added(*old(server), *final(server), clear_outcome(*ctx).1),
            crate::commands::context::reply_view(r) == clear_outcome(*ctx).0,
    {
        let ghost e0 = event_views(server.events@);
        proof { assert(e0 =~= e0 + Seq::<EventView>::empty()); }
        let target: String = if ctx.args.len() > 0 {
            proof { assert(arg_views(*ctx)[0] == ctx.args@[0]@); }
            ctx.args[0].clone()
        } else {
            match &ctx.source {
                CommandSource::Player { username, .. } => username.clone(),
                _ => {
                    return Err(String::from_str("Usage: /clear [player]"));
                },
            }
        };
        let targets = resolve_player_targets(target.as_str(), ctx);
        if targets.len() == 0 {
            let mut e = String::from_str("No player matched: ");
            e.append(target.as_str());
            return Err(e);
        }
        emit_each(server, &targets, &PerTarget::ClearInventory);
        Ok(count_text("Cleared inventory of ", targets.len(), " player(s)"))
    }
}

// ───────────────────────────────── /playsound ─────────────────────────────────

/// A sound name with `minecraft:` in front unless it has a namespace.
pub open spec fn full_sound_name(s: Seq<char>) -> Seq<char> {
    if s.contains(':') { s } else { "minecraft:"@ + s }
}

/// Argument `i`, or the empty text.
pub open spec fn arg_or_empty(a: Seq<Seq<char>>, i: int) -> Seq<char> {
    if a.len() > i { a[i] } else { Seq::empty() }
}

/// `/playsound <sound> <player> [volume] [pitch]`.
pub open spec fn playsound_outcome(ctx: CommandContext) -> (ReplyView, Seq<EventView>) {
    let a = arg_views(ctx);
    if a.len() < 2 {
        (Err("Usage: /playsound <sound> <player> [volume] [pitch]"@), Seq::empty())
    } else {
        let t = targets_spec(a[1], ctx);
        if t.len() == 0 {
            (Err("No player matched: "@ + a[1]), Seq::empty())
        } else {
            (
                Ok("Played "@ + a[0] + " to "@ + decimal(t.len()) + " player(s)"@),
                t.map_values(|x: (u128, Seq<char>)| EventView::PlaySound {
                    uuid: x.0,
                    sound: full_sound_name(a[0]),
                    volume: arg_or_empty(a, 2),
                    pitch: arg_or_empty(a, 3),
                }),
            )
        }
    }
}

fn has_colon(s: &str) -> (r: bool)
    ensures
        r == s@.contains(':'),
{
    let n = s.unicode_len();
    let mut i: usize = 0;
    while i < n
        invariant
            n == s@.len(),
            i <= n,
            forall|j: int| 0 <= j < i ==> s@[j] != ':',
        decreases n - i,
    {
        if s.get_char(i) == ':' {
            return true;
        }
        i = i + 1;
    }
    false
}

fn arg_text(ctx: &CommandContext, i: usize) -> (r: String)
    ensures
        r@ == arg_or_empty(arg_views(*ctx), i as int),
{
    if ctx.args.len() > i {
        proof { assert(arg_views(*ctx)[i as int] == ctx.args@[i as int]@); }
        ctx.args[i].clone()
    } else {
        String::new()
    }
}

/// `/playsound`.
pub struct PlaysoundCommand;

impl PlaysoundCommand {
    pub fn name(&self) -> &'static str {
        "playsound"
    }

    pub fn description(&self) -> &'static str {
        "Play a sound effect for players"
    }

    pub fn execute(&self, ctx: &CommandContext, server: &mut ServerData) -> (r: CommandResult)
        requires
            old(server).wf(),
        ensures
            only_events_added(*old(server), *final(server), playsound_outcome(*ctx).1),
            crate::commands::context::reply_view(r) == playsound_outcome(*ctx).0,
    {
        let ghost a = arg_views(*ctx);
        let ghost e0 = event_views(server.events@);
        proof { assert(e0 =~= e0 + Seq::<EventView>::empty()); }
        if ctx.args.len() < 2 {
            return Err(String::from_str("Usage: /playsound <sound> <player> [volume] [pitch]"));
        }
        proof {
            assert(a[0] == ctx.args@[0]@);
            assert(a[1] == ctx.args@[1]@);
        }
        let name = ctx.args[0].as_str();
        let sound = if has_colon(name) {
            String::from_str(name)
        } else {
            let mut f = String::from_str("minecraft:");
            f.append(name);
            f
        };
        let targets = resolve_player_targets(ctx.args[1].as_str(), ctx);
        if targets.len() == 0 {
            let mut e = String::from_str("No player matched: ");
            e.append(ctx.args[1].as_str());
            return Err(e);
        }
        let k = PerTarget::PlaySound { sound, volume: arg_text(ctx, 2), pitch: arg_text(ctx, 3) };
        emit_each(server, &targets, &k);
        proof {
            let t = targets_view(targets@);
            assert(each_target(k, t) =~= t.map_values(|x: (u128, Seq<char>)| EventView::PlaySound {
                uuid: x.0,
                sound: full_sound_name(a[0]),
                volume: arg_or_empty(a, 2),
                pitch: arg_or_empty(a, 3),
            }));
        }
        let mut m = String::from_str("Played ");
        m.append(name);
        m.append(" to ");
        push_u64(&mut m, targets.len() as u64);
        m.append(" player(s)");
        Ok(m)
    }
}

// ───────────────────────────────── /stopsound ─────────────────────────────────

/// `/stopsound <player> [sound]`.
pub open spec fn stopsound_outcome(ctx: CommandContext) -> (ReplyView, Seq<EventView>) {
    let a = arg_views(ctx);
    if a.len() == 0 {
        (Err("Usage: /stopsound <player> [sound]"@), Seq::empty())
    } else {
        let t = targets_spec(a[0], ctx);
        if t.len() == 0 {
            (Err("No targets matched"@), Seq::empty())
        } else {
            (Ok("Stopped sounds for "@ + decimal(t.len()) + " player(s)"@), each_target(PerTarget::StopSound, t))
        }
    }
}

/// `/stopsound`.
pub struct StopsoundCommand;

impl StopsoundCommand {
    pub fn name(&self) -> &'static str {
        "stopsound"
    }

    pub fn description(&self) -> &'static str {
        "Stop a playing sound"
    }

    pub fn execute(&self, ctx: &CommandContext, server: &mut ServerData) -> (r: CommandResult)
        requires
            old(server).wf(),
        ensures
            only_events_added(*old(server), *final(server), stopsound_outcome(*ctx).1),
            crate::commands::context::reply_view(r) == stopsound_outcome(*ctx).0,
    {
        let ghost e0 = event_views(server.events@);
        proof { assert(e0 =~= e0 + Seq::<EventView>::empty()); }
        if ctx.args.len() == 0 {
            return Err(String::from_str("Usage: /stopsound <player> [sound]"));
        }
        proof { assert(arg_views(*ctx)[0] == ctx.args@[0]@); }
        let targets = resolve_player_targets(ctx.args[0].as_str(), ctx);
        if targets.len() == 0 {
            return Err(String::from_str("No targets matched"));
        }
        emit_each(server, &targets, &PerTarget::StopSound);
        Ok(count_text("Stopped sounds for ", targets.len(), " player(s)"))
    }
}

// ───────────────────────────────── /spectate ─────────────────────────────────

/// `/spectate <target>`: the source becomes a spectator of the first
/// selected player.
pub open spec fn spectate_outcome(ctx: CommandContext) -> (ReplyView, Seq<EventView>) {
    let a = arg_views(ctx);
    if a.len() == 0 {
        (Err("Usage: /spectate <target>"@), Seq::empty())
    } else {
        let t = targets_spec(a[0], ctx);
        if t.len() == 0 {
            (Err("No targets matched"@), Seq::empty())
        } else {
            match ctx.source {
                CommandSource::Player { uuid, .. } => (
                    Ok("Spectating "@ + t[0].1),
                    seq![
                        EventView::SetGamemode { uuid, mode: GameMode::Spectator },
                        EventView::Spectate { uuid, target: t[0].0 },
                    ],
                ),
                _ => (Err("Console cannot spectate"@), Seq::empty()),
            }
        }
    }
}

/// `/spectate`.
pub struct SpectateCommand;

impl SpectateCommand {
    pub fn name(&self) -> &'static str {
        "spectate"
    }

    pub fn description(&self) -> &'static str {
        "Enter spectator mode and spectate a target"
    }

    pub fn execute(&self, ctx: &CommandContext, server: &mut ServerData) -> (r: CommandResult)
        requires
            old(server).wf(),
        ensures
            only_events_added(*old(server), *final(server), spectate_outcome(*ctx).1),
            crate::commands::context::reply_view(r) == spectate_outcome(*ctx).0,
    {
        let ghost e0 = event_views(server.events@);
        proof { assert(e0 =~= e0 + Seq::<EventView>::empty()); }
        if ctx.args.len() == 0 {
            return Err(String::from_str("Usage: /spectate <target>"));
        }
        proof { assert(arg_views(*ctx)[0] == ctx.args@[0]@); }
        let targets = resolve_player_targets(ctx.args[0].as_str(), ctx);
        if targets.len() == 0 {
            return Err(String::from_str("No targets matched"));
        }
        match &ctx.source {
            CommandSource::Player { uuid, .. } => {
                let target = targets[0].0;
                emit(server, ServerEvent::SetGamemode { uuid: *uuid, mode: GameMode::Spectator });
                emit(server, ServerEvent::Spectate { uuid: *uuid, target });
                proof {
                    assert(event_views(server.events@) =~= e0 + seq![
                        EventView::SetGamemode { uuid: *uuid, mode: GameMode::Spectator },
                        EventView::Spectate { uuid: *uuid, target },
                    ]);
                }
                let mut m = String::from_str("Spectating ");
                m.append(targets[0].1.as_str());
                Ok(m)
            },
            _ => Err(String::from_str("Console cannot spectate")),
        }
    }
}

// ─────────────────────────────────── /ride ───────────────────────────────────

/// `/ride <target> <mount|dismount> [vehicle]`.
pub open spec fn ride_outcome(ctx: CommandContext) -> (ReplyView, Seq<EventView>) {
    let a = arg_views(ctx);
    if a.len() < 2 {
        (Err("Usage: /ride <target> <mount|dismount> [vehicle]"@), Seq::empty())
    } else {
        let t = targets_spec(a[0], ctx);
        let act = lowercase(a[1]);
        if act == "mount"@ {
            if a.len() < 3 {
                (Err("Usage: /ride <target> mount <vehicle>"@), Seq::empty())
            } else {
                let v = targets_spec(a[2], ctx);
                if t.len() == 0 || v.len() == 0 {
                    (Err("No matching entities"@), Seq::empty())
                } else {
                    (Ok(decimal(t.len()) + " entity(s) mounted"@), each_target(PerTarget::Mount { vehicle: v[0].0 }, t))
                }
            }
        } else if act == "dismount"@ {
            (Ok(decimal(t.len()) + " entity(s) dismounted"@), each_target(PerTarget::Dismount, t))
        } else {
            (Err("Usage: /ride <target> <mount|dismount>"@), Seq::empty())
        }
    }
}

/// `/ride`.
pub struct RideCommand;

impl RideCommand {
    pub fn name(&self) -> &'static str {
        "ride"
    }

    pub fn description(&self) -> &'static str {
        "Make entities ride others (mount/dismount)"
    }

    pub fn execute(&self, ctx: &CommandContext, server: &mut ServerData) -> (r: CommandResult)
        requires
            old(server).wf(),
        ensures
            only_events_added(*old(server), *final(server), ride_outcome(*ctx).1),
            crate::commands::context::reply_view(r) == ride_outcome(*ctx).0,
    {
        let ghost a = arg_views(*ctx);
        let ghost e0 = event_views(server.events@);
        proof { assert(e0 =~= e0 + Seq::<EventView>::empty()); }
        if ctx.args.len() < 2 {
            return Err(String::from_str("Usage: /ride <target> <mount|dismount> [vehicle]"));
        }
        proof {
            assert(a[0] == ctx.args@[0]@);
            assert(a[1] == ctx.args@[1]@);
            if a.len() > 2 { assert(a[2] == ctx.args@[2]@); }
        }
        let targets = resolve_player_targets(ctx.args[0].as_str(), ctx);
        let act = to_lowercase(ctx.args[1].as_str());
        if str_eq(act.as_str(), "mount") {
            if ctx.args.len() < 3 {
                return Err(String::from_str("Usage: /ride <target> mount <vehicle>"));
            }
            let vehicles = resolve_player_targets(ctx.args[2].as_str(), ctx);
            if targets.len() == 0 || vehicles.len() == 0 {
                return Err(String::from_str("No matching entities"));
            }
            emit_each(server, &targets, &PerTarget::Mount { vehicle: vehicles[0].0 });
            let mut m = String::new();
            push_u64(&mut m, targets.len() as u64);
            m.append(" entity(s) mounted");
            Ok(m)
        } else if str_eq(act.as_str(), "dismount") {
            emit_each(server, &targets, &PerTarget::Dismount);
            let mut m = String::new();
            push_u64(&mut m, targets.len() as u64);
            m.append(" entity(s) dismounted");
            Ok(m)
        } else {
            Err(String::from_str("Usage: /ride <target> <mount|dismount>"))
        }
    }
}

// ───────────────────────────────── /attribute ─────────────────────────────────

/// The shown value of an attribute, if the command knows it.
pub open spec fn attribute_value(name: Seq<char>) -> Option<Seq<char>> {
    if name == "minecraft:generic.max_health"@ {
        Some("20"@)
    } else if name == "minecraft:generic.armor"@ {
        Some("0"@)
    } else if name == "minecraft:generic.attack_damage"@ {
        Some("1"@)
    } else {
        None
    }
}

/// Whether a player with this id is online.
pub open spec fn online(players: Seq<PlayerInfo>, uuid: u128) -> bool {
    exists|i: int| 0 <= i < players.len() && players[i].uuid == uuid
}

/// `/attribute <target> <attribute> [get|set <value>]`: values are shown,
/// never changed.
pub open spec fn attribute_reply(ctx: CommandContext) -> ReplyView {
    let a = arg_views(ctx);
    if a.len() < 2 {
        Err("Usage: /attribute <target> <attribute> [get|set <value>]"@)
    } else {
        let t = targets_spec(a[0], ctx);
        let action = if a.len() > 2 { a[2] } else { "get"@ };
        if t.len() == 0 {
            Err("No targets matched"@)
        } else if action == "get"@ {
            if online(ctx.players@, t[0].0) {
                match attribute_value(a[1]) {
                    Some(v) => Ok(t[0].1 + ": "@ + a[1] + " = "@ + v),
                    None => Ok(t[0].1 + ": "@ + a[1] + " = unknown (display only)"@),
                }
            } else {
                Err("Unknown query"@)
            }
        } else if action == "set"@ {
            Ok("Attribute "@ + a[1] + " set (display only)"@)
        } else {
            Err("Use get or set"@)
        }
    }
}

fn attribute_value_of(name: &str) -> (r: Option<&'static str>)
    ensures
        match r {
            Some(v) => attribute_value(name@) == Some(v@),
            None => attribute_value(name@) is None,
        },
{
    if str_eq(name, "minecraft:generic.max_health") {
        Some("20")
    } else if str_eq(name, "minecraft:generic.armor") {
        Some("0")
    } else if str_eq(name, "minecraft:generic.attack_damage") {
        Some("1")
    } else {
        None
    }
}

/// `/attribute`.
pub struct AttributeCommand;

impl AttributeCommand {
    pub fn name(&self) -> &'static str {
        "attribute"
    }

    pub fn description(&self) -> &'static str {
        "Query or modify entity attributes"
    }

    pub fn execute(&self, ctx: &CommandContext) -> (r: CommandResult)
        ensures
            crate::commands::context::reply_view(r) == attribute_reply(*ctx),
    {
        let ghost a = arg_views(*ctx);
        if ctx.args.len() < 2 {
            return Err(String::from_str("Usage: /attribute <target> <attribute> [get|set <value>]"));
        }
        proof {
            assert(a[0] == ctx.args@[0]@);
            assert(a[1] == ctx.args@[1]@);
            if a.len() > 2 { assert(a[2] == ctx.args@[2]@); }
        }
        let targets = resolve_player_targets(ctx.args[0].as_str(), ctx);
        if targets.len() == 0 {
            return Err(String::from_str("No targets matched"));
        }
        let attr = ctx.args[1].as_str();
        let action: &str = if ctx.args.len() > 2 { ctx.args[2].as_str() } else { "get" };
        if str_eq(action, "get") {
            let uuid = targets[0].0;
            match find_player(&ctx.players, uuid) {
                Some(_) => {
                    let mut m = targets[0].1.clone();
                    m.append(": ");
                    m.append(attr);
                    match attribute_value_of(attr) {
                        Some(v) => {
                            m.append(" = ");
                            m.append(v);
                        },
                        None => {
                            m.append(" = unknown (display only)");
                        },
                    }
                    Ok(m)
                },
                None => Err(String::from_str("Unknown query")),
            }
        } else if str_eq(action, "set") {
            let mut m = String::from_str("Attribute ");
            m.append(attr);
            m.append(" set (display only)");
            Ok(m)
        } else {
            Err(String::from_str("Use get or set"))
        }
    }
}

// ─────────────────────────────────── /item ───────────────────────────────────

pub open spec fn item_usage() -> Seq<char> {
    "Usage: /item replace entity <target> <slot> with <item> [count]"@
}

/// `/item` reads its item from the sixth argument once five are given, so
/// exactly five arguments are out of its range.
pub open spec fn item_in_range(a: Seq<Seq<char>>) -> bool {
    a.len() != 5
}

/// `/item replace entity <target> <slot> with <item> [count]`: the item
/// is added to each selected player (the slot is checked and reported).
pub open spec fn item_outcome(ctx: CommandContext) -> (ReplyView, Seq<EventView>) {
    let a = arg_views(ctx);
    if a.len() < 5 {
        (Err(item_usage()), Seq::empty())
    } else {
        let count: u32 = if a.len() > 6 && u32_of(a[6]) is Some { u32_of(a[6])->0 } else { 1 };
        match u8_of(a[3]) {
            None => (Err("Invalid slot: "@ + a[3]), Seq::empty()),
            Some(slot) => match item_block(a[5]) {
                None => (Err("Unknown item: "@ + a[5]), Seq::empty()),
                Some(block) => {
                    let t = targets_spec(a[2], ctx);
                    if t.len() == 0 {
                        (Err("No targets matched"@), Seq::empty())
                    } else {
                        (
                            Ok("Gave "@ + decimal(count as nat) + "x "@ + a[5] + " to slot "@ + decimal(slot as nat)
                                + " of "@ + decimal(t.len()) + " player(s)"@),
                            each_target(PerTarget::GiveItem { block, count }, t),
                        )
                    }
                },
            },
        }
    }
}

/// `/item`.
pub struct ItemCommand;

impl ItemCommand {
    pub fn name(&self) -> &'static str {
        "item"
    }

    pub fn description(&self) -> &'static str {
        "Modify items in entity inventory"
    }

    pub fn execute(&self, ctx: &CommandContext, server: &mut ServerData) -> (r: CommandResult)
        requires
            old(server).wf(),
            item_in_range(arg_views(*ctx)),
        ensures
            only_events_added(*old(server), *final(server), item_outcome(*ctx).1),
            crate::commands::context::reply_view(r) == item_outcome(*ctx).0,
    {
        let ghost a = arg_views(*ctx);
        let ghost e0 = event_views(server.events@);
        proof { assert(e0 =~= e0 + Seq::<EventView>::empty()); }
        if ctx.args.len() < 5 {
            return Err(String::from_str("Usage: /item replace entity <target> <slot> with <item> [count]"));
        }
        proof {
            assert(a[2] == ctx.args@[2]@);
            assert(a[3] == ctx.args@[3]@);
            assert(a[5] == ctx.args@[5]@);
            if a.len() > 6 { assert(a[6] == ctx.args@[6]@); }
        }
        let target = ctx.args[2].as_str();
        let slot_str = ctx.args[3].as_str();
        let item_name = ctx.args[5].as_str();
        let count: u32 = if ctx.args.len() > 6 {
            match u32_opt(ctx.args[6].as_str()) {
                Some(c) => c,
                None => 1,
            }
        } else {
            1
        };
        let slot = match u8_opt(slot_str) {
            Some(s) => s,
            None => {
                let mut e = String::from_str("Invalid slot: ");
                e.append(slot_str);
                return Err(e);
            },
        };
        let block = match resolve_item(item_name) {
            Some(b) => b,
            None => {
                let mut e = String::from_str("Unknown item: ");
                e.append(item_name);
                return Err(e);
            },
        };
        let targets = resolve_player_targets(target, ctx);
        if targets.len() == 0 {
            return Err(String::from_str("No targets matched"));
        }
        emit_each(server, &targets, &PerTarget::GiveItem { block, count });
        let mut m = String::from_str("Gave ");
        push_u64(&mut m, count as u64);
        m.append("x ");
        m.append(item_name);
        m.append(" to slot ");
        push_u64(&mut m, slot as u64);
        m.append(" of ");
        push_u64(&mut m, targets.len() as u64);
        m.append(" player(s)");
        Ok(m)
    }
}

// ──────────────────────────────────── /xp ────────────────────────────────────

/// Experience points from level `l` to level `l + 1`.
pub open spec fn xp_step(l: int) -> int {
    if l < 16 {
        2 * l + 7
    } else if l < 31 {
        5 * l - 38
    } else {
        9 * l - 158
    }
}

/// Total experience points of level `level` (none below level 1).
pub open spec fn xp_for_level(level: int) -> int
    decreases level,
{
    if level <= 0 {
        0
    } else {
        xp_for_level(level - 1) + xp_step(level - 1)
    }
}

/// Reaching a higher level never takes fewer points.
pub proof fn xp_for_level_monotone(a: int, b: int)
    requires
        a <= b,
    ensures
        xp_for_level(a) <= xp_for_level(b),
    decreases b - a,
{
    if a < b {
        xp_for_level_monotone(a, b - 1);
    }
}

/// The total experience of a level, in `i32`.
pub fn total_xp_for_level(level: i32) -> (r: i32)
    requires
        xp_for_level(level as int) <= i32::MAX,
    ensures
        r == xp_for_level(level as int),
{
    let mut total: i64 = 0;
    let mut l: i32 = 0;
    while l < level
        invariant
            0 <= l,
            level > 0 ==> l <= level,
            total == xp_for_level(l as int),
            xp_for_level(level as int) <= i32::MAX,
        decreases level - l,
    {
        proof { xp_for_level_monotone(l + 1, level as int); }
        let step: i64 = if l < 16 {
            2 * l as i64 + 7
        } else if l < 31 {
            5 * l as i64 - 38
        } else {
            9 * l as i64 - 158
        };
        total = total + step;
        l = l + 1;
    }
    if level <= 0 {
        0
    } else {
        proof { xp_for_level_monotone(0, l as int); }
        total as i32
    }
}

/// Whether the total experience of a level fits in `i32`.
pub fn level_total_fits(level: i32) -> (r: bool)
    ensures
        r == (xp_for_level(level as int) <= i32::MAX),
{
    let mut total: i64 = 0;
    let mut l: i32 = 0;
    while l < level
        invariant
            0 <= l,
            level > 0 ==> l <= level,
            total == xp_for_level(l as int),
            total <= i32::MAX,
        decreases level - l,
    {
        let step: i64 = if l < 16 {
            2 * l as i64 + 7
        } else if l < 31 {
            5 * l as i64 - 38
        } else {
            9 * l as i64 - 158
        };
        if total + step > i32::MAX as i64 {
            proof { xp_for_level_monotone(l + 1, level as int); }
            return false;
        }
        total = total + step;
        l = l + 1;
    }
    true
}

pub open spec fn xp_usage() -> Seq<char> {
    "Usage: /xp add <amount> [player] | /xp set <amount> [player] | /xp query <player> levels|points"@
}

/// The target argument at `at`, `@s` when absent.
pub open spec fn target_or_self(a: Seq<Seq<char>>, at: int) -> Seq<char> {
    if a.len() > at { a[at] } else { "@s"@ }
}

/// The amount argument of `/xp add` and `/xp set`.
pub open spec fn xp_amount(a: Seq<Seq<char>>) -> Option<i32> {
    if a.len() > 1 { i32_of(a[1]) } else { None }
}

/// `/xp set` overflows where the total of the level leaves `i32`.
pub open spec fn xp_in_range(a: Seq<Seq<char>>) -> bool {
    a.len() > 0 && lowercase(a[0]) == "set"@ && xp_amount(a) is Some
        ==> xp_for_level(xp_amount(a)->0 as int) <= i32::MAX
}

/// The player with this id first in the player list, if any.
pub open spec fn is_first_with(p: Seq<PlayerInfo>, uuid: u128, i: int) -> bool {
    0 <= i < p.len() && p[i].uuid == uuid && forall|j: int| 0 <= j < i ==> p[j].uuid != uuid
}

pub open spec fn online_player(p: Seq<PlayerInfo>, uuid: u128) -> Option<PlayerInfo> {
    if exists|i: int| is_first_with(p, uuid, i) {
        Some(p[choose|i: int| is_first_with(p, uuid, i)])
    } else {
        None
    }
}

pub open spec fn added_xp(ctx: CommandContext, amount: i32, target: Seq<char>) -> (ReplyView, Seq<EventView>) {
    let t = targets_spec(target, ctx);
    if t.len() == 0 {
        (Err("No players matched"@), Seq::empty())
    } else {
        (
            Ok("Added "@ + signed_decimal(amount as int) + " XP to "@ + decimal(t.len()) + " player(s)"@),
            each_target(PerTarget::AddXp { amount }, t),
        )
    }
}

/// `/xp add <points> [player]`, `/xp set <level> [player]`,
/// `/xp query <player>`, and `/xp <points> [player]`.
pub open spec fn xp_outcome(ctx: CommandContext) -> (ReplyView, Seq<EventView>) {
    let a = arg_views(ctx);
    if a.len() == 0 {
        (Err(xp_usage()), Seq::empty())
    } else {
        let sub = lowercase(a[0]);
        if sub == "add"@ {
            match xp_amount(a) {
                None => (Err("Specify amount: /xp add <points> [player]"@), Seq::empty()),
                Some(n) => added_xp(ctx, n, target_or_self(a, 2)),
            }
        } else if sub == "set"@ {
            match xp_amount(a) {
                None => (Err("Specify amount: /xp set <levels> [player]"@), Seq::empty()),
                Some(n) => {
                    let t = targets_spec(target_or_self(a, 2), ctx);
                    if t.len() == 0 {
                        (Err("No players matched"@), Seq::empty())
                    } else {
                        (
                            Ok("Set "@ + decimal(t.len()) + " player(s) to level "@ + signed_decimal(n as int)),
                            each_target(PerTarget::SetXp { level: n, total: xp_for_level(n as int) as i32 }, t),
                        )
                    }
                },
            }
        } else if sub == "query"@ {
            if a.len() < 2 {
                (Err("Specify player: /xp query <player>"@), Seq::empty())
            } else {
                let t = targets_spec(a[1], ctx);
                if t.len() == 0 {
                    (Err("No players matched"@), Seq::empty())
                } else {
                    match online_player(ctx.players@, t[0].0) {
                        Some(p) => (
                            Ok(t[0].1 + " has "@ + signed_decimal(p.xp_total as int) + " XP (level "@
                                + signed_decimal(p.xp_level as int) + ", "@ + decimal(p.xp_percent as nat) + "%)"@),
                            Seq::empty(),
                        ),
                        None => (Err("Player not found"@), Seq::empty()),
                    }
                }
            }
        } else {
            match i32_of(a[0]) {
                None => (Err("Invalid amount"@), Seq::empty()),
                Some(n) => added_xp(ctx, n, target_or_self(a, 1)),
            }
        }
    }
}

/// `/xp`.
pub struct XpCommand;

impl XpCommand {
    pub fn name(&self) -> &'static str {
        "xp"
    }

    pub fn description(&self) -> &'static str {
        "Manage player experience (add/set/query)"
    }

    pub fn aliases(&self) -> (r: Vec<&'static str>)
        ensures
            r@.len() == 1 && r@[0]@ == "experience"@,
    {
        let mut v: Vec<&'static str> = Vec::new();
        v.push("experience");
        v
    }

    /// Whether `execute` may run on these arguments.
    pub fn in_range(&self, ctx: &CommandContext) -> (r: bool)
        ensures
            r == xp_in_range(arg_views(*ctx)),
    {
        let ghost a = arg_views(*ctx);
        if ctx.args.len() < 2 {
            return true;
        }
        proof {
            assert(a[0] == ctx.args@[0]@);
            assert(a[1] == ctx.args@[1]@);
        }
        let sub = to_lowercase(ctx.args[0].as_str());
        if !str_eq(sub.as_str(), "set") {
            return true;
        }
        match i32_opt(ctx.args[1].as_str()) {
            Some(n) => level_total_fits(n),
            None => true,
        }
    }

    fn add(ctx: &CommandContext, server: &mut ServerData, amount: i32, target: &str) -> (r: CommandResult)
        requires
            old(server).wf(),
        ensures
            only_events_added(*old(server), *final(server), added_xp(*ctx, amount, target@).1),
            crate::commands::context::reply_view(r) == added_xp(*ctx, amount, target@).0,
    {
        let ghost e0 = event_views(server.events@);
        proof { assert(e0 =~= e0 + Seq::<EventView>::empty()); }
        let targets = resolve_player_targets(target, ctx);
        if targets.len() == 0 {
            return Err(String::from_str("No players matched"));
        }
        emit_each(server, &targets, &PerTarget::AddXp { amount });
        let mut m = String::from_str("Added ");
        push_i64(&mut m, amount as i64);
        m.append(" XP to ");
        push_u64(&mut m, targets.len() as u64);
        m.append(" player(s)");
        Ok(m)
    }

    pub fn execute(&self, ctx: &CommandContext, server: &mut ServerData) -> (r: CommandResult)
        requires
            old(server).wf(),
            xp_in_range(arg_views(*ctx)),
        ensures
            only_events_added(*old(server), *final(server), xp_outcome(*ctx).1),
            crate::commands::context::reply_view(r) == xp_outcome(*ctx).0,
    {
        let ghost a = arg_views(*ctx);
        let ghost e0 = event_views(server.events@);
        proof { assert(e0 =~= e0 + Seq::<EventView>::empty()); }
        if ctx.args.len() == 0 {
            return Err(String::from_str(
                "Usage: /xp add <amount> [player] | /xp set <amount> [player] | /xp query <player> levels|points"));
        }
        proof {
            assert(a[0] == ctx.args@[0]@);
            if a.len() > 1 { assert(a[1] == ctx.args@[1]@); }
            if a.len() > 2 { assert(a[2] == ctx.args@[2]@); }
        }
        let sub = to_lowercase(ctx.args[0].as_str());
        let amount: Option<i32> = if ctx.args.len() > 1 { i32_opt(ctx.args[1].as_str()) } else { None };
        if str_eq(sub.as_str(), "add") {
            match amount {
                None => Err(String::from_str("Specify amount: /xp add <points> [player]")),
                Some(n) => {
                    let target: &str = if ctx.args.len() > 2 { ctx.args[2].as_str() } else { "@s" };
                    Self::add(ctx, server, n, target)
                },
            }
        } else if str_eq(sub.as_str(), "set") {
            match amount {
                None => Err(String::from_str("Specify amount: /xp set <levels> [player]")),
                Some(n) => {
                    let target: &str = if ctx.args.len() > 2 { ctx.args[2].as_str() } else { "@s" };
                    let targets = resolve_player_targets(target, ctx);
                    if targets.len() == 0 {
                        return Err(String::from_str("No players matched"));
                    }
                    let total = total_xp_for_level(n);
                    emit_each(server, &targets, &PerTarget::SetXp { level: n, total });
                    let mut m = String::from_str("Set ");
                    push_u64(&mut m, targets.len() as u64);
                    m.append(" player(s) to level ");
                    push_i64(&mut m, n as i64);
                    Ok(m)
                },
            }
        } else if str_eq(sub.as_str(), "query") {
            if ctx.args.len() < 2 {
                return Err(String::from_str("Specify player: /xp query <player>"));
            }
            let targets = resolve_player_targets(ctx.args[1].as_str(), ctx);
            if targets.len() == 0 {
                return Err(String::from_str("No players matched"));
            }
            let uuid = targets[0].0;
            match find_player(&ctx.players, uuid) {
                Some(i) => {
                    proof {
                        let p = ctx.players@;
                        assert(is_first_with(p, uuid, i as int));
                        let c = choose|j: int| is_first_with(p, uuid, j);
                        assert(is_first_with(p, uuid, c));
                        if c < i {
                            assert(p[c].uuid != uuid);
                        }
                        if i < c {
                            assert(p[i as int].uuid != uuid);
                        }
                        assert(c == i);
                    }
                    let p = &ctx.players[i];
                    let mut m = targets[0].1.clone();
                    m.append(" has ");
                    push_i64(&mut m, p.xp_total as i64);
                    m.append(" XP (level ");
                    push_i64(&mut m, p.xp_level as i64);
                    m.append(", ");
                    push_u64(&mut m, p.xp_percent as u64);
                    m.append("%)");
                    Ok(m)
                },
                None => {
                    proof {
                        assert(!exists|j: int| is_first_with(ctx.players@, uuid, j));
                    }
                    Err(String::from_str("Player not found"))
                },
            }
        } else {
            match i32_opt(ctx.args[0].as_str()) {
                None => Err(String::from_str("Invalid amount")),
                Some(n) => {
                    let target: &str = if ctx.args.len() > 1 { ctx.args[1].as_str() } else { "@s" };
                    Self::add(ctx, server, n, target)
                },
            }
        }
    }
}

// ────────────────────────────────── /summon ──────────────────────────────────

/// The entity type id a lower-cased `/summon` name stands for (with or
/// without `minecraft:`; `experience_orb` and `ocelot` only without).
pub open spec fn summon_type(s: Seq<char>) -> Option<i32> {
    if s == "item"@ || s == "minecraft:item"@ {
        Some(54)
    } else if s == "xp_orb"@ || s == "minecraft:xp_orb"@ {
        Some(53)
    } else if s == "experience_orb"@ {
        Some(53)
    } else if s == "cow"@ || s == "minecraft:cow"@ {
        Some(11)
    } else if s == "pig"@ || s == "minecraft:pig"@ {
        Some(12)
    } else if s == "chicken"@ || s == "minecraft:chicken"@ {
        Some(13)
    } else if s == "sheep"@ || s == "minecraft:sheep"@ {
        Some(14)
    } else if s == "zombie"@ || s == "minecraft:zombie"@ {
        Some(36)
    } else if s == "skeleton"@ || s == "minecraft:skeleton"@ {
        Some(37)
    } else if s == "creeper"@ || s == "minecraft:creeper"@ {
        Some(33)
    } else if s == "spider"@ || s == "minecraft:spider"@ {
        Some(35)
    } else if s == "enderman"@ || s == "minecraft:enderman"@ {
        Some(38)
    } else if s == "slime"@ || s == "minecraft:slime"@ {
        Some(34)
    } else if s == "witch"@ || s == "minecraft:witch"@ {
        Some(48)
    } else if s == "wolf"@ || s == "minecraft:wolf"@ {
        Some(95)
    } else if s == "villager"@ || s == "minecraft:villager"@ {
        Some(92)
    } else if s == "iron_golem"@ || s == "minecraft:iron_golem"@ {
        Some(99)
    } else if s == "blaze"@ || s == "minecraft:blaze"@ {
        Some(43)
    } else if s == "ghast"@ || s == "minecraft:ghast"@ {
        Some(56)
    } else if s == "wither"@ || s == "minecraft:wither"@ {
        Some(25)
    } else if s == "ender_dragon"@ || s == "minecraft:ender_dragon"@ {
        Some(53)
    } else if s == "horse"@ || s == "minecraft:horse"@ {
        Some(31)
    } else if s == "llama"@ || s == "minecraft:llama"@ {
        Some(28)
    } else if s == "cat"@ || s == "minecraft:cat"@ {
        Some(29)
    } else if s == "ocelot"@ {
        Some(29)
    } else {
        None
    }
}

fn summon_type_of(s: &str) -> (r: Option<i32>)
    ensures
        r == summon_type(s@),
{
    if str_eq(s, "item") || str_eq(s, "minecraft:item") {
        Some(54)
    } else if str_eq(s, "xp_orb") || str_eq(s, "minecraft:xp_orb") {
        Some(53)
    } else if str_eq(s, "experience_orb") {
        Some(53)
    } else if str_eq(s, "cow") || str_eq(s, "minecraft:cow") {
        Some(11)
    } else if str_eq(s, "pig") || str_eq(s, "minecraft:pig") {
        Some(12)
    } else if str_eq(s, "chicken") || str_eq(s, "minecraft:chicken") {
        Some(13)
    } else if str_eq(s, "sheep") || str_eq(s, "minecraft:sheep") {
        Some(14)
    } else if str_eq(s, "zombie") || str_eq(s, "minecraft:zombie") {
        Some(36)
    } else if str_eq(s, "skeleton") || str_eq(s, "minecraft:skeleton") {
        Some(37)
    } else if str_eq(s, "creeper") || str_eq(s, "minecraft:creeper") {
        Some(33)
    } else if str_eq(s, "spider") || str_eq(s, "minecraft:spider") {
        Some(35)
    } else if str_eq(s, "enderman") || str_eq(s, "minecraft:enderman") {
        Some(38)
    } else if str_eq(s, "slime") || str_eq(s, "minecraft:slime") {
        Some(34)
    } else if str_eq(s, "witch") || str_eq(s, "minecraft:witch") {
        Some(48)
    } else if str_eq(s, "wolf") || str_eq(s, "minecraft:wolf") {
        Some(95)
    } else if str_eq(s, "villager") || str_eq(s, "minecraft:villager") {
        Some(92)
    } else if str_eq(s, "iron_golem") || str_eq(s, "minecraft:iron_golem") {
        Some(99)
    } else if str_eq(s, "blaze") || str_eq(s, "minecraft:blaze") {
        Some(43)
    } else if str_eq(s, "ghast") || str_eq(s, "minecraft:ghast") {
        Some(56)
    } else if str_eq(s, "wither") || str_eq(s, "minecraft:wither") {
        Some(25)
    } else if str_eq(s, "ender_dragon") || str_eq(s, "minecraft:ender_dragon") {
        Some(53)
    } else if str_eq(s, "horse") || str_eq(s, "minecraft:horse") {
        Some(31)
    } else if str_eq(s, "llama") || str_eq(s, "minecraft:llama") {
        Some(28)
    } else if str_eq(s, "cat") || str_eq(s, "minecraft:cat") {
        Some(29)
    } else if str_eq(s, "ocelot") {
        Some(29)
    } else {
        None
    }
}

/// The entity type id of a `/summon` name (any case), or the error reply.
/// Where the entity appears (given coordinates, else the source's position)
/// is the server's part.
pub fn summon_entity_type(name: &str) -> (r: Result<i32, String>)
    ensures
        match summon_type(lowercase(name@)) {
            Some(t) => r == Ok::<i32, String>(t),
            None => r matches Err(e) && e@ == "Unknown entity type: "@ + name@ + " (20 types supported)"@,
        },
{
    let lower = to_lowercase(name);
    match summon_type_of(lower.as_str()) {
        Some(t) => Ok(t),
        None => {
            let mut e = String::from_str("Unknown entity type: ");
            e.append(name);
            e.append(" (20 types supported)");
            Err(e)
        },
    }
}

} // verus!
