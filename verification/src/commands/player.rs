//! Player commands: `/gamemode`, `/defaultgamemode`, `/give`, `/kill`.

use vstd::prelude::*;
use vstd::string::*;
use crate::block::BlockState;
use crate::commands::context::{
    arg_views, emit, event_views, game_mode_name, game_mode_text, reply_view, CommandContext, CommandResult,
    CommandSource, EventView, ReplyView, ServerData, ServerEvent,
};
use crate::commands::info::only_events_added;
use crate::commands::selector::{resolve_player_targets, targets_spec, targets_view, Target};
use crate::item::{normalized_name, registered_id, resolve_item};
use crate::parser::{game_mode_named, normalize_item_name, parse_gamemode, trim_leading};
use crate::text::{decimal, join, joined, lowercase, push_u64, u32_of, u32_opt, views};
use crate::types::GameMode;
use crate::world_state::WorldState;

verus! {

/// The targets of a command that defaults to its source: the selected
/// players when a target is given, else the source if it is a player.
pub open spec fn targets_or_self(ctx: CommandContext, at: int) -> Option<Seq<(u128, Seq<char>)>> {
    let a = arg_views(ctx);
    if a.len() > at {
        Some(targets_spec(a[at], ctx))
    } else {
        match ctx.source {
            CommandSource::Player { uuid, username } => Some(seq![(uuid, username@)]),
            _ => None,
        }
    }
}

pub open spec fn target_names(t: Seq<(u128, Seq<char>)>) -> Seq<Seq<char>> {
    t.map_values(|x: (u128, Seq<char>)| x.1)
}

fn names_of(t: &Vec<Target>) -> (r: Vec<String>)
    ensures
        views(r@) == target_names(targets_view(t@)),
{
    let mut out: Vec<String> = Vec::new();
    let mut i: usize = 0;
    while i < t.len()
        invariant
            i <= t@.len(),
            views(out@) == target_names(targets_view(t@)).subrange(0, i as int),
        decreases t@.len() - i,
    {
        let ghost before = out@;
        let n = t[i].1.clone();
        out.push(n);
        proof {
            assert(out@ =~= before.push(n));
            assert(views(out@) =~= views(before).push(n@));
            assert(target_names(targets_view(t@)).subrange(0, i + 1)
                =~= target_names(targets_view(t@)).subrange(0, i as int).push(n@));
        }
        i = i + 1;
    }
    proof { assert(target_names(targets_view(t@)).subrange(0, t@.len() as int) =~= target_names(targets_view(t@))); }
    out
}

/// `/gamemode <mode> [player]`.
pub open spec fn gamemode_outcome(ctx: CommandContext) -> (ReplyView, Seq<EventView>) {
    let a = arg_views(ctx);
    if a.len() == 0 {
        (Err("Usage: /gamemode <mode> [player]"@), Seq::empty())
    } else {
        match game_mode_named(lowercase(a[0])) {
            None => (Err("Unknown gamemode: "@ + a[0]), Seq::empty()),
            Some(mode) => match targets_or_self(ctx, 1) {
                None => (Err("Console must specify a target player"@), Seq::empty()),
                Some(t) => if t.len() == 0 {
                    (Err("No players matched: "@ + a[1]), Seq::empty())
                } else {
                    (
                        Ok("Set gamemode to "@ + game_mode_text(mode) + " for "@ + joined(target_names(t), ", "@)),
                        t.map_values(|x: (u128, Seq<char>)| EventView::SetGamemode { uuid: x.0, mode }),
                    )
                },
            },
        }
    }
}

fn self_or_targets(ctx: &CommandContext, at: usize) -> (r: Option<Vec<Target>>)
    ensures
        match (r, targets_or_self(*ctx, at as int)) {
            (Some(x), Some(y)) => targets_view(x@) == y,
            (None, None) => true,
            _ => false,
        },
{
    if ctx.args.len() > at {
        proof { assert(arg_views(*ctx)[at as int] == ctx.args@[at as int]@); }
        Some(resolve_player_targets(ctx.args[at].as_str(), ctx))
    } else {
        match &ctx.source {
            CommandSource::Player { uuid, username } => {
                let mut v: Vec<Target> = Vec::new();
                let n = username.clone();
                v.push((*uuid, n));
                proof {
                    assert(v@ =~= seq![(*uuid, n)]);
                    assert(targets_view(v@) =~= seq![(*uuid, username@)]);
                }
                Some(v)
            },
            _ => None,
        }
    }
}

/// `/gamemode`.
pub struct GamemodeCommand;

impl GamemodeCommand {
    pub fn name(&self) -> &'static str {
        "gamemode"
    }

    pub fn description(&self) -> &'static str {
        "Change player game mode"
    }

    pub fn execute(&self, ctx: &CommandContext, server: &mut ServerData) -> (r: CommandResult)
        requires
            old(server).wf(),
        ensures
            only_events_added(*old(server), *final(server), gamemode_outcome(*ctx).1),
            reply_view(r) == gamemode_outcome(*ctx).0,
    {
        let ghost a = arg_views(*ctx);
        let ghost e0 = event_views(server.events@);
        proof { assert(e0 =~= e0 + Seq::<EventView>::empty()); }
        if ctx.args.len() == 0 {
            return Err(String::from_str("Usage: /gamemode <mode> [player]"));
        }
        proof {
            assert(a[0] == ctx.args@[0]@);
            if a.len() > 1 { assert(a[1] == ctx.args@[1]@); }
        }
        let mode = match parse_gamemode(ctx.args[0].as_str()) {
            Ok(m) => m,
            Err(e) => {
                return Err(e);
            },
        };
        let targets = match self_or_targets(ctx, 1) {
            Some(t) => t,
            None => {
                return Err(String::from_str("Console must specify a target player"));
            },
        };
        if targets.len() == 0 {
            let mut e = String::from_str("No players matched: ");
            e.append(ctx.args[1].as_str());
            return Err(e);
        }
        let ghost tv = targets_view(targets@);
        let mut i: usize = 0;
        while i < targets.len()
            invariant
                i <= targets@.len(),
                tv == targets_view(targets@),
                server.wf(),
                server.world == old(server).world,
                server.scoreboard == old(server).scoreboard,
                server.teams == old(server).teams,
                event_views(server.events@) == e0 + tv.subrange(0, i as int)
                    .map_values(|x: (u128, Seq<char>)| EventView::SetGamemode { uuid: x.0, mode }),
            decreases targets@.len() - i,
        {
            emit(server, ServerEvent::SetGamemode { uuid: targets[i].0, mode });
            proof {
                assert(tv.subrange(0, i + 1).map_values(|x: (u128, Seq<char>)| EventView::SetGamemode { uuid: x.0, mode })
                    =~= tv.subrange(0, i as int).map_values(|x: (u128, Seq<char>)| EventView::SetGamemode { uuid: x.0, mode })
                        + seq![EventView::SetGamemode { uuid: tv[i as int].0, mode }]);
            }
            i = i + 1;
        }
        proof { assert(tv.subrange(0, tv.len() as int) =~= tv); }
        let names = names_of(&targets);
        let mut m = String::from_str("Set gamemode to ");
        m.append(game_mode_name(mode));
        m.append(" for ");
        let body = join(&names, ", ");
        m.append(body.as_str());
        Ok(m)
    }
}

/// What `/defaultgamemode <mode>` does.
pub open spec fn defaultgamemode_step(a: Seq<Seq<char>>, w: WorldState) -> (ReplyView, WorldState, Seq<EventView>) {
    if a.len() == 0 {
        (Err("Usage: /defaultgamemode <mode>"@), w, Seq::empty())
    } else {
        match game_mode_named(lowercase(a[0])) {
            None => (Err("Unknown gamemode: "@ + a[0]), w, Seq::empty()),
            Some(m) => (
                Ok("Default game mode: "@ + game_mode_text(m)),
                WorldState { default_gamemode: m, ..w },
                seq![EventView::Chat { sender: "Server"@, message: "Default game mode set to "@ + game_mode_text(m) }],
            ),
        }
    }
}

/// `/defaultgamemode`.
pub struct DefaultGamemodeCommand;

impl DefaultGamemodeCommand {
    pub fn name(&self) -> &'static str {
        "defaultgamemode"
    }

    pub fn description(&self) -> &'static str {
        "Set the default game mode for new players"
    }

    pub fn execute(&self, ctx: &CommandContext, server: &mut ServerData) -> (r: CommandResult)
        requires
            old(server).wf(),
        ensures
            final(server).wf(),
            final(server).scoreboard == old(server).scoreboard,
            final(server).teams == old(server).teams,
            reply_view(r) == defaultgamemode_step(arg_views(*ctx), old(server).world).0,
            final(server).world == defaultgamemode_step(arg_views(*ctx), old(server).world).1,
            event_views(final(server).events@) == event_views(old(server).events@)
                + defaultgamemode_step(arg_views(*ctx), old(server).world).2,
    {
        let ghost a = arg_views(*ctx);
        let ghost e0 = event_views(server.events@);
        proof { assert(e0 =~= e0 + Seq::<EventView>::empty()); }
        if ctx.args.len() == 0 {
            return Err(String::from_str("Usage: /defaultgamemode <mode>"));
        }
        proof { assert(a[0] == ctx.args@[0]@); }
        let mode = match parse_gamemode(ctx.args[0].as_str()) {
            Ok(m) => m,
            Err(e) => {
                return Err(e);
            },
        };
        server.world.set_default_gamemode(mode);
        let mut note = String::from_str("Default game mode set to ");
        note.append(game_mode_name(mode));
        emit(server, ServerEvent::Chat { sender: String::from_str("Server"), message: note });
        let mut m = String::from_str("Default game mode: ");
        m.append(game_mode_name(mode));
        Ok(m)
    }
}

/// The block an item name resolves to.
pub open spec fn item_block(name: Seq<char>) -> Option<BlockState> {
    match registered_id(normalized_name(name)) {
        Some(id) => Some(BlockState::new_spec(id)),
        None => None,
    }
}

pub open spec fn give_usage() -> Seq<char> {
    "Usage: /give <player> <item> [count]"@
}

/// `/give <player> <item> [count]`: every selected player is given
/// `count` (default 1) of the item.
pub open spec fn give_outcome(ctx: CommandContext) -> (ReplyView, Seq<EventView>) {
    let a = arg_views(ctx);
    if a.len() < 2 {
        (Err(give_usage()), Seq::empty())
    } else {
        let item = trim_leading(lowercase(a[1]), "minecraft:"@);
        let count: u32 = if a.len() > 2 && u32_of(a[2]) is Some { u32_of(a[2])->0 } else { 1 };
        match item_block(item) {
            None => (Err("Unknown item: "@ + item), Seq::empty()),
            Some(block) => {
                let t = targets_spec(a[0], ctx);
                if t.len() == 0 {
                    (Err("No players matched: "@ + a[0]), Seq::empty())
                } else {
                    (
                        Ok("Gave "@ + joined(t.map_values(|x: (u128, Seq<char>)|
                            decimal(count as nat) + "x "@ + item + " to "@ + x.1), ", "@)),
                        t.map_values(|x: (u128, Seq<char>)| EventView::GiveItem { uuid: x.0, block, count }),
                    )
                }
            },
        }
    }
}

/// `/give`.
pub struct GiveCommand;

impl GiveCommand {
    pub fn name(&self) -> &'static str {
        "give"
    }

    pub fn description(&self) -> &'static str {
        "Give items to a player"
    }

    pub fn execute(&self, ctx: &CommandContext, server: &mut ServerData) -> (r: CommandResult)
        requires
            old(server).wf(),
        ensures
            only_events_added(*old(server), *final(server), give_outcome(*ctx).1),
            reply_view(r) == give_outcome(*ctx).0,
    {
        let ghost a = arg_views(*ctx);
        let ghost e0 = event_views(server.events@);
        proof { assert(e0 =~= e0 + Seq::<EventView>::empty()); }
        if ctx.args.len() < 2 {
            return Err(String::from_str("Usage: /give <player> <item> [count]"));
        }
        let target = ctx.args[0].as_str();
        proof {
            assert(a[0] == target@);
            assert(a[1] == ctx.args@[1]@);
            if a.len() > 2 { assert(a[2] == ctx.args@[2]@); }
        }
        let item = normalize_item_name(ctx.args[1].as_str());
        let count: u32 = if ctx.args.len() > 2 {
            match u32_opt(ctx.args[2].as_str()) {
                Some(c) => c,
                None => 1,
            }
        } else {
            1
        };
        let block = match resolve_item(item.as_str()) {
            Some(b) => b,
            None => {
                let mut e = String::from_str("Unknown item: ");
                e.append(item.as_str());
                return Err(e);
            },
        };
        let targets = resolve_player_targets(target, ctx);
        if targets.len() == 0 {
            let mut e = String::from_str("No players matched: ");
            e.append(target);
            return Err(e);
        }
        let ghost tv = targets_view(targets@);
        let ghost line = |x: (u128, Seq<char>)| decimal(count as nat) + "x "@ + item@ + " to "@ + x.1;
        let mut results: Vec<String> = Vec::new();
        let mut i: usize = 0;
        while i < targets.len()
            invariant
                i <= targets@.len(),
                tv == targets_view(targets@),
                line == (|x: (u128, Seq<char>)| decimal(count as nat) + "x "@ + item@ + " to "@ + x.1),
                server.wf(),
                server.world == old(server).world,
                server.scoreboard == old(server).scoreboard,
                server.teams == old(server).teams,
                event_views(server.events@) == e0 + tv.subrange(0, i as int)
                    .map_values(|x: (u128, Seq<char>)| EventView::GiveItem { uuid: x.0, block, count }),
                views(results@) == tv.subrange(0, i as int).map_values(line),
            decreases targets@.len() - i,
        {
            emit(server, ServerEvent::GiveItem { uuid: targets[i].0, block, count });
            let mut l = String::new();
            push_u64(&mut l, count as u64);
            l.append("x ");
            l.append(item.as_str());
            l.append(" to ");
            l.append(targets[i].1.as_str());
            let ghost before = views(results@);
            let ghost lv = l@;
            results.push(l);
            proof {
                assert(tv.subrange(0, i + 1).map_values(|x: (u128, Seq<char>)| EventView::GiveItem { uuid: x.0, block, count })
                    =~= tv.subrange(0, i as int).map_values(|x: (u128, Seq<char>)| EventView::GiveItem { uuid: x.0, block, count })
                        + seq![EventView::GiveItem { uuid: tv[i as int].0, block, count }]);
                assert(views(results@) =~= before.push(lv));
                assert(tv.subrange(0, i + 1).map_values(line) =~= tv.subrange(0, i as int).map_values(line).push(lv));
            }
            i = i + 1;
        }
        proof { assert(tv.subrange(0, tv.len() as int) =~= tv); }
        let mut m = String::from_str("Gave ");
        let body = join(&results, ", ");
        m.append(body.as_str());
        Ok(m)
    }
}

/// `/kill [target]`.
pub open spec fn kill_outcome(ctx: CommandContext) -> (ReplyView, Seq<EventView>) {
    let a = arg_views(ctx);
    if a.len() > 0 {
        let t = targets_spec(a[0], ctx);
        if t.len() == 0 {
            (Err("No players matched: "@ + a[0]), Seq::empty())
        } else {
            (
                Ok("Killed "@ + joined(target_names(t), ", "@)),
                t.map_values(|x: (u128, Seq<char>)| EventView::Kill { uuid: x.0 }),
            )
        }
    } else {
        match ctx.source {
            CommandSource::Player { uuid, .. } => (Ok("Killed self"@), seq![EventView::Kill { uuid }]),
            _ => (Err("Console must specify a target"@), Seq::empty()),
        }
    }
}

/// `/kill`.
pub struct KillCommand;

impl KillCommand {
    pub fn name(&self) -> &'static str {
        "kill"
    }

    pub fn description(&self) -> &'static str {
        "Kill a player or entity"
    }

    pub fn execute(&self, ctx: &CommandContext, server: &mut ServerData) -> (r: CommandResult)
        requires
            old(server).wf(),
        ensures
            only_events_added(*old(server), *final(server), kill_outcome(*ctx).1),
            reply_view(r) == kill_outcome(*ctx).0,
    {
        let ghost a = arg_views(*ctx);
        let ghost e0 = event_views(server.events@);
        proof { assert(e0 =~= e0 + Seq::<EventView>::empty()); }
        if ctx.args.len() > 0 {
            let target = ctx.args[0].as_str();
            proof { assert(a[0] == target@); }
            let targets = resolve_player_targets(target, ctx);
            if targets.len() == 0 {
                let mut e = String::from_str("No players matched: ");
                e.append(target);
                return Err(e);
            }
            let ghost tv = targets_view(targets@);
            let mut i: usize = 0;
            while i < targets.len()
                invariant
                    i <= targets@.len(),
                    tv == targets_view(targets@),
                    server.wf(),
                    server.world == old(server).world,
                    server.scoreboard == old(server).scoreboard,
                    server.teams == old(server).teams,
                    event_views(server.events@) == e0 + tv.subrange(0, i as int)
                        .map_values(|x: (u128, Seq<char>)| EventView::Kill { uuid: x.0 }),
                decreases targets@.len() - i,
            {
                emit(server, ServerEvent::Kill { uuid: targets[i].0 });
                proof {
                    assert(tv.subrange(0, i + 1).map_values(|x: (u128, Seq<char>)| EventView::Kill { uuid: x.0 })
                        =~= tv.subrange(0, i as int).map_values(|x: (u128, Seq<char>)| EventView::Kill { uuid: x.0 })
                            + seq![EventView::Kill { uuid: tv[i as int].0 }]);
                }
                i = i + 1;
            }
            proof { assert(tv.subrange(0, tv.len() as int) =~= tv); }
            let names = names_of(&targets);
            let mut m = String::from_str("Killed ");
            let body = join(&names, ", ");
            m.append(body.as_str());
            Ok(m)
        } else {
            match &ctx.source {
                CommandSource::Player { uuid, .. } => {
                    emit(server, ServerEvent::Kill { uuid: *uuid });
                    Ok(String::from_str("Killed self"))
                },
                _ => Err(String::from_str("Console must specify a target")),
            }
        }
    }
}

} // verus!
