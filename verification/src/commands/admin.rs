//! Administration commands: operators, stopping, kicks, bans, the
//! whitelist, transfers, reloading the difficulty and saving.

use vstd::prelude::*;
use vstd::string::*;
use crate::commands::context::{
    arg_views, difficulty_name, difficulty_text, emit, event_views, find_player_named, reply_view, CommandContext,
    CommandResult, EventView, ReplyView, ServerData, ServerEvent,
};
use crate::commands::info::only_events_added;
use crate::commands::selector::{lemma_name_pos, name_pos, resolve_player_targets, targets_spec, targets_view};
use crate::commands::world::only_world_changed;
use crate::net::session::{offline_id, offline_uuid, uuid_hyphenated, uuid_text};
use crate::text::{decimal, i32_of, i32_opt, join, joined, lowercase, push_i64, push_u64, signed_decimal, str_eq,
    to_lowercase, views};
use crate::world_state::{Difficulty, WorldState};

verus! {

pub open spec fn server_chat(message: Seq<char>) -> EventView {
    EventView::Chat { sender: "Server"@, message }
}

/// `/op` and `/deop`: the first online player with exactly that name.
pub open spec fn op_outcome(ctx: CommandContext, op: bool) -> (ReplyView, Seq<EventView>) {
    let a = arg_views(ctx);
    let usage = if op { "Usage: /op <player>"@ } else { "Usage: /deop <player>"@ };
    if a.len() == 0 {
        (Err(usage), Seq::empty())
    } else {
        match name_pos(ctx.players@, a[0]) {
            Some(i) => {
                let p = ctx.players@[i];
                let note = if op { " is now an operator"@ } else { " is no longer an operator"@ };
                (
                    Ok((if op { "Opped "@ } else { "De-opped "@ }) + a[0]),
                    seq![EventView::SetOp { uuid: p.uuid, op }, server_chat(p.username@ + note)],
                )
            },
            None => (Err("Player not found: "@ + a[0]), Seq::empty()),
        }
    }
}

fn op_execute(ctx: &CommandContext, server: &mut ServerData, op: bool) -> (r: CommandResult)
    requires
        old(server).wf(),
    ensures
        only_events_added(*old(server), *final(server), op_outcome(*ctx, op).1),
        reply_view(r) == op_outcome(*ctx, op).0,
{
    let ghost a = arg_views(*ctx);
    proof { assert(event_views(server.events@) =~= event_views(server.events@) + Seq::<EventView>::empty()); }
    if ctx.args.len() == 0 {
        return Err(String::from_str(if op { "Usage: /op <player>" } else { "Usage: /deop <player>" }));
    }
    let target = ctx.args[0].as_str();
    proof { assert(a[0] == target@); }
    match find_player_named(&ctx.players, target) {
        Some(i) => {
            proof { lemma_name_pos(ctx.players@, target@, i as int); }
            let ghost e0 = event_views(server.events@);
            emit(server, ServerEvent::SetOp { uuid: ctx.players[i].uuid, op });
            let mut note = ctx.players[i].username.clone();
            note.append(if op { " is now an operator" } else { " is no longer an operator" });
            emit(server, ServerEvent::Chat { sender: String::from_str("Server"), message: note });
            proof { assert(event_views(server.events@) =~= e0 + op_outcome(*ctx, op).1); }
            let mut m = String::from_str(if op { "Opped " } else { "De-opped " });
            m.append(target);
            Ok(m)
        },
        None => {
            let mut e = String::from_str("Player not found: ");
            e.append(target);
            Err(e)
        },
    }
}

/// `/op`.
pub struct OpCommand;

impl OpCommand {
    pub fn name(&self) -> &'static str {
        "op"
    }

    pub fn description(&self) -> &'static str {
        "Grant operator status"
    }

    pub fn execute(&self, ctx: &CommandContext, server: &mut ServerData) -> (r: CommandResult)
        requires
            old(server).wf(),
        ensures
            only_events_added(*old(server), *final(server), op_outcome(*ctx, true).1),
            reply_view(r) == op_outcome(*ctx, true).0,
    {
        op_execute(ctx, server, true)
    }
}

/// `/deop`.
pub struct DeopCommand;

impl DeopCommand {
    pub fn name(&self) -> &'static str {
        "deop"
    }

    pub fn description(&self) -> &'static str {
        "Revoke operator status"
    }

    pub fn execute(&self, ctx: &CommandContext, server: &mut ServerData) -> (r: CommandResult)
        requires
            old(server).wf(),
        ensures
            only_events_added(*old(server), *final(server), op_outcome(*ctx, false).1),
            reply_view(r) == op_outcome(*ctx, false).0,
    {
        op_execute(ctx, server, false)
    }
}

/// `/stop`.
pub struct StopCommand;

impl StopCommand {
    pub fn name(&self) -> &'static str {
        "stop"
    }

    pub fn description(&self) -> &'static str {
        "Stop the server"
    }

    pub fn execute(&self, ctx: &CommandContext, server: &mut ServerData) -> (r: CommandResult)
        requires
            old(server).wf(),
        ensures
            only_events_added(*old(server), *final(server),
                seq![server_chat("Server is shutting down..."@), EventView::Shutdown]),
            reply_view(r) == Ok::<Seq<char>, Seq<char>>("Stopping server..."@),
    {
        let ghost e0 = event_views(server.events@);
        emit(server, ServerEvent::Chat {
            sender: String::from_str("Server"),
            message: String::from_str("Server is shutting down..."),
        });
        emit(server, ServerEvent::Shutdown);
        proof {
            assert(event_views(server.events@) =~= e0
                + seq![server_chat("Server is shutting down..."@), EventView::Shutdown]);
        }
        Ok(String::from_str("Stopping server..."))
    }
}

/// `/kick <player> [reason]`.
pub open spec fn kick_outcome(ctx: CommandContext) -> (ReplyView, Seq<EventView>) {
    let a = arg_views(ctx);
    if a.len() == 0 {
        (Err("Usage: /kick <player> [reason]"@), Seq::empty())
    } else {
        let reason = if a.len() > 1 { a[1] } else { "Kicked"@ };
        match name_pos(ctx.players@, a[0]) {
            Some(i) => {
                let p = ctx.players@[i];
                (
                    Ok("Kicked "@ + a[0] + ": "@ + reason),
                    seq![
                        EventView::Kick { uuid: p.uuid, reason },
                        server_chat(p.username@ + " was kicked: "@ + reason),
                    ],
                )
            },
            None => (Err("Player not found: "@ + a[0]), Seq::empty()),
        }
    }
}

/// `/kick`.
pub struct KickCommand;

impl KickCommand {
    pub fn name(&self) -> &'static str {
        "kick"
    }

    pub fn description(&self) -> &'static str {
        "Kick a player from the server"
    }

    pub fn execute(&self, ctx: &CommandContext, server: &mut ServerData) -> (r: CommandResult)
        requires
            old(server).wf(),
        ensures
            only_events_added(*old(server), *final(server), kick_outcome(*ctx).1),
            reply_view(r) == kick_outcome(*ctx).0,
    {
        let ghost a = arg_views(*ctx);
        proof { assert(event_views(server.events@) =~= event_views(server.events@) + Seq::<EventView>::empty()); }
        if ctx.args.len() == 0 {
            return Err(String::from_str("Usage: /kick <player> [reason]"));
        }
        let target = ctx.args[0].as_str();
        let reason: &str = if ctx.args.len() > 1 { ctx.args[1].as_str() } else { "Kicked" };
        proof {
            assert(a[0] == target@);
            if a.len() > 1 { assert(a[1] == ctx.args@[1]@); }
        }
        match find_player_named(&ctx.players, target) {
            Some(i) => {
                proof { lemma_name_pos(ctx.players@, target@, i as int); }
                let ghost e0 = event_views(server.events@);
                emit(server, ServerEvent::Kick { uuid: ctx.players[i].uuid, reason: String::from_str(reason) });
                let mut note = ctx.players[i].username.clone();
                note.append(" was kicked: ");
                note.append(reason);
                emit(server, ServerEvent::Chat { sender: String::from_str("Server"), message: note });
                proof { assert(event_views(server.events@) =~= e0 + kick_outcome(*ctx).1); }
                let mut m = String::from_str("Kicked ");
                m.append(target);
                m.append(": ");
                m.append(reason);
                Ok(m)
            },
            None => {
                let mut e = String::from_str("Player not found: ");
                e.append(target);
                Err(e)
            },
        }
    }
}

/// `/ban <player> [reason]`: an online player is kicked and banned; any
/// other name is banned by its offline id.
pub open spec fn ban_outcome(ctx: CommandContext) -> (ReplyView, Seq<EventView>) {
    let a = arg_views(ctx);
    if a.len() == 0 {
        (Err("Usage: /ban <player> [reason]"@), Seq::empty())
    } else {
        let reason = if a.len() > 1 { a[1] } else { "Banned"@ };
        let (uuid, evs) = match name_pos(ctx.players@, a[0]) {
            Some(i) => {
                let u = ctx.players@[i].uuid;
                (u, seq![EventView::Kick { uuid: u, reason: "Banned: "@ + reason }, EventView::Ban { uuid: u }])
            },
            None => {
                let u = offline_id(a[0]);
                (u, seq![EventView::Ban { uuid: u }])
            },
        };
        (
            Ok("Banned "@ + a[0] + " ("@ + uuid_hyphenated(uuid) + "): "@ + reason),
            evs + seq![server_chat(a[0] + " was banned: "@ + reason)],
        )
    }
}

/// `/ban`.
pub struct BanCommand;

impl BanCommand {
    pub fn name(&self) -> &'static str {
        "ban"
    }

    pub fn description(&self) -> &'static str {
        "Ban a player from the server"
    }

    pub fn execute(&self, ctx: &CommandContext, server: &mut ServerData) -> (r: CommandResult)
        requires
            old(server).wf(),
        ensures
            only_events_added(*old(server), *final(server), ban_outcome(*ctx).1),
            reply_view(r) == ban_outcome(*ctx).0,
    {
        let ghost a = arg_views(*ctx);
        proof { assert(event_views(server.events@) =~= event_views(server.events@) + Seq::<EventView>::empty()); }
        if ctx.args.len() == 0 {
            return Err(String::from_str("Usage: /ban <player> [reason]"));
        }
        let target = ctx.args[0].as_str();
        let reason: &str = if ctx.args.len() > 1 { ctx.args[1].as_str() } else { "Banned" };
        proof {
            assert(a[0] == target@);
            if a.len() > 1 { assert(a[1] == ctx.args@[1]@); }
        }
        let ghost e0 = event_views(server.events@);
        let uuid = match find_player_named(&ctx.players, target) {
            Some(i) => {
                proof { lemma_name_pos(ctx.players@, target@, i as int); }
                let u = ctx.players[i].uuid;
                let mut why = String::from_str("Banned: ");
                why.append(reason);
                emit(server, ServerEvent::Kick { uuid: u, reason: why });
                emit(server, ServerEvent::Ban { uuid: u });
                u
            },
            None => {
                let u = offline_uuid(target);
                emit(server, ServerEvent::Ban { uuid: u });
                u
            },
        };
        let mut note = String::from_str(target);
        note.append(" was banned: ");
        note.append(reason);
        emit(server, ServerEvent::Chat { sender: String::from_str("Server"), message: note });
        proof { assert(event_views(server.events@) =~= e0 + ban_outcome(*ctx).1); }
        let mut m = String::from_str("Banned ");
        m.append(target);
        m.append(" (");
        let id = uuid_text(uuid);
        m.append(id.as_str());
        m.append("): ");
        m.append(reason);
        Ok(m)
    }
}

/// Whether `uuid` is in the ban list.
pub open spec fn is_banned(ctx: CommandContext, uuid: u128) -> bool {
    ctx.banned@.contains(uuid)
}

/// `/pardon <player>`: lifts the ban of the player's offline id.
pub open spec fn pardon_outcome(ctx: CommandContext) -> (ReplyView, Seq<EventView>) {
    let a = arg_views(ctx);
    if a.len() == 0 {
        (Err("Usage: /pardon <player>"@), Seq::empty())
    } else {
        let uuid = offline_id(a[0]);
        if is_banned(ctx, uuid) {
            (
                Ok("Pardoned "@ + a[0] + " ("@ + uuid_hyphenated(uuid) + "), they may rejoin now"@),
                seq![EventView::Unban { uuid }, server_chat(a[0] + " was pardoned"@)],
            )
        } else {
            (Err(a[0] + " is not banned"@), Seq::empty())
        }
    }
}

fn banned_contains(ctx: &CommandContext, uuid: u128) -> (r: bool)
    ensures
        r == is_banned(*ctx, uuid),
{
    let mut i: usize = 0;
    while i < ctx.banned.len()
        invariant
            i <= ctx.banned@.len(),
            forall|j: int| 0 <= j < i ==> ctx.banned@[j] != uuid,
        decreases ctx.banned@.len() - i,
    {
        if ctx.banned[i] == uuid {
            proof { assert(ctx.banned@.contains(uuid)); }
            return true;
        }
        i = i + 1;
    }
    false
}

/// `/pardon`.
pub struct PardonCommand;

impl PardonCommand {
    pub fn name(&self) -> &'static str {
        "pardon"
    }

    pub fn description(&self) -> &'static str {
        "Unban a player"
    }

    pub fn execute(&self, ctx: &CommandContext, server: &mut ServerData) -> (r: CommandResult)
        requires
            old(server).wf(),
        ensures
            only_events_added(*old(server), *final(server), pardon_outcome(*ctx).1),
            reply_view(r) == pardon_outcome(*ctx).0,
    {
        let ghost a = arg_views(*ctx);
        proof { assert(event_views(server.events@) =~= event_views(server.events@) + Seq::<EventView>::empty()); }
        if ctx.args.len() == 0 {
            return Err(String::from_str("Usage: /pardon <player>"));
        }
        let target = ctx.args[0].as_str();
        proof { assert(a[0] == target@); }
        let uuid = offline_uuid(target);
        if banned_contains(ctx, uuid) {
            let ghost e0 = event_views(server.events@);
            emit(server, ServerEvent::Unban { uuid });
            let mut note = String::from_str(target);
            note.append(" was pardoned");
            emit(server, ServerEvent::Chat { sender: String::from_str("Server"), message: note });
            proof { assert(event_views(server.events@) =~= e0 + pardon_outcome(*ctx).1); }
            let mut m = String::from_str("Pardoned ");
            m.append(target);
            m.append(" (");
            let id = uuid_text(uuid);
            m.append(id.as_str());
            m.append("), they may rejoin now");
            Ok(m)
        } else {
            let mut e = String::from_str(target);
            e.append(" is not banned");
            Err(e)
        }
    }
}

pub open spec fn banlist_line(u: u128) -> Seq<char> {
    "  - "@ + uuid_hyphenated(u)
}

/// `/banlist`.
pub open spec fn banlist_reply(ctx: CommandContext) -> Seq<char> {
    if ctx.banned@.len() == 0 {
        "No banned players"@
    } else {
        "Banned ("@ + decimal(ctx.banned@.len()) + "):\n"@
            + joined(ctx.banned@.map_values(|u: u128| banlist_line(u)), "\n"@)
    }
}

/// `/banlist`.
pub struct BanlistCommand;

impl BanlistCommand {
    pub fn name(&self) -> &'static str {
        "banlist"
    }

    pub fn description(&self) -> &'static str {
        "List all banned players"
    }

    pub fn execute(&self, ctx: &CommandContext, server: &mut ServerData) -> (r: CommandResult)
        requires
            old(server).wf(),
        ensures
            *final(server) == *old(server),
            reply_view(r) == Ok::<Seq<char>, Seq<char>>(banlist_reply(*ctx)),
    {
        if ctx.banned.len() == 0 {
            return Ok(String::from_str("No banned players"));
        }
        let mut lines: Vec<String> = Vec::new();
        let mut i: usize = 0;
        while i < ctx.banned.len()
            invariant
                i <= ctx.banned@.len(),
                views(lines@) == ctx.banned@.subrange(0, i as int).map_values(|u: u128| banlist_line(u)),
            decreases ctx.banned@.len() - i,
        {
            let mut l = String::from_str("  - ");
            let id = uuid_text(ctx.banned[i]);
            l.append(id.as_str());
            let ghost before = views(lines@);
            let ghost lv = l@;
            lines.push(l);
            proof {
                assert(views(lines@) =~= before.push(lv));
                assert(ctx.banned@.subrange(0, i + 1).map_values(|u: u128| banlist_line(u))
                    =~= ctx.banned@.subrange(0, i as int).map_values(|u: u128| banlist_line(u)).push(lv));
            }
            i = i + 1;
        }
        proof { assert(ctx.banned@.subrange(0, ctx.banned@.len() as int) =~= ctx.banned@); }
        let mut m = String::from_str("Banned (");
        push_u64(&mut m, ctx.banned.len() as u64);
        m.append("):\n");
        let body = join(&lines, "\n");
        m.append(body.as_str());
        Ok(m)
    }
}

/// `/whitelist <add|remove|list|on|off> [player]`.
pub open spec fn whitelist_outcome(ctx: CommandContext) -> (ReplyView, Seq<EventView>) {
    let a = arg_views(ctx);
    let action = if a.len() > 0 { a[0] } else { "list"@ };
    if action == "add"@ {
        if a.len() < 2 {
            (Err("Usage: /whitelist add <player>"@), Seq::empty())
        } else {
            (
                Ok("Added "@ + a[1] + " to whitelist"@),
                seq![EventView::WhitelistAdd { uuid: offline_id(a[1]) }, server_chat(a[1] + " added to whitelist"@)],
            )
        }
    } else if action == "remove"@ {
        if a.len() < 2 {
            (Err("Usage: /whitelist remove <player>"@), Seq::empty())
        } else {
            (Ok("Removed "@ + a[1] + " from whitelist"@), seq![EventView::WhitelistRemove { uuid: offline_id(a[1]) }])
        }
    } else if action == "list"@ {
        (Ok("Whitelist: active (in-memory, not yet persisted)"@), Seq::empty())
    } else if action == "on"@ {
        (
            Ok("Whitelist enabled"@),
            seq![EventView::WhitelistEnabled { enabled: true }, server_chat("Whitelist enabled"@)],
        )
    } else if action == "off"@ {
        (Ok("Whitelist disabled"@), seq![EventView::WhitelistEnabled { enabled: false }])
    } else {
        (Err("Usage: /whitelist <add|remove|list|on|off>"@), Seq::empty())
    }
}

/// `/whitelist`.
pub struct WhitelistCommand;

impl WhitelistCommand {
    pub fn name(&self) -> &'static str {
        "whitelist"
    }

    pub fn description(&self) -> &'static str {
        "Manage the server whitelist"
    }

    pub fn execute(&self, ctx: &CommandContext, server: &mut ServerData) -> (r: CommandResult)
        requires
            old(server).wf(),
        ensures
            only_events_added(*old(server), *final(server), whitelist_outcome(*ctx).1),
            reply_view(r) == whitelist_outcome(*ctx).0,
    {
        let ghost a = arg_views(*ctx);
        let ghost e0 = event_views(server.events@);
        proof { assert(e0 =~= e0 + Seq::<EventView>::empty()); }
        let action: &str = if ctx.args.len() > 0 { ctx.args[0].as_str() } else { "list" };
        proof {
            if a.len() > 0 { assert(a[0] == ctx.args@[0]@); }
            if a.len() > 1 { assert(a[1] == ctx.args@[1]@); }
        }
        if str_eq(action, "add") {
            if ctx.args.len() < 2 {
                return Err(String::from_str("Usage: /whitelist add <player>"));
            }
            let player = ctx.args[1].as_str();
            emit(server, ServerEvent::WhitelistAdd { uuid: offline_uuid(player) });
            let mut note = String::from_str(player);
            note.append(" added to whitelist");
            emit(server, ServerEvent::Chat { sender: String::from_str("Server"), message: note });
            proof { assert(event_views(server.events@) =~= e0 + whitelist_outcome(*ctx).1); }
            let mut m = String::from_str("Added ");
            m.append(player);
            m.append(" to whitelist");
            Ok(m)
        } else if str_eq(action, "remove") {
            if ctx.args.len() < 2 {
                return Err(String::from_str("Usage: /whitelist remove <player>"));
            }
            let player = ctx.args[1].as_str();
            emit(server, ServerEvent::WhitelistRemove { uuid: offline_uuid(player) });
            proof { assert(event_views(server.events@) =~= e0 + whitelist_outcome(*ctx).1); }
            let mut m = String::from_str("Removed ");
            m.append(player);
            m.append(" from whitelist");
            Ok(m)
        } else if str_eq(action, "list") {
            Ok(String::from_str("Whitelist: active (in-memory, not yet persisted)"))
        } else if str_eq(action, "on") {
            emit(server, ServerEvent::WhitelistEnabled { enabled: true });
            emit(server, ServerEvent::Chat {
                sender: String::from_str("Server"),
                message: String::from_str("Whitelist enabled"),
            });
            proof { assert(event_views(server.events@) =~= e0 + whitelist_outcome(*ctx).1); }
            Ok(String::from_str("Whitelist enabled"))
        } else if str_eq(action, "off") {
            emit(server, ServerEvent::WhitelistEnabled { enabled: false });
            proof { assert(event_views(server.events@) =~= e0 + whitelist_outcome(*ctx).1); }
            Ok(String::from_str("Whitelist disabled"))
        } else {
            Err(String::from_str("Usage: /whitelist <add|remove|list|on|off>"))
        }
    }
}

/// `/transfer <player> <host> [port]`: every selected player is sent to
/// the host (port 25565 unless a valid one is given).
pub open spec fn transfer_outcome(ctx: CommandContext) -> (ReplyView, Seq<EventView>) {
    let a = arg_views(ctx);
    if a.len() < 2 {
        (Err("Usage: /transfer <player> <host> [port]"@), Seq::empty())
    } else {
        let port: i32 = if a.len() > 2 && i32_of(a[2]) is Some { i32_of(a[2])->0 } else { 25565 };
        let targets = targets_spec(a[0], ctx);
        if targets.len() == 0 {
            (Err("No player matched: "@ + a[0]), Seq::empty())
        } else {
            (
                Ok("Transferring "@ + decimal(targets.len()) + " player(s) to "@ + a[1] + ":"@ + signed_decimal(port as int)),
                targets.map_values(|t: (u128, Seq<char>)| EventView::Transfer { uuid: t.0, host: a[1], port }),
            )
        }
    }
}

/// `/transfer`.
pub struct TransferCommand;

impl TransferCommand {
    pub fn name(&self) -> &'static str {
        "transfer"
    }

    pub fn description(&self) -> &'static str {
        "Transfer a player to another server"
    }

    pub fn execute(&self, ctx: &CommandContext, server: &mut ServerData) -> (r: CommandResult)
        requires
            old(server).wf(),
        ensures
            only_events_added(*old(server), *final(server), transfer_outcome(*ctx).1),
            reply_view(r) == transfer_outcome(*ctx).0,
    {
        let ghost a = arg_views(*ctx);
        let ghost e0 = event_views(server.events@);
        proof { assert(e0 =~= e0 + Seq::<EventView>::empty()); }
        if ctx.args.len() < 2 {
            return Err(String::from_str("Usage: /transfer <player> <host> [port]"));
        }
        let target = ctx.args[0].as_str();
        let host = ctx.args[1].as_str();
        proof {
            assert(a[0] == target@);
            assert(a[1] == host@);
            if a.len() > 2 { assert(a[2] == ctx.args@[2]@); }
        }
        let port: i32 = if ctx.args.len() > 2 {
            match i32_opt(ctx.args[2].as_str()) {
                Some(p) => p,
                None => 25565,
            }
        } else {
            25565
        };
        let targets = resolve_player_targets(target, ctx);
        if targets.len() == 0 {
            let mut e = String::from_str("No player matched: ");
            e.append(target);
            return Err(e);
        }
        let ghost tv = targets_view(targets@);
        let mut i: usize = 0;
        while i < targets.len()
            invariant
                i <= targets@.len(),
                tv == targets_view(targets@),
                server.wf(),
                server.world == old(server).world,
                server.scoreboard == old(server).scoreboard,
                server.teams == old(server).teams,
                event_views(server.events@) == e0 + tv.subrange(0, i as int)
                    .map_values(|t: (u128, Seq<char>)| EventView::Transfer { uuid: t.0, host: host@, port }),
            decreases targets@.len() - i,
        {
            let ghost before = event_views(server.events@);
            emit(server, ServerEvent::Transfer { uuid: targets[i].0, host: String::from_str(host), port });
            proof {
                assert(tv.subrange(0, i + 1).map_values(|t: (u128, Seq<char>)| EventView::Transfer { uuid: t.0, host: host@, port })
                    =~= tv.subrange(0, i as int).map_values(|t: (u128, Seq<char>)| EventView::Transfer { uuid: t.0, host: host@, port })
                        + seq![EventView::Transfer { uuid: tv[i as int].0, host: host@, port }]);
            }
            i = i + 1;
        }
        proof { assert(tv.subrange(0, tv.len() as int) =~= tv); }
        let mut m = String::from_str("Transferring ");
        push_u64(&mut m, targets.len() as u64);
        m.append(" player(s) to ");
        m.append(host);
        m.append(":");
        push_i64(&mut m, port as i64);
        Ok(m)
    }
}

/// The difficulty `/reload` accepts (lower-cased word or number).
pub open spec fn reload_difficulty(s: Seq<char>) -> Option<Difficulty> {
    if s == "peaceful"@ || s == "0"@ {
        Some(Difficulty::Peaceful)
    } else if s == "easy"@ || s == "1"@ {
        Some(Difficulty::Easy)
    } else if s == "normal"@ || s == "2"@ {
        Some(Difficulty::Normal)
    } else if s == "hard"@ || s == "3"@ {
        Some(Difficulty::Hard)
    } else {
        None
    }
}

/// What `/reload <difficulty>` does.
pub open spec fn reload_step(a: Seq<Seq<char>>, w: WorldState) -> (ReplyView, WorldState) {
    if a.len() == 0 {
        (Err("Usage: /reload <difficulty> — e.g. /reload normal"@), w)
    } else {
        match reload_difficulty(lowercase(a[0])) {
            Some(d) => (Ok("Config reloaded: difficulty → "@ + difficulty_text(d)), WorldState { difficulty: d, ..w }),
            None => (Err("Usage: /reload [difficulty] — difficulty: peaceful|easy|normal|hard"@), w),
        }
    }
}

/// `/reload`.
pub struct ReloadCommand;

impl ReloadCommand {
    pub fn name(&self) -> &'static str {
        "reload"
    }

    pub fn description(&self) -> &'static str {
        "Reload server configuration (difficulty, motd) from disk"
    }

    pub fn execute(&self, ctx: &CommandContext, server: &mut ServerData) -> (r: CommandResult)
        requires
            old(server).wf(),
        ensures
            only_world_changed(*old(server), *final(server)),
            reply_view(r) == reload_step(arg_views(*ctx), old(server).world).0,
            final(server).world == reload_step(arg_views(*ctx), old(server).world).1,
    {
        let ghost a = arg_views(*ctx);
        if ctx.args.len() == 0 {
            return Err(String::from_str("Usage: /reload <difficulty> — e.g. /reload normal"));
        }
        proof { assert(a[0] == ctx.args@[0]@); }
        let low = to_lowercase(ctx.args[0].as_str());
        let s = low.as_str();
        let d = if str_eq(s, "peaceful") || str_eq(s, "0") {
            Difficulty::Peaceful
        } else if str_eq(s, "easy") || str_eq(s, "1") {
            Difficulty::Easy
        } else if str_eq(s, "normal") || str_eq(s, "2") {
            Difficulty::Normal
        } else if str_eq(s, "hard") || str_eq(s, "3") {
            Difficulty::Hard
        } else {
            return Err(String::from_str("Usage: /reload [difficulty] — difficulty: peaceful|easy|normal|hard"));
        };
        server.world.set_difficulty(d);
        let mut m = String::from_str("Config reloaded: difficulty → ");
        m.append(difficulty_name(d));
        Ok(m)
    }
}

/// `/save-all`.
pub struct SaveAllCommand;

impl SaveAllCommand {
    pub fn name(&self) -> &'static str {
        "save-all"
    }

    pub fn description(&self) -> &'static str {
        "Save all world and player data immediately"
    }

    pub fn execute(&self, ctx: &CommandContext, server: &mut ServerData) -> (r: CommandResult)
        requires
            old(server).wf(),
        ensures
            ctx.save_available ==> only_events_added(*old(server), *final(server), seq![EventView::Save])
                && reply_view(r) == Ok::<Seq<char>, Seq<char>>(
                    "Save triggered — all chunks and player data will be saved"@),
            !ctx.save_available ==> *final(server) == *old(server)
                && reply_view(r) == Err::<Seq<char>, Seq<char>>(
                    "Save trigger not available (console-only command)"@),
    {
        if ctx.save_available {
            emit(server, ServerEvent::Save);
            Ok(String::from_str("Save triggered — all chunks and player data will be saved"))
        } else {
            Err(String::from_str("Save trigger not available (console-only command)"))
        }
    }
}

} // verus!
