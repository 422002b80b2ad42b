//! Informational commands: `/list`, `/seed`, `/say`, `/status`.

use vstd::prelude::*;
use vstd::string::*;
use crate::commands::context::{
    args_text, emit, event_views, join_args, reply_view, source_name, CommandContext, CommandResult, EventView,
    ReplyView, ServerData, ServerEvent,
};
use crate::text::{decimal, join, joined, push_u64, views};

verus! {

/// The state after a command that only emits events.
pub open spec fn only_events_added(before: ServerData, after: ServerData, evs: Seq<EventView>) -> bool {
    &&& after.wf()
    &&& after.world == before.world
    &&& after.scoreboard == before.scoreboard
    &&& after.teams == before.teams
    &&& event_views(after.events@) == event_views(before.events@) + evs
}

/// Online player names in list order.
pub open spec fn player_names(ctx: CommandContext) -> Seq<Seq<char>> {
    ctx.players@.map_values(|p: crate::commands::context::PlayerInfo| p.username@)
}

pub open spec fn list_reply(ctx: CommandContext) -> Seq<char> {
    "Players ("@ + decimal(ctx.players@.len()) + "/"@ + decimal(ctx.max_players as nat) + "): "@
        + if ctx.players@.len() == 0 { "(none)"@ } else { joined(player_names(ctx), ", "@) }
}

/// `/list`.
pub struct ListCommand;

impl ListCommand {
    pub fn name(&self) -> &'static str {
        "list"
    }

    pub fn description(&self) -> &'static str {
        "List online players"
    }

    pub fn execute(&self, ctx: &CommandContext, server: &mut ServerData) -> (r: CommandResult)
        requires
            old(server).wf(),
        ensures
            *final(server) == *old(server),
            reply_view(r) == Ok::<Seq<char>, Seq<char>>(list_reply(*ctx)),
    {
        let mut names: Vec<String> = Vec::new();
        let mut i: usize = 0;
        while i < ctx.players.len()
            invariant
                i <= ctx.players@.len(),
                views(names@) == player_names(*ctx).subrange(0, i as int),
            decreases ctx.players@.len() - i,
        {
            let ghost before = names@;
            let n = ctx.players[i].username.clone();
            names.push(n);
            proof {
                assert(names@ =~= before.push(n));
                assert(views(names@) =~= views(before).push(n@));
                assert(player_names(*ctx).subrange(0, i + 1)
                    =~= player_names(*ctx).subrange(0, i as int).push(player_names(*ctx)[i as int]));
            }
            i = i + 1;
        }
        proof { assert(player_names(*ctx).subrange(0, ctx.players@.len() as int) =~= player_names(*ctx)); }
        let mut m = String::from_str("Players (");
        push_u64(&mut m, ctx.players.len() as u64);
        m.append("/");
        push_u64(&mut m, ctx.max_players as u64);
        m.append("): ");
        if ctx.players.len() == 0 {
            m.append("(none)");
        } else {
            let body = join(&names, ", ");
            m.append(body.as_str());
        }
        Ok(m)
    }
}

/// `/seed`.
pub struct SeedCommand;

impl SeedCommand {
    pub fn name(&self) -> &'static str {
        "seed"
    }

    pub fn description(&self) -> &'static str {
        "Show the world seed"
    }

    pub fn execute(&self, ctx: &CommandContext, server: &mut ServerData) -> (r: CommandResult)
        requires
            old(server).wf(),
        ensures
            *final(server) == *old(server),
            reply_view(r) == Ok::<Seq<char>, Seq<char>>("Seed: "@ + decimal(old(server).world.seed as nat)),
    {
        let mut m = String::from_str("Seed: ");
        push_u64(&mut m, server.world.seed);
        Ok(m)
    }
}

/// `/say`: the arguments joined by spaces, broadcast from the server; the
/// reply names the source.
pub open spec fn say_outcome(ctx: CommandContext) -> (ReplyView, Seq<EventView>) {
    let message = args_text(ctx, 0);
    if message.len() == 0 {
        (Err("Usage: /say <message>"@), Seq::empty())
    } else {
        (
            Ok("["@ + source_name(ctx.source) + "] "@ + message),
            seq![EventView::Chat { sender: "Server"@, message }],
        )
    }
}

/// `/say`.
pub struct SayCommand;

impl SayCommand {
    pub fn name(&self) -> &'static str {
        "say"
    }

    pub fn description(&self) -> &'static str {
        "Broadcast a message to all players"
    }

    pub fn execute(&self, ctx: &CommandContext, server: &mut ServerData) -> (r: CommandResult)
        requires
            old(server).wf(),
        ensures
            only_events_added(*old(server), *final(server), say_outcome(*ctx).1),
            reply_view(r) == say_outcome(*ctx).0,
    {
        let message = join_args(ctx, 0);
        if message.unicode_len() == 0 {
            proof { assert(event_views(server.events@) =~= event_views(server.events@) + Seq::<EventView>::empty()); }
            return Err(String::from_str("Usage: /say <message>"));
        }
        let mut out = String::from_str("[");
        let who = ctx.source.name();
        out.append(who.as_str());
        out.append("] ");
        out.append(message.as_str());
        emit(server, ServerEvent::Chat { sender: String::from_str("Server"), message });
        Ok(out)
    }
}

pub open spec fn status_reply(ctx: CommandContext, time: u64) -> Seq<char> {
    "Server: Minecraft LAN | Players: "@ + decimal(ctx.players@.len()) + "/"@ + decimal(ctx.max_players as nat)
        + " | Time: "@ + decimal(time as nat) + " | MOTD: "@ + ctx.motd@
}

/// `/status`.
pub struct StatusCommand;

impl StatusCommand {
    pub fn name(&self) -> &'static str {
        "status"
    }

    pub fn description(&self) -> &'static str {
        "Show server status"
    }

    pub fn execute(&self, ctx: &CommandContext, server: &mut ServerData) -> (r: CommandResult)
        requires
            old(server).wf(),
        ensures
            *final(server) == *old(server),
            reply_view(r) == Ok::<Seq<char>, Seq<char>>(status_reply(*ctx, old(server).world.time)),
    {
        let mut m = String::from_str("Server: Minecraft LAN | Players: ");
        push_u64(&mut m, ctx.players.len() as u64);
        m.append("/");
        push_u64(&mut m, ctx.max_players as u64);
        m.append(" | Time: ");
        push_u64(&mut m, server.world.time);
        m.append(" | MOTD: ");
        m.append(ctx.motd.as_str());
        Ok(m)
    }
}

} // verus!
