//! Chat commands: `/msg` (aliases `tell`, `w`), `/me` and `/help`.

use vstd::prelude::*;
use vstd::string::*;
use crate::commands::context::{
    arg_views, args_text, emit, event_views, join_args, reply_view, source_name, CommandContext, CommandResult,
    EventView, ReplyView, ServerData, ServerEvent,
};
use crate::commands::info::only_events_added;
use crate::commands::selector::{resolve_player_target, targets_spec};
use crate::text::{decimal, join, joined, push_u64, views};

verus! {

pub open spec fn msg_usage() -> Seq<char> {
    "Usage: /msg <player> <message>"@
}

/// `/msg <player> <message...>`: the message goes privately to the first
/// player the target selects.
pub open spec fn msg_outcome(ctx: CommandContext) -> (ReplyView, Seq<EventView>) {
    let a = arg_views(ctx);
    if a.len() == 0 {
        (Err(msg_usage()), Seq::empty())
    } else {
        let message = args_text(ctx, 1);
        if message.len() == 0 {
            (Err(msg_usage()), Seq::empty())
        } else {
            let targets = targets_spec(a[0], ctx);
            if targets.len() == 0 {
                (Err("Player not found: "@ + a[0]), Seq::empty())
            } else {
                (
                    Ok("[You → "@ + targets[0].1 + "] "@ + message),
                    seq![EventView::PrivateMessage { sender: source_name(ctx.source), target: targets[0].0, message }],
                )
            }
        }
    }
}

/// `/msg`.
pub struct MsgCommand;

impl MsgCommand {
    pub fn name(&self) -> &'static str {
        "msg"
    }

    pub fn description(&self) -> &'static str {
        "Send a private message to a player"
    }

    pub fn aliases(&self) -> (r: Vec<&'static str>)
        ensures
            r@.len() == 2 && r@[0]@ == "tell"@ && r@[1]@ == "w"@,
    {
        let mut v: Vec<&'static str> = Vec::new();
        v.push("tell");
        v.push("w");
        v
    }

    pub fn execute(&self, ctx: &CommandContext, server: &mut ServerData) -> (r: CommandResult)
        requires
            old(server).wf(),
        ensures
            only_events_added(*old(server), *final(server), msg_outcome(*ctx).1),
            reply_view(r) == msg_outcome(*ctx).0,
    {
        let ghost a = arg_views(*ctx);
        proof { assert(event_views(server.events@) =~= event_views(server.events@) + Seq::<EventView>::empty()); }
        if ctx.args.len() == 0 {
            return Err(String::from_str("Usage: /msg <player> <message>"));
        }
        let target = ctx.args[0].as_str();
        proof { assert(a[0] == target@); }
        let message = join_args(ctx, 1);
        if message.unicode_len() == 0 {
            return Err(String::from_str("Usage: /msg <player> <message>"));
        }
        match resolve_player_target(target, ctx) {
            Some((uuid, name)) => {
                let sender = ctx.source.name();
                let mut out = String::from_str("[You → ");
                out.append(name.as_str());
                out.append("] ");
                out.append(message.as_str());
                emit(server, ServerEvent::PrivateMessage { sender, target: uuid, message });
                Ok(out)
            },
            None => {
                let mut e = String::from_str("Player not found: ");
                e.append(target);
                Err(e)
            },
        }
    }
}

/// `/me <action...>`: announces `* <source> <action>`.
pub open spec fn me_outcome(ctx: CommandContext) -> (ReplyView, Seq<EventView>) {
    let action = args_text(ctx, 0);
    if action.len() == 0 {
        (Err("Usage: /me <action>"@), Seq::empty())
    } else {
        let message = "* "@ + source_name(ctx.source) + " "@ + action;
        (Ok(message), seq![EventView::Chat { sender: "Server"@, message }])
    }
}

/// `/me`.
pub struct MeCommand;

impl MeCommand {
    pub fn name(&self) -> &'static str {
        "me"
    }

    pub fn description(&self) -> &'static str {
        "Broadcast an action to all players"
    }

    pub fn execute(&self, ctx: &CommandContext, server: &mut ServerData) -> (r: CommandResult)
        requires
            old(server).wf(),
        ensures
            only_events_added(*old(server), *final(server), me_outcome(*ctx).1),
            reply_view(r) == me_outcome(*ctx).0,
    {
        proof { assert(event_views(server.events@) =~= event_views(server.events@) + Seq::<EventView>::empty()); }
        let action = join_args(ctx, 0);
        if action.unicode_len() == 0 {
            return Err(String::from_str("Usage: /me <action>"));
        }
        let who = ctx.source.name();
        let mut message = String::from_str("* ");
        message.append(who.as_str());
        message.append(" ");
        message.append(action.as_str());
        let out = message.clone();
        emit(server, ServerEvent::Chat { sender: String::from_str("Server"), message });
        Ok(out)
    }
}

/// The commands `/help` lists when no dispatcher is at hand.
pub open spec fn fallback_help() -> Seq<(Seq<char>, Seq<char>)> {
    seq![
        ("help"@, "Show available commands"@),
        ("msg"@, "Send private message"@),
        ("op"@, "Grant operator status"@),
        ("stop"@, "Stop the server"@),
        ("kick"@, "Kick a player"@),
        ("gamemode"@, "Change game mode"@),
        ("tp"@, "Teleport to player or coordinates"@),
        ("give"@, "Give items to a player"@),
        ("time"@, "Query or change world time"@),
        ("list"@, "List online players"@),
    ]
}

pub open spec fn help_line(e: (Seq<char>, Seq<char>)) -> Seq<char> {
    "§7/"@ + e.0 + "§r — "@ + e.1
}

pub open spec fn info_views(v: Seq<(String, String)>) -> Seq<(Seq<char>, Seq<char>)> {
    v.map_values(|e: (String, String)| (e.0@, e.1@))
}

/// The lines of `/help`, without the separator.
pub open spec fn help_lines(ctx: CommandContext) -> Seq<Seq<char>> {
    let head = seq!["§6--- Help: Commands ---§r"@];
    let tail = seq!["§7Use @a (all), @p (nearest), @s (self) as target selectors§r"@];
    match ctx.command_info {
        Some(info) => head + info_views(info@).map_values(|e: (Seq<char>, Seq<char>)| help_line(e))
            + seq!["§7Total: "@ + decimal(info@.len()) + " commands§r"@] + tail,
        None => head + fallback_help().map_values(|e: (Seq<char>, Seq<char>)| help_line(e)) + tail,
    }
}

/// `/help` (alias `?`).
pub struct HelpCommand;

fn help_entry(lines: &mut Vec<String>, name: &str, desc: &str)
    ensures
        views(final(lines)@) == views(old(lines)@).push(help_line((name@, desc@))),
{
    let mut l = String::from_str("§7/");
    l.append(name);
    l.append("§r — ");
    l.append(desc);
    let ghost before = lines@;
    let ghost lv = l@;
    lines.push(l);
    proof { assert(views(lines@) =~= views(before).push(lv)); }
}

impl HelpCommand {
    pub fn name(&self) -> &'static str {
        "help"
    }

    pub fn description(&self) -> &'static str {
        "Show available commands"
    }

    pub fn aliases(&self) -> (r: Vec<&'static str>)
        ensures
            r@.len() == 1 && r@[0]@ == "?"@,
    {
        let mut v: Vec<&'static str> = Vec::new();
        v.push("?");
        v
    }

    pub fn execute(&self, ctx: &CommandContext, server: &mut ServerData) -> (r: CommandResult)
        requires
            old(server).wf(),
        ensures
            *final(server) == *old(server),
            reply_view(r) == Ok::<Seq<char>, Seq<char>>(joined(help_lines(*ctx), "\n"@)),
    {
        let mut lines: Vec<String> = Vec::new();
        lines.push(String::from_str("§6--- Help: Commands ---§r"));
        let ghost head = views(lines@);
        proof { assert(head =~= seq!["§6--- Help: Commands ---§r"@]); }
        match &ctx.command_info {
            Some(info) => {
                let mut i: usize = 0;
                while i < info.len()
                    invariant
                        i <= info@.len(),
                        views(lines@) == head + info_views(info@).subrange(0, i as int)
                            .map_values(|e: (Seq<char>, Seq<char>)| help_line(e)),
                    decreases info@.len() - i,
                {
                    let ghost before = views(lines@);
                    help_entry(&mut lines, info[i].0.as_str(), info[i].1.as_str());
                    proof {
                        assert(info_views(info@).subrange(0, i + 1).map_values(|e: (Seq<char>, Seq<char>)| help_line(e))
                            =~= info_views(info@).subrange(0, i as int).map_values(|e: (Seq<char>, Seq<char>)| help_line(e))
                                .push(help_line((info@[i as int].0@, info@[i as int].1@))));
                    }
                    i = i + 1;
                }
                proof { assert(info_views(info@).subrange(0, info@.len() as int) =~= info_views(info@)); }
                let mut total = String::from_str("§7Total: ");
                push_u64(&mut total, info.len() as u64);
                total.append(" commands§r");
                let ghost before = views(lines@);
                let ghost tv = total@;
                lines.push(total);
                proof { assert(views(lines@) =~= before.push(tv)); }
            },
            None => {
                help_entry(&mut lines, "help", "Show available commands");
                help_entry(&mut lines, "msg", "Send private message");
                help_entry(&mut lines, "op", "Grant operator status");
                help_entry(&mut lines, "stop", "Stop the server");
                help_entry(&mut lines, "kick", "Kick a player");
                help_entry(&mut lines, "gamemode", "Change game mode");
                help_entry(&mut lines, "tp", "Teleport to player or coordinates");
                help_entry(&mut lines, "give", "Give items to a player");
                help_entry(&mut lines, "time", "Query or change world time");
                help_entry(&mut lines, "list", "List online players");
                proof {
                    assert(views(lines@) =~= head + fallback_help().map_values(|e: (Seq<char>, Seq<char>)| help_line(e)));
                }
            },
        }
        let ghost before = views(lines@);
        let last = String::from_str("§7Use @a (all), @p (nearest), @s (self) as target selectors§r");
        let ghost lv = last@;
        lines.push(last);
        proof {
            assert(views(lines@) =~= before.push(lv));
            assert(views(lines@) =~= help_lines(*ctx));
        }
        Ok(join(&lines, "\n"))
    }
}

} // verus!
