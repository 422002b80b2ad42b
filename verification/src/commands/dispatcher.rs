//! The command registry: names, aliases, and dispatching input lines.

use vstd::prelude::*;
use vstd::string::*;
use crate::commands::admin::{
    ban_outcome, banlist_reply, kick_outcome, op_outcome, pardon_outcome, reload_step, server_chat, transfer_outcome,
    whitelist_outcome, BanCommand, BanlistCommand, DeopCommand, KickCommand, OpCommand, PardonCommand, ReloadCommand,
    SaveAllCommand, StopCommand, TransferCommand, WhitelistCommand,
};
use crate::commands::advanced::{
    data_reply, debug_step, fillbiome_in_range, fillbiome_reply, forceload_reply, forceload_set, publish_port,
    recipe_reply, team_outcome, trigger_in_range, trigger_outcome, DataCommand, DebugCommand, FillbiomeCommand,
    ForceloadCommand, PublishCommand, RecipeCommand, SaveOffCommand, SaveOnCommand, TeamCommand, TriggerCommand,
};
use crate::commands::context::{
    arg_views, event_views, find_player, loaded_view, reply_view, CommandContext, CommandResult, CommandSource, ReplyView,
    ServerData,
};
use crate::commands::selector::{lemma_player_pos, player_pos, targets_view, Target};
use crate::commands::blocks::{
    clone_in_range, clone_outcome, fill_in_range, fill_outcome, setblock_outcome, CloneCommand, FillCommand, SetblockCommand,
};
use crate::commands::entity::{
    attribute_reply, clear_outcome, item_in_range, item_outcome, playsound_outcome, PlaysoundCommand, ride_outcome, spectate_outcome, stopsound_outcome,
    title_outcome, xp_in_range, xp_outcome, AttributeCommand, ClearCommand, ItemCommand, RideCommand, SpectateCommand,
    StopsoundCommand, TitleCommand, XpCommand,
};
use crate::commands::execute::{
    at_args_for, execute_alone_reply, execute_plan, executed_count, lemma_plan_shrinks, moved_context,
    moved_context_of, per_target_reply, plan_execute, result_line, result_lines, target_args, target_context,
    target_context_of, ExecuteCommand, ExecutePlan, PlanView,
};
use crate::commands::info::{
    list_reply, only_events_added, say_outcome, status_reply, ListCommand, SayCommand, SeedCommand, StatusCommand,
};
use crate::commands::msg::{help_lines, info_views, me_outcome, msg_outcome, HelpCommand, MeCommand, MsgCommand};
use crate::commands::player::{
    defaultgamemode_step, gamemode_outcome, give_outcome, kill_outcome, DefaultGamemodeCommand, GamemodeCommand,
    GiveCommand, KillCommand,
};
use crate::commands::scoreboard::{scoreboard_args_in_range, scoreboard_step, ScoreboardCommand};
use crate::commands::world::{
    difficulty_step, gamerule_step, only_world_changed, tick_step, time_step, weather_step, DifficultyCommand,
    GameruleCommand, TickCommand, TimeCommand, WeatherCommand,
};
use crate::table::{Table, TableKey};
use crate::text::{join, lowercase, str_eq, to_lowercase, views};
use crate::words::{split_whitespace, trim, trim_spec, words_spec};
use crate::world_state::{rule_lookup, WorldState};

verus! {

/// Every command the library implements.
#[derive(Debug, Clone, Copy, PartialEq, Eq, Structural)]
pub enum CommandKind {
    Help,
    Msg,
    Me,
    Op,
    Deop,
    Stop,
    Kick,
    Ban,
    Pardon,
    Banlist,
    Whitelist,
    Transfer,
    Reload,
    SaveAll,
    Gamemode,
    DefaultGamemode,
    Give,
    Kill,
    Time,
    Weather,
    Difficulty,
    Tick,
    Gamerule,
    List,
    Seed,
    Say,
    Status,
    Scoreboard,
    Forceload,
    SaveOn,
    SaveOff,
    Publish,
    Debug,
    Fillbiome,
    Recipe,
    Data,
    Trigger,
    Team,
    Title,
    Clear,
    Stopsound,
    Spectate,
    Ride,
    Attribute,
    Item,
    Xp,
    Setblock,
    Fill,
    Clone,
    Playsound,
    Execute,
}

/// The name a command is registered under.
pub open spec fn kind_name(k: CommandKind) -> Seq<char> {
    match k {
        CommandKind::Help => "help"@,
        CommandKind::Msg => "msg"@,
        CommandKind::Me => "me"@,
        CommandKind::Op => "op"@,
        CommandKind::Deop => "deop"@,
        CommandKind::Stop => "stop"@,
        CommandKind::Kick => "kick"@,
        CommandKind::Ban => "ban"@,
        CommandKind::Pardon => "pardon"@,
        CommandKind::Banlist => "banlist"@,
        CommandKind::Whitelist => "whitelist"@,
        CommandKind::Transfer => "transfer"@,
        CommandKind::Reload => "reload"@,
        CommandKind::SaveAll => "save-all"@,
        CommandKind::Gamemode => "gamemode"@,
        CommandKind::DefaultGamemode => "defaultgamemode"@,
        CommandKind::Give => "give"@,
        CommandKind::Kill => "kill"@,
        CommandKind::Time => "time"@,
        CommandKind::Weather => "weather"@,
        CommandKind::Difficulty => "difficulty"@,
        CommandKind::Tick => "tick"@,
        CommandKind::Gamerule => "gamerule"@,
        CommandKind::List => "list"@,
        CommandKind::Seed => "seed"@,
        CommandKind::Say => "say"@,
        CommandKind::Status => "status"@,
        CommandKind::Scoreboard => "scoreboard"@,
        CommandKind::Forceload => "forceload"@,
        CommandKind::SaveOn => "save-on"@,
        CommandKind::SaveOff => "save-off"@,
        CommandKind::Publish => "publish"@,
        CommandKind::Debug => "debug"@,
        CommandKind::Fillbiome => "fillbiome"@,
        CommandKind::Recipe => "recipe"@,
        CommandKind::Data => "data"@,
        CommandKind::Trigger => "trigger"@,
        CommandKind::Team => "team"@,
        CommandKind::Title => "title"@,
        CommandKind::Clear => "clear"@,
        CommandKind::Stopsound => "stopsound"@,
        CommandKind::Spectate => "spectate"@,
        CommandKind::Ride => "ride"@,
        CommandKind::Attribute => "attribute"@,
        CommandKind::Item => "item"@,
        CommandKind::Xp => "xp"@,
        CommandKind::Setblock => "setblock"@,
        CommandKind::Fill => "fill"@,
        CommandKind::Clone => "clone"@,
        CommandKind::Playsound => "playsound"@,
        CommandKind::Execute => "execute"@,
    }
}

/// A command's description.
pub open spec fn kind_description(k: CommandKind) -> Seq<char> {
    match k {
        CommandKind::Help => "Show available commands"@,
        CommandKind::Msg => "Send a private message to a player"@,
        CommandKind::Me => "Broadcast an action to all players"@,
        CommandKind::Op => "Grant operator status"@,
        CommandKind::Deop => "Revoke operator status"@,
        CommandKind::Stop => "Stop the server"@,
        CommandKind::Kick => "Kick a player from the server"@,
        CommandKind::Ban => "Ban a player from the server"@,
        CommandKind::Pardon => "Unban a player"@,
        CommandKind::Banlist => "List all banned players"@,
        CommandKind::Whitelist => "Manage the server whitelist"@,
        CommandKind::Transfer => "Transfer a player to another server"@,
        CommandKind::Reload => "Reload server configuration (difficulty, motd) from disk"@,
        CommandKind::SaveAll => "Save all world and player data immediately"@,
        CommandKind::Gamemode => "Change player game mode"@,
        CommandKind::DefaultGamemode => "Set the default game mode for new players"@,
        CommandKind::Give => "Give items to a player"@,
        CommandKind::Kill => "Kill a player or entity"@,
        CommandKind::Time => "Query or change world time"@,
        CommandKind::Weather => "Set the weather"@,
        CommandKind::Difficulty => "Set the difficulty level"@,
        CommandKind::Tick => "Control server tick rate"@,
        CommandKind::Gamerule => "View or set game rules"@,
        CommandKind::List => "List online players"@,
        CommandKind::Seed => "Show the world seed"@,
        CommandKind::Say => "Broadcast a message to all players"@,
        CommandKind::Status => "Show server status"@,
        CommandKind::Scoreboard => "Manage scoreboard objectives and scores"@,
        CommandKind::Forceload => "Force chunks to stay loaded"@,
        CommandKind::SaveOn => "Enable automatic saving"@,
        CommandKind::SaveOff => "Disable automatic saving"@,
        CommandKind::Publish => "Open to LAN"@,
        CommandKind::Debug => "Start/stop debugging"@,
        CommandKind::Fillbiome => "Fill biome in an area (sets biome ID in chunks)"@,
        CommandKind::Recipe => "Give or take recipes from players"@,
        CommandKind::Data => "Get/modify NBT data (entity/block supported)"@,
        CommandKind::Trigger => "Trigger a scoreboard objective (add/set value)"@,
        CommandKind::Team => "Manage teams"@,
        CommandKind::Title => "Send a title/subtitle/actionbar to players"@,
        CommandKind::Clear => "Clear items from player inventory"@,
        CommandKind::Stopsound => "Stop a playing sound"@,
        CommandKind::Spectate => "Enter spectator mode and spectate a target"@,
        CommandKind::Ride => "Make entities ride others (mount/dismount)"@,
        CommandKind::Attribute => "Query or modify entity attributes"@,
        CommandKind::Item => "Modify items in entity inventory"@,
        CommandKind::Xp => "Manage player experience (add/set/query)"@,
        CommandKind::Setblock => "Place a block at coordinates"@,
        CommandKind::Fill => "Fill a region with blocks"@,
        CommandKind::Clone => "Clone blocks from one region to another"@,
        CommandKind::Playsound => "Play a sound effect for players"@,
        CommandKind::Execute => "Execute a command on behalf of/at other entities"@,
    }
}

/// The aliases a command is also reachable by.
pub open spec fn kind_aliases(k: CommandKind) -> Seq<Seq<char>> {
    match k {
        CommandKind::Help => seq!["?"@],
        CommandKind::Msg => seq!["tell"@, "w"@],
        CommandKind::Xp => seq!["experience"@],
        _ => Seq::empty(),
    }
}

/// Whether running `k` with these arguments stays away from the inputs on
/// which it would overflow.
pub open spec fn kind_in_range(k: CommandKind, ctx: CommandContext, before: ServerData) -> bool {
    match k {
        CommandKind::Scoreboard => scoreboard_args_in_range(arg_views(ctx), before.scoreboard.scores_view()),
        CommandKind::Fillbiome => fillbiome_in_range(arg_views(ctx)),
        CommandKind::Trigger => trigger_in_range(ctx, before.scoreboard.scores_view()),
        CommandKind::Item => item_in_range(arg_views(ctx)),
        CommandKind::Xp => xp_in_range(arg_views(ctx)),
        CommandKind::Fill => fill_in_range(arg_views(ctx)),
        CommandKind::Clone => clone_in_range(ctx),
        _ => true,
    }
}

/// A game rule set to one value, everything else in the world kept.
pub open spec fn rule_set(before: ServerData, after: ServerData, key: Seq<char>, value: Seq<char>) -> bool {
    &&& only_world_changed(before, after)
    &&& rule_lookup(after.world.game_rules@, key) == Some(value)
    &&& forall|k: Seq<char>| k != key ==> rule_lookup(after.world.game_rules@, k) == rule_lookup(before.world.game_rules@, k)
    &&& after.world == (WorldState { game_rules: after.world.game_rules, ..before.world })
}

/// What running command `k` does: `before` becomes `after` and the reply
/// is `r`.
pub open spec fn command_rel(k: CommandKind, ctx: CommandContext, before: ServerData, after: ServerData, r: ReplyView) -> bool {
    let a = arg_views(ctx);
    match k {
        CommandKind::Help => after == before && r == Ok::<Seq<char>, Seq<char>>(
            crate::text::joined(help_lines(ctx), "\n"@)),
        CommandKind::Msg => only_events_added(before, after, msg_outcome(ctx).1) && r == msg_outcome(ctx).0,
        CommandKind::Me => only_events_added(before, after, me_outcome(ctx).1) && r == me_outcome(ctx).0,
        CommandKind::Op => only_events_added(before, after, op_outcome(ctx, true).1) && r == op_outcome(ctx, true).0,
        CommandKind::Deop => only_events_added(before, after, op_outcome(ctx, false).1) && r == op_outcome(ctx, false).0,
        CommandKind::Stop => only_events_added(before, after,
            seq![server_chat("Server is shutting down..."@), crate::commands::context::EventView::Shutdown])
            && r == Ok::<Seq<char>, Seq<char>>("Stopping server..."@),
        CommandKind::Kick => only_events_added(before, after, kick_outcome(ctx).1) && r == kick_outcome(ctx).0,
        CommandKind::Ban => only_events_added(before, after, ban_outcome(ctx).1) && r == ban_outcome(ctx).0,
        CommandKind::Pardon => only_events_added(before, after, pardon_outcome(ctx).1) && r == pardon_outcome(ctx).0,
        CommandKind::Banlist => after == before && r == Ok::<Seq<char>, Seq<char>>(banlist_reply(ctx)),
        CommandKind::Whitelist => only_events_added(before, after, whitelist_outcome(ctx).1)
            && r == whitelist_outcome(ctx).0,
        CommandKind::Transfer => only_events_added(before, after, transfer_outcome(ctx).1)
            && r == transfer_outcome(ctx).0,
        CommandKind::Reload => only_world_changed(before, after) && r == reload_step(a, before.world).0
            && after.world == reload_step(a, before.world).1,
        CommandKind::SaveAll => if ctx.save_available {
            only_events_added(before, after, seq![crate::commands::context::EventView::Save])
                && r == Ok::<Seq<char>, Seq<char>>("Save triggered — all chunks and player data will be saved"@)
        } else {
            after == before && r == Err::<Seq<char>, Seq<char>>("Save trigger not available (console-only command)"@)
        },
        CommandKind::Gamemode => only_events_added(before, after, gamemode_outcome(ctx).1)
            && r == gamemode_outcome(ctx).0,
        CommandKind::DefaultGamemode => {
            &&& after.wf()
            &&& after.scoreboard == before.scoreboard
            &&& after.teams == before.teams
            &&& r == defaultgamemode_step(a, before.world).0
            &&& after.world == defaultgamemode_step(a, before.world).1
            &&& event_views(after.events@) == event_views(before.events@) + defaultgamemode_step(a, before.world).2
        },
        CommandKind::Give => only_events_added(before, after, give_outcome(ctx).1) && r == give_outcome(ctx).0,
        CommandKind::Kill => only_events_added(before, after, kill_outcome(ctx).1) && r == kill_outcome(ctx).0,
        CommandKind::Time => only_world_changed(before, after) && r == time_step(a, before.world).0
            && after.world == time_step(a, before.world).1,
        CommandKind::Weather => only_world_changed(before, after) && r == weather_step(a, before.world).0
            && after.world == weather_step(a, before.world).1,
        CommandKind::Difficulty => only_world_changed(before, after) && r == difficulty_step(a, before.world).0
            && after.world == difficulty_step(a, before.world).1,
        CommandKind::Tick => only_world_changed(before, after) && r == tick_step(a, before.world).0
            && after.world == tick_step(a, before.world).1,
        CommandKind::Gamerule => {
            &&& only_world_changed(before, after)
            &&& r == gamerule_step(a, before.world)
            &&& a.len() > 1 ==> rule_set(before, after, a[0], a[1])
            &&& a.len() <= 1 ==> after.world == before.world
        },
        CommandKind::List => after == before && r == Ok::<Seq<char>, Seq<char>>(list_reply(ctx)),
        CommandKind::Seed => after == before
            && r == Ok::<Seq<char>, Seq<char>>("Seed: "@ + crate::text::decimal(before.world.seed as nat)),
        CommandKind::Say => only_events_added(before, after, say_outcome(ctx).1) && r == say_outcome(ctx).0,
        CommandKind::Status => after == before
            && r == Ok::<Seq<char>, Seq<char>>(status_reply(ctx, before.world.time)),
        CommandKind::Scoreboard => {
            let (reply, objs, scores, evs) = scoreboard_step(
                a,
                before.scoreboard.objectives_view(),
                before.scoreboard.objective_order(),
                before.scoreboard.scores_view(),
            );
            &&& after.wf()
            &&& after.world == before.world
            &&& after.teams == before.teams
            &&& r == reply
            &&& after.scoreboard.objectives_view() == objs
            &&& after.scoreboard.scores_view() == scores
            &&& event_views(after.events@) == event_views(before.events@) + evs
        },
        CommandKind::Forceload => {
            &&& only_world_changed(before, after)
            &&& r == forceload_reply(a, before.world)
            &&& after.world.force_loaded@ == forceload_set(a, before.world.force_loaded@)
            &&& after.world == (WorldState { force_loaded: after.world.force_loaded, ..before.world })
        },
        CommandKind::SaveOn => rule_set(before, after, "doSave"@, "true"@)
            && r == Ok::<Seq<char>, Seq<char>>("Automatic saving enabled"@),
        CommandKind::SaveOff => rule_set(before, after, "doSave"@, "false"@)
            && r == Ok::<Seq<char>, Seq<char>>("Automatic saving disabled"@),
        CommandKind::Publish => rule_set(before, after, "lan_enabled"@, "true"@)
            && r == Ok::<Seq<char>, Seq<char>>("LAN broadcast enabled on port "@
                + crate::text::decimal(publish_port(a) as nat) + " (multicast 224.0.2.60:4445)"@),
        CommandKind::Debug => only_world_changed(before, after) && r == debug_step(a, before.world).0
            && after.world == debug_step(a, before.world).1,
        CommandKind::Fillbiome => after == before && r == fillbiome_reply(a),
        CommandKind::Recipe => after == before && r == Ok::<Seq<char>, Seq<char>>(recipe_reply(a)),
        CommandKind::Data => after == before && r == Ok::<Seq<char>, Seq<char>>(data_reply(a)),
        CommandKind::Trigger => {
            let (reply, scores) = trigger_outcome(ctx, before.scoreboard.objectives_view(),
                before.scoreboard.scores_view());
            &&& after.wf()
            &&& after.world == before.world
            &&& after.teams == before.teams
            &&& after.events == before.events
            &&& after.scoreboard.objectives_view() == before.scoreboard.objectives_view()
            &&& r == reply
            &&& after.scoreboard.scores_view() == scores
        },
        CommandKind::Team => {
            let (reply, teams, pt, evs) = team_outcome(ctx, before.teams@, before.teams.player_teams(),
                before.teams.team_order());
            &&& after.wf()
            &&& after.world == before.world
            &&& after.scoreboard == before.scoreboard
            &&& r == reply
            &&& after.teams@ == teams
            &&& after.teams.player_teams() == pt
            &&& event_views(after.events@) == event_views(before.events@) + evs
        },
        CommandKind::Title => only_events_added(before, after, title_outcome(ctx).1) && r == title_outcome(ctx).0,
        CommandKind::Clear => only_events_added(before, after, clear_outcome(ctx).1) && r == clear_outcome(ctx).0,
        CommandKind::Stopsound => only_events_added(before, after, stopsound_outcome(ctx).1)
            && r == stopsound_outcome(ctx).0,
        CommandKind::Spectate => only_events_added(before, after, spectate_outcome(ctx).1)
            && r == spectate_outcome(ctx).0,
        CommandKind::Ride => only_events_added(before, after, ride_outcome(ctx).1) && r == ride_outcome(ctx).0,
        CommandKind::Attribute => after == before && r == attribute_reply(ctx),
        CommandKind::Item => only_events_added(before, after, item_outcome(ctx).1) && r == item_outcome(ctx).0,
        CommandKind::Xp => only_events_added(before, after, xp_outcome(ctx).1) && r == xp_outcome(ctx).0,
        CommandKind::Setblock => only_events_added(before, after, setblock_outcome(ctx).1)
            && r == setblock_outcome(ctx).0,
        CommandKind::Fill => only_events_added(before, after, fill_outcome(ctx).1) && r == fill_outcome(ctx).0,
        CommandKind::Clone => only_events_added(before, after, clone_outcome(ctx).1) && r == clone_outcome(ctx).0,
        CommandKind::Playsound => only_events_added(before, after, playsound_outcome(ctx).1)
            && r == playsound_outcome(ctx).0,
        CommandKind::Execute => after == before && r == execute_alone_reply(ctx),
    }
}

impl CommandKind {
    pub fn name(self) -> (r: &'static str)
        ensures
            r@ == kind_name(self),
    {
        match self {
            CommandKind::Help => "help",
            CommandKind::Msg => "msg",
            CommandKind::Me => "me",
            CommandKind::Op => "op",
            CommandKind::Deop => "deop",
            CommandKind::Stop => "stop",
            CommandKind::Kick => "kick",
            CommandKind::Ban => "ban",
            CommandKind::Pardon => "pardon",
            CommandKind::Banlist => "banlist",
            CommandKind::Whitelist => "whitelist",
            CommandKind::Transfer => "transfer",
            CommandKind::Reload => "reload",
            CommandKind::SaveAll => "save-all",
            CommandKind::Gamemode => "gamemode",
            CommandKind::DefaultGamemode => "defaultgamemode",
            CommandKind::Give => "give",
            CommandKind::Kill => "kill",
            CommandKind::Time => "time",
            CommandKind::Weather => "weather",
            CommandKind::Difficulty => "difficulty",
            CommandKind::Tick => "tick",
            CommandKind::Gamerule => "gamerule",
            CommandKind::List => "list",
            CommandKind::Seed => "seed",
            CommandKind::Say => "say",
            CommandKind::Status => "status",
            CommandKind::Scoreboard => "scoreboard",
            CommandKind::Forceload => "forceload",
            CommandKind::SaveOn => "save-on",
            CommandKind::SaveOff => "save-off",
            CommandKind::Publish => "publish",
            CommandKind::Debug => "debug",
            CommandKind::Fillbiome => "fillbiome",
            CommandKind::Recipe => "recipe",
            CommandKind::Data => "data",
            CommandKind::Trigger => "trigger",
            CommandKind::Team => "team",
            CommandKind::Title => "title",
            CommandKind::Clear => "clear",
            CommandKind::Stopsound => "stopsound",
            CommandKind::Spectate => "spectate",
            CommandKind::Ride => "ride",
            CommandKind::Attribute => "attribute",
            CommandKind::Item => "item",
            CommandKind::Xp => "xp",
            CommandKind::Setblock => "setblock",
            CommandKind::Fill => "fill",
            CommandKind::Clone => "clone",
            CommandKind::Playsound => "playsound",
            CommandKind::Execute => "execute",
        }
    }

    pub fn description(self) -> (r: &'static str)
        ensures
            r@ == kind_description(self),
    {
        match self {
            CommandKind::Help => "Show available commands",
            CommandKind::Msg => "Send a private message to a player",
            CommandKind::Me => "Broadcast an action to all players",
            CommandKind::Op => "Grant operator status",
            CommandKind::Deop => "Revoke operator status",
            CommandKind::Stop => "Stop the server",
            CommandKind::Kick => "Kick a player from the server",
            CommandKind::Ban => "Ban a player from the server",
            CommandKind::Pardon => "Unban a player",
            CommandKind::Banlist => "List all banned players",
            CommandKind::Whitelist => "Manage the server whitelist",
            CommandKind::Transfer => "Transfer a player to another server",
            CommandKind::Reload => "Reload server configuration (difficulty, motd) from disk",
            CommandKind::SaveAll => "Save all world and player data immediately",
            CommandKind::Gamemode => "Change player game mode",
            CommandKind::DefaultGamemode => "Set the default game mode for new players",
            CommandKind::Give => "Give items to a player",
            CommandKind::Kill => "Kill a player or entity",
            CommandKind::Time => "Query or change world time",
            CommandKind::Weather => "Set the weather",
            CommandKind::Difficulty => "Set the difficulty level",
            CommandKind::Tick => "Control server tick rate",
            CommandKind::Gamerule => "View or set game rules",
            CommandKind::List => "List online players",
            CommandKind::Seed => "Show the world seed",
            CommandKind::Say => "Broadcast a message to all players",
            CommandKind::Status => "Show server status",
            CommandKind::Scoreboard => "Manage scoreboard objectives and scores",
            CommandKind::Forceload => "Force chunks to stay loaded",
            CommandKind::SaveOn => "Enable automatic saving",
            CommandKind::SaveOff => "Disable automatic saving",
            CommandKind::Publish => "Open to LAN",
            CommandKind::Debug => "Start/stop debugging",
            CommandKind::Fillbiome => "Fill biome in an area (sets biome ID in chunks)",
            CommandKind::Recipe => "Give or take recipes from players",
            CommandKind::Data => "Get/modify NBT data (entity/block supported)",
            CommandKind::Trigger => "Trigger a scoreboard objective (add/set value)",
            CommandKind::Team => "Manage teams",
            CommandKind::Title => "Send a title/subtitle/actionbar to players",
            CommandKind::Clear => "Clear items from player inventory",
            CommandKind::Stopsound => "Stop a playing sound",
            CommandKind::Spectate => "Enter spectator mode and spectate a target",
            CommandKind::Ride => "Make entities ride others (mount/dismount)",
            CommandKind::Attribute => "Query or modify entity attributes",
            CommandKind::Item => "Modify items in entity inventory",
            CommandKind::Xp => "Manage player experience (add/set/query)",
            CommandKind::Setblock => "Place a block at coordinates",
            CommandKind::Fill => "Fill a region with blocks",
            CommandKind::Clone => "Clone blocks from one region to another",
            CommandKind::Playsound => "Play a sound effect for players",
            CommandKind::Execute => "Execute a command on behalf of/at other entities",
        }
    }

    pub fn aliases(self) -> (r: Vec<&'static str>)
        ensures
            r@.map_values(|s: &'static str| s@) == kind_aliases(self),
    {
        let r = match self {
            CommandKind::Help => HelpCommand.aliases(),
            CommandKind::Msg => MsgCommand.aliases(),
            CommandKind::Xp => XpCommand.aliases(),
            _ => Vec::new(),
        };
        assert(r@.map_values(|s: &'static str| s@) =~= kind_aliases(self));
        r
    }

    /// Whether `execute` may run on these arguments.
    pub fn in_range(self, ctx: &CommandContext, server: &ServerData) -> (r: bool)
        requires
            server.wf(),
        ensures
            r == kind_in_range(self, *ctx, *server),
    {
        match self {
            CommandKind::Scoreboard => ScoreboardCommand.in_range(ctx, server),
            CommandKind::Fillbiome => FillbiomeCommand.in_range(ctx),
            CommandKind::Trigger => TriggerCommand.in_range(ctx, server),
            CommandKind::Item => ctx.args.len() != 5,
            CommandKind::Xp => XpCommand.in_range(ctx),
            CommandKind::Fill => FillCommand.in_range(ctx),
            CommandKind::Clone => CloneCommand.in_range(ctx),
            _ => true,
        }
    }

    pub fn execute(self, ctx: &CommandContext, server: &mut ServerData) -> (r: CommandResult)
        requires
            old(server).wf(),
            kind_in_range(self, *ctx, *old(server)),
        ensures
            command_rel(self, *ctx, *old(server), *final(server), reply_view(r)),
            final(server).wf(),
    {
        match self {
            CommandKind::Help => HelpCommand.execute(ctx, server),
            CommandKind::Msg => MsgCommand.execute(ctx, server),
            CommandKind::Me => MeCommand.execute(ctx, server),
            CommandKind::Op => OpCommand.execute(ctx, server),
            CommandKind::Deop => DeopCommand.execute(ctx, server),
            CommandKind::Stop => StopCommand.execute(ctx, server),
            CommandKind::Kick => KickCommand.execute(ctx, server),
            CommandKind::Ban => BanCommand.execute(ctx, server),
            CommandKind::Pardon => PardonCommand.execute(ctx, server),
            CommandKind::Banlist => BanlistCommand.execute(ctx, server),
            CommandKind::Whitelist => WhitelistCommand.execute(ctx, server),
            CommandKind::Transfer => TransferCommand.execute(ctx, server),
            CommandKind::Reload => ReloadCommand.execute(ctx, server),
            CommandKind::SaveAll => SaveAllCommand.execute(ctx, server),
            CommandKind::Gamemode => GamemodeCommand.execute(ctx, server),
            CommandKind::DefaultGamemode => DefaultGamemodeCommand.execute(ctx, server),
            CommandKind::Give => GiveCommand.execute(ctx, server),
            CommandKind::Kill => KillCommand.execute(ctx, server),
            CommandKind::Time => TimeCommand.execute(ctx, server),
            CommandKind::Weather => WeatherCommand.execute(ctx, server),
            CommandKind::Difficulty => DifficultyCommand.execute(ctx, server),
            CommandKind::Tick => TickCommand.execute(ctx, server),
            CommandKind::Gamerule => GameruleCommand.execute(ctx, server),
            CommandKind::List => ListCommand.execute(ctx, server),
            CommandKind::Seed => SeedCommand.execute(ctx, server),
            CommandKind::Say => SayCommand.execute(ctx, server),
            CommandKind::Status => StatusCommand.execute(ctx, server),
            CommandKind::Scoreboard => ScoreboardCommand.execute(ctx, server),
            CommandKind::Forceload => ForceloadCommand.execute(ctx, server),
            CommandKind::SaveOn => SaveOnCommand.execute(ctx, server),
            CommandKind::SaveOff => SaveOffCommand.execute(ctx, server),
            CommandKind::Publish => PublishCommand.execute(ctx, server),
            CommandKind::Debug => DebugCommand.execute(ctx, server),
            CommandKind::Fillbiome => FillbiomeCommand.execute(ctx, server),
            CommandKind::Recipe => RecipeCommand.execute(ctx, server),
            CommandKind::Data => DataCommand.execute(ctx, server),
            CommandKind::Trigger => TriggerCommand.execute(ctx, server),
            CommandKind::Team => TeamCommand.execute(ctx, server),
            CommandKind::Title => TitleCommand.execute(ctx, server),
            CommandKind::Clear => ClearCommand.execute(ctx, server),
            CommandKind::Stopsound => StopsoundCommand.execute(ctx, server),
            CommandKind::Spectate => SpectateCommand.execute(ctx, server),
            CommandKind::Ride => RideCommand.execute(ctx, server),
            CommandKind::Attribute => AttributeCommand.execute(ctx),
            CommandKind::Item => ItemCommand.execute(ctx, server),
            CommandKind::Xp => XpCommand.execute(ctx, server),
            CommandKind::Setblock => SetblockCommand.execute(ctx, server),
            CommandKind::Fill => FillCommand.execute(ctx, server),
            CommandKind::Clone => CloneCommand.execute(ctx, server),
            CommandKind::Playsound => PlaysoundCommand.execute(ctx, server),
            CommandKind::Execute => ExecuteCommand.execute(ctx),
        }
    }
}

/// Registered commands by lower-cased name, and aliases.
pub struct CommandDispatcher {
    commands: Table<String, CommandKind>,
    aliases: Table<String, String>,
}

impl CommandDispatcher {
    /// Commands by lower-cased name.
    pub closed spec fn commands_view(&self) -> Map<Seq<char>, CommandKind> {
        self.commands.map()
    }

    /// Canonical (lower-cased) name for each lower-cased alias.
    pub closed spec fn aliases_view(&self) -> Map<Seq<char>, Seq<char>> {
        self.aliases.map().map_values(|s: String| s@)
    }

    /// Registered names in registration order.
    pub closed spec fn command_order(&self) -> Seq<Seq<char>> {
        self.commands.keys()
    }

    pub closed spec fn wf(&self) -> bool {
        self.commands.wf() && self.aliases.wf()
    }

    pub fn new() -> (r: CommandDispatcher)
        ensures
            r.wf(),
            r.commands_view() == Map::<Seq<char>, CommandKind>::empty(),
            r.aliases_view() == Map::<Seq<char>, Seq<char>>::empty(),
    {
        let r = CommandDispatcher { commands: Table::new(), aliases: Table::new() };
        assert(r.aliases_view() =~= Map::<Seq<char>, Seq<char>>::empty());
        r
    }

    /// Registers a command under its lower-cased name and its lower-cased
    /// aliases (a later registration replaces an earlier one). Its name, and
    /// each alias that is not itself a command's name, then select it.
    pub fn register(&mut self, command: CommandKind)
        requires
            old(self).wf(),
        ensures
            final(self).wf(),
            final(self).commands_view() == old(self).commands_view().insert(lowercase(kind_name(command)), command),
            forall|k: Seq<char>| #[trigger] final(self).aliases_view().contains_key(k) ==
                (old(self).aliases_view().contains_key(k)
                    || exists|j: int| 0 <= j < kind_aliases(command).len() && lowercase(#[trigger] kind_aliases(command)[j]) == k),
            forall|j: int| 0 <= j < kind_aliases(command).len() ==>
                final(self).aliases_view()[lowercase(#[trigger] kind_aliases(command)[j])] == lowercase(kind_name(command)),
            forall|k: Seq<char>| old(self).aliases_view().contains_key(k)
                && !(exists|j: int| 0 <= j < kind_aliases(command).len() && lowercase(#[trigger] kind_aliases(command)[j]) == k)
                ==> #[trigger] final(self).aliases_view()[k] == old(self).aliases_view()[k],
            final(self).selected(kind_name(command)) == Some(command),
            forall|j: int| 0 <= j < kind_aliases(command).len()
                && !final(self).commands_view().contains_key(lowercase(#[trigger] kind_aliases(command)[j]))
                ==> final(self).selected(kind_aliases(command)[j]) == Some(command),
            final(self).aliases_view() == with_aliases(old(self).aliases_view(), kind_aliases(command),
                lowercase(kind_name(command))),
    {
        let name = to_lowercase(command.name());
        let aliases = command.aliases();
        let ghost av = aliases@.map_values(|s: &'static str| s@);
        let ghost a0 = self.aliases_view();
        let mut i: usize = 0;
        while i < aliases.len()
            invariant
                i <= aliases@.len(),
                av == aliases@.map_values(|s: &'static str| s@),
                av == kind_aliases(command),
                name@ == lowercase(kind_name(command)),
                self.wf(),
                self.commands == old(self).commands,
                forall|k: Seq<char>| #[trigger] self.aliases_view().contains_key(k) ==
                    (a0.contains_key(k) || exists|j: int| 0 <= j < i && lowercase(#[trigger] kind_aliases(command)[j]) == k),
                forall|j: int| 0 <= j < i ==> #[trigger] self.aliases_view()[lowercase(kind_aliases(command)[j])] == name@,
                forall|k: Seq<char>| a0.contains_key(k)
                    && !(exists|j: int| 0 <= j < i && lowercase(#[trigger] kind_aliases(command)[j]) == k)
                    ==> #[trigger] self.aliases_view()[k] == a0[k],
                self.aliases_view() == with_aliases(a0, kind_aliases(command).take(i as int), name@),
            decreases aliases@.len() - i,
        {
            let alias = to_lowercase(aliases[i]);
            let ghost before = self.aliases_view();
            let target = name.clone();
            self.aliases.insert(alias, target);
            proof {
                assert(av[i as int] == aliases@[i as int]@);
                assert(kind_aliases(command)[i as int] == av[i as int]);
                assert(self.aliases_view() =~= before.insert(lowercase(kind_aliases(command)[i as int]), name@));
                assert(kind_aliases(command).take(i + 1).drop_last() =~= kind_aliases(command).take(i as int));
                assert forall|k: Seq<char>| #[trigger] self.aliases_view().contains_key(k) ==
                    (a0.contains_key(k) || exists|j: int| 0 <= j < i + 1 && lowercase(#[trigger] kind_aliases(command)[j]) == k) by {
                    if k == lowercase(kind_aliases(command)[i as int]) {
                        assert(0 <= i < i + 1 && lowercase(kind_aliases(command)[i as int]) == k);
                    }
                    if exists|j: int| 0 <= j < i + 1 && lowercase(#[trigger] kind_aliases(command)[j]) == k {
                        let j = choose|j: int| 0 <= j < i + 1 && lowercase(#[trigger] kind_aliases(command)[j]) == k;
                        if j < i {
                            assert(0 <= j < i && lowercase(kind_aliases(command)[j]) == k);
                        }
                    }
                }
                assert forall|j: int| 0 <= j < i + 1 implies #[trigger] self.aliases_view()[lowercase(kind_aliases(command)[j])] == name@ by {
                    if j < i {
                        assert(before[lowercase(kind_aliases(command)[j])] == name@);
                    }
                }
                assert forall|k: Seq<char>| a0.contains_key(k)
                    && !(exists|j: int| 0 <= j < i + 1 && lowercase(#[trigger] kind_aliases(command)[j]) == k)
                    implies #[trigger] self.aliases_view()[k] == a0[k] by {
                    assert(!(0 <= i < i + 1 && lowercase(kind_aliases(command)[i as int]) == k));
                    assert(!(exists|j: int| 0 <= j < i && lowercase(#[trigger] kind_aliases(command)[j]) == k));
                }
            }
            i = i + 1;
        }
        proof {
            assert(i == kind_aliases(command).len());
            assert(a0 == old(self).aliases_view());
            assert(kind_aliases(command).take(i as int) =~= kind_aliases(command));
        }
        let ghost after_loop = self.aliases_view();
        self.commands.insert(name, command);
        assert(self.aliases_view() == after_loop);
    }

    /// The registered name an input name (any case) refers to, directly or
    /// through an alias.
    pub open spec fn resolve_spec(&self, name: Seq<char>) -> Option<Seq<char>> {
        let lower = lowercase(name);
        if self.commands_view().contains_key(lower) {
            Some(lower)
        } else if self.aliases_view().contains_key(lower) {
            Some(self.aliases_view()[lower])
        } else {
            None
        }
    }

    pub fn resolve_name(&self, name: &str) -> (r: Option<String>)
        requires
            self.wf(),
        ensures
            match r {
                Some(s) => self.resolve_spec(name@) == Some(s@),
                None => self.resolve_spec(name@) is None,
            },
    {
        let lower = to_lowercase(name);
        if self.commands.contains(&lower) {
            Some(lower)
        } else {
            match self.aliases.index_of(&lower) {
                Some(i) => Some(self.aliases.value_at(i).clone()),
                None => None,
            }
        }
    }

    /// The command an input name selects.
    pub open spec fn selected(&self, name: Seq<char>) -> Option<CommandKind> {
        match self.resolve_spec(name) {
            Some(n) => if self.commands_view().contains_key(n) { Some(self.commands_view()[n]) } else { None },
            None => None,
        }
    }

    fn lookup(&self, name: &str) -> (r: Option<CommandKind>)
        requires
            self.wf(),
        ensures
            r == self.selected(name@),
    {
        match self.resolve_name(name) {
            Some(n) => match self.commands.index_of(&n) {
                Some(i) => Some(*self.commands.value_at(i)),
                None => None,
            },
            None => None,
        }
    }

    /// What dispatching `ctx` does: no arguments is an error; an unknown
    /// name is an error naming it; `/execute` runs its plan through this
    /// dispatcher; any other command runs on the remaining arguments,
    /// inside the range where it does not overflow.
    pub open spec fn dispatch_rel(&self, ctx: CommandContext, before: ServerData, after: ServerData, r: ReplyView) -> bool
        decreases arg_views(ctx).len(), 2int, 0int,
    {
        if arg_views(ctx).len() == 0 {
            after == before && r == Err::<Seq<char>, Seq<char>>("No command specified"@)
        } else {
            match self.selected(arg_views(ctx)[0]) {
                Some(CommandKind::Execute) => exists|c: CommandContext|
                    #[trigger] is_sub_context(ctx, c) && execute_rel(*self, c, before, after, r),
                Some(k) => exists|c: CommandContext|
                    #[trigger] is_sub_context(ctx, c) && kind_in_range(k, c, before) && command_rel(k, c, before, after, r),
                None => after == before && r == Err::<Seq<char>, Seq<char>>("Unknown command: /"@ + lowercase(arg_views(ctx)[0])),
            }
        }
    }

    /// Whether dispatching `ctx` on `s` never reaches a command on inputs
    /// where it would overflow.
    pub open spec fn dispatch_ok(&self, ctx: CommandContext, s: ServerData) -> bool
        decreases arg_views(ctx).len(), 2int, 0int,
    {
        if arg_views(ctx).len() == 0 {
            true
        } else {
            match self.selected(arg_views(ctx)[0]) {
                Some(CommandKind::Execute) => forall|c: CommandContext|
                    #[trigger] is_sub_context(ctx, c) ==> execute_ok(*self, c, s),
                Some(k) => forall|c: CommandContext| #[trigger] is_sub_context(ctx, c) ==> kind_in_range(k, c, s),
                None => true,
            }
        }
    }

    /// Runs the command named by the first argument with the remaining
    /// arguments. `None` when a command it reaches would overflow; what
    /// ran before that command stays done.
    pub fn dispatch_checked(&self, ctx: &CommandContext, server: &mut ServerData) -> (r: Option<CommandResult>)
        requires
            self.wf(),
            old(server).wf(),
        ensures
            final(server).wf(),
            match r {
                Some(res) => self.dispatch_rel(*ctx, *old(server), *final(server), reply_view(res)),
                None => !self.dispatch_ok(*ctx, *old(server)),
            },
        decreases arg_views(*ctx).len(), 2int,
    {
        if ctx.args.len() == 0 {
            return Some(Err(String::from_str("No command specified")));
        }
        proof { assert(arg_views(*ctx)[0] == ctx.args@[0]@); }
        let cmd_name = to_lowercase(ctx.args[0].as_str());
        match self.lookup(ctx.args[0].as_str()) {
            Some(CommandKind::Execute) => {
                let sub = sub_context_of(ctx);
                self.run_execute(&sub, server)
            },
            Some(k) => {
                let sub = sub_context_of(ctx);
                if !k.in_range(&sub, server) {
                    return None;
                }
                Some(k.execute(&sub, server))
            },
            None => {
                let mut e = String::from_str("Unknown command: /");
                e.append(cmd_name.as_str());
                Some(Err(e))
            },
        }
    }

    /// Runs the command named by the first argument with the remaining
    /// arguments.
    pub fn dispatch(&self, ctx: &CommandContext, server: &mut ServerData) -> (r: CommandResult)
        requires
            self.wf(),
            old(server).wf(),
            self.dispatch_ok(*ctx, *old(server)),
        ensures
            self.dispatch_rel(*ctx, *old(server), *final(server), reply_view(r)),
            final(server).wf(),
    {
        match self.dispatch_checked(ctx, server) {
            Some(r) => r,
            None => Err(String::new()),
        }
    }

    /// Runs `/execute` (its arguments start with the modifier): the plan's
    /// commands run in turn through this dispatcher, each on the data the
    /// previous one left.
    #[verifier::rlimit(40)]
    pub fn run_execute(&self, ctx: &CommandContext, server: &mut ServerData) -> (r: Option<CommandResult>)
        requires
            self.wf(),
            old(server).wf(),
        ensures
            final(server).wf(),
            match r {
                Some(res) => execute_rel(*self, *ctx, *old(server), *final(server), reply_view(res)),
                None => !execute_ok(*self, *ctx, *old(server)),
            },
        decreases arg_views(*ctx).len(), 1int,
    {
        proof { lemma_plan_shrinks(*ctx); }
        match plan_execute(ctx) {
            ExecutePlan::Refused(e) => {
                proof { assert(execute_plan(*ctx) == PlanView::Refused(e@)); }
                Some(Err(e))
            },
            ExecutePlan::Positioned(args) => {
                let ghost av = views(args@);
                let c = moved_context_of(ctx, args);
                proof {
                    assert(execute_plan(*ctx) == PlanView::Positioned(av));
                    assert(moved_context(*ctx, av, c));
                    assert(arg_views(c).len() < arg_views(*ctx).len());
                }
                let r = self.dispatch_checked(&c, server);
                proof {
                    if r is Some {
                        assert(execute_rel(*self, *ctx, *old(server), *server, reply_view(r->0)));
                    } else {
                        assert(!execute_ok(*self, *ctx, *old(server)));
                    }
                }
                r
            },
            ExecutePlan::PerTarget { as_source, args, targets } => {
                let ghost av = views(args@);
                let ghost tv = targets_view(targets@);
                let ghost s0 = *server;
                let mut results: Vec<String> = Vec::new();
                let mut i: usize = 0;
                proof {
                    assert(views(results@) =~= Seq::<Seq<char>>::empty());
                    assert forall|after: ServerData, rest: Seq<Seq<char>>|
                        each_rel(*self, *ctx, as_source, av, tv, 0, *server, after, rest)
                        implies #[trigger] each_rel(*self, *ctx, as_source, av, tv, 0, s0, after, views(results@) + rest) by {
                        assert(views(results@) + rest =~= rest);
                    }
                }
                while i < targets.len()
                    invariant
                        self.wf(),
                        server.wf(),
                        i <= targets@.len(),
                        av == views(args@),
                        tv == targets_view(targets@),
                        av.len() < arg_views(*ctx).len(),
                        execute_plan(*ctx) == (PlanView::PerTarget { as_source, args: av, targets: tv }),
                        s0 == *old(server),
                        forall|after: ServerData, rest: Seq<Seq<char>>|
                            each_rel(*self, *ctx, as_source, av, tv, i as int, *server, after, rest)
                            ==> #[trigger] each_rel(*self, *ctx, as_source, av, tv, 0, s0, after, views(results@) + rest),
                        each_ok(*self, *ctx, as_source, av, tv, 0, s0)
                            ==> each_ok(*self, *ctx, as_source, av, tv, i as int, *server),
                    decreases targets@.len() - i,
                {
                    let ghost cur = *server;
                    let ghost before_results = views(results@);
                    let step = self.run_for_target(ctx, as_source, &args, &targets, i, server);
                    match step {
                        None => {
                            return None;
                        },
                        Some(None) => {},
                        Some(Some(res)) => {
                            let ghost mid = *server;
                            let ghost added = result_lines(targets@[i as int].1@, reply_view(res));
                            let line = result_line(targets[i].1.as_str(), &res);
                            match line {
                                Some(l) => results.push(l),
                                None => {},
                            }
                            proof {
                                assert(views(results@) =~= before_results + added);
                                assert forall|after: ServerData, rest: Seq<Seq<char>>|
                                    each_rel(*self, *ctx, as_source, av, tv, i + 1, mid, after, rest)
                                    implies #[trigger] each_rel(*self, *ctx, as_source, av, tv, 0, s0, after, views(results@) + rest) by {
                                    assert(each_rel(*self, *ctx, as_source, av, tv, i as int, cur, after, added + rest));
                                    assert(before_results + (added + rest) =~= views(results@) + rest);
                                }
                            }
                        },
                    }
                    i = i + 1;
                }
                proof {
                    lemma_each_end(*self, *ctx, as_source, av, tv, *server);
                    assert(views(results@) + Seq::<Seq<char>>::empty() =~= views(results@));
                    assert(each_rel(*self, *ctx, as_source, av, tv, 0, s0, *server, views(results@)));
                }
                let reply = if results.len() == 0 {
                    executed_count(as_source, targets.len())
                } else {
                    join(&results, "\n")
                };
                proof {
                    assert(reply@ == per_target_reply(as_source, tv.len(), views(results@)));
                    assert(execute_plan(*ctx) == (PlanView::PerTarget { as_source, args: av, targets: tv }));
                    lemma_execute_per_target(*self, *ctx, as_source, av, tv, s0, *server, views(results@));
                }
                Some(Ok(reply))
            },
        }
    }

    /// Runs the planned command for target `i` of a `PerTarget` plan:
    /// `None` when it would overflow, `Some(None)` when the target has no
    /// position to run at. What it does is one step of `each_rel`.
    fn run_for_target(
        &self,
        ctx: &CommandContext,
        as_source: bool,
        args: &Vec<String>,
        targets: &Vec<Target>,
        i: usize,
        server: &mut ServerData,
    ) -> (r: Option<Option<CommandResult>>)
        requires
            self.wf(),
            old(server).wf(),
            i < targets@.len(),
            args@.len() < arg_views(*ctx).len(),
        ensures
            final(server).wf(),
            r is None ==> !each_ok(*self, *ctx, as_source, views(args@), targets_view(targets@), i as int, *old(server)),
            r matches Some(None) ==> *final(server) == *old(server),
            r matches Some(Some(res)) ==> (forall|after: ServerData, rest: Seq<Seq<char>>|
                #[trigger] each_rel(*self, *ctx, as_source, views(args@), targets_view(targets@), i + 1, *final(server), after, rest)
                ==> each_rel(*self, *ctx, as_source, views(args@), targets_view(targets@), i as int, *old(server), after,
                    result_lines(targets@[i as int].1@, reply_view(res)) + rest)),
            r matches Some(None) ==> (forall|after: ServerData, rest: Seq<Seq<char>>|
                #[trigger] each_rel(*self, *ctx, as_source, views(args@), targets_view(targets@), i + 1, *final(server), after, rest)
                ==> each_rel(*self, *ctx, as_source, views(args@), targets_view(targets@), i as int, *old(server), after, rest)),
            r is Some ==> (each_ok(*self, *ctx, as_source, views(args@), targets_view(targets@), i as int, *old(server))
                ==> each_ok(*self, *ctx, as_source, views(args@), targets_view(targets@), i + 1, *final(server))),
        decreases arg_views(*ctx).len(), 0int,
    {
        let ghost av = views(args@);
        let ghost tv = targets_view(targets@);
        let ghost s0 = *server;
        let t = &targets[i];
        proof { assert(tv[i as int] == (t.0, t.1@)); }
        let sub_args = if as_source {
            Some(clone_strings(args))
        } else {
            match find_player(&ctx.players, t.0) {
                Some(p) => {
                    proof { lemma_player_pos(ctx.players@, t.0, p as int); }
                    Some(at_args_for(args, ctx.players[p].block_x, ctx.players[p].block_y))
                },
                None => None,
            }
        };
        match sub_args {
            None => {
                proof {
                    assert(player_pos(ctx.players@, t.0) is None);
                    lemma_each_skip(*self, *ctx, as_source, av, tv, i as int, s0);
                }
                Some(None)
            },
            Some(sa) => {
                let ghost sv = views(sa@);
                proof { assert(target_args(*ctx, as_source, av, tv[i as int]) == Some(sv)); }
                let c = target_context_of(ctx, as_source, sa, t);
                let r = self.dispatch_checked(&c, server);
                match r {
                    None => {
                        proof { lemma_each_fails(*self, *ctx, as_source, av, tv, i as int, c, s0); }
                        None
                    },
                    Some(res) => {
                        proof { lemma_each_step(*self, *ctx, as_source, av, tv, i as int, c, s0, *server, reply_view(res)); }
                        Some(Some(res))
                    },
                }
            },
        }
    }

    /// Names and descriptions of the registered commands, in registration
    /// order.
    pub fn command_info(&self) -> (r: Vec<(String, String)>)
        requires
            self.wf(),
        ensures
            info_views(r@) == registered_info(*self),
    {
        let mut out: Vec<(String, String)> = Vec::new();
        let mut i: usize = 0;
        proof { self.commands.lemma_positions(); }
        while i < self.commands.len()
            invariant
                i <= self.commands.size(),
                self.wf(),
                info_views(out@) == registered_info(*self).subrange(0, i as int),
            decreases self.commands.size() - i,
        {
            proof {
                self.commands.lemma_positions();
                assert(self.commands.map().contains_key(self.commands.key_at(i as int)));
                assert(self.command_order()[i as int] == self.commands.key_at(i as int));
            }
            let k = *self.commands.value_at(i);
            let ghost before = out@;
            let e = (String::from_str(k.name()), String::from_str(k.description()));
            out.push(e);
            proof {
                assert(out@ =~= before.push(e));
                assert(info_views(out@) =~= info_views(before).push((e.0@, e.1@)));
                assert(registered_info(*self).subrange(0, i + 1)
                    =~= registered_info(*self).subrange(0, i as int).push(registered_info(*self)[i as int]));
            }
            i = i + 1;
        }
        proof { assert(registered_info(*self).subrange(0, self.commands.size() as int) =~= registered_info(*self)); }
        out
    }

    /// The registered names.
    pub fn list_commands(&self) -> (r: Vec<String>)
        requires
            self.wf(),
        ensures
            r@.map_values(|s: String| s@) == self.command_order(),
    {
        let mut out: Vec<String> = Vec::new();
        let mut i: usize = 0;
        while i < self.commands.len()
            invariant
                i <= self.commands.size(),
                out@.map_values(|s: String| s@) == self.command_order().subrange(0, i as int),
            decreases self.commands.size() - i,
        {
            let ghost before = out@;
            let n = self.commands.key(i).clone();
            out.push(n);
            proof {
                assert(out@ =~= before.push(n));
                assert(out@.map_values(|s: String| s@) =~= before.map_values(|s: String| s@).push(n@));
                assert(self.command_order().subrange(0, i + 1)
                    =~= self.command_order().subrange(0, i as int).push(self.command_order()[i as int]));
            }
            i = i + 1;
        }
        proof { assert(self.command_order().subrange(0, self.commands.size() as int) =~= self.command_order()); }
        out
    }

    /// Runs one input line: surrounding white space and leading slashes are
    /// dropped and the rest is split at white space. `ctx` supplies
    /// everything but the arguments; the registered commands are listed for
    /// `/help`, and `/team` has no team manager here. `None` when a command
    /// the line reaches would overflow.
    pub fn dispatch_input_checked(&self, input: &str, ctx: &CommandContext, server: &mut ServerData) -> (r: Option<CommandResult>)
        requires
            self.wf(),
            old(server).wf(),
        ensures
            final(server).wf(),
            line_body(input@).len() == 0 ==> *final(server) == *old(server) && r is Some
                && reply_view(r->0) == Err::<Seq<char>, Seq<char>>("No command specified"@),
            line_body(input@).len() > 0 ==> exists|c: CommandContext| #[trigger] is_input_context(*self, input@, *ctx, c)
                && match r {
                    Some(res) => self.dispatch_rel(c, *old(server), *final(server), reply_view(res)),
                    None => !self.dispatch_ok(c, *old(server)),
                },
    {
        let t = trim(input);
        let body = strip_slashes(t.as_str());
        if body.unicode_len() == 0 {
            return Some(Err(String::from_str("No command specified")));
        }
        let full = self.input_context(body.as_str(), ctx);
        proof { assert(is_input_context(*self, input@, *ctx, full)); }
        self.dispatch_checked(&full, server)
    }

    /// Runs one input line as `dispatch_input_checked` does, on lines that
    /// reach no command on inputs where it would overflow.
    pub fn dispatch_input(&self, input: &str, ctx: &CommandContext, server: &mut ServerData) -> (r: CommandResult)
        requires
            self.wf(),
            old(server).wf(),
            forall|c: CommandContext| #[trigger] is_input_context(*self, input@, *ctx, c)
                ==> self.dispatch_ok(c, *old(server)),
        ensures
            final(server).wf(),
            line_body(input@).len() == 0 ==> *final(server) == *old(server)
                && reply_view(r) == Err::<Seq<char>, Seq<char>>("No command specified"@),
            line_body(input@).len() > 0 ==> exists|c: CommandContext| #[trigger] is_input_context(*self, input@, *ctx, c)
                && self.dispatch_rel(c, *old(server), *final(server), reply_view(r)),
    {
        match self.dispatch_input_checked(input, ctx, server) {
            Some(r) => r,
            None => Err(String::new()),
        }
    }

    /// The context `dispatch_input` runs a line body in.
    fn input_context(&self, body: &str, ctx: &CommandContext) -> (full: CommandContext)
        requires
            self.wf(),
        ensures
            arg_views(full) == words_spec(body@),
            same_environment(*ctx, full),
            !full.teams_available,
            info_opt_views(full.command_info) == Some(registered_info(*self)),
    {
        let parts = split_whitespace(body);
        CommandContext {
            source: clone_source(&ctx.source),
            args: parts,
            motd: ctx.motd.clone(),
            max_players: ctx.max_players,
            players: clone_players(&ctx.players),
            banned: clone_ids(&ctx.banned),
            nearest: ctx.nearest,
            random: ctx.random,
            save_available: ctx.save_available,
            teams_available: false,
            command_info: Some(self.command_info()),
            loaded_chunks: clone_loaded(&ctx.loaded_chunks),
        }
    }

    /// A dispatcher with every command of the library registered, in the
    /// order of `all_kinds`.
    pub fn with_all_commands() -> (r: CommandDispatcher)
        ensures
            r.wf(),
            r.commands_view() == registered_commands(all_kinds()),
            r.aliases_view() == registered_aliases(all_kinds()),
    {
        let kinds = all_kinds_vec();
        let mut d = CommandDispatcher::new();
        let mut i: usize = 0;
        proof {
            assert(kinds@.take(0) =~= Seq::<CommandKind>::empty());
            assert(d.aliases_view() =~= Map::<Seq<char>, Seq<char>>::empty());
        }
        while i < kinds.len()
            invariant
                i <= kinds@.len(),
                d.wf(),
                d.commands_view() == registered_commands(kinds@.take(i as int)),
                d.aliases_view() == registered_aliases(kinds@.take(i as int)),
            decreases kinds@.len() - i,
        {
            d.register(kinds[i]);
            proof {
                assert(kinds@.take(i + 1).drop_last() =~= kinds@.take(i as int));
                assert(kinds@.take(i + 1).last() == kinds@[i as int]);
            }
            i = i + 1;
        }
        proof { assert(kinds@.take(kinds@.len() as int) =~= kinds@); }
        d
    }
}

impl Default for CommandDispatcher {
    fn default() -> (r: CommandDispatcher)
        ensures
            r.wf(),
            r.commands_view() == Map::<Seq<char>, CommandKind>::empty(),
            r.aliases_view() == Map::<Seq<char>, Seq<char>>::empty(),
    {
        CommandDispatcher::new()
    }
}

/// `m` with each alias, lower-cased and in order, naming `target`.
pub open spec fn with_aliases(m: Map<Seq<char>, Seq<char>>, aliases: Seq<Seq<char>>, target: Seq<char>) -> Map<Seq<char>, Seq<char>>
    decreases aliases.len(),
{
    if aliases.len() == 0 {
        m
    } else {
        with_aliases(m, aliases.drop_last(), target).insert(lowercase(aliases.last()), target)
    }
}

/// Every command of the library, in the order `with_all_commands`
/// registers them.
pub open spec fn all_kinds() -> Seq<CommandKind> {
    seq![
        CommandKind::Help, CommandKind::Msg, CommandKind::Me, CommandKind::Op, CommandKind::Deop,
        CommandKind::Stop, CommandKind::Kick, CommandKind::Ban, CommandKind::Pardon, CommandKind::Banlist,
        CommandKind::Whitelist, CommandKind::Transfer, CommandKind::Reload, CommandKind::SaveAll,
        CommandKind::Gamemode, CommandKind::DefaultGamemode, CommandKind::Give, CommandKind::Kill,
        CommandKind::Time, CommandKind::Weather, CommandKind::Difficulty, CommandKind::Tick,
        CommandKind::Gamerule, CommandKind::List, CommandKind::Seed, CommandKind::Say, CommandKind::Status,
        CommandKind::Scoreboard, CommandKind::Forceload, CommandKind::SaveOn, CommandKind::SaveOff,
        CommandKind::Publish, CommandKind::Debug, CommandKind::Fillbiome, CommandKind::Recipe,
        CommandKind::Data, CommandKind::Trigger, CommandKind::Team, CommandKind::Title, CommandKind::Clear,
        CommandKind::Stopsound, CommandKind::Spectate, CommandKind::Ride, CommandKind::Attribute,
        CommandKind::Item, CommandKind::Xp, CommandKind::Setblock, CommandKind::Fill, CommandKind::Clone, CommandKind::Playsound,
        CommandKind::Execute,
    ]
}

/// Commands by lower-cased name after registering `ks` in order.
pub open spec fn registered_commands(ks: Seq<CommandKind>) -> Map<Seq<char>, CommandKind>
    decreases ks.len(),
{
    if ks.len() == 0 {
        Map::empty()
    } else {
        registered_commands(ks.drop_last()).insert(lowercase(kind_name(ks.last())), ks.last())
    }
}

/// Aliases after registering `ks` in order.
pub open spec fn registered_aliases(ks: Seq<CommandKind>) -> Map<Seq<char>, Seq<char>>
    decreases ks.len(),
{
    if ks.len() == 0 {
        Map::empty()
    } else {
        with_aliases(registered_aliases(ks.drop_last()), kind_aliases(ks.last()), lowercase(kind_name(ks.last())))
    }
}

fn push_kinds_0(v: &mut Vec<CommandKind>)
    ensures
        final(v)@ == old(v)@ + seq![CommandKind::Help, CommandKind::Msg, CommandKind::Me, CommandKind::Op, CommandKind::Deop, CommandKind::Stop, CommandKind::Kick, CommandKind::Ban, CommandKind::Pardon, CommandKind::Banlist],
{
    let ghost v0 = v@;
    v.push(CommandKind::Help);
    v.push(CommandKind::Msg);
    v.push(CommandKind::Me);
    v.push(CommandKind::Op);
    v.push(CommandKind::Deop);
    v.push(CommandKind::Stop);
    v.push(CommandKind::Kick);
    v.push(CommandKind::Ban);
    v.push(CommandKind::Pardon);
    v.push(CommandKind::Banlist);
    assert(v@ =~= v0 + seq![CommandKind::Help, CommandKind::Msg, CommandKind::Me, CommandKind::Op, CommandKind::Deop, CommandKind::Stop, CommandKind::Kick, CommandKind::Ban, CommandKind::Pardon, CommandKind::Banlist]);
}

fn push_kinds_1(v: &mut Vec<CommandKind>)
    ensures
        final(v)@ == old(v)@ + seq![CommandKind::Whitelist, CommandKind::Transfer, CommandKind::Reload, CommandKind::SaveAll, CommandKind::Gamemode, CommandKind::DefaultGamemode, CommandKind::Give, CommandKind::Kill, CommandKind::Time, CommandKind::Weather],
{
    let ghost v0 = v@;
    v.push(CommandKind::Whitelist);
    v.push(CommandKind::Transfer);
    v.push(CommandKind::Reload);
    v.push(CommandKind::SaveAll);
    v.push(CommandKind::Gamemode);
    v.push(CommandKind::DefaultGamemode);
    v.push(CommandKind::Give);
    v.push(CommandKind::Kill);
    v.push(CommandKind::Time);
    v.push(CommandKind::Weather);
    assert(v@ =~= v0 + seq![CommandKind::Whitelist, CommandKind::Transfer, CommandKind::Reload, CommandKind::SaveAll, CommandKind::Gamemode, CommandKind::DefaultGamemode, CommandKind::Give, CommandKind::Kill, CommandKind::Time, CommandKind::Weather]);
}

fn push_kinds_2(v: &mut Vec<CommandKind>)
    ensures
        final(v)@ == old(v)@ + seq![CommandKind::Difficulty, CommandKind::Tick, CommandKind::Gamerule, CommandKind::List, CommandKind::Seed, CommandKind::Say, CommandKind::Status, CommandKind::Scoreboard, CommandKind::Forceload, CommandKind::SaveOn],
{
    let ghost v0 = v@;
    v.push(CommandKind::Difficulty);
    v.push(CommandKind::Tick);
    v.push(CommandKind::Gamerule);
    v.push(CommandKind::List);
    v.push(CommandKind::Seed);
    v.push(CommandKind::Say);
    v.push(CommandKind::Status);
    v.push(CommandKind::Scoreboard);
    v.push(CommandKind::Forceload);
    v.push(CommandKind::SaveOn);
    assert(v@ =~= v0 + seq![CommandKind::Difficulty, CommandKind::Tick, CommandKind::Gamerule, CommandKind::List, CommandKind::Seed, CommandKind::Say, CommandKind::Status, CommandKind::Scoreboard, CommandKind::Forceload, CommandKind::SaveOn]);
}

fn push_kinds_3(v: &mut Vec<CommandKind>)
    ensures
        final(v)@ == old(v)@ + seq![CommandKind::SaveOff, CommandKind::Publish, CommandKind::Debug, CommandKind::Fillbiome, CommandKind::Recipe, CommandKind::Data, CommandKind::Trigger, CommandKind::Team, CommandKind::Title, CommandKind::Clear],
{
    let ghost v0 = v@;
    v.push(CommandKind::SaveOff);
    v.push(CommandKind::Publish);
    v.push(CommandKind::Debug);
    v.push(CommandKind::Fillbiome);
    v.push(CommandKind::Recipe);
    v.push(CommandKind::Data);
    v.push(CommandKind::Trigger);
    v.push(CommandKind::Team);
    v.push(CommandKind::Title);
    v.push(CommandKind::Clear);
    assert(v@ =~= v0 + seq![CommandKind::SaveOff, CommandKind::Publish, CommandKind::Debug, CommandKind::Fillbiome, CommandKind::Recipe, CommandKind::Data, CommandKind::Trigger, CommandKind::Team, CommandKind::Title, CommandKind::Clear]);
}

fn push_kinds_4(v: &mut Vec<CommandKind>)
    ensures
        final(v)@ == old(v)@ + seq![CommandKind::Stopsound, CommandKind::Spectate, CommandKind::Ride, CommandKind::Attribute, CommandKind::Item, CommandKind::Xp, CommandKind::Setblock, CommandKind::Fill, CommandKind::Clone, CommandKind::Playsound, CommandKind::Execute],
{
    let ghost v0 = v@;
    v.push(CommandKind::Stopsound);
    v.push(CommandKind::Spectate);
    v.push(CommandKind::Ride);
    v.push(CommandKind::Attribute);
    v.push(CommandKind::Item);
    v.push(CommandKind::Xp);
    v.push(CommandKind::Setblock);
    v.push(CommandKind::Fill);
    v.push(CommandKind::Clone);
    v.push(CommandKind::Playsound);
    v.push(CommandKind::Execute);
    assert(v@ =~= v0 + seq![CommandKind::Stopsound, CommandKind::Spectate, CommandKind::Ride, CommandKind::Attribute, CommandKind::Item, CommandKind::Xp, CommandKind::Setblock, CommandKind::Fill, CommandKind::Clone, CommandKind::Playsound, CommandKind::Execute]);
}

fn all_kinds_vec() -> (v: Vec<CommandKind>)
    ensures
        v@ == all_kinds(),
{
    let mut v: Vec<CommandKind> = Vec::new();
    push_kinds_0(&mut v);
    push_kinds_1(&mut v);
    push_kinds_2(&mut v);
    push_kinds_3(&mut v);
    push_kinds_4(&mut v);
    assert(v@ =~= all_kinds());
    v
}

/// Names and descriptions of the registered commands in order.
pub open spec fn registered_info(d: CommandDispatcher) -> Seq<(Seq<char>, Seq<char>)> {
    d.command_order().map_values(|n: Seq<char>|
        (kind_name(d.commands_view()[n]), kind_description(d.commands_view()[n])))
}

/// What running `/execute` through `d` does (`ctx`'s arguments start with
/// the modifier).
pub open spec fn execute_rel(d: CommandDispatcher, ctx: CommandContext, before: ServerData, after: ServerData, r: ReplyView) -> bool
    decreases arg_views(ctx).len(), 1int, 0int,
{
    match execute_plan(ctx) {
        PlanView::Refused(e) => after == before && r == Err::<Seq<char>, Seq<char>>(e),
        PlanView::PerTarget { as_source, args, targets } => per_target_rel(d, ctx, as_source, args, targets, before, after, r),
        PlanView::Positioned(args) => exists|c: CommandContext|
            #[trigger] moved_context(ctx, args, c) && arg_views(c).len() < arg_views(ctx).len()
            && d.dispatch_rel(c, before, after, r),
    }
}

/// What running a `PerTarget` plan does: its runs add lines, and the
/// reply is made of them.
pub open spec fn per_target_rel(
    d: CommandDispatcher,
    ctx: CommandContext,
    as_source: bool,
    args: Seq<Seq<char>>,
    targets: Seq<(u128, Seq<char>)>,
    before: ServerData,
    after: ServerData,
    r: ReplyView,
) -> bool
    decreases arg_views(ctx).len(), 0int, targets.len() + 1,
{
    exists|lines: Seq<Seq<char>>|
        each_rel(d, ctx, as_source, args, targets, 0, before, after, lines)
        && r == Ok::<Seq<char>, Seq<char>>(#[trigger] per_target_reply(as_source, targets.len(), lines))
}

/// What running a `PerTarget` plan from target `i` on does: each target
/// with a place to run at runs the command on the data the one before
/// left, and adds its reply line.
pub open spec fn each_rel(
    d: CommandDispatcher,
    ctx: CommandContext,
    as_source: bool,
    args: Seq<Seq<char>>,
    targets: Seq<(u128, Seq<char>)>,
    i: int,
    before: ServerData,
    after: ServerData,
    lines: Seq<Seq<char>>,
) -> bool
    decreases arg_views(ctx).len(), 0int, targets.len() - i,
{
    if i < 0 || i >= targets.len() {
        after == before && lines == Seq::<Seq<char>>::empty()
    } else {
        match target_args(ctx, as_source, args, targets[i]) {
            None => each_rel(d, ctx, as_source, args, targets, i + 1, before, after, lines),
            Some(sa) => exists|c: CommandContext, mid: ServerData, rr: ReplyView, rest: Seq<Seq<char>>|
                #![trigger target_context(ctx, as_source, sa, targets[i], c), mid.wf(), result_lines(targets[i].1, rr) + rest]
                target_context(ctx, as_source, sa, targets[i], c)
                && arg_views(c).len() < arg_views(ctx).len()
                && mid.wf()
                && d.dispatch_rel(c, before, mid, rr)
                && each_rel(d, ctx, as_source, args, targets, i + 1, mid, after, rest)
                && lines == result_lines(targets[i].1, rr) + rest,
        }
    }
}

/// Whether `/execute` through `d` on `s` never reaches a command on inputs
/// where it would overflow.
pub open spec fn execute_ok(d: CommandDispatcher, ctx: CommandContext, s: ServerData) -> bool
    decreases arg_views(ctx).len(), 1int, 0int,
{
    match execute_plan(ctx) {
        PlanView::Refused(_) => true,
        PlanView::PerTarget { as_source, args, targets } => each_ok(d, ctx, as_source, args, targets, 0, s),
        PlanView::Positioned(args) => forall|c: CommandContext|
            #[trigger] moved_context(ctx, args, c) && arg_views(c).len() < arg_views(ctx).len()
            ==> d.dispatch_ok(c, s),
    }
}

/// Whether a `PerTarget` plan from target `i` on, starting on `s`, never
/// reaches a command on inputs where it would overflow.
pub open spec fn each_ok(
    d: CommandDispatcher,
    ctx: CommandContext,
    as_source: bool,
    args: Seq<Seq<char>>,
    targets: Seq<(u128, Seq<char>)>,
    i: int,
    s: ServerData,
) -> bool
    decreases arg_views(ctx).len(), 0int, targets.len() - i,
{
    if i < 0 || i >= targets.len() {
        true
    } else {
        match target_args(ctx, as_source, args, targets[i]) {
            None => each_ok(d, ctx, as_source, args, targets, i + 1, s),
            Some(sa) => forall|c: CommandContext|
                #[trigger] target_context(ctx, as_source, sa, targets[i], c) && arg_views(c).len() < arg_views(ctx).len()
                ==> d.dispatch_ok(c, s) && forall|mid: ServerData, rr: ReplyView|
                    #![trigger mid.wf(), result_lines(targets[i].1, rr)]
                    mid.wf() && d.dispatch_rel(c, s, mid, rr) ==> each_ok(d, ctx, as_source, args, targets, i + 1, mid),
        }
    }
}

/// A `PerTarget` plan whose runs took `before` to `after` and added
/// `lines` replies with those lines.
proof fn lemma_execute_per_target(
    d: CommandDispatcher,
    ctx: CommandContext,
    as_source: bool,
    args: Seq<Seq<char>>,
    targets: Seq<(u128, Seq<char>)>,
    before: ServerData,
    after: ServerData,
    lines: Seq<Seq<char>>,
)
    requires
        execute_plan(ctx) == (PlanView::PerTarget { as_source, args, targets }),
        each_rel(d, ctx, as_source, args, targets, 0, before, after, lines),
    ensures
        execute_rel(d, ctx, before, after, Ok::<Seq<char>, Seq<char>>(per_target_reply(as_source, targets.len(), lines))),
{
    assert(per_target_rel(d, ctx, as_source, args, targets, before, after,
        Ok::<Seq<char>, Seq<char>>(per_target_reply(as_source, targets.len(), lines))));
}

/// A target with no place to run at adds nothing.
proof fn lemma_each_skip(
    d: CommandDispatcher,
    ctx: CommandContext,
    as_source: bool,
    args: Seq<Seq<char>>,
    targets: Seq<(u128, Seq<char>)>,
    i: int,
    cur: ServerData,
)
    requires
        0 <= i < targets.len(),
        target_args(ctx, as_source, args, targets[i]) is None,
    ensures
        forall|after: ServerData, rest: Seq<Seq<char>>|
            #[trigger] each_rel(d, ctx, as_source, args, targets, i + 1, cur, after, rest)
            ==> each_rel(d, ctx, as_source, args, targets, i, cur, after, rest),
        each_ok(d, ctx, as_source, args, targets, i, cur) ==> each_ok(d, ctx, as_source, args, targets, i + 1, cur),
{
}

/// A target whose command ran from `cur` to `mid` with reply `rr` adds its
/// line in front of what the later targets add.
proof fn lemma_each_step(
    d: CommandDispatcher,
    ctx: CommandContext,
    as_source: bool,
    args: Seq<Seq<char>>,
    targets: Seq<(u128, Seq<char>)>,
    i: int,
    c: CommandContext,
    cur: ServerData,
    mid: ServerData,
    rr: ReplyView,
)
    requires
        0 <= i < targets.len(),
        target_args(ctx, as_source, args, targets[i]) is Some,
        target_context(ctx, as_source, target_args(ctx, as_source, args, targets[i])->0, targets[i], c),
        arg_views(c).len() < arg_views(ctx).len(),
        mid.wf(),
        d.dispatch_rel(c, cur, mid, rr),
    ensures
        forall|after: ServerData, rest: Seq<Seq<char>>|
            #[trigger] each_rel(d, ctx, as_source, args, targets, i + 1, mid, after, rest)
            ==> each_rel(d, ctx, as_source, args, targets, i, cur, after, result_lines(targets[i].1, rr) + rest),
        each_ok(d, ctx, as_source, args, targets, i, cur) ==> each_ok(d, ctx, as_source, args, targets, i + 1, mid),
{
    let sa = target_args(ctx, as_source, args, targets[i])->0;
    assert forall|after: ServerData, rest: Seq<Seq<char>>|
        #[trigger] each_rel(d, ctx, as_source, args, targets, i + 1, mid, after, rest)
        implies each_rel(d, ctx, as_source, args, targets, i, cur, after, result_lines(targets[i].1, rr) + rest) by {
        assert(target_context(ctx, as_source, sa, targets[i], c) && mid.wf());
    }
    if each_ok(d, ctx, as_source, args, targets, i, cur) {
        assert(target_context(ctx, as_source, sa, targets[i], c) && mid.wf());
        assert(result_lines(targets[i].1, rr) == result_lines(targets[i].1, rr));
    }
}

/// A target whose command would overflow makes the plan overflow.
proof fn lemma_each_fails(
    d: CommandDispatcher,
    ctx: CommandContext,
    as_source: bool,
    args: Seq<Seq<char>>,
    targets: Seq<(u128, Seq<char>)>,
    i: int,
    c: CommandContext,
    cur: ServerData,
)
    requires
        0 <= i < targets.len(),
        target_args(ctx, as_source, args, targets[i]) is Some,
        target_context(ctx, as_source, target_args(ctx, as_source, args, targets[i])->0, targets[i], c),
        arg_views(c).len() < arg_views(ctx).len(),
        !d.dispatch_ok(c, cur),
    ensures
        !each_ok(d, ctx, as_source, args, targets, i, cur),
{
}

/// Past the last target nothing runs.
proof fn lemma_each_end(
    d: CommandDispatcher,
    ctx: CommandContext,
    as_source: bool,
    args: Seq<Seq<char>>,
    targets: Seq<(u128, Seq<char>)>,
    s: ServerData,
)
    ensures
        each_rel(d, ctx, as_source, args, targets, targets.len() as int, s, s, Seq::<Seq<char>>::empty()),
{
}

fn clone_strings(v: &Vec<String>) -> (r: Vec<String>)
    ensures
        views(r@) == views(v@),
{
    let mut out: Vec<String> = Vec::new();
    let mut i: usize = 0;
    while i < v.len()
        invariant
            i <= v@.len(),
            views(out@) == views(v@.subrange(0, i as int)),
        decreases v@.len() - i,
    {
        let ghost before = out@;
        let s = v[i].clone();
        out.push(s);
        proof {
            assert(out@ =~= before.push(s));
            assert(views(out@) =~= views(before).push(s@));
            assert(views(v@.subrange(0, i + 1))
                =~= views(v@.subrange(0, i as int)).push(v@[i as int]@));
        }
        i = i + 1;
    }
    proof { assert(v@.subrange(0, v@.len() as int) =~= v@); }
    out
}

/// `c` is `ctx` with its first argument taken off.
pub open spec fn is_sub_context(ctx: CommandContext, c: CommandContext) -> bool {
    &&& ctx.args@.len() > 0
    &&& arg_views(c) == arg_views(ctx).subrange(1, arg_views(ctx).len() as int)
    &&& same_environment(ctx, c)
    &&& c.teams_available == ctx.teams_available
    &&& info_opt_views(c.command_info) == info_opt_views(ctx.command_info)
}

/// Two contexts agree on everything but arguments, team availability and
/// the command list.
pub open spec fn same_environment(a: CommandContext, b: CommandContext) -> bool {
    &&& b.source == a.source
    &&& b.motd@ == a.motd@
    &&& b.max_players == a.max_players
    &&& b.players@ == a.players@
    &&& b.banned@ == a.banned@
    &&& b.nearest == a.nearest
    &&& b.random == a.random
    &&& b.save_available == a.save_available
    &&& loaded_view(b) == loaded_view(a)
}

pub open spec fn info_opt_views(o: Option<Vec<(String, String)>>) -> Option<Seq<(Seq<char>, Seq<char>)>> {
    match o {
        Some(v) => Some(info_views(v@)),
        None => None,
    }
}

/// The text of an input line that is split into arguments.
pub open spec fn line_body(input: Seq<char>) -> Seq<char> {
    strip_slashes_spec(trim_spec(input))
}

/// `c` is the context `dispatch_input` builds for `input` from `ctx`.
pub open spec fn is_input_context(d: CommandDispatcher, input: Seq<char>, ctx: CommandContext, c: CommandContext) -> bool {
    &&& arg_views(c) == words_spec(line_body(input))
    &&& same_environment(ctx, c)
    &&& !c.teams_available
    &&& info_opt_views(c.command_info) == Some(registered_info(d))
}

/// Without leading slashes.
pub open spec fn strip_slashes_spec(s: Seq<char>) -> Seq<char>
    decreases s.len(),
{
    if s.len() > 0 && s[0] == '/' {
        strip_slashes_spec(s.subrange(1, s.len() as int))
    } else {
        s
    }
}

fn strip_slashes(s: &str) -> (r: String)
    ensures
        r@ == strip_slashes_spec(s@),
{
    let n = s.unicode_len();
    let mut i: usize = 0;
    proof { assert(s@.subrange(0, n as int) =~= s@); }
    while i < n && s.get_char(i) == '/'
        invariant
            n == s@.len(),
            i <= n,
            strip_slashes_spec(s@.subrange(i as int, n as int)) == strip_slashes_spec(s@),
        decreases n - i,
    {
        proof {
            assert(s@.subrange(i as int, n as int).subrange(1, (n - i) as int) =~= s@.subrange(i + 1, n as int));
        }
        i = i + 1;
    }
    String::from_str(s.substring_char(i, n))
}

pub(crate) fn clone_source(s: &CommandSource) -> (r: CommandSource)
    ensures
        r == *s,
{
    match s {
        CommandSource::Player { uuid, username } => CommandSource::Player { uuid: *uuid, username: username.clone() },
        CommandSource::Console => CommandSource::Console,
        CommandSource::Rcon => CommandSource::Rcon,
    }
}

pub(crate) fn clone_players(p: &Vec<crate::commands::context::PlayerInfo>) -> (r: Vec<crate::commands::context::PlayerInfo>)
    ensures
        r@ == p@,
{
    let mut out: Vec<crate::commands::context::PlayerInfo> = Vec::new();
    let mut i: usize = 0;
    while i < p.len()
        invariant
            i <= p@.len(),
            out@ == p@.subrange(0, i as int),
        decreases p@.len() - i,
    {
        let q = &p[i];
        out.push(crate::commands::context::PlayerInfo {
            uuid: q.uuid,
            username: q.username.clone(),
            gamemode: q.gamemode,
            is_op: q.is_op,
            xp_level: q.xp_level,
            xp_total: q.xp_total,
            xp_percent: q.xp_percent,
            block_x: q.block_x,
            block_y: q.block_y,
        });
        i = i + 1;
        assert(out@ =~= p@.subrange(0, i as int));
    }
    assert(p@.subrange(0, p@.len() as int) =~= p@);
    out
}

pub(crate) fn clone_loaded(o: &Option<Vec<(i32, i32)>>) -> (r: Option<Vec<(i32, i32)>>)
    ensures
        match (r, *o) {
            (Some(a), Some(b)) => a@ == b@,
            (None, None) => true,
            _ => false,
        },
{
    match o {
        Some(v) => {
            let mut out: Vec<(i32, i32)> = Vec::new();
            let mut i: usize = 0;
            while i < v.len()
                invariant
                    i <= v@.len(),
                    out@ == v@.subrange(0, i as int),
                decreases v@.len() - i,
            {
                out.push(v[i]);
                i = i + 1;
                assert(out@ =~= v@.subrange(0, i as int));
            }
            assert(v@.subrange(0, v@.len() as int) =~= v@);
            Some(out)
        },
        None => None,
    }
}

pub(crate) fn clone_ids(v: &Vec<u128>) -> (r: Vec<u128>)
    ensures
        r@ == v@,
{
    let mut out: Vec<u128> = Vec::new();
    let mut i: usize = 0;
    while i < v.len()
        invariant
            i <= v@.len(),
            out@ == v@.subrange(0, i as int),
        decreases v@.len() - i,
    {
        out.push(v[i]);
        i = i + 1;
        assert(out@ =~= v@.subrange(0, i as int));
    }
    assert(v@.subrange(0, v@.len() as int) =~= v@);
    out
}

pub(crate) fn clone_info(o: &Option<Vec<(String, String)>>) -> (r: Option<Vec<(String, String)>>)
    ensures
        info_opt_views(r) == info_opt_views(*o),
{
    match o {
        Some(v) => {
            let mut out: Vec<(String, String)> = Vec::new();
            let mut i: usize = 0;
            while i < v.len()
                invariant
                    i <= v@.len(),
                    info_views(out@) == info_views(v@).subrange(0, i as int),
                decreases v@.len() - i,
            {
                let ghost before = out@;
                let e = (v[i].0.clone(), v[i].1.clone());
                out.push(e);
                proof {
                    assert(out@ =~= before.push(e));
                    assert(info_views(out@) =~= info_views(before).push((e.0@, e.1@)));
                    assert(info_views(v@).subrange(0, i + 1) =~= info_views(v@).subrange(0, i as int).push(info_views(v@)[i as int]));
                }
                i = i + 1;
            }
            proof { assert(info_views(v@).subrange(0, v@.len() as int) =~= info_views(v@)); }
            Some(out)
        },
        None => None,
    }
}

/// `ctx` with its first argument taken off.
fn sub_context_of(ctx: &CommandContext) -> (r: CommandContext)
    requires
        ctx.args@.len() > 0,
    ensures
        is_sub_context(*ctx, r),
{
    let mut args: Vec<String> = Vec::new();
    let mut i: usize = 1;
    while i < ctx.args.len()
        invariant
            1 <= i <= ctx.args@.len(),
            args@.map_values(|a: String| a@) == arg_views(*ctx).subrange(1, i as int),
        decreases ctx.args@.len() - i,
    {
        let ghost before = args@;
        let a = ctx.args[i].clone();
        args.push(a);
        proof {
            assert(args@ =~= before.push(a));
            assert(args@.map_values(|x: String| x@) =~= before.map_values(|x: String| x@).push(a@));
            assert(arg_views(*ctx).subrange(1, i + 1) =~= arg_views(*ctx).subrange(1, i as int).push(arg_views(*ctx)[i as int]));
        }
        i = i + 1;
    }
    CommandContext {
        source: clone_source(&ctx.source),
        args,
        motd: ctx.motd.clone(),
        max_players: ctx.max_players,
        players: clone_players(&ctx.players),
        banned: clone_ids(&ctx.banned),
        nearest: ctx.nearest,
        random: ctx.random,
        save_available: ctx.save_available,
        teams_available: ctx.teams_available,
        command_info: clone_info(&ctx.command_info),
        loaded_chunks: clone_loaded(&ctx.loaded_chunks),
    }
}

} // verus!
