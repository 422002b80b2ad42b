//! What a command sees and what it may change.
//!
//! A command reads its arguments, who issued it and a snapshot of the
//! online players; it changes the world, scoreboard and teams directly,
//! and asks for everything else (chat, player changes, client sync) by
//! appending an event that the server performs afterwards.

use vstd::prelude::*;
use vstd::string::*;
use crate::block::BlockState;
use crate::commands::scoreboard::ScoreboardData;
use crate::team::TeamManager;
use crate::text::{join, joined, views};
use crate::types::GameMode;
use crate::world_state::{Difficulty, WorldState};

verus! {

/// Who issued a command.
#[derive(Debug, Clone)]
pub enum CommandSource {
    Player { uuid: u128, username: String },
    Console,
    Rcon,
}

/// The name a source is known by in messages.
pub open spec fn source_name(s: CommandSource) -> Seq<char> {
    match s {
        CommandSource::Player { username, .. } => username@,
        CommandSource::Console => "Console"@,
        CommandSource::Rcon => "RCON"@,
    }
}

impl CommandSource {
    pub fn name(&self) -> (r: String)
        ensures
            r@ == source_name(*self),
    {
        match self {
            CommandSource::Player { username, .. } => username.clone(),
            CommandSource::Console => String::from_str("Console"),
            CommandSource::Rcon => String::from_str("RCON"),
        }
    }

    pub fn player(name: &str, uuid: u128) -> (r: CommandSource)
        ensures
            r matches CommandSource::Player { uuid: u, username } && u == uuid && username@ == name@,
    {
        CommandSource::Player { uuid, username: String::from_str(name) }
    }

    /// Console and RCON may run every command; a player only when it is
    /// online and an operator.
    pub fn has_permission(&self, players: &Vec<PlayerInfo>) -> (r: bool)
        ensures
            r == match *self {
                CommandSource::Player { uuid, .. } => exists|i: int|
                    0 <= i < players@.len() && #[trigger] players@[i].uuid == uuid && players@[i].is_op
                    && forall|j: int| 0 <= j < i ==> players@[j].uuid != uuid,
                _ => true,
            },
    {
        match self {
            CommandSource::Player { uuid, .. } => {
                match find_player(players, *uuid) {
                    Some(i) => players[i].is_op,
                    None => false,
                }
            },
            _ => true,
        }
    }
}

/// An online player as commands see it.
#[derive(Debug, Clone)]
pub struct PlayerInfo {
    pub uuid: u128,
    pub username: String,
    pub gamemode: GameMode,
    pub is_op: bool,
    /// Experience level and total experience points.
    pub xp_level: i32,
    pub xp_total: i32,
    /// Progress toward the next level, in whole percent as the server
    /// rounds it.
    pub xp_percent: u32,
    /// The x and y of the player's position, cut toward zero to whole
    /// blocks.
    pub block_x: i32,
    pub block_y: i32,
}

/// Position of the first online player with `uuid`.
pub fn find_player(players: &Vec<PlayerInfo>, uuid: u128) -> (r: Option<usize>)
    ensures
        match r {
            Some(i) => i < players@.len() && players@[i as int].uuid == uuid
                && forall|j: int| 0 <= j < i ==> players@[j].uuid != uuid,
            None => forall|j: int| 0 <= j < players@.len() ==> players@[j].uuid != uuid,
        },
{
    let mut i: usize = 0;
    while i < players.len()
        invariant
            i <= players@.len(),
            forall|j: int| 0 <= j < i ==> players@[j].uuid != uuid,
        decreases players@.len() - i,
    {
        if players[i].uuid == uuid {
            return Some(i);
        }
        i = i + 1;
    }
    None
}

/// What a command reads.
#[derive(Debug, Clone)]
pub struct CommandContext {
    pub source: CommandSource,
    pub args: Vec<String>,
    pub motd: String,
    pub max_players: u32,
    /// Online players, in the player list's order.
    pub players: Vec<PlayerInfo>,
    /// Banned player ids.
    pub banned: Vec<u128>,
    /// The player nearest to the source, as the server measured it.
    pub nearest: Option<u128>,
    /// A random value for `@r` and random ordering.
    pub random: u64,
    /// Whether a manual save can be requested.
    pub save_available: bool,
    /// Whether `/team` may change teams.
    pub teams_available: bool,
    /// Names and descriptions of the registered commands, when a
    /// dispatcher runs the command.
    pub command_info: Option<Vec<(String, String)>>,
    /// Chunk columns `(x, z)` the server has loaded; `None` when block
    /// commands have no chunk store to work on.
    pub loaded_chunks: Option<Vec<(i32, i32)>>,
}

/// The loaded chunk columns of a context, by their views.
pub open spec fn loaded_view(ctx: CommandContext) -> Option<Seq<(i32, i32)>> {
    match ctx.loaded_chunks {
        Some(v) => Some(v@),
        None => None,
    }
}

/// Something the server does after a command.
#[derive(Debug, Clone)]
pub enum ServerEvent {
    /// Chat line to everybody from `sender`.
    Chat { sender: String, message: String },
    /// Private message to one player.
    PrivateMessage { sender: String, target: u128, message: String },
    /// Objective sync: action 0 creates, 1 removes.
    ScoreboardObjective { name: String, action: u8, display: String, criteria: String },
    /// Score sync.
    ScoreboardScore { player: String, objective: String, value: i32, action: u8 },
    /// Team sync: 0 create, 1 remove, 3 add members, 4 remove members.
    TeamUpdate { team: String, action: u8, display: String, color: String, friendly_fire: bool, members: Vec<String> },
    SetGamemode { uuid: u128, mode: GameMode },
    SetOp { uuid: u128, op: bool },
    Kick { uuid: u128, reason: String },
    Ban { uuid: u128 },
    Unban { uuid: u128 },
    WhitelistAdd { uuid: u128 },
    WhitelistRemove { uuid: u128 },
    WhitelistEnabled { enabled: bool },
    Kill { uuid: u128 },
    GiveItem { uuid: u128, block: BlockState, count: u32 },
    Transfer { uuid: u128, host: String, port: i32 },
    /// Title packet: action 0 title, 1 subtitle, 2 action bar, 4 clear,
    /// 5 reset; the JSON text is empty for the last two.
    Title { uuid: u128, action: i32, text: String },
    ClearInventory { uuid: u128 },
    /// Play a sound; volume and pitch are the argument texts (empty when
    /// not given), which the server reads as `f32`, 1.0 when they are no
    /// number.
    PlaySound { uuid: u128, sound: String, volume: String, pitch: String },
    StopSound { uuid: u128 },
    /// Switch to spectating `target` (and move to it, if it is online).
    Spectate { uuid: u128, target: u128 },
    /// Put the player on `vehicle` (above it, if it is online).
    Mount { uuid: u128, vehicle: u128 },
    /// Take the player off what it rides (its position is resent).
    Dismount { uuid: u128 },
    AddXp { uuid: u128, amount: i32 },
    /// Set level and total experience (the progress bar starts over).
    SetXp { uuid: u128, level: i32, total: i32 },
    /// Place a block (its chunk is loaded).
    SetBlock { x: i32, y: i32, z: i32, block: BlockState },
    /// Fill the box between two corners (lowest first), in the loaded chunk
    /// columns only.
    FillRegion { x1: i32, y1: i32, z1: i32, x2: i32, y2: i32, z2: i32, block: BlockState },
    /// Copy the box between two corners (lowest first) by the offset
    /// `(dx, dy, dz)`, block by block in order of x, then y, then z; only
    /// blocks inside the world's heights at both ends, with both chunk
    /// columns loaded, are copied.
    CloneRegion { x1: i32, y1: i32, z1: i32, x2: i32, y2: i32, z2: i32, dx: i32, dy: i32, dz: i32 },
    Shutdown,
    Save,
}

/// An event as the specification sees it (texts by their views).
pub enum EventView {
    Chat { sender: Seq<char>, message: Seq<char> },
    PrivateMessage { sender: Seq<char>, target: u128, message: Seq<char> },
    ScoreboardObjective { name: Seq<char>, action: u8, display: Seq<char>, criteria: Seq<char> },
    ScoreboardScore { player: Seq<char>, objective: Seq<char>, value: i32, action: u8 },
    TeamUpdate { team: Seq<char>, action: u8, display: Seq<char>, color: Seq<char>, friendly_fire: bool, members: Seq<Seq<char>> },
    SetGamemode { uuid: u128, mode: GameMode },
    SetOp { uuid: u128, op: bool },
    Kick { uuid: u128, reason: Seq<char> },
    Ban { uuid: u128 },
    Unban { uuid: u128 },
    WhitelistAdd { uuid: u128 },
    WhitelistRemove { uuid: u128 },
    WhitelistEnabled { enabled: bool },
    Kill { uuid: u128 },
    GiveItem { uuid: u128, block: BlockState, count: u32 },
    Transfer { uuid: u128, host: Seq<char>, port: i32 },
    Title { uuid: u128, action: i32, text: Seq<char> },
    ClearInventory { uuid: u128 },
    PlaySound { uuid: u128, sound: Seq<char>, volume: Seq<char>, pitch: Seq<char> },
    StopSound { uuid: u128 },
    Spectate { uuid: u128, target: u128 },
    Mount { uuid: u128, vehicle: u128 },
    Dismount { uuid: u128 },
    AddXp { uuid: u128, amount: i32 },
    SetXp { uuid: u128, level: i32, total: i32 },
    SetBlock { x: i32, y: i32, z: i32, block: BlockState },
    FillRegion { x1: i32, y1: i32, z1: i32, x2: i32, y2: i32, z2: i32, block: BlockState },
    CloneRegion { x1: i32, y1: i32, z1: i32, x2: i32, y2: i32, z2: i32, dx: i32, dy: i32, dz: i32 },
    Shutdown,
    Save,
}

pub open spec fn event_view(e: ServerEvent) -> EventView {
    match e {
        ServerEvent::Chat { sender, message } => EventView::Chat { sender: sender@, message: message@ },
        ServerEvent::PrivateMessage { sender, target, message } =>
            EventView::PrivateMessage { sender: sender@, target, message: message@ },
        ServerEvent::ScoreboardObjective { name, action, display, criteria } =>
            EventView::ScoreboardObjective { name: name@, action, display: display@, criteria: criteria@ },
        ServerEvent::ScoreboardScore { player, objective, value, action } =>
            EventView::ScoreboardScore { player: player@, objective: objective@, value, action },
        ServerEvent::TeamUpdate { team, action, display, color, friendly_fire, members } =>
            EventView::TeamUpdate {
                team: team@,
                action,
                display: display@,
                color: color@,
                friendly_fire,
                members: members@.map_values(|m: String| m@),
            },
        ServerEvent::SetGamemode { uuid, mode } => EventView::SetGamemode { uuid, mode },
        ServerEvent::SetOp { uuid, op } => EventView::SetOp { uuid, op },
        ServerEvent::Kick { uuid, reason } => EventView::Kick { uuid, reason: reason@ },
        ServerEvent::Ban { uuid } => EventView::Ban { uuid },
        ServerEvent::Unban { uuid } => EventView::Unban { uuid },
        ServerEvent::WhitelistAdd { uuid } => EventView::WhitelistAdd { uuid },
        ServerEvent::WhitelistRemove { uuid } => EventView::WhitelistRemove { uuid },
        ServerEvent::WhitelistEnabled { enabled } => EventView::WhitelistEnabled { enabled },
        ServerEvent::Kill { uuid } => EventView::Kill { uuid },
        ServerEvent::GiveItem { uuid, block, count } => EventView::GiveItem { uuid, block, count },
        ServerEvent::Transfer { uuid, host, port } => EventView::Transfer { uuid, host: host@, port },
        ServerEvent::Title { uuid, action, text } => EventView::Title { uuid, action, text: text@ },
        ServerEvent::ClearInventory { uuid } => EventView::ClearInventory { uuid },
        ServerEvent::PlaySound { uuid, sound, volume, pitch } =>
            EventView::PlaySound { uuid, sound: sound@, volume: volume@, pitch: pitch@ },
        ServerEvent::StopSound { uuid } => EventView::StopSound { uuid },
        ServerEvent::Spectate { uuid, target } => EventView::Spectate { uuid, target },
        ServerEvent::Mount { uuid, vehicle } => EventView::Mount { uuid, vehicle },
        ServerEvent::Dismount { uuid } => EventView::Dismount { uuid },
        ServerEvent::AddXp { uuid, amount } => EventView::AddXp { uuid, amount },
        ServerEvent::SetXp { uuid, level, total } => EventView::SetXp { uuid, level, total },
        ServerEvent::SetBlock { x, y, z, block } => EventView::SetBlock { x, y, z, block },
        ServerEvent::FillRegion { x1, y1, z1, x2, y2, z2, block } =>
            EventView::FillRegion { x1, y1, z1, x2, y2, z2, block },
        ServerEvent::CloneRegion { x1, y1, z1, x2, y2, z2, dx, dy, dz } =>
            EventView::CloneRegion { x1, y1, z1, x2, y2, z2, dx, dy, dz },
        ServerEvent::Shutdown => EventView::Shutdown,
        ServerEvent::Save => EventView::Save,
    }
}

/// The events of a list, by their views.
pub open spec fn event_views(v: Seq<ServerEvent>) -> Seq<EventView> {
    v.map_values(|e: ServerEvent| event_view(e))
}

/// What commands change.
#[derive(Debug, Clone)]
pub struct ServerData {
    pub world: WorldState,
    pub scoreboard: ScoreboardData,
    pub teams: TeamManager,
    /// Events for the server to perform, oldest first.
    pub events: Vec<ServerEvent>,
}

impl ServerData {
    pub open spec fn wf(&self) -> bool {
        self.world.wf() && self.scoreboard.wf() && self.teams.wf()
    }

    /// Fresh data for a world with the given seed.
    pub fn new(seed: u64) -> (r: ServerData)
        ensures
            r.wf(),
            r.world.is_initial(seed),
            r.scoreboard.objectives_view() == Map::<Seq<char>, (Seq<char>, Seq<char>)>::empty(),
            r.scoreboard.scores_view() == Map::<(Seq<char>, Seq<char>), i32>::empty(),
            r.teams@ == Map::<Seq<char>, crate::team::TeamView>::empty(),
            r.events@.len() == 0,
    {
        ServerData {
            world: WorldState::new(seed),
            scoreboard: ScoreboardData::new(),
            teams: TeamManager::new(),
            events: Vec::new(),
        }
    }
}

/// The outcome of a command: a reply, or an error message.
pub type CommandResult = Result<String, String>;

/// A reply by its view.
pub type ReplyView = Result<Seq<char>, Seq<char>>;

pub open spec fn reply_view(r: CommandResult) -> ReplyView {
    match r {
        Ok(s) => Ok(s@),
        Err(s) => Err(s@),
    }
}

/// The arguments of a context, by their views.
pub open spec fn arg_views(ctx: CommandContext) -> Seq<Seq<char>> {
    ctx.args@.map_values(|a: String| a@)
}

/// The arguments from position `from` on, joined with single spaces.
pub open spec fn args_text(ctx: CommandContext, from: int) -> Seq<char> {
    joined(arg_views(ctx).subrange(from, arg_views(ctx).len() as int), " "@)
}

pub fn join_args(ctx: &CommandContext, from: usize) -> (r: String)
    requires
        from <= ctx.args@.len(),
    ensures
        r@ == args_text(*ctx, from as int),
{
    let mut parts: Vec<String> = Vec::new();
    let mut i: usize = from;
    while i < ctx.args.len()
        invariant
            from <= i <= ctx.args@.len(),
            views(parts@) == arg_views(*ctx).subrange(from as int, i as int),
        decreases ctx.args@.len() - i,
    {
        let ghost before = parts@;
        let a = ctx.args[i].clone();
        parts.push(a);
        proof {
            assert(parts@ =~= before.push(a));
            assert(views(parts@) =~= views(before).push(a@));
            assert(a@ == arg_views(*ctx)[i as int]);
            assert(arg_views(*ctx).subrange(from as int, i + 1)
                =~= arg_views(*ctx).subrange(from as int, i as int).push(arg_views(*ctx)[i as int]));
        }
        i = i + 1;
    }
    join(&parts, " ")
}

/// Position of the first online player named exactly `name`.
pub fn find_player_named(players: &Vec<PlayerInfo>, name: &str) -> (r: Option<usize>)
    ensures
        match r {
            Some(i) => i < players@.len() && players@[i as int].username@ == name@
                && forall|j: int| 0 <= j < i ==> players@[j].username@ != name@,
            None => forall|j: int| 0 <= j < players@.len() ==> players@[j].username@ != name@,
        },
{
    let mut i: usize = 0;
    while i < players.len()
        invariant
            i <= players@.len(),
            forall|j: int| 0 <= j < i ==> players@[j].username@ != name@,
        decreases players@.len() - i,
    {
        if crate::text::str_eq(players[i].username.as_str(), name) {
            return Some(i);
        }
        i = i + 1;
    }
    None
}

/// Appends one event.
pub fn emit(server: &mut ServerData, e: ServerEvent)
    ensures
        final(server).world == old(server).world,
        final(server).scoreboard == old(server).scoreboard,
        final(server).teams == old(server).teams,
        event_views(final(server).events@) == event_views(old(server).events@) + seq![event_view(e)],
{
    let ghost before = server.events@;
    let ghost ev = event_view(e);
    server.events.push(e);
    proof {
        assert(event_views(server.events@) =~= event_views(before) + seq![ev]);
    }
}

/// The protocol's name of a game mode, as `Debug` prints it.
pub open spec fn game_mode_text(m: GameMode) -> Seq<char> {
    match m {
        GameMode::Survival => "Survival"@,
        GameMode::Creative => "Creative"@,
        GameMode::Adventure => "Adventure"@,
        GameMode::Spectator => "Spectator"@,
    }
}

pub fn game_mode_name(m: GameMode) -> (r: &'static str)
    ensures
        r@ == game_mode_text(m),
{
    proof {
        reveal_strlit("Survival");
        reveal_strlit("Creative");
        reveal_strlit("Adventure");
        reveal_strlit("Spectator");
    }
    match m {
        GameMode::Survival => "Survival",
        GameMode::Creative => "Creative",
        GameMode::Adventure => "Adventure",
        GameMode::Spectator => "Spectator",
    }
}

/// A difficulty's name, as `Debug` prints it.
pub open spec fn difficulty_text(d: Difficulty) -> Seq<char> {
    match d {
        Difficulty::Peaceful => "Peaceful"@,
        Difficulty::Easy => "Easy"@,
        Difficulty::Normal => "Normal"@,
        Difficulty::Hard => "Hard"@,
    }
}

pub fn difficulty_name(d: Difficulty) -> (r: &'static str)
    ensures
        r@ == difficulty_text(d),
{
    proof {
        reveal_strlit("Peaceful");
        reveal_strlit("Easy");
        reveal_strlit("Normal");
        reveal_strlit("Hard");
    }
    match d {
        Difficulty::Peaceful => "Peaceful",
        Difficulty::Easy => "Easy",
        Difficulty::Normal => "Normal",
        Difficulty::Hard => "Hard",
    }
}

} // verus!
