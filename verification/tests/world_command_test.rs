use apoptotic::commands::context::{CommandContext, CommandSource, PlayerInfo, ServerData, ServerEvent};
use apoptotic::commands::dispatcher::{CommandDispatcher, CommandKind};
use apoptotic::net::session::offline_uuid;
use apoptotic::types::GameMode;
use apoptotic::world_state::{Difficulty, Weather};

fn player(name: &str) -> PlayerInfo {
    PlayerInfo {
        uuid: offline_uuid(name),
        username: name.to_string(),
        gamemode: GameMode::Survival,
        is_op: false,
        xp_level: 0,
        xp_total: 0,
        xp_percent: 0,
        block_x: 0,
        block_y: 64,
    }
}

fn ctx(source: CommandSource, players: Vec<PlayerInfo>) -> CommandContext {
    CommandContext {
        source,
        args: Vec::new(),
        motd: "m".to_string(),
        max_players: 8,
        players,
        banned: Vec::new(),
        nearest: None,
        random: 0,
        save_available: true,
        teams_available: true,
        command_info: None,
        loaded_chunks: None,
    }
}

fn console() -> CommandContext {
    ctx(CommandSource::Console, vec![player("Ann")])
}

fn run_on(server: &mut ServerData, input: &str, c: &CommandContext) -> Result<String, String> {
    CommandDispatcher::with_all_commands().dispatch_input(input, c, server)
}

fn run(input: &str) -> (Result<String, String>, ServerData) {
    let mut server = ServerData::new(7);
    let r = run_on(&mut server, input, &console());
    (r, server)
}

#[test]
fn time_forms() {
    assert_eq!(run("time").0, Ok("Time: 0 (daytime: 0)".to_string()));
    let (r, s) = run("time set 30000");
    assert_eq!(r, Ok("Time set to 30000".to_string()));
    assert_eq!((s.world.time, s.world.daytime), (30000, 6000));
    let mut server = ServerData::new(7);
    run_on(&mut server, "time set noon", &console()).unwrap();
    assert_eq!(run_on(&mut server, "time add 500", &console()), Ok("Added 500 ticks (now 6500)".to_string()));
    assert_eq!(run("time set").0, Err("Usage: /time set <value|day|night|noon|midnight>".to_string()));
    assert_eq!(run("time set -5").0, Err("Invalid number: invalid digit found in string".to_string()));
    assert_eq!(run("time add").0, Err("Usage: /time add <ticks>".to_string()));
    assert_eq!(run("time warp").0, Err("Usage: /time <set|add|query> [value]".to_string()));
}

#[test]
fn time_does_not_advance_without_daylight_cycle() {
    let mut server = ServerData::new(7);
    run_on(&mut server, "gamerule doDaylightCycle false", &console()).unwrap();
    assert_eq!(run_on(&mut server, "time add 100", &console()), Ok("Added 100 ticks (now 0)".to_string()));
}

#[test]
fn weather_and_difficulty() {
    let (r, s) = run("weather rain 300");
    assert_eq!(r, Ok("Weather set to rain for 300 ticks".to_string()));
    assert_eq!(s.world.weather, Weather::Rain);
    assert_eq!(run("weather").0, Ok("Weather set to clear for 6000 ticks".to_string()));
    assert_eq!(run("weather snow").0, Err("Usage: /weather <clear|rain|thunder> [duration]".to_string()));
    let (r, s) = run("difficulty h");
    assert_eq!(r, Ok("Difficulty set to Hard".to_string()));
    assert_eq!(s.world.difficulty, Difficulty::Hard);
    assert_eq!(run("difficulty extreme").0, Err("Usage: /difficulty <peaceful|easy|normal|hard>".to_string()));
}

#[test]
fn tick_control() {
    assert_eq!(run("tick").0, Ok("Tick: running at 20 tps".to_string()));
    let (r, s) = run("tick freeze");
    assert_eq!(r, Ok("Tick frozen. Use /tick unfreeze to resume.".to_string()));
    assert!(s.world.tick_frozen);
    let (r, s) = run("tick sprint 5000");
    assert_eq!(r, Ok("Tick sprint set to 5000 tps".to_string()));
    assert_eq!(s.world.tick_sprint_rate, 1000);
    assert_eq!(run("tick slow").0, Err("Usage: /tick <freeze|unfreeze|sprint <rate>|query>".to_string()));
}

#[test]
fn gamerules() {
    assert_eq!(run("gamerule keepInventory").0, Ok("keepInventory = false".to_string()));
    let mut server = ServerData::new(7);
    assert_eq!(run_on(&mut server, "gamerule keepInventory true", &console()),
        Ok("Game rule keepInventory updated to true".to_string()));
    assert_eq!(run_on(&mut server, "gamerule keepInventory", &console()), Ok("keepInventory = true".to_string()));
    assert_eq!(run("gamerule noSuchRule").0, Err("Unknown game rule: noSuchRule".to_string()));
    assert!(run("gamerule").0.unwrap().starts_with("Game rules:\n  "));
}

#[test]
fn forceload_publish_debug() {
    let mut server = ServerData::new(7);
    assert_eq!(run_on(&mut server, "forceload add 40 -20", &console()), Ok("Chunk (2,-2) force-loaded".to_string()));
    assert_eq!(run_on(&mut server, "forceload", &console()), Ok("1 chunk(s) force-loaded".to_string()));
    assert_eq!(run_on(&mut server, "forceload remove 40 -20", &console()),
        Ok("Chunk (2,-2) no longer force-loaded".to_string()));
    assert_eq!(run_on(&mut server, "forceload query", &console()), Ok("0 chunk(s) force-loaded".to_string()));
    assert_eq!(run("forceload pin").0, Err("Usage: /forceload <add|remove|query> [x] [z]".to_string()));
    assert_eq!(run("publish 25570").0,
        Ok("LAN broadcast enabled on port 25570 (multicast 224.0.2.60:4445)".to_string()));
    assert_eq!(run("publish").0, Ok("LAN broadcast enabled on port 25565 (multicast 224.0.2.60:4445)".to_string()));
    let (r, s) = run("debug start");
    assert_eq!(r, Ok("Debug profiling started".to_string()));
    assert!(s.world.debug_mode);
    assert_eq!(run("debug report").0, Err("Usage: /debug <start|stop>".to_string()));
}

#[test]
fn display_only_commands() {
    assert_eq!(run("recipe give").0, Ok("Recipe(s) given (display only)".to_string()));
    assert_eq!(run("recipe").0, Ok("Recipe book managed client-side".to_string()));
    assert_eq!(run("data merge").0,
        Ok("NBT merge applied (simplified — full NBT merging not yet implemented)".to_string()));
    assert_eq!(run("data modify").0, Ok("/data modify: NBT data operations (entity/block/storage)".to_string()));
    assert_eq!(run("fillbiome 0 0 0 48 10 16 Desert").0,
        Ok("Fillbiome set 48 chunk(s) from (0,0,0) to (48,10,16) with 'desert'".to_string()));
    assert_eq!(run("fillbiome 0 0").0, Err("Usage: /fillbiome <x1> <y1> <z1> <x2> <y2> <z2> <biome>".to_string()));
}

#[test]
fn trigger_scores() {
    let ann = offline_uuid("Ann");
    let me = ctx(CommandSource::player("Ann", ann), vec![player("Ann")]);
    let mut server = ServerData::new(7);
    run_on(&mut server, "scoreboard objectives add votes dummy", &console()).unwrap();
    assert_eq!(run_on(&mut server, "trigger votes", &me), Ok("Trigger 'votes' add 1 → now 1".to_string()));
    assert_eq!(run_on(&mut server, "trigger votes add 4", &me), Ok("Trigger 'votes' add 4 → now 5".to_string()));
    assert_eq!(run_on(&mut server, "trigger votes set -2", &me), Ok("Trigger 'votes' set -2 → now -2".to_string()));
    assert_eq!(run_on(&mut server, "trigger votes reset", &me),
        Err("Usage: /trigger <objective> [add|set] [value]".to_string()));
    assert_eq!(run_on(&mut server, "trigger votes", &console()), Err("/trigger can only be used by players".to_string()));
}

#[test]
fn admin_commands() {
    let c = console();
    let ann = offline_uuid("Ann");
    let (r, s) = run("op Ann");
    assert_eq!(r, Ok("Opped Ann".to_string()));
    assert!(s.events.iter().any(|e| matches!(e, ServerEvent::SetOp { uuid, op: true } if *uuid == ann)));
    assert_eq!(run("deop Ann").0, Ok("De-opped Ann".to_string()));
    assert_eq!(run("op Zed").0, Err("Player not found: Zed".to_string()));
    assert_eq!(run("op").0, Err("Usage: /op <player>".to_string()));
    let (r, s) = run("kick Ann spam");
    assert_eq!(r, Ok("Kicked Ann: spam".to_string()));
    assert!(s.events.iter().any(|e| matches!(e, ServerEvent::Kick { uuid, reason } if *uuid == ann && reason == "spam")));
    assert_eq!(run("kick Ann").0, Ok("Kicked Ann: Kicked".to_string()));
    let (r, s) = run("transfer Ann example.org 25570");
    assert_eq!(r, Ok("Transferring 1 player(s) to example.org:25570".to_string()));
    assert!(s.events.iter().any(|e| matches!(e, ServerEvent::Transfer { port: 25570, .. })));
    assert_eq!(run("transfer Ann").0, Err("Usage: /transfer <player> <host> [port]".to_string()));
    let (r, s) = run("reload peaceful");
    assert_eq!(r, Ok("Config reloaded: difficulty → Peaceful".to_string()));
    assert_eq!(s.world.difficulty, Difficulty::Peaceful);
    let (r, s) = run("save-all");
    assert_eq!(r, Ok("Save triggered — all chunks and player data will be saved".to_string()));
    assert!(matches!(s.events.last(), Some(ServerEvent::Save)));
    let (r, s) = run("stop");
    assert_eq!(r, Ok("Stopping server...".to_string()));
    assert!(matches!(s.events.last(), Some(ServerEvent::Shutdown)));
    let mut server = ServerData::new(7);
    let mut no_save = c.clone();
    no_save.save_available = false;
    assert_eq!(run_on(&mut server, "save-all", &no_save),
        Err("Save trigger not available (console-only command)".to_string()));
}

#[test]
fn team_command_manages_teams() {
    let ann = offline_uuid("Ann");
    let mut server = ServerData::new(7);
    let mut c = console();
    c.args = vec!["add".to_string(), "red".to_string(), "red".to_string()];
    assert_eq!(CommandKind::Team.execute(&c, &mut server), Ok("Created team 'red' (color: red)".to_string()));
    c.args = vec!["join".to_string(), "red".to_string(), "Ann".to_string()];
    assert_eq!(CommandKind::Team.execute(&c, &mut server), Ok("1 player(s) joined team 'red'".to_string()));
    assert_eq!(server.teams.get_team(ann).unwrap().name, "red");
    c.args = vec!["leave".to_string(), "Ann".to_string()];
    assert_eq!(CommandKind::Team.execute(&c, &mut server), Ok("1 player(s) left their teams".to_string()));
    assert!(server.teams.get_team(ann).is_none());
    c.args = vec!["remove".to_string(), "red".to_string()];
    assert_eq!(CommandKind::Team.execute(&c, &mut server), Ok("Removed team 'red'".to_string()));
    c.args = vec!["list".to_string()];
    assert_eq!(CommandKind::Team.execute(&c, &mut server), Ok("No teams defined".to_string()));
    // through an input line the team manager is not available
    assert_eq!(run_on(&mut server, "team list", &console()), Err("Team manager not available".to_string()));
}
