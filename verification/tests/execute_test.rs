use apoptotic::commands::context::{CommandContext, CommandSource, PlayerInfo, ServerData, ServerEvent};
use apoptotic::commands::dispatcher::{CommandDispatcher, CommandKind};
use apoptotic::commands::execute::ExecuteCommand;
use apoptotic::net::session::offline_uuid;
use apoptotic::types::GameMode;

fn player(name: &str, x: i32, y: i32) -> PlayerInfo {
    PlayerInfo {
        uuid: offline_uuid(name),
        username: name.to_string(),
        gamemode: GameMode::Survival,
        is_op: false,
        xp_level: 0,
        xp_total: 0,
        xp_percent: 0,
        block_x: x,
        block_y: y,
    }
}

fn context(source: CommandSource, players: Vec<PlayerInfo>, args: &[&str]) -> CommandContext {
    CommandContext {
        source,
        args: args.iter().map(|s| s.to_string()).collect(),
        motd: String::new(),
        max_players: 20,
        players,
        banned: Vec::new(),
        nearest: None,
        random: 0,
        save_available: false,
        teams_available: false,
        command_info: None,
        loaded_chunks: None,
    }
}

fn run(input: &str, players: Vec<PlayerInfo>) -> (Option<Result<String, String>>, ServerData) {
    let d = CommandDispatcher::with_all_commands();
    let mut server = ServerData::new(42);
    let c = context(CommandSource::Console, players, &[]);
    let r = d.dispatch_input_checked(input, &c, &mut server);
    (r, server)
}

#[test]
fn test_execute_missing_args() {
    let ctx = context(CommandSource::Console, Vec::new(), &["as"]);
    assert!(ExecuteCommand.execute(&ctx).is_err());
}

#[test]
fn test_execute_bad_subcommand() {
    let disp = CommandDispatcher::new();
    let ctx = context(CommandSource::Console, vec![player("TestPlayer", 0, 64)], &["as", "@a", "run", "nonexistent"]);
    let mut server = ServerData::new(0);
    let result = disp.run_execute(&ctx, &mut server).expect("no overflow");
    assert!(result.is_ok());
    assert_eq!(result, Ok("[TestPlayer] Error: Unknown command: /nonexistent".to_string()));
}

#[test]
fn test_execute_as_self() {
    let (r, _) = run("execute as @a run me waves", vec![player("Alice", 0, 64)]);
    let result = r.expect("no overflow").unwrap();
    assert!(result.contains("Alice"), "Expected 'Alice' in result: {}", result);
    assert_eq!(result, "[Alice] * Alice waves");
}

#[test]
fn execute_without_a_dispatcher_is_refused() {
    let ctx = context(CommandSource::Console, vec![player("Ann", 0, 64)], &["as", "@a", "run", "say", "hi"]);
    assert_eq!(ExecuteCommand.execute(&ctx), Err("Internal error: dispatcher not available".to_string()));
    let mut server = ServerData::new(0);
    assert_eq!(
        CommandKind::Execute.execute(&ctx, &mut server),
        Err("Internal error: dispatcher not available".to_string())
    );
}

#[test]
fn execute_as_runs_once_per_target_in_order() {
    let (r, server) = run("execute as @a run say hello", vec![player("Ann", 0, 64), player("Bob", 0, 64)]);
    assert_eq!(r, Some(Ok("[Ann] [Ann] hello\n[Bob] [Bob] hello".to_string())));
    assert_eq!(server.events.len(), 2);
}

#[test]
fn execute_at_uses_the_target_position() {
    let (r, _) = run("execute at Ann run me stands at ~", vec![player("Ann", -12, 70)]);
    assert_eq!(r, Some(Ok("[Ann] * Console stands at -12".to_string())));
}

#[test]
fn execute_at_skips_targets_without_a_position() {
    let d = CommandDispatcher::with_all_commands();
    let mut server = ServerData::new(1);
    let ghost = CommandSource::Player { uuid: 7, username: "Ghost".to_string() };
    let c = context(ghost, vec![player("Ann", 1, 2)], &[]);
    let r = d.dispatch_input_checked("execute at @s run me hi", &c, &mut server);
    assert_eq!(r, Some(Ok("Executed at 1 target(s)".to_string())));
    assert!(server.events.is_empty());
}

#[test]
fn execute_positioned_fills_in_coordinates() {
    let (r, _) = run("execute positioned 1 2 3 run me is at ~", Vec::new());
    assert_eq!(r, Some(Ok("* Console is at 1".to_string())));
}

#[test]
fn execute_refusals() {
    let ps = || vec![player("Ann", 0, 64)];
    assert_eq!(run("execute as Ann", ps()).0, Some(Err("Usage: /execute as|at <target> run <command>".to_string())));
    assert_eq!(
        run("execute fly Ann run say", ps()).0,
        Some(Err("Unknown execute modifier: fly. Supported: as, at, positioned".to_string()))
    );
    assert_eq!(
        run("execute as Ann say hi", ps()).0,
        Some(Err("Expected 'run' after target. Usage: execute as <target> run <command>".to_string()))
    );
    assert_eq!(run("execute as run say hi", ps()).0, Some(Err("Expected 'run' after target selector".to_string())));
    assert_eq!(run("execute at Ann say hi", ps()).0, Some(Err("Expected 'run' after target".to_string())));
    assert_eq!(run("execute as Nobody run say hi", ps()).0, Some(Err("No targets matched selector: Nobody".to_string())));
    assert_eq!(
        run("execute positioned 1 2 run say", ps()).0,
        Some(Err("Usage: /execute positioned <x> <y> <z> run <command>".to_string()))
    );
    assert_eq!(
        run("execute positioned 1 2 3 go say hi", ps()).0,
        Some(Err("Expected 'run' after coordinates".to_string()))
    );
}

#[test]
fn execute_nests() {
    let (r, _) = run("execute as @a run execute as @s run me waves", vec![player("Ann", 0, 64)]);
    assert_eq!(r, Some(Ok("[Ann] [Ann] * Ann waves".to_string())));
}

#[test]
fn execute_reports_an_overflow_partway() {
    let d = CommandDispatcher::with_all_commands();
    let mut server = ServerData::new(1);
    let c = context(CommandSource::Console, vec![player("Ann", 0, 64), player("Bob", 0, 64)], &[]);
    assert!(d.dispatch_input_checked("scoreboard objectives add kills dummy", &c, &mut server).is_some());
    let r = d.dispatch_input_checked("execute as @a run scoreboard players add X kills 2147483647", &c, &mut server);
    assert!(r.is_none());
    assert!(server.events.iter().any(|e| matches!(e, ServerEvent::ScoreboardScore { value: 2147483647, .. })));
}
