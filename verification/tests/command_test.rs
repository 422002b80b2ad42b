use apoptotic::commands::context::{CommandContext, CommandSource, PlayerInfo, ServerData, ServerEvent};
use apoptotic::commands::dispatcher::{CommandDispatcher, CommandKind};
use apoptotic::commands::selector::resolve_player_targets;
use apoptotic::item::resolve_item;
use apoptotic::net::session::offline_uuid;
use apoptotic::types::GameMode;

fn setup() -> (CommandDispatcher, ServerData) {
    let mut dispatcher = CommandDispatcher::new();
    for k in [
        CommandKind::Help,
        CommandKind::Msg,
        CommandKind::Me,
        CommandKind::Op,
        CommandKind::Deop,
        CommandKind::Stop,
        CommandKind::Kick,
        CommandKind::Ban,
        CommandKind::Pardon,
        CommandKind::Banlist,
        CommandKind::Whitelist,
        CommandKind::Gamemode,
        CommandKind::DefaultGamemode,
        CommandKind::Give,
        CommandKind::Kill,
        CommandKind::Time,
        CommandKind::Weather,
        CommandKind::Difficulty,
        CommandKind::List,
        CommandKind::Seed,
        CommandKind::Say,
        CommandKind::Status,
    ] {
        dispatcher.register(k);
    }
    (dispatcher, ServerData::new(12345))
}

fn player(name: &str) -> PlayerInfo {
    PlayerInfo {
        uuid: offline_uuid(name),
        username: name.to_string(),
        gamemode: GameMode::Survival,
        is_op: false,
        xp_level: 0,
        xp_total: 0,
        xp_percent: 0,
        block_x: 0,
        block_y: 64,
    }
}

fn context(source: CommandSource, players: Vec<PlayerInfo>, banned: Vec<u128>, motd: &str) -> CommandContext {
    CommandContext {
        source,
        args: Vec::new(),
        motd: motd.to_string(),
        max_players: 20,
        players,
        banned,
        nearest: None,
        random: 0,
        save_available: false,
        teams_available: false,
        command_info: None,
        loaded_chunks: None,
    }
}

fn console() -> CommandContext {
    context(CommandSource::Console, Vec::new(), Vec::new(), "test")
}

fn run(disp: &CommandDispatcher, input: &str, ctx: &CommandContext, server: &mut ServerData) -> Result<String, String> {
    disp.dispatch_input(input, ctx, server)
}

fn gamemode_set(server: &ServerData, uuid: u128, mode: GameMode) -> bool {
    server.events.iter().any(|e| matches!(e, ServerEvent::SetGamemode { uuid: u, mode: m } if *u == uuid && *m == mode))
}

fn killed(server: &ServerData, uuid: u128) -> bool {
    server.events.iter().any(|e| matches!(e, ServerEvent::Kill { uuid: u } if *u == uuid))
}

#[test]
fn test_help_command() {
    let (disp, mut server) = setup();
    let result = run(&disp, "help", &console(), &mut server);
    assert!(result.is_ok());
    assert!(result.unwrap().contains("/help"));
}

#[test]
fn test_help_alias_question() {
    let (disp, mut server) = setup();
    let result = run(&disp, "?", &console(), &mut server);
    assert!(result.is_ok());
}

#[test]
fn test_list_empty() {
    let (disp, mut server) = setup();
    let result = run(&disp, "list", &console(), &mut server);
    assert!(result.is_ok());
    assert!(result.unwrap().contains("(none)"));
}

#[test]
fn test_seed_command() {
    let (disp, mut server) = setup();
    let result = run(&disp, "seed", &console(), &mut server);
    assert!(result.is_ok());
    assert!(result.unwrap().contains("12345"));
}

#[test]
fn test_unknown_command() {
    let (disp, mut server) = setup();
    let result = run(&disp, "nonexistent", &console(), &mut server);
    assert!(result.is_err());
}

#[test]
fn test_time_set() {
    let (disp, mut server) = setup();
    let result = run(&disp, "time set day", &console(), &mut server);
    assert!(result.is_ok());
    assert_eq!(server.world.time, 1000);
}

#[test]
fn test_difficulty_set() {
    let (disp, mut server) = setup();
    let result = run(&disp, "difficulty peaceful", &console(), &mut server);
    assert!(result.is_ok());
}

#[test]
fn test_list_with_player() {
    let (disp, mut server) = setup();
    let ctx = context(CommandSource::Console, vec![player("TestPlayer")], Vec::new(), "test");
    let result = run(&disp, "list", &ctx, &mut server);
    assert!(result.is_ok());
    assert!(result.unwrap().contains("TestPlayer"));
}

#[test]
fn test_gamemode_self() {
    let (disp, mut server) = setup();
    let uuid = offline_uuid("TestPlayer");
    let ctx = context(CommandSource::player("TestPlayer", uuid), vec![player("TestPlayer")], Vec::new(), "test");
    let result = run(&disp, "gamemode creative", &ctx, &mut server);
    assert!(result.is_ok());
    assert!(gamemode_set(&server, uuid, GameMode::Creative));
}

#[test]
fn test_gamemode_target_all() {
    let (disp, mut server) = setup();
    let ctx = context(CommandSource::Console, vec![player("P1"), player("P2")], Vec::new(), "test");
    let result = run(&disp, "gamemode survival @a", &ctx, &mut server);
    assert!(result.is_ok());
    assert!(gamemode_set(&server, offline_uuid("P1"), GameMode::Survival));
    assert!(gamemode_set(&server, offline_uuid("P2"), GameMode::Survival));
}

#[test]
fn test_msg_alias_tell() {
    let (disp, mut server) = setup();
    let source = CommandSource::player("Sender", offline_uuid("Sender"));
    let ctx = context(source, vec![player("Target")], Vec::new(), "test");
    let result = run(&disp, "tell Target hello world", &ctx, &mut server);
    assert!(result.is_ok());
}

#[test]
fn test_msg_no_args() {
    let (disp, mut server) = setup();
    let result = run(&disp, "msg", &console(), &mut server);
    assert!(result.is_err());
}

#[test]
fn test_ban_flow() {
    let (disp, mut server) = setup();
    let uuid = offline_uuid("BadGuy");
    let ctx = context(CommandSource::Console, vec![player("BadGuy")], Vec::new(), "test");
    let result = run(&disp, "ban BadGuy hacking", &ctx, &mut server);
    assert!(result.is_ok());
    assert!(server.events.iter().any(|e| matches!(e, ServerEvent::Ban { uuid: u } if *u == uuid)));
}

#[test]
fn test_whitelist_flow() {
    let (disp, mut server) = setup();
    let uuid = offline_uuid("GoodGuy");
    let ctx = console();
    run(&disp, "whitelist on", &ctx, &mut server).ok();
    assert!(server.events.iter().any(|e| matches!(e, ServerEvent::WhitelistEnabled { enabled: true })));
    assert!(!server.events.iter().any(|e| matches!(e, ServerEvent::WhitelistAdd { .. })));
    let result = run(&disp, "whitelist add GoodGuy", &ctx, &mut server);
    assert!(result.is_ok());
    assert!(server.events.iter().any(|e| matches!(e, ServerEvent::WhitelistAdd { uuid: u } if *u == uuid)));
    run(&disp, "whitelist remove GoodGuy", &ctx, &mut server).ok();
    assert!(server.events.iter().any(|e| matches!(e, ServerEvent::WhitelistRemove { uuid: u } if *u == uuid)));
    run(&disp, "whitelist off", &ctx, &mut server).ok();
    assert!(matches!(server.events.last(), Some(ServerEvent::WhitelistEnabled { enabled: false })));
}

#[test]
fn test_kill_self() {
    let (disp, mut server) = setup();
    let uuid = offline_uuid("Victim");
    let ctx = context(CommandSource::player("Victim", uuid), vec![player("Victim")], Vec::new(), "test");
    let result = run(&disp, "kill", &ctx, &mut server);
    assert!(result.is_ok());
    assert!(killed(&server, uuid));
}

#[test]
fn test_kill_target_a() {
    let (disp, mut server) = setup();
    let ctx = context(CommandSource::Console, vec![player("P1"), player("P2")], Vec::new(), "test");
    let result = run(&disp, "kill @a", &ctx, &mut server);
    assert!(result.is_ok());
    assert!(killed(&server, offline_uuid("P1")));
    assert!(killed(&server, offline_uuid("P2")));
}

#[test]
fn test_say_broadcast() {
    let (disp, mut server) = setup();
    let result = run(&disp, "say Hello World!", &console(), &mut server);
    assert!(result.is_ok());
}

#[test]
fn test_status() {
    let (disp, mut server) = setup();
    let ctx = context(CommandSource::Console, Vec::new(), Vec::new(), "MOTD here");
    let result = run(&disp, "status", &ctx, &mut server);
    assert!(result.is_ok());
    assert!(result.unwrap().contains("MOTD here"));
}

#[test]
fn test_me_command() {
    let (disp, mut server) = setup();
    let uuid = offline_uuid("RolePlayer");
    let ctx = context(CommandSource::player("RolePlayer", uuid), vec![player("RolePlayer")], Vec::new(), "test");
    let result = run(&disp, "me waves at everyone", &ctx, &mut server);
    assert!(result.is_ok());
    let msg = result.unwrap();
    assert!(msg.contains("* RolePlayer"));
    assert!(msg.contains("waves at everyone"));
}

#[test]
fn test_me_empty_args() {
    let (disp, mut server) = setup();
    let result = run(&disp, "me", &console(), &mut server);
    assert!(result.is_err());
}

#[test]
fn test_pardon_flow() {
    let (disp, mut server) = setup();
    let uuid = offline_uuid("BadGuy");
    let ctx = context(CommandSource::Console, Vec::new(), vec![uuid], "test");
    let result = run(&disp, "pardon BadGuy", &ctx, &mut server);
    assert!(result.is_ok());
    assert!(server.events.iter().any(|e| matches!(e, ServerEvent::Unban { uuid: u } if *u == uuid)));
}

#[test]
fn test_pardon_not_banned() {
    let (disp, mut server) = setup();
    let result = run(&disp, "pardon CleanPlayer", &console(), &mut server);
    assert!(result.is_err());
    assert!(result.unwrap_err().contains("not banned"));
}

#[test]
fn test_banlist_empty() {
    let (disp, mut server) = setup();
    let result = run(&disp, "banlist", &console(), &mut server);
    assert!(result.is_ok());
    assert!(result.unwrap().contains("No banned"));
}

#[test]
fn test_banlist_with_bans() {
    let (disp, mut server) = setup();
    let ctx = context(CommandSource::Console, Vec::new(), vec![offline_uuid("Hacker1"), offline_uuid("Hacker2")], "test");
    let result = run(&disp, "banlist", &ctx, &mut server);
    assert!(result.is_ok());
    let msg = result.unwrap();
    assert!(msg.contains("Banned (2)"));
}

#[test]
fn test_defaultgamemode_set() {
    let (disp, mut server) = setup();
    let result = run(&disp, "defaultgamemode creative", &console(), &mut server);
    assert!(result.is_ok());
    assert_eq!(server.world.default_gamemode, GameMode::Creative);
}

#[test]
fn test_defaultgamemode_invalid() {
    let (disp, mut server) = setup();
    let result = run(&disp, "defaultgamemode invalidmode", &console(), &mut server);
    assert!(result.is_err());
}

#[test]
fn test_random_selector() {
    let mut ctx = context(CommandSource::Console, vec![player("P1")], Vec::new(), "test");
    ctx.args = vec!["@r".to_string()];
    let targets = resolve_player_targets("@r", &ctx);
    assert_eq!(targets.len(), 1);
    assert_eq!(targets[0].1, "P1");
}

#[test]
fn test_random_selector_empty() {
    let mut ctx = console();
    ctx.args = vec!["@r".to_string()];
    let targets = resolve_player_targets("@r", &ctx);
    assert!(targets.is_empty());
}

#[test]
fn test_gamemode_with_at_r() {
    let (disp, mut server) = setup();
    let ctx = context(CommandSource::Console, vec![player("R1")], Vec::new(), "test");
    let result = run(&disp, "gamemode creative @r", &ctx, &mut server);
    assert!(result.is_ok());
    assert!(gamemode_set(&server, offline_uuid("R1"), GameMode::Creative));
}

#[test]
fn test_pardon_arg_required() {
    let (disp, mut server) = setup();
    let result = run(&disp, "pardon", &console(), &mut server);
    assert!(result.is_err());
}

#[test]
fn test_defaultgamemode_arg_required() {
    let (disp, mut server) = setup();
    let result = run(&disp, "defaultgamemode", &console(), &mut server);
    assert!(result.is_err());
}

#[test]
fn test_e_selector_all_entities() {
    let mut ctx = context(CommandSource::Console, vec![player("E1"), player("E2")], Vec::new(), "test");
    ctx.args = vec!["@e".to_string()];
    let targets = resolve_player_targets("@e", &ctx);
    assert_eq!(targets.len(), 2);
}

#[test]
fn test_kill_with_e_selector() {
    let (disp, mut server) = setup();
    let ctx = context(CommandSource::Console, vec![player("E1"), player("E2")], Vec::new(), "test");
    let result = run(&disp, "kill @e", &ctx, &mut server);
    assert!(result.is_ok());
    assert!(killed(&server, offline_uuid("E1")));
    assert!(killed(&server, offline_uuid("E2")));
}

#[test]
fn test_give_invalid_item() {
    let (disp, mut server) = setup();
    let ctx = context(CommandSource::Console, vec![player("Receiver")], Vec::new(), "test");
    let result = run(&disp, "give Receiver nonexistent_item_xyz", &ctx, &mut server);
    assert!(result.is_err());
}

#[test]
fn test_give_valid_item() {
    let (disp, mut server) = setup();
    let uuid = offline_uuid("Receiver");
    let ctx = context(CommandSource::Console, vec![player("Receiver")], Vec::new(), "test");
    let result = run(&disp, "give Receiver stone 10", &ctx, &mut server);
    assert!(result.is_ok());
    let stone = resolve_item("stone").unwrap();
    let given: u32 = server
        .events
        .iter()
        .map(|e| match e {
            ServerEvent::GiveItem { uuid: u, block, count } if *u == uuid && block.id == stone.id => *count,
            _ => 0,
        })
        .sum();
    assert_eq!(given, 10);
}

#[test]
fn give_with_namespace_prefix() {
    let (disp, mut server) = setup();
    let ctx = context(CommandSource::Console, vec![player("Receiver")], Vec::new(), "test");
    let result = run(&disp, "give Receiver minecraft:stone 5", &ctx, &mut server);
    assert!(result.is_ok());
}

#[test]
fn test_give_missing_item_arg() {
    let (disp, mut server) = setup();
    let ctx = context(CommandSource::Console, vec![player("Receiver")], Vec::new(), "test");
    let result = run(&disp, "give Receiver", &ctx, &mut server);
    assert!(result.is_err());
}

#[test]
fn dispatch_of_blank_line_is_refused() {
    let (disp, mut server) = setup();
    let result = run(&disp, "   ", &console(), &mut server);
    assert_eq!(result, Err("No command specified".to_string()));
    assert!(server.events.is_empty());
}

#[test]
fn dispatch_strips_leading_slashes() {
    let (disp, mut server) = setup();
    let result = run(&disp, "//seed", &console(), &mut server);
    assert_eq!(result, Ok("Seed: 12345".to_string()));
}

#[test]
fn list_counts_players_against_capacity() {
    let (disp, mut server) = setup();
    let ctx = context(CommandSource::Console, vec![player("A"), player("B")], Vec::new(), "test");
    let result = run(&disp, "list", &ctx, &mut server).unwrap();
    assert_eq!(result, "Players (2/20): A, B");
}

#[test]
fn whitelist_unknown_action_is_usage_error() {
    let (disp, mut server) = setup();
    let result = run(&disp, "whitelist maybe", &console(), &mut server);
    assert_eq!(result, Err("Usage: /whitelist <add|remove|list|on|off>".to_string()));
}

#[test]
fn all_commands_dispatcher_resolves_aliases() {
    let disp = CommandDispatcher::with_all_commands();
    assert_eq!(disp.resolve_name("tell"), Some("msg".to_string()));
    assert_eq!(disp.resolve_name("?"), Some("help".to_string()));
    assert_eq!(disp.resolve_name("nope"), None);
}
