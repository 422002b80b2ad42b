use apoptotic::commands::context::{CommandContext, CommandSource, PlayerInfo, ServerData, ServerEvent};
use apoptotic::commands::dispatcher::{CommandDispatcher, CommandKind};
use apoptotic::commands::entity::{level_total_fits, total_xp_for_level};
use apoptotic::net::session::offline_uuid;
use apoptotic::types::GameMode;

fn player(name: &str, level: i32, total: i32, percent: u32) -> PlayerInfo {
    PlayerInfo {
        uuid: offline_uuid(name),
        username: name.to_string(),
        gamemode: GameMode::Survival,
        is_op: false,
        xp_level: level,
        xp_total: total,
        xp_percent: percent,
        block_x: 0,
        block_y: 64,
    }
}

fn ctx(source: CommandSource, players: Vec<PlayerInfo>) -> CommandContext {
    CommandContext {
        source,
        args: Vec::new(),
        motd: "m".to_string(),
        max_players: 10,
        players,
        banned: Vec::new(),
        nearest: None,
        random: 0,
        save_available: false,
        teams_available: false,
        command_info: None,
        loaded_chunks: None,
    }
}

fn run(input: &str, c: &CommandContext) -> (Result<String, String>, Vec<ServerEvent>) {
    let d = CommandDispatcher::with_all_commands();
    let mut server = ServerData::new(1);
    let r = d.dispatch_input(input, c, &mut server);
    (r, server.events)
}

fn two_players() -> CommandContext {
    ctx(CommandSource::Console, vec![player("Ann", 3, 27, 40), player("Bob", 0, 0, 0)])
}

#[test]
fn title_sends_escaped_json() {
    let (r, ev) = run("title Ann actionbar a\"b\\c", &two_players());
    assert_eq!(r, Ok("Sent actionbar to 1 player(s)".to_string()));
    assert_eq!(ev.len(), 1);
    match &ev[0] {
        ServerEvent::Title { uuid, action, text } => {
            assert_eq!(*uuid, offline_uuid("Ann"));
            assert_eq!(*action, 2);
            assert_eq!(text, "{\"text\":\"a\\\"b\\\\c\"}");
        },
        other => panic!("unexpected {:?}", other),
    }
}

#[test]
fn title_clear_has_no_text_and_reaches_everyone() {
    let (r, ev) = run("title @a CLEAR x", &two_players());
    assert_eq!(r, Ok("Sent clear to 2 player(s)".to_string()));
    assert!(ev.iter().all(|e| matches!(e, ServerEvent::Title { action: 4, text, .. } if text.is_empty())));
    assert_eq!(ev.len(), 2);
}

#[test]
fn title_errors() {
    assert_eq!(
        run("title Ann", &two_players()).0,
        Err("Usage: /title <player> title|subtitle|actionbar|clear|reset <text>".to_string())
    );
    assert_eq!(
        run("title Ann shout hi", &two_players()).0,
        Err("Unknown title action: shout. Use title/subtitle/actionbar/clear/reset".to_string())
    );
    assert_eq!(run("title Zed title hi", &two_players()).0, Err("No player matched: Zed".to_string()));
}

#[test]
fn clear_defaults_to_the_source() {
    let ann = offline_uuid("Ann");
    let mut c = two_players();
    c.source = CommandSource::player("Ann", ann);
    let (r, ev) = run("clear", &c);
    assert_eq!(r, Ok("Cleared inventory of 1 player(s)".to_string()));
    assert!(matches!(ev[0], ServerEvent::ClearInventory { uuid } if uuid == ann));
    assert_eq!(run("clear", &two_players()).0, Err("Usage: /clear [player]".to_string()));
}

#[test]
fn stopsound_for_all() {
    let (r, ev) = run("stopsound @a", &two_players());
    assert_eq!(r, Ok("Stopped sounds for 2 player(s)".to_string()));
    assert_eq!(ev.len(), 2);
    assert_eq!(run("stopsound", &two_players()).0, Err("Usage: /stopsound <player> [sound]".to_string()));
    assert_eq!(run("stopsound Zed", &two_players()).0, Err("No targets matched".to_string()));
}

#[test]
fn spectate_switches_mode_and_follows() {
    let ann = offline_uuid("Ann");
    let mut c = two_players();
    c.source = CommandSource::player("Ann", ann);
    let (r, ev) = run("spectate Bob", &c);
    assert_eq!(r, Ok("Spectating Bob".to_string()));
    assert!(matches!(ev[0], ServerEvent::SetGamemode { uuid, mode: GameMode::Spectator } if uuid == ann));
    assert!(matches!(ev[1], ServerEvent::Spectate { uuid, target } if uuid == ann && target == offline_uuid("Bob")));
    assert_eq!(run("spectate Bob", &two_players()).0, Err("Console cannot spectate".to_string()));
}

#[test]
fn ride_mount_and_dismount() {
    let (r, ev) = run("ride Ann mount Bob", &two_players());
    assert_eq!(r, Ok("1 entity(s) mounted".to_string()));
    assert!(matches!(ev[0], ServerEvent::Mount { uuid, vehicle } if uuid == offline_uuid("Ann") && vehicle == offline_uuid("Bob")));
    let (r, ev) = run("ride @a dismount", &two_players());
    assert_eq!(r, Ok("2 entity(s) dismounted".to_string()));
    assert_eq!(ev.len(), 2);
    assert_eq!(run("ride Ann mount Zed", &two_players()).0, Err("No matching entities".to_string()));
    assert_eq!(run("ride Ann jump", &two_players()).0, Err("Usage: /ride <target> <mount|dismount>".to_string()));
}

#[test]
fn attribute_shows_known_values() {
    assert_eq!(
        run("attribute Ann minecraft:generic.max_health", &two_players()).0,
        Ok("Ann: minecraft:generic.max_health = 20".to_string())
    );
    assert_eq!(
        run("attribute Ann minecraft:generic.luck get", &two_players()).0,
        Ok("Ann: minecraft:generic.luck = unknown (display only)".to_string())
    );
    assert_eq!(
        run("attribute Ann minecraft:generic.armor set 5", &two_players()).0,
        Ok("Attribute minecraft:generic.armor set (display only)".to_string())
    );
    assert_eq!(run("attribute Ann x remove", &two_players()).0, Err("Use get or set".to_string()));
}

#[test]
fn item_replaces_a_slot() {
    let (r, ev) = run("item replace entity Ann 4 with stone 3", &two_players());
    assert_eq!(r, Ok("Gave 3x stone to slot 4 of 1 player(s)".to_string()));
    assert!(matches!(ev[0], ServerEvent::GiveItem { count: 3, block, .. } if block.id == 1));
    assert_eq!(run("item replace entity Ann 999 with stone", &two_players()).0, Err("Invalid slot: 999".to_string()));
    assert_eq!(run("item replace entity Ann 1 with nothing", &two_players()).0, Err("Unknown item: nothing".to_string()));
    assert_eq!(
        run("item replace entity Ann", &two_players()).0,
        Err("Usage: /item replace entity <target> <slot> with <item> [count]".to_string())
    );
}

#[test]
fn item_with_five_arguments_is_out_of_range() {
    let d = CommandDispatcher::with_all_commands();
    let mut server = ServerData::new(1);
    let mut c = two_players();
    c.args = vec!["item", "replace", "entity", "Ann", "4", "with"].into_iter().map(String::from).collect();
    assert!(d.dispatch_checked(&c, &mut server).is_none());
    c.args.push("stone".to_string());
    assert!(d.dispatch_checked(&c, &mut server).is_some());
    assert!(CommandKind::Item.in_range(&c, &server));
}

#[test]
fn experience_levels() {
    assert_eq!(total_xp_for_level(0), 0);
    assert_eq!(total_xp_for_level(-3), 0);
    assert_eq!(total_xp_for_level(1), 7);
    assert_eq!(total_xp_for_level(16), 352);
    assert_eq!(total_xp_for_level(30), 1395);
    assert_eq!(total_xp_for_level(31), 1507);
    assert!(level_total_fits(21000));
    assert!(!level_total_fits(30000));
}

#[test]
fn xp_subcommands() {
    let (r, ev) = run("xp add 5 Ann", &two_players());
    assert_eq!(r, Ok("Added 5 XP to 1 player(s)".to_string()));
    assert!(matches!(ev[0], ServerEvent::AddXp { amount: 5, .. }));
    let (r, ev) = run("experience set 30 @a", &two_players());
    assert_eq!(r, Ok("Set 2 player(s) to level 30".to_string()));
    assert!(ev.iter().all(|e| matches!(e, ServerEvent::SetXp { level: 30, total: 1395, .. })));
    assert_eq!(run("xp query Ann", &two_players()).0, Ok("Ann has 27 XP (level 3, 40%)".to_string()));
    let (r, ev) = run("xp -4 Bob", &two_players());
    assert_eq!(r, Ok("Added -4 XP to 1 player(s)".to_string()));
    assert!(matches!(ev[0], ServerEvent::AddXp { amount: -4, .. }));
    assert_eq!(run("xp lots", &two_players()).0, Err("Invalid amount".to_string()));
    assert_eq!(run("xp add", &two_players()).0, Err("Specify amount: /xp add <points> [player]".to_string()));
    assert_eq!(run("xp add 5", &two_players()).0, Err("No players matched".to_string()));
}

#[test]
fn huge_xp_levels_are_out_of_range() {
    let d = CommandDispatcher::with_all_commands();
    let mut server = ServerData::new(1);
    let mut c = two_players();
    c.args = vec!["xp", "set", "100000", "Ann"].into_iter().map(String::from).collect();
    assert!(d.dispatch_checked(&c, &mut server).is_none());
}

#[test]
fn playsound_adds_the_namespace() {
    let (r, ev) = run("playsound block.note_block.pling @a 0.5", &two_players());
    assert_eq!(r, Ok("Played block.note_block.pling to 2 player(s)".to_string()));
    assert_eq!(ev.len(), 2);
    match &ev[0] {
        ServerEvent::PlaySound { sound, volume, pitch, .. } => {
            assert_eq!(sound, "minecraft:block.note_block.pling");
            assert_eq!(volume, "0.5");
            assert_eq!(pitch, "");
        },
        other => panic!("unexpected {:?}", other),
    }
    let (_, ev) = run("playsound custom:boom Ann", &two_players());
    assert!(matches!(&ev[0], ServerEvent::PlaySound { sound, .. } if sound == "custom:boom"));
    assert_eq!(run("playsound x", &two_players()).0, Err("Usage: /playsound <sound> <player> [volume] [pitch]".to_string()));
    assert_eq!(run("playsound x Zed", &two_players()).0, Err("No player matched: Zed".to_string()));
}
