use apoptotic::commands::blocks::FillCommand;
use apoptotic::commands::bossbar::{
    bossbar_added_reply, bossbar_removed_reply, bossbar_request, bossbar_updated_reply, BossbarProperty, BossbarRequest,
};
use apoptotic::commands::context::{CommandContext, CommandSource, ServerData, ServerEvent};
use apoptotic::commands::dispatcher::CommandDispatcher;
use apoptotic::commands::entity::summon_entity_type;
use apoptotic::net::streaming::plan_chunk_stream;

fn ctx(args: &[&str], loaded: Option<Vec<(i32, i32)>>) -> CommandContext {
    CommandContext {
        source: CommandSource::Console,
        args: args.iter().map(|s| s.to_string()).collect(),
        motd: String::new(),
        max_players: 10,
        players: Vec::new(),
        banned: Vec::new(),
        nearest: None,
        random: 0,
        save_available: false,
        teams_available: false,
        command_info: None,
        loaded_chunks: loaded,
    }
}

fn run(input: &str, loaded: Option<Vec<(i32, i32)>>) -> (Result<String, String>, Vec<ServerEvent>) {
    let d = CommandDispatcher::with_all_commands();
    let mut server = ServerData::new(1);
    let c = ctx(&[], loaded);
    let r = d.dispatch_input(input, &c, &mut server);
    (r, server.events)
}

#[test]
fn setblock_in_a_loaded_chunk() {
    let (r, ev) = run("setblock -1 70 17 stone", Some(vec![(-1, 1)]));
    assert_eq!(r, Ok("Set block at (-1, 70, 17) to stone".to_string()));
    assert!(matches!(ev[0], ServerEvent::SetBlock { x: -1, y: 70, z: 17, block } if block.id == 1));
}

#[test]
fn setblock_errors() {
    assert_eq!(run("setblock 0 70 0 stone", Some(vec![])).0,
        Err("Chunk (0,0) not loaded. Walk near the area first.".to_string()));
    assert_eq!(run("setblock -17 70 0 stone", Some(vec![])).0,
        Err("Chunk (-2,0) not loaded. Walk near the area first.".to_string()));
    assert_eq!(run("setblock 0 70 0 stone", None).0, Err("Chunk store not available".to_string()));
    assert_eq!(run("setblock 0 320 0 stone", None).0, Err("Y coordinate 320 out of range [-64, 319]".to_string()));
    assert_eq!(run("setblock 0 x 0 stone", None).0, Err("Invalid Y: x".to_string()));
    assert_eq!(run("setblock 0 1 0 granite_xyz", None).0, Err("Unknown block: granite_xyz".to_string()));
    assert_eq!(run("setblock 0 1 0", None).0, Err("Usage: /setblock <x> <y> <z> <block>".to_string()));
}

#[test]
fn fill_counts_loaded_columns() {
    // 4 x 2 x 3 region; columns with x in 14..=17 span chunks 0 and 1, only chunk 0 loaded
    let (r, ev) = run("fill 17 10 0 14 11 2 stone", Some(vec![(0, 0)]));
    // columns x = 14, 15 (chunk 0) times z = 0..=2 → 6 columns, 2 high
    assert_eq!(r, Ok("Filled 12 blocks with stone".to_string()));
    assert!(matches!(ev[0], ServerEvent::FillRegion { x1: 14, y1: 10, z1: 0, x2: 17, y2: 11, z2: 2, .. }));
}

#[test]
fn fill_clamps_height_and_checks_volume() {
    let (r, _) = run("fill 0 -100 0 0 -60 0 stone", Some(vec![(0, 0)]));
    assert_eq!(r, Ok("Filled 5 blocks with stone".to_string()));
    assert_eq!(run("fill 0 0 0 99 9 99 stone", Some(vec![])).0,
        Err("Too many blocks (100000 > 32768). Use a smaller region.".to_string()));
    // a height span that runs backwards wraps to a huge volume
    assert!(run("fill 0 10 0 0 5 0 stone", Some(vec![])).0.unwrap_err().starts_with("Too many blocks ("));
    // one row lower than the start gives no height at all
    assert_eq!(run("fill 0 10 0 0 9 0 stone", Some(vec![(0, 0)])).0, Ok("Filled 0 blocks with stone".to_string()));
}

#[test]
fn fill_argument_errors_in_order() {
    assert_eq!(run("fill", None).0, Err("Usage: /fill <x1> <y1> <z1> <x2> <y2> <z2> <block>".to_string()));
    assert_eq!(run("fill a", None).0, Err("Invalid X1".to_string()));
    assert_eq!(run("fill 1", None).0, Err("Missing Y1".to_string()));
    assert_eq!(run("fill 1 2 3 4 5", None).0, Err("Missing Z2".to_string()));
    assert_eq!(run("fill 1 2 3 4 5 6", None).0, Err("Usage: /fill <x1> <y1> <z1> <x2> <y2> <z2> <block>".to_string()));
    assert_eq!(run("fill 1 2 3 4 5 6 stone", None).0, Err("Chunk store not available".to_string()));
}

#[test]
fn fill_overflowing_widths_are_out_of_range() {
    let c = ctx(&["-2147483648", "0", "0", "2147483647", "0", "0", "stone"], None);
    assert!(!FillCommand.in_range(&c));
    let c = ctx(&["0", "0", "0", "5", "5", "5", "stone"], None);
    assert!(FillCommand.in_range(&c));
}

#[test]
fn bossbar_requests() {
    let r = bossbar_request(&ctx(&["add", "b1", "Big", "Boss"], None)).unwrap();
    assert!(matches!(r, BossbarRequest::Add { ref id, ref title } if id == "b1" && title == "Big Boss"));
    let r = bossbar_request(&ctx(&["SET", "b1", "Color", "red"], None)).unwrap();
    assert!(matches!(r, BossbarRequest::Update { property: BossbarProperty::Color, ref name, ref value, .. }
        if name == "color" && value == "red"));
    assert!(matches!(bossbar_request(&ctx(&["list", "x"], None)), Ok(BossbarRequest::List)));
    assert!(matches!(bossbar_request(&ctx(&["remove", "b1"], None)), Ok(BossbarRequest::Remove { .. })));
    assert_eq!(bossbar_request(&ctx(&["list"], None)).unwrap_err(),
        "Usage: /bossbar add <id> <name> | remove <id> | set <id> <value|max|color> <value> | list");
    assert_eq!(bossbar_request(&ctx(&["set", "b1", "speed", "2"], None)).unwrap_err(), "Properties: value, max, color");
    assert_eq!(bossbar_request(&ctx(&["hide", "b1"], None)).unwrap_err(),
        "Unknown bossbar action: hide. Use add/remove/set/list");
    assert_eq!(bossbar_removed_reply("b1"), "Removed bossbar 'b1'");
    assert_eq!(bossbar_updated_reply("b1", "value", "0.5"), "Bossbar 'b1' updated (value= 0.5)");
    assert_eq!(bossbar_added_reply("b1", Some("Big Boss")), "Created bossbar 'b1': Big Boss");
    assert_eq!(bossbar_added_reply("b1", None), "Bossbar 'b1' already exists");
}

#[test]
fn summon_types() {
    assert_eq!(summon_entity_type("Minecraft:Zombie"), Ok(36));
    assert_eq!(summon_entity_type("experience_orb"), Ok(53));
    assert_eq!(summon_entity_type("ender_dragon"), Ok(53));
    assert_eq!(summon_entity_type("ocelot"), Ok(29));
    assert_eq!(summon_entity_type("minecraft:ocelot"), Err("Unknown entity type: minecraft:ocelot (20 types supported)".to_string()));
}

#[test]
fn chunk_stream_sends_nearest_first() {
    let loaded = vec![(0, 0), (5, 5)];
    let plan = plan_chunk_stream((0, 0), (1, 0), 1, &loaded);
    // view square around (1, 0) with radius 1: 9 chunks, (0, 0) already loaded
    assert_eq!(plan.new_chunks.len(), 8);
    assert_eq!(plan.to_send.len(), 6);
    assert_eq!(plan.deferred, 2);
    assert_eq!(plan.to_send[0], (1, 0));
    assert_eq!(plan.preload, Some((3, 0)));
    assert_eq!(plan.evicted, vec![(5, 5)]);
    assert_eq!(plan.loaded_after.len(), 9);
    assert!(plan.loaded_after.contains(&(0, 0)));
    assert!(!plan.loaded_after.contains(&(5, 5)));
}

#[test]
fn chunk_stream_without_radius_changes_nothing() {
    let loaded = vec![(0, 0)];
    let plan = plan_chunk_stream((0, 0), (9, 9), 0, &loaded);
    assert!(plan.new_chunks.is_empty() && plan.to_send.is_empty() && plan.evicted.is_empty());
    assert_eq!(plan.loaded_after, loaded);
    assert_eq!(plan.preload, None);
}

#[test]
fn clone_counts_blocks_loaded_at_both_ends() {
    // 3 x 2 x 2 box at x 14..=16, copied 16 blocks east: source columns x 14, 15 are in
    // chunk 0 and x 16 in chunk 1; targets x 30, 31 in chunk 1 and x 32 in chunk 2.
    let (r, ev) = run("clone 14 10 0 16 11 1 16 0 0", Some(vec![(0, 0), (1, 0)]));
    // columns (14|15, z 0..=1) → 4 columns, 2 rows
    assert_eq!(r, Ok("Cloned 8 blocks".to_string()));
    assert!(matches!(ev[0], ServerEvent::CloneRegion { x1: 14, y1: 10, z1: 0, x2: 16, y2: 11, z2: 1, dx: 16, dy: 0, dz: 0 }));
}

#[test]
fn clone_keeps_to_the_world_heights() {
    // heights 318..=319 moved up 1: only 318 lands inside the world
    let (r, ev) = run("clone 0 318 0 0 319 0 0 1 0", Some(vec![(0, 0)]));
    assert_eq!(r, Ok("Cloned 1 blocks".to_string()));
    assert_eq!(ev.len(), 1);
}

#[test]
fn clone_errors() {
    assert_eq!(run("clone 0 0 0 1 1 1 0 0", None).0,
        Err("Usage: /clone <x1> <y1> <z1> <x2> <y2> <z2> <dx> <dy> <dz>".to_string()));
    assert_eq!(run("clone 0 0 0 1 q 1 0 0 0", None).0, Err("Invalid y2".to_string()));
    assert_eq!(run("clone 0 0 0 1 1 1 0 0 z", None).0, Err("Invalid dz".to_string()));
    assert_eq!(run("clone 0 0 0 99 9 99 0 0 0", Some(vec![])).0, Err("Too many blocks (max 32768)".to_string()));
    assert_eq!(run("clone 0 0 0 1 1 1 5 5 5", None).0, Err("Chunk store unavailable".to_string()));
}
