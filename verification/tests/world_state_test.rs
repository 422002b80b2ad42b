use apoptotic::types::GameMode;
use apoptotic::world_state::{Difficulty, Weather, WorldState};

#[test]
fn test_world_state_time() {
    let mut ws = WorldState::new(42);
    assert_eq!(ws.time, 0);
    assert_eq!(ws.seed, 42);

    ws.set_time(1000);
    assert_eq!(ws.time, 1000);
    assert_eq!(ws.daytime, 1000);

    ws.add_time(500);
    assert_eq!(ws.time, 1500);

    ws.add_time(23000);
    assert_eq!(ws.daytime, 1500 + 23000 - 24000);
}

#[test]
fn test_world_state_weather_difficulty() {
    let mut ws = WorldState::default();
    assert!(matches!(ws.weather, Weather::Clear));
    assert!(matches!(ws.difficulty, Difficulty::Normal));

    ws.set_weather(Weather::Rain, 6000);
    assert!(matches!(ws.weather, Weather::Rain));

    ws.set_difficulty(Difficulty::Hard);
    assert!(matches!(ws.difficulty, Difficulty::Hard));
}

#[test]
fn test_world_state_default_gamemode() {
    let mut ws = WorldState::default();
    assert_eq!(ws.default_gamemode, GameMode::Survival);

    ws.set_default_gamemode(GameMode::Creative);
    assert_eq!(ws.default_gamemode, GameMode::Creative);

    ws.set_default_gamemode(GameMode::Adventure);
    assert_eq!(ws.default_gamemode, GameMode::Adventure);
}

#[test]
fn world_time_stops_without_daylight_cycle() {
    let mut ws = WorldState::new(1);
    ws.game_rules.insert("doDaylightCycle", "false");
    ws.add_time(100);
    assert_eq!(ws.time, 0);
    ws.set_time(30000);
    assert_eq!(ws.daytime, 6000);
}

#[test]
fn world_time_wraps_at_u64() {
    let mut ws = WorldState::new(1);
    ws.set_time(u64::MAX);
    ws.add_time(2);
    assert_eq!(ws.time, 1);
    assert_eq!(ws.daytime, 1);
}

#[test]
fn game_rules_sorted_and_replaced() {
    let mut ws = WorldState::new(0);
    assert_eq!(ws.game_rules.get("randomTickSpeed"), Some("3".to_string()));
    ws.game_rules.insert("randomTickSpeed", "10");
    assert_eq!(ws.game_rules.get("randomTickSpeed"), Some("10".to_string()));
    assert_eq!(ws.game_rules.get("nope"), None);
    let n = ws.game_rules.len();
    assert_eq!(n, 7);
    for i in 1..n {
        assert!(ws.game_rules.entry(i - 1).0 < ws.game_rules.entry(i).0);
    }
}

#[test]
fn force_loaded_set() {
    let mut ws = WorldState::new(0);
    ws.force_loaded.insert((1, 2));
    ws.force_loaded.insert((1, 2));
    ws.force_loaded.insert((3, 4));
    assert_eq!(ws.force_loaded.len(), 2);
    assert!(ws.force_loaded.contains((3, 4)));
    ws.force_loaded.remove((1, 2));
    assert!(!ws.force_loaded.contains((1, 2)));
    assert_eq!(ws.force_loaded.len(), 1);
}
