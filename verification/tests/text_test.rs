use apoptotic::effect::{effect_by_lower_name, resolve_effect, EffectType};
use apoptotic::item::{lookup_item_id, resolve_item_id};
use apoptotic::parser::{bool_of_lower, game_mode_of_lower, normalize_item_name, parse_bool, parse_gamemode, parse_i32};
use apoptotic::table::Table;
use apoptotic::team::TeamManager;
use apoptotic::types::GameMode;
use apoptotic::words::{
    eq_ignore_ascii_case, find_char, float_text, split_char, split_once_char, split_once_dots, split_whitespace, trim,
};

#[test]
fn trimming_and_splitting() {
    assert_eq!(trim("  a b \t"), "a b");
    assert_eq!(trim(""), "");
    assert_eq!(find_char("key=value", '='), Some(3));
    assert_eq!(find_char("novalue", '='), None);
    assert_eq!(split_once_char("a=b=c", '='), Some(("a".to_string(), "b=c".to_string())));
    assert_eq!(split_once_char("abc", '='), None);
    assert_eq!(split_once_dots("1..5"), Some(("1".to_string(), "5".to_string())));
    assert_eq!(split_once_dots("..5"), Some(("".to_string(), "5".to_string())));
    assert_eq!(split_once_dots("15"), None);
    assert_eq!(split_char("a,,b", ','), vec!["a", "", "b"]);
    assert_eq!(split_whitespace("  give  Steve\tstone 3 "), vec!["give", "Steve", "stone", "3"]);
    assert!(split_whitespace("   ").is_empty());
}

#[test]
fn ascii_case_folding() {
    assert!(eq_ignore_ascii_case("HeLLo", "hello"));
    assert!(!eq_ignore_ascii_case("hello", "hell"));
    assert!(!eq_ignore_ascii_case("a", "b"));
}

#[test]
fn float_syntax() {
    for s in ["1", "-2.5", "+3.", ".5", "1e10", "2.5E-3", "inf", "-Infinity", "NaN"] {
        assert!(float_text(s), "{s}");
        assert!(s.parse::<f64>().is_ok(), "{s}");
    }
    for s in ["", ".", "e5", "1e", "1.2.3", "abc", "- 1"] {
        assert!(!float_text(s), "{s}");
        assert!(s.parse::<f64>().is_err(), "{s}");
    }
}

#[test]
fn argument_parsing() {
    assert_eq!(parse_gamemode("C"), Ok(GameMode::Creative));
    assert_eq!(parse_gamemode("sp"), Ok(GameMode::Spectator));
    assert_eq!(parse_gamemode("0"), Ok(GameMode::Survival));
    assert_eq!(parse_gamemode("flying"), Err("Unknown gamemode: flying".to_string()));
    assert_eq!(game_mode_of_lower("adventure"), Some(GameMode::Adventure));
    assert_eq!(game_mode_of_lower("ADVENTURE"), None);
    assert_eq!(parse_i32("-17"), Ok(-17));
    assert_eq!(parse_i32("x"), Err("Invalid number: invalid digit found in string".to_string()));
    assert_eq!(parse_i32(""), Err("Invalid number: cannot parse integer from empty string".to_string()));
    assert_eq!(parse_i32("3000000000"), Err("Invalid number: number too large to fit in target type".to_string()));
    assert_eq!(parse_bool("YES"), Ok(true));
    assert_eq!(parse_bool("0"), Ok(false));
    assert_eq!(parse_bool("maybe"), Err("Invalid boolean: maybe".to_string()));
    assert_eq!(bool_of_lower("TRUE"), None);
}

#[test]
fn item_names() {
    assert_eq!(normalize_item_name("Minecraft:minecraft:STONE"), "stone");
    assert_eq!(resolve_item_id("MINECRAFT:Stone"), 1);
    assert_eq!(lookup_item_id("stone"), Some(1));
    // only one namespace prefix is removed
    assert_eq!(resolve_item_id("minecraft:minecraft:stone"), 0);
    assert_eq!(resolve_item_id("unobtainium"), 0);
    assert_eq!(lookup_item_id("Stone"), None);
}

#[test]
fn effects_by_name() {
    assert_eq!(resolve_effect("SPEED"), Some(EffectType::Speed));
    assert_eq!(resolve_effect("Heal"), Some(EffectType::InstantHealth));
    assert_eq!(effect_by_lower_name("mining_fatigue"), Some(EffectType::MiningFatigue));
    assert_eq!(effect_by_lower_name("Speed"), None);
}

#[test]
fn table_keeps_insertion_order() {
    let mut t: Table<u128, u32> = Table::new();
    t.insert(5, 50);
    t.insert(3, 30);
    t.insert(5, 55);
    assert_eq!(t.len(), 2);
    assert_eq!(*t.key(0), 5);
    assert_eq!(*t.value_at(0), 55);
    assert_eq!(t.remove(&5), Some(55));
    assert_eq!(t.remove(&5), None);
    assert!(t.contains(&3));
    assert_eq!(t.index_of(&3), Some(0));
}

#[test]
fn teams_join_and_leave() {
    let mut tm = TeamManager::new();
    tm.add_team("red", "red");
    tm.add_team("blue", "blue");
    assert!(tm.join_team("red", 1));
    assert!(!tm.join_team("green", 2));
    assert_eq!(tm.get_team(1).unwrap().name, "red");
    assert!(tm.get_team(2).is_none());
    // joining another team moves the player
    assert!(tm.join_team("blue", 1));
    assert_eq!(tm.get_team(1).unwrap().name, "blue");
    assert_eq!(tm.team_named("red").unwrap().member_count(), 0);
    assert_eq!(tm.team_named("blue").unwrap().member_count(), 1);
    tm.leave_team(1);
    assert!(tm.get_team(1).is_none());
    assert_eq!(tm.team_named("blue").unwrap().member_count(), 0);
    tm.remove_team("red");
    let names: Vec<String> = tm.list_teams().iter().map(|t| t.name.clone()).collect();
    assert_eq!(names, vec!["blue"]);
}
