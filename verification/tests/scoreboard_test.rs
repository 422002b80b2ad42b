use apoptotic::commands::context::{CommandContext, CommandSource, ServerData, ServerEvent};
use apoptotic::commands::scoreboard::{ScoreboardCommand, ScoreboardData};

fn make_ctx(args: Vec<&str>) -> CommandContext {
    CommandContext {
        source: CommandSource::Console,
        args: args.iter().map(|s| s.to_string()).collect(),
        motd: String::new(),
        max_players: 20,
        players: Vec::new(),
        banned: Vec::new(),
        nearest: None,
        random: 0,
        save_available: false,
        teams_available: false,
        command_info: None,
        loaded_chunks: None,
    }
}

fn run(server: &mut ServerData, args: Vec<&str>) -> Result<String, String> {
    let ctx = make_ctx(args);
    let cmd = ScoreboardCommand;
    assert!(cmd.in_range(&ctx, server));
    cmd.execute(&ctx, server)
}

#[test]
fn test_scoreboard_objectives_add_list() {
    let mut server = ServerData::new(42);
    let obj = "deaths_0";
    let result = run(&mut server, vec!["objectives", "add", obj, "dummy", "Deaths"]).unwrap();
    assert!(result.contains("Created"), "{}", result);
    let result = run(&mut server, vec!["objectives", "list"]).unwrap();
    assert!(result.contains(obj), "{}", result);
}

#[test]
fn test_scoreboard_players_set_get() {
    let mut server = ServerData::new(42);
    let obj = "kills_1";
    run(&mut server, vec!["objectives", "add", obj, "dummy"]).unwrap();
    let result = run(&mut server, vec!["players", "set", "Steve", obj, "42"]).unwrap();
    assert!(result.contains("42"), "{}", result);
    let result = run(&mut server, vec!["players", "get", "Steve", obj]).unwrap();
    assert!(result.contains("42"), "{}", result);
}

#[test]
fn test_scoreboard_players_add() {
    let mut server = ServerData::new(42);
    let obj = "score_2";
    run(&mut server, vec!["objectives", "add", obj, "dummy"]).unwrap();
    let result = run(&mut server, vec!["players", "add", "Alice", obj, "10"]).unwrap();
    assert!(result.contains("10"), "{}", result);
    let result = run(&mut server, vec!["players", "add", "Alice", obj, "5"]).unwrap();
    assert!(result.contains("15"), "{}", result);
}

#[test]
fn test_scoreboard_objectives_remove() {
    let mut server = ServerData::new(42);
    let obj = "tmp_3";
    run(&mut server, vec!["objectives", "add", obj, "dummy"]).unwrap();
    let result = run(&mut server, vec!["objectives", "remove", obj]).unwrap();
    assert!(result.contains("Removed"), "{}", result);
}

#[test]
fn scoreboard_exact_replies() {
    let mut server = ServerData::new(1);
    assert_eq!(run(&mut server, vec!["objectives", "add", "k", "dummy"]), Ok("Created objective 'k' (criteria: dummy)".to_string()));
    assert_eq!(run(&mut server, vec!["objectives", "add", "k", "dummy"]), Err("Objective 'k' already exists".to_string()));
    assert_eq!(run(&mut server, vec!["objectives", "list"]), Ok("Objectives:\n  k (criteria: dummy, display: k)".to_string()));
    assert_eq!(run(&mut server, vec!["players", "set", "Bob", "k", "-7"]), Ok("Set Bob's score in 'k' to -7".to_string()));
    assert_eq!(run(&mut server, vec!["players", "get", "Bob", "k"]), Ok("Bob's score in 'k': -7".to_string()));
    assert_eq!(run(&mut server, vec!["players", "get", "Amy", "k"]), Ok("Amy has no score in 'k'".to_string()));
    assert_eq!(run(&mut server, vec!["players", "add", "Bob", "k", "+10"]), Ok("Bob's score in 'k' is now 3".to_string()));
    assert_eq!(run(&mut server, vec!["players", "set", "Bob", "zz", "1"]), Err("Unknown objective: zz".to_string()));
    assert_eq!(run(&mut server, vec!["players", "set", "Bob", "k", "x1"]), Err("Invalid value: x1".to_string()));
    assert_eq!(run(&mut server, vec!["objectives", "remove", "k"]), Ok("Removed objective 'k'".to_string()));
    assert_eq!(run(&mut server, vec!["objectives", "remove", "k"]), Err("Objective 'k' not found".to_string()));
    assert_eq!(run(&mut server, vec!["objectives", "list"]), Ok("No objectives defined".to_string()));
}

#[test]
fn scoreboard_usage_errors() {
    let mut server = ServerData::new(1);
    assert!(run(&mut server, vec![]).unwrap_err().starts_with("Usage: /scoreboard objectives"));
    assert_eq!(run(&mut server, vec!["teams"]), Err("Unknown subcommand: teams. Use 'objectives' or 'players'".to_string()));
    assert_eq!(run(&mut server, vec!["OBJECTIVES", "frob"]), Err("Unknown operation: frob. Use add, remove, or list".to_string()));
    assert_eq!(run(&mut server, vec!["players", "zap", "a", "b"]), Err("Unknown operation: zap. Use set, get, or add".to_string()));
    assert_eq!(run(&mut server, vec!["objectives", "add", "x"]), Err("Usage: /scoreboard objectives add <name> <criteria> [display]".to_string()));
}

#[test]
fn scoreboard_sync_events() {
    let mut server = ServerData::new(1);
    run(&mut server, vec!["objectives", "add", "k", "deathCount", "Deaths"]).unwrap();
    run(&mut server, vec!["players", "set", "Bob", "k", "5"]).unwrap();
    assert_eq!(server.events.len(), 2);
    match &server.events[0] {
        ServerEvent::ScoreboardObjective { name, action, display, criteria } => {
            assert_eq!((name.as_str(), *action, display.as_str(), criteria.as_str()), ("k", 0, "Deaths", "deathCount"));
        }
        other => panic!("unexpected {:?}", other),
    }
    match &server.events[1] {
        ServerEvent::ScoreboardScore { player, objective, value, action } => {
            assert_eq!((player.as_str(), objective.as_str(), *value, *action), ("Bob", "k", 5, 0));
        }
        other => panic!("unexpected {:?}", other),
    }
}

#[test]
fn scoreboard_data_laws_on_values() {
    let mut sb = ScoreboardData::new();
    assert_eq!(sb.set_score("a", "o", 1), Err("Unknown objective: o".to_string()));
    assert!(sb.add_objective("o", "dummy", "O"));
    assert!(!sb.add_objective("o", "dummy", "Other"));
    assert_eq!(sb.set_score("a", "o", 4), Ok(()));
    assert_eq!(sb.get_score("a", "o"), Some(4));
    assert_eq!(sb.add_score("a", "o", 3), Ok(7));
    assert_eq!(sb.add_score("b", "o", -2), Ok(-2));
    assert_eq!(sb.list_objectives().len(), 1);
    assert!(sb.remove_objective("o"));
    assert_eq!(sb.get_score("a", "o"), None);
    assert!(sb.add_objective("o", "dummy", "O"));
    assert_eq!(sb.get_score("a", "o"), None);
}

#[test]
fn scoreboard_add_overflow_is_out_of_range() {
    let mut server = ServerData::new(1);
    run(&mut server, vec!["objectives", "add", "k", "dummy"]).unwrap();
    run(&mut server, vec!["players", "set", "Bob", "k", "2147483647"]).unwrap();
    let ctx = make_ctx(vec!["players", "add", "Bob", "k", "1"]);
    assert!(!ScoreboardCommand.in_range(&ctx, &server));
}
