use apoptotic::commands::context::{PlayerInfo, ServerEvent};
use apoptotic::commands::lists::PlayerLists;
use apoptotic::types::GameMode;

fn player(uuid: u128, name: &str) -> PlayerInfo {
    PlayerInfo {
        uuid,
        username: name.to_string(),
        gamemode: GameMode::Survival,
        is_op: false,
        xp_level: 0,
        xp_total: 0,
        xp_percent: 0,
        block_x: 0,
        block_y: 64,
    }
}

fn lists() -> PlayerLists {
    PlayerLists { players: vec![player(1, "Ann"), player(2, "Bob")], banned: vec![7], whitelist: Vec::new(), whitelist_enabled: false }
}

#[test]
fn bans_are_kept_once_and_lifted_entirely() {
    let mut l = lists();
    l.apply(&ServerEvent::Ban { uuid: 9 });
    l.apply(&ServerEvent::Ban { uuid: 9 });
    assert_eq!(l.banned, vec![7, 9]);
    l.apply(&ServerEvent::Unban { uuid: 7 });
    assert_eq!(l.banned, vec![9]);
    l.apply(&ServerEvent::Unban { uuid: 5 });
    assert_eq!(l.banned, vec![9]);
}

#[test]
fn whitelist_changes() {
    let mut l = lists();
    l.apply(&ServerEvent::WhitelistAdd { uuid: 1 });
    l.apply(&ServerEvent::WhitelistAdd { uuid: 2 });
    l.apply(&ServerEvent::WhitelistAdd { uuid: 1 });
    assert_eq!(l.whitelist, vec![1, 2]);
    l.apply(&ServerEvent::WhitelistRemove { uuid: 1 });
    assert_eq!(l.whitelist, vec![2]);
    l.apply(&ServerEvent::WhitelistEnabled { enabled: true });
    assert!(l.whitelist_enabled);
}

#[test]
fn game_modes_and_operators_change_for_the_named_player() {
    let mut l = lists();
    l.apply(&ServerEvent::SetGamemode { uuid: 2, mode: GameMode::Creative });
    assert_eq!(l.players[0].gamemode, GameMode::Survival);
    assert_eq!(l.players[1].gamemode, GameMode::Creative);
    l.apply(&ServerEvent::SetOp { uuid: 1, op: true });
    assert!(l.players[0].is_op);
    assert!(!l.players[1].is_op);
    l.apply(&ServerEvent::Kill { uuid: 1 });
    assert_eq!(l.players.len(), 2);
    assert_eq!(l.banned, vec![7]);
}
