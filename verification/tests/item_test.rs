use apoptotic::item::{is_known_id, item_count, item_names, known_item_ids, resolve_item, resolve_item_id};

#[test]
fn test_resolve_stone() {
    assert_eq!(resolve_item("stone").unwrap().id, 1);
}

#[test]
fn test_26_2_blocks() {
    assert_eq!(resolve_item("potent_sulfur").unwrap().id, 999);
    assert_eq!(resolve_item("music_disc_bounce").unwrap().id, 1342);
}
