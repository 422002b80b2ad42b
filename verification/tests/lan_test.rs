use apoptotic::net::lan::build_lan_message;

#[test]
fn test_lan_message_format() {
    let msg = build_lan_message("My Server", 25565);
    assert!(msg.starts_with("[MOTD]"));
    assert!(msg.contains("[/MOTD]"));
    assert!(msg.contains("[AD]25565[/AD]"));
    assert_eq!(msg, "[MOTD]My Server[/MOTD][AD]25565[/AD]");
}

#[test]
fn test_lan_message_empty_motd() {
    let msg = build_lan_message("", 12345);
    assert_eq!(msg, "[MOTD][/MOTD][AD]12345[/AD]");
}

#[test]
fn test_lan_message_special_port() {
    let msg = build_lan_message("Test", 65535);
    assert!(msg.ends_with("[AD]65535[/AD]"));
}

#[test]
fn lan_message_port_zero() {
    assert_eq!(build_lan_message("x", 0), "[MOTD]x[/MOTD][AD]0[/AD]");
}
