use apoptotic::admin::console::{console_line, console_reply, sort_strings, ConsoleAction};
use apoptotic::admin::metrics::MetricsExporter;
use apoptotic::commands::dispatcher::{CommandDispatcher, CommandKind};
use apoptotic::admin::rcon::{
    authenticate, command_reply, command_step, decode_rcon_body, encode_rcon_packet, password_matches, rcon_body_len,
    RconPacket, RconStep, RCON_AUTH_FAILED, RCON_TYPE_COMMAND, RCON_TYPE_LOGIN, RCON_TYPE_RESPONSE,
};

#[test]
fn test_rcon_packet_format_constants() {
    let response_type: i32 = 0;
    let command_type: i32 = 2;
    let login_type: i32 = 3;
    assert_eq!(response_type, 0);
    assert_ne!(command_type, response_type);
    assert_ne!(login_type, response_type);
    assert_ne!(login_type, command_type);
    assert_eq!(RCON_TYPE_RESPONSE, response_type);
    assert_eq!(RCON_TYPE_COMMAND, command_type);
    assert_eq!(RCON_TYPE_LOGIN, login_type);
}

#[test]
fn rcon_encode_layout() {
    let p = encode_rcon_packet(7, RCON_TYPE_COMMAND, "list");
    assert_eq!(p, vec![14, 0, 0, 0, 7, 0, 0, 0, 2, 0, 0, 0, b'l', b'i', b's', b't', 0, 0]);
}

#[test]
fn rcon_round_trip() {
    let p = encode_rcon_packet(-5, RCON_TYPE_LOGIN, "pw");
    let len = rcon_body_len(&[p[0], p[1], p[2], p[3]]).unwrap();
    assert_eq!(len, p.len() - 4);
    let d = decode_rcon_body(&p[4..]);
    assert_eq!(d, RconPacket { request_id: -5, ptype: RCON_TYPE_LOGIN, payload: b"pw".to_vec() });
}

#[test]
fn rcon_length_limits() {
    assert_eq!(rcon_body_len(&[9, 0, 0, 0]), Err(9));
    assert_eq!(rcon_body_len(&[10, 0, 0, 0]), Ok(10));
    assert_eq!(rcon_body_len(&[0x0e, 0x10, 0, 0]), Ok(4110));
    assert_eq!(rcon_body_len(&[0x0f, 0x10, 0, 0]), Err(4111));
    assert_eq!(rcon_body_len(&[0xff, 0xff, 0xff, 0xff]), Err(-1));
}

#[test]
fn rcon_password_plain_and_sha1() {
    assert!(password_matches("secret", "secret"));
    assert!(!password_matches("secret", "Secret"));
    // sha1("secret") = e5e9fa1ba31ecd1ae84f75caaa474f3a663f05f4
    assert!(password_matches("$sha1$e5e9fa1ba31ecd1ae84f75caaa474f3a663f05f4", "secret"));
    assert!(!password_matches("$sha1$e5e9fa1ba31ecd1ae84f75caaa474f3a663f05f4", "other"));
}

#[test]
fn rcon_authenticate_outcomes() {
    let ok = RconPacket { request_id: 9, ptype: RCON_TYPE_LOGIN, payload: b" secret\n".to_vec() };
    assert_eq!(authenticate("secret", &ok), (true, 9));
    let bad = RconPacket { request_id: 9, ptype: RCON_TYPE_LOGIN, payload: b"nope".to_vec() };
    assert_eq!(authenticate("secret", &bad), (false, RCON_AUTH_FAILED));
    let wrong_type = RconPacket { request_id: 9, ptype: RCON_TYPE_COMMAND, payload: b"secret".to_vec() };
    assert_eq!(authenticate("secret", &wrong_type), (false, -1));
}

#[test]
fn rcon_command_steps() {
    let p = RconPacket { request_id: 3, ptype: RCON_TYPE_COMMAND, payload: b"  say hi ".to_vec() };
    assert_eq!(command_step(&p), RconStep::Dispatch(3, "say hi".to_string()));
    let e = RconPacket { request_id: 4, ptype: RCON_TYPE_COMMAND, payload: b"   ".to_vec() };
    assert_eq!(command_step(&e), RconStep::ReplyEmpty(4));
    let o = RconPacket { request_id: 5, ptype: RCON_TYPE_RESPONSE, payload: b"x".to_vec() };
    assert_eq!(command_step(&o), RconStep::Ignore);
}

#[test]
fn rcon_command_reply_carries_text() {
    assert_eq!(command_reply(8, Ok("done".to_string())), (8, 0, "done".to_string()));
    assert_eq!(command_reply(8, Err("bad".to_string())), (8, 0, "bad".to_string()));
}

#[test]
fn metrics_switch() {
    assert!(MetricsExporter::new(true, 9100).is_enabled());
    assert!(!MetricsExporter::new(false, 9100).is_enabled());
}

#[test]
fn console_lines() {
    let mut d = CommandDispatcher::new();
    d.register(CommandKind::Say);
    d.register(CommandKind::Help);
    d.register(CommandKind::Msg);
    assert!(matches!(console_line(&d, "  \t "), ConsoleAction::Skip));
    match console_line(&d, " help ") {
        ConsoleAction::Print(lines) => assert_eq!(
            lines,
            vec![
                "Available commands: help, msg, say".to_string(),
                "Use /<command> or just type the command name".to_string()
            ]
        ),
        _ => panic!("help prints the command list"),
    }
    assert!(matches!(console_line(&d, "?"), ConsoleAction::Print(_)));
    match console_line(&d, "  /say hi  ") {
        ConsoleAction::Run(t) => assert_eq!(t, "/say hi"),
        _ => panic!("a command line runs"),
    }
}

#[test]
fn console_replies() {
    assert_eq!(console_reply(&Ok(String::new())), None);
    assert_eq!(console_reply(&Ok("Seed: 1".to_string())), Some("Seed: 1".to_string()));
    assert_eq!(console_reply(&Err("Unknown command: /x".to_string())), Some("Error: Unknown command: /x".to_string()));
}

#[test]
fn strings_sort_by_code_point() {
    let v: Vec<String> = vec!["b", "a", "B", "ab", "a"].into_iter().map(String::from).collect();
    assert_eq!(sort_strings(&v), vec!["B", "a", "a", "ab", "b"]);
    assert_eq!(sort_strings(&Vec::new()), Vec::<String>::new());
}
