use rsa::pkcs8::DecodePublicKey;
use sha1::Digest;
use apoptotic::net::framing::FrameError;
use apoptotic::net::login::{
    handshake_route, HandshakeNext, HandshakeRoute,
    access_decision, brand_payload, config_step, configuration_registries, encryption_response_step, join_refusal, session_login_id, status_action,
    ConfigAction, ConfigEvent, ConfigProgress, LoginAction, LoginConfig, LoginEvent, LoginMachine, LoginState,
    MojangProfile, StatusAction,
};
use apoptotic::net::packet_io::{FrameCipher, FrameLengthReader, LengthRead};
use apoptotic::net::play::{
    KeepAlive, chat_command_too_long, chat_is_command, command_answer_json, difficulty_lock, extra_drops, frame_too_large, held_slot,
    player_action_break, teleport_confirmed, tool_spared, trade_slot_valid, unpack_position, use_item_on_target,
};
use apoptotic::net::rate_limiter::{PeerKey, RateLimiter};
use apoptotic::net::session::offline_uuid;
use apoptotic::net::tracker::{effective_view_distance, is_ore_block, resolve_sound_id, DirtyBlockTracker};

fn peer(last: u8, port: u16) -> PeerKey {
    PeerKey { ipv6: false, ip: 0xC0A8_0000 | last as u128, port }
}

// ── rate limiter ──

#[test]
fn five_connections_per_minute_are_allowed() {
    let mut rl = RateLimiter::new();
    let a = peer(1, 5000);
    for i in 0..5u128 {
        assert!(rl.check_connection_at(a, i * 1_000_000_000));
    }
    assert!(!rl.check_connection_at(a, 10_000_000_000));
    // another peer is counted on its own
    assert!(rl.check_connection_at(peer(2, 5000), 10_000_000_000));
}

#[test]
fn connections_are_limited_per_ip_whatever_the_port() {
    let mut rl = RateLimiter::new();
    for port in 0..5u16 {
        assert!(rl.check_connection_at(peer(1, 40000 + port), 0));
    }
    assert!(!rl.check_connection_at(peer(1, 40005), 0));
    assert!(rl.check_connection_at(peer(2, 40005), 0));
    // packets are still counted per connection
    for _ in 0..20 {
        assert!(rl.check_packet_at(peer(1, 40000), 0));
    }
    assert!(!rl.check_packet_at(peer(1, 40000), 0));
    assert!(rl.check_packet_at(peer(1, 40001), 0));
}

#[test]
fn connection_stamps_expire_after_a_minute() {
    let mut rl = RateLimiter::new();
    let a = peer(1, 5000);
    for _ in 0..5 {
        assert!(rl.check_connection_at(a, 0));
    }
    assert!(!rl.check_connection_at(a, 59_999_999_999));
    assert!(rl.check_connection_at(a, 60_000_000_000));
}

#[test]
fn cleanup_forgets_packets_but_not_connections() {
    let mut rl = RateLimiter::new();
    let a = peer(1, 5000);
    for _ in 0..5 {
        assert!(rl.check_connection_at(a, 0));
    }
    for _ in 0..20 {
        assert!(rl.check_packet_at(a, 0));
    }
    assert!(!rl.check_packet_at(a, 0));
    rl.cleanup_connection(a);
    assert!(rl.check_packet_at(a, 0));
    assert!(!rl.check_connection_at(a, 1));
}

#[test]
fn twenty_packets_per_second() {
    let mut rl = RateLimiter::new();
    let a = peer(3, 25565);
    for _ in 0..20 {
        assert!(rl.check_packet_at(a, 7));
    }
    assert!(!rl.check_packet_at(a, 7));
    assert!(rl.check_packet_at(a, 8));
}

#[test]
fn stale_packet_entries_are_dropped() {
    let mut rl = RateLimiter::new();
    let a = peer(3, 25565);
    for _ in 0..20 {
        assert!(rl.check_packet_at(a, 0));
    }
    rl.cleanup_stale_at(61);
    // the entry is gone, so a full budget is open again in second 0
    assert!(rl.check_packet_at(a, 0));
}

#[test]
fn live_limiter_allows_first_connection_and_packet() {
    let mut rl = RateLimiter::new();
    assert!(rl.check_connection(peer(9, 1)));
    assert!(rl.check_packet(peer(9, 1)));
    rl.cleanup_stale();
}

// ── tracker ──

#[test]
fn view_distance_shrinks_with_players() {
    assert_eq!(effective_view_distance(0, 10), 10);
    assert_eq!(effective_view_distance(1, 10), 10);
    assert_eq!(effective_view_distance(2, 10), 9);
    assert_eq!(effective_view_distance(3, 10), 9);
    assert_eq!(effective_view_distance(4, 10), 8);
    assert_eq!(effective_view_distance(6, 10), 8);
    assert_eq!(effective_view_distance(7, 10), 7);
    assert_eq!(effective_view_distance(50, 5), 4);
    assert_eq!(effective_view_distance(50, 2), 4);
    assert_eq!(effective_view_distance(1, 2), 2);
}

#[test]
fn sound_ids_with_and_without_namespace() {
    assert_eq!(resolve_sound_id("minecraft:block.note_block.pling"), 400);
    assert_eq!(resolve_sound_id("block.note_block.harp"), 401);
    assert_eq!(resolve_sound_id("entity.player.levelup"), 500);
    assert_eq!(resolve_sound_id("minecraft:entity.experience_orb.pickup"), 501);
    assert_eq!(resolve_sound_id("no.such.sound"), resolve_sound_id("also.unknown"));
}

#[test]
fn ore_blocks() {
    for id in [27u32, 29, 31, 47, 59, 117, 300, 303, 337, 340, 343] {
        assert!(is_ore_block(id), "{id}");
    }
    for id in [0u32, 1, 28, 336, 344, 1000] {
        assert!(!is_ore_block(id), "{id}");
    }
}

#[test]
fn marked_blocks_are_grouped_by_section() {
    let mut t = DirtyBlockTracker::new();
    assert_eq!(t.generation(), 0);
    t.mark_block(1, 2, 3, 10);
    t.mark_block(17, 64, -1, 11);
    t.mark_block(5, 5, 5, 12);
    assert_eq!(t.generation(), 3);
    let near = t.drain_nearby(0, 0, 1);
    assert_eq!(near.len(), 2);
    assert_eq!((near[0].0, near[0].1, near[0].2), (0, 0, 0));
    assert_eq!(near[0].3, vec![(2 * 256 + 3 * 16 + 1, 10), (5 * 256 + 5 * 16 + 5, 12)]);
    assert_eq!((near[1].0, near[1].1, near[1].2), (1, 4, -1));
    assert_eq!(near[1].3, vec![(0 * 256 + 15 * 16 + 1, 11)]);
    // drained sections leave the pending set
    assert!(t.drain_nearby(0, 0, 1).is_empty());
    assert!(t.drain_nearby(100, 100, 2).is_empty());
    t.mark_chunk(0, 0);
    assert_eq!(t.generation(), 4);
}

#[test]
fn sections_out_of_range_stay_pending() {
    let mut t = DirtyBlockTracker::new();
    t.mark_block(0, 0, 0, 1);
    t.mark_block(16 * 10, 0, 0, 2);
    let near = t.drain_nearby(0, 0, 2);
    assert_eq!(near.len(), 1);
    assert_eq!((near[0].0, near[0].1, near[0].2), (0, 0, 0));
    assert!(t.drain_nearby(0, 0, 2).is_empty());
    let far = t.drain_nearby(10, 0, 0);
    assert_eq!(far.len(), 1);
    assert_eq!((far[0].0, far[0].3.clone()), (10, vec![(0i16, 2)]));
    assert!(t.drain_nearby(10, 0, 0).is_empty());
}

// ── frames ──

#[test]
fn length_prefix_read_byte_by_byte() {
    let mut r = FrameLengthReader::new();
    assert_eq!(r.feed(0xAC), LengthRead::More);
    assert_eq!(r.feed(0x02), LengthRead::Body(300));
    let mut r = FrameLengthReader::new();
    assert_eq!(r.feed(0x00), LengthRead::Body(0));
}

#[test]
fn overlong_length_prefix_is_refused() {
    let mut r = FrameLengthReader::new();
    for _ in 0..4 {
        assert_eq!(r.feed(0xFF), LengthRead::More);
    }
    assert!(matches!(r.feed(0xFF), LengthRead::Refused(FrameError::VarIntTooLarge)));
}

#[test]
fn negative_length_is_refused() {
    let mut r = FrameLengthReader::new();
    for _ in 0..4 {
        assert_eq!(r.feed(0xFF), LengthRead::More);
    }
    assert!(matches!(r.feed(0x0F), LengthRead::Refused(FrameError::FrameTooLarge(_))));
}

#[test]
fn frames_pass_unchanged_without_encryption() {
    let mut c = FrameCipher::new();
    let out = c.seal_outgoing(&[3, 1, 2, 3]).unwrap();
    assert_eq!(out, vec![3, 1, 2, 3]);
    let mut frame = vec![9, 8, 7];
    c.open_incoming(&mut frame);
    assert_eq!(frame, vec![9, 8, 7]);
}

#[test]
fn sealed_frames_keep_the_prefix_and_open_again() {
    let key = [7u8; 16];
    let mut tx = FrameCipher::new();
    tx.enable_encryption(&key);
    let mut rx = FrameCipher::new();
    rx.enable_encryption(&key);
    let data = vec![0x84, 0x01, 10, 20, 30, 40, 50];
    let sealed = tx.seal_outgoing(&data).unwrap();
    assert_eq!(&sealed[..2], &[0x84, 0x01]);
    assert_ne!(&sealed[2..], &data[2..]);
    let mut body = sealed[2..].to_vec();
    rx.open_incoming(&mut body);
    assert_eq!(body, data[2..].to_vec());
}

#[test]
fn sealing_refuses_a_broken_prefix() {
    let mut tx = FrameCipher::new();
    tx.enable_encryption(&[1u8; 16]);
    assert!(tx.seal_outgoing(&[0xFF, 0xFF, 0xFF, 0xFF, 0xFF, 0x01]).is_err());
}

// ── status and login ──

#[test]
fn status_packets() {
    assert_eq!(status_action(0, None), StatusAction::SendStatus);
    assert_eq!(status_action(1, Some(77)), StatusAction::Pong(77));
    assert_eq!(status_action(1, None), StatusAction::Close);
    assert_eq!(status_action(5, None), StatusAction::Ignore);
}

#[test]
fn access_is_checked_ban_first() {
    assert_eq!(access_decision(true, false), Some("{\"text\":\"You are banned from this server\"}".to_string()));
    assert_eq!(access_decision(false, false), Some("{\"text\":\"You are not whitelisted on this server\"}".to_string()));
    assert_eq!(access_decision(false, true), None);
}

fn offline_config(threshold: u32, protocol: i32) -> LoginConfig {
    LoginConfig { online_mode: false, compression_threshold: threshold, protocol_version: protocol }
}

#[test]
fn offline_login_runs_to_play() {
    let mut m = LoginMachine::new(offline_config(256, 767));
    let a = m.step(LoginEvent::Frame { packet_id: 0, start: Some(("Steve".to_string(), None)) });
    let id = offline_uuid("Steve");
    assert_eq!(a.len(), 1);
    assert!(matches!(a[0], LoginAction::CheckAccess { uuid } if uuid == id));
    let a = m.step(LoginEvent::Access { banned: false, whitelisted: true });
    assert_eq!(a.len(), 3);
    assert!(matches!(&a[0], LoginAction::SendLoginSuccess { uuid, username, .. } if *uuid == id && username == "Steve"));
    assert!(matches!(a[1], LoginAction::SetCompression(256)));
    assert!(matches!(a[2], LoginAction::ReadAcknowledgement));
    let a = m.step(LoginEvent::Acknowledged);
    assert_eq!(a.len(), 2);
    assert!(matches!(a[0], LoginAction::EnterConfiguration));
    assert!(matches!(&a[1], LoginAction::EnterPlay { uuid, username } if *uuid == id && username == "Steve"));
    assert!(matches!(m.state, LoginState::Finished));
}

#[test]
fn offline_login_keeps_a_sent_id_and_skips_compression() {
    let mut m = LoginMachine::new(offline_config(0, 763));
    let a = m.step(LoginEvent::Frame { packet_id: 0, start: Some(("Alex".to_string(), Some(42))) });
    assert!(matches!(a[0], LoginAction::CheckAccess { uuid: 42 }));
    let a = m.step(LoginEvent::Access { banned: false, whitelisted: true });
    assert_eq!(a.len(), 2);
    assert!(matches!(a[1], LoginAction::ReadAcknowledgement));
    let a = m.step(LoginEvent::Acknowledged);
    assert_eq!(a.len(), 1);
    assert!(matches!(&a[0], LoginAction::EnterPlay { uuid: 42, .. }));
}

#[test]
fn banned_player_is_disconnected() {
    let mut m = LoginMachine::new(offline_config(0, 767));
    m.step(LoginEvent::Frame { packet_id: 0, start: Some(("Bad".to_string(), None)) });
    let a = m.step(LoginEvent::Access { banned: true, whitelisted: true });
    assert_eq!(a.len(), 1);
    assert!(matches!(&a[0], LoginAction::Disconnect(r) if r.contains("banned")));
    assert!(matches!(m.state, LoginState::Closed));
}

#[test]
fn wrong_first_packet_closes() {
    let mut m = LoginMachine::new(offline_config(0, 767));
    let a = m.step(LoginEvent::Frame { packet_id: 3, start: None });
    assert_eq!(a.len(), 1);
    assert!(matches!(a[0], LoginAction::Close));
    let a = m.step(LoginEvent::Acknowledged);
    assert!(matches!(a[0], LoginAction::Close));
}

#[test]
fn online_login_sends_an_encryption_request() {
    let mut m = LoginMachine::new(LoginConfig { online_mode: true, compression_threshold: 0, protocol_version: 767 });
    let a = m.step(LoginEvent::Frame { packet_id: 0, start: Some(("Steve".to_string(), None)) });
    assert_eq!(a.len(), 1);
    match &a[0] {
        LoginAction::SendEncryptionRequest { public_key, verify_token } => {
            assert!(!public_key.is_empty());
            assert_eq!(verify_token.len(), 4);
        },
        _ => panic!("expected an encryption request"),
    }
    // garbage secrets fail to decrypt
    let a = m.step(LoginEvent::EncryptionResponse { shared_secret: vec![1, 2, 3], verify_token: vec![4] });
    assert!(matches!(&a[0], LoginAction::Disconnect(r) if r.contains("Encryption verification failed")));
}

#[test]
fn session_id_from_profile_text() {
    let id = 0x069a79f444e94726a5befca90e38aaf5u128;
    assert_eq!(session_login_id(Some(id), "Notch"), id);
    assert_eq!(session_login_id(None, "Notch"), offline_uuid("Notch"));
}

#[test]
fn session_retries_then_gives_up() {
    let mut state = LoginState::AwaitSession { username: "Steve".to_string(), server_hash: "ab".to_string(), attempts: 1 };
    let mut m = LoginMachine::new(LoginConfig { online_mode: true, compression_threshold: 0, protocol_version: 767 });
    std::mem::swap(&mut m.state, &mut state);
    let a = m.step(LoginEvent::Mojang(Err("down".to_string())));
    assert!(matches!(&a[0], LoginAction::RetrySession { millis: 500, .. }));
    let a = m.step(LoginEvent::Mojang(Err("down".to_string())));
    assert!(matches!(&a[0], LoginAction::RetrySession { .. }));
    let a = m.step(LoginEvent::Mojang(Err("down".to_string())));
    assert!(matches!(&a[0], LoginAction::Disconnect(r) if r.contains("Mojang authentication failed")));
}

#[test]
fn session_profile_id_is_parsed() {
    let mut m = LoginMachine::new(LoginConfig { online_mode: true, compression_threshold: 0, protocol_version: 767 });
    m.state = LoginState::AwaitSession { username: "Notch".to_string(), server_hash: "x".to_string(), attempts: 1 };
    let profile = MojangProfile {
        id: "069a79f4-44e9-4726-a5be-fca90e38aaf5".to_string(),
        name: "Notch".to_string(),
        properties: Vec::new(),
    };
    let a = m.step(LoginEvent::Mojang(Ok(profile)));
    assert!(matches!(a[0], LoginAction::CheckAccess { uuid: 0x069a79f444e94726a5befca90e38aaf5 }));
    // an id that is no id falls back to the offline id of the name
    m.state = LoginState::AwaitSession { username: "Notch".to_string(), server_hash: "x".to_string(), attempts: 1 };
    let profile = MojangProfile { id: "not-an-id".to_string(), name: "Notch".to_string(), properties: Vec::new() };
    let a = m.step(LoginEvent::Mojang(Ok(profile)));
    let expected = offline_uuid("Notch");
    assert!(matches!(a[0], LoginAction::CheckAccess { uuid } if uuid == expected));
}

// ── configuration ──

#[test]
fn configuration_finishes_after_both_packets() {
    let p = ConfigProgress { got_client_info: false, got_known_packs: false };
    let (p, a) = config_step(p, 10, ConfigEvent::Frame { packet_id: 0, decoded: true });
    assert_eq!(a, ConfigAction::ReadNext);
    let (p, a) = config_step(p, 20, ConfigEvent::Frame { packet_id: 7, decoded: false });
    assert_eq!(a, ConfigAction::ReadNext);
    assert!(!p.got_known_packs);
    let (_, a) = config_step(p, 30, ConfigEvent::Frame { packet_id: 7, decoded: true });
    assert_eq!(a, ConfigAction::Finish);
}

#[test]
fn configuration_keepalive_and_timeout() {
    let p = ConfigProgress { got_client_info: false, got_known_packs: false };
    assert_eq!(config_step(p, 0, ConfigEvent::Quiet).1, ConfigAction::KeepAlive(42));
    assert_eq!(config_step(p, 0, ConfigEvent::Undecodable).1, ConfigAction::ReadNext);
    assert_eq!(config_step(p, 0, ConfigEvent::ReadFailed).1, ConfigAction::Finish);
    assert_eq!(config_step(p, 30_001, ConfigEvent::Quiet).1, ConfigAction::Finish);
    assert_eq!(config_step(p, 30_000, ConfigEvent::Quiet).1, ConfigAction::KeepAlive(42));
}

#[test]
fn brand_and_registries() {
    assert_eq!(brand_payload(), b"Minecraft LAN Server\0".to_vec());
    let regs = configuration_registries();
    assert_eq!(regs.len(), 2);
    assert_eq!(regs[0].0, "minecraft:dimension_type");
    assert_eq!(regs[0].1, vec!["minecraft:overworld", "minecraft:the_nether", "minecraft:the_end"]);
    assert_eq!(regs[1].0, "minecraft:worldgen/biome");
    assert_eq!(regs[1].1.len(), 15);
}

// ── play-phase decisions ──

fn pack(x: i64, y: i64, z: i64) -> i64 {
    ((x & 0x3FF_FFFF) << 38) | ((z & 0x3FF_FFFF) << 12) | (y & 0xFFF)
}

#[test]
fn block_positions_unpack() {
    assert_eq!(unpack_position(pack(100, 64, 200)), (100, 64, 200));
    assert_eq!(unpack_position(pack(-5, -60, 7)), (-5, -60, 7));
    // a negative z comes back as its low 26 bits
    assert_eq!(unpack_position(pack(1, 2, -1)), (1, 2, 0x3FF_FFFF));
}

#[test]
fn player_action_breaks_on_finished_digging() {
    let raw = pack(10, 70, 20).to_be_bytes();
    let mut payload = vec![2u8];
    payload.extend_from_slice(&raw);
    assert_eq!(player_action_break(&payload), Some((10, 70, 20)));
    payload[0] = 0;
    assert_eq!(player_action_break(&payload), None);
    let mut high = vec![2u8];
    high.extend_from_slice(&pack(0, 400, 0).to_be_bytes());
    assert_eq!(player_action_break(&high), None);
    assert_eq!(player_action_break(&[2, 0, 0]), None);
}

#[test]
fn use_item_on_reads_after_the_hand() {
    let mut payload = vec![1u8];
    payload.extend_from_slice(&pack(-3, -64, 9).to_be_bytes());
    assert_eq!(use_item_on_target(&payload, 1), Some((-3, -64, 9)));
    assert_eq!(use_item_on_target(&payload, 2), None);
    assert_eq!(use_item_on_target(&payload, 100), None);
}

#[test]
fn block_break_chances() {
    assert!(!tool_spared(0, 1));
    assert!(tool_spared(1, 50));
    assert!(!tool_spared(1, 51));
    assert!(tool_spared(3, 25));
    assert!(!tool_spared(3, 26));
    assert_eq!(extra_drops(3, 31, 10), 2);
    assert_eq!(extra_drops(3, 1, 10), 0);
    assert_eq!(extra_drops(0, 31, 10), 0);
}

#[test]
fn lock_difficulty_and_trades() {
    assert_eq!(difficulty_lock(false, &[1]), (false, None));
    assert_eq!(difficulty_lock(true, &[]), (true, None));
    assert_eq!(difficulty_lock(true, &[1]), (true, Some(true)));
    assert_eq!(difficulty_lock(true, &[0]), (true, Some(false)));
    assert!(trade_slot_valid(0) && trade_slot_valid(9));
    assert!(!trade_slot_valid(10) && !trade_slot_valid(-1));
}

#[test]
fn handshake_routes() {
    assert_eq!(handshake_route(1, HandshakeNext::Status), HandshakeRoute::Status);
    assert_eq!(handshake_route(770, HandshakeNext::Login), HandshakeRoute::Login);
    assert_eq!(handshake_route(770, HandshakeNext::Other), HandshakeRoute::Close);
    assert_eq!(
        handshake_route(765, HandshakeNext::Login),
        HandshakeRoute::RejectVersion(
            "{\"text\":\"Unsupported version!\\nServer: 26.x (protocol 766-776)\\nYour client: protocol 765\"}".to_string()
        )
    );
}

#[test]
fn a_full_server_turns_players_away() {
    assert_eq!(
        join_refusal(8, 8),
        Some("{\"text\":\"Server is full (8 / 8)\",\"color\":\"red\"}".to_string())
    );
    assert_eq!(join_refusal(9, 8), Some("{\"text\":\"Server is full (9 / 8)\",\"color\":\"red\"}".to_string()));
    assert_eq!(join_refusal(7, 8), None);
}

#[test]
fn play_packet_fields() {
    assert!(!frame_too_large(2_097_152));
    assert!(frame_too_large(2_097_153));
    assert!(teleport_confirmed(&[0, 0, 0, 42], Some(42)));
    assert!(!teleport_confirmed(&[0, 0, 0, 42], Some(41)));
    assert!(!teleport_confirmed(&[0, 0, 0, 42], None));
    assert!(!teleport_confirmed(&[0, 0, 42], Some(42)));
    assert!(teleport_confirmed(&[0xFF, 0xFF, 0xFF, 0xFE, 7], Some(-2)));
    assert_eq!(held_slot(&[8, 1]), Some(8));
    assert_eq!(held_slot(&[9]), None);
    assert_eq!(held_slot(&[]), None);
}

#[test]
fn chat_lines_and_command_answers() {
    assert!(chat_is_command("/help"));
    assert!(!chat_is_command("hi /there"));
    assert!(!chat_is_command(""));
    assert!(!chat_command_too_long(&"a".repeat(256)));
    assert!(chat_command_too_long(&"a".repeat(257)));
    assert!(!chat_command_too_long(&"é".repeat(128)));
    assert!(chat_command_too_long(&"é".repeat(129)));
    assert!(chat_command_too_long(&"€".repeat(86)));
    assert_eq!(
        command_answer_json(&Ok("Seed: 42".to_string())),
        "{\"text\":\"Seed: 42\",\"color\":\"gray\"}"
    );
    assert_eq!(
        command_answer_json(&Err("Unknown command: /x".to_string())),
        "{\"text\":\"Unknown command: /x\",\"color\":\"red\"}"
    );
}

#[test]
fn encryption_responses_after_decryption() {
    let key = [9u8; 16];
    let token = [1u8, 2, 3, 4];
    let pk = vec![0x30u8, 0x81, 0x9f];
    let (state, actions) = encryption_response_step("Ann".to_string(), &token, &pk, Ok((key, token)));
    let hash = apoptotic::net::session::compute_server_hash("", &key, &pk);
    assert_eq!(hash.len(), 40);
    assert!(matches!(&state, LoginState::AwaitSession { username, server_hash, attempts: 1 }
        if username == "Ann" && *server_hash == hash));
    assert_eq!(actions.len(), 2);
    assert!(matches!(&actions[0], LoginAction::EnableEncryption(k) if *k == key));
    assert!(matches!(&actions[1], LoginAction::VerifySession { username, server_hash }
        if username == "Ann" && *server_hash == hash));

    let (state, actions) = encryption_response_step("Ann".to_string(), &token, &pk, Ok((key, [1, 2, 3, 5])));
    assert!(matches!(state, LoginState::Closed));
    assert!(matches!(&actions[0], LoginAction::Disconnect(r) if r == "{\"text\":\"Token verification failed\"}"));

    let (state, actions) = encryption_response_step("Ann".to_string(), &token, &pk, Err("bad padding".to_string()));
    assert!(matches!(state, LoginState::Closed));
    assert!(matches!(&actions[0], LoginAction::Disconnect(r) if r == "{\"text\":\"Encryption verification failed\"}"));
}

#[test]
fn keep_alive_timing() {
    let mut k = KeepAlive::new(1000);
    assert_eq!(k.tick(1500), (None, false));
    assert_eq!(k.tick(2000), (Some(1), false));
    assert_eq!(k.tick(2999), (None, false));
    assert_eq!(k.tick(3000), (Some(2), false));
    k.answered(3042);
    assert_eq!(k.ping, 42);
    assert_eq!(k.last_answer, 3042);
    assert_eq!(k.tick(33042).1, false);
    assert_eq!(k.tick(33043).1, true);
    let mut w = KeepAlive { last_sent: 0, last_answer: 0, id: i64::MAX, ping: 0 };
    assert_eq!(w.tick(1000).0, Some(i64::MIN));
}

fn online_start(name: &str) -> (LoginMachine, rsa::RsaPublicKey, Vec<u8>, Vec<u8>) {
    let mut m = LoginMachine::new(LoginConfig { online_mode: true, compression_threshold: 0, protocol_version: 767 });
    let a = m.step(LoginEvent::Frame { packet_id: 0, start: Some((name.to_string(), None)) });
    match &a[0] {
        LoginAction::SendEncryptionRequest { public_key, verify_token } => {
            let key = rsa::RsaPublicKey::from_public_key_der(public_key).unwrap();
            (m, key, public_key.clone(), verify_token.clone())
        },
        _ => panic!("expected an encryption request"),
    }
}

#[test]
fn online_login_answers_a_good_encryption_response() {
    let (mut m, key, der, token) = online_start("Steve");
    let secret = [0x11u8; 16];
    let enc_secret = key.encrypt(&mut rand::rngs::OsRng, rsa::Pkcs1v15Encrypt, &secret).unwrap();
    let enc_token = key.encrypt(&mut rand::rngs::OsRng, rsa::Pkcs1v15Encrypt, &token).unwrap();
    let a = m.step(LoginEvent::EncryptionResponse { shared_secret: enc_secret, verify_token: enc_token });
    assert_eq!(a.len(), 2);
    assert!(matches!(a[0], LoginAction::EnableEncryption(k) if k == secret));
    let mut data = secret.to_vec();
    data.extend_from_slice(&der);
    let hash: String = sha1::Sha1::digest(&data).iter().map(|b| format!("{:02x}", b)).collect();
    assert!(matches!(&a[1], LoginAction::VerifySession { username, server_hash } if username == "Steve" && *server_hash == hash));
}

#[test]
fn online_login_reads_the_secret_from_its_own_field() {
    let (mut m, key, _der, token) = online_start("Alex");
    let enc_secret = key.encrypt(&mut rand::rngs::OsRng, rsa::Pkcs1v15Encrypt, &[0x22u8; 16]).unwrap();
    let enc_token = key.encrypt(&mut rand::rngs::OsRng, rsa::Pkcs1v15Encrypt, &token).unwrap();
    let a = m.step(LoginEvent::EncryptionResponse { shared_secret: enc_token, verify_token: enc_secret });
    assert_eq!(a.len(), 1);
    assert!(matches!(&a[0], LoginAction::Disconnect(r) if r.contains("Encryption verification failed")));
}

#[test]
fn online_login_refuses_a_wrong_token() {
    let (mut m, key, _der, token) = online_start("Alex");
    let bad: Vec<u8> = token.iter().map(|b| b ^ 0xff).collect();
    let enc_secret = key.encrypt(&mut rand::rngs::OsRng, rsa::Pkcs1v15Encrypt, &[0x22u8; 16]).unwrap();
    let enc_token = key.encrypt(&mut rand::rngs::OsRng, rsa::Pkcs1v15Encrypt, &bad).unwrap();
    let a = m.step(LoginEvent::EncryptionResponse { shared_secret: enc_secret, verify_token: enc_token });
    assert_eq!(a.len(), 1);
    assert!(matches!(&a[0], LoginAction::Disconnect(r) if r.contains("Token verification failed")));
}

#[test]
fn connections_on_the_clock_are_limited() {
    let mut rl = RateLimiter::new();
    for port in 0..5u16 {
        assert!(rl.check_connection(peer(9, 1000 + port)));
    }
    assert!(!rl.check_connection(peer(9, 2000)));
    assert!(rl.check_connection(peer(10, 2000)));
}
