//! The status and login phases of a connection as state machines: the
//! connection reads a packet (or a reply from the session server), hands
//! it over as an event, and performs the actions that come back.

use vstd::prelude::*;
use vstd::string::*;
use vstd::utf8::encode_utf8;
use crate::text::{decimal, push_i64, push_u64, signed_decimal};
use crate::net::session::{
    client_secrets, compute_server_hash, decrypt_client_secrets, decrypted_view, generate_keys, hex_text, offline_id,
    offline_uuid, sha1_of,
    EncryptionKeys,
};

verus! {

// ───────────────────────────── status phase ─────────────────────────────

/// What the server reports in a status response.
#[derive(Debug, Clone)]
pub struct StatusInfo {
    pub version_name: String,
    pub protocol: i32,
    pub max_players: u32,
    pub online: u32,
    pub motd: String,
}

/// What to do with a status-phase packet.
#[derive(Debug, Clone, Copy, PartialEq, Eq, Structural)]
pub enum StatusAction {
    /// Send the status response (no player sample, no favicon, secure chat
    /// not enforced, chat previews off) and read on.
    SendStatus,
    /// Answer the ping with the same payload, then close.
    Pong(i64),
    /// Close the connection.
    Close,
    /// Ignore the packet and read on.
    Ignore,
}

/// The status phase: `0x00` asks for the status, `0x01` is a ping (its
/// payload when it decoded); anything else is skipped.
pub open spec fn status_action_spec(packet_id: i32, ping: Option<i64>) -> StatusAction {
    if packet_id == 0 {
        StatusAction::SendStatus
    } else if packet_id == 1 {
        match ping {
            Some(p) => StatusAction::Pong(p),
            None => StatusAction::Close,
        }
    } else {
        StatusAction::Ignore
    }
}

pub fn status_action(packet_id: i32, ping: Option<i64>) -> (r: StatusAction)
    ensures
        r == status_action_spec(packet_id, ping),
{
    if packet_id == 0 {
        StatusAction::SendStatus
    } else if packet_id == 1 {
        match ping {
            Some(p) => StatusAction::Pong(p),
            None => StatusAction::Close,
        }
    } else {
        StatusAction::Ignore
    }
}

// ──────────────────────────────── handshake ────────────────────────────────

/// Oldest and newest protocol versions the server speaks.
pub const MIN_PROTOCOL: i32 = 766;
pub const MAX_PROTOCOL: i32 = 776;

/// The phase a handshake asks for.
#[derive(Debug, Clone, Copy, PartialEq, Eq, Structural)]
pub enum HandshakeNext {
    Status,
    Login,
    /// Any other phase (such as a transfer).
    Other,
}

/// Where a connection goes after its handshake.
#[derive(Debug, Clone, PartialEq, Eq)]
pub enum HandshakeRoute {
    Status,
    Login,
    /// Send `Login Disconnect` with this reason (JSON text), then close.
    RejectVersion(String),
    /// Close the connection.
    Close,
}

/// The refusal a login with an unsupported protocol gets.
pub open spec fn version_reason(protocol: i32) -> Seq<char> {
    "{\"text\":\"Unsupported version!\\nServer: 26.x (protocol 766-776)\\nYour client: protocol "@
        + signed_decimal(protocol as int) + "\"}"@
}

/// Status requests are answered whatever the protocol; logins need a
/// protocol from 766 to 776; any other phase closes the connection.
pub fn handshake_route(protocol: i32, next: HandshakeNext) -> (r: HandshakeRoute)
    ensures
        next == HandshakeNext::Status ==> r == HandshakeRoute::Status,
        next == HandshakeNext::Login && MIN_PROTOCOL <= protocol <= MAX_PROTOCOL ==> r == HandshakeRoute::Login,
        next == HandshakeNext::Login && !(MIN_PROTOCOL <= protocol <= MAX_PROTOCOL) ==>
            (r matches HandshakeRoute::RejectVersion(reason) && reason@ == version_reason(protocol)),
        next == HandshakeNext::Other ==> r == HandshakeRoute::Close,
{
    match next {
        HandshakeNext::Status => HandshakeRoute::Status,
        HandshakeNext::Login => {
            if MIN_PROTOCOL <= protocol && protocol <= MAX_PROTOCOL {
                HandshakeRoute::Login
            } else {
                let mut m = String::from_str("{\"text\":\"Unsupported version!\\nServer: 26.x (protocol 766-776)\\nYour client: protocol ");
                push_i64(&mut m, protocol as i64);
                m.append("\"}");
                HandshakeRoute::RejectVersion(m)
            }
        },
        HandshakeNext::Other => HandshakeRoute::Close,
    }
}

// ────────────────────────────── login phase ──────────────────────────────

/// A profile property from the session server (skin, cape).
#[derive(Debug, Clone)]
pub struct MojangProperty {
    pub name: String,
    pub value: String,
    pub signature: Option<String>,
}

/// The session server's answer for a verified player.
#[derive(Debug, Clone)]
pub struct MojangProfile {
    /// The player's id as text (with or without hyphens).
    pub id: String,
    pub name: String,
    pub properties: Vec<MojangProperty>,
}

/// The id `uuid::Uuid::parse_str` reads from a text, if it reads one.
pub uninterp spec fn uuid_parsed(s: Seq<char>) -> Option<u128>;

/// `uuid::Uuid::parse_str(s)`, read with `as_u128`; `None` when the text
/// is not an id in one of the crate's formats.
#[verifier::external_body]
fn parse_uuid(s: &str) -> (r: Option<u128>)
    ensures
        r == uuid_parsed(s@),
{
    uuid::Uuid::parse_str(s).ok().map(|u| u.as_u128())
}

/// Whether the connection is encrypted.
#[derive(Debug, Clone, Copy, PartialEq, Eq, Structural)]
pub enum EncryptionState {
    /// Offline mode, or still in the handshake.
    Disabled,
    /// AES-CFB8 is on.
    Enabled,
}

/// What the login phase receives.
pub enum LoginEvent {
    /// A frame: its packet id and, for `Login Start`, the decoded user
    /// name and optional id (`None` when decoding failed).
    Frame { packet_id: i32, start: Option<(String, Option<u128>)> },
    /// The decoded encryption response (still RSA-encrypted).
    EncryptionResponse { shared_secret: Vec<u8>, verify_token: Vec<u8> },
    /// Reading, decoding or waiting failed.
    ReadFailed,
    /// The session server's reply.
    Mojang(Result<MojangProfile, String>),
    /// Ban and whitelist status of the player's id.
    Access { banned: bool, whitelisted: bool },
    /// The login acknowledgement was read (or its reading failed, which
    /// older clients cause and which is ignored).
    Acknowledged,
}

/// What the connection does for the login phase.
pub enum LoginAction {
    Close,
    /// Send `Login Disconnect` with this reason (JSON text), then close.
    Disconnect(String),
    /// Send the encryption request and read the response within 30 s.
    SendEncryptionRequest { public_key: Vec<u8>, verify_token: Vec<u8> },
    /// Turn on AES-CFB8 with the shared secret.
    EnableEncryption([u8; 16]),
    /// Ask the session server whether the player joined.
    VerifySession { username: String, server_hash: String },
    /// Wait this many milliseconds, then ask the session server again.
    RetrySession { millis: u64, username: String, server_hash: String },
    /// Look up ban and whitelist status of an id.
    CheckAccess { uuid: u128 },
    /// Send `Login Success`.
    SendLoginSuccess { uuid: u128, username: String, properties: Vec<MojangProperty> },
    /// Send `Set Compression` and compress from now on.
    SetCompression(i32),
    /// Read the login acknowledgement.
    ReadAcknowledgement,
    /// Run the configuration phase.
    EnterConfiguration,
    /// Run the play phase.
    EnterPlay { username: String, uuid: u128 },
}

/// Where the login stands.
pub enum LoginState {
    AwaitStart,
    AwaitEncryption { username: String, keys: EncryptionKeys },
    AwaitSession { username: String, server_hash: String, attempts: u8 },
    AwaitAccess { username: String, uuid: u128, properties: Vec<MojangProperty> },
    AwaitAcknowledgement { username: String, uuid: u128 },
    Finished,
    Closed,
}

/// Server settings the login needs.
#[derive(Debug, Clone, Copy)]
pub struct LoginConfig {
    pub online_mode: bool,
    pub compression_threshold: u32,
    pub protocol_version: i32,
}

/// Attempts made at the session server before giving up.
pub const SESSION_ATTEMPTS: u8 = 3;
/// Pause between session server attempts.
pub const SESSION_RETRY_MILLIS: u64 = 500;
/// First protocol with a configuration phase.
pub const CONFIGURATION_PROTOCOL: i32 = 764;

pub open spec fn reason_encryption_setup() -> Seq<char> {
    "{\"text\":\"Server error during encryption setup\"}"@
}

pub open spec fn reason_encryption_failed() -> Seq<char> {
    "{\"text\":\"Encryption verification failed\"}"@
}

pub open spec fn reason_token() -> Seq<char> {
    "{\"text\":\"Token verification failed\"}"@
}

pub open spec fn reason_session() -> Seq<char> {
    "{\"text\":\"Mojang authentication failed. Are you logged in?\"}"@
}

pub open spec fn reason_banned() -> Seq<char> {
    "{\"text\":\"You are banned from this server\"}"@
}

pub open spec fn reason_not_whitelisted() -> Seq<char> {
    "{\"text\":\"You are not whitelisted on this server\"}"@
}

/// The id an offline player logs in with: the one the client sent, or the
/// offline id of its name.
pub open spec fn offline_login_id(provided: Option<u128>, username: Seq<char>) -> u128 {
    match provided {
        Some(u) => u,
        None => offline_id(username),
    }
}

/// The id of a verified player: the session server's, or the offline id
/// of the name the client sent when that text is not an id.
pub open spec fn verified_id(profile_id: Seq<char>, username: Seq<char>) -> u128 {
    match uuid_parsed(profile_id) {
        Some(u) => u,
        None => offline_id(username),
    }
}

/// The id a verified player logs in with, given what the id text of the
/// session server's profile parsed to: that id, or the offline id of the
/// name the client sent.
pub fn session_login_id(parsed: Option<u128>, username: &str) -> (r: u128)
    ensures
        r == match parsed {
            Some(u) => u,
            None => offline_id(username@),
        },
{
    match parsed {
        Some(u) => u,
        None => offline_uuid(username),
    }
}

/// The refusal for a player's ban and whitelist status, if any (a ban is
/// checked first).
pub open spec fn access_refusal(banned: bool, whitelisted: bool) -> Option<Seq<char>> {
    if banned {
        Some(reason_banned())
    } else if !whitelisted {
        Some(reason_not_whitelisted())
    } else {
        None
    }
}

pub fn access_decision(banned: bool, whitelisted: bool) -> (r: Option<String>)
    ensures
        match r {
            Some(s) => access_refusal(banned, whitelisted) == Some(s@),
            None => access_refusal(banned, whitelisted) is None,
        },
{
    if banned {
        Some(String::from_str("{\"text\":\"You are banned from this server\"}"))
    } else if !whitelisted {
        Some(String::from_str("{\"text\":\"You are not whitelisted on this server\"}"))
    } else {
        None
    }
}

/// The disconnect reason of a full server.
pub open spec fn reason_full(online: u32, max_players: u32) -> Seq<char> {
    "{\"text\":\"Server is full ("@ + decimal(online as nat) + " / "@ + decimal(max_players as nat)
        + ")\",\"color\":\"red\"}"@
}

/// Whether a player entering play is turned away: when `online` players
/// already fill the `max_players` slots, with the reason sent.
pub fn join_refusal(online: u32, max_players: u32) -> (r: Option<String>)
    ensures
        r is Some <==> online >= max_players,
        r is Some ==> r->0@ == reason_full(online, max_players),
{
    if online >= max_players {
        let mut s = String::from_str("{\"text\":\"Server is full (");
        push_u64(&mut s, online as u64);
        s.append(" / ");
        push_u64(&mut s, max_players as u64);
        s.append(")\",\"color\":\"red\"}");
        Some(s)
    } else {
        None
    }
}

/// What follows a successful login: compression when a threshold is set,
/// then reading the acknowledgement.
pub open spec fn after_success_kinds(threshold: u32) -> Seq<u8> {
    if threshold > 0 { seq![0u8, 1u8] } else { seq![1u8] }
}

/// A short name for each action, for contracts.
pub open spec fn action_kind(a: LoginAction) -> u8 {
    match a {
        LoginAction::Close => 10,
        LoginAction::Disconnect(_) => 11,
        LoginAction::SendEncryptionRequest { .. } => 12,
        LoginAction::EnableEncryption(_) => 13,
        LoginAction::VerifySession { .. } => 14,
        LoginAction::RetrySession { .. } => 15,
        LoginAction::CheckAccess { .. } => 16,
        LoginAction::SendLoginSuccess { .. } => 17,
        LoginAction::SetCompression(_) => 0,
        LoginAction::ReadAcknowledgement => 1,
        LoginAction::EnterConfiguration => 18,
        LoginAction::EnterPlay { .. } => 19,
    }
}

/// A one-action answer that closes the connection.
pub open spec fn closes(after: LoginState, actions: Seq<LoginAction>) -> bool {
    after is Closed && actions.len() == 1 && actions[0] is Close
}

/// A one-action answer that disconnects with `reason`.
pub open spec fn disconnects(after: LoginState, actions: Seq<LoginAction>, reason: Seq<char>) -> bool {
    &&& after is Closed
    &&& actions.len() == 1
    &&& match actions[0] {
        LoginAction::Disconnect(r) => r@ == reason,
        _ => false,
    }
}

pub open spec fn checks_access(a: LoginAction, id: u128) -> bool {
    match a {
        LoginAction::CheckAccess { uuid } => uuid == id,
        _ => false,
    }
}

pub open spec fn awaits_access(s: LoginState, name: Seq<char>, id: u128, props: nat) -> bool {
    match s {
        LoginState::AwaitAccess { username, uuid, properties } =>
            username@ == name && uuid == id && properties@.len() == props,
        _ => false,
    }
}

pub open spec fn requests_encryption(s: LoginState, actions: Seq<LoginAction>, name: Seq<char>) -> bool {
    match s {
        LoginState::AwaitEncryption { username, keys } => {
            &&& username@ == name
            &&& actions.len() == 1
            &&& match actions[0] {
                LoginAction::SendEncryptionRequest { public_key, verify_token } =>
                    public_key@ == keys.public_key_der@ && verify_token@ == keys.verify_token@,
                _ => false,
            }
        },
        _ => false,
    }
}

pub open spec fn retries_session(s: LoginState, actions: Seq<LoginAction>, name: Seq<char>, hash: Seq<char>, next: u8) -> bool {
    &&& match s {
        LoginState::AwaitSession { username, server_hash, attempts } =>
            username@ == name && server_hash@ == hash && attempts == next,
        _ => false,
    }
    &&& actions.len() == 1
    &&& match actions[0] {
        LoginAction::RetrySession { millis, username, server_hash } =>
            millis == SESSION_RETRY_MILLIS && username@ == name && server_hash@ == hash,
        _ => false,
    }
}

pub open spec fn logs_in(
    config: LoginConfig,
    s: LoginState,
    actions: Seq<LoginAction>,
    name: Seq<char>,
    id: u128,
    props: nat,
) -> bool {
    &&& match s {
        LoginState::AwaitAcknowledgement { username, uuid } => username@ == name && uuid == id,
        _ => false,
    }
    &&& actions.len() == 1 + after_success_kinds(config.compression_threshold).len()
    &&& match actions[0] {
        LoginAction::SendLoginSuccess { uuid, username, properties } =>
            uuid == id && username@ == name && properties@.len() == props,
        _ => false,
    }
    &&& forall|i: int| 1 <= i < actions.len() ==>
        action_kind(#[trigger] actions[i]) == after_success_kinds(config.compression_threshold)[i - 1]
    &&& config.compression_threshold > 0 ==> match actions[1] {
        LoginAction::SetCompression(t) => t == config.compression_threshold as i32,
        _ => false,
    }
}

pub open spec fn enters_play(config: LoginConfig, s: LoginState, actions: Seq<LoginAction>, name: Seq<char>, id: u128) -> bool {
    &&& s is Finished
    &&& actions.len() == if config.protocol_version >= CONFIGURATION_PROTOCOL { 2int } else { 1int }
    &&& config.protocol_version >= CONFIGURATION_PROTOCOL ==> actions[0] is EnterConfiguration
    &&& match actions.last() {
        LoginAction::EnterPlay { username, uuid } => username@ == name && uuid == id,
        _ => false,
    }
}

/// The session-server id of an online login: the lower-case hex SHA-1 of
/// the shared secret and the encoded public key (the server id is empty).
pub open spec fn session_hash(secret: Seq<u8>, public_key: Seq<u8>) -> Seq<char> {
    hex_text(sha1_of(secret + public_key))
}

/// What follows an encryption response once its secret and token are
/// decrypted: a failed decryption disconnects; a token other than the one
/// sent disconnects; otherwise encryption starts with the secret and the
/// session server is asked, with the hash of secret and public key.
pub open spec fn answers_response(
    username: Seq<char>,
    expected_token: Seq<u8>,
    public_key: Seq<u8>,
    decrypted: Result<(Seq<u8>, Seq<u8>), Seq<char>>,
    after: LoginState,
    actions: Seq<LoginAction>,
) -> bool {
    match decrypted {
        Err(_) => disconnects(after, actions, reason_encryption_failed()),
        Ok((secret, token)) => if token != expected_token {
            disconnects(after, actions, reason_token())
        } else {
            &&& match after {
                LoginState::AwaitSession { username: u, server_hash, attempts } =>
                    u@ == username && server_hash@ == session_hash(secret, public_key) && attempts == 1,
                _ => false,
            }
            &&& actions.len() == 2
            &&& match actions[0] {
                LoginAction::EnableEncryption(k) => k@ == secret,
                _ => false,
            }
            &&& match actions[1] {
                LoginAction::VerifySession { username: u, server_hash: h } =>
                    u@ == username && h@ == session_hash(secret, public_key),
                _ => false,
            }
        },
    }
}

/// The step that answers an encryption response, given the outcome of
/// decrypting its shared secret and verify token.
pub fn encryption_response_step(
    username: String,
    expected_token: &[u8; 4],
    public_key_der: &[u8],
    decrypted: Result<([u8; 16], [u8; 4]), String>,
) -> (r: (LoginState, Vec<LoginAction>))
    ensures
        answers_response(username@, expected_token@, public_key_der@, decrypted_view(decrypted), r.0, r.1@),
{
    let mut actions: Vec<LoginAction> = Vec::new();
    match decrypted {
        Ok((secret, token)) => {
            if token[0] != expected_token[0] || token[1] != expected_token[1]
                || token[2] != expected_token[2] || token[3] != expected_token[3] {
                proof {
                    assert(token@ != expected_token@) by {
                        if token@ == expected_token@ {
                            assert(token@[0] == expected_token@[0] && token@[1] == expected_token@[1]);
                            assert(token@[2] == expected_token@[2] && token@[3] == expected_token@[3]);
                        }
                    }
                }
                actions.push(LoginAction::Disconnect(String::from_str("{\"text\":\"Token verification failed\"}")));
                return (LoginState::Closed, actions);
            }
            proof {
                assert(token@ =~= expected_token@);
                reveal_strlit("");
                assert(""@ =~= Seq::<char>::empty());
                assert(encode_utf8(""@) =~= Seq::<u8>::empty());
                assert(encode_utf8(""@) + secret@ + public_key_der@ =~= secret@ + public_key_der@);
            }
            let hash = compute_server_hash("", &secret, public_key_der);
            actions.push(LoginAction::EnableEncryption(secret));
            actions.push(LoginAction::VerifySession { username: username.clone(), server_hash: hash.clone() });
            (LoginState::AwaitSession { username, server_hash: hash, attempts: 1 }, actions)
        },
        Err(_) => {
            actions.push(LoginAction::Disconnect(String::from_str("{\"text\":\"Encryption verification failed\"}")));
            (LoginState::Closed, actions)
        },
    }
}

/// One step of the login: from `before`, `event` leads to `after` with
/// these actions.
pub open spec fn step_rel(
    config: LoginConfig,
    before: LoginState,
    event: LoginEvent,
    after: LoginState,
    actions: Seq<LoginAction>,
) -> bool {
    match before {
        LoginState::AwaitStart => match event {
            LoginEvent::Frame { packet_id, start } => if packet_id != 0 || start is None {
                closes(after, actions)
            } else if !config.online_mode {
                let (name, provided) = start->0;
                let id = offline_login_id(provided, name@);
                awaits_access(after, name@, id, 0) && actions.len() == 1 && checks_access(actions[0], id)
            } else {
                let (name, provided) = start->0;
                requests_encryption(after, actions, name@) || disconnects(after, actions, reason_encryption_setup())
            },
            _ => closes(after, actions),
        },
        LoginState::AwaitEncryption { username, keys } => match event {
            LoginEvent::EncryptionResponse { shared_secret, verify_token } => answers_response(username@,
                keys.verify_token@, keys.public_key_der@,
                client_secrets(keys.private_key_der@, shared_secret@, verify_token@), after, actions),
            _ => closes(after, actions),
        },
        LoginState::AwaitSession { username, server_hash, attempts } => match event {
            LoginEvent::Mojang(Ok(profile)) => {
                let id = verified_id(profile.id@, username@);
                awaits_access(after, username@, id, profile.properties@.len()) && actions.len() == 1
                    && checks_access(actions[0], id)
            },
            LoginEvent::Mojang(Err(_)) => if attempts < SESSION_ATTEMPTS {
                retries_session(after, actions, username@, server_hash@, (attempts + 1) as u8)
            } else {
                disconnects(after, actions, reason_session())
            },
            _ => closes(after, actions),
        },
        LoginState::AwaitAccess { username, uuid, properties } => match event {
            LoginEvent::Access { banned, whitelisted } => match access_refusal(banned, whitelisted) {
                Some(reason) => disconnects(after, actions, reason),
                None => logs_in(config, after, actions, username@, uuid, properties@.len()),
            },
            _ => closes(after, actions),
        },
        LoginState::AwaitAcknowledgement { username, uuid } => match event {
            LoginEvent::Acknowledged => enters_play(config, after, actions, username@, uuid),
            _ => closes(after, actions),
        },
        _ => closes(after, actions),
    }
}

/// The login phase of one connection.
pub struct LoginMachine {
    pub config: LoginConfig,
    pub state: LoginState,
}

impl LoginMachine {
    pub fn new(config: LoginConfig) -> (r: LoginMachine)
        ensures
            r.state is AwaitStart,
            r.config == config,
    {
        LoginMachine { config, state: LoginState::AwaitStart }
    }

    /// Takes one event and gives the actions to perform, in order.
    pub fn step(&mut self, event: LoginEvent) -> (actions: Vec<LoginAction>)
        ensures
            final(self).config == old(self).config,
            step_rel(old(self).config, old(self).state, event, final(self).state, actions@),
    {
        let mut actions: Vec<LoginAction> = Vec::new();
        let mut state = LoginState::Closed;
        std::mem::swap(&mut state, &mut self.state);
        match state {
            LoginState::AwaitStart => match event {
                LoginEvent::Frame { packet_id, start } => {
                    if packet_id != 0 {
                        actions.push(LoginAction::Close);
                        return actions;
                    }
                    let (name, provided) = match start {
                        Some(s) => s,
                        None => {
                            actions.push(LoginAction::Close);
                            return actions;
                        },
                    };
                    if !self.config.online_mode {
                        let uuid = match provided {
                            Some(u) => u,
                            None => offline_uuid(name.as_str()),
                        };
                        actions.push(LoginAction::CheckAccess { uuid });
                        self.state = LoginState::AwaitAccess { username: name, uuid, properties: Vec::new() };
                        return actions;
                    }
                    match generate_keys() {
                        Ok(keys) => {
                            let public_key = copy_bytes(keys.public_key_der.as_slice());
                            let verify_token = copy_bytes(&keys.verify_token);
                            actions.push(LoginAction::SendEncryptionRequest { public_key, verify_token });
                            self.state = LoginState::AwaitEncryption { username: name, keys };
                        },
                        Err(_) => {
                            actions.push(LoginAction::Disconnect(
                                String::from_str("{\"text\":\"Server error during encryption setup\"}")));
                        },
                    }
                    actions
                },
                _ => {
                    actions.push(LoginAction::Close);
                    actions
                },
            },
            LoginState::AwaitEncryption { username, keys } => match event {
                LoginEvent::EncryptionResponse { shared_secret, verify_token } => {
                    let decrypted = decrypt_client_secrets(keys.private_key_der.as_slice(), shared_secret.as_slice(),
                        verify_token.as_slice());
                    let ghost dv = decrypted;
                    let ghost un = username@;
                    let (next, actions) = encryption_response_step(username, &keys.verify_token,
                        keys.public_key_der.as_slice(), decrypted);
                    self.state = next;
                    proof {
                        assert(answers_response(un, keys.verify_token@, keys.public_key_der@,
                            decrypted_view(dv), self.state, actions@));
                    }
                    actions
                },
                _ => {
                    actions.push(LoginAction::Close);
                    actions
                },
            },
            LoginState::AwaitSession { username, server_hash, attempts } => match event {
                LoginEvent::Mojang(Ok(profile)) => {
                    let uuid = session_login_id(parse_uuid(profile.id.as_str()), username.as_str());
                    actions.push(LoginAction::CheckAccess { uuid });
                    self.state = LoginState::AwaitAccess { username, uuid, properties: profile.properties };
                    actions
                },
                LoginEvent::Mojang(Err(_)) => {
                    if attempts < SESSION_ATTEMPTS {
                        actions.push(LoginAction::RetrySession {
                            millis: SESSION_RETRY_MILLIS,
                            username: username.clone(),
                            server_hash: server_hash.clone(),
                        });
                        self.state = LoginState::AwaitSession { username, server_hash, attempts: attempts + 1 };
                    } else {
                        actions.push(LoginAction::Disconnect(
                            String::from_str("{\"text\":\"Mojang authentication failed. Are you logged in?\"}")));
                    }
                    actions
                },
                _ => {
                    actions.push(LoginAction::Close);
                    actions
                },
            },
            LoginState::AwaitAccess { username, uuid, properties } => match event {
                LoginEvent::Access { banned, whitelisted } => {
                    match access_decision(banned, whitelisted) {
                        Some(reason) => {
                            actions.push(LoginAction::Disconnect(reason));
                        },
                        None => {
                            actions.push(LoginAction::SendLoginSuccess {
                                uuid,
                                username: username.clone(),
                                properties,
                            });
                            if self.config.compression_threshold > 0 {
                                actions.push(LoginAction::SetCompression(self.config.compression_threshold as i32));
                            }
                            actions.push(LoginAction::ReadAcknowledgement);
                            self.state = LoginState::AwaitAcknowledgement { username, uuid };
                        },
                    }
                    actions
                },
                _ => {
                    actions.push(LoginAction::Close);
                    actions
                },
            },
            LoginState::AwaitAcknowledgement { username, uuid } => match event {
                LoginEvent::Acknowledged => {
                    if self.config.protocol_version >= CONFIGURATION_PROTOCOL {
                        actions.push(LoginAction::EnterConfiguration);
                    }
                    actions.push(LoginAction::EnterPlay { username, uuid });
                    self.state = LoginState::Finished;
                    actions
                },
                _ => {
                    actions.push(LoginAction::Close);
                    actions
                },
            },
            _ => {
                actions.push(LoginAction::Close);
                actions
            },
        }
    }
}

fn copy_bytes(b: &[u8]) -> (r: Vec<u8>)
    ensures
        r@ == b@,
{
    let mut out: Vec<u8> = Vec::new();
    let mut i: usize = 0;
    while i < b.len()
        invariant
            i <= b@.len(),
            out@ == b@.subrange(0, i as int),
        decreases b@.len() - i,
    {
        out.push(b[i]);
        i = i + 1;
        assert(out@ =~= b@.subrange(0, i as int));
    }
    assert(b@.subrange(0, b@.len() as int) =~= b@);
    out
}

} // verus!

verus! {

// ───────────────────────────── configuration ─────────────────────────────

/// The brand the server announces, followed by a NUL byte.
pub open spec fn brand_bytes() -> Seq<u8> {
    "Minecraft LAN Server\0"@.map_values(|c: char| c as u8)
}

/// The server brand sent on the `minecraft:brand` channel.
pub fn brand_payload() -> (r: Vec<u8>)
    ensures
        r@ == brand_bytes(),
{
    let text = "Minecraft LAN Server\0";
    proof { reveal_strlit("Minecraft LAN Server\0"); }
    let n = text.unicode_len();
    let mut out: Vec<u8> = Vec::new();
    let mut i: usize = 0;
    while i < n
        invariant
            n == text@.len(),
            i <= n,
            forall|j: int| 0 <= j < n ==> (#[trigger] text@[j] as u32) < 128,
            out@ == text@.subrange(0, i as int).map_values(|c: char| c as u8),
        decreases n - i,
    {
        let c = text.get_char(i);
        out.push(c as u8);
        i = i + 1;
        assert(out@ =~= text@.subrange(0, i as int).map_values(|c: char| c as u8));
    }
    assert(text@.subrange(0, n as int) =~= text@);
    out
}

/// The registries sent during configuration, each with its entry keys
/// (entries carry no data: the client uses its built-in defaults).
pub fn configuration_registries() -> (r: Vec<(String, Vec<String>)>)
    ensures
        r@.len() == 2,
        r@[0].0@ == "minecraft:dimension_type"@,
        r@[0].1@.len() == 3,
        r@[1].0@ == "minecraft:worldgen/biome"@,
        r@[1].1@.len() == 15,
{
    let mut dims: Vec<String> = Vec::new();
    dims.push(String::from_str("minecraft:overworld"));
    dims.push(String::from_str("minecraft:the_nether"));
    dims.push(String::from_str("minecraft:the_end"));
    let mut biomes: Vec<String> = Vec::new();
    biomes.push(String::from_str("minecraft:plains"));
    biomes.push(String::from_str("minecraft:the_void"));
    biomes.push(String::from_str("minecraft:forest"));
    biomes.push(String::from_str("minecraft:ocean"));
    biomes.push(String::from_str("minecraft:desert"));
    biomes.push(String::from_str("minecraft:nether_wastes"));
    biomes.push(String::from_str("minecraft:soul_sand_valley"));
    biomes.push(String::from_str("minecraft:crimson_forest"));
    biomes.push(String::from_str("minecraft:warped_forest"));
    biomes.push(String::from_str("minecraft:basalt_deltas"));
    biomes.push(String::from_str("minecraft:the_end"));
    biomes.push(String::from_str("minecraft:end_highlands"));
    biomes.push(String::from_str("minecraft:end_midlands"));
    biomes.push(String::from_str("minecraft:small_end_islands"));
    biomes.push(String::from_str("minecraft:end_barrens"));
    let mut r: Vec<(String, Vec<String>)> = Vec::new();
    r.push((String::from_str("minecraft:dimension_type"), dims));
    r.push((String::from_str("minecraft:worldgen/biome"), biomes));
    r
}

/// Longest the server waits for the client's configuration packets.
pub const CONFIG_TIMEOUT_MILLIS: u64 = 30_000;
/// Id of the keep-alive sent when the client is quiet.
pub const CONFIG_KEEP_ALIVE_ID: i64 = 42;

/// What the configuration phase receives.
#[derive(Debug, Clone, Copy, PartialEq, Eq, Structural)]
pub enum ConfigEvent {
    /// No frame within five seconds.
    Quiet,
    /// Reading failed.
    ReadFailed,
    /// A frame whose packet id could not be read.
    Undecodable,
    /// A frame: its packet id and whether its body decoded.
    Frame { packet_id: i32, decoded: bool },
}

/// What to do next in the configuration phase.
#[derive(Debug, Clone, Copy, PartialEq, Eq, Structural)]
pub enum ConfigAction {
    /// Send a keep-alive with this id and read on.
    KeepAlive(i64),
    /// Read the next frame.
    ReadNext,
    /// Send `Finish Configuration` and wait for the acknowledgement.
    Finish,
}

/// What the client has sent so far.
#[derive(Debug, Clone, Copy, PartialEq, Eq, Structural)]
pub struct ConfigProgress {
    pub got_client_info: bool,
    pub got_known_packs: bool,
}

/// One step of the configuration phase, `elapsed` milliseconds after it
/// began: past the time limit it finishes; client information (`0x00`)
/// and known packs (`0x07`) are noted when they decode, and once both
/// arrived it finishes; a read error finishes, silence sends a keep-alive.
pub open spec fn config_step_spec(p: ConfigProgress, elapsed: u64, e: ConfigEvent) -> (ConfigProgress, ConfigAction) {
    if elapsed > CONFIG_TIMEOUT_MILLIS {
        (p, ConfigAction::Finish)
    } else {
        match e {
            ConfigEvent::Quiet => (p, ConfigAction::KeepAlive(CONFIG_KEEP_ALIVE_ID)),
            ConfigEvent::ReadFailed => (p, ConfigAction::Finish),
            ConfigEvent::Undecodable => (p, ConfigAction::ReadNext),
            ConfigEvent::Frame { packet_id, decoded } => {
                let q = ConfigProgress {
                    got_client_info: p.got_client_info || (packet_id == 0 && decoded),
                    got_known_packs: p.got_known_packs || (packet_id == 7 && decoded),
                };
                (q, if q.got_client_info && q.got_known_packs { ConfigAction::Finish } else { ConfigAction::ReadNext })
            },
        }
    }
}

pub fn config_step(p: ConfigProgress, elapsed: u64, e: ConfigEvent) -> (r: (ConfigProgress, ConfigAction))
    ensures
        r == config_step_spec(p, elapsed, e),
{
    if elapsed > CONFIG_TIMEOUT_MILLIS {
        return (p, ConfigAction::Finish);
    }
    match e {
        ConfigEvent::Quiet => (p, ConfigAction::KeepAlive(CONFIG_KEEP_ALIVE_ID)),
        ConfigEvent::ReadFailed => (p, ConfigAction::Finish),
        ConfigEvent::Undecodable => (p, ConfigAction::ReadNext),
        ConfigEvent::Frame { packet_id, decoded } => {
            let q = ConfigProgress {
                got_client_info: p.got_client_info || (packet_id == 0 && decoded),
                got_known_packs: p.got_known_packs || (packet_id == 7 && decoded),
            };
            (q, if q.got_client_info && q.got_known_packs { ConfigAction::Finish } else { ConfigAction::ReadNext })
        },
    }
}

/// Progress is never lost: once noted, client information and known packs
/// stay noted.
pub proof fn config_progress_kept(p: ConfigProgress, elapsed: u64, e: ConfigEvent)
    ensures
        p.got_client_info ==> config_step_spec(p, elapsed, e).0.got_client_info,
        p.got_known_packs ==> config_step_spec(p, elapsed, e).0.got_known_packs,
{
}

} // verus!
