//! Decisions of the play phase that do not need the world: reading block
//! positions and other fields out of packets, the answers to chat
//! commands, and the chances of a block break.

use vstd::prelude::*;
use vstd::string::*;
use crate::commands::context::CommandResult;

verus! {

/// Lowest and highest block heights a packet may name.
pub const MIN_BLOCK_Y: i32 = -64;
pub const MAX_BLOCK_Y: i32 = 319;

/// Eight bytes read as a big-endian `i64`.
pub open spec fn be_i64(b: Seq<u8>) -> i64 {
    ((b[0] as u64) << 56u64 | (b[1] as u64) << 48u64 | (b[2] as u64) << 40u64 | (b[3] as u64) << 32u64
        | (b[4] as u64) << 24u64 | (b[5] as u64) << 16u64 | (b[6] as u64) << 8u64 | (b[7] as u64)) as i64
}

/// The x of a packed block position: its top 26 bits, signed.
pub open spec fn unpack_x(raw: i64) -> i32 {
    (raw >> 38u64) as i32
}

/// The y: its low 12 bits, signed.
pub open spec fn unpack_y(raw: i64) -> i32 {
    ((raw << 52u64) >> 52u64) as i32
}

/// The z: the 26 bits above y, read without their sign.
pub open spec fn unpack_z(raw: i64) -> i32 {
    ((raw >> 12u64) as i32) & 0x3FF_FFFF
}

/// A block position packed as the protocol does: x in the top 26 bits,
/// z in the next 26, y in the low 12.
pub open spec fn pack_position(x: i32, y: i32, z: i32) -> i64 {
    ((((x as i64) & 0x3FF_FFFF) << 38u64) | (((z as i64) & 0x3FF_FFFF) << 12u64) | ((y as i64) & 0xFFF))
}

fn be_i64_of(b: &[u8]) -> (r: i64)
    requires
        b@.len() >= 8,
    ensures
        r == be_i64(b@),
{
    (((b[0] as u64) << 56u64) | ((b[1] as u64) << 48u64) | ((b[2] as u64) << 40u64) | ((b[3] as u64) << 32u64)
        | ((b[4] as u64) << 24u64) | ((b[5] as u64) << 16u64) | ((b[6] as u64) << 8u64) | (b[7] as u64)) as i64
}

/// Splits a packed block position into x, y and z.
pub fn unpack_position(raw: i64) -> (r: (i32, i32, i32))
    ensures
        r == (unpack_x(raw), unpack_y(raw), unpack_z(raw)),
        -0x200_0000 <= r.0 < 0x200_0000,
        -2048 <= r.1 < 2048,
        0 <= r.2 < 0x400_0000,
{
    proof {
        assert(-0x200_0000 <= (raw >> 38u64) < 0x200_0000) by (bit_vector);
        assert(-2048 <= ((raw << 52u64) >> 52u64) < 2048) by (bit_vector);
        assert(0 <= (((raw >> 12u64) as i32) & 0x3FF_FFFF) < 0x400_0000) by (bit_vector);
    }
    let x = (raw >> 38u64) as i32;
    let y = ((raw << 52u64) >> 52u64) as i32;
    let z = ((raw >> 12u64) as i32) & 0x3FF_FFFF;
    (x, y, z)
}

/// Unpacking a packed position gives back x and y, and z reduced to its
/// low 26 bits (a negative z comes back shifted by 2^26).
pub proof fn unpack_pack_position(x: i32, y: i32, z: i32)
    requires
        -0x200_0000 <= x < 0x200_0000,
        -2048 <= y < 2048,
    ensures
        unpack_x(pack_position(x, y, z)) == x,
        unpack_y(pack_position(x, y, z)) == y,
        unpack_z(pack_position(x, y, z)) == z & 0x3FF_FFFF,
{
    assert(((((((x as i64) & 0x3FF_FFFF) << 38u64) | (((z as i64) & 0x3FF_FFFF) << 12u64) | ((y as i64) & 0xFFF)))
        >> 38u64) as i32 == x) by (bit_vector)
        requires
            -0x200_0000 <= x < 0x200_0000,
    ;
    assert(((((((x as i64) & 0x3FF_FFFF) << 38u64) | (((z as i64) & 0x3FF_FFFF) << 12u64) | ((y as i64) & 0xFFF))
        << 52u64) >> 52u64) as i32 == y) by (bit_vector)
        requires
            -2048 <= y < 2048,
    ;
    assert(((((((x as i64) & 0x3FF_FFFF) << 38u64) | (((z as i64) & 0x3FF_FFFF) << 12u64) | ((y as i64) & 0xFFF))
        >> 12u64) as i32) & 0x3FF_FFFF == z & 0x3FF_FFFF) by (bit_vector);
}

/// The block a Player Action payload asks to break: the status byte is
/// 2 ("finished digging") and a position follows it; positions outside the
/// world's height are ignored.
pub open spec fn broken_block(payload: Seq<u8>) -> Option<(i32, i32, i32)> {
    if payload.len() >= 9 {
        let raw = be_i64(payload.subrange(1, 9));
        let y = unpack_y(raw);
        if MIN_BLOCK_Y <= y <= MAX_BLOCK_Y && payload[0] == 2 {
            Some((unpack_x(raw), y, unpack_z(raw)))
        } else {
            None
        }
    } else {
        None
    }
}

/// The block a Player Action packet's payload breaks, if any.
pub fn player_action_break(payload: &[u8]) -> (r: Option<(i32, i32, i32)>)
    ensures
        r == broken_block(payload@),
{
    if payload.len() < 9 {
        return None;
    }
    let status = payload[0];
    let raw = be_i64_of(&[payload[1], payload[2], payload[3], payload[4], payload[5], payload[6], payload[7], payload[8]]);
    assert(seq![payload@[1], payload@[2], payload@[3], payload@[4], payload@[5], payload@[6], payload@[7], payload@[8]]
        =~= payload@.subrange(1, 9));
    let (x, y, z) = unpack_position(raw);
    if MIN_BLOCK_Y <= y && y <= MAX_BLOCK_Y && status == 2 {
        Some((x, y, z))
    } else {
        None
    }
}

/// The block a Use Item On payload targets, the position starting at
/// `offset` (after the hand); heights outside the world are ignored.
pub open spec fn used_block(payload: Seq<u8>, offset: int) -> Option<(i32, i32, i32)> {
    if offset + 8 <= payload.len() {
        let raw = be_i64(payload.subrange(offset, offset + 8));
        let y = unpack_y(raw);
        if MIN_BLOCK_Y <= y <= MAX_BLOCK_Y {
            Some((unpack_x(raw), y, unpack_z(raw)))
        } else {
            None
        }
    } else {
        None
    }
}

pub fn use_item_on_target(payload: &[u8], offset: usize) -> (r: Option<(i32, i32, i32)>)
    ensures
        r == used_block(payload@, offset as int),
{
    if offset > payload.len() || payload.len() - offset < 8 {
        return None;
    }
    let o = offset;
    let raw = be_i64_of(&[payload[o], payload[o + 1], payload[o + 2], payload[o + 3], payload[o + 4], payload[o + 5],
        payload[o + 6], payload[o + 7]]);
    assert(seq![payload@[o as int], payload@[o + 1], payload@[o + 2], payload@[o + 3], payload@[o + 4],
        payload@[o + 5], payload@[o + 6], payload@[o + 7]] =~= payload@.subrange(o as int, o + 8));
    let (x, y, z) = unpack_position(raw);
    if MIN_BLOCK_Y <= y && y <= MAX_BLOCK_Y {
        Some((x, y, z))
    } else {
        None
    }
}

/// Unbreaking spares the tool when a roll from 1 to 100 is at most
/// `100 / (level + 1)`; without the enchantment the tool always wears.
pub open spec fn spares_tool(unbreaking: u32, roll: u32) -> bool {
    unbreaking > 0 && (roll as int) <= 100int / (unbreaking as int + 1)
}

/// Whether breaking a block spares the held tool, for a roll from 1 to 100.
pub fn tool_spared(unbreaking: u32, roll: u32) -> (r: bool)
    requires
        unbreaking < u32::MAX,
    ensures
        r == spares_tool(unbreaking, roll),
{
    unbreaking > 0 && roll <= 100 / (unbreaking + 1)
}

/// Extra drops of a broken block: with Fortune, ores drop `roll % (level +
/// 1)` more items (for a random `roll`); otherwise none.
pub open spec fn fortune_extra(fortune: u32, ore: bool, roll: u32) -> nat {
    if fortune > 0 && ore { ((roll as int) % (fortune as int + 1)) as nat } else { 0 }
}

pub fn extra_drops(fortune: u32, block_id: u32, roll: u32) -> (r: u32)
    requires
        fortune < u32::MAX,
    ensures
        r == fortune_extra(fortune, crate::net::tracker::ore_id(block_id), roll),
        r <= fortune,
{
    if fortune > 0 && crate::net::tracker::is_ore_block(block_id) {
        roll % (fortune + 1)
    } else {
        0
    }
}

/// A villager trade slot from 0 to 9 is handled; others are skipped.
pub fn trade_slot_valid(slot: i32) -> (r: bool)
    ensures
        r == (0 <= slot <= 9),
{
    0 <= slot && slot <= 9
}

/// What a Lock Difficulty packet does: nothing from a player who is not an
/// operator (the packet is skipped); otherwise the first payload byte, when
/// there is one, sets the lock.
pub fn difficulty_lock(is_op: bool, payload: &[u8]) -> (r: (bool, Option<bool>))
    ensures
        !is_op ==> r == (false, None::<bool>),
        is_op && payload@.len() == 0 ==> r == (true, None::<bool>),
        is_op && payload@.len() > 0 ==> r == (true, Some(payload@[0] != 0)),
{
    if !is_op {
        return (false, None);
    }
    if payload.len() == 0 {
        (true, None)
    } else {
        (true, Some(payload[0] != 0))
    }
}

// ─────────────────────────────── packet fields ───────────────────────────────

/// Frames longer than this end the connection.
pub const MAX_PLAY_FRAME: usize = 2097152;

/// Whether a frame of `len` bytes is too long to be processed.
pub fn frame_too_large(len: usize) -> (r: bool)
    ensures
        r == (len > MAX_PLAY_FRAME),
{
    len > MAX_PLAY_FRAME
}

/// Four bytes read as a big-endian `i32`.
pub open spec fn be_i32(b: Seq<u8>) -> i32 {
    ((b[0] as u32) << 24u32 | (b[1] as u32) << 16u32 | (b[2] as u32) << 8u32 | (b[3] as u32)) as i32
}

/// Whether a Confirm Teleportation payload confirms the pending teleport:
/// its first four bytes, big-endian, are the pending id.
pub open spec fn confirms_teleport(payload: Seq<u8>, pending: Option<i32>) -> bool {
    payload.len() >= 4 && pending == Some(be_i32(payload.subrange(0, 4)))
}

pub fn teleport_confirmed(payload: &[u8], pending: Option<i32>) -> (r: bool)
    ensures
        r == confirms_teleport(payload@, pending),
{
    if payload.len() < 4 {
        return false;
    }
    let id = (((payload[0] as u32) << 24u32) | ((payload[1] as u32) << 16u32) | ((payload[2] as u32) << 8u32)
        | (payload[3] as u32)) as i32;
    assert(seq![payload@[0], payload@[1], payload@[2], payload@[3]] =~= payload@.subrange(0, 4));
    match pending {
        Some(p) => p == id,
        None => false,
    }
}

/// The hotbar slot a Set Held Item payload selects: its first byte, when
/// it is below nine.
pub fn held_slot(payload: &[u8]) -> (r: Option<u8>)
    ensures
        r == (if payload@.len() > 0 && payload@[0] < 9 { Some(payload@[0]) } else { None::<u8> }),
{
    if payload.len() > 0 && payload[0] < 9 {
        Some(payload[0])
    } else {
        None
    }
}

// ─────────────────────────────────── chat ───────────────────────────────────

/// Bytes of a character in UTF-8.
pub open spec fn utf8_width(c: char) -> nat {
    if (c as u32) < 0x80 {
        1
    } else if (c as u32) < 0x800 {
        2
    } else if (c as u32) < 0x10000 {
        3
    } else {
        4
    }
}

/// Bytes of a text in UTF-8.
pub open spec fn utf8_len(s: Seq<char>) -> nat
    decreases s.len(),
{
    if s.len() == 0 {
        0
    } else {
        utf8_len(s.drop_last()) + utf8_width(s.last())
    }
}

/// Longest Chat Command, in UTF-8 bytes, that is run.
pub const MAX_CHAT_COMMAND: usize = 256;

/// Whether a Chat Command is too long to be run.
pub fn chat_command_too_long(command: &str) -> (r: bool)
    ensures
        r == (utf8_len(command@) > MAX_CHAT_COMMAND),
{
    let n = command.unicode_len();
    let mut bytes: usize = 0;
    let mut i: usize = 0;
    while i < n
        invariant
            n == command@.len(),
            i <= n,
            bytes == utf8_len(command@.subrange(0, i as int)),
            bytes <= MAX_CHAT_COMMAND,
        decreases n - i,
    {
        let c = command.get_char(i);
        let w: usize = if (c as u32) < 0x80 {
            1
        } else if (c as u32) < 0x800 {
            2
        } else if (c as u32) < 0x10000 {
            3
        } else {
            4
        };
        proof {
            assert(command@.subrange(0, i + 1).drop_last() =~= command@.subrange(0, i as int));
        }
        if bytes + w > MAX_CHAT_COMMAND {
            proof { lemma_utf8_len_grows(command@, i as int + 1); }
            return true;
        }
        bytes = bytes + w;
        i = i + 1;
    }
    proof { assert(command@.subrange(0, n as int) =~= command@); }
    false
}

/// A text is at least as long in bytes as any of its prefixes.
proof fn lemma_utf8_len_grows(s: Seq<char>, k: int)
    requires
        0 <= k <= s.len(),
    ensures
        utf8_len(s.subrange(0, k)) <= utf8_len(s),
    decreases s.len() - k,
{
    if k < s.len() {
        lemma_utf8_len_grows(s, k + 1);
        assert(s.subrange(0, k + 1).drop_last() =~= s.subrange(0, k));
    } else {
        assert(s.subrange(0, k) =~= s);
    }
}

/// Whether a chat line is a command: it starts with `/`.
pub fn chat_is_command(message: &str) -> (r: bool)
    ensures
        r == (message@.len() > 0 && message@[0] == '/'),
{
    message.unicode_len() > 0 && message.get_char(0) == '/'
}

/// The system chat text that answers a player's command: the reply in
/// gray or the error in red, as JSON text (the text goes in unescaped).
pub open spec fn command_answer(r: Result<Seq<char>, Seq<char>>) -> Seq<char> {
    match r {
        Ok(t) => "{\"text\":\""@ + t + "\",\"color\":\"gray\"}"@,
        Err(e) => "{\"text\":\""@ + e + "\",\"color\":\"red\"}"@,
    }
}

pub fn command_answer_json(r: &CommandResult) -> (s: String)
    ensures
        s@ == command_answer(crate::commands::context::reply_view(*r)),
{
    let mut s = String::from_str("{\"text\":\"");
    match r {
        Ok(t) => {
            s.append(t.as_str());
            s.append("\",\"color\":\"gray\"}");
        },
        Err(e) => {
            s.append(e.as_str());
            s.append("\",\"color\":\"red\"}");
        },
    }
    s
}

// ──────────────────────────────── keep-alive ────────────────────────────────

/// Milliseconds between keep-alives sent to a player.
pub const KEEP_ALIVE_INTERVAL_MS: u64 = 1000;
/// Milliseconds without a keep-alive answer after which the player is
/// dropped.
pub const KEEP_ALIVE_TIMEOUT_MS: u64 = 30000;

/// Keep-alive bookkeeping of one player, times in milliseconds on the
/// connection's clock.
#[derive(Debug, Clone, Copy, PartialEq, Eq, Structural)]
pub struct KeepAlive {
    /// When the last keep-alive was sent (or the play phase began).
    pub last_sent: u64,
    /// When the player last answered (or the play phase began).
    pub last_answer: u64,
    /// Id of the last keep-alive sent.
    pub id: i64,
    /// Round trip of the last answer.
    pub ping: u32,
}

/// The next keep-alive id (it wraps as `wrapping_add` does).
pub open spec fn next_keep_alive_id(id: i64) -> i64 {
    if id == i64::MAX { i64::MIN } else { (id + 1) as i64 }
}

/// Time from `from` to `now`, 0 when `now` is earlier.
pub open spec fn since(now: u64, from: u64) -> u64 {
    if now >= from { (now - from) as u64 } else { 0 }
}

impl KeepAlive {
    /// The bookkeeping when the play phase begins at `now`.
    pub fn new(now: u64) -> (r: KeepAlive)
        ensures
            r == (KeepAlive { last_sent: now, last_answer: now, id: 0, ping: 0 }),
    {
        KeepAlive { last_sent: now, last_answer: now, id: 0, ping: 0 }
    }

    /// A pass of the play loop at `now`: a keep-alive with the next id is
    /// sent once a second has passed since the last one; the player has
    /// timed out when it has not answered for more than 30 seconds.
    pub fn tick(&mut self, now: u64) -> (r: (Option<i64>, bool))
        ensures
            since(now, old(self).last_sent) >= KEEP_ALIVE_INTERVAL_MS ==> r.0 == Some(next_keep_alive_id(old(self).id))
                && *final(self) == (KeepAlive { last_sent: now, id: next_keep_alive_id(old(self).id), ..*old(self) }),
            since(now, old(self).last_sent) < KEEP_ALIVE_INTERVAL_MS ==> r.0 is None && *final(self) == *old(self),
            r.1 == (since(now, old(self).last_answer) > KEEP_ALIVE_TIMEOUT_MS),
    {
        let elapsed = if now >= self.last_sent { now - self.last_sent } else { 0 };
        let sent = if elapsed >= KEEP_ALIVE_INTERVAL_MS {
            let id = if self.id == i64::MAX { i64::MIN } else { self.id + 1 };
            self.id = id;
            self.last_sent = now;
            Some(id)
        } else {
            None
        };
        let quiet = if now >= self.last_answer { now - self.last_answer } else { 0 };
        (sent, quiet > KEEP_ALIVE_TIMEOUT_MS)
    }

    /// The player answered a keep-alive at `now`: the round trip since the
    /// last keep-alive was sent (cut to 32 bits) is its ping.
    pub fn answered(&mut self, now: u64)
        ensures
            *final(self) == (KeepAlive {
                last_answer: now,
                ping: since(now, old(self).last_sent) as u32,
                ..*old(self)
            }),
    {
        let rtt = if now >= self.last_sent { now - self.last_sent } else { 0 };
        self.last_answer = now;
        self.ping = rtt as u32;
    }
}

} // verus!
