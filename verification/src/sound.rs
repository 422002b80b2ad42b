//! Sound event ids used for gameplay feedback.

use vstd::prelude::*;

verus! {

/// Common sound effect ids.
pub struct SoundIds;

impl SoundIds {
    pub const BLOCK_STONE_BREAK: i32 = 1;
    pub const BLOCK_WOOD_BREAK: i32 = 2;
    pub const BLOCK_GRAVEL_BREAK: i32 = 3;
    pub const BLOCK_GRASS_BREAK: i32 = 4;
    pub const BLOCK_STONE_PLACE: i32 = 5;
    pub const BLOCK_WOOD_PLACE: i32 = 6;
    pub const BLOCK_GRAVEL_PLACE: i32 = 7;
    pub const BLOCK_GRASS_PLACE: i32 = 8;
    pub const BLOCK_SAND_BREAK: i32 = 9;
    pub const BLOCK_SAND_PLACE: i32 = 10;
    pub const ENTITY_PLAYER_HURT: i32 = 100;
    pub const ENTITY_PLAYER_DEATH: i32 = 101;
    pub const ENTITY_PLAYER_ATTACK_SWEEP: i32 = 102;
    pub const ENTITY_PLAYER_ATTACK_KNOCKBACK: i32 = 103;
    pub const ENTITY_PLAYER_ATTACK_STRONG: i32 = 104;
    pub const ENTITY_PLAYER_ATTACK_WEAK: i32 = 105;
    pub const ENTITY_PLAYER_ATTACK_NODAMAGE: i32 = 106;
    pub const ENTITY_GENERIC_HURT: i32 = 50;
    pub const ENTITY_GENERIC_DEATH: i32 = 51;
    pub const ENTITY_GENERIC_EXPLODE: i32 = 52;
    pub const AMBIENT_CAVE: i32 = 200;
    pub const WEATHER_RAIN: i32 = 300;
    pub const WEATHER_THUNDER: i32 = 301;
    pub const BLOCK_BELL: i32 = 400;
    pub const BLOCK_CAMPFIRE_CRACKLE: i32 = 401;

    /// Break sound for a block: sand (25), dirt and grass (8 to 11), wood
    /// (56 to 65), stone for everything else.
    pub fn break_sound_for_block(block_id: u32) -> (r: i32)
        ensures
            r == break_sound(block_id),
    {
        if block_id == 25 {
            SoundIds::BLOCK_SAND_BREAK
        } else if 8 <= block_id && block_id <= 11 {
            SoundIds::BLOCK_GRASS_BREAK
        } else if 56 <= block_id && block_id <= 65 {
            SoundIds::BLOCK_WOOD_BREAK
        } else {
            SoundIds::BLOCK_STONE_BREAK
        }
    }
}

/// Break sound id for a block id.
pub open spec fn break_sound(block_id: u32) -> i32 {
    if block_id == 25 {
        9
    } else if 8 <= block_id <= 11 {
        4
    } else if 56 <= block_id <= 65 {
        2
    } else {
        1
    }
}

/// Sound categories sent with a sound effect.
pub struct SoundCategory;

impl SoundCategory {
    pub const MASTER: i32 = 0;
    pub const MUSIC: i32 = 1;
    pub const RECORDS: i32 = 2;
    pub const WEATHER: i32 = 3;
    pub const BLOCKS: i32 = 4;
    pub const HOSTILE: i32 = 5;
    pub const NEUTRAL: i32 = 6;
    pub const PLAYERS: i32 = 7;
    pub const AMBIENT: i32 = 8;
    pub const VOICE: i32 = 9;
}

} // verus!
