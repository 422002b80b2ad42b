use vstd::prelude::*;

verus! {

pub const AIR: u32 = 0;
pub const STONE: u32 = 1;
pub const GRASS: u32 = 8;
pub const SAND: u32 = 37;
pub const GRAVEL: u32 = 40;
pub const GLASS: u32 = 101;
pub const DISPENSER: u32 = 105;
pub const TNT: u32 = 177;
pub const POWERED_RAIL: u32 = 126;
pub const OAK_LOG: u32 = 49;
pub const BOOKSHELF: u32 = 178;
pub const OBSIDIAN: u32 = 193;
pub const TORCH: u32 = 194;
pub const FIRE: u32 = 196;
pub const CHEST: u32 = 201;
pub const FURNACE: u32 = 209;
pub const CRAFTING_TABLE: u32 = 206;
pub const ENCHANTING_TABLE: u32 = 385;
pub const BREWING_STAND: u32 = 386;
pub const BEACON: u32 = 408;
pub const GRINDSTONE: u32 = 844;
pub const SMITHING_TABLE: u32 = 846;
pub const STONECUTTER: u32 = 847;
pub const LOOM: u32 = 838;
pub const CARTOGRAPHY_TABLE: u32 = 842;
pub const LECTERN: u32 = 845;
pub const CRAFTER: u32 = 1184;
pub const HOPPER: u32 = 477;
pub const NOTE_BLOCK: u32 = 109;
pub const JUKEBOX: u32 = 283;
pub const PISTON: u32 = 138;
pub const STICKY_PISTON: u32 = 128;
pub const OBSERVER: u32 = 676;
pub const COMPARATOR: u32 = 473;
pub const REDSTONE_WIRE: u32 = 202;
pub const REDSTONE_TORCH: u32 = 273;
pub const REDSTONE_BLOCK: u32 = 475;
pub const WATER: u32 = 35;
pub const LAVA: u32 = 36;
pub const NETHER_PORTAL: u32 = 295;
pub const BEDROCK: u32 = 34;
pub const SOUL_SAND: u32 = 286;
pub const MAGMA_BLOCK: u32 = 671;
pub const ICE: u32 = 277;
pub const CACTUS: u32 = 279;
pub const SUGAR_CANE: u32 = 282;
pub const MELON: u32 = 361;
pub const WHEAT: u32 = 207;
pub const CARROTS: u32 = 441;
pub const POTATOES: u32 = 442;
pub const BEETROOTS: u32 = 665;
pub const SULFUR_BLOCK: u32 = 998;
pub const POTENT_SULFUR: u32 = 999;
pub const SULFUR_SPIKE: u32 = 1134;
pub const CINNABAR_BLOCK: u32 = 1012;

} // verus!
