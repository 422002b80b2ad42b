use vstd::prelude::*;

verus! {

pub const STICK: u32 = 974;
pub const SHIELD: u32 = 1325;
pub const FISHING_ROD: u32 = 1082;
pub const BOW: u32 = 922;
pub const ARROW: u32 = 923;
pub const LEAD: u32 = 1291;
pub const SHEARS: u32 = 1134;
pub const ENCHANTED_BOOK: u32 = 1274;
pub const LAPIS_LAZULI: u32 = 928;
pub const PAPER: u32 = 1057;
pub const GLASS_PANE: u32 = 436;
pub const WOODEN_SWORD: u32 = 939;
pub const STONE_SWORD: u32 = 949;
pub const IRON_SWORD: u32 = 959;
pub const DIAMOND_SWORD: u32 = 964;
pub const WOODEN_AXE: u32 = 942;
pub const STONE_AXE: u32 = 952;
pub const IRON_AXE: u32 = 962;
pub const DIAMOND_AXE: u32 = 967;
pub const DIAMOND_PICKAXE: u32 = 966;
pub const GOLDEN_APPLE: u32 = 1014;
pub const ENCHANTED_GOLDEN_APPLE: u32 = 1015;
pub const BUCKET: u32 = 1040;
pub const WATER_BUCKET: u32 = 1041;
pub const LAVA_BUCKET: u32 = 1042;
pub const MILK_BUCKET: u32 = 1046;
pub const BREAD: u32 = 981;
pub const COOKED_BEEF: u32 = 1140;
pub const CROSSBOW: u32 = 1370;
pub const TRIDENT: u32 = 1362;
pub const SADDLE: u32 = 865;
pub const NAME_TAG: u32 = 1292;
pub const ENDER_PEARL: u32 = 1144;
pub const MUSIC_DISC_BOUNCE: u32 = 1342;
pub const SULFUR_CUBE_SPAWN_EGG: u32 = 1195;
pub const BUCKET_OF_SULFUR_CUBE: u32 = 1052;

} // verus!
