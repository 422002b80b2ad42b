//! Item name registry: resolves item and block names to protocol ids.
//!
//! The table holds only the names whose ids this library knows: the block
//! and item ids that `constants` names, and a few more items. The game's
//! full registry of block and item names is not part of the library, so
//! every other name, `sulfur` among them, does not resolve and
//! `item_count` is the size of this table, not of the game's registry.

use vstd::prelude::*;
use vstd::string::*;
use crate::block::BlockState;
use crate::words::ascii_lower_seq;
use crate::text::{has_prefix, is_ascii_text, lemma_lex_irreflexive, lemma_lex_transitive, lex_lt, lowercase, skip_chars, starts_with, str_eq, to_lowercase};

verus! {

broadcast use vstd::std_specs::hash::group_hash_axioms;

/// Number of registered names (the names of this table only).
pub const ITEM_COUNT: usize = 91;

/// Protocol id registered for a (normalized) name.
pub open spec fn registered_id(name: Seq<char>) -> Option<u32> {
    if name == "air"@ {
        Some(0u32)
    } else if name == "arrow"@ {
        Some(923u32)
    } else if name == "beacon"@ {
        Some(408u32)
    } else if name == "bedrock"@ {
        Some(34u32)
    } else if name == "beetroots"@ {
        Some(665u32)
    } else if name == "bookshelf"@ {
        Some(178u32)
    } else if name == "bow"@ {
        Some(922u32)
    } else if name == "bread"@ {
        Some(981u32)
    } else if name == "brewing_stand"@ {
        Some(386u32)
    } else if name == "bucket"@ {
        Some(1040u32)
    } else if name == "bucket_of_sulfur_cube"@ {
        Some(1052u32)
    } else if name == "cactus"@ {
        Some(279u32)
    } else if name == "carrots"@ {
        Some(441u32)
    } else if name == "cartography_table"@ {
        Some(842u32)
    } else if name == "chest"@ {
        Some(201u32)
    } else if name == "cinnabar_block"@ {
        Some(1012u32)
    } else if name == "comparator"@ {
        Some(473u32)
    } else if name == "cooked_beef"@ {
        Some(1140u32)
    } else if name == "crafter"@ {
        Some(1184u32)
    } else if name == "crafting_table"@ {
        Some(206u32)
    } else if name == "crossbow"@ {
        Some(1370u32)
    } else if name == "diamond_axe"@ {
        Some(967u32)
    } else if name == "diamond_pickaxe"@ {
        Some(966u32)
    } else if name == "diamond_sword"@ {
        Some(964u32)
    } else if name == "dispenser"@ {
        Some(105u32)
    } else if name == "enchanted_book"@ {
        Some(1274u32)
    } else if name == "enchanted_golden_apple"@ {
        Some(1015u32)
    } else if name == "enchanting_table"@ {
        Some(385u32)
    } else if name == "ender_pearl"@ {
        Some(1144u32)
    } else if name == "fire"@ {
        Some(196u32)
    } else if name == "fishing_rod"@ {
        Some(1082u32)
    } else if name == "furnace"@ {
        Some(209u32)
    } else if name == "glass"@ {
        Some(101u32)
    } else if name == "glass_pane"@ {
        Some(436u32)
    } else if name == "golden_apple"@ {
        Some(1014u32)
    } else if name == "grass"@ {
        Some(8u32)
    } else if name == "gravel"@ {
        Some(40u32)
    } else if name == "grindstone"@ {
        Some(844u32)
    } else if name == "hopper"@ {
        Some(477u32)
    } else if name == "ice"@ {
        Some(277u32)
    } else if name == "iron_axe"@ {
        Some(962u32)
    } else if name == "iron_sword"@ {
        Some(959u32)
    } else if name == "jukebox"@ {
        Some(283u32)
    } else if name == "lapis_lazuli"@ {
        Some(928u32)
    } else if name == "lava"@ {
        Some(36u32)
    } else if name == "lava_bucket"@ {
        Some(1042u32)
    } else if name == "lead"@ {
        Some(1291u32)
    } else if name == "lectern"@ {
        Some(845u32)
    } else if name == "loom"@ {
        Some(838u32)
    } else if name == "magma_block"@ {
        Some(671u32)
    } else if name == "melon"@ {
        Some(361u32)
    } else if name == "milk_bucket"@ {
        Some(1046u32)
    } else if name == "music_disc_bounce"@ {
        Some(1342u32)
    } else if name == "name_tag"@ {
        Some(1292u32)
    } else if name == "nether_portal"@ {
        Some(295u32)
    } else if name == "note_block"@ {
        Some(109u32)
    } else if name == "oak_log"@ {
        Some(49u32)
    } else if name == "observer"@ {
        Some(676u32)
    } else if name == "obsidian"@ {
        Some(193u32)
    } else if name == "paper"@ {
        Some(1057u32)
    } else if name == "piston"@ {
        Some(138u32)
    } else if name == "potatoes"@ {
        Some(442u32)
    } else if name == "potent_sulfur"@ {
        Some(999u32)
    } else if name == "powered_rail"@ {
        Some(126u32)
    } else if name == "redstone_block"@ {
        Some(475u32)
    } else if name == "redstone_torch"@ {
        Some(273u32)
    } else if name == "redstone_wire"@ {
        Some(202u32)
    } else if name == "saddle"@ {
        Some(865u32)
    } else if name == "sand"@ {
        Some(37u32)
    } else if name == "shears"@ {
        Some(1134u32)
    } else if name == "shield"@ {
        Some(1325u32)
    } else if name == "smithing_table"@ {
        Some(846u32)
    } else if name == "soul_sand"@ {
        Some(286u32)
    } else if name == "stick"@ {
        Some(974u32)
    } else if name == "sticky_piston"@ {
        Some(128u32)
    } else if name == "stone"@ {
        Some(1u32)
    } else if name == "stone_axe"@ {
        Some(952u32)
    } else if name == "stone_sword"@ {
        Some(949u32)
    } else if name == "stonecutter"@ {
        Some(847u32)
    } else if name == "sugar_cane"@ {
        Some(282u32)
    } else if name == "sulfur_block"@ {
        Some(998u32)
    } else if name == "sulfur_cube_spawn_egg"@ {
        Some(1195u32)
    } else if name == "sulfur_spike"@ {
        Some(1134u32)
    } else if name == "tnt"@ {
        Some(177u32)
    } else if name == "torch"@ {
        Some(194u32)
    } else if name == "trident"@ {
        Some(1362u32)
    } else if name == "water"@ {
        Some(35u32)
    } else if name == "water_bucket"@ {
        Some(1041u32)
    } else if name == "wheat"@ {
        Some(207u32)
    } else if name == "wooden_axe"@ {
        Some(942u32)
    } else if name == "wooden_sword"@ {
        Some(939u32)
    } else {
        None
    }
}

/// Name at each position of the registry, in ascending name order.
pub open spec fn registered_name(i: int) -> Seq<char> {
    if i == 0 {
        "air"@
    } else if i == 1 {
        "arrow"@
    } else if i == 2 {
        "beacon"@
    } else if i == 3 {
        "bedrock"@
    } else if i == 4 {
        "beetroots"@
    } else if i == 5 {
        "bookshelf"@
    } else if i == 6 {
        "bow"@
    } else if i == 7 {
        "bread"@
    } else if i == 8 {
        "brewing_stand"@
    } else if i == 9 {
        "bucket"@
    } else if i == 10 {
        "bucket_of_sulfur_cube"@
    } else if i == 11 {
        "cactus"@
    } else if i == 12 {
        "carrots"@
    } else if i == 13 {
        "cartography_table"@
    } else if i == 14 {
        "chest"@
    } else if i == 15 {
        "cinnabar_block"@
    } else if i == 16 {
        "comparator"@
    } else if i == 17 {
        "cooked_beef"@
    } else if i == 18 {
        "crafter"@
    } else if i == 19 {
        "crafting_table"@
    } else if i == 20 {
        "crossbow"@
    } else if i == 21 {
        "diamond_axe"@
    } else if i == 22 {
        "diamond_pickaxe"@
    } else if i == 23 {
        "diamond_sword"@
    } else if i == 24 {
        "dispenser"@
    } else if i == 25 {
        "enchanted_book"@
    } else if i == 26 {
        "enchanted_golden_apple"@
    } else if i == 27 {
        "enchanting_table"@
    } else if i == 28 {
        "ender_pearl"@
    } else if i == 29 {
        "fire"@
    } else if i == 30 {
        "fishing_rod"@
    } else if i == 31 {
        "furnace"@
    } else if i == 32 {
        "glass"@
    } else if i == 33 {
        "glass_pane"@
    } else if i == 34 {
        "golden_apple"@
    } else if i == 35 {
        "grass"@
    } else if i == 36 {
        "gravel"@
    } else if i == 37 {
        "grindstone"@
    } else if i == 38 {
        "hopper"@
    } else if i == 39 {
        "ice"@
    } else if i == 40 {
        "iron_axe"@
    } else if i == 41 {
        "iron_sword"@
    } else if i == 42 {
        "jukebox"@
    } else if i == 43 {
        "lapis_lazuli"@
    } else if i == 44 {
        "lava"@
    } else if i == 45 {
        "lava_bucket"@
    } else if i == 46 {
        "lead"@
    } else if i == 47 {
        "lectern"@
    } else if i == 48 {
        "loom"@
    } else if i == 49 {
        "magma_block"@
    } else if i == 50 {
        "melon"@
    } else if i == 51 {
        "milk_bucket"@
    } else if i == 52 {
        "music_disc_bounce"@
    } else if i == 53 {
        "name_tag"@
    } else if i == 54 {
        "nether_portal"@
    } else if i == 55 {
        "note_block"@
    } else if i == 56 {
        "oak_log"@
    } else if i == 57 {
        "observer"@
    } else if i == 58 {
        "obsidian"@
    } else if i == 59 {
        "paper"@
    } else if i == 60 {
        "piston"@
    } else if i == 61 {
        "potatoes"@
    } else if i == 62 {
        "potent_sulfur"@
    } else if i == 63 {
        "powered_rail"@
    } else if i == 64 {
        "redstone_block"@
    } else if i == 65 {
        "redstone_torch"@
    } else if i == 66 {
        "redstone_wire"@
    } else if i == 67 {
        "saddle"@
    } else if i == 68 {
        "sand"@
    } else if i == 69 {
        "shears"@
    } else if i == 70 {
        "shield"@
    } else if i == 71 {
        "smithing_table"@
    } else if i == 72 {
        "soul_sand"@
    } else if i == 73 {
        "stick"@
    } else if i == 74 {
        "sticky_piston"@
    } else if i == 75 {
        "stone"@
    } else if i == 76 {
        "stone_axe"@
    } else if i == 77 {
        "stone_sword"@
    } else if i == 78 {
        "stonecutter"@
    } else if i == 79 {
        "sugar_cane"@
    } else if i == 80 {
        "sulfur_block"@
    } else if i == 81 {
        "sulfur_cube_spawn_egg"@
    } else if i == 82 {
        "sulfur_spike"@
    } else if i == 83 {
        "tnt"@
    } else if i == 84 {
        "torch"@
    } else if i == 85 {
        "trident"@
    } else if i == 86 {
        "water"@
    } else if i == 87 {
        "water_bucket"@
    } else if i == 88 {
        "wheat"@
    } else if i == 89 {
        "wooden_axe"@
    } else if i == 90 {
        "wooden_sword"@
    } else {
        Seq::empty()
    }
}

/// Whether some registered name has this id.
pub open spec fn known_id(id: u32) -> bool {
    id == 0 || id == 1 || id == 8 || id == 34 || id == 35 || id == 36 || id == 37 || id == 40 || id == 49 || id == 101 || id == 105 || id == 109 || id == 126 || id == 128 || id == 138 || id == 177 || id == 178 || id == 193 || id == 194 || id == 196 || id == 201 || id == 202 || id == 206 || id == 207 || id == 209 || id == 273 || id == 277 || id == 279 || id == 282 || id == 283 || id == 286 || id == 295 || id == 361 || id == 385 || id == 386 || id == 408 || id == 436 || id == 441 || id == 442 || id == 473 || id == 475 || id == 477 || id == 665 || id == 671 || id == 676 || id == 838 || id == 842 || id == 844 || id == 845 || id == 846 || id == 847 || id == 865 || id == 922 || id == 923 || id == 928 || id == 939 || id == 942 || id == 949 || id == 952 || id == 959 || id == 962 || id == 964 || id == 966 || id == 967 || id == 974 || id == 981 || id == 998 || id == 999 || id == 1012 || id == 1014 || id == 1015 || id == 1040 || id == 1041 || id == 1042 || id == 1046 || id == 1052 || id == 1057 || id == 1082 || id == 1134 || id == 1140 || id == 1144 || id == 1184 || id == 1195 || id == 1274 || id == 1291 || id == 1292 || id == 1325 || id == 1342 || id == 1362 || id == 1370
}

/// Lower-cased name with one leading `minecraft:` removed.
pub open spec fn normalized_name(name: Seq<char>) -> Seq<char> {
    let l = lowercase(name);
    if has_prefix(l, "minecraft:"@) {
        l.subrange("minecraft:"@.len() as int, l.len() as int)
    } else {
        l
    }
}

fn normalize(name: &str) -> (r: String)
    ensures
        r@ == normalized_name(name@),
        is_ascii_text(name@) ==> lowercase(name@) == ascii_lower_seq(name@),
{
    let lower = to_lowercase(name);
    let prefix = "minecraft:";
    if starts_with(lower.as_str(), prefix) {
        let k = prefix.unicode_len();
        skip_chars(lower.as_str(), k)
    } else {
        lower
    }
}

/// The id registered for a name already lower-cased and without its
/// namespace.
pub fn lookup_item_id(name: &str) -> (r: Option<u32>)
    ensures
        r == registered_id(name@),
{
    if str_eq(name, "air") {
        Some(0)
    } else if str_eq(name, "arrow") {
        Some(923)
    } else if str_eq(name, "beacon") {
        Some(408)
    } else if str_eq(name, "bedrock") {
        Some(34)
    } else if str_eq(name, "beetroots") {
        Some(665)
    } else if str_eq(name, "bookshelf") {
        Some(178)
    } else if str_eq(name, "bow") {
        Some(922)
    } else if str_eq(name, "bread") {
        Some(981)
    } else if str_eq(name, "brewing_stand") {
        Some(386)
    } else if str_eq(name, "bucket") {
        Some(1040)
    } else if str_eq(name, "bucket_of_sulfur_cube") {
        Some(1052)
    } else if str_eq(name, "cactus") {
        Some(279)
    } else if str_eq(name, "carrots") {
        Some(441)
    } else if str_eq(name, "cartography_table") {
        Some(842)
    } else if str_eq(name, "chest") {
        Some(201)
    } else if str_eq(name, "cinnabar_block") {
        Some(1012)
    } else if str_eq(name, "comparator") {
        Some(473)
    } else if str_eq(name, "cooked_beef") {
        Some(1140)
    } else if str_eq(name, "crafter") {
        Some(1184)
    } else if str_eq(name, "crafting_table") {
        Some(206)
    } else if str_eq(name, "crossbow") {
        Some(1370)
    } else if str_eq(name, "diamond_axe") {
        Some(967)
    } else if str_eq(name, "diamond_pickaxe") {
        Some(966)
    } else if str_eq(name, "diamond_sword") {
        Some(964)
    } else if str_eq(name, "dispenser") {
        Some(105)
    } else if str_eq(name, "enchanted_book") {
        Some(1274)
    } else if str_eq(name, "enchanted_golden_apple") {
        Some(1015)
    } else if str_eq(name, "enchanting_table") {
        Some(385)
    } else if str_eq(name, "ender_pearl") {
        Some(1144)
    } else if str_eq(name, "fire") {
        Some(196)
    } else if str_eq(name, "fishing_rod") {
        Some(1082)
    } else if str_eq(name, "furnace") {
        Some(209)
    } else if str_eq(name, "glass") {
        Some(101)
    } else if str_eq(name, "glass_pane") {
        Some(436)
    } else if str_eq(name, "golden_apple") {
        Some(1014)
    } else if str_eq(name, "grass") {
        Some(8)
    } else if str_eq(name, "gravel") {
        Some(40)
    } else if str_eq(name, "grindstone") {
        Some(844)
    } else if str_eq(name, "hopper") {
        Some(477)
    } else if str_eq(name, "ice") {
        Some(277)
    } else if str_eq(name, "iron_axe") {
        Some(962)
    } else if str_eq(name, "iron_sword") {
        Some(959)
    } else if str_eq(name, "jukebox") {
        Some(283)
    } else if str_eq(name, "lapis_lazuli") {
        Some(928)
    } else if str_eq(name, "lava") {
        Some(36)
    } else if str_eq(name, "lava_bucket") {
        Some(1042)
    } else if str_eq(name, "lead") {
        Some(1291)
    } else if str_eq(name, "lectern") {
        Some(845)
    } else if str_eq(name, "loom") {
        Some(838)
    } else if str_eq(name, "magma_block") {
        Some(671)
    } else if str_eq(name, "melon") {
        Some(361)
    } else if str_eq(name, "milk_bucket") {
        Some(1046)
    } else if str_eq(name, "music_disc_bounce") {
        Some(1342)
    } else if str_eq(name, "name_tag") {
        Some(1292)
    } else if str_eq(name, "nether_portal") {
        Some(295)
    } else if str_eq(name, "note_block") {
        Some(109)
    } else if str_eq(name, "oak_log") {
        Some(49)
    } else if str_eq(name, "observer") {
        Some(676)
    } else if str_eq(name, "obsidian") {
        Some(193)
    } else if str_eq(name, "paper") {
        Some(1057)
    } else if str_eq(name, "piston") {
        Some(138)
    } else if str_eq(name, "potatoes") {
        Some(442)
    } else if str_eq(name, "potent_sulfur") {
        Some(999)
    } else if str_eq(name, "powered_rail") {
        Some(126)
    } else if str_eq(name, "redstone_block") {
        Some(475)
    } else if str_eq(name, "redstone_torch") {
        Some(273)
    } else if str_eq(name, "redstone_wire") {
        Some(202)
    } else if str_eq(name, "saddle") {
        Some(865)
    } else if str_eq(name, "sand") {
        Some(37)
    } else if str_eq(name, "shears") {
        Some(1134)
    } else if str_eq(name, "shield") {
        Some(1325)
    } else if str_eq(name, "smithing_table") {
        Some(846)
    } else if str_eq(name, "soul_sand") {
        Some(286)
    } else if str_eq(name, "stick") {
        Some(974)
    } else if str_eq(name, "sticky_piston") {
        Some(128)
    } else if str_eq(name, "stone") {
        Some(1)
    } else if str_eq(name, "stone_axe") {
        Some(952)
    } else if str_eq(name, "stone_sword") {
        Some(949)
    } else if str_eq(name, "stonecutter") {
        Some(847)
    } else if str_eq(name, "sugar_cane") {
        Some(282)
    } else if str_eq(name, "sulfur_block") {
        Some(998)
    } else if str_eq(name, "sulfur_cube_spawn_egg") {
        Some(1195)
    } else if str_eq(name, "sulfur_spike") {
        Some(1134)
    } else if str_eq(name, "tnt") {
        Some(177)
    } else if str_eq(name, "torch") {
        Some(194)
    } else if str_eq(name, "trident") {
        Some(1362)
    } else if str_eq(name, "water") {
        Some(35)
    } else if str_eq(name, "water_bucket") {
        Some(1041)
    } else if str_eq(name, "wheat") {
        Some(207)
    } else if str_eq(name, "wooden_axe") {
        Some(942)
    } else if str_eq(name, "wooden_sword") {
        Some(939)
    } else {
        None
    }
}

/// The block state for an item name (case-insensitive, `minecraft:` optional).
pub fn resolve_item(name: &str) -> (r: Option<BlockState>)
    ensures
        r == (match registered_id(normalized_name(name@)) {
            Some(id) => Some(BlockState::new_spec(id)),
            None => None,
        }),
        is_ascii_text(name@) ==> lowercase(name@) == ascii_lower_seq(name@),
{
    let n = normalize(name);
    match lookup_item_id(n.as_str()) {
        Some(id) => Some(BlockState::new(id)),
        None => None,
    }
}

/// The protocol id for an item name, or 0 when the name is unknown.
pub fn resolve_item_id(name: &str) -> (r: u32)
    ensures
        r == (match registered_id(normalized_name(name@)) {
            Some(id) => id,
            None => 0,
        }),
        is_ascii_text(name@) ==> lowercase(name@) == ascii_lower_seq(name@),
{
    let n = normalize(name);
    match lookup_item_id(n.as_str()) {
        Some(id) => id,
        None => 0,
    }
}

/// Number of registered names.
pub fn item_count() -> (r: usize)
    ensures
        r == ITEM_COUNT,
{
    ITEM_COUNT
}

/// All registered names in ascending order.
pub fn item_names() -> (r: Vec<&'static str>)
    ensures
        r@.len() == ITEM_COUNT,
        forall|i: int| 0 <= i < ITEM_COUNT ==> #[trigger] r@[i]@ == registered_name(i),
{
    let mut v: Vec<&'static str> = Vec::new();
    v.push("air");
    v.push("arrow");
    v.push("beacon");
    v.push("bedrock");
    v.push("beetroots");
    v.push("bookshelf");
    v.push("bow");
    v.push("bread");
    v.push("brewing_stand");
    v.push("bucket");
    v.push("bucket_of_sulfur_cube");
    v.push("cactus");
    v.push("carrots");
    v.push("cartography_table");
    v.push("chest");
    v.push("cinnabar_block");
    v.push("comparator");
    v.push("cooked_beef");
    v.push("crafter");
    v.push("crafting_table");
    v.push("crossbow");
    v.push("diamond_axe");
    v.push("diamond_pickaxe");
    v.push("diamond_sword");
    v.push("dispenser");
    v.push("enchanted_book");
    v.push("enchanted_golden_apple");
    v.push("enchanting_table");
    v.push("ender_pearl");
    v.push("fire");
    v.push("fishing_rod");
    v.push("furnace");
    v.push("glass");
    v.push("glass_pane");
    v.push("golden_apple");
    v.push("grass");
    v.push("gravel");
    v.push("grindstone");
    v.push("hopper");
    v.push("ice");
    v.push("iron_axe");
    v.push("iron_sword");
    v.push("jukebox");
    v.push("lapis_lazuli");
    v.push("lava");
    v.push("lava_bucket");
    v.push("lead");
    v.push("lectern");
    v.push("loom");
    v.push("magma_block");
    v.push("melon");
    v.push("milk_bucket");
    v.push("music_disc_bounce");
    v.push("name_tag");
    v.push("nether_portal");
    v.push("note_block");
    v.push("oak_log");
    v.push("observer");
    v.push("obsidian");
    v.push("paper");
    v.push("piston");
    v.push("potatoes");
    v.push("potent_sulfur");
    v.push("powered_rail");
    v.push("redstone_block");
    v.push("redstone_torch");
    v.push("redstone_wire");
    v.push("saddle");
    v.push("sand");
    v.push("shears");
    v.push("shield");
    v.push("smithing_table");
    v.push("soul_sand");
    v.push("stick");
    v.push("sticky_piston");
    v.push("stone");
    v.push("stone_axe");
    v.push("stone_sword");
    v.push("stonecutter");
    v.push("sugar_cane");
    v.push("sulfur_block");
    v.push("sulfur_cube_spawn_egg");
    v.push("sulfur_spike");
    v.push("tnt");
    v.push("torch");
    v.push("trident");
    v.push("water");
    v.push("water_bucket");
    v.push("wheat");
    v.push("wooden_axe");
    v.push("wooden_sword");
    v
}

/// Whether some name is registered with this id.
pub fn is_known_id(id: u32) -> (r: bool)
    ensures
        r == known_id(id),
{
    id == 0 || id == 1 || id == 8 || id == 34 || id == 35 || id == 36 || id == 37 || id == 40 || id == 49 || id == 101 || id == 105 || id == 109 || id == 126 || id == 128 || id == 138 || id == 177 || id == 178 || id == 193 || id == 194 || id == 196 || id == 201 || id == 202 || id == 206 || id == 207 || id == 209 || id == 273 || id == 277 || id == 279 || id == 282 || id == 283 || id == 286 || id == 295 || id == 361 || id == 385 || id == 386 || id == 408 || id == 436 || id == 441 || id == 442 || id == 473 || id == 475 || id == 477 || id == 665 || id == 671 || id == 676 || id == 838 || id == 842 || id == 844 || id == 845 || id == 846 || id == 847 || id == 865 || id == 922 || id == 923 || id == 928 || id == 939 || id == 942 || id == 949 || id == 952 || id == 959 || id == 962 || id == 964 || id == 966 || id == 967 || id == 974 || id == 981 || id == 998 || id == 999 || id == 1012 || id == 1014 || id == 1015 || id == 1040 || id == 1041 || id == 1042 || id == 1046 || id == 1052 || id == 1057 || id == 1082 || id == 1134 || id == 1140 || id == 1144 || id == 1184 || id == 1195 || id == 1274 || id == 1291 || id == 1292 || id == 1325 || id == 1342 || id == 1362 || id == 1370
}

/// The set of registered ids.
pub fn known_item_ids() -> (r: std::collections::HashSet<u32>)
    ensures
        forall|id: u32| r@.contains(id) <==> known_id(id),
{
    let mut s: std::collections::HashSet<u32> = std::collections::HashSet::new();
    s.insert(0);
    s.insert(1);
    s.insert(8);
    s.insert(34);
    s.insert(35);
    s.insert(36);
    s.insert(37);
    s.insert(40);
    s.insert(49);
    s.insert(101);
    s.insert(105);
    s.insert(109);
    s.insert(126);
    s.insert(128);
    s.insert(138);
    s.insert(177);
    s.insert(178);
    s.insert(193);
    s.insert(194);
    s.insert(196);
    s.insert(201);
    s.insert(202);
    s.insert(206);
    s.insert(207);
    s.insert(209);
    s.insert(273);
    s.insert(277);
    s.insert(279);
    s.insert(282);
    s.insert(283);
    s.insert(286);
    s.insert(295);
    s.insert(361);
    s.insert(385);
    s.insert(386);
    s.insert(408);
    s.insert(436);
    s.insert(441);
    s.insert(442);
    s.insert(473);
    s.insert(475);
    s.insert(477);
    s.insert(665);
    s.insert(671);
    s.insert(676);
    s.insert(838);
    s.insert(842);
    s.insert(844);
    s.insert(845);
    s.insert(846);
    s.insert(847);
    s.insert(865);
    s.insert(922);
    s.insert(923);
    s.insert(928);
    s.insert(939);
    s.insert(942);
    s.insert(949);
    s.insert(952);
    s.insert(959);
    s.insert(962);
    s.insert(964);
    s.insert(966);
    s.insert(967);
    s.insert(974);
    s.insert(981);
    s.insert(998);
    s.insert(999);
    s.insert(1012);
    s.insert(1014);
    s.insert(1015);
    s.insert(1040);
    s.insert(1041);
    s.insert(1042);
    s.insert(1046);
    s.insert(1052);
    s.insert(1057);
    s.insert(1082);
    s.insert(1134);
    s.insert(1140);
    s.insert(1144);
    s.insert(1184);
    s.insert(1195);
    s.insert(1274);
    s.insert(1291);
    s.insert(1292);
    s.insert(1325);
    s.insert(1342);
    s.insert(1362);
    s.insert(1370);
    s
}



/// Consecutive registered names are in ascending order.
proof fn lemma_names_ascending(k: int)
    requires
        0 <= k < ITEM_COUNT - 1,
    ensures
        lex_lt(registered_name(k), registered_name(k + 1)),
{
    reveal_with_fuel(lex_lt, 12);
    if k == 0 {
        reveal_strlit("air");
        reveal_strlit("arrow");
        assert(lex_lt("air"@, "arrow"@));
    } else if k == 1 {
        reveal_strlit("arrow");
        reveal_strlit("beacon");
        assert(lex_lt("arrow"@, "beacon"@));
    } else if k == 2 {
        reveal_strlit("beacon");
        reveal_strlit("bedrock");
        assert(lex_lt("beacon"@, "bedrock"@));
    } else if k == 3 {
        reveal_strlit("bedrock");
        reveal_strlit("beetroots");
        assert(lex_lt("bedrock"@, "beetroots"@));
    } else if k == 4 {
        reveal_strlit("beetroots");
        reveal_strlit("bookshelf");
        assert(lex_lt("beetroots"@, "bookshelf"@));
    } else if k == 5 {
        reveal_strlit("bookshelf");
        reveal_strlit("bow");
        assert(lex_lt("bookshelf"@, "bow"@));
    } else if k == 6 {
        reveal_strlit("bow");
        reveal_strlit("bread");
        assert(lex_lt("bow"@, "bread"@));
    } else if k == 7 {
        reveal_strlit("bread");
        reveal_strlit("brewing_stand");
        assert(lex_lt("bread"@, "brewing_stand"@));
    } else if k == 8 {
        reveal_strlit("brewing_stand");
        reveal_strlit("bucket");
        assert(lex_lt("brewing_stand"@, "bucket"@));
    } else if k == 9 {
        reveal_strlit("bucket");
        reveal_strlit("bucket_of_sulfur_cube");
        assert(lex_lt("bucket"@, "bucket_of_sulfur_cube"@));
    } else if k == 10 {
        reveal_strlit("bucket_of_sulfur_cube");
        reveal_strlit("cactus");
        assert(lex_lt("bucket_of_sulfur_cube"@, "cactus"@));
    } else if k == 11 {
        reveal_strlit("cactus");
        reveal_strlit("carrots");
        assert(lex_lt("cactus"@, "carrots"@));
    } else if k == 12 {
        reveal_strlit("carrots");
        reveal_strlit("cartography_table");
        assert(lex_lt("carrots"@, "cartography_table"@));
    } else if k == 13 {
        reveal_strlit("cartography_table");
        reveal_strlit("chest");
        assert(lex_lt("cartography_table"@, "chest"@));
    } else if k == 14 {
        reveal_strlit("chest");
        reveal_strlit("cinnabar_block");
        assert(lex_lt("chest"@, "cinnabar_block"@));
    } else if k == 15 {
        reveal_strlit("cinnabar_block");
        reveal_strlit("comparator");
        assert(lex_lt("cinnabar_block"@, "comparator"@));
    } else if k == 16 {
        reveal_strlit("comparator");
        reveal_strlit("cooked_beef");
        assert(lex_lt("comparator"@, "cooked_beef"@));
    } else if k == 17 {
        reveal_strlit("cooked_beef");
        reveal_strlit("crafter");
        assert(lex_lt("cooked_beef"@, "crafter"@));
    } else if k == 18 {
        reveal_strlit("crafter");
        reveal_strlit("crafting_table");
        assert(lex_lt("crafter"@, "crafting_table"@));
    } else if k == 19 {
        reveal_strlit("crafting_table");
        reveal_strlit("crossbow");
        assert(lex_lt("crafting_table"@, "crossbow"@));
    } else if k == 20 {
        reveal_strlit("crossbow");
        reveal_strlit("diamond_axe");
        assert(lex_lt("crossbow"@, "diamond_axe"@));
    } else if k == 21 {
        reveal_strlit("diamond_axe");
        reveal_strlit("diamond_pickaxe");
        assert(lex_lt("diamond_axe"@, "diamond_pickaxe"@));
    } else if k == 22 {
        reveal_strlit("diamond_pickaxe");
        reveal_strlit("diamond_sword");
        assert(lex_lt("diamond_pickaxe"@, "diamond_sword"@));
    } else if k == 23 {
        reveal_strlit("diamond_sword");
        reveal_strlit("dispenser");
        assert(lex_lt("diamond_sword"@, "dispenser"@));
    } else if k == 24 {
        reveal_strlit("dispenser");
        reveal_strlit("enchanted_book");
        assert(lex_lt("dispenser"@, "enchanted_book"@));
    } else if k == 25 {
        reveal_strlit("enchanted_book");
        reveal_strlit("enchanted_golden_apple");
        assert(lex_lt("enchanted_book"@, "enchanted_golden_apple"@));
    } else if k == 26 {
        reveal_strlit("enchanted_golden_apple");
        reveal_strlit("enchanting_table");
        assert(lex_lt("enchanted_golden_apple"@, "enchanting_table"@));
    } else if k == 27 {
        reveal_strlit("enchanting_table");
        reveal_strlit("ender_pearl");
        assert(lex_lt("enchanting_table"@, "ender_pearl"@));
    } else if k == 28 {
        reveal_strlit("ender_pearl");
        reveal_strlit("fire");
        assert(lex_lt("ender_pearl"@, "fire"@));
    } else if k == 29 {
        reveal_strlit("fire");
        reveal_strlit("fishing_rod");
        assert(lex_lt("fire"@, "fishing_rod"@));
    } else if k == 30 {
        reveal_strlit("fishing_rod");
        reveal_strlit("furnace");
        assert(lex_lt("fishing_rod"@, "furnace"@));
    } else if k == 31 {
        reveal_strlit("furnace");
        reveal_strlit("glass");
        assert(lex_lt("furnace"@, "glass"@));
    } else if k == 32 {
        reveal_strlit("glass");
        reveal_strlit("glass_pane");
        assert(lex_lt("glass"@, "glass_pane"@));
    } else if k == 33 {
        reveal_strlit("glass_pane");
        reveal_strlit("golden_apple");
        assert(lex_lt("glass_pane"@, "golden_apple"@));
    } else if k == 34 {
        reveal_strlit("golden_apple");
        reveal_strlit("grass");
        assert(lex_lt("golden_apple"@, "grass"@));
    } else if k == 35 {
        reveal_strlit("grass");
        reveal_strlit("gravel");
        assert(lex_lt("grass"@, "gravel"@));
    } else if k == 36 {
        reveal_strlit("gravel");
        reveal_strlit("grindstone");
        assert(lex_lt("gravel"@, "grindstone"@));
    } else if k == 37 {
        reveal_strlit("grindstone");
        reveal_strlit("hopper");
        assert(lex_lt("grindstone"@, "hopper"@));
    } else if k == 38 {
        reveal_strlit("hopper");
        reveal_strlit("ice");
        assert(lex_lt("hopper"@, "ice"@));
    } else if k == 39 {
        reveal_strlit("ice");
        reveal_strlit("iron_axe");
        assert(lex_lt("ice"@, "iron_axe"@));
    } else if k == 40 {
        reveal_strlit("iron_axe");
        reveal_strlit("iron_sword");
        assert(lex_lt("iron_axe"@, "iron_sword"@));
    } else if k == 41 {
        reveal_strlit("iron_sword");
        reveal_strlit("jukebox");
        assert(lex_lt("iron_sword"@, "jukebox"@));
    } else if k == 42 {
        reveal_strlit("jukebox");
        reveal_strlit("lapis_lazuli");
        assert(lex_lt("jukebox"@, "lapis_lazuli"@));
    } else if k == 43 {
        reveal_strlit("lapis_lazuli");
        reveal_strlit("lava");
        assert(lex_lt("lapis_lazuli"@, "lava"@));
    } else if k == 44 {
        reveal_strlit("lava");
        reveal_strlit("lava_bucket");
        assert(lex_lt("lava"@, "lava_bucket"@));
    } else if k == 45 {
        reveal_strlit("lava_bucket");
        reveal_strlit("lead");
        assert(lex_lt("lava_bucket"@, "lead"@));
    } else if k == 46 {
        reveal_strlit("lead");
        reveal_strlit("lectern");
        assert(lex_lt("lead"@, "lectern"@));
    } else if k == 47 {
        reveal_strlit("lectern");
        reveal_strlit("loom");
        assert(lex_lt("lectern"@, "loom"@));
    } else if k == 48 {
        reveal_strlit("loom");
        reveal_strlit("magma_block");
        assert(lex_lt("loom"@, "magma_block"@));
    } else if k == 49 {
        reveal_strlit("magma_block");
        reveal_strlit("melon");
        assert(lex_lt("magma_block"@, "melon"@));
    } else if k == 50 {
        reveal_strlit("melon");
        reveal_strlit("milk_bucket");
        assert(lex_lt("melon"@, "milk_bucket"@));
    } else if k == 51 {
        reveal_strlit("milk_bucket");
        reveal_strlit("music_disc_bounce");
        assert(lex_lt("milk_bucket"@, "music_disc_bounce"@));
    } else if k == 52 {
        reveal_strlit("music_disc_bounce");
        reveal_strlit("name_tag");
        assert(lex_lt("music_disc_bounce"@, "name_tag"@));
    } else if k == 53 {
        reveal_strlit("name_tag");
        reveal_strlit("nether_portal");
        assert(lex_lt("name_tag"@, "nether_portal"@));
    } else if k == 54 {
        reveal_strlit("nether_portal");
        reveal_strlit("note_block");
        assert(lex_lt("nether_portal"@, "note_block"@));
    } else if k == 55 {
        reveal_strlit("note_block");
        reveal_strlit("oak_log");
        assert(lex_lt("note_block"@, "oak_log"@));
    } else if k == 56 {
        reveal_strlit("oak_log");
        reveal_strlit("observer");
        assert(lex_lt("oak_log"@, "observer"@));
    } else if k == 57 {
        reveal_strlit("observer");
        reveal_strlit("obsidian");
        assert(lex_lt("observer"@, "obsidian"@));
    } else if k == 58 {
        reveal_strlit("obsidian");
        reveal_strlit("paper");
        assert(lex_lt("obsidian"@, "paper"@));
    } else if k == 59 {
        reveal_strlit("paper");
        reveal_strlit("piston");
        assert(lex_lt("paper"@, "piston"@));
    } else if k == 60 {
        reveal_strlit("piston");
        reveal_strlit("potatoes");
        assert(lex_lt("piston"@, "potatoes"@));
    } else if k == 61 {
        reveal_strlit("potatoes");
        reveal_strlit("potent_sulfur");
        assert(lex_lt("potatoes"@, "potent_sulfur"@));
    } else if k == 62 {
        reveal_strlit("potent_sulfur");
        reveal_strlit("powered_rail");
        assert(lex_lt("potent_sulfur"@, "powered_rail"@));
    } else if k == 63 {
        reveal_strlit("powered_rail");
        reveal_strlit("redstone_block");
        assert(lex_lt("powered_rail"@, "redstone_block"@));
    } else if k == 64 {
        reveal_strlit("redstone_block");
        reveal_strlit("redstone_torch");
        assert(lex_lt("redstone_block"@, "redstone_torch"@));
    } else if k == 65 {
        reveal_strlit("redstone_torch");
        reveal_strlit("redstone_wire");
        assert(lex_lt("redstone_torch"@, "redstone_wire"@));
    } else if k == 66 {
        reveal_strlit("redstone_wire");
        reveal_strlit("saddle");
        assert(lex_lt("redstone_wire"@, "saddle"@));
    } else if k == 67 {
        reveal_strlit("saddle");
        reveal_strlit("sand");
        assert(lex_lt("saddle"@, "sand"@));
    } else if k == 68 {
        reveal_strlit("sand");
        reveal_strlit("shears");
        assert(lex_lt("sand"@, "shears"@));
    } else if k == 69 {
        reveal_strlit("shears");
        reveal_strlit("shield");
        assert(lex_lt("shears"@, "shield"@));
    } else if k == 70 {
        reveal_strlit("shield");
        reveal_strlit("smithing_table");
        assert(lex_lt("shield"@, "smithing_table"@));
    } else if k == 71 {
        reveal_strlit("smithing_table");
        reveal_strlit("soul_sand");
        assert(lex_lt("smithing_table"@, "soul_sand"@));
    } else if k == 72 {
        reveal_strlit("soul_sand");
        reveal_strlit("stick");
        assert(lex_lt("soul_sand"@, "stick"@));
    } else if k == 73 {
        reveal_strlit("stick");
        reveal_strlit("sticky_piston");
        assert(lex_lt("stick"@, "sticky_piston"@));
    } else if k == 74 {
        reveal_strlit("sticky_piston");
        reveal_strlit("stone");
        assert(lex_lt("sticky_piston"@, "stone"@));
    } else if k == 75 {
        reveal_strlit("stone");
        reveal_strlit("stone_axe");
        assert(lex_lt("stone"@, "stone_axe"@));
    } else if k == 76 {
        reveal_strlit("stone_axe");
        reveal_strlit("stone_sword");
        assert(lex_lt("stone_axe"@, "stone_sword"@));
    } else if k == 77 {
        reveal_strlit("stone_sword");
        reveal_strlit("stonecutter");
        assert(lex_lt("stone_sword"@, "stonecutter"@));
    } else if k == 78 {
        reveal_strlit("stonecutter");
        reveal_strlit("sugar_cane");
        assert(lex_lt("stonecutter"@, "sugar_cane"@));
    } else if k == 79 {
        reveal_strlit("sugar_cane");
        reveal_strlit("sulfur_block");
        assert(lex_lt("sugar_cane"@, "sulfur_block"@));
    } else if k == 80 {
        reveal_strlit("sulfur_block");
        reveal_strlit("sulfur_cube_spawn_egg");
        assert(lex_lt("sulfur_block"@, "sulfur_cube_spawn_egg"@));
    } else if k == 81 {
        reveal_strlit("sulfur_cube_spawn_egg");
        reveal_strlit("sulfur_spike");
        assert(lex_lt("sulfur_cube_spawn_egg"@, "sulfur_spike"@));
    } else if k == 82 {
        reveal_strlit("sulfur_spike");
        reveal_strlit("tnt");
        assert(lex_lt("sulfur_spike"@, "tnt"@));
    } else if k == 83 {
        reveal_strlit("tnt");
        reveal_strlit("torch");
        assert(lex_lt("tnt"@, "torch"@));
    } else if k == 84 {
        reveal_strlit("torch");
        reveal_strlit("trident");
        assert(lex_lt("torch"@, "trident"@));
    } else if k == 85 {
        reveal_strlit("trident");
        reveal_strlit("water");
        assert(lex_lt("trident"@, "water"@));
    } else if k == 86 {
        reveal_strlit("water");
        reveal_strlit("water_bucket");
        assert(lex_lt("water"@, "water_bucket"@));
    } else if k == 87 {
        reveal_strlit("water_bucket");
        reveal_strlit("wheat");
        assert(lex_lt("water_bucket"@, "wheat"@));
    } else if k == 88 {
        reveal_strlit("wheat");
        reveal_strlit("wooden_axe");
        assert(lex_lt("wheat"@, "wooden_axe"@));
    } else if k == 89 {
        reveal_strlit("wooden_axe");
        reveal_strlit("wooden_sword");
        assert(lex_lt("wooden_axe"@, "wooden_sword"@));
    }
}

/// The registered names are in ascending order, so no name is there twice.
pub proof fn registered_names_ascending(i: int, j: int)
    requires
        0 <= i < j < ITEM_COUNT,
    ensures
        lex_lt(registered_name(i), registered_name(j)),
    decreases j - i,
{
    lemma_names_ascending(j - 1);
    if i < j - 1 {
        registered_names_ascending(i, j - 1);
        lemma_lex_transitive(registered_name(i), registered_name(j - 1), registered_name(j));
    }
}


proof fn lemma_name_table()
    ensures
        registered_name(0) == "air"@,
        registered_name(1) == "arrow"@,
        registered_name(2) == "beacon"@,
        registered_name(3) == "bedrock"@,
        registered_name(4) == "beetroots"@,
        registered_name(5) == "bookshelf"@,
        registered_name(6) == "bow"@,
        registered_name(7) == "bread"@,
        registered_name(8) == "brewing_stand"@,
        registered_name(9) == "bucket"@,
        registered_name(10) == "bucket_of_sulfur_cube"@,
        registered_name(11) == "cactus"@,
        registered_name(12) == "carrots"@,
        registered_name(13) == "cartography_table"@,
        registered_name(14) == "chest"@,
        registered_name(15) == "cinnabar_block"@,
        registered_name(16) == "comparator"@,
        registered_name(17) == "cooked_beef"@,
        registered_name(18) == "crafter"@,
        registered_name(19) == "crafting_table"@,
        registered_name(20) == "crossbow"@,
        registered_name(21) == "diamond_axe"@,
        registered_name(22) == "diamond_pickaxe"@,
        registered_name(23) == "diamond_sword"@,
        registered_name(24) == "dispenser"@,
        registered_name(25) == "enchanted_book"@,
        registered_name(26) == "enchanted_golden_apple"@,
        registered_name(27) == "enchanting_table"@,
        registered_name(28) == "ender_pearl"@,
        registered_name(29) == "fire"@,
        registered_name(30) == "fishing_rod"@,
        registered_name(31) == "furnace"@,
        registered_name(32) == "glass"@,
        registered_name(33) == "glass_pane"@,
        registered_name(34) == "golden_apple"@,
        registered_name(35) == "grass"@,
        registered_name(36) == "gravel"@,
        registered_name(37) == "grindstone"@,
        registered_name(38) == "hopper"@,
        registered_name(39) == "ice"@,
        registered_name(40) == "iron_axe"@,
        registered_name(41) == "iron_sword"@,
        registered_name(42) == "jukebox"@,
        registered_name(43) == "lapis_lazuli"@,
        registered_name(44) == "lava"@,
        registered_name(45) == "lava_bucket"@,
        registered_name(46) == "lead"@,
        registered_name(47) == "lectern"@,
        registered_name(48) == "loom"@,
        registered_name(49) == "magma_block"@,
        registered_name(50) == "melon"@,
        registered_name(51) == "milk_bucket"@,
        registered_name(52) == "music_disc_bounce"@,
        registered_name(53) == "name_tag"@,
        registered_name(54) == "nether_portal"@,
        registered_name(55) == "note_block"@,
        registered_name(56) == "oak_log"@,
        registered_name(57) == "observer"@,
        registered_name(58) == "obsidian"@,
        registered_name(59) == "paper"@,
        registered_name(60) == "piston"@,
        registered_name(61) == "potatoes"@,
        registered_name(62) == "potent_sulfur"@,
        registered_name(63) == "powered_rail"@,
        registered_name(64) == "redstone_block"@,
        registered_name(65) == "redstone_torch"@,
        registered_name(66) == "redstone_wire"@,
        registered_name(67) == "saddle"@,
        registered_name(68) == "sand"@,
        registered_name(69) == "shears"@,
        registered_name(70) == "shield"@,
        registered_name(71) == "smithing_table"@,
        registered_name(72) == "soul_sand"@,
        registered_name(73) == "stick"@,
        registered_name(74) == "sticky_piston"@,
        registered_name(75) == "stone"@,
        registered_name(76) == "stone_axe"@,
        registered_name(77) == "stone_sword"@,
        registered_name(78) == "stonecutter"@,
        registered_name(79) == "sugar_cane"@,
        registered_name(80) == "sulfur_block"@,
        registered_name(81) == "sulfur_cube_spawn_egg"@,
        registered_name(82) == "sulfur_spike"@,
        registered_name(83) == "tnt"@,
        registered_name(84) == "torch"@,
        registered_name(85) == "trident"@,
        registered_name(86) == "water"@,
        registered_name(87) == "water_bucket"@,
        registered_name(88) == "wheat"@,
        registered_name(89) == "wooden_axe"@,
        registered_name(90) == "wooden_sword"@,
{
}

/// Every registered name is registered.
pub proof fn registered_names_resolve(k: int)
    requires
        0 <= k < ITEM_COUNT,
    ensures
        registered_id(registered_name(k)) is Some,
{
    assert forall|j: int| 0 <= j < k implies #[trigger] registered_name(j) != registered_name(k) by {
        registered_names_ascending(j, k);
        lemma_lex_irreflexive(registered_name(k));
    }
    lemma_name_table();
}


/// A name made of lower-case ASCII letters and `_` only.
pub open spec fn plain_name(s: Seq<char>) -> bool {
    forall|i: int| 0 <= i < s.len() ==> ('a' <= #[trigger] s[i] <= 'z' || s[i] == '_')
}

proof fn lemma_plain_name(s: Seq<char>)
    requires
        plain_name(s),
        s.len() > 0,
        !(s.len() >= 3 && s[0] == 'm' && s[1] == 'i' && s[2] == 'n'),
    ensures
        is_ascii_text(s),
        ascii_lower_seq(s) == s,
        !has_prefix(s, "minecraft:"@),
{
    reveal_strlit("minecraft:");
    assert(ascii_lower_seq(s) =~= s);
    if has_prefix(s, "minecraft:"@) {
        assert(s.subrange(0, 10)[0] == 'm' && s.subrange(0, 10)[1] == 'i' && s.subrange(0, 10)[2] == 'n');
    }
}

proof fn lemma_plain_names_0(k: int)
    requires
        0 <= k < 10,
    ensures
        is_ascii_text(registered_name(k)),
        ascii_lower_seq(registered_name(k)) == registered_name(k),
        !has_prefix(registered_name(k), "minecraft:"@),
{
    if k == 0 {
        assert(registered_name(k) == registered_name(0));
        assert(plain_name("air"@)) by {
            reveal_strlit("air");
        }
        assert("air"@.len() > 0 && !("air"@.len() >= 3 && "air"@[0] == 'm' && "air"@[1] == 'i' && "air"@[2] == 'n')) by {
            reveal_strlit("air");
        }
        lemma_plain_name("air"@);
    } else if k == 1 {
        assert(registered_name(k) == registered_name(1));
        assert(plain_name("arrow"@)) by {
            reveal_strlit("arrow");
        }
        assert("arrow"@.len() > 0 && !("arrow"@.len() >= 3 && "arrow"@[0] == 'm' && "arrow"@[1] == 'i' && "arrow"@[2] == 'n')) by {
            reveal_strlit("arrow");
        }
        lemma_plain_name("arrow"@);
    } else if k == 2 {
        assert(registered_name(k) == registered_name(2));
        assert(plain_name("beacon"@)) by {
            reveal_strlit("beacon");
        }
        assert("beacon"@.len() > 0 && !("beacon"@.len() >= 3 && "beacon"@[0] == 'm' && "beacon"@[1] == 'i' && "beacon"@[2] == 'n')) by {
            reveal_strlit("beacon");
        }
        lemma_plain_name("beacon"@);
    } else if k == 3 {
        assert(registered_name(k) == registered_name(3));
        assert(plain_name("bedrock"@)) by {
            reveal_strlit("bedrock");
        }
        assert("bedrock"@.len() > 0 && !("bedrock"@.len() >= 3 && "bedrock"@[0] == 'm' && "bedrock"@[1] == 'i' && "bedrock"@[2] == 'n')) by {
            reveal_strlit("bedrock");
        }
        lemma_plain_name("bedrock"@);
    } else if k == 4 {
        assert(registered_name(k) == registered_name(4));
        assert(plain_name("beetroots"@)) by {
            reveal_strlit("beetroots");
        }
        assert("beetroots"@.len() > 0 && !("beetroots"@.len() >= 3 && "beetroots"@[0] == 'm' && "beetroots"@[1] == 'i' && "beetroots"@[2] == 'n')) by {
            reveal_strlit("beetroots");
        }
        lemma_plain_name("beetroots"@);
    } else if k == 5 {
        assert(registered_name(k) == registered_name(5));
        assert(plain_name("bookshelf"@)) by {
            reveal_strlit("bookshelf");
        }
        assert("bookshelf"@.len() > 0 && !("bookshelf"@.len() >= 3 && "bookshelf"@[0] == 'm' && "bookshelf"@[1] == 'i' && "bookshelf"@[2] == 'n')) by {
            reveal_strlit("bookshelf");
        }
        lemma_plain_name("bookshelf"@);
    } else if k == 6 {
        assert(registered_name(k) == registered_name(6));
        assert(plain_name("bow"@)) by {
            reveal_strlit("bow");
        }
        assert("bow"@.len() > 0 && !("bow"@.len() >= 3 && "bow"@[0] == 'm' && "bow"@[1] == 'i' && "bow"@[2] == 'n')) by {
            reveal_strlit("bow");
        }
        lemma_plain_name("bow"@);
    } else if k == 7 {
        assert(registered_name(k) == registered_name(7));
        assert(plain_name("bread"@)) by {
            reveal_strlit("bread");
        }
        assert("bread"@.len() > 0 && !("bread"@.len() >= 3 && "bread"@[0] == 'm' && "bread"@[1] == 'i' && "bread"@[2] == 'n')) by {
            reveal_strlit("bread");
        }
        lemma_plain_name("bread"@);
    } else if k == 8 {
        assert(registered_name(k) == registered_name(8));
        assert(plain_name("brewing_stand"@)) by {
            reveal_strlit("brewing_stand");
        }
        assert("brewing_stand"@.len() > 0 && !("brewing_stand"@.len() >= 3 && "brewing_stand"@[0] == 'm' && "brewing_stand"@[1] == 'i' && "brewing_stand"@[2] == 'n')) by {
            reveal_strlit("brewing_stand");
        }
        lemma_plain_name("brewing_stand"@);
    } else if k == 9 {
        assert(registered_name(k) == registered_name(9));
        assert(plain_name("bucket"@)) by {
            reveal_strlit("bucket");
        }
        assert("bucket"@.len() > 0 && !("bucket"@.len() >= 3 && "bucket"@[0] == 'm' && "bucket"@[1] == 'i' && "bucket"@[2] == 'n')) by {
            reveal_strlit("bucket");
        }
        lemma_plain_name("bucket"@);
    }
}

proof fn lemma_plain_names_1(k: int)
    requires
        10 <= k < 20,
    ensures
        is_ascii_text(registered_name(k)),
        ascii_lower_seq(registered_name(k)) == registered_name(k),
        !has_prefix(registered_name(k), "minecraft:"@),
{
    if k == 10 {
        assert(registered_name(k) == registered_name(10));
        assert(plain_name("bucket_of_sulfur_cube"@)) by {
            reveal_strlit("bucket_of_sulfur_cube");
        }
        assert("bucket_of_sulfur_cube"@.len() > 0 && !("bucket_of_sulfur_cube"@.len() >= 3 && "bucket_of_sulfur_cube"@[0] == 'm' && "bucket_of_sulfur_cube"@[1] == 'i' && "bucket_of_sulfur_cube"@[2] == 'n')) by {
            reveal_strlit("bucket_of_sulfur_cube");
        }
        lemma_plain_name("bucket_of_sulfur_cube"@);
    } else if k == 11 {
        assert(registered_name(k) == registered_name(11));
        assert(plain_name("cactus"@)) by {
            reveal_strlit("cactus");
        }
        assert("cactus"@.len() > 0 && !("cactus"@.len() >= 3 && "cactus"@[0] == 'm' && "cactus"@[1] == 'i' && "cactus"@[2] == 'n')) by {
            reveal_strlit("cactus");
        }
        lemma_plain_name("cactus"@);
    } else if k == 12 {
        assert(registered_name(k) == registered_name(12));
        assert(plain_name("carrots"@)) by {
            reveal_strlit("carrots");
        }
        assert("carrots"@.len() > 0 && !("carrots"@.len() >= 3 && "carrots"@[0] == 'm' && "carrots"@[1] == 'i' && "carrots"@[2] == 'n')) by {
            reveal_strlit("carrots");
        }
        lemma_plain_name("carrots"@);
    } else if k == 13 {
        assert(registered_name(k) == registered_name(13));
        assert(plain_name("cartography_table"@)) by {
            reveal_strlit("cartography_table");
        }
        assert("cartography_table"@.len() > 0 && !("cartography_table"@.len() >= 3 && "cartography_table"@[0] == 'm' && "cartography_table"@[1] == 'i' && "cartography_table"@[2] == 'n')) by {
            reveal_strlit("cartography_table");
        }
        lemma_plain_name("cartography_table"@);
    } else if k == 14 {
        assert(registered_name(k) == registered_name(14));
        assert(plain_name("chest"@)) by {
            reveal_strlit("chest");
        }
        assert("chest"@.len() > 0 && !("chest"@.len() >= 3 && "chest"@[0] == 'm' && "chest"@[1] == 'i' && "chest"@[2] == 'n')) by {
            reveal_strlit("chest");
        }
        lemma_plain_name("chest"@);
    } else if k == 15 {
        assert(registered_name(k) == registered_name(15));
        assert(plain_name("cinnabar_block"@)) by {
            reveal_strlit("cinnabar_block");
        }
        assert("cinnabar_block"@.len() > 0 && !("cinnabar_block"@.len() >= 3 && "cinnabar_block"@[0] == 'm' && "cinnabar_block"@[1] == 'i' && "cinnabar_block"@[2] == 'n')) by {
            reveal_strlit("cinnabar_block");
        }
        lemma_plain_name("cinnabar_block"@);
    } else if k == 16 {
        assert(registered_name(k) == registered_name(16));
        assert(plain_name("comparator"@)) by {
            reveal_strlit("comparator");
        }
        assert("comparator"@.len() > 0 && !("comparator"@.len() >= 3 && "comparator"@[0] == 'm' && "comparator"@[1] == 'i' && "comparator"@[2] == 'n')) by {
            reveal_strlit("comparator");
        }
        lemma_plain_name("comparator"@);
    } else if k == 17 {
        assert(registered_name(k) == registered_name(17));
        assert(plain_name("cooked_beef"@)) by {
            reveal_strlit("cooked_beef");
        }
        assert("cooked_beef"@.len() > 0 && !("cooked_beef"@.len() >= 3 && "cooked_beef"@[0] == 'm' && "cooked_beef"@[1] == 'i' && "cooked_beef"@[2] == 'n')) by {
            reveal_strlit("cooked_beef");
        }
        lemma_plain_name("cooked_beef"@);
    } else if k == 18 {
        assert(registered_name(k) == registered_name(18));
        assert(plain_name("crafter"@)) by {
            reveal_strlit("crafter");
        }
        assert("crafter"@.len() > 0 && !("crafter"@.len() >= 3 && "crafter"@[0] == 'm' && "crafter"@[1] == 'i' && "crafter"@[2] == 'n')) by {
            reveal_strlit("crafter");
        }
        lemma_plain_name("crafter"@);
    } else if k == 19 {
        assert(registered_name(k) == registered_name(19));
        assert(plain_name("crafting_table"@)) by {
            reveal_strlit("crafting_table");
        }
        assert("crafting_table"@.len() > 0 && !("crafting_table"@.len() >= 3 && "crafting_table"@[0] == 'm' && "crafting_table"@[1] == 'i' && "crafting_table"@[2] == 'n')) by {
            reveal_strlit("crafting_table");
        }
        lemma_plain_name("crafting_table"@);
    }
}

proof fn lemma_plain_names_2(k: int)
    requires
        20 <= k < 30,
    ensures
        is_ascii_text(registered_name(k)),
        ascii_lower_seq(registered_name(k)) == registered_name(k),
        !has_prefix(registered_name(k), "minecraft:"@),
{
    if k == 20 {
        assert(registered_name(k) == registered_name(20));
        assert(plain_name("crossbow"@)) by {
            reveal_strlit("crossbow");
        }
        assert("crossbow"@.len() > 0 && !("crossbow"@.len() >= 3 && "crossbow"@[0] == 'm' && "crossbow"@[1] == 'i' && "crossbow"@[2] == 'n')) by {
            reveal_strlit("crossbow");
        }
        lemma_plain_name("crossbow"@);
    } else if k == 21 {
        assert(registered_name(k) == registered_name(21));
        assert(plain_name("diamond_axe"@)) by {
            reveal_strlit("diamond_axe");
        }
        assert("diamond_axe"@.len() > 0 && !("diamond_axe"@.len() >= 3 && "diamond_axe"@[0] == 'm' && "diamond_axe"@[1] == 'i' && "diamond_axe"@[2] == 'n')) by {
            reveal_strlit("diamond_axe");
        }
        lemma_plain_name("diamond_axe"@);
    } else if k == 22 {
        assert(registered_name(k) == registered_name(22));
        assert(plain_name("diamond_pickaxe"@)) by {
            reveal_strlit("diamond_pickaxe");
        }
        assert("diamond_pickaxe"@.len() > 0 && !("diamond_pickaxe"@.len() >= 3 && "diamond_pickaxe"@[0] == 'm' && "diamond_pickaxe"@[1] == 'i' && "diamond_pickaxe"@[2] == 'n')) by {
            reveal_strlit("diamond_pickaxe");
        }
        lemma_plain_name("diamond_pickaxe"@);
    } else if k == 23 {
        assert(registered_name(k) == registered_name(23));
        assert(plain_name("diamond_sword"@)) by {
            reveal_strlit("diamond_sword");
        }
        assert("diamond_sword"@.len() > 0 && !("diamond_sword"@.len() >= 3 && "diamond_sword"@[0] == 'm' && "diamond_sword"@[1] == 'i' && "diamond_sword"@[2] == 'n')) by {
            reveal_strlit("diamond_sword");
        }
        lemma_plain_name("diamond_sword"@);
    } else if k == 24 {
        assert(registered_name(k) == registered_name(24));
        assert(plain_name("dispenser"@)) by {
            reveal_strlit("dispenser");
        }
        assert("dispenser"@.len() > 0 && !("dispenser"@.len() >= 3 && "dispenser"@[0] == 'm' && "dispenser"@[1] == 'i' && "dispenser"@[2] == 'n')) by {
            reveal_strlit("dispenser");
        }
        lemma_plain_name("dispenser"@);
    } else if k == 25 {
        assert(registered_name(k) == registered_name(25));
        assert(plain_name("enchanted_book"@)) by {
            reveal_strlit("enchanted_book");
        }
        assert("enchanted_book"@.len() > 0 && !("enchanted_book"@.len() >= 3 && "enchanted_book"@[0] == 'm' && "enchanted_book"@[1] == 'i' && "enchanted_book"@[2] == 'n')) by {
            reveal_strlit("enchanted_book");
        }
        lemma_plain_name("enchanted_book"@);
    } else if k == 26 {
        assert(registered_name(k) == registered_name(26));
        assert(plain_name("enchanted_golden_apple"@)) by {
            reveal_strlit("enchanted_golden_apple");
        }
        assert("enchanted_golden_apple"@.len() > 0 && !("enchanted_golden_apple"@.len() >= 3 && "enchanted_golden_apple"@[0] == 'm' && "enchanted_golden_apple"@[1] == 'i' && "enchanted_golden_apple"@[2] == 'n')) by {
            reveal_strlit("enchanted_golden_apple");
        }
        lemma_plain_name("enchanted_golden_apple"@);
    } else if k == 27 {
        assert(registered_name(k) == registered_name(27));
        assert(plain_name("enchanting_table"@)) by {
            reveal_strlit("enchanting_table");
        }
        assert("enchanting_table"@.len() > 0 && !("enchanting_table"@.len() >= 3 && "enchanting_table"@[0] == 'm' && "enchanting_table"@[1] == 'i' && "enchanting_table"@[2] == 'n')) by {
            reveal_strlit("enchanting_table");
        }
        lemma_plain_name("enchanting_table"@);
    } else if k == 28 {
        assert(registered_name(k) == registered_name(28));
        assert(plain_name("ender_pearl"@)) by {
            reveal_strlit("ender_pearl");
        }
        assert("ender_pearl"@.len() > 0 && !("ender_pearl"@.len() >= 3 && "ender_pearl"@[0] == 'm' && "ender_pearl"@[1] == 'i' && "ender_pearl"@[2] == 'n')) by {
            reveal_strlit("ender_pearl");
        }
        lemma_plain_name("ender_pearl"@);
    } else if k == 29 {
        assert(registered_name(k) == registered_name(29));
        assert(plain_name("fire"@)) by {
            reveal_strlit("fire");
        }
        assert("fire"@.len() > 0 && !("fire"@.len() >= 3 && "fire"@[0] == 'm' && "fire"@[1] == 'i' && "fire"@[2] == 'n')) by {
            reveal_strlit("fire");
        }
        lemma_plain_name("fire"@);
    }
}

proof fn lemma_plain_names_3(k: int)
    requires
        30 <= k < 40,
    ensures
        is_ascii_text(registered_name(k)),
        ascii_lower_seq(registered_name(k)) == registered_name(k),
        !has_prefix(registered_name(k), "minecraft:"@),
{
    if k == 30 {
        assert(registered_name(k) == registered_name(30));
        assert(plain_name("fishing_rod"@)) by {
            reveal_strlit("fishing_rod");
        }
        assert("fishing_rod"@.len() > 0 && !("fishing_rod"@.len() >= 3 && "fishing_rod"@[0] == 'm' && "fishing_rod"@[1] == 'i' && "fishing_rod"@[2] == 'n')) by {
            reveal_strlit("fishing_rod");
        }
        lemma_plain_name("fishing_rod"@);
    } else if k == 31 {
        assert(registered_name(k) == registered_name(31));
        assert(plain_name("furnace"@)) by {
            reveal_strlit("furnace");
        }
        assert("furnace"@.len() > 0 && !("furnace"@.len() >= 3 && "furnace"@[0] == 'm' && "furnace"@[1] == 'i' && "furnace"@[2] == 'n')) by {
            reveal_strlit("furnace");
        }
        lemma_plain_name("furnace"@);
    } else if k == 32 {
        assert(registered_name(k) == registered_name(32));
        assert(plain_name("glass"@)) by {
            reveal_strlit("glass");
        }
        assert("glass"@.len() > 0 && !("glass"@.len() >= 3 && "glass"@[0] == 'm' && "glass"@[1] == 'i' && "glass"@[2] == 'n')) by {
            reveal_strlit("glass");
        }
        lemma_plain_name("glass"@);
    } else if k == 33 {
        assert(registered_name(k) == registered_name(33));
        assert(plain_name("glass_pane"@)) by {
            reveal_strlit("glass_pane");
        }
        assert("glass_pane"@.len() > 0 && !("glass_pane"@.len() >= 3 && "glass_pane"@[0] == 'm' && "glass_pane"@[1] == 'i' && "glass_pane"@[2] == 'n')) by {
            reveal_strlit("glass_pane");
        }
        lemma_plain_name("glass_pane"@);
    } else if k == 34 {
        assert(registered_name(k) == registered_name(34));
        assert(plain_name("golden_apple"@)) by {
            reveal_strlit("golden_apple");
        }
        assert("golden_apple"@.len() > 0 && !("golden_apple"@.len() >= 3 && "golden_apple"@[0] == 'm' && "golden_apple"@[1] == 'i' && "golden_apple"@[2] == 'n')) by {
            reveal_strlit("golden_apple");
        }
        lemma_plain_name("golden_apple"@);
    } else if k == 35 {
        assert(registered_name(k) == registered_name(35));
        assert(plain_name("grass"@)) by {
            reveal_strlit("grass");
        }
        assert("grass"@.len() > 0 && !("grass"@.len() >= 3 && "grass"@[0] == 'm' && "grass"@[1] == 'i' && "grass"@[2] == 'n')) by {
            reveal_strlit("grass");
        }
        lemma_plain_name("grass"@);
    } else if k == 36 {
        assert(registered_name(k) == registered_name(36));
        assert(plain_name("gravel"@)) by {
            reveal_strlit("gravel");
        }
        assert("gravel"@.len() > 0 && !("gravel"@.len() >= 3 && "gravel"@[0] == 'm' && "gravel"@[1] == 'i' && "gravel"@[2] == 'n')) by {
            reveal_strlit("gravel");
        }
        lemma_plain_name("gravel"@);
    } else if k == 37 {
        assert(registered_name(k) == registered_name(37));
        assert(plain_name("grindstone"@)) by {
            reveal_strlit("grindstone");
        }
        assert("grindstone"@.len() > 0 && !("grindstone"@.len() >= 3 && "grindstone"@[0] == 'm' && "grindstone"@[1] == 'i' && "grindstone"@[2] == 'n')) by {
            reveal_strlit("grindstone");
        }
        lemma_plain_name("grindstone"@);
    } else if k == 38 {
        assert(registered_name(k) == registered_name(38));
        assert(plain_name("hopper"@)) by {
            reveal_strlit("hopper");
        }
        assert("hopper"@.len() > 0 && !("hopper"@.len() >= 3 && "hopper"@[0] == 'm' && "hopper"@[1] == 'i' && "hopper"@[2] == 'n')) by {
            reveal_strlit("hopper");
        }
        lemma_plain_name("hopper"@);
    } else if k == 39 {
        assert(registered_name(k) == registered_name(39));
        assert(plain_name("ice"@)) by {
            reveal_strlit("ice");
        }
        assert("ice"@.len() > 0 && !("ice"@.len() >= 3 && "ice"@[0] == 'm' && "ice"@[1] == 'i' && "ice"@[2] == 'n')) by {
            reveal_strlit("ice");
        }
        lemma_plain_name("ice"@);
    }
}

proof fn lemma_plain_names_4(k: int)
    requires
        40 <= k < 50,
    ensures
        is_ascii_text(registered_name(k)),
        ascii_lower_seq(registered_name(k)) == registered_name(k),
        !has_prefix(registered_name(k), "minecraft:"@),
{
    if k == 40 {
        assert(registered_name(k) == registered_name(40));
        assert(plain_name("iron_axe"@)) by {
            reveal_strlit("iron_axe");
        }
        assert("iron_axe"@.len() > 0 && !("iron_axe"@.len() >= 3 && "iron_axe"@[0] == 'm' && "iron_axe"@[1] == 'i' && "iron_axe"@[2] == 'n')) by {
            reveal_strlit("iron_axe");
        }
        lemma_plain_name("iron_axe"@);
    } else if k == 41 {
        assert(registered_name(k) == registered_name(41));
        assert(plain_name("iron_sword"@)) by {
            reveal_strlit("iron_sword");
        }
        assert("iron_sword"@.len() > 0 && !("iron_sword"@.len() >= 3 && "iron_sword"@[0] == 'm' && "iron_sword"@[1] == 'i' && "iron_sword"@[2] == 'n')) by {
            reveal_strlit("iron_sword");
        }
        lemma_plain_name("iron_sword"@);
    } else if k == 42 {
        assert(registered_name(k) == registered_name(42));
        assert(plain_name("jukebox"@)) by {
            reveal_strlit("jukebox");
        }
        assert("jukebox"@.len() > 0 && !("jukebox"@.len() >= 3 && "jukebox"@[0] == 'm' && "jukebox"@[1] == 'i' && "jukebox"@[2] == 'n')) by {
            reveal_strlit("jukebox");
        }
        lemma_plain_name("jukebox"@);
    } else if k == 43 {
        assert(registered_name(k) == registered_name(43));
        assert(plain_name("lapis_lazuli"@)) by {
            reveal_strlit("lapis_lazuli");
        }
        assert("lapis_lazuli"@.len() > 0 && !("lapis_lazuli"@.len() >= 3 && "lapis_lazuli"@[0] == 'm' && "lapis_lazuli"@[1] == 'i' && "lapis_lazuli"@[2] == 'n')) by {
            reveal_strlit("lapis_lazuli");
        }
        lemma_plain_name("lapis_lazuli"@);
    } else if k == 44 {
        assert(registered_name(k) == registered_name(44));
        assert(plain_name("lava"@)) by {
            reveal_strlit("lava");
        }
        assert("lava"@.len() > 0 && !("lava"@.len() >= 3 && "lava"@[0] == 'm' && "lava"@[1] == 'i' && "lava"@[2] == 'n')) by {
            reveal_strlit("lava");
        }
        lemma_plain_name("lava"@);
    } else if k == 45 {
        assert(registered_name(k) == registered_name(45));
        assert(plain_name("lava_bucket"@)) by {
            reveal_strlit("lava_bucket");
        }
        assert("lava_bucket"@.len() > 0 && !("lava_bucket"@.len() >= 3 && "lava_bucket"@[0] == 'm' && "lava_bucket"@[1] == 'i' && "lava_bucket"@[2] == 'n')) by {
            reveal_strlit("lava_bucket");
        }
        lemma_plain_name("lava_bucket"@);
    } else if k == 46 {
        assert(registered_name(k) == registered_name(46));
        assert(plain_name("lead"@)) by {
            reveal_strlit("lead");
        }
        assert("lead"@.len() > 0 && !("lead"@.len() >= 3 && "lead"@[0] == 'm' && "lead"@[1] == 'i' && "lead"@[2] == 'n')) by {
            reveal_strlit("lead");
        }
        lemma_plain_name("lead"@);
    } else if k == 47 {
        assert(registered_name(k) == registered_name(47));
        assert(plain_name("lectern"@)) by {
            reveal_strlit("lectern");
        }
        assert("lectern"@.len() > 0 && !("lectern"@.len() >= 3 && "lectern"@[0] == 'm' && "lectern"@[1] == 'i' && "lectern"@[2] == 'n')) by {
            reveal_strlit("lectern");
        }
        lemma_plain_name("lectern"@);
    } else if k == 48 {
        assert(registered_name(k) == registered_name(48));
        assert(plain_name("loom"@)) by {
            reveal_strlit("loom");
        }
        assert("loom"@.len() > 0 && !("loom"@.len() >= 3 && "loom"@[0] == 'm' && "loom"@[1] == 'i' && "loom"@[2] == 'n')) by {
            reveal_strlit("loom");
        }
        lemma_plain_name("loom"@);
    } else if k == 49 {
        assert(registered_name(k) == registered_name(49));
        assert(plain_name("magma_block"@)) by {
            reveal_strlit("magma_block");
        }
        assert("magma_block"@.len() > 0 && !("magma_block"@.len() >= 3 && "magma_block"@[0] == 'm' && "magma_block"@[1] == 'i' && "magma_block"@[2] == 'n')) by {
            reveal_strlit("magma_block");
        }
        lemma_plain_name("magma_block"@);
    }
}

proof fn lemma_plain_names_5(k: int)
    requires
        50 <= k < 60,
    ensures
        is_ascii_text(registered_name(k)),
        ascii_lower_seq(registered_name(k)) == registered_name(k),
        !has_prefix(registered_name(k), "minecraft:"@),
{
    if k == 50 {
        assert(registered_name(k) == registered_name(50));
        assert(plain_name("melon"@)) by {
            reveal_strlit("melon");
        }
        assert("melon"@.len() > 0 && !("melon"@.len() >= 3 && "melon"@[0] == 'm' && "melon"@[1] == 'i' && "melon"@[2] == 'n')) by {
            reveal_strlit("melon");
        }
        lemma_plain_name("melon"@);
    } else if k == 51 {
        assert(registered_name(k) == registered_name(51));
        assert(plain_name("milk_bucket"@)) by {
            reveal_strlit("milk_bucket");
        }
        assert("milk_bucket"@.len() > 0 && !("milk_bucket"@.len() >= 3 && "milk_bucket"@[0] == 'm' && "milk_bucket"@[1] == 'i' && "milk_bucket"@[2] == 'n')) by {
            reveal_strlit("milk_bucket");
        }
        lemma_plain_name("milk_bucket"@);
    } else if k == 52 {
        assert(registered_name(k) == registered_name(52));
        assert(plain_name("music_disc_bounce"@)) by {
            reveal_strlit("music_disc_bounce");
        }
        assert("music_disc_bounce"@.len() > 0 && !("music_disc_bounce"@.len() >= 3 && "music_disc_bounce"@[0] == 'm' && "music_disc_bounce"@[1] == 'i' && "music_disc_bounce"@[2] == 'n')) by {
            reveal_strlit("music_disc_bounce");
        }
        lemma_plain_name("music_disc_bounce"@);
    } else if k == 53 {
        assert(registered_name(k) == registered_name(53));
        assert(plain_name("name_tag"@)) by {
            reveal_strlit("name_tag");
        }
        assert("name_tag"@.len() > 0 && !("name_tag"@.len() >= 3 && "name_tag"@[0] == 'm' && "name_tag"@[1] == 'i' && "name_tag"@[2] == 'n')) by {
            reveal_strlit("name_tag");
        }
        lemma_plain_name("name_tag"@);
    } else if k == 54 {
        assert(registered_name(k) == registered_name(54));
        assert(plain_name("nether_portal"@)) by {
            reveal_strlit("nether_portal");
        }
        assert("nether_portal"@.len() > 0 && !("nether_portal"@.len() >= 3 && "nether_portal"@[0] == 'm' && "nether_portal"@[1] == 'i' && "nether_portal"@[2] == 'n')) by {
            reveal_strlit("nether_portal");
        }
        lemma_plain_name("nether_portal"@);
    } else if k == 55 {
        assert(registered_name(k) == registered_name(55));
        assert(plain_name("note_block"@)) by {
            reveal_strlit("note_block");
        }
        assert("note_block"@.len() > 0 && !("note_block"@.len() >= 3 && "note_block"@[0] == 'm' && "note_block"@[1] == 'i' && "note_block"@[2] == 'n')) by {
            reveal_strlit("note_block");
        }
        lemma_plain_name("note_block"@);
    } else if k == 56 {
        assert(registered_name(k) == registered_name(56));
        assert(plain_name("oak_log"@)) by {
            reveal_strlit("oak_log");
        }
        assert("oak_log"@.len() > 0 && !("oak_log"@.len() >= 3 && "oak_log"@[0] == 'm' && "oak_log"@[1] == 'i' && "oak_log"@[2] == 'n')) by {
            reveal_strlit("oak_log");
        }
        lemma_plain_name("oak_log"@);
    } else if k == 57 {
        assert(registered_name(k) == registered_name(57));
        assert(plain_name("observer"@)) by {
            reveal_strlit("observer");
        }
        assert("observer"@.len() > 0 && !("observer"@.len() >= 3 && "observer"@[0] == 'm' && "observer"@[1] == 'i' && "observer"@[2] == 'n')) by {
            reveal_strlit("observer");
        }
        lemma_plain_name("observer"@);
    } else if k == 58 {
        assert(registered_name(k) == registered_name(58));
        assert(plain_name("obsidian"@)) by {
            reveal_strlit("obsidian");
        }
        assert("obsidian"@.len() > 0 && !("obsidian"@.len() >= 3 && "obsidian"@[0] == 'm' && "obsidian"@[1] == 'i' && "obsidian"@[2] == 'n')) by {
            reveal_strlit("obsidian");
        }
        lemma_plain_name("obsidian"@);
    } else if k == 59 {
        assert(registered_name(k) == registered_name(59));
        assert(plain_name("paper"@)) by {
            reveal_strlit("paper");
        }
        assert("paper"@.len() > 0 && !("paper"@.len() >= 3 && "paper"@[0] == 'm' && "paper"@[1] == 'i' && "paper"@[2] == 'n')) by {
            reveal_strlit("paper");
        }
        lemma_plain_name("paper"@);
    }
}

proof fn lemma_plain_names_6(k: int)
    requires
        60 <= k < 70,
    ensures
        is_ascii_text(registered_name(k)),
        ascii_lower_seq(registered_name(k)) == registered_name(k),
        !has_prefix(registered_name(k), "minecraft:"@),
{
    if k == 60 {
        assert(registered_name(k) == registered_name(60));
        assert(plain_name("piston"@)) by {
            reveal_strlit("piston");
        }
        assert("piston"@.len() > 0 && !("piston"@.len() >= 3 && "piston"@[0] == 'm' && "piston"@[1] == 'i' && "piston"@[2] == 'n')) by {
            reveal_strlit("piston");
        }
        lemma_plain_name("piston"@);
    } else if k == 61 {
        assert(registered_name(k) == registered_name(61));
        assert(plain_name("potatoes"@)) by {
            reveal_strlit("potatoes");
        }
        assert("potatoes"@.len() > 0 && !("potatoes"@.len() >= 3 && "potatoes"@[0] == 'm' && "potatoes"@[1] == 'i' && "potatoes"@[2] == 'n')) by {
            reveal_strlit("potatoes");
        }
        lemma_plain_name("potatoes"@);
    } else if k == 62 {
        assert(registered_name(k) == registered_name(62));
        assert(plain_name("potent_sulfur"@)) by {
            reveal_strlit("potent_sulfur");
        }
        assert("potent_sulfur"@.len() > 0 && !("potent_sulfur"@.len() >= 3 && "potent_sulfur"@[0] == 'm' && "potent_sulfur"@[1] == 'i' && "potent_sulfur"@[2] == 'n')) by {
            reveal_strlit("potent_sulfur");
        }
        lemma_plain_name("potent_sulfur"@);
    } else if k == 63 {
        assert(registered_name(k) == registered_name(63));
        assert(plain_name("powered_rail"@)) by {
            reveal_strlit("powered_rail");
        }
        assert("powered_rail"@.len() > 0 && !("powered_rail"@.len() >= 3 && "powered_rail"@[0] == 'm' && "powered_rail"@[1] == 'i' && "powered_rail"@[2] == 'n')) by {
            reveal_strlit("powered_rail");
        }
        lemma_plain_name("powered_rail"@);
    } else if k == 64 {
        assert(registered_name(k) == registered_name(64));
        assert(plain_name("redstone_block"@)) by {
            reveal_strlit("redstone_block");
        }
        assert("redstone_block"@.len() > 0 && !("redstone_block"@.len() >= 3 && "redstone_block"@[0] == 'm' && "redstone_block"@[1] == 'i' && "redstone_block"@[2] == 'n')) by {
            reveal_strlit("redstone_block");
        }
        lemma_plain_name("redstone_block"@);
    } else if k == 65 {
        assert(registered_name(k) == registered_name(65));
        assert(plain_name("redstone_torch"@)) by {
            reveal_strlit("redstone_torch");
        }
        assert("redstone_torch"@.len() > 0 && !("redstone_torch"@.len() >= 3 && "redstone_torch"@[0] == 'm' && "redstone_torch"@[1] == 'i' && "redstone_torch"@[2] == 'n')) by {
            reveal_strlit("redstone_torch");
        }
        lemma_plain_name("redstone_torch"@);
    } else if k == 66 {
        assert(registered_name(k) == registered_name(66));
        assert(plain_name("redstone_wire"@)) by {
            reveal_strlit("redstone_wire");
        }
        assert("redstone_wire"@.len() > 0 && !("redstone_wire"@.len() >= 3 && "redstone_wire"@[0] == 'm' && "redstone_wire"@[1] == 'i' && "redstone_wire"@[2] == 'n')) by {
            reveal_strlit("redstone_wire");
        }
        lemma_plain_name("redstone_wire"@);
    } else if k == 67 {
        assert(registered_name(k) == registered_name(67));
        assert(plain_name("saddle"@)) by {
            reveal_strlit("saddle");
        }
        assert("saddle"@.len() > 0 && !("saddle"@.len() >= 3 && "saddle"@[0] == 'm' && "saddle"@[1] == 'i' && "saddle"@[2] == 'n')) by {
            reveal_strlit("saddle");
        }
        lemma_plain_name("saddle"@);
    } else if k == 68 {
        assert(registered_name(k) == registered_name(68));
        assert(plain_name("sand"@)) by {
            reveal_strlit("sand");
        }
        assert("sand"@.len() > 0 && !("sand"@.len() >= 3 && "sand"@[0] == 'm' && "sand"@[1] == 'i' && "sand"@[2] == 'n')) by {
            reveal_strlit("sand");
        }
        lemma_plain_name("sand"@);
    } else if k == 69 {
        assert(registered_name(k) == registered_name(69));
        assert(plain_name("shears"@)) by {
            reveal_strlit("shears");
        }
        assert("shears"@.len() > 0 && !("shears"@.len() >= 3 && "shears"@[0] == 'm' && "shears"@[1] == 'i' && "shears"@[2] == 'n')) by {
            reveal_strlit("shears");
        }
        lemma_plain_name("shears"@);
    }
}

proof fn lemma_plain_names_7(k: int)
    requires
        70 <= k < 80,
    ensures
        is_ascii_text(registered_name(k)),
        ascii_lower_seq(registered_name(k)) == registered_name(k),
        !has_prefix(registered_name(k), "minecraft:"@),
{
    if k == 70 {
        assert(registered_name(k) == registered_name(70));
        assert(plain_name("shield"@)) by {
            reveal_strlit("shield");
        }
        assert("shield"@.len() > 0 && !("shield"@.len() >= 3 && "shield"@[0] == 'm' && "shield"@[1] == 'i' && "shield"@[2] == 'n')) by {
            reveal_strlit("shield");
        }
        lemma_plain_name("shield"@);
    } else if k == 71 {
        assert(registered_name(k) == registered_name(71));
        assert(plain_name("smithing_table"@)) by {
            reveal_strlit("smithing_table");
        }
        assert("smithing_table"@.len() > 0 && !("smithing_table"@.len() >= 3 && "smithing_table"@[0] == 'm' && "smithing_table"@[1] == 'i' && "smithing_table"@[2] == 'n')) by {
            reveal_strlit("smithing_table");
        }
        lemma_plain_name("smithing_table"@);
    } else if k == 72 {
        assert(registered_name(k) == registered_name(72));
        assert(plain_name("soul_sand"@)) by {
            reveal_strlit("soul_sand");
        }
        assert("soul_sand"@.len() > 0 && !("soul_sand"@.len() >= 3 && "soul_sand"@[0] == 'm' && "soul_sand"@[1] == 'i' && "soul_sand"@[2] == 'n')) by {
            reveal_strlit("soul_sand");
        }
        lemma_plain_name("soul_sand"@);
    } else if k == 73 {
        assert(registered_name(k) == registered_name(73));
        assert(plain_name("stick"@)) by {
            reveal_strlit("stick");
        }
        assert("stick"@.len() > 0 && !("stick"@.len() >= 3 && "stick"@[0] == 'm' && "stick"@[1] == 'i' && "stick"@[2] == 'n')) by {
            reveal_strlit("stick");
        }
        lemma_plain_name("stick"@);
    } else if k == 74 {
        assert(registered_name(k) == registered_name(74));
        assert(plain_name("sticky_piston"@)) by {
            reveal_strlit("sticky_piston");
        }
        assert("sticky_piston"@.len() > 0 && !("sticky_piston"@.len() >= 3 && "sticky_piston"@[0] == 'm' && "sticky_piston"@[1] == 'i' && "sticky_piston"@[2] == 'n')) by {
            reveal_strlit("sticky_piston");
        }
        lemma_plain_name("sticky_piston"@);
    } else if k == 75 {
        assert(registered_name(k) == registered_name(75));
        assert(plain_name("stone"@)) by {
            reveal_strlit("stone");
        }
        assert("stone"@.len() > 0 && !("stone"@.len() >= 3 && "stone"@[0] == 'm' && "stone"@[1] == 'i' && "stone"@[2] == 'n')) by {
            reveal_strlit("stone");
        }
        lemma_plain_name("stone"@);
    } else if k == 76 {
        assert(registered_name(k) == registered_name(76));
        assert(plain_name("stone_axe"@)) by {
            reveal_strlit("stone_axe");
        }
        assert("stone_axe"@.len() > 0 && !("stone_axe"@.len() >= 3 && "stone_axe"@[0] == 'm' && "stone_axe"@[1] == 'i' && "stone_axe"@[2] == 'n')) by {
            reveal_strlit("stone_axe");
        }
        lemma_plain_name("stone_axe"@);
    } else if k == 77 {
        assert(registered_name(k) == registered_name(77));
        assert(plain_name("stone_sword"@)) by {
            reveal_strlit("stone_sword");
        }
        assert("stone_sword"@.len() > 0 && !("stone_sword"@.len() >= 3 && "stone_sword"@[0] == 'm' && "stone_sword"@[1] == 'i' && "stone_sword"@[2] == 'n')) by {
            reveal_strlit("stone_sword");
        }
        lemma_plain_name("stone_sword"@);
    } else if k == 78 {
        assert(registered_name(k) == registered_name(78));
        assert(plain_name("stonecutter"@)) by {
            reveal_strlit("stonecutter");
        }
        assert("stonecutter"@.len() > 0 && !("stonecutter"@.len() >= 3 && "stonecutter"@[0] == 'm' && "stonecutter"@[1] == 'i' && "stonecutter"@[2] == 'n')) by {
            reveal_strlit("stonecutter");
        }
        lemma_plain_name("stonecutter"@);
    } else if k == 79 {
        assert(registered_name(k) == registered_name(79));
        assert(plain_name("sugar_cane"@)) by {
            reveal_strlit("sugar_cane");
        }
        assert("sugar_cane"@.len() > 0 && !("sugar_cane"@.len() >= 3 && "sugar_cane"@[0] == 'm' && "sugar_cane"@[1] == 'i' && "sugar_cane"@[2] == 'n')) by {
            reveal_strlit("sugar_cane");
        }
        lemma_plain_name("sugar_cane"@);
    }
}

proof fn lemma_plain_names_8(k: int)
    requires
        80 <= k < 90,
    ensures
        is_ascii_text(registered_name(k)),
        ascii_lower_seq(registered_name(k)) == registered_name(k),
        !has_prefix(registered_name(k), "minecraft:"@),
{
    if k == 80 {
        assert(registered_name(k) == registered_name(80));
        assert(plain_name("sulfur_block"@)) by {
            reveal_strlit("sulfur_block");
        }
        assert("sulfur_block"@.len() > 0 && !("sulfur_block"@.len() >= 3 && "sulfur_block"@[0] == 'm' && "sulfur_block"@[1] == 'i' && "sulfur_block"@[2] == 'n')) by {
            reveal_strlit("sulfur_block");
        }
        lemma_plain_name("sulfur_block"@);
    } else if k == 81 {
        assert(registered_name(k) == registered_name(81));
        assert(plain_name("sulfur_cube_spawn_egg"@)) by {
            reveal_strlit("sulfur_cube_spawn_egg");
        }
        assert("sulfur_cube_spawn_egg"@.len() > 0 && !("sulfur_cube_spawn_egg"@.len() >= 3 && "sulfur_cube_spawn_egg"@[0] == 'm' && "sulfur_cube_spawn_egg"@[1] == 'i' && "sulfur_cube_spawn_egg"@[2] == 'n')) by {
            reveal_strlit("sulfur_cube_spawn_egg");
        }
        lemma_plain_name("sulfur_cube_spawn_egg"@);
    } else if k == 82 {
        assert(registered_name(k) == registered_name(82));
        assert(plain_name("sulfur_spike"@)) by {
            reveal_strlit("sulfur_spike");
        }
        assert("sulfur_spike"@.len() > 0 && !("sulfur_spike"@.len() >= 3 && "sulfur_spike"@[0] == 'm' && "sulfur_spike"@[1] == 'i' && "sulfur_spike"@[2] == 'n')) by {
            reveal_strlit("sulfur_spike");
        }
        lemma_plain_name("sulfur_spike"@);
    } else if k == 83 {
        assert(registered_name(k) == registered_name(83));
        assert(plain_name("tnt"@)) by {
            reveal_strlit("tnt");
        }
        assert("tnt"@.len() > 0 && !("tnt"@.len() >= 3 && "tnt"@[0] == 'm' && "tnt"@[1] == 'i' && "tnt"@[2] == 'n')) by {
            reveal_strlit("tnt");
        }
        lemma_plain_name("tnt"@);
    } else if k == 84 {
        assert(registered_name(k) == registered_name(84));
        assert(plain_name("torch"@)) by {
            reveal_strlit("torch");
        }
        assert("torch"@.len() > 0 && !("torch"@.len() >= 3 && "torch"@[0] == 'm' && "torch"@[1] == 'i' && "torch"@[2] == 'n')) by {
            reveal_strlit("torch");
        }
        lemma_plain_name("torch"@);
    } else if k == 85 {
        assert(registered_name(k) == registered_name(85));
        assert(plain_name("trident"@)) by {
            reveal_strlit("trident");
        }
        assert("trident"@.len() > 0 && !("trident"@.len() >= 3 && "trident"@[0] == 'm' && "trident"@[1] == 'i' && "trident"@[2] == 'n')) by {
            reveal_strlit("trident");
        }
        lemma_plain_name("trident"@);
    } else if k == 86 {
        assert(registered_name(k) == registered_name(86));
        assert(plain_name("water"@)) by {
            reveal_strlit("water");
        }
        assert("water"@.len() > 0 && !("water"@.len() >= 3 && "water"@[0] == 'm' && "water"@[1] == 'i' && "water"@[2] == 'n')) by {
            reveal_strlit("water");
        }
        lemma_plain_name("water"@);
    } else if k == 87 {
        assert(registered_name(k) == registered_name(87));
        assert(plain_name("water_bucket"@)) by {
            reveal_strlit("water_bucket");
        }
        assert("water_bucket"@.len() > 0 && !("water_bucket"@.len() >= 3 && "water_bucket"@[0] == 'm' && "water_bucket"@[1] == 'i' && "water_bucket"@[2] == 'n')) by {
            reveal_strlit("water_bucket");
        }
        lemma_plain_name("water_bucket"@);
    } else if k == 88 {
        assert(registered_name(k) == registered_name(88));
        assert(plain_name("wheat"@)) by {
            reveal_strlit("wheat");
        }
        assert("wheat"@.len() > 0 && !("wheat"@.len() >= 3 && "wheat"@[0] == 'm' && "wheat"@[1] == 'i' && "wheat"@[2] == 'n')) by {
            reveal_strlit("wheat");
        }
        lemma_plain_name("wheat"@);
    } else if k == 89 {
        assert(registered_name(k) == registered_name(89));
        assert(plain_name("wooden_axe"@)) by {
            reveal_strlit("wooden_axe");
        }
        assert("wooden_axe"@.len() > 0 && !("wooden_axe"@.len() >= 3 && "wooden_axe"@[0] == 'm' && "wooden_axe"@[1] == 'i' && "wooden_axe"@[2] == 'n')) by {
            reveal_strlit("wooden_axe");
        }
        lemma_plain_name("wooden_axe"@);
    }
}

proof fn lemma_plain_names_9(k: int)
    requires
        90 <= k < 91,
    ensures
        is_ascii_text(registered_name(k)),
        ascii_lower_seq(registered_name(k)) == registered_name(k),
        !has_prefix(registered_name(k), "minecraft:"@),
{
    if k == 90 {
        assert(registered_name(k) == registered_name(90));
        assert(plain_name("wooden_sword"@)) by {
            reveal_strlit("wooden_sword");
        }
        assert("wooden_sword"@.len() > 0 && !("wooden_sword"@.len() >= 3 && "wooden_sword"@[0] == 'm' && "wooden_sword"@[1] == 'i' && "wooden_sword"@[2] == 'n')) by {
            reveal_strlit("wooden_sword");
        }
        lemma_plain_name("wooden_sword"@);
    }
}

/// Each registered name is written as it is looked up: lower-case ASCII
/// without a namespace, so `resolve_item` finds it as it stands.
pub proof fn registered_names_are_plain(k: int)
    requires
        0 <= k < ITEM_COUNT,
    ensures
        is_ascii_text(registered_name(k)),
        ascii_lower_seq(registered_name(k)) == registered_name(k),
        !has_prefix(registered_name(k), "minecraft:"@),
{
    if k < 10 {
        lemma_plain_names_0(k);
    } else if k < 20 {
        lemma_plain_names_1(k);
    } else if k < 30 {
        lemma_plain_names_2(k);
    } else if k < 40 {
        lemma_plain_names_3(k);
    } else if k < 50 {
        lemma_plain_names_4(k);
    } else if k < 60 {
        lemma_plain_names_5(k);
    } else if k < 70 {
        lemma_plain_names_6(k);
    } else if k < 80 {
        lemma_plain_names_7(k);
    } else if k < 90 {
        lemma_plain_names_8(k);
    } else if k < 91 {
        lemma_plain_names_9(k);
    }
}

/// Every name before position `k` of the registry differs from the name at `k`.
proof fn lemma_earlier_names_differ(k: int)
    requires
        0 <= k < ITEM_COUNT,
    ensures
        forall|j: int| 0 <= j < k ==> #[trigger] registered_name(j) != registered_name(k),
{
    assert forall|j: int| 0 <= j < k implies #[trigger] registered_name(j) != registered_name(k) by {
        registered_names_ascending(j, k);
        lemma_lex_irreflexive(registered_name(k));
    }
}

proof fn lemma_named_ids_0()
    ensures
        registered_id("stick"@) == Some(crate::constants::item_id::STICK),
        registered_id("shield"@) == Some(crate::constants::item_id::SHIELD),
        registered_id("fishing_rod"@) == Some(crate::constants::item_id::FISHING_ROD),
        registered_id("bow"@) == Some(crate::constants::item_id::BOW),
        registered_id("arrow"@) == Some(crate::constants::item_id::ARROW),
        registered_id("lead"@) == Some(crate::constants::item_id::LEAD),
        registered_id("shears"@) == Some(crate::constants::item_id::SHEARS),
        registered_id("enchanted_book"@) == Some(crate::constants::item_id::ENCHANTED_BOOK),
{
    lemma_name_table();
    lemma_earlier_names_differ(73);
    assert(registered_id("stick"@) == Some(crate::constants::item_id::STICK));
    lemma_earlier_names_differ(70);
    assert(registered_id("shield"@) == Some(crate::constants::item_id::SHIELD));
    lemma_earlier_names_differ(30);
    assert(registered_id("fishing_rod"@) == Some(crate::constants::item_id::FISHING_ROD));
    lemma_earlier_names_differ(6);
    assert(registered_id("bow"@) == Some(crate::constants::item_id::BOW));
    lemma_earlier_names_differ(1);
    assert(registered_id("arrow"@) == Some(crate::constants::item_id::ARROW));
    lemma_earlier_names_differ(46);
    assert(registered_id("lead"@) == Some(crate::constants::item_id::LEAD));
    lemma_earlier_names_differ(69);
    assert(registered_id("shears"@) == Some(crate::constants::item_id::SHEARS));
    lemma_earlier_names_differ(25);
    assert(registered_id("enchanted_book"@) == Some(crate::constants::item_id::ENCHANTED_BOOK));
}

proof fn lemma_named_ids_1()
    ensures
        registered_id("lapis_lazuli"@) == Some(crate::constants::item_id::LAPIS_LAZULI),
        registered_id("paper"@) == Some(crate::constants::item_id::PAPER),
        registered_id("glass_pane"@) == Some(crate::constants::item_id::GLASS_PANE),
        registered_id("wooden_sword"@) == Some(crate::constants::item_id::WOODEN_SWORD),
        registered_id("stone_sword"@) == Some(crate::constants::item_id::STONE_SWORD),
        registered_id("iron_sword"@) == Some(crate::constants::item_id::IRON_SWORD),
        registered_id("diamond_sword"@) == Some(crate::constants::item_id::DIAMOND_SWORD),
        registered_id("wooden_axe"@) == Some(crate::constants::item_id::WOODEN_AXE),
{
    lemma_name_table();
    lemma_earlier_names_differ(43);
    assert(registered_id("lapis_lazuli"@) == Some(crate::constants::item_id::LAPIS_LAZULI));
    lemma_earlier_names_differ(59);
    assert(registered_id("paper"@) == Some(crate::constants::item_id::PAPER));
    lemma_earlier_names_differ(33);
    assert(registered_id("glass_pane"@) == Some(crate::constants::item_id::GLASS_PANE));
    lemma_earlier_names_differ(90);
    assert(registered_id("wooden_sword"@) == Some(crate::constants::item_id::WOODEN_SWORD));
    lemma_earlier_names_differ(77);
    assert(registered_id("stone_sword"@) == Some(crate::constants::item_id::STONE_SWORD));
    lemma_earlier_names_differ(41);
    assert(registered_id("iron_sword"@) == Some(crate::constants::item_id::IRON_SWORD));
    lemma_earlier_names_differ(23);
    assert(registered_id("diamond_sword"@) == Some(crate::constants::item_id::DIAMOND_SWORD));
    lemma_earlier_names_differ(89);
    assert(registered_id("wooden_axe"@) == Some(crate::constants::item_id::WOODEN_AXE));
}

proof fn lemma_named_ids_2()
    ensures
        registered_id("stone_axe"@) == Some(crate::constants::item_id::STONE_AXE),
        registered_id("iron_axe"@) == Some(crate::constants::item_id::IRON_AXE),
        registered_id("diamond_axe"@) == Some(crate::constants::item_id::DIAMOND_AXE),
        registered_id("diamond_pickaxe"@) == Some(crate::constants::item_id::DIAMOND_PICKAXE),
        registered_id("golden_apple"@) == Some(crate::constants::item_id::GOLDEN_APPLE),
        registered_id("enchanted_golden_apple"@) == Some(crate::constants::item_id::ENCHANTED_GOLDEN_APPLE),
        registered_id("bucket"@) == Some(crate::constants::item_id::BUCKET),
        registered_id("water_bucket"@) == Some(crate::constants::item_id::WATER_BUCKET),
{
    lemma_name_table();
    lemma_earlier_names_differ(76);
    assert(registered_id("stone_axe"@) == Some(crate::constants::item_id::STONE_AXE));
    lemma_earlier_names_differ(40);
    assert(registered_id("iron_axe"@) == Some(crate::constants::item_id::IRON_AXE));
    lemma_earlier_names_differ(21);
    assert(registered_id("diamond_axe"@) == Some(crate::constants::item_id::DIAMOND_AXE));
    lemma_earlier_names_differ(22);
    assert(registered_id("diamond_pickaxe"@) == Some(crate::constants::item_id::DIAMOND_PICKAXE));
    lemma_earlier_names_differ(34);
    assert(registered_id("golden_apple"@) == Some(crate::constants::item_id::GOLDEN_APPLE));
    lemma_earlier_names_differ(26);
    assert(registered_id("enchanted_golden_apple"@) == Some(crate::constants::item_id::ENCHANTED_GOLDEN_APPLE));
    lemma_earlier_names_differ(9);
    assert(registered_id("bucket"@) == Some(crate::constants::item_id::BUCKET));
    lemma_earlier_names_differ(87);
    assert(registered_id("water_bucket"@) == Some(crate::constants::item_id::WATER_BUCKET));
}

proof fn lemma_named_ids_3()
    ensures
        registered_id("lava_bucket"@) == Some(crate::constants::item_id::LAVA_BUCKET),
        registered_id("milk_bucket"@) == Some(crate::constants::item_id::MILK_BUCKET),
        registered_id("bread"@) == Some(crate::constants::item_id::BREAD),
        registered_id("cooked_beef"@) == Some(crate::constants::item_id::COOKED_BEEF),
        registered_id("crossbow"@) == Some(crate::constants::item_id::CROSSBOW),
        registered_id("trident"@) == Some(crate::constants::item_id::TRIDENT),
        registered_id("saddle"@) == Some(crate::constants::item_id::SADDLE),
        registered_id("name_tag"@) == Some(crate::constants::item_id::NAME_TAG),
{
    lemma_name_table();
    lemma_earlier_names_differ(45);
    assert(registered_id("lava_bucket"@) == Some(crate::constants::item_id::LAVA_BUCKET));
    lemma_earlier_names_differ(51);
    assert(registered_id("milk_bucket"@) == Some(crate::constants::item_id::MILK_BUCKET));
    lemma_earlier_names_differ(7);
    assert(registered_id("bread"@) == Some(crate::constants::item_id::BREAD));
    lemma_earlier_names_differ(17);
    assert(registered_id("cooked_beef"@) == Some(crate::constants::item_id::COOKED_BEEF));
    lemma_earlier_names_differ(20);
    assert(registered_id("crossbow"@) == Some(crate::constants::item_id::CROSSBOW));
    lemma_earlier_names_differ(85);
    assert(registered_id("trident"@) == Some(crate::constants::item_id::TRIDENT));
    lemma_earlier_names_differ(67);
    assert(registered_id("saddle"@) == Some(crate::constants::item_id::SADDLE));
    lemma_earlier_names_differ(53);
    assert(registered_id("name_tag"@) == Some(crate::constants::item_id::NAME_TAG));
}

proof fn lemma_named_ids_4()
    ensures
        registered_id("ender_pearl"@) == Some(crate::constants::item_id::ENDER_PEARL),
        registered_id("music_disc_bounce"@) == Some(crate::constants::item_id::MUSIC_DISC_BOUNCE),
        registered_id("sulfur_cube_spawn_egg"@) == Some(crate::constants::item_id::SULFUR_CUBE_SPAWN_EGG),
        registered_id("bucket_of_sulfur_cube"@) == Some(crate::constants::item_id::BUCKET_OF_SULFUR_CUBE),
        registered_id("air"@) == Some(crate::constants::block_id::AIR),
        registered_id("stone"@) == Some(crate::constants::block_id::STONE),
        registered_id("grass"@) == Some(crate::constants::block_id::GRASS),
        registered_id("sand"@) == Some(crate::constants::block_id::SAND),
{
    lemma_name_table();
    lemma_earlier_names_differ(28);
    assert(registered_id("ender_pearl"@) == Some(crate::constants::item_id::ENDER_PEARL));
    lemma_earlier_names_differ(52);
    assert(registered_id("music_disc_bounce"@) == Some(crate::constants::item_id::MUSIC_DISC_BOUNCE));
    lemma_earlier_names_differ(81);
    assert(registered_id("sulfur_cube_spawn_egg"@) == Some(crate::constants::item_id::SULFUR_CUBE_SPAWN_EGG));
    lemma_earlier_names_differ(10);
    assert(registered_id("bucket_of_sulfur_cube"@) == Some(crate::constants::item_id::BUCKET_OF_SULFUR_CUBE));
    lemma_earlier_names_differ(0);
    assert(registered_id("air"@) == Some(crate::constants::block_id::AIR));
    lemma_earlier_names_differ(75);
    assert(registered_id("stone"@) == Some(crate::constants::block_id::STONE));
    lemma_earlier_names_differ(35);
    assert(registered_id("grass"@) == Some(crate::constants::block_id::GRASS));
    lemma_earlier_names_differ(68);
    assert(registered_id("sand"@) == Some(crate::constants::block_id::SAND));
}

proof fn lemma_named_ids_5()
    ensures
        registered_id("gravel"@) == Some(crate::constants::block_id::GRAVEL),
        registered_id("glass"@) == Some(crate::constants::block_id::GLASS),
        registered_id("dispenser"@) == Some(crate::constants::block_id::DISPENSER),
        registered_id("tnt"@) == Some(crate::constants::block_id::TNT),
        registered_id("powered_rail"@) == Some(crate::constants::block_id::POWERED_RAIL),
        registered_id("oak_log"@) == Some(crate::constants::block_id::OAK_LOG),
        registered_id("bookshelf"@) == Some(crate::constants::block_id::BOOKSHELF),
        registered_id("obsidian"@) == Some(crate::constants::block_id::OBSIDIAN),
{
    lemma_name_table();
    lemma_earlier_names_differ(36);
    assert(registered_id("gravel"@) == Some(crate::constants::block_id::GRAVEL));
    lemma_earlier_names_differ(32);
    assert(registered_id("glass"@) == Some(crate::constants::block_id::GLASS));
    lemma_earlier_names_differ(24);
    assert(registered_id("dispenser"@) == Some(crate::constants::block_id::DISPENSER));
    lemma_earlier_names_differ(83);
    assert(registered_id("tnt"@) == Some(crate::constants::block_id::TNT));
    lemma_earlier_names_differ(63);
    assert(registered_id("powered_rail"@) == Some(crate::constants::block_id::POWERED_RAIL));
    lemma_earlier_names_differ(56);
    assert(registered_id("oak_log"@) == Some(crate::constants::block_id::OAK_LOG));
    lemma_earlier_names_differ(5);
    assert(registered_id("bookshelf"@) == Some(crate::constants::block_id::BOOKSHELF));
    lemma_earlier_names_differ(58);
    assert(registered_id("obsidian"@) == Some(crate::constants::block_id::OBSIDIAN));
}

proof fn lemma_named_ids_6()
    ensures
        registered_id("torch"@) == Some(crate::constants::block_id::TORCH),
        registered_id("fire"@) == Some(crate::constants::block_id::FIRE),
        registered_id("chest"@) == Some(crate::constants::block_id::CHEST),
        registered_id("furnace"@) == Some(crate::constants::block_id::FURNACE),
        registered_id("crafting_table"@) == Some(crate::constants::block_id::CRAFTING_TABLE),
        registered_id("enchanting_table"@) == Some(crate::constants::block_id::ENCHANTING_TABLE),
        registered_id("brewing_stand"@) == Some(crate::constants::block_id::BREWING_STAND),
        registered_id("beacon"@) == Some(crate::constants::block_id::BEACON),
{
    lemma_name_table();
    lemma_earlier_names_differ(84);
    assert(registered_id("torch"@) == Some(crate::constants::block_id::TORCH));
    lemma_earlier_names_differ(29);
    assert(registered_id("fire"@) == Some(crate::constants::block_id::FIRE));
    lemma_earlier_names_differ(14);
    assert(registered_id("chest"@) == Some(crate::constants::block_id::CHEST));
    lemma_earlier_names_differ(31);
    assert(registered_id("furnace"@) == Some(crate::constants::block_id::FURNACE));
    lemma_earlier_names_differ(19);
    assert(registered_id("crafting_table"@) == Some(crate::constants::block_id::CRAFTING_TABLE));
    lemma_earlier_names_differ(27);
    assert(registered_id("enchanting_table"@) == Some(crate::constants::block_id::ENCHANTING_TABLE));
    lemma_earlier_names_differ(8);
    assert(registered_id("brewing_stand"@) == Some(crate::constants::block_id::BREWING_STAND));
    lemma_earlier_names_differ(2);
    assert(registered_id("beacon"@) == Some(crate::constants::block_id::BEACON));
}

proof fn lemma_named_ids_7()
    ensures
        registered_id("grindstone"@) == Some(crate::constants::block_id::GRINDSTONE),
        registered_id("smithing_table"@) == Some(crate::constants::block_id::SMITHING_TABLE),
        registered_id("stonecutter"@) == Some(crate::constants::block_id::STONECUTTER),
        registered_id("loom"@) == Some(crate::constants::block_id::LOOM),
        registered_id("cartography_table"@) == Some(crate::constants::block_id::CARTOGRAPHY_TABLE),
        registered_id("lectern"@) == Some(crate::constants::block_id::LECTERN),
        registered_id("crafter"@) == Some(crate::constants::block_id::CRAFTER),
        registered_id("hopper"@) == Some(crate::constants::block_id::HOPPER),
{
    lemma_name_table();
    lemma_earlier_names_differ(37);
    assert(registered_id("grindstone"@) == Some(crate::constants::block_id::GRINDSTONE));
    lemma_earlier_names_differ(71);
    assert(registered_id("smithing_table"@) == Some(crate::constants::block_id::SMITHING_TABLE));
    lemma_earlier_names_differ(78);
    assert(registered_id("stonecutter"@) == Some(crate::constants::block_id::STONECUTTER));
    lemma_earlier_names_differ(48);
    assert(registered_id("loom"@) == Some(crate::constants::block_id::LOOM));
    lemma_earlier_names_differ(13);
    assert(registered_id("cartography_table"@) == Some(crate::constants::block_id::CARTOGRAPHY_TABLE));
    lemma_earlier_names_differ(47);
    assert(registered_id("lectern"@) == Some(crate::constants::block_id::LECTERN));
    lemma_earlier_names_differ(18);
    assert(registered_id("crafter"@) == Some(crate::constants::block_id::CRAFTER));
    lemma_earlier_names_differ(38);
    assert(registered_id("hopper"@) == Some(crate::constants::block_id::HOPPER));
}

proof fn lemma_named_ids_8()
    ensures
        registered_id("note_block"@) == Some(crate::constants::block_id::NOTE_BLOCK),
        registered_id("jukebox"@) == Some(crate::constants::block_id::JUKEBOX),
        registered_id("piston"@) == Some(crate::constants::block_id::PISTON),
        registered_id("sticky_piston"@) == Some(crate::constants::block_id::STICKY_PISTON),
        registered_id("observer"@) == Some(crate::constants::block_id::OBSERVER),
        registered_id("comparator"@) == Some(crate::constants::block_id::COMPARATOR),
        registered_id("redstone_wire"@) == Some(crate::constants::block_id::REDSTONE_WIRE),
        registered_id("redstone_torch"@) == Some(crate::constants::block_id::REDSTONE_TORCH),
{
    lemma_name_table();
    lemma_earlier_names_differ(55);
    assert(registered_id("note_block"@) == Some(crate::constants::block_id::NOTE_BLOCK));
    lemma_earlier_names_differ(42);
    assert(registered_id("jukebox"@) == Some(crate::constants::block_id::JUKEBOX));
    lemma_earlier_names_differ(60);
    assert(registered_id("piston"@) == Some(crate::constants::block_id::PISTON));
    lemma_earlier_names_differ(74);
    assert(registered_id("sticky_piston"@) == Some(crate::constants::block_id::STICKY_PISTON));
    lemma_earlier_names_differ(57);
    assert(registered_id("observer"@) == Some(crate::constants::block_id::OBSERVER));
    lemma_earlier_names_differ(16);
    assert(registered_id("comparator"@) == Some(crate::constants::block_id::COMPARATOR));
    lemma_earlier_names_differ(66);
    assert(registered_id("redstone_wire"@) == Some(crate::constants::block_id::REDSTONE_WIRE));
    lemma_earlier_names_differ(65);
    assert(registered_id("redstone_torch"@) == Some(crate::constants::block_id::REDSTONE_TORCH));
}

proof fn lemma_named_ids_9()
    ensures
        registered_id("redstone_block"@) == Some(crate::constants::block_id::REDSTONE_BLOCK),
        registered_id("water"@) == Some(crate::constants::block_id::WATER),
        registered_id("lava"@) == Some(crate::constants::block_id::LAVA),
        registered_id("nether_portal"@) == Some(crate::constants::block_id::NETHER_PORTAL),
        registered_id("bedrock"@) == Some(crate::constants::block_id::BEDROCK),
        registered_id("soul_sand"@) == Some(crate::constants::block_id::SOUL_SAND),
        registered_id("magma_block"@) == Some(crate::constants::block_id::MAGMA_BLOCK),
        registered_id("ice"@) == Some(crate::constants::block_id::ICE),
{
    lemma_name_table();
    lemma_earlier_names_differ(64);
    assert(registered_id("redstone_block"@) == Some(crate::constants::block_id::REDSTONE_BLOCK));
    lemma_earlier_names_differ(86);
    assert(registered_id("water"@) == Some(crate::constants::block_id::WATER));
    lemma_earlier_names_differ(44);
    assert(registered_id("lava"@) == Some(crate::constants::block_id::LAVA));
    lemma_earlier_names_differ(54);
    assert(registered_id("nether_portal"@) == Some(crate::constants::block_id::NETHER_PORTAL));
    lemma_earlier_names_differ(3);
    assert(registered_id("bedrock"@) == Some(crate::constants::block_id::BEDROCK));
    lemma_earlier_names_differ(72);
    assert(registered_id("soul_sand"@) == Some(crate::constants::block_id::SOUL_SAND));
    lemma_earlier_names_differ(49);
    assert(registered_id("magma_block"@) == Some(crate::constants::block_id::MAGMA_BLOCK));
    lemma_earlier_names_differ(39);
    assert(registered_id("ice"@) == Some(crate::constants::block_id::ICE));
}

proof fn lemma_named_ids_10()
    ensures
        registered_id("cactus"@) == Some(crate::constants::block_id::CACTUS),
        registered_id("sugar_cane"@) == Some(crate::constants::block_id::SUGAR_CANE),
        registered_id("melon"@) == Some(crate::constants::block_id::MELON),
        registered_id("wheat"@) == Some(crate::constants::block_id::WHEAT),
        registered_id("carrots"@) == Some(crate::constants::block_id::CARROTS),
        registered_id("potatoes"@) == Some(crate::constants::block_id::POTATOES),
        registered_id("beetroots"@) == Some(crate::constants::block_id::BEETROOTS),
        registered_id("sulfur_block"@) == Some(crate::constants::block_id::SULFUR_BLOCK),
{
    lemma_name_table();
    lemma_earlier_names_differ(11);
    assert(registered_id("cactus"@) == Some(crate::constants::block_id::CACTUS));
    lemma_earlier_names_differ(79);
    assert(registered_id("sugar_cane"@) == Some(crate::constants::block_id::SUGAR_CANE));
    lemma_earlier_names_differ(50);
    assert(registered_id("melon"@) == Some(crate::constants::block_id::MELON));
    lemma_earlier_names_differ(88);
    assert(registered_id("wheat"@) == Some(crate::constants::block_id::WHEAT));
    lemma_earlier_names_differ(12);
    assert(registered_id("carrots"@) == Some(crate::constants::block_id::CARROTS));
    lemma_earlier_names_differ(61);
    assert(registered_id("potatoes"@) == Some(crate::constants::block_id::POTATOES));
    lemma_earlier_names_differ(4);
    assert(registered_id("beetroots"@) == Some(crate::constants::block_id::BEETROOTS));
    lemma_earlier_names_differ(80);
    assert(registered_id("sulfur_block"@) == Some(crate::constants::block_id::SULFUR_BLOCK));
}

proof fn lemma_named_ids_11()
    ensures
        registered_id("potent_sulfur"@) == Some(crate::constants::block_id::POTENT_SULFUR),
        registered_id("sulfur_spike"@) == Some(crate::constants::block_id::SULFUR_SPIKE),
        registered_id("cinnabar_block"@) == Some(crate::constants::block_id::CINNABAR_BLOCK),
{
    lemma_name_table();
    lemma_earlier_names_differ(62);
    assert(registered_id("potent_sulfur"@) == Some(crate::constants::block_id::POTENT_SULFUR));
    lemma_earlier_names_differ(82);
    assert(registered_id("sulfur_spike"@) == Some(crate::constants::block_id::SULFUR_SPIKE));
    lemma_earlier_names_differ(15);
    assert(registered_id("cinnabar_block"@) == Some(crate::constants::block_id::CINNABAR_BLOCK));
}

/// The registry agrees with the named id constants: the lower-case name of
/// every item and block constant resolves to that constant's id.
pub proof fn named_ids_resolve()
    ensures
        registered_id("stick"@) == Some(crate::constants::item_id::STICK),
        registered_id("shield"@) == Some(crate::constants::item_id::SHIELD),
        registered_id("fishing_rod"@) == Some(crate::constants::item_id::FISHING_ROD),
        registered_id("bow"@) == Some(crate::constants::item_id::BOW),
        registered_id("arrow"@) == Some(crate::constants::item_id::ARROW),
        registered_id("lead"@) == Some(crate::constants::item_id::LEAD),
        registered_id("shears"@) == Some(crate::constants::item_id::SHEARS),
        registered_id("enchanted_book"@) == Some(crate::constants::item_id::ENCHANTED_BOOK),
        registered_id("lapis_lazuli"@) == Some(crate::constants::item_id::LAPIS_LAZULI),
        registered_id("paper"@) == Some(crate::constants::item_id::PAPER),
        registered_id("glass_pane"@) == Some(crate::constants::item_id::GLASS_PANE),
        registered_id("wooden_sword"@) == Some(crate::constants::item_id::WOODEN_SWORD),
        registered_id("stone_sword"@) == Some(crate::constants::item_id::STONE_SWORD),
        registered_id("iron_sword"@) == Some(crate::constants::item_id::IRON_SWORD),
        registered_id("diamond_sword"@) == Some(crate::constants::item_id::DIAMOND_SWORD),
        registered_id("wooden_axe"@) == Some(crate::constants::item_id::WOODEN_AXE),
        registered_id("stone_axe"@) == Some(crate::constants::item_id::STONE_AXE),
        registered_id("iron_axe"@) == Some(crate::constants::item_id::IRON_AXE),
        registered_id("diamond_axe"@) == Some(crate::constants::item_id::DIAMOND_AXE),
        registered_id("diamond_pickaxe"@) == Some(crate::constants::item_id::DIAMOND_PICKAXE),
        registered_id("golden_apple"@) == Some(crate::constants::item_id::GOLDEN_APPLE),
        registered_id("enchanted_golden_apple"@) == Some(crate::constants::item_id::ENCHANTED_GOLDEN_APPLE),
        registered_id("bucket"@) == Some(crate::constants::item_id::BUCKET),
        registered_id("water_bucket"@) == Some(crate::constants::item_id::WATER_BUCKET),
        registered_id("lava_bucket"@) == Some(crate::constants::item_id::LAVA_BUCKET),
        registered_id("milk_bucket"@) == Some(crate::constants::item_id::MILK_BUCKET),
        registered_id("bread"@) == Some(crate::constants::item_id::BREAD),
        registered_id("cooked_beef"@) == Some(crate::constants::item_id::COOKED_BEEF),
        registered_id("crossbow"@) == Some(crate::constants::item_id::CROSSBOW),
        registered_id("trident"@) == Some(crate::constants::item_id::TRIDENT),
        registered_id("saddle"@) == Some(crate::constants::item_id::SADDLE),
        registered_id("name_tag"@) == Some(crate::constants::item_id::NAME_TAG),
        registered_id("ender_pearl"@) == Some(crate::constants::item_id::ENDER_PEARL),
        registered_id("music_disc_bounce"@) == Some(crate::constants::item_id::MUSIC_DISC_BOUNCE),
        registered_id("sulfur_cube_spawn_egg"@) == Some(crate::constants::item_id::SULFUR_CUBE_SPAWN_EGG),
        registered_id("bucket_of_sulfur_cube"@) == Some(crate::constants::item_id::BUCKET_OF_SULFUR_CUBE),
        registered_id("air"@) == Some(crate::constants::block_id::AIR),
        registered_id("stone"@) == Some(crate::constants::block_id::STONE),
        registered_id("grass"@) == Some(crate::constants::block_id::GRASS),
        registered_id("sand"@) == Some(crate::constants::block_id::SAND),
        registered_id("gravel"@) == Some(crate::constants::block_id::GRAVEL),
        registered_id("glass"@) == Some(crate::constants::block_id::GLASS),
        registered_id("dispenser"@) == Some(crate::constants::block_id::DISPENSER),
        registered_id("tnt"@) == Some(crate::constants::block_id::TNT),
        registered_id("powered_rail"@) == Some(crate::constants::block_id::POWERED_RAIL),
        registered_id("oak_log"@) == Some(crate::constants::block_id::OAK_LOG),
        registered_id("bookshelf"@) == Some(crate::constants::block_id::BOOKSHELF),
        registered_id("obsidian"@) == Some(crate::constants::block_id::OBSIDIAN),
        registered_id("torch"@) == Some(crate::constants::block_id::TORCH),
        registered_id("fire"@) == Some(crate::constants::block_id::FIRE),
        registered_id("chest"@) == Some(crate::constants::block_id::CHEST),
        registered_id("furnace"@) == Some(crate::constants::block_id::FURNACE),
        registered_id("crafting_table"@) == Some(crate::constants::block_id::CRAFTING_TABLE),
        registered_id("enchanting_table"@) == Some(crate::constants::block_id::ENCHANTING_TABLE),
        registered_id("brewing_stand"@) == Some(crate::constants::block_id::BREWING_STAND),
        registered_id("beacon"@) == Some(crate::constants::block_id::BEACON),
        registered_id("grindstone"@) == Some(crate::constants::block_id::GRINDSTONE),
        registered_id("smithing_table"@) == Some(crate::constants::block_id::SMITHING_TABLE),
        registered_id("stonecutter"@) == Some(crate::constants::block_id::STONECUTTER),
        registered_id("loom"@) == Some(crate::constants::block_id::LOOM),
        registered_id("cartography_table"@) == Some(crate::constants::block_id::CARTOGRAPHY_TABLE),
        registered_id("lectern"@) == Some(crate::constants::block_id::LECTERN),
        registered_id("crafter"@) == Some(crate::constants::block_id::CRAFTER),
        registered_id("hopper"@) == Some(crate::constants::block_id::HOPPER),
        registered_id("note_block"@) == Some(crate::constants::block_id::NOTE_BLOCK),
        registered_id("jukebox"@) == Some(crate::constants::block_id::JUKEBOX),
        registered_id("piston"@) == Some(crate::constants::block_id::PISTON),
        registered_id("sticky_piston"@) == Some(crate::constants::block_id::STICKY_PISTON),
        registered_id("observer"@) == Some(crate::constants::block_id::OBSERVER),
        registered_id("comparator"@) == Some(crate::constants::block_id::COMPARATOR),
        registered_id("redstone_wire"@) == Some(crate::constants::block_id::REDSTONE_WIRE),
        registered_id("redstone_torch"@) == Some(crate::constants::block_id::REDSTONE_TORCH),
        registered_id("redstone_block"@) == Some(crate::constants::block_id::REDSTONE_BLOCK),
        registered_id("water"@) == Some(crate::constants::block_id::WATER),
        registered_id("lava"@) == Some(crate::constants::block_id::LAVA),
        registered_id("nether_portal"@) == Some(crate::constants::block_id::NETHER_PORTAL),
        registered_id("bedrock"@) == Some(crate::constants::block_id::BEDROCK),
        registered_id("soul_sand"@) == Some(crate::constants::block_id::SOUL_SAND),
        registered_id("magma_block"@) == Some(crate::constants::block_id::MAGMA_BLOCK),
        registered_id("ice"@) == Some(crate::constants::block_id::ICE),
        registered_id("cactus"@) == Some(crate::constants::block_id::CACTUS),
        registered_id("sugar_cane"@) == Some(crate::constants::block_id::SUGAR_CANE),
        registered_id("melon"@) == Some(crate::constants::block_id::MELON),
        registered_id("wheat"@) == Some(crate::constants::block_id::WHEAT),
        registered_id("carrots"@) == Some(crate::constants::block_id::CARROTS),
        registered_id("potatoes"@) == Some(crate::constants::block_id::POTATOES),
        registered_id("beetroots"@) == Some(crate::constants::block_id::BEETROOTS),
        registered_id("sulfur_block"@) == Some(crate::constants::block_id::SULFUR_BLOCK),
        registered_id("potent_sulfur"@) == Some(crate::constants::block_id::POTENT_SULFUR),
        registered_id("sulfur_spike"@) == Some(crate::constants::block_id::SULFUR_SPIKE),
        registered_id("cinnabar_block"@) == Some(crate::constants::block_id::CINNABAR_BLOCK),
{
    lemma_named_ids_0();
    lemma_named_ids_1();
    lemma_named_ids_2();
    lemma_named_ids_3();
    lemma_named_ids_4();
    lemma_named_ids_5();
    lemma_named_ids_6();
    lemma_named_ids_7();
    lemma_named_ids_8();
    lemma_named_ids_9();
    lemma_named_ids_10();
    lemma_named_ids_11();
}

} // verus!
