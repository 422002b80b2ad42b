//! Biomes: identifiers and surface layers.

use vstd::prelude::*;
use crate::block::BlockState;

verus! {
/// Biome identifier (59 biomes).
#[derive(Debug, Clone, Copy, PartialEq, Eq, Hash, Structural)]
pub enum BiomeId {
    Plains,
    SunflowerPlains,
    Forest,
    FlowerForest,
    BirchForest,
    OldGrowthBirchForest,
    DarkForest,
    Swamp,
    MangroveSwamp,
    Jungle,
    SparseJungle,
    BambooJungle,
    Beach,
    MushroomFields,
    River,
    Ocean,
    DeepOcean,
    WarmOcean,
    ColdOcean,
    FrozenOcean,
    Taiga,
    OldGrowthPineTaiga,
    OldGrowthSpruceTaiga,
    SnowyPlains,
    IceSpikes,
    SnowyTaiga,
    SnowyBeach,
    FrozenRiver,
    Desert,
    Savanna,
    SavannaPlateau,
    Badlands,
    ErodedBadlands,
    WoodedBadlands,
    WindsweptHills,
    WindsweptGravellyHills,
    WindsweptForest,
    Meadow,
    Grove,
    SnowySlopes,
    JaggedPeaks,
    FrozenPeaks,
    StonyPeaks,
    DripstoneCaves,
    LushCaves,
    DeepDark,
    SulfurCaves,
    CherryGrove,
    PaleGarden,
    NetherWastes,
    SoulSandValley,
    CrimsonForest,
    WarpedForest,
    BasaltDeltas,
    TheEnd,
    EndHighlands,
    EndMidlands,
    SmallEndIslands,
    EndBarrens,
}

/// Numeric id of each biome.
pub open spec fn biome_number(b: BiomeId) -> u32 {
    match b {
        BiomeId::Plains => 0,
        BiomeId::SunflowerPlains => 1,
        BiomeId::Forest => 2,
        BiomeId::FlowerForest => 3,
        BiomeId::BirchForest => 4,
        BiomeId::OldGrowthBirchForest => 5,
        BiomeId::DarkForest => 6,
        BiomeId::Swamp => 7,
        BiomeId::MangroveSwamp => 8,
        BiomeId::Jungle => 9,
        BiomeId::SparseJungle => 10,
        BiomeId::BambooJungle => 11,
        BiomeId::Beach => 12,
        BiomeId::MushroomFields => 13,
        BiomeId::River => 14,
        BiomeId::Ocean => 15,
        BiomeId::DeepOcean => 16,
        BiomeId::WarmOcean => 17,
        BiomeId::ColdOcean => 18,
        BiomeId::FrozenOcean => 19,
        BiomeId::Taiga => 20,
        BiomeId::OldGrowthPineTaiga => 21,
        BiomeId::OldGrowthSpruceTaiga => 22,
        BiomeId::SnowyPlains => 23,
        BiomeId::IceSpikes => 24,
        BiomeId::SnowyTaiga => 25,
        BiomeId::SnowyBeach => 26,
        BiomeId::FrozenRiver => 27,
        BiomeId::Desert => 30,
        BiomeId::Savanna => 31,
        BiomeId::SavannaPlateau => 32,
        BiomeId::Badlands => 33,
        BiomeId::ErodedBadlands => 34,
        BiomeId::WoodedBadlands => 35,
        BiomeId::WindsweptHills => 40,
        BiomeId::WindsweptGravellyHills => 41,
        BiomeId::WindsweptForest => 42,
        BiomeId::Meadow => 43,
        BiomeId::Grove => 44,
        BiomeId::SnowySlopes => 45,
        BiomeId::JaggedPeaks => 46,
        BiomeId::FrozenPeaks => 47,
        BiomeId::StonyPeaks => 48,
        BiomeId::DripstoneCaves => 49,
        BiomeId::LushCaves => 50,
        BiomeId::DeepDark => 51,
        BiomeId::SulfurCaves => 54,
        BiomeId::CherryGrove => 52,
        BiomeId::PaleGarden => 53,
        BiomeId::NetherWastes => 60,
        BiomeId::SoulSandValley => 61,
        BiomeId::CrimsonForest => 62,
        BiomeId::WarpedForest => 63,
        BiomeId::BasaltDeltas => 64,
        BiomeId::TheEnd => 70,
        BiomeId::EndHighlands => 71,
        BiomeId::EndMidlands => 72,
        BiomeId::SmallEndIslands => 73,
        BiomeId::EndBarrens => 74,
    }
}

/// The biome with a numeric id, if any.
pub open spec fn biome_of(id: u32) -> Option<BiomeId> {
    if id == 0 {
        Some(BiomeId::Plains)
    } else if id == 1 {
        Some(BiomeId::SunflowerPlains)
    } else if id == 2 {
        Some(BiomeId::Forest)
    } else if id == 3 {
        Some(BiomeId::FlowerForest)
    } else if id == 4 {
        Some(BiomeId::BirchForest)
    } else if id == 5 {
        Some(BiomeId::OldGrowthBirchForest)
    } else if id == 6 {
        Some(BiomeId::DarkForest)
    } else if id == 7 {
        Some(BiomeId::Swamp)
    } else if id == 8 {
        Some(BiomeId::MangroveSwamp)
    } else if id == 9 {
        Some(BiomeId::Jungle)
    } else if id == 10 {
        Some(BiomeId::SparseJungle)
    } else if id == 11 {
        Some(BiomeId::BambooJungle)
    } else if id == 12 {
        Some(BiomeId::Beach)
    } else if id == 13 {
        Some(BiomeId::MushroomFields)
    } else if id == 14 {
        Some(BiomeId::River)
    } else if id == 15 {
        Some(BiomeId::Ocean)
    } else if id == 16 {
        Some(BiomeId::DeepOcean)
    } else if id == 17 {
        Some(BiomeId::WarmOcean)
    } else if id == 18 {
        Some(BiomeId::ColdOcean)
    } else if id == 19 {
        Some(BiomeId::FrozenOcean)
    } else if id == 20 {
        Some(BiomeId::Taiga)
    } else if id == 21 {
        Some(BiomeId::OldGrowthPineTaiga)
    } else if id == 22 {
        Some(BiomeId::OldGrowthSpruceTaiga)
    } else if id == 23 {
        Some(BiomeId::SnowyPlains)
    } else if id == 24 {
        Some(BiomeId::IceSpikes)
    } else if id == 25 {
        Some(BiomeId::SnowyTaiga)
    } else if id == 26 {
        Some(BiomeId::SnowyBeach)
    } else if id == 27 {
        Some(BiomeId::FrozenRiver)
    } else if id == 30 {
        Some(BiomeId::Desert)
    } else if id == 31 {
        Some(BiomeId::Savanna)
    } else if id == 32 {
        Some(BiomeId::SavannaPlateau)
    } else if id == 33 {
        Some(BiomeId::Badlands)
    } else if id == 34 {
        Some(BiomeId::ErodedBadlands)
    } else if id == 35 {
        Some(BiomeId::WoodedBadlands)
    } else if id == 40 {
        Some(BiomeId::WindsweptHills)
    } else if id == 41 {
        Some(BiomeId::WindsweptGravellyHills)
    } else if id == 42 {
        Some(BiomeId::WindsweptForest)
    } else if id == 43 {
        Some(BiomeId::Meadow)
    } else if id == 44 {
        Some(BiomeId::Grove)
    } else if id == 45 {
        Some(BiomeId::SnowySlopes)
    } else if id == 46 {
        Some(BiomeId::JaggedPeaks)
    } else if id == 47 {
        Some(BiomeId::FrozenPeaks)
    } else if id == 48 {
        Some(BiomeId::StonyPeaks)
    } else if id == 49 {
        Some(BiomeId::DripstoneCaves)
    } else if id == 50 {
        Some(BiomeId::LushCaves)
    } else if id == 51 {
        Some(BiomeId::DeepDark)
    } else if id == 54 {
        Some(BiomeId::SulfurCaves)
    } else if id == 52 {
        Some(BiomeId::CherryGrove)
    } else if id == 53 {
        Some(BiomeId::PaleGarden)
    } else if id == 60 {
        Some(BiomeId::NetherWastes)
    } else if id == 61 {
        Some(BiomeId::SoulSandValley)
    } else if id == 62 {
        Some(BiomeId::CrimsonForest)
    } else if id == 63 {
        Some(BiomeId::WarpedForest)
    } else if id == 64 {
        Some(BiomeId::BasaltDeltas)
    } else if id == 70 {
        Some(BiomeId::TheEnd)
    } else if id == 71 {
        Some(BiomeId::EndHighlands)
    } else if id == 72 {
        Some(BiomeId::EndMidlands)
    } else if id == 73 {
        Some(BiomeId::SmallEndIslands)
    } else if id == 74 {
        Some(BiomeId::EndBarrens)
    } else {
        None
    }
}

/// (top, middle, deep) surface block ids of each biome.
pub open spec fn surface_ids(b: BiomeId) -> (u32, u32, u32) {
    match b {
        BiomeId::Plains => (8, 9, 1),
        BiomeId::SunflowerPlains => (8, 9, 1),
        BiomeId::Forest => (8, 9, 1),
        BiomeId::FlowerForest => (8, 9, 1),
        BiomeId::BirchForest => (8, 9, 1),
        BiomeId::OldGrowthBirchForest => (8, 9, 1),
        BiomeId::DarkForest => (8, 9, 1),
        BiomeId::Swamp => (8, 9, 1),
        BiomeId::MangroveSwamp => (8, 9, 1),
        BiomeId::Jungle => (8, 9, 1),
        BiomeId::SparseJungle => (8, 9, 1),
        BiomeId::BambooJungle => (8, 9, 1),
        BiomeId::Beach => (24, 24, 1),
        BiomeId::MushroomFields => (110, 9, 1),
        BiomeId::River => (26, 9, 1),
        BiomeId::Ocean => (26, 1, 1),
        BiomeId::DeepOcean => (26, 1, 1),
        BiomeId::WarmOcean => (26, 1, 1),
        BiomeId::ColdOcean => (26, 1, 1),
        BiomeId::FrozenOcean => (26, 1, 1),
        BiomeId::Taiga => (8, 9, 1),
        BiomeId::OldGrowthPineTaiga => (8, 9, 1),
        BiomeId::OldGrowthSpruceTaiga => (8, 9, 1),
        BiomeId::SnowyPlains => (78, 9, 1),
        BiomeId::IceSpikes => (78, 78, 1),
        BiomeId::SnowyTaiga => (8, 9, 1),
        BiomeId::SnowyBeach => (24, 24, 1),
        BiomeId::FrozenRiver => (26, 9, 1),
        BiomeId::Desert => (24, 24, 1),
        BiomeId::Savanna => (24, 24, 1),
        BiomeId::SavannaPlateau => (24, 24, 1),
        BiomeId::Badlands => (24, 24, 1),
        BiomeId::ErodedBadlands => (24, 24, 1),
        BiomeId::WoodedBadlands => (24, 24, 1),
        BiomeId::WindsweptHills => (1, 1, 1),
        BiomeId::WindsweptGravellyHills => (1, 1, 1),
        BiomeId::WindsweptForest => (1, 1, 1),
        BiomeId::Meadow => (8, 9, 1),
        BiomeId::Grove => (8, 9, 1),
        BiomeId::SnowySlopes => (78, 1, 1),
        BiomeId::JaggedPeaks => (1, 1, 1),
        BiomeId::FrozenPeaks => (78, 1, 1),
        BiomeId::StonyPeaks => (1, 1, 1),
        BiomeId::DripstoneCaves => (1, 1, 1),
        BiomeId::LushCaves => (9, 1, 1),
        BiomeId::DeepDark => (1, 269, 1),
        BiomeId::SulfurCaves => (1240, 1, 269),
        BiomeId::CherryGrove => (8, 9, 1),
        BiomeId::PaleGarden => (8, 9, 1),
        BiomeId::NetherWastes => (87, 87, 87),
        BiomeId::SoulSandValley => (88, 88, 88),
        BiomeId::CrimsonForest => (87, 87, 87),
        BiomeId::WarpedForest => (87, 87, 87),
        BiomeId::BasaltDeltas => (87, 87, 268),
        BiomeId::TheEnd => (121, 121, 121),
        BiomeId::EndHighlands => (121, 121, 121),
        BiomeId::EndMidlands => (121, 121, 121),
        BiomeId::SmallEndIslands => (121, 121, 121),
        BiomeId::EndBarrens => (121, 121, 121),
    }
}

pub open spec fn nether_biome(b: BiomeId) -> bool {
    b == BiomeId::NetherWastes || b == BiomeId::SoulSandValley || b == BiomeId::CrimsonForest || b == BiomeId::WarpedForest || b == BiomeId::BasaltDeltas
}

pub open spec fn end_biome(b: BiomeId) -> bool {
    b == BiomeId::TheEnd || b == BiomeId::EndHighlands || b == BiomeId::EndMidlands || b == BiomeId::SmallEndIslands || b == BiomeId::EndBarrens
}

pub open spec fn ocean_biome(b: BiomeId) -> bool {
    b == BiomeId::Ocean || b == BiomeId::DeepOcean || b == BiomeId::WarmOcean || b == BiomeId::ColdOcean || b == BiomeId::FrozenOcean
}

impl BiomeId {
    pub fn from_id(id: u32) -> (r: Option<BiomeId>)
        ensures
            r == biome_of(id),
    {
        match id {
            0 => Some(BiomeId::Plains),
            1 => Some(BiomeId::SunflowerPlains),
            2 => Some(BiomeId::Forest),
            3 => Some(BiomeId::FlowerForest),
            4 => Some(BiomeId::BirchForest),
            5 => Some(BiomeId::OldGrowthBirchForest),
            6 => Some(BiomeId::DarkForest),
            7 => Some(BiomeId::Swamp),
            8 => Some(BiomeId::MangroveSwamp),
            9 => Some(BiomeId::Jungle),
            10 => Some(BiomeId::SparseJungle),
            11 => Some(BiomeId::BambooJungle),
            12 => Some(BiomeId::Beach),
            13 => Some(BiomeId::MushroomFields),
            14 => Some(BiomeId::River),
            15 => Some(BiomeId::Ocean),
            16 => Some(BiomeId::DeepOcean),
            17 => Some(BiomeId::WarmOcean),
            18 => Some(BiomeId::ColdOcean),
            19 => Some(BiomeId::FrozenOcean),
            20 => Some(BiomeId::Taiga),
            21 => Some(BiomeId::OldGrowthPineTaiga),
            22 => Some(BiomeId::OldGrowthSpruceTaiga),
            23 => Some(BiomeId::SnowyPlains),
            24 => Some(BiomeId::IceSpikes),
            25 => Some(BiomeId::SnowyTaiga),
            26 => Some(BiomeId::SnowyBeach),
            27 => Some(BiomeId::FrozenRiver),
            30 => Some(BiomeId::Desert),
            31 => Some(BiomeId::Savanna),
            32 => Some(BiomeId::SavannaPlateau),
            33 => Some(BiomeId::Badlands),
            34 => Some(BiomeId::ErodedBadlands),
            35 => Some(BiomeId::WoodedBadlands),
            40 => Some(BiomeId::WindsweptHills),
            41 => Some(BiomeId::WindsweptGravellyHills),
            42 => Some(BiomeId::WindsweptForest),
            43 => Some(BiomeId::Meadow),
            44 => Some(BiomeId::Grove),
            45 => Some(BiomeId::SnowySlopes),
            46 => Some(BiomeId::JaggedPeaks),
            47 => Some(BiomeId::FrozenPeaks),
            48 => Some(BiomeId::StonyPeaks),
            49 => Some(BiomeId::DripstoneCaves),
            50 => Some(BiomeId::LushCaves),
            51 => Some(BiomeId::DeepDark),
            54 => Some(BiomeId::SulfurCaves),
            52 => Some(BiomeId::CherryGrove),
            53 => Some(BiomeId::PaleGarden),
            60 => Some(BiomeId::NetherWastes),
            61 => Some(BiomeId::SoulSandValley),
            62 => Some(BiomeId::CrimsonForest),
            63 => Some(BiomeId::WarpedForest),
            64 => Some(BiomeId::BasaltDeltas),
            70 => Some(BiomeId::TheEnd),
            71 => Some(BiomeId::EndHighlands),
            72 => Some(BiomeId::EndMidlands),
            73 => Some(BiomeId::SmallEndIslands),
            74 => Some(BiomeId::EndBarrens),
            _ => None,
        }
    }

    pub fn id(self) -> (r: u32)
        ensures
            r == biome_number(self),
    {
        match self {
            BiomeId::Plains => 0,
            BiomeId::SunflowerPlains => 1,
            BiomeId::Forest => 2,
            BiomeId::FlowerForest => 3,
            BiomeId::BirchForest => 4,
            BiomeId::OldGrowthBirchForest => 5,
            BiomeId::DarkForest => 6,
            BiomeId::Swamp => 7,
            BiomeId::MangroveSwamp => 8,
            BiomeId::Jungle => 9,
            BiomeId::SparseJungle => 10,
            BiomeId::BambooJungle => 11,
            BiomeId::Beach => 12,
            BiomeId::MushroomFields => 13,
            BiomeId::River => 14,
            BiomeId::Ocean => 15,
            BiomeId::DeepOcean => 16,
            BiomeId::WarmOcean => 17,
            BiomeId::ColdOcean => 18,
            BiomeId::FrozenOcean => 19,
            BiomeId::Taiga => 20,
            BiomeId::OldGrowthPineTaiga => 21,
            BiomeId::OldGrowthSpruceTaiga => 22,
            BiomeId::SnowyPlains => 23,
            BiomeId::IceSpikes => 24,
            BiomeId::SnowyTaiga => 25,
            BiomeId::SnowyBeach => 26,
            BiomeId::FrozenRiver => 27,
            BiomeId::Desert => 30,
            BiomeId::Savanna => 31,
            BiomeId::SavannaPlateau => 32,
            BiomeId::Badlands => 33,
            BiomeId::ErodedBadlands => 34,
            BiomeId::WoodedBadlands => 35,
            BiomeId::WindsweptHills => 40,
            BiomeId::WindsweptGravellyHills => 41,
            BiomeId::WindsweptForest => 42,
            BiomeId::Meadow => 43,
            BiomeId::Grove => 44,
            BiomeId::SnowySlopes => 45,
            BiomeId::JaggedPeaks => 46,
            BiomeId::FrozenPeaks => 47,
            BiomeId::StonyPeaks => 48,
            BiomeId::DripstoneCaves => 49,
            BiomeId::LushCaves => 50,
            BiomeId::DeepDark => 51,
            BiomeId::SulfurCaves => 54,
            BiomeId::CherryGrove => 52,
            BiomeId::PaleGarden => 53,
            BiomeId::NetherWastes => 60,
            BiomeId::SoulSandValley => 61,
            BiomeId::CrimsonForest => 62,
            BiomeId::WarpedForest => 63,
            BiomeId::BasaltDeltas => 64,
            BiomeId::TheEnd => 70,
            BiomeId::EndHighlands => 71,
            BiomeId::EndMidlands => 72,
            BiomeId::SmallEndIslands => 73,
            BiomeId::EndBarrens => 74,
        }
    }

    /// (top, middle, deep) surface blocks.
    pub fn surface_blocks(self) -> (r: (BlockState, BlockState, BlockState))
        ensures
            r.0 == BlockState::new_spec(surface_ids(self).0),
            r.1 == BlockState::new_spec(surface_ids(self).1),
            r.2 == BlockState::new_spec(surface_ids(self).2),
    {
        let (a, b, c): (u32, u32, u32) = match self {
            BiomeId::Plains => (8, 9, 1),
            BiomeId::SunflowerPlains => (8, 9, 1),
            BiomeId::Forest => (8, 9, 1),
            BiomeId::FlowerForest => (8, 9, 1),
            BiomeId::BirchForest => (8, 9, 1),
            BiomeId::OldGrowthBirchForest => (8, 9, 1),
            BiomeId::DarkForest => (8, 9, 1),
            BiomeId::Swamp => (8, 9, 1),
            BiomeId::MangroveSwamp => (8, 9, 1),
            BiomeId::Jungle => (8, 9, 1),
            BiomeId::SparseJungle => (8, 9, 1),
            BiomeId::BambooJungle => (8, 9, 1),
            BiomeId::Beach => (24, 24, 1),
            BiomeId::MushroomFields => (110, 9, 1),
            BiomeId::River => (26, 9, 1),
            BiomeId::Ocean => (26, 1, 1),
            BiomeId::DeepOcean => (26, 1, 1),
            BiomeId::WarmOcean => (26, 1, 1),
            BiomeId::ColdOcean => (26, 1, 1),
            BiomeId::FrozenOcean => (26, 1, 1),
            BiomeId::Taiga => (8, 9, 1),
            BiomeId::OldGrowthPineTaiga => (8, 9, 1),
            BiomeId::OldGrowthSpruceTaiga => (8, 9, 1),
            BiomeId::SnowyPlains => (78, 9, 1),
            BiomeId::IceSpikes => (78, 78, 1),
            BiomeId::SnowyTaiga => (8, 9, 1),
            BiomeId::SnowyBeach => (24, 24, 1),
            BiomeId::FrozenRiver => (26, 9, 1),
            BiomeId::Desert => (24, 24, 1),
            BiomeId::Savanna => (24, 24, 1),
            BiomeId::SavannaPlateau => (24, 24, 1),
            BiomeId::Badlands => (24, 24, 1),
            BiomeId::ErodedBadlands => (24, 24, 1),
            BiomeId::WoodedBadlands => (24, 24, 1),
            BiomeId::WindsweptHills => (1, 1, 1),
            BiomeId::WindsweptGravellyHills => (1, 1, 1),
            BiomeId::WindsweptForest => (1, 1, 1),
            BiomeId::Meadow => (8, 9, 1),
            BiomeId::Grove => (8, 9, 1),
            BiomeId::SnowySlopes => (78, 1, 1),
            BiomeId::JaggedPeaks => (1, 1, 1),
            BiomeId::FrozenPeaks => (78, 1, 1),
            BiomeId::StonyPeaks => (1, 1, 1),
            BiomeId::DripstoneCaves => (1, 1, 1),
            BiomeId::LushCaves => (9, 1, 1),
            BiomeId::DeepDark => (1, 269, 1),
            BiomeId::SulfurCaves => (1240, 1, 269),
            BiomeId::CherryGrove => (8, 9, 1),
            BiomeId::PaleGarden => (8, 9, 1),
            BiomeId::NetherWastes => (87, 87, 87),
            BiomeId::SoulSandValley => (88, 88, 88),
            BiomeId::CrimsonForest => (87, 87, 87),
            BiomeId::WarpedForest => (87, 87, 87),
            BiomeId::BasaltDeltas => (87, 87, 268),
            BiomeId::TheEnd => (121, 121, 121),
            BiomeId::EndHighlands => (121, 121, 121),
            BiomeId::EndMidlands => (121, 121, 121),
            BiomeId::SmallEndIslands => (121, 121, 121),
            BiomeId::EndBarrens => (121, 121, 121),
        };
        (BlockState::new(a), BlockState::new(b), BlockState::new(c))
    }

    pub fn is_nether(self) -> (r: bool)
        ensures
            r == nether_biome(self),
    {
        match self {
            BiomeId::NetherWastes | BiomeId::SoulSandValley | BiomeId::CrimsonForest | BiomeId::WarpedForest | BiomeId::BasaltDeltas => true,
            _ => false,
        }
    }

    pub fn is_end(self) -> (r: bool)
        ensures
            r == end_biome(self),
    {
        match self {
            BiomeId::TheEnd | BiomeId::EndHighlands | BiomeId::EndMidlands | BiomeId::SmallEndIslands | BiomeId::EndBarrens => true,
            _ => false,
        }
    }

    pub fn is_ocean(self) -> (r: bool)
        ensures
            r == ocean_biome(self),
    {
        match self {
            BiomeId::Ocean | BiomeId::DeepOcean | BiomeId::WarmOcean | BiomeId::ColdOcean | BiomeId::FrozenOcean => true,
            _ => false,
        }
    }

}

/// `from_id` undoes `id`; every id that `from_id` accepts is the id of the biome it gives.
pub proof fn biome_id_round_trip(b: BiomeId, n: u32)
    ensures
        biome_of(biome_number(b)) == Some(b),
        biome_of(n) matches Some(k) ==> biome_number(k) == n,
{
}

/// No biome is in more than one of the nether, end and ocean groups.
pub proof fn biome_groups_disjoint(b: BiomeId)
    ensures
        !(nether_biome(b) && end_biome(b)),
        !(nether_biome(b) && ocean_biome(b)),
        !(end_biome(b) && ocean_biome(b)),
{
}

} // verus!
