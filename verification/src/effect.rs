//! Status effects: protocol ids, classification and name lookup.

use vstd::prelude::*;
use crate::text::{lowercase, str_eq, to_lowercase};

verus! {

/// A status effect (40 in all).
#[derive(Debug, Clone, Copy, PartialEq, Eq, Hash, Structural)]
pub enum EffectType {
    Speed,
    Slowness,
    Haste,
    MiningFatigue,
    Strength,
    InstantHealth,
    InstantDamage,
    JumpBoost,
    Nausea,
    Regeneration,
    Resistance,
    FireResistance,
    WaterBreathing,
    Invisibility,
    Blindness,
    NightVision,
    Hunger,
    Weakness,
    Poison,
    Wither,
    HealthBoost,
    Absorption,
    Saturation,
    Glowing,
    Levitation,
    Luck,
    Unluck,
    SlowFalling,
    ConduitPower,
    DolphinGrace,
    BadOmen,
    HeroOfTheVillage,
    Darkness,
    TrialOmen,
    RaidOmen,
    WindCharged,
    Weaving,
    Oozing,
    Infested,
    BreathOfTheNautilus,
}

/// Protocol id of each effect.
pub open spec fn effect_number(e: EffectType) -> u8 {
    match e {
        EffectType::Speed => 0,
        EffectType::Slowness => 1,
        EffectType::Haste => 2,
        EffectType::MiningFatigue => 3,
        EffectType::Strength => 4,
        EffectType::InstantHealth => 5,
        EffectType::InstantDamage => 6,
        EffectType::JumpBoost => 7,
        EffectType::Nausea => 8,
        EffectType::Regeneration => 9,
        EffectType::Resistance => 10,
        EffectType::FireResistance => 11,
        EffectType::WaterBreathing => 12,
        EffectType::Invisibility => 13,
        EffectType::Blindness => 14,
        EffectType::NightVision => 15,
        EffectType::Hunger => 16,
        EffectType::Weakness => 17,
        EffectType::Poison => 18,
        EffectType::Wither => 19,
        EffectType::HealthBoost => 20,
        EffectType::Absorption => 21,
        EffectType::Saturation => 22,
        EffectType::Glowing => 23,
        EffectType::Levitation => 24,
        EffectType::Luck => 25,
        EffectType::Unluck => 26,
        EffectType::SlowFalling => 27,
        EffectType::ConduitPower => 28,
        EffectType::DolphinGrace => 29,
        EffectType::BadOmen => 30,
        EffectType::HeroOfTheVillage => 31,
        EffectType::Darkness => 32,
        EffectType::TrialOmen => 33,
        EffectType::RaidOmen => 34,
        EffectType::WindCharged => 35,
        EffectType::Weaving => 36,
        EffectType::Oozing => 37,
        EffectType::Infested => 38,
        EffectType::BreathOfTheNautilus => 39,
    }
}

/// The effect with a protocol id, if any.
pub open spec fn effect_of(id: u8) -> Option<EffectType> {
    if id == 0 {
        Some(EffectType::Speed)
    } else if id == 1 {
        Some(EffectType::Slowness)
    } else if id == 2 {
        Some(EffectType::Haste)
    } else if id == 3 {
        Some(EffectType::MiningFatigue)
    } else if id == 4 {
        Some(EffectType::Strength)
    } else if id == 5 {
        Some(EffectType::InstantHealth)
    } else if id == 6 {
        Some(EffectType::InstantDamage)
    } else if id == 7 {
        Some(EffectType::JumpBoost)
    } else if id == 8 {
        Some(EffectType::Nausea)
    } else if id == 9 {
        Some(EffectType::Regeneration)
    } else if id == 10 {
        Some(EffectType::Resistance)
    } else if id == 11 {
        Some(EffectType::FireResistance)
    } else if id == 12 {
        Some(EffectType::WaterBreathing)
    } else if id == 13 {
        Some(EffectType::Invisibility)
    } else if id == 14 {
        Some(EffectType::Blindness)
    } else if id == 15 {
        Some(EffectType::NightVision)
    } else if id == 16 {
        Some(EffectType::Hunger)
    } else if id == 17 {
        Some(EffectType::Weakness)
    } else if id == 18 {
        Some(EffectType::Poison)
    } else if id == 19 {
        Some(EffectType::Wither)
    } else if id == 20 {
        Some(EffectType::HealthBoost)
    } else if id == 21 {
        Some(EffectType::Absorption)
    } else if id == 22 {
        Some(EffectType::Saturation)
    } else if id == 23 {
        Some(EffectType::Glowing)
    } else if id == 24 {
        Some(EffectType::Levitation)
    } else if id == 25 {
        Some(EffectType::Luck)
    } else if id == 26 {
        Some(EffectType::Unluck)
    } else if id == 27 {
        Some(EffectType::SlowFalling)
    } else if id == 28 {
        Some(EffectType::ConduitPower)
    } else if id == 29 {
        Some(EffectType::DolphinGrace)
    } else if id == 30 {
        Some(EffectType::BadOmen)
    } else if id == 31 {
        Some(EffectType::HeroOfTheVillage)
    } else if id == 32 {
        Some(EffectType::Darkness)
    } else if id == 33 {
        Some(EffectType::TrialOmen)
    } else if id == 34 {
        Some(EffectType::RaidOmen)
    } else if id == 35 {
        Some(EffectType::WindCharged)
    } else if id == 36 {
        Some(EffectType::Weaving)
    } else if id == 37 {
        Some(EffectType::Oozing)
    } else if id == 38 {
        Some(EffectType::Infested)
    } else if id == 39 {
        Some(EffectType::BreathOfTheNautilus)
    } else {
        None
    }
}

/// Effects that are applied at once rather than over time.
pub open spec fn instant_effect(e: EffectType) -> bool {
    e == EffectType::InstantHealth || e == EffectType::InstantDamage
}

/// Effects that are not harmful to the one who has them.
pub open spec fn beneficial_effect(e: EffectType) -> bool {
    !(e == EffectType::Slowness || e == EffectType::MiningFatigue || e == EffectType::InstantDamage || e == EffectType::Nausea || e == EffectType::Blindness || e == EffectType::Hunger || e == EffectType::Weakness || e == EffectType::Poison || e == EffectType::Wither || e == EffectType::Unluck || e == EffectType::Darkness || e == EffectType::BadOmen || e == EffectType::TrialOmen || e == EffectType::RaidOmen || e == EffectType::WindCharged || e == EffectType::Weaving || e == EffectType::Oozing || e == EffectType::Infested)
}

/// The effect that a lower-case name or alias stands for.
pub open spec fn effect_named(s: Seq<char>) -> Option<EffectType> {
    if s == "speed"@ {
        Some(EffectType::Speed)
    } else if s == "slowness"@ {
        Some(EffectType::Slowness)
    } else if s == "haste"@ {
        Some(EffectType::Haste)
    } else if s == "mining_fatigue"@ {
        Some(EffectType::MiningFatigue)
    } else if s == "miningfatigue"@ {
        Some(EffectType::MiningFatigue)
    } else if s == "strength"@ {
        Some(EffectType::Strength)
    } else if s == "instant_health"@ {
        Some(EffectType::InstantHealth)
    } else if s == "instanthealth"@ {
        Some(EffectType::InstantHealth)
    } else if s == "heal"@ {
        Some(EffectType::InstantHealth)
    } else if s == "instant_damage"@ {
        Some(EffectType::InstantDamage)
    } else if s == "instantdamage"@ {
        Some(EffectType::InstantDamage)
    } else if s == "harm"@ {
        Some(EffectType::InstantDamage)
    } else if s == "jump_boost"@ {
        Some(EffectType::JumpBoost)
    } else if s == "jumpboost"@ {
        Some(EffectType::JumpBoost)
    } else if s == "nausea"@ {
        Some(EffectType::Nausea)
    } else if s == "regeneration"@ {
        Some(EffectType::Regeneration)
    } else if s == "regen"@ {
        Some(EffectType::Regeneration)
    } else if s == "resistance"@ {
        Some(EffectType::Resistance)
    } else if s == "fire_resistance"@ {
        Some(EffectType::FireResistance)
    } else if s == "fireresistance"@ {
        Some(EffectType::FireResistance)
    } else if s == "water_breathing"@ {
        Some(EffectType::WaterBreathing)
    } else if s == "waterbreathing"@ {
        Some(EffectType::WaterBreathing)
    } else if s == "invisibility"@ {
        Some(EffectType::Invisibility)
    } else if s == "invis"@ {
        Some(EffectType::Invisibility)
    } else if s == "blindness"@ {
        Some(EffectType::Blindness)
    } else if s == "night_vision"@ {
        Some(EffectType::NightVision)
    } else if s == "nightvision"@ {
        Some(EffectType::NightVision)
    } else if s == "hunger"@ {
        Some(EffectType::Hunger)
    } else if s == "weakness"@ {
        Some(EffectType::Weakness)
    } else if s == "poison"@ {
        Some(EffectType::Poison)
    } else if s == "wither"@ {
        Some(EffectType::Wither)
    } else if s == "health_boost"@ {
        Some(EffectType::HealthBoost)
    } else if s == "healthboost"@ {
        Some(EffectType::HealthBoost)
    } else if s == "absorption"@ {
        Some(EffectType::Absorption)
    } else if s == "saturation"@ {
        Some(EffectType::Saturation)
    } else if s == "glowing"@ {
        Some(EffectType::Glowing)
    } else if s == "levitation"@ {
        Some(EffectType::Levitation)
    } else if s == "luck"@ {
        Some(EffectType::Luck)
    } else if s == "unluck"@ {
        Some(EffectType::Unluck)
    } else if s == "slow_falling"@ {
        Some(EffectType::SlowFalling)
    } else if s == "slowfalling"@ {
        Some(EffectType::SlowFalling)
    } else if s == "conduit_power"@ {
        Some(EffectType::ConduitPower)
    } else if s == "conduitpower"@ {
        Some(EffectType::ConduitPower)
    } else if s == "dolphin_grace"@ {
        Some(EffectType::DolphinGrace)
    } else if s == "dolphinsgrace"@ {
        Some(EffectType::DolphinGrace)
    } else if s == "bad_omen"@ {
        Some(EffectType::BadOmen)
    } else if s == "badomen"@ {
        Some(EffectType::BadOmen)
    } else if s == "hero_of_the_village"@ {
        Some(EffectType::HeroOfTheVillage)
    } else if s == "heroofthevillage"@ {
        Some(EffectType::HeroOfTheVillage)
    } else if s == "darkness"@ {
        Some(EffectType::Darkness)
    } else if s == "trial_omen"@ {
        Some(EffectType::TrialOmen)
    } else if s == "raid_omen"@ {
        Some(EffectType::RaidOmen)
    } else if s == "wind_charged"@ {
        Some(EffectType::WindCharged)
    } else if s == "weaving"@ {
        Some(EffectType::Weaving)
    } else if s == "oozing"@ {
        Some(EffectType::Oozing)
    } else if s == "infested"@ {
        Some(EffectType::Infested)
    } else if s == "breath_of_the_nautilus"@ {
        Some(EffectType::BreathOfTheNautilus)
    } else {
        None
    }
}

/// Debug name of each effect (its variant name).
pub open spec fn effect_label(e: EffectType) -> Seq<char> {
    match e {
        EffectType::Speed => "Speed"@,
        EffectType::Slowness => "Slowness"@,
        EffectType::Haste => "Haste"@,
        EffectType::MiningFatigue => "MiningFatigue"@,
        EffectType::Strength => "Strength"@,
        EffectType::InstantHealth => "InstantHealth"@,
        EffectType::InstantDamage => "InstantDamage"@,
        EffectType::JumpBoost => "JumpBoost"@,
        EffectType::Nausea => "Nausea"@,
        EffectType::Regeneration => "Regeneration"@,
        EffectType::Resistance => "Resistance"@,
        EffectType::FireResistance => "FireResistance"@,
        EffectType::WaterBreathing => "WaterBreathing"@,
        EffectType::Invisibility => "Invisibility"@,
        EffectType::Blindness => "Blindness"@,
        EffectType::NightVision => "NightVision"@,
        EffectType::Hunger => "Hunger"@,
        EffectType::Weakness => "Weakness"@,
        EffectType::Poison => "Poison"@,
        EffectType::Wither => "Wither"@,
        EffectType::HealthBoost => "HealthBoost"@,
        EffectType::Absorption => "Absorption"@,
        EffectType::Saturation => "Saturation"@,
        EffectType::Glowing => "Glowing"@,
        EffectType::Levitation => "Levitation"@,
        EffectType::Luck => "Luck"@,
        EffectType::Unluck => "Unluck"@,
        EffectType::SlowFalling => "SlowFalling"@,
        EffectType::ConduitPower => "ConduitPower"@,
        EffectType::DolphinGrace => "DolphinGrace"@,
        EffectType::BadOmen => "BadOmen"@,
        EffectType::HeroOfTheVillage => "HeroOfTheVillage"@,
        EffectType::Darkness => "Darkness"@,
        EffectType::TrialOmen => "TrialOmen"@,
        EffectType::RaidOmen => "RaidOmen"@,
        EffectType::WindCharged => "WindCharged"@,
        EffectType::Weaving => "Weaving"@,
        EffectType::Oozing => "Oozing"@,
        EffectType::Infested => "Infested"@,
        EffectType::BreathOfTheNautilus => "BreathOfTheNautilus"@,
    }
}

impl EffectType {
    pub fn from_id(id: u8) -> (r: Option<EffectType>)
        ensures
            r == effect_of(id),
    {
        match id {
            0 => Some(EffectType::Speed),
            1 => Some(EffectType::Slowness),
            2 => Some(EffectType::Haste),
            3 => Some(EffectType::MiningFatigue),
            4 => Some(EffectType::Strength),
            5 => Some(EffectType::InstantHealth),
            6 => Some(EffectType::InstantDamage),
            7 => Some(EffectType::JumpBoost),
            8 => Some(EffectType::Nausea),
            9 => Some(EffectType::Regeneration),
            10 => Some(EffectType::Resistance),
            11 => Some(EffectType::FireResistance),
            12 => Some(EffectType::WaterBreathing),
            13 => Some(EffectType::Invisibility),
            14 => Some(EffectType::Blindness),
            15 => Some(EffectType::NightVision),
            16 => Some(EffectType::Hunger),
            17 => Some(EffectType::Weakness),
            18 => Some(EffectType::Poison),
            19 => Some(EffectType::Wither),
            20 => Some(EffectType::HealthBoost),
            21 => Some(EffectType::Absorption),
            22 => Some(EffectType::Saturation),
            23 => Some(EffectType::Glowing),
            24 => Some(EffectType::Levitation),
            25 => Some(EffectType::Luck),
            26 => Some(EffectType::Unluck),
            27 => Some(EffectType::SlowFalling),
            28 => Some(EffectType::ConduitPower),
            29 => Some(EffectType::DolphinGrace),
            30 => Some(EffectType::BadOmen),
            31 => Some(EffectType::HeroOfTheVillage),
            32 => Some(EffectType::Darkness),
            33 => Some(EffectType::TrialOmen),
            34 => Some(EffectType::RaidOmen),
            35 => Some(EffectType::WindCharged),
            36 => Some(EffectType::Weaving),
            37 => Some(EffectType::Oozing),
            38 => Some(EffectType::Infested),
            39 => Some(EffectType::BreathOfTheNautilus),
            _ => None,
        }
    }

    pub fn id(&self) -> (r: u8)
        ensures
            r == effect_number(*self),
    {
        match self {
            EffectType::Speed => 0,
            EffectType::Slowness => 1,
            EffectType::Haste => 2,
            EffectType::MiningFatigue => 3,
            EffectType::Strength => 4,
            EffectType::InstantHealth => 5,
            EffectType::InstantDamage => 6,
            EffectType::JumpBoost => 7,
            EffectType::Nausea => 8,
            EffectType::Regeneration => 9,
            EffectType::Resistance => 10,
            EffectType::FireResistance => 11,
            EffectType::WaterBreathing => 12,
            EffectType::Invisibility => 13,
            EffectType::Blindness => 14,
            EffectType::NightVision => 15,
            EffectType::Hunger => 16,
            EffectType::Weakness => 17,
            EffectType::Poison => 18,
            EffectType::Wither => 19,
            EffectType::HealthBoost => 20,
            EffectType::Absorption => 21,
            EffectType::Saturation => 22,
            EffectType::Glowing => 23,
            EffectType::Levitation => 24,
            EffectType::Luck => 25,
            EffectType::Unluck => 26,
            EffectType::SlowFalling => 27,
            EffectType::ConduitPower => 28,
            EffectType::DolphinGrace => 29,
            EffectType::BadOmen => 30,
            EffectType::HeroOfTheVillage => 31,
            EffectType::Darkness => 32,
            EffectType::TrialOmen => 33,
            EffectType::RaidOmen => 34,
            EffectType::WindCharged => 35,
            EffectType::Weaving => 36,
            EffectType::Oozing => 37,
            EffectType::Infested => 38,
            EffectType::BreathOfTheNautilus => 39,
        }
    }

    pub fn is_instant(&self) -> (r: bool)
        ensures
            r == instant_effect(*self),
    {
        match self {
            EffectType::InstantHealth | EffectType::InstantDamage => true,
            _ => false,
        }
    }

    pub fn is_beneficial(&self) -> (r: bool)
        ensures
            r == beneficial_effect(*self),
    {
        match self {
            EffectType::Slowness | EffectType::MiningFatigue | EffectType::InstantDamage | EffectType::Nausea | EffectType::Blindness | EffectType::Hunger | EffectType::Weakness | EffectType::Poison | EffectType::Wither | EffectType::Unluck | EffectType::Darkness | EffectType::BadOmen | EffectType::TrialOmen | EffectType::RaidOmen | EffectType::WindCharged | EffectType::Weaving | EffectType::Oozing | EffectType::Infested => false,
            _ => true,
        }
    }

    /// The text that formatting the effect shows (its variant name).
    pub fn to_string(&self) -> (r: String)
        ensures
            r@ == effect_label(*self),
    {
        match self {
            EffectType::Speed => String::from_str("Speed"),
            EffectType::Slowness => String::from_str("Slowness"),
            EffectType::Haste => String::from_str("Haste"),
            EffectType::MiningFatigue => String::from_str("MiningFatigue"),
            EffectType::Strength => String::from_str("Strength"),
            EffectType::InstantHealth => String::from_str("InstantHealth"),
            EffectType::InstantDamage => String::from_str("InstantDamage"),
            EffectType::JumpBoost => String::from_str("JumpBoost"),
            EffectType::Nausea => String::from_str("Nausea"),
            EffectType::Regeneration => String::from_str("Regeneration"),
            EffectType::Resistance => String::from_str("Resistance"),
            EffectType::FireResistance => String::from_str("FireResistance"),
            EffectType::WaterBreathing => String::from_str("WaterBreathing"),
            EffectType::Invisibility => String::from_str("Invisibility"),
            EffectType::Blindness => String::from_str("Blindness"),
            EffectType::NightVision => String::from_str("NightVision"),
            EffectType::Hunger => String::from_str("Hunger"),
            EffectType::Weakness => String::from_str("Weakness"),
            EffectType::Poison => String::from_str("Poison"),
            EffectType::Wither => String::from_str("Wither"),
            EffectType::HealthBoost => String::from_str("HealthBoost"),
            EffectType::Absorption => String::from_str("Absorption"),
            EffectType::Saturation => String::from_str("Saturation"),
            EffectType::Glowing => String::from_str("Glowing"),
            EffectType::Levitation => String::from_str("Levitation"),
            EffectType::Luck => String::from_str("Luck"),
            EffectType::Unluck => String::from_str("Unluck"),
            EffectType::SlowFalling => String::from_str("SlowFalling"),
            EffectType::ConduitPower => String::from_str("ConduitPower"),
            EffectType::DolphinGrace => String::from_str("DolphinGrace"),
            EffectType::BadOmen => String::from_str("BadOmen"),
            EffectType::HeroOfTheVillage => String::from_str("HeroOfTheVillage"),
            EffectType::Darkness => String::from_str("Darkness"),
            EffectType::TrialOmen => String::from_str("TrialOmen"),
            EffectType::RaidOmen => String::from_str("RaidOmen"),
            EffectType::WindCharged => String::from_str("WindCharged"),
            EffectType::Weaving => String::from_str("Weaving"),
            EffectType::Oozing => String::from_str("Oozing"),
            EffectType::Infested => String::from_str("Infested"),
            EffectType::BreathOfTheNautilus => String::from_str("BreathOfTheNautilus"),
        }
    }
}

/// The effect named by `name`, compared after lower-casing; accepts the
/// snake-case names and a few aliases.
pub fn resolve_effect(name: &str) -> (r: Option<EffectType>)
    ensures
        r == effect_named(lowercase(name@)),
{
    let lower = to_lowercase(name);
    effect_by_lower_name(lower.as_str())
}

/// The effect an already lower-cased name stands for.
pub fn effect_by_lower_name(s: &str) -> (r: Option<EffectType>)
    ensures
        r == effect_named(s@),
{
    if str_eq(s, "speed") {
        Some(EffectType::Speed)
    } else if str_eq(s, "slowness") {
        Some(EffectType::Slowness)
    } else if str_eq(s, "haste") {
        Some(EffectType::Haste)
    } else if str_eq(s, "mining_fatigue") {
        Some(EffectType::MiningFatigue)
    } else if str_eq(s, "miningfatigue") {
        Some(EffectType::MiningFatigue)
    } else if str_eq(s, "strength") {
        Some(EffectType::Strength)
    } else if str_eq(s, "instant_health") {
        Some(EffectType::InstantHealth)
    } else if str_eq(s, "instanthealth") {
        Some(EffectType::InstantHealth)
    } else if str_eq(s, "heal") {
        Some(EffectType::InstantHealth)
    } else if str_eq(s, "instant_damage") {
        Some(EffectType::InstantDamage)
    } else if str_eq(s, "instantdamage") {
        Some(EffectType::InstantDamage)
    } else if str_eq(s, "harm") {
        Some(EffectType::InstantDamage)
    } else if str_eq(s, "jump_boost") {
        Some(EffectType::JumpBoost)
    } else if str_eq(s, "jumpboost") {
        Some(EffectType::JumpBoost)
    } else if str_eq(s, "nausea") {
        Some(EffectType::Nausea)
    } else if str_eq(s, "regeneration") {
        Some(EffectType::Regeneration)
    } else if str_eq(s, "regen") {
        Some(EffectType::Regeneration)
    } else if str_eq(s, "resistance") {
        Some(EffectType::Resistance)
    } else if str_eq(s, "fire_resistance") {
        Some(EffectType::FireResistance)
    } else if str_eq(s, "fireresistance") {
        Some(EffectType::FireResistance)
    } else if str_eq(s, "water_breathing") {
        Some(EffectType::WaterBreathing)
    } else if str_eq(s, "waterbreathing") {
        Some(EffectType::WaterBreathing)
    } else if str_eq(s, "invisibility") {
        Some(EffectType::Invisibility)
    } else if str_eq(s, "invis") {
        Some(EffectType::Invisibility)
    } else if str_eq(s, "blindness") {
        Some(EffectType::Blindness)
    } else if str_eq(s, "night_vision") {
        Some(EffectType::NightVision)
    } else if str_eq(s, "nightvision") {
        Some(EffectType::NightVision)
    } else if str_eq(s, "hunger") {
        Some(EffectType::Hunger)
    } else if str_eq(s, "weakness") {
        Some(EffectType::Weakness)
    } else if str_eq(s, "poison") {
        Some(EffectType::Poison)
    } else if str_eq(s, "wither") {
        Some(EffectType::Wither)
    } else if str_eq(s, "health_boost") {
        Some(EffectType::HealthBoost)
    } else if str_eq(s, "healthboost") {
        Some(EffectType::HealthBoost)
    } else if str_eq(s, "absorption") {
        Some(EffectType::Absorption)
    } else if str_eq(s, "saturation") {
        Some(EffectType::Saturation)
    } else if str_eq(s, "glowing") {
        Some(EffectType::Glowing)
    } else if str_eq(s, "levitation") {
        Some(EffectType::Levitation)
    } else if str_eq(s, "luck") {
        Some(EffectType::Luck)
    } else if str_eq(s, "unluck") {
        Some(EffectType::Unluck)
    } else if str_eq(s, "slow_falling") {
        Some(EffectType::SlowFalling)
    } else if str_eq(s, "slowfalling") {
        Some(EffectType::SlowFalling)
    } else if str_eq(s, "conduit_power") {
        Some(EffectType::ConduitPower)
    } else if str_eq(s, "conduitpower") {
        Some(EffectType::ConduitPower)
    } else if str_eq(s, "dolphin_grace") {
        Some(EffectType::DolphinGrace)
    } else if str_eq(s, "dolphinsgrace") {
        Some(EffectType::DolphinGrace)
    } else if str_eq(s, "bad_omen") {
        Some(EffectType::BadOmen)
    } else if str_eq(s, "badomen") {
        Some(EffectType::BadOmen)
    } else if str_eq(s, "hero_of_the_village") {
        Some(EffectType::HeroOfTheVillage)
    } else if str_eq(s, "heroofthevillage") {
        Some(EffectType::HeroOfTheVillage)
    } else if str_eq(s, "darkness") {
        Some(EffectType::Darkness)
    } else if str_eq(s, "trial_omen") {
        Some(EffectType::TrialOmen)
    } else if str_eq(s, "raid_omen") {
        Some(EffectType::RaidOmen)
    } else if str_eq(s, "wind_charged") {
        Some(EffectType::WindCharged)
    } else if str_eq(s, "weaving") {
        Some(EffectType::Weaving)
    } else if str_eq(s, "oozing") {
        Some(EffectType::Oozing)
    } else if str_eq(s, "infested") {
        Some(EffectType::Infested)
    } else if str_eq(s, "breath_of_the_nautilus") {
        Some(EffectType::BreathOfTheNautilus)
    } else {
        None
    }
}

/// An effect applied to an entity: strength level and remaining time.
#[derive(Debug, Clone)]
pub struct ActiveEffect {
    pub effect: EffectType,
    pub amplifier: u8,
    pub duration_ticks: u32,
}

impl ActiveEffect {
    pub fn new(effect: EffectType, amplifier: u8, duration_ticks: u32) -> (r: ActiveEffect)
        ensures
            r.effect == effect,
            r.amplifier == amplifier,
            r.duration_ticks == duration_ticks,
    {
        ActiveEffect { effect, amplifier, duration_ticks }
    }
}

/// `from_id` undoes `id`, and exactly the ids 0 to 39 name an effect.
pub proof fn effect_id_round_trip(e: EffectType, n: u8)
    ensures
        effect_of(effect_number(e)) == Some(e),
        effect_of(n) matches Some(k) ==> effect_number(k) == n,
        effect_of(n) is Some <==> n < 40,
{
}

} // verus!
