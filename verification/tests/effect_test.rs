use apoptotic::effect::{resolve_effect, EffectType};

#[test]
fn test_effect_ids() {
    assert_eq!(EffectType::Speed.id(), 0);
    assert_eq!(EffectType::InstantHealth.id(), 5);
    assert_eq!(EffectType::Darkness.id(), 32);
    assert_eq!(EffectType::BreathOfTheNautilus.id(), 39);
}

#[test]
fn test_from_id_roundtrip() {
    for id in 0..=39u8 {
        let e = EffectType::from_id(id);
        assert!(e.is_some(), "Effect ID {} should resolve", id);
        assert_eq!(e.unwrap().id(), id);
    }
}

#[test]
fn test_resolve() {
    assert_eq!(resolve_effect("speed"), Some(EffectType::Speed));
    assert_eq!(resolve_effect("trial_omen"), Some(EffectType::TrialOmen));
    assert!(resolve_effect("nonexistent").is_none());
}

#[test]
fn instant_effects_are_classified() {
    assert!(EffectType::InstantHealth.is_instant());
    assert!(EffectType::InstantDamage.is_instant());
    assert!(!EffectType::Speed.is_instant());
    assert!(EffectType::InstantHealth.is_beneficial());
    assert!(!EffectType::InstantDamage.is_beneficial());
    assert!(EffectType::from_id(40).is_none());
}
