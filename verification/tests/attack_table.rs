use fight_core::combat::attack_profile;
use fight_core::player::{AttackType, FacingDirection};

#[test]
fn heavy_right_profile_matches_table() {
    let p = attack_profile(AttackType::Heavy, FacingDirection::Right);
    assert_eq!(p.offset_x, 70);
    assert_eq!(p.offset_y, 0);
    assert_eq!(p.width, 80);
    assert_eq!(p.height, 45);
    assert_eq!(p.damage, 8);
    assert_eq!(p.lifetime_ms, 200);
    assert_eq!(AttackType::Heavy.cooldown_ms(), 400);
}

#[test]
fn heavy_left_profile_flips_offset() {
    let p = attack_profile(AttackType::Heavy, FacingDirection::Left);
    assert_eq!(p.offset_x, -70);
    assert_eq!(p.offset_y, 0);
    assert_eq!(p.width, 80);
    assert_eq!(p.height, 45);
    assert_eq!(p.damage, 8);
    assert_eq!(p.lifetime_ms, 200);
}

#[test]
fn light_profile_matches_table() {
    let r = attack_profile(AttackType::Light, FacingDirection::Right);
    assert_eq!(
        (r.offset_x, r.offset_y, r.width, r.height, r.damage, r.lifetime_ms),
        (55, 0, 60, 35, 3, 120)
    );
    let l = attack_profile(AttackType::Light, FacingDirection::Left);
    assert_eq!(l.offset_x, -55);
    assert_eq!(AttackType::Light.cooldown_ms(), 250);
}

#[test]
fn kick_profile_matches_table() {
    let r = attack_profile(AttackType::Kick, FacingDirection::Right);
    assert_eq!(
        (r.offset_x, r.offset_y, r.width, r.height, r.damage, r.lifetime_ms),
        (65, -10, 70, 40, 5, 160)
    );
    let l = attack_profile(AttackType::Kick, FacingDirection::Left);
    assert_eq!((l.offset_x, l.offset_y), (-65, -10));
    assert_eq!(AttackType::Kick.cooldown_ms(), 300);
}
