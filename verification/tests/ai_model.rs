use fight_core::ai::{
    ai_attack_decision, ai_base_direction, ai_movement_direction, apply_mood, milli_sin, AiDraws,
};
use fight_core::game_state::{BossType, Difficulty};
use fight_core::player::{AIState, AttackType, Health, update_ai_state};
use fight_core::rng::random_permille;

fn draws() -> AiDraws {
    AiDraws { wander: 500, erratic: 500, attack: 999, kind: 0, jump: 999 }
}

#[test]
fn milli_sin_hits_known_points() {
    assert_eq!(milli_sin(0), 0);
    assert_eq!(milli_sin(1571), 1000);
    assert_eq!(milli_sin(3141), 1);
    assert_eq!(milli_sin(3142), 0);
    assert_eq!(milli_sin(4713), -1000);
    assert_eq!(milli_sin(1000), 840);
    assert_eq!(milli_sin(2000), 908);
    assert_eq!(milli_sin(5000), -958);
    assert_eq!(milli_sin(6283), milli_sin(0));
    assert_eq!(milli_sin(6283 + 1571), 1000);
}

#[test]
fn mood_follows_health_and_clock() {
    assert_eq!(update_ai_state(Health { current: 29, max: 100 }, 5000), AIState::Defensive);
    assert_eq!(update_ai_state(Health { current: 30, max: 100 }, 0), AIState::Erratic);
    assert_eq!(update_ai_state(Health { current: 30, max: 100 }, 2999), AIState::Erratic);
    assert_eq!(update_ai_state(Health { current: 30, max: 100 }, 3000), AIState::Aggressive);
    assert_eq!(update_ai_state(Health { current: 100, max: 100 }, 12999), AIState::Erratic);
    assert_eq!(update_ai_state(Health { current: 100, max: 100 }, 19000), AIState::Aggressive);
}

#[test]
fn use_after_free_always_closes_in() {
    assert_eq!(ai_base_direction(BossType::UseAfterFree, 0, 5, 0), 1000);
    assert_eq!(ai_base_direction(BossType::UseAfterFree, 0, -5, 0), -1000);
    assert_eq!(ai_base_direction(BossType::UseAfterFree, 0, 0, 0), -1000);
}

#[test]
fn buffer_overflow_closes_in_at_half_speed() {
    assert_eq!(ai_base_direction(BossType::BufferOverflow, 0, 7, 0), 500);
    assert_eq!(ai_base_direction(BossType::BufferOverflow, 0, -7, 0), -500);
}

#[test]
fn null_pointer_wanders_late_in_its_cycle() {
    // Past 2.5 s of each 3 s cycle the direction is drawn at random.
    assert_eq!(ai_base_direction(BossType::NullPointer, 2600, 5, 0), -2000);
    assert_eq!(ai_base_direction(BossType::NullPointer, 2600, 5, 999), 1996);
    // Early in the cycle it walks toward the human.
    assert_eq!(ai_base_direction(BossType::NullPointer, 1000, 5, 0), 1000);
    assert_eq!(ai_base_direction(BossType::NullPointer, 1000, -5, 0), -1000);
}

#[test]
fn undefined_behavior_oscillates() {
    assert_eq!(ai_base_direction(BossType::UndefinedBehavior, 1571, 5, 0), 2000);
    assert_eq!(ai_base_direction(BossType::UndefinedBehavior, 4713, 5, 0), -2000);
    assert_eq!(ai_base_direction(BossType::UndefinedBehavior, 0, 5, 0), 0);
}

#[test]
fn data_race_retreats_when_close() {
    // At time 800 the oscillation phase is positive.
    assert_eq!(ai_base_direction(BossType::DataRace, 800, 50, 0), -1000);
    assert_eq!(ai_base_direction(BossType::DataRace, 800, 200, 0), 1000);
    assert_eq!(ai_base_direction(BossType::DataRace, 800, -200, 0), -1000);
    // At time 0 the phase is not positive, so the close-range inversion
    // walks forward.
    assert_eq!(ai_base_direction(BossType::DataRace, 0, 50, 0), 1000);
}

#[test]
fn moods_modify_the_base_direction() {
    assert_eq!(apply_mood(AIState::Aggressive, 1000, 5, 0), 1500);
    assert_eq!(apply_mood(AIState::Aggressive, -500, 5, 0), -750);
    assert_eq!(apply_mood(AIState::Defensive, 1000, 5, 0), -1000);
    assert_eq!(apply_mood(AIState::Defensive, 1000, -5, 0), 1000);
    assert_eq!(apply_mood(AIState::Erratic, 1000, 5, 0), 0);
    assert_eq!(apply_mood(AIState::Erratic, 1000, 5, 999), 1998);
}

#[test]
fn movement_direction_composes_base_and_mood() {
    let d = AiDraws { wander: 0, erratic: 0, attack: 0, kind: 0, jump: 0 };
    assert_eq!(
        ai_movement_direction(BossType::UseAfterFree, AIState::Aggressive, 0, 5, d),
        1500
    );
}

#[test]
fn use_after_free_attacks_on_its_beat() {
    let r = ai_attack_decision(BossType::UseAfterFree, 100, 0, 0, 100, 0, 1000, draws());
    assert_eq!(r, Some(AttackType::Heavy));
    let late = ai_attack_decision(BossType::UseAfterFree, 300, 0, 0, 100, 0, 1000, draws());
    assert_eq!(late, None);
    let far = ai_attack_decision(BossType::UseAfterFree, 100, 0, 0, 500, 0, 1000, draws());
    assert_eq!(far, None);
}

#[test]
fn null_pointer_attack_threshold_stretches_with_difficulty() {
    let normal = Difficulty::Normal.attack_frequency_multiplier();
    let easy = Difficulty::Easy.attack_frequency_multiplier();
    assert_eq!(normal, 1000);
    assert_eq!(easy, 1500);
    let fires =
        ai_attack_decision(BossType::NullPointer, 3600, 0, 0, 100, 0, normal, draws());
    assert_eq!(fires, Some(AttackType::Light));
    // On easy, the threshold (5250 ms) exceeds the 4 s cycle: it never fires.
    let never = ai_attack_decision(BossType::NullPointer, 3600, 0, 0, 100, 0, easy, draws());
    assert_eq!(never, None);
}

#[test]
fn undefined_behavior_attacks_by_chance_and_mixes_kinds() {
    let mut d = draws();
    d.attack = 49;
    d.kind = 0;
    let r = ai_attack_decision(BossType::UndefinedBehavior, 0, 0, 0, 100, 0, 1000, d);
    assert_eq!(r, Some(AttackType::Light));
    d.kind = 1;
    let r = ai_attack_decision(BossType::UndefinedBehavior, 0, 0, 0, 100, 0, 1000, d);
    assert_eq!(r, Some(AttackType::Heavy));
    d.kind = 2;
    let r = ai_attack_decision(BossType::UndefinedBehavior, 0, 0, 0, 100, 0, 1000, d);
    assert_eq!(r, Some(AttackType::Kick));
    d.attack = 50;
    let r = ai_attack_decision(BossType::UndefinedBehavior, 0, 0, 0, 100, 0, 1000, d);
    assert_eq!(r, None);
}

#[test]
fn attack_range_uses_both_axes() {
    // DataRace range is 120: on the diagonal 100,100 the distance exceeds it.
    let r = ai_attack_decision(BossType::DataRace, 0, 0, 0, 100, 100, 1000, draws());
    assert_eq!(r, None);
    let close = ai_attack_decision(BossType::DataRace, 0, 0, 0, 80, 80, 1000, draws());
    assert_eq!(close, Some(AttackType::Light));
    // Past three tenths of its rapid cycle it holds fire even at close range.
    let off_beat = ai_attack_decision(BossType::DataRace, 100, 0, 0, 80, 80, 1000, draws());
    assert_eq!(off_beat, None);
}

#[test]
fn random_permille_stays_below_one_thousand() {
    for _ in 0..200 {
        assert!(random_permille() < 1000);
    }
}

#[test]
fn fresh_draws_are_all_bounded() {
    for _ in 0..50 {
        let d = AiDraws::fresh();
        assert!(d.wander < 1000);
        assert!(d.erratic < 1000);
        assert!(d.attack < 1000);
        assert!(d.kind < 1000);
        assert!(d.jump < 1000);
    }
}
