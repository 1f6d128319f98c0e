use fight_core::ai::AiDraws;
use fight_core::combat::{OverlapPair, RegionId};
use fight_core::game_state::{AppState, ArenaType, BossType, Difficulty, GameConfig, Winner};
use fight_core::intent::{resolve_attack_intent, HumanInputs};
use fight_core::player::{AttackType, Combatant, ControlType, FacingDirection};
use fight_core::progress::PlayerProgress;
use fight_core::session::{FightSession, TickInputs};

fn quiet_draws() -> AiDraws {
    AiDraws { wander: 500, erratic: 500, attack: 999, kind: 0, jump: 999 }
}

fn idle_tick(dt_ms: u32) -> TickInputs {
    TickInputs {
        dt_ms,
        p1: HumanInputs::none(),
        p2: HumanInputs::none(),
        p1_x: -200,
        p1_y: 0,
        p2_x: 200,
        p2_y: 0,
        overlaps: Vec::new(),
        draws: quiet_draws(),
    }
}

fn vs_ai_config() -> GameConfig {
    GameConfig {
        difficulty: Difficulty::Normal,
        boss: BossType::NullPointer,
        player2_is_human: false,
        arena: ArenaType::Default,
    }
}

fn vs_human_config() -> GameConfig {
    GameConfig { player2_is_human: true, ..vs_ai_config() }
}

#[test]
fn new_session_matches_the_setup() {
    let mut progress = PlayerProgress::default();
    let s = FightSession::new(vs_ai_config(), &mut progress);
    assert_eq!(s.c1.player.id, 1);
    assert_eq!(s.c2.player.id, 2);
    assert_eq!(s.c1.health.current, 100);
    assert_eq!(s.c2.health.current, 100);
    assert_eq!(s.c1.x, -200);
    assert_eq!(s.c2.x, 200);
    assert!(matches!(s.c2.control, ControlType::AI(BossType::NullPointer)));
    assert_eq!(s.tracker.current_combo, 0);
    assert!(!s.ended);
    assert_eq!(progress.statistics.total_fights, 1);
}

#[test]
fn ai_health_scales_with_difficulty() {
    let mut progress = PlayerProgress::default();
    let easy = FightSession::new(
        GameConfig { difficulty: Difficulty::Easy, ..vs_ai_config() },
        &mut progress,
    );
    assert_eq!(easy.c2.health.current, 80);
    let hard = FightSession::new(
        GameConfig { difficulty: Difficulty::Hard, ..vs_ai_config() },
        &mut progress,
    );
    assert_eq!(hard.c2.health.current, 120);
    assert_eq!(hard.c1.health.current, 100);
}

#[test]
fn attack_is_gated_by_the_initial_cooldown() {
    let mut progress = PlayerProgress::default();
    let mut s = FightSession::new(vs_ai_config(), &mut progress);
    let mut inputs = idle_tick(16);
    inputs.p1.light_pressed = true;
    // The attack cooldown starts at 300 ms: the first press is rejected.
    let out = s.tick(&inputs, &mut progress);
    assert_eq!(out.spawned.len(), 0);
}

#[test]
fn cooldown_gating_is_exact() {
    let mut c = Combatant::new(1, ControlType::Human, FacingDirection::Right, 100, 0, 0);
    assert_eq!(c.attack_cooldown.remaining_ms, 300);
    let rejected = resolve_attack_intent(&mut c, Some(AttackType::Light));
    assert!(rejected.is_none());
    assert_eq!(c.attack_cooldown.remaining_ms, 300);

    c.attack_cooldown.remaining_ms = 1;
    let still_rejected = resolve_attack_intent(&mut c, Some(AttackType::Heavy));
    assert!(still_rejected.is_none());

    c.attack_cooldown.remaining_ms = 0;
    let accepted = resolve_attack_intent(&mut c, Some(AttackType::Heavy)).unwrap();
    assert_eq!(accepted.attacker, 1);
    assert_eq!(accepted.attack_type, AttackType::Heavy);
    assert_eq!(c.attack_cooldown.remaining_ms, 400);

    c.attack_cooldown.remaining_ms = 0;
    let nothing_desired = resolve_attack_intent(&mut c, None);
    assert!(nothing_desired.is_none());
}

#[test]
fn a_landed_hit_damages_and_counts_combo() {
    let mut progress = PlayerProgress::default();
    let mut s = FightSession::new(vs_ai_config(), &mut progress);

    // Let the initial 300 ms attack cooldown elapse.
    let out = s.tick(&idle_tick(300), &mut progress);
    assert_eq!(out.spawned.len(), 0);

    // Throw a light attack: one volume spawns.
    let mut attack = idle_tick(16);
    attack.p1.light_pressed = true;
    let out = s.tick(&attack, &mut progress);
    assert_eq!(out.spawned.len(), 1);
    assert_eq!(out.spawned[0].attacker, 1);
    assert_eq!(out.spawned[0].attack_type, AttackType::Light);
    assert_eq!(s.volumes.volumes.len(), 1);

    // The integrator reports the volume overlapping the opponent's body,
    // twice: only one contact comes out of it.
    let mut contact_tick = idle_tick(16);
    contact_tick.overlaps = vec![
        OverlapPair { a: RegionId::Volume(0), b: RegionId::Body(2) },
        OverlapPair { a: RegionId::Volume(0), b: RegionId::Body(2) },
    ];
    let out = s.tick(&contact_tick, &mut progress);
    assert_eq!(out.contacts.len(), 1);
    assert_eq!(out.damage_events.len(), 1);
    assert_eq!(out.damage_events[0].target, 2);
    assert_eq!(out.damage_events[0].damage, 3);
    assert_eq!(s.c2.health.current, 97);
    assert_eq!(s.c1.health.current, 100);
    assert_eq!(s.tracker.current_combo, 1);
    assert_eq!(out.impulses.len(), 2);
    assert_eq!(out.impulses[0].strength, 500);
    assert_eq!(out.impulses[0].target, 2);
    assert_eq!((out.impulses[0].dir_x, out.impulses[0].dir_y), (400, 0));
    assert_eq!(out.impulses[1].strength, 150);
    assert!(out.next_state.is_none());
    assert!(s.volumes.volumes.is_empty());
}

#[test]
fn a_blocked_hit_deals_nothing_and_halves_knockback() {
    let mut progress = PlayerProgress::default();
    let mut s = FightSession::new(vs_human_config(), &mut progress);

    // Let the initial attack (300 ms) and block (2000 ms) cooldowns elapse.
    s.tick(&idle_tick(2000), &mut progress);

    // Player 1 attacks while player 2 raises the block.
    let mut both = idle_tick(16);
    both.p1.light_pressed = true;
    both.p2.block_pressed = true;
    let out = s.tick(&both, &mut progress);
    assert_eq!(out.spawned.len(), 1);
    assert!(s.c2.block.is_blocking);

    let mut contact_tick = idle_tick(16);
    contact_tick.overlaps = vec![OverlapPair { a: RegionId::Volume(0), b: RegionId::Body(2) }];
    let out = s.tick(&contact_tick, &mut progress);
    assert_eq!(out.contacts.len(), 1);
    assert!(out.contacts[0].blocked);
    assert_eq!(out.damage_events.len(), 0);
    assert_eq!(s.c2.health.current, 100);
    assert_eq!(s.tracker.current_combo, 0);
    assert_eq!(out.impulses.len(), 2);
    assert_eq!(out.impulses[0].strength, 250);
    assert_eq!(out.impulses[1].strength, 50);
}

#[test]
fn block_expires_after_its_duration() {
    let mut progress = PlayerProgress::default();
    let mut s = FightSession::new(vs_human_config(), &mut progress);
    s.tick(&idle_tick(2000), &mut progress);
    let mut block = idle_tick(16);
    block.p2.block_pressed = true;
    s.tick(&block, &mut progress);
    assert!(s.c2.block.is_blocking);
    s.tick(&idle_tick(490), &mut progress);
    assert!(!s.c2.block.is_blocking);
}

#[test]
fn defeating_the_ai_ends_the_match_with_a_human_winner() {
    let mut progress = PlayerProgress::default();
    let mut s = FightSession::new(vs_ai_config(), &mut progress);
    s.c2.health.current = 3;
    s.tick(&idle_tick(300), &mut progress);

    let mut attack = idle_tick(16);
    attack.p1.light_pressed = true;
    s.tick(&attack, &mut progress);

    let mut contact_tick = idle_tick(16);
    contact_tick.overlaps = vec![OverlapPair { a: RegionId::Volume(0), b: RegionId::Body(2) }];
    let out = s.tick(&contact_tick, &mut progress);
    assert_eq!(s.c2.health.current, 0);
    assert_eq!(out.next_state, Some(AppState::GameOver));
    assert!(s.ended);
    assert_eq!(s.winner.player_id, Some(1));
    assert_eq!(s.winner.is_human_winner, Some(true));
    assert_eq!(progress.statistics.total_wins, 1);
    assert!(progress.is_boss_unlocked(BossType::UndefinedBehavior));

    // Once ended, further ticks change nothing.
    let frozen_health = s.c1.health.current;
    let out = s.tick(&idle_tick(16), &mut progress);
    assert!(out.next_state.is_none());
    assert_eq!(out.contacts.len(), 0);
    assert_eq!(s.c1.health.current, frozen_health);
}

#[test]
fn movement_velocity_scales_key_input_by_speed() {
    let mut progress = PlayerProgress::default();
    let mut s = FightSession::new(vs_human_config(), &mut progress);
    let mut inputs = idle_tick(16);
    inputs.p1.move_right = true;
    let out = s.tick(&inputs, &mut progress);
    assert_eq!(out.move1.id, 1);
    assert_eq!(out.move1.vel_x_millis, 300_000);
    assert_eq!(out.move2.vel_x_millis, 0);

    let mut both = idle_tick(16);
    both.p1.move_left = true;
    both.p1.move_right = true;
    let out = s.tick(&both, &mut progress);
    assert_eq!(out.move1.vel_x_millis, 0);
}

#[test]
fn jump_needs_ground_under_the_feet() {
    let mut progress = PlayerProgress::default();
    let mut s = FightSession::new(vs_human_config(), &mut progress);
    // No overlaps reported: both combatants read as airborne.
    let mut inputs = idle_tick(16);
    inputs.p1.jump_pressed = true;
    let out = s.tick(&inputs, &mut progress);
    assert!(!out.move1.jump);

    // A terrain overlap against the body makes combatant 1 grounded.
    let mut grounded = idle_tick(16);
    grounded.p1.jump_pressed = true;
    grounded.overlaps = vec![OverlapPair { a: RegionId::Body(1), b: RegionId::Terrain }];
    let out = s.tick(&grounded, &mut progress);
    assert!(out.move1.jump);
    assert!(!out.move2.jump);
}

#[test]
fn facing_follows_relative_positions() {
    let mut progress = PlayerProgress::default();
    let mut s = FightSession::new(vs_human_config(), &mut progress);
    let mut crossed = idle_tick(16);
    crossed.p1_x = 300;
    crossed.p2_x = -300;
    s.tick(&crossed, &mut progress);
    assert_eq!(s.c1.facing, FacingDirection::Left);
    assert_eq!(s.c2.facing, FacingDirection::Right);
}

#[test]
fn winner_resets_on_returning_to_the_menu() {
    let mut w = Winner { player_id: Some(2), is_human_winner: Some(false) };
    w.reset();
    assert_eq!(w.player_id, None);
    assert_eq!(w.is_human_winner, None);
}

#[test]
fn restart_restores_health_and_corners() {
    let mut c = Combatant::new(1, ControlType::Human, FacingDirection::Right, 100, 37, 12);
    c.health.current = 4;
    c.reset_for_restart();
    assert_eq!(c.health.current, 100);
    assert_eq!((c.x, c.y), (-200, 0));
    let mut c2 = Combatant::new(2, ControlType::Human, FacingDirection::Left, 100, -9, 3);
    c2.health.current = 0;
    c2.reset_for_restart();
    assert_eq!(c2.health.current, 100);
    assert_eq!((c2.x, c2.y), (200, 0));
}

#[test]
fn presentation_facts_read_the_combatant_state() {
    let mut c = Combatant::new(1, ControlType::Human, FacingDirection::Right, 100, 0, 0);
    assert!(c.is_attacking());
    c.attack_cooldown.remaining_ms = 0;
    assert!(!c.is_attacking());
    assert!(!c.is_blocking());
    c.block.is_blocking = true;
    assert!(c.is_blocking());
    assert!(!c.is_hurt());
    c.health.current = 33;
    assert!(!c.is_hurt());
    c.health.current = 32;
    assert!(c.is_hurt());
}
