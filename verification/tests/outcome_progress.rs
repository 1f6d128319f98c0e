use fight_core::combat::FightTracker;
use fight_core::game_state::{AppState, BossType, Difficulty, GameConfig, Winner};
use fight_core::outcome::check_for_game_over;
use fight_core::player::{Combatant, ControlType, FacingDirection};
use fight_core::progress::PlayerProgress;

fn human(id: u8, health: i32) -> Combatant {
    let mut c = Combatant::new(id, ControlType::Human, FacingDirection::Right, 100, 0, 0);
    c.health.current = health;
    c
}

fn boss(id: u8, archetype: BossType, health: i32) -> Combatant {
    let mut c = Combatant::new(id, ControlType::AI(archetype), FacingDirection::Left, 100, 0, 0);
    c.health.current = health;
    c
}

fn vs_ai(archetype: BossType) -> GameConfig {
    GameConfig {
        difficulty: Difficulty::Normal,
        boss: archetype,
        player2_is_human: false,
        arena: fight_core::game_state::ArenaType::Default,
    }
}

fn tracker(combo: u32) -> FightTracker {
    FightTracker { fight_start_time: Some(0), current_combo: combo, boss: BossType::NullPointer }
}

#[test]
fn single_survivor_wins_on_the_same_tick() {
    let a = human(1, 100);
    let b = boss(2, BossType::NullPointer, 0);
    let config = vs_ai(BossType::NullPointer);
    let t = tracker(5);
    let mut progress = PlayerProgress::default();
    let mut winner = Winner { player_id: None, is_human_winner: None };
    let next = check_for_game_over(&a, &b, &config, &t, &mut progress, &mut winner, 60000);
    assert_eq!(winner.player_id, Some(1));
    assert_eq!(winner.is_human_winner, Some(true));
    assert_eq!(next, Some(AppState::GameOver));
    assert_eq!(progress.statistics.total_wins, 1);
    assert_eq!(progress.statistics.current_win_streak, 1);
    assert_eq!(progress.statistics.best_win_streak, 1);
    let stat = progress.statistics.boss_stats.get(BossType::NullPointer);
    assert_eq!(stat.wins, 1);
    assert_eq!(stat.best_combo, 5);
    assert_eq!(stat.fastest_victory_ms, Some(60000));
    assert!(progress.is_boss_unlocked(BossType::UndefinedBehavior));
}

#[test]
fn final_boss_victory_rolls_the_credits() {
    let a = human(1, 40);
    let b = boss(2, BossType::BufferOverflow, 0);
    let config = vs_ai(BossType::BufferOverflow);
    let t = tracker(2);
    let mut progress = PlayerProgress::default();
    let mut winner = Winner { player_id: None, is_human_winner: None };
    let next = check_for_game_over(&a, &b, &config, &t, &mut progress, &mut winner, 1000);
    assert_eq!(next, Some(AppState::Credits));
    assert_eq!(winner.player_id, Some(1));
}

#[test]
fn ai_victory_records_a_defeat() {
    let a = human(1, 0);
    let b = boss(2, BossType::DataRace, 30);
    let config = vs_ai(BossType::DataRace);
    let t = tracker(0);
    let mut progress = PlayerProgress::default();
    progress.statistics.current_win_streak = 3;
    let mut winner = Winner { player_id: None, is_human_winner: None };
    let next = check_for_game_over(&a, &b, &config, &t, &mut progress, &mut winner, 1000);
    assert_eq!(next, Some(AppState::GameOver));
    assert_eq!(winner.player_id, Some(2));
    assert_eq!(winner.is_human_winner, Some(false));
    assert_eq!(progress.statistics.current_win_streak, 0);
    assert_eq!(progress.statistics.boss_stats.get(BossType::DataRace).losses, 1);
}

#[test]
fn simultaneous_zero_against_ai_is_a_draw() {
    let a = human(1, 0);
    let b = boss(2, BossType::NullPointer, 0);
    let config = vs_ai(BossType::NullPointer);
    let t = tracker(0);
    let mut progress = PlayerProgress::default();
    let mut winner = Winner { player_id: None, is_human_winner: None };
    let next = check_for_game_over(&a, &b, &config, &t, &mut progress, &mut winner, 1000);
    assert_eq!(next, Some(AppState::GameOver));
    assert_eq!(winner.player_id, None);
    assert_eq!(winner.is_human_winner, None);
    assert_eq!(progress.statistics.boss_stats.get(BossType::NullPointer).losses, 1);
}

#[test]
fn simultaneous_zero_between_humans_stays_unresolved() {
    let a = human(1, 0);
    let b = human(2, 0);
    let mut config = vs_ai(BossType::NullPointer);
    config.player2_is_human = true;
    let t = tracker(0);
    let mut progress = PlayerProgress::default();
    let mut winner = Winner { player_id: None, is_human_winner: None };
    let next = check_for_game_over(&a, &b, &config, &t, &mut progress, &mut winner, 1000);
    assert_eq!(next, None);
    assert_eq!(winner.player_id, None);
    assert_eq!(progress.statistics.boss_stats.get(BossType::NullPointer).losses, 0);
}

#[test]
fn both_alive_means_no_action() {
    let a = human(1, 50);
    let b = boss(2, BossType::NullPointer, 50);
    let config = vs_ai(BossType::NullPointer);
    let t = tracker(0);
    let mut progress = PlayerProgress::default();
    let mut winner = Winner { player_id: None, is_human_winner: None };
    let next = check_for_game_over(&a, &b, &config, &t, &mut progress, &mut winner, 1000);
    assert_eq!(next, None);
    assert_eq!(winner.player_id, None);
    assert_eq!(progress.statistics.total_wins, 0);
}

#[test]
fn victory_keeps_the_fastest_time_and_best_combo() {
    let mut progress = PlayerProgress::default();
    progress.record_victory(BossType::DataRace, 90000, 3);
    progress.record_victory(BossType::DataRace, 45000, 9);
    progress.record_victory(BossType::DataRace, 60000, 4);
    let stat = progress.statistics.boss_stats.get(BossType::DataRace);
    assert_eq!(stat.wins, 3);
    assert_eq!(stat.best_combo, 9);
    assert_eq!(stat.fastest_victory_ms, Some(45000));
    assert_eq!(progress.statistics.total_wins, 3);
    assert_eq!(progress.statistics.current_win_streak, 3);
    assert_eq!(progress.statistics.best_win_streak, 3);
    progress.record_defeat(BossType::DataRace);
    assert_eq!(progress.statistics.current_win_streak, 0);
    assert_eq!(progress.statistics.best_win_streak, 3);
}

#[test]
fn unlocking_twice_adds_once() {
    let mut progress = PlayerProgress::default();
    assert!(progress.is_boss_unlocked(BossType::NullPointer));
    assert!(!progress.is_boss_unlocked(BossType::DataRace));
    progress.unlock_boss(BossType::DataRace);
    progress.unlock_boss(BossType::DataRace);
    assert!(progress.is_boss_unlocked(BossType::DataRace));
    assert_eq!(progress.unlocked_bosses.len(), 2);
}

#[test]
fn progression_order_is_fixed() {
    let progress = PlayerProgress::default();
    assert_eq!(
        progress.get_next_boss(BossType::NullPointer),
        Some(BossType::UndefinedBehavior)
    );
    assert_eq!(progress.get_next_boss(BossType::UndefinedBehavior), Some(BossType::DataRace));
    assert_eq!(progress.get_next_boss(BossType::DataRace), Some(BossType::UseAfterFree));
    assert_eq!(progress.get_next_boss(BossType::UseAfterFree), Some(BossType::BufferOverflow));
    assert_eq!(progress.get_next_boss(BossType::BufferOverflow), None);
    assert!(BossType::BufferOverflow.is_final_boss());
    assert!(!BossType::NullPointer.is_final_boss());
}

#[test]
fn archetype_names_round_trip() {
    let all = [
        BossType::NullPointer,
        BossType::UndefinedBehavior,
        BossType::DataRace,
        BossType::UseAfterFree,
        BossType::BufferOverflow,
    ];
    for b in all {
        assert_eq!(BossType::from_name(&b.name()), Some(b));
    }
    assert_eq!(BossType::from_name("SegFault"), None);
    assert_eq!(BossType::NullPointer.name(), "NullPointer");
}

#[test]
fn difficulty_multipliers_match_their_levels() {
    assert_eq!(Difficulty::Easy.speed_multiplier(), 700);
    assert_eq!(Difficulty::Normal.speed_multiplier(), 1000);
    assert_eq!(Difficulty::Hard.speed_multiplier(), 1300);
    assert_eq!(Difficulty::Easy.attack_frequency_multiplier(), 1500);
    assert_eq!(Difficulty::Hard.attack_frequency_multiplier(), 700);
    assert_eq!(Difficulty::Easy.health_multiplier(), 800);
    assert_eq!(Difficulty::Normal.health_multiplier(), 1000);
    assert_eq!(Difficulty::Hard.health_multiplier(), 1200);
}
