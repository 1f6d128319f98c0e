use fight_core::game_state::{AppState, ArenaType, BossType, Difficulty, GameConfig, Winner};
use fight_core::menu::{
    apply_menu_action, arena_name, boss_name, difficulty_name, handle_pause_input, next_arena,
    next_boss, next_difficulty, prev_arena, prev_boss, prev_difficulty, restart_game, MenuAction,
};
use fight_core::progress::PlayerProgress;

#[test]
fn boss_cycle_wraps_both_ways() {
    let mut b = BossType::NullPointer;
    for _ in 0..5 {
        b = next_boss(b);
    }
    assert_eq!(b, BossType::NullPointer);
    assert_eq!(prev_boss(next_boss(BossType::DataRace)), BossType::DataRace);
    assert_eq!(prev_boss(BossType::NullPointer), BossType::BufferOverflow);
}

#[test]
fn difficulty_and_arena_cycles_wrap() {
    assert_eq!(next_difficulty(Difficulty::Hard), Difficulty::Easy);
    assert_eq!(prev_difficulty(Difficulty::Easy), Difficulty::Hard);
    assert_eq!(next_arena(ArenaType::BufferOverflow), ArenaType::Default);
    assert_eq!(prev_arena(ArenaType::Default), ArenaType::BufferOverflow);
}

#[test]
fn display_names_are_spelled_out() {
    assert_eq!(boss_name(BossType::NullPointer), "Null Pointer");
    assert_eq!(boss_name(BossType::UseAfterFree), "Use After Free");
    assert_eq!(difficulty_name(Difficulty::Normal), "Normal");
    assert_eq!(arena_name(ArenaType::DataRace), "Data Race");
}

#[test]
fn starting_needs_the_selected_boss_unlocked() {
    let progress = PlayerProgress::default();
    let mut config = GameConfig::default();
    config.boss = BossType::DataRace;
    let next = apply_menu_action(MenuAction::StartGame, &mut config, &progress);
    assert_eq!(next, None);
    config.boss = BossType::NullPointer;
    let next = apply_menu_action(MenuAction::StartGame, &mut config, &progress);
    assert_eq!(next, Some(AppState::InGame));
}

#[test]
fn menu_actions_edit_only_their_field() {
    let progress = PlayerProgress::default();
    let mut config = GameConfig::default();
    let next = apply_menu_action(MenuAction::NextBoss, &mut config, &progress);
    assert_eq!(next, None);
    assert_eq!(config.boss, BossType::UndefinedBehavior);
    assert_eq!(config.difficulty, Difficulty::Normal);
    apply_menu_action(MenuAction::NextDifficulty, &mut config, &progress);
    assert_eq!(config.difficulty, Difficulty::Hard);
    apply_menu_action(MenuAction::TogglePlayer2, &mut config, &progress);
    assert!(config.player2_is_human);
    apply_menu_action(MenuAction::NextArena, &mut config, &progress);
    assert_eq!(config.arena, ArenaType::DataRace);
    let next = apply_menu_action(MenuAction::ShowStatistics, &mut config, &progress);
    assert_eq!(next, Some(AppState::Statistics));
}

#[test]
fn restarting_clears_the_winner_and_returns_to_the_menu() {
    let mut winner = Winner { player_id: Some(1), is_human_winner: Some(true) };
    let next = restart_game(&mut winner);
    assert_eq!(next, AppState::MainMenu);
    assert_eq!(winner.player_id, None);
    assert_eq!(winner.is_human_winner, None);
}

#[test]
fn pause_key_toggles_between_game_and_pause() {
    assert_eq!(handle_pause_input(AppState::InGame), Some(AppState::Paused));
    assert_eq!(handle_pause_input(AppState::Paused), Some(AppState::InGame));
    assert_eq!(handle_pause_input(AppState::MainMenu), None);
    assert_eq!(handle_pause_input(AppState::GameOver), None);
}
