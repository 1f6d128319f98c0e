//! The decisions behind the menu: cycling through archetypes, difficulties
//! and arenas, display names, and what each menu action does to the
//! configuration and the application state. Widgets, layout and rendering
//! live with the presentation collaborator.

use vstd::prelude::*;

use crate::game_state::{AppState, ArenaType, BossType, Difficulty, GameConfig, Winner};
use crate::progress::PlayerProgress;

verus! {

/// The archetype after `current` in menu order, wrapping around.
pub open spec fn spec_next_boss(current: BossType) -> BossType {
    match current {
        BossType::NullPointer => BossType::UndefinedBehavior,
        BossType::UndefinedBehavior => BossType::DataRace,
        BossType::DataRace => BossType::UseAfterFree,
        BossType::UseAfterFree => BossType::BufferOverflow,
        BossType::BufferOverflow => BossType::NullPointer,
    }
}

/// Cycles to the next archetype in menu order.
pub fn next_boss(current: BossType) -> (r: BossType)
    ensures
        r == spec_next_boss(current),
{
    match current {
        BossType::NullPointer => BossType::UndefinedBehavior,
        BossType::UndefinedBehavior => BossType::DataRace,
        BossType::DataRace => BossType::UseAfterFree,
        BossType::UseAfterFree => BossType::BufferOverflow,
        BossType::BufferOverflow => BossType::NullPointer,
    }
}

/// The archetype before `current` in menu order, wrapping around.
pub open spec fn spec_prev_boss(current: BossType) -> BossType {
    match current {
        BossType::NullPointer => BossType::BufferOverflow,
        BossType::UndefinedBehavior => BossType::NullPointer,
        BossType::DataRace => BossType::UndefinedBehavior,
        BossType::UseAfterFree => BossType::DataRace,
        BossType::BufferOverflow => BossType::UseAfterFree,
    }
}

/// Cycles to the previous archetype in menu order.
pub fn prev_boss(current: BossType) -> (r: BossType)
    ensures
        r == spec_prev_boss(current),
{
    match current {
        BossType::NullPointer => BossType::BufferOverflow,
        BossType::UndefinedBehavior => BossType::NullPointer,
        BossType::DataRace => BossType::UndefinedBehavior,
        BossType::UseAfterFree => BossType::DataRace,
        BossType::BufferOverflow => BossType::UseAfterFree,
    }
}

/// Cycles to the next difficulty.
pub fn next_difficulty(current: Difficulty) -> (r: Difficulty)
    ensures
        r == (match current {
            Difficulty::Easy => Difficulty::Normal,
            Difficulty::Normal => Difficulty::Hard,
            Difficulty::Hard => Difficulty::Easy,
        }),
{
    match current {
        Difficulty::Easy => Difficulty::Normal,
        Difficulty::Normal => Difficulty::Hard,
        Difficulty::Hard => Difficulty::Easy,
    }
}

/// Cycles to the previous difficulty.
pub fn prev_difficulty(current: Difficulty) -> (r: Difficulty)
    ensures
        r == (match current {
            Difficulty::Easy => Difficulty::Hard,
            Difficulty::Normal => Difficulty::Easy,
            Difficulty::Hard => Difficulty::Normal,
        }),
{
    match current {
        Difficulty::Easy => Difficulty::Hard,
        Difficulty::Normal => Difficulty::Easy,
        Difficulty::Hard => Difficulty::Normal,
    }
}

/// Cycles to the next arena.
pub fn next_arena(current: ArenaType) -> (r: ArenaType)
    ensures
        r == (match current {
            ArenaType::Default => ArenaType::DataRace,
            ArenaType::DataRace => ArenaType::UndefinedBehavior,
            ArenaType::UndefinedBehavior => ArenaType::BufferOverflow,
            ArenaType::BufferOverflow => ArenaType::Default,
        }),
{
    match current {
        ArenaType::Default => ArenaType::DataRace,
        ArenaType::DataRace => ArenaType::UndefinedBehavior,
        ArenaType::UndefinedBehavior => ArenaType::BufferOverflow,
        ArenaType::BufferOverflow => ArenaType::Default,
    }
}

/// Cycles to the previous arena.
pub fn prev_arena(current: ArenaType) -> (r: ArenaType)
    ensures
        r == (match current {
            ArenaType::Default => ArenaType::BufferOverflow,
            ArenaType::DataRace => ArenaType::Default,
            ArenaType::UndefinedBehavior => ArenaType::DataRace,
            ArenaType::BufferOverflow => ArenaType::UndefinedBehavior,
        }),
{
    match current {
        ArenaType::Default => ArenaType::BufferOverflow,
        ArenaType::DataRace => ArenaType::Default,
        ArenaType::UndefinedBehavior => ArenaType::DataRace,
        ArenaType::BufferOverflow => ArenaType::UndefinedBehavior,
    }
}

/// The display name of an archetype.
pub fn boss_name(b: BossType) -> (r: String)
    ensures
        b == BossType::NullPointer ==> r@ == "Null Pointer"@,
        b == BossType::UndefinedBehavior ==> r@ == "Undefined Behavior"@,
        b == BossType::DataRace ==> r@ == "Data Race"@,
        b == BossType::UseAfterFree ==> r@ == "Use After Free"@,
        b == BossType::BufferOverflow ==> r@ == "Buffer Overflow"@,
{
    match b {
        BossType::NullPointer => "Null Pointer".to_string(),
        BossType::UndefinedBehavior => "Undefined Behavior".to_string(),
        BossType::DataRace => "Data Race".to_string(),
        BossType::UseAfterFree => "Use After Free".to_string(),
        BossType::BufferOverflow => "Buffer Overflow".to_string(),
    }
}

/// The display name of a difficulty.
pub fn difficulty_name(d: Difficulty) -> (r: String)
    ensures
        d == Difficulty::Easy ==> r@ == "Easy"@,
        d == Difficulty::Normal ==> r@ == "Normal"@,
        d == Difficulty::Hard ==> r@ == "Hard"@,
{
    match d {
        Difficulty::Easy => "Easy".to_string(),
        Difficulty::Normal => "Normal".to_string(),
        Difficulty::Hard => "Hard".to_string(),
    }
}

/// The display name of an arena.
pub fn arena_name(a: ArenaType) -> (r: String)
    ensures
        a == ArenaType::Default ==> r@ == "Default"@,
        a == ArenaType::DataRace ==> r@ == "Data Race"@,
        a == ArenaType::UndefinedBehavior ==> r@ == "Undefined Behavior"@,
        a == ArenaType::BufferOverflow ==> r@ == "Buffer Overflow"@,
{
    match a {
        ArenaType::Default => "Default".to_string(),
        ArenaType::DataRace => "Data Race".to_string(),
        ArenaType::UndefinedBehavior => "Undefined Behavior".to_string(),
        ArenaType::BufferOverflow => "Buffer Overflow".to_string(),
    }
}

/// What a pressed menu button asks for.
#[derive(Clone, Copy, Debug, PartialEq, Eq, Structural)]
pub enum MenuAction {
    StartGame,
    NextBoss,
    PrevBoss,
    NextDifficulty,
    PrevDifficulty,
    TogglePlayer2,
    ShowStatistics,
    NextArena,
    PrevArena,
}

/// Applies one pressed menu button to the configuration: cycling buttons
/// cycle their field and change nothing else; starting is accepted only with
/// the selected archetype unlocked, and moves the match in; the statistics
/// button moves to the statistics screen. The returned state is `None` when
/// the menu stays up.
pub fn apply_menu_action(
    action: MenuAction,
    config: &mut GameConfig,
    progress: &PlayerProgress,
) -> (next: Option<AppState>)
    ensures
        ({
            &&& action == MenuAction::StartGame ==> *final(config) == *old(config) && next == (
            if progress.spec_is_boss_unlocked(old(config).boss) {
                Some(AppState::InGame)
            } else {
                Option::<AppState>::None
            })
            &&& action == MenuAction::NextBoss ==> *final(config) == (GameConfig {
                boss: spec_next_boss(old(config).boss),
                ..*old(config)
            }) && next is None
            &&& action == MenuAction::PrevBoss ==> *final(config) == (GameConfig {
                boss: spec_prev_boss(old(config).boss),
                ..*old(config)
            }) && next is None
            &&& action == MenuAction::TogglePlayer2 ==> *final(config) == (GameConfig {
                player2_is_human: !old(config).player2_is_human,
                ..*old(config)
            }) && next is None
            &&& action == MenuAction::ShowStatistics ==> *final(config) == *old(config) && next
                == Some(AppState::Statistics)
            &&& (action == MenuAction::NextDifficulty || action == MenuAction::PrevDifficulty)
                ==> final(config).boss == old(config).boss && final(config).player2_is_human
                == old(config).player2_is_human && final(config).arena == old(config).arena
                && next is None
            &&& (action == MenuAction::NextArena || action == MenuAction::PrevArena)
                ==> final(config).boss == old(config).boss && final(config).player2_is_human
                == old(config).player2_is_human && final(config).difficulty
                == old(config).difficulty && next is None
        }),
{
    match action {
        MenuAction::StartGame => {
            if progress.is_boss_unlocked(config.boss) {
                Some(AppState::InGame)
            } else {
                None
            }
        },
        MenuAction::NextBoss => {
            config.boss = next_boss(config.boss);
            None
        },
        MenuAction::PrevBoss => {
            config.boss = prev_boss(config.boss);
            None
        },
        MenuAction::NextDifficulty => {
            config.difficulty = next_difficulty(config.difficulty);
            None
        },
        MenuAction::PrevDifficulty => {
            config.difficulty = prev_difficulty(config.difficulty);
            None
        },
        MenuAction::TogglePlayer2 => {
            config.player2_is_human = !config.player2_is_human;
            None
        },
        MenuAction::ShowStatistics => Some(AppState::Statistics),
        MenuAction::NextArena => {
            config.arena = next_arena(config.arena);
            None
        },
        MenuAction::PrevArena => {
            config.arena = prev_arena(config.arena);
            None
        },
    }
}

/// Leaves the end-of-match screen for the main menu: the recorded winner is
/// cleared so the next match starts clean.
pub fn restart_game(winner: &mut Winner) -> (next: AppState)
    ensures
        final(winner).is_unset(),
        next == AppState::MainMenu,
{
    winner.reset();
    AppState::MainMenu
}

/// The state the pause key moves the application to: it toggles between
/// in-game and paused, and does nothing anywhere else.
pub fn handle_pause_input(state: AppState) -> (r: Option<AppState>)
    ensures
        state == AppState::InGame ==> r == Some(AppState::Paused),
        state == AppState::Paused ==> r == Some(AppState::InGame),
        (state != AppState::InGame && state != AppState::Paused) ==> r is None,
{
    match state {
        AppState::InGame => Some(AppState::Paused),
        AppState::Paused => Some(AppState::InGame),
        _ => None,
    }
}

} // verus!
