//! The outcome evaluator: partitions the two combatants into alive and dead
//! each tick, resolves winner or draw, records the result in the progression
//! record and names the state the match moves to.

use vstd::prelude::*;

use crate::combat::FightTracker;
use crate::game_state::{AppState, GameConfig, Winner};
use crate::player::Combatant;
use crate::progress::{spec_after_defeat, spec_after_victory, PlayerProgress};

verus! {

/// The fight duration the tracker reports at `now_ms`: zero when no start
/// was recorded.
pub open spec fn spec_fight_duration(tracker: FightTracker, now_ms: u64) -> u64 {
    match tracker.fight_start_time {
        Some(start) => (now_ms - start) as u64,
        None => 0,
    }
}

/// Evaluates the end-of-fight condition for this tick.
///
/// With exactly one combatant alive, that combatant is recorded as the
/// winner together with whether it is human-controlled; a human victory over
/// an AI records the victory, unlocks the next archetype, and moves to the
/// credits after the final archetype; any other single-survivor outcome
/// records a defeat. With none alive in a match against an AI, a draw is
/// recorded: no winner, and a defeat against the archetype. With none alive
/// in a human-versus-human match nothing is decided: the source leaves that
/// case unresolved on purpose. With both alive nothing happens.
///
/// The returned state is `None` while the fight goes on, and the state the
/// match moves to once it ended.
pub fn check_for_game_over(
    c1: &Combatant,
    c2: &Combatant,
    config: &GameConfig,
    tracker: &FightTracker,
    progress: &mut PlayerProgress,
    winner: &mut Winner,
    now_ms: u64,
) -> (next: Option<AppState>)
    requires
        old(progress).statistics.total_wins < u32::MAX,
        old(progress).statistics.current_win_streak < u32::MAX,
        old(progress).statistics.boss_stats.spec_get(config.boss).wins < u32::MAX,
        old(progress).statistics.boss_stats.spec_get(config.boss).losses < u32::MAX,
        old(progress).unlocked_bosses@.len() < usize::MAX,
        tracker.fight_start_time matches Some(s) ==> s <= now_ms,
    ensures
        ({
            let alive1 = c1.spec_is_alive();
            let alive2 = c2.spec_is_alive();
            let duration = spec_fight_duration(*tracker, now_ms);
            &&& (alive1 && alive2) ==> next is None && *final(winner) == *old(winner)
                && *final(progress) == *old(progress)
            &&& (!alive1 && !alive2 && config.player2_is_human) ==> next is None
                && *final(winner) == *old(winner) && *final(progress) == *old(progress)
            &&& (!alive1 && !alive2 && !config.player2_is_human) ==> {
                &&& next == Some(AppState::GameOver)
                &&& final(winner).player_id is None
                &&& final(winner).is_human_winner is None
                &&& final(progress).statistics == spec_after_defeat(
                    old(progress).statistics,
                    config.boss,
                )
                &&& final(progress).unlocked_bosses@ == old(progress).unlocked_bosses@
            }
            &&& (alive1 != alive2) ==> {
                let w = if alive1 {
                    *c1
                } else {
                    *c2
                };
                let human_victory = w.control.spec_is_human() && !config.player2_is_human;
                &&& final(winner).player_id == Some(w.player.id)
                &&& final(winner).is_human_winner == Some(w.control.spec_is_human())
                &&& human_victory ==> final(progress).statistics == spec_after_victory(
                    old(progress).statistics,
                    config.boss,
                    duration,
                    tracker.current_combo,
                )
                &&& (human_victory && config.boss.spec_is_final_boss()) ==> next == Some(
                    AppState::Credits,
                ) && final(progress).unlocked_bosses@ == old(progress).unlocked_bosses@
                &&& (human_victory && !config.boss.spec_is_final_boss()) ==> next == Some(
                    AppState::GameOver,
                ) && final(progress).spec_is_boss_unlocked(
                    config.boss.spec_successor()->Some_0,
                ) && (forall|b: crate::game_state::BossType|
                    old(progress).spec_is_boss_unlocked(b)
                        ==> final(progress).spec_is_boss_unlocked(b))
                &&& !human_victory ==> next == Some(AppState::GameOver)
                    && final(progress).statistics == spec_after_defeat(
                    old(progress).statistics,
                    config.boss,
                ) && final(progress).unlocked_bosses@ == old(progress).unlocked_bosses@
            }
        }),
{
    let alive1 = c1.is_alive();
    let alive2 = c2.is_alive();

    if alive1 && alive2 {
        return None;
    }
    if !alive1 && !alive2 {
        if config.player2_is_human {
            // Both humans down at once: the source surfaces no draw here, on
            // purpose.
            return None;
        }
        winner.player_id = None;
        winner.is_human_winner = None;
        progress.record_defeat(config.boss);
        return Some(AppState::GameOver);
    }

    let (winner_id, winner_is_human) = if alive1 {
        (c1.player.id, c1.control.is_human())
    } else {
        (c2.player.id, c2.control.is_human())
    };
    winner.player_id = Some(winner_id);
    winner.is_human_winner = Some(winner_is_human);

    let fight_duration_ms: u64 = match tracker.fight_start_time {
        Option::Some(start) => now_ms - start,
        Option::None => 0,
    };

    if winner_is_human && !config.player2_is_human {
        progress.record_victory(config.boss, fight_duration_ms, tracker.current_combo);
        if config.boss.is_final_boss() {
            Some(AppState::Credits)
        } else {
            match progress.get_next_boss(config.boss) {
                Option::Some(next_boss) => {
                    progress.unlock_boss(next_boss);
                },
                Option::None => {},
            }
            Some(AppState::GameOver)
        }
    } else {
        progress.record_defeat(config.boss);
        Some(AppState::GameOver)
    }
}

} // verus!
