//! Persistent player progression: which archetypes are unlocked and the
//! running fight statistics.
//!
//! The library owns only the in-memory bookkeeping; reading and writing the
//! persisted form is the caller's business. Fight durations are counted in
//! milliseconds.

use vstd::prelude::*;

use crate::game_state::BossType;

verus! {

/// Per-archetype fight statistics.
#[derive(Clone, Copy, Debug, PartialEq, Eq, Structural)]
pub struct BossStatistics {
    pub wins: u32,
    pub losses: u32,
    pub best_combo: u32,
    pub fastest_victory_ms: Option<u64>,
}

impl Default for BossStatistics {
    fn default() -> (s: BossStatistics)
        ensures
            s == BossStatistics::spec_default(),
    {
        BossStatistics { wins: 0, losses: 0, best_combo: 0, fastest_victory_ms: None }
    }
}

impl BossStatistics {
    /// Statistics before any fight was recorded.
    pub open spec fn spec_default() -> BossStatistics {
        BossStatistics { wins: 0, losses: 0, best_combo: 0, fastest_victory_ms: None }
    }
}

/// One `BossStatistics` record per archetype.
#[derive(Clone, Copy, Debug, PartialEq, Eq, Structural)]
pub struct BossStatsTable {
    pub null_pointer: BossStatistics,
    pub undefined_behavior: BossStatistics,
    pub data_race: BossStatistics,
    pub use_after_free: BossStatistics,
    pub buffer_overflow: BossStatistics,
}

impl BossStatsTable {
    /// The record kept for `boss`.
    pub open spec fn spec_get(self, boss: BossType) -> BossStatistics {
        match boss {
            BossType::NullPointer => self.null_pointer,
            BossType::UndefinedBehavior => self.undefined_behavior,
            BossType::DataRace => self.data_race,
            BossType::UseAfterFree => self.use_after_free,
            BossType::BufferOverflow => self.buffer_overflow,
        }
    }

    /// The table with `boss`'s record replaced by `s` and every other record
    /// unchanged.
    pub open spec fn spec_set(self, boss: BossType, s: BossStatistics) -> BossStatsTable {
        match boss {
            BossType::NullPointer => BossStatsTable { null_pointer: s, ..self },
            BossType::UndefinedBehavior => BossStatsTable { undefined_behavior: s, ..self },
            BossType::DataRace => BossStatsTable { data_race: s, ..self },
            BossType::UseAfterFree => BossStatsTable { use_after_free: s, ..self },
            BossType::BufferOverflow => BossStatsTable { buffer_overflow: s, ..self },
        }
    }

    /// Reads the record kept for `boss`.
    pub fn get(&self, boss: BossType) -> (r: BossStatistics)
        ensures
            r == self.spec_get(boss),
    {
        match boss {
            BossType::NullPointer => self.null_pointer,
            BossType::UndefinedBehavior => self.undefined_behavior,
            BossType::DataRace => self.data_race,
            BossType::UseAfterFree => self.use_after_free,
            BossType::BufferOverflow => self.buffer_overflow,
        }
    }

    /// Replaces the record kept for `boss`.
    pub fn set(&mut self, boss: BossType, s: BossStatistics)
        ensures
            *final(self) == old(self).spec_set(boss, s),
    {
        match boss {
            BossType::NullPointer => { self.null_pointer = s; }
            BossType::UndefinedBehavior => { self.undefined_behavior = s; }
            BossType::DataRace => { self.data_race = s; }
            BossType::UseAfterFree => { self.use_after_free = s; }
            BossType::BufferOverflow => { self.buffer_overflow = s; }
        }
    }
}

impl Default for BossStatsTable {
    fn default() -> (t: BossStatsTable)
        ensures
            forall|b: BossType| t.spec_get(b) == BossStatistics::spec_default(),
    {
        BossStatsTable {
            null_pointer: BossStatistics::default(),
            undefined_behavior: BossStatistics::default(),
            data_race: BossStatistics::default(),
            use_after_free: BossStatistics::default(),
            buffer_overflow: BossStatistics::default(),
        }
    }
}

/// Global and per-archetype fight statistics.
#[derive(Clone, Copy, Debug)]
pub struct Statistics {
    pub total_fights: u32,
    pub total_wins: u32,
    pub current_win_streak: u32,
    pub best_win_streak: u32,
    pub boss_stats: BossStatsTable,
}

impl Default for Statistics {
    fn default() -> (s: Statistics)
        ensures
            s.total_fights == 0,
            s.total_wins == 0,
            s.current_win_streak == 0,
            s.best_win_streak == 0,
            forall|b: BossType| s.boss_stats.spec_get(b) == BossStatistics::spec_default(),
    {
        Statistics {
            total_fights: 0,
            total_wins: 0,
            current_win_streak: 0,
            best_win_streak: 0,
            boss_stats: BossStatsTable::default(),
        }
    }
}

/// Everything the player has achieved so far: the unlocked archetypes and the
/// statistics record.
#[derive(Clone, Debug)]
pub struct PlayerProgress {
    pub unlocked_bosses: Vec<BossType>,
    pub statistics: Statistics,
}

impl Default for PlayerProgress {
    fn default() -> (p: PlayerProgress)
        ensures
            p.unlocked_bosses@ == seq![BossType::NullPointer],
            p.statistics.total_fights == 0,
            p.statistics.total_wins == 0,
            p.statistics.current_win_streak == 0,
            p.statistics.best_win_streak == 0,
            forall|b: BossType|
                p.statistics.boss_stats.spec_get(b) == BossStatistics::spec_default(),
    {
        let mut unlocked: Vec<BossType> = Vec::new();
        unlocked.push(BossType::NullPointer);
        assert(unlocked@ =~= seq![BossType::NullPointer]);
        PlayerProgress { unlocked_bosses: unlocked, statistics: Statistics::default() }
    }
}

/// The statistics after a recorded human victory over `boss`: the win
/// counters and streaks rise, and the archetype's record folds in the
/// fight's duration and final combo.
pub open spec fn spec_after_victory(
    s: Statistics,
    boss: BossType,
    fight_duration_ms: u64,
    final_combo: u32,
) -> Statistics {
    let old_stat = s.boss_stats.spec_get(boss);
    let new_streak = s.current_win_streak + 1;
    Statistics {
        total_wins: (s.total_wins + 1) as u32,
        current_win_streak: new_streak as u32,
        best_win_streak: if new_streak > s.best_win_streak {
            new_streak as u32
        } else {
            s.best_win_streak
        },
        boss_stats: s.boss_stats.spec_set(
            boss,
            BossStatistics {
                wins: (old_stat.wins + 1) as u32,
                losses: old_stat.losses,
                best_combo: if final_combo > old_stat.best_combo {
                    final_combo
                } else {
                    old_stat.best_combo
                },
                fastest_victory_ms: match old_stat.fastest_victory_ms {
                    Some(f) => if fight_duration_ms < f {
                        Some(fight_duration_ms)
                    } else {
                        Some(f)
                    },
                    None => Some(fight_duration_ms),
                },
            },
        ),
        ..s
    }
}

/// The statistics after a recorded defeat against `boss`: the win streak
/// breaks and the archetype's loss count rises.
pub open spec fn spec_after_defeat(s: Statistics, boss: BossType) -> Statistics {
    let old_stat = s.boss_stats.spec_get(boss);
    Statistics {
        current_win_streak: 0,
        boss_stats: s.boss_stats.spec_set(
            boss,
            BossStatistics { losses: (old_stat.losses + 1) as u32, ..old_stat },
        ),
        ..s
    }
}

impl PlayerProgress {
    /// True when `boss` has been unlocked.
    pub open spec fn spec_is_boss_unlocked(self, boss: BossType) -> bool {
        self.unlocked_bosses@.contains(boss)
    }

    /// True when `boss` has been unlocked.
    pub fn is_boss_unlocked(&self, boss: BossType) -> (r: bool)
        ensures
            r == self.spec_is_boss_unlocked(boss),
    {
        let mut i: usize = 0;
        while i < self.unlocked_bosses.len()
            invariant
                i <= self.unlocked_bosses@.len(),
                forall|j: int| 0 <= j < i ==> self.unlocked_bosses@[j] != boss,
            decreases self.unlocked_bosses@.len() - i,
        {
            if self.unlocked_bosses[i] == boss {
                assert(self.unlocked_bosses@.contains(boss));
                return true;
            }
            i = i + 1;
        }
        assert(!self.unlocked_bosses@.contains(boss));
        false
    }

    /// Adds `boss` to the unlocked set; a second unlock of the same archetype
    /// changes nothing.
    pub fn unlock_boss(&mut self, boss: BossType)
        requires
            old(self).unlocked_bosses@.len() < usize::MAX,
        ensures
            final(self).spec_is_boss_unlocked(boss),
            final(self).statistics == old(self).statistics,
            old(self).spec_is_boss_unlocked(boss) ==> *final(self) == *old(self),
            !old(self).spec_is_boss_unlocked(boss) ==> final(self).unlocked_bosses@
                == old(self).unlocked_bosses@.push(boss),
            forall|b: BossType|
                old(self).spec_is_boss_unlocked(b) ==> final(self).spec_is_boss_unlocked(b),
    {
        if !self.is_boss_unlocked(boss) {
            self.unlocked_bosses.push(boss);
            assert forall|b: BossType| old(self).spec_is_boss_unlocked(b)
                implies self.spec_is_boss_unlocked(b) by {
                let j = choose|j: int|
                    0 <= j < old(self).unlocked_bosses@.len()
                        && old(self).unlocked_bosses@[j] == b;
                assert(self.unlocked_bosses@[j] == b);
            }
            assert(self.unlocked_bosses@.last() == boss);
        }
    }

    /// Counts a fight as started.
    pub fn record_fight_start(&mut self, boss: BossType)
        requires
            old(self).statistics.total_fights < u32::MAX,
        ensures
            final(self).statistics.total_fights == old(self).statistics.total_fights + 1,
            final(self).statistics.total_wins == old(self).statistics.total_wins,
            final(self).statistics.current_win_streak
                == old(self).statistics.current_win_streak,
            final(self).statistics.best_win_streak == old(self).statistics.best_win_streak,
            final(self).statistics.boss_stats == old(self).statistics.boss_stats,
            final(self).unlocked_bosses@ == old(self).unlocked_bosses@,
    {
        let _ = boss;
        self.statistics.total_fights = self.statistics.total_fights + 1;
    }

    /// Records a human victory over `boss`: bumps the global win counters and
    /// streaks, and folds the fight's duration and final combo into the
    /// archetype's record.
    pub fn record_victory(&mut self, boss: BossType, fight_duration_ms: u64, final_combo: u32)
        requires
            old(self).statistics.total_wins < u32::MAX,
            old(self).statistics.current_win_streak < u32::MAX,
            old(self).statistics.boss_stats.spec_get(boss).wins < u32::MAX,
        ensures
            final(self).statistics == spec_after_victory(
                old(self).statistics,
                boss,
                fight_duration_ms,
                final_combo,
            ),
            final(self).unlocked_bosses@ == old(self).unlocked_bosses@,
    {
        self.statistics.total_wins = self.statistics.total_wins + 1;
        self.statistics.current_win_streak = self.statistics.current_win_streak + 1;
        if self.statistics.current_win_streak > self.statistics.best_win_streak {
            self.statistics.best_win_streak = self.statistics.current_win_streak;
        }

        let mut stat = self.statistics.boss_stats.get(boss);
        stat.wins = stat.wins + 1;
        if final_combo > stat.best_combo {
            stat.best_combo = final_combo;
        }
        stat.fastest_victory_ms = match stat.fastest_victory_ms {
            Some(current_fastest) => if fight_duration_ms < current_fastest {
                Some(fight_duration_ms)
            } else {
                Some(current_fastest)
            },
            None => Some(fight_duration_ms),
        };
        self.statistics.boss_stats.set(boss, stat);
    }

    /// Records a defeat against `boss`: the win streak breaks and the
    /// archetype's loss count rises.
    pub fn record_defeat(&mut self, boss: BossType)
        requires
            old(self).statistics.boss_stats.spec_get(boss).losses < u32::MAX,
        ensures
            final(self).statistics == spec_after_defeat(old(self).statistics, boss),
            final(self).unlocked_bosses@ == old(self).unlocked_bosses@,
    {
        self.statistics.current_win_streak = 0;
        let mut stat = self.statistics.boss_stats.get(boss);
        stat.losses = stat.losses + 1;
        self.statistics.boss_stats.set(boss, stat);
    }

    /// The archetype to face after `current`, or `None` when `current` was
    /// the last.
    pub fn get_next_boss(&self, current: BossType) -> (r: Option<BossType>)
        ensures
            r == current.spec_successor(),
    {
        match current {
            BossType::NullPointer => Some(BossType::UndefinedBehavior),
            BossType::UndefinedBehavior => Some(BossType::DataRace),
            BossType::DataRace => Some(BossType::UseAfterFree),
            BossType::UseAfterFree => Some(BossType::BufferOverflow),
            BossType::BufferOverflow => None,
        }
    }
}

} // verus!
