//! The AI behavioural model: a pure function per archetype from elapsed
//! time, distance to the human combatant, health and mood to a movement
//! direction and an attack decision.
//!
//! Directions are carried in milli-units: 1000 stands for full speed toward
//! positive x. Oscillating archetypes use an integer sine: the angle is the
//! elapsed time in milliseconds read as milliradians, reduced modulo 6283
//! (one full turn), and the positive half-wave is Bhaskara's rational
//! approximation scaled to [-1000, 1000].
//!
//! Every random choice is injected as a bounded draw, so archetype behaviour
//! is replayable; [`AiDraws::fresh`] fills the draws from the process
//! random source.

use vstd::prelude::*;

use crate::game_state::BossType;
use crate::player::{AIState, AttackType};
use crate::rng::random_permille;

verus! {

/// One full turn in milliradians.
pub const TURN_MRAD: u64 = 6283;

/// Half a turn in milliradians.
pub const HALF_TURN_MRAD: u64 = 3142;

/// Bhaskara's sine approximation on the first half-wave, scaled by 1000:
/// `16000 * t * (H - t) / (5 * H * H - 4 * t * (H - t))` for a half turn `H`.
pub open spec fn spec_half_wave(theta: int) -> int {
    let p = theta * (3142 - theta);
    (16000 * p) / (49360820 - 4 * p)
}

/// The integer sine of an angle in milliradians, scaled by 1000.
pub open spec fn spec_milli_sin(angle_mrad: int) -> int {
    let x = angle_mrad % 6283;
    if x < 3142 {
        spec_half_wave(x)
    } else {
        -spec_half_wave(x - 3142)
    }
}

/// The integer sine of an angle in milliradians, scaled by 1000.
pub fn milli_sin(angle_mrad: u64) -> (r: i64)
    ensures
        r == spec_milli_sin(angle_mrad as int),
        -1000 <= r <= 1000,
{
    let x: u64 = angle_mrad % TURN_MRAD;
    let (theta, neg): (u64, bool) = if x < HALF_TURN_MRAD {
        (x, false)
    } else {
        (x - HALF_TURN_MRAD, true)
    };
    assert(theta <= 3141);
    assert(0 <= theta * (3142 - theta) <= 2468041) by (nonlinear_arith)
        requires
            theta <= 3141,
    ;
    let p: u64 = theta * (3142 - theta);
    let num: u64 = 16000 * p;
    let den: u64 = 49360820 - 4 * p;
    let q: u64 = num / den;
    assert(q <= 1000) by (nonlinear_arith)
        requires
            q == num / den,
            num == 16000 * (p as int),
            den == 49360820 - 4 * (p as int),
            p <= 2468041,
    ;
    if neg {
        -(q as i64)
    } else {
        q as i64
    }
}

/// Full speed toward the opponent: the sign of the signed distance `d`,
/// scaled to milli-units. A distance of zero reads as "behind".
pub open spec fn spec_toward(d: int) -> int {
    if d > 0 {
        1000
    } else {
        -1000
    }
}

/// The random draws one behavioural tick consumes, each uniform in
/// `[0, 1000)` except `kind`, which may be any value.
#[derive(Clone, Copy, Debug, PartialEq, Eq, Structural)]
pub struct AiDraws {
    /// Wander direction for an archetype that moves at random.
    pub wander: u32,
    /// Jitter added to the direction in an erratic mood.
    pub erratic: u32,
    /// Per-tick attack chance.
    pub attack: u32,
    /// Attack-kind choice for an archetype that mixes kinds.
    pub kind: u32,
    /// Per-tick jump chance.
    pub jump: u32,
}

impl AiDraws {
    /// The bounds each draw is produced under.
    pub open spec fn wf(self) -> bool {
        &&& self.wander < 1000
        &&& self.erratic < 1000
        &&& self.attack < 1000
        &&& self.jump < 1000
    }

    /// Fills every draw from the process random source.
    pub fn fresh() -> (d: AiDraws)
        ensures
            d.wf(),
    {
        AiDraws {
            wander: random_permille(),
            erratic: random_permille(),
            attack: random_permille(),
            kind: random_permille(),
            jump: random_permille(),
        }
    }
}

/// The base movement direction of an archetype, before the mood modifier, in
/// milli-units. `d` is the signed x distance from this combatant to the
/// human; `wander_draw` is uniform in `[0, 1000)`.
pub open spec fn spec_base_direction(
    boss: BossType,
    elapsed_ms: u64,
    d: int,
    wander_draw: u32,
) -> int {
    match boss {
        BossType::NullPointer => if elapsed_ms % 3000 > 2500 {
            4 * wander_draw - 2000
        } else {
            spec_toward(d)
        },
        BossType::UndefinedBehavior => 2 * spec_milli_sin(elapsed_ms as int),
        BossType::DataRace => {
            let phase_dir: int = if spec_milli_sin(2 * ((elapsed_ms as int) % 6283)) > 0 {
                1000
            } else {
                -1000
            };
            if -100 < d < 100 {
                -phase_dir
            } else {
                spec_toward(d)
            }
        },
        BossType::UseAfterFree => spec_toward(d),
        BossType::BufferOverflow => if d > 0 {
            500
        } else {
            -500
        },
    }
}

/// The base movement direction of an archetype, before the mood modifier.
pub fn ai_base_direction(boss: BossType, elapsed_ms: u64, d: i64, wander_draw: u32) -> (r: i64)
    requires
        wander_draw < 1000,
    ensures
        r == spec_base_direction(boss, elapsed_ms, d as int, wander_draw),
        -2000 <= r <= 2000,
{
    match boss {
        BossType::NullPointer => {
            if elapsed_ms % 3000 > 2500 {
                4 * (wander_draw as i64) - 2000
            } else if d > 0 {
                1000
            } else {
                -1000
            }
        }
        BossType::UndefinedBehavior => 2 * milli_sin(elapsed_ms),
        BossType::DataRace => {
            let phase = milli_sin(2 * (elapsed_ms % TURN_MRAD));
            let phase_dir: i64 = if phase > 0 {
                1000
            } else {
                -1000
            };
            if -100 < d && d < 100 {
                -phase_dir
            } else if d > 0 {
                1000
            } else {
                -1000
            }
        }
        BossType::UseAfterFree => {
            if d > 0 {
                1000
            } else {
                -1000
            }
        }
        BossType::BufferOverflow => {
            if d > 0 {
                500
            } else {
                -500
            }
        }
    }
}

/// The mood modifier on a base direction: an aggressive mood scales it by
/// three halves, a defensive mood overrides it to flee the human, an erratic
/// mood adds a jitter uniform in `[-1000, 1000)`.
pub open spec fn spec_apply_mood(mood: AIState, base: int, d: int, erratic_draw: u32) -> int {
    match mood {
        AIState::Aggressive => if base >= 0 {
            base * 3 / 2
        } else {
            -((-base) * 3 / 2)
        },
        AIState::Defensive => if d > 0 {
            -1000
        } else {
            1000
        },
        AIState::Erratic => base + 2 * erratic_draw - 1000,
    }
}

/// Applies the mood modifier to a base direction.
pub fn apply_mood(mood: AIState, base: i64, d: i64, erratic_draw: u32) -> (r: i64)
    requires
        -2000 <= base <= 2000,
        erratic_draw < 1000,
    ensures
        r == spec_apply_mood(mood, base as int, d as int, erratic_draw),
        -3000 <= r <= 3000,
{
    match mood {
        AIState::Aggressive => {
            if base >= 0 {
                base * 3 / 2
            } else {
                -((-base) * 3 / 2)
            }
        }
        AIState::Defensive => {
            if d > 0 {
                -1000
            } else {
                1000
            }
        }
        AIState::Erratic => base + 2 * (erratic_draw as i64) - 1000,
    }
}

/// The movement direction an AI combatant takes this tick, in milli-units:
/// the archetype's base direction under the current mood's modifier.
pub open spec fn spec_ai_movement_direction(
    boss: BossType,
    mood: AIState,
    elapsed_ms: u64,
    d: int,
    wander_draw: u32,
    erratic_draw: u32,
) -> int {
    spec_apply_mood(mood, spec_base_direction(boss, elapsed_ms, d, wander_draw), d, erratic_draw)
}

/// Decides the movement direction of an AI combatant for this tick. `d` is
/// the signed x distance to the human combatant.
pub fn ai_movement_direction(
    boss: BossType,
    mood: AIState,
    elapsed_ms: u64,
    d: i64,
    draws: AiDraws,
) -> (r: i64)
    requires
        draws.wf(),
    ensures
        r == spec_ai_movement_direction(boss, mood, elapsed_ms, d as int, draws.wander, draws.erratic),
        -3000 <= r <= 3000,
{
    let base = ai_base_direction(boss, elapsed_ms, d, draws.wander);
    apply_mood(mood, base, d, draws.erratic)
}

/// The squared distance an archetype must close before its attack fires.
pub open spec fn spec_attack_range_sq(boss: BossType) -> int {
    match boss {
        BossType::NullPointer => 150int * 150,
        BossType::UndefinedBehavior => 200int * 200,
        BossType::DataRace => 120int * 120,
        BossType::UseAfterFree => 180int * 180,
        BossType::BufferOverflow => 160int * 160,
    }
}

/// The time gate of an archetype's attack: when its clock phase fires this
/// tick. `freq_permille` stretches the NullPointer threshold; a per-tick
/// chance uses `attack_draw`, uniform in `[0, 1000)`.
pub open spec fn spec_attack_gate(
    boss: BossType,
    elapsed_ms: u64,
    freq_permille: u32,
    attack_draw: u32,
) -> bool {
    match boss {
        BossType::NullPointer => elapsed_ms % 4000 > 3500 * freq_permille / 1000,
        BossType::UndefinedBehavior => attack_draw < 50,
        BossType::DataRace => ((elapsed_ms % 1000) * 3) % 1000 < 300,
        BossType::UseAfterFree => elapsed_ms % 2000 < 200,
        BossType::BufferOverflow => elapsed_ms % 5000 < 500,
    }
}

/// Whether an archetype attacks this tick: the human must be within the
/// archetype's range and the archetype's time gate must fire.
pub open spec fn spec_ai_should_attack(
    boss: BossType,
    elapsed_ms: u64,
    dist_sq: int,
    freq_permille: u32,
    attack_draw: u32,
) -> bool {
    dist_sq < spec_attack_range_sq(boss) && spec_attack_gate(
        boss,
        elapsed_ms,
        freq_permille,
        attack_draw,
    )
}

/// The attack kind an archetype prefers; an archetype that mixes kinds picks
/// uniformly with `kind_draw`.
pub open spec fn spec_ai_attack_kind(boss: BossType, kind_draw: u32) -> AttackType {
    match boss {
        BossType::NullPointer => AttackType::Light,
        BossType::UndefinedBehavior => if kind_draw % 3 == 0 {
            AttackType::Light
        } else if kind_draw % 3 == 1 {
            AttackType::Heavy
        } else {
            AttackType::Kick
        },
        BossType::DataRace => AttackType::Light,
        BossType::UseAfterFree => AttackType::Heavy,
        BossType::BufferOverflow => AttackType::Heavy,
    }
}

/// Decides whether and how an AI combatant attacks this tick, from the
/// archetype, the elapsed match time, both positions, the difficulty's
/// attack-frequency multiplier and the tick's draws.
pub fn ai_attack_decision(
    boss: BossType,
    elapsed_ms: u64,
    my_x: i64,
    my_y: i64,
    human_x: i64,
    human_y: i64,
    freq_permille: u32,
    draws: AiDraws,
) -> (r: Option<AttackType>)
    requires
        draws.wf(),
        freq_permille <= 1500,
        -1000000000 <= my_x <= 1000000000,
        -1000000000 <= my_y <= 1000000000,
        -1000000000 <= human_x <= 1000000000,
        -1000000000 <= human_y <= 1000000000,
    ensures
        ({
            let dist_sq = (human_x - my_x) * (human_x - my_x) + (human_y - my_y) * (human_y
                - my_y);
            if spec_ai_should_attack(boss, elapsed_ms, dist_sq, freq_permille, draws.attack) {
                r == Some(spec_ai_attack_kind(boss, draws.kind))
            } else {
                r == Option::<AttackType>::None
            }
        }),
{
    let dx: i64 = human_x - my_x;
    let dy: i64 = human_y - my_y;
    assert(dx * dx + dy * dy <= 8000000000000000000) by (nonlinear_arith)
        requires
            -2000000000 <= dx <= 2000000000,
            -2000000000 <= dy <= 2000000000,
    ;
    assert(dx * dx >= 0 && dy * dy >= 0) by (nonlinear_arith);
    let dist_sq: i64 = dx * dx + dy * dy;

    let should_attack: bool = match boss {
        BossType::NullPointer => {
            let threshold: u64 = 3500 * (freq_permille as u64) / 1000;
            dist_sq < 150 * 150 && elapsed_ms % 4000 > threshold
        }
        BossType::UndefinedBehavior => dist_sq < 200 * 200 && draws.attack < 50,
        BossType::DataRace => dist_sq < 120 * 120 && ((elapsed_ms % 1000) * 3) % 1000 < 300,
        BossType::UseAfterFree => dist_sq < 180 * 180 && elapsed_ms % 2000 < 200,
        BossType::BufferOverflow => dist_sq < 160 * 160 && elapsed_ms % 5000 < 500,
    };

    if should_attack {
        Some(
            match boss {
                BossType::NullPointer => AttackType::Light,
                BossType::UndefinedBehavior => {
                    if draws.kind % 3 == 0 {
                        AttackType::Light
                    } else if draws.kind % 3 == 1 {
                        AttackType::Heavy
                    } else {
                        AttackType::Kick
                    }
                }
                BossType::DataRace => AttackType::Light,
                BossType::UseAfterFree => AttackType::Heavy,
                BossType::BufferOverflow => AttackType::Heavy,
            },
        )
    } else {
        None
    }
}

} // verus!
