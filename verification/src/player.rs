//! Per-combatant state: identity, control mode, health, facing, countdown
//! timers, block and grounded flags, and the AI mood.
//!
//! Every countdown is a plain decrementing millisecond counter owned by its
//! combatant; a counter at zero means the timer has elapsed.

use vstd::prelude::*;

use crate::game_state::{BossType, Difficulty};

verus! {

/// Identity of a combatant: 1 or 2.
#[derive(Clone, Copy, Debug, PartialEq, Eq, Structural)]
pub struct Player {
    pub id: u8,
}

/// Who steers a combatant: a human, or one of the AI archetypes.
#[derive(Clone, Copy, Debug, PartialEq, Eq, Structural)]
pub enum ControlType {
    Human,
    AI(BossType),
}

impl ControlType {
    /// True for a human-controlled combatant.
    pub open spec fn spec_is_human(self) -> bool {
        self == ControlType::Human
    }

    /// True for a human-controlled combatant.
    pub fn is_human(&self) -> (r: bool)
        ensures
            r == self.spec_is_human(),
    {
        matches!(self, ControlType::Human)
    }
}

/// Which way a combatant faces. Attack volumes spawn on this side.
#[derive(Clone, Copy, Debug, PartialEq, Eq, Structural)]
pub enum FacingDirection {
    Right,
    Left,
}

/// Hit points of a combatant, clamped to `[0, max]`.
#[derive(Clone, Copy, Debug, PartialEq, Eq, Structural)]
pub struct Health {
    pub current: i32,
    pub max: i32,
}

impl Health {
    /// Health is well formed when the current value lies in `[0, max]`.
    pub open spec fn wf(self) -> bool {
        0 <= self.current <= self.max
    }

    /// Applies one damage amount, clamping at zero.
    pub fn apply_damage(&mut self, damage: i32)
        requires
            old(self).wf(),
            damage >= 0,
        ensures
            final(self).wf(),
            final(self).max == old(self).max,
            final(self).current == if old(self).current - damage >= 0 {
                old(self).current - damage
            } else {
                0
            },
            final(self).current <= old(self).current,
    {
        if damage >= self.current {
            self.current = 0;
        } else {
            self.current = self.current - damage;
        }
    }
}

/// Walking speed of a combatant, in world units per second.
#[derive(Clone, Copy, Debug, PartialEq, Eq, Structural)]
pub struct MoveSpeed(pub u32);

/// The three attack kinds a combatant can throw.
#[derive(Clone, Copy, Debug, PartialEq, Eq, Structural)]
pub enum AttackType {
    Light,
    Heavy,
    Kick,
}

impl AttackType {
    /// The cooldown an accepted attack of this kind starts, in milliseconds.
    pub open spec fn spec_cooldown_ms(self) -> u32 {
        match self {
            AttackType::Light => 250,
            AttackType::Heavy => 400,
            AttackType::Kick => 300,
        }
    }

    /// The cooldown an accepted attack of this kind starts, in milliseconds.
    pub fn cooldown_ms(&self) -> (r: u32)
        ensures
            r == self.spec_cooldown_ms(),
    {
        match self {
            AttackType::Light => 250,
            AttackType::Heavy => 400,
            AttackType::Kick => 300,
        }
    }
}

/// Countdown until the next attack intent may be accepted. Zero means ready.
#[derive(Clone, Copy, Debug, PartialEq, Eq, Structural)]
pub struct AttackCooldown {
    pub remaining_ms: u32,
}

impl AttackCooldown {
    /// Ages the countdown by `dt_ms`, stopping at zero.
    pub fn tick(&mut self, dt_ms: u32)
        ensures
            final(self).remaining_ms == if old(self).remaining_ms >= dt_ms {
                old(self).remaining_ms - dt_ms
            } else {
                0
            },
    {
        if self.remaining_ms >= dt_ms {
            self.remaining_ms = self.remaining_ms - dt_ms;
        } else {
            self.remaining_ms = 0;
        }
    }

    /// True when the countdown has elapsed and an attack may be accepted.
    pub fn ready(&self) -> (r: bool)
        ensures
            r == (self.remaining_ms == 0),
    {
        self.remaining_ms == 0
    }
}

/// Block posture of a combatant: whether it is blocking now, how long the
/// current block still lasts, and how long until blocking is available again.
#[derive(Clone, Copy, Debug, PartialEq, Eq, Structural)]
pub struct BlockState {
    pub is_blocking: bool,
    pub block_remaining_ms: u32,
    pub cooldown_remaining_ms: u32,
}

impl BlockState {
    /// Ages both block countdowns by `dt_ms` and clears `is_blocking` once
    /// the block duration has elapsed.
    pub fn tick(&mut self, dt_ms: u32)
        ensures
            final(self).block_remaining_ms == if old(self).block_remaining_ms >= dt_ms {
                old(self).block_remaining_ms - dt_ms
            } else {
                0
            },
            final(self).cooldown_remaining_ms == if old(self).cooldown_remaining_ms >= dt_ms {
                old(self).cooldown_remaining_ms - dt_ms
            } else {
                0
            },
            final(self).is_blocking == (old(self).is_blocking
                && final(self).block_remaining_ms > 0),
    {
        if self.block_remaining_ms >= dt_ms {
            self.block_remaining_ms = self.block_remaining_ms - dt_ms;
        } else {
            self.block_remaining_ms = 0;
        }
        if self.cooldown_remaining_ms >= dt_ms {
            self.cooldown_remaining_ms = self.cooldown_remaining_ms - dt_ms;
        } else {
            self.cooldown_remaining_ms = 0;
        }
        if self.is_blocking && self.block_remaining_ms == 0 {
            self.is_blocking = false;
        }
    }
}

/// Whether the combatant stands on something and may jump.
#[derive(Clone, Copy, Debug, PartialEq, Eq, Structural)]
pub struct Grounded(pub bool);

/// Short-lived AI behavioural modifier, recomputed every tick from health
/// ratio and elapsed time.
#[derive(Clone, Copy, Debug, PartialEq, Eq, Structural)]
pub enum AIState {
    Aggressive,
    Defensive,
    Erratic,
}

/// The mood an AI combatant adopts this tick: defensive below 30% health;
/// otherwise erratic during 3 of every 10 seconds of elapsed time; otherwise
/// aggressive.
pub open spec fn spec_mood(health: Health, elapsed_ms: u64) -> AIState {
    if health.current * 10 < health.max * 3 {
        AIState::Defensive
    } else if (elapsed_ms / 1000) % 10 < 3 {
        AIState::Erratic
    } else {
        AIState::Aggressive
    }
}

/// Recomputes the AI mood from the health ratio and the elapsed match time.
pub fn update_ai_state(health: Health, elapsed_ms: u64) -> (mood: AIState)
    ensures
        mood == spec_mood(health, elapsed_ms),
{
    let current10: i64 = (health.current as i64) * 10;
    let max3: i64 = (health.max as i64) * 3;
    if current10 < max3 {
        AIState::Defensive
    } else if (elapsed_ms / 1000) % 10 < 3 {
        AIState::Erratic
    } else {
        AIState::Aggressive
    }
}

/// The full per-combatant record owned by the match session.
#[derive(Clone, Copy, Debug, PartialEq, Eq, Structural)]
pub struct Combatant {
    pub player: Player,
    pub control: ControlType,
    pub facing: FacingDirection,
    pub health: Health,
    pub move_speed: MoveSpeed,
    pub attack_cooldown: AttackCooldown,
    pub block: BlockState,
    pub grounded: Grounded,
    pub ai_state: AIState,
    /// Position reported by the external motion integrator, in world units.
    pub x: i64,
    pub y: i64,
}

impl Combatant {
    /// A combatant is well formed when its health is and its identity is one
    /// of the two sides.
    pub open spec fn wf(self) -> bool {
        &&& self.health.wf()
        &&& (self.player.id == 1 || self.player.id == 2)
    }

    /// True while the combatant has hit points left.
    pub open spec fn spec_is_alive(self) -> bool {
        self.health.current > 0
    }

    /// True while the combatant has hit points left.
    pub fn is_alive(&self) -> (r: bool)
        ensures
            r == self.spec_is_alive(),
    {
        self.health.current > 0
    }

    /// The state a combatant enters a match with: full health, timers primed
    /// with their initial durations, grounded, aggressive mood.
    pub fn new(
        id: u8,
        control: ControlType,
        facing: FacingDirection,
        max_health: i32,
        x: i64,
        y: i64,
    ) -> (c: Combatant)
        requires
            id == 1 || id == 2,
            max_health >= 0,
        ensures
            c.wf(),
            c.player.id == id,
            c.control == control,
            c.facing == facing,
            c.health == (Health { current: max_health, max: max_health }),
            c.move_speed == MoveSpeed(300),
            c.attack_cooldown.remaining_ms == 300,
            c.block == (BlockState {
                is_blocking: false,
                block_remaining_ms: 500,
                cooldown_remaining_ms: 2000,
            }),
            c.grounded == Grounded(true),
            c.x == x,
            c.y == y,
    {
        Combatant {
            player: Player { id },
            control,
            facing,
            health: Health { current: max_health, max: max_health },
            move_speed: MoveSpeed(300),
            attack_cooldown: AttackCooldown { remaining_ms: 300 },
            block: BlockState {
                is_blocking: false,
                block_remaining_ms: 500,
                cooldown_remaining_ms: 2000,
            },
            grounded: Grounded(true),
            ai_state: AIState::Aggressive,
            x,
            y,
        }
    }

    /// True while the combatant is in its blocking posture: a fact the
    /// presentation collaborator reads.
    pub fn is_blocking(&self) -> (r: bool)
        ensures
            r == self.block.is_blocking,
    {
        self.block.is_blocking
    }

    /// True while an attack's recovery runs, which is when the attack
    /// animation plays: a fact the presentation collaborator reads.
    pub fn is_attacking(&self) -> (r: bool)
        ensures
            r == (self.attack_cooldown.remaining_ms > 0),
    {
        self.attack_cooldown.remaining_ms > 0
    }

    /// True while the combatant is badly hurt, below a third of its maximum
    /// health: a fact the presentation collaborator reads.
    pub fn is_hurt(&self) -> (r: bool)
        requires
            self.wf(),
        ensures
            r == (self.health.current < self.health.max / 3),
    {
        self.health.current < self.health.max / 3
    }

    /// Restores full health and the starting position of the combatant's
    /// side, as on a fight restart.
    pub fn reset_for_restart(&mut self)
        ensures
            final(self).health.current == final(self).health.max,
            final(self).health.max == old(self).health.max,
            final(self).x == if old(self).player.id == 1 { -200 as i64 } else { 200 as i64 },
            final(self).y == 0,
            final(self).player == old(self).player,
            final(self).control == old(self).control,
    {
        self.health.current = self.health.max;
        if self.player.id == 1 {
            self.x = -200;
        } else {
            self.x = 200;
        }
        self.y = 0;
    }
}

/// The AI combatant's starting health for a difficulty: 100 scaled by the
/// health multiplier.
pub fn ai_max_health(difficulty: Difficulty) -> (r: i32)
    ensures
        r == 100 * difficulty.spec_health_multiplier() / 1000,
        0 < r <= 120,
{
    let permille = difficulty.health_multiplier();
    ((100u64 * (permille as u64)) / 1000) as i32
}

/// Turns the two combatants toward each other: whoever stands further left
/// faces right.
pub fn update_player_facing_direction(c1: &mut Combatant, c2: &mut Combatant)
    ensures
        old(c1).x < old(c2).x ==> final(c1).facing == FacingDirection::Right
            && final(c2).facing == FacingDirection::Left,
        old(c1).x >= old(c2).x ==> final(c1).facing == FacingDirection::Left
            && final(c2).facing == FacingDirection::Right,
        *final(c1) == (Combatant { facing: final(c1).facing, ..*old(c1) }),
        *final(c2) == (Combatant { facing: final(c2).facing, ..*old(c2) }),
{
    if c1.x < c2.x {
        c1.facing = FacingDirection::Right;
        c2.facing = FacingDirection::Left;
    } else {
        c1.facing = FacingDirection::Left;
        c2.facing = FacingDirection::Right;
    }
}

} // verus!
