//! The attack intent resolver: merges human input signals and AI decisions
//! into accepted attack, block and jump actions, gated by the cooldown
//! countdowns.

use vstd::prelude::*;

use crate::ai::{ai_attack_decision, ai_movement_direction, spec_ai_attack_kind,
    spec_ai_movement_direction, spec_ai_should_attack, AiDraws};
use crate::combat::SpawnHitboxEvent;
use crate::game_state::Difficulty;
use crate::player::{AttackType, BlockState, Combatant, ControlType};

verus! {

/// The upward velocity a jump starts with, in world units per second. The
/// motion integrator applies it when a jump decision fires.
pub const JUMP_VELOCITY: u32 = 600;

/// The edge-triggered input signals of one human combatant for one tick, as
/// the input collaborator reports them. Movement keys are level signals; the
/// rest fire on the press alone.
#[derive(Clone, Copy, Debug, PartialEq, Eq, Structural)]
pub struct HumanInputs {
    pub move_left: bool,
    pub move_right: bool,
    pub light_pressed: bool,
    pub heavy_pressed: bool,
    pub kick_pressed: bool,
    pub block_pressed: bool,
    pub jump_pressed: bool,
}

impl HumanInputs {
    /// A tick with no key down.
    pub fn none() -> (r: HumanInputs)
        ensures
            r == HumanInputs::spec_none(),
    {
        HumanInputs {
            move_left: false,
            move_right: false,
            light_pressed: false,
            heavy_pressed: false,
            kick_pressed: false,
            block_pressed: false,
            jump_pressed: false,
        }
    }

    /// A tick with no key down.
    pub open spec fn spec_none() -> HumanInputs {
        HumanInputs {
            move_left: false,
            move_right: false,
            light_pressed: false,
            heavy_pressed: false,
            kick_pressed: false,
            block_pressed: false,
            jump_pressed: false,
        }
    }
}

/// The attack kind a human's keys ask for this tick: the light key wins over
/// the heavy key, which wins over the kick key.
pub open spec fn spec_human_attack_choice(inputs: HumanInputs) -> Option<AttackType> {
    if inputs.light_pressed {
        Some(AttackType::Light)
    } else if inputs.heavy_pressed {
        Some(AttackType::Heavy)
    } else if inputs.kick_pressed {
        Some(AttackType::Kick)
    } else {
        None
    }
}

/// Reads the attack kind a human's keys ask for this tick.
pub fn human_attack_choice(inputs: &HumanInputs) -> (r: Option<AttackType>)
    ensures
        r == spec_human_attack_choice(*inputs),
{
    if inputs.light_pressed {
        Some(AttackType::Light)
    } else if inputs.heavy_pressed {
        Some(AttackType::Heavy)
    } else if inputs.kick_pressed {
        Some(AttackType::Kick)
    } else {
        None
    }
}

/// The attack kind a combatant asks for this tick, before cooldown gating:
/// from the keys for a human, from the archetype model for an AI (which
/// needs the human combatant's position and never attacks without one).
pub open spec fn spec_desired_attack(
    c: Combatant,
    inputs: HumanInputs,
    human_pos: Option<(i64, i64)>,
    elapsed_ms: u64,
    difficulty: Difficulty,
    draws: AiDraws,
) -> Option<AttackType> {
    match c.control {
        ControlType::Human => spec_human_attack_choice(inputs),
        ControlType::AI(boss) => match human_pos {
            Some((hx, hy)) => {
                let dist_sq = (hx - c.x) * (hx - c.x) + (hy - c.y) * (hy - c.y);
                if spec_ai_should_attack(
                    boss,
                    elapsed_ms,
                    dist_sq,
                    difficulty.spec_attack_frequency_multiplier(),
                    draws.attack,
                ) {
                    Some(spec_ai_attack_kind(boss, draws.kind))
                } else {
                    None
                }
            },
            None => None,
        },
    }
}

/// Decides the attack kind a combatant asks for this tick, before cooldown
/// gating.
pub fn desired_attack(
    c: &Combatant,
    inputs: &HumanInputs,
    human_pos: Option<(i64, i64)>,
    elapsed_ms: u64,
    difficulty: Difficulty,
    draws: AiDraws,
) -> (r: Option<AttackType>)
    requires
        draws.wf(),
        -1000000000 <= c.x <= 1000000000,
        -1000000000 <= c.y <= 1000000000,
        human_pos matches Some(p) ==> -1000000000 <= p.0 <= 1000000000 && -1000000000 <= p.1
            <= 1000000000,
    ensures
        r == spec_desired_attack(*c, *inputs, human_pos, elapsed_ms, difficulty, draws),
{
    match &c.control {
        ControlType::Human => human_attack_choice(inputs),
        ControlType::AI(boss) => match human_pos {
            Option::Some((hx, hy)) => ai_attack_decision(
                *boss,
                elapsed_ms,
                c.x,
                c.y,
                hx,
                hy,
                difficulty.attack_frequency_multiplier(),
                draws,
            ),
            Option::None => None,
        },
    }
}

/// Accepts or rejects a desired attack: an intent is accepted exactly when
/// one is desired and the attack cooldown has fully elapsed. Acceptance
/// resets the cooldown to the kind's duration and yields the intent; nothing
/// else about the combatant changes, and a rejection changes nothing.
pub fn resolve_attack_intent(c: &mut Combatant, desired: Option<AttackType>) -> (r: Option<
    SpawnHitboxEvent,
>)
    ensures
        // Cooldown gating: an intent is never accepted while the countdown runs.
        r is Some ==> old(c).attack_cooldown.remaining_ms == 0,
        (r is Some) == (old(c).attack_cooldown.remaining_ms == 0 && desired is Some),
        r is Some ==> r == Some(
            SpawnHitboxEvent {
                attacker: old(c).player.id,
                attack_type: desired->Some_0,
            },
        ) && final(c).attack_cooldown.remaining_ms == desired->Some_0.spec_cooldown_ms(),
        r is None ==> *final(c) == *old(c),
        *final(c) == (Combatant { attack_cooldown: final(c).attack_cooldown, ..*old(c) }),
{
    if !c.attack_cooldown.ready() {
        return None;
    }
    match desired {
        Option::Some(kind) => {
            c.attack_cooldown.remaining_ms = kind.cooldown_ms();
            Some(SpawnHitboxEvent { attacker: c.player.id, attack_type: kind })
        },
        Option::None => None,
    }
}

/// Whether a combatant wants to block this tick: a human on the block key,
/// an AI never (an explicit no-op of the behavioural model, not an
/// oversight).
pub open spec fn spec_wants_block(c: Combatant, inputs: HumanInputs) -> bool {
    match c.control {
        ControlType::Human => inputs.block_pressed,
        ControlType::AI(_) => false,
    }
}

/// Accepts or rejects a block intent: a block starts exactly when one is
/// wanted and the block cooldown has fully elapsed, setting the blocking
/// flag and restarting the block duration (500 ms) and the block cooldown
/// (2000 ms). Anything else leaves the combatant unchanged.
pub fn player_block(c: &mut Combatant, inputs: &HumanInputs)
    ensures
        ({
            let accepted = old(c).block.cooldown_remaining_ms == 0 && spec_wants_block(
                *old(c),
                *inputs,
            );
            &&& accepted ==> final(c).block == (BlockState {
                is_blocking: true,
                block_remaining_ms: 500,
                cooldown_remaining_ms: 2000,
            })
            &&& !accepted ==> *final(c) == *old(c)
            &&& *final(c) == (Combatant { block: final(c).block, ..*old(c) })
            &&& final(c).block.is_blocking == (accepted || old(c).block.is_blocking)
        }),
{
    if c.block.cooldown_remaining_ms == 0 {
        let should_block = match &c.control {
            ControlType::Human => inputs.block_pressed,
            ControlType::AI(_) => false,
        };
        if should_block {
            c.block.is_blocking = true;
            c.block.block_remaining_ms = 500;
            c.block.cooldown_remaining_ms = 2000;
        }
    }
}

/// Whether a combatant jumps this tick: only while grounded; a human on the
/// jump key, an AI with a two-percent chance per tick.
pub open spec fn spec_wants_jump(c: Combatant, inputs: HumanInputs, jump_draw: u32) -> bool {
    c.grounded.0 && match c.control {
        ControlType::Human => inputs.jump_pressed,
        ControlType::AI(_) => jump_draw < 20,
    }
}

/// Decides whether a combatant jumps this tick.
pub fn player_jump(c: &Combatant, inputs: &HumanInputs, jump_draw: u32) -> (r: bool)
    requires
        jump_draw < 1000,
    ensures
        r == spec_wants_jump(*c, *inputs, jump_draw),
{
    if !c.grounded.0 {
        return false;
    }
    match &c.control {
        ControlType::Human => inputs.jump_pressed,
        ControlType::AI(_) => jump_draw < 20,
    }
}

/// The movement direction a combatant takes this tick, in milli-units: for a
/// human, the held movement keys; for an AI with a known human position, the
/// archetype model under the current mood; for an AI alone, standing still.
pub open spec fn spec_movement_direction(
    c: Combatant,
    inputs: HumanInputs,
    human_x: Option<i64>,
    elapsed_ms: u64,
    draws: AiDraws,
) -> int {
    match c.control {
        ControlType::Human => (if inputs.move_right {
            1000int
        } else {
            0int
        }) - (if inputs.move_left {
            1000int
        } else {
            0int
        }),
        ControlType::AI(boss) => match human_x {
            Some(hx) => spec_ai_movement_direction(
                boss,
                c.ai_state,
                elapsed_ms,
                hx - c.x,
                draws.wander,
                draws.erratic,
            ),
            None => 0,
        },
    }
}

/// The horizontal velocity handed to the motion integrator, in thousandths
/// of world units per second: the direction scaled by the combatant's move
/// speed, and for an AI by the difficulty's speed multiplier.
pub open spec fn spec_movement_velocity(
    c: Combatant,
    inputs: HumanInputs,
    human_x: Option<i64>,
    elapsed_ms: u64,
    difficulty: Difficulty,
    draws: AiDraws,
) -> int {
    let dir = spec_movement_direction(c, inputs, human_x, elapsed_ms, draws);
    let mult: int = match c.control {
        ControlType::Human => 1000,
        ControlType::AI(_) => difficulty.spec_speed_multiplier() as int,
    };
    if dir >= 0 {
        dir * c.move_speed.0 * mult / 1000
    } else {
        -((-dir) * c.move_speed.0 * mult / 1000)
    }
}

/// Decides the horizontal velocity of a combatant for this tick.
pub fn player_movement(
    c: &Combatant,
    inputs: &HumanInputs,
    human_x: Option<i64>,
    elapsed_ms: u64,
    difficulty: Difficulty,
    draws: AiDraws,
) -> (v: i64)
    requires
        draws.wf(),
        c.move_speed.0 <= 1000000,
        -1000000000 <= c.x <= 1000000000,
        human_x matches Some(hx) ==> -1000000000 <= hx <= 1000000000,
    ensures
        v == spec_movement_velocity(*c, *inputs, human_x, elapsed_ms, difficulty, draws),
{
    let (dir, mult): (i64, u32) = match &c.control {
        ControlType::Human => {
            let d: i64 = (if inputs.move_right {
                1000i64
            } else {
                0i64
            }) - (if inputs.move_left {
                1000i64
            } else {
                0i64
            });
            (d, 1000)
        },
        ControlType::AI(boss) => {
            let d: i64 = match human_x {
                Option::Some(hx) => ai_movement_direction(
                    *boss,
                    c.ai_state,
                    elapsed_ms,
                    hx - c.x,
                    draws,
                ),
                Option::None => 0,
            };
            (d, difficulty.speed_multiplier())
        },
    };
    proof {
        assert(-3000 <= dir <= 3000);
        assert(mult <= 1500);
    }
    if dir >= 0 {
        assert((dir as u64) * (c.move_speed.0 as u64) <= 3000000000u64 && (dir as u64) * (
        c.move_speed.0 as u64) * (mult as u64) <= 4500000000000u64) by (nonlinear_arith)
            requires
                0 <= dir <= 3000,
                c.move_speed.0 <= 1000000,
                mult <= 1500,
        ;
        let mag: u64 = (dir as u64) * (c.move_speed.0 as u64) * (mult as u64) / 1000;
        mag as i64
    } else {
        assert(((-dir) as u64) * (c.move_speed.0 as u64) <= 3000000000u64 && ((-dir) as u64) * (
        c.move_speed.0 as u64) * (mult as u64) <= 4500000000000u64) by (nonlinear_arith)
            requires
                0 <= -dir <= 3000,
                c.move_speed.0 <= 1000000,
                mult <= 1500,
        ;
        let mag: u64 = ((-dir) as u64) * (c.move_speed.0 as u64) * (mult as u64) / 1000;
        -(mag as i64)
    }
}

} // verus!
