//! The match session: both combatant records, the live attack volumes, the
//! fight tracker and the winner, advanced by a fixed-order tick.
//!
//! One tick runs the strict stage sequence: behavioural update, then the
//! movement, attack, block and jump decisions, then cooldown aging, then
//! attack-volume spawn and aging, then collision resolution over the
//! overlaps the motion integrator reported, then damage application, the
//! combo update and the outcome evaluation. Consumed volume identities are
//! never reused: fresh volumes always take identities at or above the
//! store's high-water mark, so a volume that registered its one contact is
//! gone for good.

use vstd::prelude::*;

use crate::ai::AiDraws;
use crate::combat::{apply_damage, detect_collisions, initialize_fight_tracker,
    lemma_all_messages_unblocked, lemma_damage_messages_props, lemma_resolve_overlaps_len,
    lemma_unblocked_count_blocks_only, spec_damage_messages, spec_health_after, spec_touches_any,
    update_combo_tracker, update_grounded, Contact, DamageEvent, FightTracker, Impulse,
    OverlapPair, SpawnHitboxEvent, VolumeStore};
use crate::game_state::{AppState, GameConfig, Winner};
use crate::intent::{desired_attack, player_block, player_jump, player_movement,
    resolve_attack_intent, spec_desired_attack, spec_movement_velocity, spec_wants_jump,
    HumanInputs};
use crate::outcome::check_for_game_over;
use crate::player::{ai_max_health, spec_mood, update_ai_state, update_player_facing_direction,
    Combatant, ControlType, FacingDirection, Grounded, Health};
use crate::progress::PlayerProgress;

verus! {

/// Everything the outside hands one tick: the time step, each human side's
/// input signals, the combatant positions and overlap reports from the
/// motion integrator, and the tick's random draws.
#[derive(Clone, Debug)]
pub struct TickInputs {
    pub dt_ms: u32,
    pub p1: HumanInputs,
    pub p2: HumanInputs,
    pub p1_x: i64,
    pub p1_y: i64,
    pub p2_x: i64,
    pub p2_y: i64,
    pub overlaps: Vec<OverlapPair>,
    pub draws: AiDraws,
}

impl TickInputs {
    /// Draws within their bounds and positions within the coordinate range
    /// the engine works in.
    pub open spec fn wf(self) -> bool {
        &&& self.draws.wf()
        &&& -1000000000 <= self.p1_x <= 1000000000
        &&& -1000000000 <= self.p1_y <= 1000000000
        &&& -1000000000 <= self.p2_x <= 1000000000
        &&& -1000000000 <= self.p2_y <= 1000000000
    }
}

/// The movement the tick asks the motion integrator to apply to one
/// combatant: a horizontal velocity in thousandths of world units per
/// second, and whether to start a jump.
#[derive(Clone, Copy, Debug, PartialEq, Eq, Structural)]
pub struct MoveCommand {
    pub id: u8,
    pub vel_x_millis: i64,
    pub jump: bool,
}

/// Everything one tick emits for the outside collaborators: movement
/// commands, the attack volumes spawned, the contacts resolved, the damage
/// messages, the knockback impulses, and the state the match moves to once
/// it ended.
#[derive(Clone, Debug)]
pub struct TickOutput {
    pub move1: MoveCommand,
    pub move2: MoveCommand,
    pub spawned: Vec<SpawnHitboxEvent>,
    pub contacts: Vec<Contact>,
    pub damage_events: Vec<DamageEvent>,
    pub impulses: Vec<Impulse>,
    pub next_state: Option<AppState>,
}

/// The decision stages' outputs: movement commands and accepted attack
/// intents.
#[derive(Clone, Debug)]
pub struct DecisionCommands {
    pub move1: MoveCommand,
    pub move2: MoveCommand,
    pub spawned: Vec<SpawnHitboxEvent>,
}

/// The combat stages' outputs: contacts, damage messages, impulses and the
/// state the match moves to once it ended.
#[derive(Clone, Debug)]
pub struct CombatResults {
    pub contacts: Vec<Contact>,
    pub damage_events: Vec<DamageEvent>,
    pub impulses: Vec<Impulse>,
    pub next_state: Option<AppState>,
}

/// A match in progress: the two combatants, the live attack volumes, the
/// fight tracker, the recorded winner and the session clock.
#[derive(Clone, Debug)]
pub struct FightSession {
    pub config: GameConfig,
    pub c1: Combatant,
    pub c2: Combatant,
    pub volumes: VolumeStore,
    pub tracker: FightTracker,
    pub winner: Winner,
    pub elapsed_ms: u64,
    pub ended: bool,
}

/// Combatant 1 as the decision stages of a tick see it: at the reported
/// position, grounded per the overlap reports, turned toward the opponent.
pub open spec fn spec_decision_state_1(s: FightSession, inputs: TickInputs) -> Combatant {
    Combatant {
        x: inputs.p1_x,
        y: inputs.p1_y,
        grounded: Grounded(spec_touches_any(inputs.overlaps@, s.c1.player.id)),
        facing: if inputs.p1_x < inputs.p2_x {
            FacingDirection::Right
        } else {
            FacingDirection::Left
        },
        ..s.c1
    }
}

/// Combatant 2 as the decision stages of a tick see it: at the reported
/// position, grounded per the overlap reports, turned toward the opponent,
/// and under the mood recomputed for the new clock when AI-controlled.
pub open spec fn spec_decision_state_2(s: FightSession, inputs: TickInputs, now_ms: u64)
-> Combatant {
    Combatant {
        x: inputs.p2_x,
        y: inputs.p2_y,
        grounded: Grounded(spec_touches_any(inputs.overlaps@, s.c2.player.id)),
        facing: if inputs.p1_x < inputs.p2_x {
            FacingDirection::Left
        } else {
            FacingDirection::Right
        },
        ai_state: match s.c2.control {
            ControlType::AI(_) => spec_mood(s.c2.health, now_ms),
            ControlType::Human => s.c2.ai_state,
        },
        ..s.c2
    }
}

impl FightSession {
    /// The session invariant: both combatants well formed under their fixed
    /// identities, combatant 1 human-controlled, the volume store well
    /// formed, positions in range, the walking speed in range, and the
    /// fight start on the session clock.
    pub open spec fn wf(self) -> bool {
        &&& self.c1.wf()
        &&& self.c2.wf()
        &&& self.c1.player.id == 1
        &&& self.c2.player.id == 2
        &&& self.c1.control == ControlType::Human
        &&& self.volumes.wf()
        &&& -1000000000 <= self.c1.x <= 1000000000
        &&& -1000000000 <= self.c1.y <= 1000000000
        &&& -1000000000 <= self.c2.x <= 1000000000
        &&& -1000000000 <= self.c2.y <= 1000000000
        &&& self.c1.move_speed.0 <= 1000000
        &&& self.c2.move_speed.0 <= 1000000
        &&& self.tracker.fight_start_time matches Some(s) && s <= self.elapsed_ms
    }

    /// Sets up a match under `config`: combatant 1 human at the left start,
    /// combatant 2 at the right start, human or the configured archetype
    /// with difficulty-scaled health; the fight is counted in the
    /// progression record and the tracker starts at combo zero.
    pub fn new(config: GameConfig, progress: &mut PlayerProgress) -> (s: FightSession)
        requires
            old(progress).statistics.total_fights < u32::MAX,
        ensures
            s.wf(),
            !s.ended,
            s.config == config,
            s.elapsed_ms == 0,
            s.winner.is_unset(),
            s.tracker == (FightTracker {
                fight_start_time: Some(0u64),
                current_combo: 0,
                boss: config.boss,
            }),
            s.c1.health == (Health { current: 100, max: 100 }),
            s.c2.health == (Health {
                current: (if config.player2_is_human {
                    100int
                } else {
                    100 * config.difficulty.spec_health_multiplier() / 1000
                }) as i32,
                max: (if config.player2_is_human {
                    100int
                } else {
                    100 * config.difficulty.spec_health_multiplier() / 1000
                }) as i32,
            }),
            s.c2.control == (if config.player2_is_human {
                ControlType::Human
            } else {
                ControlType::AI(config.boss)
            }),
            s.volumes.volumes@.len() == 0,
            final(progress).statistics.total_fights == old(progress).statistics.total_fights
                + 1,
            final(progress).statistics.total_wins == old(progress).statistics.total_wins,
            final(progress).statistics.boss_stats == old(progress).statistics.boss_stats,
            final(progress).unlocked_bosses@ == old(progress).unlocked_bosses@,
    {
        let tracker = initialize_fight_tracker(&config, progress, 0);
        let c1 = Combatant::new(1, ControlType::Human, FacingDirection::Right, 100, -200, 0);
        let (p2_control, p2_health) = if config.player2_is_human {
            (ControlType::Human, 100)
        } else {
            (ControlType::AI(config.boss), ai_max_health(config.difficulty))
        };
        let c2 = Combatant::new(2, p2_control, FacingDirection::Left, p2_health, 200, 0);
        FightSession {
            config,
            c1,
            c2,
            volumes: VolumeStore::new(),
            tracker,
            winner: Winner { player_id: None, is_human_winner: None },
            elapsed_ms: 0,
            ended: false,
        }
    }

    /// Runs the behavioural update and the decision stages of one tick, on
    /// the decision states built from the reported positions and overlaps:
    /// movement and jump decisions, attack intents gated by the attack
    /// cooldown, block intents gated by the block cooldown, then the
    /// cooldown aging and the spawn and aging of attack volumes. Health, the
    /// tracker, the winner and the clock are untouched.
    fn run_decisions(&mut self, inputs: &TickInputs, now: u64) -> (cmd: DecisionCommands)
        requires
            old(self).wf(),
            inputs.wf(),
            old(self).volumes.next_id + 2 <= u64::MAX,
            old(self).volumes.volumes@.len() + 2 <= usize::MAX,
        ensures
            final(self).wf(),
            final(self).config == old(self).config,
            final(self).tracker == old(self).tracker,
            final(self).winner == old(self).winner,
            final(self).ended == old(self).ended,
            final(self).elapsed_ms == old(self).elapsed_ms,
            final(self).c1.health == old(self).c1.health,
            final(self).c2.health == old(self).c2.health,
            final(self).c1.player == old(self).c1.player,
            final(self).c2.player == old(self).c2.player,
            final(self).c1.control == old(self).c1.control,
            final(self).c2.control == old(self).c2.control,
            old(self).volumes.next_id <= final(self).volumes.next_id <= old(
                self,
            ).volumes.next_id + 2,
            ({
                let d1 = spec_decision_state_1(*old(self), *inputs);
                let d2 = spec_decision_state_2(*old(self), *inputs, now);
                let dsr1 = spec_desired_attack(
                    d1,
                    inputs.p1,
                    Some((inputs.p1_x, inputs.p1_y)),
                    now,
                    old(self).config.difficulty,
                    inputs.draws,
                );
                let dsr2 = spec_desired_attack(
                    d2,
                    inputs.p2,
                    Some((inputs.p1_x, inputs.p1_y)),
                    now,
                    old(self).config.difficulty,
                    inputs.draws,
                );
                &&& cmd.move1 == (MoveCommand {
                    id: 1,
                    vel_x_millis: spec_movement_velocity(
                        d1,
                        inputs.p1,
                        Some(inputs.p1_x),
                        now,
                        old(self).config.difficulty,
                        inputs.draws,
                    ) as i64,
                    jump: spec_wants_jump(d1, inputs.p1, inputs.draws.jump),
                })
                &&& cmd.move2 == (MoveCommand {
                    id: 2,
                    vel_x_millis: spec_movement_velocity(
                        d2,
                        inputs.p2,
                        Some(inputs.p1_x),
                        now,
                        old(self).config.difficulty,
                        inputs.draws,
                    ) as i64,
                    jump: spec_wants_jump(d2, inputs.p2, inputs.draws.jump),
                })
                &&& cmd.spawned@ == (if old(self).c1.attack_cooldown.remaining_ms == 0
                    && dsr1 is Some {
                    seq![SpawnHitboxEvent { attacker: 1u8, attack_type: dsr1->Some_0 }]
                } else {
                    Seq::<SpawnHitboxEvent>::empty()
                }) + (if old(self).c2.attack_cooldown.remaining_ms == 0 && dsr2 is Some {
                    seq![SpawnHitboxEvent { attacker: 2u8, attack_type: dsr2->Some_0 }]
                } else {
                    Seq::<SpawnHitboxEvent>::empty()
                })
            }),
    {
        // Positions and grounding as the motion integrator reports them.
        self.c1.x = inputs.p1_x;
        self.c1.y = inputs.p1_y;
        self.c2.x = inputs.p2_x;
        self.c2.y = inputs.p2_y;
        update_grounded(&mut self.c1, &inputs.overlaps);
        update_grounded(&mut self.c2, &inputs.overlaps);
        update_player_facing_direction(&mut self.c1, &mut self.c2);

        // Stage: behavioural update.
        match &self.c2.control {
            ControlType::AI(_) => {
                self.c2.ai_state = update_ai_state(self.c2.health, now);
            },
            ControlType::Human => {},
        }
        proof {
            assert(self.c1 == spec_decision_state_1(*old(self), *inputs));
            assert(self.c2 == spec_decision_state_2(*old(self), *inputs, now));
        }

        // Stage: movement, attack, block and jump decisions.
        let human_x = Some(self.c1.x);
        let human_pos = Some((self.c1.x, self.c1.y));
        let vel1 = player_movement(
            &self.c1,
            &inputs.p1,
            human_x,
            now,
            self.config.difficulty,
            inputs.draws,
        );
        let jump1 = player_jump(&self.c1, &inputs.p1, inputs.draws.jump);
        let move1 = MoveCommand { id: 1, vel_x_millis: vel1, jump: jump1 };
        let vel2 = player_movement(
            &self.c2,
            &inputs.p2,
            human_x,
            now,
            self.config.difficulty,
            inputs.draws,
        );
        let jump2 = player_jump(&self.c2, &inputs.p2, inputs.draws.jump);
        let move2 = MoveCommand { id: 2, vel_x_millis: vel2, jump: jump2 };

        let desired1 = desired_attack(
            &self.c1,
            &inputs.p1,
            human_pos,
            now,
            self.config.difficulty,
            inputs.draws,
        );
        let intent1 = resolve_attack_intent(&mut self.c1, desired1);
        let desired2 = desired_attack(
            &self.c2,
            &inputs.p2,
            human_pos,
            now,
            self.config.difficulty,
            inputs.draws,
        );
        let intent2 = resolve_attack_intent(&mut self.c2, desired2);
        player_block(&mut self.c1, &inputs.p1);
        player_block(&mut self.c2, &inputs.p2);

        // Stage: cooldown and block aging.
        self.c1.attack_cooldown.tick(inputs.dt_ms);
        self.c2.attack_cooldown.tick(inputs.dt_ms);
        self.c1.block.tick(inputs.dt_ms);
        self.c2.block.tick(inputs.dt_ms);

        // Stage: attack-volume spawn and aging.
        let mut spawned: Vec<SpawnHitboxEvent> = Vec::new();
        match intent1 {
            Option::Some(evt) => {
                self.volumes.spawn_hitbox(evt, self.c1.facing);
                spawned.push(evt);
            },
            Option::None => {},
        }
        match intent2 {
            Option::Some(evt) => {
                self.volumes.spawn_hitbox(evt, self.c2.facing);
                spawned.push(evt);
            },
            Option::None => {},
        }
        self.volumes.despawn_hitbox_after_duration(inputs.dt_ms);

        proof {
            let d1 = spec_decision_state_1(*old(self), *inputs);
            let d2 = spec_decision_state_2(*old(self), *inputs, now);
            let dsr1 = spec_desired_attack(
                d1,
                inputs.p1,
                Some((inputs.p1_x, inputs.p1_y)),
                now,
                old(self).config.difficulty,
                inputs.draws,
            );
            let dsr2 = spec_desired_attack(
                d2,
                inputs.p2,
                Some((inputs.p1_x, inputs.p1_y)),
                now,
                old(self).config.difficulty,
                inputs.draws,
            );
            let exp1: Seq<SpawnHitboxEvent> = if old(self).c1.attack_cooldown.remaining_ms == 0
                && dsr1 is Some {
                seq![SpawnHitboxEvent { attacker: 1u8, attack_type: dsr1->Some_0 }]
            } else {
                Seq::empty()
            };
            let exp2: Seq<SpawnHitboxEvent> = if old(self).c2.attack_cooldown.remaining_ms == 0
                && dsr2 is Some {
                seq![SpawnHitboxEvent { attacker: 2u8, attack_type: dsr2->Some_0 }]
            } else {
                Seq::empty()
            };
            assert(spawned@ =~= exp1 + exp2);
        }
        DecisionCommands { move1, move2, spawned }
    }

    /// Runs the combat stages of one tick: collision resolution over the
    /// reported overlaps, damage application, the combo update and the
    /// outcome evaluation. The clock, the configuration and the decision
    /// fields of the combatants are untouched.
    fn run_combat(
        &mut self,
        overlaps: &Vec<OverlapPair>,
        now: u64,
        progress: &mut PlayerProgress,
    ) -> (r: CombatResults)
        requires
            old(self).wf(),
            old(self).tracker.current_combo + overlaps@.len() <= u32::MAX,
            old(self).tracker.fight_start_time matches Some(s) ==> s <= now,
            old(progress).statistics.total_wins < u32::MAX,
            old(progress).statistics.current_win_streak < u32::MAX,
            old(progress).statistics.boss_stats.spec_get(old(self).config.boss).wins
                < u32::MAX,
            old(progress).statistics.boss_stats.spec_get(old(self).config.boss).losses
                < u32::MAX,
            old(progress).unlocked_bosses@.len() < usize::MAX,
        ensures
            final(self).wf(),
            final(self).config == old(self).config,
            final(self).elapsed_ms == old(self).elapsed_ms,
            forall|i: int, j: int|
                0 <= i < j < r.contacts@.len() ==> r.contacts@[i].volume
                    != r.contacts@[j].volume,
            forall|i: int|
                0 <= i < r.contacts@.len() ==> (#[trigger] r.contacts@[i]).attacker
                    != r.contacts@[i].target,
            r.damage_events@ == spec_damage_messages(r.contacts@),
            forall|i: int|
                0 <= i < r.contacts@.len() ==> old(self).volumes.spec_contains_id(
                    (#[trigger] r.contacts@[i]).volume,
                ) && !final(self).volumes.spec_contains_id(r.contacts@[i].volume),
            final(self).volumes.next_id == old(self).volumes.next_id,
            final(self).c1.health.current == spec_health_after(
                old(self).c1.health.current as int,
                1,
                r.damage_events@,
            ),
            final(self).c2.health.current == spec_health_after(
                old(self).c2.health.current as int,
                2,
                r.damage_events@,
            ),
            final(self).c1.health.max == old(self).c1.health.max,
            final(self).c2.health.max == old(self).c2.health.max,
            final(self).tracker.current_combo == old(self).tracker.current_combo
                + r.damage_events@.len(),
            final(self).tracker.fight_start_time == old(self).tracker.fight_start_time,
            final(self).tracker.boss == old(self).tracker.boss,
            (final(self).c1.spec_is_alive() && final(self).c2.spec_is_alive())
                ==> (final(self).winner == old(self).winner && r.next_state is None
                && final(self).ended == old(self).ended && *final(progress) == *old(progress)),
            (final(self).c1.spec_is_alive() != final(self).c2.spec_is_alive()) ==> ({
                let w = if final(self).c1.spec_is_alive() {
                    final(self).c1
                } else {
                    final(self).c2
                };
                &&& final(self).winner.player_id == Some(w.player.id)
                &&& final(self).winner.is_human_winner == Some(w.control.spec_is_human())
                &&& r.next_state is Some
                &&& final(self).ended
            }),
            (!final(self).c1.spec_is_alive() && !final(self).c2.spec_is_alive())
                ==> (if old(self).config.player2_is_human {
                final(self).winner == old(self).winner && r.next_state is None
                    && final(self).ended == old(self).ended && *final(progress)
                    == *old(progress)
            } else {
                final(self).winner.player_id is None
                    && final(self).winner.is_human_winner is None && r.next_state == Some(
                    AppState::GameOver,
                ) && final(self).ended
            }),
            final(self).ended == (old(self).ended || r.next_state is Some),
    {
        // Stage: collision resolution.
        let ghost vols_at_detect = self.volumes.volumes@;
        let collision = detect_collisions(&mut self.volumes, overlaps, &self.c1, &self.c2);
        proof {
            lemma_resolve_overlaps_len(vols_at_detect, overlaps@, self.c1, self.c2);
            lemma_damage_messages_props(collision.contacts@);
            lemma_all_messages_unblocked(collision.contacts@, self.c1, self.c2);
        }

        let ghost cd1 = self.c1;
        let ghost cd2 = self.c2;

        // Stage: damage application.
        apply_damage(&mut self.c1, &mut self.c2, &collision.damage_events);

        // Stage: combo update.
        proof {
            lemma_unblocked_count_blocks_only(
                collision.damage_events@,
                self.c1,
                self.c2,
                cd1,
                cd2,
            );
        }
        update_combo_tracker(&mut self.tracker, &collision.damage_events, &self.c1, &self.c2);

        // Stage: outcome evaluation.
        let next_state = check_for_game_over(
            &self.c1,
            &self.c2,
            &self.config,
            &self.tracker,
            progress,
            &mut self.winner,
            now,
        );
        if next_state.is_some() {
            self.ended = true;
        }
        CombatResults {
            contacts: collision.contacts,
            damage_events: collision.damage_events,
            impulses: collision.impulses,
            next_state,
        }
    }

    /// Runs one tick of the match in the fixed stage order.
    ///
    /// Once the match has ended the tick is a no-op. Otherwise the clock
    /// advances by the time step; the decisions are taken on the decision
    /// states (reported positions, recomputed grounding, facing and mood);
    /// accepted attack intents spawn volumes; volumes age and expire; the
    /// overlap reports resolve into at most one contact per volume, with
    /// blocking honoured; damage clamps health at zero; the combo counter
    /// rises by exactly the number of damage messages; and the outcome
    /// evaluator records a winner or a draw and names the state the match
    /// moves to, ending the session.
    #[verifier::rlimit(100)]
    pub fn tick(&mut self, inputs: &TickInputs, progress: &mut PlayerProgress) -> (out:
        TickOutput)
        requires
            old(self).wf(),
            inputs.wf(),
            old(self).elapsed_ms + inputs.dt_ms <= u64::MAX,
            old(self).volumes.next_id + 2 <= u64::MAX,
            old(self).volumes.volumes@.len() + 2 <= usize::MAX,
            old(self).tracker.current_combo + inputs.overlaps@.len() <= u32::MAX,
            old(progress).statistics.total_wins < u32::MAX,
            old(progress).statistics.current_win_streak < u32::MAX,
            old(progress).statistics.boss_stats.spec_get(old(self).config.boss).wins
                < u32::MAX,
            old(progress).statistics.boss_stats.spec_get(old(self).config.boss).losses
                < u32::MAX,
            old(progress).unlocked_bosses@.len() < usize::MAX,
        ensures
            final(self).wf(),
            final(self).config == old(self).config,
            old(self).ended ==> *final(self) == *old(self) && *final(progress)
                == *old(progress) && out.next_state is None && out.spawned@.len() == 0
                && out.contacts@.len() == 0 && out.damage_events@.len() == 0,
            !old(self).ended ==> ({
                let now = old(self).elapsed_ms + inputs.dt_ms;
                let d1 = spec_decision_state_1(*old(self), *inputs);
                let d2 = spec_decision_state_2(*old(self), *inputs, now as u64);
                &&& final(self).elapsed_ms == now
                // Movement and jump decisions, pinned to the decision states.
                &&& out.move1 == (MoveCommand {
                    id: 1,
                    vel_x_millis: spec_movement_velocity(
                        d1,
                        inputs.p1,
                        Some(inputs.p1_x),
                        now as u64,
                        old(self).config.difficulty,
                        inputs.draws,
                    ) as i64,
                    jump: spec_wants_jump(d1, inputs.p1, inputs.draws.jump),
                })
                &&& out.move2 == (MoveCommand {
                    id: 2,
                    vel_x_millis: spec_movement_velocity(
                        d2,
                        inputs.p2,
                        Some(inputs.p1_x),
                        now as u64,
                        old(self).config.difficulty,
                        inputs.draws,
                    ) as i64,
                    jump: spec_wants_jump(d2, inputs.p2, inputs.draws.jump),
                })
                // Attack intents: accepted exactly when desired with the
                // cooldown elapsed.
                &&& out.spawned@ == (if old(self).c1.attack_cooldown.remaining_ms == 0
                    && spec_desired_attack(
                    d1,
                    inputs.p1,
                    Some((inputs.p1_x, inputs.p1_y)),
                    now as u64,
                    old(self).config.difficulty,
                    inputs.draws,
                ) is Some {
                    seq![
                        SpawnHitboxEvent {
                            attacker: 1u8,
                            attack_type: spec_desired_attack(
                                d1,
                                inputs.p1,
                                Some((inputs.p1_x, inputs.p1_y)),
                                now as u64,
                                old(self).config.difficulty,
                                inputs.draws,
                            )->Some_0,
                        },
                    ]
                } else {
                    Seq::empty()
                }) + (if old(self).c2.attack_cooldown.remaining_ms == 0 && spec_desired_attack(
                    d2,
                    inputs.p2,
                    Some((inputs.p1_x, inputs.p1_y)),
                    now as u64,
                    old(self).config.difficulty,
                    inputs.draws,
                ) is Some {
                    seq![
                        SpawnHitboxEvent {
                            attacker: 2u8,
                            attack_type: spec_desired_attack(
                                d2,
                                inputs.p2,
                                Some((inputs.p1_x, inputs.p1_y)),
                                now as u64,
                                old(self).config.difficulty,
                                inputs.draws,
                            )->Some_0,
                        },
                    ]
                } else {
                    Seq::empty()
                })
                // At most one damage message per volume, never a self-hit,
                // and messages are exactly the unblocked contacts.
                &&& forall|i: int, j: int|
                    0 <= i < j < out.contacts@.len() ==> out.contacts@[i].volume
                        != out.contacts@[j].volume
                &&& forall|i: int|
                    0 <= i < out.contacts@.len() ==> (#[trigger] out.contacts@[i]).attacker
                        != out.contacts@[i].target
                &&& out.damage_events@ == spec_damage_messages(out.contacts@)
                // A volume that registered its contact is gone, and its
                // identity sits below the high-water mark, so no later spawn
                // can ever take it again.
                &&& forall|i: int|
                    0 <= i < out.contacts@.len() ==> !final(self).volumes.spec_contains_id(
                        (#[trigger] out.contacts@[i]).volume,
                    ) && out.contacts@[i].volume < final(self).volumes.next_id
                &&& final(self).volumes.next_id >= old(self).volumes.next_id
                // Health: clamped application of exactly this tick's
                // messages.
                &&& final(self).c1.health.current == spec_health_after(
                    old(self).c1.health.current as int,
                    1,
                    out.damage_events@,
                )
                &&& final(self).c2.health.current == spec_health_after(
                    old(self).c2.health.current as int,
                    2,
                    out.damage_events@,
                )
                &&& final(self).c1.health.max == old(self).c1.health.max
                &&& final(self).c2.health.max == old(self).c2.health.max
                // Combo: rises by exactly the number of damage messages.
                &&& final(self).tracker.current_combo == old(self).tracker.current_combo
                    + out.damage_events@.len()
                &&& final(self).tracker.current_combo >= old(self).tracker.current_combo
                &&& final(self).tracker.fight_start_time == old(self).tracker.fight_start_time
                &&& final(self).tracker.boss == old(self).tracker.boss
                // Outcome: the winner is set while at least two combatants
                // were alive only when exactly one remains.
                &&& (final(self).c1.spec_is_alive() && final(self).c2.spec_is_alive()) ==> (
                final(self).winner == old(self).winner && out.next_state is None
                    && !final(self).ended && *final(progress) == *old(progress))
                &&& (final(self).c1.spec_is_alive() != final(self).c2.spec_is_alive()) ==> ({
                    let w = if final(self).c1.spec_is_alive() {
                        final(self).c1
                    } else {
                        final(self).c2
                    };
                    &&& final(self).winner.player_id == Some(w.player.id)
                    &&& final(self).winner.is_human_winner == Some(w.control.spec_is_human())
                    &&& out.next_state is Some
                    &&& final(self).ended
                })
                &&& (!final(self).c1.spec_is_alive() && !final(self).c2.spec_is_alive()) ==> (
                if old(self).config.player2_is_human {
                    final(self).winner == old(self).winner && out.next_state is None
                        && !final(self).ended && *final(progress) == *old(progress)
                } else {
                    final(self).winner.player_id is None
                        && final(self).winner.is_human_winner is None && out.next_state == Some(
                        AppState::GameOver,
                    ) && final(self).ended
                })
                &&& final(self).ended == (out.next_state is Some)
            }),
    {
        if self.ended {
            return TickOutput {
                move1: MoveCommand { id: 1, vel_x_millis: 0, jump: false },
                move2: MoveCommand { id: 2, vel_x_millis: 0, jump: false },
                spawned: Vec::new(),
                contacts: Vec::new(),
                damage_events: Vec::new(),
                impulses: Vec::new(),
                next_state: None,
            };
        }

        let now: u64 = self.elapsed_ms + (inputs.dt_ms as u64);
        self.elapsed_ms = now;
        let ghost at_decisions = *self;

        let cmd = self.run_decisions(inputs, now);
        proof {
            assert(spec_decision_state_1(at_decisions, *inputs) == spec_decision_state_1(
                *old(self),
                *inputs,
            ));
            assert(spec_decision_state_2(at_decisions, *inputs, now) == spec_decision_state_2(
                *old(self),
                *inputs,
                now,
            ));
        }
        let ghost before_combat = *self;
        let combat = self.run_combat(&inputs.overlaps, now, progress);
        proof {
            assert forall|i: int| 0 <= i < combat.contacts@.len()
                implies (#[trigger] combat.contacts@[i]).volume < self.volumes.next_id by {
                let v = combat.contacts@[i].volume;
                assert(before_combat.volumes.spec_contains_id(v));
                let j = choose|j: int|
                    0 <= j < before_combat.volumes.volumes@.len()
                        && before_combat.volumes.volumes@[j].id == v;
                assert(before_combat.volumes.volumes@[j].id < before_combat.volumes.next_id);
            }
        }

        TickOutput {
            move1: cmd.move1,
            move2: cmd.move2,
            spawned: cmd.spawned,
            contacts: combat.contacts,
            damage_events: combat.damage_events,
            impulses: combat.impulses,
            next_state: combat.next_state,
        }
    }
}

} // verus!
