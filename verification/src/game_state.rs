//! Match-level state: application states, the selected configuration and the
//! recorded winner.
//!
//! Difficulty multipliers are carried in permille (thousandths), so that
//! scaled values stay exact integers: a speed multiplier of 700 permille
//! scales a speed of 300 to 210.

use vstd::prelude::*;

verus! {

/// Main states of the application. A match runs in `InGame`; the outcome
/// evaluator moves it to `GameOver`, or to `Credits` after the final boss
/// falls to a human player.
#[derive(Clone, Copy, Debug, PartialEq, Eq, Structural)]
pub enum AppState {
    MainMenu,
    InGame,
    GameOver,
    Paused,
    Statistics,
    Credits,
}

/// The recorded outcome of a match: the winning combatant, if any, and
/// whether that combatant was human-controlled. Both stay `None` until the
/// outcome evaluator decides, and on a draw.
#[derive(Clone, Copy, Debug, PartialEq, Eq, Structural)]
pub struct Winner {
    pub player_id: Option<u8>,
    pub is_human_winner: Option<bool>,
}

impl Winner {
    /// A `Winner` with nothing decided yet.
    pub open spec fn unset() -> Winner {
        Winner { player_id: None, is_human_winner: None }
    }

    /// True while no winner has been recorded.
    pub open spec fn is_unset(self) -> bool {
        self == Winner::unset()
    }

    /// Clears the recorded winner, as happens on returning to the menu.
    pub fn reset(&mut self)
        ensures
            final(self).is_unset(),
    {
        self.player_id = None;
        self.is_human_winner = None;
    }
}

impl Default for Winner {
    fn default() -> (w: Winner)
        ensures
            w.is_unset(),
    {
        Winner { player_id: None, is_human_winner: None }
    }
}

/// Difficulty of a match against an AI combatant. It scales the AI's speed,
/// attack frequency and health.
#[derive(Clone, Copy, Debug, PartialEq, Eq, Structural)]
pub enum Difficulty {
    Easy,
    Normal,
    Hard,
}

impl Difficulty {
    /// Movement-speed multiplier for AI combatants, in permille.
    pub open spec fn spec_speed_multiplier(self) -> u32 {
        match self {
            Difficulty::Easy => 700,
            Difficulty::Normal => 1000,
            Difficulty::Hard => 1300,
        }
    }

    /// Movement-speed multiplier for AI combatants, in permille.
    pub fn speed_multiplier(&self) -> (r: u32)
        ensures
            r == self.spec_speed_multiplier(),
    {
        match self {
            Difficulty::Easy => 700,
            Difficulty::Normal => 1000,
            Difficulty::Hard => 1300,
        }
    }

    /// Attack-frequency multiplier, in permille. Larger means less frequent
    /// attacks: it stretches the firing threshold of time-gated archetypes.
    pub open spec fn spec_attack_frequency_multiplier(self) -> u32 {
        match self {
            Difficulty::Easy => 1500,
            Difficulty::Normal => 1000,
            Difficulty::Hard => 700,
        }
    }

    /// Attack-frequency multiplier, in permille.
    pub fn attack_frequency_multiplier(&self) -> (r: u32)
        ensures
            r == self.spec_attack_frequency_multiplier(),
    {
        match self {
            Difficulty::Easy => 1500,
            Difficulty::Normal => 1000,
            Difficulty::Hard => 700,
        }
    }

    /// Health multiplier for the AI combatant, in permille.
    pub open spec fn spec_health_multiplier(self) -> u32 {
        match self {
            Difficulty::Easy => 800,
            Difficulty::Normal => 1000,
            Difficulty::Hard => 1200,
        }
    }

    /// Health multiplier for the AI combatant, in permille.
    pub fn health_multiplier(&self) -> (r: u32)
        ensures
            r == self.spec_health_multiplier(),
    {
        match self {
            Difficulty::Easy => 800,
            Difficulty::Normal => 1000,
            Difficulty::Hard => 1200,
        }
    }
}

/// The arena backdrop chosen for a match. Cosmetic: it never feeds into
/// combat resolution.
#[derive(Clone, Copy, Debug, PartialEq, Eq, Structural)]
pub enum ArenaType {
    Default,
    DataRace,
    UndefinedBehavior,
    BufferOverflow,
}

/// The five AI combatant archetypes.
#[derive(Clone, Copy, Debug, PartialEq, Eq, Structural)]
pub enum BossType {
    NullPointer,
    UndefinedBehavior,
    DataRace,
    UseAfterFree,
    BufferOverflow,
}

impl BossType {
    /// The archetype that follows this one in the fixed progression order,
    /// or `None` after the last.
    pub open spec fn spec_successor(self) -> Option<BossType> {
        match self {
            BossType::NullPointer => Some(BossType::UndefinedBehavior),
            BossType::UndefinedBehavior => Some(BossType::DataRace),
            BossType::DataRace => Some(BossType::UseAfterFree),
            BossType::UseAfterFree => Some(BossType::BufferOverflow),
            BossType::BufferOverflow => None,
        }
    }

    /// True exactly for the last archetype of the progression: beating it as
    /// a human ends the game with the credits.
    pub open spec fn spec_is_final_boss(self) -> bool {
        self == BossType::BufferOverflow
    }

    /// True exactly for the last archetype of the progression.
    pub fn is_final_boss(&self) -> (r: bool)
        ensures
            r == self.spec_is_final_boss(),
    {
        matches!(self, BossType::BufferOverflow)
    }

    /// The stable identifier of the archetype, as used by persisted records.
    pub fn name(&self) -> (r: String)
        ensures
            r@ == self.spec_name(),
    {
        match self {
            BossType::NullPointer => "NullPointer".to_string(),
            BossType::UndefinedBehavior => "UndefinedBehavior".to_string(),
            BossType::DataRace => "DataRace".to_string(),
            BossType::UseAfterFree => "UseAfterFree".to_string(),
            BossType::BufferOverflow => "BufferOverflow".to_string(),
        }
    }

    /// Reads an archetype back from its stable identifier; any other string
    /// names none.
    pub fn from_name(name: &str) -> (r: Option<BossType>)
        ensures
            r == BossType::spec_from_name(name@),
    {
        proof {
            reveal_strlit("NullPointer");
            reveal_strlit("UndefinedBehavior");
            reveal_strlit("DataRace");
            reveal_strlit("UseAfterFree");
            reveal_strlit("BufferOverflow");
        }
        if str_eq_chars(name, "NullPointer") {
            Some(BossType::NullPointer)
        } else if str_eq_chars(name, "UndefinedBehavior") {
            Some(BossType::UndefinedBehavior)
        } else if str_eq_chars(name, "DataRace") {
            Some(BossType::DataRace)
        } else if str_eq_chars(name, "UseAfterFree") {
            Some(BossType::UseAfterFree)
        } else if str_eq_chars(name, "BufferOverflow") {
            Some(BossType::BufferOverflow)
        } else {
            None
        }
    }

    /// The archetype a stable identifier names, if any.
    pub open spec fn spec_from_name(name: Seq<char>) -> Option<BossType> {
        if name == "NullPointer"@ {
            Some(BossType::NullPointer)
        } else if name == "UndefinedBehavior"@ {
            Some(BossType::UndefinedBehavior)
        } else if name == "DataRace"@ {
            Some(BossType::DataRace)
        } else if name == "UseAfterFree"@ {
            Some(BossType::UseAfterFree)
        } else if name == "BufferOverflow"@ {
            Some(BossType::BufferOverflow)
        } else {
            None
        }
    }

    /// The stable identifier of the archetype.
    pub open spec fn spec_name(self) -> Seq<char> {
        match self {
            BossType::NullPointer => "NullPointer"@,
            BossType::UndefinedBehavior => "UndefinedBehavior"@,
            BossType::DataRace => "DataRace"@,
            BossType::UseAfterFree => "UseAfterFree"@,
            BossType::BufferOverflow => "BufferOverflow"@,
        }
    }
}

/// Compares two strings character by character.
fn str_eq_chars(a: &str, b: &str) -> (r: bool)
    ensures
        r == (a@ == b@),
{
    let alen = a.unicode_len();
    let blen = b.unicode_len();
    if alen != blen {
        assert(a@ != b@) by {
            assert(a@.len() != b@.len());
        }
        return false;
    }
    let mut i: usize = 0;
    while i < alen
        invariant
            alen == a@.len(),
            alen == b@.len(),
            i <= alen,
            forall|j: int| 0 <= j < i ==> a@[j] == b@[j],
        decreases alen - i,
    {
        if a.get_char(i) != b.get_char(i) {
            assert(a@[i as int] != b@[i as int]);
            return false;
        }
        i = i + 1;
    }
    proof {
        assert(a@ =~= b@);
    }
    true
}

/// The configuration a match is started with.
#[derive(Clone, Copy, Debug, PartialEq, Eq, Structural)]
pub struct GameConfig {
    pub difficulty: Difficulty,
    pub boss: BossType,
    pub player2_is_human: bool,
    pub arena: ArenaType,
}

impl Default for GameConfig {
    fn default() -> (c: GameConfig)
        ensures
            c == GameConfig::spec_default(),
    {
        GameConfig {
            difficulty: Difficulty::Normal,
            boss: BossType::NullPointer,
            player2_is_human: false,
            arena: ArenaType::Default,
        }
    }
}

impl GameConfig {
    /// The configuration used when nothing was chosen yet.
    pub open spec fn spec_default() -> GameConfig {
        GameConfig {
            difficulty: Difficulty::Normal,
            boss: BossType::NullPointer,
            player2_is_human: false,
            arena: ArenaType::Default,
        }
    }
}

} // verus!
