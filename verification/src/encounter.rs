//! The current combat session: aggregated statistics, timing markers and
//! the pause flag, together with the control operations the API performs
//! on it.

use vstd::prelude::*;

verus! {

/// An aggregated statistic value (total damage, boss-only damage or
/// healing) for the whole encounter.
#[derive(Clone, Copy, Debug, PartialEq, Eq, Structural)]
pub struct Stats {
    pub value: u64,
}

/// One skill's aggregated contribution for one player.
#[derive(Clone, Copy, Debug, PartialEq, Eq, Structural)]
pub struct SkillData {
    pub skill_id: u32,
    pub damage: u64,
    pub boss_damage: u64,
    pub heal: u64,
    pub hits: u32,
}

/// One player's per-skill records inside the encounter.
#[derive(Clone, Debug)]
pub struct PlayerData {
    pub uid: i64,
    pub skills: Vec<SkillData>,
}

/// The currently tracked combat session.
///
/// Well-formedness: the last-packet timestamp is at least the fight-start
/// timestamp, so the elapsed time is a non-negative number of
/// milliseconds.
#[verifier::ext_equal]
#[derive(Clone, Debug)]
pub struct Encounter {
    pub dmg_stats: Stats,
    pub time_fight_start_ms: u64,
    pub time_last_combat_packet_ms: u64,
    pub is_encounter_paused: bool,
    pub players: Vec<PlayerData>,
}

impl Encounter {
    /// The timestamps are ordered, so elapsed time never underflows.
    pub open spec fn well_formed(self) -> bool {
        self.time_fight_start_ms <= self.time_last_combat_packet_ms
    }

    /// The value every reset installs: no damage, no timing, not paused,
    /// no per-player records.
    pub open spec fn is_default(self) -> bool {
        &&& self.dmg_stats.value == 0
        &&& self.time_fight_start_ms == 0
        &&& self.time_last_combat_packet_ms == 0
        &&& !self.is_encounter_paused
        &&& self.players@.len() == 0
    }

    /// The encounter with the pause flag flipped and everything else kept.
    pub open spec fn spec_toggle_pause(self) -> Encounter {
        Encounter { is_encounter_paused: !self.is_encounter_paused, ..self }
    }
}

impl Default for Encounter {
    /// A fresh encounter: the state installed at process start and by
    /// every reset.
    fn default() -> (e: Encounter)
        ensures
            e.is_default(),
            e.well_formed(),
    {
        Encounter {
            dmg_stats: Stats { value: 0 },
            time_fight_start_ms: 0,
            time_last_combat_packet_ms: 0,
            is_encounter_paused: false,
            players: Vec::new(),
        }
    }
}

/// Flipping the pause flag twice returns the encounter, all fields
/// included, to its original value.
pub proof fn lemma_toggle_pause_twice(e: Encounter)
    ensures
        e.spec_toggle_pause().spec_toggle_pause() == e,
{
    assert(e.spec_toggle_pause().spec_toggle_pause() =~= e);
}

} // verus!
