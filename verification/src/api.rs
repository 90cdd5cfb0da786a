//! The JSON API's view of the shared telemetry: the state container and
//! one function per endpoint, each stating exactly which inputs succeed,
//! which status a failure carries, and what the returned or mutated value
//! is. The HTTP runtime around the library locks the state, calls these,
//! and serialises what they return.

use vstd::prelude::*;

use crate::encounter::Encounter;
use crate::parse::parse_i64;
use crate::parse::parsed_i64;
use crate::windows::PlayerCache;
use crate::windows::PlayerState;
use crate::windows::SkillWindow;
use crate::windows::StatType;
use crate::windows::Window;
use crate::windows::encounter_has_player;
use crate::windows::get_player_window;
use crate::windows::get_skill_window_impl;
use crate::windows::is_player_window;
use crate::windows::is_skill_window;

verus! {

use vstd::string::StringSliceAdditionalSpecFns;

/// No matching data exists for the request: no damage yet, or no record
/// for the named player.
#[derive(Clone, Copy, Debug, PartialEq, Eq, Structural)]
pub struct NoData {}

/// The status a failed request resolves to.
#[derive(Clone, Copy, Debug, PartialEq, Eq, Structural)]
pub enum FailureStatus {
    /// A malformed path parameter or request body.
    BadRequest,
    /// No matching data exists.
    NotFound,
}

impl FailureStatus {
    /// The HTTP status code of the failure.
    pub fn code(self) -> (c: u16)
        ensures
            self is BadRequest ==> c == 400,
            self is NotFound ==> c == 404,
    {
        match self {
            FailureStatus::BadRequest => 400,
            FailureStatus::NotFound => 404,
        }
    }
}

/// The process-wide telemetry the API exposes. The host process guards
/// each field with its own lock and acquires them in a fixed order
/// (encounter, then player cache, then player state); the library sees
/// one consistent snapshot per request.
pub struct AppState {
    pub encounter: Encounter,
    pub player_state: PlayerState,
    pub player_cache: PlayerCache,
    pub bptimer_enabled: bool,
}

impl AppState {
    /// The state installed at process start: an empty default encounter,
    /// no players known, and the timer feature off.
    pub fn new() -> (s: AppState)
        ensures
            s.encounter.is_default(),
            s.encounter.well_formed(),
            s.player_state.entries@.len() == 0,
            s.player_cache.entries@.len() == 0,
            !s.bptimer_enabled,
    {
        AppState {
            encounter: Encounter::default(),
            player_state: PlayerState { entries: Vec::new() },
            player_cache: PlayerCache { entries: Vec::new() },
            bptimer_enabled: false,
        }
    }
}

/// The header summary of the encounter, in whole values; the server
/// divides the total damage by the elapsed seconds when it renders the
/// rate, leaving the rate zero when no time has elapsed.
#[derive(Clone, Copy, Debug, PartialEq, Eq, Structural)]
pub struct HeaderInfo {
    pub total_dmg: u64,
    pub elapsed_ms: u64,
    pub time_last_combat_packet_ms: u64,
}

/// The header summary, or nothing while no damage has been recorded:
/// total damage, elapsed milliseconds between fight start and the last
/// combat packet, and the last packet's timestamp.
pub fn get_header_info_from_encounter(encounter: &Encounter) -> (r: Result<HeaderInfo, NoData>)
    requires
        encounter.well_formed(),
    ensures
        match r {
            Ok(h) => {
                &&& encounter.dmg_stats.value != 0
                &&& h.total_dmg == encounter.dmg_stats.value
                &&& h.elapsed_ms == encounter.time_last_combat_packet_ms
                    - encounter.time_fight_start_ms
                &&& h.time_last_combat_packet_ms == encounter.time_last_combat_packet_ms
            },
            Err(_) => encounter.dmg_stats.value == 0,
        },
{
    if encounter.dmg_stats.value == 0 {
        return Err(NoData {  });
    }
    Ok(
        HeaderInfo {
            total_dmg: encounter.dmg_stats.value,
            elapsed_ms: encounter.time_last_combat_packet_ms - encounter.time_fight_start_ms,
            time_last_combat_packet_ms: encounter.time_last_combat_packet_ms,
        },
    )
}

/// The header endpoint: not-found exactly while no damage has been
/// recorded, the header summary otherwise.
pub fn api_get_header_info(encounter: &Encounter) -> (r: Result<HeaderInfo, FailureStatus>)
    requires
        encounter.well_formed(),
    ensures
        match r {
            Ok(h) => {
                &&& encounter.dmg_stats.value != 0
                &&& h.total_dmg == encounter.dmg_stats.value
                &&& h.elapsed_ms == encounter.time_last_combat_packet_ms
                    - encounter.time_fight_start_ms
                &&& h.time_last_combat_packet_ms == encounter.time_last_combat_packet_ms
            },
            Err(s) => s is NotFound && encounter.dmg_stats.value == 0,
        },
{
    match get_header_info_from_encounter(encounter) {
        Ok(h) => Ok(h),
        Err(_) => Err(FailureStatus::NotFound),
    }
}

/// The damage per-player window; always succeeds.
pub fn api_get_dps_player_window(
    encounter: &Encounter,
    player_cache: &PlayerCache,
    player_state: &PlayerState,
) -> (w: Window)
    ensures
        is_player_window(w, *encounter, StatType::Dmg, *player_cache, *player_state),
{
    get_player_window(encounter, StatType::Dmg, player_cache, player_state)
}

/// The boss-only damage per-player window; always succeeds.
pub fn api_get_dps_boss_only_player_window(
    encounter: &Encounter,
    player_cache: &PlayerCache,
    player_state: &PlayerState,
) -> (w: Window)
    ensures
        is_player_window(w, *encounter, StatType::DmgBossOnly, *player_cache, *player_state),
{
    get_player_window(encounter, StatType::DmgBossOnly, player_cache, player_state)
}

/// The healing per-player window; always succeeds.
pub fn api_get_heal_player_window(
    encounter: &Encounter,
    player_cache: &PlayerCache,
    player_state: &PlayerState,
) -> (w: Window)
    ensures
        is_player_window(w, *encounter, StatType::Heal, *player_cache, *player_state),
{
    get_player_window(encounter, StatType::Heal, player_cache, player_state)
}

/// A skill-window endpoint: bad-request exactly when the path segment is
/// not a decimal 64-bit integer, not-found exactly when it is but the
/// encounter holds no record for that player, the player's window
/// otherwise.
pub fn api_get_skill_window(
    encounter: &Encounter,
    player_uid: &str,
    stat_type: StatType,
    player_cache: &PlayerCache,
    player_state: &PlayerState,
) -> (r: Result<SkillWindow, FailureStatus>)
    ensures
        match r {
            Ok(w) => {
                &&& parsed_i64(player_uid.spec_bytes()) == Some(w.player_uid as int)
                &&& encounter_has_player(*encounter, w.player_uid)
                &&& is_skill_window(
                    w,
                    *encounter,
                    w.player_uid,
                    stat_type,
                    *player_cache,
                    *player_state,
                )
            },
            Err(s) => match s {
                FailureStatus::BadRequest => parsed_i64(player_uid.spec_bytes()) is None,
                FailureStatus::NotFound => exists|uid: i64|
                    parsed_i64(player_uid.spec_bytes()) == Some(uid as int)
                        && !encounter_has_player(*encounter, uid),
            },
        },
{
    let uid = match parse_i64(player_uid) {
        Some(uid) => uid,
        None => {
            return Err(FailureStatus::BadRequest);
        },
    };
    match get_skill_window_impl(encounter, uid, stat_type, player_cache, player_state) {
        Ok(w) => Ok(w),
        Err(_) => Err(FailureStatus::NotFound),
    }
}

/// The damage skill window for one player.
pub fn api_get_dps_skill_window(
    encounter: &Encounter,
    player_uid: &str,
    player_cache: &PlayerCache,
    player_state: &PlayerState,
) -> (r: Result<SkillWindow, FailureStatus>)
    ensures
        match r {
            Ok(w) => {
                &&& parsed_i64(player_uid.spec_bytes()) == Some(w.player_uid as int)
                &&& encounter_has_player(*encounter, w.player_uid)
                &&& is_skill_window(
                    w,
                    *encounter,
                    w.player_uid,
                    StatType::Dmg,
                    *player_cache,
                    *player_state,
                )
            },
            Err(s) => match s {
                FailureStatus::BadRequest => parsed_i64(player_uid.spec_bytes()) is None,
                FailureStatus::NotFound => exists|uid: i64|
                    parsed_i64(player_uid.spec_bytes()) == Some(uid as int)
                        && !encounter_has_player(*encounter, uid),
            },
        },
{
    api_get_skill_window(encounter, player_uid, StatType::Dmg, player_cache, player_state)
}

/// The boss-only damage skill window for one player.
pub fn api_get_dps_boss_only_skill_window(
    encounter: &Encounter,
    player_uid: &str,
    player_cache: &PlayerCache,
    player_state: &PlayerState,
) -> (r: Result<SkillWindow, FailureStatus>)
    ensures
        match r {
            Ok(w) => {
                &&& parsed_i64(player_uid.spec_bytes()) == Some(w.player_uid as int)
                &&& encounter_has_player(*encounter, w.player_uid)
                &&& is_skill_window(
                    w,
                    *encounter,
                    w.player_uid,
                    StatType::DmgBossOnly,
                    *player_cache,
                    *player_state,
                )
            },
            Err(s) => match s {
                FailureStatus::BadRequest => parsed_i64(player_uid.spec_bytes()) is None,
                FailureStatus::NotFound => exists|uid: i64|
                    parsed_i64(player_uid.spec_bytes()) == Some(uid as int)
                        && !encounter_has_player(*encounter, uid),
            },
        },
{
    api_get_skill_window(encounter, player_uid, StatType::DmgBossOnly, player_cache, player_state)
}

/// The healing skill window for one player.
pub fn api_get_heal_skill_window(
    encounter: &Encounter,
    player_uid: &str,
    player_cache: &PlayerCache,
    player_state: &PlayerState,
) -> (r: Result<SkillWindow, FailureStatus>)
    ensures
        match r {
            Ok(w) => {
                &&& parsed_i64(player_uid.spec_bytes()) == Some(w.player_uid as int)
                &&& encounter_has_player(*encounter, w.player_uid)
                &&& is_skill_window(
                    w,
                    *encounter,
                    w.player_uid,
                    StatType::Heal,
                    *player_cache,
                    *player_state,
                )
            },
            Err(s) => match s {
                FailureStatus::BadRequest => parsed_i64(player_uid.spec_bytes()) is None,
                FailureStatus::NotFound => exists|uid: i64|
                    parsed_i64(player_uid.spec_bytes()) == Some(uid as int)
                        && !encounter_has_player(*encounter, uid),
            },
        },
{
    api_get_skill_window(encounter, player_uid, StatType::Heal, player_cache, player_state)
}

/// The synthetic per-player window endpoint: fixed data for client
/// development, independent of live state; always succeeds.
pub fn api_get_test_player_window() -> (w: Window)
    ensures
        crate::windows::is_test_player_window(w),
{
    crate::windows::get_test_player_window()
}

/// The synthetic per-skill window endpoint: the fixed window when the
/// path segment denotes the synthetic player, not-found on any other
/// segment, a lookup failure included.
pub fn api_get_test_skill_window(player_uid: &str) -> (r: Result<SkillWindow, FailureStatus>)
    ensures
        match r {
            Ok(w) => parsed_i64(player_uid.spec_bytes()) == Some(
                crate::windows::TEST_PLAYER_UID as int,
            ) && crate::windows::is_test_skill_window(w),
            Err(s) => s is NotFound && parsed_i64(player_uid.spec_bytes()) != Some(
                crate::windows::TEST_PLAYER_UID as int,
            ),
        },
{
    let uid = match parse_i64(player_uid) {
        Some(uid) => uid,
        None => {
            return Err(FailureStatus::NotFound);
        },
    };
    match crate::windows::get_test_skill_window(uid) {
        Ok(w) => Ok(w),
        Err(_) => Err(FailureStatus::NotFound),
    }
}

/// Replaces the encounter with a fresh default value; always succeeds.
/// The replacement is of the whole value at once, so no reader ever sees
/// a partially reset encounter.
pub fn api_reset_encounter(encounter: &mut Encounter)
    ensures
        final(encounter).is_default(),
        final(encounter).well_formed(),
{
    *encounter = Encounter::default();
}

/// Flips the pause flag in place and keeps every other field; always
/// succeeds.
pub fn api_toggle_pause_encounter(encounter: &mut Encounter)
    ensures
        *final(encounter) == old(encounter).spec_toggle_pause(),
        final(encounter).is_encounter_paused == !old(encounter).is_encounter_paused,
{
    encounter.is_encounter_paused = !encounter.is_encounter_paused;
}

/// An instruction to the host process: deliver the restart signal to the
/// capture engine without waiting for the restart to complete.
#[derive(Clone, Copy, Debug, PartialEq, Eq, Structural)]
pub struct RestartSignal {}

/// Resets the encounter and asks for the capture engine to be restarted;
/// always succeeds. The caller delivers the returned signal after the
/// state lock is released, fire-and-forget.
pub fn api_hard_reset(encounter: &mut Encounter) -> (signal: RestartSignal)
    ensures
        final(encounter).is_default(),
        final(encounter).well_formed(),
{
    *encounter = Encounter::default();
    RestartSignal {  }
}

/// Sets the timer feature flag from the request body: bad-request exactly
/// when the body carried no boolean (leaving the flag unchanged), success
/// with the flag updated otherwise.
pub fn api_set_bptimer_enabled(bptimer_enabled: &mut bool, body: Option<bool>) -> (r: Result<
    (),
    FailureStatus,
>)
    ensures
        match r {
            Ok(_) => body is Some && *final(bptimer_enabled) == body->0,
            Err(s) => s is BadRequest && body is None && *final(bptimer_enabled) == *old(
                bptimer_enabled,
            ),
        },
{
    match body {
        Some(enabled) => {
            *bptimer_enabled = enabled;
            Ok(())
        },
        None => Err(FailureStatus::BadRequest),
    }
}

/// After a reset the encounter reports no damage, so a header query on
/// the state a reset leaves behind resolves to not-found.
pub proof fn lemma_reset_then_header_not_found(encounter: Encounter)
    requires
        encounter.is_default(),
    ensures
        encounter.dmg_stats.value == 0,
{
}

} // verus!
