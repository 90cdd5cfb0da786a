//! Computed reports over the shared telemetry: the per-player window and
//! the per-skill window for one player, for a chosen statistic, and the
//! fixed synthetic windows served to client developers.

use vstd::prelude::*;

use crate::encounter::Encounter;
use crate::encounter::SkillData;

verus! {

/// Which aggregate view a window computation selects.
#[derive(Clone, Copy, Debug, PartialEq, Eq, Structural)]
pub enum StatType {
    Dmg,
    DmgBossOnly,
    Heal,
}

/// Cached identity of one player, keyed by the unique 64-bit identifier.
#[derive(Clone, Debug)]
pub struct CachedPlayer {
    pub uid: i64,
    pub name: String,
}

/// The cached player metadata the capture engine maintains.
#[derive(Clone, Debug)]
pub struct PlayerCache {
    pub entries: Vec<CachedPlayer>,
}

/// Live status of one player.
#[derive(Clone, Copy, Debug, PartialEq, Eq, Structural)]
pub struct PlayerStatus {
    pub uid: i64,
}

/// The live per-player status the capture engine maintains.
#[derive(Clone, Debug)]
pub struct PlayerState {
    pub entries: Vec<PlayerStatus>,
}

/// One row of a per-player window: a player's identity and aggregate
/// value, and whether live status is currently known for the player.
#[derive(Clone, Debug)]
pub struct PlayerWindowRow {
    pub uid: i64,
    pub name: String,
    pub value: u64,
    pub online: bool,
}

/// A per-player breakdown of one statistic.
#[derive(Clone, Debug)]
pub struct Window {
    pub rows: Vec<PlayerWindowRow>,
}

/// One row of a per-skill window.
#[derive(Clone, Copy, Debug, PartialEq, Eq, Structural)]
pub struct SkillWindowRow {
    pub skill_id: u32,
    pub value: u64,
    pub hits: u32,
}

/// A per-skill breakdown of one statistic for one player.
#[derive(Clone, Debug)]
pub struct SkillWindow {
    pub player_uid: i64,
    pub player_name: String,
    pub online: bool,
    pub rows: Vec<SkillWindowRow>,
}

/// The chosen statistic of one skill record.
pub open spec fn stat_of(sd: SkillData, st: StatType) -> u64 {
    match st {
        StatType::Dmg => sd.damage,
        StatType::DmgBossOnly => sd.boss_damage,
        StatType::Heal => sd.heal,
    }
}

/// The sum of the chosen statistic over a sequence of skill records.
pub open spec fn sum_stat(skills: Seq<SkillData>, st: StatType) -> int
    decreases skills.len(),
{
    if skills.len() == 0 {
        0
    } else {
        sum_stat(skills.drop_last(), st) + stat_of(skills.last(), st)
    }
}

/// A sum held within the range of `u64`: the exact sum where it fits,
/// the maximum otherwise.
pub open spec fn capped_u64(v: int) -> int {
    if v > u64::MAX {
        u64::MAX as int
    } else {
        v
    }
}

/// The name the cache holds for the player: the name of the first entry
/// with the given identifier, if any.
pub open spec fn cached_name(entries: Seq<CachedPlayer>, uid: i64) -> Option<Seq<char>>
    decreases entries.len(),
{
    if entries.len() == 0 {
        None
    } else if entries[0].uid == uid {
        Some(entries[0].name@)
    } else {
        cached_name(entries.drop_first(), uid)
    }
}

/// Whether the live state holds an entry for the player.
pub open spec fn state_has(entries: Seq<PlayerStatus>, uid: i64) -> bool {
    exists|i: int| 0 <= i < entries.len() && entries[i].uid == uid
}

proof fn lemma_sum_stat_step(skills: Seq<SkillData>, st: StatType, i: int)
    requires
        0 <= i < skills.len(),
    ensures
        sum_stat(skills.subrange(0, i + 1), st) == sum_stat(skills.subrange(0, i), st) + stat_of(
            skills[i],
            st,
        ),
{
    assert(skills.subrange(0, i + 1).drop_last() =~= skills.subrange(0, i));
    assert(skills.subrange(0, i + 1).last() == skills[i]);
}

/// The total of the chosen statistic over a player's skill records,
/// saturating at the top of `u64`.
pub fn player_total(skills: &Vec<SkillData>, st: StatType) -> (t: u64)
    ensures
        t == capped_u64(sum_stat(skills@, st)),
{
    let n = skills.len();
    let mut acc: u64 = 0;
    let mut i: usize = 0;
    while i < n
        invariant
            i <= n,
            n == skills@.len(),
            acc == capped_u64(sum_stat(skills@.subrange(0, i as int), st)),
        decreases n - i,
    {
        let sd = skills[i];
        let v = match st {
            StatType::Dmg => sd.damage,
            StatType::DmgBossOnly => sd.boss_damage,
            StatType::Heal => sd.heal,
        };
        proof {
            lemma_sum_stat_step(skills@, st, i as int);
        }
        acc = if acc > u64::MAX - v {
            u64::MAX
        } else {
            acc + v
        };
        i = i + 1;
    }
    proof {
        assert(skills@.subrange(0, n as int) =~= skills@);
    }
    acc
}

/// The name the cache holds for the player, or nothing when the player
/// is unknown to it.
pub fn lookup_name(cache: &PlayerCache, uid: i64) -> (r: Option<String>)
    ensures
        match r {
            Some(name) => cached_name(cache.entries@, uid) == Some(name@),
            None => cached_name(cache.entries@, uid) is None,
        },
{
    let n = cache.entries.len();
    proof {
        assert(cache.entries@.subrange(0, n as int) =~= cache.entries@);
    }
    let mut i: usize = 0;
    while i < n
        invariant
            i <= n,
            n == cache.entries@.len(),
            cached_name(cache.entries@, uid) == cached_name(
                cache.entries@.subrange(i as int, n as int),
                uid,
            ),
        decreases n - i,
    {
        proof {
            assert(cache.entries@.subrange(i as int, n as int)[0] == cache.entries@[i as int]);
        }
        if cache.entries[i].uid == uid {
            let name = cache.entries[i].name.clone();
            return Some(name);
        }
        proof {
            assert(cache.entries@.subrange(i as int, n as int).drop_first() =~= cache.entries@
                .subrange(i as int + 1, n as int));
        }
        i = i + 1;
    }
    proof {
        assert(cache.entries@.subrange(n as int, n as int).len() == 0);
    }
    None
}

/// Whether the live state holds an entry for the player.
pub fn state_contains(state: &PlayerState, uid: i64) -> (r: bool)
    ensures
        r == state_has(state.entries@, uid),
{
    let n = state.entries.len();
    let mut i: usize = 0;
    while i < n
        invariant
            i <= n,
            n == state.entries@.len(),
            forall|j: int| 0 <= j < i ==> state.entries@[j].uid != uid,
        decreases n - i,
    {
        if state.entries[i].uid == uid {
            return true;
        }
        i = i + 1;
    }
    false
}

/// What the per-player window of an encounter is: one row for each player
/// recorded in the encounter, in recorded order, carrying the player's
/// cached name (empty when unknown), the saturating total of the chosen
/// statistic over the player's skills, and whether live status is known.
pub open spec fn is_player_window(
    w: Window,
    encounter: Encounter,
    stat_type: StatType,
    player_cache: PlayerCache,
    player_state: PlayerState,
) -> bool {
    &&& w.rows@.len() == encounter.players@.len()
    &&& forall|i: int|
        0 <= i < w.rows@.len() ==> {
            &&& (#[trigger] w.rows@[i]).uid == encounter.players@[i].uid
            &&& w.rows@[i].value == capped_u64(sum_stat(encounter.players@[i].skills@, stat_type))
            &&& w.rows@[i].online == state_has(player_state.entries@, encounter.players@[i].uid)
            &&& match cached_name(player_cache.entries@, encounter.players@[i].uid) {
                Some(name) => w.rows@[i].name@ == name,
                None => w.rows@[i].name@.len() == 0,
            }
        }
}

/// The per-player window; it always succeeds, and is empty exactly when
/// the encounter has no recorded players.
pub fn get_player_window(
    encounter: &Encounter,
    stat_type: StatType,
    player_cache: &PlayerCache,
    player_state: &PlayerState,
) -> (w: Window)
    ensures
        is_player_window(w, *encounter, stat_type, *player_cache, *player_state),
{
    let n = encounter.players.len();
    let mut rows: Vec<PlayerWindowRow> = Vec::new();
    let mut i: usize = 0;
    while i < n
        invariant
            i <= n,
            n == encounter.players@.len(),
            rows@.len() == i,
            forall|j: int|
                0 <= j < i ==> {
                    &&& (#[trigger] rows@[j]).uid == encounter.players@[j].uid
                    &&& rows@[j].value == capped_u64(
                        sum_stat(encounter.players@[j].skills@, stat_type),
                    )
                    &&& rows@[j].online == state_has(
                        player_state.entries@,
                        encounter.players@[j].uid,
                    )
                    &&& match cached_name(player_cache.entries@, encounter.players@[j].uid) {
                        Some(name) => rows@[j].name@ == name,
                        None => rows@[j].name@.len() == 0,
                    }
                },
        decreases n - i,
    {
        let player = &encounter.players[i];
        let uid = player.uid;
        let value = player_total(&player.skills, stat_type);
        let name = match lookup_name(player_cache, uid) {
            Some(name) => name,
            None => String::new(),
        };
        let online = state_contains(player_state, uid);
        rows.push(PlayerWindowRow { uid, name, value, online });
        i = i + 1;
    }
    Window { rows }
}

/// Whether the encounter holds a record for the player.
pub open spec fn encounter_has_player(encounter: Encounter, player_uid: i64) -> bool {
    exists|i: int|
        0 <= i < encounter.players@.len() && (#[trigger] encounter.players@[i]).uid == player_uid
}

/// What the per-skill window of one player is: one row per skill recorded
/// for the first player with the given identifier, in recorded order,
/// with the chosen statistic, beside the player's cached name (empty when
/// unknown) and live status.
pub open spec fn is_skill_window(
    w: SkillWindow,
    encounter: Encounter,
    player_uid: i64,
    stat_type: StatType,
    player_cache: PlayerCache,
    player_state: PlayerState,
) -> bool {
    let skills = chosen_skills(encounter.players@, player_uid);
    &&& w.player_uid == player_uid
    &&& match cached_name(player_cache.entries@, player_uid) {
        Some(name) => w.player_name@ == name,
        None => w.player_name@.len() == 0,
    }
    &&& w.online == state_has(player_state.entries@, player_uid)
    &&& w.rows@.len() == skills.len()
    &&& forall|j: int|
        0 <= j < w.rows@.len() ==> {
            &&& (#[trigger] w.rows@[j]).skill_id == skills[j].skill_id
            &&& w.rows@[j].value == stat_of(skills[j], stat_type)
            &&& w.rows@[j].hits == skills[j].hits
        }
}

/// The per-skill window for one player. It fails exactly when the
/// encounter holds no record for the player.
pub fn get_skill_window_impl(
    encounter: &Encounter,
    player_uid: i64,
    stat_type: StatType,
    player_cache: &PlayerCache,
    player_state: &PlayerState,
) -> (r: Result<SkillWindow, crate::api::NoData>)
    ensures
        match r {
            Ok(w) => encounter_has_player(*encounter, player_uid) && is_skill_window(
                w,
                *encounter,
                player_uid,
                stat_type,
                *player_cache,
                *player_state,
            ),
            Err(_) => !encounter_has_player(*encounter, player_uid),
        },
{
    let n = encounter.players.len();
    let mut i: usize = 0;
    while i < n
        invariant
            i <= n,
            n == encounter.players@.len(),
            forall|j: int| 0 <= j < i ==> (#[trigger] encounter.players@[j]).uid != player_uid,
        decreases n - i,
    {
        if encounter.players[i].uid == player_uid {
            proof {
                lemma_chosen_skills(encounter.players@, player_uid, i as int);
            }
            let player = &encounter.players[i];
            let m = player.skills.len();
            let mut rows: Vec<SkillWindowRow> = Vec::new();
            let mut j: usize = 0;
            while j < m
                invariant
                    j <= m,
                    m == player.skills@.len(),
                    rows@.len() == j,
                    forall|k: int|
                        0 <= k < j ==> {
                            &&& (#[trigger] rows@[k]).skill_id == player.skills@[k].skill_id
                            &&& rows@[k].value == stat_of(player.skills@[k], stat_type)
                            &&& rows@[k].hits == player.skills@[k].hits
                        },
                decreases m - j,
            {
                let sd = player.skills[j];
                let value = match stat_type {
                    StatType::Dmg => sd.damage,
                    StatType::DmgBossOnly => sd.boss_damage,
                    StatType::Heal => sd.heal,
                };
                rows.push(SkillWindowRow { skill_id: sd.skill_id, value, hits: sd.hits });
                j = j + 1;
            }
            let player_name = match lookup_name(player_cache, player_uid) {
                Some(name) => name,
                None => String::new(),
            };
            let online = state_contains(player_state, player_uid);
            return Ok(SkillWindow { player_uid, player_name, online, rows });
        }
        i = i + 1;
    }
    Err(crate::api::NoData {  })
}

/// The identifier of the synthetic player served to client developers.
pub const TEST_PLAYER_UID: i64 = 1001;

/// What the synthetic per-player window holds: one fixed row,
/// independent of live state.
pub open spec fn is_test_player_window(w: Window) -> bool {
    &&& w.rows@.len() == 1
    &&& w.rows@[0].uid == TEST_PLAYER_UID
    &&& w.rows@[0].name@ == "Test Player"@
    &&& w.rows@[0].value == 123456
    &&& w.rows@[0].online
}

/// What the synthetic per-skill window holds: two fixed rows for the
/// synthetic player, independent of live state.
pub open spec fn is_test_skill_window(w: SkillWindow) -> bool {
    &&& w.player_uid == TEST_PLAYER_UID
    &&& w.player_name@ == "Test Player"@
    &&& w.online
    &&& w.rows@.len() == 2
    &&& w.rows@[0] == (SkillWindowRow { skill_id: 11, value: 90000, hits: 30 })
    &&& w.rows@[1] == (SkillWindowRow { skill_id: 12, value: 33456, hits: 12 })
}

/// The synthetic per-player window: fixed data for client development,
/// independent of live state.
pub fn get_test_player_window() -> (w: Window)
    ensures
        is_test_player_window(w),
{
    let name: String = "Test Player".to_owned();
    let rows = vec![
        PlayerWindowRow { uid: TEST_PLAYER_UID, name, value: 123456, online: true },
    ];
    Window { rows }
}

/// The synthetic per-skill window: fixed data for the synthetic player,
/// nothing for any other identifier.
pub fn get_test_skill_window(player_uid: i64) -> (r: Result<SkillWindow, crate::api::NoData>)
    ensures
        match r {
            Ok(w) => player_uid == TEST_PLAYER_UID && is_test_skill_window(w),
            Err(_) => player_uid != TEST_PLAYER_UID,
        },
{
    if player_uid != TEST_PLAYER_UID {
        return Err(crate::api::NoData {  });
    }
    let player_name: String = "Test Player".to_owned();
    let rows = vec![
        SkillWindowRow { skill_id: 11, value: 90000, hits: 30 },
        SkillWindowRow { skill_id: 12, value: 33456, hits: 12 },
    ];
    Ok(SkillWindow { player_uid, player_name, online: true, rows })
}

/// The skill records of the first player with the given identifier.
pub open spec fn chosen_skills(players: Seq<crate::encounter::PlayerData>, uid: i64) -> Seq<
    SkillData,
>
    decreases players.len(),
{
    if players.len() == 0 {
        Seq::empty()
    } else if players[0].uid == uid {
        players[0].skills@
    } else {
        chosen_skills(players.drop_first(), uid)
    }
}

/// The first matching player's skills are those of the first index whose
/// uid matches.
proof fn lemma_chosen_skills(players: Seq<crate::encounter::PlayerData>, uid: i64, i: int)
    requires
        0 <= i < players.len(),
        players[i].uid == uid,
        forall|j: int| 0 <= j < i ==> (#[trigger] players[j]).uid != uid,
    ensures
        chosen_skills(players, uid) == players[i].skills@,
    decreases i,
{
    if i > 0 {
        assert(players[0].uid != uid);
        lemma_chosen_skills(players.drop_first(), uid, i - 1);
        assert(players.drop_first()[i - 1] == players[i]);
        assert(forall|j: int|
            0 <= j < i - 1 ==> (#[trigger] players.drop_first()[j]).uid != uid) by {
            assert(forall|j: int|
                0 <= j < i - 1 ==> players.drop_first()[j] == players[j + 1]);
        }
    }
}

} // verus!
