use combat_telemetry_http::api::api_get_dps_boss_only_player_window;
use combat_telemetry_http::api::api_get_dps_boss_only_skill_window;
use combat_telemetry_http::api::api_get_dps_player_window;
use combat_telemetry_http::api::api_get_dps_skill_window;
use combat_telemetry_http::api::api_get_heal_skill_window;
use combat_telemetry_http::api::api_get_header_info;
use combat_telemetry_http::api::api_get_heal_player_window;
use combat_telemetry_http::api::api_get_test_player_window;
use combat_telemetry_http::api::api_get_test_skill_window;
use combat_telemetry_http::api::api_reset_encounter;
use combat_telemetry_http::api::api_set_bptimer_enabled;
use combat_telemetry_http::api::api_toggle_pause_encounter;
use combat_telemetry_http::api::AppState;
use combat_telemetry_http::api::FailureStatus;
use combat_telemetry_http::encounter::Encounter;
use combat_telemetry_http::encounter::PlayerData;
use combat_telemetry_http::encounter::SkillData;
use combat_telemetry_http::encounter::Stats;
use combat_telemetry_http::windows::CachedPlayer;
use combat_telemetry_http::windows::PlayerCache;
use combat_telemetry_http::windows::PlayerState;
use combat_telemetry_http::windows::PlayerStatus;

fn sample_encounter() -> Encounter {
    Encounter {
        dmg_stats: Stats { value: 5000 },
        time_fight_start_ms: 1000,
        time_last_combat_packet_ms: 11000,
        is_encounter_paused: false,
        players: vec![
            PlayerData {
                uid: 77,
                skills: vec![
                    SkillData { skill_id: 1, damage: 3000, boss_damage: 1200, heal: 0, hits: 10 },
                    SkillData { skill_id: 2, damage: 2000, boss_damage: 800, heal: 450, hits: 4 },
                ],
            },
            PlayerData {
                uid: 88,
                skills: vec![SkillData {
                    skill_id: 9,
                    damage: 0,
                    boss_damage: 0,
                    heal: 7777,
                    hits: 3,
                }],
            },
        ],
    }
}

fn sample_cache() -> PlayerCache {
    PlayerCache {
        entries: vec![
            CachedPlayer { uid: 77, name: String::from("Rena") },
            CachedPlayer { uid: 88, name: String::from("Kite") },
        ],
    }
}

fn sample_state() -> PlayerState {
    PlayerState { entries: vec![PlayerStatus { uid: 77 }] }
}

#[test]
fn header_info_with_zero_damage_is_not_found() {
    let enc = Encounter {
        dmg_stats: Stats { value: 0 },
        time_fight_start_ms: 500,
        time_last_combat_packet_ms: 900,
        is_encounter_paused: false,
        players: Vec::new(),
    };
    let r = api_get_header_info(&enc);
    assert!(matches!(r, Err(FailureStatus::NotFound)));
    assert_eq!(r.unwrap_err().code(), 404);
}

#[test]
fn header_info_reports_damage_and_elapsed() {
    let enc = sample_encounter();
    let h = api_get_header_info(&enc).unwrap();
    assert_eq!(h.total_dmg, 5000);
    assert_eq!(h.elapsed_ms, 10000);
    assert_eq!(h.time_last_combat_packet_ms, 11000);
}

#[test]
fn header_rate_is_finite_and_exact() {
    // The server renders the rate as total damage over elapsed seconds;
    // with positive damage and elapsed time the rate is the exact
    // quotient and never NaN or infinite.
    let enc = sample_encounter();
    let h = api_get_header_info(&enc).unwrap();
    let elapsed_secs = h.elapsed_ms as f64 / 1000.0;
    let rate = if elapsed_secs > 0.0 {
        h.total_dmg as f64 / elapsed_secs
    } else {
        0.0
    };
    assert_eq!(rate, 5000.0 / 10.0);
    assert!(!rate.is_nan());
    assert!(!rate.is_infinite());
}

#[test]
fn header_rate_is_zero_when_no_time_elapsed() {
    let enc = Encounter {
        dmg_stats: Stats { value: 400 },
        time_fight_start_ms: 1000,
        time_last_combat_packet_ms: 1000,
        is_encounter_paused: false,
        players: Vec::new(),
    };
    let h = api_get_header_info(&enc).unwrap();
    assert_eq!(h.elapsed_ms, 0);
    let elapsed_secs = h.elapsed_ms as f64 / 1000.0;
    let rate = if elapsed_secs > 0.0 {
        h.total_dmg as f64 / elapsed_secs
    } else {
        0.0
    };
    assert_eq!(rate, 0.0);
}

#[test]
fn reset_then_header_info_is_not_found() {
    let mut enc = sample_encounter();
    assert!(api_get_header_info(&enc).is_ok());
    api_reset_encounter(&mut enc);
    let r = api_get_header_info(&enc);
    assert!(matches!(r, Err(FailureStatus::NotFound)));
}

#[test]
fn reset_installs_the_full_default() {
    let mut enc = sample_encounter();
    enc.is_encounter_paused = true;
    api_reset_encounter(&mut enc);
    assert_eq!(enc.dmg_stats.value, 0);
    assert_eq!(enc.time_fight_start_ms, 0);
    assert_eq!(enc.time_last_combat_packet_ms, 0);
    assert!(!enc.is_encounter_paused);
    assert!(enc.players.is_empty());
}

#[test]
fn toggling_pause_twice_restores_the_flag() {
    let mut enc = sample_encounter();
    let before = enc.is_encounter_paused;
    api_toggle_pause_encounter(&mut enc);
    assert_eq!(enc.is_encounter_paused, !before);
    api_toggle_pause_encounter(&mut enc);
    assert_eq!(enc.is_encounter_paused, before);
    assert_eq!(enc.dmg_stats.value, 5000);
    assert_eq!(enc.time_fight_start_ms, 1000);
    assert_eq!(enc.time_last_combat_packet_ms, 11000);
    assert_eq!(enc.players.len(), 2);
}

#[test]
fn skill_window_rejects_non_integer_uid() {
    let enc = sample_encounter();
    let cache = sample_cache();
    let state = sample_state();
    let r = api_get_dps_skill_window(&enc, "not-a-number", &cache, &state);
    assert!(matches!(r, Err(FailureStatus::BadRequest)));
    assert_eq!(r.unwrap_err().code(), 400);
    let r = api_get_dps_skill_window(&enc, "", &cache, &state);
    assert!(matches!(r, Err(FailureStatus::BadRequest)));
    let r = api_get_dps_skill_window(&enc, "12x", &cache, &state);
    assert!(matches!(r, Err(FailureStatus::BadRequest)));
    let r = api_get_dps_skill_window(&enc, "-", &cache, &state);
    assert!(matches!(r, Err(FailureStatus::BadRequest)));
    let r = api_get_dps_skill_window(&enc, "99999999999999999999", &cache, &state);
    assert!(matches!(r, Err(FailureStatus::BadRequest)));
}

#[test]
fn skill_window_for_unknown_uid_is_not_found() {
    let enc = sample_encounter();
    let cache = sample_cache();
    let state = sample_state();
    let r = api_get_dps_skill_window(&enc, "12345", &cache, &state);
    assert!(matches!(r, Err(FailureStatus::NotFound)));
    assert_eq!(r.unwrap_err().code(), 404);
}

#[test]
fn skill_window_lists_the_players_skills() {
    let enc = sample_encounter();
    let cache = sample_cache();
    let state = sample_state();
    let w = api_get_dps_skill_window(&enc, "77", &cache, &state).unwrap();
    assert_eq!(w.player_uid, 77);
    assert_eq!(w.player_name, "Rena");
    assert!(w.online);
    assert_eq!(w.rows.len(), 2);
    assert_eq!(w.rows[0].skill_id, 1);
    assert_eq!(w.rows[0].value, 3000);
    assert_eq!(w.rows[0].hits, 10);
    assert_eq!(w.rows[1].skill_id, 2);
    assert_eq!(w.rows[1].value, 2000);
}

#[test]
fn skill_window_accepts_leading_zeros_and_sign() {
    let enc = sample_encounter();
    let cache = sample_cache();
    let state = sample_state();
    let w = api_get_dps_skill_window(&enc, "0077", &cache, &state).unwrap();
    assert_eq!(w.player_uid, 77);
    let w = api_get_dps_skill_window(&enc, "+77", &cache, &state).unwrap();
    assert_eq!(w.player_uid, 77);
}

#[test]
fn player_window_sums_each_stat() {
    let enc = sample_encounter();
    let cache = sample_cache();
    let state = sample_state();
    let w = api_get_dps_player_window(&enc, &cache, &state);
    assert_eq!(w.rows.len(), 2);
    assert_eq!(w.rows[0].uid, 77);
    assert_eq!(w.rows[0].name, "Rena");
    assert_eq!(w.rows[0].value, 5000);
    assert!(w.rows[0].online);
    assert_eq!(w.rows[1].uid, 88);
    assert_eq!(w.rows[1].name, "Kite");
    assert_eq!(w.rows[1].value, 0);
    assert!(!w.rows[1].online);
    let w = api_get_heal_player_window(&enc, &cache, &state);
    assert_eq!(w.rows[0].value, 450);
    assert_eq!(w.rows[1].value, 7777);
}

#[test]
fn boss_only_windows_use_boss_damage() {
    let enc = sample_encounter();
    let cache = sample_cache();
    let state = sample_state();
    let w = api_get_dps_boss_only_player_window(&enc, &cache, &state);
    assert_eq!(w.rows[0].value, 2000);
    assert_eq!(w.rows[1].value, 0);
    let w = api_get_dps_boss_only_skill_window(&enc, "77", &cache, &state).unwrap();
    assert_eq!(w.rows[0].value, 1200);
    assert_eq!(w.rows[1].value, 800);
}

#[test]
fn heal_skill_window_uses_healing() {
    let enc = sample_encounter();
    let cache = sample_cache();
    let state = sample_state();
    let w = api_get_heal_skill_window(&enc, "88", &cache, &state).unwrap();
    assert_eq!(w.player_uid, 88);
    assert_eq!(w.player_name, "Kite");
    assert!(!w.online);
    assert_eq!(w.rows.len(), 1);
    assert_eq!(w.rows[0].skill_id, 9);
    assert_eq!(w.rows[0].value, 7777);
    assert_eq!(w.rows[0].hits, 3);
    let r = api_get_heal_skill_window(&enc, "nine", &cache, &state);
    assert!(matches!(r, Err(FailureStatus::BadRequest)));
}

#[test]
fn player_window_total_saturates() {
    let enc = Encounter {
        dmg_stats: Stats { value: 1 },
        time_fight_start_ms: 0,
        time_last_combat_packet_ms: 0,
        is_encounter_paused: false,
        players: vec![PlayerData {
            uid: 5,
            skills: vec![
                SkillData { skill_id: 1, damage: u64::MAX, boss_damage: 0, heal: 0, hits: 1 },
                SkillData { skill_id: 2, damage: u64::MAX, boss_damage: 0, heal: 0, hits: 1 },
            ],
        }],
    };
    let cache = PlayerCache { entries: Vec::new() };
    let state = PlayerState { entries: Vec::new() };
    let w = api_get_dps_player_window(&enc, &cache, &state);
    assert_eq!(w.rows[0].value, u64::MAX);
    assert_eq!(w.rows[0].name, "");
}

#[test]
fn test_player_window_is_fixed() {
    let w = api_get_test_player_window();
    assert_eq!(w.rows.len(), 1);
    assert_eq!(w.rows[0].uid, 1001);
    assert_eq!(w.rows[0].name, "Test Player");
    assert_eq!(w.rows[0].value, 123456);
    assert!(w.rows[0].online);
}

#[test]
fn test_skill_window_only_knows_the_synthetic_player() {
    let w = api_get_test_skill_window("1001").unwrap();
    assert_eq!(w.player_uid, 1001);
    assert_eq!(w.rows.len(), 2);
    assert_eq!(w.rows[0].skill_id, 11);
    assert_eq!(w.rows[0].value, 90000);
    let r = api_get_test_skill_window("9");
    assert!(matches!(r, Err(FailureStatus::NotFound)));
    let r = api_get_test_skill_window("not-a-number");
    assert!(matches!(r, Err(FailureStatus::NotFound)));
}

#[test]
fn set_bptimer_enabled_updates_or_rejects() {
    let mut state = AppState::new();
    assert!(!state.bptimer_enabled);
    let r = api_set_bptimer_enabled(&mut state.bptimer_enabled, Some(true));
    assert!(r.is_ok());
    assert!(state.bptimer_enabled);
    let r = api_set_bptimer_enabled(&mut state.bptimer_enabled, None);
    assert!(matches!(r, Err(FailureStatus::BadRequest)));
    assert!(state.bptimer_enabled);
    let r = api_set_bptimer_enabled(&mut state.bptimer_enabled, Some(false));
    assert!(r.is_ok());
    assert!(!state.bptimer_enabled);
}

#[test]
fn new_state_starts_empty() {
    let state = AppState::new();
    assert_eq!(state.encounter.dmg_stats.value, 0);
    assert!(state.player_state.entries.is_empty());
    assert!(state.player_cache.entries.is_empty());
    let r = api_get_header_info(&state.encounter);
    assert!(matches!(r, Err(FailureStatus::NotFound)));
}
