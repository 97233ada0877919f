use primemh::ui::{game_data_step, GameDataStep};
use primemh::buff_timers::{buff_timer_lines, StateRecord};
use primemh::buff_timers::{buff_timer_text, is_blacklisted_state, shows_timer, state_display_name};
use primemh::hotkeys::HotKey;
use primemh::hover_info::{
    hovered_monster_id, hp_percent, monster_text_segments, read_monster_stats, stat_full_value,
    unit_bucket_index, unit_chain_step, MonsterStats, StatValue, UnitSearch,
};
use primemh::ui::{
    hover_transition, last_game_label, next_item_frame, next_log_level, should_draw_map,
    toggle_on_press, window_reset, LogLevel, UiToggles, WindowGeometry, WindowStyle,
};

#[test]
fn toggle_flips_once_per_press() {
    let (v, l) = toggle_on_press(false, false, true);
    assert_eq!((v, l), (true, true));
    let (v, l) = toggle_on_press(v, l, true);
    assert_eq!((v, l), (true, true));
    let (v, l) = toggle_on_press(v, l, false);
    assert_eq!((v, l), (true, false));
    let (v, l) = toggle_on_press(v, l, true);
    assert_eq!((v, l), (false, true));
}

#[test]
fn hotkeys_drive_the_toggles() {
    let menu = HotKey::parse("Home").unwrap();
    let map = HotKey::parse("PageUp").unwrap();
    let exit = HotKey::parse("^End").unwrap();
    let mut t = UiToggles {
        ui_panel_visible: false,
        ui_panel_toggle: false,
        map_overlay_visible: true,
        map_overlay_toggle: false,
    };
    let down = vec!["Home".to_string(), "PageUp".to_string()];
    assert!(!t.apply_hotkeys(&down, &menu, &map, &exit));
    assert!(t.ui_panel_visible && !t.map_overlay_visible);
    assert!(!t.apply_hotkeys(&down, &menu, &map, &exit));
    assert!(t.ui_panel_visible && !t.map_overlay_visible);
    assert!(!t.apply_hotkeys(&vec![], &menu, &map, &exit));
    assert!(!t.ui_panel_toggle && !t.map_overlay_toggle);
    assert!(t.apply_hotkeys(&vec!["End".to_string(), "LControl".to_string()], &menu, &map, &exit));
}

#[test]
fn log_level_switching() {
    assert_eq!(next_log_level(true, LogLevel::Debug), Some(LogLevel::Off));
    assert_eq!(next_log_level(false, LogLevel::Debug), None);
    assert_eq!(next_log_level(true, LogLevel::Off), Some(LogLevel::Debug));
    assert_eq!(next_log_level(false, LogLevel::Off), Some(LogLevel::Debug));
    assert_eq!(next_log_level(true, LogLevel::Info), None);
}

#[test]
fn style_changes_only_on_hover_transitions() {
    assert_eq!(hover_transition(false, true), Some(WindowStyle::Interactive));
    assert_eq!(hover_transition(true, false), Some(WindowStyle::ClickThrough));
    assert_eq!(hover_transition(true, true), None);
    assert_eq!(hover_transition(false, false), None);
}

#[test]
fn initial_window_is_resized() {
    assert_eq!(
        window_reset(10, 10),
        Some(WindowGeometry { width: 800, height: 600, x: 100, y: 100 })
    );
    assert_eq!(window_reset(10, 11), None);
    assert_eq!(window_reset(1920, 1080), None);
}

#[test]
fn map_drawing_rule() {
    assert!(should_draw_map(true, false, false, true));
    assert!(should_draw_map(false, true, false, false));
    assert!(!should_draw_map(false, false, false, false));
    assert!(!should_draw_map(true, true, true, true));
    assert!(should_draw_map(true, false, true, false));
}

#[test]
fn item_frame_wraps_after_twenty() {
    assert_eq!(next_item_frame(0), 1);
    assert_eq!(next_item_frame(19), 20);
    assert_eq!(next_item_frame(20), 0);
    let mut f = 0;
    for _ in 0..100 {
        f = next_item_frame(f);
        assert!((0..=20).contains(&f));
    }
}

#[test]
fn last_game_label_only_for_a_name() {
    assert_eq!(last_game_label("baal-12").unwrap(), "Last Game: baal-12");
    assert!(last_game_label("").is_none());
}

#[test]
fn full_stat_value_joins_halves() {
    let s = StatValue { stat: 6, value: 0x1234, value2: 0x0056 };
    assert_eq!(stat_full_value(&s), 0x0056_1234);
    let s = StatValue { stat: 6, value: -1, value2: -1 };
    assert_eq!(stat_full_value(&s), 0xFFFF_FFFF);
}

#[test]
fn monster_stats_last_entry_counts() {
    let stats = vec![
        StatValue { stat: 6, value: 0x0100, value2: 0 },
        StatValue { stat: 7, value: 0x0A00, value2: 0 },
        StatValue { stat: 12, value: 85, value2: 0 },
        StatValue { stat: 6, value: 0x0500, value2: 0 },
        StatValue { stat: 99, value: 1, value2: 1 },
    ];
    let stats_ex = vec![
        StatValue { stat: 39, value: 75, value2: 0 },
        StatValue { stat: 43, value: -20, value2: 0 },
        StatValue { stat: 39, value: 50, value2: 0 },
    ];
    let m = read_monster_stats(&stats, &stats_ex);
    assert_eq!(m.cur_hp, Some(5));
    assert_eq!(m.max_hp, Some(10));
    assert_eq!(m.level, Some(85));
    assert_eq!(m.res_fire, Some(50));
    assert_eq!(m.res_cold, Some(-20));
    assert_eq!(m.res_physical, None);
    assert_eq!(m.res_poison, None);
}

#[test]
fn hp_percent_formula() {
    assert_eq!(hp_percent(5, 10), 50);
    assert_eq!(hp_percent(1, 3), 33);
    assert_eq!(hp_percent(7, 0), 0);
    assert_eq!(hp_percent(u32::MAX, u32::MAX), 100);
}

#[test]
fn monster_line_segments() {
    let m = MonsterStats {
        level: Some(12),
        cur_hp: Some(30),
        max_hp: Some(40),
        res_physical: None,
        res_magic: Some(10),
        res_fire: None,
        res_cold: Some(-25),
        res_lightning: None,
        res_poison: Some(100),
    };
    let segs = monster_text_segments(&m);
    let texts: Vec<(&str, u32)> = segs.iter().map(|(t, c)| (t.as_str(), *c)).collect();
    assert_eq!(
        texts,
        vec![
            ("Lv: 12", 0xC6B276FF),
            ("HP: 30/40 (75%)", 0xFFFFFFFF),
            ("魔:10", 0xE67E22FF),
            ("冰:-25", 0x5DADE2FF),
            ("毒:100", 0x2ECC71FF),
        ]
    );
    let none = MonsterStats {
        level: None,
        cur_hp: Some(1),
        max_hp: None,
        res_physical: None,
        res_magic: None,
        res_fire: None,
        res_cold: None,
        res_lightning: None,
        res_poison: None,
    };
    assert!(monster_text_segments(&none).is_empty());
}

#[test]
fn hover_and_unit_chain() {
    assert_eq!(hovered_monster_id(1, 1, 77), Some(77));
    assert_eq!(hovered_monster_id(1, 4, 77), None);
    assert_eq!(hovered_monster_id(0, 1, 77), None);
    assert_eq!(unit_bucket_index(0x1234_5681), 1);
    assert_eq!(unit_chain_step(5, 0, 5), UnitSearch::Found);
    assert_eq!(unit_chain_step(4, 1, 5), UnitSearch::NotFound);
    assert_eq!(unit_chain_step(4, 0, 5), UnitSearch::NotFound);
    assert_eq!(unit_chain_step(4, 0x4000, 5), UnitSearch::Next(0x4000));
}

#[test]
fn buff_timer_line_texts() {
    assert!(is_blacklisted_state(0x64));
    assert!(is_blacklisted_state(0));
    assert!(!is_blacklisted_state(0x01));
    assert!(shows_timer(1, 5));
    assert!(!shows_timer(4, 5));
    assert!(!shows_timer(1, 0));
    assert_eq!(state_display_name(0x02), "中毒状态");
    assert_eq!(state_display_name(0xAB), "AB");
    assert_eq!(state_display_name(0x10F), "10F");
    // 25 frames a second: 3723 seconds is 1 hour, 2 minutes, 3 seconds
    assert_eq!(buff_timer_text(0x80, 1000 + 3723 * 25 + 24, 1000), "护甲神殿：01:02:03");
    assert_eq!(buff_timer_text(0x07, 50, 50), "7：00:00:00");
    assert_eq!(buff_timer_text(0x01, 360000 * 25, 0), "冻结状态：100:00:00");
}

#[test]
fn game_data_step_detects_new_games() {
    assert_eq!(
        game_data_step(7, Some(9)),
        GameDataStep { regenerate_seed_data: true, last_seed: 9, clear_game_data: false }
    );
    assert_eq!(
        game_data_step(9, Some(9)),
        GameDataStep { regenerate_seed_data: false, last_seed: 9, clear_game_data: false }
    );
    assert_eq!(
        game_data_step(9, None),
        GameDataStep { regenerate_seed_data: false, last_seed: 9, clear_game_data: true }
    );
}

#[test]
fn timer_lines_follow_the_chain() {
    let records = vec![
        StateRecord { state_id: 0x64, unit_type: 0, duration_end_frame_low: 1, end_frame: 500 },
        StateRecord { state_id: 0x02, unit_type: 0, duration_end_frame_low: 1, end_frame: 100 + 25 * 61 },
        StateRecord { state_id: 0x0B, unit_type: 4, duration_end_frame_low: 1, end_frame: 500 },
        StateRecord { state_id: 0x0B, unit_type: 1, duration_end_frame_low: 0, end_frame: 0 },
        StateRecord { state_id: 0xC1, unit_type: 1, duration_end_frame_low: 9, end_frame: 100 },
    ];
    let lines = buff_timer_lines(&records, 100);
    assert_eq!(lines, vec!["中毒状态：00:01:01".to_string(), "C1：00:00:00".to_string()]);
    assert!(buff_timer_lines(&vec![], 0).is_empty());
}
