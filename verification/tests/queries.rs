use uiohook::hook_error;
use uiohook::list_screens;
use uiohook::log_level;
use uiohook::logger;
use uiohook::screen_data;
use uiohook::settings_value;

#[test]
fn single_monitor_snapshot() {
    let snapshot = vec![screen_data {
        number: 0,
        x: 0,
        y: 0,
        width: 1920,
        height: 1080,
    }];
    let screens = list_screens(Some(snapshot)).unwrap();
    assert_eq!(screens.len(), 1);
    assert_eq!(screens[0].number, 0);
    assert_eq!(screens[0].width, 1920);
    assert_eq!(screens[0].height, 1080);
}

#[test]
fn multi_monitor_snapshot_kept_in_order() {
    let snapshot = vec![
        screen_data {
            number: 0,
            x: 0,
            y: 0,
            width: 2560,
            height: 1440,
        },
        screen_data {
            number: 1,
            x: 2560,
            y: -120,
            width: 1920,
            height: 1200,
        },
    ];
    let screens = list_screens(Some(snapshot.clone())).unwrap();
    assert_eq!(screens, snapshot);
}

#[test]
fn unreachable_display_subsystem_fails_whole_query() {
    assert_eq!(
        list_screens(None),
        Err(hook_error::platform_query_failed)
    );
}

#[test]
fn settings_read_passes_value_through() {
    assert_eq!(settings_value(Some(500)), Ok(500));
    assert_eq!(settings_value(Some(-1)), Ok(-1));
    assert_eq!(settings_value(Some(0)), Ok(0));
}

#[test]
fn unreadable_settings_fail() {
    assert_eq!(settings_value(None), Err(hook_error::platform_query_failed));
}

#[test]
fn log_levels_are_totally_ordered() {
    assert_eq!(log_level::debug.severity(), 1);
    assert_eq!(log_level::info.severity(), 2);
    assert_eq!(log_level::warn.severity(), 3);
    assert_eq!(log_level::error.severity(), 4);
    assert!(log_level::debug.severity() < log_level::info.severity());
    assert!(log_level::info.severity() < log_level::warn.severity());
    assert!(log_level::warn.severity() < log_level::error.severity());
}

#[test]
fn logger_threshold_filters_below() {
    let l = logger::new(log_level::warn);
    assert!(!l.passes(&log_level::debug));
    assert!(!l.passes(&log_level::info));
    assert!(l.passes(&log_level::warn));
    assert!(l.passes(&log_level::error));
}

#[test]
fn logger_debug_threshold_passes_everything() {
    let l = logger::new(log_level::debug);
    assert!(l.passes(&log_level::debug));
    assert!(l.passes(&log_level::info));
    assert!(l.passes(&log_level::warn));
    assert!(l.passes(&log_level::error));
}

#[test]
fn replacing_the_filter_replaces_the_threshold() {
    let mut l = logger::new(log_level::error);
    assert!(!l.passes(&log_level::warn));
    l = logger::new(log_level::debug);
    assert!(l.passes(&log_level::debug));
}
