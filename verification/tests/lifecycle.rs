use uiohook::event_type;
use uiohook::hook_engine;
use uiohook::hook_error;
use uiohook::hook_error_code;
use uiohook::hook_state;
use uiohook::mouse_event_data;
use uiohook::post;
use uiohook::raw_notification;
use uiohook::translate;
use uiohook::uiohook_event;
use uiohook::MOUSE_BUTTON1;

fn key_raw(kind_code: u32, time: u64) -> raw_notification {
    raw_notification {
        kind_code,
        time,
        mask: 0,
        reserved: 0,
        keycode: 30,
        rawcode: 31,
        keychar: 97,
        button: 0,
        clicks: 0,
        x: 0,
        y: 0,
        scroll_type: 0,
        amount: 0,
        rotation: 0,
        direction: 0,
    }
}

#[test]
fn start_only_from_idle() {
    let mut engine = hook_engine::new();
    assert_eq!(engine.state(), hook_state::idle);
    assert_eq!(engine.request_start(), Ok(()));
    assert_eq!(engine.state(), hook_state::starting);
    assert_eq!(
        engine.request_start(),
        Err(hook_error::hook(hook_error_code::failure))
    );
    assert_eq!(engine.state(), hook_state::starting);
    let _enabled = engine.context_acquired(1, 0);
    assert_eq!(engine.state(), hook_state::running);
    assert_eq!(
        engine.request_start(),
        Err(hook_error::hook(hook_error_code::failure))
    );
    assert_eq!(engine.state(), hook_state::running);
}

#[test]
fn stop_while_idle_is_a_no_op() {
    let mut engine = hook_engine::new();
    assert_eq!(engine.request_stop(5, 0), None);
    assert_eq!(engine.state(), hook_state::idle);
    assert_eq!(engine.request_start(), Ok(()));
}

#[test]
fn enabled_first_disabled_last() {
    let mut engine = hook_engine::new();
    let mut delivered: Vec<uiohook_event> = Vec::new();

    assert_eq!(engine.request_start(), Ok(()));
    delivered.push(engine.context_acquired(10, 0));
    if let Some(e) = engine.capture(&key_raw(4, 11)) {
        delivered.push(e);
    }
    if let Some(e) = engine.capture(&key_raw(5, 12)) {
        delivered.push(e);
    }
    if let Some(e) = engine.request_stop(13, 0) {
        delivered.push(e);
    }
    engine.context_released();
    assert_eq!(engine.state(), hook_state::idle);

    assert_eq!(delivered.len(), 4);
    assert_eq!(delivered[0].kind(), event_type::hook_enabled);
    assert_eq!(delivered[1].kind(), event_type::key_pressed);
    assert_eq!(delivered[2].kind(), event_type::key_released);
    assert_eq!(delivered[3].kind(), event_type::hook_disabled);
    assert!(delivered[0].time <= delivered[3].time);
}

#[test]
fn acquisition_failure_resets_to_idle() {
    let mut engine = hook_engine::new();
    let mut delivered: Vec<uiohook_event> = Vec::new();

    assert_eq!(engine.request_start(), Ok(()));
    let err = engine.context_failed(hook_error_code::x_open_display);
    assert_eq!(err, hook_error::hook(hook_error_code::x_open_display));
    if let hook_error::hook(code) = err {
        assert_eq!(code.code(), 0x20);
    } else {
        unreachable!();
    }
    assert_eq!(engine.state(), hook_state::idle);
    assert!(delivered.is_empty());

    assert_eq!(engine.request_start(), Ok(()));
    delivered.push(engine.context_acquired(1, 0));
    assert_eq!(engine.state(), hook_state::running);
    assert_eq!(delivered.len(), 1);
}

#[test]
fn stop_from_starting_delivers_nothing() {
    let mut engine = hook_engine::new();
    assert_eq!(engine.request_start(), Ok(()));
    assert_eq!(engine.request_stop(2, 0), None);
    assert_eq!(engine.state(), hook_state::stopping);
    assert_eq!(engine.request_stop(3, 0), None);
    engine.context_released();
    assert_eq!(engine.state(), hook_state::idle);
}

#[test]
fn malformed_notifications_are_dropped() {
    let mut engine = hook_engine::new();
    assert_eq!(engine.request_start(), Ok(()));
    let _enabled = engine.context_acquired(1, 0);

    assert_eq!(engine.capture(&key_raw(0, 2)), None);
    assert_eq!(engine.capture(&key_raw(1, 3)), None);
    assert_eq!(engine.capture(&key_raw(2, 4)), None);
    assert_eq!(engine.capture(&key_raw(12, 5)), None);

    let mut bad_button = key_raw(7, 6);
    bad_button.button = 6;
    assert_eq!(engine.capture(&bad_button), None);

    let mut bad_wheel = key_raw(11, 7);
    bad_wheel.scroll_type = 1;
    bad_wheel.direction = 5;
    assert_eq!(engine.capture(&bad_wheel), None);
    bad_wheel.direction = 3;
    bad_wheel.scroll_type = 0;
    assert_eq!(engine.capture(&bad_wheel), None);

    bad_wheel.scroll_type = 2;
    let good = engine.capture(&bad_wheel);
    assert!(good.is_some());
    assert_eq!(good.unwrap().kind(), event_type::mouse_wheel);
    assert_eq!(engine.state(), hook_state::running);
}

#[test]
fn post_succeeds_in_any_engine_state() {
    let click = uiohook_event::mouse_pressed(
        7,
        0,
        mouse_event_data {
            button: MOUSE_BUTTON1,
            clicks: 1,
            x: 100,
            y: 200,
        },
    );

    let mut engine = hook_engine::new();
    assert_eq!(engine.state(), hook_state::idle);
    let while_idle = post(&click);

    assert_eq!(engine.request_start(), Ok(()));
    let _enabled = engine.context_acquired(1, 0);
    assert_eq!(engine.state(), hook_state::running);
    let while_running = post(&click);

    assert_eq!(while_idle, while_running);
    assert_eq!(while_idle.kind_code, 7);
    assert_eq!(while_idle.button, MOUSE_BUTTON1);
    assert_eq!(while_idle.x, 100);
    assert_eq!(while_idle.y, 200);
    assert_eq!(engine.state(), hook_state::running);
}

#[test]
fn injected_click_loops_back_before_disabled() {
    let mut engine = hook_engine::new();
    let mut delivered: Vec<uiohook_event> = Vec::new();

    assert_eq!(engine.request_start(), Ok(()));
    delivered.push(engine.context_acquired(100, 0));

    let click = uiohook_event::mouse_pressed(
        101,
        0,
        mouse_event_data {
            button: MOUSE_BUTTON1,
            clicks: 1,
            x: 100,
            y: 200,
        },
    );
    let raw = post(&click);
    if let Some(e) = engine.capture(&raw) {
        delivered.push(e);
    }
    if let Some(e) = engine.request_stop(102, 0) {
        delivered.push(e);
    }
    engine.context_released();

    assert_eq!(delivered.len(), 3);
    assert_eq!(delivered[1], click);
    assert_eq!(delivered[1].kind(), event_type::mouse_pressed);
    let payload = delivered[1].mouse().unwrap();
    assert_eq!(payload.button, MOUSE_BUTTON1);
    assert_eq!(payload.x, 100);
    assert_eq!(payload.y, 200);
    assert_eq!(delivered[2].kind(), event_type::hook_disabled);
}

#[test]
fn round_trip_through_injection_and_capture() {
    let events = [
        uiohook_event::key_typed(
            1,
            0,
            uiohook::keyboard_event_data {
                keycode: 30,
                rawcode: 31,
                keychar: 97,
            },
        ),
        uiohook_event::mouse_dragged(
            2,
            0x0100,
            mouse_event_data {
                button: 3,
                clicks: 2,
                x: -7,
                y: 9,
            },
        ),
        uiohook_event::mouse_wheel(
            3,
            0,
            uiohook::mouse_wheel_event_data {
                clicks: 1,
                x: 4,
                y: 5,
                scroll_type: 2,
                amount: 3,
                rotation: -2,
                direction: 4,
            },
        ),
    ];
    for e in events {
        assert_eq!(translate(&post(&e)), Some(e));
    }
}

#[test]
fn lifecycle_markers_do_not_loop_back() {
    let enabled = uiohook_event::hook_enabled(1, 0);
    let raw = post(&enabled);
    assert_eq!(raw.kind_code, 1);
    assert_eq!(translate(&raw), None);
}
