use uiohook::event_type;
use uiohook::hook_error;
use uiohook::hook_error_code;
use uiohook::keyboard_event_data;
use uiohook::mouse_event_data;
use uiohook::mouse_wheel_event_data;
use uiohook::uiohook_event;
use uiohook::CHAR_UNDEFINED;
use uiohook::MASK_ALT;
use uiohook::MASK_ALT_L;
use uiohook::MASK_ALT_R;
use uiohook::MASK_BUTTON1;
use uiohook::MASK_BUTTON5;
use uiohook::MASK_CAPS_LOCK;
use uiohook::MASK_CTRL;
use uiohook::MASK_CTRL_L;
use uiohook::MASK_CTRL_R;
use uiohook::MASK_META;
use uiohook::MASK_META_L;
use uiohook::MASK_META_R;
use uiohook::MASK_NUM_LOCK;
use uiohook::MASK_SCROLL_LOCK;
use uiohook::MASK_SHIFT;
use uiohook::MASK_SHIFT_L;
use uiohook::MASK_SHIFT_R;
use uiohook::MOUSE_BUTTON1;
use uiohook::MOUSE_BUTTON5;
use uiohook::MOUSE_NOBUTTON;
use uiohook::WHEEL_BLOCK_SCROLL;
use uiohook::WHEEL_HORIZONTAL_DIRECTION;
use uiohook::WHEEL_UNIT_SCROLL;
use uiohook::WHEEL_VERTICAL_DIRECTION;

fn sample_keyboard() -> keyboard_event_data {
    keyboard_event_data {
        keycode: 30,
        rawcode: 31,
        keychar: 97,
    }
}

fn sample_mouse() -> mouse_event_data {
    mouse_event_data {
        button: MOUSE_BUTTON1,
        clicks: 1,
        x: 100,
        y: 200,
    }
}

fn sample_wheel() -> mouse_wheel_event_data {
    mouse_wheel_event_data {
        clicks: 1,
        x: -5,
        y: 40,
        scroll_type: WHEEL_UNIT_SCROLL,
        amount: 3,
        rotation: -1,
        direction: WHEEL_VERTICAL_DIRECTION,
    }
}

#[test]
fn accessors_follow_kind_keyboard() {
    let e = uiohook_event::key_pressed(1, 0, sample_keyboard());
    assert_eq!(e.kind(), event_type::key_pressed);
    assert_eq!(e.keyboard(), Ok(sample_keyboard()));
    assert_eq!(e.mouse(), Err(hook_error::wrong_variant));
    assert_eq!(e.wheel(), Err(hook_error::wrong_variant));
}

#[test]
fn accessors_follow_kind_mouse() {
    let e = uiohook_event::mouse_moved(2, 0, sample_mouse());
    assert_eq!(e.kind(), event_type::mouse_moved);
    assert_eq!(e.mouse(), Ok(sample_mouse()));
    assert_eq!(e.keyboard(), Err(hook_error::wrong_variant));
    assert_eq!(e.wheel(), Err(hook_error::wrong_variant));
}

#[test]
fn accessors_follow_kind_wheel() {
    let e = uiohook_event::mouse_wheel(3, 0, sample_wheel());
    assert_eq!(e.kind(), event_type::mouse_wheel);
    assert_eq!(e.wheel(), Ok(sample_wheel()));
    assert_eq!(e.keyboard(), Err(hook_error::wrong_variant));
    assert_eq!(e.mouse(), Err(hook_error::wrong_variant));
}

#[test]
fn accessors_follow_kind_lifecycle() {
    let e = uiohook_event::hook_enabled(4, 0);
    assert_eq!(e.kind(), event_type::hook_enabled);
    assert_eq!(e.keyboard(), Err(hook_error::wrong_variant));
    assert_eq!(e.mouse(), Err(hook_error::wrong_variant));
    assert_eq!(e.wheel(), Err(hook_error::wrong_variant));
    let d = uiohook_event::hook_disabled(5, 0);
    assert_eq!(d.kind(), event_type::hook_disabled);
}

#[test]
fn capability_set_partitions_kinds() {
    let keyboard = uiohook_event::key_typed(1, 0, sample_keyboard());
    assert!(keyboard.is_keyboard() && !keyboard.is_mouse() && !keyboard.is_wheel());
    let mouse = uiohook_event::mouse_released(2, 0, sample_mouse());
    assert!(!mouse.is_keyboard() && mouse.is_mouse() && !mouse.is_wheel());
    let wheel = uiohook_event::mouse_wheel(3, 0, sample_wheel());
    assert!(!wheel.is_keyboard() && !wheel.is_mouse() && wheel.is_wheel());
    let lifecycle = uiohook_event::hook_disabled(4, 0);
    assert!(!lifecycle.is_keyboard() && !lifecycle.is_mouse() && !lifecycle.is_wheel());
}

#[test]
fn kind_wire_values() {
    assert_eq!(event_type::hook_enabled.value(), 1);
    assert_eq!(event_type::hook_disabled.value(), 2);
    assert_eq!(event_type::key_typed.value(), 3);
    assert_eq!(event_type::key_pressed.value(), 4);
    assert_eq!(event_type::key_released.value(), 5);
    assert_eq!(event_type::mouse_clicked.value(), 6);
    assert_eq!(event_type::mouse_pressed.value(), 7);
    assert_eq!(event_type::mouse_released.value(), 8);
    assert_eq!(event_type::mouse_moved.value(), 9);
    assert_eq!(event_type::mouse_dragged.value(), 10);
    assert_eq!(event_type::mouse_wheel.value(), 11);
}

#[test]
fn equality_reflexive_and_symmetric() {
    let a = uiohook_event::key_pressed(1, MASK_SHIFT_L, sample_keyboard());
    let b = uiohook_event::key_pressed(1, MASK_SHIFT_L, sample_keyboard());
    assert_eq!(a, a);
    assert_eq!(a, b);
    assert_eq!(b, a);
}

#[test]
fn equality_distinct_kinds_never_equal() {
    let pressed = uiohook_event::key_pressed(1, 0, sample_keyboard());
    let released = uiohook_event::key_released(1, 0, sample_keyboard());
    assert_ne!(pressed, released);
    let enabled = uiohook_event::hook_enabled(1, 0);
    let disabled = uiohook_event::hook_disabled(1, 0);
    assert_ne!(enabled, disabled);
}

#[test]
fn equality_compares_envelope_and_payload() {
    let a = uiohook_event::mouse_pressed(1, 0, sample_mouse());
    let later = uiohook_event::mouse_pressed(2, 0, sample_mouse());
    assert_ne!(a, later);
    let mut other_payload = sample_mouse();
    other_payload.x = 101;
    let moved = uiohook_event::mouse_pressed(1, 0, other_payload);
    assert_ne!(a, moved);
    let mut masked = a;
    masked.mask = MASK_CTRL_L;
    assert_ne!(a, masked);
}

#[test]
fn hash_consistent_with_equality() {
    let pairs = [
        (
            uiohook_event::hook_enabled(1, 0),
            uiohook_event::hook_enabled(1, 0),
        ),
        (
            uiohook_event::key_typed(2, MASK_SHIFT, sample_keyboard()),
            uiohook_event::key_typed(2, MASK_SHIFT, sample_keyboard()),
        ),
        (
            uiohook_event::mouse_dragged(3, MASK_BUTTON1, sample_mouse()),
            uiohook_event::mouse_dragged(3, MASK_BUTTON1, sample_mouse()),
        ),
        (
            uiohook_event::mouse_wheel(4, 0, sample_wheel()),
            uiohook_event::mouse_wheel(4, 0, sample_wheel()),
        ),
    ];
    for (a, b) in pairs {
        assert_eq!(a, b);
        assert_eq!(a.hash_value(), b.hash_value());
    }
}

#[test]
fn describe_lifecycle() {
    let e = uiohook_event::hook_enabled(12, 0);
    assert_eq!(
        e.describe(),
        "uiohook_event { time: 12, mask: 0, reserved: 0, data: () }"
    );
}

#[test]
fn describe_keyboard() {
    let e = uiohook_event::key_pressed(1, 1, sample_keyboard());
    assert_eq!(
        e.describe(),
        "uiohook_event { time: 1, mask: 1, reserved: 0, data: \
         keyboard_event_data { keycode: 30, rawcode: 31, keychar: 97 } }"
    );
}

#[test]
fn describe_mouse_negative_coordinates() {
    let m = mouse_event_data {
        button: 2,
        clicks: 1,
        x: -32768,
        y: -1,
    };
    let e = uiohook_event::mouse_clicked(99, 0, m);
    assert_eq!(
        e.describe(),
        "uiohook_event { time: 99, mask: 0, reserved: 0, data: \
         mouse_event_data { button: 2, clicks: 1, x: -32768, y: -1 } }"
    );
}

#[test]
fn describe_wheel() {
    let e = uiohook_event::mouse_wheel(7, 0, sample_wheel());
    assert_eq!(
        e.describe(),
        "uiohook_event { time: 7, mask: 0, reserved: 0, data: \
         mouse_wheel_event_data { clicks: 1, x: -5, y: 40, scroll_type: 1, \
         amount: 3, rotation: -1, direction: 3 } }"
    );
}

#[test]
fn modifier_mask_bit_layout() {
    assert_eq!(MASK_SHIFT_L, 0x0001);
    assert_eq!(MASK_CTRL_L, 0x0002);
    assert_eq!(MASK_META_L, 0x0004);
    assert_eq!(MASK_ALT_L, 0x0008);
    assert_eq!(MASK_SHIFT_R, 0x0010);
    assert_eq!(MASK_CTRL_R, 0x0020);
    assert_eq!(MASK_META_R, 0x0040);
    assert_eq!(MASK_ALT_R, 0x0080);
    assert_eq!(MASK_SHIFT, MASK_SHIFT_L | MASK_SHIFT_R);
    assert_eq!(MASK_CTRL, MASK_CTRL_L | MASK_CTRL_R);
    assert_eq!(MASK_META, MASK_META_L | MASK_META_R);
    assert_eq!(MASK_ALT, MASK_ALT_L | MASK_ALT_R);
    assert_eq!(MASK_BUTTON1, 0x0100);
    assert_eq!(MASK_BUTTON5, 0x1000);
    assert_eq!(MASK_NUM_LOCK, 0x2000);
    assert_eq!(MASK_CAPS_LOCK, 0x4000);
    assert_eq!(MASK_SCROLL_LOCK, 0x8000);
}

#[test]
fn button_and_wheel_wire_values() {
    assert_eq!(MOUSE_NOBUTTON, 0);
    assert_eq!(MOUSE_BUTTON1, 1);
    assert_eq!(MOUSE_BUTTON5, 5);
    assert_eq!(WHEEL_UNIT_SCROLL, 1);
    assert_eq!(WHEEL_BLOCK_SCROLL, 2);
    assert_eq!(WHEEL_VERTICAL_DIRECTION, 3);
    assert_eq!(WHEEL_HORIZONTAL_DIRECTION, 4);
    assert_eq!(CHAR_UNDEFINED, 0xFFFF);
}

#[test]
fn error_code_wire_values() {
    assert_eq!(hook_error_code::failure.code(), 0x01);
    assert_eq!(hook_error_code::out_of_memory.code(), 0x02);
    assert_eq!(hook_error_code::x_open_display.code(), 0x20);
    assert_eq!(hook_error_code::x_record_not_found.code(), 0x21);
    assert_eq!(hook_error_code::x_record_alloc_range.code(), 0x22);
    assert_eq!(hook_error_code::x_record_create_context.code(), 0x23);
    assert_eq!(hook_error_code::x_record_enable_context.code(), 0x24);
    assert_eq!(hook_error_code::x_record_get_context.code(), 0x25);
    assert_eq!(hook_error_code::set_windows_hook_ex.code(), 0x30);
    assert_eq!(hook_error_code::get_module_handle.code(), 0x31);
    assert_eq!(hook_error_code::axapi_disabled.code(), 0x40);
    assert_eq!(hook_error_code::create_event_port.code(), 0x41);
    assert_eq!(hook_error_code::create_run_loop_source.code(), 0x42);
    assert_eq!(hook_error_code::get_runloop.code(), 0x43);
    assert_eq!(hook_error_code::create_observer.code(), 0x44);
}

#[test]
fn error_code_round_trip() {
    let codes = [
        hook_error_code::failure,
        hook_error_code::out_of_memory,
        hook_error_code::x_open_display,
        hook_error_code::x_record_not_found,
        hook_error_code::x_record_alloc_range,
        hook_error_code::x_record_create_context,
        hook_error_code::x_record_enable_context,
        hook_error_code::x_record_get_context,
        hook_error_code::set_windows_hook_ex,
        hook_error_code::get_module_handle,
        hook_error_code::axapi_disabled,
        hook_error_code::create_event_port,
        hook_error_code::create_run_loop_source,
        hook_error_code::get_runloop,
        hook_error_code::create_observer,
    ];
    for c in codes {
        assert_eq!(hook_error_code::from_code(c.code()), Some(c));
    }
    assert_eq!(hook_error_code::from_code(0x00), None);
    assert_eq!(hook_error_code::from_code(0x26), None);
    assert_eq!(hook_error_code::from_code(-1), None);
}
