//! A verified model of a cross-platform global input-hook engine.
//!
//! The crate covers the event model and the hook lifecycle protocol of a
//! low-level keyboard/mouse hook: a tagged event envelope whose payload shape
//! is fixed by its kind, the `Idle -> Starting -> Running -> Stopping -> Idle`
//! state machine that governs capture, translation of raw platform
//! notifications into events, synthetic event injection, screen geometry and
//! input-settings queries, and a leveled diagnostics filter.
//!
//! Type and item names follow the C library convention of the native hook
//! interface (`uiohook_event`, `event_type`, ...), hence the lower-case type
//! names.
#![allow(non_camel_case_types)]

mod diagnostics;
mod engine;
mod error;
mod event;
mod screen;
mod settings;
mod text;

pub use diagnostics::lemma_levels_totally_ordered;
pub use diagnostics::log_level;
pub use diagnostics::logger;
pub use engine::closed_session;
pub use engine::hook_engine;
pub use engine::hook_state;
pub use engine::lemma_hook_disabled_last;
pub use engine::lemma_hook_enabled_first;
pub use engine::lemma_post_capture_round_trip;
pub use engine::open_session;
pub use engine::post;
pub use engine::raw_notification;
pub use engine::raw_wf;
pub use engine::spec_encode;
pub use engine::spec_raw_data;
pub use engine::spec_raw_keyboard;
pub use engine::spec_raw_mouse;
pub use engine::spec_raw_wheel;
pub use engine::spec_translate;
pub use engine::translate;
pub use engine::valid_input_event;

pub use error::hook_error;
pub use error::hook_error_code;
pub use event::event_type;
pub use event::input_event_data;
pub use event::is_input_kind;
pub use event::is_keyboard_kind;
pub use event::is_lifecycle_kind;
pub use event::is_mouse_kind;
pub use event::is_wheel_kind;
pub use event::keyboard_event_data;
pub use event::lemma_event_eq_distinct_kinds;
pub use event::lemma_event_eq_reflexive;
pub use event::lemma_event_eq_symmetric;
pub use event::lemma_event_eq_transitive;
pub use event::lemma_event_hash_consistent;
pub use event::lemma_kind_classes_partition;
pub use event::lemma_kind_determines_payload;
pub use event::mouse_event_data;
pub use event::mouse_wheel_event_data;
pub use event::spec_describe;
pub use event::spec_describe_data;
pub use event::spec_describe_keyboard;
pub use event::spec_describe_mouse;
pub use event::spec_describe_wheel;
pub use event::spec_hash_keyboard;
pub use event::spec_hash_mouse;
pub use event::spec_hash_wheel;
pub use event::spec_mix;
pub use event::uiohook_event;
pub use event::CHAR_UNDEFINED;
pub use event::HASH_SEED;
pub use event::MASK_ALT;
pub use event::MASK_ALT_L;
pub use event::MASK_ALT_R;
pub use event::MASK_BUTTON1;
pub use event::MASK_BUTTON2;
pub use event::MASK_BUTTON3;
pub use event::MASK_BUTTON4;
pub use event::MASK_BUTTON5;
pub use event::MASK_CAPS_LOCK;
pub use event::MASK_CTRL;
pub use event::MASK_CTRL_L;
pub use event::MASK_CTRL_R;
pub use event::MASK_META;
pub use event::MASK_META_L;
pub use event::MASK_META_R;
pub use event::MASK_NUM_LOCK;
pub use event::MASK_SCROLL_LOCK;
pub use event::MASK_SHIFT;
pub use event::MASK_SHIFT_L;
pub use event::MASK_SHIFT_R;
pub use event::MOUSE_BUTTON1;
pub use event::MOUSE_BUTTON2;
pub use event::MOUSE_BUTTON3;
pub use event::MOUSE_BUTTON4;
pub use event::MOUSE_BUTTON5;
pub use event::MOUSE_NOBUTTON;
pub use event::WHEEL_BLOCK_SCROLL;
pub use event::WHEEL_HORIZONTAL_DIRECTION;
pub use event::WHEEL_UNIT_SCROLL;
pub use event::WHEEL_VERTICAL_DIRECTION;
pub use screen::list_screens;
pub use screen::screen_data;
pub use settings::settings_value;
pub use text::push_i16_dec;
pub use text::push_u64_dec;
pub use text::spec_digit;
pub use text::spec_i16_dec;
pub use text::spec_u64_dec;
