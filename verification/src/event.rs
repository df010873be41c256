//! The event model: a tagged envelope whose payload shape is fixed by its
//! kind.
//!
//! The native hook interface hands events over as one block of memory
//! reinterpreted under different shapes depending on a discriminant. Here the
//! discriminant and the payload are fused into one sum type,
//! `input_event_data`, so an event whose payload does not match its kind is
//! unrepresentable: every `uiohook_event` is well formed by construction and
//! no accessor can ever read an inactive payload shape.

use vstd::prelude::*;
use vstd::std_specs::cmp::PartialEqSpec;
use vstd::string::StringExecFns;

use crate::error::hook_error;
use crate::text::push_i16_dec;
use crate::text::push_u64_dec;
use crate::text::spec_i16_dec;
use crate::text::spec_u64_dec;

verus! {

/// The kind of an input event: two lifecycle markers, three keyboard kinds,
/// five mouse kinds and the wheel.
#[derive(Clone, Copy, Debug, PartialEq, Eq, Structural, Hash)]
pub enum event_type {
    hook_enabled,
    hook_disabled,
    key_typed,
    key_pressed,
    key_released,
    mouse_clicked,
    mouse_pressed,
    mouse_released,
    mouse_moved,
    mouse_dragged,
    mouse_wheel,
}

impl event_type {
    /// The wire value of this kind on the native boundary, `1` through `11`
    /// in declaration order.
    pub open spec fn spec_value(self) -> int {
        match self {
            event_type::hook_enabled => 1,
            event_type::hook_disabled => 2,
            event_type::key_typed => 3,
            event_type::key_pressed => 4,
            event_type::key_released => 5,
            event_type::mouse_clicked => 6,
            event_type::mouse_pressed => 7,
            event_type::mouse_released => 8,
            event_type::mouse_moved => 9,
            event_type::mouse_dragged => 10,
            event_type::mouse_wheel => 11,
        }
    }

    /// The wire value of this kind on the native boundary.
    pub fn value(&self) -> (r: u32)
        ensures
            r == self.spec_value(),
    {
        match self {
            event_type::hook_enabled => 1,
            event_type::hook_disabled => 2,
            event_type::key_typed => 3,
            event_type::key_pressed => 4,
            event_type::key_released => 5,
            event_type::mouse_clicked => 6,
            event_type::mouse_pressed => 7,
            event_type::mouse_released => 8,
            event_type::mouse_moved => 9,
            event_type::mouse_dragged => 10,
            event_type::mouse_wheel => 11,
        }
    }
}

/// `k` carries no payload: the lifecycle markers synthesized by the engine
/// itself.
pub open spec fn is_lifecycle_kind(k: event_type) -> bool {
    k == event_type::hook_enabled || k == event_type::hook_disabled
}

/// `k` carries a keyboard payload.
pub open spec fn is_keyboard_kind(k: event_type) -> bool {
    k == event_type::key_typed || k == event_type::key_pressed || k == event_type::key_released
}

/// `k` carries a mouse payload.
pub open spec fn is_mouse_kind(k: event_type) -> bool {
    k == event_type::mouse_clicked || k == event_type::mouse_pressed || k
        == event_type::mouse_released || k == event_type::mouse_moved || k
        == event_type::mouse_dragged
}

/// `k` carries a wheel payload.
pub open spec fn is_wheel_kind(k: event_type) -> bool {
    k == event_type::mouse_wheel
}

/// `k` describes captured input, as opposed to a lifecycle marker.
pub open spec fn is_input_kind(k: event_type) -> bool {
    !is_lifecycle_kind(k)
}

/// Modifier mask bit: left shift held.
pub const MASK_SHIFT_L: u16 = 1 << 0;

/// Modifier mask bit: left control held.
pub const MASK_CTRL_L: u16 = 1 << 1;

/// Modifier mask bit: left meta (Windows or Command) held.
pub const MASK_META_L: u16 = 1 << 2;

/// Modifier mask bit: left alt (Option) held.
pub const MASK_ALT_L: u16 = 1 << 3;

/// Modifier mask bit: right shift held.
pub const MASK_SHIFT_R: u16 = 1 << 4;

/// Modifier mask bit: right control held.
pub const MASK_CTRL_R: u16 = 1 << 5;

/// Modifier mask bit: right meta (Windows or Command) held.
pub const MASK_META_R: u16 = 1 << 6;

/// Modifier mask bit: right alt (Option) held.
pub const MASK_ALT_R: u16 = 1 << 7;

/// Either shift key held; derived, not stored separately.
pub const MASK_SHIFT: u16 = MASK_SHIFT_L | MASK_SHIFT_R;

/// Either control key held; derived, not stored separately.
pub const MASK_CTRL: u16 = MASK_CTRL_L | MASK_CTRL_R;

/// Either meta key held; derived, not stored separately.
pub const MASK_META: u16 = MASK_META_L | MASK_META_R;

/// Either alt key held; derived, not stored separately.
pub const MASK_ALT: u16 = MASK_ALT_L | MASK_ALT_R;

/// Modifier mask bit: mouse button 1 held.
pub const MASK_BUTTON1: u16 = 1 << 8;

/// Modifier mask bit: mouse button 2 held.
pub const MASK_BUTTON2: u16 = 1 << 9;

/// Modifier mask bit: mouse button 3 held.
pub const MASK_BUTTON3: u16 = 1 << 10;

/// Modifier mask bit: mouse button 4 held.
pub const MASK_BUTTON4: u16 = 1 << 11;

/// Modifier mask bit: mouse button 5 held.
pub const MASK_BUTTON5: u16 = 1 << 12;

/// Modifier mask bit: num lock toggled.
pub const MASK_NUM_LOCK: u16 = 1 << 13;

/// Modifier mask bit: caps lock toggled.
pub const MASK_CAPS_LOCK: u16 = 1 << 14;

/// Modifier mask bit: scroll lock toggled.
pub const MASK_SCROLL_LOCK: u16 = 1 << 15;

/// Mouse button code: no button.
pub const MOUSE_NOBUTTON: u16 = 0;

/// Mouse button code: left button.
pub const MOUSE_BUTTON1: u16 = 1;

/// Mouse button code: right button.
pub const MOUSE_BUTTON2: u16 = 2;

/// Mouse button code: middle button.
pub const MOUSE_BUTTON3: u16 = 3;

/// Mouse button code: first extra button.
pub const MOUSE_BUTTON4: u16 = 4;

/// Mouse button code: second extra button.
pub const MOUSE_BUTTON5: u16 = 5;

/// Wheel scroll type: scroll by units.
pub const WHEEL_UNIT_SCROLL: u8 = 1;

/// Wheel scroll type: scroll by blocks.
pub const WHEEL_BLOCK_SCROLL: u8 = 2;

/// Wheel scroll direction: vertical.
pub const WHEEL_VERTICAL_DIRECTION: u8 = 3;

/// Wheel scroll direction: horizontal.
pub const WHEEL_HORIZONTAL_DIRECTION: u8 = 4;

/// Character code of a key that produces no character.
pub const CHAR_UNDEFINED: u16 = 0xFFFF;

/// Payload of the keyboard kinds.
#[derive(Clone, Copy, Debug, PartialEq, Eq, Structural, Hash)]
pub struct keyboard_event_data {
    /// Cross-platform logical key code.
    pub keycode: u16,
    /// The platform's raw scan code.
    pub rawcode: u16,
    /// The character produced, or `CHAR_UNDEFINED`.
    pub keychar: u16,
}

/// Payload of the mouse kinds.
#[derive(Clone, Copy, Debug, PartialEq, Eq, Structural, Hash)]
pub struct mouse_event_data {
    /// Mouse button code, `MOUSE_NOBUTTON` through `MOUSE_BUTTON5`.
    pub button: u16,
    /// Consecutive click count.
    pub clicks: u16,
    /// Pointer x position in screen coordinates.
    pub x: i16,
    /// Pointer y position in screen coordinates.
    pub y: i16,
}

/// Payload of the wheel kind.
#[derive(Clone, Copy, Debug, PartialEq, Eq, Structural, Hash)]
pub struct mouse_wheel_event_data {
    /// Consecutive click count.
    pub clicks: u16,
    /// Pointer x position in screen coordinates.
    pub x: i16,
    /// Pointer y position in screen coordinates.
    pub y: i16,
    /// `WHEEL_UNIT_SCROLL` or `WHEEL_BLOCK_SCROLL`.
    pub scroll_type: u8,
    /// Units or blocks to scroll per rotation step.
    pub amount: u16,
    /// Signed rotation step count.
    pub rotation: i16,
    /// `WHEEL_VERTICAL_DIRECTION` or `WHEEL_HORIZONTAL_DIRECTION`.
    pub direction: u8,
}

/// The fused discriminant and payload of an event: each kind appears as one
/// variant carrying exactly the payload shape that belongs to it, so a
/// kind/payload mismatch cannot be written down.
#[derive(Clone, Copy, Debug, PartialEq, Eq, Structural, Hash)]
pub enum input_event_data {
    hook_enabled,
    hook_disabled,
    key_typed(keyboard_event_data),
    key_pressed(keyboard_event_data),
    key_released(keyboard_event_data),
    mouse_clicked(mouse_event_data),
    mouse_pressed(mouse_event_data),
    mouse_released(mouse_event_data),
    mouse_moved(mouse_event_data),
    mouse_dragged(mouse_event_data),
    mouse_wheel(mouse_wheel_event_data),
}

/// One observed or synthetic input event: timestamp, modifier mask and the
/// kind-tagged payload.
#[derive(Clone, Copy, Debug, Hash)]
pub struct uiohook_event {
    /// Event timestamp in epoch milliseconds.
    pub time: u64,
    /// Modifier mask at the moment of the event; see the `MASK_` constants.
    pub mask: u16,
    /// Reserved for the native boundary; `0` unless a platform sets it.
    pub reserved: u16,
    /// The kind-tagged payload.
    pub data: input_event_data,
}

impl uiohook_event {
    /// The kind of this event, read off the payload variant.
    pub open spec fn spec_kind(self) -> event_type {
        match self.data {
            input_event_data::hook_enabled => event_type::hook_enabled,
            input_event_data::hook_disabled => event_type::hook_disabled,
            input_event_data::key_typed(_) => event_type::key_typed,
            input_event_data::key_pressed(_) => event_type::key_pressed,
            input_event_data::key_released(_) => event_type::key_released,
            input_event_data::mouse_clicked(_) => event_type::mouse_clicked,
            input_event_data::mouse_pressed(_) => event_type::mouse_pressed,
            input_event_data::mouse_released(_) => event_type::mouse_released,
            input_event_data::mouse_moved(_) => event_type::mouse_moved,
            input_event_data::mouse_dragged(_) => event_type::mouse_dragged,
            input_event_data::mouse_wheel(_) => event_type::mouse_wheel,
        }
    }

    /// The kind of this event.
    pub fn kind(&self) -> (k: event_type)
        ensures
            k == self.spec_kind(),
    {
        match self.data {
            input_event_data::hook_enabled => event_type::hook_enabled,
            input_event_data::hook_disabled => event_type::hook_disabled,
            input_event_data::key_typed(_) => event_type::key_typed,
            input_event_data::key_pressed(_) => event_type::key_pressed,
            input_event_data::key_released(_) => event_type::key_released,
            input_event_data::mouse_clicked(_) => event_type::mouse_clicked,
            input_event_data::mouse_pressed(_) => event_type::mouse_pressed,
            input_event_data::mouse_released(_) => event_type::mouse_released,
            input_event_data::mouse_moved(_) => event_type::mouse_moved,
            input_event_data::mouse_dragged(_) => event_type::mouse_dragged,
            input_event_data::mouse_wheel(_) => event_type::mouse_wheel,
        }
    }

    /// The keyboard payload where this event has one.
    pub open spec fn spec_keyboard(self) -> Option<keyboard_event_data> {
        match self.data {
            input_event_data::key_typed(k) => Some(k),
            input_event_data::key_pressed(k) => Some(k),
            input_event_data::key_released(k) => Some(k),
            _ => None,
        }
    }

    /// The mouse payload where this event has one.
    pub open spec fn spec_mouse(self) -> Option<mouse_event_data> {
        match self.data {
            input_event_data::mouse_clicked(m) => Some(m),
            input_event_data::mouse_pressed(m) => Some(m),
            input_event_data::mouse_released(m) => Some(m),
            input_event_data::mouse_moved(m) => Some(m),
            input_event_data::mouse_dragged(m) => Some(m),
            _ => None,
        }
    }

    /// The wheel payload where this event has one.
    pub open spec fn spec_wheel(self) -> Option<mouse_wheel_event_data> {
        match self.data {
            input_event_data::mouse_wheel(w) => Some(w),
            _ => None,
        }
    }

    /// Whether this event carries a keyboard payload.
    pub fn is_keyboard(&self) -> (r: bool)
        ensures
            r == is_keyboard_kind(self.spec_kind()),
    {
        match self.data {
            input_event_data::key_typed(_) => true,
            input_event_data::key_pressed(_) => true,
            input_event_data::key_released(_) => true,
            _ => false,
        }
    }

    /// Whether this event carries a mouse payload.
    pub fn is_mouse(&self) -> (r: bool)
        ensures
            r == is_mouse_kind(self.spec_kind()),
    {
        match self.data {
            input_event_data::mouse_clicked(_) => true,
            input_event_data::mouse_pressed(_) => true,
            input_event_data::mouse_released(_) => true,
            input_event_data::mouse_moved(_) => true,
            input_event_data::mouse_dragged(_) => true,
            _ => false,
        }
    }

    /// Whether this event carries a wheel payload.
    pub fn is_wheel(&self) -> (r: bool)
        ensures
            r == is_wheel_kind(self.spec_kind()),
    {
        match self.data {
            input_event_data::mouse_wheel(_) => true,
            _ => false,
        }
    }

    /// The keyboard payload, or `wrong_variant` for a non-keyboard kind.
    pub fn keyboard(&self) -> (r: Result<keyboard_event_data, hook_error>)
        ensures
            match r {
                Ok(k) => self.spec_keyboard() == Some(k),
                Err(e) => self.spec_keyboard() is None && e == hook_error::wrong_variant,
            },
    {
        match self.data {
            input_event_data::key_typed(k) => Ok(k),
            input_event_data::key_pressed(k) => Ok(k),
            input_event_data::key_released(k) => Ok(k),
            _ => Err(hook_error::wrong_variant),
        }
    }

    /// The mouse payload, or `wrong_variant` for a non-mouse kind.
    pub fn mouse(&self) -> (r: Result<mouse_event_data, hook_error>)
        ensures
            match r {
                Ok(m) => self.spec_mouse() == Some(m),
                Err(e) => self.spec_mouse() is None && e == hook_error::wrong_variant,
            },
    {
        match self.data {
            input_event_data::mouse_clicked(m) => Ok(m),
            input_event_data::mouse_pressed(m) => Ok(m),
            input_event_data::mouse_released(m) => Ok(m),
            input_event_data::mouse_moved(m) => Ok(m),
            input_event_data::mouse_dragged(m) => Ok(m),
            _ => Err(hook_error::wrong_variant),
        }
    }

    /// The wheel payload, or `wrong_variant` for a non-wheel kind.
    pub fn wheel(&self) -> (r: Result<mouse_wheel_event_data, hook_error>)
        ensures
            match r {
                Ok(w) => self.spec_wheel() == Some(w),
                Err(e) => self.spec_wheel() is None && e == hook_error::wrong_variant,
            },
    {
        match self.data {
            input_event_data::mouse_wheel(w) => Ok(w),
            _ => Err(hook_error::wrong_variant),
        }
    }

    /// A `hook_enabled` lifecycle marker.
    pub fn hook_enabled(time: u64, mask: u16) -> (e: uiohook_event)
        ensures
            e == (uiohook_event { time, mask, reserved: 0, data: input_event_data::hook_enabled }),
    {
        uiohook_event { time, mask, reserved: 0, data: input_event_data::hook_enabled }
    }

    /// A `hook_disabled` lifecycle marker.
    pub fn hook_disabled(time: u64, mask: u16) -> (e: uiohook_event)
        ensures
            e == (uiohook_event { time, mask, reserved: 0, data: input_event_data::hook_disabled }),
    {
        uiohook_event { time, mask, reserved: 0, data: input_event_data::hook_disabled }
    }

    /// A `key_typed` event carrying `k`.
    pub fn key_typed(time: u64, mask: u16, k: keyboard_event_data) -> (e: uiohook_event)
        ensures
            e == (uiohook_event { time, mask, reserved: 0, data: input_event_data::key_typed(k) }),
    {
        uiohook_event { time, mask, reserved: 0, data: input_event_data::key_typed(k) }
    }

    /// A `key_pressed` event carrying `k`.
    pub fn key_pressed(time: u64, mask: u16, k: keyboard_event_data) -> (e: uiohook_event)
        ensures
            e == (uiohook_event { time, mask, reserved: 0, data: input_event_data::key_pressed(k) }),
    {
        uiohook_event { time, mask, reserved: 0, data: input_event_data::key_pressed(k) }
    }

    /// A `key_released` event carrying `k`.
    pub fn key_released(time: u64, mask: u16, k: keyboard_event_data) -> (e: uiohook_event)
        ensures
            e == (uiohook_event {
                time,
                mask,
                reserved: 0,
                data: input_event_data::key_released(k),
            }),
    {
        uiohook_event { time, mask, reserved: 0, data: input_event_data::key_released(k) }
    }

    /// A `mouse_clicked` event carrying `m`.
    pub fn mouse_clicked(time: u64, mask: u16, m: mouse_event_data) -> (e: uiohook_event)
        ensures
            e == (uiohook_event {
                time,
                mask,
                reserved: 0,
                data: input_event_data::mouse_clicked(m),
            }),
    {
        uiohook_event { time, mask, reserved: 0, data: input_event_data::mouse_clicked(m) }
    }

    /// A `mouse_pressed` event carrying `m`.
    pub fn mouse_pressed(time: u64, mask: u16, m: mouse_event_data) -> (e: uiohook_event)
        ensures
            e == (uiohook_event {
                time,
                mask,
                reserved: 0,
                data: input_event_data::mouse_pressed(m),
            }),
    {
        uiohook_event { time, mask, reserved: 0, data: input_event_data::mouse_pressed(m) }
    }

    /// A `mouse_released` event carrying `m`.
    pub fn mouse_released(time: u64, mask: u16, m: mouse_event_data) -> (e: uiohook_event)
        ensures
            e == (uiohook_event {
                time,
                mask,
                reserved: 0,
                data: input_event_data::mouse_released(m),
            }),
    {
        uiohook_event { time, mask, reserved: 0, data: input_event_data::mouse_released(m) }
    }

    /// A `mouse_moved` event carrying `m`.
    pub fn mouse_moved(time: u64, mask: u16, m: mouse_event_data) -> (e: uiohook_event)
        ensures
            e == (uiohook_event {
                time,
                mask,
                reserved: 0,
                data: input_event_data::mouse_moved(m),
            }),
    {
        uiohook_event { time, mask, reserved: 0, data: input_event_data::mouse_moved(m) }
    }

    /// A `mouse_dragged` event carrying `m`.
    pub fn mouse_dragged(time: u64, mask: u16, m: mouse_event_data) -> (e: uiohook_event)
        ensures
            e == (uiohook_event {
                time,
                mask,
                reserved: 0,
                data: input_event_data::mouse_dragged(m),
            }),
    {
        uiohook_event { time, mask, reserved: 0, data: input_event_data::mouse_dragged(m) }
    }

    /// A `mouse_wheel` event carrying `w`.
    pub fn mouse_wheel(time: u64, mask: u16, w: mouse_wheel_event_data) -> (e: uiohook_event)
        ensures
            e == (uiohook_event {
                time,
                mask,
                reserved: 0,
                data: input_event_data::mouse_wheel(w),
            }),
    {
        uiohook_event { time, mask, reserved: 0, data: input_event_data::mouse_wheel(w) }
    }
}

impl PartialEq for uiohook_event {
    /// Discriminant-guarded comparison: the envelope fields and, per kind,
    /// only the payload fields belonging to that kind — a payload of an
    /// inactive shape is never compared. Because a mismatched shape is
    /// unrepresentable, this is provably plain structural equality, which is
    /// what `eq_spec` below says `==` means in contracts.
    fn eq(&self, other: &Self) -> (r: bool) {
        if self.time != other.time || self.mask != other.mask || self.reserved != other.reserved {
            return false;
        }
        match (self.data, other.data) {
            (input_event_data::hook_enabled, input_event_data::hook_enabled) => true,
            (input_event_data::hook_disabled, input_event_data::hook_disabled) => true,
            (input_event_data::key_typed(a), input_event_data::key_typed(b)) => a == b,
            (input_event_data::key_pressed(a), input_event_data::key_pressed(b)) => a == b,
            (input_event_data::key_released(a), input_event_data::key_released(b)) => a == b,
            (input_event_data::mouse_clicked(a), input_event_data::mouse_clicked(b)) => a == b,
            (input_event_data::mouse_pressed(a), input_event_data::mouse_pressed(b)) => a == b,
            (input_event_data::mouse_released(a), input_event_data::mouse_released(b)) => a == b,
            (input_event_data::mouse_moved(a), input_event_data::mouse_moved(b)) => a == b,
            (input_event_data::mouse_dragged(a), input_event_data::mouse_dragged(b)) => a == b,
            (input_event_data::mouse_wheel(a), input_event_data::mouse_wheel(b)) => a == b,
            _ => false,
        }
    }
}

impl vstd::std_specs::cmp::PartialEqSpecImpl for uiohook_event {
    open spec fn obeys_eq_spec() -> bool {
        true
    }

    open spec fn eq_spec(&self, other: &uiohook_event) -> bool {
        self == other
    }
}

impl Eq for uiohook_event {}

/// Seed of the event hash fold.
pub const HASH_SEED: u64 = 0xcbf29ce484222325;

/// One fold step of the event hash: rotate the accumulator and mix in `v`.
pub open spec fn spec_mix(h: u64, v: u64) -> u64 {
    (((h << 7) | (h >> 57)) ^ v)
}

fn mix(h: u64, v: u64) -> (r: u64)
    ensures
        r == spec_mix(h, v),
{
    ((h << 7) | (h >> 57)) ^ v
}

impl uiohook_event {
    /// The hash of this event: a fold over the kind value, the envelope
    /// fields and exactly the payload fields belonging to the kind, so the
    /// hash never depends on an inactive payload shape.
    pub open spec fn spec_hash(self) -> u64 {
        let h = spec_mix(HASH_SEED, self.spec_kind().spec_value() as u64);
        let h = spec_mix(h, self.time);
        let h = spec_mix(h, self.mask as u64);
        let h = spec_mix(h, self.reserved as u64);
        match self.data {
            input_event_data::hook_enabled => h,
            input_event_data::hook_disabled => h,
            input_event_data::key_typed(k) => spec_hash_keyboard(h, k),
            input_event_data::key_pressed(k) => spec_hash_keyboard(h, k),
            input_event_data::key_released(k) => spec_hash_keyboard(h, k),
            input_event_data::mouse_clicked(m) => spec_hash_mouse(h, m),
            input_event_data::mouse_pressed(m) => spec_hash_mouse(h, m),
            input_event_data::mouse_released(m) => spec_hash_mouse(h, m),
            input_event_data::mouse_moved(m) => spec_hash_mouse(h, m),
            input_event_data::mouse_dragged(m) => spec_hash_mouse(h, m),
            input_event_data::mouse_wheel(w) => spec_hash_wheel(h, w),
        }
    }

    /// The hash of this event, folded over the kind value, the envelope
    /// fields and the payload fields belonging to the kind.
    pub fn hash_value(&self) -> (h: u64)
        ensures
            h == self.spec_hash(),
    {
        let mut h: u64 = mix(HASH_SEED, self.kind().value() as u64);
        h = mix(h, self.time);
        h = mix(h, self.mask as u64);
        h = mix(h, self.reserved as u64);
        match self.data {
            input_event_data::hook_enabled => h,
            input_event_data::hook_disabled => h,
            input_event_data::key_typed(k) => hash_keyboard(h, &k),
            input_event_data::key_pressed(k) => hash_keyboard(h, &k),
            input_event_data::key_released(k) => hash_keyboard(h, &k),
            input_event_data::mouse_clicked(m) => hash_mouse(h, &m),
            input_event_data::mouse_pressed(m) => hash_mouse(h, &m),
            input_event_data::mouse_released(m) => hash_mouse(h, &m),
            input_event_data::mouse_moved(m) => hash_mouse(h, &m),
            input_event_data::mouse_dragged(m) => hash_mouse(h, &m),
            input_event_data::mouse_wheel(w) => hash_wheel(h, &w),
        }
    }
}

/// A keyboard payload folded into the hash accumulator `h`.
pub open spec fn spec_hash_keyboard(h: u64, k: keyboard_event_data) -> u64 {
    spec_mix(spec_mix(spec_mix(h, k.keycode as u64), k.rawcode as u64), k.keychar as u64)
}

fn hash_keyboard(h: u64, k: &keyboard_event_data) -> (r: u64)
    ensures
        r == spec_hash_keyboard(h, *k),
{
    mix(mix(mix(h, k.keycode as u64), k.rawcode as u64), k.keychar as u64)
}

/// A mouse payload folded into the hash accumulator `h`.
pub open spec fn spec_hash_mouse(h: u64, m: mouse_event_data) -> u64 {
    spec_mix(spec_mix(spec_mix(spec_mix(h, m.button as u64), m.clicks as u64), m.x as u64), m.y as u64)
}

fn hash_mouse(h: u64, m: &mouse_event_data) -> (r: u64)
    ensures
        r == spec_hash_mouse(h, *m),
{
    mix(mix(mix(mix(h, m.button as u64), m.clicks as u64), m.x as u64), m.y as u64)
}

/// A wheel payload folded into the hash accumulator `h`.
pub open spec fn spec_hash_wheel(h: u64, w: mouse_wheel_event_data) -> u64 {
    let r = spec_mix(spec_mix(spec_mix(h, w.clicks as u64), w.x as u64), w.y as u64);
    let r = spec_mix(spec_mix(r, w.scroll_type as u64), w.amount as u64);
    spec_mix(spec_mix(r, w.rotation as u64), w.direction as u64)
}

fn hash_wheel(h: u64, w: &mouse_wheel_event_data) -> (r: u64)
    ensures
        r == spec_hash_wheel(h, *w),
{
    let r = mix(mix(mix(h, w.clicks as u64), w.x as u64), w.y as u64);
    let r = mix(mix(r, w.scroll_type as u64), w.amount as u64);
    mix(mix(r, w.rotation as u64), w.direction as u64)
}

/// The description of a keyboard payload.
pub open spec fn spec_describe_keyboard(k: keyboard_event_data) -> Seq<char> {
    "keyboard_event_data { keycode: "@ + spec_u64_dec(k.keycode as int) + ", rawcode: "@
        + spec_u64_dec(k.rawcode as int) + ", keychar: "@ + spec_u64_dec(k.keychar as int) + " }"@
}

/// The description of a mouse payload.
pub open spec fn spec_describe_mouse(m: mouse_event_data) -> Seq<char> {
    "mouse_event_data { button: "@ + spec_u64_dec(m.button as int) + ", clicks: "@
        + spec_u64_dec(m.clicks as int) + ", x: "@ + spec_i16_dec(m.x as int) + ", y: "@
        + spec_i16_dec(m.y as int) + " }"@
}

/// The description of a wheel payload.
pub open spec fn spec_describe_wheel(w: mouse_wheel_event_data) -> Seq<char> {
    "mouse_wheel_event_data { clicks: "@ + spec_u64_dec(w.clicks as int) + ", x: "@
        + spec_i16_dec(w.x as int) + ", y: "@ + spec_i16_dec(w.y as int) + ", scroll_type: "@
        + spec_u64_dec(w.scroll_type as int) + ", amount: "@ + spec_u64_dec(w.amount as int)
        + ", rotation: "@ + spec_i16_dec(w.rotation as int) + ", direction: "@
        + spec_u64_dec(w.direction as int) + " }"@
}

/// The description of the payload alone: only the fields of the active
/// shape, and `()` for a lifecycle marker that carries none.
pub open spec fn spec_describe_data(d: input_event_data) -> Seq<char> {
    match d {
        input_event_data::hook_enabled => "()"@,
        input_event_data::hook_disabled => "()"@,
        input_event_data::key_typed(k) => spec_describe_keyboard(k),
        input_event_data::key_pressed(k) => spec_describe_keyboard(k),
        input_event_data::key_released(k) => spec_describe_keyboard(k),
        input_event_data::mouse_clicked(m) => spec_describe_mouse(m),
        input_event_data::mouse_pressed(m) => spec_describe_mouse(m),
        input_event_data::mouse_released(m) => spec_describe_mouse(m),
        input_event_data::mouse_moved(m) => spec_describe_mouse(m),
        input_event_data::mouse_dragged(m) => spec_describe_mouse(m),
        input_event_data::mouse_wheel(w) => spec_describe_wheel(w),
    }
}

/// The full description of an event: the envelope fields and only the
/// payload fields belonging to its kind.
pub open spec fn spec_describe(e: uiohook_event) -> Seq<char> {
    "uiohook_event { time: "@ + spec_u64_dec(e.time as int) + ", mask: "@
        + spec_u64_dec(e.mask as int) + ", reserved: "@ + spec_u64_dec(e.reserved as int)
        + ", data: "@ + spec_describe_data(e.data) + " }"@
}

impl uiohook_event {
    /// Renders this event for diagnostics: the envelope fields and, per
    /// kind, exactly the payload fields belonging to that kind — a payload
    /// shape the kind does not select never appears.
    pub fn describe(&self) -> (s: String)
        ensures
            s@ == spec_describe(*self),
    {
        let mut s = String::new();
        s.append("uiohook_event { time: ");
        push_u64_dec(&mut s, self.time);
        s.append(", mask: ");
        push_u64_dec(&mut s, self.mask as u64);
        s.append(", reserved: ");
        push_u64_dec(&mut s, self.reserved as u64);
        s.append(", data: ");
        match self.data {
            input_event_data::hook_enabled => s.append("()"),
            input_event_data::hook_disabled => s.append("()"),
            input_event_data::key_typed(k) => push_keyboard(&mut s, &k),
            input_event_data::key_pressed(k) => push_keyboard(&mut s, &k),
            input_event_data::key_released(k) => push_keyboard(&mut s, &k),
            input_event_data::mouse_clicked(m) => push_mouse(&mut s, &m),
            input_event_data::mouse_pressed(m) => push_mouse(&mut s, &m),
            input_event_data::mouse_released(m) => push_mouse(&mut s, &m),
            input_event_data::mouse_moved(m) => push_mouse(&mut s, &m),
            input_event_data::mouse_dragged(m) => push_mouse(&mut s, &m),
            input_event_data::mouse_wheel(w) => push_wheel(&mut s, &w),
        }
        s.append(" }");
        proof {
            assert(s@ =~= spec_describe(*self));
        }
        s
    }
}

fn push_keyboard(s: &mut String, k: &keyboard_event_data)
    ensures
        final(s)@ == old(s)@ + spec_describe_keyboard(*k),
{
    s.append("keyboard_event_data { keycode: ");
    push_u64_dec(s, k.keycode as u64);
    s.append(", rawcode: ");
    push_u64_dec(s, k.rawcode as u64);
    s.append(", keychar: ");
    push_u64_dec(s, k.keychar as u64);
    s.append(" }");
    proof {
        assert(s@ =~= old(s)@ + spec_describe_keyboard(*k));
    }
}

fn push_mouse(s: &mut String, m: &mouse_event_data)
    ensures
        final(s)@ == old(s)@ + spec_describe_mouse(*m),
{
    s.append("mouse_event_data { button: ");
    push_u64_dec(s, m.button as u64);
    s.append(", clicks: ");
    push_u64_dec(s, m.clicks as u64);
    s.append(", x: ");
    push_i16_dec(s, m.x);
    s.append(", y: ");
    push_i16_dec(s, m.y);
    s.append(" }");
    proof {
        assert(s@ =~= old(s)@ + spec_describe_mouse(*m));
    }
}

fn push_wheel(s: &mut String, w: &mouse_wheel_event_data)
    ensures
        final(s)@ == old(s)@ + spec_describe_wheel(*w),
{
    s.append("mouse_wheel_event_data { clicks: ");
    push_u64_dec(s, w.clicks as u64);
    s.append(", x: ");
    push_i16_dec(s, w.x);
    s.append(", y: ");
    push_i16_dec(s, w.y);
    s.append(", scroll_type: ");
    push_u64_dec(s, w.scroll_type as u64);
    s.append(", amount: ");
    push_u64_dec(s, w.amount as u64);
    s.append(", rotation: ");
    push_i16_dec(s, w.rotation);
    s.append(", direction: ");
    push_u64_dec(s, w.direction as u64);
    s.append(" }");
    proof {
        assert(s@ =~= old(s)@ + spec_describe_wheel(*w));
    }
}

/// Equality of events is reflexive.
pub proof fn lemma_event_eq_reflexive(a: uiohook_event)
    ensures
        a.eq_spec(&a),
{
}

/// Equality of events is symmetric.
pub proof fn lemma_event_eq_symmetric(a: uiohook_event, b: uiohook_event)
    ensures
        a.eq_spec(&b) == b.eq_spec(&a),
{
}

/// Equality of events is transitive.
pub proof fn lemma_event_eq_transitive(a: uiohook_event, b: uiohook_event, c: uiohook_event)
    ensures
        a.eq_spec(&b) && b.eq_spec(&c) ==> a.eq_spec(&c),
{
}

/// Two events of different kind are never equal.
pub proof fn lemma_event_eq_distinct_kinds(a: uiohook_event, b: uiohook_event)
    ensures
        a.spec_kind() != b.spec_kind() ==> !a.eq_spec(&b),
{
}

/// Hash/equality consistency: equal events hash alike, over every payload
/// shape.
pub proof fn lemma_event_hash_consistent(a: uiohook_event, b: uiohook_event)
    ensures
        a.eq_spec(&b) ==> a.spec_hash() == b.spec_hash(),
{
}

/// The four payload classes partition the kinds: every kind falls in exactly
/// one of lifecycle, keyboard, mouse and wheel.
pub proof fn lemma_kind_classes_partition(k: event_type)
    ensures
        is_lifecycle_kind(k) || is_keyboard_kind(k) || is_mouse_kind(k) || is_wheel_kind(k),
        is_lifecycle_kind(k) ==> !is_keyboard_kind(k) && !is_mouse_kind(k) && !is_wheel_kind(k),
        is_keyboard_kind(k) ==> !is_lifecycle_kind(k) && !is_mouse_kind(k) && !is_wheel_kind(k),
        is_mouse_kind(k) ==> !is_lifecycle_kind(k) && !is_keyboard_kind(k) && !is_wheel_kind(k),
        is_wheel_kind(k) ==> !is_lifecycle_kind(k) && !is_keyboard_kind(k) && !is_mouse_kind(k),
{
}

/// The kind alone determines which payload accessor succeeds: an event has a
/// keyboard payload exactly on the keyboard kinds, a mouse payload exactly on
/// the mouse kinds, and a wheel payload exactly on the wheel kind.
pub proof fn lemma_kind_determines_payload(e: uiohook_event)
    ensures
        e.spec_keyboard() is Some <==> is_keyboard_kind(e.spec_kind()),
        e.spec_mouse() is Some <==> is_mouse_kind(e.spec_kind()),
        e.spec_wheel() is Some <==> is_wheel_kind(e.spec_kind()),
{
}

} // verus!
