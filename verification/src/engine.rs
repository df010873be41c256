//! The hook lifecycle protocol: the `Idle -> Starting -> Running -> Stopping
//! -> Idle` state machine, translation of raw platform notifications into
//! events, and synthetic event injection.
//!
//! The engine here is the decision core of the protocol. The platform work
//! itself — opening the capture context, pumping the native event loop,
//! invoking the registered dispatch consumer, synthesizing native input — is
//! performed by the embedding driver, which feeds every outcome back into
//! these transitions and performs the deliveries they return. A ghost
//! session log records, in order, every event the engine has handed to the
//! driver for delivery in the current capture session, which is what the
//! ordering laws below speak of.

use vstd::prelude::*;

use crate::error::hook_error;
use crate::error::hook_error_code;
use crate::event::event_type;
use crate::event::input_event_data;
use crate::event::is_input_kind;
use crate::event::keyboard_event_data;
use crate::event::mouse_event_data;
use crate::event::mouse_wheel_event_data;
use crate::event::uiohook_event;
use crate::event::MOUSE_BUTTON5;
use crate::event::WHEEL_BLOCK_SCROLL;
use crate::event::WHEEL_HORIZONTAL_DIRECTION;
use crate::event::WHEEL_UNIT_SCROLL;
use crate::event::WHEEL_VERTICAL_DIRECTION;

verus! {

/// The lifecycle state of the engine.
#[derive(Clone, Copy, Debug, PartialEq, Eq, Structural, Hash)]
pub enum hook_state {
    /// Initial and terminal: no capture context is held.
    idle,
    /// `start()` was accepted and the capture context is being acquired.
    starting,
    /// The capture context is held and events are being delivered.
    running,
    /// `stop()` was accepted and the capture context is being released.
    stopping,
}

/// A raw platform notification as it crosses the native boundary: the kind
/// wire value, the envelope fields, and one flat block holding every payload
/// field of every shape. Only the fields selected by `kind_code` are
/// meaningful; translation never reads the others.
#[derive(Clone, Copy, Debug, PartialEq, Eq, Structural, Hash)]
pub struct raw_notification {
    /// Wire value of the event kind, `1` through `11`.
    pub kind_code: u32,
    /// Event timestamp in epoch milliseconds.
    pub time: u64,
    /// Modifier mask at the moment of the event.
    pub mask: u16,
    /// Reserved for the native boundary.
    pub reserved: u16,
    /// Keyboard shape: logical key code.
    pub keycode: u16,
    /// Keyboard shape: raw scan code.
    pub rawcode: u16,
    /// Keyboard shape: character produced.
    pub keychar: u16,
    /// Mouse shape: button code.
    pub button: u16,
    /// Mouse and wheel shapes: consecutive click count.
    pub clicks: u16,
    /// Mouse and wheel shapes: pointer x position.
    pub x: i16,
    /// Mouse and wheel shapes: pointer y position.
    pub y: i16,
    /// Wheel shape: scroll type.
    pub scroll_type: u8,
    /// Wheel shape: units or blocks per rotation step.
    pub amount: u16,
    /// Wheel shape: signed rotation step count.
    pub rotation: i16,
    /// Wheel shape: scroll direction.
    pub direction: u8,
}

/// `r` is a well-formed captured-input notification: its kind is one of the
/// nine input kinds and the payload fields that kind selects are in range.
/// The lifecycle wire values `1` and `2` are not captured input — the engine
/// synthesizes those markers itself — so they are malformed here.
pub open spec fn raw_wf(r: raw_notification) -> bool {
    &&& 3 <= r.kind_code <= 11
    &&& (6 <= r.kind_code <= 10 ==> r.button <= MOUSE_BUTTON5)
    &&& (r.kind_code == 11 ==> {
        &&& (r.scroll_type == WHEEL_UNIT_SCROLL || r.scroll_type == WHEEL_BLOCK_SCROLL)
        &&& (r.direction == WHEEL_VERTICAL_DIRECTION || r.direction == WHEEL_HORIZONTAL_DIRECTION)
    })
}

/// The keyboard shape read out of a raw notification.
pub open spec fn spec_raw_keyboard(r: raw_notification) -> keyboard_event_data {
    keyboard_event_data { keycode: r.keycode, rawcode: r.rawcode, keychar: r.keychar }
}

/// The mouse shape read out of a raw notification.
pub open spec fn spec_raw_mouse(r: raw_notification) -> mouse_event_data {
    mouse_event_data { button: r.button, clicks: r.clicks, x: r.x, y: r.y }
}

/// The wheel shape read out of a raw notification.
pub open spec fn spec_raw_wheel(r: raw_notification) -> mouse_wheel_event_data {
    mouse_wheel_event_data {
        clicks: r.clicks,
        x: r.x,
        y: r.y,
        scroll_type: r.scroll_type,
        amount: r.amount,
        rotation: r.rotation,
        direction: r.direction,
    }
}

/// The tagged payload a well-formed raw notification translates to.
pub open spec fn spec_raw_data(r: raw_notification) -> input_event_data {
    if r.kind_code == 3 {
        input_event_data::key_typed(spec_raw_keyboard(r))
    } else if r.kind_code == 4 {
        input_event_data::key_pressed(spec_raw_keyboard(r))
    } else if r.kind_code == 5 {
        input_event_data::key_released(spec_raw_keyboard(r))
    } else if r.kind_code == 6 {
        input_event_data::mouse_clicked(spec_raw_mouse(r))
    } else if r.kind_code == 7 {
        input_event_data::mouse_pressed(spec_raw_mouse(r))
    } else if r.kind_code == 8 {
        input_event_data::mouse_released(spec_raw_mouse(r))
    } else if r.kind_code == 9 {
        input_event_data::mouse_moved(spec_raw_mouse(r))
    } else if r.kind_code == 10 {
        input_event_data::mouse_dragged(spec_raw_mouse(r))
    } else {
        input_event_data::mouse_wheel(spec_raw_wheel(r))
    }
}

/// What a raw notification translates to: the event, or `None` for a
/// malformed notification, which is logged and dropped rather than
/// propagated.
pub open spec fn spec_translate(r: raw_notification) -> Option<uiohook_event> {
    if raw_wf(r) {
        Some(
            uiohook_event {
                time: r.time,
                mask: r.mask,
                reserved: r.reserved,
                data: spec_raw_data(r),
            },
        )
    } else {
        None
    }
}

/// Translates one raw platform notification into an event. Returns `None`
/// exactly on a malformed notification (kind out of the captured-input
/// range, a button above `MOUSE_BUTTON5`, or a wheel scroll type or
/// direction outside the wire values).
pub fn translate(r: &raw_notification) -> (ev: Option<uiohook_event>)
    ensures
        ev == spec_translate(*r),
{
    if r.kind_code < 3 || r.kind_code > 11 {
        return None;
    }
    if 6 <= r.kind_code && r.kind_code <= 10 && r.button > MOUSE_BUTTON5 {
        return None;
    }
    if r.kind_code == 11 {
        if r.scroll_type != WHEEL_UNIT_SCROLL && r.scroll_type != WHEEL_BLOCK_SCROLL {
            return None;
        }
        if r.direction != WHEEL_VERTICAL_DIRECTION && r.direction != WHEEL_HORIZONTAL_DIRECTION {
            return None;
        }
    }
    let keyboard = keyboard_event_data {
        keycode: r.keycode,
        rawcode: r.rawcode,
        keychar: r.keychar,
    };
    let mouse = mouse_event_data { button: r.button, clicks: r.clicks, x: r.x, y: r.y };
    let wheel = mouse_wheel_event_data {
        clicks: r.clicks,
        x: r.x,
        y: r.y,
        scroll_type: r.scroll_type,
        amount: r.amount,
        rotation: r.rotation,
        direction: r.direction,
    };
    let data = if r.kind_code == 3 {
        input_event_data::key_typed(keyboard)
    } else if r.kind_code == 4 {
        input_event_data::key_pressed(keyboard)
    } else if r.kind_code == 5 {
        input_event_data::key_released(keyboard)
    } else if r.kind_code == 6 {
        input_event_data::mouse_clicked(mouse)
    } else if r.kind_code == 7 {
        input_event_data::mouse_pressed(mouse)
    } else if r.kind_code == 8 {
        input_event_data::mouse_released(mouse)
    } else if r.kind_code == 9 {
        input_event_data::mouse_moved(mouse)
    } else if r.kind_code == 10 {
        input_event_data::mouse_dragged(mouse)
    } else {
        input_event_data::mouse_wheel(wheel)
    };
    Some(uiohook_event { time: r.time, mask: r.mask, reserved: r.reserved, data })
}

/// The raw notification that carries `e` across the native boundary: the
/// kind wire value, the envelope fields, the payload fields belonging to the
/// kind, and zero in every field of an inactive shape.
pub open spec fn spec_encode(e: uiohook_event) -> raw_notification {
    let blank = raw_notification {
        kind_code: e.spec_kind().spec_value() as u32,
        time: e.time,
        mask: e.mask,
        reserved: e.reserved,
        keycode: 0,
        rawcode: 0,
        keychar: 0,
        button: 0,
        clicks: 0,
        x: 0,
        y: 0,
        scroll_type: 0,
        amount: 0,
        rotation: 0,
        direction: 0,
    };
    match e.data {
        input_event_data::hook_enabled => blank,
        input_event_data::hook_disabled => blank,
        input_event_data::key_typed(k) => raw_notification {
            keycode: k.keycode,
            rawcode: k.rawcode,
            keychar: k.keychar,
            ..blank
        },
        input_event_data::key_pressed(k) => raw_notification {
            keycode: k.keycode,
            rawcode: k.rawcode,
            keychar: k.keychar,
            ..blank
        },
        input_event_data::key_released(k) => raw_notification {
            keycode: k.keycode,
            rawcode: k.rawcode,
            keychar: k.keychar,
            ..blank
        },
        input_event_data::mouse_clicked(m) => raw_notification {
            button: m.button,
            clicks: m.clicks,
            x: m.x,
            y: m.y,
            ..blank
        },
        input_event_data::mouse_pressed(m) => raw_notification {
            button: m.button,
            clicks: m.clicks,
            x: m.x,
            y: m.y,
            ..blank
        },
        input_event_data::mouse_released(m) => raw_notification {
            button: m.button,
            clicks: m.clicks,
            x: m.x,
            y: m.y,
            ..blank
        },
        input_event_data::mouse_moved(m) => raw_notification {
            button: m.button,
            clicks: m.clicks,
            x: m.x,
            y: m.y,
            ..blank
        },
        input_event_data::mouse_dragged(m) => raw_notification {
            button: m.button,
            clicks: m.clicks,
            x: m.x,
            y: m.y,
            ..blank
        },
        input_event_data::mouse_wheel(w) => raw_notification {
            clicks: w.clicks,
            x: w.x,
            y: w.y,
            scroll_type: w.scroll_type,
            amount: w.amount,
            rotation: w.rotation,
            direction: w.direction,
            ..blank
        },
    }
}

/// Synthetic event injection: the image of `e` for the platform to
/// synthesize as if generated by hardware. Valid regardless of the engine's
/// lifecycle state — it takes no engine at all — and total: it succeeds on
/// every event. The driver hands the result to the native injection entry
/// point.
pub fn post(e: &uiohook_event) -> (r: raw_notification)
    ensures
        r == spec_encode(*e),
{
    let blank = raw_notification {
        kind_code: e.kind().value(),
        time: e.time,
        mask: e.mask,
        reserved: e.reserved,
        keycode: 0,
        rawcode: 0,
        keychar: 0,
        button: 0,
        clicks: 0,
        x: 0,
        y: 0,
        scroll_type: 0,
        amount: 0,
        rotation: 0,
        direction: 0,
    };
    match e.data {
        input_event_data::hook_enabled => blank,
        input_event_data::hook_disabled => blank,
        input_event_data::key_typed(k) => raw_notification {
            keycode: k.keycode,
            rawcode: k.rawcode,
            keychar: k.keychar,
            ..blank
        },
        input_event_data::key_pressed(k) => raw_notification {
            keycode: k.keycode,
            rawcode: k.rawcode,
            keychar: k.keychar,
            ..blank
        },
        input_event_data::key_released(k) => raw_notification {
            keycode: k.keycode,
            rawcode: k.rawcode,
            keychar: k.keychar,
            ..blank
        },
        input_event_data::mouse_clicked(m) => raw_notification {
            button: m.button,
            clicks: m.clicks,
            x: m.x,
            y: m.y,
            ..blank
        },
        input_event_data::mouse_pressed(m) => raw_notification {
            button: m.button,
            clicks: m.clicks,
            x: m.x,
            y: m.y,
            ..blank
        },
        input_event_data::mouse_released(m) => raw_notification {
            button: m.button,
            clicks: m.clicks,
            x: m.x,
            y: m.y,
            ..blank
        },
        input_event_data::mouse_moved(m) => raw_notification {
            button: m.button,
            clicks: m.clicks,
            x: m.x,
            y: m.y,
            ..blank
        },
        input_event_data::mouse_dragged(m) => raw_notification {
            button: m.button,
            clicks: m.clicks,
            x: m.x,
            y: m.y,
            ..blank
        },
        input_event_data::mouse_wheel(w) => raw_notification {
            clicks: w.clicks,
            x: w.x,
            y: w.y,
            scroll_type: w.scroll_type,
            amount: w.amount,
            rotation: w.rotation,
            direction: w.direction,
            ..blank
        },
    }
}

/// `s` is the delivery log of a live capture session: the `hook_enabled`
/// marker first, then captured input events only.
pub open spec fn open_session(s: Seq<uiohook_event>) -> bool {
    &&& s.len() >= 1
    &&& s[0].spec_kind() == event_type::hook_enabled
    &&& forall|i: int| 1 <= i < s.len() ==> is_input_kind(#[trigger] s[i].spec_kind())
}

/// `s` is the delivery log of a finished capture session: the
/// `hook_enabled` marker first, the `hook_disabled` marker last, and
/// captured input events between them.
pub open spec fn closed_session(s: Seq<uiohook_event>) -> bool {
    &&& s.len() >= 2
    &&& s[0].spec_kind() == event_type::hook_enabled
    &&& s[s.len() - 1].spec_kind() == event_type::hook_disabled
    &&& forall|i: int| 1 <= i < s.len() - 1 ==> is_input_kind(#[trigger] s[i].spec_kind())
}

/// The hook engine: the owner of the lifecycle state machine.
///
/// Exactly one instance should exist per process — the native capture
/// mechanisms it models are singletons — and the transition contracts
/// enforce that only the `idle -> starting -> running -> stopping -> idle`
/// cycle is possible on it. The ghost `log` holds every event handed to the
/// driver for synchronous delivery to the dispatch consumer during the
/// current (or, once idle again, the most recent) capture session, in
/// delivery order.
pub struct hook_engine {
    state: hook_state,
    log: Ghost<Seq<uiohook_event>>,
}

impl hook_engine {
    /// The lifecycle state.
    pub closed spec fn lifecycle(self) -> hook_state {
        self.state
    }

    /// The delivery log of the current capture session, in order.
    pub closed spec fn session(self) -> Seq<uiohook_event> {
        self.log@
    }

    /// The engine's invariant, preserved by every transition: while running,
    /// the session log is an open session (`hook_enabled` first, then input
    /// events only); once stopping or idle it is empty — the session never
    /// began — or a closed session ending in `hook_disabled`.
    pub open spec fn inv(self) -> bool {
        match self.lifecycle() {
            hook_state::idle => self.session().len() == 0 || closed_session(self.session()),
            hook_state::starting => self.session().len() == 0,
            hook_state::running => open_session(self.session()),
            hook_state::stopping => self.session().len() == 0 || closed_session(self.session()),
        }
    }

    /// A fresh engine: idle, nothing delivered.
    pub fn new() -> (e: hook_engine)
        ensures
            e.lifecycle() == hook_state::idle,
            e.session() == Seq::<uiohook_event>::empty(),
            e.inv(),
    {
        hook_engine { state: hook_state::idle, log: Ghost(Seq::empty()) }
    }

    /// The lifecycle state.
    pub fn state(&self) -> (s: hook_state)
        ensures
            s == self.lifecycle(),
    {
        self.state
    }

    /// `start()` was called: accepted only while idle, where it clears the
    /// session log and moves to `starting` so the driver can acquire the
    /// platform capture context. In any other state it fails — with no side
    /// effect on the live session — and the caller's `start()` returns the
    /// general failure code.
    pub fn request_start(&mut self) -> (r: Result<(), hook_error>)
        requires
            old(self).inv(),
        ensures
            final(self).inv(),
            old(self).lifecycle() == hook_state::idle ==> {
                &&& r == Ok::<(), hook_error>(())
                &&& final(self).lifecycle() == hook_state::starting
                &&& final(self).session() == Seq::<uiohook_event>::empty()
            },
            old(self).lifecycle() != hook_state::idle ==> {
                &&& r == Err::<(), hook_error>(hook_error::hook(hook_error_code::failure))
                &&& final(self).lifecycle() == old(self).lifecycle()
                &&& final(self).session() == old(self).session()
            },
    {
        match self.state {
            hook_state::idle => {
                self.state = hook_state::starting;
                self.log = Ghost(Seq::empty());
                Ok(())
            },
            _ => Err(hook_error::hook(hook_error_code::failure)),
        }
    }

    /// The driver acquired the platform capture context: the engine enters
    /// `running` and hands back the synthesized `hook_enabled` marker, which
    /// the driver must deliver to the dispatch consumer before any captured
    /// input event — the marker is logged as the first delivery of the
    /// session.
    pub fn context_acquired(&mut self, time: u64, mask: u16) -> (ev: uiohook_event)
        requires
            old(self).inv(),
            old(self).lifecycle() == hook_state::starting,
        ensures
            final(self).inv(),
            final(self).lifecycle() == hook_state::running,
            ev == (uiohook_event { time, mask, reserved: 0, data: input_event_data::hook_enabled }),
            final(self).session() == seq![ev],
    {
        let ev = uiohook_event::hook_enabled(time, mask);
        self.state = hook_state::running;
        self.log = Ghost(Seq::empty().push(ev));
        ev
    }

    /// The driver failed to acquire the platform capture context: the
    /// engine returns to `idle` and surfaces the acquisition error. The
    /// session log stays empty — the dispatch consumer is never invoked on
    /// a failed `start()`.
    pub fn context_failed(&mut self, code: hook_error_code) -> (r: hook_error)
        requires
            old(self).inv(),
            old(self).lifecycle() == hook_state::starting,
        ensures
            final(self).inv(),
            final(self).lifecycle() == hook_state::idle,
            final(self).session() == Seq::<uiohook_event>::empty(),
            r == hook_error::hook(code),
    {
        self.state = hook_state::idle;
        self.log = Ghost(Seq::empty());
        hook_error::hook(code)
    }

    /// One raw platform notification arrived while running. A well-formed
    /// notification translates to exactly one event, handed back for
    /// exactly one synchronous delivery and appended to the session log; a
    /// malformed one yields `None` — to be logged by the diagnostics sink
    /// and dropped, never delivered and never fatal to the session.
    pub fn capture(&mut self, r: &raw_notification) -> (ev: Option<uiohook_event>)
        requires
            old(self).inv(),
            old(self).lifecycle() == hook_state::running,
        ensures
            final(self).inv(),
            final(self).lifecycle() == hook_state::running,
            ev == spec_translate(*r),
            match ev {
                Some(e) => final(self).session() == old(self).session().push(e),
                None => final(self).session() == old(self).session(),
            },
    {
        match translate(r) {
            Some(e) => {
                self.log = Ghost(self.log@.push(e));
                Some(e)
            },
            None => None,
        }
    }

    /// `stop()` was called. While idle it is a no-op, not an error. From
    /// `starting` the engine moves to `stopping` with nothing to deliver —
    /// the consumer never saw `hook_enabled`. From `running` it hands back
    /// the synthesized `hook_disabled` marker, which the driver must
    /// deliver after the last captured input event and before `stop()`
    /// returns; the marker closes the session log. A second `stop()` while
    /// already stopping is likewise a no-op.
    pub fn request_stop(&mut self, time: u64, mask: u16) -> (ev: Option<uiohook_event>)
        requires
            old(self).inv(),
        ensures
            final(self).inv(),
            old(self).lifecycle() == hook_state::idle ==> {
                &&& ev is None
                &&& final(self).lifecycle() == hook_state::idle
                &&& final(self).session() == old(self).session()
            },
            old(self).lifecycle() == hook_state::starting ==> {
                &&& ev is None
                &&& final(self).lifecycle() == hook_state::stopping
                &&& final(self).session() == old(self).session()
            },
            old(self).lifecycle() == hook_state::running ==> {
                &&& ev == Some(
                    uiohook_event { time, mask, reserved: 0, data: input_event_data::hook_disabled },
                )
                &&& final(self).lifecycle() == hook_state::stopping
                &&& final(self).session() == old(self).session().push(ev->0)
            },
            old(self).lifecycle() == hook_state::stopping ==> {
                &&& ev is None
                &&& final(self).lifecycle() == hook_state::stopping
                &&& final(self).session() == old(self).session()
            },
    {
        match self.state {
            hook_state::idle => None,
            hook_state::starting => {
                self.state = hook_state::stopping;
                None
            },
            hook_state::running => {
                let ev = uiohook_event::hook_disabled(time, mask);
                self.state = hook_state::stopping;
                self.log = Ghost(self.log@.push(ev));
                Some(ev)
            },
            hook_state::stopping => None,
        }
    }

    /// The driver released the platform capture context: the engine is idle
    /// again and `start()` may be retried. The log of the finished session
    /// is kept for inspection until the next `start()`.
    pub fn context_released(&mut self)
        requires
            old(self).inv(),
            old(self).lifecycle() == hook_state::stopping,
        ensures
            final(self).inv(),
            final(self).lifecycle() == hook_state::idle,
            final(self).session() == old(self).session(),
    {
        self.state = hook_state::idle;
    }
}

/// While the engine is running, the `hook_enabled` marker was delivered
/// strictly before any captured input event: it is the first entry of the
/// session log and every later entry is captured input.
pub proof fn lemma_hook_enabled_first(e: hook_engine)
    requires
        e.inv(),
        e.lifecycle() == hook_state::running,
    ensures
        e.session().len() >= 1,
        e.session()[0].spec_kind() == event_type::hook_enabled,
        forall|i: int| 1 <= i < e.session().len() ==> is_input_kind(
            #[trigger] e.session()[i].spec_kind(),
        ),
{
}

/// Once the engine has left `running`, a session that delivered anything is
/// closed: `hook_disabled` was delivered strictly after the last captured
/// input event, and before that `hook_enabled` came first.
pub proof fn lemma_hook_disabled_last(e: hook_engine)
    requires
        e.inv(),
        e.lifecycle() == hook_state::stopping || e.lifecycle() == hook_state::idle,
        e.session().len() > 0,
    ensures
        e.session().len() >= 2,
        e.session()[0].spec_kind() == event_type::hook_enabled,
        e.session()[e.session().len() - 1].spec_kind() == event_type::hook_disabled,
        forall|i: int| 1 <= i < e.session().len() - 1 ==> is_input_kind(
            #[trigger] e.session()[i].spec_kind(),
        ),
{
}

/// `e` is captured input whose payload fields are in range on the native
/// boundary: such an event survives a round trip through injection and
/// capture unchanged.
pub open spec fn valid_input_event(e: uiohook_event) -> bool {
    &&& is_input_kind(e.spec_kind())
    &&& (e.spec_mouse() matches Some(m) ==> m.button <= MOUSE_BUTTON5)
    &&& (e.spec_wheel() matches Some(w) ==> {
        &&& (w.scroll_type == WHEEL_UNIT_SCROLL || w.scroll_type == WHEEL_BLOCK_SCROLL)
        &&& (w.direction == WHEEL_VERTICAL_DIRECTION || w.direction == WHEEL_HORIZONTAL_DIRECTION)
    })
}

/// Injection and capture agree: a valid captured-input event that is posted
/// and then observed again by the capture layer translates back to exactly
/// the event that was posted.
pub proof fn lemma_post_capture_round_trip(e: uiohook_event)
    requires
        valid_input_event(e),
    ensures
        spec_translate(spec_encode(e)) == Some(e),
{
}

} // verus!
