//! The Session: the explicit, caller-constructed object that owns the
//! Window Registry, the frame pacer's configuration, and the shared
//! input, cursor and clipboard state. The caller constructs it once,
//! keeps it for the process lifetime, and hands it by reference to
//! every operation.

use vstd::prelude::*;

use crate::registry::Registry;

verus! {

/// Milliseconds each frame must at least take at a target frame rate:
/// the least whole number of milliseconds no shorter than one
/// `rate`-th of a second.
pub open spec fn frame_interval_spec(rate: int) -> int {
    (1000 + rate - 1) / rate
}

/// The session state. Platform handles stay outside the model: the
/// caller polls the platform and hands the session plain values (a
/// clock reading, a drained event queue, an input snapshot), and the
/// session answers every windowing question from this state.
pub struct Maylib {
    /// All open windows plus the current-window selector.
    pub registry: Registry,
    /// The target frame rate, in frames per second.
    pub frame_rate: i32,
    /// Milliseconds each frame must at least take:
    /// `frame_interval_spec(frame_rate)`.
    pub frame_interval_ms: u64,
    /// Clock reading at which the current frame's pacing wait began,
    /// in milliseconds.
    pub wait_start_ms: u64,
    /// The latest clock reading the session has observed, in
    /// milliseconds.
    pub time_ms: u64,
    /// Set once the platform announced the application is being torn
    /// down; the session is then in its terminal state and the caller
    /// must stop running frames.
    pub terminated: bool,
    /// The clipboard text as last set through the session.
    pub clipboard: String,
    /// Whether the cursor is shown.
    pub cursor_visible: bool,
    /// Scancodes of the keys held down, as of the last input snapshot.
    pub keys_down: Vec<u16>,
    /// Platform codes of the mouse buttons held down, as of the last
    /// input snapshot.
    pub buttons_down: Vec<u8>,
    /// Horizontal mouse position, as of the last input snapshot.
    pub mouse_x: i32,
    /// Vertical mouse position, as of the last input snapshot.
    pub mouse_y: i32,
}

impl Maylib {
    /// The session invariant: window ids are unique, every window's
    /// timestamps are ordered and no later than the latest observed
    /// clock reading, the pacing reference point is no later either,
    /// and the frame interval matches the (positive) frame rate.
    pub open spec fn wf(&self) -> bool {
        &&& self.registry.wf()
        &&& forall|i: int| 0 <= i < self.registry.windows@.len()
            ==> (#[trigger] self.registry.windows@[i]).times_ok()
        &&& forall|i: int| 0 <= i < self.registry.windows@.len()
            ==> (#[trigger] self.registry.windows@[i]).current_time <= self.time_ms
        &&& self.wait_start_ms <= self.time_ms
        &&& 1 <= self.frame_rate
        &&& self.frame_interval_ms == frame_interval_spec(self.frame_rate as int)
    }

    /// The current selector resolves to a live window.
    pub open spec fn resolves(&self) -> bool {
        self.registry.resolves()
    }

    /// The window the current selector resolves to.
    pub open spec fn current(&self) -> crate::window::Window {
        self.registry.current()
    }

    /// Initializes the session model: no windows, a dangling current
    /// selector, a 60 frames-per-second target, and cleared input,
    /// cursor and clipboard state.
    pub fn init() -> (m: Maylib)
        ensures
            m.registry.windows@ == Seq::<crate::window::Window>::empty(),
            m.registry.current_window == u32::MAX,
            m.frame_rate == 60,
            m.frame_interval_ms == 17,
            m.wait_start_ms == 0,
            m.time_ms == 0,
            !m.terminated,
            m.clipboard@ == Seq::<char>::empty(),
            m.cursor_visible,
            m.keys_down@ == Seq::<u16>::empty(),
            m.buttons_down@ == Seq::<u8>::empty(),
            m.mouse_x == 0,
            m.mouse_y == 0,
            m.wf(),
    {
        Maylib {
            registry: Registry { windows: Vec::new(), current_window: u32::MAX },
            frame_rate: 60,
            frame_interval_ms: 17,
            wait_start_ms: 0,
            time_ms: 0,
            terminated: false,
            clipboard: String::new(),
            cursor_visible: true,
            keys_down: Vec::new(),
            buttons_down: Vec::new(),
            mouse_x: 0,
            mouse_y: 0,
        }
    }

    /// Whether the session has entered its terminal state.
    pub fn is_terminated(&self) -> (r: bool)
        ensures
            r == self.terminated,
    {
        self.terminated
    }
}

} // verus!
