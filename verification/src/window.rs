//! The Window entity: the model of one on-screen surface — identity,
//! geometry, state flags and frame timestamps.

use vstd::prelude::*;

verus! {

/// One open window: its platform-assigned id, geometry, state flags
/// and frame timestamps. Timestamps are monotonic milliseconds.
pub struct Window {
    /// Process-unique id assigned by the platform at creation, never
    /// reused while the window is open.
    pub id: u32,
    /// The window title.
    pub title: String,
    /// Client width in pixels.
    pub width: u32,
    /// Client height in pixels.
    pub height: u32,
    /// Horizontal position of the window on its display.
    pub x: i32,
    /// Vertical position of the window on its display.
    pub y: i32,
    /// Width of the display the window was created on.
    pub screen_width: i32,
    /// Height of the display the window was created on.
    pub screen_height: i32,
    /// Window readiness; set at creation.
    pub ready: bool,
    /// Whether a close request has been observed for this window.
    pub should_close: bool,
    /// Whether the window is fullscreen.
    pub fullscreen: bool,
    /// Whether the window is hidden.
    pub hidden: bool,
    /// Whether the window is minimized.
    pub minimized: bool,
    /// Whether the window is maximized.
    pub maximized: bool,
    /// Whether the window has input focus.
    pub focused: bool,
    /// Whether the window has been resized by the user.
    pub resized: bool,
    /// Whether the window has a border.
    pub bordered: bool,
    /// Clock reading when the window was created, in milliseconds.
    pub start_time: u64,
    /// Clock reading at the start of the previous frame, in milliseconds.
    pub previous_time: u64,
    /// Clock reading at the start of the current frame, in milliseconds.
    pub current_time: u64,
}

impl Window {
    /// A window never observes time running backwards: the timestamps
    /// are ordered at every observation point after creation.
    pub open spec fn times_ok(self) -> bool {
        self.start_time <= self.previous_time <= self.current_time
    }

    /// The window as freshly created: default flags, all timestamps at
    /// the creation instant.
    pub open spec fn fresh(
        id: u32,
        title: String,
        width: u32,
        height: u32,
        x: i32,
        y: i32,
        screen_width: i32,
        screen_height: i32,
        now_ms: u64,
    ) -> Window {
        Window {
            id,
            title,
            width,
            height,
            x,
            y,
            screen_width,
            screen_height,
            ready: true,
            should_close: false,
            fullscreen: false,
            hidden: false,
            minimized: false,
            maximized: false,
            focused: false,
            resized: false,
            bordered: true,
            start_time: now_ms,
            previous_time: now_ms,
            current_time: now_ms,
        }
    }

    /// The window as stamped at a new clock reading: the current
    /// timestamp becomes the previous one.
    pub open spec fn stamped(self, now_ms: u64) -> Window {
        Window { previous_time: self.current_time, current_time: now_ms, ..self }
    }

    /// The windows after the whole collection is stamped at a new
    /// clock reading, as at the start of a frame.
    pub open spec fn stamp_all(ws: Seq<Window>, now_ms: u64) -> Seq<Window> {
        Seq::new(ws.len(), |i: int| ws[i].stamped(now_ms))
    }

    /// The window with its fullscreen flag replaced.
    pub open spec fn with_fullscreen(self, fullscreen: bool) -> Window {
        Window { fullscreen, ..self }
    }

    /// The window with its close-request flag replaced.
    pub open spec fn with_should_close(self, should_close: bool) -> Window {
        Window { should_close, ..self }
    }

    /// The window with its focus flag replaced.
    pub open spec fn with_focused(self, focused: bool) -> Window {
        Window { focused, ..self }
    }

    /// The window with its border flag replaced.
    pub open spec fn with_bordered(self, bordered: bool) -> Window {
        Window { bordered, ..self }
    }

    /// The window with its maximized flag replaced.
    pub open spec fn with_maximized(self, maximized: bool) -> Window {
        Window { maximized, ..self }
    }

    /// The window with its minimized flag replaced.
    pub open spec fn with_minimized(self, minimized: bool) -> Window {
        Window { minimized, ..self }
    }

    /// The window with its title replaced.
    pub open spec fn with_title(self, title: String) -> Window {
        Window { title, ..self }
    }

    /// The window with its client size replaced.
    pub open spec fn with_size(self, width: u32, height: u32) -> Window {
        Window { width, height, ..self }
    }

    /// The window with its position replaced.
    pub open spec fn with_position(self, x: i32, y: i32) -> Window {
        Window { x, y, ..self }
    }
}

} // verus!
