//! The session's public operations: window lifecycle, the
//! current-window accessors and mutators, event translation, frame
//! pacing, and the input, cursor and clipboard state.
//!
//! Every operation takes the session explicitly, by reference. An
//! operation on "the current window" resolves the selector first and
//! fails with `InvalidWindowReference` when it is dangling; selecting
//! a window does not validate it eagerly.

use vstd::prelude::*;

use crate::registry::{
    contains_id, idx_of, lemma_push_preserves_unique,
    lemma_remove_insert_is_update, lemma_remove_unresolves, lemma_update_preserves_unique,
};
use crate::events::{
    announces_termination, apply_event, apply_events, lemma_announces_step,
    lemma_announces_take_all, lemma_apply_events_step, lemma_apply_events_take_all, Event,
};
use crate::session::{frame_interval_spec, Maylib};
use crate::types::MayError;
use crate::window::Window;

verus! {

/// The two sessions agree on everything but the windows themselves.
pub open spec fn same_apart_from_windows(a: Maylib, b: Maylib) -> bool {
    &&& b.registry.current_window == a.registry.current_window
    &&& b.frame_rate == a.frame_rate
    &&& b.frame_interval_ms == a.frame_interval_ms
    &&& b.wait_start_ms == a.wait_start_ms
    &&& b.time_ms == a.time_ms
    &&& b.terminated == a.terminated
    &&& b.clipboard == a.clipboard
    &&& b.cursor_visible == a.cursor_visible
    &&& b.keys_down == a.keys_down
    &&& b.buttons_down == a.buttons_down
    &&& b.mouse_x == a.mouse_x
    &&& b.mouse_y == a.mouse_y
}

/// Registers a window the platform has created: inserts a fresh entry
/// with `ready` set, default flags, and all timestamps at the given
/// clock reading. The platform-assigned id must be new, and the clock
/// monotonic; the id is echoed back.
pub fn init_window(
    may: &mut Maylib,
    title: String,
    width: u32,
    height: u32,
    id: u32,
    x: i32,
    y: i32,
    screen_width: i32,
    screen_height: i32,
    now_ms: u64,
) -> (r: u32)
    requires
        old(may).wf(),
        !contains_id(old(may).registry.windows@, id),
        old(may).time_ms <= now_ms,
    ensures
        r == id,
        final(may).registry.windows@ == old(may).registry.windows@.push(
            Window::fresh(id, title, width, height, x, y, screen_width, screen_height, now_ms),
        ),
        final(may).time_ms == now_ms,
        final(may).registry.current_window == old(may).registry.current_window,
        final(may).frame_rate == old(may).frame_rate,
        final(may).frame_interval_ms == old(may).frame_interval_ms,
        final(may).wait_start_ms == old(may).wait_start_ms,
        final(may).terminated == old(may).terminated,
        final(may).clipboard == old(may).clipboard,
        final(may).cursor_visible == old(may).cursor_visible,
        final(may).keys_down == old(may).keys_down,
        final(may).buttons_down == old(may).buttons_down,
        final(may).mouse_x == old(may).mouse_x,
        final(may).mouse_y == old(may).mouse_y,
        final(may).wf(),
{
    let ghost ws0 = may.registry.windows@;
    let w = Window {
        id,
        title,
        width,
        height,
        x,
        y,
        screen_width,
        screen_height,
        ready: true,
        should_close: false,
        fullscreen: false,
        hidden: false,
        minimized: false,
        maximized: false,
        focused: false,
        resized: false,
        bordered: true,
        start_time: now_ms,
        previous_time: now_ms,
        current_time: now_ms,
    };
    proof {
        lemma_push_preserves_unique(ws0, w);
    }
    may.registry.windows.push(w);
    may.time_ms = now_ms;
    id
}

/// Selects the window the per-window operations act on. Existence is
/// not validated here: it is checked by the next accessor.
pub fn switch_window(may: &mut Maylib, id: u32)
    ensures
        final(may).registry.current_window == id,
        final(may).registry.windows@ == old(may).registry.windows@,
        final(may).frame_rate == old(may).frame_rate,
        final(may).frame_interval_ms == old(may).frame_interval_ms,
        final(may).wait_start_ms == old(may).wait_start_ms,
        final(may).time_ms == old(may).time_ms,
        final(may).terminated == old(may).terminated,
        final(may).clipboard == old(may).clipboard,
        final(may).cursor_visible == old(may).cursor_visible,
        final(may).keys_down == old(may).keys_down,
        final(may).buttons_down == old(may).buttons_down,
        final(may).mouse_x == old(may).mouse_x,
        final(may).mouse_y == old(may).mouse_y,
        old(may).wf() ==> final(may).wf(),
{
    may.registry.current_window = id;
}

/// Removes the current window from the registry, releasing its entry
/// at once; a no-op when the selector is already dangling. The
/// selector keeps its value, so a later accessor fails explicitly.
pub fn close_window(may: &mut Maylib)
    requires
        old(may).wf(),
    ensures
        final(may).wf(),
        same_apart_from_windows(*old(may), *final(may)),
        old(may).resolves() ==> final(may).registry.windows@ == old(may).registry.windows@
            .remove(idx_of(old(may).registry.windows@, old(may).registry.current_window)),
        old(may).resolves() ==> !final(may).resolves(),
        !old(may).resolves() ==> final(may).registry.windows@ == old(may).registry.windows@,
{
    let cur = may.registry.current_window;
    match may.registry.find(cur) {
        Some(i) => {
            proof {
                lemma_remove_unresolves(may.registry.windows@, cur);
            }
            let _w = may.registry.windows.remove(i);
        }
        None => {}
    }
}

/// Whether a close request has been observed for the current window.
pub fn window_should_close(may: &Maylib) -> (r: Result<bool, MayError>)
    requires
        may.wf(),
    ensures
        may.resolves() ==> r == Ok::<bool, MayError>(may.current().should_close),
        !may.resolves() ==> r == Err::<bool, MayError>(MayError::InvalidWindowReference),
{
    match may.registry.find_current() {
        Some(i) => Ok(may.registry.windows[i].should_close),
        None => Err(MayError::InvalidWindowReference),
    }
}

/// True iff no window in the registry is open and ready: the registry
/// is empty or holds only never-readied entries.
pub fn all_windows_closed(may: &Maylib) -> (r: bool)
    ensures
        r == no_ready_windows(may.registry.windows@),
{
    let n = may.registry.windows.len();
    let mut i: usize = 0;
    while i < n
        invariant
            i <= n,
            n == may.registry.windows@.len(),
            forall|j: int| 0 <= j < i ==> !(#[trigger] may.registry.windows@[j]).ready,
        decreases n - i,
    {
        if may.registry.windows[i].ready {
            return false;
        }
        i = i + 1;
    }
    true
}

/// True iff no entry is ready.
pub open spec fn no_ready_windows(ws: Seq<Window>) -> bool {
    forall|i: int| 0 <= i < ws.len() ==> !(#[trigger] ws[i]).ready
}

/// Whether the current window is ready.
pub fn is_window_ready(may: &Maylib) -> (r: Result<bool, MayError>)
    requires
        may.wf(),
    ensures
        may.resolves() ==> r == Ok::<bool, MayError>(may.current().ready),
        !may.resolves() ==> r == Err::<bool, MayError>(MayError::InvalidWindowReference),
{
    match may.registry.find_current() {
        Some(i) => Ok(may.registry.windows[i].ready),
        None => Err(MayError::InvalidWindowReference),
    }
}

/// Whether the current window is fullscreen.
pub fn is_window_fullscreen(may: &Maylib) -> (r: Result<bool, MayError>)
    requires
        may.wf(),
    ensures
        may.resolves() ==> r == Ok::<bool, MayError>(may.current().fullscreen),
        !may.resolves() ==> r == Err::<bool, MayError>(MayError::InvalidWindowReference),
{
    match may.registry.find_current() {
        Some(i) => Ok(may.registry.windows[i].fullscreen),
        None => Err(MayError::InvalidWindowReference),
    }
}

/// Whether the current window is hidden.
pub fn is_window_hidden(may: &Maylib) -> (r: Result<bool, MayError>)
    requires
        may.wf(),
    ensures
        may.resolves() ==> r == Ok::<bool, MayError>(may.current().hidden),
        !may.resolves() ==> r == Err::<bool, MayError>(MayError::InvalidWindowReference),
{
    match may.registry.find_current() {
        Some(i) => Ok(may.registry.windows[i].hidden),
        None => Err(MayError::InvalidWindowReference),
    }
}

/// Whether the current window is minimized.
pub fn is_window_minimized(may: &Maylib) -> (r: Result<bool, MayError>)
    requires
        may.wf(),
    ensures
        may.resolves() ==> r == Ok::<bool, MayError>(may.current().minimized),
        !may.resolves() ==> r == Err::<bool, MayError>(MayError::InvalidWindowReference),
{
    match may.registry.find_current() {
        Some(i) => Ok(may.registry.windows[i].minimized),
        None => Err(MayError::InvalidWindowReference),
    }
}

/// Whether the current window is maximized.
pub fn is_window_maximized(may: &Maylib) -> (r: Result<bool, MayError>)
    requires
        may.wf(),
    ensures
        may.resolves() ==> r == Ok::<bool, MayError>(may.current().maximized),
        !may.resolves() ==> r == Err::<bool, MayError>(MayError::InvalidWindowReference),
{
    match may.registry.find_current() {
        Some(i) => Ok(may.registry.windows[i].maximized),
        None => Err(MayError::InvalidWindowReference),
    }
}

/// Whether the current window has input focus.
pub fn is_window_focused(may: &Maylib) -> (r: Result<bool, MayError>)
    requires
        may.wf(),
    ensures
        may.resolves() ==> r == Ok::<bool, MayError>(may.current().focused),
        !may.resolves() ==> r == Err::<bool, MayError>(MayError::InvalidWindowReference),
{
    match may.registry.find_current() {
        Some(i) => Ok(may.registry.windows[i].focused),
        None => Err(MayError::InvalidWindowReference),
    }
}

/// Whether the current window has been resized by the user.
pub fn is_window_resized(may: &Maylib) -> (r: Result<bool, MayError>)
    requires
        may.wf(),
    ensures
        may.resolves() ==> r == Ok::<bool, MayError>(may.current().resized),
        !may.resolves() ==> r == Err::<bool, MayError>(MayError::InvalidWindowReference),
{
    match may.registry.find_current() {
        Some(i) => Ok(may.registry.windows[i].resized),
        None => Err(MayError::InvalidWindowReference),
    }
}

/// Flips the current window's fullscreen flag; the caller forwards
/// the new state to the platform.
pub fn toggle_fullscreen(may: &mut Maylib) -> (r: Result<(), MayError>)
    requires
        old(may).wf(),
    ensures
        final(may).wf(),
        same_apart_from_windows(*old(may), *final(may)),
        old(may).resolves() ==> r == Ok::<(), MayError>(())
            && final(may).registry.windows@ == old(may).registry.windows@.update(
            idx_of(old(may).registry.windows@, old(may).registry.current_window),
            old(may).current().with_fullscreen(!old(may).current().fullscreen),
        ),
        !old(may).resolves() ==> r == Err::<(), MayError>(MayError::InvalidWindowReference)
            && *final(may) == *old(may),
{
    match may.registry.find_current() {
        Some(i) => {
            let ghost ws0 = may.registry.windows@;
            let mut w = may.registry.windows.remove(i);
            w.fullscreen = !w.fullscreen;
            proof {
                lemma_remove_insert_is_update(ws0, i as int, w);
                lemma_update_preserves_unique(ws0, i as int, w);
            }
            may.registry.windows.insert(i, w);
            Ok(())
        }
        None => Err(MayError::InvalidWindowReference),
    }
}

/// Flips the current window's border flag; the caller forwards the
/// new state to the platform.
pub fn toggle_borderless_windowed(may: &mut Maylib) -> (r: Result<(), MayError>)
    requires
        old(may).wf(),
    ensures
        final(may).wf(),
        same_apart_from_windows(*old(may), *final(may)),
        old(may).resolves() ==> r == Ok::<(), MayError>(())
            && final(may).registry.windows@ == old(may).registry.windows@.update(
            idx_of(old(may).registry.windows@, old(may).registry.current_window),
            old(may).current().with_bordered(!old(may).current().bordered),
        ),
        !old(may).resolves() ==> r == Err::<(), MayError>(MayError::InvalidWindowReference)
            && *final(may) == *old(may),
{
    match may.registry.find_current() {
        Some(i) => {
            let ghost ws0 = may.registry.windows@;
            let mut w = may.registry.windows.remove(i);
            w.bordered = !w.bordered;
            proof {
                lemma_remove_insert_is_update(ws0, i as int, w);
                lemma_update_preserves_unique(ws0, i as int, w);
            }
            may.registry.windows.insert(i, w);
            Ok(())
        }
        None => Err(MayError::InvalidWindowReference),
    }
}

/// Marks the current window maximized; the caller forwards the
/// request to the platform.
pub fn maximize_window(may: &mut Maylib) -> (r: Result<(), MayError>)
    requires
        old(may).wf(),
    ensures
        final(may).wf(),
        same_apart_from_windows(*old(may), *final(may)),
        old(may).resolves() ==> r == Ok::<(), MayError>(())
            && final(may).registry.windows@ == old(may).registry.windows@.update(
            idx_of(old(may).registry.windows@, old(may).registry.current_window),
            old(may).current().with_maximized(true),
        ),
        !old(may).resolves() ==> r == Err::<(), MayError>(MayError::InvalidWindowReference)
            && *final(may) == *old(may),
{
    match may.registry.find_current() {
        Some(i) => {
            let ghost ws0 = may.registry.windows@;
            let mut w = may.registry.windows.remove(i);
            w.maximized = true;
            proof {
                lemma_remove_insert_is_update(ws0, i as int, w);
                lemma_update_preserves_unique(ws0, i as int, w);
            }
            may.registry.windows.insert(i, w);
            Ok(())
        }
        None => Err(MayError::InvalidWindowReference),
    }
}

/// Marks the current window minimized; the caller forwards the
/// request to the platform.
pub fn minimize_window(may: &mut Maylib) -> (r: Result<(), MayError>)
    requires
        old(may).wf(),
    ensures
        final(may).wf(),
        same_apart_from_windows(*old(may), *final(may)),
        old(may).resolves() ==> r == Ok::<(), MayError>(())
            && final(may).registry.windows@ == old(may).registry.windows@.update(
            idx_of(old(may).registry.windows@, old(may).registry.current_window),
            old(may).current().with_minimized(true),
        ),
        !old(may).resolves() ==> r == Err::<(), MayError>(MayError::InvalidWindowReference)
            && *final(may) == *old(may),
{
    match may.registry.find_current() {
        Some(i) => {
            let ghost ws0 = may.registry.windows@;
            let mut w = may.registry.windows.remove(i);
            w.minimized = true;
            proof {
                lemma_remove_insert_is_update(ws0, i as int, w);
                lemma_update_preserves_unique(ws0, i as int, w);
            }
            may.registry.windows.insert(i, w);
            Ok(())
        }
        None => Err(MayError::InvalidWindowReference),
    }
}

/// Asks the platform to restore the current window. The model keeps
/// the session unchanged: the restore request itself is forwarded by
/// the caller, and no flag transition is recorded for it.
pub fn restore_window(may: &mut Maylib) -> (r: Result<(), MayError>)
    requires
        old(may).wf(),
    ensures
        *final(may) == *old(may),
        old(may).resolves() ==> r == Ok::<(), MayError>(()),
        !old(may).resolves() ==> r == Err::<(), MayError>(MayError::InvalidWindowReference),
{
    match may.registry.find_current() {
        Some(_i) => Ok(()),
        None => Err(MayError::InvalidWindowReference),
    }
}

/// Gives the current window a new title; the caller forwards it to
/// the platform.
pub fn set_window_title(may: &mut Maylib, title: String) -> (r: Result<(), MayError>)
    requires
        old(may).wf(),
    ensures
        final(may).wf(),
        same_apart_from_windows(*old(may), *final(may)),
        old(may).resolves() ==> r == Ok::<(), MayError>(())
            && final(may).registry.windows@ == old(may).registry.windows@.update(
            idx_of(old(may).registry.windows@, old(may).registry.current_window),
            old(may).current().with_title(title),
        ),
        !old(may).resolves() ==> r == Err::<(), MayError>(MayError::InvalidWindowReference)
            && *final(may) == *old(may),
{
    match may.registry.find_current() {
        Some(i) => {
            let ghost ws0 = may.registry.windows@;
            let mut w = may.registry.windows.remove(i);
            w.title = title;
            proof {
                lemma_remove_insert_is_update(ws0, i as int, w);
                lemma_update_preserves_unique(ws0, i as int, w);
            }
            may.registry.windows.insert(i, w);
            Ok(())
        }
        None => Err(MayError::InvalidWindowReference),
    }
}

/// Moves the current window; the caller forwards the new position to
/// the platform.
pub fn set_window_position(may: &mut Maylib, x: i32, y: i32) -> (r: Result<(), MayError>)
    requires
        old(may).wf(),
    ensures
        final(may).wf(),
        same_apart_from_windows(*old(may), *final(may)),
        old(may).resolves() ==> r == Ok::<(), MayError>(())
            && final(may).registry.windows@ == old(may).registry.windows@.update(
            idx_of(old(may).registry.windows@, old(may).registry.current_window),
            old(may).current().with_position(x, y),
        ),
        !old(may).resolves() ==> r == Err::<(), MayError>(MayError::InvalidWindowReference)
            && *final(may) == *old(may),
{
    match may.registry.find_current() {
        Some(i) => {
            let ghost ws0 = may.registry.windows@;
            let mut w = may.registry.windows.remove(i);
            w.x = x;
            w.y = y;
            proof {
                lemma_remove_insert_is_update(ws0, i as int, w);
                lemma_update_preserves_unique(ws0, i as int, w);
            }
            may.registry.windows.insert(i, w);
            Ok(())
        }
        None => Err(MayError::InvalidWindowReference),
    }
}

/// Resizes the current window; the caller forwards the new size to
/// the platform.
pub fn set_window_size(may: &mut Maylib, width: u32, height: u32) -> (r: Result<(), MayError>)
    requires
        old(may).wf(),
    ensures
        final(may).wf(),
        same_apart_from_windows(*old(may), *final(may)),
        old(may).resolves() ==> r == Ok::<(), MayError>(())
            && final(may).registry.windows@ == old(may).registry.windows@.update(
            idx_of(old(may).registry.windows@, old(may).registry.current_window),
            old(may).current().with_size(width, height),
        ),
        !old(may).resolves() ==> r == Err::<(), MayError>(MayError::InvalidWindowReference)
            && *final(may) == *old(may),
{
    match may.registry.find_current() {
        Some(i) => {
            let ghost ws0 = may.registry.windows@;
            let mut w = may.registry.windows.remove(i);
            w.width = width;
            w.height = height;
            proof {
                lemma_remove_insert_is_update(ws0, i as int, w);
                lemma_update_preserves_unique(ws0, i as int, w);
            }
            may.registry.windows.insert(i, w);
            Ok(())
        }
        None => Err(MayError::InvalidWindowReference),
    }
}

/// The current window's client size, as `(width, height)`.
pub fn get_window_size(may: &Maylib) -> (r: Result<(u32, u32), MayError>)
    requires
        may.wf(),
    ensures
        may.resolves() ==> r == Ok::<(u32, u32), MayError>(
            (may.current().width, may.current().height),
        ),
        !may.resolves() ==> r == Err::<(u32, u32), MayError>(MayError::InvalidWindowReference),
{
    match may.registry.find_current() {
        Some(i) => Ok((may.registry.windows[i].width, may.registry.windows[i].height)),
        None => Err(MayError::InvalidWindowReference),
    }
}

/// The width of the display the current window was created on.
pub fn get_screen_width(may: &Maylib) -> (r: Result<i32, MayError>)
    requires
        may.wf(),
    ensures
        may.resolves() ==> r == Ok::<i32, MayError>(may.current().screen_width),
        !may.resolves() ==> r == Err::<i32, MayError>(MayError::InvalidWindowReference),
{
    match may.registry.find_current() {
        Some(i) => Ok(may.registry.windows[i].screen_width),
        None => Err(MayError::InvalidWindowReference),
    }
}

/// The height of the display the current window was created on.
pub fn get_screen_height(may: &Maylib) -> (r: Result<i32, MayError>)
    requires
        may.wf(),
    ensures
        may.resolves() ==> r == Ok::<i32, MayError>(may.current().screen_height),
        !may.resolves() ==> r == Err::<i32, MayError>(MayError::InvalidWindowReference),
{
    match may.registry.find_current() {
        Some(i) => Ok(may.registry.windows[i].screen_height),
        None => Err(MayError::InvalidWindowReference),
    }
}

/// The current window's horizontal position.
pub fn get_window_x(may: &Maylib) -> (r: Result<i32, MayError>)
    requires
        may.wf(),
    ensures
        may.resolves() ==> r == Ok::<i32, MayError>(may.current().x),
        !may.resolves() ==> r == Err::<i32, MayError>(MayError::InvalidWindowReference),
{
    match may.registry.find_current() {
        Some(i) => Ok(may.registry.windows[i].x),
        None => Err(MayError::InvalidWindowReference),
    }
}

/// The current window's vertical position.
pub fn get_window_y(may: &Maylib) -> (r: Result<i32, MayError>)
    requires
        may.wf(),
    ensures
        may.resolves() ==> r == Ok::<i32, MayError>(may.current().y),
        !may.resolves() ==> r == Err::<i32, MayError>(MayError::InvalidWindowReference),
{
    match may.registry.find_current() {
        Some(i) => Ok(may.registry.windows[i].y),
        None => Err(MayError::InvalidWindowReference),
    }
}

/// The current window's latest frame timestamp, in milliseconds since
/// the platform clock started.
pub fn get_time(may: &Maylib) -> (r: Result<u64, MayError>)
    requires
        may.wf(),
    ensures
        may.resolves() ==> r == Ok::<u64, MayError>(may.current().current_time),
        !may.resolves() ==> r == Err::<u64, MayError>(MayError::InvalidWindowReference),
{
    match may.registry.find_current() {
        Some(i) => Ok(may.registry.windows[i].current_time),
        None => Err(MayError::InvalidWindowReference),
    }
}

/// The current window's id, for collaborators that need the native
/// handle behind it: resolved, never defaulted — a dangling selector
/// fails explicitly.
pub fn current_window_handle(may: &Maylib) -> (r: Result<u32, MayError>)
    requires
        may.wf(),
    ensures
        may.resolves() ==> r == Ok::<u32, MayError>(may.registry.current_window),
        !may.resolves() ==> r == Err::<u32, MayError>(MayError::InvalidWindowReference),
{
    match may.registry.find_current() {
        Some(_i) => Ok(may.registry.current_window),
        None => Err(MayError::InvalidWindowReference),
    }
}

/// The clipboard text as last set through the session.
pub fn get_clipboard_text(may: &Maylib) -> (r: Option<String>)
    ensures
        r matches Some(s) && s@ == may.clipboard@,
{
    Some(may.clipboard.clone())
}

/// Stores the clipboard text; the caller forwards it to the platform.
pub fn set_clipboard_text(may: &mut Maylib, text: String)
    ensures
        final(may).clipboard == text,
        final(may).registry.windows@ == old(may).registry.windows@,
        final(may).registry.current_window == old(may).registry.current_window,
        final(may).frame_rate == old(may).frame_rate,
        final(may).frame_interval_ms == old(may).frame_interval_ms,
        final(may).wait_start_ms == old(may).wait_start_ms,
        final(may).time_ms == old(may).time_ms,
        final(may).terminated == old(may).terminated,
        final(may).cursor_visible == old(may).cursor_visible,
        final(may).keys_down == old(may).keys_down,
        final(may).buttons_down == old(may).buttons_down,
        final(may).mouse_x == old(may).mouse_x,
        final(may).mouse_y == old(may).mouse_y,
        old(may).wf() ==> final(may).wf(),
{
    may.clipboard = text;
}

/// Shows the cursor; the caller forwards the request to the platform.
pub fn show_cursor(may: &mut Maylib)
    ensures
        final(may).cursor_visible,
        *final(may) == (Maylib { cursor_visible: true, ..*old(may) }),
{
    may.cursor_visible = true;
}

/// Hides the cursor; the caller forwards the request to the platform.
pub fn hide_cursor(may: &mut Maylib)
    ensures
        !final(may).cursor_visible,
        *final(may) == (Maylib { cursor_visible: false, ..*old(may) }),
{
    may.cursor_visible = false;
}

/// Whether the cursor is currently hidden: true after `hide_cursor`,
/// false after `show_cursor` (the cursor starts shown).
pub fn cursor_hidden(may: &Maylib) -> (r: bool)
    ensures
        r == !may.cursor_visible,
{
    !may.cursor_visible
}

/// Records the input snapshot the caller polled from the platform:
/// the scancodes of the keys held down, the codes of the mouse
/// buttons held down, and the mouse position.
pub fn update_input(
    may: &mut Maylib,
    keys_down: Vec<u16>,
    buttons_down: Vec<u8>,
    mouse_x: i32,
    mouse_y: i32,
)
    ensures
        final(may).keys_down == keys_down,
        final(may).buttons_down == buttons_down,
        final(may).mouse_x == mouse_x,
        final(may).mouse_y == mouse_y,
        final(may).registry.windows@ == old(may).registry.windows@,
        final(may).registry.current_window == old(may).registry.current_window,
        final(may).frame_rate == old(may).frame_rate,
        final(may).frame_interval_ms == old(may).frame_interval_ms,
        final(may).wait_start_ms == old(may).wait_start_ms,
        final(may).time_ms == old(may).time_ms,
        final(may).terminated == old(may).terminated,
        final(may).clipboard == old(may).clipboard,
        final(may).cursor_visible == old(may).cursor_visible,
        old(may).wf() ==> final(may).wf(),
{
    may.keys_down = keys_down;
    may.buttons_down = buttons_down;
    may.mouse_x = mouse_x;
    may.mouse_y = mouse_y;
}

/// Whether the key is held down, per the last input snapshot.
pub fn key_pressed(may: &Maylib, key: crate::types::Keycode) -> (r: bool)
    ensures
        r == may.keys_down@.contains(crate::types::scancode_spec(key)),
{
    let code = crate::types::scancode_of(key);
    let n = may.keys_down.len();
    let mut i: usize = 0;
    while i < n
        invariant
            i <= n,
            n == may.keys_down@.len(),
            code == crate::types::scancode_spec(key),
            forall|j: int| 0 <= j < i ==> may.keys_down@[j] != code,
        decreases n - i,
    {
        if may.keys_down[i] == code {
            return true;
        }
        i = i + 1;
    }
    false
}

/// Whether the mouse button is held down, per the last input
/// snapshot.
pub fn mouse_button_pressed(may: &Maylib, button: crate::types::MouseButton) -> (r: bool)
    ensures
        r == may.buttons_down@.contains(crate::types::button_code_spec(button)),
{
    let code = crate::types::button_code(button);
    let n = may.buttons_down.len();
    let mut i: usize = 0;
    while i < n
        invariant
            i <= n,
            n == may.buttons_down@.len(),
            code == crate::types::button_code_spec(button),
            forall|j: int| 0 <= j < i ==> may.buttons_down@[j] != code,
        decreases n - i,
    {
        if may.buttons_down[i] == code {
            return true;
        }
        i = i + 1;
    }
    false
}

/// The horizontal mouse position, per the last input snapshot.
pub fn get_mouse_x(may: &Maylib) -> (r: i32)
    ensures
        r == may.mouse_x,
{
    may.mouse_x
}

/// The vertical mouse position, per the last input snapshot.
pub fn get_mouse_y(may: &Maylib) -> (r: i32)
    ensures
        r == may.mouse_y,
{
    may.mouse_y
}

/// Relies on rand's `rng` and `RngExt::random_range`: a value drawn
/// from the half-open range, which panics on an empty range, so the
/// range must be non-empty. Nothing beyond membership in the range is
/// promised of the draw.
#[verifier::external_body]
pub fn get_random_i32(min: i32, max: i32) -> (r: i32)
    requires
        min < max,
    ensures
        min <= r < max,
{
    let mut rng = rand::rng();
    rand::RngExt::random_range(&mut rng, min..max)
}

/// Relies on rand's `rng` and `RngExt::random_range`: a value drawn
/// from the half-open range, which panics on an empty range, so the
/// range must be non-empty. Nothing beyond membership in the range is
/// promised of the draw.
#[verifier::external_body]
pub fn get_random_i64(min: i64, max: i64) -> (r: i64)
    requires
        min < max,
    ensures
        min <= r < max,
{
    let mut rng = rand::rng();
    rand::RngExt::random_range(&mut rng, min..max)
}

/// Sets the target frame rate and the derived frame interval for all
/// subsequent frames; a wait already in progress is unaffected. A
/// non-positive rate is rejected.
pub fn set_frame_rate(may: &mut Maylib, rate: i32) -> (r: Result<(), MayError>)
    requires
        old(may).wf(),
    ensures
        final(may).wf(),
        rate >= 1 ==> r == Ok::<(), MayError>(()) && final(may).frame_rate == rate
            && final(may).frame_interval_ms == frame_interval_spec(rate as int)
            && *final(may) == (Maylib {
            frame_rate: rate,
            frame_interval_ms: final(may).frame_interval_ms,
            ..*old(may)
        }),
        rate < 1 ==> r == Err::<(), MayError>(MayError::InvalidFrameRate)
            && *final(may) == *old(may),
{
    if rate < 1 {
        return Err(MayError::InvalidFrameRate);
    }
    let interval: u64 = (1000u64 + (rate as u64) - 1) / (rate as u64);
    may.frame_rate = rate;
    may.frame_interval_ms = interval;
    Ok(())
}

/// Applies one platform event: a close request or focus change flips
/// the addressed window's flag, a termination announcement puts the
/// session into its terminal state, anything else is ignored.
fn apply_platform_event(may: &mut Maylib, e: Event)
    requires
        old(may).wf(),
    ensures
        final(may).wf(),
        final(may).registry.windows@ == apply_event(old(may).registry.windows@, e),
        final(may).terminated == (old(may).terminated || e is AppTerminating),
        final(may).registry.current_window == old(may).registry.current_window,
        final(may).frame_rate == old(may).frame_rate,
        final(may).frame_interval_ms == old(may).frame_interval_ms,
        final(may).wait_start_ms == old(may).wait_start_ms,
        final(may).time_ms == old(may).time_ms,
        final(may).clipboard == old(may).clipboard,
        final(may).cursor_visible == old(may).cursor_visible,
        final(may).keys_down == old(may).keys_down,
        final(may).buttons_down == old(may).buttons_down,
        final(may).mouse_x == old(may).mouse_x,
        final(may).mouse_y == old(may).mouse_y,
{
    let ghost ws0 = may.registry.windows@;
    match e {
        Event::WindowClose { window_id } => {
            match may.registry.find(window_id) {
                Some(i) => {
                    let mut w = may.registry.windows.remove(i);
                    w.should_close = true;
                    proof {
                        lemma_remove_insert_is_update(ws0, i as int, w);
                        lemma_update_preserves_unique(ws0, i as int, w);
                    }
                    may.registry.windows.insert(i, w);
                }
                None => {}
            }
        }
        Event::FocusLost { window_id } => {
            match may.registry.find(window_id) {
                Some(i) => {
                    let mut w = may.registry.windows.remove(i);
                    w.focused = false;
                    proof {
                        lemma_remove_insert_is_update(ws0, i as int, w);
                        lemma_update_preserves_unique(ws0, i as int, w);
                    }
                    may.registry.windows.insert(i, w);
                }
                None => {}
            }
        }
        Event::FocusGained { window_id } => {
            match may.registry.find(window_id) {
                Some(i) => {
                    let mut w = may.registry.windows.remove(i);
                    w.focused = true;
                    proof {
                        lemma_remove_insert_is_update(ws0, i as int, w);
                        lemma_update_preserves_unique(ws0, i as int, w);
                    }
                    may.registry.windows.insert(i, w);
                }
                None => {}
            }
        }
        Event::AppTerminating => {
            may.terminated = true;
        }
        Event::Other => {}
    }
}

/// One Event Translator pass: applies a drained platform event queue
/// to the windows, in delivery order, with no reordering or
/// coalescing. The queue is consumed, so each event reaches exactly
/// one pass. A termination announcement puts the session into its
/// terminal state.
pub fn translate_events(may: &mut Maylib, events: Vec<Event>)
    requires
        old(may).wf(),
    ensures
        final(may).wf(),
        final(may).registry.windows@ == apply_events(old(may).registry.windows@, events@),
        final(may).terminated == (old(may).terminated || announces_termination(events@)),
        final(may).registry.current_window == old(may).registry.current_window,
        final(may).frame_rate == old(may).frame_rate,
        final(may).frame_interval_ms == old(may).frame_interval_ms,
        final(may).wait_start_ms == old(may).wait_start_ms,
        final(may).time_ms == old(may).time_ms,
        final(may).clipboard == old(may).clipboard,
        final(may).cursor_visible == old(may).cursor_visible,
        final(may).keys_down == old(may).keys_down,
        final(may).buttons_down == old(may).buttons_down,
        final(may).mouse_x == old(may).mouse_x,
        final(may).mouse_y == old(may).mouse_y,
{
    let ghost ws0 = may.registry.windows@;
    let ghost term0 = may.terminated;
    let n = events.len();
    let mut k: usize = 0;
    while k < n
        invariant
            k <= n,
            n == events@.len(),
            may.wf(),
            may.registry.windows@ == apply_events(ws0, events@.take(k as int)),
            may.terminated == (term0 || announces_termination(events@.take(k as int))),
            may.registry.current_window == old(may).registry.current_window,
            may.frame_rate == old(may).frame_rate,
            may.frame_interval_ms == old(may).frame_interval_ms,
            may.wait_start_ms == old(may).wait_start_ms,
            may.time_ms == old(may).time_ms,
            may.clipboard == old(may).clipboard,
            may.cursor_visible == old(may).cursor_visible,
            may.keys_down == old(may).keys_down,
            may.buttons_down == old(may).buttons_down,
            may.mouse_x == old(may).mouse_x,
            may.mouse_y == old(may).mouse_y,
            ws0 == old(may).registry.windows@,
            term0 == old(may).terminated,
        decreases n - k,
    {
        proof {
            lemma_apply_events_step(ws0, events@, k as int);
            lemma_announces_step(events@, k as int);
        }
        let e = events[k];
        apply_platform_event(may, e);
        k = k + 1;
    }
    proof {
        lemma_apply_events_take_all(ws0, events@);
        lemma_announces_take_all(events@);
    }
}

/// Begins a frame at a clock reading: every window's current
/// timestamp becomes its previous one and the reading becomes its
/// current one; the drained event queue is then translated, and the
/// reading becomes the frame pacer's reference point. The caller then
/// polls the clock and calls `frame_tick` until the pacer reports the
/// wait over.
pub fn begin_drawing(may: &mut Maylib, now_ms: u64, events: Vec<Event>)
    requires
        old(may).wf(),
        old(may).time_ms <= now_ms,
    ensures
        final(may).wf(),
        final(may).registry.windows@ == apply_events(
            Window::stamp_all(old(may).registry.windows@, now_ms),
            events@,
        ),
        final(may).terminated == (old(may).terminated || announces_termination(events@)),
        final(may).wait_start_ms == now_ms,
        final(may).time_ms == now_ms,
        final(may).registry.current_window == old(may).registry.current_window,
        final(may).frame_rate == old(may).frame_rate,
        final(may).frame_interval_ms == old(may).frame_interval_ms,
        final(may).clipboard == old(may).clipboard,
        final(may).cursor_visible == old(may).cursor_visible,
        final(may).keys_down == old(may).keys_down,
        final(may).buttons_down == old(may).buttons_down,
        final(may).mouse_x == old(may).mouse_x,
        final(may).mouse_y == old(may).mouse_y,
{
    let ghost ws0 = may.registry.windows@;
    let n = may.registry.windows.len();
    let mut i: usize = 0;
    while i < n
        invariant
            i <= n,
            n == ws0.len(),
            may.registry.windows@.len() == ws0.len(),
            forall|j: int| 0 <= j < i ==> may.registry.windows@[j] == ws0[j].stamped(now_ms),
            forall|j: int| i <= j < n ==> may.registry.windows@[j] == ws0[j],
            ws0 == old(may).registry.windows@,
            may.registry.current_window == old(may).registry.current_window,
            may.frame_rate == old(may).frame_rate,
            may.frame_interval_ms == old(may).frame_interval_ms,
            may.wait_start_ms == old(may).wait_start_ms,
            may.time_ms == old(may).time_ms,
            may.terminated == old(may).terminated,
            may.clipboard == old(may).clipboard,
            may.cursor_visible == old(may).cursor_visible,
            may.keys_down == old(may).keys_down,
            may.buttons_down == old(may).buttons_down,
            may.mouse_x == old(may).mouse_x,
            may.mouse_y == old(may).mouse_y,
            old(may).wf(),
            old(may).time_ms <= now_ms,
        decreases n - i,
    {
        let ghost ws_before = may.registry.windows@;
        let mut w = may.registry.windows.remove(i);
        w.previous_time = w.current_time;
        w.current_time = now_ms;
        proof {
            lemma_remove_insert_is_update(ws_before, i as int, w);
        }
        may.registry.windows.insert(i, w);
        i = i + 1;
    }
    assert(may.registry.windows@ =~= Window::stamp_all(ws0, now_ms));
    may.time_ms = now_ms;
    may.wait_start_ms = now_ms;
    proof {
        assert forall|k: int, l: int| 0 <= k < l < may.registry.windows@.len()
            implies may.registry.windows@[k].id != may.registry.windows@[l].id by {
            assert(may.registry.windows@[k] == ws0[k].stamped(now_ms));
            assert(may.registry.windows@[l] == ws0[l].stamped(now_ms));
            assert(ws0[k].id != ws0[l].id);
        }
        assert forall|k: int| 0 <= k < may.registry.windows@.len()
            implies (#[trigger] may.registry.windows@[k]).times_ok()
            && may.registry.windows@[k].current_time <= may.time_ms by {
            assert(may.registry.windows@[k] == ws0[k].stamped(now_ms));
            assert(ws0[k].times_ok());
            assert(ws0[k].current_time <= old(may).time_ms);
        }
    }
    translate_events(may, events);
}

/// One frame pacer step at a clock reading: stamps the current
/// window's timestamps and reports whether at least the frame
/// interval has elapsed since the pacing reference point — only then
/// may the caller stop waiting and return control.
pub fn frame_tick(may: &mut Maylib, now_ms: u64) -> (r: Result<bool, MayError>)
    requires
        old(may).wf(),
        old(may).time_ms <= now_ms,
    ensures
        final(may).wf(),
        old(may).resolves() ==> r == Ok::<bool, MayError>(
            now_ms - old(may).wait_start_ms >= old(may).frame_interval_ms,
        )
            && final(may).registry.windows@ == old(may).registry.windows@.update(
            idx_of(old(may).registry.windows@, old(may).registry.current_window),
            old(may).current().stamped(now_ms),
        )
            && final(may).time_ms == now_ms
            && final(may).registry.current_window == old(may).registry.current_window
            && final(may).frame_rate == old(may).frame_rate
            && final(may).frame_interval_ms == old(may).frame_interval_ms
            && final(may).wait_start_ms == old(may).wait_start_ms
            && final(may).terminated == old(may).terminated
            && final(may).clipboard == old(may).clipboard
            && final(may).cursor_visible == old(may).cursor_visible
            && final(may).keys_down == old(may).keys_down
            && final(may).buttons_down == old(may).buttons_down
            && final(may).mouse_x == old(may).mouse_x
            && final(may).mouse_y == old(may).mouse_y,
        !old(may).resolves() ==> r == Err::<bool, MayError>(MayError::InvalidWindowReference)
            && *final(may) == *old(may),
{
    match may.registry.find_current() {
        Some(i) => {
            let ghost ws0 = may.registry.windows@;
            let mut w = may.registry.windows.remove(i);
            w.previous_time = w.current_time;
            w.current_time = now_ms;
            proof {
                lemma_remove_insert_is_update(ws0, i as int, w);
                lemma_update_preserves_unique(ws0, i as int, w);
            }
            may.registry.windows.insert(i, w);
            may.time_ms = now_ms;
            Ok(now_ms - may.wait_start_ms >= may.frame_interval_ms)
        }
        None => Err(MayError::InvalidWindowReference),
    }
}

/// Ends a frame: hands back the ids of every open window, in creation
/// order, so the caller can present each window's render target.
pub fn end_drawing(may: &Maylib) -> (ids: Vec<u32>)
    ensures
        ids@.len() == may.registry.windows@.len(),
        forall|i: int| 0 <= i < ids@.len()
            ==> ids@[i] == (#[trigger] may.registry.windows@[i]).id,
{
    let n = may.registry.windows.len();
    let mut ids: Vec<u32> = Vec::new();
    let mut i: usize = 0;
    while i < n
        invariant
            i <= n,
            n == may.registry.windows@.len(),
            ids@.len() == i,
            forall|j: int| 0 <= j < i ==> ids@[j] == (#[trigger] may.registry.windows@[j]).id,
        decreases n - i,
    {
        ids.push(may.registry.windows[i].id);
        i = i + 1;
    }
    ids
}

} // verus!
