//! The library's stated laws: properties that relate several
//! operations, proved once over the spec-level model the operations'
//! own contracts speak of.

use vstd::arithmetic::div_mod::lemma_remainder;
use vstd::arithmetic::mul::lemma_mul_inequality;
use vstd::prelude::*;

use crate::ops::no_ready_windows;
use crate::registry::{contains_id, idx_of, lemma_remove_unresolves, unique_ids};
use crate::session::{frame_interval_spec, Maylib};
use crate::window::Window;

verus! {

/// A freshly created window is ready, has no close request, is
/// windowed and bordered, and its current timestamp equals its start
/// timestamp.
pub proof fn lemma_fresh_window_defaults(
    id: u32,
    title: String,
    width: u32,
    height: u32,
    x: i32,
    y: i32,
    screen_width: i32,
    screen_height: i32,
    now_ms: u64,
)
    ensures
        Window::fresh(id, title, width, height, x, y, screen_width, screen_height, now_ms).ready,
        !Window::fresh(
            id, title, width, height, x, y, screen_width, screen_height, now_ms,
        ).should_close,
        !Window::fresh(
            id, title, width, height, x, y, screen_width, screen_height, now_ms,
        ).fullscreen,
        Window::fresh(
            id, title, width, height, x, y, screen_width, screen_height, now_ms,
        ).bordered,
        Window::fresh(
            id, title, width, height, x, y, screen_width, screen_height, now_ms,
        ).current_time == Window::fresh(
            id, title, width, height, x, y, screen_width, screen_height, now_ms,
        ).start_time,
{
}

/// The window a sequence of fullscreen toggles leaves behind.
pub open spec fn toggled_n(w: Window, n: nat) -> Window
    decreases n,
{
    if n == 0 {
        w
    } else {
        let prev = toggled_n(w, (n - 1) as nat);
        prev.with_fullscreen(!prev.fullscreen)
    }
}

/// Fullscreen toggle parity: after any sequence of toggles, the
/// fullscreen flag differs from its starting value exactly when the
/// number of toggles is odd. In particular, starting from the
/// creation value `false`, the flag is set exactly after an odd
/// number of toggles.
pub proof fn lemma_toggle_parity(w: Window, n: nat)
    ensures
        toggled_n(w, n).fullscreen == if n % 2 == 0 {
            w.fullscreen
        } else {
            !w.fullscreen
        },
        !w.fullscreen ==> (toggled_n(w, n).fullscreen <==> n % 2 == 1),
    decreases n,
{
    if n > 0 {
        lemma_toggle_parity(w, (n - 1) as nat);
    }
}

/// With no windows in the registry, all windows count as closed.
pub proof fn lemma_all_closed_on_empty(ws: Seq<Window>)
    requires
        ws.len() == 0,
    ensures
        no_ready_windows(ws),
{
}

/// Right after any window creation succeeds — a ready entry was
/// appended — not all windows are closed.
pub proof fn lemma_not_all_closed_after_create(ws: Seq<Window>, w: Window)
    requires
        w.ready,
    ensures
        !no_ready_windows(ws.push(w)),
{
    assert(ws.push(w)[ws.len() as int] == w);
}

/// Closing the current window leaves the selector dangling: the
/// removed id is absent from the registry, so every subsequent
/// current-window accessor fails with `InvalidWindowReference` by its
/// own contract.
pub proof fn lemma_closed_window_is_absent(pre: Maylib, post: Maylib)
    requires
        pre.wf(),
        pre.resolves(),
        post.registry.windows@ == pre.registry.windows@.remove(
            idx_of(pre.registry.windows@, pre.registry.current_window),
        ),
        post.registry.current_window == pre.registry.current_window,
    ensures
        !post.resolves(),
{
    lemma_remove_unresolves(pre.registry.windows@, pre.registry.current_window);
}

/// The frame interval covers the frame rate: a wait of
/// `frame_interval_spec(rate)` milliseconds lasts at least one
/// `rate`-th of a second.
pub proof fn lemma_frame_interval_lower_bound(rate: int)
    requires
        1 <= rate,
    ensures
        frame_interval_spec(rate) * rate >= 1000,
{
    let a = 1000 + rate - 1;
    lemma_remainder(a, rate);
    assert(frame_interval_spec(rate) * rate == a / rate * rate);
}

/// Frame pacing lower bound: when the pacer reports the wait over —
/// at least the frame interval elapsed since the wait began — then at
/// least one `frame_rate`-th of a second has elapsed, measured in
/// milliseconds: the elapsed time times the rate covers a full
/// second.
pub proof fn lemma_pacing_lower_bound(may: Maylib, now_ms: u64)
    requires
        may.wf(),
        now_ms - may.wait_start_ms >= may.frame_interval_ms,
    ensures
        (now_ms - may.wait_start_ms) * may.frame_rate >= 1000,
{
    let rate = may.frame_rate as int;
    let elapsed = now_ms - may.wait_start_ms;
    lemma_frame_interval_lower_bound(rate);
    lemma_mul_inequality(frame_interval_spec(rate), elapsed, rate);
}

/// Creating a window with a fresh id keeps it findable: the appended
/// entry is exactly the one its id resolves to afterwards.
pub proof fn lemma_created_window_resolves(ws: Seq<Window>, w: Window)
    requires
        unique_ids(ws),
        !contains_id(ws, w.id),
    ensures
        contains_id(ws.push(w), w.id),
        crate::registry::window_of(ws.push(w), w.id) == w,
{
    let ws2 = ws.push(w);
    crate::registry::lemma_push_preserves_unique(ws, w);
    assert(ws2[ws.len() as int] == w);
    crate::registry::lemma_idx_of(ws2, w.id, ws.len() as int);
}

} // verus!
