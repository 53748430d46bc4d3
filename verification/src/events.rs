//! The Event Translator: folds a drained platform event queue, in
//! delivery order, into Window entity flags.

use vstd::prelude::*;

use crate::registry::{contains_id, idx_of, window_of};
use crate::window::Window;

verus! {

/// One platform event, reduced to what the session model reacts to.
#[derive(Clone, Copy, PartialEq, Eq, Structural, Debug)]
pub enum Event {
    /// The user asked to close the window.
    WindowClose { window_id: u32 },
    /// The window lost input focus.
    FocusLost { window_id: u32 },
    /// The window gained input focus.
    FocusGained { window_id: u32 },
    /// The platform is tearing the application down.
    AppTerminating,
    /// Any event kind the session ignores.
    Other,
}

/// The windows after one event: a close request or focus change flips
/// the addressed window's flag; an event for an unknown window, and
/// every other event kind, leaves the windows unchanged.
pub open spec fn apply_event(ws: Seq<Window>, e: Event) -> Seq<Window> {
    match e {
        Event::WindowClose { window_id } => if contains_id(ws, window_id) {
            ws.update(idx_of(ws, window_id), window_of(ws, window_id).with_should_close(true))
        } else {
            ws
        },
        Event::FocusLost { window_id } => if contains_id(ws, window_id) {
            ws.update(idx_of(ws, window_id), window_of(ws, window_id).with_focused(false))
        } else {
            ws
        },
        Event::FocusGained { window_id } => if contains_id(ws, window_id) {
            ws.update(idx_of(ws, window_id), window_of(ws, window_id).with_focused(true))
        } else {
            ws
        },
        Event::AppTerminating => ws,
        Event::Other => ws,
    }
}

/// The windows after a whole queue, applied in delivery order, with
/// no reordering or coalescing.
pub open spec fn apply_events(ws: Seq<Window>, es: Seq<Event>) -> Seq<Window>
    decreases es.len(),
{
    if es.len() == 0 {
        ws
    } else {
        apply_event(apply_events(ws, es.drop_last()), es.last())
    }
}

/// True iff the queue announces that the application is being torn
/// down.
pub open spec fn announces_termination(es: Seq<Event>) -> bool {
    exists|i: int| 0 <= i < es.len() && es[i] is AppTerminating
}

/// Applying one more event is applying the queue so far, then that
/// event.
pub proof fn lemma_apply_events_step(ws: Seq<Window>, es: Seq<Event>, k: int)
    requires
        0 <= k < es.len(),
    ensures
        apply_events(ws, es.take(k + 1)) == apply_event(apply_events(ws, es.take(k)), es[k]),
{
    let front = es.take(k + 1);
    assert(front.drop_last() =~= es.take(k));
    assert(front.last() == es[k]);
}

/// A queue announces termination through one more event exactly when
/// the queue so far does, or that event is the announcement.
pub proof fn lemma_announces_step(es: Seq<Event>, k: int)
    requires
        0 <= k < es.len(),
    ensures
        announces_termination(es.take(k + 1)) == (announces_termination(es.take(k))
            || es[k] is AppTerminating),
{
    let a = es.take(k);
    let b = es.take(k + 1);
    if announces_termination(a) {
        let i = choose|i: int| 0 <= i < a.len() && a[i] is AppTerminating;
        assert(b[i] is AppTerminating);
    }
    if es[k] is AppTerminating {
        assert(b[k] is AppTerminating);
    }
    if announces_termination(b) && !(es[k] is AppTerminating) {
        let i = choose|i: int| 0 <= i < b.len() && b[i] is AppTerminating;
        assert(a[i] is AppTerminating);
    }
}

/// A queue announces termination exactly when the queue taken through
/// its length does.
pub proof fn lemma_announces_take_all(es: Seq<Event>)
    ensures
        announces_termination(es.take(es.len() as int)) == announces_termination(es),
{
    assert(es.take(es.len() as int) =~= es);
}

/// A queue applied whole is the queue applied through its length.
pub proof fn lemma_apply_events_take_all(ws: Seq<Window>, es: Seq<Event>)
    ensures
        apply_events(ws, es.take(es.len() as int)) == apply_events(ws, es),
{
    assert(es.take(es.len() as int) =~= es);
}

} // verus!
