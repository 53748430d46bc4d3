//! The Window Registry: the id-keyed collection that owns every open
//! Window entity, plus the current-window selector.

use vstd::prelude::*;

use crate::window::Window;

verus! {

/// True iff some entry of `ws` carries the id.
pub open spec fn contains_id(ws: Seq<Window>, id: u32) -> bool {
    exists|i: int| 0 <= i < ws.len() && ws[i].id == id
}

/// The index of the entry carrying the id (meaningful only when
/// `contains_id` holds and ids are unique).
pub open spec fn idx_of(ws: Seq<Window>, id: u32) -> int {
    choose|i: int| 0 <= i < ws.len() && ws[i].id == id
}

/// The entry carrying the id (meaningful only when `contains_id`
/// holds and ids are unique).
pub open spec fn window_of(ws: Seq<Window>, id: u32) -> Window {
    ws[idx_of(ws, id)]
}

/// No two entries carry the same id.
pub open spec fn unique_ids(ws: Seq<Window>) -> bool {
    forall|i: int, j: int| 0 <= i < j < ws.len() ==> ws[i].id != ws[j].id
}

/// With unique ids, an entry's index is the one `idx_of` denotes.
pub proof fn lemma_idx_of(ws: Seq<Window>, id: u32, i: int)
    requires
        unique_ids(ws),
        0 <= i < ws.len(),
        ws[i].id == id,
    ensures
        contains_id(ws, id),
        idx_of(ws, id) == i,
        window_of(ws, id) == ws[i],
{
    assert(contains_id(ws, id));
    let j = idx_of(ws, id);
    if i < j {
        assert(ws[i].id != ws[j].id);
    } else if j < i {
        assert(ws[j].id != ws[i].id);
    }
}

/// Removing an entry, then inserting another at the same index, is
/// the same as replacing it.
pub proof fn lemma_remove_insert_is_update(ws: Seq<Window>, i: int, w: Window)
    requires
        0 <= i < ws.len(),
    ensures
        ws.remove(i).insert(i, w) =~= ws.update(i, w),
{
}

/// Replacing an entry with one carrying the same id keeps ids unique.
pub proof fn lemma_update_preserves_unique(ws: Seq<Window>, i: int, w: Window)
    requires
        unique_ids(ws),
        0 <= i < ws.len(),
        w.id == ws[i].id,
    ensures
        unique_ids(ws.update(i, w)),
{
}

/// Appending an entry with an id no entry carries keeps ids unique.
pub proof fn lemma_push_preserves_unique(ws: Seq<Window>, w: Window)
    requires
        unique_ids(ws),
        !contains_id(ws, w.id),
    ensures
        unique_ids(ws.push(w)),
{
    let ws2 = ws.push(w);
    assert forall|i: int, j: int| 0 <= i < j < ws2.len() implies ws2[i].id != ws2[j].id by {
        if j < ws.len() {
            assert(ws[i].id != ws[j].id);
        } else {
            assert(ws2[j] == w);
            assert(ws2[i] == ws[i]);
            assert(ws[i].id == w.id ==> contains_id(ws, w.id));
        }
    }
}

/// Removing an entry keeps ids unique, and the removed id — unique in
/// the collection — is gone afterwards.
pub proof fn lemma_remove_unresolves(ws: Seq<Window>, id: u32)
    requires
        unique_ids(ws),
        contains_id(ws, id),
    ensures
        unique_ids(ws.remove(idx_of(ws, id))),
        !contains_id(ws.remove(idx_of(ws, id)), id),
{
    let k = idx_of(ws, id);
    let ws2 = ws.remove(k);
    assert forall|i: int, j: int| 0 <= i < j < ws2.len() implies ws2[i].id != ws2[j].id by {
        let i0 = if i < k { i } else { i + 1 };
        let j0 = if j < k { j } else { j + 1 };
        assert(ws2[i] == ws[i0]);
        assert(ws2[j] == ws[j0]);
        assert(ws[i0].id != ws[j0].id);
    }
    assert forall|i: int| 0 <= i < ws2.len() implies ws2[i].id != id by {
        let i0 = if i < k { i } else { i + 1 };
        assert(ws2[i] == ws[i0]);
        if i0 < k {
            assert(ws[i0].id != ws[k].id);
        } else {
            assert(ws[k].id != ws[i0].id);
        }
    }
}

/// The Registry: every open Window entity, keyed by id, plus the
/// current-window selector. The selector is not validated when set;
/// accessors resolve it and fail explicitly when it is dangling.
pub struct Registry {
    /// The open windows, in creation order, with pairwise-distinct ids.
    pub windows: Vec<Window>,
    /// The id the per-window operations act on.
    pub current_window: u32,
}

impl Registry {
    /// Ids are pairwise distinct.
    pub open spec fn wf(&self) -> bool {
        unique_ids(self.windows@)
    }

    /// The current selector resolves to a live entry.
    pub open spec fn resolves(&self) -> bool {
        contains_id(self.windows@, self.current_window)
    }

    /// The entry the current selector resolves to.
    pub open spec fn current(&self) -> Window {
        window_of(self.windows@, self.current_window)
    }

    /// Finds the index of the entry carrying the id.
    pub fn find(&self, id: u32) -> (r: Option<usize>)
        requires
            self.wf(),
        ensures
            match r {
                Some(i) => contains_id(self.windows@, id) && i == idx_of(self.windows@, id)
                    && i < self.windows@.len() && self.windows@[i as int].id == id,
                None => !contains_id(self.windows@, id),
            },
    {
        let n = self.windows.len();
        let mut i: usize = 0;
        while i < n
            invariant
                i <= n,
                n == self.windows@.len(),
                self.wf(),
                forall|j: int| 0 <= j < i ==> self.windows@[j].id != id,
            decreases n - i,
        {
            if self.windows[i].id == id {
                proof {
                    lemma_idx_of(self.windows@, id, i as int);
                }
                return Some(i);
            }
            i = i + 1;
        }
        None
    }

    /// Finds the index of the entry the current selector denotes.
    pub fn find_current(&self) -> (r: Option<usize>)
        requires
            self.wf(),
        ensures
            match r {
                Some(i) => self.resolves() && i == idx_of(self.windows@, self.current_window)
                    && i < self.windows@.len()
                    && self.windows@[i as int].id == self.current_window,
                None => !self.resolves(),
            },
    {
        self.find(self.current_window)
    }
}

} // verus!
