//! Identifiers of tabs.

use vstd::prelude::*;

verus! {

/// The counter that hands out the identifiers of tabs.
///
/// One counter serves all windows of a process, so that a tab keeps an identifier of its own when
/// it moves from one window to another.
#[derive(Debug, PartialEq, Eq)]
pub struct TabIds {
    /// The identifier that is handed out next.
    pub next: usize,
}

/// The identifier that follows `id`.
pub open spec fn tab_id_after(id: usize) -> usize {
    if id == usize::MAX {
        0
    } else {
        (id + 1) as usize
    }
}

impl TabIds {
    /// A counter that starts at zero.
    pub fn new() -> (r: Self)
        ensures
            r.next == 0,
    {
        TabIds { next: 0 }
    }

    /// Hands out an identifier. After the largest `usize` the counter starts over.
    pub fn next_tab_id(&mut self) -> (r: usize)
        ensures
            r == old(self).next,
            final(self).next == tab_id_after(old(self).next),
            old(self).next < usize::MAX ==> final(self).next == old(self).next + 1,
            old(self).next == usize::MAX ==> final(self).next == 0,
    {
        let r: usize = self.next;
        if r == usize::MAX {
            self.next = 0;
        } else {
            self.next = r + 1;
        }
        r
    }
}

} // verus!
