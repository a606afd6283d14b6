use rand::Rng;
use vstd::prelude::*;

verus! {

/// A window over a list of `total` items: `visible` rows are shown, from
/// item `start` up to (not including) item `end`; `selected` is the row of
/// the highlighted item inside the window.
#[derive(Clone, Copy, Debug, Default, PartialEq, Eq)]
pub struct Scroll {
    pub selected: usize,
    pub visible: usize,
    pub start: usize,
    pub end: usize,
    pub total: usize,
}

/// A random index below `len` (`rand::thread_rng().gen_range(0..len)`).
/// Trusted: only that the result lies in `0..len`; the value is chance.
#[verifier::external_body]
pub(crate) fn random_below(len: usize) -> (r: usize)
    requires
        len > 0,
    ensures
        r < len,
{
    rand::thread_rng().gen_range(0..len)
}

impl Scroll {
    pub open spec fn default_spec() -> Scroll {
        Scroll { selected: 0, visible: 0, start: 0, end: 0, total: 0 }
    }

    /// An empty window over an empty list.
    pub fn zero() -> (r: Scroll)
        ensures
            r == Scroll::default_spec(),
    {
        Scroll { selected: 0, visible: 0, start: 0, end: 0, total: 0 }
    }

    /// The well-formed windows: the window is `visible` rows wide and
    /// starts at `start`; the highlighted row lies inside it; a window never
    /// runs past the list unless the list is shorter than the window, in
    /// which case it starts at the top and the highlight stays on an item.
    pub open spec fn wf(self) -> bool {
        &&& self.visible > 0
        &&& self.selected < self.visible
        &&& self.end == self.start + self.visible
        &&& self.total >= self.visible ==> self.end <= self.total
        &&& self.total < self.visible ==> self.start == 0 && (self.total == 0 || self.selected
            < self.total)
    }

    /// Position of the highlighted item in the whole list.
    pub open spec fn index(self) -> int {
        self.start + self.selected
    }

    pub open spec fn move_up_spec(self) -> Scroll {
        if self.selected > 0 {
            Scroll { selected: (self.selected - 1) as usize, ..self }
        } else if self.start > 0 {
            Scroll {
                start: (self.start - 1) as usize,
                end: if self.end > 0 {
                    (self.end - 1) as usize
                } else {
                    0
                },
                ..self
            }
        } else {
            self
        }
    }

    /// The inputs on which `move_down` runs without an arithmetic fault.
    pub open spec fn move_down_defined(self) -> bool {
        &&& self.visible > 0
        &&& !(self.end == self.total && self.selected == self.visible - 1) && self.total
            < self.visible ==> self.total > 0
        &&& self.total >= self.visible && self.selected != self.visible - 1 ==> self.selected
            < usize::MAX
        &&& self.total >= self.visible && self.selected == self.visible - 1 && self.end
            != self.total ==> self.start < usize::MAX && self.end < usize::MAX
    }

    pub open spec fn move_down_spec(self) -> Scroll {
        if self.end == self.total && self.selected == self.visible - 1 {
            self
        } else if self.total < self.visible {
            if self.selected >= self.total - 1 {
                self
            } else {
                Scroll { selected: (self.selected + 1) as usize, ..self }
            }
        } else if self.selected == self.visible - 1 {
            Scroll { start: (self.start + 1) as usize, end: (self.end + 1) as usize, ..self }
        } else {
            Scroll { selected: (self.selected + 1) as usize, ..self }
        }
    }

    pub open spec fn select_first_spec(self) -> Scroll {
        Scroll { start: 0, selected: 0, end: self.visible, ..self }
    }

    pub open spec fn select_last_spec(self) -> Scroll {
        Scroll {
            start: (self.total - self.visible) as usize,
            selected: (self.visible - 1) as usize,
            end: self.total,
            ..self
        }
    }

    /// Where the window goes when item `target` is chosen at random.
    pub open spec fn select_at_spec(self, target: usize) -> Scroll {
        if target < self.visible {
            Scroll { start: 0, end: self.visible, selected: target, ..self }
        } else if target > self.total - self.visible {
            Scroll {
                start: (self.total - self.visible) as usize,
                end: self.total,
                selected: (target - (self.total - self.visible)) as usize,
                ..self
            }
        } else {
            Scroll {
                start: (target - self.visible) as usize,
                end: target,
                selected: self.visible / 2,
                ..self
            }
        }
    }

    /// Where the window goes when the selection saved before a search is
    /// restored.
    pub open spec fn restore_spec(self, saved: usize) -> Scroll {
        if saved < self.visible {
            Scroll { start: 0, end: self.visible, selected: saved, ..self }
        } else if saved > self.total - self.visible {
            Scroll {
                start: (self.total - self.visible) as usize,
                end: self.total,
                selected: (saved - (self.total - self.visible)) as usize,
                ..self
            }
        } else {
            let start = (saved - self.visible) + self.visible / 2;
            let end = saved + self.visible / 2;
            Scroll {
                start: start as usize,
                end: end as usize,
                selected: (end - saved + self.visible % 2) as usize,
                ..self
            }
        }
    }

    /// The inputs on which restoring `saved` runs without an arithmetic
    /// fault.
    pub open spec fn restore_defined(self, saved: usize) -> bool {
        saved >= self.visible ==> {
            &&& self.total >= self.visible
            &&& saved <= self.total - self.visible ==> saved + self.visible / 2 <= usize::MAX
        }
    }

    /// Moves the highlight one row up, scrolling the window when the
    /// highlight is already on the first row.
    pub fn move_up(&mut self)
        ensures
            *final(self) == old(self).move_up_spec(),
    {
        if self.selected > 0 {
            self.selected -= 1;
            return;
        }
        if self.start > 0 {
            self.start = self.start - 1;
            self.end = self.end.saturating_sub(1);
        }
    }

    /// Moves the highlight one row down, scrolling the window when the
    /// highlight is on its last row and the list goes on.
    pub fn move_down(&mut self)
        requires
            old(self).move_down_defined(),
        ensures
            *final(self) == old(self).move_down_spec(),
    {
        if self.end == self.total && self.selected == self.visible - 1 {
            return;
        }
        if self.total < self.visible {
            if self.selected >= self.total - 1 {
                return;
            } else {
                self.selected += 1;
            }
            return;
        }
        if self.selected == self.visible - 1 {
            self.start += 1;
            self.end += 1;
        } else {
            self.selected += 1;
        }
    }

    /// Puts the window at the top of the list and highlights its first row.
    pub fn select_first(&mut self)
        ensures
            *final(self) == old(self).select_first_spec(),
    {
        self.start = 0;
        self.selected = 0;
        self.end = self.visible;
    }

    /// Puts the window at the bottom of the list and highlights its last row.
    pub fn select_last(&mut self)
        requires
            old(self).total >= old(self).visible,
            old(self).visible > 0,
        ensures
            *final(self) == old(self).select_last_spec(),
    {
        self.start = self.total - self.visible;
        self.selected = self.visible - 1;
        self.end = self.total;
    }

    /// Moves the window to item `target` as `select_random` does once it has
    /// drawn `target`.
    pub fn select_at(&mut self, target: usize)
        requires
            target < old(self).total,
        ensures
            *final(self) == old(self).select_at_spec(target),
    {
        if target < self.visible {
            self.start = 0;
            self.end = self.visible;
            self.selected = target;
            return;
        }
        if target > self.total - self.visible {
            self.start = self.total - self.visible;
            self.end = self.total;
            self.selected = target - self.start;
            return;
        }
        self.start = target - self.visible;
        self.end = target;
        self.selected = self.visible / 2;
    }

    /// Jumps to a random item; nothing happens on an empty list.
    pub fn select_random(&mut self)
        ensures
            old(self).total == 0 ==> *final(self) == *old(self),
            old(self).total > 0 ==> exists|t: usize|
                t < old(self).total && *final(self) == #[trigger] old(self).select_at_spec(t),
    {
        if self.total == 0 {
            return;
        }
        let random = random_below(self.total);
        self.select_at(random);
    }

    /// Moves the window back to the item saved before a search.
    pub fn restore_index(&mut self, saved: usize)
        requires
            old(self).restore_defined(saved),
        ensures
            *final(self) == old(self).restore_spec(saved),
    {
        if saved < self.visible {
            self.start = 0;
            self.end = self.visible;
            self.selected = saved;
            return;
        }
        if saved > self.total - self.visible {
            self.start = self.total - self.visible;
            self.end = self.total;
            self.selected = saved - self.start;
            return;
        }
        self.start = (saved - self.visible) + self.visible / 2;
        self.end = saved + self.visible / 2;
        self.selected = self.end - saved + (self.visible % 2);
    }

    /// Position of the highlighted item in the whole list.
    pub fn index_in_list(&self) -> (r: usize)
        requires
            self.start + self.selected <= usize::MAX,
        ensures
            r == self.index(),
    {
        self.start + self.selected
    }
}


/// A well-formed window stays well-formed when the highlight moves up, and
/// the highlighted position moves one item up unless it is on the first
/// item.
pub proof fn lemma_move_up_steps_back(s: Scroll)
    requires
        s.wf(),
    ensures
        s.move_up_spec().wf(),
        s.move_up_spec().index() == if s.index() > 0 {
            s.index() - 1
        } else {
            0
        },
{
}

/// On a well-formed window over a non-empty list, moving down never faults,
/// keeps the window well-formed, and moves the highlighted position one
/// item down unless it is on the last item.
pub proof fn lemma_move_down_steps_forward(s: Scroll)
    requires
        s.wf(),
        s.total > 0,
    ensures
        s.move_down_defined(),
        s.move_down_spec().wf(),
        s.move_down_spec().index() == if s.index() + 1 < s.total {
            s.index() + 1
        } else {
            s.total - 1
        },
{
}

/// Moving down and then up again comes back to the same item, unless the
/// highlight was already on the last item.
pub proof fn lemma_move_down_then_up(s: Scroll)
    requires
        s.wf(),
        s.index() + 1 < s.total,
    ensures
        s.move_down_spec().move_up_spec().index() == s.index(),
{
    lemma_move_down_steps_forward(s);
    lemma_move_up_steps_back(s.move_down_spec());
}

/// Going to the first item gives a well-formed window on item 0.
pub proof fn lemma_select_first(s: Scroll)
    requires
        s.visible > 0,
    ensures
        s.select_first_spec().wf(),
        s.select_first_spec().index() == 0,
{
}

/// Going to the last item of a list at least a window long gives a
/// well-formed window on the last item.
pub proof fn lemma_select_last(s: Scroll)
    requires
        s.visible > 0,
        s.total >= s.visible,
    ensures
        s.select_last_spec().wf(),
        s.select_last_spec().index() == s.total - 1,
{
}

/// Jumping to an item keeps the window well-formed; the highlight lands on
/// the item itself when it lies in the first or the last window of the
/// list, and `visible / 2` rows into a window that ends at it otherwise.
pub proof fn lemma_select_at(s: Scroll, target: usize)
    requires
        s.wf(),
        target < s.total,
    ensures
        s.select_at_spec(target).wf(),
        target < s.visible || target > s.total - s.visible ==> s.select_at_spec(target).index()
            == target,
        s.visible <= target <= s.total - s.visible ==> s.select_at_spec(target).index() == target
            - s.visible + s.visible / 2,
{
}

/// Restoring a saved position highlights that very item again, in a window
/// of `visible` rows.
pub proof fn lemma_restore_highlights_saved(s: Scroll, saved: usize)
    requires
        s.restore_defined(saved),
    ensures
        s.restore_spec(saved).index() == saved,
        s.restore_spec(saved).end == s.restore_spec(saved).start + s.visible,
{
}

} // verus!
