//! Cursor/window state machine: the selected index and the visible window
//! bounds, advanced by the two navigation transitions.
//!
//! The window `[first, last)` is the contiguous index range of items
//! currently rendered. The anchor — which edge of the window stays fixed
//! while the selection moves inside it — switches exactly when keeping it
//! would force a full-window jump: the flip happens on the boundary row,
//! one step early, so every transition is a single bounded window movement.

use vstd::math::min;
use vstd::prelude::*;

verus! {

/// The window state: selection plus anchor policy.
///
/// * `TopAnchored(selected, first, last)`: `first` stays fixed at the top
///   row while this variant holds.
/// * `BottomAnchored(selected, first, last)`: `last` stays fixed at the
///   bottom row while this variant holds.
/// * `Centered(selected)`: the window is recomputed at every render around
///   the selection (see [`crate::render`]).
#[derive(Clone, Copy, PartialEq, Eq, Structural, Debug)]
pub enum WindowState {
    TopAnchored(u16, u16, u16),
    BottomAnchored(u16, u16, u16),
    Centered(u16),
}

impl WindowState {
    /// The selected item index.
    pub open spec fn spec_selected(self) -> int {
        match self {
            WindowState::TopAnchored(c, _, _) => c as int,
            WindowState::BottomAnchored(c, _, _) => c as int,
            WindowState::Centered(c) => c as int,
        }
    }

    /// Validity with respect to the item count and the viewport capacity.
    ///
    /// For the anchored variants: `first <= selected < last <= item_count`,
    /// and the window spans exactly `min(max_visible, item_count)` items —
    /// the width a window gets at startup and that both transitions
    /// preserve. Two further clauses make the invariant inductive:
    /// a window narrower than two rows only exists when a single item
    /// exists at all, and a top-anchored selection sits strictly above the
    /// bottom row except on the very last item (the transitions flip the
    /// anchor on the boundary row, so the selection never rests there).
    pub open spec fn wf(self, item_count: int, max_visible: int) -> bool {
        match self {
            WindowState::TopAnchored(c, t, b) => {
                &&& t <= c < b <= item_count
                &&& b - t == min(max_visible, item_count)
                &&& (c + 2 <= b || c + 1 >= item_count)
                &&& (2 <= b - t || item_count <= 1)
            },
            WindowState::BottomAnchored(c, t, b) => {
                &&& t <= c < b <= item_count
                &&& b - t == min(max_visible, item_count)
                &&& (2 <= b - t || item_count <= 1)
            },
            WindowState::Centered(c) => c < item_count,
        }
    }

    /// The next state after moving the selection down by one.
    pub open spec fn spec_advance(self) -> WindowState {
        match self {
            WindowState::BottomAnchored(c, t, b) => {
                let c2 = c + 1;
                if b <= c2 {
                    let d = c2 - b + 1;
                    WindowState::BottomAnchored(c2 as u16, (t + d) as u16, (b + d) as u16)
                } else {
                    WindowState::BottomAnchored(c2 as u16, t, b)
                }
            },
            WindowState::TopAnchored(c, t, b) => {
                let c2 = c + 1;
                if b <= c2 {
                    let d = c2 - b;
                    WindowState::BottomAnchored(c2 as u16, (t + d) as u16, (b + d) as u16)
                } else if c2 == b - 1 {
                    WindowState::BottomAnchored(c2 as u16, t, b)
                } else {
                    WindowState::TopAnchored(c2 as u16, t, b)
                }
            },
            WindowState::Centered(c) => WindowState::Centered((c + 1) as u16),
        }
    }

    /// The next state after moving the selection up by one, floor-clamped
    /// at index 0.
    pub open spec fn spec_retreat(self) -> WindowState {
        match self {
            WindowState::BottomAnchored(c, t, b) => {
                let c2: int = if c == 0 { 0 } else { c - 1 };
                if t > c2 {
                    let d = t - c2;
                    WindowState::TopAnchored(c2 as u16, (t - d) as u16, (b - d) as u16)
                } else if c2 == t {
                    WindowState::TopAnchored(c2 as u16, t, b)
                } else {
                    WindowState::BottomAnchored(c2 as u16, t, b)
                }
            },
            WindowState::TopAnchored(c, t, b) => {
                let c2: int = if c == 0 { 0 } else { c - 1 };
                if t > c2 {
                    let d = t - c2;
                    WindowState::TopAnchored(c2 as u16, (t - d) as u16, (b - d) as u16)
                } else {
                    WindowState::TopAnchored(c2 as u16, t, b)
                }
            },
            WindowState::Centered(c) => {
                WindowState::Centered(if c == 0 { 0u16 } else { (c - 1) as u16 })
            },
        }
    }

    /// The startup state: a top-anchored window at the head of the list,
    /// clamped to the available items.
    pub fn initial(item_count: u16, max_visible: u16) -> (s: WindowState)
        requires
            item_count >= 1,
            max_visible >= 1,
            item_count >= 2 ==> max_visible >= 2,
        ensures
            s == WindowState::TopAnchored(0u16, 0u16, min(max_visible as int, item_count as int) as u16),
            s.wf(item_count as int, max_visible as int),
            s.spec_selected() == 0,
    {
        let last = if max_visible < item_count { max_visible } else { item_count };
        WindowState::TopAnchored(0, 0, last)
    }

    /// The selected item index.
    pub fn selected(&self) -> (c: u16)
        ensures
            c == self.spec_selected(),
    {
        match *self {
            WindowState::TopAnchored(c, _, _) => c,
            WindowState::BottomAnchored(c, _, _) => c,
            WindowState::Centered(c) => c,
        }
    }

    /// Moves the selection down by one.
    ///
    /// A bottom-anchored window shifts down as soon as the selection would
    /// pass its bottom row; a top-anchored window flips to bottom-anchored
    /// when the selection reaches its boundary row (one step before a shift
    /// would be needed), so the following step shifts cleanly.
    ///
    /// The caller must have clamped the selection already: a call with the
    /// selection on the last item is outside this contract, so the machine
    /// never sees a selection at or beyond `item_count`.
    pub fn advance(self, item_count: u16, max_visible: u16) -> (s: WindowState)
        requires
            self.wf(item_count as int, max_visible as int),
            self.spec_selected() + 1 < item_count,
        ensures
            s == self.spec_advance(),
            s.wf(item_count as int, max_visible as int),
            s.spec_selected() == self.spec_selected() + 1,
    {
        match self {
            WindowState::BottomAnchored(c, t, b) => {
                let c2 = c + 1;
                if b <= c2 {
                    let d = c2 - b + 1;
                    WindowState::BottomAnchored(c2, t + d, b + d)
                } else {
                    WindowState::BottomAnchored(c2, t, b)
                }
            },
            WindowState::TopAnchored(c, t, b) => {
                let c2 = c + 1;
                if b <= c2 {
                    let d = c2 - b;
                    WindowState::BottomAnchored(c2, t + d, b + d)
                } else if c2 == b - 1 {
                    WindowState::BottomAnchored(c2, t, b)
                } else {
                    WindowState::TopAnchored(c2, t, b)
                }
            },
            WindowState::Centered(c) => WindowState::Centered(c + 1),
        }
    }

    /// Moves the selection down by one, or returns the state unchanged when
    /// the selection already sits on the last item. This is the total
    /// boundary-clamped form of [`WindowState::advance`] for callers that
    /// forward raw navigation commands.
    pub fn advance_clamped(self, item_count: u16, max_visible: u16) -> (s: WindowState)
        requires
            self.wf(item_count as int, max_visible as int),
        ensures
            self.spec_selected() + 1 < item_count ==> s == self.spec_advance(),
            self.spec_selected() + 1 >= item_count ==> s == self,
            s.wf(item_count as int, max_visible as int),
    {
        if self.selected() + 1 < item_count {
            self.advance(item_count, max_visible)
        } else {
            self
        }
    }

    /// Moves the selection up by one, floor-clamped at index 0.
    ///
    /// A top-anchored window shifts up as soon as the selection would pass
    /// its top row; a bottom-anchored window flips to top-anchored when the
    /// selection reaches its top row.
    pub fn retreat(self, item_count: u16, max_visible: u16) -> (s: WindowState)
        requires
            self.wf(item_count as int, max_visible as int),
        ensures
            s == self.spec_retreat(),
            s.wf(item_count as int, max_visible as int),
            s.spec_selected() == if self.spec_selected() == 0 { 0int } else { self.spec_selected() - 1 },
    {
        match self {
            WindowState::BottomAnchored(c, t, b) => {
                let c2 = if c == 0 { 0 } else { c - 1 };
                if t > c2 {
                    let d = t - c2;
                    WindowState::TopAnchored(c2, t - d, b - d)
                } else if c2 == t {
                    WindowState::TopAnchored(c2, t, b)
                } else {
                    WindowState::BottomAnchored(c2, t, b)
                }
            },
            WindowState::TopAnchored(c, t, b) => {
                let c2 = if c == 0 { 0 } else { c - 1 };
                if t > c2 {
                    let d = t - c2;
                    WindowState::TopAnchored(c2, t - d, b - d)
                } else {
                    WindowState::TopAnchored(c2, t, b)
                }
            },
            WindowState::Centered(c) => {
                WindowState::Centered(if c == 0 { 0 } else { c - 1 })
            },
        }
    }
}

/// An abstract navigation command, as the input collaborator decodes it
/// from raw keystrokes. `Ignore` stands for any other keypress: it changes
/// no state, but the screen is still redrawn. `Quit` ends the session; the
/// state machine leaves the state untouched for it.
#[derive(Clone, Copy, PartialEq, Eq, Structural, Debug)]
pub enum NavCommand {
    Next,
    Previous,
    Quit,
    Ignore,
}

impl WindowState {
    /// Applies one navigation command: `Next` moves the selection down
    /// (clamped at the last item), `Previous` moves it up (clamped at
    /// index 0), `Quit` and `Ignore` leave the state unchanged.
    pub fn apply(self, cmd: NavCommand, item_count: u16, max_visible: u16) -> (s: WindowState)
        requires
            self.wf(item_count as int, max_visible as int),
        ensures
            s.wf(item_count as int, max_visible as int),
            cmd == NavCommand::Next && self.spec_selected() + 1 < item_count ==> s
                == self.spec_advance(),
            cmd == NavCommand::Next && self.spec_selected() + 1 >= item_count ==> s == self,
            cmd == NavCommand::Previous ==> s == self.spec_retreat(),
            cmd == NavCommand::Quit || cmd == NavCommand::Ignore ==> s == self,
    {
        match cmd {
            NavCommand::Next => self.advance_clamped(item_count, max_visible),
            NavCommand::Previous => self.retreat(item_count, max_visible),
            NavCommand::Quit => self,
            NavCommand::Ignore => self,
        }
    }
}

/// Every valid window state keeps the selection inside the window and the
/// window inside the item list, never wider than the viewport capacity:
/// `0 <= first <= selected < last <= item_count` and
/// `last - first <= max_visible`.
pub proof fn lemma_wf_bounds(s: WindowState, item_count: int, max_visible: int)
    requires
        s.wf(item_count, max_visible),
        max_visible >= 1,
    ensures
        0 <= s.spec_selected() < item_count,
        s matches WindowState::TopAnchored(c, t, b) ==> 0 <= t <= c < b <= item_count && b - t <= max_visible,
        s matches WindowState::BottomAnchored(c, t, b) ==> 0 <= t <= c < b <= item_count && b - t <= max_visible,
{
}

/// Advancing and then retreating returns to the same selected index (the
/// bounds may differ when an anchor flip occurred).
pub proof fn lemma_advance_retreat_round_trip(s: WindowState, item_count: int, max_visible: int)
    requires
        s.wf(item_count, max_visible),
        s.spec_selected() + 1 < item_count,
        item_count <= u16::MAX,
    ensures
        s.spec_advance().spec_retreat().spec_selected() == s.spec_selected(),
{
}

/// Retreating from a selection already at index 0 reaches a fixed point in
/// at most one step: the state after one retreat no longer changes under
/// further retreats.
pub proof fn lemma_retreat_stabilizes_at_zero(s: WindowState, item_count: int, max_visible: int)
    requires
        s.wf(item_count, max_visible),
        s.spec_selected() == 0,
    ensures
        s.spec_retreat().spec_retreat() == s.spec_retreat(),
{
}

} // verus!
