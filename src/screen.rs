//! The screen state (active tab and list selection) and how key presses and
//! ticks move it.
use vstd::prelude::*;

verus! {

/// A top-level screen of the menu.
#[derive(Clone, Copy, Debug, PartialEq, Eq, Structural)]
pub enum MenuItem {
    Home,
    Projects,
}

/// The position of a tab in the menu bar.
pub open spec fn menu_position(m: MenuItem) -> usize {
    match m {
        MenuItem::Home => 0,
        MenuItem::Projects => 1,
    }
}

impl From<MenuItem> for usize {
    fn from(input: MenuItem) -> (r: usize) {
        match input {
            MenuItem::Home => 0,
            MenuItem::Projects => 1,
        }
    }
}

impl vstd::std_specs::convert::FromSpecImpl<MenuItem> for usize {
    open spec fn obeys_from_spec() -> bool {
        true
    }

    open spec fn from_spec(v: MenuItem) -> usize {
        menu_position(v)
    }
}

/// The command keys that the screen reacts to.
#[derive(Clone, Copy, Debug, PartialEq, Eq, Structural)]
pub enum Key {
    Quit,
    Home,
    Projects,
    Add,
    Delete,
    Down,
    Up,
    Other,
}

/// What the event loop receives: a key press, or a tick when no key came in time.
#[derive(Clone, Copy, Debug, PartialEq, Eq, Structural)]
pub enum Event {
    Input(Key),
    Tick,
}

/// The outside work that a key asks of the event loop.
#[derive(Clone, Copy, Debug, PartialEq, Eq, Structural)]
pub enum Command {
    /// Nothing beyond a redraw.
    Redraw,
    /// Restore the terminal and leave the loop.
    Quit,
    /// Ask the directory picker for a directory and add it as a project.
    PickDirectory,
    /// Remove the record at this position from the store.
    Remove(usize),
}

/// The active tab and the selected position in the project list.
#[derive(Clone, Copy, Debug, PartialEq, Eq, Structural)]
pub struct ScreenState {
    pub active: MenuItem,
    pub selected: Option<usize>,
}

/// The position after `s` in a list of `len`, back to the first after the last.
pub open spec fn next_spec(s: int, len: int) -> int {
    if s + 1 >= len {
        0
    } else {
        s + 1
    }
}

/// The position before `s` in a list of `len`, round to the last before the first;
/// a position past the end goes to the last.
pub open spec fn prev_spec(s: int, len: int) -> int {
    if s == 0 || s > len {
        len - 1
    } else {
        s - 1
    }
}

/// The selection after the record at `s` left a list that now holds `len`.
pub open spec fn after_removal_spec(s: int, len: int) -> Option<usize> {
    if len == 0 {
        None
    } else if s > 0 {
        Some((s - 1) as usize)
    } else {
        Some(0)
    }
}

/// The selection brought into a list of `len`: kept when in range, the last
/// position when past the end, the first when absent; an empty list keeps it.
pub open spec fn fit_spec(sel: Option<usize>, len: int) -> Option<usize> {
    if len == 0 {
        sel
    } else {
        match sel {
            Some(s) => if s < len {
                Some(s)
            } else {
                Some((len - 1) as usize)
            },
            None => Some(0),
        }
    }
}

/// The state and command that an event gives, with `len` records in the store.
pub open spec fn step_spec(st: ScreenState, ev: Event, len: int) -> (ScreenState, Command) {
    match ev {
        Event::Tick => (st, Command::Redraw),
        Event::Input(k) => match k {
            Key::Quit => (st, Command::Quit),
            Key::Home => (ScreenState { active: MenuItem::Home, ..st }, Command::Redraw),
            Key::Projects => (
                ScreenState { active: MenuItem::Projects, selected: fit_spec(st.selected, len) },
                Command::Redraw,
            ),
            Key::Add => (st, Command::PickDirectory),
            Key::Delete => match st.selected {
                Some(s) if st.active == MenuItem::Projects && s < len => (
                    ScreenState { selected: after_removal_spec(s as int, len - 1), ..st },
                    Command::Remove(s),
                ),
                _ => (st, Command::Redraw),
            },
            Key::Down => if st.active == MenuItem::Projects && len > 0 {
                (
                    ScreenState {
                        selected: Some(
                            match st.selected {
                                Some(s) => next_spec(s as int, len) as usize,
                                None => 0,
                            },
                        ),
                        ..st
                    },
                    Command::Redraw,
                )
            } else {
                (st, Command::Redraw)
            },
            Key::Up => if st.active == MenuItem::Projects && len > 0 {
                (
                    ScreenState {
                        selected: Some(
                            match st.selected {
                                Some(s) => prev_spec(s as int, len) as usize,
                                None => 0,
                            },
                        ),
                        ..st
                    },
                    Command::Redraw,
                )
            } else {
                (st, Command::Redraw)
            },
            Key::Other => (st, Command::Redraw),
        },
    }
}

/// The selection invariant: on the project tab with records, a position in range.
pub open spec fn selection_valid(st: ScreenState, len: int) -> bool {
    st.active == MenuItem::Projects && len > 0 ==> (st.selected matches Some(s) && s < len)
}

/// The position after `selected`, wrapping to the first.
pub fn next_index(selected: usize, len: usize) -> (r: usize)
    requires
        len > 0,
    ensures
        r as int == next_spec(selected as int, len as int),
        r < len,
{
    if selected >= len - 1 {
        0
    } else {
        selected + 1
    }
}

/// The position before `selected`, wrapping to the last.
pub fn prev_index(selected: usize, len: usize) -> (r: usize)
    requires
        len > 0,
    ensures
        r as int == prev_spec(selected as int, len as int),
        r < len,
{
    if selected == 0 || selected > len {
        len - 1
    } else {
        selected - 1
    }
}

/// The selection once the record at `selected` is gone and `len` remain.
pub fn selection_after_removal(selected: usize, len: usize) -> (r: Option<usize>)
    ensures
        r == after_removal_spec(selected as int, len as int),
{
    if len == 0 {
        None
    } else if selected > 0 {
        Some(selected - 1)
    } else {
        Some(0)
    }
}

impl ScreenState {
    /// The state at start: the home tab, with the first record selected.
    pub fn new() -> (r: ScreenState)
        ensures
            r.active == MenuItem::Home,
            r.selected == Some(0usize),
    {
        ScreenState { active: MenuItem::Home, selected: Some(0) }
    }

    /// Brings the selection into a list of `len` records.
    pub fn fit(&mut self, len: usize)
        ensures
            final(self).active == old(self).active,
            final(self).selected == fit_spec(old(self).selected, len as int),
    {
        if len > 0 {
            self.selected = match self.selected {
                Some(s) => if s < len {
                    Some(s)
                } else {
                    Some(len - 1)
                },
                None => Some(0),
            };
        }
    }

    /// Applies an event with `len` records in the store, and gives the command
    /// that the event loop is to carry out.
    pub fn step(&mut self, ev: Event, len: usize) -> (r: Command)
        ensures
            (*final(self), r) == step_spec(*old(self), ev, len as int),
    {
        let st = *self;
        match ev {
            Event::Tick => Command::Redraw,
            Event::Input(k) => match k {
                Key::Quit => Command::Quit,
                Key::Home => {
                    self.active = MenuItem::Home;
                    Command::Redraw
                },
                Key::Projects => {
                    self.active = MenuItem::Projects;
                    self.fit(len);
                    Command::Redraw
                },
                Key::Add => Command::PickDirectory,
                Key::Delete => match st.selected {
                    Some(s) => {
                        if st.active == MenuItem::Projects && s < len {
                            self.selected = selection_after_removal(s, len - 1);
                            Command::Remove(s)
                        } else {
                            Command::Redraw
                        }
                    },
                    None => Command::Redraw,
                },
                Key::Down => {
                    if st.active == MenuItem::Projects && len > 0 {
                        self.selected = Some(
                            match st.selected {
                                Some(s) => next_index(s, len),
                                None => 0,
                            },
                        );
                    }
                    Command::Redraw
                },
                Key::Up => {
                    if st.active == MenuItem::Projects && len > 0 {
                        self.selected = Some(
                            match st.selected {
                                Some(s) => prev_index(s, len),
                                None => 0,
                            },
                        );
                    }
                    Command::Redraw
                },
                Key::Other => Command::Redraw,
            },
        }
    }
}

/// On a valid selection, moving down goes to the next position modulo the length,
/// and moving up to the previous one.
pub proof fn lemma_wraparound(s: int, len: int)
    requires
        0 <= s < len,
    ensures
        next_spec(s, len) == (s + 1) % len,
        prev_spec(s, len) == (s - 1 + len) % len,
{
    if s + 1 < len {
        assert((s + 1) % len == s + 1) by (nonlinear_arith)
            requires
                0 <= s + 1 < len,
        ;
    } else {
        assert((s + 1) % len == 0) by (nonlinear_arith)
            requires
                s + 1 == len,
                len > 0,
        ;
    }
    if s == 0 {
        assert((len - 1) % len == len - 1) by (nonlinear_arith)
            requires
                0 <= len - 1 < len,
        ;
    } else {
        assert((s - 1 + len) % len == s - 1) by (nonlinear_arith)
            requires
                0 <= s - 1 < len,
        ;
    }
}

/// Every event keeps the selection invariant: at the same length, or at the
/// length after the removal that it commands. A key that adds a record leaves the
/// state as it was, and fitting it to the new length restores the invariant.
pub proof fn lemma_step_keeps_selection(st: ScreenState, ev: Event, len: int)
    requires
        0 <= len <= usize::MAX,
        selection_valid(st, len),
    ensures
        ({
            let (next, cmd) = step_spec(st, ev, len);
            match cmd {
                Command::Remove(_) => len > 0 && selection_valid(next, len - 1),
                Command::PickDirectory => next == st,
                _ => selection_valid(next, len),
            }
        }),
{
}

/// Fitting the selection to a length makes it valid at that length.
pub proof fn lemma_fit_is_valid(st: ScreenState, len: int)
    requires
        0 <= len <= usize::MAX,
    ensures
        selection_valid(ScreenState { selected: fit_spec(st.selected, len), ..st }, len),
{
}

/// How long the input poll may wait, in milliseconds, when `elapsed_ms` have
/// passed since the last tick: what is left of the tick interval, or nothing.
pub fn poll_timeout_ms(tick_rate_ms: u64, elapsed_ms: u64) -> (r: u64)
    ensures
        r == (if elapsed_ms < tick_rate_ms {
            (tick_rate_ms - elapsed_ms) as u64
        } else {
            0u64
        }),
{
    match tick_rate_ms.checked_sub(elapsed_ms) {
        Some(left) => left,
        None => 0,
    }
}

/// Whether a tick is due: a whole interval has passed since the last one.
pub fn tick_due(tick_rate_ms: u64, elapsed_ms: u64) -> (r: bool)
    ensures
        r == (elapsed_ms >= tick_rate_ms),
{
    elapsed_ms >= tick_rate_ms
}

} // verus!
