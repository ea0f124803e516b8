use vstd::prelude::*;

verus! {

/// Idle time, in milliseconds, after the last query edit at which the
/// search is abandoned.
pub const SEARCH_TIMEOUT_MS: u64 = 300;

/// Whether keys move the cursor or edit the search query.
#[derive(Clone, Copy, Debug, PartialEq, Eq, Structural)]
pub enum ListMode {
    Navigating,
    Searching,
}

/// Mathematical model of a [`SearchState`].
pub ghost struct SearchView {
    pub mode: ListMode,
    pub query: Seq<char>,
    pub last_input: Option<u64>,
}

/// Search mode, accumulated query and the time (in milliseconds) of the last
/// query edit.
#[derive(Debug)]
pub struct SearchState {
    mode: ListMode,
    query: Vec<char>,
    last_input: Option<u64>,
}

impl View for SearchState {
    type V = SearchView;

    closed spec fn view(&self) -> SearchView {
        SearchView { mode: self.mode, query: self.query@, last_input: self.last_input }
    }
}

/// The idle period that started at `last` has run out at `now`.
pub open spec fn timed_out(last: u64, now: u64) -> bool {
    now as int - last as int >= SEARCH_TIMEOUT_MS as int
}

/// A navigating state with no query and no pending timer.
pub open spec fn idle_view() -> SearchView {
    SearchView { mode: ListMode::Navigating, query: Seq::empty(), last_input: None }
}

/// The state after the debounce timer is checked at time `now`.
pub open spec fn tick_view(s: SearchView, now: u64) -> SearchView {
    match s.last_input {
        Some(last) if timed_out(last, now) => idle_view(),
        _ => s,
    }
}

/// The state after the mode is flipped; the query is cleared either way.
pub open spec fn toggle_view(s: SearchView) -> SearchView {
    SearchView {
        mode: if s.mode == ListMode::Navigating {
            ListMode::Searching
        } else {
            ListMode::Navigating
        },
        query: Seq::empty(),
        last_input: s.last_input,
    }
}

impl SearchView {
    /// A query is only ever held while searching.
    pub open spec fn wf(self) -> bool {
        self.mode == ListMode::Navigating ==> self.query.len() == 0
    }
}

impl SearchState {
    pub fn new() -> (r: SearchState)
        ensures
            r@ == idle_view(),
    {
        SearchState { mode: ListMode::Navigating, query: Vec::new(), last_input: None }
    }

    pub fn mode(&self) -> (r: ListMode)
        ensures
            r == self@.mode,
    {
        self.mode
    }

    /// The query as a vector of characters.
    pub fn query(&self) -> (r: Vec<char>)
        ensures
            r@ == self@.query,
    {
        self.query.clone()
    }

    /// Flips between navigating and searching, clearing the query.
    pub fn toggle_mode(&mut self)
        ensures
            final(self)@ == toggle_view(old(self)@),
    {
        if self.mode == ListMode::Navigating {
            self.mode = ListMode::Searching;
        } else {
            self.mode = ListMode::Navigating;
        }
        self.query.clear();
    }

    /// Appends `c` to the query and restarts the idle timer at `now`.
    pub fn push_char(&mut self, c: char, now: u64)
        ensures
            final(self)@ == (SearchView {
                mode: old(self)@.mode,
                query: old(self)@.query.push(c),
                last_input: Some(now),
            }),
    {
        self.query.push(c);
        self.last_input = Some(now);
    }

    /// Drops the last character of the query (if any) and restarts the idle
    /// timer at `now`.
    pub fn pop_char(&mut self, now: u64)
        ensures
            final(self)@ == (SearchView {
                mode: old(self)@.mode,
                query: if old(self)@.query.len() == 0 {
                    old(self)@.query
                } else {
                    old(self)@.query.drop_last()
                },
                last_input: Some(now),
            }),
    {
        self.query.pop();
        self.last_input = Some(now);
    }

    /// Forces the idle state: navigating, empty query, no timer.
    pub fn reset(&mut self)
        ensures
            final(self)@ == idle_view(),
    {
        self.query.clear();
        self.last_input = None;
        self.mode = ListMode::Navigating;
    }

    /// Resets the search once `SEARCH_TIMEOUT_MS` have passed since the last
    /// query edit.
    pub fn tick(&mut self, now: u64)
        ensures
            final(self)@ == tick_view(old(self)@, now),
    {
        if let Some(last) = self.last_input {
            if now >= last && now - last >= SEARCH_TIMEOUT_MS {
                self.reset();
            }
        }
    }
}

/// Checking the timer twice at the same instant is the same as checking it
/// once.
pub proof fn lemma_tick_idempotent(s: SearchView, now: u64)
    ensures
        tick_view(tick_view(s, now), now) == tick_view(s, now),
{
}

/// Checking the timer when no time has passed since the last edit (or when
/// no edit is pending) changes nothing, however often it is done.
pub proof fn lemma_tick_no_elapsed_time(s: SearchView, now: u64, n: nat)
    requires
        s.last_input is None || s.last_input == Some(now),
    ensures
        tick_view(s, now) == s,
        tick_repeat(s, now, n) == s,
    decreases n,
{
    if n > 0 {
        lemma_tick_no_elapsed_time(s, now, (n - 1) as nat);
    }
}

/// `n` successive timer checks at time `now`.
pub open spec fn tick_repeat(s: SearchView, now: u64, n: nat) -> SearchView
    decreases n,
{
    if n == 0 {
        s
    } else {
        tick_view(tick_repeat(s, now, (n - 1) as nat), now)
    }
}

/// After a query edit at `last`, a check before the timeout keeps the mode and
/// query; a check at or after it returns to navigating with an empty query.
pub proof fn lemma_debounce(s: SearchView, last: u64, now: u64)
    requires
        s.last_input == Some(last),
    ensures
        (now as int) - (last as int) < (SEARCH_TIMEOUT_MS as int) ==> tick_view(s, now) == s,
        now as int - last as int >= SEARCH_TIMEOUT_MS as int ==> tick_view(s, now).mode
            == ListMode::Navigating && tick_view(s, now).query.len() == 0,
{
}

} // verus!
