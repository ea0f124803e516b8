use vstd::prelude::*;

use crate::convert::{decimal_i32, parse_i32, string_from_chars};
use crate::key::{KeyCode, KeyPress};
use crate::list::{key_view, liked_views, string_views, ListView, OptionsList};
use crate::search::tick_view;

verus! {

/// Which part of the screen receives keys. The parts form the ring
/// Input, List, Servers.
#[derive(Clone, Copy, Debug, PartialEq, Eq, Structural)]
pub enum Focus {
    Input,
    List,
    Servers,
}

/// Whether the list holds series or the episodes of one series.
#[derive(Clone, Copy, Debug, PartialEq, Eq, Structural)]
pub enum Stage {
    SeriesSelect,
    EpisodeSelect,
}

/// The focus after Tab.
pub open spec fn next_focus(f: Focus) -> Focus {
    match f {
        Focus::Input => Focus::List,
        Focus::List => Focus::Servers,
        Focus::Servers => Focus::Input,
    }
}

/// The focus after Shift-Tab.
pub open spec fn prev_focus(f: Focus) -> Focus {
    match f {
        Focus::Input => Focus::Servers,
        Focus::Servers => Focus::List,
        Focus::List => Focus::Input,
    }
}

/// Tab and Shift-Tab walk the same ring in opposite directions.
pub proof fn lemma_focus_ring(f: Focus)
    ensures
        prev_focus(next_focus(f)) == f,
        next_focus(prev_focus(f)) == f,
        next_focus(next_focus(next_focus(f))) == f,
        next_focus(Focus::Servers) == Focus::Input,
        prev_focus(Focus::Input) == Focus::Servers,
{
}

/// Work that only the caller can do, asked for by [`App::handle_key_event`].
/// Each one is answered through the matching method of [`App`].
#[derive(Clone, Debug)]
pub enum Action {
    /// Nothing to do outside.
    Nothing,
    /// Load the liked titles and hand them to [`App::show_liked`].
    ShowLiked,
    /// Flip the liked flag of this title, then call [`App::liked_toggled`].
    ToggleLiked(String),
    /// Look the text up and hand the result to [`App::query_resolved`].
    ResolveQuery(String),
    /// Fetch the episodes of this series and hand them to
    /// [`App::series_resolved`].
    ResolveSeries(usize),
    /// Resolve and play this episode, and report to [`App::episode_done`].
    ResolveEpisode(i32),
    /// Hand this key to the server selector.
    ToServers(KeyPress),
}

/// Mathematical model of an [`App`].
pub ghost struct AppView {
    pub exit: bool,
    pub focus: Focus,
    pub stage: Stage,
    pub errors: Seq<Seq<char>>,
    pub input: Seq<char>,
    pub list: ListView,
}

impl AppView {
    pub open spec fn wf(self) -> bool {
        &&& self.list.wf()
        &&& self.list.focused == (self.focus == Focus::List)
    }

    /// The same state with focus moved to `f`, the list told whether it has it.
    pub open spec fn with_focus(self, f: Focus) -> AppView {
        AppView {
            focus: f,
            list: ListView { focused: f == Focus::List, ..self.list },
            ..self
        }
    }

    /// The title under the list's cursor.
    pub open spec fn selected_title(self) -> Option<Seq<char>> {
        match self.list.selected {
            Some(i) => Some(self.list.titles[i as int]),
            None => None,
        }
    }
}

/// Control-C or Control-Esc.
pub open spec fn is_quit(k: KeyPress) -> bool {
    k.ctrl && (k.code == KeyCode::Esc || k.code == KeyCode::Char('c'))
}

/// The input field after `k`: characters are appended, Backspace drops the
/// last one, other keys do nothing.
pub open spec fn input_after(input: Seq<char>, k: KeyPress) -> Seq<char> {
    match k.code {
        KeyCode::Char(c) if !k.ctrl => input.push(c),
        KeyCode::Backspace => if input.len() > 0 {
            input.drop_last()
        } else {
            input
        },
        _ => input,
    }
}

/// The error message for a list entry that is not an episode number.
pub open spec fn bad_episode_message(title: Seq<char>) -> Seq<char> {
    "not an episode number: "@ + title
}

/// What a key does when no error is shown: the state after it, and the
/// action asked of the caller.
pub open spec fn dispatch(v: AppView, k: KeyPress, now: u64, w: AppView, a: Action) -> bool {
    if is_quit(k) {
        w == AppView { exit: true, ..v } && a is Nothing
    } else if k.ctrl && k.code == KeyCode::Char('l') {
        w == v && a is ShowLiked
    } else if k.code == KeyCode::Char('l') && v.stage == Stage::SeriesSelect && v.focus
        == Focus::List {
        w == v && match v.selected_title() {
            Some(t) => (a matches Action::ToggleLiked(s) && s@ == t),
            None => a is Nothing,
        }
    } else if k.code == KeyCode::BackTab {
        w == v.with_focus(prev_focus(v.focus)) && a is Nothing
    } else if k.code == KeyCode::Tab {
        w == v.with_focus(next_focus(v.focus)) && a is Nothing
    } else if k.code == KeyCode::Enter {
        match v.focus {
            Focus::Input => w == v && (a matches Action::ResolveQuery(s) && s@ == v.input),
            Focus::List => match (v.stage, v.list.selected) {
                (Stage::SeriesSelect, Some(i)) => w == v && a == Action::ResolveSeries(i),
                (Stage::EpisodeSelect, Some(i)) => match decimal_i32(v.list.titles[i as int]) {
                    Some(n) => w == v && a == Action::ResolveEpisode(n),
                    None => w == AppView {
                        errors: v.errors.push(bad_episode_message(v.list.titles[i as int])),
                        ..v
                    } && a is Nothing,
                },
                _ => w == v && a is Nothing,
            },
            Focus::Servers => w == v && a is Nothing,
        }
    } else {
        match v.focus {
            Focus::Input => w == AppView { input: input_after(v.input, k), ..v } && a is Nothing,
            Focus::List => w == AppView { list: key_view(v.list, k, now), ..v } && a is Nothing,
            Focus::Servers => w == v && a == Action::ToServers(k),
        }
    }
}

/// The top-level state: focus, workflow stage, queued error messages, the
/// text of the input field, and the list.
#[derive(Debug)]
pub struct App {
    exit: bool,
    focus: Focus,
    stage: Stage,
    errors: Vec<String>,
    input: Vec<char>,
    list: OptionsList,
}

impl View for App {
    type V = AppView;

    closed spec fn view(&self) -> AppView {
        AppView {
            exit: self.exit,
            focus: self.focus,
            stage: self.stage,
            errors: string_views(self.errors@),
            input: self.input@,
            list: self.list@,
        }
    }
}

impl App {
    /// Focus on the input field, series stage, nothing queued, empty list.
    pub fn new() -> (r: App)
        ensures
            r@.wf(),
            !r@.exit,
            r@.focus == Focus::Input,
            r@.stage == Stage::SeriesSelect,
            r@.errors.len() == 0,
            r@.input.len() == 0,
            r@.list.titles.len() == 0,
    {
        let r = App {
            exit: false,
            focus: Focus::Input,
            stage: Stage::SeriesSelect,
            errors: Vec::new(),
            input: Vec::new(),
            list: OptionsList::new(),
        };
        assert(r@.errors =~= Seq::<Seq<char>>::empty());
        r
    }

    pub fn should_exit(&self) -> (r: bool)
        ensures
            r == self@.exit,
    {
        self.exit
    }

    pub fn focus(&self) -> (r: Focus)
        ensures
            r == self@.focus,
    {
        self.focus
    }

    pub fn stage(&self) -> (r: Stage)
        ensures
            r == self@.stage,
    {
        self.stage
    }

    /// The queued error messages, oldest first.
    pub fn errors(&self) -> (r: Vec<String>)
        ensures
            string_views(r@) == self@.errors,
    {
        let r = self.errors.clone();
        assert(r@ == self.errors@);
        r
    }

    /// The text of the input field.
    pub fn input(&self) -> (r: String)
        ensures
            r@ == self@.input,
    {
        string_from_chars(&self.input)
    }

    pub fn list(&self) -> (r: &OptionsList)
        ensures
            r@ == self@.list,
    {
        &self.list
    }

    /// Moves the focus to `f`, telling the list whether it gains or loses it.
    fn set_focus(&mut self, f: Focus)
        requires
            old(self)@.wf(),
        ensures
            final(self)@ == old(self)@.with_focus(f),
            final(self)@.wf(),
    {
        if self.focus == Focus::List {
            self.list.defocus();
        }
        if f == Focus::List {
            self.list.focus();
        }
        self.focus = f;
    }

    fn change_focus_forward(&mut self)
        requires
            old(self)@.wf(),
        ensures
            final(self)@ == old(self)@.with_focus(next_focus(old(self)@.focus)),
            final(self)@.wf(),
    {
        let f = match self.focus {
            Focus::Input => Focus::List,
            Focus::List => Focus::Servers,
            Focus::Servers => Focus::Input,
        };
        self.set_focus(f);
    }

    fn change_focus_backwards(&mut self)
        requires
            old(self)@.wf(),
        ensures
            final(self)@ == old(self)@.with_focus(prev_focus(old(self)@.focus)),
            final(self)@.wf(),
    {
        let f = match self.focus {
            Focus::Input => Focus::Servers,
            Focus::Servers => Focus::List,
            Focus::List => Focus::Input,
        };
        self.set_focus(f);
    }

    /// Enter on the list: fetch the episodes of the selected series, or play
    /// the selected episode.
    fn handle_enter_list(&mut self) -> (r: Action)
        requires
            old(self)@.wf(),
            old(self)@.focus == Focus::List,
        ensures
            dispatch(old(self)@, KeyPress { code: KeyCode::Enter, ctrl: false }, 0, final(self)@, r),
            final(self)@.wf(),
    {
        match (self.stage, self.list.current()) {
            (Stage::SeriesSelect, Some(i)) => Action::ResolveSeries(i),
            (Stage::EpisodeSelect, Some(i)) => {
                let title = self.list.current_value();
                match title {
                    Some(t) => match parse_i32(t.as_str()) {
                        Some(n) => Action::ResolveEpisode(n),
                        None => {
                            let mut msg = String::from_str("not an episode number: ");
                            proof {
                                reveal_strlit("not an episode number: ");
                            }
                            msg.append(t.as_str());
                            self.errors.push(msg);
                            assert(self@.errors =~= old(self)@.errors.push(
                                bad_episode_message(old(self)@.list.titles[i as int]),
                            ));
                            Action::Nothing
                        },
                    },
                    None => Action::Nothing,
                }
            },
            _ => Action::Nothing,
        }
    }

    /// Routes a key press at time `now` (milliseconds). While errors are
    /// queued, any key only clears them. Otherwise see [`dispatch`]: the
    /// returned action is work for the caller, whose outcome comes back
    /// through the matching method.
    pub fn handle_key_event(&mut self, key: KeyPress, now: u64) -> (r: Action)
        requires
            old(self)@.wf(),
        ensures
            final(self)@.wf(),
            old(self)@.errors.len() > 0 ==> final(self)@ == (AppView {
                errors: Seq::empty(),
                ..old(self)@
            }) && r is Nothing,
            old(self)@.errors.len() == 0 ==> dispatch(old(self)@, key, now, final(self)@, r),
    {
        if self.errors.len() > 0 {
            self.errors.clear();
            assert(self@.errors =~= Seq::<Seq<char>>::empty());
            return Action::Nothing;
        }
        let ctrl = key.ctrl;
        match key.code {
            KeyCode::Esc if ctrl => {
                self.exit = true;
                return Action::Nothing;
            },
            KeyCode::Char('c') if ctrl => {
                self.exit = true;
                return Action::Nothing;
            },
            KeyCode::Char('l') if ctrl => {
                return Action::ShowLiked;
            },
            KeyCode::Char('l') if self.stage == Stage::SeriesSelect && self.focus == Focus::List => {
                return match self.list.current_value() {
                    Some(t) => Action::ToggleLiked(t),
                    None => Action::Nothing,
                };
            },
            KeyCode::BackTab => {
                self.change_focus_backwards();
                return Action::Nothing;
            },
            KeyCode::Tab => {
                self.change_focus_forward();
                return Action::Nothing;
            },
            KeyCode::Enter => {
                return match self.focus {
                    Focus::Input => Action::ResolveQuery(string_from_chars(&self.input)),
                    Focus::List => self.handle_enter_list(),
                    Focus::Servers => Action::Nothing,
                };
            },
            _ => {},
        }
        match self.focus {
            Focus::Input => {
                match key.code {
                    KeyCode::Char(c) => {
                        if !ctrl {
                            self.input.push(c);
                        }
                    },
                    KeyCode::Backspace => {
                        self.input.pop();
                    },
                    _ => {},
                }
                Action::Nothing
            },
            Focus::List => {
                self.list.handle_key_event(key, now);
                Action::Nothing
            },
            Focus::Servers => Action::ToServers(key),
        }
    }

    /// Checks the list's search timer at time `now` (milliseconds).
    pub fn tick(&mut self, now: u64)
        requires
            old(self)@.wf(),
        ensures
            final(self)@ == (AppView {
                list: old(self)@.list.with_search(tick_view(old(self)@.list.search, now)),
                ..old(self)@
            }),
            final(self)@.wf(),
    {
        self.list.tick(now);
    }
    /// Shows the liked titles: they become the list's content (all marked),
    /// the stage goes back to series, the input is cleared and the list gets
    /// the focus.
    pub fn show_liked(&mut self, liked: Vec<String>)
        requires
            old(self)@.wf(),
        ensures
            final(self)@.wf(),
            final(self)@.list.titles == string_views(liked@),
            forall|i: int| 0 <= i < liked@.len() ==> #[trigger] final(self)@.list.liked[i],
            final(self)@.list.selected == crate::list::initial_selection(liked@.len()),
            final(self)@.list.search == old(self)@.list.search,
            final(self)@.stage == Stage::SeriesSelect,
            final(self)@.focus == Focus::List,
            final(self)@.input.len() == 0,
            final(self)@.errors == old(self)@.errors,
            final(self)@.exit == old(self)@.exit,
    {
        let titles = liked.clone();
        self.list.set_contents(titles, &liked);
        assert forall|i: int| 0 <= i < liked@.len() implies #[trigger] self@.list.liked[i] by {
            assert(liked_views(liked@)[i] == liked@[i]@);
        }
        self.stage = Stage::SeriesSelect;
        self.input.clear();
        self.set_focus(Focus::List);
    }

    /// Redraws the liked markers after the caller flipped a title's liked
    /// flag: the same titles in the same order, each marked by `liked`, and
    /// the cursor where it was.
    pub fn liked_toggled(&mut self, liked: &Vec<String>)
        requires
            old(self)@.wf(),
        ensures
            final(self)@.wf(),
            final(self)@.list.titles == old(self)@.list.titles,
            forall|i: int|
                0 <= i < old(self)@.list.titles.len() ==> final(self)@.list.liked[i]
                    == liked_views(liked@).contains(old(self)@.list.titles[i]),
            final(self)@.list.selected == old(self)@.list.selected,
            final(self)@.list.search == old(self)@.list.search,
            final(self)@.list.focused == old(self)@.list.focused,
            final(self)@.focus == old(self)@.focus,
            final(self)@.stage == old(self)@.stage,
            final(self)@.input == old(self)@.input,
            final(self)@.errors == old(self)@.errors,
            final(self)@.exit == old(self)@.exit,
    {
        let selected = self.list.current();
        let titles = self.list.get_contents();
        self.list.set_contents(titles, liked);
        self.list.select(selected);
    }

    /// The outcome of looking up the input text. On success the results
    /// become the list's content, the list gets the focus, the input is
    /// cleared and the stage is series; on failure the message is queued and
    /// nothing else changes.
    pub fn query_resolved(&mut self, result: Result<Vec<String>, String>, liked: &Vec<String>)
        requires
            old(self)@.wf(),
        ensures
            final(self)@.wf(),
            final(self)@.exit == old(self)@.exit,
            match result {
                Ok(titles) => {
                    &&& final(self)@.list.titles == string_views(titles@)
                    &&& forall|i: int|
                        0 <= i < titles@.len() ==> final(self)@.list.liked[i]
                            == liked_views(liked@).contains(titles@[i]@)
                    &&& final(self)@.list.selected == crate::list::initial_selection(
                        titles@.len(),
                    )
                    &&& final(self)@.list.search == old(self)@.list.search
                    &&& final(self)@.focus == Focus::List
                    &&& final(self)@.input.len() == 0
                    &&& final(self)@.stage == Stage::SeriesSelect
                    &&& final(self)@.errors == old(self)@.errors
                },
                Err(e) => final(self)@ == (AppView {
                    errors: old(self)@.errors.push(e@),
                    ..old(self)@
                }),
            },
    {
        match result {
            Ok(titles) => {
                self.set_focus(Focus::List);
                self.list.set_contents(titles, liked);
                self.input.clear();
                self.stage = Stage::SeriesSelect;
            },
            Err(e) => {
                let ghost before = self@.errors;
                self.errors.push(e);
                assert(self@.errors =~= before.push(e@));
            },
        }
    }

    /// The outcome of fetching the selected series' episodes. On success the
    /// episode labels become the list's content and the stage is episodes; on
    /// failure the message is queued and nothing else changes.
    pub fn series_resolved(&mut self, result: Result<Vec<String>, String>, liked: &Vec<String>)
        requires
            old(self)@.wf(),
        ensures
            final(self)@.wf(),
            match result {
                Ok(episodes) => {
                    &&& final(self)@.list.titles == string_views(episodes@)
                    &&& forall|i: int|
                        0 <= i < episodes@.len() ==> final(self)@.list.liked[i]
                            == liked_views(liked@).contains(episodes@[i]@)
                    &&& final(self)@.list.selected == crate::list::initial_selection(
                        episodes@.len(),
                    )
                    &&& final(self)@.list.search == old(self)@.list.search
                    &&& final(self)@.list.focused == old(self)@.list.focused
                    &&& final(self)@.stage == Stage::EpisodeSelect
                    &&& final(self)@.focus == old(self)@.focus
                    &&& final(self)@.input == old(self)@.input
                    &&& final(self)@.errors == old(self)@.errors
                    &&& final(self)@.exit == old(self)@.exit
                },
                Err(e) => final(self)@ == (AppView {
                    errors: old(self)@.errors.push(e@),
                    ..old(self)@
                }),
            },
    {
        match result {
            Ok(episodes) => {
                self.list.set_contents(episodes, liked);
                self.stage = Stage::EpisodeSelect;
            },
            Err(e) => {
                let ghost before = self@.errors;
                self.errors.push(e);
                assert(self@.errors =~= before.push(e@));
            },
        }
    }

    /// The outcome of resolving and playing an episode: a failure queues its
    /// message; nothing else changes either way.
    pub fn episode_done(&mut self, result: Result<(), String>)
        requires
            old(self)@.wf(),
        ensures
            final(self)@.wf(),
            match result {
                Ok(()) => final(self)@ == old(self)@,
                Err(e) => final(self)@ == (AppView {
                    errors: old(self)@.errors.push(e@),
                    ..old(self)@
                }),
            },
    {
        if let Err(e) = result {
            let ghost before = self@.errors;
            self.errors.push(e);
            assert(self@.errors =~= before.push(e@));
        }
    }
}

} // verus!
