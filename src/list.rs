use vstd::prelude::*;

use crate::key::{KeyCode, KeyPress};
use crate::search::{tick_view, toggle_view, ListMode, SearchState, SearchView};
use crate::text::{chars_of, contains_chars, contains_seq};

verus! {

/// The suffix shown after a liked title.
pub open spec fn liked_marker() -> Seq<char> {
    seq![' ', '\u{2605}']
}

/// The text shown for a title with the given liked flag.
pub open spec fn display_of(title: Seq<char>, liked: bool) -> Seq<char> {
    if liked {
        title + liked_marker()
    } else {
        title
    }
}

/// The titles of a liked set, as character sequences.
pub open spec fn liked_views(liked: Seq<String>) -> Seq<Seq<char>> {
    liked.map_values(|s: String| s@)
}

/// The character sequences of a vector of strings.
pub open spec fn string_views(v: Seq<String>) -> Seq<Seq<char>> {
    v.map_values(|s: String| s@)
}

/// One entry of the list: a raw title and whether it is liked.
#[derive(Clone, Debug)]
pub struct DisplayItem {
    pub title: String,
    pub liked: bool,
}

impl DisplayItem {
    /// The text to show: the title, followed by the marker when liked.
    pub fn display_text(&self) -> (r: String)
        ensures
            r@ == display_of(self.title@, self.liked),
    {
        let mut r = self.title.clone();
        if self.liked {
            let marker = " \u{2605}";
            proof {
                reveal_strlit(" \u{2605}");
            }
            r.append(marker);
            assert(marker@ =~= liked_marker());
        }
        r
    }
}

/// Is `title` one of the `liked` titles?
fn is_liked(title: &String, liked: &Vec<String>) -> (r: bool)
    ensures
        r == liked_views(liked@).contains(title@),
{
    let mut i: usize = 0;
    while i < liked.len()
        invariant
            i <= liked@.len(),
            forall|j: int| 0 <= j < i ==> liked@[j]@ != title@,
        decreases liked@.len() - i,
    {
        if liked[i] == *title {
            assert(liked_views(liked@)[i as int] == title@);
            return true;
        }
        i = i + 1;
    }
    assert(!liked_views(liked@).contains(title@)) by {
        if liked_views(liked@).contains(title@) {
            let j = choose|j: int| 0 <= j < liked_views(liked@).len() && liked_views(liked@)[j] == title@;
            assert(liked@[j]@ == title@);
        }
    }
    false
}

/// Mathematical model of an [`OptionsList`].
pub ghost struct ListView {
    pub titles: Seq<Seq<char>>,
    pub liked: Seq<bool>,
    pub selected: Option<usize>,
    pub search: SearchView,
    pub focused: bool,
}

impl ListView {
    /// The selection is a valid index, absent exactly when the list is empty.
    pub open spec fn wf(self) -> bool {
        &&& self.liked.len() == self.titles.len()
        &&& self.titles.len() <= usize::MAX
        &&& (self.selected is None <==> self.titles.len() == 0)
        &&& (self.selected matches Some(i) ==> i < self.titles.len())
        &&& self.search.wf()
    }

    /// The same list with another selection.
    pub open spec fn with_selected(self, sel: Option<usize>) -> ListView {
        ListView { selected: sel, ..self }
    }

    /// The same list with another search state.
    pub open spec fn with_search(self, s: SearchView) -> ListView {
        ListView { search: s, ..self }
    }
}

/// The selection a non-empty content set starts with, or none.
pub open spec fn initial_selection(len: nat) -> Option<usize> {
    if len > 0 {
        Some(0)
    } else {
        None
    }
}

/// Entry `i` holds the query as a substring of its raw title.
pub open spec fn is_match(titles: Seq<Seq<char>>, q: Seq<char>, i: int) -> bool {
    0 <= i < titles.len() && contains_seq(titles[i], q)
}

/// The smallest matching index at or after `lo`, if any.
pub open spec fn least_match_from(titles: Seq<Seq<char>>, q: Seq<char>, lo: int) -> Option<int>
    decreases titles.len() - lo,
{
    if lo < 0 || lo >= titles.len() {
        None
    } else if is_match(titles, q, lo) {
        Some(lo)
    } else {
        least_match_from(titles, q, lo + 1)
    }
}

/// Where a search step moves the cursor: from a match to the next match in
/// ascending order, wrapping round to the first; from anywhere else to the
/// first match. `None` when the cursor stays.
pub open spec fn search_target(titles: Seq<Seq<char>>, q: Seq<char>, cur: Option<usize>) -> Option<
    int,
> {
    match cur {
        None => None,
        Some(c) => if is_match(titles, q, c as int) {
            match least_match_from(titles, q, c + 1) {
                Some(j) => Some(j),
                None => least_match_from(titles, q, 0),
            }
        } else {
            least_match_from(titles, q, 0)
        },
    }
}

/// The list after one search step with its current query.
pub open spec fn search_view(v: ListView) -> ListView {
    match search_target(v.titles, v.search.query, v.selected) {
        Some(j) => v.with_selected(Some(j as usize)),
        None => v,
    }
}

/// The list after the cursor moves up by one; the first entry stays put.
pub open spec fn up_view(v: ListView) -> ListView {
    match v.selected {
        Some(i) if i > 0 => v.with_selected(Some((i - 1) as usize)),
        _ => v,
    }
}

/// The list after the cursor moves down by one; the last entry stays put.
pub open spec fn down_view(v: ListView) -> ListView {
    match v.selected {
        Some(i) if i + 1 < v.titles.len() => v.with_selected(Some((i + 1) as usize)),
        _ => v,
    }
}

/// The list after `key` is handled at time `now`.
pub open spec fn key_view(v: ListView, key: KeyPress, now: u64) -> ListView {
    match v.search.mode {
        ListMode::Navigating => match key.code {
            KeyCode::Char(c) if c == 'g' => v.with_search(toggle_view(v.search)),
            KeyCode::Up => up_view(v),
            KeyCode::Down => down_view(v),
            _ => v,
        },
        ListMode::Searching => match key.code {
            KeyCode::Esc => v.with_search(toggle_view(v.search)),
            KeyCode::Backspace => search_view(
                v.with_search(
                    SearchView {
                        query: if v.search.query.len() == 0 {
                            v.search.query
                        } else {
                            v.search.query.drop_last()
                        },
                        last_input: Some(now),
                        ..v.search
                    },
                ),
            ),
            KeyCode::Char(c) => search_view(
                v.with_search(
                    SearchView { query: v.search.query.push(c), last_input: Some(now), ..v.search },
                ),
            ),
            _ => v,
        },
    }
}

/// The selection after `select(idx)` on a list of `len` entries: an index past
/// the end selects the last entry, and `None` is only taken by an empty list.
pub open spec fn select_view(cur: Option<usize>, idx: Option<usize>, len: nat) -> Option<usize> {
    if len == 0 {
        None
    } else {
        match idx {
            Some(i) => if i < len {
                Some(i)
            } else {
                Some((len - 1) as usize)
            },
            None => cur,
        }
    }
}

/// Stripping the marker from a displayed title gives back the raw title:
/// the display text is the raw title, followed by the marker exactly when the
/// entry is liked.
pub proof fn lemma_marker_strips(title: Seq<char>, liked: bool)
    ensures
        display_of(title, liked).subrange(0, title.len() as int) == title,
        liked ==> display_of(title, liked).subrange(
            title.len() as int,
            display_of(title, liked).len() as int,
        ) == liked_marker(),
        !liked ==> display_of(title, liked) == title,
{
    if liked {
        assert(display_of(title, liked).subrange(0, title.len() as int) =~= title);
        assert(display_of(title, liked).subrange(
            title.len() as int,
            display_of(title, liked).len() as int,
        ) =~= liked_marker());
    } else {
        assert(title.subrange(0, title.len() as int) =~= title);
    }
}

/// Reading the raw titles back and installing them again, with the liked
/// flags derived anew, keeps every title and their order; only the flags
/// follow the current liked set.
pub proof fn lemma_refresh_round_trip(
    before: ListView,
    read: Seq<String>,
    liked: Seq<String>,
    after: ListView,
)
    requires
        string_views(read) == before.titles,
        after.titles == string_views(read),
        forall|i: int|
            0 <= i < read.len() ==> after.liked[i] == liked_views(liked).contains(read[i]@),
    ensures
        after.titles == before.titles,
        forall|i: int|
            0 <= i < before.titles.len() ==> after.liked[i] == liked_views(liked).contains(
                before.titles[i],
            ),
{
    assert forall|i: int| 0 <= i < before.titles.len() implies after.liked[i] == liked_views(
        liked,
    ).contains(before.titles[i]) by {
        assert(string_views(read)[i] == read[i]@);
    }
}

/// A search step never leaves the list: the cursor stays where it was, or
/// lands on an entry that holds the query.
pub proof fn lemma_search_lands_on_match(v: ListView)
    requires
        v.wf(),
    ensures
        search_view(v).wf(),
        search_view(v).titles == v.titles,
        search_view(v).selected == v.selected || (search_view(v).selected matches Some(j)
            && is_match(v.titles, v.search.query, j as int)),
{
    let q = v.search.query;
    if let Some(c) = v.selected {
        lemma_least_match_is_match(v.titles, q, 0);
        lemma_least_match_is_match(v.titles, q, c + 1);
    }
}

proof fn lemma_least_match_is_match(titles: Seq<Seq<char>>, q: Seq<char>, lo: int)
    ensures
        least_match_from(titles, q, lo) matches Some(j) ==> lo <= j < titles.len() && is_match(
            titles,
            q,
            j,
        ),
    decreases titles.len() - lo,
{
    if 0 <= lo < titles.len() && !is_match(titles, q, lo) {
        lemma_least_match_is_match(titles, q, lo + 1);
    }
}

/// A selectable list of titles with an incremental search.
#[derive(Debug)]
pub struct OptionsList {
    contents: Vec<DisplayItem>,
    search: SearchState,
    selected: Option<usize>,
    focused: bool,
}

impl View for OptionsList {
    type V = ListView;

    closed spec fn view(&self) -> ListView {
        ListView {
            titles: self.contents@.map_values(|d: DisplayItem| d.title@),
            liked: self.contents@.map_values(|d: DisplayItem| d.liked),
            selected: self.selected,
            search: self.search@,
            focused: self.focused,
        }
    }
}

impl OptionsList {
    /// An empty, unfocused list in navigating mode.
    pub fn new() -> (r: OptionsList)
        ensures
            r@.wf(),
            r@.titles.len() == 0,
            r@.selected is None,
            r@.search == crate::search::idle_view(),
            !r@.focused,
    {
        let r = OptionsList {
            contents: Vec::new(),
            search: SearchState::new(),
            selected: None,
            focused: false,
        };
        assert(r@.titles =~= Seq::<Seq<char>>::empty());
        assert(r@.liked =~= Seq::<bool>::empty());
        r
    }

    pub fn focus(&mut self)
        ensures
            final(self)@ == (ListView { focused: true, ..old(self)@ }),
    {
        self.focused = true;
    }

    pub fn defocus(&mut self)
        ensures
            final(self)@ == (ListView { focused: false, ..old(self)@ }),
    {
        self.focused = false;
    }

    pub fn is_focused(&self) -> (r: bool)
        ensures
            r == self@.focused,
    {
        self.focused
    }

    pub fn mode(&self) -> (r: ListMode)
        ensures
            r == self@.search.mode,
    {
        self.search.mode()
    }

    /// The search query typed so far.
    pub fn query(&self) -> (r: Vec<char>)
        ensures
            r@ == self@.search.query,
    {
        self.search.query()
    }

    pub fn len(&self) -> (r: usize)
        ensures
            r == self@.titles.len(),
    {
        self.contents.len()
    }

    /// The entry at `i`, for display.
    pub fn item(&self, i: usize) -> (r: &DisplayItem)
        requires
            i < self@.titles.len(),
        ensures
            r.title@ == self@.titles[i as int],
            r.liked == self@.liked[i as int],
    {
        &self.contents[i]
    }

    /// Replaces the whole content set. Each title is marked liked when it is
    /// one of `liked`; the cursor goes to the first entry, or to none when
    /// the new set is empty.
    pub fn set_contents(&mut self, contents: Vec<String>, liked: &Vec<String>)
        requires
            old(self)@.wf(),
        ensures
            final(self)@.wf(),
            final(self)@.titles == string_views(contents@),
            forall|i: int|
                0 <= i < contents@.len() ==> final(self)@.liked[i] == liked_views(liked@).contains(
                    contents@[i]@,
                ),
            final(self)@.selected == initial_selection(contents@.len()),
            final(self)@.search == old(self)@.search,
            final(self)@.focused == old(self)@.focused,
    {
        let mut items: Vec<DisplayItem> = Vec::new();
        let mut i: usize = 0;
        while i < contents.len()
            invariant
                i <= contents@.len(),
                items@.len() == i,
                forall|j: int| 0 <= j < i ==> items@[j].title@ == contents@[j]@,
                forall|j: int|
                    0 <= j < i ==> items@[j].liked == liked_views(liked@).contains(contents@[j]@),
            decreases contents@.len() - i,
        {
            let title = contents[i].clone();
            let flag = is_liked(&title, liked);
            items.push(DisplayItem { title, liked: flag });
            i = i + 1;
        }
        self.contents = items;
        if self.contents.len() > 0 {
            self.selected = Some(0);
        } else {
            self.selected = None;
        }
        assert(self@.titles =~= string_views(contents@));
    }

    /// The raw titles, in display order, without any marker.
    pub fn get_contents(&self) -> (r: Vec<String>)
        ensures
            string_views(r@) == self@.titles,
    {
        let mut r: Vec<String> = Vec::new();
        let mut i: usize = 0;
        while i < self.contents.len()
            invariant
                i <= self@.titles.len(),
                r@.len() == i,
                forall|j: int| 0 <= j < i ==> r@[j]@ == self@.titles[j],
            decreases self@.titles.len() - i,
        {
            r.push(self.contents[i].title.clone());
            i = i + 1;
        }
        assert(string_views(r@) =~= self@.titles);
        r
    }

    /// The selected index, if any.
    pub fn current(&self) -> (r: Option<usize>)
        ensures
            r == self@.selected,
    {
        self.selected
    }

    /// The raw title of the selected entry, without any marker.
    pub fn current_value(&self) -> (r: Option<String>)
        requires
            self@.wf(),
        ensures
            r is None <==> self@.selected is None,
            self@.selected matches Some(i) ==> r matches Some(s) && s@ == self@.titles[i as int],
    {
        match self.selected {
            Some(i) => Some(self.contents[i].title.clone()),
            None => None,
        }
    }
    /// The smallest index at or after `lo` whose title contains `q`.
    fn first_match_from(&self, q: &Vec<char>, lo: usize) -> (r: Option<usize>)
        ensures
            r matches Some(j) ==> j < self@.titles.len() && least_match_from(
                self@.titles,
                q@,
                lo as int,
            ) == Some(j as int),
            r is None ==> least_match_from(self@.titles, q@, lo as int) is None,
    {
        let mut i: usize = lo;
        while i < self.contents.len()
            invariant
                lo <= i,
                least_match_from(self@.titles, q@, lo as int) == least_match_from(
                    self@.titles,
                    q@,
                    i as int,
                ),
            decreases self@.titles.len() - i,
        {
            let t = chars_of(self.contents[i].title.as_str());
            if contains_chars(&t, q) {
                return Some(i);
            }
            i = i + 1;
        }
        None
    }

    /// Moves the cursor by one search step with the current query.
    pub fn search(&mut self)
        requires
            old(self)@.wf(),
        ensures
            final(self)@ == search_view(old(self)@),
            final(self)@.wf(),
    {
        let q = self.search.query();
        let n = self.contents.len();
        if let Some(cur) = self.selected {
            let t = chars_of(self.contents[cur].title.as_str());
            if contains_chars(&t, &q) {
                if let Some(j) = self.first_match_from(&q, cur + 1) {
                    self.selected = Some(j);
                    return;
                }
            }
            if let Some(j) = self.first_match_from(&q, 0) {
                self.selected = Some(j);
            }
        }
    }

    fn up(&mut self)
        requires
            old(self)@.wf(),
        ensures
            final(self)@ == up_view(old(self)@),
    {
        if let Some(i) = self.selected {
            if i > 0 {
                self.selected = Some(i - 1);
            }
        }
    }

    fn down(&mut self)
        requires
            old(self)@.wf(),
        ensures
            final(self)@ == down_view(old(self)@),
    {
        let n = self.contents.len();
        if let Some(i) = self.selected {
            if i + 1 < n {
                self.selected = Some(i + 1);
            }
        }
    }

    /// Handles a key press at time `now` (milliseconds): in navigating mode
    /// `g` starts a search and Up / Down move the cursor; while searching Esc
    /// leaves the search, Backspace and characters edit the query and move the
    /// cursor to a match.
    pub fn handle_key_event(&mut self, key: KeyPress, now: u64)
        requires
            old(self)@.wf(),
        ensures
            final(self)@ == key_view(old(self)@, key, now),
            final(self)@.wf(),
    {
        match self.search.mode() {
            ListMode::Navigating => match key.code {
                KeyCode::Char(c) => {
                    if c == 'g' {
                        self.search.toggle_mode();
                    }
                },
                KeyCode::Up => self.up(),
                KeyCode::Down => self.down(),
                _ => {},
            },
            ListMode::Searching => match key.code {
                KeyCode::Esc => self.search.toggle_mode(),
                KeyCode::Backspace => {
                    self.search.pop_char(now);
                    self.search();
                },
                KeyCode::Char(c) => {
                    self.search.push_char(c, now);
                    self.search();
                },
                _ => {},
            },
        }
    }

    /// Checks the search's idle timer at time `now` (milliseconds).
    pub fn tick(&mut self, now: u64)
        requires
            old(self)@.wf(),
        ensures
            final(self)@ == old(self)@.with_search(tick_view(old(self)@.search, now)),
            final(self)@.wf(),
    {
        self.search.tick(now);
    }

    /// Moves the cursor to `idx`; see [`select_view`] for indices past the end
    /// and for `None`.
    pub fn select(&mut self, idx: Option<usize>)
        requires
            old(self)@.wf(),
        ensures
            final(self)@ == old(self)@.with_selected(
                select_view(old(self)@.selected, idx, old(self)@.titles.len()),
            ),
            final(self)@.wf(),
    {
        let len = self.contents.len();
        if len == 0 {
            self.selected = None;
        } else {
            match idx {
                Some(i) => {
                    if i < len {
                        self.selected = Some(i);
                    } else {
                        self.selected = Some(len - 1);
                    }
                },
                None => {},
            }
        }
    }
}

} // verus!
