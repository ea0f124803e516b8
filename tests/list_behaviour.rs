use tui_menu::{
    build_highlighted_item, span_in_folded, Highlighted, KeyCode, KeyPress, ListMode, OptionsList,
    SearchState,
};

fn strings(v: &[&str]) -> Vec<String> {
    v.iter().map(|s| s.to_string()).collect()
}

fn key(code: KeyCode) -> KeyPress {
    KeyPress::new(code, false)
}

fn anime_list() -> OptionsList {
    let mut list = OptionsList::new();
    list.set_contents(
        strings(&["Naruto", "One Piece", "Bleach", "Naruto Shippuden"]),
        &Vec::new(),
    );
    list
}

#[test]
fn set_contents_selects_first_entry() {
    let mut list = OptionsList::new();
    assert_eq!(list.current(), None);
    list.set_contents(strings(&["a", "b"]), &Vec::new());
    assert_eq!(list.current(), Some(0));
    list.select(Some(1));
    list.set_contents(strings(&["c", "d", "e"]), &Vec::new());
    assert_eq!(list.current(), Some(0));
}

#[test]
fn set_contents_empty_clears_selection() {
    let mut list = anime_list();
    list.set_contents(Vec::new(), &Vec::new());
    assert_eq!(list.current(), None);
    assert_eq!(list.current_value(), None);
    assert!(list.get_contents().is_empty());
}

#[test]
fn current_value_is_raw_title_for_liked_entry() {
    let mut list = OptionsList::new();
    list.set_contents(strings(&["Bleach", "Naruto"]), &strings(&["Bleach"]));
    assert_eq!(list.current_value(), Some("Bleach".to_string()));
    assert!(list.item(0).liked);
    assert!(!list.item(1).liked);
    assert_eq!(list.item(0).display_text(), "Bleach \u{2605}");
    assert_eq!(list.item(1).display_text(), "Naruto");
    list.select(Some(1));
    assert_eq!(list.current_value(), Some("Naruto".to_string()));
}

#[test]
fn get_contents_round_trip_keeps_titles() {
    let mut list = OptionsList::new();
    let titles = strings(&["Naruto", "One Piece", "Bleach"]);
    list.set_contents(titles.clone(), &strings(&["One Piece"]));
    let read = list.get_contents();
    assert_eq!(read, titles);
    list.set_contents(read, &strings(&["Naruto"]));
    assert_eq!(list.get_contents(), titles);
    assert!(list.item(0).liked);
    assert!(!list.item(1).liked);
}

#[test]
fn up_and_down_stop_at_the_ends() {
    let mut list = anime_list();
    list.handle_key_event(key(KeyCode::Up), 0);
    assert_eq!(list.current(), Some(0));
    for _ in 0..10 {
        list.handle_key_event(key(KeyCode::Down), 0);
    }
    assert_eq!(list.current(), Some(3));
    list.handle_key_event(key(KeyCode::Up), 0);
    assert_eq!(list.current(), Some(2));
}

#[test]
fn g_enters_search_and_esc_leaves_it() {
    let mut list = anime_list();
    assert_eq!(list.mode(), ListMode::Navigating);
    list.handle_key_event(key(KeyCode::Char('g')), 0);
    assert_eq!(list.mode(), ListMode::Searching);
    list.handle_key_event(key(KeyCode::Char('B')), 10);
    assert_eq!(list.query(), vec!['B']);
    assert_eq!(list.current(), Some(2));
    list.handle_key_event(key(KeyCode::Esc), 20);
    assert_eq!(list.mode(), ListMode::Navigating);
    assert!(list.query().is_empty());
    assert_eq!(list.current(), Some(2));
}

#[test]
fn cyclic_search_wraps_round() {
    let mut list = anime_list();
    list.handle_key_event(key(KeyCode::Char('g')), 0);
    for c in "Naruto".chars() {
        list.handle_key_event(key(KeyCode::Char(c)), 0);
    }
    assert_eq!(list.query(), "Naruto".chars().collect::<Vec<char>>());
    assert_eq!(list.current(), Some(0));
    list.search();
    assert_eq!(list.current(), Some(3));
    list.search();
    assert_eq!(list.current(), Some(0));
}

#[test]
fn search_is_case_sensitive_and_stays_without_match() {
    let mut list = anime_list();
    list.select(Some(1));
    list.handle_key_event(key(KeyCode::Char('g')), 0);
    list.handle_key_event(key(KeyCode::Char('b')), 0);
    assert_eq!(list.current(), Some(1));
    list.handle_key_event(key(KeyCode::Char('x')), 0);
    assert_eq!(list.current(), Some(1));
}

#[test]
fn search_from_non_match_goes_to_first_match() {
    let mut list = anime_list();
    list.select(Some(2));
    list.handle_key_event(key(KeyCode::Char('g')), 0);
    list.handle_key_event(key(KeyCode::Char('N')), 0);
    assert_eq!(list.current(), Some(0));
}

#[test]
fn backspace_edits_query_and_searches() {
    let mut list = anime_list();
    list.handle_key_event(key(KeyCode::Char('g')), 0);
    list.handle_key_event(key(KeyCode::Char('O')), 0);
    assert_eq!(list.current(), Some(1));
    list.handle_key_event(key(KeyCode::Char('z')), 0);
    list.handle_key_event(key(KeyCode::Backspace), 0);
    assert_eq!(list.query(), vec!['O']);
    assert_eq!(list.current(), Some(1));
}

#[test]
fn tick_without_elapsed_time_changes_nothing() {
    let mut list = anime_list();
    list.handle_key_event(key(KeyCode::Char('g')), 1000);
    list.handle_key_event(key(KeyCode::Char('B')), 1000);
    for _ in 0..5 {
        list.tick(1000);
    }
    assert_eq!(list.mode(), ListMode::Searching);
    assert_eq!(list.query(), vec!['B']);
}

#[test]
fn debounce_resets_after_timeout() {
    let mut list = anime_list();
    list.handle_key_event(key(KeyCode::Char('g')), 1000);
    list.handle_key_event(key(KeyCode::Char('B')), 1000);
    list.tick(1299);
    assert_eq!(list.mode(), ListMode::Searching);
    assert_eq!(list.query(), vec!['B']);
    list.tick(1300);
    assert_eq!(list.mode(), ListMode::Navigating);
    assert!(list.query().is_empty());
    assert_eq!(list.current(), Some(2));
}

#[test]
fn search_state_timer_only_runs_after_edits() {
    let mut s = SearchState::new();
    s.toggle_mode();
    s.tick(1_000_000);
    assert_eq!(s.mode(), ListMode::Searching);
    s.push_char('a', 10);
    s.tick(5);
    assert_eq!(s.mode(), ListMode::Searching);
    s.pop_char(20);
    s.tick(319);
    assert_eq!(s.mode(), ListMode::Searching);
    s.tick(320);
    assert_eq!(s.mode(), ListMode::Navigating);
}

#[test]
fn select_past_end_takes_last() {
    let mut list = anime_list();
    list.select(Some(2));
    assert_eq!(list.current(), Some(2));
    list.select(Some(40));
    assert_eq!(list.current(), Some(3));
    list.select(None);
    assert_eq!(list.current(), Some(3));
}

#[test]
fn focus_hooks_set_flag() {
    let mut list = OptionsList::new();
    assert!(!list.is_focused());
    list.focus();
    assert!(list.is_focused());
    list.defocus();
    assert!(!list.is_focused());
}

#[test]
fn highlight_ignores_case() {
    match build_highlighted_item("One Piece", "PIECE") {
        Highlighted::Marked { before, matched, after } => {
            assert_eq!(before, "One ");
            assert_eq!(matched, "Piece");
            assert_eq!(after, "");
        }
        Highlighted::Plain(_) => panic!("expected a match"),
    }
}

#[test]
fn highlight_plain_without_query_or_match() {
    match build_highlighted_item("Bleach", "") {
        Highlighted::Plain(s) => assert_eq!(s, "Bleach"),
        _ => panic!("expected plain text"),
    }
    match build_highlighted_item("Bleach", "xyz") {
        Highlighted::Plain(s) => assert_eq!(s, "Bleach"),
        _ => panic!("expected plain text"),
    }
}

#[test]
fn highlight_first_occurrence_in_middle() {
    match build_highlighted_item("Naruto Shippuden", "p") {
        Highlighted::Marked { before, matched, after } => {
            assert_eq!(before, "Naruto Shi");
            assert_eq!(matched, "p");
            assert_eq!(after, "puden");
        }
        Highlighted::Plain(_) => panic!("expected a match"),
    }
}

#[test]
fn span_in_folded_positions() {
    assert_eq!(span_in_folded("one piece", "piece", 9), Some((4, 9)));
    assert_eq!(span_in_folded("one piece", "piece", 8), None);
    assert_eq!(span_in_folded("one piece", "x", 9), None);
    assert_eq!(span_in_folded("abcabc", "c", 6), Some((2, 3)));
}
