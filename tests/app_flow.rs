use tui_menu::{Action, App, Focus, KeyCode, KeyPress, Stage};

fn strings(v: &[&str]) -> Vec<String> {
    v.iter().map(|s| s.to_string()).collect()
}

fn key(code: KeyCode) -> KeyPress {
    KeyPress::new(code, false)
}

fn ctrl(code: KeyCode) -> KeyPress {
    KeyPress::new(code, true)
}

fn type_text(app: &mut App, text: &str) {
    for c in text.chars() {
        let a = app.handle_key_event(key(KeyCode::Char(c)), 0);
        assert!(matches!(a, Action::Nothing));
    }
}

fn app_with_series(titles: &[&str]) -> App {
    let mut app = App::new();
    app.query_resolved(Ok(strings(titles)), &Vec::new());
    app
}

fn app_with_episodes(labels: &[&str]) -> App {
    let mut app = app_with_series(&["One Piece"]);
    match app.handle_key_event(key(KeyCode::Enter), 0) {
        Action::ResolveSeries(i) => assert_eq!(i, 0),
        other => panic!("unexpected action {:?}", other),
    }
    app.series_resolved(Ok(strings(labels)), &Vec::new());
    app
}

#[test]
fn starts_on_input_in_series_stage() {
    let app = App::new();
    assert_eq!(app.focus(), Focus::Input);
    assert_eq!(app.stage(), Stage::SeriesSelect);
    assert!(app.errors().is_empty());
    assert!(!app.should_exit());
}

#[test]
fn enter_on_input_resolves_query() {
    let mut app = App::new();
    type_text(&mut app, "one piece");
    assert_eq!(app.input(), "one piece");
    match app.handle_key_event(key(KeyCode::Enter), 0) {
        Action::ResolveQuery(text) => assert_eq!(text, "one piece"),
        other => panic!("unexpected action {:?}", other),
    }
    app.query_resolved(Ok(strings(&["One Piece"])), &Vec::new());
    assert_eq!(app.focus(), Focus::List);
    assert_eq!(app.stage(), Stage::SeriesSelect);
    assert_eq!(app.list().get_contents(), strings(&["One Piece"]));
    assert_eq!(app.input(), "");
    assert!(app.list().is_focused());
}

#[test]
fn failed_query_only_queues_error() {
    let mut app = App::new();
    type_text(&mut app, "x");
    app.query_resolved(Err("no results".to_string()), &Vec::new());
    assert_eq!(app.errors(), strings(&["no results"]));
    assert_eq!(app.focus(), Focus::Input);
    assert_eq!(app.input(), "x");
}

#[test]
fn input_backspace_removes_last_char() {
    let mut app = App::new();
    type_text(&mut app, "abc");
    app.handle_key_event(key(KeyCode::Backspace), 0);
    assert_eq!(app.input(), "ab");
}

#[test]
fn liked_toggle_keeps_title_and_cursor() {
    let mut app = app_with_series(&["Naruto", "One Piece", "Bleach", "Naruto Shippuden"]);
    app.handle_key_event(key(KeyCode::Down), 0);
    app.handle_key_event(key(KeyCode::Down), 0);
    assert_eq!(app.list().current(), Some(2));
    assert!(!app.list().item(2).liked);
    let title = match app.handle_key_event(key(KeyCode::Char('l')), 0) {
        Action::ToggleLiked(t) => t,
        other => panic!("unexpected action {:?}", other),
    };
    assert_eq!(title, "Bleach");
    app.liked_toggled(&strings(&["Bleach"]));
    assert_eq!(app.list().current(), Some(2));
    assert_eq!(app.list().item(2).title, "Bleach");
    assert!(app.list().item(2).liked);
    assert_eq!(app.list().current_value(), Some("Bleach".to_string()));
    app.liked_toggled(&Vec::new());
    assert_eq!(app.list().current(), Some(2));
    assert!(!app.list().item(2).liked);
}

#[test]
fn failed_episode_link_queues_one_error() {
    let mut app = app_with_episodes(&["1", "2", "3"]);
    assert_eq!(app.stage(), Stage::EpisodeSelect);
    app.handle_key_event(key(KeyCode::Down), 0);
    match app.handle_key_event(key(KeyCode::Enter), 0) {
        Action::ResolveEpisode(n) => assert_eq!(n, 2),
        other => panic!("unexpected action {:?}", other),
    }
    app.episode_done(Err("link not found".to_string()));
    assert_eq!(app.stage(), Stage::EpisodeSelect);
    assert_eq!(app.focus(), Focus::List);
    assert_eq!(app.errors().len(), 1);
    let a = app.handle_key_event(key(KeyCode::Down), 0);
    assert!(matches!(a, Action::Nothing));
    assert!(app.errors().is_empty());
    assert_eq!(app.list().current(), Some(1));
    assert_eq!(app.stage(), Stage::EpisodeSelect);
}

#[test]
fn episode_success_changes_nothing() {
    let mut app = app_with_episodes(&["7"]);
    app.episode_done(Ok(()));
    assert!(app.errors().is_empty());
    assert_eq!(app.stage(), Stage::EpisodeSelect);
}

#[test]
fn non_numeric_episode_label_is_an_error() {
    let mut app = app_with_episodes(&["abc"]);
    let a = app.handle_key_event(key(KeyCode::Enter), 0);
    assert!(matches!(a, Action::Nothing));
    assert_eq!(app.errors(), strings(&["not an episode number: abc"]));
}

#[test]
fn signed_episode_labels_parse() {
    let mut app = app_with_episodes(&["-3", "+7", "99999999999"]);
    assert!(matches!(app.handle_key_event(key(KeyCode::Enter), 0), Action::ResolveEpisode(-3)));
    app.handle_key_event(key(KeyCode::Down), 0);
    assert!(matches!(app.handle_key_event(key(KeyCode::Enter), 0), Action::ResolveEpisode(7)));
    app.handle_key_event(key(KeyCode::Down), 0);
    assert!(matches!(app.handle_key_event(key(KeyCode::Enter), 0), Action::Nothing));
    assert_eq!(app.errors().len(), 1);
}

#[test]
fn failed_series_resolution_keeps_stage() {
    let mut app = app_with_series(&["One Piece"]);
    app.series_resolved(Err("offline".to_string()), &Vec::new());
    assert_eq!(app.stage(), Stage::SeriesSelect);
    assert_eq!(app.errors(), strings(&["offline"]));
    assert_eq!(app.list().get_contents(), strings(&["One Piece"]));
}

#[test]
fn focus_ring_both_directions() {
    let mut app = App::new();
    app.handle_key_event(key(KeyCode::Tab), 0);
    assert_eq!(app.focus(), Focus::List);
    assert!(app.list().is_focused());
    app.handle_key_event(key(KeyCode::Tab), 0);
    assert_eq!(app.focus(), Focus::Servers);
    assert!(!app.list().is_focused());
    app.handle_key_event(key(KeyCode::Tab), 0);
    assert_eq!(app.focus(), Focus::Input);
    app.handle_key_event(key(KeyCode::BackTab), 0);
    assert_eq!(app.focus(), Focus::Servers);
    app.handle_key_event(key(KeyCode::BackTab), 0);
    assert_eq!(app.focus(), Focus::List);
}

#[test]
fn servers_receive_other_keys() {
    let mut app = App::new();
    app.handle_key_event(key(KeyCode::BackTab), 0);
    match app.handle_key_event(key(KeyCode::Down), 0) {
        Action::ToServers(k) => assert_eq!(k, key(KeyCode::Down)),
        other => panic!("unexpected action {:?}", other),
    }
    assert!(matches!(app.handle_key_event(key(KeyCode::Enter), 0), Action::Nothing));
}

#[test]
fn control_keys_quit_and_open_liked_menu() {
    let mut app = App::new();
    assert!(matches!(app.handle_key_event(ctrl(KeyCode::Char('l')), 0), Action::ShowLiked));
    app.show_liked(strings(&["Bleach", "Naruto"]));
    assert_eq!(app.focus(), Focus::List);
    assert_eq!(app.stage(), Stage::SeriesSelect);
    assert!(app.list().item(0).liked && app.list().item(1).liked);
    assert_eq!(app.list().current(), Some(0));
    assert!(!app.should_exit());
    app.handle_key_event(ctrl(KeyCode::Char('c')), 0);
    assert!(app.should_exit());
}

#[test]
fn liked_menu_clears_input() {
    let mut app = App::new();
    type_text(&mut app, "abc");
    app.show_liked(Vec::new());
    assert_eq!(app.input(), "");
    assert_eq!(app.list().current(), None);
}

#[test]
fn l_in_episode_stage_goes_to_list() {
    let mut app = app_with_episodes(&["1", "2"]);
    let a = app.handle_key_event(key(KeyCode::Char('l')), 0);
    assert!(matches!(a, Action::Nothing));
    assert!(app.errors().is_empty());
}

#[test]
fn tick_forwards_to_list_search() {
    let mut app = app_with_series(&["Naruto", "Bleach"]);
    app.handle_key_event(key(KeyCode::Char('g')), 100);
    app.handle_key_event(key(KeyCode::Char('B')), 100);
    assert_eq!(app.list().current(), Some(1));
    app.tick(399);
    assert_eq!(app.list().query(), vec!['B']);
    app.tick(400);
    assert!(app.list().query().is_empty());
}
