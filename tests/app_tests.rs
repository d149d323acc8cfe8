use rdo::{Action, App, EditField, Key, Mode, PlaybackEvent, PlayerState, Station};

fn st(name: &str, url: &str) -> Station {
    Station::new(name.to_string(), url.to_string())
}

fn pairs(app: &App) -> Vec<(String, String)> {
    app.stations.iter().map(|s| (s.name.clone(), s.url.clone())).collect()
}

fn p(name: &str, url: &str) -> (String, String) {
    (name.to_string(), url.to_string())
}

fn key(app: &mut App, k: Key) -> Action {
    app.handle_key(k, String::new(), String::new())
}

fn two() -> App {
    App::new(vec![st("A", "u1"), st("B", "u2")])
}

fn three() -> App {
    App::new(vec![st("A", "u1"), st("B", "u2"), st("C", "u3")])
}

fn selection_ok(app: &App) -> bool {
    match app.selected_index() {
        None => app.stations.is_empty(),
        Some(i) => i < app.stations.len(),
    }
}

#[test]
fn station_new_keeps_fields() {
    let s = st("X", "http://x");
    assert_eq!(s.name, "X");
    assert_eq!(s.url, "http://x");
}

#[test]
fn edit_field_toggles() {
    assert!(matches!(EditField::Name.toggle(), EditField::Url));
    assert!(matches!(EditField::Url.toggle(), EditField::Name));
}

#[test]
fn new_app_selects_first_station() {
    let app = two();
    assert_eq!(app.selected_index(), Some(0));
    assert_eq!(app.mode, Mode::Normal);
    assert_eq!(app.current_station, None);
    assert!(!app.is_playing());
}

#[test]
fn empty_app_selects_nothing() {
    assert_eq!(App::new(vec![]).selected_index(), None);
    let d = App::default();
    assert!(d.stations.is_empty());
    assert_eq!(d.selected_index(), None);
    assert_eq!(d.mode, Mode::Normal);
    assert_eq!(d.current_station, None);
    assert!(matches!(d.edit_field, EditField::Name));
    assert!(matches!(d.player.state, PlayerState::Stopped));
    assert!(d.player.current_title.is_none());
    assert_eq!(
        String::from_utf8(d.save_stations().unwrap()).unwrap(),
        "name,url\n"
    );
}

#[test]
fn selection_is_clamped() {
    let mut app = two();
    app.select_previous();
    assert_eq!(app.selected_index(), Some(0));
    app.select_next();
    assert_eq!(app.selected_index(), Some(1));
    app.select_next();
    assert_eq!(app.selected_index(), Some(1));
    key(&mut app, Key::Char('k'));
    assert_eq!(app.selected_index(), Some(0));
    key(&mut app, Key::Down);
    assert_eq!(app.selected_index(), Some(1));
    key(&mut app, Key::Up);
    assert_eq!(app.selected_index(), Some(0));
    key(&mut app, Key::Char('j'));
    assert_eq!(app.selected_index(), Some(1));
}

#[test]
fn selection_moves_nowhere_on_empty_list() {
    let mut app = App::new(vec![]);
    app.select_next();
    app.select_previous();
    assert_eq!(app.selected_index(), None);
}

#[test]
fn delete_then_confirm_removes_selected() {
    let mut app = two();
    assert!(matches!(key(&mut app, Key::Char('d')), Action::Nothing));
    assert_eq!(app.mode, Mode::Delete(0));
    assert!(matches!(key(&mut app, Key::Enter), Action::Save));
    assert_eq!(pairs(&app), vec![p("B", "u2")]);
    assert_eq!(app.selected_index(), Some(0));
    assert_eq!(app.mode, Mode::Normal);
}

#[test]
fn delete_then_cancel_keeps_station() {
    let mut app = two();
    key(&mut app, Key::Char('d'));
    key(&mut app, Key::Char('x'));
    assert_eq!(app.mode, Mode::Delete(0));
    assert!(matches!(key(&mut app, Key::Esc), Action::Nothing));
    assert_eq!(pairs(&app), vec![p("A", "u1"), p("B", "u2")]);
    assert_eq!(app.mode, Mode::Normal);
}

#[test]
fn add_through_the_draft() {
    let mut app = App::new(vec![]);
    assert!(matches!(key(&mut app, Key::Char('n')), Action::ClearDraft));
    assert_eq!(app.mode, Mode::Add);
    assert!(matches!(key(&mut app, Key::Char('X')), Action::EditText));
    assert!(matches!(app.edit_field, EditField::Name));
    key(&mut app, Key::Tab);
    assert!(matches!(app.edit_field, EditField::Url));
    let r = app.handle_key(Key::Enter, "X".to_string(), "http://x".to_string());
    assert!(matches!(r, Action::Save));
    assert_eq!(pairs(&app), vec![p("X", "http://x")]);
    assert_eq!(app.mode, Mode::Normal);
    assert_eq!(app.selected_index(), Some(0));
}

#[test]
fn edit_replaces_station() {
    let mut app = two();
    key(&mut app, Key::Down);
    match key(&mut app, Key::Char('e')) {
        Action::FillDraft(s) => {
            assert_eq!(s.name, "B");
            assert_eq!(s.url, "u2");
        }
        _ => panic!("expected the draft to be filled"),
    }
    assert_eq!(app.mode, Mode::Edit(1));
    let r = app.handle_key(Key::Enter, "B2".to_string(), "v2".to_string());
    assert!(matches!(r, Action::Save));
    assert_eq!(pairs(&app), vec![p("A", "u1"), p("B2", "v2")]);
    assert_eq!(app.mode, Mode::Normal);
}

#[test]
fn cancel_edit_changes_nothing() {
    let mut app = three();
    key(&mut app, Key::Down);
    let before = pairs(&app);
    let sel = app.selected_index();
    key(&mut app, Key::Char('e'));
    assert_eq!(app.mode, Mode::Edit(1));
    assert!(matches!(app.handle_key(Key::Esc, "zz".to_string(), "zz".to_string()), Action::Nothing));
    assert_eq!(pairs(&app), before);
    assert_eq!(app.selected_index(), sel);
    assert_eq!(app.mode, Mode::Normal);
}

#[test]
fn stale_edit_index_is_ignored() {
    let mut app = two();
    key(&mut app, Key::Down);
    key(&mut app, Key::Char('e'));
    assert!(app.delete_station(1));
    let r = app.handle_key(Key::Enter, "Z".to_string(), "z".to_string());
    assert!(matches!(r, Action::Nothing));
    assert_eq!(pairs(&app), vec![p("A", "u1")]);
    assert_eq!(app.mode, Mode::Normal);
}

#[test]
fn stale_delete_index_is_ignored() {
    let mut app = two();
    key(&mut app, Key::Down);
    key(&mut app, Key::Char('d'));
    assert!(app.delete_station(1));
    assert!(matches!(key(&mut app, Key::Enter), Action::Nothing));
    assert_eq!(pairs(&app), vec![p("A", "u1")]);
    assert_eq!(app.mode, Mode::Normal);
}

#[test]
fn edit_and_delete_need_a_selection() {
    let mut app = App::new(vec![]);
    assert!(matches!(key(&mut app, Key::Char('e')), Action::Nothing));
    assert_eq!(app.mode, Mode::Normal);
    assert!(matches!(key(&mut app, Key::Char('d')), Action::Nothing));
    assert_eq!(app.mode, Mode::Normal);
    assert!(matches!(key(&mut app, Key::Enter), Action::Nothing));
}

#[test]
fn quit_is_terminal() {
    let mut app = two();
    key(&mut app, Key::Char('q'));
    assert_eq!(app.mode, Mode::Exit);
    for k in [Key::Char('n'), Key::Enter, Key::Esc, Key::Char('d')] {
        assert!(matches!(key(&mut app, k), Action::Nothing));
        assert_eq!(app.mode, Mode::Exit);
    }
}

#[test]
fn modal_modes_only_return_to_normal() {
    let mut app = two();
    key(&mut app, Key::Char('n'));
    key(&mut app, Key::Char('q'));
    assert_eq!(app.mode, Mode::Add);
    key(&mut app, Key::Esc);
    assert_eq!(app.mode, Mode::Normal);
    key(&mut app, Key::Char('d'));
    key(&mut app, Key::Char('q'));
    key(&mut app, Key::Char('n'));
    assert_eq!(app.mode, Mode::Delete(0));
}

#[test]
fn enter_plays_selected_station() {
    let mut app = two();
    key(&mut app, Key::Down);
    match key(&mut app, Key::Enter) {
        Action::Play(url) => assert_eq!(url, "u2"),
        _ => panic!("expected a play command"),
    }
    assert_eq!(app.current_station, Some(1));
    app.player.play(true);
    assert!(matches!(app.player.state, PlayerState::Buffering));
    assert!(!app.is_playing());
    app.update_status(Some(PlaybackEvent::StartFile));
    assert!(app.is_playing());
}

#[test]
fn space_asks_to_stop() {
    let mut app = two();
    app.update_status(Some(PlaybackEvent::StartFile));
    assert!(matches!(key(&mut app, Key::Char(' ')), Action::Stop));
    assert!(app.is_playing());
    app.stop(true);
    assert!(!app.is_playing());
    assert!(matches!(app.player.state, PlayerState::Stopped));
}

#[test]
fn change_station_out_of_range_does_nothing() {
    let mut app = two();
    assert_eq!(app.change_station(5), None);
    assert_eq!(app.current_station, None);
    assert_eq!(app.change_station(0), Some("u1".to_string()));
    assert_eq!(app.current_station, Some(0));
}

#[test]
fn swap_follows_playing_station() {
    let mut app = two();
    app.change_station(0);
    app.update_status(Some(PlaybackEvent::StartFile));
    assert!(app.swap_station(0, 1));
    assert_eq!(app.current_station, Some(1));
    assert_eq!(pairs(&app), vec![p("B", "u2"), p("A", "u1")]);
    assert!(app.is_playing());
    assert!(app.swap_station(1, 0));
    assert_eq!(app.current_station, Some(0));
}

#[test]
fn swap_out_of_range_does_nothing() {
    let mut app = two();
    assert!(!app.swap_station(0, 2));
    assert_eq!(pairs(&app), vec![p("A", "u1"), p("B", "u2")]);
}

#[test]
fn update_station_out_of_range_does_nothing() {
    let mut app = two();
    assert!(!app.update_station(2, "Z".to_string(), "z".to_string()));
    assert!(app.update_station(0, "Z".to_string(), "z".to_string()));
    assert_eq!(pairs(&app), vec![p("Z", "z"), p("B", "u2")]);
}

#[test]
fn remove_keeps_selection_on_same_station() {
    let mut app = three();
    app.select_next();
    app.select_next();
    assert!(app.delete_station(0));
    assert_eq!(app.selected_index(), Some(1));
    assert_eq!(app.stations[1].name, "C");
    assert!(app.delete_station(0));
    assert_eq!(app.selected_index(), Some(0));
    assert!(!app.delete_station(3));
}

#[test]
fn remove_of_selected_last_moves_up() {
    let mut app = three();
    app.select_next();
    app.select_next();
    assert!(app.delete_station(2));
    assert_eq!(app.selected_index(), Some(1));
    assert!(app.delete_station(1));
    assert!(app.delete_station(0));
    assert_eq!(app.selected_index(), None);
}

#[test]
fn remove_tracks_playing_station() {
    let mut app = three();
    app.change_station(2);
    assert!(app.delete_station(0));
    assert_eq!(app.current_station, Some(1));
    assert!(app.delete_station(1));
    assert_eq!(app.current_station, None);
}

#[test]
fn selection_stays_valid_over_mutations() {
    let mut app = App::new(vec![]);
    app.add_station(st("A", "u1"));
    assert_eq!(app.selected_index(), Some(0));
    app.add_station(st("B", "u2"));
    app.add_station(st("C", "u3"));
    assert!(selection_ok(&app));
    app.select_next();
    app.select_next();
    app.swap_station(0, 2);
    assert!(selection_ok(&app));
    for _ in 0..3 {
        app.delete_station(0);
        assert!(selection_ok(&app));
    }
    assert!(app.stations.is_empty());
    app.add_station(st("D", "u4"));
    assert_eq!(app.selected_index(), Some(0));
}

#[test]
fn save_stations_encodes_the_list() {
    let app = two();
    let bytes = app.save_stations().unwrap();
    assert_eq!(String::from_utf8(bytes).unwrap(), "name,url\nA,u1\nB,u2\n");
}

#[test]
fn title_event_keeps_buffering() {
    let mut app = two();
    app.change_station(0);
    app.player.play(true);
    let r = app.update_status(Some(PlaybackEvent::TitleChanged("T".to_string())));
    assert!(r.is_none());
    assert!(matches!(app.player.state, PlayerState::Buffering));
    assert_eq!(app.player.current_title, Some("T".to_string()));
}
