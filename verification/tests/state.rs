use radio_tui::state::move_cursor;
use radio_tui::state::Focus;
use radio_tui::state::Key;
use radio_tui::state::ListState;
use radio_tui::state::PanelColor;
use radio_tui::state::Place;
use radio_tui::state::State;

fn station(country: &str) -> Place {
    Place {
        size: 0,
        id: String::from("id"),
        url: String::from("url"),
        country: String::from(country),
        title: String::from("title"),
    }
}

#[test]
fn new_state_has_search_focus_and_both_cursors_on_row_zero() {
    let state = State::new();
    assert_eq!(state.focus, Focus::Search);
    assert_eq!(state.countries.selected, Some(0));
    assert_eq!(state.cities.selected, Some(0));
    assert_eq!(state.search, "");
    assert_eq!(state.places.len(), 0);
}

#[test]
fn three_forward_cycles_return_to_the_start() {
    for start in [Focus::Search, Focus::Countries, Focus::Cities] {
        let mut state = State::new();
        state.focus = start;
        state.move_right();
        state.move_right();
        state.move_right();
        assert_eq!(state.focus, start);
    }
}

#[test]
fn forward_then_backward_cycle_returns_to_the_start() {
    for start in [Focus::Search, Focus::Countries, Focus::Cities] {
        let mut state = State::new();
        state.focus = start;
        state.move_right();
        state.move_left();
        assert_eq!(state.focus, start);

        state.move_left();
        state.move_right();
        assert_eq!(state.focus, start);
    }
}

#[test]
fn move_up_floors_the_cursor_at_row_zero() {
    let mut state = State::new();
    state.set_places(vec![station("BR"), station("US")]);
    state.focus = Focus::Countries;
    state.move_down();
    assert_eq!(state.countries.selected, Some(1));
    state.move_up();
    state.move_up();
    state.move_up();
    assert_eq!(state.countries.selected, Some(0));
}

#[test]
fn move_down_caps_the_cursor_at_the_station_count() {
    let mut state = State::new();
    state.set_places(vec![station("BR"), station("US"), station("FR")]);
    state.focus = Focus::Countries;
    for _ in 0..5 {
        state.move_down();
    }
    // The cap is the count itself, not count - 1.
    assert_eq!(state.countries.selected, Some(3));
}

#[test]
fn append_then_backspace_restores_the_query() {
    let mut state = State::new();
    state.append_to_query('r');
    state.append_to_query('a');
    let before = state.search.clone();
    state.append_to_query('x');
    state.backspace_query();
    assert_eq!(state.search, before);
    assert_eq!(state.search, "ra");
}

#[test]
fn backspace_on_an_empty_query_keeps_it_empty() {
    let mut state = State::new();
    state.backspace_query();
    assert_eq!(state.search, "");
}

#[test]
fn down_in_search_focus_moves_no_cursor() {
    let mut state = State::new();
    state.set_places(vec![station("BR"), station("US")]);
    let quit = state.key_event(Key::Down);
    assert!(!quit);
    assert_eq!(state.focus, Focus::Countries);
    assert_eq!(state.countries.selected, Some(0));
    assert_eq!(state.cities.selected, Some(0));
}

#[test]
fn scenario_three_downs_from_search_focus() {
    let mut state = State::new();
    state.set_places(vec![station("BR"), station("US")]);

    state.key_event(Key::Down);
    assert_eq!(state.focus, Focus::Countries);
    assert_eq!(state.countries.selected, Some(0));

    state.key_event(Key::Down);
    assert_eq!(state.countries.selected, Some(1));

    state.key_event(Key::Down);
    assert_eq!(state.countries.selected, Some(2));
}

#[test]
fn slash_in_countries_focus_returns_to_search() {
    let mut state = State::new();
    state.set_places(vec![station("BR"), station("US")]);
    state.focus = Focus::Countries;
    state.key_event(Key::Down);
    state.key_event(Key::Char('/'));
    assert_eq!(state.focus, Focus::Search);
    assert_eq!(state.countries.selected, Some(1));
    assert_eq!(state.cities.selected, Some(0));
}

#[test]
fn move_down_on_an_empty_list_keeps_the_cursor_at_zero() {
    let mut state = State::new();
    state.focus = Focus::Countries;
    state.move_down();
    assert_eq!(state.countries.selected, Some(0));
}

#[test]
fn escape_quits_from_every_focus() {
    for start in [Focus::Search, Focus::Countries, Focus::Cities] {
        let mut state = State::new();
        state.focus = start;
        let quit = state.key_event(Key::Esc);
        assert!(quit);
        assert_eq!(state.focus, start);
    }
}

#[test]
fn printable_characters_append_to_the_query_in_search_focus() {
    let mut state = State::new();
    state.set_places(vec![station("BR")]);
    state.key_event(Key::Char('j'));
    state.key_event(Key::Char('k'));
    assert_eq!(state.search, "jk");
    assert_eq!(state.countries.selected, Some(0));
    assert_eq!(state.cities.selected, Some(0));
}

#[test]
fn vi_letters_move_the_selection_in_list_focus() {
    let mut state = State::new();
    state.set_places(vec![station("BR"), station("US")]);
    state.focus = Focus::Countries;
    state.key_event(Key::Char('j'));
    assert_eq!(state.countries.selected, Some(1));
    state.key_event(Key::Char('k'));
    assert_eq!(state.countries.selected, Some(0));
    state.key_event(Key::Char('J'));
    assert_eq!(state.countries.selected, Some(1));
    state.key_event(Key::Char('K'));
    assert_eq!(state.countries.selected, Some(0));
}

#[test]
fn vi_letters_and_tab_cycle_the_focus_in_list_focus() {
    let mut state = State::new();
    state.focus = Focus::Countries;
    state.key_event(Key::Char('l'));
    assert_eq!(state.focus, Focus::Cities);
    state.key_event(Key::Char('h'));
    assert_eq!(state.focus, Focus::Countries);
    state.key_event(Key::Tab);
    assert_eq!(state.focus, Focus::Cities);
    state.key_event(Key::Char('H'));
    assert_eq!(state.focus, Focus::Countries);
    state.key_event(Key::Char('L'));
    assert_eq!(state.focus, Focus::Cities);
    state.key_event(Key::Left);
    assert_eq!(state.focus, Focus::Countries);
    state.key_event(Key::Right);
    assert_eq!(state.focus, Focus::Cities);
}

#[test]
fn cities_focus_moves_the_cities_cursor() {
    let mut state = State::new();
    state.set_places(vec![station("BR"), station("US")]);
    state.focus = Focus::Cities;
    state.key_event(Key::Down);
    assert_eq!(state.cities.selected, Some(1));
    assert_eq!(state.countries.selected, Some(0));
    state.key_event(Key::Up);
    assert_eq!(state.cities.selected, Some(0));
}

#[test]
fn unrecognized_keys_change_nothing() {
    let mut state = State::new();
    state.set_places(vec![station("BR")]);
    state.focus = Focus::Countries;
    state.key_event(Key::Other);
    state.key_event(Key::Char('x'));
    assert_eq!(state.focus, Focus::Countries);
    assert_eq!(state.countries.selected, Some(0));
    assert_eq!(state.search, "");
}

#[test]
fn set_places_replaces_the_list_and_touches_nothing_else() {
    let mut state = State::new();
    state.focus = Focus::Cities;
    state.append_to_query('q');
    state.set_places(vec![station("BR"), station("US")]);
    assert_eq!(state.places.len(), 2);
    assert_eq!(state.places[0].country, "BR");
    assert_eq!(state.focus, Focus::Cities);
    assert_eq!(state.countries.selected, Some(0));
    assert_eq!(state.cities.selected, Some(0));
    assert_eq!(state.search, "q");
}

#[test]
fn a_stale_cursor_is_clamped_back_by_the_next_down_move() {
    let mut state = State::new();
    state.set_places(vec![station("BR"), station("US"), station("FR")]);
    state.focus = Focus::Countries;
    for _ in 0..3 {
        state.move_down();
    }
    assert_eq!(state.countries.selected, Some(3));
    // Replacing the list with a shorter one leaves the cursor stale; the
    // next movement call clamps it, construction did not.
    state.set_places(vec![station("BR")]);
    assert_eq!(state.countries.selected, Some(3));
    state.move_down();
    assert_eq!(state.countries.selected, Some(1));
    state.move_up();
    assert_eq!(state.countries.selected, Some(0));
}

#[test]
fn move_cursor_initializes_an_absent_cursor_before_the_step() {
    let mut cursor = ListState { selected: None };
    move_cursor(&mut cursor, false, 5);
    assert_eq!(cursor.selected, Some(1));

    let mut cursor = ListState { selected: None };
    move_cursor(&mut cursor, true, 5);
    assert_eq!(cursor.selected, Some(0));
}

#[test]
fn color_from_highlights_exactly_the_focused_panel() {
    assert_eq!(
        Focus::Countries.color_from(&Focus::Countries),
        PanelColor::LightGreen
    );
    assert_eq!(
        Focus::Countries.color_from(&Focus::Search),
        PanelColor::White
    );
    assert_eq!(Focus::Search.color_from(&Focus::Search), PanelColor::LightGreen);
    assert_eq!(Focus::Cities.color_from(&Focus::Countries), PanelColor::White);
}

#[test]
fn default_focus_is_search() {
    assert_eq!(Focus::default(), Focus::Search);
}
