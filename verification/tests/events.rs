use git_nav::events::{
    accept, decode_key, handle_down, handle_events, handle_up, remaining_wait, step, time_between,
    AppState, Event, KeyCode, KeyEvent, KeyEventKind, LogicalKey,
};
use git_nav::files::{Entry, ItemKind, Listing};
use git_nav::ui_state::{DrawableState, InputMode, KEY_HELD_THRESHOLD};

fn entry(path: &str, kind: ItemKind) -> Entry {
    Entry { path: path.to_string(), kind, name_is_text: true }
}

fn state_with(entries: Vec<Entry>) -> DrawableState {
    DrawableState::new("repo".to_string(), &Listing { entries, failed: false })
}

fn three_entries() -> DrawableState {
    state_with(vec![
        entry("repo/a.txt", ItemKind::File),
        entry("repo/b.txt", ItemKind::File),
        entry("repo/src", ItemKind::Directory),
    ])
}

fn press(code: KeyCode) -> Event {
    Event::Key(KeyEvent { code, kind: KeyEventKind::Press })
}

#[test]
fn down_twice_then_stays_then_up_stops_at_first() {
    let mut state = three_entries();
    assert_eq!(state.selected_index, Some(0));
    let mut now = 1000;
    for _ in 0..2 {
        assert_eq!(handle_events(&mut state, press(KeyCode::Down), now), AppState::KeepOpen);
        now += 200;
    }
    assert_eq!(state.selected_index, Some(2));
    assert_eq!(handle_events(&mut state, press(KeyCode::Down), now), AppState::KeepOpen);
    assert_eq!(state.selected_index, Some(2));
    for _ in 0..3 {
        now += 200;
        assert_eq!(handle_events(&mut state, press(KeyCode::Up), now), AppState::KeepOpen);
    }
    assert_eq!(state.selected_index, Some(0));
}

#[test]
fn empty_directory_ignores_up_and_down() {
    let mut state = state_with(vec![]);
    assert!(state.items.is_empty());
    assert_eq!(state.selected_index, None);
    assert_eq!(handle_up(&mut state), AppState::KeepOpen);
    assert_eq!(state, state_with(vec![]));
    assert_eq!(handle_down(&mut state), AppState::KeepOpen);
    assert_eq!(state, state_with(vec![]));
    assert_eq!(step(&mut state, LogicalKey::Down), AppState::KeepOpen);
    assert_eq!(step(&mut state, LogicalKey::Up), AppState::KeepOpen);
    assert_eq!(state, state_with(vec![]));
    assert_eq!(handle_events(&mut state, press(KeyCode::Down), 1000), AppState::KeepOpen);
    assert_eq!(handle_events(&mut state, press(KeyCode::Up), 2000), AppState::KeepOpen);
    assert!(state.items.is_empty());
    assert_eq!(state.selected_index, None);
}

#[test]
fn press_within_threshold_is_suppressed() {
    let mut state = three_entries();
    assert_eq!(state.key_held_threshold, 100);
    assert_eq!(KEY_HELD_THRESHOLD, 100);
    assert_eq!(state.last_key_pressed, None);
    assert_eq!(handle_events(&mut state, press(KeyCode::Down), 0), AppState::KeepOpen);
    assert_eq!(state.selected_index, Some(1));
    assert_eq!(state.last_key_pressed, Some(0));
    assert_eq!(handle_events(&mut state, press(KeyCode::Down), 40), AppState::Relax(60));
    assert_eq!(state.selected_index, Some(1));
    assert_eq!(state.last_key_pressed, Some(0));
    assert_eq!(handle_events(&mut state, press(KeyCode::Down), 150), AppState::KeepOpen);
    assert_eq!(state.selected_index, Some(2));
    assert_eq!(state.last_key_pressed, Some(150));
}

#[test]
fn first_press_of_a_run_is_accepted_whenever_it_comes() {
    for now in [0, 1, 99, 100, 101, 5000, u64::MAX] {
        let mut state = three_entries();
        assert_eq!(remaining_wait(&state, now), 0);
        assert!(accept(&mut state, KeyEventKind::Press, now));
        assert_eq!(state.last_key_pressed, Some(now));
        assert!(state.key_held);
        let mut state = three_entries();
        assert_eq!(handle_events(&mut state, press(KeyCode::Down), now), AppState::KeepOpen);
        assert_eq!(state.selected_index, Some(1));
        assert_eq!(state.last_key_pressed, Some(now));
    }
}

#[test]
fn release_before_any_press_keeps_the_first_press_free() {
    let mut state = three_entries();
    let release = Event::Key(KeyEvent { code: KeyCode::Down, kind: KeyEventKind::Release });
    assert_eq!(handle_events(&mut state, release, 10), AppState::KeepOpen);
    assert_eq!(state.last_key_pressed, None);
    assert_eq!(handle_events(&mut state, press(KeyCode::Down), 20), AppState::KeepOpen);
    assert_eq!(state.last_key_pressed, Some(20));
}

#[test]
fn time_between_never_goes_negative() {
    assert_eq!(time_between(100, 250), 150);
    assert_eq!(time_between(100, 100), 0);
    assert_eq!(time_between(100, 40), 0);
    assert_eq!(time_between(0, u64::MAX), u64::MAX);
}

#[test]
fn press_exactly_at_threshold_is_suppressed() {
    let mut state = three_entries();
    state.last_key_pressed = Some(500);
    assert!(!accept(&mut state, KeyEventKind::Press, 600));
    assert_eq!(state.last_key_pressed, Some(500));
    assert!(!state.key_held);
    assert_eq!(remaining_wait(&state, 600), 0);
    assert!(accept(&mut state, KeyEventKind::Press, 601));
    assert_eq!(state.last_key_pressed, Some(601));
    assert!(state.key_held);
}

#[test]
fn remaining_wait_is_threshold_less_elapsed() {
    let mut state = three_entries();
    state.last_key_pressed = Some(500);
    assert_eq!(remaining_wait(&state, 500), 100);
    assert_eq!(remaining_wait(&state, 530), 70);
    assert_eq!(remaining_wait(&state, 600), 0);
    assert_eq!(remaining_wait(&state, 10_000), 0);
}

#[test]
fn clock_before_last_press_counts_as_no_time_passed() {
    let mut state = three_entries();
    state.last_key_pressed = Some(500);
    assert_eq!(remaining_wait(&state, 100), 100);
    assert_eq!(handle_events(&mut state, press(KeyCode::Down), 100), AppState::Relax(100));
    assert_eq!(state.selected_index, Some(0));
    assert_eq!(state.last_key_pressed, Some(500));
}

#[test]
fn release_clears_key_held() {
    let mut state = three_entries();
    assert_eq!(handle_events(&mut state, press(KeyCode::Down), 1000), AppState::KeepOpen);
    assert!(state.key_held);
    let release = Event::Key(KeyEvent { code: KeyCode::Down, kind: KeyEventKind::Release });
    assert_eq!(handle_events(&mut state, release, 1001), AppState::KeepOpen);
    assert!(!state.key_held);
    assert_eq!(state.selected_index, Some(1));
    assert_eq!(state.last_key_pressed, Some(1000));
    assert!(accept(&mut state, KeyEventKind::Release, 1002));
}

#[test]
fn repeat_and_other_events_change_nothing() {
    let mut state = three_entries();
    let repeat = Event::Key(KeyEvent { code: KeyCode::Down, kind: KeyEventKind::Repeat });
    assert_eq!(handle_events(&mut state, repeat, 5000), AppState::KeepOpen);
    assert_eq!(state, three_entries());
    assert_eq!(handle_events(&mut state, Event::Other, 5000), AppState::KeepOpen);
    assert_eq!(state, three_entries());
    assert!(!accept(&mut state, KeyEventKind::Repeat, 5000));
    assert_eq!(state, three_entries());
}

#[test]
fn quit_changes_nothing_but_the_filter() {
    let mut state = three_entries();
    assert_eq!(handle_events(&mut state, press(KeyCode::Char('q')), 1000), AppState::Quit);
    let mut expected = three_entries();
    expected.last_key_pressed = Some(1000);
    expected.key_held = true;
    assert_eq!(state, expected);
    let mut state = three_entries();
    assert_eq!(step(&mut state, LogicalKey::Quit), AppState::Quit);
    assert_eq!(state, three_entries());
}

#[test]
fn normal_mode_binds_arrows_and_enter() {
    let mode = InputMode::Normal;
    assert_eq!(decode_key(mode, KeyCode::Up), LogicalKey::Up);
    assert_eq!(decode_key(mode, KeyCode::Down), LogicalKey::Down);
    assert_eq!(decode_key(mode, KeyCode::Enter), LogicalKey::Enter);
    assert_eq!(decode_key(mode, KeyCode::Left), LogicalKey::Back);
    assert_eq!(decode_key(mode, KeyCode::Right), LogicalKey::Forward);
    assert_eq!(decode_key(mode, KeyCode::Char('q')), LogicalKey::Quit);
    assert_eq!(decode_key(mode, KeyCode::Tab), LogicalKey::ModeToggle);
    assert_eq!(decode_key(mode, KeyCode::Char('j')), LogicalKey::Other);
    assert_eq!(decode_key(mode, KeyCode::Char('x')), LogicalKey::Other);
    assert_eq!(decode_key(mode, KeyCode::Other), LogicalKey::Other);
}

#[test]
fn alternate_mode_binds_letters() {
    let mode = InputMode::Alternate;
    assert_eq!(decode_key(mode, KeyCode::Char('k')), LogicalKey::Up);
    assert_eq!(decode_key(mode, KeyCode::Char('j')), LogicalKey::Down);
    assert_eq!(decode_key(mode, KeyCode::Char('o')), LogicalKey::Enter);
    assert_eq!(decode_key(mode, KeyCode::Char('h')), LogicalKey::Back);
    assert_eq!(decode_key(mode, KeyCode::Char('l')), LogicalKey::Forward);
    assert_eq!(decode_key(mode, KeyCode::Char('q')), LogicalKey::Quit);
    assert_eq!(decode_key(mode, KeyCode::Tab), LogicalKey::ModeToggle);
    assert_eq!(decode_key(mode, KeyCode::Down), LogicalKey::Other);
    assert_eq!(decode_key(mode, KeyCode::Enter), LogicalKey::Other);
}

#[test]
fn mode_toggle_switches_the_binding() {
    let mut state = three_entries();
    assert_eq!(state.input_mode, InputMode::Normal);
    assert_eq!(handle_events(&mut state, press(KeyCode::Char('j')), 1000), AppState::KeepOpen);
    assert_eq!(state.selected_index, Some(0));
    assert_eq!(handle_events(&mut state, press(KeyCode::Tab), 2000), AppState::ToggleMode);
    assert_eq!(state.input_mode, InputMode::Alternate);
    assert_eq!(state.selected_index, Some(0));
    assert_eq!(handle_events(&mut state, press(KeyCode::Char('j')), 3000), AppState::KeepOpen);
    assert_eq!(state.selected_index, Some(1));
    assert_eq!(handle_events(&mut state, press(KeyCode::Down), 4000), AppState::KeepOpen);
    assert_eq!(state.selected_index, Some(1));
    assert_eq!(handle_events(&mut state, press(KeyCode::Tab), 5000), AppState::ToggleMode);
    assert_eq!(state.input_mode, InputMode::Normal);
    assert_eq!(InputMode::Normal.toggle(), InputMode::Alternate);
    assert_eq!(InputMode::Alternate.toggle(), InputMode::Normal);
}

#[test]
fn enter_back_and_forward_give_their_signals() {
    let mut state = three_entries();
    assert_eq!(handle_events(&mut state, press(KeyCode::Enter), 1000), AppState::OpenNvim);
    assert_eq!(handle_events(&mut state, press(KeyCode::Left), 2000), AppState::GoBack);
    assert_eq!(state.selected_index, Some(0));
    assert_eq!(state.current_path, "repo");
    assert!(state.history.is_empty());
}

#[test]
fn forward_descends_only_into_a_directory() {
    let mut state = three_entries();
    assert_eq!(handle_events(&mut state, press(KeyCode::Right), 1000), AppState::KeepOpen);
    state.selected_index = Some(2);
    assert_eq!(handle_events(&mut state, press(KeyCode::Right), 2000), AppState::GoForward);
    assert_eq!(state.selected_index, Some(2));
    assert_eq!(state.current_path, "repo");
    let mut empty = state_with(vec![]);
    assert_eq!(handle_events(&mut empty, press(KeyCode::Right), 1000), AppState::KeepOpen);
}

#[test]
fn unknown_key_keeps_open() {
    let mut state = three_entries();
    assert_eq!(handle_events(&mut state, press(KeyCode::Other), 1000), AppState::KeepOpen);
    assert_eq!(handle_events(&mut state, press(KeyCode::Char('z')), 2000), AppState::KeepOpen);
    assert_eq!(state.selected_index, Some(0));
    assert_eq!(state.input_mode, InputMode::Normal);
}

#[test]
fn many_moves_stay_in_range() {
    let mut state = three_entries();
    let moves = [
        LogicalKey::Down,
        LogicalKey::Down,
        LogicalKey::Down,
        LogicalKey::Down,
        LogicalKey::Up,
        LogicalKey::Down,
        LogicalKey::Up,
        LogicalKey::Up,
        LogicalKey::Up,
        LogicalKey::Up,
    ];
    let expected = [1, 2, 2, 2, 1, 2, 1, 0, 0, 0];
    for (key, want) in moves.iter().zip(expected.iter()) {
        assert_eq!(step(&mut state, *key), AppState::KeepOpen);
        assert_eq!(state.selected_index, Some(*want));
    }
}
