use cosmic_totp_client::entry::Entry;
use cosmic_totp_client::secrets::{fresh_id, has_distinct_ids, Locked, State};

fn named(label: &str) -> Entry {
    let mut entry = Entry::new();
    entry.label = label.to_string();
    entry
}

fn open_with(labels: &[&str]) -> State {
    let mut state = State::Secrets(Vec::new());
    for label in labels {
        state.try_push(named(label)).unwrap();
    }
    state
}

fn labels(state: &State) -> Vec<String> {
    state.as_array().iter().map(|e| e.label.clone()).collect()
}

fn sorted_ids(state: &State) -> Vec<u64> {
    let mut ids: Vec<u64> = state.as_array().iter().map(|e| e.id).collect();
    ids.sort();
    ids
}

#[test]
fn locked_vault_shows_no_entries() {
    assert!(State::PendingUser.as_array().is_empty());
    assert!(State::AwaitingUnlock(Locked::Loading).as_array().is_empty());
    assert!(State::AwaitingUnlock(Locked::Sealed(vec![1, 2, 3])).as_array().is_empty());
    assert_eq!(State::PendingUser.len(), 0);
    assert!(!State::PendingUser.is_unlocked());
    assert!(State::Secrets(Vec::new()).is_unlocked());
}

#[test]
fn locked_vault_hands_a_pushed_entry_back() {
    let mut state = State::PendingUser;
    let entry = named("a");
    assert_eq!(state.try_push(entry.clone()), Err(entry));
    assert_eq!(state, State::PendingUser);
    let mut state = State::AwaitingUnlock(Locked::Failed);
    assert!(state.try_push(named("a")).is_err());
}

#[test]
fn pushed_entries_get_the_least_free_identifier() {
    let mut state = open_with(&["a", "b", "c"]);
    assert_eq!(sorted_ids(&state), vec![0, 1, 2]);
    assert_eq!(labels(&state), vec!["a", "b", "c"]);
    assert!(state.delete(1));
    assert_eq!(sorted_ids(&state), vec![0, 2]);
    state.try_push(named("d")).unwrap();
    assert_eq!(state.as_array()[2].id, 1);
    assert_eq!(state.as_array()[2].label, "d");
    state.try_push(named("e")).unwrap();
    assert_eq!(state.as_array()[3].id, 3);
}

#[test]
fn fresh_identifier_skips_those_in_use() {
    let mut items = Vec::new();
    assert_eq!(fresh_id(&items), 0);
    for id in [0u64, 1, 3, 7] {
        let mut entry = Entry::new();
        entry.id = id;
        items.push(entry);
    }
    assert_eq!(fresh_id(&items), 2);
    assert!(has_distinct_ids(&items));
    let mut twin = Entry::new();
    twin.id = 3;
    items.push(twin);
    assert!(!has_distinct_ids(&items));
}

#[test]
fn swapping_neighbours_keeps_the_identifiers() {
    let mut state = open_with(&["a", "b", "c", "d"]);
    let before = sorted_ids(&state);
    assert!(state.move_entry(1, false));
    assert_eq!(labels(&state), vec!["a", "c", "b", "d"]);
    assert_eq!(sorted_ids(&state), before);
    assert!(state.move_entry(3, true));
    assert_eq!(labels(&state), vec!["a", "c", "d", "b"]);
    assert_eq!(sorted_ids(&state), before);
    let ids: Vec<u64> = state.as_array().iter().map(|e| e.id).collect();
    assert_eq!(ids, vec![0, 2, 3, 1]);
}

#[test]
fn first_entry_does_not_move_up() {
    let mut state = open_with(&["a", "b", "c"]);
    let before = state.as_array().to_vec();
    assert!(!state.move_entry(0, true));
    assert_eq!(state.as_array(), &before[..]);
}

#[test]
fn last_entry_does_not_move_down() {
    let mut state = open_with(&["a", "b", "c"]);
    let before = state.as_array().to_vec();
    assert!(!state.move_entry(2, false));
    assert_eq!(state.as_array(), &before[..]);
}

#[test]
fn moving_beyond_the_end_does_nothing() {
    let mut state = open_with(&["a", "b"]);
    let before = state.as_array().to_vec();
    assert!(!state.move_entry(2, true));
    assert!(!state.move_entry(5, false));
    assert!(!state.move_entry(usize::MAX, false));
    assert!(!state.move_entry(usize::MAX, true));
    assert_eq!(state.as_array(), &before[..]);
    let mut locked = State::PendingUser;
    assert!(!locked.move_entry(0, false));
    let mut empty = State::Secrets(Vec::new());
    assert!(!empty.move_entry(0, false));
    assert!(!empty.move_entry(0, true));
}

#[test]
fn delete_removes_one_entry() {
    let mut state = open_with(&["a", "b", "c"]);
    assert!(state.delete(0));
    assert_eq!(labels(&state), vec!["b", "c"]);
    assert!(!state.delete(2));
    assert_eq!(labels(&state), vec!["b", "c"]);
    assert!(state.delete(1));
    assert!(state.delete(0));
    assert_eq!(state, State::Secrets(Vec::new()));
    assert!(!state.delete(0));
    let mut locked = State::PendingUser;
    assert!(!locked.delete(0));
}

#[test]
fn entries_can_be_changed_in_place() {
    let mut state = open_with(&["a", "b"]);
    state.as_mut_array()[1].label = "z".to_string();
    assert_eq!(labels(&state), vec!["a", "z"]);
    let mut locked = State::PendingUser;
    assert!(locked.as_mut_array().is_empty());
}
