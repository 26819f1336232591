use glide::input::Dir;
use glide::input::InputState;
use glide::input::key_to_dir;
use glide::input::str_eq;

#[test]
fn recognized_keys_map_to_their_direction() {
    assert_eq!(key_to_dir("ArrowUp"), Some(Dir::Up));
    assert_eq!(key_to_dir("w"), Some(Dir::Up));
    assert_eq!(key_to_dir("W"), Some(Dir::Up));
    assert_eq!(key_to_dir("ArrowDown"), Some(Dir::Down));
    assert_eq!(key_to_dir("s"), Some(Dir::Down));
    assert_eq!(key_to_dir("S"), Some(Dir::Down));
    assert_eq!(key_to_dir("ArrowLeft"), Some(Dir::Left));
    assert_eq!(key_to_dir("a"), Some(Dir::Left));
    assert_eq!(key_to_dir("A"), Some(Dir::Left));
    assert_eq!(key_to_dir("ArrowRight"), Some(Dir::Right));
    assert_eq!(key_to_dir("d"), Some(Dir::Right));
    assert_eq!(key_to_dir("D"), Some(Dir::Right));
}

#[test]
fn unrecognized_keys_map_to_nothing() {
    assert_eq!(key_to_dir(""), None);
    assert_eq!(key_to_dir("Escape"), None);
    assert_eq!(key_to_dir("ArrowUpLeft"), None);
    assert_eq!(key_to_dir("x"), None);
    assert_eq!(key_to_dir("Arrow"), None);
}

#[test]
fn key_down_sets_exactly_one_flag() {
    let mut s = InputState::new();
    s.key_down("ArrowUp");
    assert_eq!(s, InputState { up: true, down: false, left: false, right: false });
    let mut s = InputState::new();
    s.key_down("d");
    assert_eq!(s, InputState { up: false, down: false, left: false, right: true });
}

#[test]
fn key_up_clears_exactly_one_flag() {
    let mut s = InputState { up: true, down: true, left: true, right: true };
    s.key_up("s");
    assert_eq!(s, InputState { up: true, down: false, left: true, right: true });
    s.key_up("ArrowLeft");
    assert_eq!(s, InputState { up: true, down: false, left: false, right: true });
}

#[test]
fn unrecognized_keys_change_no_flag() {
    let mut s = InputState { up: true, down: false, left: true, right: false };
    s.key_down("Escape");
    assert_eq!(s, InputState { up: true, down: false, left: true, right: false });
    s.key_up("Tab");
    assert_eq!(s, InputState { up: true, down: false, left: true, right: false });
}

#[test]
fn repeated_key_events_are_idempotent() {
    let mut s = InputState::new();
    s.key_down("w");
    s.key_down("w");
    s.key_down("ArrowUp");
    assert_eq!(s, InputState { up: true, down: false, left: false, right: false });
    s.key_up("w");
    s.key_up("w");
    assert_eq!(s, InputState::new());
}

#[test]
fn str_eq_compares_by_content() {
    assert!(str_eq("ArrowUp", "ArrowUp"));
    assert!(!str_eq("ArrowUp", "ArrowDown"));
    assert!(!str_eq("w", "W"));
    assert!(str_eq("", ""));
    assert!(!str_eq("", "w"));
}
