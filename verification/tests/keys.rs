use raymarch::uniforms::{DirectionKey, InputState, KeyCode, LogicalKey, PhysicalKey};
use raymarch::wiggle::input::KeyLayout;

fn text(s: &str) -> LogicalKey {
    LogicalKey::Character(s.to_string())
}

#[test]
fn logical_keys_map_wasd() {
    assert_eq!(DirectionKey::from_logical_key(text("w")), Some(DirectionKey::Up));
    assert_eq!(DirectionKey::from_logical_key(text("a")), Some(DirectionKey::Left));
    assert_eq!(DirectionKey::from_logical_key(text("s")), Some(DirectionKey::Down));
    assert_eq!(DirectionKey::from_logical_key(text("d")), Some(DirectionKey::Right));
}

#[test]
fn logical_keys_ignore_everything_else() {
    assert_eq!(DirectionKey::from_logical_key(text("W")), None);
    assert_eq!(DirectionKey::from_logical_key(text("h")), None);
    assert_eq!(DirectionKey::from_logical_key(text("ww")), None);
    assert_eq!(DirectionKey::from_logical_key(text("")), None);
    assert_eq!(DirectionKey::from_logical_key(text("é")), None);
    assert_eq!(DirectionKey::from_logical_key(LogicalKey::Other), None);
}

#[test]
fn physical_keys_map_wasd_and_hjkl() {
    let map = |k| DirectionKey::from_physical_key(PhysicalKey::Code(k));
    assert_eq!(map(KeyCode::KeyW), Some(DirectionKey::Up));
    assert_eq!(map(KeyCode::KeyK), Some(DirectionKey::Up));
    assert_eq!(map(KeyCode::KeyS), Some(DirectionKey::Down));
    assert_eq!(map(KeyCode::KeyJ), Some(DirectionKey::Down));
    assert_eq!(map(KeyCode::KeyA), Some(DirectionKey::Left));
    assert_eq!(map(KeyCode::KeyH), Some(DirectionKey::Left));
    assert_eq!(map(KeyCode::KeyD), Some(DirectionKey::Right));
    assert_eq!(map(KeyCode::KeyL), Some(DirectionKey::Right));
    assert_eq!(map(KeyCode::KeyR), None);
    assert_eq!(map(KeyCode::Other), None);
    assert_eq!(DirectionKey::from_physical_key(PhysicalKey::Unidentified), None);
}

#[test]
fn mappings_agree_on_wasd() {
    for (t, c) in [("w", KeyCode::KeyW), ("a", KeyCode::KeyA), ("s", KeyCode::KeyS), ("d", KeyCode::KeyD)] {
        let logical = DirectionKey::from_logical_key(text(t));
        assert!(logical.is_some());
        assert_eq!(logical, DirectionKey::from_physical_key(PhysicalKey::Code(c)));
    }
}

#[test]
fn direction_slots_are_distinct() {
    let all = [DirectionKey::Up, DirectionKey::Left, DirectionKey::Down, DirectionKey::Right];
    let slots: Vec<usize> = all.iter().map(|d| d.index()).collect();
    assert_eq!(slots, vec![0, 1, 2, 3]);
    for d in all {
        assert_eq!(d.index(), d as usize);
    }
}

#[test]
fn direction_order_follows_slots() {
    assert!(DirectionKey::Up < DirectionKey::Left);
    assert!(DirectionKey::Down < DirectionKey::Right);
}

#[test]
fn move_camera_counts_held_keys() {
    let mut s = InputState::default();
    assert!(!s.any_movement());
    s.move_camera();
    assert_eq!(s.pos(), (0, 0));
    s.keystate[DirectionKey::Up.index()] = true;
    s.keystate[DirectionKey::Right.index()] = true;
    assert!(s.any_movement());
    s.move_camera();
    assert_eq!(s.pos(), (1, 1));
    s.move_camera();
    assert_eq!(s.pos(), (2, 2));
}

#[test]
fn opposite_keys_cancel() {
    let mut s = InputState::new();
    s.keystate = [true, true, true, true];
    s.move_camera();
    assert_eq!(s.pos(), (0, 0));
    assert!(s.any_movement());
}

#[test]
fn left_and_down_count_negative() {
    let mut s = InputState::new();
    s.keystate[DirectionKey::Left.index()] = true;
    s.keystate[DirectionKey::Down.index()] = true;
    s.move_camera();
    assert_eq!(s.pos(), (-1, -1));
}

#[test]
fn clear_releases_everything() {
    let mut s = InputState::new();
    s.keystate = [true, false, true, false];
    s.move_camera();
    s.clear();
    assert_eq!(s.keystate, [false; 4]);
    assert_eq!(s.pos(), (0, 0));
    assert!(!s.any_movement());
}

#[test]
fn key_layout_flags() {
    assert_eq!(KeyLayout::Wasd.flag(), 0);
    assert_eq!(KeyLayout::Hjkl.flag(), 2);
    assert_eq!(KeyLayout::Arrows.flag(), 4);
    assert_eq!(KeyLayout::Wasd.flag() | KeyLayout::Hjkl.flag() | KeyLayout::Arrows.flag(), 6);
}

#[test]
fn set_key_holds_and_releases_one_direction() {
    let mut s = InputState::new();
    s.set_key(DirectionKey::Down, true);
    assert_eq!(s.keystate, [false, false, true, false]);
    s.set_key(DirectionKey::Right, true);
    s.set_key(DirectionKey::Down, false);
    assert_eq!(s.keystate, [false, false, false, true]);
    assert_eq!(s.pos(), (0, 0));
    s.move_camera();
    assert_eq!(s.pos(), (1, 0));
}
