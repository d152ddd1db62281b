use raymarch::render::{
    accepts_size, recovery, workgroup_count, Recovery, Side, SurfaceFault, TemporalState,
    Volume, TEX_SIZE, WORKGROUP_SIZE,
};
use raymarch::uniforms::{KeyCode, LogicalKey, PhysicalKey};
use raymarch::wiggle::pingpong::{PingPongBuffer, PingPongBufferView};

#[test]
fn new_state_starts_at_frame_zero() {
    let s = TemporalState::new();
    assert_eq!(s.frame(), 0);
    assert!(!s.parity());
    assert_eq!(s.compute_side(), Side::Back);
    assert_eq!(s.render_side(), Side::Front);
}

#[test]
fn advance_counts_frames_and_flips_parity() {
    let mut s = TemporalState::new();
    s.advance();
    assert_eq!(s.frame(), 1);
    assert!(s.parity());
    assert_eq!(s.compute_side(), Side::Front);
    assert_eq!(s.render_side(), Side::Back);
    s.advance();
    assert_eq!(s.frame(), 2);
    assert!(!s.parity());
}

#[test]
fn compute_and_render_use_opposite_groups() {
    let mut s = TemporalState::new();
    for _ in 0..5 {
        assert_ne!(s.compute_side(), s.render_side());
        s.advance();
    }
}

#[test]
fn r_key_restarts_the_frame_count() {
    let mut s = TemporalState::new();
    s.advance();
    s.advance();
    s.advance();
    s.on_physical_key(PhysicalKey::Code(KeyCode::KeyR), true);
    assert_eq!(s.frame(), 0);
    assert!(!s.parity());
    s.advance();
    s.on_physical_key(PhysicalKey::Code(KeyCode::KeyR), false);
    assert_eq!(s.frame(), 0);
}

#[test]
fn held_key_moves_once_then_counts_released() {
    let mut s = TemporalState::new();
    assert_eq!(s.take_movement(), None);
    s.on_physical_key(PhysicalKey::Code(KeyCode::KeyW), true);
    assert_eq!(s.take_movement(), Some((0, 1)));
    assert_eq!(s.take_movement(), None);
    s.on_logical_key(LogicalKey::Character("d".to_string()), true);
    s.on_logical_key(LogicalKey::Character("s".to_string()), true);
    assert_eq!(s.take_movement(), Some((1, -1)));
}

#[test]
fn released_key_does_not_move() {
    let mut s = TemporalState::new();
    s.on_physical_key(PhysicalKey::Code(KeyCode::KeyH), true);
    s.on_physical_key(PhysicalKey::Code(KeyCode::KeyH), false);
    assert_eq!(s.take_movement(), None);
}

#[test]
fn opposite_keys_give_a_zero_movement() {
    let mut s = TemporalState::new();
    s.on_physical_key(PhysicalKey::Code(KeyCode::KeyK), true);
    s.on_physical_key(PhysicalKey::Code(KeyCode::KeyJ), true);
    assert_eq!(s.take_movement(), Some((0, 0)));
    assert_eq!(s.take_movement(), None);
}

#[test]
fn other_keys_change_nothing() {
    let mut s = TemporalState::new();
    s.advance();
    s.on_physical_key(PhysicalKey::Code(KeyCode::Other), true);
    s.on_physical_key(PhysicalKey::Unidentified, true);
    s.on_logical_key(LogicalKey::Other, true);
    s.on_logical_key(LogicalKey::Character("q".to_string()), true);
    assert_eq!(s.frame(), 1);
    assert!(s.parity());
    assert_eq!(s.take_movement(), None);
}

#[test]
fn workgroups_round_up() {
    assert_eq!(workgroup_count(TEX_SIZE), 8);
    assert_eq!(workgroup_count(0), 0);
    assert_eq!(workgroup_count(1), 1);
    assert_eq!(workgroup_count(4), 1);
    assert_eq!(workgroup_count(5), 2);
    assert_eq!(workgroup_count(u32::MAX), u32::MAX / WORKGROUP_SIZE + 1);
    for n in 0..100u32 {
        assert_eq!(workgroup_count(n), n.div_ceil(WORKGROUP_SIZE));
    }
}

#[test]
fn sizes_are_taken_only_when_non_zero() {
    assert!(accepts_size(1280, 720));
    assert!(!accepts_size(0, 720));
    assert!(!accepts_size(1280, 0));
    assert!(!accepts_size(0, 0));
}

#[test]
fn surface_faults_are_answered() {
    assert_eq!(recovery(SurfaceFault::OutOfMemory), Recovery::Exit);
    assert_eq!(recovery(SurfaceFault::Lost), Recovery::Reconfigure);
    assert_eq!(recovery(SurfaceFault::Timeout), Recovery::Report);
    assert_eq!(recovery(SurfaceFault::Outdated), Recovery::Report);
    assert_eq!(recovery(SurfaceFault::Other), Recovery::Report);
}

#[test]
fn ping_pong_swaps_roles() {
    let mut b = PingPongBuffer::new("front", "back");
    assert_eq!(*b.front(), "front");
    assert_eq!(*b.back(), "back");
    b.update();
    assert_eq!(*b.front(), "back");
    assert_eq!(*b.back(), "front");
    b.update();
    assert_eq!(*b.front(), "front");
    assert_eq!(*b.back(), "back");
}

#[test]
fn ping_pong_view_holds_both() {
    let v = PingPongBufferView([1, 2]);
    assert_eq!(v.0, [1, 2]);
}

#[test]
fn bind_groups_wire_the_volumes_alternately() {
    assert_eq!(Side::Front.compute_volumes(), (Volume::A, Volume::B));
    assert_eq!(Side::Back.compute_volumes(), (Volume::B, Volume::A));
    assert_eq!(Side::Front.render_volume(), Volume::A);
    assert_eq!(Side::Back.render_volume(), Volume::B);
    let mut s = TemporalState::new();
    for _ in 0..4 {
        let written = s.compute_side().compute_volumes().1;
        assert_eq!(s.render_side().render_volume(), written);
        s.advance();
        assert_eq!(s.compute_side().compute_volumes().0, written);
    }
}
