use glide::entity::Entity;
use glide::input::InputState;
use glide::update::direction_vector;
use glide::update::update_step;

const W: i64 = 800_000;
const H: i64 = 600_000;

fn held(up: bool, down: bool, left: bool, right: bool) -> InputState {
    InputState { up, down, left, right }
}

fn centered_entity() -> Entity {
    Entity { x: 400_000, y: 300_000, size: 28_000, speed: 220_000 }
}

#[test]
fn no_keys_give_the_zero_vector() {
    assert_eq!(direction_vector(&held(false, false, false, false)), (0, 0));
}

#[test]
fn opposing_keys_cancel_to_the_zero_vector() {
    assert_eq!(direction_vector(&held(false, false, true, true)), (0, 0));
    assert_eq!(direction_vector(&held(true, true, false, false)), (0, 0));
    assert_eq!(direction_vector(&held(true, true, true, true)), (0, 0));
}

#[test]
fn single_axis_vectors_have_unit_length() {
    assert_eq!(direction_vector(&held(false, false, false, true)), (1000, 0));
    assert_eq!(direction_vector(&held(false, false, true, false)), (-1000, 0));
    assert_eq!(direction_vector(&held(true, false, false, false)), (0, -1000));
    assert_eq!(direction_vector(&held(false, true, false, false)), (0, 1000));
}

#[test]
fn diagonal_vectors_are_normalized() {
    // up + right: approximately (0.7071, -0.7071), scaled by 1000.
    assert_eq!(direction_vector(&held(true, false, false, true)), (707, -707));
    assert_eq!(direction_vector(&held(false, true, true, false)), (-707, 707));
}

#[test]
fn cancelling_one_axis_leaves_a_unit_axis_vector() {
    // up + down cancel; left remains a full unit vector, not a diagonal.
    assert_eq!(direction_vector(&held(true, true, true, false)), (-1000, 0));
}

#[test]
fn one_frame_moves_speed_times_dt() {
    // 220 units/s for 16 ms is 3.52 units: 3520 sub-units.
    let e = centered_entity();
    let r = update_step(&held(false, false, false, true), &e, 16, W, H);
    assert_eq!((r.x, r.y), (403_520, 300_000));
    let r = update_step(&held(false, false, true, false), &e, 16, W, H);
    assert_eq!((r.x, r.y), (396_480, 300_000));
    let r = update_step(&held(true, false, false, false), &e, 16, W, H);
    assert_eq!((r.x, r.y), (400_000, 296_480));
}

#[test]
fn a_diagonal_frame_moves_both_axes_by_the_scaled_amount() {
    // 707/1000 of 3520 sub-units, rounded toward zero: 2488.
    let e = centered_entity();
    let r = update_step(&held(true, false, false, true), &e, 16, W, H);
    assert_eq!((r.x, r.y), (402_488, 297_512));
}

#[test]
fn zero_dt_moves_nothing() {
    let e = centered_entity();
    let r = update_step(&held(true, false, true, false), &e, 0, W, H);
    assert_eq!((r.x, r.y), (400_000, 300_000));
}

#[test]
fn cancelling_keys_move_nothing() {
    let e = centered_entity();
    let r = update_step(&held(false, false, true, true), &e, 1000, W, H);
    assert_eq!((r.x, r.y), (400_000, 300_000));
}

#[test]
fn an_overshooting_dt_is_clamped_to_the_boundary() {
    // Ten thousand seconds to the right would leave the surface by far;
    // the position pins to the right boundary, half a size from the edge.
    let e = centered_entity();
    let r = update_step(&held(false, false, false, true), &e, 10_000_000, W, H);
    assert_eq!((r.x, r.y), (786_000, 300_000));
    let r = update_step(&held(true, false, true, false), &e, 10_000_000, W, H);
    assert_eq!((r.x, r.y), (14_000, 14_000));
}

#[test]
fn a_position_outside_the_bounds_is_clamped_back() {
    let e = Entity { x: 0, y: 0, size: 28_000, speed: 0 };
    let r = update_step(&held(false, false, false, false), &e, 16, W, H);
    assert_eq!((r.x, r.y), (14_000, 14_000));
}

#[test]
fn an_entity_as_large_as_the_surface_is_pinned() {
    let e = Entity { x: 100_000, y: 100_000, size: 200_000, speed: 220_000 };
    let r = update_step(&held(false, false, false, true), &e, 5_000, 200_000, 200_000);
    assert_eq!((r.x, r.y), (100_000, 100_000));
}

#[test]
fn size_and_speed_never_change() {
    let e = centered_entity();
    let r = update_step(&held(true, false, false, true), &e, 12_345, W, H);
    assert_eq!(r.size, 28_000);
    assert_eq!(r.speed, 220_000);
}
