use goose_flowers::input::{
    half_diagonal, key_binding, process_keyboard_input, Direction, Input, InputState,
};

fn pressed(inputs: &[Input]) -> InputState {
    let mut s = InputState::new();
    for i in inputs {
        s.set(*i, true);
    }
    s
}

#[test]
fn nothing_pressed_is_zero() {
    let d = InputState::new().normalized_direction();
    assert_eq!(d, Direction { x: 0, y: 0 });
    assert!(d.is_zero_vector());
}

#[test]
fn left_and_right_cancel() {
    let d = pressed(&[Input::MoveLeft, Input::MoveRight]).normalized_direction();
    assert_eq!(d, Direction { x: 0, y: 0 });
    assert_eq!(d.step(100), (0, 0));
}

#[test]
fn all_four_cancel() {
    let s = pressed(&[Input::MoveLeft, Input::MoveRight, Input::MoveUp, Input::MoveDown]);
    assert!(s.normalized_direction().is_zero_vector());
}

#[test]
fn left_and_up_is_a_unit_diagonal() {
    let d = pressed(&[Input::MoveLeft, Input::MoveUp]).normalized_direction();
    assert_eq!(d, Direction { x: -1, y: 1 });
    // 100 / sqrt(2) = 70.71: 70 on each axis, pointing at 135 degrees
    assert_eq!(d.step(100), (-70, 70));
    let (dx, dy) = d.step(1000);
    let len_sq = dx * dx + dy * dy;
    assert!(len_sq <= 1000 * 1000);
    assert!(1000 * 1000 < len_sq + 4 * 1000 + 2);
}

#[test]
fn single_direction_moves_full_distance() {
    assert_eq!(pressed(&[Input::MoveRight]).normalized_direction().step(25), (25, 0));
    assert_eq!(pressed(&[Input::MoveDown]).normalized_direction().step(7), (0, -7));
}

#[test]
fn every_combination_has_length_zero_or_one() {
    for mask in 0u32..16 {
        let s = InputState {
            left: mask & 1 != 0,
            right: mask & 2 != 0,
            up: mask & 4 != 0,
            down: mask & 8 != 0,
        };
        let d = s.normalized_direction();
        let (dx, dy) = d.step(1000);
        let len_sq = dx * dx + dy * dy;
        if d.is_zero_vector() {
            assert_eq!(len_sq, 0);
        } else {
            assert!(len_sq <= 1_000_000 && 1_000_000 < len_sq + 4002, "mask {}", mask);
        }
    }
}

#[test]
fn set_and_release() {
    let mut s = InputState::new();
    s.set(Input::MoveUp, true);
    assert!(s.get(Input::MoveUp));
    assert!(!s.get(Input::MoveDown));
    s.set(Input::MoveUp, false);
    assert!(!s.get(Input::MoveUp));
}

#[test]
fn movement_lists_four_directions() {
    let all = Input::movement();
    assert_eq!(all, vec![Input::MoveLeft, Input::MoveRight, Input::MoveUp, Input::MoveDown]);
    assert_eq!(Input::MoveLeft.direction(), Some(Direction { x: -1, y: 0 }));
}

#[test]
fn half_diagonal_values() {
    assert_eq!(half_diagonal(0), 0);
    assert_eq!(half_diagonal(1), 0);
    assert_eq!(half_diagonal(2), 1);
    assert_eq!(half_diagonal(100), 70);
    assert_eq!(half_diagonal(i64::MAX as u64), 6521908912666391105);
}

#[test]
fn keys_map_to_directions() {
    assert_eq!(key_binding('a'), Some(Input::MoveLeft));
    assert_eq!(key_binding('d'), Some(Input::MoveRight));
    assert_eq!(key_binding('w'), Some(Input::MoveUp));
    assert_eq!(key_binding('s'), Some(Input::MoveDown));
    assert_eq!(key_binding('x'), None);
    let mut s = InputState::new();
    process_keyboard_input(&mut s, 'w', true);
    process_keyboard_input(&mut s, 'q', true);
    assert_eq!(s, InputState { left: false, right: false, up: true, down: false });
    process_keyboard_input(&mut s, 'w', false);
    assert_eq!(s, InputState::new());
}
