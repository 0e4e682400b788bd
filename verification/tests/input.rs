//! Tests of the directional-input aggregator.

use aquarium_core::aquarium::Vec2i;
use aquarium_core::player::control_player_movement;
use aquarium_core::player::Direction;
use aquarium_core::player::InputSnapshot;
use aquarium_core::player::PlayerAction;
use aquarium_core::player::PlayerMovement;

fn snapshot(up: bool, down: bool, left: bool, right: bool) -> InputSnapshot {
    InputSnapshot { up, down, left, right }
}

/// The floating-point unit vector a direction stands for, as the
/// embedding application would render it.
fn unit_vector(d: Direction) -> (f64, f64) {
    let diag = std::f64::consts::FRAC_1_SQRT_2;
    match d {
        Direction::North => (0.0, 1.0),
        Direction::NorthEast => (diag, diag),
        Direction::East => (1.0, 0.0),
        Direction::SouthEast => (diag, -diag),
        Direction::South => (0.0, -1.0),
        Direction::SouthWest => (-diag, -diag),
        Direction::West => (-1.0, 0.0),
        Direction::NorthWest => (-diag, diag),
    }
}

#[test]
fn nothing_pressed_yields_no_movement() {
    assert_eq!(control_player_movement(&snapshot(false, false, false, false)), None);
}

#[test]
fn opposing_presses_cancel() {
    // Up and Down together, and nothing else: no movement event.
    assert_eq!(control_player_movement(&snapshot(true, true, false, false)), None);
    // Likewise Left and Right, and all four at once.
    assert_eq!(control_player_movement(&snapshot(false, false, true, true)), None);
    assert_eq!(control_player_movement(&snapshot(true, true, true, true)), None);
}

#[test]
fn single_presses_give_the_four_cardinal_directions() {
    let cases = [
        (snapshot(true, false, false, false), Direction::North),
        (snapshot(false, true, false, false), Direction::South),
        (snapshot(false, false, true, false), Direction::West),
        (snapshot(false, false, false, true), Direction::East),
    ];
    for (s, d) in cases {
        assert_eq!(control_player_movement(&s), Some(PlayerMovement { direction: d }));
    }
}

#[test]
fn diagonal_press_normalizes_to_the_unit_diagonal() {
    // Up and Right together: one movement event, in the direction with
    // equal positive x and y components and unit magnitude.
    let m = control_player_movement(&snapshot(true, false, false, true)).unwrap();
    assert_eq!(m.direction, Direction::NorthEast);
    let (x, y) = unit_vector(m.direction);
    assert_eq!(x, y);
    assert!(x > 0.0 && y > 0.0);
    assert!(((x * x + y * y).sqrt() - 1.0).abs() <= 1e-5);
}

#[test]
fn all_diagonals() {
    let cases = [
        (snapshot(true, false, false, true), Direction::NorthEast),
        (snapshot(false, true, false, true), Direction::SouthEast),
        (snapshot(false, true, true, false), Direction::SouthWest),
        (snapshot(true, false, true, false), Direction::NorthWest),
    ];
    for (s, d) in cases {
        assert_eq!(control_player_movement(&s), Some(PlayerMovement { direction: d }));
    }
}

#[test]
fn a_cancelling_axis_leaves_the_other_axis_alone() {
    // Up+Down cancel vertically; a simultaneous Left still moves west.
    let m = control_player_movement(&snapshot(true, true, true, false));
    assert_eq!(m, Some(PlayerMovement { direction: Direction::West }));
}

#[test]
fn every_direction_has_a_unit_vector() {
    for d in [
        Direction::North,
        Direction::NorthEast,
        Direction::East,
        Direction::SouthEast,
        Direction::South,
        Direction::SouthWest,
        Direction::West,
        Direction::NorthWest,
    ] {
        let (x, y) = unit_vector(d);
        assert!(((x * x + y * y).sqrt() - 1.0).abs() <= 1e-5);
    }
}

#[test]
fn actions_contribute_their_unit_vectors() {
    assert_eq!(PlayerAction::Up.direction(), Some(Vec2i { x: 0, y: 1 }));
    assert_eq!(PlayerAction::Down.direction(), Some(Vec2i { x: 0, y: -1 }));
    assert_eq!(PlayerAction::Left.direction(), Some(Vec2i { x: -1, y: 0 }));
    assert_eq!(PlayerAction::Right.direction(), Some(Vec2i { x: 1, y: 0 }));
    assert_eq!(PlayerAction::Ability1.direction(), None);
    assert_eq!(PlayerAction::Ability2.direction(), None);
    assert_eq!(PlayerAction::Ability3.direction(), None);
    assert_eq!(PlayerAction::Ability4.direction(), None);
    assert_eq!(PlayerAction::Ultimate.direction(), None);
}
