//! The player-input aggregator.
//!
//! Each frame the four directional buttons are read as booleans (each
//! already the logical OR of every physical source bound to it), their
//! unit vectors are summed, and the sum is turned into at most one
//! movement intent. Opposing presses cancel exactly: a zero sum means
//! no movement event at all, never a degenerate direction.
//!
//! With four axis-aligned unit inputs the sum's components are always
//! in -1..=1, so the normalized result is always one of the eight
//! compass directions; `Direction` names them exactly, and the
//! embedding application maps each to its floating-point unit vector.

use vstd::prelude::*;

use crate::aquarium::Vec2i;

verus! {

/// Everything the player can ask for; only the four movement actions
/// carry a direction.
#[derive(Clone, Copy, Debug, PartialEq, Eq, Structural)]
pub enum PlayerAction {
    Up,
    Down,
    Left,
    Right,
    Ability1,
    Ability2,
    Ability3,
    Ability4,
    Ultimate,
}

/// A unit direction: one of the eight compass points. The diagonal
/// variants stand for the unit vectors with equal-magnitude
/// components (for instance north-east is the unit vector with equal
/// positive x and y components).
#[derive(Clone, Copy, Debug, PartialEq, Eq, Structural)]
pub enum Direction {
    North,
    NorthEast,
    East,
    SouthEast,
    South,
    SouthWest,
    West,
    NorthWest,
}

/// Press-state of the four directional buttons this frame, each the
/// logical OR of all bound physical sources.
#[derive(Clone, Copy, Debug, PartialEq, Eq, Structural)]
pub struct InputSnapshot {
    pub up: bool,
    pub down: bool,
    pub left: bool,
    pub right: bool,
}

/// One movement-intent event, emitted at most once per frame.
#[derive(Clone, Copy, Debug, PartialEq, Eq, Structural)]
pub struct PlayerMovement {
    pub direction: Direction,
}

impl PlayerAction {
    /// The unit vector a movement action contributes to the input sum;
    /// the ability actions contribute none.
    pub fn direction(self) -> (d: Option<Vec2i>)
        ensures
            d == spec_action_direction(self),
    {
        match self {
            PlayerAction::Up => Some(Vec2i { x: 0, y: 1 }),
            PlayerAction::Down => Some(Vec2i { x: 0, y: -1 }),
            PlayerAction::Right => Some(Vec2i { x: 1, y: 0 }),
            PlayerAction::Left => Some(Vec2i { x: -1, y: 0 }),
            _ => None,
        }
    }
}

/// The unit vector each action contributes to the input sum.
pub open spec fn spec_action_direction(a: PlayerAction) -> Option<Vec2i> {
    match a {
        PlayerAction::Up => Some(Vec2i { x: 0, y: 1 }),
        PlayerAction::Down => Some(Vec2i { x: 0, y: -1i64 }),
        PlayerAction::Right => Some(Vec2i { x: 1, y: 0 }),
        PlayerAction::Left => Some(Vec2i { x: -1i64, y: 0 }),
        _ => None,
    }
}

/// Sum of the unit vectors of every pressed direction: opposing
/// presses cancel, so each component is in -1..=1.
pub open spec fn spec_raw_sum(s: InputSnapshot) -> Vec2i {
    Vec2i {
        x: ((if s.right {
            1int
        } else {
            0int
        }) - (if s.left {
            1int
        } else {
            0int
        })) as i64,
        y: ((if s.up {
            1int
        } else {
            0int
        }) - (if s.down {
            1int
        } else {
            0int
        })) as i64,
    }
}

/// Normalizes a summed input vector with components in -1..=1: the
/// zero vector yields no direction, every other combination the
/// compass direction it points in.
pub open spec fn spec_direction_of(v: Vec2i) -> Option<Direction> {
    if v.x == 0 && v.y == 0 {
        None
    } else if v.x == 0 && v.y > 0 {
        Some(Direction::North)
    } else if v.x > 0 && v.y > 0 {
        Some(Direction::NorthEast)
    } else if v.x > 0 && v.y == 0 {
        Some(Direction::East)
    } else if v.x > 0 && v.y < 0 {
        Some(Direction::SouthEast)
    } else if v.x == 0 && v.y < 0 {
        Some(Direction::South)
    } else if v.x < 0 && v.y < 0 {
        Some(Direction::SouthWest)
    } else if v.x < 0 && v.y == 0 {
        Some(Direction::West)
    } else {
        Some(Direction::NorthWest)
    }
}

/// The movement intent a full input snapshot produces: the normalized
/// sum of the pressed directions, or nothing when they cancel.
pub open spec fn spec_player_movement(s: InputSnapshot) -> Option<PlayerMovement> {
    match spec_direction_of(spec_raw_sum(s)) {
        None => None,
        Some(d) => Some(PlayerMovement { direction: d }),
    }
}

/// Fuses one frame's directional press-state into at most one
/// movement-intent event: the unit vectors of the pressed directions
/// are summed and the sum normalized, with a zero sum (nothing
/// pressed, or exactly cancelling presses) yielding no event.
pub fn control_player_movement(s: &InputSnapshot) -> (r: Option<PlayerMovement>)
    ensures
        r == spec_player_movement(*s),
{
    let x: i64 = (if s.right {
        1i64
    } else {
        0i64
    }) - (if s.left {
        1i64
    } else {
        0i64
    });
    let y: i64 = (if s.up {
        1i64
    } else {
        0i64
    }) - (if s.down {
        1i64
    } else {
        0i64
    });
    let d: Option<Direction> = if x == 0 && y == 0 {
        None
    } else if x == 0 && y > 0 {
        Some(Direction::North)
    } else if x > 0 && y > 0 {
        Some(Direction::NorthEast)
    } else if x > 0 && y == 0 {
        Some(Direction::East)
    } else if x > 0 && y < 0 {
        Some(Direction::SouthEast)
    } else if x == 0 && y < 0 {
        Some(Direction::South)
    } else if x < 0 && y < 0 {
        Some(Direction::SouthWest)
    } else if x < 0 && y == 0 {
        Some(Direction::West)
    } else {
        Some(Direction::NorthWest)
    };
    match d {
        None => None,
        Some(dir) => Some(PlayerMovement { direction: dir }),
    }
}

/// Input cancellation: whenever the two vertical presses agree and the
/// two horizontal presses agree — in particular up and down pressed
/// together and nothing else — the sum is zero and no movement event
/// is emitted.
pub proof fn lemma_opposing_inputs_cancel(s: InputSnapshot)
    requires
        s.up == s.down,
        s.left == s.right,
    ensures
        spec_player_movement(s) is None,
{
}

/// Diagonal normalization: up and right pressed together, and nothing
/// else, yield exactly a north-east intent — the unit direction with
/// equal positive x and y components.
pub proof fn lemma_diagonal_intent(s: InputSnapshot)
    requires
        s.up,
        s.right,
        !s.down,
        !s.left,
    ensures
        spec_player_movement(s) == Some(PlayerMovement { direction: Direction::NorthEast }),
{
}

/// A movement event is emitted exactly when the pressed directions do
/// not cancel: on each axis the two presses must differ somewhere.
pub proof fn lemma_movement_emitted_iff_not_cancelled(s: InputSnapshot)
    ensures
        (spec_player_movement(s) is Some) <==> (s.up != s.down || s.left != s.right),
{
}

} // verus!
