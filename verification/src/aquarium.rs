//! The enclosure geometry and the water-level oscillator.
//!
//! The tank is a fixed axis-aligned rectangle. The water body always
//! spans the full interior width; its height is the interior height
//! scaled by the current fill `level`, and its bottom edge always rests
//! on the enclosure floor, so only the surface moves as the level
//! changes.
//!
//! Units: the fill level is a fraction in millionths (`LEVEL_SCALE`),
//! wall extents are whole world units, and every derived coordinate is
//! in subunits, with `SUBUNITS_PER_UNIT` subunits to the world unit.
//! `SUBUNITS_PER_UNIT` is twice `LEVEL_SCALE` so that both the level
//! scaling and the halving in the centre-offset formula stay exact.

use vstd::prelude::*;

verus! {

/// Denominator of the fill-level fixed point: a level of `LEVEL_SCALE`
/// means a completely full tank.
pub const LEVEL_SCALE: i64 = 1_000_000;

/// Subunits per world unit for all derived coordinates.
pub const SUBUNITS_PER_UNIT: i64 = 2_000_000;

/// Thickness of each enclosure wall, in world units.
pub const WALL_THICKNESS: i64 = 2;

/// Extents of the enclosure walls, in world units.
pub const LEFT_WALL: i64 = -250;
pub const RIGHT_WALL: i64 = 250;
pub const BOTTOM_WALL: i64 = -300;
pub const TOP_WALL: i64 = 300;

/// Interior width of the enclosure, in world units:
/// `RIGHT_WALL - LEFT_WALL - WALL_THICKNESS` (see
/// `lemma_interior_dimensions`).
pub const INTERIOR_WIDTH: i64 = 498;

/// Interior height of the enclosure, in world units:
/// `TOP_WALL - BOTTOM_WALL - WALL_THICKNESS` (see
/// `lemma_interior_dimensions`).
pub const INTERIOR_HEIGHT: i64 = 598;

/// The interior dimensions are what the wall extents dictate, and are
/// positive as the enclosure invariant demands.
pub proof fn lemma_interior_dimensions()
    ensures
        INTERIOR_WIDTH == RIGHT_WALL - LEFT_WALL - WALL_THICKNESS,
        INTERIOR_HEIGHT == TOP_WALL - BOTTOM_WALL - WALL_THICKNESS,
        INTERIOR_WIDTH > 0,
        INTERIOR_HEIGHT > 0,
{
}

/// Level the water drains down to before it starts filling again,
/// in millionths (0.90).
pub const LOW_WATER_GOAL: u32 = 900_000;

/// Level the water fills up to before it starts draining again,
/// in millionths (0.95).
pub const HIGH_WATER_GOAL: u32 = 950_000;

/// Oscillation speed of the fill level, in millionths per millisecond
/// (0.01 level units per second).
pub const WATER_LEVEL_SPEED: i64 = 10;

/// A 2D vector with exact integer components.
#[derive(Clone, Copy, Debug, PartialEq, Eq, Structural)]
pub struct Vec2i {
    pub x: i64,
    pub y: i64,
}

/// Whether the water level is currently rising or falling.
#[derive(Clone, Copy, Debug, PartialEq, Eq, Structural)]
pub enum WaterDirection {
    Filling,
    Emptying,
}

/// The oscillating water body.
///
/// `level` and `goal_level` are fill fractions in millionths of
/// `LEVEL_SCALE`; `direction` selects the sign of the per-tick level
/// change.
#[derive(Clone, Copy, Debug, PartialEq, Eq, Structural)]
pub struct Water {
    pub level: u32,
    pub goal_level: u32,
    pub direction: WaterDirection,
}

/// Mathematical model of a `Water` state: the same three fields over
/// unbounded integers.
pub struct WaterModel {
    pub level: int,
    pub goal_level: int,
    pub direction: WaterDirection,
}

impl Water {
    /// The mathematical state this value represents.
    pub open spec fn model(self) -> WaterModel {
        WaterModel {
            level: self.level as int,
            goal_level: self.goal_level as int,
            direction: self.direction,
        }
    }

    /// Both level fields are valid fill fractions.
    pub open spec fn wf(self) -> bool {
        self.level <= LEVEL_SCALE && self.goal_level <= LEVEL_SCALE
    }

    /// Creates a water body at the given fill level, about to drain,
    /// with the current level as its first goal. The level must be a
    /// valid fraction of `LEVEL_SCALE`.
    pub fn new(level: u32) -> (w: Water)
        requires
            level <= LEVEL_SCALE,
        ensures
            w.level == level,
            w.goal_level == level,
            w.direction == WaterDirection::Emptying,
            w.wf(),
    {
        Water { level, goal_level: level, direction: WaterDirection::Emptying }
    }

    /// Centre of the water rectangle, in subunits. The offset keeps the
    /// water's bottom edge on the enclosure floor while its top edge
    /// rises with the level.
    pub fn water_translation(&self) -> (t: Vec2i)
        requires
            self.wf(),
        ensures
            t.x == 0,
            t.y == spec_water_translation_y(self.model().level),
    {
        let l: i64 = self.level as i64;
        proof {
            assert(INTERIOR_HEIGHT * (l as int) == 598 * (l as int)) by (nonlinear_arith);
            assert(INTERIOR_HEIGHT * LEVEL_SCALE == 598_000_000) by (nonlinear_arith);
        }
        Vec2i { x: 0, y: INTERIOR_HEIGHT * l - INTERIOR_HEIGHT * LEVEL_SCALE }
    }

    /// Size of the water rectangle, in subunits: full interior width,
    /// interior height scaled by the fill level.
    pub fn water_size(&self) -> (s: Vec2i)
        requires
            self.wf(),
        ensures
            s.x == INTERIOR_WIDTH * SUBUNITS_PER_UNIT,
            s.y == spec_water_height(self.model().level),
    {
        let l: i64 = self.level as i64;
        proof {
            assert(2 * INTERIOR_HEIGHT * (l as int) == 1196 * (l as int)) by (nonlinear_arith);
            assert(INTERIOR_WIDTH * SUBUNITS_PER_UNIT == 996_000_000) by (nonlinear_arith);
        }
        Vec2i { x: INTERIOR_WIDTH * SUBUNITS_PER_UNIT, y: 2 * INTERIOR_HEIGHT * l }
    }

    /// Height of the water's top edge, in subunits.
    pub fn surface(&self) -> (y: i64)
        requires
            self.wf(),
        ensures
            y == spec_surface(self.model().level),
    {
        let l: i64 = self.level as i64;
        proof {
            assert(2 * INTERIOR_HEIGHT * (l as int) == 1196 * (l as int)) by (nonlinear_arith);
            assert(INTERIOR_HEIGHT * LEVEL_SCALE == 598_000_000) by (nonlinear_arith);
        }
        2 * INTERIOR_HEIGHT * l - INTERIOR_HEIGHT * LEVEL_SCALE
    }

    /// Height of the water's bottom edge, in subunits. It rests on the
    /// enclosure floor whatever the level.
    pub fn bottom(&self) -> (y: i64)
        requires
            self.wf(),
        ensures
            y == spec_bottom(),
    {
        proof {
            assert(INTERIOR_HEIGHT * LEVEL_SCALE == 598_000_000) by (nonlinear_arith);
        }
        -(INTERIOR_HEIGHT * LEVEL_SCALE)
    }
}

/// The four enclosure walls.
#[derive(Clone, Copy, Debug, PartialEq, Eq, Structural)]
pub enum WallLocation {
    Left,
    Right,
    Bottom,
    Top,
}

impl WallLocation {
    /// Centre of this wall, in subunits: on its extent line
    /// (`LEFT_WALL`, `RIGHT_WALL`, `BOTTOM_WALL` or `TOP_WALL`, scaled
    /// by `SUBUNITS_PER_UNIT`), centred along the other axis.
    pub fn position(&self) -> (p: Vec2i)
        ensures
            self is Left ==> p == (Vec2i { x: -500_000_000i64, y: 0 }),
            self is Right ==> p == (Vec2i { x: 500_000_000i64, y: 0 }),
            self is Bottom ==> p == (Vec2i { x: 0, y: -600_000_000i64 }),
            self is Top ==> p == (Vec2i { x: 0, y: 600_000_000i64 }),
    {
        match self {
            WallLocation::Left => Vec2i { x: -500_000_000, y: 0 },
            WallLocation::Right => Vec2i { x: 500_000_000, y: 0 },
            WallLocation::Bottom => Vec2i { x: 0, y: -600_000_000 },
            WallLocation::Top => Vec2i { x: 0, y: 600_000_000 },
        }
    }

    /// Size of this wall's rectangle, in subunits: `WALL_THICKNESS`
    /// one way, the enclosure's span plus a thickness (to close the
    /// corners) the other, each scaled by `SUBUNITS_PER_UNIT`.
    pub fn size(&self) -> (s: Vec2i)
        ensures
            s.x > 0,
            s.y > 0,
            (self is Left || self is Right) ==> s == (Vec2i {
                x: 4_000_000i64,
                y: 1_204_000_000i64,
            }),
            (self is Bottom || self is Top) ==> s == (Vec2i {
                x: 1_004_000_000i64,
                y: 4_000_000i64,
            }),
    {
        match self {
            WallLocation::Left | WallLocation::Right => Vec2i {
                x: 4_000_000,
                y: 1_204_000_000,
            },
            WallLocation::Bottom | WallLocation::Top => Vec2i {
                x: 1_004_000_000,
                y: 4_000_000,
            },
        }
    }
}

/// Vertical centre offset of the water rectangle for a given level, in
/// subunits: `interior_height * (1 - level) / -2` in world units
/// (`lemma_water_geometry` relates the four geometry functions).
pub open spec fn spec_water_translation_y(level: int) -> int {
    INTERIOR_HEIGHT * level - INTERIOR_HEIGHT * LEVEL_SCALE
}

/// Height of the water rectangle for a given level, in subunits:
/// `interior_height * level` in world units.
pub open spec fn spec_water_height(level: int) -> int {
    2 * INTERIOR_HEIGHT * level
}

/// Height of the water surface for a given level, in subunits: the
/// centre offset plus half the water height.
pub open spec fn spec_surface(level: int) -> int {
    2 * INTERIOR_HEIGHT * level - INTERIOR_HEIGHT * LEVEL_SCALE
}

/// Height of the water's bottom edge, in subunits: the centre offset
/// minus half the water height, which the level cancels out of.
pub open spec fn spec_bottom() -> int {
    -(INTERIOR_HEIGHT * LEVEL_SCALE)
}

/// How the derived water rectangle hangs together, for any valid
/// level: the surface sits half the water height above the centre
/// offset and the bottom half below it (so the bottom always rests on
/// the enclosure floor), and the distance from bottom to surface is
/// exactly the water height — `interior_height * level` in world
/// units, with no rounding.
pub proof fn lemma_water_geometry(level: int)
    requires
        0 <= level <= LEVEL_SCALE,
    ensures
        spec_surface(level) == spec_water_translation_y(level) + spec_water_height(level) / 2,
        spec_bottom() == spec_water_translation_y(level) - spec_water_height(level) / 2,
        spec_surface(level) - spec_bottom() == spec_water_height(level),
        spec_water_height(level) == 2 * INTERIOR_HEIGHT * level,
{
    assert(INTERIOR_HEIGHT * level == 598 * level) by (nonlinear_arith);
    assert(2 * INTERIOR_HEIGHT * level == 1196 * level) by (nonlinear_arith);
    assert(INTERIOR_HEIGHT * LEVEL_SCALE == 598_000_000) by (nonlinear_arith);
    assert((1196 * level) / 2 == 598 * level);
}

/// Per-tick level change for an elapsed time in milliseconds.
pub open spec fn spec_level_delta(dt_ms: int) -> int {
    dt_ms * WATER_LEVEL_SPEED
}

/// Clamps a candidate level to the valid range, absorbing drift from
/// unusually large elapsed times.
pub open spec fn spec_clamp_level(l: int) -> int {
    if l < 0 {
        0
    } else if l > LEVEL_SCALE {
        LEVEL_SCALE as int
    } else {
        l
    }
}

/// One oscillator step: integrate the level along the current
/// direction, clamp it to the valid range, and on reaching the goal
/// swap direction and aim for the opposite goal.
pub open spec fn spec_fluctuate(m: WaterModel, dt_ms: int) -> WaterModel {
    match m.direction {
        WaterDirection::Filling => {
            let l = spec_clamp_level(m.level + spec_level_delta(dt_ms));
            if l >= m.goal_level {
                WaterModel {
                    level: l,
                    goal_level: LOW_WATER_GOAL as int,
                    direction: WaterDirection::Emptying,
                }
            } else {
                WaterModel { level: l, goal_level: m.goal_level, direction: m.direction }
            }
        },
        WaterDirection::Emptying => {
            let l = spec_clamp_level(m.level - spec_level_delta(dt_ms));
            if l <= m.goal_level {
                WaterModel {
                    level: l,
                    goal_level: HIGH_WATER_GOAL as int,
                    direction: WaterDirection::Filling,
                }
            } else {
                WaterModel { level: l, goal_level: m.goal_level, direction: m.direction }
            }
        },
    }
}

/// States the oscillator passes through once set going: either it is
/// filling towards the high goal, or emptying towards the low goal, or
/// it still sits in the state it was constructed in (full, about to
/// drain, with the high goal as its first target). `eps` bounds how
/// far one tick can overshoot a goal.
pub open spec fn spec_osc_inv(m: WaterModel, eps: int) -> bool {
    match m.direction {
        WaterDirection::Filling => m.goal_level == HIGH_WATER_GOAL && LOW_WATER_GOAL - eps
            <= m.level <= HIGH_WATER_GOAL,
        WaterDirection::Emptying => (m.goal_level == LOW_WATER_GOAL && LOW_WATER_GOAL <= m.level
            <= HIGH_WATER_GOAL + eps) || (m.goal_level == HIGH_WATER_GOAL && m.level
            == HIGH_WATER_GOAL),
    }
}

/// A freshly constructed water body at the high goal satisfies the
/// oscillator invariant.
pub proof fn lemma_initial_water_in_inv(eps: int)
    requires
        0 <= eps,
    ensures
        spec_osc_inv(
            WaterModel {
                level: HIGH_WATER_GOAL as int,
                goal_level: HIGH_WATER_GOAL as int,
                direction: WaterDirection::Emptying,
            },
            eps,
        ),
{
}

/// Oscillator boundedness: as long as no single tick moves the level
/// by more than `eps`, the level never leaves
/// `[LOW_WATER_GOAL - eps, HIGH_WATER_GOAL + eps]` — each tick
/// preserves the oscillator invariant and keeps the level in that
/// band, so by induction any sequence of such ticks does. The bound
/// `eps <= 50_000` keeps both band ends inside the representable
/// level range.
pub proof fn lemma_oscillator_bounded(m: WaterModel, dt_ms: int, eps: int)
    requires
        spec_osc_inv(m, eps),
        0 <= dt_ms,
        spec_level_delta(dt_ms) <= eps,
        0 <= eps <= 50_000,
    ensures
        spec_osc_inv(spec_fluctuate(m, dt_ms), eps),
        LOW_WATER_GOAL - eps <= spec_fluctuate(m, dt_ms).level <= HIGH_WATER_GOAL + eps,
{
}

/// Oscillator periodicity: a tick that reaches the current goal always
/// swaps the direction and aims for the opposite goal — emptying flips
/// to filling towards the high goal and filling flips to emptying
/// towards the low goal — and a tick that does not reach the goal
/// changes neither the direction nor the goal. Together with
/// `lemma_oscillator_never_stalls` the direction can never get stuck.
pub proof fn lemma_oscillator_switches(m: WaterModel, dt_ms: int)
    requires
        0 <= dt_ms,
    ensures
        (m.direction is Emptying && spec_clamp_level(m.level - spec_level_delta(dt_ms))
            <= m.goal_level) ==> spec_fluctuate(m, dt_ms).direction is Filling && spec_fluctuate(
            m,
            dt_ms,
        ).goal_level == HIGH_WATER_GOAL,
        (m.direction is Filling && spec_clamp_level(m.level + spec_level_delta(dt_ms))
            >= m.goal_level) ==> spec_fluctuate(m, dt_ms).direction is Emptying && spec_fluctuate(
            m,
            dt_ms,
        ).goal_level == LOW_WATER_GOAL,
        (m.direction is Emptying && spec_clamp_level(m.level - spec_level_delta(dt_ms))
            > m.goal_level) ==> spec_fluctuate(m, dt_ms).direction == m.direction && spec_fluctuate(
            m,
            dt_ms,
        ).goal_level == m.goal_level,
        (m.direction is Filling && spec_clamp_level(m.level + spec_level_delta(dt_ms))
            < m.goal_level) ==> spec_fluctuate(m, dt_ms).direction == m.direction && spec_fluctuate(
            m,
            dt_ms,
        ).goal_level == m.goal_level,
{
}

/// From any valid state, a tick long enough to sweep the whole level
/// range reaches the goal and flips the direction: the oscillator
/// cannot stall in either direction.
pub proof fn lemma_oscillator_never_stalls(m: WaterModel, dt_ms: int)
    requires
        0 <= m.level <= LEVEL_SCALE,
        0 <= m.goal_level <= LEVEL_SCALE,
        spec_level_delta(dt_ms) >= LEVEL_SCALE,
    ensures
        spec_fluctuate(m, dt_ms).direction != m.direction,
{
}

/// Advances the water oscillator by one tick of `dt_ms` milliseconds.
pub fn fluctuate_water(water: &mut Water, dt_ms: u32)
    requires
        old(water).wf(),
    ensures
        final(water).model() == spec_fluctuate(old(water).model(), dt_ms as int),
        final(water).wf(),
{
    let delta: i64 = dt_ms as i64 * WATER_LEVEL_SPEED;
    match water.direction {
        WaterDirection::Filling => {
            let raw: i64 = water.level as i64 + delta;
            let l: i64 = if raw < 0 {
                0
            } else if raw > LEVEL_SCALE {
                LEVEL_SCALE
            } else {
                raw
            };
            water.level = l as u32;
            if l >= water.goal_level as i64 {
                water.goal_level = LOW_WATER_GOAL;
                water.direction = WaterDirection::Emptying;
            }
        },
        WaterDirection::Emptying => {
            let raw: i64 = water.level as i64 - delta;
            let l: i64 = if raw < 0 {
                0
            } else if raw > LEVEL_SCALE {
                LEVEL_SCALE
            } else {
                raw
            };
            water.level = l as u32;
            if l <= water.goal_level as i64 {
                water.goal_level = HIGH_WATER_GOAL;
                water.direction = WaterDirection::Filling;
            }
        },
    }
}

} // verus!
