//! The bubble subsystem: periodic spawning at the water's bottom,
//! constant upward motion, and despawning above the surface.
//!
//! The spawn timer accumulates elapsed simulation time and fires once
//! per full interval it has crossed, so one unusually long tick may
//! fire it several times and a short tick not at all. While no water
//! body exists the timer keeps accumulating but no fire is consumed,
//! so bubbles owed for that span appear in a batch once water exists
//! again; despawning is likewise skipped entirely without water.
//!
//! Positions are in subunits (`SUBUNITS_PER_UNIT` to the world unit)
//! and durations in whole milliseconds, as in the rest of the crate.

use vstd::prelude::*;

use crate::aquarium::spec_bottom;
use crate::aquarium::spec_surface;
use crate::aquarium::Water;

verus! {

/// Upward bubble speed, in subunits per millisecond (100 world units
/// per second).
pub const BUBBLE_SPEED: i64 = 200_000;

/// Interval between bubble spawns, in milliseconds.
pub const BUBBLE_SPAWN_INTERVAL_MS: u64 = 500;

/// Vertical position a fresh bubble spawns at, in subunits: the
/// water's bottom edge (`lemma_bubble_spawn_y` ties the two).
pub const BUBBLE_SPAWN_Y: i64 = -598_000_000;

/// Horizontal scale of a bubble sprite, in hundredths of the sprite's
/// natural size.
pub const BUBBLE_SCALE_PERCENT: u8 = 10;

/// A fresh bubble spawns exactly at the water's bottom edge.
pub proof fn lemma_bubble_spawn_y()
    ensures
        BUBBLE_SPAWN_Y == spec_bottom(),
{
    assert(crate::aquarium::INTERIOR_HEIGHT * crate::aquarium::LEVEL_SCALE == 598_000_000)
        by (nonlinear_arith);
}

/// One bubble: a position in subunits. Bubbles only ever move straight
/// up, at `BUBBLE_SPEED`.
#[derive(Clone, Copy, Debug, PartialEq, Eq, Structural)]
pub struct Bubble {
    pub x: i64,
    pub y: i64,
}

/// The periodic spawn timer: a fixed interval and the simulation time
/// accumulated towards the next fire.
#[derive(Clone, Copy, Debug, PartialEq, Eq, Structural)]
pub struct BubbleSpawnTimer {
    pub interval_ms: u64,
    pub elapsed_ms: u64,
}

impl BubbleSpawnTimer {
    /// The interval is positive, so the fire count of a tick is
    /// well defined.
    pub open spec fn wf(self) -> bool {
        self.interval_ms >= 1
    }

    /// Creates a timer that has just been started.
    pub fn new(interval_ms: u64) -> (t: BubbleSpawnTimer)
        requires
            interval_ms >= 1,
        ensures
            t.interval_ms == interval_ms,
            t.elapsed_ms == 0,
            t.wf(),
    {
        BubbleSpawnTimer { interval_ms, elapsed_ms: 0 }
    }
}

/// Accumulated timer time after a tick of `dt_ms`, saturating at the
/// top of the counter's range rather than wrapping.
pub open spec fn spec_timer_elapsed(elapsed_ms: int, dt_ms: int) -> int {
    if elapsed_ms + dt_ms > u64::MAX {
        u64::MAX as int
    } else {
        elapsed_ms + dt_ms
    }
}

/// A bubble's vertical position after rising for `dt_ms`, saturating
/// at the top of the coordinate range rather than wrapping. (A bubble
/// only rises without bound while no water body exists to despawn it.)
pub open spec fn spec_rise(y: int, dt_ms: int) -> int {
    if y + dt_ms * BUBBLE_SPEED > i64::MAX {
        i64::MAX as int
    } else {
        y + dt_ms * BUBBLE_SPEED
    }
}

/// The bubble `spec_rise` yields from `b` after `dt_ms`.
pub open spec fn spec_risen_bubble(b: Bubble, dt_ms: int) -> Bubble {
    Bubble { x: b.x, y: spec_rise(b.y as int, dt_ms) as i64 }
}

/// Whether a bubble survives despawning at the given water level: it
/// is removed exactly when it sits strictly above the surface.
pub open spec fn spec_below_surface(b: Bubble, level: int) -> bool {
    b.y <= spec_surface(level)
}

/// All bubbles of a tick, each risen for `dt_ms`.
pub open spec fn spec_risen_bubbles(bs: Seq<Bubble>, dt_ms: int) -> Seq<Bubble> {
    bs.map_values(|b: Bubble| spec_risen_bubble(b, dt_ms))
}

/// The bubbles that survive despawning at the given water level, in
/// their original order.
pub open spec fn spec_surviving(bs: Seq<Bubble>, level: int) -> Seq<Bubble> {
    bs.filter(|b: Bubble| spec_below_surface(b, level))
}

/// The batch of bubbles one tick spawns: `fires` fresh bubbles at the
/// water's bottom edge.
pub open spec fn spec_fresh_bubbles(fires: int) -> Seq<Bubble> {
    Seq::new(fires as nat, |k: int| Bubble { x: 0, y: BUBBLE_SPAWN_Y })
}

/// A bubble freshly spawned at the water's bottom edge is never
/// eligible for despawning in the tick that spawned it, at any valid
/// level: the surface never lies below the bottom.
pub proof fn lemma_fresh_bubble_survives_its_tick(level: int)
    requires
        0 <= level,
    ensures
        spec_below_surface(Bubble { x: 0, y: BUBBLE_SPAWN_Y }, level),
        spec_bottom() <= spec_surface(level),
{
    assert(2 * crate::aquarium::INTERIOR_HEIGHT * level >= 0) by (nonlinear_arith)
        requires
            level >= 0,
    ;
    assert(crate::aquarium::INTERIOR_HEIGHT * crate::aquarium::LEVEL_SCALE == 598_000_000)
        by (nonlinear_arith);
}

/// Raises every live bubble by the distance covered in `dt_ms` at the
/// fixed upward speed. Horizontal positions never change.
pub fn move_bubbles(bubbles: &mut Vec<Bubble>, dt_ms: u32)
    ensures
        final(bubbles)@ == spec_risen_bubbles(old(bubbles)@, dt_ms as int),
        final(bubbles)@.len() == old(bubbles)@.len(),
        forall|i: int|
            0 <= i < old(bubbles)@.len() ==> final(bubbles)@[i] == spec_risen_bubble(
                old(bubbles)@[i],
                dt_ms as int,
            ),
{
    let dy: i64 = dt_ms as i64 * BUBBLE_SPEED;
    let n = bubbles.len();
    let mut i: usize = 0;
    while i < n
        invariant
            i <= n,
            n == old(bubbles)@.len(),
            bubbles@.len() == n,
            dy == dt_ms as int * BUBBLE_SPEED,
            forall|j: int|
                0 <= j < i ==> bubbles@[j] == spec_risen_bubble(old(bubbles)@[j], dt_ms as int),
            forall|j: int| i <= j < n ==> bubbles@[j] == old(bubbles)@[j],
        decreases n - i,
    {
        let b = bubbles[i];
        let y = if b.y > i64::MAX - dy {
            i64::MAX
        } else {
            b.y + dy
        };
        bubbles.set(i, Bubble { x: b.x, y });
        i += 1;
    }
    proof {
        assert(bubbles@ =~= spec_risen_bubbles(old(bubbles)@, dt_ms as int));
    }
}

/// Removes every bubble that has risen strictly above the water's
/// current surface, keeping the others in their order.
pub fn despawn_bubbles(bubbles: &mut Vec<Bubble>, water: &Water)
    requires
        water.wf(),
    ensures
        final(bubbles)@ == spec_surviving(old(bubbles)@, water.model().level),
{
    broadcast use vstd::seq_lib::group_seq_properties;

    let ghost level = water.model().level;
    let ghost pred = |b: Bubble| spec_below_surface(b, level);
    let surface = water.surface();
    let n = bubbles.len();
    let mut kept: Vec<Bubble> = Vec::new();
    let mut i: usize = 0;
    while i < n
        invariant
            i <= n,
            n == bubbles@.len(),
            bubbles@ == old(bubbles)@,
            surface == spec_surface(level),
            kept@ == bubbles@.take(i as int).filter(pred),
            pred == (|b: Bubble| spec_below_surface(b, level)),
        decreases n - i,
    {
        proof {
            assert(bubbles@.take(i + 1) == bubbles@.take(i as int).push(bubbles@[i as int]));
            bubbles@.take(i as int).lemma_filter_push(bubbles@[i as int], pred);
        }
        let b = bubbles[i];
        if b.y <= surface {
            kept.push(b);
        }
        i += 1;
    }
    proof {
        assert(bubbles@.take(n as int) == bubbles@);
    }
    *bubbles = kept;
}

/// Advances the spawn timer by `dt_ms` and, if a water body exists,
/// spawns one bubble at its bottom edge for every full interval the
/// timer has crossed. Without water the timer accumulates but nothing
/// is spawned and no fire is consumed.
pub fn spawn_bubble(
    timer: &mut BubbleSpawnTimer,
    water: Option<&Water>,
    bubbles: &mut Vec<Bubble>,
    dt_ms: u32,
)
    requires
        old(timer).wf(),
    ensures
        final(timer).interval_ms == old(timer).interval_ms,
        final(timer).wf(),
        water is None ==> final(timer).elapsed_ms == spec_timer_elapsed(
            old(timer).elapsed_ms as int,
            dt_ms as int,
        ) && final(bubbles)@ == old(bubbles)@,
        water is Some ==> {
            let e = spec_timer_elapsed(old(timer).elapsed_ms as int, dt_ms as int);
            let fires = e / old(timer).interval_ms as int;
            &&& final(timer).elapsed_ms == e % old(timer).interval_ms as int
            &&& final(bubbles)@ == old(bubbles)@ + spec_fresh_bubbles(fires)
        },
{
    let e: u64 = if timer.elapsed_ms > u64::MAX - dt_ms as u64 {
        u64::MAX
    } else {
        timer.elapsed_ms + dt_ms as u64
    };
    timer.elapsed_ms = e;
    match water {
        None => {},
        Some(_w) => {
            let fires: u64 = e / timer.interval_ms;
            timer.elapsed_ms = e % timer.interval_ms;
            let ghost fresh = spec_fresh_bubbles(fires as int);
            let mut k: u64 = 0;
            while k < fires
                invariant
                    k <= fires,
                    fresh == spec_fresh_bubbles(fires as int),
                    bubbles@ == old(bubbles)@ + fresh.take(k as int),
                decreases fires - k,
            {
                bubbles.push(Bubble { x: 0, y: BUBBLE_SPAWN_Y });
                proof {
                    assert(fresh.take(k + 1) == fresh.take(k as int).push(
                        Bubble { x: 0, y: BUBBLE_SPAWN_Y },
                    ));
                }
                k += 1;
            }
            proof {
                assert(fresh.take(fires as int) == fresh);
            }
        },
    }
}

} // verus!
