//! One whole simulation: the water body (possibly absent), the bubble
//! spawn timer, and the live bubbles, ticked together in a fixed
//! order.
//!
//! Per tick, while active: the water oscillator runs first, then the
//! bubble pass — existing bubbles rise, the spawn timer fires and
//! fresh bubbles appear at the bottom, and bubbles above the new
//! surface are despawned. A fresh bubble does not rise on the tick it
//! spawns in, so it is despawned immediately only if the surface were
//! below the bottom, which the geometry rules out. While inactive a
//! tick mutates nothing. Without a water body the oscillator,
//! spawning and despawning are all skipped, but moving and the
//! timer's accumulation still happen.

use vstd::prelude::*;

use crate::aquarium::fluctuate_water;
use crate::aquarium::spec_fluctuate;
use crate::aquarium::Water;
use crate::aquarium::WaterDirection;
use crate::aquarium::WaterModel;
use crate::aquarium::HIGH_WATER_GOAL;
use crate::bubbles::despawn_bubbles;
use crate::bubbles::move_bubbles;
use crate::bubbles::spawn_bubble;
use crate::bubbles::spec_fresh_bubbles;
use crate::bubbles::spec_risen_bubbles;
use crate::bubbles::spec_surviving;
use crate::bubbles::spec_timer_elapsed;
use crate::bubbles::Bubble;
use crate::bubbles::BubbleSpawnTimer;
use crate::bubbles::BUBBLE_SPAWN_INTERVAL_MS;

verus! {

/// Mathematical state of a whole simulation.
#[verifier::ext_equal]
pub struct SimModel {
    pub water: Option<WaterModel>,
    pub interval_ms: int,
    pub elapsed_ms: int,
    pub bubbles: Seq<Bubble>,
}

/// One tick of the whole simulation: oscillate the water, raise the
/// existing bubbles, fire the spawn timer, and despawn what the new
/// surface leaves above itself. Without water only the rising and the
/// timer's accumulation happen.
pub open spec fn spec_sim_tick(m: SimModel, dt_ms: int) -> SimModel {
    match m.water {
        None => SimModel {
            water: None,
            interval_ms: m.interval_ms,
            elapsed_ms: spec_timer_elapsed(m.elapsed_ms, dt_ms),
            bubbles: spec_risen_bubbles(m.bubbles, dt_ms),
        },
        Some(w) => {
            let w2 = spec_fluctuate(w, dt_ms);
            let e = spec_timer_elapsed(m.elapsed_ms, dt_ms);
            let fires = e / m.interval_ms;
            SimModel {
                water: Some(w2),
                interval_ms: m.interval_ms,
                elapsed_ms: e % m.interval_ms,
                bubbles: spec_surviving(
                    spec_risen_bubbles(m.bubbles, dt_ms) + spec_fresh_bubbles(fires),
                    w2.level,
                ),
            }
        },
    }
}

/// The live simulation state.
pub struct Simulation {
    pub water: Option<Water>,
    pub timer: BubbleSpawnTimer,
    pub bubbles: Vec<Bubble>,
}

impl Simulation {
    /// The mathematical state this value represents.
    pub open spec fn model(self) -> SimModel {
        SimModel {
            water: match self.water {
                Some(w) => Some(w.model()),
                None => None,
            },
            interval_ms: self.timer.interval_ms as int,
            elapsed_ms: self.timer.elapsed_ms as int,
            bubbles: self.bubbles@,
        }
    }

    /// The water level is a valid fraction if water exists, and the
    /// spawn interval is positive.
    pub open spec fn wf(self) -> bool {
        &&& match self.water {
            Some(w) => w.wf(),
            None => true,
        }
        &&& self.timer.wf()
    }

    /// A fresh session: a full water body about to drain, the spawn
    /// timer just started, and no bubbles yet.
    pub fn new() -> (s: Simulation)
        ensures
            s.model().water == Some(
                WaterModel {
                    level: HIGH_WATER_GOAL as int,
                    goal_level: HIGH_WATER_GOAL as int,
                    direction: WaterDirection::Emptying,
                },
            ),
            s.model().interval_ms == BUBBLE_SPAWN_INTERVAL_MS as int,
            s.model().elapsed_ms == 0,
            s.model().bubbles == Seq::<Bubble>::empty(),
            s.wf(),
    {
        Simulation {
            water: Some(Water::new(HIGH_WATER_GOAL)),
            timer: BubbleSpawnTimer::new(BUBBLE_SPAWN_INTERVAL_MS),
            bubbles: Vec::new(),
        }
    }

    /// Runs one simulation tick of `dt_ms` milliseconds. While the
    /// simulation is not active the state is left untouched.
    pub fn tick(&mut self, active: bool, dt_ms: u32)
        requires
            old(self).wf(),
        ensures
            final(self).wf(),
            active ==> final(self).model() == spec_sim_tick(old(self).model(), dt_ms as int),
            !active ==> final(self).model() == old(self).model(),
    {
        if !active {
            return ;
        }
        match &mut self.water {
            Some(w) => fluctuate_water(w, dt_ms),
            None => {},
        }
        move_bubbles(&mut self.bubbles, dt_ms);
        match &self.water {
            Some(w) => {
                spawn_bubble(&mut self.timer, Some(w), &mut self.bubbles, dt_ms);
                despawn_bubbles(&mut self.bubbles, w);
            },
            None => {
                spawn_bubble(&mut self.timer, None, &mut self.bubbles, dt_ms);
            },
        }
        proof {
            assert(self.model() =~= spec_sim_tick(old(self).model(), dt_ms as int));
        }
    }
}

} // verus!
