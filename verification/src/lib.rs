//! Core simulation logic of a small aquarium scene.
//!
//! Three subsystems are modelled and verified here:
//! - a water-level oscillator that cycles the fill fraction of the tank
//!   between a low and a high goal, together with the rectangle geometry
//!   (surface and bottom heights) derived from the current level;
//! - a bubble subsystem: a periodic spawner that emits bubbles at the
//!   water's bottom, a mover that raises them at constant speed, and a
//!   despawner that removes them once they cross the surface;
//! - an input aggregator that fuses the press-state of four directional
//!   buttons into a single movement intent per frame, with exact
//!   cancellation of opposing presses;
//! plus the small policy that decides when the movement sound is paused
//! or resumed.
//!
//! All quantities are exact integers. Vertical positions are measured in
//! subunits (one world unit is `SUBUNITS_PER_UNIT` subunits) and the fill
//! level in millionths (`LEVEL_SCALE`), chosen so that every derived
//! coordinate is an integer and no rounding occurs anywhere. Durations
//! are in whole milliseconds. The embedding application converts these
//! to floating-point world coordinates for rendering.

pub mod aquarium;
pub mod audio;
pub mod bubbles;
pub mod player;
pub mod sim;
