//! Tests of the movement-sound policy and of whole simulation ticks.

use aquarium_core::audio::AudioCommand;
use aquarium_core::audio::InternalAudioPlugin;
use aquarium_core::audio::PlaybackState;
use aquarium_core::aquarium::Water;
use aquarium_core::aquarium::WaterDirection;
use aquarium_core::aquarium::HIGH_WATER_GOAL;
use aquarium_core::bubbles::Bubble;
use aquarium_core::bubbles::BubbleSpawnTimer;
use aquarium_core::sim::Simulation;

#[test]
fn sound_resumes_only_when_paused_and_moving() {
    assert_eq!(
        InternalAudioPlugin::control_flying_sound(PlaybackState::Paused, true),
        Some(AudioCommand::Resume)
    );
    assert_eq!(InternalAudioPlugin::control_flying_sound(PlaybackState::Paused, false), None);
}

#[test]
fn sound_pauses_only_when_playing_and_idle() {
    assert_eq!(
        InternalAudioPlugin::control_flying_sound(PlaybackState::Playing, false),
        Some(AudioCommand::Pause)
    );
    assert_eq!(InternalAudioPlugin::control_flying_sound(PlaybackState::Playing, true), None);
}

#[test]
fn transitional_states_are_left_alone() {
    for st in [
        PlaybackState::Queued,
        PlaybackState::Pausing,
        PlaybackState::Stopping,
        PlaybackState::Stopped,
    ] {
        assert_eq!(InternalAudioPlugin::control_flying_sound(st, true), None);
        assert_eq!(InternalAudioPlugin::control_flying_sound(st, false), None);
    }
}

#[test]
fn a_fresh_simulation_is_full_quiet_and_empty() {
    let s = Simulation::new();
    let w = s.water.unwrap();
    assert_eq!(w.level, HIGH_WATER_GOAL);
    assert_eq!(w.direction, WaterDirection::Emptying);
    assert_eq!(s.timer.interval_ms, 500);
    assert_eq!(s.timer.elapsed_ms, 0);
    assert!(s.bubbles.is_empty());
}

#[test]
fn inactive_ticks_mutate_nothing() {
    let mut s = Simulation::new();
    s.tick(false, 10_000);
    let w = s.water.unwrap();
    assert_eq!(w.level, HIGH_WATER_GOAL);
    assert_eq!(s.timer.elapsed_ms, 0);
    assert!(s.bubbles.is_empty());
}

#[test]
fn a_tick_runs_oscillator_spawner_mover_and_despawner() {
    let mut s = Simulation::new();
    // Five 100 ms ticks: level drains then refills towards the high
    // goal; the fifth tick fires the spawn timer once.
    for _ in 0..5 {
        s.tick(true, 100);
    }
    assert_eq!(s.bubbles.len(), 1);
    // The fresh bubble sits at the bottom: it does not rise on the
    // tick it spawned in.
    assert_eq!(s.bubbles[0], Bubble { x: 0, y: -598_000_000 });
    // The next tick moves it up 10 units.
    s.tick(true, 100);
    assert_eq!(s.bubbles[0].y, -578_000_000);
    assert_eq!(s.bubbles.len(), 1);
}

#[test]
fn a_simulation_without_water_still_moves_bubbles_but_spawns_none() {
    let mut s = Simulation {
        water: None,
        timer: BubbleSpawnTimer::new(500),
        bubbles: vec![Bubble { x: 0, y: 0 }],
    };
    s.tick(true, 1_000);
    // The bubble rose 100 units and was not despawned (no surface to
    // compare against); no bubble spawned, but the timer accumulated.
    assert_eq!(s.bubbles, vec![Bubble { x: 0, y: 200_000_000 }]);
    assert_eq!(s.timer.elapsed_ms, 1_000);
}

#[test]
fn bubbles_eventually_despawn_in_a_running_simulation() {
    let mut s = Simulation::new();
    let mut seen_a_bubble = false;
    let mut seen_a_despawn = false;
    let mut population_before = 0usize;
    for _ in 0..2_000 {
        s.tick(true, 100);
        if s.bubbles.len() > 0 {
            seen_a_bubble = true;
        }
        if s.bubbles.len() < population_before {
            seen_a_despawn = true;
        }
        population_before = s.bubbles.len();
        // Every live bubble is at or below the current surface.
        let surface = s.water.as_ref().unwrap().surface();
        for b in &s.bubbles {
            assert!(b.y <= surface);
        }
    }
    assert!(seen_a_bubble);
    assert!(seen_a_despawn);
}

#[test]
fn water_can_be_inspected_mid_simulation() {
    let mut s = Simulation::new();
    for _ in 0..100 {
        s.tick(true, 100);
    }
    let w: &Water = s.water.as_ref().unwrap();
    assert!(w.level <= 1_000_000);
    assert!(w.surface() >= w.bottom());
}
