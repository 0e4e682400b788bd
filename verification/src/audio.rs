//! Policy for the looping movement sound.
//!
//! The sound should be audible exactly while the player is moving: it
//! is resumed when a movement event arrived this frame and the
//! instance is paused, and paused when no movement event arrived and
//! the instance is playing. In every other situation (including the
//! transitional and stopped playback states) it is left alone.

use vstd::prelude::*;

verus! {

/// Owner of the movement-sound policy.
pub struct InternalAudioPlugin;

/// Playback state of the looping sound instance, as reported by the
/// audio backend. Transitional states carry no information the policy
/// needs, so they are plain variants here.
#[derive(Clone, Copy, Debug, PartialEq, Eq, Structural)]
pub enum PlaybackState {
    Queued,
    Playing,
    Pausing,
    Paused,
    Stopping,
    Stopped,
}

/// Command the policy hands back to the audio backend.
#[derive(Clone, Copy, Debug, PartialEq, Eq, Structural)]
pub enum AudioCommand {
    Resume,
    Pause,
}

/// What to do with the movement sound, given the instance's playback
/// state and whether at least one movement event arrived this frame.
pub open spec fn spec_flying_sound_action(
    state: PlaybackState,
    movement_occurred: bool,
) -> Option<AudioCommand> {
    match state {
        PlaybackState::Paused => if movement_occurred {
            Some(AudioCommand::Resume)
        } else {
            None
        },
        PlaybackState::Playing => if movement_occurred {
            None
        } else {
            Some(AudioCommand::Pause)
        },
        _ => None,
    }
}

impl InternalAudioPlugin {
    /// Decides whether the movement sound must be resumed, paused, or
    /// left as it is this frame.
    pub fn control_flying_sound(state: PlaybackState, movement_occurred: bool) -> (r: Option<
        AudioCommand,
    >)
        ensures
            r == spec_flying_sound_action(state, movement_occurred),
    {
        match state {
            PlaybackState::Paused => if movement_occurred {
                Some(AudioCommand::Resume)
            } else {
                None
            },
            PlaybackState::Playing => if movement_occurred {
                None
            } else {
                Some(AudioCommand::Pause)
            },
            _ => None,
        }
    }
}

} // verus!
