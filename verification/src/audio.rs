//! The audio output's bookkeeping: whether a track is loaded, whether it is
//! playing, how far it has got. The device and decoder calls are made by
//! the caller, which reports what they return.

use vstd::prelude::*;

use crate::models::TimeSpan;
use crate::state::AudioStatus;

verus! {

/// The state of the audio output. `has_player` tells whether a track is
/// loaded on the device.
#[derive(Clone, Copy, Debug, PartialEq, Eq, Structural)]
pub struct AudioState {
    pub status: AudioStatus,
    pub position: TimeSpan,
    pub has_player: bool,
}

/// What to do to the loaded track when pause is toggled.
#[derive(Clone, Copy, Debug, PartialEq, Eq, Structural)]
pub enum PauseAction {
    Resume,
    Pause,
    /// Nothing is loaded.
    Nothing,
}

pub open spec fn stopped() -> AudioState {
    AudioState { status: AudioStatus::Idle, position: TimeSpan { secs: 0, nanos: 0 }, has_player: false }
}

/// The state after pause is toggled while the loaded track is `paused` (or
/// not): a paused track resumes, a running one pauses, nothing changes when
/// nothing is loaded.
pub open spec fn toggled(a: AudioState, paused: bool) -> AudioState {
    if !a.has_player {
        a
    } else if paused {
        AudioState { status: AudioStatus::Playing, ..a }
    } else {
        AudioState { status: AudioStatus::Paused, ..a }
    }
}

/// Pausing a playing track and resuming it gives back the state as it was.
pub proof fn law_pause_then_resume(a: AudioState)
    requires
        a.has_player,
        a.status == AudioStatus::Playing,
    ensures
        toggled(toggled(a, false), true) == a,
{
}

impl AudioState {
    /// A fresh output: idle, at zero, nothing loaded.
    pub fn new() -> (r: AudioState)
        ensures
            r == stopped(),
    {
        AudioState { status: AudioStatus::Idle, position: TimeSpan::zero(), has_player: false }
    }

    /// The loaded track (if any) is stopped and dropped.
    pub fn stop(&mut self)
        ensures
            *final(self) == stopped(),
    {
        self.has_player = false;
        self.status = AudioStatus::Idle;
        self.position = TimeSpan::zero();
    }

    /// A new track was decoded and started: playing from zero.
    pub fn started(&mut self)
        ensures
            *final(self) == (AudioState {
                status: AudioStatus::Playing,
                position: TimeSpan { secs: 0, nanos: 0 },
                has_player: true,
            }),
    {
        self.has_player = true;
        self.status = AudioStatus::Playing;
        self.position = TimeSpan::zero();
    }

    /// Pause is toggled while the loaded track is `paused` (or not): resume a
    /// paused track, pause a running one, nothing when nothing is loaded.
    pub fn toggle_pause(&mut self, paused: bool) -> (r: PauseAction)
        ensures
            *final(self) == toggled(*old(self), paused),
            !old(self).has_player ==> r == PauseAction::Nothing && *final(self) == *old(self),
            old(self).has_player && paused ==> r == PauseAction::Resume && *final(self) == (
            AudioState { status: AudioStatus::Playing, ..*old(self) }),
            old(self).has_player && !paused ==> r == PauseAction::Pause && *final(self) == (
            AudioState { status: AudioStatus::Paused, ..*old(self) }),
    {
        if !self.has_player {
            PauseAction::Nothing
        } else if paused {
            self.status = AudioStatus::Playing;
            PauseAction::Resume
        } else {
            self.status = AudioStatus::Paused;
            PauseAction::Pause
        }
    }

    /// Whether a tick must ask the device for the position: only while a
    /// loaded track is playing.
    pub fn needs_poll(&self) -> (r: bool)
        ensures
            r == (self.has_player && self.status == AudioStatus::Playing),
    {
        self.has_player && self.status == AudioStatus::Playing
    }

    /// A tick's poll found the track at `position`, its queue `empty` or not.
    /// Returns whether the track just finished; then it is dropped and the
    /// output is idle at zero.
    pub fn polled(&mut self, position: TimeSpan, empty: bool) -> (ended: bool)
        requires
            old(self).has_player && old(self).status == AudioStatus::Playing,
        ensures
            ended == empty,
            empty ==> *final(self) == stopped(),
            !empty ==> *final(self) == (AudioState { position, ..*old(self) }),
    {
        self.position = position;
        if empty {
            self.has_player = false;
            self.status = AudioStatus::Idle;
            self.position = TimeSpan::zero();
            true
        } else {
            false
        }
    }
}

} // verus!
