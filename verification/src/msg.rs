//! What the player reacts to (messages) and what it asks its surroundings to
//! do (effects). Each effect that has an outcome is answered with a message.

use vstd::prelude::*;

use crate::models::{SearchResults, TimeSpan, Track, TrackId};
use crate::playlist::PlaylistEntry;
use crate::state::AudioStatus;

verus! {

/// Why a track is being handed to the audio output.
#[derive(Clone, Copy, Debug, PartialEq, Eq, Structural)]
pub enum PlayOrigin {
    /// The current track ended and looping-one restarts it.
    LoopRestart,
    /// The track that was being fetched is on disk now.
    Download,
}

/// What the audio output reported when it was polled.
#[derive(Debug)]
pub struct AudioReport {
    /// The track finished since the last poll.
    pub ended: bool,
    pub status: AudioStatus,
    pub position: TimeSpan,
}

#[derive(Debug)]
pub enum Message {
    // global
    Quit,
    Tick,
    Nothing,
    ToggleView,
    TogglePause,
    ToggleLoop,
    // navigation, routed by view
    NavUp,
    NavDown,
    FocusLeft,
    FocusRight,
    Confirm,
    Back,
    // search view
    EnterSearch,
    SearchChar(char),
    SearchBackspace,
    SubmitSearch,
    // results of background work
    SearchDone(Result<SearchResults, String>),
    DownloadReady(TrackId, std::path::PathBuf),
    DownloadFailed(TrackId, String),
    // automatic advance at the end of a track
    PlayNext,
    // user skips through the queue (always wraps)
    SkipNext,
    SkipPrev,
    // queue and library management
    AddToQueue,
    RemoveFromQueue,
    DeleteFromLibrary,
    // answers to effects
    AudioPolled(AudioReport),
    PauseToggled(AudioStatus),
    LibraryLoaded(Vec<PlaylistEntry>),
    PlaybackStarted(PlayOrigin, Result<(), String>),
}

/// Work for the surroundings of the reducer.
#[derive(Debug)]
pub enum Effect {
    /// Poll the audio output; answer `AudioPolled`.
    PollAudio,
    /// Pause or resume the audio output; answer `PauseToggled` with its status.
    TogglePause,
    /// Search for the query in the background; answer `SearchDone`.
    Search(String),
    /// Fetch the track's audio in the background; answer `DownloadReady` or
    /// `DownloadFailed`.
    Download(TrackId),
    /// Delete the track's files from the music directory.
    DeleteTrack(TrackId),
    /// Read the downloads library; answer `LibraryLoaded`.
    LoadLibrary,
    /// Write the track's metadata beside the audio file.
    SaveSidecar(std::path::PathBuf, Track),
    /// Play the audio file; answer `PlaybackStarted` with the outcome.
    Play(std::path::PathBuf, PlayOrigin),
}

/// An effect as a value: a search query as its characters.
pub enum EffectView {
    PollAudio,
    TogglePause,
    Search(Seq<char>),
    Download(TrackId),
    DeleteTrack(TrackId),
    LoadLibrary,
    SaveSidecar(std::path::PathBuf, Track),
    Play(std::path::PathBuf, PlayOrigin),
}

impl vstd::view::View for Effect {
    type V = EffectView;

    open spec fn view(&self) -> EffectView {
        match self {
            Effect::PollAudio => EffectView::PollAudio,
            Effect::TogglePause => EffectView::TogglePause,
            Effect::Search(q) => EffectView::Search(q@),
            Effect::Download(id) => EffectView::Download(*id),
            Effect::DeleteTrack(id) => EffectView::DeleteTrack(*id),
            Effect::LoadLibrary => EffectView::LoadLibrary,
            Effect::SaveSidecar(p, t) => EffectView::SaveSidecar(*p, *t),
            Effect::Play(p, o) => EffectView::Play(*p, *o),
        }
    }
}

/// The effects of a list, as values.
pub open spec fn effects_view(effects: Seq<Effect>) -> Seq<EffectView> {
    effects.map_values(|e: Effect| e@)
}

} // verus!
