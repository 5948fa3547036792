//! The player's whole state: which view is shown, the search, the library,
//! the queue and what is playing.

use vstd::prelude::*;
use vstd::view::View as _;

use crate::models::{SearchResults, TimeSpan, Track, TrackId};
use crate::playlist::PlaylistEntry;

verus! {

/// A file-system path, carried through the library without being read.
#[verifier::external_type_specification]
#[verifier::external_body]
pub struct ExPathBuf(std::path::PathBuf);

/// `PathBuf::clone`: the copy is the same path.
#[verifier::external_body]
pub(crate) fn clone_path(p: &std::path::PathBuf) -> (r: std::path::PathBuf)
    ensures
        r == *p,
{
    p.clone()
}

#[derive(Debug)]
pub enum FetchStatus {
    Fetching,
    Done,
    Failed(String),
}

#[derive(Clone, Copy, Debug, PartialEq, Eq, Structural)]
pub enum PlayerFocus {
    Library,
    Queue,
}

#[derive(Clone, Copy, Debug, PartialEq, Eq, Structural)]
pub enum View {
    Search,
    Player,
}

#[derive(Clone, Copy, Debug, PartialEq, Eq, Structural)]
pub enum SearchFocus {
    Input,
    Results,
}

/// Off: stop at the end of the queue; One: repeat the current track;
/// Playlist: go round the queue.
#[derive(Clone, Copy, Debug, PartialEq, Eq, Structural)]
pub enum LoopMode {
    Off,
    One,
    Playlist,
}

#[derive(Clone, Copy, Debug, PartialEq, Eq, Structural)]
pub enum AudioStatus {
    Idle,
    Loading,
    Playing,
    Paused,
}

#[derive(Debug)]
pub struct PlaybackState {
    pub status: AudioStatus,
    pub current: Option<Track>,
    pub current_path: Option<std::path::PathBuf>,
    pub pending_id: Option<TrackId>,
    pub position: TimeSpan,
    pub loop_mode: LoopMode,
    pub error: Option<String>,
}

#[derive(Debug)]
pub struct Model {
    pub view: View,
    // search view
    pub search_focus: SearchFocus,
    pub query: String,
    pub results: SearchResults,
    pub results_selected: usize,
    pub fetching_id: Option<TrackId>,
    pub fetch_status: Option<FetchStatus>,
    // player view
    pub player_focus: PlayerFocus,
    pub library: Vec<PlaylistEntry>,
    pub library_selected: usize,
    pub queue: Vec<Track>,
    pub queue_selected: usize,
    // shared
    pub playback: PlaybackState,
    pub should_quit: bool,
}

/// Search results as values: the query's characters and the tracks.
pub struct ResultsView {
    pub query: Seq<char>,
    pub tracks: Seq<Track>,
}

/// A model as a value: strings as their characters, vectors as sequences.
pub struct ModelView {
    pub view: View,
    pub search_focus: SearchFocus,
    pub query: Seq<char>,
    pub results: ResultsView,
    pub results_selected: usize,
    pub fetching_id: Option<TrackId>,
    pub fetch_status: Option<FetchStatus>,
    pub player_focus: PlayerFocus,
    pub library: Seq<PlaylistEntry>,
    pub library_selected: usize,
    pub queue: Seq<Track>,
    pub queue_selected: usize,
    pub playback: PlaybackState,
    pub should_quit: bool,
}

impl vstd::view::View for SearchResults {
    type V = ResultsView;

    open spec fn view(&self) -> ResultsView {
        ResultsView { query: self.query@, tracks: self.tracks@ }
    }
}

impl vstd::view::View for Model {
    type V = ModelView;

    open spec fn view(&self) -> ModelView {
        ModelView {
            view: self.view,
            search_focus: self.search_focus,
            query: self.query@,
            results: self.results@,
            results_selected: self.results_selected,
            fetching_id: self.fetching_id,
            fetch_status: self.fetch_status,
            player_focus: self.player_focus,
            library: self.library@,
            library_selected: self.library_selected,
            queue: self.queue@,
            queue_selected: self.queue_selected,
            playback: self.playback,
            should_quit: self.should_quit,
        }
    }
}

/// Nothing playing, nothing pending, no error, looping off, at zero.
pub open spec fn initial_playback() -> PlaybackState {
    PlaybackState {
        status: AudioStatus::Idle,
        current: None,
        current_path: None,
        pending_id: None,
        position: TimeSpan { secs: 0, nanos: 0 },
        loop_mode: LoopMode::Off,
        error: None,
    }
}

/// The state a fresh player starts in: the player view with the library
/// focused, empty search, library and queue, nothing playing.
pub open spec fn initial_model() -> ModelView {
    ModelView {
        view: View::Player,
        search_focus: SearchFocus::Input,
        query: Seq::empty(),
        results: ResultsView { query: Seq::empty(), tracks: Seq::empty() },
        results_selected: 0,
        fetching_id: None,
        fetch_status: None,
        player_focus: PlayerFocus::Library,
        library: Seq::empty(),
        library_selected: 0,
        queue: Seq::empty(),
        queue_selected: 0,
        playback: initial_playback(),
        should_quit: false,
    }
}

impl PlaybackState {
    pub fn new() -> (r: PlaybackState)
        ensures
            r == initial_playback(),
    {
        PlaybackState {
            status: AudioStatus::Idle,
            current: None,
            current_path: None,
            pending_id: None,
            position: TimeSpan::zero(),
            loop_mode: LoopMode::Off,
            error: None,
        }
    }
}

impl Default for PlaybackState {
    fn default() -> (r: PlaybackState)
        ensures
            r == initial_playback(),
    {
        PlaybackState::new()
    }
}

impl Model {
    /// A fresh player; see `initial_model`.
    pub fn new() -> (r: Model)
        ensures
            r@ == initial_model(),
    {
        let r = Model {
            view: View::Player,
            search_focus: SearchFocus::Input,
            query: String::new(),
            results: SearchResults::empty(),
            results_selected: 0,
            fetching_id: None,
            fetch_status: None,
            player_focus: PlayerFocus::Library,
            library: Vec::new(),
            library_selected: 0,
            queue: Vec::new(),
            queue_selected: 0,
            playback: PlaybackState::new(),
            should_quit: false,
        };
        assert(r@.query =~= Seq::<char>::empty());
        assert(r@.results.query =~= Seq::<char>::empty());
        assert(r@.results.tracks =~= Seq::<Track>::empty());
        assert(r@.library =~= Seq::<PlaylistEntry>::empty());
        assert(r@.queue =~= Seq::<Track>::empty());
        r
    }
}

impl Default for Model {
    fn default() -> (r: Model)
        ensures
            r@ == initial_model(),
    {
        Model::new()
    }
}

impl Default for PlayerFocus {
    fn default() -> (r: PlayerFocus)
        ensures
            r == PlayerFocus::Library,
    {
        PlayerFocus::Library
    }
}

impl Default for View {
    fn default() -> (r: View)
        ensures
            r == View::Player,
    {
        View::Player
    }
}

impl Default for SearchFocus {
    fn default() -> (r: SearchFocus)
        ensures
            r == SearchFocus::Input,
    {
        SearchFocus::Input
    }
}

impl Default for LoopMode {
    fn default() -> (r: LoopMode)
        ensures
            r == LoopMode::Off,
    {
        LoopMode::Off
    }
}

impl Default for AudioStatus {
    fn default() -> (r: AudioStatus)
        ensures
            r == AudioStatus::Idle,
    {
        AudioStatus::Idle
    }
}

} // verus!
