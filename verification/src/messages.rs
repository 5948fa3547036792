//! The background player's protocol (commands in, state out) and the
//! decisions of its loop: what it does with each command and each quiet
//! interval, and what it publishes.

use vstd::prelude::*;

use crate::models::{SearchResults, TimeSpan, Track, TrackId};
use crate::state::clone_path;

verus! {

#[derive(Clone, Copy, Debug, PartialEq, Eq, Structural)]
pub enum LoopMode {
    Off,
    One,
}

impl Default for LoopMode {
    fn default() -> (r: LoopMode)
        ensures
            r == LoopMode::Off,
    {
        LoopMode::Off
    }
}

#[derive(Debug)]
pub enum PlayerCommand {
    Play(Track),
    TogglePause,
    Stop,
    SetLoop(LoopMode),
    Shutdown,
}

#[derive(Clone, Copy, Debug, PartialEq, Eq, Structural)]
pub enum PlaybackStatus {
    Idle,
    Loading,
    Playing,
    Paused,
}

impl Default for PlaybackStatus {
    fn default() -> (r: PlaybackStatus)
        ensures
            r == PlaybackStatus::Idle,
    {
        PlaybackStatus::Idle
    }
}

/// A decoded cover image, carried through the library without being read.
#[verifier::external_type_specification]
#[verifier::external_body]
pub struct ExDynamicImage(image::DynamicImage);

/// What background data work reports: a finished or failed search, and
/// fetched or failed cover art for a track.
#[derive(Debug)]
pub enum DataMessage {
    SearchCompleted(SearchResults),
    SearchFailed { query: String, error: String },
    ArtworkReady { track_id: TrackId, image: std::sync::Arc<image::DynamicImage> },
    ArtworkFailed { track_id: TrackId, error: String },
}

/// What the player publishes after each change.
#[derive(Debug, Clone)]
pub struct PlayerState {
    pub status: PlaybackStatus,
    pub current: Option<Track>,
    pub position: TimeSpan,
    pub loop_mode: LoopMode,
    pub error: Option<String>,
}

impl PlayerState {
    /// Idle, nothing current, at zero, looping off, no error.
    pub fn new() -> (r: PlayerState)
        ensures
            r == initial_state(),
    {
        PlayerState {
            status: PlaybackStatus::Idle,
            current: None,
            position: TimeSpan::zero(),
            loop_mode: LoopMode::Off,
            error: None,
        }
    }

    pub fn copy(&self) -> (r: PlayerState)
        ensures
            r == *self,
    {
        PlayerState {
            status: self.status,
            current: match &self.current {
                Some(t) => Some(t.copy()),
                None => None,
            },
            position: self.position,
            loop_mode: self.loop_mode,
            error: crate::models::copy_opt_string(&self.error),
        }
    }
}

impl Default for PlayerState {
    fn default() -> (r: PlayerState)
        ensures
            r == initial_state(),
    {
        PlayerState::new()
    }
}

pub open spec fn initial_state() -> PlayerState {
    PlayerState {
        status: PlaybackStatus::Idle,
        current: None,
        position: TimeSpan { secs: 0, nanos: 0 },
        loop_mode: LoopMode::Off,
        error: None,
    }
}

/// The player loop's own state: what it publishes, whether a track is
/// loaded on the device, the file of the last track that started, and the
/// track being prepared.
#[derive(Debug)]
pub struct Actor {
    pub state: PlayerState,
    pub has_player: bool,
    pub cached_path: Option<std::path::PathBuf>,
    pub pending: Option<Track>,
}

/// What happened to the player loop.
#[derive(Debug)]
pub enum ActorEvent {
    /// A command arrived.
    Command(PlayerCommand),
    /// No command came for a while; the loaded track (if any) is at
    /// `position` and its queue is `empty` or not (no track counts as empty
    /// at zero).
    Quiet { empty: bool, position: TimeSpan },
    /// The track asked for by `Load` is on disk and decoded (then it is
    /// loaded and playing from `path`), or could not be (with the message).
    Loaded(Result<std::path::PathBuf, String>),
    /// The track asked for by `Toggle` is now paused (or not).
    Toggled { paused: bool },
    /// The restart asked for by `Restart` worked (or not).
    Restarted(bool),
    /// The command channel is closed.
    Disconnected,
}

/// What the player loop asks its surroundings to do, in order.
#[derive(Debug)]
pub enum ActorAction {
    /// Stop the loaded track and drop it.
    StopPlayer,
    /// Drop the loaded track (it has ended).
    DropPlayer,
    /// Send the state to the subscribers.
    Publish(PlayerState),
    /// Fetch and decode the track, load and start it; answer `Loaded`.
    Load(TrackId),
    /// Pause or resume the loaded track; answer `Toggled`.
    Toggle,
    /// Load the file again and start it; answer `Restarted`.
    Restart(std::path::PathBuf),
    /// Leave the loop.
    Exit,
}

/// A fresh player loop.
pub open spec fn fresh_actor() -> Actor {
    Actor { state: initial_state(), has_player: false, cached_path: None, pending: None }
}

pub open spec fn with_state(a: Actor, s: PlayerState) -> Actor {
    Actor { state: s, ..a }
}

/// What the player loop does on an event: its next state and its actions.
pub open spec fn actor_step(a: Actor, ev: ActorEvent) -> (Actor, Seq<ActorAction>) {
    let s = a.state;
    match ev {
        ActorEvent::Command(PlayerCommand::Play(t)) => {
            let s2 = PlayerState { status: PlaybackStatus::Loading, error: None, ..s };
            let stop = if a.has_player {
                seq![ActorAction::StopPlayer]
            } else {
                Seq::empty()
            };
            (
                Actor { state: s2, has_player: false, pending: Some(t), ..a },
                stop + seq![ActorAction::Publish(s2), ActorAction::Load(t.id)],
            )
        },
        ActorEvent::Loaded(Err(e)) => {
            let s2 = PlayerState { status: PlaybackStatus::Idle, error: Some(e), ..s };
            (Actor { state: s2, pending: None, ..a }, seq![ActorAction::Publish(s2)])
        },
        ActorEvent::Loaded(Ok(path)) => {
            let s2 = PlayerState {
                current: a.pending,
                status: PlaybackStatus::Playing,
                position: TimeSpan { secs: 0, nanos: 0 },
                ..s
            };
            (
                Actor { state: s2, has_player: true, cached_path: Some(path), pending: None },
                seq![ActorAction::Publish(s2)],
            )
        },
        ActorEvent::Command(PlayerCommand::TogglePause) => if a.has_player {
            (a, seq![ActorAction::Toggle])
        } else {
            (a, Seq::empty())
        },
        ActorEvent::Toggled { paused } => {
            let s2 = PlayerState {
                status: if paused {
                    PlaybackStatus::Paused
                } else {
                    PlaybackStatus::Playing
                },
                ..s
            };
            (with_state(a, s2), seq![ActorAction::Publish(s2)])
        },
        ActorEvent::Command(PlayerCommand::Stop) => {
            let s2 = PlayerState {
                status: PlaybackStatus::Idle,
                position: TimeSpan { secs: 0, nanos: 0 },
                ..s
            };
            let stop = if a.has_player {
                seq![ActorAction::StopPlayer]
            } else {
                Seq::empty()
            };
            (Actor { state: s2, has_player: false, ..a }, stop + seq![ActorAction::Publish(s2)])
        },
        ActorEvent::Command(PlayerCommand::SetLoop(m)) => {
            let s2 = PlayerState { loop_mode: m, ..s };
            (with_state(a, s2), seq![ActorAction::Publish(s2)])
        },
        ActorEvent::Command(PlayerCommand::Shutdown) => (a, seq![ActorAction::Exit]),
        ActorEvent::Disconnected => (a, seq![ActorAction::Exit]),
        ActorEvent::Quiet { empty, position } => if s.status != PlaybackStatus::Playing {
            (a, Seq::empty())
        } else {
            let s2 = PlayerState { position, ..s };
            if empty {
                if s.loop_mode == LoopMode::One {
                    match a.cached_path {
                        Some(p) => (with_state(a, s2), seq![ActorAction::Restart(p)]),
                        None => (with_state(a, s2), seq![ActorAction::Publish(s2)]),
                    }
                } else {
                    let s3 = PlayerState {
                        status: PlaybackStatus::Idle,
                        position: TimeSpan { secs: 0, nanos: 0 },
                        ..s2
                    };
                    (
                        Actor { state: s3, has_player: false, ..a },
                        seq![ActorAction::DropPlayer, ActorAction::Publish(s3)],
                    )
                }
            } else {
                (with_state(a, s2), seq![ActorAction::Publish(s2)])
            }
        },
        ActorEvent::Restarted(ok) => {
            let s2 = if ok {
                PlayerState { position: TimeSpan { secs: 0, nanos: 0 }, ..s }
            } else {
                s
            };
            (with_state(a, s2), seq![ActorAction::Publish(s2)])
        },
    }
}

/// Stopping always leaves the player idle at zero with nothing loaded,
/// whatever it was doing.
pub proof fn law_stop_idles(a: Actor)
    ensures
        actor_step(a, ActorEvent::Command(PlayerCommand::Stop)).0.state.status
            == PlaybackStatus::Idle,
        actor_step(a, ActorEvent::Command(PlayerCommand::Stop)).0.state.position == (TimeSpan {
            secs: 0,
            nanos: 0,
        }),
        !actor_step(a, ActorEvent::Command(PlayerCommand::Stop)).0.has_player,
{
}

/// The answer to a pause toggle decides the status alone: paused after a
/// pause, playing after a resume, whatever the status was; that state is
/// published, and nothing else changes.
pub proof fn law_toggle_answer_sets_status(a: Actor, paused: bool)
    ensures
        ({
            let (a2, acts) = actor_step(a, ActorEvent::Toggled { paused });
            &&& (a2.state.status == PlaybackStatus::Paused) == paused
            &&& (a2.state.status == PlaybackStatus::Playing) == !paused
            &&& acts.len() == 1
            &&& acts[0] == ActorAction::Publish(a2.state)
            &&& a2.state.current == a.state.current
            &&& a2.state.position == a.state.position
            &&& a2.has_player == a.has_player
        }),
{
}

/// Pausing and then resuming, from any state, publishes a playing status
/// last.
pub proof fn law_pause_then_resume_plays(a: Actor)
    ensures
        ({
            let a1 = actor_step(a, ActorEvent::Toggled { paused: true }).0;
            let (a2, acts) = actor_step(a1, ActorEvent::Toggled { paused: false });
            &&& a1.state.status == PlaybackStatus::Paused
            &&& a2.state.status == PlaybackStatus::Playing
            &&& acts.last() == ActorAction::Publish(a2.state)
        }),
{
}

/// Shutting down, or losing the command channel, ends the loop and changes
/// nothing.
pub proof fn law_exit_changes_nothing(a: Actor)
    ensures
        actor_step(a, ActorEvent::Command(PlayerCommand::Shutdown)).0 == a,
        actor_step(a, ActorEvent::Disconnected).0 == a,
        actor_step(a, ActorEvent::Command(PlayerCommand::Shutdown)).1 == seq![ActorAction::Exit],
        actor_step(a, ActorEvent::Disconnected).1 == seq![ActorAction::Exit],
{
}

/// A track that loads is the one that was asked for, and it plays from the
/// start.
pub proof fn law_loaded_track_plays(a: Actor, t: Track, path: std::path::PathBuf)
    ensures
        ({
            let a2 = actor_step(a, ActorEvent::Command(PlayerCommand::Play(t))).0;
            let a3 = actor_step(a2, ActorEvent::Loaded(Ok(path))).0;
            &&& a3.state.current == Some(t)
            &&& a3.state.status == PlaybackStatus::Playing
            &&& a3.state.position == (TimeSpan { secs: 0, nanos: 0 })
            &&& a3.has_player
            &&& a3.cached_path == Some(path)
        }),
{
}

impl Actor {
    /// A fresh player loop: idle, nothing loaded.
    pub fn new() -> (r: Actor)
        ensures
            r == fresh_actor(),
    {
        Actor { state: PlayerState::new(), has_player: false, cached_path: None, pending: None }
    }

    /// Reacts to one event; see `actor_step`.
    pub fn step(&mut self, ev: ActorEvent) -> (r: Vec<ActorAction>)
        ensures
            (*final(self), r@) == actor_step(*old(self), ev),
    {
        let mut out: Vec<ActorAction> = Vec::new();
        match ev {
            ActorEvent::Command(PlayerCommand::Play(t)) => {
                if self.has_player {
                    out.push(ActorAction::StopPlayer);
                }
                self.has_player = false;
                self.state.status = PlaybackStatus::Loading;
                self.state.error = None;
                out.push(ActorAction::Publish(self.state.copy()));
                let id = t.id.copy();
                self.pending = Some(t);
                out.push(ActorAction::Load(id));
            },
            ActorEvent::Loaded(Err(e)) => {
                self.state.status = PlaybackStatus::Idle;
                self.state.error = Some(e);
                self.pending = None;
                out.push(ActorAction::Publish(self.state.copy()));
            },
            ActorEvent::Loaded(Ok(path)) => {
                self.has_player = true;
                self.cached_path = Some(path);
                self.state.current = self.pending.take();
                self.state.status = PlaybackStatus::Playing;
                self.state.position = TimeSpan::zero();
                out.push(ActorAction::Publish(self.state.copy()));
            },
            ActorEvent::Command(PlayerCommand::TogglePause) => {
                if self.has_player {
                    out.push(ActorAction::Toggle);
                }
            },
            ActorEvent::Toggled { paused } => {
                self.state.status = if paused {
                    PlaybackStatus::Paused
                } else {
                    PlaybackStatus::Playing
                };
                out.push(ActorAction::Publish(self.state.copy()));
            },
            ActorEvent::Command(PlayerCommand::Stop) => {
                if self.has_player {
                    out.push(ActorAction::StopPlayer);
                }
                self.has_player = false;
                self.state.status = PlaybackStatus::Idle;
                self.state.position = TimeSpan::zero();
                out.push(ActorAction::Publish(self.state.copy()));
            },
            ActorEvent::Command(PlayerCommand::SetLoop(m)) => {
                self.state.loop_mode = m;
                out.push(ActorAction::Publish(self.state.copy()));
            },
            ActorEvent::Command(PlayerCommand::Shutdown) => {
                out.push(ActorAction::Exit);
            },
            ActorEvent::Disconnected => {
                out.push(ActorAction::Exit);
            },
            ActorEvent::Quiet { empty, position } => {
                if self.state.status == PlaybackStatus::Playing {
                    self.state.position = position;
                    if empty {
                        if self.state.loop_mode == LoopMode::One {
                            match &self.cached_path {
                                Some(p) => out.push(ActorAction::Restart(clone_path(p))),
                                None => out.push(ActorAction::Publish(self.state.copy())),
                            }
                        } else {
                            self.has_player = false;
                            self.state.status = PlaybackStatus::Idle;
                            self.state.position = TimeSpan::zero();
                            out.push(ActorAction::DropPlayer);
                            out.push(ActorAction::Publish(self.state.copy()));
                        }
                    } else {
                        out.push(ActorAction::Publish(self.state.copy()));
                    }
                }
            },
            ActorEvent::Restarted(ok) => {
                if ok {
                    self.state.position = TimeSpan::zero();
                }
                out.push(ActorAction::Publish(self.state.copy()));
            },
        }
        proof {
            let o = actor_step(*old(self), ev);
            assert(out@ =~= o.1);
        }
        out
    }
}

} // verus!
