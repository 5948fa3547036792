use std::path::PathBuf;

use mustui::messages::{
    Actor, ActorAction, DataMessage, ActorEvent, LoopMode, PlaybackStatus, PlayerCommand, PlayerState,
};
use mustui::models::{TimeSpan, Track, TrackId};

fn tr(id: &str) -> Track {
    Track {
        id: TrackId(id.to_string()),
        title: "T".to_string(),
        artist: "A".to_string(),
        album: None,
        duration: None,
        thumbnail: None,
    }
}

fn published(actions: &[ActorAction]) -> Option<&PlayerState> {
    actions.iter().rev().find_map(|a| match a {
        ActorAction::Publish(s) => Some(s),
        _ => None,
    })
}

#[test]
fn default_status_is_idle() {
    assert_eq!(PlaybackStatus::default(), PlaybackStatus::Idle);
}

#[test]
fn play_loads_then_plays() {
    let mut a = Actor::new();
    let acts = a.step(ActorEvent::Command(PlayerCommand::Play(tr("x"))));
    assert_eq!(acts.len(), 2);
    assert_eq!(published(&acts).unwrap().status, PlaybackStatus::Loading);
    assert!(matches!(&acts[1], ActorAction::Load(id) if id.0 == "x"));
    let acts = a.step(ActorEvent::Loaded(Ok(PathBuf::from("/m/x.mp3"))));
    let s = published(&acts).unwrap();
    assert_eq!(s.status, PlaybackStatus::Playing);
    assert_eq!(s.current.as_ref().unwrap().id.0, "x");
    assert!(a.has_player);
    assert_eq!(a.cached_path, Some(PathBuf::from("/m/x.mp3")));
    // a second play stops the first track
    let acts = a.step(ActorEvent::Command(PlayerCommand::Play(tr("y"))));
    assert!(matches!(acts[0], ActorAction::StopPlayer));
    assert!(!a.has_player);
}

#[test]
fn failed_load_goes_idle_with_error() {
    let mut a = Actor::new();
    a.step(ActorEvent::Command(PlayerCommand::Play(tr("x"))));
    let acts = a.step(ActorEvent::Loaded(Err("decode error: bad".to_string())));
    let s = published(&acts).unwrap();
    assert_eq!(s.status, PlaybackStatus::Idle);
    assert_eq!(s.error.as_deref(), Some("decode error: bad"));
    assert!(s.current.is_none());
}

#[test]
fn pause_only_with_a_track() {
    let mut a = Actor::new();
    assert!(a.step(ActorEvent::Command(PlayerCommand::TogglePause)).is_empty());
    a.step(ActorEvent::Command(PlayerCommand::Play(tr("x"))));
    a.step(ActorEvent::Loaded(Ok(PathBuf::from("p"))));
    let acts = a.step(ActorEvent::Command(PlayerCommand::TogglePause));
    assert!(matches!(acts[0], ActorAction::Toggle));
    let acts = a.step(ActorEvent::Toggled { paused: true });
    assert_eq!(published(&acts).unwrap().status, PlaybackStatus::Paused);
}

#[test]
fn quiet_interval_tracks_position_and_end() {
    let mut a = Actor::new();
    assert!(a.step(ActorEvent::Quiet { empty: true, position: TimeSpan { secs: 0, nanos: 0 } }).is_empty());
    a.step(ActorEvent::Command(PlayerCommand::Play(tr("x"))));
    a.step(ActorEvent::Loaded(Ok(PathBuf::from("p"))));
    let acts = a.step(ActorEvent::Quiet { empty: false, position: TimeSpan { secs: 4, nanos: 0 } });
    assert_eq!(published(&acts).unwrap().position, TimeSpan { secs: 4, nanos: 0 });
    let acts = a.step(ActorEvent::Quiet { empty: true, position: TimeSpan { secs: 9, nanos: 0 } });
    assert!(matches!(acts[0], ActorAction::DropPlayer));
    let s = published(&acts).unwrap();
    assert_eq!(s.status, PlaybackStatus::Idle);
    assert_eq!(s.position, TimeSpan { secs: 0, nanos: 0 });
}

#[test]
fn loop_one_restarts() {
    let mut a = Actor::new();
    a.step(ActorEvent::Command(PlayerCommand::SetLoop(LoopMode::One)));
    a.step(ActorEvent::Command(PlayerCommand::Play(tr("x"))));
    a.step(ActorEvent::Loaded(Ok(PathBuf::from("p"))));
    let acts = a.step(ActorEvent::Quiet { empty: true, position: TimeSpan { secs: 9, nanos: 0 } });
    assert!(matches!(&acts[0], ActorAction::Restart(p) if *p == PathBuf::from("p")));
    let acts = a.step(ActorEvent::Restarted(true));
    let s = published(&acts).unwrap();
    assert_eq!(s.position, TimeSpan { secs: 0, nanos: 0 });
    assert_eq!(s.status, PlaybackStatus::Playing);
}

#[test]
fn stop_and_shutdown() {
    let mut a = Actor::new();
    a.step(ActorEvent::Command(PlayerCommand::Play(tr("x"))));
    a.step(ActorEvent::Loaded(Ok(PathBuf::from("p"))));
    let acts = a.step(ActorEvent::Command(PlayerCommand::Stop));
    assert!(matches!(acts[0], ActorAction::StopPlayer));
    assert_eq!(published(&acts).unwrap().status, PlaybackStatus::Idle);
    let acts = a.step(ActorEvent::Command(PlayerCommand::Shutdown));
    assert!(matches!(acts[0], ActorAction::Exit));
    let acts = a.step(ActorEvent::Disconnected);
    assert!(matches!(acts[0], ActorAction::Exit));
}

#[test]
fn data_messages_carry_their_payloads() {
    let art = std::sync::Arc::new(image::DynamicImage::new_rgb8(2, 3));
    let ready = DataMessage::ArtworkReady { track_id: TrackId("a".to_string()), image: art };
    match ready {
        DataMessage::ArtworkReady { track_id, image } => {
            assert_eq!(track_id.0, "a");
            assert_eq!(image.width(), 2);
            assert_eq!(image.height(), 3);
        }
        _ => panic!("wrong variant"),
    }
    let failed = DataMessage::SearchFailed { query: "q".to_string(), error: "e".to_string() };
    assert!(matches!(failed, DataMessage::SearchFailed { ref query, .. } if query == "q"));
}
