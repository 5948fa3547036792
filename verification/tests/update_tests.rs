use std::path::PathBuf;

use mustui::models::{SearchResults, TimeSpan, Track, TrackId};
use mustui::msg::{AudioReport, Effect, Message, PlayOrigin};
use mustui::playlist::PlaylistEntry;
use mustui::state::{AudioStatus, LoopMode, Model, PlayerFocus, SearchFocus, View};
use mustui::update::{nav_next, update};

fn track(id: &str, title: &str, artist: &str) -> Track {
    Track {
        id: TrackId(id.to_string()),
        title: title.to_string(),
        artist: artist.to_string(),
        album: None,
        duration: None,
        thumbnail: None,
    }
}

fn entry(id: &str, title: &str, artist: &str, ms: Option<u64>) -> PlaylistEntry {
    PlaylistEntry {
        id: TrackId(id.to_string()),
        title: title.to_string(),
        artist: artist.to_string(),
        duration_ms: ms,
    }
}

fn results(query: &str, tracks: Vec<Track>) -> SearchResults {
    SearchResults { query: query.to_string(), tracks }
}

fn step(model: &mut Model, msg: Message) -> (Message, Vec<Effect>) {
    update(model, msg)
}

fn current_id(model: &Model) -> Option<String> {
    model.playback.current.as_ref().map(|t| t.id.0.clone())
}

fn queue_ids(model: &Model) -> Vec<String> {
    model.queue.iter().map(|t| t.id.0.clone()).collect()
}

#[test]
fn fresh_model_starts_in_player_view() {
    let m = Model::new();
    assert_eq!(m.view, View::Player);
    assert_eq!(m.search_focus, SearchFocus::Input);
    assert_eq!(m.player_focus, PlayerFocus::Library);
    assert_eq!(m.playback.status, AudioStatus::Idle);
    assert_eq!(m.playback.loop_mode, LoopMode::Off);
    assert!(!m.should_quit);
}

#[test]
fn quit_sets_flag() {
    let mut m = Model::new();
    let (next, effects) = step(&mut m, Message::Quit);
    assert!(m.should_quit);
    assert!(matches!(next, Message::Nothing));
    assert!(effects.is_empty());
}

#[test]
fn toggle_loop_cycles_through_three_modes() {
    let mut m = Model::new();
    step(&mut m, Message::ToggleLoop);
    assert_eq!(m.playback.loop_mode, LoopMode::One);
    step(&mut m, Message::ToggleLoop);
    assert_eq!(m.playback.loop_mode, LoopMode::Playlist);
    step(&mut m, Message::ToggleLoop);
    assert_eq!(m.playback.loop_mode, LoopMode::Off);
}

#[test]
fn toggle_view_twice_returns() {
    let mut m = Model::new();
    step(&mut m, Message::ToggleView);
    assert_eq!(m.view, View::Search);
    step(&mut m, Message::ToggleView);
    assert_eq!(m.view, View::Player);
}

#[test]
fn tick_asks_for_a_poll() {
    let mut m = Model::new();
    let (next, effects) = step(&mut m, Message::Tick);
    assert!(matches!(next, Message::Nothing));
    assert_eq!(effects.len(), 1);
    assert!(matches!(effects[0], Effect::PollAudio));
}

#[test]
fn typing_and_submitting_a_search() {
    let mut m = Model::new();
    step(&mut m, Message::ToggleView);
    step(&mut m, Message::SearchChar('a'));
    step(&mut m, Message::SearchChar('b'));
    step(&mut m, Message::SearchBackspace);
    step(&mut m, Message::SearchChar('c'));
    assert_eq!(m.query, "ac");
    let (_, effects) = step(&mut m, Message::SubmitSearch);
    assert_eq!(m.search_focus, SearchFocus::Results);
    assert_eq!(effects.len(), 1);
    match &effects[0] {
        Effect::Search(q) => assert_eq!(q, "ac"),
        _ => panic!("expected a search"),
    }
}

#[test]
fn empty_query_submits_nothing() {
    let mut m = Model::new();
    let (_, effects) = step(&mut m, Message::SubmitSearch);
    assert!(effects.is_empty());
    assert_eq!(m.search_focus, SearchFocus::Results);
}

#[test]
fn backspace_on_empty_query_keeps_it_empty() {
    let mut m = Model::new();
    step(&mut m, Message::SearchBackspace);
    assert_eq!(m.query, "");
}

#[test]
fn search_done_replaces_results_and_clears_error() {
    let mut m = Model::new();
    m.results_selected = 3;
    m.playback.error = Some("old".to_string());
    step(&mut m, Message::SearchDone(Ok(results("q", vec![track("a", "A", "x")]))));
    assert_eq!(m.results.tracks.len(), 1);
    assert_eq!(m.results.query, "q");
    assert_eq!(m.results_selected, 0);
    assert_eq!(m.playback.error, None);
}

#[test]
fn search_failure_shows_error() {
    let mut m = Model::new();
    step(&mut m, Message::SearchDone(Err("boom".to_string())));
    assert_eq!(m.playback.error.as_deref(), Some("boom"));
}

#[test]
fn add_to_queue_skips_duplicates() {
    let mut m = Model::new();
    m.view = View::Search;
    m.results = results("q", vec![track("a", "A", "x"), track("b", "B", "y")]);
    step(&mut m, Message::AddToQueue);
    step(&mut m, Message::AddToQueue);
    assert_eq!(queue_ids(&m), vec!["a"]);
    step(&mut m, Message::NavDown);
    step(&mut m, Message::AddToQueue);
    assert_eq!(queue_ids(&m), vec!["a", "b"]);
}

#[test]
fn nav_stays_within_results() {
    let mut m = Model::new();
    m.view = View::Search;
    m.results = results("q", vec![track("a", "A", "x"), track("b", "B", "y")]);
    step(&mut m, Message::NavUp);
    assert_eq!(m.results_selected, 0);
    step(&mut m, Message::NavDown);
    step(&mut m, Message::NavDown);
    step(&mut m, Message::NavDown);
    assert_eq!(m.results_selected, 1);
    step(&mut m, Message::NavUp);
    assert_eq!(m.results_selected, 0);
}

#[test]
fn nav_follows_player_focus() {
    let mut m = Model::new();
    m.library = vec![entry("a", "A", "x", None), entry("b", "B", "y", None)];
    m.queue = vec![track("c", "C", "z"), track("d", "D", "w")];
    step(&mut m, Message::NavDown);
    assert_eq!(m.library_selected, 1);
    assert_eq!(m.queue_selected, 0);
    step(&mut m, Message::FocusRight);
    assert_eq!(m.player_focus, PlayerFocus::Queue);
    step(&mut m, Message::NavDown);
    assert_eq!(m.queue_selected, 1);
    step(&mut m, Message::FocusLeft);
    assert_eq!(m.player_focus, PlayerFocus::Library);
}

#[test]
fn focus_changes_only_in_player_view() {
    let mut m = Model::new();
    m.view = View::Search;
    step(&mut m, Message::FocusRight);
    assert_eq!(m.player_focus, PlayerFocus::Library);
}

#[test]
fn confirm_in_search_starts_the_selected_result() {
    let mut m = Model::new();
    m.view = View::Search;
    m.results = results("q", vec![track("a", "A", "x"), track("b", "B", "y")]);
    m.results_selected = 1;
    let (_, effects) = step(&mut m, Message::Confirm);
    assert_eq!(m.playback.status, AudioStatus::Loading);
    assert_eq!(current_id(&m), Some("b".to_string()));
    assert_eq!(m.playback.pending_id, Some(TrackId("b".to_string())));
    assert_eq!(effects.len(), 1);
    match &effects[0] {
        Effect::Download(id) => assert_eq!(id.0, "b"),
        _ => panic!("expected a download"),
    }
}

#[test]
fn confirm_in_player_queues_and_plays_when_idle() {
    let mut m = Model::new();
    m.library = vec![entry("a", "A", "x", Some(61_500))];
    let (_, effects) = step(&mut m, Message::Confirm);
    assert_eq!(queue_ids(&m), vec!["a"]);
    assert_eq!(m.queue[0].duration, Some(TimeSpan { secs: 61, nanos: 500_000_000 }));
    assert_eq!(m.queue[0].album, None);
    assert_eq!(m.playback.status, AudioStatus::Loading);
    assert_eq!(effects.len(), 1);
}

#[test]
fn confirm_in_player_only_queues_while_playing() {
    let mut m = Model::new();
    m.library = vec![entry("a", "A", "x", None)];
    m.playback.status = AudioStatus::Playing;
    let (_, effects) = step(&mut m, Message::Confirm);
    assert_eq!(queue_ids(&m), vec!["a"]);
    assert!(effects.is_empty());
    assert_eq!(m.playback.status, AudioStatus::Playing);
    // a second confirm does not queue it again
    step(&mut m, Message::Confirm);
    assert_eq!(queue_ids(&m), vec!["a"]);
}

#[test]
fn confirm_on_empty_library_does_nothing() {
    let mut m = Model::new();
    let (_, effects) = step(&mut m, Message::Confirm);
    assert!(effects.is_empty());
    assert!(m.queue.is_empty());
}

#[test]
fn download_ready_for_pending_track_plays_it() {
    let mut m = Model::new();
    m.view = View::Search;
    m.results = results("q", vec![track("a", "A", "x")]);
    step(&mut m, Message::Confirm);
    let path = PathBuf::from("/music/a.mp3");
    let (_, effects) = step(&mut m, Message::DownloadReady(TrackId("a".to_string()), path.clone()));
    assert_eq!(m.playback.pending_id, None);
    assert_eq!(m.playback.current_path, Some(path.clone()));
    assert_eq!(effects.len(), 3);
    assert!(matches!(&effects[0], Effect::SaveSidecar(p, t) if *p == path && t.id.0 == "a"));
    assert!(matches!(effects[1], Effect::LoadLibrary));
    assert!(matches!(&effects[2], Effect::Play(p, PlayOrigin::Download) if *p == path));
    step(&mut m, Message::PlaybackStarted(PlayOrigin::Download, Ok(())));
    assert_eq!(m.playback.status, AudioStatus::Playing);
    assert_eq!(m.playback.error, None);
}

#[test]
fn download_result_for_other_track_is_ignored() {
    let mut m = Model::new();
    m.view = View::Search;
    m.results = results("q", vec![track("a", "A", "x")]);
    step(&mut m, Message::Confirm);
    let (_, effects) =
        step(&mut m, Message::DownloadReady(TrackId("zzz".to_string()), PathBuf::from("x")));
    assert!(effects.is_empty());
    assert_eq!(m.playback.pending_id, Some(TrackId("a".to_string())));
    step(&mut m, Message::DownloadFailed(TrackId("zzz".to_string()), "no".to_string()));
    assert_eq!(m.playback.status, AudioStatus::Loading);
    assert_eq!(m.playback.error, None);
}

#[test]
fn download_failure_for_pending_track_goes_idle() {
    let mut m = Model::new();
    m.view = View::Search;
    m.results = results("q", vec![track("a", "A", "x")]);
    step(&mut m, Message::Confirm);
    step(&mut m, Message::DownloadFailed(TrackId("a".to_string()), "no network".to_string()));
    assert_eq!(m.playback.pending_id, None);
    assert_eq!(m.playback.status, AudioStatus::Idle);
    assert_eq!(m.playback.error.as_deref(), Some("no network"));
}

#[test]
fn failed_playback_after_download_goes_idle_with_error() {
    let mut m = Model::new();
    m.playback.status = AudioStatus::Loading;
    step(&mut m, Message::PlaybackStarted(PlayOrigin::Download, Err("decode error".to_string())));
    assert_eq!(m.playback.status, AudioStatus::Idle);
    assert_eq!(m.playback.error.as_deref(), Some("decode error"));
}

#[test]
fn track_end_advances_queue() {
    let mut m = Model::new();
    m.queue = vec![track("a", "A", "x"), track("b", "B", "y")];
    m.playback.current = Some(track("a", "A", "x"));
    let report = AudioReport {
        ended: true,
        status: AudioStatus::Idle,
        position: TimeSpan { secs: 0, nanos: 0 },
    };
    let (next, effects) = step(&mut m, Message::AudioPolled(report));
    assert!(matches!(next, Message::PlayNext));
    assert!(effects.is_empty());
    let (next, effects) = step(&mut m, Message::PlayNext);
    assert!(matches!(next, Message::Nothing));
    assert_eq!(current_id(&m), Some("b".to_string()));
    assert_eq!(effects.len(), 1);
}

#[test]
fn end_of_queue_stops_without_playlist_loop() {
    let mut m = Model::new();
    m.queue = vec![track("a", "A", "x"), track("b", "B", "y")];
    m.playback.current = Some(track("b", "B", "y"));
    let (_, effects) = step(&mut m, Message::PlayNext);
    assert!(effects.is_empty());
    assert_eq!(m.playback.status, AudioStatus::Idle);
    assert_eq!(m.playback.current.is_none(), true);
}

#[test]
fn end_of_queue_wraps_with_playlist_loop() {
    let mut m = Model::new();
    m.queue = vec![track("a", "A", "x"), track("b", "B", "y")];
    m.playback.current = Some(track("b", "B", "y"));
    m.playback.loop_mode = LoopMode::Playlist;
    step(&mut m, Message::PlayNext);
    assert_eq!(current_id(&m), Some("a".to_string()));
    assert_eq!(m.playback.status, AudioStatus::Loading);
}

#[test]
fn play_next_without_current_starts_first() {
    let mut m = Model::new();
    m.queue = vec![track("a", "A", "x")];
    step(&mut m, Message::PlayNext);
    assert_eq!(current_id(&m), Some("a".to_string()));
}

#[test]
fn loop_one_restarts_the_current_file() {
    let mut m = Model::new();
    m.playback.loop_mode = LoopMode::One;
    m.playback.current_path = Some(PathBuf::from("/m/a.mp3"));
    let report = AudioReport {
        ended: true,
        status: AudioStatus::Idle,
        position: TimeSpan { secs: 0, nanos: 0 },
    };
    let (next, effects) = step(&mut m, Message::AudioPolled(report));
    assert!(matches!(next, Message::Nothing));
    assert!(matches!(&effects[0], Effect::Play(p, PlayOrigin::LoopRestart) if *p == PathBuf::from("/m/a.mp3")));
    step(&mut m, Message::PlaybackStarted(PlayOrigin::LoopRestart, Ok(())));
    assert_eq!(m.playback.status, AudioStatus::Playing);
}

#[test]
fn poll_updates_status_and_position() {
    let mut m = Model::new();
    let report = AudioReport {
        ended: false,
        status: AudioStatus::Playing,
        position: TimeSpan { secs: 12, nanos: 5 },
    };
    step(&mut m, Message::AudioPolled(report));
    assert_eq!(m.playback.status, AudioStatus::Playing);
    assert_eq!(m.playback.position, TimeSpan { secs: 12, nanos: 5 });
}

#[test]
fn skip_next_and_prev_wrap() {
    let mut m = Model::new();
    m.queue = vec![track("a", "A", "x"), track("b", "B", "y"), track("c", "C", "z")];
    m.playback.current = Some(track("c", "C", "z"));
    step(&mut m, Message::SkipNext);
    assert_eq!(current_id(&m), Some("a".to_string()));
    step(&mut m, Message::SkipPrev);
    assert_eq!(current_id(&m), Some("c".to_string()));
    step(&mut m, Message::SkipPrev);
    assert_eq!(current_id(&m), Some("b".to_string()));
}

#[test]
fn skip_on_empty_queue_does_nothing() {
    let mut m = Model::new();
    let (_, effects) = step(&mut m, Message::SkipNext);
    assert!(effects.is_empty());
    let (_, effects) = step(&mut m, Message::SkipPrev);
    assert!(effects.is_empty());
    assert!(m.playback.current.is_none());
}

#[test]
fn skip_without_current_starts_first() {
    let mut m = Model::new();
    m.queue = vec![track("a", "A", "x"), track("b", "B", "y")];
    step(&mut m, Message::SkipPrev);
    assert_eq!(current_id(&m), Some("a".to_string()));
}

#[test]
fn remove_from_queue_keeps_selection_in_range() {
    let mut m = Model::new();
    m.queue = vec![track("a", "A", "x"), track("b", "B", "y"), track("c", "C", "z")];
    m.queue_selected = 2;
    step(&mut m, Message::RemoveFromQueue);
    assert_eq!(queue_ids(&m), vec!["a", "b"]);
    assert_eq!(m.queue_selected, 1);
    m.queue_selected = 0;
    step(&mut m, Message::RemoveFromQueue);
    assert_eq!(queue_ids(&m), vec!["b"]);
    assert_eq!(m.queue_selected, 0);
    step(&mut m, Message::RemoveFromQueue);
    assert!(m.queue.is_empty());
    assert_eq!(m.queue_selected, 0);
    step(&mut m, Message::RemoveFromQueue);
    assert!(m.queue.is_empty());
}

#[test]
fn delete_from_library_asks_to_delete_and_reload() {
    let mut m = Model::new();
    m.library = vec![entry("a", "A", "x", None), entry("b", "B", "y", None)];
    m.library_selected = 1;
    let (_, effects) = step(&mut m, Message::DeleteFromLibrary);
    assert_eq!(effects.len(), 2);
    assert!(matches!(&effects[0], Effect::DeleteTrack(id) if id.0 == "b"));
    assert!(matches!(effects[1], Effect::LoadLibrary));
    step(&mut m, Message::LibraryLoaded(vec![entry("a", "A", "x", None)]));
    assert_eq!(m.library.len(), 1);
    assert_eq!(m.library_selected, 0);
}

#[test]
fn library_reload_keeps_selection_when_emptied() {
    let mut m = Model::new();
    m.library_selected = 2;
    step(&mut m, Message::LibraryLoaded(vec![]));
    assert_eq!(m.library_selected, 2);
}

#[test]
fn back_in_search_moves_focus_to_results() {
    let mut m = Model::new();
    m.view = View::Search;
    step(&mut m, Message::Back);
    assert_eq!(m.search_focus, SearchFocus::Results);
    step(&mut m, Message::EnterSearch);
    assert_eq!(m.search_focus, SearchFocus::Input);
    m.view = View::Player;
    step(&mut m, Message::Back);
    assert_eq!(m.search_focus, SearchFocus::Input);
}

#[test]
fn toggle_pause_is_answered_by_status() {
    let mut m = Model::new();
    let (_, effects) = step(&mut m, Message::TogglePause);
    assert!(matches!(effects[0], Effect::TogglePause));
    step(&mut m, Message::PauseToggled(AudioStatus::Paused));
    assert_eq!(m.playback.status, AudioStatus::Paused);
}

#[test]
fn nothing_changes_nothing() {
    let mut m = Model::new();
    let (next, effects) = step(&mut m, Message::Nothing);
    assert!(matches!(next, Message::Nothing));
    assert!(effects.is_empty());
    assert_eq!(m.view, View::Player);
}

#[test]
fn defaults_match_a_fresh_player() {
    let m = Model::default();
    assert_eq!(m.view, View::default());
    assert_eq!(m.search_focus, SearchFocus::default());
    assert_eq!(m.player_focus, PlayerFocus::default());
    assert_eq!(m.playback.loop_mode, LoopMode::default());
    assert_eq!(m.playback.status, AudioStatus::default());
    assert!(SearchResults::default().tracks.is_empty());
    assert_eq!(mustui::state::PlaybackState::default().position, TimeSpan { secs: 0, nanos: 0 });
    assert_eq!(mustui::action::InputMode::default(), mustui::action::InputMode::Normal);
    assert_eq!(mustui::messages::LoopMode::default(), mustui::messages::LoopMode::Off);
    assert!(mustui::messages::PlayerState::default().current.is_none());
}

#[test]
fn nav_down_moves_only_the_focused_selection() {
    let mut m = Model::new();
    m.view = View::Player;
    m.player_focus = PlayerFocus::Queue;
    m.queue = vec![track("a", "A", "x"), track("b", "B", "y")];
    m.library = vec![entry("l", "L", "z", None), entry("m", "M", "z", None)];
    m.results = results("q", vec![track("c", "C", "w"), track("d", "D", "w")]);
    step(&mut m, Message::NavDown);
    assert_eq!((m.queue_selected, m.library_selected, m.results_selected), (1, 0, 0));
    step(&mut m, Message::NavDown);
    assert_eq!((m.queue_selected, m.library_selected, m.results_selected), (1, 0, 0));
    m.queue.clear();
    m.queue_selected = 0;
    step(&mut m, Message::NavDown);
    assert_eq!(m.queue_selected, 0);
}

#[test]
fn nav_next_stops_at_the_last_item() {
    let mut m = Model::new();
    m.view = View::Search;
    m.results = results("q", vec![track("a", "A", "x"), track("b", "B", "y")]);
    nav_next(&mut m);
    assert_eq!(m.results_selected, 1);
    nav_next(&mut m);
    assert_eq!(m.results_selected, 1);
    assert_eq!((m.library_selected, m.queue_selected), (0, 0));
}
