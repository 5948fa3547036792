use mustui::action::{translate, Action, InputMode};
use mustui::audio::{AudioState, PauseAction};
use mustui::keys::{translate_key, translate_player, translate_search, KeyCode, KeyPress};
use mustui::labels::{
    detail_text, is_playing, is_queued, library_highlight, library_label, now_playing_label,
    progress_label, queue_label, result_label, results_title_text, search_box_text,
    search_hints_text, status_label,
};
use mustui::labels::{pane_meta_label, pane_result_label, pane_results_title, pane_status_label};
use mustui::messages::LoopMode as PlayerLoop;
use mustui::models::{TimeSpan, Track, TrackId};
use mustui::msg::Message;
use mustui::playlist::PlaylistEntry;
use mustui::state::{AudioStatus, LoopMode, Model, SearchFocus, View};
use mustui::task::Task;
use mustui::text::{contains, chars_of, ends_with, is_whitespace, push_decimal, push_pad2};

fn key(code: KeyCode) -> KeyPress {
    KeyPress { code, ctrl: false }
}

fn tr(id: &str, title: &str, artist: &str) -> Track {
    Track {
        id: TrackId(id.to_string()),
        title: title.to_string(),
        artist: artist.to_string(),
        album: None,
        duration: None,
        thumbnail: None,
    }
}

#[test]
fn ctrl_c_quits_everywhere() {
    let mut m = Model::new();
    let cc = KeyPress { code: KeyCode::Char('c'), ctrl: true };
    assert!(matches!(translate_key(cc, &m), Message::Quit));
    m.view = View::Search;
    assert!(matches!(translate_key(cc, &m), Message::Quit));
    assert_eq!(translate(cc, &InputMode::Searching), Some(Action::Quit));
}

#[test]
fn search_input_keys() {
    let f = SearchFocus::Input;
    assert!(matches!(translate_search(key(KeyCode::Char('q')), &f), Message::SearchChar('q')));
    assert!(matches!(translate_search(key(KeyCode::Enter), &f), Message::SubmitSearch));
    assert!(matches!(translate_search(key(KeyCode::Esc), &f), Message::Back));
    assert!(matches!(translate_search(key(KeyCode::Backspace), &f), Message::SearchBackspace));
    assert!(matches!(translate_search(key(KeyCode::Tab), &f), Message::ToggleView));
    assert!(matches!(translate_search(key(KeyCode::Up), &f), Message::Nothing));
}

#[test]
fn search_results_keys() {
    let f = SearchFocus::Results;
    assert!(matches!(translate_search(key(KeyCode::Char('/')), &f), Message::EnterSearch));
    assert!(matches!(translate_search(key(KeyCode::Esc), &f), Message::EnterSearch));
    assert!(matches!(translate_search(key(KeyCode::Char('j')), &f), Message::NavDown));
    assert!(matches!(translate_search(key(KeyCode::Up), &f), Message::NavUp));
    assert!(matches!(translate_search(key(KeyCode::Char('a')), &f), Message::AddToQueue));
    assert!(matches!(translate_search(key(KeyCode::Char('q')), &f), Message::Quit));
    assert!(matches!(translate_search(key(KeyCode::Char('x')), &f), Message::Nothing));
}

#[test]
fn player_keys() {
    assert!(matches!(translate_player(key(KeyCode::Char(' '))), Message::TogglePause));
    assert!(matches!(translate_player(key(KeyCode::Char('r'))), Message::ToggleLoop));
    assert!(matches!(translate_player(key(KeyCode::Char('H'))), Message::SkipPrev));
    assert!(matches!(translate_player(key(KeyCode::Char('L'))), Message::SkipNext));
    assert!(matches!(translate_player(key(KeyCode::Left)), Message::FocusLeft));
    assert!(matches!(translate_player(key(KeyCode::Char('l'))), Message::FocusRight));
    assert!(matches!(translate_player(key(KeyCode::Char('d'))), Message::RemoveFromQueue));
    assert!(matches!(translate_player(key(KeyCode::Char('D'))), Message::DeleteFromLibrary));
    assert!(matches!(translate_player(key(KeyCode::Other)), Message::Nothing));
    let m = Model::new();
    assert!(matches!(translate_key(key(KeyCode::Enter), &m), Message::Confirm));
}

#[test]
fn three_pane_actions() {
    let n = InputMode::Normal;
    assert_eq!(translate(key(KeyCode::Char('/')), &n), Some(Action::StartSearch));
    assert_eq!(translate(key(KeyCode::Char('l')), &n), Some(Action::ToggleLoop));
    assert_eq!(translate(key(KeyCode::Down), &n), Some(Action::SelectNext));
    assert_eq!(translate(key(KeyCode::Enter), &n), Some(Action::PlaySelected));
    assert_eq!(translate(key(KeyCode::Char('z')), &n), None);
    let s = InputMode::Searching;
    assert_eq!(translate(key(KeyCode::Char('z')), &s), Some(Action::SearchInput('z')));
    assert_eq!(translate(key(KeyCode::Esc), &s), Some(Action::CancelSearch));
    assert_eq!(translate(key(KeyCode::Tab), &s), None);
}

#[test]
fn labels_of_rows() {
    let e = PlaylistEntry {
        id: TrackId("a".to_string()),
        title: "Song".to_string(),
        artist: "Band".to_string(),
        duration_ms: Some(185_999),
    };
    assert_eq!(library_label(&e), "Band — Song [03:05]");
    let mut t = tr("a", "Song", "Band");
    assert_eq!(result_label(&t), "Band — Song");
    t.duration = Some(TimeSpan { secs: 6001, nanos: 0 });
    assert_eq!(result_label(&t), "Band — Song [100:01]");
    assert_eq!(queue_label(&t, true), "▶ Band — Song");
    assert_eq!(queue_label(&t, false), "  Band — Song");
    t.album = Some("LP".to_string());
    assert_eq!(now_playing_label(&t), "Band — Song · LP");
}

#[test]
fn progress_and_status() {
    let pos = TimeSpan { secs: 65, nanos: 0 };
    assert_eq!(progress_label(pos, Some(TimeSpan { secs: 200, nanos: 0 })), "01:05 / 03:20");
    assert_eq!(progress_label(pos, Some(TimeSpan { secs: 0, nanos: 0 })), "--:-- / --:--");
    assert_eq!(progress_label(pos, None), "--:-- / --:--");
    assert_eq!(status_label(AudioStatus::Playing, LoopMode::One, &None), "▶  Playing  [↺ one]");
    assert_eq!(
        status_label(AudioStatus::Idle, LoopMode::Off, &Some("x".to_string())),
        "   Idle  ⚠ x"
    );
    assert_eq!(status_label(AudioStatus::Loading, LoopMode::Playlist, &None), "⏳ Loading  [⟳ all]");
}

#[test]
fn search_view_texts() {
    let mut m = Model::new();
    m.query = "abc".to_string();
    assert_eq!(search_box_text(&m), "abc█");
    m.search_focus = SearchFocus::Results;
    assert_eq!(search_box_text(&m), "abc");
    m.query.clear();
    assert_eq!(search_box_text(&m), "  press / to search...");
    assert_eq!(results_title_text(&m), " Results ");
    m.results.query = "q".to_string();
    assert_eq!(results_title_text(&m), " Results: q ");
    assert!(search_hints_text(SearchFocus::Input).starts_with(" [Enter] search"));
    let t = tr("a", "T", "A");
    let lines = detail_text(&t, true, &Some("oops".to_string()));
    assert_eq!(lines[2], "Album:    —");
    assert_eq!(lines[3], "Duration: —");
    assert_eq!(lines[4], "");
    assert_eq!(lines[5], "[↵] play now  ✓ already in queue");
    assert_eq!(lines[6], "⚠ oops");
}

#[test]
fn highlight_and_playing_marks() {
    let mut m = Model::new();
    assert_eq!(library_highlight(&m), 0);
    m.library = vec![PlaylistEntry {
        id: TrackId("a".to_string()),
        title: "t".to_string(),
        artist: "a".to_string(),
        duration_ms: None,
    }];
    m.library_selected = 4;
    assert_eq!(library_highlight(&m), 0);
    let t = tr("x", "T", "A");
    assert!(!is_playing(&t, &m));
    m.playback.current = Some(tr("x", "Other", "B"));
    assert!(is_playing(&t, &m));
}

#[test]
fn audio_state_machine() {
    let mut a = AudioState::new();
    assert_eq!(a.toggle_pause(false), PauseAction::Nothing);
    assert!(!a.needs_poll());
    a.started();
    assert_eq!(a.status, AudioStatus::Playing);
    assert!(a.needs_poll());
    assert!(!a.polled(TimeSpan { secs: 3, nanos: 0 }, false));
    assert_eq!(a.position, TimeSpan { secs: 3, nanos: 0 });
    assert_eq!(a.toggle_pause(false), PauseAction::Pause);
    assert_eq!(a.status, AudioStatus::Paused);
    assert!(!a.needs_poll());
    assert_eq!(a.toggle_pause(true), PauseAction::Resume);
    assert!(a.polled(TimeSpan { secs: 9, nanos: 0 }, true));
    assert_eq!(a, AudioState::new());
    a.started();
    a.stop();
    assert_eq!(a, AudioState::new());
}

#[test]
fn text_helpers() {
    let s = chars_of("Official Audio");
    assert!(contains(&s, &chars_of("Audio")));
    assert!(contains(&s, &chars_of("")));
    assert!(!contains(&s, &chars_of("audio")));
    assert!(ends_with(&s, &chars_of("dio")));
    assert!(!ends_with(&chars_of("io"), &chars_of("dio")));
    assert!(is_whitespace('\u{3000}'));
    assert!(!is_whitespace('x'));
    let mut out = String::new();
    push_decimal(&mut out, 1234567890);
    push_pad2(&mut out, 7);
    push_pad2(&mut out, 42);
    assert_eq!(out, "12345678900742");
}

#[test]
fn task_keeps_its_sender() {
    let (tx, rx) = std::sync::mpsc::channel::<u32>();
    let task = Task::new(tx);
    task.sender().send(5).unwrap();
    assert_eq!(rx.recv().unwrap(), 5);
}

#[test]
fn time_spans() {
    let d = TimeSpan::from_millis(61_500);
    assert_eq!(d, TimeSpan { secs: 61, nanos: 500_000_000 });
    assert_eq!(d.millis_u64(), 61_500);
    assert!(!d.is_zero());
    assert!(TimeSpan::zero().is_zero());
    assert_eq!(d.as_secs(), 61);
}

#[test]
fn pane_labels() {
    let mut t = tr("a", "Song", "Band");
    assert_eq!(pane_result_label(&t), "Band — Song");
    t.duration = Some(TimeSpan { secs: 59, nanos: 0 });
    assert_eq!(pane_result_label(&t), "Band — Song  [00:59]");
    assert_eq!(pane_results_title("lofi"), " Results: lofi ");
    assert_eq!(pane_meta_label(&t), "Band");
    t.album = Some("LP".to_string());
    assert_eq!(pane_meta_label(&t), "Band · LP");
    assert_eq!(pane_status_label(AudioStatus::Paused, PlayerLoop::One), "|| Paused  [loop: on]");
    assert_eq!(pane_status_label(AudioStatus::Idle, PlayerLoop::Off), "   Idle");
}

#[test]
fn queued_marks_follow_the_queue() {
    let mut m = Model::new();
    let t = tr("x", "T", "A");
    assert!(!is_queued(&t, &m));
    m.queue = vec![tr("y", "Y", "B"), tr("x", "Other", "C")];
    assert!(is_queued(&t, &m));
    assert!(!is_queued(&tr("z", "T", "A"), &m));
}

#[test]
fn artwork_decodes_only_images() {
    let img = image::DynamicImage::new_rgb8(3, 2);
    let mut png: Vec<u8> = Vec::new();
    img.write_to(&mut std::io::Cursor::new(&mut png), image::ImageFormat::Png).unwrap();
    let back = mustui::artwork::decode_artwork(&png).unwrap();
    assert_eq!((back.width(), back.height()), (3, 2));
    assert!(mustui::artwork::decode_artwork(b"not an image").is_err());
}
