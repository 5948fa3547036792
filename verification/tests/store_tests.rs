use std::path::PathBuf;
use mustui::library::{library_entries, track_file_names, Sidecar};
use mustui::models::{TimeSpan, Track, TrackId};
use mustui::playlist::{sanitize_name, Playlist, PlaylistEntry, PlaylistStore};

fn pe(id: &str, title: &str, artist: &str) -> PlaylistEntry {
    PlaylistEntry {
        id: TrackId(id.to_string()),
        title: title.to_string(),
        artist: artist.to_string(),
        duration_ms: None,
    }
}

fn tr(id: &str, title: &str, artist: &str, d: Option<TimeSpan>) -> Track {
    Track {
        id: TrackId(id.to_string()),
        title: title.to_string(),
        artist: artist.to_string(),
        album: None,
        duration: d,
        thumbnail: None,
    }
}

#[test]
fn sanitize_replaces_forbidden_characters() {
    assert_eq!(sanitize_name("a/b\\c:d*e?f\"g<h>i|j"), "a_b_c_d_e_f_g_h_i_j");
    assert_eq!(sanitize_name("Chill Mix ☕"), "Chill Mix ☕");
    assert_eq!(sanitize_name(""), "");
}

#[test]
fn playlist_file_name_is_sanitized_name_and_json() {
    assert_eq!(PlaylistStore::playlist_file_name("Road/Trip"), "Road_Trip.json");
    assert_eq!(PlaylistStore::playlist_file_name("a:b"), "a_b.json");
    assert_eq!(PlaylistStore::playlist_file_name(""), ".json");
}

#[test]
fn create_gives_empty_playlist() {
    let store = PlaylistStore::new(PathBuf::from("/p"));
    let p = store.create("Focus");
    assert_eq!(p.name, "Focus");
    assert!(p.tracks.is_empty());
}

#[test]
fn add_track_is_idempotent_and_remove_undoes_it() {
    let store = PlaylistStore::new(PathBuf::from("/p"));
    let mut p = Playlist { name: "n".to_string(), tracks: vec![pe("a", "A", "x")] };
    assert!(store.add_track(&mut p, pe("b", "B", "y")));
    assert!(!store.add_track(&mut p, pe("b", "Other", "z")));
    assert_eq!(p.tracks.len(), 2);
    assert_eq!(p.tracks[1].title, "B");
    store.remove_track(&mut p, &TrackId("b".to_string()));
    assert_eq!(p.tracks.len(), 1);
    assert_eq!(p.tracks[0].id.0, "a");
    store.remove_track(&mut p, &TrackId("missing".to_string()));
    assert_eq!(p.tracks.len(), 1);
    assert_eq!(p.name, "n");
}

#[test]
fn remove_track_removes_every_copy() {
    let store = PlaylistStore::new(PathBuf::from("/p"));
    let mut p = Playlist {
        name: "n".to_string(),
        tracks: vec![pe("a", "1", "x"), pe("b", "2", "y"), pe("a", "3", "z")],
    };
    store.remove_track(&mut p, &TrackId("a".to_string()));
    assert_eq!(p.tracks.len(), 1);
    assert_eq!(p.tracks[0].id.0, "b");
}

#[test]
fn library_is_sorted_by_artist_then_title_and_needs_audio() {
    let found = vec![
        Sidecar { track: tr("1", "Zeta", "Beta", None), has_audio: true },
        Sidecar { track: tr("2", "Alpha", "Beta", Some(TimeSpan { secs: 3, nanos: 999_999_999 })), has_audio: true },
        Sidecar { track: tr("3", "Song", "Alpha", None), has_audio: false },
        Sidecar { track: tr("4", "Song", "Alpha", None), has_audio: true },
        Sidecar { track: tr("5", "Alpha", "Beta", None), has_audio: true },
    ];
    let lib = library_entries(&found);
    let ids: Vec<&str> = lib.iter().map(|e| e.id.0.as_str()).collect();
    assert_eq!(ids, vec!["4", "2", "5", "1"]);
    assert_eq!(lib[1].duration_ms, Some(3999));
    assert_eq!(lib[0].duration_ms, None);
}

#[test]
fn library_orders_by_code_point() {
    let found = vec![
        Sidecar { track: tr("1", "t", "b", None), has_audio: true },
        Sidecar { track: tr("2", "t", "B", None), has_audio: true },
        Sidecar { track: tr("3", "t", "ab", None), has_audio: true },
        Sidecar { track: tr("4", "t", "a", None), has_audio: true },
    ];
    let lib = library_entries(&found);
    let ids: Vec<&str> = lib.iter().map(|e| e.id.0.as_str()).collect();
    assert_eq!(ids, vec!["2", "4", "3", "1"]);
}

#[test]
fn empty_library() {
    assert!(library_entries(&vec![]).is_empty());
}

#[test]
fn files_of_a_track() {
    let names = track_file_names(&TrackId("abc".to_string()));
    assert_eq!(names, vec!["abc.m4a", "abc.mp3", "abc.webm", "abc.opus", "abc.json"]);
}
