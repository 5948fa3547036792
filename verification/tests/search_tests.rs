use mustui::models::{TimeSpan, TrackId};
use mustui::text::chars_of;
use mustui::ytdlp::{
    score_lowercased, title_score, audio_file_name, audio_score, fetch_outcome, into_track, output_lines, rank_entries,
    rank_order, search_results, listed_results, listed_search_spec, search_spec, watch_url, FetchOutcome, FlatEntry, RawThumb,
};

fn entry(id: &str, title: &str) -> FlatEntry {
    FlatEntry {
        id: id.to_string(),
        title: title.to_string(),
        uploader: None,
        channel: None,
        artists: None,
        album: None,
        duration: None,
        odd_length: false,
        thumbnails: vec![],
    }
}

#[test]
fn plain_title_scores_zero() {
    assert_eq!(audio_score(&entry("a", "Some Song")), 0);
}

#[test]
fn topic_channel_and_official_audio_score_high() {
    let mut e = entry("a", "Song (Official Audio)");
    e.channel = Some("Artist - Topic".to_string());
    e.album = Some("Album".to_string());
    assert_eq!(audio_score(&e), 12 + 8 + 6);
}

#[test]
fn channel_wins_over_uploader_for_topic() {
    let mut e = entry("a", "Song");
    e.channel = Some("Someone".to_string());
    e.uploader = Some("Artist - Topic".to_string());
    assert_eq!(audio_score(&e), 0);
    e.channel = None;
    assert_eq!(audio_score(&e), 12);
}

#[test]
fn penalties_add_up() {
    assert_eq!(audio_score(&entry("a", "Song (Official Music Video)")), -8);
    assert_eq!(audio_score(&entry("a", "Song Lyrics")), -5);
    assert_eq!(audio_score(&entry("a", "Song (Live) karaoke")), -17);
    assert_eq!(audio_score(&entry("a", "Fan Cover remix")), -9);
    assert_eq!(audio_score(&entry("a", "Provided to YouTube by X")), 6);
    let mut e = entry("a", "Song");
    e.odd_length = true;
    assert_eq!(audio_score(&e), -4);
}

#[test]
fn ranking_is_stable_and_descending() {
    let keys = vec![0, 5, 0, 7, 5];
    assert_eq!(rank_order(&keys), vec![3, 1, 4, 0, 2]);
    assert_eq!(rank_order(&vec![]), Vec::<usize>::new());
}

#[test]
fn rank_entries_prefers_album_audio_and_keeps_limit() {
    let mut topic = entry("t", "Track");
    topic.channel = Some("Band - Topic".to_string());
    let video = entry("v", "Track (Official Video)");
    let plain = entry("p", "Track");
    let es = vec![video, plain, topic];
    let tracks = rank_entries(&es, 2);
    let ids: Vec<&str> = tracks.iter().map(|t| t.id.0.as_str()).collect();
    assert_eq!(ids, vec!["t", "p"]);
    let all = rank_entries(&es, 10);
    assert_eq!(all.len(), 3);
    assert_eq!(all[2].id.0, "v");
}

#[test]
fn search_results_keep_query() {
    let es = vec![entry("a", "A"), entry("b", "B")];
    let r = search_results("lofi", &es, 10);
    assert_eq!(r.query, "lofi");
    assert_eq!(r.tracks.len(), 2);
    assert_eq!(r.tracks[0].id.0, "a");
}

#[test]
fn into_track_takes_artists_and_widest_thumbnail() {
    let mut e = entry("id1", "Title");
    e.artists = Some(vec!["A".to_string(), "B".to_string(), "C".to_string()]);
    e.uploader = Some("Up".to_string());
    e.duration = Some(TimeSpan { secs: 200, nanos: 0 });
    e.thumbnails = vec![
        RawThumb { url: "small".to_string(), width: Some(10), height: Some(5) },
        RawThumb { url: "none".to_string(), width: None, height: Some(900) },
        RawThumb { url: "big".to_string(), width: Some(30), height: None },
        RawThumb { url: "big2".to_string(), width: Some(30), height: Some(7) },
        RawThumb { url: "mid".to_string(), width: Some(20), height: Some(9) },
    ];
    let t = into_track(&e);
    assert_eq!(t.id, TrackId("id1".to_string()));
    assert_eq!(t.title, "Title");
    assert_eq!(t.artist, "A, B, C");
    assert_eq!(t.duration, Some(TimeSpan { secs: 200, nanos: 0 }));
    let th = t.thumbnail.unwrap();
    assert_eq!(th.url, "big2");
    assert_eq!(th.width, 30);
    assert_eq!(th.height, 7);
}

#[test]
fn into_track_falls_back_to_uploader_then_channel() {
    let mut e = entry("i", "T");
    e.artists = Some(vec![]);
    e.channel = Some("Chan".to_string());
    assert_eq!(into_track(&e).artist, "Chan");
    e.uploader = Some("Up".to_string());
    assert_eq!(into_track(&e).artist, "Up");
    let e2 = entry("i", "T");
    let t = into_track(&e2);
    assert_eq!(t.artist, "");
    assert!(t.thumbnail.is_none());
}

#[test]
fn thumbnail_height_defaults_to_zero() {
    let mut e = entry("i", "T");
    e.thumbnails = vec![RawThumb { url: "u".to_string(), width: Some(1), height: None }];
    let th = into_track(&e).thumbnail.unwrap();
    assert_eq!(th.height, 0);
}

#[test]
fn output_lines_drop_blank_lines() {
    let text = "{\"a\":1}\r\n\n  \t\n{\"b\":2}\n{\"c\":3}";
    let lines = output_lines(text);
    assert_eq!(lines, vec!["{\"a\":1}", "{\"b\":2}", "{\"c\":3}"]);
    assert!(output_lines("").is_empty());
    assert!(output_lines("\n\n \n").is_empty());
    assert_eq!(output_lines("x\r"), vec!["x\r"]);
}

#[test]
fn search_spec_asks_for_twice_the_limit() {
    assert_eq!(search_spec("lofi hip hop", 10), "ytsearch20:lofi hip hop");
    assert_eq!(search_spec("q", 0), "ytsearch0:q");
}

#[test]
fn download_names() {
    let id = TrackId("dQw4w9WgXcQ".to_string());
    assert_eq!(audio_file_name(&id), "dQw4w9WgXcQ.mp3");
    assert_eq!(watch_url(&id), "https://www.youtube.com/watch?v=dQw4w9WgXcQ");
}

#[test]
fn fetch_outcomes() {
    assert_eq!(fetch_outcome(true, false, false), FetchOutcome::Cached);
    assert_eq!(fetch_outcome(false, false, true), FetchOutcome::DownloadFailed);
    assert_eq!(fetch_outcome(false, true, false), FetchOutcome::Missing);
    assert_eq!(fetch_outcome(false, true, true), FetchOutcome::Ready);
}

#[test]
fn score_on_a_lowercased_title() {
    let e = entry("a", "ignored");
    assert_eq!(score_lowercased(&e, "song (official audio)"), 8);
    assert_eq!(score_lowercased(&e, "SONG (OFFICIAL AUDIO)"), 0);
    assert_eq!(title_score(&chars_of("live at wembley (cover)")), -13);
    assert_eq!(title_score(&chars_of("song lyrics")), -5);
    assert_eq!(title_score(&chars_of("lyrics of song")), 0);
}

#[test]
fn listed_results_keep_yt_dlp_order() {
    let mut topic = entry("b", "Song");
    topic.channel = Some("Artist - Topic".to_string());
    let entries = vec![entry("a", "Song (Official Music Video)"), topic, entry("c", "Plain")];
    let r = listed_results("q", &entries);
    assert_eq!(r.query, "q");
    let ids: Vec<&str> = r.tracks.iter().map(|t| t.id.0.as_str()).collect();
    assert_eq!(ids, vec!["a", "b", "c"]);
    assert_eq!(r.tracks[1].artist, "Artist - Topic");
}

#[test]
fn listed_search_asks_for_the_limit_itself() {
    assert_eq!(listed_search_spec("lofi hip hop", 10), "ytsearch10:lofi hip hop");
    assert_eq!(listed_search_spec("x", 0), "ytsearch0:x");
}
