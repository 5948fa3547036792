//! The text that the screens show: list items, times, the status line, the
//! search box and the track details. Drawing it is the caller's part.

use vstd::prelude::*;
use vstd::view::View as _;

use crate::models::{TimeSpan, Track};
use crate::playlist::PlaylistEntry;
use crate::state::{AudioStatus, LoopMode, Model, SearchFocus};
use crate::text::{owned, pad2, push_char, push_pad2, push_str};

verus! {

broadcast use vstd::string::group_string_axioms;

/// `MM:SS` for a number of whole seconds (minutes not cut at 99).
pub open spec fn clock_of(secs: nat) -> Seq<char> {
    pad2(secs / 60) + seq![':'] + pad2(secs % 60)
}

fn push_clock(out: &mut String, secs: u64)
    ensures
        final(out)@ == old(out)@ + clock_of(secs as nat),
{
    push_pad2(out, secs / 60);
    push_char(out, ':');
    push_pad2(out, secs % 60);
    assert(final(out)@ =~= old(out)@ + clock_of(secs as nat));
}

/// `artist — title`.
pub open spec fn byline(artist: Seq<char>, title: Seq<char>) -> Seq<char> {
    artist + " — "@ + title
}

fn push_byline(out: &mut String, artist: &String, title: &String)
    ensures
        final(out)@ == old(out)@ + byline(artist@, title@),
{
    push_str(out, artist.as_str());
    push_str(out, " — ");
    push_str(out, title.as_str());
    assert(final(out)@ =~= old(out)@ + byline(artist@, title@));
}

/// ` [MM:SS]`.
pub open spec fn bracket_clock(secs: nat) -> Seq<char> {
    " ["@ + clock_of(secs) + seq![']']
}

fn push_bracket_clock(out: &mut String, secs: u64)
    ensures
        final(out)@ == old(out)@ + bracket_clock(secs as nat),
{
    push_str(out, " [");
    push_clock(out, secs);
    push_char(out, ']');
    assert(final(out)@ =~= old(out)@ + bracket_clock(secs as nat));
}

/// A library row: `artist — title`, then ` [MM:SS]` when the length is known.
pub open spec fn library_row(e: PlaylistEntry) -> Seq<char> {
    byline(e.artist@, e.title@) + match e.duration_ms {
        Some(ms) => bracket_clock((ms / 1000) as nat),
        None => Seq::empty(),
    }
}

pub fn library_label(e: &PlaylistEntry) -> (r: String)
    ensures
        r@ == library_row(*e),
{
    let mut out = String::new();
    push_byline(&mut out, &e.artist, &e.title);
    match e.duration_ms {
        Some(ms) => push_bracket_clock(&mut out, ms / 1000),
        None => {},
    }
    assert(out@ =~= library_row(*e));
    out
}

/// A search result row: `artist — title`, then ` [MM:SS]` when the length
/// is known.
pub open spec fn result_row(t: Track) -> Seq<char> {
    byline(t.artist@, t.title@) + match t.duration {
        Some(d) => bracket_clock(d.secs as nat),
        None => Seq::empty(),
    }
}

pub fn result_label(t: &Track) -> (r: String)
    ensures
        r@ == result_row(*t),
{
    let mut out = String::new();
    push_byline(&mut out, &t.artist, &t.title);
    match t.duration {
        Some(d) => push_bracket_clock(&mut out, d.as_secs()),
        None => {},
    }
    assert(out@ =~= result_row(*t));
    out
}

/// A queue row: `▶ ` before the track that is playing, two spaces before
/// the others.
pub open spec fn queue_row(t: Track, playing: bool) -> Seq<char> {
    (if playing {
        "▶ "@
    } else {
        "  "@
    }) + byline(t.artist@, t.title@)
}

pub fn queue_label(t: &Track, playing: bool) -> (r: String)
    ensures
        r@ == queue_row(*t, playing),
{
    let mut out = if playing {
        owned("▶ ")
    } else {
        owned("  ")
    };
    push_byline(&mut out, &t.artist, &t.title);
    assert(out@ =~= queue_row(*t, playing));
    out
}

/// The track that is playing is this one (by id).
pub fn is_playing(t: &Track, model: &Model) -> (r: bool)
    ensures
        r == (model.playback.current is Some && model.playback.current.unwrap().id.same(t.id)),
{
    match &model.playback.current {
        Some(c) => crate::models::same_id(&c.id, &t.id),
        None => false,
    }
}

/// The queue already holds a track with this track's id.
pub fn is_queued(t: &Track, model: &Model) -> (r: bool)
    ensures
        r == crate::update::holds_id(model.queue@, t.id),
{
    crate::update::queue_holds(&model.queue, &t.id)
}

/// The library row to highlight: the selection, pulled back onto the last
/// row when it is past the end.
pub fn library_highlight(model: &Model) -> (r: usize)
    ensures
        r == if model.library_selected < crate::update::dec(model.library@.len() as int) {
            model.library_selected as int
        } else {
            crate::update::dec(model.library@.len() as int)
        },
{
    let last = if model.library.len() == 0 {
        0
    } else {
        model.library.len() - 1
    };
    if model.library_selected < last {
        model.library_selected
    } else {
        last
    }
}

/// The first line of the now-playing pane: `artist — title`, then
/// ` · album` when the album is known.
pub open spec fn now_playing_line(t: Track) -> Seq<char> {
    byline(t.artist@, t.title@) + match t.album {
        Some(a) => " · "@ + a@,
        None => Seq::empty(),
    }
}

pub fn now_playing_label(t: &Track) -> (r: String)
    ensures
        r@ == now_playing_line(*t),
{
    let mut out = String::new();
    push_byline(&mut out, &t.artist, &t.title);
    match &t.album {
        Some(a) => {
            push_str(&mut out, " · ");
            push_str(&mut out, a.as_str());
        },
        None => {},
    }
    assert(out@ =~= now_playing_line(*t));
    out
}

/// The progress text: `MM:SS / MM:SS` (position, length) when the length is
/// known and not zero, `--:-- / --:--` otherwise.
pub open spec fn progress_line(position: TimeSpan, length: Option<TimeSpan>) -> Seq<char> {
    match length {
        Some(d) => if d.secs == 0 && d.nanos == 0 {
            "--:-- / --:--"@
        } else {
            clock_of(position.secs as nat) + " / "@ + clock_of(d.secs as nat)
        },
        None => "--:-- / --:--"@,
    }
}

pub fn progress_label(position: TimeSpan, length: Option<TimeSpan>) -> (r: String)
    ensures
        r@ == progress_line(position, length),
{
    match length {
        Some(d) => {
            if d.is_zero() {
                owned("--:-- / --:--")
            } else {
                let mut out = String::new();
                push_clock(&mut out, position.as_secs());
                push_str(&mut out, " / ");
                push_clock(&mut out, d.as_secs());
                assert(out@ =~= progress_line(position, length));
                out
            }
        },
        None => owned("--:-- / --:--"),
    }
}

pub open spec fn status_word(s: AudioStatus) -> Seq<char> {
    match s {
        AudioStatus::Playing => "▶  Playing"@,
        AudioStatus::Paused => "⏸  Paused"@,
        AudioStatus::Loading => "⏳ Loading"@,
        AudioStatus::Idle => "   Idle"@,
    }
}

pub open spec fn loop_word(m: LoopMode) -> Seq<char> {
    match m {
        LoopMode::One => "  [↺ one]"@,
        LoopMode::Playlist => "  [⟳ all]"@,
        LoopMode::Off => ""@,
    }
}

/// The status line of the now-playing pane: the status, the loop mode and
/// the error if there is one (`  ⚠ ` before it).
pub open spec fn status_line(s: AudioStatus, m: LoopMode, error: Option<String>) -> Seq<char> {
    status_word(s) + loop_word(m) + match error {
        Some(e) => "  ⚠ "@ + e@,
        None => Seq::empty(),
    }
}

pub fn status_label(s: AudioStatus, m: LoopMode, error: &Option<String>) -> (r: String)
    ensures
        r@ == status_line(s, m, *error),
{
    let mut out = String::new();
    match s {
        AudioStatus::Playing => push_str(&mut out, "▶  Playing"),
        AudioStatus::Paused => push_str(&mut out, "⏸  Paused"),
        AudioStatus::Loading => push_str(&mut out, "⏳ Loading"),
        AudioStatus::Idle => push_str(&mut out, "   Idle"),
    }
    match m {
        LoopMode::One => push_str(&mut out, "  [↺ one]"),
        LoopMode::Playlist => push_str(&mut out, "  [⟳ all]"),
        LoopMode::Off => push_str(&mut out, ""),
    }
    match error {
        Some(e) => {
            push_str(&mut out, "  ⚠ ");
            push_str(&mut out, e.as_str());
        },
        None => {},
    }
    assert(out@ =~= status_line(s, m, *error));
    out
}

/// What the search box shows: the query with a `█` cursor while it has
/// the focus; a hint when it has neither focus nor text; else the query.
pub open spec fn search_box(query: Seq<char>, focused: bool) -> Seq<char> {
    if focused {
        query + "█"@
    } else if query.len() == 0 {
        "  press / to search..."@
    } else {
        query
    }
}

pub fn search_box_text(model: &Model) -> (r: String)
    ensures
        r@ == search_box(model.query@, model.search_focus == SearchFocus::Input),
{
    let focused = model.search_focus == SearchFocus::Input;
    if focused {
        let mut out = model.query.clone();
        push_str(&mut out, "█");
        out
    } else if model.query.as_str().unicode_len() == 0 {
        owned("  press / to search...")
    } else {
        model.query.clone()
    }
}

/// The title of the results list: ` Results ` before any search,
/// ` Results: <query> ` after one.
pub open spec fn results_title(query: Seq<char>) -> Seq<char> {
    if query.len() == 0 {
        " Results "@
    } else {
        " Results: "@ + query + seq![' ']
    }
}

pub fn results_title_text(model: &Model) -> (r: String)
    ensures
        r@ == results_title(model.results.query@),
{
    if model.results.query.as_str().unicode_len() == 0 {
        owned(" Results ")
    } else {
        let mut out = owned(" Results: ");
        push_str(&mut out, model.results.query.as_str());
        push_char(&mut out, ' ');
        assert(out@ =~= results_title(model.results.query@));
        out
    }
}

/// The key hints at the bottom of the search view.
pub open spec fn search_hints(focus: SearchFocus) -> Seq<char> {
    match focus {
        SearchFocus::Input => " [Enter] search  [Esc] go to results  [Tab] player  [Ctrl-C] quit"@,
        SearchFocus::Results => " [/][Esc] edit search  [j/k] nav  [↵] play now  [a] add to queue  [Tab] player  [q] quit"@,
    }
}

pub fn search_hints_text(focus: SearchFocus) -> (r: String)
    ensures
        r@ == search_hints(focus),
{
    match focus {
        SearchFocus::Input => owned(
            " [Enter] search  [Esc] go to results  [Tab] player  [Ctrl-C] quit",
        ),
        SearchFocus::Results => owned(
            " [/][Esc] edit search  [j/k] nav  [↵] play now  [a] add to queue  [Tab] player  [q] quit",
        ),
    }
}

/// The track details of the search view, one line each: title, artist,
/// album (`—` when unknown), length (`—` when unknown), an empty line, the
/// hint (which tells when the track is already queued), and the error if
/// there is one (else an empty line).
pub open spec fn detail_lines(t: Track, queued: bool, error: Option<String>) -> Seq<Seq<char>> {
    seq![
        "Title:    "@ + t.title@,
        "Artist:   "@ + t.artist@,
        "Album:    "@ + match t.album {
            Some(a) => a@,
            None => "—"@,
        },
        "Duration: "@ + match t.duration {
            Some(d) => clock_of(d.secs as nat),
            None => "—"@,
        },
        Seq::empty(),
        if queued {
            "[↵] play now  ✓ already in queue"@
        } else {
            "[↵] play now  [a] add to queue"@
        },
        match error {
            Some(e) => "⚠ "@ + e@,
            None => Seq::empty(),
        },
    ]
}

fn prefixed(prefix: &str, s: &str) -> (r: String)
    ensures
        r@ == prefix@ + s@,
{
    let mut out = owned(prefix);
    push_str(&mut out, s);
    out
}

pub fn detail_text(t: &Track, queued: bool, error: &Option<String>) -> (r: Vec<String>)
    ensures
        r@.len() == 7,
        forall|i: int| 0 <= i < 7 ==> (#[trigger] r@[i])@ == detail_lines(*t, queued, *error)[i],
{
    let mut v: Vec<String> = Vec::new();
    v.push(prefixed("Title:    ", t.title.as_str()));
    v.push(prefixed("Artist:   ", t.artist.as_str()));
    match &t.album {
        Some(a) => v.push(prefixed("Album:    ", a.as_str())),
        None => v.push(prefixed("Album:    ", "—")),
    }
    match t.duration {
        Some(d) => {
            let mut out = owned("Duration: ");
            push_clock(&mut out, d.as_secs());
            v.push(out);
        },
        None => v.push(prefixed("Duration: ", "—")),
    }
    v.push(String::new());
    if queued {
        v.push(owned("[↵] play now  ✓ already in queue"));
    } else {
        v.push(owned("[↵] play now  [a] add to queue"));
    }
    match error {
        Some(e) => v.push(prefixed("⚠ ", e.as_str())),
        None => v.push(String::new()),
    }
    v
}

// ── the three-pane front end ────────────────────────────────────────────────

/// A row of the centre pane: `artist — title`, then `  [MM:SS]` when the
/// length is known.
pub open spec fn pane_result_row(t: Track) -> Seq<char> {
    byline(t.artist@, t.title@) + match t.duration {
        Some(d) => "  ["@ + clock_of(d.secs as nat) + seq![']'],
        None => Seq::empty(),
    }
}

pub fn pane_result_label(t: &Track) -> (r: String)
    ensures
        r@ == pane_result_row(*t),
{
    let mut out = String::new();
    push_byline(&mut out, &t.artist, &t.title);
    match t.duration {
        Some(d) => {
            push_str(&mut out, "  [");
            push_clock(&mut out, d.as_secs());
            push_char(&mut out, ']');
        },
        None => {},
    }
    assert(out@ =~= pane_result_row(*t));
    out
}

/// The title of the centre pane: ` Results: <query> `.
pub fn pane_results_title(query: &str) -> (r: String)
    ensures
        r@ == " Results: "@ + query@ + seq![' '],
{
    let mut out = owned(" Results: ");
    push_str(&mut out, query);
    push_char(&mut out, ' ');
    out
}

/// The second line of the now-playing pane: the artist, then ` · album`
/// when the album is known.
pub open spec fn pane_meta_line(t: Track) -> Seq<char> {
    match t.album {
        Some(a) => t.artist@ + " · "@ + a@,
        None => t.artist@,
    }
}

pub fn pane_meta_label(t: &Track) -> (r: String)
    ensures
        r@ == pane_meta_line(*t),
{
    match &t.album {
        Some(a) => {
            let mut out = t.artist.clone();
            push_str(&mut out, " · ");
            push_str(&mut out, a.as_str());
            out
        },
        None => t.artist.clone(),
    }
}

/// The status line of the now-playing pane: the status, then
/// `  [loop: on]` when looping one track.
pub open spec fn pane_status_line(s: AudioStatus, m: crate::messages::LoopMode) -> Seq<char> {
    (match s {
        AudioStatus::Playing => ">> Playing"@,
        AudioStatus::Paused => "|| Paused"@,
        AudioStatus::Loading => ".. Loading"@,
        AudioStatus::Idle => "   Idle"@,
    }) + match m {
        crate::messages::LoopMode::One => "  [loop: on]"@,
        crate::messages::LoopMode::Off => ""@,
    }
}

pub fn pane_status_label(s: AudioStatus, m: crate::messages::LoopMode) -> (r: String)
    ensures
        r@ == pane_status_line(s, m),
{
    let mut out = match s {
        AudioStatus::Playing => owned(">> Playing"),
        AudioStatus::Paused => owned("|| Paused"),
        AudioStatus::Loading => owned(".. Loading"),
        AudioStatus::Idle => owned("   Idle"),
    };
    match m {
        crate::messages::LoopMode::One => push_str(&mut out, "  [loop: on]"),
        crate::messages::LoopMode::Off => push_str(&mut out, ""),
    }
    out
}

} // verus!
