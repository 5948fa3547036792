//! The reducer: how the model changes on each message, which message follows
//! and which effects the surroundings must carry out.

use vstd::prelude::*;
use vstd::view::View as _;

use crate::models::{millis_span, same_id, Identified, TimeSpan, Track, TrackId};
use crate::msg::{effects_view, AudioReport, Effect, EffectView, Message, PlayOrigin};
use crate::playlist::PlaylistEntry;
use crate::state::{
    clone_path, AudioStatus, LoopMode, Model, ModelView, PlaybackState, PlayerFocus, SearchFocus,
    View,
};
use crate::text::{pop_char, push_char};

verus! {

/// The outcome of one step: the model after it, the message that follows
/// (`None` or `PlayNext`) and the effects in the order they must be done.
pub type Outcome = (ModelView, Message, Seq<EffectView>);

/// `n.saturating_sub(1)`.
pub open spec fn dec(n: int) -> int {
    if n <= 0 {
        0
    } else {
        n - 1
    }
}

pub open spec fn min(a: int, b: int) -> int {
    if a <= b {
        a
    } else {
        b
    }
}

/// `tracks` holds a track with id `id`.
pub open spec fn holds_id(tracks: Seq<Track>, id: TrackId) -> bool {
    exists|i: int| 0 <= i < tracks.len() && (#[trigger] tracks[i]).id.same(id)
}

/// `i` is the first position in `tracks` of a track with id `id`.
pub open spec fn is_first_index(tracks: Seq<Track>, id: TrackId, i: int) -> bool {
    &&& 0 <= i < tracks.len()
    &&& tracks[i].id.same(id)
    &&& forall|j: int| 0 <= j < i ==> !(#[trigger] tracks[j]).id.same(id)
}

/// The first position in `tracks` of a track with id `id`, if there is one.
pub open spec fn first_index(tracks: Seq<Track>, id: TrackId) -> Option<int> {
    if exists|i: int| is_first_index(tracks, id, i) {
        Some(choose|i: int| is_first_index(tracks, id, i))
    } else {
        None
    }
}

/// The position in the queue of the track that is playing, if any.
pub open spec fn current_position(queue: Seq<Track>, current: Option<Track>) -> Option<int> {
    match current {
        Some(t) => first_index(queue, t.id),
        None => None,
    }
}

/// The track that a library entry stands for.
pub open spec fn entry_track(e: PlaylistEntry) -> Track {
    Track {
        id: e.id,
        title: e.title,
        artist: e.artist,
        album: None,
        duration: match e.duration_ms {
            Some(ms) => Some(millis_span(ms)),
            None => None,
        },
        thumbnail: None,
    }
}

/// Nothing changes, nothing follows, nothing is done.
pub open spec fn unchanged(pre: ModelView) -> Outcome {
    (pre, Message::Nothing, Seq::empty())
}

/// Only the model changes.
pub open spec fn just(post: ModelView) -> Outcome {
    (post, Message::Nothing, Seq::empty())
}

/// `t` becomes the current track and is fetched: loading, pending, no error.
pub open spec fn start(pre: ModelView, t: Track) -> Outcome {
    (
        ModelView {
            playback: PlaybackState {
                status: AudioStatus::Loading,
                current: Some(t),
                pending_id: Some(t.id),
                error: None,
                ..pre.playback
            },
            ..pre
        },
        Message::Nothing,
        seq![EffectView::Download(t.id)],
    )
}

pub open spec fn with_playback(pre: ModelView, p: PlaybackState) -> ModelView {
    ModelView { playback: p, ..pre }
}

/// Advance at the end of a track: the next in the queue, or the first when
/// looping the playlist, or stop.
pub open spec fn step_play_next(pre: ModelView) -> Outcome {
    let q = pre.queue;
    let next = match current_position(q, pre.playback.current) {
        Some(i) => i + 1,
        None => 0,
    };
    if next < q.len() {
        start(pre, q[next])
    } else if pre.playback.loop_mode == LoopMode::Playlist && q.len() > 0 {
        start(pre, q[0])
    } else {
        just(
            with_playback(
                pre,
                PlaybackState { status: AudioStatus::Idle, current: None, ..pre.playback },
            ),
        )
    }
}

/// Skip forward through the queue, wrapping at the end.
pub open spec fn step_skip_next(pre: ModelView) -> Outcome {
    let q = pre.queue;
    if q.len() == 0 {
        unchanged(pre)
    } else {
        let i = match current_position(q, pre.playback.current) {
            Some(i) => (i + 1) % (q.len() as int),
            None => 0,
        };
        start(pre, q[i])
    }
}

/// Skip back through the queue, wrapping at the start.
pub open spec fn step_skip_prev(pre: ModelView) -> Outcome {
    let q = pre.queue;
    if q.len() == 0 {
        unchanged(pre)
    } else {
        let i = match current_position(q, pre.playback.current) {
            Some(i) => if i == 0 {
                q.len() - 1
            } else {
                i - 1
            },
            None => 0,
        };
        start(pre, q[i])
    }
}

pub open spec fn next_loop_mode(m: LoopMode) -> LoopMode {
    match m {
        LoopMode::Off => LoopMode::One,
        LoopMode::One => LoopMode::Playlist,
        LoopMode::Playlist => LoopMode::Off,
    }
}

pub open spec fn other_view(v: View) -> View {
    match v {
        View::Search => View::Player,
        View::Player => View::Search,
    }
}

/// Move the selection of the focused list up by one, stopping at the top.
pub open spec fn nav_up(pre: ModelView) -> ModelView {
    match pre.view {
        View::Search => ModelView { results_selected: dec(pre.results_selected as int) as usize, ..pre },
        View::Player => match pre.player_focus {
            PlayerFocus::Library => ModelView {
                library_selected: dec(pre.library_selected as int) as usize,
                ..pre
            },
            PlayerFocus::Queue => ModelView {
                queue_selected: dec(pre.queue_selected as int) as usize,
                ..pre
            },
        },
    }
}

/// Move the selection of the focused list down by one, stopping at the last
/// item.
pub open spec fn nav_down(pre: ModelView) -> ModelView {
    match pre.view {
        View::Search => if pre.results_selected < dec(pre.results.tracks.len() as int) {
            ModelView { results_selected: (pre.results_selected + 1) as usize, ..pre }
        } else {
            pre
        },
        View::Player => match pre.player_focus {
            PlayerFocus::Library => if pre.library_selected < dec(pre.library.len() as int) {
                ModelView { library_selected: (pre.library_selected + 1) as usize, ..pre }
            } else {
                pre
            },
            PlayerFocus::Queue => if pre.queue_selected < dec(pre.queue.len() as int) {
                ModelView { queue_selected: (pre.queue_selected + 1) as usize, ..pre }
            } else {
                pre
            },
        },
    }
}

/// The selection of the list that has the focus: the results in the search
/// view, else the library or the queue.
pub open spec fn focused_selection(m: ModelView) -> int {
    match m.view {
        View::Search => m.results_selected as int,
        View::Player => match m.player_focus {
            PlayerFocus::Library => m.library_selected as int,
            PlayerFocus::Queue => m.queue_selected as int,
        },
    }
}

/// The length of the list that has the focus.
pub open spec fn focused_len(m: ModelView) -> int {
    match m.view {
        View::Search => m.results.tracks.len() as int,
        View::Player => match m.player_focus {
            PlayerFocus::Library => m.library.len() as int,
            PlayerFocus::Queue => m.queue.len() as int,
        },
    }
}

/// Remove the selected track (the last one if the selection is past the
/// end) from the queue; the selection stays at that position, within the
/// shorter queue.
pub open spec fn step_remove_from_queue(pre: ModelView) -> Outcome {
    let q = pre.queue;
    if q.len() == 0 {
        unchanged(pre)
    } else {
        let idx = min(pre.queue_selected as int, q.len() - 1);
        let q2 = q.remove(idx);
        let sel = if q2.len() > 0 {
            min(idx, q2.len() - 1)
        } else {
            0
        };
        just(ModelView { queue: q2, queue_selected: sel as usize, ..pre })
    }
}

/// Enter: in the search view play the selected result; in the player view
/// queue the selected library entry and play it when nothing is playing.
pub open spec fn step_confirm(pre: ModelView) -> Outcome {
    match pre.view {
        View::Search => if pre.results_selected < pre.results.tracks.len() {
            start(pre, pre.results.tracks[pre.results_selected as int])
        } else {
            unchanged(pre)
        },
        View::Player => if pre.library_selected < pre.library.len() {
            let t = entry_track(pre.library[pre.library_selected as int]);
            let q2 = if holds_id(pre.queue, t.id) {
                pre.queue
            } else {
                pre.queue.push(t)
            };
            let m2 = ModelView { queue: q2, ..pre };
            if pre.playback.status == AudioStatus::Idle {
                start(m2, t)
            } else {
                just(m2)
            }
        } else {
            unchanged(pre)
        },
    }
}

/// The library after a reload: the new entries, the selection pulled back
/// onto the last entry if it is past the end of a non-empty library.
pub open spec fn with_library(pre: ModelView, entries: Seq<PlaylistEntry>) -> ModelView {
    let sel = if entries.len() > 0 && pre.library_selected >= entries.len() {
        (entries.len() - 1) as usize
    } else {
        pre.library_selected
    };
    ModelView { library: entries, library_selected: sel, ..pre }
}

/// `pending` names the track `id`.
pub open spec fn is_pending(pending: Option<TrackId>, id: TrackId) -> bool {
    match pending {
        Some(p) => p.same(id),
        None => false,
    }
}

/// The fetched audio of the pending track is on disk: remember its path,
/// record its metadata, reload the library and play it.
pub open spec fn step_download_ready(pre: ModelView, id: TrackId, path: std::path::PathBuf) -> Outcome {
    if is_pending(pre.playback.pending_id, id) {
        let post = with_playback(
            pre,
            PlaybackState { pending_id: None, current_path: Some(path), ..pre.playback },
        );
        let sidecar = match pre.playback.current {
            Some(t) => seq![EffectView::SaveSidecar(path, t)],
            None => Seq::empty(),
        };
        (
            post,
            Message::Nothing,
            sidecar + seq![EffectView::LoadLibrary, EffectView::Play(path, PlayOrigin::Download)],
        )
    } else {
        unchanged(pre)
    }
}

/// The pending track could not be fetched: back to idle with the error.
pub open spec fn step_download_failed(pre: ModelView, id: TrackId, err: String) -> Outcome {
    if is_pending(pre.playback.pending_id, id) {
        just(
            with_playback(
                pre,
                PlaybackState {
                    pending_id: None,
                    status: AudioStatus::Idle,
                    error: Some(err),
                    ..pre.playback
                },
            ),
        )
    } else {
        unchanged(pre)
    }
}

/// The audio output was polled: take its status and position; at the end of
/// a track restart it (looping one) or advance.
pub open spec fn step_audio_polled(pre: ModelView, r: AudioReport) -> Outcome {
    let post = with_playback(
        pre,
        PlaybackState { status: r.status, position: r.position, ..pre.playback },
    );
    if r.ended {
        match pre.playback.loop_mode {
            LoopMode::One => match pre.playback.current_path {
                Some(p) => (post, Message::Nothing, seq![EffectView::Play(p, PlayOrigin::LoopRestart)]),
                None => just(post),
            },
            _ => (post, Message::PlayNext, Seq::empty()),
        }
    } else {
        just(post)
    }
}

/// The audio output answered a request to play.
pub open spec fn step_playback_started(
    pre: ModelView,
    origin: PlayOrigin,
    result: Result<(), String>,
) -> Outcome {
    let p = pre.playback;
    let p2 = match (origin, result) {
        (PlayOrigin::LoopRestart, Ok(_)) => PlaybackState { status: AudioStatus::Playing, ..p },
        (PlayOrigin::LoopRestart, Err(e)) => PlaybackState { error: Some(e), ..p },
        (PlayOrigin::Download, Ok(_)) => PlaybackState {
            status: AudioStatus::Playing,
            error: None,
            ..p
        },
        (PlayOrigin::Download, Err(e)) => PlaybackState {
            status: AudioStatus::Idle,
            error: Some(e),
            ..p
        },
    };
    just(with_playback(pre, p2))
}

/// What one message does.
pub open spec fn step(pre: ModelView, msg: Message) -> Outcome {
    match msg {
        Message::Nothing => unchanged(pre),
        Message::Tick => (pre, Message::Nothing, seq![EffectView::PollAudio]),
        Message::PlayNext => step_play_next(pre),
        Message::SkipNext => step_skip_next(pre),
        Message::SkipPrev => step_skip_prev(pre),
        Message::Quit => just(ModelView { should_quit: true, ..pre }),
        Message::ToggleView => just(ModelView { view: other_view(pre.view), ..pre }),
        Message::TogglePause => (pre, Message::Nothing, seq![EffectView::TogglePause]),
        Message::ToggleLoop => just(
            with_playback(
                pre,
                PlaybackState { loop_mode: next_loop_mode(pre.playback.loop_mode), ..pre.playback },
            ),
        ),
        Message::NavUp => just(nav_up(pre)),
        Message::NavDown => just(nav_down(pre)),
        Message::FocusLeft => if pre.view == View::Player {
            just(ModelView { player_focus: PlayerFocus::Library, ..pre })
        } else {
            unchanged(pre)
        },
        Message::FocusRight => if pre.view == View::Player {
            just(ModelView { player_focus: PlayerFocus::Queue, ..pre })
        } else {
            unchanged(pre)
        },
        Message::DeleteFromLibrary => if pre.library_selected < pre.library.len() {
            (
                pre,
                Message::Nothing,
                seq![EffectView::DeleteTrack(pre.library[pre.library_selected as int].id), EffectView::LoadLibrary],
            )
        } else {
            unchanged(pre)
        },
        Message::RemoveFromQueue => step_remove_from_queue(pre),
        Message::Confirm => step_confirm(pre),
        Message::Back => match pre.view {
            View::Search => just(ModelView { search_focus: SearchFocus::Results, ..pre }),
            View::Player => unchanged(pre),
        },
        Message::EnterSearch => just(ModelView { search_focus: SearchFocus::Input, ..pre }),
        Message::SearchChar(c) => just(ModelView { query: pre.query.push(c), ..pre }),
        Message::SearchBackspace => if pre.query.len() > 0 {
            just(ModelView { query: pre.query.drop_last(), ..pre })
        } else {
            unchanged(pre)
        },
        Message::SubmitSearch => {
            let post = ModelView { search_focus: SearchFocus::Results, ..pre };
            if pre.query.len() > 0 {
                (post, Message::Nothing, seq![EffectView::Search(pre.query)])
            } else {
                just(post)
            }
        },
        Message::SearchDone(Ok(results)) => just(
            with_playback(
                ModelView { results: results@, results_selected: 0, ..pre },
                PlaybackState { error: None, ..pre.playback },
            ),
        ),
        Message::SearchDone(Err(e)) => just(
            with_playback(pre, PlaybackState { error: Some(e), ..pre.playback }),
        ),
        Message::AddToQueue => if pre.results_selected < pre.results.tracks.len() {
            let t = pre.results.tracks[pre.results_selected as int];
            if holds_id(pre.queue, t.id) {
                unchanged(pre)
            } else {
                just(ModelView { queue: pre.queue.push(t), ..pre })
            }
        } else {
            unchanged(pre)
        },
        Message::DownloadReady(id, path) => step_download_ready(pre, id, path),
        Message::DownloadFailed(id, err) => step_download_failed(pre, id, err),
        Message::AudioPolled(r) => step_audio_polled(pre, r),
        Message::PauseToggled(s) => just(
            with_playback(pre, PlaybackState { status: s, ..pre.playback }),
        ),
        Message::LibraryLoaded(entries) => just(with_library(pre, entries@)),
        Message::PlaybackStarted(origin, result) => step_playback_started(pre, origin, result),
    }
}

/// `Some(i)` as an integer position.
pub open spec fn as_position(r: Option<usize>) -> Option<int> {
    match r {
        Some(i) => Some(i as int),
        None => None,
    }
}

fn first_position(queue: &Vec<Track>, id: &TrackId) -> (r: Option<usize>)
    ensures
        as_position(r) == first_index(queue@, *id),
{
    let mut i: usize = 0;
    while i < queue.len()
        invariant
            i <= queue.len(),
            forall|j: int| 0 <= j < i ==> !(#[trigger] queue@[j]).id.same(*id),
        decreases queue.len() - i,
    {
        if same_id(&queue[i].id, id) {
            proof {
                assert(is_first_index(queue@, *id, i as int));
                let k = choose|k: int| is_first_index(queue@, *id, k);
                if k < i {
                    assert(!queue@[k].id.same(*id));
                }
                if k > i {
                    assert(!queue@[i as int].id.same(*id));
                }
            }
            return Some(i);
        }
        i = i + 1;
    }
    proof {
        if exists|k: int| is_first_index(queue@, *id, k) {
            let k = choose|k: int| is_first_index(queue@, *id, k);
            assert(!queue@[k].id.same(*id));
        }
    }
    None
}

fn current_pos(queue: &Vec<Track>, current: &Option<Track>) -> (r: Option<usize>)
    ensures
        as_position(r) == current_position(queue@, *current),
{
    match current {
        Some(t) => first_position(queue, &t.id),
        None => None,
    }
}

pub(crate) fn queue_holds(queue: &Vec<Track>, id: &TrackId) -> (r: bool)
    ensures
        r == holds_id(queue@, *id),
{
    let r = crate::models::holds_item(queue, id);
    assert(r == holds_id(queue@, *id)) by {
        if r {
            let i = choose|i: int| 0 <= i < queue@.len() && (#[trigger] queue@[i]).key().same(*id);
            assert(queue@[i].id.same(*id));
        }
    }
    r
}

fn no_effects() -> (r: Vec<Effect>)
    ensures
        effects_view(r@) == Seq::<EffectView>::empty(),
{
    let v: Vec<Effect> = Vec::new();
    assert(effects_view(v@) =~= Seq::<EffectView>::empty());
    v
}

fn one_effect(e: Effect) -> (r: Vec<Effect>)
    ensures
        effects_view(r@) == seq![e@],
{
    let mut v: Vec<Effect> = Vec::new();
    v.push(e);
    assert(effects_view(v@) =~= seq![e@]);
    v
}

fn push_effect(v: &mut Vec<Effect>, e: Effect)
    ensures
        effects_view(final(v)@) == effects_view(old(v)@).push(e@),
{
    v.push(e);
    assert(effects_view(final(v)@) =~= effects_view(old(v)@).push(e@));
}

/// Makes `track` the current one and asks for its audio.
fn start_playing(model: &mut Model, track: Track) -> (r: (Message, Vec<Effect>))
    ensures
        ({
            let o = start(old(model)@, track);
            final(model)@ == o.0 && r.0 == o.1 && effects_view(r.1@) == o.2
        }),
{
    let id = track.id.copy();
    model.playback.status = AudioStatus::Loading;
    model.playback.pending_id = Some(track.id.copy());
    model.playback.current = Some(track);
    model.playback.error = None;
    (Message::Nothing, one_effect(Effect::Download(id)))
}

fn nav_prev(model: &mut Model)
    ensures
        final(model)@ == nav_up(old(model)@),
{
    match model.view {
        View::Search => {
            model.results_selected = if model.results_selected == 0 {
                0
            } else {
                model.results_selected - 1
            };
        },
        View::Player => match model.player_focus {
            PlayerFocus::Library => {
                model.library_selected = if model.library_selected == 0 {
                    0
                } else {
                    model.library_selected - 1
                };
            },
            PlayerFocus::Queue => {
                model.queue_selected = if model.queue_selected == 0 {
                    0
                } else {
                    model.queue_selected - 1
                };
            },
        },
    }
}

fn last_index(len: usize) -> (r: usize)
    ensures
        r == dec(len as int),
{
    if len == 0 {
        0
    } else {
        len - 1
    }
}

/// Moves the selection of the focused list down by one, stopping at the
/// last item; the selection never ends past the last item (or past 0 on an
/// empty list) when it did not start there, and the other selections stay.
pub fn nav_next(model: &mut Model)
    ensures
        final(model)@ == nav_down(old(model)@),
        focused_selection(old(model)@) <= focused_selection(final(model)@)
            <= focused_selection(old(model)@) + 1,
        focused_selection(old(model)@) <= dec(focused_len(old(model)@)) ==> focused_selection(
            final(model)@,
        ) <= dec(focused_len(final(model)@)),
        final(model).view == old(model).view,
        final(model).player_focus == old(model).player_focus,
        old(model).view != View::Search ==> final(model).results_selected
            == old(model).results_selected,
        !(old(model).view == View::Player && old(model).player_focus == PlayerFocus::Library)
            ==> final(model).library_selected == old(model).library_selected,
        !(old(model).view == View::Player && old(model).player_focus == PlayerFocus::Queue)
            ==> final(model).queue_selected == old(model).queue_selected,
{
    match model.view {
        View::Search => {
            if model.results_selected < last_index(model.results.tracks.len()) {
                model.results_selected = model.results_selected + 1;
            }
        },
        View::Player => match model.player_focus {
            PlayerFocus::Library => {
                if model.library_selected < last_index(model.library.len()) {
                    model.library_selected = model.library_selected + 1;
                }
            },
            PlayerFocus::Queue => {
                if model.queue_selected < last_index(model.queue.len()) {
                    model.queue_selected = model.queue_selected + 1;
                }
            },
        },
    }
}

fn play_next(model: &mut Model) -> (r: (Message, Vec<Effect>))
    ensures
        ({
            let o = step_play_next(old(model)@);
            final(model)@ == o.0 && r.0 == o.1 && effects_view(r.1@) == o.2
        }),
{
    let next = match current_pos(&model.queue, &model.playback.current) {
        Some(i) => if i < model.queue.len() {
            i + 1
        } else {
            model.queue.len() + 1
        },
        None => 0,
    };
    proof {
        match current_position(model.queue@, model.playback.current) {
            Some(i) => {
                let t = model.playback.current.unwrap();
                assert(is_first_index(model.queue@, t.id, i));
            },
            None => {},
        }
    }
    if next < model.queue.len() {
        let track = model.queue[next].copy();
        start_playing(model, track)
    } else if model.playback.loop_mode == LoopMode::Playlist && model.queue.len() > 0 {
        let track = model.queue[0].copy();
        start_playing(model, track)
    } else {
        model.playback.status = AudioStatus::Idle;
        model.playback.current = None;
        (Message::Nothing, no_effects())
    }
}

fn skip_next(model: &mut Model) -> (r: (Message, Vec<Effect>))
    ensures
        ({
            let o = step_skip_next(old(model)@);
            final(model)@ == o.0 && r.0 == o.1 && effects_view(r.1@) == o.2
        }),
{
    if model.queue.len() == 0 {
        return (Message::Nothing, no_effects());
    }
    let pos = current_pos(&model.queue, &model.playback.current);
    proof {
        match current_position(model.queue@, model.playback.current) {
            Some(i) => {
                let t = model.playback.current.unwrap();
                assert(is_first_index(model.queue@, t.id, i));
            },
            None => {},
        }
    }
    let idx = match pos {
        Some(i) => (i + 1) % model.queue.len(),
        None => 0,
    };
    let track = model.queue[idx].copy();
    start_playing(model, track)
}

fn skip_prev(model: &mut Model) -> (r: (Message, Vec<Effect>))
    ensures
        ({
            let o = step_skip_prev(old(model)@);
            final(model)@ == o.0 && r.0 == o.1 && effects_view(r.1@) == o.2
        }),
{
    if model.queue.len() == 0 {
        return (Message::Nothing, no_effects());
    }
    let pos = current_pos(&model.queue, &model.playback.current);
    proof {
        match current_position(model.queue@, model.playback.current) {
            Some(i) => {
                let t = model.playback.current.unwrap();
                assert(is_first_index(model.queue@, t.id, i));
            },
            None => {},
        }
    }
    let idx = match pos {
        Some(i) => if i == 0 {
            model.queue.len() - 1
        } else {
            i - 1
        },
        None => 0,
    };
    let track = model.queue[idx].copy();
    start_playing(model, track)
}

fn remove_from_queue(model: &mut Model)
    ensures
        final(model)@ == step_remove_from_queue(old(model)@).0,
{
    if model.queue.len() > 0 {
        let last = model.queue.len() - 1;
        let idx = if model.queue_selected < last {
            model.queue_selected
        } else {
            last
        };
        let _ = model.queue.remove(idx);
        if model.queue.len() > 0 {
            let last2 = model.queue.len() - 1;
            model.queue_selected = if idx < last2 {
                idx
            } else {
                last2
            };
        } else {
            model.queue_selected = 0;
        }
    }
}

fn handle_confirm(model: &mut Model) -> (r: (Message, Vec<Effect>))
    ensures
        ({
            let o = step_confirm(old(model)@);
            final(model)@ == o.0 && r.0 == o.1 && effects_view(r.1@) == o.2
        }),
{
    match model.view {
        View::Search => {
            if model.results_selected < model.results.tracks.len() {
                let track = model.results.tracks[model.results_selected].copy();
                start_playing(model, track)
            } else {
                (Message::Nothing, no_effects())
            }
        },
        View::Player => {
            if model.library_selected >= model.library.len() {
                return (Message::Nothing, no_effects());
            }
            let e = model.library[model.library_selected].copy();
            let track = Track {
                id: e.id,
                title: e.title,
                artist: e.artist,
                album: None,
                duration: match e.duration_ms {
                    Some(ms) => Some(TimeSpan::from_millis(ms)),
                    None => None,
                },
                thumbnail: None,
            };
            if !queue_holds(&model.queue, &track.id) {
                model.queue.push(track.copy());
            }
            if model.playback.status == AudioStatus::Idle {
                start_playing(model, track)
            } else {
                (Message::Nothing, no_effects())
            }
        },
    }
}

fn load_library(model: &mut Model, entries: Vec<PlaylistEntry>)
    ensures
        final(model)@ == with_library(old(model)@, entries@),
{
    model.library = entries;
    if model.library.len() > 0 && model.library_selected >= model.library.len() {
        model.library_selected = model.library.len() - 1;
    }
}

fn download_ready(model: &mut Model, id: TrackId, path: std::path::PathBuf) -> (r: (
    Message,
    Vec<Effect>,
))
    ensures
        ({
            let o = step_download_ready(old(model)@, id, path);
            final(model)@ == o.0 && r.0 == o.1 && effects_view(r.1@) == o.2
        }),
{
    let pending = match &model.playback.pending_id {
        Some(p) => same_id(p, &id),
        None => false,
    };
    if !pending {
        return (Message::Nothing, no_effects());
    }
    model.playback.pending_id = None;
    model.playback.current_path = Some(clone_path(&path));
    let mut effects = no_effects();
    match &model.playback.current {
        Some(t) => push_effect(&mut effects, Effect::SaveSidecar(clone_path(&path), t.copy())),
        None => {},
    }
    push_effect(&mut effects, Effect::LoadLibrary);
    push_effect(&mut effects, Effect::Play(path, PlayOrigin::Download));
    proof {
        let o = step_download_ready(old(model)@, id, path);
        assert(effects_view(effects@) =~= o.2);
    }
    (Message::Nothing, effects)
}

fn download_failed(model: &mut Model, id: TrackId, err: String)
    ensures
        final(model)@ == step_download_failed(old(model)@, id, err).0,
{
    let pending = match &model.playback.pending_id {
        Some(p) => same_id(p, &id),
        None => false,
    };
    if pending {
        model.playback.pending_id = None;
        model.playback.status = AudioStatus::Idle;
        model.playback.error = Some(err);
    }
}

fn audio_polled(model: &mut Model, report: AudioReport) -> (r: (Message, Vec<Effect>))
    ensures
        ({
            let o = step_audio_polled(old(model)@, report);
            final(model)@ == o.0 && r.0 == o.1 && effects_view(r.1@) == o.2
        }),
{
    model.playback.status = report.status;
    model.playback.position = report.position;
    if report.ended {
        match model.playback.loop_mode {
            LoopMode::One => match &model.playback.current_path {
                Some(p) => {
                    let p2 = clone_path(p);
                    (Message::Nothing, one_effect(Effect::Play(p2, PlayOrigin::LoopRestart)))
                },
                None => (Message::Nothing, no_effects()),
            },
            _ => (Message::PlayNext, no_effects()),
        }
    } else {
        (Message::Nothing, no_effects())
    }
}

fn playback_started(model: &mut Model, origin: PlayOrigin, result: Result<(), String>)
    ensures
        final(model)@ == step_playback_started(old(model)@, origin, result).0,
{
    match (origin, result) {
        (PlayOrigin::LoopRestart, Ok(_)) => {
            model.playback.status = AudioStatus::Playing;
        },
        (PlayOrigin::LoopRestart, Err(e)) => {
            model.playback.error = Some(e);
        },
        (PlayOrigin::Download, Ok(_)) => {
            model.playback.status = AudioStatus::Playing;
            model.playback.error = None;
        },
        (PlayOrigin::Download, Err(e)) => {
            model.playback.status = AudioStatus::Idle;
            model.playback.error = Some(e);
        },
    }
}

fn add_to_queue(model: &mut Model)
    ensures
        final(model)@ == step(old(model)@, Message::AddToQueue).0,
{
    if model.results_selected < model.results.tracks.len() {
        let track = model.results.tracks[model.results_selected].copy();
        if !queue_holds(&model.queue, &track.id) {
            model.queue.push(track);
        }
    }
}

/// Applies one message to the model. Returns the message that follows
/// (`PlayNext` when a track ended and the queue should advance, `Nothing`
/// otherwise) and the effects to carry out, in order. Each effect with an
/// outcome is answered by a message (see `Effect`).
pub fn update(model: &mut Model, msg: Message) -> (r: (Message, Vec<Effect>))
    ensures
        ({
            let o = step(old(model)@, msg);
            final(model)@ == o.0 && r.0 == o.1 && effects_view(r.1@) == o.2
        }),
{
    match msg {
        Message::Nothing => (Message::Nothing, no_effects()),
        Message::Tick => (Message::Nothing, one_effect(Effect::PollAudio)),
        Message::PlayNext => play_next(model),
        Message::SkipNext => skip_next(model),
        Message::SkipPrev => skip_prev(model),
        Message::Quit => {
            model.should_quit = true;
            (Message::Nothing, no_effects())
        },
        Message::ToggleView => {
            model.view = match model.view {
                View::Search => View::Player,
                View::Player => View::Search,
            };
            (Message::Nothing, no_effects())
        },
        Message::TogglePause => (Message::Nothing, one_effect(Effect::TogglePause)),
        Message::ToggleLoop => {
            model.playback.loop_mode = match model.playback.loop_mode {
                LoopMode::Off => LoopMode::One,
                LoopMode::One => LoopMode::Playlist,
                LoopMode::Playlist => LoopMode::Off,
            };
            (Message::Nothing, no_effects())
        },
        Message::NavUp => {
            nav_prev(model);
            (Message::Nothing, no_effects())
        },
        Message::NavDown => {
            nav_next(model);
            (Message::Nothing, no_effects())
        },
        Message::FocusLeft => {
            if model.view == View::Player {
                model.player_focus = PlayerFocus::Library;
            }
            (Message::Nothing, no_effects())
        },
        Message::FocusRight => {
            if model.view == View::Player {
                model.player_focus = PlayerFocus::Queue;
            }
            (Message::Nothing, no_effects())
        },
        Message::DeleteFromLibrary => {
            if model.library_selected < model.library.len() {
                let id = model.library[model.library_selected].id.copy();
                let mut effects = one_effect(Effect::DeleteTrack(id));
                push_effect(&mut effects, Effect::LoadLibrary);
                (Message::Nothing, effects)
            } else {
                (Message::Nothing, no_effects())
            }
        },
        Message::RemoveFromQueue => {
            remove_from_queue(model);
            (Message::Nothing, no_effects())
        },
        Message::Confirm => handle_confirm(model),
        Message::Back => {
            match model.view {
                View::Search => {
                    model.search_focus = SearchFocus::Results;
                },
                View::Player => {},
            }
            (Message::Nothing, no_effects())
        },
        Message::EnterSearch => {
            model.search_focus = SearchFocus::Input;
            (Message::Nothing, no_effects())
        },
        Message::SearchChar(c) => {
            push_char(&mut model.query, c);
            (Message::Nothing, no_effects())
        },
        Message::SearchBackspace => {
            let _ = pop_char(&mut model.query);
            (Message::Nothing, no_effects())
        },
        Message::SubmitSearch => {
            model.search_focus = SearchFocus::Results;
            if model.query.as_str().unicode_len() > 0 {
                let q = model.query.clone();
                (Message::Nothing, one_effect(Effect::Search(q)))
            } else {
                (Message::Nothing, no_effects())
            }
        },
        Message::SearchDone(Ok(results)) => {
            model.results = results;
            model.results_selected = 0;
            model.playback.error = None;
            (Message::Nothing, no_effects())
        },
        Message::SearchDone(Err(e)) => {
            model.playback.error = Some(e);
            (Message::Nothing, no_effects())
        },
        Message::AddToQueue => {
            add_to_queue(model);
            (Message::Nothing, no_effects())
        },
        Message::DownloadReady(id, path) => download_ready(model, id, path),
        Message::DownloadFailed(id, err) => {
            download_failed(model, id, err);
            (Message::Nothing, no_effects())
        },
        Message::AudioPolled(report) => audio_polled(model, report),
        Message::PauseToggled(status) => {
            model.playback.status = status;
            (Message::Nothing, no_effects())
        },
        Message::LibraryLoaded(entries) => {
            load_library(model, entries);
            (Message::Nothing, no_effects())
        },
        Message::PlaybackStarted(origin, result) => {
            playback_started(model, origin, result);
            (Message::Nothing, no_effects())
        },
    }
}

} // verus!
