//! Properties of the reducer that hold across messages and across steps.

use vstd::prelude::*;
use vstd::view::View as _;

use crate::models::{Track, TrackId};
use crate::msg::{AudioReport, EffectView, Message, PlayOrigin};
use crate::state::{AudioStatus, LoopMode, ModelView, PlayerFocus, View};
use crate::update::{
    current_position, dec, entry_track, focused_len, focused_selection, holds_id, is_first_index, is_pending, min, step,
    step_confirm, unchanged,
};

verus! {

/// The model is consistent: each selection lies on its list (or is 0 for an
/// empty results list or queue; the library selection is only constrained
/// while the library is not empty), and no track stands twice in the queue.
pub open spec fn wf(m: ModelView) -> bool {
    &&& m.results_selected <= dec(m.results.tracks.len() as int)
    &&& m.queue_selected <= dec(m.queue.len() as int)
    &&& m.library.len() > 0 ==> m.library_selected < m.library.len()
    &&& distinct_ids(m.queue)
}

/// The lists of the model are no longer than a vector can be.
pub open spec fn fits(m: ModelView) -> bool {
    &&& m.results.tracks.len() <= usize::MAX
    &&& m.library.len() <= usize::MAX
    &&& m.queue.len() <= usize::MAX
}

/// No two tracks of `q` have the same id.
pub open spec fn distinct_ids(q: Seq<Track>) -> bool {
    forall|i: int, j: int|
        0 <= i < q.len() && 0 <= j < q.len() && i != j ==> !(#[trigger] q[i]).id.same(
            #[trigger] q[j].id,
        )
}

proof fn lemma_push_distinct(q: Seq<Track>, t: Track)
    requires
        distinct_ids(q),
        !holds_id(q, t.id),
    ensures
        distinct_ids(q.push(t)),
{
    let q2 = q.push(t);
    assert forall|i: int, j: int|
        0 <= i < q2.len() && 0 <= j < q2.len() && i != j implies !(#[trigger] q2[i]).id.same(
        #[trigger] q2[j].id,
    ) by {
        if i == q.len() {
            assert(q2[j] == q[j]);
            assert(!q[j].id.same(t.id));
        } else if j == q.len() {
            assert(q2[i] == q[i]);
            assert(!q[i].id.same(t.id));
        } else {
            assert(q2[i] == q[i] && q2[j] == q[j]);
        }
    }
}

proof fn lemma_remove_distinct(q: Seq<Track>, k: int)
    requires
        distinct_ids(q),
        0 <= k < q.len(),
    ensures
        distinct_ids(q.remove(k)),
{
    let q2 = q.remove(k);
    assert forall|i: int, j: int|
        0 <= i < q2.len() && 0 <= j < q2.len() && i != j implies !(#[trigger] q2[i]).id.same(
        #[trigger] q2[j].id,
    ) by {
        let a = if i < k { i } else { i + 1 };
        let b = if j < k { j } else { j + 1 };
        assert(q2[i] == q[a]);
        assert(q2[j] == q[b]);
    }
}

proof fn lemma_confirm_wf(pre: ModelView)
    requires
        wf(pre),
    ensures
        wf(step_confirm(pre).0),
{
    if pre.view == View::Player && pre.library_selected < pre.library.len() {
        let t = entry_track(pre.library[pre.library_selected as int]);
        if !holds_id(pre.queue, t.id) {
            lemma_push_distinct(pre.queue, t);
        }
    }
}

/// Every message keeps the model consistent.
#[verifier::rlimit(60)]
pub proof fn law_update_keeps_wf(pre: ModelView, msg: Message)
    requires
        wf(pre),
    ensures
        wf(step(pre, msg).0),
{
    match msg {
        Message::Confirm => lemma_confirm_wf(pre),
        Message::RemoveFromQueue => {
            if pre.queue.len() > 0 {
                let idx = min(pre.queue_selected as int, pre.queue.len() - 1);
                lemma_remove_distinct(pre.queue, idx);
            }
        },
        Message::AddToQueue => {
            if pre.results_selected < pre.results.tracks.len() {
                let t = pre.results.tracks[pre.results_selected as int];
                if !holds_id(pre.queue, t.id) {
                    lemma_push_distinct(pre.queue, t);
                }
            }
        },
        _ => {},
    }
}

/// Three presses of the loop key give back the model as it was
/// (Off, One, Playlist, Off).
pub proof fn law_loop_mode_cycles(m: ModelView)
    ensures
        step(step(step(m, Message::ToggleLoop).0, Message::ToggleLoop).0, Message::ToggleLoop).0
            == m,
{
}

/// Switching the view twice gives back the model as it was.
pub proof fn law_toggle_view_twice(m: ModelView)
    ensures
        step(step(m, Message::ToggleView).0, Message::ToggleView).0 == m,
{
}

/// Adding the selected result to the queue a second time changes nothing.
pub proof fn law_add_to_queue_idempotent(m: ModelView)
    ensures
        step(step(m, Message::AddToQueue).0, Message::AddToQueue).0 == step(
            m,
            Message::AddToQueue,
        ).0,
{
    if m.results_selected < m.results.tracks.len() {
        let t = m.results.tracks[m.results_selected as int];
        if !holds_id(m.queue, t.id) {
            let q2 = m.queue.push(t);
            assert(q2[m.queue.len() as int] == t);
            assert(holds_id(q2, t.id));
        }
    }
}

/// Typing a character and erasing it gives back the model as it was.
pub proof fn law_backspace_undoes_char(m: ModelView, c: char)
    ensures
        step(step(m, Message::SearchChar(c)).0, Message::SearchBackspace).0 == m,
{
    assert(m.query.push(c).drop_last() =~= m.query);
}

/// Moving down and back up gives back the model, unless the selection was
/// already on the last item of the focused list.
pub proof fn law_nav_down_then_up(m: ModelView)
    requires
        fits(m),
        match m.view {
            View::Search => m.results_selected < dec(m.results.tracks.len() as int),
            View::Player => match m.player_focus {
                PlayerFocus::Library => m.library_selected < dec(m.library.len() as int),
                PlayerFocus::Queue => m.queue_selected < dec(m.queue.len() as int),
            },
        },
    ensures
        step(step(m, Message::NavDown).0, Message::NavUp).0 == m,
{
}

/// Moving down never takes the focused selection past the last item (or
/// past 0 on an empty list), moves it by at most one, and leaves the lists,
/// the view, the focus and the other selections as they were.
pub proof fn law_nav_down_bounded(m: ModelView)
    requires
        fits(m),
        focused_selection(m) <= dec(focused_len(m)),
    ensures
        ({
            let n = step(m, Message::NavDown).0;
            &&& n.view == m.view
            &&& n.player_focus == m.player_focus
            &&& focused_len(n) == focused_len(m)
            &&& focused_selection(m) <= focused_selection(n) <= focused_selection(m) + 1
            &&& focused_selection(n) <= dec(focused_len(n))
            &&& n == (ModelView {
                results_selected: n.results_selected,
                library_selected: n.library_selected,
                queue_selected: n.queue_selected,
                ..m
            })
            &&& m.view != View::Search ==> n.results_selected == m.results_selected
            &&& !(m.view == View::Player && m.player_focus == PlayerFocus::Library)
                ==> n.library_selected == m.library_selected
            &&& !(m.view == View::Player && m.player_focus == PlayerFocus::Queue)
                ==> n.queue_selected == m.queue_selected
        }),
{
}

/// A download result for a track that is not the one awaited (stale, or
/// superseded by a later choice) changes nothing and asks for nothing.
pub proof fn law_stale_download_ignored(m: ModelView, id: TrackId, path: std::path::PathBuf, err: String)
    requires
        !is_pending(m.playback.pending_id, id),
    ensures
        step(m, Message::DownloadReady(id, path)) == unchanged(m),
        step(m, Message::DownloadFailed(id, err)) == unchanged(m),
{
}

/// Skipping forward from the last track of the queue starts the first one;
/// skipping back from the first starts the last.
pub proof fn law_skip_wraps(m: ModelView)
    requires
        m.queue.len() > 0,
    ensures
        current_position(m.queue, m.playback.current) == Some(m.queue.len() - 1) ==> step(
            m,
            Message::SkipNext,
        ).0.playback.current == Some(m.queue[0]),
        current_position(m.queue, m.playback.current) == Some(0int) ==> step(
            m,
            Message::SkipPrev,
        ).0.playback.current == Some(m.queue[m.queue.len() - 1]),
{
    let n = m.queue.len() as int;
    assert((n - 1 + 1) % n == 0) by (nonlinear_arith)
        requires
            n > 0,
    ;
}

/// In a queue without repeated tracks, skipping forward and then back
/// returns to the track that was playing.
pub proof fn law_skip_next_then_prev(m: ModelView, i: int)
    requires
        distinct_ids(m.queue),
        current_position(m.queue, m.playback.current) == Some(i),
    ensures
        step(step(m, Message::SkipNext).0, Message::SkipPrev).0.playback.current == Some(
            m.queue[i],
        ),
{
    let q = m.queue;
    let n = q.len() as int;
    let t = m.playback.current.unwrap();
    assert(is_first_index(q, t.id, i));
    let k = (i + 1) % n;
    assert(0 <= k < n && (k == 0 <==> i == n - 1) && (k != 0 ==> k == i + 1)) by (nonlinear_arith)
        requires
            0 <= i < n,
            k == (i + 1) % n,
    ;
    let m2 = step(m, Message::SkipNext).0;
    assert(m2.queue == q);
    assert(m2.playback.current == Some(q[k]));
    // q[k] stands first at k, since ids are distinct
    assert(is_first_index(q, q[k].id, k)) by {
        assert forall|j: int| 0 <= j < k implies !(#[trigger] q[j]).id.same(q[k].id) by {}
    }
    let c = choose|c: int| is_first_index(q, q[k].id, c);
    assert(c == k) by {
        if c < k {
            assert(q[c].id.same(q[k].id));
        } else if c > k {
            assert(!q[k].id.same(q[k].id));
        }
    }
}

/// A message is followed by nothing or by `PlayNext`, and `PlayNext` is
/// followed by nothing: handling a message and its follow-ups takes at most
/// two steps.
pub proof fn law_followups_end(m: ModelView, msg: Message)
    ensures
        step(m, msg).1 == Message::Nothing || step(m, msg).1 == Message::PlayNext,
        step(m, Message::PlayNext).1 == Message::Nothing,
{
}

/// The fresh model is consistent.
pub proof fn law_initial_model_wf()
    ensures
        wf(crate::state::initial_model()),
{
}

/// When the track ends, looping off or looping the playlist moves on to the
/// next track (the follow-up `PlayNext`, nothing else asked for); only
/// looping one restarts the file that was playing. A poll in which nothing
/// ended moves nothing on. Whatever happens, a restart is asked for only
/// when looping one.
pub proof fn law_track_end_advances(pre: ModelView, r: AudioReport)
    ensures
        ({
            let o = step(pre, Message::AudioPolled(r));
            &&& r.ended && pre.playback.loop_mode != LoopMode::One ==> o.1 == Message::PlayNext
                && o.2.len() == 0
            &&& r.ended && pre.playback.loop_mode == LoopMode::One
                && pre.playback.current_path is Some ==> o.1 == Message::Nothing && o.2 == seq![
                EffectView::Play(pre.playback.current_path.unwrap(), PlayOrigin::LoopRestart),
            ]
            &&& !r.ended ==> o.1 == Message::Nothing && o.2.len() == 0
            &&& forall|i: int|
                0 <= i < o.2.len() && (#[trigger] o.2[i]) is Play ==> pre.playback.loop_mode
                    == LoopMode::One
            &&& o.0.playback.status == r.status && o.0.playback.position == r.position
            &&& o.0.queue == pre.queue
        }),
{
}

/// Enter on a library entry in the player view queues a track with that
/// entry's id, title, artist and length (unless the queue holds the track
/// already), and starts it when nothing is playing.
pub proof fn law_confirm_library_entry(pre: ModelView)
    requires
        pre.view == View::Player,
        pre.library_selected < pre.library.len(),
    ensures
        ({
            let e = pre.library[pre.library_selected as int];
            let o = step(pre, Message::Confirm);
            &&& !holds_id(pre.queue, e.id) ==> {
                &&& o.0.queue.len() == pre.queue.len() + 1
                &&& o.0.queue.drop_last() == pre.queue
                &&& o.0.queue.last().id == e.id
                &&& o.0.queue.last().title == e.title
                &&& o.0.queue.last().artist == e.artist
                &&& o.0.queue.last().album is None
                &&& (o.0.queue.last().duration is Some <==> e.duration_ms is Some)
            }
            &&& holds_id(pre.queue, e.id) ==> o.0.queue == pre.queue
            &&& pre.playback.status == AudioStatus::Idle ==> {
                &&& o.0.playback.current is Some
                &&& o.0.playback.current.unwrap().id == e.id
                &&& o.0.playback.current.unwrap().title == e.title
                &&& o.0.playback.current.unwrap().artist == e.artist
                &&& o.0.playback.pending_id == Some(e.id)
                &&& o.2 == seq![EffectView::Download(e.id)]
            }
            &&& pre.playback.status != AudioStatus::Idle ==> o.0.playback == pre.playback
                && o.2.len() == 0
        }),
{
    let e = pre.library[pre.library_selected as int];
    let t = entry_track(e);
    if !holds_id(pre.queue, t.id) {
        assert(pre.queue.push(t).drop_last() =~= pre.queue);
    }
}

} // verus!
