//! The downloads library: one `<id>.json` metadata file beside each
//! downloaded audio file. This module decides which recorded tracks make up
//! the library and in what order, and which files belong to a track.

use vstd::prelude::*;
use vstd::view::View as _;

use crate::models::{TimeSpan, Track, TrackId};
use crate::playlist::PlaylistEntry;
use crate::text::{chars_of, push_str};

use crate::order::{
    is_stable_sort, is_weak_order, lemma_stable_sort_exists, lemma_stable_sort_unique,
    stable_sort, stable_sort_positions, stably_before,
};

verus! {

broadcast use vstd::string::group_string_axioms;

/// A metadata file found in the music directory: the track it records and
/// whether an audio file (`.mp3`, `.m4a`, `.webm` or `.opus`) of the same
/// name lies beside it.
#[derive(Debug)]
pub struct Sidecar {
    pub track: Track,
    pub has_audio: bool,
}

/// `a` comes before `b` in lexicographic order of their characters (which
/// is the order of `String`'s `cmp`, UTF-8 keeping the order of code points).
pub open spec fn text_less(a: Seq<char>, b: Seq<char>) -> bool
    decreases a.len(),
{
    if a.len() == 0 {
        b.len() > 0
    } else if b.len() == 0 {
        false
    } else if a[0] != b[0] {
        a[0] < b[0]
    } else {
        text_less(a.drop_first(), b.drop_first())
    }
}

proof fn lemma_text_less_trans(a: Seq<char>, b: Seq<char>, c: Seq<char>)
    requires
        text_less(a, b),
        text_less(b, c),
    ensures
        text_less(a, c),
    decreases a.len(),
{
    if a.len() > 0 && b.len() > 0 && c.len() > 0 && a[0] == b[0] && b[0] == c[0] {
        lemma_text_less_trans(a.drop_first(), b.drop_first(), c.drop_first());
    }
}

proof fn lemma_text_less_total(a: Seq<char>, b: Seq<char>)
    ensures
        text_less(a, b) || text_less(b, a) || a == b,
    decreases a.len(),
{
    if a.len() > 0 && b.len() > 0 && a[0] == b[0] {
        lemma_text_less_total(a.drop_first(), b.drop_first());
        if a.drop_first() == b.drop_first() {
            assert(a =~= seq![a[0]] + a.drop_first());
            assert(b =~= seq![b[0]] + b.drop_first());
        }
    } else if a.len() == 0 && b.len() == 0 {
        assert(a =~= b);
    }
}

proof fn lemma_text_less_irrefl(a: Seq<char>)
    ensures
        !text_less(a, a),
    decreases a.len(),
{
    if a.len() > 0 {
        lemma_text_less_irrefl(a.drop_first());
    }
}

/// `text_less` computed.
fn less_text(a: &Vec<char>, b: &Vec<char>) -> (r: bool)
    ensures
        r == text_less(a@, b@),
{
    let mut i: usize = 0;
    assert(a@.skip(0) =~= a@ && b@.skip(0) =~= b@);
    while i < a.len() && i < b.len() && a[i] == b[i]
        invariant
            i <= a@.len() && i <= b@.len(),
            text_less(a@, b@) == text_less(a@.skip(i as int), b@.skip(i as int)),
        decreases a@.len() - i,
    {
        proof {
            let sa = a@.skip(i as int);
            let sb = b@.skip(i as int);
            assert(sa.drop_first() =~= a@.skip(i + 1));
            assert(sb.drop_first() =~= b@.skip(i + 1));
        }
        i = i + 1;
    }
    proof {
        assert(a@.skip(i as int).len() == a@.len() - i);
    }
    if i == a.len() {
        i < b.len()
    } else if i == b.len() {
        false
    } else {
        a[i] < b[i]
    }
}

/// The order of the library: by artist, then by title.
pub open spec fn entry_less(x: PlaylistEntry, y: PlaylistEntry) -> bool {
    text_less(x.artist@, y.artist@) || (x.artist@ == y.artist@ && text_less(x.title@, y.title@))
}

/// Entry `a` of `es` goes before entry `b`: it is smaller, or they tie and
/// `a` came first.
pub open spec fn sorts_before(es: Seq<PlaylistEntry>, a: int, b: int) -> bool {
    entry_less(es[a], es[b]) || (!entry_less(es[b], es[a]) && a < b)
}

/// `p` lists every index of `es` once, in a stable ascending sort by artist
/// and title.
pub open spec fn is_sorted_order(es: Seq<PlaylistEntry>, p: Seq<int>) -> bool {
    &&& p.len() == es.len()
    &&& forall|k: int| 0 <= k < p.len() ==> 0 <= #[trigger] p[k] < es.len()
    &&& forall|j: int| 0 <= j < es.len() ==> #[trigger] p.contains(j)
    &&& forall|k: int, l: int|
        0 <= k < l < p.len() ==> sorts_before(es, #[trigger] p[k], #[trigger] p[l])
}

/// The stable sort of `es` by artist and title (there is exactly one; see
/// `law_sorted_order_unique`).
pub open spec fn sorted_positions(es: Seq<PlaylistEntry>) -> Seq<int> {
    choose|p: Seq<int>| is_sorted_order(es, p)
}

proof fn lemma_entry_less_asym(x: PlaylistEntry, y: PlaylistEntry)
    ensures
        !(entry_less(x, y) && entry_less(y, x)),
        !entry_less(x, x),
{
    lemma_text_less_irrefl(x.artist@);
    lemma_text_less_irrefl(x.title@);
    if text_less(x.artist@, y.artist@) && text_less(y.artist@, x.artist@) {
        lemma_text_less_trans(x.artist@, y.artist@, x.artist@);
    }
    if text_less(x.title@, y.title@) && text_less(y.title@, x.title@) {
        lemma_text_less_trans(x.title@, y.title@, x.title@);
    }
}

/// Entries as a weak order on their positions in `es`.
pub open spec fn entry_lt(es: Seq<PlaylistEntry>) -> spec_fn(int, int) -> bool {
    |a: int, b: int| entry_less(es[a], es[b])
}

proof fn lemma_entry_lt_weak(es: Seq<PlaylistEntry>)
    ensures
        is_weak_order(es.len() as int, entry_lt(es)),
{
    let lt = entry_lt(es);
    assert forall|a: int| 0 <= a < es.len() implies !#[trigger] lt(a, a) by {
        lemma_entry_less_asym(es[a], es[a]);
    }
    assert forall|a: int, b: int, c: int|
        0 <= a < es.len() && 0 <= b < es.len() && 0 <= c < es.len() && #[trigger] lt(a, b) && (lt(b, c)
            || !lt(c, b)) implies #[trigger] lt(a, c) by {
        lemma_entry_before_chain(es[a], es[b], es[c]);
    }
}

/// A stable sort of the entries is the stable sort of their positions.
proof fn lemma_sorted_is_stable_sort(es: Seq<PlaylistEntry>, p: Seq<int>)
    ensures
        is_sorted_order(es, p) <==> is_stable_sort(es.len() as int, entry_lt(es), p),
{
    let lt = entry_lt(es);
    assert forall|a: int, b: int| sorts_before(es, a, b) == stably_before(lt, a, b) by {}
    if is_sorted_order(es, p) {
        assert forall|k: int, l: int| 0 <= k < l < p.len() implies stably_before(
            lt,
            #[trigger] p[k],
            #[trigger] p[l],
        ) by {
            assert(sorts_before(es, p[k], p[l]));
        }
    }
    if is_stable_sort(es.len() as int, lt, p) {
        assert forall|k: int, l: int| 0 <= k < l < p.len() implies sorts_before(
            es,
            #[trigger] p[k],
            #[trigger] p[l],
        ) by {
            assert(stably_before(lt, p[k], p[l]));
        }
    }
}

/// Two stable sorts of the same entries are the same.
pub proof fn law_sorted_order_unique(es: Seq<PlaylistEntry>, p: Seq<int>, q: Seq<int>)
    requires
        is_sorted_order(es, p),
        is_sorted_order(es, q),
    ensures
        p == q,
{
    lemma_entry_lt_weak(es);
    lemma_sorted_is_stable_sort(es, p);
    lemma_sorted_is_stable_sort(es, q);
    lemma_stable_sort_unique(es.len() as int, entry_lt(es), p, q);
}

/// Every list of entries has a stable sort by artist and title.
pub proof fn lemma_sorted_order_exists(es: Seq<PlaylistEntry>)
    ensures
        is_sorted_order(es, sorted_positions(es)),
{
    let lt = entry_lt(es);
    lemma_entry_lt_weak(es);
    lemma_stable_sort_exists(es.len() as int, lt);
    lemma_sorted_is_stable_sort(es, stable_sort(es.len() as int, lt));
}

/// The library lists no entry before one that it sorts below: by artist,
/// then title.
pub proof fn law_library_sorted(es: Seq<PlaylistEntry>, k: int, l: int)
    requires
        0 <= k < l < es.len(),
    ensures
        !entry_less(es[sorted_positions(es)[l]], es[sorted_positions(es)[k]]),
{
    lemma_sorted_order_exists(es);
    let p = sorted_positions(es);
    assert(sorts_before(es, p[k], p[l]));
    lemma_entry_less_asym(es[p[k]], es[p[l]]);
}

/// The library entry that records `t`: its id, title, artist and length in
/// whole milliseconds (cut to 64 bits).
pub open spec fn entry_of(t: Track) -> PlaylistEntry {
    PlaylistEntry {
        id: t.id,
        title: t.title,
        artist: t.artist,
        duration_ms: match t.duration {
            Some(d) => Some(
                ((d.secs * 1000 + d.nanos / 1_000_000) % 0x1_0000_0000_0000_0000) as u64,
            ),
            None => None,
        },
    }
}

/// The entries of the sidecars that have audio beside them, in their order.
pub open spec fn playable_entries(found: Seq<Sidecar>) -> Seq<PlaylistEntry> {
    found.filter(|s: Sidecar| s.has_audio).map_values(|s: Sidecar| entry_of(s.track))
}

fn entry_before(es: &Vec<PlaylistEntry>, a: usize, b: usize) -> (r: bool)
    requires
        a < es@.len(),
        b < es@.len(),
    ensures
        r == entry_less(es@[a as int], es@[b as int]),
{
    let aa = chars_of(es[a].artist.as_str());
    let ba = chars_of(es[b].artist.as_str());
    if less_text(&aa, &ba) {
        return true;
    }
    if less_text(&ba, &aa) {
        return false;
    }
    proof {
        lemma_text_less_total(aa@, ba@);
    }
    let at = chars_of(es[a].title.as_str());
    let bt = chars_of(es[b].title.as_str());
    less_text(&at, &bt)
}

/// The positions of `es` in a stable ascending sort by artist and title.
fn sorted_order(es: &Vec<PlaylistEntry>) -> (p: Vec<usize>)
    ensures
        is_sorted_order(es@, p@.map_values(|i: usize| i as int)),
{
    let before = |a: usize, b: usize| -> (r: bool)
        requires
            a < es@.len(),
            b < es@.len(),
        ensures
            r == entry_less(es@[a as int], es@[b as int]),
        { entry_before(es, a, b) };
    proof {
        lemma_entry_lt_weak(es@);
    }
    let p = stable_sort_positions(es.len(), before, Ghost(entry_lt(es@)));
    proof {
        lemma_sorted_is_stable_sort(es@, p@.map_values(|i: usize| i as int));
    }
    p
}

/// `e < g` and `g` not after `h` give `e < h`.
proof fn lemma_entry_before_chain(e: PlaylistEntry, g: PlaylistEntry, h: PlaylistEntry)
    requires
        entry_less(e, g),
        entry_less(g, h) || !entry_less(h, g),
    ensures
        entry_less(e, h),
{
    lemma_text_less_total(g.artist@, h.artist@);
    lemma_text_less_total(g.title@, h.title@);
    lemma_text_less_irrefl(g.artist@);
    if text_less(e.artist@, g.artist@) {
        if text_less(g.artist@, h.artist@) {
            lemma_text_less_trans(e.artist@, g.artist@, h.artist@);
        }
    } else {
        if text_less(g.artist@, h.artist@) {
        } else if g.artist@ == h.artist@ {
            if text_less(g.title@, h.title@) {
                lemma_text_less_trans(e.title@, g.title@, h.title@);
            } else if g.title@ == h.title@ {
            } else {
                assert(entry_less(h, g));
            }
        } else {
            assert(entry_less(h, g));
        }
    }
}

fn entry_from(t: &Track) -> (r: PlaylistEntry)
    ensures
        r == entry_of(*t),
{
    PlaylistEntry {
        id: t.id.copy(),
        title: t.title.clone(),
        artist: t.artist.clone(),
        duration_ms: match &t.duration {
            Some(d) => Some(d.millis_u64()),
            None => None,
        },
    }
}

/// The library made of the metadata files found: the entries of those with
/// audio beside them, sorted by artist and then title (ties in the order
/// found).
pub fn library_entries(found: &Vec<Sidecar>) -> (r: Vec<PlaylistEntry>)
    ensures
        is_sorted_order(playable_entries(found@), sorted_positions(playable_entries(found@))),
        r@ == sorted_positions(playable_entries(found@)).map_values(
            |i: int| playable_entries(found@)[i],
        ),
{
    let ghost keep = |s: Sidecar| s.has_audio;
    let ghost conv = |s: Sidecar| entry_of(s.track);
    let mut es: Vec<PlaylistEntry> = Vec::new();
    let mut i: usize = 0;
    while i < found.len()
        invariant
            keep == (|s: Sidecar| s.has_audio),
            conv == (|s: Sidecar| entry_of(s.track)),
            i <= found@.len(),
            es@ == found@.subrange(0, i as int).filter(keep).map_values(conv),
        decreases found@.len() - i,
    {
        proof {
            let pre = found@.subrange(0, i as int);
            assert(found@.subrange(0, i + 1) =~= pre.push(found@[i as int]));
            pre.lemma_filter_push(found@[i as int], keep);
        }
        if found[i].has_audio {
            let e = entry_from(&found[i].track);
            es.push(e);
            proof {
                let pre = found@.subrange(0, i as int).filter(keep);
                assert(pre.push(found@[i as int]).map_values(conv) =~= pre.map_values(conv).push(
                    conv(found@[i as int]),
                ));
            }
        }
        i = i + 1;
    }
    assert(found@.subrange(0, i as int) =~= found@);
    let p = sorted_order(&es);
    let ghost pv = p@.map_values(|i: usize| i as int);
    let mut out: Vec<PlaylistEntry> = Vec::new();
    let mut k: usize = 0;
    while k < p.len()
        invariant
            pv == p@.map_values(|i: usize| i as int),
            is_sorted_order(es@, pv),
            k <= p@.len(),
            out@ == pv.take(k as int).map_values(|i: int| es@[i]),
        decreases p@.len() - k,
    {
        assert(pv[k as int] == p@[k as int] as int);
        let e = es[p[k]].copy();
        out.push(e);
        k = k + 1;
        assert(out@ =~= pv.take(k as int).map_values(|i: int| es@[i]));
    }
    assert(pv.take(k as int) =~= pv);
    assert(es@ == playable_entries(found@));
    proof {
        law_sorted_order_unique(es@, pv, sorted_positions(es@));
    }
    out
}

/// The files of track `id` in the music directory: its audio in each format
/// it may have been saved in and its metadata file, in the order they are
/// deleted: `.m4a`, `.mp3`, `.webm`, `.opus`, `.json`.
pub open spec fn track_files(id: TrackId) -> Seq<Seq<char>> {
    seq![
        id.0@ + ".m4a"@,
        id.0@ + ".mp3"@,
        id.0@ + ".webm"@,
        id.0@ + ".opus"@,
        id.0@ + ".json"@,
    ]
}

fn with_ext(id: &TrackId, ext: &str) -> (r: String)
    ensures
        r@ == id.0@ + ext@,
{
    let mut s = id.0.clone();
    push_str(&mut s, ext);
    s
}

/// The names of the files to delete to remove track `id` from the library.
pub fn track_file_names(id: &TrackId) -> (r: Vec<String>)
    ensures
        r@.len() == 5,
        forall|i: int| 0 <= i < 5 ==> (#[trigger] r@[i])@ == track_files(*id)[i],
{
    let mut v: Vec<String> = Vec::new();
    v.push(with_ext(id, ".m4a"));
    v.push(with_ext(id, ".mp3"));
    v.push(with_ext(id, ".webm"));
    v.push(with_ext(id, ".opus"));
    v.push(with_ext(id, ".json"));
    v
}

/// The extensions of the audio files that make a metadata file count:
/// `mp3`, `m4a`, `webm`, `opus`.
pub open spec fn audio_exts() -> Seq<Seq<char>> {
    seq!["mp3"@, "m4a"@, "webm"@, "opus"@]
}

/// The audio extensions to look for beside a metadata file.
pub fn audio_extensions() -> (r: Vec<&'static str>)
    ensures
        r@.len() == 4,
        forall|i: int| 0 <= i < 4 ==> (#[trigger] r@[i])@ == audio_exts()[i],
{
    let mut v: Vec<&'static str> = Vec::new();
    v.push("mp3");
    v.push("m4a");
    v.push("webm");
    v.push("opus");
    v
}

} // verus!
