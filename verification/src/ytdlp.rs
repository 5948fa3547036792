//! What the library makes of `yt-dlp`'s output: the command line of a search,
//! the lines of its JSON output, the score that favours album audio, the
//! ranking of the entries and the tracks they become.

use vstd::prelude::*;
use vstd::view::View as _;

use crate::models::{SearchResults, ThumbnailUrl, TimeSpan, Track, TrackId};
use crate::text::{
    all_white, chars_of, contains, contains_seq, ends_with, ends_with_seq, is_blank, lowercase_of,
    owned, push_char, push_decimal, push_str, string_of, to_lowercase, decimal,
};

use crate::order::{
    is_stable_sort, is_weak_order, lemma_stable_sort_exists, lemma_stable_sort_unique,
    stable_sort, stable_sort_positions, stably_before,
};

verus! {

broadcast use vstd::string::group_string_axioms;

/// One thumbnail of a search entry, as `yt-dlp` lists it.
#[derive(Debug)]
pub struct RawThumb {
    pub url: String,
    pub width: Option<u32>,
    pub height: Option<u32>,
}

/// One entry of a flat `yt-dlp` search. `duration` is the length of the
/// video; `odd_length` is set when that length is under 90 or over 600
/// seconds (both are read from the entry's floating-point `duration`).
#[derive(Debug)]
pub struct FlatEntry {
    pub id: String,
    pub title: String,
    pub uploader: Option<String>,
    pub channel: Option<String>,
    pub artists: Option<Vec<String>>,
    pub album: Option<String>,
    pub duration: Option<TimeSpan>,
    pub odd_length: bool,
    pub thumbnails: Vec<RawThumb>,
}

// ── score ───────────────────────────────────────────────────────────────────

/// The channel the entry names: `channel`, else `uploader`, else empty.
pub open spec fn channel_of(e: FlatEntry) -> Seq<char> {
    match e.channel {
        Some(c) => c@,
        None => match e.uploader {
            Some(u) => u@,
            None => Seq::empty(),
        },
    }
}

pub open spec fn has(t: Seq<char>, pat: &str) -> bool {
    contains_seq(t, pat@)
}

/// `n` when `cond` holds, else 0.
pub open spec fn when(cond: bool, n: int) -> int {
    if cond {
        n
    } else {
        0
    }
}

/// The title terms of the score (`t` is the title in lower case).
pub open spec fn title_terms(t: Seq<char>) -> int {
    when(has(t, "official audio") || has(t, "audio only"), 8)
    + when(has(t, "provided to youtube"), 6)
    - when(has(t, "official video") || has(t, "official music video") || has(t, "(mv)")
        || has(t, "music video"), 8)
    - when(has(t, "lyric video") || has(t, "(lyrics)") || ends_with_seq(t, " lyrics"@), 5)
    - when(has(t, "(live)") || has(t, "live at ") || has(t, "live from ") || has(
        t,
        "live performance",
    ) || has(t, "live version"), 7)
    - when(has(t, "(cover)") || has(t, "cover version") || has(t, "fan cover"), 6)
    - when(has(t, "karaoke") || has(t, "instrumental") || has(t, "backing track"), 10)
    - when(has(t, "remix") || has(t, "re-mix"), 3)
}

/// How much an entry looks like official album audio rather than a video,
/// a live take or a cover: the sum of these terms, with the title taken in
/// lower case:
///  +12 the channel ends with "- Topic"; +8 "official audio" or
///  "audio only"; +6 "provided to youtube"; +6 an album is named;
///  -8 "official video", "official music video", "(mv)" or "music video";
///  -5 "lyric video" or "(lyrics)", or the title ends with " lyrics";
///  -7 "(live)", "live at ", "live from ", "live performance" or
///  "live version"; -6 "(cover)", "cover version" or "fan cover";
///  -10 "karaoke", "instrumental" or "backing track"; -3 "remix" or
///  "re-mix"; -4 a length under 90 or over 600 seconds.
pub open spec fn score_of(e: FlatEntry) -> int {
    score_with(e, lowercase_of(e.title@))
}

/// The score of an entry whose title, in lower case, is `lower`.
pub open spec fn score_with(e: FlatEntry, lower: Seq<char>) -> int {
    when(ends_with_seq(channel_of(e), "- Topic"@), 12)
    + title_terms(lower)
    + when(e.album is Some, 6)
    - when(e.odd_length, 4)
}

/// `t` holds one of the title phrases that score, other than "karaoke",
/// "instrumental" and "backing track".
pub open spec fn has_other_scored_phrase(t: Seq<char>) -> bool {
    has(t, "official audio") || has(t, "audio only") || has(t, "provided to youtube") || has(
        t,
        "official video",
    ) || has(t, "official music video") || has(t, "(mv)") || has(t, "music video") || has(
        t,
        "lyric video",
    ) || has(t, "(lyrics)") || ends_with_seq(t, " lyrics"@) || has(t, "(live)") || has(
        t,
        "live at ",
    ) || has(t, "live from ") || has(t, "live performance") || has(t, "live version") || has(
        t,
        "(cover)",
    ) || has(t, "cover version") || has(t, "fan cover") || has(t, "remix") || has(t, "re-mix")
}

/// A karaoke, instrumental or backing-track title costs 10: alone it scores
/// -10, and with any other phrases it can never score above 4 (the most the
/// other phrases give is 14). A title with no scored phrase scores 0.
pub proof fn law_karaoke_versions_rank_low(t: Seq<char>)
    ensures
        (has(t, "karaoke") || has(t, "instrumental") || has(t, "backing track"))
            ==> title_terms(t) <= 4,
        (has(t, "karaoke") || has(t, "instrumental") || has(t, "backing track"))
            && !has_other_scored_phrase(t) ==> title_terms(t) == -10,
        !(has(t, "karaoke") || has(t, "instrumental") || has(t, "backing track"))
            && !has_other_scored_phrase(t) ==> title_terms(t) == 0,
{
}

fn occurs(t: &Vec<char>, pat: &str) -> (r: bool)
    ensures
        r == contains_seq(t@, pat@),
{
    let p = chars_of(pat);
    contains(t, &p)
}

fn term(cond: bool, n: i32) -> (r: i32)
    requires
        0 <= n <= 12,
    ensures
        r == when(cond, n as int),
{
    if cond {
        n
    } else {
        0
    }
}

/// The title terms of the score, for a title already in lower case.
pub fn title_score(t: &Vec<char>) -> (r: i32)
    ensures
        r == title_terms(t@),
{
    let lyrics_end = chars_of(" lyrics");
    let b = term(occurs(t, "official audio") || occurs(t, "audio only"), 8);
    let c = term(occurs(t, "provided to youtube"), 6);
    let f = term(
        occurs(t, "official video") || occurs(t, "official music video") || occurs(t, "(mv)")
            || occurs(t, "music video"),
        8,
    );
    let g = term(
        occurs(t, "lyric video") || occurs(t, "(lyrics)") || ends_with(t, &lyrics_end),
        5,
    );
    let h = term(
        occurs(t, "(live)") || occurs(t, "live at ") || occurs(t, "live from ") || occurs(
            t,
            "live performance",
        ) || occurs(t, "live version"),
        7,
    );
    let k = term(
        occurs(t, "(cover)") || occurs(t, "cover version") || occurs(t, "fan cover"),
        6,
    );
    let l = term(
        occurs(t, "karaoke") || occurs(t, "instrumental") || occurs(t, "backing track"),
        10,
    );
    let m = term(occurs(t, "remix") || occurs(t, "re-mix"), 3);
    b + c - f - g - h - k - l - m
}

/// The score of entry `e` given its title in lower case; see `score_of`.
pub fn score_lowercased(e: &FlatEntry, lower_title: &str) -> (r: i32)
    ensures
        r == score_with(*e, lower_title@),
{
    let t = chars_of(lower_title);
    let channel: &str = match &e.channel {
        Some(c) => c.as_str(),
        None => match &e.uploader {
            Some(u) => u.as_str(),
            None => "",
        },
    };
    proof {
        reveal_strlit("");
        assert(""@ =~= Seq::<char>::empty());
    }
    let ch = chars_of(channel);
    assert(ch@ == channel_of(*e));
    let topic = chars_of("- Topic");
    let a = term(ends_with(&ch, &topic), 12);
    let ts = title_score(&t);
    let d = term(e.album.is_some(), 6);
    let n = term(e.odd_length, 4);
    a + ts + d - n
}

/// The score of an entry; see `score_of`.
pub fn audio_score(e: &FlatEntry) -> (r: i32)
    ensures
        r == score_of(*e),
{
    let title = to_lowercase(e.title.as_str());
    score_lowercased(e, title.as_str())
}

// ── entry to track ──────────────────────────────────────────────────────────

/// `parts` with `sep` between each two of them.
pub open spec fn joined_with(parts: Seq<Seq<char>>, sep: Seq<char>) -> Seq<char>
    decreases parts.len(),
{
    if parts.len() == 0 {
        Seq::empty()
    } else if parts.len() == 1 {
        parts[0]
    } else {
        joined_with(parts.drop_last(), sep) + sep + parts.last()
    }
}

pub open spec fn strings_view(v: Seq<String>) -> Seq<Seq<char>> {
    v.map_values(|s: String| s@)
}

/// The artist of an entry: its artists joined with ", " when it lists any,
/// else the uploader, else the channel, else empty.
pub open spec fn artist_of(e: FlatEntry) -> Seq<char> {
    if e.artists is Some && e.artists.unwrap()@.len() > 0 {
        joined_with(strings_view(e.artists.unwrap()@), ", "@)
    } else {
        match e.uploader {
            Some(u) => u@,
            None => match e.channel {
                Some(c) => c@,
                None => Seq::empty(),
            },
        }
    }
}

/// Among the first `n` thumbnails, `i` is the last of those with the
/// greatest known width (thumbnails without a width do not count).
pub open spec fn is_widest_in(ts: Seq<RawThumb>, n: int, i: int) -> bool {
    &&& 0 <= i < n <= ts.len()
    &&& ts[i].width is Some
    &&& forall|j: int|
        0 <= j < n && (#[trigger] ts[j]).width is Some ==> ts[j].width.unwrap()
            <= ts[i].width.unwrap()
    &&& forall|j: int|
        i < j < n && (#[trigger] ts[j]).width is Some ==> ts[j].width.unwrap()
            < ts[i].width.unwrap()
}

/// The thumbnail that `max_by_key` on the width picks among those with a
/// width: the widest, the last of them on a tie.
pub open spec fn widest(ts: Seq<RawThumb>) -> Option<int> {
    if exists|i: int| is_widest_in(ts, ts.len() as int, i) {
        Some(choose|i: int| is_widest_in(ts, ts.len() as int, i))
    } else {
        None
    }
}

pub open spec fn unwrap_or_zero(x: Option<u32>) -> u32 {
    match x {
        Some(v) => v,
        None => 0,
    }
}

/// `t` is the track that entry `e` becomes: same id, title, album and
/// length, the artist of `artist_of`, and the widest thumbnail (its height
/// 0 when unknown).
pub open spec fn is_track_of(t: Track, e: FlatEntry) -> bool {
    &&& t.id.0 == e.id
    &&& t.title == e.title
    &&& t.artist@ == artist_of(e)
    &&& t.album == e.album
    &&& t.duration == e.duration
    &&& match widest(e.thumbnails@) {
        Some(i) => {
            let th = e.thumbnails@[i];
            &&& t.thumbnail is Some
            &&& t.thumbnail.unwrap().url == th.url
            &&& t.thumbnail.unwrap().width == th.width.unwrap()
            &&& t.thumbnail.unwrap().height == unwrap_or_zero(th.height)
        },
        None => t.thumbnail is None,
    }
}

fn join_strings(parts: &Vec<String>, sep: &str) -> (r: String)
    ensures
        r@ == joined_with(strings_view(parts@), sep@),
{
    let mut out = String::new();
    let ghost ps = strings_view(parts@);
    let mut i: usize = 0;
    assert(ps.take(0) =~= Seq::<Seq<char>>::empty());
    while i < parts.len()
        invariant
            ps == strings_view(parts@),
            ps.len() == parts@.len(),
            i <= parts.len(),
            out@ == joined_with(ps.take(i as int), sep@),
        decreases parts.len() - i,
    {
        if i > 0 {
            push_str(&mut out, sep);
        }
        push_str(&mut out, parts[i].as_str());
        proof {
            let pre = ps.take(i as int);
            let post = ps.take(i + 1);
            assert(post.drop_last() =~= pre);
            assert(post.last() == parts@[i as int]@);
            if i == 0 {
                assert(post.len() == 1);
            }
        }
        i = i + 1;
    }
    assert(ps.take(i as int) =~= ps);
    out
}

fn widest_thumb(ts: &Vec<RawThumb>) -> (r: Option<usize>)
    ensures
        match r {
            Some(i) => widest(ts@) == Some(i as int),
            None => widest(ts@) is None,
        },
{
    let mut best: Option<usize> = None;
    let mut i: usize = 0;
    while i < ts.len()
        invariant
            i <= ts.len(),
            match best {
                Some(b) => is_widest_in(ts@, i as int, b as int),
                None => forall|j: int| 0 <= j < i ==> (#[trigger] ts@[j]).width is None,
            },
        decreases ts.len() - i,
    {
        match ts[i].width {
            Some(w) => {
                let take = match best {
                    Some(b) => match ts[b].width {
                        Some(bw) => w >= bw,
                        None => true,
                    },
                    None => true,
                };
                if take {
                    best = Some(i);
                }
            },
            None => {},
        }
        i = i + 1;
    }
    proof {
        let n = ts@.len() as int;
        match best {
            Some(b) => {
                let c = choose|c: int| is_widest_in(ts@, n, c);
                assert(is_widest_in(ts@, n, c));
                if c < b {
                    assert(ts@[b as int].width.unwrap() < ts@[c].width.unwrap());
                } else if c > b {
                    assert(ts@[c].width.unwrap() < ts@[b as int].width.unwrap());
                }
            },
            None => {
                if exists|c: int| is_widest_in(ts@, n, c) {
                    let c = choose|c: int| is_widest_in(ts@, n, c);
                    assert(ts@[c].width is Some);
                }
            },
        }
    }
    best
}

/// The track an entry becomes; see `is_track_of`.
pub fn into_track(e: &FlatEntry) -> (t: Track)
    ensures
        is_track_of(t, *e),
{
    let artist = match &e.artists {
        Some(v) if v.len() > 0 => join_strings(v, ", "),
        _ => match &e.uploader {
            Some(u) => u.clone(),
            None => match &e.channel {
                Some(c) => c.clone(),
                None => String::new(),
            },
        },
    };
    let thumbnail = match widest_thumb(&e.thumbnails) {
        Some(i) => {
            let th = &e.thumbnails[i];
            Some(
                ThumbnailUrl {
                    url: th.url.clone(),
                    width: match th.width {
                        Some(w) => w,
                        None => 0,
                    },
                    height: match th.height {
                        Some(h) => h,
                        None => 0,
                    },
                },
            )
        },
        None => None,
    };
    Track {
        id: TrackId(e.id.clone()),
        title: e.title.clone(),
        artist,
        album: crate::models::copy_opt_string(&e.album),
        duration: e.duration,
        thumbnail,
    }
}

// ── ranking ─────────────────────────────────────────────────────────────────

/// Entry `a` goes before entry `b`: a higher score, or the same score and an
/// earlier place in `yt-dlp`'s output.
pub open spec fn goes_before(keys: Seq<int>, a: int, b: int) -> bool {
    keys[a] > keys[b] || (keys[a] == keys[b] && a < b)
}

/// `p` lists every index of `keys` once, best score first, equal scores in
/// their input order (a stable sort by descending score).
pub open spec fn is_ranking(keys: Seq<int>, p: Seq<int>) -> bool {
    &&& p.len() == keys.len()
    &&& forall|k: int| 0 <= k < p.len() ==> 0 <= #[trigger] p[k] < keys.len()
    &&& forall|j: int| 0 <= j < keys.len() ==> #[trigger] p.contains(j)
    &&& forall|k: int, l: int|
        0 <= k < l < p.len() ==> goes_before(keys, #[trigger] p[k], #[trigger] p[l])
}

/// The ranking of `keys` (there is exactly one; see `law_ranking_unique`).
pub open spec fn ranking(keys: Seq<int>) -> Seq<int> {
    choose|p: Seq<int>| is_ranking(keys, p)
}

/// The scores of the entries, in their order.
pub open spec fn scores(es: Seq<FlatEntry>) -> Seq<int> {
    es.map_values(|e: FlatEntry| score_of(e))
}

/// Scores as a weak order on positions: a higher score comes first.
pub open spec fn score_lt(keys: Seq<int>) -> spec_fn(int, int) -> bool {
    |a: int, b: int| keys[a] > keys[b]
}

proof fn lemma_score_lt_weak(keys: Seq<int>)
    ensures
        is_weak_order(keys.len() as int, score_lt(keys)),
{
}

/// A ranking is the stable sort of the positions by score.
proof fn lemma_ranking_is_stable_sort(keys: Seq<int>, p: Seq<int>)
    ensures
        is_ranking(keys, p) <==> is_stable_sort(keys.len() as int, score_lt(keys), p),
{
    let lt = score_lt(keys);
    assert forall|a: int, b: int| goes_before(keys, a, b) == stably_before(lt, a, b) by {}
    if is_ranking(keys, p) {
        assert forall|k: int, l: int| 0 <= k < l < p.len() implies stably_before(
            lt,
            #[trigger] p[k],
            #[trigger] p[l],
        ) by {
            assert(goes_before(keys, p[k], p[l]));
        }
    }
    if is_stable_sort(keys.len() as int, lt, p) {
        assert forall|k: int, l: int| 0 <= k < l < p.len() implies goes_before(
            keys,
            #[trigger] p[k],
            #[trigger] p[l],
        ) by {
            assert(stably_before(lt, p[k], p[l]));
        }
    }
}

/// Two rankings of the same scores are the same: the order of the results
/// depends on the scores alone.
pub proof fn law_ranking_unique(keys: Seq<int>, p: Seq<int>, q: Seq<int>)
    requires
        is_ranking(keys, p),
        is_ranking(keys, q),
    ensures
        p == q,
{
    lemma_score_lt_weak(keys);
    lemma_ranking_is_stable_sort(keys, p);
    lemma_ranking_is_stable_sort(keys, q);
    lemma_stable_sort_unique(keys.len() as int, score_lt(keys), p, q);
}

/// Every list of scores has a ranking.
pub proof fn lemma_ranking_exists(keys: Seq<int>)
    ensures
        is_ranking(keys, ranking(keys)),
{
    let lt = score_lt(keys);
    lemma_score_lt_weak(keys);
    lemma_stable_sort_exists(keys.len() as int, lt);
    lemma_ranking_is_stable_sort(keys, stable_sort(keys.len() as int, lt));
}

/// The tracks of a search come best scored first.
pub proof fn law_ranking_best_first(keys: Seq<int>, k: int, l: int)
    requires
        0 <= k < l < keys.len(),
    ensures
        keys[ranking(keys)[k]] >= keys[ranking(keys)[l]],
{
    lemma_ranking_exists(keys);
}

/// Entries of equal score keep the order in which `yt-dlp` listed them.
pub proof fn law_ranking_stable(keys: Seq<int>, k: int, l: int)
    requires
        0 <= k < l < keys.len(),
        keys[ranking(keys)[k]] == keys[ranking(keys)[l]],
    ensures
        ranking(keys)[k] < ranking(keys)[l],
{
    lemma_ranking_exists(keys);
}

/// The positions of `keys`, best score first, ties in their input order.
pub fn rank_order(keys: &Vec<i32>) -> (p: Vec<usize>)
    ensures
        is_ranking(keys@.map_values(|k: i32| k as int), p@.map_values(|i: usize| i as int)),
{
    let ghost ks = keys@.map_values(|k: i32| k as int);
    let before = |a: usize, b: usize| -> (r: bool)
        requires
            a < keys.len(),
            b < keys.len(),
        ensures
            r == (keys@[a as int] > keys@[b as int]),
        { keys[a] > keys[b] };
    proof {
        lemma_score_lt_weak(ks);
    }
    let p = stable_sort_positions(keys.len(), before, Ghost(score_lt(ks)));
    proof {
        lemma_ranking_is_stable_sort(ks, p@.map_values(|i: usize| i as int));
    }
    p
}

/// The first `limit` entries in ranking order, as tracks: the best scored
/// first, ties in `yt-dlp`'s order.
pub fn rank_entries(entries: &Vec<FlatEntry>, limit: usize) -> (r: Vec<Track>)
    ensures
        is_ranking(scores(entries@), ranking(scores(entries@))),
        r@.len() == if entries@.len() < limit {
            entries@.len() as int
        } else {
            limit as int
        },
        forall|k: int|
            0 <= k < r@.len() ==> is_track_of(
                #[trigger] r@[k],
                entries@[ranking(scores(entries@))[k]],
            ),
{
    let mut keys: Vec<i32> = Vec::new();
    let mut i: usize = 0;
    while i < entries.len()
        invariant
            i <= entries@.len(),
            keys@.len() == i,
            forall|j: int| 0 <= j < i ==> #[trigger] keys@[j] == score_of(entries@[j]),
        decreases entries@.len() - i,
    {
        keys.push(audio_score(&entries[i]));
        i = i + 1;
    }
    let p = rank_order(&keys);
    let ghost ks = keys@.map_values(|k: i32| k as int);
    let ghost pv = p@.map_values(|i: usize| i as int);
    proof {
        assert(ks =~= scores(entries@));
        law_ranking_unique(ks, pv, ranking(ks));
    }
    let n = if entries.len() < limit {
        entries.len()
    } else {
        limit
    };
    let mut out: Vec<Track> = Vec::new();
    let mut k: usize = 0;
    while k < n
        invariant
            n <= entries@.len(),
            p@.len() == entries@.len(),
            pv == p@.map_values(|i: usize| i as int),
            pv == ranking(scores(entries@)),
            forall|m: int| 0 <= m < pv.len() ==> 0 <= #[trigger] pv[m] < entries@.len(),
            k <= n,
            out@.len() == k,
            forall|m: int|
                0 <= m < k ==> is_track_of(
                    #[trigger] out@[m],
                    entries@[ranking(scores(entries@))[m]],
                ),
        decreases n - k,
    {
        assert(pv[k as int] == p@[k as int] as int);
        let t = into_track(&entries[p[k]]);
        out.push(t);
        k = k + 1;
    }
    out
}

/// What a search for `query` found, given `yt-dlp`'s entries: at most
/// `limit` tracks in ranking order.
pub fn search_results(query: &str, entries: &Vec<FlatEntry>, limit: u32) -> (r: SearchResults)
    ensures
        is_ranking(scores(entries@), ranking(scores(entries@))),
        r.query@ == query@,
        r.tracks@.len() == if entries@.len() < limit {
            entries@.len() as int
        } else {
            limit as int
        },
        forall|k: int|
            0 <= k < r.tracks@.len() ==> is_track_of(
                #[trigger] r.tracks@[k],
                entries@[ranking(scores(entries@))[k]],
            ),
{
    let tracks = rank_entries(entries, limit as usize);
    SearchResults { query: owned(query), tracks }
}

/// What a search for `query` found, kept in the order in which `yt-dlp`
/// listed its entries: one track per entry, nothing ranked or dropped.
pub fn listed_results(query: &str, entries: &Vec<FlatEntry>) -> (r: SearchResults)
    ensures
        r.query@ == query@,
        r.tracks@.len() == entries@.len(),
        forall|k: int|
            0 <= k < r.tracks@.len() ==> is_track_of(#[trigger] r.tracks@[k], entries@[k]),
{
    let mut out: Vec<Track> = Vec::new();
    let mut k: usize = 0;
    while k < entries.len()
        invariant
            k <= entries@.len(),
            out@.len() == k,
            forall|m: int| 0 <= m < k ==> is_track_of(#[trigger] out@[m], entries@[m]),
        decreases entries.len() - k,
    {
        let t = into_track(&entries[k]);
        out.push(t);
        k = k + 1;
    }
    SearchResults { query: owned(query), tracks: out }
}

/// The search that `yt-dlp` is asked for when its own order is kept:
/// `ytsearch`, the wanted number of results, `:`, the query.
pub open spec fn listed_search_target(query: Seq<char>, limit: u32) -> Seq<char> {
    "ytsearch"@ + decimal(limit as nat) + seq![':'] + query
}

pub fn listed_search_spec(query: &str, limit: u32) -> (r: String)
    ensures
        r@ == listed_search_target(query@, limit),
{
    let mut out = owned("ytsearch");
    push_decimal(&mut out, limit as u64);
    push_char(&mut out, ':');
    push_str(&mut out, query);
    assert(out@ =~= listed_search_target(query@, limit));
    out
}

/// The search that `yt-dlp` is asked for: `ytsearch`, twice the wanted
/// number of results, `:`, the query (more are fetched than kept so that the
/// ranking has some to choose from).
pub open spec fn search_target(query: Seq<char>, limit: u32) -> Seq<char> {
    "ytsearch"@ + decimal((2 * limit) as nat) + seq![':'] + query
}

pub fn search_spec(query: &str, limit: u32) -> (r: String)
    requires
        2 * limit <= u32::MAX,
    ensures
        r@ == search_target(query@, limit),
{
    let mut out = owned("ytsearch");
    push_decimal(&mut out, (limit * 2) as u64);
    push_char(&mut out, ':');
    push_str(&mut out, query);
    assert(out@ =~= search_target(query@, limit));
    out
}

// ── output lines ────────────────────────────────────────────────────────────

/// The position of the first `\n` in `s`, or its length when there is none.
pub open spec fn newline_at(s: Seq<char>) -> nat
    decreases s.len(),
{
    if s.len() == 0 {
        0
    } else if s[0] == '\n' {
        0
    } else {
        1 + newline_at(s.drop_first())
    }
}

/// `line` without one trailing `\r`.
pub open spec fn strip_cr(line: Seq<char>) -> Seq<char> {
    if line.len() > 0 && line.last() == '\r' {
        line.drop_last()
    } else {
        line
    }
}

/// The lines of `s` as `str::lines` gives them: split after each `\n`, the
/// `\n` (and a `\r` just before it) dropped; a last line without `\n`
/// kept as it is; no empty line after a final `\n`.
pub open spec fn lines_of(s: Seq<char>) -> Seq<Seq<char>>
    decreases s.len(),
{
    if s.len() == 0 {
        Seq::empty()
    } else {
        let k = newline_at(s);
        if k < s.len() {
            seq![strip_cr(s.take(k as int))] + lines_of(s.skip((k + 1) as int))
        } else {
            seq![s]
        }
    }
}

/// The lines of `yt-dlp`'s output that hold more than white space.
pub open spec fn entry_lines(s: Seq<char>) -> Seq<Seq<char>> {
    lines_of(s).filter(|l: Seq<char>| !all_white(l))
}

proof fn lemma_newline_at(s: Seq<char>, k: int)
    requires
        0 <= k <= s.len(),
        forall|j: int| 0 <= j < k ==> s[j] != '\n',
        k < s.len() ==> s[k] == '\n',
    ensures
        newline_at(s) == k,
    decreases k,
{
    if k > 0 {
        lemma_newline_at(s.drop_first(), k - 1);
    }
}

/// The non-blank lines of `text`, in order.
pub fn output_lines(text: &str) -> (r: Vec<String>)
    ensures
        r@.len() == entry_lines(text@).len(),
        forall|i: int| 0 <= i < r@.len() ==> (#[trigger] r@[i])@ == entry_lines(text@)[i],
{
    let ghost keep = |l: Seq<char>| !all_white(l);
    let cs = chars_of(text);
    let ghost s = text@;
    let mut out: Vec<String> = Vec::new();
    let ghost mut done: Seq<Seq<char>> = Seq::empty();
    let mut line: Vec<char> = Vec::new();
    let mut start: usize = 0;
    let mut i: usize = 0;
    assert(s.skip(0) =~= s);
    assert(done + lines_of(s) =~= lines_of(s));
    while i < cs.len()
        invariant
            cs@ == s,
            keep == (|l: Seq<char>| !all_white(l)),
            start <= i <= cs@.len(),
            line@ == s.subrange(start as int, i as int),
            forall|j: int| start <= j < i ==> s[j] != '\n',
            done + lines_of(s.skip(start as int)) == lines_of(s),
            out@.len() == done.filter(keep).len(),
            forall|m: int| 0 <= m < out@.len() ==> (#[trigger] out@[m])@ == done.filter(keep)[m],
        decreases cs@.len() - i,
    {
        let c = cs[i];
        if c == '\n' {
            let ghost t = s.skip(start as int);
            proof {
                lemma_newline_at(t, i - start);
                assert(t.take(i - start) =~= line@);
                assert(t.skip(i - start + 1) =~= s.skip(i + 1));
            }
            let n = line.len();
            if n > 0 && line[n - 1] == '\r' {
                let _ = line.pop();
            }
            let ghost piece = line@;
            proof {
                assert(piece == strip_cr(t.take(i - start)));
                assert(done + lines_of(t) =~= done.push(piece) + lines_of(s.skip(i + 1)));
                done.lemma_filter_push(piece, keep);
            }
            if !is_blank(&line) {
                let st = string_of(&line);
                out.push(st);
            }
            proof {
                done = done.push(piece);
            }
            line = Vec::new();
            start = i + 1;
        } else {
            line.push(c);
        }
        i = i + 1;
        assert(line@ =~= s.subrange(start as int, i as int));
    }
    proof {
        let t = s.skip(start as int);
        if t.len() > 0 {
            lemma_newline_at(t, t.len() as int);
            assert(lines_of(t) == seq![t]);
            assert(t =~= line@);
        } else {
            assert(lines_of(t) =~= Seq::<Seq<char>>::empty());
        }
    }
    if line.len() > 0 {
        proof {
            done.lemma_filter_push(line@, keep);
        }
        if !is_blank(&line) {
            let st = string_of(&line);
            out.push(st);
        }
        proof {
            done = done.push(line@);
        }
    }
    proof {
        assert(done =~= lines_of(s));
    }
    out
}

// ── fetching a track's audio ────────────────────────────────────────────────

/// The audio file of track `id` in the music directory: `<id>.mp3`.
pub open spec fn audio_file(id: Seq<char>) -> Seq<char> {
    id + ".mp3"@
}

/// The page `yt-dlp` downloads track `id` from.
pub open spec fn watch_page(id: Seq<char>) -> Seq<char> {
    "https://www.youtube.com/watch?v="@ + id
}

pub fn audio_file_name(id: &TrackId) -> (r: String)
    ensures
        r@ == audio_file(id.0@),
{
    let mut s = id.0.clone();
    push_str(&mut s, ".mp3");
    s
}

pub fn watch_url(id: &TrackId) -> (r: String)
    ensures
        r@ == watch_page(id.0@),
{
    let mut s = owned("https://www.youtube.com/watch?v=");
    push_str(&mut s, id.0.as_str());
    s
}

/// How fetching a track's audio ends, from what the disk and `yt-dlp` said.
#[derive(Clone, Copy, Debug, PartialEq, Eq, Structural)]
pub enum FetchOutcome {
    /// The file was already there: no download.
    Cached,
    /// `yt-dlp` failed.
    DownloadFailed,
    /// `yt-dlp` succeeded but the file is not there.
    Missing,
    /// `yt-dlp` succeeded and the file is there.
    Ready,
}

/// A file already on disk is used as it is; otherwise the download must
/// succeed and leave the file behind. `downloaded` and `present_after`
/// are only read when the file was not there before.
pub open spec fn fetch_outcome_of(present_before: bool, downloaded: bool, present_after: bool) -> FetchOutcome {
    if present_before {
        FetchOutcome::Cached
    } else if !downloaded {
        FetchOutcome::DownloadFailed
    } else if !present_after {
        FetchOutcome::Missing
    } else {
        FetchOutcome::Ready
    }
}

pub fn fetch_outcome(present_before: bool, downloaded: bool, present_after: bool) -> (r: FetchOutcome)
    ensures
        r == fetch_outcome_of(present_before, downloaded, present_after),
{
    if present_before {
        FetchOutcome::Cached
    } else if !downloaded {
        FetchOutcome::DownloadFailed
    } else if !present_after {
        FetchOutcome::Missing
    } else {
        FetchOutcome::Ready
    }
}

} // verus!
