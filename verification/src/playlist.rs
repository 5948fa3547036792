//! Named playlists kept as one JSON file each in a directory. This module
//! decides what a playlist holds after each operation and where its file
//! lives; reading and writing the files is the caller's part.

use vstd::prelude::*;

use crate::models::{same_id, Identified, TrackId};
use crate::text::{chars_of, push_char, push_str};

verus! {

broadcast use vstd::string::group_string_axioms;

/// A track as a playlist (and the downloads library) records it.
#[derive(Debug)]
pub struct PlaylistEntry {
    pub id: TrackId,
    pub title: String,
    pub artist: String,
    pub duration_ms: Option<u64>,
}

impl PlaylistEntry {
    pub fn copy(&self) -> (r: PlaylistEntry)
        ensures
            r == *self,
    {
        PlaylistEntry {
            id: self.id.copy(),
            title: self.title.clone(),
            artist: self.artist.clone(),
            duration_ms: self.duration_ms,
        }
    }
}

#[derive(Debug)]
pub struct Playlist {
    pub name: String,
    pub tracks: Vec<PlaylistEntry>,
}

/// The playlists of one directory; `dir` is that directory's path.
#[derive(Debug)]
pub struct PlaylistStore {
    pub dir: std::path::PathBuf,
}

impl Identified for PlaylistEntry {
    open spec fn key(&self) -> TrackId {
        self.id
    }

    fn track_id(&self) -> (r: &TrackId) {
        &self.id
    }
}

/// The characters that cannot stand in a file name on common systems.
pub open spec fn forbidden_in_file_name(c: char) -> bool {
    c == '/' || c == '\\' || c == ':' || c == '*' || c == '?' || c == '"' || c == '<' || c
        == '>' || c == '|'
}

/// `c`, or `_` where `c` cannot stand in a file name.
pub open spec fn sanitized_char(c: char) -> char {
    if forbidden_in_file_name(c) {
        '_'
    } else {
        c
    }
}

/// `name` with every character that cannot stand in a file name replaced by `_`.
pub open spec fn sanitized(name: Seq<char>) -> Seq<char> {
    name.map_values(|c: char| sanitized_char(c))
}

/// `name` made safe to use as a file name: each of `/ \ : * ? " < > |`
/// becomes `_`, every other character stays.
pub fn sanitize_name(name: &str) -> (r: String)
    ensures
        r@ == sanitized(name@),
{
    let cs = chars_of(name);
    let mut out = String::new();
    let mut i: usize = 0;
    while i < cs.len()
        invariant
            cs@ == name@,
            i <= cs.len(),
            out@ == sanitized(name@).subrange(0, i as int),
        decreases cs.len() - i,
    {
        let c = cs[i];
        let d = if c == '/' || c == '\\' || c == ':' || c == '*' || c == '?' || c == '"' || c
            == '<' || c == '>' || c == '|' {
            '_'
        } else {
            c
        };
        push_char(&mut out, d);
        i = i + 1;
        assert(out@ =~= sanitized(name@).subrange(0, i as int));
    }
    assert(out@ =~= sanitized(name@));
    out
}

/// A sanitized name holds none of the characters that file names cannot
/// hold, and is as long as the name.
pub proof fn law_sanitized_is_file_name(name: Seq<char>)
    ensures
        sanitized(name).len() == name.len(),
        forall|i: int| 0 <= i < name.len() ==> !forbidden_in_file_name(#[trigger] sanitized(name)[i]),
{
}

/// A playlist's file name ends with `.json` and holds no path separator, so
/// it names a file directly inside the store's directory.
pub proof fn law_playlist_file_shape(name: Seq<char>)
    ensures
        ends_with_json(playlist_file(name)),
        forall|i: int|
            0 <= i < playlist_file(name).len() ==> #[trigger] playlist_file(name)[i] != '/'
                && playlist_file(name)[i] != '\\',
{
    let f = playlist_file(name);
    assert(f.subrange(f.len() - 5, f.len() as int) =~= seq!['.', 'j', 's', 'o', 'n']);
    assert forall|i: int| 0 <= i < f.len() implies #[trigger] f[i] != '/' && f[i] != '\\' by {
        if i < name.len() {
            assert(f[i] == sanitized(name)[i]);
        }
    }
}

/// `path` ends with `.json`.
pub open spec fn ends_with_json(path: Seq<char>) -> bool {
    path.len() >= 5 && path.subrange(path.len() - 5, path.len() as int) == seq![
        '.',
        'j',
        's',
        'o',
        'n',
    ]
}

/// The file name of playlist `name`: the sanitized name and `.json`.
pub open spec fn playlist_file(name: Seq<char>) -> Seq<char> {
    sanitized(name) + seq!['.', 'j', 's', 'o', 'n']
}

/// `entries` holds an entry for track `id`.
pub open spec fn has_track(entries: Seq<PlaylistEntry>, id: TrackId) -> bool {
    exists|i: int| 0 <= i < entries.len() && (#[trigger] entries[i]).id.same(id)
}

/// `entries` without the entries of track `id`, the others in their order.
pub open spec fn without_track(entries: Seq<PlaylistEntry>, id: TrackId) -> Seq<PlaylistEntry> {
    entries.filter(|e: PlaylistEntry| !e.id.same(id))
}

/// `entries` after adding `entry`: unchanged when it already holds that
/// track, `entry` appended otherwise.
pub open spec fn with_track(entries: Seq<PlaylistEntry>, entry: PlaylistEntry) -> Seq<PlaylistEntry> {
    if has_track(entries, entry.id) {
        entries
    } else {
        entries.push(entry)
    }
}

/// Adding a track twice is adding it once.
pub proof fn law_add_idempotent(entries: Seq<PlaylistEntry>, entry: PlaylistEntry)
    ensures
        with_track(with_track(entries, entry), entry) == with_track(entries, entry),
{
    if !has_track(entries, entry.id) {
        let s = entries.push(entry);
        assert(s[entries.len() as int].id.same(entry.id));
    }
}

/// After a removal the playlist holds no entry of the removed track.
pub proof fn law_removed_track_is_gone(entries: Seq<PlaylistEntry>, id: TrackId)
    ensures
        !has_track(without_track(entries, id), id),
{
    let keep = |e: PlaylistEntry| !e.id.same(id);
    let r = entries.filter(keep);
    assert forall|i: int| 0 <= i < r.len() implies !(#[trigger] r[i]).id.same(id) by {
        entries.lemma_filter_pred(keep, i);
    }
}

/// Removing a track that a playlist does not hold leaves it unchanged.
pub proof fn law_remove_absent_is_identity(entries: Seq<PlaylistEntry>, id: TrackId)
    requires
        !has_track(entries, id),
    ensures
        without_track(entries, id) == entries,
    decreases entries.len(),
{
    let keep = |e: PlaylistEntry| !e.id.same(id);
    if entries.len() > 0 {
        let pre = entries.drop_last();
        assert(entries =~= pre.push(entries.last()));
        assert(!has_track(pre, id)) by {
            if has_track(pre, id) {
                let i = choose|i: int| 0 <= i < pre.len() && (#[trigger] pre[i]).id.same(id);
                assert(entries[i] == pre[i]);
            }
        }
        law_remove_absent_is_identity(pre, id);
        pre.lemma_filter_push(entries.last(), keep);
        assert(!entries[entries.len() - 1].id.same(id));
    } else {
        assert(entries.filter(keep) =~= entries) by {
            reveal(Seq::filter);
        }
    }
}

/// Adding a track the playlist did not hold and then removing it gives back
/// the playlist as it was.
pub proof fn law_remove_undoes_add(entries: Seq<PlaylistEntry>, entry: PlaylistEntry)
    requires
        !has_track(entries, entry.id),
    ensures
        without_track(with_track(entries, entry), entry.id) == entries,
{
    let keep = |e: PlaylistEntry| !e.id.same(entry.id);
    entries.lemma_filter_push(entry, keep);
    law_remove_absent_is_identity(entries, entry.id);
}

/// Removing twice is removing once.
pub proof fn law_remove_idempotent(entries: Seq<PlaylistEntry>, id: TrackId)
    ensures
        without_track(without_track(entries, id), id) == without_track(entries, id),
{
    law_removed_track_is_gone(entries, id);
    law_remove_absent_is_identity(without_track(entries, id), id);
}

fn holds_track(entries: &Vec<PlaylistEntry>, id: &TrackId) -> (r: bool)
    ensures
        r == has_track(entries@, *id),
{
    let r = crate::models::holds_item(entries, id);
    assert(r == has_track(entries@, *id)) by {
        if r {
            let i = choose|i: int|
                0 <= i < entries@.len() && (#[trigger] entries@[i]).key().same(*id);
            assert(entries@[i].id.same(*id));
        }
    }
    r
}

impl PlaylistStore {
    /// The store of directory `dir` (which the caller has created).
    pub fn new(dir: std::path::PathBuf) -> (r: PlaylistStore)
        ensures
            r.dir == dir,
    {
        PlaylistStore { dir }
    }

    /// The name of playlist `name`'s file: the sanitized name and `.json`.
    pub fn playlist_file_name(name: &str) -> (r: String)
        ensures
            r@ == playlist_file(name@),
    {
        let mut out = sanitize_name(name);
        push_str(&mut out, ".json");
        proof {
            reveal_strlit(".json");
        }
        assert(out@ =~= playlist_file(name@));
        out
    }

    /// A new, empty playlist named `name` (to be saved by the caller).
    pub fn create(&self, name: &str) -> (r: Playlist)
        ensures
            r.name@ == name@,
            r.tracks@.len() == 0,
    {
        Playlist { name: crate::text::owned(name), tracks: Vec::new() }
    }

    /// Adds `entry` to `playlist` unless it already holds that track. Returns
    /// whether the playlist changed (and must be saved).
    pub fn add_track(&self, playlist: &mut Playlist, entry: PlaylistEntry) -> (changed: bool)
        ensures
            changed == !has_track(old(playlist).tracks@, entry.id),
            final(playlist).name == old(playlist).name,
            final(playlist).tracks@ == with_track(old(playlist).tracks@, entry),
    {
        if holds_track(&playlist.tracks, &entry.id) {
            false
        } else {
            playlist.tracks.push(entry);
            true
        }
    }

    /// Removes every entry of track `id` from `playlist` (which the caller
    /// then saves).
    pub fn remove_track(&self, playlist: &mut Playlist, id: &TrackId)
        ensures
            final(playlist).name == old(playlist).name,
            final(playlist).tracks@ == without_track(old(playlist).tracks@, *id),
    {
        let mut kept: Vec<PlaylistEntry> = Vec::new();
        let ghost src = playlist.tracks@;
        let ghost keep = |x: PlaylistEntry| !x.id.same(*id);
        let mut i: usize = 0;
        while i < playlist.tracks.len()
            invariant
                src == playlist.tracks@,
                keep == (|x: PlaylistEntry| !x.id.same(*id)),
                i <= src.len(),
                kept@ == src.subrange(0, i as int).filter(keep),
            decreases src.len() - i,
        {
            let e = playlist.tracks[i].copy();
            proof {
                assert(src.subrange(0, i + 1) =~= src.subrange(0, i as int).push(e));
                src.subrange(0, i as int).lemma_filter_push(e, keep);
            }
            if !same_id(&e.id, id) {
                kept.push(e);
            }
            i = i + 1;
        }
        assert(src.subrange(0, i as int) =~= src);
        playlist.tracks = kept;
    }
}

} // verus!
