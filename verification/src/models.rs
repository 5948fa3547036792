//! The domain values: tracks, their identifiers and durations, search results.

use vstd::prelude::*;

pub use crate::playlist::PlaylistEntry;

verus! {

/// The YouTube video id of a track.
#[derive(Debug, Clone)]
pub struct TrackId(pub String);

impl TrackId {
    /// Two ids name the same track when their text is equal.
    pub open spec fn same(self, other: TrackId) -> bool {
        self.0@ == other.0@
    }

    pub fn copy(&self) -> (r: TrackId)
        ensures
            r == *self,
    {
        TrackId(self.0.clone())
    }
}

impl PartialEq for TrackId {
    fn eq(&self, other: &TrackId) -> (r: bool) {
        self.0 == other.0
    }
}

impl vstd::std_specs::cmp::PartialEqSpecImpl for TrackId {
    open spec fn obeys_eq_spec() -> bool {
        true
    }

    open spec fn eq_spec(&self, other: &TrackId) -> bool {
        self.0@ == other.0@
    }
}

impl Eq for TrackId {}

/// `id_a == id_b`, with the result stated.
pub fn same_id(a: &TrackId, b: &TrackId) -> (r: bool)
    ensures
        r == a.same(*b),
{
    a.0 == b.0
}

/// A length of time with nanosecond resolution, as `std::time::Duration`
/// holds it: whole seconds and the nanoseconds below one second.
#[derive(Clone, Copy, PartialEq, Eq, Structural, Debug)]
pub struct TimeSpan {
    pub secs: u64,
    pub nanos: u32,
}

pub const NANOS_PER_SEC: u32 = 1_000_000_000;

/// The span of `ms` milliseconds, as `Duration::from_millis` forms it.
pub open spec fn millis_span(ms: u64) -> TimeSpan {
    TimeSpan { secs: ms / 1000, nanos: ((ms % 1000) * 1_000_000) as u32 }
}

impl TimeSpan {
    /// `nanos` stays below one second.
    pub open spec fn wf(self) -> bool {
        self.nanos < NANOS_PER_SEC
    }

    /// The span in nanoseconds.
    pub open spec fn total_nanos(self) -> int {
        self.secs * 1_000_000_000 + self.nanos
    }

    /// `Duration::ZERO`.
    pub fn zero() -> (r: TimeSpan)
        ensures
            r.wf(),
            r.total_nanos() == 0,
            r.secs == 0 && r.nanos == 0,
    {
        TimeSpan { secs: 0, nanos: 0 }
    }

    /// `Duration::from_millis`.
    pub fn from_millis(ms: u64) -> (r: TimeSpan)
        ensures
            r == millis_span(ms),
            r.wf(),
            r.total_nanos() == ms * 1_000_000,
    {
        let secs = ms / 1000;
        let rem = ms % 1000;
        assert(rem * 1_000_000 < 1_000_000_000) by (nonlinear_arith)
            requires
                rem < 1000,
        ;
        let nanos = (rem as u32) * 1_000_000;
        assert(secs * 1_000_000_000 + nanos == ms * 1_000_000) by (nonlinear_arith)
            requires
                secs == ms / 1000,
                rem == ms % 1000,
                nanos == rem * 1_000_000,
        ;
        TimeSpan { secs, nanos }
    }

    /// `Duration::as_secs`: the whole seconds.
    pub fn as_secs(&self) -> (r: u64)
        ensures
            r == self.secs,
    {
        self.secs
    }

    /// `Duration::is_zero`.
    pub fn is_zero(&self) -> (r: bool)
        ensures
            r == (self.total_nanos() == 0),
    {
        self.secs == 0 && self.nanos == 0
    }

    /// `d.as_millis() as u64`: the whole milliseconds, cut to 64 bits.
    pub fn millis_u64(&self) -> (r: u64)
        ensures
            r == (self.secs * 1000 + self.nanos / 1_000_000) % 0x1_0000_0000_0000_0000,
    {
        let total: u128 = (self.secs as u128) * 1000 + (self.nanos / 1_000_000) as u128;
        let r = total as u64;
        assert(r == total % 0x1_0000_0000_0000_0000) by (bit_vector)
            requires
                r == total as u64,
        ;
        r
    }
}

/// A thumbnail picture of a track.
#[derive(Debug, Clone)]
pub struct ThumbnailUrl {
    pub url: String,
    pub width: u32,
    pub height: u32,
}

impl ThumbnailUrl {
    pub fn copy(&self) -> (r: ThumbnailUrl)
        ensures
            r == *self,
    {
        ThumbnailUrl { url: self.url.clone(), width: self.width, height: self.height }
    }
}

/// One song as the player knows it.
#[derive(Debug, Clone)]
pub struct Track {
    pub id: TrackId,
    pub title: String,
    pub artist: String,
    pub album: Option<String>,
    pub duration: Option<TimeSpan>,
    pub thumbnail: Option<ThumbnailUrl>,
}

/// Something that belongs to one track: a track itself, or a playlist entry.
pub trait Identified {
    spec fn key(&self) -> TrackId;

    fn track_id(&self) -> (r: &TrackId)
        ensures
            *r == self.key(),
    ;
}

impl Identified for Track {
    open spec fn key(&self) -> TrackId {
        self.id
    }

    fn track_id(&self) -> (r: &TrackId) {
        &self.id
    }
}

/// `items` holds an item of the track with id `id`.
pub open spec fn holds_key<T: Identified>(items: Seq<T>, id: TrackId) -> bool {
    exists|i: int| 0 <= i < items.len() && (#[trigger] items[i]).key().same(id)
}

/// Whether `items` holds an item of the track with id `id`.
pub fn holds_item<T: Identified>(items: &Vec<T>, id: &TrackId) -> (r: bool)
    ensures
        r == holds_key(items@, *id),
{
    let mut i: usize = 0;
    while i < items.len()
        invariant
            i <= items.len(),
            forall|j: int| 0 <= j < i ==> !(#[trigger] items@[j]).key().same(*id),
        decreases items.len() - i,
    {
        if same_id(items[i].track_id(), id) {
            return true;
        }
        i = i + 1;
    }
    false
}

pub fn copy_opt_string(s: &Option<String>) -> (r: Option<String>)
    ensures
        r == *s,
{
    match s {
        Some(x) => Some(x.clone()),
        None => None,
    }
}

impl Track {
    pub fn copy(&self) -> (r: Track)
        ensures
            r == *self,
    {
        Track {
            id: self.id.copy(),
            title: self.title.clone(),
            artist: self.artist.clone(),
            album: copy_opt_string(&self.album),
            duration: self.duration,
            thumbnail: match &self.thumbnail {
                Some(t) => Some(t.copy()),
                None => None,
            },
        }
    }
}

/// What a search found: the query and the tracks, best first.
#[derive(Debug)]
pub struct SearchResults {
    pub query: String,
    pub tracks: Vec<Track>,
}

impl SearchResults {
    /// The empty results that a fresh player starts with.
    pub fn empty() -> (r: SearchResults)
        ensures
            r.query@.len() == 0,
            r.tracks@.len() == 0,
    {
        SearchResults { query: String::new(), tracks: Vec::new() }
    }
}

impl Default for SearchResults {
    fn default() -> (r: SearchResults)
        ensures
            r.query@.len() == 0,
            r.tracks@.len() == 0,
    {
        SearchResults::empty()
    }
}

} // verus!
