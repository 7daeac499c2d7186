//! Cache of the track that is playing, so that its artwork is fetched only
//! when the track changes.

use vstd::prelude::*;

verus! {

/// Title, artist and encoded artwork of the last track seen.
#[derive(Debug)]
pub struct TrackCache {
    pub title: Option<String>,
    pub artist: Option<String>,
    pub artwork: Option<String>,
}

fn clone_text(s: &Option<String>) -> (r: Option<String>)
    ensures
        r == *s,
{
    match s {
        Some(t) => Some(t.clone()),
        None => None,
    }
}

fn same_text(a: &Option<String>, b: &Option<String>) -> (r: bool)
    ensures
        r == (a.deep_view() == b.deep_view()),
{
    match (a, b) {
        (Some(x), Some(y)) => *x == *y,
        (None, None) => true,
        _ => false,
    }
}

impl TrackCache {
    /// A cache that has seen no track.
    pub fn new() -> (r: TrackCache)
        ensures
            r.title is None,
            r.artist is None,
            r.artwork is None,
    {
        TrackCache { title: None, artist: None, artwork: None }
    }

    /// Copy of the cached title, artist and artwork.
    pub fn get_cached_track(&self) -> (r: (Option<String>, Option<String>, Option<String>))
        ensures
            r.0 == self.title,
            r.1 == self.artist,
            r.2 == self.artwork,
    {
        (clone_text(&self.title), clone_text(&self.artist), clone_text(&self.artwork))
    }

    /// Replaces the cached track.
    pub fn set_cached_track(
        &mut self,
        title: Option<String>,
        artist: Option<String>,
        artwork: Option<String>,
    )
        ensures
            final(self).title == title,
            final(self).artist == artist,
            final(self).artwork == artwork,
    {
        self.title = title;
        self.artist = artist;
        self.artwork = artwork;
    }

    /// Whether a track differs from the cached one by title or by artist.
    pub fn is_track_changed(&self, title: &Option<String>, artist: &Option<String>) -> (r: bool)
        ensures
            r == (self.title.deep_view() != title.deep_view() || self.artist.deep_view()
                != artist.deep_view()),
    {
        !same_text(&self.title, title) || !same_text(&self.artist, artist)
    }
}

/// The audio module's shared state at start-up: no track seen yet.
pub fn init_audio_state() -> (r: TrackCache)
    ensures
        r.title is None,
        r.artist is None,
        r.artwork is None,
{
    TrackCache::new()
}

} // verus!
