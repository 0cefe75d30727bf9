use vstd::prelude::*;
use crate::scorer::{best_match, candidate_scores, is_best};
use crate::spotify::{SpotifyPlaylistItem, SpotifySong, SpotifyTrack};
use crate::urls::{watch_url, PLACEHOLDER_VIDEO_ID};
use crate::youtube::YouTubeVideo;

verus! {

/// Why a track could not be resolved to a video.
#[derive(Debug, Clone, Copy, PartialEq, Eq, Structural)]
pub enum ResolveError {
    /// No key of the pool brought back a candidate: each request failed or
    /// found nothing.
    SearchExhausted,
    /// The best candidate is the reserved placeholder video.
    NoMatch,
}

/// Why a playlist yields no track to resolve.
#[derive(Debug, Clone, Copy, PartialEq, Eq, Structural)]
pub enum PlaylistError {
    /// The playlist has no entries at all.
    Empty,
    /// No entry has a track with an identifier and an artist.
    NoValidSongs,
}

/// What a track is searched by: its identifier, name, primary artist, album
/// and duration in milliseconds.
#[derive(Debug)]
pub struct TrackDescriptor {
    pub id: String,
    pub name: String,
    pub artist_name: String,
    pub album_name: String,
    pub duration_ms: u32,
}

/// The fields of a track descriptor as plain values.
pub type TrackFields = (Seq<char>, Seq<char>, Seq<char>, Seq<char>, u32);

/// The fields of `d`.
pub open spec fn descriptor_fields(d: TrackDescriptor) -> TrackFields {
    (d.id@, d.name@, d.artist_name@, d.album_name@, d.duration_ms)
}

/// The descriptor a playlist track yields: none without an identifier or an
/// artist; the first artist is the primary one.
pub open spec fn track_fields(t: SpotifyTrack) -> Option<TrackFields> {
    if t.id is Some && t.artists.len() > 0 {
        Some((t.id->0@, t.name@, t.artists[0].name@, t.album.name@, t.duration_ms))
    } else {
        None
    }
}

/// The descriptor a playlist entry yields.
pub open spec fn item_fields(item: SpotifyPlaylistItem) -> Option<TrackFields> {
    match item.track {
        Some(t) => track_fields(t),
        None => None,
    }
}

/// The descriptors of the usable entries of a playlist, in playlist order.
pub open spec fn usable_tracks(items: Seq<SpotifyPlaylistItem>) -> Seq<TrackFields>
    decreases items.len(),
{
    if items.len() == 0 {
        Seq::empty()
    } else {
        let rest = usable_tracks(items.drop_last());
        match item_fields(items.last()) {
            Some(f) => rest.push(f),
            None => rest,
        }
    }
}

/// Describes a playlist track for the search, if it has an identifier and an artist.
pub fn describe_track(track: &SpotifyTrack) -> (r: Option<TrackDescriptor>)
    ensures
        match r {
            Some(d) => track_fields(*track) == Some(descriptor_fields(d)),
            None => track_fields(*track) is None,
        },
{
    match &track.id {
        Some(id) => if track.artists.len() > 0 {
            Some(
                TrackDescriptor {
                    id: id.clone(),
                    name: track.name.clone(),
                    artist_name: track.artists[0].name.clone(),
                    album_name: track.album.name.clone(),
                    duration_ms: track.duration_ms,
                },
            )
        } else {
            None
        },
        None => None,
    }
}

/// Describes a single track for the search, if it has an artist.
pub fn describe_song(song: &SpotifySong) -> (r: Option<TrackDescriptor>)
    ensures
        song.artists.len() > 0 ==> r is Some && descriptor_fields(r->0) == (
            song.id@,
            song.name@,
            song.artists[0].name@,
            song.album.name@,
            song.duration_ms,
        ),
        song.artists.len() == 0 ==> r is None,
{
    if song.artists.len() > 0 {
        Some(
            TrackDescriptor {
                id: song.id.clone(),
                name: song.name.clone(),
                artist_name: song.artists[0].name.clone(),
                album_name: song.album.name.clone(),
                duration_ms: song.duration_ms,
            },
        )
    } else {
        None
    }
}

/// The tracks of a playlist to resolve, in playlist order: entries without a
/// track, an identifier or an artist are left out.
pub fn playlist_tracks(items: &Vec<SpotifyPlaylistItem>) -> (r: Result<
    Vec<TrackDescriptor>,
    PlaylistError,
>)
    ensures
        items.len() == 0 ==> r == Err::<Vec<TrackDescriptor>, PlaylistError>(PlaylistError::Empty),
        items.len() > 0 && usable_tracks(items@).len() == 0 ==> r == Err::<
            Vec<TrackDescriptor>,
            PlaylistError,
        >(PlaylistError::NoValidSongs),
        items.len() > 0 && usable_tracks(items@).len() > 0 ==> r is Ok,
        r is Ok ==> usable_tracks(items@).len() > 0 && r->Ok_0@.map_values(
            |d: TrackDescriptor| descriptor_fields(d),
        ) == usable_tracks(items@),
{
    if items.len() == 0 {
        return Err(PlaylistError::Empty);
    }
    let mut tracks: Vec<TrackDescriptor> = Vec::new();
    let mut i: usize = 0;
    while i < items.len()
        invariant
            i <= items.len(),
            tracks@.map_values(|d: TrackDescriptor| descriptor_fields(d)) == usable_tracks(
                items@.subrange(0, i as int),
            ),
        decreases items.len() - i,
    {
        let described = match &items[i].track {
            Some(t) => describe_track(t),
            None => None,
        };
        proof {
            let pre = items@.subrange(0, i as int + 1);
            assert(pre.drop_last() =~= items@.subrange(0, i as int));
            assert(pre.last() == items@[i as int]);
        }
        match described {
            Some(d) => {
                tracks.push(d);
            },
            None => {},
        }
        assert(tracks@.map_values(|d: TrackDescriptor| descriptor_fields(d)) =~= usable_tracks(
            items@.subrange(0, i as int + 1),
        ));
        i = i + 1;
    }
    assert(items@.subrange(0, items.len() as int) =~= items@);
    if tracks.len() == 0 {
        Err(PlaylistError::NoValidSongs)
    } else {
        Ok(tracks)
    }
}

/// A resolution outcome with its text as plain characters.
pub open spec fn outcome_view(r: Result<String, ResolveError>) -> Result<Seq<char>, ResolveError> {
    match r {
        Ok(s) => Ok(s@),
        Err(e) => Err(e),
    }
}

/// The outcome of a track whose best candidate is `video_id`: the placeholder
/// video means no match, any other its watch page.
pub open spec fn song_outcome(video_id: Seq<char>) -> Result<Seq<char>, ResolveError> {
    if video_id == PLACEHOLDER_VIDEO_ID@ {
        Err(ResolveError::NoMatch)
    } else {
        Ok("https://www.youtube.com/watch?v="@ + video_id)
    }
}

/// Turns the chosen video into the outcome of a track: its watch page, or
/// no match for the reserved placeholder video.
pub fn song_url(video_id: &str) -> (r: Result<String, ResolveError>)
    ensures
        outcome_view(r) == song_outcome(video_id@),
{
    if video_id.to_owned() == PLACEHOLDER_VIDEO_ID.to_owned() {
        Err(ResolveError::NoMatch)
    } else {
        Ok(watch_url(video_id))
    }
}

/// Resolves a track from the candidates its search found and their
/// durations (`durations[i]` belongs to `items[i]`, 0 where unknown): the
/// outcome of the best-scoring candidate, the first of equals.
pub fn resolve_match(
    items: &Vec<YouTubeVideo>,
    durations: &Vec<u32>,
    artist_name: &str,
    song_name: &str,
    target_ms: u32,
) -> (r: Result<String, ResolveError>)
    requires
        items.len() > 0,
        durations.len() == items.len(),
    ensures
        exists|i: int|
            is_best(candidate_scores(items@, durations@, artist_name@, song_name@, target_ms), i)
                && outcome_view(r) == song_outcome(items@[i].id.video_id@),
{
    let best = best_match(items, durations, artist_name, song_name, target_ms);
    song_url(items[best].id.video_id.as_str())
}

/// The marker a playlist shows in place of a track that could not be resolved.
pub open spec fn unavailable_marker(e: ResolveError) -> Seq<char> {
    match e {
        ResolveError::SearchExhausted => "API Limit Exceeded for all YouTube API Keys"@,
        ResolveError::NoMatch => "No matching song found on YouTube"@,
    }
}

/// What a playlist shows for one track.
pub open spec fn playlist_entry(outcome: Result<String, ResolveError>) -> Seq<char> {
    match outcome {
        Ok(url) => url@,
        Err(e) => unavailable_marker(e),
    }
}

/// The text of an unavailable marker.
pub fn marker_text(e: ResolveError) -> (r: String)
    ensures
        r@ == unavailable_marker(e),
{
    match e {
        ResolveError::SearchExhausted => "API Limit Exceeded for all YouTube API Keys".to_owned(),
        ResolveError::NoMatch => "No matching song found on YouTube".to_owned(),
    }
}

/// Gathers the outcomes of a playlist's tracks, in track order: each resolved
/// track shows its watch page, each failed one an unavailable marker, and no
/// failure drops or moves another track.
pub fn playlist_entries(outcomes: &Vec<Result<String, ResolveError>>) -> (r: Vec<String>)
    ensures
        r.len() == outcomes.len(),
        forall|i: int| 0 <= i < r.len() ==> #[trigger] r@[i]@ == playlist_entry(outcomes@[i]),
{
    let mut entries: Vec<String> = Vec::new();
    let mut i: usize = 0;
    while i < outcomes.len()
        invariant
            i <= outcomes.len(),
            entries.len() == i,
            forall|j: int| 0 <= j < i ==> #[trigger] entries@[j]@ == playlist_entry(outcomes@[j]),
        decreases outcomes.len() - i,
    {
        let entry = match &outcomes[i] {
            Ok(url) => url.clone(),
            Err(e) => marker_text(*e),
        };
        entries.push(entry);
        i = i + 1;
    }
    entries
}

} // verus!
