use vstd::prelude::*;

verus! {

/// A track as the Spotify tracks endpoint describes it.
#[derive(Debug)]
pub struct SpotifySong {
    pub name: String,
    pub artists: Vec<SpotifyArtist>,
    pub album: SpotifyAlbum,
    pub duration_ms: u32,
    pub id: String,
}

/// An artist of a track.
#[derive(Debug)]
pub struct SpotifyArtist {
    pub name: String,
}

/// The album of a track.
#[derive(Debug)]
pub struct SpotifyAlbum {
    pub name: String,
}

/// One entry of a playlist's track list; the track may be missing.
#[derive(Debug)]
pub struct SpotifyPlaylistItem {
    pub track: Option<SpotifyTrack>,
}

/// A track inside a playlist, whose identifier may be missing.
#[derive(Debug)]
pub struct SpotifyTrack {
    pub id: Option<String>,
    pub name: String,
    pub artists: Vec<SpotifyArtist>,
    pub album: SpotifyAlbum,
    pub duration_ms: u32,
}

} // verus!
