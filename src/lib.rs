//! Resolves Spotify tracks and playlists to their best-matching YouTube videos.
//!
//! The library holds the decisions of the resolution pipeline: parsing video
//! durations, scoring candidates, choosing among the answers of a pool of API
//! keys, caching the Spotify bearer token, and shaping the per-track and
//! per-playlist outcomes. The network, the environment and the database are
//! driven by the caller, which hands plain values in and takes plain values back.

pub mod credentials;
pub mod duration;
pub mod params;
pub mod pool;
pub mod resolve;
pub mod response;
pub mod scorer;
pub mod spotify;
pub mod text;
pub mod token;
pub mod urls;
pub mod utility;
pub mod youtube;

pub use credentials::{accept_user_key, get_youtube_api_keys, pool_with_user_key, DEFAULT_API_KEY};
pub use duration::parse_iso_duration;
pub use params::{
    accept_id, parse_request_params, parse_u32, query_pairs, repeat_params, split_on, split_pair,
    RequestParams,
};
pub use pool::{
    duration_from_details, first_lookup_step, next_lookup_step, select_search_result, LookupStep,
};
pub use resolve::{
    describe_song, describe_track, marker_text, playlist_entries, playlist_tracks, resolve_match,
    song_url, PlaylistError, ResolveError, TrackDescriptor,
};
pub use response::ApiResponse;
pub use scorer::{best_candidate, best_match, match_score, score_candidate};
pub use spotify::{SpotifyAlbum, SpotifyArtist, SpotifyPlaylistItem, SpotifySong, SpotifyTrack};
pub use token::{
    basic_auth_header, basic_auth_value, bearer_auth_value, SpotifyClient, TokenError,
    DEFAULT_TOKEN_LIFETIME_SECS, TOKEN_EXPIRY_BUFFER_SECS,
};
pub use urls::{
    playlist_tracks_url, search_query, search_url, track_url, video_details_url, watch_url,
    PLACEHOLDER_VIDEO_ID,
};
pub use utility::{
    analytics_increment, repeat_text, AnalyticsIncrement, RepeatError, MAX_REPEAT_COUNT,
};
pub use youtube::{
    YouTubeContentDetails, YouTubePageInfo, YouTubeSearchResponse, YouTubeSnippet, YouTubeVideo,
    YouTubeVideoDetails, YouTubeVideoDetailsItem, YouTubeVideoId,
};
