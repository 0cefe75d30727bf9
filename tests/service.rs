use melody_syncer_rust::{
    accept_user_key, analytics_increment, basic_auth_header, basic_auth_value, describe_song,
    duration_from_details, first_lookup_step, get_youtube_api_keys, marker_text,
    next_lookup_step, parse_request_params, parse_u32, playlist_entries, playlist_tracks,
    playlist_tracks_url, pool_with_user_key, query_pairs, repeat_params, repeat_text,
    search_query, search_url, split_on, split_pair, track_url, video_details_url, watch_url,
    ApiResponse, LookupStep, PlaylistError, RepeatError, ResolveError, SpotifyAlbum,
    SpotifyArtist, SpotifyClient, SpotifyPlaylistItem, SpotifySong, SpotifyTrack, TokenError,
    YouTubeContentDetails, YouTubeVideoDetails, YouTubeVideoDetailsItem,
};

fn details(durations: &[&str]) -> YouTubeVideoDetails {
    YouTubeVideoDetails {
        items: durations
            .iter()
            .map(|d| YouTubeVideoDetailsItem { content_details: YouTubeContentDetails { duration: d.to_string() } })
            .collect(),
    }
}

fn track(id: Option<&str>, name: &str, artists: &[&str]) -> SpotifyTrack {
    SpotifyTrack {
        id: id.map(|s| s.to_string()),
        name: name.to_string(),
        artists: artists.iter().map(|a| SpotifyArtist { name: a.to_string() }).collect(),
        album: SpotifyAlbum { name: "Album".to_string() },
        duration_ms: 1000,
    }
}

#[test]
fn token_new_cache_is_empty() {
    let c = SpotifyClient::new();
    assert!(c.token.is_none());
    assert!(c.token_expires_at.is_none());
    assert_eq!(c.get_token(0), None);
}

#[test]
fn token_reused_within_window() {
    let mut c = SpotifyClient::new();
    let t = c.store_token(Some("tok".to_string()), Some(3600), 10_000).unwrap();
    assert_eq!(t, "tok");
    assert_eq!(c.token_expires_at, Some(10_000 + 3480 * 1000));
    let first = c.get_token(20_000);
    let second = c.get_token(3_000_000);
    assert_eq!(first, Some("tok".to_string()));
    assert_eq!(second, first);
}

#[test]
fn token_refresh_after_expiry() {
    let mut c = SpotifyClient::new();
    c.store_token(Some("old".to_string()), None, 0).unwrap();
    assert_eq!(c.token_expires_at, Some(3480 * 1000));
    assert_eq!(c.get_token(3480 * 1000), None);
    c.store_token(Some("new".to_string()), Some(3600), 3480 * 1000).unwrap();
    assert_eq!(c.get_token(3480 * 1000 + 1), Some("new".to_string()));
}

#[test]
fn token_short_lifetime_expires_at_once() {
    let mut c = SpotifyClient::new();
    c.store_token(Some("t".to_string()), Some(60), 500).unwrap();
    assert_eq!(c.token_expires_at, Some(500));
    assert_eq!(c.get_token(500), None);
}

#[test]
fn token_huge_lifetime_saturates() {
    let mut c = SpotifyClient::new();
    c.store_token(Some("t".to_string()), Some(u64::MAX), 5).unwrap();
    assert_eq!(c.token_expires_at, Some(u64::MAX));
}

#[test]
fn token_answer_without_token() {
    let mut c = SpotifyClient::new();
    c.store_token(Some("keep".to_string()), Some(3600), 0).unwrap();
    assert_eq!(c.store_token(None, Some(3600), 1), Err(TokenError::MissingAccessToken));
    assert_eq!(c.token, Some("keep".to_string()));
}

#[test]
fn auth_header_encodes_credentials() {
    assert_eq!(
        basic_auth_header(Some("id".to_string()), Some("secret".to_string())),
        Ok("Basic aWQ6c2VjcmV0".to_string())
    );
    assert_eq!(basic_auth_value("abc"), "Basic abc");
}

#[test]
fn auth_header_missing_credentials() {
    assert_eq!(basic_auth_header(None, Some("s".to_string())), Err(TokenError::MissingClientId));
    assert_eq!(basic_auth_header(None, None), Err(TokenError::MissingClientId));
    assert_eq!(basic_auth_header(Some("i".to_string()), None), Err(TokenError::MissingClientSecret));
}

#[test]
fn lookup_first_step() {
    assert_eq!(first_lookup_step(3), LookupStep::Request(0));
    assert_eq!(first_lookup_step(0), LookupStep::Done(0));
}

#[test]
fn lookup_stops_at_first_duration() {
    assert_eq!(next_lookup_step(3, 0, &Some(details(&["PT3M5S"]))), LookupStep::Done(185000));
}

#[test]
fn lookup_tries_next_key() {
    assert_eq!(next_lookup_step(3, 0, &None), LookupStep::Request(1));
    assert_eq!(next_lookup_step(3, 1, &Some(details(&[]))), LookupStep::Request(2));
}

#[test]
fn lookup_exhausted_is_unknown() {
    assert_eq!(next_lookup_step(3, 2, &None), LookupStep::Done(0));
}

#[test]
fn details_first_item_duration() {
    assert_eq!(duration_from_details(&details(&["PT1S", "PT2S"])), Some(1000));
    assert_eq!(duration_from_details(&details(&[])), None);
}

#[test]
fn query_text_for_track() {
    assert_eq!(search_query("Song", "Album", "Artist"), "Song Album Artist Official Audio");
}

#[test]
fn search_url_encodes_query() {
    assert_eq!(
        search_url("a b&c~é", "KEY"),
        "https://youtube.googleapis.com/youtube/v3/search?part=snippet&q=a%20b%26c~%C3%A9&type=video&maxResults=10&key=KEY"
    );
}

#[test]
fn request_urls() {
    assert_eq!(
        video_details_url("K", "vid"),
        "https://youtube.googleapis.com/youtube/v3/videos?part=contentDetails&key=K&id=vid"
    );
    assert_eq!(watch_url("v1"), "https://www.youtube.com/watch?v=v1");
    assert_eq!(track_url("t1"), "https://api.spotify.com/v1/tracks/t1");
    assert_eq!(playlist_tracks_url("p1"), "https://api.spotify.com/v1/playlists/p1/tracks");
}

#[test]
fn playlist_keeps_order_with_marker() {
    let outcomes = vec![
        Ok("https://www.youtube.com/watch?v=one".to_string()),
        Err(ResolveError::SearchExhausted),
        Ok("https://www.youtube.com/watch?v=three".to_string()),
    ];
    let entries = playlist_entries(&outcomes);
    assert_eq!(
        entries,
        vec![
            "https://www.youtube.com/watch?v=one".to_string(),
            "API Limit Exceeded for all YouTube API Keys".to_string(),
            "https://www.youtube.com/watch?v=three".to_string(),
        ]
    );
}

#[test]
fn marker_texts() {
    assert_eq!(marker_text(ResolveError::NoMatch), "No matching song found on YouTube");
    assert_eq!(marker_text(ResolveError::SearchExhausted), "API Limit Exceeded for all YouTube API Keys");
}

#[test]
fn playlist_empty() {
    assert_eq!(playlist_tracks(&vec![]).unwrap_err(), PlaylistError::Empty);
}

#[test]
fn playlist_without_valid_songs() {
    let items = vec![
        SpotifyPlaylistItem { track: None },
        SpotifyPlaylistItem { track: Some(track(None, "a", &["x"])) },
        SpotifyPlaylistItem { track: Some(track(Some("id"), "b", &[])) },
    ];
    assert_eq!(playlist_tracks(&items).unwrap_err(), PlaylistError::NoValidSongs);
}

#[test]
fn playlist_filters_in_order() {
    let items = vec![
        SpotifyPlaylistItem { track: Some(track(Some("1"), "first", &["A", "B"])) },
        SpotifyPlaylistItem { track: None },
        SpotifyPlaylistItem { track: Some(track(Some("3"), "third", &["C"])) },
    ];
    let tracks = playlist_tracks(&items).unwrap();
    assert_eq!(tracks.len(), 2);
    assert_eq!(tracks[0].id, "1");
    assert_eq!(tracks[0].artist_name, "A");
    assert_eq!(tracks[1].name, "third");
    assert_eq!(tracks[1].album_name, "Album");
}

#[test]
fn song_descriptor() {
    let song = SpotifySong {
        name: "n".to_string(),
        artists: vec![SpotifyArtist { name: "a".to_string() }],
        album: SpotifyAlbum { name: "al".to_string() },
        duration_ms: 42,
        id: "i".to_string(),
    };
    let d = describe_song(&song).unwrap();
    assert_eq!((d.id.as_str(), d.name.as_str(), d.artist_name.as_str(), d.duration_ms), ("i", "n", "a", 42));
    let lonely = SpotifySong { artists: vec![], ..song };
    assert!(describe_song(&lonely).is_none());
}

#[test]
fn key_pool_from_configuration() {
    let configured = vec![Some("k1".to_string()), None, Some("k3".to_string())];
    assert_eq!(get_youtube_api_keys(&configured), vec!["k1".to_string(), "k3".to_string()]);
    assert_eq!(get_youtube_api_keys(&vec![None, None]), vec!["default".to_string()]);
}

#[test]
fn user_key_goes_first() {
    let pool = pool_with_user_key(vec!["k1".to_string()], Some("mine".to_string()));
    assert_eq!(pool, vec!["mine".to_string(), "k1".to_string()]);
    assert_eq!(pool_with_user_key(vec!["k1".to_string()], None), vec!["k1".to_string()]);
    assert!(accept_user_key("mine"));
    assert!(!accept_user_key("default"));
    assert!(!accept_user_key(""));
}

#[test]
fn split_keeps_empty_pieces() {
    assert_eq!(split_on("a&&b&", '&'), vec!["a", "", "b", ""]);
    assert_eq!(split_on("", '&'), vec![""]);
    assert_eq!(split_pair("k=v=w"), Some(("k".to_string(), "v=w".to_string())));
    assert_eq!(split_pair("novalue"), None);
}

#[test]
fn pairs_of_query() {
    assert_eq!(
        query_pairs("a=1&junk&b=&=c"),
        vec![
            ("a".to_string(), "1".to_string()),
            ("b".to_string(), "".to_string()),
            ("".to_string(), "c".to_string()),
        ]
    );
}

#[test]
fn request_params_from_query() {
    let p = parse_request_params("query=abc%20d&youtubeAPIKEY=default&give_length=yes", Some("hk".to_string()));
    assert_eq!(p.query, Some("abc d".to_string()));
    assert_eq!(p.youtube_api_key, Some("hk".to_string()));
    assert!(p.give_length);
}

#[test]
fn request_params_rejections() {
    let p = parse_request_params("query=good&query=null&youtubeAPIKEY=mine&query=", Some("hk".to_string()));
    assert_eq!(p.query, Some("good".to_string()));
    assert_eq!(p.youtube_api_key, Some("mine".to_string()));
    assert!(!p.give_length);
    let p = parse_request_params("query=%FF", Some("default".to_string()));
    assert_eq!(p.query, None);
    assert_eq!(p.youtube_api_key, None);
}

#[test]
fn repeat_copies() {
    assert_eq!(repeat_text("ab", 3), Ok(vec!["ab".to_string(), "ab".to_string(), "ab".to_string()]));
    assert_eq!(repeat_text("ab", 0), Ok(vec![]));
    assert_eq!(repeat_text("ab", 100000).unwrap().len(), 100000);
    assert_eq!(repeat_text("ab", 100001), Err(RepeatError::CountTooLarge));
}

#[test]
fn repeat_query() {
    assert_eq!(repeat_params("text=hi%21&count=2"), Ok(("hi!".to_string(), 2)));
    assert_eq!(repeat_params("count=2"), Err(RepeatError::MissingText));
    assert_eq!(repeat_params("text=a&count=x"), Err(RepeatError::MissingCount));
    assert_eq!(repeat_params("text=%FF&count=1"), Err(RepeatError::UndecodableText));
}

#[test]
fn decimal_reading() {
    assert_eq!(parse_u32("42"), Some(42));
    assert_eq!(parse_u32("+7"), Some(7));
    assert_eq!(parse_u32("4294967295"), Some(u32::MAX));
    assert_eq!(parse_u32("4294967296"), None);
    assert_eq!(parse_u32(""), None);
    assert_eq!(parse_u32("+"), None);
    assert_eq!(parse_u32("-1"), None);
    assert_eq!(parse_u32("1a"), None);
}

#[test]
fn response_envelopes() {
    let ok = ApiResponse::success(5);
    assert_eq!(ok.status, "success");
    assert_eq!(ok.message, None);
    assert_eq!(ok.data, Some(5));
    let err = ApiResponse::<()>::error("bad".to_string());
    assert_eq!(err.status, "error");
    assert_eq!(err.message, Some("bad".to_string()));
    assert!(err.data.is_none());
}

#[test]
fn analytics_counters() {
    let inc = analytics_increment(4, 1);
    assert_eq!(inc.iso_total_calls, 20);
    assert_eq!(inc.meso_total_calls, 1);
    assert_eq!(inc.meso_songs_converted, 4);
    assert_eq!(inc.meso_playlists_converted, 1);
}

#[test]
fn usable_identifiers() {
    assert!(melody_syncer_rust::accept_id("abc"));
    assert!(!melody_syncer_rust::accept_id("null"));
    assert!(!melody_syncer_rust::accept_id(""));
}
