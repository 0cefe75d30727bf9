use melody_syncer_rust::{
    best_candidate, best_match, match_score, parse_iso_duration, resolve_match, score_candidate,
    select_search_result, song_url, ResolveError, YouTubePageInfo, YouTubeSearchResponse,
    YouTubeSnippet, YouTubeVideo, YouTubeVideoId,
};

fn video(id: &str, title: &str, channel: &str) -> YouTubeVideo {
    YouTubeVideo {
        id: YouTubeVideoId { video_id: id.to_string() },
        snippet: YouTubeSnippet { title: title.to_string(), channel_title: channel.to_string() },
    }
}

fn answer(ids: &[&str]) -> YouTubeSearchResponse {
    YouTubeSearchResponse {
        items: ids.iter().map(|id| video(id, "t", "c")).collect(),
        page_info: YouTubePageInfo { total_results: ids.len() as u32 },
    }
}

#[test]
fn duration_full_form() {
    assert_eq!(parse_iso_duration("PT1H2M3S"), 3723000);
}

#[test]
fn duration_seconds_only() {
    assert_eq!(parse_iso_duration("PT45S"), 45000);
}

#[test]
fn duration_no_groups() {
    assert_eq!(parse_iso_duration("PT"), 0);
}

#[test]
fn duration_malformed() {
    assert_eq!(parse_iso_duration("abc"), 0);
    assert_eq!(parse_iso_duration(""), 0);
    assert_eq!(parse_iso_duration("P"), 0);
}

#[test]
fn duration_minutes_and_seconds() {
    assert_eq!(parse_iso_duration("PT4M13S"), 253000);
    assert_eq!(parse_iso_duration("PT3M"), 180000);
}

#[test]
fn duration_found_inside_text() {
    assert_eq!(parse_iso_duration("xxPT5Myy"), 300000);
}

#[test]
fn duration_group_without_unit_stops() {
    // "12" is not followed by H, M or S, so no group is read.
    assert_eq!(parse_iso_duration("PT12X"), 0);
    // groups out of order are not read
    assert_eq!(parse_iso_duration("PT3S2M"), 3000);
}

#[test]
fn duration_too_large_is_unknown() {
    assert_eq!(parse_iso_duration("PT2000H"), 0);
    assert_eq!(parse_iso_duration("PT99999999999H5S"), 5000);
}

#[test]
fn score_all_bonuses() {
    let v = video("a", "Artist - Song - Official Audio", "Artist - Topic");
    assert_eq!(score_candidate(&v, 200000, "Artist", "Song", 200000), 15);
    // the title holds the song name but not this artist name
    let v = video("a", "Song - Official Audio", "Artist - Topic");
    assert_eq!(score_candidate(&v, 200000, "Artist", "Song", 200000), 14);
    // with an artist name that the title holds, every bonus is earned
    assert_eq!(score_candidate(&v, 200000, "Official", "Song", 200000), 15);
}

#[test]
fn score_lowercases_names() {
    let v = video("a", "my SONG by the artist", "Someone");
    assert_eq!(score_candidate(&v, 0, "The ARTIST", "My Song", 1000), 2);
}

#[test]
fn score_given_folded_text() {
    assert_eq!(
        match_score("Artist - Topic", "Artist - Song - Official Audio", "artist - song - official audio", "artist", "song", 5000, 5000),
        15
    );
    assert_eq!(match_score("x", "Full Audio Song", "full audio song", "zz", "yy", 0, 5000), 3);
    assert_eq!(match_score("x", "Official Video", "official video", "zz", "yy", 0, 5000), 3);
}

#[test]
fn score_duration_tiers() {
    let s = |d: u32| match_score("x", "y", "y", "zz", "qq", d, 100000);
    assert_eq!(s(101000), 7);
    assert_eq!(s(99000), 7);
    assert_eq!(s(101500), 5);
    assert_eq!(s(98000), 5);
    assert_eq!(s(103000), 2);
    assert_eq!(s(95000), 2);
    assert_eq!(s(106000), 0);
    assert_eq!(s(0), 0);
}

#[test]
fn best_first_of_equals() {
    let scores = vec![3, 5, 5, 1];
    assert_eq!(best_candidate(&scores), 1);
    assert_eq!(best_candidate(&scores), best_candidate(&scores));
}

#[test]
fn best_single_zero_score() {
    assert_eq!(best_candidate(&vec![0]), 0);
}

#[test]
fn best_match_prefers_topic_and_duration() {
    let items = vec![
        video("a", "Song live", "Fan"),
        video("b", "Song", "Artist - Topic"),
        video("c", "Song", "Artist - Topic"),
    ];
    let durations = vec![200000, 200000, 200000];
    assert_eq!(best_match(&items, &durations, "Artist", "Song", 200000), 1);
    let durations = vec![200000, 0, 200500];
    assert_eq!(best_match(&items, &durations, "Artist", "Song", 200000), 2);
}

#[test]
fn resolve_gives_watch_page() {
    let items = vec![video("abc", "Song", "Artist - Topic")];
    assert_eq!(
        resolve_match(&items, &vec![0], "Artist", "Song", 1000),
        Ok("https://www.youtube.com/watch?v=abc".to_string())
    );
}

#[test]
fn placeholder_is_no_match() {
    assert_eq!(song_url("dQw4w9WgXcQ"), Err(ResolveError::NoMatch));
    let items = vec![video("dQw4w9WgXcQ", "Song - Official Audio", "Artist - Topic"), video("x", "other", "c")];
    assert_eq!(resolve_match(&items, &vec![0, 0], "Artist", "Song", 1000), Err(ResolveError::NoMatch));
}

#[test]
fn ordinary_id_is_watch_page() {
    assert_eq!(song_url("abc"), Ok("https://www.youtube.com/watch?v=abc".to_string()));
}

#[test]
fn race_lowest_index_success_wins() {
    let answers = vec![None, Some(answer(&["second"])), Some(answer(&["third"]))];
    let found = select_search_result(answers).unwrap();
    assert_eq!(found.items[0].id.video_id, "second");
}

#[test]
fn race_skips_empty_answers() {
    let answers = vec![Some(answer(&[])), None, Some(answer(&["third", "fourth"]))];
    let found = select_search_result(answers).unwrap();
    assert_eq!(found.items.len(), 2);
    assert_eq!(found.items[0].id.video_id, "third");
}

#[test]
fn race_all_failed_is_exhausted() {
    let answers = vec![None, None, None];
    assert_eq!(select_search_result(answers).unwrap_err(), ResolveError::SearchExhausted);
    assert_eq!(select_search_result(vec![]).unwrap_err(), ResolveError::SearchExhausted);
}

#[test]
fn race_only_empty_answers_is_exhausted() {
    let answers = vec![None, Some(answer(&[]))];
    assert_eq!(select_search_result(answers).unwrap_err(), ResolveError::SearchExhausted);
    let answers = vec![Some(answer(&[])), Some(answer(&[]))];
    assert_eq!(select_search_result(answers).unwrap_err(), ResolveError::SearchExhausted);
}
