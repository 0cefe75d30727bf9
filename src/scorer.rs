use vstd::prelude::*;
use crate::text::{has_substring, lower_of, lowercase, str_contains};
use crate::youtube::YouTubeVideo;

verus! {

/// The bonus for how close a video's duration is to the target; an unknown
/// duration (0) earns nothing.
pub open spec fn duration_bonus(video_ms: u32, target_ms: u32) -> int {
    let diff = if video_ms >= target_ms {
        video_ms - target_ms
    } else {
        target_ms - video_ms
    };
    if video_ms == 0 {
        0
    } else if diff <= 1000 {
        7
    } else if diff <= 2000 {
        5
    } else if diff <= 5000 {
        2
    } else {
        0
    }
}

/// The title marks the upload as an official release.
pub open spec fn has_official_marker(title: Seq<char>) -> bool {
    has_substring(title, "Official Audio"@) || has_substring(title, "Official Video"@)
        || has_substring(title, "Full Audio Song"@)
}

/// The score of a candidate, given its title and the artist and song names
/// already lowercased.
pub open spec fn match_score_spec(
    channel_title: Seq<char>,
    title: Seq<char>,
    title_lower: Seq<char>,
    artist_lower: Seq<char>,
    song_lower: Seq<char>,
    video_ms: u32,
    target_ms: u32,
) -> int {
    (if has_substring(channel_title, "Topic"@) {
        3int
    } else {
        0int
    }) + (if has_official_marker(title) {
        3int
    } else {
        0int
    }) + (if has_substring(title_lower, artist_lower) {
        1int
    } else {
        0int
    }) + (if has_substring(title_lower, song_lower) {
        1int
    } else {
        0int
    }) + duration_bonus(video_ms, target_ms)
}

/// The score of a candidate video against the artist, song and duration sought.
pub open spec fn candidate_score(
    video: YouTubeVideo,
    video_ms: u32,
    artist: Seq<char>,
    song: Seq<char>,
    target_ms: u32,
) -> int {
    match_score_spec(
        video.snippet.channel_title@,
        video.snippet.title@,
        lower_of(video.snippet.title@),
        lower_of(artist),
        lower_of(song),
        video_ms,
        target_ms,
    )
}

/// The scores of all candidates, index by index.
pub open spec fn candidate_scores(
    items: Seq<YouTubeVideo>,
    durations: Seq<u32>,
    artist: Seq<char>,
    song: Seq<char>,
    target_ms: u32,
) -> Seq<int> {
    Seq::new(items.len(), |i: int| candidate_score(items[i], durations[i], artist, song, target_ms))
}

/// `i` holds the highest score, and no earlier index holds as much.
pub open spec fn is_best(scores: Seq<int>, i: int) -> bool {
    &&& 0 <= i < scores.len()
    &&& forall|j: int| 0 <= j < scores.len() ==> #[trigger] scores[j] <= scores[i]
    &&& forall|j: int| 0 <= j < i ==> #[trigger] scores[j] < scores[i]
}

/// The scores as mathematical integers.
pub open spec fn score_values(scores: Seq<i64>) -> Seq<int> {
    Seq::new(scores.len(), |i: int| scores[i] as int)
}

/// Scores one candidate whose title, artist name and song name have already
/// been lowercased.
pub fn match_score(
    channel_title: &str,
    title: &str,
    title_lower: &str,
    artist_lower: &str,
    song_lower: &str,
    video_ms: u32,
    target_ms: u32,
) -> (r: i64)
    ensures
        r as int == match_score_spec(
            channel_title@,
            title@,
            title_lower@,
            artist_lower@,
            song_lower@,
            video_ms,
            target_ms,
        ),
{
    let mut score: i64 = 0;
    if str_contains(channel_title, "Topic") {
        score = score + 3;
    }
    if str_contains(title, "Official Audio") || str_contains(title, "Official Video")
        || str_contains(title, "Full Audio Song") {
        score = score + 3;
    }
    if str_contains(title_lower, artist_lower) {
        score = score + 1;
    }
    if str_contains(title_lower, song_lower) {
        score = score + 1;
    }
    if video_ms > 0 {
        let diff: i64 = if video_ms >= target_ms {
            (video_ms - target_ms) as i64
        } else {
            (target_ms - video_ms) as i64
        };
        if diff <= 1000 {
            score = score + 7;
        } else if diff <= 2000 {
            score = score + 5;
        } else if diff <= 5000 {
            score = score + 2;
        }
    }
    score
}

/// Scores a candidate video against the artist, song and duration sought.
pub fn score_candidate(
    video: &YouTubeVideo,
    video_ms: u32,
    artist_name: &str,
    song_name: &str,
    target_ms: u32,
) -> (r: i64)
    ensures
        r as int == candidate_score(*video, video_ms, artist_name@, song_name@, target_ms),
{
    let title_lower = lowercase(video.snippet.title.as_str());
    let artist_lower = lowercase(artist_name);
    let song_lower = lowercase(song_name);
    match_score(
        video.snippet.channel_title.as_str(),
        video.snippet.title.as_str(),
        title_lower.as_str(),
        artist_lower.as_str(),
        song_lower.as_str(),
        video_ms,
        target_ms,
    )
}

/// The index of the first highest score.
pub fn best_candidate(scores: &Vec<i64>) -> (r: usize)
    requires
        scores.len() > 0,
    ensures
        is_best(score_values(scores@), r as int),
{
    let mut best: usize = 0;
    let mut i: usize = 1;
    while i < scores.len()
        invariant
            scores.len() > 0,
            1 <= i <= scores.len(),
            best < i,
            forall|j: int| 0 <= j < i ==> #[trigger] scores@[j] <= scores@[best as int],
            forall|j: int| 0 <= j < best ==> #[trigger] scores@[j] < scores@[best as int],
        decreases scores.len() - i,
    {
        if scores[i] > scores[best] {
            best = i;
        }
        i = i + 1;
    }
    best
}

/// Picks the candidate that best matches the artist, song and duration
/// sought; `durations[i]` is the duration of `items[i]`, 0 where unknown.
pub fn best_match(
    items: &Vec<YouTubeVideo>,
    durations: &Vec<u32>,
    artist_name: &str,
    song_name: &str,
    target_ms: u32,
) -> (r: usize)
    requires
        items.len() > 0,
        durations.len() == items.len(),
    ensures
        is_best(candidate_scores(items@, durations@, artist_name@, song_name@, target_ms), r as int),
{
    let mut scores: Vec<i64> = Vec::new();
    let mut i: usize = 0;
    while i < items.len()
        invariant
            durations.len() == items.len(),
            i <= items.len(),
            scores.len() == i,
            forall|j: int| 0 <= j < i ==> #[trigger] scores@[j] as int == candidate_score(
                items@[j],
                durations@[j],
                artist_name@,
                song_name@,
                target_ms,
            ),
        decreases items.len() - i,
    {
        let s = score_candidate(&items[i], durations[i], artist_name, song_name, target_ms);
        scores.push(s);
        i = i + 1;
    }
    let r = best_candidate(&scores);
    assert(score_values(scores@) =~= candidate_scores(
        items@,
        durations@,
        artist_name@,
        song_name@,
        target_ms,
    ));
    r
}

/// Two picks that both meet the rule of the first highest score are the same
/// pick: the winner depends on the scores alone, and ties go to the earliest.
pub proof fn lemma_best_is_unique(scores: Seq<int>, a: int, b: int)
    requires
        is_best(scores, a),
        is_best(scores, b),
    ensures
        a == b,
{
    if a < b {
        assert(scores[a] < scores[b]);
        assert(scores[b] <= scores[a]);
    } else if b < a {
        assert(scores[b] < scores[a]);
        assert(scores[a] <= scores[b]);
    }
}

} // verus!
