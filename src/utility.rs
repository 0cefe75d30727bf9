use vstd::prelude::*;

verus! {

/// The most copies the repeat utility hands out.
pub const MAX_REPEAT_COUNT: u32 = 100000;

/// Why the repeat utility refused a request.
#[derive(Debug, Clone, Copy, PartialEq, Eq, Structural)]
pub enum RepeatError {
    /// More copies were asked for than the utility hands out.
    CountTooLarge,
    /// The request names no text.
    MissingText,
    /// The request's text is not valid percent-encoded UTF-8.
    UndecodableText,
    /// The request names no count, or one that is not a `u32`.
    MissingCount,
}

/// `count` copies of `text`; more than the utility hands out is refused.
pub fn repeat_text(text: &str, count: u32) -> (r: Result<Vec<String>, RepeatError>)
    ensures
        count > MAX_REPEAT_COUNT ==> r == Err::<Vec<String>, RepeatError>(
            RepeatError::CountTooLarge,
        ),
        count <= MAX_REPEAT_COUNT ==> r is Ok && r->Ok_0.len() == count && forall|i: int|
            0 <= i < count ==> #[trigger] r->Ok_0@[i]@ == text@,
{
    if count > MAX_REPEAT_COUNT {
        return Err(RepeatError::CountTooLarge);
    }
    let mut copies: Vec<String> = Vec::new();
    let mut i: u32 = 0;
    while i < count
        invariant
            i <= count,
            copies.len() == i,
            forall|j: int| 0 <= j < i ==> #[trigger] copies@[j]@ == text@,
        decreases count - i,
    {
        copies.push(text.to_owned());
        i = i + 1;
    }
    Ok(copies)
}

/// The counters one analytics update adds to.
#[derive(Debug, Clone, Copy, PartialEq, Eq, Structural)]
pub struct AnalyticsIncrement {
    pub iso_total_calls: i64,
    pub meso_total_calls: i64,
    pub meso_songs_converted: i64,
    pub meso_playlists_converted: i64,
}

/// What one successful conversion adds to the usage counters: five upstream
/// calls per song, one call, and the songs and playlists converted.
pub fn analytics_increment(songs_converted: u32, playlists_converted: u32) -> (r:
    AnalyticsIncrement)
    ensures
        r.iso_total_calls == 5 * songs_converted,
        r.meso_total_calls == 1,
        r.meso_songs_converted == songs_converted,
        r.meso_playlists_converted == playlists_converted,
{
    AnalyticsIncrement {
        iso_total_calls: 5 * songs_converted as i64,
        meso_total_calls: 1,
        meso_songs_converted: songs_converted as i64,
        meso_playlists_converted: playlists_converted as i64,
    }
}

} // verus!
