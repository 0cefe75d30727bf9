use vstd::prelude::*;
use crate::duration::{iso_duration_ms, parse_iso_duration};
use crate::resolve::ResolveError;
use crate::youtube::{YouTubeSearchResponse, YouTubeVideoDetails};

verus! {

/// A search answer that can be used: the request succeeded and found something.
pub open spec fn search_succeeded(answer: Option<YouTubeSearchResponse>) -> bool {
    answer is Some && answer->0.items.len() > 0
}

/// `i` is the lowest-index key whose search answer can be used.
pub open spec fn is_first_success(answers: Seq<Option<YouTubeSearchResponse>>, i: int) -> bool {
    &&& 0 <= i < answers.len()
    &&& search_succeeded(answers[i])
    &&& forall|j: int| 0 <= j < i ==> !search_succeeded(#[trigger] answers[j])
}

/// Chooses among the answers of a search sent with every key of the pool at
/// once: `answers[i]` is what key `i` brought back, `None` where the request,
/// its status or its body failed. The answer of the lowest-index key that
/// found something wins, whatever order the answers arrived in. A key that
/// found nothing counts as failed, and when every key failed the pool is
/// exhausted.
pub fn select_search_result(answers: Vec<Option<YouTubeSearchResponse>>) -> (r: Result<
    YouTubeSearchResponse,
    ResolveError,
>)
    ensures
        (forall|i: int| 0 <= i < answers@.len() ==> !search_succeeded(#[trigger] answers@[i])) ==> r
            == Err::<YouTubeSearchResponse, ResolveError>(ResolveError::SearchExhausted),
        match r {
            Ok(found) => exists|i: int|
                is_first_success(answers@, i) && answers@[i] == Some(found),
            Err(ResolveError::SearchExhausted) => forall|i: int|
                0 <= i < answers@.len() ==> !search_succeeded(#[trigger] answers@[i]),
            Err(_) => false,
        },
{
    let ghost given = answers@;
    let mut pool = answers;
    let mut i: usize = 0;
    while i < pool.len()
        invariant
            pool@ == given,
            given == answers@,
            i <= pool.len(),
            forall|j: int| 0 <= j < i ==> !search_succeeded(#[trigger] pool@[j]),
        decreases pool.len() - i,
    {
        let usable = match &pool[i] {
            Some(found) => found.items.len() > 0,
            None => false,
        };
        if usable {
            let chosen = pool.remove(i);
            assert(is_first_success(given, i as int));
            return match chosen {
                Some(found) => {
                    assert(is_first_success(given, i as int) && given[i as int] == Some(found));
                    Ok(found)
                },
                None => Err(ResolveError::SearchExhausted),
            };
        }
        i = i + 1;
    }
    Err(ResolveError::SearchExhausted)
}

/// The duration a details answer reports: that of its first video, if any.
pub open spec fn details_duration(details: YouTubeVideoDetails) -> Option<nat> {
    if details.items.len() > 0 {
        Some(iso_duration_ms(details.items[0].content_details.duration@))
    } else {
        None
    }
}

/// Reads the duration of the first video of a details answer.
pub fn duration_from_details(details: &YouTubeVideoDetails) -> (r: Option<u32>)
    ensures
        match details_duration(*details) {
            Some(d) => r == Some(d as u32) && d <= u32::MAX,
            None => r is None,
        },
{
    if details.items.len() > 0 {
        Some(parse_iso_duration(details.items[0].content_details.duration.as_str()))
    } else {
        None
    }
}

/// What to do next when looking up a video's duration with the keys of the
/// pool one after the other.
#[derive(Debug, Clone, Copy, PartialEq, Eq, Structural)]
pub enum LookupStep {
    /// Send the details request with the key of this index.
    Request(usize),
    /// The lookup is over, with this duration; 0 where no key succeeded.
    Done(u32),
}

/// The first step of a duration lookup over `n_keys` keys.
pub fn first_lookup_step(n_keys: usize) -> (r: LookupStep)
    ensures
        n_keys > 0 ==> r == LookupStep::Request(0),
        n_keys == 0 ==> r == LookupStep::Done(0),
{
    if n_keys > 0 {
        LookupStep::Request(0)
    } else {
        LookupStep::Done(0)
    }
}

/// The step after the request with key `attempt`, whose parsed answer is
/// `answer` (`None` where the request, its status or its body failed). The
/// first answer that reports a duration ends the lookup; otherwise the next
/// key is tried, and once every key has failed the duration is unknown (0).
pub fn next_lookup_step(n_keys: usize, attempt: usize, answer: &Option<YouTubeVideoDetails>) -> (r:
    LookupStep)
    requires
        attempt < n_keys,
    ensures
        match answer {
            Some(details) if details_duration(*details) is Some => r == LookupStep::Done(
                details_duration(*details)->0 as u32,
            ),
            _ => if attempt + 1 < n_keys {
                r == LookupStep::Request((attempt + 1) as usize)
            } else {
                r == LookupStep::Done(0)
            },
        },
{
    let found = match answer {
        Some(details) => duration_from_details(details),
        None => None,
    };
    match found {
        Some(d) => LookupStep::Done(d),
        None => if attempt + 1 < n_keys {
            LookupStep::Request(attempt + 1)
        } else {
            LookupStep::Done(0)
        },
    }
}

} // verus!
