use vstd::prelude::*;

verus! {

/// One page of answers of the video search endpoint.
#[derive(Debug)]
pub struct YouTubeSearchResponse {
    pub items: Vec<YouTubeVideo>,
    pub page_info: YouTubePageInfo,
}

/// The paging summary of a search answer.
#[derive(Debug)]
pub struct YouTubePageInfo {
    pub total_results: u32,
}

/// A candidate video found by a search.
#[derive(Debug)]
pub struct YouTubeVideo {
    pub id: YouTubeVideoId,
    pub snippet: YouTubeSnippet,
}

/// The identifier of a found video.
#[derive(Debug)]
pub struct YouTubeVideoId {
    pub video_id: String,
}

/// The descriptive text of a found video.
#[derive(Debug)]
pub struct YouTubeSnippet {
    pub title: String,
    pub channel_title: String,
}

/// The answer of the video details endpoint.
#[derive(Debug)]
pub struct YouTubeVideoDetails {
    pub items: Vec<YouTubeVideoDetailsItem>,
}

/// One video of a details answer.
#[derive(Debug)]
pub struct YouTubeVideoDetailsItem {
    pub content_details: YouTubeContentDetails,
}

/// The content details of a video: its ISO 8601 duration.
#[derive(Debug)]
pub struct YouTubeContentDetails {
    pub duration: String,
}

} // verus!
