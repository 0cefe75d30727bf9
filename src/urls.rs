use vstd::prelude::*;
use vstd::string::StringSliceAdditionalSpecFns;

verus! {

/// A byte that percent-encoding leaves as it is: ASCII letters, digits and `-._~`.
pub open spec fn is_unreserved(b: u8) -> bool {
    (48 <= b <= 57) || (65 <= b <= 90) || (97 <= b <= 122) || b == 45 || b == 46 || b == 95
        || b == 126
}

/// The uppercase hexadecimal digit of `d`, for `d < 16`.
pub open spec fn hex_digit(d: u8) -> char {
    if d < 10 {
        ((48 + d) as u8) as char
    } else {
        ((55 + d) as u8) as char
    }
}

/// `bytes` with every byte but the unreserved ones written as `%XX`.
pub open spec fn percent_encoded(bytes: Seq<u8>) -> Seq<char>
    decreases bytes.len(),
{
    if bytes.len() == 0 {
        Seq::empty()
    } else {
        let b = bytes[0];
        let head = if is_unreserved(b) {
            seq![b as char]
        } else {
            seq!['%', hex_digit(b / 16), hex_digit(b % 16)]
        };
        head + percent_encoded(bytes.drop_first())
    }
}

/// Relies on `urlencoding::encode`: every byte of the UTF-8 text except ASCII
/// letters, digits and `-._~` becomes `%` and two uppercase hex digits.
#[verifier::external_body]
fn url_encode(s: &str) -> (r: String)
    ensures
        r@ == percent_encoded(s.spec_bytes()),
{
    urlencoding::encode(s).into_owned()
}

/// The reserved placeholder video, which never counts as a real match.
pub const PLACEHOLDER_VIDEO_ID: &'static str = "dQw4w9WgXcQ";

/// The text searched for a track.
pub open spec fn search_query_spec(song: Seq<char>, album: Seq<char>, artist: Seq<char>) -> Seq<
    char,
> {
    song + " "@ + album + " "@ + artist + " Official Audio"@
}

/// Builds the text searched for a track: its name, album and artist, and the
/// words "Official Audio".
pub fn search_query(song_name: &str, album_name: &str, artist_name: &str) -> (r: String)
    ensures
        r@ == search_query_spec(song_name@, album_name@, artist_name@),
{
    let mut q = song_name.to_owned();
    q.append(" ");
    q.append(album_name);
    q.append(" ");
    q.append(artist_name);
    q.append(" Official Audio");
    q
}

/// The search request for `query`, sent with `api_key`.
pub fn search_url(query: &str, api_key: &str) -> (r: String)
    ensures
        r@ == "https://youtube.googleapis.com/youtube/v3/search?part=snippet&q="@
            + percent_encoded(query.spec_bytes()) + "&type=video&maxResults=10&key="@ + api_key@,
{
    let encoded = url_encode(query);
    let mut url = "https://youtube.googleapis.com/youtube/v3/search?part=snippet&q=".to_owned();
    url.append(encoded.as_str());
    url.append("&type=video&maxResults=10&key=");
    url.append(api_key);
    url
}

/// The details request for one video, sent with `api_key`.
pub fn video_details_url(api_key: &str, video_id: &str) -> (r: String)
    ensures
        r@ == "https://youtube.googleapis.com/youtube/v3/videos?part=contentDetails&key="@
            + api_key@ + "&id="@ + video_id@,
{
    let mut url = "https://youtube.googleapis.com/youtube/v3/videos?part=contentDetails&key=".to_owned();
    url.append(api_key);
    url.append("&id=");
    url.append(video_id);
    url
}

/// The page that plays a video.
pub fn watch_url(video_id: &str) -> (r: String)
    ensures
        r@ == "https://www.youtube.com/watch?v="@ + video_id@,
{
    let mut url = "https://www.youtube.com/watch?v=".to_owned();
    url.append(video_id);
    url
}

/// The Spotify request for one track.
pub fn track_url(track_id: &str) -> (r: String)
    ensures
        r@ == "https://api.spotify.com/v1/tracks/"@ + track_id@,
{
    let mut url = "https://api.spotify.com/v1/tracks/".to_owned();
    url.append(track_id);
    url
}

/// The Spotify request for the tracks of one playlist.
pub fn playlist_tracks_url(playlist_id: &str) -> (r: String)
    ensures
        r@ == "https://api.spotify.com/v1/playlists/"@ + playlist_id@ + "/tracks"@,
{
    let mut url = "https://api.spotify.com/v1/playlists/".to_owned();
    url.append(playlist_id);
    url.append("/tracks");
    url
}

} // verus!
