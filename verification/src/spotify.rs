use vstd::prelude::*;

use crate::duration::TimeSpan;
use crate::text::{join_with, push_str, string_views};
use crate::youtube::{capture_group, regex_compiles, regex_group, regex_matches};
use crate::track::{MusicError, TrackMetadata, TrackMetadataView};

verus! {

/// The start of the pattern of Spotify links, up to the kind of link.
pub const SPOTIFY_PATTERN_HEAD: &'static str = r"^(https?://)?(open\.spotify\.com|spotify)/";

/// The end of the pattern of Spotify links, after the kind of link: the third group is
/// the ID.
pub const SPOTIFY_PATTERN_TAIL: &'static str = r"/([a-zA-Z0-9]+)(\?.*)?$";

/// The pattern of Spotify links of the given kind (`track`, `playlist` or `album`).
pub open spec fn spotify_pattern(kind: Seq<char>) -> Seq<char> {
    SPOTIFY_PATTERN_HEAD@ + kind + SPOTIFY_PATTERN_TAIL@
}

/// The ID of a Spotify link of the given kind: the third group of the match of the
/// kind's pattern, where the pattern compiles and matches.
pub open spec fn spotify_id_spec(s: Seq<char>, kind: Seq<char>) -> Option<Seq<char>> {
    let p = spotify_pattern(kind);
    if regex_compiles(p) && regex_matches(p, s) {
        regex_group(p, s, 3)
    } else {
        None
    }
}

/// The ID of a Spotify link of kind `kind`, as `spotify_id_spec` describes it.
pub fn spotify_id(url: &str, kind: &str) -> (r: Option<String>)
    ensures
        match spotify_id_spec(url@, kind@) {
            Some(id) => r matches Some(x) && x@ == id,
            None => r is None,
        },
{
    let mut pattern = SPOTIFY_PATTERN_HEAD.to_string();
    push_str(&mut pattern, kind);
    push_str(&mut pattern, SPOTIFY_PATTERN_TAIL);
    match capture_group(pattern.as_str(), url, 3) {
        Some(Some(Some(id))) => Some(id),
        _ => None,
    }
}

/// Whether `url` is a Spotify track, playlist or album link.
pub open spec fn spotify_url_spec(url: Seq<char>) -> bool {
    spotify_id_spec(url, "track"@) is Some || spotify_id_spec(url, "playlist"@) is Some
        || spotify_id_spec(url, "album"@) is Some
}

/// Talks to the Spotify API.
pub struct SpotifyApi;

impl SpotifyApi {
    /// Whether `url` is a Spotify track, playlist or album link.
    pub fn is_spotify_url(url: &str) -> (b: bool)
        ensures
            b == spotify_url_spec(url@),
    {
        spotify_id(url, "track").is_some() || spotify_id(url, "playlist").is_some() || spotify_id(
            url,
            "album",
        ).is_some()
    }

    /// The track ID of a Spotify track link.
    pub fn extract_track_id(url: &str) -> (r: Option<String>)
        ensures
            match spotify_id_spec(url@, "track"@) {
                Some(id) => r matches Some(x) && x@ == id,
                None => r is None,
            },
    {
        spotify_id(url, "track")
    }

    /// The playlist ID of a Spotify playlist link.
    pub fn extract_playlist_id(url: &str) -> (r: Option<String>)
        ensures
            match spotify_id_spec(url@, "playlist"@) {
                Some(id) => r matches Some(x) && x@ == id,
                None => r is None,
            },
    {
        spotify_id(url, "playlist")
    }

    /// The album ID of a Spotify album link.
    pub fn extract_album_id(url: &str) -> (r: Option<String>)
        ensures
            match spotify_id_spec(url@, "album"@) {
                Some(id) => r matches Some(x) && x@ == id,
                None => r is None,
            },
    {
        spotify_id(url, "album")
    }
}

} // verus!

verus! {

/// A Spotify track: its name and the names of its artists.
#[derive(Debug, Clone, PartialEq)]
pub struct SpotifyTrack {
    pub name: String,
    pub artists: Vec<String>,
}

/// The YouTube search text for a Spotify track: `NAME by ARTIST1, ARTIST2 audio`.
pub open spec fn youtube_query_spec(name: Seq<char>, artists: Seq<Seq<char>>) -> Seq<char> {
    name + " by "@ + join_with(artists, ", "@) + " audio"@
}

impl SpotifyApi {
    /// The YouTube search text for a Spotify track.
    pub fn get_youtube_search_query(track: &SpotifyTrack) -> (q: String)
        ensures
            q@ == youtube_query_spec(track.name@, string_views(track.artists@)),
    {
        let mut q = track.name.clone();
        push_str(&mut q, " by ");
        let ghost start = q@;
        let mut i: usize = 0;
        while i < track.artists.len()
            invariant
                i <= track.artists.len(),
                q@ == start + join_with(string_views(track.artists@.take(i as int)), ", "@),
            decreases track.artists.len() - i,
        {
            assert(string_views(track.artists@.take(i + 1)).drop_last() == string_views(
                track.artists@.take(i as int),
            ));
            if i > 0 {
                push_str(&mut q, ", ");
            }
            push_str(&mut q, track.artists[i].as_str());
            i = i + 1;
        }
        assert(track.artists@.take(track.artists@.len() as int) == track.artists@);
        push_str(&mut q, " audio");
        q
    }
}

/// The answer of Spotify's token endpoint.
pub struct SpotifyToken {
    pub access_token: String,
    pub token_type: String,
    /// Seconds for which the token is valid.
    pub expires_in: u64,
}

impl SpotifyToken {
    /// Whether the token, `elapsed` after it was issued, is to be treated as expired: it
    /// is, once more than its lifetime less thirty seconds (zero at least) has passed.
    pub fn is_expired(&self, elapsed: TimeSpan) -> (b: bool)
        requires
            elapsed.wf(),
        ensures
            b == (elapsed.total_nanos() > if self.expires_in >= 30 {
                (self.expires_in - 30) * 1_000_000_000int
            } else {
                0
            }),
    {
        let expiry = TimeSpan::from_secs(self.expires_in);
        let margin = TimeSpan::from_secs(30);
        let limit = expiry.saturating_sub(&margin);
        elapsed.longer_than(&limit)
    }
}

/// The `Authorization` value for the client-credentials request: `Basic ` followed by
/// the base64 form of `ID:SECRET`.
pub fn basic_auth_header(client_id: &str, client_secret: &str) -> (h: String)
    ensures
        h@ == "Basic "@ + crate::encoding::base64_encoded(
            crate::text::utf8_of(client_id@ + ":"@ + client_secret@),
        ),
{
    let mut pair = client_id.to_string();
    push_str(&mut pair, ":");
    push_str(&mut pair, client_secret);
    let encoded = crate::encoding::base64_encode(pair.as_str().as_bytes());
    let mut h = "Basic ".to_string();
    push_str(&mut h, encoded.as_str());
    h
}

/// The fields of one track object of a Spotify answer that the library reads.
#[derive(Debug, Clone, PartialEq)]
pub struct SpotifyTrackObject {
    /// The object has an `id` that is not `null`.
    pub has_id: bool,
    /// `name`, where it is a string.
    pub name: Option<String>,
    /// The `name` of each entry of `artists` (where it is a string), or `None` where
    /// `artists` is not a list.
    pub artist_names: Option<Vec<Option<String>>>,
}

/// The artist names that are strings, in order.
pub open spec fn present_names(names: Seq<Option<String>>) -> Seq<Seq<char>>
    decreases names.len(),
{
    if names.len() == 0 {
        seq![]
    } else {
        let prev = present_names(names.drop_last());
        match names.last() {
            Some(n) => prev.push(n@),
            None => prev,
        }
    }
}

/// The artists of a track object.
pub open spec fn artists_of(obj: SpotifyTrackObject) -> Seq<Seq<char>> {
    match obj.artist_names {
        Some(names) => present_names(names@),
        None => seq![],
    }
}

/// A track as the library reads it: name and artists.
pub struct SpotifyTrackView {
    pub name: Seq<char>,
    pub artists: Seq<Seq<char>>,
}

impl View for SpotifyTrack {
    type V = SpotifyTrackView;

    open spec fn view(&self) -> SpotifyTrackView {
        SpotifyTrackView { name: self.name@, artists: string_views(self.artists@) }
    }
}

/// The tracks of a page of items (`None`: an item that is not a track object), or
/// `None` where a kept track has no name. Items without an ID are skipped.
pub open spec fn page_tracks(items: Seq<Option<SpotifyTrackObject>>) -> Option<Seq<SpotifyTrackView>>
    decreases items.len(),
{
    if items.len() == 0 {
        Some(seq![])
    } else {
        match page_tracks(items.drop_last()) {
            None => None,
            Some(prev) => match items.last() {
                None => Some(prev),
                Some(obj) => if !obj.has_id {
                    Some(prev)
                } else {
                    match obj.name {
                        None => None,
                        Some(n) => Some(prev.push(SpotifyTrackView { name: n@, artists: artists_of(obj) })),
                    }
                },
            },
        }
    }
}

/// The names in `names` that are strings.
pub fn collect_names(names: &Vec<Option<String>>) -> (r: Vec<String>)
    ensures
        string_views(r@) == present_names(names@),
{
    let mut r: Vec<String> = Vec::new();
    for i in 0..names.len()
        invariant
            string_views(r@) == present_names(names@.take(i as int)),
    {
        assert(names@.take(i + 1).drop_last() == names@.take(i as int));
        assert(names@.take(i + 1).last() == names@[i as int]);
        match &names[i] {
            Some(n) => {
                let ghost before = r@;
                r.push(n.clone());
                assert(string_views(r@) =~= string_views(before).push(n@));
            },
            None => {},
        }
    }
    assert(names@.take(names.len() as int) == names@);
    r
}

/// The track that a track object with a name describes.
pub fn track_from_object(obj: &SpotifyTrackObject) -> (r: Result<SpotifyTrack, MusicError>)
    ensures
        match obj.name {
            Some(n) => r matches Ok(t) && t@ == (SpotifyTrackView { name: n@, artists: artists_of(*obj) }),
            None => r matches Err(MusicError::ExternalApiError(m)) && m@ == "Missing track name"@,
        },
{
    match &obj.name {
        None => Err(MusicError::ExternalApiError("Missing track name".to_string())),
        Some(n) => {
            let artists = match &obj.artist_names {
                Some(names) => collect_names(names),
                None => Vec::new(),
            };
            assert(string_views(artists@) =~= artists_of(*obj));
            Ok(SpotifyTrack { name: n.clone(), artists })
        },
    }
}

/// Adds the tracks of one page of a playlist or album to `tracks`: items that are not
/// track objects or have no ID are skipped; a kept track without a name is an error.
pub fn collect_page_tracks(items: &Vec<Option<SpotifyTrackObject>>, tracks: &mut Vec<SpotifyTrack>) -> (r: Result<(), MusicError>)
    ensures
        match page_tracks(items@) {
            Some(found) => r is Ok && final(tracks)@.map_values(|t: SpotifyTrack| t@) == old(tracks)@.map_values(|t: SpotifyTrack| t@) + found,
            None => r matches Err(MusicError::ExternalApiError(m)) && m@ == "Missing track name"@,
        },
{
    let ghost start = tracks@.map_values(|t: SpotifyTrack| t@);
    let mut i: usize = 0;
    while i < items.len()
        invariant
            i <= items.len(),
            page_tracks(items@.take(i as int)) matches Some(found) && tracks@.map_values(|t: SpotifyTrack| t@) == start + found,
        decreases items.len() - i,
    {
        assert(items@.take(i + 1).drop_last() == items@.take(i as int));
        assert(items@.take(i + 1).last() == items@[i as int]);
        match &items[i] {
            None => {},
            Some(obj) => {
                if obj.has_id {
                    match track_from_object(obj) {
                        Err(e) => {
                            proof {
                                lemma_page_tracks_error_stays(items@, i as int + 1, items@.len() as int);
                                assert(items@.take(items@.len() as int) == items@);
                            }
                            return Err(e);
                        },
                        Ok(t) => {
                            let ghost before = tracks@.map_values(|t: SpotifyTrack| t@);
                            tracks.push(t);
                            assert(tracks@.map_values(|t: SpotifyTrack| t@) =~= before.push(t@));
                        },
                    }
                }
            },
        }
        i = i + 1;
    }
    assert(items@.take(items@.len() as int) == items@);
    Ok(())
}

proof fn lemma_page_tracks_error_stays(items: Seq<Option<SpotifyTrackObject>>, i: int, j: int)
    requires
        0 <= i <= j <= items.len(),
        page_tracks(items.take(i)) is None,
    ensures
        page_tracks(items.take(j)) is None,
    decreases j - i,
{
    if i < j {
        lemma_page_tracks_error_stays(items, i, j - 1);
        assert(items.take(j).drop_last() == items.take(j - 1));
    }
}

/// The kind of a Spotify link and its ID.
#[derive(Debug, Clone, PartialEq)]
pub enum SpotifyLink {
    Track(String),
    Playlist(String),
    Album(String),
}

impl SpotifyApi {
    /// What a Spotify link refers to: a track link is read first, then a playlist link,
    /// then an album link; `None` for every other text.
    pub fn classify_link(url: &str) -> (r: Option<SpotifyLink>)
        ensures
            match spotify_id_spec(url@, "track"@) {
                Some(id) => r matches Some(SpotifyLink::Track(x)) && x@ == id,
                None => match spotify_id_spec(url@, "playlist"@) {
                    Some(id) => r matches Some(SpotifyLink::Playlist(x)) && x@ == id,
                    None => match spotify_id_spec(url@, "album"@) {
                        Some(id) => r matches Some(SpotifyLink::Album(x)) && x@ == id,
                        None => r is None,
                    },
                },
            },
    {
        if let Some(id) = SpotifyApi::extract_track_id(url) {
            Some(SpotifyLink::Track(id))
        } else if let Some(id) = SpotifyApi::extract_playlist_id(url) {
            Some(SpotifyLink::Playlist(id))
        } else if let Some(id) = SpotifyApi::extract_album_id(url) {
            Some(SpotifyLink::Album(id))
        } else {
            None
        }
    }
}

/// One page of the tracks of a playlist or album, as the library reads it.
pub struct SpotifyPage {
    /// The page's items (`None`: an item that is not a track object), or `None` where
    /// the answer has no list of items.
    pub items: Option<Vec<Option<SpotifyTrackObject>>>,
    /// The link of the next page, where there is one.
    pub next: Option<String>,
}

/// Reads one page of a playlist or album: its tracks join `tracks`, and the link of the
/// next page (if any) comes back. A kept track without a name is an error.
pub fn read_page(page: &SpotifyPage, tracks: &mut Vec<SpotifyTrack>) -> (r: Result<Option<String>, MusicError>)
    ensures
        match page.items {
            None => final(tracks)@ == old(tracks)@,
            Some(items) => match page_tracks(items@) {
                Some(found) => final(tracks)@.map_values(|t: SpotifyTrack| t@) == old(tracks)@.map_values(|t: SpotifyTrack| t@) + found,
                None => true,
            },
        },
        match page.items {
            Some(items) if page_tracks(items@) is None => r matches Err(MusicError::ExternalApiError(m)) && m@ == "Missing track name"@,
            _ => r matches Ok(next) && opt_string_chars(next) == opt_string_chars(page.next),
        },
{
    match &page.items {
        Some(items) => {
            match collect_page_tracks(items, tracks) {
                Ok(()) => {},
                Err(e) => {
                    return Err(e);
                },
            }
        },
        None => {},
    }
    match &page.next {
        Some(n) => Ok(Some(n.clone())),
        None => Ok(None),
    }
}

/// The characters of an optional string.
pub open spec fn opt_string_chars(o: Option<String>) -> Option<Seq<char>> {
    match o {
        Some(s) => Some(s@),
        None => None,
    }
}

/// The address of a track.
pub fn track_url(track_id: &str) -> (s: String)
    ensures
        s@ == "https://api.spotify.com/v1/tracks/"@ + track_id@,
{
    let mut s = "https://api.spotify.com/v1/tracks/".to_string();
    push_str(&mut s, track_id);
    s
}

/// The address of an album.
pub fn album_url(album_id: &str) -> (s: String)
    ensures
        s@ == "https://api.spotify.com/v1/albums/"@ + album_id@,
{
    let mut s = "https://api.spotify.com/v1/albums/".to_string();
    push_str(&mut s, album_id);
    s
}

/// The address of the first page of a playlist's tracks.
pub fn playlist_tracks_url(playlist_id: &str) -> (s: String)
    ensures
        s@ == "https://api.spotify.com/v1/playlists/"@ + playlist_id@ + "/tracks?limit=50"@,
{
    let mut s = "https://api.spotify.com/v1/playlists/".to_string();
    push_str(&mut s, playlist_id);
    push_str(&mut s, "/tracks?limit=50");
    s
}

/// The address of the first page of an album's tracks.
pub fn album_tracks_url(album_id: &str) -> (s: String)
    ensures
        s@ == "https://api.spotify.com/v1/albums/"@ + album_id@ + "/tracks?limit=50"@,
{
    let mut s = "https://api.spotify.com/v1/albums/".to_string();
    push_str(&mut s, album_id);
    push_str(&mut s, "/tracks?limit=50");
    s
}

/// The authorization header value for an access token.
pub fn bearer_header(token: &str) -> (s: String)
    ensures
        s@ == "Bearer "@ + token@,
{
    let mut s = "Bearer ".to_string();
    push_str(&mut s, token);
    s
}

/// The error for an answer of Spotify with a failure status; `body` is the answer's
/// text, where it could be read.
pub fn api_error(status: &str, body: Option<&str>) -> (e: MusicError)
    ensures
        e matches MusicError::ExternalApiError(m) && m@ == "Spotify API error: "@ + status@ + " - "@
            + match body {
            Some(b) => b@,
            None => "Cannot read response"@,
        },
{
    let mut m = "Spotify API error: ".to_string();
    push_str(&mut m, status);
    push_str(&mut m, " - ");
    match body {
        Some(b) => push_str(&mut m, b),
        None => push_str(&mut m, "Cannot read response"),
    }
    MusicError::ExternalApiError(m)
}

/// The error for a request to Spotify that failed: `what` names the request
/// (`token`, `track`, `playlist`, ...), `detail` is the failure's text.
pub fn request_error(what: &str, detail: &str) -> (e: MusicError)
    ensures
        e matches MusicError::ExternalApiError(m) && m@ == "Failed to request Spotify "@ + what@ + ": "@ + detail@,
{
    let mut m = "Failed to request Spotify ".to_string();
    push_str(&mut m, what);
    push_str(&mut m, ": ");
    push_str(&mut m, detail);
    MusicError::ExternalApiError(m)
}

/// The error for an answer of Spotify that could not be parsed: `what` names the data
/// (`token`, `track data`, `playlist data`, ...), `detail` is the failure's text.
pub fn parse_error(what: &str, detail: &str) -> (e: MusicError)
    ensures
        e matches MusicError::ExternalApiError(m) && m@ == "Failed to parse Spotify "@ + what@ + ": "@ + detail@,
{
    let mut m = "Failed to parse Spotify ".to_string();
    push_str(&mut m, what);
    push_str(&mut m, ": ");
    push_str(&mut m, detail);
    MusicError::ExternalApiError(m)
}

} // verus!
