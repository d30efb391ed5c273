use vstd::prelude::*;

use crate::spotify::{spotify_id_spec, spotify_url_spec, SpotifyApi, SpotifyLink};
use crate::track::{MusicError, TrackMetadata, TrackMetadataView};
use crate::youtube::{url_is_valid, url_parses, youtube_url_spec, YoutubeApi};

verus! {

/// An audio source: a service that tracks can be played from.
pub trait AudioApi {
    /// Whether this source recognises the link.
    fn is_valid_url(&self, url: &str) -> bool;
}

impl AudioApi for YoutubeApi {
    /// YouTube recognises its watch pages and short links.
    fn is_valid_url(&self, url: &str) -> (b: bool)
        ensures
            b == youtube_url_spec(url@),
    {
        YoutubeApi::is_youtube_url(url)
    }
}

impl AudioApi for SpotifyApi {
    /// Spotify recognises its track, playlist and album links.
    fn is_valid_url(&self, url: &str) -> (b: bool)
        ensures
            b == spotify_url_spec(url@),
    {
        SpotifyApi::is_spotify_url(url)
    }
}

/// Helpers about where audio comes from.
pub struct AudioSource;

/// Whether `input` counts as a link: it parses as a URL, or one of the audio sources
/// (YouTube, Spotify) recognises it.
pub open spec fn is_url_spec(input: Seq<char>) -> bool {
    url_parses(input) || youtube_url_spec(input) || spotify_url_spec(input)
}

impl AudioSource {
    /// Whether `input` is a URL or a link that an audio source recognises (such as a
    /// Spotify link without a scheme).
    pub fn is_url(input: &str) -> (b: bool)
        ensures
            b == is_url_spec(input@),
    {
        url_is_valid(input) || YoutubeApi.is_valid_url(input) || SpotifyApi.is_valid_url(input)
    }
}

/// The audio source that handles a link.
#[derive(Debug, Clone, Copy, PartialEq, Eq, Structural)]
pub enum AudioApiKind {
    Youtube,
    Spotify,
}

/// What a play request asks for: a link of a known source, a link that no source
/// recognises, or a search text.
#[derive(Debug, Clone, Copy, PartialEq, Eq, Structural)]
pub enum PlayRequest {
    Link(AudioApiKind),
    UnknownLink,
    Search,
}

/// How a play request for `input` is sorted: links go to the first source that
/// recognises them (YouTube before Spotify); other links are refused; every other text
/// is searched.
pub open spec fn play_request_spec(input: Seq<char>) -> PlayRequest {
    if is_url_spec(input) {
        if youtube_url_spec(input) {
            PlayRequest::Link(AudioApiKind::Youtube)
        } else if spotify_url_spec(input) {
            PlayRequest::Link(AudioApiKind::Spotify)
        } else {
            PlayRequest::UnknownLink
        }
    } else {
        PlayRequest::Search
    }
}

/// A link from which a Spotify track, playlist or album ID can be read is a Spotify
/// link, and only such links are: Spotify recognises it, it counts as a link, and a
/// play request for it goes to Spotify unless YouTube recognises it first.
pub proof fn lemma_spotify_links_go_to_spotify(url: Seq<char>)
    ensures
        (spotify_id_spec(url, "track"@) is Some || spotify_id_spec(url, "playlist"@) is Some
            || spotify_id_spec(url, "album"@) is Some) <==> spotify_url_spec(url),
        spotify_id_spec(url, "track"@) is Some ==> is_url_spec(url),
        spotify_id_spec(url, "playlist"@) is Some ==> is_url_spec(url),
        spotify_id_spec(url, "album"@) is Some ==> is_url_spec(url),
        (spotify_id_spec(url, "track"@) is Some || spotify_id_spec(url, "playlist"@) is Some
            || spotify_id_spec(url, "album"@) is Some) && !youtube_url_spec(url)
            ==> play_request_spec(url) == PlayRequest::Link(AudioApiKind::Spotify),
{
}

/// Sorts a play request (see `play_request_spec`).
pub fn classify_play_request(input: &str) -> (r: PlayRequest)
    ensures
        r == play_request_spec(input@),
{
    if AudioSource::is_url(input) {
        if YoutubeApi::is_youtube_url(input) {
            PlayRequest::Link(AudioApiKind::Youtube)
        } else if SpotifyApi::is_spotify_url(input) {
            PlayRequest::Link(AudioApiKind::Spotify)
        } else {
            PlayRequest::UnknownLink
        }
    } else {
        PlayRequest::Search
    }
}

/// The error for a link that no audio source recognises.
pub fn unresolved_link_error(url: &str) -> (e: MusicError)
    ensures
        e matches MusicError::AudioSourceError(m) && m@ == "Unable to resolve URL to valid provider: "@ + url@,
{
    let mut m = "Unable to resolve URL to valid provider: ".to_string();
    crate::text::push_str(&mut m, url);
    MusicError::AudioSourceError(m)
}

impl TrackMetadata {
    /// The metadata found for a Spotify track (by a YouTube search for its query), with
    /// the name of the user who asked for it; a failed search stays an error.
    pub fn from_spotify(found: Result<TrackMetadata, MusicError>, requested_by: String) -> (r: Result<TrackMetadata, MusicError>)
        ensures
            match found {
                Ok(m) => r matches Ok(x) && x@ == (TrackMetadataView { requested_by: Some(requested_by@), ..m@ }),
                Err(e) => r == Err::<TrackMetadata, MusicError>(e),
            },
    {
        match found {
            Ok(mut m) => {
                m.misc_data(requested_by);
                Ok(m)
            },
            Err(e) => Err(e),
        }
    }
}

/// The metadata of a found track, or the metadata of an unknown track.
pub open spec fn found_or_unknown(r: Result<TrackMetadata, MusicError>, requested_by: Seq<char>) -> TrackMetadataView {
    match r {
        Ok(m) => TrackMetadataView { requested_by: Some(requested_by), ..m@ },
        Err(_) => TrackMetadataView { title: "Unknown Track"@, url: None, duration: None, thumbnail: None, requested_by: None },
    }
}

/// The metadata of the tracks of a Spotify playlist or album, from the YouTube search
/// done for each: found tracks get the requester's name, tracks not found become unknown
/// tracks. An empty list is an error that names the kind of collection.
pub fn collection_metadata(found: Vec<Result<TrackMetadata, MusicError>>, requested_by: &str, is_album: bool) -> (r: Result<Vec<TrackMetadata>, MusicError>)
    ensures
        found.len() == 0 ==> (r matches Err(MusicError::AudioSourceError(m)) && m@ == if is_album {
            "Spotify album is empty"@
        } else {
            "Spotify playlist is empty"@
        }),
        found.len() > 0 ==> (r matches Ok(v) && v@.map_values(|m: TrackMetadata| m@) == found@.map_values(
            |x: Result<TrackMetadata, MusicError>| found_or_unknown(x, requested_by@),
        )),
{
    if found.len() == 0 {
        if is_album {
            return Err(MusicError::AudioSourceError("Spotify album is empty".to_string()));
        } else {
            return Err(MusicError::AudioSourceError("Spotify playlist is empty".to_string()));
        }
    }
    let mut out: Vec<TrackMetadata> = Vec::new();
    for i in 0..found.len()
        invariant
            out@.map_values(|m: TrackMetadata| m@) == found@.take(i as int).map_values(
                |x: Result<TrackMetadata, MusicError>| found_or_unknown(x, requested_by@),
            ),
    {
        let m = match &found[i] {
            Ok(m) => {
                let mut c = m.copy();
                c.misc_data(requested_by.to_string());
                c
            },
            Err(_) => TrackMetadata::unknown(),
        };
        assert(m@ == found_or_unknown(found@[i as int], requested_by@));
        assert(found@.take(i + 1) == found@.take(i as int).push(found@[i as int]));
        let ghost mv = m@;
        let ghost before = out@;
        out.push(m);
        assert(out@.map_values(|m: TrackMetadata| m@) =~= before.map_values(|m: TrackMetadata| m@).push(mv));
        assert(found@.take(i + 1).map_values(
            |x: Result<TrackMetadata, MusicError>| found_or_unknown(x, requested_by@),
        ) =~= found@.take(i as int).map_values(
            |x: Result<TrackMetadata, MusicError>| found_or_unknown(x, requested_by@),
        ).push(mv));
    }
    assert(found@.take(found.len() as int) == found@);
    Ok(out)
}

} // verus!
