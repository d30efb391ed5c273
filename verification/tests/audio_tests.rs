use rusty::audio::{classify_play_request, collection_metadata, unresolved_link_error, AudioSource, AudioApiKind, PlayRequest};
use rusty::duration::TimeSpan;
use rusty::serp::{collect_related_songs, RelatedVideo};
use rusty::spotify::{
    api_error, basic_auth_header, playlist_tracks_url, read_page, SpotifyApi, SpotifyLink, SpotifyPage,
    SpotifyToken, SpotifyTrack, SpotifyTrackObject,
};
use rusty::track::{MusicError, TrackMetadata};
use rusty::youtube::{pick_autoplay_song, related_search_term, songs_from_search_results, YoutubeApi, YtDlpVideo};

#[test]
fn test_is_url() {
    assert!(AudioSource::is_url("https://www.youtube.com/watch?v=dQw4w9WgXcQ"));
    assert!(AudioSource::is_url("http://example.com"));
    assert!(AudioSource::is_url("ftp://ftp.is.co.za/rfc/rfc1808.txt"));
    assert!(AudioSource::is_url("spotify/track/4uLU6hMCjMI75M1A2tKUQC"));
    assert!(AudioSource::is_url("open.spotify.com/playlist/37i9dQZF1DXcBWIGoYBM5M"));
    assert!(!AudioSource::is_url("just a string"));
    assert!(!AudioSource::is_url("www.google.com"));
    assert!(!AudioSource::is_url(""));
}

#[test]
fn play_requests_are_sorted_by_source() {
    assert_eq!(
        classify_play_request("https://www.youtube.com/watch?v=dQw4w9WgXcQ"),
        PlayRequest::Link(AudioApiKind::Youtube)
    );
    assert_eq!(
        classify_play_request("https://open.spotify.com/track/4uLU6hMCjMI75M1A2tKUQC"),
        PlayRequest::Link(AudioApiKind::Spotify)
    );
    assert_eq!(classify_play_request("http://example.com"), PlayRequest::UnknownLink);
    assert_eq!(classify_play_request("never gonna give you up"), PlayRequest::Search);
    match unresolved_link_error("http://example.com") {
        MusicError::AudioSourceError(m) => {
            assert_eq!(m, "Unable to resolve URL to valid provider: http://example.com")
        }
        _ => panic!("expected an audio source error"),
    }
}

#[test]
fn youtube_links_and_ids() {
    assert!(YoutubeApi::is_youtube_url("https://youtube.com/watch?v=abc"));
    assert!(YoutubeApi::is_youtube_url("https://youtu.be/abc"));
    assert!(!YoutubeApi::is_youtube_url("https://youtube.com/channel/abc"));
    assert_eq!(
        YoutubeApi::extract_video_id("https://www.youtube.com/watch?v=dQw4w9WgXcQ"),
        Ok("dQw4w9WgXcQ".to_string())
    );
    assert_eq!(
        YoutubeApi::extract_video_id("not a link"),
        Err(MusicError::AudioSourceError("Not a valid YouTube URL".to_string()))
    );
}

#[test]
fn related_search_terms() {
    assert_eq!(related_search_term("Artist - Song"), "Artist music");
    assert_eq!(related_search_term("one two three"), "one two");
    assert_eq!(related_search_term("single"), "music");
}

fn video(title: &str, url: &str) -> YtDlpVideo {
    YtDlpVideo {
        title: Some(title.to_string()),
        webpage_url: Some(url.to_string()),
        duration: Some(TimeSpan::from_secs(60)),
        thumbnail: None,
    }
}

#[test]
fn search_results_skip_the_original_and_foreign_links() {
    let results = vec![
        video("Same", "https://www.youtube.com/watch?v=orig"),
        video("Other site", "https://example.com/x"),
        video("Good", "https://www.youtube.com/watch?v=good"),
    ];
    let songs = songs_from_search_results(&results, "https://www.youtube.com/watch?v=orig");
    assert_eq!(songs.len(), 1);
    assert_eq!(songs[0].title, "Good");
    assert_eq!(songs[0].requested_by, Some("Autoplay".to_string()));
}

fn track(title: &str, url: Option<&str>) -> TrackMetadata {
    TrackMetadata {
        title: title.to_string(),
        url: url.map(|u| u.to_string()),
        duration: None,
        thumbnail: None,
        requested_by: None,
    }
}

#[test]
fn autoplay_picks_the_first_youtube_song() {
    let songs = vec![
        track("no link", None),
        track("elsewhere", Some("https://example.com")),
        track("yes", Some("https://youtu.be/x")),
        track("later", Some("https://youtu.be/y")),
    ];
    assert_eq!(pick_autoplay_song(&songs), Some(2));
    assert_eq!(pick_autoplay_song(&vec![track("no link", None)]), None);
}

#[test]
fn related_videos_need_title_and_link() {
    let videos = vec![
        RelatedVideo {
            title: Some("Related Song 1".to_string()),
            link: Some("https://youtube.com/watch?v=related1".to_string()),
            length: Some("3:45".to_string()),
            thumbnail: Some("https://thumb.nail/1.jpg".to_string()),
        },
        RelatedVideo { title: Some("Related Song 5 - No Link".to_string()), link: None, length: None, thumbnail: None },
    ];
    let songs = collect_related_songs(&videos);
    assert_eq!(songs.len(), 1);
    assert_eq!(songs[0].duration, Some(TimeSpan::from_secs(225)));
}

#[test]
fn spotify_links() {
    assert!(SpotifyApi::is_spotify_url("https://open.spotify.com/track/4uLU6hMCjMI75M1A2tKUQC"));
    assert_eq!(
        SpotifyApi::extract_track_id("https://open.spotify.com/track/4uLU6hMCjMI75M1A2tKUQC?si=x"),
        Some("4uLU6hMCjMI75M1A2tKUQC".to_string())
    );
    assert_eq!(
        SpotifyApi::extract_playlist_id("spotify/playlist/37i9dQZF1DXcBWIGoYBM5M"),
        Some("37i9dQZF1DXcBWIGoYBM5M".to_string())
    );
    assert_eq!(SpotifyApi::extract_album_id("https://example.com/album/x"), None);
    let track_link = "https://open.spotify.com/track/4uLU6hMCjMI75M1A2tKUQC";
    assert_eq!(SpotifyApi::extract_playlist_id(track_link), None);
    assert_eq!(SpotifyApi::extract_album_id(track_link), None);
    assert_eq!(SpotifyApi::extract_track_id("https://open.spotify.com/track/abc-def"), None);
    assert_eq!(
        SpotifyApi::classify_link("https://open.spotify.com/album/1A2B"),
        Some(SpotifyLink::Album("1A2B".to_string()))
    );
    let t = SpotifyTrack { name: "Song".to_string(), artists: vec!["A".to_string(), "B".to_string()] };
    assert_eq!(SpotifyApi::get_youtube_search_query(&t), "Song by A, B audio");
}

#[test]
fn spotify_token_expiry_keeps_a_margin() {
    let token = SpotifyToken { access_token: "t".to_string(), token_type: "Bearer".to_string(), expires_in: 3600 };
    assert!(!token.is_expired(TimeSpan::from_secs(3570)));
    assert!(token.is_expired(TimeSpan::new(3570, 1)));
    assert_eq!(basic_auth_header("id", "secret"), "Basic aWQ6c2VjcmV0");
}

#[test]
fn spotify_pages_collect_tracks_and_next_link() {
    let page = SpotifyPage {
        items: Some(vec![
            Some(SpotifyTrackObject {
                has_id: true,
                name: Some("One".to_string()),
                artist_names: Some(vec![Some("A".to_string()), None]),
            }),
            Some(SpotifyTrackObject { has_id: false, name: None, artist_names: None }),
            None,
        ]),
        next: Some("https://next".to_string()),
    };
    let mut tracks = Vec::new();
    assert_eq!(read_page(&page, &mut tracks), Ok(Some("https://next".to_string())));
    assert_eq!(tracks.len(), 1);
    assert_eq!(tracks[0].name, "One");
    assert_eq!(tracks[0].artists, vec!["A".to_string()]);
    let bad = SpotifyPage {
        items: Some(vec![Some(SpotifyTrackObject { has_id: true, name: None, artist_names: None })]),
        next: None,
    };
    assert_eq!(
        read_page(&bad, &mut tracks),
        Err(MusicError::ExternalApiError("Missing track name".to_string()))
    );
    assert_eq!(playlist_tracks_url("x"), "https://api.spotify.com/v1/playlists/x/tracks?limit=50");
    assert_eq!(
        api_error("404 Not Found", None),
        MusicError::ExternalApiError("Spotify API error: 404 Not Found - Cannot read response".to_string())
    );
}

#[test]
fn empty_collections_are_errors() {
    assert_eq!(
        collection_metadata(vec![], "me", true),
        Err(MusicError::AudioSourceError("Spotify album is empty".to_string()))
    );
    let r = collection_metadata(
        vec![Ok(track("found", Some("https://youtu.be/x"))), Err(MusicError::NoQueue)],
        "me",
        false,
    )
    .unwrap();
    assert_eq!(r[0].requested_by, Some("me".to_string()));
    assert_eq!(r[1].title, "Unknown Track");
}
