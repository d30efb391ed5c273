use rusty::duration::TimeSpan;
use rusty::serp::{related_songs_from_search, RelatedVideo};
use rusty::track::{MusicError, TrackMetadata};

fn related(title: Option<&str>, link: Option<&str>, length: Option<&str>, thumb: Option<&str>) -> RelatedVideo {
    RelatedVideo {
        title: title.map(String::from),
        link: link.map(String::from),
        length: length.map(String::from),
        thumbnail: thumb.map(String::from),
    }
}

fn create_metadata(title: &str, url: Option<&str>, duration_secs: Option<u64>, thumbnail: Option<&str>) -> TrackMetadata {
    TrackMetadata {
        title: title.to_string(),
        url: url.map(String::from),
        duration: duration_secs.map(TimeSpan::from_secs),
        thumbnail: thumbnail.map(String::from),
        requested_by: Some("Autoplay".into()),
    }
}

#[test]
fn test_fetch_related_songs_success() {
    let videos = vec![
        related(Some("Related Song 1"), Some("https://youtube.com/watch?v=related1"), Some("3:45"), Some("https://thumb.nail/1.jpg")),
        related(Some("Related Song 2"), Some("https://youtube.com/watch?v=related2"), Some("0:55"), Some("https://thumb.nail/2.jpg")),
        related(Some("Related Song 3"), Some("https://youtube.com/watch?v=related3"), None, Some("https://thumb.nail/3.jpg")),
        related(Some("Related Song 4"), Some("https://youtube.com/watch?v=related4"), Some("1:02:03"), None),
        related(Some("Related Song 5 - No Link"), None, Some("4:00"), None),
        related(None, Some("https://youtube.com/watch?v=related6"), Some("4:00"), None),
        related(Some("Related Song 7"), Some("https://youtube.com/watch?v=related7"), Some("4:00"), Some("https://thumb.nail/7.jpg")),
    ];
    let result = related_songs_from_search(Ok(Some(videos)));
    assert!(result.is_ok(), "fetch_related_songs failed: {:?}", result.as_ref().err());
    let songs = result.unwrap();
    let expected_songs = vec![
        create_metadata("Related Song 1", Some("https://youtube.com/watch?v=related1"), Some(225), Some("https://thumb.nail/1.jpg")),
        create_metadata("Related Song 2", Some("https://youtube.com/watch?v=related2"), Some(55), Some("https://thumb.nail/2.jpg")),
        create_metadata("Related Song 3", Some("https://youtube.com/watch?v=related3"), None, Some("https://thumb.nail/3.jpg")),
        create_metadata("Related Song 4", Some("https://youtube.com/watch?v=related4"), Some(3723), None),
        create_metadata("Related Song 7", Some("https://youtube.com/watch?v=related7"), Some(240), Some("https://thumb.nail/7.jpg")),
    ];
    assert_eq!(songs.len(), 5);
    assert_eq!(songs, expected_songs);
}

#[test]
fn test_fetch_related_songs_api_error() {
    let error_message = "Simulated API error".to_string();
    match related_songs_from_search(Err(error_message.clone())) {
        Err(MusicError::AudioSourceError(msg)) => assert_eq!(msg, error_message),
        e => panic!("Expected MusicError::AudioSourceError, got {:?}", e),
    }
}

#[test]
fn test_fetch_related_songs_empty_results() {
    let songs = related_songs_from_search(Ok(Some(vec![]))).unwrap();
    assert!(songs.is_empty(), "Expected empty results, got {:?}", songs);
}

#[test]
fn test_fetch_related_songs_no_related_videos_key() {
    let songs = related_songs_from_search(Ok(None)).unwrap();
    assert!(songs.is_empty(), "Expected empty results when key is missing, got {:?}", songs);
}

#[test]
fn test_fetch_related_songs_malformed_json() {
    let error_message = "Simulated JSON parsing error".to_string();
    match related_songs_from_search(Err(error_message.clone())) {
        Err(MusicError::AudioSourceError(msg)) => assert_eq!(msg, error_message),
        e => panic!("Expected MusicError::AudioSourceError, got {:?}", e),
    }
}
