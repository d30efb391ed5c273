use rusty::controls::{stateful_interaction_buttons, ButtonData, ButtonStyle, Emoji};
use rusty::duration::TimeSpan;
use rusty::player::{
    autoplay_status, format_progress_bar, generic_error, invalid_queue_position, music_player_message,
    parse_metadata, play_success_response, queue_is_empty, track_removed, TrackInfoResult, GREEN, RED,
};
use rusty::queue::RepeatState;
use rusty::track::{MusicError, TrackMetadata};

fn track(title: &str, secs: Option<u64>) -> TrackMetadata {
    TrackMetadata {
        title: title.to_string(),
        url: Some(format!("https://youtu.be/{}", title)),
        duration: secs.map(TimeSpan::from_secs),
        thumbnail: None,
        requested_by: None,
    }
}

#[test]
fn progress_bar_has_fifteen_segments() {
    assert_eq!(format_progress_bar(0), "🔘▬▬▬▬▬▬▬▬▬▬▬▬▬▬▬");
    assert_eq!(format_progress_bar(4), "▬▬▬▬🔘▬▬▬▬▬▬▬▬▬▬▬");
    assert_eq!(format_progress_bar(15), "▬▬▬▬▬▬▬▬▬▬▬▬▬▬▬🔘");
}

#[test]
fn metadata_fields_with_defaults() {
    let mut t = track("Song", Some(225));
    assert_eq!(
        parse_metadata(&t),
        ("Song".to_string(), "https://youtu.be/Song".to_string(), "3:45".to_string())
    );
    t.url = None;
    t.duration = None;
    assert_eq!(parse_metadata(&t), ("Song".to_string(), "#".to_string(), "Unknown duration".to_string()));
}

#[test]
fn player_message_while_playing() {
    let mut current = track("Now", Some(200));
    current.thumbnail = Some("https://img".to_string());
    let queue = vec![current, track("Next", Some(60)), track("Later", None)];
    let info = TrackInfoResult::Info { playing: true, position: TimeSpan::from_secs(30) };
    let m = music_player_message(Some(&queue), info, true, RepeatState::Track, 2).unwrap();
    assert_eq!(m.title, Some("🎵 Music Player".to_string()));
    assert_eq!(m.thumbnail, Some("https://img".to_string()));
    assert_eq!(
        m.description,
        "**Now Playing:** [Now](https://youtu.be/Now)\n▬▬🔘▬▬▬▬▬▬▬▬▬▬▬▬▬ `0:30/3:20`\n\n**Queue:** 2 tracks (`3:50` remaining)\n\n**Upcoming Tracks:**\n1. [Next](https://youtu.be/Next) `1:00`\n2. [Later](https://youtu.be/Later)\n"
    );
    assert_eq!(m.color, GREEN);
    assert_eq!(
        m.buttons,
        ButtonData { is_playing: true, has_queue: true, show_queue: true, no_track: false, repeat_state: RepeatState::Track }
    );
}

#[test]
fn player_message_lists_at_most_ten_upcoming_tracks() {
    let mut queue = vec![track("Now", Some(100))];
    for i in 0..12 {
        queue.push(track(&format!("t{}", i), Some(10)));
    }
    let info = TrackInfoResult::Info { playing: false, position: TimeSpan::from_secs(250) };
    let m = music_player_message(Some(&queue), info, true, RepeatState::Disabled, 7).unwrap();
    assert!(m.description.contains("`0:50/1:40`"));
    assert!(m.description.contains("**Queue:** 12 tracks (`2:00` remaining)"));
    assert!(m.description.contains("10. [t9]"));
    assert!(!m.description.contains("[t10]"));
    assert!(m.description.ends_with("... and 2 more\n"));
    let hidden = music_player_message(
        Some(&queue),
        TrackInfoResult::Info { playing: false, position: TimeSpan::from_secs(0) },
        false,
        RepeatState::Disabled,
        0,
    )
    .unwrap();
    assert!(!hidden.description.contains("Upcoming"));
}

#[test]
fn player_message_without_a_track() {
    assert_eq!(
        music_player_message(None, TrackInfoResult::Finished, true, RepeatState::Disabled, 0).err(),
        Some(MusicError::NoQueue)
    );
    let empty: Vec<TrackMetadata> = vec![];
    let m = music_player_message(Some(&empty), TrackInfoResult::Finished, true, RepeatState::Disabled, 0).unwrap();
    assert_eq!(m.description, "**🔇 Nothing playing or queued.**");
    assert!(m.buttons.no_track);
    assert!(!m.buttons.has_queue);
    let queue = vec![track("Now", Some(10))];
    let m = music_player_message(Some(&queue), TrackInfoResult::Finished, false, RepeatState::Disabled, 0).unwrap();
    assert!(m.buttons.no_track && m.buttons.has_queue && m.title.is_none());
    assert_eq!(
        music_player_message(Some(&queue), TrackInfoResult::Failed("boom".to_string()), false, RepeatState::Disabled, 0)
            .err(),
        Some(MusicError::AudioSourceError("boom".to_string()))
    );
}

#[test]
fn buttons_follow_the_player_state() {
    let rows = stateful_interaction_buttons(ButtonData {
        is_playing: false,
        has_queue: false,
        show_queue: true,
        no_track: true,
        repeat_state: RepeatState::Disabled,
    });
    assert_eq!(rows.len(), 2);
    assert_eq!(rows[0].len(), 3);
    assert_eq!(rows[1].len(), 4);
    assert_eq!(rows[0][0].custom_id, "music_eject");
    assert_eq!(rows[0][1].emoji, Emoji::Play);
    assert!(rows[0][1].disabled);
    assert!(rows[0][2].disabled);
    assert_eq!(rows[1][1].style, ButtonStyle::Secondary);
    assert_eq!(rows[1][3].style, ButtonStyle::Primary);
    assert!(rows[1][3].disabled);
    assert_eq!(Emoji::Shuffle.text(), "🔀");
}

#[test]
fn small_messages() {
    let on = autoplay_status(true);
    assert_eq!(on.title, "🔄 Autoplay Enabled");
    assert_eq!(on.color, GREEN);
    let off = autoplay_status(false);
    assert_eq!(off.description, "I will stop playing when the queue is empty");
    assert_eq!(off.color, RED);
    assert_eq!(generic_error("bad").title, "❌ Error");
    assert_eq!(queue_is_empty().description, "The queue is empty");
    assert!(queue_is_empty().ephemeral);
    assert_eq!(invalid_queue_position(4).description, "Invalid position. The queue has 3 tracks");
    assert!(invalid_queue_position(4).ephemeral);
    let removed = track_removed(&track("Gone", None), 2);
    assert_eq!(removed.description, "Removed [Gone](https://youtu.be/Gone) from position #2");
    assert!(removed.ephemeral);
    assert_eq!(play_success_response(&track("One", None), 1).description, "✅ Added to queue: One");
    assert_eq!(play_success_response(&track("One", None), 5).description, "✅ Added playlist: with 5 tracks");
}
