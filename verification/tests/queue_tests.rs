use std::collections::VecDeque;

use rusty::flags::GuildFlags;
use rusty::handlers::{
    eject_guild, finish_previous, handle_button_interaction, handle_interaction, handle_music_eject,
    handle_play_pause, handle_repeat, message_deletion, previous_source, start_previous, ButtonAction,
    InteractionRoute, MessageDeletion, PlayPause, PreviousError,
};
use rusty::music::{shuffle_keeping_head, MusicManager};
use rusty::queue::{QueueManager, RepeatState, HISTORY_LIMIT};
use rusty::track::TrackMetadata;

fn track(title: &str) -> TrackMetadata {
    TrackMetadata {
        title: title.to_string(),
        url: Some(format!("https://youtu.be/{}", title)),
        duration: None,
        thumbnail: None,
        requested_by: None,
    }
}

fn titles(v: &[TrackMetadata]) -> Vec<String> {
    v.iter().map(|t| t.title.clone()).collect()
}

#[test]
fn tracks_leave_the_queue_in_order() {
    let mut m: QueueManager<u32, u32> = QueueManager::new();
    m.add(1, track("a"));
    m.add(1, track("b"));
    m.add(2, track("other guild"));
    m.add(1, track("c"));
    assert_eq!(titles(&m.get_queue(1)), vec!["a", "b", "c"]);
    assert_eq!(m.next(1).map(|t| t.title), Some("a".to_string()));
    assert_eq!(m.next(1).map(|t| t.title), Some("b".to_string()));
    assert_eq!(m.next(1).map(|t| t.title), Some("c".to_string()));
    assert_eq!(m.next(1), None);
    assert_eq!(titles(&m.get_queue(2)), vec!["other guild"]);
}

#[test]
fn previous_gives_back_the_replaced_track() {
    let mut m: QueueManager<u32, u32> = QueueManager::new();
    assert!(!m.has_history(7));
    m.set_current_track(7, 1, track("first"));
    assert!(!m.has_history(7));
    m.set_current_track(7, 2, track("second"));
    assert!(m.has_history(7));
    assert_eq!(m.get_current_track(7).map(|p| p.0), Some(2));
    assert_eq!(m.previous(7).map(|t| t.title), Some("first".to_string()));
    assert_eq!(m.previous(7), None);
    assert!(m.has_current_track(7));
    assert!(!m.has_current_track(8));
}

#[test]
fn history_is_capped() {
    let mut m: QueueManager<usize, u32> = QueueManager::new();
    for i in 0..(HISTORY_LIMIT + 10) {
        m.set_current_track(1, i, track(&format!("t{}", i)));
    }
    let mut n = 0;
    let mut last = None;
    while let Some(t) = m.previous(1) {
        if n == 0 {
            last = Some(t.title.clone());
        }
        n += 1;
    }
    assert_eq!(n, HISTORY_LIMIT);
    assert_eq!(last, Some(format!("t{}", HISTORY_LIMIT + 8)));
}

#[test]
fn switches_flip_and_default() {
    let mut m: QueueManager<u32, u32> = QueueManager::new();
    assert!(m.is_queue_view_enabled(3));
    m.toggle_queue_view(3);
    assert!(!m.is_queue_view_enabled(3));
    m.toggle_queue_view(3);
    assert!(m.is_queue_view_enabled(3));
    assert!(!m.is_shuffle_enabled(3));
    assert!(m.toggle_shuffle(3));
    assert!(!m.toggle_shuffle(3));
    assert_eq!(m.get_repeat_state(3), RepeatState::Disabled);
    assert_eq!(m.cycle_repeat_state(3), RepeatState::Track);
    assert_eq!(m.cycle_repeat_state(3), RepeatState::Disabled);
}

#[test]
fn remove_track_by_position() {
    let mut m: QueueManager<u32, u32> = QueueManager::new();
    for t in ["a", "b", "c"] {
        m.add(1, track(t));
    }
    assert_eq!(m.remove_track(1, 1).map(|t| t.title), Some("b".to_string()));
    assert_eq!(m.remove_track(1, 5), None);
    assert_eq!(m.remove_track(9, 0), None);
    assert_eq!(titles(&m.get_queue(1)), vec!["a", "c"]);
}

#[test]
fn shuffle_keeps_the_tracks() {
    let mut m: QueueManager<u32, u32> = QueueManager::new();
    for i in 0..20 {
        m.add(1, track(&format!("t{}", i)));
    }
    m.shuffle_queue(1);
    let mut after = titles(&m.get_queue(1));
    after.sort();
    let mut expected: Vec<String> = (0..20).map(|i| format!("t{}", i)).collect();
    expected.sort();
    assert_eq!(after, expected);
}

#[test]
fn clear_forgets_only_that_guild() {
    let mut m: QueueManager<u32, &str> = QueueManager::new();
    m.add(1, track("a"));
    m.add(2, track("b"));
    m.set_current_track(1, 5, track("playing"));
    m.toggle_queue_view(1);
    assert_eq!(m.start_update_task(1, "task"), None);
    assert_eq!(m.start_update_task(1, "task2"), Some("task"));
    assert_eq!(m.clear(1), Some("task2"));
    assert!(m.get_queue(1).is_empty());
    assert!(m.get_current_track(1).is_none());
    assert!(m.is_queue_view_enabled(1));
    assert_eq!(titles(&m.get_queue(2)), vec!["b"]);
    assert_eq!(m.stop_update_task(1), None);
}

#[test]
fn test_toggle_queue_view() {
    let mut m: MusicManager<u32, u32> = MusicManager::new();
    assert!(m.get_player_message_data(1).show_queue, "Initial state should be true");
    m.toggle_queue_view(1);
    assert!(!m.get_player_message_data(1).show_queue, "State after first toggle should be false");
    m.toggle_queue_view(1);
    assert!(m.get_player_message_data(1).show_queue, "State after second toggle should be true");
}

#[test]
fn test_repeat_state() {
    let mut m: MusicManager<u32, u32> = MusicManager::new();
    assert_eq!(m.get_repeat_state(1), RepeatState::Disabled);
    m.set_repeat_state(1, RepeatState::Track);
    assert_eq!(m.get_repeat_state(1), RepeatState::Track);
    m.set_repeat_state(1, RepeatState::Disabled);
    assert_eq!(m.get_repeat_state(1), RepeatState::Disabled);
}

#[test]
fn drop_all_forgets_playback_but_not_the_view() {
    let mut m: MusicManager<&str, u32> = MusicManager::new();
    m.store_queue(1, "queue");
    m.store_channel_id(1, 10);
    m.store_message_id(1, 20);
    m.set_repeat_state(1, RepeatState::Track);
    m.toggle_queue_view(1);
    assert_eq!(m.store_update_task(1, 7), None);
    m.drop_all(1);
    assert!(m.get_queue(1).is_none());
    assert_eq!(m.get_channel_id(1), None);
    assert_eq!(m.get_message_id(1), None);
    assert_eq!(m.get_repeat_state(1), RepeatState::Disabled);
    assert!(!m.get_player_message_data(1).show_queue);
    assert_eq!(m.drop_update_task(1), Some(7));
}

#[test]
fn shuffle_keeps_the_playing_track_first() {
    let mut q: VecDeque<u32> = (0..30).collect();
    shuffle_keeping_head(&mut q);
    assert_eq!(q[0], 0);
    let mut rest: Vec<u32> = q.iter().skip(1).copied().collect();
    rest.sort();
    assert_eq!(rest, (1..30).collect::<Vec<u32>>());
    let mut one: VecDeque<u32> = vec![5].into();
    shuffle_keeping_head(&mut one);
    assert_eq!(one, VecDeque::from(vec![5]));
}

#[test]
fn button_routing() {
    assert_eq!(handle_interaction("music_search", false), InteractionRoute::Run(ButtonAction::Search));
    assert_eq!(handle_interaction("music_next", false), InteractionRoute::NotConnected);
    assert_eq!(handle_interaction("music_shuffle", true), InteractionRoute::Run(ButtonAction::Shuffle));
    assert_eq!(handle_interaction("music_previous", true), InteractionRoute::Unknown);
    assert_eq!(handle_interaction("music_what", true), InteractionRoute::Unknown);
    assert_eq!(handle_button_interaction("music_search", false), InteractionRoute::NotConnected);
    assert_eq!(handle_button_interaction("music_previous", true), InteractionRoute::Run(ButtonAction::Previous));
    assert_eq!(handle_button_interaction("music_repeat", true), InteractionRoute::Unknown);
    assert_eq!(handle_play_pause(Some(true)), PlayPause::Pause);
    assert_eq!(handle_play_pause(None), PlayPause::NoTrack);
    assert_eq!(handle_repeat(RepeatState::Disabled), RepeatState::Track);
}

#[test]
fn eject_deletes_the_player_message() {
    assert_eq!(
        message_deletion(Some(1), Some(2), 2),
        MessageDeletion::ViaInteraction { channel_id: 1, message_id: 2 }
    );
    assert_eq!(message_deletion(Some(1), Some(2), 3), MessageDeletion::Direct { channel_id: 1, message_id: 2 });
    assert_eq!(message_deletion(None, Some(2), 2), MessageDeletion::Missing);

    let mut m: MusicManager<&str, u32> = MusicManager::new();
    m.store_channel_id(4, 10);
    m.store_message_id(4, 20);
    assert_eq!(handle_music_eject(&mut m, 4, 20), MessageDeletion::ViaInteraction { channel_id: 10, message_id: 20 });
    assert_eq!(m.get_message_id(4), None);

    let mut q: QueueManager<u32, &str> = QueueManager::new();
    let mut flags = GuildFlags::new();
    flags.store_channel_id(4, 10);
    flags.store_message_id(4, 20);
    q.add(4, track("a"));
    q.start_update_task(4, "task");
    let plan = eject_guild(&mut q, &mut flags, 4, 99);
    assert_eq!(plan.task, Some("task"));
    assert_eq!(plan.deletion, MessageDeletion::Direct { channel_id: 10, message_id: 20 });
    assert!(flags.is_manual_stop_flag_set(4));
    assert!(q.get_queue(4).is_empty());
}

#[test]
fn going_back_plays_the_previous_track() {
    let mut q: QueueManager<u32, u32> = QueueManager::new();
    let mut flags = GuildFlags::new();
    assert_eq!(start_previous(&mut q, &mut flags, 1).err(), Some(PreviousError::NoHistory));
    assert!(!flags.is_previous_action_flag_set(1));
    assert_eq!(PreviousError::NoHistory.message(), "No previous track in history.");
    q.set_current_track(1, 1, track("old"));
    q.set_current_track(1, 2, track("new"));
    let prev = start_previous(&mut q, &mut flags, 1).unwrap();
    assert_eq!(prev.title, "old");
    assert!(flags.is_previous_action_flag_set(1));
    assert_eq!(previous_source(&mut flags, 1, &prev, true), Ok("https://youtu.be/old".to_string()));
    assert!(flags.is_previous_action_flag_set(1));
    assert_eq!(finish_previous(&mut q, &mut flags, 1, prev, Some(3)), Ok(()));
    assert!(!flags.is_previous_action_flag_set(1));
    assert_eq!(q.get_current_track(1).map(|p| p.1.title.clone()), Some("old".to_string()));
    assert_eq!(q.previous(1).map(|t| t.title), Some("new".to_string()));
}

#[test]
fn going_back_without_a_call_or_link_fails() {
    let mut flags = GuildFlags::new();
    flags.set_previous_action_flag(1, true);
    let mut no_url = track("x");
    no_url.url = None;
    assert_eq!(previous_source(&mut flags, 1, &no_url, false), Err(PreviousError::LostConnection));
    assert!(!flags.is_previous_action_flag_set(1));
    flags.set_previous_action_flag(1, true);
    assert_eq!(previous_source(&mut flags, 1, &no_url, true), Err(PreviousError::MissingUrl));
    assert!(!flags.is_previous_action_flag_set(1));
    let mut q: QueueManager<u32, u32> = QueueManager::new();
    assert_eq!(finish_previous(&mut q, &mut flags, 1, track("y"), None), Err(PreviousError::SourceFailed));
    assert_eq!(
        PreviousError::SourceFailed.message(),
        "Failed to create audio source for previous track."
    );
}
