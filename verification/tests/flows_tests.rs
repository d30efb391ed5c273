use rusty::coin_ids::{autocomplete_coin_id, lex_le_exec, list_coin_ids, sort_ids, trim_quotes, CoinIdCache};
use rusty::coingecko::{api_request_url, CoingeckoError};
use rusty::duration::TimeSpan;
use rusty::flows::{
    cached_access_token, first_and_count, get_user_voice_channel, leave_channel, pause_action, pause_message,
    play_request_reply, related_songs_choice, send_and_store_new_message, send_or_update_message,
    spotify_metadata_target, try_join_voice, update_should_continue, MessageUpdate, PauseAction, PlayState,
};
use rusty::music::MusicManager;
use rusty::spotify::{SpotifyLink, SpotifyToken};
use rusty::track::{MusicError, TrackMetadata};

fn s(v: &[&str]) -> Vec<String> {
    v.iter().map(|x| x.to_string()).collect()
}

#[test]
fn coin_ids_are_trimmed_sorted_and_completed() {
    assert_eq!(trim_quotes("\"bitcoin\""), "bitcoin");
    assert_eq!(trim_quotes("\"\""), "");
    assert_eq!(trim_quotes("a\"b"), "a\"b");
    let ids = list_coin_ids(&s(&["\"usd-coin\"", "\"bitcoin\"", "\"bitcoin-cash\"", "\"aave\""]));
    assert_eq!(ids, s(&["aave", "bitcoin", "bitcoin-cash", "usd-coin"]));
    assert_eq!(autocomplete_coin_id(&ids, "bit"), s(&["bitcoin", "bitcoin-cash"]));
    assert_eq!(autocomplete_coin_id(&ids, "c"), Vec::<String>::new());
    assert_eq!(autocomplete_coin_id(&ids, ""), ids);
    let many: Vec<String> = sort_ids((0..40).map(|i| format!("x{:02}", i)).collect());
    assert_eq!(autocomplete_coin_id(&many, "x").len(), 25);
    assert!(lex_le_exec("ab", "abc"));
    assert!(!lex_le_exec("b", "abc"));
    let mut cache = CoinIdCache::new();
    assert!(cache.cached().is_none());
    cache.store(ids.clone());
    assert_eq!(cache.cached(), Some(ids));
}

#[test]
fn request_urls() {
    assert_eq!(
        api_request_url("https://api.coingecko.com/api/v3/", "coins/list"),
        Ok("https://api.coingecko.com/api/v3/coins/list".to_string())
    );
    match api_request_url("not a url", "coins/list") {
        Err(CoingeckoError::BadRequest(m)) => assert!(m.starts_with("Invalid base URL 'not a url': ")),
        _ => panic!("expected a bad request"),
    }
    assert_eq!(CoingeckoError::Invalid.message(), "Invalid response received from CoinGecko");
}

fn track(title: &str) -> TrackMetadata {
    TrackMetadata { title: title.to_string(), url: None, duration: None, thumbnail: None, requested_by: None }
}

#[test]
fn play_flow_decisions() {
    let ok = play_request_reply(&Ok((track("Song"), 1)));
    assert_eq!(ok.description, "✅ Added to queue: Song");
    let err = play_request_reply(&Err(MusicError::UserNotInVoiceChannel));
    assert_eq!(err.description, "User is not in a voice channel");
    assert_eq!(err.title, "❌ Error");
    assert_eq!(err.color, 0xff0000);
    let (first, n) = first_and_count(&vec![track("a"), track("b")]);
    assert_eq!((first.title.as_str(), n), ("a", 2));
    assert!(update_should_continue(Some(2)));
    assert!(!update_should_continue(Some(0)));
    assert!(!update_should_continue(None));
    assert_eq!(get_user_voice_channel(false, Some(Some(3))), Err(MusicError::NotInGuild));
    assert_eq!(get_user_voice_channel(true, Some(None)), Err(MusicError::UserNotInVoiceChannel));
    assert_eq!(get_user_voice_channel(true, Some(Some(3))), Ok(3));
    assert_eq!(try_join_voice(Ok(3), true), Ok(None));
    assert_eq!(try_join_voice(Ok(3), false), Ok(Some(3)));
    assert_eq!(try_join_voice(Err(MusicError::NotInGuild), false), Err(MusicError::UserNotInVoiceChannel));
    assert_eq!(leave_channel(false, false), Err(MusicError::NotConnected));
    assert_eq!(leave_channel(true, false), Err(MusicError::JoinError("Failed to leave voice channel".to_string())));
    assert_eq!(leave_channel(true, true), Ok(()));
    assert_eq!(pause_action(PlayState::Playing), PauseAction::Pause);
    assert_eq!(pause_action(PlayState::Other), PauseAction::NotPausable);
    assert_eq!(pause_message(true, "x"), "⏸️ Paused: x");
    assert_eq!(related_songs_choice(Some(Ok(vec![]))), None);
    assert_eq!(related_songs_choice(Some(Ok(vec![track("r")]))), Some(vec![track("r")]));
    assert_eq!(
        related_songs_choice(Some(Err(MusicError::AudioSourceError("down".to_string())))),
        None
    );
}

#[test]
fn player_message_updates() {
    let mut m: MusicManager<u32, u32> = MusicManager::new();
    assert_eq!(send_or_update_message(&m, 1), MessageUpdate::SendNew);
    send_and_store_new_message(&mut m, 1, 10, 20);
    assert_eq!(send_or_update_message(&m, 1), MessageUpdate::Edit { message_id: 20 });
    assert_eq!(m.get_channel_id(1), Some(10));
}

#[test]
fn spotify_tokens_and_targets() {
    let t = SpotifyToken { access_token: "abc".to_string(), token_type: "Bearer".to_string(), expires_in: 60 };
    assert_eq!(cached_access_token(Some(&t), TimeSpan::from_secs(10)), Some("abc".to_string()));
    assert_eq!(cached_access_token(Some(&t), TimeSpan::from_secs(31)), None);
    assert_eq!(cached_access_token(None, TimeSpan::from_secs(0)), None);
    assert_eq!(
        spotify_metadata_target("https://open.spotify.com/playlist/abc123"),
        Ok(SpotifyLink::Playlist("abc123".to_string()))
    );
    assert_eq!(
        spotify_metadata_target("https://open.spotify.com/artist/abc"),
        Err(MusicError::AudioSourceError("Invalid Spotify URL".to_string()))
    );
}
