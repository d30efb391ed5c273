use vstd::prelude::*;

use crate::duration::TimeSpan;
use crate::music::MusicManager;
use crate::player::{generic_error, play_success_response, Embed, GREEN, RED};
use crate::spotify::{spotify_id_spec, SpotifyApi, SpotifyLink, SpotifyToken};
use crate::text::{decimal, push_str};
use crate::track::{music_error_text, MusicError, TrackMetadata};

verus! {

/// The answer to a play request: what was added, or the error.
pub fn play_request_reply(result: &Result<(TrackMetadata, usize), MusicError>) -> (e: Embed)
    ensures
        match result {
            Ok((m, n)) => {
                &&& e.title@ == "Music"@
                &&& e.description@ == if *n > 1 {
                    "✅ Added playlist: with "@ + decimal(*n as nat) + " tracks"@
                } else {
                    "✅ Added to queue: "@ + m.title@
                }
                &&& e.color == GREEN
            },
            Err(err) => {
                &&& e.title@ == "❌ Error"@
                &&& e.description@ == music_error_text(*err)
                &&& e.color == RED
            },
        },
        e.ephemeral,
{
    match result {
        Ok((m, n)) => play_success_response(m, *n),
        Err(err) => {
            let text = err.message();
            generic_error(text.as_str())
        },
    }
}

/// The first track of a play request and how many tracks it added.
pub fn first_and_count(inputs: &Vec<TrackMetadata>) -> (r: (TrackMetadata, usize))
    requires
        inputs@.len() > 0,
    ensures
        r.0@ == inputs@[0]@,
        r.1 == inputs@.len(),
{
    (inputs[0].copy(), inputs.len())
}

/// Whether the task that refreshes the player message goes on: the bot is still in a
/// call (`queue_len` is its queue's length) and something is queued.
pub fn update_should_continue(queue_len: Option<usize>) -> (b: bool)
    ensures
        b == (queue_len matches Some(n) && n > 0),
{
    match queue_len {
        Some(n) => n > 0,
        None => false,
    }
}

/// How the player message is brought up to date.
#[derive(Clone, Copy, Debug, PartialEq, Eq, Structural)]
pub enum MessageUpdate {
    /// Edit the stored message.
    Edit { message_id: u64 },
    /// Send a new message (and store it).
    SendNew,
}

/// How the player message of guild `g` is brought up to date: the stored message is
/// edited; without one, a new message is sent. (A failed edit also ends in a new
/// message.)
pub fn send_or_update_message<Q, T>(manager: &MusicManager<Q, T>, g: u64) -> (r: MessageUpdate)
    ensures
        r == match manager.guild(g).message_id {
            Some(id) => MessageUpdate::Edit { message_id: id },
            None => MessageUpdate::SendNew,
        },
{
    match manager.get_message_id(g) {
        Some(id) => MessageUpdate::Edit { message_id: id },
        None => MessageUpdate::SendNew,
    }
}

/// Records a newly sent player message of guild `g` and its channel.
pub fn send_and_store_new_message<Q, T>(manager: &mut MusicManager<Q, T>, g: u64, channel_id: u64, message_id: u64)
    ensures
        final(manager).guild(g).channel_id == Some(channel_id),
        final(manager).guild(g).message_id == Some(message_id),
        final(manager).guild(g).queue == old(manager).guild(g).queue,
        final(manager).guild(g).show_queue == old(manager).guild(g).show_queue,
        final(manager).guild(g).task == old(manager).guild(g).task,
        final(manager).guild(g).repeat == old(manager).guild(g).repeat,
        final(manager).same_except(old(manager), g),
{
    manager.store_channel_id(g, channel_id);
    manager.store_message_id(g, message_id);
}

/// The state of a track as its handle reports it.
#[derive(Clone, Copy, Debug, PartialEq, Eq, Structural)]
pub enum PlayState {
    Playing,
    Paused,
    /// Stopped, ended or failed.
    Other,
}

/// What the pause command does to the playing track.
#[derive(Clone, Copy, Debug, PartialEq, Eq, Structural)]
pub enum PauseAction {
    Pause,
    Resume,
    /// The track can be neither paused nor resumed.
    NotPausable,
}

/// What the pause command does to a track in `state`.
pub fn pause_action(state: PlayState) -> (a: PauseAction)
    ensures
        a == match state {
            PlayState::Playing => PauseAction::Pause,
            PlayState::Paused => PauseAction::Resume,
            PlayState::Other => PauseAction::NotPausable,
        },
{
    match state {
        PlayState::Playing => PauseAction::Pause,
        PlayState::Paused => PauseAction::Resume,
        PlayState::Other => PauseAction::NotPausable,
    }
}

/// The confirmation of a done pause action on the track `title`.
pub fn pause_message(paused: bool, title: &str) -> (s: String)
    ensures
        s@ == if paused {
            "⏸️ Paused: "@ + title@
        } else {
            "▶️ Resumed: "@ + title@
        },
{
    let mut s = if paused {
        "⏸️ Paused: ".to_string()
    } else {
        "▶️ Resumed: ".to_string()
    };
    push_str(&mut s, title);
    s
}

/// The voice channel of a user, from the cache: `guild_cached` says whether the guild
/// is cached, `voice_state` is the user's voice state there (if any) with its channel
/// (if any).
pub fn get_user_voice_channel(guild_cached: bool, voice_state: Option<Option<u64>>) -> (r: Result<
    u64,
    MusicError,
>)
    ensures
        !guild_cached ==> r == Err::<u64, MusicError>(MusicError::NotInGuild),
        guild_cached ==> r == match voice_state {
            Some(Some(c)) => Ok::<u64, MusicError>(c),
            _ => Err(MusicError::UserNotInVoiceChannel),
        },
{
    if !guild_cached {
        return Err(MusicError::NotInGuild);
    }
    match voice_state {
        Some(Some(c)) => Ok(c),
        _ => Err(MusicError::UserNotInVoiceChannel),
    }
}

/// What joining a user's voice channel asks for: nothing where the bot is already in a
/// call of the guild, else joining the user's channel; a user outside voice channels is
/// an error.
pub fn try_join_voice(user_channel: Result<u64, MusicError>, connected: bool) -> (r: Result<
    Option<u64>,
    MusicError,
>)
    ensures
        match user_channel {
            Err(_) => r == Err::<Option<u64>, MusicError>(MusicError::UserNotInVoiceChannel),
            Ok(c) => r == Ok::<Option<u64>, MusicError>(if connected {
                None
            } else {
                Some(c)
            }),
        },
{
    match user_channel {
        Err(_) => Err(MusicError::UserNotInVoiceChannel),
        Ok(c) => if connected {
            Ok(None)
        } else {
            Ok(Some(c))
        },
    }
}

/// The error for a failed join, with the failure's text.
pub fn join_error(detail: &str) -> (e: MusicError)
    ensures
        e matches MusicError::JoinError(m) && m@ == detail@,
{
    MusicError::JoinError(detail.to_string())
}

/// The outcome of leaving the voice channel: an error where the bot was in no call
/// (`connected`), or where leaving failed (`left`).
pub fn leave_channel(connected: bool, left: bool) -> (r: Result<(), MusicError>)
    ensures
        !connected ==> r == Err::<(), MusicError>(MusicError::NotConnected),
        connected && !left ==> (r matches Err(MusicError::JoinError(m)) && m@
            == "Failed to leave voice channel"@),
        connected && left ==> r is Ok,
{
    if !connected {
        Err(MusicError::NotConnected)
    } else if !left {
        Err(MusicError::JoinError("Failed to leave voice channel".to_string()))
    } else {
        Ok(())
    }
}

/// The access token to use without asking Spotify: the cached one, while it has not
/// expired (`elapsed` since it was issued).
pub fn cached_access_token(cached: Option<&SpotifyToken>, elapsed: TimeSpan) -> (r: Option<String>)
    requires
        elapsed.wf(),
    ensures
        match cached {
            Some(t) => if elapsed.total_nanos() > if t.expires_in >= 30 {
                (t.expires_in - 30) * 1_000_000_000int
            } else {
                0
            } {
                r is None
            } else {
                r matches Some(s) && s@ == t.access_token@
            },
            None => r is None,
        },
{
    match cached {
        Some(t) => if !t.is_expired(elapsed) {
            Some(t.access_token.clone())
        } else {
            None
        },
        None => None,
    }
}

/// The error for a missing Spotify credential, named by its variable.
pub fn missing_credential(variable: &str) -> (e: MusicError)
    ensures
        e matches MusicError::ConfigError(m) && m@ == variable@ + " not set"@,
{
    let mut m = variable.to_string();
    push_str(&mut m, " not set");
    MusicError::ConfigError(m)
}

/// What a Spotify link asks for: a track, a playlist or an album; every other link is
/// an error.
pub fn spotify_metadata_target(url: &str) -> (r: Result<SpotifyLink, MusicError>)
    ensures
        match spotify_id_spec(url@, "track"@) {
            Some(id) => r matches Ok(SpotifyLink::Track(x)) && x@ == id,
            None => match spotify_id_spec(url@, "playlist"@) {
                Some(id) => r matches Ok(SpotifyLink::Playlist(x)) && x@ == id,
                None => match spotify_id_spec(url@, "album"@) {
                    Some(id) => r matches Ok(SpotifyLink::Album(x)) && x@ == id,
                    None => r matches Err(MusicError::AudioSourceError(m)) && m@ == "Invalid Spotify URL"@,
                },
            },
        },
{
    match SpotifyApi::classify_link(url) {
        Some(link) => Ok(link),
        None => Err(MusicError::AudioSourceError("Invalid Spotify URL".to_string())),
    }
}

/// The error for a failed call of `yt-dlp`, with the failure's text.
pub fn video_metadata_error(detail: &str) -> (e: MusicError)
    ensures
        e matches MusicError::AudioSourceError(m) && m@ == "Failed to get video metadata: "@ + detail@,
{
    let mut m = "Failed to get video metadata: ".to_string();
    push_str(&mut m, detail);
    MusicError::AudioSourceError(m)
}

/// The related songs to use: those that the search service gave where it was asked
/// and found some; `None` where it was not asked, failed, or found none (the `yt-dlp`
/// search is used then).
pub fn related_songs_choice(serp: Option<Result<Vec<TrackMetadata>, MusicError>>) -> (r: Option<
    Vec<TrackMetadata>,
>)
    ensures
        match serp {
            Some(Ok(v)) => if v@.len() > 0 {
                r == Some(v)
            } else {
                r is None
            },
            Some(Err(_)) => r is None,
            None => r is None,
        },
{
    match serp {
        Some(Ok(v)) => if v.len() > 0 {
            Some(v)
        } else {
            None
        },
        Some(Err(_)) => None,
        None => None,
    }
}

/// The error for `yt-dlp` output that is no video metadata, with the parser's text.
pub fn video_parse_error(detail: &str) -> (e: MusicError)
    ensures
        e matches MusicError::AudioSourceError(m) && m@ == "Failed to parse video metadata: "@ + detail@,
{
    let mut m = "Failed to parse video metadata: ".to_string();
    push_str(&mut m, detail);
    MusicError::AudioSourceError(m)
}

/// The error for a failed search for related videos, with the failure's text.
pub fn related_search_error(detail: &str) -> (e: MusicError)
    ensures
        e matches MusicError::AudioSourceError(m) && m@ == "Failed to search for related videos: "@ + detail@,
{
    let mut m = "Failed to search for related videos: ".to_string();
    push_str(&mut m, detail);
    MusicError::AudioSourceError(m)
}

} // verus!
