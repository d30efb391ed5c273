use vstd::prelude::*;

use crate::controls::{
    eject_view, next_view, play_pause_view, queue_view, repeat_view, search_view, shuffle_view,
};
use crate::flags::{FlagState, GuildFlags};
use crate::music::MusicManager;
use crate::queue::{next_repeat, GuildState, QueueManager, RepeatState};
use crate::text::str_eq;
use crate::track::TrackMetadata;

verus! {

/// What a control button asks for.
#[derive(Clone, Copy, Debug, PartialEq, Eq, Structural)]
pub enum ButtonAction {
    PlayPause,
    Eject,
    Next,
    QueueToggle,
    Previous,
    Search,
    Repeat,
    Shuffle,
}

/// The action of a button id, if it is one.
pub open spec fn action_of(id: Seq<char>) -> Option<ButtonAction> {
    if id == "music_play_pause"@ {
        Some(ButtonAction::PlayPause)
    } else if id == "music_eject"@ {
        Some(ButtonAction::Eject)
    } else if id == "music_next"@ {
        Some(ButtonAction::Next)
    } else if id == "music_queue_toggle"@ {
        Some(ButtonAction::QueueToggle)
    } else if id == "music_previous"@ {
        Some(ButtonAction::Previous)
    } else if id == "music_search"@ {
        Some(ButtonAction::Search)
    } else if id == "music_repeat"@ {
        Some(ButtonAction::Repeat)
    } else if id == "music_shuffle"@ {
        Some(ButtonAction::Shuffle)
    } else {
        None
    }
}

/// The action of a button id, if it is one.
pub fn button_action(custom_id: &str) -> (a: Option<ButtonAction>)
    ensures
        a == action_of(custom_id@),
{
    if str_eq(custom_id, "music_play_pause") {
        Some(ButtonAction::PlayPause)
    } else if str_eq(custom_id, "music_eject") {
        Some(ButtonAction::Eject)
    } else if str_eq(custom_id, "music_next") {
        Some(ButtonAction::Next)
    } else if str_eq(custom_id, "music_queue_toggle") {
        Some(ButtonAction::QueueToggle)
    } else if str_eq(custom_id, "music_previous") {
        Some(ButtonAction::Previous)
    } else if str_eq(custom_id, "music_search") {
        Some(ButtonAction::Search)
    } else if str_eq(custom_id, "music_repeat") {
        Some(ButtonAction::Repeat)
    } else if str_eq(custom_id, "music_shuffle") {
        Some(ButtonAction::Shuffle)
    } else {
        None
    }
}

/// Where a button press goes.
#[derive(Clone, Copy, Debug, PartialEq, Eq, Structural)]
pub enum InteractionRoute {
    /// The bot is in no voice channel of the guild: the user is told so.
    NotConnected,
    /// The press is handled as this action.
    Run(ButtonAction),
    /// The id is no button of the player: the user is told so.
    Unknown,
}

/// The text sent when the bot is in no voice channel.
pub open spec fn not_connected_text() -> Seq<char> {
    "I'm not in a voice channel."@
}

/// The text sent for a button the player does not have.
pub open spec fn unknown_button_text() -> Seq<char> {
    "Unknown button action."@
}

impl InteractionRoute {
    /// The text the user gets for a press that is not carried out.
    pub fn followup_text(self) -> (t: Option<String>)
        ensures
            match self {
                InteractionRoute::NotConnected => t matches Some(x) && x@ == not_connected_text(),
                InteractionRoute::Unknown => t matches Some(x) && x@ == unknown_button_text(),
                InteractionRoute::Run(_) => t is None,
            },
    {
        match self {
            InteractionRoute::NotConnected => Some("I'm not in a voice channel.".to_string()),
            InteractionRoute::Unknown => Some("Unknown button action.".to_string()),
            InteractionRoute::Run(_) => None,
        }
    }
}

/// Where a press of the player's buttons goes: the search button works without a
/// voice connection; every other press needs one; the player has no "previous" button.
pub open spec fn interaction_route_spec(id: Seq<char>, connected: bool) -> InteractionRoute {
    if id != "music_search"@ && !connected {
        InteractionRoute::NotConnected
    } else {
        match action_of(id) {
            Some(ButtonAction::Previous) => InteractionRoute::Unknown,
            Some(a) => InteractionRoute::Run(a),
            None => InteractionRoute::Unknown,
        }
    }
}

/// Every button that the player draws is handled as its own action, whatever state it
/// was drawn in: with a voice connection, pressing eject, play/pause, skip, the queue
/// button, search, repeat or shuffle runs that very action; without one, every press
/// but search is answered that the bot is in no voice channel, and search still runs.
pub proof fn lemma_drawn_buttons_run_their_action(
    is_playing: bool,
    no_track: bool,
    has_queue: bool,
    show_queue: bool,
    state: RepeatState,
)
    ensures
        interaction_route_spec(eject_view().custom_id, true) == InteractionRoute::Run(
            ButtonAction::Eject,
        ),
        interaction_route_spec(play_pause_view(is_playing, no_track).custom_id, true)
            == InteractionRoute::Run(ButtonAction::PlayPause),
        interaction_route_spec(next_view(is_playing, has_queue).custom_id, true)
            == InteractionRoute::Run(ButtonAction::Next),
        interaction_route_spec(queue_view(has_queue, show_queue).custom_id, true)
            == InteractionRoute::Run(ButtonAction::QueueToggle),
        interaction_route_spec(search_view().custom_id, true) == InteractionRoute::Run(
            ButtonAction::Search,
        ),
        interaction_route_spec(repeat_view(state).custom_id, true) == InteractionRoute::Run(
            ButtonAction::Repeat,
        ),
        interaction_route_spec(shuffle_view().custom_id, true) == InteractionRoute::Run(
            ButtonAction::Shuffle,
        ),
        interaction_route_spec(search_view().custom_id, false) == InteractionRoute::Run(
            ButtonAction::Search,
        ),
        interaction_route_spec(eject_view().custom_id, false) == InteractionRoute::NotConnected,
        interaction_route_spec(play_pause_view(is_playing, no_track).custom_id, false)
            == InteractionRoute::NotConnected,
        interaction_route_spec(next_view(is_playing, has_queue).custom_id, false)
            == InteractionRoute::NotConnected,
        interaction_route_spec(queue_view(has_queue, show_queue).custom_id, false)
            == InteractionRoute::NotConnected,
        interaction_route_spec(repeat_view(state).custom_id, false) == InteractionRoute::NotConnected,
        interaction_route_spec(shuffle_view().custom_id, false) == InteractionRoute::NotConnected,
{
    reveal_strlit("music_play_pause");
    reveal_strlit("music_eject");
    reveal_strlit("music_next");
    reveal_strlit("music_queue_toggle");
    reveal_strlit("music_previous");
    reveal_strlit("music_search");
    reveal_strlit("music_repeat");
    reveal_strlit("music_shuffle");
    assert("music_play_pause"@.len() == 16);
    assert("music_eject"@.len() == 11);
    assert("music_next"@.len() == 10);
    assert("music_queue_toggle"@.len() == 18);
    assert("music_previous"@.len() == 14);
    assert("music_search"@.len() == 12);
    assert("music_repeat"@.len() == 12);
    assert("music_shuffle"@.len() == 13);
    assert("music_repeat"@[6] != "music_search"@[6]);
}

/// Routes a press of the player's buttons; `connected` says whether the bot is in a
/// voice channel of the guild.
pub fn handle_interaction(custom_id: &str, connected: bool) -> (r: InteractionRoute)
    ensures
        r == interaction_route_spec(custom_id@, connected),
{
    if !str_eq(custom_id, "music_search") && !connected {
        return InteractionRoute::NotConnected;
    }
    match button_action(custom_id) {
        Some(ButtonAction::Previous) => InteractionRoute::Unknown,
        Some(a) => InteractionRoute::Run(a),
        None => InteractionRoute::Unknown,
    }
}

/// Where a press of the history-aware buttons goes: every press needs a voice
/// connection; those buttons have no repeat or shuffle.
pub open spec fn button_route_spec(id: Seq<char>, connected: bool) -> InteractionRoute {
    if !connected {
        InteractionRoute::NotConnected
    } else {
        match action_of(id) {
            Some(ButtonAction::Repeat) => InteractionRoute::Unknown,
            Some(ButtonAction::Shuffle) => InteractionRoute::Unknown,
            Some(a) => InteractionRoute::Run(a),
            None => InteractionRoute::Unknown,
        }
    }
}

/// Routes a press of the history-aware buttons.
pub fn handle_button_interaction(custom_id: &str, connected: bool) -> (r: InteractionRoute)
    ensures
        r == button_route_spec(custom_id@, connected),
{
    if !connected {
        return InteractionRoute::NotConnected;
    }
    match button_action(custom_id) {
        Some(ButtonAction::Repeat) => InteractionRoute::Unknown,
        Some(ButtonAction::Shuffle) => InteractionRoute::Unknown,
        Some(a) => InteractionRoute::Run(a),
        None => InteractionRoute::Unknown,
    }
}

/// What the play/pause button does to the playing track.
#[derive(Clone, Copy, Debug, PartialEq, Eq, Structural)]
pub enum PlayPause {
    Pause,
    Play,
    /// Nothing plays: the user is told so.
    NoTrack,
}

/// What the play/pause button does, given whether a track is loaded and, if so,
/// whether it plays.
pub fn handle_play_pause(playing: Option<bool>) -> (r: PlayPause)
    ensures
        r == match playing {
            Some(true) => PlayPause::Pause,
            Some(false) => PlayPause::Play,
            None => PlayPause::NoTrack,
        },
{
    match playing {
        Some(true) => PlayPause::Pause,
        Some(false) => PlayPause::Play,
        None => PlayPause::NoTrack,
    }
}

/// The text for a play/pause or repeat press while nothing plays.
pub fn no_track_text() -> (t: String)
    ensures
        t@ == "No track is currently playing."@,
{
    "No track is currently playing.".to_string()
}

/// The text for a skip press while nothing plays.
pub fn no_track_to_skip_text() -> (t: String)
    ensures
        t@ == "No track is currently playing to skip."@,
{
    "No track is currently playing to skip.".to_string()
}

/// The repeat mode after the repeat button was pressed; the playing track loops
/// exactly when the new mode is `Track`.
pub fn handle_repeat(current: RepeatState) -> (r: RepeatState)
    ensures
        r == next_repeat(current),
{
    match current {
        RepeatState::Disabled => RepeatState::Track,
        RepeatState::Track => RepeatState::Disabled,
    }
}

/// How the player message is deleted when the player is ejected.
#[derive(Clone, Copy, Debug, PartialEq, Eq, Structural)]
pub enum MessageDeletion {
    /// The pressed message is the player message: delete it through the interaction,
    /// and directly where that fails.
    ViaInteraction { channel_id: u64, message_id: u64 },
    /// Delete the stored player message directly.
    Direct { channel_id: u64, message_id: u64 },
    /// No player message is known.
    Missing,
}

/// How the player message goes, from where it is stored and which message was pressed.
pub open spec fn deletion_spec(
    channel_id: Option<u64>,
    message_id: Option<u64>,
    pressed: u64,
) -> MessageDeletion {
    match (channel_id, message_id) {
        (Some(c), Some(m)) => if m == pressed {
            MessageDeletion::ViaInteraction { channel_id: c, message_id: m }
        } else {
            MessageDeletion::Direct { channel_id: c, message_id: m }
        },
        _ => MessageDeletion::Missing,
    }
}

/// How the player message goes, from where it is stored and which message was pressed.
pub fn message_deletion(channel_id: Option<u64>, message_id: Option<u64>, pressed: u64) -> (r:
    MessageDeletion)
    ensures
        r == deletion_spec(channel_id, message_id, pressed),
{
    match (channel_id, message_id) {
        (Some(c), Some(m)) => if m == pressed {
            MessageDeletion::ViaInteraction { channel_id: c, message_id: m }
        } else {
            MessageDeletion::Direct { channel_id: c, message_id: m }
        },
        _ => MessageDeletion::Missing,
    }
}

/// Ejecting the player of guild `g`: decides how the player message goes and then
/// forgets the guild's queue, message, channel and repeat mode. The caller has
/// stopped the queue and left the voice channel.
pub fn handle_music_eject<Q, T>(manager: &mut MusicManager<Q, T>, g: u64, pressed: u64) -> (r:
    MessageDeletion)
    ensures
        r == deletion_spec(old(manager).guild(g).channel_id, old(manager).guild(g).message_id, pressed),
        final(manager).guild(g) == old(manager).guild(g).dropped(),
        final(manager).same_except(old(manager), g),
{
    let deletion = message_deletion(manager.get_channel_id(g), manager.get_message_id(g), pressed);
    manager.drop_all(g);
    deletion
}

/// What ejecting a guild whose queue the queue manager keeps leaves to do: stop the
/// refresh task, and delete the player message.
pub struct EjectPlan<T> {
    pub task: Option<T>,
    pub deletion: MessageDeletion,
}

/// Ejecting the player of guild `g` with the queue manager: marks the stop as manual
/// (so that autoplay does not start), forgets the guild's queue, track, history and
/// settings, and decides how the player message goes.
pub fn eject_guild<H, T>(
    queues: &mut QueueManager<H, T>,
    flags: &mut GuildFlags,
    g: u64,
    pressed: u64,
) -> (plan: EjectPlan<T>)
    requires
        old(queues).wf(),
    ensures
        final(queues).wf(),
        plan.task == old(queues).guild(g).task,
        final(queues).guild(g) == GuildState::<H, T>::initial(),
        final(queues).same_except(old(queues), g),
        final(flags).guild(g) == (FlagState { manual_stop: true, ..old(flags).guild(g) }),
        final(flags).same_except(old(flags), g),
        plan.deletion == deletion_spec(
            old(flags).guild(g).channel_id,
            old(flags).guild(g).message_id,
            pressed,
        ),
{
    flags.set_manual_stop_flag(g, true);
    let task = queues.clear(g);
    let deletion = message_deletion(flags.get_channel_id(g), flags.get_message_id(g), pressed);
    EjectPlan { task, deletion }
}

/// Why going back to the previous track did not happen.
#[derive(Clone, Copy, Debug, PartialEq, Eq, Structural)]
pub enum PreviousError {
    /// The history is empty.
    NoHistory,
    /// The bot is no longer in the voice channel.
    LostConnection,
    /// The previous track has no link to play it from.
    MissingUrl,
    /// The audio of the previous track could not be fetched.
    SourceFailed,
}

/// The text the user gets for a failed "previous track" action.
pub open spec fn previous_error_text(e: PreviousError) -> Seq<char> {
    match e {
        PreviousError::NoHistory => "No previous track in history."@,
        PreviousError::LostConnection => "Lost connection to voice channel."@,
        PreviousError::MissingUrl => "Previous track is missing URL."@,
        PreviousError::SourceFailed => "Failed to create audio source for previous track."@,
    }
}

impl PreviousError {
    /// The text the user gets for this failure.
    pub fn message(self) -> (s: String)
        ensures
            s@ == previous_error_text(self),
    {
        match self {
            PreviousError::NoHistory => "No previous track in history.".to_string(),
            PreviousError::LostConnection => "Lost connection to voice channel.".to_string(),
            PreviousError::MissingUrl => "Previous track is missing URL.".to_string(),
            PreviousError::SourceFailed => "Failed to create audio source for previous track.".to_string(),
        }
    }
}

/// First step of going back to the previous track of guild `g`: takes the most recent
/// track from the history and marks the action as under way. The caller then stops
/// the playing track.
pub fn start_previous<H, T>(queues: &mut QueueManager<H, T>, flags: &mut GuildFlags, g: u64) -> (r:
    Result<TrackMetadata, PreviousError>)
    requires
        old(queues).wf(),
    ensures
        final(queues).wf(),
        old(queues).guild(g).history.len() == 0 ==> {
            &&& r == Err::<TrackMetadata, PreviousError>(PreviousError::NoHistory)
            &&& final(queues).guild(g) == old(queues).guild(g)
            &&& final(flags).guild(g) == old(flags).guild(g)
        },
        old(queues).guild(g).history.len() > 0 ==> {
            &&& r == Ok::<TrackMetadata, PreviousError>(old(queues).guild(g).history[0])
            &&& final(queues).guild(g) == old(queues).guild(g).history_taken()
            &&& final(flags).guild(g) == old(flags).guild(g).with_previous_action(true)
        },
        final(queues).same_except(old(queues), g),
        final(flags).same_except(old(flags), g),
{
    if !queues.has_history(g) {
        return Err(PreviousError::NoHistory);
    }
    match queues.previous(g) {
        Some(m) => {
            flags.set_previous_action_flag(g, true);
            Ok(m)
        },
        None => Err(PreviousError::NoHistory),
    }
}

/// Second step: once the caller has looked for the voice call (`call_found`), gives
/// the link to play the previous track `metadata` from. On failure the action is marked
/// as over.
pub fn previous_source(flags: &mut GuildFlags, g: u64, metadata: &TrackMetadata, call_found: bool) -> (r:
    Result<String, PreviousError>)
    ensures
        !call_found ==> r == Err::<String, PreviousError>(PreviousError::LostConnection),
        call_found && metadata.url is None ==> r == Err::<String, PreviousError>(
            PreviousError::MissingUrl,
        ),
        call_found && metadata.url is Some ==> (r matches Ok(u) && u@ == metadata.url.unwrap()@),
        r is Err ==> final(flags).guild(g) == old(flags).guild(g).with_previous_action(false),
        r is Ok ==> final(flags).guild(g) == old(flags).guild(g),
        final(flags).same_except(old(flags), g),
{
    if !call_found {
        flags.clear_previous_action_flag(g);
        return Err(PreviousError::LostConnection);
    }
    match &metadata.url {
        Some(u) => Ok(u.clone()),
        None => {
            flags.clear_previous_action_flag(g);
            Err(PreviousError::MissingUrl)
        },
    }
}

/// Last step: `handle` is the handle of the previous track now playing, or `None` where
/// its audio could not be fetched. A playing track becomes the guild's current track
/// (the one it replaces goes to the history); either way the action is marked as over.
pub fn finish_previous<H, T>(
    queues: &mut QueueManager<H, T>,
    flags: &mut GuildFlags,
    g: u64,
    metadata: TrackMetadata,
    handle: Option<H>,
) -> (r: Result<(), PreviousError>)
    requires
        old(queues).wf(),
    ensures
        final(queues).wf(),
        match handle {
            Some(h) => {
                &&& r is Ok
                &&& final(queues).guild(g) == old(queues).guild(g).with_current(h, metadata)
            },
            None => {
                &&& r == Err::<(), PreviousError>(PreviousError::SourceFailed)
                &&& final(queues).guild(g) == old(queues).guild(g)
            },
        },
        final(flags).guild(g) == old(flags).guild(g).with_previous_action(false),
        final(queues).same_except(old(queues), g),
        final(flags).same_except(old(flags), g),
{
    let r = match handle {
        Some(h) => {
            queues.set_current_track(g, h, metadata);
            Ok(())
        },
        None => Err(PreviousError::SourceFailed),
    };
    flags.clear_previous_action_flag(g);
    r
}

/// Going back to the previous track ends with the guild's previous-track mark clear,
/// whichever way it ends, and with its other marks as they were: with an empty
/// history `start_previous` changes no mark (a clear mark stays clear); otherwise it
/// sets the mark, and the step that ends the action (`previous_source` failing, or
/// `finish_previous`) clears it. `f` is the guild's marks before the action.
pub proof fn lemma_previous_mark_cleared(f: FlagState, has_history: bool)
    requires
        has_history || !f.previous_action,
    ensures
        ({
            let started = if has_history {
                f.with_previous_action(true)
            } else {
                f
            };
            let ended = if has_history {
                started.with_previous_action(false)
            } else {
                started
            };
            &&& !ended.previous_action
            &&& ended == f.with_previous_action(false)
        }),
{
}

/// Going back swaps the playing track with the most recent one of the history: the
/// track taken from the history plays, and the track it replaces is the new most recent
/// entry.
pub proof fn lemma_previous_swaps<H, T>(s: GuildState<H, T>, handle: H)
    requires
        s.wf(),
        s.history.len() > 0,
        s.current is Some,
    ensures
        ({
            let t = s.history_taken().with_current(handle, s.history[0]);
            &&& t.current == Some((handle, s.history[0]))
            &&& t.history[0] == s.current.unwrap().1
            &&& t.history.len() == s.history.len()
            &&& t.queue == s.queue
        }),
{
    let t = s.history_taken().with_current(handle, s.history[0]);
    assert(t.history[0] == s.current.unwrap().1);
}

} // verus!
