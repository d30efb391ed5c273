use vstd::prelude::*;

use crate::controls::ButtonData;
use crate::duration::{duration_text, format_duration, TimeSpan};
use crate::queue::RepeatState;
use crate::text::{decimal, push_char, push_decimal, push_str};
use crate::track::{durations_wf, MusicError, TrackMetadata};

verus! {

/// Segments of the progress bar, the knob not counted.
pub const BAR_LENGTH: usize = 15;

/// The colour of the player and success messages.
pub const GREEN: u32 = 0x00ff00;

/// The colour of error messages.
pub const RED: u32 = 0xff0000;

/// `n` copies of `c`.
pub open spec fn repeated(c: char, n: nat) -> Seq<char> {
    Seq::new(n, |i: int| c)
}

/// A progress bar with `filled` segments before the knob.
pub open spec fn bar_text(filled: nat) -> Seq<char> {
    repeated('▬', filled) + seq!['🔘'] + repeated('▬', (BAR_LENGTH - filled) as nat)
}

/// The link of a track, `#` where it has none.
pub open spec fn url_or_hash(m: TrackMetadata) -> Seq<char> {
    match m.url {
        Some(u) => u@,
        None => "#"@,
    }
}

/// The sum, in nanoseconds, of the known lengths of `s`.
pub open spec fn known_duration_total(s: Seq<TrackMetadata>) -> int
    decreases s.len(),
{
    if s.len() == 0 {
        0
    } else {
        known_duration_total(s.drop_last()) + match s.last().duration {
            Some(d) => d.total_nanos(),
            None => 0,
        }
    }
}

/// One line of the list of upcoming tracks.
pub open spec fn track_entry(k: nat, m: TrackMetadata) -> Seq<char> {
    decimal(k) + ". ["@ + m.title@ + "]("@ + url_or_hash(m) + ")"@ + match m.duration {
        Some(d) => " `"@ + duration_text(d.secs as nat) + "`"@,
        None => ""@,
    } + "\n"@
}

/// The lines of the first `n` tracks of `tracks`, numbered from 1.
pub open spec fn upcoming_entries(tracks: Seq<TrackMetadata>, n: nat) -> Seq<char>
    decreases n,
{
    if n == 0 {
        Seq::empty()
    } else {
        upcoming_entries(tracks, (n - 1) as nat) + track_entry(n, tracks[n - 1])
    }
}

/// The length of the playing track, zero where it is not known.
pub open spec fn length_or_zero(m: TrackMetadata) -> TimeSpan {
    match m.duration {
        Some(d) => d,
        None => TimeSpan { secs: 0, nanos: 0 },
    }
}

/// What is left of a track of length `length` at `position`.
pub open spec fn left_in_track(length: TimeSpan, position: TimeSpan) -> int {
    if length.total_nanos() >= position.total_nanos() {
        length.total_nanos() - position.total_nanos()
    } else {
        0
    }
}

/// The seconds left to play: the rest of the playing track and every known length
/// behind it.
pub open spec fn seconds_left(queue: Seq<TrackMetadata>, position: TimeSpan) -> int {
    (known_duration_total(queue.drop_first()) + left_in_track(length_or_zero(queue[0]), position))
        / 1_000_000_000
}

/// The description of the player message while the first track of `queue` plays at
/// `position`, with `filled` segments of the bar before the knob.
pub open spec fn now_playing_text(
    queue: Seq<TrackMetadata>,
    position: TimeSpan,
    show_queue: bool,
    filled: nat,
) -> Seq<char> {
    let current = queue[0];
    let length = length_or_zero(current);
    let rest = queue.drop_first();
    let shown: nat = if rest.len() < 10 {
        rest.len()
    } else {
        10
    };
    "**Now Playing:** ["@ + current.title@ + "]("@ + url_or_hash(current) + ")\n"@ + bar_text(filled)
        + " `"@ + duration_text((position.secs % length.secs) as nat) + "/"@ + duration_text(
        length.secs as nat,
    ) + "`\n\n"@ + "**Queue:** "@ + decimal(rest.len()) + " tracks (`"@ + duration_text(
        seconds_left(queue, position) as nat,
    ) + "` remaining)\n"@ + if show_queue && queue.len() > 1 {
        "\n**Upcoming Tracks:**\n"@ + upcoming_entries(rest, shown) + if queue.len() > 11 {
            "... and "@ + decimal((queue.len() - 11) as nat) + " more\n"@
        } else {
            ""@
        }
    } else {
        ""@
    }
}

/// What asking a track handle for its state gave.
pub enum TrackInfoResult {
    /// The track's state: whether it plays, and where it stands.
    Info { playing: bool, position: TimeSpan },
    /// The track has just finished.
    Finished,
    /// The handle answered with another error, whose text this is.
    Failed(String),
}

/// The player message: an embed and the state of its buttons.
pub struct PlayerMessage {
    pub title: Option<String>,
    pub thumbnail: Option<String>,
    pub description: String,
    pub color: u32,
    pub buttons: ButtonData,
}

/// The text of the player message when nothing plays.
pub open spec fn nothing_playing_text() -> Seq<char> {
    "**🔇 Nothing playing or queued.**"@
}

/// A sum of known lengths is never negative.
proof fn lemma_known_total_nonneg(s: Seq<TrackMetadata>)
    ensures
        known_duration_total(s) >= 0,
    decreases s.len(),
{
    if s.len() > 0 {
        lemma_known_total_nonneg(s.drop_last());
    }
}

/// The sums of the known lengths grow with the tracks counted.
proof fn lemma_known_total_prefix(s: Seq<TrackMetadata>, j: int)
    requires
        0 <= j <= s.len(),
    ensures
        0 <= known_duration_total(s.take(j)) <= known_duration_total(s),
    decreases s.len(),
{
    if j == s.len() {
        assert(s.take(j) =~= s);
        lemma_known_total_nonneg(s);
    } else {
        lemma_known_total_prefix(s.drop_last(), j);
        assert(s.drop_last().take(j) =~= s.take(j));
    }
}

/// The whole seconds of a well-formed span are its nanoseconds divided by a billion.
proof fn lemma_secs_of_total(t: TimeSpan)
    requires
        t.wf(),
    ensures
        t.secs == t.total_nanos() / 1_000_000_000,
{
    vstd::arithmetic::div_mod::lemma_fundamental_div_mod_converse(
        t.total_nanos(),
        1_000_000_000,
        t.secs as int,
        t.nanos as int,
    );
}

/// Appends the link of `m`, `#` where it has none.
fn push_url_or_hash(s: &mut String, m: &TrackMetadata)
    ensures
        final(s)@ == old(s)@ + url_or_hash(*m),
{
    match &m.url {
        Some(u) => push_str(s, u.as_str()),
        None => push_str(s, "#"),
    }
}

/// Appends `n` bar segments.
fn push_segments(s: &mut String, n: usize)
    ensures
        final(s)@ == old(s)@ + repeated('▬', n as nat),
{
    let ghost start = s@;
    let mut i: usize = 0;
    while i < n
        invariant
            i <= n,
            s@ == start + repeated('▬', i as nat),
        decreases n - i,
    {
        push_char(s, '▬');
        i = i + 1;
        assert(s@ =~= start + repeated('▬', i as nat));
    }
}

/// The progress bar with `filled` of its segments before the knob.
pub fn format_progress_bar(filled: usize) -> (s: String)
    requires
        filled <= BAR_LENGTH,
    ensures
        s@ == bar_text(filled as nat),
{
    let mut s = String::new();
    push_segments(&mut s, filled);
    push_char(&mut s, '🔘');
    push_segments(&mut s, BAR_LENGTH - filled);
    assert(s@ =~= bar_text(filled as nat));
    s
}

/// The title, the link (`#` where there is none) and the length (or
/// `Unknown duration`) of a track, as the messages show them.
pub fn parse_metadata(metadata: &TrackMetadata) -> (r: (String, String, String))
    requires
        metadata.duration matches Some(d) ==> d.wf(),
    ensures
        r.0@ == metadata.title@,
        r.1@ == url_or_hash(*metadata),
        r.2@ == match metadata.duration {
            Some(d) => duration_text(d.secs as nat),
            None => "Unknown duration"@,
        },
{
    let title = metadata.title.clone();
    let url = match &metadata.url {
        Some(u) => u.clone(),
        None => "#".to_string(),
    };
    let duration = match metadata.duration {
        Some(d) => format_duration(d),
        None => "Unknown duration".to_string(),
    };
    (title, url, duration)
}

/// Appends the line of upcoming track number `k`.
fn push_track_entry(s: &mut String, k: usize, m: &TrackMetadata)
    ensures
        final(s)@ == old(s)@ + track_entry(k as nat, *m),
{
    let ghost start = s@;
    push_decimal(s, k as u64);
    push_str(s, ". [");
    push_str(s, m.title.as_str());
    push_str(s, "](");
    push_url_or_hash(s, m);
    push_str(s, ")");
    match m.duration {
        Some(d) => {
            push_str(s, " `");
            let t = format_duration(d);
            push_str(s, t.as_str());
            push_str(s, "`");
        },
        None => {
            push_str(s, "");
        },
    }
    push_str(s, "\n");
    assert(s@ =~= start + track_entry(k as nat, *m));
}

/// The description of the player message while the first track of `queue` plays.
fn now_playing_description(
    queue: &Vec<TrackMetadata>,
    position: TimeSpan,
    show_queue: bool,
    filled: usize,
) -> (s: String)
    requires
        queue@.len() > 0,
        filled <= BAR_LENGTH,
        durations_wf(queue@),
        position.wf(),
        length_or_zero(queue@[0]).secs > 0,
        known_duration_total(queue@.drop_first()) + left_in_track(length_or_zero(queue@[0]), position)
            <= u64::MAX * 1_000_000_000int + 999_999_999,
    ensures
        s@ == now_playing_text(queue@, position, show_queue, filled as nat),
{
    let current = &queue[0];
    let length = match current.duration {
        Some(d) => d,
        None => TimeSpan::from_secs(0),
    };
    let mut s = String::new();
    push_str(&mut s, "**Now Playing:** [");
    push_str(&mut s, current.title.as_str());
    push_str(&mut s, "](");
    push_url_or_hash(&mut s, current);
    push_str(&mut s, ")\n");
    let bar = format_progress_bar(filled);
    push_str(&mut s, bar.as_str());
    push_str(&mut s, " `");
    let wrapped = TimeSpan::from_secs(position.as_secs() % length.as_secs());
    let pos_text = format_duration(wrapped);
    push_str(&mut s, pos_text.as_str());
    push_str(&mut s, "/");
    let len_text = format_duration(length);
    push_str(&mut s, len_text.as_str());
    push_str(&mut s, "`\n\n");
    let ghost head = s@;
    // The rest of the playing track, then every known length behind it.
    let remaining = length.saturating_sub(&position);
    let mut queued = TimeSpan::from_secs(0);
    let mut i: usize = 1;
    proof {
        assert(queue@.drop_first().take(0) =~= Seq::<TrackMetadata>::empty());
    }
    while i < queue.len()
        invariant
            1 <= i <= queue@.len(),
            durations_wf(queue@),
            queued.wf(),
            remaining.wf(),
            remaining.total_nanos() == left_in_track(length_or_zero(queue@[0]), position),
            queued.total_nanos() == known_duration_total(queue@.drop_first().take(i - 1)),
            known_duration_total(queue@.drop_first()) + remaining.total_nanos() <= u64::MAX
                * 1_000_000_000int + 999_999_999,
        decreases queue@.len() - i,
    {
        let ghost rest = queue@.drop_first();
        proof {
            assert(rest.take(i as int).drop_last() =~= rest.take(i - 1));
            assert(rest.take(i as int).last() == queue@[i as int]);
            lemma_known_total_prefix(rest, i as int);
            lemma_known_total_prefix(rest, i - 1);
        }
        match queue[i].duration {
            Some(d) => {
                queued = queued.plus(&d);
            },
            None => {},
        }
        i = i + 1;
    }
    proof {
        assert(queue@.drop_first().take(queue@.len() - 1) =~= queue@.drop_first());
    }
    let total = queued.plus(&remaining);
    proof {
        lemma_secs_of_total(total);
    }
    push_str(&mut s, "**Queue:** ");
    push_decimal(&mut s, (queue.len() - 1) as u64);
    push_str(&mut s, " tracks (`");
    let total_text = format_duration(total);
    push_str(&mut s, total_text.as_str());
    push_str(&mut s, "` remaining)\n");
    let ghost with_summary = s@;
    if show_queue && queue.len() > 1 {
        push_str(&mut s, "\n**Upcoming Tracks:**\n");
        let rest_len = queue.len() - 1;
        let shown: usize = if rest_len < 10 {
            rest_len
        } else {
            10
        };
        let ghost list_start = s@;
        let mut k: usize = 0;
        while k < shown
            invariant
                k <= shown <= queue@.len() - 1,
                s@ == list_start + upcoming_entries(queue@.drop_first(), k as nat),
            decreases shown - k,
        {
            push_track_entry(&mut s, k + 1, &queue[k + 1]);
            proof {
                assert(queue@.drop_first()[k as int] == queue@[k + 1]);
            }
            k = k + 1;
        }
        if queue.len() > 11 {
            push_str(&mut s, "... and ");
            push_decimal(&mut s, (queue.len() - 11) as u64);
            push_str(&mut s, " more\n");
        } else {
            push_str(&mut s, "");
        }
    } else {
        push_str(&mut s, "");
    }
    proof {
        assert(s@ =~= now_playing_text(queue@, position, show_queue, filled as nat));
    }
    s
}

/// What the player message must hold for a queue, a track state and the player's
/// settings; `filled` is where the knob of the progress bar stands.
pub open spec fn player_message_spec(
    queue: Seq<TrackMetadata>,
    info: TrackInfoResult,
    show_queue: bool,
    repeat_state: RepeatState,
    filled: nat,
    m: PlayerMessage,
) -> bool {
    &&& m.color == GREEN
    &&& m.buttons.has_queue == (queue.len() > 0)
    &&& m.buttons.show_queue == show_queue
    &&& m.buttons.repeat_state == repeat_state
    &&& if queue.len() > 0 && info is Info {
        &&& m.title matches Some(t) && t@ == "🎵 Music Player"@
        &&& opt_string_view(m.thumbnail) == opt_string_view(queue[0].thumbnail)
        &&& m.description@ == now_playing_text(queue, info->position, show_queue, filled)
        &&& m.buttons.is_playing == info->playing
        &&& !m.buttons.no_track
    } else {
        &&& m.title is None
        &&& m.thumbnail is None
        &&& m.description@ == nothing_playing_text()
        &&& !m.buttons.is_playing
        &&& m.buttons.no_track
    }
}

/// The characters of an optional string.
pub open spec fn opt_string_view(o: Option<String>) -> Option<Seq<char>> {
    match o {
        Some(s) => Some(s@),
        None => None,
    }
}

/// What the player message needs of the playing track for its sums and its clock.
pub open spec fn playable_snapshot(queue: Seq<TrackMetadata>, info: TrackInfoResult) -> bool {
    queue.len() > 0 && info is Info ==> {
        &&& durations_wf(queue)
        &&& info->position.wf()
        &&& length_or_zero(queue[0]).secs > 0
        &&& known_duration_total(queue.drop_first()) + left_in_track(
            length_or_zero(queue[0]),
            info->position,
        ) <= u64::MAX * 1_000_000_000int + 999_999_999
    }
}

/// The player message of a guild, from the metadata of its track queue (the playing
/// track first), what the playing track's handle reported, and the player's settings.
/// `filled` is how many of the progress bar's segments stand before the knob.
///
/// A guild without a queue gets `NoQueue`; a handle that failed gets its error text as
/// an `AudioSourceError`.
pub fn music_player_message(
    queue: Option<&Vec<TrackMetadata>>,
    info: TrackInfoResult,
    show_queue: bool,
    repeat_state: RepeatState,
    filled: usize,
) -> (r: Result<PlayerMessage, MusicError>)
    requires
        filled <= BAR_LENGTH,
        queue matches Some(q) ==> playable_snapshot(q@, info),
    ensures
        queue is None ==> r == Err::<PlayerMessage, MusicError>(MusicError::NoQueue),
        queue matches Some(q) ==> match info {
            TrackInfoResult::Failed(e) => if q@.len() > 0 {
                r matches Err(MusicError::AudioSourceError(x)) && x@ == e@
            } else {
                r matches Ok(m) && player_message_spec(q@, info, show_queue, repeat_state, filled as nat, m)
            },
            _ => r matches Ok(m) && player_message_spec(
                q@,
                info,
                show_queue,
                repeat_state,
                filled as nat,
                m,
            ),
        },
{
    let queue = match queue {
        Some(q) => q,
        None => {
            return Err(MusicError::NoQueue);
        },
    };
    let has_queue = queue.len() > 0;
    if has_queue {
        match info {
            TrackInfoResult::Info { playing, position } => {
                let description = now_playing_description(queue, position, show_queue, filled);
                let thumbnail = match &queue[0].thumbnail {
                    Some(t) => Some(t.clone()),
                    None => None,
                };
                return Ok(
                    PlayerMessage {
                        title: Some("🎵 Music Player".to_string()),
                        thumbnail,
                        description,
                        color: GREEN,
                        buttons: ButtonData {
                            is_playing: playing,
                            has_queue,
                            show_queue,
                            no_track: false,
                            repeat_state,
                        },
                    },
                );
            },
            TrackInfoResult::Finished => {},
            TrackInfoResult::Failed(e) => {
                return Err(MusicError::AudioSourceError(e));
            },
        }
    }
    Ok(
        PlayerMessage {
            title: None,
            thumbnail: None,
            description: "**🔇 Nothing playing or queued.**".to_string(),
            color: GREEN,
            buttons: ButtonData {
                is_playing: false,
                has_queue,
                show_queue,
                no_track: true,
                repeat_state,
            },
        },
    )
}

/// A message of one embed.
pub struct Embed {
    pub title: String,
    pub description: String,
    pub color: u32,
    /// Shown to the asking user only.
    pub ephemeral: bool,
}

/// The message that says whether autoplay is on.
pub fn autoplay_status(enabled: bool) -> (e: Embed)
    ensures
        e.title@ == (if enabled {
            "🔄 Autoplay Enabled"@
        } else {
            "⏹️ Autoplay Disabled"@
        }),
        e.description@ == (if enabled {
            "I will automatically play related songs when the queue is empty"@
        } else {
            "I will stop playing when the queue is empty"@
        }),
        e.color == (if enabled {
            GREEN
        } else {
            RED
        }),
        e.ephemeral,
{
    if enabled {
        Embed {
            title: "🔄 Autoplay Enabled".to_string(),
            description: "I will automatically play related songs when the queue is empty".to_string(),
            color: GREEN,
            ephemeral: true,
        }
    } else {
        Embed {
            title: "⏹️ Autoplay Disabled".to_string(),
            description: "I will stop playing when the queue is empty".to_string(),
            color: RED,
            ephemeral: true,
        }
    }
}

/// A success message with the given title and text.
pub fn generic_success(title: &str, description: &str) -> (e: Embed)
    ensures
        e.title@ == title@,
        e.description@ == description@,
        e.color == GREEN,
        e.ephemeral,
{
    Embed {
        title: title.to_string(),
        description: description.to_string(),
        color: GREEN,
        ephemeral: true,
    }
}

/// An error message with the given text.
pub fn generic_error(description: &str) -> (e: Embed)
    ensures
        e.title@ == "❌ Error"@,
        e.description@ == description@,
        e.color == RED,
        e.ephemeral,
{
    Embed {
        title: "❌ Error".to_string(),
        description: description.to_string(),
        color: RED,
        ephemeral: true,
    }
}

/// The message that the queue is empty.
pub fn queue_is_empty() -> (e: Embed)
    ensures
        e.title@ == "❌ Error"@,
        e.description@ == "The queue is empty"@,
        e.color == RED,
        e.ephemeral,
{
    Embed {
        title: "❌ Error".to_string(),
        description: "The queue is empty".to_string(),
        color: RED,
        ephemeral: true,
    }
}

/// The message that a position is not in a queue of `queue_length` entries (the
/// playing track counted, and left out of the number shown).
pub fn invalid_queue_position(queue_length: usize) -> (e: Embed)
    requires
        queue_length >= 1,
    ensures
        e.title@ == "❌ Error"@,
        e.description@ == "Invalid position. The queue has "@ + decimal((queue_length - 1) as nat)
            + " tracks"@,
        e.color == RED,
        e.ephemeral,
{
    let mut d = "Invalid position. The queue has ".to_string();
    push_decimal(&mut d, (queue_length - 1) as u64);
    push_str(&mut d, " tracks");
    Embed { title: "❌ Error".to_string(), description: d, color: RED, ephemeral: true }
}

/// The message that the track `metadata` left the queue at `position`.
pub fn track_removed(metadata: &TrackMetadata, position: usize) -> (e: Embed)
    requires
        metadata.duration matches Some(d) ==> d.wf(),
    ensures
        e.title@ == "🗑️ Track Removed"@,
        e.description@ == "Removed ["@ + metadata.title@ + "]("@ + url_or_hash(*metadata)
            + ") from position #"@ + decimal(position as nat),
        e.color == GREEN,
        e.ephemeral,
{
    let (title, url, _) = parse_metadata(metadata);
    let mut d = "Removed [".to_string();
    push_str(&mut d, title.as_str());
    push_str(&mut d, "](");
    push_str(&mut d, url.as_str());
    push_str(&mut d, ") from position #");
    push_decimal(&mut d, position as u64);
    Embed { title: "🗑️ Track Removed".to_string(), description: d, color: GREEN, ephemeral: true }
}

/// The answer to a play request that added `number_of_tracks` tracks, the first of
/// which is `metadata`.
pub fn play_success_response(metadata: &TrackMetadata, number_of_tracks: usize) -> (e: Embed)
    ensures
        e.title@ == "Music"@,
        e.description@ == if number_of_tracks > 1 {
            "✅ Added playlist: with "@ + decimal(number_of_tracks as nat) + " tracks"@
        } else {
            "✅ Added to queue: "@ + metadata.title@
        },
        e.color == GREEN,
        e.ephemeral,
{
    let mut text = String::new();
    if number_of_tracks > 1 {
        push_str(&mut text, "✅ Added playlist: with ");
        push_decimal(&mut text, number_of_tracks as u64);
        push_str(&mut text, " tracks");
    } else {
        push_str(&mut text, "✅ Added to queue: ");
        push_str(&mut text, metadata.title.as_str());
    }
    generic_success("Music", text.as_str())
}

} // verus!
