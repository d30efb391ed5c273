use vstd::prelude::*;

use crate::queue::RepeatState;

verus! {

/// The emojis of the player's control buttons.
#[derive(Clone, Copy, Debug, PartialEq, Eq, Structural)]
pub enum Emoji {
    Eject,
    Next,
    Pause,
    Play,
    Queue,
    Repeat,
    Search,
    Shuffle,
}

/// The text of an emoji.
pub open spec fn emoji_text(e: Emoji) -> Seq<char> {
    match e {
        Emoji::Eject => "⏏️"@,
        Emoji::Next => "⏭️"@,
        Emoji::Pause => "⏸️"@,
        Emoji::Play => "▶️"@,
        Emoji::Queue => "📃"@,
        Emoji::Repeat => "🔂"@,
        Emoji::Search => "🔍"@,
        Emoji::Shuffle => "🔀"@,
    }
}

impl Emoji {
    /// The text of this emoji.
    pub fn text(self) -> (s: String)
        ensures
            s@ == emoji_text(self),
    {
        let t = match self {
            Emoji::Eject => "⏏️",
            Emoji::Next => "⏭️",
            Emoji::Pause => "⏸️",
            Emoji::Play => "▶️",
            Emoji::Queue => "📃",
            Emoji::Repeat => "🔂",
            Emoji::Search => "🔍",
            Emoji::Shuffle => "🔀",
        };
        t.to_string()
    }
}

/// The look of a button.
#[derive(Clone, Copy, Debug, PartialEq, Eq, Structural)]
pub enum ButtonStyle {
    Primary,
    Secondary,
    Danger,
}

/// What the control buttons are drawn from.
#[derive(Clone, Copy, Debug, PartialEq, Eq, Structural)]
pub struct ButtonData {
    /// A track is playing.
    pub is_playing: bool,
    /// The queue has tracks.
    pub has_queue: bool,
    /// The queue is listed.
    pub show_queue: bool,
    /// No track is loaded.
    pub no_track: bool,
    /// The repeat mode.
    pub repeat_state: RepeatState,
}

/// One control button.
pub struct Button {
    /// The id the button reports when pressed.
    pub custom_id: String,
    pub emoji: Emoji,
    pub style: ButtonStyle,
    pub disabled: bool,
}

/// The content of a `Button`, with its id as characters.
pub struct ButtonView {
    pub custom_id: Seq<char>,
    pub emoji: Emoji,
    pub style: ButtonStyle,
    pub disabled: bool,
}

impl View for Button {
    type V = ButtonView;

    open spec fn view(&self) -> ButtonView {
        ButtonView {
            custom_id: self.custom_id@,
            emoji: self.emoji,
            style: self.style,
            disabled: self.disabled,
        }
    }
}

/// The views of a row of buttons.
pub open spec fn row_views(row: Seq<Button>) -> Seq<ButtonView> {
    row.map_values(|b: Button| b@)
}

/// The play/pause button: pause while playing, play otherwise; off without a track.
pub open spec fn play_pause_view(is_playing: bool, no_track: bool) -> ButtonView {
    ButtonView {
        custom_id: "music_play_pause"@,
        emoji: if is_playing { Emoji::Pause } else { Emoji::Play },
        style: if is_playing { ButtonStyle::Primary } else { ButtonStyle::Secondary },
        disabled: no_track,
    }
}

/// The eject button, always on.
pub open spec fn eject_view() -> ButtonView {
    ButtonView {
        custom_id: "music_eject"@,
        emoji: Emoji::Eject,
        style: ButtonStyle::Danger,
        disabled: false,
    }
}

/// The skip button, off when nothing plays and nothing is queued.
pub open spec fn next_view(is_playing: bool, has_queue: bool) -> ButtonView {
    ButtonView {
        custom_id: "music_next"@,
        emoji: Emoji::Next,
        style: ButtonStyle::Secondary,
        disabled: !is_playing && !has_queue,
    }
}

/// The search button, always on.
pub open spec fn search_view() -> ButtonView {
    ButtonView {
        custom_id: "music_search"@,
        emoji: Emoji::Search,
        style: ButtonStyle::Secondary,
        disabled: false,
    }
}

/// The repeat button, highlighted while a track repeats.
pub open spec fn repeat_view(state: RepeatState) -> ButtonView {
    ButtonView {
        custom_id: "music_repeat"@,
        emoji: Emoji::Repeat,
        style: match state {
            RepeatState::Disabled => ButtonStyle::Secondary,
            RepeatState::Track => ButtonStyle::Primary,
        },
        disabled: false,
    }
}

/// The shuffle button, always on.
pub open spec fn shuffle_view() -> ButtonView {
    ButtonView {
        custom_id: "music_shuffle"@,
        emoji: Emoji::Shuffle,
        style: ButtonStyle::Secondary,
        disabled: false,
    }
}

/// The queue button, highlighted while the queue is listed and off without a queue.
pub open spec fn queue_view(has_queue: bool, show_queue: bool) -> ButtonView {
    ButtonView {
        custom_id: "music_queue_toggle"@,
        emoji: Emoji::Queue,
        style: if show_queue { ButtonStyle::Primary } else { ButtonStyle::Secondary },
        disabled: !has_queue,
    }
}

/// The queue button can be pressed whenever there is a queue, both while the queue is
/// listed and while it is hidden (so a hidden queue can always be shown again), and
/// never without a queue; its highlight tells whether the queue is listed.
pub proof fn lemma_queue_button_usable(has_queue: bool, show_queue: bool)
    ensures
        queue_view(has_queue, show_queue).disabled == !has_queue,
        queue_view(has_queue, true).disabled == queue_view(has_queue, false).disabled,
        (queue_view(has_queue, show_queue).style == ButtonStyle::Primary) == show_queue,
{
}

/// The play/pause button.
pub fn play_pause(is_playing: bool, no_track: bool) -> (b: Button)
    ensures
        b@ == play_pause_view(is_playing, no_track),
{
    let (emoji, style) = if is_playing {
        (Emoji::Pause, ButtonStyle::Primary)
    } else {
        (Emoji::Play, ButtonStyle::Secondary)
    };
    Button { custom_id: "music_play_pause".to_string(), emoji, style, disabled: no_track }
}

/// The eject button.
pub fn eject() -> (b: Button)
    ensures
        b@ == eject_view(),
{
    Button {
        custom_id: "music_eject".to_string(),
        emoji: Emoji::Eject,
        style: ButtonStyle::Danger,
        disabled: false,
    }
}

/// The skip button.
pub fn next(is_playing: bool, has_queue: bool) -> (b: Button)
    ensures
        b@ == next_view(is_playing, has_queue),
{
    Button {
        custom_id: "music_next".to_string(),
        emoji: Emoji::Next,
        style: ButtonStyle::Secondary,
        disabled: !is_playing && !has_queue,
    }
}

/// The search button.
pub fn search() -> (b: Button)
    ensures
        b@ == search_view(),
{
    Button {
        custom_id: "music_search".to_string(),
        emoji: Emoji::Search,
        style: ButtonStyle::Secondary,
        disabled: false,
    }
}

/// The repeat button.
pub fn repeat(state: RepeatState) -> (b: Button)
    ensures
        b@ == repeat_view(state),
{
    let style = match state {
        RepeatState::Disabled => ButtonStyle::Secondary,
        RepeatState::Track => ButtonStyle::Primary,
    };
    Button { custom_id: "music_repeat".to_string(), emoji: Emoji::Repeat, style, disabled: false }
}

/// The shuffle button.
pub fn shuffle() -> (b: Button)
    ensures
        b@ == shuffle_view(),
{
    Button {
        custom_id: "music_shuffle".to_string(),
        emoji: Emoji::Shuffle,
        style: ButtonStyle::Secondary,
        disabled: false,
    }
}

/// The queue button.
pub fn queue(has_queue: bool, show_queue: bool) -> (b: Button)
    ensures
        b@ == queue_view(has_queue, show_queue),
{
    let style = if show_queue {
        ButtonStyle::Primary
    } else {
        ButtonStyle::Secondary
    };
    Button {
        custom_id: "music_queue_toggle".to_string(),
        emoji: Emoji::Queue,
        style,
        disabled: !has_queue,
    }
}

/// The two rows of control buttons: eject, play/pause and skip; then search, repeat,
/// shuffle and the queue button.
pub fn stateful_interaction_buttons(data: ButtonData) -> (rows: Vec<Vec<Button>>)
    ensures
        rows@.len() == 2,
        row_views(rows@[0]@) == seq![
            eject_view(),
            play_pause_view(data.is_playing, data.no_track),
            next_view(data.is_playing, data.has_queue),
        ],
        row_views(rows@[1]@) == seq![
            search_view(),
            repeat_view(data.repeat_state),
            shuffle_view(),
            queue_view(data.has_queue, data.show_queue),
        ],
{
    let mut first: Vec<Button> = Vec::new();
    first.push(eject());
    first.push(play_pause(data.is_playing, data.no_track));
    first.push(next(data.is_playing, data.has_queue));
    let mut second: Vec<Button> = Vec::new();
    second.push(search());
    second.push(repeat(data.repeat_state));
    second.push(shuffle());
    second.push(queue(data.has_queue, data.show_queue));
    let mut rows: Vec<Vec<Button>> = Vec::new();
    rows.push(first);
    rows.push(second);
    proof {
        assert(row_views(rows@[0]@) =~= seq![
            eject_view(),
            play_pause_view(data.is_playing, data.no_track),
            next_view(data.is_playing, data.has_queue),
        ]);
        assert(row_views(rows@[1]@) =~= seq![
            search_view(),
            repeat_view(data.repeat_state),
            shuffle_view(),
            queue_view(data.has_queue, data.show_queue),
        ]);
    }
    rows
}

} // verus!
