use vstd::prelude::*;

use crate::duration::TimeSpan;

verus! {

/// Errors of the music features.
#[derive(Debug, Clone, PartialEq)]
pub enum MusicError {
    /// The operation needs a guild.
    NotInGuild,
    /// Joining the voice channel failed.
    JoinError(String),
    /// The bot is not in a voice channel of the guild.
    NotConnected,
    /// The voice manager is missing.
    NoVoiceManager,
    /// The requesting user is not in a voice channel.
    UserNotInVoiceChannel,
    /// Fetching or reading audio data failed.
    AudioSourceError(String),
    /// An outside service answered with an error.
    ExternalApiError(String),
    /// A setting (such as an API key) is missing or wrong.
    ConfigError(String),
    /// The guild has no queue.
    NoQueue,
}

/// The message that describes a music error.
pub open spec fn music_error_text(e: MusicError) -> Seq<char> {
    match e {
        MusicError::NotInGuild => "Not in a guild"@,
        MusicError::JoinError(s) => "Failed to join voice channel: "@ + s@,
        MusicError::NotConnected => "Not connected to a voice channel"@,
        MusicError::NoVoiceManager => "Failed to get voice manager"@,
        MusicError::UserNotInVoiceChannel => "User is not in a voice channel"@,
        MusicError::AudioSourceError(s) => "Audio source error: "@ + s@,
        MusicError::ExternalApiError(s) => "External API error: "@ + s@,
        MusicError::ConfigError(s) => "Configuration error: "@ + s@,
        MusicError::NoQueue => "No queue"@,
    }
}

impl MusicError {
    /// The message of this error, as it is shown to users.
    pub fn message(&self) -> (s: String)
        ensures
            s@ == music_error_text(*self),
    {
        match self {
            MusicError::NotInGuild => "Not in a guild".to_string(),
            MusicError::JoinError(x) => {
                let mut s = "Failed to join voice channel: ".to_string();
                crate::text::push_str(&mut s, x.as_str());
                s
            },
            MusicError::NotConnected => "Not connected to a voice channel".to_string(),
            MusicError::NoVoiceManager => "Failed to get voice manager".to_string(),
            MusicError::UserNotInVoiceChannel => "User is not in a voice channel".to_string(),
            MusicError::AudioSourceError(x) => {
                let mut s = "Audio source error: ".to_string();
                crate::text::push_str(&mut s, x.as_str());
                s
            },
            MusicError::ExternalApiError(x) => {
                let mut s = "External API error: ".to_string();
                crate::text::push_str(&mut s, x.as_str());
                s
            },
            MusicError::ConfigError(x) => {
                let mut s = "Configuration error: ".to_string();
                crate::text::push_str(&mut s, x.as_str());
                s
            },
            MusicError::NoQueue => "No queue".to_string(),
        }
    }
}

/// The title and size of a playlist or album.
pub struct PlaylistMetadata {
    pub title: String,
    pub track_count: usize,
}

/// Metadata of a playable track.
#[derive(Debug, Clone, PartialEq)]
pub struct TrackMetadata {
    /// The title of the track.
    pub title: String,
    /// The page of the track, where known.
    pub url: Option<String>,
    /// The length of the track, where known.
    pub duration: Option<TimeSpan>,
    /// A picture of the track, where known.
    pub thumbnail: Option<String>,
    /// The name of the user who asked for the track.
    pub requested_by: Option<String>,
}

/// The content of a `TrackMetadata`, with strings as character sequences.
pub struct TrackMetadataView {
    pub title: Seq<char>,
    pub url: Option<Seq<char>>,
    pub duration: Option<TimeSpan>,
    pub thumbnail: Option<Seq<char>>,
    pub requested_by: Option<Seq<char>>,
}

/// The view of an optional string.
pub open spec fn opt_view(o: Option<String>) -> Option<Seq<char>> {
    match o {
        Some(s) => Some(s@),
        None => None,
    }
}

impl View for TrackMetadata {
    type V = TrackMetadataView;

    open spec fn view(&self) -> TrackMetadataView {
        TrackMetadataView {
            title: self.title@,
            url: opt_view(self.url),
            duration: self.duration,
            thumbnail: opt_view(self.thumbnail),
            requested_by: opt_view(self.requested_by),
        }
    }
}

/// The views of a sequence of metadata.
pub open spec fn metadata_views(s: Seq<TrackMetadata>) -> Seq<TrackMetadataView> {
    s.map_values(|m: TrackMetadata| m@)
}

/// Every known length in `s` is well formed.
pub open spec fn durations_wf(s: Seq<TrackMetadata>) -> bool {
    forall|i: int| 0 <= i < s.len() ==> ((#[trigger] s[i]).duration matches Some(d) ==> d.wf())
}

/// A copy of an optional string.
pub fn copy_opt_string(o: &Option<String>) -> (r: Option<String>)
    ensures
        opt_view(r) == opt_view(*o),
{
    match o {
        Some(s) => Some(s.clone()),
        None => None,
    }
}

impl TrackMetadata {
    /// The metadata of a track about which nothing is known.
    pub fn unknown() -> (m: TrackMetadata)
        ensures
            m@.title == "Unknown Track"@,
            m.url is None,
            m.duration is None,
            m.thumbnail is None,
            m.requested_by is None,
    {
        TrackMetadata {
            title: "Unknown Track".to_string(),
            url: None,
            duration: None,
            thumbnail: None,
            requested_by: None,
        }
    }

    /// A field-by-field copy of this metadata.
    pub fn copy(&self) -> (m: TrackMetadata)
        ensures
            m@ == self@,
    {
        TrackMetadata {
            title: self.title.clone(),
            url: copy_opt_string(&self.url),
            duration: self.duration,
            thumbnail: copy_opt_string(&self.thumbnail),
            requested_by: copy_opt_string(&self.requested_by),
        }
    }

    /// Records who asked for the track.
    pub fn misc_data(&mut self, requested_by: String)
        ensures
            final(self)@ == (TrackMetadataView { requested_by: Some(requested_by@), ..old(self)@ }),
    {
        self.requested_by = Some(requested_by);
    }
}

impl Default for TrackMetadata {
    fn default() -> (m: TrackMetadata)
        ensures
            m@.title == "Unknown Track"@,
            m.url is None,
            m.duration is None,
            m.thumbnail is None,
            m.requested_by is None,
    {
        TrackMetadata::unknown()
    }
}

} // verus!
