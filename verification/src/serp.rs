use vstd::prelude::*;

use crate::duration::TimeSpan;
use crate::parse::{parse_u64, parse_u64_spec, split_chars, split_on};
use crate::text::chars_vec;
use crate::track::{copy_opt_string, opt_view, MusicError, TrackMetadata, TrackMetadataView};

verus! {

/// The number of seconds that a `M:SS` or `H:MM:SS` text stands for, where every part
/// parses as an unsigned number.
pub open spec fn duration_string_secs(s: Seq<char>) -> Option<int> {
    let parts = split_on(s, ':');
    if parts.len() == 2 {
        match (parse_u64_spec(parts[0]), parse_u64_spec(parts[1])) {
            (Some(m), Some(sec)) => Some(m * 60 + sec),
            _ => None,
        }
    } else if parts.len() == 3 {
        match (parse_u64_spec(parts[0]), parse_u64_spec(parts[1]), parse_u64_spec(parts[2])) {
            (Some(h), Some(m), Some(sec)) => Some(h * 3600 + m * 60 + sec),
            _ => None,
        }
    } else {
        None
    }
}

/// The seconds that `s` stands for, if any, fit in a `u64`.
pub open spec fn duration_string_fits(s: Seq<char>) -> bool {
    match duration_string_secs(s) {
        Some(t) => t <= u64::MAX,
        None => true,
    }
}

/// The span that `parse_duration_string` gives for `s`.
pub open spec fn duration_string_span(s: Seq<char>) -> Option<TimeSpan> {
    match duration_string_secs(s) {
        Some(t) => Some(TimeSpan { secs: t as u64, nanos: 0 }),
        None => None,
    }
}

/// Parses a video length such as `5:32` (minutes and seconds) or `1:23:45` (hours,
/// minutes and seconds).
pub fn parse_duration_string(duration_str: &str) -> (r: Option<TimeSpan>)
    requires
        duration_string_fits(duration_str@),
    ensures
        r == duration_string_span(duration_str@),
{
    let chars = chars_vec(duration_str);
    let parts = split_chars(&chars, ':');
    assert(parts.deep_view() == split_on(duration_str@, ':'));
    assert(parts.len() == split_on(duration_str@, ':').len());
    if parts.len() == 2 {
        assert(parts[0]@ == split_on(duration_str@, ':')[0]);
        assert(parts[1]@ == split_on(duration_str@, ':')[1]);
        let minutes = match parse_u64(&parts[0]) {
            Some(v) => v,
            None => return None,
        };
        let seconds = match parse_u64(&parts[1]) {
            Some(v) => v,
            None => return None,
        };
        Some(TimeSpan::from_secs(minutes * 60 + seconds))
    } else if parts.len() == 3 {
        assert(parts[0]@ == split_on(duration_str@, ':')[0]);
        assert(parts[1]@ == split_on(duration_str@, ':')[1]);
        assert(parts[2]@ == split_on(duration_str@, ':')[2]);
        let hours = match parse_u64(&parts[0]) {
            Some(v) => v,
            None => return None,
        };
        let minutes = match parse_u64(&parts[1]) {
            Some(v) => v,
            None => return None,
        };
        let seconds = match parse_u64(&parts[2]) {
            Some(v) => v,
            None => return None,
        };
        Some(TimeSpan::from_secs(hours * 3600 + minutes * 60 + seconds))
    } else {
        None
    }
}

} // verus!

verus! {

/// The fields of one related video of a SerpAPI answer that the library reads.
#[derive(Debug, Clone, PartialEq)]
pub struct RelatedVideo {
    /// `title`, where it is a string.
    pub title: Option<String>,
    /// `link`, where it is a string.
    pub link: Option<String>,
    /// `length`, where it is a string.
    pub length: Option<String>,
    /// `thumbnail.static`, where it is a string.
    pub thumbnail: Option<String>,
}

/// A related video is used where it has both a title and a link.
pub open spec fn related_usable(v: RelatedVideo) -> bool {
    v.title is Some && v.link is Some
}

/// The song that a usable related video becomes.
pub open spec fn related_song(v: RelatedVideo) -> TrackMetadataView {
    TrackMetadataView {
        title: v.title->0@,
        url: Some(v.link->0@),
        duration: match v.length {
            Some(l) => duration_string_span(l@),
            None => None,
        },
        thumbnail: opt_view(v.thumbnail),
        requested_by: Some("Autoplay"@),
    }
}

/// The songs taken from related videos, in order, at most five.
pub open spec fn related_songs(videos: Seq<RelatedVideo>) -> Seq<TrackMetadataView>
    decreases videos.len(),
{
    if videos.len() == 0 {
        seq![]
    } else {
        let prev = related_songs(videos.drop_last());
        if prev.len() >= 5 || !related_usable(videos.last()) {
            prev
        } else {
            prev.push(related_song(videos.last()))
        }
    }
}

/// Every length that is read (that of a usable video met before five songs are taken)
/// stands for a number of seconds that fits in a `u64`.
pub open spec fn related_lengths_fit(videos: Seq<RelatedVideo>) -> bool {
    forall|i: int|
        0 <= i < videos.len() && related_usable(#[trigger] videos[i]) && related_songs(
            videos.take(i),
        ).len() < 5 ==> (videos[i].length matches Some(l) ==> duration_string_fits(l@))
}

proof fn lemma_related_songs_full(videos: Seq<RelatedVideo>, i: int, j: int)
    requires
        0 <= i <= j <= videos.len(),
        related_songs(videos.take(i)).len() >= 5,
    ensures
        related_songs(videos.take(j)) == related_songs(videos.take(i)),
    decreases j - i,
{
    if i < j {
        lemma_related_songs_full(videos, i, j - 1);
        assert(videos.take(j).drop_last() == videos.take(j - 1));
    }
}

/// Turns related videos into songs: videos without a title or a link are skipped, the
/// length text becomes a duration where it parses, and at most five songs are kept,
/// marked as asked for by `Autoplay`.
pub fn collect_related_songs(videos: &Vec<RelatedVideo>) -> (songs: Vec<TrackMetadata>)
    requires
        related_lengths_fit(videos@),
    ensures
        songs@.map_values(|m: TrackMetadata| m@) == related_songs(videos@),
{
    let mut songs: Vec<TrackMetadata> = Vec::new();
    let mut i: usize = 0;
    assert(videos@.take(videos@.len() as int) == videos@);
    while i < videos.len()
        invariant_except_break
            songs@.map_values(|m: TrackMetadata| m@) == related_songs(videos@.take(i as int)),
            songs.len() < 5,
        invariant
            i <= videos.len(),
            videos@.take(videos@.len() as int) == videos@,
            related_lengths_fit(videos@),
        ensures
            songs@.map_values(|m: TrackMetadata| m@) == related_songs(videos@),
        decreases videos.len() - i,
    {
        let v = &videos[i];
        assert(videos@.take(i + 1).drop_last() == videos@.take(i as int));
        assert(videos@.take(i + 1).last() == *v);
        match (&v.title, &v.link) {
            (Some(title), Some(link)) => {
                let duration = match &v.length {
                    Some(l) => {
                        assert(related_usable(videos@[i as int]));
                        parse_duration_string(l.as_str())
                    },
                    None => None,
                };
                let m = TrackMetadata {
                    title: title.clone(),
                    url: Some(link.clone()),
                    duration,
                    thumbnail: copy_opt_string(&v.thumbnail),
                    requested_by: Some("Autoplay".to_string()),
                };
                let ghost before = songs@;
                songs.push(m);
                assert(songs@.map_values(|m: TrackMetadata| m@) =~= before.map_values(
                    |m: TrackMetadata| m@,
                ).push(m@));
                if songs.len() >= 5 {
                    proof {
                        lemma_related_songs_full(videos@, i + 1, videos@.len() as int);
                    }
                    break;
                }
            },
            _ => {},
        }
        i = i + 1;
    }
    songs
}

/// What the related-songs lookup gives for a search answer: the searcher's error as an
/// audio source error, no songs where the answer has no `related_videos` list, and the
/// collected songs otherwise.
pub fn related_songs_from_search(answer: Result<Option<Vec<RelatedVideo>>, String>) -> (r: Result<
    Vec<TrackMetadata>,
    MusicError,
>)
    requires
        answer matches Ok(Some(vs)) ==> related_lengths_fit(vs@),
    ensures
        match answer {
            Err(e) => r matches Err(MusicError::AudioSourceError(m)) && m@ == e@,
            Ok(None) => r matches Ok(songs) && songs.len() == 0,
            Ok(Some(vs)) => r matches Ok(songs) && songs@.map_values(|m: TrackMetadata| m@)
                == related_songs(vs@),
        },
{
    match answer {
        Err(e) => Err(MusicError::AudioSourceError(e)),
        Ok(None) => Ok(Vec::new()),
        Ok(Some(vs)) => Ok(collect_related_songs(&vs)),
    }
}

/// The SerpAPI searcher that sends real requests with an API key.
pub struct RealSerpApiSearcher {
    api_key: String,
}

impl RealSerpApiSearcher {
    /// The key this searcher sends.
    pub closed spec fn key(&self) -> Seq<char> {
        self.api_key@
    }

    /// A searcher that uses `api_key`.
    pub fn new(api_key: String) -> (s: RealSerpApiSearcher)
        ensures
            s.key() == api_key@,
    {
        RealSerpApiSearcher { api_key }
    }

    /// The API key of this searcher.
    pub fn api_key(&self) -> (k: &str)
        ensures
            k@ == self.key(),
    {
        self.api_key.as_str()
    }
}

/// Finds related songs with `yt-dlp` searches.
pub struct YtDlpFetcher;

impl YtDlpFetcher {
    /// A new fetcher.
    pub fn new() -> (f: YtDlpFetcher)
        ensures
            f == YtDlpFetcher,
    {
        YtDlpFetcher
    }
}

} // verus!
