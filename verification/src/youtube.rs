use vstd::prelude::*;

use crate::duration::TimeSpan;
use crate::text::{
    chars_vec, find, first_occurrence, push_chars_range, push_str, split_whitespace, starts_with,
    str_eq, words,
};
use crate::track::{copy_opt_string, opt_view, MusicError, TrackMetadata, TrackMetadataView};

verus! {

/// Whether `url::Url::parse` accepts `s`.
pub uninterp spec fn url_parses(s: Seq<char>) -> bool;

/// The host that `url::Url::host_str` gives for the URL parsed from `s`.
pub uninterp spec fn url_host(s: Seq<char>) -> Option<Seq<char>>;

/// The path that `url::Url::path` gives for the URL parsed from `s`.
pub uninterp spec fn url_path(s: Seq<char>) -> Seq<char>;

/// The text of the error that `url::Url::parse` reports for `s` (its `Display`).
pub uninterp spec fn url_parse_error(s: Seq<char>) -> Seq<char>;

/// What `url::Url::join` gives for the URL parsed from `base` and the reference
/// `path`: the joined URL as text, or the error's text.
pub uninterp spec fn url_joined(base: Seq<char>, path: Seq<char>) -> Result<Seq<char>, Seq<char>>;

/// The host and path of a parsed URL.
pub struct UrlParts {
    pub host: Option<String>,
    pub path: String,
}

/// Parses `s` with `url::Url::parse` and, where that succeeds, reads the host
/// (`Url::host_str`) and the path (`Url::path`) of the result; where it fails, gives the
/// error's text. The contract names these results; it states nothing of which texts
/// parse or what their parts are.
#[verifier::external_body]
fn parse_url(s: &str) -> (r: Result<UrlParts, String>)
    ensures
        r is Ok <==> url_parses(s@),
        match r {
            Ok(p) => opt_view(p.host) == url_host(s@) && p.path@ == url_path(s@),
            Err(e) => e@ == url_parse_error(s@),
        },
{
    match url::Url::parse(s) {
        Ok(u) => Ok(UrlParts { host: u.host_str().map(|h| h.to_string()), path: u.path().to_string() }),
        Err(e) => Err(e.to_string()),
    }
}

/// Joins the reference `path` onto the URL parsed from `base` with `url::Url::join`,
/// giving the result's text or the error's text. The contract names the result only.
#[verifier::external_body]
fn join_url(base: &str, path: &str) -> (r: Result<String, String>)
    requires
        url_parses(base@),
    ensures
        match r {
            Ok(u) => url_joined(base@, path@) == Ok::<Seq<char>, Seq<char>>(u@),
            Err(e) => url_joined(base@, path@) == Err::<Seq<char>, Seq<char>>(e@),
        },
{
    match url::Url::parse(base) {
        Ok(u) => match u.join(path) {
            Ok(j) => Ok(j.to_string()),
            Err(e) => Err(e.to_string()),
        },
        Err(e) => Err(e.to_string()),
    }
}

/// The address of an API request: `path` joined onto `base`. A base that is no URL,
/// or a path that does not join, gives the URL parser's error text.
pub fn request_url(base: &str, path: &str) -> (r: Result<String, (bool, String)>)
    ensures
        !url_parses(base@) ==> (r matches Err((true, e)) && e@ == url_parse_error(base@)),
        url_parses(base@) ==> match url_joined(base@, path@) {
            Ok(u) => r matches Ok(x) && x@ == u,
            Err(e) => r matches Err((false, x)) && x@ == e,
        },
{
    match parse_url(base) {
        Err(e) => Err((true, e)),
        Ok(_) => match join_url(base, path) {
            Ok(u) => Ok(u),
            Err(e) => Err((false, e)),
        },
    }
}

/// Whether `s` is a YouTube watch page or a `youtu.be` link, judged by its parsed host
/// and path.
pub open spec fn youtube_url_spec(s: Seq<char>) -> bool {
    url_parses(s) && ({
        let host = url_host(s);
        let path = url_path(s);
        ((host == Some("www.youtube.com"@) || host == Some("youtube.com"@) || host == Some(
            "youtu.be"@,
        )) && path.len() >= 6 && path.take(6) == "/watch"@) || host == Some("youtu.be"@)
    })
}

/// The YouTube audio source.
pub struct YoutubeApi;

impl YoutubeApi {
    /// Checks if the input string is a YouTube watch page (`www.youtube.com`, `youtube.com`
    /// or `youtu.be` host with a path starting `/watch`) or any `youtu.be` link.
    pub fn is_youtube_url(query: &str) -> (b: bool)
        ensures
            b == youtube_url_spec(query@),
    {
        match parse_url(query) {
            Ok(parts) => {
                let path_ok = starts_with(parts.path.as_str(), "/watch");
                proof {
                    reveal_strlit("/watch");
                }
                match &parts.host {
                    Some(host) => {
                        let h = host.as_str();
                        let known = str_eq(h, "www.youtube.com") || str_eq(h, "youtube.com") || str_eq(
                            h,
                            "youtu.be",
                        );
                        (known && path_ok) || str_eq(h, "youtu.be")
                    },
                    None => false,
                }
            },
            Err(_) => false,
        }
    }
}

/// Whether `url::Url::parse` accepts `input`.
pub fn url_is_valid(input: &str) -> (b: bool)
    ensures
        b == url_parses(input@),
{
    parse_url(input).is_ok()
}

/// Whether `regex::Regex::new` accepts `pattern`.
pub uninterp spec fn regex_compiles(pattern: Seq<char>) -> bool;

/// Whether the regex of `pattern` finds a match in `text` (`Regex::captures`).
pub uninterp spec fn regex_matches(pattern: Seq<char>, text: Seq<char>) -> bool;

/// The text of capture group `group` of that match (`Captures::get`).
pub uninterp spec fn regex_group(pattern: Seq<char>, text: Seq<char>, group: nat) -> Option<
    Seq<char>,
>;

/// Compiles `pattern` with `regex::Regex::new`, searches `text` with
/// `Regex::captures` and reads group `group` with `Captures::get`. Outer `None`: the
/// pattern does not compile; `Some(None)`: no match; `Some(Some(g))`: the group's text
/// (`None` where the group took no part). The contract names these results only.
#[verifier::external_body]
pub(crate) fn capture_group(pattern: &str, text: &str, group: usize) -> (r: Option<Option<Option<String>>>)
    ensures
        r is Some <==> regex_compiles(pattern@),
        r matches Some(m) ==> (m is Some <==> regex_matches(pattern@, text@)),
        r matches Some(Some(g)) ==> opt_view(g) == regex_group(pattern@, text@, group as nat),
{
    match regex::Regex::new(pattern) {
        Ok(re) => match re.captures(text) {
            Some(caps) => Some(Some(caps.get(group).map(|m| m.as_str().to_string()))),
            None => Some(None),
        },
        Err(_) => None,
    }
}

/// The pattern of the YouTube video links whose fifth group is the video ID.
pub const YOUTUBE_URL_PATTERN: &'static str =
    r"^((?:https?:)?//)?((?:www|m)\.)?((?:youtube\.com|youtu.be))(/(?:[\w\-]+\?v=|embed/|v/)?)([\w\-]+)(\S+)?$";

/// What `extract_video_id` gives: the fifth group of the YouTube pattern, or the error
/// text for a link without an ID (`Err(true)`) or for no match (`Err(false)`).
pub open spec fn video_id_spec(url: Seq<char>) -> Result<Seq<char>, bool> {
    let p = YOUTUBE_URL_PATTERN@;
    if regex_compiles(p) && regex_matches(p, url) {
        match regex_group(p, url, 5) {
            Some(id) => Ok(id),
            None => Err(true),
        }
    } else {
        Err(false)
    }
}

impl YoutubeApi {
    /// Extracts the video ID from a YouTube link.
    pub fn extract_video_id(url: &str) -> (r: Result<String, MusicError>)
        ensures
            match video_id_spec(url@) {
                Ok(id) => r matches Ok(s) && s@ == id,
                Err(true) => r matches Err(MusicError::AudioSourceError(m)) && m@
                    == "Could not extract video ID"@,
                Err(false) => r matches Err(MusicError::AudioSourceError(m)) && m@
                    == "Not a valid YouTube URL"@,
            },
    {
        match capture_group(YOUTUBE_URL_PATTERN, url, 5) {
            Some(Some(Some(id))) => Ok(id),
            Some(Some(None)) => Err(MusicError::AudioSourceError("Could not extract video ID".to_string())),
            _ => Err(MusicError::AudioSourceError("Not a valid YouTube URL".to_string())),
        }
    }
}

/// The watch page of the video `video_id`.
pub fn video_page_url(video_id: &str) -> (s: String)
    ensures
        s@ == "https://www.youtube.com/watch?v="@ + video_id@,
{
    let mut s = "https://www.youtube.com/watch?v=".to_string();
    push_str(&mut s, video_id);
    s
}

/// The search text for videos related to one titled `title`: the artist part before
/// ` - ` followed by ` music`; otherwise the first two words, or `music` for titles of
/// at most two words.
pub open spec fn related_search_term_spec(title: Seq<char>) -> Seq<char> {
    match first_occurrence(title, " - "@) {
        Some(i) => title.take(i) + " music"@,
        None => {
            let w = words(title);
            if w.len() > 2 {
                w[0] + " "@ + w[1]
            } else {
                "music"@
            }
        },
    }
}

/// Derives the search text for related videos from a video title.
pub fn related_search_term(title: &str) -> (s: String)
    ensures
        s@ == related_search_term_spec(title@),
{
    let t = chars_vec(title);
    let sep = chars_vec(" - ");
    match find(&t, &sep) {
        Some(i) => {
            proof {
                assert(i + sep.len() <= t.len());
            }
            let mut s = String::new();
            push_chars_range(&mut s, &t, 0, i);
            assert(t@.subrange(0, i as int) == title@.take(i as int));
            push_str(&mut s, " music");
            s
        },
        None => {
            let w = split_whitespace(&t);
            if w.len() > 2 {
                assert(w[0]@ == words(title@)[0]);
                assert(w[1]@ == words(title@)[1]);
                let mut s = String::new();
                push_chars_range(&mut s, &w[0], 0, w[0].len());
                assert(w[0]@.subrange(0, w[0]@.len() as int) == w[0]@);
                push_str(&mut s, " ");
                push_chars_range(&mut s, &w[1], 0, w[1].len());
                assert(w[1]@.subrange(0, w[1]@.len() as int) == w[1]@);
                s
            } else {
                "music".to_string()
            }
        },
    }
}

} // verus!

verus! {

/// The fields of a `yt-dlp` JSON record that the library reads.
#[derive(Debug, Clone, PartialEq)]
pub struct YtDlpVideo {
    /// The `title` field, where it is a string.
    pub title: Option<String>,
    /// The `webpage_url` field, where it is a string.
    pub webpage_url: Option<String>,
    /// The `duration` field, where it is a number.
    pub duration: Option<TimeSpan>,
    /// The `thumbnail` field, where it is a string.
    pub thumbnail: Option<String>,
}

/// The title of a record, or `Unknown Title`.
pub open spec fn title_or_unknown(t: Option<String>) -> Seq<char> {
    match t {
        Some(s) => s@,
        None => "Unknown Title"@,
    }
}

/// The metadata that a `yt-dlp` record describes.
pub open spec fn ytdlp_metadata(v: YtDlpVideo) -> TrackMetadataView {
    TrackMetadataView {
        title: title_or_unknown(v.title),
        url: opt_view(v.webpage_url),
        duration: v.duration,
        thumbnail: opt_view(v.thumbnail),
        requested_by: None,
    }
}

fn title_or_unknown_string(t: &Option<String>) -> (s: String)
    ensures
        s@ == title_or_unknown(*t),
{
    match t {
        Some(x) => x.clone(),
        None => "Unknown Title".to_string(),
    }
}

impl TrackMetadata {
    /// The metadata of a video from its `yt-dlp` record; the title defaults to
    /// `Unknown Title`.
    pub fn from_ytdlp(video: &YtDlpVideo) -> (m: TrackMetadata)
        ensures
            m@ == ytdlp_metadata(*video),
    {
        TrackMetadata {
            title: title_or_unknown_string(&video.title),
            url: copy_opt_string(&video.webpage_url),
            duration: video.duration,
            thumbnail: copy_opt_string(&video.thumbnail),
            requested_by: None,
        }
    }

    /// The metadata of a video from its `yt-dlp` record, with the name of the user who
    /// asked for it.
    pub fn from_youtube(video: &YtDlpVideo, requested_by: String) -> (m: TrackMetadata)
        ensures
            m@ == (TrackMetadataView { requested_by: Some(requested_by@), ..ytdlp_metadata(*video) }),
    {
        let mut m = TrackMetadata::from_ytdlp(video);
        m.misc_data(requested_by);
        m
    }
}

/// A search result is left out where its page is the starting video or not a YouTube
/// video page.
pub open spec fn search_result_skipped(v: YtDlpVideo, orig: Seq<char>) -> bool {
    match v.webpage_url {
        Some(u) => u@ == orig || !youtube_url_spec(u@),
        None => false,
    }
}

/// The song that a kept search result becomes.
pub open spec fn search_result_song(v: YtDlpVideo) -> TrackMetadataView {
    TrackMetadataView { requested_by: Some("Autoplay"@), ..ytdlp_metadata(v) }
}

/// The songs taken from search results, in order, at most five.
pub open spec fn search_songs(results: Seq<YtDlpVideo>, orig: Seq<char>) -> Seq<TrackMetadataView>
    decreases results.len(),
{
    if results.len() == 0 {
        seq![]
    } else {
        let prev = search_songs(results.drop_last(), orig);
        if prev.len() >= 5 || search_result_skipped(results.last(), orig) {
            prev
        } else {
            prev.push(search_result_song(results.last()))
        }
    }
}

proof fn lemma_search_songs_full(results: Seq<YtDlpVideo>, orig: Seq<char>, i: int, j: int)
    requires
        0 <= i <= j <= results.len(),
        search_songs(results.take(i), orig).len() >= 5,
    ensures
        search_songs(results.take(j), orig) == search_songs(results.take(i), orig),
    decreases j - i,
{
    if i < j {
        lemma_search_songs_full(results, orig, i, j - 1);
        assert(results.take(j).drop_last() == results.take(j - 1));
    }
}

/// Picks related songs out of `yt-dlp` search results: results whose page is the
/// starting video `orig_url` or not a YouTube video page are skipped; at most five songs
/// are kept, marked as asked for by `Autoplay`.
pub fn songs_from_search_results(results: &Vec<YtDlpVideo>, orig_url: &str) -> (songs: Vec<
    TrackMetadata,
>)
    ensures
        songs@.map_values(|m: TrackMetadata| m@) == search_songs(results@, orig_url@),
{
    let mut songs: Vec<TrackMetadata> = Vec::new();
    let mut i: usize = 0;
    assert(results@.take(results@.len() as int) == results@);
    while i < results.len()
        invariant_except_break
            songs@.map_values(|m: TrackMetadata| m@) == search_songs(results@.take(i as int), orig_url@),
            songs.len() < 5,
        invariant
            i <= results.len(),
            results@.take(results@.len() as int) == results@,
        ensures
            songs@.map_values(|m: TrackMetadata| m@) == search_songs(results@, orig_url@),
        decreases results.len() - i,
    {
        let v = &results[i];
        assert(results@.take(i + 1).drop_last() == results@.take(i as int));
        assert(results@.take(i + 1).last() == *v);
        let skip = match &v.webpage_url {
            Some(u) => str_eq(u.as_str(), orig_url) || !YoutubeApi::is_youtube_url(u.as_str()),
            None => false,
        };
        if !skip {
            let mut m = TrackMetadata::from_ytdlp(v);
            m.misc_data("Autoplay".to_string());
            let ghost before = songs@;
            songs.push(m);
            assert(songs@.map_values(|m: TrackMetadata| m@) =~= before.map_values(
                |m: TrackMetadata| m@,
            ).push(m@));
            if songs.len() >= 5 {
                proof {
                    lemma_search_songs_full(results@, orig_url@, i + 1, results@.len() as int);
                }
                break;
            }
        }
        i = i + 1;
    }
    songs
}

/// The first related song that has a YouTube page, the one that autoplay queues.
pub open spec fn autoplay_choice(songs: Seq<TrackMetadata>) -> Option<int> {
    if exists|i: int| 0 <= i < songs.len() && playable(songs[i]) && forall|j: int| 0 <= j < i ==> !playable(#[trigger] songs[j]) {
        Some(choose|i: int| 0 <= i < songs.len() && playable(songs[i]) && forall|j: int| 0 <= j < i ==> !playable(#[trigger] songs[j]))
    } else {
        None
    }
}

/// A related song can be queued by autoplay: it has a page and the page is a YouTube
/// video.
pub open spec fn playable(m: TrackMetadata) -> bool {
    match m.url {
        Some(u) => youtube_url_spec(u@),
        None => false,
    }
}

/// The position of the first related song that autoplay may queue.
pub fn pick_autoplay_song(songs: &Vec<TrackMetadata>) -> (r: Option<usize>)
    ensures
        match r {
            Some(i) => autoplay_choice(songs@) == Some(i as int),
            None => autoplay_choice(songs@) is None && forall|j: int| 0 <= j < songs.len() ==> !playable(#[trigger] songs@[j]),
        },
{
    let mut i: usize = 0;
    while i < songs.len()
        invariant
            i <= songs.len(),
            forall|j: int| 0 <= j < i ==> !playable(#[trigger] songs@[j]),
        decreases songs.len() - i,
    {
        let ok = match &songs[i].url {
            Some(u) => YoutubeApi::is_youtube_url(u.as_str()),
            None => false,
        };
        if ok {
            proof {
                assert(playable(songs@[i as int]));
                let w = choose|w: int| 0 <= w < songs.len() && playable(songs@[w]) && forall|j: int| 0 <= j < w ==> !playable(#[trigger] songs@[j]);
                assert(0 <= i < songs.len() && playable(songs@[i as int]) && forall|j: int| 0 <= j < i ==> !playable(#[trigger] songs@[j]));
                if w < i {
                    assert(!playable(songs@[w]));
                } else if w > i {
                    assert(!playable(songs@[i as int]));
                }
            }
            return Some(i);
        }
        i = i + 1;
    }
    None
}

} // verus!
