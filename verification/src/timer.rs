use vstd::prelude::*;

use crate::duration::TimeSpan;
use crate::text::{chars_vec, decimal, is_whitespace, is_ws, pad2, push_char, push_decimal, push_pad2, push_str, utf8_of};

verus! {

/// Milliseconds in a day.
pub const DAY_MILLIS: i64 = 86_400_000;

/// What `parse_duration::parse` reads from a text: the span, or `None` where it fails.
pub uninterp spec fn parsed_duration(input: Seq<char>) -> Option<TimeSpan>;

/// Reads a span such as `1 hour 15 minutes` with `parse_duration::parse`.
///
/// Claimed of it: the result is the name `parsed_duration` of the text (the crate's
/// grammar is not restated), and a span it gives is a `std::time::Duration`, whose
/// sub-second part is below one second.
#[verifier::external_body]
fn parse_duration_text(input: &str) -> (r: Option<TimeSpan>)
    ensures
        r == parsed_duration(input@),
        r matches Some(d) ==> d.wf(),
{
    match parse_duration::parse(input) {
        Ok(d) => Some(TimeSpan { secs: d.as_secs(), nanos: d.subsec_nanos() }),
        Err(_) => None,
    }
}

/// The span that a text such as `10 minutes` states, if the duration parser reads one.
pub fn parse_relative_duration(time: &str) -> (r: Option<TimeSpan>)
    ensures
        r == parsed_duration(time@),
        r matches Some(d) ==> d.wf(),
{
    parse_duration_text(time)
}

/// A piece of the timer's text may start at the beginning or at a whitespace.
pub open spec fn is_start(s: Seq<char>, i: int) -> bool {
    i == 0 || is_ws(s[i])
}

/// A piece of the timer's text may end at the end or at a whitespace.
pub open spec fn is_end(s: Seq<char>, j: int) -> bool {
    j == s.len() || is_ws(s[j])
}

/// The pieces `(i, j)` for a fixed start `i` and the ends from `j` down to `i`.
pub open spec fn ends_down(s: Seq<char>, i: int, j: int) -> Seq<(int, int)>
    decreases j - i + 1,
{
    if j < i {
        Seq::empty()
    } else {
        (if is_end(s, j) {
            seq![(i, j)]
        } else {
            Seq::empty()
        }) + ends_down(s, i, j - 1)
    }
}

/// The pieces with a start from `i` on: starts in increasing order, and for each
/// start the longest piece first.
pub open spec fn pieces_from(s: Seq<char>, i: int) -> Seq<(int, int)>
    decreases s.len() - i,
{
    if i >= s.len() {
        Seq::empty()
    } else {
        (if is_start(s, i) {
            ends_down(s, i, s.len() as int)
        } else {
            Seq::empty()
        }) + pieces_from(s, i + 1)
    }
}

/// The pieces of `arg` that are tried, in order, as the time of a timer.
pub open spec fn timer_pieces(arg: Seq<char>) -> Seq<(int, int)> {
    pieces_from(arg, 0)
}

/// Every character is ASCII, so that character and byte positions agree.
pub open spec fn is_ascii_text(s: Seq<char>) -> bool {
    forall|i: int| 0 <= i < s.len() ==> (#[trigger] s[i] as u32) < 128
}

/// The pieces of `arg` to try as the time of a timer, as byte ranges: every piece
/// that starts at the beginning or at a whitespace and ends at the end or at a
/// whitespace; starts in increasing order, and for each start the longest piece first.
///
/// The search looks characters up by byte position, which only works for ASCII text:
/// for other text only the whole text can be tried, and the flag says that the search
/// fails (panics) after it.
pub fn timer_candidates(arg: &str) -> (r: (Vec<(usize, usize)>, bool))
    ensures
        is_ascii_text(arg@) ==> !r.1 && r.0@.map_values(|p: (usize, usize)| (p.0 as int, p.1 as int))
            == timer_pieces(arg@),
        !is_ascii_text(arg@) ==> r.1 && r.0@ == seq![(0usize, utf8_of(arg@).len() as usize)],
{
    let chars = chars_vec(arg);
    let ghost s = chars@;
    let len = chars.len();
    let mut k: usize = 0;
    while k < len
        invariant
            s == chars@,
            s == arg@,
            len == s.len(),
            k <= len,
            forall|j: int| 0 <= j < k ==> (#[trigger] s[j] as u32) < 128,
        decreases len - k,
    {
        if (chars[k] as u32) >= 128 {
            let mut only: Vec<(usize, usize)> = Vec::new();
            only.push((0, arg.len()));
            assert(only@ =~= seq![(0usize, utf8_of(arg@).len() as usize)]);
            return (only, true);
        }
        k = k + 1;
    }
    let mut out: Vec<(usize, usize)> = Vec::new();
    let mut i: usize = 0;
    proof {
        assert(out@.map_values(|p: (usize, usize)| (p.0 as int, p.1 as int)) + pieces_from(s, 0)
            =~= timer_pieces(arg@));
    }
    while i < len
        invariant
            s == chars@,
            s == arg@,
            len == s.len(),
            i <= len,
            out@.map_values(|p: (usize, usize)| (p.0 as int, p.1 as int)) + pieces_from(s, i as int)
                == timer_pieces(arg@),
        decreases len - i,
    {
        let ghost done = out@.map_values(|p: (usize, usize)| (p.0 as int, p.1 as int));
        if i == 0 || is_whitespace(chars[i]) {
            let ghost before_len = out@.map_values(|p: (usize, usize)| (p.0 as int, p.1 as int));
            out.push((i, len));
            proof {
                assert(out@.map_values(|p: (usize, usize)| (p.0 as int, p.1 as int)) =~= before_len
                    + seq![(i as int, len as int)]);
                assert(ends_down(s, i as int, len as int) =~= seq![(i as int, len as int)]
                    + ends_down(s, i as int, len - 1));
            }
            let mut k: usize = len;
            while k > i
                invariant
                    s == chars@,
                    len == s.len(),
                    i < len,
                    i <= k <= len,
                    is_start(s, i as int),
                    out@.map_values(|p: (usize, usize)| (p.0 as int, p.1 as int)) + ends_down(
                        s,
                        i as int,
                        k - 1,
                    ) == done + ends_down(s, i as int, len as int),
                decreases k - i,
            {
                let j = k - 1;
                let ghost before = out@.map_values(|p: (usize, usize)| (p.0 as int, p.1 as int));
                if j == len || is_whitespace(chars[j]) {
                    out.push((i, j));
                    proof {
                        assert(out@.map_values(|p: (usize, usize)| (p.0 as int, p.1 as int)) =~= before
                            + seq![(i as int, j as int)]);
                        assert(before + ends_down(s, i as int, j as int) =~= before + (seq![
                            (i as int, j as int),
                        ] + ends_down(s, i as int, j - 1)));
                    }
                } else {
                    proof {
                        assert(ends_down(s, i as int, j as int) =~= ends_down(s, i as int, j - 1));
                    }
                }
                k = j;
            }
            proof {
                assert(ends_down(s, i as int, i - 1) =~= Seq::<(int, int)>::empty());
                assert(done + pieces_from(s, i as int) =~= done + ends_down(s, i as int, len as int)
                    + pieces_from(s, i + 1));
            }
        } else {
            proof {
                assert(pieces_from(s, i as int) =~= pieces_from(s, i + 1));
            }
        }
        i = i + 1;
    }
    proof {
        let m = out@.map_values(|p: (usize, usize)| (p.0 as int, p.1 as int));
        assert(pieces_from(s, len as int) =~= Seq::<(int, int)>::empty());
        assert(m + Seq::<(int, int)>::empty() =~= m);
    }
    (out, false)
}

/// The span until a wall-clock time given in a user's time zone: `stop_ms` is that
/// time read as UTC milliseconds, `utc_offset_secs` the zone's offset and `now_ms` the
/// current time. A time already past today is taken for tomorrow; one that is still
/// past then gives `None`.
pub open spec fn explicit_span_ms(stop_ms: int, utc_offset_secs: int, now_ms: int) -> Option<int> {
    let stop = stop_ms - utc_offset_secs * 1000;
    let res = stop - now_ms;
    if res < 0 {
        let res2 = stop + DAY_MILLIS - now_ms;
        if res2 >= 0 {
            Some(res2)
        } else {
            None
        }
    } else {
        Some(res)
    }
}

/// A timer for a wall-clock time fires at that time. The stop instant is the time read
/// in the user's zone, `stop_ms - utc_offset_secs * 1000` in UTC, for zones east and
/// west of UTC alike. While that instant is ahead (or now), the span is exactly the time
/// until it; once it has passed, the span is the time until the same clock time a day
/// later, where that is ahead; otherwise there is none. So every span given is
/// non-negative and ends at the stop instant or one day after it.
pub proof fn lemma_explicit_span_ends_at_stop(stop_ms: int, utc_offset_secs: int, now_ms: int)
    ensures
        ({
            let stop = stop_ms - utc_offset_secs * 1000;
            let r = explicit_span_ms(stop_ms, utc_offset_secs, now_ms);
            &&& stop - now_ms >= 0 ==> r == Some(stop - now_ms)
            &&& stop - now_ms < 0 && stop + 86_400_000 - now_ms >= 0 ==> r == Some(
                stop + 86_400_000 - now_ms,
            )
            &&& stop + 86_400_000 - now_ms < 0 ==> r is None
            &&& r matches Some(ms) ==> ms >= 0 && (now_ms + ms == stop || now_ms + ms == stop
                + 86_400_000)
        }),
{
}

/// Whether the sums of `explicit_span_ms` stay within 64-bit signed integers.
pub open spec fn explicit_span_fits(stop_ms: int, utc_offset_secs: int, now_ms: int) -> bool {
    let fits = |x: int| i64::MIN <= x <= i64::MAX;
    let stop = stop_ms - utc_offset_secs * 1000;
    &&& fits(utc_offset_secs * 1000)
    &&& fits(stop)
    &&& fits(stop - now_ms)
    &&& fits(stop + DAY_MILLIS)
    &&& fits(stop + DAY_MILLIS - now_ms)
}

/// The span until a wall-clock time given in a user's time zone (see
/// `explicit_span_ms`).
pub fn explicit_timer_span(stop_ms: i64, utc_offset_secs: i64, now_ms: i64) -> (r: Option<TimeSpan>)
    requires
        explicit_span_fits(stop_ms as int, utc_offset_secs as int, now_ms as int),
    ensures
        match explicit_span_ms(stop_ms as int, utc_offset_secs as int, now_ms as int) {
            Some(ms) => r matches Some(d) && d.wf() && d.total_nanos() == ms * 1_000_000,
            None => r is None,
        },
{
    let stop = stop_ms - utc_offset_secs * 1000;
    let res = stop - now_ms;
    if res < 0 {
        let res2 = stop + DAY_MILLIS - now_ms;
        if res2 >= 0 {
            let d = TimeSpan::from_millis(res2 as u64);
            proof {
                vstd::arithmetic::div_mod::lemma_fundamental_div_mod(res2 as int, 1000);
            }
            Some(d)
        } else {
            None
        }
    } else {
        let d = TimeSpan::from_millis(res as u64);
        proof {
            vstd::arithmetic::div_mod::lemma_fundamental_div_mod(res as int, 1000);
        }
        Some(d)
    }
}

/// The answer when a timer is set for `span`.
pub fn timer_confirmation(span: TimeSpan) -> (s: String)
    ensures
        s@ == "Okay, I've set a timer for **"@ + pad2(span.secs as nat / 3600) + ":"@ + pad2(
            (span.secs as nat / 60) % 60,
        ) + ":"@ + pad2(span.secs as nat % 60) + "**."@,
{
    let total = span.as_secs();
    let seconds = total % 60;
    let minutes = (total / 60) % 60;
    let hours = (total / 60) / 60;
    proof {
        vstd::arithmetic::div_mod::lemma_div_denominator(total as int, 60, 60);
    }
    let mut s = "Okay, I've set a timer for **".to_string();
    push_pad2(&mut s, hours);
    push_str(&mut s, ":");
    push_pad2(&mut s, minutes);
    push_str(&mut s, ":");
    push_pad2(&mut s, seconds);
    push_str(&mut s, "**.");
    s
}

/// The answer when no time could be read from a timer request.
pub fn timer_not_understood() -> (s: String)
    ensures
        s@ == "Sorry, I couldn't determine a time from your message. Have you set your timezone? Try \"!timer tz America/New_York\""@,
{
    "Sorry, I couldn't determine a time from your message. Have you set your timezone? Try \"!timer tz America/New_York\"".to_string()
}

/// The mentions of the users with the first `n` ids.
pub open spec fn mentions_text(ids: Seq<u64>, n: nat) -> Seq<char>
    decreases n,
{
    if n == 0 {
        Seq::empty()
    } else {
        mentions_text(ids, (n - 1) as nat) + "<@"@ + decimal(ids[n - 1] as nat) + ">"@
    }
}

/// The message sent when a timer runs out, mentioning the users with the given ids.
pub fn expiry_message(mention_ids: &Vec<u64>) -> (s: String)
    ensures
        s@ == "Your timer has expired.\n"@ + mentions_text(mention_ids@, mention_ids@.len()),
{
    let mut s = "Your timer has expired.\n".to_string();
    let ghost head = s@;
    let mut i: usize = 0;
    while i < mention_ids.len()
        invariant
            i <= mention_ids@.len(),
            s@ == head + mentions_text(mention_ids@, i as nat),
        decreases mention_ids@.len() - i,
    {
        let ghost before = s@;
        push_str(&mut s, "<@");
        push_decimal(&mut s, mention_ids[i]);
        push_str(&mut s, ">");
        assert(s@ =~= head + mentions_text(mention_ids@, (i + 1) as nat));
        i = i + 1;
    }
    s
}

/// The answer to a user who asks for their time zone.
pub fn current_timezone_text(tz: Option<&str>) -> (s: String)
    ensures
        s@ == match tz {
            Some(t) => "Your timezone is currently set to "@ + t@,
            None => "Your timezone has not yet been set!"@,
        },
{
    match tz {
        Some(t) => {
            let mut s = "Your timezone is currently set to ".to_string();
            push_str(&mut s, t);
            s
        },
        None => "Your timezone has not yet been set!".to_string(),
    }
}

/// The answer when a user's time zone was stored.
pub fn timezone_set_text(tz: &str) -> (s: String)
    ensures
        s@ == "Your timezone has been set to "@ + tz@,
{
    let mut s = "Your timezone has been set to ".to_string();
    push_str(&mut s, tz);
    s
}

} // verus!
