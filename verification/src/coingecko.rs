use vstd::prelude::*;

use crate::parse::{split_acc, split_chars, split_on};
use crate::youtube::{request_url, url_joined, url_parse_error, url_parses};
use crate::text::{
    chars_vec, is_ws, join_with, push_char, push_str, split_whitespace, string_from_chars, words,
    words_acc,
};

verus! {

/// The ASCII lowercase of a capital ASCII letter; any other character unchanged.
pub open spec fn ascii_lower(c: char) -> char {
    if 'A' <= c && c <= 'Z' {
        (c as int + 32) as char
    } else {
        c
    }
}

/// The API form of a coin name: its ASCII letters lowercased (other characters kept),
/// split at whitespace and the words joined with `-`.
pub open spec fn api_format_spec(s: Seq<char>) -> Seq<char> {
    join_with(words(s.map_values(|c: char| ascii_lower(c))), "-"@)
}

/// Joins the parts with `sep`.
pub fn join_parts(parts: &Vec<Vec<char>>, sep: &str) -> (s: String)
    ensures
        s@ == join_with(parts.deep_view(), sep@),
{
    let mut s = String::new();
    let mut i: usize = 0;
    while i < parts.len()
        invariant
            i <= parts.len(),
            s@ == join_with(parts.deep_view().take(i as int), sep@),
        decreases parts.len() - i,
    {
        assert(parts.deep_view().take(i + 1).drop_last() == parts.deep_view().take(i as int));
        assert(parts.deep_view()[i as int] == parts[i as int]@);
        if i > 0 {
            push_str(&mut s, sep);
        }
        let ghost before = s@;
        let part = string_from_chars(&parts[i]);
        push_str(&mut s, part.as_str());
        i = i + 1;
    }
    assert(parts.deep_view().take(parts.len() as int) == parts.deep_view());
    s
}

/// Converts a coin name into the form the CoinGecko API expects: ASCII letters
/// lowercased (other characters kept whole), words joined with `-`.
pub fn to_api_format(s: &str) -> (r: String)
    ensures
        r@ == api_format_spec(s@),
{
    let input = chars_vec(s);
    let mut chars: Vec<char> = Vec::new();
    for i in 0..input.len()
        invariant
            input@ == s@,
            chars@ == s@.take(i as int).map_values(|c: char| ascii_lower(c)),
    {
        let c = input[i];
        let l: char = if 'A' <= c && c <= 'Z' {
            ((c as u8) + 32) as char
        } else {
            c
        };
        chars.push(l);
        assert(s@.take(i + 1).map_values(|c: char| ascii_lower(c)) =~= s@.take(i as int).map_values(
            |c: char| ascii_lower(c),
        ).push(l));
    }
    assert(s@.take(input.len() as int) == s@);
    let ws = split_whitespace(&chars);
    join_parts(&ws, "-")
}

/// The characters that `char::to_uppercase` gives for `c`.
pub uninterp spec fn upper_case_chars(c: char) -> Seq<char>;

/// The ASCII capital of a lowercase ASCII letter; any other character unchanged.
pub open spec fn ascii_upper(c: char) -> char {
    if 'a' <= c && c <= 'z' {
        (c as int - 32) as char
    } else {
        c
    }
}

/// The uppercase form of `c` (`char::to_uppercase`), collected into a string. The
/// contract names the result and states it for ASCII letters and digits only (a
/// lowercase letter gives its capital; a digit, having no uppercase mapping, gives
/// itself); the rest of Unicode's case mapping is left unsaid.
#[verifier::external_body]
fn char_to_uppercase(c: char) -> (r: String)
    ensures
        r@ == upper_case_chars(c),
        ('a' <= c && c <= 'z') || ('0' <= c && c <= '9') ==> r@ == seq![ascii_upper(c)],
{
    c.to_uppercase().collect::<String>()
}

/// A word with its first character uppercased.
pub open spec fn capitalized(w: Seq<char>) -> Seq<char> {
    if w.len() == 0 {
        w
    } else {
        upper_case_chars(w[0]) + w.drop_first()
    }
}

/// The display form of an API coin ID: the parts between `-` each capitalized and
/// joined with spaces.
pub open spec fn from_api_format_spec(s: Seq<char>) -> Seq<char> {
    join_with(split_on(s, '-').map_values(|w: Seq<char>| capitalized(w)), " "@)
}

/// A character of a part of an API coin ID: an ASCII lowercase letter or digit.
pub open spec fn is_id_char(c: char) -> bool {
    ('a' <= c && c <= 'z') || ('0' <= c && c <= '9')
}

/// A part of an API coin ID: a non-empty run of ASCII lowercase letters and digits.
pub open spec fn is_id_part(w: Seq<char>) -> bool {
    w.len() > 0 && forall|i: int| 0 <= i < w.len() ==> is_id_char(#[trigger] w[i])
}

/// An API coin ID such as `bitcoin-cash`: parts of ASCII lowercase letters and digits,
/// none empty, joined with `-`.
pub open spec fn is_api_coin_id(s: Seq<char>) -> bool {
    forall|i: int| 0 <= i < split_on(s, '-').len() ==> is_id_part(#[trigger] split_on(s, '-')[i])
}

/// A word with its first character given its ASCII capital.
pub open spec fn ascii_capitalized(w: Seq<char>) -> Seq<char> {
    if w.len() == 0 {
        w
    } else {
        seq![ascii_upper(w[0])] + w.drop_first()
    }
}

/// The display form of an API coin ID, its parts capitalized in ASCII.
pub open spec fn ascii_display_spec(s: Seq<char>) -> Seq<char> {
    join_with(split_on(s, '-').map_values(|w: Seq<char>| ascii_capitalized(w)), " "@)
}

/// Turns an API coin ID such as `bitcoin-cash` into a display name (`Bitcoin Cash`).
pub fn from_api_format(s: &str) -> (r: String)
    ensures
        r@ == from_api_format_spec(s@),
        is_api_coin_id(s@) ==> r@ == ascii_display_spec(s@),
{
    let chars = chars_vec(s);
    let parts = split_chars(&chars, '-');
    let ghost caps = split_on(s@, '-').map_values(|w: Seq<char>| capitalized(w));
    let mut r = String::new();
    let mut i: usize = 0;
    while i < parts.len()
        invariant
            i <= parts.len(),
            parts.deep_view() == split_on(s@, '-'),
            caps == split_on(s@, '-').map_values(|w: Seq<char>| capitalized(w)),
            r@ == join_with(caps.take(i as int), " "@),
            forall|j: int|
                0 <= j < i && is_id_part(#[trigger] parts.deep_view()[j]) ==> caps[j]
                    == ascii_capitalized(parts.deep_view()[j]),
        decreases parts.len() - i,
    {
        assert(caps.take(i + 1).drop_last() == caps.take(i as int));
        assert(parts.deep_view()[i as int] == parts[i as int]@);
        if i > 0 {
            push_str(&mut r, " ");
        }
        let w = &parts[i];
        if w.len() > 0 {
            let up = char_to_uppercase(w[0]);
            assert(is_id_part(w@) ==> is_id_char(w@[0]));
            push_str(&mut r, up.as_str());
            let mut k: usize = 1;
            let ghost mid = r@;
            while k < w.len()
                invariant
                    1 <= k <= w.len(),
                    r@ == mid + w@.subrange(1, k as int),
                decreases w.len() - k,
            {
                push_char(&mut r, w[k]);
                assert(w@.subrange(1, k + 1) == w@.subrange(1, k as int).push(w@[k as int]));
                k = k + 1;
            }
            assert(w@.subrange(1, w@.len() as int) == w@.drop_first());
        }
        assert(caps[i as int] == capitalized(w@));
        i = i + 1;
    }
    assert(caps.take(parts.len() as int) == caps);
    proof {
        if is_api_coin_id(s@) {
            assert(caps =~= split_on(s@, '-').map_values(|w: Seq<char>| ascii_capitalized(w))) by {
                assert forall|j: int| 0 <= j < caps.len() implies caps[j] == ascii_capitalized(
                    split_on(s@, '-')[j],
                ) by {
                    assert(is_id_part(split_on(s@, '-')[j]));
                    assert(is_id_part(parts.deep_view()[j]));
                }
            }
        }
    }
    r
}

/// Joining the pieces of `s` split at `sep`, with `sep` between them, gives `s` back
/// (stated over the left fold that `split_on` is made of).
proof fn lemma_join_split_acc(s: Seq<char>, sep: char)
    ensures
        join_with(split_acc(s, sep).0.push(split_acc(s, sep).1), seq![sep]) == s,
    decreases s.len(),
{
    if s.len() == 0 {
        assert(split_acc(s, sep).0.push(split_acc(s, sep).1).len() == 1);
        assert(s =~= seq![]);
    } else {
        let pre = s.drop_last();
        lemma_join_split_acc(pre, sep);
        let (p, c) = split_acc(pre, sep);
        assert(s =~= pre.push(s.last()));
        if s.last() == sep {
            let q = p.push(c).push(seq![]);
            assert(q.drop_last() =~= p.push(c));
            assert(join_with(q, seq![sep]) == join_with(p.push(c), seq![sep]) + seq![sep] + seq![]);
            assert(pre + seq![sep] + seq![] =~= pre.push(sep));
        } else {
            let q = p.push(c.push(s.last()));
            if p.len() == 0 {
                assert(q.len() == 1);
                assert(p.push(c).len() == 1);
                assert(join_with(p.push(c), seq![sep]) == p.push(c)[0]);
            } else {
                assert(q.drop_last() =~= p);
                assert(p.push(c).drop_last() =~= p);
                assert(join_with(q, seq![sep]) == join_with(p, seq![sep]) + seq![sep] + c.push(
                    s.last(),
                ));
                assert(join_with(p, seq![sep]) + seq![sep] + c.push(s.last()) =~= (join_with(
                    p,
                    seq![sep],
                ) + seq![sep] + c).push(s.last()));
            }
        }
    }
}

/// Joining the pieces of `s` split at `sep`, with `sep` between them, gives `s` back.
proof fn lemma_join_split(s: Seq<char>, sep: char)
    ensures
        join_with(split_on(s, sep), seq![sep]) == s,
{
    lemma_join_split_acc(s, sep);
}

/// Whether no character of `w` is whitespace.
spec fn no_ws(w: Seq<char>) -> bool {
    forall|i: int| 0 <= i < w.len() ==> !is_ws(#[trigger] w[i])
}

/// Appending a run without whitespace extends the word in progress.
proof fn lemma_words_acc_append(s: Seq<char>, w: Seq<char>)
    requires
        no_ws(w),
    ensures
        words_acc(s + w) == (words_acc(s).0, words_acc(s).1 + w),
    decreases w.len(),
{
    if w.len() == 0 {
        assert(s + w =~= s);
        assert(words_acc(s).1 + w =~= words_acc(s).1);
    } else {
        lemma_words_acc_append(s, w.drop_last());
        assert((s + w).drop_last() =~= s + w.drop_last());
        assert((s + w).last() == w.last());
        assert(!is_ws(w[w.len() - 1]));
        assert(words_acc(s).1 + w =~= (words_acc(s).1 + w.drop_last()).push(w.last()));
    }
}

/// The words of non-empty runs without whitespace joined by spaces, as a left fold.
proof fn lemma_words_acc_join(parts: Seq<Seq<char>>)
    requires
        parts.len() > 0,
        forall|i: int| 0 <= i < parts.len() ==> (#[trigger] parts[i]).len() > 0 && no_ws(parts[i]),
    ensures
        words_acc(join_with(parts, seq![' '])) == (parts.drop_last(), parts.last()),
    decreases parts.len(),
{
    if parts.len() == 1 {
        assert(no_ws(parts[0]));
        lemma_words_acc_append(seq![], parts[0]);
        assert(seq![] + parts[0] =~= parts[0]);
        assert(words_acc(Seq::<char>::empty()) == (Seq::<Seq<char>>::empty(), Seq::<char>::empty()));
        assert(parts.drop_last() =~= seq![]);
    } else {
        let pre = parts.drop_last();
        assert forall|i: int| 0 <= i < pre.len() implies (#[trigger] pre[i]).len() > 0 && no_ws(
            pre[i],
        ) by {
            assert(pre[i] == parts[i]);
        }
        lemma_words_acc_join(pre);
        let j = join_with(pre, seq![' ']);
        assert(j.push(' ').drop_last() =~= j);
        assert(is_ws(j.push(' ').last()));
        assert(pre.last() == parts[parts.len() - 2]);
        assert(pre.drop_last().push(pre.last()) =~= pre);
        assert(words_acc(j.push(' ')) == (pre, Seq::<char>::empty()));
        assert(no_ws(parts[parts.len() - 1]));
        lemma_words_acc_append(j.push(' '), parts.last());
        assert(j + seq![' '] =~= j.push(' '));
        assert(Seq::<char>::empty() + parts.last() =~= parts.last());
    }
}

/// The words of non-empty runs without whitespace joined by spaces are those runs.
proof fn lemma_words_join(parts: Seq<Seq<char>>)
    requires
        parts.len() > 0,
        forall|i: int| 0 <= i < parts.len() ==> (#[trigger] parts[i]).len() > 0 && no_ws(parts[i]),
    ensures
        words(join_with(parts, seq![' '])) == parts,
{
    lemma_words_acc_join(parts);
    assert(parts.last() == parts[parts.len() - 1]);
    assert(parts.drop_last().push(parts.last()) =~= parts);
}

/// Mapping each character of a join maps the parts and the separator.
proof fn lemma_join_map(parts: Seq<Seq<char>>, sep: Seq<char>, f: spec_fn(char) -> char)
    ensures
        join_with(parts, sep).map_values(f) == join_with(
            parts.map_values(|p: Seq<char>| p.map_values(f)),
            sep.map_values(f),
        ),
    decreases parts.len(),
{
    let mapped = parts.map_values(|p: Seq<char>| p.map_values(f));
    if parts.len() == 0 {
        assert(join_with(parts, sep).map_values(f) =~= seq![]);
    } else if parts.len() == 1 {
        assert(mapped[0] == parts[0].map_values(f));
    } else {
        lemma_join_map(parts.drop_last(), sep, f);
        assert(mapped.drop_last() =~= parts.drop_last().map_values(|p: Seq<char>| p.map_values(f)));
        assert(mapped.last() == parts.last().map_values(f));
        let a = join_with(parts.drop_last(), sep);
        assert((a + sep + parts.last()).map_values(f) =~= a.map_values(f) + sep.map_values(f)
            + parts.last().map_values(f));
    }
}

/// Reading back an API coin ID from its display name gives the ID: for every ID made
/// of non-empty parts of ASCII lowercase letters and digits joined with `-` (such as
/// `bitcoin-cash`), the API form of its display name (`Bitcoin Cash`) is the ID
/// itself, so `to_api_format(&from_api_format(id)) == id`.
pub proof fn lemma_api_format_round_trip(id: Seq<char>)
    requires
        is_api_coin_id(id),
    ensures
        api_format_spec(ascii_display_spec(id)) == id,
{
    reveal_strlit(" ");
    reveal_strlit("-");
    let segs = split_on(id, '-');
    let caps = segs.map_values(|w: Seq<char>| ascii_capitalized(w));
    assert(" "@ =~= seq![' ']);
    assert("-"@ =~= seq!['-']);
    let y = join_with(caps, seq![' ']);
    assert(ascii_display_spec(id) == y);
    // Each capitalized part lowers back to the part.
    assert forall|i: int| 0 <= i < caps.len() implies (#[trigger] caps[i]).map_values(
        |c: char| ascii_lower(c),
    ) == segs[i] by {
        let w = segs[i];
        assert(is_id_part(w));
        let cw = caps[i];
        assert(cw == ascii_capitalized(w));
        assert(cw.len() == w.len());
        assert forall|k: int| 0 <= k < cw.len() implies ascii_lower(#[trigger] cw[k]) == w[k] by {
            assert(is_id_char(w[k]));
            if k == 0 {
                assert(cw[0] == ascii_upper(w[0]));
            } else {
                assert(cw[k] == w[k]);
            }
        }
        assert(cw.map_values(|c: char| ascii_lower(c)) =~= w);
    }
    let lowered = y.map_values(|c: char| ascii_lower(c));
    lemma_join_map(caps, seq![' '], |c: char| ascii_lower(c));
    assert(seq![' '].map_values(|c: char| ascii_lower(c)) =~= seq![' ']);
    assert(caps.map_values(|p: Seq<char>| p.map_values(|c: char| ascii_lower(c))) =~= segs);
    assert(lowered == join_with(segs, seq![' ']));
    // Its words are the parts, which joined with `-` give the ID.
    assert forall|i: int| 0 <= i < segs.len() implies (#[trigger] segs[i]).len() > 0 && no_ws(
        segs[i],
    ) by {
        assert(is_id_part(segs[i]));
        assert forall|k: int| 0 <= k < segs[i].len() implies !is_ws(#[trigger] segs[i][k]) by {
            assert(is_id_char(segs[i][k]));
        }
    }
    lemma_words_join(segs);
    lemma_join_split(id, '-');
}

/// The API path of a coin's data: `coins/` followed by the API form of the name.
pub fn coin_api_path(symbol: &str) -> (p: String)
    ensures
        p@ == "coins/"@ + api_format_spec(symbol@),
{
    let mut p = "coins/".to_string();
    let f = to_api_format(symbol);
    push_str(&mut p, f.as_str());
    p
}

/// Why a CoinGecko request gave no coin data.
#[derive(Debug, Clone, PartialEq)]
pub enum CoingeckoError {
    /// The request failed; the failure's text.
    Api(String),
    /// The answer was not JSON; the failure's text.
    Json(String),
    /// The request was refused or malformed; why.
    BadRequest(String),
    /// The answer could not be read as coin data.
    Invalid,
}

/// The message of a CoinGecko error.
pub open spec fn coingecko_error_text(e: CoingeckoError) -> Seq<char> {
    match e {
        CoingeckoError::Api(s) => "API communication failure: "@ + s@,
        CoingeckoError::Json(s) => "Unable to parse text from JSON: "@ + s@,
        CoingeckoError::BadRequest(s) => "Bad request: "@ + s@,
        CoingeckoError::Invalid => "Invalid response received from CoinGecko"@,
    }
}

impl CoingeckoError {
    /// The message of this error.
    pub fn message(&self) -> (s: String)
        ensures
            s@ == coingecko_error_text(*self),
    {
        match self {
            CoingeckoError::Api(x) => {
                let mut s = "API communication failure: ".to_string();
                push_str(&mut s, x.as_str());
                s
            },
            CoingeckoError::Json(x) => {
                let mut s = "Unable to parse text from JSON: ".to_string();
                push_str(&mut s, x.as_str());
                s
            },
            CoingeckoError::BadRequest(x) => {
                let mut s = "Bad request: ".to_string();
                push_str(&mut s, x.as_str());
                s
            },
            CoingeckoError::Invalid => "Invalid response received from CoinGecko".to_string(),
        }
    }
}

/// The address of a request to the API at `base_url` for `path`; a base that is no
/// URL, or a path that does not join onto it, is a bad request that says so.
pub fn api_request_url(base_url: &str, path: &str) -> (r: Result<String, CoingeckoError>)
    ensures
        !url_parses(base_url@) ==> (r matches Err(CoingeckoError::BadRequest(m)) && m@
            == "Invalid base URL '"@ + base_url@ + "': "@ + url_parse_error(base_url@)),
        url_parses(base_url@) ==> match url_joined(base_url@, path@) {
            Ok(u) => r matches Ok(x) && x@ == u,
            Err(e) => r matches Err(CoingeckoError::BadRequest(m)) && m@ == "Invalid path segment '"@
                + path@ + "' for base URL '"@ + base_url@ + "': "@ + e,
        },
{
    match request_url(base_url, path) {
        Ok(u) => Ok(u),
        Err((true, e)) => {
            let mut m = "Invalid base URL '".to_string();
            push_str(&mut m, base_url);
            push_str(&mut m, "': ");
            push_str(&mut m, e.as_str());
            Err(CoingeckoError::BadRequest(m))
        },
        Err((false, e)) => {
            let mut m = "Invalid path segment '".to_string();
            push_str(&mut m, path);
            push_str(&mut m, "' for base URL '");
            push_str(&mut m, base_url);
            push_str(&mut m, "': ");
            push_str(&mut m, e.as_str());
            Err(CoingeckoError::BadRequest(m))
        },
    }
}

/// Judges an answer by its `error` field (where that is a string): with one, the
/// request was bad; without, the answer stands.
pub fn check_api_error(error_field: Option<String>) -> (r: Result<(), CoingeckoError>)
    ensures
        match error_field {
            Some(e) => r matches Err(CoingeckoError::BadRequest(m)) && m@ == e@,
            None => r is Ok,
        },
{
    match error_field {
        Some(e) => Err(CoingeckoError::BadRequest(e)),
        None => Ok(()),
    }
}

} // verus!
