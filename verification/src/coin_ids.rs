use vstd::prelude::*;

use crate::ai::{has_prefix, names_with_prefix};
use crate::text::{chars_vec, push_chars_range, starts_with, string_views};

verus! {

/// How many suggestions the coin autocompletion gives at most.
pub const MAX_SUGGESTIONS: usize = 25;

/// `a` comes before `b` or equals it, comparing characters by code point from the
/// start (a proper prefix comes first); the order of `str`.
pub open spec fn lex_le(a: Seq<char>, b: Seq<char>) -> bool
    decreases a.len(),
{
    if a.len() == 0 {
        true
    } else if b.len() == 0 {
        false
    } else if a[0] == b[0] {
        lex_le(a.drop_first(), b.drop_first())
    } else {
        a[0] < b[0]
    }
}

/// The names are in increasing order.
pub open spec fn sorted(v: Seq<Seq<char>>) -> bool {
    forall|i: int, j: int| 0 <= i < j < v.len() ==> lex_le(#[trigger] v[i], #[trigger] v[j])
}

/// Any two texts are ordered one way or the other.
pub proof fn lemma_lex_total(a: Seq<char>, b: Seq<char>)
    ensures
        lex_le(a, b) || lex_le(b, a),
    decreases a.len(),
{
    if a.len() > 0 && b.len() > 0 && a[0] == b[0] {
        lemma_lex_total(a.drop_first(), b.drop_first());
    }
}

/// Texts ordered both ways are equal.
pub proof fn lemma_lex_antisymmetric(a: Seq<char>, b: Seq<char>)
    requires
        lex_le(a, b),
        lex_le(b, a),
    ensures
        a == b,
    decreases a.len(),
{
    if a.len() > 0 && b.len() > 0 {
        if a[0] == b[0] {
            lemma_lex_antisymmetric(a.drop_first(), b.drop_first());
            assert(a =~= seq![a[0]] + a.drop_first());
            assert(b =~= seq![b[0]] + b.drop_first());
        }
    } else {
        assert(a.len() == 0 && b.len() == 0);
        assert(a =~= b);
    }
}

/// The order is transitive.
pub proof fn lemma_lex_transitive(a: Seq<char>, b: Seq<char>, c: Seq<char>)
    requires
        lex_le(a, b),
        lex_le(b, c),
    ensures
        lex_le(a, c),
    decreases a.len(),
{
    if a.len() > 0 && b.len() > 0 && c.len() > 0 && a[0] == b[0] && b[0] == c[0] {
        lemma_lex_transitive(a.drop_first(), b.drop_first(), c.drop_first());
    }
}

/// The prefix test, one character at a time.
proof fn lemma_prefix_step(s: Seq<char>, p: Seq<char>)
    requires
        s.len() > 0,
        p.len() > 0,
    ensures
        has_prefix(s, p) == (s[0] == p[0] && has_prefix(s.drop_first(), p.drop_first())),
{
    if has_prefix(s, p) {
        assert(s.take(p.len() as int)[0] == p[0]);
        assert(s.drop_first().take(p.drop_first().len() as int) =~= s.take(p.len() as int).drop_first());
    }
    if s[0] == p[0] && has_prefix(s.drop_first(), p.drop_first()) {
        assert(s.take(p.len() as int) =~= seq![s[0]] + s.drop_first().take(p.drop_first().len() as int));
        assert(p =~= seq![p[0]] + p.drop_first());
    }
}

/// A text starts after every prefix of it.
proof fn lemma_prefix_is_smaller(x: Seq<char>, p: Seq<char>)
    requires
        has_prefix(x, p),
    ensures
        lex_le(p, x),
    decreases p.len(),
{
    if p.len() > 0 {
        lemma_prefix_step(x, p);
        lemma_prefix_is_smaller(x.drop_first(), p.drop_first());
    }
}

/// Past a text that comes after `p` without starting with it, no text starts with `p`.
proof fn lemma_prefix_run_ends(p: Seq<char>, x: Seq<char>, y: Seq<char>)
    requires
        lex_le(p, x),
        !has_prefix(x, p),
        lex_le(x, y),
    ensures
        !has_prefix(y, p),
    decreases p.len(),
{
    if p.len() == 0 {
        assert(x.take(0) =~= p);
    } else if x.len() == 0 {
    } else if y.len() == 0 {
    } else {
        lemma_prefix_step(x, p);
        lemma_prefix_step(y, p);
        if p[0] == x[0] && x[0] == y[0] {
            lemma_prefix_run_ends(p.drop_first(), x.drop_first(), y.drop_first());
        }
    }
}

/// Whether `a` comes before `b` or equals it.
pub fn lex_le_exec(a: &str, b: &str) -> (r: bool)
    ensures
        r == lex_le(a@, b@),
{
    let x = chars_vec(a);
    let y = chars_vec(b);
    let mut i: usize = 0;
    proof {
        assert(a@.skip(0) =~= a@);
        assert(b@.skip(0) =~= b@);
    }
    while i < x.len() && i < y.len() && x[i] == y[i]
        invariant
            x@ == a@,
            y@ == b@,
            i <= x@.len(),
            i <= y@.len(),
            lex_le(a@, b@) == lex_le(a@.skip(i as int), b@.skip(i as int)),
        decreases x@.len() - i,
    {
        proof {
            assert(a@.skip(i as int).drop_first() =~= a@.skip(i + 1));
            assert(b@.skip(i as int).drop_first() =~= b@.skip(i + 1));
        }
        i = i + 1;
    }
    proof {
        if i < x@.len() && i < y@.len() {
            assert(a@.skip(i as int)[0] == a@[i as int]);
            assert(b@.skip(i as int)[0] == b@[i as int]);
        }
    }
    if i == x.len() {
        true
    } else if i == y.len() {
        false
    } else {
        x[i] < y[i]
    }
}

/// The position of the first name that does not come strictly before `partial`.
fn lower_bound(ids: &Vec<String>, partial: &str) -> (r: usize)
    requires
        sorted(string_views(ids@)),
    ensures
        r <= ids@.len(),
        forall|i: int| 0 <= i < r ==> !lex_le(partial@, #[trigger] ids@[i]@),
        forall|i: int| r <= i < ids@.len() ==> lex_le(partial@, #[trigger] ids@[i]@),
{
    let ghost v = string_views(ids@);
    let mut lo: usize = 0;
    let mut hi: usize = ids.len();
    while lo < hi
        invariant
            v == string_views(ids@),
            sorted(v),
            lo <= hi <= ids@.len(),
            forall|i: int| 0 <= i < lo ==> !lex_le(partial@, #[trigger] ids@[i]@),
            forall|i: int| hi <= i < ids@.len() ==> lex_le(partial@, #[trigger] ids@[i]@),
        decreases hi - lo,
    {
        let mid = lo + (hi - lo) / 2;
        if !lex_le_exec(partial, ids[mid].as_str()) {
            proof {
                assert forall|i: int| 0 <= i <= mid implies !lex_le(partial@, #[trigger] ids@[i]@) by {
                    if i < mid {
                        assert(v[i] == ids@[i]@ && v[mid as int] == ids@[mid as int]@);
                        assert(lex_le(v[i], v[mid as int]));
                        if lex_le(partial@, ids@[i]@) {
                            lemma_lex_transitive(partial@, ids@[i]@, ids@[mid as int]@);
                        }
                    }
                }
            }
            lo = mid + 1;
        } else {
            proof {
                assert forall|i: int| mid <= i < ids@.len() implies lex_le(partial@, #[trigger] ids@[i]@) by {
                    if i > mid {
                        assert(v[i] == ids@[i]@ && v[mid as int] == ids@[mid as int]@);
                        assert(lex_le(v[mid as int], v[i]));
                        lemma_lex_transitive(partial@, ids@[mid as int]@, ids@[i]@);
                    }
                }
            }
            hi = mid;
        }
    }
    lo
}

/// The end of the run of names that start with `partial`, from `start` on.
fn prefix_run_end(ids: &Vec<String>, start: usize, partial: &str) -> (r: usize)
    requires
        sorted(string_views(ids@)),
        start <= ids@.len(),
        forall|i: int| start <= i < ids@.len() ==> lex_le(partial@, #[trigger] ids@[i]@),
    ensures
        start <= r <= ids@.len(),
        forall|i: int| start <= i < r ==> has_prefix(#[trigger] ids@[i]@, partial@),
        forall|i: int| r <= i < ids@.len() ==> !has_prefix(#[trigger] ids@[i]@, partial@),
{
    let ghost v = string_views(ids@);
    let mut lo: usize = start;
    let mut hi: usize = ids.len();
    while lo < hi
        invariant
            v == string_views(ids@),
            sorted(v),
            start <= lo <= hi <= ids@.len(),
            forall|i: int| start <= i < ids@.len() ==> lex_le(partial@, #[trigger] ids@[i]@),
            forall|i: int| start <= i < lo ==> has_prefix(#[trigger] ids@[i]@, partial@),
            forall|i: int| hi <= i < ids@.len() ==> !has_prefix(#[trigger] ids@[i]@, partial@),
        decreases hi - lo,
    {
        let mid = lo + (hi - lo) / 2;
        if starts_with(ids[mid].as_str(), partial) {
            proof {
                assert forall|i: int| start <= i <= mid implies has_prefix(#[trigger] ids@[i]@, partial@) by {
                    if i < mid && !has_prefix(ids@[i]@, partial@) {
                        assert(v[i] == ids@[i]@ && v[mid as int] == ids@[mid as int]@);
                        assert(lex_le(v[i], v[mid as int]));
                        lemma_prefix_run_ends(partial@, ids@[i]@, ids@[mid as int]@);
                    }
                }
            }
            lo = mid + 1;
        } else {
            proof {
                assert forall|i: int| mid <= i < ids@.len() implies !has_prefix(#[trigger] ids@[i]@, partial@) by {
                    if i > mid {
                        assert(v[i] == ids@[i]@ && v[mid as int] == ids@[mid as int]@);
                        assert(lex_le(v[mid as int], v[i]));
                        lemma_prefix_run_ends(partial@, ids@[mid as int]@, ids@[i]@);
                    }
                }
            }
            hi = mid;
        }
    }
    lo
}

/// In a sorted list, the names that start with `partial` are those of the run found
/// by the two searches.
proof fn lemma_run_is_filter(v: Seq<Seq<char>>, p: Seq<char>, start: int, end: int, k: int)
    requires
        0 <= start <= end <= v.len(),
        0 <= k <= v.len(),
        forall|i: int| 0 <= i < start ==> !lex_le(p, #[trigger] v[i]),
        forall|i: int| start <= i < end ==> has_prefix(#[trigger] v[i], p),
        forall|i: int| end <= i < v.len() ==> !has_prefix(#[trigger] v[i], p),
    ensures
        names_with_prefix(v.take(k), p) == v.subrange(
            if k < start {
                k
            } else {
                start
            },
            if k < start {
                k
            } else if k < end {
                k
            } else {
                end
            },
        ),
    decreases k,
{
    if k > 0 {
        lemma_run_is_filter(v, p, start, end, k - 1);
        assert(v.take(k).drop_last() =~= v.take(k - 1));
        assert(v.take(k).last() == v[k - 1]);
        if k - 1 < start {
            if has_prefix(v[k - 1], p) {
                lemma_prefix_is_smaller(v[k - 1], p);
            }
            assert(v.subrange(k - 1, k - 1) =~= v.subrange(k, k));
        }
        if start <= k - 1 < end {
            assert(v.subrange(start, k - 1).push(v[k - 1]) =~= v.subrange(start, k));
        }
    } else {
        assert(v.subrange(0, 0) =~= Seq::<Seq<char>>::empty());
    }
}

/// The coin IDs that start with what the user typed, from the sorted list of IDs: at
/// most `MAX_SUGGESTIONS`, in order.
pub fn autocomplete_coin_id(ids: &Vec<String>, partial: &str) -> (r: Vec<String>)
    requires
        sorted(string_views(ids@)),
    ensures
        string_views(r@) == names_with_prefix(string_views(ids@), partial@).take(
            if names_with_prefix(string_views(ids@), partial@).len() < MAX_SUGGESTIONS {
                names_with_prefix(string_views(ids@), partial@).len() as int
            } else {
                MAX_SUGGESTIONS as int
            },
        ),
{
    let ghost v = string_views(ids@);
    let start = lower_bound(ids, partial);
    proof {
        assert forall|i: int| start <= i < ids@.len() implies lex_le(partial@, #[trigger] ids@[i]@) by {}
    }
    let end = prefix_run_end(ids, start, partial);
    proof {
        assert forall|i: int| 0 <= i < start implies !lex_le(partial@, #[trigger] v[i]) by {
            assert(v[i] == ids@[i]@);
        }
        assert forall|i: int| start <= i < end implies has_prefix(#[trigger] v[i], partial@) by {
            assert(v[i] == ids@[i]@);
        }
        assert forall|i: int| end <= i < v.len() implies !has_prefix(#[trigger] v[i], partial@) by {
            assert(v[i] == ids@[i]@);
        }
        lemma_run_is_filter(v, partial@, start as int, end as int, v.len() as int);
        assert(v.take(v.len() as int) =~= v);
    }
    let count: usize = if end - start < MAX_SUGGESTIONS {
        end - start
    } else {
        MAX_SUGGESTIONS
    };
    let mut r: Vec<String> = Vec::new();
    let mut i: usize = 0;
    while i < count
        invariant
            v == string_views(ids@),
            start + count <= end <= ids@.len(),
            i <= count,
            string_views(r@) == v.subrange(start as int, start + i),
        decreases count - i,
    {
        let ghost before = string_views(r@);
        r.push(ids[start + i].clone());
        assert(string_views(r@) =~= before.push(v[start + i]));
        assert(v.subrange(start as int, start + i).push(v[start + i]) =~= v.subrange(
            start as int,
            start + i + 1,
        ));
        i = i + 1;
    }
    assert(v.subrange(start as int, end as int).take(count as int) =~= v.subrange(
        start as int,
        start + count,
    ));
    r
}

/// A coin ID as the API's JSON writes it, without the quotes around it: every leading
/// and trailing `"` goes.
pub open spec fn trim_quotes_spec(s: Seq<char>) -> Seq<char>
    decreases s.len(),
{
    if s.len() > 0 && s[0] == '"' {
        trim_quotes_spec(s.drop_first())
    } else if s.len() > 0 && s.last() == '"' {
        trim_quotes_spec(s.drop_last())
    } else {
        s
    }
}

/// Removes every leading and trailing `"` of `s`.
pub fn trim_quotes(s: &str) -> (r: String)
    ensures
        r@ == trim_quotes_spec(s@),
{
    let chars = chars_vec(s);
    let mut lo: usize = 0;
    let mut hi: usize = chars.len();
    proof {
        assert(s@.subrange(0, s@.len() as int) =~= s@);
    }
    while lo < hi && (chars[lo] == '"' || chars[hi - 1] == '"')
        invariant
            chars@ == s@,
            lo <= hi <= chars@.len(),
            trim_quotes_spec(s@) == trim_quotes_spec(s@.subrange(lo as int, hi as int)),
        decreases hi - lo,
    {
        let ghost cur = s@.subrange(lo as int, hi as int);
        if chars[lo] == '"' {
            assert(cur.drop_first() =~= s@.subrange(lo + 1, hi as int));
            lo = lo + 1;
        } else {
            assert(cur.drop_last() =~= s@.subrange(lo as int, hi - 1));
            hi = hi - 1;
        }
    }
    let mut r = String::new();
    push_chars_range(&mut r, &chars, lo, hi);
    proof {
        let cur = s@.subrange(lo as int, hi as int);
        assert(r@ =~= cur);
    }
    r
}

/// The position at which `x` goes into the sorted `v`: after every name not after it.
fn insertion_point(v: &Vec<String>, x: &str) -> (p: usize)
    requires
        sorted(string_views(v@)),
    ensures
        p <= v@.len(),
        forall|i: int| 0 <= i < p ==> lex_le(#[trigger] v@[i]@, x@),
        forall|i: int| p <= i < v@.len() ==> !lex_le(#[trigger] v@[i]@, x@),
{
    let ghost w = string_views(v@);
    let mut p: usize = 0;
    while p < v.len() && lex_le_exec(v[p].as_str(), x)
        invariant
            w == string_views(v@),
            sorted(w),
            p <= v@.len(),
            forall|i: int| 0 <= i < p ==> lex_le(#[trigger] v@[i]@, x@),
        decreases v@.len() - p,
    {
        p = p + 1;
    }
    proof {
        assert forall|i: int| p <= i < v@.len() implies !lex_le(#[trigger] v@[i]@, x@) by {
            if i > p && lex_le(v@[i]@, x@) {
                assert(w[p as int] == v@[p as int]@ && w[i] == v@[i]@);
                assert(lex_le(w[p as int], w[i]));
                lemma_lex_transitive(v@[p as int]@, v@[i]@, x@);
            }
        }
    }
    p
}

/// Puts the coin IDs in increasing order.
pub fn sort_ids(ids: Vec<String>) -> (r: Vec<String>)
    ensures
        sorted(string_views(r@)),
        string_views(r@).to_multiset() == string_views(ids@).to_multiset(),
{
    let ghost input = string_views(ids@);
    let mut out: Vec<String> = Vec::new();
    let mut i: usize = 0;
    proof {
        assert(string_views(out@) =~= input.take(0));
    }
    while i < ids.len()
        invariant
            input == string_views(ids@),
            i <= ids@.len(),
            sorted(string_views(out@)),
            string_views(out@).to_multiset() == input.take(i as int).to_multiset(),
        decreases ids@.len() - i,
    {
        let x = ids[i].clone();
        let p = insertion_point(&out, x.as_str());
        let ghost old_out = string_views(out@);
        let ghost out_before = out@;
        let ghost xs = x@;
        proof {
            assert forall|a: int| 0 <= a < p implies lex_le(#[trigger] old_out[a], xs) by {
                assert(old_out[a] == out_before[a]@);
            }
            assert forall|a: int| p <= a < old_out.len() implies !lex_le(#[trigger] old_out[a], xs) by {
                assert(old_out[a] == out_before[a]@);
            }
        }
        out.insert(p, x);
        proof {
            let new_out = string_views(out@);
            assert(new_out =~= old_out.take(p as int) + seq![xs] + old_out.skip(p as int));
            assert forall|a: int, b: int| 0 <= a < b < new_out.len() implies lex_le(
                #[trigger] new_out[a],
                #[trigger] new_out[b],
            ) by {
                if b < p {
                    assert(new_out[a] == old_out[a] && new_out[b] == old_out[b]);
                } else if b == p {
                    assert(new_out[a] == old_out[a] && new_out[b] == xs);
                } else if a > p {
                    assert(new_out[a] == old_out[a - 1] && new_out[b] == old_out[b - 1]);
                } else if a == p {
                    assert(new_out[a] == xs && new_out[b] == old_out[b - 1]);
                    assert(!lex_le(old_out[b - 1], xs));
                    lemma_lex_total(old_out[b - 1], xs);
                } else {
                    assert(new_out[a] == old_out[a] && new_out[b] == old_out[b - 1]);
                    assert(lex_le(old_out[a], xs));
                    assert(!lex_le(old_out[b - 1], xs));
                    lemma_lex_total(old_out[b - 1], xs);
                    lemma_lex_transitive(old_out[a], xs, old_out[b - 1]);
                }
            }
            vstd::seq_lib::lemma_multiset_commutative(old_out.take(p as int) + seq![xs], old_out.skip(p as int));
            vstd::seq_lib::lemma_multiset_commutative(old_out.take(p as int), seq![xs]);
            vstd::seq_lib::lemma_multiset_commutative(old_out.take(p as int), old_out.skip(p as int));
            assert(old_out =~= old_out.take(p as int) + old_out.skip(p as int));
            assert(input.take(i + 1) =~= input.take(i as int).push(input[i as int]));
            vstd::seq_lib::lemma_multiset_commutative(input.take(i as int), seq![input[i as int]]);
            assert(input.take(i as int) + seq![input[i as int]] =~= input.take(i + 1));
        }
        i = i + 1;
    }
    proof {
        assert(input.take(ids@.len() as int) =~= input);
    }
    out
}

/// The coin IDs of the API's list, from the JSON text of each entry's `id`: without
/// their quotes, in increasing order.
pub fn list_coin_ids(raw_ids: &Vec<String>) -> (r: Vec<String>)
    ensures
        sorted(string_views(r@)),
        string_views(r@).to_multiset() == raw_ids@.map_values(|s: String| trim_quotes_spec(s@)).to_multiset(),
{
    let mut trimmed: Vec<String> = Vec::new();
    let mut i: usize = 0;
    while i < raw_ids.len()
        invariant
            i <= raw_ids@.len(),
            string_views(trimmed@) == raw_ids@.take(i as int).map_values(|s: String| trim_quotes_spec(s@)),
        decreases raw_ids@.len() - i,
    {
        let t = trim_quotes(raw_ids[i].as_str());
        let ghost before = string_views(trimmed@);
        trimmed.push(t);
        assert(string_views(trimmed@) =~= before.push(trim_quotes_spec(raw_ids@[i as int]@)));
        assert(raw_ids@.take(i + 1).map_values(|s: String| trim_quotes_spec(s@)) =~= raw_ids@.take(
            i as int,
        ).map_values(|s: String| trim_quotes_spec(s@)).push(trim_quotes_spec(raw_ids@[i as int]@)));
        i = i + 1;
    }
    assert(raw_ids@.take(raw_ids@.len() as int) =~= raw_ids@);
    sort_ids(trimmed)
}

/// The coin IDs fetched once, kept for autocompletion.
pub struct CoinIdCache {
    ids: Vec<String>,
}

impl CoinIdCache {
    /// The kept IDs.
    pub closed spec fn ids(&self) -> Seq<Seq<char>> {
        string_views(self.ids@)
    }

    /// A cache that keeps nothing.
    pub fn new() -> (c: Self)
        ensures
            c.ids().len() == 0,
    {
        CoinIdCache { ids: Vec::new() }
    }

    /// A copy of the kept IDs, unless there are none (then they are to be fetched).
    pub fn cached(&self) -> (r: Option<Vec<String>>)
        ensures
            self.ids().len() == 0 ==> r is None,
            self.ids().len() > 0 ==> (r matches Some(v) && string_views(v@) == self.ids()),
    {
        if self.ids.len() == 0 {
            return None;
        }
        let mut v: Vec<String> = Vec::new();
        let mut i: usize = 0;
        while i < self.ids.len()
            invariant
                i <= self.ids@.len(),
                string_views(v@) == string_views(self.ids@).take(i as int),
            decreases self.ids@.len() - i,
        {
            let ghost before = string_views(v@);
            v.push(self.ids[i].clone());
            assert(string_views(v@) =~= before.push(self.ids@[i as int]@));
            assert(string_views(self.ids@).take(i + 1) =~= string_views(self.ids@).take(i as int).push(
                self.ids@[i as int]@,
            ));
            i = i + 1;
        }
        assert(string_views(self.ids@).take(self.ids@.len() as int) =~= string_views(self.ids@));
        Some(v)
    }

    /// Keeps `ids` in place of what was kept.
    pub fn store(&mut self, ids: Vec<String>)
        ensures
            final(self).ids() == string_views(ids@),
    {
        self.ids = ids;
    }
}

} // verus!
