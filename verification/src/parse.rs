use vstd::prelude::*;

verus! {

/// Whether `c` is an ASCII decimal digit.
pub open spec fn is_digit(c: char) -> bool {
    '0' <= c && c <= '9'
}

/// The value of an ASCII digit.
pub open spec fn digit_value(c: char) -> nat {
    (c as int - 48) as nat
}

/// The value of a string of decimal digits, most significant first.
pub open spec fn digits_value(p: Seq<char>) -> nat
    decreases p.len(),
{
    if p.len() == 0 {
        0
    } else {
        digits_value(p.drop_last()) * 10 + digit_value(p.last())
    }
}

/// The digits of an unsigned number text: the text without one leading `+`.
pub open spec fn unsigned_body(p: Seq<char>) -> Seq<char> {
    if p.len() > 0 && p[0] == '+' {
        p.drop_first()
    } else {
        p
    }
}

/// What `str::parse::<u64>` gives for `p`: an optional `+`, then one or more ASCII
/// digits whose value fits in a `u64`.
pub open spec fn parse_u64_spec(p: Seq<char>) -> Option<u64> {
    let body = unsigned_body(p);
    if body.len() > 0 && (forall|i: int| 0 <= i < body.len() ==> is_digit(#[trigger] body[i]))
        && digits_value(body) <= u64::MAX {
        Some(digits_value(body) as u64)
    } else {
        None
    }
}

/// Splitting by `sep` folded from the left: the finished parts and the part in progress.
pub open spec fn split_acc(s: Seq<char>, sep: char) -> (Seq<Seq<char>>, Seq<char>)
    decreases s.len(),
{
    if s.len() == 0 {
        (seq![], seq![])
    } else {
        let (parts, cur) = split_acc(s.drop_last(), sep);
        if s.last() == sep {
            (parts.push(cur), seq![])
        } else {
            (parts, cur.push(s.last()))
        }
    }
}

/// The pieces of `s` between occurrences of `sep`, as `str::split` yields them.
pub open spec fn split_on(s: Seq<char>, sep: char) -> Seq<Seq<char>> {
    split_acc(s, sep).0.push(split_acc(s, sep).1)
}

proof fn lemma_digits_value_prefix_mono(p: Seq<char>, i: int, j: int)
    requires
        0 <= i <= j <= p.len(),
    ensures
        digits_value(p.take(i)) <= digits_value(p.take(j)),
    decreases j - i,
{
    if i < j {
        lemma_digits_value_prefix_mono(p, i, j - 1);
        assert(p.take(j).drop_last() == p.take(j - 1));
    }
}

/// Parses `p` as `str::parse::<u64>` does.
pub fn parse_u64(p: &Vec<char>) -> (r: Option<u64>)
    ensures
        r == parse_u64_spec(p@),
{
    let start: usize = if p.len() > 0 && p[0] == '+' { 1 } else { 0 };
    let ghost body = unsigned_body(p@);
    assert(body == p@.subrange(start as int, p@.len() as int));
    if start >= p.len() {
        return None;
    }
    let mut value: u64 = 0;
    let mut i: usize = start;
    while i < p.len()
        invariant
            start <= i <= p.len(),
            start < p.len(),
            body == p@.subrange(start as int, p@.len() as int),
            body == unsigned_body(p@),
            forall|k: int| 0 <= k < i - start ==> is_digit(#[trigger] body[k]),
            value == digits_value(body.take(i - start)),
        decreases p.len() - i,
    {
        let c = p[i];
        assert(body[i - start] == c);
        if !('0' <= c && c <= '9') {
            assert(!is_digit(body[i - start]));
            assert(!(forall|k: int| 0 <= k < body.len() ==> is_digit(#[trigger] body[k])));
            return None;
        }
        let d: u64 = (c as u32 - 48) as u64;
        assert(body.take(i - start + 1).drop_last() == body.take(i - start));
        assert(body.take(i - start + 1).last() == c);
        assert(digit_value(c) == d);
        match value.checked_mul(10) {
            None => {
                proof {
                    lemma_digits_value_prefix_mono(body, i - start + 1, body.len() as int);
                    assert(body.take(body.len() as int) == body);
                    assert(digits_value(body.take(i - start + 1)) == value * 10 + d);
                    assert(digits_value(body) > u64::MAX);
                }
                return None;
            },
            Some(v10) => match v10.checked_add(d) {
                None => {
                    proof {
                        lemma_digits_value_prefix_mono(body, i - start + 1, body.len() as int);
                        assert(body.take(body.len() as int) == body);
                    }
                    return None;
                },
                Some(v) => {
                    value = v;
                },
            },
        }
        i = i + 1;
    }
    assert(body.take(body.len() as int) == body);
    Some(value)
}

/// Splits `s` at every `sep`, as `str::split` does.
pub fn split_chars(s: &Vec<char>, sep: char) -> (parts: Vec<Vec<char>>)
    ensures
        parts.deep_view() == split_on(s@, sep),
{
    let mut parts: Vec<Vec<char>> = Vec::new();
    let mut cur: Vec<char> = Vec::new();
    for i in 0..s.len()
        invariant
            (parts.deep_view(), cur@) == split_acc(s@.take(i as int), sep),
    {
        assert(s@.take(i + 1).drop_last() == s@.take(i as int));
        assert(s@.take(i + 1).last() == s@[i as int]);
        if s[i] == sep {
            let done = cur;
            let ghost done_view = done@;
            let ghost before = parts.deep_view();
            assert(done.deep_view() =~= done@);
            cur = Vec::new();
            parts.push(done);
            assert(parts.deep_view() =~= before.push(done_view));
        } else {
            cur.push(s[i]);
        }
    }
    assert(s@.take(s.len() as int) == s@);
    let ghost before = parts.deep_view();
    let ghost cur_view = cur@;
    assert(cur.deep_view() =~= cur@);
    parts.push(cur);
    assert(parts.deep_view() =~= before.push(cur_view));
    parts
}

} // verus!
