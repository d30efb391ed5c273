use vstd::prelude::*;

use crate::parse::{digit_value, digits_value, is_digit, parse_u64_spec, split_acc, split_on, unsigned_body};
use crate::serp::duration_string_secs;
use crate::text::{decimal, digit_char, pad2, push_char, push_decimal, push_pad2};

verus! {

/// Nanoseconds in one second.
pub const NANOS_PER_SEC: u32 = 1_000_000_000;

/// A span of time: whole seconds plus a sub-second part in nanoseconds.
///
/// It holds what the library reads of a `std::time::Duration`; `nanos` stays below
/// one second in every value built by the functions of this module.
#[derive(Clone, Copy, Debug, PartialEq, Eq, Structural)]
pub struct TimeSpan {
    pub secs: u64,
    pub nanos: u32,
}

impl TimeSpan {
    /// The sub-second part is below one second.
    pub open spec fn wf(self) -> bool {
        self.nanos < NANOS_PER_SEC
    }

    /// The whole span in nanoseconds.
    pub open spec fn total_nanos(self) -> int {
        self.secs * 1_000_000_000int + self.nanos
    }

    /// The span of `secs` whole seconds.
    pub fn from_secs(secs: u64) -> (d: TimeSpan)
        ensures
            d.wf(),
            d.secs == secs,
            d.nanos == 0,
    {
        TimeSpan { secs, nanos: 0 }
    }

    /// The span of `millis` milliseconds.
    pub fn from_millis(millis: u64) -> (d: TimeSpan)
        ensures
            d.wf(),
            d.secs == millis / 1000,
            d.nanos == (millis % 1000) * 1_000_000,
    {
        TimeSpan { secs: millis / 1000, nanos: ((millis % 1000) as u32) * 1_000_000 }
    }

    /// The span of `secs` seconds plus `nanos` nanoseconds, carrying whole seconds out
    /// of `nanos`.
    pub fn new(secs: u64, nanos: u32) -> (d: TimeSpan)
        requires
            secs + nanos / NANOS_PER_SEC <= u64::MAX,
        ensures
            d.wf(),
            d.total_nanos() == secs * 1_000_000_000int + nanos,
    {
        let extra = (nanos / NANOS_PER_SEC) as u64;
        TimeSpan { secs: secs + extra, nanos: nanos % NANOS_PER_SEC }
    }

    /// The number of whole seconds.
    pub fn as_secs(&self) -> (s: u64)
        ensures
            s == self.secs,
    {
        self.secs
    }

    /// The sum of two spans, or `None` where the seconds overflow.
    pub fn checked_add(&self, other: &TimeSpan) -> (r: Option<TimeSpan>)
        requires
            self.wf(),
            other.wf(),
        ensures
            match r {
                Some(d) => d.wf() && d.total_nanos() == self.total_nanos() + other.total_nanos(),
                None => self.total_nanos() + other.total_nanos() > u64::MAX * 1_000_000_000int
                    + 999_999_999,
            },
    {
        let nanos_sum: u32 = self.nanos + other.nanos;
        let carry: u64 = if nanos_sum >= NANOS_PER_SEC { 1 } else { 0 };
        let nanos: u32 = if nanos_sum >= NANOS_PER_SEC { nanos_sum - NANOS_PER_SEC } else { nanos_sum };
        match self.secs.checked_add(other.secs) {
            None => None,
            Some(s) => match s.checked_add(carry) {
                None => None,
                Some(secs) => Some(TimeSpan { secs, nanos }),
            },
        }
    }

    /// The sum of two spans whose sum has room in a span.
    pub fn plus(&self, other: &TimeSpan) -> (d: TimeSpan)
        requires
            self.wf(),
            other.wf(),
            self.total_nanos() + other.total_nanos() <= u64::MAX * 1_000_000_000int + 999_999_999,
        ensures
            d.wf(),
            d.total_nanos() == self.total_nanos() + other.total_nanos(),
    {
        let nanos_sum: u32 = self.nanos + other.nanos;
        if nanos_sum >= NANOS_PER_SEC {
            TimeSpan { secs: self.secs + other.secs + 1, nanos: nanos_sum - NANOS_PER_SEC }
        } else {
            TimeSpan { secs: self.secs + other.secs, nanos: nanos_sum }
        }
    }

    /// The difference of two spans, or zero where `other` is the longer one.
    pub fn saturating_sub(&self, other: &TimeSpan) -> (d: TimeSpan)
        requires
            self.wf(),
            other.wf(),
        ensures
            d.wf(),
            d.total_nanos() == if self.total_nanos() >= other.total_nanos() {
                self.total_nanos() - other.total_nanos()
            } else {
                0
            },
    {
        if self.secs > other.secs || (self.secs == other.secs && self.nanos >= other.nanos) {
            if self.nanos >= other.nanos {
                TimeSpan { secs: self.secs - other.secs, nanos: self.nanos - other.nanos }
            } else {
                TimeSpan {
                    secs: self.secs - other.secs - 1,
                    nanos: self.nanos + NANOS_PER_SEC - other.nanos,
                }
            }
        } else {
            TimeSpan { secs: 0, nanos: 0 }
        }
    }

    /// Whether this span is strictly longer than `other`.
    pub fn longer_than(&self, other: &TimeSpan) -> (b: bool)
        requires
            self.wf(),
            other.wf(),
        ensures
            b == (self.total_nanos() > other.total_nanos()),
    {
        self.secs > other.secs || (self.secs == other.secs && self.nanos > other.nanos)
    }
}

/// The text of a duration of `total` seconds: `H:MM:SS` from one hour up, `M:SS` below.
pub open spec fn duration_text(total: nat) -> Seq<char> {
    let hours = total / 3600;
    let minutes = (total % 3600) / 60;
    let seconds = total % 60;
    if hours > 0 {
        decimal(hours) + seq![':'] + pad2(minutes) + seq![':'] + pad2(seconds)
    } else {
        decimal(minutes) + seq![':'] + pad2(seconds)
    }
}

/// The decimal text of `n` is a non-empty run of digits without a leading zero (but
/// for `0` itself) that reads back to `n`.
proof fn lemma_decimal_reads_back(n: nat)
    ensures
        decimal(n).len() >= 1,
        forall|i: int| 0 <= i < decimal(n).len() ==> is_digit(#[trigger] decimal(n)[i]),
        digits_value(decimal(n)) == n,
        n > 0 ==> decimal(n)[0] != '0',
    decreases n,
{
    if n >= 10 {
        lemma_decimal_reads_back(n / 10);
        let d = decimal(n);
        assert(d == decimal(n / 10).push(digit_char(n % 10)));
        assert(d.drop_last() =~= decimal(n / 10));
        assert forall|i: int| 0 <= i < d.len() implies is_digit(#[trigger] d[i]) by {
            if i < d.len() - 1 {
                assert(d[i] == decimal(n / 10)[i]);
            }
        }
        assert(d[0] == decimal(n / 10)[0]);
        assert(digit_value(digit_char(n % 10)) == n % 10);
        assert(d.last() == digit_char(n % 10));
        assert(digits_value(d) == digits_value(decimal(n / 10)) * 10 + digit_value(d.last()));
        vstd::arithmetic::div_mod::lemma_fundamental_div_mod(n as int, 10);
    } else {
        assert(digit_value(digit_char(n)) == n);
        assert(seq![digit_char(n)].drop_last() =~= Seq::<char>::empty());
        assert(digits_value(Seq::<char>::empty()) == 0);
        assert(digits_value(decimal(n)) == digits_value(seq![digit_char(n)].drop_last()) * 10
            + digit_value(digit_char(n)));
    }
}

/// The two-digit text of `n < 100` is exactly two digits that read back to `n`.
proof fn lemma_pad2_reads_back(n: nat)
    requires
        n < 100,
    ensures
        pad2(n).len() == 2,
        forall|i: int| 0 <= i < 2 ==> is_digit(#[trigger] pad2(n)[i]),
        digits_value(pad2(n)) == n,
{
    lemma_decimal_reads_back(n);
    if n < 10 {
        let p = pad2(n);
        assert(p =~= seq!['0', digit_char(n)]);
        assert(p.drop_last() =~= seq!['0']);
        assert(seq!['0'].drop_last() =~= Seq::<char>::empty());
        assert(digit_value(digit_char(n)) == n);
        assert(digit_value('0') == 0);
        assert(digits_value(Seq::<char>::empty()) == 0);
        assert(digits_value(seq!['0']) == digits_value(Seq::<char>::empty()) * 10 + digit_value('0'));
        assert(p.last() == digit_char(n));
        assert(digits_value(p) == digits_value(seq!['0']) * 10 + digit_value(digit_char(n)));
    } else {
        lemma_decimal_reads_back(n / 10);
        assert(decimal(n / 10).len() == 1);
    }
}

/// A run of digits that fits in a `u64` parses as the number it reads.
proof fn lemma_digits_parse(p: Seq<char>)
    requires
        p.len() > 0,
        forall|i: int| 0 <= i < p.len() ==> is_digit(#[trigger] p[i]),
        digits_value(p) <= u64::MAX,
    ensures
        parse_u64_spec(p) == Some(digits_value(p) as u64),
{
    assert(is_digit(p[0]));
    assert(unsigned_body(p) == p);
}

/// Appending a piece without `sep` extends the part in progress.
proof fn lemma_split_acc_append(s: Seq<char>, w: Seq<char>, sep: char)
    requires
        forall|i: int| 0 <= i < w.len() ==> #[trigger] w[i] != sep,
    ensures
        split_acc(s + w, sep) == (split_acc(s, sep).0, split_acc(s, sep).1 + w),
    decreases w.len(),
{
    if w.len() == 0 {
        assert(s + w =~= s);
        assert(split_acc(s, sep).1 + w =~= split_acc(s, sep).1);
    } else {
        lemma_split_acc_append(s, w.drop_last(), sep);
        assert((s + w).drop_last() =~= s + w.drop_last());
        assert((s + w).last() == w[w.len() - 1]);
        assert(split_acc(s, sep).1 + w =~= (split_acc(s, sep).1 + w.drop_last()).push(w.last()));
    }
}

/// Appending `sep` closes the part in progress.
proof fn lemma_split_acc_sep(s: Seq<char>, sep: char)
    ensures
        split_acc(s.push(sep), sep) == (split_acc(s, sep).0.push(split_acc(s, sep).1), Seq::<
            char,
        >::empty()),
{
    assert(s.push(sep).drop_last() =~= s);
}

/// Pieces without `sep`, joined by `sep`, split back into those pieces.
proof fn lemma_split_three(a: Seq<char>, b: Seq<char>, c: Seq<char>, sep: char)
    requires
        forall|i: int| 0 <= i < a.len() ==> #[trigger] a[i] != sep,
        forall|i: int| 0 <= i < b.len() ==> #[trigger] b[i] != sep,
        forall|i: int| 0 <= i < c.len() ==> #[trigger] c[i] != sep,
    ensures
        split_on(a + seq![sep] + b + seq![sep] + c, sep) == seq![a, b, c],
        split_on(a + seq![sep] + b, sep) == seq![a, b],
{
    let e = Seq::<char>::empty();
    lemma_split_acc_append(e, a, sep);
    assert(e + a =~= a);
    assert(split_acc(e, sep) == (Seq::<Seq<char>>::empty(), e));
    assert(e + a =~= a);
    lemma_split_acc_sep(a, sep);
    assert(a + seq![sep] =~= a.push(sep));
    lemma_split_acc_append(a.push(sep), b, sep);
    assert(Seq::<Seq<char>>::empty().push(a) =~= seq![a]);
    assert(e + b =~= b);
    let ab = a.push(sep) + b;
    lemma_split_acc_sep(ab, sep);
    assert(a + seq![sep] + b + seq![sep] =~= ab.push(sep));
    lemma_split_acc_append(ab.push(sep), c, sep);
    assert(seq![a].push(b) =~= seq![a, b]);
    assert(seq![a, b].push(c) =~= seq![a, b, c]);
    assert(a + seq![sep] + b =~= ab);
    assert(ab =~= ab + e);
    assert(split_on(a + seq![sep] + b, sep) == seq![a].push(b));
}

/// The text of a duration reads back to the same number of seconds, as video lengths
/// are read. From one hour up it has the form `H:MM:SS` (the hours without a leading
/// zero, then exactly two digits of minutes and two of seconds, each below 60); below
/// one hour it has the form `M:SS`.
pub proof fn lemma_duration_text_reads_back(total: nat)
    requires
        total <= u64::MAX,
    ensures
        duration_string_secs(duration_text(total)) == Some(total as int),
        ({
            let parts = split_on(duration_text(total), ':');
            &&& total >= 3600 ==> parts.len() == 3 && parts[0].len() >= 1 && parts[0][0] != '0'
                && parts[1].len() == 2 && parts[2].len() == 2 && digits_value(parts[1]) < 60
                && digits_value(parts[2]) < 60
            &&& total < 3600 ==> parts.len() == 2 && parts[1].len() == 2 && digits_value(parts[1])
                < 60 && (parts[0].len() == 1 || parts[0][0] != '0')
            &&& forall|i: int, k: int|
                0 <= i < parts.len() && 0 <= k < parts[i].len() ==> is_digit(#[trigger] parts[i][k])
        }),
{
    let hours = total / 3600;
    let minutes = (total % 3600) / 60;
    let seconds = total % 60;
    assert(hours * 3600 + minutes * 60 + seconds == total) by (nonlinear_arith)
        requires
            hours == total / 3600,
            minutes == (total % 3600) / 60,
            seconds == total % 60,
    {
        assert(total == 3600 * (total / 3600) + total % 3600);
        assert(total % 3600 == 60 * ((total % 3600) / 60) + (total % 3600) % 60);
        assert((total % 3600) % 60 == total % 60);
    }
    assert(minutes < 60 && seconds < 60);
    lemma_decimal_reads_back(hours);
    lemma_decimal_reads_back(minutes);
    lemma_pad2_reads_back(minutes);
    lemma_pad2_reads_back(seconds);
    let hd = decimal(hours);
    let md = decimal(minutes);
    let mp = pad2(minutes);
    let sp = pad2(seconds);
    assert forall|i: int| 0 <= i < hd.len() implies #[trigger] hd[i] != ':' by {
        assert(is_digit(hd[i]));
    }
    assert forall|i: int| 0 <= i < md.len() implies #[trigger] md[i] != ':' by {
        assert(is_digit(md[i]));
    }
    assert forall|i: int| 0 <= i < mp.len() implies #[trigger] mp[i] != ':' by {
        assert(is_digit(mp[i]));
    }
    assert forall|i: int| 0 <= i < sp.len() implies #[trigger] sp[i] != ':' by {
        assert(is_digit(sp[i]));
    }
    lemma_split_three(hd, mp, sp, ':');
    lemma_split_three(md, sp, sp, ':');
    assert(digits_value(hd) <= u64::MAX);
    assert(digits_value(md) <= u64::MAX);
    lemma_digits_parse(hd);
    lemma_digits_parse(md);
    lemma_digits_parse(mp);
    lemma_digits_parse(sp);
    if hours > 0 {
        assert(duration_text(total) == hd + seq![':'] + mp + seq![':'] + sp);
        let parts = split_on(duration_text(total), ':');
        assert(parts == seq![hd, mp, sp]);
    } else {
        assert(duration_text(total) == md + seq![':'] + sp);
        let parts = split_on(duration_text(total), ':');
        assert(parts == seq![md, sp]);
        assert(minutes == 0 ==> md.len() == 1);
        assert(total == minutes * 60 + seconds);
    }
}

/// Formats a span as `H:MM:SS` (or `M:SS` below one hour), from its whole seconds.
pub fn format_duration(duration: TimeSpan) -> (s: String)
    ensures
        s@ == duration_text(duration.secs as nat),
{
    let total_seconds = duration.as_secs();
    let hours = total_seconds / 3600;
    let minutes = (total_seconds % 3600) / 60;
    let seconds = total_seconds % 60;
    let mut s = String::new();
    if hours > 0 {
        push_decimal(&mut s, hours);
        push_char(&mut s, ':');
        push_pad2(&mut s, minutes);
        push_char(&mut s, ':');
        push_pad2(&mut s, seconds);
    } else {
        push_decimal(&mut s, minutes);
        push_char(&mut s, ':');
        push_pad2(&mut s, seconds);
    }
    s
}

} // verus!
