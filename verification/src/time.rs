//! Durations in the text form the .NET `TimeSpan` uses: `D.HH:MM:SS.FFFFFFF`.
use vstd::prelude::*;
use vstd::string::*;

verus! {

/// Nanoseconds in a second.
pub const NANOS_PER_SEC: u128 = 1_000_000_000;

/// The character of decimal digit `d`.
pub open spec fn digit_char(d: nat) -> char {
    (48 + d) as char
}

/// Decimal digits of `n`, most significant first, without leading zeros.
pub open spec fn decimal(n: nat) -> Seq<char>
    decreases n,
{
    if n < 10 {
        seq![digit_char(n)]
    } else {
        decimal(n / 10).push(digit_char(n % 10))
    }
}

/// `digits`, filled with `'0'` on the left up to `width` characters.
pub open spec fn pad_zero(digits: Seq<char>, width: nat) -> Seq<char> {
    if digits.len() >= width {
        digits
    } else {
        Seq::new((width - digits.len()) as nat, |i: int| '0') + digits
    }
}

/// Whole days of a duration of `nanos` nanoseconds.
pub open spec fn days_of(nanos: nat) -> nat {
    nanos / 1_000_000_000 / 86400
}

/// Hours past the whole days.
pub open spec fn hours_of(nanos: nat) -> nat {
    nanos / 1_000_000_000 / 3600 % 24
}

/// Minutes past the whole hours.
pub open spec fn minutes_of(nanos: nat) -> nat {
    nanos / 1_000_000_000 / 60 % 60
}

/// Seconds past the whole minutes.
pub open spec fn seconds_of(nanos: nat) -> nat {
    nanos / 1_000_000_000 % 60
}

/// Ticks of 100 nanoseconds past the whole seconds.
pub open spec fn ticks_of(nanos: nat) -> nat {
    nanos / 100 % 10_000_000
}

/// The text of a duration of `nanos` nanoseconds: days, then hours, minutes
/// and seconds on two digits, then ticks on seven digits.
pub open spec fn timespan_text(nanos: nat) -> Seq<char> {
    decimal(days_of(nanos)) + seq!['.'] + pad_zero(decimal(hours_of(nanos)), 2) + seq![':']
        + pad_zero(decimal(minutes_of(nanos)), 2) + seq![':'] + pad_zero(
        decimal(seconds_of(nanos)),
        2,
    ) + seq!['.'] + pad_zero(decimal(ticks_of(nanos)), 7)
}

/// Provides dotnet duration aware formatting rules.
#[derive(Clone, Copy, Debug, PartialEq, Eq)]
pub struct Duration {
    nanos: u128,
}

impl View for Duration {
    type V = nat;

    closed spec fn view(&self) -> nat {
        self.nanos as nat
    }
}

/// The one-character text of decimal digit `d`.
fn digit_text(d: u128) -> (r: &'static str)
    requires
        d < 10,
    ensures
        r@ == seq![digit_char(d as nat)],
{
    proof {
        reveal_strlit("0");
        reveal_strlit("1");
        reveal_strlit("2");
        reveal_strlit("3");
        reveal_strlit("4");
        reveal_strlit("5");
        reveal_strlit("6");
        reveal_strlit("7");
        reveal_strlit("8");
        reveal_strlit("9");
    }
    match d {
        0 => "0",
        1 => "1",
        2 => "2",
        3 => "3",
        4 => "4",
        5 => "5",
        6 => "6",
        7 => "7",
        8 => "8",
        _ => "9",
    }
}

/// Appends the decimal digits of `n`.
fn push_decimal(out: &mut String, n: u128)
    ensures
        final(out)@ == old(out)@ + decimal(n as nat),
    decreases n,
{
    if n < 10 {
        out.append(digit_text(n));
        proof {
            assert(old(out)@ + seq![digit_char(n as nat)] =~= old(out)@ + decimal(n as nat));
        }
    } else {
        push_decimal(out, n / 10);
        out.append(digit_text(n % 10));
        proof {
            assert(old(out)@ + decimal((n / 10) as nat) + seq![digit_char((n % 10) as nat)]
                =~= old(out)@ + decimal(n as nat));
        }
    }
}

/// Appends the decimal digits of `n`, filled with `'0'` on the left up to `width`.
fn push_padded(out: &mut String, n: u128, width: usize)
    ensures
        final(out)@ == old(out)@ + pad_zero(decimal(n as nat), width as nat),
{
    let mut digits = String::new();
    push_decimal(&mut digits, n);
    proof {
        assert(digits@ =~= decimal(n as nat));
    }
    let len = digits.as_str().unicode_len();
    let ghost start = out@;
    if len < width {
        let mut k: usize = 0;
        while k < width - len
            invariant
                k <= width - len,
                len < width,
                out@ =~= start + Seq::new(k as nat, |i: int| '0'),
            decreases width - len - k,
        {
            proof {
                reveal_strlit("0");
            }
            out.append("0");
            k += 1;
        }
    }
    out.append(digits.as_str());
}

impl Duration {
    /// A duration of `nanos` nanoseconds.
    pub fn from_nanos(nanos: u128) -> (r: Self)
        ensures
            r@ == nanos,
    {
        Duration { nanos }
    }

    /// The duration `secs` seconds plus `subsec_nanos` nanoseconds, the
    /// parts `std::time::Duration` keeps.
    pub fn from_secs_nanos(secs: u64, subsec_nanos: u32) -> (r: Self)
        ensures
            r@ == secs * NANOS_PER_SEC + subsec_nanos,
    {
        Duration { nanos: secs as u128 * NANOS_PER_SEC + subsec_nanos as u128 }
    }

    /// Total nanoseconds of the duration.
    pub fn as_nanos(&self) -> (r: u128)
        ensures
            r == self@,
    {
        self.nanos
    }

    /// The duration in the .NET `TimeSpan` text form.
    pub fn to_string(&self) -> (r: String)
        ensures
            r@ == timespan_text(self@),
    {
        let nanos = self.nanos;
        let ticks = nanos / 100 % 10_000_000;
        let total_seconds = nanos / NANOS_PER_SEC;
        let seconds = total_seconds % 60;
        let minutes = total_seconds / 60 % 60;
        let hours = total_seconds / 3600 % 24;
        let days = total_seconds / 86400;
        proof {
            assert(total_seconds / 60 == nanos as nat / 1_000_000_000 / 60);
        }
        proof {
            reveal_strlit(".");
            reveal_strlit(":");
        }
        let mut out = String::new();
        push_decimal(&mut out, days);
        out.append(".");
        push_padded(&mut out, hours, 2);
        out.append(":");
        push_padded(&mut out, minutes, 2);
        out.append(":");
        push_padded(&mut out, seconds, 2);
        out.append(".");
        push_padded(&mut out, ticks, 7);
        proof {
            assert(out@ =~= timespan_text(self@));
        }
        out
    }
}

/// Value of a sequence of decimal digit characters, most significant first.
pub open spec fn digits_value(s: Seq<char>) -> nat
    decreases s.len(),
{
    if s.len() == 0 {
        0
    } else {
        digits_value(s.drop_last()) * 10 + ((s.last() as int - 48) as nat)
    }
}

/// Law: the decimal text of a number reads back as that number.
pub proof fn lemma_decimal_reads_back(n: nat)
    ensures
        digits_value(decimal(n)) == n,
    decreases n,
{
    if n >= 10 {
        lemma_decimal_reads_back(n / 10);
        assert(decimal(n).drop_last() =~= decimal(n / 10));
        assert(digit_char(n % 10) as int == 48 + n % 10);
        assert(decimal(n).last() == digit_char(n % 10));
        assert(decimal(n).len() != 0);
        assert(digits_value(decimal(n)) == digits_value(decimal(n / 10)) * 10 + n % 10);
        assert(n == (n / 10) * 10 + n % 10);
    } else {
        assert(decimal(n).drop_last() =~= Seq::<char>::empty());
        assert(digit_char(n) as int == 48 + n);
        assert(digits_value(decimal(n).drop_last()) == 0);
        assert(decimal(n).last() == digit_char(n));
    }
}

/// Law: the parts shown in the text make up the duration: days, hours,
/// minutes and seconds add up to its whole seconds, each part below its unit,
/// and the ticks are the hundreds of nanoseconds past the whole second.
pub proof fn lemma_timespan_parts(nanos: nat)
    ensures
        days_of(nanos) * 86400 + hours_of(nanos) * 3600 + minutes_of(nanos) * 60 + seconds_of(
            nanos,
        ) == nanos / 1_000_000_000,
        hours_of(nanos) < 24,
        minutes_of(nanos) < 60,
        seconds_of(nanos) < 60,
        ticks_of(nanos) == nanos % 1_000_000_000 / 100,
{
    let t = nanos / 1_000_000_000;
    assert(t / 3600 == (t / 60) / 60) by (nonlinear_arith);
    assert(t / 86400 == (t / 3600) / 24) by (nonlinear_arith);
    assert(t == (t / 60) * 60 + t % 60) by (nonlinear_arith);
    assert(t / 60 == (t / 3600) * 60 + (t / 60) % 60) by (nonlinear_arith)
        requires
            t / 3600 == (t / 60) / 60,
    ;
    assert(t / 3600 == (t / 86400) * 24 + (t / 3600) % 24) by (nonlinear_arith)
        requires
            t / 86400 == (t / 3600) / 24,
    ;
    assert(nanos / 100 % 10_000_000 == nanos % 1_000_000_000 / 100) by (nonlinear_arith);
}

/// Whether every character of `s` is a decimal digit.
pub open spec fn all_digits(s: Seq<char>) -> bool {
    forall|i: int| 0 <= i < s.len() ==> '0' <= #[trigger] s[i] && s[i] <= '9'
}

proof fn lemma_decimal_shape(n: nat, width: nat, bound: nat)
    requires
        width >= 1,
        n < bound,
        bound <= pow10(width),
    ensures
        all_digits(decimal(n)),
        1 <= decimal(n).len() <= width,
    decreases n,
{
    if n >= 10 {
        assert(pow10(width) == 10 * pow10((width - 1) as nat));
        assert(width >= 2) by {
            if width == 1 {
                assert(pow10(0) == 1);
            }
        }
        lemma_decimal_shape(n / 10, (width - 1) as nat, pow10((width - 1) as nat));
        assert(digit_char(n % 10) as int == 48 + n % 10);
    } else {
        assert(digit_char(n) as int == 48 + n);
    }
}

/// Ten to the power `k`.
pub open spec fn pow10(k: nat) -> nat
    decreases k,
{
    if k == 0 {
        1
    } else {
        10 * pow10((k - 1) as nat)
    }
}

proof fn lemma_zeros_value(zeros: Seq<char>, s: Seq<char>)
    requires
        forall|i: int| 0 <= i < zeros.len() ==> #[trigger] zeros[i] == '0',
    ensures
        digits_value(zeros + s) == digits_value(s),
    decreases zeros.len() + s.len(),
{
    if s.len() > 0 {
        lemma_zeros_value(zeros, s.drop_last());
        assert((zeros + s).drop_last() =~= zeros + s.drop_last());
        assert((zeros + s).last() == s.last());
    } else {
        assert(zeros + s =~= zeros);
        if zeros.len() > 0 {
            lemma_zeros_value(zeros.drop_last(), s);
            assert(zeros.drop_last() + s =~= zeros.drop_last());
        }
    }
}

/// The digits of `n` filled to `width`: `width` digits that read back as `n`.
proof fn lemma_padded(n: nat, width: nat)
    requires
        width >= 1,
        n < pow10(width),
    ensures
        pad_zero(decimal(n), width).len() == width,
        all_digits(pad_zero(decimal(n), width)),
        digits_value(pad_zero(decimal(n), width)) == n,
{
    lemma_decimal_shape(n, width, pow10(width));
    lemma_decimal_reads_back(n);
    let d = decimal(n);
    if d.len() < width {
        let zeros = Seq::new((width - d.len()) as nat, |i: int| '0');
        lemma_zeros_value(zeros, d);
    }
}

/// Law: the duration text reads back as the duration. Counting from its
/// end it holds seven digits of ticks after a `.`, two digits of seconds
/// after a `:`, two of minutes after a `:`, two of hours after a `.`, and
/// the days before that; each part lies below its unit, and together they
/// make the duration in ticks of 100 nanoseconds.
pub proof fn lemma_timespan_reads_back(nanos: nat)
    ensures
        ({
            let t = timespan_text(nanos);
            let n = t.len() as int;
            let days = t.subrange(0, n - 17);
            let hours = t.subrange(n - 16, n - 14);
            let minutes = t.subrange(n - 13, n - 11);
            let seconds = t.subrange(n - 10, n - 8);
            let ticks = t.subrange(n - 7, n);
            &&& n >= 18
            &&& t[n - 17] == '.' && t[n - 14] == ':' && t[n - 11] == ':' && t[n - 8] == '.'
            &&& all_digits(days) && all_digits(hours) && all_digits(minutes) && all_digits(seconds)
                && all_digits(ticks)
            &&& digits_value(hours) < 24 && digits_value(minutes) < 60 && digits_value(seconds)
                < 60
            &&& (((digits_value(days) * 24 + digits_value(hours)) * 60 + digits_value(minutes))
                * 60 + digits_value(seconds)) * 10_000_000 + digits_value(ticks) == nanos / 100
        }),
{
    let t = timespan_text(nanos);
    let dd = decimal(days_of(nanos));
    let hh = pad_zero(decimal(hours_of(nanos)), 2);
    let mm = pad_zero(decimal(minutes_of(nanos)), 2);
    let ss = pad_zero(decimal(seconds_of(nanos)), 2);
    let tt = pad_zero(decimal(ticks_of(nanos)), 7);
    lemma_timespan_parts(nanos);
    reveal_with_fuel(pow10, 8);
    lemma_padded(hours_of(nanos), 2);
    lemma_padded(minutes_of(nanos), 2);
    lemma_padded(seconds_of(nanos), 2);
    assert(ticks_of(nanos) < 10_000_000) by (nonlinear_arith)
        requires
            ticks_of(nanos) == nanos / 100 % 10_000_000,
    ;
    lemma_padded(ticks_of(nanos), 7);
    lemma_pow10_grows(days_of(nanos) + 1);
    lemma_decimal_shape(days_of(nanos), days_of(nanos) + 1, days_of(nanos) + 1);
    lemma_decimal_reads_back(days_of(nanos));
    let k = dd.len() as int;
    assert(t =~= dd + seq!['.'] + hh + seq![':'] + mm + seq![':'] + ss + seq!['.'] + tt);
    let n = t.len() as int;
    assert(n == k + 17);
    assert(t.subrange(0, n - 17) =~= dd);
    assert(t.subrange(n - 16, n - 14) =~= hh);
    assert(t.subrange(n - 13, n - 11) =~= mm);
    assert(t.subrange(n - 10, n - 8) =~= ss);
    assert(t.subrange(n - 7, n) =~= tt);
    let d = days_of(nanos);
    let h = hours_of(nanos);
    let m = minutes_of(nanos);
    let sec = seconds_of(nanos);
    let tk = ticks_of(nanos);
    assert((((d * 24 + h) * 60 + m) * 60 + sec) * 10_000_000 + tk == nanos / 100) by (
    nonlinear_arith)
        requires
            d * 86400 + h * 3600 + m * 60 + sec == nanos / 1_000_000_000,
            tk == nanos % 1_000_000_000 / 100,
    ;
}

proof fn lemma_pow10_grows(k: nat)
    ensures
        k < pow10(k),
    decreases k,
{
    if k > 0 {
        lemma_pow10_grows((k - 1) as nat);
    }
}

} // verus!
