//! Text building blocks: comparison, numerals, durations and truncation.
use vstd::prelude::*;
use vstd::string::*;

verus! {

/// The digit characters, in order of their value.
pub open spec fn digits() -> Seq<char> {
    "0123456789abcdef"@
}

/// The numeral of `n` in `base`, without leading zeros.
pub open spec fn numeral(n: nat, base: nat) -> Seq<char>
    recommends
        2 <= base <= 16,
    decreases n,
{
    if n < base || base < 2 {
        seq![digits()[n as int]]
    } else {
        proof {
            vstd::arithmetic::div_mod::lemma_div_decreases(n as int, base as int);
        }
        numeral(n / base, base).push(digits()[(n % base) as int])
    }
}

/// Whether two texts hold the same characters.
pub fn same_text(a: &str, b: &str) -> (same: bool)
    ensures
        same == (a@ == b@),
{
    a.to_string() == b.to_string()
}

/// The two texts one after the other.
pub fn joined(a: &str, b: &str) -> (r: String)
    ensures
        r@ == a@ + b@,
{
    let mut r = a.to_string();
    r.append(b);
    r
}

/// Writes `n` as a numeral in `base`.
pub fn numeral_text(n: u64, base: u64) -> (r: String)
    requires
        2 <= base <= 16,
    ensures
        r@ == numeral(n as nat, base as nat),
    decreases n,
{
    proof {
        reveal_strlit("0123456789abcdef");
    }
    let mut r = if n < base {
        String::new()
    } else {
        proof {
            vstd::arithmetic::div_mod::lemma_div_decreases(n as int, base as int);
        }
        numeral_text(n / base, base)
    };
    let d: usize = (n % base) as usize;
    r.append("0123456789abcdef".substring_char(d, d + 1));
    proof {
        if n < base {
            vstd::arithmetic::div_mod::lemma_small_mod(n as nat, base as nat);
        }
    }
    assert(r@ =~= numeral(n as nat, base as nat));
    r
}

/// The whole seconds in `us` microseconds, none where `us` is negative.
pub open spec fn whole_seconds(us: int) -> nat {
    if us < 0 {
        0
    } else {
        (us / 1_000_000) as nat
    }
}

/// `n` in two decimal digits.
pub open spec fn two_digits(n: nat) -> Seq<char> {
    seq![digits()[(n / 10) as int], digits()[(n % 10) as int]]
}

/// Minutes and seconds as a player shows them: `3:07`.
pub open spec fn clock(seconds: nat) -> Seq<char> {
    numeral(seconds / 60, 10).push(':') + two_digits(seconds % 60)
}

/// `s` where it fits into `max` characters or `max` is 0; otherwise its first
/// `max - 1` characters and an ellipsis.
pub open spec fn truncated(s: Seq<char>, max: nat) -> Seq<char> {
    if max == 0 || s.len() <= max {
        s
    } else {
        s.take(max - 1).push('…')
    }
}

/// Formats a position or length in microseconds as minutes and seconds.
pub fn fmt_duration(us: i64) -> (r: String)
    ensures
        r@ == clock(whole_seconds(us as int)),
{
    let secs: u64 = if us < 0 { 0 } else { us as u64 / 1_000_000 };
    let mut r = numeral_text(secs / 60, 10);
    r.append(":");
    let rest: u64 = secs % 60;
    if rest < 10 {
        r.append("0");
    }
    r.append(numeral_text(rest, 10).as_str());
    proof {
        reveal_strlit(":");
        reveal_strlit("0");
        reveal_strlit("0123456789abcdef");
        lemma_numeral_below_hundred(rest as nat);
    }
    assert(r@ =~= clock(whole_seconds(us as int)));
    r
}

/// Cuts `s` to at most `max` characters, marking the cut with an ellipsis; 0 is no
/// limit.
pub fn truncate(s: &str, max: usize) -> (r: String)
    ensures
        r@ == truncated(s@, max as nat),
{
    if max == 0 || s.unicode_len() <= max {
        return s.to_string();
    }
    let mut r = s.substring_char(0, max - 1).to_string();
    r.append("…");
    proof {
        reveal_strlit("…");
    }
    assert(r@ =~= truncated(s@, max as nat));
    r
}

/// A numeral below 100 is one digit below 10, and the two digits otherwise.
proof fn lemma_numeral_below_hundred(n: nat)
    requires
        n < 100,
    ensures
        n < 10 ==> numeral(n, 10) == seq![digits()[n as int]],
        n >= 10 ==> numeral(n, 10) == two_digits(n),
{
    reveal_with_fuel(numeral, 2);
    if n >= 10 {
        assert(numeral(n, 10) =~= two_digits(n));
    }
}

/// No digit stands for two values.
proof fn lemma_digit_injective(a: int, b: int)
    requires
        0 <= a < 16,
        0 <= b < 16,
        digits()[a] == digits()[b],
    ensures
        a == b,
{
    reveal_strlit("0123456789abcdef");
}

/// Different numbers have different numerals: a numeral is read back in one way.
pub proof fn law_numeral_injective(a: nat, b: nat, base: nat)
    requires
        2 <= base <= 16,
        numeral(a, base) == numeral(b, base),
    ensures
        a == b,
    decreases a,
{
    let sa = numeral(a, base);
    let sb = numeral(b, base);
    lemma_numeral_nonempty(a, base);
    lemma_numeral_nonempty(b, base);
    if a >= base {
        vstd::arithmetic::div_mod::lemma_div_decreases(a as int, base as int);
    }
    lemma_numeral_last(a, base);
    lemma_numeral_last(b, base);
    vstd::arithmetic::div_mod::lemma_mod_bound(a as int, base as int);
    vstd::arithmetic::div_mod::lemma_mod_bound(b as int, base as int);
    lemma_digit_injective((a % base) as int, (b % base) as int);
    if a < base {
        lemma_numeral_one_digit(b, base);
        vstd::arithmetic::div_mod::lemma_small_mod(a, base);
        vstd::arithmetic::div_mod::lemma_small_mod(b, base);
    } else {
        lemma_numeral_one_digit(a, base);
        assert(b >= base) by {
            if b < base {
                assert(sa.len() == 1);
            }
        }
        assert(sa.drop_last() =~= numeral(a / base, base));
        assert(sb.drop_last() =~= numeral(b / base, base));
        law_numeral_injective(a / base, b / base, base);
        vstd::arithmetic::div_mod::lemma_fundamental_div_mod(a as int, base as int);
        vstd::arithmetic::div_mod::lemma_fundamental_div_mod(b as int, base as int);
    }
}

/// A numeral has at least one digit.
proof fn lemma_numeral_nonempty(n: nat, base: nat)
    requires
        2 <= base <= 16,
    ensures
        numeral(n, base).len() >= 1,
{
}

/// The last digit of a numeral is the remainder by the base.
proof fn lemma_numeral_last(n: nat, base: nat)
    requires
        2 <= base <= 16,
    ensures
        numeral(n, base).last() == digits()[(n % base) as int],
{
    if n < base {
        vstd::arithmetic::div_mod::lemma_small_mod(n, base);
    }
}

/// Only numbers below the base have a numeral of one digit.
proof fn lemma_numeral_one_digit(n: nat, base: nat)
    requires
        2 <= base <= 16,
    ensures
        numeral(n, base).len() == 1 <==> n < base,
{
    if n >= base {
        lemma_numeral_nonempty(n / base, base);
    }
}

/// Two durations are shown alike exactly when they hold the same whole seconds.
pub proof fn law_clock_tells_seconds_apart(a: int, b: int)
    ensures
        clock(whole_seconds(a)) == clock(whole_seconds(b)) <==> whole_seconds(a) == whole_seconds(
            b,
        ),
{
    let x = whole_seconds(a);
    let y = whole_seconds(b);
    if clock(x) == clock(y) {
        let n = clock(x).len();
        assert(clock(x)[n - 1] == clock(y)[n - 1]);
        assert(clock(x)[n - 2] == clock(y)[n - 2]);
        lemma_digit_injective((x % 60 % 10) as int, (y % 60 % 10) as int);
        lemma_digit_injective((x % 60 / 10) as int, (y % 60 / 10) as int);
        assert(clock(x).take(n - 3) =~= numeral(x / 60, 10));
        assert(clock(y).take(n - 3) =~= numeral(y / 60, 10));
        law_numeral_injective(x / 60, y / 60, 10);
    }
}

/// With a limit, a truncated text is never longer than the limit.
pub proof fn law_truncated_fits(s: Seq<char>, max: nat)
    requires
        max > 0,
    ensures
        truncated(s, max).len() <= max,
{
}

/// A text that fits, and any text without a limit, is shown whole; a cut text shows
/// the longest beginning that leaves room for the ellipsis, and ends in it.
pub proof fn law_truncated_keeps_beginning(s: Seq<char>, max: nat)
    ensures
        max == 0 || s.len() <= max ==> truncated(s, max) == s,
        0 < max < s.len() ==> truncated(s, max).len() == max && truncated(s, max).last() == '…'
            && truncated(s, max).drop_last() == s.take(max - 1),
{
    if 0 < max < s.len() {
        assert(truncated(s, max).drop_last() =~= s.take(max - 1));
    }
}

/// Truncating to one limit and then to a limit that is no larger is truncating to the
/// smaller one at once.
pub proof fn law_truncated_to_smaller_limit(s: Seq<char>, a: nat, b: nat)
    requires
        0 < b <= a,
    ensures
        truncated(truncated(s, a), b) == truncated(s, b),
{
    if s.len() > a {
        let once = truncated(s, a);
        if b < a {
            assert(once.take(b - 1) =~= s.take(b - 1));
        }
    }
}

/// Truncating a second time to the same limit changes nothing.
pub proof fn law_truncated_idempotent(s: Seq<char>, max: nat)
    ensures
        truncated(truncated(s, max), max) == truncated(s, max),
{
}

/// The value that a digit stands for.
pub open spec fn digit_value(c: char) -> int {
    if '0' as int <= c as int <= '9' as int {
        c as int - '0' as int
    } else if 'a' as int <= c as int <= 'f' as int {
        c as int - 'a' as int + 10
    } else {
        -1
    }
}

/// The number that a text of digits stands for.
pub open spec fn read_back(s: Seq<char>, base: nat) -> int
    decreases s.len(),
{
    if s.len() == 0 {
        0
    } else {
        read_back(s.drop_last(), base) * base + digit_value(s.last())
    }
}

/// Each digit character stands for its place among the digits.
proof fn lemma_digit_value(k: int)
    requires
        0 <= k < 16,
    ensures
        digit_value(digits()[k]) == k,
{
    reveal_strlit("0123456789abcdef");
    assert(k == 0 || k == 1 || k == 2 || k == 3 || k == 4 || k == 5 || k == 6 || k == 7 || k == 8
        || k == 9 || k == 10 || k == 11 || k == 12 || k == 13 || k == 14 || k == 15);
}

/// Reading a numeral gives back the number it was written for. All of it is digits of
/// the base, and no zero leads it but that of the number 0.
pub proof fn law_numeral_reads_back(n: nat, base: nat)
    requires
        2 <= base <= 16,
    ensures
        read_back(numeral(n, base), base) == n,
        numeral(n, base).len() >= 1,
        forall|i: int|
            0 <= i < numeral(n, base).len() ==> 0 <= digit_value(#[trigger] numeral(n, base)[i])
                < base,
        numeral(n, base)[0] == '0' ==> n == 0 && numeral(n, base).len() == 1,
    decreases n,
{
    reveal_with_fuel(read_back, 2);
    let s = numeral(n, base);
    if n < base {
        lemma_digit_value(n as int);
        assert(s.drop_last() =~= Seq::<char>::empty());
    } else {
        vstd::arithmetic::div_mod::lemma_div_decreases(n as int, base as int);
        vstd::arithmetic::div_mod::lemma_mod_bound(n as int, base as int);
        vstd::arithmetic::div_mod::lemma_fundamental_div_mod(n as int, base as int);
        vstd::arithmetic::mul::lemma_mul_is_commutative(base as int, (n / base) as int);
        vstd::arithmetic::div_mod::lemma_div_non_zero(n as int, base as int);
        law_numeral_reads_back(n / base, base);
        lemma_digit_value((n % base) as int);
        let rest = numeral(n / base, base);
        assert(s.drop_last() =~= rest);
        assert(s[0] == rest[0]);
        assert forall|i: int| 0 <= i < s.len() implies 0 <= digit_value(#[trigger] s[i])
            < base by {
            if i < rest.len() {
                assert(s[i] == rest[i]);
            }
        }
    }
}

/// Reading a duration as it is shown gives back its whole seconds: minutes without a
/// leading zero, a colon, and seconds below 60 in two digits. A negative duration reads
/// as none.
pub proof fn law_clock_reads_back(us: int)
    ensures
        ({
            let s = clock(whole_seconds(us));
            let k = s.len() as int;
            let minutes = s.take(k - 3);
            let tens = digit_value(s[k - 2]);
            let ones = digit_value(s[k - 1]);
            let total = read_back(minutes, 10) * 60 + tens * 10 + ones;
            &&& k >= 4
            &&& s[k - 3] == ':'
            &&& 0 <= tens < 6
            &&& 0 <= ones < 10
            &&& forall|i: int|
                0 <= i < minutes.len() ==> 0 <= digit_value(#[trigger] minutes[i]) < 10
            &&& minutes[0] == '0' ==> k == 4
            &&& us >= 0 ==> total * 1_000_000 <= us < (total + 1) * 1_000_000
            &&& us < 0 ==> total == 0
        }),
{
    let secs = whole_seconds(us);
    let s = clock(secs);
    law_numeral_reads_back(secs / 60, 10);
    assert(s.take(s.len() - 3) =~= numeral(secs / 60, 10));
    lemma_digit_value((secs % 60 / 10) as int);
    lemma_digit_value((secs % 60 % 10) as int);
}

/// A truncated text is the text itself where it fits or there is no limit; otherwise it
/// has as many characters as the limit allows, the last an ellipsis and the others the
/// beginning of the text.
pub proof fn law_truncate_keeps_beginning(s: &str, max: usize, r: String)
    requires
        call_ensures(truncate, (s, max), r),
    ensures
        max == 0 || s@.len() <= max ==> r@ == s@,
        0 < max < s@.len() ==> r@.len() == max && r@[max - 1] == '…',
        0 < max < s@.len() ==> forall|i: int| 0 <= i < max - 1 ==> #[trigger] r@[i] == s@[i],
{
}

/// A duration that is written reads back as its whole seconds.
pub proof fn law_written_duration_reads_back(us: i64, r: String)
    requires
        call_ensures(fmt_duration, (us,), r),
    ensures
        ({
            let k = r@.len() as int;
            let total = read_back(r@.take(k - 3), 10) * 60 + digit_value(r@[k - 2]) * 10
                + digit_value(r@[k - 1]);
            &&& k >= 4
            &&& r@[k - 3] == ':'
            &&& us >= 0 ==> total == us as int / 1_000_000
            &&& us < 0 ==> total == 0
        }),
{
    law_clock_reads_back(us as int);
}

} // verus!
