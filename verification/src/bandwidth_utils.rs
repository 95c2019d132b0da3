//! Traffic counters, the rate derived from them, and how a rate is shown.

use vstd::prelude::*;
use vstd::string::StringExecFns;
use crate::text::{dec_text, digit_char, digit_of, digits, push_dec, push_digits};

verus! {

/// The sizes by which rates and counters are scaled: powers of 1024.
pub const SIZE_KB: i64 = 1024;

pub const SIZE_MB: i64 = 1024 * 1024;

pub const SIZE_GB: i64 = 1024 * 1024 * 1024;

pub const SIZE_TB: i64 = 1024 * 1024 * 1024 * 1024;

/// Whether a status record's traffic figures are rates already, or running
/// totals that a `BandwidthCounter` has to difference.
#[derive(Copy, Clone, PartialEq, Eq, Structural, Debug)]
pub enum TrafficMode {
    Absolute,
    Cumulative,
}

/// Download and upload figures, in bits or bits per second.
#[derive(Copy, Clone, PartialEq, Eq, Structural, Debug)]
pub struct TrafficStatistics {
    pub dl: i64,
    pub ul: i64,
}

/// The Fibonacci numbers: 0, 1, 1, 2, 3, 5, ...
pub open spec fn fib(n: nat) -> nat
    decreases n,
{
    if n == 0 {
        0
    } else if n == 1 {
        1
    } else {
        fib((n - 1) as nat) + fib((n - 2) as nat)
    }
}

/// The index of the largest Fibonacci number that an `i64` holds.
pub const FIB_LAST: u64 = 92;

/// The largest Fibonacci number that an `i64` holds: `fib(92)`.
pub const FIB_LARGEST: i64 = 7540113804746346429;

/// Whether `k` is a Fibonacci number.
pub open spec fn is_fib(k: int) -> bool {
    exists|n: nat| fib(n) == k
}

/// The first of `fib(n)`, `fib(n + 1)`, ... that is above `x`, and
/// `fib(FIB_LAST)` where none up to there is.
pub open spec fn fib_above(x: int, n: nat) -> nat
    decreases FIB_LAST - n,
{
    if n >= FIB_LAST || x < fib(n) {
        fib(n)
    } else {
        fib_above(x, n + 1)
    }
}

/// The Fibonacci numbers never fall.
pub proof fn lemma_fib_monotonic(i: nat, j: nat)
    requires
        i <= j,
    ensures
        fib(i) <= fib(j),
    decreases j,
{
    if i < j {
        if j >= 2 {
            lemma_fib_monotonic(i, (j - 1) as nat);
        }
    }
}

proof fn lemma_fib_30()
    ensures
        fib(29) == 514229,
        fib(30) == 832040,
{
    assert(fib(0) == 0);
    assert(fib(1) == 1);
    assert(fib(2) == 1);
    assert(fib(3) == 2);
    assert(fib(4) == 3);
    assert(fib(5) == 5);
    assert(fib(6) == 8);
    assert(fib(7) == 13);
    assert(fib(8) == 21);
    assert(fib(9) == 34);
    assert(fib(10) == 55);
    assert(fib(11) == 89);
    assert(fib(12) == 144);
    assert(fib(13) == 233);
    assert(fib(14) == 377);
    assert(fib(15) == 610);
    assert(fib(16) == 987);
    assert(fib(17) == 1597);
    assert(fib(18) == 2584);
    assert(fib(19) == 4181);
    assert(fib(20) == 6765);
    assert(fib(21) == 10946);
    assert(fib(22) == 17711);
    assert(fib(23) == 28657);
    assert(fib(24) == 46368);
    assert(fib(25) == 75025);
    assert(fib(26) == 121393);
    assert(fib(27) == 196418);
    assert(fib(28) == 317811);
    assert(fib(29) == 514229);
    assert(fib(30) == 832040);
}

proof fn lemma_fib_60()
    ensures
        fib(59) == 956722026041,
        fib(60) == 1548008755920,
{
    lemma_fib_30();
    assert(fib(31) == 1346269);
    assert(fib(32) == 2178309);
    assert(fib(33) == 3524578);
    assert(fib(34) == 5702887);
    assert(fib(35) == 9227465);
    assert(fib(36) == 14930352);
    assert(fib(37) == 24157817);
    assert(fib(38) == 39088169);
    assert(fib(39) == 63245986);
    assert(fib(40) == 102334155);
    assert(fib(41) == 165580141);
    assert(fib(42) == 267914296);
    assert(fib(43) == 433494437);
    assert(fib(44) == 701408733);
    assert(fib(45) == 1134903170);
    assert(fib(46) == 1836311903);
    assert(fib(47) == 2971215073);
    assert(fib(48) == 4807526976);
    assert(fib(49) == 7778742049);
    assert(fib(50) == 12586269025);
    assert(fib(51) == 20365011074);
    assert(fib(52) == 32951280099);
    assert(fib(53) == 53316291173);
    assert(fib(54) == 86267571272);
    assert(fib(55) == 139583862445);
    assert(fib(56) == 225851433717);
    assert(fib(57) == 365435296162);
    assert(fib(58) == 591286729879);
    assert(fib(59) == 956722026041);
    assert(fib(60) == 1548008755920);
}

proof fn lemma_fib_largest()
    ensures
        fib(FIB_LAST as nat) == FIB_LARGEST,
{
    lemma_fib_60();
    assert(fib(61) == 2504730781961);
    assert(fib(62) == 4052739537881);
    assert(fib(63) == 6557470319842);
    assert(fib(64) == 10610209857723);
    assert(fib(65) == 17167680177565);
    assert(fib(66) == 27777890035288);
    assert(fib(67) == 44945570212853);
    assert(fib(68) == 72723460248141);
    assert(fib(69) == 117669030460994);
    assert(fib(70) == 190392490709135);
    assert(fib(71) == 308061521170129);
    assert(fib(72) == 498454011879264);
    assert(fib(73) == 806515533049393);
    assert(fib(74) == 1304969544928657);
    assert(fib(75) == 2111485077978050);
    assert(fib(76) == 3416454622906707);
    assert(fib(77) == 5527939700884757);
    assert(fib(78) == 8944394323791464);
    assert(fib(79) == 14472334024676221);
    assert(fib(80) == 23416728348467685);
    assert(fib(81) == 37889062373143906);
    assert(fib(82) == 61305790721611591);
    assert(fib(83) == 99194853094755497);
    assert(fib(84) == 160500643816367088);
    assert(fib(85) == 259695496911122585);
    assert(fib(86) == 420196140727489673);
    assert(fib(87) == 679891637638612258);
    assert(fib(88) == 1100087778366101931);
    assert(fib(89) == 1779979416004714189);
    assert(fib(90) == 2880067194370816120);
    assert(fib(91) == 4660046610375530309);
    assert(fib(92) == 7540113804746346429);
}

/// What the search from `fib(n)` on finds is a Fibonacci number above
/// `x`, and no Fibonacci number above `x` is smaller.
proof fn lemma_fib_above_is_least(x: int, n: nat, m: nat)
    requires
        n <= FIB_LAST,
        x < fib(FIB_LAST as nat),
        forall|j: nat| j < n ==> fib(j) <= x,
        x < fib(m),
    ensures
        x < fib_above(x, n),
        fib_above(x, n) <= fib(m),
        is_fib(fib_above(x, n) as int),
    decreases FIB_LAST - n,
{
    if n >= FIB_LAST || x < fib(n) {
        if m < n {
            assert(fib(m) <= x);
        } else {
            lemma_fib_monotonic(n, m);
        }
        assert(fib_above(x, n) == fib(n));
    } else {
        assert forall|j: nat| j < n + 1 implies fib(j) <= x by {}
        lemma_fib_above_is_least(x, n + 1, m);
    }
}

/// The smallest Fibonacci number strictly above `x`, the sequence
/// starting 0, 1. From the largest Fibonacci number that an `i64` holds
/// on, that number is the answer.
pub fn nearest_fib(x: i64) -> (k: i64)
    ensures
        x < FIB_LARGEST ==> x < k && is_fib(k as int) && forall|m: nat|
            x < #[trigger] fib(m) ==> k <= fib(m),
        x >= FIB_LARGEST ==> k == FIB_LARGEST,
        k == fib_above(x as int, 0),
{
    proof {
        lemma_fib_largest();
        assert(fib(0) == 0);
        assert(fib(1) == 1);
    }
    let mut prev: i64 = 0;
    let mut k: i64 = 0;
    let mut n: u64 = 0;
    if x >= 0 {
        k = 1;
        n = 1;
        loop
            invariant
                1 <= n <= FIB_LAST,
                k == fib(n as nat),
                k <= FIB_LARGEST,
                prev == fib((n - 1) as nat),
                fib_above(x as int, 0) == fib_above(x as int, n as nat),
                forall|j: nat| j < n ==> fib(j) <= x,
                fib(FIB_LAST as nat) == FIB_LARGEST,
            ensures
                x < k || n == FIB_LAST,
            decreases FIB_LAST - n,
        {
            if x < k || n == FIB_LAST {
                break;
            }
            proof {
                lemma_fib_monotonic((n + 1) as nat, FIB_LAST as nat);
                assert forall|j: nat| j < n + 1 implies fib(j) <= x by {}
            }
            let next: i64 = prev + k;
            prev = k;
            k = next;
            n = n + 1;
        }
    }
    proof {
        if x < FIB_LARGEST {
            assert forall|m: nat| x < #[trigger] fib(m) implies k <= fib(m) by {
                lemma_fib_above_is_least(x as int, n as nat, m);
            }
            lemma_fib_above_is_least(x as int, n as nat, FIB_LAST as nat);
        }
    }
    k
}

/// For an `x` below the largest Fibonacci number that an `i64` holds,
/// what `nearest_fib` gives is a Fibonacci number above `x`, and no
/// Fibonacci number lies between the two.
pub proof fn lemma_nearest_fib_is_least(x: int, m: nat)
    requires
        x < FIB_LARGEST,
        x < fib(m),
    ensures
        x < fib_above(x, 0),
        fib_above(x, 0) <= fib(m),
        is_fib(fib_above(x, 0) as int),
{
    lemma_fib_largest();
    lemma_fib_above_is_least(x, 0, m);
}

/// Nanoseconds in a millisecond.
pub const NANOS_PER_MILLI: u128 = 1_000_000;

/// `a / b` rounded toward zero, for a positive `b`.
pub open spec fn div_toward_zero(a: int, b: int) -> int {
    if a >= 0 {
        a / b
    } else {
        -((-a) / b)
    }
}

/// `v` held to the range of an `i64`.
pub open spec fn clamp_i64(v: int) -> i64 {
    if v > i64::MAX {
        i64::MAX
    } else if v < i64::MIN {
        i64::MIN
    } else {
        v as i64
    }
}

/// The change `delta` per second, where it took `elapsed_ms`
/// milliseconds: rounded toward zero and held to the range of an `i64`.
/// With no time elapsed, a change counts as the largest rate of its
/// direction.
pub open spec fn per_second(delta: int, elapsed_ms: int) -> i64 {
    if elapsed_ms > 0 {
        clamp_i64(div_toward_zero(delta * 1000, elapsed_ms))
    } else if delta > 0 {
        i64::MAX
    } else if delta < 0 {
        i64::MIN
    } else {
        0
    }
}

/// The rate of one channel. A previous total that is not positive is no
/// baseline, and gives the rate zero.
pub open spec fn channel_rate(previous: i64, current: i64, elapsed_ms: int) -> i64 {
    if previous > 0 {
        per_second(current - previous, elapsed_ms)
    } else {
        0
    }
}

/// What a counter holds, as plain values.
pub struct BandwidthCounterView {
    /// When the last sample was taken, in nanoseconds since the Unix
    /// epoch.
    pub time: u128,
    /// The totals of the last sample.
    pub total_bytes: TrafficStatistics,
    /// Whether no sample was taken yet.
    pub initial_set: bool,
}

/// The rates that a sample gives: none for the first sample, and none
/// where the clock went backwards since the last one.
pub open spec fn rates_at(
    counter: BandwidthCounterView,
    now: u128,
    new_total_bytes: TrafficStatistics,
) -> Option<TrafficStatistics> {
    if counter.initial_set || now < counter.time {
        None
    } else {
        let elapsed_ms = (now - counter.time) / (NANOS_PER_MILLI as int);
        Some(
            TrafficStatistics {
                dl: channel_rate(counter.total_bytes.dl, new_total_bytes.dl, elapsed_ms),
                ul: channel_rate(counter.total_bytes.ul, new_total_bytes.ul, elapsed_ms),
            },
        )
    }
}

/// The counter after a sample: the sample is its new baseline, whatever
/// it held before.
pub open spec fn sampled(now: u128, new_total_bytes: TrafficStatistics) -> BandwidthCounterView {
    BandwidthCounterView { time: now, total_bytes: new_total_bytes, initial_set: false }
}

/// Derives download and upload rates per second from running totals.
pub struct BandwidthCounter {
    dlul_time: u128,
    total_bytes: TrafficStatistics,
    initial_set: bool,
}

impl View for BandwidthCounter {
    type V = BandwidthCounterView;

    closed spec fn view(&self) -> BandwidthCounterView {
        BandwidthCounterView {
            time: self.dlul_time,
            total_bytes: self.total_bytes,
            initial_set: self.initial_set,
        }
    }
}

/// `SystemTime::now()`, as the nanoseconds since the Unix epoch; zero for
/// a clock that stands before it. Nothing is promised of the reading.
#[verifier::external_body]
fn clock_nanos() -> u128 {
    match std::time::SystemTime::now().duration_since(std::time::UNIX_EPOCH) {
        Ok(since_epoch) => since_epoch.as_nanos(),
        Err(_) => 0,
    }
}

impl BandwidthCounter {
    /// A counter without a baseline, made at the time `now`.
    pub fn new_at(now: u128) -> (r: Self)
        ensures
            r@ == (BandwidthCounterView {
                time: now,
                total_bytes: TrafficStatistics { dl: 0, ul: 0 },
                initial_set: true,
            }),
    {
        BandwidthCounter {
            dlul_time: now,
            total_bytes: TrafficStatistics { dl: 0, ul: 0 },
            initial_set: true,
        }
    }

    /// A counter without a baseline, made now.
    pub fn new() -> (r: Self)
        ensures
            r@.initial_set,
            r@.total_bytes == (TrafficStatistics { dl: 0, ul: 0 }),
    {
        BandwidthCounter::new_at(clock_nanos())
    }

    fn rate(previous: i64, current: i64, elapsed_ms: u128) -> (r: i64)
        requires
            elapsed_ms <= u128::MAX / NANOS_PER_MILLI,
        ensures
            r == channel_rate(previous, current, elapsed_ms as int),
    {
        if previous <= 0 {
            return 0;
        }
        let delta: i128 = current as i128 - previous as i128;
        if elapsed_ms == 0 {
            return if delta > 0 {
                i64::MAX
            } else if delta < 0 {
                i64::MIN
            } else {
                0
            };
        }
        let span: i128 = elapsed_ms as i128;
        if delta >= 0 {
            let q: i128 = (delta * 1000) / span;
            if q > i64::MAX as i128 {
                i64::MAX
            } else {
                q as i64
            }
        } else {
            let q: i128 = ((-delta) * 1000) / span;
            if q > i64::MAX as i128 {
                i64::MIN
            } else {
                (-q) as i64
            }
        }
    }

    /// Takes a sample of the running totals at the time `now`, given in
    /// nanoseconds since the Unix epoch, and derives the rates since the
    /// sample before. The sample becomes the baseline in every case.
    pub fn update_at(&mut self, now: u128, new_total_bytes: TrafficStatistics) -> (r: Option<
        TrafficStatistics,
    >)
        ensures
            r == rates_at(old(self)@, now, new_total_bytes),
            final(self)@ == sampled(now, new_total_bytes),
    {
        let rates = if self.initial_set || now < self.dlul_time {
            None
        } else {
            let elapsed_ms: u128 = (now - self.dlul_time) / NANOS_PER_MILLI;
            Some(
                TrafficStatistics {
                    dl: BandwidthCounter::rate(self.total_bytes.dl, new_total_bytes.dl, elapsed_ms),
                    ul: BandwidthCounter::rate(self.total_bytes.ul, new_total_bytes.ul, elapsed_ms),
                },
            )
        };
        self.dlul_time = now;
        self.total_bytes = new_total_bytes;
        self.initial_set = false;
        rates
    }

    /// Takes a sample of the running totals now. Which rates come out
    /// depends on the clock; they are those of `update_at` for its
    /// reading.
    pub fn update_with_total_values(&mut self, new_total_bytes: TrafficStatistics) -> (r: Option<
        TrafficStatistics,
    >)
        ensures
            old(self)@.initial_set ==> r is None,
            exists|now: u128|
                r == rates_at(old(self)@, now, new_total_bytes) && final(self)@ == #[trigger] sampled(
                    now,
                    new_total_bytes,
                ),
    {
        let now = clock_nanos();
        self.update_at(now, new_total_bytes)
    }
}

/// `n / d` rounded to the nearest integer, a tie going to the even one;
/// for `n` not negative and `d` positive.
pub open spec fn round_half_even(n: int, d: int) -> int {
    let q = n / d;
    let r = n % d;
    if 2 * r > d || (2 * r == d && q % 2 == 1) {
        q + 1
    } else {
        q
    }
}

/// The first integer that a double-precision number cannot tell from its
/// successor: two to the power of 53.
pub const DOUBLE_EXACT: u64 = 0x20_0000_0000_0000;

/// The distance between neighbouring double-precision numbers at `x`.
pub open spec fn double_spacing(x: nat) -> nat
    decreases x,
{
    if x < DOUBLE_EXACT {
        1
    } else {
        2 * double_spacing(x / 2)
    }
}

/// The double-precision number nearest to `x`, a tie going to the one
/// with the even significand: `x` itself below two to the power of 53.
pub open spec fn nearest_double(x: nat) -> nat {
    (round_half_even(x as int, double_spacing(x) as int) * double_spacing(x)) as nat
}

/// A number of hundredths, written with two decimal places.
pub open spec fn two_decimals(hundredths: nat) -> Seq<char> {
    digits(hundredths / 100, 10) + seq![
        '.',
        digit_char((hundredths / 10 % 10) as int),
        digit_char((hundredths % 10) as int),
    ]
}

/// `value / unit` with two decimal places, the last one rounded to the
/// nearest, a tie to the even digit.
pub open spec fn scaled_text(value: nat, unit: nat) -> Seq<char> {
    two_decimals(round_half_even((value * 100) as int, unit as int) as nat)
}

/// How a rate in bits per second is shown. Below 1024 the number stands
/// as it is; from there on it is divided by the largest of 1024, 1024²
/// and 1024³ that it reaches and shown with two decimal places. From two
/// to the power of 53 on, the rate is first rounded to the nearest
/// double-precision number.
pub open spec fn bandwidth_text(bits_per_second: i64) -> Seq<char> {
    if bits_per_second < SIZE_KB {
        dec_text(bits_per_second as int) + "bit/s"@
    } else if bits_per_second < SIZE_MB {
        scaled_text(bits_per_second as nat, SIZE_KB as nat) + "KBit/s"@
    } else if bits_per_second < SIZE_GB {
        scaled_text(bits_per_second as nat, SIZE_MB as nat) + "MBit/s"@
    } else {
        scaled_text(nearest_double(bits_per_second as nat), SIZE_GB as nat) + "GBit/s"@
    }
}

fn spacing_at(x: u64) -> (r: u64)
    ensures
        r == double_spacing(x as nat),
        1 <= r < 4096,
        x < DOUBLE_EXACT ==> r == 1,
        x >= DOUBLE_EXACT ==> r * 0x10_0000_0000_0000 <= x,
    decreases x,
{
    if x < DOUBLE_EXACT {
        1
    } else {
        2 * spacing_at(x / 2)
    }
}

fn rounded_quotient(n: u128, d: u128) -> (r: u128)
    requires
        d > 0,
        n < 0x1_0000_0000_0000_0000_0000_0000,
        d < 0x1_0000_0000_0000_0000,
    ensures
        r == round_half_even(n as int, d as int),
        r <= n / d + 1,
{
    let q: u128 = n / d;
    let r: u128 = n % d;
    if 2 * r > d || (2 * r == d && q % 2 == 1) {
        q + 1
    } else {
        q
    }
}

fn to_double(x: u64) -> (r: u128)
    ensures
        r == nearest_double(x as nat),
        r <= x + 4096,
{
    let s: u64 = spacing_at(x);
    let q: u128 = rounded_quotient(x as u128, s as u128);
    assert(q * s <= x + s) by (nonlinear_arith)
        requires
            q <= x / s + 1,
            s > 0,
            x >= 0,
    ;
    q * (s as u128)
}

fn push_scaled(out: &mut String, value: u128, unit: u64)
    requires
        unit >= 1024,
        value <= u64::MAX + 4096,
    ensures
        final(out)@ == old(out)@ + scaled_text(value as nat, unit as nat),
{
    let h: u128 = rounded_quotient(value * 100, unit as u128);
    assert((value * 100) / (unit as int) <= (value * 100) / 1024) by (nonlinear_arith)
        requires
            unit >= 1024,
            value >= 0,
    ;
    let ghost start = out@;
    let whole: u128 = h / 100;
    push_digits(out, whole as u64, 10);
    out.push('.');
    out.push(digit_of((h / 10 % 10) as u8));
    out.push(digit_of((h % 10) as u8));
    assert(out@ == start + two_decimals(h as nat));
}

/// Renders a rate in bits per second with its unit.
pub fn format_bandwidth(bits_per_second: i64) -> (r: String)
    ensures
        r@ == bandwidth_text(bits_per_second),
{
    let mut out = String::new();
    if bits_per_second < SIZE_KB {
        push_dec(&mut out, bits_per_second);
        out.append("bit/s");
    } else if bits_per_second < SIZE_MB {
        push_scaled(&mut out, bits_per_second as u128, SIZE_KB as u64);
        out.append("KBit/s");
    } else if bits_per_second < SIZE_GB {
        push_scaled(&mut out, bits_per_second as u128, SIZE_MB as u64);
        out.append("MBit/s");
    } else {
        push_scaled(&mut out, to_double(bits_per_second as u64), SIZE_GB as u64);
        out.append("GBit/s");
    }
    out
}

/// The first sample gives no rate, whatever the totals and the time, and
/// is the baseline from then on.
pub proof fn lemma_first_sample_sets_the_baseline(
    counter: BandwidthCounterView,
    now: u128,
    new_total_bytes: TrafficStatistics,
)
    requires
        counter.initial_set,
    ensures
        rates_at(counter, now, new_total_bytes) is None,
        sampled(now, new_total_bytes).total_bytes == new_total_bytes,
        sampled(now, new_total_bytes).time == now,
        !sampled(now, new_total_bytes).initial_set,
{
}

/// A channel whose previous total is not positive has the rate zero,
/// however much time has passed and whatever the new total is.
pub proof fn lemma_unset_total_gives_rate_zero(
    counter: BandwidthCounterView,
    now: u128,
    new_total_bytes: TrafficStatistics,
)
    requires
        !counter.initial_set,
        counter.time <= now,
    ensures
        rates_at(counter, now, new_total_bytes) is Some,
        counter.total_bytes.dl <= 0 ==> rates_at(counter, now, new_total_bytes).unwrap().dl == 0,
        counter.total_bytes.ul <= 0 ==> rates_at(counter, now, new_total_bytes).unwrap().ul == 0,
{
}

/// Over exactly one second the rate of a channel with a baseline is the
/// growth of its total: from 1000 to 1800 in 1000 ms is 800 per second.
pub proof fn lemma_rate_over_one_second(previous: i64, current: i64)
    requires
        previous > 0,
    ensures
        channel_rate(previous, current, 1000) == clamp_i64(current - previous),
{
}

/// The rate of a channel with a baseline is the growth of its total per
/// second, rounded toward zero: as long as it fits in an `i64`, it is the
/// whole number of largest magnitude whose product with the time elapsed
/// does not go beyond the thousandfold growth.
pub proof fn lemma_rate_rounds_toward_zero(previous: i64, current: i64, elapsed_ms: int)
    requires
        previous > 0,
        elapsed_ms > 0,
    ensures
        ({
            let growth = (current - previous) * 1000;
            let rate = div_toward_zero(growth, elapsed_ms);
            &&& channel_rate(previous, current, elapsed_ms) == clamp_i64(rate)
            &&& growth >= 0 ==> rate * elapsed_ms <= growth < (rate + 1) * elapsed_ms
            &&& growth < 0 ==> (rate - 1) * elapsed_ms < growth <= rate * elapsed_ms
        }),
{
    let growth = (current - previous) * 1000;
    if growth >= 0 {
        assert((growth / elapsed_ms) * elapsed_ms <= growth < (growth / elapsed_ms + 1)
            * elapsed_ms) by (nonlinear_arith)
            requires
                growth >= 0,
                elapsed_ms > 0,
        ;
    } else {
        let m = -growth;
        assert((m / elapsed_ms) * elapsed_ms <= m < (m / elapsed_ms + 1) * elapsed_ms)
            by (nonlinear_arith)
            requires
                m >= 0,
                elapsed_ms > 0,
        ;
        assert((-(m / elapsed_ms) - 1) * elapsed_ms == -((m / elapsed_ms + 1) * elapsed_ms))
            by (nonlinear_arith);
        assert((-(m / elapsed_ms)) * elapsed_ms == -((m / elapsed_ms) * elapsed_ms))
            by (nonlinear_arith);
    }
}

} // verus!
