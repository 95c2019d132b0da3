use antenna_status::bandwidth_utils::{
    format_bandwidth, nearest_fib, BandwidthCounter, TrafficStatistics, FIB_LARGEST, SIZE_GB,
    SIZE_KB, SIZE_MB, SIZE_TB,
};

/// The rendering by floating point that the integer rendering stands for.
fn format_with_floats(bits_per_second: i64) -> String {
    if bits_per_second < SIZE_KB {
        format!("{bits_per_second}bit/s")
    } else if bits_per_second < SIZE_MB {
        format!("{:.2}KBit/s", (bits_per_second as f64) / (SIZE_KB as f64))
    } else if bits_per_second < SIZE_GB {
        format!("{:.2}MBit/s", (bits_per_second as f64) / (SIZE_MB as f64))
    } else {
        format!("{:.2}GBit/s", (bits_per_second as f64) / (SIZE_GB as f64))
    }
}

#[test]
fn format_bandwidth_below_one_kilobit_is_unscaled() {
    assert_eq!(format_bandwidth(0), "0bit/s");
    assert_eq!(format_bandwidth(1), "1bit/s");
    assert_eq!(format_bandwidth(512), "512bit/s");
    assert_eq!(format_bandwidth(1023), "1023bit/s");
    assert_eq!(format_bandwidth(-1), "-1bit/s");
    assert_eq!(format_bandwidth(-123456), "-123456bit/s");
    assert_eq!(format_bandwidth(i64::MIN), "-9223372036854775808bit/s");
}

#[test]
fn format_bandwidth_thresholds_are_powers_of_1024() {
    assert_eq!(format_bandwidth(1024), "1.00KBit/s");
    assert_eq!(format_bandwidth(1536), "1.50KBit/s");
    assert_eq!(format_bandwidth(1024 * 1024 - 1), "1024.00KBit/s");
    assert_eq!(format_bandwidth(1024 * 1024), "1.00MBit/s");
    assert_eq!(format_bandwidth(1024 * 1024 * 1024 - 1), "1024.00MBit/s");
    assert_eq!(format_bandwidth(1024 * 1024 * 1024), "1.00GBit/s");
    assert_eq!(format_bandwidth(5 * 1024 * 1024 * 1024 / 2), "2.50GBit/s");
    assert_eq!(format_bandwidth(SIZE_TB), "1024.00GBit/s");
}

#[test]
fn format_bandwidth_rounds_ties_to_even() {
    // 1152 / 1024 = 1.125 and 1408 / 1024 = 1.375, both exactly.
    assert_eq!(format_bandwidth(1152), "1.12KBit/s");
    assert_eq!(format_bandwidth(1408), "1.38KBit/s");
    assert_eq!(format_bandwidth(1152), format_with_floats(1152));
    assert_eq!(format_bandwidth(1408), format_with_floats(1408));
}

#[test]
fn format_bandwidth_agrees_with_floats_on_small_rates() {
    let mut x: i64 = -2000;
    while x < 300_000 {
        assert_eq!(format_bandwidth(x), format_with_floats(x), "rate {x}");
        x += 1;
    }
}

#[test]
fn format_bandwidth_agrees_with_floats_across_the_range() {
    let mut x: i64 = 1000;
    let mut step: i64 = 1;
    while x > 0 && x < i64::MAX / 2 {
        for d in [-3i64, -2, -1, 0, 1, 2, 3] {
            let v = x + d;
            assert_eq!(format_bandwidth(v), format_with_floats(v), "rate {v}");
        }
        x += step;
        step = step + step / 7 + 1;
    }
}

#[test]
fn format_bandwidth_agrees_with_floats_on_the_largest_rates() {
    let mut x: i64 = i64::MAX;
    let mut n = 0;
    while n < 5000 {
        assert_eq!(format_bandwidth(x), format_with_floats(x), "rate {x}");
        x -= 1 + (n % 97) * 1_000_003;
        n += 1;
    }
    // around two to the power of 53, where doubles begin to skip integers
    let edge: i64 = 1 << 53;
    let mut d: i64 = -5000;
    while d < 5000 {
        let v = edge + d;
        assert_eq!(format_bandwidth(v), format_with_floats(v), "rate {v}");
        d += 1;
    }
    // ties between neighbouring doubles
    for shift in 1..10 {
        let base: i64 = 1 << (53 + shift);
        let half: i64 = 1 << (shift - 1);
        for k in 0..64i64 {
            let v = base + k * (half * 2) + half;
            assert_eq!(format_bandwidth(v), format_with_floats(v), "rate {v}");
            assert_eq!(format_bandwidth(v - 1), format_with_floats(v - 1), "rate {}", v - 1);
            assert_eq!(format_bandwidth(v + 1), format_with_floats(v + 1), "rate {}", v + 1);
        }
    }
}

#[test]
fn nearest_fib_of_50_is_55() {
    assert_eq!(nearest_fib(50), 55);
}

#[test]
fn nearest_fib_is_strictly_above_its_input() {
    assert_eq!(nearest_fib(0), 1);
    assert_eq!(nearest_fib(1), 2);
    assert_eq!(nearest_fib(2), 3);
    assert_eq!(nearest_fib(3), 5);
    assert_eq!(nearest_fib(4), 5);
    assert_eq!(nearest_fib(5), 8);
    assert_eq!(nearest_fib(54), 55);
    assert_eq!(nearest_fib(55), 89);
    assert_eq!(nearest_fib(4180), 4181);
}

#[test]
fn nearest_fib_goes_on_beyond_the_first_twenty() {
    assert_eq!(nearest_fib(4181), 6765);
    assert_eq!(nearest_fib(5000), 6765);
    assert_eq!(nearest_fib(6765), 10946);
    assert_eq!(nearest_fib(1_000_000), 1346269);
    assert_eq!(nearest_fib(4660046610375530308), 4660046610375530309);
    assert_eq!(nearest_fib(4660046610375530309), 7540113804746346429);
    assert_eq!(nearest_fib(7540113804746346428), 7540113804746346429);
}

#[test]
fn nearest_fib_at_the_ends_of_its_range() {
    // the sequence starts with 0, which is above every negative number
    assert_eq!(nearest_fib(-1), 0);
    assert_eq!(nearest_fib(i64::MIN), 0);
    // no larger Fibonacci number fits
    assert_eq!(FIB_LARGEST, 7540113804746346429);
    assert_eq!(nearest_fib(FIB_LARGEST), FIB_LARGEST);
    assert_eq!(nearest_fib(FIB_LARGEST + 1), FIB_LARGEST);
    assert_eq!(nearest_fib(i64::MAX), FIB_LARGEST);
}

#[test]
fn nearest_fib_is_the_smallest_fibonacci_number_above() {
    fn by_search(x: i64) -> i128 {
        let mut a: i128 = 0;
        let mut b: i128 = 1;
        while a <= x as i128 {
            let next = a + b;
            a = b;
            b = next;
        }
        a
    }
    let mut x: i64 = -10;
    while x < 20_000 {
        assert_eq!(nearest_fib(x) as i128, by_search(x), "x = {x}");
        x += 1;
    }
    let mut x: i64 = 20_000;
    while x < FIB_LARGEST / 3 {
        for d in [-1i64, 0, 1] {
            assert_eq!(nearest_fib(x + d) as i128, by_search(x + d), "x = {}", x + d);
        }
        x = x + x / 3 + 1;
    }
}

const T: u128 = 1_700_000_000_000_000_000;
const MS: u128 = 1_000_000;

#[test]
fn first_update_returns_none_and_sets_the_baseline() {
    let mut counter = BandwidthCounter::new_at(T);
    assert_eq!(counter.update_at(T + 500 * MS, TrafficStatistics { dl: 1000, ul: 500 }), None);
    // the baseline is in place: the next sample is measured against it
    assert_eq!(
        counter.update_at(T + 1500 * MS, TrafficStatistics { dl: 1800, ul: 900 }),
        Some(TrafficStatistics { dl: 800, ul: 400 })
    );
}

#[test]
fn first_update_returns_none_for_any_totals() {
    for totals in [(0i64, 0i64), (1, 1), (-5, 7), (i64::MAX, i64::MIN), (i64::MIN, i64::MAX)] {
        let mut counter = BandwidthCounter::new_at(T);
        let sample = TrafficStatistics { dl: totals.0, ul: totals.1 };
        assert_eq!(counter.update_at(T, sample), None);
        assert_eq!(counter.update_at(T + 1, sample).is_some(), true);
    }
}

#[test]
fn first_update_with_the_clock_returns_none() {
    let mut counter = BandwidthCounter::new();
    assert_eq!(counter.update_with_total_values(TrafficStatistics { dl: 1000, ul: 500 }), None);
    let second = counter.update_with_total_values(TrafficStatistics { dl: 1000, ul: 500 });
    // no bytes moved: the rate is zero however long it took
    if let Some(rates) = second {
        assert_eq!(rates, TrafficStatistics { dl: 0, ul: 0 });
    }
}

#[test]
fn rates_after_one_second() {
    let mut counter = BandwidthCounter::new_at(T - 1);
    counter.update_at(T, TrafficStatistics { dl: 1000, ul: 500 });
    assert_eq!(
        counter.update_at(T + 1000 * MS, TrafficStatistics { dl: 1800, ul: 900 }),
        Some(TrafficStatistics { dl: 800, ul: 400 })
    );
}

#[test]
fn rates_scale_with_the_time_elapsed() {
    let mut counter = BandwidthCounter::new_at(T);
    counter.update_at(T, TrafficStatistics { dl: 1000, ul: 500 });
    assert_eq!(
        counter.update_at(T + 2000 * MS, TrafficStatistics { dl: 1800, ul: 900 }),
        Some(TrafficStatistics { dl: 400, ul: 200 })
    );
    assert_eq!(
        counter.update_at(T + 2500 * MS, TrafficStatistics { dl: 2800, ul: 901 }),
        Some(TrafficStatistics { dl: 2000, ul: 2 })
    );
    // 7 * 1000 / 3 = 2333.3...: rounded toward zero
    assert_eq!(
        counter.update_at(T + 2503 * MS, TrafficStatistics { dl: 2807, ul: 894 }),
        Some(TrafficStatistics { dl: 2333, ul: -2333 })
    );
}

#[test]
fn unset_previous_total_gives_rate_zero() {
    for elapsed in [0u128, 1, 999, 1000, 5000, 1_000_000_000] {
        let mut counter = BandwidthCounter::new_at(T);
        counter.update_at(T, TrafficStatistics { dl: 0, ul: 300 });
        let rates = counter.update_at(T + elapsed * MS, TrafficStatistics { dl: 500, ul: 300 });
        assert_eq!(rates.map(|r| r.dl), Some(0), "after {elapsed} ms");
    }
    let mut counter = BandwidthCounter::new_at(T);
    counter.update_at(T, TrafficStatistics { dl: -10, ul: 0 });
    assert_eq!(
        counter.update_at(T + 1000 * MS, TrafficStatistics { dl: 500, ul: 500 }),
        Some(TrafficStatistics { dl: 0, ul: 0 })
    );
}

#[test]
fn a_counter_that_went_down_gives_a_negative_rate() {
    let mut counter = BandwidthCounter::new_at(T);
    counter.update_at(T, TrafficStatistics { dl: 1000, ul: 1000 });
    assert_eq!(
        counter.update_at(T + 1000 * MS, TrafficStatistics { dl: 400, ul: 0 }),
        Some(TrafficStatistics { dl: -600, ul: -1000 })
    );
}

#[test]
fn no_time_elapsed_gives_the_largest_rate_of_its_direction() {
    let mut counter = BandwidthCounter::new_at(T);
    counter.update_at(T, TrafficStatistics { dl: 1000, ul: 1000 });
    assert_eq!(
        counter.update_at(T + MS - 1, TrafficStatistics { dl: 1001, ul: 999 }),
        Some(TrafficStatistics { dl: i64::MAX, ul: i64::MIN })
    );
    assert_eq!(
        counter.update_at(T + MS - 1, TrafficStatistics { dl: 1001, ul: 999 }),
        Some(TrafficStatistics { dl: 0, ul: 0 })
    );
}

#[test]
fn rates_are_held_to_the_range_of_an_i64() {
    let mut counter = BandwidthCounter::new_at(T);
    counter.update_at(T, TrafficStatistics { dl: 1, ul: i64::MAX });
    assert_eq!(
        counter.update_at(T + MS, TrafficStatistics { dl: i64::MAX, ul: i64::MIN }),
        Some(TrafficStatistics { dl: i64::MAX, ul: i64::MIN })
    );
}

#[test]
fn a_clock_that_went_back_gives_no_rate_but_a_new_baseline() {
    let mut counter = BandwidthCounter::new_at(T);
    counter.update_at(T, TrafficStatistics { dl: 1000, ul: 500 });
    assert_eq!(counter.update_at(T - 1, TrafficStatistics { dl: 2000, ul: 600 }), None);
    assert_eq!(
        counter.update_at(T - 1 + 1000 * MS, TrafficStatistics { dl: 2500, ul: 700 }),
        Some(TrafficStatistics { dl: 500, ul: 100 })
    );
}
