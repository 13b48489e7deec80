//! Throughput arithmetic, in integer micro-units.
//!
//! A throughput reading is `number / elapsed_seconds` messages per second.
//! To keep every printed digit inside the verified core, readings are carried
//! as integers scaled by one million: a value of `10_000_000_000` micro-units
//! is `10000.000000` messages per second. With elapsed time in nanoseconds,
//! `micros = number * 10^15 / elapsed_ns`, truncated.

use vstd::prelude::*;

verus! {

/// Scale from `number / elapsed_ns` to micro-units of messages per second:
/// `10^9` (nanoseconds per second) times `10^6` (micro-units per unit).
pub open spec fn micro_scale() -> int {
    1_000_000_000_000_000
}

/// Throughput of a window of `n` messages over `elapsed_ns` nanoseconds, in
/// micro-units of messages per second, truncated.
pub open spec fn throughput_micros_spec(n: u128, elapsed_ns: u64) -> int
    recommends
        elapsed_ns > 0,
{
    (n * micro_scale()) / (elapsed_ns as int)
}

/// Computes one throughput reading. The result depends on the count and the
/// elapsed time alone, so recomputing it from the same inputs reproduces it
/// exactly.
pub fn throughput_micros(n: u128, elapsed_ns: u64) -> (r: u128)
    requires
        elapsed_ns > 0,
        n * micro_scale() <= u128::MAX,
    ensures
        r == throughput_micros_spec(n, elapsed_ns),
{
    (n * 1_000_000_000_000_000) / (elapsed_ns as u128)
}

/// The scaled count `n * micro_scale()` fits 128 bits exactly when `n` stays
/// under the executable bound `u128::MAX / micro_scale()`.
pub proof fn lemma_scaled_fits(n: u128)
    ensures
        n * micro_scale() <= u128::MAX <==> n <= u128::MAX / (micro_scale() as u128),
{
    let c = micro_scale();
    if n <= u128::MAX / (c as u128) {
        assert(n * c <= (u128::MAX as int / c) * c) by (nonlinear_arith)
            requires
                n <= u128::MAX as int / c,
                c > 0,
        ;
        vstd::arithmetic::div_mod::lemma_fundamental_div_mod(u128::MAX as int, c);
    }
    if n * c <= u128::MAX {
        vstd::arithmetic::div_mod::lemma_div_is_ordered(n * c, u128::MAX as int, c);
        vstd::arithmetic::div_mod::lemma_div_by_multiple(n as int, c);
    }
}

/// Sum of a sequence of readings, as an unbounded integer.
pub open spec fn sum_micros(s: Seq<u128>) -> int
    decreases s.len(),
{
    if s.len() == 0 {
        0
    } else {
        sum_micros(s.drop_last()) + s.last()
    }
}

proof fn lemma_sum_take_step(s: Seq<u128>, i: int)
    requires
        0 <= i < s.len(),
    ensures
        sum_micros(s.take(i + 1)) == sum_micros(s.take(i)) + s[i],
{
    assert(s.take(i + 1).drop_last() =~= s.take(i));
    assert(s.take(i + 1).last() == s[i]);
}

proof fn lemma_sum_take_le(s: Seq<u128>, i: int)
    requires
        0 <= i <= s.len(),
    ensures
        sum_micros(s.take(i)) <= sum_micros(s),
    decreases s.len() - i,
{
    if i < s.len() {
        lemma_sum_take_step(s, i);
        lemma_sum_take_le(s, i + 1);
    } else {
        assert(s.take(i) =~= s);
    }
}

proof fn lemma_sum_nonneg(s: Seq<u128>)
    ensures
        sum_micros(s) >= 0,
    decreases s.len(),
{
    if s.len() > 0 {
        lemma_sum_nonneg(s.drop_last());
    }
}

/// Adds up the readings, reporting `None` exactly when the sum does not fit
/// a 128-bit integer.
pub fn checked_sum_micros(readings: &Vec<u128>) -> (r: Option<u128>)
    ensures
        r is Some <==> sum_micros(readings@) <= u128::MAX,
        r matches Some(t) ==> t == sum_micros(readings@),
{
    let mut total: u128 = 0;
    let mut i: usize = 0;
    while i < readings.len()
        invariant
            i <= readings@.len(),
            total == sum_micros(readings@.take(i as int)),
        decreases readings@.len() - i,
    {
        proof {
            lemma_sum_take_step(readings@, i as int);
        }
        if readings[i] > u128::MAX - total {
            proof {
                lemma_sum_take_le(readings@, i as int + 1);
            }
            return None;
        }
        total = total + readings[i];
        i = i + 1;
    }
    proof {
        assert(readings@.take(i as int) =~= readings@);
    }
    Some(total)
}

/// Arithmetic mean of the collected readings, truncated to micro-units: the
/// raw sum divided by the number of readings, with no smoothing and no
/// outlier rejection.
pub fn average_micros(readings: &Vec<u128>) -> (r: u128)
    requires
        readings@.len() >= 1,
        sum_micros(readings@) <= u128::MAX,
    ensures
        r == sum_micros(readings@) / (readings@.len() as int),
{
    let mut total: u128 = 0;
    let mut i: usize = 0;
    while i < readings.len()
        invariant
            i <= readings@.len(),
            total == sum_micros(readings@.take(i as int)),
            sum_micros(readings@) <= u128::MAX,
        decreases readings@.len() - i,
    {
        proof {
            lemma_sum_take_step(readings@, i as int);
            lemma_sum_take_le(readings@, i as int + 1);
            lemma_sum_nonneg(readings@.take(i as int));
        }
        total = total + readings[i];
        i = i + 1;
    }
    proof {
        assert(readings@.take(i as int) =~= readings@);
    }
    total / (readings.len() as u128)
}

} // verus!
