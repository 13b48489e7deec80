//! Byte-exact rendering of the output lines.
//!
//! Lines are built as ASCII bytes so that every character is pinned by a
//! contract. A micro-unit throughput value renders as a decimal with exactly
//! six fractional digits: `10_000_000_000` micro-units becomes
//! `10000.000000`. The blocking variant prints one CSV line
//! `<rx_buffer_size>,<throughput>` per window; the callback variant prints
//! `msg/s: <throughput>` per window and `average msg/s: <average>` at the
//! end.

use vstd::prelude::*;

verus! {

use crate::stats::average_micros;
use crate::stats::checked_sum_micros;
use crate::stats::lemma_scaled_fits;
use crate::stats::micro_scale;
use crate::stats::sum_micros;
use crate::stats::throughput_micros;
use crate::stats::throughput_micros_spec;

/// The ASCII digit for `d` (recommends `0 <= d <= 9`).
pub open spec fn digit_byte(d: int) -> u8 {
    (48 + d) as u8
}

/// Decimal rendering of `n`: most significant digit first, no leading zeros
/// (a single `0` for zero).
pub open spec fn dec_spec(n: nat) -> Seq<u8>
    decreases n,
{
    if n < 10 {
        seq![digit_byte(n as int)]
    } else {
        dec_spec(n / 10) + seq![digit_byte((n % 10) as int)]
    }
}

/// Decimal rendering of `n % 10^w`, zero-padded to exactly `w` digits.
pub open spec fn dec_pad_spec(n: nat, w: nat) -> Seq<u8>
    decreases w,
{
    if w == 0 {
        Seq::empty()
    } else {
        dec_pad_spec(n / 10, (w - 1) as nat) + seq![digit_byte((n % 10) as int)]
    }
}

/// A micro-unit value as a decimal with exactly six fractional digits.
pub open spec fn fixed6_spec(micros: nat) -> Seq<u8> {
    dec_spec(micros / 1_000_000) + seq![46u8] + dec_pad_spec(micros % 1_000_000, 6)
}

/// The blocking-mode CSV line: `<rx_buffer_size>,<throughput>`.
pub open spec fn csv_line_spec(rx_buffer_size: nat, micros: nat) -> Seq<u8> {
    dec_spec(rx_buffer_size) + seq![44u8] + fixed6_spec(micros)
}

/// The callback-mode per-window line: `msg/s: <throughput>`.
pub open spec fn msgs_line_spec(micros: nat) -> Seq<u8> {
    seq![109u8, 115u8, 103u8, 47u8, 115u8, 58u8, 32u8] + fixed6_spec(micros)
}

/// The callback-mode final line: `average msg/s: <average>`.
pub open spec fn average_line_spec(micros: nat) -> Seq<u8> {
    seq![97u8, 118u8, 101u8, 114u8, 97u8, 103u8, 101u8, 32u8] + msgs_line_spec(micros)
}

/// Number of occurrences of byte `b` in `s`.
pub open spec fn count_byte(s: Seq<u8>, b: u8) -> int
    decreases s.len(),
{
    if s.len() == 0 {
        0
    } else {
        count_byte(s.drop_last(), b) + if s.last() == b {
            1int
        } else {
            0int
        }
    }
}

/// `b` is an ASCII decimal digit.
pub open spec fn is_digit(b: u8) -> bool {
    48 <= b <= 57
}

/// Every byte of `s` is an ASCII decimal digit.
pub open spec fn all_digits(s: Seq<u8>) -> bool {
    forall|i: int| 0 <= i < s.len() ==> is_digit(#[trigger] s[i])
}

proof fn lemma_count_byte_singleton(x: u8, b: u8)
    ensures
        count_byte(seq![x], b) == if x == b {
            1int
        } else {
            0int
        },
{
    reveal_with_fuel(count_byte, 2);
    assert(seq![x].drop_last() =~= Seq::<u8>::empty());
}

proof fn lemma_count_byte_concat(s: Seq<u8>, t: Seq<u8>, b: u8)
    ensures
        count_byte(s + t, b) == count_byte(s, b) + count_byte(t, b),
    decreases t.len(),
{
    if t.len() == 0 {
        assert(s + t =~= s);
    } else {
        assert((s + t).drop_last() =~= s + t.drop_last());
        lemma_count_byte_concat(s, t.drop_last(), b);
    }
}

proof fn lemma_all_digits_count(s: Seq<u8>, b: u8)
    requires
        all_digits(s),
        !is_digit(b),
    ensures
        count_byte(s, b) == 0,
    decreases s.len(),
{
    if s.len() > 0 {
        lemma_all_digits_count(s.drop_last(), b);
    }
}

/// A decimal rendering is never empty and is made of digits alone.
pub proof fn lemma_dec_digits(n: nat)
    ensures
        dec_spec(n).len() >= 1,
        all_digits(dec_spec(n)),
    decreases n,
{
    if n >= 10 {
        lemma_dec_digits(n / 10);
    }
}

/// A padded decimal rendering has exactly `w` bytes, all digits.
pub proof fn lemma_dec_pad_digits(n: nat, w: nat)
    ensures
        dec_pad_spec(n, w).len() == w,
        all_digits(dec_pad_spec(n, w)),
    decreases w,
{
    if w > 0 {
        lemma_dec_pad_digits(n / 10, (w - 1) as nat);
    }
}

/// The blocking-mode CSV line has exactly two comma-separated fields: there
/// is exactly one comma in it, the text before the comma is the decimal
/// rendering of the configured receive-buffer size, and the text after it is
/// the throughput: at least one digit, exactly one dot, six digits after the
/// dot, and nothing else — a non-negative finite decimal number.
pub proof fn lemma_csv_line_fields(rx_buffer_size: nat, micros: nat)
    ensures
        count_byte(csv_line_spec(rx_buffer_size, micros), 44u8) == 1,
        csv_line_spec(rx_buffer_size, micros)[dec_spec(rx_buffer_size).len() as int] == 44u8,
        csv_line_spec(rx_buffer_size, micros).subrange(
            0,
            dec_spec(rx_buffer_size).len() as int,
        ) == dec_spec(rx_buffer_size),
        csv_line_spec(rx_buffer_size, micros).subrange(
            dec_spec(rx_buffer_size).len() as int + 1,
            csv_line_spec(rx_buffer_size, micros).len() as int,
        ) == fixed6_spec(micros),
        all_digits(dec_spec(rx_buffer_size)),
        dec_spec(rx_buffer_size).len() >= 1,
        count_byte(fixed6_spec(micros), 46u8) == 1,
        count_byte(fixed6_spec(micros), 44u8) == 0,
        forall|i: int|
            0 <= i < fixed6_spec(micros).len() ==> is_digit(
                #[trigger] fixed6_spec(micros)[i],
            ) || fixed6_spec(micros)[i] == 46u8,
        fixed6_spec(micros)[0] != 46u8,
        fixed6_spec(micros).last() != 46u8,
        fixed6_spec(micros).len() >= 8,
{
    let rx = dec_spec(rx_buffer_size);
    let whole = dec_spec(micros / 1_000_000);
    let dot = seq![46u8];
    let frac = dec_pad_spec(micros % 1_000_000, 6);
    let fx = fixed6_spec(micros);
    let line = csv_line_spec(rx_buffer_size, micros);
    lemma_dec_digits(rx_buffer_size);
    lemma_dec_digits(micros / 1_000_000);
    lemma_dec_pad_digits(micros % 1_000_000, 6);
    lemma_count_byte_singleton(46u8, 46u8);
    lemma_count_byte_singleton(46u8, 44u8);
    lemma_count_byte_singleton(44u8, 44u8);
    lemma_all_digits_count(whole, 46u8);
    lemma_all_digits_count(frac, 46u8);
    lemma_all_digits_count(whole, 44u8);
    lemma_all_digits_count(frac, 44u8);
    lemma_count_byte_concat(whole, dot, 46u8);
    lemma_count_byte_concat(whole + dot, frac, 46u8);
    lemma_count_byte_concat(whole, dot, 44u8);
    lemma_count_byte_concat(whole + dot, frac, 44u8);
    lemma_all_digits_count(rx, 44u8);
    lemma_count_byte_concat(rx, seq![44u8], 44u8);
    lemma_count_byte_concat(rx + seq![44u8], fx, 44u8);
    assert(line.subrange(0, rx.len() as int) =~= rx);
    assert(line.subrange(rx.len() as int + 1, line.len() as int) =~= fx);
    assert(fx[0] == whole[0]);
    assert(fx.last() == frac.last());
}

/// Renders `n` in decimal, most significant digit first.
pub fn dec_bytes(n: u128) -> (r: Vec<u8>)
    ensures
        r@ == dec_spec(n as nat),
    decreases n,
{
    if n < 10 {
        let mut v: Vec<u8> = Vec::new();
        v.push(48 + (n as u8));
        v
    } else {
        let mut v = dec_bytes(n / 10);
        v.push(48 + ((n % 10) as u8));
        v
    }
}

/// Renders the low `w` decimal digits of `n`, zero-padded to width `w`.
fn dec_pad_bytes(n: u128, w: usize) -> (r: Vec<u8>)
    ensures
        r@ == dec_pad_spec(n as nat, w as nat),
    decreases w,
{
    if w == 0 {
        Vec::new()
    } else {
        let mut v = dec_pad_bytes(n / 10, w - 1);
        v.push(48 + ((n % 10) as u8));
        v
    }
}

/// Renders a micro-unit value as a decimal with six fractional digits.
pub fn fixed6_bytes(micros: u128) -> (r: Vec<u8>)
    ensures
        r@ == fixed6_spec(micros as nat),
{
    let mut v = dec_bytes(micros / 1_000_000);
    v.push(46);
    let mut frac = dec_pad_bytes(micros % 1_000_000, 6);
    v.append(&mut frac);
    v
}

/// Builds the blocking-mode CSV line `<rx_buffer_size>,<throughput>`.
pub fn csv_line(rx_buffer_size: usize, micros: u128) -> (r: Vec<u8>)
    ensures
        r@ == csv_line_spec(rx_buffer_size as nat, micros as nat),
{
    let mut v = dec_bytes(rx_buffer_size as u128);
    v.push(44);
    let mut rest = fixed6_bytes(micros);
    v.append(&mut rest);
    v
}

/// Builds the callback-mode per-window line `msg/s: <throughput>`.
pub fn msgs_line(micros: u128) -> (r: Vec<u8>)
    ensures
        r@ == msgs_line_spec(micros as nat),
{
    let mut v: Vec<u8> = Vec::new();
    v.push(109);
    v.push(115);
    v.push(103);
    v.push(47);
    v.push(115);
    v.push(58);
    v.push(32);
    let mut rest = fixed6_bytes(micros);
    v.append(&mut rest);
    proof {
        assert(v@ =~= msgs_line_spec(micros as nat));
    }
    v
}

/// Builds the callback-mode final line `average msg/s: <average>`.
pub fn average_line(micros: u128) -> (r: Vec<u8>)
    ensures
        r@ == average_line_spec(micros as nat),
{
    let mut v: Vec<u8> = Vec::new();
    v.push(97);
    v.push(118);
    v.push(101);
    v.push(114);
    v.push(97);
    v.push(103);
    v.push(101);
    v.push(32);
    let mut rest = msgs_line(micros);
    v.append(&mut rest);
    proof {
        assert(v@ =~= average_line_spec(micros as nat));
    }
    v
}

/// Builds the blocking-mode CSV line for one closed window of `number`
/// messages over `elapsed_ns` nanoseconds, or `None` exactly when the
/// throughput cannot be computed: a zero elapsed time (a window finer than
/// the clock's granularity) or a scaled count beyond 128 bits.
pub fn reading_csv_line(number: u128, elapsed_ns: u64, rx_buffer_size: usize) -> (r: Option<
    Vec<u8>,
>)
    ensures
        r is Some <==> (elapsed_ns > 0 && number * micro_scale() <= u128::MAX),
        r matches Some(v) ==> v@ == csv_line_spec(
            rx_buffer_size as nat,
            throughput_micros_spec(number, elapsed_ns) as nat,
        ),
{
    proof {
        lemma_scaled_fits(number);
    }
    if elapsed_ns == 0 || number > u128::MAX / 1_000_000_000_000_000 {
        None
    } else {
        Some(csv_line(rx_buffer_size, throughput_micros(number, elapsed_ns)))
    }
}

/// Builds the callback-mode per-window line `msg/s: <throughput>` for one
/// closed window, under the same conditions as [`reading_csv_line`].
pub fn reading_stats_line(number: u128, elapsed_ns: u64) -> (r: Option<Vec<u8>>)
    ensures
        r is Some <==> (elapsed_ns > 0 && number * micro_scale() <= u128::MAX),
        r matches Some(v) ==> v@ == msgs_line_spec(
            throughput_micros_spec(number, elapsed_ns) as nat,
        ),
{
    proof {
        lemma_scaled_fits(number);
    }
    if elapsed_ns == 0 || number > u128::MAX / 1_000_000_000_000_000 {
        None
    } else {
        Some(msgs_line(throughput_micros(number, elapsed_ns)))
    }
}

/// Builds the callback-mode final line `average msg/s: <average>` from the
/// collected readings: the printed average is the arithmetic mean of the
/// readings, truncated to micro-units. `None` exactly when there are no
/// readings or their sum does not fit 128 bits.
pub fn average_stats_line(readings: &Vec<u128>) -> (r: Option<Vec<u8>>)
    ensures
        r is Some <==> (readings@.len() >= 1 && sum_micros(readings@) <= u128::MAX),
        r matches Some(v) ==> v@ == average_line_spec(
            (sum_micros(readings@) / (readings@.len() as int)) as nat,
        ),
{
    if readings.len() == 0 {
        return None;
    }
    match checked_sum_micros(readings) {
        Some(_) => Some(average_line(average_micros(readings))),
        None => None,
    }
}

} // verus!
