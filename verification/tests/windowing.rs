use thr_bench::payload::make_payload;
use thr_bench::sampler::run_sampler;
use thr_bench::sampler::Sampler;
use thr_bench::stats::average_micros;
use thr_bench::stats::checked_sum_micros;
use thr_bench::stats::throughput_micros;

#[test]
fn payload_bytes_cycle_decimal_digits() {
    let p = make_payload(25);
    assert_eq!(p.len(), 25);
    for (i, b) in p.iter().enumerate() {
        assert_eq!(*b as usize, i % 10);
    }
    assert_eq!(p[9], 9);
    assert_eq!(p[10], 0);
    assert_eq!(p[24], 4);
}

#[test]
fn payload_empty() {
    assert_eq!(make_payload(0).len(), 0);
}

#[test]
fn sampler_counts_window_and_closes_it() {
    // N = 3: the first message starts the window, two more fill it, the
    // fourth closes it and is not counted in it.
    let mut s = Sampler::new(3, 2);
    assert!(!s.finished());
    assert_eq!(s.on_message(100), None);
    assert!(!s.at_boundary());
    assert_eq!(s.on_message(110), None);
    assert_eq!(s.on_message(120), None);
    assert!(s.at_boundary());
    assert_eq!(s.on_message(130), Some(30));
    assert!(!s.finished());
    // second window: starts at the fifth message
    assert_eq!(s.on_message(200), None);
    assert_eq!(s.on_message(205), None);
    assert_eq!(s.on_message(210), None);
    assert_eq!(s.on_message(260), Some(60));
    assert!(s.finished());
}

#[test]
fn first_message_defines_window_start() {
    // The window start is captured at the first message of the window, not
    // at window-reset time: a long gap before the window opens is invisible.
    let mut s = Sampler::new(2, 1);
    assert_eq!(s.on_message(1_000_000), None);
    assert_eq!(s.on_message(1_000_010), None);
    assert_eq!(s.on_message(1_000_025), Some(25));
}

#[test]
fn replay_reading_spans_first_to_closing_message() {
    // N = 2: window k spans arrivals 3k .. 3k + 2.
    let arrivals: Vec<u64> = vec![0, 5, 9, 10, 12, 20, 30];
    let readings = run_sampler(2, 5, &arrivals);
    assert_eq!(readings, vec![9, 10]);
}

#[test]
fn replay_stops_after_sample_budget() {
    // Plenty of arrivals, but only S = 2 readings come out.
    let arrivals: Vec<u64> = (0..100u64).map(|i| i * 10).collect();
    let readings = run_sampler(4, 2, &arrivals);
    assert_eq!(readings.len(), 2);
    assert_eq!(readings, vec![40, 40]);
}

#[test]
fn replay_incomplete_window_yields_nothing() {
    // The source stalls after 3 messages with 0 < 3 < N = 5: no reading.
    let arrivals: Vec<u64> = vec![0, 10, 20];
    let readings = run_sampler(5, 10, &arrivals);
    assert!(readings.is_empty());
}

#[test]
fn replay_trailing_partial_window_is_discarded() {
    // One complete window, then a stall mid-window: one reading only.
    let arrivals: Vec<u64> = vec![0, 1, 2, 3, 4, 5, 6];
    let readings = run_sampler(4, 10, &arrivals);
    assert_eq!(readings, vec![4]);
}

#[test]
fn replay_single_message_windows() {
    // N = 1: every other message closes a window.
    let arrivals: Vec<u64> = vec![0, 7, 10, 25];
    let readings = run_sampler(1, 5, &arrivals);
    assert_eq!(readings, vec![7, 15]);
}

#[test]
fn replay_zero_samples_yields_nothing() {
    let arrivals: Vec<u64> = vec![0, 1, 2, 3];
    let readings = run_sampler(1, 0, &arrivals);
    assert!(readings.is_empty());
}

#[test]
fn throughput_exact_value() {
    // 1000 messages in 0.1 s: 10000 msg/s, i.e. 10^10 micro-units.
    assert_eq!(throughput_micros(1000, 100_000_000), 10_000_000_000);
    // 1 message in 1 s.
    assert_eq!(throughput_micros(1, 1_000_000_000), 1_000_000);
    // Truncation: 1 message in 3 s = 0.333333... msg/s.
    assert_eq!(throughput_micros(1, 3_000_000_000), 333_333);
}

#[test]
fn average_exact_value() {
    let readings: Vec<u128> = vec![10, 20, 31];
    assert_eq!(average_micros(&readings), 20);
    let one: Vec<u128> = vec![7];
    assert_eq!(average_micros(&one), 7);
}

#[test]
fn checked_sum_detects_overflow() {
    let fits: Vec<u128> = vec![u128::MAX - 1, 1];
    assert_eq!(checked_sum_micros(&fits), Some(u128::MAX));
    let overflows: Vec<u128> = vec![u128::MAX, 1];
    assert_eq!(checked_sum_micros(&overflows), None);
}

#[test]
fn average_matches_float_mean() {
    // Reimplement the reading computation independently in floating point
    // and compare the integer micro-unit average within tolerance.
    let number: u128 = 1000;
    let elapsed: Vec<u64> = vec![95_000_000, 100_000_000, 110_000_000];
    let readings: Vec<u128> =
        elapsed.iter().map(|e| throughput_micros(number, *e)).collect();
    let avg = average_micros(&readings) as f64 / 1e6;
    let float_mean = elapsed
        .iter()
        .map(|e| number as f64 / (*e as f64 / 1e9))
        .sum::<f64>() / elapsed.len() as f64;
    assert!((avg - float_mean).abs() < 1e-4, "{} vs {}", avg, float_mean);
}

#[test]
fn end_to_end_synthetic_clock() {
    // Payload of 8 bytes, N = 1000, S = 3, one message every 0.1 ms: each
    // window of 1000 messages spans 0.1 s, so every reading is 10000 msg/s.
    let payload = make_payload(8);
    assert_eq!(payload, vec![0, 1, 2, 3, 4, 5, 6, 7]);
    let number: u128 = 1000;
    let samples: u32 = 3;
    let arrivals: Vec<u64> = (0..(3 * 1001 + 5) as u64).map(|i| i * 100_000).collect();
    let readings = run_sampler(number, samples, &arrivals);
    assert_eq!(readings.len(), 3);
    let micros: Vec<u128> =
        readings.iter().map(|e| throughput_micros(number, *e)).collect();
    for m in &micros {
        let msg_s = *m as f64 / 1e6;
        assert!((msg_s - 10000.0).abs() < 1.0, "reading {}", msg_s);
    }
    let avg = average_micros(&micros) as f64 / 1e6;
    assert!((avg - 10000.0).abs() < 1.0, "average {}", avg);
}

#[test]
fn replay_is_deterministic() {
    let arrivals: Vec<u64> = (0..50u64).map(|i| i * i).collect();
    let first = run_sampler(6, 4, &arrivals);
    let second = run_sampler(6, 4, &arrivals);
    assert_eq!(first, second);
}
