//! One delivered message, end to end, for each delivery-mode variant.
//!
//! The blocking variant pulls a message, steps the sampler, and at a window
//! boundary emits one CSV line. The callback variant does the same from the
//! transport's delivery context, collects each reading into a running list
//! instead, prints a `msg/s:` line per window, and once the sample budget is
//! exhausted renders the average of the collected readings.

use vstd::prelude::*;

verus! {

use crate::output::average_line_spec;
use crate::output::average_stats_line;
use crate::output::csv_line_spec;
use crate::output::msgs_line;
use crate::output::msgs_line_spec;
use crate::output::reading_csv_line;
use crate::sampler::Sampler;
use crate::stats::lemma_scaled_fits;
use crate::stats::micro_scale;
use crate::stats::sum_micros;
use crate::stats::throughput_micros;
use crate::stats::throughput_micros_spec;

/// One step of the blocking receive loop: feeds one message to the sampler
/// and, when it closes a window, builds the CSV line to print. No line comes
/// out when no window closed, when the window was finer than the clock's
/// granularity, or when the scaled count leaves 128 bits.
pub fn blocking_step(s: &mut Sampler, now: u64, rx_buffer_size: usize) -> (r: Option<Vec<u8>>)
    requires
        old(s).wf(),
        !old(s).finished_spec(),
        old(s).count >= 1 ==> now >= old(s).window_start,
    ensures
        final(s).wf(),
        *final(s) == Sampler::step_spec(*old(s), now),
        r is Some <==> (old(s).at_boundary_spec() && now > old(s).window_start && old(
            s,
        ).number * micro_scale() <= u128::MAX),
        r matches Some(v) ==> v@ == csv_line_spec(
            rx_buffer_size as nat,
            throughput_micros_spec(
                old(s).number,
                (now - old(s).window_start) as u64,
            ) as nat,
        ),
{
    let number = s.number;
    match s.on_message(now) {
        Some(elapsed) => reading_csv_line(number, elapsed, rx_buffer_size),
        None => None,
    }
}

/// The callback-variant state: the windowing sampler plus the readings
/// collected so far, owned exclusively by the delivery context.
pub struct CallbackSampler {
    /// The windowing state machine.
    pub sampler: Sampler,
    /// The micro-unit readings collected so far, one per closed window.
    pub readings: Vec<u128>,
}

impl CallbackSampler {
    /// State invariant: the sampler's own invariant, and at most one
    /// collected reading per closed window (a window whose elapsed time the
    /// clock could not resolve yields none).
    pub open spec fn wf(self) -> bool {
        &&& self.sampler.wf()
        &&& self.readings@.len() <= self.sampler.samples_done
    }

    /// A fresh callback sampler with no readings.
    pub fn new(number: u128, samples: u32) -> (r: CallbackSampler)
        ensures
            r.sampler.number == number,
            r.sampler.samples == samples,
            r.sampler.count == 0,
            r.sampler.samples_done == 0,
            r.readings@ == Seq::<u128>::empty(),
            r.wf(),
    {
        CallbackSampler { sampler: Sampler::new(number, samples), readings: Vec::new() }
    }

    /// Whether the sample budget is exhausted.
    pub fn finished(&self) -> (r: bool)
        ensures
            r == self.sampler.finished_spec(),
    {
        self.sampler.finished()
    }

    /// Whether the next message closes a window: the handler pauses briefly
    /// before it, to let messages already in flight settle, so the settling
    /// delay is paid once per window boundary and not per message.
    pub fn needs_settle(&self) -> (r: bool)
        ensures
            r == self.sampler.at_boundary_spec(),
    {
        self.sampler.at_boundary()
    }

    /// Takes one delivered message, stamped `now` by a monotonic clock. At a
    /// window boundary the reading is folded into the collected list and the
    /// per-window line `msg/s: <throughput>` comes back to be printed.
    pub fn on_message(&mut self, now: u64) -> (r: Option<Vec<u8>>)
        requires
            old(self).wf(),
            !old(self).sampler.finished_spec(),
            old(self).sampler.count >= 1 ==> now >= old(self).sampler.window_start,
        ensures
            final(self).wf(),
            final(self).sampler == Sampler::step_spec(old(self).sampler, now),
            r is Some <==> (old(self).sampler.at_boundary_spec() && now > old(
                self,
            ).sampler.window_start && old(self).sampler.number * micro_scale() <= u128::MAX),
            r matches Some(v) ==> ({
                let m = throughput_micros_spec(
                    old(self).sampler.number,
                    (now - old(self).sampler.window_start) as u64,
                );
                &&& v@ == msgs_line_spec(m as nat)
                &&& final(self).readings@ == old(self).readings@.push(m as u128)
            }),
            r is None ==> final(self).readings@ == old(self).readings@,
    {
        let number = self.sampler.number;
        proof {
            lemma_scaled_fits(number);
        }
        match self.sampler.on_message(now) {
            Some(elapsed) => {
                if elapsed > 0 && number <= u128::MAX / 1_000_000_000_000_000 {
                    let micros = throughput_micros(number, elapsed);
                    self.readings.push(micros);
                    Some(msgs_line(micros))
                } else {
                    None
                }
            },
            None => None,
        }
    }

    /// Once the budget is exhausted: the final line
    /// `average msg/s: <average>`, the truncated arithmetic mean of the
    /// collected readings. `None` exactly when no window yielded a reading
    /// or the readings' sum leaves 128 bits.
    pub fn final_average_line(&self) -> (r: Option<Vec<u8>>)
        ensures
            r is Some <==> (self.readings@.len() >= 1 && sum_micros(self.readings@)
                <= u128::MAX),
            r matches Some(v) ==> v@ == average_line_spec(
                (sum_micros(self.readings@) / (self.readings@.len() as int)) as nat,
            ),
    {
        average_stats_line(&self.readings)
    }
}

} // verus!
