//! The windowed throughput sampler.
//!
//! A window is `number` received messages. The first message of a window
//! captures the window's start timestamp; the message that arrives once the
//! count has reached `number` closes the window (it is not counted in it: it
//! starts the next one) and yields one reading, the elapsed nanoseconds
//! between the window's first message and the closing message. After
//! `samples` readings the sampler is finished and takes no more messages.
//!
//! The same state machine drives both delivery modes: the blocking variant
//! pulls messages one at a time and feeds them in, the callback variant feeds
//! one message per delivery callback. Timestamps come from a monotonic clock,
//! so they never decrease from one message to the next.

use vstd::prelude::*;

verus! {

use vstd::arithmetic::div_mod::lemma_fundamental_div_mod_converse;

/// Sampler state: the current window's count and start timestamp, and how
/// many readings have been taken.
pub struct Sampler {
    /// Messages per window.
    pub number: u128,
    /// Windows to measure before finishing.
    pub samples: u32,
    /// Messages counted in the current window so far.
    pub count: u128,
    /// Monotonic timestamp, in nanoseconds, of the first message of the
    /// current window; meaningful only while `count >= 1`.
    pub window_start: u64,
    /// Readings taken so far.
    pub samples_done: u32,
}

impl Sampler {
    /// The largest value `count` can reach before a message closes the
    /// window: `number`, except that with `number == 0` the first message of
    /// a window is still counted once.
    pub open spec fn count_cap(self) -> u128 {
        if self.number == 0 {
            1u128
        } else {
            self.number
        }
    }

    /// State invariant: the count never exceeds the window size before a
    /// reading is taken, and no more than `samples` readings are ever taken.
    pub open spec fn wf(self) -> bool {
        &&& self.count <= self.count_cap()
        &&& self.samples_done <= self.samples
    }

    /// The sample budget is exhausted: no more messages are taken.
    pub open spec fn finished_spec(self) -> bool {
        self.samples_done >= self.samples
    }

    /// The next message will close the current window and yield a reading.
    pub open spec fn at_boundary_spec(self) -> bool {
        self.count != 0 && self.count >= self.number
    }

    /// A fresh sampler: empty window, no readings taken.
    pub fn new(number: u128, samples: u32) -> (r: Sampler)
        ensures
            r.number == number,
            r.samples == samples,
            r.count == 0,
            r.samples_done == 0,
            r.wf(),
    {
        Sampler { number, samples, count: 0, window_start: 0, samples_done: 0 }
    }

    /// Whether the sample budget is exhausted.
    pub fn finished(&self) -> (r: bool)
        ensures
            r == self.finished_spec(),
    {
        self.samples_done >= self.samples
    }

    /// Whether the next message will close the current window. The callback
    /// variant asks this before reading the clock, to pay its settling delay
    /// only at a window boundary.
    pub fn at_boundary(&self) -> (r: bool)
        ensures
            r == self.at_boundary_spec(),
    {
        self.count != 0 && self.count >= self.number
    }

    /// The sampler state after one delivered message stamped `now`: the
    /// first message of a window starts it, a message inside the window only
    /// counts, and a message at the boundary closes the window.
    pub open spec fn step_spec(pre: Sampler, now: u64) -> Sampler {
        if pre.count == 0 {
            (Sampler { count: 1u128, window_start: now, ..pre })
        } else if pre.count < pre.number {
            (Sampler { count: (pre.count + 1) as u128, ..pre })
        } else {
            (Sampler { count: 0u128, samples_done: (pre.samples_done + 1) as u32, ..pre })
        }
    }

    /// The reading yielded by one delivered message stamped `now`: the
    /// elapsed nanoseconds since the window start, exactly at a boundary.
    pub open spec fn step_reading_spec(pre: Sampler, now: u64) -> Option<u64> {
        if pre.at_boundary_spec() {
            Some((now - pre.window_start) as u64)
        } else {
            None
        }
    }

    /// Takes one delivered message, stamped `now` by a monotonic clock.
    ///
    /// The first message of a window starts it: the count becomes 1 and `now`
    /// becomes the window start. A message inside the window only counts.
    /// A message at the boundary closes the window: the count resets to 0,
    /// one more reading is done, and the elapsed nanoseconds since the window
    /// start are returned; the closing message itself is not counted in the
    /// window it closes. A reading is returned if and only if the sampler was
    /// at a boundary.
    pub fn on_message(&mut self, now: u64) -> (r: Option<u64>)
        requires
            old(self).wf(),
            !old(self).finished_spec(),
            old(self).count >= 1 ==> now >= old(self).window_start,
        ensures
            final(self).wf(),
            *final(self) == Sampler::step_spec(*old(self), now),
            r == Sampler::step_reading_spec(*old(self), now),
            r is Some <==> old(self).at_boundary_spec(),
    {
        if self.count == 0 {
            self.window_start = now;
            self.count = 1;
            None
        } else if self.count < self.number {
            self.count = self.count + 1;
            None
        } else {
            let elapsed: u64 = now - self.window_start;
            self.samples_done = self.samples_done + 1;
            self.count = 0;
            Some(elapsed)
        }
    }
}

/// Replays a sequence of message-arrival timestamps through a fresh sampler,
/// exactly as the blocking receive loop does, and collects the readings.
///
/// With `number` messages per window, each complete window consumes
/// `number + 1` arrivals: the window's own `number` messages and the closing
/// message that starts the next window. So reading `k` spans arrivals
/// `k * (number + 1)` (the window's first message) through
/// `k * (number + 1) + number` (the closing message), and its value is the
/// elapsed time between those two arrivals. Exactly
/// `min(samples, arrivals / (number + 1))` readings come out: the sample
/// budget stops the replay, and a trailing incomplete window yields nothing.
pub fn run_sampler(number: u128, samples: u32, arrivals: &Vec<u64>) -> (readings: Vec<u64>)
    requires
        number >= 1,
        forall|i: int, j: int|
            0 <= i <= j < arrivals@.len() ==> arrivals@[i] <= arrivals@[j],
    ensures
        readings@.len() == vstd::math::min(
            samples as int,
            (arrivals@.len() as int) / (number as int + 1),
        ),
        forall|k: int| 0 <= k < readings@.len() ==> #[trigger] readings@[k] == (
        arrivals@[k * (number as int + 1) + number as int] - arrivals@[k * (number as int + 1)]),
{
    let mut s = Sampler::new(number, samples);
    let mut readings: Vec<u64> = Vec::new();
    let mut i: usize = 0;
    while i < arrivals.len() && !s.finished()
        invariant
            s.wf(),
            s.number == number,
            s.samples == samples,
            number >= 1,
            i <= arrivals@.len(),
            forall|p: int, q: int|
                0 <= p <= q < arrivals@.len() ==> arrivals@[p] <= arrivals@[q],
            readings@.len() == s.samples_done as int,
            s.count == 0 ==> i as int == (s.samples_done as int) * (number as int + 1),
            s.count >= 1 ==> {
                &&& i as int == (s.samples_done as int) * (number as int + 1) + s.count as int
                &&& (s.samples_done as int) * (number as int + 1) < arrivals@.len()
                &&& s.window_start == arrivals@[(s.samples_done as int) * (number as int + 1)]
            },
            forall|k: int| 0 <= k < readings@.len() ==> #[trigger] readings@[k] == (
            arrivals@[k * (number as int + 1) + number as int] - arrivals@[k * (number as int
                + 1)]),
        decreases arrivals@.len() - i,
    {
        let ghost pre = s;
        let ghost w: int = (s.samples_done as int) * (number as int + 1);
        let r = s.on_message(arrivals[i]);
        proof {
            if pre.count >= 1 {
                assert(arrivals@[w] <= arrivals@[i as int]);
            }
        }
        match r {
            Some(elapsed) => {
                proof {
                    assert((pre.samples_done as int + 1) * (number as int + 1) == (
                    pre.samples_done as int) * (number as int + 1) + (number as int + 1))
                        by (nonlinear_arith);
                }
                readings.push(elapsed);
            },
            None => {},
        }
        i = i + 1;
    }
    proof {
        let n1 = number as int + 1;
        let len = arrivals@.len() as int;
        let done = s.samples_done as int;
        if s.finished_spec() {
            // the budget stopped the replay: `samples` complete windows fit
            assert(done * n1 <= len);
            assert(len / n1 >= done) by {
                vstd::arithmetic::div_mod::lemma_div_is_ordered(done * n1, len, n1);
                vstd::arithmetic::div_mod::lemma_div_by_multiple(done, n1);
            };
        } else {
            // the arrivals ran out inside window `done`
            assert(i as int == len);
            assert(len == done * n1 + s.count as int);
            assert(0 <= s.count as int && (s.count as int) < n1);
            lemma_fundamental_div_mod_converse(len, n1, done, s.count as int);
        }
    }
    readings
}

} // verus!
