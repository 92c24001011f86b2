//! Running statistics of a session: how many probes went out and the
//! round-trip times of the replies that came back.
//!
//! The model of the accumulator is the number of probes transmitted and the
//! sequence of round-trip samples recorded so far, in milliseconds. Counts,
//! extremes and sums are all stated over that sequence.

use vstd::prelude::*;

verus! {

/// Sum of the samples.
pub open spec fn total(samples: Seq<u64>) -> nat
    decreases samples.len(),
{
    if samples.len() == 0 {
        0
    } else {
        total(samples.drop_last()) + samples.last() as nat
    }
}

/// Sum of the squared samples.
pub open spec fn total_squares(samples: Seq<u64>) -> nat
    decreases samples.len(),
{
    if samples.len() == 0 {
        0
    } else {
        total_squares(samples.drop_last()) + (samples.last() as nat) * (samples.last() as nat)
    }
}

/// `value` occurs among the samples and none is smaller.
pub open spec fn is_least(value: u64, samples: Seq<u64>) -> bool {
    &&& exists|i: int| 0 <= i < samples.len() && samples[i] == value
    &&& forall|i: int| 0 <= i < samples.len() ==> value <= samples[i]
}

/// `value` occurs among the samples and none is larger.
pub open spec fn is_greatest(value: u64, samples: Seq<u64>) -> bool {
    &&& exists|i: int| 0 <= i < samples.len() && samples[i] == value
    &&& forall|i: int| 0 <= i < samples.len() ==> samples[i] <= value
}

/// `root` is the square root of `value`, rounded down.
pub open spec fn is_floor_sqrt(root: nat, value: nat) -> bool {
    root * root <= value < (root + 1) * (root + 1)
}

/// The least of the samples, where there is one.
pub open spec fn least(samples: Seq<u64>) -> u64 {
    choose|value: u64| is_least(value, samples)
}

/// The greatest of the samples, where there is one.
pub open spec fn greatest(samples: Seq<u64>) -> u64 {
    choose|value: u64| is_greatest(value, samples)
}

/// The square root of `value`, rounded down.
pub open spec fn floor_sqrt(value: nat) -> nat {
    choose|root: nat| is_floor_sqrt(root, value)
}

/// What a session has counted: probes sent, and one sample per reply.
#[verifier::ext_equal]
pub struct StatisticsModel {
    pub transmitted: nat,
    pub samples: Seq<u64>,
}

/// The figures of the closing report, present once a reply has been recorded.
///
/// `mean` and `spread` are rounded down to whole milliseconds; `sum`,
/// `sum_squares` and `samples` are exact, for a caller that wants fractions.
#[derive(Clone, Copy, Debug, PartialEq, Eq, Structural)]
pub struct RoundTripSummary {
    pub min: u64,
    pub max: u64,
    pub mean: u64,
    pub spread: u64,
    pub sum: u128,
    pub sum_squares: u128,
    pub samples: u64,
}

impl StatisticsModel {
    /// Nothing sent, nothing received.
    pub open spec fn empty() -> Self {
        StatisticsModel { transmitted: 0, samples: Seq::empty() }
    }

    /// The number of replies recorded.
    pub open spec fn received(self) -> nat {
        self.samples.len()
    }

    /// Probes without a reply; duplicates can make the replies outnumber the
    /// probes, and the loss is then zero.
    pub open spec fn loss(self) -> nat {
        if self.transmitted >= self.received() {
            (self.transmitted - self.received()) as nat
        } else {
            0
        }
    }

    /// Loss in whole percent of the probes transmitted, rounded down.
    pub open spec fn loss_percentage(self) -> nat
        recommends
            self.transmitted > 0,
    {
        self.loss() * 100 / self.transmitted
    }

    /// The counters have room for one more sample of `round_trip_ms`.
    pub open spec fn can_record(self, round_trip_ms: u64) -> bool {
        &&& self.received() < u64::MAX
        &&& total_squares(self.samples) + round_trip_ms * round_trip_ms <= u128::MAX
    }

    /// The same count of probes, and one more sample behind the others.
    pub open spec fn with_sample(self, round_trip_ms: u64) -> Self {
        StatisticsModel { transmitted: self.transmitted, samples: self.samples.push(round_trip_ms) }
    }

    /// One more probe, and the same samples.
    pub open spec fn with_transmission(self) -> Self {
        StatisticsModel { transmitted: self.transmitted + 1, samples: self.samples }
    }

    /// The closing figures: the least and the greatest sample, the mean
    /// `sum / received` and the root of the mean square
    /// `sqrt(sum_squares / received)`, both rounded down, and the exact sums.
    /// There are none before the first reply.
    pub open spec fn summary(self) -> Option<RoundTripSummary> {
        if self.received() == 0 {
            None
        } else {
            Some(
                RoundTripSummary {
                    min: least(self.samples),
                    max: greatest(self.samples),
                    mean: (total(self.samples) / self.received()) as u64,
                    spread: floor_sqrt(total_squares(self.samples) / self.received()) as u64,
                    sum: total(self.samples) as u128,
                    sum_squares: total_squares(self.samples) as u128,
                    samples: self.received() as u64,
                },
            )
        }
    }
}

/// Only one value is the least of the samples.
pub proof fn lemma_least_is_unique(value: u64, samples: Seq<u64>)
    requires
        is_least(value, samples),
    ensures
        least(samples) == value,
{
    let chosen = least(samples);
    assert(is_least(chosen, samples));
    let at_value = choose|i: int| 0 <= i < samples.len() && samples[i] == value;
    let at_chosen = choose|i: int| 0 <= i < samples.len() && samples[i] == chosen;
    assert(chosen <= samples[at_value]);
    assert(value <= samples[at_chosen]);
}

/// Only one value is the greatest of the samples.
pub proof fn lemma_greatest_is_unique(value: u64, samples: Seq<u64>)
    requires
        is_greatest(value, samples),
    ensures
        greatest(samples) == value,
{
    let chosen = greatest(samples);
    assert(is_greatest(chosen, samples));
    let at_value = choose|i: int| 0 <= i < samples.len() && samples[i] == value;
    let at_chosen = choose|i: int| 0 <= i < samples.len() && samples[i] == chosen;
    assert(samples[at_value] <= chosen);
    assert(samples[at_chosen] <= value);
}

/// Only one number is the rounded-down square root of `value`.
pub proof fn lemma_floor_sqrt_is_unique(root: nat, value: nat)
    requires
        is_floor_sqrt(root, value),
    ensures
        floor_sqrt(value) == root,
{
    let chosen = floor_sqrt(value);
    assert(is_floor_sqrt(chosen, value));
    assert(chosen == root) by (nonlinear_arith)
        requires
            root * root <= value < (root + 1) * (root + 1),
            chosen * chosen <= value < (chosen + 1) * (chosen + 1),
    ;
}

/// No sample exceeds 64 bits, so their sum grows by less than `2^64` a sample.
pub proof fn lemma_total_bound(samples: Seq<u64>)
    ensures
        total(samples) <= samples.len() * u64::MAX,
    decreases samples.len(),
{
    if samples.len() > 0 {
        lemma_total_bound(samples.drop_last());
    }
}

/// Samples below a common limit keep the sum of their squares below the
/// count times the limit squared.
pub proof fn lemma_total_squares_bound(samples: Seq<u64>, limit: nat)
    requires
        forall|i: int| 0 <= i < samples.len() ==> samples[i] <= limit,
    ensures
        total_squares(samples) <= samples.len() * (limit * limit),
    decreases samples.len(),
{
    if samples.len() > 0 {
        let front = samples.drop_last();
        let last = samples.last() as nat;
        lemma_total_squares_bound(front, limit);
        assert(last * last <= limit * limit) by (nonlinear_arith)
            requires
                last <= limit,
        ;
        assert(samples.len() * (limit * limit) == front.len() * (limit * limit) + limit * limit)
            by (nonlinear_arith)
            requires
                samples.len() == front.len() + 1,
        ;
    }
}

/// Computes the square root of `value`, rounded down, by bisection.
fn integer_sqrt(value: u128) -> (root: u64)
    ensures
        root == floor_sqrt(value as nat),
{
    let mut low: u128 = 0;
    let mut high: u128 = 0x1_0000_0000_0000_0000;
    while high - low > 1
        invariant
            low < high <= 0x1_0000_0000_0000_0000,
            low * low <= value,
            value < high * high,
        decreases high - low,
    {
        let mid: u128 = low + (high - low) / 2;
        assert(mid * mid <= 0xffff_ffff_ffff_ffff * 0xffff_ffff_ffff_ffff) by (nonlinear_arith)
            requires
                mid <= 0xffff_ffff_ffff_ffff,
        ;
        if mid * mid <= value {
            low = mid;
        } else {
            high = mid;
        }
    }
    proof {
        lemma_floor_sqrt_is_unique(low as nat, value as nat);
    }
    low as u64
}

/// The accumulator of a session.
pub struct RunningStatistics {
    transmitted: u64,
    received: u64,
    min: u64,
    max: u64,
    sum: u128,
    sum_squares: u128,
    log: Ghost<Seq<u64>>,
}

impl View for RunningStatistics {
    type V = StatisticsModel;

    closed spec fn view(&self) -> StatisticsModel {
        StatisticsModel { transmitted: self.transmitted as nat, samples: self.log@ }
    }
}

impl RunningStatistics {
    #[verifier::type_invariant]
    spec fn consistent(self) -> bool {
        let samples = self.log@;
        &&& self.received == samples.len()
        &&& self.sum == total(samples)
        &&& self.sum_squares == total_squares(samples)
        &&& samples.len() == 0 ==> self.min == u64::MAX && self.max == 0
        &&& samples.len() > 0 ==> is_least(self.min, samples) && is_greatest(self.max, samples)
    }

    /// An accumulator that has seen nothing.
    pub fn new() -> (stats: Self)
        ensures
            stats@ == StatisticsModel::empty(),
    {
        RunningStatistics {
            transmitted: 0,
            received: 0,
            min: u64::MAX,
            max: 0,
            sum: 0,
            sum_squares: 0,
            log: Ghost(Seq::empty()),
        }
    }

    /// Number of probes counted as transmitted.
    pub fn transmitted(&self) -> (count: u64)
        ensures
            count == self@.transmitted,
    {
        self.transmitted
    }

    /// Number of replies recorded.
    pub fn received(&self) -> (count: u64)
        ensures
            count == self@.received(),
    {
        proof {
            use_type_invariant(self);
        }
        self.received
    }

    /// Counts one more probe as transmitted.
    pub fn record_transmission(&mut self)
        requires
            old(self)@.transmitted < u64::MAX,
        ensures
            final(self)@ == old(self)@.with_transmission(),
    {
        proof {
            use_type_invariant(&*self);
        }
        *self = RunningStatistics {
            transmitted: self.transmitted + 1,
            received: self.received,
            min: self.min,
            max: self.max,
            sum: self.sum,
            sum_squares: self.sum_squares,
            log: self.log,
        };
    }

    /// Tells whether the counters have room for a sample of `round_trip_ms`.
    pub fn has_room(&self, round_trip_ms: u64) -> (room: bool)
        ensures
            room == self@.can_record(round_trip_ms),
    {
        proof {
            use_type_invariant(self);
        }
        assert(round_trip_ms * round_trip_ms <= u128::MAX) by (nonlinear_arith)
            requires
                round_trip_ms <= u64::MAX,
        ;
        let square: u128 = round_trip_ms as u128 * round_trip_ms as u128;
        self.received < u64::MAX && self.sum_squares.checked_add(square).is_some()
    }

    /// Records the round-trip time of one accepted reply.
    pub fn record(&mut self, round_trip_ms: u64)
        requires
            old(self)@.can_record(round_trip_ms),
        ensures
            final(self)@ == old(self)@.with_sample(round_trip_ms),
    {
        proof {
            use_type_invariant(&*self);
            lemma_total_bound(self.log@);
        }
        let ghost before = self.log@;
        let ghost after = before.push(round_trip_ms);
        let min = if round_trip_ms < self.min {
            round_trip_ms
        } else {
            self.min
        };
        let max = if round_trip_ms > self.max {
            round_trip_ms
        } else {
            self.max
        };
        proof {
            assert(after.drop_last() =~= before);
            assert(after[before.len() as int] == round_trip_ms);
            if before.len() > 0 {
                let at_min = choose|i: int| 0 <= i < before.len() && before[i] == self.min;
                let at_max = choose|i: int| 0 <= i < before.len() && before[i] == self.max;
                assert(after[at_min] == self.min);
                assert(after[at_max] == self.max);
            }
            assert(is_least(min, after));
            assert(is_greatest(max, after));
        }
        *self = RunningStatistics {
            transmitted: self.transmitted,
            received: self.received + 1,
            min,
            max,
            sum: self.sum + round_trip_ms as u128,
            sum_squares: self.sum_squares + round_trip_ms as u128 * round_trip_ms as u128,
            log: Ghost(after),
        };
    }

    /// Probes that no reply has answered, never negative.
    pub fn loss(&self) -> (lost: u64)
        ensures
            lost == self@.loss(),
    {
        proof {
            use_type_invariant(self);
        }
        if self.received <= self.transmitted {
            self.transmitted - self.received
        } else {
            0
        }
    }

    /// Loss in whole percent, defined once a probe has been transmitted.
    pub fn loss_percentage(&self) -> (percentage: Option<u64>)
        ensures
            self@.transmitted == 0 ==> percentage.is_none(),
            self@.transmitted > 0 ==> percentage == Some(self@.loss_percentage() as u64),
            self@.transmitted > 0 ==> self@.loss_percentage() <= 100,
    {
        if self.transmitted == 0 {
            None
        } else {
            let lost: u128 = self.loss() as u128;
            let sent: u128 = self.transmitted as u128;
            assert(lost * 100 / (sent as int) <= 100) by (nonlinear_arith)
                requires
                    0 <= lost <= sent,
                    sent > 0,
            ;
            Some((lost * 100 / sent) as u64)
        }
    }

    /// The closing figures, once at least one reply has been recorded.
    pub fn summary(&self) -> (summary: Option<RoundTripSummary>)
        ensures
            summary == self@.summary(),
    {
        proof {
            use_type_invariant(self);
            lemma_total_bound(self.log@);
        }
        if self.received == 0 {
            None
        } else {
            proof {
                lemma_least_is_unique(self.min, self.log@);
                lemma_greatest_is_unique(self.max, self.log@);
            }
            let count: u128 = self.received as u128;
            assert(self.sum / count <= u64::MAX) by (nonlinear_arith)
                requires
                    self.sum <= count * u64::MAX,
                    count > 0,
            ;
            Some(
                RoundTripSummary {
                    min: self.min,
                    max: self.max,
                    mean: (self.sum / count) as u64,
                    spread: integer_sqrt(self.sum_squares / count),
                    sum: self.sum,
                    sum_squares: self.sum_squares,
                    samples: self.received,
                },
            )
        }
    }
}

} // verus!
