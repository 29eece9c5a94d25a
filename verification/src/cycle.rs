//! The channel sampler and the cycle pacing rule.

use vstd::prelude::*;

use crate::source::{Channel, SampleSource};
use crate::summary::{ChannelPowerReading, PowerReading, MAXIMUM_READING, MINIMUM_READING};

verus! {

/// How many read attempts one burst makes on one channel.
pub const SAMPLES_PER_CHANNEL: usize = 125;

/// How long the orchestrator pauses after each transmission attempt, in
/// milliseconds.
pub const CYCLE_INTERVAL_MS: u64 = 2000;

/// The samples that succeeded among a window's read outcomes, in order.
pub open spec fn successful_samples(outcomes: Seq<Option<i16>>) -> Seq<i16>
    decreases outcomes.len(),
{
    if outcomes.len() == 0 {
        Seq::empty()
    } else {
        let rest = successful_samples(outcomes.drop_last());
        match outcomes.last() {
            Some(v) => rest.push(v),
            None => rest,
        }
    }
}

/// The `min` bound an envelope holds after folding the given outcomes into a
/// fresh summary: the sentinel `MAXIMUM_READING` lowered by every successful
/// sample.
pub open spec fn burst_min(outcomes: Seq<Option<i16>>) -> i16
    decreases outcomes.len(),
{
    if outcomes.len() == 0 {
        MAXIMUM_READING
    } else {
        let rest = burst_min(outcomes.drop_last());
        match outcomes.last() {
            Some(v) => crate::summary::lower_bound(rest, v),
            None => rest,
        }
    }
}

/// The `max` bound an envelope holds after folding the given outcomes into a
/// fresh summary: the sentinel `MINIMUM_READING` raised by every successful
/// sample.
pub open spec fn burst_max(outcomes: Seq<Option<i16>>) -> i16
    decreases outcomes.len(),
{
    if outcomes.len() == 0 {
        MINIMUM_READING
    } else {
        let rest = burst_max(outcomes.drop_last());
        match outcomes.last() {
            Some(v) => crate::summary::upper_bound(rest, v),
            None => rest,
        }
    }
}

/// If every attempt in a window failed, the folded bounds still sit at the
/// inverted sentinels: the summary is in its empty state, distinguishable by
/// `min > max`, and never mistaken for a measured envelope.
pub proof fn lemma_all_failed_burst_is_sentinel(outcomes: Seq<Option<i16>>)
    requires
        successful_samples(outcomes).len() == 0,
    ensures
        burst_min(outcomes) == MAXIMUM_READING,
        burst_max(outcomes) == MINIMUM_READING,
    decreases outcomes.len(),
{
    if outcomes.len() > 0 {
        lemma_all_failed_burst_is_sentinel(outcomes.drop_last());
    }
}

/// The folded `min` never exceeds any successful sample and the folded `max`
/// never falls below one; and each folded bound is either a successful
/// sample itself or its untouched sentinel.
pub proof fn lemma_burst_bounds(outcomes: Seq<Option<i16>>)
    ensures
        forall|i: int|
            0 <= i < successful_samples(outcomes).len() ==> burst_min(outcomes)
                <= #[trigger] successful_samples(outcomes)[i],
        forall|i: int|
            0 <= i < successful_samples(outcomes).len() ==> burst_max(outcomes)
                >= #[trigger] successful_samples(outcomes)[i],
        burst_min(outcomes) == MAXIMUM_READING || successful_samples(outcomes).contains(
            burst_min(outcomes),
        ),
        burst_max(outcomes) == MINIMUM_READING || successful_samples(outcomes).contains(
            burst_max(outcomes),
        ),
    decreases outcomes.len(),
{
    if outcomes.len() > 0 {
        lemma_burst_bounds(outcomes.drop_last());
        let rest = successful_samples(outcomes.drop_last());
        let s = successful_samples(outcomes);
        match outcomes.last() {
            Some(v) => {
                assert(s == rest.push(v));
                assert forall|i: int| 0 <= i < s.len() implies burst_min(outcomes) <= s[i]
                    && burst_max(outcomes) >= s[i] by {
                    if i < rest.len() {
                        assert(s[i] == rest[i]);
                    } else {
                        assert(s[i] == v);
                    }
                }
                if burst_min(outcomes) == v {
                    assert(s.contains(burst_min(outcomes))) by {
                        assert(s[s.len() - 1] == v);
                    }
                } else if burst_min(outcomes) != MAXIMUM_READING {
                    let j = choose|j: int| 0 <= j < rest.len() && rest[j] == burst_min(outcomes);
                    assert(s.contains(burst_min(outcomes))) by {
                        assert(s[j] == rest[j]);
                    }
                }
                if burst_max(outcomes) == v {
                    assert(s.contains(burst_max(outcomes))) by {
                        assert(s[s.len() - 1] == v);
                    }
                } else if burst_max(outcomes) != MINIMUM_READING {
                    let j = choose|j: int| 0 <= j < rest.len() && rest[j] == burst_max(outcomes);
                    assert(s.contains(burst_max(outcomes))) by {
                        assert(s[j] == rest[j]);
                    }
                }
            },
            None => {},
        }
    }
}

/// Over any window in which at least one attempt succeeded and every
/// successful sample lies within the measurement range, the folded `min` is
/// the true minimum of the successful samples and the folded `max` their
/// true maximum: each bound is itself one of the samples, and no sample lies
/// beyond it.
pub proof fn lemma_burst_bounds_are_true_extremes(outcomes: Seq<Option<i16>>)
    requires
        successful_samples(outcomes).len() > 0,
        forall|i: int|
            0 <= i < successful_samples(outcomes).len() ==> MINIMUM_READING
                <= #[trigger] successful_samples(outcomes)[i] <= MAXIMUM_READING,
    ensures
        successful_samples(outcomes).contains(burst_min(outcomes)),
        forall|i: int|
            0 <= i < successful_samples(outcomes).len() ==> burst_min(outcomes)
                <= #[trigger] successful_samples(outcomes)[i],
        successful_samples(outcomes).contains(burst_max(outcomes)),
        forall|i: int|
            0 <= i < successful_samples(outcomes).len() ==> burst_max(outcomes)
                >= #[trigger] successful_samples(outcomes)[i],
{
    lemma_burst_bounds(outcomes);
    let s = successful_samples(outcomes);
    if burst_min(outcomes) == MAXIMUM_READING {
        assert(s.contains(burst_min(outcomes))) by {
            assert(s[0] == burst_min(outcomes));
        }
    }
    if burst_max(outcomes) == MINIMUM_READING {
        assert(s.contains(burst_max(outcomes))) by {
            assert(s[0] == burst_max(outcomes));
        }
    }
}

/// The outcome column of a read log.
pub open spec fn outcomes_of(log: Seq<(Channel, Option<i16>)>) -> Seq<Option<i16>> {
    log.map_values(|e: (Channel, Option<i16>)| e.1)
}

/// One sampling burst on one channel: opens a fresh envelope, makes exactly
/// `burst` read attempts, folds in every sample that arrives and skips every
/// failure. A failed attempt never aborts the burst and is never retried, so
/// the source's log grows by exactly `burst` entries, all on `channel`, and
/// the envelope's bounds are the fold of precisely those outcomes: if every
/// attempt failed they still sit at the inverted sentinels.
pub fn sample_channel<S: SampleSource>(
    source: &mut S,
    channel: Channel,
    burst: usize,
) -> (r: ChannelPowerReading)
    ensures
        final(source).log().len() == old(source).log().len() + burst,
        forall|i: int|
            0 <= i < old(source).log().len() ==> final(source).log()[i] == old(source).log()[i],
        forall|i: int|
            old(source).log().len() <= i < final(source).log().len()
                ==> (#[trigger] final(source).log()[i]).0 == channel,
        r.min == burst_min(outcomes_of(final(source).log().skip(old(source).log().len() as int))),
        r.max == burst_max(outcomes_of(final(source).log().skip(old(source).log().len() as int))),
{
    let ghost base = source.log();
    let mut reading = ChannelPowerReading::new();
    let mut attempts: usize = 0;
    while attempts < burst
        invariant
            attempts <= burst,
            source.log().len() == base.len() + attempts,
            forall|i: int| 0 <= i < base.len() ==> source.log()[i] == base[i],
            forall|i: int|
                base.len() <= i < source.log().len() ==> (#[trigger] source.log()[i]).0 == channel,
            reading.min == burst_min(outcomes_of(source.log().skip(base.len() as int))),
            reading.max == burst_max(outcomes_of(source.log().skip(base.len() as int))),
        decreases burst - attempts,
    {
        let ghost pre = source.log();
        let value = source.read(channel);
        proof {
            let entry = (channel, crate::source::outcome_of(value));
            let before = outcomes_of(pre.skip(base.len() as int));
            let after = outcomes_of(source.log().skip(base.len() as int));
            assert(source.log().skip(base.len() as int) =~= pre.skip(base.len() as int).push(
                entry,
            ));
            assert(after =~= before.push(entry.1));
            assert(after.drop_last() =~= before);
        }
        match value {
            Ok(v) => reading.add_sample(v),
            Err(_) => {},
        }
        attempts = attempts + 1;
    }
    reading
}

/// One window of the log is a burst on `channel` whose outcomes fold to the
/// bounds that the envelope `s` carries.
pub open spec fn burst_section(
    log: Seq<(Channel, Option<i16>)>,
    base: int,
    burst: int,
    channel: Channel,
    s: ChannelPowerReading,
) -> bool {
    &&& forall|i: int| base <= i < base + burst ==> (#[trigger] log[i]).0 == channel
    &&& s.min == burst_min(outcomes_of(log.subrange(base, base + burst)))
    &&& s.max == burst_max(outcomes_of(log.subrange(base, base + burst)))
}

/// One acquisition pass: the four channels are sampled strictly one after
/// the other, each with a full burst of `burst` attempts, and the four
/// envelopes are assembled positionally — the log grows by exactly four
/// bursts, laid out in fixed channel order, however many attempts failed.
pub fn acquire_reading<S: SampleSource>(source: &mut S, burst: usize) -> (r: PowerReading)
    ensures
        final(source).log().len() == old(source).log().len() + 4 * burst,
        forall|i: int|
            0 <= i < old(source).log().len() ==> final(source).log()[i] == old(source).log()[i],
        burst_section(
            final(source).log(),
            old(source).log().len() as int,
            burst as int,
            Channel::A0,
            r.a0,
        ),
        burst_section(
            final(source).log(),
            old(source).log().len() + burst,
            burst as int,
            Channel::A1,
            r.a1,
        ),
        burst_section(
            final(source).log(),
            old(source).log().len() + 2 * burst,
            burst as int,
            Channel::A2,
            r.a2,
        ),
        burst_section(
            final(source).log(),
            old(source).log().len() + 3 * burst,
            burst as int,
            Channel::A3,
            r.a3,
        ),
{
    let ghost base = source.log();
    let a0 = sample_channel(source, Channel::A0, burst);
    let ghost log0 = source.log();
    let a1 = sample_channel(source, Channel::A1, burst);
    let ghost log1 = source.log();
    let a2 = sample_channel(source, Channel::A2, burst);
    let ghost log2 = source.log();
    let a3 = sample_channel(source, Channel::A3, burst);
    proof {
        let b = base.len() as int;
        let n = burst as int;
        let lf = source.log();
        assert(lf.subrange(b, b + n) =~= log0.skip(b));
        assert(lf.subrange(b + n, b + 2 * n) =~= log1.skip(b + n));
        assert(lf.subrange(b + 2 * n, b + 3 * n) =~= log2.skip(b + 2 * n));
        assert(lf.subrange(b + 3 * n, b + 4 * n) =~= lf.skip(b + 3 * n));
    }
    PowerReading::new(a0, a1, a2, a3)
}

/// Pacing rule: the delay before the next cycle is the fixed interval,
/// whatever became of the transmission. A failed delivery neither delays nor
/// skips the following cycle.
pub fn cycle_delay_ms(_transmission_succeeded: bool) -> (d: u64)
    ensures
        d == CYCLE_INTERVAL_MS,
{
    CYCLE_INTERVAL_MS
}

} // verus!
