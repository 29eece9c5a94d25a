use power_telemetry::cycle::{acquire_reading, cycle_delay_ms, sample_channel, CYCLE_INTERVAL_MS};
use power_telemetry::source::{Channel, ReadError, SampleSource};
use power_telemetry::summary::{MAXIMUM_READING, MINIMUM_READING};

/// A stand-in for the converter: answers read attempts from a fixed script
/// (and fails once the script runs out), while recording which channel each
/// attempt asked for.
struct ScriptedSource {
    script: Vec<Result<i16, ReadError>>,
    attempts: usize,
    requested: Vec<Channel>,
}

impl ScriptedSource {
    fn new(script: Vec<Result<i16, ReadError>>) -> ScriptedSource {
        ScriptedSource { script, attempts: 0, requested: Vec::new() }
    }
}

impl SampleSource for ScriptedSource {
    fn read(&mut self, channel: Channel) -> Result<i16, ReadError> {
        self.requested.push(channel);
        let r = if self.attempts < self.script.len() {
            self.script[self.attempts]
        } else {
            Err(ReadError)
        };
        self.attempts += 1;
        r
    }
}

#[test]
fn burst_of_five_samples_yields_true_envelope() {
    let mut src = ScriptedSource::new(vec![Ok(10), Ok(-3), Ok(7), Ok(10), Ok(-3)]);
    let summary = sample_channel(&mut src, Channel::A0, 5);
    assert_eq!(summary.min, -3);
    assert_eq!(summary.max, 10);
    assert_eq!(summary.difference(), 13);
}

#[test]
fn burst_with_all_reads_failed_stays_at_sentinels() {
    let mut src = ScriptedSource::new(vec![
        Err(ReadError),
        Err(ReadError),
        Err(ReadError),
        Err(ReadError),
        Err(ReadError),
    ]);
    let summary = sample_channel(&mut src, Channel::A2, 5);
    assert_eq!(summary.min, MAXIMUM_READING);
    assert_eq!(summary.max, MINIMUM_READING);
    assert!(summary.is_empty());
    assert!(summary.min > summary.max);
    // The amplitude of the empty envelope is the documented nonsensical
    // negative spread of the sentinels, not a measurement.
    assert_eq!(summary.difference(), -16000);
}

#[test]
fn burst_makes_exactly_n_attempts_despite_failures() {
    let mut src = ScriptedSource::new(vec![
        Ok(4),
        Err(ReadError),
        Ok(-2),
        Err(ReadError),
        Err(ReadError),
        Ok(9),
        Ok(-2),
    ]);
    let summary = sample_channel(&mut src, Channel::A1, 7);
    // No early termination and no retry: seven attempts, all on the one channel.
    assert_eq!(src.attempts, 7);
    assert_eq!(src.requested, vec![Channel::A1; 7]);
    assert_eq!(summary.min, -2);
    assert_eq!(summary.max, 9);
}

#[test]
fn failed_attempt_mid_burst_only_shrinks_the_window() {
    let mut src = ScriptedSource::new(vec![Err(ReadError), Ok(5), Err(ReadError), Ok(2)]);
    let summary = sample_channel(&mut src, Channel::A3, 4);
    assert_eq!(summary.min, 2);
    assert_eq!(summary.max, 5);
    assert_eq!(src.attempts, 4);
}

#[test]
fn empty_burst_leaves_sentinels() {
    let mut src = ScriptedSource::new(vec![]);
    let summary = sample_channel(&mut src, Channel::A0, 0);
    assert_eq!(src.attempts, 0);
    assert_eq!(summary.min, MAXIMUM_READING);
    assert_eq!(summary.max, MINIMUM_READING);
}

#[test]
fn reading_keeps_all_four_channels_in_fixed_order() {
    // Channel A0 healthy, the other three fail on every attempt.
    let mut script = vec![Ok(10), Ok(-3), Ok(7), Ok(10), Ok(-3)];
    script.extend(vec![Err(ReadError); 15]);
    let mut src = ScriptedSource::new(script);
    let reading = acquire_reading(&mut src, 5);

    // All four bursts ran, in channel order, five attempts each.
    assert_eq!(src.attempts, 20);
    let mut expected = vec![Channel::A0; 5];
    expected.extend(vec![Channel::A1; 5]);
    expected.extend(vec![Channel::A2; 5]);
    expected.extend(vec![Channel::A3; 5]);
    assert_eq!(src.requested, expected);

    // The healthy channel carries its envelope; the failed ones their sentinels.
    assert_eq!(reading.a0.min, -3);
    assert_eq!(reading.a0.max, 10);
    assert!(!reading.a0.is_empty());
    for failed in [reading.a1, reading.a2, reading.a3] {
        assert_eq!(failed.min, MAXIMUM_READING);
        assert_eq!(failed.max, MINIMUM_READING);
        assert!(failed.is_empty());
    }
}

#[test]
fn cycle_delay_ignores_transmission_outcome() {
    assert_eq!(cycle_delay_ms(true), CYCLE_INTERVAL_MS);
    assert_eq!(cycle_delay_ms(false), CYCLE_INTERVAL_MS);
    assert_eq!(cycle_delay_ms(false), 2000);
}
