//! Periodic analog-power telemetry: four ADC channels are each sampled in a
//! fixed-size burst, every burst is reduced to a peak-to-peak envelope
//! (lowest and highest sample seen), and the four envelopes are assembled
//! into one reading per cycle for transmission to a collection endpoint.
//!
//! The sampling, aggregation and pacing logic lives here and is verified;
//! the hardware driver, the HTTP transport and the serialization live in the
//! surrounding binary, behind the [`source::SampleSource`] boundary.

pub mod cycle;
pub mod source;
pub mod summary;
