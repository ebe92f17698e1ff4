//! Monotonic nanosecond timestamps derived from a free-running hardware
//! counter, and the decisions behind a high-precision sleep-until-deadline
//! primitive built on coarse native delays.
//!
//! The library computes and decides; it performs no native call. Its caller
//! reads the counter, looks symbols up and blocks, and hands over what it
//! read or found as plain values.

pub mod backend;
pub mod sleep;
pub mod timebase;

pub use backend::{begin_detection, select_backend, DelayBackend, Detection, Lookup};
pub use sleep::{
    sleep_until, to_relative_delay, SleepAction, SleepPhase, SleepUntil, DELAY_UNIT,
    MIN_SPIN_PERIOD,
};
pub use timebase::{
    timestamp_from_qpc, timestamp_from_vulkan, timestamp_now, CounterFrequency, Timestamp,
    NANOS_PER_SECOND,
};
