//! The parameters fixed at build time, gathered in one immutable structure.
use vstd::prelude::*;
use crate::sensor::{Address, Axis, GyroRange};

verus! {

/// Bus clock in kHz.
pub const BUS_KHZ: u32 = 100;

/// Pause between two samples, in milliseconds.
pub const SAMPLE_DELAY_MS: u32 = 100;

/// Pause before a failed read is tried again, in milliseconds.
pub const RETRY_DELAY_MS: u32 = 10;

/// Everything the firmware is configured with. It never changes once the
/// firmware has started.
#[derive(Clone, Copy, Debug, PartialEq, Eq, Structural)]
pub struct Config {
    /// Clock of the two-wire bus, in kHz.
    pub bus_khz: u32,
    /// Bus address the device is strapped to.
    pub address: Address,
    /// Measurement range written to the device at boot.
    pub range: GyroRange,
    /// The axis whose rate is emitted; the other two are discarded.
    pub axis: Axis,
    /// Pause after each emission, in milliseconds.
    pub delay_ms: u32,
    /// How many failed reads in a row are tried again before the firmware
    /// halts; zero halts on the first failure.
    pub read_retries: u32,
    /// Pause before a failed read is tried again, in milliseconds.
    pub retry_delay_ms: u32,
}

impl Config {
    /// The board's configuration: primary address, the 250 deg/s range,
    /// the y axis (the steering tilt), and a halt on the first failed read.
    pub fn standard() -> (c: Config)
        ensures
            c.bus_khz == BUS_KHZ,
            c.address == Address::Primary,
            c.range == GyroRange::Deg250,
            c.axis == Axis::Y,
            c.delay_ms == SAMPLE_DELAY_MS,
            c.read_retries == 0,
            c.retry_delay_ms == RETRY_DELAY_MS,
    {
        Config {
            bus_khz: BUS_KHZ,
            address: Address::Primary,
            range: GyroRange::Deg250,
            axis: Axis::Y,
            delay_ms: SAMPLE_DELAY_MS,
            read_retries: 0,
            retry_delay_ms: RETRY_DELAY_MS,
        }
    }
}

} // verus!
