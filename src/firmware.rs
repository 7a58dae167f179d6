//! The firmware's decisions: boot, then sample forever, or halt.
//!
//! The firmware never touches the hardware itself. It hands out one
//! [`Action`] at a time; whoever drives it performs the action and reports
//! the outcome as an [`Event`], which decides the next action.
use vstd::prelude::*;
use crate::config::Config;
use crate::rate::{deg_to_rad, rad_of};
use crate::sensor::{Address, GyroRange, Sample};

verus! {

/// Why the firmware halted.
#[derive(Clone, Copy, Debug, PartialEq, Eq, Structural)]
pub enum Fault {
    /// The bus could not be set up (wiring or peripheral claim).
    BusConstruction,
    /// The device did not answer the handshake at its address.
    DeviceNotFound,
    /// The device rejected the range configuration.
    Configuration,
    /// A sample could not be read, and no retry was left.
    Read,
}

/// What the driver of the firmware is asked to do next.
#[derive(Clone, Copy, Debug, PartialEq, Eq, Structural)]
pub enum Action {
    /// Set up the bus at this clock, in kHz.
    OpenBus(u32),
    /// Construct the device driver at this address, which checks the
    /// device's identity.
    Handshake(Address),
    /// Write this measurement range to the device.
    SetRange(GyroRange),
    /// Read one angular-rate sample.
    ReadGyro,
    /// Emit this rate, in units of 10^-15 rad/s.
    Emit(i64),
    /// Block for this many milliseconds.
    Wait(u32),
    /// Stop with this diagnostic; nothing else is ever done.
    Halt(Fault),
}

/// The outcome of the last action.
#[derive(Clone, Copy, Debug, PartialEq, Eq, Structural)]
pub enum Event {
    /// The action completed.
    Done,
    /// The action failed.
    Failed,
    /// A read completed with this sample.
    Reading(Sample),
}

/// Where the firmware stands, named after the action it waits on.
#[derive(Clone, Copy, Debug, PartialEq, Eq, Structural)]
pub enum Phase {
    OpeningBus,
    Handshaking,
    Configuring,
    Reading,
    Emitting,
    Pausing,
    RetryPending,
    Halted(Fault),
}

impl Phase {
    /// The phases of the sampling loop, entered only after a complete boot.
    pub open spec fn is_sampling(self) -> bool {
        ||| self is Reading
        ||| self is Emitting
        ||| self is Pausing
        ||| self is RetryPending
    }
}

/// The firmware: its fixed configuration, its phase, and the device
/// handle's recorded state.
#[derive(Clone, Copy, Debug)]
pub struct Firmware {
    pub config: Config,
    pub phase: Phase,
    /// The range the device was configured with, once it was.
    pub range: Option<GyroRange>,
    /// Failed reads in a row since the last good sample.
    pub failures: u32,
}

impl Firmware {
    /// The firmware as it starts, and its first action.
    pub open spec fn spec_start(config: Config) -> (Firmware, Action) {
        (
            Firmware { config, phase: Phase::OpeningBus, range: None, failures: 0 },
            Action::OpenBus(config.bus_khz),
        )
    }

    /// The same firmware in another phase.
    pub open spec fn with_phase(self, phase: Phase) -> Firmware {
        Firmware { phase, ..self }
    }

    /// The firmware halted by a fault, and the halt it asks for.
    pub open spec fn halt(self, fault: Fault) -> (Firmware, Action) {
        (self.with_phase(Phase::Halted(fault)), Action::Halt(fault))
    }

    /// The rate emitted for a sample: the configured axis, in radians.
    pub open spec fn emitted_rate(self, sample: Sample) -> int {
        rad_of(sample.spec_axis(self.config.axis) as int)
    }

    /// The next state and action, given the outcome of the last action.
    pub open spec fn spec_next(self, event: Event) -> (Firmware, Action) {
        match self.phase {
            Phase::OpeningBus => if event is Done {
                (self.with_phase(Phase::Handshaking), Action::Handshake(self.config.address))
            } else {
                self.halt(Fault::BusConstruction)
            },
            Phase::Handshaking => if event is Done {
                (self.with_phase(Phase::Configuring), Action::SetRange(self.config.range))
            } else {
                self.halt(Fault::DeviceNotFound)
            },
            Phase::Configuring => if event is Done {
                (
                    Firmware {
                        phase: Phase::Reading,
                        range: Some(self.config.range),
                        failures: 0,
                        ..self
                    },
                    Action::ReadGyro,
                )
            } else {
                self.halt(Fault::Configuration)
            },
            Phase::Reading => match event {
                Event::Reading(sample) => (
                    Firmware { phase: Phase::Emitting, failures: 0, ..self },
                    Action::Emit(self.emitted_rate(sample) as i64),
                ),
                _ => if self.failures < self.config.read_retries {
                    (
                        Firmware {
                            phase: Phase::RetryPending,
                            failures: (self.failures + 1) as u32,
                            ..self
                        },
                        Action::Wait(self.config.retry_delay_ms),
                    )
                } else {
                    self.halt(Fault::Read)
                },
            },
            Phase::Emitting => (self.with_phase(Phase::Pausing), Action::Wait(self.config.delay_ms)),
            Phase::Pausing => (self.with_phase(Phase::Reading), Action::ReadGyro),
            Phase::RetryPending => (self.with_phase(Phase::Reading), Action::ReadGyro),
            Phase::Halted(fault) => (self, Action::Halt(fault)),
        }
    }

    /// The invariant of every state the firmware reaches: the sampling loop
    /// runs only on a device configured with the range of the configuration,
    /// and the count of failed reads stays within the retry bound.
    pub open spec fn wf(self) -> bool {
        &&& self.phase.is_sampling() ==> self.range == Some(self.config.range)
        &&& self.failures <= self.config.read_retries
    }

    /// Starts the firmware: it first asks for the bus.
    pub fn start(config: Config) -> (r: (Firmware, Action))
        ensures
            r == Firmware::spec_start(config),
            r.0.wf(),
    {
        (
            Firmware { config, phase: Phase::OpeningBus, range: None, failures: 0 },
            Action::OpenBus(config.bus_khz),
        )
    }

    /// Takes the outcome of the last action and returns the next action.
    pub fn step(&mut self, event: Event) -> (a: Action)
        ensures
            (*final(self), a) == old(self).spec_next(event),
            final(self).config == old(self).config,
            old(self).wf() ==> final(self).wf(),
    {
        match self.phase {
            Phase::OpeningBus => {
                if matches!(event, Event::Done) {
                    self.phase = Phase::Handshaking;
                    Action::Handshake(self.config.address)
                } else {
                    self.phase = Phase::Halted(Fault::BusConstruction);
                    Action::Halt(Fault::BusConstruction)
                }
            },
            Phase::Handshaking => {
                if matches!(event, Event::Done) {
                    self.phase = Phase::Configuring;
                    Action::SetRange(self.config.range)
                } else {
                    self.phase = Phase::Halted(Fault::DeviceNotFound);
                    Action::Halt(Fault::DeviceNotFound)
                }
            },
            Phase::Configuring => {
                if matches!(event, Event::Done) {
                    self.phase = Phase::Reading;
                    self.range = Some(self.config.range);
                    self.failures = 0;
                    Action::ReadGyro
                } else {
                    self.phase = Phase::Halted(Fault::Configuration);
                    Action::Halt(Fault::Configuration)
                }
            },
            Phase::Reading => match event {
                Event::Reading(sample) => {
                    self.phase = Phase::Emitting;
                    self.failures = 0;
                    Action::Emit(deg_to_rad(sample.axis(self.config.axis)))
                },
                _ => {
                    if self.failures < self.config.read_retries {
                        self.phase = Phase::RetryPending;
                        self.failures = self.failures + 1;
                        Action::Wait(self.config.retry_delay_ms)
                    } else {
                        self.phase = Phase::Halted(Fault::Read);
                        Action::Halt(Fault::Read)
                    }
                },
            },
            Phase::Emitting => {
                self.phase = Phase::Pausing;
                Action::Wait(self.config.delay_ms)
            },
            Phase::Pausing => {
                self.phase = Phase::Reading;
                Action::ReadGyro
            },
            Phase::RetryPending => {
                self.phase = Phase::Reading;
                Action::ReadGyro
            },
            Phase::Halted(fault) => Action::Halt(fault),
        }
    }
}

} // verus!
