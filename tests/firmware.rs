use gyro_controller::config::{Config, BUS_KHZ, RETRY_DELAY_MS, SAMPLE_DELAY_MS};
use gyro_controller::firmware::{Action, Event, Fault, Firmware, Phase};
use gyro_controller::rate::{deg_to_rad, DEG_TO_RAD_NANO};
use gyro_controller::sensor::{Address, Axis, GyroRange, Sample};

/// One radian per second, in the emitted units.
const ONE_RAD: i64 = 1_000_000_000_000_000;

fn booted(config: Config) -> Firmware {
    let (mut fw, first) = Firmware::start(config);
    assert_eq!(first, Action::OpenBus(config.bus_khz));
    assert_eq!(fw.step(Event::Done), Action::Handshake(config.address));
    assert_eq!(fw.step(Event::Done), Action::SetRange(config.range));
    assert_eq!(fw.step(Event::Done), Action::ReadGyro);
    fw
}

fn sample_y(y: i32) -> Sample {
    Sample { x: 0, y, z: 0 }
}

#[test]
fn standard_configuration() {
    let c = Config::standard();
    assert_eq!(c.bus_khz, BUS_KHZ);
    assert_eq!(c.bus_khz, 100);
    assert_eq!(c.address, Address::Primary);
    assert_eq!(c.range, GyroRange::Deg250);
    assert_eq!(c.axis, Axis::Y);
    assert_eq!(c.delay_ms, SAMPLE_DELAY_MS);
    assert_eq!(c.delay_ms, 100);
    assert_eq!(c.read_retries, 0);
    assert_eq!(c.retry_delay_ms, RETRY_DELAY_MS);
}

#[test]
fn boot_success_records_range() {
    let mut config = Config::standard();
    config.range = GyroRange::Deg1000;
    config.address = Address::Secondary;
    let (fw, _) = Firmware::start(config);
    assert_eq!(fw.range, None);
    assert_eq!(fw.phase, Phase::OpeningBus);
    let fw = booted(config);
    assert_eq!(fw.phase, Phase::Reading);
    assert_eq!(fw.range, Some(GyroRange::Deg1000));
    assert_eq!(fw.failures, 0);
}

#[test]
fn boot_failure_reports_device_not_found() {
    let (mut fw, _) = Firmware::start(Config::standard());
    assert_eq!(fw.step(Event::Done), Action::Handshake(Address::Primary));
    assert_eq!(fw.step(Event::Failed), Action::Halt(Fault::DeviceNotFound));
    assert_eq!(fw.phase, Phase::Halted(Fault::DeviceNotFound));
    assert_eq!(fw.range, None);
    for e in [Event::Done, Event::Reading(sample_y(5)), Event::Failed] {
        assert_eq!(fw.step(e), Action::Halt(Fault::DeviceNotFound));
    }
}

#[test]
fn bus_failure_halts() {
    let (mut fw, _) = Firmware::start(Config::standard());
    assert_eq!(fw.step(Event::Failed), Action::Halt(Fault::BusConstruction));
    assert_eq!(fw.step(Event::Done), Action::Halt(Fault::BusConstruction));
}

#[test]
fn configuration_failure_halts() {
    let (mut fw, _) = Firmware::start(Config::standard());
    fw.step(Event::Done);
    fw.step(Event::Done);
    assert_eq!(fw.step(Event::Failed), Action::Halt(Fault::Configuration));
    assert_eq!(fw.range, None);
    assert_eq!(fw.phase, Phase::Halted(Fault::Configuration));
}

#[test]
fn conversion_of_one_radian() {
    // 57.29578 deg/s
    let r = deg_to_rad(57_295_780);
    assert_eq!(r, 1_000_000_036_003_540);
    assert!((r - ONE_RAD).abs() < 1_000_000_000);
    assert_eq!(deg_to_rad(-57_295_780), -1_000_000_036_003_540);
    assert_eq!(deg_to_rad(0), 0);
    assert_eq!(deg_to_rad(1), DEG_TO_RAD_NANO);
    assert_eq!(deg_to_rad(i32::MAX), 37_480_661_303_799_571);
    let mut fw = booted(Config::standard());
    assert_eq!(
        fw.step(Event::Reading(Sample { x: 3, y: 57_295_780, z: -9 })),
        Action::Emit(1_000_000_036_003_540)
    );
}

#[test]
fn cadence_over_one_second() {
    let config = Config::standard();
    let mut fw = booted(config);
    let mut clock_ms: u64 = 0;
    let mut emitted_at: Vec<u64> = Vec::new();
    let mut action = Action::ReadGyro;
    while clock_ms < 1000 {
        let event = match action {
            Action::ReadGyro => Event::Reading(sample_y(1_000_000)),
            Action::Emit(_) => {
                emitted_at.push(clock_ms);
                Event::Done
            }
            Action::Wait(ms) => {
                clock_ms += ms as u64;
                Event::Done
            }
            other => panic!("unexpected action {:?}", other),
        };
        action = fw.step(event);
    }
    assert_eq!(emitted_at.len(), 10);
    for (k, t) in emitted_at.iter().enumerate() {
        assert_eq!(*t, k as u64 * config.delay_ms as u64);
    }
}

#[test]
fn loop_turn_order() {
    let config = Config::standard();
    let mut fw = booted(config);
    let v = deg_to_rad(2_000_000);
    assert_eq!(fw.step(Event::Reading(sample_y(2_000_000))), Action::Emit(v));
    assert_eq!(fw.phase, Phase::Emitting);
    assert_eq!(fw.step(Event::Done), Action::Wait(100));
    assert_eq!(fw.phase, Phase::Pausing);
    assert_eq!(fw.step(Event::Done), Action::ReadGyro);
    assert_eq!(fw.phase, Phase::Reading);
}

#[test]
fn axis_selection() {
    let base = Sample { x: 11_000_000, y: 20_000_000, z: -7_000_000 };
    let emit = |s: Sample| {
        let mut fw = booted(Config::standard());
        match fw.step(Event::Reading(s)) {
            Action::Emit(v) => v,
            other => panic!("expected an emission, got {:?}", other),
        }
    };
    let e0 = emit(base);
    assert_eq!(e0, deg_to_rad(20_000_000));
    assert_eq!(emit(Sample { x: -300_000_000, ..base }), e0);
    assert_eq!(emit(Sample { z: 123_456_789, ..base }), e0);
    let doubled = emit(Sample { y: 40_000_000, ..base });
    assert_eq!(doubled, 2 * e0);
    let negated = emit(Sample { y: -20_000_000, ..base });
    assert_eq!(negated, -e0);

    let mut config = Config::standard();
    config.axis = Axis::X;
    let mut fw = booted(config);
    assert_eq!(fw.step(Event::Reading(base)), Action::Emit(deg_to_rad(11_000_000)));
    config.axis = Axis::Z;
    let mut fw = booted(config);
    assert_eq!(fw.step(Event::Reading(base)), Action::Emit(deg_to_rad(-7_000_000)));
}

#[test]
fn read_failure_on_nth_iteration() {
    let n = 4;
    let mut fw = booted(Config::standard());
    let mut emissions: Vec<i64> = Vec::new();
    let mut reads = 0;
    let mut action = Action::ReadGyro;
    let mut halted = None;
    for _ in 0..100 {
        let event = match action {
            Action::ReadGyro => {
                reads += 1;
                if reads == n {
                    Event::Failed
                } else {
                    Event::Reading(sample_y(reads * 1_000_000))
                }
            }
            Action::Emit(v) => {
                emissions.push(v);
                Event::Done
            }
            Action::Wait(_) => Event::Done,
            Action::Halt(f) => {
                halted = Some(f);
                Event::Done
            }
            other => panic!("unexpected action {:?}", other),
        };
        action = fw.step(event);
    }
    assert_eq!(halted, Some(Fault::Read));
    assert_eq!(reads, n);
    assert_eq!(
        emissions,
        vec![deg_to_rad(1_000_000), deg_to_rad(2_000_000), deg_to_rad(3_000_000)]
    );
    assert_eq!(fw.phase, Phase::Halted(Fault::Read));
}

#[test]
fn bounded_retry_then_recovery() {
    let mut config = Config::standard();
    config.read_retries = 2;
    config.retry_delay_ms = 5;
    let mut fw = booted(config);
    assert_eq!(fw.step(Event::Failed), Action::Wait(5));
    assert_eq!(fw.failures, 1);
    assert_eq!(fw.phase, Phase::RetryPending);
    assert_eq!(fw.step(Event::Done), Action::ReadGyro);
    assert_eq!(fw.step(Event::Failed), Action::Wait(5));
    assert_eq!(fw.failures, 2);
    assert_eq!(fw.step(Event::Done), Action::ReadGyro);
    assert_eq!(fw.step(Event::Reading(sample_y(1))), Action::Emit(deg_to_rad(1)));
    assert_eq!(fw.failures, 0);
}

#[test]
fn bounded_retry_then_halt() {
    let mut config = Config::standard();
    config.read_retries = 2;
    let mut fw = booted(config);
    for _ in 0..2 {
        assert_eq!(fw.step(Event::Failed), Action::Wait(config.retry_delay_ms));
        assert_eq!(fw.step(Event::Done), Action::ReadGyro);
    }
    assert_eq!(fw.step(Event::Failed), Action::Halt(Fault::Read));
    assert_eq!(fw.step(Event::Reading(sample_y(1))), Action::Halt(Fault::Read));
}

#[test]
fn read_without_sample_counts_as_failure() {
    let mut fw = booted(Config::standard());
    assert_eq!(fw.step(Event::Done), Action::Halt(Fault::Read));
}
