use shtc3_beacon::beacon::{
    Action, BeaconConfig, BroadcastLoop, Event, HaltReason, Indicator, Phase, RadioOutcome,
    ADVERTISE_TIMEOUT, BEACON_NAME, THERMOMETER_SERVICE,
};
use shtc3_beacon::encoder::EncodeError;
use shtc3_beacon::flags::Flag;
use shtc3_beacon::heartbeat::Level;
use shtc3_beacon::measurement::Measurement;

/// What a simulated run saw the loop ask for.
#[derive(Debug, PartialEq, Eq, Clone, Copy)]
enum Seen {
    OutputBusy,
    SensorRead,
    OutputIdle,
    RadioSubmit,
    Halt,
}

/// Plays the outside world: answers each call, reading `temperatures` in turn
/// and failing the sensor at read number `fail_at`. Time moves only while an
/// advertisement is on air.
fn simulate(
    machine: &mut BroadcastLoop,
    temperatures: &[i32],
    fail_at: Option<usize>,
) -> (Vec<Seen>, Vec<(u64, u64, Vec<u8>)>, Option<HaltReason>) {
    let mut seen = Vec::new();
    let mut on_air = Vec::new();
    let mut now_ms: u64 = 0;
    let mut reads = 0usize;
    let mut event = Event::RadioReady;
    loop {
        event = match machine.step(event) {
            Action::SetIndicator(Indicator::Busy) => {
                seen.push(Seen::OutputBusy);
                Event::OutputSet
            }
            Action::SetIndicator(Indicator::Idle) => {
                seen.push(Seen::OutputIdle);
                Event::OutputSet
            }
            Action::ReadSensor => {
                seen.push(Seen::SensorRead);
                if reads == temperatures.len() {
                    return (seen, on_air, None);
                }
                reads += 1;
                if fail_at == Some(reads - 1) {
                    Event::SensorFailed
                } else {
                    Event::Measured(Measurement::new(temperatures[reads - 1], 45_000))
                }
            }
            Action::Advertise { payload, timeout } => {
                seen.push(Seen::RadioSubmit);
                let start = now_ms;
                now_ms += timeout as u64 * 10;
                on_air.push((start, now_ms, payload.as_bytes().to_vec()));
                Event::Radio(RadioOutcome::TimedOut)
            }
            Action::Halt(reason) => {
                seen.push(Seen::Halt);
                return (seen, on_air, Some(reason));
            }
        };
    }
}

fn thermometer() -> BroadcastLoop {
    BroadcastLoop::new(BeaconConfig::thermometer()).unwrap()
}

#[test]
fn deployed_configuration() {
    let config = BeaconConfig::thermometer();
    assert_eq!(config.flags, vec![Flag::GeneralDiscovery, Flag::LeOnly]);
    assert_eq!(config.service_uuid, 0x1809);
    assert_eq!(config.short_name, "NRF-Hello");
    assert_eq!(config.timeout, 1000);
    assert_eq!(THERMOMETER_SERVICE, 0x1809);
    assert_eq!(BEACON_NAME, "NRF-Hello");
    assert_eq!(ADVERTISE_TIMEOUT, 1000);
    assert_eq!(config.validate(), None);
}

#[test]
fn deployed_payload_for_every_temperature() {
    let config = BeaconConfig::thermometer();
    for temperature in 0..=255u8 {
        let payload = config.payload(temperature).unwrap();
        let mut expected = vec![
            0x02, 0x01, 0x06, 0x03, 0x03, 0x09, 0x18, 0x0a, 0x08, 0x4e, 0x52, 0x46, 0x2d, 0x48,
            0x65, 0x6c, 0x6c, 0x6f, 0x04, 0x16, 0x09, 0x18,
        ];
        expected.push(temperature);
        assert_eq!(payload.as_bytes(), &expected[..]);
    }
}

#[test]
fn calls_come_in_cycle_order() {
    let mut machine = thermometer();
    let temperatures = [23_700, 23_990, -5_000, 0, 130_000, 300_000];
    let (seen, on_air, halted) = simulate(&mut machine, &temperatures, None);
    assert_eq!(halted, None);
    assert_eq!(seen.len(), 4 * temperatures.len() + 2);
    let cycle = [Seen::OutputBusy, Seen::SensorRead, Seen::OutputIdle, Seen::RadioSubmit];
    for (i, call) in seen.iter().enumerate() {
        assert_eq!(*call, cycle[i % 4]);
    }
    let bytes: Vec<u8> = on_air.iter().map(|(_, _, payload)| payload[22]).collect();
    assert_eq!(bytes, vec![23, 23, 0, 0, 130, 255]);
}

#[test]
fn advertisements_do_not_overlap() {
    let mut machine = thermometer();
    let temperatures = [20_000; 25];
    let (_, on_air, _) = simulate(&mut machine, &temperatures, None);
    assert_eq!(on_air.len(), 25);
    for (start, end, _) in &on_air {
        assert_eq!(end - start, 10_000);
    }
    for pair in on_air.windows(2) {
        assert!(pair[0].1 <= pair[1].0);
    }
}

#[test]
fn step_by_step_through_one_cycle() {
    let mut machine = thermometer();
    assert_eq!(machine.phase(), Phase::Idle);
    assert_eq!(machine.step(Event::RadioReady), Action::SetIndicator(Indicator::Busy));
    assert_eq!(machine.phase(), Phase::Waking);
    assert_eq!(machine.step(Event::OutputSet), Action::ReadSensor);
    assert_eq!(machine.phase(), Phase::Sampling);
    assert_eq!(
        machine.step(Event::Measured(Measurement::new(23_700, 51_250))),
        Action::SetIndicator(Indicator::Idle)
    );
    assert_eq!(machine.phase(), Phase::Encoding { temperature: 23 });
    match machine.step(Event::OutputSet) {
        Action::Advertise { payload, timeout } => {
            assert_eq!(timeout, 1000);
            assert_eq!(payload, BeaconConfig::thermometer().payload(23).unwrap());
        }
        other => panic!("expected an advertisement, got {:?}", other),
    }
    assert_eq!(machine.phase(), Phase::Broadcasting);
    assert_eq!(
        machine.step(Event::Radio(RadioOutcome::Completed)),
        Action::SetIndicator(Indicator::Busy)
    );
    assert_eq!(machine.phase(), Phase::Waking);
}

#[test]
fn sensor_failure_halts_for_good() {
    let mut machine = thermometer();
    let temperatures = [21_000, 22_000, 23_000, 24_000];
    let (seen, on_air, halted) = simulate(&mut machine, &temperatures, Some(2));
    assert_eq!(halted, Some(HaltReason::SensorFailure));
    assert_eq!(on_air.len(), 2);
    assert_eq!(seen.last(), Some(&Seen::Halt));
    assert_eq!(seen.iter().filter(|call| **call == Seen::RadioSubmit).count(), 2);
    assert_eq!(seen.iter().filter(|call| **call == Seen::Halt).count(), 1);
    assert_eq!(machine.phase(), Phase::Halted { reason: HaltReason::SensorFailure });
    // whatever arrives afterwards, nothing is submitted any more
    let later = [
        Event::RadioReady,
        Event::OutputSet,
        Event::Measured(Measurement::new(20_000, 0)),
        Event::OutputSet,
        Event::Radio(RadioOutcome::Completed),
        Event::SensorFailed,
        Event::Radio(RadioOutcome::StackError),
    ];
    for event in later {
        assert_eq!(machine.step(event), Action::Halt(HaltReason::SensorFailure));
        assert_eq!(machine.phase(), Phase::Halted { reason: HaltReason::SensorFailure });
    }
}

#[test]
fn sensor_failure_on_the_first_read() {
    let mut machine = thermometer();
    let (seen, on_air, halted) = simulate(&mut machine, &[20_000], Some(0));
    assert_eq!(seen, vec![Seen::OutputBusy, Seen::SensorRead, Seen::Halt]);
    assert!(on_air.is_empty());
    assert_eq!(halted, Some(HaltReason::SensorFailure));
}

#[test]
fn radio_failure_halts() {
    for outcome in [RadioOutcome::NoFreeConnection, RadioOutcome::StackError] {
        let mut machine = thermometer();
        machine.step(Event::RadioReady);
        machine.step(Event::OutputSet);
        machine.step(Event::Measured(Measurement::new(20_000, 0)));
        machine.step(Event::OutputSet);
        assert_eq!(machine.step(Event::Radio(outcome)), Action::Halt(HaltReason::RadioFailure));
        assert_eq!(machine.step(Event::OutputSet), Action::Halt(HaltReason::RadioFailure));
    }
    // the stack that never came up
    let mut machine = thermometer();
    assert_eq!(
        machine.step(Event::Radio(RadioOutcome::StackError)),
        Action::Halt(HaltReason::RadioFailure)
    );
}

#[test]
fn both_regular_ends_open_the_next_cycle() {
    for outcome in [RadioOutcome::Completed, RadioOutcome::TimedOut] {
        assert!(outcome.ends_broadcast());
        let mut machine = thermometer();
        machine.step(Event::RadioReady);
        machine.step(Event::OutputSet);
        machine.step(Event::Measured(Measurement::new(20_000, 0)));
        machine.step(Event::OutputSet);
        assert_eq!(machine.step(Event::Radio(outcome)), Action::SetIndicator(Indicator::Busy));
    }
    assert!(!RadioOutcome::NoFreeConnection.ends_broadcast());
    assert!(!RadioOutcome::StackError.ends_broadcast());
}

#[test]
fn nothing_is_submitted_before_the_radio_is_up() {
    for first in [Event::OutputSet, Event::Measured(Measurement::new(20_000, 0))] {
        let mut machine = thermometer();
        assert_eq!(machine.step(first), Action::Halt(HaltReason::UnexpectedEvent));
        assert_eq!(machine.step(Event::RadioReady), Action::Halt(HaltReason::UnexpectedEvent));
    }
    let mut machine = thermometer();
    assert_eq!(
        machine.step(Event::Radio(RadioOutcome::TimedOut)),
        Action::Halt(HaltReason::UnexpectedEvent)
    );
}

#[test]
fn outcome_that_answers_no_call_halts() {
    let reading = Event::Measured(Measurement::new(20_000, 0));
    let ended = Event::Radio(RadioOutcome::TimedOut);
    // in each phase, every outcome but the awaited one
    let script: [(&[Event], &[Event]); 4] = [
        (&[Event::RadioReady], &[Event::RadioReady, reading, ended]),
        (&[Event::RadioReady, Event::OutputSet], &[Event::RadioReady, Event::OutputSet, ended]),
        (&[Event::RadioReady, Event::OutputSet, reading], &[Event::RadioReady, reading, ended]),
        (
            &[Event::RadioReady, Event::OutputSet, reading, Event::OutputSet],
            &[Event::RadioReady, Event::OutputSet, reading],
        ),
    ];
    for (prefix, wrong) in script {
        for event in wrong {
            let mut machine = thermometer();
            for earlier in prefix {
                machine.step(*earlier);
            }
            assert_eq!(machine.step(*event), Action::Halt(HaltReason::UnexpectedEvent));
            assert_eq!(machine.phase(), Phase::Halted { reason: HaltReason::UnexpectedEvent });
        }
    }
}

#[test]
fn configuration_without_payload_is_refused() {
    let mut config = BeaconConfig::thermometer();
    config.flags.clear();
    assert_eq!(config.validate(), Some(EncodeError::NoFlags));
    assert_eq!(config.payload(20), Err(EncodeError::NoFlags));
    assert_eq!(BroadcastLoop::new(config).err(), Some(EncodeError::NoFlags));

    let mut config = BeaconConfig::thermometer();
    config.short_name = "K\u{fc}che".to_string();
    assert_eq!(config.validate(), Some(EncodeError::NameNotAscii));
    assert_eq!(BroadcastLoop::new(config).err(), Some(EncodeError::NameNotAscii));
}

#[test]
fn long_name_is_cut_in_every_cycle() {
    let mut config = BeaconConfig::thermometer();
    config.short_name = "Thermometer-in-the-greenhouse".to_string();
    config.timeout = 250;
    let mut machine = BroadcastLoop::new(config).unwrap();
    let (_, on_air, _) = simulate(&mut machine, &[18_500, 19_500], None);
    assert_eq!(on_air.len(), 2);
    for (i, (start, end, payload)) in on_air.iter().enumerate() {
        assert_eq!(end - start, 2_500);
        assert_eq!(payload.len(), 31);
        assert_eq!(&payload[..7], &[0x02, 0x01, 0x06, 0x03, 0x03, 0x09, 0x18]);
        assert_eq!(&payload[7..9], &[18, 0x08]);
        assert_eq!(&payload[9..26], b"Thermometer-in-th");
        assert_eq!(&payload[26..], &[0x04, 0x16, 0x09, 0x18, 18 + i as u8]);
    }
}

#[test]
fn indicator_levels() {
    assert_eq!(Indicator::Busy.level(), Level::Low);
    assert_eq!(Indicator::Idle.level(), Level::High);
}

#[test]
fn halt_messages() {
    assert_eq!(HaltReason::SensorFailure.message(), "halted: sensor read failed");
    assert_eq!(HaltReason::RadioFailure.message(), "halted: radio stack failed");
    assert_eq!(HaltReason::UnexpectedEvent.message(), "halted: unexpected event");
}
