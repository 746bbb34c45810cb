//! The sensor-broadcast loop as a state machine.
//!
//! One cycle is four calls to the outside, in this order: mark the diagnostic
//! output busy, read the sensor, mark the output idle, submit the
//! advertisement. [`BroadcastLoop::step`] takes the outcome of the last call
//! and names the next one; the caller performs it and comes back with its
//! outcome. A failure of the sensor or of the radio, or an outcome that does
//! not answer the call that was made, halts the loop for good.

use vstd::prelude::*;
use vstd::utf8::is_ascii_chars;
use crate::advertisement::{
    lemma_wire_push, parse, wire, AdRecord, AdvertisementPayload, MAX_PAYLOAD_LEN,
};
use crate::encoder::{
    encode, encode_accepted, planned_records, rejection, validate, EncodeError, ServiceData,
};
use crate::flags::{flags_value, Flag};
use crate::heartbeat::Level;
use crate::measurement::{quantized_celsius, Measurement};

verus! {

/// The 16-bit UUID of the health thermometer service.
pub const THERMOMETER_SERVICE: u16 = 0x1809;

/// How long one advertisement is broadcast, in units of 10 ms: ten seconds.
pub const ADVERTISE_TIMEOUT: u16 = 1000;

/// The name under which the beacon advertises.
pub const BEACON_NAME: &'static str = "NRF-Hello";

/// What stays the same in every advertisement of a beacon.
#[derive(Clone, Debug, PartialEq, Eq)]
pub struct BeaconConfig {
    /// The flags to advertise.
    pub flags: Vec<Flag>,
    /// The service that is listed, and under which the temperature is
    /// published.
    pub service_uuid: u16,
    /// The shortened local name.
    pub short_name: String,
    /// How long each advertisement runs, in units of 10 ms.
    pub timeout: u16,
}

impl BeaconConfig {
    /// Why no payload can be built with this configuration, if none can.
    /// The temperature has no part in it: it is always one byte.
    pub open spec fn rejection(self) -> Option<EncodeError> {
        rejection(self.flags@, seq![self.service_uuid], self.short_name@, seq![0u8])
    }

    /// The records that are advertised for a quantized temperature.
    pub open spec fn records(self, temperature: u8) -> Seq<AdRecord> {
        planned_records(
            self.flags@,
            seq![self.service_uuid],
            self.short_name@,
            self.service_uuid,
            seq![temperature],
        )
    }

    /// Whether this is the beacon as it is deployed, up to the timeout.
    pub open spec fn is_thermometer(self) -> bool {
        &&& self.flags@ == seq![Flag::GeneralDiscovery, Flag::LeOnly]
        &&& self.service_uuid == THERMOMETER_SERVICE
        &&& self.short_name@ == BEACON_NAME@
    }

    /// The beacon as it is deployed: generally discoverable, LE only, the
    /// health thermometer service, [`BEACON_NAME`], ten seconds on air.
    pub fn thermometer() -> (config: BeaconConfig)
        ensures
            config.is_thermometer(),
            config.timeout == ADVERTISE_TIMEOUT,
            config.rejection() is None,
    {
        let mut flags: Vec<Flag> = Vec::new();
        flags.push(Flag::GeneralDiscovery);
        flags.push(Flag::LeOnly);
        assert(flags@ =~= seq![Flag::GeneralDiscovery, Flag::LeOnly]);
        let config = BeaconConfig {
            flags,
            service_uuid: THERMOMETER_SERVICE,
            short_name: BEACON_NAME.to_owned(),
            timeout: ADVERTISE_TIMEOUT,
        };
        proof {
            lemma_thermometer_payload(config, 0);
        }
        config
    }

    /// Tells why no payload can be built with this configuration, if none
    /// can.
    pub fn validate(&self) -> (refusal: Option<EncodeError>)
        ensures
            refusal == self.rejection(),
    {
        let uuids: [u16; 1] = [self.service_uuid];
        let data: [u8; 1] = [0];
        validate(
            self.flags.as_slice(),
            uuids.as_slice(),
            self.short_name.as_str(),
            data.as_slice(),
        )
    }

    /// Builds the payload that publishes `temperature`.
    ///
    /// It fails exactly where [`validate`](Self::validate) objects, whatever
    /// the temperature.
    pub fn payload(&self, temperature: u8) -> (result: Result<AdvertisementPayload, EncodeError>)
        ensures
            match result {
                Ok(payload) => {
                    &&& self.rejection() is None
                    &&& payload@ == wire(self.records(temperature))
                    &&& payload@.len() <= MAX_PAYLOAD_LEN
                    &&& parse(payload@) == Some(self.records(temperature))
                },
                Err(error) => self.rejection() == Some(error),
            },
    {
        let uuids: [u16; 1] = [self.service_uuid];
        let mut data: Vec<u8> = Vec::new();
        data.push(temperature);
        assert(uuids@ =~= seq![self.service_uuid]);
        let service_data = ServiceData { uuid: self.service_uuid, data };
        encode(self.flags.as_slice(), uuids.as_slice(), self.short_name.as_str(), &service_data)
    }
}

/// The payload of the deployed beacon for a quantized temperature: flags
/// `06`, the service list `1809`, the name `NRF-Hello` in full, and the
/// temperature as service data of `1809`. 23 bytes in all.
pub open spec fn thermometer_bytes(temperature: u8) -> Seq<u8> {
    seq![
        0x02, 0x01, 0x06,
        0x03, 0x03, 0x09, 0x18,
        0x0a, 0x08, 0x4e, 0x52, 0x46, 0x2d, 0x48, 0x65, 0x6c, 0x6c, 0x6f,
        0x04, 0x16, 0x09, 0x18, temperature,
    ]
}

/// The deployed beacon always gets a payload, and it is
/// [`thermometer_bytes`]: nothing of the name is cut.
pub proof fn lemma_thermometer_payload(config: BeaconConfig, temperature: u8)
    requires
        config.is_thermometer(),
    ensures
        config.rejection() is None,
        wire(config.records(temperature)) == thermometer_bytes(temperature),
{
    reveal_strlit("NRF-Hello");
    let name = config.short_name@;
    let flags = config.flags@;
    assert(is_ascii_chars(name)) by {
        assert forall|i: int| 0 <= i < name.len() implies '\0' <= #[trigger] name[i]
            <= '\u{7f}' by {
            assert(i == 0 || i == 1 || i == 2 || i == 3 || i == 4 || i == 5 || i == 6 || i == 7
                || i == 8);
        }
    }
    assert(flags_value(flags.to_set()) == 6);
    let records = config.records(temperature);
    assert(records[2].value =~= seq![
        0x4eu8, 0x52u8, 0x46u8, 0x2du8, 0x48u8, 0x65u8, 0x6cu8, 0x6cu8, 0x6fu8,
    ]);
    let none = Seq::<AdRecord>::empty();
    lemma_wire_push(none, records[0]);
    lemma_wire_push(none.push(records[0]), records[1]);
    lemma_wire_push(none.push(records[0]).push(records[1]), records[2]);
    lemma_wire_push(none.push(records[0]).push(records[1]).push(records[2]), records[3]);
    assert(none.push(records[0]).push(records[1]).push(records[2]).push(records[3]) =~= records);
}

/// What the diagnostic output shows.
#[derive(Clone, Copy, Debug, PartialEq, Eq, Structural)]
pub enum Indicator {
    /// A sensor read is under way.
    Busy,
    /// The loop waits for the radio.
    Idle,
}

impl Indicator {
    /// The level that shows this state: low while busy, high while idle.
    pub open spec fn spec_level(self) -> Level {
        match self {
            Indicator::Busy => Level::Low,
            Indicator::Idle => Level::High,
        }
    }

    /// The level that shows this state: low while busy, high while idle.
    #[verifier::when_used_as_spec(spec_level)]
    pub fn level(self) -> (level: Level)
        ensures
            level == self.spec_level(),
    {
        match self {
            Indicator::Busy => Level::Low,
            Indicator::Idle => Level::High,
        }
    }
}

/// How the radio stack answered an advertisement.
#[derive(Clone, Copy, Debug, PartialEq, Eq, Structural)]
pub enum RadioOutcome {
    /// The stack reported the advertisement complete.
    Completed,
    /// The advertisement ran for its whole duration.
    TimedOut,
    /// The stack had no free connection slot.
    NoFreeConnection,
    /// The stack refused the request or failed.
    StackError,
}

impl RadioOutcome {
    /// Whether the advertisement came to its regular end, be it by
    /// completion or by running out of time.
    pub open spec fn spec_ends_broadcast(self) -> bool {
        self == RadioOutcome::Completed || self == RadioOutcome::TimedOut
    }

    /// Whether the advertisement came to its regular end, be it by
    /// completion or by running out of time.
    #[verifier::when_used_as_spec(spec_ends_broadcast)]
    pub fn ends_broadcast(self) -> (regular: bool)
        ensures
            regular == self.spec_ends_broadcast(),
    {
        match self {
            RadioOutcome::Completed => true,
            RadioOutcome::TimedOut => true,
            RadioOutcome::NoFreeConnection => false,
            RadioOutcome::StackError => false,
        }
    }
}

/// Why the loop halted.
#[derive(Clone, Copy, Debug, PartialEq, Eq, Structural)]
pub enum HaltReason {
    /// The sensor could not be read.
    SensorFailure,
    /// The radio stack did not start, or did not take the advertisement.
    RadioFailure,
    /// An outcome arrived that does not answer the call that was made.
    UnexpectedEvent,
}

impl HaltReason {
    /// The line that goes to the diagnostic channel when the loop halts.
    pub open spec fn spec_message(self) -> Seq<char> {
        match self {
            HaltReason::SensorFailure => "halted: sensor read failed"@,
            HaltReason::RadioFailure => "halted: radio stack failed"@,
            HaltReason::UnexpectedEvent => "halted: unexpected event"@,
        }
    }

    /// The line that goes to the diagnostic channel when the loop halts.
    pub fn message(self) -> (line: &'static str)
        ensures
            line@ == self.spec_message(),
    {
        match self {
            HaltReason::SensorFailure => "halted: sensor read failed",
            HaltReason::RadioFailure => "halted: radio stack failed",
            HaltReason::UnexpectedEvent => "halted: unexpected event",
        }
    }
}

/// The outcome of the call that the loop asked for last.
#[derive(Clone, Copy, Debug, PartialEq, Eq)]
pub enum Event {
    /// The radio stack's driver task runs. This opens the first cycle.
    RadioReady,
    /// The diagnostic output has taken the level asked for.
    OutputSet,
    /// The sensor returned a reading.
    Measured(Measurement),
    /// The sensor could not be read.
    SensorFailed,
    /// The radio stack answered: the advertisement ended, or the stack
    /// failed.
    Radio(RadioOutcome),
}

/// Where the loop stands: which call is under way.
#[derive(Clone, Copy, Debug, PartialEq, Eq, Structural)]
pub enum Phase {
    /// Nothing yet: the loop waits for the radio stack to come up.
    Idle,
    /// The output is being marked busy.
    Waking,
    /// The sensor is being read.
    Sampling,
    /// The payload is settled; the output is being marked idle.
    Encoding { temperature: u8 },
    /// The advertisement is on air.
    Broadcasting,
    /// The loop has stopped and stays stopped.
    Halted { reason: HaltReason },
}

/// The call that the loop asks for next.
#[derive(Debug, PartialEq, Eq)]
pub enum Action {
    /// Drive the diagnostic output.
    SetIndicator(Indicator),
    /// Take one measurement.
    ReadSensor,
    /// Broadcast `payload`, non-connectable and non-scannable, for at most
    /// `timeout` units of 10 ms.
    Advertise { payload: AdvertisementPayload, timeout: u16 },
    /// Report the reason on the diagnostic channel and stop for good.
    Halt(HaltReason),
}

/// A call as it is reasoned about: an [`Action`] with the payload as bytes.
pub enum Call {
    SetIndicator(Indicator),
    ReadSensor,
    Advertise { payload: Seq<u8>, timeout: u16 },
    Halt(HaltReason),
}

impl View for Action {
    type V = Call;

    open spec fn view(&self) -> Call {
        match *self {
            Action::SetIndicator(indicator) => Call::SetIndicator(indicator),
            Action::ReadSensor => Call::ReadSensor,
            Action::Advertise { payload, timeout } => Call::Advertise {
                payload: payload@,
                timeout,
            },
            Action::Halt(reason) => Call::Halt(reason),
        }
    }
}

/// Stopping for `reason`.
pub open spec fn halt(reason: HaltReason) -> (Phase, Call) {
    (Phase::Halted { reason }, Call::Halt(reason))
}

/// The loop's rule: from the phase it is in and the outcome that arrived to
/// the phase it enters and the call it makes.
pub open spec fn transition(config: BeaconConfig, phase: Phase, event: Event) -> (Phase, Call) {
    match phase {
        Phase::Halted { reason } => halt(reason),
        _ => match event {
            Event::SensorFailed => halt(HaltReason::SensorFailure),
            Event::Radio(outcome) => if !outcome.spec_ends_broadcast() {
                halt(HaltReason::RadioFailure)
            } else if phase is Broadcasting {
                (Phase::Waking, Call::SetIndicator(Indicator::Busy))
            } else {
                halt(HaltReason::UnexpectedEvent)
            },
            Event::RadioReady => if phase is Idle {
                (Phase::Waking, Call::SetIndicator(Indicator::Busy))
            } else {
                halt(HaltReason::UnexpectedEvent)
            },
            Event::OutputSet => match phase {
                Phase::Waking => (Phase::Sampling, Call::ReadSensor),
                Phase::Encoding { temperature } => (
                    Phase::Broadcasting,
                    Call::Advertise {
                        payload: wire(config.records(temperature)),
                        timeout: config.timeout,
                    },
                ),
                _ => halt(HaltReason::UnexpectedEvent),
            },
            Event::Measured(measurement) => if phase is Sampling {
                (
                    Phase::Encoding {
                        temperature: quantized_celsius(measurement.millicelsius() as int) as u8,
                    },
                    Call::SetIndicator(Indicator::Idle),
                )
            } else {
                halt(HaltReason::UnexpectedEvent)
            },
        },
    }
}

/// The sensor-broadcast loop: a configuration that is known to give a
/// payload, and the phase the loop is in.
#[derive(Debug)]
pub struct BroadcastLoop {
    config: BeaconConfig,
    phase: Phase,
}

impl BroadcastLoop {
    /// What every loop can rely on: its configuration gives a payload.
    #[verifier::type_invariant]
    spec fn accepted(&self) -> bool {
        self.config.rejection() is None
    }

    /// The configuration that the loop was made with.
    pub closed spec fn config(&self) -> BeaconConfig {
        self.config
    }

    /// The phase that the loop is in.
    pub closed spec fn spec_phase(&self) -> Phase {
        self.phase
    }

    /// A loop that waits for the radio stack to come up.
    ///
    /// A configuration with which no payload can be built is refused here,
    /// with the encoder's reason, so that none is ever submitted.
    pub fn new(config: BeaconConfig) -> (result: Result<BroadcastLoop, EncodeError>)
        ensures
            match result {
                Ok(machine) => {
                    &&& config.rejection() is None
                    &&& machine.config() == config
                    &&& machine.phase() == Phase::Idle
                },
                Err(error) => config.rejection() == Some(error),
            },
    {
        match config.validate() {
            Some(error) => Err(error),
            None => Ok(BroadcastLoop { config, phase: Phase::Idle }),
        }
    }

    /// The phase that the loop is in.
    #[verifier::when_used_as_spec(spec_phase)]
    pub fn phase(&self) -> (phase: Phase)
        ensures
            phase == self.spec_phase(),
    {
        self.phase
    }

    /// Takes the outcome of the last call and returns the next call, as
    /// [`transition`] rules.
    pub fn step(&mut self, event: Event) -> (action: Action)
        ensures
            final(self).config() == old(self).config(),
            (final(self).phase(), action@) == transition(
                old(self).config(),
                old(self).phase(),
                event,
            ),
    {
        proof {
            use_type_invariant(&*self);
        }
        let phase = self.phase;
        if let Phase::Halted { reason } = phase {
            return Action::Halt(reason);
        }
        match event {
            Event::SensorFailed => self.halt(HaltReason::SensorFailure),
            Event::Radio(outcome) => {
                if !outcome.ends_broadcast() {
                    self.halt(HaltReason::RadioFailure)
                } else {
                    match phase {
                        Phase::Broadcasting => {
                            self.phase = Phase::Waking;
                            Action::SetIndicator(Indicator::Busy)
                        },
                        _ => self.halt(HaltReason::UnexpectedEvent),
                    }
                }
            },
            Event::RadioReady => match phase {
                Phase::Idle => {
                    self.phase = Phase::Waking;
                    Action::SetIndicator(Indicator::Busy)
                },
                _ => self.halt(HaltReason::UnexpectedEvent),
            },
            Event::OutputSet => match phase {
                Phase::Waking => {
                    self.phase = Phase::Sampling;
                    Action::ReadSensor
                },
                Phase::Encoding { temperature } => {
                    let payload = self.accepted_payload(temperature);
                    self.phase = Phase::Broadcasting;
                    Action::Advertise { payload, timeout: self.config.timeout }
                },
                _ => self.halt(HaltReason::UnexpectedEvent),
            },
            Event::Measured(measurement) => match phase {
                Phase::Sampling => {
                    self.phase = Phase::Encoding {
                        temperature: measurement.quantized_temperature(),
                    };
                    Action::SetIndicator(Indicator::Idle)
                },
                _ => self.halt(HaltReason::UnexpectedEvent),
            },
        }
    }

    /// Stops the loop.
    fn halt(&mut self, reason: HaltReason) -> (action: Action)
        ensures
            final(self).config() == old(self).config(),
            final(self).phase() == (Phase::Halted { reason }),
            action@ == Call::Halt(reason),
    {
        proof {
            use_type_invariant(&*self);
        }
        self.phase = Phase::Halted { reason };
        Action::Halt(reason)
    }

    /// Builds the payload for `temperature`; the configuration is known to
    /// give one.
    fn accepted_payload(&self, temperature: u8) -> (payload: AdvertisementPayload)
        ensures
            payload@ == wire(self.config().records(temperature)),
    {
        proof {
            use_type_invariant(self);
        }
        let uuids: [u16; 1] = [self.config.service_uuid];
        let mut data: Vec<u8> = Vec::new();
        data.push(temperature);
        assert(uuids@ =~= seq![self.config.service_uuid]);
        let service_data = ServiceData { uuid: self.config.service_uuid, data };
        encode_accepted(
            self.config.flags.as_slice(),
            uuids.as_slice(),
            self.config.short_name.as_str(),
            &service_data,
        )
    }
}

} // verus!
