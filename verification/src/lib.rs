//! Core logic of a temperature beacon: a sensor reading is quantized, packed
//! into a legacy Bluetooth LE advertisement and handed to the radio, cycle
//! after cycle, while a heartbeat output shows that the scheduler is alive.
//!
//! Everything here is a pure function or a steppable state machine. Timers,
//! pins, the sensor bus and the radio stack are driven by the caller, which
//! performs each action a machine asks for and feeds the outcome back in.

pub mod advertisement;
pub mod beacon;
pub mod encoder;
pub mod flags;
pub mod heartbeat;
pub mod measurement;
pub mod run;
