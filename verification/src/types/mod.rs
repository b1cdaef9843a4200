//! The values that the driver hands out and takes.

pub mod fault;
pub mod input;
pub mod status;
pub mod timer;

pub use fault::{BatFault, BoostFault, ChargeFault, Faults, NtcFault, WatchdogFault};
pub use input::{InputCurrentLimit, InputVoltageLimit};
pub use status::{ChargerStatus, VBusStatus};
pub use timer::WatchdogTimer;
