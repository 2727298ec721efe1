//! Driver for the LSM6DSO16IS 6-axis inertial sensor: register access scoped
//! to the device's three memory banks, the ISPU memory window, and a bridge
//! that drives secondary devices through the sensor hub.
pub mod bits;
pub mod bus;
pub mod composite;
pub mod driver;
pub mod fields;
pub mod ispu_memory;
pub mod passthrough;
pub mod register;
pub mod routing;
pub mod sensor_hub;
pub mod words;

pub use bus::{BusEvent, BusOperation, DelayNs, Trace};
pub use driver::{Error, I2CAddress, IspuState, Lsm6dso16is, SensorHubState};
pub use ispu_memory::program_ram_segments;
pub use passthrough::{Lsm6dso16isPassthrough, MAX_HUB_READ, MAX_POLLS};
pub use register::MemBank;
pub use routing::AllSources;
pub use words::ID;
