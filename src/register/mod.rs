//! The device's register map, split over three banks that share one address range.
pub mod ispu;
pub mod main;
pub mod sensor_hub;

use vstd::prelude::*;

verus! {

/// Memory bank selection for register access.
///
/// Main memory bank, sensor hub memory bank, or ISPU memory bank.
#[derive(Clone, Copy, PartialEq, Eq, Debug, Structural)]
pub enum MemBank {
    /// Main memory bank
    MainMemBank,
    /// Sensor hub memory bank
    SensorHubMemBank,
    /// ISPU memory bank
    IspuMemBank,
}

} // verus!
