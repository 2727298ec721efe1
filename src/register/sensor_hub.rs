//! Registers of the sensor-hub bank: the auxiliary I2C master's slots and outputs.
use crate::bits::{field_of, get_field, lemma_field_max, put_field, with_field};
use vstd::prelude::*;

verus! {

#[derive(Clone, Copy, PartialEq, Eq, Debug, Structural)]
pub enum SensHubReg {
    SensorHub1,
    SensorHub2,
    SensorHub3,
    SensorHub4,
    SensorHub5,
    SensorHub6,
    SensorHub7,
    SensorHub8,
    SensorHub9,
    SensorHub10,
    SensorHub11,
    SensorHub12,
    SensorHub13,
    SensorHub14,
    SensorHub15,
    SensorHub16,
    SensorHub17,
    SensorHub18,
    MasterConfig,
    Slv0Add,
    Slv0Subadd,
    Slv0Config,
    Slv1Add,
    Slv1Subadd,
    Slv1Config,
    Slv2Add,
    Slv2Subadd,
    Slv2Config,
    Slv3Add,
    Slv3Subadd,
    Slv3Config,
    DatawriteSlv0,
    StatusMaster,
}

impl SensHubReg {
    /// The register's address on the bus.
    pub open spec fn spec_addr(self) -> u8 {
        match self {
            SensHubReg::SensorHub1 => 0x02,
            SensHubReg::SensorHub2 => 0x03,
            SensHubReg::SensorHub3 => 0x04,
            SensHubReg::SensorHub4 => 0x05,
            SensHubReg::SensorHub5 => 0x06,
            SensHubReg::SensorHub6 => 0x07,
            SensHubReg::SensorHub7 => 0x08,
            SensHubReg::SensorHub8 => 0x09,
            SensHubReg::SensorHub9 => 0x0A,
            SensHubReg::SensorHub10 => 0x0B,
            SensHubReg::SensorHub11 => 0x0C,
            SensHubReg::SensorHub12 => 0x0D,
            SensHubReg::SensorHub13 => 0x0E,
            SensHubReg::SensorHub14 => 0x0F,
            SensHubReg::SensorHub15 => 0x10,
            SensHubReg::SensorHub16 => 0x11,
            SensHubReg::SensorHub17 => 0x12,
            SensHubReg::SensorHub18 => 0x13,
            SensHubReg::MasterConfig => 0x14,
            SensHubReg::Slv0Add => 0x15,
            SensHubReg::Slv0Subadd => 0x16,
            SensHubReg::Slv0Config => 0x17,
            SensHubReg::Slv1Add => 0x18,
            SensHubReg::Slv1Subadd => 0x19,
            SensHubReg::Slv1Config => 0x1A,
            SensHubReg::Slv2Add => 0x1B,
            SensHubReg::Slv2Subadd => 0x1C,
            SensHubReg::Slv2Config => 0x1D,
            SensHubReg::Slv3Add => 0x1E,
            SensHubReg::Slv3Subadd => 0x1F,
            SensHubReg::Slv3Config => 0x20,
            SensHubReg::DatawriteSlv0 => 0x21,
            SensHubReg::StatusMaster => 0x22,
        }
    }

    /// The register's address on the bus.
    pub fn addr(self) -> (r: u8)
        ensures
            r == self.spec_addr(),
    {
        match self {
            SensHubReg::SensorHub1 => 0x02,
            SensHubReg::SensorHub2 => 0x03,
            SensHubReg::SensorHub3 => 0x04,
            SensHubReg::SensorHub4 => 0x05,
            SensHubReg::SensorHub5 => 0x06,
            SensHubReg::SensorHub6 => 0x07,
            SensHubReg::SensorHub7 => 0x08,
            SensHubReg::SensorHub8 => 0x09,
            SensHubReg::SensorHub9 => 0x0A,
            SensHubReg::SensorHub10 => 0x0B,
            SensHubReg::SensorHub11 => 0x0C,
            SensHubReg::SensorHub12 => 0x0D,
            SensHubReg::SensorHub13 => 0x0E,
            SensHubReg::SensorHub14 => 0x0F,
            SensHubReg::SensorHub15 => 0x10,
            SensHubReg::SensorHub16 => 0x11,
            SensHubReg::SensorHub17 => 0x12,
            SensHubReg::SensorHub18 => 0x13,
            SensHubReg::MasterConfig => 0x14,
            SensHubReg::Slv0Add => 0x15,
            SensHubReg::Slv0Subadd => 0x16,
            SensHubReg::Slv0Config => 0x17,
            SensHubReg::Slv1Add => 0x18,
            SensHubReg::Slv1Subadd => 0x19,
            SensHubReg::Slv1Config => 0x1A,
            SensHubReg::Slv2Add => 0x1B,
            SensHubReg::Slv2Subadd => 0x1C,
            SensHubReg::Slv2Config => 0x1D,
            SensHubReg::Slv3Add => 0x1E,
            SensHubReg::Slv3Subadd => 0x1F,
            SensHubReg::Slv3Config => 0x20,
            SensHubReg::DatawriteSlv0 => 0x21,
            SensHubReg::StatusMaster => 0x22,
        }
    }
}

/// SENSOR_HUB_1 (0x02)
///
/// Sensor hub output register (R)
/// First byte associated to external sensors.
/// Content consistent with SLVx_CONFIG number of read operation configurations.
#[derive(Clone, Copy, PartialEq, Eq, Debug, Structural)]
pub struct SensorHub1(pub u8);

impl SensorHub1 {
    /// The register at its raw byte value.
    pub fn from_bits(bits: u8) -> (r: Self)
        ensures
            r.0 == bits,
    {
        SensorHub1(bits)
    }

    /// The raw byte value of the register.
    pub fn into_bits(self) -> (r: u8)
        ensures
            r == self.0,
    {
        self.0
    }

    pub fn sensorhub1(&self) -> (r: u8)
        ensures
            r == field_of(self.0, 0, 8),
            r <= 0xFF,
    {
        proof {
            lemma_field_max();
        }
        get_field(self.0, 0, 8)
    }

    pub fn set_sensorhub1(&mut self, v: u8)
        requires
            v <= 0xFF,
        ensures
            final(self).0 == with_field(old(self).0, 0, 8, v),
    {
        self.0 = put_field(self.0, 0, 8, v);
    }
}

/// SENSOR_HUB_2 (0x03)
///
/// Sensor hub output register (R)
/// Second byte associated to external sensors.
/// Content consistent with SLVx_CONFIG number of read operation configurations.
#[derive(Clone, Copy, PartialEq, Eq, Debug, Structural)]
pub struct SensorHub2(pub u8);

impl SensorHub2 {
    /// The register at its raw byte value.
    pub fn from_bits(bits: u8) -> (r: Self)
        ensures
            r.0 == bits,
    {
        SensorHub2(bits)
    }

    /// The raw byte value of the register.
    pub fn into_bits(self) -> (r: u8)
        ensures
            r == self.0,
    {
        self.0
    }

    pub fn sensorhub2(&self) -> (r: u8)
        ensures
            r == field_of(self.0, 0, 8),
            r <= 0xFF,
    {
        proof {
            lemma_field_max();
        }
        get_field(self.0, 0, 8)
    }

    pub fn set_sensorhub2(&mut self, v: u8)
        requires
            v <= 0xFF,
        ensures
            final(self).0 == with_field(old(self).0, 0, 8, v),
    {
        self.0 = put_field(self.0, 0, 8, v);
    }
}

/// SENSOR_HUB_3 (0x04)
///
/// Sensor hub output register (R)
/// Third byte associated to external sensors.
/// Content consistent with SLVx_CONFIG number of read operation configurations (for external sensors 0 to 3).
#[derive(Clone, Copy, PartialEq, Eq, Debug, Structural)]
pub struct SensorHub3(pub u8);

impl SensorHub3 {
    /// The register at its raw byte value.
    pub fn from_bits(bits: u8) -> (r: Self)
        ensures
            r.0 == bits,
    {
        SensorHub3(bits)
    }

    /// The raw byte value of the register.
    pub fn into_bits(self) -> (r: u8)
        ensures
            r == self.0,
    {
        self.0
    }

    pub fn sensorhub3(&self) -> (r: u8)
        ensures
            r == field_of(self.0, 0, 8),
            r <= 0xFF,
    {
        proof {
            lemma_field_max();
        }
        get_field(self.0, 0, 8)
    }

    pub fn set_sensorhub3(&mut self, v: u8)
        requires
            v <= 0xFF,
        ensures
            final(self).0 == with_field(old(self).0, 0, 8, v),
    {
        self.0 = put_field(self.0, 0, 8, v);
    }
}

/// SENSOR_HUB_4 (0x05)
///
/// Sensor hub output register (R)
/// Fourth byte associated to external sensors.
/// Content consistent with SLVx_CONFIG number of read operation configurations (for external sensors 0 to 3).
#[derive(Clone, Copy, PartialEq, Eq, Debug, Structural)]
pub struct SensorHub4(pub u8);

impl SensorHub4 {
    /// The register at its raw byte value.
    pub fn from_bits(bits: u8) -> (r: Self)
        ensures
            r.0 == bits,
    {
        SensorHub4(bits)
    }

    /// The raw byte value of the register.
    pub fn into_bits(self) -> (r: u8)
        ensures
            r == self.0,
    {
        self.0
    }

    pub fn sensorhub4(&self) -> (r: u8)
        ensures
            r == field_of(self.0, 0, 8),
            r <= 0xFF,
    {
        proof {
            lemma_field_max();
        }
        get_field(self.0, 0, 8)
    }

    pub fn set_sensorhub4(&mut self, v: u8)
        requires
            v <= 0xFF,
        ensures
            final(self).0 == with_field(old(self).0, 0, 8, v),
    {
        self.0 = put_field(self.0, 0, 8, v);
    }
}

/// SENSOR_HUB_5 (0x06)
///
/// Sensor hub output register (R)
/// Fifth byte associated to external sensors.
/// Content consistent with SLVx_CONFIG number of read operation configurations (for external sensors 0 to 3).
#[derive(Clone, Copy, PartialEq, Eq, Debug, Structural)]
pub struct SensorHub5(pub u8);

impl SensorHub5 {
    /// The register at its raw byte value.
    pub fn from_bits(bits: u8) -> (r: Self)
        ensures
            r.0 == bits,
    {
        SensorHub5(bits)
    }

    /// The raw byte value of the register.
    pub fn into_bits(self) -> (r: u8)
        ensures
            r == self.0,
    {
        self.0
    }

    pub fn sensorhub5(&self) -> (r: u8)
        ensures
            r == field_of(self.0, 0, 8),
            r <= 0xFF,
    {
        proof {
            lemma_field_max();
        }
        get_field(self.0, 0, 8)
    }

    pub fn set_sensorhub5(&mut self, v: u8)
        requires
            v <= 0xFF,
        ensures
            final(self).0 == with_field(old(self).0, 0, 8, v),
    {
        self.0 = put_field(self.0, 0, 8, v);
    }
}

/// SENSOR_HUB_6 (0x07)
///
/// Sensor hub output register (R)
/// Sixth byte associated to external sensors.
/// Content consistent with SLVx_CONFIG number of read operation configurations (for external sensors 0 to 3).
#[derive(Clone, Copy, PartialEq, Eq, Debug, Structural)]
pub struct SensorHub6(pub u8);

impl SensorHub6 {
    /// The register at its raw byte value.
    pub fn from_bits(bits: u8) -> (r: Self)
        ensures
            r.0 == bits,
    {
        SensorHub6(bits)
    }

    /// The raw byte value of the register.
    pub fn into_bits(self) -> (r: u8)
        ensures
            r == self.0,
    {
        self.0
    }

    pub fn sensorhub6(&self) -> (r: u8)
        ensures
            r == field_of(self.0, 0, 8),
            r <= 0xFF,
    {
        proof {
            lemma_field_max();
        }
        get_field(self.0, 0, 8)
    }

    pub fn set_sensorhub6(&mut self, v: u8)
        requires
            v <= 0xFF,
        ensures
            final(self).0 == with_field(old(self).0, 0, 8, v),
    {
        self.0 = put_field(self.0, 0, 8, v);
    }
}

/// SENSOR_HUB_7 (0x08)
///
/// Sensor hub output register (R)
/// Seventh byte associated to external sensors.
/// Content consistent with SLVx_CONFIG number of read operation configurations (for external sensors 0 to 3).
#[derive(Clone, Copy, PartialEq, Eq, Debug, Structural)]
pub struct SensorHub7(pub u8);

impl SensorHub7 {
    /// The register at its raw byte value.
    pub fn from_bits(bits: u8) -> (r: Self)
        ensures
            r.0 == bits,
    {
        SensorHub7(bits)
    }

    /// The raw byte value of the register.
    pub fn into_bits(self) -> (r: u8)
        ensures
            r == self.0,
    {
        self.0
    }

    pub fn sensorhub7(&self) -> (r: u8)
        ensures
            r == field_of(self.0, 0, 8),
            r <= 0xFF,
    {
        proof {
            lemma_field_max();
        }
        get_field(self.0, 0, 8)
    }

    pub fn set_sensorhub7(&mut self, v: u8)
        requires
            v <= 0xFF,
        ensures
            final(self).0 == with_field(old(self).0, 0, 8, v),
    {
        self.0 = put_field(self.0, 0, 8, v);
    }
}

/// SENSOR_HUB_8 (0x09)
///
/// Sensor hub output register (R)
/// Eighth byte associated to external sensors.
/// Content consistent with SLVx_CONFIG number of read operation configurations (for external sensors 0 to 3).
#[derive(Clone, Copy, PartialEq, Eq, Debug, Structural)]
pub struct SensorHub8(pub u8);

impl SensorHub8 {
    /// The register at its raw byte value.
    pub fn from_bits(bits: u8) -> (r: Self)
        ensures
            r.0 == bits,
    {
        SensorHub8(bits)
    }

    /// The raw byte value of the register.
    pub fn into_bits(self) -> (r: u8)
        ensures
            r == self.0,
    {
        self.0
    }

    pub fn sensorhub8(&self) -> (r: u8)
        ensures
            r == field_of(self.0, 0, 8),
            r <= 0xFF,
    {
        proof {
            lemma_field_max();
        }
        get_field(self.0, 0, 8)
    }

    pub fn set_sensorhub8(&mut self, v: u8)
        requires
            v <= 0xFF,
        ensures
            final(self).0 == with_field(old(self).0, 0, 8, v),
    {
        self.0 = put_field(self.0, 0, 8, v);
    }
}

/// SENSOR_HUB_9 (0x0A)
///
/// Sensor hub output register (R)
/// Ninth byte associated to external sensors.
/// Content consistent with SLVx_CONFIG number of read operation configurations (for external sensors 0 to 3).
#[derive(Clone, Copy, PartialEq, Eq, Debug, Structural)]
pub struct SensorHub9(pub u8);

impl SensorHub9 {
    /// The register at its raw byte value.
    pub fn from_bits(bits: u8) -> (r: Self)
        ensures
            r.0 == bits,
    {
        SensorHub9(bits)
    }

    /// The raw byte value of the register.
    pub fn into_bits(self) -> (r: u8)
        ensures
            r == self.0,
    {
        self.0
    }

    pub fn sensorhub9(&self) -> (r: u8)
        ensures
            r == field_of(self.0, 0, 8),
            r <= 0xFF,
    {
        proof {
            lemma_field_max();
        }
        get_field(self.0, 0, 8)
    }

    pub fn set_sensorhub9(&mut self, v: u8)
        requires
            v <= 0xFF,
        ensures
            final(self).0 == with_field(old(self).0, 0, 8, v),
    {
        self.0 = put_field(self.0, 0, 8, v);
    }
}

/// SENSOR_HUB_10 (0x0B)
///
/// Sensor hub output register (R)
/// Tenth byte associated to external sensors.
/// Content consistent with SLVx_CONFIG number of read operation configurations (for external sensors 0 to 3).
#[derive(Clone, Copy, PartialEq, Eq, Debug, Structural)]
pub struct SensorHub10(pub u8);

impl SensorHub10 {
    /// The register at its raw byte value.
    pub fn from_bits(bits: u8) -> (r: Self)
        ensures
            r.0 == bits,
    {
        SensorHub10(bits)
    }

    /// The raw byte value of the register.
    pub fn into_bits(self) -> (r: u8)
        ensures
            r == self.0,
    {
        self.0
    }

    pub fn sensorhub10(&self) -> (r: u8)
        ensures
            r == field_of(self.0, 0, 8),
            r <= 0xFF,
    {
        proof {
            lemma_field_max();
        }
        get_field(self.0, 0, 8)
    }

    pub fn set_sensorhub10(&mut self, v: u8)
        requires
            v <= 0xFF,
        ensures
            final(self).0 == with_field(old(self).0, 0, 8, v),
    {
        self.0 = put_field(self.0, 0, 8, v);
    }
}

/// SENSOR_HUB_11 (0x0C)
///
/// Sensor hub output register (R)
/// Eleventh byte associated to external sensors.
/// Content consistent with SLVx_CONFIG number of read operation configurations (for external sensors 0 to 3).
#[derive(Clone, Copy, PartialEq, Eq, Debug, Structural)]
pub struct SensorHub11(pub u8);

impl SensorHub11 {
    /// The register at its raw byte value.
    pub fn from_bits(bits: u8) -> (r: Self)
        ensures
            r.0 == bits,
    {
        SensorHub11(bits)
    }

    /// The raw byte value of the register.
    pub fn into_bits(self) -> (r: u8)
        ensures
            r == self.0,
    {
        self.0
    }

    pub fn sensorhub11(&self) -> (r: u8)
        ensures
            r == field_of(self.0, 0, 8),
            r <= 0xFF,
    {
        proof {
            lemma_field_max();
        }
        get_field(self.0, 0, 8)
    }

    pub fn set_sensorhub11(&mut self, v: u8)
        requires
            v <= 0xFF,
        ensures
            final(self).0 == with_field(old(self).0, 0, 8, v),
    {
        self.0 = put_field(self.0, 0, 8, v);
    }
}

/// SENSOR_HUB_12 (0x0D)
///
/// Sensor hub output register (R)
/// Twelfth byte associated to external sensors.
/// Content consistent with SLVx_CONFIG number of read operation configurations (for external sensors 0 to 3).
#[derive(Clone, Copy, PartialEq, Eq, Debug, Structural)]
pub struct SensorHub12(pub u8);

impl SensorHub12 {
    /// The register at its raw byte value.
    pub fn from_bits(bits: u8) -> (r: Self)
        ensures
            r.0 == bits,
    {
        SensorHub12(bits)
    }

    /// The raw byte value of the register.
    pub fn into_bits(self) -> (r: u8)
        ensures
            r == self.0,
    {
        self.0
    }

    pub fn sensorhub12(&self) -> (r: u8)
        ensures
            r == field_of(self.0, 0, 8),
            r <= 0xFF,
    {
        proof {
            lemma_field_max();
        }
        get_field(self.0, 0, 8)
    }

    pub fn set_sensorhub12(&mut self, v: u8)
        requires
            v <= 0xFF,
        ensures
            final(self).0 == with_field(old(self).0, 0, 8, v),
    {
        self.0 = put_field(self.0, 0, 8, v);
    }
}

/// SENSOR_HUB_13 (0x0E)
///
/// Sensor hub output register (R)
/// Thirteenth byte associated to external sensors.
/// Content consistent with SLVx_CONFIG number of read operation configurations (for external sensors 0 to 3).
#[derive(Clone, Copy, PartialEq, Eq, Debug, Structural)]
pub struct SensorHub13(pub u8);

impl SensorHub13 {
    /// The register at its raw byte value.
    pub fn from_bits(bits: u8) -> (r: Self)
        ensures
            r.0 == bits,
    {
        SensorHub13(bits)
    }

    /// The raw byte value of the register.
    pub fn into_bits(self) -> (r: u8)
        ensures
            r == self.0,
    {
        self.0
    }

    pub fn sensorhub13(&self) -> (r: u8)
        ensures
            r == field_of(self.0, 0, 8),
            r <= 0xFF,
    {
        proof {
            lemma_field_max();
        }
        get_field(self.0, 0, 8)
    }

    pub fn set_sensorhub13(&mut self, v: u8)
        requires
            v <= 0xFF,
        ensures
            final(self).0 == with_field(old(self).0, 0, 8, v),
    {
        self.0 = put_field(self.0, 0, 8, v);
    }
}

/// SENSOR_HUB_14 (0x0F)
///
/// Sensor hub output register (R)
/// Fourteenth byte associated to external sensors.
/// Content consistent with SLVx_CONFIG number of read operation configurations (for external sensors 0 to 3).
#[derive(Clone, Copy, PartialEq, Eq, Debug, Structural)]
pub struct SensorHub14(pub u8);

impl SensorHub14 {
    /// The register at its raw byte value.
    pub fn from_bits(bits: u8) -> (r: Self)
        ensures
            r.0 == bits,
    {
        SensorHub14(bits)
    }

    /// The raw byte value of the register.
    pub fn into_bits(self) -> (r: u8)
        ensures
            r == self.0,
    {
        self.0
    }

    pub fn sensorhub14(&self) -> (r: u8)
        ensures
            r == field_of(self.0, 0, 8),
            r <= 0xFF,
    {
        proof {
            lemma_field_max();
        }
        get_field(self.0, 0, 8)
    }

    pub fn set_sensorhub14(&mut self, v: u8)
        requires
            v <= 0xFF,
        ensures
            final(self).0 == with_field(old(self).0, 0, 8, v),
    {
        self.0 = put_field(self.0, 0, 8, v);
    }
}

/// SENSOR_HUB_15 (0x10)
///
/// Sensor hub output register (R)
/// Fifteenth byte associated to external sensors.
/// Content consistent with SLVx_CONFIG number of read operation configurations (for external sensors 0 to 3).
#[derive(Clone, Copy, PartialEq, Eq, Debug, Structural)]
pub struct SensorHub15(pub u8);

impl SensorHub15 {
    /// The register at its raw byte value.
    pub fn from_bits(bits: u8) -> (r: Self)
        ensures
            r.0 == bits,
    {
        SensorHub15(bits)
    }

    /// The raw byte value of the register.
    pub fn into_bits(self) -> (r: u8)
        ensures
            r == self.0,
    {
        self.0
    }

    pub fn sensorhub15(&self) -> (r: u8)
        ensures
            r == field_of(self.0, 0, 8),
            r <= 0xFF,
    {
        proof {
            lemma_field_max();
        }
        get_field(self.0, 0, 8)
    }

    pub fn set_sensorhub15(&mut self, v: u8)
        requires
            v <= 0xFF,
        ensures
            final(self).0 == with_field(old(self).0, 0, 8, v),
    {
        self.0 = put_field(self.0, 0, 8, v);
    }
}

/// SENSOR_HUB_16 (0x11)
///
/// Sensor hub output register (R)
/// Sixteenth byte associated to external sensors.
/// Content consistent with SLVx_CONFIG number of read operation configurations (for external sensors 0 to 3).
#[derive(Clone, Copy, PartialEq, Eq, Debug, Structural)]
pub struct SensorHub16(pub u8);

impl SensorHub16 {
    /// The register at its raw byte value.
    pub fn from_bits(bits: u8) -> (r: Self)
        ensures
            r.0 == bits,
    {
        SensorHub16(bits)
    }

    /// The raw byte value of the register.
    pub fn into_bits(self) -> (r: u8)
        ensures
            r == self.0,
    {
        self.0
    }

    pub fn sensorhub16(&self) -> (r: u8)
        ensures
            r == field_of(self.0, 0, 8),
            r <= 0xFF,
    {
        proof {
            lemma_field_max();
        }
        get_field(self.0, 0, 8)
    }

    pub fn set_sensorhub16(&mut self, v: u8)
        requires
            v <= 0xFF,
        ensures
            final(self).0 == with_field(old(self).0, 0, 8, v),
    {
        self.0 = put_field(self.0, 0, 8, v);
    }
}

/// SENSOR_HUB_17 (0x12)
///
/// Sensor hub output register (R)
/// Seventeenth byte associated to external sensors.
/// Content consistent with SLVx_CONFIG number of read operation configurations (for external sensors 0 to 3).
#[derive(Clone, Copy, PartialEq, Eq, Debug, Structural)]
pub struct SensorHub17(pub u8);

impl SensorHub17 {
    /// The register at its raw byte value.
    pub fn from_bits(bits: u8) -> (r: Self)
        ensures
            r.0 == bits,
    {
        SensorHub17(bits)
    }

    /// The raw byte value of the register.
    pub fn into_bits(self) -> (r: u8)
        ensures
            r == self.0,
    {
        self.0
    }

    pub fn sensorhub17(&self) -> (r: u8)
        ensures
            r == field_of(self.0, 0, 8),
            r <= 0xFF,
    {
        proof {
            lemma_field_max();
        }
        get_field(self.0, 0, 8)
    }

    pub fn set_sensorhub17(&mut self, v: u8)
        requires
            v <= 0xFF,
        ensures
            final(self).0 == with_field(old(self).0, 0, 8, v),
    {
        self.0 = put_field(self.0, 0, 8, v);
    }
}

/// SENSOR_HUB_18 (0x13)
///
/// Sensor hub output register (R)
/// Eighteenth byte associated to external sensors.
/// Content consistent with SLVx_CONFIG number of read operation configurations (for external sensors 0 to 3).
#[derive(Clone, Copy, PartialEq, Eq, Debug, Structural)]
pub struct SensorHub18(pub u8);

impl SensorHub18 {
    /// The register at its raw byte value.
    pub fn from_bits(bits: u8) -> (r: Self)
        ensures
            r.0 == bits,
    {
        SensorHub18(bits)
    }

    /// The raw byte value of the register.
    pub fn into_bits(self) -> (r: u8)
        ensures
            r == self.0,
    {
        self.0
    }

    pub fn sensorhub18(&self) -> (r: u8)
        ensures
            r == field_of(self.0, 0, 8),
            r <= 0xFF,
    {
        proof {
            lemma_field_max();
        }
        get_field(self.0, 0, 8)
    }

    pub fn set_sensorhub18(&mut self, v: u8)
        requires
            v <= 0xFF,
        ensures
            final(self).0 == with_field(old(self).0, 0, 8, v),
    {
        self.0 = put_field(self.0, 0, 8, v);
    }
}

/// MASTER_CONFIG (0x14)
///
/// Master configuration register (R/W)
///
/// - AUX_SENS_ON[1:0]: Number of external sensors to be read by the sensor hub.
///   00: one sensor; 01: two sensors; 10: three sensors; 11: four sensors.
/// - MASTER_ON: Enables sensor hub I²C master.
///   0: disabled; 1: enabled.
/// - SHUB_PU_EN: Enables master I²C pull-up.
///   0: internal pull-up disabled; 1: enabled.
/// - PASS_THROUGH_MODE: I²C interface pass-through.
///   0: disabled; 1: enabled (main I²C line short-circuited with auxiliary line).
/// - START_CONFIG: Selects sensor hub trigger signal.
///   0: accelerometer/gyro data-ready; 1: external INT2 pin.
/// - WRITE_ONCE: Slave 0 write operation performed only at first sensor hub cycle.
///   0: write operation each cycle; 1: only first cycle.
/// - RST_MASTER_REGS: Resets master logic and output registers.
///   Must be set to 1 then 0.
#[derive(Clone, Copy, PartialEq, Eq, Debug, Structural)]
pub struct MasterConfig(pub u8);

impl MasterConfig {
    /// The register at its raw byte value.
    pub fn from_bits(bits: u8) -> (r: Self)
        ensures
            r.0 == bits,
    {
        MasterConfig(bits)
    }

    /// The raw byte value of the register.
    pub fn into_bits(self) -> (r: u8)
        ensures
            r == self.0,
    {
        self.0
    }

    pub fn aux_sens_on(&self) -> (r: u8)
        ensures
            r == field_of(self.0, 0, 2),
            r <= 0x03,
    {
        proof {
            lemma_field_max();
        }
        get_field(self.0, 0, 2)
    }

    pub fn set_aux_sens_on(&mut self, v: u8)
        requires
            v <= 0x03,
        ensures
            final(self).0 == with_field(old(self).0, 0, 2, v),
    {
        self.0 = put_field(self.0, 0, 2, v);
    }

    pub fn master_on(&self) -> (r: u8)
        ensures
            r == field_of(self.0, 2, 1),
            r <= 0x01,
    {
        proof {
            lemma_field_max();
        }
        get_field(self.0, 2, 1)
    }

    pub fn set_master_on(&mut self, v: u8)
        requires
            v <= 0x01,
        ensures
            final(self).0 == with_field(old(self).0, 2, 1, v),
    {
        self.0 = put_field(self.0, 2, 1, v);
    }

    pub fn shub_pu_en(&self) -> (r: u8)
        ensures
            r == field_of(self.0, 3, 1),
            r <= 0x01,
    {
        proof {
            lemma_field_max();
        }
        get_field(self.0, 3, 1)
    }

    pub fn set_shub_pu_en(&mut self, v: u8)
        requires
            v <= 0x01,
        ensures
            final(self).0 == with_field(old(self).0, 3, 1, v),
    {
        self.0 = put_field(self.0, 3, 1, v);
    }

    pub fn pass_through_mode(&self) -> (r: u8)
        ensures
            r == field_of(self.0, 4, 1),
            r <= 0x01,
    {
        proof {
            lemma_field_max();
        }
        get_field(self.0, 4, 1)
    }

    pub fn set_pass_through_mode(&mut self, v: u8)
        requires
            v <= 0x01,
        ensures
            final(self).0 == with_field(old(self).0, 4, 1, v),
    {
        self.0 = put_field(self.0, 4, 1, v);
    }

    pub fn start_config(&self) -> (r: u8)
        ensures
            r == field_of(self.0, 5, 1),
            r <= 0x01,
    {
        proof {
            lemma_field_max();
        }
        get_field(self.0, 5, 1)
    }

    pub fn set_start_config(&mut self, v: u8)
        requires
            v <= 0x01,
        ensures
            final(self).0 == with_field(old(self).0, 5, 1, v),
    {
        self.0 = put_field(self.0, 5, 1, v);
    }

    pub fn write_once(&self) -> (r: u8)
        ensures
            r == field_of(self.0, 6, 1),
            r <= 0x01,
    {
        proof {
            lemma_field_max();
        }
        get_field(self.0, 6, 1)
    }

    pub fn set_write_once(&mut self, v: u8)
        requires
            v <= 0x01,
        ensures
            final(self).0 == with_field(old(self).0, 6, 1, v),
    {
        self.0 = put_field(self.0, 6, 1, v);
    }

    pub fn rst_master_regs(&self) -> (r: u8)
        ensures
            r == field_of(self.0, 7, 1),
            r <= 0x01,
    {
        proof {
            lemma_field_max();
        }
        get_field(self.0, 7, 1)
    }

    pub fn set_rst_master_regs(&mut self, v: u8)
        requires
            v <= 0x01,
        ensures
            final(self).0 == with_field(old(self).0, 7, 1, v),
    {
        self.0 = put_field(self.0, 7, 1, v);
    }
}

/// SLV0_ADD (0x15)
///
/// I²C slave address of the first external sensor (sensor 1) register (R/W)
///
/// - RW_0: Read/write operation on sensor 1.
///   0: write operation; 1: read operation.
/// - SLAVE0_ADD[6:0]: I²C slave address of sensor 1.
#[derive(Clone, Copy, PartialEq, Eq, Debug, Structural)]
pub struct Slv0Add(pub u8);

impl Slv0Add {
    /// The register at its raw byte value.
    pub fn from_bits(bits: u8) -> (r: Self)
        ensures
            r.0 == bits,
    {
        Slv0Add(bits)
    }

    /// The raw byte value of the register.
    pub fn into_bits(self) -> (r: u8)
        ensures
            r == self.0,
    {
        self.0
    }

    pub fn rw_0(&self) -> (r: u8)
        ensures
            r == field_of(self.0, 0, 1),
            r <= 0x01,
    {
        proof {
            lemma_field_max();
        }
        get_field(self.0, 0, 1)
    }

    pub fn set_rw_0(&mut self, v: u8)
        requires
            v <= 0x01,
        ensures
            final(self).0 == with_field(old(self).0, 0, 1, v),
    {
        self.0 = put_field(self.0, 0, 1, v);
    }

    pub fn slave0_add(&self) -> (r: u8)
        ensures
            r == field_of(self.0, 1, 7),
            r <= 0x7F,
    {
        proof {
            lemma_field_max();
        }
        get_field(self.0, 1, 7)
    }

    pub fn set_slave0_add(&mut self, v: u8)
        requires
            v <= 0x7F,
        ensures
            final(self).0 == with_field(old(self).0, 1, 7, v),
    {
        self.0 = put_field(self.0, 1, 7, v);
    }
}

/// SLV0_SUBADD (0x16)
///
/// Address of register on the first external sensor (sensor 1) (R/W)
#[derive(Clone, Copy, PartialEq, Eq, Debug, Structural)]
pub struct Slv0Subadd(pub u8);

impl Slv0Subadd {
    /// The register at its raw byte value.
    pub fn from_bits(bits: u8) -> (r: Self)
        ensures
            r.0 == bits,
    {
        Slv0Subadd(bits)
    }

    /// The raw byte value of the register.
    pub fn into_bits(self) -> (r: u8)
        ensures
            r == self.0,
    {
        self.0
    }

    pub fn slave0_reg(&self) -> (r: u8)
        ensures
            r == field_of(self.0, 0, 8),
            r <= 0xFF,
    {
        proof {
            lemma_field_max();
        }
        get_field(self.0, 0, 8)
    }

    pub fn set_slave0_reg(&mut self, v: u8)
        requires
            v <= 0xFF,
        ensures
            final(self).0 == with_field(old(self).0, 0, 8, v),
    {
        self.0 = put_field(self.0, 0, 8, v);
    }
}

/// SLV0_CONFIG (0x17)
///
/// First external sensor (sensor 1) configuration and sensor hub settings register (R/W)
///
/// - SLAVE0_NUMOP[2:0]: Number of read operations on sensor 1.
/// - SHUB_ODR[1:0]: Rate at which the master communicates.
///   00: 104 Hz (or max ODR between accelerometer and gyro if less than 104 Hz)
///   01: 52 Hz
///   10: 26 Hz
///   11: 12.5 Hz
#[derive(Clone, Copy, PartialEq, Eq, Debug, Structural)]
pub struct Slv0Config(pub u8);

impl Slv0Config {
    /// The register at its raw byte value.
    pub fn from_bits(bits: u8) -> (r: Self)
        ensures
            r.0 == bits,
    {
        Slv0Config(bits)
    }

    /// The raw byte value of the register.
    pub fn into_bits(self) -> (r: u8)
        ensures
            r == self.0,
    {
        self.0
    }

    pub fn slave0_numop(&self) -> (r: u8)
        ensures
            r == field_of(self.0, 0, 3),
            r <= 0x07,
    {
        proof {
            lemma_field_max();
        }
        get_field(self.0, 0, 3)
    }

    pub fn set_slave0_numop(&mut self, v: u8)
        requires
            v <= 0x07,
        ensures
            final(self).0 == with_field(old(self).0, 0, 3, v),
    {
        self.0 = put_field(self.0, 0, 3, v);
    }

    pub fn shub_odr(&self) -> (r: u8)
        ensures
            r == field_of(self.0, 6, 2),
            r <= 0x03,
    {
        proof {
            lemma_field_max();
        }
        get_field(self.0, 6, 2)
    }

    pub fn set_shub_odr(&mut self, v: u8)
        requires
            v <= 0x03,
        ensures
            final(self).0 == with_field(old(self).0, 6, 2, v),
    {
        self.0 = put_field(self.0, 6, 2, v);
    }
}

/// SLV1_ADD (0x18)
///
/// I²C slave address of the second external sensor (sensor 2) register (R/W)
///
/// - R_1: Enables read operation on sensor 2.
///   0: disabled; 1: enabled.
/// - SLAVE1_ADD[6:0]: I²C slave address of sensor 2.
#[derive(Clone, Copy, PartialEq, Eq, Debug, Structural)]
pub struct Slv1Add(pub u8);

impl Slv1Add {
    /// The register at its raw byte value.
    pub fn from_bits(bits: u8) -> (r: Self)
        ensures
            r.0 == bits,
    {
        Slv1Add(bits)
    }

    /// The raw byte value of the register.
    pub fn into_bits(self) -> (r: u8)
        ensures
            r == self.0,
    {
        self.0
    }

    pub fn r_1(&self) -> (r: u8)
        ensures
            r == field_of(self.0, 0, 1),
            r <= 0x01,
    {
        proof {
            lemma_field_max();
        }
        get_field(self.0, 0, 1)
    }

    pub fn set_r_1(&mut self, v: u8)
        requires
            v <= 0x01,
        ensures
            final(self).0 == with_field(old(self).0, 0, 1, v),
    {
        self.0 = put_field(self.0, 0, 1, v);
    }

    pub fn slave1_add(&self) -> (r: u8)
        ensures
            r == field_of(self.0, 1, 7),
            r <= 0x7F,
    {
        proof {
            lemma_field_max();
        }
        get_field(self.0, 1, 7)
    }

    pub fn set_slave1_add(&mut self, v: u8)
        requires
            v <= 0x7F,
        ensures
            final(self).0 == with_field(old(self).0, 1, 7, v),
    {
        self.0 = put_field(self.0, 1, 7, v);
    }
}

/// SLV1_SUBADD (0x19)
///
/// Address of register on the second external sensor (sensor 2) (R/W)
#[derive(Clone, Copy, PartialEq, Eq, Debug, Structural)]
pub struct Slv1Subadd(pub u8);

impl Slv1Subadd {
    /// The register at its raw byte value.
    pub fn from_bits(bits: u8) -> (r: Self)
        ensures
            r.0 == bits,
    {
        Slv1Subadd(bits)
    }

    /// The raw byte value of the register.
    pub fn into_bits(self) -> (r: u8)
        ensures
            r == self.0,
    {
        self.0
    }

    pub fn slave1_reg(&self) -> (r: u8)
        ensures
            r == field_of(self.0, 0, 8),
            r <= 0xFF,
    {
        proof {
            lemma_field_max();
        }
        get_field(self.0, 0, 8)
    }

    pub fn set_slave1_reg(&mut self, v: u8)
        requires
            v <= 0xFF,
        ensures
            final(self).0 == with_field(old(self).0, 0, 8, v),
    {
        self.0 = put_field(self.0, 0, 8, v);
    }
}

/// SLV1_CONFIG (0x1A)
///
/// Second external sensor (sensor 2) configuration register (R/W)
///
/// - SLAVE1_NUMOP[2:0]: Number of read operations on sensor 2.
#[derive(Clone, Copy, PartialEq, Eq, Debug, Structural)]
pub struct Slv1Config(pub u8);

impl Slv1Config {
    /// The register at its raw byte value.
    pub fn from_bits(bits: u8) -> (r: Self)
        ensures
            r.0 == bits,
    {
        Slv1Config(bits)
    }

    /// The raw byte value of the register.
    pub fn into_bits(self) -> (r: u8)
        ensures
            r == self.0,
    {
        self.0
    }

    pub fn slave1_numop(&self) -> (r: u8)
        ensures
            r == field_of(self.0, 0, 3),
            r <= 0x07,
    {
        proof {
            lemma_field_max();
        }
        get_field(self.0, 0, 3)
    }

    pub fn set_slave1_numop(&mut self, v: u8)
        requires
            v <= 0x07,
        ensures
            final(self).0 == with_field(old(self).0, 0, 3, v),
    {
        self.0 = put_field(self.0, 0, 3, v);
    }
}

/// SLV2_ADD (0x1B)
///
/// I²C slave address of the third external sensor (sensor 3) register (R/W)
///
/// - R_2: Enables read operation on sensor 3.
///   0: disabled; 1: enabled.
/// - SLAVE2_ADD[6:0]: I²C slave address of sensor 3.
#[derive(Clone, Copy, PartialEq, Eq, Debug, Structural)]
pub struct Slv2Add(pub u8);

impl Slv2Add {
    /// The register at its raw byte value.
    pub fn from_bits(bits: u8) -> (r: Self)
        ensures
            r.0 == bits,
    {
        Slv2Add(bits)
    }

    /// The raw byte value of the register.
    pub fn into_bits(self) -> (r: u8)
        ensures
            r == self.0,
    {
        self.0
    }

    pub fn r_2(&self) -> (r: u8)
        ensures
            r == field_of(self.0, 0, 1),
            r <= 0x01,
    {
        proof {
            lemma_field_max();
        }
        get_field(self.0, 0, 1)
    }

    pub fn set_r_2(&mut self, v: u8)
        requires
            v <= 0x01,
        ensures
            final(self).0 == with_field(old(self).0, 0, 1, v),
    {
        self.0 = put_field(self.0, 0, 1, v);
    }

    pub fn slave2_add(&self) -> (r: u8)
        ensures
            r == field_of(self.0, 1, 7),
            r <= 0x7F,
    {
        proof {
            lemma_field_max();
        }
        get_field(self.0, 1, 7)
    }

    pub fn set_slave2_add(&mut self, v: u8)
        requires
            v <= 0x7F,
        ensures
            final(self).0 == with_field(old(self).0, 1, 7, v),
    {
        self.0 = put_field(self.0, 1, 7, v);
    }
}

/// SLV2_SUBADD (0x1C)
///
/// Address of register on the third external sensor (sensor 3) (R/W)
#[derive(Clone, Copy, PartialEq, Eq, Debug, Structural)]
pub struct Slv2Subadd(pub u8);

impl Slv2Subadd {
    /// The register at its raw byte value.
    pub fn from_bits(bits: u8) -> (r: Self)
        ensures
            r.0 == bits,
    {
        Slv2Subadd(bits)
    }

    /// The raw byte value of the register.
    pub fn into_bits(self) -> (r: u8)
        ensures
            r == self.0,
    {
        self.0
    }

    pub fn slave2_reg(&self) -> (r: u8)
        ensures
            r == field_of(self.0, 0, 8),
            r <= 0xFF,
    {
        proof {
            lemma_field_max();
        }
        get_field(self.0, 0, 8)
    }

    pub fn set_slave2_reg(&mut self, v: u8)
        requires
            v <= 0xFF,
        ensures
            final(self).0 == with_field(old(self).0, 0, 8, v),
    {
        self.0 = put_field(self.0, 0, 8, v);
    }
}

/// SLV2_CONFIG (0x1D)
///
/// Third external sensor (sensor 3) configuration register (R/W)
///
/// - SLAVE2_NUMOP[2:0]: Number of read operations on sensor 3.
#[derive(Clone, Copy, PartialEq, Eq, Debug, Structural)]
pub struct Slv2Config(pub u8);

impl Slv2Config {
    /// The register at its raw byte value.
    pub fn from_bits(bits: u8) -> (r: Self)
        ensures
            r.0 == bits,
    {
        Slv2Config(bits)
    }

    /// The raw byte value of the register.
    pub fn into_bits(self) -> (r: u8)
        ensures
            r == self.0,
    {
        self.0
    }

    pub fn slave2_numop(&self) -> (r: u8)
        ensures
            r == field_of(self.0, 0, 3),
            r <= 0x07,
    {
        proof {
            lemma_field_max();
        }
        get_field(self.0, 0, 3)
    }

    pub fn set_slave2_numop(&mut self, v: u8)
        requires
            v <= 0x07,
        ensures
            final(self).0 == with_field(old(self).0, 0, 3, v),
    {
        self.0 = put_field(self.0, 0, 3, v);
    }
}

/// SLV3_ADD (0x1E)
///
/// I²C slave address of the fourth external sensor (sensor 4) register (R/W)
///
/// - R_3: Enables read operation on sensor 4.
///   0: disabled; 1: enabled.
/// - SLAVE3_ADD[6:0]: I²C slave address of sensor 4.
#[derive(Clone, Copy, PartialEq, Eq, Debug, Structural)]
pub struct Slv3Add(pub u8);

impl Slv3Add {
    /// The register at its raw byte value.
    pub fn from_bits(bits: u8) -> (r: Self)
        ensures
            r.0 == bits,
    {
        Slv3Add(bits)
    }

    /// The raw byte value of the register.
    pub fn into_bits(self) -> (r: u8)
        ensures
            r == self.0,
    {
        self.0
    }

    pub fn r_3(&self) -> (r: u8)
        ensures
            r == field_of(self.0, 0, 1),
            r <= 0x01,
    {
        proof {
            lemma_field_max();
        }
        get_field(self.0, 0, 1)
    }

    pub fn set_r_3(&mut self, v: u8)
        requires
            v <= 0x01,
        ensures
            final(self).0 == with_field(old(self).0, 0, 1, v),
    {
        self.0 = put_field(self.0, 0, 1, v);
    }

    pub fn slave3_add(&self) -> (r: u8)
        ensures
            r == field_of(self.0, 1, 7),
            r <= 0x7F,
    {
        proof {
            lemma_field_max();
        }
        get_field(self.0, 1, 7)
    }

    pub fn set_slave3_add(&mut self, v: u8)
        requires
            v <= 0x7F,
        ensures
            final(self).0 == with_field(old(self).0, 1, 7, v),
    {
        self.0 = put_field(self.0, 1, 7, v);
    }
}

/// SLV3_SUBADD (0x1F)
///
/// Address of register on the fourth external sensor (sensor 4) (R/W)
#[derive(Clone, Copy, PartialEq, Eq, Debug, Structural)]
pub struct Slv3Subadd(pub u8);

impl Slv3Subadd {
    /// The register at its raw byte value.
    pub fn from_bits(bits: u8) -> (r: Self)
        ensures
            r.0 == bits,
    {
        Slv3Subadd(bits)
    }

    /// The raw byte value of the register.
    pub fn into_bits(self) -> (r: u8)
        ensures
            r == self.0,
    {
        self.0
    }

    pub fn slave3_reg(&self) -> (r: u8)
        ensures
            r == field_of(self.0, 0, 8),
            r <= 0xFF,
    {
        proof {
            lemma_field_max();
        }
        get_field(self.0, 0, 8)
    }

    pub fn set_slave3_reg(&mut self, v: u8)
        requires
            v <= 0xFF,
        ensures
            final(self).0 == with_field(old(self).0, 0, 8, v),
    {
        self.0 = put_field(self.0, 0, 8, v);
    }
}

/// SLV3_CONFIG (0x20)
///
/// Fourth external sensor (sensor 4) configuration register (R/W)
///
/// - SLAVE3_NUMOP[2:0]: Number of read operations on sensor 4.
#[derive(Clone, Copy, PartialEq, Eq, Debug, Structural)]
pub struct Slv3Config(pub u8);

impl Slv3Config {
    /// The register at its raw byte value.
    pub fn from_bits(bits: u8) -> (r: Self)
        ensures
            r.0 == bits,
    {
        Slv3Config(bits)
    }

    /// The raw byte value of the register.
    pub fn into_bits(self) -> (r: u8)
        ensures
            r == self.0,
    {
        self.0
    }

    pub fn slave3_numop(&self) -> (r: u8)
        ensures
            r == field_of(self.0, 0, 3),
            r <= 0x07,
    {
        proof {
            lemma_field_max();
        }
        get_field(self.0, 0, 3)
    }

    pub fn set_slave3_numop(&mut self, v: u8)
        requires
            v <= 0x07,
        ensures
            final(self).0 == with_field(old(self).0, 0, 3, v),
    {
        self.0 = put_field(self.0, 0, 3, v);
    }
}

/// DATAWRITE_SLV0 (0x21)
///
/// Data to be written into the slave device register (R/W)
#[derive(Clone, Copy, PartialEq, Eq, Debug, Structural)]
pub struct DatawriteSlv0(pub u8);

impl DatawriteSlv0 {
    /// The register at its raw byte value.
    pub fn from_bits(bits: u8) -> (r: Self)
        ensures
            r.0 == bits,
    {
        DatawriteSlv0(bits)
    }

    /// The raw byte value of the register.
    pub fn into_bits(self) -> (r: u8)
        ensures
            r == self.0,
    {
        self.0
    }

    pub fn slave0_dataw(&self) -> (r: u8)
        ensures
            r == field_of(self.0, 0, 8),
            r <= 0xFF,
    {
        proof {
            lemma_field_max();
        }
        get_field(self.0, 0, 8)
    }

    pub fn set_slave0_dataw(&mut self, v: u8)
        requires
            v <= 0xFF,
        ensures
            final(self).0 == with_field(old(self).0, 0, 8, v),
    {
        self.0 = put_field(self.0, 0, 8, v);
    }
}

/// STATUS_MASTER (0x22)
///
/// Sensor hub source register (R)
///
/// - SENS_HUB_ENDOP: Sensor hub communication status.
///   0: communication not concluded; 1: communication concluded.
/// - SLAVE0_NACK to SLAVE3_NACK: Not acknowledge flags for slaves 0 to 3.
/// - WR_ONCE_DONE: Write operation on slave 0 completed when WRITE_ONCE bit in MASTER_CONFIG (0x14) is set.
#[derive(Clone, Copy, PartialEq, Eq, Debug, Structural)]
pub struct StatusMaster(pub u8);

impl StatusMaster {
    /// The register at its raw byte value.
    pub fn from_bits(bits: u8) -> (r: Self)
        ensures
            r.0 == bits,
    {
        StatusMaster(bits)
    }

    /// The raw byte value of the register.
    pub fn into_bits(self) -> (r: u8)
        ensures
            r == self.0,
    {
        self.0
    }

    pub fn sens_hub_endop(&self) -> (r: u8)
        ensures
            r == field_of(self.0, 0, 1),
            r <= 0x01,
    {
        proof {
            lemma_field_max();
        }
        get_field(self.0, 0, 1)
    }

    pub fn set_sens_hub_endop(&mut self, v: u8)
        requires
            v <= 0x01,
        ensures
            final(self).0 == with_field(old(self).0, 0, 1, v),
    {
        self.0 = put_field(self.0, 0, 1, v);
    }

    pub fn slave0_nack(&self) -> (r: u8)
        ensures
            r == field_of(self.0, 3, 1),
            r <= 0x01,
    {
        proof {
            lemma_field_max();
        }
        get_field(self.0, 3, 1)
    }

    pub fn set_slave0_nack(&mut self, v: u8)
        requires
            v <= 0x01,
        ensures
            final(self).0 == with_field(old(self).0, 3, 1, v),
    {
        self.0 = put_field(self.0, 3, 1, v);
    }

    pub fn slave1_nack(&self) -> (r: u8)
        ensures
            r == field_of(self.0, 4, 1),
            r <= 0x01,
    {
        proof {
            lemma_field_max();
        }
        get_field(self.0, 4, 1)
    }

    pub fn set_slave1_nack(&mut self, v: u8)
        requires
            v <= 0x01,
        ensures
            final(self).0 == with_field(old(self).0, 4, 1, v),
    {
        self.0 = put_field(self.0, 4, 1, v);
    }

    pub fn slave2_nack(&self) -> (r: u8)
        ensures
            r == field_of(self.0, 5, 1),
            r <= 0x01,
    {
        proof {
            lemma_field_max();
        }
        get_field(self.0, 5, 1)
    }

    pub fn set_slave2_nack(&mut self, v: u8)
        requires
            v <= 0x01,
        ensures
            final(self).0 == with_field(old(self).0, 5, 1, v),
    {
        self.0 = put_field(self.0, 5, 1, v);
    }

    pub fn slave3_nack(&self) -> (r: u8)
        ensures
            r == field_of(self.0, 6, 1),
            r <= 0x01,
    {
        proof {
            lemma_field_max();
        }
        get_field(self.0, 6, 1)
    }

    pub fn set_slave3_nack(&mut self, v: u8)
        requires
            v <= 0x01,
        ensures
            final(self).0 == with_field(old(self).0, 6, 1, v),
    {
        self.0 = put_field(self.0, 6, 1, v);
    }

    pub fn wr_once_done(&self) -> (r: u8)
        ensures
            r == field_of(self.0, 7, 1),
            r <= 0x01,
    {
        proof {
            lemma_field_max();
        }
        get_field(self.0, 7, 1)
    }

    pub fn set_wr_once_done(&mut self, v: u8)
        requires
            v <= 0x01,
        ensures
            final(self).0 == with_field(old(self).0, 7, 1, v),
    {
        self.0 = put_field(self.0, 7, 1, v);
    }
}

/// Sensor hub connected slaves configuration
///
/// Selects the number of external sensors connected to the sensor hub.
#[derive(Clone, Copy, PartialEq, Eq, Debug, Structural)]
pub enum ShSlaveConnected {
    /// Sensor hub connected to slave 0 only
    _0,
    /// Sensor hub connected to slaves 0 and 1
    _01,
    /// Sensor hub connected to slaves 0, 1, and 2
    _012,
    /// Sensor hub connected to slaves 0, 1, 2, and 3
    _0123,
}

impl ShSlaveConnected {
    /// The code that selects this value in its register field.
    pub open spec fn spec_bits(self) -> u8 {
        match self {
            ShSlaveConnected::_0 => 0x00,
            ShSlaveConnected::_01 => 0x01,
            ShSlaveConnected::_012 => 0x02,
            ShSlaveConnected::_0123 => 0x03,
        }
    }

    /// The value that a register code stands for, if any.
    pub open spec fn spec_try_from_bits(v: u8) -> Option<ShSlaveConnected> {
        if v == 0x00 {
            Some(ShSlaveConnected::_0)
        }         else if v == 0x01 {
            Some(ShSlaveConnected::_01)
        }         else if v == 0x02 {
            Some(ShSlaveConnected::_012)
        }         else if v == 0x03 {
            Some(ShSlaveConnected::_0123)
        } else {
            None
        }
    }

    /// The code that selects this value in its register field.
    pub fn bits(self) -> (r: u8)
        ensures
            r == self.spec_bits(),
            Self::spec_try_from_bits(r) == Some(self),
    {
        match self {
            ShSlaveConnected::_0 => 0x00,
            ShSlaveConnected::_01 => 0x01,
            ShSlaveConnected::_012 => 0x02,
            ShSlaveConnected::_0123 => 0x03,
        }
    }

    /// Decodes a register code; `None` for a code that names no value.
    pub fn try_from_bits(v: u8) -> (r: Option<ShSlaveConnected>)
        ensures
            r == Self::spec_try_from_bits(v),
            r matches Some(x) ==> x.spec_bits() == v,
    {
        if v == 0x00 {
            Some(ShSlaveConnected::_0)
        } else if v == 0x01 {
            Some(ShSlaveConnected::_01)
        } else if v == 0x02 {
            Some(ShSlaveConnected::_012)
        } else if v == 0x03 {
            Some(ShSlaveConnected::_0123)
        } else {
            None
        }
    }

    /// The value a register code decodes to, with `_0` for a code that names no value.
    pub open spec fn spec_from_bits_or_default(v: u8) -> ShSlaveConnected {
        match Self::spec_try_from_bits(v) {
            Some(x) => x,
            None => ShSlaveConnected::_0,
        }
    }

    /// Decodes a register code, with `_0` for a code that names no value.
    pub fn from_bits_or_default(v: u8) -> (r: ShSlaveConnected)
        ensures
            r == Self::spec_from_bits_or_default(v),
    {
        match Self::try_from_bits(v) {
            Some(x) => x,
            None => ShSlaveConnected::_0,
        }
    }
}

/// Sensor hub synchronization mode
///
/// Selects the trigger signal for the sensor hub.
#[derive(Clone, Copy, PartialEq, Eq, Debug, Structural)]
pub enum ShSyncroMode {
    /// Sensor hub trigger signal is accelerometer/gyroscope data-ready (default)
    TrigXlGyDrdy,
    /// Sensor hub trigger signal is external INT2 pin
    TrigInt2,
}

impl ShSyncroMode {
    /// The code that selects this value in its register field.
    pub open spec fn spec_bits(self) -> u8 {
        match self {
            ShSyncroMode::TrigXlGyDrdy => 0x00,
            ShSyncroMode::TrigInt2 => 0x01,
        }
    }

    /// The value that a register code stands for, if any.
    pub open spec fn spec_try_from_bits(v: u8) -> Option<ShSyncroMode> {
        if v == 0x00 {
            Some(ShSyncroMode::TrigXlGyDrdy)
        }         else if v == 0x01 {
            Some(ShSyncroMode::TrigInt2)
        } else {
            None
        }
    }

    /// The code that selects this value in its register field.
    pub fn bits(self) -> (r: u8)
        ensures
            r == self.spec_bits(),
            Self::spec_try_from_bits(r) == Some(self),
    {
        match self {
            ShSyncroMode::TrigXlGyDrdy => 0x00,
            ShSyncroMode::TrigInt2 => 0x01,
        }
    }

    /// Decodes a register code; `None` for a code that names no value.
    pub fn try_from_bits(v: u8) -> (r: Option<ShSyncroMode>)
        ensures
            r == Self::spec_try_from_bits(v),
            r matches Some(x) ==> x.spec_bits() == v,
    {
        if v == 0x00 {
            Some(ShSyncroMode::TrigXlGyDrdy)
        } else if v == 0x01 {
            Some(ShSyncroMode::TrigInt2)
        } else {
            None
        }
    }

    /// The value a register code decodes to, with `TrigXlGyDrdy` for a code that names no value.
    pub open spec fn spec_from_bits_or_default(v: u8) -> ShSyncroMode {
        match Self::spec_try_from_bits(v) {
            Some(x) => x,
            None => ShSyncroMode::TrigXlGyDrdy,
        }
    }

    /// Decodes a register code, with `TrigXlGyDrdy` for a code that names no value.
    pub fn from_bits_or_default(v: u8) -> (r: ShSyncroMode)
        ensures
            r == Self::spec_from_bits_or_default(v),
    {
        match Self::try_from_bits(v) {
            Some(x) => x,
            None => ShSyncroMode::TrigXlGyDrdy,
        }
    }
}

/// Sensor hub write mode
///
/// Selects write operation mode for sensor hub cycles.
#[derive(Clone, Copy, PartialEq, Eq, Debug, Structural)]
pub enum ShWriteMode {
    /// Write operation for each sensor hub cycle (default)
    EachShCycle,
    /// Write operation only for the first sensor hub cycle
    OnlyFirstCycle,
}

impl ShWriteMode {
    /// The code that selects this value in its register field.
    pub open spec fn spec_bits(self) -> u8 {
        match self {
            ShWriteMode::EachShCycle => 0x00,
            ShWriteMode::OnlyFirstCycle => 0x01,
        }
    }

    /// The value that a register code stands for, if any.
    pub open spec fn spec_try_from_bits(v: u8) -> Option<ShWriteMode> {
        if v == 0x00 {
            Some(ShWriteMode::EachShCycle)
        }         else if v == 0x01 {
            Some(ShWriteMode::OnlyFirstCycle)
        } else {
            None
        }
    }

    /// The code that selects this value in its register field.
    pub fn bits(self) -> (r: u8)
        ensures
            r == self.spec_bits(),
            Self::spec_try_from_bits(r) == Some(self),
    {
        match self {
            ShWriteMode::EachShCycle => 0x00,
            ShWriteMode::OnlyFirstCycle => 0x01,
        }
    }

    /// Decodes a register code; `None` for a code that names no value.
    pub fn try_from_bits(v: u8) -> (r: Option<ShWriteMode>)
        ensures
            r == Self::spec_try_from_bits(v),
            r matches Some(x) ==> x.spec_bits() == v,
    {
        if v == 0x00 {
            Some(ShWriteMode::EachShCycle)
        } else if v == 0x01 {
            Some(ShWriteMode::OnlyFirstCycle)
        } else {
            None
        }
    }

    /// The value a register code decodes to, with `EachShCycle` for a code that names no value.
    pub open spec fn spec_from_bits_or_default(v: u8) -> ShWriteMode {
        match Self::spec_try_from_bits(v) {
            Some(x) => x,
            None => ShWriteMode::EachShCycle,
        }
    }

    /// Decodes a register code, with `EachShCycle` for a code that names no value.
    pub fn from_bits_or_default(v: u8) -> (r: ShWriteMode)
        ensures
            r == Self::spec_from_bits_or_default(v),
    {
        match Self::try_from_bits(v) {
            Some(x) => x,
            None => ShWriteMode::EachShCycle,
        }
    }
}

/// Sensor hub data rate
///
/// Selects the communication rate of the sensor hub.
#[derive(Clone, Copy, PartialEq, Eq, Debug, Structural)]
pub enum ShDataRate {
    /// Sensor hub communication rate 104 Hz
    _104hz,
    /// Sensor hub communication rate 52 Hz
    _52hz,
    /// Sensor hub communication rate 26 Hz
    _26hz,
    /// Sensor hub communication rate 12.5 Hz (default)
    _12_5hz,
}

impl ShDataRate {
    /// The code that selects this value in its register field.
    pub open spec fn spec_bits(self) -> u8 {
        match self {
            ShDataRate::_104hz => 0x00,
            ShDataRate::_52hz => 0x01,
            ShDataRate::_26hz => 0x02,
            ShDataRate::_12_5hz => 0x03,
        }
    }

    /// The value that a register code stands for, if any.
    pub open spec fn spec_try_from_bits(v: u8) -> Option<ShDataRate> {
        if v == 0x00 {
            Some(ShDataRate::_104hz)
        }         else if v == 0x01 {
            Some(ShDataRate::_52hz)
        }         else if v == 0x02 {
            Some(ShDataRate::_26hz)
        }         else if v == 0x03 {
            Some(ShDataRate::_12_5hz)
        } else {
            None
        }
    }

    /// The code that selects this value in its register field.
    pub fn bits(self) -> (r: u8)
        ensures
            r == self.spec_bits(),
            Self::spec_try_from_bits(r) == Some(self),
    {
        match self {
            ShDataRate::_104hz => 0x00,
            ShDataRate::_52hz => 0x01,
            ShDataRate::_26hz => 0x02,
            ShDataRate::_12_5hz => 0x03,
        }
    }

    /// Decodes a register code; `None` for a code that names no value.
    pub fn try_from_bits(v: u8) -> (r: Option<ShDataRate>)
        ensures
            r == Self::spec_try_from_bits(v),
            r matches Some(x) ==> x.spec_bits() == v,
    {
        if v == 0x00 {
            Some(ShDataRate::_104hz)
        } else if v == 0x01 {
            Some(ShDataRate::_52hz)
        } else if v == 0x02 {
            Some(ShDataRate::_26hz)
        } else if v == 0x03 {
            Some(ShDataRate::_12_5hz)
        } else {
            None
        }
    }

    /// The value a register code decodes to, with `_12_5hz` for a code that names no value.
    pub open spec fn spec_from_bits_or_default(v: u8) -> ShDataRate {
        match Self::spec_try_from_bits(v) {
            Some(x) => x,
            None => ShDataRate::_12_5hz,
        }
    }

    /// Decodes a register code, with `_12_5hz` for a code that names no value.
    pub fn from_bits_or_default(v: u8) -> (r: ShDataRate)
        ensures
            r == Self::spec_from_bits_or_default(v),
    {
        match Self::try_from_bits(v) {
            Some(x) => x,
            None => ShDataRate::_12_5hz,
        }
    }
}

#[derive(Clone, Copy, PartialEq, Eq, Debug, Structural)]
pub struct ShCfgWrite {
    pub slv0_add: u8,
    pub slv0_subadd: u8,
    pub slv0_data: u8,
}

#[derive(Clone, Copy, PartialEq, Eq, Debug, Structural)]
pub struct ShCfgRead {
    pub slv_add: u8,
    pub slv_subadd: u8,
    pub slv_len: u8,
}
} // verus!
