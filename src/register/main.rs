//! Registers of the main bank, reachable whatever bank is selected for the others.
use crate::bits::{field_of, get_field, i16_from_le, le_u16, le_u32, lemma_field_max, put_field, signed16, u32_from_le, u32_to_le, with_field};
use vstd::prelude::*;

verus! {

#[derive(Clone, Copy, PartialEq, Eq, Debug, Structural)]
pub enum Reg {
    FuncCfgAccess,
    PinCtrl,
    DrdyPulsedReg,
    Int1Ctrl,
    Int2Ctrl,
    WhoAmI,
    Ctrl1Xl,
    Ctrl2G,
    Ctrl3C,
    Ctrl4C,
    Ctrl5C,
    Ctrl6C,
    Ctrl7G,
    Ctrl9C,
    Ctrl10C,
    IspuIntStatus0Mainpage,
    IspuIntStatus1Mainpage,
    IspuIntStatus2Mainpage,
    IspuIntStatus3Mainpage,
    StatusReg,
    OutTempL,
    OutTempH,
    OutxLG,
    OutxHG,
    OutyLG,
    OutyHG,
    OutzLG,
    OutzHG,
    OutxLA,
    OutxHA,
    OutyLA,
    OutyHA,
    OutzLA,
    OutzHA,
    StatusMasterMainpage,
    Timestamp0,
    Timestamp1,
    Timestamp2,
    Timestamp3,
    Md1Cfg,
    Md2Cfg,
    InternalFreqFine,
    IspuDummyCfg1L,
    IspuDummyCfg1H,
    IspuDummyCfg2L,
    IspuDummyCfg2H,
    IspuDummyCfg3L,
    IspuDummyCfg3H,
    IspuDummyCfg4L,
    IspuDummyCfg4H,
}

impl Reg {
    /// The register's address on the bus.
    pub open spec fn spec_addr(self) -> u8 {
        match self {
            Reg::FuncCfgAccess => 0x01,
            Reg::PinCtrl => 0x02,
            Reg::DrdyPulsedReg => 0x0B,
            Reg::Int1Ctrl => 0x0D,
            Reg::Int2Ctrl => 0x0E,
            Reg::WhoAmI => 0x0F,
            Reg::Ctrl1Xl => 0x10,
            Reg::Ctrl2G => 0x11,
            Reg::Ctrl3C => 0x12,
            Reg::Ctrl4C => 0x13,
            Reg::Ctrl5C => 0x14,
            Reg::Ctrl6C => 0x15,
            Reg::Ctrl7G => 0x16,
            Reg::Ctrl9C => 0x18,
            Reg::Ctrl10C => 0x19,
            Reg::IspuIntStatus0Mainpage => 0x1A,
            Reg::IspuIntStatus1Mainpage => 0x1B,
            Reg::IspuIntStatus2Mainpage => 0x1C,
            Reg::IspuIntStatus3Mainpage => 0x1D,
            Reg::StatusReg => 0x1E,
            Reg::OutTempL => 0x20,
            Reg::OutTempH => 0x21,
            Reg::OutxLG => 0x22,
            Reg::OutxHG => 0x23,
            Reg::OutyLG => 0x24,
            Reg::OutyHG => 0x25,
            Reg::OutzLG => 0x26,
            Reg::OutzHG => 0x27,
            Reg::OutxLA => 0x28,
            Reg::OutxHA => 0x29,
            Reg::OutyLA => 0x2A,
            Reg::OutyHA => 0x2B,
            Reg::OutzLA => 0x2C,
            Reg::OutzHA => 0x2D,
            Reg::StatusMasterMainpage => 0x39,
            Reg::Timestamp0 => 0x40,
            Reg::Timestamp1 => 0x41,
            Reg::Timestamp2 => 0x42,
            Reg::Timestamp3 => 0x43,
            Reg::Md1Cfg => 0x5E,
            Reg::Md2Cfg => 0x5F,
            Reg::InternalFreqFine => 0x63,
            Reg::IspuDummyCfg1L => 0x73,
            Reg::IspuDummyCfg1H => 0x74,
            Reg::IspuDummyCfg2L => 0x75,
            Reg::IspuDummyCfg2H => 0x76,
            Reg::IspuDummyCfg3L => 0x77,
            Reg::IspuDummyCfg3H => 0x78,
            Reg::IspuDummyCfg4L => 0x79,
            Reg::IspuDummyCfg4H => 0x7A,
        }
    }

    /// The register's address on the bus.
    pub fn addr(self) -> (r: u8)
        ensures
            r == self.spec_addr(),
    {
        match self {
            Reg::FuncCfgAccess => 0x01,
            Reg::PinCtrl => 0x02,
            Reg::DrdyPulsedReg => 0x0B,
            Reg::Int1Ctrl => 0x0D,
            Reg::Int2Ctrl => 0x0E,
            Reg::WhoAmI => 0x0F,
            Reg::Ctrl1Xl => 0x10,
            Reg::Ctrl2G => 0x11,
            Reg::Ctrl3C => 0x12,
            Reg::Ctrl4C => 0x13,
            Reg::Ctrl5C => 0x14,
            Reg::Ctrl6C => 0x15,
            Reg::Ctrl7G => 0x16,
            Reg::Ctrl9C => 0x18,
            Reg::Ctrl10C => 0x19,
            Reg::IspuIntStatus0Mainpage => 0x1A,
            Reg::IspuIntStatus1Mainpage => 0x1B,
            Reg::IspuIntStatus2Mainpage => 0x1C,
            Reg::IspuIntStatus3Mainpage => 0x1D,
            Reg::StatusReg => 0x1E,
            Reg::OutTempL => 0x20,
            Reg::OutTempH => 0x21,
            Reg::OutxLG => 0x22,
            Reg::OutxHG => 0x23,
            Reg::OutyLG => 0x24,
            Reg::OutyHG => 0x25,
            Reg::OutzLG => 0x26,
            Reg::OutzHG => 0x27,
            Reg::OutxLA => 0x28,
            Reg::OutxHA => 0x29,
            Reg::OutyLA => 0x2A,
            Reg::OutyHA => 0x2B,
            Reg::OutzLA => 0x2C,
            Reg::OutzHA => 0x2D,
            Reg::StatusMasterMainpage => 0x39,
            Reg::Timestamp0 => 0x40,
            Reg::Timestamp1 => 0x41,
            Reg::Timestamp2 => 0x42,
            Reg::Timestamp3 => 0x43,
            Reg::Md1Cfg => 0x5E,
            Reg::Md2Cfg => 0x5F,
            Reg::InternalFreqFine => 0x63,
            Reg::IspuDummyCfg1L => 0x73,
            Reg::IspuDummyCfg1H => 0x74,
            Reg::IspuDummyCfg2L => 0x75,
            Reg::IspuDummyCfg2H => 0x76,
            Reg::IspuDummyCfg3L => 0x77,
            Reg::IspuDummyCfg3H => 0x78,
            Reg::IspuDummyCfg4L => 0x79,
            Reg::IspuDummyCfg4H => 0x7A,
        }
    }
}

/// FUNC_CFG_ACCESS (0x01)
///
/// Enable ISPU / sensor hub functions register (R/W)
#[derive(Clone, Copy, PartialEq, Eq, Debug, Structural)]
pub struct FuncCfgAccess(pub u8);

impl FuncCfgAccess {
    /// The register at its raw byte value.
    pub fn from_bits(bits: u8) -> (r: Self)
        ensures
            r.0 == bits,
    {
        FuncCfgAccess(bits)
    }

    /// The raw byte value of the register.
    pub fn into_bits(self) -> (r: u8)
        ensures
            r == self.0,
    {
        self.0
    }

    /// Software reset of ISPU core. Set to 1 to activate reset sequence; must be written back to 0 manually.
    /// Default value: 0
    pub fn sw_reset_ispu(&self) -> (r: u8)
        ensures
            r == field_of(self.0, 1, 1),
            r <= 0x01,
    {
        proof {
            lemma_field_max();
        }
        get_field(self.0, 1, 1)
    }

    /// Software reset of ISPU core. Set to 1 to activate reset sequence; must be written back to 0 manually.
    /// Default value: 0
    pub fn set_sw_reset_ispu(&mut self, v: u8)
        requires
            v <= 0x01,
        ensures
            final(self).0 == with_field(old(self).0, 1, 1, v),
    {
        self.0 = put_field(self.0, 1, 1, v);
    }

    /// Enables access to the sensor hub (I²C master) registers.
    /// Default value: 0
    pub fn shub_reg_access(&self) -> (r: u8)
        ensures
            r == field_of(self.0, 6, 1),
            r <= 0x01,
    {
        proof {
            lemma_field_max();
        }
        get_field(self.0, 6, 1)
    }

    /// Enables access to the sensor hub (I²C master) registers.
    /// Default value: 0
    pub fn set_shub_reg_access(&mut self, v: u8)
        requires
            v <= 0x01,
        ensures
            final(self).0 == with_field(old(self).0, 6, 1, v),
    {
        self.0 = put_field(self.0, 6, 1, v);
    }

    /// Enables access to the ISPU interaction registers.
    /// Default value: 0
    pub fn ispu_reg_access(&self) -> (r: u8)
        ensures
            r == field_of(self.0, 7, 1),
            r <= 0x01,
    {
        proof {
            lemma_field_max();
        }
        get_field(self.0, 7, 1)
    }

    /// Enables access to the ISPU interaction registers.
    /// Default value: 0
    pub fn set_ispu_reg_access(&mut self, v: u8)
        requires
            v <= 0x01,
        ensures
            final(self).0 == with_field(old(self).0, 7, 1, v),
    {
        self.0 = put_field(self.0, 7, 1, v);
    }
}

/// PIN_CTRL (0x02)
///
/// SDO pin pull-up register (R/W)
#[derive(Clone, Copy, PartialEq, Eq, Debug, Structural)]
pub struct PinCtrl(pub u8);

impl PinCtrl {
    /// The register at its raw byte value.
    pub fn from_bits(bits: u8) -> (r: Self)
        ensures
            r.0 == bits,
    {
        PinCtrl(bits)
    }

    /// The raw byte value of the register.
    pub fn into_bits(self) -> (r: u8)
        ensures
            r == self.0,
    {
        self.0
    }

    /// Enables pull-up on SDO pin.
    /// 0: SDO pin pull-up disconnected (default)
    /// 1: SDO pin with pull-up enabled
    pub fn sdo_pu_en(&self) -> (r: u8)
        ensures
            r == field_of(self.0, 6, 1),
            r <= 0x01,
    {
        proof {
            lemma_field_max();
        }
        get_field(self.0, 6, 1)
    }

    /// Enables pull-up on SDO pin.
    /// 0: SDO pin pull-up disconnected (default)
    /// 1: SDO pin with pull-up enabled
    pub fn set_sdo_pu_en(&mut self, v: u8)
        requires
            v <= 0x01,
        ensures
            final(self).0 == with_field(old(self).0, 6, 1, v),
    {
        self.0 = put_field(self.0, 6, 1, v);
    }
}

/// DRDY_PULSED_REG (0x0B)
///
/// Pulsed data-ready mode register (R/W)
#[derive(Clone, Copy, PartialEq, Eq, Debug, Structural)]
pub struct DrdyPulsedReg(pub u8);

impl DrdyPulsedReg {
    /// The register at its raw byte value.
    pub fn from_bits(bits: u8) -> (r: Self)
        ensures
            r.0 == bits,
    {
        DrdyPulsedReg(bits)
    }

    /// The raw byte value of the register.
    pub fn into_bits(self) -> (r: u8)
        ensures
            r == self.0,
    {
        self.0
    }

    /// Enables pulsed data-ready mode.
    /// 0: Data-ready latched mode (default)
    /// 1: Data-ready pulsed mode (75 μs pulses)
    pub fn drdy_pulsed(&self) -> (r: u8)
        ensures
            r == field_of(self.0, 7, 1),
            r <= 0x01,
    {
        proof {
            lemma_field_max();
        }
        get_field(self.0, 7, 1)
    }

    /// Enables pulsed data-ready mode.
    /// 0: Data-ready latched mode (default)
    /// 1: Data-ready pulsed mode (75 μs pulses)
    pub fn set_drdy_pulsed(&mut self, v: u8)
        requires
            v <= 0x01,
        ensures
            final(self).0 == with_field(old(self).0, 7, 1, v),
    {
        self.0 = put_field(self.0, 7, 1, v);
    }
}

/// INT1_CTRL (0x0D)
///
/// INT1 pin control register (R/W)
/// Output on INT1 pin is OR combination of signals selected here and in MD1_CFG (0x5E).
#[derive(Clone, Copy, PartialEq, Eq, Debug, Structural)]
pub struct Int1Ctrl(pub u8);

impl Int1Ctrl {
    /// The register at its raw byte value.
    pub fn from_bits(bits: u8) -> (r: Self)
        ensures
            r.0 == bits,
    {
        Int1Ctrl(bits)
    }

    /// The raw byte value of the register.
    pub fn into_bits(self) -> (r: u8)
        ensures
            r == self.0,
    {
        self.0
    }

    /// Enables accelerometer data-ready interrupt on INT1 pin.
    /// Default: 0 (disabled)
    pub fn int1_drdy_xl(&self) -> (r: u8)
        ensures
            r == field_of(self.0, 0, 1),
            r <= 0x01,
    {
        proof {
            lemma_field_max();
        }
        get_field(self.0, 0, 1)
    }

    /// Enables accelerometer data-ready interrupt on INT1 pin.
    /// Default: 0 (disabled)
    pub fn set_int1_drdy_xl(&mut self, v: u8)
        requires
            v <= 0x01,
        ensures
            final(self).0 == with_field(old(self).0, 0, 1, v),
    {
        self.0 = put_field(self.0, 0, 1, v);
    }

    /// Enables gyroscope data-ready interrupt on INT1 pin.
    /// Default: 0 (disabled)
    pub fn int1_drdy_g(&self) -> (r: u8)
        ensures
            r == field_of(self.0, 1, 1),
            r <= 0x01,
    {
        proof {
            lemma_field_max();
        }
        get_field(self.0, 1, 1)
    }

    /// Enables gyroscope data-ready interrupt on INT1 pin.
    /// Default: 0 (disabled)
    pub fn set_int1_drdy_g(&mut self, v: u8)
        requires
            v <= 0x01,
        ensures
            final(self).0 == with_field(old(self).0, 1, 1, v),
    {
        self.0 = put_field(self.0, 1, 1, v);
    }

    /// Boot status available on INT1 pin.
    /// Default: 0 (disabled)
    pub fn int1_boot(&self) -> (r: u8)
        ensures
            r == field_of(self.0, 2, 1),
            r <= 0x01,
    {
        proof {
            lemma_field_max();
        }
        get_field(self.0, 2, 1)
    }

    /// Boot status available on INT1 pin.
    /// Default: 0 (disabled)
    pub fn set_int1_boot(&mut self, v: u8)
        requires
            v <= 0x01,
        ensures
            final(self).0 == with_field(old(self).0, 2, 1, v),
    {
        self.0 = put_field(self.0, 2, 1, v);
    }
}

/// INT2_CTRL (0x0E)
///
/// INT2 pin control register (R/W)
/// Output on INT2 pin is OR combination of signals selected here and in MD2_CFG (0x5F).
#[derive(Clone, Copy, PartialEq, Eq, Debug, Structural)]
pub struct Int2Ctrl(pub u8);

impl Int2Ctrl {
    /// The register at its raw byte value.
    pub fn from_bits(bits: u8) -> (r: Self)
        ensures
            r.0 == bits,
    {
        Int2Ctrl(bits)
    }

    /// The raw byte value of the register.
    pub fn into_bits(self) -> (r: u8)
        ensures
            r == self.0,
    {
        self.0
    }

    /// Enables accelerometer data-ready interrupt on INT2 pin.
    /// Default: 0 (disabled)
    pub fn int2_drdy_xl(&self) -> (r: u8)
        ensures
            r == field_of(self.0, 0, 1),
            r <= 0x01,
    {
        proof {
            lemma_field_max();
        }
        get_field(self.0, 0, 1)
    }

    /// Enables accelerometer data-ready interrupt on INT2 pin.
    /// Default: 0 (disabled)
    pub fn set_int2_drdy_xl(&mut self, v: u8)
        requires
            v <= 0x01,
        ensures
            final(self).0 == with_field(old(self).0, 0, 1, v),
    {
        self.0 = put_field(self.0, 0, 1, v);
    }

    /// Enables gyroscope data-ready interrupt on INT2 pin.
    /// Default: 0 (disabled)
    pub fn int2_drdy_g(&self) -> (r: u8)
        ensures
            r == field_of(self.0, 1, 1),
            r <= 0x01,
    {
        proof {
            lemma_field_max();
        }
        get_field(self.0, 1, 1)
    }

    /// Enables gyroscope data-ready interrupt on INT2 pin.
    /// Default: 0 (disabled)
    pub fn set_int2_drdy_g(&mut self, v: u8)
        requires
            v <= 0x01,
        ensures
            final(self).0 == with_field(old(self).0, 1, 1, v),
    {
        self.0 = put_field(self.0, 1, 1, v);
    }

    /// Enables temperature sensor data-ready interrupt on INT2 pin.
    /// Default: 0 (disabled)
    pub fn int2_drdy_temp(&self) -> (r: u8)
        ensures
            r == field_of(self.0, 2, 1),
            r <= 0x01,
    {
        proof {
            lemma_field_max();
        }
        get_field(self.0, 2, 1)
    }

    /// Enables temperature sensor data-ready interrupt on INT2 pin.
    /// Default: 0 (disabled)
    pub fn set_int2_drdy_temp(&mut self, v: u8)
        requires
            v <= 0x01,
        ensures
            final(self).0 == with_field(old(self).0, 2, 1, v),
    {
        self.0 = put_field(self.0, 2, 1, v);
    }

    /// Enables ISPU sleep state signal on INT2 pin.
    /// 0: disabled (default)
    /// 1: enabled; INT2 low = ISPU running, INT2 high = ISPU sleep state
    pub fn int2_sleep_ispu(&self) -> (r: u8)
        ensures
            r == field_of(self.0, 7, 1),
            r <= 0x01,
    {
        proof {
            lemma_field_max();
        }
        get_field(self.0, 7, 1)
    }

    /// Enables ISPU sleep state signal on INT2 pin.
    /// 0: disabled (default)
    /// 1: enabled; INT2 low = ISPU running, INT2 high = ISPU sleep state
    pub fn set_int2_sleep_ispu(&mut self, v: u8)
        requires
            v <= 0x01,
        ensures
            final(self).0 == with_field(old(self).0, 7, 1, v),
    {
        self.0 = put_field(self.0, 7, 1, v);
    }
}

/// WHO_AM_I (0x0F)
///
/// WHO_AM_I register (R)
/// Read-only register fixed at 0x22.
#[derive(Clone, Copy, PartialEq, Eq, Debug, Structural)]
pub struct WhoAmI(pub u8);

impl WhoAmI {
    /// The register at its raw byte value.
    pub fn from_bits(bits: u8) -> (r: Self)
        ensures
            r.0 == bits,
    {
        WhoAmI(bits)
    }

    /// The raw byte value of the register.
    pub fn into_bits(self) -> (r: u8)
        ensures
            r == self.0,
    {
        self.0
    }

    /// Device identifier, fixed value 0x22.
    pub fn id(&self) -> (r: u8)
        ensures
            r == field_of(self.0, 0, 8),
            r <= 0xFF,
    {
        proof {
            lemma_field_max();
        }
        get_field(self.0, 0, 8)
    }

    /// Device identifier, fixed value 0x22.
    pub fn set_id(&mut self, v: u8)
        requires
            v <= 0xFF,
        ensures
            final(self).0 == with_field(old(self).0, 0, 8, v),
    {
        self.0 = put_field(self.0, 0, 8, v);
    }
}

/// CTRL1_XL (0x10)
///
/// Control register 1 for accelerometer (R/W)
#[derive(Clone, Copy, PartialEq, Eq, Debug, Structural)]
pub struct Ctrl1Xl(pub u8);

impl Ctrl1Xl {
    /// The register at its raw byte value.
    pub fn from_bits(bits: u8) -> (r: Self)
        ensures
            r.0 == bits,
    {
        Ctrl1Xl(bits)
    }

    /// The raw byte value of the register.
    pub fn into_bits(self) -> (r: u8)
        ensures
            r == self.0,
    {
        self.0
    }

    /// Accelerometer full-scale selection (2 bits)
    /// 00: ±2 g (default)
    /// 01: ±16 g
    /// 10: ±4 g
    /// 11: ±8 g
    pub fn fs_xl(&self) -> (r: u8)
        ensures
            r == field_of(self.0, 2, 2),
            r <= 0x03,
    {
        proof {
            lemma_field_max();
        }
        get_field(self.0, 2, 2)
    }

    /// Accelerometer full-scale selection (2 bits)
    /// 00: ±2 g (default)
    /// 01: ±16 g
    /// 10: ±4 g
    /// 11: ±8 g
    pub fn set_fs_xl(&mut self, v: u8)
        requires
            v <= 0x03,
        ensures
            final(self).0 == with_field(old(self).0, 2, 2, v),
    {
        self.0 = put_field(self.0, 2, 2, v);
    }

    /// Accelerometer output data rate selection (4 bits)
    /// See Table 31 in datasheet for ODR values.
    pub fn odr_xl(&self) -> (r: u8)
        ensures
            r == field_of(self.0, 4, 4),
            r <= 0x0F,
    {
        proof {
            lemma_field_max();
        }
        get_field(self.0, 4, 4)
    }

    /// Accelerometer output data rate selection (4 bits)
    /// See Table 31 in datasheet for ODR values.
    pub fn set_odr_xl(&mut self, v: u8)
        requires
            v <= 0x0F,
        ensures
            final(self).0 == with_field(old(self).0, 4, 4, v),
    {
        self.0 = put_field(self.0, 4, 4, v);
    }
}

/// CTRL2_G (0x11)
///
/// Control register 2 for gyroscope (R/W)
#[derive(Clone, Copy, PartialEq, Eq, Debug, Structural)]
pub struct Ctrl2G(pub u8);

impl Ctrl2G {
    /// The register at its raw byte value.
    pub fn from_bits(bits: u8) -> (r: Self)
        ensures
            r.0 == bits,
    {
        Ctrl2G(bits)
    }

    /// The raw byte value of the register.
    pub fn into_bits(self) -> (r: u8)
        ensures
            r == self.0,
    {
        self.0
    }

    /// Gyroscope chain full-scale selection for ±125 dps.
    /// 0: FS selected through FS[1:0]_G bits (default)
    /// 1: FS set to ±125 dps
    pub fn fs_125(&self) -> (r: u8)
        ensures
            r == field_of(self.0, 1, 1),
            r <= 0x01,
    {
        proof {
            lemma_field_max();
        }
        get_field(self.0, 1, 1)
    }

    /// Gyroscope chain full-scale selection for ±125 dps.
    /// 0: FS selected through FS[1:0]_G bits (default)
    /// 1: FS set to ±125 dps
    pub fn set_fs_125(&mut self, v: u8)
        requires
            v <= 0x01,
        ensures
            final(self).0 == with_field(old(self).0, 1, 1, v),
    {
        self.0 = put_field(self.0, 1, 1, v);
    }

    /// Gyroscope full-scale selection (2 bits)
    /// 00: ±250 dps (default)
    /// 01: ±500 dps
    /// 10: ±1000 dps
    /// 11: ±2000 dps
    pub fn fs_g(&self) -> (r: u8)
        ensures
            r == field_of(self.0, 2, 2),
            r <= 0x03,
    {
        proof {
            lemma_field_max();
        }
        get_field(self.0, 2, 2)
    }

    /// Gyroscope full-scale selection (2 bits)
    /// 00: ±250 dps (default)
    /// 01: ±500 dps
    /// 10: ±1000 dps
    /// 11: ±2000 dps
    pub fn set_fs_g(&mut self, v: u8)
        requires
            v <= 0x03,
        ensures
            final(self).0 == with_field(old(self).0, 2, 2, v),
    {
        self.0 = put_field(self.0, 2, 2, v);
    }

    /// Gyroscope output data rate selection (4 bits)
    /// See Table 35 in datasheet for ODR values.
    pub fn odr_g(&self) -> (r: u8)
        ensures
            r == field_of(self.0, 4, 4),
            r <= 0x0F,
    {
        proof {
            lemma_field_max();
        }
        get_field(self.0, 4, 4)
    }

    /// Gyroscope output data rate selection (4 bits)
    /// See Table 35 in datasheet for ODR values.
    pub fn set_odr_g(&mut self, v: u8)
        requires
            v <= 0x0F,
        ensures
            final(self).0 == with_field(old(self).0, 4, 4, v),
    {
        self.0 = put_field(self.0, 4, 4, v);
    }
}

/// CTRL3_C (0x12)
///
/// Control register 3 (R/W)
#[derive(Clone, Copy, PartialEq, Eq, Debug, Structural)]
pub struct Ctrl3C(pub u8);

impl Ctrl3C {
    /// The register at its raw byte value.
    pub fn from_bits(bits: u8) -> (r: Self)
        ensures
            r.0 == bits,
    {
        Ctrl3C(bits)
    }

    /// The raw byte value of the register.
    pub fn into_bits(self) -> (r: u8)
        ensures
            r == self.0,
    {
        self.0
    }

    /// Software reset. Writing 1 resets device; bit auto-cleared.
    pub fn sw_reset(&self) -> (r: u8)
        ensures
            r == field_of(self.0, 0, 1),
            r <= 0x01,
    {
        proof {
            lemma_field_max();
        }
        get_field(self.0, 0, 1)
    }

    /// Software reset. Writing 1 resets device; bit auto-cleared.
    pub fn set_sw_reset(&mut self, v: u8)
        requires
            v <= 0x01,
        ensures
            final(self).0 == with_field(old(self).0, 0, 1, v),
    {
        self.0 = put_field(self.0, 0, 1, v);
    }

    /// Register address auto-increment during multiple byte access.
    /// 0: disabled
    /// 1: enabled (default)
    pub fn if_inc(&self) -> (r: u8)
        ensures
            r == field_of(self.0, 2, 1),
            r <= 0x01,
    {
        proof {
            lemma_field_max();
        }
        get_field(self.0, 2, 1)
    }

    /// Register address auto-increment during multiple byte access.
    /// 0: disabled
    /// 1: enabled (default)
    pub fn set_if_inc(&mut self, v: u8)
        requires
            v <= 0x01,
        ensures
            final(self).0 == with_field(old(self).0, 2, 1, v),
    {
        self.0 = put_field(self.0, 2, 1, v);
    }

    /// SPI serial interface mode selection.
    /// 0: 4-wire interface (default)
    /// 1: 3-wire interface
    pub fn sim(&self) -> (r: u8)
        ensures
            r == field_of(self.0, 3, 1),
            r <= 0x01,
    {
        proof {
            lemma_field_max();
        }
        get_field(self.0, 3, 1)
    }

    /// SPI serial interface mode selection.
    /// 0: 4-wire interface (default)
    /// 1: 3-wire interface
    pub fn set_sim(&mut self, v: u8)
        requires
            v <= 0x01,
        ensures
            final(self).0 == with_field(old(self).0, 3, 1, v),
    {
        self.0 = put_field(self.0, 3, 1, v);
    }

    /// Push-pull/open-drain selection on INT1 and INT2 pins.
    /// Must be 0 when H_LACTIVE is 1.
    /// 0: push-pull mode (default)
    /// 1: open-drain mode
    pub fn pp_od(&self) -> (r: u8)
        ensures
            r == field_of(self.0, 4, 1),
            r <= 0x01,
    {
        proof {
            lemma_field_max();
        }
        get_field(self.0, 4, 1)
    }

    /// Push-pull/open-drain selection on INT1 and INT2 pins.
    /// Must be 0 when H_LACTIVE is 1.
    /// 0: push-pull mode (default)
    /// 1: open-drain mode
    pub fn set_pp_od(&mut self, v: u8)
        requires
            v <= 0x01,
        ensures
            final(self).0 == with_field(old(self).0, 4, 1, v),
    {
        self.0 = put_field(self.0, 4, 1, v);
    }

    /// Interrupt activation level.
    /// 0: active-high (default)
    /// 1: active-low
    pub fn h_lactive(&self) -> (r: u8)
        ensures
            r == field_of(self.0, 5, 1),
            r <= 0x01,
    {
        proof {
            lemma_field_max();
        }
        get_field(self.0, 5, 1)
    }

    /// Interrupt activation level.
    /// 0: active-high (default)
    /// 1: active-low
    pub fn set_h_lactive(&mut self, v: u8)
        requires
            v <= 0x01,
        ensures
            final(self).0 == with_field(old(self).0, 5, 1, v),
    {
        self.0 = put_field(self.0, 5, 1, v);
    }

    /// Block data update.
    /// 0: continuous update (default)
    /// 1: output registers not updated until MSB and LSB read
    pub fn bdu(&self) -> (r: u8)
        ensures
            r == field_of(self.0, 6, 1),
            r <= 0x01,
    {
        proof {
            lemma_field_max();
        }
        get_field(self.0, 6, 1)
    }

    /// Block data update.
    /// 0: continuous update (default)
    /// 1: output registers not updated until MSB and LSB read
    pub fn set_bdu(&mut self, v: u8)
        requires
            v <= 0x01,
        ensures
            final(self).0 == with_field(old(self).0, 6, 1, v),
    {
        self.0 = put_field(self.0, 6, 1, v);
    }

    /// Reboot memory content.
    /// 0: normal mode (default)
    /// 1: reboot memory content
    pub fn boot(&self) -> (r: u8)
        ensures
            r == field_of(self.0, 7, 1),
            r <= 0x01,
    {
        proof {
            lemma_field_max();
        }
        get_field(self.0, 7, 1)
    }

    /// Reboot memory content.
    /// 0: normal mode (default)
    /// 1: reboot memory content
    pub fn set_boot(&mut self, v: u8)
        requires
            v <= 0x01,
        ensures
            final(self).0 == with_field(old(self).0, 7, 1, v),
    {
        self.0 = put_field(self.0, 7, 1, v);
    }
}

/// CTRL4_C (0x13)
///
/// Control register 4 (R/W)
#[derive(Clone, Copy, PartialEq, Eq, Debug, Structural)]
pub struct Ctrl4C(pub u8);

impl Ctrl4C {
    /// The register at its raw byte value.
    pub fn from_bits(bits: u8) -> (r: Self)
        ensures
            r.0 == bits,
    {
        Ctrl4C(bits)
    }

    /// The raw byte value of the register.
    pub fn into_bits(self) -> (r: u8)
        ensures
            r == self.0,
    {
        self.0
    }

    /// Disables I²C interface.
    /// 0: SPI and I²C enabled (default)
    /// 1: I²C disabled
    pub fn i2c_disable(&self) -> (r: u8)
        ensures
            r == field_of(self.0, 2, 1),
            r <= 0x01,
    {
        proof {
            lemma_field_max();
        }
        get_field(self.0, 2, 1)
    }

    /// Disables I²C interface.
    /// 0: SPI and I²C enabled (default)
    /// 1: I²C disabled
    pub fn set_i2c_disable(&mut self, v: u8)
        requires
            v <= 0x01,
        ensures
            final(self).0 == with_field(old(self).0, 2, 1, v),
    {
        self.0 = put_field(self.0, 2, 1, v);
    }

    /// Enables all interrupt signals on INT1 pin.
    /// 0: interrupt signals divided between INT1 and INT2 (default)
    /// 1: all interrupt signals on INT1
    pub fn int2_on_int1(&self) -> (r: u8)
        ensures
            r == field_of(self.0, 5, 1),
            r <= 0x01,
    {
        proof {
            lemma_field_max();
        }
        get_field(self.0, 5, 1)
    }

    /// Enables all interrupt signals on INT1 pin.
    /// 0: interrupt signals divided between INT1 and INT2 (default)
    /// 1: all interrupt signals on INT1
    pub fn set_int2_on_int1(&mut self, v: u8)
        requires
            v <= 0x01,
        ensures
            final(self).0 == with_field(old(self).0, 5, 1, v),
    {
        self.0 = put_field(self.0, 5, 1, v);
    }

    /// Enables gyroscope sleep mode.
    /// 0: disabled (default)
    /// 1: enabled
    pub fn sleep_g(&self) -> (r: u8)
        ensures
            r == field_of(self.0, 6, 1),
            r <= 0x01,
    {
        proof {
            lemma_field_max();
        }
        get_field(self.0, 6, 1)
    }

    /// Enables gyroscope sleep mode.
    /// 0: disabled (default)
    /// 1: enabled
    pub fn set_sleep_g(&mut self, v: u8)
        requires
            v <= 0x01,
        ensures
            final(self).0 == with_field(old(self).0, 6, 1, v),
    {
        self.0 = put_field(self.0, 6, 1, v);
    }
}

/// CTRL5_C (0x14)
///
/// Control register 5 (R/W)
#[derive(Clone, Copy, PartialEq, Eq, Debug, Structural)]
pub struct Ctrl5C(pub u8);

impl Ctrl5C {
    /// The register at its raw byte value.
    pub fn from_bits(bits: u8) -> (r: Self)
        ensures
            r.0 == bits,
    {
        Ctrl5C(bits)
    }

    /// The raw byte value of the register.
    pub fn into_bits(self) -> (r: u8)
        ensures
            r == self.0,
    {
        self.0
    }

    /// Enables linear acceleration sensor self-test (2 bits).
    /// 00: Self-test disabled (default)
    /// Other values: see Table 43 in datasheet.
    pub fn st_xl(&self) -> (r: u8)
        ensures
            r == field_of(self.0, 0, 2),
            r <= 0x03,
    {
        proof {
            lemma_field_max();
        }
        get_field(self.0, 0, 2)
    }

    /// Enables linear acceleration sensor self-test (2 bits).
    /// 00: Self-test disabled (default)
    /// Other values: see Table 43 in datasheet.
    pub fn set_st_xl(&mut self, v: u8)
        requires
            v <= 0x03,
        ensures
            final(self).0 == with_field(old(self).0, 0, 2, v),
    {
        self.0 = put_field(self.0, 0, 2, v);
    }

    /// Enables angular rate sensor self-test (2 bits).
    /// 00: Self-test disabled (default)
    /// Other values: see Table 42 in datasheet.
    pub fn st_g(&self) -> (r: u8)
        ensures
            r == field_of(self.0, 2, 2),
            r <= 0x03,
    {
        proof {
            lemma_field_max();
        }
        get_field(self.0, 2, 2)
    }

    /// Enables angular rate sensor self-test (2 bits).
    /// 00: Self-test disabled (default)
    /// Other values: see Table 42 in datasheet.
    pub fn set_st_g(&mut self, v: u8)
        requires
            v <= 0x03,
        ensures
            final(self).0 == with_field(old(self).0, 2, 2, v),
    {
        self.0 = put_field(self.0, 2, 2, v);
    }
}

/// CTRL6_C (0x15)
///
/// Control register 6 (R/W)
#[derive(Clone, Copy, PartialEq, Eq, Debug, Structural)]
pub struct Ctrl6C(pub u8);

impl Ctrl6C {
    /// The register at its raw byte value.
    pub fn from_bits(bits: u8) -> (r: Self)
        ensures
            r.0 == bits,
    {
        Ctrl6C(bits)
    }

    /// The raw byte value of the register.
    pub fn into_bits(self) -> (r: u8)
        ensures
            r == self.0,
    {
        self.0
    }

    /// Disables high-performance operating mode for accelerometer.
    /// 0: high-performance mode enabled (default)
    /// 1: high-performance mode disabled
    pub fn xl_hm_mode(&self) -> (r: u8)
        ensures
            r == field_of(self.0, 4, 1),
            r <= 0x01,
    {
        proof {
            lemma_field_max();
        }
        get_field(self.0, 4, 1)
    }

    /// Disables high-performance operating mode for accelerometer.
    /// 0: high-performance mode enabled (default)
    /// 1: high-performance mode disabled
    pub fn set_xl_hm_mode(&mut self, v: u8)
        requires
            v <= 0x01,
        ensures
            final(self).0 == with_field(old(self).0, 4, 1, v),
    {
        self.0 = put_field(self.0, 4, 1, v);
    }
}

/// CTRL7_G (0x16)
///
/// Control register 7 (R/W)
#[derive(Clone, Copy, PartialEq, Eq, Debug, Structural)]
pub struct Ctrl7G(pub u8);

impl Ctrl7G {
    /// The register at its raw byte value.
    pub fn from_bits(bits: u8) -> (r: Self)
        ensures
            r.0 == bits,
    {
        Ctrl7G(bits)
    }

    /// The raw byte value of the register.
    pub fn into_bits(self) -> (r: u8)
        ensures
            r == self.0,
    {
        self.0
    }

    /// Disables high-performance operating mode for gyroscope.
    /// 0: high-performance mode enabled (default)
    /// 1: high-performance mode disabled
    pub fn g_hm_mode(&self) -> (r: u8)
        ensures
            r == field_of(self.0, 7, 1),
            r <= 0x01,
    {
        proof {
            lemma_field_max();
        }
        get_field(self.0, 7, 1)
    }

    /// Disables high-performance operating mode for gyroscope.
    /// 0: high-performance mode enabled (default)
    /// 1: high-performance mode disabled
    pub fn set_g_hm_mode(&mut self, v: u8)
        requires
            v <= 0x01,
        ensures
            final(self).0 == with_field(old(self).0, 7, 1, v),
    {
        self.0 = put_field(self.0, 7, 1, v);
    }
}

/// CTRL9_C (0x18)
///
/// Control register 9 (R/W)
#[derive(Clone, Copy, PartialEq, Eq, Debug, Structural)]
pub struct Ctrl9C(pub u8);

impl Ctrl9C {
    /// The register at its raw byte value.
    pub fn from_bits(bits: u8) -> (r: Self)
        ensures
            r.0 == bits,
    {
        Ctrl9C(bits)
    }

    /// The raw byte value of the register.
    pub fn into_bits(self) -> (r: u8)
        ensures
            r == self.0,
    {
        self.0
    }

    /// Block data update (BDU) for ISPU output registers (2 bits).
    /// See Table 50 in datasheet for configuration details.
    pub fn ispu_bdu(&self) -> (r: u8)
        ensures
            r == field_of(self.0, 0, 2),
            r <= 0x03,
    {
        proof {
            lemma_field_max();
        }
        get_field(self.0, 0, 2)
    }

    /// Block data update (BDU) for ISPU output registers (2 bits).
    /// See Table 50 in datasheet for configuration details.
    pub fn set_ispu_bdu(&mut self, v: u8)
        requires
            v <= 0x03,
        ensures
            final(self).0 == with_field(old(self).0, 0, 2, v),
    {
        self.0 = put_field(self.0, 0, 2, v);
    }

    /// ISPU IRQ rate selection (4 bits).
    /// 0000: power-down (default)
    /// 0001: 12.5 Hz
    /// 0010: 26 Hz
    /// 0011: 52 Hz
    /// 0100: 104 Hz
    /// 0101: 208 Hz
    /// 0110: 416 Hz
    /// 0111: 833 Hz
    /// 1000: 1667 Hz
    /// 1001: 3333 Hz
    /// 1010: 6667 Hz
    /// 1011-1111: reserved
    pub fn ispu_rate(&self) -> (r: u8)
        ensures
            r == field_of(self.0, 4, 4),
            r <= 0x0F,
    {
        proof {
            lemma_field_max();
        }
        get_field(self.0, 4, 4)
    }

    /// ISPU IRQ rate selection (4 bits).
    /// 0000: power-down (default)
    /// 0001: 12.5 Hz
    /// 0010: 26 Hz
    /// 0011: 52 Hz
    /// 0100: 104 Hz
    /// 0101: 208 Hz
    /// 0110: 416 Hz
    /// 0111: 833 Hz
    /// 1000: 1667 Hz
    /// 1001: 3333 Hz
    /// 1010: 6667 Hz
    /// 1011-1111: reserved
    pub fn set_ispu_rate(&mut self, v: u8)
        requires
            v <= 0x0F,
        ensures
            final(self).0 == with_field(old(self).0, 4, 4, v),
    {
        self.0 = put_field(self.0, 4, 4, v);
    }
}

/// CTRL10_C (0x19)
///
/// Control register 10 (R/W)
///
/// - TIMESTAMP_EN: Enables timestamp counter. Default: 0 (disabled).
///   The counter is readable in TIMESTAMP0 (0x40), TIMESTAMP1 (0x41), TIMESTAMP2 (0x42), and TIMESTAMP3 (0x43).
/// - ISPU_CLK_SEL: Selects ISPU core clock frequency.
///   0: core clock frequency set to 5 MHz (default)
///   1: core clock frequency set to 10 MHz
#[derive(Clone, Copy, PartialEq, Eq, Debug, Structural)]
pub struct Ctrl10C(pub u8);

impl Ctrl10C {
    /// The register at its raw byte value.
    pub fn from_bits(bits: u8) -> (r: Self)
        ensures
            r.0 == bits,
    {
        Ctrl10C(bits)
    }

    /// The raw byte value of the register.
    pub fn into_bits(self) -> (r: u8)
        ensures
            r == self.0,
    {
        self.0
    }

    pub fn ispu_clk_sel(&self) -> (r: u8)
        ensures
            r == field_of(self.0, 2, 1),
            r <= 0x01,
    {
        proof {
            lemma_field_max();
        }
        get_field(self.0, 2, 1)
    }

    pub fn set_ispu_clk_sel(&mut self, v: u8)
        requires
            v <= 0x01,
        ensures
            final(self).0 == with_field(old(self).0, 2, 1, v),
    {
        self.0 = put_field(self.0, 2, 1, v);
    }

    pub fn timestamp_en(&self) -> (r: u8)
        ensures
            r == field_of(self.0, 5, 1),
            r <= 0x01,
    {
        proof {
            lemma_field_max();
        }
        get_field(self.0, 5, 1)
    }

    pub fn set_timestamp_en(&mut self, v: u8)
        requires
            v <= 0x01,
        ensures
            final(self).0 == with_field(old(self).0, 5, 1, v),
    {
        self.0 = put_field(self.0, 5, 1, v);
    }
}

#[derive(Clone, Copy, PartialEq, Eq, Debug, Structural)]
pub struct IspuIntStatusMainPage(pub u32);

impl IspuIntStatusMainPage {
    /// Decodes the register from its bytes, least significant first.
    pub fn from_le_bytes(b: [u8; 4]) -> (r: Self)
        ensures
            r.0 == le_u32(b@),
    {
        IspuIntStatusMainPage(u32_from_le(b))
    }

    /// Encodes the register as bytes, least significant first.
    pub fn to_le_bytes(self) -> (r: [u8; 4])
        ensures
            le_u32(r@) == self.0,
    {
        u32_to_le(self.0)
    }
}

/// STATUS_REG (0x1E)
///
/// Status register (R)
///
/// - XLDA: Accelerometer new data available. 0: no new data; 1: new data available.
/// - GDA: Gyroscope new data available. 0: no new data; 1: new data available.
/// - TDA: Temperature new data available. 0: no new data; 1: new data available.
/// - TIMESTAMP_ENDCOUNT: Alerts timestamp overflow within 6.4 ms.
#[derive(Clone, Copy, PartialEq, Eq, Debug, Structural)]
pub struct StatusReg(pub u8);

impl StatusReg {
    /// The register at its raw byte value.
    pub fn from_bits(bits: u8) -> (r: Self)
        ensures
            r.0 == bits,
    {
        StatusReg(bits)
    }

    /// The raw byte value of the register.
    pub fn into_bits(self) -> (r: u8)
        ensures
            r == self.0,
    {
        self.0
    }

    pub fn xlda(&self) -> (r: u8)
        ensures
            r == field_of(self.0, 0, 1),
            r <= 0x01,
    {
        proof {
            lemma_field_max();
        }
        get_field(self.0, 0, 1)
    }

    pub fn set_xlda(&mut self, v: u8)
        requires
            v <= 0x01,
        ensures
            final(self).0 == with_field(old(self).0, 0, 1, v),
    {
        self.0 = put_field(self.0, 0, 1, v);
    }

    pub fn gda(&self) -> (r: u8)
        ensures
            r == field_of(self.0, 1, 1),
            r <= 0x01,
    {
        proof {
            lemma_field_max();
        }
        get_field(self.0, 1, 1)
    }

    pub fn set_gda(&mut self, v: u8)
        requires
            v <= 0x01,
        ensures
            final(self).0 == with_field(old(self).0, 1, 1, v),
    {
        self.0 = put_field(self.0, 1, 1, v);
    }

    pub fn tda(&self) -> (r: u8)
        ensures
            r == field_of(self.0, 2, 1),
            r <= 0x01,
    {
        proof {
            lemma_field_max();
        }
        get_field(self.0, 2, 1)
    }

    pub fn set_tda(&mut self, v: u8)
        requires
            v <= 0x01,
        ensures
            final(self).0 == with_field(old(self).0, 2, 1, v),
    {
        self.0 = put_field(self.0, 2, 1, v);
    }

    pub fn timestamp_endcount(&self) -> (r: u8)
        ensures
            r == field_of(self.0, 7, 1),
            r <= 0x01,
    {
        proof {
            lemma_field_max();
        }
        get_field(self.0, 7, 1)
    }

    pub fn set_timestamp_endcount(&mut self, v: u8)
        requires
            v <= 0x01,
        ensures
            final(self).0 == with_field(old(self).0, 7, 1, v),
    {
        self.0 = put_field(self.0, 7, 1, v);
    }
}

/// OUT_TEMP_L - OUT_TEMP_H (0x20 - 0x21)
///
/// Temperature data output register (R).
///
/// The value is expressed as a 16-bit word in two’s complement.
#[derive(Clone, Copy, PartialEq, Eq, Debug, Structural)]
pub struct OutTemp(pub i16);

impl OutTemp {
    /// Decodes the register from its bytes, least significant first.
    pub fn from_le_bytes(b: [u8; 2]) -> (r: Self)
        ensures
            r.0 == signed16(le_u16(b@)),
    {
        OutTemp(i16_from_le(b))
    }
}

/// OUTX_L_G - OUTZ_H_G (0x22 - 0x27)
///
/// Angular rate sensor pitch axes (X, Y, Z) angular rate output register (R).
///
/// The value is expressed as a 16-bit word in two’s complement.
/// Data is according to the full-scale and ODR settings
/// (CTRL2_G (11h)) of the gyroscope.
#[derive(Clone, Copy, PartialEq, Eq, Debug, Structural)]
pub struct OutXYZG {
    pub x: i16,
    pub y: i16,
    pub z: i16,
}

impl OutXYZG {
    /// Decodes the three axes from their bytes, each least significant first.
    pub fn from_le_bytes(b: [u8; 6]) -> (r: Self)
        ensures
            r.x == signed16(le_u16(b@.subrange(0, 2))),
            r.y == signed16(le_u16(b@.subrange(2, 4))),
            r.z == signed16(le_u16(b@.subrange(4, 6))),
    {
        let x = i16_from_le([b[0], b[1]]);
        let y = i16_from_le([b[2], b[3]]);
        let z = i16_from_le([b[4], b[5]]);
        OutXYZG { x, y, z }
    }
}

/// OUTX_L_A - OUTZ_H_A (0x28 - 0x2D)
///
/// Linear acceleration sensor X-axis output register (R).
///
/// The value is expressed as a 16-bit word in two’s complement.
/// Data are according to the full-scale and ODR settings (CTRL1_XL (10h)) of the accelerometer
#[derive(Clone, Copy, PartialEq, Eq, Debug, Structural)]
pub struct OutXYZA {
    pub x: i16,
    pub y: i16,
    pub z: i16,
}

impl OutXYZA {
    /// Decodes the three axes from their bytes, each least significant first.
    pub fn from_le_bytes(b: [u8; 6]) -> (r: Self)
        ensures
            r.x == signed16(le_u16(b@.subrange(0, 2))),
            r.y == signed16(le_u16(b@.subrange(2, 4))),
            r.z == signed16(le_u16(b@.subrange(4, 6))),
    {
        let x = i16_from_le([b[0], b[1]]);
        let y = i16_from_le([b[2], b[3]]);
        let z = i16_from_le([b[4], b[5]]);
        OutXYZA { x, y, z }
    }
}

/// STATUS_MASTER_MAINPAGE (0x39)
///
/// Sensor hub status register (R)
///
/// - SENS_HUB_ENDOP: Sensor hub communication status.
///   0: communication not concluded; 1: communication concluded.
/// - SLAVE0_NACK to SLAVE3_NACK: Not acknowledge flags for slaves 0 to 3.
/// - WR_ONCE_DONE: Write operation on slave 0 completed when WRITE_ONCE bit in MASTER_CONFIG (0x14) is set.
#[derive(Clone, Copy, PartialEq, Eq, Debug, Structural)]
pub struct StatusMasterMainpage(pub u8);

impl StatusMasterMainpage {
    /// The register at its raw byte value.
    pub fn from_bits(bits: u8) -> (r: Self)
        ensures
            r.0 == bits,
    {
        StatusMasterMainpage(bits)
    }

    /// The raw byte value of the register.
    pub fn into_bits(self) -> (r: u8)
        ensures
            r == self.0,
    {
        self.0
    }

    pub fn sens_hub_endop(&self) -> (r: u8)
        ensures
            r == field_of(self.0, 0, 1),
            r <= 0x01,
    {
        proof {
            lemma_field_max();
        }
        get_field(self.0, 0, 1)
    }

    pub fn set_sens_hub_endop(&mut self, v: u8)
        requires
            v <= 0x01,
        ensures
            final(self).0 == with_field(old(self).0, 0, 1, v),
    {
        self.0 = put_field(self.0, 0, 1, v);
    }

    pub fn slave0_nack(&self) -> (r: u8)
        ensures
            r == field_of(self.0, 3, 1),
            r <= 0x01,
    {
        proof {
            lemma_field_max();
        }
        get_field(self.0, 3, 1)
    }

    pub fn set_slave0_nack(&mut self, v: u8)
        requires
            v <= 0x01,
        ensures
            final(self).0 == with_field(old(self).0, 3, 1, v),
    {
        self.0 = put_field(self.0, 3, 1, v);
    }

    pub fn slave1_nack(&self) -> (r: u8)
        ensures
            r == field_of(self.0, 4, 1),
            r <= 0x01,
    {
        proof {
            lemma_field_max();
        }
        get_field(self.0, 4, 1)
    }

    pub fn set_slave1_nack(&mut self, v: u8)
        requires
            v <= 0x01,
        ensures
            final(self).0 == with_field(old(self).0, 4, 1, v),
    {
        self.0 = put_field(self.0, 4, 1, v);
    }

    pub fn slave2_nack(&self) -> (r: u8)
        ensures
            r == field_of(self.0, 5, 1),
            r <= 0x01,
    {
        proof {
            lemma_field_max();
        }
        get_field(self.0, 5, 1)
    }

    pub fn set_slave2_nack(&mut self, v: u8)
        requires
            v <= 0x01,
        ensures
            final(self).0 == with_field(old(self).0, 5, 1, v),
    {
        self.0 = put_field(self.0, 5, 1, v);
    }

    pub fn slave3_nack(&self) -> (r: u8)
        ensures
            r == field_of(self.0, 6, 1),
            r <= 0x01,
    {
        proof {
            lemma_field_max();
        }
        get_field(self.0, 6, 1)
    }

    pub fn set_slave3_nack(&mut self, v: u8)
        requires
            v <= 0x01,
        ensures
            final(self).0 == with_field(old(self).0, 6, 1, v),
    {
        self.0 = put_field(self.0, 6, 1, v);
    }

    pub fn wr_once_done(&self) -> (r: u8)
        ensures
            r == field_of(self.0, 7, 1),
            r <= 0x01,
    {
        proof {
            lemma_field_max();
        }
        get_field(self.0, 7, 1)
    }

    pub fn set_wr_once_done(&mut self, v: u8)
        requires
            v <= 0x01,
        ensures
            final(self).0 == with_field(old(self).0, 7, 1, v),
    {
        self.0 = put_field(self.0, 7, 1, v);
    }
}

#[derive(Clone, Copy, PartialEq, Eq, Debug, Structural)]
pub struct Timestamp(pub u32);

impl Timestamp {
    /// Decodes the register from its bytes, least significant first.
    pub fn from_le_bytes(b: [u8; 4]) -> (r: Self)
        ensures
            r.0 == le_u32(b@),
    {
        Timestamp(u32_from_le(b))
    }

    /// Encodes the register as bytes, least significant first.
    pub fn to_le_bytes(self) -> (r: [u8; 4])
        ensures
            le_u32(r@) == self.0,
    {
        u32_to_le(self.0)
    }
}

/// MD1_CFG (0x5E)
///
/// Functions routing to INT1 pin register (R/W)
///
/// - INT1_SHUB: Routing sensor hub communication concluded event to INT1 pin.
/// - INT1_ISPU: Routing ISPU event to INT1 pin.
#[derive(Clone, Copy, PartialEq, Eq, Debug, Structural)]
pub struct Md1Cfg(pub u8);

impl Md1Cfg {
    /// The register at its raw byte value.
    pub fn from_bits(bits: u8) -> (r: Self)
        ensures
            r.0 == bits,
    {
        Md1Cfg(bits)
    }

    /// The raw byte value of the register.
    pub fn into_bits(self) -> (r: u8)
        ensures
            r == self.0,
    {
        self.0
    }

    pub fn int1_shub(&self) -> (r: u8)
        ensures
            r == field_of(self.0, 0, 1),
            r <= 0x01,
    {
        proof {
            lemma_field_max();
        }
        get_field(self.0, 0, 1)
    }

    pub fn set_int1_shub(&mut self, v: u8)
        requires
            v <= 0x01,
        ensures
            final(self).0 == with_field(old(self).0, 0, 1, v),
    {
        self.0 = put_field(self.0, 0, 1, v);
    }

    pub fn int1_ispu(&self) -> (r: u8)
        ensures
            r == field_of(self.0, 1, 1),
            r <= 0x01,
    {
        proof {
            lemma_field_max();
        }
        get_field(self.0, 1, 1)
    }

    pub fn set_int1_ispu(&mut self, v: u8)
        requires
            v <= 0x01,
        ensures
            final(self).0 == with_field(old(self).0, 1, 1, v),
    {
        self.0 = put_field(self.0, 1, 1, v);
    }
}

/// MD2_CFG (0x5F)
///
/// Functions routing to INT2 pin register (R/W)
///
/// - INT2_TIMESTAMP: Enables routing alert for timestamp overflow within 6.4 ms to INT2 pin.
/// - INT2_ISPU: Routing ISPU event to INT2 pin.
#[derive(Clone, Copy, PartialEq, Eq, Debug, Structural)]
pub struct Md2Cfg(pub u8);

impl Md2Cfg {
    /// The register at its raw byte value.
    pub fn from_bits(bits: u8) -> (r: Self)
        ensures
            r.0 == bits,
    {
        Md2Cfg(bits)
    }

    /// The raw byte value of the register.
    pub fn into_bits(self) -> (r: u8)
        ensures
            r == self.0,
    {
        self.0
    }

    pub fn int2_timestamp(&self) -> (r: u8)
        ensures
            r == field_of(self.0, 0, 1),
            r <= 0x01,
    {
        proof {
            lemma_field_max();
        }
        get_field(self.0, 0, 1)
    }

    pub fn set_int2_timestamp(&mut self, v: u8)
        requires
            v <= 0x01,
        ensures
            final(self).0 == with_field(old(self).0, 0, 1, v),
    {
        self.0 = put_field(self.0, 0, 1, v);
    }

    pub fn int2_ispu(&self) -> (r: u8)
        ensures
            r == field_of(self.0, 1, 1),
            r <= 0x01,
    {
        proof {
            lemma_field_max();
        }
        get_field(self.0, 1, 1)
    }

    pub fn set_int2_ispu(&mut self, v: u8)
        requires
            v <= 0x01,
        ensures
            final(self).0 == with_field(old(self).0, 1, 1, v),
    {
        self.0 = put_field(self.0, 1, 1, v);
    }
}

/// INTERNAL_FREQ_FINE (0x63)
///
/// Internal frequency register (R)
///
/// - FREQ_FINE[7:0]: Difference in percentage of effective ODR and timestamp rate with respect to typical.
///   Step: 0.15%. 8-bit two's complement format.
#[derive(Clone, Copy, PartialEq, Eq, Debug, Structural)]
pub struct InternalFreqFine(pub u8);

impl InternalFreqFine {
    /// The register at its raw byte value.
    pub fn from_bits(bits: u8) -> (r: Self)
        ensures
            r.0 == bits,
    {
        InternalFreqFine(bits)
    }

    /// The raw byte value of the register.
    pub fn into_bits(self) -> (r: u8)
        ensures
            r == self.0,
    {
        self.0
    }

    pub fn freq_fine(&self) -> (r: u8)
        ensures
            r == field_of(self.0, 0, 8),
            r <= 0xFF,
    {
        proof {
            lemma_field_max();
        }
        get_field(self.0, 0, 8)
    }

    pub fn set_freq_fine(&mut self, v: u8)
        requires
            v <= 0xFF,
        ensures
            final(self).0 == with_field(old(self).0, 0, 8, v),
    {
        self.0 = put_field(self.0, 0, 8, v);
    }
}

/// ISPU_DUMMY_CFG_1_L (0x73)
///
/// General-purpose input configuration register 1 for ISPU (R/W)
#[derive(Clone, Copy, PartialEq, Eq, Debug, Structural)]
pub struct IspuDummyCfg1L(pub u8);

impl IspuDummyCfg1L {
    /// The register at its raw byte value.
    pub fn from_bits(bits: u8) -> (r: Self)
        ensures
            r.0 == bits,
    {
        IspuDummyCfg1L(bits)
    }

    /// The raw byte value of the register.
    pub fn into_bits(self) -> (r: u8)
        ensures
            r == self.0,
    {
        self.0
    }

    pub fn ispu_dummy_cfg_1(&self) -> (r: u8)
        ensures
            r == field_of(self.0, 0, 8),
            r <= 0xFF,
    {
        proof {
            lemma_field_max();
        }
        get_field(self.0, 0, 8)
    }

    pub fn set_ispu_dummy_cfg_1(&mut self, v: u8)
        requires
            v <= 0xFF,
        ensures
            final(self).0 == with_field(old(self).0, 0, 8, v),
    {
        self.0 = put_field(self.0, 0, 8, v);
    }
}

/// ISPU_DUMMY_CFG_1_H (0x74)
///
/// General-purpose input configuration register 1 for ISPU (R/W)
#[derive(Clone, Copy, PartialEq, Eq, Debug, Structural)]
pub struct IspuDummyCfg1H(pub u8);

impl IspuDummyCfg1H {
    /// The register at its raw byte value.
    pub fn from_bits(bits: u8) -> (r: Self)
        ensures
            r.0 == bits,
    {
        IspuDummyCfg1H(bits)
    }

    /// The raw byte value of the register.
    pub fn into_bits(self) -> (r: u8)
        ensures
            r == self.0,
    {
        self.0
    }

    pub fn ispu_dummy_cfg_1(&self) -> (r: u8)
        ensures
            r == field_of(self.0, 0, 8),
            r <= 0xFF,
    {
        proof {
            lemma_field_max();
        }
        get_field(self.0, 0, 8)
    }

    pub fn set_ispu_dummy_cfg_1(&mut self, v: u8)
        requires
            v <= 0xFF,
        ensures
            final(self).0 == with_field(old(self).0, 0, 8, v),
    {
        self.0 = put_field(self.0, 0, 8, v);
    }
}

/// ISPU_DUMMY_CFG_2_L (0x75)
///
/// General-purpose input configuration register 2 for ISPU (R/W)
#[derive(Clone, Copy, PartialEq, Eq, Debug, Structural)]
pub struct IspuDummyCfg2L(pub u8);

impl IspuDummyCfg2L {
    /// The register at its raw byte value.
    pub fn from_bits(bits: u8) -> (r: Self)
        ensures
            r.0 == bits,
    {
        IspuDummyCfg2L(bits)
    }

    /// The raw byte value of the register.
    pub fn into_bits(self) -> (r: u8)
        ensures
            r == self.0,
    {
        self.0
    }

    pub fn ispu_dummy_cfg_2(&self) -> (r: u8)
        ensures
            r == field_of(self.0, 0, 8),
            r <= 0xFF,
    {
        proof {
            lemma_field_max();
        }
        get_field(self.0, 0, 8)
    }

    pub fn set_ispu_dummy_cfg_2(&mut self, v: u8)
        requires
            v <= 0xFF,
        ensures
            final(self).0 == with_field(old(self).0, 0, 8, v),
    {
        self.0 = put_field(self.0, 0, 8, v);
    }
}

/// ISPU_DUMMY_CFG_2_H (0x76)
///
/// General-purpose input configuration register 2 for ISPU (R/W)
#[derive(Clone, Copy, PartialEq, Eq, Debug, Structural)]
pub struct IspuDummyCfg2H(pub u8);

impl IspuDummyCfg2H {
    /// The register at its raw byte value.
    pub fn from_bits(bits: u8) -> (r: Self)
        ensures
            r.0 == bits,
    {
        IspuDummyCfg2H(bits)
    }

    /// The raw byte value of the register.
    pub fn into_bits(self) -> (r: u8)
        ensures
            r == self.0,
    {
        self.0
    }

    pub fn ispu_dummy_cfg_2(&self) -> (r: u8)
        ensures
            r == field_of(self.0, 0, 8),
            r <= 0xFF,
    {
        proof {
            lemma_field_max();
        }
        get_field(self.0, 0, 8)
    }

    pub fn set_ispu_dummy_cfg_2(&mut self, v: u8)
        requires
            v <= 0xFF,
        ensures
            final(self).0 == with_field(old(self).0, 0, 8, v),
    {
        self.0 = put_field(self.0, 0, 8, v);
    }
}

/// ISPU_DUMMY_CFG_3_L (0x77)
///
/// General-purpose input configuration register 3 for ISPU (R/W)
#[derive(Clone, Copy, PartialEq, Eq, Debug, Structural)]
pub struct IspuDummyCfg3L(pub u8);

impl IspuDummyCfg3L {
    /// The register at its raw byte value.
    pub fn from_bits(bits: u8) -> (r: Self)
        ensures
            r.0 == bits,
    {
        IspuDummyCfg3L(bits)
    }

    /// The raw byte value of the register.
    pub fn into_bits(self) -> (r: u8)
        ensures
            r == self.0,
    {
        self.0
    }

    pub fn ispu_dummy_cfg_3(&self) -> (r: u8)
        ensures
            r == field_of(self.0, 0, 8),
            r <= 0xFF,
    {
        proof {
            lemma_field_max();
        }
        get_field(self.0, 0, 8)
    }

    pub fn set_ispu_dummy_cfg_3(&mut self, v: u8)
        requires
            v <= 0xFF,
        ensures
            final(self).0 == with_field(old(self).0, 0, 8, v),
    {
        self.0 = put_field(self.0, 0, 8, v);
    }
}

/// ISPU_DUMMY_CFG_3_H (0x78)
///
/// General-purpose input configuration register 3 for ISPU (R/W)
#[derive(Clone, Copy, PartialEq, Eq, Debug, Structural)]
pub struct IspuDummyCfg3H(pub u8);

impl IspuDummyCfg3H {
    /// The register at its raw byte value.
    pub fn from_bits(bits: u8) -> (r: Self)
        ensures
            r.0 == bits,
    {
        IspuDummyCfg3H(bits)
    }

    /// The raw byte value of the register.
    pub fn into_bits(self) -> (r: u8)
        ensures
            r == self.0,
    {
        self.0
    }

    pub fn ispu_dummy_cfg_3(&self) -> (r: u8)
        ensures
            r == field_of(self.0, 0, 8),
            r <= 0xFF,
    {
        proof {
            lemma_field_max();
        }
        get_field(self.0, 0, 8)
    }

    pub fn set_ispu_dummy_cfg_3(&mut self, v: u8)
        requires
            v <= 0xFF,
        ensures
            final(self).0 == with_field(old(self).0, 0, 8, v),
    {
        self.0 = put_field(self.0, 0, 8, v);
    }
}

/// ISPU_DUMMY_CFG_4_L (0x79)
///
/// General-purpose input configuration register 4 for ISPU (R/W)
#[derive(Clone, Copy, PartialEq, Eq, Debug, Structural)]
pub struct IspuDummyCfg4L(pub u8);

impl IspuDummyCfg4L {
    /// The register at its raw byte value.
    pub fn from_bits(bits: u8) -> (r: Self)
        ensures
            r.0 == bits,
    {
        IspuDummyCfg4L(bits)
    }

    /// The raw byte value of the register.
    pub fn into_bits(self) -> (r: u8)
        ensures
            r == self.0,
    {
        self.0
    }

    pub fn ispu_dummy_cfg_4(&self) -> (r: u8)
        ensures
            r == field_of(self.0, 0, 8),
            r <= 0xFF,
    {
        proof {
            lemma_field_max();
        }
        get_field(self.0, 0, 8)
    }

    pub fn set_ispu_dummy_cfg_4(&mut self, v: u8)
        requires
            v <= 0xFF,
        ensures
            final(self).0 == with_field(old(self).0, 0, 8, v),
    {
        self.0 = put_field(self.0, 0, 8, v);
    }
}

/// ISPU_DUMMY_CFG_4_H (0x7A)
///
/// General-purpose input configuration register 4 for ISPU (R/W)
#[derive(Clone, Copy, PartialEq, Eq, Debug, Structural)]
pub struct IspuDummyCfg4H(pub u8);

impl IspuDummyCfg4H {
    /// The register at its raw byte value.
    pub fn from_bits(bits: u8) -> (r: Self)
        ensures
            r.0 == bits,
    {
        IspuDummyCfg4H(bits)
    }

    /// The raw byte value of the register.
    pub fn into_bits(self) -> (r: u8)
        ensures
            r == self.0,
    {
        self.0
    }

    pub fn ispu_dummy_cfg_4(&self) -> (r: u8)
        ensures
            r == field_of(self.0, 0, 8),
            r <= 0xFF,
    {
        proof {
            lemma_field_max();
        }
        get_field(self.0, 0, 8)
    }

    pub fn set_ispu_dummy_cfg_4(&mut self, v: u8)
        requires
            v <= 0xFF,
        ensures
            final(self).0 == with_field(old(self).0, 0, 8, v),
    {
        self.0 = put_field(self.0, 0, 8, v);
    }
}

/// It routes interrupt signals on INT 1 pin.
///
/// The output of the INT1 pin is the OR combination of the signals selected here and in register MD1_CFG (5Eh).
/// The signals include accelerometer data-ready, gyroscope data-ready, boot status, sensor hub communication
/// concluded event, and ISPU event routing.
#[derive(Clone, Copy, PartialEq, Eq, Debug, Structural)]
pub struct PinInt1Route {
    /// Enables accelerometer data-ready interrupt on the INT1 pin.
    pub drdy_xl: u8,
    /// Enables gyroscope data-ready interrupt on the INT1 pin.
    pub drdy_gy: u8,
    /// Boot status available on the INT1 pin.
    pub boot: u8,
    /// Routing sensor hub communication concluded event to INT1.
    pub sh_endop: u8,
    /// Routing ISPU event to INT1.
    pub ispu: u8,
}

/// It routes interrupt signals on INT 2 pin.
///
/// The output of the INT2 pin is the OR combination of the signals selected here and in register MD2_CFG (5Fh).
/// Signals include ISPU sleep state, temperature sensor data-ready, gyroscope data-ready, accelerometer data-ready,
/// timestamp overflow alert, and ISPU event routing.
#[derive(Clone, Copy, PartialEq, Eq, Debug, Structural)]
pub struct PinInt2Route {
    /// Enables accelerometer data-ready interrupt on the INT2 pin.
    pub drdy_xl: u8,
    /// Enables gyroscope data-ready interrupt on the INT2 pin.
    pub drdy_gy: u8,
    /// Enables temperature sensor data-ready interrupt on the INT2 pin.
    pub drdy_temp: u8,
    /// Enables routing the alert for timestamp overflow within 6.4 ms to the INT2 pin.
    pub timestamp: u8,
    /// Enables ISPU sleep state signal on the INT2 pin.
    /// When enabled:
    /// - INT2 low: ISPU is running;
    /// - INT2 high: ISPU is in sleep state.
    pub ispu_sleep: u8,
    /// Routing ISPU event to INT2.
    pub ispu: u8,
}

/// Data ready signal mode
///
/// Selects between latched or pulsed data-ready mode.
#[derive(Clone, Copy, PartialEq, Eq, Debug, Structural)]
pub enum DataReadyMode {
    /// Data-ready latched mode (returns to 0 only after an interface reading) (default)
    Latched,
    /// Data-ready pulsed mode (the data-ready pulses are 75 μs long)
    Pulsed,
}

impl DataReadyMode {
    /// The code that selects this value in its register field.
    pub open spec fn spec_bits(self) -> u8 {
        match self {
            DataReadyMode::Latched => 0x00,
            DataReadyMode::Pulsed => 0x01,
        }
    }

    /// The value that a register code stands for, if any.
    pub open spec fn spec_try_from_bits(v: u8) -> Option<DataReadyMode> {
        if v == 0x00 {
            Some(DataReadyMode::Latched)
        }         else if v == 0x01 {
            Some(DataReadyMode::Pulsed)
        } else {
            None
        }
    }

    /// The code that selects this value in its register field.
    pub fn bits(self) -> (r: u8)
        ensures
            r == self.spec_bits(),
            Self::spec_try_from_bits(r) == Some(self),
    {
        match self {
            DataReadyMode::Latched => 0x00,
            DataReadyMode::Pulsed => 0x01,
        }
    }

    /// Decodes a register code; `None` for a code that names no value.
    pub fn try_from_bits(v: u8) -> (r: Option<DataReadyMode>)
        ensures
            r == Self::spec_try_from_bits(v),
            r matches Some(x) ==> x.spec_bits() == v,
    {
        if v == 0x00 {
            Some(DataReadyMode::Latched)
        } else if v == 0x01 {
            Some(DataReadyMode::Pulsed)
        } else {
            None
        }
    }

    /// The value a register code decodes to, with `Latched` for a code that names no value.
    pub open spec fn spec_from_bits_or_default(v: u8) -> DataReadyMode {
        match Self::spec_try_from_bits(v) {
            Some(x) => x,
            None => DataReadyMode::Latched,
        }
    }

    /// Decodes a register code, with `Latched` for a code that names no value.
    pub fn from_bits_or_default(v: u8) -> (r: DataReadyMode)
        ensures
            r == Self::spec_from_bits_or_default(v),
    {
        match Self::try_from_bits(v) {
            Some(x) => x,
            None => DataReadyMode::Latched,
        }
    }
}

/// High-performance mode enable/disable
///
/// Enables or disables high-performance operating mode for accelerometer or gyroscope.
#[derive(Clone, Copy, PartialEq, Eq, Debug, Structural)]
pub enum HighPerformanceMode {
    /// High-performance operating mode enabled (default)
    Enabled,
    /// High-performance operating mode disabled
    Disabled,
}

impl HighPerformanceMode {
    /// The code that selects this value in its register field.
    pub open spec fn spec_bits(self) -> u8 {
        match self {
            HighPerformanceMode::Enabled => 0x00,
            HighPerformanceMode::Disabled => 0x01,
        }
    }

    /// The value that a register code stands for, if any.
    pub open spec fn spec_try_from_bits(v: u8) -> Option<HighPerformanceMode> {
        if v == 0x00 {
            Some(HighPerformanceMode::Enabled)
        }         else if v == 0x01 {
            Some(HighPerformanceMode::Disabled)
        } else {
            None
        }
    }

    /// The code that selects this value in its register field.
    pub fn bits(self) -> (r: u8)
        ensures
            r == self.spec_bits(),
            Self::spec_try_from_bits(r) == Some(self),
    {
        match self {
            HighPerformanceMode::Enabled => 0x00,
            HighPerformanceMode::Disabled => 0x01,
        }
    }

    /// Decodes a register code; `None` for a code that names no value.
    pub fn try_from_bits(v: u8) -> (r: Option<HighPerformanceMode>)
        ensures
            r == Self::spec_try_from_bits(v),
            r matches Some(x) ==> x.spec_bits() == v,
    {
        if v == 0x00 {
            Some(HighPerformanceMode::Enabled)
        } else if v == 0x01 {
            Some(HighPerformanceMode::Disabled)
        } else {
            None
        }
    }

    /// The value a register code decodes to, with `Enabled` for a code that names no value.
    pub open spec fn spec_from_bits_or_default(v: u8) -> HighPerformanceMode {
        match Self::spec_try_from_bits(v) {
            Some(x) => x,
            None => HighPerformanceMode::Enabled,
        }
    }

    /// Decodes a register code, with `Enabled` for a code that names no value.
    pub fn from_bits_or_default(v: u8) -> (r: HighPerformanceMode)
        ensures
            r == Self::spec_from_bits_or_default(v),
    {
        match Self::try_from_bits(v) {
            Some(x) => x,
            None => HighPerformanceMode::Enabled,
        }
    }
}

/// Accelerometer full-scale selection
///
/// Selects the full-scale range for the accelerometer.
#[derive(Clone, Copy, PartialEq, Eq, Debug, Structural)]
pub enum XlFullScale {
    /// ±2 g full scale (default)
    _2g,
    /// ±16 g full scale
    _16g,
    /// ±4 g full scale
    _4g,
    /// ±8 g full scale
    _8g,
}

impl XlFullScale {
    /// The code that selects this value in its register field.
    pub open spec fn spec_bits(self) -> u8 {
        match self {
            XlFullScale::_2g => 0x00,
            XlFullScale::_16g => 0x01,
            XlFullScale::_4g => 0x02,
            XlFullScale::_8g => 0x03,
        }
    }

    /// The value that a register code stands for, if any.
    pub open spec fn spec_try_from_bits(v: u8) -> Option<XlFullScale> {
        if v == 0x00 {
            Some(XlFullScale::_2g)
        }         else if v == 0x01 {
            Some(XlFullScale::_16g)
        }         else if v == 0x02 {
            Some(XlFullScale::_4g)
        }         else if v == 0x03 {
            Some(XlFullScale::_8g)
        } else {
            None
        }
    }

    /// The code that selects this value in its register field.
    pub fn bits(self) -> (r: u8)
        ensures
            r == self.spec_bits(),
            Self::spec_try_from_bits(r) == Some(self),
    {
        match self {
            XlFullScale::_2g => 0x00,
            XlFullScale::_16g => 0x01,
            XlFullScale::_4g => 0x02,
            XlFullScale::_8g => 0x03,
        }
    }

    /// Decodes a register code; `None` for a code that names no value.
    pub fn try_from_bits(v: u8) -> (r: Option<XlFullScale>)
        ensures
            r == Self::spec_try_from_bits(v),
            r matches Some(x) ==> x.spec_bits() == v,
    {
        if v == 0x00 {
            Some(XlFullScale::_2g)
        } else if v == 0x01 {
            Some(XlFullScale::_16g)
        } else if v == 0x02 {
            Some(XlFullScale::_4g)
        } else if v == 0x03 {
            Some(XlFullScale::_8g)
        } else {
            None
        }
    }

    /// The value a register code decodes to, with `_2g` for a code that names no value.
    pub open spec fn spec_from_bits_or_default(v: u8) -> XlFullScale {
        match Self::spec_try_from_bits(v) {
            Some(x) => x,
            None => XlFullScale::_2g,
        }
    }

    /// Decodes a register code, with `_2g` for a code that names no value.
    pub fn from_bits_or_default(v: u8) -> (r: XlFullScale)
        ensures
            r == Self::spec_from_bits_or_default(v),
    {
        match Self::try_from_bits(v) {
            Some(x) => x,
            None => XlFullScale::_2g,
        }
    }
}

/// Accelerometer output data rate (ODR)
///
/// Includes both high-performance and low-power mode ODRs.
#[derive(Clone, Copy, PartialEq, Eq, Debug, Structural)]
pub enum XlDataRate {
    /// Power-down mode
    Off,
    /// 12.5 Hz ODR in high-performance mode
    _12_5hzHp,
    /// 26 Hz ODR in high-performance mode
    _26hzHp,
    /// 52 Hz ODR in high-performance mode
    _52hzHp,
    /// 104 Hz ODR in high-performance mode
    _104hzHp,
    /// 208 Hz ODR in high-performance mode
    _208hzHp,
    /// 416 Hz ODR in high-performance mode
    _416hzHp,
    /// 833 Hz ODR in high-performance mode
    _833hzHp,
    /// 1667 Hz ODR in high-performance mode
    _1667hzHp,
    /// 3333 Hz ODR in high-performance mode
    _3333hzHp,
    /// 6667 Hz ODR in high-performance mode
    _6667hzHp,
    /// 12.5 Hz ODR in low-power mode
    _12_5hzLp,
    /// 26 Hz ODR in low-power mode
    _26hzLp,
    /// 52 Hz ODR in low-power mode
    _52hzLp,
    /// 104 Hz ODR in low-power mode
    _104hzLp,
    /// 208 Hz ODR in low-power mode
    _208hzLp,
    /// 416 Hz ODR in low-power mode
    _416hzLp,
    /// 833 Hz ODR in low-power mode
    _833hzLp,
    /// 1667 Hz ODR in low-power mode
    _1667hzLp,
    /// 3333 Hz ODR in low-power mode
    _3333hzLp,
    /// 6667 Hz ODR in low-power mode
    _6667hzLp,
    /// 1.6 Hz ODR in low-power mode
    _1_6hzLp,
}

impl XlDataRate {
    /// The code that selects this value in its register field.
    pub open spec fn spec_bits(self) -> u8 {
        match self {
            XlDataRate::Off => 0x00,
            XlDataRate::_12_5hzHp => 0x01,
            XlDataRate::_26hzHp => 0x02,
            XlDataRate::_52hzHp => 0x03,
            XlDataRate::_104hzHp => 0x04,
            XlDataRate::_208hzHp => 0x05,
            XlDataRate::_416hzHp => 0x06,
            XlDataRate::_833hzHp => 0x07,
            XlDataRate::_1667hzHp => 0x08,
            XlDataRate::_3333hzHp => 0x09,
            XlDataRate::_6667hzHp => 0x0A,
            XlDataRate::_12_5hzLp => 0x11,
            XlDataRate::_26hzLp => 0x12,
            XlDataRate::_52hzLp => 0x13,
            XlDataRate::_104hzLp => 0x14,
            XlDataRate::_208hzLp => 0x15,
            XlDataRate::_416hzLp => 0x16,
            XlDataRate::_833hzLp => 0x17,
            XlDataRate::_1667hzLp => 0x18,
            XlDataRate::_3333hzLp => 0x19,
            XlDataRate::_6667hzLp => 0x1A,
            XlDataRate::_1_6hzLp => 0x1B,
        }
    }

    /// The value that a register code stands for, if any.
    pub open spec fn spec_try_from_bits(v: u8) -> Option<XlDataRate> {
        if v == 0x00 {
            Some(XlDataRate::Off)
        }         else if v == 0x01 {
            Some(XlDataRate::_12_5hzHp)
        }         else if v == 0x02 {
            Some(XlDataRate::_26hzHp)
        }         else if v == 0x03 {
            Some(XlDataRate::_52hzHp)
        }         else if v == 0x04 {
            Some(XlDataRate::_104hzHp)
        }         else if v == 0x05 {
            Some(XlDataRate::_208hzHp)
        }         else if v == 0x06 {
            Some(XlDataRate::_416hzHp)
        }         else if v == 0x07 {
            Some(XlDataRate::_833hzHp)
        }         else if v == 0x08 {
            Some(XlDataRate::_1667hzHp)
        }         else if v == 0x09 {
            Some(XlDataRate::_3333hzHp)
        }         else if v == 0x0A {
            Some(XlDataRate::_6667hzHp)
        }         else if v == 0x11 {
            Some(XlDataRate::_12_5hzLp)
        }         else if v == 0x12 {
            Some(XlDataRate::_26hzLp)
        }         else if v == 0x13 {
            Some(XlDataRate::_52hzLp)
        }         else if v == 0x14 {
            Some(XlDataRate::_104hzLp)
        }         else if v == 0x15 {
            Some(XlDataRate::_208hzLp)
        }         else if v == 0x16 {
            Some(XlDataRate::_416hzLp)
        }         else if v == 0x17 {
            Some(XlDataRate::_833hzLp)
        }         else if v == 0x18 {
            Some(XlDataRate::_1667hzLp)
        }         else if v == 0x19 {
            Some(XlDataRate::_3333hzLp)
        }         else if v == 0x1A {
            Some(XlDataRate::_6667hzLp)
        }         else if v == 0x1B {
            Some(XlDataRate::_1_6hzLp)
        } else {
            None
        }
    }

    /// The code that selects this value in its register field.
    pub fn bits(self) -> (r: u8)
        ensures
            r == self.spec_bits(),
            Self::spec_try_from_bits(r) == Some(self),
    {
        match self {
            XlDataRate::Off => 0x00,
            XlDataRate::_12_5hzHp => 0x01,
            XlDataRate::_26hzHp => 0x02,
            XlDataRate::_52hzHp => 0x03,
            XlDataRate::_104hzHp => 0x04,
            XlDataRate::_208hzHp => 0x05,
            XlDataRate::_416hzHp => 0x06,
            XlDataRate::_833hzHp => 0x07,
            XlDataRate::_1667hzHp => 0x08,
            XlDataRate::_3333hzHp => 0x09,
            XlDataRate::_6667hzHp => 0x0A,
            XlDataRate::_12_5hzLp => 0x11,
            XlDataRate::_26hzLp => 0x12,
            XlDataRate::_52hzLp => 0x13,
            XlDataRate::_104hzLp => 0x14,
            XlDataRate::_208hzLp => 0x15,
            XlDataRate::_416hzLp => 0x16,
            XlDataRate::_833hzLp => 0x17,
            XlDataRate::_1667hzLp => 0x18,
            XlDataRate::_3333hzLp => 0x19,
            XlDataRate::_6667hzLp => 0x1A,
            XlDataRate::_1_6hzLp => 0x1B,
        }
    }

    /// Decodes a register code; `None` for a code that names no value.
    pub fn try_from_bits(v: u8) -> (r: Option<XlDataRate>)
        ensures
            r == Self::spec_try_from_bits(v),
            r matches Some(x) ==> x.spec_bits() == v,
    {
        if v == 0x00 {
            Some(XlDataRate::Off)
        } else if v == 0x01 {
            Some(XlDataRate::_12_5hzHp)
        } else if v == 0x02 {
            Some(XlDataRate::_26hzHp)
        } else if v == 0x03 {
            Some(XlDataRate::_52hzHp)
        } else if v == 0x04 {
            Some(XlDataRate::_104hzHp)
        } else if v == 0x05 {
            Some(XlDataRate::_208hzHp)
        } else if v == 0x06 {
            Some(XlDataRate::_416hzHp)
        } else if v == 0x07 {
            Some(XlDataRate::_833hzHp)
        } else if v == 0x08 {
            Some(XlDataRate::_1667hzHp)
        } else if v == 0x09 {
            Some(XlDataRate::_3333hzHp)
        } else if v == 0x0A {
            Some(XlDataRate::_6667hzHp)
        } else if v == 0x11 {
            Some(XlDataRate::_12_5hzLp)
        } else if v == 0x12 {
            Some(XlDataRate::_26hzLp)
        } else if v == 0x13 {
            Some(XlDataRate::_52hzLp)
        } else if v == 0x14 {
            Some(XlDataRate::_104hzLp)
        } else if v == 0x15 {
            Some(XlDataRate::_208hzLp)
        } else if v == 0x16 {
            Some(XlDataRate::_416hzLp)
        } else if v == 0x17 {
            Some(XlDataRate::_833hzLp)
        } else if v == 0x18 {
            Some(XlDataRate::_1667hzLp)
        } else if v == 0x19 {
            Some(XlDataRate::_3333hzLp)
        } else if v == 0x1A {
            Some(XlDataRate::_6667hzLp)
        } else if v == 0x1B {
            Some(XlDataRate::_1_6hzLp)
        } else {
            None
        }
    }

    /// The value a register code decodes to, with `Off` for a code that names no value.
    pub open spec fn spec_from_bits_or_default(v: u8) -> XlDataRate {
        match Self::spec_try_from_bits(v) {
            Some(x) => x,
            None => XlDataRate::Off,
        }
    }

    /// Decodes a register code, with `Off` for a code that names no value.
    pub fn from_bits_or_default(v: u8) -> (r: XlDataRate)
        ensures
            r == Self::spec_from_bits_or_default(v),
    {
        match Self::try_from_bits(v) {
            Some(x) => x,
            None => XlDataRate::Off,
        }
    }
}

/// Gyroscope full-scale selection
///
/// Selects the full-scale range for the gyroscope.
#[derive(Clone, Copy, PartialEq, Eq, Debug, Structural)]
pub enum GyFullScale {
    /// ±250 dps full scale
    _250dps,
    /// ±500 dps full scale
    _500dps,
    /// ±1000 dps full scale
    _1000dps,
    /// ±2000 dps full scale
    _2000dps,
    /// ±125 dps full scale (default)
    _125dps,
}

impl GyFullScale {
    /// The code that selects this value in its register field.
    pub open spec fn spec_bits(self) -> u8 {
        match self {
            GyFullScale::_250dps => 0x00,
            GyFullScale::_500dps => 0x01,
            GyFullScale::_1000dps => 0x02,
            GyFullScale::_2000dps => 0x03,
            GyFullScale::_125dps => 0x10,
        }
    }

    /// The value that a register code stands for, if any.
    pub open spec fn spec_try_from_bits(v: u8) -> Option<GyFullScale> {
        if v == 0x00 {
            Some(GyFullScale::_250dps)
        }         else if v == 0x01 {
            Some(GyFullScale::_500dps)
        }         else if v == 0x02 {
            Some(GyFullScale::_1000dps)
        }         else if v == 0x03 {
            Some(GyFullScale::_2000dps)
        }         else if v == 0x10 {
            Some(GyFullScale::_125dps)
        } else {
            None
        }
    }

    /// The code that selects this value in its register field.
    pub fn bits(self) -> (r: u8)
        ensures
            r == self.spec_bits(),
            Self::spec_try_from_bits(r) == Some(self),
    {
        match self {
            GyFullScale::_250dps => 0x00,
            GyFullScale::_500dps => 0x01,
            GyFullScale::_1000dps => 0x02,
            GyFullScale::_2000dps => 0x03,
            GyFullScale::_125dps => 0x10,
        }
    }

    /// Decodes a register code; `None` for a code that names no value.
    pub fn try_from_bits(v: u8) -> (r: Option<GyFullScale>)
        ensures
            r == Self::spec_try_from_bits(v),
            r matches Some(x) ==> x.spec_bits() == v,
    {
        if v == 0x00 {
            Some(GyFullScale::_250dps)
        } else if v == 0x01 {
            Some(GyFullScale::_500dps)
        } else if v == 0x02 {
            Some(GyFullScale::_1000dps)
        } else if v == 0x03 {
            Some(GyFullScale::_2000dps)
        } else if v == 0x10 {
            Some(GyFullScale::_125dps)
        } else {
            None
        }
    }

    /// The value a register code decodes to, with `_125dps` for a code that names no value.
    pub open spec fn spec_from_bits_or_default(v: u8) -> GyFullScale {
        match Self::spec_try_from_bits(v) {
            Some(x) => x,
            None => GyFullScale::_125dps,
        }
    }

    /// Decodes a register code, with `_125dps` for a code that names no value.
    pub fn from_bits_or_default(v: u8) -> (r: GyFullScale)
        ensures
            r == Self::spec_from_bits_or_default(v),
    {
        match Self::try_from_bits(v) {
            Some(x) => x,
            None => GyFullScale::_125dps,
        }
    }
}

/// Gyroscope output data rate (ODR)
///
/// Includes both high-performance and low-power mode ODRs.
#[derive(Clone, Copy, PartialEq, Eq, Debug, Structural)]
pub enum GyDataRate {
    /// Power-down mode
    Off,
    /// 12.5 Hz ODR in high-performance mode
    _12_5hzHp,
    /// 26 Hz ODR in high-performance mode
    _26hzHp,
    /// 52 Hz ODR in high-performance mode
    _52hzHp,
    /// 104 Hz ODR in high-performance mode
    _104hzHp,
    /// 208 Hz ODR in high-performance mode
    _208hzHp,
    /// 416 Hz ODR in high-performance mode
    _416hzHp,
    /// 833 Hz ODR in high-performance mode
    _833hzHp,
    /// 1667 Hz ODR in high-performance mode
    _1667hzHp,
    /// 3333 Hz ODR in high-performance mode
    _3333hzHp,
    /// 6667 Hz ODR in high-performance mode
    _6667hzHp,
    /// 12.5 Hz ODR in low-power mode
    _12_5hzLp,
    /// 26 Hz ODR in low-power mode
    _26hzLp,
    /// 52 Hz ODR in low-power mode
    _52hzLp,
    /// 104 Hz ODR in low-power mode
    _104hzLp,
    /// 208 Hz ODR in low-power mode
    _208hzLp,
    /// 416 Hz ODR in low-power mode
    _416hzLp,
    /// 833 Hz ODR in low-power mode
    _833hzLp,
    /// 1667 Hz ODR in low-power mode
    _1667hzLp,
    /// 3333 Hz ODR in low-power mode
    _3333hzLp,
    /// 6667 Hz ODR in low-power mode
    _6667hzLp,
}

impl GyDataRate {
    /// The code that selects this value in its register field.
    pub open spec fn spec_bits(self) -> u8 {
        match self {
            GyDataRate::Off => 0x00,
            GyDataRate::_12_5hzHp => 0x01,
            GyDataRate::_26hzHp => 0x02,
            GyDataRate::_52hzHp => 0x03,
            GyDataRate::_104hzHp => 0x04,
            GyDataRate::_208hzHp => 0x05,
            GyDataRate::_416hzHp => 0x06,
            GyDataRate::_833hzHp => 0x07,
            GyDataRate::_1667hzHp => 0x08,
            GyDataRate::_3333hzHp => 0x09,
            GyDataRate::_6667hzHp => 0x0A,
            GyDataRate::_12_5hzLp => 0x11,
            GyDataRate::_26hzLp => 0x12,
            GyDataRate::_52hzLp => 0x13,
            GyDataRate::_104hzLp => 0x14,
            GyDataRate::_208hzLp => 0x15,
            GyDataRate::_416hzLp => 0x16,
            GyDataRate::_833hzLp => 0x17,
            GyDataRate::_1667hzLp => 0x18,
            GyDataRate::_3333hzLp => 0x19,
            GyDataRate::_6667hzLp => 0x1A,
        }
    }

    /// The value that a register code stands for, if any.
    pub open spec fn spec_try_from_bits(v: u8) -> Option<GyDataRate> {
        if v == 0x00 {
            Some(GyDataRate::Off)
        }         else if v == 0x01 {
            Some(GyDataRate::_12_5hzHp)
        }         else if v == 0x02 {
            Some(GyDataRate::_26hzHp)
        }         else if v == 0x03 {
            Some(GyDataRate::_52hzHp)
        }         else if v == 0x04 {
            Some(GyDataRate::_104hzHp)
        }         else if v == 0x05 {
            Some(GyDataRate::_208hzHp)
        }         else if v == 0x06 {
            Some(GyDataRate::_416hzHp)
        }         else if v == 0x07 {
            Some(GyDataRate::_833hzHp)
        }         else if v == 0x08 {
            Some(GyDataRate::_1667hzHp)
        }         else if v == 0x09 {
            Some(GyDataRate::_3333hzHp)
        }         else if v == 0x0A {
            Some(GyDataRate::_6667hzHp)
        }         else if v == 0x11 {
            Some(GyDataRate::_12_5hzLp)
        }         else if v == 0x12 {
            Some(GyDataRate::_26hzLp)
        }         else if v == 0x13 {
            Some(GyDataRate::_52hzLp)
        }         else if v == 0x14 {
            Some(GyDataRate::_104hzLp)
        }         else if v == 0x15 {
            Some(GyDataRate::_208hzLp)
        }         else if v == 0x16 {
            Some(GyDataRate::_416hzLp)
        }         else if v == 0x17 {
            Some(GyDataRate::_833hzLp)
        }         else if v == 0x18 {
            Some(GyDataRate::_1667hzLp)
        }         else if v == 0x19 {
            Some(GyDataRate::_3333hzLp)
        }         else if v == 0x1A {
            Some(GyDataRate::_6667hzLp)
        } else {
            None
        }
    }

    /// The code that selects this value in its register field.
    pub fn bits(self) -> (r: u8)
        ensures
            r == self.spec_bits(),
            Self::spec_try_from_bits(r) == Some(self),
    {
        match self {
            GyDataRate::Off => 0x00,
            GyDataRate::_12_5hzHp => 0x01,
            GyDataRate::_26hzHp => 0x02,
            GyDataRate::_52hzHp => 0x03,
            GyDataRate::_104hzHp => 0x04,
            GyDataRate::_208hzHp => 0x05,
            GyDataRate::_416hzHp => 0x06,
            GyDataRate::_833hzHp => 0x07,
            GyDataRate::_1667hzHp => 0x08,
            GyDataRate::_3333hzHp => 0x09,
            GyDataRate::_6667hzHp => 0x0A,
            GyDataRate::_12_5hzLp => 0x11,
            GyDataRate::_26hzLp => 0x12,
            GyDataRate::_52hzLp => 0x13,
            GyDataRate::_104hzLp => 0x14,
            GyDataRate::_208hzLp => 0x15,
            GyDataRate::_416hzLp => 0x16,
            GyDataRate::_833hzLp => 0x17,
            GyDataRate::_1667hzLp => 0x18,
            GyDataRate::_3333hzLp => 0x19,
            GyDataRate::_6667hzLp => 0x1A,
        }
    }

    /// Decodes a register code; `None` for a code that names no value.
    pub fn try_from_bits(v: u8) -> (r: Option<GyDataRate>)
        ensures
            r == Self::spec_try_from_bits(v),
            r matches Some(x) ==> x.spec_bits() == v,
    {
        if v == 0x00 {
            Some(GyDataRate::Off)
        } else if v == 0x01 {
            Some(GyDataRate::_12_5hzHp)
        } else if v == 0x02 {
            Some(GyDataRate::_26hzHp)
        } else if v == 0x03 {
            Some(GyDataRate::_52hzHp)
        } else if v == 0x04 {
            Some(GyDataRate::_104hzHp)
        } else if v == 0x05 {
            Some(GyDataRate::_208hzHp)
        } else if v == 0x06 {
            Some(GyDataRate::_416hzHp)
        } else if v == 0x07 {
            Some(GyDataRate::_833hzHp)
        } else if v == 0x08 {
            Some(GyDataRate::_1667hzHp)
        } else if v == 0x09 {
            Some(GyDataRate::_3333hzHp)
        } else if v == 0x0A {
            Some(GyDataRate::_6667hzHp)
        } else if v == 0x11 {
            Some(GyDataRate::_12_5hzLp)
        } else if v == 0x12 {
            Some(GyDataRate::_26hzLp)
        } else if v == 0x13 {
            Some(GyDataRate::_52hzLp)
        } else if v == 0x14 {
            Some(GyDataRate::_104hzLp)
        } else if v == 0x15 {
            Some(GyDataRate::_208hzLp)
        } else if v == 0x16 {
            Some(GyDataRate::_416hzLp)
        } else if v == 0x17 {
            Some(GyDataRate::_833hzLp)
        } else if v == 0x18 {
            Some(GyDataRate::_1667hzLp)
        } else if v == 0x19 {
            Some(GyDataRate::_3333hzLp)
        } else if v == 0x1A {
            Some(GyDataRate::_6667hzLp)
        } else {
            None
        }
    }

    /// The value a register code decodes to, with `Off` for a code that names no value.
    pub open spec fn spec_from_bits_or_default(v: u8) -> GyDataRate {
        match Self::spec_try_from_bits(v) {
            Some(x) => x,
            None => GyDataRate::Off,
        }
    }

    /// Decodes a register code, with `Off` for a code that names no value.
    pub fn from_bits_or_default(v: u8) -> (r: GyDataRate)
        ensures
            r == Self::spec_from_bits_or_default(v),
    {
        match Self::try_from_bits(v) {
            Some(x) => x,
            None => GyDataRate::Off,
        }
    }
}

/// Sleep mode for gyroscope
///
/// Enables or disables the gyroscope independently of the accelerometer.
#[derive(Clone, Copy, PartialEq, Eq, Debug, Structural)]
pub enum Sleep {
    /// Gyroscope enabled (accelerometer can be independently controlled)
    GyroEnable,
    /// Gyroscope disabled (accelerometer can be independently controlled)
    GyroDisable,
}

impl Sleep {
    /// The code that selects this value in its register field.
    pub open spec fn spec_bits(self) -> u8 {
        match self {
            Sleep::GyroEnable => 0x00,
            Sleep::GyroDisable => 0x01,
        }
    }

    /// The value that a register code stands for, if any.
    pub open spec fn spec_try_from_bits(v: u8) -> Option<Sleep> {
        if v == 0x00 {
            Some(Sleep::GyroEnable)
        }         else if v == 0x01 {
            Some(Sleep::GyroDisable)
        } else {
            None
        }
    }

    /// The code that selects this value in its register field.
    pub fn bits(self) -> (r: u8)
        ensures
            r == self.spec_bits(),
            Self::spec_try_from_bits(r) == Some(self),
    {
        match self {
            Sleep::GyroEnable => 0x00,
            Sleep::GyroDisable => 0x01,
        }
    }

    /// Decodes a register code; `None` for a code that names no value.
    pub fn try_from_bits(v: u8) -> (r: Option<Sleep>)
        ensures
            r == Self::spec_try_from_bits(v),
            r matches Some(x) ==> x.spec_bits() == v,
    {
        if v == 0x00 {
            Some(Sleep::GyroEnable)
        } else if v == 0x01 {
            Some(Sleep::GyroDisable)
        } else {
            None
        }
    }

    /// The value a register code decodes to, with `GyroEnable` for a code that names no value.
    pub open spec fn spec_from_bits_or_default(v: u8) -> Sleep {
        match Self::spec_try_from_bits(v) {
            Some(x) => x,
            None => Sleep::GyroEnable,
        }
    }

    /// Decodes a register code, with `GyroEnable` for a code that names no value.
    pub fn from_bits_or_default(v: u8) -> (r: Sleep)
        ensures
            r == Self::spec_from_bits_or_default(v),
    {
        match Self::try_from_bits(v) {
            Some(x) => x,
            None => Sleep::GyroEnable,
        }
    }
}

/// Linear acceleration sensor self-test mode
///
/// Enables self-test with positive or negative sign or disables it.
#[derive(Clone, Copy, PartialEq, Eq, Debug, Structural)]
pub enum XlSelfTest {
    /// Linear acceleration sensor self-test disabled
    Disable,
    /// Linear acceleration sensor self-test positive sign
    Positive,
    /// Linear acceleration sensor self-test negative sign
    Negative,
}

impl XlSelfTest {
    /// The code that selects this value in its register field.
    pub open spec fn spec_bits(self) -> u8 {
        match self {
            XlSelfTest::Disable => 0x00,
            XlSelfTest::Positive => 0x01,
            XlSelfTest::Negative => 0x02,
        }
    }

    /// The value that a register code stands for, if any.
    pub open spec fn spec_try_from_bits(v: u8) -> Option<XlSelfTest> {
        if v == 0x00 {
            Some(XlSelfTest::Disable)
        }         else if v == 0x01 {
            Some(XlSelfTest::Positive)
        }         else if v == 0x02 {
            Some(XlSelfTest::Negative)
        } else {
            None
        }
    }

    /// The code that selects this value in its register field.
    pub fn bits(self) -> (r: u8)
        ensures
            r == self.spec_bits(),
            Self::spec_try_from_bits(r) == Some(self),
    {
        match self {
            XlSelfTest::Disable => 0x00,
            XlSelfTest::Positive => 0x01,
            XlSelfTest::Negative => 0x02,
        }
    }

    /// Decodes a register code; `None` for a code that names no value.
    pub fn try_from_bits(v: u8) -> (r: Option<XlSelfTest>)
        ensures
            r == Self::spec_try_from_bits(v),
            r matches Some(x) ==> x.spec_bits() == v,
    {
        if v == 0x00 {
            Some(XlSelfTest::Disable)
        } else if v == 0x01 {
            Some(XlSelfTest::Positive)
        } else if v == 0x02 {
            Some(XlSelfTest::Negative)
        } else {
            None
        }
    }

    /// The value a register code decodes to, with `Disable` for a code that names no value.
    pub open spec fn spec_from_bits_or_default(v: u8) -> XlSelfTest {
        match Self::spec_try_from_bits(v) {
            Some(x) => x,
            None => XlSelfTest::Disable,
        }
    }

    /// Decodes a register code, with `Disable` for a code that names no value.
    pub fn from_bits_or_default(v: u8) -> (r: XlSelfTest)
        ensures
            r == Self::spec_from_bits_or_default(v),
    {
        match Self::try_from_bits(v) {
            Some(x) => x,
            None => XlSelfTest::Disable,
        }
    }
}

/// Angular rate sensor self-test mode
///
/// Enables self-test with positive or negative sign or disables it.
#[derive(Clone, Copy, PartialEq, Eq, Debug, Structural)]
pub enum GySelfTest {
    /// Angular rate sensor self-test disabled
    Disable,
    /// Angular rate sensor self-test positive sign
    Positive,
    /// Angular rate sensor self-test negative sign
    Negative,
}

impl GySelfTest {
    /// The code that selects this value in its register field.
    pub open spec fn spec_bits(self) -> u8 {
        match self {
            GySelfTest::Disable => 0x00,
            GySelfTest::Positive => 0x01,
            GySelfTest::Negative => 0x03,
        }
    }

    /// The value that a register code stands for, if any.
    pub open spec fn spec_try_from_bits(v: u8) -> Option<GySelfTest> {
        if v == 0x00 {
            Some(GySelfTest::Disable)
        }         else if v == 0x01 {
            Some(GySelfTest::Positive)
        }         else if v == 0x03 {
            Some(GySelfTest::Negative)
        } else {
            None
        }
    }

    /// The code that selects this value in its register field.
    pub fn bits(self) -> (r: u8)
        ensures
            r == self.spec_bits(),
            Self::spec_try_from_bits(r) == Some(self),
    {
        match self {
            GySelfTest::Disable => 0x00,
            GySelfTest::Positive => 0x01,
            GySelfTest::Negative => 0x03,
        }
    }

    /// Decodes a register code; `None` for a code that names no value.
    pub fn try_from_bits(v: u8) -> (r: Option<GySelfTest>)
        ensures
            r == Self::spec_try_from_bits(v),
            r matches Some(x) ==> x.spec_bits() == v,
    {
        if v == 0x00 {
            Some(GySelfTest::Disable)
        } else if v == 0x01 {
            Some(GySelfTest::Positive)
        } else if v == 0x03 {
            Some(GySelfTest::Negative)
        } else {
            None
        }
    }

    /// The value a register code decodes to, with `Disable` for a code that names no value.
    pub open spec fn spec_from_bits_or_default(v: u8) -> GySelfTest {
        match Self::spec_try_from_bits(v) {
            Some(x) => x,
            None => GySelfTest::Disable,
        }
    }

    /// Decodes a register code, with `Disable` for a code that names no value.
    pub fn from_bits_or_default(v: u8) -> (r: GySelfTest)
        ensures
            r == Self::spec_from_bits_or_default(v),
    {
        match Self::try_from_bits(v) {
            Some(x) => x,
            None => GySelfTest::Disable,
        }
    }
}

/// SPI interface mode selection
///
/// Selects between 4-wire and 3-wire SPI interface modes.
#[derive(Clone, Copy, PartialEq, Eq, Debug, Structural)]
pub enum SpiMode {
    /// SPI 4-wire interface mode
    Spi4Wire,
    /// SPI 3-wire interface mode
    Spi3Wire,
}

impl SpiMode {
    /// The code that selects this value in its register field.
    pub open spec fn spec_bits(self) -> u8 {
        match self {
            SpiMode::Spi4Wire => 0x00,
            SpiMode::Spi3Wire => 0x01,
        }
    }

    /// The value that a register code stands for, if any.
    pub open spec fn spec_try_from_bits(v: u8) -> Option<SpiMode> {
        if v == 0x00 {
            Some(SpiMode::Spi4Wire)
        }         else if v == 0x01 {
            Some(SpiMode::Spi3Wire)
        } else {
            None
        }
    }

    /// The code that selects this value in its register field.
    pub fn bits(self) -> (r: u8)
        ensures
            r == self.spec_bits(),
            Self::spec_try_from_bits(r) == Some(self),
    {
        match self {
            SpiMode::Spi4Wire => 0x00,
            SpiMode::Spi3Wire => 0x01,
        }
    }

    /// Decodes a register code; `None` for a code that names no value.
    pub fn try_from_bits(v: u8) -> (r: Option<SpiMode>)
        ensures
            r == Self::spec_try_from_bits(v),
            r matches Some(x) ==> x.spec_bits() == v,
    {
        if v == 0x00 {
            Some(SpiMode::Spi4Wire)
        } else if v == 0x01 {
            Some(SpiMode::Spi3Wire)
        } else {
            None
        }
    }

    /// The value a register code decodes to, with `Spi4Wire` for a code that names no value.
    pub open spec fn spec_from_bits_or_default(v: u8) -> SpiMode {
        match Self::spec_try_from_bits(v) {
            Some(x) => x,
            None => SpiMode::Spi4Wire,
        }
    }

    /// Decodes a register code, with `Spi4Wire` for a code that names no value.
    pub fn from_bits_or_default(v: u8) -> (r: SpiMode)
        ensures
            r == Self::spec_from_bits_or_default(v),
    {
        match Self::try_from_bits(v) {
            Some(x) => x,
            None => SpiMode::Spi4Wire,
        }
    }
}

/// I²C interface enable/disable mode
///
/// Enables or disables the I²C interface.
#[derive(Clone, Copy, PartialEq, Eq, Debug, Structural)]
pub enum UiI2cMode {
    /// I²C interface enabled (default)
    Enable,
    /// I²C interface disabled
    Disable,
}

impl UiI2cMode {
    /// The code that selects this value in its register field.
    pub open spec fn spec_bits(self) -> u8 {
        match self {
            UiI2cMode::Enable => 0x00,
            UiI2cMode::Disable => 0x01,
        }
    }

    /// The value that a register code stands for, if any.
    pub open spec fn spec_try_from_bits(v: u8) -> Option<UiI2cMode> {
        if v == 0x00 {
            Some(UiI2cMode::Enable)
        }         else if v == 0x01 {
            Some(UiI2cMode::Disable)
        } else {
            None
        }
    }

    /// The code that selects this value in its register field.
    pub fn bits(self) -> (r: u8)
        ensures
            r == self.spec_bits(),
            Self::spec_try_from_bits(r) == Some(self),
    {
        match self {
            UiI2cMode::Enable => 0x00,
            UiI2cMode::Disable => 0x01,
        }
    }

    /// Decodes a register code; `None` for a code that names no value.
    pub fn try_from_bits(v: u8) -> (r: Option<UiI2cMode>)
        ensures
            r == Self::spec_try_from_bits(v),
            r matches Some(x) ==> x.spec_bits() == v,
    {
        if v == 0x00 {
            Some(UiI2cMode::Enable)
        } else if v == 0x01 {
            Some(UiI2cMode::Disable)
        } else {
            None
        }
    }

    /// The value a register code decodes to, with `Enable` for a code that names no value.
    pub open spec fn spec_from_bits_or_default(v: u8) -> UiI2cMode {
        match Self::spec_try_from_bits(v) {
            Some(x) => x,
            None => UiI2cMode::Enable,
        }
    }

    /// Decodes a register code, with `Enable` for a code that names no value.
    pub fn from_bits_or_default(v: u8) -> (r: UiI2cMode)
        ensures
            r == Self::spec_from_bits_or_default(v),
    {
        match Self::try_from_bits(v) {
            Some(x) => x,
            None => UiI2cMode::Enable,
        }
    }
}

/// Interrupt pin mode selection
///
/// Configures interrupt pins as push-pull or open-drain.
#[derive(Clone, Copy, PartialEq, Eq, Debug, Structural)]
pub enum IntPinMode {
    /// Interrupt pins configured as push-pull (default)
    PushPull,
    /// Interrupt pins configured as open-drain
    OpenDrain,
}

impl IntPinMode {
    /// The code that selects this value in its register field.
    pub open spec fn spec_bits(self) -> u8 {
        match self {
            IntPinMode::PushPull => 0x00,
            IntPinMode::OpenDrain => 0x01,
        }
    }

    /// The value that a register code stands for, if any.
    pub open spec fn spec_try_from_bits(v: u8) -> Option<IntPinMode> {
        if v == 0x00 {
            Some(IntPinMode::PushPull)
        }         else if v == 0x01 {
            Some(IntPinMode::OpenDrain)
        } else {
            None
        }
    }

    /// The code that selects this value in its register field.
    pub fn bits(self) -> (r: u8)
        ensures
            r == self.spec_bits(),
            Self::spec_try_from_bits(r) == Some(self),
    {
        match self {
            IntPinMode::PushPull => 0x00,
            IntPinMode::OpenDrain => 0x01,
        }
    }

    /// Decodes a register code; `None` for a code that names no value.
    pub fn try_from_bits(v: u8) -> (r: Option<IntPinMode>)
        ensures
            r == Self::spec_try_from_bits(v),
            r matches Some(x) ==> x.spec_bits() == v,
    {
        if v == 0x00 {
            Some(IntPinMode::PushPull)
        } else if v == 0x01 {
            Some(IntPinMode::OpenDrain)
        } else {
            None
        }
    }

    /// The value a register code decodes to, with `PushPull` for a code that names no value.
    pub open spec fn spec_from_bits_or_default(v: u8) -> IntPinMode {
        match Self::spec_try_from_bits(v) {
            Some(x) => x,
            None => IntPinMode::PushPull,
        }
    }

    /// Decodes a register code, with `PushPull` for a code that names no value.
    pub fn from_bits_or_default(v: u8) -> (r: IntPinMode)
        ensures
            r == Self::spec_from_bits_or_default(v),
    {
        match Self::try_from_bits(v) {
            Some(x) => x,
            None => IntPinMode::PushPull,
        }
    }
}

/// Interrupt pin polarity
///
/// Configures interrupt pins active high or active low.
#[derive(Clone, Copy, PartialEq, Eq, Debug, Structural)]
pub enum PinPolarity {
    /// Interrupt pins active high (default)
    ActiveHigh,
    /// Interrupt pins active low
    ActiveLow,
}

impl PinPolarity {
    /// The code that selects this value in its register field.
    pub open spec fn spec_bits(self) -> u8 {
        match self {
            PinPolarity::ActiveHigh => 0x00,
            PinPolarity::ActiveLow => 0x01,
        }
    }

    /// The value that a register code stands for, if any.
    pub open spec fn spec_try_from_bits(v: u8) -> Option<PinPolarity> {
        if v == 0x00 {
            Some(PinPolarity::ActiveHigh)
        }         else if v == 0x01 {
            Some(PinPolarity::ActiveLow)
        } else {
            None
        }
    }

    /// The code that selects this value in its register field.
    pub fn bits(self) -> (r: u8)
        ensures
            r == self.spec_bits(),
            Self::spec_try_from_bits(r) == Some(self),
    {
        match self {
            PinPolarity::ActiveHigh => 0x00,
            PinPolarity::ActiveLow => 0x01,
        }
    }

    /// Decodes a register code; `None` for a code that names no value.
    pub fn try_from_bits(v: u8) -> (r: Option<PinPolarity>)
        ensures
            r == Self::spec_try_from_bits(v),
            r matches Some(x) ==> x.spec_bits() == v,
    {
        if v == 0x00 {
            Some(PinPolarity::ActiveHigh)
        } else if v == 0x01 {
            Some(PinPolarity::ActiveLow)
        } else {
            None
        }
    }

    /// The value a register code decodes to, with `ActiveHigh` for a code that names no value.
    pub open spec fn spec_from_bits_or_default(v: u8) -> PinPolarity {
        match Self::spec_try_from_bits(v) {
            Some(x) => x,
            None => PinPolarity::ActiveHigh,
        }
    }

    /// Decodes a register code, with `ActiveHigh` for a code that names no value.
    pub fn from_bits_or_default(v: u8) -> (r: PinPolarity)
        ensures
            r == Self::spec_from_bits_or_default(v),
    {
        match Self::try_from_bits(v) {
            Some(x) => x,
            None => PinPolarity::ActiveHigh,
        }
    }
}

/// ISPU core clock frequency selection
///
/// Selects the clock frequency of the ISPU core.
#[derive(Clone, Copy, PartialEq, Eq, Debug, Structural)]
pub enum IspuClockSel {
    /// ISPU core clock frequency set to 5 MHz (default)
    _5mHz,
    /// ISPU core clock frequency set to 10 MHz
    _10mHz,
}

impl IspuClockSel {
    /// The code that selects this value in its register field.
    pub open spec fn spec_bits(self) -> u8 {
        match self {
            IspuClockSel::_5mHz => 0x00,
            IspuClockSel::_10mHz => 0x01,
        }
    }

    /// The value that a register code stands for, if any.
    pub open spec fn spec_try_from_bits(v: u8) -> Option<IspuClockSel> {
        if v == 0x00 {
            Some(IspuClockSel::_5mHz)
        }         else if v == 0x01 {
            Some(IspuClockSel::_10mHz)
        } else {
            None
        }
    }

    /// The code that selects this value in its register field.
    pub fn bits(self) -> (r: u8)
        ensures
            r == self.spec_bits(),
            Self::spec_try_from_bits(r) == Some(self),
    {
        match self {
            IspuClockSel::_5mHz => 0x00,
            IspuClockSel::_10mHz => 0x01,
        }
    }

    /// Decodes a register code; `None` for a code that names no value.
    pub fn try_from_bits(v: u8) -> (r: Option<IspuClockSel>)
        ensures
            r == Self::spec_try_from_bits(v),
            r matches Some(x) ==> x.spec_bits() == v,
    {
        if v == 0x00 {
            Some(IspuClockSel::_5mHz)
        } else if v == 0x01 {
            Some(IspuClockSel::_10mHz)
        } else {
            None
        }
    }

    /// The value a register code decodes to, with `_5mHz` for a code that names no value.
    pub open spec fn spec_from_bits_or_default(v: u8) -> IspuClockSel {
        match Self::spec_try_from_bits(v) {
            Some(x) => x,
            None => IspuClockSel::_5mHz,
        }
    }

    /// Decodes a register code, with `_5mHz` for a code that names no value.
    pub fn from_bits_or_default(v: u8) -> (r: IspuClockSel)
        ensures
            r == Self::spec_from_bits_or_default(v),
    {
        match Self::try_from_bits(v) {
            Some(x) => x,
            None => IspuClockSel::_5mHz,
        }
    }
}

/// ISPU output data rate
///
/// Selects the output data rate of the ISPU.
#[derive(Clone, Copy, PartialEq, Eq, Debug, Structural)]
pub enum IspuDataRate {
    /// ISPU power-down (off)
    Off,
    /// ISPU output data rate 12.5 Hz
    _12_5hz,
    /// ISPU output data rate 26 Hz
    _26hz,
    /// ISPU output data rate 52 Hz
    _52hz,
    /// ISPU output data rate 104 Hz
    _104hz,
    /// ISPU output data rate 208 Hz
    _208hz,
    /// ISPU output data rate 416 Hz
    _416hz,
    /// ISPU output data rate 833 Hz
    _833hz,
    /// ISPU output data rate 1667 Hz
    _1667hz,
    /// ISPU output data rate 3333 Hz
    _3333hz,
    /// ISPU output data rate 6667 Hz
    _6667hz,
}

impl IspuDataRate {
    /// The code that selects this value in its register field.
    pub open spec fn spec_bits(self) -> u8 {
        match self {
            IspuDataRate::Off => 0x00,
            IspuDataRate::_12_5hz => 0x01,
            IspuDataRate::_26hz => 0x02,
            IspuDataRate::_52hz => 0x03,
            IspuDataRate::_104hz => 0x04,
            IspuDataRate::_208hz => 0x05,
            IspuDataRate::_416hz => 0x06,
            IspuDataRate::_833hz => 0x07,
            IspuDataRate::_1667hz => 0x08,
            IspuDataRate::_3333hz => 0x09,
            IspuDataRate::_6667hz => 0x0A,
        }
    }

    /// The value that a register code stands for, if any.
    pub open spec fn spec_try_from_bits(v: u8) -> Option<IspuDataRate> {
        if v == 0x00 {
            Some(IspuDataRate::Off)
        }         else if v == 0x01 {
            Some(IspuDataRate::_12_5hz)
        }         else if v == 0x02 {
            Some(IspuDataRate::_26hz)
        }         else if v == 0x03 {
            Some(IspuDataRate::_52hz)
        }         else if v == 0x04 {
            Some(IspuDataRate::_104hz)
        }         else if v == 0x05 {
            Some(IspuDataRate::_208hz)
        }         else if v == 0x06 {
            Some(IspuDataRate::_416hz)
        }         else if v == 0x07 {
            Some(IspuDataRate::_833hz)
        }         else if v == 0x08 {
            Some(IspuDataRate::_1667hz)
        }         else if v == 0x09 {
            Some(IspuDataRate::_3333hz)
        }         else if v == 0x0A {
            Some(IspuDataRate::_6667hz)
        } else {
            None
        }
    }

    /// The code that selects this value in its register field.
    pub fn bits(self) -> (r: u8)
        ensures
            r == self.spec_bits(),
            Self::spec_try_from_bits(r) == Some(self),
    {
        match self {
            IspuDataRate::Off => 0x00,
            IspuDataRate::_12_5hz => 0x01,
            IspuDataRate::_26hz => 0x02,
            IspuDataRate::_52hz => 0x03,
            IspuDataRate::_104hz => 0x04,
            IspuDataRate::_208hz => 0x05,
            IspuDataRate::_416hz => 0x06,
            IspuDataRate::_833hz => 0x07,
            IspuDataRate::_1667hz => 0x08,
            IspuDataRate::_3333hz => 0x09,
            IspuDataRate::_6667hz => 0x0A,
        }
    }

    /// Decodes a register code; `None` for a code that names no value.
    pub fn try_from_bits(v: u8) -> (r: Option<IspuDataRate>)
        ensures
            r == Self::spec_try_from_bits(v),
            r matches Some(x) ==> x.spec_bits() == v,
    {
        if v == 0x00 {
            Some(IspuDataRate::Off)
        } else if v == 0x01 {
            Some(IspuDataRate::_12_5hz)
        } else if v == 0x02 {
            Some(IspuDataRate::_26hz)
        } else if v == 0x03 {
            Some(IspuDataRate::_52hz)
        } else if v == 0x04 {
            Some(IspuDataRate::_104hz)
        } else if v == 0x05 {
            Some(IspuDataRate::_208hz)
        } else if v == 0x06 {
            Some(IspuDataRate::_416hz)
        } else if v == 0x07 {
            Some(IspuDataRate::_833hz)
        } else if v == 0x08 {
            Some(IspuDataRate::_1667hz)
        } else if v == 0x09 {
            Some(IspuDataRate::_3333hz)
        } else if v == 0x0A {
            Some(IspuDataRate::_6667hz)
        } else {
            None
        }
    }

    /// The value a register code decodes to, with `Off` for a code that names no value.
    pub open spec fn spec_from_bits_or_default(v: u8) -> IspuDataRate {
        match Self::spec_try_from_bits(v) {
            Some(x) => x,
            None => IspuDataRate::Off,
        }
    }

    /// Decodes a register code, with `Off` for a code that names no value.
    pub fn from_bits_or_default(v: u8) -> (r: IspuDataRate)
        ensures
            r == Self::spec_from_bits_or_default(v),
    {
        match Self::try_from_bits(v) {
            Some(x) => x,
            None => IspuDataRate::Off,
        }
    }
}

/// ISPU block data update configuration
///
/// Configures block data update for ISPU output registers.
/// Configuration permit to specify 2 or 4 bytes for the two following sectors:
/// ISPU_DOUT_00_L - ISPU_DOUT_15_H
/// ISPU_DOUT_16_L - ISPU_DOUT_31_H
/// 2 bytes correspond to 16 outputs while 4 bytes to 8 outputs.
#[derive(Clone, Copy, PartialEq, Eq, Debug, Structural)]
pub enum IspuBdu {
    /// Block data update disabled (default)
    Off,
    /// BDU on 2 bytes (16 outputs) for ISPU_DOUT_00_L to ISPU_DOUT_15_H
    /// and BDU on 4 bytes (8 outpus) for ISPU_DOUT_16_L to ISPU_DOUT_31_H
    On2b4b,
    /// BDU on 2 bytes (16 outputs) for ISPU_DOUT_00_L to ISPU_DOUT_15_H
    /// and BDU on 2 bytes (16 outpus) for ISPU_DOUT_16_L to ISPU_DOUT_31_H
    On2b2b,
    /// BDU on 4 bytes (8 outputs) for ISPU_DOUT_00_L to ISPU_DOUT_15_H
    /// and BDU on 4 bytes (8 outpus) for ISPU_DOUT_16_L to ISPU_DOUT_31_H
    On4b4b,
}

impl IspuBdu {
    /// The code that selects this value in its register field.
    pub open spec fn spec_bits(self) -> u8 {
        match self {
            IspuBdu::Off => 0x00,
            IspuBdu::On2b4b => 0x01,
            IspuBdu::On2b2b => 0x02,
            IspuBdu::On4b4b => 0x03,
        }
    }

    /// The value that a register code stands for, if any.
    pub open spec fn spec_try_from_bits(v: u8) -> Option<IspuBdu> {
        if v == 0x00 {
            Some(IspuBdu::Off)
        }         else if v == 0x01 {
            Some(IspuBdu::On2b4b)
        }         else if v == 0x02 {
            Some(IspuBdu::On2b2b)
        }         else if v == 0x03 {
            Some(IspuBdu::On4b4b)
        } else {
            None
        }
    }

    /// The code that selects this value in its register field.
    pub fn bits(self) -> (r: u8)
        ensures
            r == self.spec_bits(),
            Self::spec_try_from_bits(r) == Some(self),
    {
        match self {
            IspuBdu::Off => 0x00,
            IspuBdu::On2b4b => 0x01,
            IspuBdu::On2b2b => 0x02,
            IspuBdu::On4b4b => 0x03,
        }
    }

    /// Decodes a register code; `None` for a code that names no value.
    pub fn try_from_bits(v: u8) -> (r: Option<IspuBdu>)
        ensures
            r == Self::spec_try_from_bits(v),
            r matches Some(x) ==> x.spec_bits() == v,
    {
        if v == 0x00 {
            Some(IspuBdu::Off)
        } else if v == 0x01 {
            Some(IspuBdu::On2b4b)
        } else if v == 0x02 {
            Some(IspuBdu::On2b2b)
        } else if v == 0x03 {
            Some(IspuBdu::On4b4b)
        } else {
            None
        }
    }

    /// The value a register code decodes to, with `Off` for a code that names no value.
    pub open spec fn spec_from_bits_or_default(v: u8) -> IspuBdu {
        match Self::spec_try_from_bits(v) {
            Some(x) => x,
            None => IspuBdu::Off,
        }
    }

    /// Decodes a register code, with `Off` for a code that names no value.
    pub fn from_bits_or_default(v: u8) -> (r: IspuBdu)
        ensures
            r == Self::spec_from_bits_or_default(v),
    {
        match Self::try_from_bits(v) {
            Some(x) => x,
            None => IspuBdu::Off,
        }
    }
}

impl IspuDataRate {
    /// A short human-readable name of the rate.
    pub open spec fn spec_name(self) -> Seq<char> {
        match self {
            IspuDataRate::Off => "off"@,
            IspuDataRate::_12_5hz => "12.5hz"@,
            IspuDataRate::_26hz => "26hz"@,
            IspuDataRate::_52hz => "52hz"@,
            IspuDataRate::_104hz => "104hz"@,
            IspuDataRate::_208hz => "208hz"@,
            IspuDataRate::_416hz => "416hz"@,
            IspuDataRate::_833hz => "833hz"@,
            IspuDataRate::_1667hz => "1667hz"@,
            IspuDataRate::_3333hz => "3333hz"@,
            IspuDataRate::_6667hz => "6667hz"@,
        }
    }

    /// A short human-readable name of the rate.
    pub fn to_str(&self) -> (r: &'static str)
        ensures
            r@ == self.spec_name(),
    {
        match self {
            IspuDataRate::Off => {
                proof {
                    reveal_strlit("off");
                }
                "off"
            },
            IspuDataRate::_12_5hz => {
                proof {
                    reveal_strlit("12.5hz");
                }
                "12.5hz"
            },
            IspuDataRate::_26hz => {
                proof {
                    reveal_strlit("26hz");
                }
                "26hz"
            },
            IspuDataRate::_52hz => {
                proof {
                    reveal_strlit("52hz");
                }
                "52hz"
            },
            IspuDataRate::_104hz => {
                proof {
                    reveal_strlit("104hz");
                }
                "104hz"
            },
            IspuDataRate::_208hz => {
                proof {
                    reveal_strlit("208hz");
                }
                "208hz"
            },
            IspuDataRate::_416hz => {
                proof {
                    reveal_strlit("416hz");
                }
                "416hz"
            },
            IspuDataRate::_833hz => {
                proof {
                    reveal_strlit("833hz");
                }
                "833hz"
            },
            IspuDataRate::_1667hz => {
                proof {
                    reveal_strlit("1667hz");
                }
                "1667hz"
            },
            IspuDataRate::_3333hz => {
                proof {
                    reveal_strlit("3333hz");
                }
                "3333hz"
            },
            IspuDataRate::_6667hz => {
                proof {
                    reveal_strlit("6667hz");
                }
                "6667hz"
            },
        }
    }
}

} // verus!
