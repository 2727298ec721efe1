//! Registers of the ISPU bank: the processing core's configuration and memory window.
use crate::bits::{field_of, le16_bytes, get_field, le_u16, le_u32, lemma_field_max, put_field, u16_from_le, u16_to_le, u32_from_le, u32_to_le, with_field};
use vstd::prelude::*;

verus! {

#[derive(Clone, Copy, PartialEq, Eq, Debug, Structural)]
pub enum IspuReg {
    IspuConfig,
    IspuStatus,
    IspuMemSel,
    IspuMemAddr0,
    IspuMemAddr1,
    IspuMemData,
    IspuIf2sFlagL,
    IspuIf2sFlagH,
    IspuS2ifFlagL,
    IspuS2ifFlagH,
    IspuDout00L,
    IspuDout00H,
    IspuDout01L,
    IspuDout01H,
    IspuDout02L,
    IspuDout02H,
    IspuDout03L,
    IspuDout03H,
    IspuDout04L,
    IspuDout04H,
    IspuDout05L,
    IspuDout05H,
    IspuDout06L,
    IspuDout06H,
    IspuDout07L,
    IspuDout07H,
    IspuDout08L,
    IspuDout08H,
    IspuDout09L,
    IspuDout09H,
    IspuDout10L,
    IspuDout10H,
    IspuDout11L,
    IspuDout11H,
    IspuDout12L,
    IspuDout12H,
    IspuDout13L,
    IspuDout13H,
    IspuDout14L,
    IspuDout14H,
    IspuDout15L,
    IspuDout15H,
    IspuDout16L,
    IspuDout16H,
    IspuDout17L,
    IspuDout17H,
    IspuDout18L,
    IspuDout18H,
    IspuDout19L,
    IspuDout19H,
    IspuDout20L,
    IspuDout20H,
    IspuDout21L,
    IspuDout21H,
    IspuDout22L,
    IspuDout22H,
    IspuDout23L,
    IspuDout23H,
    IspuDout24L,
    IspuDout24H,
    IspuDout25L,
    IspuDout25H,
    IspuDout26L,
    IspuDout26H,
    IspuDout27L,
    IspuDout27H,
    IspuDout28L,
    IspuDout28H,
    IspuDout29L,
    IspuDout29H,
    IspuDout30L,
    IspuDout30H,
    IspuDout31L,
    IspuDout31H,
    IspuInt1Ctrl0,
    IspuInt1Ctrl1,
    IspuInt1Ctrl2,
    IspuInt1Ctrl3,
    IspuInt2Ctrl0,
    IspuInt2Ctrl1,
    IspuInt2Ctrl2,
    IspuInt2Ctrl3,
    IspuIntStatus0,
    IspuIntStatus1,
    IspuIntStatus2,
    IspuIntStatus3,
    IspuAlgo0,
    IspuAlgo1,
    IspuAlgo2,
    IspuAlgo3,
}

impl IspuReg {
    /// The register's address on the bus.
    pub open spec fn spec_addr(self) -> u8 {
        match self {
            IspuReg::IspuConfig => 0x02,
            IspuReg::IspuStatus => 0x04,
            IspuReg::IspuMemSel => 0x08,
            IspuReg::IspuMemAddr0 => 0x09,
            IspuReg::IspuMemAddr1 => 0x0A,
            IspuReg::IspuMemData => 0x0B,
            IspuReg::IspuIf2sFlagL => 0x0C,
            IspuReg::IspuIf2sFlagH => 0x0D,
            IspuReg::IspuS2ifFlagL => 0x0E,
            IspuReg::IspuS2ifFlagH => 0x0F,
            IspuReg::IspuDout00L => 0x10,
            IspuReg::IspuDout00H => 0x11,
            IspuReg::IspuDout01L => 0x12,
            IspuReg::IspuDout01H => 0x13,
            IspuReg::IspuDout02L => 0x14,
            IspuReg::IspuDout02H => 0x15,
            IspuReg::IspuDout03L => 0x16,
            IspuReg::IspuDout03H => 0x17,
            IspuReg::IspuDout04L => 0x18,
            IspuReg::IspuDout04H => 0x19,
            IspuReg::IspuDout05L => 0x1A,
            IspuReg::IspuDout05H => 0x1B,
            IspuReg::IspuDout06L => 0x1C,
            IspuReg::IspuDout06H => 0x1D,
            IspuReg::IspuDout07L => 0x1E,
            IspuReg::IspuDout07H => 0x1F,
            IspuReg::IspuDout08L => 0x20,
            IspuReg::IspuDout08H => 0x21,
            IspuReg::IspuDout09L => 0x22,
            IspuReg::IspuDout09H => 0x23,
            IspuReg::IspuDout10L => 0x24,
            IspuReg::IspuDout10H => 0x25,
            IspuReg::IspuDout11L => 0x26,
            IspuReg::IspuDout11H => 0x27,
            IspuReg::IspuDout12L => 0x28,
            IspuReg::IspuDout12H => 0x29,
            IspuReg::IspuDout13L => 0x2A,
            IspuReg::IspuDout13H => 0x2B,
            IspuReg::IspuDout14L => 0x2C,
            IspuReg::IspuDout14H => 0x2D,
            IspuReg::IspuDout15L => 0x2E,
            IspuReg::IspuDout15H => 0x2F,
            IspuReg::IspuDout16L => 0x30,
            IspuReg::IspuDout16H => 0x31,
            IspuReg::IspuDout17L => 0x32,
            IspuReg::IspuDout17H => 0x33,
            IspuReg::IspuDout18L => 0x34,
            IspuReg::IspuDout18H => 0x35,
            IspuReg::IspuDout19L => 0x36,
            IspuReg::IspuDout19H => 0x37,
            IspuReg::IspuDout20L => 0x38,
            IspuReg::IspuDout20H => 0x39,
            IspuReg::IspuDout21L => 0x3A,
            IspuReg::IspuDout21H => 0x3B,
            IspuReg::IspuDout22L => 0x3C,
            IspuReg::IspuDout22H => 0x3D,
            IspuReg::IspuDout23L => 0x3E,
            IspuReg::IspuDout23H => 0x3F,
            IspuReg::IspuDout24L => 0x40,
            IspuReg::IspuDout24H => 0x41,
            IspuReg::IspuDout25L => 0x42,
            IspuReg::IspuDout25H => 0x43,
            IspuReg::IspuDout26L => 0x44,
            IspuReg::IspuDout26H => 0x45,
            IspuReg::IspuDout27L => 0x46,
            IspuReg::IspuDout27H => 0x47,
            IspuReg::IspuDout28L => 0x48,
            IspuReg::IspuDout28H => 0x49,
            IspuReg::IspuDout29L => 0x4A,
            IspuReg::IspuDout29H => 0x4B,
            IspuReg::IspuDout30L => 0x4C,
            IspuReg::IspuDout30H => 0x4D,
            IspuReg::IspuDout31L => 0x4E,
            IspuReg::IspuDout31H => 0x4F,
            IspuReg::IspuInt1Ctrl0 => 0x50,
            IspuReg::IspuInt1Ctrl1 => 0x51,
            IspuReg::IspuInt1Ctrl2 => 0x52,
            IspuReg::IspuInt1Ctrl3 => 0x53,
            IspuReg::IspuInt2Ctrl0 => 0x54,
            IspuReg::IspuInt2Ctrl1 => 0x55,
            IspuReg::IspuInt2Ctrl2 => 0x56,
            IspuReg::IspuInt2Ctrl3 => 0x57,
            IspuReg::IspuIntStatus0 => 0x58,
            IspuReg::IspuIntStatus1 => 0x59,
            IspuReg::IspuIntStatus2 => 0x5A,
            IspuReg::IspuIntStatus3 => 0x5B,
            IspuReg::IspuAlgo0 => 0x70,
            IspuReg::IspuAlgo1 => 0x71,
            IspuReg::IspuAlgo2 => 0x72,
            IspuReg::IspuAlgo3 => 0x73,
        }
    }

    /// The register's address on the bus.
    pub fn addr(self) -> (r: u8)
        ensures
            r == self.spec_addr(),
    {
        match self {
            IspuReg::IspuConfig => 0x02,
            IspuReg::IspuStatus => 0x04,
            IspuReg::IspuMemSel => 0x08,
            IspuReg::IspuMemAddr0 => 0x09,
            IspuReg::IspuMemAddr1 => 0x0A,
            IspuReg::IspuMemData => 0x0B,
            IspuReg::IspuIf2sFlagL => 0x0C,
            IspuReg::IspuIf2sFlagH => 0x0D,
            IspuReg::IspuS2ifFlagL => 0x0E,
            IspuReg::IspuS2ifFlagH => 0x0F,
            IspuReg::IspuDout00L => 0x10,
            IspuReg::IspuDout00H => 0x11,
            IspuReg::IspuDout01L => 0x12,
            IspuReg::IspuDout01H => 0x13,
            IspuReg::IspuDout02L => 0x14,
            IspuReg::IspuDout02H => 0x15,
            IspuReg::IspuDout03L => 0x16,
            IspuReg::IspuDout03H => 0x17,
            IspuReg::IspuDout04L => 0x18,
            IspuReg::IspuDout04H => 0x19,
            IspuReg::IspuDout05L => 0x1A,
            IspuReg::IspuDout05H => 0x1B,
            IspuReg::IspuDout06L => 0x1C,
            IspuReg::IspuDout06H => 0x1D,
            IspuReg::IspuDout07L => 0x1E,
            IspuReg::IspuDout07H => 0x1F,
            IspuReg::IspuDout08L => 0x20,
            IspuReg::IspuDout08H => 0x21,
            IspuReg::IspuDout09L => 0x22,
            IspuReg::IspuDout09H => 0x23,
            IspuReg::IspuDout10L => 0x24,
            IspuReg::IspuDout10H => 0x25,
            IspuReg::IspuDout11L => 0x26,
            IspuReg::IspuDout11H => 0x27,
            IspuReg::IspuDout12L => 0x28,
            IspuReg::IspuDout12H => 0x29,
            IspuReg::IspuDout13L => 0x2A,
            IspuReg::IspuDout13H => 0x2B,
            IspuReg::IspuDout14L => 0x2C,
            IspuReg::IspuDout14H => 0x2D,
            IspuReg::IspuDout15L => 0x2E,
            IspuReg::IspuDout15H => 0x2F,
            IspuReg::IspuDout16L => 0x30,
            IspuReg::IspuDout16H => 0x31,
            IspuReg::IspuDout17L => 0x32,
            IspuReg::IspuDout17H => 0x33,
            IspuReg::IspuDout18L => 0x34,
            IspuReg::IspuDout18H => 0x35,
            IspuReg::IspuDout19L => 0x36,
            IspuReg::IspuDout19H => 0x37,
            IspuReg::IspuDout20L => 0x38,
            IspuReg::IspuDout20H => 0x39,
            IspuReg::IspuDout21L => 0x3A,
            IspuReg::IspuDout21H => 0x3B,
            IspuReg::IspuDout22L => 0x3C,
            IspuReg::IspuDout22H => 0x3D,
            IspuReg::IspuDout23L => 0x3E,
            IspuReg::IspuDout23H => 0x3F,
            IspuReg::IspuDout24L => 0x40,
            IspuReg::IspuDout24H => 0x41,
            IspuReg::IspuDout25L => 0x42,
            IspuReg::IspuDout25H => 0x43,
            IspuReg::IspuDout26L => 0x44,
            IspuReg::IspuDout26H => 0x45,
            IspuReg::IspuDout27L => 0x46,
            IspuReg::IspuDout27H => 0x47,
            IspuReg::IspuDout28L => 0x48,
            IspuReg::IspuDout28H => 0x49,
            IspuReg::IspuDout29L => 0x4A,
            IspuReg::IspuDout29H => 0x4B,
            IspuReg::IspuDout30L => 0x4C,
            IspuReg::IspuDout30H => 0x4D,
            IspuReg::IspuDout31L => 0x4E,
            IspuReg::IspuDout31H => 0x4F,
            IspuReg::IspuInt1Ctrl0 => 0x50,
            IspuReg::IspuInt1Ctrl1 => 0x51,
            IspuReg::IspuInt1Ctrl2 => 0x52,
            IspuReg::IspuInt1Ctrl3 => 0x53,
            IspuReg::IspuInt2Ctrl0 => 0x54,
            IspuReg::IspuInt2Ctrl1 => 0x55,
            IspuReg::IspuInt2Ctrl2 => 0x56,
            IspuReg::IspuInt2Ctrl3 => 0x57,
            IspuReg::IspuIntStatus0 => 0x58,
            IspuReg::IspuIntStatus1 => 0x59,
            IspuReg::IspuIntStatus2 => 0x5A,
            IspuReg::IspuIntStatus3 => 0x5B,
            IspuReg::IspuAlgo0 => 0x70,
            IspuReg::IspuAlgo1 => 0x71,
            IspuReg::IspuAlgo2 => 0x72,
            IspuReg::IspuAlgo3 => 0x73,
        }
    }
}

/// ISPU_CONFIG (0x02)
///
/// ISPU configuration register (R/W)
///
/// - ISPU_RST_N: ISPU active-low reset.
/// - CLK_DIS: When active, stops the clock of ISPU.
/// - LATCHED: Configures interrupt generation.
///   0: interrupt pulsed; 1: interrupt latched.
#[derive(Clone, Copy, PartialEq, Eq, Debug, Structural)]
pub struct IspuConfig(pub u8);

impl IspuConfig {
    /// The register at its raw byte value.
    pub fn from_bits(bits: u8) -> (r: Self)
        ensures
            r.0 == bits,
    {
        IspuConfig(bits)
    }

    /// The raw byte value of the register.
    pub fn into_bits(self) -> (r: u8)
        ensures
            r == self.0,
    {
        self.0
    }

    pub fn ispu_rst_n(&self) -> (r: u8)
        ensures
            r == field_of(self.0, 0, 1),
            r <= 0x01,
    {
        proof {
            lemma_field_max();
        }
        get_field(self.0, 0, 1)
    }

    pub fn set_ispu_rst_n(&mut self, v: u8)
        requires
            v <= 0x01,
        ensures
            final(self).0 == with_field(old(self).0, 0, 1, v),
    {
        self.0 = put_field(self.0, 0, 1, v);
    }

    pub fn clk_dis(&self) -> (r: u8)
        ensures
            r == field_of(self.0, 1, 1),
            r <= 0x01,
    {
        proof {
            lemma_field_max();
        }
        get_field(self.0, 1, 1)
    }

    pub fn set_clk_dis(&mut self, v: u8)
        requires
            v <= 0x01,
        ensures
            final(self).0 == with_field(old(self).0, 1, 1, v),
    {
        self.0 = put_field(self.0, 1, 1, v);
    }

    pub fn latched(&self) -> (r: u8)
        ensures
            r == field_of(self.0, 4, 1),
            r <= 0x01,
    {
        proof {
            lemma_field_max();
        }
        get_field(self.0, 4, 1)
    }

    pub fn set_latched(&mut self, v: u8)
        requires
            v <= 0x01,
        ensures
            final(self).0 == with_field(old(self).0, 4, 1, v),
    {
        self.0 = put_field(self.0, 4, 1, v);
    }
}

/// ISPU_STATUS (0x04)
///
/// ISPU status register (R)
///
/// - BOOT_END: End of ISPU boot procedure.
/// - Other bits are reserved and read-only.
#[derive(Clone, Copy, PartialEq, Eq, Debug, Structural)]
pub struct IspuStatus(pub u8);

impl IspuStatus {
    /// The register at its raw byte value.
    pub fn from_bits(bits: u8) -> (r: Self)
        ensures
            r.0 == bits,
    {
        IspuStatus(bits)
    }

    /// The raw byte value of the register.
    pub fn into_bits(self) -> (r: u8)
        ensures
            r == self.0,
    {
        self.0
    }

    pub fn boot_end(&self) -> (r: u8)
        ensures
            r == field_of(self.0, 2, 1),
            r <= 0x01,
    {
        proof {
            lemma_field_max();
        }
        get_field(self.0, 2, 1)
    }

    pub fn set_boot_end(&mut self, v: u8)
        requires
            v <= 0x01,
        ensures
            final(self).0 == with_field(old(self).0, 2, 1, v),
    {
        self.0 = put_field(self.0, 2, 1, v);
    }
}

/// ISPU_MEM_SEL (0x08)
///
/// ISPU memory selection register (R/W)
///
/// - MEM_SEL: Selects the memory to be accessed.
///   0: data RAM memory (default)
///   1: program RAM memory
/// - READ_MEM_EN: Enables reading from program or data memories.
///   0: disabled (default)
///   1: enabled
#[derive(Clone, Copy, PartialEq, Eq, Debug, Structural)]
pub struct IspuMemSel(pub u8);

impl IspuMemSel {
    /// The register at its raw byte value.
    pub fn from_bits(bits: u8) -> (r: Self)
        ensures
            r.0 == bits,
    {
        IspuMemSel(bits)
    }

    /// The raw byte value of the register.
    pub fn into_bits(self) -> (r: u8)
        ensures
            r == self.0,
    {
        self.0
    }

    pub fn mem_sel(&self) -> (r: u8)
        ensures
            r == field_of(self.0, 0, 1),
            r <= 0x01,
    {
        proof {
            lemma_field_max();
        }
        get_field(self.0, 0, 1)
    }

    pub fn set_mem_sel(&mut self, v: u8)
        requires
            v <= 0x01,
        ensures
            final(self).0 == with_field(old(self).0, 0, 1, v),
    {
        self.0 = put_field(self.0, 0, 1, v);
    }

    pub fn read_mem_en(&self) -> (r: u8)
        ensures
            r == field_of(self.0, 6, 1),
            r <= 0x01,
    {
        proof {
            lemma_field_max();
        }
        get_field(self.0, 6, 1)
    }

    pub fn set_read_mem_en(&mut self, v: u8)
        requires
            v <= 0x01,
        ensures
            final(self).0 == with_field(old(self).0, 6, 1, v),
    {
        self.0 = put_field(self.0, 6, 1, v);
    }
}

/// ISPU_MEM_ADDR (0x09, 0x0A)
///
/// ISPU memory address register (R/W)
///
/// 16-bit address to be read/written.
#[derive(Clone, Copy, PartialEq, Eq, Debug, Structural)]
pub struct IspuMemAddr(pub u16);

impl IspuMemAddr {
    /// Decodes the register from its bytes, least significant first.
    pub fn from_le_bytes(b: [u8; 2]) -> (r: Self)
        ensures
            r.0 == le_u16(b@),
    {
        IspuMemAddr(u16_from_le(b))
    }

    /// Encodes the register as bytes, least significant first.
    pub fn to_le_bytes(self) -> (r: [u8; 2])
        ensures
            le_u16(r@) == self.0,
            r@ == le16_bytes(self.0),
    {
        u16_to_le(self.0)
    }
}

/// ISPU_MEM_DATA (0x0B)
///
/// ISPU memory data register (R/W)
///
/// Byte to write to memory in write transaction or data read from memory in read transaction.
#[derive(Clone, Copy, PartialEq, Eq, Debug, Structural)]
pub struct IspuMemData(pub u8);

impl IspuMemData {
    /// The register at its raw byte value.
    pub fn from_bits(bits: u8) -> (r: Self)
        ensures
            r.0 == bits,
    {
        IspuMemData(bits)
    }

    /// The raw byte value of the register.
    pub fn into_bits(self) -> (r: u8)
        ensures
            r == self.0,
    {
        self.0
    }

    pub fn mem_data(&self) -> (r: u8)
        ensures
            r == field_of(self.0, 0, 8),
            r <= 0xFF,
    {
        proof {
            lemma_field_max();
        }
        get_field(self.0, 0, 8)
    }

    pub fn set_mem_data(&mut self, v: u8)
        requires
            v <= 0xFF,
        ensures
            final(self).0 == with_field(old(self).0, 0, 8, v),
    {
        self.0 = put_field(self.0, 0, 8, v);
    }
}

/// ISPU_IF2S_FLAG (0x0C, 0x0D)
///
/// Interface to ISPU register (R/W, set only)
///
/// 16-bit general purpose bits which can be set from the interface and cleared by ISPU.
#[derive(Clone, Copy, PartialEq, Eq, Debug, Structural)]
pub struct IspuIf2sFlag(pub u16);

impl IspuIf2sFlag {
    /// Decodes the register from its bytes, least significant first.
    pub fn from_le_bytes(b: [u8; 2]) -> (r: Self)
        ensures
            r.0 == le_u16(b@),
    {
        IspuIf2sFlag(u16_from_le(b))
    }

    /// Encodes the register as bytes, least significant first.
    pub fn to_le_bytes(self) -> (r: [u8; 2])
        ensures
            le_u16(r@) == self.0,
            r@ == le16_bytes(self.0),
    {
        u16_to_le(self.0)
    }
}

/// ISPU_S2IF_FLAG (0x0E, 0x0F)
///
/// ISPU to interface register (R/W, clear only)
///
/// 16-bit general purpose bits which can be set from ISPU and cleared by the interface.
#[derive(Clone, Copy, PartialEq, Eq, Debug, Structural)]
pub struct IspuS2ifFlag(pub u16);

impl IspuS2ifFlag {
    /// Decodes the register from its bytes, least significant first.
    pub fn from_le_bytes(b: [u8; 2]) -> (r: Self)
        ensures
            r.0 == le_u16(b@),
    {
        IspuS2ifFlag(u16_from_le(b))
    }

    /// Encodes the register as bytes, least significant first.
    pub fn to_le_bytes(self) -> (r: [u8; 2])
        ensures
            le_u16(r@) == self.0,
            r@ == le16_bytes(self.0),
    {
        u16_to_le(self.0)
    }
}

/// ISPU_S2IF_FLAG_L (0x0E)
#[derive(Clone, Copy, PartialEq, Eq, Debug, Structural)]
pub struct IspuS2ifFlagL(pub u8);

impl IspuS2ifFlagL {
    /// The register at its raw byte value.
    pub fn from_bits(bits: u8) -> (r: Self)
        ensures
            r.0 == bits,
    {
        IspuS2ifFlagL(bits)
    }

    /// The raw byte value of the register.
    pub fn into_bits(self) -> (r: u8)
        ensures
            r == self.0,
    {
        self.0
    }

    pub fn s2if(&self) -> (r: u8)
        ensures
            r == field_of(self.0, 0, 8),
            r <= 0xFF,
    {
        proof {
            lemma_field_max();
        }
        get_field(self.0, 0, 8)
    }

    pub fn set_s2if(&mut self, v: u8)
        requires
            v <= 0xFF,
        ensures
            final(self).0 == with_field(old(self).0, 0, 8, v),
    {
        self.0 = put_field(self.0, 0, 8, v);
    }
}

/// ISPU_S2IF_FLAG_H (0x0F)
#[derive(Clone, Copy, PartialEq, Eq, Debug, Structural)]
pub struct IspuS2ifFlagH(pub u8);

impl IspuS2ifFlagH {
    /// The register at its raw byte value.
    pub fn from_bits(bits: u8) -> (r: Self)
        ensures
            r.0 == bits,
    {
        IspuS2ifFlagH(bits)
    }

    /// The raw byte value of the register.
    pub fn into_bits(self) -> (r: u8)
        ensures
            r == self.0,
    {
        self.0
    }

    pub fn s2if(&self) -> (r: u8)
        ensures
            r == field_of(self.0, 0, 8),
            r <= 0xFF,
    {
        proof {
            lemma_field_max();
        }
        get_field(self.0, 0, 8)
    }

    pub fn set_s2if(&mut self, v: u8)
        requires
            v <= 0xFF,
        ensures
            final(self).0 == with_field(old(self).0, 0, 8, v),
    {
        self.0 = put_field(self.0, 0, 8, v);
    }
}

/// ISPU_DOUT_00_L (0x10)
///
/// ISPU output register 0 low byte (R)
#[derive(Clone, Copy, PartialEq, Eq, Debug, Structural)]
pub struct IspuDout00L(pub u8);

impl IspuDout00L {
    /// The register at its raw byte value.
    pub fn from_bits(bits: u8) -> (r: Self)
        ensures
            r.0 == bits,
    {
        IspuDout00L(bits)
    }

    /// The raw byte value of the register.
    pub fn into_bits(self) -> (r: u8)
        ensures
            r == self.0,
    {
        self.0
    }

    pub fn dout0(&self) -> (r: u8)
        ensures
            r == field_of(self.0, 0, 8),
            r <= 0xFF,
    {
        proof {
            lemma_field_max();
        }
        get_field(self.0, 0, 8)
    }

    pub fn set_dout0(&mut self, v: u8)
        requires
            v <= 0xFF,
        ensures
            final(self).0 == with_field(old(self).0, 0, 8, v),
    {
        self.0 = put_field(self.0, 0, 8, v);
    }
}

/// ISPU_DOUT_00_H (0x11)
///
/// ISPU output register 0 high byte (R)
#[derive(Clone, Copy, PartialEq, Eq, Debug, Structural)]
pub struct IspuDout00H(pub u8);

impl IspuDout00H {
    /// The register at its raw byte value.
    pub fn from_bits(bits: u8) -> (r: Self)
        ensures
            r.0 == bits,
    {
        IspuDout00H(bits)
    }

    /// The raw byte value of the register.
    pub fn into_bits(self) -> (r: u8)
        ensures
            r == self.0,
    {
        self.0
    }

    pub fn dout0(&self) -> (r: u8)
        ensures
            r == field_of(self.0, 0, 8),
            r <= 0xFF,
    {
        proof {
            lemma_field_max();
        }
        get_field(self.0, 0, 8)
    }

    pub fn set_dout0(&mut self, v: u8)
        requires
            v <= 0xFF,
        ensures
            final(self).0 == with_field(old(self).0, 0, 8, v),
    {
        self.0 = put_field(self.0, 0, 8, v);
    }
}

/// ISPU_DOUT_01_L (0x12)
///
/// ISPU output register 01 low byte (R)
#[derive(Clone, Copy, PartialEq, Eq, Debug, Structural)]
pub struct IspuDout01L(pub u8);

impl IspuDout01L {
    /// The register at its raw byte value.
    pub fn from_bits(bits: u8) -> (r: Self)
        ensures
            r.0 == bits,
    {
        IspuDout01L(bits)
    }

    /// The raw byte value of the register.
    pub fn into_bits(self) -> (r: u8)
        ensures
            r == self.0,
    {
        self.0
    }

    pub fn dout1(&self) -> (r: u8)
        ensures
            r == field_of(self.0, 0, 8),
            r <= 0xFF,
    {
        proof {
            lemma_field_max();
        }
        get_field(self.0, 0, 8)
    }

    pub fn set_dout1(&mut self, v: u8)
        requires
            v <= 0xFF,
        ensures
            final(self).0 == with_field(old(self).0, 0, 8, v),
    {
        self.0 = put_field(self.0, 0, 8, v);
    }
}

/// ISPU_DOUT_01_H (0x13)
///
/// ISPU output register 01 high byte (R)
#[derive(Clone, Copy, PartialEq, Eq, Debug, Structural)]
pub struct IspuDout01H(pub u8);

impl IspuDout01H {
    /// The register at its raw byte value.
    pub fn from_bits(bits: u8) -> (r: Self)
        ensures
            r.0 == bits,
    {
        IspuDout01H(bits)
    }

    /// The raw byte value of the register.
    pub fn into_bits(self) -> (r: u8)
        ensures
            r == self.0,
    {
        self.0
    }

    pub fn dout1(&self) -> (r: u8)
        ensures
            r == field_of(self.0, 0, 8),
            r <= 0xFF,
    {
        proof {
            lemma_field_max();
        }
        get_field(self.0, 0, 8)
    }

    pub fn set_dout1(&mut self, v: u8)
        requires
            v <= 0xFF,
        ensures
            final(self).0 == with_field(old(self).0, 0, 8, v),
    {
        self.0 = put_field(self.0, 0, 8, v);
    }
}

/// ISPU_DOUT_02_L (0x14)
///
/// ISPU output register 02 low byte (R)
#[derive(Clone, Copy, PartialEq, Eq, Debug, Structural)]
pub struct IspuDout02L(pub u8);

impl IspuDout02L {
    /// The register at its raw byte value.
    pub fn from_bits(bits: u8) -> (r: Self)
        ensures
            r.0 == bits,
    {
        IspuDout02L(bits)
    }

    /// The raw byte value of the register.
    pub fn into_bits(self) -> (r: u8)
        ensures
            r == self.0,
    {
        self.0
    }

    pub fn dout2(&self) -> (r: u8)
        ensures
            r == field_of(self.0, 0, 8),
            r <= 0xFF,
    {
        proof {
            lemma_field_max();
        }
        get_field(self.0, 0, 8)
    }

    pub fn set_dout2(&mut self, v: u8)
        requires
            v <= 0xFF,
        ensures
            final(self).0 == with_field(old(self).0, 0, 8, v),
    {
        self.0 = put_field(self.0, 0, 8, v);
    }
}

/// ISPU_DOUT_02_H (0x15)
///
/// ISPU output register 02 high byte (R)
#[derive(Clone, Copy, PartialEq, Eq, Debug, Structural)]
pub struct IspuDout02H(pub u8);

impl IspuDout02H {
    /// The register at its raw byte value.
    pub fn from_bits(bits: u8) -> (r: Self)
        ensures
            r.0 == bits,
    {
        IspuDout02H(bits)
    }

    /// The raw byte value of the register.
    pub fn into_bits(self) -> (r: u8)
        ensures
            r == self.0,
    {
        self.0
    }

    pub fn dout2(&self) -> (r: u8)
        ensures
            r == field_of(self.0, 0, 8),
            r <= 0xFF,
    {
        proof {
            lemma_field_max();
        }
        get_field(self.0, 0, 8)
    }

    pub fn set_dout2(&mut self, v: u8)
        requires
            v <= 0xFF,
        ensures
            final(self).0 == with_field(old(self).0, 0, 8, v),
    {
        self.0 = put_field(self.0, 0, 8, v);
    }
}

/// ISPU_DOUT_03_L (0x16)
///
/// ISPU output register 03 low byte (R)
#[derive(Clone, Copy, PartialEq, Eq, Debug, Structural)]
pub struct IspuDout03L(pub u8);

impl IspuDout03L {
    /// The register at its raw byte value.
    pub fn from_bits(bits: u8) -> (r: Self)
        ensures
            r.0 == bits,
    {
        IspuDout03L(bits)
    }

    /// The raw byte value of the register.
    pub fn into_bits(self) -> (r: u8)
        ensures
            r == self.0,
    {
        self.0
    }

    pub fn dout3(&self) -> (r: u8)
        ensures
            r == field_of(self.0, 0, 8),
            r <= 0xFF,
    {
        proof {
            lemma_field_max();
        }
        get_field(self.0, 0, 8)
    }

    pub fn set_dout3(&mut self, v: u8)
        requires
            v <= 0xFF,
        ensures
            final(self).0 == with_field(old(self).0, 0, 8, v),
    {
        self.0 = put_field(self.0, 0, 8, v);
    }
}

/// ISPU_DOUT_03_H (0x17)
///
/// ISPU output register 03 high byte (R)
#[derive(Clone, Copy, PartialEq, Eq, Debug, Structural)]
pub struct IspuDout03H(pub u8);

impl IspuDout03H {
    /// The register at its raw byte value.
    pub fn from_bits(bits: u8) -> (r: Self)
        ensures
            r.0 == bits,
    {
        IspuDout03H(bits)
    }

    /// The raw byte value of the register.
    pub fn into_bits(self) -> (r: u8)
        ensures
            r == self.0,
    {
        self.0
    }

    pub fn dout3(&self) -> (r: u8)
        ensures
            r == field_of(self.0, 0, 8),
            r <= 0xFF,
    {
        proof {
            lemma_field_max();
        }
        get_field(self.0, 0, 8)
    }

    pub fn set_dout3(&mut self, v: u8)
        requires
            v <= 0xFF,
        ensures
            final(self).0 == with_field(old(self).0, 0, 8, v),
    {
        self.0 = put_field(self.0, 0, 8, v);
    }
}

/// ISPU_DOUT_04_L (0x18)
///
/// ISPU output register 04 low byte (R)
#[derive(Clone, Copy, PartialEq, Eq, Debug, Structural)]
pub struct IspuDout04L(pub u8);

impl IspuDout04L {
    /// The register at its raw byte value.
    pub fn from_bits(bits: u8) -> (r: Self)
        ensures
            r.0 == bits,
    {
        IspuDout04L(bits)
    }

    /// The raw byte value of the register.
    pub fn into_bits(self) -> (r: u8)
        ensures
            r == self.0,
    {
        self.0
    }

    pub fn dout4(&self) -> (r: u8)
        ensures
            r == field_of(self.0, 0, 8),
            r <= 0xFF,
    {
        proof {
            lemma_field_max();
        }
        get_field(self.0, 0, 8)
    }

    pub fn set_dout4(&mut self, v: u8)
        requires
            v <= 0xFF,
        ensures
            final(self).0 == with_field(old(self).0, 0, 8, v),
    {
        self.0 = put_field(self.0, 0, 8, v);
    }
}

/// ISPU_DOUT_04_H (0x19)
///
/// ISPU output register 04 high byte (R)
#[derive(Clone, Copy, PartialEq, Eq, Debug, Structural)]
pub struct IspuDout04H(pub u8);

impl IspuDout04H {
    /// The register at its raw byte value.
    pub fn from_bits(bits: u8) -> (r: Self)
        ensures
            r.0 == bits,
    {
        IspuDout04H(bits)
    }

    /// The raw byte value of the register.
    pub fn into_bits(self) -> (r: u8)
        ensures
            r == self.0,
    {
        self.0
    }

    pub fn dout4(&self) -> (r: u8)
        ensures
            r == field_of(self.0, 0, 8),
            r <= 0xFF,
    {
        proof {
            lemma_field_max();
        }
        get_field(self.0, 0, 8)
    }

    pub fn set_dout4(&mut self, v: u8)
        requires
            v <= 0xFF,
        ensures
            final(self).0 == with_field(old(self).0, 0, 8, v),
    {
        self.0 = put_field(self.0, 0, 8, v);
    }
}

/// ISPU_DOUT_05_L (0x1A)
///
/// ISPU output register 05 low byte (R)
#[derive(Clone, Copy, PartialEq, Eq, Debug, Structural)]
pub struct IspuDout05L(pub u8);

impl IspuDout05L {
    /// The register at its raw byte value.
    pub fn from_bits(bits: u8) -> (r: Self)
        ensures
            r.0 == bits,
    {
        IspuDout05L(bits)
    }

    /// The raw byte value of the register.
    pub fn into_bits(self) -> (r: u8)
        ensures
            r == self.0,
    {
        self.0
    }

    pub fn dout5(&self) -> (r: u8)
        ensures
            r == field_of(self.0, 0, 8),
            r <= 0xFF,
    {
        proof {
            lemma_field_max();
        }
        get_field(self.0, 0, 8)
    }

    pub fn set_dout5(&mut self, v: u8)
        requires
            v <= 0xFF,
        ensures
            final(self).0 == with_field(old(self).0, 0, 8, v),
    {
        self.0 = put_field(self.0, 0, 8, v);
    }
}

/// ISPU_DOUT_05_H (0x1B)
///
/// ISPU output register 05 high byte (R)
#[derive(Clone, Copy, PartialEq, Eq, Debug, Structural)]
pub struct IspuDout05H(pub u8);

impl IspuDout05H {
    /// The register at its raw byte value.
    pub fn from_bits(bits: u8) -> (r: Self)
        ensures
            r.0 == bits,
    {
        IspuDout05H(bits)
    }

    /// The raw byte value of the register.
    pub fn into_bits(self) -> (r: u8)
        ensures
            r == self.0,
    {
        self.0
    }

    pub fn dout5(&self) -> (r: u8)
        ensures
            r == field_of(self.0, 0, 8),
            r <= 0xFF,
    {
        proof {
            lemma_field_max();
        }
        get_field(self.0, 0, 8)
    }

    pub fn set_dout5(&mut self, v: u8)
        requires
            v <= 0xFF,
        ensures
            final(self).0 == with_field(old(self).0, 0, 8, v),
    {
        self.0 = put_field(self.0, 0, 8, v);
    }
}

/// ISPU_DOUT_06_L (0x1C)
///
/// ISPU output register 06 low byte (R)
#[derive(Clone, Copy, PartialEq, Eq, Debug, Structural)]
pub struct IspuDout06L(pub u8);

impl IspuDout06L {
    /// The register at its raw byte value.
    pub fn from_bits(bits: u8) -> (r: Self)
        ensures
            r.0 == bits,
    {
        IspuDout06L(bits)
    }

    /// The raw byte value of the register.
    pub fn into_bits(self) -> (r: u8)
        ensures
            r == self.0,
    {
        self.0
    }

    pub fn dout6(&self) -> (r: u8)
        ensures
            r == field_of(self.0, 0, 8),
            r <= 0xFF,
    {
        proof {
            lemma_field_max();
        }
        get_field(self.0, 0, 8)
    }

    pub fn set_dout6(&mut self, v: u8)
        requires
            v <= 0xFF,
        ensures
            final(self).0 == with_field(old(self).0, 0, 8, v),
    {
        self.0 = put_field(self.0, 0, 8, v);
    }
}

/// ISPU_DOUT_06_H (0x1D)
///
/// ISPU output register 06 high byte (R)
#[derive(Clone, Copy, PartialEq, Eq, Debug, Structural)]
pub struct IspuDout06H(pub u8);

impl IspuDout06H {
    /// The register at its raw byte value.
    pub fn from_bits(bits: u8) -> (r: Self)
        ensures
            r.0 == bits,
    {
        IspuDout06H(bits)
    }

    /// The raw byte value of the register.
    pub fn into_bits(self) -> (r: u8)
        ensures
            r == self.0,
    {
        self.0
    }

    pub fn dout6(&self) -> (r: u8)
        ensures
            r == field_of(self.0, 0, 8),
            r <= 0xFF,
    {
        proof {
            lemma_field_max();
        }
        get_field(self.0, 0, 8)
    }

    pub fn set_dout6(&mut self, v: u8)
        requires
            v <= 0xFF,
        ensures
            final(self).0 == with_field(old(self).0, 0, 8, v),
    {
        self.0 = put_field(self.0, 0, 8, v);
    }
}

/// ISPU_DOUT_07_L (0x1E)
///
/// ISPU output register 07 low byte (R)
#[derive(Clone, Copy, PartialEq, Eq, Debug, Structural)]
pub struct IspuDout07L(pub u8);

impl IspuDout07L {
    /// The register at its raw byte value.
    pub fn from_bits(bits: u8) -> (r: Self)
        ensures
            r.0 == bits,
    {
        IspuDout07L(bits)
    }

    /// The raw byte value of the register.
    pub fn into_bits(self) -> (r: u8)
        ensures
            r == self.0,
    {
        self.0
    }

    pub fn dout7(&self) -> (r: u8)
        ensures
            r == field_of(self.0, 0, 8),
            r <= 0xFF,
    {
        proof {
            lemma_field_max();
        }
        get_field(self.0, 0, 8)
    }

    pub fn set_dout7(&mut self, v: u8)
        requires
            v <= 0xFF,
        ensures
            final(self).0 == with_field(old(self).0, 0, 8, v),
    {
        self.0 = put_field(self.0, 0, 8, v);
    }
}

/// ISPU_DOUT_07_H (0x1F)
///
/// ISPU output register 07 high byte (R)
#[derive(Clone, Copy, PartialEq, Eq, Debug, Structural)]
pub struct IspuDout07H(pub u8);

impl IspuDout07H {
    /// The register at its raw byte value.
    pub fn from_bits(bits: u8) -> (r: Self)
        ensures
            r.0 == bits,
    {
        IspuDout07H(bits)
    }

    /// The raw byte value of the register.
    pub fn into_bits(self) -> (r: u8)
        ensures
            r == self.0,
    {
        self.0
    }

    pub fn dout7(&self) -> (r: u8)
        ensures
            r == field_of(self.0, 0, 8),
            r <= 0xFF,
    {
        proof {
            lemma_field_max();
        }
        get_field(self.0, 0, 8)
    }

    pub fn set_dout7(&mut self, v: u8)
        requires
            v <= 0xFF,
        ensures
            final(self).0 == with_field(old(self).0, 0, 8, v),
    {
        self.0 = put_field(self.0, 0, 8, v);
    }
}

/// ISPU_DOUT_08_L (0x20)
///
/// ISPU output register 08 low byte (R)
#[derive(Clone, Copy, PartialEq, Eq, Debug, Structural)]
pub struct IspuDout08L(pub u8);

impl IspuDout08L {
    /// The register at its raw byte value.
    pub fn from_bits(bits: u8) -> (r: Self)
        ensures
            r.0 == bits,
    {
        IspuDout08L(bits)
    }

    /// The raw byte value of the register.
    pub fn into_bits(self) -> (r: u8)
        ensures
            r == self.0,
    {
        self.0
    }

    pub fn dout8(&self) -> (r: u8)
        ensures
            r == field_of(self.0, 0, 8),
            r <= 0xFF,
    {
        proof {
            lemma_field_max();
        }
        get_field(self.0, 0, 8)
    }

    pub fn set_dout8(&mut self, v: u8)
        requires
            v <= 0xFF,
        ensures
            final(self).0 == with_field(old(self).0, 0, 8, v),
    {
        self.0 = put_field(self.0, 0, 8, v);
    }
}

/// ISPU_DOUT_08_H (0x21)
///
/// ISPU output register 08 high byte (R)
#[derive(Clone, Copy, PartialEq, Eq, Debug, Structural)]
pub struct IspuDout08H(pub u8);

impl IspuDout08H {
    /// The register at its raw byte value.
    pub fn from_bits(bits: u8) -> (r: Self)
        ensures
            r.0 == bits,
    {
        IspuDout08H(bits)
    }

    /// The raw byte value of the register.
    pub fn into_bits(self) -> (r: u8)
        ensures
            r == self.0,
    {
        self.0
    }

    pub fn dout8(&self) -> (r: u8)
        ensures
            r == field_of(self.0, 0, 8),
            r <= 0xFF,
    {
        proof {
            lemma_field_max();
        }
        get_field(self.0, 0, 8)
    }

    pub fn set_dout8(&mut self, v: u8)
        requires
            v <= 0xFF,
        ensures
            final(self).0 == with_field(old(self).0, 0, 8, v),
    {
        self.0 = put_field(self.0, 0, 8, v);
    }
}

/// ISPU_DOUT_09_L (0x22)
///
/// ISPU output register 09 low byte (R)
#[derive(Clone, Copy, PartialEq, Eq, Debug, Structural)]
pub struct IspuDout09L(pub u8);

impl IspuDout09L {
    /// The register at its raw byte value.
    pub fn from_bits(bits: u8) -> (r: Self)
        ensures
            r.0 == bits,
    {
        IspuDout09L(bits)
    }

    /// The raw byte value of the register.
    pub fn into_bits(self) -> (r: u8)
        ensures
            r == self.0,
    {
        self.0
    }

    pub fn dout9(&self) -> (r: u8)
        ensures
            r == field_of(self.0, 0, 8),
            r <= 0xFF,
    {
        proof {
            lemma_field_max();
        }
        get_field(self.0, 0, 8)
    }

    pub fn set_dout9(&mut self, v: u8)
        requires
            v <= 0xFF,
        ensures
            final(self).0 == with_field(old(self).0, 0, 8, v),
    {
        self.0 = put_field(self.0, 0, 8, v);
    }
}

/// ISPU_DOUT_09_H (0x23)
///
/// ISPU output register 09 high byte (R)
#[derive(Clone, Copy, PartialEq, Eq, Debug, Structural)]
pub struct IspuDout09H(pub u8);

impl IspuDout09H {
    /// The register at its raw byte value.
    pub fn from_bits(bits: u8) -> (r: Self)
        ensures
            r.0 == bits,
    {
        IspuDout09H(bits)
    }

    /// The raw byte value of the register.
    pub fn into_bits(self) -> (r: u8)
        ensures
            r == self.0,
    {
        self.0
    }

    pub fn dout9(&self) -> (r: u8)
        ensures
            r == field_of(self.0, 0, 8),
            r <= 0xFF,
    {
        proof {
            lemma_field_max();
        }
        get_field(self.0, 0, 8)
    }

    pub fn set_dout9(&mut self, v: u8)
        requires
            v <= 0xFF,
        ensures
            final(self).0 == with_field(old(self).0, 0, 8, v),
    {
        self.0 = put_field(self.0, 0, 8, v);
    }
}

/// ISPU_DOUT_10_L (0x24)
///
/// ISPU output register 10 low byte (R)
#[derive(Clone, Copy, PartialEq, Eq, Debug, Structural)]
pub struct IspuDout10L(pub u8);

impl IspuDout10L {
    /// The register at its raw byte value.
    pub fn from_bits(bits: u8) -> (r: Self)
        ensures
            r.0 == bits,
    {
        IspuDout10L(bits)
    }

    /// The raw byte value of the register.
    pub fn into_bits(self) -> (r: u8)
        ensures
            r == self.0,
    {
        self.0
    }

    pub fn dout10(&self) -> (r: u8)
        ensures
            r == field_of(self.0, 0, 8),
            r <= 0xFF,
    {
        proof {
            lemma_field_max();
        }
        get_field(self.0, 0, 8)
    }

    pub fn set_dout10(&mut self, v: u8)
        requires
            v <= 0xFF,
        ensures
            final(self).0 == with_field(old(self).0, 0, 8, v),
    {
        self.0 = put_field(self.0, 0, 8, v);
    }
}

/// ISPU_DOUT_10_H (0x25)
///
/// ISPU output register 10 high byte (R)
#[derive(Clone, Copy, PartialEq, Eq, Debug, Structural)]
pub struct IspuDout10H(pub u8);

impl IspuDout10H {
    /// The register at its raw byte value.
    pub fn from_bits(bits: u8) -> (r: Self)
        ensures
            r.0 == bits,
    {
        IspuDout10H(bits)
    }

    /// The raw byte value of the register.
    pub fn into_bits(self) -> (r: u8)
        ensures
            r == self.0,
    {
        self.0
    }

    pub fn dout10(&self) -> (r: u8)
        ensures
            r == field_of(self.0, 0, 8),
            r <= 0xFF,
    {
        proof {
            lemma_field_max();
        }
        get_field(self.0, 0, 8)
    }

    pub fn set_dout10(&mut self, v: u8)
        requires
            v <= 0xFF,
        ensures
            final(self).0 == with_field(old(self).0, 0, 8, v),
    {
        self.0 = put_field(self.0, 0, 8, v);
    }
}

/// ISPU_DOUT_11_L (0x26)
///
/// ISPU output register 11 low byte (R)
#[derive(Clone, Copy, PartialEq, Eq, Debug, Structural)]
pub struct IspuDout11L(pub u8);

impl IspuDout11L {
    /// The register at its raw byte value.
    pub fn from_bits(bits: u8) -> (r: Self)
        ensures
            r.0 == bits,
    {
        IspuDout11L(bits)
    }

    /// The raw byte value of the register.
    pub fn into_bits(self) -> (r: u8)
        ensures
            r == self.0,
    {
        self.0
    }

    pub fn dout11(&self) -> (r: u8)
        ensures
            r == field_of(self.0, 0, 8),
            r <= 0xFF,
    {
        proof {
            lemma_field_max();
        }
        get_field(self.0, 0, 8)
    }

    pub fn set_dout11(&mut self, v: u8)
        requires
            v <= 0xFF,
        ensures
            final(self).0 == with_field(old(self).0, 0, 8, v),
    {
        self.0 = put_field(self.0, 0, 8, v);
    }
}

/// ISPU_DOUT_11_H (0x27)
///
/// ISPU output register 11 high byte (R)
#[derive(Clone, Copy, PartialEq, Eq, Debug, Structural)]
pub struct IspuDout11H(pub u8);

impl IspuDout11H {
    /// The register at its raw byte value.
    pub fn from_bits(bits: u8) -> (r: Self)
        ensures
            r.0 == bits,
    {
        IspuDout11H(bits)
    }

    /// The raw byte value of the register.
    pub fn into_bits(self) -> (r: u8)
        ensures
            r == self.0,
    {
        self.0
    }

    pub fn dout11(&self) -> (r: u8)
        ensures
            r == field_of(self.0, 0, 8),
            r <= 0xFF,
    {
        proof {
            lemma_field_max();
        }
        get_field(self.0, 0, 8)
    }

    pub fn set_dout11(&mut self, v: u8)
        requires
            v <= 0xFF,
        ensures
            final(self).0 == with_field(old(self).0, 0, 8, v),
    {
        self.0 = put_field(self.0, 0, 8, v);
    }
}

/// ISPU_DOUT_12_L (0x28)
///
/// ISPU output register 12 low byte (R)
#[derive(Clone, Copy, PartialEq, Eq, Debug, Structural)]
pub struct IspuDout12L(pub u8);

impl IspuDout12L {
    /// The register at its raw byte value.
    pub fn from_bits(bits: u8) -> (r: Self)
        ensures
            r.0 == bits,
    {
        IspuDout12L(bits)
    }

    /// The raw byte value of the register.
    pub fn into_bits(self) -> (r: u8)
        ensures
            r == self.0,
    {
        self.0
    }

    pub fn dout12(&self) -> (r: u8)
        ensures
            r == field_of(self.0, 0, 8),
            r <= 0xFF,
    {
        proof {
            lemma_field_max();
        }
        get_field(self.0, 0, 8)
    }

    pub fn set_dout12(&mut self, v: u8)
        requires
            v <= 0xFF,
        ensures
            final(self).0 == with_field(old(self).0, 0, 8, v),
    {
        self.0 = put_field(self.0, 0, 8, v);
    }
}

/// ISPU_DOUT_12_H (0x29)
///
/// ISPU output register 12 high byte (R)
#[derive(Clone, Copy, PartialEq, Eq, Debug, Structural)]
pub struct IspuDout12H(pub u8);

impl IspuDout12H {
    /// The register at its raw byte value.
    pub fn from_bits(bits: u8) -> (r: Self)
        ensures
            r.0 == bits,
    {
        IspuDout12H(bits)
    }

    /// The raw byte value of the register.
    pub fn into_bits(self) -> (r: u8)
        ensures
            r == self.0,
    {
        self.0
    }

    pub fn dout12(&self) -> (r: u8)
        ensures
            r == field_of(self.0, 0, 8),
            r <= 0xFF,
    {
        proof {
            lemma_field_max();
        }
        get_field(self.0, 0, 8)
    }

    pub fn set_dout12(&mut self, v: u8)
        requires
            v <= 0xFF,
        ensures
            final(self).0 == with_field(old(self).0, 0, 8, v),
    {
        self.0 = put_field(self.0, 0, 8, v);
    }
}

/// ISPU_DOUT_13_L (0x2A)
///
/// ISPU output register 13 low byte (R)
#[derive(Clone, Copy, PartialEq, Eq, Debug, Structural)]
pub struct IspuDout13L(pub u8);

impl IspuDout13L {
    /// The register at its raw byte value.
    pub fn from_bits(bits: u8) -> (r: Self)
        ensures
            r.0 == bits,
    {
        IspuDout13L(bits)
    }

    /// The raw byte value of the register.
    pub fn into_bits(self) -> (r: u8)
        ensures
            r == self.0,
    {
        self.0
    }

    pub fn dout13(&self) -> (r: u8)
        ensures
            r == field_of(self.0, 0, 8),
            r <= 0xFF,
    {
        proof {
            lemma_field_max();
        }
        get_field(self.0, 0, 8)
    }

    pub fn set_dout13(&mut self, v: u8)
        requires
            v <= 0xFF,
        ensures
            final(self).0 == with_field(old(self).0, 0, 8, v),
    {
        self.0 = put_field(self.0, 0, 8, v);
    }
}

/// ISPU_DOUT_13_H (0x2B)
///
/// ISPU output register 13 high byte (R)
#[derive(Clone, Copy, PartialEq, Eq, Debug, Structural)]
pub struct IspuDout13H(pub u8);

impl IspuDout13H {
    /// The register at its raw byte value.
    pub fn from_bits(bits: u8) -> (r: Self)
        ensures
            r.0 == bits,
    {
        IspuDout13H(bits)
    }

    /// The raw byte value of the register.
    pub fn into_bits(self) -> (r: u8)
        ensures
            r == self.0,
    {
        self.0
    }

    pub fn dout13(&self) -> (r: u8)
        ensures
            r == field_of(self.0, 0, 8),
            r <= 0xFF,
    {
        proof {
            lemma_field_max();
        }
        get_field(self.0, 0, 8)
    }

    pub fn set_dout13(&mut self, v: u8)
        requires
            v <= 0xFF,
        ensures
            final(self).0 == with_field(old(self).0, 0, 8, v),
    {
        self.0 = put_field(self.0, 0, 8, v);
    }
}

/// ISPU_DOUT_14_L (0x2C)
///
/// ISPU output register 14 low byte (R)
#[derive(Clone, Copy, PartialEq, Eq, Debug, Structural)]
pub struct IspuDout14L(pub u8);

impl IspuDout14L {
    /// The register at its raw byte value.
    pub fn from_bits(bits: u8) -> (r: Self)
        ensures
            r.0 == bits,
    {
        IspuDout14L(bits)
    }

    /// The raw byte value of the register.
    pub fn into_bits(self) -> (r: u8)
        ensures
            r == self.0,
    {
        self.0
    }

    pub fn dout14(&self) -> (r: u8)
        ensures
            r == field_of(self.0, 0, 8),
            r <= 0xFF,
    {
        proof {
            lemma_field_max();
        }
        get_field(self.0, 0, 8)
    }

    pub fn set_dout14(&mut self, v: u8)
        requires
            v <= 0xFF,
        ensures
            final(self).0 == with_field(old(self).0, 0, 8, v),
    {
        self.0 = put_field(self.0, 0, 8, v);
    }
}

/// ISPU_DOUT_14_H (0x2D)
///
/// ISPU output register 14 high byte (R)
#[derive(Clone, Copy, PartialEq, Eq, Debug, Structural)]
pub struct IspuDout14H(pub u8);

impl IspuDout14H {
    /// The register at its raw byte value.
    pub fn from_bits(bits: u8) -> (r: Self)
        ensures
            r.0 == bits,
    {
        IspuDout14H(bits)
    }

    /// The raw byte value of the register.
    pub fn into_bits(self) -> (r: u8)
        ensures
            r == self.0,
    {
        self.0
    }

    pub fn dout14(&self) -> (r: u8)
        ensures
            r == field_of(self.0, 0, 8),
            r <= 0xFF,
    {
        proof {
            lemma_field_max();
        }
        get_field(self.0, 0, 8)
    }

    pub fn set_dout14(&mut self, v: u8)
        requires
            v <= 0xFF,
        ensures
            final(self).0 == with_field(old(self).0, 0, 8, v),
    {
        self.0 = put_field(self.0, 0, 8, v);
    }
}

/// ISPU_DOUT_15_L (0x2E)
///
/// ISPU output register 15 low byte (R)
#[derive(Clone, Copy, PartialEq, Eq, Debug, Structural)]
pub struct IspuDout15L(pub u8);

impl IspuDout15L {
    /// The register at its raw byte value.
    pub fn from_bits(bits: u8) -> (r: Self)
        ensures
            r.0 == bits,
    {
        IspuDout15L(bits)
    }

    /// The raw byte value of the register.
    pub fn into_bits(self) -> (r: u8)
        ensures
            r == self.0,
    {
        self.0
    }

    pub fn dout15(&self) -> (r: u8)
        ensures
            r == field_of(self.0, 0, 8),
            r <= 0xFF,
    {
        proof {
            lemma_field_max();
        }
        get_field(self.0, 0, 8)
    }

    pub fn set_dout15(&mut self, v: u8)
        requires
            v <= 0xFF,
        ensures
            final(self).0 == with_field(old(self).0, 0, 8, v),
    {
        self.0 = put_field(self.0, 0, 8, v);
    }
}

/// ISPU_DOUT_15_H (0x2F)
///
/// ISPU output register 15 high byte (R)
#[derive(Clone, Copy, PartialEq, Eq, Debug, Structural)]
pub struct IspuDout15H(pub u8);

impl IspuDout15H {
    /// The register at its raw byte value.
    pub fn from_bits(bits: u8) -> (r: Self)
        ensures
            r.0 == bits,
    {
        IspuDout15H(bits)
    }

    /// The raw byte value of the register.
    pub fn into_bits(self) -> (r: u8)
        ensures
            r == self.0,
    {
        self.0
    }

    pub fn dout15(&self) -> (r: u8)
        ensures
            r == field_of(self.0, 0, 8),
            r <= 0xFF,
    {
        proof {
            lemma_field_max();
        }
        get_field(self.0, 0, 8)
    }

    pub fn set_dout15(&mut self, v: u8)
        requires
            v <= 0xFF,
        ensures
            final(self).0 == with_field(old(self).0, 0, 8, v),
    {
        self.0 = put_field(self.0, 0, 8, v);
    }
}

/// ISPU_DOUT_16_L (0x30)
///
/// ISPU output register 16 low byte (R)
#[derive(Clone, Copy, PartialEq, Eq, Debug, Structural)]
pub struct IspuDout16L(pub u8);

impl IspuDout16L {
    /// The register at its raw byte value.
    pub fn from_bits(bits: u8) -> (r: Self)
        ensures
            r.0 == bits,
    {
        IspuDout16L(bits)
    }

    /// The raw byte value of the register.
    pub fn into_bits(self) -> (r: u8)
        ensures
            r == self.0,
    {
        self.0
    }

    pub fn dout16(&self) -> (r: u8)
        ensures
            r == field_of(self.0, 0, 8),
            r <= 0xFF,
    {
        proof {
            lemma_field_max();
        }
        get_field(self.0, 0, 8)
    }

    pub fn set_dout16(&mut self, v: u8)
        requires
            v <= 0xFF,
        ensures
            final(self).0 == with_field(old(self).0, 0, 8, v),
    {
        self.0 = put_field(self.0, 0, 8, v);
    }
}

/// ISPU_DOUT_16_H (0x31)
///
/// ISPU output register 16 high byte (R)
#[derive(Clone, Copy, PartialEq, Eq, Debug, Structural)]
pub struct IspuDout16H(pub u8);

impl IspuDout16H {
    /// The register at its raw byte value.
    pub fn from_bits(bits: u8) -> (r: Self)
        ensures
            r.0 == bits,
    {
        IspuDout16H(bits)
    }

    /// The raw byte value of the register.
    pub fn into_bits(self) -> (r: u8)
        ensures
            r == self.0,
    {
        self.0
    }

    pub fn dout16(&self) -> (r: u8)
        ensures
            r == field_of(self.0, 0, 8),
            r <= 0xFF,
    {
        proof {
            lemma_field_max();
        }
        get_field(self.0, 0, 8)
    }

    pub fn set_dout16(&mut self, v: u8)
        requires
            v <= 0xFF,
        ensures
            final(self).0 == with_field(old(self).0, 0, 8, v),
    {
        self.0 = put_field(self.0, 0, 8, v);
    }
}

/// ISPU_DOUT_17_L (0x32)
///
/// ISPU output register 17 low byte (R)
#[derive(Clone, Copy, PartialEq, Eq, Debug, Structural)]
pub struct IspuDout17L(pub u8);

impl IspuDout17L {
    /// The register at its raw byte value.
    pub fn from_bits(bits: u8) -> (r: Self)
        ensures
            r.0 == bits,
    {
        IspuDout17L(bits)
    }

    /// The raw byte value of the register.
    pub fn into_bits(self) -> (r: u8)
        ensures
            r == self.0,
    {
        self.0
    }

    pub fn dout17(&self) -> (r: u8)
        ensures
            r == field_of(self.0, 0, 8),
            r <= 0xFF,
    {
        proof {
            lemma_field_max();
        }
        get_field(self.0, 0, 8)
    }

    pub fn set_dout17(&mut self, v: u8)
        requires
            v <= 0xFF,
        ensures
            final(self).0 == with_field(old(self).0, 0, 8, v),
    {
        self.0 = put_field(self.0, 0, 8, v);
    }
}

/// ISPU_DOUT_17_H (0x33)
///
/// ISPU output register 17 high byte (R)
#[derive(Clone, Copy, PartialEq, Eq, Debug, Structural)]
pub struct IspuDout17H(pub u8);

impl IspuDout17H {
    /// The register at its raw byte value.
    pub fn from_bits(bits: u8) -> (r: Self)
        ensures
            r.0 == bits,
    {
        IspuDout17H(bits)
    }

    /// The raw byte value of the register.
    pub fn into_bits(self) -> (r: u8)
        ensures
            r == self.0,
    {
        self.0
    }

    pub fn dout17(&self) -> (r: u8)
        ensures
            r == field_of(self.0, 0, 8),
            r <= 0xFF,
    {
        proof {
            lemma_field_max();
        }
        get_field(self.0, 0, 8)
    }

    pub fn set_dout17(&mut self, v: u8)
        requires
            v <= 0xFF,
        ensures
            final(self).0 == with_field(old(self).0, 0, 8, v),
    {
        self.0 = put_field(self.0, 0, 8, v);
    }
}

/// ISPU_DOUT_18_L (0x34)
///
/// ISPU output register 18 low byte (R)
#[derive(Clone, Copy, PartialEq, Eq, Debug, Structural)]
pub struct IspuDout18L(pub u8);

impl IspuDout18L {
    /// The register at its raw byte value.
    pub fn from_bits(bits: u8) -> (r: Self)
        ensures
            r.0 == bits,
    {
        IspuDout18L(bits)
    }

    /// The raw byte value of the register.
    pub fn into_bits(self) -> (r: u8)
        ensures
            r == self.0,
    {
        self.0
    }

    pub fn dout18(&self) -> (r: u8)
        ensures
            r == field_of(self.0, 0, 8),
            r <= 0xFF,
    {
        proof {
            lemma_field_max();
        }
        get_field(self.0, 0, 8)
    }

    pub fn set_dout18(&mut self, v: u8)
        requires
            v <= 0xFF,
        ensures
            final(self).0 == with_field(old(self).0, 0, 8, v),
    {
        self.0 = put_field(self.0, 0, 8, v);
    }
}

/// ISPU_DOUT_18_H (0x35)
///
/// ISPU output register 18 high byte (R)
#[derive(Clone, Copy, PartialEq, Eq, Debug, Structural)]
pub struct IspuDout18H(pub u8);

impl IspuDout18H {
    /// The register at its raw byte value.
    pub fn from_bits(bits: u8) -> (r: Self)
        ensures
            r.0 == bits,
    {
        IspuDout18H(bits)
    }

    /// The raw byte value of the register.
    pub fn into_bits(self) -> (r: u8)
        ensures
            r == self.0,
    {
        self.0
    }

    pub fn dout18(&self) -> (r: u8)
        ensures
            r == field_of(self.0, 0, 8),
            r <= 0xFF,
    {
        proof {
            lemma_field_max();
        }
        get_field(self.0, 0, 8)
    }

    pub fn set_dout18(&mut self, v: u8)
        requires
            v <= 0xFF,
        ensures
            final(self).0 == with_field(old(self).0, 0, 8, v),
    {
        self.0 = put_field(self.0, 0, 8, v);
    }
}

/// ISPU_DOUT_19_L (0x36)
///
/// ISPU output register 19 low byte (R)
#[derive(Clone, Copy, PartialEq, Eq, Debug, Structural)]
pub struct IspuDout19L(pub u8);

impl IspuDout19L {
    /// The register at its raw byte value.
    pub fn from_bits(bits: u8) -> (r: Self)
        ensures
            r.0 == bits,
    {
        IspuDout19L(bits)
    }

    /// The raw byte value of the register.
    pub fn into_bits(self) -> (r: u8)
        ensures
            r == self.0,
    {
        self.0
    }

    pub fn dout19(&self) -> (r: u8)
        ensures
            r == field_of(self.0, 0, 8),
            r <= 0xFF,
    {
        proof {
            lemma_field_max();
        }
        get_field(self.0, 0, 8)
    }

    pub fn set_dout19(&mut self, v: u8)
        requires
            v <= 0xFF,
        ensures
            final(self).0 == with_field(old(self).0, 0, 8, v),
    {
        self.0 = put_field(self.0, 0, 8, v);
    }
}

/// ISPU_DOUT_19_H (0x37)
///
/// ISPU output register 19 high byte (R)
#[derive(Clone, Copy, PartialEq, Eq, Debug, Structural)]
pub struct IspuDout19H(pub u8);

impl IspuDout19H {
    /// The register at its raw byte value.
    pub fn from_bits(bits: u8) -> (r: Self)
        ensures
            r.0 == bits,
    {
        IspuDout19H(bits)
    }

    /// The raw byte value of the register.
    pub fn into_bits(self) -> (r: u8)
        ensures
            r == self.0,
    {
        self.0
    }

    pub fn dout19(&self) -> (r: u8)
        ensures
            r == field_of(self.0, 0, 8),
            r <= 0xFF,
    {
        proof {
            lemma_field_max();
        }
        get_field(self.0, 0, 8)
    }

    pub fn set_dout19(&mut self, v: u8)
        requires
            v <= 0xFF,
        ensures
            final(self).0 == with_field(old(self).0, 0, 8, v),
    {
        self.0 = put_field(self.0, 0, 8, v);
    }
}

/// ISPU_DOUT_20_L (0x38)
///
/// ISPU output register 20 low byte (R)
#[derive(Clone, Copy, PartialEq, Eq, Debug, Structural)]
pub struct IspuDout20L(pub u8);

impl IspuDout20L {
    /// The register at its raw byte value.
    pub fn from_bits(bits: u8) -> (r: Self)
        ensures
            r.0 == bits,
    {
        IspuDout20L(bits)
    }

    /// The raw byte value of the register.
    pub fn into_bits(self) -> (r: u8)
        ensures
            r == self.0,
    {
        self.0
    }

    pub fn dout20(&self) -> (r: u8)
        ensures
            r == field_of(self.0, 0, 8),
            r <= 0xFF,
    {
        proof {
            lemma_field_max();
        }
        get_field(self.0, 0, 8)
    }

    pub fn set_dout20(&mut self, v: u8)
        requires
            v <= 0xFF,
        ensures
            final(self).0 == with_field(old(self).0, 0, 8, v),
    {
        self.0 = put_field(self.0, 0, 8, v);
    }
}

/// ISPU_DOUT_20_H (0x39)
///
/// ISPU output register 20 high byte (R)
#[derive(Clone, Copy, PartialEq, Eq, Debug, Structural)]
pub struct IspuDout20H(pub u8);

impl IspuDout20H {
    /// The register at its raw byte value.
    pub fn from_bits(bits: u8) -> (r: Self)
        ensures
            r.0 == bits,
    {
        IspuDout20H(bits)
    }

    /// The raw byte value of the register.
    pub fn into_bits(self) -> (r: u8)
        ensures
            r == self.0,
    {
        self.0
    }

    pub fn dout20(&self) -> (r: u8)
        ensures
            r == field_of(self.0, 0, 8),
            r <= 0xFF,
    {
        proof {
            lemma_field_max();
        }
        get_field(self.0, 0, 8)
    }

    pub fn set_dout20(&mut self, v: u8)
        requires
            v <= 0xFF,
        ensures
            final(self).0 == with_field(old(self).0, 0, 8, v),
    {
        self.0 = put_field(self.0, 0, 8, v);
    }
}

/// ISPU_DOUT_21_L (0x3A)
///
/// ISPU output register 21 low byte (R)
#[derive(Clone, Copy, PartialEq, Eq, Debug, Structural)]
pub struct IspuDout21L(pub u8);

impl IspuDout21L {
    /// The register at its raw byte value.
    pub fn from_bits(bits: u8) -> (r: Self)
        ensures
            r.0 == bits,
    {
        IspuDout21L(bits)
    }

    /// The raw byte value of the register.
    pub fn into_bits(self) -> (r: u8)
        ensures
            r == self.0,
    {
        self.0
    }

    pub fn dout21(&self) -> (r: u8)
        ensures
            r == field_of(self.0, 0, 8),
            r <= 0xFF,
    {
        proof {
            lemma_field_max();
        }
        get_field(self.0, 0, 8)
    }

    pub fn set_dout21(&mut self, v: u8)
        requires
            v <= 0xFF,
        ensures
            final(self).0 == with_field(old(self).0, 0, 8, v),
    {
        self.0 = put_field(self.0, 0, 8, v);
    }
}

/// ISPU_DOUT_21_H (0x3B)
///
/// ISPU output register 21 high byte (R)
#[derive(Clone, Copy, PartialEq, Eq, Debug, Structural)]
pub struct IspuDout21H(pub u8);

impl IspuDout21H {
    /// The register at its raw byte value.
    pub fn from_bits(bits: u8) -> (r: Self)
        ensures
            r.0 == bits,
    {
        IspuDout21H(bits)
    }

    /// The raw byte value of the register.
    pub fn into_bits(self) -> (r: u8)
        ensures
            r == self.0,
    {
        self.0
    }

    pub fn dout21(&self) -> (r: u8)
        ensures
            r == field_of(self.0, 0, 8),
            r <= 0xFF,
    {
        proof {
            lemma_field_max();
        }
        get_field(self.0, 0, 8)
    }

    pub fn set_dout21(&mut self, v: u8)
        requires
            v <= 0xFF,
        ensures
            final(self).0 == with_field(old(self).0, 0, 8, v),
    {
        self.0 = put_field(self.0, 0, 8, v);
    }
}

/// ISPU_DOUT_22_L (0x3C)
///
/// ISPU output register 22 low byte (R)
#[derive(Clone, Copy, PartialEq, Eq, Debug, Structural)]
pub struct IspuDout22L(pub u8);

impl IspuDout22L {
    /// The register at its raw byte value.
    pub fn from_bits(bits: u8) -> (r: Self)
        ensures
            r.0 == bits,
    {
        IspuDout22L(bits)
    }

    /// The raw byte value of the register.
    pub fn into_bits(self) -> (r: u8)
        ensures
            r == self.0,
    {
        self.0
    }

    pub fn dout22(&self) -> (r: u8)
        ensures
            r == field_of(self.0, 0, 8),
            r <= 0xFF,
    {
        proof {
            lemma_field_max();
        }
        get_field(self.0, 0, 8)
    }

    pub fn set_dout22(&mut self, v: u8)
        requires
            v <= 0xFF,
        ensures
            final(self).0 == with_field(old(self).0, 0, 8, v),
    {
        self.0 = put_field(self.0, 0, 8, v);
    }
}

/// ISPU_DOUT_22_H (0x3D)
///
/// ISPU output register 22 high byte (R)
#[derive(Clone, Copy, PartialEq, Eq, Debug, Structural)]
pub struct IspuDout22H(pub u8);

impl IspuDout22H {
    /// The register at its raw byte value.
    pub fn from_bits(bits: u8) -> (r: Self)
        ensures
            r.0 == bits,
    {
        IspuDout22H(bits)
    }

    /// The raw byte value of the register.
    pub fn into_bits(self) -> (r: u8)
        ensures
            r == self.0,
    {
        self.0
    }

    pub fn dout22(&self) -> (r: u8)
        ensures
            r == field_of(self.0, 0, 8),
            r <= 0xFF,
    {
        proof {
            lemma_field_max();
        }
        get_field(self.0, 0, 8)
    }

    pub fn set_dout22(&mut self, v: u8)
        requires
            v <= 0xFF,
        ensures
            final(self).0 == with_field(old(self).0, 0, 8, v),
    {
        self.0 = put_field(self.0, 0, 8, v);
    }
}

/// ISPU_DOUT_23_L (0x3E)
///
/// ISPU output register 23 low byte (R)
#[derive(Clone, Copy, PartialEq, Eq, Debug, Structural)]
pub struct IspuDout23L(pub u8);

impl IspuDout23L {
    /// The register at its raw byte value.
    pub fn from_bits(bits: u8) -> (r: Self)
        ensures
            r.0 == bits,
    {
        IspuDout23L(bits)
    }

    /// The raw byte value of the register.
    pub fn into_bits(self) -> (r: u8)
        ensures
            r == self.0,
    {
        self.0
    }

    pub fn dout23(&self) -> (r: u8)
        ensures
            r == field_of(self.0, 0, 8),
            r <= 0xFF,
    {
        proof {
            lemma_field_max();
        }
        get_field(self.0, 0, 8)
    }

    pub fn set_dout23(&mut self, v: u8)
        requires
            v <= 0xFF,
        ensures
            final(self).0 == with_field(old(self).0, 0, 8, v),
    {
        self.0 = put_field(self.0, 0, 8, v);
    }
}

/// ISPU_DOUT_23_H (0x3F)
///
/// ISPU output register 23 high byte (R)
#[derive(Clone, Copy, PartialEq, Eq, Debug, Structural)]
pub struct IspuDout23H(pub u8);

impl IspuDout23H {
    /// The register at its raw byte value.
    pub fn from_bits(bits: u8) -> (r: Self)
        ensures
            r.0 == bits,
    {
        IspuDout23H(bits)
    }

    /// The raw byte value of the register.
    pub fn into_bits(self) -> (r: u8)
        ensures
            r == self.0,
    {
        self.0
    }

    pub fn dout23(&self) -> (r: u8)
        ensures
            r == field_of(self.0, 0, 8),
            r <= 0xFF,
    {
        proof {
            lemma_field_max();
        }
        get_field(self.0, 0, 8)
    }

    pub fn set_dout23(&mut self, v: u8)
        requires
            v <= 0xFF,
        ensures
            final(self).0 == with_field(old(self).0, 0, 8, v),
    {
        self.0 = put_field(self.0, 0, 8, v);
    }
}

/// ISPU_DOUT_24_L (0x40)
///
/// ISPU output register 24 low byte (R)
#[derive(Clone, Copy, PartialEq, Eq, Debug, Structural)]
pub struct IspuDout24L(pub u8);

impl IspuDout24L {
    /// The register at its raw byte value.
    pub fn from_bits(bits: u8) -> (r: Self)
        ensures
            r.0 == bits,
    {
        IspuDout24L(bits)
    }

    /// The raw byte value of the register.
    pub fn into_bits(self) -> (r: u8)
        ensures
            r == self.0,
    {
        self.0
    }

    pub fn dout24(&self) -> (r: u8)
        ensures
            r == field_of(self.0, 0, 8),
            r <= 0xFF,
    {
        proof {
            lemma_field_max();
        }
        get_field(self.0, 0, 8)
    }

    pub fn set_dout24(&mut self, v: u8)
        requires
            v <= 0xFF,
        ensures
            final(self).0 == with_field(old(self).0, 0, 8, v),
    {
        self.0 = put_field(self.0, 0, 8, v);
    }
}

/// ISPU_DOUT_24_H (0x41)
///
/// ISPU output register 24 high byte (R)
#[derive(Clone, Copy, PartialEq, Eq, Debug, Structural)]
pub struct IspuDout24H(pub u8);

impl IspuDout24H {
    /// The register at its raw byte value.
    pub fn from_bits(bits: u8) -> (r: Self)
        ensures
            r.0 == bits,
    {
        IspuDout24H(bits)
    }

    /// The raw byte value of the register.
    pub fn into_bits(self) -> (r: u8)
        ensures
            r == self.0,
    {
        self.0
    }

    pub fn dout24(&self) -> (r: u8)
        ensures
            r == field_of(self.0, 0, 8),
            r <= 0xFF,
    {
        proof {
            lemma_field_max();
        }
        get_field(self.0, 0, 8)
    }

    pub fn set_dout24(&mut self, v: u8)
        requires
            v <= 0xFF,
        ensures
            final(self).0 == with_field(old(self).0, 0, 8, v),
    {
        self.0 = put_field(self.0, 0, 8, v);
    }
}

/// ISPU_DOUT_25_L (0x42)
///
/// ISPU output register 25 low byte (R)
#[derive(Clone, Copy, PartialEq, Eq, Debug, Structural)]
pub struct IspuDout25L(pub u8);

impl IspuDout25L {
    /// The register at its raw byte value.
    pub fn from_bits(bits: u8) -> (r: Self)
        ensures
            r.0 == bits,
    {
        IspuDout25L(bits)
    }

    /// The raw byte value of the register.
    pub fn into_bits(self) -> (r: u8)
        ensures
            r == self.0,
    {
        self.0
    }

    pub fn dout25(&self) -> (r: u8)
        ensures
            r == field_of(self.0, 0, 8),
            r <= 0xFF,
    {
        proof {
            lemma_field_max();
        }
        get_field(self.0, 0, 8)
    }

    pub fn set_dout25(&mut self, v: u8)
        requires
            v <= 0xFF,
        ensures
            final(self).0 == with_field(old(self).0, 0, 8, v),
    {
        self.0 = put_field(self.0, 0, 8, v);
    }
}

/// ISPU_DOUT_25_H (0x43)
///
/// ISPU output register 25 high byte (R)
#[derive(Clone, Copy, PartialEq, Eq, Debug, Structural)]
pub struct IspuDout25H(pub u8);

impl IspuDout25H {
    /// The register at its raw byte value.
    pub fn from_bits(bits: u8) -> (r: Self)
        ensures
            r.0 == bits,
    {
        IspuDout25H(bits)
    }

    /// The raw byte value of the register.
    pub fn into_bits(self) -> (r: u8)
        ensures
            r == self.0,
    {
        self.0
    }

    pub fn dout25(&self) -> (r: u8)
        ensures
            r == field_of(self.0, 0, 8),
            r <= 0xFF,
    {
        proof {
            lemma_field_max();
        }
        get_field(self.0, 0, 8)
    }

    pub fn set_dout25(&mut self, v: u8)
        requires
            v <= 0xFF,
        ensures
            final(self).0 == with_field(old(self).0, 0, 8, v),
    {
        self.0 = put_field(self.0, 0, 8, v);
    }
}

/// ISPU_DOUT_26_L (0x44)
///
/// ISPU output register 26 low byte (R)
#[derive(Clone, Copy, PartialEq, Eq, Debug, Structural)]
pub struct IspuDout26L(pub u8);

impl IspuDout26L {
    /// The register at its raw byte value.
    pub fn from_bits(bits: u8) -> (r: Self)
        ensures
            r.0 == bits,
    {
        IspuDout26L(bits)
    }

    /// The raw byte value of the register.
    pub fn into_bits(self) -> (r: u8)
        ensures
            r == self.0,
    {
        self.0
    }

    pub fn dout26(&self) -> (r: u8)
        ensures
            r == field_of(self.0, 0, 8),
            r <= 0xFF,
    {
        proof {
            lemma_field_max();
        }
        get_field(self.0, 0, 8)
    }

    pub fn set_dout26(&mut self, v: u8)
        requires
            v <= 0xFF,
        ensures
            final(self).0 == with_field(old(self).0, 0, 8, v),
    {
        self.0 = put_field(self.0, 0, 8, v);
    }
}

/// ISPU_DOUT_26_H (0x45)
///
/// ISPU output register 26 high byte (R)
#[derive(Clone, Copy, PartialEq, Eq, Debug, Structural)]
pub struct IspuDout26H(pub u8);

impl IspuDout26H {
    /// The register at its raw byte value.
    pub fn from_bits(bits: u8) -> (r: Self)
        ensures
            r.0 == bits,
    {
        IspuDout26H(bits)
    }

    /// The raw byte value of the register.
    pub fn into_bits(self) -> (r: u8)
        ensures
            r == self.0,
    {
        self.0
    }

    pub fn dout26(&self) -> (r: u8)
        ensures
            r == field_of(self.0, 0, 8),
            r <= 0xFF,
    {
        proof {
            lemma_field_max();
        }
        get_field(self.0, 0, 8)
    }

    pub fn set_dout26(&mut self, v: u8)
        requires
            v <= 0xFF,
        ensures
            final(self).0 == with_field(old(self).0, 0, 8, v),
    {
        self.0 = put_field(self.0, 0, 8, v);
    }
}

/// ISPU_DOUT_27_L (0x46)
///
/// ISPU output register 27 low byte (R)
#[derive(Clone, Copy, PartialEq, Eq, Debug, Structural)]
pub struct IspuDout27L(pub u8);

impl IspuDout27L {
    /// The register at its raw byte value.
    pub fn from_bits(bits: u8) -> (r: Self)
        ensures
            r.0 == bits,
    {
        IspuDout27L(bits)
    }

    /// The raw byte value of the register.
    pub fn into_bits(self) -> (r: u8)
        ensures
            r == self.0,
    {
        self.0
    }

    pub fn dout27(&self) -> (r: u8)
        ensures
            r == field_of(self.0, 0, 8),
            r <= 0xFF,
    {
        proof {
            lemma_field_max();
        }
        get_field(self.0, 0, 8)
    }

    pub fn set_dout27(&mut self, v: u8)
        requires
            v <= 0xFF,
        ensures
            final(self).0 == with_field(old(self).0, 0, 8, v),
    {
        self.0 = put_field(self.0, 0, 8, v);
    }
}

/// ISPU_DOUT_27_H (0x47)
///
/// ISPU output register 27 high byte (R)
#[derive(Clone, Copy, PartialEq, Eq, Debug, Structural)]
pub struct IspuDout27H(pub u8);

impl IspuDout27H {
    /// The register at its raw byte value.
    pub fn from_bits(bits: u8) -> (r: Self)
        ensures
            r.0 == bits,
    {
        IspuDout27H(bits)
    }

    /// The raw byte value of the register.
    pub fn into_bits(self) -> (r: u8)
        ensures
            r == self.0,
    {
        self.0
    }

    pub fn dout27(&self) -> (r: u8)
        ensures
            r == field_of(self.0, 0, 8),
            r <= 0xFF,
    {
        proof {
            lemma_field_max();
        }
        get_field(self.0, 0, 8)
    }

    pub fn set_dout27(&mut self, v: u8)
        requires
            v <= 0xFF,
        ensures
            final(self).0 == with_field(old(self).0, 0, 8, v),
    {
        self.0 = put_field(self.0, 0, 8, v);
    }
}

/// ISPU_DOUT_28_L (0x48)
///
/// ISPU output register 28 low byte (R)
#[derive(Clone, Copy, PartialEq, Eq, Debug, Structural)]
pub struct IspuDout28L(pub u8);

impl IspuDout28L {
    /// The register at its raw byte value.
    pub fn from_bits(bits: u8) -> (r: Self)
        ensures
            r.0 == bits,
    {
        IspuDout28L(bits)
    }

    /// The raw byte value of the register.
    pub fn into_bits(self) -> (r: u8)
        ensures
            r == self.0,
    {
        self.0
    }

    pub fn dout28(&self) -> (r: u8)
        ensures
            r == field_of(self.0, 0, 8),
            r <= 0xFF,
    {
        proof {
            lemma_field_max();
        }
        get_field(self.0, 0, 8)
    }

    pub fn set_dout28(&mut self, v: u8)
        requires
            v <= 0xFF,
        ensures
            final(self).0 == with_field(old(self).0, 0, 8, v),
    {
        self.0 = put_field(self.0, 0, 8, v);
    }
}

/// ISPU_DOUT_28_H (0x49)
///
/// ISPU output register 28 high byte (R)
#[derive(Clone, Copy, PartialEq, Eq, Debug, Structural)]
pub struct IspuDout28H(pub u8);

impl IspuDout28H {
    /// The register at its raw byte value.
    pub fn from_bits(bits: u8) -> (r: Self)
        ensures
            r.0 == bits,
    {
        IspuDout28H(bits)
    }

    /// The raw byte value of the register.
    pub fn into_bits(self) -> (r: u8)
        ensures
            r == self.0,
    {
        self.0
    }

    pub fn dout28(&self) -> (r: u8)
        ensures
            r == field_of(self.0, 0, 8),
            r <= 0xFF,
    {
        proof {
            lemma_field_max();
        }
        get_field(self.0, 0, 8)
    }

    pub fn set_dout28(&mut self, v: u8)
        requires
            v <= 0xFF,
        ensures
            final(self).0 == with_field(old(self).0, 0, 8, v),
    {
        self.0 = put_field(self.0, 0, 8, v);
    }
}

/// ISPU_DOUT_29_L (0x4A)
///
/// ISPU output register 29 low byte (R)
#[derive(Clone, Copy, PartialEq, Eq, Debug, Structural)]
pub struct IspuDout29L(pub u8);

impl IspuDout29L {
    /// The register at its raw byte value.
    pub fn from_bits(bits: u8) -> (r: Self)
        ensures
            r.0 == bits,
    {
        IspuDout29L(bits)
    }

    /// The raw byte value of the register.
    pub fn into_bits(self) -> (r: u8)
        ensures
            r == self.0,
    {
        self.0
    }

    pub fn dout29(&self) -> (r: u8)
        ensures
            r == field_of(self.0, 0, 8),
            r <= 0xFF,
    {
        proof {
            lemma_field_max();
        }
        get_field(self.0, 0, 8)
    }

    pub fn set_dout29(&mut self, v: u8)
        requires
            v <= 0xFF,
        ensures
            final(self).0 == with_field(old(self).0, 0, 8, v),
    {
        self.0 = put_field(self.0, 0, 8, v);
    }
}

/// ISPU_DOUT_29_H (0x4B)
///
/// ISPU output register 29 high byte (R)
#[derive(Clone, Copy, PartialEq, Eq, Debug, Structural)]
pub struct IspuDout29H(pub u8);

impl IspuDout29H {
    /// The register at its raw byte value.
    pub fn from_bits(bits: u8) -> (r: Self)
        ensures
            r.0 == bits,
    {
        IspuDout29H(bits)
    }

    /// The raw byte value of the register.
    pub fn into_bits(self) -> (r: u8)
        ensures
            r == self.0,
    {
        self.0
    }

    pub fn dout29(&self) -> (r: u8)
        ensures
            r == field_of(self.0, 0, 8),
            r <= 0xFF,
    {
        proof {
            lemma_field_max();
        }
        get_field(self.0, 0, 8)
    }

    pub fn set_dout29(&mut self, v: u8)
        requires
            v <= 0xFF,
        ensures
            final(self).0 == with_field(old(self).0, 0, 8, v),
    {
        self.0 = put_field(self.0, 0, 8, v);
    }
}

/// ISPU_DOUT_30_L (0x4C)
///
/// ISPU output register 30 low byte (R)
#[derive(Clone, Copy, PartialEq, Eq, Debug, Structural)]
pub struct IspuDout30L(pub u8);

impl IspuDout30L {
    /// The register at its raw byte value.
    pub fn from_bits(bits: u8) -> (r: Self)
        ensures
            r.0 == bits,
    {
        IspuDout30L(bits)
    }

    /// The raw byte value of the register.
    pub fn into_bits(self) -> (r: u8)
        ensures
            r == self.0,
    {
        self.0
    }

    pub fn dout30(&self) -> (r: u8)
        ensures
            r == field_of(self.0, 0, 8),
            r <= 0xFF,
    {
        proof {
            lemma_field_max();
        }
        get_field(self.0, 0, 8)
    }

    pub fn set_dout30(&mut self, v: u8)
        requires
            v <= 0xFF,
        ensures
            final(self).0 == with_field(old(self).0, 0, 8, v),
    {
        self.0 = put_field(self.0, 0, 8, v);
    }
}

/// ISPU_DOUT_30_H (0x4D)
///
/// ISPU output register 30 high byte (R)
#[derive(Clone, Copy, PartialEq, Eq, Debug, Structural)]
pub struct IspuDout30H(pub u8);

impl IspuDout30H {
    /// The register at its raw byte value.
    pub fn from_bits(bits: u8) -> (r: Self)
        ensures
            r.0 == bits,
    {
        IspuDout30H(bits)
    }

    /// The raw byte value of the register.
    pub fn into_bits(self) -> (r: u8)
        ensures
            r == self.0,
    {
        self.0
    }

    pub fn dout30(&self) -> (r: u8)
        ensures
            r == field_of(self.0, 0, 8),
            r <= 0xFF,
    {
        proof {
            lemma_field_max();
        }
        get_field(self.0, 0, 8)
    }

    pub fn set_dout30(&mut self, v: u8)
        requires
            v <= 0xFF,
        ensures
            final(self).0 == with_field(old(self).0, 0, 8, v),
    {
        self.0 = put_field(self.0, 0, 8, v);
    }
}

/// ISPU_DOUT_31_L (0x4E)
///
/// ISPU output register 31 low byte (R)
#[derive(Clone, Copy, PartialEq, Eq, Debug, Structural)]
pub struct IspuDout31L(pub u8);

impl IspuDout31L {
    /// The register at its raw byte value.
    pub fn from_bits(bits: u8) -> (r: Self)
        ensures
            r.0 == bits,
    {
        IspuDout31L(bits)
    }

    /// The raw byte value of the register.
    pub fn into_bits(self) -> (r: u8)
        ensures
            r == self.0,
    {
        self.0
    }

    pub fn dout31(&self) -> (r: u8)
        ensures
            r == field_of(self.0, 0, 8),
            r <= 0xFF,
    {
        proof {
            lemma_field_max();
        }
        get_field(self.0, 0, 8)
    }

    pub fn set_dout31(&mut self, v: u8)
        requires
            v <= 0xFF,
        ensures
            final(self).0 == with_field(old(self).0, 0, 8, v),
    {
        self.0 = put_field(self.0, 0, 8, v);
    }
}

/// ISPU_DOUT_31_H (0x4F)
///
/// ISPU output register 31 high byte (R)
#[derive(Clone, Copy, PartialEq, Eq, Debug, Structural)]
pub struct IspuDout31H(pub u8);

impl IspuDout31H {
    /// The register at its raw byte value.
    pub fn from_bits(bits: u8) -> (r: Self)
        ensures
            r.0 == bits,
    {
        IspuDout31H(bits)
    }

    /// The raw byte value of the register.
    pub fn into_bits(self) -> (r: u8)
        ensures
            r == self.0,
    {
        self.0
    }

    pub fn dout31(&self) -> (r: u8)
        ensures
            r == field_of(self.0, 0, 8),
            r <= 0xFF,
    {
        proof {
            lemma_field_max();
        }
        get_field(self.0, 0, 8)
    }

    pub fn set_dout31(&mut self, v: u8)
        requires
            v <= 0xFF,
        ensures
            final(self).0 == with_field(old(self).0, 0, 8, v),
    {
        self.0 = put_field(self.0, 0, 8, v);
    }
}

/// ISPU_INT1_CTRL (0x50 - 0x53)
///
/// ISPU INT1 configuration registers (R/W)
/// These registers route 30-bit interrupt flags from ISPU_INT_STATUS registers to the INT1 pin.
/// Note: INT1_ISPU must be set to 1 to enable routing.
#[derive(Clone, Copy, PartialEq, Eq, Debug, Structural)]
pub struct IspuInt1Ctrl(pub u32);

impl IspuInt1Ctrl {
    /// Decodes the register from its bytes, least significant first.
    pub fn from_le_bytes(b: [u8; 4]) -> (r: Self)
        ensures
            r.0 == le_u32(b@),
    {
        IspuInt1Ctrl(u32_from_le(b))
    }

    /// Encodes the register as bytes, least significant first.
    pub fn to_le_bytes(self) -> (r: [u8; 4])
        ensures
            le_u32(r@) == self.0,
    {
        u32_to_le(self.0)
    }
}

/// ISPU_INT1_CTRL0 (0x50)
#[derive(Clone, Copy, PartialEq, Eq, Debug, Structural)]
pub struct IspuInt1Ctrl0(pub u8);

impl IspuInt1Ctrl0 {
    /// The register at its raw byte value.
    pub fn from_bits(bits: u8) -> (r: Self)
        ensures
            r.0 == bits,
    {
        IspuInt1Ctrl0(bits)
    }

    /// The raw byte value of the register.
    pub fn into_bits(self) -> (r: u8)
        ensures
            r == self.0,
    {
        self.0
    }

    pub fn ispu_int1_ctrl(&self) -> (r: u8)
        ensures
            r == field_of(self.0, 0, 8),
            r <= 0xFF,
    {
        proof {
            lemma_field_max();
        }
        get_field(self.0, 0, 8)
    }

    pub fn set_ispu_int1_ctrl(&mut self, v: u8)
        requires
            v <= 0xFF,
        ensures
            final(self).0 == with_field(old(self).0, 0, 8, v),
    {
        self.0 = put_field(self.0, 0, 8, v);
    }
}

/// ISPU_INT1_CTRL1 (0x51)
#[derive(Clone, Copy, PartialEq, Eq, Debug, Structural)]
pub struct IspuInt1Ctrl1(pub u8);

impl IspuInt1Ctrl1 {
    /// The register at its raw byte value.
    pub fn from_bits(bits: u8) -> (r: Self)
        ensures
            r.0 == bits,
    {
        IspuInt1Ctrl1(bits)
    }

    /// The raw byte value of the register.
    pub fn into_bits(self) -> (r: u8)
        ensures
            r == self.0,
    {
        self.0
    }

    pub fn ispu_int1_ctrl(&self) -> (r: u8)
        ensures
            r == field_of(self.0, 0, 8),
            r <= 0xFF,
    {
        proof {
            lemma_field_max();
        }
        get_field(self.0, 0, 8)
    }

    pub fn set_ispu_int1_ctrl(&mut self, v: u8)
        requires
            v <= 0xFF,
        ensures
            final(self).0 == with_field(old(self).0, 0, 8, v),
    {
        self.0 = put_field(self.0, 0, 8, v);
    }
}

/// ISPU_INT1_CTRL2 (0x52)
#[derive(Clone, Copy, PartialEq, Eq, Debug, Structural)]
pub struct IspuInt1Ctrl2(pub u8);

impl IspuInt1Ctrl2 {
    /// The register at its raw byte value.
    pub fn from_bits(bits: u8) -> (r: Self)
        ensures
            r.0 == bits,
    {
        IspuInt1Ctrl2(bits)
    }

    /// The raw byte value of the register.
    pub fn into_bits(self) -> (r: u8)
        ensures
            r == self.0,
    {
        self.0
    }

    pub fn ispu_int1_ctrl(&self) -> (r: u8)
        ensures
            r == field_of(self.0, 0, 8),
            r <= 0xFF,
    {
        proof {
            lemma_field_max();
        }
        get_field(self.0, 0, 8)
    }

    pub fn set_ispu_int1_ctrl(&mut self, v: u8)
        requires
            v <= 0xFF,
        ensures
            final(self).0 == with_field(old(self).0, 0, 8, v),
    {
        self.0 = put_field(self.0, 0, 8, v);
    }
}

/// ISPU_INT1_CTRL3 (0x53)
#[derive(Clone, Copy, PartialEq, Eq, Debug, Structural)]
pub struct IspuInt1Ctrl3(pub u8);

impl IspuInt1Ctrl3 {
    /// The register at its raw byte value.
    pub fn from_bits(bits: u8) -> (r: Self)
        ensures
            r.0 == bits,
    {
        IspuInt1Ctrl3(bits)
    }

    /// The raw byte value of the register.
    pub fn into_bits(self) -> (r: u8)
        ensures
            r == self.0,
    {
        self.0
    }

    pub fn ispu_int1_ctrl(&self) -> (r: u8)
        ensures
            r == field_of(self.0, 0, 6),
            r <= 0x3F,
    {
        proof {
            lemma_field_max();
        }
        get_field(self.0, 0, 6)
    }

    pub fn set_ispu_int1_ctrl(&mut self, v: u8)
        requires
            v <= 0x3F,
        ensures
            final(self).0 == with_field(old(self).0, 0, 6, v),
    {
        self.0 = put_field(self.0, 0, 6, v);
    }
}

/// ISPU_INT2_CTRL (0x54 - 0x57)
///
/// ISPU INT2 configuration registers (R/W)
/// These registers route 30-bit interrupt flags from ISPU_INT_STATUS registers to the INT2 pin.
/// Note: INT2_ISPU must be set to 1 to enable routing.
#[derive(Clone, Copy, PartialEq, Eq, Debug, Structural)]
pub struct IspuInt2Ctrl(pub u32);

impl IspuInt2Ctrl {
    /// Decodes the register from its bytes, least significant first.
    pub fn from_le_bytes(b: [u8; 4]) -> (r: Self)
        ensures
            r.0 == le_u32(b@),
    {
        IspuInt2Ctrl(u32_from_le(b))
    }

    /// Encodes the register as bytes, least significant first.
    pub fn to_le_bytes(self) -> (r: [u8; 4])
        ensures
            le_u32(r@) == self.0,
    {
        u32_to_le(self.0)
    }
}

/// ISPU_INT2_CTRL0 (0x54)
#[derive(Clone, Copy, PartialEq, Eq, Debug, Structural)]
pub struct IspuInt2Ctrl0(pub u8);

impl IspuInt2Ctrl0 {
    /// The register at its raw byte value.
    pub fn from_bits(bits: u8) -> (r: Self)
        ensures
            r.0 == bits,
    {
        IspuInt2Ctrl0(bits)
    }

    /// The raw byte value of the register.
    pub fn into_bits(self) -> (r: u8)
        ensures
            r == self.0,
    {
        self.0
    }

    pub fn ispu_int2_ctrl(&self) -> (r: u8)
        ensures
            r == field_of(self.0, 0, 8),
            r <= 0xFF,
    {
        proof {
            lemma_field_max();
        }
        get_field(self.0, 0, 8)
    }

    pub fn set_ispu_int2_ctrl(&mut self, v: u8)
        requires
            v <= 0xFF,
        ensures
            final(self).0 == with_field(old(self).0, 0, 8, v),
    {
        self.0 = put_field(self.0, 0, 8, v);
    }
}

/// ISPU_INT2_CTRL1 (0x55)
#[derive(Clone, Copy, PartialEq, Eq, Debug, Structural)]
pub struct IspuInt2Ctrl1(pub u8);

impl IspuInt2Ctrl1 {
    /// The register at its raw byte value.
    pub fn from_bits(bits: u8) -> (r: Self)
        ensures
            r.0 == bits,
    {
        IspuInt2Ctrl1(bits)
    }

    /// The raw byte value of the register.
    pub fn into_bits(self) -> (r: u8)
        ensures
            r == self.0,
    {
        self.0
    }

    pub fn ispu_int2_ctrl(&self) -> (r: u8)
        ensures
            r == field_of(self.0, 0, 8),
            r <= 0xFF,
    {
        proof {
            lemma_field_max();
        }
        get_field(self.0, 0, 8)
    }

    pub fn set_ispu_int2_ctrl(&mut self, v: u8)
        requires
            v <= 0xFF,
        ensures
            final(self).0 == with_field(old(self).0, 0, 8, v),
    {
        self.0 = put_field(self.0, 0, 8, v);
    }
}

/// ISPU_INT2_CTRL2 (0x56)
#[derive(Clone, Copy, PartialEq, Eq, Debug, Structural)]
pub struct IspuInt2Ctrl2(pub u8);

impl IspuInt2Ctrl2 {
    /// The register at its raw byte value.
    pub fn from_bits(bits: u8) -> (r: Self)
        ensures
            r.0 == bits,
    {
        IspuInt2Ctrl2(bits)
    }

    /// The raw byte value of the register.
    pub fn into_bits(self) -> (r: u8)
        ensures
            r == self.0,
    {
        self.0
    }

    pub fn ispu_int2_ctrl(&self) -> (r: u8)
        ensures
            r == field_of(self.0, 0, 8),
            r <= 0xFF,
    {
        proof {
            lemma_field_max();
        }
        get_field(self.0, 0, 8)
    }

    pub fn set_ispu_int2_ctrl(&mut self, v: u8)
        requires
            v <= 0xFF,
        ensures
            final(self).0 == with_field(old(self).0, 0, 8, v),
    {
        self.0 = put_field(self.0, 0, 8, v);
    }
}

/// ISPU_INT2_CTRL3 (0x57)
#[derive(Clone, Copy, PartialEq, Eq, Debug, Structural)]
pub struct IspuInt2Ctrl3(pub u8);

impl IspuInt2Ctrl3 {
    /// The register at its raw byte value.
    pub fn from_bits(bits: u8) -> (r: Self)
        ensures
            r.0 == bits,
    {
        IspuInt2Ctrl3(bits)
    }

    /// The raw byte value of the register.
    pub fn into_bits(self) -> (r: u8)
        ensures
            r == self.0,
    {
        self.0
    }

    pub fn ispu_int2_ctrl(&self) -> (r: u8)
        ensures
            r == field_of(self.0, 0, 6),
            r <= 0x3F,
    {
        proof {
            lemma_field_max();
        }
        get_field(self.0, 0, 6)
    }

    pub fn set_ispu_int2_ctrl(&mut self, v: u8)
        requires
            v <= 0x3F,
        ensures
            final(self).0 == with_field(old(self).0, 0, 6, v),
    {
        self.0 = put_field(self.0, 0, 6, v);
    }
}

/// ISPU_INT_STATUS (0x58 - 0x5B)
///
/// ISPU interrupt status registers (R)
/// Each register contains 8 bits of the 30-bit interrupt flags from ISPU.
#[derive(Clone, Copy, PartialEq, Eq, Debug, Structural)]
pub struct IspuIntStatus(pub u32);

impl IspuIntStatus {
    /// Decodes the register from its bytes, least significant first.
    pub fn from_le_bytes(b: [u8; 4]) -> (r: Self)
        ensures
            r.0 == le_u32(b@),
    {
        IspuIntStatus(u32_from_le(b))
    }

    /// Encodes the register as bytes, least significant first.
    pub fn to_le_bytes(self) -> (r: [u8; 4])
        ensures
            le_u32(r@) == self.0,
    {
        u32_to_le(self.0)
    }
}

/// ISPU_INT_STATUS0 (0x58)
#[derive(Clone, Copy, PartialEq, Eq, Debug, Structural)]
pub struct IspuIntStatus0(pub u8);

impl IspuIntStatus0 {
    /// The register at its raw byte value.
    pub fn from_bits(bits: u8) -> (r: Self)
        ensures
            r.0 == bits,
    {
        IspuIntStatus0(bits)
    }

    /// The raw byte value of the register.
    pub fn into_bits(self) -> (r: u8)
        ensures
            r == self.0,
    {
        self.0
    }

    pub fn ispu_int_status(&self) -> (r: u8)
        ensures
            r == field_of(self.0, 0, 8),
            r <= 0xFF,
    {
        proof {
            lemma_field_max();
        }
        get_field(self.0, 0, 8)
    }

    pub fn set_ispu_int_status(&mut self, v: u8)
        requires
            v <= 0xFF,
        ensures
            final(self).0 == with_field(old(self).0, 0, 8, v),
    {
        self.0 = put_field(self.0, 0, 8, v);
    }
}

/// ISPU_INT_STATUS1 (0x59)
#[derive(Clone, Copy, PartialEq, Eq, Debug, Structural)]
pub struct IspuIntStatus1(pub u8);

impl IspuIntStatus1 {
    /// The register at its raw byte value.
    pub fn from_bits(bits: u8) -> (r: Self)
        ensures
            r.0 == bits,
    {
        IspuIntStatus1(bits)
    }

    /// The raw byte value of the register.
    pub fn into_bits(self) -> (r: u8)
        ensures
            r == self.0,
    {
        self.0
    }

    pub fn ispu_int_status(&self) -> (r: u8)
        ensures
            r == field_of(self.0, 0, 8),
            r <= 0xFF,
    {
        proof {
            lemma_field_max();
        }
        get_field(self.0, 0, 8)
    }

    pub fn set_ispu_int_status(&mut self, v: u8)
        requires
            v <= 0xFF,
        ensures
            final(self).0 == with_field(old(self).0, 0, 8, v),
    {
        self.0 = put_field(self.0, 0, 8, v);
    }
}

/// ISPU_INT_STATUS2 (0x5A)
#[derive(Clone, Copy, PartialEq, Eq, Debug, Structural)]
pub struct IspuIntStatus2(pub u8);

impl IspuIntStatus2 {
    /// The register at its raw byte value.
    pub fn from_bits(bits: u8) -> (r: Self)
        ensures
            r.0 == bits,
    {
        IspuIntStatus2(bits)
    }

    /// The raw byte value of the register.
    pub fn into_bits(self) -> (r: u8)
        ensures
            r == self.0,
    {
        self.0
    }

    pub fn ispu_int_status(&self) -> (r: u8)
        ensures
            r == field_of(self.0, 0, 8),
            r <= 0xFF,
    {
        proof {
            lemma_field_max();
        }
        get_field(self.0, 0, 8)
    }

    pub fn set_ispu_int_status(&mut self, v: u8)
        requires
            v <= 0xFF,
        ensures
            final(self).0 == with_field(old(self).0, 0, 8, v),
    {
        self.0 = put_field(self.0, 0, 8, v);
    }
}

/// ISPU_INT_STATUS3 (0x5B)
#[derive(Clone, Copy, PartialEq, Eq, Debug, Structural)]
pub struct IspuIntStatus3(pub u8);

impl IspuIntStatus3 {
    /// The register at its raw byte value.
    pub fn from_bits(bits: u8) -> (r: Self)
        ensures
            r.0 == bits,
    {
        IspuIntStatus3(bits)
    }

    /// The raw byte value of the register.
    pub fn into_bits(self) -> (r: u8)
        ensures
            r == self.0,
    {
        self.0
    }

    pub fn ispu_int_status(&self) -> (r: u8)
        ensures
            r == field_of(self.0, 0, 6),
            r <= 0x3F,
    {
        proof {
            lemma_field_max();
        }
        get_field(self.0, 0, 6)
    }

    pub fn set_ispu_int_status(&mut self, v: u8)
        requires
            v <= 0x3F,
        ensures
            final(self).0 == with_field(old(self).0, 0, 6, v),
    {
        self.0 = put_field(self.0, 0, 6, v);
    }
}

/// ISPU_ALGO (0x70 - 0x73)
///
/// ISPU algorithm enable registers (R/W)
/// Enable configurations to run up to 30 independent algorithms.
/// Each bit corresponds to an algorithm; setting bit i=1 generates IRQ for ISPU_ALGO_(i-1).
/// Bit remains set until algorithm routine completes.
#[derive(Clone, Copy, PartialEq, Eq, Debug, Structural)]
pub struct IspuAlgo(pub u32);

impl IspuAlgo {
    /// Decodes the register from its bytes, least significant first.
    pub fn from_le_bytes(b: [u8; 4]) -> (r: Self)
        ensures
            r.0 == le_u32(b@),
    {
        IspuAlgo(u32_from_le(b))
    }

    /// Encodes the register as bytes, least significant first.
    pub fn to_le_bytes(self) -> (r: [u8; 4])
        ensures
            le_u32(r@) == self.0,
    {
        u32_to_le(self.0)
    }
}

/// ISPU boot latched mode
///
/// Controls ISPU boot latched mode.
#[derive(Clone, Copy, PartialEq, Eq, Debug, Structural)]
pub enum IspuBootLatched {
    /// ISPU boot latched mode enabled
    On,
    /// ISPU boot latched mode disabled
    Off,
}

impl IspuBootLatched {
    /// The code that selects this value in its register field.
    pub open spec fn spec_bits(self) -> u8 {
        match self {
            IspuBootLatched::On => 0x00,
            IspuBootLatched::Off => 0x01,
        }
    }

    /// The value that a register code stands for, if any.
    pub open spec fn spec_try_from_bits(v: u8) -> Option<IspuBootLatched> {
        if v == 0x00 {
            Some(IspuBootLatched::On)
        }         else if v == 0x01 {
            Some(IspuBootLatched::Off)
        } else {
            None
        }
    }

    /// The code that selects this value in its register field.
    pub fn bits(self) -> (r: u8)
        ensures
            r == self.spec_bits(),
            Self::spec_try_from_bits(r) == Some(self),
    {
        match self {
            IspuBootLatched::On => 0x00,
            IspuBootLatched::Off => 0x01,
        }
    }

    /// Decodes a register code; `None` for a code that names no value.
    pub fn try_from_bits(v: u8) -> (r: Option<IspuBootLatched>)
        ensures
            r == Self::spec_try_from_bits(v),
            r matches Some(x) ==> x.spec_bits() == v,
    {
        if v == 0x00 {
            Some(IspuBootLatched::On)
        } else if v == 0x01 {
            Some(IspuBootLatched::Off)
        } else {
            None
        }
    }
}

/// ISPU interrupt latched mode
///
/// Configures ISPU interrupt generation mode.
#[derive(Clone, Copy, PartialEq, Eq, Debug, Structural)]
pub enum IspuInterrupt {
    /// ISPU interrupt pulsed mode (default)
    Pulsed,
    /// ISPU interrupt latched mode
    Latched,
}

impl IspuInterrupt {
    /// The code that selects this value in its register field.
    pub open spec fn spec_bits(self) -> u8 {
        match self {
            IspuInterrupt::Pulsed => 0x00,
            IspuInterrupt::Latched => 0x01,
        }
    }

    /// The value that a register code stands for, if any.
    pub open spec fn spec_try_from_bits(v: u8) -> Option<IspuInterrupt> {
        if v == 0x00 {
            Some(IspuInterrupt::Pulsed)
        }         else if v == 0x01 {
            Some(IspuInterrupt::Latched)
        } else {
            None
        }
    }

    /// The code that selects this value in its register field.
    pub fn bits(self) -> (r: u8)
        ensures
            r == self.spec_bits(),
            Self::spec_try_from_bits(r) == Some(self),
    {
        match self {
            IspuInterrupt::Pulsed => 0x00,
            IspuInterrupt::Latched => 0x01,
        }
    }

    /// Decodes a register code; `None` for a code that names no value.
    pub fn try_from_bits(v: u8) -> (r: Option<IspuInterrupt>)
        ensures
            r == Self::spec_try_from_bits(v),
            r matches Some(x) ==> x.spec_bits() == v,
    {
        if v == 0x00 {
            Some(IspuInterrupt::Pulsed)
        } else if v == 0x01 {
            Some(IspuInterrupt::Latched)
        } else {
            None
        }
    }

    /// The value a register code decodes to, with `Pulsed` for a code that names no value.
    pub open spec fn spec_from_bits_or_default(v: u8) -> IspuInterrupt {
        match Self::spec_try_from_bits(v) {
            Some(x) => x,
            None => IspuInterrupt::Pulsed,
        }
    }

    /// Decodes a register code, with `Pulsed` for a code that names no value.
    pub fn from_bits_or_default(v: u8) -> (r: IspuInterrupt)
        ensures
            r == Self::spec_from_bits_or_default(v),
    {
        match Self::try_from_bits(v) {
            Some(x) => x,
            None => IspuInterrupt::Pulsed,
        }
    }
}

/// ISPU boot status
///
/// Indicates the end of ISPU boot procedure.
#[derive(Clone, Copy, PartialEq, Eq, Debug, Structural)]
pub enum IspuBootStatus {
    /// ISPU boot in progress (default)
    InProgress,
    /// ISPU boot ended
    Ended,
}

impl IspuBootStatus {
    /// The code that selects this value in its register field.
    pub open spec fn spec_bits(self) -> u8 {
        match self {
            IspuBootStatus::InProgress => 0x00,
            IspuBootStatus::Ended => 0x01,
        }
    }

    /// The value that a register code stands for, if any.
    pub open spec fn spec_try_from_bits(v: u8) -> Option<IspuBootStatus> {
        if v == 0x00 {
            Some(IspuBootStatus::InProgress)
        }         else if v == 0x01 {
            Some(IspuBootStatus::Ended)
        } else {
            None
        }
    }

    /// The code that selects this value in its register field.
    pub fn bits(self) -> (r: u8)
        ensures
            r == self.spec_bits(),
            Self::spec_try_from_bits(r) == Some(self),
    {
        match self {
            IspuBootStatus::InProgress => 0x00,
            IspuBootStatus::Ended => 0x01,
        }
    }

    /// Decodes a register code; `None` for a code that names no value.
    pub fn try_from_bits(v: u8) -> (r: Option<IspuBootStatus>)
        ensures
            r == Self::spec_try_from_bits(v),
            r matches Some(x) ==> x.spec_bits() == v,
    {
        if v == 0x00 {
            Some(IspuBootStatus::InProgress)
        } else if v == 0x01 {
            Some(IspuBootStatus::Ended)
        } else {
            None
        }
    }

    /// The value a register code decodes to, with `InProgress` for a code that names no value.
    pub open spec fn spec_from_bits_or_default(v: u8) -> IspuBootStatus {
        match Self::spec_try_from_bits(v) {
            Some(x) => x,
            None => IspuBootStatus::InProgress,
        }
    }

    /// Decodes a register code, with `InProgress` for a code that names no value.
    pub fn from_bits_or_default(v: u8) -> (r: IspuBootStatus)
        ensures
            r == Self::spec_from_bits_or_default(v),
    {
        match Self::try_from_bits(v) {
            Some(x) => x,
            None => IspuBootStatus::InProgress,
        }
    }
}

/// ISPU memory type selection
///
/// Selects ISPU memory type for access.
#[derive(Clone, Copy, PartialEq, Eq, Debug, Structural)]
pub enum IspuMemoryType {
    /// Data RAM memory selected
    DataRamMemory,
    /// Program RAM memory selected
    ProgramRamMemory,
}

impl IspuMemoryType {
    /// The code that selects this value in its register field.
    pub open spec fn spec_bits(self) -> u8 {
        match self {
            IspuMemoryType::DataRamMemory => 0x00,
            IspuMemoryType::ProgramRamMemory => 0x01,
        }
    }

    /// The value that a register code stands for, if any.
    pub open spec fn spec_try_from_bits(v: u8) -> Option<IspuMemoryType> {
        if v == 0x00 {
            Some(IspuMemoryType::DataRamMemory)
        }         else if v == 0x01 {
            Some(IspuMemoryType::ProgramRamMemory)
        } else {
            None
        }
    }

    /// The code that selects this value in its register field.
    pub fn bits(self) -> (r: u8)
        ensures
            r == self.spec_bits(),
            Self::spec_try_from_bits(r) == Some(self),
    {
        match self {
            IspuMemoryType::DataRamMemory => 0x00,
            IspuMemoryType::ProgramRamMemory => 0x01,
        }
    }

    /// Decodes a register code; `None` for a code that names no value.
    pub fn try_from_bits(v: u8) -> (r: Option<IspuMemoryType>)
        ensures
            r == Self::spec_try_from_bits(v),
            r matches Some(x) ==> x.spec_bits() == v,
    {
        if v == 0x00 {
            Some(IspuMemoryType::DataRamMemory)
        } else if v == 0x01 {
            Some(IspuMemoryType::ProgramRamMemory)
        } else {
            None
        }
    }
}
} // verus!
