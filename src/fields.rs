//! Accessors of single register fields.
use crate::bits::field_of;
use crate::bus::{BusOperation, DelayNs};
use crate::driver::{banked_byte_read, banked_field_updated, byte_at, field_updated, reads_byte, Error, Lsm6dso16is};
use crate::register::ispu::{IspuBootStatus, IspuConfig, IspuInterrupt, IspuReg, IspuStatus};
use crate::register::main::{Ctrl10C, Ctrl1Xl, Ctrl3C, Ctrl4C, Ctrl5C, Ctrl6C, Ctrl7G, Ctrl9C, DataReadyMode, DrdyPulsedReg, FuncCfgAccess, GySelfTest, HighPerformanceMode, IntPinMode, InternalFreqFine, IspuBdu, IspuClockSel, IspuDataRate, PinCtrl, PinPolarity, Reg, Sleep, SpiMode, StatusReg, UiI2cMode, XlFullScale, XlSelfTest};
use crate::register::sensor_hub::{MasterConfig, SensHubReg, ShDataRate, ShSlaveConnected, ShSyncroMode, ShWriteMode, Slv0Config};
use crate::register::MemBank;
use vstd::prelude::*;

verus! {

impl<B: BusOperation, T: DelayNs> Lsm6dso16is<B, T> {
    /// Sets the difference in percentage of the effective ODR (and timestamp rate)
    /// with respect to the typical. Step: 0.15%. 8-bit format, 2's complement.
    pub fn odr_cal_reg_set(&mut self, val: u8) -> (r: Result<(), Error<B::Error>>)
        ensures
            field_updated(old(self).bus.trace(), final(self).bus.trace(), 0x63, 0, 8, val, r is Ok),
            r matches Err(e) ==> e is Bus,
    {
        self.update_field(Reg::InternalFreqFine.addr(), 0, 8, val)
    }

    /// Gets the difference in percentage of the effective ODR (and timestamp rate)
    /// with respect to the typical. Step: 0.15%. 8-bit format, 2's complement.
    pub fn odr_cal_reg_get(&mut self) -> (r: Result<u8, Error<B::Error>>)
        ensures
            reads_byte(old(self).bus.trace(), final(self).bus.trace(), 0x63, byte_at(old(self).bus.trace(), final(self).bus.trace(), 0), r is Ok),
            r matches Ok(x) ==> x == field_of(byte_at(old(self).bus.trace(), final(self).bus.trace(), 0), 0, 8),
            r matches Err(e) ==> e is Bus,
    {
        let v = self.read_byte(Reg::InternalFreqFine.addr())?;
        let reg = InternalFreqFine::from_bits(v);
        Ok(reg.freq_fine())
    }

    /// Enables pulsed data-ready mode: Latched/Pulsed(~75 us).
    pub fn data_ready_mode_set(&mut self, val: DataReadyMode) -> (r: Result<(), Error<B::Error>>)
        ensures
            field_updated(old(self).bus.trace(), final(self).bus.trace(), 0x0B, 7, 1, val.spec_bits(), r is Ok),
            r matches Err(e) ==> e is Bus,
    {
        self.update_field(Reg::DrdyPulsedReg.addr(), 7, 1, val.bits())
    }

    /// Gets the actual setting of data-ready mode: Latched/Pulsed(~75 us).
    pub fn data_ready_mode_get(&mut self) -> (r: Result<DataReadyMode, Error<B::Error>>)
        ensures
            reads_byte(old(self).bus.trace(), final(self).bus.trace(), 0x0B, byte_at(old(self).bus.trace(), final(self).bus.trace(), 0), r is Ok),
            r matches Ok(x) ==> x == DataReadyMode::spec_from_bits_or_default(field_of(byte_at(old(self).bus.trace(), final(self).bus.trace(), 0), 7, 1)),
            r matches Err(e) ==> e is Bus,
    {
        let v = self.read_byte(Reg::DrdyPulsedReg.addr())?;
        let reg = DrdyPulsedReg::from_bits(v);
        Ok(DataReadyMode::from_bits_or_default(reg.drdy_pulsed()))
    }

    /// Reboots memory content: reloads the calibration parameters when `val` is 1.
    pub fn boot_set(&mut self, val: u8) -> (r: Result<(), Error<B::Error>>)
        ensures
            field_updated(old(self).bus.trace(), final(self).bus.trace(), 0x12, 7, 1, val, r is Ok),
            r matches Err(e) ==> e is Bus,
    {
        self.update_field(Reg::Ctrl3C.addr(), 7, 1, val)
    }

    /// Gets the value of boot.
    pub fn boot_get(&mut self) -> (r: Result<u8, Error<B::Error>>)
        ensures
            reads_byte(old(self).bus.trace(), final(self).bus.trace(), 0x12, byte_at(old(self).bus.trace(), final(self).bus.trace(), 0), r is Ok),
            r matches Ok(x) ==> x == field_of(byte_at(old(self).bus.trace(), final(self).bus.trace(), 0), 7, 1),
            r matches Err(e) ==> e is Bus,
    {
        let v = self.read_byte(Reg::Ctrl3C.addr())?;
        let reg = Ctrl3C::from_bits(v);
        Ok(reg.boot())
    }

    /// Enables or disables accelerometer high-performance mode.
    pub fn xl_hm_mode_set(&mut self, val: HighPerformanceMode) -> (r: Result<(), Error<B::Error>>)
        ensures
            field_updated(old(self).bus.trace(), final(self).bus.trace(), 0x15, 4, 1, val.spec_bits(), r is Ok),
            r matches Err(e) ==> e is Bus,
    {
        self.update_field(Reg::Ctrl6C.addr(), 4, 1, val.bits())
    }

    /// Gets the current accelerometer high-performance mode.
    pub fn xl_hm_mode_get(&mut self) -> (r: Result<HighPerformanceMode, Error<B::Error>>)
        ensures
            reads_byte(old(self).bus.trace(), final(self).bus.trace(), 0x15, byte_at(old(self).bus.trace(), final(self).bus.trace(), 0), r is Ok),
            r matches Ok(x) ==> x == HighPerformanceMode::spec_from_bits_or_default(field_of(byte_at(old(self).bus.trace(), final(self).bus.trace(), 0), 4, 1)),
            r matches Err(e) ==> e is Bus,
    {
        let v = self.read_byte(Reg::Ctrl6C.addr())?;
        let reg = Ctrl6C::from_bits(v);
        Ok(HighPerformanceMode::from_bits_or_default(reg.xl_hm_mode()))
    }

    /// Sets the accelerometer full-scale.
    pub fn xl_full_scale_set(&mut self, val: XlFullScale) -> (r: Result<(), Error<B::Error>>)
        ensures
            field_updated(old(self).bus.trace(), final(self).bus.trace(), 0x10, 2, 2, val.spec_bits(), r is Ok),
            r matches Err(e) ==> e is Bus,
    {
        self.update_field(Reg::Ctrl1Xl.addr(), 2, 2, val.bits())
    }

    /// Gets the current accelerometer full-scale configuration.
    pub fn xl_full_scale_get(&mut self) -> (r: Result<XlFullScale, Error<B::Error>>)
        ensures
            reads_byte(old(self).bus.trace(), final(self).bus.trace(), 0x10, byte_at(old(self).bus.trace(), final(self).bus.trace(), 0), r is Ok),
            r matches Ok(x) ==> x == XlFullScale::spec_from_bits_or_default(field_of(byte_at(old(self).bus.trace(), final(self).bus.trace(), 0), 2, 2)),
            r matches Err(e) ==> e is Bus,
    {
        let v = self.read_byte(Reg::Ctrl1Xl.addr())?;
        let reg = Ctrl1Xl::from_bits(v);
        Ok(XlFullScale::from_bits_or_default(reg.fs_xl()))
    }

    /// Enables or disables gyroscope high-performance mode.
    pub fn gy_hm_mode_set(&mut self, val: HighPerformanceMode) -> (r: Result<(), Error<B::Error>>)
        ensures
            field_updated(old(self).bus.trace(), final(self).bus.trace(), 0x16, 7, 1, val.spec_bits(), r is Ok),
            r matches Err(e) ==> e is Bus,
    {
        self.update_field(Reg::Ctrl7G.addr(), 7, 1, val.bits())
    }

    /// Gets the gyroscope high-performance mode.
    pub fn gy_hm_mode_get(&mut self) -> (r: Result<HighPerformanceMode, Error<B::Error>>)
        ensures
            reads_byte(old(self).bus.trace(), final(self).bus.trace(), 0x16, byte_at(old(self).bus.trace(), final(self).bus.trace(), 0), r is Ok),
            r matches Ok(x) ==> x == HighPerformanceMode::spec_from_bits_or_default(field_of(byte_at(old(self).bus.trace(), final(self).bus.trace(), 0), 7, 1)),
            r matches Err(e) ==> e is Bus,
    {
        let v = self.read_byte(Reg::Ctrl7G.addr())?;
        let reg = Ctrl7G::from_bits(v);
        Ok(HighPerformanceMode::from_bits_or_default(reg.g_hm_mode()))
    }

    /// Enables/disables the automatic increment of the register address during a
    /// multiple byte access with a serial interface (enabled by default).
    pub fn auto_increment_set(&mut self, val: u8) -> (r: Result<(), Error<B::Error>>)
        ensures
            field_updated(old(self).bus.trace(), final(self).bus.trace(), 0x12, 2, 1, val, r is Ok),
            r matches Err(e) ==> e is Bus,
    {
        self.update_field(Reg::Ctrl3C.addr(), 2, 1, val)
    }

    /// Gets the current value of the register address auto increment.
    pub fn auto_increment_get(&mut self) -> (r: Result<u8, Error<B::Error>>)
        ensures
            reads_byte(old(self).bus.trace(), final(self).bus.trace(), 0x12, byte_at(old(self).bus.trace(), final(self).bus.trace(), 0), r is Ok),
            r matches Ok(x) ==> x == field_of(byte_at(old(self).bus.trace(), final(self).bus.trace(), 0), 2, 1),
            r matches Err(e) ==> e is Bus,
    {
        let v = self.read_byte(Reg::Ctrl3C.addr())?;
        let reg = Ctrl3C::from_bits(v);
        Ok(reg.if_inc())
    }

    /// Enables/disables Block Data Update (output registers are not updated until
    /// LSB and MSB have been read).
    pub fn block_data_update_set(&mut self, val: u8) -> (r: Result<(), Error<B::Error>>)
        ensures
            field_updated(old(self).bus.trace(), final(self).bus.trace(), 0x12, 6, 1, val, r is Ok),
            r matches Err(e) ==> e is Bus,
    {
        self.update_field(Reg::Ctrl3C.addr(), 6, 1, val)
    }

    /// Gets the actual Block Data Update (BDU) configuration.
    pub fn block_data_update_get(&mut self) -> (r: Result<u8, Error<B::Error>>)
        ensures
            reads_byte(old(self).bus.trace(), final(self).bus.trace(), 0x12, byte_at(old(self).bus.trace(), final(self).bus.trace(), 0), r is Ok),
            r matches Ok(x) ==> x == field_of(byte_at(old(self).bus.trace(), final(self).bus.trace(), 0), 6, 1),
            r matches Err(e) ==> e is Bus,
    {
        let v = self.read_byte(Reg::Ctrl3C.addr())?;
        let reg = Ctrl3C::from_bits(v);
        Ok(reg.bdu())
    }

    /// Enables/disables gyroscope sleep mode.
    pub fn sleep_set(&mut self, val: Sleep) -> (r: Result<(), Error<B::Error>>)
        ensures
            field_updated(old(self).bus.trace(), final(self).bus.trace(), 0x13, 6, 1, val.spec_bits(), r is Ok),
            r matches Err(e) ==> e is Bus,
    {
        self.update_field(Reg::Ctrl4C.addr(), 6, 1, val.bits())
    }

    /// Gets the actual gyroscope sleep mode.
    pub fn sleep_get(&mut self) -> (r: Result<Sleep, Error<B::Error>>)
        ensures
            reads_byte(old(self).bus.trace(), final(self).bus.trace(), 0x13, byte_at(old(self).bus.trace(), final(self).bus.trace(), 0), r is Ok),
            r matches Ok(x) ==> x == Sleep::spec_from_bits_or_default(field_of(byte_at(old(self).bus.trace(), final(self).bus.trace(), 0), 6, 1)),
            r matches Err(e) ==> e is Bus,
    {
        let v = self.read_byte(Reg::Ctrl4C.addr())?;
        let reg = Ctrl4C::from_bits(v);
        Ok(Sleep::from_bits_or_default(reg.sleep_g()))
    }

    /// Sets accelerometer self-test mode.
    pub fn xl_self_test_set(&mut self, val: XlSelfTest) -> (r: Result<(), Error<B::Error>>)
        ensures
            field_updated(old(self).bus.trace(), final(self).bus.trace(), 0x14, 0, 2, val.spec_bits(), r is Ok),
            r matches Err(e) ==> e is Bus,
    {
        self.update_field(Reg::Ctrl5C.addr(), 0, 2, val.bits())
    }

    /// Gets the actual accelerometer self-test mode.
    pub fn xl_self_test_get(&mut self) -> (r: Result<XlSelfTest, Error<B::Error>>)
        ensures
            reads_byte(old(self).bus.trace(), final(self).bus.trace(), 0x14, byte_at(old(self).bus.trace(), final(self).bus.trace(), 0), r is Ok),
            r matches Ok(x) ==> x == XlSelfTest::spec_from_bits_or_default(field_of(byte_at(old(self).bus.trace(), final(self).bus.trace(), 0), 0, 2)),
            r matches Err(e) ==> e is Bus,
    {
        let v = self.read_byte(Reg::Ctrl5C.addr())?;
        let reg = Ctrl5C::from_bits(v);
        Ok(XlSelfTest::from_bits_or_default(reg.st_xl()))
    }

    /// Sets the gyroscope self-test mode.
    pub fn gy_self_test_set(&mut self, val: GySelfTest) -> (r: Result<(), Error<B::Error>>)
        ensures
            field_updated(old(self).bus.trace(), final(self).bus.trace(), 0x14, 2, 2, val.spec_bits(), r is Ok),
            r matches Err(e) ==> e is Bus,
    {
        self.update_field(Reg::Ctrl5C.addr(), 2, 2, val.bits())
    }

    /// Gets the gyroscope self-test mode.
    pub fn gy_self_test_get(&mut self) -> (r: Result<GySelfTest, Error<B::Error>>)
        ensures
            reads_byte(old(self).bus.trace(), final(self).bus.trace(), 0x14, byte_at(old(self).bus.trace(), final(self).bus.trace(), 0), r is Ok),
            r matches Ok(x) ==> x == GySelfTest::spec_from_bits_or_default(field_of(byte_at(old(self).bus.trace(), final(self).bus.trace(), 0), 2, 2)),
            r matches Err(e) ==> e is Bus,
    {
        let v = self.read_byte(Reg::Ctrl5C.addr())?;
        let reg = Ctrl5C::from_bits(v);
        Ok(GySelfTest::from_bits_or_default(reg.st_g()))
    }

    /// Enables/disables pull-up on SDO pin of UI (User Interface).
    pub fn ui_sdo_pull_up_set(&mut self, val: u8) -> (r: Result<(), Error<B::Error>>)
        ensures
            field_updated(old(self).bus.trace(), final(self).bus.trace(), 0x02, 6, 1, val, r is Ok),
            r matches Err(e) ==> e is Bus,
    {
        self.update_field(Reg::PinCtrl.addr(), 6, 1, val)
    }

    /// Gets the sdo_pu bit: pull-up on SDO pin of UI (User Interface).
    pub fn ui_sdo_pull_up_get(&mut self) -> (r: Result<u8, Error<B::Error>>)
        ensures
            reads_byte(old(self).bus.trace(), final(self).bus.trace(), 0x02, byte_at(old(self).bus.trace(), final(self).bus.trace(), 0), r is Ok),
            r matches Ok(x) ==> x == field_of(byte_at(old(self).bus.trace(), final(self).bus.trace(), 0), 6, 1),
            r matches Err(e) ==> e is Bus,
    {
        let v = self.read_byte(Reg::PinCtrl.addr())?;
        let reg = PinCtrl::from_bits(v);
        Ok(reg.sdo_pu_en())
    }

    /// Sets the SPI Serial Interface Mode.
    pub fn spi_mode_set(&mut self, val: SpiMode) -> (r: Result<(), Error<B::Error>>)
        ensures
            field_updated(old(self).bus.trace(), final(self).bus.trace(), 0x12, 3, 1, val.spec_bits(), r is Ok),
            r matches Err(e) ==> e is Bus,
    {
        self.update_field(Reg::Ctrl3C.addr(), 3, 1, val.bits())
    }

    /// Gets the actual SPI Serial Interface Mode.
    pub fn spi_mode_get(&mut self) -> (r: Result<SpiMode, Error<B::Error>>)
        ensures
            reads_byte(old(self).bus.trace(), final(self).bus.trace(), 0x12, byte_at(old(self).bus.trace(), final(self).bus.trace(), 0), r is Ok),
            r matches Ok(x) ==> x == SpiMode::spec_from_bits_or_default(field_of(byte_at(old(self).bus.trace(), final(self).bus.trace(), 0), 3, 1)),
            r matches Err(e) ==> e is Bus,
    {
        let v = self.read_byte(Reg::Ctrl3C.addr())?;
        let reg = Ctrl3C::from_bits(v);
        Ok(SpiMode::from_bits_or_default(reg.sim()))
    }

    /// Enables/disables I2C on UI (User Interface).
    pub fn ui_i2c_mode_set(&mut self, val: UiI2cMode) -> (r: Result<(), Error<B::Error>>)
        ensures
            field_updated(old(self).bus.trace(), final(self).bus.trace(), 0x13, 2, 1, val.spec_bits(), r is Ok),
            r matches Err(e) ==> e is Bus,
    {
        self.update_field(Reg::Ctrl4C.addr(), 2, 1, val.bits())
    }

    /// Returns the state (enable/disable) of I2C on UI (User Interface).
    pub fn ui_i2c_mode_get(&mut self) -> (r: Result<UiI2cMode, Error<B::Error>>)
        ensures
            reads_byte(old(self).bus.trace(), final(self).bus.trace(), 0x13, byte_at(old(self).bus.trace(), final(self).bus.trace(), 0), r is Ok),
            r matches Ok(x) ==> x == UiI2cMode::spec_from_bits_or_default(field_of(byte_at(old(self).bus.trace(), final(self).bus.trace(), 0), 2, 1)),
            r matches Err(e) ==> e is Bus,
    {
        let v = self.read_byte(Reg::Ctrl4C.addr())?;
        let reg = Ctrl4C::from_bits(v);
        Ok(UiI2cMode::from_bits_or_default(reg.i2c_disable()))
    }

    /// Enables/disables the timestamp counter.
    pub fn timestamp_set(&mut self, val: u8) -> (r: Result<(), Error<B::Error>>)
        ensures
            field_updated(old(self).bus.trace(), final(self).bus.trace(), 0x19, 5, 1, val, r is Ok),
            r matches Err(e) ==> e is Bus,
    {
        self.update_field(Reg::Ctrl10C.addr(), 5, 1, val)
    }

    /// Gets the state (enable/disable) of the timestamp counter.
    pub fn timestamp_get(&mut self) -> (r: Result<u8, Error<B::Error>>)
        ensures
            reads_byte(old(self).bus.trace(), final(self).bus.trace(), 0x19, byte_at(old(self).bus.trace(), final(self).bus.trace(), 0), r is Ok),
            r matches Ok(x) ==> x == field_of(byte_at(old(self).bus.trace(), final(self).bus.trace(), 0), 5, 1),
            r matches Err(e) ==> e is Bus,
    {
        let v = self.read_byte(Reg::Ctrl10C.addr())?;
        let reg = Ctrl10C::from_bits(v);
        Ok(reg.timestamp_en())
    }

    /// Sets push-pull/open-drain on INT1 and INT2 pins.
    pub fn int_pin_mode_set(&mut self, val: IntPinMode) -> (r: Result<(), Error<B::Error>>)
        ensures
            field_updated(old(self).bus.trace(), final(self).bus.trace(), 0x12, 4, 1, val.spec_bits(), r is Ok),
            r matches Err(e) ==> e is Bus,
    {
        self.update_field(Reg::Ctrl3C.addr(), 4, 1, val.bits())
    }

    /// Gets the configuration (push-pull/open-drain) of INT1 and INT2 pins.
    pub fn int_pin_mode_get(&mut self) -> (r: Result<IntPinMode, Error<B::Error>>)
        ensures
            reads_byte(old(self).bus.trace(), final(self).bus.trace(), 0x12, byte_at(old(self).bus.trace(), final(self).bus.trace(), 0), r is Ok),
            r matches Ok(x) ==> x == IntPinMode::spec_from_bits_or_default(field_of(byte_at(old(self).bus.trace(), final(self).bus.trace(), 0), 4, 1)),
            r matches Err(e) ==> e is Bus,
    {
        let v = self.read_byte(Reg::Ctrl3C.addr())?;
        let reg = Ctrl3C::from_bits(v);
        Ok(IntPinMode::from_bits_or_default(reg.pp_od()))
    }

    /// Sets the interrupt activation level (high/low).
    pub fn pin_polarity_set(&mut self, val: PinPolarity) -> (r: Result<(), Error<B::Error>>)
        ensures
            field_updated(old(self).bus.trace(), final(self).bus.trace(), 0x12, 5, 1, val.spec_bits(), r is Ok),
            r matches Err(e) ==> e is Bus,
    {
        self.update_field(Reg::Ctrl3C.addr(), 5, 1, val.bits())
    }

    /// Gets the actual interrupt activation level.
    pub fn pin_polarity_get(&mut self) -> (r: Result<PinPolarity, Error<B::Error>>)
        ensures
            reads_byte(old(self).bus.trace(), final(self).bus.trace(), 0x12, byte_at(old(self).bus.trace(), final(self).bus.trace(), 0), r is Ok),
            r matches Ok(x) ==> x == PinPolarity::spec_from_bits_or_default(field_of(byte_at(old(self).bus.trace(), final(self).bus.trace(), 0), 5, 1)),
            r matches Err(e) ==> e is Bus,
    {
        let v = self.read_byte(Reg::Ctrl3C.addr())?;
        let reg = Ctrl3C::from_bits(v);
        Ok(PinPolarity::from_bits_or_default(reg.h_lactive()))
    }

    /// Enables/disables the software reset of the ISPU core.
    pub fn ispu_reset_set(&mut self, val: u8) -> (r: Result<(), Error<B::Error>>)
        ensures
            field_updated(old(self).bus.trace(), final(self).bus.trace(), 0x01, 1, 1, val, r is Ok),
            r matches Err(e) ==> e is Bus,
    {
        self.update_field(Reg::FuncCfgAccess.addr(), 1, 1, val)
    }

    /// Gets the actual software reset configuration of the ISPU core.
    pub fn ispu_reset_get(&mut self) -> (r: Result<u8, Error<B::Error>>)
        ensures
            reads_byte(old(self).bus.trace(), final(self).bus.trace(), 0x01, byte_at(old(self).bus.trace(), final(self).bus.trace(), 0), r is Ok),
            r matches Ok(x) ==> x == field_of(byte_at(old(self).bus.trace(), final(self).bus.trace(), 0), 1, 1),
            r matches Err(e) ==> e is Bus,
    {
        let v = self.read_byte(Reg::FuncCfgAccess.addr())?;
        let reg = FuncCfgAccess::from_bits(v);
        Ok(reg.sw_reset_ispu())
    }

    /// Sets the ISPU clock.
    pub fn ispu_clock_set(&mut self, val: IspuClockSel) -> (r: Result<(), Error<B::Error>>)
        ensures
            field_updated(old(self).bus.trace(), final(self).bus.trace(), 0x19, 2, 1, val.spec_bits(), r is Ok),
            r matches Err(e) ==> e is Bus,
    {
        self.update_field(Reg::Ctrl10C.addr(), 2, 1, val.bits())
    }

    /// Gets the actual ISPU clock.
    pub fn ispu_clock_get(&mut self) -> (r: Result<IspuClockSel, Error<B::Error>>)
        ensures
            reads_byte(old(self).bus.trace(), final(self).bus.trace(), 0x19, byte_at(old(self).bus.trace(), final(self).bus.trace(), 0), r is Ok),
            r matches Ok(x) ==> x == IspuClockSel::spec_from_bits_or_default(field_of(byte_at(old(self).bus.trace(), final(self).bus.trace(), 0), 2, 1)),
            r matches Err(e) ==> e is Bus,
    {
        let v = self.read_byte(Reg::Ctrl10C.addr())?;
        let reg = Ctrl10C::from_bits(v);
        Ok(IspuClockSel::from_bits_or_default(reg.ispu_clk_sel()))
    }

    /// Sets the ISPU output data rate (ODR).
    pub fn ispu_data_rate_set(&mut self, val: IspuDataRate) -> (r: Result<(), Error<B::Error>>)
        ensures
            field_updated(old(self).bus.trace(), final(self).bus.trace(), 0x18, 4, 4, val.spec_bits(), r is Ok),
            r matches Err(e) ==> e is Bus,
    {
        self.update_field(Reg::Ctrl9C.addr(), 4, 4, val.bits())
    }

    /// Gets the actual ISPU output data rate (ODR).
    pub fn ispu_data_rate_get(&mut self) -> (r: Result<IspuDataRate, Error<B::Error>>)
        ensures
            reads_byte(old(self).bus.trace(), final(self).bus.trace(), 0x18, byte_at(old(self).bus.trace(), final(self).bus.trace(), 0), r is Ok),
            r matches Ok(x) ==> x == IspuDataRate::spec_from_bits_or_default(field_of(byte_at(old(self).bus.trace(), final(self).bus.trace(), 0), 4, 4)),
            r matches Err(e) ==> e is Bus,
    {
        let v = self.read_byte(Reg::Ctrl9C.addr())?;
        let reg = Ctrl9C::from_bits(v);
        Ok(IspuDataRate::from_bits_or_default(reg.ispu_rate()))
    }

    /// Configures the ISPU BDU mode.
    pub fn ispu_bdu_set(&mut self, val: IspuBdu) -> (r: Result<(), Error<B::Error>>)
        ensures
            field_updated(old(self).bus.trace(), final(self).bus.trace(), 0x18, 0, 2, val.spec_bits(), r is Ok),
            r matches Err(e) ==> e is Bus,
    {
        self.update_field(Reg::Ctrl9C.addr(), 0, 2, val.bits())
    }

    /// Gets the actual ISPU BDU mode.
    pub fn ispu_bdu_get(&mut self) -> (r: Result<IspuBdu, Error<B::Error>>)
        ensures
            reads_byte(old(self).bus.trace(), final(self).bus.trace(), 0x18, byte_at(old(self).bus.trace(), final(self).bus.trace(), 0), r is Ok),
            r matches Ok(x) ==> x == IspuBdu::spec_from_bits_or_default(field_of(byte_at(old(self).bus.trace(), final(self).bus.trace(), 0), 0, 2)),
            r matches Err(e) ==> e is Bus,
    {
        let v = self.read_byte(Reg::Ctrl9C.addr())?;
        let reg = Ctrl9C::from_bits(v);
        Ok(IspuBdu::from_bits_or_default(reg.ispu_bdu()))
    }

    /// Returns 1 if new accelerometer data is available, otherwise 0.
    pub fn xl_flag_data_ready_get(&mut self) -> (r: Result<u8, Error<B::Error>>)
        ensures
            reads_byte(old(self).bus.trace(), final(self).bus.trace(), 0x1E, byte_at(old(self).bus.trace(), final(self).bus.trace(), 0), r is Ok),
            r matches Ok(x) ==> x == field_of(byte_at(old(self).bus.trace(), final(self).bus.trace(), 0), 0, 1),
            r matches Err(e) ==> e is Bus,
    {
        let v = self.read_byte(Reg::StatusReg.addr())?;
        let reg = StatusReg::from_bits(v);
        Ok(reg.xlda())
    }

    /// Returns 1 if new gyroscope data is available, otherwise 0.
    pub fn gy_flag_data_ready_get(&mut self) -> (r: Result<u8, Error<B::Error>>)
        ensures
            reads_byte(old(self).bus.trace(), final(self).bus.trace(), 0x1E, byte_at(old(self).bus.trace(), final(self).bus.trace(), 0), r is Ok),
            r matches Ok(x) ==> x == field_of(byte_at(old(self).bus.trace(), final(self).bus.trace(), 0), 1, 1),
            r matches Err(e) ==> e is Bus,
    {
        let v = self.read_byte(Reg::StatusReg.addr())?;
        let reg = StatusReg::from_bits(v);
        Ok(reg.gda())
    }

    /// Returns 1 if new temperature data is available, otherwise 0.
    pub fn temp_flag_data_ready_get(&mut self) -> (r: Result<u8, Error<B::Error>>)
        ensures
            reads_byte(old(self).bus.trace(), final(self).bus.trace(), 0x1E, byte_at(old(self).bus.trace(), final(self).bus.trace(), 0), r is Ok),
            r matches Ok(x) ==> x == field_of(byte_at(old(self).bus.trace(), final(self).bus.trace(), 0), 2, 1),
            r matches Err(e) ==> e is Bus,
    {
        let v = self.read_byte(Reg::StatusReg.addr())?;
        let reg = StatusReg::from_bits(v);
        Ok(reg.tda())
    }

    /// Sets the number of external sensors to be read by the sensor hub.
    pub fn sh_slave_connected_set(&mut self, val: ShSlaveConnected) -> (r: Result<(), Error<B::Error>>)
        ensures
            banked_field_updated(old(self).bus.trace(), final(self).bus.trace(), MemBank::SensorHubMemBank, 0x14, 0, 2, val.spec_bits(), r),
    {
        self.banked_update_field(MemBank::SensorHubMemBank, SensHubReg::MasterConfig.addr(), 0, 2, val.bits())
    }

    /// Gets the number of external sensors configured to be read by the sensor hub.
    pub fn sh_slave_connected_get(&mut self) -> (r: Result<ShSlaveConnected, Error<B::Error>>)
        ensures
            banked_byte_read(old(self).bus.trace(), final(self).bus.trace(), MemBank::SensorHubMemBank, 0x14, r),
            r matches Ok(x) ==> x == ShSlaveConnected::spec_from_bits_or_default(field_of(byte_at(old(self).bus.trace(), final(self).bus.trace(), 1), 0, 2)),
    {
        let v = self.banked_read_byte(MemBank::SensorHubMemBank, SensHubReg::MasterConfig.addr())?;
        let reg = MasterConfig::from_bits(v);
        Ok(ShSlaveConnected::from_bits_or_default(reg.aux_sens_on()))
    }

    /// Enables/disables the sensor hub I2C master.
    pub fn sh_master_set(&mut self, val: u8) -> (r: Result<(), Error<B::Error>>)
        ensures
            banked_field_updated(old(self).bus.trace(), final(self).bus.trace(), MemBank::SensorHubMemBank, 0x14, 2, 1, val, r),
    {
        self.banked_update_field(MemBank::SensorHubMemBank, SensHubReg::MasterConfig.addr(), 2, 1, val)
    }

    /// Gets the value (enable/disable) of the sensor hub I2C master.
    pub fn sh_master_get(&mut self) -> (r: Result<u8, Error<B::Error>>)
        ensures
            banked_byte_read(old(self).bus.trace(), final(self).bus.trace(), MemBank::SensorHubMemBank, 0x14, r),
            r matches Ok(x) ==> x == field_of(byte_at(old(self).bus.trace(), final(self).bus.trace(), 1), 2, 1),
    {
        let v = self.banked_read_byte(MemBank::SensorHubMemBank, SensHubReg::MasterConfig.addr())?;
        let reg = MasterConfig::from_bits(v);
        Ok(reg.master_on())
    }

    /// Enables/disables the sensor hub master I2C pull-up.
    pub fn sh_master_interface_pull_up_set(&mut self, val: u8) -> (r: Result<(), Error<B::Error>>)
        ensures
            banked_field_updated(old(self).bus.trace(), final(self).bus.trace(), MemBank::SensorHubMemBank, 0x14, 3, 1, val, r),
    {
        self.banked_update_field(MemBank::SensorHubMemBank, SensHubReg::MasterConfig.addr(), 3, 1, val)
    }

    /// Gets the current value (enable/disable) of the sensor hub master I2C pull-up.
    pub fn sh_master_interface_pull_up_get(&mut self) -> (r: Result<u8, Error<B::Error>>)
        ensures
            banked_byte_read(old(self).bus.trace(), final(self).bus.trace(), MemBank::SensorHubMemBank, 0x14, r),
            r matches Ok(x) ==> x == field_of(byte_at(old(self).bus.trace(), final(self).bus.trace(), 1), 3, 1),
    {
        let v = self.banked_read_byte(MemBank::SensorHubMemBank, SensHubReg::MasterConfig.addr())?;
        let reg = MasterConfig::from_bits(v);
        Ok(reg.shub_pu_en())
    }

    /// Enables/disables the I2C interface pass-through of the sensor hub.
    pub fn sh_pass_through_set(&mut self, val: u8) -> (r: Result<(), Error<B::Error>>)
        ensures
            banked_field_updated(old(self).bus.trace(), final(self).bus.trace(), MemBank::SensorHubMemBank, 0x14, 4, 1, val, r),
    {
        self.banked_update_field(MemBank::SensorHubMemBank, SensHubReg::MasterConfig.addr(), 4, 1, val)
    }

    /// Gets the configuration (enable/disable) of the I2C interface pass-through.
    pub fn sh_pass_through_get(&mut self) -> (r: Result<u8, Error<B::Error>>)
        ensures
            banked_byte_read(old(self).bus.trace(), final(self).bus.trace(), MemBank::SensorHubMemBank, 0x14, r),
            r matches Ok(x) ==> x == field_of(byte_at(old(self).bus.trace(), final(self).bus.trace(), 1), 4, 1),
    {
        let v = self.banked_read_byte(MemBank::SensorHubMemBank, SensHubReg::MasterConfig.addr())?;
        let reg = MasterConfig::from_bits(v);
        Ok(reg.pass_through_mode())
    }

    /// Sets the sensor hub trigger signal (acc and gyro/int2).
    pub fn sh_syncro_mode_set(&mut self, val: ShSyncroMode) -> (r: Result<(), Error<B::Error>>)
        ensures
            banked_field_updated(old(self).bus.trace(), final(self).bus.trace(), MemBank::SensorHubMemBank, 0x14, 5, 1, val.spec_bits(), r),
    {
        self.banked_update_field(MemBank::SensorHubMemBank, SensHubReg::MasterConfig.addr(), 5, 1, val.bits())
    }

    /// Gets the current sensor hub trigger signal (acc and gyro/int2).
    pub fn sh_syncro_mode_get(&mut self) -> (r: Result<ShSyncroMode, Error<B::Error>>)
        ensures
            banked_byte_read(old(self).bus.trace(), final(self).bus.trace(), MemBank::SensorHubMemBank, 0x14, r),
            r matches Ok(x) ==> x == ShSyncroMode::spec_from_bits_or_default(field_of(byte_at(old(self).bus.trace(), final(self).bus.trace(), 1), 5, 1)),
    {
        let v = self.banked_read_byte(MemBank::SensorHubMemBank, SensHubReg::MasterConfig.addr())?;
        let reg = MasterConfig::from_bits(v);
        Ok(ShSyncroMode::from_bits_or_default(reg.start_config()))
    }

    /// Sets the slave 0 write mode (only first cycle/each sh cycle).
    pub fn sh_write_mode_set(&mut self, val: ShWriteMode) -> (r: Result<(), Error<B::Error>>)
        ensures
            banked_field_updated(old(self).bus.trace(), final(self).bus.trace(), MemBank::SensorHubMemBank, 0x14, 6, 1, val.spec_bits(), r),
    {
        self.banked_update_field(MemBank::SensorHubMemBank, SensHubReg::MasterConfig.addr(), 6, 1, val.bits())
    }

    /// Gets the actual slave 0 write mode (only first cycle/each sh cycle).
    pub fn sh_write_mode_get(&mut self) -> (r: Result<ShWriteMode, Error<B::Error>>)
        ensures
            banked_byte_read(old(self).bus.trace(), final(self).bus.trace(), MemBank::SensorHubMemBank, 0x14, r),
            r matches Ok(x) ==> x == ShWriteMode::spec_from_bits_or_default(field_of(byte_at(old(self).bus.trace(), final(self).bus.trace(), 1), 6, 1)),
    {
        let v = self.banked_read_byte(MemBank::SensorHubMemBank, SensHubReg::MasterConfig.addr())?;
        let reg = MasterConfig::from_bits(v);
        Ok(ShWriteMode::from_bits_or_default(reg.write_once()))
    }

    /// Sets the reset of master logic and output registers (set to 1, then to 0).
    pub fn sh_reset_set(&mut self, val: u8) -> (r: Result<(), Error<B::Error>>)
        ensures
            banked_field_updated(old(self).bus.trace(), final(self).bus.trace(), MemBank::SensorHubMemBank, 0x14, 7, 1, val, r),
    {
        self.banked_update_field(MemBank::SensorHubMemBank, SensHubReg::MasterConfig.addr(), 7, 1, val)
    }

    /// Gets the actual reset configuration of the master logic.
    pub fn sh_reset_get(&mut self) -> (r: Result<u8, Error<B::Error>>)
        ensures
            banked_byte_read(old(self).bus.trace(), final(self).bus.trace(), MemBank::SensorHubMemBank, 0x14, r),
            r matches Ok(x) ==> x == field_of(byte_at(old(self).bus.trace(), final(self).bus.trace(), 1), 7, 1),
    {
        let v = self.banked_read_byte(MemBank::SensorHubMemBank, SensHubReg::MasterConfig.addr())?;
        let reg = MasterConfig::from_bits(v);
        Ok(reg.rst_master_regs())
    }

    /// Sets the rate at which the master communicates.
    pub fn sh_data_rate_set(&mut self, val: ShDataRate) -> (r: Result<(), Error<B::Error>>)
        ensures
            banked_field_updated(old(self).bus.trace(), final(self).bus.trace(), MemBank::SensorHubMemBank, 0x17, 6, 2, val.spec_bits(), r),
    {
        self.banked_update_field(MemBank::SensorHubMemBank, SensHubReg::Slv0Config.addr(), 6, 2, val.bits())
    }

    /// Gets the actual rate at which the master communicates.
    pub fn sh_data_rate_get(&mut self) -> (r: Result<ShDataRate, Error<B::Error>>)
        ensures
            banked_byte_read(old(self).bus.trace(), final(self).bus.trace(), MemBank::SensorHubMemBank, 0x17, r),
            r matches Ok(x) ==> x == ShDataRate::spec_from_bits_or_default(field_of(byte_at(old(self).bus.trace(), final(self).bus.trace(), 1), 6, 2)),
    {
        let v = self.banked_read_byte(MemBank::SensorHubMemBank, SensHubReg::Slv0Config.addr())?;
        let reg = Slv0Config::from_bits(v);
        Ok(ShDataRate::from_bits_or_default(reg.shub_odr()))
    }

    /// Enables/disables latched ISPU interrupt.
    pub fn ispu_int_latched_set(&mut self, val: IspuInterrupt) -> (r: Result<(), Error<B::Error>>)
        ensures
            banked_field_updated(old(self).bus.trace(), final(self).bus.trace(), MemBank::IspuMemBank, 0x02, 4, 1, val.spec_bits(), r),
    {
        self.banked_update_field(MemBank::IspuMemBank, IspuReg::IspuConfig.addr(), 4, 1, val.bits())
    }

    /// Gets the latched ISPU interrupt configuration (enable/disable).
    pub fn ispu_int_latched_get(&mut self) -> (r: Result<IspuInterrupt, Error<B::Error>>)
        ensures
            banked_byte_read(old(self).bus.trace(), final(self).bus.trace(), MemBank::IspuMemBank, 0x02, r),
            r matches Ok(x) ==> x == IspuInterrupt::spec_from_bits_or_default(field_of(byte_at(old(self).bus.trace(), final(self).bus.trace(), 1), 4, 1)),
    {
        let v = self.banked_read_byte(MemBank::IspuMemBank, IspuReg::IspuConfig.addr())?;
        let reg = IspuConfig::from_bits(v);
        Ok(IspuInterrupt::from_bits_or_default(reg.latched()))
    }

    /// Returns the ISPU boot status.
    pub fn ispu_get_boot_status(&mut self) -> (r: Result<IspuBootStatus, Error<B::Error>>)
        ensures
            banked_byte_read(old(self).bus.trace(), final(self).bus.trace(), MemBank::IspuMemBank, 0x04, r),
            r matches Ok(x) ==> x == IspuBootStatus::spec_from_bits_or_default(field_of(byte_at(old(self).bus.trace(), final(self).bus.trace(), 1), 2, 1)),
    {
        let v = self.banked_read_byte(MemBank::IspuMemBank, IspuReg::IspuStatus.addr())?;
        let reg = IspuStatus::from_bits(v);
        Ok(IspuBootStatus::from_bits_or_default(reg.boot_end()))
    }
}

} // verus!
