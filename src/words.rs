//! Multi-byte registers, the ISPU flag and interrupt words, the ISPU
//! general-purpose input window and the device identity.
use crate::bits::{le16_bytes, le_u16, le_u32, signed16, u16_from_le, u16_to_le, u32_from_le, u32_to_le};
use crate::bus::{reg_read, reg_write, BusEvent, BusOperation, DelayNs};
use crate::driver::{byte_at, ok_at, reads_byte, scoped, Error, Lsm6dso16is};
use crate::register::ispu::IspuReg;
use crate::register::main::{Reg, StatusReg};
use crate::register::MemBank;
use vstd::prelude::*;

verus! {

/// The fixed identity that the WHO_AM_I register reads.
pub const ID: u8 = 0x22;

/// The address of ISPU_DUMMY_CFG_1_L, the first of the eight registers of the
/// ISPU general-purpose input window.
pub const DUMMY_CFG_FIRST: u8 = 0x73;

/// The number of registers in the ISPU general-purpose input window.
pub const DUMMY_CFG_LEN: u8 = 8;

/// The bytes that the last transfer of `t` carried.
pub open spec fn last_data(t: Seq<BusEvent>) -> Seq<u8> {
    match t.last() {
        BusEvent::Write { data, .. } => data,
        BusEvent::WriteRead { data, .. } => data,
        BusEvent::Read { data, .. } => data,
    }
}

/// `t1` is `t0` followed by one read of `n` bytes from `reg` on, which went
/// through or not as `ok` says.
pub open spec fn read_once(t0: Seq<BusEvent>, t1: Seq<BusEvent>, reg: u8, n: nat, ok: bool) -> bool {
    &&& t1 == t0.push(reg_read(reg, last_data(t1), ok))
    &&& last_data(t1).len() == n
}

/// The bytes read by the transfer that an operation scoped to a bank made
/// while the bank was selected.
pub open spec fn scoped_data(t0: Seq<BusEvent>, t1: Seq<BusEvent>) -> Seq<u8> {
    t1[t0.len() + 1int]->WriteRead_data
}

/// Whether `offset` and `len` lie inside the ISPU general-purpose input
/// window.
pub open spec fn dummy_cfg_in_window(offset: u8, len: u8) -> bool {
    offset + len <= DUMMY_CFG_LEN
}

impl<B: BusOperation, T: DelayNs> Lsm6dso16is<B, T> {
    fn read_u32(&mut self, reg: u8) -> (r: Result<u32, Error<B::Error>>)
        ensures
            read_once(old(self).bus.trace(), final(self).bus.trace(), reg, 4, r is Ok),
            r matches Ok(v) ==> v == le_u32(last_data(final(self).bus.trace())),
            r matches Err(e) ==> e is Bus,
    {
        let mut buf: [u8; 4] = [0; 4];
        self.read_from_register(reg, &mut buf)?;
        Ok(u32_from_le(buf))
    }

    /// Reads the timestamp counter (TIMESTAMP0 to TIMESTAMP3, least
    /// significant byte first).
    pub fn timestamp_raw_get(&mut self) -> (r: Result<u32, Error<B::Error>>)
        ensures
            read_once(old(self).bus.trace(), final(self).bus.trace(), 0x40, 4, r is Ok),
            r matches Ok(v) ==> v == le_u32(last_data(final(self).bus.trace())),
            r matches Err(e) ==> e is Bus,
    {
        self.read_u32(Reg::Timestamp0.addr())
    }

    /// Reads the generic interrupt flags of the ISPU from the main bank
    /// (ISPU_INT_STATUS0_MAINPAGE to ISPU_INT_STATUS3_MAINPAGE).
    pub fn ia_ispu_get(&mut self) -> (r: Result<u32, Error<B::Error>>)
        ensures
            read_once(old(self).bus.trace(), final(self).bus.trace(), 0x1A, 4, r is Ok),
            r matches Ok(v) ==> v == le_u32(last_data(final(self).bus.trace())),
            r matches Err(e) ==> e is Bus,
    {
        self.read_u32(Reg::IspuIntStatus0Mainpage.addr())
    }

    /// Reads the temperature output (OUT_TEMP_L, OUT_TEMP_H), a 16-bit two's
    /// complement word.
    pub fn temperature_raw_get(&mut self) -> (r: Result<i16, Error<B::Error>>)
        ensures
            read_once(old(self).bus.trace(), final(self).bus.trace(), 0x20, 2, r is Ok),
            r matches Ok(v) ==> v == signed16(le_u16(last_data(final(self).bus.trace()))),
            r matches Err(e) ==> e is Bus,
    {
        let mut buf: [u8; 2] = [0; 2];
        self.read_from_register(Reg::OutTempL.addr(), &mut buf)?;
        Ok(crate::bits::i16_from_le(buf))
    }

    /// Reads STATUS_REG: data-ready flags of the accelerometer, gyroscope and
    /// temperature sensor.
    pub fn status_reg_get(&mut self) -> (r: Result<StatusReg, Error<B::Error>>)
        ensures
            reads_byte(old(self).bus.trace(), final(self).bus.trace(), 0x1E, byte_at(old(self).bus.trace(), final(self).bus.trace(), 0), r is Ok),
            r matches Ok(s) ==> s.0 == byte_at(old(self).bus.trace(), final(self).bus.trace(), 0),
            r matches Err(e) ==> e is Bus,
    {
        let v = self.read_byte(Reg::StatusReg.addr())?;
        Ok(StatusReg::from_bits(v))
    }

    /// Reads the device identity (WHO_AM_I).
    pub fn device_id_get(&mut self) -> (r: Result<u8, Error<B::Error>>)
        ensures
            reads_byte(old(self).bus.trace(), final(self).bus.trace(), 0x0F, byte_at(old(self).bus.trace(), final(self).bus.trace(), 0), r is Ok),
            r matches Ok(v) ==> v == byte_at(old(self).bus.trace(), final(self).bus.trace(), 0),
            r matches Err(e) ==> e is Bus,
    {
        self.read_byte(Reg::WhoAmI.addr())
    }

    /// Checks the device identity before any configuration: `Ok` exactly
    /// when WHO_AM_I reads `ID`; a different identity is `UnexpectedValue`.
    pub fn device_id_check(&mut self) -> (r: Result<(), Error<B::Error>>)
        ensures
            reads_byte(old(self).bus.trace(), final(self).bus.trace(), 0x0F, byte_at(old(self).bus.trace(), final(self).bus.trace(), 0), ok_at(old(self).bus.trace(), final(self).bus.trace(), 0)),
            r is Ok <==> ok_at(old(self).bus.trace(), final(self).bus.trace(), 0) && byte_at(old(self).bus.trace(), final(self).bus.trace(), 0) == ID,
            ok_at(old(self).bus.trace(), final(self).bus.trace(), 0) && byte_at(old(self).bus.trace(), final(self).bus.trace(), 0) != ID
                ==> r == Err::<(), Error<B::Error>>(Error::UnexpectedValue),
            !ok_at(old(self).bus.trace(), final(self).bus.trace(), 0) ==> (r matches Err(e) && e is Bus),
    {
        let id = self.device_id_get()?;
        if id == ID {
            Ok(())
        } else {
            Err(Error::UnexpectedValue)
        }
    }

    /// Writes `val[..len]` to the ISPU general-purpose input registers from
    /// ISPU_DUMMY_CFG_1_L + `offset` on.  A range that runs past the window
    /// is refused with `UnexpectedValue`, and nothing is written; no bytes
    /// make no transfer.
    pub fn ispu_write_dummy_cfg(&mut self, offset: u8, val: &[u8], len: u8) -> (r: Result<(), Error<B::Error>>)
        requires
            dummy_cfg_in_window(offset, len) ==> len <= val@.len(),
        ensures
            !dummy_cfg_in_window(offset, len) ==> final(self).bus.trace() == old(self).bus.trace()
                && r == Err::<(), Error<B::Error>>(Error::UnexpectedValue),
            dummy_cfg_in_window(offset, len) && len == 0 ==> final(self).bus.trace() == old(self).bus.trace() && r is Ok,
            dummy_cfg_in_window(offset, len) && len > 0 ==> final(self).bus.trace() == old(self).bus.trace().push(
                reg_write((DUMMY_CFG_FIRST + offset) as u8, val@.subrange(0, len as int), r is Ok),
            ) && (r matches Err(e) ==> e is Bus),
    {
        if offset as u16 + len as u16 > DUMMY_CFG_LEN as u16 {
            return Err(Error::UnexpectedValue);
        }
        self.write_to_register(Reg::IspuDummyCfg1L.addr() + offset, &val[0..len as usize])
    }

    /// Reads `len` ISPU general-purpose input registers from
    /// ISPU_DUMMY_CFG_1_L + `offset` on into `val[..len]`.  A range that runs
    /// past the window is refused with `UnexpectedValue`, and nothing is read.
    pub fn ispu_read_dummy_cfg(&mut self, offset: u8, val: &mut [u8], len: u8) -> (r: Result<(), Error<B::Error>>)
        requires
            dummy_cfg_in_window(offset, len) ==> len <= old(val)@.len(),
        ensures
            final(val)@.len() == old(val)@.len(),
            dummy_cfg_in_window(offset, len) ==> final(val)@.subrange(len as int, final(val)@.len() as int) == old(val)@.subrange(len as int, old(val)@.len() as int),
            !dummy_cfg_in_window(offset, len) ==> final(val)@ == old(val)@ && final(self).bus.trace() == old(self).bus.trace()
                && r == Err::<(), Error<B::Error>>(Error::UnexpectedValue),
            dummy_cfg_in_window(offset, len) ==> final(self).bus.trace() == old(self).bus.trace().push(
                reg_read((DUMMY_CFG_FIRST + offset) as u8, final(val)@.subrange(0, len as int), r is Ok),
            ) && (r matches Err(e) ==> e is Bus),
    {
        if offset as u16 + len as u16 > DUMMY_CFG_LEN as u16 {
            return Err(Error::UnexpectedValue);
        }
        let ghost v0 = val@;
        let (head, _rest) = val.split_at_mut(len as usize);
        let r = self.read_from_register(Reg::IspuDummyCfg1L.addr() + offset, head);
        assert(val@.subrange(0, len as int) =~= head@);
        assert(val@.subrange(len as int, val@.len() as int) =~= v0.subrange(len as int, v0.len() as int));
        r
    }

    /// Writes the ISPU IF2S flags (ISPU_IF2S_FLAG_L, ISPU_IF2S_FLAG_H).
    pub fn ispu_write_flags(&mut self, data: u16) -> (r: Result<(), Error<B::Error>>)
        ensures
            scoped(old(self).bus.trace(), final(self).bus.trace(), MemBank::IspuMemBank, seq![reg_write(0x0C, le16_bytes(data), ok_at(old(self).bus.trace(), final(self).bus.trace(), 1))], ok_at(old(self).bus.trace(), final(self).bus.trace(), 1), r),
    {
        let bytes = u16_to_le(data);
        self.banked_write(MemBank::IspuMemBank, IspuReg::IspuIf2sFlagL.addr(), &bytes)
    }

    /// Reads the ISPU S2IF flags (ISPU_S2IF_FLAG_L, ISPU_S2IF_FLAG_H).
    pub fn ispu_read_flags(&mut self) -> (r: Result<u16, Error<B::Error>>)
        ensures
            scoped(old(self).bus.trace(), final(self).bus.trace(), MemBank::IspuMemBank, seq![reg_read(0x0E, scoped_data(old(self).bus.trace(), final(self).bus.trace()), ok_at(old(self).bus.trace(), final(self).bus.trace(), 1))], ok_at(old(self).bus.trace(), final(self).bus.trace(), 1), r),
            r matches Ok(v) ==> v == le_u16(scoped_data(old(self).bus.trace(), final(self).bus.trace())),
    {
        let mut buf: [u8; 2] = [0; 2];
        self.banked_read(MemBank::IspuMemBank, IspuReg::IspuS2ifFlagL.addr(), &mut buf)?;
        Ok(u16_from_le(buf))
    }

    /// Clears the ISPU S2IF flags: writes 1 to ISPU_S2IF_FLAG_H.
    pub fn ispu_clear_flags(&mut self) -> (r: Result<(), Error<B::Error>>)
        ensures
            scoped(old(self).bus.trace(), final(self).bus.trace(), MemBank::IspuMemBank, seq![reg_write(0x0F, seq![1u8], ok_at(old(self).bus.trace(), final(self).bus.trace(), 1))], ok_at(old(self).bus.trace(), final(self).bus.trace(), 1), r),
    {
        let buf: [u8; 1] = [1];
        assert(buf@ =~= seq![1u8]);
        self.banked_write(MemBank::IspuMemBank, IspuReg::IspuS2ifFlagH.addr(), &buf)
    }

    /// Reads `len` ISPU output registers from ISPU_DOUT_00_L on into
    /// `arr[..len]`; the rest of `arr` is left as it was.
    pub fn ispu_read_data_raw_get(&mut self, arr: &mut [u8], len: usize) -> (r: Result<(), Error<B::Error>>)
        requires
            len <= old(arr)@.len(),
        ensures
            final(arr)@.len() == old(arr)@.len(),
            final(arr)@.subrange(len as int, final(arr)@.len() as int) == old(arr)@.subrange(len as int, old(arr)@.len() as int),
            scoped(old(self).bus.trace(), final(self).bus.trace(), MemBank::IspuMemBank, seq![reg_read(0x10, final(arr)@.subrange(0, len as int), ok_at(old(self).bus.trace(), final(self).bus.trace(), 1))], ok_at(old(self).bus.trace(), final(self).bus.trace(), 1), r),
    {
        let ghost v0 = arr@;
        let (head, _rest) = arr.split_at_mut(len);
        let r = self.banked_read(MemBank::IspuMemBank, IspuReg::IspuDout00L.addr(), head);
        assert(arr@.subrange(0, len as int) =~= head@);
        assert(arr@.subrange(len as int, arr@.len() as int) =~= v0.subrange(len as int, v0.len() as int));
        r
    }

    fn ispu_read_u32(&mut self, reg: u8) -> (r: Result<u32, Error<B::Error>>)
        ensures
            scoped(old(self).bus.trace(), final(self).bus.trace(), MemBank::IspuMemBank, seq![reg_read(reg, scoped_data(old(self).bus.trace(), final(self).bus.trace()), ok_at(old(self).bus.trace(), final(self).bus.trace(), 1))], ok_at(old(self).bus.trace(), final(self).bus.trace(), 1), r),
            r matches Ok(v) ==> v == le_u32(scoped_data(old(self).bus.trace(), final(self).bus.trace())),
    {
        let mut buf: [u8; 4] = [0; 4];
        self.banked_read(MemBank::IspuMemBank, reg, &mut buf)?;
        Ok(u32_from_le(buf))
    }

    fn ispu_write_u32(&mut self, reg: u8, val: u32) -> (r: Result<(), Error<B::Error>>)
        ensures
            exists|d: Seq<u8>|
                #[trigger] le_u32(d) == val && d.len() == 4 && scoped(old(self).bus.trace(), final(self).bus.trace(), MemBank::IspuMemBank, seq![reg_write(reg, d, ok_at(old(self).bus.trace(), final(self).bus.trace(), 1))], ok_at(old(self).bus.trace(), final(self).bus.trace(), 1), r),
    {
        let bytes = u32_to_le(val);
        self.banked_write(MemBank::IspuMemBank, reg, &bytes)
    }

    /// Gets the ISPU INT1 routing word (ISPU_INT1_CTRL0 to 3): each bit routes
    /// one ISPU interrupt to INT1 (INT1_ISPU must be set too).
    pub fn ispu_int1_ctrl_get(&mut self) -> (r: Result<u32, Error<B::Error>>)
        ensures
            scoped(old(self).bus.trace(), final(self).bus.trace(), MemBank::IspuMemBank, seq![reg_read(0x50, scoped_data(old(self).bus.trace(), final(self).bus.trace()), ok_at(old(self).bus.trace(), final(self).bus.trace(), 1))], ok_at(old(self).bus.trace(), final(self).bus.trace(), 1), r),
            r matches Ok(v) ==> v == le_u32(scoped_data(old(self).bus.trace(), final(self).bus.trace())),
    {
        self.ispu_read_u32(IspuReg::IspuInt1Ctrl0.addr())
    }

    /// Sets the ISPU INT1 routing word (ISPU_INT1_CTRL0 to 3).
    pub fn ispu_int1_ctrl_set(&mut self, val: u32) -> (r: Result<(), Error<B::Error>>)
        ensures
            exists|d: Seq<u8>|
                #[trigger] le_u32(d) == val && d.len() == 4 && scoped(old(self).bus.trace(), final(self).bus.trace(), MemBank::IspuMemBank, seq![reg_write(0x50, d, ok_at(old(self).bus.trace(), final(self).bus.trace(), 1))], ok_at(old(self).bus.trace(), final(self).bus.trace(), 1), r),
    {
        self.ispu_write_u32(IspuReg::IspuInt1Ctrl0.addr(), val)
    }

    /// Gets the ISPU INT2 routing word (ISPU_INT2_CTRL0 to 3): each bit routes
    /// one ISPU interrupt to INT2 (INT2_ISPU must be set too).
    pub fn ispu_int2_ctrl_get(&mut self) -> (r: Result<u32, Error<B::Error>>)
        ensures
            scoped(old(self).bus.trace(), final(self).bus.trace(), MemBank::IspuMemBank, seq![reg_read(0x54, scoped_data(old(self).bus.trace(), final(self).bus.trace()), ok_at(old(self).bus.trace(), final(self).bus.trace(), 1))], ok_at(old(self).bus.trace(), final(self).bus.trace(), 1), r),
            r matches Ok(v) ==> v == le_u32(scoped_data(old(self).bus.trace(), final(self).bus.trace())),
    {
        self.ispu_read_u32(IspuReg::IspuInt2Ctrl0.addr())
    }

    /// Sets the ISPU INT2 routing word (ISPU_INT2_CTRL0 to 3).
    pub fn ispu_int2_ctrl_set(&mut self, val: u32) -> (r: Result<(), Error<B::Error>>)
        ensures
            exists|d: Seq<u8>|
                #[trigger] le_u32(d) == val && d.len() == 4 && scoped(old(self).bus.trace(), final(self).bus.trace(), MemBank::IspuMemBank, seq![reg_write(0x54, d, ok_at(old(self).bus.trace(), final(self).bus.trace(), 1))], ok_at(old(self).bus.trace(), final(self).bus.trace(), 1), r),
    {
        self.ispu_write_u32(IspuReg::IspuInt2Ctrl0.addr(), val)
    }

    /// Reads the ISPU interrupt status word (ISPU_INT_STATUS0 to 3).
    pub fn ispu_int_status_get(&mut self) -> (r: Result<u32, Error<B::Error>>)
        ensures
            scoped(old(self).bus.trace(), final(self).bus.trace(), MemBank::IspuMemBank, seq![reg_read(0x58, scoped_data(old(self).bus.trace(), final(self).bus.trace()), ok_at(old(self).bus.trace(), final(self).bus.trace(), 1))], ok_at(old(self).bus.trace(), final(self).bus.trace(), 1), r),
            r matches Ok(v) ==> v == le_u32(scoped_data(old(self).bus.trace(), final(self).bus.trace())),
    {
        self.ispu_read_u32(IspuReg::IspuIntStatus0.addr())
    }

    /// Reads the ISPU algorithm enable word (ISPU_ALGO0 to 3).
    pub fn ispu_algo_get(&mut self) -> (r: Result<u32, Error<B::Error>>)
        ensures
            scoped(old(self).bus.trace(), final(self).bus.trace(), MemBank::IspuMemBank, seq![reg_read(0x70, scoped_data(old(self).bus.trace(), final(self).bus.trace()), ok_at(old(self).bus.trace(), final(self).bus.trace(), 1))], ok_at(old(self).bus.trace(), final(self).bus.trace(), 1), r),
            r matches Ok(v) ==> v == le_u32(scoped_data(old(self).bus.trace(), final(self).bus.trace())),
    {
        self.ispu_read_u32(IspuReg::IspuAlgo0.addr())
    }

    /// Sets the ISPU algorithm enable word (ISPU_ALGO0 to 3): each bit enables
    /// one algorithm.
    pub fn ispu_algo_set(&mut self, val: u32) -> (r: Result<(), Error<B::Error>>)
        ensures
            exists|d: Seq<u8>|
                #[trigger] le_u32(d) == val && d.len() == 4 && scoped(old(self).bus.trace(), final(self).bus.trace(), MemBank::IspuMemBank, seq![reg_write(0x70, d, ok_at(old(self).bus.trace(), final(self).bus.trace(), 1))], ok_at(old(self).bus.trace(), final(self).bus.trace(), 1), r),
    {
        self.ispu_write_u32(IspuReg::IspuAlgo0.addr(), val)
    }
}

} // verus!
