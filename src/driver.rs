//! The driver: register access on the primary bus and memory-bank scoping.
use crate::bits::{field_of, lemma_field_max, put_field, valid_field, with_field};
use crate::bus::{extends, ok_of, reg_read, reg_write, BusEvent, BusOperation, DelayNs};
use crate::register::main::{FuncCfgAccess, Reg};
use crate::register::MemBank;
use vstd::prelude::*;

verus! {

/// Driver for the Lsm6dso16is sensor.
///
/// The struct takes a bus and a timer to reach the registers.  The bus is
/// generic over `BusOperation`, so that I2C, SPI or a shared bus can be used.
pub struct Lsm6dso16is<B, T> {
    /// The bus driver.
    pub bus: B,
    pub tim: T,
}

/// The driver while the ISPU bank is selected: the handle that operations
/// scoped to that bank work through.
pub type IspuState<B, T> = Lsm6dso16is<B, T>;

/// The driver while the sensor-hub bank is selected.
pub type SensorHubState<B, T> = Lsm6dso16is<B, T>;

/// The two I2C addresses the device answers at, as its SA0 pin selects.
#[derive(Clone, Copy, PartialEq, Eq, Debug, Structural)]
pub enum I2CAddress {
    I2cAddL,
    I2cAddH,
}

impl I2CAddress {
    /// The 7-bit I2C address.
    pub fn addr(self) -> (r: u8)
        ensures
            r == match self {
                I2CAddress::I2cAddL => 0x6Au8,
                I2CAddress::I2cAddH => 0x6Bu8,
            },
    {
        match self {
            I2CAddress::I2cAddL => 0x6A,
            I2CAddress::I2cAddH => 0x6B,
        }
    }
}

/// Driver errors.
#[derive(Debug)]
pub enum Error<B> {
    /// Error at the bus level.
    Bus(B),
    /// Unexpected value read from a register, or an argument out of range.
    UnexpectedValue,
    FailedToReadMemBank,
    FailedToSetMemBank(MemBank),
    /// A status flag did not come up within the allowed number of polls.
    Timeout,
}

/// The FUNC_CFG_ACCESS byte written to select `bank`.
pub open spec fn bank_select_byte(bank: MemBank) -> u8 {
    match bank {
        MemBank::MainMemBank => 0x00,
        MemBank::SensorHubMemBank => 0x40,
        MemBank::IspuMemBank => 0x80,
    }
}

/// The bank that a FUNC_CFG_ACCESS byte selects.
pub open spec fn bank_of_byte(b: u8) -> MemBank {
    if field_of(b, 6, 1) == 1 {
        MemBank::SensorHubMemBank
    } else if field_of(b, 7, 1) == 1 {
        MemBank::IspuMemBank
    } else {
        MemBank::MainMemBank
    }
}

/// The transfer that selects `bank`.
pub open spec fn bank_write(bank: MemBank, ok: bool) -> BusEvent {
    reg_write(0x01, seq![bank_select_byte(bank)], ok)
}

/// Whether `e` reads one byte from `reg`.
pub open spec fn is_byte_read(e: BusEvent, reg: u8) -> bool {
    e matches BusEvent::WriteRead { cmd, data, .. } && cmd == reg && data.len() == 1
}

/// The first byte that a transfer carried.
pub open spec fn byte_of(e: BusEvent) -> u8 {
    match e {
        BusEvent::Write { data, .. } => data[0],
        BusEvent::WriteRead { data, .. } => data[0],
        BusEvent::Read { data, .. } => data[0],
    }
}

/// `b` with the bits of `mask` replaced by those of `bits`.
pub open spec fn merge_bits(b: u8, mask: u8, bits: u8) -> u8 {
    (b & !mask) | (bits & mask)
}

/// The transfers of a read-modify-write of the bits `mask` of `reg`: the
/// register reads as `b`; only if that read went through is the byte written
/// back with those bits taken from `bits`.
pub open spec fn merge_ops(reg: u8, b: u8, read_ok: bool, mask: u8, bits: u8, write_ok: bool) -> Seq<BusEvent> {
    if read_ok {
        seq![reg_read(reg, seq![b], true), reg_write(reg, seq![merge_bits(b, mask, bits)], write_ok)]
    } else {
        seq![reg_read(reg, seq![b], false)]
    }
}

/// `t1` is `t0` followed by a read-modify-write of the bits `mask` of `reg`,
/// and `ok` tells whether both of its transfers went through.
pub open spec fn bits_updated(t0: Seq<BusEvent>, t1: Seq<BusEvent>, reg: u8, mask: u8, bits: u8, ok: bool) -> bool {
    &&& t1 == t0 + merge_ops(reg, byte_at(t0, t1, 0), ok_at(t0, t1, 0), mask, bits, ok_of(t1.last()))
    &&& (ok <==> ok_at(t0, t1, 0) && ok_of(t1.last()))
}

/// The transfers of a read-modify-write of one field of `reg`: the register
/// reads as `b`; only if that read went through is the byte written back with
/// the field set to `v`.
pub open spec fn rmw_ops(reg: u8, b: u8, read_ok: bool, off: u8, width: u8, v: u8, write_ok: bool) -> Seq<BusEvent> {
    if read_ok {
        seq![reg_read(reg, seq![b], true), reg_write(reg, seq![with_field(b, off, width, v)], write_ok)]
    } else {
        seq![reg_read(reg, seq![b], false)]
    }
}

/// The byte carried by transfer `k` of `t1`, counted from the end of `t0`.
pub open spec fn byte_at(t0: Seq<BusEvent>, t1: Seq<BusEvent>, k: int) -> u8 {
    byte_of(t1[t0.len() + k])
}

/// Whether transfer `k` of `t1`, counted from the end of `t0`, went through.
pub open spec fn ok_at(t0: Seq<BusEvent>, t1: Seq<BusEvent>, k: int) -> bool {
    ok_of(t1[t0.len() + k])
}

/// `t1` is `t0` followed by a read-modify-write setting one field of `reg` to
/// `v`, and `ok` tells whether both of its transfers went through.
pub open spec fn field_updated(t0: Seq<BusEvent>, t1: Seq<BusEvent>, reg: u8, off: u8, width: u8, v: u8, ok: bool) -> bool {
    &&& t1 == t0 + rmw_ops(reg, byte_at(t0, t1, 0), ok_at(t0, t1, 0), off, width, v, ok_of(t1.last()))
    &&& (ok <==> ok_at(t0, t1, 0) && ok_of(t1.last()))
}

/// The transfers of an operation scoped to `bank`: the bank is selected; only
/// if that went through do the operation's transfers follow, and then the
/// selection of the main bank.
pub open spec fn banked_ops(bank: MemBank, select_ok: bool, inner: Seq<BusEvent>, restore_ok: bool) -> Seq<BusEvent> {
    if select_ok {
        seq![bank_write(bank, true)] + inner + seq![bank_write(MemBank::MainMemBank, restore_ok)]
    } else {
        seq![bank_write(bank, false)]
    }
}

/// Whether `e` writes the bank-selection register (FUNC_CFG_ACCESS).
pub open spec fn is_bank_select(e: BusEvent) -> bool {
    e matches BusEvent::Write { data, .. } && data.len() >= 2 && data[0] == 0x01
}

/// The bank selected on the device after the transfers `t`, from power-up
/// (the main bank): the one that the last bank-selection write which went
/// through chose.
pub open spec fn selected_bank(t: Seq<BusEvent>) -> MemBank
    decreases t.len(),
{
    if t.len() == 0 {
        MemBank::MainMemBank
    } else if is_bank_select(t.last()) && ok_of(t.last()) {
        bank_of_byte(t.last()->Write_data[1])
    } else {
        selected_bank(t.drop_last())
    }
}

/// The selection byte of each bank reads back as that bank.
pub proof fn lemma_bank_select_byte(bank: MemBank)
    ensures
        bank_of_byte(bank_select_byte(bank)) == bank,
{
    lemma_field_max();
    assert((0x00u8 >> 6u8) & 1u8 == 0u8 && (0x00u8 >> 7u8) & 1u8 == 0u8 && (0x40u8 >> 6u8) & 1u8
        == 1u8 && (0x80u8 >> 6u8) & 1u8 == 0u8 && (0x80u8 >> 7u8) & 1u8 == 1u8) by (bit_vector);
}

/// After a bank-selection write of `bank` that went through, `bank` is selected.
pub proof fn lemma_selected_after(t: Seq<BusEvent>, bank: MemBank)
    ensures
        selected_bank(t.push(bank_write(bank, true))) == bank,
{
    lemma_bank_select_byte(bank);
    let t1 = t.push(bank_write(bank, true));
    assert(t1.last()->Write_data =~= seq![0x01u8, bank_select_byte(bank)]);
}

/// `t1` is `t0` followed by a read of the one-byte register `reg`, which read
/// `b` and went through or not as `ok` says.
pub open spec fn reads_byte(t0: Seq<BusEvent>, t1: Seq<BusEvent>, reg: u8, b: u8, ok: bool) -> bool {
    t1 == t0.push(reg_read(reg, seq![b], ok))
}

/// The result of an operation scoped to a bank: `Ok` exactly when the
/// selection, the operation and the return to the main bank all went through.
/// A failed selection gives `FailedToSetMemBank(bank)`; a failed operation
/// gives its own bus error, also when the return failed as well; a failed
/// return alone gives `FailedToSetMemBank(MainMemBank)`.
pub open spec fn banked_result<R, E>(bank: MemBank, select_ok: bool, inner_ok: bool, restore_ok: bool, r: Result<R, Error<E>>) -> bool {
    &&& (r is Ok <==> select_ok && inner_ok && restore_ok)
    &&& (!select_ok ==> r == Err::<R, Error<E>>(Error::FailedToSetMemBank(bank)))
    &&& (select_ok && !inner_ok ==> (r matches Err(e) && e is Bus))
    &&& (select_ok && inner_ok && !restore_ok ==> r == Err::<R, Error<E>>(
        Error::FailedToSetMemBank(MemBank::MainMemBank),
    ))
}

/// `t1` is `t0` followed by a read-modify-write of one field of `reg` in
/// `bank`, scoped by the bank selection; `r` is its result.
pub open spec fn banked_field_updated<E>(t0: Seq<BusEvent>, t1: Seq<BusEvent>, bank: MemBank, reg: u8, off: u8, width: u8, v: u8, r: Result<(), Error<E>>) -> bool {
    &&& t1 == t0 + banked_ops(
        bank,
        ok_at(t0, t1, 0),
        rmw_ops(reg, byte_at(t0, t1, 1), ok_at(t0, t1, 1), off, width, v, ok_at(t0, t1, 2)),
        ok_of(t1.last()),
    )
    &&& banked_result(bank, ok_at(t0, t1, 0), ok_at(t0, t1, 1) && ok_at(t0, t1, 2), ok_of(t1.last()), r)
}

/// `t1` is `t0` followed by a read of the one-byte register `reg` in `bank`,
/// scoped by the bank selection; the byte read is `byte_at(t0, t1, 1)`.
pub open spec fn banked_byte_read<R, E>(t0: Seq<BusEvent>, t1: Seq<BusEvent>, bank: MemBank, reg: u8, r: Result<R, Error<E>>) -> bool {
    &&& t1 == t0 + banked_ops(bank, ok_at(t0, t1, 0), seq![reg_read(reg, seq![byte_at(t0, t1, 1)], ok_at(t0, t1, 1))], ok_of(t1.last()))
    &&& banked_result(bank, ok_at(t0, t1, 0), ok_at(t0, t1, 1), ok_of(t1.last()), r)
}

/// `t1` is `t0` followed by an operation scoped to `bank` whose own transfers
/// are `inner`; `inner_ok` tells whether they all went through and `r` is the
/// result.
pub open spec fn scoped<R, E>(t0: Seq<BusEvent>, t1: Seq<BusEvent>, bank: MemBank, inner: Seq<BusEvent>, inner_ok: bool, r: Result<R, Error<E>>) -> bool {
    &&& t1 == t0 + banked_ops(bank, ok_at(t0, t1, 0), inner, ok_of(t1.last()))
    &&& banked_result(bank, ok_at(t0, t1, 0), inner_ok, ok_of(t1.last()), r)
}

impl<B: BusOperation, T: DelayNs> Lsm6dso16is<B, T> {
    /// Constructor method using a generic bus and a generic hardware timer.
    pub fn from_bus(bus: B, tim: T) -> (r: Self)
        ensures
            r.bus == bus,
            r.tim == tim,
    {
        Lsm6dso16is { bus, tim }
    }

    /// Writes `buf` to consecutive registers from `reg` on, through the
    /// bus's own register write.  An empty `buf` makes no transfer.
    pub fn write_to_register(&mut self, reg: u8, buf: &[u8]) -> (r: Result<(), Error<B::Error>>)
        ensures
            buf@.len() == 0 ==> final(self).bus.trace() == old(self).bus.trace() && r is Ok,
            buf@.len() > 0 ==> final(self).bus.trace() == old(self).bus.trace().push(reg_write(reg, buf@, r is Ok)),
            r matches Err(e) ==> e is Bus,
    {
        if buf.len() == 0 {
            return Ok(());
        }
        match self.bus.write_to_register(reg, buf) {
            Ok(()) => Ok(()),
            Err(e) => Err(Error::Bus(e)),
        }
    }

    /// Reads `buf.len()` consecutive registers from `reg` on into `buf`.
    pub fn read_from_register(&mut self, reg: u8, buf: &mut [u8]) -> (r: Result<(), Error<B::Error>>)
        ensures
            final(buf)@.len() == old(buf)@.len(),
            final(self).bus.trace() == old(self).bus.trace().push(reg_read(reg, final(buf)@, r is Ok)),
            r matches Err(e) ==> e is Bus,
    {
        let cmd: [u8; 1] = [reg];
        assert(cmd@[0] == reg);
        match self.bus.write_byte_read_bytes(&cmd, buf) {
            Ok(()) => Ok(()),
            Err(e) => Err(Error::Bus(e)),
        }
    }

    /// Reads the one-byte register `reg`; the byte read is the one the last
    /// transfer carried.
    pub(crate) fn read_byte(&mut self, reg: u8) -> (r: Result<u8, Error<B::Error>>)
        ensures
            final(self).bus.trace() == old(self).bus.trace().push(
                reg_read(reg, seq![byte_of(final(self).bus.trace().last())], r is Ok),
            ),
            r matches Ok(b) ==> b == byte_of(final(self).bus.trace().last()),
            r matches Err(e) ==> e is Bus,
    {
        let mut buf: [u8; 1] = [0];
        let r = self.read_from_register(reg, &mut buf);
        assert(buf@ =~= seq![buf[0]]);
        match r {
            Ok(()) => Ok(buf[0]),
            Err(e) => Err(e),
        }
    }

    /// Writes the one-byte register `reg`.
    pub(crate) fn write_byte(&mut self, reg: u8, b: u8) -> (r: Result<(), Error<B::Error>>)
        ensures
            final(self).bus.trace() == old(self).bus.trace().push(reg_write(reg, seq![b], r is Ok)),
            r matches Err(e) ==> e is Bus,
    {
        let buf: [u8; 1] = [b];
        assert(buf@ =~= seq![b]);
        self.write_to_register(reg, &buf)
    }

    /// Changes memory bank: writes FUNC_CFG_ACCESS with only the access bit of
    /// `val` set.
    pub fn mem_bank_set(&mut self, val: MemBank) -> (r: Result<(), Error<B::Error>>)
        ensures
            final(self).bus.trace() == old(self).bus.trace().push(bank_write(val, r is Ok)),
            r is Err ==> r == Err::<(), Error<B::Error>>(Error::FailedToSetMemBank(val)),
    {
        let mut func_cfg_access = FuncCfgAccess::from_bits(0);
        func_cfg_access.set_shub_reg_access(
            if val == MemBank::SensorHubMemBank {
                1
            } else {
                0
            },
        );
        func_cfg_access.set_ispu_reg_access(
            if val == MemBank::IspuMemBank {
                1
            } else {
                0
            },
        );
        proof {
            lemma_field_max();
        }
        assert(func_cfg_access.0 == bank_select_byte(val)) by {
            assert(((((0u8 & !(1u8 << 6u8)) | ((0u8 & 1u8) << 6u8)) & !(1u8 << 7u8)) | ((0u8 & 1u8)
                << 7u8)) == 0x00u8 && ((((0u8 & !(1u8 << 6u8)) | ((1u8 & 1u8) << 6u8)) & !(1u8
                << 7u8)) | ((0u8 & 1u8) << 7u8)) == 0x40u8 && ((((0u8 & !(1u8 << 6u8)) | ((0u8
                & 1u8) << 6u8)) & !(1u8 << 7u8)) | ((1u8 & 1u8) << 7u8)) == 0x80u8) by (bit_vector);
        }
        match self.write_byte(Reg::FuncCfgAccess.addr(), func_cfg_access.into_bits()) {
            Ok(()) => Ok(()),
            Err(_) => Err(Error::FailedToSetMemBank(val)),
        }
    }

    /// Gets the memory bank selected on the device, as FUNC_CFG_ACCESS reads.
    pub fn mem_bank_get(&mut self) -> (r: Result<MemBank, Error<B::Error>>)
        ensures
            exists|b: u8|
                reads_byte(old(self).bus.trace(), final(self).bus.trace(), 0x01, b, r is Ok) && (r
                    is Ok ==> r == Ok::<MemBank, Error<B::Error>>(bank_of_byte(b))),
            r is Err ==> r == Err::<MemBank, Error<B::Error>>(Error::FailedToReadMemBank),
    {
        let ghost t0 = self.bus.trace();
        let res = self.read_byte(Reg::FuncCfgAccess.addr());
        let ghost b = byte_of(self.bus.trace().last());
        let r = match res {
            Err(_) => Err(Error::FailedToReadMemBank),
            Ok(byte) => {
                let func_cfg_access = FuncCfgAccess::from_bits(byte);
                let val = if func_cfg_access.shub_reg_access() == 1 {
                    MemBank::SensorHubMemBank
                } else if func_cfg_access.ispu_reg_access() == 1 {
                    MemBank::IspuMemBank
                } else {
                    MemBank::MainMemBank
                };
                assert(val == bank_of_byte(b));
                Ok(val)
            },
        };
        assert(reads_byte(t0, self.bus.trace(), 0x01, b, r is Ok));
        r
    }

    /// Sets one field of the one-byte register `reg` to `v`, keeping the
    /// other bits as the register reads.
    pub(crate) fn update_field(&mut self, reg: u8, off: u8, width: u8, v: u8) -> (r: Result<(), Error<B::Error>>)
        requires
            valid_field(off, width),
        ensures
            field_updated(old(self).bus.trace(), final(self).bus.trace(), reg, off, width, v, r is Ok),
            r matches Err(e) ==> e is Bus,
    {
        let ghost t0 = self.bus.trace();
        match self.read_byte(reg) {
            Err(e) => {
                let ghost b = byte_of(self.bus.trace().last());
                assert(self.bus.trace() =~= t0 + rmw_ops(reg, b, false, off, width, v, false));
                Err(e)
            },
            Ok(b) => {
                let ghost t1 = self.bus.trace();
                assert(t1 =~= t0.push(reg_read(reg, seq![b], true)));
                let nb = put_field(b, off, width, v);
                let r = self.write_byte(reg, nb);
                assert(self.bus.trace() =~= t0 + rmw_ops(reg, b, true, off, width, v, r is Ok));
                r
            },
        }
    }

    /// Reads the one-byte register `reg` of `bank`, selecting the bank around
    /// the read.
    pub(crate) fn banked_read_byte(&mut self, bank: MemBank, reg: u8) -> (r: Result<u8, Error<B::Error>>)
        ensures
            banked_byte_read(old(self).bus.trace(), final(self).bus.trace(), bank, reg, r),
            r matches Ok(x) ==> x == byte_at(old(self).bus.trace(), final(self).bus.trace(), 1),
    {
        let ghost t0 = self.bus.trace();
        match self.mem_bank_set(bank) {
            Err(e) => {
                let r = Err(e);
                assert(self.bus.trace() =~= t0 + banked_ops(bank, false, seq![reg_read(reg, seq![0u8], false)], false));
                assert(banked_result(bank, false, false, false, r));
                
                r
            },
            Ok(()) => {
                let inner = self.read_byte(reg);
                let ghost b = byte_of(self.bus.trace().last());
                let restore = self.mem_bank_set(MemBank::MainMemBank);
                assert(self.bus.trace() =~= t0 + banked_ops(bank, true, seq![reg_read(reg, seq![b], inner is Ok)], restore is Ok));
                let r = match inner {
                    Err(e) => Err(e),
                    Ok(x) => match restore {
                        Ok(()) => Ok(x),
                        Err(e) => Err(e),
                    },
                };
                assert(banked_result(bank, true, inner is Ok, restore is Ok, r));
                
                r
            },
        }
    }

    /// Sets one field of the one-byte register `reg` of `bank` to `v`,
    /// selecting the bank around the read-modify-write.
    pub(crate) fn banked_update_field(&mut self, bank: MemBank, reg: u8, off: u8, width: u8, v: u8) -> (r: Result<(), Error<B::Error>>)
        requires
            valid_field(off, width),
        ensures
            banked_field_updated(old(self).bus.trace(), final(self).bus.trace(), bank, reg, off, width, v, r),
    {
        let ghost t0 = self.bus.trace();
        match self.mem_bank_set(bank) {
            Err(e) => {
                assert(self.bus.trace() =~= t0 + banked_ops(bank, false, rmw_ops(reg, 0u8, false, off, width, v, false), false));
                Err(e)
            },
            Ok(()) => {
                let ghost t1 = self.bus.trace();
                let inner = self.update_field(reg, off, width, v);
                let ghost t2 = self.bus.trace();
                let ghost b = byte_at(t1, t2, 0);
                let ghost read_ok = ok_at(t1, t2, 0);
                let ghost write_ok = ok_of(t2.last());
                let restore = self.mem_bank_set(MemBank::MainMemBank);
                assert(self.bus.trace() =~= t0 + banked_ops(bank, true, rmw_ops(reg, b, read_ok, off, width, v, write_ok), restore is Ok));
                let r = match inner {
                    Err(e) => Err(e),
                    Ok(x) => match restore {
                        Ok(()) => Ok(x),
                        Err(e) => Err(e),
                    },
                };
                assert(banked_result(bank, true, read_ok && write_ok, restore is Ok, r));
                r
            },
        }
    }

    /// Runs `f` with `bank` selected, then selects the main bank again.
    ///
    /// The selection of `bank` is written first; if it fails, `f` is not run
    /// and the result is `FailedToSetMemBank(bank)`.  Otherwise `f` runs and
    /// the selection of the main bank is written after it whatever `f`
    /// returned, so that the last bank-selection write always selects the main
    /// bank.  The result is `f`'s error if `f` failed, else
    /// `FailedToSetMemBank(MainMemBank)` if the return to the main bank
    /// failed, else `f`'s value.
    pub fn operate_over_bank<R, F>(&mut self, bank: MemBank, f: F) -> (r: Result<R, Error<B::Error>>)
        where
            F: FnOnce(&mut Self) -> Result<R, Error<B::Error>>,
        requires
            forall|s: &mut Self| f.requires((s,)),
            forall|s: &mut Self, res: Result<R, Error<B::Error>>|
                f.ensures((s,), res) ==> extends(s.bus.trace(), final(s).bus.trace()),
        ensures
            extends(old(self).bus.trace(), final(self).bus.trace()),
            final(self).bus.trace().len() > old(self).bus.trace().len(),
            final(self).bus.trace()[old(self).bus.trace().len() as int] == bank_write(bank, ok_at(old(self).bus.trace(), final(self).bus.trace(), 0)),
            !ok_at(old(self).bus.trace(), final(self).bus.trace(), 0) ==> final(self).bus.trace() == old(self).bus.trace().push(bank_write(bank, false))
                && r == Err::<R, Error<B::Error>>(Error::FailedToSetMemBank(bank)),
            ok_at(old(self).bus.trace(), final(self).bus.trace(), 0) ==> final(self).bus.trace().len() >= old(self).bus.trace().len() + 2
                && final(self).bus.trace().last() == bank_write(MemBank::MainMemBank, ok_of(final(self).bus.trace().last()))
                && exists|s: &mut Self, res: Result<R, Error<B::Error>>|
                    f.ensures((s,), res)
                    && s.bus.trace() == old(self).bus.trace().push(bank_write(bank, true))
                    && final(s).bus.trace() == final(self).bus.trace().drop_last()
                    && (res is Err ==> r == res)
                    && (res is Ok ==> r == if ok_of(final(self).bus.trace().last()) { res } else { Err(Error::FailedToSetMemBank(MemBank::MainMemBank)) }),
            ok_of(final(self).bus.trace().last()) ==> selected_bank(final(self).bus.trace()) == MemBank::MainMemBank,
            r is Ok ==> selected_bank(final(self).bus.trace()) == MemBank::MainMemBank,
    {
        let ghost t0 = self.bus.trace();
        if let Err(e) = self.mem_bank_set(bank) {
            proof {
                lemma_bank_select_byte(bank);
                assert(self.bus.trace().subrange(0, t0.len() as int) =~= t0);
                if bank == MemBank::MainMemBank {
                    assert(self.bus.trace().drop_last() =~= t0);
                }
            }
            return Err(e);
        }
        let ghost t1 = self.bus.trace();
        let res = f(self);
        let ghost t2 = self.bus.trace();
        let restore = self.mem_bank_set(MemBank::MainMemBank);
        proof {
            lemma_selected_after(t2, MemBank::MainMemBank);
            assert(self.bus.trace().drop_last() =~= t2);
            assert(t2.subrange(0, t1.len() as int) == t1);
            assert(t1.subrange(0, t0.len() as int) =~= t0);
            assert(self.bus.trace().subrange(0, t0.len() as int) =~= t0) by {
                assert(self.bus.trace().subrange(0, t0.len() as int) =~= t2.subrange(0, t1.len() as int).subrange(0, t0.len() as int));
            }
            assert(self.bus.trace()[t0.len() as int] == t1[t0.len() as int]) by {
                assert(self.bus.trace()[t0.len() as int] == t2.subrange(0, t1.len() as int)[t0.len() as int]);
            }
        }
        let r = match res {
            Err(e) => Err(e),
            Ok(v) => match restore {
                Ok(()) => Ok(v),
                Err(e) => Err(e),
            },
        };
        r
    }

    /// Writes `buf` to consecutive registers of `bank` from `reg` on,
    /// selecting the bank around the write.
    pub(crate) fn banked_write(&mut self, bank: MemBank, reg: u8, buf: &[u8]) -> (r: Result<(), Error<B::Error>>)
        requires
            buf@.len() > 0,
        ensures
            scoped(old(self).bus.trace(), final(self).bus.trace(), bank, seq![reg_write(reg, buf@, ok_at(old(self).bus.trace(), final(self).bus.trace(), 1))], ok_at(old(self).bus.trace(), final(self).bus.trace(), 1), r),
    {
        let ghost t0 = self.bus.trace();
        match self.mem_bank_set(bank) {
            Err(e) => {
                let r = Err(e);
                assert(self.bus.trace() =~= t0 + banked_ops(bank, false, seq![], false));
                return r;
            },
            Ok(()) => {},
        }
        let inner = self.write_to_register(reg, buf);
        let restore = self.mem_bank_set(MemBank::MainMemBank);
        assert(self.bus.trace() =~= t0 + banked_ops(bank, true, seq![reg_write(reg, buf@, inner is Ok)], restore is Ok));
        match inner {
            Err(e) => Err(e),
            Ok(()) => match restore {
                Ok(()) => Ok(()),
                Err(e) => Err(e),
            },
        }
    }

    /// Reads consecutive registers of `bank` from `reg` on into `buf`,
    /// selecting the bank around the read; if the selection fails, `buf` is
    /// left as it was.
    pub(crate) fn banked_read(&mut self, bank: MemBank, reg: u8, buf: &mut [u8]) -> (r: Result<(), Error<B::Error>>)
        ensures
            final(buf)@.len() == old(buf)@.len(),
            !ok_at(old(self).bus.trace(), final(self).bus.trace(), 0) ==> final(buf)@ == old(buf)@,
            scoped(old(self).bus.trace(), final(self).bus.trace(), bank, seq![reg_read(reg, final(buf)@, ok_at(old(self).bus.trace(), final(self).bus.trace(), 1))], ok_at(old(self).bus.trace(), final(self).bus.trace(), 1), r),
    {
        let ghost t0 = self.bus.trace();
        match self.mem_bank_set(bank) {
            Err(e) => {
                let r = Err(e);
                assert(self.bus.trace() =~= t0 + banked_ops(bank, false, seq![], false));
                return r;
            },
            Ok(()) => {},
        }
        let inner = self.read_from_register(reg, buf);
        let restore = self.mem_bank_set(MemBank::MainMemBank);
        assert(self.bus.trace() =~= t0 + banked_ops(bank, true, seq![reg_read(reg, buf@, inner is Ok)], restore is Ok));
        match inner {
            Err(e) => Err(e),
            Ok(()) => match restore {
                Ok(()) => Ok(()),
                Err(e) => Err(e),
            },
        }
    }

    /// Replaces the bits `mask` of the one-byte register `reg` by those of
    /// `bits`, keeping the other bits as the register reads.
    pub(crate) fn update_bits(&mut self, reg: u8, mask: u8, bits: u8) -> (r: Result<(), Error<B::Error>>)
        ensures
            bits_updated(old(self).bus.trace(), final(self).bus.trace(), reg, mask, bits, r is Ok),
            r matches Err(e) ==> e is Bus,
    {
        let ghost t0 = self.bus.trace();
        match self.read_byte(reg) {
            Err(e) => {
                let ghost b = byte_of(self.bus.trace().last());
                assert(self.bus.trace() =~= t0 + merge_ops(reg, b, false, mask, bits, false));
                Err(e)
            },
            Ok(b) => {
                let r = self.write_byte(reg, (b & !mask) | (bits & mask));
                assert(self.bus.trace() =~= t0 + merge_ops(reg, b, true, mask, bits, r is Ok));
                r
            },
        }
    }

    /// Replaces the bits `mask` of the one-byte register `reg` of `bank` by
    /// those of `bits`, selecting the bank around the read-modify-write.
    pub(crate) fn banked_update_bits(&mut self, bank: MemBank, reg: u8, mask: u8, bits: u8) -> (r: Result<(), Error<B::Error>>)
        ensures
            scoped(
                old(self).bus.trace(),
                final(self).bus.trace(),
                bank,
                merge_ops(reg, byte_at(old(self).bus.trace(), final(self).bus.trace(), 1), ok_at(old(self).bus.trace(), final(self).bus.trace(), 1), mask, bits, ok_at(old(self).bus.trace(), final(self).bus.trace(), 2)),
                ok_at(old(self).bus.trace(), final(self).bus.trace(), 1) && ok_at(old(self).bus.trace(), final(self).bus.trace(), 2),
                r,
            ),
    {
        let ghost t0 = self.bus.trace();
        match self.mem_bank_set(bank) {
            Err(e) => {
                assert(self.bus.trace() =~= t0 + banked_ops(bank, false, seq![], false));
                Err(e)
            },
            Ok(()) => {
                let ghost t1 = self.bus.trace();
                let inner = self.update_bits(reg, mask, bits);
                let ghost t2 = self.bus.trace();
                let ghost b = byte_at(t1, t2, 0);
                let ghost read_ok = ok_at(t1, t2, 0);
                let ghost write_ok = ok_of(t2.last());
                let restore = self.mem_bank_set(MemBank::MainMemBank);
                assert(self.bus.trace() =~= t0 + banked_ops(bank, true, merge_ops(reg, b, read_ok, mask, bits, write_ok), restore is Ok));
                match inner {
                    Err(e) => Err(e),
                    Ok(x) => match restore {
                        Ok(()) => Ok(x),
                        Err(e) => Err(e),
                    },
                }
            },
        }
    }
}

impl MemBank {
    /// Runs `f` with the sensor-hub bank selected, then selects the main bank again; see
    /// `Lsm6dso16is::operate_over_bank`.
    pub fn operate_over_sensor_hub<B: BusOperation, T: DelayNs, R, F>(sensor: &mut Lsm6dso16is<B, T>, f: F) -> (r: Result<R, Error<B::Error>>)
        where
            F: FnOnce(&mut Lsm6dso16is<B, T>) -> Result<R, Error<B::Error>>,
        requires
            forall|s: &mut Lsm6dso16is<B, T>| f.requires((s,)),
            forall|s: &mut Lsm6dso16is<B, T>, res: Result<R, Error<B::Error>>|
                f.ensures((s,), res) ==> extends(s.bus.trace(), final(s).bus.trace()),
        ensures
            extends(old(sensor).bus.trace(), final(sensor).bus.trace()),
            final(sensor).bus.trace().len() > old(sensor).bus.trace().len(),
            final(sensor).bus.trace()[old(sensor).bus.trace().len() as int] == bank_write(MemBank::SensorHubMemBank, ok_at(old(sensor).bus.trace(), final(sensor).bus.trace(), 0)),
            !ok_at(old(sensor).bus.trace(), final(sensor).bus.trace(), 0) ==> final(sensor).bus.trace() == old(sensor).bus.trace().push(bank_write(MemBank::SensorHubMemBank, false))
                && r == Err::<R, Error<B::Error>>(Error::FailedToSetMemBank(MemBank::SensorHubMemBank)),
            ok_at(old(sensor).bus.trace(), final(sensor).bus.trace(), 0) ==> final(sensor).bus.trace().len() >= old(sensor).bus.trace().len() + 2
                && final(sensor).bus.trace().last() == bank_write(MemBank::MainMemBank, ok_of(final(sensor).bus.trace().last()))
                && exists|s: &mut Lsm6dso16is<B, T>, res: Result<R, Error<B::Error>>|
                    f.ensures((s,), res)
                    && s.bus.trace() == old(sensor).bus.trace().push(bank_write(MemBank::SensorHubMemBank, true))
                    && final(s).bus.trace() == final(sensor).bus.trace().drop_last()
                    && (res is Err ==> r == res)
                    && (res is Ok ==> r == if ok_of(final(sensor).bus.trace().last()) { res } else { Err(Error::FailedToSetMemBank(MemBank::MainMemBank)) }),
            ok_of(final(sensor).bus.trace().last()) ==> selected_bank(final(sensor).bus.trace()) == MemBank::MainMemBank,
            r is Ok ==> selected_bank(final(sensor).bus.trace()) == MemBank::MainMemBank,
    {
        sensor.operate_over_bank(MemBank::SensorHubMemBank, f)
    }

    /// Runs `f` with the ISPU bank selected, then selects the main bank again; see
    /// `Lsm6dso16is::operate_over_bank`.
    pub fn operate_over_ispu<B: BusOperation, T: DelayNs, R, F>(sensor: &mut Lsm6dso16is<B, T>, f: F) -> (r: Result<R, Error<B::Error>>)
        where
            F: FnOnce(&mut Lsm6dso16is<B, T>) -> Result<R, Error<B::Error>>,
        requires
            forall|s: &mut Lsm6dso16is<B, T>| f.requires((s,)),
            forall|s: &mut Lsm6dso16is<B, T>, res: Result<R, Error<B::Error>>|
                f.ensures((s,), res) ==> extends(s.bus.trace(), final(s).bus.trace()),
        ensures
            extends(old(sensor).bus.trace(), final(sensor).bus.trace()),
            final(sensor).bus.trace().len() > old(sensor).bus.trace().len(),
            final(sensor).bus.trace()[old(sensor).bus.trace().len() as int] == bank_write(MemBank::IspuMemBank, ok_at(old(sensor).bus.trace(), final(sensor).bus.trace(), 0)),
            !ok_at(old(sensor).bus.trace(), final(sensor).bus.trace(), 0) ==> final(sensor).bus.trace() == old(sensor).bus.trace().push(bank_write(MemBank::IspuMemBank, false))
                && r == Err::<R, Error<B::Error>>(Error::FailedToSetMemBank(MemBank::IspuMemBank)),
            ok_at(old(sensor).bus.trace(), final(sensor).bus.trace(), 0) ==> final(sensor).bus.trace().len() >= old(sensor).bus.trace().len() + 2
                && final(sensor).bus.trace().last() == bank_write(MemBank::MainMemBank, ok_of(final(sensor).bus.trace().last()))
                && exists|s: &mut Lsm6dso16is<B, T>, res: Result<R, Error<B::Error>>|
                    f.ensures((s,), res)
                    && s.bus.trace() == old(sensor).bus.trace().push(bank_write(MemBank::IspuMemBank, true))
                    && final(s).bus.trace() == final(sensor).bus.trace().drop_last()
                    && (res is Err ==> r == res)
                    && (res is Ok ==> r == if ok_of(final(sensor).bus.trace().last()) { res } else { Err(Error::FailedToSetMemBank(MemBank::MainMemBank)) }),
            ok_of(final(sensor).bus.trace().last()) ==> selected_bank(final(sensor).bus.trace()) == MemBank::MainMemBank,
            r is Ok ==> selected_bank(final(sensor).bus.trace()) == MemBank::MainMemBank,
    {
        sensor.operate_over_bank(MemBank::IspuMemBank, f)
    }
}

} // verus!
