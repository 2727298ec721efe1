//! Configuring the sensor hub's slots and reading what it gathered.
use crate::bits::{put_field, with_field};
use crate::bus::{added, all_ok, extends, lemma_ran_all, lemma_ran_fail, ran, reg_read, reg_write, with_ok, BusEvent, BusOperation, DelayNs};
use crate::driver::{banked_ops, byte_at, byte_of, ok_at, reads_byte, scoped, Error, Lsm6dso16is};
use crate::register::main::Reg;
use crate::register::sensor_hub::{SensHubReg, ShCfgRead, ShCfgWrite, StatusMaster};
use crate::register::MemBank;
use vstd::prelude::*;

verus! {

/// The SLVx_ADD byte: the 7-bit device address above the read (1) or
/// write (0) bit.
pub open spec fn slave_add_byte(add: u8, read: u8) -> u8 {
    with_field(with_field(0, 1, 7, add), 0, 1, read)
}

/// The transfers that configure slot 0 to write `val.slv0_data` to register
/// `val.slv0_subadd` of device `val.slv0_add`.
pub open spec fn cfg_write_plan(val: ShCfgWrite) -> Seq<BusEvent> {
    seq![
        reg_write(0x15, seq![slave_add_byte(val.slv0_add, 0)], true),
        reg_write(0x16, seq![val.slv0_subadd], true),
        reg_write(0x21, seq![val.slv0_data], true),
    ]
}

/// The address of the SLVx_ADD register of slot `idx` (slot 0 for an index
/// past the last slot); SLVx_SUBADD and SLVx_CONFIG follow it.
pub open spec fn slot_base(idx: u8) -> u8 {
    if idx == 1 {
        0x18
    } else if idx == 2 {
        0x1B
    } else if idx == 3 {
        0x1E
    } else {
        0x15
    }
}

/// The transfers that configure slot `idx` to read `val.slv_len` bytes from
/// register `val.slv_subadd` of device `val.slv_add`; SLVx_CONFIG reads as
/// `c` and is written back with its operation count set.
pub open spec fn cfg_read_plan(idx: u8, val: ShCfgRead, c: u8) -> Seq<BusEvent> {
    seq![
        reg_write(slot_base(idx), seq![slave_add_byte(val.slv_add, 1)], true),
        reg_write((slot_base(idx) + 1) as u8, seq![val.slv_subadd], true),
        reg_read((slot_base(idx) + 2) as u8, seq![c], true),
        reg_write((slot_base(idx) + 2) as u8, seq![with_field(c, 0, 3, val.slv_len)], true),
    ]
}

/// The transfers run in the sensor-hub bank by `sh_slv_cfg_read`.
pub open spec fn cfg_read_done(inner: Seq<BusEvent>, idx: u8, val: ShCfgRead, ok: bool) -> bool {
    ran(inner, cfg_read_plan(idx, val, byte_of(inner[2])), ok)
}

/// `t1` is `t0` followed by the configuration of slot 0 for the write `val`,
/// scoped to the sensor-hub bank; `r` is its result.
pub open spec fn slot0_write_configured<E>(t0: Seq<BusEvent>, t1: Seq<BusEvent>, val: ShCfgWrite, r: Result<(), Error<E>>) -> bool {
    exists|inner: Seq<BusEvent>, inner_ok: bool|
        #[trigger] scoped(t0, t1, MemBank::SensorHubMemBank, inner, inner_ok, r)
            && (ok_at(t0, t1, 0) ==> ran(inner, cfg_write_plan(val), inner_ok))
}

/// `t1` is `t0` followed by the configuration of slot `idx` for the read
/// `val`, scoped to the sensor-hub bank; `r` is its result.
pub open spec fn slot_read_configured<E>(t0: Seq<BusEvent>, t1: Seq<BusEvent>, idx: u8, val: ShCfgRead, r: Result<(), Error<E>>) -> bool {
    exists|inner: Seq<BusEvent>, inner_ok: bool|
        #[trigger] scoped(t0, t1, MemBank::SensorHubMemBank, inner, inner_ok, r)
            && (ok_at(t0, t1, 0) ==> cfg_read_done(inner, idx, val, inner_ok))
}

/// `t1` is `t0` followed by a read of the sensor hub's outputs from
/// SENSOR_HUB_1 on that gave `data`, scoped to the sensor-hub bank.
pub open spec fn hub_outputs_read<E>(t0: Seq<BusEvent>, t1: Seq<BusEvent>, data: Seq<u8>, r: Result<(), Error<E>>) -> bool {
    exists|inner_ok: bool|
        #[trigger] scoped(t0, t1, MemBank::SensorHubMemBank, seq![reg_read(0x02, data, inner_ok)], inner_ok, r)
}

impl<B: BusOperation, T: DelayNs> Lsm6dso16is<B, T> {
    fn cfg_write_in_bank(&mut self, val: ShCfgWrite) -> (r: Result<(), Error<B::Error>>)
        ensures
            extends(old(self).bus.trace(), final(self).bus.trace()),
            ran(added(old(self).bus.trace(), final(self).bus.trace()), cfg_write_plan(val), r is Ok),
            r matches Err(e) ==> e is Bus,
    {
        let ghost t0 = self.bus.trace();
        let ghost plan = cfg_write_plan(val);
        assert(all_ok(plan));
        let add = put_field(put_field(0, 1, 7, val.slv0_add), 0, 1, 0);
        let r0 = self.write_byte(SensHubReg::Slv0Add.addr(), add);
        assert(self.bus.trace().subrange(0, t0.len() as int) =~= t0);
        if r0.is_err() {
            proof {
                lemma_ran_fail(plan, 0);
                assert(added(t0, self.bus.trace()) =~= plan.subrange(0, 0).push(with_ok(plan[0], false)));
            }
            return r0;
        }
        assert(added(t0, self.bus.trace()) =~= plan.subrange(0, 1));
        let r1 = self.write_byte(SensHubReg::Slv0Subadd.addr(), val.slv0_subadd);
        assert(self.bus.trace().subrange(0, t0.len() as int) =~= t0);
        if r1.is_err() {
            proof {
                lemma_ran_fail(plan, 1);
                assert(added(t0, self.bus.trace()) =~= plan.subrange(0, 1).push(with_ok(plan[1], false)));
            }
            return r1;
        }
        assert(added(t0, self.bus.trace()) =~= plan.subrange(0, 2));
        let r2 = self.write_byte(SensHubReg::DatawriteSlv0.addr(), val.slv0_data);
        assert(self.bus.trace().subrange(0, t0.len() as int) =~= t0);
        proof {
            if r2.is_err() {
                lemma_ran_fail(plan, 2);
                assert(added(t0, self.bus.trace()) =~= plan.subrange(0, 2).push(with_ok(plan[2], false)));
            } else {
                lemma_ran_all(plan);
                assert(added(t0, self.bus.trace()) =~= plan);
            }
        }
        r2
    }

    /// Configures slot 0 of the sensor hub to perform a write: `val` holds the
    /// device address, the register address on the device and the byte to
    /// write.  The sensor-hub bank is selected around the configuration.
    pub fn sh_cfg_write(&mut self, val: ShCfgWrite) -> (r: Result<(), Error<B::Error>>)
        ensures
            slot0_write_configured(old(self).bus.trace(), final(self).bus.trace(), val, r),
    {
        let ghost t0 = self.bus.trace();
        match self.mem_bank_set(MemBank::SensorHubMemBank) {
            Err(e) => {
                let r = Err(e);
                assert(self.bus.trace() =~= t0 + banked_ops(MemBank::SensorHubMemBank, false, seq![], false));
                assert(scoped(t0, self.bus.trace(), MemBank::SensorHubMemBank, seq![], false, r));
                return r;
            },
            Ok(()) => {},
        }
        let ghost t1 = self.bus.trace();
        let inner = self.cfg_write_in_bank(val);
        let ghost t2 = self.bus.trace();
        let ghost inner_ops = added(t1, t2);
        let restore = self.mem_bank_set(MemBank::MainMemBank);
        let r = match inner {
            Err(e) => Err(e),
            Ok(()) => match restore {
                Ok(()) => Ok(()),
                Err(e) => Err(e),
            },
        };
        proof {
            assert(t2 =~= t1 + inner_ops);
            assert(self.bus.trace() =~= t0 + banked_ops(MemBank::SensorHubMemBank, true, inner_ops, restore is Ok));
            assert(ok_at(t0, self.bus.trace(), 0));
            assert(scoped(t0, self.bus.trace(), MemBank::SensorHubMemBank, inner_ops, inner is Ok, r));
        }
        r
    }

    fn cfg_read_in_bank(&mut self, idx: u8, val: &ShCfgRead) -> (r: Result<(), Error<B::Error>>)
        ensures
            extends(old(self).bus.trace(), final(self).bus.trace()),
            cfg_read_done(added(old(self).bus.trace(), final(self).bus.trace()), idx, *val, r is Ok),
            r matches Err(e) ==> e is Bus,
    {
        let ghost t0 = self.bus.trace();
        let base: u8 = if idx == 1 {
            SensHubReg::Slv1Add.addr()
        } else if idx == 2 {
            SensHubReg::Slv2Add.addr()
        } else if idx == 3 {
            SensHubReg::Slv3Add.addr()
        } else {
            SensHubReg::Slv0Add.addr()
        };
        let add = put_field(put_field(0, 1, 7, val.slv_add), 0, 1, 1);
        let r0 = self.write_byte(base, add);
        assert(self.bus.trace().subrange(0, t0.len() as int) =~= t0);
        if r0.is_err() {
            let ghost plan = cfg_read_plan(idx, *val, byte_of(added(t0, self.bus.trace())[2]));
            proof {
                assert(all_ok(plan));
                lemma_ran_fail(plan, 0);
                assert(added(t0, self.bus.trace()) =~= plan.subrange(0, 0).push(with_ok(plan[0], false)));
            }
            return r0;
        }
        let ghost t1 = self.bus.trace();
        let r1 = self.write_byte(base + 1, val.slv_subadd);
        assert(self.bus.trace().subrange(0, t0.len() as int) =~= t0);
        if r1.is_err() {
            let ghost plan = cfg_read_plan(idx, *val, byte_of(added(t0, self.bus.trace())[2]));
            proof {
                assert(all_ok(plan));
                lemma_ran_fail(plan, 1);
                assert(added(t0, self.bus.trace()) =~= plan.subrange(0, 1).push(with_ok(plan[1], false)));
            }
            return r1;
        }
        let ghost t2 = self.bus.trace();
        let rc = self.read_byte(base + 2);
        let ghost c = byte_of(self.bus.trace().last());
        let ghost plan = cfg_read_plan(idx, *val, c);
        assert(all_ok(plan));
        assert(self.bus.trace().subrange(0, t0.len() as int) =~= t0);
        assert(added(t0, self.bus.trace())[2] == self.bus.trace().last());
        let cfg = match rc {
            Err(e) => {
                proof {
                    lemma_ran_fail(plan, 2);
                    assert(added(t0, self.bus.trace()) =~= plan.subrange(0, 2).push(with_ok(plan[2], false)));
                }
                return Err(e);
            },
            Ok(cfg) => cfg,
        };
        assert(added(t0, self.bus.trace()) =~= plan.subrange(0, 3));
        let r3 = self.write_byte(base + 2, put_field(cfg, 0, 3, val.slv_len));
        assert(self.bus.trace().subrange(0, t0.len() as int) =~= t0);
        assert(added(t0, self.bus.trace())[2] == plan[2]);
        proof {
            if r3.is_err() {
                lemma_ran_fail(plan, 3);
                assert(added(t0, self.bus.trace()) =~= plan.subrange(0, 3).push(with_ok(plan[3], false)));
            } else {
                lemma_ran_all(plan);
                assert(added(t0, self.bus.trace()) =~= plan);
            }
        }
        r3
    }

    /// Configures slot `idx` (0 to 3; any other index stands for slot 0) of
    /// the sensor hub to read `val.slv_len` bytes from register
    /// `val.slv_subadd` of device `val.slv_add`.  The sensor-hub bank is
    /// selected around the configuration.
    pub fn sh_slv_cfg_read(&mut self, idx: u8, val: &ShCfgRead) -> (r: Result<(), Error<B::Error>>)
        ensures
            slot_read_configured(old(self).bus.trace(), final(self).bus.trace(), idx, *val, r),
    {
        let ghost t0 = self.bus.trace();
        match self.mem_bank_set(MemBank::SensorHubMemBank) {
            Err(e) => {
                let r = Err(e);
                assert(self.bus.trace() =~= t0 + banked_ops(MemBank::SensorHubMemBank, false, seq![], false));
                assert(scoped(t0, self.bus.trace(), MemBank::SensorHubMemBank, seq![], false, r));
                return r;
            },
            Ok(()) => {},
        }
        let ghost t1 = self.bus.trace();
        let inner = self.cfg_read_in_bank(idx, val);
        let ghost t2 = self.bus.trace();
        let ghost inner_ops = added(t1, t2);
        let restore = self.mem_bank_set(MemBank::MainMemBank);
        let r = match inner {
            Err(e) => Err(e),
            Ok(()) => match restore {
                Ok(()) => Ok(()),
                Err(e) => Err(e),
            },
        };
        proof {
            assert(t2 =~= t1 + inner_ops);
            assert(self.bus.trace() =~= t0 + banked_ops(MemBank::SensorHubMemBank, true, inner_ops, restore is Ok));
            assert(ok_at(t0, self.bus.trace(), 0));
            assert(scoped(t0, self.bus.trace(), MemBank::SensorHubMemBank, inner_ops, inner is Ok, r));
        }
        r
    }

    /// Reads the sensor hub's output registers from SENSOR_HUB_1 on into
    /// `val`, as many as `val` holds.  The sensor-hub bank is selected around
    /// the read; if that fails, `val` is left as it was.
    pub fn sh_read_data_raw_get(&mut self, val: &mut [u8]) -> (r: Result<(), Error<B::Error>>)
        ensures
            final(val)@.len() == old(val)@.len(),
            !ok_at(old(self).bus.trace(), final(self).bus.trace(), 0) ==> final(val)@ == old(val)@,
            hub_outputs_read(old(self).bus.trace(), final(self).bus.trace(), final(val)@, r),
    {
        let ghost t0 = self.bus.trace();
        match self.mem_bank_set(MemBank::SensorHubMemBank) {
            Err(e) => {
                let r = Err(e);
                assert(self.bus.trace() =~= t0 + banked_ops(MemBank::SensorHubMemBank, false, seq![reg_read(0x02, val@, false)], false));
                assert(scoped(t0, self.bus.trace(), MemBank::SensorHubMemBank, seq![reg_read(0x02, val@, false)], false, r));
                return r;
            },
            Ok(()) => {},
        }
        let inner = self.read_from_register(SensHubReg::SensorHub1.addr(), val);
        let restore = self.mem_bank_set(MemBank::MainMemBank);
        let r = match inner {
            Err(e) => Err(e),
            Ok(()) => match restore {
                Ok(()) => Ok(()),
                Err(e) => Err(e),
            },
        };
        proof {
            assert(self.bus.trace() =~= t0 + banked_ops(MemBank::SensorHubMemBank, true, seq![reg_read(0x02, val@, inner is Ok)], restore is Ok));
            assert(ok_at(t0, self.bus.trace(), 0));
            assert(scoped(t0, self.bus.trace(), MemBank::SensorHubMemBank, seq![reg_read(0x02, val@, inner is Ok)], inner is Ok, r));
        }
        r
    }

    /// Reads STATUS_MASTER_MAINPAGE: the sensor hub's end-of-operation flag,
    /// the slaves' NACK flags and the write-once flag.
    pub fn sh_status_get(&mut self) -> (r: Result<StatusMaster, Error<B::Error>>)
        ensures
            reads_byte(old(self).bus.trace(), final(self).bus.trace(), 0x39, byte_at(old(self).bus.trace(), final(self).bus.trace(), 0), r is Ok),
            r matches Ok(s) ==> s.0 == byte_at(old(self).bus.trace(), final(self).bus.trace(), 0),
            r matches Err(e) ==> e is Bus,
    {
        let v = self.read_byte(Reg::StatusMasterMainpage.addr())?;
        Ok(StatusMaster::from_bits(v))
    }
}

} // verus!
