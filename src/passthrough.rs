//! The sensor-hub bridge: a bus to a secondary device that is reached only
//! through the sensor's auxiliary I2C master.
//!
//! One exchange with the secondary device is a hub cycle: slot 0 is
//! configured, the accelerometer is stopped, the hub master enabled and the
//! accelerometer restarted, so that its next sample triggers the hub; the
//! accelerometer data-ready flag and then the hub's end-of-operation flag are
//! polled; finally the master and the accelerometer are switched off again.
//! Each step is a stage: the cycle stops at the first stage that fails, and
//! nothing configured before is undone.
use crate::bits::{field_of, get_field};
use crate::bus::{added, extends, lemma_stage_step, lemma_stages_complete, ok_of, reg_read, stages_done, staged, BusEvent, BusOperation, DelayNs, Stages};
use crate::composite::xl_rate_written;
use crate::driver::{banked_field_updated, byte_of, is_byte_read, Error, Lsm6dso16is};
use crate::register::main::{Reg, XlDataRate};
use crate::register::sensor_hub::{ShCfgRead, ShCfgWrite, ShSlaveConnected};
use crate::register::MemBank;
use crate::sensor_hub::{hub_outputs_read, slot0_write_configured, slot_read_configured};
use vstd::prelude::*;

verus! {

/// How many times a status flag is polled before a hub cycle gives up.
pub const MAX_POLLS: u32 = 1000;

/// Milliseconds waited before each poll of a status flag.
pub const POLL_INTERVAL_MS: u32 = 20;

/// The most bytes one hub read can fetch: the slot's operation count has
/// three bits.
pub const MAX_HUB_READ: usize = 7;

/// `t1` is `t0` followed by polls of the flag at bit 0 of the one-byte
/// register `reg`, waiting for it to read set (or clear, when `!set`), at
/// most `MAX_POLLS` polls: every poll but the last went through and read the
/// flag not yet as awaited.  `ok` holds exactly when the last poll went
/// through and read the flag as awaited; otherwise the last poll failed, or
/// all `MAX_POLLS` polls read it not as awaited.
pub open spec fn polled(t0: Seq<BusEvent>, t1: Seq<BusEvent>, reg: u8, set: bool, ok: bool) -> bool {
    let d = added(t0, t1);
    &&& extends(t0, t1)
    &&& 1 <= d.len() <= MAX_POLLS
    &&& forall|k: int| 0 <= k < d.len() ==> is_byte_read(#[trigger] d[k], reg)
    &&& forall|k: int| 0 <= k < d.len() - 1 ==> ok_of(#[trigger] d[k]) && (field_of(byte_of(d[k]), 0, 1) != 0) != set
    &&& ok <==> ok_of(d.last()) && (field_of(byte_of(d.last()), 0, 1) != 0) == set
    &&& !ok ==> !ok_of(d.last()) || (d.len() == MAX_POLLS && (field_of(byte_of(d.last()), 0, 1) != 0) != set)
}

/// Slot 0 was configured for the write `val`, and `ok` tells whether that
/// went through.
pub open spec fn slot0_done<E>(ta: Seq<BusEvent>, tb: Seq<BusEvent>, val: ShCfgWrite, ok: bool) -> bool {
    exists|r: Result<(), Error<E>>| #[trigger] slot0_write_configured(ta, tb, val, r) && (ok <==> r is Ok)
}

/// Slot 0 was configured for the read `val`, and `ok` tells whether that
/// went through.
pub open spec fn slot0_read_done<E>(ta: Seq<BusEvent>, tb: Seq<BusEvent>, val: ShCfgRead, ok: bool) -> bool {
    exists|r: Result<(), Error<E>>| #[trigger] slot_read_configured(ta, tb, 0, val, r) && (ok <==> r is Ok)
}

/// A field of MASTER_CONFIG was set to `v`, and `ok` tells whether that went
/// through.
pub open spec fn master_config_done<E>(ta: Seq<BusEvent>, tb: Seq<BusEvent>, off: u8, width: u8, v: u8, ok: bool) -> bool {
    exists|r: Result<(), Error<E>>| #[trigger] banked_field_updated(ta, tb, MemBank::SensorHubMemBank, 0x14, off, width, v, r) && (ok <==> r is Ok)
}

/// The hub's outputs were read as `data`, and `ok` tells whether that went
/// through.
pub open spec fn outputs_done<E>(ta: Seq<BusEvent>, tb: Seq<BusEvent>, data: Seq<u8>, ok: bool) -> bool {
    exists|r: Result<(), Error<E>>| #[trigger] hub_outputs_read(ta, tb, data, r) && (ok <==> r is Ok)
}

/// One read of the six accelerometer output bytes, gone through when `ok`.
pub open spec fn accel_read(ta: Seq<BusEvent>, tb: Seq<BusEvent>, ok: bool) -> bool {
    &&& tb == ta.push(reg_read(0x28, tb.last()->WriteRead_data, ok))
    &&& tb.last()->WriteRead_data.len() == 6
}

/// Stage `k` of a hub write cycle of `data` to register `sub` of the device
/// at `add`: slot 0 configured; accelerometer off; hub master on;
/// accelerometer at 26 Hz, which triggers the hub; one read of the
/// accelerometer outputs; polls of the data-ready flag, then of the
/// end-of-operation flag; hub master off; accelerometer off.
pub open spec fn write_stage<E>(k: int, ta: Seq<BusEvent>, tb: Seq<BusEvent>, add: u8, sub: u8, data: u8, ok: bool) -> bool {
    if k == 0 {
        slot0_done::<E>(ta, tb, ShCfgWrite { slv0_add: add, slv0_subadd: sub, slv0_data: data }, ok)
    } else if k == 1 {
        xl_rate_written(ta, tb, 0x00, ok)
    } else if k == 2 {
        master_config_done::<E>(ta, tb, 2, 1, 1, ok)
    } else if k == 3 {
        xl_rate_written(ta, tb, 0x02, ok)
    } else if k == 4 {
        accel_read(ta, tb, ok)
    } else if k == 5 {
        polled(ta, tb, 0x1E, true, ok)
    } else if k == 6 {
        polled(ta, tb, 0x39, true, ok)
    } else if k == 7 {
        master_config_done::<E>(ta, tb, 2, 1, 0, ok)
    } else {
        xl_rate_written(ta, tb, 0x00, ok)
    }
}

/// The stages of a hub write cycle.
pub open spec fn write_stages<E>(add: u8, sub: u8, data: u8) -> Stages {
    |k: int, ta: Seq<BusEvent>, tb: Seq<BusEvent>, ok: bool| write_stage::<E>(k, ta, tb, add, sub, data, ok)
}

/// The number of stages of a hub write cycle.
pub open spec fn write_stage_count() -> int {
    9
}

/// A hub write cycle of `data` to register `sub` of the device at `add`,
/// through the records `ts`; `ok` holds exactly when every stage went
/// through.
pub open spec fn hub_write_cycle<E>(ts: Seq<Seq<BusEvent>>, add: u8, sub: u8, data: u8, ok: bool) -> bool {
    staged(ts, write_stages::<E>(add, sub, data), 9, ok)
}

/// Stage `k` of a hub read cycle of `data` from register `sub` of the device
/// at `add`: accelerometer off; slot 0 configured to read `data.len()`
/// bytes; only slot 0 connected; hub master on; accelerometer at 26 Hz; one
/// read of the accelerometer outputs; polls of the data-ready flag, then of
/// the end-of-operation flag; hub master off; accelerometer off; and the read
/// of the hub's outputs.
pub open spec fn read_stage<E>(k: int, ta: Seq<BusEvent>, tb: Seq<BusEvent>, add: u8, sub: u8, data: Seq<u8>, ok: bool) -> bool {
    if k == 0 {
        xl_rate_written(ta, tb, 0x00, ok)
    } else if k == 1 {
        slot0_read_done::<E>(ta, tb, ShCfgRead { slv_add: add, slv_subadd: sub, slv_len: data.len() as u8 }, ok)
    } else if k == 2 {
        master_config_done::<E>(ta, tb, 0, 2, 0, ok)
    } else if k == 3 {
        master_config_done::<E>(ta, tb, 2, 1, 1, ok)
    } else if k == 4 {
        xl_rate_written(ta, tb, 0x02, ok)
    } else if k == 5 {
        accel_read(ta, tb, ok)
    } else if k == 6 {
        polled(ta, tb, 0x1E, true, ok)
    } else if k == 7 {
        polled(ta, tb, 0x39, true, ok)
    } else if k == 8 {
        master_config_done::<E>(ta, tb, 2, 1, 0, ok)
    } else if k == 9 {
        xl_rate_written(ta, tb, 0x00, ok)
    } else {
        outputs_done::<E>(ta, tb, data, ok)
    }
}

/// The stages of a hub read cycle.
pub open spec fn read_stages<E>(add: u8, sub: u8, data: Seq<u8>) -> Stages {
    |k: int, ta: Seq<BusEvent>, tb: Seq<BusEvent>, ok: bool| read_stage::<E>(k, ta, tb, add, sub, data, ok)
}

/// What a hub read of `data` from register `sub` of the device at `add`
/// did, from `t0` to `t1`, with result `r`.  More than `MAX_HUB_READ` bytes
/// are refused with `UnexpectedValue` before any transfer.  Otherwise the
/// eleven stages ran in order up to the first that failed, and the result is
/// `Ok` exactly when all went through.
pub open spec fn hub_read<E>(t0: Seq<BusEvent>, t1: Seq<BusEvent>, add: u8, sub: u8, data: Seq<u8>, r: Result<(), Error<E>>) -> bool {
    if data.len() > MAX_HUB_READ {
        t1 == t0 && r == Err::<(), Error<E>>(Error::UnexpectedValue)
    } else {
        exists|ts: Seq<Seq<BusEvent>>|
            ts[0] == t0 && ts.last() == t1 && #[trigger] staged(ts, read_stages::<E>(add, sub, data), 11, r is Ok)
    }
}

/// The first ten stages of a hub read depend on how many bytes are read,
/// not on what they are.
pub proof fn lemma_read_stages_data<E>(ts: Seq<Seq<BusEvent>>, add: u8, sub: u8, d0: Seq<u8>, d1: Seq<u8>)
    requires
        stages_done(ts, read_stages::<E>(add, sub, d0)),
        ts.len() <= 11,
        d0.len() == d1.len(),
    ensures
        stages_done(ts, read_stages::<E>(add, sub, d1)),
{
    let s1 = read_stages::<E>(add, sub, d1);
    let s0 = read_stages::<E>(add, sub, d0);
    assert forall|k: int| 0 <= k < ts.len() - 1 implies #[trigger] s1(k, ts[k], ts[k + 1], true) by {
        assert(s0(k, ts[k], ts[k + 1], true));
    }
}

/// The register that byte `k + 1` of a bridge write goes to.
pub open spec fn write_target(wbuf: Seq<u8>, k: int) -> u8 {
    ((wbuf[0] + k) % 256) as u8
}

/// Stage `k` of a bridge write: a whole hub write cycle of `wbuf[k + 1]` to
/// register `wbuf[0] + k`.
pub open spec fn byte_stage<E>(k: int, ta: Seq<BusEvent>, tb: Seq<BusEvent>, add: u8, wbuf: Seq<u8>, ok: bool) -> bool {
    exists|cts: Seq<Seq<BusEvent>>|
        cts[0] == ta && cts.last() == tb && #[trigger] hub_write_cycle::<E>(cts, add, write_target(wbuf, k), wbuf[k + 1], ok)
}

/// The stages of a bridge write.
pub open spec fn byte_stages<E>(add: u8, wbuf: Seq<u8>) -> Stages {
    |k: int, ta: Seq<BusEvent>, tb: Seq<BusEvent>, ok: bool| byte_stage::<E>(k, ta, tb, add, wbuf, ok)
}

/// What a bridge write of `wbuf` to the device at `add` did, from `t0` to
/// `t1`, with result `r`: nothing, and `Ok`, for fewer than two bytes;
/// otherwise one hub write cycle per byte after the first, in order, up to the
/// first cycle that failed, and `Ok` exactly when all went through.
pub open spec fn hub_writes<E>(t0: Seq<BusEvent>, t1: Seq<BusEvent>, add: u8, wbuf: Seq<u8>, r: Result<(), Error<E>>) -> bool {
    if wbuf.len() <= 1 {
        t1 == t0 && r is Ok
    } else {
        exists|ts: Seq<Seq<BusEvent>>|
            ts[0] == t0 && ts.last() == t1 && #[trigger] staged(ts, byte_stages::<E>(add, wbuf), wbuf.len() - 1, r is Ok)
    }
}

impl<B: BusOperation, T: DelayNs> Lsm6dso16is<B, T> {
    /// Polls the accelerometer data-ready flag (bit 0 of STATUS_REG), waiting
    /// before each poll, until it reads set; gives up with `Timeout` after
    /// `MAX_POLLS` polls that read it clear.
    fn wait_data_ready(&mut self) -> (r: Result<(), Error<B::Error>>)
        ensures
            polled(old(self).bus.trace(), final(self).bus.trace(), 0x1E, true, r is Ok),
            r matches Err(e) ==> e is Bus || e is Timeout,
    {
        self.poll_bit(Reg::StatusReg.addr(), true, true)
    }

    /// Polls the sensor hub's end-of-operation flag (bit 0 of
    /// STATUS_MASTER_MAINPAGE), waiting before each poll when `wait` holds,
    /// until it reads set; gives up with `Timeout` after `MAX_POLLS` polls
    /// that read it clear.
    fn wait_end_op(&mut self, wait: bool) -> (r: Result<(), Error<B::Error>>)
        ensures
            polled(old(self).bus.trace(), final(self).bus.trace(), 0x39, true, r is Ok),
            r matches Err(e) ==> e is Bus || e is Timeout,
    {
        self.poll_bit(Reg::StatusMasterMainpage.addr(), true, wait)
    }

    /// Polls bit 0 of the one-byte register `reg` until it reads set (or
    /// clear, when `!set`), waiting before each poll when `wait` holds; gives
    /// up with `Timeout` after `MAX_POLLS` polls.
    pub(crate) fn poll_bit(&mut self, reg: u8, set: bool, wait: bool) -> (r: Result<(), Error<B::Error>>)
        ensures
            polled(old(self).bus.trace(), final(self).bus.trace(), reg, set, r is Ok),
            r matches Err(e) ==> e is Bus || e is Timeout,
    {
        let ghost t0 = self.bus.trace();
        assert(t0.subrange(0, t0.len() as int) =~= t0);
        let mut polls: u32 = 0;
        loop
            invariant
                t0 == old(self).bus.trace(),
                extends(t0, self.bus.trace()),
                added(t0, self.bus.trace()).len() == polls,
                forall|k: int| 0 <= k < polls ==> is_byte_read(#[trigger] added(t0, self.bus.trace())[k], reg),
                forall|k: int| 0 <= k < polls ==> ok_of(#[trigger] added(t0, self.bus.trace())[k]) && (field_of(byte_of(added(t0, self.bus.trace())[k]), 0, 1) != 0) != set,
                polls <= MAX_POLLS,
            decreases MAX_POLLS - polls,
        {
            if polls == MAX_POLLS {
                return Err(Error::Timeout);
            }
            if wait {
                self.tim.delay_ms(POLL_INTERVAL_MS);
            }
            let ghost t = self.bus.trace();
            let b = self.read_byte(reg);
            proof {
                let t1 = self.bus.trace();
                assert(t1.subrange(0, t0.len() as int) =~= t0);
                assert(added(t0, t1) =~= added(t0, t).push(t1.last()));
            }
            match b {
                Err(e) => return Err(e),
                Ok(v) => {
                    if (get_field(v, 0, 1) != 0) == set {
                        return Ok(());
                    }
                },
            }
            polls = polls + 1;
        }
    }

    /// Writes `data` to register `sub` of the secondary device at I2C address
    /// `add`, in one sensor-hub cycle: the stages of `write_stage`, in order,
    /// stopping at the first that fails.  Nothing configured before a failure
    /// is undone.  The result is `Ok` exactly when every stage went through.
    pub fn sh_passthrough_write_byte(&mut self, add: u8, sub: u8, data: u8) -> (r: Result<(), Error<B::Error>>)
        ensures
            exists|ts: Seq<Seq<BusEvent>>|
                ts[0] == old(self).bus.trace() && ts.last() == final(self).bus.trace()
                    && #[trigger] hub_write_cycle::<B::Error>(ts, add, sub, data, r is Ok),
    {
        let ghost st = write_stages::<B::Error>(add, sub, data);
        let ghost t0 = self.bus.trace();
        let ghost mut ts: Seq<Seq<BusEvent>> = seq![t0];
        let val = ShCfgWrite { slv0_add: add, slv0_subadd: sub, slv0_data: data };
        let r0 = self.sh_cfg_write(val);
        proof {
            assert(slot0_write_configured(ts.last(), self.bus.trace(), val, r0));
            assert(st(0, ts.last(), self.bus.trace(), r0 is Ok));
            lemma_stage_step(ts, st, 9, self.bus.trace(), r0 is Ok);
            ts = ts.push(self.bus.trace());
            assert(ts[0] == t0);
        }
        if let Err(e) = r0 {
            assert(staged(ts, st, 9, false));
            assert(hub_write_cycle::<B::Error>(ts, add, sub, data, false));
            assert(ts[0] == old(self).bus.trace() && ts.last() == self.bus.trace());
            return Err(e);
        }
        // Stop the accelerometer, so that it does not trigger the hub early.
        let r1 = self.xl_data_rate_set(XlDataRate::Off);
        proof {
            assert(st(1, ts.last(), self.bus.trace(), r1 is Ok));
            lemma_stage_step(ts, st, 9, self.bus.trace(), r1 is Ok);
            ts = ts.push(self.bus.trace());
            assert(ts[0] == t0);
        }
        if let Err(e) = r1 {
            assert(staged(ts, st, 9, false));
            assert(hub_write_cycle::<B::Error>(ts, add, sub, data, false));
            assert(ts[0] == old(self).bus.trace() && ts.last() == self.bus.trace());
            return Err(e);
        }
        let r2 = self.sh_master_set(1);
        proof {
            assert(banked_field_updated(ts.last(), self.bus.trace(), MemBank::SensorHubMemBank, 0x14, 2, 1, 1, r2));
            assert(st(2, ts.last(), self.bus.trace(), r2 is Ok));
            lemma_stage_step(ts, st, 9, self.bus.trace(), r2 is Ok);
            ts = ts.push(self.bus.trace());
            assert(ts[0] == t0);
        }
        if let Err(e) = r2 {
            assert(staged(ts, st, 9, false));
            assert(hub_write_cycle::<B::Error>(ts, add, sub, data, false));
            assert(ts[0] == old(self).bus.trace() && ts.last() == self.bus.trace());
            return Err(e);
        }
        // The accelerometer's next sample triggers the hub.
        let r3 = self.xl_data_rate_set(XlDataRate::_26hzHp);
        proof {
            assert(st(3, ts.last(), self.bus.trace(), r3 is Ok));
            lemma_stage_step(ts, st, 9, self.bus.trace(), r3 is Ok);
            ts = ts.push(self.bus.trace());
            assert(ts[0] == t0);
        }
        if let Err(e) = r3 {
            assert(staged(ts, st, 9, false));
            assert(hub_write_cycle::<B::Error>(ts, add, sub, data, false));
            assert(ts[0] == old(self).bus.trace() && ts.last() == self.bus.trace());
            return Err(e);
        }
        let r4 = self.acceleration_raw_get();
        proof {
            assert(st(4, ts.last(), self.bus.trace(), r4 is Ok));
            lemma_stage_step(ts, st, 9, self.bus.trace(), r4 is Ok);
            ts = ts.push(self.bus.trace());
            assert(ts[0] == t0);
        }
        if let Err(e) = r4 {
            assert(staged(ts, st, 9, false));
            assert(hub_write_cycle::<B::Error>(ts, add, sub, data, false));
            assert(ts[0] == old(self).bus.trace() && ts.last() == self.bus.trace());
            return Err(e);
        }
        let r5 = self.wait_data_ready();
        proof {
            assert(st(5, ts.last(), self.bus.trace(), r5 is Ok));
            lemma_stage_step(ts, st, 9, self.bus.trace(), r5 is Ok);
            ts = ts.push(self.bus.trace());
            assert(ts[0] == t0);
        }
        if let Err(e) = r5 {
            assert(staged(ts, st, 9, false));
            assert(hub_write_cycle::<B::Error>(ts, add, sub, data, false));
            assert(ts[0] == old(self).bus.trace() && ts.last() == self.bus.trace());
            return Err(e);
        }
        let r6 = self.wait_end_op(true);
        proof {
            assert(st(6, ts.last(), self.bus.trace(), r6 is Ok));
            lemma_stage_step(ts, st, 9, self.bus.trace(), r6 is Ok);
            ts = ts.push(self.bus.trace());
            assert(ts[0] == t0);
        }
        if let Err(e) = r6 {
            assert(staged(ts, st, 9, false));
            assert(hub_write_cycle::<B::Error>(ts, add, sub, data, false));
            assert(ts[0] == old(self).bus.trace() && ts.last() == self.bus.trace());
            return Err(e);
        }
        let r7 = self.sh_master_set(0);
        proof {
            assert(banked_field_updated(ts.last(), self.bus.trace(), MemBank::SensorHubMemBank, 0x14, 2, 1, 0, r7));
            assert(st(7, ts.last(), self.bus.trace(), r7 is Ok));
            lemma_stage_step(ts, st, 9, self.bus.trace(), r7 is Ok);
            ts = ts.push(self.bus.trace());
            assert(ts[0] == t0);
        }
        if let Err(e) = r7 {
            assert(staged(ts, st, 9, false));
            assert(hub_write_cycle::<B::Error>(ts, add, sub, data, false));
            assert(ts[0] == old(self).bus.trace() && ts.last() == self.bus.trace());
            return Err(e);
        }
        let r8 = self.xl_data_rate_set(XlDataRate::Off);
        proof {
            assert(st(8, ts.last(), self.bus.trace(), r8 is Ok));
            lemma_stage_step(ts, st, 9, self.bus.trace(), r8 is Ok);
            ts = ts.push(self.bus.trace());
            assert(ts[0] == t0);
        }
        if let Err(e) = r8 {
            assert(staged(ts, st, 9, false));
            assert(hub_write_cycle::<B::Error>(ts, add, sub, data, false));
            assert(ts[0] == old(self).bus.trace() && ts.last() == self.bus.trace());
            return Err(e);
        }
        assert(staged(ts, st, 9, true));
        let r: Result<(), Error<B::Error>> = Ok(());
        assert(hub_write_cycle::<B::Error>(ts, add, sub, data, r is Ok));
        assert(ts[0] == old(self).bus.trace() && ts.last() == self.bus.trace());
        r
    }

    /// Writes `wbuf[1..]` to consecutive registers of the secondary device at
    /// I2C address `add`, from register `wbuf[0]` on (wrapping past 0xFF),
    /// one hub write cycle per byte, in order, stopping at the first cycle that
    /// fails.  Fewer than two bytes make no transfer and give `Ok`.
    pub fn sh_passthrough_write(&mut self, add: u8, wbuf: &[u8]) -> (r: Result<(), Error<B::Error>>)
        ensures
            hub_writes::<B::Error>(old(self).bus.trace(), final(self).bus.trace(), add, wbuf@, r),
    {
        if wbuf.len() <= 1 {
            return Ok(());
        }
        let ghost st = byte_stages::<B::Error>(add, wbuf@);
        let ghost count = wbuf@.len() - 1;
        let ghost mut ts: Seq<Seq<BusEvent>> = seq![self.bus.trace()];
        let mut i: usize = 1;
        while i < wbuf.len()
            invariant
                1 <= i <= wbuf@.len(),
                wbuf@.len() >= 2,
                count == wbuf@.len() - 1,
                st == byte_stages::<B::Error>(add, wbuf@),
                ts.len() == i,
                ts[0] == old(self).bus.trace(),
                ts.last() == self.bus.trace(),
                stages_done(ts, st),
            decreases wbuf@.len() - i,
        {
            let sub: u8 = ((wbuf[0] as usize + (i - 1) % 256) % 256) as u8;
            let ghost t = self.bus.trace();
            let rc = self.sh_passthrough_write_byte(add, sub, wbuf[i]);
            proof {
                let t1 = self.bus.trace();
                assert(sub == write_target(wbuf@, i - 1));
                let cts = choose|cts: Seq<Seq<BusEvent>>|
                    cts[0] == t && cts.last() == t1 && #[trigger] hub_write_cycle::<B::Error>(cts, add, sub, wbuf@[i as int], rc is Ok);
                assert(hub_write_cycle::<B::Error>(cts, add, write_target(wbuf@, i - 1), wbuf@[(i - 1) + 1], rc is Ok));
                assert(byte_stage::<B::Error>(i - 1, t, t1, add, wbuf@, rc is Ok));
                assert(st(i - 1, ts.last(), t1, rc is Ok));
                lemma_stage_step(ts, st, count, t1, rc is Ok);
                ts = ts.push(t1);
                assert(ts[0] == old(self).bus.trace());
            }
            if let Err(e) = rc {
                assert(staged(ts, st, count, false));
                assert(ts[0] == old(self).bus.trace() && ts.last() == self.bus.trace());
                return Err(e);
            }
            i = i + 1;
        }
        proof {
            lemma_stages_complete(ts, st, count);
            assert(ts[0] == old(self).bus.trace() && ts.last() == self.bus.trace());
        }
        let r: Result<(), Error<B::Error>> = Ok(());
        assert(staged(ts, byte_stages::<B::Error>(add, wbuf@), wbuf@.len() - 1, r is Ok));
        r
    }

    /// Reads `rbuf.len()` bytes from register `sub` of the secondary device at
    /// I2C address `add` on, in one sensor-hub cycle: the stages of
    /// `read_stage`, in order, stopping at the first that fails.  More than
    /// `MAX_HUB_READ` bytes are refused with `UnexpectedValue` before any
    /// transfer.  `rbuf` changes only in the last stage, the read of the hub's
    /// outputs.
    pub fn sh_passthrough_read(&mut self, add: u8, sub: u8, rbuf: &mut [u8]) -> (r: Result<(), Error<B::Error>>)
        ensures
            final(rbuf)@.len() == old(rbuf)@.len(),
            hub_read::<B::Error>(old(self).bus.trace(), final(self).bus.trace(), add, sub, final(rbuf)@, r),
            final(rbuf)@ != old(rbuf)@ ==> old(rbuf)@.len() <= MAX_HUB_READ && exists|ts: Seq<Seq<BusEvent>>|
                ts[0] == old(self).bus.trace() && ts.last() == final(self).bus.trace() && ts.len() == 12
                    && #[trigger] staged(ts, read_stages::<B::Error>(add, sub, final(rbuf)@), 11, r is Ok),
    {
        if rbuf.len() > MAX_HUB_READ {
            return Err(Error::UnexpectedValue);
        }
        let ghost st = read_stages::<B::Error>(add, sub, rbuf@);
        let ghost t0 = self.bus.trace();
        let ghost mut ts: Seq<Seq<BusEvent>> = seq![t0];
        let ghost rbuf0 = rbuf@;
        let r0 = self.xl_data_rate_set(XlDataRate::Off);
        proof {
            assert(st(0, ts.last(), self.bus.trace(), r0 is Ok));
            lemma_stage_step(ts, st, 11, self.bus.trace(), r0 is Ok);
            ts = ts.push(self.bus.trace());
            assert(ts[0] == t0);
        }
        if let Err(e) = r0 {
            assert(staged(ts, st, 11, false));
            return Err(e);
        }
        let cfg = ShCfgRead { slv_add: add, slv_subadd: sub, slv_len: rbuf.len() as u8 };
        let r1 = self.sh_slv_cfg_read(0, &cfg);
        proof {
            assert(slot_read_configured(ts.last(), self.bus.trace(), 0, cfg, r1));
            assert(st(1, ts.last(), self.bus.trace(), r1 is Ok));
            lemma_stage_step(ts, st, 11, self.bus.trace(), r1 is Ok);
            ts = ts.push(self.bus.trace());
            assert(ts[0] == t0);
        }
        if let Err(e) = r1 {
            assert(staged(ts, st, 11, false));
            return Err(e);
        }
        let r2 = self.sh_slave_connected_set(ShSlaveConnected::_0);
        proof {
            assert(banked_field_updated(ts.last(), self.bus.trace(), MemBank::SensorHubMemBank, 0x14, 0, 2, 0, r2));
            assert(st(2, ts.last(), self.bus.trace(), r2 is Ok));
            lemma_stage_step(ts, st, 11, self.bus.trace(), r2 is Ok);
            ts = ts.push(self.bus.trace());
            assert(ts[0] == t0);
        }
        if let Err(e) = r2 {
            assert(staged(ts, st, 11, false));
            return Err(e);
        }
        let r3 = self.sh_master_set(1);
        proof {
            assert(banked_field_updated(ts.last(), self.bus.trace(), MemBank::SensorHubMemBank, 0x14, 2, 1, 1, r3));
            assert(st(3, ts.last(), self.bus.trace(), r3 is Ok));
            lemma_stage_step(ts, st, 11, self.bus.trace(), r3 is Ok);
            ts = ts.push(self.bus.trace());
            assert(ts[0] == t0);
        }
        if let Err(e) = r3 {
            assert(staged(ts, st, 11, false));
            return Err(e);
        }
        // The accelerometer's next sample triggers the hub.
        let r4 = self.xl_data_rate_set(XlDataRate::_26hzHp);
        proof {
            assert(st(4, ts.last(), self.bus.trace(), r4 is Ok));
            lemma_stage_step(ts, st, 11, self.bus.trace(), r4 is Ok);
            ts = ts.push(self.bus.trace());
            assert(ts[0] == t0);
        }
        if let Err(e) = r4 {
            assert(staged(ts, st, 11, false));
            return Err(e);
        }
        let r5 = self.acceleration_raw_get();
        proof {
            assert(st(5, ts.last(), self.bus.trace(), r5 is Ok));
            lemma_stage_step(ts, st, 11, self.bus.trace(), r5 is Ok);
            ts = ts.push(self.bus.trace());
            assert(ts[0] == t0);
        }
        if let Err(e) = r5 {
            assert(staged(ts, st, 11, false));
            return Err(e);
        }
        let r6 = self.wait_data_ready();
        proof {
            assert(st(6, ts.last(), self.bus.trace(), r6 is Ok));
            lemma_stage_step(ts, st, 11, self.bus.trace(), r6 is Ok);
            ts = ts.push(self.bus.trace());
            assert(ts[0] == t0);
        }
        if let Err(e) = r6 {
            assert(staged(ts, st, 11, false));
            return Err(e);
        }
        let r7 = self.wait_end_op(false);
        proof {
            assert(st(7, ts.last(), self.bus.trace(), r7 is Ok));
            lemma_stage_step(ts, st, 11, self.bus.trace(), r7 is Ok);
            ts = ts.push(self.bus.trace());
            assert(ts[0] == t0);
        }
        if let Err(e) = r7 {
            assert(staged(ts, st, 11, false));
            return Err(e);
        }
        let r8 = self.sh_master_set(0);
        proof {
            assert(banked_field_updated(ts.last(), self.bus.trace(), MemBank::SensorHubMemBank, 0x14, 2, 1, 0, r8));
            assert(st(8, ts.last(), self.bus.trace(), r8 is Ok));
            lemma_stage_step(ts, st, 11, self.bus.trace(), r8 is Ok);
            ts = ts.push(self.bus.trace());
            assert(ts[0] == t0);
        }
        if let Err(e) = r8 {
            assert(staged(ts, st, 11, false));
            return Err(e);
        }
        let r9 = self.xl_data_rate_set(XlDataRate::Off);
        proof {
            assert(st(9, ts.last(), self.bus.trace(), r9 is Ok));
            lemma_stage_step(ts, st, 11, self.bus.trace(), r9 is Ok);
            ts = ts.push(self.bus.trace());
            assert(ts[0] == t0);
        }
        if let Err(e) = r9 {
            assert(staged(ts, st, 11, false));
            return Err(e);
        }
        assert(rbuf@ == rbuf0);
        let ghost t = self.bus.trace();
        let r10 = self.sh_read_data_raw_get(rbuf);
        proof {
            assert(hub_outputs_read(t, self.bus.trace(), rbuf@, r10));
            let st1 = read_stages::<B::Error>(add, sub, rbuf@);
            lemma_read_stages_data::<B::Error>(ts, add, sub, rbuf0, rbuf@);
            assert(st1(10, ts.last(), self.bus.trace(), r10 is Ok));
            lemma_stage_step(ts, st1, 11, self.bus.trace(), r10 is Ok);
            ts = ts.push(self.bus.trace());
            assert(ts[0] == t0);
            assert(staged(ts, st1, 11, r10 is Ok));
            assert(ts.last() == self.bus.trace());
        }
        r10
    }
}

/// The sensor used as a bus to one secondary device behind its sensor hub.
///
/// The bridge owns the sensor for its lifetime; `release` hands it back.
/// Writes go through one hub cycle per data byte (the first byte sent is the
/// register address on the device, and each following byte goes to the next
/// register); a command-then-read goes through one hub cycle.  A plain read
/// is not supported.
pub struct Lsm6dso16isPassthrough<B, T> {
    pub sensor: Lsm6dso16is<B, T>,
    pub slave_address: u8,
    /// The transfers made on this bridge so far, as seen by the secondary
    /// device's driver.
    pub log: Ghost<Seq<BusEvent>>,
}

impl<B: BusOperation, T: DelayNs> Lsm6dso16isPassthrough<B, T> {
    /// Makes `sensor` a bus to the secondary device at I2C address
    /// `slave_address`.
    pub fn new_from_sensor(sensor: Lsm6dso16is<B, T>, slave_address: u8) -> (r: Self)
        ensures
            r.sensor == sensor,
            r.slave_address == slave_address,
            r.log@ == Seq::<BusEvent>::empty(),
    {
        Lsm6dso16isPassthrough { sensor, slave_address, log: Ghost(Seq::empty()) }
    }

    /// Hands the sensor back.
    pub fn release(self) -> (r: Lsm6dso16is<B, T>)
        ensures
            r == self.sensor,
    {
        self.sensor
    }
}

impl<B: BusOperation, T: DelayNs> BusOperation for Lsm6dso16isPassthrough<B, T> {
    type Error = Error<B::Error>;

    open spec fn trace(&self) -> Seq<BusEvent> {
        self.log@
    }

    /// A write through the bridge is `sh_passthrough_write` on the sensor.
    open spec fn write_done(pre: &Self, post: &Self, wbuf: Seq<u8>, r: Result<(), Self::Error>) -> bool {
        &&& post.slave_address == pre.slave_address
        &&& hub_writes::<B::Error>(pre.sensor.bus.trace(), post.sensor.bus.trace(), pre.slave_address, wbuf, r)
    }

    /// A command-then-read through the bridge is `sh_passthrough_read` on
    /// the sensor.
    open spec fn write_read_done(pre: &Self, post: &Self, cmd: u8, data: Seq<u8>, r: Result<(), Self::Error>) -> bool {
        &&& post.slave_address == pre.slave_address
        &&& hub_read::<B::Error>(pre.sensor.bus.trace(), post.sensor.bus.trace(), pre.slave_address, cmd, data, r)
    }

    /// A plain read through the bridge is refused: `UnexpectedValue`, and
    /// the sensor untouched.
    open spec fn read_done(pre: &Self, post: &Self, data: Seq<u8>, r: Result<(), Self::Error>) -> bool {
        &&& post.sensor == pre.sensor
        &&& post.slave_address == pre.slave_address
        &&& r == Err::<(), Error<B::Error>>(Error::UnexpectedValue)
    }

    /// A plain read cannot be made through the hub: always `UnexpectedValue`.
    fn read_bytes(&mut self, rbuf: &mut [u8]) -> (r: Result<(), Self::Error>) {
        self.log = Ghost(self.log@.push(BusEvent::Read { data: rbuf@, ok: false }));
        Err(Error::UnexpectedValue)
    }

    /// Writes `wbuf[1..]` to consecutive registers of the device from
    /// `wbuf[0]` on, one hub cycle per byte, stopping at the first failure.
    fn write_bytes(&mut self, wbuf: &[u8]) -> (r: Result<(), Self::Error>) {
        let res = self.sensor.sh_passthrough_write(self.slave_address, wbuf);
        self.log = Ghost(self.log@.push(BusEvent::Write { data: wbuf@, ok: res is Ok }));
        res
    }

    /// Writes `buf` to consecutive registers of the device from `reg` on, as
    /// `write_bytes` does with the frame of `reg` and `buf`.
    fn write_to_register(&mut self, reg: u8, buf: &[u8]) -> (r: Result<(), Self::Error>) {
        let mut frame: Vec<u8> = Vec::new();
        frame.push(reg);
        let mut i: usize = 0;
        while i < buf.len()
            invariant
                i <= buf@.len(),
                frame@ == seq![reg] + buf@.subrange(0, i as int),
            decreases buf@.len() - i,
        {
            frame.push(buf[i]);
            i = i + 1;
            assert(frame@ =~= seq![reg] + buf@.subrange(0, i as int));
        }
        assert(buf@.subrange(0, buf@.len() as int) =~= buf@);
        let res = self.sensor.sh_passthrough_write(self.slave_address, frame.as_slice());
        self.log = Ghost(self.log@.push(BusEvent::Write { data: seq![reg] + buf@, ok: res is Ok }));
        res
    }

    /// Sends the register address `wbuf[0]` and reads `rbuf.len()` bytes
    /// from the device in one hub cycle.
    fn write_byte_read_bytes(&mut self, wbuf: &[u8; 1], rbuf: &mut [u8]) -> (r: Result<(), Self::Error>) {
        let r = self.sensor.sh_passthrough_read(self.slave_address, wbuf[0], rbuf);
        self.log = Ghost(self.log@.push(BusEvent::WriteRead { cmd: wbuf@[0], data: rbuf@, ok: r is Ok }));
        r
    }
}

} // verus!
