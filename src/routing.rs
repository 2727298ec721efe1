//! Interrupt routing, gyroscope full scale, ISPU boot, the interrupt sources
//! snapshot and the software reset.
use crate::bits::{field_of, get_field, lemma_field_max, le_u32, put_field, with_field};
use crate::bus::{lemma_extends, lemma_stage_step, reg_read, reg_write, staged, BusEvent, BusOperation, DelayNs, Stages};
use crate::composite::{rate_written, xl_rate_written};
use crate::driver::{banked_byte_read, bits_updated, byte_at, byte_of, merge_ops, ok_at, reads_byte, scoped, Error, Lsm6dso16is};
use crate::register::ispu::{IspuBootLatched, IspuReg};
use crate::register::main::{GyDataRate, GyFullScale, PinInt1Route, PinInt2Route, Reg, XlDataRate};
use crate::register::MemBank;
use crate::passthrough::polled;
use crate::words::{last_data, read_once};
use vstd::prelude::*;

verus! {

/// The status of all the interrupt sources.
#[derive(Clone, Copy, PartialEq, Eq, Debug, Structural)]
pub struct AllSources {
    pub drdy_xl: u8,
    pub drdy_gy: u8,
    pub drdy_temp: u8,
    pub sh_endop: u8,
    pub sh_slave0_nack: u8,
    pub sh_slave1_nack: u8,
    pub sh_slave2_nack: u8,
    pub sh_slave3_nack: u8,
    pub sh_wr_once: u8,
    pub ispu: u32,
}

/// The INT1_CTRL bits (0 to 2) that a routing sets.
pub open spec fn int1_ctrl_bits(val: PinInt1Route) -> u8 {
    (val.drdy_xl & 1) | ((val.drdy_gy & 1) << 1u8) | ((val.boot & 1) << 2u8)
}

/// The MD1_CFG bits (0 and 1) that a routing sets.
pub open spec fn md1_cfg_bits(val: PinInt1Route) -> u8 {
    (val.sh_endop & 1) | ((val.ispu & 1) << 1u8)
}

/// The INT2_CTRL bits (0 to 2 and 7) that a routing sets.
pub open spec fn int2_ctrl_bits(val: PinInt2Route) -> u8 {
    (val.drdy_xl & 1) | ((val.drdy_gy & 1) << 1u8) | ((val.drdy_temp & 1) << 2u8) | ((val.ispu_sleep & 1) << 7u8)
}

/// The MD2_CFG bits (0 and 1) that a routing sets.
pub open spec fn md2_cfg_bits(val: PinInt2Route) -> u8 {
    (val.timestamp & 1) | ((val.ispu & 1) << 1u8)
}

/// The CTRL2_G bits (1 to 3) that a gyroscope full-scale code sets: the two
/// low bits of the code in FS_G and bit 4 of the code in FS_125.
pub open spec fn gy_fs_bits(code: u8) -> u8 {
    ((code & 3) << 2u8) | (((code >> 4u8) & 1) << 1u8)
}

/// Stage `k` of reading all interrupt sources: STATUS_REG, then
/// STATUS_MASTER_MAINPAGE, then the four bytes of the ISPU interrupt word.
pub open spec fn source_stage(k: int, ta: Seq<BusEvent>, tb: Seq<BusEvent>, ok: bool) -> bool {
    if k == 0 {
        reads_byte(ta, tb, 0x1E, byte_at(ta, tb, 0), ok)
    } else if k == 1 {
        reads_byte(ta, tb, 0x39, byte_at(ta, tb, 0), ok)
    } else {
        read_once(ta, tb, 0x1A, 4, ok)
    }
}

/// The stages of reading all interrupt sources.
pub open spec fn source_stages() -> Stages {
    |k: int, ta: Seq<BusEvent>, tb: Seq<BusEvent>, ok: bool| source_stage(k, ta, tb, ok)
}

/// Stage `k` of a software reset started at `t0`: CTRL3_C read; the
/// accelerometer data rate off; the gyroscope data rate off; CTRL3_C written
/// back as first read with SW_RESET set; polls of SW_RESET until it reads
/// clear.
pub open spec fn reset_stage(t0: Seq<BusEvent>, k: int, ta: Seq<BusEvent>, tb: Seq<BusEvent>, ok: bool) -> bool {
    if k == 0 {
        reads_byte(ta, tb, 0x12, byte_at(ta, tb, 0), ok)
    } else if k == 1 {
        xl_rate_written(ta, tb, 0x00, ok)
    } else if k == 2 {
        rate_written(ta, tb, 0x11, 0x16, 7, 0x00, ok)
    } else if k == 3 {
        tb == ta.push(reg_write(0x12, seq![with_field(byte_of(ta[t0.len() as int]), 0, 1, 1)], ok))
    } else {
        polled(ta, tb, 0x12, false, ok)
    }
}

/// The stages of a software reset started at `t0`.
pub open spec fn reset_stages(t0: Seq<BusEvent>) -> Stages {
    |k: int, ta: Seq<BusEvent>, tb: Seq<BusEvent>, ok: bool| reset_stage(t0, k, ta, tb, ok)
}

/// `t2` is `t0` followed by a read-modify-write of the bits `m1` of `reg1`
/// and, if that went through, one of the bits `m2` of `reg2`.
pub open spec fn two_updates(t0: Seq<BusEvent>, t2: Seq<BusEvent>, reg1: u8, m1: u8, b1: u8, reg2: u8, m2: u8, b2: u8, ok: bool) -> bool {
    exists|t1: Seq<BusEvent>, ok1: bool|
        #[trigger] bits_updated(t0, t1, reg1, m1, b1, ok1) && if ok1 {
            bits_updated(t1, t2, reg2, m2, b2, ok)
        } else {
            t2 == t1 && !ok
        }
}

/// `t2` is `t0` followed by the reads of the one-byte registers `reg1` and,
/// if that went through, `reg2`.
pub open spec fn two_byte_reads(t0: Seq<BusEvent>, t2: Seq<BusEvent>, reg1: u8, reg2: u8, ok: bool) -> bool {
    &&& ok_at(t0, t2, 0) ==> t2 == t0 + seq![reg_read(reg1, seq![byte_at(t0, t2, 0)], true), reg_read(reg2, seq![byte_at(t0, t2, 1)], ok_at(t0, t2, 1))]
    &&& !ok_at(t0, t2, 0) ==> t2 == t0.push(reg_read(reg1, seq![byte_at(t0, t2, 0)], false))
    &&& ok <==> ok_at(t0, t2, 0) && ok_at(t0, t2, 1)
}

impl<B: BusOperation, T: DelayNs> Lsm6dso16is<B, T> {
    fn update_two(&mut self, reg1: u8, m1: u8, b1: u8, reg2: u8, m2: u8, b2: u8) -> (r: Result<(), Error<B::Error>>)
        ensures
            two_updates(old(self).bus.trace(), final(self).bus.trace(), reg1, m1, b1, reg2, m2, b2, r is Ok),
            r matches Err(e) ==> e is Bus,
    {
        let ghost t0 = self.bus.trace();
        let r1 = self.update_bits(reg1, m1, b1);
        let ghost t1 = self.bus.trace();
        if r1.is_err() {
            assert(bits_updated(t0, t1, reg1, m1, b1, false));
            return r1;
        }
        let r2 = self.update_bits(reg2, m2, b2);
        assert(bits_updated(t0, t1, reg1, m1, b1, true));
        r2
    }

    fn read_two(&mut self, reg1: u8, reg2: u8) -> (r: Result<(u8, u8), Error<B::Error>>)
        ensures
            two_byte_reads(old(self).bus.trace(), final(self).bus.trace(), reg1, reg2, r is Ok),
            r matches Ok(p) ==> p.0 == byte_at(old(self).bus.trace(), final(self).bus.trace(), 0) && p.1 == byte_at(old(self).bus.trace(), final(self).bus.trace(), 1),
            r matches Err(e) ==> e is Bus,
    {
        let ghost t0 = self.bus.trace();
        let a = self.read_byte(reg1)?;
        let ghost t1 = self.bus.trace();
        let b = self.read_byte(reg2);
        assert(self.bus.trace() =~= t0 + seq![reg_read(reg1, seq![a], true), reg_read(reg2, seq![byte_of(self.bus.trace().last())], b is Ok)]);
        let b = b?;
        Ok((a, b))
    }

    /// Routes interrupt signals to the INT1 pin: the data-ready and boot
    /// signals in INT1_CTRL, then the sensor-hub and ISPU events in MD1_CFG.
    pub fn pin_int1_route_set(&mut self, val: PinInt1Route) -> (r: Result<(), Error<B::Error>>)
        ensures
            two_updates(old(self).bus.trace(), final(self).bus.trace(), 0x0D, 0x07, int1_ctrl_bits(val), 0x5E, 0x03, md1_cfg_bits(val), r is Ok),
            r matches Err(e) ==> e is Bus,
    {
        let b1 = (val.drdy_xl & 1) | ((val.drdy_gy & 1) << 1u8) | ((val.boot & 1) << 2u8);
        let b2 = (val.sh_endop & 1) | ((val.ispu & 1) << 1u8);
        self.update_two(Reg::Int1Ctrl.addr(), 0x07, b1, Reg::Md1Cfg.addr(), 0x03, b2)
    }

    /// Gets the interrupt signals routed to the INT1 pin.
    pub fn pin_int1_route_get(&mut self) -> (r: Result<PinInt1Route, Error<B::Error>>)
        ensures
            two_byte_reads(old(self).bus.trace(), final(self).bus.trace(), 0x0D, 0x5E, r is Ok),
            r matches Ok(v) ==> ({
                let c = byte_at(old(self).bus.trace(), final(self).bus.trace(), 0);
                let m = byte_at(old(self).bus.trace(), final(self).bus.trace(), 1);
                v == PinInt1Route { drdy_xl: field_of(c, 0, 1), drdy_gy: field_of(c, 1, 1), boot: field_of(c, 2, 1), sh_endop: field_of(m, 0, 1), ispu: field_of(m, 1, 1) }
            }),
            r matches Err(e) ==> e is Bus,
    {
        let (c, m) = self.read_two(Reg::Int1Ctrl.addr(), Reg::Md1Cfg.addr())?;
        Ok(PinInt1Route { drdy_xl: get_field(c, 0, 1), drdy_gy: get_field(c, 1, 1), boot: get_field(c, 2, 1), sh_endop: get_field(m, 0, 1), ispu: get_field(m, 1, 1) })
    }

    /// Routes interrupt signals to the INT2 pin: the data-ready and ISPU
    /// sleep signals in INT2_CTRL, then the timestamp and ISPU events in
    /// MD2_CFG.
    pub fn pin_int2_route_set(&mut self, val: PinInt2Route) -> (r: Result<(), Error<B::Error>>)
        ensures
            two_updates(old(self).bus.trace(), final(self).bus.trace(), 0x0E, 0x87, int2_ctrl_bits(val), 0x5F, 0x03, md2_cfg_bits(val), r is Ok),
            r matches Err(e) ==> e is Bus,
    {
        let b1 = (val.drdy_xl & 1) | ((val.drdy_gy & 1) << 1u8) | ((val.drdy_temp & 1) << 2u8) | ((val.ispu_sleep & 1) << 7u8);
        let b2 = (val.timestamp & 1) | ((val.ispu & 1) << 1u8);
        self.update_two(Reg::Int2Ctrl.addr(), 0x87, b1, Reg::Md2Cfg.addr(), 0x03, b2)
    }

    /// Gets the interrupt signals routed to the INT2 pin.
    pub fn pin_int2_route_get(&mut self) -> (r: Result<PinInt2Route, Error<B::Error>>)
        ensures
            two_byte_reads(old(self).bus.trace(), final(self).bus.trace(), 0x0E, 0x5F, r is Ok),
            r matches Ok(v) ==> ({
                let c = byte_at(old(self).bus.trace(), final(self).bus.trace(), 0);
                let m = byte_at(old(self).bus.trace(), final(self).bus.trace(), 1);
                v == PinInt2Route { drdy_xl: field_of(c, 0, 1), drdy_gy: field_of(c, 1, 1), drdy_temp: field_of(c, 2, 1), timestamp: field_of(m, 0, 1), ispu_sleep: field_of(c, 7, 1), ispu: field_of(m, 1, 1) }
            }),
            r matches Err(e) ==> e is Bus,
    {
        let (c, m) = self.read_two(Reg::Int2Ctrl.addr(), Reg::Md2Cfg.addr())?;
        Ok(PinInt2Route { drdy_xl: get_field(c, 0, 1), drdy_gy: get_field(c, 1, 1), drdy_temp: get_field(c, 2, 1), timestamp: get_field(m, 0, 1), ispu_sleep: get_field(c, 7, 1), ispu: get_field(m, 1, 1) })
    }

    /// Sets the gyroscope full scale: FS_G and FS_125 of CTRL2_G.
    pub fn gy_full_scale_set(&mut self, val: GyFullScale) -> (r: Result<(), Error<B::Error>>)
        ensures
            bits_updated(old(self).bus.trace(), final(self).bus.trace(), 0x11, 0x0E, gy_fs_bits(val.spec_bits()), r is Ok),
            r matches Err(e) ==> e is Bus,
    {
        let code = val.bits();
        self.update_bits(Reg::Ctrl2G.addr(), 0x0E, ((code & 3) << 2u8) | (((code >> 4u8) & 1) << 1u8))
    }

    /// Gets the gyroscope full scale: FS_125 of CTRL2_G above its FS_G.
    pub fn gy_full_scale_get(&mut self) -> (r: Result<GyFullScale, Error<B::Error>>)
        ensures
            reads_byte(old(self).bus.trace(), final(self).bus.trace(), 0x11, byte_at(old(self).bus.trace(), final(self).bus.trace(), 0), r is Ok),
            r matches Ok(v) ==> v == GyFullScale::spec_from_bits_or_default(
                (field_of(byte_at(old(self).bus.trace(), final(self).bus.trace(), 0), 1, 1) * 16 + field_of(byte_at(old(self).bus.trace(), final(self).bus.trace(), 0), 2, 2)) as u8,
            ),
            r matches Err(e) ==> e is Bus,
    {
        let b = self.read_byte(Reg::Ctrl2G.addr())?;
        proof {
            lemma_field_max();
        }
        let fs_125 = get_field(b, 1, 1);
        let fs_g = get_field(b, 2, 2);
        Ok(GyFullScale::from_bits_or_default(fs_125 * 16 + fs_g))
    }

    /// Turns the ISPU core on or off: ISPU_RST_N and CLK_DIS of ISPU_CONFIG
    /// both take the code of `val`.
    pub fn ispu_boot_set(&mut self, val: IspuBootLatched) -> (r: Result<(), Error<B::Error>>)
        ensures
            scoped(
                old(self).bus.trace(),
                final(self).bus.trace(),
                MemBank::IspuMemBank,
                merge_ops(0x02, byte_at(old(self).bus.trace(), final(self).bus.trace(), 1), ok_at(old(self).bus.trace(), final(self).bus.trace(), 1), 0x03, (val.spec_bits() | (val.spec_bits() << 1u8)) as u8, ok_at(old(self).bus.trace(), final(self).bus.trace(), 2)),
                ok_at(old(self).bus.trace(), final(self).bus.trace(), 1) && ok_at(old(self).bus.trace(), final(self).bus.trace(), 2),
                r,
            ),
    {
        let code = val.bits();
        self.banked_update_bits(MemBank::IspuMemBank, IspuReg::IspuConfig.addr(), 0x03, code | (code << 1u8))
    }

    /// Gets the ISPU core state, as `ispu_boot_set` writes it: `Off` when
    /// ISPU_RST_N or CLK_DIS of ISPU_CONFIG is set, else `On`.
    pub fn ispu_boot_get(&mut self) -> (r: Result<IspuBootLatched, Error<B::Error>>)
        ensures
            banked_byte_read(old(self).bus.trace(), final(self).bus.trace(), MemBank::IspuMemBank, 0x02, r),
            r matches Ok(v) ==> v == if field_of(byte_at(old(self).bus.trace(), final(self).bus.trace(), 1), 0, 1) == 1
                || field_of(byte_at(old(self).bus.trace(), final(self).bus.trace(), 1), 1, 1) == 1 {
                IspuBootLatched::Off
            } else {
                IspuBootLatched::On
            },
    {
        let b = self.banked_read_byte(MemBank::IspuMemBank, IspuReg::IspuConfig.addr())?;
        if get_field(b, 0, 1) == 1 || get_field(b, 1, 1) == 1 {
            Ok(IspuBootLatched::Off)
        } else {
            Ok(IspuBootLatched::On)
        }
    }

    /// Gets the status of all the interrupt sources: STATUS_REG, then
    /// STATUS_MASTER_MAINPAGE, then the ISPU interrupt word of the main bank
    /// (four bytes), stopping at the first read that fails.
    pub fn all_sources_get(&mut self) -> (r: Result<AllSources, Error<B::Error>>)
        ensures
            exists|ts: Seq<Seq<BusEvent>>|
                ts[0] == old(self).bus.trace() && ts.last() == final(self).bus.trace()
                    && #[trigger] staged(ts, source_stages(), 3, r is Ok),
            r matches Ok(v) ==> exists|t1: Seq<BusEvent>, t2: Seq<BusEvent>|
                #[trigger] reads_byte(old(self).bus.trace(), t1, 0x1E, byte_at(old(self).bus.trace(), t1, 0), true)
                    && #[trigger] reads_byte(t1, t2, 0x39, byte_at(t1, t2, 0), true)
                    && read_once(t2, final(self).bus.trace(), 0x1A, 4, true)
                    && v == ({
                        let s = byte_at(old(self).bus.trace(), t1, 0);
                        let m = byte_at(t1, t2, 0);
                        AllSources {
                            drdy_xl: field_of(s, 0, 1),
                            drdy_gy: field_of(s, 1, 1),
                            drdy_temp: field_of(s, 2, 1),
                            sh_endop: field_of(m, 0, 1),
                            sh_slave0_nack: field_of(m, 3, 1),
                            sh_slave1_nack: field_of(m, 4, 1),
                            sh_slave2_nack: field_of(m, 5, 1),
                            sh_slave3_nack: field_of(m, 6, 1),
                            sh_wr_once: field_of(m, 7, 1),
                            ispu: le_u32(last_data(final(self).bus.trace())) as u32,
                        }
                    }),
            r matches Err(e) ==> e is Bus,
    {
        let ghost st = source_stages();
        let ghost t0 = self.bus.trace();
        let ghost mut ts: Seq<Seq<BusEvent>> = seq![t0];
        let r0 = self.status_reg_get();
        proof {
            assert(st(0, ts.last(), self.bus.trace(), r0 is Ok));
            lemma_stage_step(ts, st, 3, self.bus.trace(), r0 is Ok);
            ts = ts.push(self.bus.trace());
        }
        let ghost t1 = self.bus.trace();
        let status_reg = match r0 {
            Err(e) => {
                assert(ts[0] == t0 && ts.last() == self.bus.trace());
                let r = Err(e);
                assert(staged(ts, st, 3, r is Ok));
                return r;
            },
            Ok(v) => v,
        };
        let r1 = self.sh_status_get();
        proof {
            assert(st(1, ts.last(), self.bus.trace(), r1 is Ok));
            lemma_stage_step(ts, st, 3, self.bus.trace(), r1 is Ok);
            ts = ts.push(self.bus.trace());
        }
        let ghost t2 = self.bus.trace();
        let status_sh = match r1 {
            Err(e) => {
                assert(ts[0] == t0 && ts.last() == self.bus.trace());
                let r = Err(e);
                assert(staged(ts, st, 3, r is Ok));
                return r;
            },
            Ok(v) => v,
        };
        let r2 = self.ia_ispu_get();
        proof {
            assert(st(2, ts.last(), self.bus.trace(), r2 is Ok));
            lemma_stage_step(ts, st, 3, self.bus.trace(), r2 is Ok);
            ts = ts.push(self.bus.trace());
            assert(ts[0] == t0 && ts.last() == self.bus.trace());
        }
        let ispu = match r2 {
            Err(e) => {
                let r = Err(e);
                assert(staged(ts, st, 3, r is Ok));
                return r;
            },
            Ok(v) => v,
        };
        let v = AllSources {
            drdy_xl: status_reg.xlda(),
            drdy_gy: status_reg.gda(),
            drdy_temp: status_reg.tda(),
            sh_endop: status_sh.sens_hub_endop(),
            sh_slave0_nack: status_sh.slave0_nack(),
            sh_slave1_nack: status_sh.slave1_nack(),
            sh_slave2_nack: status_sh.slave2_nack(),
            sh_slave3_nack: status_sh.slave3_nack(),
            sh_wr_once: status_sh.wr_once_done(),
            ispu,
        };
        assert(reads_byte(t0, t1, 0x1E, byte_at(t0, t1, 0), true));
        assert(reads_byte(t1, t2, 0x39, byte_at(t1, t2, 0), true));
        let r = Ok(v);
        assert(staged(ts, st, 3, r is Ok));
        r
    }

    /// Software reset: restores the default values of the user registers.
    ///
    /// The stages of `reset_stage`, in order, stopping at the first that
    /// fails: CTRL3_C is read, both output data rates are switched off,
    /// CTRL3_C is written back with SW_RESET set, and CTRL3_C is polled until
    /// the device clears SW_RESET (at most `MAX_POLLS` polls, else `Timeout`).
    pub fn software_reset(&mut self) -> (r: Result<(), Error<B::Error>>)
        ensures
            exists|ts: Seq<Seq<BusEvent>>|
                ts[0] == old(self).bus.trace() && ts.last() == final(self).bus.trace()
                    && #[trigger] staged(ts, reset_stages(old(self).bus.trace()), 5, r is Ok),
            r matches Err(e) ==> e is Bus || e is Timeout,
    {
        let ghost t0 = self.bus.trace();
        let ghost st = reset_stages(t0);
        let ghost mut ts: Seq<Seq<BusEvent>> = seq![t0];
        let rc = self.read_byte(Reg::Ctrl3C.addr());
        proof {
            assert(st(0, ts.last(), self.bus.trace(), rc is Ok));
            lemma_stage_step(ts, st, 5, self.bus.trace(), rc is Ok);
            ts = ts.push(self.bus.trace());
            assert(ts[0] == t0);
        }
        let ctrl3 = match rc {
            Err(e) => {
                let r = Err(e);
                assert(staged(ts, st, 5, r is Ok));
                return r;
            },
            Ok(v) => v,
        };
        let ghost t1 = self.bus.trace();
        assert(ctrl3 == byte_of(t1[t0.len() as int]));
        let r1 = self.xl_data_rate_set(XlDataRate::Off);
        proof {
            assert(st(1, ts.last(), self.bus.trace(), r1 is Ok));
            lemma_stage_step(ts, st, 5, self.bus.trace(), r1 is Ok);
            ts = ts.push(self.bus.trace());
            assert(ts[0] == t0);
        }
        if let Err(e) = r1 {
            let r = Err(e);
            assert(staged(ts, st, 5, r is Ok));
            return r;
        }
        let r2 = self.gy_data_rate_set(GyDataRate::Off);
        proof {
            assert(st(2, ts.last(), self.bus.trace(), r2 is Ok));
            lemma_stage_step(ts, st, 5, self.bus.trace(), r2 is Ok);
            ts = ts.push(self.bus.trace());
            assert(ts[0] == t0);
        }
        if let Err(e) = r2 {
            let r = Err(e);
            assert(staged(ts, st, 5, r is Ok));
            return r;
        }
        let ghost t3 = self.bus.trace();
        proof {
            lemma_extends(t0, t1, ts[2], Seq::empty());
            lemma_extends(t0, ts[2], t3, Seq::empty());
            assert(t3[t0.len() as int] == t1[t0.len() as int]) by {
                assert(t3.subrange(0, t1.len() as int)[t0.len() as int] == t1[t0.len() as int]);
                lemma_extends(t1, ts[2], t3, Seq::empty());
            }
        }
        let r3 = self.write_byte(Reg::Ctrl3C.addr(), put_field(ctrl3, 0, 1, 1));
        proof {
            assert(st(3, ts.last(), self.bus.trace(), r3 is Ok));
            lemma_stage_step(ts, st, 5, self.bus.trace(), r3 is Ok);
            ts = ts.push(self.bus.trace());
            assert(ts[0] == t0);
        }
        if let Err(e) = r3 {
            let r = Err(e);
            assert(staged(ts, st, 5, r is Ok));
            return r;
        }
        let r4 = self.poll_bit(Reg::Ctrl3C.addr(), false, false);
        proof {
            assert(st(4, ts.last(), self.bus.trace(), r4 is Ok));
            lemma_stage_step(ts, st, 5, self.bus.trace(), r4 is Ok);
            ts = ts.push(self.bus.trace());
            assert(ts[0] == t0 && ts.last() == self.bus.trace());
            assert(staged(ts, st, 5, r4 is Ok));
        }
        r4
    }
}

} // verus!
