//! Settings that span two registers or two fields.
use crate::bits::{field_of, get_field, le_u16, lemma_field_max, put_field, signed16, with_field};
use crate::bus::{added, extends, lemma_start, lemma_step, ran, reg_read, reg_write, BusEvent, BusOperation, DelayNs};
use crate::driver::{byte_of, Error, Lsm6dso16is};
use crate::register::main::{GyDataRate, OutXYZA, Reg, XlDataRate};
use vstd::prelude::*;

verus! {

/// The high-performance-mode bit that an output data rate code asks for:
/// 1 (disabled) for the low-power and normal rates, whose code has bit 4 set.
pub open spec fn hm_bit(code: u8) -> u8 {
    if code & 0x10 == 0x10 {
        1
    } else {
        0
    }
}

/// The transfers of setting an output data rate `code`, with `done` the
/// transfers made: the control register `ctrl` is read, the register `hm_reg`
/// is read and written back with its high-performance bit at `hm_off` set as
/// the code asks, and `ctrl` is written back with its ODR field (bits 4 to 7)
/// set to the low four bits of the code.
pub open spec fn data_rate_plan(done: Seq<BusEvent>, ctrl: u8, hm_reg: u8, hm_off: u8, code: u8) -> Seq<BusEvent> {
    seq![
        reg_read(ctrl, seq![byte_of(done[0])], true),
        reg_read(hm_reg, seq![byte_of(done[1])], true),
        reg_write(hm_reg, seq![with_field(byte_of(done[1]), hm_off, 1, hm_bit(code))], true),
        reg_write(ctrl, seq![with_field(byte_of(done[0]), 4, 4, code & 0x0F)], true),
    ]
}

/// The transfers of reading an output data rate: the control register `ctrl`,
/// then the register `hm_reg` that holds the high-performance bit.
pub open spec fn two_reads_plan(done: Seq<BusEvent>, first: u8, second: u8) -> Seq<BusEvent> {
    seq![reg_read(first, seq![byte_of(done[0])], true), reg_read(second, seq![byte_of(done[1])], true)]
}

/// `t1` is `t0` followed by the setting of an output data rate `code`, as
/// `data_rate_plan` describes, and `ok` tells whether it went through.
pub open spec fn rate_written(t0: Seq<BusEvent>, t1: Seq<BusEvent>, ctrl: u8, hm_reg: u8, hm_off: u8, code: u8, ok: bool) -> bool {
    &&& extends(t0, t1)
    &&& ran(added(t0, t1), data_rate_plan(added(t0, t1), ctrl, hm_reg, hm_off, code), ok)
}

/// `t1` is `t0` followed by the setting of the accelerometer data rate `code`.
pub open spec fn xl_rate_written(t0: Seq<BusEvent>, t1: Seq<BusEvent>, code: u8, ok: bool) -> bool {
    rate_written(t0, t1, 0x10, 0x15, 4, code, ok)
}

/// The three axes read from six output bytes, each least significant first.
pub open spec fn axes_of(d: Seq<u8>) -> [i16; 3] {
    [
        signed16(le_u16(d.subrange(0, 2))) as i16,
        signed16(le_u16(d.subrange(2, 4))) as i16,
        signed16(le_u16(d.subrange(4, 6))) as i16,
    ]
}

impl<B: BusOperation, T: DelayNs> Lsm6dso16is<B, T> {
    /// Reads the six output bytes of three axes from `reg` on.
    fn axes_raw_get(&mut self, reg: u8) -> (r: Result<[i16; 3], Error<B::Error>>)
        ensures
            final(self).bus.trace() == old(self).bus.trace().push(
                reg_read(reg, final(self).bus.trace().last()->WriteRead_data, r is Ok),
            ),
            final(self).bus.trace().last()->WriteRead_data.len() == 6,
            r matches Ok(v) ==> v@ == axes_of(final(self).bus.trace().last()->WriteRead_data)@,
            r matches Err(e) ==> e is Bus,
    {
        let mut buf: [u8; 6] = [0; 6];
        let res = self.read_from_register(reg, &mut buf);
        match res {
            Err(e) => Err(e),
            Ok(()) => {
                let v = OutXYZA::from_le_bytes(buf);
                assert(buf@.subrange(0, 2) =~= seq![buf@[0], buf@[1]]);
                assert(buf@.subrange(2, 4) =~= seq![buf@[2], buf@[3]]);
                assert(buf@.subrange(4, 6) =~= seq![buf@[4], buf@[5]]);
                let r = [v.x, v.y, v.z];
                assert(r@ =~= axes_of(buf@)@);
                Ok(r)
            },
        }
    }

    /// Reads the linear acceleration: the X, Y and Z outputs (OUTX_L_A to
    /// OUTZ_H_A), each a 16-bit two's complement word.
    pub fn acceleration_raw_get(&mut self) -> (r: Result<[i16; 3], Error<B::Error>>)
        ensures
            final(self).bus.trace() == old(self).bus.trace().push(
                reg_read(0x28, final(self).bus.trace().last()->WriteRead_data, r is Ok),
            ),
            final(self).bus.trace().last()->WriteRead_data.len() == 6,
            r matches Ok(v) ==> v@ == axes_of(final(self).bus.trace().last()->WriteRead_data)@,
            r matches Err(e) ==> e is Bus,
    {
        self.axes_raw_get(Reg::OutxLA.addr())
    }

    /// Reads the angular rate: the X, Y and Z outputs (OUTX_L_G to
    /// OUTZ_H_G), each a 16-bit two's complement word.
    pub fn angular_rate_raw_get(&mut self) -> (r: Result<[i16; 3], Error<B::Error>>)
        ensures
            final(self).bus.trace() == old(self).bus.trace().push(
                reg_read(0x22, final(self).bus.trace().last()->WriteRead_data, r is Ok),
            ),
            final(self).bus.trace().last()->WriteRead_data.len() == 6,
            r matches Ok(v) ==> v@ == axes_of(final(self).bus.trace().last()->WriteRead_data)@,
            r matches Err(e) ==> e is Bus,
    {
        self.axes_raw_get(Reg::OutxLG.addr())
    }

    fn data_rate_set(&mut self, ctrl: u8, hm_reg: u8, hm_off: u8, code: u8) -> (r: Result<(), Error<B::Error>>)
        requires
            hm_off < 8,
        ensures
            rate_written(old(self).bus.trace(), final(self).bus.trace(), ctrl, hm_reg, hm_off, code, r is Ok),
            r matches Err(e) ==> e is Bus,
    {
        let ghost t0 = self.bus.trace();
        proof {
            lemma_start(t0);
        }
        let ghost t = self.bus.trace();
        let rc = self.read_byte(ctrl);
        proof {
            let p = data_rate_plan(added(t0, self.bus.trace()), ctrl, hm_reg, hm_off, code);
            assert(added(t0, t) =~= p.subrange(0, 0));
            assert(added(t0, self.bus.trace())[0] == self.bus.trace().last());
            lemma_step(t0, t, self.bus.trace().last(), p, 0);
            assert(self.bus.trace() =~= t.push(self.bus.trace().last()));
        }
        let c = match rc {
            Err(e) => return Err(e),
            Ok(c) => c,
        };
        let ghost t = self.bus.trace();
        let rh = self.read_byte(hm_reg);
        proof {
            let p = data_rate_plan(added(t0, self.bus.trace()), ctrl, hm_reg, hm_off, code);
            assert(added(t0, self.bus.trace())[0] == added(t0, t)[0]);
            assert(added(t0, t) =~= p.subrange(0, 1));
            assert(added(t0, self.bus.trace())[1] == self.bus.trace().last());
            lemma_step(t0, t, self.bus.trace().last(), p, 1);
            assert(self.bus.trace() =~= t.push(self.bus.trace().last()));
        }
        let h = match rh {
            Err(e) => return Err(e),
            Ok(h) => h,
        };
        let hm: u8 = if code & 0x10 == 0x10 {
            1
        } else {
            0
        };
        let ghost t = self.bus.trace();
        let rw = self.write_byte(hm_reg, put_field(h, hm_off, 1, hm));
        proof {
            let p = data_rate_plan(added(t0, self.bus.trace()), ctrl, hm_reg, hm_off, code);
            assert(added(t0, self.bus.trace())[0] == added(t0, t)[0]);
            assert(added(t0, self.bus.trace())[1] == added(t0, t)[1]);
            assert(added(t0, t) =~= p.subrange(0, 2));
            lemma_step(t0, t, self.bus.trace().last(), p, 2);
            assert(self.bus.trace() =~= t.push(self.bus.trace().last()));
        }
        if rw.is_err() {
            return rw;
        }
        let ghost t = self.bus.trace();
        let rw2 = self.write_byte(ctrl, put_field(c, 4, 4, code & 0x0F));
        proof {
            let p = data_rate_plan(added(t0, self.bus.trace()), ctrl, hm_reg, hm_off, code);
            assert(added(t0, self.bus.trace())[0] == added(t0, t)[0]);
            assert(added(t0, self.bus.trace())[1] == added(t0, t)[1]);
            assert(added(t0, t) =~= p.subrange(0, 3));
            lemma_step(t0, t, self.bus.trace().last(), p, 3);
            assert(self.bus.trace() =~= t.push(self.bus.trace().last()));
        }
        rw2
    }

    /// Sets the accelerometer output data rate (ODR), with the
    /// high-performance mode that the rate belongs to.
    pub fn xl_data_rate_set(&mut self, val: XlDataRate) -> (r: Result<(), Error<B::Error>>)
        ensures
            xl_rate_written(old(self).bus.trace(), final(self).bus.trace(), val.spec_bits(), r is Ok),
            r matches Err(e) ==> e is Bus,
    {
        self.data_rate_set(Reg::Ctrl1Xl.addr(), Reg::Ctrl6C.addr(), 4, val.bits())
    }

    /// Sets the gyroscope output data rate (ODR), with the high-performance
    /// mode that the rate belongs to.
    pub fn gy_data_rate_set(&mut self, val: GyDataRate) -> (r: Result<(), Error<B::Error>>)
        ensures
            rate_written(old(self).bus.trace(), final(self).bus.trace(), 0x11, 0x16, 7, val.spec_bits(), r is Ok),
            r matches Err(e) ==> e is Bus,
    {
        self.data_rate_set(Reg::Ctrl2G.addr(), Reg::Ctrl7G.addr(), 7, val.bits())
    }

    fn two_reads(&mut self, first: u8, second: u8) -> (r: Result<(u8, u8), Error<B::Error>>)
        ensures
            extends(old(self).bus.trace(), final(self).bus.trace()),
            ran(
                added(old(self).bus.trace(), final(self).bus.trace()),
                two_reads_plan(added(old(self).bus.trace(), final(self).bus.trace()), first, second),
                r is Ok,
            ),
            r matches Ok(p) ==> p.0 == byte_of(added(old(self).bus.trace(), final(self).bus.trace())[0])
                && p.1 == byte_of(added(old(self).bus.trace(), final(self).bus.trace())[1]),
            r matches Err(e) ==> e is Bus,
    {
        let ghost t0 = self.bus.trace();
        proof {
            lemma_start(t0);
        }
        let ghost t = self.bus.trace();
        let r1 = self.read_byte(first);
        proof {
            let p = two_reads_plan(added(t0, self.bus.trace()), first, second);
            assert(added(t0, t) =~= p.subrange(0, 0));
            assert(added(t0, self.bus.trace())[0] == self.bus.trace().last());
            lemma_step(t0, t, self.bus.trace().last(), p, 0);
            assert(self.bus.trace() =~= t.push(self.bus.trace().last()));
        }
        let a = match r1 {
            Err(e) => return Err(e),
            Ok(a) => a,
        };
        let ghost t = self.bus.trace();
        let r2 = self.read_byte(second);
        proof {
            let p = two_reads_plan(added(t0, self.bus.trace()), first, second);
            assert(added(t0, self.bus.trace())[0] == added(t0, t)[0]);
            assert(added(t0, t) =~= p.subrange(0, 1));
            assert(added(t0, self.bus.trace())[1] == self.bus.trace().last());
            lemma_step(t0, t, self.bus.trace().last(), p, 1);
            assert(self.bus.trace() =~= t.push(self.bus.trace().last()));
        }
        let b = match r2 {
            Err(e) => return Err(e),
            Ok(b) => b,
        };
        Ok((a, b))
    }

    /// Gets the current accelerometer output data rate (ODR): the ODR field
    /// of CTRL1_XL with the high-performance bit of CTRL6_C above it.
    pub fn xl_data_rate_get(&mut self) -> (r: Result<XlDataRate, Error<B::Error>>)
        ensures
            extends(old(self).bus.trace(), final(self).bus.trace()),
            ran(
                added(old(self).bus.trace(), final(self).bus.trace()),
                two_reads_plan(added(old(self).bus.trace(), final(self).bus.trace()), 0x10, 0x15),
                r is Ok,
            ),
            r matches Ok(v) ==> v == XlDataRate::spec_from_bits_or_default(
                (field_of(byte_of(added(old(self).bus.trace(), final(self).bus.trace())[1]), 4, 1) * 16
                    + field_of(byte_of(added(old(self).bus.trace(), final(self).bus.trace())[0]), 4, 4)) as u8,
            ),
            r matches Err(e) ==> e is Bus,
    {
        let (c, h) = self.two_reads(Reg::Ctrl1Xl.addr(), Reg::Ctrl6C.addr())?;
        proof {
            lemma_field_max();
        }
        let odr = get_field(c, 4, 4);
        let hm = get_field(h, 4, 1);
        Ok(XlDataRate::from_bits_or_default(hm * 16 + odr))
    }

    /// Gets the current gyroscope output data rate (ODR): the ODR field of
    /// CTRL2_G with the high-performance bit of CTRL7_G above it.
    pub fn gy_data_rate_get(&mut self) -> (r: Result<GyDataRate, Error<B::Error>>)
        ensures
            extends(old(self).bus.trace(), final(self).bus.trace()),
            ran(
                added(old(self).bus.trace(), final(self).bus.trace()),
                two_reads_plan(added(old(self).bus.trace(), final(self).bus.trace()), 0x11, 0x16),
                r is Ok,
            ),
            r matches Ok(v) ==> v == GyDataRate::spec_from_bits_or_default(
                (field_of(byte_of(added(old(self).bus.trace(), final(self).bus.trace())[1]), 7, 1) * 16
                    + field_of(byte_of(added(old(self).bus.trace(), final(self).bus.trace())[0]), 4, 4)) as u8,
            ),
            r matches Err(e) ==> e is Bus,
    {
        let (c, h) = self.two_reads(Reg::Ctrl2G.addr(), Reg::Ctrl7G.addr())?;
        proof {
            lemma_field_max();
        }
        let odr = get_field(c, 4, 4);
        let hm = get_field(h, 7, 1);
        Ok(GyDataRate::from_bits_or_default(hm * 16 + odr))
    }
}

} // verus!
