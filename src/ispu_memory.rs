//! Moving bytes in and out of the ISPU's memories through its memory window,
//! splitting program-RAM transfers at the window's boundaries.
use crate::bits::{le16_bytes, put_field, with_field};
use crate::bus::{added, all_ok, extends, lemma_ran_all, lemma_ran_fail, ok_of, ran, reg_read, reg_write, with_ok, BusEvent, BusOperation, DelayNs};
use crate::driver::{banked_ops, byte_of, scoped, is_byte_read, ok_at, Error, IspuState, Lsm6dso16is};
use crate::register::ispu::{IspuMemAddr, IspuMemoryType, IspuReg};
use crate::register::MemBank;
use vstd::prelude::*;

verus! {

/// The addresses at which the program RAM's memory window wraps: a single
/// streamed transfer must not run across one of them.
pub open spec fn is_boundary(x: int) -> bool {
    x == 0x2000 || x == 0x4000 || x == 0x6000
}

/// Whether the run of `len` addresses from `start` runs across a boundary.
pub open spec fn crosses_boundary(start: int, len: int) -> bool {
    (start < 0x2000 < start + len) || (start < 0x4000 < start + len) || (start < 0x6000 < start
        + len)
}

/// Where segment `k` of `segs` ends.
pub open spec fn seg_end(segs: Seq<(u16, u16)>, k: int) -> int {
    segs[k].0 + segs[k].1
}

/// `segs` is the split of the `len` addresses from `addr` into runs:
/// the first starts at `addr`, each starts where the one before ends and the
/// last ends at `addr + len`, so that they cover the range once each and in
/// ascending order; none is empty and none crosses a boundary; and all but
/// the last end on a boundary, so that no run is split more than needed.
pub open spec fn is_segmentation(segs: Seq<(u16, u16)>, addr: int, len: int) -> bool {
    &&& (len == 0 <==> segs.len() == 0)
    &&& (segs.len() > 0 ==> segs[0].0 == addr && seg_end(segs, segs.len() - 1) == addr + len)
    &&& forall|k: int| 0 <= k < segs.len() - 1 ==> segs[k + 1].0 == #[trigger] seg_end(segs, k)
    &&& forall|k: int| 0 <= k < segs.len() ==> (#[trigger] segs[k]).1 > 0
    &&& forall|k: int| 0 <= k < segs.len() ==> !crosses_boundary(segs[k].0 as int, #[trigger] segs[k].1 as int)
    &&& forall|k: int| 0 <= k < segs.len() - 1 ==> is_boundary(#[trigger] seg_end(segs, k))
}

/// The runs `(start, length)` in which `len` bytes are written to program RAM
/// from `mem_addr` on, in ascending address order.
pub fn program_ram_segments(mem_addr: u16, len: u16) -> (r: Vec<(u16, u16)>)
    requires
        mem_addr + len <= 0x10000,
    ensures
        is_segmentation(r@, mem_addr as int, len as int),
        r@.len() <= 4,
        forall|k: int| 0 <= k < r@.len() ==> mem_addr <= #[trigger] r@[k].0 && r@[k].0 + r@[k].1 <= mem_addr + len,
{
    let mut segs: Vec<(u16, u16)> = Vec::new();
    let mut cur: u32 = mem_addr as u32;
    let mut remaining: u32 = len as u32;
    while remaining > 0
        invariant
            cur + remaining == mem_addr + len,
            cur >= mem_addr,
            mem_addr + len <= 0x10000,
            segs@.len() == 0 ==> cur == mem_addr,
            segs@.len() > 0 ==> segs@[0].0 == mem_addr && seg_end(segs@, segs@.len() - 1) == cur,
            segs@.len() > 0 ==> cur > mem_addr,
            segs@.len() > 0 && cur <= 0x2000 ==> segs@.len() <= 1,
            segs@.len() > 0 && cur <= 0x4000 ==> segs@.len() <= 2,
            segs@.len() > 0 && cur <= 0x6000 ==> segs@.len() <= 3,
            segs@.len() <= 4,
            forall|k: int| 0 <= k < segs@.len() ==> mem_addr <= #[trigger] segs@[k].0 && segs@[k].0 + segs@[k].1 <= cur,
            forall|k: int| 0 <= k < segs@.len() - 1 ==> segs@[k + 1].0 == #[trigger] seg_end(segs@, k),
            forall|k: int| 0 <= k < segs@.len() ==> (#[trigger] segs@[k]).1 > 0,
            forall|k: int| 0 <= k < segs@.len() ==> !crosses_boundary(segs@[k].0 as int, #[trigger] segs@[k].1 as int),
            forall|k: int| 0 <= k < segs@.len() ==> (k < segs@.len() - 1 || remaining > 0) ==> is_boundary(#[trigger] seg_end(segs@, k)),
        decreases remaining,
    {
        let next: u32 = if cur < 0x2000 {
            0x2000
        } else if cur < 0x4000 {
            0x4000
        } else if cur < 0x6000 {
            0x6000
        } else {
            0x10000
        };
        let room: u32 = next - cur;
        let seg_len: u32 = if remaining < room {
            remaining
        } else {
            room
        };
        let ghost old_segs = segs@;
        segs.push((cur as u16, seg_len as u16));
        cur = cur + seg_len;
        remaining = remaining - seg_len;
        assert forall|k: int| 0 <= k < segs@.len() - 1 implies segs@[k + 1].0 == #[trigger] seg_end(segs@, k) by {
            if k < old_segs.len() - 1 {
                assert(seg_end(old_segs, k) == seg_end(segs@, k));
            }
        }
        assert forall|k: int| 0 <= k < segs@.len() && (k < segs@.len() - 1 || remaining > 0) implies is_boundary(#[trigger] seg_end(segs@, k)) by {
            if k < old_segs.len() {
                assert(seg_end(old_segs, k) == seg_end(segs@, k));
            }
        }
    }
    segs
}

/// The byte that the first transfer after `t0` in `t1` carried.
pub open spec fn byte_at_start(t0: Seq<BusEvent>, t1: Seq<BusEvent>) -> u8 {
    byte_of(t1[t0.len() as int])
}

/// The ISPU_MEM_SEL byte that selects memory `sel`, for reading when `read`.
pub open spec fn mem_select_byte(sel: IspuMemoryType, read: bool) -> u8 {
    ((if read {
        0x40int
    } else {
        0int
    }) + sel.spec_bits()) as u8
}

/// The transfers that stop the ISPU clock and select memory `sel`: ISPU_CONFIG
/// reads as `b` and is written back with `clk_dis` set, then ISPU_MEM_SEL is
/// written.
pub open spec fn clock_off_ops(b: u8, sel: IspuMemoryType, read: bool) -> Seq<BusEvent> {
    seq![
        reg_read(0x02, seq![b], true),
        reg_write(0x02, seq![with_field(b, 1, 1, 1)], true),
        reg_write(0x08, seq![mem_select_byte(sel, read)], true),
    ]
}

/// The transfer that points the memory window at `addr`.
pub open spec fn addr_write(addr: u16) -> BusEvent {
    reg_write(0x09, le16_bytes(addr), true)
}

/// The transfers that write each run of `segs` through the memory window:
/// its start address, then its bytes of `data` (whose first byte goes to
/// address `base`).
pub open spec fn segment_ops(segs: Seq<(u16, u16)>, data: Seq<u8>, base: int) -> Seq<BusEvent>
    decreases segs.len(),
{
    if segs.len() == 0 {
        seq![]
    } else {
        let s = segs.last();
        segment_ops(segs.drop_last(), data, base) + seq![
            addr_write(s.0),
            reg_write(0x0B, data.subrange(s.0 - base, s.0 - base + s.1), true),
        ]
    }
}

/// Step `2 k` of `segment_ops` addresses run `k`, step `2 k + 1` writes it.
pub proof fn lemma_segment_ops(segs: Seq<(u16, u16)>, data: Seq<u8>, base: int)
    ensures
        segment_ops(segs, data, base).len() == 2 * segs.len(),
        all_ok(segment_ops(segs, data, base)),
        forall|k: int| 0 <= k < segs.len() ==> #[trigger] segment_ops(segs, data, base)[2 * k] == addr_write(segs[k].0),
        forall|k: int| 0 <= k < segs.len() ==> #[trigger] segment_ops(segs, data, base)[2 * k + 1] == reg_write(
            0x0B,
            data.subrange(segs[k].0 - base, segs[k].0 - base + segs[k].1),
            true,
        ),
    decreases segs.len(),
{
    if segs.len() > 0 {
        lemma_segment_ops(segs.drop_last(), data, base);
        let prev = segment_ops(segs.drop_last(), data, base);
        let all = segment_ops(segs, data, base);
        assert forall|k: int| 0 <= k < all.len() implies ok_of(#[trigger] all[k]) by {
            if k < prev.len() {
                assert(all[k] == prev[k]);
            }
        }
        assert forall|k: int| 0 <= k < segs.len() implies #[trigger] all[2 * k] == addr_write(segs[k].0) by {
            if k < segs.len() - 1 {
                assert(all[2 * k] == prev[2 * k]);
                assert(segs.drop_last()[k] == segs[k]);
            }
        }
        assert forall|k: int| 0 <= k < segs.len() implies #[trigger] all[2 * k + 1] == reg_write(
            0x0B,
            data.subrange(segs[k].0 - base, segs[k].0 - base + segs[k].1),
            true,
        ) by {
            if k < segs.len() - 1 {
                assert(all[2 * k + 1] == prev[2 * k + 1]);
                assert(segs.drop_last()[k] == segs[k]);
            }
        }
    }
}

/// The runs in which `len` bytes are written to memory `sel` from `addr` on:
/// program RAM is split at the window's boundaries; data RAM takes one run.
/// Nothing is written for no bytes.
pub open spec fn write_runs(segs: Seq<(u16, u16)>, sel: IspuMemoryType, addr: int, len: int) -> bool {
    match sel {
        IspuMemoryType::ProgramRamMemory => is_segmentation(segs, addr, len),
        IspuMemoryType::DataRamMemory => segs == if len == 0 {
            Seq::<(u16, u16)>::empty()
        } else {
            seq![(addr as u16, len as u16)]
        },
    }
}

/// The transfers of a write of `data` to ISPU memory `sel` in the runs `segs`
/// (the first at `base`): the clock is stopped and the memory selected, each
/// run is addressed and written, and ISPU_CONFIG is restored to `b`, as it
/// read before.
pub open spec fn write_memory_plan(b: u8, sel: IspuMemoryType, segs: Seq<(u16, u16)>, data: Seq<u8>, base: int) -> Seq<BusEvent> {
    clock_off_ops(b, sel, false) + segment_ops(segs, data, base) + seq![reg_write(0x02, seq![b], true)]
}

/// The first transfers of a read of ISPU memory `sel` from `addr` on: the
/// clock is stopped (ISPU_CONFIG read as `b`), the memory selected for
/// reading, and the window pointed at `addr`.
pub open spec fn read_memory_head(b: u8, sel: IspuMemoryType, addr: u16) -> Seq<BusEvent> {
    clock_off_ops(b, sel, true) + seq![addr_write(addr)]
}

/// `done` are the transfers of a read of ISPU memory `sel` from `addr` on that
/// filled the buffer with `data`, and `ok` tells whether it went through.
/// After the head, one stale byte is read from ISPU_MEM_DATA and dropped;
/// then `data` is read from ISPU_MEM_DATA and ISPU_CONFIG is restored as it
/// read first.  Transfers stop at the first failure.
pub open spec fn memory_read_ops(done: Seq<BusEvent>, sel: IspuMemoryType, addr: u16, data: Seq<u8>, ok: bool) -> bool {
    let b = byte_of(done[0]);
    let head = read_memory_head(b, sel, addr);
    ||| ran(done, head, false) && !ok
    ||| {
        &&& done.len() == head.len() + 1
        &&& done.subrange(0, head.len() as int) == head
        &&& is_byte_read(done[head.len() as int], 0x0B)
        &&& !ok_of(done[head.len() as int])
        &&& !ok
    }
    ||| {
        &&& done.len() > head.len() + 1
        &&& done.subrange(0, head.len() as int) == head
        &&& is_byte_read(done[head.len() as int], 0x0B)
        &&& ok_of(done[head.len() as int])
        &&& ran(
            done.subrange(head.len() + 1int, done.len() as int),
            seq![reg_read(0x0B, data, true), reg_write(0x02, seq![b], true)],
            ok,
        )
    }
}

/// `t1` is `t0` followed by a read of ISPU memory `sel` from `addr` on that
/// gave `data`, scoped to the ISPU bank; `inner` are the transfers made while
/// the bank was selected, and `inner_ok` tells whether all went through.
pub open spec fn memory_read<E>(t0: Seq<BusEvent>, t1: Seq<BusEvent>, inner: Seq<BusEvent>, inner_ok: bool, sel: IspuMemoryType, addr: u16, data: Seq<u8>, r: Result<(), Error<E>>) -> bool {
    &&& scoped(t0, t1, MemBank::IspuMemBank, inner, inner_ok, r)
    &&& ok_at(t0, t1, 0) ==> memory_read_ops(inner, sel, addr, data, inner_ok)
}

/// `t1` is `t0` followed by the write of `data` to ISPU memory `sel` from
/// `addr` on, in the runs `segs`, scoped to the ISPU bank; `inner` are the
/// transfers made while the bank was selected, carried out until the first
/// failure, and `inner_ok` tells whether all went through.
pub open spec fn memory_written<E>(t0: Seq<BusEvent>, t1: Seq<BusEvent>, inner: Seq<BusEvent>, inner_ok: bool, segs: Seq<(u16, u16)>, sel: IspuMemoryType, addr: u16, data: Seq<u8>, r: Result<(), Error<E>>) -> bool {
    &&& write_runs(segs, sel, addr as int, data.len() as int)
    &&& scoped(t0, t1, MemBank::IspuMemBank, inner, inner_ok, r)
    &&& ok_at(t0, t1, 0) ==> ran(inner, write_memory_plan(byte_of(inner[0]), sel, segs, data, addr as int), inner_ok)
}

impl<B: BusOperation, T: DelayNs> IspuState<B, T> {
    /// Points the ISPU memory window at `mem_addr` (ISPU_MEM_ADDR, two bytes).
    pub fn ispu_sel_memory_addr(&mut self, mem_addr: u16) -> (r: Result<(), Error<B::Error>>)
        ensures
            final(self).bus.trace() == old(self).bus.trace().push(reg_write(0x09, le16_bytes(mem_addr), r is Ok)),
            r matches Err(e) ==> e is Bus,
    {
        let bytes = IspuMemAddr(mem_addr).to_le_bytes();
        self.write_to_register(IspuReg::IspuMemAddr0.addr(), &bytes)
    }
}

impl<B: BusOperation, T: DelayNs> Lsm6dso16is<B, T> {
    /// The part of `ispu_write_memory` that runs with the ISPU bank selected.
    fn write_memory_in_bank(&mut self, mem_sel: IspuMemoryType, mem_addr: u16, mem_data: &[u8], segs: &Vec<(u16, u16)>) -> (r: Result<(), Error<B::Error>>)
        requires
            forall|k: int| 0 <= k < segs@.len() ==> mem_addr <= #[trigger] segs@[k].0 && segs@[k].0 + segs@[k].1 <= mem_addr + mem_data@.len(),
            forall|k: int| 0 <= k < segs@.len() ==> (#[trigger] segs@[k]).1 > 0,
        ensures
            extends(old(self).bus.trace(), final(self).bus.trace()),
            ran(
                added(old(self).bus.trace(), final(self).bus.trace()),
                write_memory_plan(byte_at_start(old(self).bus.trace(), final(self).bus.trace()), mem_sel, segs@, mem_data@, mem_addr as int),
                r is Ok,
            ),
            r matches Err(e) ==> e is Bus,
    {
        let ghost t0 = self.bus.trace();
        let res = self.read_byte(IspuReg::IspuConfig.addr());
        let ghost b = byte_of(self.bus.trace().last());
        let ghost plan = write_memory_plan(b, mem_sel, segs@, mem_data@, mem_addr as int);
        proof {
            lemma_segment_ops(segs@, mem_data@, mem_addr as int);
            assert(all_ok(plan)) by {
                assert forall|k: int| 0 <= k < plan.len() implies ok_of(#[trigger] plan[k]) by {
                    if 3 <= k < plan.len() - 1 {
                        assert(plan[k] == segment_ops(segs@, mem_data@, mem_addr as int)[k - 3]);
                    }
                }
            }
            assert(byte_at_start(t0, self.bus.trace()) == b);
        }
        let cfg = match res {
            Err(e) => {
                proof {
                    lemma_ran_fail(plan, 0);
                    assert(added(t0, self.bus.trace()) =~= plan.subrange(0, 0).push(with_ok(plan[0], false)));
                }
                assert(self.bus.trace().subrange(0, t0.len() as int) =~= t0);
                return Err(e);
            },
            Ok(cfg) => cfg,
        };
        assert(added(t0, self.bus.trace()) =~= plan.subrange(0, 1));
        // Stop the ISPU clock while the memory window is used.
        let r1 = self.write_byte(IspuReg::IspuConfig.addr(), put_field(cfg, 1, 1, 1));
        if r1.is_err() {
            proof {
                lemma_ran_fail(plan, 1);
                assert(added(t0, self.bus.trace()) =~= plan.subrange(0, 1).push(with_ok(plan[1], false)));
            }
            assert(self.bus.trace().subrange(0, t0.len() as int) =~= t0);
            return r1;
        }
        assert(added(t0, self.bus.trace()) =~= plan.subrange(0, 2));
        let sel_byte: u8 = mem_sel.bits();
        let r2 = self.write_byte(IspuReg::IspuMemSel.addr(), sel_byte);
        assert(mem_select_byte(mem_sel, false) == sel_byte);
        if r2.is_err() {
            proof {
                lemma_ran_fail(plan, 2);
                assert(added(t0, self.bus.trace()) =~= plan.subrange(0, 2).push(with_ok(plan[2], false)));
            }
            assert(self.bus.trace().subrange(0, t0.len() as int) =~= t0);
            return r2;
        }
        assert(added(t0, self.bus.trace()) =~= plan.subrange(0, 3));
        assert(self.bus.trace().subrange(0, t0.len() as int) =~= t0);
        let mut i: usize = 0;
        while i < segs.len()
            invariant
                i <= segs@.len(),
                t0 == old(self).bus.trace(),
                cfg == b,
                byte_at_start(t0, self.bus.trace()) == b,
                extends(t0, self.bus.trace()),
                added(t0, self.bus.trace()) == plan.subrange(0, 3 + 2 * i),
                all_ok(plan),
                plan == write_memory_plan(b, mem_sel, segs@, mem_data@, mem_addr as int),
                segment_ops(segs@, mem_data@, mem_addr as int).len() == 2 * segs@.len(),
                forall|k: int| 0 <= k < segs@.len() ==> #[trigger] segment_ops(segs@, mem_data@, mem_addr as int)[2 * k] == addr_write(segs@[k].0),
                forall|k: int| 0 <= k < segs@.len() ==> #[trigger] segment_ops(segs@, mem_data@, mem_addr as int)[2 * k + 1] == reg_write(
                    0x0B,
                    mem_data@.subrange(segs@[k].0 - mem_addr, segs@[k].0 - mem_addr + segs@[k].1),
                    true,
                ),
                forall|k: int| 0 <= k < segs@.len() ==> mem_addr <= #[trigger] segs@[k].0 && segs@[k].0 + segs@[k].1 <= mem_addr + mem_data@.len(),
                forall|k: int| 0 <= k < segs@.len() ==> (#[trigger] segs@[k]).1 > 0,
            decreases segs@.len() - i,
        {
            let (start, seg_len) = segs[i];
            assert(segs@[i as int] == (start, seg_len));
            assert(plan[3 + 2 * i] == segment_ops(segs@, mem_data@, mem_addr as int)[2 * i]);
            assert(plan[3 + 2 * i + 1] == segment_ops(segs@, mem_data@, mem_addr as int)[2 * i + 1]);
            assert(with_ok(plan[3 + 2 * i], false) == reg_write(0x09, le16_bytes(start), false));
            let ra = self.ispu_sel_memory_addr(start);
            if ra.is_err() {
                proof {
                    lemma_ran_fail(plan, 3 + 2 * i);
                    assert(added(t0, self.bus.trace()) =~= plan.subrange(0, 3 + 2 * i).push(with_ok(plan[3 + 2 * i], false)));
                }
                assert(self.bus.trace().subrange(0, t0.len() as int) =~= t0);
                return ra;
            }
            assert(added(t0, self.bus.trace()) =~= plan.subrange(0, 3 + 2 * i + 1));
            let from: usize = (start - mem_addr) as usize;
            let to: usize = from + seg_len as usize;
            let chunk = &mem_data[from..to];
            let rd = self.write_to_register(IspuReg::IspuMemData.addr(), chunk);
            if rd.is_err() {
                proof {
                    lemma_ran_fail(plan, 3 + 2 * i + 1);
                    assert(added(t0, self.bus.trace()) =~= plan.subrange(0, 3 + 2 * i + 1).push(with_ok(plan[3 + 2 * i + 1], false)));
                }
                assert(self.bus.trace().subrange(0, t0.len() as int) =~= t0);
            return rd;
            }
            i = i + 1;
            assert(added(t0, self.bus.trace()) =~= plan.subrange(0, 3 + 2 * i));
            assert(self.bus.trace().subrange(0, t0.len() as int) =~= t0);
        }
        assert(plan.len() == 3 + 2 * i + 1);
        assert(plan[plan.len() - 1] == reg_write(0x02, seq![b], true));
        // Restore the ISPU clock as it was.
        let rc = self.write_byte(IspuReg::IspuConfig.addr(), cfg);
        if rc.is_err() {
            proof {
                lemma_ran_fail(plan, plan.len() - 1);
                assert(added(t0, self.bus.trace()) =~= plan.subrange(0, plan.len() - 1).push(with_ok(plan[plan.len() - 1], false)));
            }
            assert(self.bus.trace().subrange(0, t0.len() as int) =~= t0);
            return rc;
        }
        proof {
            lemma_ran_all(plan);
            assert(added(t0, self.bus.trace()) =~= plan.subrange(0, plan.len() - 1).push(plan[plan.len() - 1]));
            assert(added(t0, self.bus.trace()) =~= plan);
            assert(self.bus.trace().subrange(0, t0.len() as int) =~= t0);
        }
        Ok(())
    }

    /// Writes the first `len` bytes of `mem_data` to ISPU memory `mem_sel`
    /// from address `mem_addr` on.
    ///
    /// The ISPU bank is selected around the operation and the ISPU clock is
    /// stopped for its duration, then restored.  A program-RAM write is split
    /// into runs at the window boundaries 0x2000, 0x4000 and 0x6000, written
    /// in ascending order.
    pub fn ispu_write_memory(&mut self, mem_sel: IspuMemoryType, mem_addr: u16, mem_data: &[u8], len: u16) -> (r: Result<(), Error<B::Error>>)
        requires
            len <= mem_data@.len(),
            mem_sel == IspuMemoryType::ProgramRamMemory ==> mem_addr + len <= 0x10000,
        ensures
            exists|inner: Seq<BusEvent>, inner_ok: bool, segs: Seq<(u16, u16)>|
                #[trigger] memory_written(old(self).bus.trace(), final(self).bus.trace(), inner, inner_ok, segs, mem_sel, mem_addr, mem_data@.subrange(0, len as int), r),
    {
        let data: &[u8] = &mem_data[0..len as usize];
        let segs: Vec<(u16, u16)> = if mem_sel == IspuMemoryType::ProgramRamMemory {
            program_ram_segments(mem_addr, len)
        } else if len == 0 {
            Vec::new()
        } else {
            let mut v: Vec<(u16, u16)> = Vec::new();
            v.push((mem_addr, len));
            v
        };
        assert(write_runs(segs@, mem_sel, mem_addr as int, data@.len() as int)) by {
            if mem_sel == IspuMemoryType::DataRamMemory && len > 0 {
                assert(segs@ =~= seq![(mem_addr, len)]);
            }
            if mem_sel == IspuMemoryType::DataRamMemory && len == 0 {
                assert(segs@ =~= Seq::<(u16, u16)>::empty());
            }
        }
        let ghost t0 = self.bus.trace();
        match self.mem_bank_set(MemBank::IspuMemBank) {
            Err(e) => {
                let r = Err(e);
                assert(self.bus.trace() =~= t0 + banked_ops(MemBank::IspuMemBank, false, seq![], false));
                assert(memory_written(t0, self.bus.trace(), seq![], false, segs@, mem_sel, mem_addr, data@, r));
                return r;
            },
            Ok(()) => {},
        }
        let ghost t1 = self.bus.trace();
        let inner = self.write_memory_in_bank(mem_sel, mem_addr, data, &segs);
        let ghost t2 = self.bus.trace();
        let ghost inner_ops = added(t1, t2);
        let restore = self.mem_bank_set(MemBank::MainMemBank);
        let r = match inner {
            Err(e) => Err(e),
            Ok(()) => match restore {
                Ok(()) => Ok(()),
                Err(e) => Err(e),
            },
        };
        proof {
            assert(t2 =~= t1 + inner_ops);
            assert(self.bus.trace() =~= t0 + banked_ops(MemBank::IspuMemBank, true, inner_ops, restore is Ok));
            assert(ok_at(t0, self.bus.trace(), 0));
            if inner_ops.len() > 0 {
                assert(byte_of(inner_ops[0]) == byte_at_start(t1, t2));
            }
            assert(memory_written(t0, self.bus.trace(), inner_ops, inner is Ok, segs@, mem_sel, mem_addr, data@, r));
        }
        r
    }

    /// The part of `ispu_read_memory` that runs with the ISPU bank selected.
    fn read_memory_in_bank(&mut self, mem_sel: IspuMemoryType, mem_addr: u16, buf: &mut [u8]) -> (r: Result<(), Error<B::Error>>)
        ensures
            final(buf)@.len() == old(buf)@.len(),
            extends(old(self).bus.trace(), final(self).bus.trace()),
            memory_read_ops(added(old(self).bus.trace(), final(self).bus.trace()), mem_sel, mem_addr, final(buf)@, r is Ok),
            r matches Err(e) ==> e is Bus,
    {
        let ghost t0 = self.bus.trace();
        let res = self.read_byte(IspuReg::IspuConfig.addr());
        let ghost b = byte_of(self.bus.trace().last());
        let ghost head = read_memory_head(b, mem_sel, mem_addr);
        assert(all_ok(head));
        assert(self.bus.trace().subrange(0, t0.len() as int) =~= t0);
        let cfg = match res {
            Err(e) => {
                proof {
                    lemma_ran_fail(head, 0);
                    assert(added(t0, self.bus.trace()) =~= head.subrange(0, 0).push(with_ok(head[0], false)));
                }
                return Err(e);
            },
            Ok(cfg) => cfg,
        };
        assert(added(t0, self.bus.trace()) =~= head.subrange(0, 1));
        // Stop the ISPU clock while the memory window is used.
        let r1 = self.write_byte(IspuReg::IspuConfig.addr(), put_field(cfg, 1, 1, 1));
        assert(self.bus.trace().subrange(0, t0.len() as int) =~= t0);
        if r1.is_err() {
            proof {
                lemma_ran_fail(head, 1);
                assert(added(t0, self.bus.trace()) =~= head.subrange(0, 1).push(with_ok(head[1], false)));
            }
            return r1;
        }
        assert(added(t0, self.bus.trace()) =~= head.subrange(0, 2));
        let sel_byte: u8 = 0x40 + mem_sel.bits();
        let r2 = self.write_byte(IspuReg::IspuMemSel.addr(), sel_byte);
        assert(self.bus.trace().subrange(0, t0.len() as int) =~= t0);
        if r2.is_err() {
            proof {
                lemma_ran_fail(head, 2);
                assert(added(t0, self.bus.trace()) =~= head.subrange(0, 2).push(with_ok(head[2], false)));
            }
            return r2;
        }
        assert(added(t0, self.bus.trace()) =~= head.subrange(0, 3));
        let r3 = self.ispu_sel_memory_addr(mem_addr);
        assert(self.bus.trace().subrange(0, t0.len() as int) =~= t0);
        if r3.is_err() {
            proof {
                lemma_ran_fail(head, 3);
                assert(added(t0, self.bus.trace()) =~= head.subrange(0, 3).push(with_ok(head[3], false)));
            }
            return r3;
        }
        assert(added(t0, self.bus.trace()) =~= head);
        // The first byte out of the window is stale: read and drop it.
        let ghost t_head = self.bus.trace();
        let dummy = self.read_byte(IspuReg::IspuMemData.addr());
        let ghost t_dummy = self.bus.trace();
        assert(is_byte_read(t_dummy.last(), 0x0B));
        assert(self.bus.trace().subrange(0, t0.len() as int) =~= t0);
        if let Err(e) = dummy {
            proof {
                let done = added(t0, self.bus.trace());
                assert(done =~= head.push(t_dummy.last()));
                assert(done.subrange(0, 4) =~= head);
                assert(done[0] == head[0]);
            }
            return Err(e);
        }
        let rd = self.read_from_register(IspuReg::IspuMemData.addr(), buf);
        let ghost d = buf@;
        let ghost tail = seq![reg_read(0x0B, d, true), reg_write(0x02, seq![b], true)];
        assert(all_ok(tail));
        assert(self.bus.trace().subrange(0, t0.len() as int) =~= t0);
        if rd.is_err() {
            proof {
                lemma_ran_fail(tail, 0);
                assert(added(t_dummy, self.bus.trace()) =~= tail.subrange(0, 0).push(with_ok(tail[0], false)));
                assert(added(t0, self.bus.trace()) =~= head + seq![added(t0, self.bus.trace())[4]] + added(t_dummy, self.bus.trace()));
                let done = added(t0, self.bus.trace());
                assert(done.subrange(0, 4) =~= added(t0, t_head));
                assert(done[0] == head[0]);
                assert(done[4] == t_dummy.last());
                assert(done.subrange(5, done.len() as int) =~= added(t_dummy, self.bus.trace()));
            }
            return rd;
        }
        // Restore the ISPU clock as it was.
        let rc = self.write_byte(IspuReg::IspuConfig.addr(), cfg);
        assert(self.bus.trace().subrange(0, t0.len() as int) =~= t0);
        proof {
            if rc.is_err() {
                lemma_ran_fail(tail, 1);
                assert(added(t_dummy, self.bus.trace()) =~= tail.subrange(0, 1).push(with_ok(tail[1], false)));
            } else {
                lemma_ran_all(tail);
                assert(added(t_dummy, self.bus.trace()) =~= tail);
            }
            assert(added(t0, self.bus.trace()) =~= head + seq![added(t0, self.bus.trace())[4]] + added(t_dummy, self.bus.trace()));
            let done = added(t0, self.bus.trace());
            assert(done.subrange(0, 4) =~= added(t0, t_head));
            assert(done[0] == head[0]);
            assert(done[4] == t_dummy.last());
            assert(done.subrange(5, done.len() as int) =~= added(t_dummy, self.bus.trace()));
        }
        rc
    }

    /// Reads `len` bytes of ISPU memory `mem_sel` from address `mem_addr` on
    /// into the first `len` bytes of `mem_data`; the rest of `mem_data` is
    /// left as it was.
    ///
    /// The ISPU bank is selected around the operation and the ISPU clock is
    /// stopped for its duration, then restored.  The read is one transfer,
    /// not split at the window boundaries.
    pub fn ispu_read_memory(&mut self, mem_sel: IspuMemoryType, mem_addr: u16, mem_data: &mut [u8], len: u16) -> (r: Result<(), Error<B::Error>>)
        requires
            len <= old(mem_data)@.len(),
        ensures
            final(mem_data)@.len() == old(mem_data)@.len(),
            final(mem_data)@.subrange(len as int, final(mem_data)@.len() as int) == old(mem_data)@.subrange(len as int, old(mem_data)@.len() as int),
            exists|inner: Seq<BusEvent>, inner_ok: bool|
                #[trigger] memory_read(old(self).bus.trace(), final(self).bus.trace(), inner, inner_ok, mem_sel, mem_addr, final(mem_data)@.subrange(0, len as int), r),
    {
        let ghost t0 = self.bus.trace();
        let ghost m0 = mem_data@;
        match self.mem_bank_set(MemBank::IspuMemBank) {
            Err(e) => {
                let r = Err(e);
                assert(self.bus.trace() =~= t0 + banked_ops(MemBank::IspuMemBank, false, seq![], false));
                assert(mem_data@.subrange(len as int, mem_data@.len() as int) =~= m0.subrange(len as int, m0.len() as int));
                assert(memory_read(t0, self.bus.trace(), seq![], false, mem_sel, mem_addr, mem_data@.subrange(0, len as int), r));
                return r;
            },
            Ok(()) => {},
        }
        let ghost t1 = self.bus.trace();
        let (head, _rest) = mem_data.split_at_mut(len as usize);
        let inner = self.read_memory_in_bank(mem_sel, mem_addr, head);
        let ghost t2 = self.bus.trace();
        let ghost inner_ops = added(t1, t2);
        let restore = self.mem_bank_set(MemBank::MainMemBank);
        let r = match inner {
            Err(e) => Err(e),
            Ok(()) => match restore {
                Ok(()) => Ok(()),
                Err(e) => Err(e),
            },
        };
        proof {
            assert(t2 =~= t1 + inner_ops);
            assert(self.bus.trace() =~= t0 + banked_ops(MemBank::IspuMemBank, true, inner_ops, restore is Ok));
            assert(ok_at(t0, self.bus.trace(), 0));
        }
        assert(mem_data@.subrange(0, len as int) =~= head@);
        assert(mem_data@.subrange(len as int, mem_data@.len() as int) =~= m0.subrange(len as int, m0.len() as int));
        assert(memory_read(t0, self.bus.trace(), inner_ops, inner is Ok, mem_sel, mem_addr, mem_data@.subrange(0, len as int), r));
        r
    }
}

} // verus!
