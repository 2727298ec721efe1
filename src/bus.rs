//! The byte-oriented bus the driver talks through, and the record of what it sent.
use vstd::prelude::*;

verus! {

/// One transfer on a bus, as the driver issued it, with whether it went through.
pub enum BusEvent {
    /// A plain write: the bytes sent, the register address first.
    Write { data: Seq<u8>, ok: bool },
    /// A one-byte command (a register address) followed by a read of `data`.
    WriteRead { cmd: u8, data: Seq<u8>, ok: bool },
    /// A plain read of `data`.
    Read { data: Seq<u8>, ok: bool },
}

/// A record of transfers, oldest first.
pub type Trace = Seq<BusEvent>;

/// A bus on which the device is reached (I2C, SPI, or a bridge through another device).
///
/// `trace` is the sequence of transfers issued so far; every operation appends
/// exactly one transfer to it.
pub trait BusOperation {
    type Error;

    spec fn trace(&self) -> Trace;

    /// What a bus adds to the transfer record about a write of `wbuf` that
    /// took it from `pre` to `post`: a bus that relays transfers to another
    /// device states there what it did on that device.
    open spec fn write_done(pre: &Self, post: &Self, wbuf: Seq<u8>, r: Result<(), Self::Error>) -> bool {
        true
    }

    /// What a bus adds about a command `cmd` followed by a read of `data`.
    open spec fn write_read_done(pre: &Self, post: &Self, cmd: u8, data: Seq<u8>, r: Result<(), Self::Error>) -> bool {
        true
    }

    /// What a bus adds about a plain read of `data`.
    open spec fn read_done(pre: &Self, post: &Self, data: Seq<u8>, r: Result<(), Self::Error>) -> bool {
        true
    }

    /// Reads `rbuf.len()` bytes.
    fn read_bytes(&mut self, rbuf: &mut [u8]) -> (r: Result<(), Self::Error>)
        ensures
            final(rbuf)@.len() == old(rbuf)@.len(),
            final(self).trace() == old(self).trace().push(
                BusEvent::Read { data: final(rbuf)@, ok: r is Ok },
            ),
            Self::read_done(old(self), final(self), final(rbuf)@, r),
    ;

    /// Writes the bytes of `wbuf`.
    fn write_bytes(&mut self, wbuf: &[u8]) -> (r: Result<(), Self::Error>)
        ensures
            final(self).trace() == old(self).trace().push(
                BusEvent::Write { data: wbuf@, ok: r is Ok },
            ),
            Self::write_done(old(self), final(self), wbuf@, r),
    ;

    /// Writes `buf` to consecutive registers from `reg` on: the transfer of
    /// the register address followed by `buf`, as the bus frames it (a bus
    /// may split a long `buf` into several frames).
    fn write_to_register(&mut self, reg: u8, buf: &[u8]) -> (r: Result<(), Self::Error>)
        requires
            buf@.len() > 0,
        ensures
            final(self).trace() == old(self).trace().push(
                BusEvent::Write { data: seq![reg] + buf@, ok: r is Ok },
            ),
            Self::write_done(old(self), final(self), seq![reg] + buf@, r),
    ;

    /// Writes one byte, then reads `rbuf.len()` bytes.
    fn write_byte_read_bytes(&mut self, wbuf: &[u8; 1], rbuf: &mut [u8]) -> (r: Result<
        (),
        Self::Error,
    >)
        ensures
            final(rbuf)@.len() == old(rbuf)@.len(),
            final(self).trace() == old(self).trace().push(
                BusEvent::WriteRead { cmd: wbuf@[0], data: final(rbuf)@, ok: r is Ok },
            ),
            Self::write_read_done(old(self), final(self), wbuf@[0], final(rbuf)@, r),
    ;
}

/// A millisecond timer used between polls of a status flag.
pub trait DelayNs {
    fn delay_ms(&mut self, ms: u32);
}

/// The transfer that writes `data` to consecutive registers from `reg` on.
pub open spec fn reg_write(reg: u8, data: Seq<u8>, ok: bool) -> BusEvent {
    BusEvent::Write { data: seq![reg] + data, ok }
}

/// The transfer that reads `data` from consecutive registers from `reg` on.
pub open spec fn reg_read(reg: u8, data: Seq<u8>, ok: bool) -> BusEvent {
    BusEvent::WriteRead { cmd: reg, data, ok }
}

/// Whether a transfer went through.
pub open spec fn ok_of(e: BusEvent) -> bool {
    match e {
        BusEvent::Write { ok, .. } => ok,
        BusEvent::WriteRead { ok, .. } => ok,
        BusEvent::Read { ok, .. } => ok,
    }
}

/// `e` with its outcome replaced by `ok`.
pub open spec fn with_ok(e: BusEvent, ok: bool) -> BusEvent {
    match e {
        BusEvent::Write { data, .. } => BusEvent::Write { data, ok },
        BusEvent::WriteRead { cmd, data, .. } => BusEvent::WriteRead { cmd, data, ok },
        BusEvent::Read { data, .. } => BusEvent::Read { data, ok },
    }
}

/// Every transfer of `plan` is marked as gone through.
pub open spec fn all_ok(plan: Seq<BusEvent>) -> bool {
    forall|k: int| 0 <= k < plan.len() ==> ok_of(#[trigger] plan[k])
}

/// `done` is what was issued of the transfers `plan`, in order, stopping after
/// the first that failed; `ok` holds exactly when all of `plan` went through.
pub open spec fn ran(done: Seq<BusEvent>, plan: Seq<BusEvent>, ok: bool) -> bool {
    &&& done.len() <= plan.len()
    &&& forall|k: int| 0 <= k < done.len() ==> done[k] == with_ok(#[trigger] plan[k], ok_of(done[k]))
    &&& forall|k: int| 0 <= k < done.len() - 1 ==> ok_of(#[trigger] done[k])
    &&& done.len() < plan.len() ==> done.len() > 0 && !ok_of(done.last())
    &&& ok <==> done.len() == plan.len() && (done.len() == 0 || ok_of(done.last()))
}

/// `t1` is `t0` with more transfers after it.
pub open spec fn extends(t0: Seq<BusEvent>, t1: Seq<BusEvent>) -> bool {
    t0.len() <= t1.len() && t1.subrange(0, t0.len() as int) == t0
}

/// The transfers of `t1` after those of `t0`.
pub open spec fn added(t0: Seq<BusEvent>, t1: Seq<BusEvent>) -> Seq<BusEvent> {
    t1.subrange(t0.len() as int, t1.len() as int)
}

/// Carrying out all of a plan whose transfers all went through.
pub proof fn lemma_ran_all(plan: Seq<BusEvent>)
    requires
        all_ok(plan),
    ensures
        ran(plan, plan, true),
{
    assert forall|k: int| 0 <= k < plan.len() implies plan[k] == with_ok(#[trigger] plan[k], ok_of(plan[k])) by {
        assert(ok_of(plan[k]));
    }
}

/// Carrying out a plan up to step `n`, which failed.
pub proof fn lemma_ran_fail(plan: Seq<BusEvent>, n: int)
    requires
        all_ok(plan),
        0 <= n < plan.len(),
    ensures
        ran(plan.subrange(0, n).push(with_ok(plan[n], false)), plan, false),
{
    let done = plan.subrange(0, n).push(with_ok(plan[n], false));
    assert forall|k: int| 0 <= k < done.len() implies done[k] == with_ok(#[trigger] plan[k], ok_of(done[k])) by {
        if k < n {
            assert(ok_of(plan[k]));
        }
    }
    assert forall|k: int| 0 <= k < done.len() - 1 implies ok_of(#[trigger] done[k]) by {
        assert(ok_of(plan[k]));
    }
}

/// One more transfer `e` of `plan`, step `n`, after the first `n` steps went
/// through: either it went through too, or the plan stops there.
pub proof fn lemma_step(t0: Seq<BusEvent>, t: Seq<BusEvent>, e: BusEvent, plan: Seq<BusEvent>, n: int)
    requires
        extends(t0, t),
        added(t0, t) == plan.subrange(0, n),
        all_ok(plan),
        0 <= n < plan.len(),
        e == with_ok(plan[n], ok_of(e)),
    ensures
        extends(t0, t.push(e)),
        ok_of(e) ==> added(t0, t.push(e)) == plan.subrange(0, n + 1),
        !ok_of(e) ==> ran(added(t0, t.push(e)), plan, false),
        ok_of(e) && n + 1 == plan.len() ==> ran(added(t0, t.push(e)), plan, true),
{
    assert(t.push(e).subrange(0, t0.len() as int) =~= t0);
    assert(added(t0, t.push(e)) =~= plan.subrange(0, n).push(e));
    if ok_of(e) {
        assert(ok_of(plan[n]));
        assert(added(t0, t.push(e)) =~= plan.subrange(0, n + 1));
        if n + 1 == plan.len() {
            lemma_ran_all(plan);
            assert(plan.subrange(0, n + 1) =~= plan);
        }
    } else {
        lemma_ran_fail(plan, n);
    }
}

/// Nothing of a plan done yet.
pub proof fn lemma_start(t0: Seq<BusEvent>)
    ensures
        extends(t0, t0),
        added(t0, t0) == Seq::<BusEvent>::empty(),
{
    assert(t0.subrange(0, t0.len() as int) =~= t0);
    assert(added(t0, t0) =~= Seq::<BusEvent>::empty());
}

/// Appending transfers extends a trace, and extending is transitive.
pub proof fn lemma_extends(t0: Seq<BusEvent>, t1: Seq<BusEvent>, t2: Seq<BusEvent>, x: Seq<BusEvent>)
    ensures
        extends(t0, t0 + x),
        extends(t0, t1) && extends(t1, t2) ==> extends(t0, t2),
{
    assert((t0 + x).subrange(0, t0.len() as int) =~= t0);
    if extends(t0, t1) && extends(t1, t2) {
        assert(t2.subrange(0, t0.len() as int) =~= t2.subrange(0, t1.len() as int).subrange(0, t0.len() as int));
    }
}

/// Appending transfers to a trace extends it.
pub broadcast proof fn lemma_extends_by(t0: Seq<BusEvent>, x: Seq<BusEvent>)
    ensures
        extends(t0, #[trigger] (t0 + x)),
{
    assert((t0 + x).subrange(0, t0.len() as int) =~= t0);
}

/// Appending one transfer to a trace extends it.
pub broadcast proof fn lemma_extends_push(t0: Seq<BusEvent>, e: BusEvent)
    ensures
        extends(t0, #[trigger] t0.push(e)),
{
    assert(t0.push(e).subrange(0, t0.len() as int) =~= t0);
}

/// Extending a trace that extends another extends the other.
pub broadcast proof fn lemma_extends_trans(t0: Seq<BusEvent>, t1: Seq<BusEvent>, t2: Seq<BusEvent>)
    requires
        extends(t0, t1),
        extends(t1, t2),
    ensures
        #[trigger] extends(t0, t1) && #[trigger] extends(t1, t2) ==> extends(t0, t2),
{
    assert(t2.subrange(0, t0.len() as int) =~= t2.subrange(0, t1.len() as int).subrange(0, t0.len() as int));
}

/// The ways a trace is extended.
pub broadcast group group_extends {
    lemma_extends_by,
    lemma_extends_push,
    lemma_extends_trans,
}

/// A stage predicate: `stage(k, ta, tb, ok)` says that stage `k` of an
/// operation took the record from `ta` to `tb`, and went through when `ok`.
pub type Stages = spec_fn(int, Seq<BusEvent>, Seq<BusEvent>, bool) -> bool;

/// The records `ts` mark the ends of stages that all went through.
pub open spec fn stages_done(ts: Seq<Seq<BusEvent>>, stage: Stages) -> bool {
    &&& ts.len() >= 1
    &&& forall|k: int| 0 <= k < ts.len() - 1 ==> #[trigger] stage(k, ts[k], ts[k + 1], true)
}

/// An operation of `count` stages carried out in order from `ts[0]` to
/// `ts.last()`, stopping after the first stage that failed; `ok` holds
/// exactly when every stage went through.
pub open spec fn staged(ts: Seq<Seq<BusEvent>>, stage: Stages, count: int, ok: bool) -> bool {
    &&& 2 <= ts.len() <= count + 1
    &&& stages_done(ts.drop_last(), stage)
    &&& if ts.len() == count + 1 {
        stage(count - 1, ts[count - 1], ts[count], ok)
    } else {
        stage(ts.len() - 2, ts[ts.len() - 2], ts.last(), false) && !ok
    }
}

/// One more stage after stages that all went through.
pub proof fn lemma_stage_step(ts: Seq<Seq<BusEvent>>, stage: Stages, count: int, t: Seq<BusEvent>, ok: bool)
    requires
        stages_done(ts, stage),
        ts.len() <= count,
        stage(ts.len() - 1, ts.last(), t, ok),
    ensures
        ok ==> stages_done(ts.push(t), stage),
        !ok ==> staged(ts.push(t), stage, count, false),
        ok && ts.len() == count ==> staged(ts.push(t), stage, count, true),
{
    let ts2 = ts.push(t);
    assert(ts2.drop_last() =~= ts);
    if ok {
        assert forall|k: int| 0 <= k < ts2.len() - 1 implies #[trigger] stage(k, ts2[k], ts2[k + 1], true) by {
            if k < ts.len() - 1 {
                assert(ts2[k] == ts[k] && ts2[k + 1] == ts[k + 1]);
            }
        }
    }
}

/// Stages that all went through, as many as the operation has, carry it out.
pub proof fn lemma_stages_complete(ts: Seq<Seq<BusEvent>>, stage: Stages, count: int)
    requires
        stages_done(ts, stage),
        ts.len() == count + 1,
        count >= 1,
    ensures
        staged(ts, stage, count, true),
{
    let d = ts.drop_last();
    assert forall|k: int| 0 <= k < d.len() - 1 implies #[trigger] stage(k, d[k], d[k + 1], true) by {
        assert(d[k] == ts[k] && d[k + 1] == ts[k + 1]);
    }
    let k = count - 1;
    assert(stage(k, ts[k], ts[k + 1], true));
    assert(k + 1 == count);
}

} // verus!
