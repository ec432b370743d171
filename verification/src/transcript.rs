//! The bus transcript of the driver and the meaning of each driver action on it.
//!
//! Every transfer the driver hands to its bus (and every pause it asks for) is
//! recorded, together with what came back, as a [`BusEvent`]. A driver operation is
//! described by a short program of [`Action`]s; [`run`] says, for any answers the
//! device may give, which events the program produces and what it returns.
use vstd::prelude::*;
use crate::Error;
use crate::bits::with_field;
use crate::bits::field;

verus! {

/// One transfer on the bus, with what came back.
pub ghost enum BusEvent<E> {
    /// A plain read of `len` bytes; on success, the bytes that arrived.
    Read { len: nat, result: Result<Seq<u8>, E> },
    /// A plain write of `bytes`.
    Write { bytes: Seq<u8>, status: Result<(), E> },
    /// A write of the one byte `command` followed by a read of `len` bytes.
    WriteRead { command: u8, len: nat, result: Result<Seq<u8>, E> },
}

/// A step of a driver operation.
pub ghost enum Action {
    /// Read `len` bytes starting at register `reg`; reports them.
    Read { reg: u8, len: nat },
    /// Read the byte at `reg`; it must equal `id`, else the operation fails with
    /// `WhoAmIError` and that byte. Reports the byte.
    ExpectId { reg: u8, id: u8 },
    /// Read `len` bytes without addressing a register; reports them.
    ReadRaw { len: nat },
    /// Write `bytes` as they are.
    WriteRaw { bytes: Seq<u8> },
    /// Write `val` to `reg`, read `reg` back, fail with `WriteFailure` on a mismatch.
    WriteChecked { reg: u8, val: u8 },
    /// Read `read_reg`, replace bits `msb..=lsb` by `value`, and write the result,
    /// checked, to `write_reg`.
    SetField { read_reg: u8, write_reg: u8, msb: u8, lsb: u8, value: u8 },
    /// Read `reg` until its bits `msb..=lsb` are all clear; give up with
    /// `WriteFailure` after `POLL_LIMIT` reads.
    AwaitFieldClear { reg: u8, msb: u8, lsb: u8 },
    /// Pause for `ms` milliseconds; no transfer on the bus.
    Delay { ms: u32 },
}

/// What a step or a program gives: the bytes it reports, or the error that stopped it.
pub type Outcome<E> = Result<Seq<u8>, Error<E>>;

/// How many reads `AwaitFieldClear` makes at most.
pub const POLL_LIMIT: u64 = 0xffff_ffff_ffff_ffffu64;

/// `Ok(())` or the error of an outcome.
pub open spec fn unit<E>(o: Outcome<E>) -> Result<(), Error<E>> {
    match o {
        Ok(_) => Ok(()),
        Err(e) => Err(e),
    }
}

/// The outcome of a bus transfer that returns bytes.
pub open spec fn from_bus<E>(r: Result<Seq<u8>, E>) -> Outcome<E> {
    match r {
        Ok(d) => Ok(d),
        Err(e) => Err(Error::Bus(e)),
    }
}

/// The outcome of a bus transfer that returns nothing.
pub open spec fn from_bus_unit<E>(r: Result<(), E>) -> Outcome<E> {
    match r {
        Ok(()) => Ok(Seq::empty()),
        Err(e) => Err(Error::Bus(e)),
    }
}

/// What a transfer that fills a buffer returned: the buffer's bytes, or the bus error.
pub open spec fn with_data<E>(r: Result<(), E>, d: Seq<u8>) -> Result<Seq<u8>, E> {
    match r {
        Ok(()) => Ok(d),
        Err(e) => Err(e),
    }
}

/// `r` with `k` more events consumed.
pub open spec fn after<E>(k: nat, r: Option<(nat, Outcome<E>)>) -> Option<(nat, Outcome<E>)> {
    match r {
        Some((k2, o)) => Some((k + k2, o)),
        None => None,
    }
}

/// A register read of `n` bytes at `reg`, as the first event of `ev`.
pub open spec fn read_event<E>(ev: Seq<BusEvent<E>>, reg: u8, n: nat) -> Option<(nat, Outcome<E>)> {
    if ev.len() == 0 {
        None
    } else {
        match ev[0] {
            BusEvent::WriteRead { command, len, result } =>
                if command == reg && len == n { Some((1, from_bus(result))) } else { None },
            _ => None,
        }
    }
}

/// A plain read of `n` bytes, as the first event of `ev`.
pub open spec fn raw_read_event<E>(ev: Seq<BusEvent<E>>, n: nat) -> Option<(nat, Outcome<E>)> {
    if ev.len() == 0 {
        None
    } else {
        match ev[0] {
            BusEvent::Read { len, result } => if len == n { Some((1, from_bus(result))) } else { None },
            _ => None,
        }
    }
}

/// A plain write of `bytes`, as the first event of `ev`.
pub open spec fn write_event<E>(ev: Seq<BusEvent<E>>, bytes: Seq<u8>) -> Option<(nat, Outcome<E>)> {
    if ev.len() == 0 {
        None
    } else {
        match ev[0] {
            BusEvent::Write { bytes: b, status } => if b == bytes { Some((1, from_bus_unit(status))) } else { None },
            _ => None,
        }
    }
}

/// The check of an identifier byte that was read.
pub open spec fn expect_id<E>(r: Option<(nat, Outcome<E>)>, id: u8) -> Option<(nat, Outcome<E>)> {
    match r {
        Some((k, Ok(d))) => if d.len() == 1 && d[0] == id { Some((k, Ok(d))) } else if d.len() == 1 {
            Some((k, Err(Error::WhoAmIError(d[0]))))
        } else {
            None
        },
        _ => r,
    }
}

/// A write of `val` to `reg` followed by the read-back of `reg`.
pub open spec fn checked_write<E>(ev: Seq<BusEvent<E>>, reg: u8, val: u8) -> Option<(nat, Outcome<E>)> {
    match write_event(ev, seq![reg, val]) {
        Some((k, Ok(_))) => match read_event(ev.skip(k as int), reg, 1) {
            Some((k2, Ok(d))) => if d.len() == 1 {
                Some((k + k2, if d[0] == val { Ok(Seq::empty()) } else { Err(Error::WriteFailure) }))
            } else {
                None
            },
            other => after(k, other),
        },
        other => other,
    }
}

/// A read-modify-write of bits `msb..=lsb`.
pub open spec fn set_field_events<E>(
    ev: Seq<BusEvent<E>>,
    read_reg: u8,
    write_reg: u8,
    msb: u8,
    lsb: u8,
    value: u8,
) -> Option<(nat, Outcome<E>)> {
    match read_event(ev, read_reg, 1) {
        Some((k, Ok(d))) => if d.len() == 1 {
            after(k, checked_write(ev.skip(k as int), write_reg, with_field(d[0], msb, lsb, value)))
        } else {
            None
        },
        other => other,
    }
}

/// Polling `reg` until bits `msb..=lsb` are clear, with at most `budget` reads left.
pub open spec fn poll<E>(ev: Seq<BusEvent<E>>, reg: u8, msb: u8, lsb: u8, budget: nat) -> Option<(nat, Outcome<E>)>
    decreases budget,
{
    if budget == 0 {
        Some((0, Err(Error::WriteFailure)))
    } else {
        match read_event(ev, reg, 1) {
            Some((k, Ok(d))) => if d.len() != 1 {
                None
            } else if field(d[0], msb, lsb) == 0 {
                Some((k, Ok(Seq::empty())))
            } else {
                after(k, poll(ev.skip(k as int), reg, msb, lsb, (budget - 1) as nat))
            },
            other => other,
        }
    }
}

/// The events one action produces at the start of `ev`: how many, and its outcome.
/// `None` when `ev` does not begin with what the action does.
pub open spec fn step<E>(a: Action, ev: Seq<BusEvent<E>>) -> Option<(nat, Outcome<E>)> {
    match a {
        Action::Read { reg, len } => read_event(ev, reg, len),
        Action::ExpectId { reg, id } => expect_id(read_event(ev, reg, 1), id),
        Action::ReadRaw { len } => raw_read_event(ev, len),
        Action::WriteRaw { bytes } => write_event(ev, bytes),
        Action::WriteChecked { reg, val } => checked_write(ev, reg, val),
        Action::SetField { read_reg, write_reg, msb, lsb, value } =>
            set_field_events(ev, read_reg, write_reg, msb, lsb, value),
        Action::AwaitFieldClear { reg, msb, lsb } => poll(ev, reg, msb, lsb, POLL_LIMIT as nat),
        Action::Delay { ms } => Some((0, Ok(Seq::empty()))),
    }
}

/// The events a program produces at the start of `ev`, and its outcome: the actions run
/// in order, the first error stops the program, and the reported bytes are joined.
pub open spec fn run<E>(prog: Seq<Action>, ev: Seq<BusEvent<E>>) -> Option<(nat, Outcome<E>)>
    decreases prog.len(),
{
    if prog.len() == 0 {
        Some((0, Ok(Seq::empty())))
    } else {
        match step(prog[0], ev) {
            Some((k, Ok(d))) => match run(prog.skip(1), ev.skip(k as int)) {
                Some((k2, Ok(d2))) => Some((k + k2, Ok(d + d2))),
                other => after(k, other),
            },
            other => other,
        }
    }
}

/// Between the transcripts `before` and `after`, exactly the program `prog` was performed.
pub open spec fn did<E>(before: Seq<BusEvent<E>>, after: Seq<BusEvent<E>>, prog: Seq<Action>) -> bool {
    &&& before.is_prefix_of(after)
    &&& run(prog, after.skip(before.len() as int)) is Some
    &&& run(prog, after.skip(before.len() as int))->Some_0.0 == after.len() - before.len()
}

/// The outcome of the program performed between `before` and `after`.
pub open spec fn outcome<E>(before: Seq<BusEvent<E>>, after: Seq<BusEvent<E>>, prog: Seq<Action>) -> Outcome<E> {
    run(prog, after.skip(before.len() as int))->Some_0.1
}

}

verus! {

/// The outcome of two programs run one after the other, the first having succeeded.
pub open spec fn join<E>(first: Outcome<E>, second: Outcome<E>) -> Outcome<E> {
    match (first, second) {
        (Ok(d), Ok(d2)) => Ok(d + d2),
        (Ok(_), Err(e)) => Err(e),
        (Err(e), _) => Err(e),
    }
}

proof fn lemma_skip_append<A>(a: Seq<A>, b: Seq<A>, k: int)
    requires
        0 <= k <= a.len(),
    ensures
        (a + b).skip(k) =~= a.skip(k) + b,
{
}

proof fn lemma_poll_prefix<E>(ev: Seq<BusEvent<E>>, more: Seq<BusEvent<E>>, reg: u8, msb: u8, lsb: u8, budget: nat)
    requires
        poll(ev, reg, msb, lsb, budget) is Some,
    ensures
        poll(ev, reg, msb, lsb, budget)->Some_0.0 <= ev.len(),
        poll(ev + more, reg, msb, lsb, budget) == poll(ev, reg, msb, lsb, budget),
    decreases budget,
{
    if budget > 0 {
        assert((ev + more)[0] == ev[0]);
        if ev.len() >= 1 && ev[0] is WriteRead {
            lemma_skip_append(ev, more, 1);
            if poll(ev.skip(1), reg, msb, lsb, (budget - 1) as nat) is Some {
                lemma_poll_prefix(ev.skip(1), more, reg, msb, lsb, (budget - 1) as nat);
            }
        }
    }
}

/// An action only looks at the events it consumes.
pub proof fn lemma_step_prefix<E>(a: Action, ev: Seq<BusEvent<E>>, more: Seq<BusEvent<E>>)
    requires
        step(a, ev) is Some,
    ensures
        step(a, ev)->Some_0.0 <= ev.len(),
        step(a, ev + more) == step(a, ev),
{
    if ev.len() >= 1 {
        assert((ev + more)[0] == ev[0]);
        lemma_skip_append(ev, more, 1);
        if ev.len() >= 2 {
            assert((ev + more)[1] == ev[1]);
        }
    }
    match a {
        Action::AwaitFieldClear { reg, msb, lsb } => {
            lemma_poll_prefix(ev, more, reg, msb, lsb, POLL_LIMIT as nat);
        },
        Action::WriteChecked { reg, val } => {
            if ev.len() >= 2 {
                assert(ev.skip(1)[0] == ev[1]);
                assert((ev + more).skip(1)[0] == ev[1]);
            }
        },
        Action::SetField { read_reg, write_reg, msb, lsb, value } => {
            if ev.len() >= 2 {
                lemma_skip_append(ev, more, 2);
                assert(ev.skip(1)[0] == ev[1]);
                assert(ev.skip(1).skip(1) =~= ev.skip(2));
                assert((ev + more).skip(1).skip(1) =~= (ev + more).skip(2));
                if ev.len() >= 3 {
                    assert(ev.skip(1)[1] == ev[2]);
                    assert((ev + more).skip(1)[1] == ev[2]);
                }
            }
        },
        _ => {},
    }
}

/// A program only looks at the events it consumes.
pub proof fn lemma_run_prefix<E>(p: Seq<Action>, ev: Seq<BusEvent<E>>, more: Seq<BusEvent<E>>)
    requires
        run(p, ev) is Some,
    ensures
        run(p, ev)->Some_0.0 <= ev.len(),
        run(p, ev + more) == run(p, ev),
    decreases p.len(),
{
    if p.len() > 0 {
        lemma_step_prefix(p[0], ev, more);
        let k = step(p[0], ev)->Some_0.0;
        if step(p[0], ev)->Some_0.1 is Ok {
            lemma_skip_append(ev, more, k as int);
            lemma_run_prefix(p.skip(1), ev.skip(k as int), more);
        }
    }
}

/// Running two programs in turn on two stretches of events.
pub proof fn lemma_run_concat<E>(p: Seq<Action>, q: Seq<Action>, a: Seq<BusEvent<E>>, b: Seq<BusEvent<E>>)
    requires
        run(p, a) is Some,
        run(p, a)->Some_0.0 == a.len(),
        run(p, a)->Some_0.1 is Ok,
        run(q, b) is Some,
        run(q, b)->Some_0.0 == b.len(),
    ensures
        run(p + q, a + b) == Some(((a.len() + b.len()) as nat, join(run(p, a)->Some_0.1, run(q, b)->Some_0.1))),
    decreases p.len(),
{
    if p.len() == 0 {
        assert(p + q =~= q);
        assert(a + b =~= b);
        let o = run(q, b)->Some_0.1;
        if o is Ok {
            assert(Seq::<u8>::empty() + o->Ok_0 =~= o->Ok_0);
        }
    } else {
        lemma_step_prefix(p[0], a, b);
        let k = step(p[0], a)->Some_0.0;
        let d0 = step(p[0], a)->Some_0.1->Ok_0;
        assert((p + q)[0] == p[0]);
        assert((p + q).skip(1) =~= p.skip(1) + q);
        lemma_skip_append(a, b, k as int);
        lemma_run_concat(p.skip(1), q, a.skip(k as int), b);
        let o = run(q, b)->Some_0.1;
        let d1 = run(p.skip(1), a.skip(k as int))->Some_0.1->Ok_0;
        if o is Ok {
            assert(d0 + (d1 + o->Ok_0) =~= (d0 + d1) + o->Ok_0);
        }
    }
}

/// A program that failed stops there, whatever would have followed it.
pub proof fn lemma_run_concat_err<E>(p: Seq<Action>, q: Seq<Action>, a: Seq<BusEvent<E>>)
    requires
        run(p, a) is Some,
        run(p, a)->Some_0.1 is Err,
    ensures
        run(p + q, a) == run(p, a),
    decreases p.len(),
{
    if p.len() > 0 {
        let k = step(p[0], a)->Some_0.0;
        assert((p + q)[0] == p[0]);
        assert((p + q).skip(1) =~= p.skip(1) + q);
        if step(p[0], a)->Some_0.1 is Ok {
            lemma_run_concat_err(p.skip(1), q, a.skip(k as int));
        }
    }
}

/// Nothing was performed between a transcript and itself.
pub proof fn lemma_did_nothing<E>(t: Seq<BusEvent<E>>)
    ensures
        did(t, t, Seq::empty()),
        outcome(t, t, Seq::empty()) == Outcome::<E>::Ok(Seq::empty()),
{
    assert(t.is_prefix_of(t)) by {
        assert(t =~= t.subrange(0, t.len() as int));
    }
}

/// One action that produced exactly the events `new`.
pub proof fn lemma_did_step<E>(t: Seq<BusEvent<E>>, new: Seq<BusEvent<E>>, a: Action)
    requires
        step(a, new) is Some,
        step(a, new)->Some_0.0 == new.len(),
    ensures
        did(t, t + new, seq![a]),
        outcome(t, t + new, seq![a]) == step(a, new)->Some_0.1,
{
    assert((t + new).skip(t.len() as int) =~= new);
    assert(t =~= (t + new).subrange(0, t.len() as int));
    assert(seq![a].skip(1) =~= Seq::<Action>::empty());
    assert(seq![a][0] == a);
    assert(new.skip(new.len() as int) =~= Seq::<BusEvent<E>>::empty());
    let o = step(a, new)->Some_0.1;
    assert(run(Seq::<Action>::empty(), new.skip(new.len() as int)) == Some((0nat, Outcome::<E>::Ok(Seq::empty()))));
    if o is Ok {
        assert(o->Ok_0 + Seq::<u8>::empty() =~= o->Ok_0);
    }
    assert(run(seq![a], new) == step(a, new));
}

/// Two programs performed one after the other, the first successfully.
pub proof fn lemma_did_then<E>(
    t0: Seq<BusEvent<E>>,
    t1: Seq<BusEvent<E>>,
    t2: Seq<BusEvent<E>>,
    p: Seq<Action>,
    q: Seq<Action>,
)
    requires
        did(t0, t1, p),
        outcome(t0, t1, p) is Ok,
        did(t1, t2, q),
    ensures
        did(t0, t2, p + q),
        outcome(t0, t2, p + q) == join(outcome(t0, t1, p), outcome(t1, t2, q)),
{
    let a = t1.skip(t0.len() as int);
    let b = t2.skip(t1.len() as int);
    assert(t2.skip(t0.len() as int) =~= a + b);
    assert(t0 =~= t2.subrange(0, t0.len() as int)) by {
        assert(t0 =~= t1.subrange(0, t0.len() as int));
        assert(t1 =~= t2.subrange(0, t1.len() as int));
    }
    lemma_run_concat(p, q, a, b);
}

/// A program that failed: whatever was to follow was not performed.
pub proof fn lemma_did_stop<E>(t0: Seq<BusEvent<E>>, t1: Seq<BusEvent<E>>, p: Seq<Action>, q: Seq<Action>)
    requires
        did(t0, t1, p),
        outcome(t0, t1, p) is Err,
    ensures
        did(t0, t1, p + q),
        outcome(t0, t1, p + q) == outcome(t0, t1, p),
{
    lemma_run_concat_err(p, q, t1.skip(t0.len() as int));
}

}

verus! {

/// What performing a single action means: the new events are exactly what it consumes.
pub proof fn lemma_did_one<E>(t0: Seq<BusEvent<E>>, t1: Seq<BusEvent<E>>, a: Action)
    requires
        did(t0, t1, seq![a]),
    ensures
        t1 =~= t0 + t1.skip(t0.len() as int),
        step(a, t1.skip(t0.len() as int)) == Some(((t1.len() - t0.len()) as nat, outcome(t0, t1, seq![a]))),
{
    let seg = t1.skip(t0.len() as int);
    assert(seq![a][0] == a);
    assert(seq![a].skip(1) =~= Seq::<Action>::empty());
    let k = step(a, seg)->Some_0.0;
    assert(run(Seq::<Action>::empty(), seg.skip(k as int)) == Some((0nat, Outcome::<E>::Ok(Seq::empty()))));
    let o = step(a, seg)->Some_0.1;
    if o is Ok {
        assert(o->Ok_0 + Seq::<u8>::empty() =~= o->Ok_0);
    }
    assert(t0 =~= t1.subrange(0, t0.len() as int));
}

}

verus! {

/// A register read that failed is a read-modify-write that failed the same way.
pub proof fn lemma_set_field_read_failed<E>(
    t0: Seq<BusEvent<E>>,
    t1: Seq<BusEvent<E>>,
    read_reg: u8,
    write_reg: u8,
    msb: u8,
    lsb: u8,
    value: u8,
)
    requires
        did(t0, t1, seq![Action::Read { reg: read_reg, len: 1 }]),
        outcome(t0, t1, seq![Action::Read { reg: read_reg, len: 1 }]) is Err,
    ensures
        did(t0, t1, seq![Action::SetField { read_reg, write_reg, msb, lsb, value }]),
        outcome(t0, t1, seq![Action::SetField { read_reg, write_reg, msb, lsb, value }])
            == outcome(t0, t1, seq![Action::Read { reg: read_reg, len: 1 }]),
{
    lemma_did_one(t0, t1, Action::Read { reg: read_reg, len: 1 });
    let seg = t1.skip(t0.len() as int);
    lemma_did_step(t0, seg, Action::SetField { read_reg, write_reg, msb, lsb, value });
}

/// A register read of the byte `b`, then the checked write of `b` with bits `msb..=lsb`
/// replaced: together, a read-modify-write.
pub proof fn lemma_set_field_done<E>(
    t0: Seq<BusEvent<E>>,
    t1: Seq<BusEvent<E>>,
    t2: Seq<BusEvent<E>>,
    read_reg: u8,
    write_reg: u8,
    msb: u8,
    lsb: u8,
    value: u8,
    b: u8,
)
    requires
        did(t0, t1, seq![Action::Read { reg: read_reg, len: 1 }]),
        outcome(t0, t1, seq![Action::Read { reg: read_reg, len: 1 }]) == Outcome::<E>::Ok(seq![b]),
        did(t1, t2, seq![Action::WriteChecked { reg: write_reg, val: with_field(b, msb, lsb, value) }]),
    ensures
        did(t0, t2, seq![Action::SetField { read_reg, write_reg, msb, lsb, value }]),
        outcome(t0, t2, seq![Action::SetField { read_reg, write_reg, msb, lsb, value }])
            == outcome(t1, t2, seq![Action::WriteChecked { reg: write_reg, val: with_field(b, msb, lsb, value) }]),
{
    let a1 = Action::Read { reg: read_reg, len: 1 };
    let a2 = Action::WriteChecked { reg: write_reg, val: with_field(b, msb, lsb, value) };
    lemma_did_one(t0, t1, a1);
    lemma_did_one(t1, t2, a2);
    let s1 = t1.skip(t0.len() as int);
    let s2 = t2.skip(t1.len() as int);
    assert(t2 =~= t0 + (s1 + s2));
    assert(t2.skip(t0.len() as int) =~= s1 + s2);
    lemma_step_prefix(a1, s1, s2);
    assert((s1 + s2).skip(1) =~= s2);
    lemma_did_step(t0, s1 + s2, Action::SetField { read_reg, write_reg, msb, lsb, value });
}

}

verus! {

/// A successful one-byte read of `reg` whose bits `msb..=lsb` were not all clear.
pub open spec fn busy_read<E>(e: BusEvent<E>, reg: u8, msb: u8, lsb: u8) -> bool {
    &&& e matches BusEvent::WriteRead { command, len, result }
    &&& command == reg
    &&& len == 1
    &&& result matches Ok(d)
    &&& d.len() == 1
    &&& field(d[0], msb, lsb) != 0
}

/// Polling through `n` busy reads uses up `n` reads of the budget.
pub proof fn lemma_poll_busy<E>(seg: Seq<BusEvent<E>>, rest: Seq<BusEvent<E>>, reg: u8, msb: u8, lsb: u8, budget: nat)
    requires
        seg.len() <= budget,
        forall|i: int| 0 <= i < seg.len() ==> busy_read(#[trigger] seg[i], reg, msb, lsb),
    ensures
        poll(seg + rest, reg, msb, lsb, budget) == after(seg.len(), poll(rest, reg, msb, lsb, (budget - seg.len()) as nat)),
    decreases seg.len(),
{
    if seg.len() == 0 {
        assert(seg + rest =~= rest);
        let p = poll(rest, reg, msb, lsb, budget);
        if p is Some {
            assert(p == Some((0 + p->Some_0.0, p->Some_0.1)));
        }
    } else {
        let s1 = seg.skip(1);
        assert((seg + rest).skip(1) =~= s1 + rest);
        assert((seg + rest)[0] == seg[0]);
        assert forall|i: int| 0 <= i < s1.len() implies busy_read(#[trigger] s1[i], reg, msb, lsb) by {
            assert(s1[i] == seg[i + 1]);
        }
        assert(busy_read(seg[0], reg, msb, lsb));
        lemma_poll_busy(s1, rest, reg, msb, lsb, (budget - 1) as nat);
        let p = poll(rest, reg, msb, lsb, (budget - seg.len()) as nat);
        if p is Some {
            assert(1 + (s1.len() + p->Some_0.0) == seg.len() + p->Some_0.0);
        }
    }
}

}

verus! {

/// A program followed by one more action that ran after it.
pub proof fn lemma_did_push<E>(t0: Seq<BusEvent<E>>, t1: Seq<BusEvent<E>>, t2: Seq<BusEvent<E>>, p: Seq<Action>, a: Action)
    requires
        did(t0, t1, p),
        outcome(t0, t1, p) is Ok,
        did(t1, t2, seq![a]),
    ensures
        did(t0, t2, p.push(a)),
        outcome(t0, t2, p.push(a)) == join(outcome(t0, t1, p), outcome(t1, t2, seq![a])),
{
    lemma_did_then(t0, t1, t2, p, seq![a]);
    assert(p + seq![a] =~= p.push(a));
}

/// A program that failed, as the beginning of the longer program `whole`.
pub proof fn lemma_did_stop_in<E>(t0: Seq<BusEvent<E>>, t1: Seq<BusEvent<E>>, p: Seq<Action>, whole: Seq<Action>)
    requires
        did(t0, t1, p),
        outcome(t0, t1, p) is Err,
        p.is_prefix_of(whole),
    ensures
        did(t0, t1, whole),
        outcome(t0, t1, whole) == outcome(t0, t1, p),
{
    let rest = whole.skip(p.len() as int);
    assert(whole =~= p + rest);
    lemma_did_stop(t0, t1, p, rest);
}

}

verus! {

/// An action that reports no bytes.
pub open spec fn quiet(a: Action) -> bool {
    !(a is Read || a is ReadRaw || a is ExpectId)
}

proof fn lemma_poll_quiet<E>(ev: Seq<BusEvent<E>>, reg: u8, msb: u8, lsb: u8, budget: nat)
    requires
        poll(ev, reg, msb, lsb, budget) matches Some((_, Ok(_))),
    ensures
        poll(ev, reg, msb, lsb, budget)->Some_0.1->Ok_0 == Seq::<u8>::empty(),
    decreases budget,
{
    if budget > 0 && ev.len() > 0 {
        if poll(ev.skip(1), reg, msb, lsb, (budget - 1) as nat) matches Some((_, Ok(_))) {
            lemma_poll_quiet(ev.skip(1), reg, msb, lsb, (budget - 1) as nat);
        }
    }
}

/// A quiet action that succeeded reported nothing.
pub proof fn lemma_did_quiet<E>(t0: Seq<BusEvent<E>>, t1: Seq<BusEvent<E>>, a: Action)
    requires
        quiet(a),
        did(t0, t1, seq![a]),
        outcome(t0, t1, seq![a]) is Ok,
    ensures
        outcome(t0, t1, seq![a]) == Outcome::<E>::Ok(Seq::empty()),
{
    lemma_did_one(t0, t1, a);
    if let Action::AwaitFieldClear { reg, msb, lsb } = a {
        lemma_poll_quiet(t1.skip(t0.len() as int), reg, msb, lsb, POLL_LIMIT as nat);
    }
}

}

verus! {

/// The empty beginning of a program has been performed, successfully.
pub proof fn lemma_did_start<E>(t0: Seq<BusEvent<E>>, p: Seq<Action>)
    ensures
        did(t0, t0, p.take(0)),
        outcome(t0, t0, p.take(0)) == Outcome::<E>::Ok(Seq::empty()),
{
    assert(p.take(0) =~= Seq::<Action>::empty());
    lemma_did_nothing(t0);
}

/// Action `k` of `p` ran after the first `k` actions succeeded: the first `k + 1` actions
/// have been performed, and if action `k` failed, so has the whole program, with its error.
pub proof fn lemma_did_next<E>(t0: Seq<BusEvent<E>>, t1: Seq<BusEvent<E>>, t2: Seq<BusEvent<E>>, p: Seq<Action>, k: int)
    requires
        0 <= k < p.len(),
        did(t0, t1, p.take(k)),
        outcome(t0, t1, p.take(k)) is Ok,
        did(t1, t2, seq![p[k]]),
    ensures
        did(t0, t2, p.take(k + 1)),
        outcome(t0, t2, p.take(k + 1)) == join(outcome(t0, t1, p.take(k)), outcome(t1, t2, seq![p[k]])),
        outcome(t1, t2, seq![p[k]]) is Err ==> did(t0, t2, p) && outcome(t0, t2, p) == outcome(t1, t2, seq![p[k]]),
        k + 1 == p.len() ==> p.take(k + 1) == p,
{
    lemma_did_push(t0, t1, t2, p.take(k), p[k]);
    assert(p.take(k).push(p[k]) =~= p.take(k + 1));
    assert(k + 1 == p.len() ==> p.take(k + 1) =~= p);
    if outcome(t1, t2, seq![p[k]]) is Err {
        assert(p.take(k + 1).is_prefix_of(p)) by {
            assert(p.take(k + 1) =~= p.subrange(0, k + 1));
        }
        lemma_did_stop_in(t0, t2, p.take(k + 1), p);
    }
}

}
