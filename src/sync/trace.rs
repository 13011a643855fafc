//! Runs of the channel protocol: any interleaving of the two halves' steps,
//! written as a sequence of operations, and the laws that hold of every run.
use vstd::prelude::*;

use crate::blocker::Blocker;
use crate::sync::spsc::{
    initial_view, spec_drop_chan, spec_drop_port, spec_recv, spec_send, spec_subscribe,
    spec_try_recv, wake_ready, ChanView, TryRecvError,
};

verus! {

/// One step of either half, in the order in which the steps took effect.
pub enum Op<T> {
    Send(T),
    TryRecv,
    Recv(Blocker),
    Subscribe(Blocker),
    DropChan,
    DropPort,
}

/// What one step returned.
pub enum Outcome<T> {
    Sent(Result<Option<Blocker>, T>),
    Received(Result<T, TryRecvError>),
    Woken(Option<Blocker>),
    Closed,
}

/// A run: the state reached, what each step returned, the items handed to
/// the receiver and the items that sends accepted, each in order.
pub struct Trace<T> {
    pub state: ChanView<T>,
    pub outs: Seq<Outcome<T>>,
    pub received: Seq<T>,
    pub accepted: Seq<T>,
}

/// The effect of one step.
pub open spec fn step<T>(m: ChanView<T>, op: Op<T>) -> (ChanView<T>, Outcome<T>) {
    match op {
        Op::Send(t) => {
            let (m1, r) = spec_send(m, t);
            (m1, Outcome::Sent(r))
        },
        Op::TryRecv => {
            let (m1, r) = spec_try_recv(m);
            (m1, Outcome::Received(r))
        },
        Op::Recv(b) => {
            let (m1, r) = spec_recv(m, b);
            (m1, Outcome::Received(r))
        },
        Op::Subscribe(b) => {
            let (m1, w) = spec_subscribe(m, b);
            (m1, Outcome::Woken(w))
        },
        Op::DropChan => {
            let (m1, w) = spec_drop_chan(m);
            (m1, Outcome::Woken(w))
        },
        Op::DropPort => (spec_drop_port(m), Outcome::Closed),
    }
}

/// The item that an outcome hands to the receiver, if any.
pub open spec fn received_by<T>(o: Outcome<T>) -> Seq<T> {
    match o {
        Outcome::Received(Ok(v)) => seq![v],
        _ => Seq::empty(),
    }
}

/// The item that a step makes the channel accept, if any.
pub open spec fn accepted_by<T>(op: Op<T>, o: Outcome<T>) -> Seq<T> {
    match (op, o) {
        (Op::Send(t), Outcome::Sent(Ok(_))) => seq![t],
        _ => Seq::empty(),
    }
}

/// The blocker that an outcome hands out to be resumed, if any.
pub open spec fn handed_by<T>(o: Outcome<T>) -> Seq<Blocker> {
    match o {
        Outcome::Sent(Ok(Some(w))) => seq![w],
        Outcome::Woken(Some(w)) => seq![w],
        _ => Seq::empty(),
    }
}

/// All blockers handed out over a sequence of outcomes, in order.
pub open spec fn handed<T>(outs: Seq<Outcome<T>>) -> Seq<Blocker>
    decreases outs.len(),
{
    if outs.len() == 0 {
        Seq::empty()
    } else {
        handed(outs.drop_last()) + handed_by(outs.last())
    }
}

/// The run of `ops` from state `m`.
pub open spec fn run<T>(m: ChanView<T>, ops: Seq<Op<T>>) -> Trace<T>
    decreases ops.len(),
{
    if ops.len() == 0 {
        Trace { state: m, outs: Seq::empty(), received: Seq::empty(), accepted: Seq::empty() }
    } else {
        let prev = run(m, ops.drop_last());
        let (m1, o) = step(prev.state, ops.last());
        Trace {
            state: m1,
            outs: prev.outs.push(o),
            received: prev.received + received_by(o),
            accepted: prev.accepted + accepted_by(ops.last(), o),
        }
    }
}

proof fn lemma_fifo_inv<T>(ops: Seq<Op<T>>)
    ensures
        ({
            let tr = run(initial_view::<T>(), ops);
            &&& (tr.received + tr.state.items).is_prefix_of(tr.accepted)
            &&& !tr.state.port_dropped ==> tr.received + tr.state.items == tr.accepted
        }),
    decreases ops.len(),
{
    let tr = run(initial_view::<T>(), ops);
    if ops.len() == 0 {
        assert(tr.received + tr.state.items =~= tr.accepted);
    } else {
        lemma_fifo_inv(ops.drop_last());
        let prev = run(initial_view::<T>(), ops.drop_last());
        let p = prev.received + prev.state.items;
        match ops.last() {
            Op::Send(t) => {
                if !prev.state.port_dropped {
                    assert(tr.received + tr.state.items =~= p.push(t));
                    assert(tr.accepted =~= prev.accepted.push(t));
                } else {
                    assert(tr.received + tr.state.items =~= p);
                    assert(tr.accepted =~= prev.accepted);
                }
            },
            Op::DropPort => {
                assert(tr.received + tr.state.items =~= prev.received);
                assert(tr.accepted =~= prev.accepted);
                assert(prev.accepted.subrange(0, prev.received.len() as int) =~= prev.received) by {
                    assert forall|i: int| 0 <= i < prev.received.len() implies
                        prev.accepted.subrange(0, prev.received.len() as int)[i] == prev.received[i] by {
                        assert(p[i] == prev.received[i]);
                        assert(prev.accepted.subrange(0, p.len() as int)[i] == p[i]);
                    }
                }
            },
            _ => {
                assert(tr.received + tr.state.items =~= p);
                assert(tr.accepted =~= prev.accepted);
            },
        }
    }
}

/// In every interleaving of the two halves' steps on a fresh channel, the
/// items that the receiver gets are a prefix of the items that the channel
/// accepted, in the order in which they were sent.
pub proof fn lemma_received_prefix_of_sent<T>(ops: Seq<Op<T>>)
    ensures
        run(initial_view::<T>(), ops).received.is_prefix_of(run(initial_view::<T>(), ops).accepted),
{
    lemma_fifo_inv(ops);
    let tr = run(initial_view::<T>(), ops);
    assert(tr.received.is_prefix_of(tr.received + tr.state.items));
}

/// Once the receiver is gone, it stays gone: from a state in which it has
/// been dropped, every send of any later run fails and hands its item back.
pub proof fn lemma_send_after_port_drop<T>(m: ChanView<T>, ops: Seq<Op<T>>)
    requires
        m.port_dropped,
    ensures
        run(m, ops).state.port_dropped,
        run(m, ops).outs.len() == ops.len(),
        forall|i: int|
            0 <= i < ops.len() ==> #[trigger] ops[i] is Send ==> run(m, ops).outs[i]
                == Outcome::<T>::Sent(Err(ops[i]->Send_0)),
    decreases ops.len(),
{
    if ops.len() > 0 {
        lemma_send_after_port_drop(m, ops.drop_last());
        let prev = run(m, ops.drop_last());
        let tr = run(m, ops);
        assert forall|i: int|
            0 <= i < ops.len() && #[trigger] ops[i] is Send implies tr.outs[i]
                == Outcome::<T>::Sent(Err(ops[i]->Send_0)) by {
            if i < ops.len() - 1 {
                assert(ops[i] == ops.drop_last()[i]);
                assert(tr.outs[i] == prev.outs[i]);
            }
        }
    }
}

/// Whether every step of `ops` is a receive: the sender is gone, and only
/// the receiver acts.
pub open spec fn receives_only<T>(ops: Seq<Op<T>>) -> bool {
    forall|i: int| 0 <= i < ops.len() ==> (#[trigger] ops[i] is TryRecv || ops[i] is Recv)
}

/// What the `i`-th receive after the sender's departure returns, when
/// `items` were queued at that moment.
pub open spec fn drained<T>(items: Seq<T>, i: int) -> Result<T, TryRecvError> {
    if i < items.len() {
        Ok(items[i])
    } else {
        Err(TryRecvError::Disconnected)
    }
}

/// After the sender drops, every receive, blocking or not, returns at once:
/// the items queued before the drop, in order, then `Disconnected` for good.
pub proof fn lemma_drain_after_sender_drop<T>(m: ChanView<T>, ops: Seq<Op<T>>)
    requires
        receives_only(ops),
    ensures
        ({
            let after = spec_drop_chan(m).0;
            let tr = run(after, ops);
            &&& tr.outs.len() == ops.len()
            &&& forall|i: int| 0 <= i < ops.len() ==> #[trigger] tr.outs[i] == Outcome::Received(drained(m.items, i))
            &&& !tr.state.sender_alive
            &&& tr.state.items == m.items.skip(if ops.len() <= m.items.len() { ops.len() as int } else { m.items.len() as int })
        }),
    decreases ops.len(),
{
    let after = spec_drop_chan(m).0;
    if ops.len() == 0 {
        assert(m.items.skip(0) =~= m.items);
    } else {
        let pre = ops.drop_last();
        assert(receives_only(pre)) by {
            assert forall|i: int| 0 <= i < pre.len() implies (#[trigger] pre[i] is TryRecv || pre[i] is Recv) by {
                assert(pre[i] == ops[i]);
            }
        }
        lemma_drain_after_sender_drop(m, pre);
        let prev = run(after, pre);
        let tr = run(after, ops);
        let k = pre.len() as int;
        assert(ops[k] is TryRecv || ops[k] is Recv);
        if k < m.items.len() {
            assert(prev.state.items[0] == m.items[k]);
            assert(tr.state.items =~= m.items.skip(k + 1));
        } else {
            assert(prev.state.items.len() == 0);
        }
        assert forall|i: int| 0 <= i < ops.len() implies #[trigger] tr.outs[i] == Outcome::Received(drained(m.items, i)) by {
            if i < k {
                assert(tr.outs[i] == prev.outs[i]);
            }
        }
    }
}

/// Whether every step of `ops` is one that wakes a waiting receiver: a send
/// or the sender's departure.
pub open spec fn wakes_only<T>(ops: Seq<Op<T>>) -> bool {
    forall|i: int| 0 <= i < ops.len() ==> (#[trigger] ops[i] is Send || ops[i] is DropChan)
}

/// No lost wakeup: a receiver subscribes `b` to a live channel with an empty
/// slot, and the sender then sends or leaves any number of times. `b` is
/// handed out to be resumed exactly once if its wake condition held when it
/// subscribed or came about later, and never otherwise.
pub proof fn lemma_wake_exactly_once<T>(m: ChanView<T>, b: Blocker, ops: Seq<Op<T>>)
    requires
        !m.port_dropped,
        m.waiter is None,
        ops.len() >= 1,
        ops[0] == Op::<T>::Subscribe(b),
        wakes_only(ops.skip(1)),
    ensures
        handed(run(m, ops).outs) == (if wake_ready(m) || ops.len() > 1 {
            seq![b]
        } else {
            Seq::<Blocker>::empty()
        }),
{
    lemma_wake_inv(m, b, ops);
}

proof fn lemma_wake_inv<T>(m: ChanView<T>, b: Blocker, ops: Seq<Op<T>>)
    requires
        !m.port_dropped,
        m.waiter is None,
        ops.len() >= 1,
        ops[0] == Op::<T>::Subscribe(b),
        wakes_only(ops.skip(1)),
    ensures
        ({
            let tr = run(m, ops);
            &&& !tr.state.port_dropped
            &&& tr.outs.len() == ops.len()
            &&& if wake_ready(m) || ops.len() > 1 {
                handed(tr.outs) == seq![b] && tr.state.waiter is None
            } else {
                handed(tr.outs) == Seq::<Blocker>::empty() && tr.state.waiter == Some(b)
            }
        }),
    decreases ops.len(),
{
    let tr = run(m, ops);
    let pre = ops.drop_last();
    if ops.len() == 1 {
        assert(pre =~= Seq::<Op<T>>::empty());
        assert(tr.outs.drop_last() =~= Seq::<Outcome<T>>::empty());
        assert(handed(Seq::<Outcome<T>>::empty()) =~= Seq::<Blocker>::empty());
    } else {
        assert(pre[0] == ops[0]);
        assert(wakes_only(pre.skip(1))) by {
            assert forall|i: int| 0 <= i < pre.skip(1).len() implies (#[trigger] pre.skip(1)[i] is Send
                || pre.skip(1)[i] is DropChan) by {
                assert(pre.skip(1)[i] == ops.skip(1)[i]);
            }
        }
        lemma_wake_inv(m, b, pre);
        let prev = run(m, pre);
        assert(tr.outs.drop_last() =~= prev.outs);
        let last = ops.last();
        assert(last == ops.skip(1)[ops.len() - 2]);
        let (m1, o) = step(prev.state, last);
        if wake_ready(m) || pre.len() > 1 {
            assert(handed_by(o) =~= Seq::<Blocker>::empty());
            assert(handed(tr.outs) =~= seq![b]);
        } else {
            assert(handed_by(o) =~= seq![b]);
            assert(handed(tr.outs) =~= seq![b]);
        }
    }
}

} // verus!
