//! The host's book-keeping of its workers: who is running, who was told to
//! stop, who has exited, and how the end of input travels down a chain.

use crate::component::leaves;
use crate::edge::EdgeView;
use crate::signal::{answered, stop_bytes, signal_of, Signal};
use vstd::prelude::*;

verus! {

/// Where one worker stands, as the host sees it.
#[derive(Debug, PartialEq, Eq, Structural, Clone, Copy)]
pub enum WorkerState {
    Running,
    /// Sent `stop`, not yet joined.
    Stopping,
    Exited,
}

/// The workers after a `stop` broadcast: every running worker is told to stop.
pub open spec fn stop_broadcast(ws: Seq<WorkerState>) -> Seq<WorkerState> {
    ws.map_values(
        |w: WorkerState|
            if w is Running {
                WorkerState::Stopping
            } else {
                w
            },
    )
}

/// The host's table of workers, one per component.
pub struct Host {
    workers: Vec<WorkerState>,
}

impl View for Host {
    type V = Seq<WorkerState>;

    closed spec fn view(&self) -> Seq<WorkerState> {
        self.workers@
    }
}

impl Host {
    /// A host with `n` running workers.
    pub fn new(n: usize) -> (h: Host)
        ensures
            h@.len() == n,
            forall|i: int| 0 <= i < n ==> h@[i] is Running,
    {
        let mut workers: Vec<WorkerState> = Vec::new();
        let mut i: usize = 0;
        while i < n
            invariant
                0 <= i <= n,
                workers@.len() == i,
                forall|j: int| 0 <= j < i ==> workers@[j] is Running,
            decreases n - i,
        {
            workers.push(WorkerState::Running);
            i = i + 1;
        }
        Host { workers }
    }

    pub fn len(&self) -> (n: usize)
        ensures
            n == self@.len(),
    {
        self.workers.len()
    }

    pub fn state(&self, i: usize) -> (w: WorkerState)
        requires
            i < self@.len(),
        ensures
            w == self@[i as int],
    {
        self.workers[i]
    }

    /// Starts teardown: returns, in order, the workers that must be sent
    /// `stop` (those still running) and marks them as stopping. A second
    /// call sends nothing more.
    pub fn broadcast_stop(&mut self) -> (targets: Vec<usize>)
        ensures
            final(self)@ == stop_broadcast(old(self)@),
            forall|k: int|
                0 <= k < targets@.len() ==> #[trigger] targets@[k] < old(self)@.len() && old(
                    self,
                )@[targets@[k] as int] is Running,
            forall|i: int|
                0 <= i < old(self)@.len() && old(self)@[i] is Running ==> targets@.contains(
                    i as usize,
                ),
            forall|a: int, b: int| 0 <= a < b < targets@.len() ==> targets@[a] < targets@[b],
    {
        let mut targets: Vec<usize> = Vec::new();
        let mut i: usize = 0;
        let ghost orig = self@;
        while i < self.workers.len()
            invariant
                0 <= i <= self@.len(),
                orig == old(self)@,
                self@.len() == orig.len(),
                forall|j: int| 0 <= j < i ==> self@[j] == stop_broadcast(orig)[j],
                forall|j: int| i <= j < self@.len() ==> self@[j] == orig[j],
                forall|k: int|
                    0 <= k < targets@.len() ==> #[trigger] targets@[k] < i && orig[targets@[k] as int] is Running,
                forall|j: int| 0 <= j < i && orig[j] is Running ==> targets@.contains(j as usize),
                forall|a: int, b: int| 0 <= a < b < targets@.len() ==> targets@[a] < targets@[b],
            decreases self@.len() - i,
        {
            if self.workers[i] == WorkerState::Running {
                self.workers.set(i, WorkerState::Stopping);
                let ghost before = targets@;
                targets.push(i);
                assert forall|j: int| 0 <= j < i && orig[j] is Running implies targets@.contains(
                    j as usize,
                ) by {
                    assert(before.contains(j as usize));
                    let k = choose|k: int| 0 <= k < before.len() && before[k] == j as usize;
                    assert(targets@[k] == j as usize);
                }
                assert(targets@[targets@.len() - 1] == i);
            }
            i = i + 1;
        }
        assert(self@ =~= stop_broadcast(orig));
        targets
    }

    /// Records that worker `i` was joined.
    pub fn worker_exited(&mut self, i: usize)
        requires
            i < old(self)@.len(),
        ensures
            final(self)@ == old(self)@.update(i as int, WorkerState::Exited),
    {
        self.workers.set(i, WorkerState::Exited);
    }

    /// Whether every worker was joined.
    pub fn all_exited(&self) -> (r: bool)
        ensures
            r == forall|i: int| 0 <= i < self@.len() ==> self@[i] is Exited,
    {
        let mut i: usize = 0;
        while i < self.workers.len()
            invariant
                0 <= i <= self@.len(),
                forall|j: int| 0 <= j < i ==> self@[j] is Exited,
            decreases self@.len() - i,
        {
            if self.workers[i] != WorkerState::Exited {
                return false;
            }
            i = i + 1;
        }
        true
    }
}

/// A run of envelopes that holds a `stop` anywhere ends the run loop.
pub proof fn lemma_stop_anywhere_stops(sigs: Seq<Seq<u8>>, k: int)
    requires
        0 <= k < sigs.len(),
        sigs[k] == stop_bytes(),
    ensures
        answered(sigs).1,
    decreases sigs.len(),
{
    if k < sigs.len() - 1 {
        lemma_stop_anywhere_stops(sigs.drop_last(), k);
    } else {
        assert(signal_of(sigs.last()) == Signal::Stop);
    }
}

/// The workers once each one that was told to stop has read the envelopes
/// in `inbox` and left if they made it stop.
pub open spec fn settle(ws: Seq<WorkerState>, inbox: Seq<Seq<Seq<u8>>>) -> Seq<WorkerState> {
    Seq::new(
        ws.len(),
        |i: int|
            if ws[i] is Stopping && answered(inbox[i]).1 {
                WorkerState::Exited
            } else {
                ws[i]
            },
    )
}

/// Stop converges: after a `stop` broadcast, once every worker that was told
/// to stop has read its signals (among them the `stop`, since signals arrive
/// in order and none is lost), every worker has exited. A worker that had
/// exited before stays exited.
pub proof fn lemma_stop_converges(ws: Seq<WorkerState>, inbox: Seq<Seq<Seq<u8>>>)
    requires
        inbox.len() == ws.len(),
        forall|i: int|
            0 <= i < ws.len() && !(ws[i] is Exited) ==> (#[trigger] inbox[i]).contains(stop_bytes()),
    ensures
        forall|i: int|
            0 <= i < ws.len() ==> #[trigger] settle(stop_broadcast(ws), inbox)[i] is Exited,
        forall|i: int|
            0 <= i < ws.len() ==> !(#[trigger] stop_broadcast(ws)[i] is Running),
{
    let after = stop_broadcast(ws);
    assert forall|i: int| 0 <= i < ws.len() implies #[trigger] settle(after, inbox)[i] is Exited by {
        if !(ws[i] is Exited) {
            let k = choose|k: int| 0 <= k < inbox[i].len() && inbox[i][k] == stop_bytes();
            lemma_stop_anywhere_stops(inbox[i], k);
        }
    }
}

/// One component's last round after its input reached its end: it pops
/// every packet left, finds the input closed, leaves, and its output edge
/// is abandoned as its producer goes away.
pub open spec fn last_round(input: EdgeView, output: EdgeView) -> (EdgeView, bool, EdgeView) {
    let drained = input.drained();
    let exit = leaves(seq![drained.is_closed()]);
    (drained, exit, if exit {
        output.abandon()
    } else {
        output
    })
}

/// The edges of a chain of components after component `k - 1` had its last
/// round: components `0 .. k` have run theirs in order; component `i` reads
/// edge `i` and writes edge `i + 1`.
pub open spec fn sweep(edges: Seq<EdgeView>, k: nat) -> Seq<EdgeView>
    decreases k,
{
    if k == 0 || k >= edges.len() {
        edges
    } else {
        let prev = sweep(edges, (k - 1) as nat);
        let (drained, _, out) = last_round(prev[k - 1], prev[k as int]);
        prev.update(k - 1, drained).update(k as int, out)
    }
}

/// End of input travels down a chain: when the chain's first edge is
/// abandoned, each component in turn drains its input, finds it closed and
/// leaves, abandoning its output; after the sweep every edge but the last is
/// closed and the last is abandoned, so each component has left.
pub proof fn lemma_eof_propagates(edges: Seq<EdgeView>, k: nat)
    requires
        edges.len() >= 1,
        edges[0].abandoned,
        k < edges.len(),
    ensures
        sweep(edges, k).len() == edges.len(),
        forall|i: int| 0 <= i < k ==> #[trigger] sweep(edges, k)[i].is_closed(),
        sweep(edges, k)[k as int].abandoned,
        forall|i: int| 0 <= i < k ==> last_round(#[trigger] sweep(edges, i as nat)[i], sweep(edges, i as nat)[i + 1]).1,
    decreases k,
{
    if k > 0 {
        lemma_eof_propagates(edges, (k - 1) as nat);
        let prev = sweep(edges, (k - 1) as nat);
        assert(prev[k - 1].abandoned);
        assert(prev[k - 1].drained().is_closed());
        assert(leaves(seq![prev[k - 1].drained().is_closed()]));
    }
}

} // verus!
