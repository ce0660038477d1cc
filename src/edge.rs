//! Bounded single-producer / single-consumer edge between two components.

use std::collections::VecDeque;
use vstd::prelude::*;

verus! {

/// What a producer gets back when a push does not go through.
#[derive(Debug)]
pub enum PushError {
    /// The edge holds `capacity` packets already; the packet is handed back.
    Full(Vec<u8>),
}

/// A bounded FIFO of information packets with an "abandoned" flag that the
/// producer side raises when it goes away.
pub struct Edge {
    buf: VecDeque<Vec<u8>>,
    cap: usize,
    abandoned: bool,
    /// Every packet ever accepted by `push`, in order.
    produced: Ghost<Seq<Vec<u8>>>,
    /// Every packet ever handed out by `pop`, in order.
    consumed: Ghost<Seq<Vec<u8>>>,
}

/// The mathematical state of an edge.
pub struct EdgeView {
    pub contents: Seq<Vec<u8>>,
    pub capacity: nat,
    pub abandoned: bool,
    pub produced: Seq<Vec<u8>>,
    pub consumed: Seq<Vec<u8>>,
}

impl EdgeView {
    pub open spec fn wf(self) -> bool {
        &&& self.contents.len() <= self.capacity
        &&& self.produced == self.consumed + self.contents
    }

    pub open spec fn is_full(self) -> bool {
        self.contents.len() >= self.capacity
    }

    /// End of stream for the consumer: nothing left and nobody to send more.
    pub open spec fn is_closed(self) -> bool {
        self.abandoned && self.contents.len() == 0
    }

    /// The state after a successful push of `ip`.
    pub open spec fn pushed(self, ip: Vec<u8>) -> EdgeView {
        EdgeView {
            contents: self.contents.push(ip),
            produced: self.produced.push(ip),
            ..self
        }
    }

    /// The state after a pop that returned the head.
    pub open spec fn popped(self) -> EdgeView {
        EdgeView {
            contents: self.contents.drop_first(),
            consumed: self.consumed.push(self.contents[0]),
            ..self
        }
    }

    /// The state after the consumer popped every packet.
    pub open spec fn drained(self) -> EdgeView {
        EdgeView { contents: Seq::empty(), consumed: self.consumed + self.contents, ..self }
    }

    pub open spec fn abandon(self) -> EdgeView {
        EdgeView { abandoned: true, ..self }
    }
}

impl View for Edge {
    type V = EdgeView;

    closed spec fn view(&self) -> EdgeView {
        EdgeView {
            contents: self.buf@,
            capacity: self.cap as nat,
            abandoned: self.abandoned,
            produced: self.produced@,
            consumed: self.consumed@,
        }
    }
}

impl Edge {
    /// Creates an empty edge that holds at most `capacity` packets.
    pub fn new(capacity: usize) -> (e: Edge)
        ensures
            e@.wf(),
            e@.contents.len() == 0,
            e@.capacity == capacity,
            !e@.abandoned,
            e@.produced.len() == 0,
            e@.consumed.len() == 0,
    {
        let e = Edge {
            buf: VecDeque::with_capacity(capacity),
            cap: capacity,
            abandoned: false,
            produced: Ghost(Seq::empty()),
            consumed: Ghost(Seq::empty()),
        };
        assert(e@.produced =~= e@.consumed + e@.contents);
        e
    }

    pub fn capacity(&self) -> (r: usize)
        ensures
            r == self@.capacity,
    {
        self.cap
    }

    pub fn len(&self) -> (r: usize)
        ensures
            r == self@.contents.len(),
    {
        self.buf.len()
    }

    pub fn is_empty(&self) -> (r: bool)
        ensures
            r == (self@.contents.len() == 0),
    {
        self.buf.len() == 0
    }

    pub fn is_full(&self) -> (r: bool)
        ensures
            r == self@.is_full(),
    {
        self.buf.len() >= self.cap
    }

    pub fn is_abandoned(&self) -> (r: bool)
        ensures
            r == self@.abandoned,
    {
        self.abandoned
    }

    /// True once the producer is gone and every packet has been taken.
    pub fn is_closed(&self) -> (r: bool)
        ensures
            r == self@.is_closed(),
    {
        self.abandoned && self.buf.len() == 0
    }

    /// Appends `ip` at the tail, or hands it back untouched when the edge is full.
    pub fn push(&mut self, ip: Vec<u8>) -> (r: Result<(), PushError>)
        requires
            old(self)@.wf(),
            !old(self)@.abandoned,
        ensures
            final(self)@.wf(),
            !old(self)@.is_full() ==> r is Ok && final(self)@ == old(self)@.pushed(ip),
            old(self)@.is_full() ==> r == Err::<(), PushError>(PushError::Full(ip))
                && final(self)@ == old(self)@,
    {
        if self.buf.len() >= self.cap {
            return Err(PushError::Full(ip));
        }
        proof {
            self.produced@ = self.produced@.push(ip);
        }
        self.buf.push_back(ip);
        assert(self@.produced =~= self@.consumed + self@.contents);
        Ok(())
    }

    /// Removes and returns the head packet, or `None` when the edge is empty.
    pub fn pop(&mut self) -> (r: Option<Vec<u8>>)
        requires
            old(self)@.wf(),
        ensures
            final(self)@.wf(),
            old(self)@.contents.len() > 0 ==> r == Some(old(self)@.contents[0])
                && final(self)@ == old(self)@.popped(),
            old(self)@.contents.len() == 0 ==> r is None && final(self)@ == old(self)@,
    {
        let r = self.buf.pop_front();
        match r {
            Some(ip) => {
                proof {
                    self.consumed@ = self.consumed@.push(ip);
                }
                assert(self@.produced =~= self@.consumed + self@.contents);
                assert(self@ =~= old(self)@.popped());
                Some(ip)
            },
            None => None,
        }
    }

    /// Marks the producer side as gone. Later calls change nothing.
    pub fn abandon(&mut self)
        requires
            old(self)@.wf(),
        ensures
            final(self)@.wf(),
            final(self)@ == old(self)@.abandon(),
    {
        self.abandoned = true;
    }
}

/// Whatever sequence of pushes and pops led to a well-formed state, the
/// packets taken so far are exactly the first packets that were put in:
/// nothing reordered, lost or duplicated.
pub proof fn lemma_consumed_is_prefix(v: EdgeView)
    requires
        v.wf(),
    ensures
        v.consumed.is_prefix_of(v.produced),
        v.consumed =~= v.produced.subrange(0, v.consumed.len() as int),
{
    assert(v.produced.subrange(0, v.consumed.len() as int) =~= v.consumed);
}

/// The state after `n` pops that each returned the head.
pub open spec fn popped_times(v: EdgeView, n: nat) -> EdgeView
    decreases n,
{
    if n == 0 {
        v
    } else {
        popped_times(v, (n - 1) as nat).popped()
    }
}

/// Popping until the edge is empty hands out the packets in order and
/// leaves the edge drained.
pub proof fn lemma_pop_all_drains(v: EdgeView, n: nat)
    requires
        v.wf(),
        n <= v.contents.len(),
    ensures
        popped_times(v, n).contents == v.contents.skip(n as int),
        popped_times(v, n).consumed == v.consumed + v.contents.take(n as int),
        popped_times(v, n).wf(),
        popped_times(v, n).produced == v.produced,
        popped_times(v, n).capacity == v.capacity,
        popped_times(v, n).abandoned == v.abandoned,
        n == v.contents.len() ==> popped_times(v, n) == v.drained(),
    decreases n,
{
    if n == 0 {
        assert(v.contents.skip(0) =~= v.contents);
        assert(v.consumed + v.contents.take(0) =~= v.consumed);
    } else {
        lemma_pop_all_drains(v, (n - 1) as nat);
        let p = popped_times(v, (n - 1) as nat);
        assert(p.contents[0] == v.contents[n - 1]);
        assert(p.contents.drop_first() =~= v.contents.skip(n as int));
        assert(v.consumed + v.contents.take(n - 1) + seq![v.contents[n - 1]] =~= v.consumed
            + v.contents.take(n as int));
        assert(popped_times(v, n).produced =~= popped_times(v, n).consumed + popped_times(
            v,
            n,
        ).contents);
    }
    if n == v.contents.len() {
        assert(v.contents.take(n as int) =~= v.contents);
        assert(v.contents.skip(n as int) =~= Seq::<Vec<u8>>::empty());
        assert(popped_times(v, n).contents == v.drained().contents);
        assert(popped_times(v, n).consumed == v.drained().consumed);
    }
}

/// A packet pushed into an empty edge with room comes out of the next pop
/// unchanged, and the edge is empty again afterwards.
pub proof fn lemma_pass_through(v: EdgeView, ip: Vec<u8>)
    requires
        v.wf(),
        v.contents.len() == 0,
        v.capacity > 0,
    ensures
        !v.is_full(),
        v.pushed(ip).contents.len() > 0,
        v.pushed(ip).contents[0] == ip,
        v.pushed(ip).popped().contents.len() == 0,
        v.pushed(ip).popped().consumed.last() == ip,
        v.pushed(ip).popped().wf(),
{
    let w = v.pushed(ip);
    assert(w.produced =~= w.consumed + w.contents);
    assert(w.popped().produced =~= w.popped().consumed + w.popped().contents);
}

} // verus!
