//! In-band control messages between the host and each component.

use vstd::prelude::*;

verus! {

/// `stop` in ASCII.
pub open spec fn stop_bytes() -> Seq<u8> {
    seq![115u8, 116, 111, 112]
}

/// `ping` in ASCII.
pub open spec fn ping_bytes() -> Seq<u8> {
    seq![112u8, 105, 110, 103]
}

/// `pong` in ASCII.
pub open spec fn pong_bytes() -> Seq<u8> {
    seq![112u8, 111, 110, 103]
}

/// A signal envelope, as the receiving side reads it.
#[derive(Debug, PartialEq, Eq, Structural, Clone, Copy)]
pub enum Signal {
    Stop,
    Ping,
    Pong,
    /// Anything else: logged and ignored.
    Other,
}

pub open spec fn signal_of(b: Seq<u8>) -> Signal {
    if b == stop_bytes() {
        Signal::Stop
    } else if b == ping_bytes() {
        Signal::Ping
    } else if b == pong_bytes() {
        Signal::Pong
    } else {
        Signal::Other
    }
}

/// Byte-wise equality of two packets.
pub fn bytes_equal(a: &[u8], b: &[u8]) -> (r: bool)
    ensures
        r == (a@ == b@),
{
    if a.len() != b.len() {
        return false;
    }
    let mut i: usize = 0;
    while i < a.len()
        invariant
            a@.len() == b@.len(),
            0 <= i <= a@.len(),
            a@.subrange(0, i as int) == b@.subrange(0, i as int),
        decreases a@.len() - i,
    {
        if a[i] != b[i] {
            assert(a@[i as int] != b@[i as int]);
            return false;
        }
        assert(a@.subrange(0, i + 1) =~= a@.subrange(0, i as int).push(a@[i as int]));
        assert(b@.subrange(0, i + 1) =~= b@.subrange(0, i as int).push(b@[i as int]));
        i = i + 1;
    }
    assert(a@ =~= a@.subrange(0, i as int));
    assert(b@ =~= b@.subrange(0, i as int));
    true
}

impl Signal {
    /// Reads an envelope.
    pub fn parse(b: &[u8]) -> (r: Signal)
        ensures
            r == signal_of(b@),
    {
        let stop = Signal::Stop.to_bytes();
        let ping = Signal::Ping.to_bytes();
        let pong = Signal::Pong.to_bytes();
        if bytes_equal(b, stop.as_slice()) {
            Signal::Stop
        } else if bytes_equal(b, ping.as_slice()) {
            Signal::Ping
        } else if bytes_equal(b, pong.as_slice()) {
            Signal::Pong
        } else {
            Signal::Other
        }
    }

    /// The envelope that carries a recognised signal; `Other` has none of
    /// its own and is written as an empty envelope.
    pub fn to_bytes(&self) -> (r: Vec<u8>)
        ensures
            *self is Stop ==> r@ == stop_bytes(),
            *self is Ping ==> r@ == ping_bytes(),
            *self is Pong ==> r@ == pong_bytes(),
            *self is Other ==> r@.len() == 0,
    {
        match self {
            Signal::Stop => vec![115u8, 116, 111, 112],
            Signal::Ping => vec![112u8, 105, 110, 103],
            Signal::Pong => vec![112u8, 111, 110, 103],
            Signal::Other => Vec::new(),
        }
    }
}

/// Replies and stop decision after reading a run of signals in order. The
/// first `stop` ends the run: what follows it is not read.
pub open spec fn answered(sigs: Seq<Seq<u8>>) -> (Seq<Seq<u8>>, bool)
    decreases sigs.len(),
{
    if sigs.len() == 0 {
        (Seq::empty(), false)
    } else {
        let (replies, stopped) = answered(sigs.drop_last());
        if stopped {
            (replies, true)
        } else {
            match signal_of(sigs.last()) {
                Signal::Stop => (replies, true),
                Signal::Ping => (replies.push(pong_bytes()), false),
                _ => (replies, false),
            }
        }
    }
}

/// How many envelopes in `sigs` are `ping`.
pub open spec fn count_pings(sigs: Seq<Seq<u8>>) -> nat
    decreases sigs.len(),
{
    if sigs.len() == 0 {
        0
    } else {
        count_pings(sigs.drop_last()) + if signal_of(sigs.last()) is Ping {
            1nat
        } else {
            0nat
        }
    }
}

/// The view of a run of envelopes.
pub open spec fn envelopes(v: Seq<Vec<u8>>) -> Seq<Seq<u8>> {
    v.map_values(|e: Vec<u8>| e@)
}

/// What a component does after reading a batch of envelopes.
pub struct Answer {
    /// Replies for the host, in order.
    pub replies: Vec<Vec<u8>>,
    /// Whether a `stop` was read.
    pub stop: bool,
}

/// Reads a batch of envelopes in order: each `ping` gets one `pong`, unknown
/// envelopes are ignored, and the first `stop` ends the batch.
pub fn answer_signals(batch: &Vec<Vec<u8>>) -> (r: Answer)
    ensures
        envelopes(r.replies@) == answered(envelopes(batch@)).0,
        r.stop == answered(envelopes(batch@)).1,
{
    let mut replies: Vec<Vec<u8>> = Vec::new();
    let mut i: usize = 0;
    while i < batch.len()
        invariant
            0 <= i <= batch@.len(),
            (envelopes(replies@), false) == answered(envelopes(batch@.take(i as int))),
        decreases batch@.len() - i,
    {
        proof {
            assert(envelopes(batch@.take(i + 1)).drop_last() =~= envelopes(batch@.take(i as int)));
            assert(envelopes(batch@.take(i + 1)).last() == batch@[i as int]@);
        }
        let s = Signal::parse(batch[i].as_slice());
        match s {
            Signal::Stop => {
                proof {
                    assert(envelopes(batch@).take(i + 1) =~= envelopes(batch@.take(i + 1)));
                    lemma_answered_stays_stopped(envelopes(batch@), i as int + 1);
                }
                return Answer { replies, stop: true };
            },
            Signal::Ping => {
                let p = Signal::Pong.to_bytes();
                replies.push(p);
                assert(envelopes(replies@) =~= answered(envelopes(batch@.take(i as int))).0.push(
                    pong_bytes(),
                ));
            },
            _ => {},
        }
        i = i + 1;
    }
    assert(batch@.take(i as int) =~= batch@);
    Answer { replies, stop: false }
}

/// Once a prefix of a run has stopped, the whole run has the same outcome.
proof fn lemma_answered_stays_stopped(sigs: Seq<Seq<u8>>, k: int)
    requires
        0 <= k <= sigs.len(),
        answered(sigs.take(k)).1,
    ensures
        answered(sigs) == answered(sigs.take(k)),
    decreases sigs.len() - k,
{
    if k < sigs.len() {
        assert(sigs.take(k + 1).drop_last() =~= sigs.take(k));
        lemma_answered_stays_stopped(sigs, k + 1);
    } else {
        assert(sigs.take(k) =~= sigs);
    }
}

/// Every reply to a run of envelopes is `pong`.
proof fn lemma_replies_are_pongs(sigs: Seq<Seq<u8>>)
    ensures
        forall|i: int| 0 <= i < answered(sigs).0.len() ==> #[trigger] answered(sigs).0[i]
            == pong_bytes(),
    decreases sigs.len(),
{
    if sigs.len() > 0 {
        lemma_replies_are_pongs(sigs.drop_last());
        let prev = answered(sigs.drop_last()).0;
        assert forall|i: int| 0 <= i < answered(sigs).0.len() implies #[trigger] answered(
            sigs,
        ).0[i] == pong_bytes() by {
            if i < prev.len() {
                assert(prev[i] == pong_bytes());
            }
        }
    }
}

/// In a run without `stop`, nothing stops and there is one reply per `ping`.
proof fn lemma_count_without_stop(sigs: Seq<Seq<u8>>)
    requires
        forall|k: int| 0 <= k < sigs.len() ==> !(#[trigger] signal_of(sigs[k]) is Stop),
    ensures
        !answered(sigs).1,
        answered(sigs).0.len() == count_pings(sigs),
    decreases sigs.len(),
{
    if sigs.len() > 0 {
        let init = sigs.drop_last();
        assert forall|k: int| 0 <= k < init.len() implies !(#[trigger] signal_of(init[k]) is Stop) by {
            assert(init[k] == sigs[k]);
        }
        lemma_count_without_stop(init);
        assert(!(signal_of(sigs[sigs.len() - 1]) is Stop));
    }
}

/// Exactly one `pong` for every `ping` read: the replies to a run of
/// envelopes are all `pong`, one for each `ping` before the first `stop`
/// (all of them when there is no `stop`), and the run stops exactly when it
/// holds a `stop`.
pub proof fn lemma_one_pong_per_ping(sigs: Seq<Seq<u8>>, stop_at: int)
    requires
        0 <= stop_at <= sigs.len(),
        stop_at < sigs.len() ==> signal_of(sigs[stop_at]) is Stop,
        forall|k: int| 0 <= k < stop_at ==> !(#[trigger] signal_of(sigs[k]) is Stop),
    ensures
        forall|i: int| 0 <= i < answered(sigs).0.len() ==> #[trigger] answered(sigs).0[i]
            == pong_bytes(),
        answered(sigs).0.len() == count_pings(sigs.take(stop_at)),
        answered(sigs).1 == (stop_at < sigs.len()),
{
    lemma_replies_are_pongs(sigs);
    let pre = sigs.take(stop_at);
    assert forall|k: int| 0 <= k < pre.len() implies !(#[trigger] signal_of(pre[k]) is Stop) by {
        assert(pre[k] == sigs[k]);
    }
    lemma_count_without_stop(pre);
    if stop_at < sigs.len() {
        assert(sigs.take(stop_at + 1).drop_last() =~= pre);
        assert(sigs.take(stop_at + 1).last() == sigs[stop_at]);
        lemma_answered_stays_stopped(sigs, stop_at + 1);
    } else {
        assert(pre =~= sigs);
    }
}

} // verus!
