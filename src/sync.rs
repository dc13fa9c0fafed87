//! The host-authoritative synchronization protocol: the messages of the
//! active phase, the host's sequence counter and the client's staleness rule.

use vstd::prelude::*;

verus! {

/// A full copy of the host's state, tagged with the broadcast it belongs to.
pub struct SyncPacket<S> {
    pub seq: u64,
    pub state: S,
}

/// A message of the active phase: an action for the host, or a snapshot for
/// the clients.
pub enum InternalMsg<A, S> {
    Action(A),
    Sync(SyncPacket<S>),
}

/// The one control message of the lobby: the host starts the game.
#[derive(Debug, Clone, Copy, PartialEq, Eq)]
pub enum LobbySignal {
    StartGame,
}

/// The host's broadcast counter. It starts at 0, meaning no snapshot yet,
/// so the first broadcast carries 1.
pub struct SequenceCounter {
    pub last: u64,
}

impl SequenceCounter {
    pub fn new() -> (r: SequenceCounter)
        ensures
            r.last == 0,
    {
        SequenceCounter { last: 0 }
    }

    /// Number for the next broadcast; `None` once every `u64` has been used.
    pub fn next_seq(&mut self) -> (r: Option<u64>)
        ensures
            old(self).last < u64::MAX ==> r == Some((old(self).last + 1) as u64) && final(self).last
                == old(self).last + 1,
            old(self).last == u64::MAX ==> r is None && final(self).last == old(self).last,
    {
        if self.last == u64::MAX {
            None
        } else {
            self.last = self.last + 1;
            Some(self.last)
        }
    }
}

/// Whether a snapshot numbered `seq` replaces a replica that last took `last_seen`.
pub open spec fn is_fresh(last_seen: u64, seq: u64) -> bool {
    seq > last_seen
}

/// A replica `(last_seen, state)` after one snapshot delivery.
pub open spec fn deliver<S>(r: (u64, S), p: SyncPacket<S>) -> (u64, S) {
    if is_fresh(r.0, p.seq) {
        (p.seq, p.state)
    } else {
        r
    }
}

/// A replica after the deliveries `ps`, in the order they arrived.
pub open spec fn replay<S>(r: (u64, S), ps: Seq<SyncPacket<S>>) -> (u64, S)
    decreases ps.len(),
{
    if ps.len() == 0 {
        r
    } else {
        deliver(replay(r, ps.drop_last()), ps.last())
    }
}

/// The highest sequence number among the deliveries `ps` (0 when there are none).
pub open spec fn max_seq<S>(ps: Seq<SyncPacket<S>>) -> u64
    decreases ps.len(),
{
    if ps.len() == 0 {
        0
    } else {
        let m = max_seq(ps.drop_last());
        if ps.last().seq > m {
            ps.last().seq
        } else {
            m
        }
    }
}

/// The deliveries agree: two snapshots with one number carry one state,
/// as the host never numbers two broadcasts alike.
pub open spec fn consistent<S>(ps: Seq<SyncPacket<S>>) -> bool {
    forall|i: int, j: int|
        0 <= i < ps.len() && 0 <= j < ps.len() && #[trigger] ps[i].seq == #[trigger] ps[j].seq
            ==> ps[i].state == ps[j].state
}

/// A client's copy of the host's state and the number of the snapshot it
/// came from.
pub struct Replica<S> {
    pub last_seen: u64,
    pub state: S,
}

impl<S> Replica<S> {
    pub open spec fn view(&self) -> (u64, S) {
        (self.last_seen, self.state)
    }

    /// A replica holding `state` that has taken no snapshot yet.
    pub fn new(state: S) -> (r: Replica<S>)
        ensures
            r.last_seen == 0,
            r.state == state,
    {
        Replica { last_seen: 0, state }
    }

    /// Offers one delivered snapshot. It replaces the state, and its number
    /// becomes the last seen, exactly when it is newer than the last seen;
    /// otherwise it is dropped. Returns whether it was taken.
    pub fn apply(&mut self, packet: SyncPacket<S>) -> (taken: bool)
        ensures
            taken == is_fresh(old(self).last_seen, packet.seq),
            final(self).view() == deliver(old(self).view(), packet),
    {
        if packet.seq > self.last_seen {
            self.last_seen = packet.seq;
            self.state = packet.state;
            true
        } else {
            false
        }
    }
}

proof fn lemma_replay_last_seen<S>(r: (u64, S), ps: Seq<SyncPacket<S>>)
    ensures
        replay(r, ps).0 == if r.0 >= max_seq(ps) { r.0 } else { max_seq(ps) },
        replay(r, ps).0 == r.0 ==> replay(r, ps) == r,
        replay(r, ps).0 != r.0 ==> exists|i: int|
            0 <= i < ps.len() && ps[i].seq == replay(r, ps).0 && #[trigger] ps[i].state == replay(
                r,
                ps,
            ).1,
    decreases ps.len(),
{
    if ps.len() > 0 {
        let pre = ps.drop_last();
        lemma_replay_last_seen(r, pre);
        let q = replay(r, pre);
        if q.0 != r.0 {
            let i = choose|i: int|
                0 <= i < pre.len() && pre[i].seq == q.0 && #[trigger] pre[i].state == q.1;
            assert(ps[i] == pre[i]);
        }
        if is_fresh(q.0, ps.last().seq) {
            assert(ps[ps.len() - 1] == ps.last());
        }
    }
}

/// Whatever the order of arrival and however often each snapshot comes, a
/// replica that starts with no snapshot taken ends on the highest number
/// delivered and on the state of every delivery that carries that number.
pub proof fn lemma_highest_snapshot_wins<S>(init: S, ps: Seq<SyncPacket<S>>)
    requires
        consistent(ps),
        max_seq(ps) > 0,
    ensures
        replay((0u64, init), ps).0 == max_seq(ps),
        forall|i: int|
            0 <= i < ps.len() && #[trigger] ps[i].seq == max_seq(ps) ==> replay((0u64, init), ps).1
                == ps[i].state,
{
    lemma_replay_last_seen((0u64, init), ps);
    let r = replay((0u64, init), ps);
    let k = choose|k: int| 0 <= k < ps.len() && ps[k].seq == r.0 && #[trigger] ps[k].state == r.1;
    assert forall|i: int| 0 <= i < ps.len() && #[trigger] ps[i].seq == max_seq(ps) implies r.1
        == ps[i].state by {
        assert(ps[i].seq == ps[k].seq);
    }
}

/// Delivering one snapshot twice has the effect of delivering it once: a
/// fresh snapshot is taken on its first arrival and dropped on its second.
pub proof fn lemma_duplicate_delivery<S>(r: (u64, S), p: SyncPacket<S>)
    ensures
        deliver(deliver(r, p), p) == deliver(r, p),
        is_fresh(r.0, p.seq) ==> deliver(r, p) == (p.seq, p.state),
        !is_fresh(r.0, p.seq) ==> deliver(r, p) == r,
{
}

} // verus!
