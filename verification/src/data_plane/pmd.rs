use vstd::prelude::*;

use crate::data_plane::queue::{PacketPtr, PacketQueue};

verus! {

/// Most packets taken from the NIC in one receive burst.
pub const BURST_SIZE: usize = 32;

/// `idx` picks `sub` out of `of`: each element of `sub` is the packet at the
/// position of `of` that `idx` names, and the positions strictly increase.
pub open spec fn picks(sub: Seq<PacketPtr>, of: Seq<usize>, idx: Seq<int>) -> bool {
    &&& idx.len() == sub.len()
    &&& forall|i: int, j: int| 0 <= i < j < idx.len() ==> #[trigger] idx[i] < #[trigger] idx[j]
    &&& forall|i: int|
        0 <= i < idx.len() ==> 0 <= #[trigger] idx[i] < of.len() && sub[i].addr() == of[idx[i]]
}

/// The packets of `sub` are packets of `of`, in the same order, none taken
/// twice.
pub open spec fn drawn_in_order(sub: Seq<PacketPtr>, of: Seq<usize>) -> bool {
    exists|idx: Seq<int>| #[trigger] picks(sub, of, idx)
}

/// Keeps the packet that a push handed back, if the queue refused it: a
/// refused packet is appended to `dropped`, an accepted one leaves `dropped`
/// as it was.
pub fn note_refused(dropped: &mut Vec<PacketPtr>, outcome: Result<(), PacketPtr>)
    ensures
        final(dropped)@ == match outcome {
            Ok(()) => old(dropped)@,
            Err(p) => old(dropped)@.push(p),
        },
{
    match outcome {
        Ok(()) => {},
        Err(back) => dropped.push(back),
    }
}

/// Offers each packet of a receive burst, in order, to the receive queue, and
/// returns the packets that the full queue refused, in order; the caller still
/// owns those and must release them.
pub fn enqueue_burst(queue: &PacketQueue, mbufs: &[usize]) -> (dropped: Vec<PacketPtr>)
    ensures
        drawn_in_order(dropped@, mbufs@),
        dropped@.len() <= mbufs@.len(),
{
    let mut dropped: Vec<PacketPtr> = Vec::new();
    let ghost mut idx: Seq<int> = Seq::empty();
    let n = mbufs.len();
    let mut i: usize = 0;
    while i < n
        invariant
            n == mbufs@.len(),
            i <= n,
            picks(dropped@, mbufs@, idx),
            forall|k: int| 0 <= k < idx.len() ==> #[trigger] idx[k] < i,
            dropped@.len() <= i,
        decreases n - i,
    {
        let packet = PacketPtr::new(mbufs[i]);
        let outcome = queue.push(packet);
        proof {
            if outcome is Err {
                idx = idx.push(i as int);
            }
        }
        note_refused(&mut dropped, outcome);
        i = i + 1;
    }
    assert(picks(dropped@, mbufs@, idx));
    dropped
}

} // verus!
