use vstd::prelude::*;

use crate::data_plane::queue::PacketPtr;

verus! {

/// Packets collected before a batch is handed to the NIC.
pub const TX_BURST_SIZE: usize = 16;

/// Longest wait, in nanoseconds, for a partial batch to fill once its first
/// packet has arrived (ten milliseconds).
pub const TX_BATCH_MAX_WAIT_NS: u64 = 10_000_000;

/// Why a batch is ready to be sent.
#[derive(Clone, Copy, Debug, PartialEq, Eq, Structural)]
pub enum FlushReason {
    /// The batch holds `TX_BURST_SIZE` packets.
    Full,
    /// The batch waited `TX_BATCH_MAX_WAIT_NS` since its first packet.
    Timeout,
}

/// What the transmit loop does after one poll of the transmit queue.
#[derive(Clone, Copy, Debug, PartialEq, Eq, Structural)]
pub enum TxDecision {
    /// Poll the queue again.
    KeepPolling,
    /// Take the batch and send it.
    Flush(FlushReason),
}

/// What a batcher holds: the packets collected so far, in arrival order, and
/// the time at which the first of them arrived.
pub struct TxBatcherView {
    pub packets: Seq<PacketPtr>,
    pub started_at_ns: Option<u64>,
}

impl TxBatcherView {
    /// At most a burst of packets, and a start time exactly when there is a
    /// packet.
    pub open spec fn valid(self) -> bool {
        &&& self.packets.len() <= TX_BURST_SIZE
        &&& (self.started_at_ns is Some <==> self.packets.len() > 0)
    }

    /// The batch holds a full burst.
    pub open spec fn is_full(self) -> bool {
        self.packets.len() == TX_BURST_SIZE
    }

    /// Time since the first packet arrived, zero when the clock reads earlier
    /// than that or when there is no packet.
    pub open spec fn elapsed_ns(self, now_ns: u64) -> int {
        match self.started_at_ns {
            Some(t) => if now_ns >= t {
                now_ns - t
            } else {
                0
            },
            None => 0,
        }
    }

    /// The batch after one poll that returned `popped` at time `now_ns`: a
    /// popped packet is appended, and the first packet starts the clock.
    pub open spec fn after_poll(self, popped: Option<PacketPtr>, now_ns: u64) -> TxBatcherView {
        match popped {
            Some(p) => TxBatcherView {
                packets: self.packets.push(p),
                started_at_ns: if self.started_at_ns is Some {
                    self.started_at_ns
                } else {
                    Some(now_ns)
                },
            },
            None => self,
        }
    }

    /// The decision after that poll: send once the burst is full; when the
    /// queue was empty, send a partial batch whose wait has run out; otherwise
    /// keep polling.
    pub open spec fn decision(self, popped: Option<PacketPtr>, now_ns: u64) -> TxDecision {
        match popped {
            Some(_) => if self.packets.len() + 1 == TX_BURST_SIZE {
                TxDecision::Flush(FlushReason::Full)
            } else {
                TxDecision::KeepPolling
            },
            None => if self.packets.len() > 0 && self.elapsed_ns(now_ns) >= TX_BATCH_MAX_WAIT_NS {
                TxDecision::Flush(FlushReason::Timeout)
            } else {
                TxDecision::KeepPolling
            },
        }
    }
}

/// Collects packets from the transmit queue into bursts for the NIC.
pub struct TxBatcher {
    packets: Vec<PacketPtr>,
    started_at_ns: Option<u64>,
}

impl View for TxBatcher {
    type V = TxBatcherView;

    closed spec fn view(&self) -> TxBatcherView {
        TxBatcherView { packets: self.packets@, started_at_ns: self.started_at_ns }
    }
}

impl TxBatcher {
    /// An empty batch.
    pub fn new() -> (b: Self)
        ensures
            b@.packets == Seq::<PacketPtr>::empty(),
            b@.started_at_ns is None,
            b@.valid(),
    {
        TxBatcher { packets: Vec::new(), started_at_ns: None }
    }

    /// Number of packets in the batch.
    pub fn len(&self) -> (n: usize)
        ensures
            n == self@.packets.len(),
    {
        self.packets.len()
    }

    /// Records the outcome of one poll of the transmit queue at time `now_ns`
    /// (nanoseconds on a monotonic clock) and says whether to send the batch.
    /// A full batch must be taken before the next poll.
    pub fn on_poll(&mut self, popped: Option<PacketPtr>, now_ns: u64) -> (d: TxDecision)
        requires
            old(self)@.valid(),
            !old(self)@.is_full(),
        ensures
            final(self)@ == old(self)@.after_poll(popped, now_ns),
            d == old(self)@.decision(popped, now_ns),
            final(self)@.valid(),
    {
        match popped {
            Some(packet) => {
                self.packets.push(packet);
                if self.started_at_ns.is_none() {
                    self.started_at_ns = Some(now_ns);
                }
                if self.packets.len() == TX_BURST_SIZE {
                    TxDecision::Flush(FlushReason::Full)
                } else {
                    TxDecision::KeepPolling
                }
            },
            None => {
                match self.started_at_ns {
                    Some(started) => {
                        let elapsed = if now_ns >= started {
                            now_ns - started
                        } else {
                            0
                        };
                        if self.packets.len() > 0 && elapsed >= TX_BATCH_MAX_WAIT_NS {
                            TxDecision::Flush(FlushReason::Timeout)
                        } else {
                            TxDecision::KeepPolling
                        }
                    },
                    None => TxDecision::KeepPolling,
                }
            },
        }
    }

    /// Hands over the collected packets, in arrival order, and starts an empty
    /// batch.
    pub fn take_batch(&mut self) -> (batch: Vec<PacketPtr>)
        ensures
            batch@ == old(self)@.packets,
            final(self)@.packets == Seq::<PacketPtr>::empty(),
            final(self)@.started_at_ns is None,
            final(self)@.valid(),
    {
        let mut batch = Vec::new();
        std::mem::swap(&mut batch, &mut self.packets);
        self.started_at_ns = None;
        batch
    }
}

/// The packets of `batch` from position `sent` on; none when `sent` reaches
/// past the end.
pub open spec fn spec_unsent(batch: Seq<PacketPtr>, sent: int) -> Seq<PacketPtr> {
    if sent < batch.len() {
        batch.subrange(sent, batch.len() as int)
    } else {
        Seq::empty()
    }
}

/// The packets of a sent batch that the NIC did not accept: those from
/// position `sent` on, which the caller still owns and must release. The NIC
/// takes the first `sent` packets.
pub fn unsent_packets(batch: Vec<PacketPtr>, sent: usize) -> (unsent: Vec<PacketPtr>)
    ensures
        unsent@ == spec_unsent(batch@, sent as int),
{
    let mut batch = batch;
    if sent < batch.len() {
        batch.split_off(sent)
    } else {
        Vec::new()
    }
}

/// One poll keeps a batch valid, and a poll that fills the batch is exactly
/// the one that is answered with a flush for a full batch.
pub proof fn lemma_poll_keeps_valid(b: TxBatcherView, popped: Option<PacketPtr>, now_ns: u64)
    requires
        b.valid(),
        !b.is_full(),
    ensures
        b.after_poll(popped, now_ns).valid(),
        b.decision(popped, now_ns) == TxDecision::Flush(FlushReason::Full) <==> b.after_poll(
            popped,
            now_ns,
        ).is_full(),
{
}

/// A batch is sent on timeout only when the queue was found empty, the batch
/// holds a packet, and the wait since its first packet has run out; a poll
/// never drops, reorders or duplicates a packet.
pub proof fn lemma_timeout_flush(b: TxBatcherView, popped: Option<PacketPtr>, now_ns: u64)
    requires
        b.valid(),
        !b.is_full(),
    ensures
        b.decision(popped, now_ns) == TxDecision::Flush(FlushReason::Timeout) ==> {
            &&& popped is None
            &&& b.packets.len() > 0
            &&& b.elapsed_ns(now_ns) >= TX_BATCH_MAX_WAIT_NS
        },
        b.after_poll(popped, now_ns).packets == (match popped {
            Some(p) => b.packets.push(p),
            None => b.packets,
        }),
{
}

/// When the queue is found empty, a batch that holds any number of packets
/// is sent exactly when at least `TX_BATCH_MAX_WAIT_NS` have passed since its
/// first packet arrived; an empty batch is never sent.
pub proof fn lemma_empty_poll_flushes_after_wait(b: TxBatcherView, now_ns: u64)
    requires
        b.valid(),
        !b.is_full(),
    ensures
        b.packets.len() == 0 ==> b.decision(None, now_ns) == TxDecision::KeepPolling,
        b.started_at_ns matches Some(t) ==> (now_ns >= t + TX_BATCH_MAX_WAIT_NS ==> b.decision(
            None,
            now_ns,
        ) == TxDecision::Flush(FlushReason::Timeout)),
        b.started_at_ns matches Some(t) ==> (now_ns < t + TX_BATCH_MAX_WAIT_NS ==> b.decision(
            None,
            now_ns,
        ) == TxDecision::KeepPolling),
        b.after_poll(None, now_ns) == b,
{
}

/// A popped packet is appended; the first packet of a batch starts its clock
/// at the poll time and later packets leave the start time alone; the batch
/// is sent as full exactly when this packet is its `TX_BURST_SIZE`-th.
pub proof fn lemma_packet_poll(b: TxBatcherView, p: PacketPtr, now_ns: u64)
    requires
        b.valid(),
        !b.is_full(),
    ensures
        b.after_poll(Some(p), now_ns).packets == b.packets.push(p),
        b.packets.len() == 0 ==> b.after_poll(Some(p), now_ns).started_at_ns == Some(now_ns),
        b.packets.len() > 0 ==> b.after_poll(Some(p), now_ns).started_at_ns == b.started_at_ns,
        b.packets.len() == TX_BURST_SIZE - 1 ==> b.decision(Some(p), now_ns) == TxDecision::Flush(
            FlushReason::Full,
        ),
        b.packets.len() < TX_BURST_SIZE - 1 ==> b.decision(Some(p), now_ns)
            == TxDecision::KeepPolling,
{
}

/// After a send, every packet of the batch is either taken by the NIC (the
/// first `sent`) or returned to be released (the rest), never both.
pub proof fn lemma_send_accounts_for_every_packet(batch: Seq<PacketPtr>, sent: int)
    requires
        0 <= sent <= batch.len(),
    ensures
        batch.take(sent) + spec_unsent(batch, sent) == batch,
        sent + spec_unsent(batch, sent).len() == batch.len(),
{
    assert(batch.take(sent) + spec_unsent(batch, sent) =~= batch);
}

} // verus!
