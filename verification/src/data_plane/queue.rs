use crossbeam_queue::ArrayQueue;
use vstd::prelude::*;

verus! {

/// Capacity of each of the two packet queues (receive side and transmit side).
pub const PACKET_QUEUE_SIZE: usize = 4096;

/// A packet buffer handed between threads, carried as the address of its
/// descriptor in the packet-buffer pool.
#[derive(Debug)]
pub struct PacketPtr {
    addr: usize,
}

impl PacketPtr {
    /// The buffer address this handle carries.
    pub closed spec fn addr(self) -> usize {
        self.addr
    }

    /// Wraps the address of a packet buffer.
    pub fn new(mbuf: usize) -> (p: Self)
        ensures
            p.addr() == mbuf,
    {
        PacketPtr { addr: mbuf }
    }

    /// The address of the packet buffer this handle carries.
    pub fn as_mbuf(&self) -> (mbuf: usize)
        ensures
            mbuf == self.addr(),
    {
        self.addr
    }
}

/// The bounded multi-producer multi-consumer queue of crossbeam-queue.
#[verifier::external_type_specification]
#[verifier::external_body]
#[verifier::reject_recursive_types(T)]
pub struct ExArrayQueue<T>(ArrayQueue<T>);

/// The capacity that an `ArrayQueue` of packets was created with; it is fixed
/// for the life of the queue.
pub uninterp spec fn packet_queue_capacity(q: ArrayQueue<PacketPtr>) -> nat;

/// Calls `ArrayQueue::new`. Trusted: the queue reports, through
/// `ArrayQueue::capacity`, the capacity it was made with. `new` panics when
/// the capacity is zero or when the smallest power of two above it does not
/// fit in `usize`; the bound in `requires` rules both out (an allocation of
/// the slots that the machine cannot satisfy is not covered). That the new
/// queue starts empty is not stated: the queue is shared between threads, and
/// no contract here follows its contents.
#[verifier::external_body]
fn array_queue_new(cap: usize) -> (q: ArrayQueue<PacketPtr>)
    requires
        0 < cap <= usize::MAX / 2,
    ensures
        packet_queue_capacity(q) == cap,
{
    ArrayQueue::new(cap)
}

/// Calls `ArrayQueue::capacity`. Trusted: it returns the capacity that the
/// queue was created with.
#[verifier::external_body]
fn array_queue_capacity(q: &ArrayQueue<PacketPtr>) -> (cap: usize)
    ensures
        cap == packet_queue_capacity(*q),
{
    q.capacity()
}

/// Calls `ArrayQueue::push`. Trusted: when the queue is full the very packet
/// that was offered comes back as the error. Whether the queue is full depends
/// on the other threads that use it, so which of the two outcomes occurs is
/// not stated.
#[verifier::external_body]
fn array_queue_push(q: &ArrayQueue<PacketPtr>, packet: PacketPtr) -> (r: Result<(), PacketPtr>)
    ensures
        r matches Err(back) ==> back == packet,
{
    q.push(packet)
}

/// Calls `ArrayQueue::pop`. Nothing is stated of the result: which packet, if
/// any, is at the head depends on every thread that uses the queue.
#[verifier::external_body]
fn array_queue_pop(q: &ArrayQueue<PacketPtr>) -> Option<PacketPtr> {
    q.pop()
}

/// The packet that a push handed back, if the queue refused it; the caller
/// owns that packet and must release it.
pub fn refused_packet(outcome: Result<(), PacketPtr>) -> (refused: Option<PacketPtr>)
    ensures
        refused == match outcome {
            Ok(()) => None,
            Err(p) => Some(p),
        },
{
    match outcome {
        Ok(()) => None,
        Err(back) => Some(back),
    }
}

/// A bounded queue of packet handles shared between the polling threads.
pub struct PacketQueue {
    inner: ArrayQueue<PacketPtr>,
}

impl PacketQueue {
    /// The fixed number of packets the queue can hold.
    pub closed spec fn spec_capacity(&self) -> nat {
        packet_queue_capacity(self.inner)
    }

    /// Creates an empty queue that holds at most `capacity` packets.
    pub fn new(capacity: usize) -> (q: Self)
        requires
            0 < capacity <= usize::MAX / 2,
        ensures
            q.spec_capacity() == capacity,
    {
        PacketQueue { inner: array_queue_new(capacity) }
    }

    /// The fixed number of packets the queue can hold.
    pub fn capacity(&self) -> (cap: usize)
        ensures
            cap == self.spec_capacity(),
    {
        array_queue_capacity(&self.inner)
    }

    /// Offers a packet to the queue. When the queue is full the same packet is
    /// handed back in `Err`, so that the caller keeps ownership of it.
    pub fn push(&self, packet: PacketPtr) -> (r: Result<(), PacketPtr>)
        ensures
            r matches Err(back) ==> back == packet,
    {
        array_queue_push(&self.inner, packet)
    }

    /// Takes the packet at the head of the queue, if there is one.
    pub fn pop(&self) -> Option<PacketPtr> {
        array_queue_pop(&self.inner)
    }
}

} // verus!
