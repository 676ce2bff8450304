use aether::data_plane::pmd::{enqueue_burst, note_refused};
use aether::data_plane::queue::{refused_packet, PacketPtr, PacketQueue, PACKET_QUEUE_SIZE};

#[test]
fn packet_ptr_round_trip() {
    let p = PacketPtr::new(0xdead_beef);
    assert_eq!(p.as_mbuf(), 0xdead_beef);
}

#[test]
fn queue_reports_its_capacity() {
    assert_eq!(PacketQueue::new(7).capacity(), 7);
    assert_eq!(PacketQueue::new(PACKET_QUEUE_SIZE).capacity(), 4096);
}

#[test]
fn full_queue_hands_packet_back() {
    let q = PacketQueue::new(2);
    assert!(q.push(PacketPtr::new(1)).is_ok());
    assert!(q.push(PacketPtr::new(2)).is_ok());
    match q.push(PacketPtr::new(3)) {
        Err(back) => assert_eq!(back.as_mbuf(), 3),
        Ok(()) => panic!("a full queue accepted a packet"),
    }
    assert_eq!(q.pop().map(|p| p.as_mbuf()), Some(1));
    assert_eq!(q.pop().map(|p| p.as_mbuf()), Some(2));
    assert!(q.pop().is_none());
}

#[test]
fn burst_overflow_is_dropped_in_order() {
    let q = PacketQueue::new(2);
    let dropped = enqueue_burst(&q, &[10, 20, 30, 40]);
    let addrs: Vec<usize> = dropped.iter().map(|p| p.as_mbuf()).collect();
    assert_eq!(addrs, vec![30, 40]);
    assert_eq!(q.pop().map(|p| p.as_mbuf()), Some(10));
    assert_eq!(q.pop().map(|p| p.as_mbuf()), Some(20));
}

#[test]
fn burst_with_room_drops_nothing() {
    let q = PacketQueue::new(8);
    assert!(enqueue_burst(&q, &[1, 2, 3]).is_empty());
    assert!(enqueue_burst(&q, &[]).is_empty());
}

#[test]
fn refused_packet_follows_push_outcome() {
    assert!(refused_packet(Ok(())).is_none());
    assert_eq!(refused_packet(Err(PacketPtr::new(42))).map(|p| p.as_mbuf()), Some(42));
    let q = PacketQueue::new(1);
    assert!(refused_packet(q.push(PacketPtr::new(1))).is_none());
    assert_eq!(refused_packet(q.push(PacketPtr::new(2))).map(|p| p.as_mbuf()), Some(2));
}

#[test]
fn note_refused_keeps_only_refused_packets() {
    let mut dropped = vec![PacketPtr::new(7)];
    note_refused(&mut dropped, Ok(()));
    assert_eq!(dropped.len(), 1);
    note_refused(&mut dropped, Err(PacketPtr::new(8)));
    let addrs: Vec<usize> = dropped.iter().map(|p| p.as_mbuf()).collect();
    assert_eq!(addrs, vec![7, 8]);
}
