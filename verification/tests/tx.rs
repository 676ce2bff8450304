use aether::data_plane::queue::PacketPtr;
use aether::data_plane::tx::{
    unsent_packets, FlushReason, TxBatcher, TxDecision, TX_BATCH_MAX_WAIT_NS, TX_BURST_SIZE,
};

fn addrs(v: &[PacketPtr]) -> Vec<usize> {
    v.iter().map(|p| p.as_mbuf()).collect()
}

#[test]
fn full_burst_flushes_on_sixteenth_packet() {
    let mut b = TxBatcher::new();
    for i in 0..TX_BURST_SIZE - 1 {
        assert_eq!(b.on_poll(Some(PacketPtr::new(i)), i as u64), TxDecision::KeepPolling);
    }
    assert_eq!(
        b.on_poll(Some(PacketPtr::new(99)), 100),
        TxDecision::Flush(FlushReason::Full)
    );
    let batch = b.take_batch();
    assert_eq!(batch.len(), 16);
    let mut expected: Vec<usize> = (0..15).collect();
    expected.push(99);
    assert_eq!(addrs(&batch), expected);
    assert_eq!(b.len(), 0);
}

#[test]
fn partial_batch_flushes_after_timeout() {
    let mut b = TxBatcher::new();
    let t0 = 1_000_000_000u64;
    assert_eq!(b.on_poll(Some(PacketPtr::new(5)), t0), TxDecision::KeepPolling);
    assert_eq!(b.on_poll(Some(PacketPtr::new(6)), t0 + 4_000_000), TxDecision::KeepPolling);
    assert_eq!(b.on_poll(None, t0 + TX_BATCH_MAX_WAIT_NS - 1), TxDecision::KeepPolling);
    assert_eq!(
        b.on_poll(None, t0 + TX_BATCH_MAX_WAIT_NS),
        TxDecision::Flush(FlushReason::Timeout)
    );
    assert_eq!(addrs(&b.take_batch()), vec![5, 6]);
}

#[test]
fn empty_batch_never_times_out() {
    let mut b = TxBatcher::new();
    assert_eq!(b.on_poll(None, 0), TxDecision::KeepPolling);
    assert_eq!(b.on_poll(None, u64::MAX), TxDecision::KeepPolling);
    assert_eq!(b.len(), 0);
}

#[test]
fn clock_reading_earlier_than_start_counts_as_no_wait() {
    let mut b = TxBatcher::new();
    assert_eq!(b.on_poll(Some(PacketPtr::new(1)), 50_000_000), TxDecision::KeepPolling);
    assert_eq!(b.on_poll(None, 0), TxDecision::KeepPolling);
}

#[test]
fn batch_timer_restarts_after_take() {
    let mut b = TxBatcher::new();
    b.on_poll(Some(PacketPtr::new(1)), 0);
    b.take_batch();
    assert_eq!(b.on_poll(Some(PacketPtr::new(2)), 20_000_000), TxDecision::KeepPolling);
    assert_eq!(b.on_poll(None, 25_000_000), TxDecision::KeepPolling);
    assert_eq!(b.on_poll(None, 30_000_000), TxDecision::Flush(FlushReason::Timeout));
}

#[test]
fn unsent_tail_is_returned() {
    let batch: Vec<PacketPtr> = (0..5).map(PacketPtr::new).collect();
    assert_eq!(addrs(&unsent_packets(batch, 3)), vec![3, 4]);
    let batch: Vec<PacketPtr> = (0..5).map(PacketPtr::new).collect();
    assert!(unsent_packets(batch, 5).is_empty());
    let batch: Vec<PacketPtr> = (0..5).map(PacketPtr::new).collect();
    assert_eq!(addrs(&unsent_packets(batch, 0)), vec![0, 1, 2, 3, 4]);
    let batch: Vec<PacketPtr> = (0..2).map(PacketPtr::new).collect();
    assert!(unsent_packets(batch, 9).is_empty());
}
