use aether::data_plane::lb::{Backend, FlowKey, LoadBalancer};

fn flow(src_last: u8, src_port: u16) -> FlowKey {
    FlowKey {
        src_ip: u32::from_be_bytes([192, 168, 1, src_last]),
        dst_ip: u32::from_be_bytes([10, 0, 0, 100]),
        src_port,
        dst_port: 80,
        protocol: 6,
    }
}

fn backends(n: u8) -> Vec<Backend> {
    (0..n)
        .map(|i| Backend { ip: u32::from_be_bytes([10, 0, 0, 10 + i]), port: 8080 })
        .collect()
}

#[test]
fn test_stateful_lookup() {
    let backends = vec![
        Backend {
            ip: u32::from_be_bytes([10, 0, 0, 10]),
            port: 8080,
        },
        Backend {
            ip: u32::from_be_bytes([10, 0, 0, 11]),
            port: 8080,
        },
        Backend {
            ip: u32::from_be_bytes([10, 0, 0, 12]),
            port: 8080,
        },
    ];

    let mut lb = LoadBalancer::new(backends);

    let flow1 = FlowKey {
        src_ip: u32::from_be_bytes([192, 168, 1, 10]),
        dst_ip: u32::from_be_bytes([10, 0, 0, 100]),
        src_port: 50000,
        dst_port: 80,
        protocol: 6,
    };

    let flow2 = FlowKey {
        src_ip: u32::from_be_bytes([192, 168, 1, 20]),
        dst_ip: u32::from_be_bytes([10, 0, 0, 100]),
        src_port: 50001,
        dst_port: 80,
        protocol: 6,
    };

    let backend1 = lb.lookup(flow1);
    let backend2 = lb.lookup(flow2);

    // New flows should be distributed.
    assert_eq!(backend1.ip, u32::from_be_bytes([10, 0, 0, 10]));
    assert_eq!(backend2.ip, u32::from_be_bytes([10, 0, 0, 11]));

    // The same flow must return the same backend.
    let backend1_again = lb.lookup(flow1);

    assert_eq!(backend1_again.ip, backend1.ip);
    assert_eq!(backend1_again.port, backend1.port);
}

#[test]
fn round_robin_wraps_around() {
    let mut lb = LoadBalancer::new(backends(2));
    let ips: Vec<u32> = (0..5).map(|i| lb.lookup(flow(i, 40000 + i as u16)).ip).collect();
    let a = u32::from_be_bytes([10, 0, 0, 10]);
    let b = u32::from_be_bytes([10, 0, 0, 11]);
    assert_eq!(ips, vec![a, b, a, b, a]);
}

#[test]
fn known_flow_keeps_backend_after_other_flows() {
    let mut lb = LoadBalancer::new(backends(3));
    let first = lb.lookup(flow(1, 1000));
    for i in 2..10 {
        lb.lookup(flow(i, 1000));
    }
    let again = lb.lookup(flow(1, 1000));
    assert_eq!(again.ip, first.ip);
    assert_eq!(again.port, first.port);
    // Nine new flows went round three backends three times; the repeated
    // lookup of a known flow did not advance the round robin.
    let next_new = lb.lookup(flow(50, 1000));
    assert_eq!(next_new.ip, u32::from_be_bytes([10, 0, 0, 10]));
    let after = lb.lookup(flow(51, 1000));
    assert_eq!(after.ip, u32::from_be_bytes([10, 0, 0, 11]));
}

#[test]
fn flows_differing_in_one_field_are_distinct() {
    let mut lb = LoadBalancer::new(backends(4));
    let base = flow(1, 1000);
    let mut other_protocol = base;
    other_protocol.protocol = 17;
    let mut other_dst_port = base;
    other_dst_port.dst_port = 81;
    let b0 = lb.lookup(base);
    let b1 = lb.lookup(other_protocol);
    let b2 = lb.lookup(other_dst_port);
    assert_eq!(b0.ip, u32::from_be_bytes([10, 0, 0, 10]));
    assert_eq!(b1.ip, u32::from_be_bytes([10, 0, 0, 11]));
    assert_eq!(b2.ip, u32::from_be_bytes([10, 0, 0, 12]));
}

#[test]
fn single_backend_serves_every_flow() {
    let mut lb = LoadBalancer::new(vec![Backend { ip: 7, port: 9 }]);
    for i in 0..4 {
        let b = lb.lookup(flow(i, 2000));
        assert_eq!(b.ip, 7);
        assert_eq!(b.port, 9);
    }
}
