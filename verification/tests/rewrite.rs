use aether::data_plane::parser::{EthernetHeader, Ipv4Header, TcpHeader};
use aether::data_plane::rewrite::{rewrite_ipv4_tcp_destination, HeaderLengths};
use aether::data_plane::worker::{WORKER_BACKEND_IP, WORKER_BACKEND_PORT};

/// Ethernet + IPv4 (with `ip_opts` bytes of options) + TCP (with `tcp_opts`
/// bytes of options) + a payload of four bytes.
fn packet(ip_opts: usize, tcp_opts: usize) -> Vec<u8> {
    let mut p = vec![
        0x02, 0x00, 0x00, 0x00, 0x00, 0x01, // dst mac
        0x02, 0x00, 0x00, 0x00, 0x00, 0x02, // src mac
        0x08, 0x00, // ethertype IPv4
    ];
    let ihl = ((20 + ip_opts) / 4) as u8;
    p.extend_from_slice(&[
        0x40 | ihl, 0x00, 0x00, 0x3c, // version/ihl, dscp, total length
        0x1c, 0x46, 0x40, 0x00, // id, flags/fragment
        0x40, 0x06, 0xb1, 0xe6, // ttl, protocol TCP, checksum
        192, 168, 1, 10, // src
        10, 0, 0, 100, // dst
    ]);
    p.extend(std::iter::repeat(0x01).take(ip_opts));
    let doff = ((20 + tcp_opts) / 4) as u8;
    p.extend_from_slice(&[
        0xc3, 0x50, 0x00, 0x50, // src port 50000, dst port 80
        0x00, 0x00, 0x00, 0x01, // seq
        0x00, 0x00, 0x00, 0x00, // ack
        doff << 4, 0x02, 0xfa, 0xf0, // data offset, flags, window
        0x12, 0x34, 0x00, 0x00, // checksum, urgent
    ]);
    p.extend(std::iter::repeat(0x01).take(tcp_opts));
    p.extend_from_slice(&[0xde, 0xad, 0xbe, 0xef]);
    p
}

#[test]
fn headers_parse_in_network_order() {
    let p = packet(0, 0);
    let eth = EthernetHeader::parse(&p, 0).unwrap();
    assert_eq!(eth.ether_type, 0x0800);
    assert_eq!(eth.dst_addr, [0x02, 0, 0, 0, 0, 0x01]);
    assert_eq!(eth.src_addr, [0x02, 0, 0, 0, 0, 0x02]);
    let ip = Ipv4Header::parse(&p, 14).unwrap();
    assert_eq!(ip.version_ihl, 0x45);
    assert_eq!(ip.total_length, 60);
    assert_eq!(ip.identification, 0x1c46);
    assert_eq!(ip.fragment_offset, 0x4000);
    assert_eq!(ip.ttl, 64);
    assert_eq!(ip.next_protocol, 6);
    assert_eq!(ip.header_checksum, 0xb1e6);
    assert_eq!(ip.src_addr, u32::from_be_bytes([192, 168, 1, 10]));
    assert_eq!(ip.dst_addr, u32::from_be_bytes([10, 0, 0, 100]));
    let tcp = TcpHeader::parse(&p, 34).unwrap();
    assert_eq!(tcp.src_port, 50000);
    assert_eq!(tcp.dst_port, 80);
    assert_eq!(tcp.sequence_number, 1);
    assert_eq!(tcp.acknowledgment_number, 0);
    assert_eq!(tcp.data_offset_flags, 0x5002);
    assert_eq!(tcp.window_size, 0xfaf0);
    assert_eq!(tcp.checksum, 0x1234);
    assert_eq!(tcp.urgent_pointer, 0);
}

#[test]
fn short_input_does_not_parse() {
    let p = packet(0, 0);
    assert!(EthernetHeader::parse(&p[..13], 0).is_none());
    assert!(Ipv4Header::parse(&p[..33], 14).is_none());
    assert!(TcpHeader::parse(&p[..53], 34).is_none());
    assert!(TcpHeader::parse(&p, usize::MAX).is_none());
    assert!(TcpHeader::parse(&p, p.len() - 19).is_none());
    assert!(TcpHeader::parse(&p, p.len() - 20).is_some());
}

#[test]
fn rewrite_sets_destination_and_nothing_else() {
    let original = packet(0, 0);
    let mut p = original.clone();
    let r = rewrite_ipv4_tcp_destination(&mut p, u32::from_be_bytes([10, 0, 0, 11]), 8080);
    assert_eq!(r, Some(HeaderLengths { l2_len: 14, l3_len: 20, l4_len: 20 }));
    assert_eq!(&p[30..34], &[10, 0, 0, 11]);
    assert_eq!(&p[36..38], &[0x1f, 0x90]);
    for i in 0..p.len() {
        if !(30..34).contains(&i) && !(36..38).contains(&i) {
            assert_eq!(p[i], original[i], "byte {} changed", i);
        }
    }
    assert_eq!(Ipv4Header::parse(&p, 14).unwrap().dst_addr, 0x0A00_000B);
    assert_eq!(TcpHeader::parse(&p, 34).unwrap().dst_port, 8080);
}

#[test]
fn rewrite_follows_header_options() {
    let mut p = packet(8, 12);
    let r = rewrite_ipv4_tcp_destination(&mut p, 0x01020304, 0xabcd);
    assert_eq!(r, Some(HeaderLengths { l2_len: 14, l3_len: 28, l4_len: 32 }));
    assert_eq!(&p[30..34], &[1, 2, 3, 4]);
    assert_eq!(&p[44..46], &[0xab, 0xcd]);
}

#[test]
fn rewrite_is_idempotent() {
    let mut once = packet(4, 4);
    rewrite_ipv4_tcp_destination(&mut once, 0xc0a80001, 443);
    let mut twice = once.clone();
    let r = rewrite_ipv4_tcp_destination(&mut twice, 0xc0a80001, 443);
    assert!(r.is_some());
    assert_eq!(once, twice);
}

fn assert_refused(mut p: Vec<u8>) {
    let before = p.clone();
    assert_eq!(rewrite_ipv4_tcp_destination(&mut p, 1, 2), None);
    assert_eq!(p, before);
}

#[test]
fn rewrite_refuses_non_ipv4_tcp_packets() {
    // Too short for an Ethernet header.
    assert_refused(vec![0u8; 13]);
    assert_refused(Vec::new());
    // Not IPv4.
    let mut p = packet(0, 0);
    p[12] = 0x86;
    p[13] = 0xdd;
    assert_refused(p);
    // IPv4 header cut short.
    assert_refused(packet(0, 0)[..33].to_vec());
    // IP version 6 in an IPv4 frame.
    let mut p = packet(0, 0);
    p[14] = 0x65;
    assert_refused(p);
    // IHL below five words.
    let mut p = packet(0, 0);
    p[14] = 0x44;
    assert_refused(p);
    // IPv4 options run past the end.
    let mut p = packet(0, 0);
    p[14] = 0x4f;
    p.truncate(14 + 59);
    assert_refused(p);
    // UDP instead of TCP.
    let mut p = packet(0, 0);
    p[23] = 17;
    assert_refused(p);
    // TCP header cut short.
    assert_refused(packet(0, 0)[..53].to_vec());
    // TCP data offset below five words.
    let mut p = packet(0, 0);
    p[46] = 0x40;
    assert_refused(p);
    // TCP options run past the end.
    let mut p = packet(0, 0);
    p[46] = 0xf0;
    assert_refused(p);
}

#[test]
fn rewrite_accepts_exact_length_packet() {
    let mut p = packet(0, 0);
    p.truncate(54);
    assert!(rewrite_ipv4_tcp_destination(&mut p, 1, 2).is_some());
}

#[test]
fn worker_backend_is_10_0_0_11_port_8080() {
    assert_eq!(WORKER_BACKEND_IP, u32::from_be_bytes([10, 0, 0, 11]));
    assert_eq!(WORKER_BACKEND_PORT, 8080);
}
