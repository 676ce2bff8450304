use vstd::prelude::*;

use crate::data_plane::parser::{
    be_u16,
    be_u32,
    EthernetHeader,
    Ipv4Header,
    TcpHeader,
    ETHERNET_HEADER_LEN,
    IPV4_HEADER_LEN,
    TCP_HEADER_LEN,
    ethernet_header_at,
    ipv4_header_at,
    tcp_header_at,
};

verus! {

/// EtherType of an IPv4 payload.
pub const ETHERTYPE_IPV4: u16 = 0x0800;

/// IP protocol number of TCP.
pub const IP_PROTOCOL_TCP: u8 = 6;

/// The header lengths of an Ethernet/IPv4/TCP packet, as the checksum offload
/// of the transmit path needs them.
#[derive(Clone, Copy, Debug, PartialEq, Eq, Structural)]
pub struct HeaderLengths {
    pub l2_len: u16,
    pub l3_len: u16,
    pub l4_len: u16,
}

/// Length in bytes of an IPv4 header, options included, from its IHL field.
pub open spec fn ipv4_header_len(ip: Ipv4Header) -> int {
    ((ip.version_ihl & 0x0fu8) as int) * 4
}

/// Length in bytes of a TCP header, options included, from its data offset.
pub open spec fn tcp_header_len(tcp: TcpHeader) -> int {
    ((tcp.data_offset_flags >> 12u16) as int) * 4
}

/// The header layout of `s` when it is a well-formed Ethernet/IPv4/TCP packet:
/// IPv4 EtherType, IP version 4, an IHL of at least 5 words, protocol TCP, a
/// TCP data offset of at least 5 words, and every header complete within `s`.
/// `None` for any other packet.
pub open spec fn ipv4_tcp_layout(s: Seq<u8>) -> Option<HeaderLengths> {
    let eth_len = ETHERNET_HEADER_LEN as int;
    if s.len() < eth_len {
        None
    } else if ethernet_header_at(s, 0).ether_type != ETHERTYPE_IPV4 {
        None
    } else if s.len() < eth_len + IPV4_HEADER_LEN {
        None
    } else {
        let ip = ipv4_header_at(s, eth_len);
        let ip_len = ipv4_header_len(ip);
        if ip.version_ihl >> 4u8 != 4 {
            None
        } else if ip_len < 20 {
            None
        } else if s.len() < eth_len + ip_len {
            None
        } else if ip.next_protocol != IP_PROTOCOL_TCP {
            None
        } else if s.len() < eth_len + ip_len + TCP_HEADER_LEN {
            None
        } else {
            let tcp_len = tcp_header_len(tcp_header_at(s, eth_len + ip_len));
            if tcp_len < 20 {
                None
            } else if s.len() < eth_len + ip_len + tcp_len {
                None
            } else {
                Some(
                    HeaderLengths {
                        l2_len: eth_len as u16,
                        l3_len: ip_len as u16,
                        l4_len: tcp_len as u16,
                    },
                )
            }
        }
    }
}

/// `s` with the four bytes from `off` on replaced by `x` in network order.
pub open spec fn put_be_u32(s: Seq<u8>, off: int, x: u32) -> Seq<u8> {
    s.update(off, (x >> 24u32) as u8).update(off + 1, (x >> 16u32) as u8).update(
        off + 2,
        (x >> 8u32) as u8,
    ).update(off + 3, x as u8)
}

/// `s` with the two bytes from `off` on replaced by `x` in network order.
pub open spec fn put_be_u16(s: Seq<u8>, off: int, x: u16) -> Seq<u8> {
    s.update(off, (x >> 8u16) as u8).update(off + 1, x as u8)
}

/// Packet `s`, laid out as `l` says, with its IPv4 destination address set
/// to `dst_ip` and its TCP destination port set to `dst_port`.
pub open spec fn rewrite_destination(s: Seq<u8>, l: HeaderLengths, dst_ip: u32, dst_port: u16) -> Seq<
    u8,
> {
    put_be_u16(put_be_u32(s, l.l2_len + 16, dst_ip), l.l2_len + l.l3_len + 2, dst_port)
}

/// Rewrites, in place, the IPv4 destination address and the TCP destination
/// port of an Ethernet/IPv4/TCP packet. Returns the header lengths when the
/// packet has that form, and `None`, leaving the packet untouched, otherwise.
pub fn rewrite_ipv4_tcp_destination(packet: &mut [u8], dst_ip: u32, dst_port: u16) -> (r: Option<
    HeaderLengths,
>)
    ensures
        r == ipv4_tcp_layout(old(packet)@),
        match r {
            None => final(packet)@ == old(packet)@,
            Some(l) => final(packet)@ == rewrite_destination(old(packet)@, l, dst_ip, dst_port),
        },
{
    let packet_len = packet.len();
    let eth_len = ETHERNET_HEADER_LEN;

    // The packet must hold an Ethernet header carrying IPv4.
    let ethernet_header = match EthernetHeader::parse(packet, 0) {
        Some(h) => h,
        None => return None,
    };
    if ethernet_header.ether_type != ETHERTYPE_IPV4 {
        return None;
    }
    // The fixed IPv4 header follows the Ethernet header.
    let ipv4_header = match Ipv4Header::parse(packet, eth_len) {
        Some(h) => h,
        None => return None,
    };
    let version = ipv4_header.version_ihl >> 4u8;
    if version != 4 {
        return None;
    }
    let ihl = (ipv4_header.version_ihl & 0x0fu8) as usize;
    let ipv4_header_len = ihl * 4;
    if ipv4_header_len < 20 {
        return None;
    }
    if packet_len < eth_len + ipv4_header_len {
        return None;
    }
    if ipv4_header.next_protocol != IP_PROTOCOL_TCP {
        return None;
    }
    // The TCP header follows the complete IPv4 header.
    let tcp_offset = eth_len + ipv4_header_len;
    let tcp_header = match TcpHeader::parse(packet, tcp_offset) {
        Some(h) => h,
        None => return None,
    };
    let flags = tcp_header.data_offset_flags;
    assert(flags >> 12u16 <= 15) by (bit_vector);
    let tcp_data_offset = (flags >> 12u16) as usize;
    let tcp_header_len = tcp_data_offset * 4;
    if tcp_header_len < 20 {
        return None;
    }
    if packet_len < tcp_offset + tcp_header_len {
        return None;
    }

    // Destination address, bytes 16..20 of the IPv4 header, network order.
    let ip_at = eth_len + 16;
    packet[ip_at] = (dst_ip >> 24u32) as u8;
    packet[ip_at + 1] = (dst_ip >> 16u32) as u8;
    packet[ip_at + 2] = (dst_ip >> 8u32) as u8;
    packet[ip_at + 3] = dst_ip as u8;

    // Destination port, bytes 2..4 of the TCP header, network order.
    let port_at = tcp_offset + 2;
    packet[port_at] = (dst_port >> 8u16) as u8;
    packet[port_at + 1] = dst_port as u8;

    Some(
        HeaderLengths {
            l2_len: eth_len as u16,
            l3_len: ipv4_header_len as u16,
            l4_len: tcp_header_len as u16,
        },
    )
}

/// Whether `s` is taken as an Ethernet/IPv4/TCP packet, read off its raw
/// bytes: EtherType bytes 0x08 0x00, IP version nibble 4, an IHL of at least
/// five words, protocol byte 6, a TCP data offset of at least five words, and
/// a length that holds every header.
pub open spec fn accepted_by_raw_bytes(s: Seq<u8>) -> bool {
    let ip_len = ((s[14] & 0x0fu8) as int) * 4;
    let tcp_len = ((s[14 + ip_len + 12] >> 4u8) as int) * 4;
    &&& s.len() >= 34
    &&& s[12] == 0x08u8
    &&& s[13] == 0x00u8
    &&& s[14] >> 4u8 == 4u8
    &&& ip_len >= 20
    &&& s[23] == 6u8
    &&& s.len() >= 14 + ip_len + 20
    &&& tcp_len >= 20
    &&& s.len() >= 14 + ip_len + tcp_len
}

proof fn lemma_ether_type_bytes(a: u8, b: u8)
    ensures
        (be_u16(a, b) == 0x0800u16) <==> (a == 0x08u8 && b == 0x00u8),
        (be_u16(a, b) >> 12u16) as int == (a >> 4u8) as int,
{
    assert((((a as u16) << 8u16) | (b as u16)) == 0x0800u16 <==> (a == 0x08u8 && b == 0x00u8))
        by (bit_vector);
    assert(((((a as u16) << 8u16) | (b as u16)) >> 12u16) == ((a >> 4u8) as u16)) by (bit_vector);
}

/// A packet is accepted exactly when its raw bytes say it is an
/// Ethernet/IPv4/TCP packet with complete headers, whatever its other bytes
/// (TCP flags, addresses, ports, payload) hold; the lengths returned are 14,
/// four times the IHL, and four times the TCP data offset.
pub proof fn lemma_layout_from_raw_bytes(s: Seq<u8>)
    ensures
        ipv4_tcp_layout(s) is Some <==> accepted_by_raw_bytes(s),
        accepted_by_raw_bytes(s) ==> ipv4_tcp_layout(s) == Some(
            HeaderLengths {
                l2_len: 14,
                l3_len: (((s[14] & 0x0fu8) as int) * 4) as u16,
                l4_len: (((s[14 + ((s[14] & 0x0fu8) as int) * 4 + 12] >> 4u8) as int) * 4) as u16,
            },
        ),
{
    lemma_ether_type_bytes(s[12], s[13]);
    let ip_len = ((s[14] & 0x0fu8) as int) * 4;
    lemma_ether_type_bytes(s[14 + ip_len + 12], s[14 + ip_len + 13]);
}

/// Two packets of the same length that agree on the EtherType bytes, the
/// version/IHL byte, the protocol byte and the TCP data-offset nibble are
/// either both accepted, with the same header lengths, or both refused.
pub proof fn lemma_layout_depends_only_on_classifying_bytes(s: Seq<u8>, t: Seq<u8>)
    requires
        s.len() == t.len(),
        s.len() >= 34,
        s[12] == t[12],
        s[13] == t[13],
        s[14] == t[14],
        s[23] == t[23],
        s.len() >= 14 + ((s[14] & 0x0fu8) as int) * 4 + 20 ==> s[14 + ((s[14] & 0x0fu8) as int) * 4
            + 12] >> 4u8 == t[14 + ((s[14] & 0x0fu8) as int) * 4 + 12] >> 4u8,
    ensures
        ipv4_tcp_layout(s) == ipv4_tcp_layout(t),
{
    lemma_layout_from_raw_bytes(s);
    lemma_layout_from_raw_bytes(t);
}

proof fn lemma_be_u32_of_bytes(x: u32)
    ensures
        be_u32((x >> 24u32) as u8, (x >> 16u32) as u8, (x >> 8u32) as u8, x as u8) == x,
{
    assert(((((x >> 24u32) as u8) as u32) << 24u32) | ((((x >> 16u32) as u8) as u32) << 16u32) | (
    (((x >> 8u32) as u8) as u32) << 8u32) | ((x as u8) as u32) == x) by (bit_vector);
}

proof fn lemma_be_u16_of_bytes(x: u16)
    ensures
        be_u16((x >> 8u16) as u8, x as u8) == x,
{
    assert(((((x >> 8u16) as u8) as u16) << 8u16) | ((x as u8) as u16) == x) by (bit_vector);
}

/// A successful rewrite sets the IPv4 destination address and the TCP
/// destination port to the requested values and changes nothing else: the
/// Ethernet header, every other IPv4 and TCP header field, every byte outside
/// the two rewritten fields, the length and the header layout stay as they
/// were.
pub proof fn lemma_rewrite_sets_destination(s: Seq<u8>, dst_ip: u32, dst_port: u16)
    requires
        ipv4_tcp_layout(s) is Some,
    ensures
        ({
            let l = ipv4_tcp_layout(s).unwrap();
            let t = rewrite_destination(s, l, dst_ip, dst_port);
            let ip_at = l.l2_len as int;
            let tcp_at = l.l2_len + l.l3_len;
            &&& t.len() == s.len()
            &&& ethernet_header_at(t, 0) == ethernet_header_at(s, 0)
            &&& ipv4_header_at(t, ip_at) == (Ipv4Header { dst_addr: dst_ip, ..ipv4_header_at(s, ip_at) })
            &&& tcp_header_at(t, tcp_at) == (TcpHeader { dst_port: dst_port, ..tcp_header_at(s, tcp_at) })
            &&& ipv4_tcp_layout(t) == Some(l)
            &&& forall|i: int|
                0 <= i < s.len() && !(ip_at + 16 <= i < ip_at + 20) && !(tcp_at + 2 <= i < tcp_at + 4)
                    ==> #[trigger] t[i] == s[i]
        }),
{
    let l = ipv4_tcp_layout(s).unwrap();
    let t = rewrite_destination(s, l, dst_ip, dst_port);
    lemma_be_u32_of_bytes(dst_ip);
    lemma_be_u16_of_bytes(dst_port);
    let ip_at = l.l2_len as int;
    let tcp_at = l.l2_len + l.l3_len;
    assert(ethernet_header_at(t, 0) == ethernet_header_at(s, 0));
    assert(ipv4_header_at(t, ip_at) == (Ipv4Header { dst_addr: dst_ip, ..ipv4_header_at(s, ip_at) }));
    assert(tcp_header_at(t, tcp_at) == (TcpHeader { dst_port: dst_port, ..tcp_header_at(s, tcp_at) }));
}

/// Rewriting a packet a second time with the same destination changes
/// nothing.
pub proof fn lemma_rewrite_idempotent(s: Seq<u8>, dst_ip: u32, dst_port: u16)
    requires
        ipv4_tcp_layout(s) is Some,
    ensures
        ({
            let t = rewrite_destination(s, ipv4_tcp_layout(s).unwrap(), dst_ip, dst_port);
            &&& ipv4_tcp_layout(t) == ipv4_tcp_layout(s)
            &&& rewrite_destination(t, ipv4_tcp_layout(t).unwrap(), dst_ip, dst_port) == t
        }),
{
    let l = ipv4_tcp_layout(s).unwrap();
    let t = rewrite_destination(s, l, dst_ip, dst_port);
    lemma_rewrite_sets_destination(s, dst_ip, dst_port);
    assert(rewrite_destination(t, l, dst_ip, dst_port) =~= t);
}

} // verus!
