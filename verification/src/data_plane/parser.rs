use vstd::prelude::*;

verus! {

/// Bytes of an Ethernet header on the wire.
pub const ETHERNET_HEADER_LEN: usize = 14;

/// Bytes of an IPv4 header without options.
pub const IPV4_HEADER_LEN: usize = 20;

/// Bytes of a TCP header without options.
pub const TCP_HEADER_LEN: usize = 20;

/// Bytes of a UDP header on the wire.
pub const UDP_HEADER_LEN: usize = 8;

/// The 16-bit value that two bytes hold in network (big-endian) order.
pub open spec fn be_u16(hi: u8, lo: u8) -> u16 {
    ((hi as u16) << 8u16) | (lo as u16)
}

/// The 32-bit value that four bytes hold in network (big-endian) order.
pub open spec fn be_u32(b0: u8, b1: u8, b2: u8, b3: u8) -> u32 {
    ((b0 as u32) << 24u32) | ((b1 as u32) << 16u32) | ((b2 as u32) << 8u32) | (b3 as u32)
}

/// An Ethernet header. Multi-byte fields hold host values; on the wire they
/// are big-endian.
#[derive(Clone, Copy, Debug)]
pub struct EthernetHeader {
    pub dst_addr: [u8; 6],
    pub src_addr: [u8; 6],
    pub ether_type: u16,
}

/// A fixed-size IPv4 header (options excluded). Multi-byte fields hold host
/// values; on the wire they are big-endian.
#[derive(Clone, Copy, Debug)]
pub struct Ipv4Header {
    pub version_ihl: u8,
    pub dscp_ecn: u8,
    pub total_length: u16,
    pub identification: u16,
    pub fragment_offset: u16,
    pub ttl: u8,
    pub next_protocol: u8,
    pub header_checksum: u16,
    pub src_addr: u32,
    pub dst_addr: u32,
}

/// A fixed-size TCP header (options excluded). Multi-byte fields hold host
/// values; on the wire they are big-endian.
#[derive(Clone, Copy, Debug)]
pub struct TcpHeader {
    pub src_port: u16,
    pub dst_port: u16,
    pub sequence_number: u32,
    pub acknowledgment_number: u32,
    pub data_offset_flags: u16,
    pub window_size: u16,
    pub checksum: u16,
    pub urgent_pointer: u16,
}

/// A UDP header. Multi-byte fields hold host values; on the wire they are
/// big-endian.
#[derive(Clone, Copy, Debug)]
pub struct UdpHeader {
    pub src_port: u16,
    pub dst_port: u16,
    pub length: u16,
    pub checksum: u16,
}

/// The Ethernet header whose first byte is `s[off]`.
pub open spec fn ethernet_header_at(s: Seq<u8>, off: int) -> EthernetHeader {
    EthernetHeader {
        dst_addr: [s[off], s[off + 1], s[off + 2], s[off + 3], s[off + 4], s[off + 5]],
        src_addr: [s[off + 6], s[off + 7], s[off + 8], s[off + 9], s[off + 10], s[off + 11]],
        ether_type: be_u16(s[off + 12], s[off + 13]),
    }
}

/// The fixed IPv4 header whose first byte is `s[off]`.
pub open spec fn ipv4_header_at(s: Seq<u8>, off: int) -> Ipv4Header {
    Ipv4Header {
        version_ihl: s[off],
        dscp_ecn: s[off + 1],
        total_length: be_u16(s[off + 2], s[off + 3]),
        identification: be_u16(s[off + 4], s[off + 5]),
        fragment_offset: be_u16(s[off + 6], s[off + 7]),
        ttl: s[off + 8],
        next_protocol: s[off + 9],
        header_checksum: be_u16(s[off + 10], s[off + 11]),
        src_addr: be_u32(s[off + 12], s[off + 13], s[off + 14], s[off + 15]),
        dst_addr: be_u32(s[off + 16], s[off + 17], s[off + 18], s[off + 19]),
    }
}

/// The fixed TCP header whose first byte is `s[off]`.
pub open spec fn tcp_header_at(s: Seq<u8>, off: int) -> TcpHeader {
    TcpHeader {
        src_port: be_u16(s[off], s[off + 1]),
        dst_port: be_u16(s[off + 2], s[off + 3]),
        sequence_number: be_u32(s[off + 4], s[off + 5], s[off + 6], s[off + 7]),
        acknowledgment_number: be_u32(s[off + 8], s[off + 9], s[off + 10], s[off + 11]),
        data_offset_flags: be_u16(s[off + 12], s[off + 13]),
        window_size: be_u16(s[off + 14], s[off + 15]),
        checksum: be_u16(s[off + 16], s[off + 17]),
        urgent_pointer: be_u16(s[off + 18], s[off + 19]),
    }
}

/// The two bytes that carry `x` on the wire, most significant first.
pub open spec fn u16_wire(x: u16) -> Seq<u8> {
    seq![(x >> 8u16) as u8, x as u8]
}

/// The four bytes that carry `x` on the wire, most significant first.
pub open spec fn u32_wire(x: u32) -> Seq<u8> {
    seq![(x >> 24u32) as u8, (x >> 16u32) as u8, (x >> 8u32) as u8, x as u8]
}

/// The 14 wire bytes of an Ethernet header.
pub open spec fn ethernet_header_wire(h: EthernetHeader) -> Seq<u8> {
    h.dst_addr@ + h.src_addr@ + u16_wire(h.ether_type)
}

/// The 20 wire bytes of a fixed IPv4 header.
pub open spec fn ipv4_header_wire(h: Ipv4Header) -> Seq<u8> {
    seq![h.version_ihl, h.dscp_ecn] + u16_wire(h.total_length) + u16_wire(h.identification)
        + u16_wire(h.fragment_offset) + seq![h.ttl, h.next_protocol] + u16_wire(h.header_checksum)
        + u32_wire(h.src_addr) + u32_wire(h.dst_addr)
}

/// The 20 wire bytes of a fixed TCP header.
pub open spec fn tcp_header_wire(h: TcpHeader) -> Seq<u8> {
    u16_wire(h.src_port) + u16_wire(h.dst_port) + u32_wire(h.sequence_number) + u32_wire(
        h.acknowledgment_number,
    ) + u16_wire(h.data_offset_flags) + u16_wire(h.window_size) + u16_wire(h.checksum) + u16_wire(
        h.urgent_pointer,
    )
}

proof fn lemma_u16_wire(a: u8, b: u8, x: u16)
    ensures
        be_u16((x >> 8u16) as u8, x as u8) == x,
        ((be_u16(a, b) >> 8u16) as u8) == a,
        (be_u16(a, b) as u8) == b,
{
    assert(((((x >> 8u16) as u8) as u16) << 8u16) | ((x as u8) as u16) == x) by (bit_vector);
    assert((((((a as u16) << 8u16) | (b as u16)) >> 8u16) as u8) == a) by (bit_vector);
    assert(((((a as u16) << 8u16) | (b as u16)) as u8) == b) by (bit_vector);
}

proof fn lemma_u32_wire(a: u8, b: u8, c: u8, d: u8, x: u32)
    ensures
        be_u32((x >> 24u32) as u8, (x >> 16u32) as u8, (x >> 8u32) as u8, x as u8) == x,
        ((be_u32(a, b, c, d) >> 24u32) as u8) == a,
        ((be_u32(a, b, c, d) >> 16u32) as u8) == b,
        ((be_u32(a, b, c, d) >> 8u32) as u8) == c,
        (be_u32(a, b, c, d) as u8) == d,
{
    assert(((((x >> 24u32) as u8) as u32) << 24u32) | ((((x >> 16u32) as u8) as u32) << 16u32) | (
    (((x >> 8u32) as u8) as u32) << 8u32) | ((x as u8) as u32) == x) by (bit_vector);
    let v = ((a as u32) << 24u32) | ((b as u32) << 16u32) | ((c as u32) << 8u32) | (d as u32);
    assert(((((a as u32) << 24u32) | ((b as u32) << 16u32) | ((c as u32) << 8u32) | (d as u32))
        >> 24u32) as u8 == a) by (bit_vector);
    assert(((((a as u32) << 24u32) | ((b as u32) << 16u32) | ((c as u32) << 8u32) | (d as u32))
        >> 16u32) as u8 == b) by (bit_vector);
    assert(((((a as u32) << 24u32) | ((b as u32) << 16u32) | ((c as u32) << 8u32) | (d as u32))
        >> 8u32) as u8 == c) by (bit_vector);
    assert((((a as u32) << 24u32) | ((b as u32) << 16u32) | ((c as u32) << 8u32) | (d as u32))
        as u8 == d) by (bit_vector);
}

/// Reading an Ethernet header back from its wire bytes gives the header, and
/// the wire bytes of the header read at `off` are the 14 bytes found there.
pub proof fn lemma_ethernet_wire_round_trip(h: EthernetHeader, s: Seq<u8>, off: int)
    requires
        0 <= off,
        off + ETHERNET_HEADER_LEN <= s.len(),
    ensures
        ethernet_header_at(ethernet_header_wire(h), 0) == h,
        ethernet_header_wire(ethernet_header_at(s, off)) == s.subrange(
            off,
            off + ETHERNET_HEADER_LEN,
        ),
{
    lemma_u16_wire(s[off + 12], s[off + 13], h.ether_type);
    let w = ethernet_header_wire(h);
    let g = ethernet_header_at(w, 0);
    assert(g.dst_addr@ =~= h.dst_addr@);
    assert(g.src_addr@ =~= h.src_addr@);
    assert(g.dst_addr == h.dst_addr);
    assert(g.src_addr == h.src_addr);
    assert(ethernet_header_wire(ethernet_header_at(s, off)) =~= s.subrange(
        off,
        off + ETHERNET_HEADER_LEN,
    ));
}

/// Reading an IPv4 header back from its wire bytes gives the header, and the
/// wire bytes of the header read at `off` are the 20 bytes found there.
pub proof fn lemma_ipv4_wire_round_trip(h: Ipv4Header, s: Seq<u8>, off: int)
    requires
        0 <= off,
        off + IPV4_HEADER_LEN <= s.len(),
    ensures
        ipv4_header_at(ipv4_header_wire(h), 0) == h,
        ipv4_header_wire(ipv4_header_at(s, off)) == s.subrange(off, off + IPV4_HEADER_LEN),
{
    lemma_u16_wire(s[off + 2], s[off + 3], h.total_length);
    lemma_u16_wire(s[off + 4], s[off + 5], h.identification);
    lemma_u16_wire(s[off + 6], s[off + 7], h.fragment_offset);
    lemma_u16_wire(s[off + 10], s[off + 11], h.header_checksum);
    lemma_u32_wire(s[off + 12], s[off + 13], s[off + 14], s[off + 15], h.src_addr);
    lemma_u32_wire(s[off + 16], s[off + 17], s[off + 18], s[off + 19], h.dst_addr);
    assert(ipv4_header_at(ipv4_header_wire(h), 0) == h);
    assert(ipv4_header_wire(ipv4_header_at(s, off)) =~= s.subrange(off, off + IPV4_HEADER_LEN));
}

/// Reading a TCP header back from its wire bytes gives the header, and the
/// wire bytes of the header read at `off` are the 20 bytes found there.
pub proof fn lemma_tcp_wire_round_trip(h: TcpHeader, s: Seq<u8>, off: int)
    requires
        0 <= off,
        off + TCP_HEADER_LEN <= s.len(),
    ensures
        tcp_header_at(tcp_header_wire(h), 0) == h,
        tcp_header_wire(tcp_header_at(s, off)) == s.subrange(off, off + TCP_HEADER_LEN),
{
    lemma_u16_wire(s[off], s[off + 1], h.src_port);
    lemma_u16_wire(s[off + 2], s[off + 3], h.dst_port);
    lemma_u32_wire(s[off + 4], s[off + 5], s[off + 6], s[off + 7], h.sequence_number);
    lemma_u32_wire(s[off + 8], s[off + 9], s[off + 10], s[off + 11], h.acknowledgment_number);
    lemma_u16_wire(s[off + 12], s[off + 13], h.data_offset_flags);
    lemma_u16_wire(s[off + 14], s[off + 15], h.window_size);
    lemma_u16_wire(s[off + 16], s[off + 17], h.checksum);
    lemma_u16_wire(s[off + 18], s[off + 19], h.urgent_pointer);
    assert(tcp_header_at(tcp_header_wire(h), 0) == h);
    assert(tcp_header_wire(tcp_header_at(s, off)) =~= s.subrange(off, off + TCP_HEADER_LEN));
}

/// Each header is read from its own bytes alone: the Ethernet header from 14
/// bytes, the fixed IPv4 and TCP headers from 20 each.
pub proof fn lemma_header_extents(s: Seq<u8>, off: int)
    requires
        0 <= off,
    ensures
        off + ETHERNET_HEADER_LEN <= s.len() ==> ethernet_header_at(s, off) == ethernet_header_at(
            s.subrange(off, off + ETHERNET_HEADER_LEN),
            0,
        ),
        off + IPV4_HEADER_LEN <= s.len() ==> ipv4_header_at(s, off) == ipv4_header_at(
            s.subrange(off, off + IPV4_HEADER_LEN),
            0,
        ),
        off + TCP_HEADER_LEN <= s.len() ==> tcp_header_at(s, off) == tcp_header_at(
            s.subrange(off, off + TCP_HEADER_LEN),
            0,
        ),
{
}

fn read_be_u16(p: &[u8], i: usize) -> (v: u16)
    requires
        i + 2 <= p@.len(),
    ensures
        v == be_u16(p@[i as int], p@[i + 1]),
{
    ((p[i] as u16) << 8u16) | (p[i + 1] as u16)
}

fn read_be_u32(p: &[u8], i: usize) -> (v: u32)
    requires
        i + 4 <= p@.len(),
    ensures
        v == be_u32(p@[i as int], p@[i + 1], p@[i + 2], p@[i + 3]),
{
    ((p[i] as u32) << 24u32) | ((p[i + 1] as u32) << 16u32) | ((p[i + 2] as u32) << 8u32) | (
    p[i + 3] as u32)
}

impl EthernetHeader {
    /// Reads the Ethernet header at byte `off` of `packet`; `None` when the
    /// packet ends before the header does.
    pub fn parse(packet: &[u8], off: usize) -> (h: Option<EthernetHeader>)
        ensures
            h == (if off + ETHERNET_HEADER_LEN <= packet@.len() {
                Some(ethernet_header_at(packet@, off as int))
            } else {
                None
            }),
    {
        if off > packet.len() || packet.len() - off < ETHERNET_HEADER_LEN {
            return None;
        }
        let o = off;
        Some(
            EthernetHeader {
                dst_addr: [packet[o], packet[o + 1], packet[o + 2], packet[o + 3], packet[o + 4], packet[o + 5]],
                src_addr: [packet[o + 6], packet[o + 7], packet[o + 8], packet[o + 9], packet[o + 10], packet[o + 11]],
                ether_type: read_be_u16(packet, o + 12),
            },
        )
    }
}

impl Ipv4Header {
    /// Reads the fixed IPv4 header at byte `off` of `packet`; `None` when the
    /// packet ends before the fixed header does.
    pub fn parse(packet: &[u8], off: usize) -> (h: Option<Ipv4Header>)
        ensures
            h == (if off + IPV4_HEADER_LEN <= packet@.len() {
                Some(ipv4_header_at(packet@, off as int))
            } else {
                None
            }),
    {
        if off > packet.len() || packet.len() - off < IPV4_HEADER_LEN {
            return None;
        }
        let o = off;
        Some(
            Ipv4Header {
                version_ihl: packet[o],
                dscp_ecn: packet[o + 1],
                total_length: read_be_u16(packet, o + 2),
                identification: read_be_u16(packet, o + 4),
                fragment_offset: read_be_u16(packet, o + 6),
                ttl: packet[o + 8],
                next_protocol: packet[o + 9],
                header_checksum: read_be_u16(packet, o + 10),
                src_addr: read_be_u32(packet, o + 12),
                dst_addr: read_be_u32(packet, o + 16),
            },
        )
    }
}

impl TcpHeader {
    /// Reads the fixed TCP header at byte `off` of `packet`; `None` when the
    /// packet ends before the fixed header does.
    pub fn parse(packet: &[u8], off: usize) -> (h: Option<TcpHeader>)
        ensures
            h == (if off + TCP_HEADER_LEN <= packet@.len() {
                Some(tcp_header_at(packet@, off as int))
            } else {
                None
            }),
    {
        if off > packet.len() || packet.len() - off < TCP_HEADER_LEN {
            return None;
        }
        let o = off;
        Some(
            TcpHeader {
                src_port: read_be_u16(packet, o),
                dst_port: read_be_u16(packet, o + 2),
                sequence_number: read_be_u32(packet, o + 4),
                acknowledgment_number: read_be_u32(packet, o + 8),
                data_offset_flags: read_be_u16(packet, o + 12),
                window_size: read_be_u16(packet, o + 14),
                checksum: read_be_u16(packet, o + 16),
                urgent_pointer: read_be_u16(packet, o + 18),
            },
        )
    }
}

} // verus!
