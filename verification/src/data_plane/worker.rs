use vstd::prelude::*;

verus! {

/// IPv4 address, as a host-order number, that the packet worker steers every
/// TCP packet to: 10.0.0.11.
pub const WORKER_BACKEND_IP: u32 = 0x0A00_000B;

/// TCP port that the packet worker steers every TCP packet to.
pub const WORKER_BACKEND_PORT: u16 = 8080;

} // verus!
