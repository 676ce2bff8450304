//! Packet-processing core of the Aether data plane: wire-header parsing,
//! in-place destination rewriting, flow-sticky load balancing, the packet
//! queues that connect the polling threads, and the batching decisions of the
//! transmit pipeline.

pub mod data_plane;
