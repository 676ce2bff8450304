# aether

The packet-processing core of a three-core DPDK data plane, verified with Verus.

- `src/data_plane/parser.rs` – Ethernet, IPv4, TCP and UDP wire headers and
  their big-endian decoding.
- `src/data_plane/rewrite.rs` – classification of Ethernet/IPv4/TCP packets and
  the in-place rewrite of their destination address and port.
- `src/data_plane/lb.rs` – a flow-sticky, round-robin load balancer.
- `src/data_plane/queue.rs` – packet handles and the bounded queues (crossbeam's
  `ArrayQueue`) between the polling threads.
- `src/data_plane/pmd.rs`, `tx.rs` – the decisions of the receive poller (which
  packets a full queue refused) and of the transmit batcher.
- `src/data_plane/worker.rs` – the backend address and port the packet worker
  steers traffic to.
- `app/` – the program: DPDK initialisation and FFI, thread pinning, and the
  polling loops, which call into the library.
