use std::collections::HashMap;
use vstd::prelude::*;

verus! {

/// The key of a communication session: the 5-tuple of addresses, ports and
/// IP protocol.
#[derive(Clone, Copy, PartialEq, Eq, Structural, Hash, Debug)]
pub struct FlowKey {
    pub src_ip: u32,
    pub dst_ip: u32,
    pub src_port: u16,
    pub dst_port: u16,
    pub protocol: u8,
}

/// A server that flows are balanced onto.
#[derive(Clone, Copy, Debug)]
pub struct Backend {
    pub ip: u32,
    pub port: u16,
}

impl FlowKey {
    /// The flow's five fields packed into one 128-bit number, each in bits of
    /// its own.
    pub open spec fn spec_packed(self) -> u128 {
        (self.src_ip as u128) | ((self.dst_ip as u128) << 32u128) | ((self.src_port as u128)
            << 64u128) | ((self.dst_port as u128) << 80u128) | ((self.protocol as u128) << 96u128)
    }

    fn packed(&self) -> (id: u128)
        ensures
            id == self.spec_packed(),
    {
        (self.src_ip as u128) | ((self.dst_ip as u128) << 32u128) | ((self.src_port as u128)
            << 64u128) | ((self.dst_port as u128) << 80u128) | ((self.protocol as u128) << 96u128)
    }

    /// Distinct flows pack to distinct numbers.
    pub proof fn lemma_packed_injective(a: FlowKey, b: FlowKey)
        ensures
            a.spec_packed() == b.spec_packed() <==> a == b,
    {
        let (a0, a1, a2, a3, a4) = (a.src_ip, a.dst_ip, a.src_port, a.dst_port, a.protocol);
        let (b0, b1, b2, b3, b4) = (b.src_ip, b.dst_ip, b.src_port, b.dst_port, b.protocol);
        assert(((a0 as u128) | ((a1 as u128) << 32u128) | ((a2 as u128) << 64u128) | ((a3 as u128)
            << 80u128) | ((a4 as u128) << 96u128)) == ((b0 as u128) | ((b1 as u128) << 32u128) | ((
        b2 as u128) << 64u128) | ((b3 as u128) << 80u128) | ((b4 as u128) << 96u128)) ==> a0 == b0
            && a1 == b1 && a2 == b2 && a3 == b3 && a4 == b4) by (bit_vector);
    }
}

/// What a load balancer holds: its backends, the backend index assigned to
/// each flow seen so far, and the index that the next new flow gets.
pub struct LoadBalancerView {
    pub backends: Seq<Backend>,
    pub flows: Map<FlowKey, nat>,
    pub next_backend: nat,
}

impl LoadBalancerView {
    /// There is a backend, and every index held points at one.
    pub open spec fn valid(self) -> bool {
        &&& self.backends.len() > 0
        &&& self.next_backend < self.backends.len()
        &&& forall|f: FlowKey| #[trigger]
            self.flows.contains_key(f) ==> self.flows[f] < self.backends.len()
    }

    /// The backend index that a lookup of `flow` yields: the one the flow
    /// already has, else the next in round-robin order.
    pub open spec fn index_for(self, flow: FlowKey) -> nat {
        if self.flows.contains_key(flow) {
            self.flows[flow]
        } else {
            self.next_backend
        }
    }

    /// The backend that a lookup of `flow` returns.
    pub open spec fn backend_for(self, flow: FlowKey) -> Backend {
        self.backends[self.index_for(flow) as int]
    }

    /// The state after a lookup of `flow`: unchanged for a known flow; for a
    /// new one the flow is bound to the next index, which then advances by one,
    /// wrapping around at the number of backends.
    pub open spec fn after_lookup(self, flow: FlowKey) -> LoadBalancerView {
        if self.flows.contains_key(flow) {
            self
        } else {
            LoadBalancerView {
                backends: self.backends,
                flows: self.flows.insert(flow, self.next_backend),
                next_backend: (self.next_backend + 1) % self.backends.len(),
            }
        }
    }
}

/// A stateful load balancer: each new flow is given the next backend in
/// round-robin order, and keeps that backend for as long as the balancer
/// lives.
pub struct LoadBalancer {
    backends: Vec<Backend>,
    flows: HashMap<u128, usize>,
    next_backend: usize,
}

impl View for LoadBalancer {
    type V = LoadBalancerView;

    closed spec fn view(&self) -> LoadBalancerView {
        LoadBalancerView {
            backends: self.backends@,
            flows: Map::new(
                |f: FlowKey| self.flows@.contains_key(f.spec_packed()),
                |f: FlowKey| self.flows@[f.spec_packed()] as nat,
            ),
            next_backend: self.next_backend as nat,
        }
    }
}

impl LoadBalancer {
    /// The balancer's internal consistency.
    pub closed spec fn wf(&self) -> bool {
        &&& self.backends.len() > 0
        &&& self.next_backend < self.backends.len()
        &&& forall|id: u128| #[trigger]
            self.flows@.contains_key(id) ==> self.flows@[id] < self.backends.len()
    }

    /// A well-formed balancer has a valid view.
    pub proof fn lemma_wf_valid(&self)
        requires
            self.wf(),
        ensures
            self@.valid(),
    {
        assert forall|f: FlowKey| #[trigger] self@.flows.contains_key(f) implies self@.flows[f]
            < self@.backends.len() by {
            assert(self.flows@.contains_key(f.spec_packed()));
        }
    }

    /// A balancer over `backends` that has seen no flow yet; the first new flow
    /// goes to `backends[0]`. There must be at least one backend.
    pub fn new(backends: Vec<Backend>) -> (lb: Self)
        requires
            backends.len() > 0,
        ensures
            lb.wf(),
            lb@.valid(),
            lb@.backends == backends@,
            lb@.flows == Map::<FlowKey, nat>::empty(),
            lb@.next_backend == 0,
    {
        let lb = LoadBalancer { backends, flows: HashMap::new(), next_backend: 0 };
        assert(lb@.flows =~= Map::<FlowKey, nat>::empty());
        proof {
            lb.lemma_wf_valid();
        }
        lb
    }

    /// The backend for `flow`: the one it was given before if the flow is
    /// known, otherwise the next backend in round-robin order, which the flow
    /// then keeps.
    pub fn lookup(&mut self, flow: FlowKey) -> (backend: Backend)
        requires
            old(self).wf(),
        ensures
            final(self).wf(),
            final(self)@.valid(),
            backend == old(self)@.backend_for(flow),
            final(self)@ == old(self)@.after_lookup(flow),
    {
        let id = flow.packed();
        if let Some(assigned) = self.flows.get(&id) {
            let backend_index = *assigned;
            assert(self@.flows.contains_key(flow));
            proof {
                self.lemma_wf_valid();
            }
            return self.backends[backend_index];
        }
        assert(!self@.flows.contains_key(flow));
        let ghost before = self@;
        let backend_index = self.next_backend;
        self.next_backend = (self.next_backend + 1) % self.backends.len();
        self.flows.insert(id, backend_index);
        assert forall|f: FlowKey| #[trigger] self@.flows.contains_key(f) == before.flows.insert(
            flow,
            backend_index as nat,
        ).contains_key(f) by {
            FlowKey::lemma_packed_injective(f, flow);
        }
        assert forall|f: FlowKey| #[trigger] self@.flows.contains_key(f) implies self@.flows[f]
            == before.flows.insert(flow, backend_index as nat)[f] by {
            FlowKey::lemma_packed_injective(f, flow);
        }
        assert(self@.flows =~= before.flows.insert(flow, backend_index as nat));
        proof {
            self.lemma_wf_valid();
        }
        self.backends[backend_index]
    }
}

/// A lookup keeps the balancer valid, never changes its backends, and returns
/// one of them.
pub proof fn lemma_lookup_keeps_valid(v: LoadBalancerView, flow: FlowKey)
    requires
        v.valid(),
    ensures
        v.after_lookup(flow).valid(),
        v.after_lookup(flow).backends == v.backends,
        v.backends.contains(v.backend_for(flow)),
{
    assert(v.backends[v.index_for(flow) as int] == v.backend_for(flow));
}

/// Looking up a flow the balancer already knows returns the backend at the
/// flow's recorded index and changes nothing at all: in particular the
/// round-robin position stays where it was.
pub proof fn lemma_known_flow_lookup_changes_nothing(v: LoadBalancerView, flow: FlowKey)
    requires
        v.valid(),
        v.flows.contains_key(flow),
    ensures
        v.after_lookup(flow) == v,
        v.after_lookup(flow).next_backend == v.next_backend,
        v.backend_for(flow) == v.backends[v.flows[flow] as int],
{
}

/// Looking up a new flow binds it to the backend at the round-robin
/// position, returns that backend, advances the position by one (wrapping to
/// 0 after the last backend), and leaves every other flow's binding and the
/// backend list as they were.
pub proof fn lemma_new_flow_lookup(v: LoadBalancerView, flow: FlowKey)
    requires
        v.valid(),
        !v.flows.contains_key(flow),
    ensures
        v.backend_for(flow) == v.backends[v.next_backend as int],
        v.after_lookup(flow).flows.contains_key(flow),
        v.after_lookup(flow).flows[flow] == v.next_backend,
        v.next_backend + 1 < v.backends.len() ==> v.after_lookup(flow).next_backend == v.next_backend
            + 1,
        v.next_backend + 1 == v.backends.len() ==> v.after_lookup(flow).next_backend == 0,
        v.after_lookup(flow).backends == v.backends,
        forall|f: FlowKey|
            f != flow ==> (#[trigger] v.after_lookup(flow).flows.contains_key(f)
                == v.flows.contains_key(f)),
        forall|f: FlowKey|
            f != flow && v.flows.contains_key(f) ==> #[trigger] v.after_lookup(flow).flows[f]
                == v.flows[f],
{
    let n = v.next_backend;
    let len = v.backends.len();
    if n + 1 < len {
        vstd::arithmetic::div_mod::lemma_small_mod((n + 1) as nat, len);
    } else {
        vstd::arithmetic::div_mod::lemma_mod_self_0(len as int);
    }
}

/// Once looked up, a flow is known, and looking it up again returns the same
/// backend and changes nothing.
pub proof fn lemma_lookup_sticky(v: LoadBalancerView, flow: FlowKey)
    requires
        v.valid(),
    ensures
        v.after_lookup(flow).flows.contains_key(flow),
        v.after_lookup(flow).backend_for(flow) == v.backend_for(flow),
        v.after_lookup(flow).after_lookup(flow) == v.after_lookup(flow),
{
}

/// A lookup never moves a flow that already has a backend to another one.
pub proof fn lemma_lookup_keeps_assignments(v: LoadBalancerView, flow: FlowKey, other: FlowKey)
    requires
        v.valid(),
        v.flows.contains_key(other),
    ensures
        v.after_lookup(flow).flows.contains_key(other),
        v.after_lookup(flow).backend_for(other) == v.backend_for(other),
{
}

/// Two distinct new flows looked up one after the other get consecutive
/// backends in round-robin order, so with two or more backends they land on
/// different ones.
pub proof fn lemma_new_flows_round_robin(v: LoadBalancerView, first: FlowKey, second: FlowKey)
    requires
        v.valid(),
        !v.flows.contains_key(first),
        !v.flows.contains_key(second),
        first != second,
    ensures
        v.index_for(first) == v.next_backend,
        v.after_lookup(first).index_for(second) == (v.next_backend + 1) % v.backends.len(),
        v.backends.len() >= 2 ==> v.after_lookup(first).index_for(second) != v.index_for(first),
{
    let n = v.next_backend;
    let len = v.backends.len();
    if n + 1 < len {
        vstd::arithmetic::div_mod::lemma_small_mod((n + 1) as nat, len);
    } else {
        vstd::arithmetic::div_mod::lemma_mod_self_0(len as int);
    }
}

} // verus!
