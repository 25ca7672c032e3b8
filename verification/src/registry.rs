//! The client registry: which connections are currently live. Each client is
//! known by a server-assigned numeric identity, handed out from a
//! monotonically increasing counter at connect time and never reused. The
//! registry alone decides who a broadcast reaches.

use vstd::prelude::*;

verus! {

/// The mathematical value of the registry: the identities currently
/// registered, in registration order, and the next identity to hand out.
pub struct RegistryView {
    pub clients: Seq<u64>,
    pub next_id: u64,
}

impl RegistryView {
    /// The registry invariant: registered identities are pairwise distinct,
    /// and every one of them was handed out by the counter, so it lies below
    /// `next_id`. The counter starts at 1 and only grows, which is what makes
    /// a fresh identity fresh.
    pub open spec fn wf(self) -> bool {
        &&& forall|i: int, j: int|
            0 <= i < j < self.clients.len() ==> self.clients[i] != self.clients[j]
        &&& forall|i: int| 0 <= i < self.clients.len() ==> self.clients[i] < self.next_id
        &&& self.next_id >= 1
    }
}

/// The set of currently connected clients.
pub struct Registry {
    clients: Vec<u64>,
    next_id: u64,
}

impl View for Registry {
    type V = RegistryView;

    closed spec fn view(&self) -> RegistryView {
        RegistryView { clients: self.clients@, next_id: self.next_id }
    }
}

impl Registry {
    /// An empty registry whose counter starts at 1.
    pub fn new() -> (r: Registry)
        ensures
            r@.clients == Seq::<u64>::empty(),
            r@.next_id == 1,
            r@.wf(),
    {
        Registry { clients: Vec::new(), next_id: 1 }
    }

    /// Connect: assign the next identity, register it, and advance the
    /// counter. The identity returned was never registered before and will
    /// never be handed out again.
    pub fn register(&mut self) -> (id: u64)
        requires
            old(self)@.wf(),
            old(self)@.next_id < u64::MAX,
        ensures
            final(self)@.wf(),
            id == old(self)@.next_id,
            !old(self)@.clients.contains(id),
            final(self)@.clients == old(self)@.clients.push(id),
            final(self)@.next_id == old(self)@.next_id + 1,
    {
        let id = self.next_id;
        self.clients.push(id);
        self.next_id = self.next_id + 1;
        proof {
            let cs = old(self)@.clients;
            assert(self@.clients =~= cs.push(id));
            assert forall|i: int, j: int|
                0 <= i < j < self@.clients.len() implies self@.clients[i] != self@.clients[j] by {
                if j < cs.len() {
                    assert(cs[i] != cs[j]);
                } else {
                    assert(cs[i] < old(self)@.next_id);
                }
            }
            assert forall|i: int| 0 <= i < self@.clients.len() implies self@.clients[i]
                < self@.next_id by {
                if i < cs.len() {
                    assert(cs[i] < old(self)@.next_id);
                }
            }
        }
        id
    }

    /// Disconnect: drop `id` from the registry. Every other registration is
    /// untouched, and the counter does not move, so no identity is reused.
    pub fn unregister(&mut self, id: u64)
        requires
            old(self)@.wf(),
        ensures
            final(self)@.wf(),
            final(self)@.clients == old(self)@.clients.remove_value(id),
            final(self)@.next_id == old(self)@.next_id,
    {
        let n = self.clients.len();
        let mut k: usize = 0;
        while k < n
            invariant
                n == self.clients.len(),
                k <= n,
                *self == *old(self),
                old(self)@.wf(),
                forall|j: int| 0 <= j < k ==> self@.clients[j] != id,
            decreases n - k,
        {
            if self.clients[k] == id {
                self.clients.remove(k);
                proof {
                    let cs = old(self)@.clients;
                    assert(cs[k as int] == id);
                    cs.index_of_first_ensures(id);
                    let f = cs.index_of_first(id).unwrap();
                    assert(cs[f] == id);
                    assert(f == k);
                    assert(self@.clients =~= cs.remove_value(id));
                    assert forall|p: int, q: int|
                        0 <= p < q < self@.clients.len() implies self@.clients[p]
                        != self@.clients[q] by {
                        let pp = if p < k { p } else { p + 1 };
                        let qq = if q < k { q } else { q + 1 };
                        assert(self@.clients[p] == cs[pp]);
                        assert(self@.clients[q] == cs[qq]);
                        assert(0 <= pp < qq < cs.len());
                        assert(cs[pp] != cs[qq]);
                    }
                }
                return ;
            }
            k += 1;
        }
        proof {
            let cs = old(self)@.clients;
            assert(forall|j: int| 0 <= j < cs.len() ==> cs[j] != id);
            assert(!cs.contains(id));
            cs.index_of_first_ensures(id);
            assert(cs.remove_value(id) == cs);
        }
    }

    /// Whether `id` is currently registered.
    pub fn is_registered(&self, id: u64) -> (r: bool)
        ensures
            r == self@.clients.contains(id),
    {
        let n = self.clients.len();
        let mut k: usize = 0;
        while k < n
            invariant
                n == self.clients.len(),
                k <= n,
                forall|j: int| 0 <= j < k ==> self@.clients[j] != id,
            decreases n - k,
        {
            if self.clients[k] == id {
                return true;
            }
            k += 1;
        }
        false
    }

    /// The registered identities, in registration order.
    pub fn client_ids(&self) -> (r: &Vec<u64>)
        ensures
            r@ == self@.clients,
    {
        &self.clients
    }

    /// The identity the next connection would receive.
    pub fn next_id(&self) -> (n: u64)
        ensures
            n == self@.next_id,
    {
        self.next_id
    }

    /// How many clients are currently registered.
    pub fn count(&self) -> (n: usize)
        ensures
            n == self@.clients.len(),
    {
        self.clients.len()
    }
}

} // verus!
