//! The delivery engine: unicast and broadcast over the registry. The core
//! never writes to a transport; it returns the exact set of deliveries owed,
//! one queue entry per addressed client, and the surrounding process enqueues
//! them. Producing a delivery is total: one slow or vanished client cannot
//! make the engine fail or skip the others.

use vstd::prelude::*;
use crate::message::{Response, ResponseView};
use crate::registry::Registry;

verus! {

/// One message owed to one client's outbound queue.
#[derive(Debug, PartialEq)]
pub struct Delivery {
    pub target: u64,
    pub message: Response,
}

/// The mathematical value of a delivery.
pub struct DeliveryView {
    pub target: u64,
    pub message: ResponseView,
}

impl View for Delivery {
    type V = DeliveryView;

    open spec fn view(&self) -> DeliveryView {
        DeliveryView { target: self.target, message: self.message@ }
    }
}

impl DeepView for Delivery {
    type V = DeliveryView;

    open spec fn deep_view(&self) -> DeliveryView {
        self@
    }
}

/// A broadcast owes `m` to every registered client, in registration order.
pub open spec fn spec_broadcast(clients: Seq<u64>, m: ResponseView) -> Seq<DeliveryView> {
    clients.map_values(|c: u64| DeliveryView { target: c, message: m })
}

/// A unicast owes `m` to `target` alone, and nothing at all when `target` is
/// no longer registered: the race between a reply and a disconnect is not an
/// error.
pub open spec fn spec_unicast(clients: Seq<u64>, target: u64, m: ResponseView) -> Seq<
    DeliveryView,
> {
    if clients.contains(target) {
        seq![DeliveryView { target: target, message: m }]
    } else {
        Seq::empty()
    }
}

/// Fan `payload` out to every currently registered client. Delivery over a
/// single registry snapshot: exactly one entry per registered client, in
/// registration order, each carrying the same message.
pub fn broadcast(clients: &Registry, payload: &Response) -> (r: Vec<Delivery>)
    ensures
        r.deep_view() == spec_broadcast(clients@.clients, payload@),
{
    let ids = clients.client_ids();
    let n = ids.len();
    let mut out: Vec<Delivery> = Vec::new();
    let mut k: usize = 0;
    while k < n
        invariant
            n == ids@.len(),
            ids@ == clients@.clients,
            k <= n,
            out@.len() == k,
            forall|j: int|
                0 <= j < k ==> out@[j]@ == (DeliveryView {
                    target: clients@.clients[j],
                    message: payload@,
                }),
        decreases n - k,
    {
        let d = Delivery { target: ids[k], message: payload.clone() };
        proof {
            assert(d@ == (DeliveryView { target: clients@.clients[k as int], message: payload@ }));
        }
        out.push(d);
        k += 1;
    }
    proof {
        assert(out.deep_view() =~= spec_broadcast(clients@.clients, payload@));
    }
    out
}

/// Reply to `client_id` alone; a silent no-op when it has already
/// disconnected.
pub fn send_message(client_id: u64, clients: &Registry, payload: &Response) -> (r: Vec<Delivery>)
    ensures
        r.deep_view() == spec_unicast(clients@.clients, client_id, payload@),
{
    let mut out: Vec<Delivery> = Vec::new();
    if clients.is_registered(client_id) {
        out.push(Delivery { target: client_id, message: payload.clone() });
        proof {
            assert(out.deep_view() =~= spec_unicast(clients@.clients, client_id, payload@));
        }
    } else {
        proof {
            assert(out.deep_view() =~= spec_unicast(clients@.clients, client_id, payload@));
        }
    }
    out
}

} // verus!
