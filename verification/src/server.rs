//! The synchronization core: one value that owns the record store and the
//! client registry, and decides, per connection event, how the store changes
//! and which client is owed which message.
//!
//! `spec_handle` is the protocol in one place: a fetch answers the requester
//! alone; a create announces the single new record to everyone; an edit or
//! delete pushes the full refreshed list to everyone; every failure is an
//! error to the requester alone. The handler applies a request as one whole
//! step: the store change and the owed deliveries come from the same
//! snapshot, so the list a broadcast carries is exactly the list a read
//! straight after the mutation would return. For a create this is a
//! deliberate choice: the commit and the append announcement form one step,
//! so no fetch can ever observe the store without a record whose
//! announcement is already owed.

use vstd::prelude::*;
use vstd::string::StringExecFns;
use crate::delivery::{Delivery, DeliveryView, broadcast, send_message, spec_broadcast,
    spec_unicast};
use crate::message::{Inbound, InboundView, Request, RequestView, Response, ResponseView,
    duplicate_id_message, duplicate_id_text, invalid_format_message, invalid_type_message,
    not_found_message, not_found_text};
use crate::record::UserView;
use crate::registry::Registry;
use crate::store::{Store, contains_id, spec_delete, spec_replace};

verus! {

/// What handling one request does: the store after the request, and the
/// deliveries it owes, in queue order.
pub open spec fn spec_handle(
    store: Seq<UserView>,
    clients: Seq<u64>,
    sender: u64,
    req: RequestView,
) -> (Seq<UserView>, Seq<DeliveryView>) {
    match req {
        RequestView::Get => (
            store,
            spec_unicast(clients, sender, ResponseView::Reload { data: store }),
        ),
        RequestView::Add { data } => if contains_id(store, data.id) {
            (
                store,
                spec_unicast(
                    clients,
                    sender,
                    ResponseView::Error { message: duplicate_id_message(data.id) },
                ),
            )
        } else {
            (
                store.push(data),
                spec_broadcast(clients, ResponseView::Append { data }),
            )
        },
        RequestView::Edit { id, data } => if contains_id(store, id) {
            let updated = spec_replace(store, id, data).0;
            (updated, spec_broadcast(clients, ResponseView::Reload { data: updated }))
        } else {
            (
                store,
                spec_unicast(
                    clients,
                    sender,
                    ResponseView::Error { message: not_found_message(id) },
                ),
            )
        },
        RequestView::Delete { id } => if contains_id(store, id) {
            let remaining = spec_delete(store, id).0;
            (remaining, spec_broadcast(clients, ResponseView::Reload { data: remaining }))
        } else {
            (
                store,
                spec_unicast(
                    clients,
                    sender,
                    ResponseView::Error { message: not_found_message(id) },
                ),
            )
        },
    }
}

/// What handling one inbound frame does: a frame that is not text, or text
/// that is not a request, costs the sender one error message and nothing
/// else; a request is handled by `spec_handle`.
pub open spec fn spec_handle_inbound(
    store: Seq<UserView>,
    clients: Seq<u64>,
    sender: u64,
    frame: InboundView,
) -> (Seq<UserView>, Seq<DeliveryView>) {
    match frame {
        InboundView::Request(req) => spec_handle(store, clients, sender, req),
        InboundView::NonText => (
            store,
            spec_unicast(
                clients,
                sender,
                ResponseView::Error { message: invalid_type_message() },
            ),
        ),
        InboundView::Malformed => (
            store,
            spec_unicast(
                clients,
                sender,
                ResponseView::Error { message: invalid_format_message() },
            ),
        ),
    }
}

/// The server state shared by every connection.
pub struct Server {
    pub store: Store,
    pub registry: Registry,
}

impl Server {
    /// The server invariant: unique record identifiers, and a registry whose
    /// entries are distinct and below the identity counter.
    pub open spec fn wf(&self) -> bool {
        self.store.wf() && self.registry@.wf()
    }

    /// A fresh server: no records, no clients, identities starting at 1.
    pub fn new() -> (s: Server)
        ensures
            s.wf(),
            s.store@ == Seq::<UserView>::empty(),
            s.registry@.clients == Seq::<u64>::empty(),
            s.registry@.next_id == 1,
    {
        Server { store: Store::new(), registry: Registry::new() }
    }

    /// A connection completed its handshake: assign it a fresh identity and
    /// register it. The store is untouched.
    pub fn client_connected(&mut self) -> (id: u64)
        requires
            old(self).wf(),
            old(self).registry@.next_id < u64::MAX,
        ensures
            final(self).wf(),
            id == old(self).registry@.next_id,
            !old(self).registry@.clients.contains(id),
            final(self).registry@.clients == old(self).registry@.clients.push(id),
            final(self).registry@.next_id == old(self).registry@.next_id + 1,
            final(self).store == old(self).store,
    {
        self.registry.register()
    }

    /// A connection's read loop ended: unregister it. No further message is
    /// owed or delivered to it. The store is untouched.
    pub fn client_disconnected(&mut self, id: u64)
        requires
            old(self).wf(),
        ensures
            final(self).wf(),
            final(self).registry@.clients == old(self).registry@.clients.remove_value(id),
            final(self).registry@.next_id == old(self).registry@.next_id,
            final(self).store == old(self).store,
    {
        self.registry.unregister(id)
    }

    /// One inbound frame from `sender`: decode failures cost the sender one
    /// error message; a request mutates the store and owes deliveries exactly
    /// as `spec_handle_inbound` says. The registry never changes here.
    pub fn client_message(&mut self, sender: u64, frame: Inbound) -> (deliveries: Vec<Delivery>)
        requires
            old(self).wf(),
        ensures
            final(self).wf(),
            final(self).registry == old(self).registry,
            final(self).store@ == spec_handle_inbound(
                old(self).store@,
                old(self).registry@.clients,
                sender,
                frame@,
            ).0,
            deliveries.deep_view() == spec_handle_inbound(
                old(self).store@,
                old(self).registry@.clients,
                sender,
                frame@,
            ).1,
    {
        match frame {
            Inbound::NonText => {
                let reply = Response::Error { message: String::from_str("Invalid request type") };
                send_message(sender, &self.registry, &reply)
            },
            Inbound::Malformed => {
                let reply = Response::Error { message: String::from_str("Invalid request format") };
                send_message(sender, &self.registry, &reply)
            },
            Inbound::Request(req) => self.handle_request(sender, req),
        }
    }

    /// One decoded request from `sender`, applied as a single step.
    pub fn handle_request(&mut self, sender: u64, req: Request) -> (deliveries: Vec<Delivery>)
        requires
            old(self).wf(),
        ensures
            final(self).wf(),
            final(self).registry == old(self).registry,
            final(self).store@ == spec_handle(
                old(self).store@,
                old(self).registry@.clients,
                sender,
                req@,
            ).0,
            deliveries.deep_view() == spec_handle(
                old(self).store@,
                old(self).registry@.clients,
                sender,
                req@,
            ).1,
    {
        match req {
            Request::Get => {
                let snapshot = self.store.list();
                let reply = Response::Reload { data: snapshot };
                send_message(sender, &self.registry, &reply)
            },
            Request::Add { data } => {
                let announced = data.clone();
                match self.store.insert(data) {
                    Ok(()) => {
                        let notice = Response::Append { data: announced };
                        broadcast(&self.registry, &notice)
                    },
                    Err(_) => {
                        let reply = Response::Error {
                            message: duplicate_id_text(&announced.id),
                        };
                        send_message(sender, &self.registry, &reply)
                    },
                }
            },
            Request::Edit { id, data } => {
                match self.store.replace(&id, data) {
                    Ok(()) => {
                        let snapshot = self.store.list();
                        let notice = Response::Reload { data: snapshot };
                        broadcast(&self.registry, &notice)
                    },
                    Err(_) => {
                        let reply = Response::Error { message: not_found_text(&id) };
                        send_message(sender, &self.registry, &reply)
                    },
                }
            },
            Request::Delete { id } => {
                match self.store.delete(&id) {
                    Ok(()) => {
                        let snapshot = self.store.list();
                        let notice = Response::Reload { data: snapshot };
                        broadcast(&self.registry, &notice)
                    },
                    Err(_) => {
                        let reply = Response::Error { message: not_found_text(&id) };
                        send_message(sender, &self.registry, &reply)
                    },
                }
            },
        }
    }

    /// Snapshot read of the record list, for a fetch.
    pub fn list(&self) -> (r: Vec<crate::record::User>)
        ensures
            r.deep_view() == self.store@,
    {
        self.store.list()
    }
}

} // verus!
