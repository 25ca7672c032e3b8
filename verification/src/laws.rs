//! The guarantees of the synchronization core, stated and proved over the
//! same spec functions the executable contracts use.

use vstd::prelude::*;
use crate::delivery::{DeliveryView, spec_broadcast, spec_unicast};
use crate::message::{InboundView, RequestView, ResponseView, duplicate_id_message,
    not_found_message};
use crate::record::UserView;
use crate::server::{spec_handle, spec_handle_inbound};
use crate::store::{contains_id, index_of_id, spec_delete, spec_insert, spec_replace, unique_ids};

verus! {

/// A create keeps identifiers unique: it appends only an identifier that was
/// absent.
pub proof fn lemma_insert_preserves_uniqueness(s: Seq<UserView>, data: UserView)
    requires
        unique_ids(s),
    ensures
        unique_ids(spec_insert(s, data).0),
{
    if !contains_id(s, data.id) {
        let s2 = s.push(data);
        assert forall|i: int, j: int| 0 <= i < j < s2.len() implies s2[i].id != s2[j].id by {
            if j < s.len() {
                assert(s[i].id != s[j].id);
            } else {
                assert(s[i].id != data.id);
            }
        }
    }
}

/// An edit keeps identifiers unique: it rewrites one payload under the
/// identifier that slot already had.
pub proof fn lemma_replace_preserves_uniqueness(s: Seq<UserView>, id: Seq<char>, data: UserView)
    requires
        unique_ids(s),
    ensures
        unique_ids(spec_replace(s, id, data).0),
{
    if contains_id(s, id) {
        let k = index_of_id(s, id);
        let s2 = spec_replace(s, id, data).0;
        assert(forall|p: int| 0 <= p < s2.len() ==> s2[p].id == s[p].id);
        assert forall|i: int, j: int| 0 <= i < j < s2.len() implies s2[i].id != s2[j].id by {
            assert(s[i].id != s[j].id);
        }
    }
}

/// A delete keeps identifiers unique: removing a slot removes nothing else
/// and adds nothing.
pub proof fn lemma_delete_preserves_uniqueness(s: Seq<UserView>, id: Seq<char>)
    requires
        unique_ids(s),
    ensures
        unique_ids(spec_delete(s, id).0),
{
    if contains_id(s, id) {
        let k = index_of_id(s, id);
        let s2 = spec_delete(s, id).0;
        assert forall|i: int, j: int| 0 <= i < j < s2.len() implies s2[i].id != s2[j].id by {
            let ii = if i < k { i } else { i + 1 };
            let jj = if j < k { j } else { j + 1 };
            assert(s2[i].id == s[ii].id);
            assert(s2[j].id == s[jj].id);
            assert(s[ii].id != s[jj].id);
        }
    }
}

/// Uniqueness: whatever frame arrives, the store never comes to hold two
/// records with the same identifier.
pub proof fn lemma_uniqueness_preserved(
    store: Seq<UserView>,
    clients: Seq<u64>,
    sender: u64,
    frame: InboundView,
)
    requires
        unique_ids(store),
    ensures
        unique_ids(spec_handle_inbound(store, clients, sender, frame).0),
{
    match frame {
        InboundView::Request(req) => match req {
            RequestView::Get => {},
            RequestView::Add { data } => lemma_insert_preserves_uniqueness(store, data),
            RequestView::Edit { id, data } => lemma_replace_preserves_uniqueness(store, id, data),
            RequestView::Delete { id } => lemma_delete_preserves_uniqueness(store, id),
        },
        InboundView::NonText => {},
        InboundView::Malformed => {},
    }
}

/// Uniqueness, the failing half: a create whose identifier collides changes
/// nothing and costs the requester alone one duplicate-identifier error.
pub proof fn lemma_create_collision_rejected(
    store: Seq<UserView>,
    clients: Seq<u64>,
    sender: u64,
    data: UserView,
)
    requires
        contains_id(store, data.id),
    ensures
        spec_handle(store, clients, sender, RequestView::Add { data }).0 == store,
        spec_handle(store, clients, sender, RequestView::Add { data }).1 == spec_unicast(
            clients,
            sender,
            ResponseView::Error { message: duplicate_id_message(data.id) },
        ),
{
}

/// Identifier immutability: an edit never moves a record and never changes
/// any stored identifier, whatever identifier the replacement payload
/// carries.
pub proof fn lemma_identifier_immutability(
    store: Seq<UserView>,
    clients: Seq<u64>,
    sender: u64,
    id: Seq<char>,
    data: UserView,
)
    requires
        unique_ids(store),
    ensures
        ({
            let s2 = spec_handle(store, clients, sender, RequestView::Edit { id, data }).0;
            s2.len() == store.len() && forall|k: int| 0 <= k < store.len() ==> s2[k].id
                == store[k].id
        }),
{
}

/// Not-found correctness: an edit or delete of an absent identifier leaves
/// the store exactly as it was and costs the requester alone one not-found
/// error.
pub proof fn lemma_not_found(
    store: Seq<UserView>,
    clients: Seq<u64>,
    sender: u64,
    id: Seq<char>,
    data: UserView,
)
    requires
        !contains_id(store, id),
    ensures
        spec_handle(store, clients, sender, RequestView::Edit { id, data }).0 == store,
        spec_handle(store, clients, sender, RequestView::Edit { id, data }).1 == spec_unicast(
            clients,
            sender,
            ResponseView::Error { message: not_found_message(id) },
        ),
        spec_handle(store, clients, sender, RequestView::Delete { id }).0 == store,
        spec_handle(store, clients, sender, RequestView::Delete { id }).1 == spec_unicast(
            clients,
            sender,
            ResponseView::Error { message: not_found_message(id) },
        ),
{
}

/// Broadcast completeness, edits: after a successful edit, every currently
/// registered client is owed exactly a reload carrying the snapshot of the
/// store as the edit left it.
pub proof fn lemma_broadcast_completeness_edit(
    store: Seq<UserView>,
    clients: Seq<u64>,
    sender: u64,
    id: Seq<char>,
    data: UserView,
)
    requires
        contains_id(store, id),
    ensures
        ({
            let (s2, ds) = spec_handle(store, clients, sender, RequestView::Edit { id, data });
            ds.len() == clients.len() && forall|j: int|
                0 <= j < clients.len() ==> ds[j] == (DeliveryView {
                    target: clients[j],
                    message: ResponseView::Reload { data: s2 },
                })
        }),
{
}

/// Broadcast completeness, deletes: after a successful delete, every
/// currently registered client is owed exactly a reload carrying the
/// snapshot of the store as the delete left it.
pub proof fn lemma_broadcast_completeness_delete(
    store: Seq<UserView>,
    clients: Seq<u64>,
    sender: u64,
    id: Seq<char>,
)
    requires
        contains_id(store, id),
    ensures
        ({
            let (s2, ds) = spec_handle(store, clients, sender, RequestView::Delete { id });
            ds.len() == clients.len() && forall|j: int|
                0 <= j < clients.len() ==> ds[j] == (DeliveryView {
                    target: clients[j],
                    message: ResponseView::Reload { data: s2 },
                })
        }),
{
}

/// Unicast isolation: an error message is only ever owed to the client whose
/// frame caused it; no other client ever receives it.
pub proof fn lemma_unicast_isolation(
    store: Seq<UserView>,
    clients: Seq<u64>,
    sender: u64,
    frame: InboundView,
)
    ensures
        ({
            let ds = spec_handle_inbound(store, clients, sender, frame).1;
            forall|k: int|
                0 <= k < ds.len() && ds[k].message is Error ==> ds[k].target == sender
        }),
{
    let ds = spec_handle_inbound(store, clients, sender, frame).1;
    assert forall|k: int|
        0 <= k < ds.len() && ds[k].message is Error implies ds[k].target == sender by {
        match frame {
            InboundView::Request(req) => {
                match req {
                    RequestView::Get => {},
                    RequestView::Add { data } => {
                        if !contains_id(store, data.id) {
                            assert(ds[k].message == (ResponseView::Append { data }));
                        }
                    },
                    RequestView::Edit { id, data } => {
                        if contains_id(store, id) {
                            let s2 = spec_replace(store, id, data).0;
                            assert(ds[k].message == (ResponseView::Reload { data: s2 }));
                        }
                    },
                    RequestView::Delete { id } => {
                        if contains_id(store, id) {
                            let s2 = spec_delete(store, id).0;
                            assert(ds[k].message == (ResponseView::Reload { data: s2 }));
                        }
                    },
                }
            },
            InboundView::NonText => {},
            InboundView::Malformed => {},
        }
    }
}

/// Disconnection safety: removing one client from the registry costs nobody
/// else anything. A broadcast over the registry as the removal left it still
/// reaches every client that stayed, and it shrinks by at most that one
/// entry.
pub proof fn lemma_disconnection_safety(clients: Seq<u64>, removed: u64, m: ResponseView)
    ensures
        spec_broadcast(clients.remove_value(removed), m).len() >= clients.len() - 1,
        forall|c: u64|
            clients.contains(c) && c != removed ==> spec_broadcast(
                clients.remove_value(removed),
                m,
            ).contains(DeliveryView { target: c, message: m }),
{
    let cs2 = clients.remove_value(removed);
    clients.index_of_first_ensures(removed);
    if clients.contains(removed) {
        let f = clients.index_of_first(removed).unwrap();
        assert(cs2 == clients.remove(f));
        assert forall|c: u64|
            clients.contains(c) && c != removed implies spec_broadcast(cs2, m).contains(
            DeliveryView { target: c, message: m },
        ) by {
            let w = choose|i: int| 0 <= i < clients.len() && clients[i] == c;
            assert(clients[w] == c);
            assert(w != f);
            let w2 = if w < f {
                w
            } else {
                w - 1
            };
            assert(cs2[w2] == c);
            assert(spec_broadcast(cs2, m)[w2] == (DeliveryView { target: c, message: m }));
        }
    } else {
        assert(cs2 == clients);
        assert forall|c: u64|
            clients.contains(c) && c != removed implies spec_broadcast(cs2, m).contains(
            DeliveryView { target: c, message: m },
        ) by {
            let w = choose|i: int| 0 <= i < clients.len() && clients[i] == c;
            assert(cs2[w] == c);
            assert(spec_broadcast(cs2, m)[w] == (DeliveryView { target: c, message: m }));
        }
    }
}

} // verus!
