//! The record store: an insertion-order-preserving sequence of records with
//! pairwise-distinct identifiers. New records append, edits keep their slot
//! and their stored identifier, deletes close the slot. Every operation is a
//! whole step: no caller ever observes a partially applied change.

use vstd::prelude::*;
use vstd::pervasive::VecAdditionalExecFns;
use crate::record::{User, UserView, clone_users};

verus! {

/// Identifiers are pairwise distinct.
pub open spec fn unique_ids(s: Seq<UserView>) -> bool {
    forall|i: int, j: int| 0 <= i < j < s.len() ==> s[i].id != s[j].id
}

/// Some record carries the identifier `id`.
pub open spec fn contains_id(s: Seq<UserView>, id: Seq<char>) -> bool {
    exists|i: int| 0 <= i < s.len() && s[i].id == id
}

/// The position of the record carrying `id`; meaningful only when
/// `contains_id(s, id)` holds, and unambiguous whenever `unique_ids(s)` does.
pub open spec fn index_of_id(s: Seq<UserView>, id: Seq<char>) -> int {
    choose|i: int| 0 <= i < s.len() && s[i].id == id
}

/// The payload of `data` under the stored identifier `id`: an edit never
/// rewrites the identifier a record was created with.
pub open spec fn with_id(id: Seq<char>, data: UserView) -> UserView {
    UserView {
        id: id,
        username: data.username,
        password: data.password,
        profile_image: data.profile_image,
        joined_date: data.joined_date,
    }
}

/// The store after a create: appended when the identifier is fresh, unchanged
/// otherwise. The flag says whether the create took effect.
pub open spec fn spec_insert(s: Seq<UserView>, data: UserView) -> (Seq<UserView>, bool) {
    if contains_id(s, data.id) {
        (s, false)
    } else {
        (s.push(data), true)
    }
}

/// The store after an edit: the slot of `id` holds the new payload under the
/// stored identifier; unchanged when `id` is absent.
pub open spec fn spec_replace(s: Seq<UserView>, id: Seq<char>, data: UserView) -> (Seq<
    UserView,
>, bool) {
    if contains_id(s, id) {
        let i = index_of_id(s, id);
        (s.update(i, with_id(s[i].id, data)), true)
    } else {
        (s, false)
    }
}

/// The store after a delete: the slot of `id` is removed; unchanged when `id`
/// is absent.
pub open spec fn spec_delete(s: Seq<UserView>, id: Seq<char>) -> (Seq<UserView>, bool) {
    if contains_id(s, id) {
        (s.remove(index_of_id(s, id)), true)
    } else {
        (s, false)
    }
}

/// Why a store operation was rejected.
#[derive(Clone, Copy, Debug, PartialEq, Eq, Structural)]
pub enum StoreError {
    /// A create collided with an identifier already in the store.
    DuplicateId,
    /// An edit or delete named an identifier absent from the store.
    NotFound,
}

/// The shared record collection.
pub struct Store {
    records: Vec<User>,
}

impl View for Store {
    type V = Seq<UserView>;

    closed spec fn view(&self) -> Seq<UserView> {
        self.records.deep_view()
    }
}

impl Store {
    /// The store invariant: identifiers are unique at all times.
    pub open spec fn wf(&self) -> bool {
        unique_ids(self@)
    }

    /// An empty store.
    pub fn new() -> (s: Store)
        ensures
            s@ == Seq::<UserView>::empty(),
            s.wf(),
    {
        let s = Store { records: Vec::new() };
        proof {
            assert(s@ =~= Seq::<UserView>::empty());
        }
        s
    }

    /// The position of the record carrying `id`, scanning from the front.
    fn find(&self, id: &String) -> (r: Option<usize>)
        ensures
            match r {
                Some(i) => 0 <= i < self@.len() && self@[i as int].id == id@,
                None => !contains_id(self@, id@),
            },
    {
        let n = self.records.len();
        let mut k: usize = 0;
        while k < n
            invariant
                n == self.records.len(),
                k <= n,
                forall|j: int| 0 <= j < k ==> self@[j].id != id@,
            decreases n - k,
        {
            if self.records[k].id == *id {
                return Some(k);
            }
            k += 1;
        }
        None
    }

    /// Snapshot read: a copy of the current records, in store order.
    pub fn list(&self) -> (r: Vec<User>)
        ensures
            r.deep_view() == self@,
    {
        clone_users(&self.records)
    }

    /// How many records the store holds.
    pub fn len(&self) -> (n: usize)
        ensures
            n == self@.len(),
    {
        self.records.len()
    }

    /// Create: append `data`, or fail with `DuplicateId` when its identifier
    /// is already present, leaving the store untouched.
    pub fn insert(&mut self, data: User) -> (r: Result<(), StoreError>)
        requires
            old(self).wf(),
        ensures
            final(self).wf(),
            final(self)@ == spec_insert(old(self)@, data@).0,
            r is Ok <==> !contains_id(old(self)@, data@.id),
            r is Err ==> r == Err::<(), StoreError>(StoreError::DuplicateId) && *final(self)
                == *old(self),
    {
        match self.find(&data.id) {
            Some(_) => Err(StoreError::DuplicateId),
            None => {
                self.records.push(data);
                proof {
                    assert(self@ =~= old(self)@.push(data@));
                    assert forall|i: int, j: int| 0 <= i < j < self@.len() implies self@[i].id
                        != self@[j].id by {
                        if j < old(self)@.len() {
                            assert(old(self)@[i].id != old(self)@[j].id);
                        } else {
                            assert(!contains_id(old(self)@, data@.id));
                            assert(old(self)@[i].id != data@.id);
                        }
                    }
                }
                Ok(())
            },
        }
    }

    /// Edit: place the payload of `data` in the slot of `id`, keeping the
    /// stored identifier, or fail with `NotFound`, leaving the store
    /// untouched.
    pub fn replace(&mut self, id: &String, data: User) -> (r: Result<(), StoreError>)
        requires
            old(self).wf(),
        ensures
            final(self).wf(),
            final(self)@ == spec_replace(old(self)@, id@, data@).0,
            r is Ok <==> contains_id(old(self)@, id@),
            r is Err ==> r == Err::<(), StoreError>(StoreError::NotFound) && *final(self) == *old(
                self,
            ),
    {
        match self.find(id) {
            None => Err(StoreError::NotFound),
            Some(i) => {
                let stored_id = self.records[i].id.clone();
                let replacement = User {
                    id: stored_id,
                    username: data.username,
                    password: data.password,
                    profile_image: data.profile_image,
                    joined_date: data.joined_date,
                };
                let ghost previous = self@;
                self.records.set(i, replacement);
                proof {
                    let j = index_of_id(previous, id@);
                    assert(previous[j].id == id@);
                    assert(j == i);
                    assert(self@ =~= previous.update(i as int, with_id(previous[i as int].id, data@)));
                    assert forall|p: int, q: int| 0 <= p < q < self@.len() implies self@[p].id
                        != self@[q].id by {
                        assert(forall|k: int| 0 <= k < self@.len() ==> self@[k].id == previous[k].id);
                    }
                }
                Ok(())
            },
        }
    }

    /// Delete: remove the record of `id`, or fail with `NotFound`, leaving
    /// the store untouched.
    pub fn delete(&mut self, id: &String) -> (r: Result<(), StoreError>)
        requires
            old(self).wf(),
        ensures
            final(self).wf(),
            final(self)@ == spec_delete(old(self)@, id@).0,
            r is Ok <==> contains_id(old(self)@, id@),
            r is Err ==> r == Err::<(), StoreError>(StoreError::NotFound) && *final(self) == *old(
                self,
            ),
    {
        match self.find(id) {
            None => Err(StoreError::NotFound),
            Some(i) => {
                let ghost previous = self@;
                self.records.remove(i);
                proof {
                    let j = index_of_id(previous, id@);
                    assert(previous[j].id == id@);
                    assert(j == i);
                    assert(self@ =~= previous.remove(i as int));
                    assert forall|p: int, q: int| 0 <= p < q < self@.len() implies self@[p].id
                        != self@[q].id by {
                        let pp = if p < i { p } else { p + 1 };
                        let qq = if q < i { q } else { q + 1 };
                        assert(self@[p].id == previous[pp].id);
                        assert(self@[q].id == previous[qq].id);
                    }
                }
                Ok(())
            },
        }
    }
}

} // verus!
