//! The domain record: an entry with a unique identifier and opaque payload
//! fields. The identifier is assigned by the creating client and is the only
//! field with protocol significance.

use vstd::prelude::*;

verus! {

/// A stored record. All fields besides `id` are opaque payload: their
/// contents never influence protocol behaviour.
#[derive(Debug, PartialEq)]
pub struct User {
    pub id: String,
    pub username: String,
    pub password: String,
    pub profile_image: String,
    pub joined_date: String,
}

/// The mathematical value of a record: each field as its character sequence.
pub struct UserView {
    pub id: Seq<char>,
    pub username: Seq<char>,
    pub password: Seq<char>,
    pub profile_image: Seq<char>,
    pub joined_date: Seq<char>,
}

impl View for User {
    type V = UserView;

    open spec fn view(&self) -> UserView {
        UserView {
            id: self.id@,
            username: self.username@,
            password: self.password@,
            profile_image: self.profile_image@,
            joined_date: self.joined_date@,
        }
    }
}

impl DeepView for User {
    type V = UserView;

    open spec fn deep_view(&self) -> UserView {
        self@
    }
}

impl Clone for User {
    fn clone(&self) -> (res: Self)
        ensures
            res@ == self@,
    {
        User {
            id: self.id.clone(),
            username: self.username.clone(),
            password: self.password.clone(),
            profile_image: self.profile_image.clone(),
            joined_date: self.joined_date.clone(),
        }
    }
}

/// A copy of a sequence of records, value for value.
pub fn clone_users(v: &Vec<User>) -> (r: Vec<User>)
    ensures
        r.deep_view() == v.deep_view(),
{
    let mut out: Vec<User> = Vec::new();
    let n = v.len();
    let mut k: usize = 0;
    while k < n
        invariant
            n == v@.len(),
            k <= n,
            out@.len() == k,
            forall|j: int| 0 <= j < k ==> out.deep_view()[j] == v.deep_view()[j],
        decreases n - k,
    {
        out.push(v[k].clone());
        k += 1;
    }
    proof {
        assert(out.deep_view() =~= v.deep_view());
    }
    out
}

} // verus!
