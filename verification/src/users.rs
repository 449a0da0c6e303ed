//! Local user accounts.

use vstd::prelude::*;

verus! {

use crate::store::IdentityStore;
use crate::store::ModelError;
use crate::store::create_user_spec;
use crate::store::find_user_by_id;
use crate::store::lemma_find_user_by_id_at;
use crate::store::lemma_find_user_by_id_none;
use vstd::string::StringExecFns;

/// Mathematical image of a [`User`] row.
#[verifier::ext_equal]
pub ghost struct UserView {
    pub id: int,
    pub preferred_name: Seq<char>,
}

/// A local account. A user may have other personas attached, such as an
/// external identity record created when they logged in through the OAuth
/// provider.
#[derive(Debug, PartialEq)]
pub struct User {
    /// A unique id for this user, assigned by the store.
    pub id: i32,
    /// The preferred display name of this user. Currently unused, but a row
    /// needs at least one ordinary column to insert.
    pub preferred_name: String,
}

impl View for User {
    type V = UserView;

    open spec fn view(&self) -> UserView {
        UserView { id: self.id as int, preferred_name: self.preferred_name@ }
    }
}

impl DeepView for User {
    type V = UserView;

    open spec fn deep_view(&self) -> UserView {
        self.view()
    }
}

impl Clone for User {
    fn clone(&self) -> (r: Self)
        ensures
            r == *self,
    {
        User { id: self.id, preferred_name: self.preferred_name.clone() }
    }
}

/// The display name every freshly created user starts with.
pub open spec fn default_preferred_name() -> Seq<char> {
    "Bob"@
}

impl User {
    /// Inserts a new user row and returns it, with the freshly assigned id.
    /// The insert and the read of the generated id are one atomic step here,
    /// so two concurrent creates can never observe each other's id.
    pub fn create(store: &mut IdentityStore) -> (r: Result<User, ModelError>)
        requires
            old(store).wf(),
            old(store)@.next_user_id < i32::MAX as int,
        ensures
            final(store).wf(),
            final(store)@ == create_user_spec(old(store)@).0,
            r matches Ok(u) && u@ == create_user_spec(old(store)@).1,
    {
        let u = User {
            id: store.next_user_id,
            // it's a good name.
            preferred_name: String::from_str("Bob"),
        };
        let copy = u.clone();
        store.users.push(u);
        store.next_user_id = store.next_user_id + 1;
        proof {
            assert(store@.users =~= old(store)@.users.push(copy@));
            assert(store@ =~= create_user_spec(old(store)@).0);
            crate::store::lemma_create_user_wf(old(store)@);
        }
        Ok(copy)
    }

    /// Looks the user up by id; absence is `None`, never an error.
    pub fn find_by_id(store: &IdentityStore, the_id: i32) -> (r: Result<
        Option<User>,
        ModelError,
    >)
        ensures
            r matches Ok(o) && o.deep_view() == find_user_by_id(store@.users, the_id as int),
    {
        let mut i: usize = 0;
        let n = store.users.len();
        while i < n
            invariant
                0 <= i <= n,
                n == store@.users.len(),
                n == store.users@.len(),
                forall|j: int| 0 <= j < i ==> #[trigger] store@.users[j].id != the_id as int,
            decreases n - i,
        {
            if store.users[i].id == the_id {
                let u = store.users[i].clone();
                proof {
                    lemma_find_user_by_id_at(store@.users, the_id as int, i as int);
                }
                return Ok(Some(u));
            }
            i = i + 1;
        }
        proof {
            lemma_find_user_by_id_none(store@.users, the_id as int);
        }
        Ok(None)
    }
}

} // verus!

