//! Permission grants: named capabilities attached to local users.

use vstd::prelude::*;

verus! {

use crate::store::IdentityStore;
use crate::store::ModelError;
use crate::store::find_permission;
use crate::store::grant_permission_spec;
use crate::store::grants_after_revoke;
use crate::store::grants_for;
use crate::store::grants_named;
use crate::store::lemma_find_permission_at;
use crate::store::lemma_find_permission_none;
use crate::store::lemma_grant_permission_wf;
use crate::store::lemma_revoke_permission_wf;
use crate::store::revoke_permission_spec;
use crate::text::str_eq;

/// Mathematical image of a [`Permission`] row.
#[verifier::ext_equal]
pub ghost struct PermissionView {
    pub id: int,
    pub user_id: int,
    pub name: Seq<char>,
}

/// A permission grant. A user may have zero or more grants. Grants are known
/// by their name, which is free-form and case-sensitive; the set of names that
/// mean something ("admin", for one) is a convention owned by callers, not
/// enforced by the store.
#[derive(Debug, PartialEq)]
pub struct Permission {
    /// Id of this permission grant.
    pub id: i32,
    /// The user id this permission is granted to.
    pub user_id: i32,
    /// The name of the permission granted.
    pub name: String,
}

impl View for Permission {
    type V = PermissionView;

    open spec fn view(&self) -> PermissionView {
        PermissionView { id: self.id as int, user_id: self.user_id as int, name: self.name@ }
    }
}

impl DeepView for Permission {
    type V = PermissionView;

    open spec fn deep_view(&self) -> PermissionView {
        self.view()
    }
}

impl Clone for Permission {
    fn clone(&self) -> (r: Self)
        ensures
            r == *self,
    {
        Permission { id: self.id, user_id: self.user_id, name: self.name.clone() }
    }
}

impl Permission {
    /// All permissions granted to a user, in store order.
    pub fn find_by_user_id(store: &IdentityStore, the_user_id: i32) -> (r: Result<
        Vec<Permission>,
        ModelError,
    >)
        ensures
            r matches Ok(v) && v.deep_view() == grants_for(
                store@.permissions,
                the_user_id as int,
            ),
    {
        let mut out: Vec<Permission> = Vec::new();
        let n = store.permissions.len();
        let mut i: usize = 0;
        proof {
            reveal(Seq::filter);
            assert(store@.permissions.take(0) =~= Seq::<PermissionView>::empty());
            assert(out.deep_view() =~= grants_for(store@.permissions.take(0), the_user_id as int));
        }
        while i < n
            invariant
                0 <= i <= n,
                n == store@.permissions.len(),
                n == store.permissions@.len(),
                out.deep_view() == grants_for(
                    store@.permissions.take(i as int),
                    the_user_id as int,
                ),
            decreases n - i,
        {
            let ghost pre_out = out.deep_view();
            let matched = store.permissions[i].user_id == the_user_id;
            if matched {
                out.push(store.permissions[i].clone());
            }
            proof {
                reveal(Seq::filter);
                let s = store@.permissions;
                assert(s.take(i as int + 1).drop_last() =~= s.take(i as int));
                assert(s.take(i as int + 1).last() == s[i as int]);
                if matched {
                    assert(out.deep_view() =~= pre_out.push(s[i as int]));
                }
            }
            i = i + 1;
        }
        proof {
            assert(store@.permissions.take(n as int) =~= store@.permissions);
        }
        Ok(out)
    }

    /// All grants with a given name: in domain language, all users that hold a
    /// specific permission. In store order.
    pub fn find_by_name(store: &IdentityStore, permission_name: &str) -> (r: Result<
        Vec<Permission>,
        ModelError,
    >)
        ensures
            r matches Ok(v) && v.deep_view() == grants_named(
                store@.permissions,
                permission_name@,
            ),
    {
        let mut out: Vec<Permission> = Vec::new();
        let n = store.permissions.len();
        let mut i: usize = 0;
        proof {
            reveal(Seq::filter);
            assert(store@.permissions.take(0) =~= Seq::<PermissionView>::empty());
            assert(out.deep_view() =~= grants_named(store@.permissions.take(0), permission_name@));
        }
        while i < n
            invariant
                0 <= i <= n,
                n == store@.permissions.len(),
                n == store.permissions@.len(),
                out.deep_view() == grants_named(
                    store@.permissions.take(i as int),
                    permission_name@,
                ),
            decreases n - i,
        {
            let ghost pre_out = out.deep_view();
            let matched = str_eq(store.permissions[i].name.as_str(), permission_name);
            if matched {
                out.push(store.permissions[i].clone());
            }
            proof {
                reveal(Seq::filter);
                let s = store@.permissions;
                assert(s.take(i as int + 1).drop_last() =~= s.take(i as int));
                assert(s.take(i as int + 1).last() == s[i as int]);
                if matched {
                    assert(out.deep_view() =~= pre_out.push(s[i as int]));
                }
            }
            i = i + 1;
        }
        proof {
            assert(store@.permissions.take(n as int) =~= store@.permissions);
        }
        Ok(out)
    }

    /// Grants (user, name). Idempotent: a no-op when an identical grant
    /// already exists, so granting twice leaves a single row. The existence
    /// check and the insert are one atomic step here.
    pub fn grant_permission(
        store: &mut IdentityStore,
        the_user_id: i32,
        permission_name: &str,
    ) -> (r: Result<(), ModelError>)
        requires
            old(store).wf(),
            old(store)@.next_permission_id < i32::MAX as int,
        ensures
            final(store).wf(),
            final(store)@ == grant_permission_spec(
                old(store)@,
                the_user_id as int,
                permission_name@,
            ),
            r is Ok,
    {
        let ghost pre = store@;
        proof {
            lemma_grant_permission_wf(pre, the_user_id as int, permission_name@);
        }
        // if an existing equivalent permission exists, nop
        let existing = match Permission::find_by_user_id_and_name(
            store,
            the_user_id,
            permission_name,
        ) {
            Ok(o) => o,
            Err(e) => {
                return Err(e);
            },
        };
        if existing.is_some() {
            return Ok(());
        }
        // no existing permission, make a new one
        let p = Permission {
            id: store.next_permission_id,
            user_id: the_user_id,
            name: permission_name.to_owned(),
        };
        let ghost p_view = p@;
        store.permissions.push(p);
        store.next_permission_id = store.next_permission_id + 1;
        proof {
            assert(p_view =~= PermissionView {
                id: pre.next_permission_id,
                user_id: the_user_id as int,
                name: permission_name@,
            });
            assert(store@.permissions =~= pre.permissions.push(p_view));
            assert(store@ =~= grant_permission_spec(pre, the_user_id as int, permission_name@));
        }
        Ok(())
    }

    /// Revokes (user, name), returning how many grant rows went away: zero or
    /// one under the store's invariant, and never an error when nothing was
    /// granted.
    pub fn revoke_permission(
        store: &mut IdentityStore,
        the_user_id: i32,
        permission_name: &str,
    ) -> (r: Result<usize, ModelError>)
        requires
            old(store).wf(),
        ensures
            final(store).wf(),
            final(store)@ == revoke_permission_spec(
                old(store)@,
                the_user_id as int,
                permission_name@,
            ),
            r matches Ok(c) && c as int == old(store)@.permissions.len()
                - final(store)@.permissions.len(),
    {
        let ghost pre = store@;
        proof {
            lemma_revoke_permission_wf(pre, the_user_id as int, permission_name@);
        }
        let mut kept: Vec<Permission> = Vec::new();
        let mut removed: usize = 0;
        let n = store.permissions.len();
        let mut i: usize = 0;
        proof {
            reveal(Seq::filter);
            assert(store@.permissions.take(0) =~= Seq::<PermissionView>::empty());
            assert(kept.deep_view() =~= grants_after_revoke(
                store@.permissions.take(0),
                the_user_id as int,
                permission_name@,
            ));
        }
        while i < n
            invariant
                0 <= i <= n,
                n == store@.permissions.len(),
                n == store.permissions@.len(),
                store@ == pre,
                pre == old(store)@,
                kept.deep_view() == grants_after_revoke(
                    pre.permissions.take(i as int),
                    the_user_id as int,
                    permission_name@,
                ),
                removed as int == i - kept@.len(),
                kept@.len() <= i,
            decreases n - i,
        {
            let ghost pre_kept = kept.deep_view();
            let matched = store.permissions[i].user_id == the_user_id && str_eq(
                store.permissions[i].name.as_str(),
                permission_name,
            );
            if matched {
                removed = removed + 1;
            } else {
                kept.push(store.permissions[i].clone());
            }
            proof {
                reveal(Seq::filter);
                let s = pre.permissions;
                assert(s.take(i as int + 1).drop_last() =~= s.take(i as int));
                assert(s.take(i as int + 1).last() == s[i as int]);
                if !matched {
                    assert(kept.deep_view() =~= pre_kept.push(s[i as int]));
                }
            }
            i = i + 1;
        }
        store.permissions = kept;
        proof {
            assert(pre.permissions.take(n as int) =~= pre.permissions);
            assert(store@ =~= revoke_permission_spec(
                pre,
                the_user_id as int,
                permission_name@,
            ));
        }
        Ok(removed)
    }

    /// Finds the grant row for (user, name), if any.
    pub fn find_by_user_id_and_name(
        store: &IdentityStore,
        the_user_id: i32,
        permission_name: &str,
    ) -> (r: Result<Option<Permission>, ModelError>)
        ensures
            r matches Ok(o) && o.deep_view() == find_permission(
                store@.permissions,
                the_user_id as int,
                permission_name@,
            ),
    {
        let n = store.permissions.len();
        let mut i: usize = 0;
        while i < n
            invariant
                0 <= i <= n,
                n == store@.permissions.len(),
                n == store.permissions@.len(),
                forall|j: int|
                    0 <= j < i ==> !((#[trigger] store@.permissions[j]).user_id
                        == the_user_id as int && store@.permissions[j].name == permission_name@),
            decreases n - i,
        {
            if store.permissions[i].user_id == the_user_id && str_eq(
                store.permissions[i].name.as_str(),
                permission_name,
            ) {
                proof {
                    lemma_find_permission_at(
                        store@.permissions,
                        the_user_id as int,
                        permission_name@,
                        i as int,
                    );
                }
                return Ok(Some(store.permissions[i].clone()));
            }
            i = i + 1;
        }
        proof {
            lemma_find_permission_none(store@.permissions, the_user_id as int, permission_name@);
        }
        Ok(None)
    }
}

} // verus!
