//! Administrative provisioning: granting, revoking and listing permissions by
//! a user's login.
//!
//! This is the out-of-band path that creates accounts. Granting to a login
//! nobody has stored yet asks the caller to fetch that login's profile from
//! the provider and provision an account for it; ordinary logins never do.
//! The asymmetry is a product rule — there is no self-service signup — and it
//! lives here as an explicit branch, not an accident.

use vstd::prelude::*;

verus! {

use crate::github_client::UserDetailResponse;
use crate::github_user_records::GithubUserRecord;
use crate::permissions::Permission;
use crate::store::IdentityStore;
use crate::store::ModelError;
use crate::store::create_user_spec;
use crate::store::find_github_user_by_login;
use crate::store::find_github_user_by_user_id;
use crate::store::find_user_by_id;
use crate::store::grant_permission_spec;
use crate::store::grants_for;
use crate::store::grants_named;
use crate::store::revoke_permission_spec;
use crate::store::upsert_github_user_row;
use crate::store::upsert_github_user_spec;
use crate::users::User;

/// Grants `permission_name` to the user behind a login the store already
/// knows. `Ok(None)` means the login is unknown here: the caller should fetch
/// the login's profile from the provider and continue with
/// [`provision_and_grant`]. A stored login whose user row is missing is the
/// schema violation it looks like.
pub fn grant_to_known_login(
    store: &mut IdentityStore,
    the_login: &str,
    permission_name: &str,
) -> (r: Result<Option<User>, ModelError>)
    requires
        old(store).wf(),
        old(store)@.next_permission_id < i32::MAX as int,
    ensures
        final(store).wf(),
        match find_github_user_by_login(old(store)@.github_users, the_login@) {
            None => r matches Ok(None) && final(store)@ == old(store)@,
            Some(g) => match find_user_by_id(old(store)@.users, g.user_id) {
                None => r matches Err(ModelError::NotFound) && final(store)@ == old(store)@,
                Some(u) => r matches Ok(Some(ru)) && ru@ == u && final(store)@
                    == grant_permission_spec(old(store)@, u.id, permission_name@),
            },
        },
{
    let github_user = match GithubUserRecord::find_by_login(store, the_login) {
        Ok(Some(gu)) => gu,
        Ok(None) => {
            return Ok(None);
        },
        Err(e) => {
            return Err(e);
        },
    };
    let user = match github_user.get_user(store) {
        Ok(u) => u,
        Err(e) => {
            return Err(e);
        },
    };
    match Permission::grant_permission(store, user.id, permission_name) {
        Ok(()) => Ok(Some(user)),
        Err(e) => Err(e),
    }
}

/// Provisions an account for a profile the provider reported, and grants it
/// `permission_name`: one fresh user, the external identity written to match
/// the profile, and the grant, as one logical step.
pub fn provision_and_grant(
    store: &mut IdentityStore,
    user_detail: &UserDetailResponse,
    permission_name: &str,
) -> (r: Result<(User, GithubUserRecord), ModelError>)
    requires
        old(store).wf(),
        old(store)@.next_user_id < i32::MAX as int,
        old(store)@.next_permission_id < i32::MAX as int,
    ensures
        final(store).wf(),
        ({
            let created = create_user_spec(old(store)@);
            let upserted = upsert_github_user_spec(
                created.0,
                user_detail.id as int,
                created.1.id,
                user_detail.login@,
                user_detail.avatar_url@,
                user_detail.html_url@,
            );
            &&& final(store)@ == grant_permission_spec(upserted, created.1.id, permission_name@)
            &&& r matches Ok(t) && t.0@ == created.1 && t.1@ == upsert_github_user_row(
                created.0,
                user_detail.id as int,
                created.1.id,
                user_detail.login@,
                user_detail.avatar_url@,
                user_detail.html_url@,
            )
        }),
{
    let user = match User::create(store) {
        Ok(u) => u,
        Err(e) => {
            return Err(e);
        },
    };
    let github_user = match GithubUserRecord::find_and_update(
        store,
        user_detail.id,
        user.id,
        user_detail.login.as_str(),
        user_detail.avatar_url.as_str(),
        user_detail.html_url.as_str(),
    ) {
        Ok(gu) => gu,
        Err(e) => {
            return Err(e);
        },
    };
    match Permission::grant_permission(store, user.id, permission_name) {
        Ok(()) => Ok((user, github_user)),
        Err(e) => Err(e),
    }
}

/// Revokes `permission_name` from the user behind a login. `Ok(None)` means
/// no such login is stored — someone may simply have typed the wrong name;
/// otherwise the count of grant rows removed comes back, zero when nothing
/// was granted.
pub fn revoke_from_login(
    store: &mut IdentityStore,
    the_login: &str,
    permission_name: &str,
) -> (r: Result<Option<usize>, ModelError>)
    requires
        old(store).wf(),
    ensures
        final(store).wf(),
        match find_github_user_by_login(old(store)@.github_users, the_login@) {
            None => r matches Ok(None) && final(store)@ == old(store)@,
            Some(g) => match find_user_by_id(old(store)@.users, g.user_id) {
                None => r matches Err(ModelError::NotFound) && final(store)@ == old(store)@,
                Some(u) => r matches Ok(Some(c)) && final(store)@ == revoke_permission_spec(
                    old(store)@,
                    u.id,
                    permission_name@,
                ) && c as int == old(store)@.permissions.len() - final(store)@.permissions.len(),
            },
        },
{
    let github_user = match GithubUserRecord::find_by_login(store, the_login) {
        Ok(Some(gu)) => gu,
        Ok(None) => {
            return Ok(None);
        },
        Err(e) => {
            return Err(e);
        },
    };
    let user = match github_user.get_user(store) {
        Ok(u) => u,
        Err(e) => {
            return Err(e);
        },
    };
    match Permission::revoke_permission(store, user.id, permission_name) {
        Ok(c) => Ok(Some(c)),
        Err(e) => Err(e),
    }
}

/// All permissions held by the user behind a login, or `None` when no such
/// login is stored.
pub fn permissions_of_login(store: &IdentityStore, the_login: &str) -> (r: Result<
    Option<Vec<Permission>>,
    ModelError,
>)
    ensures
        match find_github_user_by_login(store@.github_users, the_login@) {
            None => r matches Ok(None),
            Some(g) => r matches Ok(Some(v)) && v.deep_view() == grants_for(
                store@.permissions,
                g.user_id,
            ),
        },
{
    let github_user = match GithubUserRecord::find_by_login(store, the_login) {
        Ok(Some(gu)) => gu,
        Ok(None) => {
            return Ok(None);
        },
        Err(e) => {
            return Err(e);
        },
    };
    match Permission::find_by_user_id(store, github_user.user_id) {
        Ok(v) => Ok(Some(v)),
        Err(e) => Err(e),
    }
}

/// The login behind each grant row carrying a permission name, in store
/// order; a grant whose user has no stored external identity yields `None` in
/// its place.
pub fn logins_with_permission(store: &IdentityStore, permission_name: &str) -> (r: Result<
    Vec<Option<String>>,
    ModelError,
>)
    ensures
        r matches Ok(v) && v.deep_view() == grants_named(
            store@.permissions,
            permission_name@,
        ).map_values(
            |p: crate::permissions::PermissionView|
                match find_github_user_by_user_id(store@.github_users, p.user_id) {
                    Some(g) => Some(g.login),
                    None => None,
                },
        ),
{
    let rows = match Permission::find_by_name(store, permission_name) {
        Ok(rows) => rows,
        Err(e) => {
            return Err(e);
        },
    };
    let ghost grants = grants_named(store@.permissions, permission_name@);
    let mut out: Vec<Option<String>> = Vec::new();
    let n = rows.len();
    let mut i: usize = 0;
    while i < n
        invariant
            0 <= i <= n,
            n == rows@.len(),
            rows.deep_view() == grants,
            out@.len() == i,
            forall|j: int|
                0 <= j < i ==> #[trigger] out.deep_view()[j] == match find_github_user_by_user_id(
                    store@.github_users,
                    grants[j].user_id,
                ) {
                    Some(g) => Some(g.login),
                    None => None,
                },
        decreases n - i,
    {
        let entry = match GithubUserRecord::find_by_user_id(store, rows[i].user_id) {
            Ok(Some(gu)) => Some(gu.login),
            Ok(None) => None,
            Err(e) => {
                return Err(e);
            },
        };
        let ghost pre_out = out.deep_view();
        let ghost entry_view = entry.deep_view();
        out.push(entry);
        proof {
            assert(rows.deep_view()[i as int] == rows@[i as int]@);
            assert(grants[i as int].user_id == rows@[i as int].user_id as int);
            assert(out.deep_view() =~= pre_out.push(entry_view));
            assert(entry_view == match find_github_user_by_user_id(
                store@.github_users,
                grants[i as int].user_id,
            ) {
                Some(g) => Some(g.login),
                None => None,
            });
        }
        i = i + 1;
    }
    proof {
        let mapped = grants.map_values(
            |p: crate::permissions::PermissionView|
                match find_github_user_by_user_id(store@.github_users, p.user_id) {
                    Some(g) => Some(g.login),
                    None => None,
                },
        );
        assert(out.deep_view() =~= mapped);
    }
    Ok(out)
}

} // verus!
