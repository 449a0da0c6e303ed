//! The session identity resolver.
//!
//! Whenever a request needs an identity, the resolver maps the session
//! credential to one of three outcomes, in this order: no credential means
//! anonymous; a credential that does not read as the id of an existing user
//! is removed from the session and also yields anonymous, so a stale or
//! tampered credential can never wedge a session; a credential that resolves
//! to a user yields that user, their external identity and their permission
//! names. A user without a linked external identity is a data-integrity
//! error, surfaced as such and never silently downgraded to anonymous.

use vstd::prelude::*;

verus! {

use crate::github_user_records::GithubUserRecord;
use crate::github_user_records::GithubUserView;
use crate::permissions::Permission;
use crate::session::Session;
use crate::store::IdentityStore;
use crate::store::ModelError;
use crate::store::StoreView;
use crate::store::find_github_user_by_user_id;
use crate::store::find_user_by_id;
use crate::store::grants_for;
use crate::store::lemma_find_user_by_id_some;
use crate::store::names_of;
use crate::store::permission_names_of;
use crate::text::parse_user_id;
use crate::text::parse_user_id_str;
use crate::users::User;
use crate::users::UserView;

/// What this user's id and handle look like to a template, together with the
/// permissions they hold.
#[derive(Debug, PartialEq)]
pub struct TemplateContextUser {
    /// The user's numeric id.
    pub id: i32,
    /// The user's login at the OAuth provider.
    pub login: String,
    /// List of the user's permissions.
    pub permissions: Vec<String>,
}

/// How resolving a session credential can fail. The resolver itself only
/// reports the data-integrity case; the two role-related cases belong to the
/// admin-only guard built on top of it.
#[derive(Debug, PartialEq)]
pub enum AuthFromSessionError {
    /// The store could not be queried.
    DbQueryError(ModelError),
    /// The resolved user has no linked external identity record: the store
    /// broke the invariant that every user created through login has one.
    /// Carries the user id in question.
    GithubUserRecordNotFound(i32),
    /// An identity was resolved but lacks the required permission. Carries
    /// the required name and the permissions actually held.
    RoleNotMatched(String, Vec<String>),
    /// No identity was resolved where one is required.
    NoUser,
}

/// The resolver's verdict on a session credential against a store.
pub ghost enum Resolution {
    /// No credential is present.
    Anonymous,
    /// A credential is present but does not name an existing user; it is
    /// removed, and the request proceeds as anonymous.
    Healed,
    /// The credential names a user with no linked external identity.
    Inconsistent { user: UserView },
    /// The credential names a user with a linked external identity.
    Identified { user: UserView, github_user: GithubUserView },
}

/// The outcome of resolving `cred` against `sv`, evaluated exactly in the
/// order the resolver works: presence, then parse, then the user row, then
/// the external identity row.
pub open spec fn resolve(sv: StoreView, cred: Option<Seq<char>>) -> Resolution {
    match cred {
        None => Resolution::Anonymous,
        Some(s) => match parse_user_id(s) {
            None => Resolution::Healed,
            Some(uid) => match find_user_by_id(sv.users, uid) {
                None => Resolution::Healed,
                Some(u) => match find_github_user_by_user_id(sv.github_users, u.id) {
                    None => Resolution::Inconsistent { user: u },
                    Some(g) => Resolution::Identified { user: u, github_user: g },
                },
            },
        },
    }
}

/// Copies the names out of a list of grant rows, in order.
pub fn permission_names(rows: &Vec<Permission>) -> (r: Vec<String>)
    ensures
        r.deep_view() == names_of(rows.deep_view()),
{
    let mut out: Vec<String> = Vec::new();
    let n = rows.len();
    let mut i: usize = 0;
    proof {
        assert(out.deep_view() =~= names_of(rows.deep_view().take(0)));
    }
    while i < n
        invariant
            0 <= i <= n,
            n == rows@.len(),
            out.deep_view() == names_of(rows.deep_view().take(i as int)),
        decreases n - i,
    {
        let ghost pre_out = out.deep_view();
        out.push(rows[i].name.clone());
        proof {
            assert(out.deep_view() =~= pre_out.push(rows@[i as int].name@));
            assert(names_of(rows.deep_view().take(i as int + 1)) =~= pre_out.push(
                rows@[i as int].name@,
            ));
        }
        i = i + 1;
    }
    proof {
        assert(rows.deep_view().take(n as int) =~= rows.deep_view());
    }
    out
}

/// Resolves the session credential against the store: `Ok(None)` for no (or a
/// healed) credential, `Ok(Some(...))` for a resolved identity with its
/// permission names, and an error when the store's integrity is broken. The
/// permissions returned are exactly the names granted to the resolved user.
pub fn auth_from_session(store: &IdentityStore, session: &mut Session) -> (r: Result<
    Option<(User, GithubUserRecord, Vec<String>)>,
    AuthFromSessionError,
>)
    ensures
        match resolve(store@, old(session)@) {
            Resolution::Anonymous => r matches Ok(None) && final(session)@ == old(session)@,
            Resolution::Healed => r matches Ok(None) && final(session)@ is None,
            Resolution::Inconsistent { user } => final(session)@ == old(session)@ && (
            r matches Err(AuthFromSessionError::GithubUserRecordNotFound(uid)) && uid as int
                == user.id),
            Resolution::Identified { user, github_user } => final(session)@ == old(session)@ && (
            r matches Ok(Some(t)) && t.0@ == user && t.1@ == github_user && t.2.deep_view()
                == names_of(grants_for(store@.permissions, user.id)) && t.2.deep_view().to_set()
                == permission_names_of(store@, user.id)),
        },
{
    let uid_parsed = match &session.user_id {
        None => {
            return Ok(None);
        },
        Some(s) => parse_user_id_str(s.as_str()),
    };
    let uid = match uid_parsed {
        Some(uid) => uid,
        None => {
            session.remove_user_id();
            return Ok(None);
        },
    };
    let user = match User::find_by_id(store, uid) {
        Ok(Some(user)) => user,
        Ok(None) => {
            // remove the nonexistent user from the session, effectively
            // logging out the user
            session.remove_user_id();
            return Ok(None);
        },
        Err(e) => {
            return Err(AuthFromSessionError::DbQueryError(e));
        },
    };
    proof {
        lemma_find_user_by_id_some(store@.users, uid as int);
    }
    let github_user = match GithubUserRecord::find_by_user_id(store, user.id) {
        Ok(Some(github_user)) => github_user,
        Ok(None) => {
            // no linked external identity is a data-integrity problem, not a
            // login problem: surface it
            return Err(AuthFromSessionError::GithubUserRecordNotFound(user.id));
        },
        Err(e) => {
            return Err(AuthFromSessionError::DbQueryError(e));
        },
    };
    let rows = match Permission::find_by_user_id(store, user.id) {
        Ok(rows) => rows,
        Err(e) => {
            return Err(AuthFromSessionError::DbQueryError(e));
        },
    };
    let names = permission_names(&rows);
    Ok(Some((user, github_user, names)))
}

} // verus!
