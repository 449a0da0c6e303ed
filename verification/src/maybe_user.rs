//! The request-level optional-identity guard used by the JSON session
//! endpoints. It behaves exactly like [`crate::user_optional::UserOptional`]:
//! it never rejects a request, and it surfaces a user without an external
//! identity as the data-integrity error it is rather than downgrading it to
//! anonymity.

use vstd::prelude::*;

verus! {

use crate::github_user_records::GithubUserRecord;
use crate::helpers::AuthFromSessionError;
use crate::helpers::Resolution;
use crate::helpers::auth_from_session;
use crate::helpers::resolve;
use crate::session::Session;
use crate::store::IdentityStore;
use crate::store::grants_for;
use crate::store::names_of;
use crate::users::User;

/// A request's identity, when there is one.
#[derive(Debug)]
pub struct MaybeUser {
    /// The current user and their external identity, if signed in.
    pub user: Option<(User, GithubUserRecord)>,
    /// The permissions the current user has; empty for anonymity.
    pub permissions: Vec<String>,
}

impl MaybeUser {
    /// Resolves the session into an identity that may be anonymous.
    pub fn from_session(store: &IdentityStore, session: &mut Session) -> (r: Result<
        MaybeUser,
        AuthFromSessionError,
    >)
        ensures
            match resolve(store@, old(session)@) {
                Resolution::Anonymous => final(session)@ == old(session)@ && (r matches Ok(m)
                    && m.user is None && m.permissions@.len() == 0),
                Resolution::Healed => final(session)@ is None && (r matches Ok(m)
                    && m.user is None && m.permissions@.len() == 0),
                Resolution::Inconsistent { user } => final(session)@ == old(session)@ && (
                r matches Err(AuthFromSessionError::GithubUserRecordNotFound(uid)) && uid as int
                    == user.id),
                Resolution::Identified { user, github_user } => final(session)@ == old(session)@
                    && (r matches Ok(m) && m.user matches Some(t) && t.0@ == user && t.1@
                    == github_user && m.permissions.deep_view() == names_of(
                    grants_for(store@.permissions, user.id),
                )),
            },
    {
        match auth_from_session(store, session) {
            Ok(Some((user, github_user, permissions))) => Ok(
                MaybeUser { user: Some((user, github_user)), permissions },
            ),
            Ok(None) => Ok(MaybeUser { user: None, permissions: Vec::new() }),
            Err(e) => Err(e),
        }
    }
}

} // verus!
