//! The optional-identity guard: always succeeds, carrying either the resolved
//! identity or anonymity. It never rejects a request.

use vstd::prelude::*;

verus! {

use crate::github_user_records::GithubUserRecord;
use crate::helpers::AuthFromSessionError;
use crate::helpers::Resolution;
use crate::helpers::TemplateContextUser;
use crate::helpers::auth_from_session;
use crate::helpers::resolve;
use crate::session::Session;
use crate::store::IdentityStore;
use crate::store::grants_for;
use crate::store::names_of;
use crate::text::clone_names;
use crate::text::has_name;
use crate::text::names_contain;
use crate::users::User;

/// A request's identity, when there is one.
#[derive(Debug)]
pub struct UserOptional {
    /// The current user and their external identity, or is it?
    pub user: Option<(User, GithubUserRecord)>,
    /// The permissions the current user has, if any. Empty for anonymity.
    pub permissions: Vec<String>,
}

/// The context that goes to a template. To check for the presence of a user,
/// test the `user` field. This should always sit in the `auth` field of a
/// template context.
#[derive(Debug)]
pub struct UserOptionalContext {
    /// The user, or is it?
    pub user: Option<TemplateContextUser>,
}

impl UserOptional {
    /// Resolves the session into an identity that may be anonymous. Anonymity
    /// (including a healed stale credential) is success with no user and no
    /// permissions; a resolved identity carries exactly its granted names; a
    /// user without an external identity is surfaced as an error.
    pub fn from_session(store: &IdentityStore, session: &mut Session) -> (r: Result<
        UserOptional,
        AuthFromSessionError,
    >)
        ensures
            match resolve(store@, old(session)@) {
                Resolution::Anonymous => final(session)@ == old(session)@ && (r matches Ok(uo)
                    && uo.user is None && uo.permissions@.len() == 0),
                Resolution::Healed => final(session)@ is None && (r matches Ok(uo)
                    && uo.user is None && uo.permissions@.len() == 0),
                Resolution::Inconsistent { user } => final(session)@ == old(session)@ && (
                r matches Err(AuthFromSessionError::GithubUserRecordNotFound(uid)) && uid as int
                    == user.id),
                Resolution::Identified { user, github_user } => final(session)@ == old(session)@
                    && (r matches Ok(uo) && uo.user matches Some(t) && t.0@ == user && t.1@
                    == github_user && uo.permissions.deep_view() == names_of(
                    grants_for(store@.permissions, user.id),
                )),
            },
    {
        match auth_from_session(store, session) {
            Ok(Some((user, github_user, permissions))) => Ok(
                UserOptional { user: Some((user, github_user)), permissions },
            ),
            Ok(None) => Ok(UserOptional { user: None, permissions: Vec::new() }),
            Err(e) => Err(e),
        }
    }

    /// Produces a serializable context that can be passed to a template.
    pub fn to_context(&self) -> (r: UserOptionalContext)
        ensures
            match self.user {
                Some(t) => r.user matches Some(c) && c.id == t.0.id && c.login@ == t.1.login@
                    && c.permissions.deep_view() == self.permissions.deep_view(),
                None => r.user is None,
            },
    {
        UserOptionalContext {
            user: match &self.user {
                Some(u) => Some(
                    TemplateContextUser {
                        id: u.0.id,
                        login: u.1.login.clone(),
                        permissions: clone_names(&self.permissions),
                    },
                ),
                None => None,
            },
        }
    }

    /// Whether the current user holds the "admin" permission; false for
    /// anonymity, whose permission list is empty.
    pub fn is_admin(&self) -> (r: bool)
        ensures
            r == has_name(self.permissions.deep_view(), "admin"@),
    {
        names_contain(&self.permissions, "admin")
    }
}

} // verus!
