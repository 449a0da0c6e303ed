//! The admin-only guard: requires a resolved identity holding the "admin"
//! permission, and otherwise fails closed. No handler runs past a failed
//! guard. Anonymity and a missing permission fail differently — the caller
//! answers one with "who are you" and the other with "you may not" — but both
//! terminate the request. An authorization failure is never reported as a
//! missing resource: that call belongs to resource handlers.

use vstd::prelude::*;

verus! {

use crate::github_user_records::GithubUserRecord;
use crate::helpers::AuthFromSessionError;
use crate::helpers::Resolution;
use crate::helpers::TemplateContextUser;
use crate::helpers::auth_from_session;
use crate::helpers::resolve;
use crate::session::Session;
use crate::store::IdentityStore;
use crate::store::grants_for;
use crate::store::names_of;
use crate::text::clone_names;
use crate::text::has_name;
use crate::text::names_contain;
use crate::users::User;
use vstd::string::StringExecFns;

/// A request's identity once the admin-only guard has let it through.
#[derive(Debug)]
pub struct AdminOnly {
    /// The current user and their external identity.
    pub user: (User, GithubUserRecord),
    /// The permissions the current user has; "admin" is among them.
    pub permissions: Vec<String>,
}

/// The context an admin-only page hands to its template.
#[derive(Debug)]
pub struct AdminOnlyContext {
    /// The user driving the request.
    pub user: TemplateContextUser,
}

impl AdminOnly {
    /// Resolves the session and lets the request through only for a user
    /// holding "admin". Anonymity (and a healed stale credential) fails with
    /// `NoUser`; a resolved identity without "admin" fails with
    /// `RoleNotMatched`; a user without an external identity is surfaced as
    /// the data-integrity error it is.
    pub fn from_session(store: &IdentityStore, session: &mut Session) -> (r: Result<
        AdminOnly,
        AuthFromSessionError,
    >)
        ensures
            match resolve(store@, old(session)@) {
                Resolution::Anonymous => final(session)@ == old(session)@ && (
                r matches Err(AuthFromSessionError::NoUser)),
                Resolution::Healed => final(session)@ is None && (
                r matches Err(AuthFromSessionError::NoUser)),
                Resolution::Inconsistent { user } => final(session)@ == old(session)@ && (
                r matches Err(AuthFromSessionError::GithubUserRecordNotFound(uid)) && uid as int
                    == user.id),
                Resolution::Identified { user, github_user } => final(session)@ == old(session)@
                    && ({
                    let names = names_of(grants_for(store@.permissions, user.id));
                    if has_name(names, "admin"@) {
                        r matches Ok(a) && a.user.0@ == user && a.user.1@ == github_user
                            && a.permissions.deep_view() == names
                    } else {
                        r matches Err(AuthFromSessionError::RoleNotMatched(n, ps)) && n@
                            == "admin"@ && ps.deep_view() == names
                    }
                }),
            },
    {
        match auth_from_session(store, session) {
            Ok(Some((user, github_user, permissions))) => {
                if !names_contain(&permissions, "admin") {
                    return Err(
                        AuthFromSessionError::RoleNotMatched(
                            String::from_str("admin"),
                            permissions,
                        ),
                    );
                }
                Ok(AdminOnly { user: (user, github_user), permissions })
            },
            Ok(None) => Err(AuthFromSessionError::NoUser),
            Err(e) => Err(e),
        }
    }

    /// Produces a serializable context that can be passed to a template.
    pub fn to_context(&self) -> (r: AdminOnlyContext)
        ensures
            r.user.id == self.user.0.id,
            r.user.login@ == self.user.1.login@,
            r.user.permissions.deep_view() == self.permissions.deep_view(),
    {
        AdminOnlyContext {
            user: TemplateContextUser {
                id: self.user.0.id,
                login: self.user.1.login.clone(),
                permissions: clone_names(&self.permissions),
            },
        }
    }

    /// The id of the user driving the request.
    pub fn get_id(&self) -> (r: i32)
        ensures
            r == self.user.0.id,
    {
        self.user.0.id
    }
}

} // verus!
