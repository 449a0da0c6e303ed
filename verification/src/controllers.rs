//! Session endpoints and the login callback orchestration, together with the
//! unified handler error.
//!
//! The transport hands these functions plain values — the resolved guard, the
//! session, the profile the provider reported — and takes plain values back
//! to serialize or render. Completing a login runs in the order the redirect
//! dictates: exchange the code, fetch the profile, look the external identity
//! up, look its user up, write the session credential, and answer with the
//! resolved identity. An ordinary login never provisions an account: a
//! profile nobody pre-provisioned fails with `NotFound`, by design.

use vstd::prelude::*;

verus! {

use crate::github_client::GithubClientError;
use crate::github_client::UserDetailResponse;
use crate::github_user_records::GithubUserRecord;
use crate::helpers::AuthFromSessionError;
use crate::helpers::permission_names;
use crate::maybe_user::MaybeUser;
use crate::permissions::Permission;
use crate::session::Session;
use crate::store::IdentityStore;
use crate::store::ModelError;
use crate::store::find_github_user_by_id;
use crate::store::find_user_by_id;
use crate::store::grants_for;
use crate::store::names_of;
use crate::text::dec_str;
use crate::text::to_dec_string;
use crate::users::User;

/// Unified error type for the request handlers. Every failure of the core
/// maps to one of these, and each carries no more detail than the client may
/// see.
#[derive(Debug, PartialEq)]
pub enum HandlerError {
    /// The resource was not found.
    NotFound,
    /// The store could not be queried.
    DatabaseError(ModelError),
    /// The OAuth provider was unreachable or answered something unexpected.
    HttpError(GithubClientError),
    /// No identity is present where one is required.
    NotAuthorized,
    /// An identity is present but lacks the required permission.
    Forbidden,
}

/// The status code each handler error answers with. An authorization failure
/// is never 404: hiding a resource's existence is the resource handlers'
/// decision, not the guards'.
pub open spec fn status_code_spec(e: HandlerError) -> u16 {
    match e {
        HandlerError::NotFound => 404,
        HandlerError::DatabaseError(_) => 500,
        HandlerError::HttpError(_) => 500,
        HandlerError::NotAuthorized => 401,
        HandlerError::Forbidden => 403,
    }
}

/// The message each handler error shows the client. Internal detail — raw
/// store or transport errors — is never echoed outward.
pub open spec fn external_message_spec(e: HandlerError) -> Seq<char> {
    match e {
        HandlerError::NotFound => "The resource was not found"@,
        HandlerError::DatabaseError(_) => "Unable to query database"@,
        HandlerError::HttpError(_) => "Unable to contact a remote server"@,
        HandlerError::NotAuthorized => "You are unauthorized"@,
        HandlerError::Forbidden => "You may not do that"@,
    }
}

impl HandlerError {
    /// The HTTP status code this error answers with.
    pub fn status_code(&self) -> (r: u16)
        ensures
            r == status_code_spec(*self),
    {
        match self {
            HandlerError::NotFound => 404,
            HandlerError::DatabaseError(_) => 500,
            HandlerError::HttpError(_) => 500,
            HandlerError::NotAuthorized => 401,
            HandlerError::Forbidden => 403,
        }
    }

    /// The generic message shown to the client.
    pub fn external_message(&self) -> (r: &'static str)
        ensures
            r@ == external_message_spec(*self),
    {
        match self {
            HandlerError::NotFound => "The resource was not found",
            HandlerError::DatabaseError(_) => "Unable to query database",
            HandlerError::HttpError(_) => "Unable to contact a remote server",
            HandlerError::NotAuthorized => "You are unauthorized",
            HandlerError::Forbidden => "You may not do that",
        }
    }
}

impl From<AuthFromSessionError> for HandlerError {
    /// Anonymity where an identity is required answers 401, a missing
    /// permission 403, and a broken identity invariant is a missing resource.
    fn from(error: AuthFromSessionError) -> HandlerError {
        match error {
            AuthFromSessionError::DbQueryError(e) => HandlerError::DatabaseError(e),
            AuthFromSessionError::GithubUserRecordNotFound(_uid) => HandlerError::NotFound,
            AuthFromSessionError::RoleNotMatched(_, _) => HandlerError::Forbidden,
            AuthFromSessionError::NoUser => HandlerError::NotAuthorized,
        }
    }
}

impl vstd::std_specs::convert::FromSpecImpl<AuthFromSessionError> for HandlerError {
    open spec fn obeys_from_spec() -> bool {
        true
    }

    open spec fn from_spec(error: AuthFromSessionError) -> HandlerError {
        match error {
            AuthFromSessionError::DbQueryError(e) => HandlerError::DatabaseError(e),
            AuthFromSessionError::GithubUserRecordNotFound(_uid) => HandlerError::NotFound,
            AuthFromSessionError::RoleNotMatched(_, _) => HandlerError::Forbidden,
            AuthFromSessionError::NoUser => HandlerError::NotAuthorized,
        }
    }
}

impl From<ModelError> for HandlerError {
    fn from(error: ModelError) -> HandlerError {
        HandlerError::DatabaseError(error)
    }
}

impl vstd::std_specs::convert::FromSpecImpl<ModelError> for HandlerError {
    open spec fn obeys_from_spec() -> bool {
        true
    }

    open spec fn from_spec(error: ModelError) -> HandlerError {
        HandlerError::DatabaseError(error)
    }
}

impl From<GithubClientError> for HandlerError {
    fn from(error: GithubClientError) -> HandlerError {
        HandlerError::HttpError(error)
    }
}

impl vstd::std_specs::convert::FromSpecImpl<GithubClientError> for HandlerError {
    open spec fn obeys_from_spec() -> bool {
        true
    }

    open spec fn from_spec(error: GithubClientError) -> HandlerError {
        HandlerError::HttpError(error)
    }
}

/// The concept of a session identity which is re-used by several calls.
#[derive(Debug, PartialEq)]
pub struct SessionIdentity {
    /// The local user id.
    pub id: i32,
    /// The provider's durable id for the user.
    pub github_user_id: i64,
    /// The user's handle at the provider.
    pub login: String,
}

/// Input of the session query; it carries nothing.
#[derive(Debug, PartialEq)]
pub struct GetSessionInput {}

/// Describes the currently logged in user, if there is a user logged in, and
/// their permissions; the permission list is empty when nobody is.
#[derive(Debug, PartialEq)]
pub struct GetSessionOutput {
    pub user: Option<SessionIdentity>,
    pub permissions: Vec<String>,
}

/// Input of the authorization-url query; it carries nothing.
#[derive(Debug, PartialEq)]
pub struct GetGithubAuthorizationUrlInput {}

/// The URL that a client should redirect the user to in order to start the
/// login process.
#[derive(Debug, PartialEq)]
pub struct GetGithubAuthorizationUrlOutput {
    pub url: String,
}

/// The code the provider's redirect carries back to us.
#[derive(Debug, PartialEq)]
pub struct GithubCallbackInput {
    pub code: String,
}

/// The code the provider's redirect carries back to us, as the query string
/// holds it.
#[derive(Debug, PartialEq)]
pub struct GithubCallbackQueryParams {
    pub code: String,
}

/// Anything we want to communicate back to the client on successful login.
#[derive(Debug, PartialEq)]
pub struct GithubCallbackOutput {
    pub user: SessionIdentity,
    pub permissions: Vec<String>,
}

/// Input of the session delete; it carries nothing.
#[derive(Debug, PartialEq)]
pub struct DeleteSessionInput {}

/// Output of the session delete; it carries nothing.
#[derive(Debug, PartialEq)]
pub struct DeleteSessionOutput {}

/// Describes the currently logged in user, if there is a user logged in.
pub fn get_session(user: MaybeUser) -> (r: GetSessionOutput)
    ensures
        match user.user {
            Some(t) => r.user matches Some(si) && si.id == t.0.id && si.github_user_id == t.1.id
                && si.login@ == t.1.login@ && r.permissions == user.permissions,
            None => r.user is None && r.permissions@.len() == 0,
        },
{
    match user.user {
        Some(u) => GetSessionOutput {
            user: Some(
                SessionIdentity { id: u.0.id, github_user_id: u.1.id, login: u.1.login },
            ),
            permissions: user.permissions,
        },
        None => GetSessionOutput { user: None, permissions: Vec::new() },
    }
}

/// The URL that a client should redirect the user to in order to start the
/// login process.
pub fn get_github_authorization_url(
    client: &crate::github_client::GithubClient,
) -> (r: GetGithubAuthorizationUrlOutput)
    ensures
        r.url@ == crate::github_client::authorization_url_spec(client.client_id@),
{
    GetGithubAuthorizationUrlOutput { url: client.authorization_url() }
}

/// Finishes authenticating with the provider once the exchanged profile is in
/// hand: the profile's id must name a known external identity, and that
/// identity's user must exist. Anything else is `NotFound` — an ordinary
/// login never provisions an account; accounts appear only through the
/// administrative grant path.
pub fn auth_with_github(store: &IdentityStore, user_detail: &UserDetailResponse) -> (r: Result<
    (User, GithubUserRecord),
    HandlerError,
>)
    ensures
        match find_github_user_by_id(store@.github_users, user_detail.id as int) {
            None => r matches Err(HandlerError::NotFound),
            Some(g) => match find_user_by_id(store@.users, g.user_id) {
                None => r matches Err(HandlerError::NotFound),
                Some(u) => r matches Ok(t) && t.0@ == u && t.1@ == g,
            },
        },
{
    let github_user = match GithubUserRecord::find_by_id(store, user_detail.id) {
        Ok(Some(gu)) => gu,
        Ok(None) => {
            return Err(HandlerError::NotFound);
        },
        Err(e) => {
            return Err(HandlerError::DatabaseError(e));
        },
    };
    let user = match User::find_by_id(store, github_user.user_id) {
        Ok(Some(u)) => u,
        Ok(None) => {
            return Err(HandlerError::NotFound);
        },
        Err(e) => {
            return Err(HandlerError::DatabaseError(e));
        },
    };
    Ok((user, github_user))
}

/// Completes a login after the provider redirect, given the profile that the
/// code exchange produced. On success the session credential becomes the
/// resolved user's id in decimal, and the answer carries the identity and its
/// permission names; on failure nothing is written to the session.
pub fn github_callback(
    store: &IdentityStore,
    session: &mut Session,
    user_detail: &UserDetailResponse,
) -> (r: Result<GithubCallbackOutput, HandlerError>)
    requires
        store.wf(),
    ensures
        match find_github_user_by_id(store@.github_users, user_detail.id as int) {
            None => r matches Err(HandlerError::NotFound) && final(session)@ == old(session)@,
            Some(g) => match find_user_by_id(store@.users, g.user_id) {
                None => r matches Err(HandlerError::NotFound) && final(session)@ == old(
                    session,
                )@,
                Some(u) => r matches Ok(o) && o.user.id == u.id && o.user.github_user_id == g.id
                    && o.user.login@ == g.login && o.permissions.deep_view() == names_of(
                    grants_for(store@.permissions, u.id),
                ) && final(session)@ == Some(dec_str(u.id as nat)),
            },
        },
{
    let (user, github_user) = match auth_with_github(store, user_detail) {
        Ok(t) => t,
        Err(e) => {
            return Err(e);
        },
    };
    let rows = match Permission::find_by_user_id(store, user.id) {
        Ok(rows) => rows,
        Err(e) => {
            return Err(HandlerError::DatabaseError(e));
        },
    };
    let names = permission_names(&rows);
    proof {
        let g = find_github_user_by_id(store@.github_users, user_detail.id as int).unwrap();
        let u = find_user_by_id(store@.users, g.user_id).unwrap();
        crate::store::lemma_find_user_by_id_some(store@.users, g.user_id);
        let i = choose|i: int| 0 <= i < store@.users.len() && store@.users[i] == u;
        assert(1 <= store@.users[i].id);
    }
    session.set_user_id(to_dec_string(user.id as u32));
    Ok(
        GithubCallbackOutput {
            user: SessionIdentity {
                id: user.id,
                github_user_id: github_user.id,
                login: github_user.login,
            },
            permissions: names,
        },
    )
}

/// Logs the user out: the session credential is removed and nothing else
/// happens. Idempotent.
pub fn delete(session: &mut Session, _input: DeleteSessionInput) -> (r: DeleteSessionOutput)
    ensures
        final(session)@ is None,
{
    session.remove_user_id();
    DeleteSessionOutput {}
}

/// Logs the user out. Pitches everything the core ever set on the session.
pub fn logout(session: &mut Session)
    ensures
        final(session)@ is None,
{
    session.clear();
}

} // verus!
