//! The OAuth exchange client's data and its pure parts.
//!
//! The client performs exactly two remote calls per login — code for token,
//! then token for profile — plus an unauthenticated profile lookup by login
//! used only by administrative tooling. The calls themselves are transport
//! work and live with the caller that owns the HTTP stack; this module holds
//! the configuration, the deterministic construction of the authorization
//! URL, and the plain shapes of the two responses. The access token returned
//! by the exchange is only ever an immediate input to the profile fetch: it
//! is never logged, persisted, or sent to the client.

use vstd::prelude::*;

verus! {

use vstd::string::StringExecFns;

/// The redirect URL that starts the OAuth workflow for a client id.
pub open spec fn authorization_url_spec(client_id: Seq<char>) -> Seq<char> {
    "http://github.com/login/oauth/authorize?client_id="@ + client_id
}

/// Configuration for interfacing with the OAuth provider: our application id,
/// which is exposed publicly, and the client secret, which is known only to
/// us and to the provider.
pub struct GithubClient {
    /// The OAuth client id. This one gets exposed publicly.
    pub client_id: String,
    /// The secret key that is known only to us on the server and to the
    /// provider. Keep this one private!
    pub client_secret: String,
}

impl GithubClient {
    /// Remembers the application's id and secret.
    pub fn new(client_id: &str, client_secret: &str) -> (r: Self)
        ensures
            r.client_id@ == client_id@,
            r.client_secret@ == client_secret@,
    {
        GithubClient { client_id: client_id.to_owned(), client_secret: client_secret.to_owned() }
    }

    /// The URL to send a user to in order to start the OAuth workflow. Pure
    /// and deterministic in the client id; no network is involved.
    pub fn authorization_url(&self) -> (r: String)
        ensures
            r@ == authorization_url_spec(self.client_id@),
    {
        let mut url = String::from_str("http://github.com/login/oauth/authorize?client_id=");
        url.append(self.client_id.as_str());
        url
    }

    /// A printable description that leaves the client secret out; the secret
    /// never appears in logs.
    pub fn debug_string(&self) -> (r: String)
        ensures
            r@ == "GithubClient { client_id: "@ + self.client_id@
                + ", client_secret: REDACTED }"@,
    {
        let mut s = String::from_str("GithubClient { client_id: ");
        s.append(self.client_id.as_str());
        s.append(", client_secret: REDACTED }");
        s
    }
}

/// The response the provider sends back for our access code. Everything but
/// the token is ignored by the core; the token must never be logged or
/// persisted.
#[derive(Debug, PartialEq)]
pub struct GetAccessTokenResponse {
    pub access_token: String,
    pub token_type: String,
    pub scope: String,
}

/// The profile the provider reports for a user. The id is the durable key; a
/// user may rename, so the login only pre-populates their identity here.
#[derive(Debug, PartialEq)]
pub struct UserDetailResponse {
    pub id: i64,
    pub login: String,
    pub avatar_url: String,
    pub html_url: String,
}

/// How a call to the provider can fail: the transport failed or the answer
/// was not the expected shape. Carries the transport's own message.
#[derive(Debug, PartialEq)]
pub enum GithubClientError {
    HttpError(String),
}

} // verus!
