use udevgames_auth::controllers::delete;
use udevgames_auth::controllers::get_github_authorization_url;
use udevgames_auth::controllers::get_session;
use udevgames_auth::controllers::github_callback;
use udevgames_auth::controllers::logout;
use udevgames_auth::controllers::DeleteSessionInput;
use udevgames_auth::controllers::GetGithubAuthorizationUrlInput;
use udevgames_auth::controllers::GetSessionInput;
use udevgames_auth::controllers::GithubCallbackInput;
use udevgames_auth::controllers::GithubCallbackQueryParams;
use udevgames_auth::controllers::HandlerError;
use udevgames_auth::github_client::GetAccessTokenResponse;
use udevgames_auth::github_client::GithubClient;
use udevgames_auth::github_client::GithubClientError;
use udevgames_auth::github_client::UserDetailResponse;
use udevgames_auth::github_user_records::GithubUserRecord;
use udevgames_auth::icons::Icon;
use udevgames_auth::maybe_user::MaybeUser;
use udevgames_auth::permissions::Permission;
use udevgames_auth::provisioning::grant_to_known_login;
use udevgames_auth::provisioning::logins_with_permission;
use udevgames_auth::provisioning::permissions_of_login;
use udevgames_auth::provisioning::provision_and_grant;
use udevgames_auth::provisioning::revoke_from_login;
use udevgames_auth::session::Session;
use udevgames_auth::store::IdentityStore;
use udevgames_auth::store::ModelError;
use udevgames_auth::text::parse_user_id_str;
use udevgames_auth::text::to_dec_string;
use udevgames_auth::users::User;

fn profile(id: i64, login: &str) -> UserDetailResponse {
    UserDetailResponse {
        id,
        login: login.to_string(),
        avatar_url: "a".to_string(),
        html_url: "h".to_string(),
    }
}

#[test]
fn callback_logs_in_provisioned_user() {
    let mut store = IdentityStore::new();
    for _ in 0..7 {
        User::create(&mut store).unwrap();
    }
    GithubUserRecord::find_and_update(&mut store, 42, 7, "ed", "a", "h").unwrap();
    Permission::grant_permission(&mut store, 7, "admin").unwrap();
    let mut session = Session::new();
    // the code-for-token and token-for-profile exchange happened at the edge
    // and reported this profile
    let output = github_callback(&store, &mut session, &profile(42, "ed")).unwrap();
    assert_eq!(session.user_id.as_deref(), Some("7"));
    assert_eq!(output.user.id, 7);
    assert_eq!(output.user.github_user_id, 42);
    assert_eq!(output.user.login, "ed");
    assert_eq!(output.permissions, vec!["admin".to_string()]);
}

#[test]
fn callback_unknown_external_identity_is_not_found() {
    let mut store = IdentityStore::new();
    User::create(&mut store).unwrap();
    GithubUserRecord::find_and_update(&mut store, 42, 1, "ed", "a", "h").unwrap();
    let mut session = Session::new();
    let err = github_callback(&store, &mut session, &profile(99, "mallory")).unwrap_err();
    assert_eq!(err, HandlerError::NotFound);
    assert!(session.user_id.is_none(), "a failed callback writes no credential");
}

#[test]
fn callback_dangling_user_is_not_found() {
    let mut store = IdentityStore::new();
    User::create(&mut store).unwrap();
    // the identity points at a user id nobody has
    GithubUserRecord::find_and_update(&mut store, 42, 9, "ed", "a", "h").unwrap();
    let mut session = Session::new();
    let err = github_callback(&store, &mut session, &profile(42, "ed")).unwrap_err();
    assert_eq!(err, HandlerError::NotFound);
    assert!(session.user_id.is_none());
}

#[test]
fn authorization_url_is_deterministic() {
    let client = GithubClient::new("id123", "SECRET-REDACTED");
    assert_eq!(
        client.authorization_url(),
        "http://github.com/login/oauth/authorize?client_id=id123"
    );
    assert_eq!(get_github_authorization_url(&client).url, client.authorization_url());
    let shown = client.debug_string();
    assert_eq!(shown, "GithubClient { client_id: id123, client_secret: REDACTED }");
    assert!(!shown.contains("SECRET"), "the client secret never leaves the server");
}

#[test]
fn session_value_round_trip() {
    assert_eq!(to_dec_string(0), "0");
    assert_eq!(to_dec_string(7), "7");
    assert_eq!(to_dec_string(2147483647), "2147483647");
    for n in [0u32, 1, 9, 10, 42, 1000, 2147483647] {
        assert_eq!(parse_user_id_str(&to_dec_string(n)), Some(n as i32));
    }
    assert_eq!(parse_user_id_str("007"), Some(7));
    for bad in ["", "abc", "-1", "+7", " 7", "2147483648", "99999999999999999999"] {
        assert_eq!(parse_user_id_str(bad), None, "{:?} is not a user id", bad);
    }
}

#[test]
fn handler_error_codes_and_messages() {
    assert_eq!(HandlerError::NotFound.status_code(), 404);
    assert_eq!(HandlerError::DatabaseError(ModelError::NotFound).status_code(), 500);
    assert_eq!(
        HandlerError::HttpError(GithubClientError::HttpError("down".to_string())).status_code(),
        500
    );
    assert_eq!(HandlerError::NotAuthorized.status_code(), 401);
    assert_eq!(HandlerError::Forbidden.status_code(), 403);
    assert_eq!(HandlerError::NotFound.external_message(), "The resource was not found");
    assert_eq!(HandlerError::NotAuthorized.external_message(), "You are unauthorized");
}

#[test]
fn get_session_reports_user_or_nobody() {
    let signed_in = MaybeUser {
        user: Some((
            User { id: 7, preferred_name: "Bob".to_string() },
            GithubUserRecord {
                id: 42,
                user_id: 7,
                login: "ed".to_string(),
                avatar_url: "a".to_string(),
                html_url: "h".to_string(),
            },
        )),
        permissions: vec!["admin".to_string()],
    };
    let output = get_session(signed_in);
    let identity = output.user.expect("a signed-in session names its user");
    assert_eq!(identity.id, 7);
    assert_eq!(identity.github_user_id, 42);
    assert_eq!(identity.login, "ed");
    assert_eq!(output.permissions, vec!["admin".to_string()]);

    let anonymous = MaybeUser { user: None, permissions: vec![] };
    let output = get_session(anonymous);
    assert!(output.user.is_none());
    assert!(output.permissions.is_empty());
}

#[test]
fn delete_and_logout_clear_the_session() {
    let mut session = Session { user_id: Some("7".to_string()) };
    delete(&mut session, DeleteSessionInput {});
    assert!(session.user_id.is_none());
    let mut session = Session { user_id: Some("7".to_string()) };
    logout(&mut session);
    assert!(session.user_id.is_none());
}

#[test]
fn icon_catalogue_is_complete_and_ordered() {
    let icons = Icon::get_all();
    assert_eq!(icons.len(), 9);
    assert_eq!(icons[0].file, "blender.png");
    assert_eq!(icons[0].display_name, "Blender3D");
    assert_eq!(icons[8].file, "youtube.svg");
    assert_eq!(icons[8].display_name, "Youtube");
}

#[test]
fn request_and_response_shapes_are_plain_values() {
    let input = GithubCallbackInput { code: "abc".to_string() };
    let params = GithubCallbackQueryParams { code: "abc".to_string() };
    assert_eq!(input.code, params.code);
    let token = GetAccessTokenResponse {
        access_token: "tok1".to_string(),
        token_type: "bearer".to_string(),
        scope: "".to_string(),
    };
    assert_eq!(token.access_token, "tok1");
    assert_eq!(GetSessionInput {}, GetSessionInput {});
    assert_eq!(GetGithubAuthorizationUrlInput {}, GetGithubAuthorizationUrlInput {});
    assert_eq!(DeleteSessionInput {}, DeleteSessionInput {});
}

#[test]
fn grant_by_login_provisions_once_then_reuses() {
    let mut store = IdentityStore::new();
    // nobody has this login yet: the caller must fetch the profile first
    let unknown = grant_to_known_login(&mut store, "ed", "admin").unwrap();
    assert!(unknown.is_none());
    // out-of-band provisioning with the fetched profile
    let (user, record) = provision_and_grant(&mut store, &profile(42, "ed"), "admin").unwrap();
    assert_eq!(user.id, 1);
    assert_eq!(record.id, 42);
    assert_eq!(record.user_id, 1);
    // a later grant by the same login reuses the account
    let known = grant_to_known_login(&mut store, "ed", "editor").unwrap().unwrap();
    assert_eq!(known.id, 1);
    assert_eq!(store.users.len(), 1);
    let granted = permissions_of_login(&store, "ed").unwrap().unwrap();
    let names: Vec<&str> = granted.iter().map(|p| p.name.as_str()).collect();
    assert_eq!(names, vec!["admin", "editor"]);
    assert!(permissions_of_login(&store, "ned").unwrap().is_none());
    let admins = logins_with_permission(&store, "admin").unwrap();
    assert_eq!(admins, vec![Some("ed".to_string())]);
    let removed = revoke_from_login(&mut store, "ed", "admin").unwrap();
    assert_eq!(removed, Some(1));
    assert_eq!(revoke_from_login(&mut store, "ned", "admin").unwrap(), None);
}
