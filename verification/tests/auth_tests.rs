use udevgames_auth::admin_only::AdminOnly;
use udevgames_auth::controllers::HandlerError;
use udevgames_auth::github_user_records::GithubUserRecord;
use udevgames_auth::helpers::auth_from_session;
use udevgames_auth::helpers::AuthFromSessionError;
use udevgames_auth::maybe_user::MaybeUser;
use udevgames_auth::permissions::Permission;
use udevgames_auth::session::Session;
use udevgames_auth::store::IdentityStore;
use udevgames_auth::user_optional::UserOptional;
use udevgames_auth::users::User;

/// A store with one fully provisioned user: id 1, linked external identity
/// 42 under the login "ed", holding the given permissions.
fn provisioned_store(permissions: &[&str]) -> IdentityStore {
    let mut store = IdentityStore::new();
    User::create(&mut store).unwrap();
    GithubUserRecord::find_and_update(&mut store, 42, 1, "ed", "a", "h").unwrap();
    for name in permissions {
        Permission::grant_permission(&mut store, 1, name).unwrap();
    }
    store
}

fn session_for(user_id: &str) -> Session {
    Session { user_id: Some(user_id.to_string()) }
}

#[test]
fn resolver_returns_exact_permission_set() {
    let store = provisioned_store(&["admin", "banned", "editor"]);
    let mut session = session_for("1");
    let (user, github_user, mut names) =
        auth_from_session(&store, &mut session).unwrap().unwrap();
    assert_eq!(user.id, 1);
    assert_eq!(github_user.id, 42);
    names.sort();
    assert_eq!(names, vec!["admin", "banned", "editor"]);
    // the credential survives a successful resolution
    assert_eq!(session.user_id.as_deref(), Some("1"));
}

#[test]
fn resolver_is_anonymous_without_credential() {
    let store = provisioned_store(&["admin"]);
    let mut session = Session::new();
    let resolved = auth_from_session(&store, &mut session).unwrap();
    assert!(resolved.is_none());
    assert!(session.user_id.is_none());
}

#[test]
fn resolver_heals_stale_credential_twice() {
    let store = provisioned_store(&["admin"]);
    // a credential naming a user nobody has
    let mut session = session_for("999");
    let resolved = auth_from_session(&store, &mut session).unwrap();
    assert!(resolved.is_none());
    assert!(session.user_id.is_none(), "the stale credential must be removed");
    // a new request arriving with the same pre-removal cookie state resolves
    // to anonymous again, never to an error
    let mut replayed = session_for("999");
    let resolved_again = auth_from_session(&store, &mut replayed).unwrap();
    assert!(resolved_again.is_none());
    assert!(replayed.user_id.is_none());
}

#[test]
fn resolver_heals_garbage_credential() {
    let store = provisioned_store(&["admin"]);
    for garbage in ["", "x12", "-1", "+7", "99999999999999999999"] {
        let mut session = session_for(garbage);
        let resolved = auth_from_session(&store, &mut session).unwrap();
        assert!(resolved.is_none(), "credential {:?} must resolve to anonymous", garbage);
        assert!(session.user_id.is_none(), "credential {:?} must be removed", garbage);
    }
}

#[test]
fn resolver_surfaces_missing_external_identity() {
    let mut store = IdentityStore::new();
    User::create(&mut store).unwrap();
    let mut session = session_for("1");
    let err = auth_from_session(&store, &mut session).unwrap_err();
    assert_eq!(err, AuthFromSessionError::GithubUserRecordNotFound(1));
    // this is an integrity error, not a logout
    assert_eq!(session.user_id.as_deref(), Some("1"));
}

#[test]
fn admin_only_rejects_anonymous_as_unauthorized() {
    let store = provisioned_store(&["admin"]);
    let mut session = Session::new();
    let err = AdminOnly::from_session(&store, &mut session).unwrap_err();
    assert_eq!(err, AuthFromSessionError::NoUser);
    assert_eq!(HandlerError::from(err).status_code(), 401);
}

#[test]
fn admin_only_rejects_non_admin_as_forbidden() {
    let store = provisioned_store(&["editor"]);
    let mut session = session_for("1");
    let err = AdminOnly::from_session(&store, &mut session).unwrap_err();
    match &err {
        AuthFromSessionError::RoleNotMatched(required, held) => {
            assert_eq!(required, "admin");
            assert_eq!(held, &vec!["editor".to_string()]);
        }
        other => panic!("expected RoleNotMatched, got {:?}", other),
    }
    assert_eq!(HandlerError::from(err).status_code(), 403);
}

#[test]
fn admin_only_passes_admin_with_resolved_user() {
    let store = provisioned_store(&["admin"]);
    let mut session = session_for("1");
    let admin = AdminOnly::from_session(&store, &mut session).unwrap();
    assert_eq!(admin.user.0.id, 1);
    assert_eq!(admin.user.1.id, 42);
    assert_eq!(admin.get_id(), 1);
    assert_eq!(admin.permissions, vec!["admin".to_string()]);
    let context = admin.to_context();
    assert_eq!(context.user.id, 1);
    assert_eq!(context.user.login, "ed");
}

#[test]
fn user_optional_carries_identity_or_anonymity() {
    let store = provisioned_store(&["admin"]);
    let mut session = session_for("1");
    let signed_in = UserOptional::from_session(&store, &mut session).unwrap();
    assert!(signed_in.is_admin());
    let context = signed_in.to_context();
    let context_user = context.user.expect("a signed-in context carries the user");
    assert_eq!(context_user.id, 1);
    assert_eq!(context_user.login, "ed");
    assert_eq!(context_user.permissions, vec!["admin".to_string()]);

    let mut anonymous_session = Session::new();
    let anonymous = UserOptional::from_session(&store, &mut anonymous_session).unwrap();
    assert!(!anonymous.is_admin());
    assert!(anonymous.to_context().user.is_none());
}

#[test]
fn is_admin_is_false_without_the_exact_name() {
    let store = provisioned_store(&["Admin", "administrator"]);
    let mut session = session_for("1");
    let user = UserOptional::from_session(&store, &mut session).unwrap();
    // permission names are case-sensitive and matched whole
    assert!(!user.is_admin());
}

#[test]
fn maybe_user_mirrors_the_optional_guard() {
    let store = provisioned_store(&["admin"]);
    let mut session = session_for("1");
    let present = MaybeUser::from_session(&store, &mut session).unwrap();
    let (user, github_user) = present.user.expect("signed in");
    assert_eq!(user.id, 1);
    assert_eq!(github_user.login, "ed");
    assert_eq!(present.permissions, vec!["admin".to_string()]);

    let mut anonymous_session = Session::new();
    let absent = MaybeUser::from_session(&store, &mut anonymous_session).unwrap();
    assert!(absent.user.is_none());
    assert!(absent.permissions.is_empty());
}
