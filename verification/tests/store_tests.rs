use udevgames_auth::github_user_records::GithubUserRecord;
use udevgames_auth::permissions::Permission;
use udevgames_auth::store::IdentityStore;
use udevgames_auth::store::ModelError;
use udevgames_auth::users::User;

fn store_with_users(n: usize) -> IdentityStore {
    let mut store = IdentityStore::new();
    for _ in 0..n {
        User::create(&mut store).unwrap();
    }
    store
}

#[test]
fn create_assigns_sequential_ids() {
    let mut store = IdentityStore::new();
    let a = User::create(&mut store).unwrap();
    let b = User::create(&mut store).unwrap();
    let c = User::create(&mut store).unwrap();
    assert_eq!(a.id, 1);
    assert_eq!(b.id, 2);
    assert_eq!(c.id, 3);
    assert_eq!(a.preferred_name, "Bob");
    assert_eq!(store.users.len(), 3);
}

#[test]
fn find_user_by_id_hits_and_misses() {
    let store = store_with_users(3);
    let found = User::find_by_id(&store, 2).unwrap();
    assert_eq!(found.unwrap().id, 2);
    let missing = User::find_by_id(&store, 17).unwrap();
    assert!(missing.is_none());
}

#[test]
fn grant_twice_leaves_one_row() {
    let mut store = store_with_users(1);
    Permission::grant_permission(&mut store, 1, "admin").unwrap();
    Permission::grant_permission(&mut store, 1, "admin").unwrap();
    let rows = Permission::find_by_user_id(&store, 1).unwrap();
    assert_eq!(rows.len(), 1);
    assert_eq!(rows[0].user_id, 1);
    assert_eq!(rows[0].name, "admin");
}

#[test]
fn revoke_never_granted_returns_zero() {
    let mut store = store_with_users(1);
    let removed = Permission::revoke_permission(&mut store, 1, "admin").unwrap();
    assert_eq!(removed, 0);
}

#[test]
fn revoke_removes_granted_row() {
    let mut store = store_with_users(2);
    Permission::grant_permission(&mut store, 1, "admin").unwrap();
    Permission::grant_permission(&mut store, 2, "admin").unwrap();
    let removed = Permission::revoke_permission(&mut store, 1, "admin").unwrap();
    assert_eq!(removed, 1);
    assert!(Permission::find_by_user_id(&store, 1).unwrap().is_empty());
    assert_eq!(Permission::find_by_user_id(&store, 2).unwrap().len(), 1);
}

#[test]
fn upsert_inserts_then_skips_identical_write() {
    let mut store = store_with_users(1);
    let first = GithubUserRecord::find_and_update(
        &mut store,
        42,
        1,
        "ed",
        "https://example.com/a.png",
        "https://example.com/ed",
    )
    .unwrap();
    assert_eq!(first.id, 42);
    assert_eq!(first.user_id, 1);
    let rows_before = store.github_users.clone();
    let second = GithubUserRecord::find_and_update(
        &mut store,
        42,
        1,
        "ed",
        "https://example.com/a.png",
        "https://example.com/ed",
    )
    .unwrap();
    assert_eq!(second, first);
    assert_eq!(store.github_users, rows_before);
}

#[test]
fn upsert_changed_login_updates_only_that_row() {
    let mut store = store_with_users(2);
    GithubUserRecord::find_and_update(&mut store, 42, 1, "ed", "a", "h").unwrap();
    GithubUserRecord::find_and_update(&mut store, 43, 2, "ann", "a2", "h2").unwrap();
    let updated = GithubUserRecord::find_and_update(&mut store, 42, 1, "edward", "a", "h")
        .unwrap();
    assert_eq!(updated.login, "edward");
    assert_eq!(updated.user_id, 1);
    let other = GithubUserRecord::find_by_id(&store, 43).unwrap().unwrap();
    assert_eq!(other.login, "ann");
    assert_eq!(other.user_id, 2);
    assert_eq!(store.github_users.len(), 2);
}

#[test]
fn find_record_by_login_and_user_id() {
    let mut store = store_with_users(1);
    GithubUserRecord::find_and_update(&mut store, 42, 1, "ed", "a", "h").unwrap();
    let by_login = GithubUserRecord::find_by_login(&store, "ed").unwrap().unwrap();
    assert_eq!(by_login.id, 42);
    let by_user = GithubUserRecord::find_by_user_id(&store, 1).unwrap().unwrap();
    assert_eq!(by_user.id, 42);
    assert!(GithubUserRecord::find_by_login(&store, "ned").unwrap().is_none());
    assert!(GithubUserRecord::find_by_user_id(&store, 9).unwrap().is_none());
}

#[test]
fn get_user_errors_on_dangling_link() {
    let mut store = store_with_users(1);
    // link the record to a user id nobody has
    let record = GithubUserRecord::find_and_update(&mut store, 42, 12, "ed", "a", "h").unwrap();
    let err = record.get_user(&store).unwrap_err();
    assert_eq!(err, ModelError::NotFound);
}

#[test]
fn find_permissions_by_user_and_name() {
    let mut store = store_with_users(2);
    Permission::grant_permission(&mut store, 1, "admin").unwrap();
    Permission::grant_permission(&mut store, 1, "banned").unwrap();
    Permission::grant_permission(&mut store, 2, "admin").unwrap();
    let of_one = Permission::find_by_user_id(&store, 1).unwrap();
    let names: Vec<&str> = of_one.iter().map(|p| p.name.as_str()).collect();
    assert_eq!(names, vec!["admin", "banned"]);
    let admins = Permission::find_by_name(&store, "admin").unwrap();
    let holders: Vec<i32> = admins.iter().map(|p| p.user_id).collect();
    assert_eq!(holders, vec![1, 2]);
    let pair = Permission::find_by_user_id_and_name(&store, 1, "banned").unwrap();
    assert!(pair.is_some());
    let no_pair = Permission::find_by_user_id_and_name(&store, 2, "banned").unwrap();
    assert!(no_pair.is_none());
}
