//! The laws the store and the resolver obey across calls: self-healing of
//! stale credentials, idempotence of granting, harmlessness of revoking what
//! was never granted, the conservative write policy of the identity upsert,
//! and the round trip from a completed login back through the resolver.

use vstd::prelude::*;

verus! {

use crate::github_user_records::GithubUserView;
use crate::helpers::Resolution;
use crate::helpers::resolve;
use crate::permissions::PermissionView;
use crate::store::StoreView;
use crate::store::find_github_user_by_id;
use crate::store::find_github_user_by_user_id;
use crate::store::find_permission;
use crate::store::find_user_by_id;
use crate::store::github_user_row;
use crate::store::grant_permission_spec;
use crate::store::grant_rows;
use crate::store::grants_after_revoke;
use crate::store::grants_for;
use crate::store::lemma_filter_element_of;
use crate::store::lemma_find_github_user_by_id_at;
use crate::store::lemma_find_github_user_by_id_some;
use crate::store::lemma_find_permission_at;
use crate::store::lemma_find_permission_none;
use crate::store::lemma_find_permission_some;
use crate::store::names_of;
use crate::store::permission_names_of;
use crate::store::revoke_permission_spec;
use crate::store::store_wf;
use crate::store::upsert_github_user_spec;
use crate::text::dec_str;
use crate::text::lemma_dec_str_val;
use crate::text::parse_user_id;
use crate::users::UserView;

/// A session credential that does not name an existing user — whether it
/// fails to parse or parses to an id with no user row — resolves by healing:
/// the resolver removes it and reports anonymity, never an error. And once
/// healed, the now-empty session resolves to anonymity on every later
/// request.
pub proof fn lemma_stale_credential_heals(sv: StoreView, cred: Seq<char>)
    requires
        match parse_user_id(cred) {
            Some(uid) => find_user_by_id(sv.users, uid) is None,
            None => true,
        },
    ensures
        resolve(sv, Some(cred)) == Resolution::Healed,
        resolve(sv, None) == Resolution::Anonymous,
{
}

/// Revoking a pair that was never granted removes nothing: the store is
/// unchanged, so the removed count is zero.
pub proof fn lemma_revoke_absent_is_noop(sv: StoreView, user_id: int, name: Seq<char>)
    requires
        find_permission(sv.permissions, user_id, name) is None,
    ensures
        revoke_permission_spec(sv, user_id, name) == sv,
{
    lemma_find_permission_none(sv.permissions, user_id, name);
    lemma_keep_all(sv.permissions, user_id, name);
    assert(revoke_permission_spec(sv, user_id, name) =~= sv);
}

/// When no row matches (user, name), the revoke filter keeps every row.
proof fn lemma_keep_all(ps: Seq<PermissionView>, user_id: int, name: Seq<char>)
    requires
        forall|j: int|
            0 <= j < ps.len() ==> !((#[trigger] ps[j]).user_id == user_id && ps[j].name == name),
    ensures
        grants_after_revoke(ps, user_id, name) == ps,
    decreases ps.len(),
{
    reveal(Seq::filter);
    if ps.len() > 0 {
        let d = ps.drop_last();
        assert(forall|j: int| 0 <= j < d.len() ==> #[trigger] d[j] == ps[j]);
        lemma_keep_all(d, user_id, name);
        assert(grants_after_revoke(ps, user_id, name) =~= ps);
    } else {
        assert(grants_after_revoke(ps, user_id, name) =~= ps);
    }
}

/// When no row matches (user, name), there are no grant rows for the pair.
proof fn lemma_grant_rows_empty(ps: Seq<PermissionView>, user_id: int, name: Seq<char>)
    requires
        forall|j: int|
            0 <= j < ps.len() ==> !((#[trigger] ps[j]).user_id == user_id && ps[j].name == name),
    ensures
        grant_rows(ps, user_id, name).len() == 0,
    decreases ps.len(),
{
    reveal(Seq::filter);
    if ps.len() > 0 {
        let d = ps.drop_last();
        assert(forall|j: int| 0 <= j < d.len() ==> #[trigger] d[j] == ps[j]);
        lemma_grant_rows_empty(d, user_id, name);
    }
}

/// Under the store invariant at most one grant row matches a pair.
proof fn lemma_grant_rows_at_most_one(ps: Seq<PermissionView>, user_id: int, name: Seq<char>)
    requires
        forall|i: int, j: int|
            0 <= i < j < ps.len() ==> !((#[trigger] ps[i]).user_id == (#[trigger] ps[j]).user_id
                && ps[i].name == ps[j].name),
    ensures
        grant_rows(ps, user_id, name).len() <= 1,
    decreases ps.len(),
{
    reveal(Seq::filter);
    if ps.len() > 0 {
        let d = ps.drop_last();
        assert(forall|j: int| 0 <= j < d.len() ==> #[trigger] d[j] == ps[j]);
        lemma_grant_rows_at_most_one(d, user_id, name);
        let last = ps.last();
        if last.user_id == user_id && last.name == name {
            assert forall|j: int|
                0 <= j < d.len() implies !((#[trigger] d[j]).user_id == user_id && d[j].name
                == name) by {
                assert(!(ps[j].user_id == ps[ps.len() - 1].user_id && ps[j].name == ps[ps.len()
                    - 1].name));
            }
            lemma_grant_rows_empty(d, user_id, name);
        }
    }
}

/// Granting is idempotent: granting (user, name) twice is the same store as
/// granting it once, and after a grant exactly one row holds the pair.
pub proof fn lemma_grant_idempotent(sv: StoreView, user_id: int, name: Seq<char>)
    requires
        store_wf(sv),
        sv.next_permission_id < i32::MAX as int,
    ensures
        grant_permission_spec(grant_permission_spec(sv, user_id, name), user_id, name)
            == grant_permission_spec(sv, user_id, name),
        grant_rows(grant_permission_spec(sv, user_id, name).permissions, user_id, name).len()
            == 1,
{
    reveal(Seq::filter);
    let once = grant_permission_spec(sv, user_id, name);
    if find_permission(sv.permissions, user_id, name) is Some {
        lemma_find_permission_some(sv.permissions, user_id, name);
        let p = find_permission(sv.permissions, user_id, name).unwrap();
        let k = choose|k: int| 0 <= k < sv.permissions.len() && sv.permissions[k] == p;
        lemma_grant_rows_at_most_one(sv.permissions, user_id, name);
        sv.permissions.lemma_filter_contains(
            |q: PermissionView| q.user_id == user_id && q.name == name,
            k,
        );
        assert(grant_rows(sv.permissions, user_id, name).len() >= 1);
    } else {
        lemma_find_permission_none(sv.permissions, user_id, name);
        let row = PermissionView { id: sv.next_permission_id, user_id, name };
        let ps = sv.permissions;
        let ps2 = once.permissions;
        assert(ps2 =~= ps.push(row));
        assert(forall|j: int| 0 <= j < ps.len() ==> #[trigger] ps2[j] == ps[j]);
        // the new row is the first (and only) match, so a second grant nops
        lemma_find_permission_at(ps2, user_id, name, ps.len() as int);
        assert(grant_permission_spec(once, user_id, name) == once);
        // counting: the old rows contribute nothing, the new row one
        lemma_grant_rows_empty(ps, user_id, name);
        assert(ps2.drop_last() =~= ps);
        assert(grant_rows(ps2, user_id, name) =~= grant_rows(ps, user_id, name).push(row));
    }
}

/// Upserting the same profile twice writes nothing the second time: the
/// store after the second upsert is exactly the store after the first.
pub proof fn lemma_upsert_idempotent(
    sv: StoreView,
    id: int,
    user_id: int,
    login: Seq<char>,
    avatar_url: Seq<char>,
    html_url: Seq<char>,
)
    requires
        store_wf(sv),
    ensures
        ({
            let once = upsert_github_user_spec(sv, id, user_id, login, avatar_url, html_url);
            upsert_github_user_spec(once, id, user_id, login, avatar_url, html_url) == once
        }),
{
    let row = github_user_row(id, user_id, login, avatar_url, html_url);
    let once = upsert_github_user_spec(sv, id, user_id, login, avatar_url, html_url);
    match find_github_user_by_id(sv.github_users, id) {
        None => {
            crate::store::lemma_find_github_user_by_id_none(sv.github_users, id);
            assert(once.github_users =~= sv.github_users.push(row));
            assert(forall|j: int|
                0 <= j < sv.github_users.len() ==> #[trigger] once.github_users[j]
                    == sv.github_users[j]);
            lemma_find_github_user_by_id_at(once.github_users, id, sv.github_users.len() as int);
            assert(upsert_github_user_spec(once, id, user_id, login, avatar_url, html_url)
                =~= once);
        },
        Some(g) => {
            if g.login == login && g.avatar_url == avatar_url && g.html_url == html_url {
                assert(upsert_github_user_spec(once, id, user_id, login, avatar_url, html_url)
                    == once);
            } else {
                lemma_find_github_user_by_id_some(sv.github_users, id);
                let k = choose|k: int|
                    0 <= k < sv.github_users.len() && sv.github_users[k] == g;
                assert forall|j: int| 0 <= j < k implies (#[trigger] once.github_users[j]).id
                    != id by {
                    assert(sv.github_users[j].id != sv.github_users[k].id);
                }
                assert(once.github_users[k] == row);
                lemma_find_github_user_by_id_at(once.github_users, id, k);
                assert(upsert_github_user_spec(once, id, user_id, login, avatar_url, html_url)
                    =~= once);
            }
        },
    }
}

/// An upsert that reports one changed field — a new login, say — rewrites
/// only the row with that provider id: every other row stays, the row keeps
/// its provider id and its local user id, and only the reported fields move.
pub proof fn lemma_upsert_changed_login(
    sv: StoreView,
    id: int,
    new_login: Seq<char>,
)
    requires
        store_wf(sv),
        find_github_user_by_id(sv.github_users, id) is Some,
        ({
            let g = find_github_user_by_id(sv.github_users, id).unwrap();
            g.login != new_login
        }),
    ensures
        ({
            let g = find_github_user_by_id(sv.github_users, id).unwrap();
            let post = upsert_github_user_spec(
                sv,
                id,
                g.user_id,
                new_login,
                g.avatar_url,
                g.html_url,
            );
            &&& post.users == sv.users
            &&& post.permissions == sv.permissions
            &&& post.github_users.len() == sv.github_users.len()
            &&& forall|k: int|
                0 <= k < sv.github_users.len() && (#[trigger] sv.github_users[k]).id != id
                    ==> post.github_users[k] == sv.github_users[k]
            &&& find_github_user_by_id(post.github_users, id) matches Some(g2) && g2.user_id
                == g.user_id && g2.login == new_login && g2.avatar_url == g.avatar_url
                && g2.html_url == g.html_url
        }),
{
    let g = find_github_user_by_id(sv.github_users, id).unwrap();
    let post = upsert_github_user_spec(sv, id, g.user_id, new_login, g.avatar_url, g.html_url);
    let row = github_user_row(id, g.user_id, new_login, g.avatar_url, g.html_url);
    lemma_find_github_user_by_id_some(sv.github_users, id);
    let k = choose|k: int| 0 <= k < sv.github_users.len() && sv.github_users[k] == g;
    assert forall|j: int| 0 <= j < k implies (#[trigger] post.github_users[j]).id != id by {
        assert(sv.github_users[j].id != sv.github_users[k].id);
    }
    assert(post.github_users[k] == row);
    lemma_find_github_user_by_id_at(post.github_users, id, k);
}

/// Once a login callback has written a user's id to the session, resolving
/// that session identifies the same user and their external identity: what
/// login writes, the resolver reads back.
pub proof fn lemma_login_session_resolves(sv: StoreView, uid: int, u: UserView, g: GithubUserView)
    requires
        0 <= uid <= i32::MAX as int,
        find_user_by_id(sv.users, uid) == Some(u),
        find_github_user_by_user_id(sv.github_users, u.id) == Some(g),
    ensures
        resolve(sv, Some(dec_str(uid as nat))) == (Resolution::Identified {
            user: u,
            github_user: g,
        }),
{
    lemma_dec_str_val(uid as nat);
    assert(parse_user_id(dec_str(uid as nat)) == Some(uid));
}

/// The permission set the resolver reports for a user is exactly the set of
/// names on that user's grant rows, independent of row order: a name is in
/// the set precisely when some grant row carries it for that user.
pub proof fn lemma_permission_names_exact(sv: StoreView, user_id: int)
    ensures
        forall|n: Seq<char>|
            #[trigger] permission_names_of(sv, user_id).contains(n) <==> exists|i: int|
                0 <= i < sv.permissions.len() && (#[trigger] sv.permissions[i]).user_id == user_id
                    && sv.permissions[i].name == n,
{
    let pred = |p: PermissionView| p.user_id == user_id;
    let rows = grants_for(sv.permissions, user_id);
    let names = names_of(rows);
    assert forall|n: Seq<char>| #[trigger] permission_names_of(sv, user_id).contains(n) implies
        exists|i: int|
            0 <= i < sv.permissions.len() && (#[trigger] sv.permissions[i]).user_id == user_id
                && sv.permissions[i].name == n by {
        let j = choose|j: int| 0 <= j < names.len() && names[j] == n;
        sv.permissions.lemma_filter_pred(pred, j);
        lemma_filter_element_of(sv.permissions, pred, j);
        let k = choose|k: int| 0 <= k < sv.permissions.len() && sv.permissions[k] == rows[j];
        assert(sv.permissions[k].user_id == user_id && sv.permissions[k].name == n);
    }
    assert forall|n: Seq<char>|
        (exists|i: int|
            0 <= i < sv.permissions.len() && (#[trigger] sv.permissions[i]).user_id == user_id
                && sv.permissions[i].name == n) implies #[trigger] permission_names_of(
        sv,
        user_id,
    ).contains(n) by {
        let i = choose|i: int|
            0 <= i < sv.permissions.len() && (#[trigger] sv.permissions[i]).user_id == user_id
                && sv.permissions[i].name == n;
        sv.permissions.lemma_filter_contains(pred, i);
        let j = choose|j: int| 0 <= j < rows.len() && rows[j] == sv.permissions[i];
        assert(names[j] == n);
        assert(names.contains(n));
    }
}

} // verus!
