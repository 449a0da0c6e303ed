//! The identity store: persistent records for local users, linked external
//! identities and permission grants, held as plain rows.
//!
//! The store enforces its invariants at the operation level, exactly as the
//! row operations do: user and external-identity ids are unique, and at most
//! one grant exists per (user, name) pair. Lookups model the row queries of
//! the original schema: a lookup returns the first matching row, and absence
//! of a row is `None` or an empty list, never an error.

use vstd::prelude::*;

verus! {

use crate::github_user_records::GithubUserRecord;
use crate::github_user_records::GithubUserView;
use crate::permissions::Permission;
use crate::permissions::PermissionView;
use crate::users::User;
use crate::users::UserView;
use crate::users::default_preferred_name;

/// An error common to store operations. Absence of a row is never an error;
/// this is reserved for a row that the schema says must exist and does not.
#[derive(Debug, PartialEq)]
pub enum ModelError {
    /// The entity was not found where the schema requires one. The lack of an
    /// associated record signifies a schema violation.
    NotFound,
}

/// Mathematical image of the whole store.
#[verifier::ext_equal]
pub ghost struct StoreView {
    pub users: Seq<UserView>,
    pub github_users: Seq<GithubUserView>,
    pub permissions: Seq<PermissionView>,
    pub next_user_id: int,
    pub next_permission_id: int,
}

/// The identity store. Rows live in insertion order; fresh ids come from the
/// two counters, which only ever grow. The fields are open so that callers
/// can read rows directly; every operation requires and preserves [`store_wf`],
/// so a caller that writes the fields by hand is on its own to keep it.
pub struct IdentityStore {
    pub users: Vec<User>,
    pub github_users: Vec<GithubUserRecord>,
    pub permissions: Vec<Permission>,
    pub next_user_id: i32,
    pub next_permission_id: i32,
}

impl View for IdentityStore {
    type V = StoreView;

    open spec fn view(&self) -> StoreView {
        StoreView {
            users: self.users@.map_values(|u: User| u@),
            github_users: self.github_users@.map_values(|g: GithubUserRecord| g@),
            permissions: self.permissions@.map_values(|p: Permission| p@),
            next_user_id: self.next_user_id as int,
            next_permission_id: self.next_permission_id as int,
        }
    }
}

/// The store's invariant: ids are unique and below their counters, and no
/// (user, name) pair is granted twice. External identities may point at a
/// user id that no longer resolves, and users may lack an external identity:
/// that partial state is tolerated by the store and judged by its callers.
pub open spec fn store_wf(sv: StoreView) -> bool {
    &&& 1 <= sv.next_user_id <= i32::MAX as int
    &&& 1 <= sv.next_permission_id <= i32::MAX as int
    &&& forall|i: int|
        0 <= i < sv.users.len() ==> 1 <= #[trigger] sv.users[i].id < sv.next_user_id
    &&& forall|i: int, j: int|
        0 <= i < j < sv.users.len() ==> #[trigger] sv.users[i].id != #[trigger] sv.users[j].id
    &&& forall|i: int, j: int|
        0 <= i < j < sv.github_users.len() ==> #[trigger] sv.github_users[i].id
            != #[trigger] sv.github_users[j].id
    &&& forall|i: int|
        0 <= i < sv.permissions.len() ==> 1 <= #[trigger] sv.permissions[i].id
            < sv.next_permission_id
    &&& forall|i: int, j: int|
        0 <= i < j < sv.permissions.len() ==> !((#[trigger] sv.permissions[i]).user_id
            == (#[trigger] sv.permissions[j]).user_id && sv.permissions[i].name
            == sv.permissions[j].name)
}

/// The store with no rows at all.
pub open spec fn empty_store() -> StoreView {
    StoreView {
        users: Seq::empty(),
        github_users: Seq::empty(),
        permissions: Seq::empty(),
        next_user_id: 1,
        next_permission_id: 1,
    }
}

impl IdentityStore {
    /// The store's invariant, stated of the executable value.
    pub open spec fn wf(&self) -> bool {
        store_wf(self@)
    }

    /// A store with no rows.
    pub fn new() -> (r: IdentityStore)
        ensures
            r.wf(),
            r@ == empty_store(),
    {
        let r = IdentityStore {
            users: Vec::new(),
            github_users: Vec::new(),
            permissions: Vec::new(),
            next_user_id: 1,
            next_permission_id: 1,
        };
        proof {
            assert(r@ =~= empty_store());
        }
        r
    }
}

// ---------------------------------------------------------------------------
// Row lookups, as first-match searches over the row sequences.
// ---------------------------------------------------------------------------
/// The first user row with the given id, if any.
pub open spec fn find_user_by_id(users: Seq<UserView>, id: int) -> Option<UserView>
    decreases users.len(),
{
    if users.len() == 0 {
        None
    } else if users[0].id == id {
        Some(users[0])
    } else {
        find_user_by_id(users.drop_first(), id)
    }
}

/// The first external-identity row with the given provider id, if any.
pub open spec fn find_github_user_by_id(ghs: Seq<GithubUserView>, id: int) -> Option<
    GithubUserView,
>
    decreases ghs.len(),
{
    if ghs.len() == 0 {
        None
    } else if ghs[0].id == id {
        Some(ghs[0])
    } else {
        find_github_user_by_id(ghs.drop_first(), id)
    }
}

/// The first external-identity row with the given login, if any.
pub open spec fn find_github_user_by_login(ghs: Seq<GithubUserView>, login: Seq<char>) -> Option<
    GithubUserView,
>
    decreases ghs.len(),
{
    if ghs.len() == 0 {
        None
    } else if ghs[0].login == login {
        Some(ghs[0])
    } else {
        find_github_user_by_login(ghs.drop_first(), login)
    }
}

/// The first external-identity row linked to the given local user id, if any.
pub open spec fn find_github_user_by_user_id(ghs: Seq<GithubUserView>, user_id: int) -> Option<
    GithubUserView,
>
    decreases ghs.len(),
{
    if ghs.len() == 0 {
        None
    } else if ghs[0].user_id == user_id {
        Some(ghs[0])
    } else {
        find_github_user_by_user_id(ghs.drop_first(), user_id)
    }
}

/// The first grant row for the given (user, name) pair, if any.
pub open spec fn find_permission(ps: Seq<PermissionView>, user_id: int, name: Seq<char>) -> Option<
    PermissionView,
>
    decreases ps.len(),
{
    if ps.len() == 0 {
        None
    } else if ps[0].user_id == user_id && ps[0].name == name {
        Some(ps[0])
    } else {
        find_permission(ps.drop_first(), user_id, name)
    }
}

// ---------------------------------------------------------------------------
// Row collections.
// ---------------------------------------------------------------------------
/// All grant rows for a user, in store order.
pub open spec fn grants_for(ps: Seq<PermissionView>, user_id: int) -> Seq<PermissionView> {
    ps.filter(|p: PermissionView| p.user_id == user_id)
}

/// All grant rows with a name, in store order.
pub open spec fn grants_named(ps: Seq<PermissionView>, name: Seq<char>) -> Seq<PermissionView> {
    ps.filter(|p: PermissionView| p.name == name)
}

/// The grant rows carrying exactly the (user, name) pair.
pub open spec fn grant_rows(ps: Seq<PermissionView>, user_id: int, name: Seq<char>) -> Seq<
    PermissionView,
> {
    ps.filter(|p: PermissionView| p.user_id == user_id && p.name == name)
}

/// The grant rows that survive revoking (user, name).
pub open spec fn grants_after_revoke(
    ps: Seq<PermissionView>,
    user_id: int,
    name: Seq<char>,
) -> Seq<PermissionView> {
    ps.filter(|p: PermissionView| !(p.user_id == user_id && p.name == name))
}

/// The names of a sequence of grant rows, in order.
pub open spec fn names_of(ps: Seq<PermissionView>) -> Seq<Seq<char>> {
    ps.map_values(|p: PermissionView| p.name)
}

/// The set of permission names granted to a user.
pub open spec fn permission_names_of(sv: StoreView, user_id: int) -> Set<Seq<char>> {
    names_of(grants_for(sv.permissions, user_id)).to_set()
}

// ---------------------------------------------------------------------------
// Store transitions.
// ---------------------------------------------------------------------------
/// Inserting a fresh user row: the row carries the next user id and the
/// default display name, and the counter moves past it.
pub open spec fn create_user_spec(sv: StoreView) -> (StoreView, UserView) {
    let u = UserView { id: sv.next_user_id, preferred_name: default_preferred_name() };
    (
        StoreView {
            users: sv.users.push(u),
            next_user_id: sv.next_user_id + 1,
            ..sv
        },
        u,
    )
}

/// Granting (user, name): a no-op when an identical grant exists, otherwise
/// one new row with the next grant id.
pub open spec fn grant_permission_spec(sv: StoreView, user_id: int, name: Seq<char>) -> StoreView {
    if find_permission(sv.permissions, user_id, name) is Some {
        sv
    } else {
        StoreView {
            permissions: sv.permissions.push(
                PermissionView { id: sv.next_permission_id, user_id, name },
            ),
            next_permission_id: sv.next_permission_id + 1,
            ..sv
        }
    }
}

/// Revoking (user, name): every matching row goes away; nothing else moves.
pub open spec fn revoke_permission_spec(sv: StoreView, user_id: int, name: Seq<char>) -> StoreView {
    StoreView { permissions: grants_after_revoke(sv.permissions, user_id, name), ..sv }
}

/// The row an upsert of (id, user_id, login, avatar_url, html_url) writes
/// when it writes at all.
pub open spec fn github_user_row(
    id: int,
    user_id: int,
    login: Seq<char>,
    avatar_url: Seq<char>,
    html_url: Seq<char>,
) -> GithubUserView {
    GithubUserView { id, user_id, login, avatar_url, html_url }
}

/// Upserting an external identity. A row with this provider id is rewritten
/// only when the provider-reported content differs, so an identical upsert
/// writes nothing; a missing row is inserted with the given local user id.
pub open spec fn upsert_github_user_spec(
    sv: StoreView,
    id: int,
    user_id: int,
    login: Seq<char>,
    avatar_url: Seq<char>,
    html_url: Seq<char>,
) -> StoreView {
    let row = github_user_row(id, user_id, login, avatar_url, html_url);
    match find_github_user_by_id(sv.github_users, id) {
        Option::None => StoreView { github_users: sv.github_users.push(row), ..sv },
        Option::Some(g) => {
            if g.login == login && g.avatar_url == avatar_url && g.html_url == html_url {
                sv
            } else {
                StoreView {
                    github_users: Seq::new(
                        sv.github_users.len(),
                        |k: int| if sv.github_users[k].id == id { row } else { sv.github_users[k] },
                    ),
                    ..sv
                }
            }
        },
    }
}

/// The row an upsert leaves in the store for its provider id: the stored row
/// when the reported content already matches it, the reported row otherwise.
pub open spec fn upsert_github_user_row(
    sv: StoreView,
    id: int,
    user_id: int,
    login: Seq<char>,
    avatar_url: Seq<char>,
    html_url: Seq<char>,
) -> GithubUserView {
    let row = github_user_row(id, user_id, login, avatar_url, html_url);
    match find_github_user_by_id(sv.github_users, id) {
        Option::None => row,
        Option::Some(g) => {
            if g.login == login && g.avatar_url == avatar_url && g.html_url == html_url {
                g
            } else {
                row
            }
        },
    }
}

// ---------------------------------------------------------------------------
// Lemmas: each lookup is the first match, and absence means no match.
// ---------------------------------------------------------------------------
/// A user lookup returns the first matching row.
pub proof fn lemma_find_user_by_id_at(users: Seq<UserView>, id: int, k: int)
    requires
        0 <= k < users.len(),
        users[k].id == id,
        forall|j: int| 0 <= j < k ==> #[trigger] users[j].id != id,
    ensures
        find_user_by_id(users, id) == Some(users[k]),
    decreases k,
{
    if k > 0 {
        lemma_find_user_by_id_at(users.drop_first(), id, k - 1);
    }
}

/// A user lookup misses exactly when no row matches.
pub proof fn lemma_find_user_by_id_none(users: Seq<UserView>, id: int)
    ensures
        find_user_by_id(users, id) is None <==> forall|j: int|
            0 <= j < users.len() ==> #[trigger] users[j].id != id,
    decreases users.len(),
{
    if users.len() > 0 {
        let rest = users.drop_first();
        lemma_find_user_by_id_none(rest, id);
        assert(forall|j: int| 0 <= j < rest.len() ==> #[trigger] rest[j] == users[j + 1]);
        if find_user_by_id(users, id) is None {
            assert forall|j: int| 0 <= j < users.len() implies #[trigger] users[j].id != id by {
                if j > 0 {
                    assert(rest[j - 1] == users[j]);
                    assert(!(rest[j - 1].id == id));
                }
            }
        } else {
            if !(users[0].id == id) {
                let t = choose|t: int| 0 <= t < rest.len() && rest[t].id == id;
                assert(users[t + 1] == rest[t]);
                assert(users[t + 1].id == id);
            }
        }
    }
}

/// A found user row carries the id it was found by and sits in the store.
pub proof fn lemma_find_user_by_id_some(users: Seq<UserView>, id: int)
    requires
        find_user_by_id(users, id) is Some,
    ensures
        find_user_by_id(users, id) matches Some(u) && u.id == id && users.contains(u),
    decreases users.len(),
{
    if users.len() > 0 && users[0].id != id {
        lemma_find_user_by_id_some(users.drop_first(), id);
    }
}

/// An external-identity lookup by provider id returns the first match.
pub proof fn lemma_find_github_user_by_id_at(ghs: Seq<GithubUserView>, id: int, k: int)
    requires
        0 <= k < ghs.len(),
        ghs[k].id == id,
        forall|j: int| 0 <= j < k ==> #[trigger] ghs[j].id != id,
    ensures
        find_github_user_by_id(ghs, id) == Some(ghs[k]),
    decreases k,
{
    if k > 0 {
        lemma_find_github_user_by_id_at(ghs.drop_first(), id, k - 1);
    }
}

/// An external-identity lookup by provider id misses exactly when no row
/// matches.
pub proof fn lemma_find_github_user_by_id_none(ghs: Seq<GithubUserView>, id: int)
    ensures
        find_github_user_by_id(ghs, id) is None <==> forall|j: int|
            0 <= j < ghs.len() ==> #[trigger] ghs[j].id != id,
    decreases ghs.len(),
{
    if ghs.len() > 0 {
        let rest = ghs.drop_first();
        lemma_find_github_user_by_id_none(rest, id);
        assert(forall|j: int| 0 <= j < rest.len() ==> #[trigger] rest[j] == ghs[j + 1]);
        if find_github_user_by_id(ghs, id) is None {
            assert forall|j: int| 0 <= j < ghs.len() implies #[trigger] ghs[j].id != id by {
                if j > 0 {
                    assert(rest[j - 1] == ghs[j]);
                    assert(!(rest[j - 1].id == id));
                }
            }
        } else {
            if !(ghs[0].id == id) {
                let t = choose|t: int| 0 <= t < rest.len() && rest[t].id == id;
                assert(ghs[t + 1] == rest[t]);
                assert(ghs[t + 1].id == id);
            }
        }
    }
}

/// A found external-identity row carries the provider id it was found by and
/// sits in the store.
pub proof fn lemma_find_github_user_by_id_some(ghs: Seq<GithubUserView>, id: int)
    requires
        find_github_user_by_id(ghs, id) is Some,
    ensures
        find_github_user_by_id(ghs, id) matches Some(g) && g.id == id && ghs.contains(g),
    decreases ghs.len(),
{
    if ghs.len() > 0 && ghs[0].id != id {
        lemma_find_github_user_by_id_some(ghs.drop_first(), id);
    }
}

/// An external-identity lookup by login returns the first match.
pub proof fn lemma_find_github_user_by_login_at(ghs: Seq<GithubUserView>, login: Seq<char>, k: int)
    requires
        0 <= k < ghs.len(),
        ghs[k].login == login,
        forall|j: int| 0 <= j < k ==> (#[trigger] ghs[j]).login != login,
    ensures
        find_github_user_by_login(ghs, login) == Some(ghs[k]),
    decreases k,
{
    if k > 0 {
        lemma_find_github_user_by_login_at(ghs.drop_first(), login, k - 1);
    }
}

/// An external-identity lookup by login misses exactly when no row matches.
pub proof fn lemma_find_github_user_by_login_none(ghs: Seq<GithubUserView>, login: Seq<char>)
    ensures
        find_github_user_by_login(ghs, login) is None <==> forall|j: int|
            0 <= j < ghs.len() ==> (#[trigger] ghs[j]).login != login,
    decreases ghs.len(),
{
    if ghs.len() > 0 {
        let rest = ghs.drop_first();
        lemma_find_github_user_by_login_none(rest, login);
        assert(forall|j: int| 0 <= j < rest.len() ==> #[trigger] rest[j] == ghs[j + 1]);
        if find_github_user_by_login(ghs, login) is None {
            assert forall|j: int| 0 <= j < ghs.len() implies (#[trigger] ghs[j]).login != login by {
                if j > 0 {
                    assert(rest[j - 1] == ghs[j]);
                    assert(!(rest[j - 1].login == login));
                }
            }
        } else {
            if !(ghs[0].login == login) {
                let t = choose|t: int| 0 <= t < rest.len() && rest[t].login == login;
                assert(ghs[t + 1] == rest[t]);
                assert(ghs[t + 1].login == login);
            }
        }
    }
}

/// An external-identity lookup by local user id returns the first match.
pub proof fn lemma_find_github_user_by_user_id_at(ghs: Seq<GithubUserView>, user_id: int, k: int)
    requires
        0 <= k < ghs.len(),
        ghs[k].user_id == user_id,
        forall|j: int| 0 <= j < k ==> (#[trigger] ghs[j]).user_id != user_id,
    ensures
        find_github_user_by_user_id(ghs, user_id) == Some(ghs[k]),
    decreases k,
{
    if k > 0 {
        lemma_find_github_user_by_user_id_at(ghs.drop_first(), user_id, k - 1);
    }
}

/// An external-identity lookup by local user id misses exactly when no row
/// matches.
pub proof fn lemma_find_github_user_by_user_id_none(ghs: Seq<GithubUserView>, user_id: int)
    ensures
        find_github_user_by_user_id(ghs, user_id) is None <==> forall|j: int|
            0 <= j < ghs.len() ==> (#[trigger] ghs[j]).user_id != user_id,
    decreases ghs.len(),
{
    if ghs.len() > 0 {
        let rest = ghs.drop_first();
        lemma_find_github_user_by_user_id_none(rest, user_id);
        assert(forall|j: int| 0 <= j < rest.len() ==> #[trigger] rest[j] == ghs[j + 1]);
        if find_github_user_by_user_id(ghs, user_id) is None {
            assert forall|j: int| 0 <= j < ghs.len() implies (#[trigger] ghs[j]).user_id != user_id by {
                if j > 0 {
                    assert(rest[j - 1] == ghs[j]);
                    assert(!(rest[j - 1].user_id == user_id));
                }
            }
        } else {
            if !(ghs[0].user_id == user_id) {
                let t = choose|t: int| 0 <= t < rest.len() && rest[t].user_id == user_id;
                assert(ghs[t + 1] == rest[t]);
                assert(ghs[t + 1].user_id == user_id);
            }
        }
    }
}

/// A grant lookup returns the first matching row.
pub proof fn lemma_find_permission_at(
    ps: Seq<PermissionView>,
    user_id: int,
    name: Seq<char>,
    k: int,
)
    requires
        0 <= k < ps.len(),
        ps[k].user_id == user_id,
        ps[k].name == name,
        forall|j: int|
            0 <= j < k ==> !((#[trigger] ps[j]).user_id == user_id && ps[j].name == name),
    ensures
        find_permission(ps, user_id, name) == Some(ps[k]),
    decreases k,
{
    if k > 0 {
        lemma_find_permission_at(ps.drop_first(), user_id, name, k - 1);
    }
}

/// A grant lookup misses exactly when no row matches.
pub proof fn lemma_find_permission_none(ps: Seq<PermissionView>, user_id: int, name: Seq<char>)
    ensures
        find_permission(ps, user_id, name) is None <==> forall|j: int|
            0 <= j < ps.len() ==> !((#[trigger] ps[j]).user_id == user_id && ps[j].name == name),
    decreases ps.len(),
{
    if ps.len() > 0 {
        let rest = ps.drop_first();
        lemma_find_permission_none(rest, user_id, name);
        assert(forall|j: int| 0 <= j < rest.len() ==> #[trigger] rest[j] == ps[j + 1]);
        if find_permission(ps, user_id, name) is None {
            assert forall|j: int| 0 <= j < ps.len() implies !((#[trigger] ps[j]).user_id == user_id && ps[j].name == name) by {
                if j > 0 {
                    assert(rest[j - 1] == ps[j]);
                    assert(!(rest[j - 1].user_id == user_id && rest[j - 1].name == name));
                }
            }
        } else {
            if !(ps[0].user_id == user_id && ps[0].name == name) {
                let t = choose|t: int| 0 <= t < rest.len() && rest[t].user_id == user_id && rest[t].name == name;
                assert(ps[t + 1] == rest[t]);
                assert(ps[t + 1].user_id == user_id && ps[t + 1].name == name);
            }
        }
    }
}

/// A found grant row carries the pair it was found by and sits in the store.
pub proof fn lemma_find_permission_some(ps: Seq<PermissionView>, user_id: int, name: Seq<char>)
    requires
        find_permission(ps, user_id, name) is Some,
    ensures
        find_permission(ps, user_id, name) matches Some(p) && p.user_id == user_id && p.name
            == name && ps.contains(p),
    decreases ps.len(),
{
    if ps.len() > 0 && !(ps[0].user_id == user_id && ps[0].name == name) {
        lemma_find_permission_some(ps.drop_first(), user_id, name);
    }
}

// ---------------------------------------------------------------------------
// Lemmas: transitions preserve the invariant.
// ---------------------------------------------------------------------------
/// Creating a user keeps the store well formed.
pub proof fn lemma_create_user_wf(sv: StoreView)
    requires
        store_wf(sv),
        sv.next_user_id < i32::MAX as int,
    ensures
        store_wf(create_user_spec(sv).0),
{
    let post = create_user_spec(sv).0;
    assert(forall|i: int|
        0 <= i < sv.users.len() ==> #[trigger] post.users[i] == sv.users[i]);
}

/// Every element of a filtered sequence is an element of the original.
pub proof fn lemma_filter_element_of<A>(s: Seq<A>, pred: spec_fn(A) -> bool, i: int)
    requires
        0 <= i < s.filter(pred).len(),
    ensures
        exists|k: int| 0 <= k < s.len() && s[k] == s.filter(pred)[i],
    decreases s.len(),
{
    reveal(Seq::filter);
    if s.len() > 0 {
        let d = s.drop_last();
        let fd = d.filter(pred);
        if pred(s.last()) && i == fd.len() {
            assert(s[s.len() - 1] == s.filter(pred)[i]);
        } else {
            lemma_filter_element_of(d, pred, i);
            let k = choose|k: int| 0 <= k < d.len() && d[k] == fd[i];
            assert(s[k] == d[k]);
        }
    }
}

/// Upserting an external identity keeps the store well formed.
pub proof fn lemma_upsert_github_user_wf(
    sv: StoreView,
    id: int,
    user_id: int,
    login: Seq<char>,
    avatar_url: Seq<char>,
    html_url: Seq<char>,
)
    requires
        store_wf(sv),
    ensures
        store_wf(upsert_github_user_spec(sv, id, user_id, login, avatar_url, html_url)),
{
    let post = upsert_github_user_spec(sv, id, user_id, login, avatar_url, html_url);
    match find_github_user_by_id(sv.github_users, id) {
        Option::None => {
            lemma_find_github_user_by_id_none(sv.github_users, id);
            assert(forall|i: int|
                0 <= i < sv.github_users.len() ==> #[trigger] post.github_users[i]
                    == sv.github_users[i]);
        },
        Option::Some(g) => {
            if !(g.login == login && g.avatar_url == avatar_url && g.html_url == html_url) {
                assert(forall|i: int|
                    0 <= i < sv.github_users.len() ==> (#[trigger] post.github_users[i]).id
                        == sv.github_users[i].id);
            }
        },
    }
}

/// Revoking a permission keeps the store well formed.
pub proof fn lemma_revoke_permission_wf(sv: StoreView, user_id: int, name: Seq<char>)
    requires
        store_wf(sv),
    ensures
        store_wf(revoke_permission_spec(sv, user_id, name)),
{
    lemma_grants_after_revoke_rows(sv.permissions, user_id, name, sv.next_permission_id);
}

/// The rows that survive a revoke still have unique (user, name) pairs and
/// ids below the grant counter.
proof fn lemma_grants_after_revoke_rows(
    ps: Seq<PermissionView>,
    user_id: int,
    name: Seq<char>,
    next: int,
)
    requires
        forall|i: int| 0 <= i < ps.len() ==> 1 <= (#[trigger] ps[i]).id < next,
        forall|i: int, j: int|
            0 <= i < j < ps.len() ==> !((#[trigger] ps[i]).user_id == (#[trigger] ps[j]).user_id
                && ps[i].name == ps[j].name),
    ensures
        ({
            let f = grants_after_revoke(ps, user_id, name);
            &&& forall|i: int| 0 <= i < f.len() ==> 1 <= (#[trigger] f[i]).id < next
            &&& forall|i: int, j: int|
                0 <= i < j < f.len() ==> !((#[trigger] f[i]).user_id == (#[trigger] f[j]).user_id
                    && f[i].name == f[j].name)
        }),
    decreases ps.len(),
{
    reveal(Seq::filter);
    let pred = |p: PermissionView| !(p.user_id == user_id && p.name == name);
    let f = grants_after_revoke(ps, user_id, name);
    if ps.len() > 0 {
        let d = ps.drop_last();
        assert(forall|i: int| 0 <= i < d.len() ==> #[trigger] d[i] == ps[i]);
        lemma_grants_after_revoke_rows(d, user_id, name, next);
        let fd = grants_after_revoke(d, user_id, name);
        if pred(ps.last()) {
            assert(f =~= fd.push(ps.last()));
            assert forall|i: int| 0 <= i < fd.len() implies !((#[trigger] fd[i]).user_id
                == ps.last().user_id && fd[i].name == ps.last().name) by {
                lemma_filter_element_of(d, pred, i);
                let k = choose|k: int| 0 <= k < d.len() && d[k] == fd[i];
                assert(ps[k] == fd[i]);
                assert(!(ps[k].user_id == ps[ps.len() - 1].user_id && ps[k].name == ps[ps.len()
                    - 1].name));
            }
            assert forall|i: int| 0 <= i < f.len() implies 1 <= (#[trigger] f[i]).id < next by {
                if i < fd.len() {
                    assert(f[i] == fd[i]);
                } else {
                    assert(f[i] == ps[ps.len() - 1]);
                }
            }
        } else {
            assert(f =~= fd);
        }
    }
}

/// Granting a permission keeps the store well formed.
pub proof fn lemma_grant_permission_wf(sv: StoreView, user_id: int, name: Seq<char>)
    requires
        store_wf(sv),
        sv.next_permission_id < i32::MAX as int,
    ensures
        store_wf(grant_permission_spec(sv, user_id, name)),
{
    let post = grant_permission_spec(sv, user_id, name);
    if find_permission(sv.permissions, user_id, name) is None {
        lemma_find_permission_none(sv.permissions, user_id, name);
        assert(forall|i: int|
            0 <= i < sv.permissions.len() ==> #[trigger] post.permissions[i]
                == sv.permissions[i]);
    }
}

} // verus!
