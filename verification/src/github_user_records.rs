//! Cached records of the OAuth provider's view of a user.

use vstd::prelude::*;

verus! {

use crate::store::IdentityStore;
use crate::store::ModelError;
use crate::store::find_github_user_by_id;
use crate::store::find_github_user_by_login;
use crate::store::find_github_user_by_user_id;
use crate::store::find_user_by_id;
use crate::store::github_user_row;
use crate::store::lemma_find_github_user_by_id_at;
use crate::store::lemma_find_github_user_by_id_none;
use crate::store::lemma_find_github_user_by_login_at;
use crate::store::lemma_find_github_user_by_login_none;
use crate::store::lemma_find_github_user_by_user_id_at;
use crate::store::lemma_find_github_user_by_user_id_none;
use crate::store::lemma_upsert_github_user_wf;
use crate::store::store_wf;
use crate::store::upsert_github_user_row;
use crate::store::upsert_github_user_spec;
use crate::text::str_eq;
use crate::users::User;

/// Mathematical image of a [`GithubUserRecord`] row.
#[verifier::ext_equal]
pub ghost struct GithubUserView {
    pub id: int,
    pub user_id: int,
    pub login: Seq<char>,
    pub avatar_url: Seq<char>,
    pub html_url: Seq<char>,
}

/// Local cache of part of the provider's understanding of who a user is.
/// The id persists across renames on the provider's side and is the durable
/// join key; the login is the human-readable handle and may change.
#[derive(Debug, PartialEq)]
pub struct GithubUserRecord {
    /// A unique id for this user, supplied by the provider and used here as a
    /// primary key.
    pub id: i64,
    /// The id of the local [`User`] this record is linked to.
    pub user_id: i32,
    /// The user's human-readable handle.
    pub login: String,
    /// Url of this user's picture.
    pub avatar_url: String,
    /// Url of this user's profile page at the provider.
    pub html_url: String,
}

impl View for GithubUserRecord {
    type V = GithubUserView;

    open spec fn view(&self) -> GithubUserView {
        GithubUserView {
            id: self.id as int,
            user_id: self.user_id as int,
            login: self.login@,
            avatar_url: self.avatar_url@,
            html_url: self.html_url@,
        }
    }
}

impl DeepView for GithubUserRecord {
    type V = GithubUserView;

    open spec fn deep_view(&self) -> GithubUserView {
        self.view()
    }
}

impl Clone for GithubUserRecord {
    fn clone(&self) -> (r: Self)
        ensures
            r == *self,
    {
        GithubUserRecord {
            id: self.id,
            user_id: self.user_id,
            login: self.login.clone(),
            avatar_url: self.avatar_url.clone(),
            html_url: self.html_url.clone(),
        }
    }
}

impl GithubUserRecord {
    /// Finds or creates the record with the given provider id and ensures it
    /// has the given attributes. The row is rewritten only when the reported
    /// `login`, `avatar_url` or `html_url` differ from the stored values, so
    /// a login that reports nothing new writes nothing. Returns the row as the
    /// store holds it afterwards.
    pub fn find_and_update(
        store: &mut IdentityStore,
        the_id: i64,
        the_user_id: i32,
        the_login: &str,
        the_avatar_url: &str,
        the_html_url: &str,
    ) -> (r: Result<GithubUserRecord, ModelError>)
        requires
            old(store).wf(),
        ensures
            final(store).wf(),
            final(store)@ == upsert_github_user_spec(
                old(store)@,
                the_id as int,
                the_user_id as int,
                the_login@,
                the_avatar_url@,
                the_html_url@,
            ),
            r matches Ok(g) && g@ == upsert_github_user_row(
                old(store)@,
                the_id as int,
                the_user_id as int,
                the_login@,
                the_avatar_url@,
                the_html_url@,
            ),
    {
        let ghost pre = store@;
        proof {
            lemma_upsert_github_user_wf(
                pre,
                the_id as int,
                the_user_id as int,
                the_login@,
                the_avatar_url@,
                the_html_url@,
            );
        }
        let n = store.github_users.len();
        let mut i: usize = 0;
        while i < n
            invariant
                0 <= i <= n,
                n == store@.github_users.len(),
                n == store.github_users@.len(),
                store@ == pre,
                pre == old(store)@,
                store_wf(pre),
                forall|j: int|
                    0 <= j < i ==> #[trigger] store@.github_users[j].id != the_id as int,
            decreases n - i,
        {
            if store.github_users[i].id == the_id {
                proof {
                    lemma_find_github_user_by_id_at(pre.github_users, the_id as int, i as int);
                }
                let same = str_eq(store.github_users[i].login.as_str(), the_login)
                    && str_eq(store.github_users[i].avatar_url.as_str(), the_avatar_url)
                    && str_eq(store.github_users[i].html_url.as_str(), the_html_url);
                if same {
                    return Ok(store.github_users[i].clone());
                }
                let fresh = GithubUserRecord {
                    id: the_id,
                    user_id: the_user_id,
                    login: the_login.to_owned(),
                    avatar_url: the_avatar_url.to_owned(),
                    html_url: the_html_url.to_owned(),
                };
                let result = fresh.clone();
                let ghost fresh_view = fresh@;
                store.github_users[i] = fresh;
                proof {
                    let row = github_user_row(
                        the_id as int,
                        the_user_id as int,
                        the_login@,
                        the_avatar_url@,
                        the_html_url@,
                    );
                    assert(fresh_view =~= row);
                    let mapped = Seq::new(
                        pre.github_users.len(),
                        |k: int|
                            if pre.github_users[k].id == the_id as int {
                                row
                            } else {
                                pre.github_users[k]
                            },
                    );
                    assert forall|k: int| 0 <= k < store@.github_users.len() implies
                        #[trigger] store@.github_users[k] == mapped[k] by {
                        if k != i as int {
                            if k < i as int {
                                assert(pre.github_users[k].id != the_id as int);
                            } else {
                                assert(pre.github_users[i as int].id
                                    != pre.github_users[k].id);
                            }
                        }
                    }
                    assert(store@.github_users =~= mapped);
                    assert(store@ =~= upsert_github_user_spec(
                        pre,
                        the_id as int,
                        the_user_id as int,
                        the_login@,
                        the_avatar_url@,
                        the_html_url@,
                    ));
                }
                return Ok(result);
            }
            i = i + 1;
        }
        proof {
            lemma_find_github_user_by_id_none(pre.github_users, the_id as int);
        }
        let fresh = GithubUserRecord {
            id: the_id,
            user_id: the_user_id,
            login: the_login.to_owned(),
            avatar_url: the_avatar_url.to_owned(),
            html_url: the_html_url.to_owned(),
        };
        let result = fresh.clone();
        let ghost fresh_view = fresh@;
        store.github_users.push(fresh);
        proof {
            let row = github_user_row(
                the_id as int,
                the_user_id as int,
                the_login@,
                the_avatar_url@,
                the_html_url@,
            );
            assert(fresh_view =~= row);
            assert(store@.github_users =~= pre.github_users.push(row));
            assert(store@ =~= upsert_github_user_spec(
                pre,
                the_id as int,
                the_user_id as int,
                the_login@,
                the_avatar_url@,
                the_html_url@,
            ));
        }
        Ok(result)
    }

    /// Finds a record by its provider id; absence is `None`, never an error.
    pub fn find_by_id(store: &IdentityStore, the_id: i64) -> (r: Result<
        Option<GithubUserRecord>,
        ModelError,
    >)
        ensures
            r matches Ok(o) && o.deep_view() == find_github_user_by_id(
                store@.github_users,
                the_id as int,
            ),
    {
        let n = store.github_users.len();
        let mut i: usize = 0;
        while i < n
            invariant
                0 <= i <= n,
                n == store@.github_users.len(),
                n == store.github_users@.len(),
                forall|j: int|
                    0 <= j < i ==> #[trigger] store@.github_users[j].id != the_id as int,
            decreases n - i,
        {
            if store.github_users[i].id == the_id {
                proof {
                    lemma_find_github_user_by_id_at(store@.github_users, the_id as int, i as int);
                }
                return Ok(Some(store.github_users[i].clone()));
            }
            i = i + 1;
        }
        proof {
            lemma_find_github_user_by_id_none(store@.github_users, the_id as int);
        }
        Ok(None)
    }

    /// Finds a record by its login; absence is `None`, never an error.
    pub fn find_by_login(store: &IdentityStore, the_login: &str) -> (r: Result<
        Option<GithubUserRecord>,
        ModelError,
    >)
        ensures
            r matches Ok(o) && o.deep_view() == find_github_user_by_login(
                store@.github_users,
                the_login@,
            ),
    {
        let n = store.github_users.len();
        let mut i: usize = 0;
        while i < n
            invariant
                0 <= i <= n,
                n == store@.github_users.len(),
                n == store.github_users@.len(),
                forall|j: int|
                    0 <= j < i ==> (#[trigger] store@.github_users[j]).login != the_login@,
            decreases n - i,
        {
            if str_eq(store.github_users[i].login.as_str(), the_login) {
                proof {
                    lemma_find_github_user_by_login_at(store@.github_users, the_login@, i as int);
                }
                return Ok(Some(store.github_users[i].clone()));
            }
            i = i + 1;
        }
        proof {
            lemma_find_github_user_by_login_none(store@.github_users, the_login@);
        }
        Ok(None)
    }

    /// Finds a record by its linked local user id; absence is `None`, never an
    /// error.
    pub fn find_by_user_id(store: &IdentityStore, the_user_id: i32) -> (r: Result<
        Option<GithubUserRecord>,
        ModelError,
    >)
        ensures
            r matches Ok(o) && o.deep_view() == find_github_user_by_user_id(
                store@.github_users,
                the_user_id as int,
            ),
    {
        let n = store.github_users.len();
        let mut i: usize = 0;
        while i < n
            invariant
                0 <= i <= n,
                n == store@.github_users.len(),
                n == store.github_users@.len(),
                forall|j: int|
                    0 <= j < i ==> (#[trigger] store@.github_users[j]).user_id != the_user_id as int,
            decreases n - i,
        {
            if store.github_users[i].user_id == the_user_id {
                proof {
                    lemma_find_github_user_by_user_id_at(
                        store@.github_users,
                        the_user_id as int,
                        i as int,
                    );
                }
                return Ok(Some(store.github_users[i].clone()));
            }
            i = i + 1;
        }
        proof {
            lemma_find_github_user_by_user_id_none(store@.github_users, the_user_id as int);
        }
        Ok(None)
    }

    /// Gets the user this record is linked to. A record whose user id does not
    /// resolve is a schema violation, so absence here is an error.
    pub fn get_user(&self, store: &IdentityStore) -> (r: Result<User, ModelError>)
        ensures
            match find_user_by_id(store@.users, self.user_id as int) {
                Some(u) => r matches Ok(ru) && ru@ == u,
                None => r matches Err(ModelError::NotFound),
            },
    {
        match User::find_by_id(store, self.user_id) {
            Ok(Some(u)) => Ok(u),
            Ok(None) => Err(ModelError::NotFound),
            Err(e) => Err(e),
        }
    }
}

} // verus!
