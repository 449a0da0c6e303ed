//! Identity and authorization core for a small community website.
//!
//! The library models the pieces that turn an opaque session credential into
//! an authenticated identity: a store of local users, externally sourced
//! identity records and permission grants; a resolver that maps a session
//! credential to a user, their external identity and their permissions; two
//! request guards built on the resolver; and the orchestration that completes
//! a login after an OAuth redirect. Transport, rendering and persistence are
//! collaborators that live outside the library; they hand in plain values and
//! take plain values back.

pub mod admin_only;
pub mod controllers;
pub mod github_client;
pub mod github_user_records;
pub mod helpers;
pub mod icons;
pub mod laws;
pub mod maybe_user;
pub mod permissions;
pub mod provisioning;
pub mod session;
pub mod store;
pub mod text;
pub mod user_optional;
pub mod users;
