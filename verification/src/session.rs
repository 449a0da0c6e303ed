//! The session credential.
//!
//! The transport hands every request a signed, tamper-evident key-value
//! store; the core reads and writes exactly one key of it, holding the
//! signed-in user's id as a decimal string. This type models that one key.
//! The credential is the user id itself, protected by the transport's
//! signing; there is no server-side session table.

use vstd::prelude::*;

verus! {

/// The one session key the core touches.
#[derive(Debug, PartialEq)]
pub struct Session {
    /// The decimal string form of the signed-in user's id, if one is set.
    pub user_id: Option<String>,
}

impl View for Session {
    type V = Option<Seq<char>>;

    open spec fn view(&self) -> Option<Seq<char>> {
        match self.user_id {
            Some(ref s) => Some(s@),
            None => None,
        }
    }
}

impl Session {
    /// A session with no credential.
    pub fn new() -> (r: Session)
        ensures
            r@ is None,
    {
        Session { user_id: None }
    }

    /// Writes the credential.
    pub fn set_user_id(&mut self, value: String)
        ensures
            final(self)@ == Some(value@),
    {
        self.user_id = Some(value);
    }

    /// Removes the credential, effectively logging the user out.
    pub fn remove_user_id(&mut self)
        ensures
            final(self)@ is None,
    {
        self.user_id = None;
    }

    /// Pitches everything the core ever set.
    pub fn clear(&mut self)
        ensures
            final(self)@ is None,
    {
        self.user_id = None;
    }
}

} // verus!
