//! Who a warning is about: the identifiers a chat platform hands out.

use vstd::prelude::*;
use vstd::std_specs::cmp::PartialEqSpecImpl;

verus! {

/// The platform's identifier of a guild.
#[derive(Clone, Copy, Debug, PartialEq, Eq, Structural, Hash)]
pub struct GuildId(pub u64);

/// The platform's identifier of a user.
#[derive(Clone, Copy, Debug, PartialEq, Eq, Structural, Hash)]
pub struct UserId(pub u64);

/// A user as the store keeps it: the identifier that says who it is, and the
/// name under which summaries show it.
#[derive(Debug)]
pub struct User {
    /// What identifies the user. Two values with the same `id` are the same user.
    pub id: UserId,
    /// The display name. It takes no part in comparisons.
    pub name: String,
}

/// The mathematical value of a [`User`].
#[verifier::ext_equal]
pub struct UserView {
    pub id: u64,
    pub name: Seq<char>,
}

impl View for User {
    type V = UserView;

    open spec fn view(&self) -> UserView {
        UserView { id: self.id.0, name: self.name@ }
    }
}

impl User {
    /// A user with the given identifier and display name.
    pub fn new(id: UserId, name: String) -> (user: User)
        ensures
            user@ == (UserView { id: id.0, name: name@ }),
    {
        User { id, name }
    }
}

impl Clone for User {
    fn clone(&self) -> (copy: User)
        ensures
            copy@ == self@,
    {
        User { id: self.id, name: self.name.clone() }
    }
}

impl PartialEq for User {
    fn eq(&self, other: &User) -> (same: bool) {
        self.id.0 == other.id.0
    }
}

impl Eq for User {}

impl PartialEqSpecImpl for User {
    open spec fn obeys_eq_spec() -> bool {
        true
    }

    open spec fn eq_spec(&self, other: &User) -> bool {
        self.id.0 == other.id.0
    }
}

} // verus!
