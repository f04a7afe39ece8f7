//! One stored identity: a name, an e-mail address and an alias.

use vstd::prelude::*;

verus! {

/// A Git identity as the store keeps it.
///
/// The e-mail address is the natural key. The alias is the short handle a
/// profile is switched to by; the empty alias means that the profile has none.
#[derive(Debug, Clone, PartialEq, Eq)]
pub struct Profile {
    pub name: String,
    pub email: String,
    pub alias: String,
}

/// What a [`Profile`] holds, as sequences of characters.
pub struct ProfileView {
    pub name: Seq<char>,
    pub email: Seq<char>,
    pub alias: Seq<char>,
}

impl View for Profile {
    type V = ProfileView;

    open spec fn view(&self) -> ProfileView {
        ProfileView { name: self.name@, email: self.email@, alias: self.alias@ }
    }
}

/// The views of a sequence of profiles, in the same order.
pub open spec fn profile_views(profiles: Seq<Profile>) -> Seq<ProfileView> {
    profiles.map_values(|p: Profile| p@)
}

impl Profile {
    /// A profile made of copies of the three strings.
    pub fn new(name: &str, email: &str, alias: &str) -> (p: Profile)
        ensures
            p@ == (ProfileView { name: name@, email: email@, alias: alias@ }),
    {
        Profile { name: name.to_owned(), email: email.to_owned(), alias: alias.to_owned() }
    }

    /// A copy of this profile that holds the same three strings.
    pub fn duplicate(&self) -> (p: Profile)
        ensures
            p@ == self@,
    {
        Profile { name: self.name.clone(), email: self.email.clone(), alias: self.alias.clone() }
    }

    /// Whether this profile carries an alias.
    pub fn has_alias(&self) -> (b: bool)
        ensures
            b == (self@.alias.len() > 0),
    {
        !self.alias.as_str().is_empty()
    }
}

} // verus!
