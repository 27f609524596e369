//! The collections the server reads and writes.
use vstd::prelude::*;

verus! {

/// A collection of the server's database.
#[derive(Clone, Copy, Debug, PartialEq, Eq, Structural)]
pub enum CollectionName {
    Themes,
    Users,
}

/// The collection that document queries by collection name go to: themes
/// and users each have their own; any other name is a programming error.
pub fn collection_by_name(name: &str) -> (r: CollectionName)
    requires
        name@ == "themes"@ || name@ == "users"@,
    ensures
        name@ == "themes"@ ==> r == CollectionName::Themes,
        name@ == "users"@ ==> r == CollectionName::Users,
{
    proof {
        reveal_strlit("themes");
        reveal_strlit("users");
        assert("themes"@[0] != "users"@[0]);
    }
    let k = String::from_str(name);
    if k == String::from_str("themes") {
        CollectionName::Themes
    } else {
        CollectionName::Users
    }
}

} // verus!
