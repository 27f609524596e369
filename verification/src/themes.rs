//! The documents the server stores: themes, their reports, and users.
use vstd::prelude::*;

verus! {

/// What the database adds to every stored document: its object id, in
/// hexadecimal.
#[derive(Clone, Debug)]
pub struct MongoMetadata {
    pub id: String,
}

/// A report filed against a theme.
#[derive(Clone, Debug)]
pub struct Report {
    /// When it was filed, in milliseconds since the Unix epoch.
    pub date_millis: i64,
    pub reason: String,
    pub info: String,
}

/// A theme as stored in the `themes` collection.
#[derive(Clone, Debug)]
pub struct Theme {
    pub name: String,
    pub date: String,
    /// Id of the user who uploaded it.
    pub author: String,
    /// Name of the user who uploaded it.
    pub pauthor: String,
    /// File name of the theme's archive.
    pub path: String,
    /// Address of a screenshot, or empty.
    pub screen: String,
    pub updated: String,
    pub description: String,
    /// The install count, a 64-bit float kept as its IEEE-754 bit pattern.
    pub installs_bits: u64,
    /// The vote count, a 64-bit float kept as its IEEE-754 bit pattern.
    pub votes_bits: u64,
    pub reports: Vec<Report>,
    pub approved: bool,
    pub mongo: MongoMetadata,
}

/// A user as stored in the `users` collection.
#[derive(Clone, Debug)]
pub struct User {
    pub name: String,
    pub id: String,
    /// The bcrypt hash of the user's password (stored under the key `pass`).
    pub password: String,
    pub date: String,
    pub mongo: MongoMetadata,
}

/// A kind of document stored in a collection of its own.
pub trait MongoDocument {
    /// Name of the collection that holds documents of this kind.
    fn collection_name() -> String;

    /// The object id of the document.
    fn get_id(&self) -> &String;
}

impl MongoDocument for Theme {
    fn collection_name() -> (r: String)
        ensures
            r@ == "themes"@,
    {
        String::from_str("themes")
    }

    fn get_id(&self) -> (r: &String)
        ensures
            r == self.mongo.id,
    {
        &self.mongo.id
    }
}

impl MongoDocument for User {
    fn collection_name() -> (r: String)
        ensures
            r@ == "users"@,
    {
        String::from_str("users")
    }

    fn get_id(&self) -> (r: &String)
        ensures
            r == self.mongo.id,
    {
        &self.mongo.id
    }
}

} // verus!
