//! Logic of the theme repository server: themes, users, routes' decisions,
//! page contexts and the text helpers they need.
pub mod auth;
pub mod clock;
pub mod error;
pub mod hashing;
pub mod text;
pub mod themes;
pub mod rendering;
pub mod routes;
pub mod metadata;
pub mod users;
pub mod downloads;
pub mod mongo;
