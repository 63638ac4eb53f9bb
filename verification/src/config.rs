//! The process configuration, as plain data. Reading it from the
//! environment happens outside this crate; the values arrive here already
//! resolved.

use vstd::prelude::*;

verus! {

/// Where the HTTP front end binds.
#[derive(Clone, Debug, PartialEq, Eq)]
pub struct Server {
    pub address: String,
    pub port: u16,
}

/// The document store's credentials.
#[derive(Clone, Debug, PartialEq, Eq)]
pub struct Database {
    pub username: String,
    pub password: String,
}

/// The account warning emails are sent from.
#[derive(Clone, Debug, PartialEq, Eq)]
pub struct Notification {
    pub email: String,
    pub password: String,
}

/// The object store's credentials for the robot policy blobs.
#[derive(Clone, Debug, PartialEq, Eq)]
pub struct Storage {
    pub access_key: String,
    pub secret_key: String,
}

} // verus!
