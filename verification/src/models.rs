//! The records that the user account API reads and writes.
use vstd::prelude::*;

verus! {

/// A user as the API shows it: id, name and email, without the password.
#[derive(Clone, Debug, PartialEq, Eq)]
pub struct UserData {
    pub id: u128,
    pub name: String,
    pub email: String,
}

/// The columns that a login reads for an email: the user's id and the
/// stored password hash.
#[derive(Clone, Debug, PartialEq, Eq)]
pub struct UserData2 {
    pub id: u128,
    pub password: String,
}

/// The body of a login request.
#[derive(Clone, Debug, PartialEq, Eq)]
pub struct LoginUser {
    pub email: String,
    pub password: String,
}

/// The body of a registration request.
#[derive(Clone, Debug, PartialEq, Eq)]
pub struct RegisterUser {
    pub name: String,
    pub email: String,
    pub password: String,
}

/// The body of an update request: the fields to change.
#[derive(Clone, Debug, PartialEq, Eq)]
pub struct UpdateUser {
    pub name: Option<String>,
    pub email: Option<String>,
}

/// The row that a registration inserts.
#[derive(Clone, Debug, PartialEq, Eq)]
pub struct NewUser {
    pub id: u128,
    pub name: String,
    pub email: String,
    pub password_hash: String,
}

} // verus!
