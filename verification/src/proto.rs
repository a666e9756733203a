//! The messages the chat client and its server exchange, as plain data.
//!
//! Serialization and the socket handling live with the caller; the library
//! only fixes the vocabulary of the protocol.

use vstd::prelude::*;

verus! {

/// A request sent by the client.
pub enum Command {
    ListUsers,
    Login { email: String, password: Vec<u8> },
    Disconnect,
}

/// An answer sent by the server.
#[derive(Debug)]
pub enum Response {
    UserList(Vec<User>),
    LoginOk,
    LoginInvalid,
}

/// One user as reported by the server.
#[derive(Debug, Clone)]
pub struct User {
    pub user_name: String,
    pub activity: UserActivity,
}

/// What a user is currently doing.
#[derive(Debug, Clone)]
pub enum UserActivity {
    Offline,
    Away,
    Active,
    InProject(String),
}

} // verus!
