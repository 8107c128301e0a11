//! How a user can be reached.
use crate::id::SteaderId;
use vstd::prelude::*;

verus! {

/// The ways to reach a user.
#[derive(Debug, PartialEq, Eq)]
pub enum UserContact {
    /// By email alone.
    Email(String),
    /// By slack alone.
    Slack(String),
    /// By either.
    Both { email: String, slack: String },
}

impl UserContact {
    /// The user's email address, where one is known.
    pub fn email(&self) -> (address: Option<&str>)
        ensures
            match *self {
                UserContact::Email(s) => address is Some && address->0@ == s@,
                UserContact::Both { email, .. } => address is Some && address->0@ == email@,
                UserContact::Slack(_) => address is None,
            },
    {
        match self {
            UserContact::Email(s) => Some(s.as_str()),
            UserContact::Both { email, .. } => Some(email.as_str()),
            UserContact::Slack(_) => None,
        }
    }

    /// The user's slack id, where one is known.
    pub fn slack(&self) -> (id: Option<&str>)
        ensures
            match *self {
                UserContact::Slack(s) => id is Some && id->0@ == s@,
                UserContact::Both { slack, .. } => id is Some && id->0@ == slack@,
                UserContact::Email(_) => id is None,
            },
    {
        match self {
            UserContact::Slack(s) => Some(s.as_str()),
            UserContact::Both { slack, .. } => Some(slack.as_str()),
            UserContact::Email(_) => None,
        }
    }
}

/// A user: an id, and how to reach them.
#[derive(Debug, PartialEq, Eq)]
pub struct User {
    pub id: SteaderId,
    pub contact: UserContact,
}

/// Asks for the user with an id.
#[derive(Clone, Copy, Debug, PartialEq, Eq, Structural)]
pub struct UserRequest {
    pub id: SteaderId,
}

impl User {
    /// A new user to be reached as given, under an id drawn at random.
    pub fn new(contact: UserContact) -> (user: User)
        ensures
            user.contact == contact,
            user.id.0 & crate::id::KIND_BITS == crate::id::RANDOM_KIND,
    {
        User { id: SteaderId::fresh(), contact }
    }

    /// The request that finds this user.
    pub fn request(&self) -> (request: UserRequest)
        ensures
            request.id == self.id,
    {
        UserRequest { id: self.id }
    }
}

} // verus!
