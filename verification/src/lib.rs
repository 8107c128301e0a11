//! The live core of a persistent multiplayer farming simulation.
//!
//! Every user owns a [`hackstead::Hackstead`]: a profile, an inventory of items
//! and a plot of land whose tiles may hold plants. A [`wormhole::session::Session`]
//! keeps one user's hackstead in memory, applies the user's asks to a pending
//! copy, commits the copy only when the ask succeeded, and tells the client what
//! changed. A [`wormhole::server::Server`] keeps the directory of live sessions
//! and decides the transfers that span two hacksteads.
//!
//! Transport, persistence and clocks live with the caller, which hands in plain
//! values and carries out what comes back. What a function draws at random, an
//! id or the row of a hatch table, it draws behind a function that takes the
//! drawn values as arguments, and that one says exactly what happens.
use vstd::prelude::*;
use vstd::string::*;

pub mod config;
pub mod diff;
pub mod from_csv;
pub mod hackstead;
pub mod id;
pub mod lookup;
pub mod middlewares;
pub mod models;
pub mod text;
pub mod wormhole;

verus! {

/// Why a request could not be served.
#[derive(Debug, PartialEq, Eq)]
pub enum ServiceError {
    /// Something went wrong on our end.
    InternalServerError,
    /// The request was invalid or not usable.
    BadRequest(String),
    /// The caller is not allowed to do that.
    Unauthorized,
    /// Nothing is known of what was requested.
    NoData,
}

impl ServiceError {
    /// A shortcut for making a [`ServiceError::BadRequest`] out of anything that
    /// can be written out.
    pub fn bad_request<T: core::fmt::Display + ?Sized>(t: &T) -> (e: ServiceError)
        ensures
            e matches ServiceError::BadRequest(s) && to_string_from_display_ensures::<T>(t, s),
    {
        ServiceError::BadRequest(t.to_string())
    }

    /// The error for a store that failed: [`ServiceError::NoData`] where what was
    /// sought is not there, [`ServiceError::InternalServerError`] for anything else.
    pub fn from_store(not_found: bool) -> (e: ServiceError)
        ensures
            e == if not_found {
                ServiceError::NoData
            } else {
                ServiceError::InternalServerError
            },
    {
        if not_found {
            ServiceError::NoData
        } else {
            ServiceError::InternalServerError
        }
    }
}

impl text::Complaint for ServiceError {
    open spec fn complaint(&self) -> Seq<char> {
        match *self {
            ServiceError::InternalServerError => "Internal Server Error"@,
            ServiceError::BadRequest(s) => "Bad Request: "@ + s@,
            ServiceError::Unauthorized => "Unauthorized"@,
            ServiceError::NoData => "No data found"@,
        }
    }

    fn message(&self) -> (text: String) {
        match self {
            ServiceError::InternalServerError => String::from_str("Internal Server Error"),
            ServiceError::BadRequest(s) => {
                let mut text = String::from_str("Bad Request: ");
                text.append(s.as_str());
                text
            },
            ServiceError::Unauthorized => String::from_str("Unauthorized"),
            ServiceError::NoData => String::from_str("No data found"),
        }
    }
}

} // verus!
