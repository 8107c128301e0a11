//! The wormhole: the live connection between a user and the user's hackstead.
pub mod note;
pub mod server;
pub mod session;
