//! Authentication for one user at a time: checking credentials, resetting a
//! password by a token of limited life, and switching two-factor
//! authentication on and off.
//!
//! The users are kept by a [`db::repository::UserRepository`]. The
//! operations of [`auth`] load a [`db::models::User`] from it, decide, and
//! save what they changed; the conversations of [`process`] string them
//! together, one answer of the user at a time.
//!
//! What an operation may return, and what it may do to user and store, is
//! stated over the views of these values: a user as a
//! [`db::models::UserView`], a store as the map of the users it holds. No
//! answer tells an unknown account from a wrong secret.
pub mod auth;
pub mod clock;
pub mod db;
pub mod errors;
pub mod process;
pub mod utils;
pub mod validation;
