//! Checking credentials, resetting a password, and the second factor.
pub mod login;
pub mod reset;
pub mod twofa;
