//! Identity verification and content storage for a small publishing service.
//!
//! [`auth`] turns a bearer credential into a verified, authenticated user and
//! issues credentials at login. [`storage`] keeps byte content under
//! hierarchical paths. [`definitions`] holds the user records and the checks
//! that say what a signed-in user may touch.

pub mod auth;
pub mod definitions;
pub mod storage;
