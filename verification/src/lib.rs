//! Verified core of the on-call ("astreinte") scheduling service: user
//! accounts and passwords, service tags, and the shift requests that users
//! file and managers validate or refuse.
pub mod models;
pub mod password;
pub mod routes;
pub mod reply;
pub mod text;
