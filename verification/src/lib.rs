//! Passwordless sign-in by approval link.
//!
//! A client names a user; the server issues a random challenge, keeps it in
//! the client's sealed session and asks an approval service to show the user
//! a prompt whose approve link carries the challenge back. When the link is
//! followed and the challenge matches the one in the session, the session is
//! marked as signed in.
//!
//! The modules hold the decisions only: what each request does to the session
//! and which response it gets. Transport, cookie sealing and the call to the
//! approval service are left to the program that embeds this library.

pub mod response;
pub mod session;
pub mod challenge;
pub mod template;
pub mod config;
pub mod auth;
pub mod laws;
