//! Client-side logic for a school portal that serves only rendered HTML:
//! locating the session tokens in the login page, describing the requests
//! of a session, and reading the class roster out of the class-list page.
//!
//! Nothing here touches the network. A driver performs the requests that
//! this crate describes and hands the response bodies back.

pub mod classes;
pub mod error;
pub mod json;
pub mod number;
pub mod pattern;
pub mod run;
pub mod session;
pub mod text;
