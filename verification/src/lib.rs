//! Session and identity core for a small event-registration backend.
//!
//! The library covers the three parts with real design content: the
//! identity token with its text codec, the session store that holds
//! participant and admin records, and the per-request authentication
//! guard that turns a cookie value into a role-typed outcome. The
//! configuration and the pure string computations of the HTTP-to-HTTPS
//! redirector live here as well; the listeners, the routing and the
//! templating around all of this are plain plumbing and stay outside.

pub mod guard;
pub mod redirect;
pub mod store;
pub mod token;
