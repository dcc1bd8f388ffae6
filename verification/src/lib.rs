//! Picks one open issue of a GitHub repository at random.
//!
//! The crate holds the decisions of the service and none of its I/O. A
//! request is a [`session::Session`]: it names the upstream call to make
//! next, the caller makes it, and the outcome advances the session until it
//! has its response. On the way the outcome of the rate-limit call is held
//! against the quota floor, the open-issue count against the ceiling, and
//! the pages of open issues are gathered until an empty one arrives.
//!
//! - [`model`], [`error`], [`response`]: the values of a request and of its end.
//! - [`credential`], [`client`]: the credential, the request for an endpoint,
//!   and the reading of what came back.
//! - [`json`], [`decode`]: upstream bodies, parsed by `serde_json` and
//!   decoded into the shapes of [`model`].
//! - [`guard`], [`fetch`], [`select`]: the two guards, the paginated fetch
//!   and the random choice, by `rand`.
//! - [`session`]: the orchestrator.
//! - [`course`]: a request replayed over a script of outcomes, and what
//!   holds of every request.

pub mod client;
pub mod course;
pub mod credential;
pub mod decode;
pub mod error;
pub mod fetch;
pub mod guard;
pub mod json;
pub mod model;
pub mod response;
pub mod select;
pub mod session;
pub mod text;
