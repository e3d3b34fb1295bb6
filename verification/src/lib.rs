//! A mediator before one object-storage bucket: it decides what an inbound
//! request gets (a redirect to a signed link, the answer of an existence
//! probe, or a refusal) and never carries object bytes itself.
//!
//! Each request is handled by itself; nothing is kept between two of them.

pub mod auth;
pub mod config;
pub mod link;
pub mod path;
pub mod router;
pub mod text;

pub use auth::{authenticated, presents_credentials};
pub use config::Config;
pub use link::{build_link, get, link_for_path, put, Credentials, Endpoint, Operation};
pub use path::key;
pub use router::{answer_link, answer_now, answer_probe, route, Action, Reply, Verb};
