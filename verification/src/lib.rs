//! Session and request orchestration for a cookie-authenticated web API.
//!
//! The crate models the layer that establishes and persists a session,
//! attaches an anti-forgery token to every outgoing request, paces requests,
//! and collects multi-page result sets with duplication and runaway guards.
//! Network and file transport live outside this crate; every decision the
//! layer makes is verified here.

pub mod collect;
pub mod cookies;
pub mod dispatch;
pub mod error;
pub mod session;
pub mod strutil;
pub mod types;
pub mod urn;

pub use error::LinkedinError;
pub use session::Identity;
pub use urn::UniformResourceName;
pub use urn::get_id_from_urn;
