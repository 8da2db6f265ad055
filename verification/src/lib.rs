//! A small user and colour service core: greetings, a user store keyed by
//! generated identifiers with deduplicated colours, the request handlers that
//! drive it, and the cross-origin response policy.

pub mod api;
pub mod color;
pub mod cors;
pub mod hello;
pub mod laws;
pub mod statement;
pub mod store;
pub mod user;

pub use crate::api::{create_user, delete_user, get_user, get_users};
pub use crate::cors::CORS;
pub use crate::user::{User, UserRecord};
