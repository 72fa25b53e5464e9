//! Request planning and request signing for a cryptocurrency exchange's REST API.

pub mod auth;
pub mod base64url;
pub mod claims;
pub mod client;
pub mod edit_order;
pub mod error;
pub mod json;
pub mod key;
pub mod params;
pub mod query;
pub mod response;
pub mod text;
pub mod token;
