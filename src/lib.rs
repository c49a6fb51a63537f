pub mod auth;
pub mod client;
pub mod error;
pub mod text;
pub mod time;
pub mod request;
pub mod types;
pub mod events;
