pub mod auth;
pub mod handler;
pub mod json;
pub mod protocol;
pub mod session;
pub mod state;
pub mod text;
pub mod wire;
pub mod laws;
pub mod request_laws;
