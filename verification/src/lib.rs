//! An in-memory registry of user records with monotonic id assignment,
//! together with the response values the HTTP layer sends for each request.

pub mod handlers;
pub mod laws;
pub mod store;
pub mod text;
pub mod user;
