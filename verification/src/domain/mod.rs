pub mod auth;
pub mod posts;
pub mod users;
