pub mod posts;
pub mod users;
pub mod utils;
