pub mod db_pool;
pub mod domain;
pub mod http_server;
pub mod session;
pub mod text;
