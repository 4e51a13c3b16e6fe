pub mod jwt;
pub mod middleware;
pub mod password;
pub mod payload;
