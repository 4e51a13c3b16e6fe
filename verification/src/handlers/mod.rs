pub mod auth;
pub mod comments;
pub mod identity;
pub mod media;
pub mod messages;
