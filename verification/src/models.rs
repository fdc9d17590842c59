pub mod common;
pub mod compute_env;
pub mod member;
pub mod organization;
pub mod platform;
pub mod team;
pub mod workspace;
