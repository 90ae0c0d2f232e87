pub mod auth;
pub mod json;
pub mod markdown;
pub mod text;
pub mod utils;
