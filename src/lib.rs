pub mod article;
pub mod encoding;
pub mod error;
pub mod headers;
pub mod login;
pub mod proxy;
pub mod rewrite;
pub mod script;
pub mod session;
pub mod target;
pub mod text;
