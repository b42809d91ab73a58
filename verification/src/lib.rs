pub mod client;
pub mod cookie;
pub mod error;
pub mod flows;
pub mod http;
pub mod model;
pub mod password;
pub mod service;
pub mod session;
pub mod text;
