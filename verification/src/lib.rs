pub mod config;
pub mod constants;
pub mod countdown;
pub mod domain;
pub mod launcher;
pub mod logger;
pub mod paths;
pub mod ping;
pub mod presentation;
pub mod session;
pub mod text;
