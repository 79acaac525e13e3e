pub mod config;
pub mod headers;
pub mod json;
pub mod num;
pub mod service;
