pub mod application;
pub mod assets;
pub mod cors;
pub mod domain;
pub mod dto;
pub mod errors;
pub mod http;
pub mod persistence;
pub mod rate_limit;
pub mod security_headers;
pub mod text;
pub mod types;
pub mod ui_api;
pub mod ui_components;
pub mod ui_types;
pub mod validation;
