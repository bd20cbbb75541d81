pub mod bilibili;
pub mod challenge;
pub mod config;
pub mod credential;
pub mod error;
pub mod hcaptcha;
pub mod json;
pub mod models;
pub mod question;
pub mod rng;
pub mod store;
pub mod text;
