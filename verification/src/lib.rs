pub mod api;
pub mod config;
pub mod db;
pub mod domain;
pub mod error;
pub mod mail;
pub mod text;
