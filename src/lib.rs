pub mod cli;
pub mod config;
pub mod decode;
pub mod error;
pub mod output;
pub mod requests;
pub mod text;
pub mod types;
pub mod xml;
