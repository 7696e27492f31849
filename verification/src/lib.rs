pub mod cli;
pub mod data_uri;
pub mod error;
pub mod export;
pub mod handler;
pub mod icc;
pub mod laws;
pub mod model;
pub mod importer;
pub mod parser;
pub mod text;
pub mod writer;

pub use error::{Error, Result};
