//! Text embeddings by table lookup: the rules that locate a token-embedding
//! matrix inside a weight container, gather its rows by token id, pool them
//! into one vector per text, and keep loaded models in a single-flight cache.
//!
//! Every function in this crate is verified. Calls into `candle_core`,
//! `tokenizers`, `serde_json` and a few unspecified parts of `std` stand behind
//! small wrappers whose contracts are assumed; each says so in its comment.

pub mod cache;
pub mod cli;
pub mod config;
pub mod converter;
pub mod device;
pub mod downloader;
pub mod embedder;
pub mod error;
pub mod foreign;
pub mod locator;
pub mod matrix;
pub mod model_config;
pub mod registry;
pub mod server;
pub mod store;
pub mod table;
pub mod text;
pub mod tokenizer;

pub use error::Error;
