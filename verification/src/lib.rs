pub mod arg;
pub mod broker;
pub mod config;
pub mod digest;
pub mod endpoint;
pub mod error;
pub mod establishment;
pub mod exts;
pub mod fields;
pub mod io;
pub mod keyexpr;
pub mod msgs;
pub mod query;
pub mod response;
pub mod sample;
pub mod session;
pub mod storage;
pub mod text;
pub mod time;
pub mod wasm;
